//! The player's body: position, velocity, hitbox and jump cooldown.

use vstd::prelude::*;
use crate::config::{
    ViewportSize, BIRD_HITBOX_FACTOR, GRAVITY, JUMP_COOLDOWN, JUMP_VELOCITY, MAX_VELOCITY,
};
use crate::geometry::{clamp_to_world, clamp_world, in_world, Rect, Vec2, WORLD_LIMIT};

verus! {

/// Horizontal position at which a new bird is placed (200 pixels).
pub const START_X: i64 = 20000;

/// A new bird is placed this far above the middle of the screen (128 pixels).
pub const START_RISE: i64 = 12800;

/// Velocity range that is mapped onto the range of tilt (7 pixels per tick either way).
pub const TILT_VELOCITY: i64 = 700;

/// Largest tilt in milliradians (0.6 radian either way).
pub const TILT_ANGLE: i64 = 600;

/// The bird. `position` is the centre of the sprite, `jump_cd` the number of
/// ticks until the next jump is accepted; it may be negative. The sprite's
/// size is in pixels.
#[derive(Clone, Copy, Debug, PartialEq, Eq, Structural)]
pub struct Bird {
    pub position: Vec2,
    pub velocity: Vec2,
    pub sprite_width: u32,
    pub sprite_height: u32,
    pub hitbox: Rect,
    pub jump_cd: i64,
}

/// How to draw the bird: where its anchor goes, its rotation in
/// milliradians, and the anchor's place within the sprite in percent.
#[derive(Clone, Copy, Debug, PartialEq, Eq, Structural)]
pub struct DrawParam {
    pub dest: Vec2,
    pub rotation: i64,
    pub offset: Vec2,
}

/// The hitbox of a bird at `position`: centred there, nine tenths of the
/// drawn sprite in each direction.
pub open spec fn bird_hitbox(position: Vec2, sprite_width: int, sprite_height: int) -> Rect {
    Rect {
        x: (position.x - sprite_width * BIRD_HITBOX_FACTOR / 2) as i64,
        y: (position.y - sprite_height * BIRD_HITBOX_FACTOR / 2) as i64,
        w: (sprite_width * BIRD_HITBOX_FACTOR) as i64,
        h: (sprite_height * BIRD_HITBOX_FACTOR) as i64,
    }
}

/// Vertical velocity after one tick of gravity.
pub open spec fn after_gravity(vy: int) -> int {
    if vy < MAX_VELOCITY {
        vy + GRAVITY
    } else {
        vy
    }
}

/// A cooldown after `dt` more ticks; it stops at the smallest `i64`.
pub open spec fn cooled(cd: int, dt: int) -> int {
    if cd - dt < i64::MIN {
        i64::MIN as int
    } else {
        cd - dt
    }
}

/// What `nalgebra::clamp` returns on integers.
pub open spec fn clamped(val: int, min: int, max: int) -> int {
    if val > min {
        if val < max {
            val
        } else {
            max
        }
    } else {
        min
    }
}

/// `value`, clamped to `old_min ..= old_max`, mapped linearly onto
/// `new_min ..= new_max` and rounded down.
pub open spec fn rescaled(value: int, old_min: int, old_max: int, new_min: int, new_max: int) -> int {
    (clamped(value, old_min, old_max) - old_min) * (new_max - new_min) / (old_max - old_min)
        + new_min
}

/// Tilt in milliradians of a bird with vertical velocity `vy`.
pub open spec fn tilt(vy: int) -> int {
    rescaled(vy, -TILT_VELOCITY, TILT_VELOCITY as int, -TILT_ANGLE, TILT_ANGLE as int)
}

impl Bird {
    /// The hitbox is the one that the position and the sprite give.
    pub open spec fn hitbox_current(self) -> bool {
        self.hitbox == bird_hitbox(self.position, self.sprite_width as int, self.sprite_height as int)
    }

    pub open spec fn wf(self) -> bool {
        &&& self.position.wf()
        &&& self.velocity.wf()
        &&& self.hitbox_current()
    }

    /// The bird one tick of gravity and movement later.
    pub open spec fn moved(self) -> Bird {
        let velocity = Vec2 { x: self.velocity.x, y: after_gravity(self.velocity.y as int) as i64 };
        let position = Vec2 {
            x: clamp_to_world(self.position.x + velocity.x) as i64,
            y: clamp_to_world(self.position.y + velocity.y) as i64,
        };
        Bird {
            position,
            velocity,
            hitbox: bird_hitbox(position, self.sprite_width as int, self.sprite_height as int),
            ..self
        }
    }

    /// The bird right after an accepted jump.
    pub open spec fn jumped(self) -> Bird {
        Bird { velocity: Vec2 { x: 0, y: JUMP_VELOCITY }, jump_cd: JUMP_COOLDOWN, ..self }
    }

    /// Whether a jump is accepted now.
    pub open spec fn can_jump(self) -> bool {
        self.jump_cd <= 0
    }

    /// The bird moved to `position`, hitbox included.
    pub open spec fn placed_at(self, position: Vec2) -> Bird {
        Bird {
            position,
            hitbox: bird_hitbox(position, self.sprite_width as int, self.sprite_height as int),
            ..self
        }
    }

    /// Whether the bird is inside the world, not faster than the world is
    /// wide, and has the hitbox that belongs to its position.
    pub fn is_wf(&self) -> (ok: bool)
        ensures
            ok == self.wf(),
    {
        if !self.position.is_wf() || !self.velocity.is_wf() {
            return false;
        }
        let w: i64 = self.sprite_width as i64 * BIRD_HITBOX_FACTOR;
        let h: i64 = self.sprite_height as i64 * BIRD_HITBOX_FACTOR;
        self.hitbox.x == self.position.x - w / 2 && self.hitbox.y == self.position.y - h / 2
            && self.hitbox.w == w && self.hitbox.h == h
    }

    /// Recomputes the hitbox from the position.
    pub fn update_hitbox(&mut self)
        requires
            old(self).position.wf(),
        ensures
            *final(self) == old(self).placed_at(old(self).position),
            final(self).hitbox_current(),
    {
        let w: i64 = self.sprite_width as i64 * BIRD_HITBOX_FACTOR;
        let h: i64 = self.sprite_height as i64 * BIRD_HITBOX_FACTOR;
        self.hitbox = Rect { x: self.position.x - w / 2, y: self.position.y - h / 2, w, h };
    }

    /// Puts the bird at `position` and recomputes its hitbox.
    pub fn place(&mut self, position: Vec2)
        requires
            position.wf(),
        ensures
            *final(self) == old(self).placed_at(position),
            old(self).velocity.wf() ==> final(self).wf(),
    {
        self.position = position;
        self.update_hitbox();
    }

    /// One tick of physics: gravity accelerates the bird unless it already
    /// falls at full speed, the velocity is added to the position (which
    /// stops at the edge of the world), and the hitbox follows.
    pub fn apply_gravity_and_move(&mut self)
        requires
            old(self).wf(),
        ensures
            *final(self) == old(self).moved(),
            final(self).wf(),
    {
        if self.velocity.y < MAX_VELOCITY {
            self.velocity.y = self.velocity.y + GRAVITY;
        }
        self.position.x = clamp_world(self.position.x + self.velocity.x);
        self.position.y = clamp_world(self.position.y + self.velocity.y);
        self.update_hitbox();
    }

    /// Jumps if the cooldown has run out: the velocity becomes the jump
    /// velocity and the cooldown starts again. Otherwise nothing changes.
    pub fn jump(&mut self) -> (accepted: bool)
        ensures
            accepted == old(self).can_jump(),
            accepted ==> *final(self) == old(self).jumped(),
            !accepted ==> *final(self) == *old(self),
            old(self).wf() ==> final(self).wf(),
    {
        if self.jump_cd <= 0 {
            self.velocity = Vec2 { x: 0, y: JUMP_VELOCITY };
            self.jump_cd = JUMP_COOLDOWN;
            true
        } else {
            false
        }
    }

    /// Lets `dt` ticks of the cooldown pass.
    pub fn tick_cooldown(&mut self, dt: u32)
        ensures
            *final(self) == (Bird { jump_cd: cooled(old(self).jump_cd as int, dt as int) as i64, ..*old(self) }),
    {
        if self.jump_cd >= i64::MIN + dt as i64 {
            self.jump_cd = self.jump_cd - dt as i64;
        } else {
            self.jump_cd = i64::MIN;
        }
    }
}

/// The bird as a session starts with it: at rest, left of the middle and
/// above it, ready to jump.
pub fn initiate_player(sprite_width: u32, sprite_height: u32, viewport: ViewportSize) -> (bird: Bird)
    ensures
        bird.position == (Vec2 { x: START_X, y: (viewport.spec_height() / 2 - START_RISE) as i64 }),
        bird.velocity == (Vec2 { x: 0, y: 0 }),
        bird.sprite_width == sprite_width,
        bird.sprite_height == sprite_height,
        bird.jump_cd == 0,
        bird.wf(),
{
    let position = Vec2 { x: START_X, y: viewport.height_units() / 2 - START_RISE };
    let mut bird = Bird {
        position,
        velocity: Vec2 { x: 0, y: 0 },
        sprite_width,
        sprite_height,
        hitbox: Rect { x: 0, y: 0, w: 0, h: 0 },
        jump_cd: 0,
    };
    bird.update_hitbox();
    bird
}

/// Calls `nalgebra::clamp`, which returns `val` where it lies strictly
/// between `min` and `max`, `min` where `val` is not above `min`, and `max`
/// otherwise; it compares and never panics.
#[verifier::external_body]
fn clamp(val: i64, min: i64, max: i64) -> (r: i64)
    ensures
        r == clamped(val as int, min as int, max as int),
{
    nalgebra::clamp(val, min, max)
}

/// Maps `value` from `old_min ..= old_max` onto `new_min ..= new_max`,
/// clamping it to the first range and rounding down.
pub fn rescale_range(value: i64, old_min: i64, old_max: i64, new_min: i64, new_max: i64) -> (r: i64)
    requires
        old_min < old_max,
        new_min <= new_max,
        in_world(old_min as int),
        in_world(old_max as int),
        in_world(new_min as int),
        in_world(new_max as int),
    ensures
        r == rescaled(value as int, old_min as int, old_max as int, new_min as int, new_max as int),
        new_min <= r <= new_max,
{
    let old_range: i128 = old_max as i128 - old_min as i128;
    let new_range: i128 = new_max as i128 - new_min as i128;
    let offset: i128 = clamp(value, old_min, old_max) as i128 - old_min as i128;
    assert(0 <= offset <= old_range);
    assert(0 <= offset * new_range <= old_range * new_range <= 4 * WORLD_LIMIT * WORLD_LIMIT)
        by (nonlinear_arith)
        requires
            0 <= offset <= old_range <= 2 * WORLD_LIMIT,
            0 <= new_range <= 2 * WORLD_LIMIT,
    ;
    let scaled: i128 = offset * new_range / old_range;
    assert(0 <= scaled <= new_range) by (nonlinear_arith)
        requires
            scaled == (offset * new_range) / (old_range as int),
            0 <= offset * new_range <= old_range * new_range,
            0 < old_range,
            0 <= new_range,
    ;
    (scaled + new_min as i128) as i64
}

/// Where and how to draw the bird: at its position, anchored at the middle
/// of the sprite, tilted by its vertical velocity.
pub fn draw_player(player: &Bird) -> (params: DrawParam)
    ensures
        params.dest == player.position,
        params.rotation == tilt(player.velocity.y as int),
        params.offset == (Vec2 { x: 50, y: 50 }),
        -TILT_ANGLE <= params.rotation <= TILT_ANGLE,
{
    let angle: i64 = rescale_range(player.velocity.y, -TILT_VELOCITY, TILT_VELOCITY, -TILT_ANGLE, TILT_ANGLE);
    DrawParam { dest: player.position, rotation: angle, offset: Vec2 { x: 50, y: 50 } }
}

} // verus!
