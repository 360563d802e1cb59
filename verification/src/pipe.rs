//! A pipe: an upper and a lower barrier with a gap between them.

use vstd::prelude::*;
use crate::config::{ViewportSize, PIPE_GAP, PIPE_HITBOX_FACTOR, SPRITE_MARGIN};
use crate::geometry::{in_world, is_in_world, Rect};
use rand::Rng;

verus! {

/// One obstacle. Both barriers share `x`; the gap lies between `gap_top_y`
/// (lower end of the upper barrier) and `gap_bottom_y` (upper end of the
/// lower barrier). The sprite's size is in pixels.
#[derive(Clone, Copy, Debug, PartialEq, Eq, Structural)]
pub struct Pipe {
    pub x: i64,
    pub gap_top_y: i64,
    pub gap_bottom_y: i64,
    pub sprite_width: u32,
    pub sprite_height: u32,
    pub hitbox_down: Rect,
    pub hitbox_up: Rect,
}

/// Hitbox of the lower barrier of a pipe at `x`.
pub open spec fn lower_hitbox(x: int, gap_bottom_y: int, sprite_width: int, sprite_height: int) -> Rect {
    Rect {
        x: x as i64,
        y: gap_bottom_y as i64,
        w: (sprite_width * PIPE_HITBOX_FACTOR) as i64,
        h: (sprite_height * PIPE_HITBOX_FACTOR) as i64,
    }
}

/// Hitbox of the upper barrier of a pipe at `x`: it ends at `gap_top_y` and
/// reaches one scaled sprite height up from there.
pub open spec fn upper_hitbox(x: int, gap_top_y: int, sprite_width: int, sprite_height: int) -> Rect {
    Rect {
        x: x as i64,
        y: (gap_top_y - sprite_height * PIPE_HITBOX_FACTOR) as i64,
        w: (sprite_width * PIPE_HITBOX_FACTOR) as i64,
        h: (sprite_height * PIPE_HITBOX_FACTOR) as i64,
    }
}

/// Smallest offset of the gap's lower edge above the bottom of the screen.
pub open spec fn offset_low() -> int {
    SPRITE_MARGIN as int
}

/// Largest such offset: the margin below the middle of the screen, or the
/// smallest offset where the screen is too low for that.
pub open spec fn offset_high(viewport: ViewportSize) -> int {
    if viewport.spec_height() / 2 - SPRITE_MARGIN < SPRITE_MARGIN {
        SPRITE_MARGIN as int
    } else {
        viewport.spec_height() / 2 - SPRITE_MARGIN
    }
}

/// The pipe that enters at the right edge of the screen with its gap's lower
/// edge `offset` above the bottom.
pub open spec fn spawned_pipe(viewport: ViewportSize, sprite_width: u32, sprite_height: u32, offset: int) -> Pipe {
    let x = viewport.spec_width();
    let bottom = viewport.spec_height() - offset;
    let top = bottom - PIPE_GAP;
    Pipe {
        x: x as i64,
        gap_top_y: top as i64,
        gap_bottom_y: bottom as i64,
        sprite_width,
        sprite_height,
        hitbox_down: lower_hitbox(x, bottom, sprite_width as int, sprite_height as int),
        hitbox_up: upper_hitbox(x, top, sprite_width as int, sprite_height as int),
    }
}

impl Pipe {
    /// Both hitboxes are the ones that the position and the sprite give.
    pub open spec fn hitboxes_current(self) -> bool {
        &&& self.hitbox_down == lower_hitbox(
            self.x as int,
            self.gap_bottom_y as int,
            self.sprite_width as int,
            self.sprite_height as int,
        )
        &&& self.hitbox_up == upper_hitbox(
            self.x as int,
            self.gap_top_y as int,
            self.sprite_width as int,
            self.sprite_height as int,
        )
    }

    /// The pipe lies inside the world and its gap has the fixed height.
    pub open spec fn placed(self) -> bool {
        &&& in_world(self.x as int)
        &&& in_world(self.gap_bottom_y as int)
        &&& self.gap_bottom_y - self.gap_top_y == PIPE_GAP
    }

    pub open spec fn wf(self) -> bool {
        self.placed() && self.hitboxes_current()
    }

    /// Whether the pipe is inside the world, has a gap of the fixed height
    /// and the hitboxes that belong to its position.
    pub fn is_wf(&self) -> (ok: bool)
        ensures
            ok == self.wf(),
    {
        if !is_in_world(self.x) || !is_in_world(self.gap_bottom_y) {
            return false;
        }
        if self.gap_top_y != self.gap_bottom_y - PIPE_GAP {
            return false;
        }
        let w: i64 = self.sprite_width as i64 * PIPE_HITBOX_FACTOR;
        let h: i64 = self.sprite_height as i64 * PIPE_HITBOX_FACTOR;
        self.hitbox_down.x == self.x && self.hitbox_down.y == self.gap_bottom_y
            && self.hitbox_down.w == w && self.hitbox_down.h == h && self.hitbox_up.x == self.x
            && self.hitbox_up.y == self.gap_top_y - h && self.hitbox_up.w == w && self.hitbox_up.h
            == h
    }

    /// Recomputes both hitboxes from the position.
    pub fn update_hitboxes(&mut self)
        requires
            old(self).placed(),
        ensures
            final(self).hitboxes_current(),
            final(self).wf(),
            final(self).x == old(self).x,
            final(self).gap_top_y == old(self).gap_top_y,
            final(self).gap_bottom_y == old(self).gap_bottom_y,
            final(self).sprite_width == old(self).sprite_width,
            final(self).sprite_height == old(self).sprite_height,
    {
        let w: i64 = self.sprite_width as i64 * PIPE_HITBOX_FACTOR;
        let h: i64 = self.sprite_height as i64 * PIPE_HITBOX_FACTOR;
        self.hitbox_down = Rect { x: self.x, y: self.gap_bottom_y, w, h };
        self.hitbox_up = Rect { x: self.x, y: self.gap_top_y - h, w, h };
    }

    /// Whether `body` touches either barrier.
    pub fn hits(&self, body: &Rect) -> (hit: bool)
        ensures
            hit == self.spec_hits(*body),
    {
        body.overlaps(&self.hitbox_down) || body.overlaps(&self.hitbox_up)
    }

    pub open spec fn spec_hits(self, body: Rect) -> bool {
        body.spec_overlaps(self.hitbox_down) || body.spec_overlaps(self.hitbox_up)
    }
}

/// Builds the pipe that enters the screen with the given offset.
pub fn pipe_at_offset(viewport: ViewportSize, sprite_width: u32, sprite_height: u32, offset: i64) -> (pipe: Pipe)
    requires
        offset_low() <= offset <= offset_high(viewport),
    ensures
        pipe == spawned_pipe(viewport, sprite_width, sprite_height, offset as int),
        pipe.wf(),
        pipe.x == viewport.spec_width(),
        pipe.gap_bottom_y == viewport.spec_height() - offset,
        pipe.gap_top_y == pipe.gap_bottom_y - PIPE_GAP,
{
    let x: i64 = viewport.width_units();
    let bottom: i64 = viewport.height_units() - offset;
    let top: i64 = bottom - PIPE_GAP;
    let w: i64 = sprite_width as i64 * PIPE_HITBOX_FACTOR;
    let h: i64 = sprite_height as i64 * PIPE_HITBOX_FACTOR;
    Pipe {
        x,
        gap_top_y: top,
        gap_bottom_y: bottom,
        sprite_width,
        sprite_height,
        hitbox_down: Rect { x, y: bottom, w, h },
        hitbox_up: Rect { x, y: top - h, w, h },
    }
}

/// The range from which the gap offset is drawn, `(low, high)`.
pub fn offset_range(viewport: ViewportSize) -> (range: (i64, i64))
    ensures
        range.0 == offset_low(),
        range.1 == offset_high(viewport),
        range.0 <= range.1,
{
    let high: i64 = viewport.height_units() / 2 - SPRITE_MARGIN;
    if high < SPRITE_MARGIN {
        (SPRITE_MARGIN, SPRITE_MARGIN)
    } else {
        (SPRITE_MARGIN, high)
    }
}

/// Draws an integer from `low ..= high` with `rand::thread_rng().gen_range`.
/// The generator is seeded by the system, so nothing is claimed of the value
/// but that it lies in the range, which `gen_range` documents; on an empty
/// range `gen_range` panics, hence the precondition. Where the system has no
/// source of randomness to seed from, `thread_rng` panics whatever the range.
#[verifier::external_body]
pub(crate) fn random_offset(low: i64, high: i64) -> (value: i64)
    requires
        low <= high,
    ensures
        low <= value <= high,
{
    rand::thread_rng().gen_range(low..=high)
}

/// A new pipe at the right edge of the screen, its gap at a random height.
pub fn generate_pipe(viewport: ViewportSize, sprite_width: u32, sprite_height: u32) -> (pipe: Pipe)
    ensures
        exists|offset: int|
            offset_low() <= offset <= offset_high(viewport) && pipe == #[trigger] spawned_pipe(
                viewport,
                sprite_width,
                sprite_height,
                offset,
            ),
        pipe.wf(),
        pipe.x == viewport.spec_width(),
        pipe.gap_top_y == pipe.gap_bottom_y - PIPE_GAP,
        viewport.spec_height() - offset_high(viewport) <= pipe.gap_bottom_y <= viewport.spec_height()
            - offset_low(),
{
    let (low, high) = offset_range(viewport);
    let offset: i64 = random_offset(low, high);
    pipe_at_offset(viewport, sprite_width, sprite_height, offset)
}

} // verus!
