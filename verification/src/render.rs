//! What a frame shows. The frame is a plain description; drawing it is the
//! caller's business. Positions are in world units.

use vstd::prelude::*;
use crate::bird::{draw_player, tilt, DrawParam};
use crate::config::ViewportSize;
use crate::geometry::Vec2;
use crate::input::{Controls, MUTE_AREA_MIN};
use crate::pipe::Pipe;
use crate::session::{GameSession, GameState};

verus! {

/// Where the two barriers of a pipe are drawn: the lower one downwards from
/// `lower`, the upper one mirrored, upwards from `upper`.
#[derive(Clone, Copy, Debug, PartialEq, Eq, Structural)]
pub struct PipeSprites {
    pub lower: Vec2,
    pub upper: Vec2,
}

/// Everything a frame shows.
#[derive(Clone, Debug)]
pub struct Frame {
    /// Where the background's anchor goes.
    pub background: Vec2,
    /// The bird.
    pub bird: DrawParam,
    /// The pipes, oldest first.
    pub pipes: Vec<PipeSprites>,
    /// Before the start: where the title is centred.
    pub title: Option<Vec2>,
    /// Before the start: where the hint on the keys is centred.
    pub start_hint: Option<Vec2>,
    /// Before the start: where the mute button goes, and whether it shows
    /// the sound as switched off.
    pub mute_button: Option<(Vec2, bool)>,
    /// From the start on: the score to print in the upper left corner.
    pub score: Option<u32>,
    /// Once the session is over: where the closing text is centred.
    pub game_over: Option<Vec2>,
}

/// Where the sprites of a pipe go.
pub open spec fn sprites_of(p: Pipe) -> PipeSprites {
    PipeSprites { lower: Vec2 { x: p.x, y: p.gap_bottom_y }, upper: Vec2 { x: p.x, y: p.gap_top_y } }
}

/// Where the sprites of every pipe go.
pub open spec fn all_sprites(pipes: Seq<Pipe>) -> Seq<PipeSprites> {
    pipes.map_values(|p: Pipe| sprites_of(p))
}

/// The point of the screen at the given fractions of its width and height,
/// each fraction a numerator over a denominator.
pub open spec fn screen_point(viewport: ViewportSize, x_num: int, x_den: int, y_num: int, y_den: int) -> Vec2 {
    Vec2 {
        x: (viewport.spec_width() * x_num / x_den) as i64,
        y: (viewport.spec_height() * y_num / y_den) as i64,
    }
}

/// The frame that shows the session as it stands.
pub fn scene(session: &GameSession, controls: &Controls, viewport: ViewportSize) -> (frame: Frame)
    ensures
        frame.background == (Vec2 {
            x: (viewport.spec_height() / 2) as i64,
            y: (viewport.spec_height() / 2) as i64,
        }),
        frame.bird.dest == session.bird.position,
        frame.bird.rotation == tilt(session.bird.velocity.y as int),
        frame.bird.offset == (Vec2 { x: 50, y: 50 }),
        frame.pipes@ == all_sprites(session.pipes@),
        frame.title == if session.state is NotStarted {
            Some(screen_point(viewport, 1, 2, 1, 3))
        } else {
            None
        },
        frame.start_hint == if session.state is NotStarted {
            Some(screen_point(viewport, 1, 2, 3, 4))
        } else {
            None
        },
        frame.mute_button == if session.state is NotStarted {
            Some((Vec2 { x: MUTE_AREA_MIN, y: MUTE_AREA_MIN }, controls.muted))
        } else {
            None
        },
        frame.score == if session.state is NotStarted {
            None
        } else {
            Some(session.score)
        },
        frame.game_over == if session.state is GameOver {
            Some(screen_point(viewport, 1, 2, 1, 2))
        } else {
            None
        },
{
    let w: i64 = viewport.width_units();
    let h: i64 = viewport.height_units();
    let n = session.pipes.len();
    let mut pipes: Vec<PipeSprites> = Vec::new();
    let mut i: usize = 0;
    while i < n
        invariant
            i <= n,
            n == session.pipes.len(),
            pipes.len() == i,
            forall|j: int| 0 <= j < i ==> pipes[j] == sprites_of(#[trigger] session.pipes[j]),
        decreases n - i,
    {
        let p = session.pipes[i];
        pipes.push(
            PipeSprites { lower: Vec2 { x: p.x, y: p.gap_bottom_y }, upper: Vec2 { x: p.x, y: p.gap_top_y } },
        );
        i = i + 1;
    }
    assert(pipes@ =~= all_sprites(session.pipes@));
    let waiting = match session.state {
        GameState::NotStarted => true,
        _ => false,
    };
    let over = match session.state {
        GameState::GameOver => true,
        _ => false,
    };
    Frame {
        background: Vec2 { x: h / 2, y: h / 2 },
        bird: draw_player(&session.bird),
        pipes,
        title: if waiting {
            Some(Vec2 { x: w / 2, y: h / 3 })
        } else {
            None
        },
        start_hint: if waiting {
            Some(Vec2 { x: w / 2, y: h * 3 / 4 })
        } else {
            None
        },
        mute_button: if waiting {
            Some((Vec2 { x: MUTE_AREA_MIN, y: MUTE_AREA_MIN }, controls.muted))
        } else {
            None
        },
        score: if waiting {
            None
        } else {
            Some(session.score)
        },
        game_over: if over {
            Some(Vec2 { x: w / 2, y: h / 2 })
        } else {
            None
        },
    }
}

} // verus!
