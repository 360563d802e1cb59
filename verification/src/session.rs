//! The session: the bird, the pipes, the score and the state machine that
//! ties them together, advanced one fixed tick at a time.

use vstd::prelude::*;
use crate::audio::AudioEvent;
use crate::bird::{cooled, initiate_player, Bird, START_RISE, START_X};
use crate::config::{ViewportSize, PIPE_FREQ};
use crate::geometry::Vec2;
use crate::pipe::{
    offset_high, offset_low, offset_range, pipe_at_offset, random_offset, spawned_pipe, Pipe,
};
use crate::stream::{
    advance_pipes, advanced, all_placed, all_refreshed, all_wf, lemma_pruned_members, on_screen,
    prune_pipes, pruned, refresh_pipes, scan_pipes, scanned, Tally,
};

verus! {

/// Where a session stands. It only ever moves forward.
#[derive(Clone, Copy, Debug, PartialEq, Eq, Structural)]
pub enum GameState {
    NotStarted,
    Running,
    GameOver,
}

/// A session of the game.
#[derive(Clone, Debug)]
pub struct GameSession {
    pub bird: Bird,
    pub pipes: Vec<Pipe>,
    pub score: u32,
    pub state: GameState,
    /// Ticks until the next pipe enters.
    pub pipe_spawn_timer: i64,
    /// Size in pixels of the sprite that every pipe is drawn with.
    pub pipe_sprite_width: u32,
    pub pipe_sprite_height: u32,
}

/// A session as a mathematical value.
pub struct SessionModel {
    pub bird: Bird,
    pub pipes: Seq<Pipe>,
    pub score: u32,
    pub state: GameState,
    pub pipe_spawn_timer: i64,
    pub pipe_sprite_width: u32,
    pub pipe_sprite_height: u32,
}

impl View for GameSession {
    type V = SessionModel;

    open spec fn view(&self) -> SessionModel {
        SessionModel {
            bird: self.bird,
            pipes: self.pipes@,
            score: self.score,
            state: self.state,
            pipe_spawn_timer: self.pipe_spawn_timer,
            pipe_sprite_width: self.pipe_sprite_width,
            pipe_sprite_height: self.pipe_sprite_height,
        }
    }
}

/// Where the bird waits before the session starts: a quarter of the screen
/// from the left, half way down.
pub open spec fn resting_point(viewport: ViewportSize) -> Vec2 {
    Vec2 { x: (viewport.spec_width() / 4) as i64, y: (viewport.spec_height() / 2) as i64 }
}

/// Whether a spawn timer runs out on the next tick.
pub open spec fn spawn_due(timer: int) -> bool {
    timer - 1 <= 0
}

/// A spawn timer one tick later.
pub open spec fn next_timer(timer: int) -> int {
    if spawn_due(timer) {
        PIPE_FREQ as int
    } else {
        timer - 1
    }
}

impl SessionModel {
    pub open spec fn wf(self) -> bool {
        &&& self.bird.wf()
        &&& all_wf(self.pipes)
        &&& 0 <= self.pipe_spawn_timer <= PIPE_FREQ
    }

    /// The session with the bird at its resting point.
    pub open spec fn rested(self, viewport: ViewportSize) -> SessionModel {
        SessionModel { bird: self.bird.placed_at(resting_point(viewport)), ..self }
    }

    /// The session with one tick less of cooldown.
    pub open spec fn cooled_down(self) -> SessionModel {
        SessionModel {
            bird: Bird { jump_cd: cooled(self.bird.jump_cd as int, 1) as i64, ..self.bird },
            ..self
        }
    }

    /// The session after the start was asked for.
    pub open spec fn started(self, viewport: ViewportSize) -> SessionModel {
        if self.state is NotStarted {
            SessionModel { state: GameState::Running, ..self.rested(viewport) }
        } else {
            self
        }
    }

    /// Whether a jump asked for now is accepted.
    pub open spec fn jump_accepted(self) -> bool {
        self.state is Running && self.bird.can_jump()
    }

    /// The session after a jump was asked for.
    pub open spec fn jump_requested(self) -> SessionModel {
        if self.jump_accepted() {
            SessionModel { bird: self.bird.jumped(), ..self }
        } else {
            self
        }
    }

    /// The session after the bird's part of a tick: gravity and movement,
    /// the cooldown, and the end of a running session whose bird has fallen
    /// below the screen.
    pub open spec fn player_updated(self, viewport: ViewportSize) -> SessionModel {
        let moved = SessionModel { bird: self.bird.moved(), ..self }.cooled_down();
        if self.state is Running && moved.bird.position.y > viewport.spec_height() {
            SessionModel { state: GameState::GameOver, ..moved }
        } else {
            moved
        }
    }

    /// The pipes after a tick: moved, joined by a new one if the timer ran
    /// out, without those that left the screen, hitboxes up to date.
    pub open spec fn pipes_after(self, viewport: ViewportSize, offset: int) -> Seq<Pipe> {
        let moved = advanced(self.pipes);
        let joined = if spawn_due(self.pipe_spawn_timer as int) {
            moved.push(spawned_pipe(viewport, self.pipe_sprite_width, self.pipe_sprite_height, offset))
        } else {
            moved
        };
        all_refreshed(pruned(joined))
    }

    /// The session after the pipes' part of a tick, and the sounds it asks
    /// for. `offset` places the gap of a pipe that enters on this tick.
    pub open spec fn pipe_updated(self, viewport: ViewportSize, offset: int) -> (
        SessionModel,
        Seq<AudioEvent>,
    ) {
        let pipes = self.pipes_after(viewport, offset);
        let tally = scanned(
            pipes,
            self.bird,
            Tally { over: !(self.state is Running), score: self.score, events: Seq::empty() },
            pipes.len(),
        );
        (
            SessionModel {
                pipes,
                pipe_spawn_timer: next_timer(self.pipe_spawn_timer as int) as i64,
                score: tally.score,
                state: if self.state is Running && tally.over {
                    GameState::GameOver
                } else {
                    self.state
                },
                ..self
            },
            tally.events,
        )
    }

    /// The session one tick later, and the sounds the tick asks for. Before
    /// the start the bird is held at its resting point; while the session
    /// runs the bird moves, then the pipes; once it is over nothing changes.
    pub open spec fn ticked(self, viewport: ViewportSize, offset: int) -> (
        SessionModel,
        Seq<AudioEvent>,
    ) {
        match self.state {
            GameState::NotStarted => (self.rested(viewport).cooled_down(), Seq::empty()),
            GameState::Running => self.player_updated(viewport).pipe_updated(viewport, offset),
            GameState::GameOver => (self, Seq::empty()),
        }
    }
}

/// After a tick's move, spawn and pruning every pipe is inside the world.
pub proof fn lemma_joined_pipes_placed(pipes: Seq<Pipe>, extra: Seq<Pipe>)
    requires
        all_placed(pipes),
        all_placed(extra),
    ensures
        all_placed(pruned(advanced(pipes) + extra)),
{
    let joined = advanced(pipes) + extra;
    let kept = pruned(joined);
    lemma_pruned_members(joined);
    assert forall|j: int| 0 <= j < kept.len() implies (#[trigger] kept[j]).placed() by {
        assert(on_screen(kept[j]));
        let i = choose|i: int| 0 <= i < joined.len() && joined[i] == kept[j];
        if i < pipes.len() {
            assert(pipes[i].placed());
        } else {
            assert(extra[i - pipes.len()].placed());
        }
    }
}

impl GameSession {
    /// A session that has not started: the bird where `initiate_player`
    /// puts it, no pipes, no points, a pipe due on the first tick.
    pub fn new(
        bird_sprite_width: u32,
        bird_sprite_height: u32,
        pipe_sprite_width: u32,
        pipe_sprite_height: u32,
        viewport: ViewportSize,
    ) -> (session: GameSession)
        ensures
            session@.wf(),
            session.state is NotStarted,
            session.score == 0,
            session.pipes@.len() == 0,
            session.pipe_spawn_timer == 0,
            session.pipe_sprite_width == pipe_sprite_width,
            session.pipe_sprite_height == pipe_sprite_height,
            session.bird.sprite_width == bird_sprite_width,
            session.bird.sprite_height == bird_sprite_height,
            session.bird.position == (Vec2 {
                x: START_X,
                y: (viewport.spec_height() / 2 - START_RISE) as i64,
            }),
            session.bird.velocity == (Vec2 { x: 0, y: 0 }),
            session.bird.jump_cd == 0,
    {
        GameSession {
            bird: initiate_player(bird_sprite_width, bird_sprite_height, viewport),
            pipes: Vec::new(),
            score: 0,
            state: GameState::NotStarted,
            pipe_spawn_timer: 0,
            pipe_sprite_width,
            pipe_sprite_height,
        }
    }

    /// Whether the bird and every pipe are well formed and the spawn timer
    /// is within its period.
    pub fn is_wf(&self) -> (ok: bool)
        ensures
            ok == self@.wf(),
    {
        if !self.bird.is_wf() || self.pipe_spawn_timer < 0 || self.pipe_spawn_timer > PIPE_FREQ {
            return false;
        }
        let n = self.pipes.len();
        let mut i: usize = 0;
        while i < n
            invariant
                i <= n,
                n == self.pipes.len(),
                forall|j: int| 0 <= j < i ==> (#[trigger] self.pipes[j]).wf(),
            decreases n - i,
        {
            if !self.pipes[i].is_wf() {
                return false;
            }
            i = i + 1;
        }
        true
    }

    /// Starts a session that has not started, with the bird at its resting
    /// point, and asks for the opening sound. Otherwise nothing happens.
    pub fn start(&mut self, viewport: ViewportSize) -> (sound: Option<AudioEvent>)
        ensures
            final(self)@ == old(self)@.started(viewport),
            sound == if old(self).state is NotStarted {
                Some(AudioEvent::Begin)
            } else {
                None
            },
            old(self)@.wf() ==> final(self)@.wf(),
    {
        match self.state {
            GameState::NotStarted => {
                self.bird.place(rest_at(viewport));
                self.state = GameState::Running;
                Some(AudioEvent::Begin)
            },
            _ => None,
        }
    }

    /// Makes the bird jump if the session runs and the cooldown has run
    /// out, and asks for the jump sound. Otherwise nothing happens.
    pub fn player_jump(&mut self) -> (sound: Option<AudioEvent>)
        ensures
            final(self)@ == old(self)@.jump_requested(),
            sound == if old(self)@.jump_accepted() {
                Some(AudioEvent::Jump)
            } else {
                None
            },
            old(self)@.wf() ==> final(self)@.wf(),
    {
        match self.state {
            GameState::Running => {
                if self.bird.jump() {
                    Some(AudioEvent::Jump)
                } else {
                    None
                }
            },
            _ => None,
        }
    }

    /// The bird's part of a tick.
    pub fn player_update(&mut self, viewport: ViewportSize)
        requires
            old(self)@.wf(),
        ensures
            final(self)@ == old(self)@.player_updated(viewport),
            final(self)@.wf(),
    {
        self.bird.apply_gravity_and_move();
        match self.state {
            GameState::Running => {
                if self.bird.position.y > viewport.height_units() {
                    self.state = GameState::GameOver;
                }
            },
            _ => {},
        }
        self.bird.tick_cooldown(1);
    }

    /// The pipes' part of a tick, with the gap of a pipe that enters on this
    /// tick placed by `offset`; where none enters, `offset` is not looked at.
    /// Returns the sounds to play, in order.
    pub fn pipe_update_with(&mut self, viewport: ViewportSize, offset: i64) -> (events: Vec<AudioEvent>)
        requires
            old(self)@.wf(),
            spawn_due(old(self).pipe_spawn_timer as int) ==> offset_low() <= offset <= offset_high(
                viewport,
            ),
        ensures
            (final(self)@, events@) == old(self)@.pipe_updated(viewport, offset as int),
            final(self)@.wf(),
    {
        advance_pipes(&mut self.pipes);
        let ghost moved = self.pipes@;
        self.pipe_spawn_timer = self.pipe_spawn_timer - 1;
        if self.pipe_spawn_timer <= 0 {
            let pipe = pipe_at_offset(viewport, self.pipe_sprite_width, self.pipe_sprite_height, offset);
            self.pipes.push(pipe);
            self.pipe_spawn_timer = PIPE_FREQ;
            proof {
                assert(self.pipes@ =~= moved + seq![pipe]);
                lemma_joined_pipes_placed(old(self).pipes@, seq![pipe]);
            }
        } else {
            proof {
                assert(self.pipes@ =~= moved + Seq::<Pipe>::empty());
                lemma_joined_pipes_placed(old(self).pipes@, Seq::<Pipe>::empty());
            }
        }
        prune_pipes(&mut self.pipes);
        refresh_pipes(&mut self.pipes);
        let running = match self.state {
            GameState::Running => true,
            _ => false,
        };
        let (over, score, events) = scan_pipes(&self.pipes, &self.bird, !running, self.score);
        if running && over {
            self.state = GameState::GameOver;
        }
        self.score = score;
        events
    }

    /// The pipes' part of a tick. A pipe that enters has its gap at a
    /// random height within the range that the screen allows.
    pub fn pipe_update(&mut self, viewport: ViewportSize) -> (events: Vec<AudioEvent>)
        requires
            old(self)@.wf(),
        ensures
            exists|offset: int|
                offset_low() <= offset <= offset_high(viewport) && (final(self)@, events@)
                    == #[trigger] old(self)@.pipe_updated(viewport, offset),
            final(self)@.wf(),
    {
        let offset: i64 = self.draw_offset(viewport);
        self.pipe_update_with(viewport, offset)
    }

    /// The offset for a pipe that may enter on the next tick: drawn at
    /// random if one is due, the smallest one otherwise.
    fn draw_offset(&self, viewport: ViewportSize) -> (offset: i64)
        ensures
            offset_low() <= offset <= offset_high(viewport),
    {
        let (low, high) = offset_range(viewport);
        if self.pipe_spawn_timer <= 1 {
            random_offset(low, high)
        } else {
            low
        }
    }

    /// One tick, with the gap of a pipe that enters on it placed by `offset`.
    pub fn update_with(&mut self, viewport: ViewportSize, offset: i64) -> (events: Vec<AudioEvent>)
        requires
            old(self)@.wf(),
            old(self).state is Running && spawn_due(old(self).pipe_spawn_timer as int) ==> offset_low()
                <= offset <= offset_high(viewport),
        ensures
            (final(self)@, events@) == old(self)@.ticked(viewport, offset as int),
            final(self)@.wf(),
    {
        match self.state {
            GameState::NotStarted => {
                self.bird.place(rest_at(viewport));
                self.bird.tick_cooldown(1);
                Vec::new()
            },
            GameState::Running => {
                self.player_update(viewport);
                self.pipe_update_with(viewport, offset)
            },
            GameState::GameOver => Vec::new(),
        }
    }

    /// One tick of the simulation. Returns the sounds to play, in order.
    pub fn update(&mut self, viewport: ViewportSize) -> (events: Vec<AudioEvent>)
        requires
            old(self)@.wf(),
        ensures
            exists|offset: int|
                offset_low() <= offset <= offset_high(viewport) && (final(self)@, events@)
                    == #[trigger] old(self)@.ticked(viewport, offset),
            final(self)@.wf(),
    {
        let offset: i64 = self.draw_offset(viewport);
        self.update_with(viewport, offset)
    }
}

/// The resting point of the bird on a screen of the given size.
pub fn rest_at(viewport: ViewportSize) -> (point: Vec2)
    ensures
        point == resting_point(viewport),
        point.wf(),
{
    Vec2 { x: viewport.width_units() / 4, y: viewport.height_units() / 2 }
}

} // verus!
