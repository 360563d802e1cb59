//! What holds of every session, whatever the player does.

use vstd::prelude::*;
use crate::audio::AudioEvent;
use crate::bird::Bird;
use crate::config::{ViewportSize, GRAVITY, JUMP_COOLDOWN, JUMP_VELOCITY, MAX_VELOCITY, PIPE_FREQ};
use crate::input::InputEvent;
use crate::pipe::{offset_high, offset_low, spawned_pipe, Pipe};
use crate::session::{next_timer, spawn_due, GameState, SessionModel};
use crate::stream::{
    advanced, all_refreshed, lemma_pruned_members, on_screen, pruned, refreshed, scanned, shifted,
    tested, Tally,
};

verus! {

/// Gravity never slows the fall: a tick of movement adds the fixed
/// acceleration to the vertical velocity while that is below the cap, and
/// leaves it as it is from then on.
pub proof fn lemma_gravity_monotonic(bird: Bird)
    ensures
        bird.moved().velocity.y >= bird.velocity.y,
        bird.velocity.y < MAX_VELOCITY ==> bird.moved().velocity.y == bird.velocity.y + GRAVITY,
        bird.velocity.y >= MAX_VELOCITY ==> bird.moved().velocity.y == bird.velocity.y,
        bird.moved().velocity.x == bird.velocity.x,
{
}

/// The same over a tick of a running session in which no jump is asked for.
pub proof fn lemma_tick_gravity_monotonic(s: SessionModel, viewport: ViewportSize, offset: int)
    requires
        s.state is Running,
    ensures
        s.ticked(viewport, offset).0.bird.velocity.y >= s.bird.velocity.y,
        s.bird.velocity.y >= MAX_VELOCITY ==> s.ticked(viewport, offset).0.bird.velocity.y
            == s.bird.velocity.y,
{
}

/// An accepted jump sets the vertical velocity to the jump velocity and
/// starts the cooldown, so that a jump asked for right after it is refused.
pub proof fn lemma_jump_effect(bird: Bird)
    requires
        bird.can_jump(),
    ensures
        bird.jumped().velocity.y == JUMP_VELOCITY,
        bird.jumped().velocity.x == 0,
        bird.jumped().jump_cd == JUMP_COOLDOWN,
        bird.jumped().position == bird.position,
        !bird.jumped().can_jump(),
{
}

/// In a session, a second jump asked for right after an accepted one
/// changes nothing; one asked for while the cooldown runs changes nothing
/// either.
pub proof fn lemma_jump_twice(s: SessionModel)
    ensures
        s.jump_accepted() ==> s.jump_requested().bird.velocity.y == JUMP_VELOCITY,
        s.jump_accepted() ==> s.jump_requested().bird.jump_cd == JUMP_COOLDOWN,
        s.jump_requested().jump_requested() == s.jump_requested(),
        !s.jump_accepted() ==> s.jump_requested() == s,
        s.bird.jump_cd > 0 ==> s.jump_requested().bird.velocity == s.bird.velocity,
{
}

/// After every tick the hitbox of the bird and of every pipe is the one
/// that its position and its sprite give.
pub proof fn lemma_tick_keeps_hitboxes_current(s: SessionModel, viewport: ViewportSize, offset: int)
    requires
        s.wf(),
    ensures
        s.ticked(viewport, offset).0.bird.hitbox_current(),
        forall|i: int|
            0 <= i < s.ticked(viewport, offset).0.pipes.len() ==> (#[trigger] s.ticked(
                viewport,
                offset,
            ).0.pipes[i]).hitboxes_current(),
{
    let t = s.ticked(viewport, offset).0;
    assert forall|i: int| 0 <= i < t.pipes.len() implies (#[trigger] t.pipes[i]).hitboxes_current() by {
        if s.state is Running {
            let joined = if spawn_due(s.pipe_spawn_timer as int) {
                advanced(s.pipes).push(
                    spawned_pipe(viewport, s.pipe_sprite_width, s.pipe_sprite_height, offset),
                )
            } else {
                advanced(s.pipes)
            };
            assert(t.pipes[i] == refreshed(pruned(joined)[i]));
        } else {
            assert(s.pipes[i].wf());
        }
    }
}

/// A tick of a running session leaves exactly the pipes that are still on
/// screen after their move: each of them stays, none of the others does,
/// and at most one pipe is new.
pub proof fn lemma_tick_prunes(s: SessionModel, viewport: ViewportSize, offset: int)
    ensures
        forall|j: int|
            0 <= j < s.pipes_after(viewport, offset).len() ==> on_screen(
                #[trigger] s.pipes_after(viewport, offset)[j],
            ),
        forall|i: int|
            0 <= i < s.pipes.len() && on_screen(shifted(#[trigger] s.pipes[i])) ==> s.pipes_after(
                viewport,
                offset,
            ).contains(refreshed(shifted(s.pipes[i]))),
        forall|i: int|
            0 <= i < s.pipes.len() && !on_screen(shifted(#[trigger] s.pipes[i])) ==> !s.pipes_after(
                viewport,
                offset,
            ).contains(refreshed(shifted(s.pipes[i]))),
        s.pipes_after(viewport, offset).len() <= s.pipes.len() + 1,
{
    let moved = advanced(s.pipes);
    let joined = if spawn_due(s.pipe_spawn_timer as int) {
        moved.push(spawned_pipe(viewport, s.pipe_sprite_width, s.pipe_sprite_height, offset))
    } else {
        moved
    };
    let kept = pruned(joined);
    let after = s.pipes_after(viewport, offset);
    lemma_pruned_members(joined);
    assert forall|j: int| 0 <= j < after.len() implies on_screen(#[trigger] after[j]) by {
        assert(after[j] == refreshed(kept[j]));
    }
    assert forall|i: int|
        0 <= i < s.pipes.len() && on_screen(shifted(#[trigger] s.pipes[i])) implies after.contains(
        refreshed(shifted(s.pipes[i])),
    ) by {
        assert(joined[i] == shifted(s.pipes[i]));
        assert(kept.contains(joined[i]));
        let j = choose|j: int| 0 <= j < kept.len() && kept[j] == joined[i];
        assert(after[j] == refreshed(kept[j]));
    }
    assert forall|i: int|
        0 <= i < s.pipes.len() && !on_screen(shifted(#[trigger] s.pipes[i])) implies !after.contains(
        refreshed(shifted(s.pipes[i])),
    ) by {
        if after.contains(refreshed(shifted(s.pipes[i]))) {
            let j = choose|j: int| 0 <= j < after.len() && after[j] == refreshed(shifted(s.pipes[i]));
            assert(on_screen(after[j]));
        }
    }
}

/// Once the bird has been found to touch a pipe, or the session was over
/// before, testing further pipes changes nothing.
pub proof fn lemma_scan_after_the_end(pipes: Seq<Pipe>, bird: Bird, start: Tally, n: nat)
    requires
        start.over,
    ensures
        scanned(pipes, bird, start, n) == start,
    decreases n,
{
    if n > 0 {
        lemma_scan_after_the_end(pipes, bird, start, (n - 1) as nat);
    }
}

/// A session that is over stays as it is: no tick and no request of the
/// player changes its state, its score or anything else, and none asks for a
/// sound. The bird's and the pipes' parts of a tick, taken alone, leave the
/// state and the score as well, whatever the bird touches.
pub proof fn lemma_game_over_is_final(
    s: SessionModel,
    viewport: ViewportSize,
    offset: int,
    event: InputEvent,
)
    requires
        s.state is GameOver,
    ensures
        s.ticked(viewport, offset) == (s, Seq::<AudioEvent>::empty()),
        s.handled(event, viewport) == s,
        s.sound_of(event).is_none(),
        s.quits_on(event),
        s.player_updated(viewport).state is GameOver,
        s.player_updated(viewport).score == s.score,
        s.pipe_updated(viewport, offset).0.state is GameOver,
        s.pipe_updated(viewport, offset).0.score == s.score,
        s.pipe_updated(viewport, offset).1 == Seq::<AudioEvent>::empty(),
{
    let pipes = s.pipes_after(viewport, offset);
    lemma_scan_after_the_end(
        pipes,
        s.bird,
        Tally { over: true, score: s.score, events: Seq::empty() },
        pipes.len(),
    );
}

/// How far a session has come: 0 before the start, 1 while it runs, 2 once it is over.
pub open spec fn progress(state: GameState) -> int {
    match state {
        GameState::NotStarted => 0,
        GameState::Running => 1,
        GameState::GameOver => 2,
    }
}

/// A session never goes back: neither a tick nor a request of the player
/// returns it to an earlier state, and the score never falls.
pub proof fn lemma_state_moves_forward(
    s: SessionModel,
    viewport: ViewportSize,
    offset: int,
    event: InputEvent,
)
    ensures
        progress(s.ticked(viewport, offset).0.state) >= progress(s.state),
        progress(s.handled(event, viewport).state) >= progress(s.state),
        s.ticked(viewport, offset).0.score >= s.score,
        s.handled(event, viewport).score == s.score,
        !(s.state is Running) ==> s.ticked(viewport, offset).0.score == s.score,
{
    if s.state is Running {
        let p = s.player_updated(viewport);
        let pipes = p.pipes_after(viewport, offset);
        lemma_scan_score_grows(
            pipes,
            p.bird,
            Tally { over: !(p.state is Running), score: p.score, events: Seq::empty() },
            pipes.len(),
        );
    }
}

/// Testing pipes never lowers the score, and never reopens a session.
pub proof fn lemma_scan_score_grows(pipes: Seq<Pipe>, bird: Bird, start: Tally, n: nat)
    ensures
        scanned(pipes, bird, start, n).score >= start.score,
        start.over ==> scanned(pipes, bird, start, n).over,
    decreases n,
{
    if n > 0 {
        lemma_scan_score_grows(pipes, bird, start, (n - 1) as nat);
    }
}

/// Testing the pipes ends a session that was not over exactly if the bird
/// touches one of them.
pub proof fn lemma_scan_finds_collision(pipes: Seq<Pipe>, bird: Bird, start: Tally, n: nat)
    requires
        n <= pipes.len(),
        !start.over,
    ensures
        scanned(pipes, bird, start, n).over <==> exists|i: int|
            0 <= i < n && (#[trigger] pipes[i]).spec_hits(bird.hitbox),
    decreases n,
{
    if n > 0 {
        let before = scanned(pipes, bird, start, (n - 1) as nat);
        lemma_scan_finds_collision(pipes, bird, start, (n - 1) as nat);
        if before.over {
            let i = choose|i: int| 0 <= i < n - 1 && (#[trigger] pipes[i]).spec_hits(bird.hitbox);
            assert(pipes[i].spec_hits(bird.hitbox));
        } else if pipes[n - 1].spec_hits(bird.hitbox) {
        } else {
            assert(tested(before, pipes[n - 1], bird).over == false);
        }
    }
}

/// The session after one tick for each of `offsets`, in order; each offset
/// places the gap of a pipe that enters on its tick.
pub open spec fn ran(s: SessionModel, viewport: ViewportSize, offsets: Seq<int>) -> SessionModel
    decreases offsets.len(),
{
    if offsets.len() == 0 {
        s
    } else {
        ran(s, viewport, offsets.drop_last()).ticked(viewport, offsets.last()).0
    }
}

/// The session runs at the beginning of each of those ticks.
pub open spec fn running_throughout(s: SessionModel, viewport: ViewportSize, offsets: Seq<int>) -> bool {
    forall|k: int|
        0 <= k < offsets.len() ==> (#[trigger] ran(s, viewport, offsets.take(k))).state is Running
}

/// The number of those ticks on which a pipe enters.
pub open spec fn entered(s: SessionModel, viewport: ViewportSize, offsets: Seq<int>) -> nat
    decreases offsets.len(),
{
    if offsets.len() == 0 {
        0
    } else {
        let before = ran(s, viewport, offsets.drop_last());
        let now: nat = if before.state is Running && spawn_due(before.pipe_spawn_timer as int) {
            1
        } else {
            0
        };
        entered(s, viewport, offsets.drop_last()) + now
    }
}

/// The tick, counted from 1, on which the first pipe enters a running
/// session whose spawn timer stands at `timer`.
pub open spec fn first_spawn_tick(timer: int) -> int {
    if timer <= 1 {
        1
    } else {
        timer
    }
}

/// On a tick of a running session a pipe enters exactly if the spawn timer
/// runs out. It then stands last among the pipes, at the right edge of the
/// screen, and the timer starts again; otherwise no pipe is new and the
/// timer is one less.
pub proof fn lemma_tick_spawns_when_due(s: SessionModel, viewport: ViewportSize, offset: int)
    requires
        s.wf(),
        s.state is Running,
        offset_low() <= offset <= offset_high(viewport),
    ensures
        s.ticked(viewport, offset).0.pipe_spawn_timer == next_timer(s.pipe_spawn_timer as int),
        s.ticked(viewport, offset).0.pipes == s.pipes_after(viewport, offset),
        spawn_due(s.pipe_spawn_timer as int) ==> s.pipes_after(viewport, offset).len() == pruned(
            advanced(s.pipes),
        ).len() + 1 && s.pipes_after(viewport, offset).last() == spawned_pipe(
            viewport,
            s.pipe_sprite_width,
            s.pipe_sprite_height,
            offset,
        ),
        !spawn_due(s.pipe_spawn_timer as int) ==> s.pipes_after(viewport, offset) == all_refreshed(
            pruned(advanced(s.pipes)),
        ),
{
    if spawn_due(s.pipe_spawn_timer as int) {
        let pipe = spawned_pipe(viewport, s.pipe_sprite_width, s.pipe_sprite_height, offset);
        crate::stream::lemma_pruned_push(advanced(s.pipes), pipe);
        assert(on_screen(pipe));
        assert(refreshed(pipe) == pipe);
    }
}

/// Spawn cadence. In a session that runs throughout, the first pipe enters
/// on the tick that the spawn timer gives and one more on every
/// `PIPE_FREQ`-th tick after it; the timer counts down in between.
pub proof fn lemma_spawn_count(s: SessionModel, viewport: ViewportSize, offsets: Seq<int>)
    requires
        0 <= s.pipe_spawn_timer <= PIPE_FREQ,
        running_throughout(s, viewport, offsets),
    ensures
        entered(s, viewport, offsets) == if offsets.len() < first_spawn_tick(
            s.pipe_spawn_timer as int,
        ) {
            0
        } else {
            (offsets.len() - first_spawn_tick(s.pipe_spawn_timer as int)) / (PIPE_FREQ as int) + 1
        },
        ran(s, viewport, offsets).pipe_spawn_timer == if offsets.len() < first_spawn_tick(
            s.pipe_spawn_timer as int,
        ) {
            s.pipe_spawn_timer - offsets.len()
        } else {
            PIPE_FREQ - (offsets.len() - first_spawn_tick(s.pipe_spawn_timer as int)) % (
            PIPE_FREQ as int)
        },
    decreases offsets.len(),
{
    if offsets.len() > 0 {
        let earlier = offsets.drop_last();
        assert forall|k: int| 0 <= k < earlier.len() implies (#[trigger] ran(
            s,
            viewport,
            earlier.take(k),
        )).state is Running by {
            assert(earlier.take(k) =~= offsets.take(k));
        }
        lemma_spawn_count(s, viewport, earlier);
        assert(offsets.take(offsets.len() - 1) =~= earlier);
        let before = ran(s, viewport, earlier);
        assert(before.state is Running);
    }
}

/// A fresh session's timer stands at zero, so once it runs a pipe enters on
/// its first tick and on every `PIPE_FREQ`-th tick after that: after `n`
/// ticks, `n / PIPE_FREQ` rounded up.
pub proof fn lemma_spawn_cadence_from_start(s: SessionModel, viewport: ViewportSize, offsets: Seq<int>)
    requires
        s.pipe_spawn_timer == 0,
        running_throughout(s, viewport, offsets),
    ensures
        entered(s, viewport, offsets) == (offsets.len() + PIPE_FREQ - 1) / (PIPE_FREQ as int),
{
    lemma_spawn_count(s, viewport, offsets);
}

/// In any `PIPE_FREQ` ticks in a row of a running session exactly one pipe enters.
pub proof fn lemma_spawn_cadence(s: SessionModel, viewport: ViewportSize, offsets: Seq<int>)
    requires
        0 <= s.pipe_spawn_timer <= PIPE_FREQ,
        offsets.len() == PIPE_FREQ,
        running_throughout(s, viewport, offsets),
    ensures
        entered(s, viewport, offsets) == 1,
{
    lemma_spawn_count(s, viewport, offsets);
}

} // verus!
