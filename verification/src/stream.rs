//! The stream of live pipes: moving them, dropping those that have left the
//! screen, and testing the bird against them.

use vstd::prelude::*;
use crate::audio::AudioEvent;
use crate::bird::Bird;
use crate::config::{PIPE_SPEED, PIPE_WIDTH};
use crate::geometry::in_world;
use crate::pipe::{lower_hitbox, upper_hitbox, Pipe};

verus! {

/// The pipe one tick further left; its hitboxes are not touched.
pub open spec fn shifted(p: Pipe) -> Pipe {
    Pipe { x: (p.x - PIPE_SPEED) as i64, ..p }
}

/// Whether any part of the pipe is still right of the screen's left edge.
pub open spec fn on_screen(p: Pipe) -> bool {
    p.x + PIPE_WIDTH > 0
}

/// The pipe with the hitboxes that its position gives.
pub open spec fn refreshed(p: Pipe) -> Pipe {
    Pipe {
        hitbox_down: lower_hitbox(
            p.x as int,
            p.gap_bottom_y as int,
            p.sprite_width as int,
            p.sprite_height as int,
        ),
        hitbox_up: upper_hitbox(
            p.x as int,
            p.gap_top_y as int,
            p.sprite_width as int,
            p.sprite_height as int,
        ),
        ..p
    }
}

/// Every pipe moved one tick to the left.
pub open spec fn advanced(pipes: Seq<Pipe>) -> Seq<Pipe> {
    pipes.map_values(|p: Pipe| shifted(p))
}

/// `on_screen` as a predicate to filter by.
pub open spec fn on_screen_pred() -> spec_fn(Pipe) -> bool {
    |p: Pipe| on_screen(p)
}

/// The pipes that are still on screen, in their order.
pub open spec fn pruned(pipes: Seq<Pipe>) -> Seq<Pipe> {
    pipes.filter(on_screen_pred())
}

/// Every pipe with its hitboxes brought up to date.
pub open spec fn all_refreshed(pipes: Seq<Pipe>) -> Seq<Pipe> {
    pipes.map_values(|p: Pipe| refreshed(p))
}

/// Every pipe lies inside the world with a gap of the fixed height.
pub open spec fn all_placed(pipes: Seq<Pipe>) -> bool {
    forall|i: int| 0 <= i < pipes.len() ==> (#[trigger] pipes[i]).placed()
}

/// Every pipe is placed and its hitboxes are up to date.
pub open spec fn all_wf(pipes: Seq<Pipe>) -> bool {
    forall|i: int| 0 <= i < pipes.len() ==> (#[trigger] pipes[i]).wf()
}

/// What testing the bird against the pipes has found so far: whether the
/// session is over, the score, and the sounds asked for, oldest first.
pub struct Tally {
    pub over: bool,
    pub score: u32,
    pub events: Seq<AudioEvent>,
}

/// The score one point higher; it stops at the largest `u32`.
pub open spec fn bumped(score: u32) -> u32 {
    if score < u32::MAX {
        (score + 1) as u32
    } else {
        score
    }
}

/// The tally after testing one more pipe. A bird that touches either
/// barrier ends the session, once; a bird exactly level with the pipe's left
/// edge, in a session that is not over, scores a point.
pub open spec fn tested(t: Tally, p: Pipe, bird: Bird) -> Tally {
    if t.over {
        t
    } else if p.spec_hits(bird.hitbox) {
        Tally { over: true, score: t.score, events: t.events.push(AudioEvent::Collision) }
    } else if bird.position.x == p.x {
        Tally { over: false, score: bumped(t.score), events: t.events.push(AudioEvent::Score) }
    } else {
        t
    }
}

/// The tally after testing the first `n` pipes in order.
pub open spec fn scanned(pipes: Seq<Pipe>, bird: Bird, start: Tally, n: nat) -> Tally
    decreases n,
{
    if n == 0 {
        start
    } else {
        tested(scanned(pipes, bird, start, (n - 1) as nat), pipes[n - 1], bird)
    }
}

/// Pruning looks at each pipe by itself: the verdict on a pipe that is
/// appended does not change what is kept of the pipes before it.
pub proof fn lemma_pruned_push(pipes: Seq<Pipe>, p: Pipe)
    ensures
        pruned(pipes.push(p)) == if on_screen(p) {
            pruned(pipes).push(p)
        } else {
            pruned(pipes)
        },
{
    pipes.lemma_filter_push(p, on_screen_pred());
}

/// Nothing is kept of no pipes.
pub proof fn lemma_pruned_empty()
    ensures
        pruned(Seq::<Pipe>::empty()) == Seq::<Pipe>::empty(),
{
    reveal(Seq::filter);
}

/// Pruning keeps exactly the pipes that are still on screen: every pipe
/// kept is on screen and was there before, every pipe on screen is kept, and
/// none is added.
pub proof fn lemma_pruned_members(pipes: Seq<Pipe>)
    ensures
        forall|j: int|
            0 <= j < pruned(pipes).len() ==> on_screen(#[trigger] pruned(pipes)[j]) && pipes.contains(
                pruned(pipes)[j],
            ),
        forall|i: int|
            0 <= i < pipes.len() && on_screen(#[trigger] pipes[i]) ==> pruned(pipes).contains(pipes[i]),
        forall|i: int|
            0 <= i < pipes.len() && !on_screen(#[trigger] pipes[i]) ==> !pruned(pipes).contains(
                pipes[i],
            ),
        pruned(pipes).len() <= pipes.len(),
{
    let kept = pruned(pipes);
    pipes.lemma_filter_len(on_screen_pred());
    assert forall|j: int| 0 <= j < kept.len() implies on_screen(#[trigger] kept[j])
        && pipes.contains(kept[j]) by {
        pipes.lemma_filter_pred(on_screen_pred(), j);
        assert(kept.contains(kept[j]));
        pipes.lemma_filter_contains_rev(on_screen_pred(), kept[j]);
    }
    assert forall|i: int| 0 <= i < pipes.len() && on_screen(#[trigger] pipes[i]) implies kept.contains(
        pipes[i],
    ) by {
        pipes.lemma_filter_contains(on_screen_pred(), i);
    }
    assert forall|i: int| 0 <= i < pipes.len() && !on_screen(#[trigger] pipes[i]) implies !kept.contains(
        pipes[i],
    ) by {
        if kept.contains(pipes[i]) {
            let j = choose|j: int| 0 <= j < kept.len() && kept[j] == pipes[i];
            pipes.lemma_filter_pred(on_screen_pred(), j);
        }
    }
}

/// Moves every pipe one tick to the left.
pub fn advance_pipes(pipes: &mut Vec<Pipe>)
    requires
        all_placed(old(pipes)@),
    ensures
        final(pipes)@ == advanced(old(pipes)@),
{
    let n = pipes.len();
    let mut i: usize = 0;
    while i < n
        invariant
            i <= n,
            n == pipes.len(),
            pipes.len() == old(pipes).len(),
            all_placed(old(pipes)@),
            forall|j: int| 0 <= j < i ==> pipes[j] == shifted(#[trigger] old(pipes)[j]),
            forall|j: int| i <= j < n ==> pipes[j] == #[trigger] old(pipes)[j],
        decreases n - i,
    {
        let mut p = pipes[i];
        assert(old(pipes)@[i as int].placed());
        p.x = p.x - PIPE_SPEED;
        pipes.set(i, p);
        i = i + 1;
    }
    assert(pipes@ =~= advanced(old(pipes)@));
}

/// Drops the pipes whose right edge has reached the left edge of the
/// screen. The others keep their order.
pub fn prune_pipes(pipes: &mut Vec<Pipe>)
    ensures
        final(pipes)@ == pruned(old(pipes)@),
{
    let n = pipes.len();
    let mut kept: Vec<Pipe> = Vec::new();
    let mut i: usize = 0;
    proof {
        assert(pipes@.take(0) =~= Seq::<Pipe>::empty());
        lemma_pruned_empty();
    }
    while i < n
        invariant
            i <= n,
            n == pipes.len(),
            pipes@ == old(pipes)@,
            kept@ == pruned(pipes@.take(i as int)),
        decreases n - i,
    {
        let p = pipes[i];
        proof {
            assert(pipes@.take(i + 1) =~= pipes@.take(i as int).push(p));
            lemma_pruned_push(pipes@.take(i as int), p);
        }
        if p.x as i128 + PIPE_WIDTH as i128 > 0 {
            kept.push(p);
        }
        i = i + 1;
    }
    assert(pipes@.take(n as int) =~= pipes@);
    *pipes = kept;
}

/// Brings the hitboxes of every pipe up to date.
pub fn refresh_pipes(pipes: &mut Vec<Pipe>)
    requires
        all_placed(old(pipes)@),
    ensures
        final(pipes)@ == all_refreshed(old(pipes)@),
        all_wf(final(pipes)@),
{
    let n = pipes.len();
    let mut i: usize = 0;
    while i < n
        invariant
            i <= n,
            n == pipes.len(),
            pipes.len() == old(pipes).len(),
            all_placed(old(pipes)@),
            forall|j: int| 0 <= j < i ==> pipes[j] == refreshed(#[trigger] old(pipes)[j]),
            forall|j: int| i <= j < n ==> pipes[j] == #[trigger] old(pipes)[j],
        decreases n - i,
    {
        let mut p = pipes[i];
        assert(old(pipes)@[i as int].placed());
        p.update_hitboxes();
        pipes.set(i, p);
        i = i + 1;
    }
    assert(pipes@ =~= all_refreshed(old(pipes)@));
}

/// Tests the bird against every pipe in order, starting from a session that
/// is over or not and has the given score. Returns whether the session is
/// over now, the new score, and the sounds to play.
pub fn scan_pipes(pipes: &Vec<Pipe>, bird: &Bird, over: bool, score: u32) -> (found: (
    bool,
    u32,
    Vec<AudioEvent>,
))
    ensures
        (Tally { over: found.0, score: found.1, events: found.2@ }) == scanned(
            pipes@,
            *bird,
            Tally { over, score, events: Seq::empty() },
            pipes@.len(),
        ),
{
    let n = pipes.len();
    let mut now_over = over;
    let mut now_score = score;
    let mut events: Vec<AudioEvent> = Vec::new();
    let mut i: usize = 0;
    while i < n
        invariant
            i <= n,
            n == pipes.len(),
            (Tally { over: now_over, score: now_score, events: events@ }) == scanned(
                pipes@,
                *bird,
                Tally { over, score, events: Seq::empty() },
                i as nat,
            ),
        decreases n - i,
    {
        let p = pipes[i];
        if !now_over && p.hits(&bird.hitbox) {
            now_over = true;
            events.push(AudioEvent::Collision);
        }
        if !now_over && bird.position.x == p.x {
            if now_score < u32::MAX {
                now_score = now_score + 1;
            }
            events.push(AudioEvent::Score);
        }
        i = i + 1;
    }
    (now_over, now_score, events)
}

} // verus!
