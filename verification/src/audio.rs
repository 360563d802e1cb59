//! The sounds that the simulation asks for. Playing them is the caller's business.

use vstd::prelude::*;

verus! {

/// A sound to play, fire and forget.
#[derive(Clone, Copy, Debug, PartialEq, Eq, Structural)]
pub enum AudioEvent {
    /// The session has started.
    Begin,
    /// The bird has jumped.
    Jump,
    /// The bird has passed a pipe.
    Score,
    /// The bird has hit a pipe.
    Collision,
}

/// The direction in which a sound's pitch is varied at random.
#[derive(Clone, Copy, Debug, PartialEq, Eq, Structural)]
pub enum PitchBias {
    /// Played as recorded.
    Level,
    /// Played lower than recorded.
    Down,
    /// Played higher than recorded.
    Up,
}

impl AudioEvent {
    pub open spec fn spec_pitch_bias(self) -> PitchBias {
        match self {
            AudioEvent::Jump => PitchBias::Down,
            AudioEvent::Score => PitchBias::Up,
            AudioEvent::Begin => PitchBias::Level,
            AudioEvent::Collision => PitchBias::Level,
        }
    }

    /// A jump sounds lower, a point higher, the other two as recorded.
    pub fn pitch_bias(&self) -> (bias: PitchBias)
        ensures
            bias == self.spec_pitch_bias(),
    {
        match self {
            AudioEvent::Jump => PitchBias::Down,
            AudioEvent::Score => PitchBias::Up,
            AudioEvent::Begin => PitchBias::Level,
            AudioEvent::Collision => PitchBias::Level,
        }
    }
}

} // verus!
