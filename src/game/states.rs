//! Field zones and the per-side state that the engine keeps.
use rand_chacha::ChaCha20Rng;
use vstd::prelude::*;

use crate::random::draw_in;
use crate::team::TeamId;

verus! {

/// One of the three field zones: the ball's target and each side's position.
#[derive(Clone, Copy, PartialEq, Eq, Structural, Debug)]
pub enum Space {
    /// The near end of the field.
    First,
    Middle,
    /// The far end of the field.
    Third,
}

/// The zone that a uniform draw over `0..3` picks.
pub open spec fn space_of(n: int) -> Space {
    if n == 0 {
        Space::First
    } else if n == 1 {
        Space::Middle
    } else {
        Space::Third
    }
}

impl Space {
    /// A zone drawn uniformly over the three.
    pub fn random(rng: &mut ChaCha20Rng) -> (r: Space) {
        let n = draw_in(rng, 0, 3);
        Space::from_index(n)
    }

    /// The zone with the given index in field order; indices past the last give
    /// the last zone.
    pub fn from_index(n: u64) -> (r: Space)
        ensures
            r == space_of(n as int),
    {
        if n == 0 {
            Space::First
        } else if n == 1 {
            Space::Middle
        } else {
            Space::Third
        }
    }

    /// The zone farthest from this one: the two ends face each other, and the
    /// middle sends the ball to either end, by `to_first`.
    pub fn farthest_by(self, to_first: bool) -> (r: Space)
        ensures
            self == Space::First ==> r == Space::Third,
            self == Space::Third ==> r == Space::First,
            self == Space::Middle ==> r == (if to_first {
                Space::First
            } else {
                Space::Third
            }),
    {
        match self {
            Space::First => Space::Third,
            Space::Middle => if to_first {
                Space::First
            } else {
                Space::Third
            },
            Space::Third => Space::First,
        }
    }

    /// The zone farthest from this one; from the middle, either end with equal chance.
    pub fn farthest(self, rng: &mut ChaCha20Rng) -> (r: Space)
        ensures
            self == Space::First ==> r == Space::Third,
            self == Space::Third ==> r == Space::First,
            self == Space::Middle ==> r == Space::First || r == Space::Third,
            r != self,
            self != Space::Middle ==> *final(rng) == *old(rng),
    {
        match self {
            Space::Middle => {
                let end = draw_in(rng, 0, 2);
                self.farthest_by(end == 0)
            },
            _ => self.farthest_by(true),
        }
    }
}

/// What the engine keeps for one side: its team, its field position and its score.
#[derive(Clone, Copy, PartialEq, Eq, Structural, Debug)]
pub struct PlayerState {
    pub team: TeamId,
    pub space: Space,
    pub score: usize,
}

} // verus!
