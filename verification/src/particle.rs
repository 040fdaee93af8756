//! A particle: a body that the caller moves, and the hand it shows.

use vstd::prelude::*;
use bracket_lib::prelude::RandomNumberGenerator;
use crate::dice::roll_between;
use crate::hand::Beats;
use crate::hand::Hand;

verus! {

/// A particle of the field. The body holds whatever the caller needs to
/// move the particle; nothing here looks inside it.
#[derive(Copy, Clone, Debug)]
pub struct Particle<B> {
    pub body: B,
    pub hand: Hand,
}

impl<B> Particle<B> {
    /// A particle with the given body and a hand drawn from `rng`: one roll
    /// of a three-sided die decides which.
    pub fn new(body: B, rng: &mut RandomNumberGenerator) -> (particle: Particle<B>)
        ensures
            particle.body == body,
    {
        let roll: i32 = roll_between(rng, 0, 3);
        Particle { body, hand: Hand::from_roll(roll) }
    }

    /// Settles a match against a particle showing `other`: this particle
    /// takes over `other` if `other` defeats its hand, and keeps its hand
    /// otherwise. The body is not touched.
    pub fn handle_match(&mut self, other: Hand)
        ensures
            final(self).hand == old(self).hand.after_match(other),
            final(self).body == old(self).body,
    {
        if other.beats() == self.hand {
            self.hand = other;
        }
    }
}

} // verus!
