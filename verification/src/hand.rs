//! The three hands and the cyclic relation that decides a match.

use vstd::prelude::*;

verus! {

/// One of the three hands a particle can show.
#[derive(Copy, Clone, Debug, PartialEq, Eq, Structural)]
pub enum Hand {
    Rock,
    Paper,
    Scissors,
}

/// Values that defeat exactly one other value of their kind.
pub trait Beats: Sized {
    /// The value that `self` defeats.
    fn beats(&self) -> Self;
}

impl Hand {
    /// The hand that this hand defeats: rock blunts scissors, scissors cut
    /// paper, paper wraps rock.
    pub open spec fn beaten(self) -> Hand {
        match self {
            Hand::Rock => Hand::Scissors,
            Hand::Paper => Hand::Rock,
            Hand::Scissors => Hand::Paper,
        }
    }

    /// The hand shown after meeting `other`: a hand that `other` defeats is
    /// taken over by `other`, any other hand stays.
    pub open spec fn after_match(self, other: Hand) -> Hand {
        if other.beaten() == self {
            other
        } else {
            self
        }
    }

    /// The hand that a die roll stands for: 0 is rock, 1 is paper, every
    /// other number is scissors.
    pub open spec fn of_roll(roll: int) -> Hand {
        if roll == 0 {
            Hand::Rock
        } else if roll == 1 {
            Hand::Paper
        } else {
            Hand::Scissors
        }
    }

    /// Turns a die roll into a hand.
    pub fn from_roll(roll: i32) -> (hand: Hand)
        ensures
            hand == Hand::of_roll(roll as int),
    {
        match roll {
            0 => Hand::Rock,
            1 => Hand::Paper,
            _ => Hand::Scissors,
        }
    }
}

impl Beats for Hand {
    fn beats(&self) -> (loser: Hand)
        ensures
            loser == self.beaten(),
    {
        match *self {
            Hand::Rock => Hand::Scissors,
            Hand::Paper => Hand::Rock,
            Hand::Scissors => Hand::Paper,
        }
    }
}

/// Defeat runs in a cycle of length three: following it three times from any
/// hand leads back to that hand, and fewer steps never do.
pub proof fn lemma_beats_three_cycle(h: Hand)
    ensures
        h.beaten().beaten().beaten() == h,
        h.beaten() != h,
        h.beaten().beaten() != h,
{
}

/// No two hands defeat the same hand.
pub proof fn lemma_beats_injective(a: Hand, b: Hand)
    requires
        a.beaten() == b.beaten(),
    ensures
        a == b,
{
}

/// Of two different hands exactly one defeats the other, and no hand
/// defeats itself.
pub proof fn lemma_one_winner(a: Hand, b: Hand)
    ensures
        a == b ==> a.beaten() != b && b.beaten() != a,
        a != b ==> (a.beaten() == b) != (b.beaten() == a),
{
}

/// A match leaves both sides showing the same hand, the winner's: whichever
/// side is defeated takes the other's hand, and equal hands stay as they are.
pub proof fn lemma_match_unifies(a: Hand, b: Hand)
    ensures
        a.after_match(b) == b.after_match(a),
        a.after_match(b) == a || a.after_match(b) == b,
        a.beaten() == b ==> a.after_match(b) == a && b.after_match(a) == a,
{
}

/// Settling one side first and the other against the updated hand gives the
/// same pair as settling both against the hands they had before the match.
pub proof fn lemma_match_order_free(a: Hand, b: Hand)
    ensures
        b.after_match(a.after_match(b)) == b.after_match(a),
        a.after_match(b.after_match(a)) == a.after_match(b),
{
}

} // verus!
