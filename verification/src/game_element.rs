//! The three choices of the game and the order that the rules put on them.
//!
//! The order is the outcome of a match: the winner compares greater. Rock
//! beats scissors, scissors beat paper and paper beats rock, so the order is
//! a cycle and not transitive. It still answers for every pair, which is all
//! that the comparison operators need.

use std::cmp::Ordering;
use vstd::prelude::*;

verus! {

/// One of the three choices a player can make.
#[derive(PartialEq, Eq, Structural, Debug, Clone, Copy)]
pub enum GameElement {
    Rock,
    Paper,
    Scissors,
}

impl GameElement {
    /// Whether `self` wins a match against `other`: rock blunts scissors,
    /// scissors cut paper, paper wraps rock.
    pub open spec fn beats(self, other: GameElement) -> bool {
        ||| (self is Rock && other is Scissors)
        ||| (self is Scissors && other is Paper)
        ||| (self is Paper && other is Rock)
    }

    /// The outcome of a match seen from `self`: a draw is `Equal`, a win is
    /// `Greater`, a loss is `Less`.
    pub open spec fn compare(self, other: GameElement) -> Ordering {
        if self == other {
            Ordering::Equal
        } else if self.beats(other) {
            Ordering::Greater
        } else {
            Ordering::Less
        }
    }

    /// Compares two choices by the rules of the game.
    pub fn cmp(&self, other: &GameElement) -> (o: Ordering)
        ensures
            o == self.compare(*other),
            o == Ordering::Equal <==> *self == *other,
    {
        match (self, other) {
            (GameElement::Rock, GameElement::Paper) => Ordering::Less,
            (GameElement::Rock, GameElement::Scissors) => Ordering::Greater,
            (GameElement::Rock, GameElement::Rock) => Ordering::Equal,
            (GameElement::Paper, GameElement::Scissors) => Ordering::Less,
            (GameElement::Paper, GameElement::Rock) => Ordering::Greater,
            (GameElement::Paper, GameElement::Paper) => Ordering::Equal,
            (GameElement::Scissors, GameElement::Rock) => Ordering::Less,
            (GameElement::Scissors, GameElement::Paper) => Ordering::Greater,
            (GameElement::Scissors, GameElement::Scissors) => Ordering::Equal,
        }
    }
}

/// The operators `<`, `<=`, `>` and `>=` follow `compare`.
impl PartialOrd for GameElement {
    /// Every pair of choices is comparable: the result is never `None`.
    fn partial_cmp(&self, other: &GameElement) -> (r: Option<Ordering>) {
        Some(self.cmp(other))
    }
}

impl vstd::std_specs::cmp::PartialOrdSpecImpl for GameElement {
    open spec fn obeys_partial_cmp_spec() -> bool {
        true
    }

    open spec fn partial_cmp_spec(&self, other: &GameElement) -> Option<Ordering> {
        Some(self.compare(*other))
    }
}

/// A choice compared with itself is a draw, and only then: `Equal` means
/// that the two choices are the same.
pub proof fn compare_is_reflexive(a: GameElement, b: GameElement)
    ensures
        a.compare(a) == Ordering::Equal,
        a.compare(b) == Ordering::Equal <==> a == b,
{
}

/// Of two different choices one wins and the other loses, whichever side
/// the match is seen from.
pub proof fn compare_is_antisymmetric(a: GameElement, b: GameElement)
    requires
        a != b,
    ensures
        a.compare(b) == Ordering::Greater <==> b.compare(a) == Ordering::Less,
        a.compare(b) == Ordering::Less <==> b.compare(a) == Ordering::Greater,
        a.compare(b) != Ordering::Equal,
        b.compare(a) != Ordering::Equal,
{
}

/// Every choice beats exactly one choice and loses to exactly one: the
/// order runs in a cycle through all three.
pub proof fn compare_is_a_cycle(a: GameElement)
    ensures
        exists|w: GameElement| a.beats(w) && forall|x: GameElement| a.beats(x) ==> x == w,
        exists|l: GameElement| l.beats(a) && forall|x: GameElement| x.beats(a) ==> x == l,
{
    match a {
        GameElement::Rock => {
            assert(a.beats(GameElement::Scissors));
            assert(GameElement::Paper.beats(a));
        },
        GameElement::Paper => {
            assert(a.beats(GameElement::Rock));
            assert(GameElement::Scissors.beats(a));
        },
        GameElement::Scissors => {
            assert(a.beats(GameElement::Paper));
            assert(GameElement::Rock.beats(a));
        },
    }
}

} // verus!
