//! From a random draw to a choice.
//!
//! A choice is drawn by taking one number from 1 to 3 from a random number
//! generator, each as likely as the others, and turning it into the choice
//! it stands for. The library does the second step and leaves the first to
//! its caller, who owns the generator: a program hands over a number from
//! the generator of its thread, a test one from a generator that follows a
//! script.

use crate::game_element::GameElement;
use vstd::prelude::*;

verus! {

impl GameElement {
    /// The choice that a draw stands for: the draws 1, 2 and 3 stand for
    /// rock, paper and scissors, and no other draw stands for anything.
    pub open spec fn of_draw(n: u32) -> Option<GameElement> {
        if n == 1 {
            Some(GameElement::Rock)
        } else if n == 2 {
            Some(GameElement::Paper)
        } else if n == 3 {
            Some(GameElement::Scissors)
        } else {
            None
        }
    }

    /// Turns a draw into the choice it stands for. A draw outside 1 to 3
    /// gives `None`: no choice takes its place.
    pub fn from_draw(n: u32) -> (choice: Option<GameElement>)
        ensures
            choice == GameElement::of_draw(n),
    {
        match n {
            1 => Some(GameElement::Rock),
            2 => Some(GameElement::Paper),
            3 => Some(GameElement::Scissors),
            _ => None,
        }
    }
}

/// The draws 1, 2 and 3 stand for the three choices one for one: every
/// choice has a draw, no two draws share a choice, and no other draw stands
/// for anything.
pub proof fn draws_match_choices(e: GameElement, m: u32, n: u32)
    ensures
        exists|k: u32| 1 <= k <= 3 && GameElement::of_draw(k) == Some(e),
        GameElement::of_draw(m) is Some <==> 1 <= m <= 3,
        GameElement::of_draw(m) is Some && GameElement::of_draw(m) == GameElement::of_draw(n)
            ==> m == n,
{
    match e {
        GameElement::Rock => assert(GameElement::of_draw(1) == Some(e)),
        GameElement::Paper => assert(GameElement::of_draw(2) == Some(e)),
        GameElement::Scissors => assert(GameElement::of_draw(3) == Some(e)),
    }
}

} // verus!
