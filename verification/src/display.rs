//! The name of a choice as it is shown to a player.

use crate::game_element::GameElement;
use vstd::prelude::*;

verus! {

impl GameElement {
    /// The name of a choice, as a sequence of characters.
    pub open spec fn text(self) -> Seq<char> {
        match self {
            GameElement::Rock => "Rock"@,
            GameElement::Paper => "Paper"@,
            GameElement::Scissors => "Scissors"@,
        }
    }

    /// Returns the name of the choice: `Rock`, `Paper` or `Scissors`.
    pub fn to_string(&self) -> (s: String)
        ensures
            s@ == self.text(),
    {
        match self {
            GameElement::Rock => "Rock".to_owned(),
            GameElement::Paper => "Paper".to_owned(),
            GameElement::Scissors => "Scissors".to_owned(),
        }
    }
}

/// The names of the three choices differ from each other: no two choices
/// are shown alike.
pub proof fn text_tells_choices_apart(a: GameElement, b: GameElement)
    ensures
        a.text() == b.text() ==> a == b,
{
    reveal_strlit("Rock");
    reveal_strlit("Paper");
    reveal_strlit("Scissors");
    if a != b {
        assert(a.text().len() != b.text().len());
    }
}

} // verus!
