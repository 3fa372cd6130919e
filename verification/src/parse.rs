//! Reading a choice from a line of input.
//!
//! A choice is written as its letter: `r` for rock, `p` for paper, `s` for
//! scissors. Whitespace behind the letter, such as the line break that
//! comes with a line read from a console, is trimmed away before the letter
//! is matched. What is left has to be the letter and nothing else: no
//! capital, no whole word, no whitespace in front of the letter.

use crate::game_element::GameElement;
use simple_error::SimpleError;
use vstd::prelude::*;

verus! {

/// The error type of the `simple_error` crate, which holds a message and
/// nothing else. The verifier does not look inside it.
#[verifier::external_type_specification]
#[verifier::external_body]
pub struct ExSimpleError(simple_error::SimpleError);

/// The message that a `SimpleError` holds, which `SimpleError::as_str`
/// hands out.
pub uninterp spec fn simple_error_text(e: SimpleError) -> Seq<char>;

/// Calls `SimpleError::new` of the `simple_error` crate on a string slice.
/// Trusted: the error that comes back holds `message` unchanged, as the
/// crate stores what it is given and `as_str` returns what is stored.
#[verifier::external_body]
fn new_simple_error(message: &str) -> (e: SimpleError)
    ensures
        simple_error_text(e) == message@,
{
    SimpleError::new(message)
}

/// The message of the error that rejects a text.
pub const PARSE_ERROR_MESSAGE: &'static str = "choice must start with r, p, or s";

/// The characters that may follow the letter of a choice: whitespace, as
/// Unicode defines it by the property `White_Space`. The line breaks and
/// spaces of ASCII are among them.
pub open spec fn is_blank(c: char) -> bool {
    ||| '\u{9}' <= c <= '\u{d}'
    ||| c == ' '
    ||| c == '\u{85}'
    ||| c == '\u{a0}'
    ||| c == '\u{1680}'
    ||| '\u{2000}' <= c <= '\u{200a}'
    ||| c == '\u{2028}'
    ||| c == '\u{2029}'
    ||| c == '\u{202f}'
    ||| c == '\u{205f}'
    ||| c == '\u{3000}'
}

/// The lower-case form of an ASCII capital; any other character is itself.
pub open spec fn lower_case(c: char) -> char {
    if 'A' <= c <= 'Z' {
        ((c as u8) + 32) as char
    } else {
        c
    }
}

/// `text` without the blanks at its end.
pub open spec fn without_trailing_blanks(text: Seq<char>) -> Seq<char>
    decreases text.len(),
{
    if text.len() > 0 && is_blank(text.last()) {
        without_trailing_blanks(text.drop_last())
    } else {
        text
    }
}

/// Tells whether `c` is a blank.
fn blank(c: char) -> (b: bool)
    ensures
        b == is_blank(c),
{
    ('\u{9}' <= c && c <= '\u{d}') || c == ' ' || c == '\u{85}' || c == '\u{a0}' || c
        == '\u{1680}' || ('\u{2000}' <= c && c <= '\u{200a}') || c == '\u{2028}' || c
        == '\u{2029}' || c == '\u{202f}' || c == '\u{205f}' || c == '\u{3000}'
}

impl GameElement {
    /// The lower-case letter that stands for a choice in input.
    pub open spec fn letter(self) -> char {
        match self {
            GameElement::Rock => 'r',
            GameElement::Paper => 'p',
            GameElement::Scissors => 's',
        }
    }

    /// `text` is the letter of `self`, followed by nothing but blanks.
    pub open spec fn is_written_as(self, text: Seq<char>) -> bool {
        &&& text.len() >= 1
        &&& text[0] == self.letter()
        &&& forall|i: int| 1 <= i < text.len() ==> is_blank(#[trigger] text[i])
    }

    /// The choice that `text` stands for, if it stands for one.
    pub open spec fn decode(text: Seq<char>) -> Option<GameElement> {
        if GameElement::Rock.is_written_as(text) {
            Some(GameElement::Rock)
        } else if GameElement::Paper.is_written_as(text) {
            Some(GameElement::Paper)
        } else if GameElement::Scissors.is_written_as(text) {
            Some(GameElement::Scissors)
        } else {
            None
        }
    }

    /// Finds the choice that has `c` for its letter.
    fn from_letter(c: char) -> (found: Option<GameElement>)
        ensures
            match found {
                Some(e) => e.letter() == c,
                None => forall|e: GameElement| e.letter() != c,
            },
    {
        if c == 'r' {
            Some(GameElement::Rock)
        } else if c == 'p' {
            Some(GameElement::Paper)
        } else if c == 's' {
            Some(GameElement::Scissors)
        } else {
            None
        }
    }

    /// Reads a choice from a line of input: `r`, `p` or `s`, with or without
    /// whitespace behind it. Any other text is rejected with an error that
    /// holds `PARSE_ERROR_MESSAGE`.
    pub fn from_str(s: &str) -> (parsed: Result<GameElement, SimpleError>)
        ensures
            match parsed {
                Ok(e) => GameElement::decode(s@) == Some(e),
                Err(err) => {
                    &&& GameElement::decode(s@) is None
                    &&& simple_error_text(err) == PARSE_ERROR_MESSAGE@
                },
            },
    {
        let mut choice: Option<GameElement> = None;
        let mut at_start: bool = true;
        let ghost mut read: int = 0;
        for c in it: s.chars()
            invariant
                it.seq() == s@,
                read == it.index(),
                at_start <==> read == 0,
                at_start ==> choice is None,
                !at_start ==> choice is Some && choice->0.is_written_as(s@.take(read)),
        {
            if at_start {
                choice = GameElement::from_letter(c);
                at_start = false;
                if choice.is_none() {
                    return Err(new_simple_error(PARSE_ERROR_MESSAGE));
                }
            } else if !blank(c) {
                return Err(new_simple_error(PARSE_ERROR_MESSAGE));
            }
            proof {
                read = read + 1;
            }
        }
        assert(s@.take(read) == s@);
        match choice {
            Some(e) => Ok(e),
            None => Err(new_simple_error(PARSE_ERROR_MESSAGE)),
        }
    }
}

/// A text stands for at most one choice, and `decode` finds it.
pub proof fn decode_finds_the_choice(text: Seq<char>, e: GameElement)
    ensures
        GameElement::decode(text) == Some(e) <==> e.is_written_as(text),
{
}

/// A blank at the end of a text does not change what the text stands for.
pub proof fn decode_ignores_trailing_blank(text: Seq<char>, c: char)
    requires
        is_blank(c),
    ensures
        GameElement::decode(text.push(c)) == GameElement::decode(text),
{
    let longer = text.push(c);
    assert forall|e: GameElement| e.is_written_as(longer) <==> e.is_written_as(text) by {
        // what holds of the characters of `longer` holds of those of
        // `text`, which are the same but for the blank at the end
        if e.is_written_as(longer) {
            assert(text.len() >= 1);
            assert forall|i: int| 1 <= i < text.len() implies is_blank(#[trigger] text[i]) by {
                assert(longer[i] == text[i]);
            }
        }
    }
}

/// Decoding is trimming and then matching: a text stands for a choice
/// exactly if the text without its trailing blanks is the letter of that
/// choice and nothing more.
pub proof fn decode_matches_the_trimmed_text(text: Seq<char>, e: GameElement)
    ensures
        GameElement::decode(text) == Some(e) <==> without_trailing_blanks(text) == seq![
            e.letter(),
        ],
    decreases text.len(),
{
    if text.len() > 0 && is_blank(text.last()) {
        // the last blank changes neither side
        assert(text.drop_last().push(text.last()) == text);
        decode_ignores_trailing_blank(text.drop_last(), text.last());
        decode_matches_the_trimmed_text(text.drop_last(), e);
    } else if e.is_written_as(text) {
        // nothing is trimmed, so nothing stands behind the letter
        assert(text == seq![e.letter()]);
    }
}

/// Reading back what was shown gives the same choice: the first letter of
/// a name in lower case, with any run of blanks behind it, stands for the
/// choice that carries the name.
pub proof fn decode_inverts_text(v: GameElement, blanks: Seq<char>)
    requires
        forall|i: int| 0 <= i < blanks.len() ==> is_blank(#[trigger] blanks[i]),
    ensures
        v.text().len() >= 1,
        lower_case(v.text()[0]) == v.letter(),
        GameElement::decode(seq![lower_case(v.text()[0])] + blanks) == Some(v),
{
    reveal_strlit("Rock");
    reveal_strlit("Paper");
    reveal_strlit("Scissors");
    let token = seq![v.letter()] + blanks;
    assert(v.is_written_as(token));
}

} // verus!
