//! Rock, paper, scissors as a value type: the order that the rules of the
//! game put on the three choices, their text form in both directions and
//! the choice that a random draw stands for. Two small reductions over
//! numbers come with it.
//!
//! Every function carries a contract, and Verus proves each of them but
//! one: the error of the crate `simple_error` is made by a small function
//! whose contract is taken on trust, and marked so.

pub mod display;
pub mod game_element;
pub mod largest;
pub mod parse;
pub mod sample;
pub mod summation;

pub use game_element::GameElement;
pub use largest::find_largest_element;
pub use summation::sum_one_to_n;
