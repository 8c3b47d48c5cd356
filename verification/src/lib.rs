//! A number-guessing session library: a target value in 1..=100, text
//! lines parsed as guesses, ordering feedback, and termination exactly on
//! a matching guess; together with a few small verified helpers.

pub mod basics;
pub mod game;
pub mod parse;
