//! A parser of scores in the BMS family of rhythm-game notations.
//!
//! The pipeline: a [`cursor::Cursor`] hands out the words and line remainders of the source;
//! the [`lexer`] turns each command into a [`token::Token`], with the channel codes of messages
//! read by the parser of a [`channel::KeyLayout`]; the [`random`] evaluator resolves the
//! `#RANDOM`/`#SWITCH` scopes with scripted draws; the [`processor`]s build the score model of
//! [`model`] from the tokens kept.
pub mod channel;
pub mod command;
pub mod cursor;
pub mod defs;
pub mod lexer;
pub mod message;
pub mod model;
pub mod number;
pub mod processor;
pub mod random;
pub mod token;
