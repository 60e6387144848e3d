//! A reader of the Specctra DSN format, the parenthesised text in which
//! printed-circuit-board designs go from one tool to another.
//!
//! Reading has two stages. The [`lexer`] turns the text of a design into
//! tokens, under the two directives on quoting that the text itself may hold.
//! The [`parser`] turns the tokens into a [`types::DsnPcb`], or fails on the
//! first token that the [`grammar`] does not allow.
//!
//! The design is kept as it is written: identifiers are not resolved, units
//! are not converted, and a number is the literal that denotes it.
pub mod error;
pub mod grammar;
pub mod lexer;
pub mod lexing_laws;
pub mod number;
pub mod parser;
pub mod parsing_laws;
pub mod pattern;
pub mod text;
pub mod token;
pub mod types;
