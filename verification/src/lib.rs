//! Diagnosis of LR(1) conflicts: each conflict of an already-built automaton
//! is classified and explained by a structured, example-driven message.

pub mod actions;
pub mod answers;
pub mod automaton;
pub mod classification;
pub mod error;
pub mod example;
pub mod explain;
pub mod gather;
pub mod grammar;
pub mod intern_token;
pub mod laws;
pub mod lookahead;
pub mod message;
pub mod parse_error;
pub mod product;
pub mod search;
pub mod text;
pub mod trace;
pub mod word;
