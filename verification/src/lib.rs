//! A parsing library for Lua's syntax tree: a tokenizer from source text to
//! tokens, and a recursive-descent parser from tokens to syntax elements.
//!
//! The supported dialect is Lua 5.4.
use vstd::prelude::*;

verus! {

/// A span of a given source file, in bytes.
#[derive(Debug, Copy, Clone, PartialEq, Eq)]
pub struct Span {
    pub start: usize,
    pub end: usize,
}

impl Span {
    /// Creates a new span.
    pub fn new(start: usize, end: usize) -> (s: Self)
        requires
            start <= end,
        ensures
            s == (Span { start, end }),
    {
        Span { start, end }
    }
}

} // verus!

mod cloning;
pub mod element;
pub mod grammar;
pub mod laws;
pub mod lexical;
pub mod parse;
mod parser;
pub mod precedence;
pub mod progress;
pub mod token;
pub mod tokenize;
pub mod unfold;
