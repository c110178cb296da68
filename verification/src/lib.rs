//! A reference lexical analyser for a Rust-like language.
//!
//! The pipeline runs, in order: cleaning of the input text, pretokenisation
//! (longest-match checked), reprocessing into fine-grained tokens, optional
//! doc-comment lowering, construction of a delimiter-balanced forest,
//! coarsening, and regularisation for comparison against another lexer.

use vstd::prelude::*;

pub mod char_sequences;
pub mod cleaning;
pub mod combination;
pub mod comparison;
pub mod decl_lexing;
pub mod doc_lowering;
pub mod escape_processing;
pub mod fine_tokens;
pub mod laws;
pub mod pretokenisation;
pub mod regular_tokens;
pub mod reprocessing;
pub mod rustc_tokens;
pub mod tokenisation;
pub mod tokens_common;
pub mod tree_construction;
pub mod tree_flattening;
pub mod trees;
pub mod unicode;
pub mod utils;

verus! {

/// A dated edition of the language's grammar.
#[derive(Copy, Clone, PartialEq, Eq, Structural, Debug)]
pub enum Edition {
    E2015,
    E2021,
    E2024,
}

/// Which pre-tokenisation cleaning passes run.
#[derive(Copy, Clone, PartialEq, Eq, Structural, Debug)]
pub enum CleaningMode {
    NoCleaning,
    CleanShebang,
    CleanShebangAndFrontmatter,
}

/// Whether doc-comments are rewritten into synthetic attribute tokens.
#[derive(Copy, Clone, PartialEq, Eq, Structural, Debug)]
pub enum Lowering {
    NoLowering,
    LowerDocComments,
}

} // verus!
