//! Data captured from another lexer's token stream, and its regularisation.
//!
//! A harness outside this library runs that lexer and hands its tokens over
//! as plain values of these types; converting them to regular form is this
//! library's work.

use vstd::prelude::*;
use crate::char_sequences::Charseq;
use crate::combination::{DocCommentStyle, Spacing};
use crate::comparison::regular_token_eq;
use crate::regular_tokens::{CommentKind, IdentifierStyle, RegularToken, RegularTokenData,
    StringStyle};
use crate::trees::{Forest, Tree};

verus! {

/// Line or block comment, as the other lexer reports it.
#[derive(Copy, Clone, PartialEq, Eq, Structural, Debug)]
pub enum RustcCommentKind {
    Line,
    Block,
}

/// Inner or outer doc-comment, as the other lexer reports it.
#[derive(Copy, Clone, PartialEq, Eq, Structural, Debug)]
pub enum RustcDocCommentStyle {
    Inner,
    Outer,
}

/// Whether an identifier was written in raw form.
#[derive(Copy, Clone, PartialEq, Eq, Structural, Debug)]
pub enum RustcIdentIsRaw {
    No,
    Yes,
}

/// Whether a string-like literal was written in raw form.
#[derive(Copy, Clone, PartialEq, Eq, Structural, Debug)]
pub enum RustcStringStyle {
    NonRaw,
    Raw,
}

/// A token captured from the other lexer.
pub struct RustcToken {
    /// The source characters the token's span covers.
    pub extent: Charseq,
    /// The spacing to the following token.
    pub spacing: Spacing,
    /// The token's kind and attributes.
    pub data: RustcTokenData,
}

/// A captured token's kind and attributes.
pub enum RustcTokenData {
    DocComment { comment_kind: RustcCommentKind, style: RustcDocCommentStyle, body: Charseq },
    Punctuation { marks: Charseq },
    Ident { style: RustcIdentIsRaw, ident: Charseq },
    Lifetime { style: RustcIdentIsRaw, symbol: Charseq },
    Lit { literal_data: RustcLiteralData },
    Other,
}

/// A captured literal's decoded value.
pub enum RustcLiteralData {
    Byte(u8),
    Character(char),
    String(Charseq, RustcStringStyle),
    ByteString(Vec<u8>, RustcStringStyle),
    CString(Vec<u8>, RustcStringStyle),
    Integer(Charseq),
    Float(Charseq),
    /// A string-like literal with a suffix, whose contents the other lexer
    /// declines to decode.
    ForbiddenSuffix(Charseq),
    /// A literal the other lexer reported as an error.
    Error,
}

/// Whether a captured literal is an error report.
pub open spec fn rustc_literal_is_error(d: RustcLiteralData) -> bool {
    d is Error
}

/// Whether a forest of captured tokens contains no error literal.
pub open spec fn rustc_forest_error_free(f: Forest<RustcToken>) -> bool
    decreases f,
{
    forall|j: int|
        0 <= j < f.contents@.len() ==> match #[trigger] f.contents@[j] {
            Tree::Token(t) => match t.data {
                RustcTokenData::Lit { literal_data } => !rustc_literal_is_error(literal_data),
                _ => true,
            },
            Tree::Group(_, inner) => rustc_forest_error_free(inner),
        }
}

/// How a captured literal regularises.
pub open spec fn regular_of_rustc_literal(d: RustcLiteralData, r: RegularTokenData) -> bool {
    match d {
        RustcLiteralData::Byte(b) => r matches RegularTokenData::ByteLiteral {
            represented_byte } && represented_byte == b,
        RustcLiteralData::Character(c) => r matches RegularTokenData::CharacterLiteral {
            represented_character } && represented_character == c,
        RustcLiteralData::String(s, style) => r matches RegularTokenData::StringLiteral {
            represented_string, style: s2 } && represented_string@ == s@ && s2 == (
        match style {
            RustcStringStyle::NonRaw => StringStyle::NonRaw,
            RustcStringStyle::Raw => StringStyle::Raw,
        }),
        RustcLiteralData::ByteString(b, style) => r matches RegularTokenData::ByteStringLiteral {
            represented_bytes, style: s2 } && represented_bytes@ == b@ && s2 == (
        match style {
            RustcStringStyle::NonRaw => StringStyle::NonRaw,
            RustcStringStyle::Raw => StringStyle::Raw,
        }),
        RustcLiteralData::CString(b, style) => r matches RegularTokenData::CstringLiteral {
            represented_bytes, style: s2 } && represented_bytes@ == b@ && s2 == (
        match style {
            RustcStringStyle::NonRaw => StringStyle::NonRaw,
            RustcStringStyle::Raw => StringStyle::Raw,
        }),
        RustcLiteralData::Integer(suffix) => r matches RegularTokenData::IntegerLiteral {
            suffix: x2 } && x2@ == suffix@,
        RustcLiteralData::Float(suffix) => r matches RegularTokenData::FloatLiteral {
            suffix: x2 } && x2@ == suffix@,
        RustcLiteralData::ForbiddenSuffix(suffix) => r
            matches RegularTokenData::LiteralWithForbiddenSuffix { suffix: x2 } && x2@ == suffix@,
        RustcLiteralData::Error => false,
    }
}

/// How a captured token's data regularises.
pub open spec fn regular_of_rustc(d: RustcTokenData, r: RegularTokenData) -> bool {
    match d {
        RustcTokenData::DocComment { comment_kind, style, body } => r
            matches RegularTokenData::DocComment { comment_kind: k2, style: s2, body: b2 } && k2
            == (match comment_kind {
            RustcCommentKind::Line => CommentKind::Line,
            RustcCommentKind::Block => CommentKind::Block,
        }) && s2 == (match style {
            RustcDocCommentStyle::Inner => DocCommentStyle::Inner,
            RustcDocCommentStyle::Outer => DocCommentStyle::Outer,
        }) && b2@ == body@,
        RustcTokenData::Punctuation { marks } => r matches RegularTokenData::Punctuation {
            marks: m2 } && m2@ == marks@,
        RustcTokenData::Ident { style, ident } => r matches RegularTokenData::Ident {
            represented_ident, style: s2 } && represented_ident@ == ident@ && s2 == (
        match style {
            RustcIdentIsRaw::No => IdentifierStyle::NonRaw,
            RustcIdentIsRaw::Yes => IdentifierStyle::Raw,
        }),
        RustcTokenData::Lifetime { style, symbol } => r
            matches RegularTokenData::LifetimeOrLabel { symbol: n2, style: s2 } && n2@ == symbol@
            && s2 == (match style {
            RustcIdentIsRaw::No => IdentifierStyle::NonRaw,
            RustcIdentIsRaw::Yes => IdentifierStyle::Raw,
        }),
        RustcTokenData::Lit { literal_data } => regular_of_rustc_literal(literal_data, r),
        RustcTokenData::Other => r is Other,
    }
}

/// Converts a captured literal to regular form.
pub fn regularise_rustc_literal(literal_data: &RustcLiteralData) -> (r: Result<
    RegularTokenData,
    (),
>)
    ensures
        match r {
            Ok(rd) => regular_of_rustc_literal(*literal_data, rd),
            Err(_) => rustc_literal_is_error(*literal_data),
        },
{
    match literal_data {
        RustcLiteralData::Byte(b) => Ok(RegularTokenData::ByteLiteral { represented_byte: *b }),
        RustcLiteralData::Character(c) => Ok(
            RegularTokenData::CharacterLiteral { represented_character: *c },
        ),
        RustcLiteralData::String(s, style) => Ok(
            RegularTokenData::StringLiteral {
                represented_string: s.clone(),
                style: match style {
                    RustcStringStyle::NonRaw => StringStyle::NonRaw,
                    RustcStringStyle::Raw => StringStyle::Raw,
                },
            },
        ),
        RustcLiteralData::ByteString(b, style) => Ok(
            RegularTokenData::ByteStringLiteral {
                represented_bytes: b.clone(),
                style: match style {
                    RustcStringStyle::NonRaw => StringStyle::NonRaw,
                    RustcStringStyle::Raw => StringStyle::Raw,
                },
            },
        ),
        RustcLiteralData::CString(b, style) => Ok(
            RegularTokenData::CstringLiteral {
                represented_bytes: b.clone(),
                style: match style {
                    RustcStringStyle::NonRaw => StringStyle::NonRaw,
                    RustcStringStyle::Raw => StringStyle::Raw,
                },
            },
        ),
        RustcLiteralData::Integer(suffix) => Ok(
            RegularTokenData::IntegerLiteral { suffix: suffix.clone() },
        ),
        RustcLiteralData::Float(suffix) => Ok(
            RegularTokenData::FloatLiteral { suffix: suffix.clone() },
        ),
        RustcLiteralData::ForbiddenSuffix(suffix) => Ok(
            RegularTokenData::LiteralWithForbiddenSuffix { suffix: suffix.clone() },
        ),
        RustcLiteralData::Error => Err(()),
    }
}

/// The regular forest has the same shape as the captured forest, with each
/// token regularised.
pub open spec fn rustc_forest_regularised(f: Forest<RustcToken>, g: Forest<RegularToken>) -> bool
    decreases f,
{
    &&& f.contents@.len() == g.contents@.len()
    &&& forall|j: int|
        0 <= j < f.contents@.len() ==> match (#[trigger] f.contents@[j], g.contents@[j]) {
            (Tree::Token(t), Tree::Token(r)) => r.extent@ == t.extent@ && r.spacing == t.spacing
                && regular_of_rustc(t.data, r.data),
            (Tree::Group(k1, inner1), Tree::Group(k2, inner2)) => k1 == k2
                && rustc_forest_regularised(inner1, inner2),
            _ => false,
        }
}

/// Converts a forest of captured tokens into a forest of regular tokens.
///
/// Tokens reporting a literal error cannot be regularised and are excluded
/// by the precondition (the harness only hands over accepted streams).
pub fn regularise_from_rustc(forest: &Forest<RustcToken>) -> (r: Forest<RegularToken>)
    requires
        rustc_forest_error_free(*forest),
    ensures
        rustc_forest_regularised(*forest, r),
    decreases *forest,
{
    let n = forest.contents.len();
    let mut out: Forest<RegularToken> = Forest::new();
    let mut i: usize = 0;
    while i < n
        invariant
            i <= n == forest.contents@.len(),
            rustc_forest_error_free(*forest),
            out.contents@.len() == i,
            forall|j: int|
                0 <= j < i ==> match (#[trigger] forest.contents@[j], out.contents@[j]) {
                    (Tree::Token(t), Tree::Token(r)) => r.extent@ == t.extent@ && r.spacing
                        == t.spacing && regular_of_rustc(t.data, r.data),
                    (Tree::Group(k1, inner1), Tree::Group(k2, inner2)) => k1 == k2
                        && rustc_forest_regularised(inner1, inner2),
                    _ => false,
                },
        decreases n - i,
    {
        match &forest.contents[i] {
            Tree::Token(t) => {
                let data = match &t.data {
                    RustcTokenData::DocComment { comment_kind, style, body } => {
                        RegularTokenData::DocComment {
                            comment_kind: match comment_kind {
                                RustcCommentKind::Line => CommentKind::Line,
                                RustcCommentKind::Block => CommentKind::Block,
                            },
                            style: match style {
                                RustcDocCommentStyle::Inner => DocCommentStyle::Inner,
                                RustcDocCommentStyle::Outer => DocCommentStyle::Outer,
                            },
                            body: body.clone(),
                        }
                    },
                    RustcTokenData::Punctuation { marks } => RegularTokenData::Punctuation {
                        marks: marks.clone(),
                    },
                    RustcTokenData::Ident { style, ident } => RegularTokenData::Ident {
                        represented_ident: ident.clone(),
                        style: match style {
                            RustcIdentIsRaw::No => IdentifierStyle::NonRaw,
                            RustcIdentIsRaw::Yes => IdentifierStyle::Raw,
                        },
                    },
                    RustcTokenData::Lifetime { style, symbol } => {
                        RegularTokenData::LifetimeOrLabel {
                            symbol: symbol.clone(),
                            style: match style {
                                RustcIdentIsRaw::No => IdentifierStyle::NonRaw,
                                RustcIdentIsRaw::Yes => IdentifierStyle::Raw,
                            },
                        }
                    },
                    RustcTokenData::Lit { literal_data } => {
                        match regularise_rustc_literal(literal_data) {
                            Ok(rd) => rd,
                            Err(_) => {
                                proof {
                                    assert(false);
                                }
                                RegularTokenData::Other
                            },
                        }
                    },
                    RustcTokenData::Other => RegularTokenData::Other,
                };
                out.contents.push(
                    Tree::Token(
                        RegularToken { extent: t.extent.clone(), spacing: t.spacing, data },
                    ),
                );
            },
            Tree::Group(k, inner) => {
                let sub = regularise_from_rustc(inner);
                out.contents.push(Tree::Group(*k, sub));
            },
        }
        i = i + 1;
    }
    out
}

} // verus!
