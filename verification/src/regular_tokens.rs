//! Regularised tokens: a common form for comparing this lexer's output with
//! another lexer's.

use vstd::prelude::*;
use crate::char_sequences::Charseq;
use crate::combination::{CoarseToken, CoarseTokenData, DocCommentStyle, Spacing};
use crate::tokens_common::{NumericBase, Origin};
use crate::trees::{Forest, Tree};

verus! {

/// Line or block comment.
#[derive(Copy, Clone, PartialEq, Eq, Structural, Debug)]
pub enum CommentKind {
    Line,
    Block,
}

/// Whether an identifier was written in raw form.
#[derive(Copy, Clone, PartialEq, Eq, Structural, Debug)]
pub enum IdentifierStyle {
    NonRaw,
    Raw,
}

/// Whether a string-like literal was written in raw form.
#[derive(Copy, Clone, PartialEq, Eq, Structural, Debug)]
pub enum StringStyle {
    NonRaw,
    Raw,
}

/// A token in common form for comparing lexer implementations' output.
pub struct RegularToken {
    /// The matched source characters; for a synthetic token, the extent of
    /// the doc-comment it was lowered from.
    pub extent: Charseq,
    /// The spacing between this token and the next in its group.
    pub spacing: Spacing,
    /// The token's kind and attributes.
    pub data: RegularTokenData,
}

/// A regularised token's kind and attributes.
pub enum RegularTokenData {
    DocComment { comment_kind: CommentKind, style: DocCommentStyle, body: Charseq },
    Punctuation { marks: Charseq },
    Ident { represented_ident: Charseq, style: IdentifierStyle },
    LifetimeOrLabel { symbol: Charseq, style: IdentifierStyle },
    ByteLiteral { represented_byte: u8 },
    ByteStringLiteral { represented_bytes: Vec<u8>, style: StringStyle },
    CharacterLiteral { represented_character: char },
    StringLiteral { represented_string: Charseq, style: StringStyle },
    CstringLiteral { represented_bytes: Vec<u8>, style: StringStyle },
    IntegerLiteral { suffix: Charseq },
    FloatLiteral { suffix: Charseq },
    /// A string-like literal with a nonempty suffix, whose contents another
    /// lexer declines to decode.
    LiteralWithForbiddenSuffix { suffix: Charseq },
    Other,
}

/// The suffix of a string-family coarse literal, which must be empty for the
/// literal's contents to be comparable, or nothing for other token kinds.
pub open spec fn forbidden_literal_suffix_spec(d: CoarseTokenData) -> Option<Seq<char>> {
    match d {
        CoarseTokenData::CharacterLiteral { suffix, .. } => Some(suffix@),
        CoarseTokenData::ByteLiteral { suffix, .. } => Some(suffix@),
        CoarseTokenData::StringLiteral { suffix, .. } => Some(suffix@),
        CoarseTokenData::ByteStringLiteral { suffix, .. } => Some(suffix@),
        CoarseTokenData::CStringLiteral { suffix, .. } => Some(suffix@),
        CoarseTokenData::RawStringLiteral { suffix, .. } => Some(suffix@),
        CoarseTokenData::RawByteStringLiteral { suffix, .. } => Some(suffix@),
        CoarseTokenData::RawCStringLiteral { suffix, .. } => Some(suffix@),
        _ => None,
    }
}

/// Checks for suffixes on tokens of kinds which may not carry them.
///
/// Returns `None` where the token isn't a string-family literal, or its
/// (possibly empty) suffix where it is one.
pub fn forbidden_literal_suffix(token_data: &CoarseTokenData) -> (r: Option<&Charseq>)
    ensures
        match r {
            Some(s) => forbidden_literal_suffix_spec(*token_data) == Some(s@),
            None => forbidden_literal_suffix_spec(*token_data) is None,
        },
{
    match token_data {
        CoarseTokenData::CharacterLiteral { suffix, .. } => Some(suffix),
        CoarseTokenData::ByteLiteral { suffix, .. } => Some(suffix),
        CoarseTokenData::StringLiteral { suffix, .. } => Some(suffix),
        CoarseTokenData::ByteStringLiteral { suffix, .. } => Some(suffix),
        CoarseTokenData::CStringLiteral { suffix, .. } => Some(suffix),
        CoarseTokenData::RawStringLiteral { suffix, .. } => Some(suffix),
        CoarseTokenData::RawByteStringLiteral { suffix, .. } => Some(suffix),
        CoarseTokenData::RawCStringLiteral { suffix, .. } => Some(suffix),
        _ => None,
    }
}

/// How a coarse token's data regularises.
pub open spec fn regular_of_coarse(d: CoarseTokenData, r: RegularTokenData) -> bool {
    match forbidden_literal_suffix_spec(d) {
        Some(sfx) => if sfx.len() > 0 {
            r matches RegularTokenData::LiteralWithForbiddenSuffix { suffix } && suffix@ == sfx
        } else {
            regular_of_coarse_plain(d, r)
        },
        None => regular_of_coarse_plain(d, r),
    }
}

/// How a coarse token's data regularises, once a forbidden suffix is ruled
/// out.  C-string representations gain their terminating zero byte here.
pub open spec fn regular_of_coarse_plain(d: CoarseTokenData, r: RegularTokenData) -> bool {
    match d {
        CoarseTokenData::LineComment { style, body } => r matches RegularTokenData::DocComment {
            comment_kind, style: s2, body: b2 } && comment_kind == CommentKind::Line && s2 == style
            && b2@ == body@,
        CoarseTokenData::BlockComment { style, body } => r matches RegularTokenData::DocComment {
            comment_kind, style: s2, body: b2 } && comment_kind == CommentKind::Block && s2
            == style && b2@ == body@,
        CoarseTokenData::Punctuation { marks } => r matches RegularTokenData::Punctuation {
            marks: m2 } && m2@ == marks@,
        CoarseTokenData::Ident { represented_ident } => r matches RegularTokenData::Ident {
            represented_ident: i2, style } && i2@ == represented_ident@ && style
            == IdentifierStyle::NonRaw,
        CoarseTokenData::RawIdent { represented_ident } => r matches RegularTokenData::Ident {
            represented_ident: i2, style } && i2@ == represented_ident@ && style
            == IdentifierStyle::Raw,
        CoarseTokenData::LifetimeOrLabel { name } => r
            matches RegularTokenData::LifetimeOrLabel { symbol, style } && symbol@ == seq!['\'']
            + name@ && style == IdentifierStyle::NonRaw,
        CoarseTokenData::RawLifetimeOrLabel { name } => r
            matches RegularTokenData::LifetimeOrLabel { symbol, style } && symbol@ == seq!['\'']
            + name@ && style == IdentifierStyle::Raw,
        CoarseTokenData::CharacterLiteral { represented_character, .. } => r
            matches RegularTokenData::CharacterLiteral { represented_character: c2 } && c2
            == represented_character,
        CoarseTokenData::ByteLiteral { represented_byte, .. } => r
            matches RegularTokenData::ByteLiteral { represented_byte: b2 } && b2
            == represented_byte,
        CoarseTokenData::StringLiteral { represented_string, .. } => r
            matches RegularTokenData::StringLiteral { represented_string: s2, style } && s2@
            == represented_string@ && style == StringStyle::NonRaw,
        CoarseTokenData::RawStringLiteral { represented_string, .. } => r
            matches RegularTokenData::StringLiteral { represented_string: s2, style } && s2@
            == represented_string@ && style == StringStyle::Raw,
        CoarseTokenData::ByteStringLiteral { represented_bytes, .. } => r
            matches RegularTokenData::ByteStringLiteral { represented_bytes: b2, style } && b2@
            == represented_bytes@ && style == StringStyle::NonRaw,
        CoarseTokenData::RawByteStringLiteral { represented_bytes, .. } => r
            matches RegularTokenData::ByteStringLiteral { represented_bytes: b2, style } && b2@
            == represented_bytes@ && style == StringStyle::Raw,
        CoarseTokenData::CStringLiteral { represented_bytes, .. } => r
            matches RegularTokenData::CstringLiteral { represented_bytes: b2, style } && b2@
            == represented_bytes@.push(0u8) && style == StringStyle::NonRaw,
        CoarseTokenData::RawCStringLiteral { represented_bytes, .. } => r
            matches RegularTokenData::CstringLiteral { represented_bytes: b2, style } && b2@
            == represented_bytes@.push(0u8) && style == StringStyle::Raw,
        CoarseTokenData::IntegerLiteral { suffix, .. } => r
            matches RegularTokenData::IntegerLiteral { suffix: s2 } && s2@ == suffix@,
        CoarseTokenData::FloatLiteral { suffix, .. } => r
            matches RegularTokenData::FloatLiteral { suffix: s2 } && s2@ == suffix@,
    }
}

/// Converts the kind and attributes of a coarse token to regular form.
pub fn from_coarse_token_data(token_data: &CoarseTokenData) -> (r: RegularTokenData)
    ensures
        regular_of_coarse(*token_data, r),
{
    match forbidden_literal_suffix(token_data) {
        Some(suffix) => {
            if !suffix.is_empty() {
                return RegularTokenData::LiteralWithForbiddenSuffix { suffix: suffix.clone() };
            }
        },
        None => {},
    }
    match token_data {
        CoarseTokenData::LineComment { style, body } => RegularTokenData::DocComment {
            comment_kind: CommentKind::Line,
            style: *style,
            body: body.clone(),
        },
        CoarseTokenData::BlockComment { style, body } => RegularTokenData::DocComment {
            comment_kind: CommentKind::Block,
            style: *style,
            body: body.clone(),
        },
        CoarseTokenData::Punctuation { marks } => RegularTokenData::Punctuation {
            marks: marks.clone(),
        },
        CoarseTokenData::Ident { represented_ident } => RegularTokenData::Ident {
            represented_ident: represented_ident.clone(),
            style: IdentifierStyle::NonRaw,
        },
        CoarseTokenData::RawIdent { represented_ident } => RegularTokenData::Ident {
            represented_ident: represented_ident.clone(),
            style: IdentifierStyle::Raw,
        },
        CoarseTokenData::LifetimeOrLabel { name } => RegularTokenData::LifetimeOrLabel {
            symbol: apostrophe_prefixed(name),
            style: IdentifierStyle::NonRaw,
        },
        CoarseTokenData::RawLifetimeOrLabel { name } => RegularTokenData::LifetimeOrLabel {
            symbol: apostrophe_prefixed(name),
            style: IdentifierStyle::Raw,
        },
        CoarseTokenData::CharacterLiteral { represented_character, .. } => {
            RegularTokenData::CharacterLiteral { represented_character: *represented_character }
        },
        CoarseTokenData::ByteLiteral { represented_byte, .. } => RegularTokenData::ByteLiteral {
            represented_byte: *represented_byte,
        },
        CoarseTokenData::StringLiteral { represented_string, .. } => {
            RegularTokenData::StringLiteral {
                represented_string: represented_string.clone(),
                style: StringStyle::NonRaw,
            }
        },
        CoarseTokenData::RawStringLiteral { represented_string, .. } => {
            RegularTokenData::StringLiteral {
                represented_string: represented_string.clone(),
                style: StringStyle::Raw,
            }
        },
        CoarseTokenData::ByteStringLiteral { represented_bytes, .. } => {
            RegularTokenData::ByteStringLiteral {
                represented_bytes: represented_bytes.clone(),
                style: StringStyle::NonRaw,
            }
        },
        CoarseTokenData::RawByteStringLiteral { represented_bytes, .. } => {
            RegularTokenData::ByteStringLiteral {
                represented_bytes: represented_bytes.clone(),
                style: StringStyle::Raw,
            }
        },
        CoarseTokenData::CStringLiteral { represented_bytes, .. } => {
            RegularTokenData::CstringLiteral {
                represented_bytes: nul_terminated(represented_bytes),
                style: StringStyle::NonRaw,
            }
        },
        CoarseTokenData::RawCStringLiteral { represented_bytes, .. } => {
            RegularTokenData::CstringLiteral {
                represented_bytes: nul_terminated(represented_bytes),
                style: StringStyle::Raw,
            }
        },
        CoarseTokenData::IntegerLiteral { suffix, .. } => RegularTokenData::IntegerLiteral {
            suffix: suffix.clone(),
        },
        CoarseTokenData::FloatLiteral { suffix, .. } => RegularTokenData::FloatLiteral {
            suffix: suffix.clone(),
        },
    }
}

/// Returns the name with a leading apostrophe.
fn apostrophe_prefixed(name: &Charseq) -> (r: Charseq)
    ensures
        r@ == seq!['\''] + name@,
{
    let mut v: Vec<char> = Vec::new();
    v.push('\'');
    proof {
        assert(v@ =~= seq!['\'']);
    }
    let r = crate::char_sequences::concat_charseqs(&Charseq::new(v), name);
    r
}

/// Returns the bytes with a terminating zero byte appended.
fn nul_terminated(bytes: &Vec<u8>) -> (r: Vec<u8>)
    ensures
        r@ == bytes@.push(0u8),
{
    let mut v = bytes.clone();
    v.push(0);
    v
}

/// A regularised coarse token: the extent comes from the origin (a synthetic
/// token uses the extent of the doc-comment it was lowered from), the
/// spacing carries over, and the data regularises.
pub open spec fn regular_token_of_coarse(c: CoarseToken, r: RegularToken) -> bool {
    &&& r.extent@ == (match c.origin@ {
        crate::tokens_common::OriginV::Natural { extent } => extent,
        crate::tokens_common::OriginV::Synthetic { lowered_from, .. } => lowered_from,
    })
    &&& r.spacing == c.spacing
    &&& regular_of_coarse(c.data, r.data)
}

/// The regular forest has the same shape as the coarse forest, with each
/// token regularised, from position `i` on.
pub open spec fn regularised_forest_from(
    f: Forest<CoarseToken>,
    g: Forest<RegularToken>,
    i: int,
) -> bool
    decreases f, f.contents@.len() - i,
{
    &&& f.contents@.len() == g.contents@.len()
    &&& forall|j: int|
        0 <= j < f.contents@.len() && i <= j ==> match (#[trigger] f.contents@[j], g.contents@[j]) {
            (Tree::Token(c), Tree::Token(r)) => regular_token_of_coarse(c, r),
            (Tree::Group(k1, inner1), Tree::Group(k2, inner2)) => k1 == k2
                && regularised_forest_rec(inner1, inner2),
            _ => false,
        }
}

/// The recursive companion of [`regularised_forest_from`].
pub open spec fn regularised_forest_rec(f: Forest<CoarseToken>, g: Forest<RegularToken>) -> bool
    decreases f, f.contents@.len() + 1,
{
    regularised_forest_from(f, g, 0)
}

/// Converts a forest of coarse tokens into a forest of regular tokens.
pub fn regularise_from_coarse(forest: &Forest<CoarseToken>) -> (r: Forest<RegularToken>)
    ensures
        regularised_forest_rec(*forest, r),
    decreases *forest,
{
    let n = forest.contents.len();
    let mut out: Forest<RegularToken> = Forest::new();
    let mut i: usize = 0;
    while i < n
        invariant
            i <= n == forest.contents@.len(),
            out.contents@.len() == i,
            forall|j: int|
                0 <= j < i ==> match (#[trigger] forest.contents@[j], out.contents@[j]) {
                    (Tree::Token(c), Tree::Token(r)) => regular_token_of_coarse(c, r),
                    (Tree::Group(k1, inner1), Tree::Group(k2, inner2)) => k1 == k2
                        && regularised_forest_rec(inner1, inner2),
                    _ => false,
                },
        decreases n - i,
    {
        match &forest.contents[i] {
            Tree::Token(c) => {
                let extent = match &c.origin {
                    Origin::Natural { extent } => extent.clone(),
                    Origin::Synthetic { lowered_from, .. } => lowered_from.clone(),
                };
                let tok = RegularToken {
                    extent,
                    spacing: c.spacing,
                    data: from_coarse_token_data(&c.data),
                };
                out.contents.push(Tree::Token(tok));
            },
            Tree::Group(k, inner) => {
                let sub = regularise_from_coarse(inner);
                out.contents.push(Tree::Group(*k, sub));
            },
        }
        i = i + 1;
    }
    out
}

} // verus!
