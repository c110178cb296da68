//! "Fine-grained" tokens: explicit whitespace, one character per punctuation
//! token, literals carrying their represented values.

use vstd::prelude::*;
use crate::char_sequences::Charseq;
use crate::tokens_common::{NumericBase, Origin, OriginV};

verus! {

/// Whether a comment is a doc-comment, and if so which sort of doc-comment.
#[derive(Copy, Clone, PartialEq, Eq, Structural, Debug)]
pub enum CommentStyle {
    NonDoc,
    InnerDoc,
    OuterDoc,
}

/// A fine-grained token.
pub struct FineToken {
    /// The token's kind and attributes.
    pub data: FineTokenData,
    /// Where this token came from.
    pub origin: Origin,
}

/// A fine-grained token's kind and attributes.
pub enum FineTokenData {
    Whitespace,
    LineComment { style: CommentStyle, body: Charseq },
    BlockComment { style: CommentStyle, body: Charseq },
    Punctuation { mark: char },
    Ident { represented_ident: Charseq },
    RawIdent { represented_ident: Charseq },
    LifetimeOrLabel { name: Charseq },
    RawLifetimeOrLabel { name: Charseq },
    CharacterLiteral { represented_character: char, suffix: Charseq },
    ByteLiteral { represented_byte: u8, suffix: Charseq },
    StringLiteral { represented_string: Charseq, suffix: Charseq },
    RawStringLiteral { represented_string: Charseq, suffix: Charseq },
    ByteStringLiteral { represented_bytes: Vec<u8>, suffix: Charseq },
    RawByteStringLiteral { represented_bytes: Vec<u8>, suffix: Charseq },
    CStringLiteral { represented_bytes: Vec<u8>, suffix: Charseq },
    RawCStringLiteral { represented_bytes: Vec<u8>, suffix: Charseq },
    IntegerLiteral { base: NumericBase, digits: Charseq, suffix: Charseq },
    FloatLiteral { body: Charseq, suffix: Charseq },
}

/// The mathematical value of a [`FineToken`].
pub struct FineTokenV {
    pub data: FineTokenDataV,
    pub origin: OriginV,
}

/// The mathematical value of a [`FineTokenData`].
pub enum FineTokenDataV {
    Whitespace,
    LineComment { style: CommentStyle, body: Seq<char> },
    BlockComment { style: CommentStyle, body: Seq<char> },
    Punctuation { mark: char },
    Ident { represented_ident: Seq<char> },
    RawIdent { represented_ident: Seq<char> },
    LifetimeOrLabel { name: Seq<char> },
    RawLifetimeOrLabel { name: Seq<char> },
    CharacterLiteral { represented_character: char, suffix: Seq<char> },
    ByteLiteral { represented_byte: u8, suffix: Seq<char> },
    StringLiteral { represented_string: Seq<char>, suffix: Seq<char> },
    RawStringLiteral { represented_string: Seq<char>, suffix: Seq<char> },
    ByteStringLiteral { represented_bytes: Seq<u8>, suffix: Seq<char> },
    RawByteStringLiteral { represented_bytes: Seq<u8>, suffix: Seq<char> },
    CStringLiteral { represented_bytes: Seq<u8>, suffix: Seq<char> },
    RawCStringLiteral { represented_bytes: Seq<u8>, suffix: Seq<char> },
    IntegerLiteral { base: NumericBase, digits: Seq<char>, suffix: Seq<char> },
    FloatLiteral { body: Seq<char>, suffix: Seq<char> },
}

impl View for FineTokenData {
    type V = FineTokenDataV;

    open spec fn view(&self) -> FineTokenDataV {
        match self {
            FineTokenData::Whitespace => FineTokenDataV::Whitespace,
            FineTokenData::LineComment { style, body } => FineTokenDataV::LineComment {
                style: *style,
                body: body@,
            },
            FineTokenData::BlockComment { style, body } => FineTokenDataV::BlockComment {
                style: *style,
                body: body@,
            },
            FineTokenData::Punctuation { mark } => FineTokenDataV::Punctuation { mark: *mark },
            FineTokenData::Ident { represented_ident } => FineTokenDataV::Ident {
                represented_ident: represented_ident@,
            },
            FineTokenData::RawIdent { represented_ident } => FineTokenDataV::RawIdent {
                represented_ident: represented_ident@,
            },
            FineTokenData::LifetimeOrLabel { name } => FineTokenDataV::LifetimeOrLabel {
                name: name@,
            },
            FineTokenData::RawLifetimeOrLabel { name } => FineTokenDataV::RawLifetimeOrLabel {
                name: name@,
            },
            FineTokenData::CharacterLiteral { represented_character, suffix } => {
                FineTokenDataV::CharacterLiteral {
                    represented_character: *represented_character,
                    suffix: suffix@,
                }
            },
            FineTokenData::ByteLiteral { represented_byte, suffix } => {
                FineTokenDataV::ByteLiteral { represented_byte: *represented_byte, suffix: suffix@ }
            },
            FineTokenData::StringLiteral { represented_string, suffix } => {
                FineTokenDataV::StringLiteral {
                    represented_string: represented_string@,
                    suffix: suffix@,
                }
            },
            FineTokenData::RawStringLiteral { represented_string, suffix } => {
                FineTokenDataV::RawStringLiteral {
                    represented_string: represented_string@,
                    suffix: suffix@,
                }
            },
            FineTokenData::ByteStringLiteral { represented_bytes, suffix } => {
                FineTokenDataV::ByteStringLiteral {
                    represented_bytes: represented_bytes@,
                    suffix: suffix@,
                }
            },
            FineTokenData::RawByteStringLiteral { represented_bytes, suffix } => {
                FineTokenDataV::RawByteStringLiteral {
                    represented_bytes: represented_bytes@,
                    suffix: suffix@,
                }
            },
            FineTokenData::CStringLiteral { represented_bytes, suffix } => {
                FineTokenDataV::CStringLiteral {
                    represented_bytes: represented_bytes@,
                    suffix: suffix@,
                }
            },
            FineTokenData::RawCStringLiteral { represented_bytes, suffix } => {
                FineTokenDataV::RawCStringLiteral {
                    represented_bytes: represented_bytes@,
                    suffix: suffix@,
                }
            },
            FineTokenData::IntegerLiteral { base, digits, suffix } => {
                FineTokenDataV::IntegerLiteral { base: *base, digits: digits@, suffix: suffix@ }
            },
            FineTokenData::FloatLiteral { body, suffix } => FineTokenDataV::FloatLiteral {
                body: body@,
                suffix: suffix@,
            },
        }
    }
}

impl View for FineToken {
    type V = FineTokenV;

    open spec fn view(&self) -> FineTokenV {
        FineTokenV { data: self.data@, origin: self.origin@ }
    }
}

/// Says whether this token's value counts as whitespace: whitespace proper,
/// and comments other than doc-comments.
pub open spec fn is_whitespace_spec(data: FineTokenDataV) -> bool {
    match data {
        FineTokenDataV::Whitespace => true,
        FineTokenDataV::LineComment { style, .. } => style == CommentStyle::NonDoc,
        FineTokenDataV::BlockComment { style, .. } => style == CommentStyle::NonDoc,
        _ => false,
    }
}

impl FineTokenData {
    /// Says whether this token counts as whitespace.
    ///
    /// Comments count as whitespace, except for doc-comments.
    pub fn is_whitespace(&self) -> (r: bool)
        ensures
            r == is_whitespace_spec(self@),
    {
        match self {
            FineTokenData::Whitespace => true,
            FineTokenData::LineComment { style: CommentStyle::NonDoc, .. } => true,
            FineTokenData::BlockComment { style: CommentStyle::NonDoc, .. } => true,
            _ => false,
        }
    }
}

impl FineToken {
    /// If this token might represent a delimiter, returns that character.
    pub fn as_delimiter(&self) -> (r: Option<char>)
        ensures
            r == as_delimiter_spec(self@.data),
    {
        match &self.data {
            FineTokenData::Punctuation { mark } => Some(*mark),
            _ => None,
        }
    }
}

/// The delimiter character of a punctuation token, if it is one.
pub open spec fn as_delimiter_spec(data: FineTokenDataV) -> Option<char> {
    match data {
        FineTokenDataV::Punctuation { mark } => Some(mark),
        _ => None,
    }
}

} // verus!

verus! {

impl Clone for FineTokenData {
    fn clone(&self) -> (r: Self)
        ensures
            r@ == self@,
    {
        match self {
            FineTokenData::Whitespace => FineTokenData::Whitespace,
            FineTokenData::LineComment { style, body } => FineTokenData::LineComment {
                style: *style,
                body: body.clone(),
            },
            FineTokenData::BlockComment { style, body } => FineTokenData::BlockComment {
                style: *style,
                body: body.clone(),
            },
            FineTokenData::Punctuation { mark } => FineTokenData::Punctuation { mark: *mark },
            FineTokenData::Ident { represented_ident } => FineTokenData::Ident {
                represented_ident: represented_ident.clone(),
            },
            FineTokenData::RawIdent { represented_ident } => FineTokenData::RawIdent {
                represented_ident: represented_ident.clone(),
            },
            FineTokenData::LifetimeOrLabel { name } => FineTokenData::LifetimeOrLabel {
                name: name.clone(),
            },
            FineTokenData::RawLifetimeOrLabel { name } => FineTokenData::RawLifetimeOrLabel {
                name: name.clone(),
            },
            FineTokenData::CharacterLiteral { represented_character, suffix } => {
                FineTokenData::CharacterLiteral {
                    represented_character: *represented_character,
                    suffix: suffix.clone(),
                }
            },
            FineTokenData::ByteLiteral { represented_byte, suffix } => {
                FineTokenData::ByteLiteral {
                    represented_byte: *represented_byte,
                    suffix: suffix.clone(),
                }
            },
            FineTokenData::StringLiteral { represented_string, suffix } => {
                FineTokenData::StringLiteral {
                    represented_string: represented_string.clone(),
                    suffix: suffix.clone(),
                }
            },
            FineTokenData::RawStringLiteral { represented_string, suffix } => {
                FineTokenData::RawStringLiteral {
                    represented_string: represented_string.clone(),
                    suffix: suffix.clone(),
                }
            },
            FineTokenData::ByteStringLiteral { represented_bytes, suffix } => {
                FineTokenData::ByteStringLiteral {
                    represented_bytes: represented_bytes.clone(),
                    suffix: suffix.clone(),
                }
            },
            FineTokenData::RawByteStringLiteral { represented_bytes, suffix } => {
                FineTokenData::RawByteStringLiteral {
                    represented_bytes: represented_bytes.clone(),
                    suffix: suffix.clone(),
                }
            },
            FineTokenData::CStringLiteral { represented_bytes, suffix } => {
                FineTokenData::CStringLiteral {
                    represented_bytes: represented_bytes.clone(),
                    suffix: suffix.clone(),
                }
            },
            FineTokenData::RawCStringLiteral { represented_bytes, suffix } => {
                FineTokenData::RawCStringLiteral {
                    represented_bytes: represented_bytes.clone(),
                    suffix: suffix.clone(),
                }
            },
            FineTokenData::IntegerLiteral { base, digits, suffix } => {
                FineTokenData::IntegerLiteral {
                    base: *base,
                    digits: digits.clone(),
                    suffix: suffix.clone(),
                }
            },
            FineTokenData::FloatLiteral { body, suffix } => FineTokenData::FloatLiteral {
                body: body.clone(),
                suffix: suffix.clone(),
            },
        }
    }
}

impl Clone for FineToken {
    fn clone(&self) -> (r: Self)
        ensures
            r@ == self@,
    {
        FineToken { data: self.data.clone(), origin: self.origin.clone() }
    }
}

} // verus!
