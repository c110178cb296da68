//! Step 2 (reprocessing) of lexical analysis: validating a pretoken and
//! decoding it into a fine-grained token.

use vstd::prelude::*;
use crate::char_sequences::{nfc_of, Charseq};
use crate::escape_processing::{escape_interp, repr_byte_of, repr_char_of, single_escape_interp,
    try_escape_interpretation, try_single_escape_interpretation, LiteralComponent,
    MaybeInterpretation};
use crate::fine_tokens::{CommentStyle, FineToken, FineTokenData, FineTokenDataV};
use crate::pretokenisation::rules::MAX_INPUT_LENGTH;
use crate::pretokenisation::{Pretoken, PretokenData, PretokenDataV};
use crate::tokens_common::{NumericBase, Origin};
use vstd::utf8::{encode_scalar, is_scalar};

verus! {

/// Error from an attempt to reprocess a pretoken.
pub enum Error {
    /// Reprocessing rejected the pretoken.
    ///
    /// The string describes the reason for rejection.
    Rejected(String),
    /// The pretoken demonstrated a problem in the model or implementation.
    ///
    /// The string describes the problem.
    ModelError(String),
}

/// What reprocessing a pretoken yields, stripped of explanatory text.
pub enum ReprocessOutcome {
    /// The pretoken is accepted, as a fine-grained token with this value.
    Token(FineTokenDataV),
    /// The pretoken is rejected: the input is not in the language.
    Reject,
    /// The pretoken exposes an inconsistency in the model.
    Model,
}

// --- helpers ---------------------------------------------------------------

/// The five identifiers forbidden in raw form.
pub open spec fn forbidden_ident(s: Seq<char>) -> bool {
    s == seq!['_'] || s == seq!['c', 'r', 'a', 't', 'e'] || s == seq!['s', 'e', 'l', 'f'] || s
        == seq!['s', 'u', 'p', 'e', 'r'] || s == seq!['S', 'e', 'l', 'f']
}

/// Says whether a sequence spells one of the five forbidden identifiers.
pub fn is_forbidden_ident(cs: &Charseq) -> (r: bool)
    ensures
        r == forbidden_ident(cs@),
{
    let n = cs.len();
    if n == 1 {
        let hit = cs.at(0) == '_';
        proof {
            if hit {
                assert(cs@ =~= seq!['_']);
            }
        }
        hit
    } else if n == 4 {
        let lower = cs.at(0) == 's' && cs.at(1) == 'e' && cs.at(2) == 'l' && cs.at(3) == 'f';
        let upper = cs.at(0) == 'S' && cs.at(1) == 'e' && cs.at(2) == 'l' && cs.at(3) == 'f';
        proof {
            if lower {
                assert(cs@ =~= seq!['s', 'e', 'l', 'f']);
            }
            if upper {
                assert(cs@ =~= seq!['S', 'e', 'l', 'f']);
            }
        }
        lower || upper
    } else if n == 5 {
        let crate_hit = cs.at(0) == 'c' && cs.at(1) == 'r' && cs.at(2) == 'a' && cs.at(3) == 't'
            && cs.at(4) == 'e';
        let super_hit = cs.at(0) == 's' && cs.at(1) == 'u' && cs.at(2) == 'p' && cs.at(3) == 'e'
            && cs.at(4) == 'r';
        proof {
            if crate_hit {
                assert(cs@ =~= seq!['c', 'r', 'a', 't', 'e']);
            }
            if super_hit {
                assert(cs@ =~= seq!['s', 'u', 'p', 'e', 'r']);
            }
        }
        crate_hit || super_hit
    } else {
        false
    }
}

/// Says whether a suffix is exactly the single character `_`.
pub fn is_underscore_suffix(cs: &Charseq) -> (r: bool)
    ensures
        r == (cs@ == seq!['_']),
{
    if cs.len() == 1 && cs.at(0) == '_' {
        proof {
            assert(cs@ =~= seq!['_']);
        }
        true
    } else {
        proof {
            assert(cs@ != seq!['_']);
        }
        false
    }
}

/// Returns the UTF-8 encoding of one character.
pub fn utf8_encode_char(c: char) -> (r: Vec<u8>)
    ensures
        r@ == encode_scalar(c as u32),
{
    let v = c as u32;
    let mut out: Vec<u8> = Vec::new();
    if v <= 0x7F {
        out.push((v & 0x7F) as u8);
    } else if v <= 0x7FF {
        out.push(0xC0u8 | ((v >> 6) & 0x1F) as u8);
        out.push(0x80u8 | (v & 0x3F) as u8);
    } else if v <= 0xFFFF {
        out.push(0xE0u8 | ((v >> 12) & 0x0F) as u8);
        out.push(0x80u8 | ((v >> 6) & 0x3F) as u8);
        out.push(0x80u8 | (v & 0x3F) as u8);
    } else {
        out.push(0xF0u8 | ((v >> 18) & 0x7) as u8);
        out.push(0x80u8 | ((v >> 12) & 0x3F) as u8);
        out.push(0x80u8 | ((v >> 6) & 0x3F) as u8);
        out.push(0x80u8 | (v & 0x3F) as u8);
    }
    proof {
        assert(out@ =~= encode_scalar(c as u32));
    }
    out
}

} // verus!

verus! {

// --- aggregating literal components -----------------------------------------

/// The characters represented by the components from index `i` on, for a
/// string literal, or nothing where a component is rejected there.
pub open spec fn string_chars_from(cs: Seq<LiteralComponent>, i: int) -> Option<Seq<char>>
    decreases cs.len() - i,
{
    if i < 0 || i >= cs.len() {
        Some(Seq::<char>::empty())
    } else {
        let comp = cs[i];
        if comp == (LiteralComponent::NonEscape { represented_character: '\u{000d}' }) {
            None
        } else {
            match repr_char_of(comp) {
                Some(c) => match string_chars_from(cs, i + 1) {
                    Some(rest) => Some(seq![c] + rest),
                    None => None,
                },
                None => None,
            }
        }
    }
}

/// The bytes represented by the components from index `i` on, for a byte
/// string literal, or nothing where a component is rejected there.
pub open spec fn byte_string_bytes_from(cs: Seq<LiteralComponent>, i: int) -> Option<Seq<u8>>
    decreases cs.len() - i,
{
    if i < 0 || i >= cs.len() {
        Some(Seq::<u8>::empty())
    } else {
        let comp = cs[i];
        if comp == (LiteralComponent::NonEscape { represented_character: '\u{000d}' }) {
            None
        } else if comp is UnicodeEscape {
            None
        } else {
            match repr_byte_of(comp) {
                Some(b) => match byte_string_bytes_from(cs, i + 1) {
                    Some(rest) => Some(seq![b] + rest),
                    None => None,
                },
                None => None,
            }
        }
    }
}

/// The bytes contributed by the components from index `i` on, for a C string
/// literal: UTF-8 for characters, raw bytes for hexadecimal escapes.
pub open spec fn c_string_bytes_from(cs: Seq<LiteralComponent>, i: int) -> Option<Seq<u8>>
    decreases cs.len() - i,
{
    if i < 0 || i >= cs.len() {
        Some(Seq::<u8>::empty())
    } else {
        let comp = cs[i];
        if comp == (LiteralComponent::NonEscape { represented_character: '\u{000d}' }) {
            None
        } else {
            let head: Option<Seq<u8>> = match comp {
                LiteralComponent::NonEscape { represented_character } => Some(
                    encode_scalar(represented_character as u32),
                ),
                LiteralComponent::SimpleEscape { represented_character } => Some(
                    encode_scalar(represented_character as u32),
                ),
                LiteralComponent::UnicodeEscape { numeric_value } => if is_scalar(numeric_value) {
                    Some(encode_scalar(numeric_value))
                } else {
                    None
                },
                LiteralComponent::HexadecimalEscape { represented_byte } => Some(
                    seq![represented_byte],
                ),
                LiteralComponent::StringContinuationEscape => None,
            };
            match head {
                Some(h) => match c_string_bytes_from(cs, i + 1) {
                    Some(rest) => Some(h + rest),
                    None => None,
                },
                None => None,
            }
        }
    }
}

/// Collects the represented characters of string-literal components.
fn collect_string_chars(v: &Vec<LiteralComponent>, i: usize) -> (r: Option<Vec<char>>)
    requires
        i <= v@.len(),
    ensures
        match r {
            Some(out) => string_chars_from(v@, i as int) == Some(out@),
            None => string_chars_from(v@, i as int) is None,
        },
    decreases v@.len() - i,
{
    if i >= v.len() {
        Some(Vec::new())
    } else {
        let comp = v[i];
        if comp == (LiteralComponent::NonEscape { represented_character: '\u{000d}' }) {
            None
        } else {
            match comp.represented_character() {
                Ok(Some(c)) => {
                    match collect_string_chars(v, i + 1) {
                        Some(mut rest) => {
                            let ghost pre = rest@;
                            rest.insert(0, c);
                            proof {
                                assert(rest@ =~= seq![c] + pre);
                            }
                            Some(rest)
                        },
                        None => None,
                    }
                },
                _ => None,
            }
        }
    }
}

/// Collects the represented bytes of byte-string-literal components.
fn collect_byte_string_bytes(v: &Vec<LiteralComponent>, i: usize) -> (r: Option<Vec<u8>>)
    requires
        i <= v@.len(),
    ensures
        match r {
            Some(out) => byte_string_bytes_from(v@, i as int) == Some(out@),
            None => byte_string_bytes_from(v@, i as int) is None,
        },
    decreases v@.len() - i,
{
    if i >= v.len() {
        Some(Vec::new())
    } else {
        let comp = v[i];
        if comp == (LiteralComponent::NonEscape { represented_character: '\u{000d}' }) {
            None
        } else if matches!(comp, LiteralComponent::UnicodeEscape { .. }) {
            None
        } else {
            match comp.represented_byte() {
                Ok(Some(b)) => {
                    match collect_byte_string_bytes(v, i + 1) {
                        Some(mut rest) => {
                            let ghost pre = rest@;
                            rest.insert(0, b);
                            proof {
                                assert(rest@ =~= seq![b] + pre);
                            }
                            Some(rest)
                        },
                        None => None,
                    }
                },
                _ => None,
            }
        }
    }
}

/// Collects the bytes contributed by C-string-literal components.
fn collect_c_string_bytes(v: &Vec<LiteralComponent>, i: usize) -> (r: Option<Vec<u8>>)
    requires
        i <= v@.len(),
    ensures
        match r {
            Some(out) => c_string_bytes_from(v@, i as int) == Some(out@),
            None => c_string_bytes_from(v@, i as int) is None,
        },
    decreases v@.len() - i,
{
    if i >= v.len() {
        Some(Vec::new())
    } else {
        let comp = v[i];
        if comp == (LiteralComponent::NonEscape { represented_character: '\u{000d}' }) {
            None
        } else {
            let head: Option<Vec<u8>> = match comp {
                LiteralComponent::NonEscape { represented_character } => Some(
                    utf8_encode_char(represented_character),
                ),
                LiteralComponent::SimpleEscape { represented_character } => Some(
                    utf8_encode_char(represented_character),
                ),
                LiteralComponent::UnicodeEscape { numeric_value } => {
                    match crate::unicode::char_from_u32(numeric_value) {
                        Some(c) => {
                            proof {
                                assert(c as u32 == numeric_value);
                            }
                            Some(utf8_encode_char(c))
                        },
                        None => None,
                    }
                },
                LiteralComponent::HexadecimalEscape { represented_byte } => {
                    let mut one: Vec<u8> = Vec::new();
                    one.push(represented_byte);
                    proof {
                        assert(one@ =~= seq![represented_byte]);
                    }
                    Some(one)
                },
                LiteralComponent::StringContinuationEscape => None,
            };
            match head {
                Some(h) => {
                    match collect_c_string_bytes(v, i + 1) {
                        Some(rest) => {
                            let mut out = h;
                            let ghost preh = out@;
                            let mut j: usize = 0;
                            let ghost restv = rest@;
                            while j < rest.len()
                                invariant
                                    j <= restv.len(),
                                    rest@ == restv,
                                    out@ == preh + restv.subrange(0, j as int),
                                decreases restv.len() - j,
                            {
                                out.push(rest[j]);
                                j = j + 1;
                            }
                            proof {
                                assert(out@ =~= preh + restv);
                            }
                            Some(out)
                        },
                        None => None,
                    }
                },
                None => None,
            }
        }
    }
}

/// Says whether a byte sequence contains a zero byte.
fn contains_nul(v: &Vec<u8>) -> (r: bool)
    ensures
        r == v@.contains(0u8),
{
    let mut i: usize = 0;
    while i < v.len()
        invariant
            i <= v@.len(),
            forall|j: int| 0 <= j < i ==> v@[j] != 0u8,
        decreases v@.len() - i,
    {
        if v[i] == 0 {
            assert(v@.contains(0u8));
            return true;
        }
        i = i + 1;
    }
    false
}

} // verus!

verus! {

// --- per-kind outcomes -------------------------------------------------------

/// The style and body of a line comment, read off its content (the text
/// after the leading `//`).
pub open spec fn line_comment_style(content: Seq<char>) -> (CommentStyle, Seq<char>) {
    if content.len() >= 2 && content[0] == '/' && content[1] == '/' {
        (CommentStyle::NonDoc, Seq::<char>::empty())
    } else if content.len() >= 1 && content[0] == '/' {
        (CommentStyle::OuterDoc, content.skip(1))
    } else if content.len() >= 1 && content[0] == '!' {
        (CommentStyle::InnerDoc, content.skip(1))
    } else {
        (CommentStyle::NonDoc, Seq::<char>::empty())
    }
}

/// The style and body of a block comment, read off its content (the text
/// between `/*` and `*/`).  Content of exactly `**`, or a lone `*`, is not a
/// doc-comment.
pub open spec fn block_comment_style(content: Seq<char>) -> (CommentStyle, Seq<char>) {
    if content.len() >= 2 && content[0] == '*' && content[1] == '*' {
        (CommentStyle::NonDoc, Seq::<char>::empty())
    } else if content.len() >= 2 && content[0] == '*' {
        (CommentStyle::OuterDoc, content.skip(1))
    } else if content.len() >= 1 && content[0] == '!' {
        (CommentStyle::InnerDoc, content.skip(1))
    } else {
        (CommentStyle::NonDoc, Seq::<char>::empty())
    }
}

/// Reprocessing a line comment: reject a doc-comment containing a bare CR.
pub open spec fn line_comment_outcome(content: Seq<char>) -> ReprocessOutcome {
    let (style, body) = line_comment_style(content);
    if style != CommentStyle::NonDoc && content.contains('\u{000d}') {
        ReprocessOutcome::Reject
    } else {
        ReprocessOutcome::Token(FineTokenDataV::LineComment { style, body })
    }
}

/// Reprocessing a block comment: reject a doc-comment containing a bare CR.
pub open spec fn block_comment_outcome(content: Seq<char>) -> ReprocessOutcome {
    let (style, body) = block_comment_style(content);
    if style != CommentStyle::NonDoc && content.contains('\u{000d}') {
        ReprocessOutcome::Reject
    } else {
        ReprocessOutcome::Token(FineTokenDataV::BlockComment { style, body })
    }
}

/// Reprocessing a character literal's content and suffix.
pub open spec fn character_literal_outcome(content: Seq<char>, suffix: Seq<char>) ->
    ReprocessOutcome {
    match single_escape_interp(content) {
        None => ReprocessOutcome::Reject,
        Some(comp) => match repr_char_of(comp) {
            None => ReprocessOutcome::Reject,
            Some(c) => if comp is NonEscape && (c == '\u{000a}' || c == '\u{000d}' || c
                == '\u{0009}') {
                ReprocessOutcome::Reject
            } else {
                ReprocessOutcome::Token(
                    FineTokenDataV::CharacterLiteral { represented_character: c, suffix },
                )
            },
        },
    }
}

/// Reprocessing a byte literal's content and suffix.
pub open spec fn byte_literal_outcome(content: Seq<char>, suffix: Seq<char>) -> ReprocessOutcome {
    match single_escape_interp(content) {
        None => ReprocessOutcome::Reject,
        Some(comp) => if comp is UnicodeEscape {
            ReprocessOutcome::Reject
        } else if comp matches LiteralComponent::NonEscape { represented_character } && (
        represented_character == '\u{000a}' || represented_character == '\u{000d}'
            || represented_character == '\u{0009}') {
            ReprocessOutcome::Reject
        } else {
            match repr_byte_of(comp) {
                None => ReprocessOutcome::Reject,
                Some(b) => ReprocessOutcome::Token(
                    FineTokenDataV::ByteLiteral { represented_byte: b, suffix },
                ),
            }
        },
    }
}

/// Reprocessing a string literal's content and suffix.
pub open spec fn string_literal_outcome(content: Seq<char>, suffix: Seq<char>) ->
    ReprocessOutcome {
    match escape_interp(content) {
        None => ReprocessOutcome::Reject,
        Some(cs) => match string_chars_from(cs, 0) {
            None => ReprocessOutcome::Reject,
            Some(chars) => ReprocessOutcome::Token(
                FineTokenDataV::StringLiteral { represented_string: chars, suffix },
            ),
        },
    }
}

/// Reprocessing a byte-string literal's content and suffix.
pub open spec fn byte_string_literal_outcome(content: Seq<char>, suffix: Seq<char>) ->
    ReprocessOutcome {
    match escape_interp(content) {
        None => ReprocessOutcome::Reject,
        Some(cs) => match byte_string_bytes_from(cs, 0) {
            None => ReprocessOutcome::Reject,
            Some(bytes) => ReprocessOutcome::Token(
                FineTokenDataV::ByteStringLiteral { represented_bytes: bytes, suffix },
            ),
        },
    }
}

/// Reprocessing a C-string literal's content and suffix.
pub open spec fn c_string_literal_outcome(content: Seq<char>, suffix: Seq<char>) ->
    ReprocessOutcome {
    match escape_interp(content) {
        None => ReprocessOutcome::Reject,
        Some(cs) => match c_string_bytes_from(cs, 0) {
            None => ReprocessOutcome::Reject,
            Some(bytes) => if bytes.contains(0u8) {
                ReprocessOutcome::Reject
            } else {
                ReprocessOutcome::Token(
                    FineTokenDataV::CStringLiteral { represented_bytes: bytes, suffix },
                )
            },
        },
    }
}

/// Reprocessing a raw string literal's content and suffix.
pub open spec fn raw_string_literal_outcome(content: Seq<char>, suffix: Seq<char>) ->
    ReprocessOutcome {
    if content.contains('\u{000d}') {
        ReprocessOutcome::Reject
    } else {
        ReprocessOutcome::Token(
            FineTokenDataV::RawStringLiteral { represented_string: content, suffix },
        )
    }
}

/// Reprocessing a raw byte-string literal's content and suffix.
pub open spec fn raw_byte_string_literal_outcome(content: Seq<char>, suffix: Seq<char>) ->
    ReprocessOutcome {
    if content.contains('\u{000d}') || exists|k: int|
        0 <= k < content.len() && #[trigger] (content[k] as u32) >= 128 {
        ReprocessOutcome::Reject
    } else {
        ReprocessOutcome::Token(
            FineTokenDataV::RawByteStringLiteral {
                represented_bytes: Seq::new(content.len(), |k: int| content[k] as u8),
                suffix,
            },
        )
    }
}

/// Reprocessing a raw C-string literal's content and suffix.
pub open spec fn raw_c_string_literal_outcome(content: Seq<char>, suffix: Seq<char>) ->
    ReprocessOutcome {
    if content.contains('\u{000d}') {
        ReprocessOutcome::Reject
    } else {
        let bytes = vstd::utf8::encode_utf8(content);
        if bytes.contains(0u8) {
            ReprocessOutcome::Reject
        } else {
            ReprocessOutcome::Token(
                FineTokenDataV::RawCStringLiteral { represented_bytes: bytes, suffix },
            )
        }
    }
}

/// Whether every character of a digit sequence is an underscore (also true
/// of an empty sequence): such a literal has no digits.
pub open spec fn all_underscores(s: Seq<char>) -> bool {
    forall|k: int| 0 <= k < s.len() ==> s[k] == '_'
}

/// Whether every character is an underscore or a digit below the given
/// bound.
pub open spec fn digits_below(s: Seq<char>, bound: u32) -> bool {
    forall|k: int| 0 <= k < s.len() ==> s[k] == '_' || (0x30 <= #[trigger] (s[k] as u32) < bound)
}

/// Reprocessing an integer literal: there must be at least one digit, and
/// binary and octal digits must be in range.
pub open spec fn integer_literal_outcome(
    base: NumericBase,
    digits: Seq<char>,
    suffix: Seq<char>,
) -> ReprocessOutcome {
    if all_underscores(digits) {
        ReprocessOutcome::Reject
    } else if base == NumericBase::Binary && !digits_below(digits, 0x32) {
        ReprocessOutcome::Reject
    } else if base == NumericBase::Octal && !digits_below(digits, 0x38) {
        ReprocessOutcome::Reject
    } else {
        ReprocessOutcome::Token(FineTokenDataV::IntegerLiteral { base, digits, suffix })
    }
}

/// An accepted identifier's represented form is already normalised:
/// normalising it again changes nothing.
pub open spec fn ident_nfc_fixed(d: FineTokenDataV) -> bool {
    match d {
        FineTokenDataV::Ident { represented_ident } => nfc_of(represented_ident)
            == represented_ident,
        FineTokenDataV::RawIdent { represented_ident } => nfc_of(represented_ident)
            == represented_ident,
        _ => true,
    }
}

/// What reprocessing yields for each pretoken value.
pub open spec fn reprocess_spec(d: PretokenDataV) -> ReprocessOutcome {
    match d {
        PretokenDataV::Reserved => ReprocessOutcome::Reject,
        PretokenDataV::Whitespace => ReprocessOutcome::Token(FineTokenDataV::Whitespace),
        PretokenDataV::LineComment { comment_content } => line_comment_outcome(comment_content),
        PretokenDataV::BlockComment { comment_content } => block_comment_outcome(comment_content),
        PretokenDataV::Punctuation { mark } => ReprocessOutcome::Token(
            FineTokenDataV::Punctuation { mark },
        ),
        PretokenDataV::Ident { identifier } => ReprocessOutcome::Token(
            FineTokenDataV::Ident { represented_ident: nfc_of(identifier) },
        ),
        PretokenDataV::RawIdent { identifier } => {
            if forbidden_ident(nfc_of(identifier)) {
                ReprocessOutcome::Reject
            } else {
                ReprocessOutcome::Token(
                    FineTokenDataV::RawIdent { represented_ident: nfc_of(identifier) },
                )
            }
        },
        PretokenDataV::LifetimeOrLabel { name } => ReprocessOutcome::Token(
            FineTokenDataV::LifetimeOrLabel { name },
        ),
        PretokenDataV::RawLifetimeOrLabel { name } => {
            if forbidden_ident(name) {
                ReprocessOutcome::Reject
            } else {
                ReprocessOutcome::Token(FineTokenDataV::RawLifetimeOrLabel { name })
            }
        },
        PretokenDataV::SingleQuotedLiteral { prefix, literal_content, suffix } => {
            if suffix == seq!['_'] {
                ReprocessOutcome::Reject
            } else if prefix == Seq::<char>::empty() {
                character_literal_outcome(literal_content, suffix)
            } else if prefix == seq!['b'] {
                byte_literal_outcome(literal_content, suffix)
            } else {
                ReprocessOutcome::Model
            }
        },
        PretokenDataV::DoubleQuotedLiteral { prefix, literal_content, suffix } => {
            if suffix == seq!['_'] {
                ReprocessOutcome::Reject
            } else if prefix == Seq::<char>::empty() {
                string_literal_outcome(literal_content, suffix)
            } else if prefix == seq!['b'] {
                byte_string_literal_outcome(literal_content, suffix)
            } else if prefix == seq!['c'] {
                c_string_literal_outcome(literal_content, suffix)
            } else {
                ReprocessOutcome::Model
            }
        },
        PretokenDataV::RawDoubleQuotedLiteral { prefix, literal_content, suffix } => {
            if suffix == seq!['_'] {
                ReprocessOutcome::Reject
            } else if prefix == seq!['r'] {
                raw_string_literal_outcome(literal_content, suffix)
            } else if prefix == seq!['b', 'r'] {
                raw_byte_string_literal_outcome(literal_content, suffix)
            } else if prefix == seq!['c', 'r'] {
                raw_c_string_literal_outcome(literal_content, suffix)
            } else {
                ReprocessOutcome::Model
            }
        },
        PretokenDataV::IntegerLiteral { base, digits, suffix } => integer_literal_outcome(
            base,
            digits,
            suffix,
        ),
        PretokenDataV::FloatLiteral { body, suffix } => ReprocessOutcome::Token(
            FineTokenDataV::FloatLiteral { body, suffix },
        ),
    }
}

} // verus!

verus! {

// --- executable reprocessing -------------------------------------------------

/// Validates and interprets a line comment.
pub fn lex_line_comment(comment_content: &Charseq) -> (r: Result<FineTokenData, Error>)
    ensures
        match r {
            Ok(t) => line_comment_outcome(comment_content@) == ReprocessOutcome::Token(t@),
            Err(e) => e is Rejected && line_comment_outcome(comment_content@)
                == ReprocessOutcome::Reject,
        },
{
    let n = comment_content.len();
    let style: CommentStyle = if n >= 2 && comment_content.at(0) == '/' && comment_content.at(1)
        == '/' {
        CommentStyle::NonDoc
    } else if n >= 1 && comment_content.at(0) == '/' {
        CommentStyle::OuterDoc
    } else if n >= 1 && comment_content.at(0) == '!' {
        CommentStyle::InnerDoc
    } else {
        CommentStyle::NonDoc
    };
    let body: Charseq = if matches!(style, CommentStyle::NonDoc) {
        Charseq::empty()
    } else {
        comment_content.slice(1, n)
    };
    proof {
        assert(comment_content@.subrange(1, n as int) =~= comment_content@.skip(1));
    }
    if !matches!(style, CommentStyle::NonDoc) && comment_content.contains('\u{000d}') {
        return Err(Error::Rejected("CR in line doc comment".to_owned()));
    }
    Ok(FineTokenData::LineComment { style, body })
}

/// Validates and interprets a block comment.
pub fn lex_block_comment(comment_content: &Charseq) -> (r: Result<FineTokenData, Error>)
    ensures
        match r {
            Ok(t) => block_comment_outcome(comment_content@) == ReprocessOutcome::Token(t@),
            Err(e) => e is Rejected && block_comment_outcome(comment_content@)
                == ReprocessOutcome::Reject,
        },
{
    let n = comment_content.len();
    let style: CommentStyle = if n >= 2 && comment_content.at(0) == '*' && comment_content.at(1)
        == '*' {
        CommentStyle::NonDoc
    } else if n >= 2 && comment_content.at(0) == '*' {
        CommentStyle::OuterDoc
    } else if n >= 1 && comment_content.at(0) == '!' {
        CommentStyle::InnerDoc
    } else {
        CommentStyle::NonDoc
    };
    let body: Charseq = if matches!(style, CommentStyle::NonDoc) {
        Charseq::empty()
    } else {
        comment_content.slice(1, n)
    };
    proof {
        assert(comment_content@.subrange(1, n as int) =~= comment_content@.skip(1));
    }
    if !matches!(style, CommentStyle::NonDoc) && comment_content.contains('\u{000d}') {
        return Err(Error::Rejected("CR in block doc comment".to_owned()));
    }
    Ok(FineTokenData::BlockComment { style, body })
}

/// Validates and interprets a non-raw identifier.
pub fn lex_nonraw_ident(identifier: &Charseq) -> (r: Result<FineTokenData, Error>)
    ensures
        match r {
            Ok(t) => t@ == (FineTokenDataV::Ident { represented_ident: nfc_of(identifier@) })
                && nfc_of(nfc_of(identifier@)) == nfc_of(identifier@),
            Err(_) => false,
        },
{
    Ok(FineTokenData::Ident { represented_ident: identifier.nfc() })
}

/// Validates and interprets a raw identifier.
pub fn lex_raw_ident(identifier: &Charseq) -> (r: Result<FineTokenData, Error>)
    ensures
        match r {
            Ok(t) => !forbidden_ident(nfc_of(identifier@)) && t@ == (FineTokenDataV::RawIdent {
                represented_ident: nfc_of(identifier@),
            }) && nfc_of(nfc_of(identifier@)) == nfc_of(identifier@),
            Err(e) => e is Rejected && forbidden_ident(nfc_of(identifier@)),
        },
{
    let represented_ident = identifier.nfc();
    if is_forbidden_ident(&represented_ident) {
        Err(Error::Rejected("forbidden raw identifier".to_owned()))
    } else {
        Ok(FineTokenData::RawIdent { represented_ident })
    }
}

/// Validates and interprets a raw lifetime or label.
pub fn lex_raw_lifetime_or_label(name: &Charseq) -> (r: Result<FineTokenData, Error>)
    ensures
        match r {
            Ok(t) => !forbidden_ident(name@) && t@ == (FineTokenDataV::RawLifetimeOrLabel {
                name: name@,
            }),
            Err(e) => e is Rejected && forbidden_ident(name@),
        },
{
    if is_forbidden_ident(name) {
        Err(Error::Rejected("forbidden raw lifetime or label".to_owned()))
    } else {
        Ok(FineTokenData::RawLifetimeOrLabel { name: name.clone() })
    }
}

/// Validates and interprets a single-quoted (character or byte) literal.
pub fn lex_single_quote_literal(prefix: &Charseq, literal_content: &Charseq, suffix: &Charseq) -> (r:
    Result<FineTokenData, Error>)
    requires
        literal_content@.len() <= MAX_INPUT_LENGTH,
    ensures
        ({
            let d = PretokenDataV::SingleQuotedLiteral {
                prefix: prefix@,
                literal_content: literal_content@,
                suffix: suffix@,
            };
            match r {
                Ok(t) => reprocess_spec(d) == ReprocessOutcome::Token(t@),
                Err(Error::Rejected(_)) => reprocess_spec(d) == ReprocessOutcome::Reject,
                Err(Error::ModelError(_)) => reprocess_spec(d) == ReprocessOutcome::Model,
            }
        }),
{
    if is_underscore_suffix(suffix) {
        return Err(Error::Rejected("underscore literal suffix".to_owned()));
    }
    if prefix.is_empty() {
        proof {
            assert(prefix@ =~= Seq::<char>::empty());
        }
        match try_single_escape_interpretation(literal_content) {
            MaybeInterpretation::HasNoInterpretation => Err(
                Error::Rejected("no single-escape interpretation".to_owned()),
            ),
            MaybeInterpretation::HasInterpretation(comp) => {
                match comp.represented_character() {
                    Ok(Some(c)) => {
                        if matches!(comp, LiteralComponent::NonEscape { .. }) && (c == '\u{000a}'
                            || c == '\u{000d}' || c == '\u{0009}') {
                            Err(Error::Rejected("escape-only char".to_owned()))
                        } else {
                            Ok(
                                FineTokenData::CharacterLiteral {
                                    represented_character: c,
                                    suffix: suffix.clone(),
                                },
                            )
                        }
                    },
                    _ => Err(Error::Rejected("no represented character".to_owned())),
                }
            },
        }
    } else if prefix.len() == 1 && prefix.at(0) == 'b' {
        proof {
            assert(prefix@ =~= seq!['b']);
            assert(prefix@ != Seq::<char>::empty());
        }
        match try_single_escape_interpretation(literal_content) {
            MaybeInterpretation::HasNoInterpretation => Err(
                Error::Rejected("no single-escape interpretation".to_owned()),
            ),
            MaybeInterpretation::HasInterpretation(comp) => {
                if matches!(comp, LiteralComponent::UnicodeEscape { .. }) {
                    return Err(Error::Rejected("unicode escape in byte literal".to_owned()));
                }
                if let LiteralComponent::NonEscape { represented_character } = comp {
                    if represented_character == '\u{000a}' || represented_character == '\u{000d}'
                        || represented_character == '\u{0009}' {
                        return Err(Error::Rejected("escape-only char".to_owned()));
                    }
                }
                match comp.represented_byte() {
                    Ok(Some(b)) => Ok(
                        FineTokenData::ByteLiteral {
                            represented_byte: b,
                            suffix: suffix.clone(),
                        },
                    ),
                    _ => Err(Error::Rejected("no represented byte".to_owned())),
                }
            },
        }
    } else {
        proof {
            assert(prefix@ != Seq::<char>::empty());
            assert(prefix@ != seq!['b']);
        }
        Err(Error::ModelError("impossible prefix".to_owned()))
    }
}

/// Validates and interprets a non-raw double-quoted (string, byte-string, or
/// C-string) literal.
pub fn lex_nonraw_double_quote_literal(
    prefix: &Charseq,
    literal_content: &Charseq,
    suffix: &Charseq,
) -> (r: Result<FineTokenData, Error>)
    requires
        literal_content@.len() <= MAX_INPUT_LENGTH,
    ensures
        ({
            let d = PretokenDataV::DoubleQuotedLiteral {
                prefix: prefix@,
                literal_content: literal_content@,
                suffix: suffix@,
            };
            match r {
                Ok(t) => reprocess_spec(d) == ReprocessOutcome::Token(t@),
                Err(Error::Rejected(_)) => reprocess_spec(d) == ReprocessOutcome::Reject,
                Err(Error::ModelError(_)) => reprocess_spec(d) == ReprocessOutcome::Model,
            }
        }),
{
    if is_underscore_suffix(suffix) {
        return Err(Error::Rejected("underscore literal suffix".to_owned()));
    }
    let is_b = prefix.len() == 1 && prefix.at(0) == 'b';
    let is_c = prefix.len() == 1 && prefix.at(0) == 'c';
    proof {
        if prefix@.len() == 0 {
            assert(prefix@ =~= Seq::<char>::empty());
        }
        if is_b {
            assert(prefix@ =~= seq!['b']);
        }
        if is_c {
            assert(prefix@ =~= seq!['c']);
        }
        assert(prefix@ == seq!['b'] ==> is_b);
        assert(prefix@ == seq!['c'] ==> is_c);
    }
    if !(prefix.is_empty() || is_b || is_c) {
        return Err(Error::ModelError("impossible prefix".to_owned()));
    }
    match try_escape_interpretation(literal_content) {
        MaybeInterpretation::HasNoInterpretation => Err(
            Error::Rejected("no escape interpretation".to_owned()),
        ),
        MaybeInterpretation::HasInterpretation(components) => {
            if prefix.is_empty() {
                match collect_string_chars(&components, 0) {
                    Some(chars) => Ok(
                        FineTokenData::StringLiteral {
                            represented_string: Charseq::new(chars),
                            suffix: suffix.clone(),
                        },
                    ),
                    None => Err(Error::Rejected("bad string literal component".to_owned())),
                }
            } else if is_b {
                match collect_byte_string_bytes(&components, 0) {
                    Some(bytes) => Ok(
                        FineTokenData::ByteStringLiteral {
                            represented_bytes: bytes,
                            suffix: suffix.clone(),
                        },
                    ),
                    None => Err(Error::Rejected("bad byte string literal component".to_owned())),
                }
            } else {
                match collect_c_string_bytes(&components, 0) {
                    Some(bytes) => {
                        if contains_nul(&bytes) {
                            Err(Error::Rejected("NUL in C string literal".to_owned()))
                        } else {
                            Ok(
                                FineTokenData::CStringLiteral {
                                    represented_bytes: bytes,
                                    suffix: suffix.clone(),
                                },
                            )
                        }
                    },
                    None => Err(Error::Rejected("bad C string literal component".to_owned())),
                }
            }
        },
    }
}

} // verus!

verus! {

/// Appending a character appends its encoding.
proof fn lemma_encode_utf8_push(s: Seq<char>, c: char)
    ensures
        vstd::utf8::encode_utf8(s.push(c)) == vstd::utf8::encode_utf8(s) + encode_scalar(
            c as u32,
        ),
    decreases s.len(),
{
    if s.len() == 0 {
        assert(s.push(c) =~= seq![c]);
        assert(seq![c].drop_first() =~= Seq::<char>::empty());
        assert(vstd::utf8::encode_utf8(s.push(c)) =~= vstd::utf8::encode_utf8(s) + encode_scalar(
            c as u32,
        ));
    } else {
        lemma_encode_utf8_push(s.drop_first(), c);
        assert(s.push(c).drop_first() =~= s.drop_first().push(c));
        assert(s.push(c)[0] == s[0]);
        assert(s.push(c).len() > 0);
        assert(vstd::utf8::encode_utf8(s.push(c)) == encode_scalar(
            s.push(c)[0] as u32,
        ) + vstd::utf8::encode_utf8(s.push(c).drop_first()));
        assert(vstd::utf8::encode_utf8(s) == encode_scalar(s[0] as u32) + vstd::utf8::encode_utf8(
            s.drop_first(),
        ));
        assert(vstd::utf8::encode_utf8(s.push(c)) =~= vstd::utf8::encode_utf8(s) + encode_scalar(
            c as u32,
        ));
    }
}

/// Validates and interprets a raw double-quoted (string, byte-string, or
/// C-string) literal.
#[verifier::loop_isolation(false)]
pub fn lex_raw_double_quote_literal(
    prefix: &Charseq,
    literal_content: &Charseq,
    suffix: &Charseq,
) -> (r: Result<FineTokenData, Error>)
    ensures
        ({
            let d = PretokenDataV::RawDoubleQuotedLiteral {
                prefix: prefix@,
                literal_content: literal_content@,
                suffix: suffix@,
            };
            match r {
                Ok(t) => reprocess_spec(d) == ReprocessOutcome::Token(t@),
                Err(Error::Rejected(_)) => reprocess_spec(d) == ReprocessOutcome::Reject,
                Err(Error::ModelError(_)) => reprocess_spec(d) == ReprocessOutcome::Model,
            }
        }),
{
    if is_underscore_suffix(suffix) {
        return Err(Error::Rejected("underscore literal suffix".to_owned()));
    }
    let is_r = prefix.len() == 1 && prefix.at(0) == 'r';
    let is_br = prefix.len() == 2 && prefix.at(0) == 'b' && prefix.at(1) == 'r';
    let is_cr = prefix.len() == 2 && prefix.at(0) == 'c' && prefix.at(1) == 'r';
    proof {
        if is_r {
            assert(prefix@ =~= seq!['r']);
        }
        if is_br {
            assert(prefix@ =~= seq!['b', 'r']);
        }
        if is_cr {
            assert(prefix@ =~= seq!['c', 'r']);
        }
        assert(prefix@ == seq!['r'] ==> is_r);
        assert(prefix@ == seq!['b', 'r'] ==> is_br);
        assert(prefix@ == seq!['c', 'r'] ==> is_cr);
    }
    if is_r {
        if literal_content.contains('\u{000d}') {
            return Err(Error::Rejected("CR in raw string literal".to_owned()));
        }
        Ok(
            FineTokenData::RawStringLiteral {
                represented_string: literal_content.clone(),
                suffix: suffix.clone(),
            },
        )
    } else if is_br {
        let n = literal_content.len();
        let mut bytes: Vec<u8> = Vec::new();
        let mut k: usize = 0;
        while k < n
            invariant
                k <= n == literal_content@.len(),
                forall|j: int| 0 <= j < k ==> literal_content@[j] != '\u{000d}',
                forall|j: int| 0 <= j < k ==> #[trigger] (literal_content@[j] as u32) < 128,
                bytes@ =~= Seq::new(k as nat, |j: int| literal_content@[j] as u8),
            decreases n - k,
        {
            let c = literal_content.at(k);
            if c == '\u{000d}' {
                proof {
                    assert(literal_content@.contains('\u{000d}'));
                }
                return Err(Error::Rejected("CR in raw byte string literal".to_owned()));
            }
            let u = c as u32;
            if u >= 128 {
                proof {
                    assert((literal_content@[k as int] as u32) >= 128);
                }
                return Err(
                    Error::Rejected("non-ASCII character in raw byte string literal".to_owned()),
                );
            }
            bytes.push(u as u8);
            k = k + 1;
        }
        proof {
            assert(!literal_content@.contains('\u{000d}'));
            assert(bytes@ =~= Seq::new(
                literal_content@.len(),
                |j: int| literal_content@[j] as u8,
            ));
        }
        Ok(FineTokenData::RawByteStringLiteral { represented_bytes: bytes, suffix: suffix.clone() })
    } else if is_cr {
        if literal_content.contains('\u{000d}') {
            return Err(Error::Rejected("CR in raw C string literal".to_owned()));
        }
        let n = literal_content.len();
        let mut bytes: Vec<u8> = Vec::new();
        let mut k: usize = 0;
        while k < n
            invariant
                k <= n == literal_content@.len(),
                bytes@ == vstd::utf8::encode_utf8(literal_content@.subrange(0, k as int)),
            decreases n - k,
        {
            let c = literal_content.at(k);
            let enc = utf8_encode_char(c);
            let ghost pre = bytes@;
            let mut j: usize = 0;
            while j < enc.len()
                invariant
                    j <= enc@.len(),
                    bytes@ == pre + enc@.subrange(0, j as int),
                decreases enc@.len() - j,
            {
                bytes.push(enc[j]);
                j = j + 1;
            }
            proof {
                assert(bytes@ =~= pre + enc@);
                lemma_encode_utf8_push(literal_content@.subrange(0, k as int), c);
                assert(literal_content@.subrange(0, k as int).push(c) =~= literal_content@.subrange(
                    0,
                    k + 1,
                ));
            }
            k = k + 1;
        }
        proof {
            assert(literal_content@.subrange(0, n as int) =~= literal_content@);
        }
        if contains_nul(&bytes) {
            return Err(Error::Rejected("NUL in raw C string literal".to_owned()));
        }
        Ok(FineTokenData::RawCStringLiteral { represented_bytes: bytes, suffix: suffix.clone() })
    } else {
        proof {
            assert(prefix@ != seq!['r'] && prefix@ != seq!['b', 'r'] && prefix@ != seq!['c', 'r']);
        }
        Err(Error::ModelError("impossible prefix".to_owned()))
    }
}

/// Validates and interprets an integer literal.
pub fn lex_integer_literal(base: NumericBase, digits: &Charseq, suffix: &Charseq) -> (r: Result<
    FineTokenData,
    Error,
>)
    ensures
        match r {
            Ok(t) => integer_literal_outcome(base, digits@, suffix@) == ReprocessOutcome::Token(
                t@,
            ),
            Err(e) => e is Rejected && integer_literal_outcome(base, digits@, suffix@)
                == ReprocessOutcome::Reject,
        },
{
    let n = digits.len();
    let mut only_underscores = true;
    let mut k: usize = 0;
    while k < n
        invariant
            k <= n == digits@.len(),
            only_underscores == (forall|j: int| 0 <= j < k ==> digits@[j] == '_'),
        decreases n - k,
    {
        if digits.at(k) != '_' {
            only_underscores = false;
        }
        k = k + 1;
    }
    if only_underscores {
        return Err(Error::Rejected("no digits".to_owned()));
    }
    let bound: u32 = match base {
        NumericBase::Binary => 0x32,
        NumericBase::Octal => 0x38,
        _ => 0,
    };
    if matches!(base, NumericBase::Binary | NumericBase::Octal) {
        let mut ok = true;
        let mut k2: usize = 0;
        while k2 < n
            invariant
                k2 <= n == digits@.len(),
                ok == (forall|j: int|
                    0 <= j < k2 ==> digits@[j] == '_' || (0x30 <= #[trigger] (digits@[j] as u32)
                        < bound)),
            decreases n - k2,
        {
            let c = digits.at(k2);
            let u = c as u32;
            if !(c == '_' || (0x30 <= u && u < bound)) {
                ok = false;
            }
            k2 = k2 + 1;
        }
        if !ok {
            return Err(Error::Rejected("invalid digit".to_owned()));
        }
    }
    Ok(
        FineTokenData::IntegerLiteral {
            base,
            digits: digits.clone(),
            suffix: suffix.clone(),
        },
    )
}

/// Validates and interprets a floating-point literal.
pub fn lex_float_literal(body: &Charseq, suffix: &Charseq) -> (r: Result<FineTokenData, Error>)
    ensures
        match r {
            Ok(t) => t@ == (FineTokenDataV::FloatLiteral { body: body@, suffix: suffix@ }),
            Err(_) => false,
        },
{
    Ok(FineTokenData::FloatLiteral { body: body.clone(), suffix: suffix.clone() })
}

/// Converts a single pretoken to a single fine-grained token.
///
/// If the pretoken is accepted, returns a fine-grained token whose origin is
/// the pretoken's extent.  If it is rejected, distinguishes rejection of the
/// input from an inconsistency in the model.
pub fn reprocess(pretoken: &Pretoken) -> (r: Result<FineToken, Error>)
    requires
        crate::pretokenisation::pretoken_data_small(
            pretoken@.data,
            MAX_INPUT_LENGTH as int,
        ),
    ensures
        match r {
            Ok(t) => reprocess_spec(pretoken@.data) == ReprocessOutcome::Token(t@.data)
                && t@.origin == (crate::tokens_common::OriginV::Natural {
                extent: pretoken@.extent,
            }) && ident_nfc_fixed(t@.data),
            Err(Error::Rejected(_)) => reprocess_spec(pretoken@.data) == ReprocessOutcome::Reject,
            Err(Error::ModelError(_)) => reprocess_spec(pretoken@.data) == ReprocessOutcome::Model,
        },
{
    let token_data = match &pretoken.data {
        PretokenData::Reserved => {
            return Err(Error::Rejected("reserved form".to_owned()));
        },
        PretokenData::Whitespace => FineTokenData::Whitespace,
        PretokenData::LineComment { comment_content } => lex_line_comment(comment_content)?,
        PretokenData::BlockComment { comment_content } => lex_block_comment(comment_content)?,
        PretokenData::Punctuation { mark } => FineTokenData::Punctuation { mark: *mark },
        PretokenData::Ident { identifier } => lex_nonraw_ident(identifier)?,
        PretokenData::RawIdent { identifier } => lex_raw_ident(identifier)?,
        PretokenData::LifetimeOrLabel { name } => FineTokenData::LifetimeOrLabel {
            name: name.clone(),
        },
        PretokenData::RawLifetimeOrLabel { name } => lex_raw_lifetime_or_label(name)?,
        PretokenData::SingleQuotedLiteral { prefix, literal_content, suffix } => {
            lex_single_quote_literal(prefix, literal_content, suffix)?
        },
        PretokenData::DoubleQuotedLiteral { prefix, literal_content, suffix } => {
            lex_nonraw_double_quote_literal(prefix, literal_content, suffix)?
        },
        PretokenData::RawDoubleQuotedLiteral { prefix, literal_content, suffix } => {
            lex_raw_double_quote_literal(prefix, literal_content, suffix)?
        },
        PretokenData::IntegerLiteral { base, digits, suffix } => {
            lex_integer_literal(*base, digits, suffix)?
        },
        PretokenData::FloatLiteral { body, suffix } => lex_float_literal(body, suffix)?,
    };
    Ok(
        FineToken {
            data: token_data,
            origin: Origin::Natural { extent: pretoken.extent.clone() },
        },
    )
}

} // verus!
