//! Converts fine-grained tokens into coarse tokens: whitespace disappears,
//! spacing is recorded, and adjacent punctuation marks are glued into
//! multi-character punctuation.

use vstd::prelude::*;
use crate::char_sequences::{concat_charseqs, Charseq};
use crate::fine_tokens::{is_whitespace_spec, CommentStyle, FineToken, FineTokenData,
    FineTokenDataV};
use crate::tokens_common::{NumericBase, Origin, OriginV};
use crate::trees::{Forest, GroupKind, Tree};

verus! {

/// Whether a token is followed directly by the next token, with nothing
/// dropped between them.
#[derive(Copy, Clone, PartialEq, Eq, Structural, Debug)]
pub enum Spacing {
    /// This token is followed by whitespace, a non-doc comment, a group
    /// boundary, or the end of its group.
    Alone,
    /// There is no space between this token and the next token of its group.
    Joint,
}

/// Whether a doc-comment is an inner or outer doc-comment.  Non-doc-comments
/// have disappeared in this representation.
#[derive(Copy, Clone, PartialEq, Eq, Structural, Debug)]
pub enum DocCommentStyle {
    Inner,
    Outer,
}

/// A coarse-grained token.
pub struct CoarseToken {
    /// The token's kind and attributes.
    pub data: CoarseTokenData,
    /// Where this token came from.
    pub origin: Origin,
    /// The spacing between this token and the next in its group.
    pub spacing: Spacing,
}

/// A coarse-grained token's kind and attributes.
pub enum CoarseTokenData {
    LineComment { style: DocCommentStyle, body: Charseq },
    BlockComment { style: DocCommentStyle, body: Charseq },
    Punctuation { marks: Charseq },
    Ident { represented_ident: Charseq },
    RawIdent { represented_ident: Charseq },
    LifetimeOrLabel { name: Charseq },
    RawLifetimeOrLabel { name: Charseq },
    CharacterLiteral { represented_character: char, suffix: Charseq },
    ByteLiteral { represented_byte: u8, suffix: Charseq },
    StringLiteral { represented_string: Charseq, suffix: Charseq },
    RawStringLiteral { represented_string: Charseq, suffix: Charseq },
    ByteStringLiteral { represented_bytes: Vec<u8>, suffix: Charseq },
    RawByteStringLiteral { represented_bytes: Vec<u8>, suffix: Charseq },
    CStringLiteral { represented_bytes: Vec<u8>, suffix: Charseq },
    RawCStringLiteral { represented_bytes: Vec<u8>, suffix: Charseq },
    IntegerLiteral { base: NumericBase, digits: Charseq, suffix: Charseq },
    FloatLiteral { body: Charseq, suffix: Charseq },
}

/// The mathematical value of a [`CoarseToken`].
pub struct CoarseTokenV {
    pub data: CoarseTokenDataV,
    pub origin: OriginV,
    pub spacing: Spacing,
}

/// The mathematical value of a [`CoarseTokenData`].
pub enum CoarseTokenDataV {
    LineComment { style: DocCommentStyle, body: Seq<char> },
    BlockComment { style: DocCommentStyle, body: Seq<char> },
    Punctuation { marks: Seq<char> },
    Ident { represented_ident: Seq<char> },
    RawIdent { represented_ident: Seq<char> },
    LifetimeOrLabel { name: Seq<char> },
    RawLifetimeOrLabel { name: Seq<char> },
    CharacterLiteral { represented_character: char, suffix: Seq<char> },
    ByteLiteral { represented_byte: u8, suffix: Seq<char> },
    StringLiteral { represented_string: Seq<char>, suffix: Seq<char> },
    RawStringLiteral { represented_string: Seq<char>, suffix: Seq<char> },
    ByteStringLiteral { represented_bytes: Seq<u8>, suffix: Seq<char> },
    RawByteStringLiteral { represented_bytes: Seq<u8>, suffix: Seq<char> },
    CStringLiteral { represented_bytes: Seq<u8>, suffix: Seq<char> },
    RawCStringLiteral { represented_bytes: Seq<u8>, suffix: Seq<char> },
    IntegerLiteral { base: NumericBase, digits: Seq<char>, suffix: Seq<char> },
    FloatLiteral { body: Seq<char>, suffix: Seq<char> },
}

impl View for CoarseTokenData {
    type V = CoarseTokenDataV;

    open spec fn view(&self) -> CoarseTokenDataV {
        match self {
            CoarseTokenData::LineComment { style, body } => CoarseTokenDataV::LineComment {
                style: *style,
                body: body@,
            },
            CoarseTokenData::BlockComment { style, body } => CoarseTokenDataV::BlockComment {
                style: *style,
                body: body@,
            },
            CoarseTokenData::Punctuation { marks } => CoarseTokenDataV::Punctuation {
                marks: marks@,
            },
            CoarseTokenData::Ident { represented_ident } => CoarseTokenDataV::Ident {
                represented_ident: represented_ident@,
            },
            CoarseTokenData::RawIdent { represented_ident } => CoarseTokenDataV::RawIdent {
                represented_ident: represented_ident@,
            },
            CoarseTokenData::LifetimeOrLabel { name } => CoarseTokenDataV::LifetimeOrLabel {
                name: name@,
            },
            CoarseTokenData::RawLifetimeOrLabel { name } => CoarseTokenDataV::RawLifetimeOrLabel {
                name: name@,
            },
            CoarseTokenData::CharacterLiteral { represented_character, suffix } => {
                CoarseTokenDataV::CharacterLiteral {
                    represented_character: *represented_character,
                    suffix: suffix@,
                }
            },
            CoarseTokenData::ByteLiteral { represented_byte, suffix } => {
                CoarseTokenDataV::ByteLiteral {
                    represented_byte: *represented_byte,
                    suffix: suffix@,
                }
            },
            CoarseTokenData::StringLiteral { represented_string, suffix } => {
                CoarseTokenDataV::StringLiteral {
                    represented_string: represented_string@,
                    suffix: suffix@,
                }
            },
            CoarseTokenData::RawStringLiteral { represented_string, suffix } => {
                CoarseTokenDataV::RawStringLiteral {
                    represented_string: represented_string@,
                    suffix: suffix@,
                }
            },
            CoarseTokenData::ByteStringLiteral { represented_bytes, suffix } => {
                CoarseTokenDataV::ByteStringLiteral {
                    represented_bytes: represented_bytes@,
                    suffix: suffix@,
                }
            },
            CoarseTokenData::RawByteStringLiteral { represented_bytes, suffix } => {
                CoarseTokenDataV::RawByteStringLiteral {
                    represented_bytes: represented_bytes@,
                    suffix: suffix@,
                }
            },
            CoarseTokenData::CStringLiteral { represented_bytes, suffix } => {
                CoarseTokenDataV::CStringLiteral {
                    represented_bytes: represented_bytes@,
                    suffix: suffix@,
                }
            },
            CoarseTokenData::RawCStringLiteral { represented_bytes, suffix } => {
                CoarseTokenDataV::RawCStringLiteral {
                    represented_bytes: represented_bytes@,
                    suffix: suffix@,
                }
            },
            CoarseTokenData::IntegerLiteral { base, digits, suffix } => {
                CoarseTokenDataV::IntegerLiteral { base: *base, digits: digits@, suffix: suffix@ }
            },
            CoarseTokenData::FloatLiteral { body, suffix } => CoarseTokenDataV::FloatLiteral {
                body: body@,
                suffix: suffix@,
            },
        }
    }
}

impl View for CoarseToken {
    type V = CoarseTokenV;

    open spec fn view(&self) -> CoarseTokenV {
        CoarseTokenV { data: self.data@, origin: self.origin@, spacing: self.spacing }
    }
}

/// The mathematical value of a coarse token tree.
pub enum CoarseTreeV {
    Token(CoarseTokenV),
    Group(GroupKind, Seq<CoarseTreeV>),
}

/// The mathematical value of a coarse tree.
pub open spec fn coarse_tree_view(t: Tree<CoarseToken>) -> CoarseTreeV
    decreases t,
{
    match t {
        Tree::Token(tok) => CoarseTreeV::Token(tok@),
        Tree::Group(k, f) => CoarseTreeV::Group(k, coarse_forest_view_from(f, 0)),
    }
}

/// The mathematical values of a coarse forest's trees, from position `i` on.
pub open spec fn coarse_forest_view_from(f: Forest<CoarseToken>, i: int) -> Seq<CoarseTreeV>
    decreases f, f.contents@.len() - i,
{
    if 0 <= i < f.contents@.len() {
        seq![coarse_tree_view(f.contents@[i])] + coarse_forest_view_from(f, i + 1)
    } else {
        Seq::<CoarseTreeV>::empty()
    }
}

/// The mathematical values of a coarse forest's trees.
pub open spec fn coarse_forest_view(f: Forest<CoarseToken>) -> Seq<CoarseTreeV> {
    coarse_forest_view_from(f, 0)
}

} // verus!

verus! {

/// The coarse form of a fine token's data.  Only defined meaningfully for
/// tokens which survive whitespace elision.
pub open spec fn coarse_of_fine(d: FineTokenDataV) -> CoarseTokenDataV {
    match d {
        FineTokenDataV::LineComment { style, body } => CoarseTokenDataV::LineComment {
            style: if style == CommentStyle::InnerDoc {
                DocCommentStyle::Inner
            } else {
                DocCommentStyle::Outer
            },
            body,
        },
        FineTokenDataV::BlockComment { style, body } => CoarseTokenDataV::BlockComment {
            style: if style == CommentStyle::InnerDoc {
                DocCommentStyle::Inner
            } else {
                DocCommentStyle::Outer
            },
            body,
        },
        FineTokenDataV::Punctuation { mark } => CoarseTokenDataV::Punctuation {
            marks: seq![mark],
        },
        FineTokenDataV::Ident { represented_ident } => CoarseTokenDataV::Ident {
            represented_ident,
        },
        FineTokenDataV::RawIdent { represented_ident } => CoarseTokenDataV::RawIdent {
            represented_ident,
        },
        FineTokenDataV::LifetimeOrLabel { name } => CoarseTokenDataV::LifetimeOrLabel { name },
        FineTokenDataV::RawLifetimeOrLabel { name } => CoarseTokenDataV::RawLifetimeOrLabel {
            name,
        },
        FineTokenDataV::CharacterLiteral { represented_character, suffix } => {
            CoarseTokenDataV::CharacterLiteral { represented_character, suffix }
        },
        FineTokenDataV::ByteLiteral { represented_byte, suffix } => {
            CoarseTokenDataV::ByteLiteral { represented_byte, suffix }
        },
        FineTokenDataV::StringLiteral { represented_string, suffix } => {
            CoarseTokenDataV::StringLiteral { represented_string, suffix }
        },
        FineTokenDataV::RawStringLiteral { represented_string, suffix } => {
            CoarseTokenDataV::RawStringLiteral { represented_string, suffix }
        },
        FineTokenDataV::ByteStringLiteral { represented_bytes, suffix } => {
            CoarseTokenDataV::ByteStringLiteral { represented_bytes, suffix }
        },
        FineTokenDataV::RawByteStringLiteral { represented_bytes, suffix } => {
            CoarseTokenDataV::RawByteStringLiteral { represented_bytes, suffix }
        },
        FineTokenDataV::CStringLiteral { represented_bytes, suffix } => {
            CoarseTokenDataV::CStringLiteral { represented_bytes, suffix }
        },
        FineTokenDataV::RawCStringLiteral { represented_bytes, suffix } => {
            CoarseTokenDataV::RawCStringLiteral { represented_bytes, suffix }
        },
        FineTokenDataV::IntegerLiteral { base, digits, suffix } => {
            CoarseTokenDataV::IntegerLiteral { base, digits, suffix }
        },
        FineTokenDataV::FloatLiteral { body, suffix } => CoarseTokenDataV::FloatLiteral {
            body,
            suffix,
        },
        FineTokenDataV::Whitespace => CoarseTokenDataV::Punctuation { marks: Seq::empty() },
    }
}

/// Returns the coarse form of a fine token's data.
fn coarse_data_of(d: &FineTokenData) -> (r: CoarseTokenData)
    ensures
        r@ == coarse_of_fine(d@),
{
    match d {
        FineTokenData::LineComment { style, body } => CoarseTokenData::LineComment {
            style: if matches!(style, CommentStyle::InnerDoc) {
                DocCommentStyle::Inner
            } else {
                DocCommentStyle::Outer
            },
            body: body.clone(),
        },
        FineTokenData::BlockComment { style, body } => CoarseTokenData::BlockComment {
            style: if matches!(style, CommentStyle::InnerDoc) {
                DocCommentStyle::Inner
            } else {
                DocCommentStyle::Outer
            },
            body: body.clone(),
        },
        FineTokenData::Punctuation { mark } => {
            let mut marks: Vec<char> = Vec::new();
            marks.push(*mark);
            proof {
                assert(marks@ =~= seq![*mark]);
            }
            CoarseTokenData::Punctuation { marks: Charseq::new(marks) }
        },
        FineTokenData::Ident { represented_ident } => CoarseTokenData::Ident {
            represented_ident: represented_ident.clone(),
        },
        FineTokenData::RawIdent { represented_ident } => CoarseTokenData::RawIdent {
            represented_ident: represented_ident.clone(),
        },
        FineTokenData::LifetimeOrLabel { name } => CoarseTokenData::LifetimeOrLabel {
            name: name.clone(),
        },
        FineTokenData::RawLifetimeOrLabel { name } => CoarseTokenData::RawLifetimeOrLabel {
            name: name.clone(),
        },
        FineTokenData::CharacterLiteral { represented_character, suffix } => {
            CoarseTokenData::CharacterLiteral {
                represented_character: *represented_character,
                suffix: suffix.clone(),
            }
        },
        FineTokenData::ByteLiteral { represented_byte, suffix } => CoarseTokenData::ByteLiteral {
            represented_byte: *represented_byte,
            suffix: suffix.clone(),
        },
        FineTokenData::StringLiteral { represented_string, suffix } => {
            CoarseTokenData::StringLiteral {
                represented_string: represented_string.clone(),
                suffix: suffix.clone(),
            }
        },
        FineTokenData::RawStringLiteral { represented_string, suffix } => {
            CoarseTokenData::RawStringLiteral {
                represented_string: represented_string.clone(),
                suffix: suffix.clone(),
            }
        },
        FineTokenData::ByteStringLiteral { represented_bytes, suffix } => {
            CoarseTokenData::ByteStringLiteral {
                represented_bytes: represented_bytes.clone(),
                suffix: suffix.clone(),
            }
        },
        FineTokenData::RawByteStringLiteral { represented_bytes, suffix } => {
            CoarseTokenData::RawByteStringLiteral {
                represented_bytes: represented_bytes.clone(),
                suffix: suffix.clone(),
            }
        },
        FineTokenData::CStringLiteral { represented_bytes, suffix } => {
            CoarseTokenData::CStringLiteral {
                represented_bytes: represented_bytes.clone(),
                suffix: suffix.clone(),
            }
        },
        FineTokenData::RawCStringLiteral { represented_bytes, suffix } => {
            CoarseTokenData::RawCStringLiteral {
                represented_bytes: represented_bytes.clone(),
                suffix: suffix.clone(),
            }
        },
        FineTokenData::IntegerLiteral { base, digits, suffix } => {
            CoarseTokenData::IntegerLiteral {
                base: *base,
                digits: digits.clone(),
                suffix: suffix.clone(),
            }
        },
        FineTokenData::FloatLiteral { body, suffix } => CoarseTokenData::FloatLiteral {
            body: body.clone(),
            suffix: suffix.clone(),
        },
        FineTokenData::Whitespace => CoarseTokenData::Punctuation { marks: Charseq::empty() },
    }
}

/// The twenty-one two-character punctuation pairs that glue.
pub open spec fn pair_glues(a: char, b: char) -> bool {
    (a == '<' && b == '=') || (a == '=' && b == '=') || (a == '!' && b == '=') || (a == '>' && b
        == '=') || (a == '&' && b == '&') || (a == '|' && b == '|') || (a == '.' && b == '.') || (a
        == ':' && b == ':') || (a == '-' && b == '>') || (a == '<' && b == '-') || (a == '=' && b
        == '>') || (a == '<' && b == '<') || (a == '>' && b == '>') || (a == '+' && b == '=') || (a
        == '-' && b == '=') || (a == '*' && b == '=') || (a == '/' && b == '=') || (a == '%' && b
        == '=') || (a == '^' && b == '=') || (a == '&' && b == '=') || (a == '|' && b == '=')
}

/// Says whether two punctuation marks glue.
pub fn marks_pair_glue(a: char, b: char) -> (r: bool)
    ensures
        r == pair_glues(a, b),
{
    (a == '<' && b == '=') || (a == '=' && b == '=') || (a == '!' && b == '=') || (a == '>' && b
        == '=') || (a == '&' && b == '&') || (a == '|' && b == '|') || (a == '.' && b == '.') || (a
        == ':' && b == ':') || (a == '-' && b == '>') || (a == '<' && b == '-') || (a == '=' && b
        == '>') || (a == '<' && b == '<') || (a == '>' && b == '>') || (a == '+' && b == '=') || (a
        == '-' && b == '=') || (a == '*' && b == '=') || (a == '/' && b == '=') || (a == '%' && b
        == '=') || (a == '^' && b == '=') || (a == '&' && b == '=') || (a == '|' && b == '=')
}

/// The four three-character punctuation triples that glue.
pub open spec fn triple_glues(a: char, b: char, c: char) -> bool {
    (a == '.' && b == '.' && c == '.') || (a == '.' && b == '.' && c == '=') || (a == '<' && b
        == '<' && c == '=') || (a == '>' && b == '>' && c == '=')
}

/// Says whether three punctuation marks glue.
pub fn marks_triple_glue(a: char, b: char, c: char) -> (r: bool)
    ensures
        r == triple_glues(a, b, c),
{
    (a == '.' && b == '.' && c == '.') || (a == '.' && b == '.' && c == '=') || (a == '<' && b
        == '<' && c == '=') || (a == '>' && b == '>' && c == '=')
}

/// Merges the origin information of two glued tokens.
pub open spec fn combine_origins_spec(o1: OriginV, o2: OriginV) -> OriginV {
    match (o1, o2) {
        (OriginV::Natural { extent: e1 }, OriginV::Natural { extent: e2 }) => OriginV::Natural {
            extent: e1 + e2,
        },
        (OriginV::Natural { .. }, OriginV::Synthetic { lowered_from, .. }) => OriginV::Synthetic {
            lowered_from,
            stringified: Seq::empty(),
        },
        (OriginV::Synthetic { lowered_from, .. }, _) => OriginV::Synthetic {
            lowered_from,
            stringified: Seq::empty(),
        },
    }
}

/// Merges the origin information for two glued tokens.
pub fn combine_origins(o1: &Origin, o2: &Origin) -> (r: Origin)
    ensures
        r@ == combine_origins_spec(o1@, o2@),
{
    match (o1, o2) {
        (Origin::Natural { extent: e1 }, Origin::Natural { extent: e2 }) => Origin::Natural {
            extent: concat_charseqs(e1, e2),
        },
        (Origin::Natural { .. }, Origin::Synthetic { lowered_from, .. }) => Origin::Synthetic {
            lowered_from: lowered_from.clone(),
            stringified: Charseq::empty(),
        },
        (Origin::Synthetic { lowered_from, .. }, _) => Origin::Synthetic {
            lowered_from: lowered_from.clone(),
            stringified: Charseq::empty(),
        },
    }
}

/// Whether the tree at position `j`, if any, is a non-whitespace token: the
/// token before it is then `Joint` to it.
pub open spec fn joint_after(f: Forest<FineToken>, j: int) -> Spacing {
    if 0 <= j < f.contents@.len() && (f.contents@[j] matches Tree::Token(t)
        && !is_whitespace_spec(t@.data)) {
        Spacing::Joint
    } else {
        Spacing::Alone
    }
}

/// The single punctuation mark of the tree at `j`, where it is an
/// unglued punctuation token.
pub open spec fn punct_mark_at(f: Forest<FineToken>, j: int) -> Option<(char, OriginV)> {
    if 0 <= j < f.contents@.len() {
        match f.contents@[j] {
            Tree::Token(t) => match t@.data {
                FineTokenDataV::Punctuation { mark } => Some((mark, t@.origin)),
                _ => None,
            },
            _ => None,
        }
    } else {
        None
    }
}

/// The coarse trees for the fine forest's contents from position `i` on:
/// whitespace is dropped, groups are coarsened recursively, and punctuation
/// marks glue while `Joint` and listed in the pair and triple sets.
pub open spec fn coarsen_from(f: Forest<FineToken>, i: int) -> Seq<CoarseTreeV>
    decreases f, f.contents@.len() - i,
{
    if !(0 <= i < f.contents@.len()) {
        Seq::<CoarseTreeV>::empty()
    } else {
        match f.contents@[i] {
            Tree::Group(k, inner) => seq![
                CoarseTreeV::Group(k, coarsen_whole(inner)),
            ] + coarsen_from(f, i + 1),
            Tree::Token(t) => {
                if is_whitespace_spec(t@.data) {
                    coarsen_from(f, i + 1)
                } else {
                    match (punct_mark_at(f, i), punct_mark_at(f, i + 1)) {
                        (Some((m1, o1)), Some((m2, o2))) => {
                            if pair_glues(m1, m2) {
                                let o12 = combine_origins_spec(o1, o2);
                                match punct_mark_at(f, i + 2) {
                                    Some((m3, o3)) => {
                                        if triple_glues(m1, m2, m3) {
                                            seq![
                                                CoarseTreeV::Token(
                                                    CoarseTokenV {
                                                        data: CoarseTokenDataV::Punctuation {
                                                            marks: seq![m1, m2, m3],
                                                        },
                                                        origin: combine_origins_spec(o12, o3),
                                                        spacing: joint_after(f, i + 3),
                                                    },
                                                ),
                                            ] + coarsen_from(f, i + 3)
                                        } else {
                                            seq![
                                                CoarseTreeV::Token(
                                                    CoarseTokenV {
                                                        data: CoarseTokenDataV::Punctuation {
                                                            marks: seq![m1, m2],
                                                        },
                                                        origin: o12,
                                                        spacing: joint_after(f, i + 2),
                                                    },
                                                ),
                                            ] + coarsen_from(f, i + 2)
                                        }
                                    },
                                    None => seq![
                                        CoarseTreeV::Token(
                                            CoarseTokenV {
                                                data: CoarseTokenDataV::Punctuation {
                                                    marks: seq![m1, m2],
                                                },
                                                origin: o12,
                                                spacing: joint_after(f, i + 2),
                                            },
                                        ),
                                    ] + coarsen_from(f, i + 2),
                                }
                            } else {
                                seq![
                                    CoarseTreeV::Token(
                                        CoarseTokenV {
                                            data: coarse_of_fine(t@.data),
                                            origin: t@.origin,
                                            spacing: joint_after(f, i + 1),
                                        },
                                    ),
                                ] + coarsen_from(f, i + 1)
                            }
                        },
                        _ => seq![
                            CoarseTreeV::Token(
                                CoarseTokenV {
                                    data: coarse_of_fine(t@.data),
                                    origin: t@.origin,
                                    spacing: joint_after(f, i + 1),
                                },
                            ),
                        ] + coarsen_from(f, i + 1),
                    }
                }
            },
        }
    }
}

/// The coarse trees for a whole fine forest.
pub open spec fn coarsen_whole(f: Forest<FineToken>) -> Seq<CoarseTreeV>
    decreases f, f.contents@.len() + 1,
{
    coarsen_from(f, 0)
}

} // verus!

verus! {

/// Appending a tree appends its value to the forest's view.
proof fn lemma_coarse_view_push(
    f1: Forest<CoarseToken>,
    f2: Forest<CoarseToken>,
    t: Tree<CoarseToken>,
    i: int,
)
    requires
        f2.contents@ == f1.contents@.push(t),
        0 <= i <= f1.contents@.len(),
    ensures
        coarse_forest_view_from(f2, i) == coarse_forest_view_from(f1, i) + seq![
            coarse_tree_view(t),
        ],
    decreases f1.contents@.len() - i,
{
    if i < f1.contents@.len() {
        lemma_coarse_view_push(f1, f2, t, i + 1);
        assert(f2.contents@[i] == f1.contents@[i]);
        assert(coarse_forest_view_from(f2, i) =~= coarse_forest_view_from(f1, i) + seq![
            coarse_tree_view(t),
        ]);
    } else {
        assert(f2.contents@[i] == t);
        assert(coarse_forest_view_from(f2, i + 1) == Seq::<CoarseTreeV>::empty());
        assert(coarse_forest_view_from(f1, i) == Seq::<CoarseTreeV>::empty());
        assert(coarse_forest_view_from(f2, i) =~= coarse_forest_view_from(f1, i) + seq![
            coarse_tree_view(t),
        ]);
    }
}

/// Returns the spacing after the token whose run ends just before `j`.
fn spacing_at(forest: &Forest<FineToken>, j: usize) -> (r: Spacing)
    ensures
        r == joint_after(*forest, j as int),
{
    if j < forest.contents.len() {
        match &forest.contents[j] {
            Tree::Token(t) => {
                if t.data.is_whitespace() {
                    Spacing::Alone
                } else {
                    Spacing::Joint
                }
            },
            _ => Spacing::Alone,
        }
    } else {
        Spacing::Alone
    }
}

/// Returns the mark and origin of the tree at `j`, where it is a single
/// punctuation token.
fn punct_at(forest: &Forest<FineToken>, j: usize) -> (r: Option<(char, Origin)>)
    ensures
        match r {
            Some((m, o)) => punct_mark_at(*forest, j as int) == Some((m, o@)),
            None => punct_mark_at(*forest, j as int) is None,
        },
{
    if j < forest.contents.len() {
        match &forest.contents[j] {
            Tree::Token(t) => {
                match &t.data {
                    FineTokenData::Punctuation { mark } => Some((*mark, t.origin.clone())),
                    _ => None,
                }
            },
            _ => None,
        }
    } else {
        None
    }
}

/// Converts a fine-grained token forest into a coarse-grained one.
///
/// Whitespace tokens (and non-doc comments) are dropped; the spacing between
/// each surviving token and the next is recorded; adjacent single
/// punctuation marks glue into two- or three-character punctuation while
/// nothing was dropped between them and the pair or triple is in the fixed
/// glue sets.
#[verifier::rlimit(100)]
pub fn coarsen(forest: &Forest<FineToken>) -> (r: Forest<CoarseToken>)
    ensures
        coarse_forest_view(r) == coarsen_whole(*forest),
    decreases *forest,
{
    let n = forest.contents.len();
    let mut out: Forest<CoarseToken> = Forest::new();
    let mut i: usize = 0;
    proof {
        assert(coarse_forest_view(out) =~= Seq::<CoarseTreeV>::empty());
        assert(coarse_forest_view(out) + coarsen_from(*forest, 0) =~= coarsen_whole(*forest));
    }
    while i < n
        invariant
            i <= n == forest.contents@.len(),
            coarse_forest_view(out) + coarsen_from(*forest, i as int) == coarsen_whole(*forest),
        decreases n - i,
    {
        let ghost out1 = out;
        match &forest.contents[i] {
            Tree::Group(k, inner) => {
                let sub = coarsen(inner);
                out.contents.push(Tree::Group(*k, sub));
                proof {
                    lemma_coarse_view_push(out1, out, Tree::Group(*k, sub), 0);
                    assert(coarse_tree_view(Tree::Group(*k, sub)) == CoarseTreeV::Group(
                        *k,
                        coarse_forest_view_from(sub, 0),
                    ));
                    assert(coarse_forest_view(out) + coarsen_from(*forest, i + 1)
                        =~= coarsen_whole(*forest));
                }
                i = i + 1;
            },
            Tree::Token(t) => {
                if t.data.is_whitespace() {
                    proof {
                        assert(coarsen_from(*forest, i as int) == coarsen_from(*forest, i + 1));
                    }
                    i = i + 1;
                } else {
                    let m1opt = punct_at(forest, i);
                    let m2opt = punct_at(forest, i + 1);
                    let mut glued = false;
                    if let (Some((m1, o1)), Some((m2, o2))) = (&m1opt, &m2opt) {
                        if marks_pair_glue(*m1, *m2) {
                            glued = true;
                            let o12 = combine_origins(o1, o2);
                            let m3opt = punct_at(forest, i + 2);
                            let mut tripled = false;
                            if let Some((m3, o3)) = &m3opt {
                                if marks_triple_glue(*m1, *m2, *m3) {
                                    tripled = true;
                                    let mut marks: Vec<char> = Vec::new();
                                    marks.push(*m1);
                                    marks.push(*m2);
                                    marks.push(*m3);
                                    proof {
                                        assert(marks@ =~= seq![*m1, *m2, *m3]);
                                    }
                                    let tok = CoarseToken {
                                        data: CoarseTokenData::Punctuation {
                                            marks: Charseq::new(marks),
                                        },
                                        origin: combine_origins(&o12, o3),
                                        spacing: spacing_at(forest, i + 3),
                                    };
                                    out.contents.push(Tree::Token(tok));
                                    proof {
                                        lemma_coarse_view_push(
                                            out1,
                                            out,
                                            out.contents@.last(),
                                            0,
                                        );
                                        assert(coarse_forest_view(out) + coarsen_from(
                                            *forest,
                                            i + 3,
                                        ) =~= coarsen_whole(*forest));
                                    }
                                    i = i + 3;
                                }
                            }
                            if !tripled {
                                let mut marks: Vec<char> = Vec::new();
                                marks.push(*m1);
                                marks.push(*m2);
                                proof {
                                    assert(marks@ =~= seq![*m1, *m2]);
                                }
                                let tok = CoarseToken {
                                    data: CoarseTokenData::Punctuation {
                                        marks: Charseq::new(marks),
                                    },
                                    origin: o12,
                                    spacing: spacing_at(forest, i + 2),
                                };
                                out.contents.push(Tree::Token(tok));
                                proof {
                                    lemma_coarse_view_push(out1, out, out.contents@.last(), 0);
                                    assert(coarse_forest_view(out) + coarsen_from(
                                        *forest,
                                        i + 2,
                                    ) =~= coarsen_whole(*forest));
                                }
                                i = i + 2;
                            }
                        }
                    }
                    if !glued {
                        let tok = CoarseToken {
                            data: coarse_data_of(&t.data),
                            origin: t.origin.clone(),
                            spacing: spacing_at(forest, i + 1),
                        };
                        out.contents.push(Tree::Token(tok));
                        proof {
                            lemma_coarse_view_push(out1, out, out.contents@.last(), 0);
                            assert(coarse_forest_view(out) + coarsen_from(*forest, i + 1)
                                =~= coarsen_whole(*forest));
                        }
                        i = i + 1;
                    }
                }
            },
        }
    }
    proof {
        assert(coarsen_from(*forest, n as int) == Seq::<CoarseTreeV>::empty());
        assert(coarse_forest_view(out) =~= coarse_forest_view(out) + coarsen_from(
            *forest,
            n as int,
        ));
    }
    out
}

} // verus!
