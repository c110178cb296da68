//! Converting doc-comments to synthetic attribute token sequences.

use vstd::prelude::*;
use crate::char_sequences::Charseq;
use crate::fine_tokens::{CommentStyle, FineToken, FineTokenData, FineTokenDataV, FineTokenV};
use crate::pretokenisation::rules::MAX_INPUT_LENGTH;
use crate::tokenisation::{accepts_as_single_token, lex_as_single_token};
use crate::tokens_common::{Origin, OriginV};
use crate::Edition;

verus! {

/// A run of `h` hash characters.
pub open spec fn hashes(h: nat) -> Seq<char> {
    Seq::new(h, |i: int| '#')
}

/// The rendering of a raw string literal with the given body and hash count.
pub open spec fn raw_quoted(body: Seq<char>, h: nat) -> Seq<char> {
    seq!['r'] + hashes(h) + seq!['"'] + body + seq!['"'] + hashes(h)
}

/// The smallest hash count at or above `h`, up to 255, whose rendering lexes
/// as a single token; 255 where none does.
pub open spec fn min_hash_from(ed: Edition, body: Seq<char>, h: nat) -> nat
    decreases 255 - h,
{
    if h >= 255 {
        255
    } else if accepts_as_single_token(ed, raw_quoted(body, h)) {
        h
    } else {
        min_hash_from(ed, body, h + 1)
    }
}

/// The smallest hash count, up to 255, whose rendering of the body lexes as
/// a single token; 255 where none does.
pub open spec fn min_hash(ed: Edition, body: Seq<char>) -> nat {
    min_hash_from(ed, body, 0)
}

/// Builds the rendering of a raw string literal with `h` hashes.
fn raw_quote(body: &Charseq, h: usize) -> (r: Charseq)
    requires
        h <= 255,
        body@.len() + 600 <= MAX_INPUT_LENGTH,
    ensures
        r@ == raw_quoted(body@, h as nat),
        r@.len() <= body@.len() + 600,
{
    let mut v: Vec<char> = Vec::new();
    v.push('r');
    let mut k: usize = 0;
    while k < h
        invariant
            k <= h,
            v@ == seq!['r'] + hashes(k as nat),
        decreases h - k,
    {
        v.push('#');
        proof {
            assert(v@ =~= seq!['r'] + hashes((k + 1) as nat));
        }
        k = k + 1;
    }
    v.push('"');
    let ghost mid = v@;
    let mut j: usize = 0;
    while j < body.len()
        invariant
            j <= body@.len(),
            v@ == mid + body@.subrange(0, j as int),
        decreases body@.len() - j,
    {
        v.push(body.at(j));
        proof {
            assert(v@ =~= mid + body@.subrange(0, j + 1));
        }
        j = j + 1;
    }
    v.push('"');
    let mut k2: usize = 0;
    let ghost mid2 = v@;
    while k2 < h
        invariant
            k2 <= h,
            v@ == mid2 + hashes(k2 as nat),
        decreases h - k2,
    {
        v.push('#');
        proof {
            assert(v@ =~= mid2 + hashes((k2 + 1) as nat));
        }
        k2 = k2 + 1;
    }
    proof {
        assert(body@.subrange(0, body@.len() as int) =~= body@);
        assert(v@ =~= raw_quoted(body@, h as nat));
    }
    Charseq::new(v)
}

/// Renders a comment body as the raw string literal a lowered doc-comment
/// uses: the minimal number of hashes with which the rendering lexes back as
/// a single token, or 255 where no such count exists.
pub fn stringified_as_raw_literal(represented_string: &Charseq, edition: Edition) -> (r: Charseq)
    requires
        represented_string@.len() + 600 <= MAX_INPUT_LENGTH,
    ensures
        r@ == raw_quoted(represented_string@, min_hash(edition, represented_string@)),
{
    let mut h: usize = 0;
    while h < 255
        invariant
            h <= 255,
            represented_string@.len() + 600 <= MAX_INPUT_LENGTH,
            min_hash(edition, represented_string@) == min_hash_from(
                edition,
                represented_string@,
                h as nat,
            ),
        decreases 255 - h,
    {
        let candidate = raw_quote(represented_string, h);
        if lex_as_single_token(&candidate, edition).is_some() {
            return candidate;
        }
        h = h + 1;
    }
    raw_quote(represented_string, 255)
}

/// The mathematical values of a token sequence.
pub open spec fn views_of(ts: Seq<FineToken>) -> Seq<FineTokenV> {
    Seq::new(ts.len(), |k: int| ts[k]@)
}

/// The extent a synthetic token is lowered from.
pub open spec fn lowered_from_of(o: OriginV) -> Seq<char> {
    match o {
        OriginV::Natural { extent } => extent,
        OriginV::Synthetic { lowered_from, .. } => lowered_from,
    }
}

/// A synthetic token.
pub open spec fn synth(lf: Seq<char>, stringified: Seq<char>, d: FineTokenDataV) -> FineTokenV {
    FineTokenV { data: d, origin: OriginV::Synthetic { lowered_from: lf, stringified } }
}

/// The token sequence a single token lowers to: a doc-comment becomes the
/// synthetic rendering of an attribute (with `!` for an inner doc-comment);
/// every other token stays as it is.
pub open spec fn lower_token(ed: Edition, t: FineTokenV) -> Seq<FineTokenV> {
    let parts: Option<(CommentStyle, Seq<char>)> = match t.data {
        FineTokenDataV::LineComment { style, body } => if style != CommentStyle::NonDoc {
            Some((style, body))
        } else {
            None
        },
        FineTokenDataV::BlockComment { style, body } => if style != CommentStyle::NonDoc {
            Some((style, body))
        } else {
            None
        },
        _ => None,
    };
    match parts {
        None => seq![t],
        Some((style, body)) => {
            let lf = lowered_from_of(t.origin);
            let q = raw_quoted(body, min_hash(ed, body));
            seq![
                synth(lf, seq!['#'], FineTokenDataV::Punctuation { mark: '#' }),
                synth(lf, seq![' '], FineTokenDataV::Whitespace),
            ] + (if style != CommentStyle::OuterDoc {
                seq![synth(lf, seq!['!'], FineTokenDataV::Punctuation { mark: '!' })]
            } else {
                Seq::<FineTokenV>::empty()
            }) + seq![
                synth(lf, seq!['['], FineTokenDataV::Punctuation { mark: '[' }),
                synth(
                    lf,
                    seq!['d', 'o', 'c'],
                    FineTokenDataV::Ident { represented_ident: seq!['d', 'o', 'c'] },
                ),
                synth(lf, seq!['='], FineTokenDataV::Punctuation { mark: '=' }),
                synth(lf, seq![' '], FineTokenDataV::Whitespace),
                synth(
                    lf,
                    q,
                    FineTokenDataV::RawStringLiteral {
                        represented_string: body,
                        suffix: Seq::<char>::empty(),
                    },
                ),
                synth(lf, seq![']'], FineTokenDataV::Punctuation { mark: ']' }),
            ]
        },
    }
}

/// The lowering of the first `i` tokens.
pub open spec fn lower_upto(ed: Edition, ts: Seq<FineToken>, i: int) -> Seq<FineTokenV>
    decreases i,
{
    if i <= 0 {
        Seq::<FineTokenV>::empty()
    } else {
        lower_upto(ed, ts, i - 1) + lower_token(ed, ts[i - 1]@)
    }
}

/// Returns a one-character sequence.
fn one_char_seq(c: char) -> (r: Charseq)
    ensures
        r@ == seq![c],
{
    let mut v: Vec<char> = Vec::new();
    v.push(c);
    proof {
        assert(v@ =~= seq![c]);
    }
    Charseq::new(v)
}

/// Builds the synthetic expansion of one doc-comment.
fn lowered(
    comment_body: &Charseq,
    style: CommentStyle,
    lowered_from: &Charseq,
    edition: Edition,
) -> (r: Vec<FineToken>)
    requires
        style != CommentStyle::NonDoc,
        comment_body@.len() + 600 <= MAX_INPUT_LENGTH,
    ensures
        views_of(r@) == lower_token(
            edition,
            FineTokenV {
                data: FineTokenDataV::LineComment { style, body: comment_body@ },
                origin: OriginV::Natural { extent: lowered_from@ },
            },
        ),
{
    let mut out: Vec<FineToken> = Vec::new();
    out.push(
        FineToken {
            data: FineTokenData::Punctuation { mark: '#' },
            origin: Origin::Synthetic {
                lowered_from: lowered_from.clone(),
                stringified: one_char_seq('#'),
            },
        },
    );
    out.push(
        FineToken {
            data: FineTokenData::Whitespace,
            origin: Origin::Synthetic {
                lowered_from: lowered_from.clone(),
                stringified: one_char_seq(' '),
            },
        },
    );
    if !matches!(style, CommentStyle::OuterDoc) {
        out.push(
            FineToken {
                data: FineTokenData::Punctuation { mark: '!' },
                origin: Origin::Synthetic {
                    lowered_from: lowered_from.clone(),
                    stringified: one_char_seq('!'),
                },
            },
        );
    }
    out.push(
        FineToken {
            data: FineTokenData::Punctuation { mark: '[' },
            origin: Origin::Synthetic {
                lowered_from: lowered_from.clone(),
                stringified: one_char_seq('['),
            },
        },
    );
    let mut doc_chars: Vec<char> = Vec::new();
    doc_chars.push('d');
    doc_chars.push('o');
    doc_chars.push('c');
    proof {
        assert(doc_chars@ =~= seq!['d', 'o', 'c']);
    }
    let doc_name = Charseq::new(doc_chars);
    out.push(
        FineToken {
            data: FineTokenData::Ident { represented_ident: doc_name.clone() },
            origin: Origin::Synthetic {
                lowered_from: lowered_from.clone(),
                stringified: doc_name,
            },
        },
    );
    out.push(
        FineToken {
            data: FineTokenData::Punctuation { mark: '=' },
            origin: Origin::Synthetic {
                lowered_from: lowered_from.clone(),
                stringified: one_char_seq('='),
            },
        },
    );
    out.push(
        FineToken {
            data: FineTokenData::Whitespace,
            origin: Origin::Synthetic {
                lowered_from: lowered_from.clone(),
                stringified: one_char_seq(' '),
            },
        },
    );
    let stringified = stringified_as_raw_literal(comment_body, edition);
    out.push(
        FineToken {
            data: FineTokenData::RawStringLiteral {
                represented_string: comment_body.clone(),
                suffix: Charseq::empty(),
            },
            origin: Origin::Synthetic { lowered_from: lowered_from.clone(), stringified },
        },
    );
    out.push(
        FineToken {
            data: FineTokenData::Punctuation { mark: ']' },
            origin: Origin::Synthetic {
                lowered_from: lowered_from.clone(),
                stringified: one_char_seq(']'),
            },
        },
    );
    proof {
        assert(views_of(out@) =~= lower_token(
            edition,
            FineTokenV {
                data: FineTokenDataV::LineComment { style, body: comment_body@ },
                origin: OriginV::Natural { extent: lowered_from@ },
            },
        ));
    }
    out
}

} // verus!

verus! {

/// Whether every comment body in the token list is within the rendering cap.
pub open spec fn bodies_small(ts: Seq<FineToken>) -> bool {
    forall|k: int|
        0 <= k < ts.len() ==> match #[trigger] ts[k]@.data {
            FineTokenDataV::LineComment { body, .. } => body.len() + 600 <= MAX_INPUT_LENGTH,
            FineTokenDataV::BlockComment { body, .. } => body.len() + 600 <= MAX_INPUT_LENGTH,
            _ => true,
        }
}

/// Converts doc-comments to attributes.
///
/// Each comment token with style other than non-doc is replaced by a
/// sequence of synthetic tokens which together represent an attribute; other
/// tokens pass through unchanged.
pub fn lower_doc_comments(tokens: &Vec<FineToken>, edition: Edition) -> (r: Vec<FineToken>)
    requires
        bodies_small(tokens@),
    ensures
        views_of(r@) == lower_upto(edition, tokens@, tokens@.len() as int),
{
    let n = tokens.len();
    let mut out: Vec<FineToken> = Vec::new();
    let mut i: usize = 0;
    proof {
        assert(views_of(out@) =~= lower_upto(edition, tokens@, 0));
    }
    while i < n
        invariant
            i <= n == tokens@.len(),
            bodies_small(tokens@),
            views_of(out@) == lower_upto(edition, tokens@, i as int),
        decreases n - i,
    {
        let ghost pre = out@;
        let t = &tokens[i];
        let parts: Option<(CommentStyle, &Charseq)> = match &t.data {
            FineTokenData::LineComment { style, body } => {
                if !matches!(style, CommentStyle::NonDoc) {
                    Some((*style, body))
                } else {
                    None
                }
            },
            FineTokenData::BlockComment { style, body } => {
                if !matches!(style, CommentStyle::NonDoc) {
                    Some((*style, body))
                } else {
                    None
                }
            },
            _ => None,
        };
        match parts {
            Some((style, body)) => {
                let lf = match &t.origin {
                    Origin::Natural { extent } => extent,
                    Origin::Synthetic { lowered_from, .. } => lowered_from,
                };
                let mut exp = lowered(body, style, lf, edition);
                let ghost expv = exp@;
                proof {
                    assert(views_of(expv) =~= lower_token(edition, tokens@[i as int]@));
                }
                out.append(&mut exp);
                proof {
                    assert(out@ == pre + expv);
                    assert(views_of(out@) =~= views_of(pre) + views_of(expv));
                }
            },
            None => {
                out.push(t.clone());
                proof {
                    assert(lower_token(edition, tokens@[i as int]@) =~= seq![
                        tokens@[i as int]@,
                    ]);
                }
            },
        }
        proof {
            assert(views_of(out@) =~= lower_upto(edition, tokens@, i + 1));
        }
        i = i + 1;
    }
    out
}

} // verus!
