//! Comparing the output of two lexer implementations.

use vstd::prelude::*;
use crate::char_sequences::Charseq;
use crate::regular_tokens::{RegularToken, RegularTokenData};
use crate::trees::{Forest, Tree};

verus! {

/// The result of running a lexer, in a form suitable for comparison.
pub enum Verdict {
    /// The lexer accepted the input, with this regularised output.
    Accepts(Forest<RegularToken>),
    /// The lexer rejected the input; the strings describe why.
    Rejects(Vec<String>),
    /// The lexer reported a problem in its model or implementation.
    ModelError(Vec<String>),
}

/// The result of comparing the output of two lexers.
#[derive(Copy, Clone, PartialEq, Eq, Structural, Debug)]
pub enum Comparison {
    /// The two lexers produced equivalent verdicts: equal forests, or both
    /// rejected (reasons are not compared).
    Agree,
    /// The two lexers disagreed: different forests, or only one accepted.
    Differ,
    /// One of the lexers reported a problem in its model or implementation.
    ModelErrors,
}

/// Structural equality of regularised token data.
pub open spec fn regular_data_eq(a: RegularTokenData, b: RegularTokenData) -> bool {
    match (a, b) {
        (
            RegularTokenData::DocComment { comment_kind: k1, style: s1, body: b1 },
            RegularTokenData::DocComment { comment_kind: k2, style: s2, body: b2 },
        ) => k1 == k2 && s1 == s2 && b1@ == b2@,
        (
            RegularTokenData::Punctuation { marks: m1 },
            RegularTokenData::Punctuation { marks: m2 },
        ) => m1@ == m2@,
        (
            RegularTokenData::Ident { represented_ident: i1, style: s1 },
            RegularTokenData::Ident { represented_ident: i2, style: s2 },
        ) => i1@ == i2@ && s1 == s2,
        (
            RegularTokenData::LifetimeOrLabel { symbol: n1, style: s1 },
            RegularTokenData::LifetimeOrLabel { symbol: n2, style: s2 },
        ) => n1@ == n2@ && s1 == s2,
        (
            RegularTokenData::ByteLiteral { represented_byte: b1 },
            RegularTokenData::ByteLiteral { represented_byte: b2 },
        ) => b1 == b2,
        (
            RegularTokenData::ByteStringLiteral { represented_bytes: b1, style: s1 },
            RegularTokenData::ByteStringLiteral { represented_bytes: b2, style: s2 },
        ) => b1@ == b2@ && s1 == s2,
        (
            RegularTokenData::CharacterLiteral { represented_character: c1 },
            RegularTokenData::CharacterLiteral { represented_character: c2 },
        ) => c1 == c2,
        (
            RegularTokenData::StringLiteral { represented_string: v1, style: s1 },
            RegularTokenData::StringLiteral { represented_string: v2, style: s2 },
        ) => v1@ == v2@ && s1 == s2,
        (
            RegularTokenData::CstringLiteral { represented_bytes: b1, style: s1 },
            RegularTokenData::CstringLiteral { represented_bytes: b2, style: s2 },
        ) => b1@ == b2@ && s1 == s2,
        (
            RegularTokenData::IntegerLiteral { suffix: x1 },
            RegularTokenData::IntegerLiteral { suffix: x2 },
        ) => x1@ == x2@,
        (
            RegularTokenData::FloatLiteral { suffix: x1 },
            RegularTokenData::FloatLiteral { suffix: x2 },
        ) => x1@ == x2@,
        (
            RegularTokenData::LiteralWithForbiddenSuffix { suffix: x1 },
            RegularTokenData::LiteralWithForbiddenSuffix { suffix: x2 },
        ) => x1@ == x2@,
        (RegularTokenData::Other, RegularTokenData::Other) => true,
        _ => false,
    }
}

/// Structural equality of regularised tokens.
pub open spec fn regular_token_eq(a: RegularToken, b: RegularToken) -> bool {
    a.extent@ == b.extent@ && a.spacing == b.spacing && regular_data_eq(a.data, b.data)
}

/// Structural equality of regularised forests, from position `i` on.
pub open spec fn regular_forest_eq_from(
    f: Forest<RegularToken>,
    g: Forest<RegularToken>,
    i: int,
) -> bool
    decreases f, f.contents@.len() - i,
{
    &&& f.contents@.len() == g.contents@.len()
    &&& forall|j: int|
        0 <= j < f.contents@.len() && i <= j ==> match (
            #[trigger] f.contents@[j],
            g.contents@[j],
        ) {
            (Tree::Token(a), Tree::Token(b)) => regular_token_eq(a, b),
            (Tree::Group(k1, inner1), Tree::Group(k2, inner2)) => k1 == k2 && regular_forest_eq(
                inner1,
                inner2,
            ),
            _ => false,
        }
}

/// Structural equality of regularised forests.
pub open spec fn regular_forest_eq(f: Forest<RegularToken>, g: Forest<RegularToken>) -> bool
    decreases f, f.contents@.len() + 1,
{
    regular_forest_eq_from(f, g, 0)
}

/// Says whether two character sequences are equal.
pub fn charseqs_equal(a: &Charseq, b: &Charseq) -> (r: bool)
    ensures
        r == (a@ == b@),
{
    if a.len() != b.len() {
        proof {
            assert(a@ != b@);
        }
        return false;
    }
    let n = a.len();
    let mut i: usize = 0;
    while i < n
        invariant
            i <= n == a@.len() == b@.len(),
            forall|j: int| 0 <= j < i ==> a@[j] == b@[j],
        decreases n - i,
    {
        if a.at(i) != b.at(i) {
            proof {
                assert(a@[i as int] != b@[i as int]);
            }
            return false;
        }
        i = i + 1;
    }
    proof {
        assert(a@ =~= b@);
    }
    true
}

/// Says whether two byte sequences are equal.
pub fn bytes_equal(a: &Vec<u8>, b: &Vec<u8>) -> (r: bool)
    ensures
        r == (a@ == b@),
{
    if a.len() != b.len() {
        proof {
            assert(a@ != b@);
        }
        return false;
    }
    let n = a.len();
    let mut i: usize = 0;
    while i < n
        invariant
            i <= n == a@.len() == b@.len(),
            forall|j: int| 0 <= j < i ==> a@[j] == b@[j],
        decreases n - i,
    {
        if a[i] != b[i] {
            proof {
                assert(a@[i as int] != b@[i as int]);
            }
            return false;
        }
        i = i + 1;
    }
    proof {
        assert(a@ =~= b@);
    }
    true
}

/// Says whether two regularised token data values are equal.
pub fn regular_datas_equal(a: &RegularTokenData, b: &RegularTokenData) -> (r: bool)
    ensures
        r == regular_data_eq(*a, *b),
{
    match (a, b) {
        (
            RegularTokenData::DocComment { comment_kind: k1, style: s1, body: b1 },
            RegularTokenData::DocComment { comment_kind: k2, style: s2, body: b2 },
        ) => k1 == k2 && s1 == s2 && charseqs_equal(b1, b2),
        (
            RegularTokenData::Punctuation { marks: m1 },
            RegularTokenData::Punctuation { marks: m2 },
        ) => charseqs_equal(m1, m2),
        (
            RegularTokenData::Ident { represented_ident: i1, style: s1 },
            RegularTokenData::Ident { represented_ident: i2, style: s2 },
        ) => charseqs_equal(i1, i2) && s1 == s2,
        (
            RegularTokenData::LifetimeOrLabel { symbol: n1, style: s1 },
            RegularTokenData::LifetimeOrLabel { symbol: n2, style: s2 },
        ) => charseqs_equal(n1, n2) && s1 == s2,
        (
            RegularTokenData::ByteLiteral { represented_byte: b1 },
            RegularTokenData::ByteLiteral { represented_byte: b2 },
        ) => b1 == b2,
        (
            RegularTokenData::ByteStringLiteral { represented_bytes: b1, style: s1 },
            RegularTokenData::ByteStringLiteral { represented_bytes: b2, style: s2 },
        ) => bytes_equal(b1, b2) && s1 == s2,
        (
            RegularTokenData::CharacterLiteral { represented_character: c1 },
            RegularTokenData::CharacterLiteral { represented_character: c2 },
        ) => c1 == c2,
        (
            RegularTokenData::StringLiteral { represented_string: v1, style: s1 },
            RegularTokenData::StringLiteral { represented_string: v2, style: s2 },
        ) => charseqs_equal(v1, v2) && s1 == s2,
        (
            RegularTokenData::CstringLiteral { represented_bytes: b1, style: s1 },
            RegularTokenData::CstringLiteral { represented_bytes: b2, style: s2 },
        ) => bytes_equal(b1, b2) && s1 == s2,
        (
            RegularTokenData::IntegerLiteral { suffix: x1 },
            RegularTokenData::IntegerLiteral { suffix: x2 },
        ) => charseqs_equal(x1, x2),
        (
            RegularTokenData::FloatLiteral { suffix: x1 },
            RegularTokenData::FloatLiteral { suffix: x2 },
        ) => charseqs_equal(x1, x2),
        (
            RegularTokenData::LiteralWithForbiddenSuffix { suffix: x1 },
            RegularTokenData::LiteralWithForbiddenSuffix { suffix: x2 },
        ) => charseqs_equal(x1, x2),
        (RegularTokenData::Other, RegularTokenData::Other) => true,
        _ => false,
    }
}

/// Says whether two regularised forests are equal.
pub fn regular_forests_equal(f: &Forest<RegularToken>, g: &Forest<RegularToken>) -> (r: bool)
    ensures
        r == regular_forest_eq(*f, *g),
    decreases *f,
{
    if f.contents.len() != g.contents.len() {
        return false;
    }
    let n = f.contents.len();
    let mut i: usize = 0;
    while i < n
        invariant
            i <= n == f.contents@.len() == g.contents@.len(),
            forall|j: int|
                0 <= j < i ==> match (#[trigger] f.contents@[j], g.contents@[j]) {
                    (Tree::Token(a), Tree::Token(b)) => regular_token_eq(a, b),
                    (Tree::Group(k1, inner1), Tree::Group(k2, inner2)) => k1 == k2
                        && regular_forest_eq(inner1, inner2),
                    _ => false,
                },
        decreases n - i,
    {
        let same = match (&f.contents[i], &g.contents[i]) {
            (Tree::Token(a), Tree::Token(b)) => charseqs_equal(&a.extent, &b.extent) && a.spacing
                == b.spacing && regular_datas_equal(&a.data, &b.data),
            (Tree::Group(k1, inner1), Tree::Group(k2, inner2)) => k1 == k2
                && regular_forests_equal(inner1, inner2),
            _ => false,
        };
        if !same {
            return false;
        }
        i = i + 1;
    }
    true
}

/// Compares the output of two lexers.
pub fn compare(r1: &Verdict, r2: &Verdict) -> (r: Comparison)
    ensures
        match (r1, r2) {
            (Verdict::Accepts(f1), Verdict::Accepts(f2)) => r == (if regular_forest_eq(*f1, *f2) {
                Comparison::Agree
            } else {
                Comparison::Differ
            }),
            (Verdict::Rejects(_), Verdict::Rejects(_)) => r == Comparison::Agree,
            (Verdict::Accepts(_), Verdict::Rejects(_)) => r == Comparison::Differ,
            (Verdict::Rejects(_), Verdict::Accepts(_)) => r == Comparison::Differ,
            _ => r == Comparison::ModelErrors,
        },
{
    match (r1, r2) {
        (Verdict::Accepts(f1), Verdict::Accepts(f2)) => {
            if regular_forests_equal(f1, f2) {
                Comparison::Agree
            } else {
                Comparison::Differ
            }
        },
        (Verdict::Rejects(_), Verdict::Rejects(_)) => Comparison::Agree,
        (Verdict::Accepts(_), Verdict::Rejects(_)) => Comparison::Differ,
        (Verdict::Rejects(_), Verdict::Accepts(_)) => Comparison::Differ,
        _ => Comparison::ModelErrors,
    }
}

} // verus!

verus! {

use crate::cleaning::{clean, clean_spec, CleanSpec, CleaningOutcome};
use crate::combination::{coarsen, coarse_forest_view, coarsen_whole, CoarseToken};
use crate::doc_lowering::{bodies_small, lower_doc_comments, lower_upto, views_of};
use crate::fine_tokens::{FineToken, FineTokenDataV};
use crate::pretokenisation::rules::MAX_INPUT_LENGTH;
use crate::pretokenisation::{chosen_data, chosen_len, chosen_match, lemma_chosen_data_small,
    pretoken_data_small};
use crate::regular_tokens::{regularise_from_coarse, regularised_forest_rec};
use crate::reprocessing::{reprocess_spec, ReprocessOutcome};
use crate::tokenisation::{analyse, analysis_outcome, concat_natural_extents, fine_chain_valid,
    Analysis, AnalysisKind};
use crate::tree_construction::{balance_scan, construct_forest, datas_of, flat_data_forest};
use crate::trees::GroupKind;
use crate::{CleaningMode, Edition, Lowering};

/// In a valid chain over a short enough input, every comment body is within
/// the doc-lowering cap.
pub proof fn lemma_chain_bodies_small(ed: Edition, s: Seq<char>, ts: Seq<FineToken>, pos: int)
    requires
        0 <= pos <= s.len(),
        s.len() + 600 <= MAX_INPUT_LENGTH,
        fine_chain_valid(ed, s, ts, pos),
    ensures
        bodies_small(ts),
    decreases ts.len(),
{
    if ts.len() > 0 {
        let l = chosen_len(ed, s, pos);
        lemma_chosen_data_small(ed, s, pos);
        lemma_chain_bodies_small(ed, s, ts.skip(1), pos + l);
        assert forall|k: int| 0 <= k < ts.len() implies match #[trigger] ts[k]@.data {
            FineTokenDataV::LineComment { body, .. } => body.len() + 600 <= MAX_INPUT_LENGTH,
            FineTokenDataV::BlockComment { body, .. } => body.len() + 600 <= MAX_INPUT_LENGTH,
            _ => true,
        } by {
            if k == 0 {
                assert(pretoken_data_small(chosen_data(ed, s, pos), s.len() as int));
            } else {
                assert(ts.skip(1)[k - 1] == ts[k]);
            }
        }
    }
}

/// Runs this lexer's full pipeline and returns the regularised result.
///
/// The input is cleaned, analysed into fine tokens, optionally doc-lowered,
/// grouped into a forest, coarsened, and regularised.
pub fn regularised_from_peg(
    input: &Charseq,
    edition: Edition,
    cleaning: CleaningMode,
    lowering: Lowering,
) -> (r: Verdict)
    requires
        input@.len() + 600 <= MAX_INPUT_LENGTH,
    ensures
        match clean_spec(input@, edition, cleaning) {
            CleanSpec::Reject => r is Rejects,
            CleanSpec::Cleaned(c) => {
                &&& (analysis_outcome(edition, c, 0) == AnalysisKind::Model ==> r is ModelError)
                &&& (analysis_outcome(edition, c, 0) == AnalysisKind::Reject ==> r is Rejects)
                &&& (r is ModelError ==> analysis_outcome(edition, c, 0) == AnalysisKind::Model)
                &&& (r is Rejects && analysis_outcome(edition, c, 0) == AnalysisKind::Accept
                    ==> exists|ts: Seq<FineToken>, lowered_ts: Seq<FineToken>|
                    #![trigger fine_chain_valid(edition, c, ts, 0), datas_of(lowered_ts)]
                    {
                        &&& fine_chain_valid(edition, c, ts, 0)
                        &&& concat_natural_extents(ts) == c
                        &&& (match lowering {
                            Lowering::NoLowering => lowered_ts == ts,
                            Lowering::LowerDocComments => views_of(lowered_ts) == lower_upto(
                                edition,
                                ts,
                                ts.len() as int,
                            ),
                        })
                        &&& !balance_scan(datas_of(lowered_ts), 0, Seq::<GroupKind>::empty())
                    })
                &&& (r matches Verdict::Accepts(g) ==> analysis_outcome(edition, c, 0)
                    == AnalysisKind::Accept && exists|
                    ts: Seq<FineToken>,
                    lowered_ts: Seq<FineToken>,
                    ff: Forest<FineToken>,
                    co: Forest<CoarseToken>,
                |
                    #![trigger fine_chain_valid(edition, c, ts, 0), datas_of(lowered_ts), flat_data_forest(ff, 0), coarse_forest_view(co)]
                    {
                        &&& fine_chain_valid(edition, c, ts, 0)
                        &&& concat_natural_extents(ts) == c
                        &&& (match lowering {
                            Lowering::NoLowering => lowered_ts == ts,
                            Lowering::LowerDocComments => views_of(lowered_ts) == lower_upto(
                                edition,
                                ts,
                                ts.len() as int,
                            ),
                        })
                        &&& balance_scan(datas_of(lowered_ts), 0, Seq::<GroupKind>::empty())
                        &&& flat_data_forest(ff, 0) == datas_of(lowered_ts)
                        &&& coarse_forest_view(co) == coarsen_whole(ff)
                        &&& regularised_forest_rec(co, g)
                    })
            },
        },
{
    let cleaned = match clean(input, edition, cleaning) {
        CleaningOutcome::Accepts(c) => c,
        CleaningOutcome::Rejects(msg) => {
            let mut v: Vec<String> = Vec::new();
            v.push(msg);
            return Verdict::Rejects(v);
        },
        CleaningOutcome::ModelError(msg) => {
            let mut v: Vec<String> = Vec::new();
            v.push(msg);
            return Verdict::Rejects(v);
        },
    };
    match analyse(&cleaned, edition) {
        Analysis::Accepts(_pretokens, tokens) => {
            let ghost ts0 = tokens@;
            let final_tokens: Vec<FineToken> = match lowering {
                Lowering::NoLowering => tokens,
                Lowering::LowerDocComments => {
                    proof {
                        lemma_chain_bodies_small(edition, cleaned@, tokens@, 0);
                    }
                    lower_doc_comments(&tokens, edition)
                },
            };
            let ghost lts = final_tokens@;
            match construct_forest(&final_tokens) {
                Ok(ff) => {
                    let co = coarsen(&ff);
                    let g = regularise_from_coarse(&co);
                    proof {
                        assert(fine_chain_valid(edition, cleaned@, ts0, 0));
                    }
                    Verdict::Accepts(g)
                },
                Err(msg) => {
                    let mut v: Vec<String> = Vec::new();
                    v.push(msg);
                    Verdict::Rejects(v)
                },
            }
        },
        Analysis::Rejects(reason) => Verdict::Rejects(reason.into_description()),
        Analysis::ModelError(reason) => Verdict::ModelError(reason.into_description()),
    }
}

} // verus!
