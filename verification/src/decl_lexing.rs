//! The form of lexing used inside declarative macros: doc-comments are
//! always lowered, and each coarse token is rendered the way a
//! stringification operator would render it.

use vstd::prelude::*;
use crate::char_sequences::Charseq;
use crate::cleaning::{clean_for_macro_input, replace_crlf_spec};
use crate::combination::{coarse_forest_view, coarsen, coarsen_whole, CoarseToken, CoarseTokenV};
use crate::doc_lowering::lower_doc_comments;
use crate::pretokenisation::rules::MAX_INPUT_LENGTH;
use crate::doc_lowering::{lower_upto, views_of};
use crate::tokenisation::{analyse, analysis_outcome, concat_natural_extents, fine_chain_valid,
    Analysis, AnalysisKind};
use crate::tree_construction::{datas_of, flat_data_forest};
use crate::tokens_common::{Origin, OriginV};
use crate::tree_construction::construct_forest;
use crate::trees::{Forest, Tree};
use crate::comparison::lemma_chain_bodies_small;
use crate::Edition;

verus! {

/// What a stringification operator renders for one coarse token: the
/// identifier's represented form (with `r#` for a raw identifier), a
/// synthetic token's recorded rendering, and any other natural token's
/// extent.
pub open spec fn stringify_spec(t: CoarseTokenV) -> Seq<char> {
    match t.origin {
        OriginV::Natural { extent } => match t.data {
            crate::combination::CoarseTokenDataV::Ident { represented_ident } => represented_ident,
            crate::combination::CoarseTokenDataV::RawIdent { represented_ident } => seq!['r', '#']
                + represented_ident,
            _ => extent,
        },
        OriginV::Synthetic { stringified, .. } => stringified,
    }
}

/// Returns the character sequence a stringification operator would produce
/// for a token.
pub fn stringify(token: &CoarseToken) -> (r: Charseq)
    ensures
        r@ == stringify_spec(token@),
{
    match &token.origin {
        Origin::Natural { extent } => match &token.data {
            crate::combination::CoarseTokenData::Ident { represented_ident } => {
                represented_ident.clone()
            },
            crate::combination::CoarseTokenData::RawIdent { represented_ident } => {
                let mut v: Vec<char> = Vec::new();
                v.push('r');
                v.push('#');
                proof {
                    assert(v@ =~= seq!['r', '#']);
                }
                crate::char_sequences::concat_charseqs(&Charseq::new(v), represented_ident)
            },
            _ => extent.clone(),
        },
        Origin::Synthetic { stringified, .. } => stringified.clone(),
    }
}

/// The rendering forest has the same shape as the coarse forest, with each
/// token rendered.
pub open spec fn stringified_forest(f: Forest<CoarseToken>, g: Forest<Charseq>) -> bool
    decreases f,
{
    &&& f.contents@.len() == g.contents@.len()
    &&& forall|j: int|
        0 <= j < f.contents@.len() ==> match (#[trigger] f.contents@[j], g.contents@[j]) {
            (Tree::Token(t), Tree::Token(s)) => s@ == stringify_spec(t@),
            (Tree::Group(k1, inner1), Tree::Group(k2, inner2)) => k1 == k2 && stringified_forest(
                inner1,
                inner2,
            ),
            _ => false,
        }
}

/// Renders every token of a coarse forest.
pub fn stringify_forest(forest: &Forest<CoarseToken>) -> (r: Forest<Charseq>)
    ensures
        stringified_forest(*forest, r),
    decreases *forest,
{
    let n = forest.contents.len();
    let mut out: Forest<Charseq> = Forest::new();
    let mut i: usize = 0;
    while i < n
        invariant
            i <= n == forest.contents@.len(),
            out.contents@.len() == i,
            forall|j: int|
                0 <= j < i ==> match (#[trigger] forest.contents@[j], out.contents@[j]) {
                    (Tree::Token(t), Tree::Token(s)) => s@ == stringify_spec(t@),
                    (Tree::Group(k1, inner1), Tree::Group(k2, inner2)) => k1 == k2
                        && stringified_forest(inner1, inner2),
                    _ => false,
                },
        decreases n - i,
    {
        match &forest.contents[i] {
            Tree::Token(t) => {
                out.contents.push(Tree::Token(stringify(t)));
            },
            Tree::Group(k, inner) => {
                let sub = stringify_forest(inner);
                out.contents.push(Tree::Group(*k, sub));
            },
        }
        i = i + 1;
    }
    out
}

/// The verdict of the declarative-macro form of lexing.
pub enum DeclVerdict {
    /// The input was accepted; each token is rendered as a stringification
    /// operator would render it.
    Accepts(Forest<Charseq>),
    /// The input was rejected; the strings describe why.
    Rejects(Vec<String>),
    /// The input demonstrated a problem in the lexer's own rules.
    ModelError(Vec<String>),
}

/// Runs this lexer's analysis as if for a declarative macro invocation.
///
/// Only CRLF normalisation applies before tokenisation, and doc-comments are
/// unconditionally lowered; the accepted forest holds each token's rendering.
pub fn stringified_via_peg(input: &Charseq, edition: Edition) -> (r: DeclVerdict)
    requires
        input@.len() + 600 <= MAX_INPUT_LENGTH,
    ensures
        ({
            let c = replace_crlf_spec(input@);
            &&& (analysis_outcome(edition, c, 0) == AnalysisKind::Model <==> r is ModelError)
            &&& (analysis_outcome(edition, c, 0) == AnalysisKind::Reject ==> r is Rejects)
            &&& (r matches DeclVerdict::Accepts(g) ==> analysis_outcome(edition, c, 0)
                == AnalysisKind::Accept && exists|
                ts: Seq<crate::fine_tokens::FineToken>,
                lowered_ts: Seq<crate::fine_tokens::FineToken>,
                ff: Forest<crate::fine_tokens::FineToken>,
                co: Forest<CoarseToken>,
            |
                #![trigger fine_chain_valid(edition, c, ts, 0), datas_of(lowered_ts), flat_data_forest(ff, 0), coarse_forest_view(co)]
                {
                    &&& fine_chain_valid(edition, c, ts, 0)
                    &&& concat_natural_extents(ts) == c
                    &&& views_of(lowered_ts) == lower_upto(edition, ts, ts.len() as int)
                    &&& flat_data_forest(ff, 0) == datas_of(lowered_ts)
                    &&& coarse_forest_view(co) == coarsen_whole(ff)
                    &&& stringified_forest(co, g)
                })
        }),
{
    let cleaned = clean_for_macro_input(input, edition);
    match analyse(&cleaned, edition) {
        Analysis::Accepts(_pretokens, tokens) => {
            proof {
                lemma_chain_bodies_small(edition, cleaned@, tokens@, 0);
            }
            let lowered = lower_doc_comments(&tokens, edition);
            match construct_forest(&lowered) {
                Ok(ff) => {
                    let co = coarsen(&ff);
                    DeclVerdict::Accepts(stringify_forest(&co))
                },
                Err(msg) => {
                    let mut v: Vec<String> = Vec::new();
                    v.push(msg);
                    DeclVerdict::Rejects(v)
                },
            }
        },
        Analysis::Rejects(reason) => DeclVerdict::Rejects(reason.into_description()),
        Analysis::ModelError(reason) => DeclVerdict::ModelError(reason.into_description()),
    }
}

} // verus!
