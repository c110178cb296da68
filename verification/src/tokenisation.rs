//! Lexical analysis: pretokenisation and reprocessing run over a whole
//! input, producing fine-grained tokens.

use vstd::prelude::*;
use crate::char_sequences::Charseq;
use crate::fine_tokens::{is_whitespace_spec, FineToken, FineTokenV};
use crate::pretokenisation::rules::MAX_INPUT_LENGTH;
use crate::pretokenisation::{chosen_data, chosen_len, chosen_match, lex_one_pretoken,
    lemma_chosen_data_small, no_longer_match, pretokens_valid_from, concat_pretoken_extents,
    lemma_pretokens_valid_push, priority_violation, LexOutcome, Pretoken};
use crate::reprocessing::{reprocess, reprocess_spec, Error, ReprocessOutcome};
use crate::tokens_common::OriginV;
use crate::Edition;

verus! {

/// The extent of a token that came from real source, or nothing for a
/// synthetic one.
pub open spec fn natural_extent(t: FineTokenV) -> Seq<char> {
    match t.origin {
        OriginV::Natural { extent } => extent,
        OriginV::Synthetic { .. } => Seq::<char>::empty(),
    }
}

/// The concatenation of the extents of the natural-origin tokens.
pub open spec fn concat_natural_extents(ts: Seq<FineToken>) -> Seq<char>
    decreases ts.len(),
{
    if ts.len() == 0 {
        Seq::<char>::empty()
    } else {
        natural_extent(ts[0]@) + concat_natural_extents(ts.skip(1))
    }
}

/// The fine tokens in `ts` are exactly what reprocessing the chosen matches
/// of `s` yields, one after another from position `pos`.
pub open spec fn fine_chain_valid(ed: Edition, s: Seq<char>, ts: Seq<FineToken>, pos: int) -> bool
    decreases ts.len(),
{
    if ts.len() == 0 {
        true
    } else {
        let l = chosen_len(ed, s, pos);
        &&& chosen_match(ed, s, pos) is Some
        &&& !priority_violation(ed, s, pos)
        &&& no_longer_match(ed, s, pos, l)
        &&& 1 <= l
        &&& pos + l <= s.len()
        &&& reprocess_spec(chosen_data(ed, s, pos)) == ReprocessOutcome::Token(ts[0]@.data)
        &&& ts[0]@.origin == (OriginV::Natural { extent: s.subrange(pos, pos + l) })
        &&& fine_chain_valid(ed, s, ts.skip(1), pos + l)
    }
}

/// Appending the token reprocessed from the chosen match at the chain's end
/// keeps the chain valid.
proof fn lemma_fine_chain_push(
    ed: Edition,
    s: Seq<char>,
    ts: Seq<FineToken>,
    pos: int,
    endpos: int,
    t: FineToken,
)
    requires
        0 <= pos,
        fine_chain_valid(ed, s, ts, pos),
        endpos == pos + concat_natural_extents(ts).len(),
        chosen_match(ed, s, endpos) is Some,
        !priority_violation(ed, s, endpos),
        no_longer_match(ed, s, endpos, chosen_len(ed, s, endpos)),
        1 <= chosen_len(ed, s, endpos),
        endpos + chosen_len(ed, s, endpos) <= s.len(),
        reprocess_spec(chosen_data(ed, s, endpos)) == ReprocessOutcome::Token(t@.data),
        t@.origin == (OriginV::Natural {
            extent: s.subrange(endpos, endpos + chosen_len(ed, s, endpos)),
        }),
    ensures
        fine_chain_valid(ed, s, ts.push(t), pos),
        concat_natural_extents(ts.push(t)) == concat_natural_extents(ts) + natural_extent(t@),
    decreases ts.len(),
{
    if ts.len() == 0 {
        assert(concat_natural_extents(ts).len() == 0);
        assert(endpos == pos);
        assert(ts.push(t) =~= seq![t]);
        assert(seq![t].skip(1) =~= Seq::<FineToken>::empty());
        assert(fine_chain_valid(ed, s, seq![t].skip(1), pos + chosen_len(ed, s, pos)));
        assert(fine_chain_valid(ed, s, ts.push(t), pos));
        assert(concat_natural_extents(seq![t]) == natural_extent(seq![t][0]@)
            + concat_natural_extents(seq![t].skip(1)));
        assert(concat_natural_extents(ts.push(t)) =~= concat_natural_extents(ts)
            + natural_extent(t@));
    } else {
        let l = chosen_len(ed, s, pos);
        assert(ts.push(t).skip(1) =~= ts.skip(1).push(t));
        assert(natural_extent(ts[0]@).len() == l);
        assert(concat_natural_extents(ts).len() == l + concat_natural_extents(ts.skip(1)).len());
        lemma_fine_chain_push(ed, s, ts.skip(1), pos + l, endpos, t);
        assert(concat_natural_extents(ts.push(t)) =~= concat_natural_extents(ts)
            + natural_extent(t@));
    }
}

/// What a full analysis of `s` from position `pos` yields.
#[derive(PartialEq, Eq, Structural, Copy, Clone, Debug)]
pub enum AnalysisKind {
    /// Every token is matched and reprocessed through to the end of the
    /// input.
    Accept,
    /// The input is not in the language: no rule matches at some point, or a
    /// pretoken is rejected.
    Reject,
    /// The rules are inconsistent at some point: a model error.
    Model,
}

/// The verdict of the analysis chain run from position `pos`.
pub open spec fn analysis_outcome(ed: Edition, s: Seq<char>, pos: int) -> AnalysisKind
    decreases s.len() - pos,
{
    if pos >= s.len() {
        AnalysisKind::Accept
    } else {
        match chosen_match(ed, s, pos) {
            None => AnalysisKind::Reject,
            Some(_) => {
                if priority_violation(ed, s, pos) {
                    AnalysisKind::Model
                } else {
                    match reprocess_spec(chosen_data(ed, s, pos)) {
                        ReprocessOutcome::Reject => AnalysisKind::Reject,
                        ReprocessOutcome::Model => AnalysisKind::Model,
                        ReprocessOutcome::Token(_) => {
                            let l = chosen_len(ed, s, pos);
                            if 1 <= l && pos + l <= s.len() {
                                analysis_outcome(ed, s, pos + l)
                            } else {
                                AnalysisKind::Model
                            }
                        },
                    }
                }
            },
        }
    }
}

/// Explanation of why and where input was rejected.
pub enum Reason {
    /// Rejected when trying to match a pretoken.
    ///
    /// The string describes the failure; the lists hold what was lexed
    /// before it.
    Matching(String, Vec<Pretoken>, Vec<FineToken>),
    /// Rejected when reprocessing a matched pretoken.
    ///
    /// The string describes the failure; the single pretoken is the one that
    /// was rejected, and the lists hold what was lexed before it.
    Processing(String, Pretoken, Vec<Pretoken>, Vec<FineToken>),
}

/// Result of running lexical analysis on a character sequence.
pub enum Analysis {
    /// Lexical analysis accepted the input: the matched pretokens, and the
    /// fine-grained tokens they were reprocessed into.
    Accepts(Vec<Pretoken>, Vec<FineToken>),
    /// Lexical analysis rejected the input.
    Rejects(Reason),
    /// The input demonstrated a problem in the lexer's own rules.
    ModelError(Reason),
}

/// Runs lexical analysis on the specified input.
///
/// The input is accepted exactly when pretoken matching and reprocessing
/// carry through to the end of the input; the extents of the accepted tokens
/// concatenate back to the input.
pub fn analyse(input: &Charseq, edition: Edition) -> (r: Analysis)
    requires
        input@.len() <= MAX_INPUT_LENGTH,
    ensures
        match r {
            Analysis::Accepts(pretokens, tokens) => {
                &&& analysis_outcome(edition, input@, 0) == AnalysisKind::Accept
                &&& fine_chain_valid(edition, input@, tokens@, 0)
                &&& concat_natural_extents(tokens@) == input@
                &&& pretokens_valid_from(edition, input@, pretokens@, 0)
                &&& concat_pretoken_extents(pretokens@) == input@
            },
            Analysis::Rejects(_) => analysis_outcome(edition, input@, 0) == AnalysisKind::Reject,
            Analysis::ModelError(_) => analysis_outcome(edition, input@, 0) == AnalysisKind::Model,
        },
{
    let s = input.chars();
    let mut pretokens: Vec<Pretoken> = Vec::new();
    let mut tokens: Vec<FineToken> = Vec::new();
    let mut pos: usize = 0;
    loop
        invariant
            pos <= s@.len() <= MAX_INPUT_LENGTH,
            s@ == input@,
            pretokens_valid_from(edition, input@, pretokens@, 0),
            concat_pretoken_extents(pretokens@).len() == pos,
            concat_pretoken_extents(pretokens@) == input@.subrange(0, pos as int),
            fine_chain_valid(edition, input@, tokens@, 0),
            concat_natural_extents(tokens@).len() == pos,
            concat_natural_extents(tokens@) == input@.subrange(0, pos as int),
            analysis_outcome(edition, input@, 0) == analysis_outcome(edition, input@, pos as int),
        decreases s@.len() - pos,
    {
        if pos >= s.len() {
            proof {
                assert(input@.subrange(0, pos as int) =~= input@);
            }
            return Analysis::Accepts(pretokens, tokens);
        }
        match lex_one_pretoken(edition, s, pos) {
            LexOutcome::Lexed(p) => {
                proof {
                    lemma_chosen_data_small(edition, input@, pos as int);
                }
                let l = p.extent.len();
                match reprocess(&p) {
                    Ok(t) => {
                        proof {
                            lemma_pretokens_valid_push(
                                edition,
                                input@,
                                pretokens@,
                                0,
                                pos as int,
                                p,
                            );
                            lemma_fine_chain_push(
                                edition,
                                input@,
                                tokens@,
                                0,
                                pos as int,
                                t,
                            );
                        }
                        pretokens.push(p);
                        tokens.push(t);
                        proof {
                            assert(concat_pretoken_extents(pretokens@) =~= input@.subrange(
                                0,
                                (pos + l) as int,
                            ));
                            assert(concat_natural_extents(tokens@) =~= input@.subrange(
                                0,
                                (pos + l) as int,
                            ));
                        }
                        pos = pos + l;
                    },
                    Err(Error::Rejected(msg)) => {
                        return Analysis::Rejects(Reason::Processing(msg, p, pretokens, tokens));
                    },
                    Err(Error::ModelError(msg)) => {
                        return Analysis::ModelError(Reason::Processing(msg, p, pretokens, tokens));
                    },
                }
            },
            LexOutcome::Failed => {
                return Analysis::Rejects(
                    Reason::Matching("no pretokenisation rule matched".to_owned(), pretokens, tokens),
                );
            },
            LexOutcome::ModelError => {
                return Analysis::ModelError(
                    Reason::Matching(
                        "rules matched multiple ways with surprising lengths".to_owned(),
                        pretokens,
                        tokens,
                    ),
                );
            },
        }
    }
}

} // verus!

verus! {

/// Whether the whole input is accepted as exactly one fine-grained token.
pub open spec fn accepts_as_single_token(ed: Edition, s: Seq<char>) -> bool {
    &&& s.len() >= 1
    &&& chosen_match(ed, s, 0) is Some
    &&& !priority_violation(ed, s, 0)
    &&& chosen_len(ed, s, 0) == s.len()
    &&& reprocess_spec(chosen_data(ed, s, 0)) is Token
}

/// Runs lexical analysis, expecting to find a single token.
///
/// If the complete input is accepted as a single token, returns that
/// (fine-grained) token; otherwise returns nothing.
pub fn lex_as_single_token(input: &Charseq, edition: Edition) -> (r: Option<FineToken>)
    requires
        input@.len() <= MAX_INPUT_LENGTH,
    ensures
        match r {
            Some(t) => accepts_as_single_token(edition, input@) && reprocess_spec(
                chosen_data(edition, input@, 0),
            ) == ReprocessOutcome::Token(t@.data) && t@.origin == (OriginV::Natural {
                extent: input@,
            }),
            None => !accepts_as_single_token(edition, input@),
        },
{
    let s = input.chars();
    if s.len() == 0 {
        return None;
    }
    match lex_one_pretoken(edition, s, 0) {
        LexOutcome::Lexed(p) => {
            if p.extent.len() != s.len() {
                return None;
            }
            proof {
                lemma_chosen_data_small(edition, input@, 0);
                assert(input@.subrange(0, input@.len() as int) =~= input@);
            }
            match reprocess(&p) {
                Ok(t) => Some(t),
                Err(_) => None,
            }
        },
        _ => None,
    }
}

/// Where the first non-whitespace fine token of the input lies.
pub enum FirstToken {
    /// Lexing reached the end of the input, or could not continue, without
    /// finding a non-whitespace token.
    Missing,
    /// The first non-whitespace token's position and length.
    At(int, int),
}

/// The position and length of the first non-whitespace fine token at or
/// after `pos`, where lexing carries that far.
pub open spec fn first_nonws_token(ed: Edition, s: Seq<char>, pos: int) -> FirstToken
    decreases s.len() - pos,
{
    if pos >= s.len() {
        FirstToken::Missing
    } else {
        match chosen_match(ed, s, pos) {
            None => FirstToken::Missing,
            Some(_) => {
                if priority_violation(ed, s, pos) {
                    FirstToken::Missing
                } else {
                    match reprocess_spec(chosen_data(ed, s, pos)) {
                        ReprocessOutcome::Reject => FirstToken::Missing,
                        ReprocessOutcome::Model => FirstToken::Missing,
                        ReprocessOutcome::Token(d) => {
                            let l = chosen_len(ed, s, pos);
                            if is_whitespace_spec(d) {
                                if 1 <= l && pos + l <= s.len() {
                                    first_nonws_token(ed, s, pos + l)
                                } else {
                                    FirstToken::Missing
                                }
                            } else {
                                FirstToken::At(pos, l as int)
                            }
                        },
                    }
                }
            },
        }
    }
}

/// Returns the first non-whitespace token in the input.
///
/// For this purpose, comment tokens other than doc-comments count as
/// whitespace.  Returns nothing if there is no such token, or if lexing
/// cannot reach one.
pub fn first_nonwhitespace_token(input: &Charseq, edition: Edition) -> (r: Option<FineToken>)
    requires
        input@.len() <= MAX_INPUT_LENGTH,
    ensures
        match r {
            Some(t) => {
                &&& first_nonws_token(edition, input@, 0) matches FirstToken::At(p0, l0)
                &&& reprocess_spec(chosen_data(edition, input@, first_nonws_token(edition, input@, 0)->At_0))
                    == ReprocessOutcome::Token(t@.data)
                &&& !is_whitespace_spec(t@.data)
            },
            None => first_nonws_token(edition, input@, 0) is Missing,
        },
{
    let s = input.chars();
    let mut pos: usize = 0;
    loop
        invariant
            pos <= s@.len() <= MAX_INPUT_LENGTH,
            s@ == input@,
            first_nonws_token(edition, input@, 0) == first_nonws_token(
                edition,
                input@,
                pos as int,
            ),
        decreases s@.len() - pos,
    {
        if pos >= s.len() {
            return None;
        }
        match lex_one_pretoken(edition, s, pos) {
            LexOutcome::Lexed(p) => {
                proof {
                    lemma_chosen_data_small(edition, input@, pos as int);
                }
                let l = p.extent.len();
                match reprocess(&p) {
                    Ok(t) => {
                        if t.data.is_whitespace() {
                            pos = pos + l;
                        } else {
                            return Some(t);
                        }
                    },
                    Err(_) => {
                        return None;
                    },
                }
            },
            _ => {
                return None;
            },
        }
    }
}

} // verus!

verus! {

impl Reason {
    /// Describes a rejection or problem as a list of lines.
    pub fn into_description(self) -> (r: Vec<String>)
        ensures
            r@.len() >= 1,
    {
        match self {
            Reason::Matching(msg, _, _) => {
                let mut v: Vec<String> = Vec::new();
                v.push(msg);
                v
            },
            Reason::Processing(msg, _, _, _) => {
                let mut v: Vec<String> = Vec::new();
                v.push(msg);
                v
            },
        }
    }
}

} // verus!
