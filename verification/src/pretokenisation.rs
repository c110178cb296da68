//! Step 1 (pretokenisation) of lexical analysis.
//!
//! A pretokeniser rule list, in priority order, is fixed for each edition.
//! At each position every rule is tried; the first success is chosen, and the
//! chosen match must be at least as long as every other rule's match (the one
//! allowed exception: a non-decimal numeric form may tie with a decimal
//! integer form).  A longer non-chosen match is reported as a model error.

use vstd::prelude::*;
use crate::char_sequences::Charseq;
use crate::tokens_common::NumericBase;
use crate::Edition;

pub mod rules;

verus! {

/// A pretoken: the record of one successful match at the current position.
pub struct Pretoken {
    /// The pretoken's kind and attributes.
    pub data: PretokenData,
    /// The input characters which make up the pretoken.
    pub extent: Charseq,
}

/// A pretoken's kind and attributes.
pub enum PretokenData {
    /// A form matched only in order to be rejected.
    Reserved,
    Whitespace,
    LineComment { comment_content: Charseq },
    BlockComment { comment_content: Charseq },
    Punctuation { mark: char },
    Ident { identifier: Charseq },
    RawIdent { identifier: Charseq },
    LifetimeOrLabel { name: Charseq },
    RawLifetimeOrLabel { name: Charseq },
    SingleQuotedLiteral { prefix: Charseq, literal_content: Charseq, suffix: Charseq },
    DoubleQuotedLiteral { prefix: Charseq, literal_content: Charseq, suffix: Charseq },
    RawDoubleQuotedLiteral { prefix: Charseq, literal_content: Charseq, suffix: Charseq },
    IntegerLiteral { base: NumericBase, digits: Charseq, suffix: Charseq },
    FloatLiteral { body: Charseq, suffix: Charseq },
}

/// The mathematical value of a [`Pretoken`].
pub struct PretokenV {
    pub data: PretokenDataV,
    pub extent: Seq<char>,
}

/// The mathematical value of a [`PretokenData`].
pub enum PretokenDataV {
    Reserved,
    Whitespace,
    LineComment { comment_content: Seq<char> },
    BlockComment { comment_content: Seq<char> },
    Punctuation { mark: char },
    Ident { identifier: Seq<char> },
    RawIdent { identifier: Seq<char> },
    LifetimeOrLabel { name: Seq<char> },
    RawLifetimeOrLabel { name: Seq<char> },
    SingleQuotedLiteral { prefix: Seq<char>, literal_content: Seq<char>, suffix: Seq<char> },
    DoubleQuotedLiteral { prefix: Seq<char>, literal_content: Seq<char>, suffix: Seq<char> },
    RawDoubleQuotedLiteral { prefix: Seq<char>, literal_content: Seq<char>, suffix: Seq<char> },
    IntegerLiteral { base: NumericBase, digits: Seq<char>, suffix: Seq<char> },
    FloatLiteral { body: Seq<char>, suffix: Seq<char> },
}

impl View for PretokenData {
    type V = PretokenDataV;

    open spec fn view(&self) -> PretokenDataV {
        match self {
            PretokenData::Reserved => PretokenDataV::Reserved,
            PretokenData::Whitespace => PretokenDataV::Whitespace,
            PretokenData::LineComment { comment_content } => PretokenDataV::LineComment {
                comment_content: comment_content@,
            },
            PretokenData::BlockComment { comment_content } => PretokenDataV::BlockComment {
                comment_content: comment_content@,
            },
            PretokenData::Punctuation { mark } => PretokenDataV::Punctuation { mark: *mark },
            PretokenData::Ident { identifier } => PretokenDataV::Ident {
                identifier: identifier@,
            },
            PretokenData::RawIdent { identifier } => PretokenDataV::RawIdent {
                identifier: identifier@,
            },
            PretokenData::LifetimeOrLabel { name } => PretokenDataV::LifetimeOrLabel {
                name: name@,
            },
            PretokenData::RawLifetimeOrLabel { name } => PretokenDataV::RawLifetimeOrLabel {
                name: name@,
            },
            PretokenData::SingleQuotedLiteral { prefix, literal_content, suffix } => {
                PretokenDataV::SingleQuotedLiteral {
                    prefix: prefix@,
                    literal_content: literal_content@,
                    suffix: suffix@,
                }
            },
            PretokenData::DoubleQuotedLiteral { prefix, literal_content, suffix } => {
                PretokenDataV::DoubleQuotedLiteral {
                    prefix: prefix@,
                    literal_content: literal_content@,
                    suffix: suffix@,
                }
            },
            PretokenData::RawDoubleQuotedLiteral { prefix, literal_content, suffix } => {
                PretokenDataV::RawDoubleQuotedLiteral {
                    prefix: prefix@,
                    literal_content: literal_content@,
                    suffix: suffix@,
                }
            },
            PretokenData::IntegerLiteral { base, digits, suffix } => {
                PretokenDataV::IntegerLiteral { base: *base, digits: digits@, suffix: suffix@ }
            },
            PretokenData::FloatLiteral { body, suffix } => PretokenDataV::FloatLiteral {
                body: body@,
                suffix: suffix@,
            },
        }
    }
}

impl View for Pretoken {
    type V = PretokenV;

    open spec fn view(&self) -> PretokenV {
        PretokenV { data: self.data@, extent: self.extent@ }
    }
}

} // verus!

verus! {

use crate::pretokenisation::rules::{apply_rule, edition_rules, edition_rules_vec,
    is_nondecimal_numeric_rule, nondecimal_numeric_rule, rule_result, slice_charseq, RuleId,
    MAX_INPUT_LENGTH};

// --- choosing among the rules --------------------------------------------------

/// The index, in the edition's rule list, of the first rule at or after `k`
/// which matches at position `i`.
pub open spec fn first_match_from(ed: Edition, s: Seq<char>, i: int, k: int) -> Option<int>
    decreases edition_rules(ed).len() - k,
{
    let rules = edition_rules(ed);
    if k < 0 || k >= rules.len() {
        None
    } else if rule_result(ed, rules[k], s, i) is Some {
        Some(k)
    } else {
        first_match_from(ed, s, i, k + 1)
    }
}

/// The chosen match at position `i`: the first rule in priority order which
/// matches, with its consumed length and pretoken attributes.
pub open spec fn chosen_match(ed: Edition, s: Seq<char>, i: int) -> Option<
    (RuleId, nat, PretokenDataV),
> {
    match first_match_from(ed, s, i, 0) {
        Some(k) => {
            let r = edition_rules(ed)[k];
            match rule_result(ed, r, s, i) {
                Some((l, d)) => Some((r, l, d)),
                None => None,
            }
        },
        None => None,
    }
}

/// The length consumed by the chosen match at position `i`.
pub open spec fn chosen_len(ed: Edition, s: Seq<char>, i: int) -> nat {
    match chosen_match(ed, s, i) {
        Some((_, l, _)) => l,
        None => 0,
    }
}

/// The pretoken attributes of the chosen match at position `i`.
pub open spec fn chosen_data(ed: Edition, s: Seq<char>, i: int) -> PretokenDataV {
    match chosen_match(ed, s, i) {
        Some((_, _, d)) => d,
        None => PretokenDataV::Reserved,
    }
}

/// The length matched by the rule at index `k` of the edition's list, at
/// position `i`.
pub open spec fn rule_len_at(ed: Edition, s: Seq<char>, i: int, k: int) -> Option<nat> {
    match rule_result(ed, edition_rules(ed)[k], s, i) {
        Some((l, _)) => Some(l),
        None => None,
    }
}

/// Whether the rule at index `k` matches at least as long as the chosen
/// length `l0` without being the allowed exception: a decimal-integer match
/// of exactly the chosen length, where the chosen rule `r0` is a non-decimal
/// numeric form.
pub open spec fn bad_rival(ed: Edition, s: Seq<char>, i: int, k: int, r0: RuleId, l0: nat) -> bool {
    match rule_len_at(ed, s, i, k) {
        Some(l2) => l2 > l0 || (l2 == l0 && !(edition_rules(ed)[k] == RuleId::IntegerDecimal
            && nondecimal_numeric_rule(r0))),
        None => false,
    }
}

/// Whether the choice at position `i` breaks the longest-match principle:
/// some rule after the chosen one matches strictly longer, or exactly as long
/// outside the allowed decimal-integer exception.
pub open spec fn priority_violation(ed: Edition, s: Seq<char>, i: int) -> bool {
    match first_match_from(ed, s, i, 0) {
        Some(k0) => match rule_result(ed, edition_rules(ed)[k0], s, i) {
            Some((l0, _)) => exists|k: int|
                k0 < k < edition_rules(ed).len() && bad_rival(
                    ed,
                    s,
                    i,
                    k,
                    edition_rules(ed)[k0],
                    l0,
                ),
            None => false,
        },
        None => false,
    }
}

/// The rule at index `k` matches no longer than `l0` at position `i`.
pub open spec fn rival_le(ed: Edition, s: Seq<char>, i: int, k: int, l0: nat) -> bool {
    match rule_len_at(ed, s, i, k) {
        Some(l2) => l2 <= l0,
        None => true,
    }
}

/// No rule matches longer than `l0` at position `i`.
pub open spec fn no_longer_match(ed: Edition, s: Seq<char>, i: int, l0: nat) -> bool {
    forall|k: int| 0 <= k < edition_rules(ed).len() ==> #[trigger] rival_le(ed, s, i, k, l0)
}

/// Result of a single attempt to match a pretoken.
pub enum LexOutcome {
    /// A rule matched a prefix of the input, and the choice was sound.
    Lexed(Pretoken),
    /// No rule matched at the current position.
    Failed,
    /// A rule other than the chosen one matched at least as long, outside the
    /// allowed exception: the rules are inconsistent.
    ModelError,
}

/// Returns the first rule index at or after `k` which matches at `i`, with
/// the match.
fn find_first_match(ed: Edition, rules: &Vec<RuleId>, s: &Vec<char>, i: usize, k: usize) -> (r:
    Option<(usize, usize, PretokenData)>)
    requires
        i < s@.len() <= MAX_INPUT_LENGTH,
        rules@ == edition_rules(ed),
        k <= rules@.len(),
    ensures
        match r {
            Some((k0, l, d)) => {
                &&& first_match_from(ed, s@, i as int, k as int) == Some(k0 as int)
                &&& k <= k0 < rules@.len()
                &&& rule_result(ed, rules@[k0 as int], s@, i as int) == Some((l as nat, d@))
                &&& 1 <= l
                &&& i + l <= s@.len()
            },
            None => first_match_from(ed, s@, i as int, k as int) is None,
        },
    decreases rules@.len() - k,
{
    if k >= rules.len() {
        None
    } else {
        match apply_rule(ed, rules[k], s, i) {
            Some((l, d)) => Some((k, l, d)),
            None => find_first_match(ed, rules, s, i, k + 1),
        }
    }
}

/// Says whether some rule at or after index `k` rivals the chosen match.
fn scan_rivals(
    ed: Edition,
    rules: &Vec<RuleId>,
    s: &Vec<char>,
    i: usize,
    k: usize,
    r0: RuleId,
    l0: usize,
) -> (bad: bool)
    requires
        i < s@.len() <= MAX_INPUT_LENGTH,
        rules@ == edition_rules(ed),
        k <= rules@.len(),
    ensures
        bad == exists|j: int| k <= j < rules@.len() && bad_rival(ed, s@, i as int, j, r0, l0 as nat),
        !bad ==> forall|j: int|
            k <= j < rules@.len() ==> #[trigger] rival_le(ed, s@, i as int, j, l0 as nat),
    decreases rules@.len() - k,
{
    if k >= rules.len() {
        false
    } else {
        let this_bad: bool = match apply_rule(ed, rules[k], s, i) {
            Some((l2, _)) => l2 > l0 || (l2 == l0 && !(rules[k] == RuleId::IntegerDecimal
                && is_nondecimal_numeric_rule(r0))),
            None => false,
        };
        if this_bad {
            proof {
                assert(bad_rival(ed, s@, i as int, k as int, r0, l0 as nat));
            }
            true
        } else {
            scan_rivals(ed, rules, s, i, k + 1, r0, l0)
        }
    }
}

/// Extracts the next pretoken from the input at position `i`.
///
/// Applies each of the edition's rules; the first success, in priority order,
/// is chosen.  Reports a model error if a rule after the chosen one matched
/// as long or longer (this checks that priority-based and longest-match-based
/// formulations agree), except that a decimal-integer match may tie with a
/// chosen non-decimal numeric form.
pub fn lex_one_pretoken(ed: Edition, s: &Vec<char>, i: usize) -> (r: LexOutcome)
    requires
        i < s@.len() <= MAX_INPUT_LENGTH,
    ensures
        match r {
            LexOutcome::Lexed(p) => {
                &&& chosen_match(ed, s@, i as int) is Some
                &&& 1 <= chosen_len(ed, s@, i as int)
                &&& i + chosen_len(ed, s@, i as int) <= s@.len()
                &&& p@.extent == s@.subrange(i as int, i + chosen_len(ed, s@, i as int))
                &&& p@.data == chosen_data(ed, s@, i as int)
                &&& !priority_violation(ed, s@, i as int)
                &&& no_longer_match(ed, s@, i as int, chosen_len(ed, s@, i as int))
            },
            LexOutcome::Failed => chosen_match(ed, s@, i as int) is None,
            LexOutcome::ModelError => priority_violation(ed, s@, i as int),
        },
{
    let rules = edition_rules_vec(ed);
    match find_first_match(ed, &rules, s, i, 0) {
        None => LexOutcome::Failed,
        Some((k0, l0, d0)) => {
            let bad = scan_rivals(ed, &rules, s, i, k0 + 1, rules[k0], l0);
            if bad {
                LexOutcome::ModelError
            } else {
                let extent = slice_charseq(s, i, i + l0);
                proof {
                    assert forall|j: int|
                        0 <= j < edition_rules(ed).len() implies #[trigger] rival_le(
                        ed,
                        s@,
                        i as int,
                        j,
                        l0 as nat,
                    ) by {
                        if j < k0 {
                            lemma_first_match_none_before(ed, s@, i as int, 0, j);
                        }
                    }
                }
                LexOutcome::Lexed(Pretoken { data: d0, extent })
            }
        },
    }
}

/// Every rule strictly before the first match fails to match.
proof fn lemma_first_match_none_before(ed: Edition, s: Seq<char>, i: int, k: int, j: int)
    requires
        0 <= k <= j,
        first_match_from(ed, s, i, k) is Some,
        j < first_match_from(ed, s, i, k).unwrap(),
    ensures
        rule_result(ed, edition_rules(ed)[j], s, i) is None,
    decreases j - k,
{
    if k < j {
        lemma_first_match_none_before(ed, s, i, k + 1, j);
    }
}

} // verus!

verus! {

// --- pretokenising a whole input --------------------------------------------------

/// The concatenation of the extents of a sequence of pretokens.
pub open spec fn concat_pretoken_extents(ps: Seq<Pretoken>) -> Seq<char>
    decreases ps.len(),
{
    if ps.len() == 0 {
        Seq::<char>::empty()
    } else {
        ps[0]@.extent + concat_pretoken_extents(ps.skip(1))
    }
}

/// The pretokens in `ps` are exactly the chosen matches of `s`, one after
/// another from position `pos`, each sound for the longest-match principle.
pub open spec fn pretokens_valid_from(ed: Edition, s: Seq<char>, ps: Seq<Pretoken>, pos: int) -> bool
    decreases ps.len(),
{
    if ps.len() == 0 {
        true
    } else {
        let l = chosen_len(ed, s, pos);
        &&& chosen_match(ed, s, pos) is Some
        &&& !priority_violation(ed, s, pos)
        &&& no_longer_match(ed, s, pos, l)
        &&& 1 <= l
        &&& pos + l <= s.len()
        &&& ps[0]@.extent == s.subrange(pos, pos + l)
        &&& ps[0]@.data == chosen_data(ed, s, pos)
        &&& pretokens_valid_from(ed, s, ps.skip(1), pos + l)
    }
}

/// Appending the chosen match at the chain's end keeps the chain valid.
pub proof fn lemma_pretokens_valid_push(
    ed: Edition,
    s: Seq<char>,
    ps: Seq<Pretoken>,
    pos: int,
    endpos: int,
    p: Pretoken,
)
    requires
        0 <= pos,
        pretokens_valid_from(ed, s, ps, pos),
        endpos == pos + concat_pretoken_extents(ps).len(),
        chosen_match(ed, s, endpos) is Some,
        !priority_violation(ed, s, endpos),
        no_longer_match(ed, s, endpos, chosen_len(ed, s, endpos)),
        1 <= chosen_len(ed, s, endpos),
        endpos + chosen_len(ed, s, endpos) <= s.len(),
        p@.extent == s.subrange(endpos, endpos + chosen_len(ed, s, endpos)),
        p@.data == chosen_data(ed, s, endpos),
    ensures
        pretokens_valid_from(ed, s, ps.push(p), pos),
        concat_pretoken_extents(ps.push(p)) == concat_pretoken_extents(ps) + p@.extent,
    decreases ps.len(),
{
    if ps.len() == 0 {
        assert(concat_pretoken_extents(ps).len() == 0);
        assert(endpos == pos);
        assert(ps.push(p) =~= seq![p]);
        assert(seq![p].skip(1) =~= Seq::<Pretoken>::empty());
        assert(pretokens_valid_from(ed, s, seq![p].skip(1), pos + chosen_len(ed, s, pos)));
        assert(pretokens_valid_from(ed, s, ps.push(p), pos));
        assert(ps.push(p) == seq![p]);
        assert(concat_pretoken_extents(seq![p]) == seq![p][0]@.extent + concat_pretoken_extents(
            seq![p].skip(1),
        ));
        assert(concat_pretoken_extents(seq![p].skip(1)) == Seq::<char>::empty());
        assert(concat_pretoken_extents(ps.push(p)) =~= concat_pretoken_extents(ps) + p@.extent);
    } else {
        let l = chosen_len(ed, s, pos);
        assert(ps.push(p).skip(1) =~= ps.skip(1).push(p));
        assert(ps[0]@.extent.len() == l);
        assert(concat_pretoken_extents(ps).len() == l + concat_pretoken_extents(ps.skip(1)).len());
        lemma_pretokens_valid_push(ed, s, ps.skip(1), pos + l, endpos, p);
        assert(concat_pretoken_extents(ps.push(p)) =~= concat_pretoken_extents(ps) + p@.extent);
    }
}

/// How a run over the whole input ended.
#[derive(Copy, Clone, PartialEq, Eq, Structural, Debug)]
pub enum PretokeniseEnd {
    /// The pretokens cover the whole input.
    Complete,
    /// No rule matched at the position after the pretokens found.
    NoRuleMatched,
    /// The rules were found inconsistent at the position after the pretokens
    /// found: a model error.
    PriorityViolation,
}

/// The pretokens found before lexing stopped, and why it stopped.
pub struct PretokeniseResult {
    pub pretokens: Vec<Pretoken>,
    pub end: PretokeniseEnd,
}

/// Runs step 1 (pretokenisation) of lexical analysis on the whole input.
///
/// Pretokens are extracted one at a time from the front of the remaining
/// input; their extents concatenate to the consumed prefix.  The run ends
/// when the input is exhausted, when no rule matches, or when the rules are
/// found inconsistent.
pub fn pretokenise(input: &Charseq, edition: Edition) -> (r: PretokeniseResult)
    requires
        input@.len() <= MAX_INPUT_LENGTH,
    ensures
        pretokens_valid_from(edition, input@, r.pretokens@, 0),
        concat_pretoken_extents(r.pretokens@).len() <= input@.len(),
        concat_pretoken_extents(r.pretokens@) == input@.subrange(
            0,
            concat_pretoken_extents(r.pretokens@).len() as int,
        ),
        match r.end {
            PretokeniseEnd::Complete => concat_pretoken_extents(r.pretokens@).len()
                == input@.len(),
            PretokeniseEnd::NoRuleMatched => {
                let endpos = concat_pretoken_extents(r.pretokens@).len() as int;
                endpos < input@.len() && chosen_match(edition, input@, endpos) is None
            },
            PretokeniseEnd::PriorityViolation => {
                let endpos = concat_pretoken_extents(r.pretokens@).len() as int;
                endpos < input@.len() && priority_violation(edition, input@, endpos)
            },
        },
{
    let s = input.chars();
    let mut pretokens: Vec<Pretoken> = Vec::new();
    let mut pos: usize = 0;
    loop
        invariant
            pos <= s@.len() <= MAX_INPUT_LENGTH,
            s@ == input@,
            pretokens_valid_from(edition, input@, pretokens@, 0),
            concat_pretoken_extents(pretokens@).len() == pos,
            concat_pretoken_extents(pretokens@) == input@.subrange(0, pos as int),
        decreases s@.len() - pos,
    {
        if pos >= s.len() {
            return PretokeniseResult { pretokens, end: PretokeniseEnd::Complete };
        }
        match lex_one_pretoken(edition, s, pos) {
            LexOutcome::Lexed(p) => {
                proof {
                    lemma_pretokens_valid_push(
                        edition,
                        input@,
                        pretokens@,
                        0,
                        pos as int,
                        p,
                    );
                }
                let l = p.extent.len();
                pretokens.push(p);
                proof {
                    assert(concat_pretoken_extents(pretokens@) =~= input@.subrange(
                        0,
                        (pos + l) as int,
                    ));
                }
                pos = pos + l;
            },
            LexOutcome::Failed => {
                return PretokeniseResult { pretokens, end: PretokeniseEnd::NoRuleMatched };
            },
            LexOutcome::ModelError => {
                return PretokeniseResult { pretokens, end: PretokeniseEnd::PriorityViolation };
            },
        }
    }
}

} // verus!

verus! {

use crate::pretokenisation::rules::{r_block_comment, r_double_quoted, r_float_exponent,
    r_float_final_dot, r_float_no_exponent, r_hashed_raw, r_hashless_raw, r_ident, r_int_binary,
    r_int_decimal, r_int_hexadecimal, r_int_octal, r_lifetime, r_line_comment, r_punctuation,
    r_raw_ident, r_raw_lifetime, r_reserved_float_based, r_reserved_float_empty_exponent,
    r_reserved_guard, r_reserved_lifetime_prefix, r_reserved_prefix, r_single_quoted,
    r_unterminated_block_comment, r_whitespace};

/// Every character sequence in the pretoken's attributes has length at most
/// `n`.
pub open spec fn pretoken_data_small(d: PretokenDataV, n: int) -> bool {
    match d {
        PretokenDataV::Reserved => true,
        PretokenDataV::Whitespace => true,
        PretokenDataV::LineComment { comment_content } => comment_content.len() <= n,
        PretokenDataV::BlockComment { comment_content } => comment_content.len() <= n,
        PretokenDataV::Punctuation { .. } => true,
        PretokenDataV::Ident { identifier } => identifier.len() <= n,
        PretokenDataV::RawIdent { identifier } => identifier.len() <= n,
        PretokenDataV::LifetimeOrLabel { name } => name.len() <= n,
        PretokenDataV::RawLifetimeOrLabel { name } => name.len() <= n,
        PretokenDataV::SingleQuotedLiteral { prefix, literal_content, suffix } => prefix.len() <= n
            && literal_content.len() <= n && suffix.len() <= n,
        PretokenDataV::DoubleQuotedLiteral { prefix, literal_content, suffix } => prefix.len() <= n
            && literal_content.len() <= n && suffix.len() <= n,
        PretokenDataV::RawDoubleQuotedLiteral { prefix, literal_content, suffix } => prefix.len()
            <= n && literal_content.len() <= n && suffix.len() <= n,
        PretokenDataV::IntegerLiteral { digits, suffix, .. } => digits.len() <= n && suffix.len()
            <= n,
        PretokenDataV::FloatLiteral { body, suffix } => body.len() <= n && suffix.len() <= n,
    }
}

/// Identifier and suffix scans stay within the input.
proof fn lemma_scan_bounds(s: Seq<char>, j: int)
    requires
        0 <= j <= s.len(),
    ensures
        rules::suffix_q(s, j) <= s.len() - j,
        rules::suffix_ne(s, j) <= s.len() - j,
        rules::suffix_nh(s, j) <= s.len() - j,
        rules::suffix_exp(s, j) <= s.len() - j,
        match rules::ident_len(s, j) {
            Some(n) => n <= s.len() - j,
            None => true,
        },
{
    if j < s.len() {
        rules::lemma_run_len_le(s, j + 1, rules::p_xid_continue());
    }
}

/// What a rule matches carries only pieces of the input, so its attribute
/// sequences are no longer than the input.
#[verifier::rlimit(60)]
pub proof fn lemma_rule_data_small(ed: Edition, r: RuleId, s: Seq<char>, i: int)
    requires
        0 <= i <= s.len(),
    ensures
        match rules::rule_result(ed, r, s, i) {
            Some((l, d)) => pretoken_data_small(d, s.len() as int),
            None => true,
        },
{
    reveal(rules::rule_result);
    let n = s.len() as int;
    match r {
        RuleId::LineComment => {
            if i + 2 <= n {
                rules::lemma_run_len_le(s, i + 2, rules::p_not_nl());
            }
        },
        RuleId::BlockComment => {
            if i + 2 <= n {
                rules::lemma_block_comment_end_bounds(s, i + 2, 1);
            }
        },
        RuleId::SingleQuoted => {
            if i < n {
                let p: int = if s[i] == 'b' {
                    1
                } else {
                    0
                };
                let c0 = i + p + 1;
                if c0 + 2 <= n {
                    lemma_scan_bounds(s, c0 + 2);
                    rules::lemma_run_len_le(s, c0 + 2, rules::p_not_sq());
                    let k = rules::run_len(s, c0 + 2, rules::p_not_sq());
                    if c0 + 2 + k + 1 <= n {
                        lemma_scan_bounds(s, c0 + 2 + k + 1);
                    }
                }
            }
        },
        RuleId::RawLifetimeOrLabel => {
            if i + 3 <= n {
                lemma_scan_bounds(s, i + 3);
            }
        },
        RuleId::ReservedLifetimeOrLabelPrefix => {
            if i + 1 <= n {
                lemma_scan_bounds(s, i + 1);
            }
        },
        RuleId::LifetimeOrLabel => {
            if i + 1 <= n {
                lemma_scan_bounds(s, i + 1);
            }
        },
        RuleId::DoubleQuoted => {
            if i < n {
                let p: int = if rules::dq_prefix_char(ed, s[i]) {
                    1
                } else {
                    0
                };
                if i + p + 1 <= n {
                    rules::lemma_dq_content_end_bounds(s, i + p + 1);
                    match rules::dq_content_end(s, i + p + 1) {
                        Some(e) => {
                            lemma_scan_bounds(s, e + 1);
                        },
                        None => {},
                    }
                }
            }
        },
        RuleId::HashlessRaw => {
            match rules::raw_prefix_len(ed, s, i) {
                Some(p) => {
                    if i + p + 1 <= n {
                        rules::lemma_run_len_le(s, i + p + 1, rules::p_not_dq());
                        let k = rules::run_len(s, i + p + 1, rules::p_not_dq());
                        if i + p + 1 + k + 1 <= n {
                            lemma_scan_bounds(s, i + p + 1 + k + 1);
                        }
                    }
                },
                None => {},
            }
        },
        RuleId::HashedRaw => {
            match rules::raw_prefix_len(ed, s, i) {
                Some(p) => {
                    rules::lemma_run_len_le(s, i + p, rules::p_hash());
                    let h = rules::run_len(s, i + p, rules::p_hash());
                    if i + p + h + 1 <= n {
                        rules::lemma_raw_content_end_bounds(s, i + p + h + 1, h);
                        match rules::raw_content_end(s, i + p + h + 1, h) {
                            Some(e) => {
                                lemma_scan_bounds(s, e + 1 + h);
                            },
                            None => {},
                        }
                    }
                },
                None => {},
            }
        },
        RuleId::FloatWithExponent => {
            if i < n {
                rules::lemma_run_len_le(s, i + 1, rules::p_dec_us());
                let q = i + 1 + rules::run_len(s, i + 1, rules::p_dec_us());
                if q + 2 <= n {
                    rules::lemma_run_len_le(s, q + 2, rules::p_dec_us());
                }
                let q2 = q + rules::float_frac_len(s, q);
                if q2 < n {
                    let sg: int = if q2 + 1 < n && (s[q2 + 1] == '+' || s[q2 + 1] == '-') {
                        1
                    } else {
                        0
                    };
                    if q2 + 1 + sg <= n {
                        rules::lemma_run_len_le(s, q2 + 1 + sg, rules::p_dec_us());
                        let e = rules::run_len(s, q2 + 1 + sg, rules::p_dec_us());
                        lemma_scan_bounds(s, q2 + 1 + sg + e);
                    }
                }
            }
        },
        RuleId::FloatWithoutExponent => {
            if i < n {
                rules::lemma_run_len_le(s, i + 1, rules::p_dec_us());
                let q = i + 1 + rules::run_len(s, i + 1, rules::p_dec_us());
                if q + 2 <= n {
                    rules::lemma_run_len_le(s, q + 2, rules::p_dec_us());
                }
                let f = rules::float_frac_len(s, q);
                if 0 <= q + f <= n {
                    lemma_scan_bounds(s, q + f);
                }
            }
        },
        RuleId::FloatWithFinalDot => {
            if i < n {
                rules::lemma_run_len_le(s, i + 1, rules::p_dec_us());
            }
        },
        RuleId::IntegerBinary => {
            if i + 2 <= n {
                rules::lemma_run_len_le(s, i + 2, rules::p_dec_us());
                let d = rules::run_len(s, i + 2, rules::p_dec_us());
                lemma_scan_bounds(s, i + 2 + d);
            }
        },
        RuleId::IntegerOctal => {
            if i + 2 <= n {
                rules::lemma_run_len_le(s, i + 2, rules::p_dec_us());
                let d = rules::run_len(s, i + 2, rules::p_dec_us());
                lemma_scan_bounds(s, i + 2 + d);
            }
        },
        RuleId::IntegerHexadecimal => {
            if i + 2 <= n {
                rules::lemma_run_len_le(s, i + 2, rules::p_hex_us());
                let d = rules::run_len(s, i + 2, rules::p_hex_us());
                lemma_scan_bounds(s, i + 2 + d);
            }
        },
        RuleId::IntegerDecimal => {
            if i < n {
                rules::lemma_run_len_le(s, i + 1, rules::p_dec_us());
                let d = 1 + rules::run_len(s, i + 1, rules::p_dec_us());
                lemma_scan_bounds(s, i + d);
            }
        },
        RuleId::RawIdentifier => {
            if i + 2 <= n {
                lemma_scan_bounds(s, i + 2);
            }
        },
        RuleId::NonrawIdentifier => {
            lemma_scan_bounds(s, i);
        },
        _ => {},
    }
}

/// The chosen match's attribute sequences are no longer than the input.
pub proof fn lemma_chosen_data_small(ed: Edition, s: Seq<char>, i: int)
    requires
        0 <= i <= s.len(),
        chosen_match(ed, s, i) is Some,
    ensures
        pretoken_data_small(chosen_data(ed, s, i), s.len() as int),
{
    match first_match_from(ed, s, i, 0) {
        Some(k) => {
            lemma_rule_data_small(ed, edition_rules(ed)[k], s, i);
        },
        None => {},
    }
}

} // verus!
