//! The pretokenisation rules: one matcher per token-kind form.
//!
//! Each rule is specified by a spec function giving, at a position in the
//! input, the matched length and the pretoken attributes, or nothing where the
//! rule does not match.  The executable matchers mirror those definitions.

use vstd::prelude::*;
use crate::char_sequences::Charseq;
use crate::pretokenisation::{PretokenData, PretokenDataV};
use crate::tokens_common::NumericBase;
use crate::unicode::{is_pattern_white_space, is_xid_continue, is_xid_start, pattern_white_space,
    xid_continue, xid_start};
use crate::Edition;

verus! {

/// Inputs longer than this are not analysed (a sanity cap, not part of the
/// grammar).
pub const MAX_INPUT_LENGTH: usize = 0x100_0000;

/// A decimal digit.
pub open spec fn dec_digit(c: char) -> bool {
    0x30 <= c as u32 && c as u32 <= 0x39
}

/// A hexadecimal digit.
pub open spec fn hex_digit(c: char) -> bool {
    dec_digit(c) || (0x61 <= c as u32 && c as u32 <= 0x66) || (0x41 <= c as u32 && c as u32
        <= 0x46)
}

/// A letter which may begin the suffix of a hexadecimal integer literal:
/// any XID_Start character except the hexadecimal letters.
pub open spec fn hex_letter(c: char) -> bool {
    (0x61 <= c as u32 && c as u32 <= 0x66) || (0x41 <= c as u32 && c as u32 <= 0x46)
}

/// A character which may begin an identifier.
pub open spec fn ident_start(c: char) -> bool {
    xid_start(c) || c == '_'
}

/// The single punctuation marks.
pub open spec fn punctuation_mark(c: char) -> bool {
    c == ';' || c == ',' || c == '.' || c == '(' || c == ')' || c == '{' || c == '}' || c == '['
        || c == ']' || c == '@' || c == '#' || c == '~' || c == '?' || c == ':' || c == '$'
        || c == '=' || c == '!' || c == '<' || c == '>' || c == '-' || c == '&' || c == '|'
        || c == '+' || c == '*' || c == '/' || c == '^' || c == '%'
}

/// Says whether a character is a decimal digit.
pub fn is_dec_digit(c: char) -> (r: bool)
    ensures
        r == dec_digit(c),
{
    let u = c as u32;
    0x30 <= u && u <= 0x39
}

/// Says whether a character is a hexadecimal digit.
pub fn is_hex_digit(c: char) -> (r: bool)
    ensures
        r == hex_digit(c),
{
    let u = c as u32;
    (0x30 <= u && u <= 0x39) || (0x61 <= u && u <= 0x66) || (0x41 <= u && u <= 0x46)
}

/// Says whether a character is one of the single punctuation marks.
pub fn is_punctuation_mark(c: char) -> (r: bool)
    ensures
        r == punctuation_mark(c),
{
    c == ';' || c == ',' || c == '.' || c == '(' || c == ')' || c == '{' || c == '}' || c == '['
        || c == ']' || c == '@' || c == '#' || c == '~' || c == '?' || c == ':' || c == '$'
        || c == '=' || c == '!' || c == '<' || c == '>' || c == '-' || c == '&' || c == '|'
        || c == '+' || c == '*' || c == '/' || c == '^' || c == '%'
}

// --- character runs -------------------------------------------------------

/// Pattern_White_Space characters, as a predicate value.
pub open spec fn p_ws() -> spec_fn(char) -> bool {
    |c: char| pattern_white_space(c)
}

/// Characters other than LF, as a predicate value.
pub open spec fn p_not_nl() -> spec_fn(char) -> bool {
    |c: char| c != '\n'
}

/// Characters other than a double quote, as a predicate value.
pub open spec fn p_not_dq() -> spec_fn(char) -> bool {
    |c: char| c != '"'
}

/// Characters other than a single quote, as a predicate value.
pub open spec fn p_not_sq() -> spec_fn(char) -> bool {
    |c: char| c != '\''
}

/// The hash character, as a predicate value.
pub open spec fn p_hash() -> spec_fn(char) -> bool {
    |c: char| c == '#'
}

/// XID_Continue characters, as a predicate value.
pub open spec fn p_xid_continue() -> spec_fn(char) -> bool {
    |c: char| xid_continue(c)
}

/// Decimal digits and underscores, as a predicate value.
pub open spec fn p_dec_us() -> spec_fn(char) -> bool {
    |c: char| dec_digit(c) || c == '_'
}

/// Hexadecimal digits and underscores, as a predicate value.
pub open spec fn p_hex_us() -> spec_fn(char) -> bool {
    |c: char| hex_digit(c) || c == '_'
}

/// The length of the run of characters satisfying `p` which starts at
/// position `i` of `s`.
pub open spec fn run_len(s: Seq<char>, i: int, p: spec_fn(char) -> bool) -> nat
    decreases s.len() - i,
{
    if 0 <= i < s.len() && p(s[i]) {
        1 + run_len(s, i + 1, p)
    } else {
        0
    }
}

/// A run never extends past the end of the input.
pub proof fn lemma_run_len_le(s: Seq<char>, i: int, p: spec_fn(char) -> bool)
    requires
        0 <= i <= s.len(),
    ensures
        run_len(s, i, p) <= s.len() - i,
        forall|k: int| i <= k < i + run_len(s, i, p) ==> p(s[k]),
        i + run_len(s, i, p) == s.len() || !p(s[i + run_len(s, i, p)]),
    decreases s.len() - i,
{
    if i < s.len() && p(s[i]) {
        lemma_run_len_le(s, i + 1, p);
    }
}

/// Returns the length of the run of Pattern_White_Space characters at `i`.
pub fn scan_whitespace(s: &Vec<char>, i: usize) -> (r: usize)
    requires
        i <= s@.len(),
    ensures
        r == run_len(s@, i as int, p_ws()),
        i + r <= s@.len(),
    decreases s@.len() - i,
{
    if i < s.len() && is_pattern_white_space(s[i]) {
        1 + scan_whitespace(s, i + 1)
    } else {
        0
    }
}

/// Returns the length of the run of non-LF characters at `i`.
pub fn scan_not_nl(s: &Vec<char>, i: usize) -> (r: usize)
    requires
        i <= s@.len(),
    ensures
        r == run_len(s@, i as int, p_not_nl()),
        i + r <= s@.len(),
    decreases s@.len() - i,
{
    if i < s.len() && s[i] != '\n' {
        1 + scan_not_nl(s, i + 1)
    } else {
        0
    }
}

/// Returns the length of the run of non-double-quote characters at `i`.
pub fn scan_not_dq(s: &Vec<char>, i: usize) -> (r: usize)
    requires
        i <= s@.len(),
    ensures
        r == run_len(s@, i as int, p_not_dq()),
        i + r <= s@.len(),
    decreases s@.len() - i,
{
    if i < s.len() && s[i] != '"' {
        1 + scan_not_dq(s, i + 1)
    } else {
        0
    }
}

/// Returns the length of the run of non-single-quote characters at `i`.
pub fn scan_not_sq(s: &Vec<char>, i: usize) -> (r: usize)
    requires
        i <= s@.len(),
    ensures
        r == run_len(s@, i as int, p_not_sq()),
        i + r <= s@.len(),
    decreases s@.len() - i,
{
    if i < s.len() && s[i] != '\'' {
        1 + scan_not_sq(s, i + 1)
    } else {
        0
    }
}

/// Returns the length of the run of hash characters at `i`.
pub fn scan_hashes(s: &Vec<char>, i: usize) -> (r: usize)
    requires
        i <= s@.len(),
    ensures
        r == run_len(s@, i as int, p_hash()),
        i + r <= s@.len(),
    decreases s@.len() - i,
{
    if i < s.len() && s[i] == '#' {
        1 + scan_hashes(s, i + 1)
    } else {
        0
    }
}

/// Returns the length of the run of XID_Continue characters at `i`.
pub fn scan_xid_continue(s: &Vec<char>, i: usize) -> (r: usize)
    requires
        i <= s@.len(),
    ensures
        r == run_len(s@, i as int, p_xid_continue()),
        i + r <= s@.len(),
    decreases s@.len() - i,
{
    if i < s.len() && is_xid_continue(s[i]) {
        1 + scan_xid_continue(s, i + 1)
    } else {
        0
    }
}

/// Returns the length of the run of decimal digits and underscores at `i`.
pub fn scan_dec_us(s: &Vec<char>, i: usize) -> (r: usize)
    requires
        i <= s@.len(),
    ensures
        r == run_len(s@, i as int, p_dec_us()),
        i + r <= s@.len(),
    decreases s@.len() - i,
{
    if i < s.len() && (is_dec_digit(s[i]) || s[i] == '_') {
        1 + scan_dec_us(s, i + 1)
    } else {
        0
    }
}

/// Returns the length of the run of hexadecimal digits and underscores at `i`.
pub fn scan_hex_us(s: &Vec<char>, i: usize) -> (r: usize)
    requires
        i <= s@.len(),
    ensures
        r == run_len(s@, i as int, p_hex_us()),
        i + r <= s@.len(),
    decreases s@.len() - i,
{
    if i < s.len() && (is_hex_digit(s[i]) || s[i] == '_') {
        1 + scan_hex_us(s, i + 1)
    } else {
        0
    }
}

// --- identifiers and literal suffixes --------------------------------------

/// The length of the identifier starting at position `i`, if one starts there.
pub open spec fn ident_len(s: Seq<char>, i: int) -> Option<nat> {
    if 0 <= i < s.len() && ident_start(s[i]) {
        Some((1 + run_len(s, i + 1, p_xid_continue())) as nat)
    } else {
        None
    }
}

/// Returns the length of the identifier starting at `i`, if one starts there.
pub fn scan_ident(s: &Vec<char>, i: usize) -> (r: Option<usize>)
    requires
        i <= s@.len(),
    ensures
        match r {
            Some(n) => ident_len(s@, i as int) == Some(n as nat) && i + n <= s@.len() && n >= 1,
            None => ident_len(s@, i as int) is None,
        },
{
    if i < s.len() && (is_xid_start(s[i]) || s[i] == '_') {
        Some(1 + scan_xid_continue(s, i + 1))
    } else {
        None
    }
}

/// The length of the suffix allowed after a quoted literal: an identifier, or
/// nothing.
pub open spec fn suffix_q(s: Seq<char>, i: int) -> nat {
    match ident_len(s, i) {
        Some(n) => n,
        None => 0,
    }
}

/// Returns the length of the suffix allowed after a quoted literal.
pub fn scan_suffix_q(s: &Vec<char>, i: usize) -> (r: usize)
    requires
        i <= s@.len(),
    ensures
        r == suffix_q(s@, i as int),
        i + r <= s@.len(),
{
    match scan_ident(s, i) {
        Some(n) => n,
        None => 0,
    }
}

/// The length of the suffix allowed after a decimal numeric literal: an
/// identifier not beginning with `_`, `e` or `E`, or nothing.
pub open spec fn suffix_ne(s: Seq<char>, i: int) -> nat {
    if 0 <= i < s.len() && xid_start(s[i]) && s[i] != 'e' && s[i] != 'E' {
        (1 + run_len(s, i + 1, p_xid_continue())) as nat
    } else {
        0
    }
}

/// Returns the length of the suffix allowed after a decimal numeric literal.
pub fn scan_suffix_ne(s: &Vec<char>, i: usize) -> (r: usize)
    requires
        i <= s@.len(),
    ensures
        r == suffix_ne(s@, i as int),
        i + r <= s@.len(),
{
    if i < s.len() && is_xid_start(s[i]) && s[i] != 'e' && s[i] != 'E' {
        1 + scan_xid_continue(s, i + 1)
    } else {
        0
    }
}

/// The length of the suffix allowed after a hexadecimal integer literal: an
/// identifier not beginning with `_` or a hexadecimal letter, or nothing.
pub open spec fn suffix_nh(s: Seq<char>, i: int) -> nat {
    if 0 <= i < s.len() && xid_start(s[i]) && !hex_letter(s[i]) {
        (1 + run_len(s, i + 1, p_xid_continue())) as nat
    } else {
        0
    }
}

/// Returns the length of the suffix allowed after a hexadecimal integer
/// literal.
pub fn scan_suffix_nh(s: &Vec<char>, i: usize) -> (r: usize)
    requires
        i <= s@.len(),
    ensures
        r == suffix_nh(s@, i as int),
        i + r <= s@.len(),
{
    if i < s.len() && is_xid_start(s[i]) {
        let u = s[i] as u32;
        if (0x61 <= u && u <= 0x66) || (0x41 <= u && u <= 0x46) {
            0
        } else {
            1 + scan_xid_continue(s, i + 1)
        }
    } else {
        0
    }
}

/// The length of the suffix allowed after a float exponent: an identifier not
/// beginning with `_`, or nothing.
pub open spec fn suffix_exp(s: Seq<char>, i: int) -> nat {
    if 0 <= i < s.len() && xid_start(s[i]) {
        (1 + run_len(s, i + 1, p_xid_continue())) as nat
    } else {
        0
    }
}

/// Returns the length of the suffix allowed after a float exponent.
pub fn scan_suffix_exp(s: &Vec<char>, i: usize) -> (r: usize)
    requires
        i <= s@.len(),
    ensures
        r == suffix_exp(s@, i as int),
        i + r <= s@.len(),
{
    if i < s.len() && is_xid_start(s[i]) {
        1 + scan_xid_continue(s, i + 1)
    } else {
        0
    }
}

} // verus!

verus! {

// --- relating executable matches to their specifications --------------------

/// How an executable matcher's result relates to a rule's specification.
pub open spec fn rule_agrees(
    r: Option<(usize, PretokenData)>,
    spec_r: Option<(nat, PretokenDataV)>,
    s: Seq<char>,
    i: int,
) -> bool {
    match r {
        Some((l, d)) => spec_r == Some((l as nat, d@)) && i + l <= s.len() && l >= 1,
        None => spec_r is None,
    }
}

// --- whitespace and comments ------------------------------------------------

/// The whitespace rule: a run of one or more Pattern_White_Space characters.
pub open spec fn r_whitespace(s: Seq<char>, i: int) -> Option<(nat, PretokenDataV)> {
    let n = run_len(s, i, p_ws());
    if n > 0 {
        Some((n, PretokenDataV::Whitespace))
    } else {
        None
    }
}

/// Applies the whitespace rule at position `i`.
pub fn m_whitespace(s: &Vec<char>, i: usize) -> (r: Option<(usize, PretokenData)>)
    requires
        i < s@.len() <= MAX_INPUT_LENGTH,
    ensures
        rule_agrees(r, r_whitespace(s@, i as int), s@, i as int),
{
    let n = scan_whitespace(s, i);
    if n > 0 {
        Some((n, PretokenData::Whitespace))
    } else {
        None
    }
}

/// The line-comment rule: `//` and everything up to the next LF.
pub open spec fn r_line_comment(s: Seq<char>, i: int) -> Option<(nat, PretokenDataV)> {
    if i + 1 < s.len() && s[i] == '/' && s[i + 1] == '/' {
        let n = run_len(s, i + 2, p_not_nl());
        Some(
            (
                (2 + n) as nat,
                PretokenDataV::LineComment { comment_content: s.subrange(i + 2, i + 2 + n) },
            ),
        )
    } else {
        None
    }
}

/// Applies the line-comment rule at position `i`.
pub fn m_line_comment(s: &Vec<char>, i: usize) -> (r: Option<(usize, PretokenData)>)
    requires
        i < s@.len() <= MAX_INPUT_LENGTH,
    ensures
        rule_agrees(r, r_line_comment(s@, i as int), s@, i as int),
{
    if i + 1 < s.len() && s[i] == '/' && s[i + 1] == '/' {
        let n = scan_not_nl(s, i + 2);
        let content = slice_charseq(s, i + 2, i + 2 + n);
        Some(((2 + n), PretokenData::LineComment { comment_content: content }))
    } else {
        None
    }
}

/// The position just after the `*/` which closes a block comment opened
/// `depth` levels deep, scanning from `j`.
pub open spec fn block_comment_end(s: Seq<char>, j: int, depth: nat) -> Option<int>
    decreases s.len() - j,
{
    if j >= s.len() || j < 0 {
        None
    } else if j + 1 < s.len() && s[j] == '/' && s[j + 1] == '*' {
        block_comment_end(s, j + 2, depth + 1)
    } else if j + 1 < s.len() && s[j] == '*' && s[j + 1] == '/' {
        if depth == 1 {
            Some(j + 2)
        } else {
            block_comment_end(s, j + 2, (depth - 1) as nat)
        }
    } else {
        block_comment_end(s, j + 1, depth)
    }
}

/// The closing position never lies before the scan start, nor past the end.
pub proof fn lemma_block_comment_end_bounds(s: Seq<char>, j: int, depth: nat)
    requires
        0 <= j <= s.len(),
    ensures
        match block_comment_end(s, j, depth) {
            Some(e) => j + 2 <= e <= s.len(),
            None => true,
        },
    decreases s.len() - j,
{
    if j < s.len() {
        if j + 1 < s.len() && s[j] == '/' && s[j + 1] == '*' {
            lemma_block_comment_end_bounds(s, j + 2, depth + 1);
        } else if j + 1 < s.len() && s[j] == '*' && s[j + 1] == '/' {
            if depth != 1 {
                lemma_block_comment_end_bounds(s, j + 2, (depth - 1) as nat);
            }
        } else {
            lemma_block_comment_end_bounds(s, j + 1, depth);
        }
    }
}

/// Scans for the close of a block comment opened `depth` levels deep.
fn scan_block_comment_end(s: &Vec<char>, j: usize, depth: usize) -> (r: Option<usize>)
    requires
        j <= s@.len() <= MAX_INPUT_LENGTH,
        depth >= 1,
        depth <= j,
    ensures
        match r {
            Some(e) => block_comment_end(s@, j as int, depth as nat) == Some(e as int) && j + 2
                <= e <= s@.len(),
            None => block_comment_end(s@, j as int, depth as nat) is None,
        },
    decreases s@.len() - j,
{
    if j >= s.len() {
        None
    } else if j + 1 < s.len() && s[j] == '/' && s[j + 1] == '*' {
        scan_block_comment_end(s, j + 2, depth + 1)
    } else if j + 1 < s.len() && s[j] == '*' && s[j + 1] == '/' {
        if depth == 1 {
            Some(j + 2)
        } else {
            scan_block_comment_end(s, j + 2, depth - 1)
        }
    } else {
        scan_block_comment_end(s, j + 1, depth)
    }
}

/// The block-comment rule: `/*`, correctly nested content, `*/`.
pub open spec fn r_block_comment(s: Seq<char>, i: int) -> Option<(nat, PretokenDataV)> {
    if i + 1 < s.len() && s[i] == '/' && s[i + 1] == '*' {
        match block_comment_end(s, i + 2, 1) {
            Some(e) => Some(
                (
                    (e - i) as nat,
                    PretokenDataV::BlockComment { comment_content: s.subrange(i + 2, e - 2) },
                ),
            ),
            None => None,
        }
    } else {
        None
    }
}

/// Applies the block-comment rule at position `i`.
pub fn match_block_comment(s: &Vec<char>, i: usize) -> (r: Option<(usize, PretokenData)>)
    requires
        i < s@.len() <= MAX_INPUT_LENGTH,
    ensures
        rule_agrees(r, r_block_comment(s@, i as int), s@, i as int),
{
    if i + 1 < s.len() && s[i] == '/' && s[i + 1] == '*' {
        match scan_block_comment_end(s, i + 2, 1) {
            Some(e) => {
                let content = slice_charseq(s, i + 2, e - 2);
                Some((e - i, PretokenData::BlockComment { comment_content: content }))
            },
            None => None,
        }
    } else {
        None
    }
}

/// The unterminated-block-comment rule: a reserved form.
pub open spec fn r_unterminated_block_comment(s: Seq<char>, i: int) -> Option<
    (nat, PretokenDataV),
> {
    if i + 1 < s.len() && s[i] == '/' && s[i + 1] == '*' {
        Some((2, PretokenDataV::Reserved))
    } else {
        None
    }
}

/// Applies the unterminated-block-comment rule at position `i`.
pub fn m_unterminated_block_comment(s: &Vec<char>, i: usize) -> (r: Option<(usize, PretokenData)>)
    requires
        i < s@.len() <= MAX_INPUT_LENGTH,
    ensures
        rule_agrees(r, r_unterminated_block_comment(s@, i as int), s@, i as int),
{
    if i + 1 < s.len() && s[i] == '/' && s[i + 1] == '*' {
        Some((2, PretokenData::Reserved))
    } else {
        None
    }
}

// --- reserved guards and punctuation ----------------------------------------

/// The reserved-guard rule (newest edition only): `##` or `#"`.
pub open spec fn r_reserved_guard(s: Seq<char>, i: int) -> Option<(nat, PretokenDataV)> {
    if i + 1 < s.len() && s[i] == '#' && (s[i + 1] == '#' || s[i + 1] == '"') {
        Some((2, PretokenDataV::Reserved))
    } else {
        None
    }
}

/// Applies the reserved-guard rule at position `i`.
pub fn m_reserved_guard(s: &Vec<char>, i: usize) -> (r: Option<(usize, PretokenData)>)
    requires
        i < s@.len() <= MAX_INPUT_LENGTH,
    ensures
        rule_agrees(r, r_reserved_guard(s@, i as int), s@, i as int),
{
    if i + 1 < s.len() && s[i] == '#' && (s[i + 1] == '#' || s[i + 1] == '"') {
        Some((2, PretokenData::Reserved))
    } else {
        None
    }
}

/// The punctuation rule: one mark from the fixed set.
pub open spec fn r_punctuation(s: Seq<char>, i: int) -> Option<(nat, PretokenDataV)> {
    if 0 <= i < s.len() && punctuation_mark(s[i]) {
        Some((1, PretokenDataV::Punctuation { mark: s[i] }))
    } else {
        None
    }
}

/// Applies the punctuation rule at position `i`.
pub fn m_punctuation(s: &Vec<char>, i: usize) -> (r: Option<(usize, PretokenData)>)
    requires
        i < s@.len() <= MAX_INPUT_LENGTH,
    ensures
        rule_agrees(r, r_punctuation(s@, i as int), s@, i as int),
{
    if is_punctuation_mark(s[i]) {
        Some((1, PretokenData::Punctuation { mark: s[i] }))
    } else {
        None
    }
}

// --- identifiers ------------------------------------------------------------

/// The non-raw identifier rule: XID_Start or `_`, then XID_Continue.
pub open spec fn r_ident(s: Seq<char>, i: int) -> Option<(nat, PretokenDataV)> {
    match ident_len(s, i) {
        Some(n) => Some((n, PretokenDataV::Ident { identifier: s.subrange(i, i + n) })),
        None => None,
    }
}

/// Applies the non-raw identifier rule at position `i`.
pub fn m_ident(s: &Vec<char>, i: usize) -> (r: Option<(usize, PretokenData)>)
    requires
        i < s@.len() <= MAX_INPUT_LENGTH,
    ensures
        rule_agrees(r, r_ident(s@, i as int), s@, i as int),
{
    match scan_ident(s, i) {
        Some(n) => {
            let identifier = slice_charseq(s, i, i + n);
            Some((n, PretokenData::Ident { identifier }))
        },
        None => None,
    }
}

/// The raw identifier rule: `r#` then an identifier.
pub open spec fn r_raw_ident(s: Seq<char>, i: int) -> Option<(nat, PretokenDataV)> {
    if i + 1 < s.len() && s[i] == 'r' && s[i + 1] == '#' {
        match ident_len(s, i + 2) {
            Some(n) => Some(
                ((2 + n) as nat, PretokenDataV::RawIdent { identifier: s.subrange(i + 2, i + 2 + n) }),
            ),
            None => None,
        }
    } else {
        None
    }
}

/// Applies the raw identifier rule at position `i`.
pub fn m_raw_ident(s: &Vec<char>, i: usize) -> (r: Option<(usize, PretokenData)>)
    requires
        i < s@.len() <= MAX_INPUT_LENGTH,
    ensures
        rule_agrees(r, r_raw_ident(s@, i as int), s@, i as int),
{
    if i + 1 < s.len() && s[i] == 'r' && s[i + 1] == '#' {
        match scan_ident(s, i + 2) {
            Some(n) => {
                let identifier = slice_charseq(s, i + 2, i + 2 + n);
                Some((2 + n, PretokenData::RawIdent { identifier }))
            },
            None => None,
        }
    } else {
        None
    }
}

// --- lifetimes and labels ----------------------------------------------------

/// The raw lifetime-or-label rule (editions after the first): `'r#` then an
/// identifier.
pub open spec fn r_raw_lifetime(s: Seq<char>, i: int) -> Option<(nat, PretokenDataV)> {
    if i + 2 < s.len() && s[i] == '\'' && s[i + 1] == 'r' && s[i + 2] == '#' {
        match ident_len(s, i + 3) {
            Some(n) => Some(
                (
                    (3 + n) as nat,
                    PretokenDataV::RawLifetimeOrLabel { name: s.subrange(i + 3, i + 3 + n) },
                ),
            ),
            None => None,
        }
    } else {
        None
    }
}

/// Applies the raw lifetime-or-label rule at position `i`.
pub fn m_raw_lifetime(s: &Vec<char>, i: usize) -> (r: Option<(usize, PretokenData)>)
    requires
        i < s@.len() <= MAX_INPUT_LENGTH,
    ensures
        rule_agrees(r, r_raw_lifetime(s@, i as int), s@, i as int),
{
    if i + 2 < s.len() && s[i] == '\'' && s[i + 1] == 'r' && s[i + 2] == '#' {
        match scan_ident(s, i + 3) {
            Some(n) => {
                let name = slice_charseq(s, i + 3, i + 3 + n);
                Some((3 + n, PretokenData::RawLifetimeOrLabel { name }))
            },
            None => None,
        }
    } else {
        None
    }
}

/// The reserved lifetime-or-label prefix rule (editions after the first):
/// `'`, an identifier, then `#`.
pub open spec fn r_reserved_lifetime_prefix(s: Seq<char>, i: int) -> Option<(nat, PretokenDataV)> {
    if 0 <= i < s.len() && s[i] == '\'' {
        match ident_len(s, i + 1) {
            Some(n) => if i + 1 + n < s.len() && s[i + 1 + n] == '#' {
                Some(((n + 2) as nat, PretokenDataV::Reserved))
            } else {
                None
            },
            None => None,
        }
    } else {
        None
    }
}

/// Applies the reserved lifetime-or-label prefix rule at position `i`.
pub fn m_reserved_lifetime_prefix(s: &Vec<char>, i: usize) -> (r: Option<(usize, PretokenData)>)
    requires
        i < s@.len() <= MAX_INPUT_LENGTH,
    ensures
        rule_agrees(r, r_reserved_lifetime_prefix(s@, i as int), s@, i as int),
{
    if s[i] == '\'' {
        match scan_ident(s, i + 1) {
            Some(n) => {
                if i + 1 + n < s.len() && s[i + 1 + n] == '#' {
                    Some((n + 2, PretokenData::Reserved))
                } else {
                    None
                }
            },
            None => None,
        }
    } else {
        None
    }
}

/// The lifetime-or-label rule: `'` then an identifier, not followed by `'`.
pub open spec fn r_lifetime(s: Seq<char>, i: int) -> Option<(nat, PretokenDataV)> {
    if 0 <= i < s.len() && s[i] == '\'' {
        match ident_len(s, i + 1) {
            Some(n) => if i + 1 + n < s.len() && s[i + 1 + n] == '\'' {
                None
            } else {
                Some(
                    (
                        (1 + n) as nat,
                        PretokenDataV::LifetimeOrLabel { name: s.subrange(i + 1, i + 1 + n) },
                    ),
                )
            },
            None => None,
        }
    } else {
        None
    }
}

/// Applies the lifetime-or-label rule at position `i`.
pub fn m_lifetime(s: &Vec<char>, i: usize) -> (r: Option<(usize, PretokenData)>)
    requires
        i < s@.len() <= MAX_INPUT_LENGTH,
    ensures
        rule_agrees(r, r_lifetime(s@, i as int), s@, i as int),
{
    if s[i] == '\'' {
        match scan_ident(s, i + 1) {
            Some(n) => {
                if i + 1 + n < s.len() && s[i + 1 + n] == '\'' {
                    None
                } else {
                    let name = slice_charseq(s, i + 1, i + 1 + n);
                    Some((1 + n, PretokenData::LifetimeOrLabel { name }))
                }
            },
            None => None,
        }
    } else {
        None
    }
}

} // verus!

verus! {

/// Returns a new `Charseq` holding the characters of `s` at `start .. end`.
pub fn slice_charseq(s: &Vec<char>, start: usize, end: usize) -> (r: Charseq)
    requires
        start <= end,
        end <= s@.len(),
    ensures
        r@ == s@.subrange(start as int, end as int),
{
    let mut taken: Vec<char> = Vec::new();
    let mut i: usize = start;
    while i < end
        invariant
            start <= i <= end <= s@.len(),
            taken@ == s@.subrange(start as int, i as int),
        decreases end - i,
    {
        taken.push(s[i]);
        i = i + 1;
    }
    Charseq::new(taken)
}

} // verus!

verus! {

// --- quoted literals ---------------------------------------------------------

/// The single-quoted literal rule: optional `b` prefix, `'`, a single
/// non-escape character or an escape, `'`, then an optional suffix.
pub open spec fn r_single_quoted(s: Seq<char>, i: int) -> Option<(nat, PretokenDataV)> {
    if 0 <= i < s.len() {
        let p: int = if s[i] == 'b' {
            1
        } else {
            0
        };
        if i + p < s.len() && s[i + p] == '\'' {
            let c0 = i + p + 1;
            if c0 < s.len() && s[c0] != '\\' && s[c0] != '\'' {
                if c0 + 1 < s.len() && s[c0 + 1] == '\'' {
                    let m = suffix_q(s, c0 + 2);
                    Some(
                        (
                            (c0 + 2 + m - i) as nat,
                            PretokenDataV::SingleQuotedLiteral {
                                prefix: s.subrange(i, i + p),
                                literal_content: s.subrange(c0, c0 + 1),
                                suffix: s.subrange(c0 + 2, c0 + 2 + m),
                            },
                        ),
                    )
                } else {
                    None
                }
            } else if c0 + 1 < s.len() && s[c0] == '\\' {
                let k = run_len(s, c0 + 2, p_not_sq());
                let close = c0 + 2 + k;
                if close < s.len() {
                    let m = suffix_q(s, close + 1);
                    Some(
                        (
                            (close + 1 + m - i) as nat,
                            PretokenDataV::SingleQuotedLiteral {
                                prefix: s.subrange(i, i + p),
                                literal_content: s.subrange(c0, close),
                                suffix: s.subrange(close + 1, close + 1 + m),
                            },
                        ),
                    )
                } else {
                    None
                }
            } else {
                None
            }
        } else {
            None
        }
    } else {
        None
    }
}

/// Applies the single-quoted literal rule at position `i`.
pub fn m_single_quoted(s: &Vec<char>, i: usize) -> (r: Option<(usize, PretokenData)>)
    requires
        i < s@.len() <= MAX_INPUT_LENGTH,
    ensures
        rule_agrees(r, r_single_quoted(s@, i as int), s@, i as int),
{
    let p: usize = if s[i] == 'b' {
        1
    } else {
        0
    };
    if i + p < s.len() && s[i + p] == '\'' {
        let c0 = i + p + 1;
        if c0 < s.len() && s[c0] != '\\' && s[c0] != '\'' {
            if c0 + 1 < s.len() && s[c0 + 1] == '\'' {
                let m = scan_suffix_q(s, c0 + 2);
                Some(
                    (
                        c0 + 2 + m - i,
                        PretokenData::SingleQuotedLiteral {
                            prefix: slice_charseq(s, i, i + p),
                            literal_content: slice_charseq(s, c0, c0 + 1),
                            suffix: slice_charseq(s, c0 + 2, c0 + 2 + m),
                        },
                    ),
                )
            } else {
                None
            }
        } else if c0 + 1 < s.len() && s[c0] == '\\' {
            let k = scan_not_sq(s, c0 + 2);
            let close = c0 + 2 + k;
            if close < s.len() {
                let m = scan_suffix_q(s, close + 1);
                Some(
                    (
                        close + 1 + m - i,
                        PretokenData::SingleQuotedLiteral {
                            prefix: slice_charseq(s, i, i + p),
                            literal_content: slice_charseq(s, c0, close),
                            suffix: slice_charseq(s, close + 1, close + 1 + m),
                        },
                    ),
                )
            } else {
                None
            }
        } else {
            None
        }
    } else {
        None
    }
}

/// The position of the unescaped double quote which closes non-raw
/// double-quoted content scanned from `j`, skipping over escapes.
pub open spec fn dq_content_end(s: Seq<char>, j: int) -> Option<int>
    decreases s.len() - j,
{
    if j < 0 || j >= s.len() {
        None
    } else if s[j] == '"' {
        Some(j)
    } else if s[j] == '\\' {
        if j + 1 < s.len() {
            dq_content_end(s, j + 2)
        } else {
            None
        }
    } else {
        dq_content_end(s, j + 1)
    }
}

/// The closing position never lies before the scan start, nor past the end.
pub proof fn lemma_dq_content_end_bounds(s: Seq<char>, j: int)
    requires
        0 <= j <= s.len(),
    ensures
        match dq_content_end(s, j) {
            Some(e) => j <= e < s.len(),
            None => true,
        },
    decreases s.len() - j,
{
    if j < s.len() {
        if s[j] == '"' {
        } else if s[j] == '\\' {
            if j + 1 < s.len() {
                lemma_dq_content_end_bounds(s, j + 2);
            }
        } else {
            lemma_dq_content_end_bounds(s, j + 1);
        }
    }
}

/// Scans for the closing quote of non-raw double-quoted content.
fn scan_dq_content_end(s: &Vec<char>, j: usize) -> (r: Option<usize>)
    requires
        j <= s@.len() <= MAX_INPUT_LENGTH,
    ensures
        match r {
            Some(e) => dq_content_end(s@, j as int) == Some(e as int) && j <= e < s@.len(),
            None => dq_content_end(s@, j as int) is None,
        },
    decreases s@.len() - j,
{
    if j >= s.len() {
        None
    } else if s[j] == '"' {
        Some(j)
    } else if s[j] == '\\' {
        if j + 1 < s.len() {
            scan_dq_content_end(s, j + 2)
        } else {
            None
        }
    } else {
        scan_dq_content_end(s, j + 1)
    }
}

/// Whether a character may prefix a non-raw double-quoted literal in the
/// given edition (besides the empty prefix).
pub open spec fn dq_prefix_char(ed: Edition, c: char) -> bool {
    c == 'b' || (ed != Edition::E2015 && c == 'c')
}

/// The non-raw double-quoted literal rule: an optional one-character prefix,
/// `"`, content with escapes, `"`, then an optional suffix.
pub open spec fn r_double_quoted(ed: Edition, s: Seq<char>, i: int) -> Option<
    (nat, PretokenDataV),
> {
    if 0 <= i < s.len() {
        let p: int = if dq_prefix_char(ed, s[i]) {
            1
        } else {
            0
        };
        if i + p < s.len() && s[i + p] == '"' {
            match dq_content_end(s, i + p + 1) {
                Some(e) => {
                    let m = suffix_q(s, e + 1);
                    Some(
                        (
                            (e + 1 + m - i) as nat,
                            PretokenDataV::DoubleQuotedLiteral {
                                prefix: s.subrange(i, i + p),
                                literal_content: s.subrange(i + p + 1, e),
                                suffix: s.subrange(e + 1, e + 1 + m),
                            },
                        ),
                    )
                },
                None => None,
            }
        } else {
            None
        }
    } else {
        None
    }
}

/// Applies the non-raw double-quoted literal rule at position `i`.
pub fn m_double_quoted(ed: Edition, s: &Vec<char>, i: usize) -> (r: Option<(usize, PretokenData)>)
    requires
        i < s@.len() <= MAX_INPUT_LENGTH,
    ensures
        rule_agrees(r, r_double_quoted(ed, s@, i as int), s@, i as int),
{
    let p: usize = if s[i] == 'b' || (ed != Edition::E2015 && s[i] == 'c') {
        1
    } else {
        0
    };
    if i + p < s.len() && s[i + p] == '"' {
        match scan_dq_content_end(s, i + p + 1) {
            Some(e) => {
                let m = scan_suffix_q(s, e + 1);
                Some(
                    (
                        e + 1 + m - i,
                        PretokenData::DoubleQuotedLiteral {
                            prefix: slice_charseq(s, i, i + p),
                            literal_content: slice_charseq(s, i + p + 1, e),
                            suffix: slice_charseq(s, e + 1, e + 1 + m),
                        },
                    ),
                )
            },
            None => None,
        }
    } else {
        None
    }
}

/// The length of the raw-literal prefix (`r`, `br`, or `cr` where the edition
/// has C-strings) at position `i`, if one starts there.
pub open spec fn raw_prefix_len(ed: Edition, s: Seq<char>, i: int) -> Option<int> {
    if 0 <= i < s.len() && s[i] == 'r' {
        Some(1)
    } else if 0 <= i && i + 1 < s.len() && s[i] == 'b' && s[i + 1] == 'r' {
        Some(2)
    } else if 0 <= i && i + 1 < s.len() && ed != Edition::E2015 && s[i] == 'c' && s[i + 1] == 'r' {
        Some(2)
    } else {
        None
    }
}

/// Returns the length of the raw-literal prefix at `i`, if one starts there.
pub fn scan_raw_prefix(ed: Edition, s: &Vec<char>, i: usize) -> (r: Option<usize>)
    requires
        i < s@.len() <= MAX_INPUT_LENGTH,
    ensures
        match r {
            Some(n) => raw_prefix_len(ed, s@, i as int) == Some(n as int) && i + n <= s@.len(),
            None => raw_prefix_len(ed, s@, i as int) is None,
        },
{
    if s[i] == 'r' {
        Some(1)
    } else if i + 1 < s.len() && s[i] == 'b' && s[i + 1] == 'r' {
        Some(2)
    } else if i + 1 < s.len() && ed != Edition::E2015 && s[i] == 'c' && s[i + 1] == 'r' {
        Some(2)
    } else {
        None
    }
}

/// The hashless raw double-quoted literal rule: a raw prefix, `"`, content
/// with no double quote, `"`, then an optional suffix.
pub open spec fn r_hashless_raw(ed: Edition, s: Seq<char>, i: int) -> Option<
    (nat, PretokenDataV),
> {
    match raw_prefix_len(ed, s, i) {
        Some(p) => if i + p < s.len() && s[i + p] == '"' {
            let k = run_len(s, i + p + 1, p_not_dq());
            let close = i + p + 1 + k;
            if close < s.len() {
                let m = suffix_q(s, close + 1);
                Some(
                    (
                        (close + 1 + m - i) as nat,
                        PretokenDataV::RawDoubleQuotedLiteral {
                            prefix: s.subrange(i, i + p),
                            literal_content: s.subrange(i + p + 1, close),
                            suffix: s.subrange(close + 1, close + 1 + m),
                        },
                    ),
                )
            } else {
                None
            }
        } else {
            None
        },
        None => None,
    }
}

/// Applies the hashless raw double-quoted literal rule at position `i`.
pub fn m_hashless_raw(ed: Edition, s: &Vec<char>, i: usize) -> (r: Option<(usize, PretokenData)>)
    requires
        i < s@.len() <= MAX_INPUT_LENGTH,
    ensures
        rule_agrees(r, r_hashless_raw(ed, s@, i as int), s@, i as int),
{
    match scan_raw_prefix(ed, s, i) {
        Some(p) => {
            if i + p < s.len() && s[i + p] == '"' {
                let k = scan_not_dq(s, i + p + 1);
                let close = i + p + 1 + k;
                if close < s.len() {
                    let m = scan_suffix_q(s, close + 1);
                    Some(
                        (
                            close + 1 + m - i,
                            PretokenData::RawDoubleQuotedLiteral {
                                prefix: slice_charseq(s, i, i + p),
                                literal_content: slice_charseq(s, i + p + 1, close),
                                suffix: slice_charseq(s, close + 1, close + 1 + m),
                            },
                        ),
                    )
                } else {
                    None
                }
            } else {
                None
            }
        },
        None => None,
    }
}

/// The position of the double quote which terminates hashed raw content
/// scanned from `j`: the first `"` followed by at least `h` hashes.
pub open spec fn raw_content_end(s: Seq<char>, j: int, h: nat) -> Option<int>
    decreases s.len() - j,
{
    if j < 0 || j >= s.len() {
        None
    } else if s[j] == '"' && run_len(s, j + 1, p_hash()) >= h {
        Some(j)
    } else {
        raw_content_end(s, j + 1, h)
    }
}

/// The terminating position never lies before the scan start, nor past the
/// end, and leaves room for the closing hashes.
pub proof fn lemma_raw_content_end_bounds(s: Seq<char>, j: int, h: nat)
    requires
        0 <= j <= s.len(),
    ensures
        match raw_content_end(s, j, h) {
            Some(e) => j <= e < s.len() && e + 1 + h <= s.len(),
            None => true,
        },
    decreases s.len() - j,
{
    if j < s.len() {
        if s[j] == '"' && run_len(s, j + 1, p_hash()) >= h {
            lemma_run_len_le(s, j + 1, p_hash());
        } else {
            lemma_raw_content_end_bounds(s, j + 1, h);
        }
    }
}

/// Scans for the double quote which terminates hashed raw content.
fn scan_raw_content_end(s: &Vec<char>, j: usize, h: usize) -> (r: Option<usize>)
    requires
        j <= s@.len() <= MAX_INPUT_LENGTH,
    ensures
        match r {
            Some(e) => raw_content_end(s@, j as int, h as nat) == Some(e as int) && j <= e
                < s@.len() && e + 1 + h <= s@.len(),
            None => raw_content_end(s@, j as int, h as nat) is None,
        },
    decreases s@.len() - j,
{
    if j >= s.len() {
        None
    } else if s[j] == '"' && scan_hashes(s, j + 1) >= h {
        proof {
            lemma_run_len_le(s@, j + 1, p_hash());
        }
        Some(j)
    } else {
        scan_raw_content_end(s, j + 1, h)
    }
}

/// The hashed raw double-quoted literal rule: a raw prefix, one to 255
/// hashes, `"`, content, `"`, the same number of hashes, then an optional
/// suffix.
pub open spec fn r_hashed_raw(ed: Edition, s: Seq<char>, i: int) -> Option<(nat, PretokenDataV)> {
    match raw_prefix_len(ed, s, i) {
        Some(p) => {
            let h = run_len(s, i + p, p_hash());
            if 1 <= h <= 255 && i + p + h < s.len() && s[i + p + h] == '"' {
                match raw_content_end(s, i + p + h + 1, h) {
                    Some(e) => {
                        let m = suffix_q(s, e + 1 + h);
                        Some(
                            (
                                (e + 1 + h + m - i) as nat,
                                PretokenDataV::RawDoubleQuotedLiteral {
                                    prefix: s.subrange(i, i + p),
                                    literal_content: s.subrange(i + p + h + 1, e),
                                    suffix: s.subrange(e + 1 + h, e + 1 + h + m),
                                },
                            ),
                        )
                    },
                    None => None,
                }
            } else {
                None
            }
        },
        None => None,
    }
}

/// Applies the hashed raw double-quoted literal rule at position `i`.
pub fn m_hashed_raw(ed: Edition, s: &Vec<char>, i: usize) -> (r: Option<(usize, PretokenData)>)
    requires
        i < s@.len() <= MAX_INPUT_LENGTH,
    ensures
        rule_agrees(r, r_hashed_raw(ed, s@, i as int), s@, i as int),
{
    match scan_raw_prefix(ed, s, i) {
        Some(p) => {
            let h = scan_hashes(s, i + p);
            if 1 <= h && h <= 255 && i + p + h < s.len() && s[i + p + h] == '"' {
                match scan_raw_content_end(s, i + p + h + 1, h) {
                    Some(e) => {
                        let m = scan_suffix_q(s, e + 1 + h);
                        Some(
                            (
                                e + 1 + h + m - i,
                                PretokenData::RawDoubleQuotedLiteral {
                                    prefix: slice_charseq(s, i, i + p),
                                    literal_content: slice_charseq(s, i + p + h + 1, e),
                                    suffix: slice_charseq(s, e + 1 + h, e + 1 + h + m),
                                },
                            ),
                        )
                    },
                    None => None,
                }
            } else {
                None
            }
        },
        None => None,
    }
}

/// Applies the hashed raw double-quoted literal rule as the earliest edition
/// has it (prefixes `r` and `br`).
pub fn match_raw_string_literal_for_edition_2015(s: &Vec<char>, i: usize) -> (r: Option<
    (usize, PretokenData),
>)
    requires
        i < s@.len() <= MAX_INPUT_LENGTH,
    ensures
        rule_agrees(r, r_hashed_raw(Edition::E2015, s@, i as int), s@, i as int),
{
    m_hashed_raw(Edition::E2015, s, i)
}

/// Applies the hashed raw double-quoted literal rule as later editions have
/// it (prefixes `r`, `br` and `cr`).
pub fn match_raw_string_literal_for_edition_2021(s: &Vec<char>, i: usize) -> (r: Option<
    (usize, PretokenData),
>)
    requires
        i < s@.len() <= MAX_INPUT_LENGTH,
    ensures
        rule_agrees(r, r_hashed_raw(Edition::E2021, s@, i as int), s@, i as int),
{
    m_hashed_raw(Edition::E2021, s, i)
}

} // verus!

verus! {

// --- numeric literals ---------------------------------------------------------

/// The length of a fractional part (`.` digit, digits-and-underscores) at
/// position `q`, or zero where none starts there.
pub open spec fn float_frac_len(s: Seq<char>, q: int) -> nat {
    if 0 <= q && q + 1 < s.len() && s[q] == '.' && dec_digit(s[q + 1]) {
        (2 + run_len(s, q + 2, p_dec_us())) as nat
    } else {
        0
    }
}

/// Returns the length of a fractional part at `q`, or zero.
pub fn scan_float_frac(s: &Vec<char>, q: usize) -> (r: usize)
    requires
        q <= s@.len() <= MAX_INPUT_LENGTH,
    ensures
        r == float_frac_len(s@, q as int),
        q + r <= s@.len(),
{
    if q + 1 < s.len() && s[q] == '.' && is_dec_digit(s[q + 1]) {
        2 + scan_dec_us(s, q + 2)
    } else {
        0
    }
}

/// Whether the `n` characters from `j` include a decimal digit.
pub open spec fn has_dec_digit(s: Seq<char>, j: int, n: nat) -> bool {
    exists|k: int| j <= k < j + n && dec_digit(s[k])
}

/// Says whether the `n` characters from `j` include a decimal digit.
pub fn scan_has_dec_digit(s: &Vec<char>, j: usize, n: usize) -> (r: bool)
    requires
        j + n <= s@.len() <= MAX_INPUT_LENGTH,
    ensures
        r == has_dec_digit(s@, j as int, n as nat),
{
    let mut k: usize = j;
    while k < j + n
        invariant
            j <= k <= j + n,
            j + n <= s@.len() <= MAX_INPUT_LENGTH,
            forall|x: int| j <= x < k ==> !dec_digit(s@[x]),
        decreases j + n - k,
    {
        if is_dec_digit(s[k]) {
            assert(has_dec_digit(s@, j as int, n as nat));
            return true;
        }
        k = k + 1;
    }
    false
}

/// Whether the follower after a trailing dot forbids the final-dot float
/// form: another dot, an underscore, or an XID_Start character.
pub open spec fn final_dot_forbidden_follower(s: Seq<char>, q: int) -> bool {
    q + 1 < s.len() && (s[q + 1] == '.' || s[q + 1] == '_' || xid_start(s[q + 1]))
}

/// Says whether the follower after a trailing dot forbids the final-dot form.
pub fn is_final_dot_forbidden(s: &Vec<char>, q: usize) -> (r: bool)
    requires
        q < s@.len() <= MAX_INPUT_LENGTH,
    ensures
        r == final_dot_forbidden_follower(s@, q as int),
{
    q + 1 < s.len() && (s[q + 1] == '.' || s[q + 1] == '_' || is_xid_start(s[q + 1]))
}

/// The float-with-exponent rule: decimal digits, an optional fractional part,
/// `e` or `E`, an optional sign, exponent digits with at least one digit,
/// then an optional suffix.
pub open spec fn r_float_exponent(s: Seq<char>, i: int) -> Option<(nat, PretokenDataV)> {
    if 0 <= i < s.len() && dec_digit(s[i]) {
        let q = i + 1 + run_len(s, i + 1, p_dec_us());
        let q2 = q + float_frac_len(s, q);
        if q2 < s.len() && (s[q2] == 'e' || s[q2] == 'E') {
            let sg: int = if q2 + 1 < s.len() && (s[q2 + 1] == '+' || s[q2 + 1] == '-') {
                1
            } else {
                0
            };
            let d0 = q2 + 1 + sg;
            let ed = run_len(s, d0, p_dec_us());
            if has_dec_digit(s, d0, ed) {
                let m = suffix_exp(s, d0 + ed);
                Some(
                    (
                        (d0 + ed + m - i) as nat,
                        PretokenDataV::FloatLiteral {
                            body: s.subrange(i, d0 + ed),
                            suffix: s.subrange(d0 + ed, d0 + ed + m),
                        },
                    ),
                )
            } else {
                None
            }
        } else {
            None
        }
    } else {
        None
    }
}

/// Applies the float-with-exponent rule at position `i`.
pub fn m_float_exponent(s: &Vec<char>, i: usize) -> (r: Option<(usize, PretokenData)>)
    requires
        i < s@.len() <= MAX_INPUT_LENGTH,
    ensures
        rule_agrees(r, r_float_exponent(s@, i as int), s@, i as int),
{
    if is_dec_digit(s[i]) {
        let q = i + 1 + scan_dec_us(s, i + 1);
        let q2 = q + scan_float_frac(s, q);
        if q2 < s.len() && (s[q2] == 'e' || s[q2] == 'E') {
            let sg: usize = if q2 + 1 < s.len() && (s[q2 + 1] == '+' || s[q2 + 1] == '-') {
                1
            } else {
                0
            };
            let d0 = q2 + 1 + sg;
            let ed = scan_dec_us(s, d0);
            if scan_has_dec_digit(s, d0, ed) {
                let m = scan_suffix_exp(s, d0 + ed);
                Some(
                    (
                        d0 + ed + m - i,
                        PretokenData::FloatLiteral {
                            body: slice_charseq(s, i, d0 + ed),
                            suffix: slice_charseq(s, d0 + ed, d0 + ed + m),
                        },
                    ),
                )
            } else {
                None
            }
        } else {
            None
        }
    } else {
        None
    }
}

/// The reserved empty-exponent rule: a float body whose exponent has no
/// digits.
pub open spec fn r_reserved_float_empty_exponent(s: Seq<char>, i: int) -> Option<
    (nat, PretokenDataV),
> {
    if 0 <= i < s.len() && dec_digit(s[i]) {
        let q = i + 1 + run_len(s, i + 1, p_dec_us());
        let q2 = q + float_frac_len(s, q);
        if q2 < s.len() && (s[q2] == 'e' || s[q2] == 'E') {
            let sg: int = if q2 + 1 < s.len() && (s[q2 + 1] == '+' || s[q2 + 1] == '-') {
                1
            } else {
                0
            };
            let d0 = q2 + 1 + sg;
            let ed = run_len(s, d0, p_dec_us());
            if !has_dec_digit(s, d0, ed) {
                Some(((d0 + ed - i) as nat, PretokenDataV::Reserved))
            } else {
                None
            }
        } else {
            None
        }
    } else {
        None
    }
}

/// Applies the reserved empty-exponent rule at position `i`.
pub fn m_reserved_float_empty_exponent(s: &Vec<char>, i: usize) -> (r: Option<
    (usize, PretokenData),
>)
    requires
        i < s@.len() <= MAX_INPUT_LENGTH,
    ensures
        rule_agrees(r, r_reserved_float_empty_exponent(s@, i as int), s@, i as int),
{
    if is_dec_digit(s[i]) {
        let q = i + 1 + scan_dec_us(s, i + 1);
        let q2 = q + scan_float_frac(s, q);
        if q2 < s.len() && (s[q2] == 'e' || s[q2] == 'E') {
            let sg: usize = if q2 + 1 < s.len() && (s[q2 + 1] == '+' || s[q2 + 1] == '-') {
                1
            } else {
                0
            };
            let d0 = q2 + 1 + sg;
            let ed = scan_dec_us(s, d0);
            if !scan_has_dec_digit(s, d0, ed) {
                Some((d0 + ed - i, PretokenData::Reserved))
            } else {
                None
            }
        } else {
            None
        }
    } else {
        None
    }
}

/// The float-without-exponent rule: decimal digits, then a fractional part,
/// then an optional suffix not beginning `e` or `E`.
pub open spec fn r_float_no_exponent(s: Seq<char>, i: int) -> Option<(nat, PretokenDataV)> {
    if 0 <= i < s.len() && dec_digit(s[i]) {
        let q = i + 1 + run_len(s, i + 1, p_dec_us());
        let f = float_frac_len(s, q);
        if f > 0 {
            let m = suffix_ne(s, q + f);
            Some(
                (
                    (q + f + m - i) as nat,
                    PretokenDataV::FloatLiteral {
                        body: s.subrange(i, q + f),
                        suffix: s.subrange(q + f, q + f + m),
                    },
                ),
            )
        } else {
            None
        }
    } else {
        None
    }
}

/// Applies the float-without-exponent rule at position `i`.
pub fn m_float_no_exponent(s: &Vec<char>, i: usize) -> (r: Option<(usize, PretokenData)>)
    requires
        i < s@.len() <= MAX_INPUT_LENGTH,
    ensures
        rule_agrees(r, r_float_no_exponent(s@, i as int), s@, i as int),
{
    if is_dec_digit(s[i]) {
        let q = i + 1 + scan_dec_us(s, i + 1);
        let f = scan_float_frac(s, q);
        if f > 0 {
            let m = scan_suffix_ne(s, q + f);
            Some(
                (
                    q + f + m - i,
                    PretokenData::FloatLiteral {
                        body: slice_charseq(s, i, q + f),
                        suffix: slice_charseq(s, q + f, q + f + m),
                    },
                ),
            )
        } else {
            None
        }
    } else {
        None
    }
}

/// The float-with-final-dot rule: decimal digits and a trailing dot not
/// followed by a second dot, an underscore, or an XID_Start character.
pub open spec fn r_float_final_dot(s: Seq<char>, i: int) -> Option<(nat, PretokenDataV)> {
    if 0 <= i < s.len() && dec_digit(s[i]) {
        let q = i + 1 + run_len(s, i + 1, p_dec_us());
        if q < s.len() && s[q] == '.' && !final_dot_forbidden_follower(s, q) {
            Some(
                (
                    (q + 1 - i) as nat,
                    PretokenDataV::FloatLiteral {
                        body: s.subrange(i, q + 1),
                        suffix: s.subrange(q + 1, q + 1),
                    },
                ),
            )
        } else {
            None
        }
    } else {
        None
    }
}

/// Applies the float-with-final-dot rule at position `i`.
pub fn m_float_final_dot(s: &Vec<char>, i: usize) -> (r: Option<(usize, PretokenData)>)
    requires
        i < s@.len() <= MAX_INPUT_LENGTH,
    ensures
        rule_agrees(r, r_float_final_dot(s@, i as int), s@, i as int),
{
    if is_dec_digit(s[i]) {
        let q = i + 1 + scan_dec_us(s, i + 1);
        if q < s.len() && s[q] == '.' && !is_final_dot_forbidden(s, q) {
            Some(
                (
                    q + 1 - i,
                    PretokenData::FloatLiteral {
                        body: slice_charseq(s, i, q + 1),
                        suffix: slice_charseq(s, q + 1, q + 1),
                    },
                ),
            )
        } else {
            None
        }
    } else {
        None
    }
}

/// The reserved based-float rule: a binary, octal, or hexadecimal integer
/// prefix continued by a fractional part, a trailing dot, or (for binary and
/// octal) an exponent.
pub open spec fn r_reserved_float_based(s: Seq<char>, i: int) -> Option<(nat, PretokenDataV)> {
    if 0 <= i && i + 1 < s.len() && s[i] == '0' {
        if s[i + 1] == 'b' || s[i + 1] == 'o' {
            let q = i + 2 + run_len(s, i + 2, p_dec_us());
            let f = float_frac_len(s, q);
            let q2 = q + f;
            if q2 < s.len() && (s[q2] == 'e' || s[q2] == 'E') {
                let sg: int = if q2 + 1 < s.len() && (s[q2 + 1] == '+' || s[q2 + 1] == '-') {
                    1
                } else {
                    0
                };
                let d0 = q2 + 1 + sg;
                let ed = run_len(s, d0, p_dec_us());
                let m = suffix_exp(s, d0 + ed);
                Some(((d0 + ed + m - i) as nat, PretokenDataV::Reserved))
            } else if f > 0 {
                let m = suffix_ne(s, q2);
                Some(((q2 + m - i) as nat, PretokenDataV::Reserved))
            } else if q < s.len() && s[q] == '.' && !final_dot_forbidden_follower(s, q) {
                Some(((q + 1 - i) as nat, PretokenDataV::Reserved))
            } else {
                None
            }
        } else if s[i + 1] == 'x' {
            let q = i + 2 + run_len(s, i + 2, p_hex_us());
            let f = float_frac_len(s, q);
            if f > 0 {
                let m = suffix_ne(s, q + f);
                Some(((q + f + m - i) as nat, PretokenDataV::Reserved))
            } else if q < s.len() && s[q] == '.' && !final_dot_forbidden_follower(s, q) {
                Some(((q + 1 - i) as nat, PretokenDataV::Reserved))
            } else {
                None
            }
        } else {
            None
        }
    } else {
        None
    }
}

/// Applies the reserved based-float rule at position `i`.
pub fn m_reserved_float_based(s: &Vec<char>, i: usize) -> (r: Option<(usize, PretokenData)>)
    requires
        i < s@.len() <= MAX_INPUT_LENGTH,
    ensures
        rule_agrees(r, r_reserved_float_based(s@, i as int), s@, i as int),
{
    if i + 1 < s.len() && s[i] == '0' {
        if s[i + 1] == 'b' || s[i + 1] == 'o' {
            let q = i + 2 + scan_dec_us(s, i + 2);
            let f = scan_float_frac(s, q);
            let q2 = q + f;
            if q2 < s.len() && (s[q2] == 'e' || s[q2] == 'E') {
                let sg: usize = if q2 + 1 < s.len() && (s[q2 + 1] == '+' || s[q2 + 1] == '-') {
                    1
                } else {
                    0
                };
                let d0 = q2 + 1 + sg;
                let ed = scan_dec_us(s, d0);
                let m = scan_suffix_exp(s, d0 + ed);
                Some((d0 + ed + m - i, PretokenData::Reserved))
            } else if f > 0 {
                let m = scan_suffix_ne(s, q2);
                Some((q2 + m - i, PretokenData::Reserved))
            } else if q < s.len() && s[q] == '.' && !is_final_dot_forbidden(s, q) {
                Some((q + 1 - i, PretokenData::Reserved))
            } else {
                None
            }
        } else if s[i + 1] == 'x' {
            let q = i + 2 + scan_hex_us(s, i + 2);
            let f = scan_float_frac(s, q);
            if f > 0 {
                let m = scan_suffix_ne(s, q + f);
                Some((q + f + m - i, PretokenData::Reserved))
            } else if q < s.len() && s[q] == '.' && !is_final_dot_forbidden(s, q) {
                Some((q + 1 - i, PretokenData::Reserved))
            } else {
                None
            }
        } else {
            None
        }
    } else {
        None
    }
}

/// The binary integer literal rule: `0b`, digits, an optional suffix.
pub open spec fn r_int_binary(s: Seq<char>, i: int) -> Option<(nat, PretokenDataV)> {
    if 0 <= i && i + 1 < s.len() && s[i] == '0' && s[i + 1] == 'b' {
        let d = run_len(s, i + 2, p_dec_us());
        let m = suffix_ne(s, i + 2 + d);
        Some(
            (
                (2 + d + m) as nat,
                PretokenDataV::IntegerLiteral {
                    base: NumericBase::Binary,
                    digits: s.subrange(i + 2, i + 2 + d),
                    suffix: s.subrange(i + 2 + d, i + 2 + d + m),
                },
            ),
        )
    } else {
        None
    }
}

/// Applies the binary integer literal rule at position `i`.
pub fn m_int_binary(s: &Vec<char>, i: usize) -> (r: Option<(usize, PretokenData)>)
    requires
        i < s@.len() <= MAX_INPUT_LENGTH,
    ensures
        rule_agrees(r, r_int_binary(s@, i as int), s@, i as int),
{
    if i + 1 < s.len() && s[i] == '0' && s[i + 1] == 'b' {
        let d = scan_dec_us(s, i + 2);
        let m = scan_suffix_ne(s, i + 2 + d);
        Some(
            (
                2 + d + m,
                PretokenData::IntegerLiteral {
                    base: NumericBase::Binary,
                    digits: slice_charseq(s, i + 2, i + 2 + d),
                    suffix: slice_charseq(s, i + 2 + d, i + 2 + d + m),
                },
            ),
        )
    } else {
        None
    }
}

/// The octal integer literal rule: `0o`, digits, an optional suffix.
pub open spec fn r_int_octal(s: Seq<char>, i: int) -> Option<(nat, PretokenDataV)> {
    if 0 <= i && i + 1 < s.len() && s[i] == '0' && s[i + 1] == 'o' {
        let d = run_len(s, i + 2, p_dec_us());
        let m = suffix_ne(s, i + 2 + d);
        Some(
            (
                (2 + d + m) as nat,
                PretokenDataV::IntegerLiteral {
                    base: NumericBase::Octal,
                    digits: s.subrange(i + 2, i + 2 + d),
                    suffix: s.subrange(i + 2 + d, i + 2 + d + m),
                },
            ),
        )
    } else {
        None
    }
}

/// Applies the octal integer literal rule at position `i`.
pub fn m_int_octal(s: &Vec<char>, i: usize) -> (r: Option<(usize, PretokenData)>)
    requires
        i < s@.len() <= MAX_INPUT_LENGTH,
    ensures
        rule_agrees(r, r_int_octal(s@, i as int), s@, i as int),
{
    if i + 1 < s.len() && s[i] == '0' && s[i + 1] == 'o' {
        let d = scan_dec_us(s, i + 2);
        let m = scan_suffix_ne(s, i + 2 + d);
        Some(
            (
                2 + d + m,
                PretokenData::IntegerLiteral {
                    base: NumericBase::Octal,
                    digits: slice_charseq(s, i + 2, i + 2 + d),
                    suffix: slice_charseq(s, i + 2 + d, i + 2 + d + m),
                },
            ),
        )
    } else {
        None
    }
}

/// The hexadecimal integer literal rule: `0x`, hexadecimal digits, an
/// optional suffix not beginning with a hexadecimal letter.
pub open spec fn r_int_hexadecimal(s: Seq<char>, i: int) -> Option<(nat, PretokenDataV)> {
    if 0 <= i && i + 1 < s.len() && s[i] == '0' && s[i + 1] == 'x' {
        let d = run_len(s, i + 2, p_hex_us());
        let m = suffix_nh(s, i + 2 + d);
        Some(
            (
                (2 + d + m) as nat,
                PretokenDataV::IntegerLiteral {
                    base: NumericBase::Hexadecimal,
                    digits: s.subrange(i + 2, i + 2 + d),
                    suffix: s.subrange(i + 2 + d, i + 2 + d + m),
                },
            ),
        )
    } else {
        None
    }
}

/// Applies the hexadecimal integer literal rule at position `i`.
pub fn m_int_hexadecimal(s: &Vec<char>, i: usize) -> (r: Option<(usize, PretokenData)>)
    requires
        i < s@.len() <= MAX_INPUT_LENGTH,
    ensures
        rule_agrees(r, r_int_hexadecimal(s@, i as int), s@, i as int),
{
    if i + 1 < s.len() && s[i] == '0' && s[i + 1] == 'x' {
        let d = scan_hex_us(s, i + 2);
        let m = scan_suffix_nh(s, i + 2 + d);
        Some(
            (
                2 + d + m,
                PretokenData::IntegerLiteral {
                    base: NumericBase::Hexadecimal,
                    digits: slice_charseq(s, i + 2, i + 2 + d),
                    suffix: slice_charseq(s, i + 2 + d, i + 2 + d + m),
                },
            ),
        )
    } else {
        None
    }
}

/// The decimal integer literal rule: digits, an optional suffix not beginning
/// `e` or `E`.
pub open spec fn r_int_decimal(s: Seq<char>, i: int) -> Option<(nat, PretokenDataV)> {
    if 0 <= i < s.len() && dec_digit(s[i]) {
        let d = 1 + run_len(s, i + 1, p_dec_us());
        let m = suffix_ne(s, i + d);
        Some(
            (
                (d + m) as nat,
                PretokenDataV::IntegerLiteral {
                    base: NumericBase::Decimal,
                    digits: s.subrange(i, i + d),
                    suffix: s.subrange(i + d, i + d + m),
                },
            ),
        )
    } else {
        None
    }
}

/// Applies the decimal integer literal rule at position `i`.
pub fn m_int_decimal(s: &Vec<char>, i: usize) -> (r: Option<(usize, PretokenData)>)
    requires
        i < s@.len() <= MAX_INPUT_LENGTH,
    ensures
        rule_agrees(r, r_int_decimal(s@, i as int), s@, i as int),
{
    if is_dec_digit(s[i]) {
        let d = 1 + scan_dec_us(s, i + 1);
        let m = scan_suffix_ne(s, i + d);
        Some(
            (
                d + m,
                PretokenData::IntegerLiteral {
                    base: NumericBase::Decimal,
                    digits: slice_charseq(s, i, i + d),
                    suffix: slice_charseq(s, i + d, i + d + m),
                },
            ),
        )
    } else {
        None
    }
}

// --- reserved prefixes ---------------------------------------------------------

/// The reserved-prefix rule.  In the earliest edition: one of the unterminated
/// literal openers.  In later editions: an identifier directly followed by
/// `#`, `"`, or `'`.
pub open spec fn r_reserved_prefix(ed: Edition, s: Seq<char>, i: int) -> Option<
    (nat, PretokenDataV),
> {
    if ed == Edition::E2015 {
        if 0 <= i && i + 2 < s.len() && s[i] == 'b' && s[i + 1] == 'r' && (s[i + 2] == '#' || s[i
            + 2] == '"') {
            Some((3, PretokenDataV::Reserved))
        } else if 0 <= i && i + 1 < s.len() && s[i] == 'r' && (s[i + 1] == '#' || s[i + 1] == '"') {
            Some((2, PretokenDataV::Reserved))
        } else if 0 <= i && i + 1 < s.len() && s[i] == 'b' && s[i + 1] == '\'' {
            Some((2, PretokenDataV::Reserved))
        } else {
            None
        }
    } else {
        match ident_len(s, i) {
            Some(n) => if i + n < s.len() && (s[i + n] == '#' || s[i + n] == '"' || s[i + n]
                == '\'') {
                Some(((n + 1) as nat, PretokenDataV::Reserved))
            } else {
                None
            },
            None => None,
        }
    }
}

/// Applies the reserved-prefix rule at position `i`.
pub fn m_reserved_prefix(ed: Edition, s: &Vec<char>, i: usize) -> (r: Option<
    (usize, PretokenData),
>)
    requires
        i < s@.len() <= MAX_INPUT_LENGTH,
    ensures
        rule_agrees(r, r_reserved_prefix(ed, s@, i as int), s@, i as int),
{
    if ed == Edition::E2015 {
        if i + 2 < s.len() && s[i] == 'b' && s[i + 1] == 'r' && (s[i + 2] == '#' || s[i + 2]
            == '"') {
            Some((3, PretokenData::Reserved))
        } else if i + 1 < s.len() && s[i] == 'r' && (s[i + 1] == '#' || s[i + 1] == '"') {
            Some((2, PretokenData::Reserved))
        } else if i + 1 < s.len() && s[i] == 'b' && s[i + 1] == '\'' {
            Some((2, PretokenData::Reserved))
        } else {
            None
        }
    } else {
        match scan_ident(s, i) {
            Some(n) => {
                if i + n < s.len() && (s[i + n] == '#' || s[i + n] == '"' || s[i + n] == '\'') {
                    Some((n + 1, PretokenData::Reserved))
                } else {
                    None
                }
            },
            None => None,
        }
    }
}

} // verus!

verus! {

// --- the rule table -------------------------------------------------------------

/// Identifies one pretokenisation rule.
#[derive(Copy, Clone, PartialEq, Eq, Structural, Debug)]
pub enum RuleId {
    Whitespace,
    LineComment,
    BlockComment,
    UnterminatedBlockComment,
    ReservedGuard,
    Punctuation,
    SingleQuoted,
    RawLifetimeOrLabel,
    ReservedLifetimeOrLabelPrefix,
    LifetimeOrLabel,
    DoubleQuoted,
    HashlessRaw,
    HashedRaw,
    FloatWithExponent,
    ReservedFloatEmptyExponent,
    FloatWithoutExponent,
    FloatWithFinalDot,
    ReservedFloatBased,
    IntegerBinary,
    IntegerOctal,
    IntegerHexadecimal,
    IntegerDecimal,
    RawIdentifier,
    ReservedPrefix,
    NonrawIdentifier,
}

/// What the given rule matches at position `i`: the consumed length and the
/// pretoken attributes, or nothing.
#[verifier::opaque]
pub open spec fn rule_result(ed: Edition, r: RuleId, s: Seq<char>, i: int) -> Option<
    (nat, PretokenDataV),
> {
    match r {
        RuleId::Whitespace => r_whitespace(s, i),
        RuleId::LineComment => r_line_comment(s, i),
        RuleId::BlockComment => r_block_comment(s, i),
        RuleId::UnterminatedBlockComment => r_unterminated_block_comment(s, i),
        RuleId::ReservedGuard => r_reserved_guard(s, i),
        RuleId::Punctuation => r_punctuation(s, i),
        RuleId::SingleQuoted => r_single_quoted(s, i),
        RuleId::RawLifetimeOrLabel => r_raw_lifetime(s, i),
        RuleId::ReservedLifetimeOrLabelPrefix => r_reserved_lifetime_prefix(s, i),
        RuleId::LifetimeOrLabel => r_lifetime(s, i),
        RuleId::DoubleQuoted => r_double_quoted(ed, s, i),
        RuleId::HashlessRaw => r_hashless_raw(ed, s, i),
        RuleId::HashedRaw => r_hashed_raw(ed, s, i),
        RuleId::FloatWithExponent => r_float_exponent(s, i),
        RuleId::ReservedFloatEmptyExponent => r_reserved_float_empty_exponent(s, i),
        RuleId::FloatWithoutExponent => r_float_no_exponent(s, i),
        RuleId::FloatWithFinalDot => r_float_final_dot(s, i),
        RuleId::ReservedFloatBased => r_reserved_float_based(s, i),
        RuleId::IntegerBinary => r_int_binary(s, i),
        RuleId::IntegerOctal => r_int_octal(s, i),
        RuleId::IntegerHexadecimal => r_int_hexadecimal(s, i),
        RuleId::IntegerDecimal => r_int_decimal(s, i),
        RuleId::RawIdentifier => r_raw_ident(s, i),
        RuleId::ReservedPrefix => r_reserved_prefix(ed, s, i),
        RuleId::NonrawIdentifier => r_ident(s, i),
    }
}

/// Applies the given rule at position `i`.
pub fn apply_rule(ed: Edition, r: RuleId, s: &Vec<char>, i: usize) -> (res: Option<
    (usize, PretokenData),
>)
    requires
        i < s@.len() <= MAX_INPUT_LENGTH,
    ensures
        rule_agrees(res, rule_result(ed, r, s@, i as int), s@, i as int),
{
    proof {
        reveal(rule_result);
    }
    match r {
        RuleId::Whitespace => m_whitespace(s, i),
        RuleId::LineComment => m_line_comment(s, i),
        RuleId::BlockComment => match_block_comment(s, i),
        RuleId::UnterminatedBlockComment => m_unterminated_block_comment(s, i),
        RuleId::ReservedGuard => m_reserved_guard(s, i),
        RuleId::Punctuation => m_punctuation(s, i),
        RuleId::SingleQuoted => m_single_quoted(s, i),
        RuleId::RawLifetimeOrLabel => m_raw_lifetime(s, i),
        RuleId::ReservedLifetimeOrLabelPrefix => m_reserved_lifetime_prefix(s, i),
        RuleId::LifetimeOrLabel => m_lifetime(s, i),
        RuleId::DoubleQuoted => m_double_quoted(ed, s, i),
        RuleId::HashlessRaw => m_hashless_raw(ed, s, i),
        RuleId::HashedRaw => m_hashed_raw(ed, s, i),
        RuleId::FloatWithExponent => m_float_exponent(s, i),
        RuleId::ReservedFloatEmptyExponent => m_reserved_float_empty_exponent(s, i),
        RuleId::FloatWithoutExponent => m_float_no_exponent(s, i),
        RuleId::FloatWithFinalDot => m_float_final_dot(s, i),
        RuleId::ReservedFloatBased => m_reserved_float_based(s, i),
        RuleId::IntegerBinary => m_int_binary(s, i),
        RuleId::IntegerOctal => m_int_octal(s, i),
        RuleId::IntegerHexadecimal => m_int_hexadecimal(s, i),
        RuleId::IntegerDecimal => m_int_decimal(s, i),
        RuleId::RawIdentifier => m_raw_ident(s, i),
        RuleId::ReservedPrefix => m_reserved_prefix(ed, s, i),
        RuleId::NonrawIdentifier => m_ident(s, i),
    }
}

/// The edition's rule list, in priority order.
pub open spec fn edition_rules(ed: Edition) -> Seq<RuleId> {
    match ed {
        Edition::E2015 => seq![
            RuleId::Whitespace,
            RuleId::LineComment,
            RuleId::BlockComment,
            RuleId::UnterminatedBlockComment,
            RuleId::Punctuation,
            RuleId::SingleQuoted,
            RuleId::LifetimeOrLabel,
            RuleId::DoubleQuoted,
            RuleId::HashlessRaw,
            RuleId::HashedRaw,
            RuleId::FloatWithExponent,
            RuleId::ReservedFloatEmptyExponent,
            RuleId::FloatWithoutExponent,
            RuleId::FloatWithFinalDot,
            RuleId::ReservedFloatBased,
            RuleId::IntegerBinary,
            RuleId::IntegerOctal,
            RuleId::IntegerHexadecimal,
            RuleId::IntegerDecimal,
            RuleId::RawIdentifier,
            RuleId::ReservedPrefix,
            RuleId::NonrawIdentifier,
        ],
        Edition::E2021 => seq![
            RuleId::Whitespace,
            RuleId::LineComment,
            RuleId::BlockComment,
            RuleId::UnterminatedBlockComment,
            RuleId::Punctuation,
            RuleId::SingleQuoted,
            RuleId::RawLifetimeOrLabel,
            RuleId::ReservedLifetimeOrLabelPrefix,
            RuleId::LifetimeOrLabel,
            RuleId::DoubleQuoted,
            RuleId::HashlessRaw,
            RuleId::HashedRaw,
            RuleId::FloatWithExponent,
            RuleId::ReservedFloatEmptyExponent,
            RuleId::FloatWithoutExponent,
            RuleId::FloatWithFinalDot,
            RuleId::ReservedFloatBased,
            RuleId::IntegerBinary,
            RuleId::IntegerOctal,
            RuleId::IntegerHexadecimal,
            RuleId::IntegerDecimal,
            RuleId::RawIdentifier,
            RuleId::ReservedPrefix,
            RuleId::NonrawIdentifier,
        ],
        Edition::E2024 => seq![
            RuleId::Whitespace,
            RuleId::LineComment,
            RuleId::BlockComment,
            RuleId::UnterminatedBlockComment,
            RuleId::ReservedGuard,
            RuleId::Punctuation,
            RuleId::SingleQuoted,
            RuleId::RawLifetimeOrLabel,
            RuleId::ReservedLifetimeOrLabelPrefix,
            RuleId::LifetimeOrLabel,
            RuleId::DoubleQuoted,
            RuleId::HashlessRaw,
            RuleId::HashedRaw,
            RuleId::FloatWithExponent,
            RuleId::ReservedFloatEmptyExponent,
            RuleId::FloatWithoutExponent,
            RuleId::FloatWithFinalDot,
            RuleId::ReservedFloatBased,
            RuleId::IntegerBinary,
            RuleId::IntegerOctal,
            RuleId::IntegerHexadecimal,
            RuleId::IntegerDecimal,
            RuleId::RawIdentifier,
            RuleId::ReservedPrefix,
            RuleId::NonrawIdentifier,
        ],
    }
}

/// Returns the edition's rule list, in priority order.
pub fn edition_rules_vec(ed: Edition) -> (r: Vec<RuleId>)
    ensures
        r@ == edition_rules(ed),
{
    let mut v: Vec<RuleId> = Vec::new();
    v.push(RuleId::Whitespace);
    v.push(RuleId::LineComment);
    v.push(RuleId::BlockComment);
    v.push(RuleId::UnterminatedBlockComment);
    if matches!(ed, Edition::E2024) {
        v.push(RuleId::ReservedGuard);
    }
    v.push(RuleId::Punctuation);
    v.push(RuleId::SingleQuoted);
    if !matches!(ed, Edition::E2015) {
        v.push(RuleId::RawLifetimeOrLabel);
        v.push(RuleId::ReservedLifetimeOrLabelPrefix);
    }
    v.push(RuleId::LifetimeOrLabel);
    v.push(RuleId::DoubleQuoted);
    v.push(RuleId::HashlessRaw);
    v.push(RuleId::HashedRaw);
    v.push(RuleId::FloatWithExponent);
    v.push(RuleId::ReservedFloatEmptyExponent);
    v.push(RuleId::FloatWithoutExponent);
    v.push(RuleId::FloatWithFinalDot);
    v.push(RuleId::ReservedFloatBased);
    v.push(RuleId::IntegerBinary);
    v.push(RuleId::IntegerOctal);
    v.push(RuleId::IntegerHexadecimal);
    v.push(RuleId::IntegerDecimal);
    v.push(RuleId::RawIdentifier);
    v.push(RuleId::ReservedPrefix);
    v.push(RuleId::NonrawIdentifier);
    proof {
        assert(v@ =~= edition_rules(ed));
    }
    v
}

/// Whether a rule matches one of the non-decimal numeric literal forms, for
/// the one allowed exception to the longest-match principle.
pub open spec fn nondecimal_numeric_rule(r: RuleId) -> bool {
    r == RuleId::IntegerBinary || r == RuleId::IntegerOctal || r == RuleId::IntegerHexadecimal
        || r == RuleId::ReservedFloatBased
}

/// Says whether a rule matches one of the non-decimal numeric literal forms.
pub fn is_nondecimal_numeric_rule(r: RuleId) -> (res: bool)
    ensures
        res == nondecimal_numeric_rule(r),
{
    matches!(
        r,
        RuleId::IntegerBinary | RuleId::IntegerOctal | RuleId::IntegerHexadecimal
            | RuleId::ReservedFloatBased
    )
}

} // verus!
