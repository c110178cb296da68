//! Finding frontmatter at the start of the input.
//!
//! A frontmatter opens, after optional leading whitespace, with a run of
//! three or more dashes, an optional info string, and a required newline; it
//! closes with the first later line holding a dash run of the same length
//! followed only by whitespace.  An opener without a valid close is a
//! reserved form.

use vstd::prelude::*;
use crate::char_sequences::Charseq;
use crate::pretokenisation::rules::{dec_digit, run_len, lemma_run_len_le, p_ws,
    MAX_INPUT_LENGTH};
use crate::unicode::{is_pattern_white_space, pattern_white_space};

verus! {

/// Dashes, as a predicate value.
pub open spec fn p_dash() -> spec_fn(char) -> bool {
    |c: char| c == '-'
}

/// Info-string characters: ASCII alphanumerics, `_` and `-`.
pub open spec fn info_char(c: char) -> bool {
    dec_digit(c) || (0x61 <= c as u32 && c as u32 <= 0x7a) || (0x41 <= c as u32 && c as u32
        <= 0x5a) || c == '_' || c == '-'
}

/// Info-string characters, as a predicate value.
pub open spec fn p_info() -> spec_fn(char) -> bool {
    |c: char| info_char(c)
}

/// Whitespace other than LF, as a predicate value.
pub open spec fn p_ws_not_nl() -> spec_fn(char) -> bool {
    |c: char| pattern_white_space(c) && c != '\u{000a}'
}

/// Returns the length of the run of dashes at `i`.
fn scan_dashes(s: &Vec<char>, i: usize) -> (r: usize)
    requires
        i <= s@.len(),
    ensures
        r == run_len(s@, i as int, p_dash()),
        i + r <= s@.len(),
    decreases s@.len() - i,
{
    if i < s.len() && s[i] == '-' {
        1 + scan_dashes(s, i + 1)
    } else {
        0
    }
}

/// Returns the length of the run of info-string characters at `i`.
fn scan_info(s: &Vec<char>, i: usize) -> (r: usize)
    requires
        i <= s@.len(),
    ensures
        r == run_len(s@, i as int, p_info()),
        i + r <= s@.len(),
    decreases s@.len() - i,
{
    if i < s.len() {
        let u = s[i] as u32;
        if (0x30 <= u && u <= 0x39) || (0x61 <= u && u <= 0x7a) || (0x41 <= u && u <= 0x5a)
            || s[i] == '_' || s[i] == '-' {
            return 1 + scan_info(s, i + 1);
        }
    }
    0
}

/// Returns the length of the run of non-LF whitespace at `i`.
fn scan_ws_not_nl(s: &Vec<char>, i: usize) -> (r: usize)
    requires
        i <= s@.len(),
    ensures
        r == run_len(s@, i as int, p_ws_not_nl()),
        i + r <= s@.len(),
    decreases s@.len() - i,
{
    if i < s.len() && is_pattern_white_space(s[i]) && s[i] != '\u{000a}' {
        1 + scan_ws_not_nl(s, i + 1)
    } else {
        0
    }
}

/// Returns the length of the run of whitespace at `i`.
fn scan_ws(s: &Vec<char>, i: usize) -> (r: usize)
    requires
        i <= s@.len(),
    ensures
        r == run_len(s@, i as int, p_ws()),
        i + r <= s@.len(),
    decreases s@.len() - i,
{
    if i < s.len() && is_pattern_white_space(s[i]) {
        1 + scan_ws(s, i + 1)
    } else {
        0
    }
}

/// The end (one past the close, including its newline) of the frontmatter
/// whose opener used `d` dashes, searching line starts from `j`.
pub open spec fn close_search(s: Seq<char>, j: int, d: nat) -> Option<int>
    decreases s.len() - j,
{
    if j < 0 || j >= s.len() {
        None
    } else {
        let h = run_len(s, j, p_dash());
        let w2 = run_len(s, j + h, p_ws_not_nl());
        let q = j + h + w2;
        if h == d && (q >= s.len() || (0 <= q < s.len() && s[q] == '\u{000a}')) {
            if q >= s.len() {
                Some(s.len() as int)
            } else {
                Some(q + 1)
            }
        } else {
            match crate::cleaning::first_nl(s, j) {
                Some(k) => if k + 1 <= s.len() && k >= j {
                    close_search(s, k + 1, d)
                } else {
                    None
                },
                None => None,
            }
        }
    }
}

/// Searches line starts from `j` for the frontmatter close.
fn scan_close(s: &Vec<char>, j: usize, d: usize) -> (r: Option<usize>)
    requires
        j <= s@.len() <= MAX_INPUT_LENGTH,
    ensures
        match r {
            Some(e) => close_search(s@, j as int, d as nat) == Some(e as int) && j <= e
                <= s@.len(),
            None => close_search(s@, j as int, d as nat) is None,
        },
    decreases s@.len() - j,
{
    if j >= s.len() {
        None
    } else {
        let h = scan_dashes(s, j);
        let w2 = scan_ws_not_nl(s, j + h);
        let q = j + h + w2;
        if h == d && (q >= s.len() || s[q] == '\u{000a}') {
            if q >= s.len() {
                Some(s.len())
            } else {
                Some(q + 1)
            }
        } else {
            match crate::cleaning::scan_first_nl(s, j) {
                Some(k) => scan_close(s, k + 1, d),
                None => None,
            }
        }
    }
}

/// What the search for frontmatter found.
pub enum FrontmatterSpec {
    /// No frontmatter opens the input.
    NotFound,
    /// Frontmatter opens the input; this many characters are to be removed.
    Found(int),
    /// A frontmatter opener without a valid close: a reserved form.
    Reserved,
}

/// Where frontmatter lies at the start of the input, if it does.
pub open spec fn frontmatter_spec(s: Seq<char>) -> FrontmatterSpec {
    let w = run_len(s, 0, p_ws()) as int;
    let d = run_len(s, w, p_dash());
    if d < 3 {
        FrontmatterSpec::NotFound
    } else {
        let info = run_len(s, w + d, p_info()) as int;
        let p = w + d + info;
        if p < s.len() && s[p] == '\u{000a}' {
            match close_search(s, p + 1, d) {
                Some(e) => FrontmatterSpec::Found(e),
                None => FrontmatterSpec::Reserved,
            }
        } else {
            FrontmatterSpec::Reserved
        }
    }
}

/// Result of the search for frontmatter.
pub enum FrontmatterOutcome {
    /// Frontmatter wasn't found at the start of the input.
    NotFound,
    /// Frontmatter was found; the count of characters to remove from the
    /// start of the input.
    Found(usize),
    /// A frontmatter-like reserved form was found.
    Reserved,
}

/// Looks for frontmatter at the start of the input.
///
/// May indicate that there is frontmatter to remove, or that the input holds
/// a reserved frontmatter-like form and should be rejected.
pub fn find_frontmatter(input: &Charseq) -> (r: FrontmatterOutcome)
    requires
        input@.len() <= MAX_INPUT_LENGTH,
    ensures
        match r {
            FrontmatterOutcome::NotFound => frontmatter_spec(input@) == FrontmatterSpec::NotFound,
            FrontmatterOutcome::Found(e) => frontmatter_spec(input@) == FrontmatterSpec::Found(
                e as int,
            ) && e <= input@.len(),
            FrontmatterOutcome::Reserved => frontmatter_spec(input@) == FrontmatterSpec::Reserved,
        },
{
    let s = input.chars();
    let w = scan_ws(s, 0);
    let d = scan_dashes(s, w);
    if d < 3 {
        return FrontmatterOutcome::NotFound;
    }
    let info = scan_info(s, w + d);
    let p = w + d + info;
    if p < s.len() && s[p] == '\u{000a}' {
        match scan_close(s, p + 1, d) {
            Some(e) => FrontmatterOutcome::Found(e),
            None => FrontmatterOutcome::Reserved,
        }
    } else {
        FrontmatterOutcome::Reserved
    }
}

} // verus!
