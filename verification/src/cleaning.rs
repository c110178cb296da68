//! Transformations made to input text before tokenisation: byte-order-mark
//! removal, CRLF normalisation, shebang removal, and (optionally)
//! frontmatter removal.

use vstd::prelude::*;
use crate::char_sequences::Charseq;
use crate::fine_tokens::{FineTokenData, FineTokenDataV};
use crate::pretokenisation::rules::MAX_INPUT_LENGTH;
use crate::tokenisation::{first_nonwhitespace_token, first_nonws_token, FirstToken};
use crate::pretokenisation::chosen_data;
use crate::reprocessing::{reprocess_spec, ReprocessOutcome};
use crate::unicode::is_pattern_white_space;
use crate::{CleaningMode, Edition};

pub mod frontmatter;

verus! {

use crate::cleaning::frontmatter::{find_frontmatter, frontmatter_spec, FrontmatterOutcome,
    FrontmatterSpec};

/// The input without a leading byte order mark.
pub open spec fn remove_bom_spec(s: Seq<char>) -> Seq<char> {
    if s.len() >= 1 && s[0] == '\u{feff}' {
        s.skip(1)
    } else {
        s
    }
}

/// The input from position `i` with every CR LF pair replaced by LF.
pub open spec fn replace_crlf_from(s: Seq<char>, i: int) -> Seq<char>
    decreases s.len() - i,
{
    if i < 0 || i >= s.len() {
        Seq::<char>::empty()
    } else if s[i] == '\u{000d}' && i + 1 < s.len() && s[i + 1] == '\u{000a}' {
        replace_crlf_from(s, i + 1)
    } else {
        seq![s[i]] + replace_crlf_from(s, i + 1)
    }
}

/// The input with every CR LF pair replaced by LF.
pub open spec fn replace_crlf_spec(s: Seq<char>) -> Seq<char> {
    replace_crlf_from(s, 0)
}

/// Whether the input opens with the two characters of a shebang.
pub open spec fn starts_shebang(s: Seq<char>) -> bool {
    s.len() >= 2 && s[0] == '#' && s[1] == '!'
}

/// Whether the text after `#!` lexes to an inner attribute's opening
/// bracket: its first non-whitespace token is the punctuation `[`.
pub open spec fn shebang_is_attribute(s: Seq<char>, ed: Edition) -> bool {
    match first_nonws_token(ed, s.skip(2), 0) {
        FirstToken::At(p0, _) => match reprocess_spec(chosen_data(ed, s.skip(2), p0)) {
            ReprocessOutcome::Token(d) => d == (FineTokenDataV::Punctuation { mark: '[' }),
            _ => false,
        },
        FirstToken::Missing => false,
    }
}

/// The position of the first LF at or after `i`, if there is one.
pub open spec fn first_nl(s: Seq<char>, i: int) -> Option<int>
    decreases s.len() - i,
{
    if i < 0 || i >= s.len() {
        None
    } else if s[i] == '\u{000a}' {
        Some(i)
    } else {
        first_nl(s, i + 1)
    }
}

/// The input after shebang removal: where a shebang (and not an inner
/// attribute) opens the input, everything up to and including the first LF
/// is stripped, or the whole input if there is no LF.
pub open spec fn clean_shebang_spec(s: Seq<char>, ed: Edition) -> Seq<char> {
    if !starts_shebang(s) {
        s
    } else if shebang_is_attribute(s, ed) {
        s
    } else {
        match first_nl(s, 0) {
            Some(k) => s.skip(k + 1),
            None => Seq::<char>::empty(),
        }
    }
}

/// What cleaning yields: the cleaned text, or rejection.
pub enum CleanSpec {
    Cleaned(Seq<char>),
    Reject,
}

/// The whole cleaning pass: byte order mark removal, CRLF normalisation,
/// then - according to the mode - shebang removal and frontmatter removal.
pub open spec fn clean_spec(s: Seq<char>, ed: Edition, mode: CleaningMode) -> CleanSpec {
    let a = remove_bom_spec(s);
    let b = replace_crlf_spec(a);
    let c = if mode != CleaningMode::NoCleaning {
        clean_shebang_spec(b, ed)
    } else {
        b
    };
    if mode == CleaningMode::CleanShebangAndFrontmatter {
        match frontmatter_spec(c) {
            FrontmatterSpec::NotFound => CleanSpec::Cleaned(c),
            FrontmatterSpec::Found(e) => CleanSpec::Cleaned(c.skip(e)),
            FrontmatterSpec::Reserved => CleanSpec::Reject,
        }
    } else {
        CleanSpec::Cleaned(c)
    }
}

/// Result of cleaning.
pub enum CleaningOutcome {
    /// Cleaning succeeded, yielding the cleaned text.
    Accepts(Charseq),
    /// Cleaning rejected the input; the string is an explanation.
    Rejects(String),
    /// The input demonstrated a problem in the model; the string is an error
    /// message.
    ModelError(String),
}

/// Returns the input without a leading byte order mark.
pub fn remove_bom(input: &Charseq) -> (r: Charseq)
    ensures
        r@ == remove_bom_spec(input@),
{
    if input.len() >= 1 && input.at(0) == '\u{feff}' {
        let r = input.slice(1, input.len());
        proof {
            assert(input@.subrange(1, input@.len() as int) =~= input@.skip(1));
        }
        r
    } else {
        input.clone()
    }
}

/// Returns the input with every CR LF pair replaced by LF.
pub fn replace_crlf(input: &Charseq) -> (r: Charseq)
    ensures
        r@ == replace_crlf_spec(input@),
        r@.len() <= input@.len(),
{
    let s = input.chars();
    let mut out: Vec<char> = Vec::new();
    let mut i: usize = 0;
    while i < s.len()
        invariant
            i <= s@.len(),
            s@ == input@,
            out@.len() <= i,
            replace_crlf_from(s@, 0) == out@ + replace_crlf_from(s@, i as int),
        decreases s@.len() - i,
    {
        let ghost pre = out@;
        if !(s[i] == '\u{000d}' && i + 1 < s.len() && s[i + 1] == '\u{000a}') {
            out.push(s[i]);
            proof {
                assert(pre + (seq![s@[i as int]] + replace_crlf_from(s@, i + 1)) =~= out@
                    + replace_crlf_from(s@, i + 1));
            }
        }
        i = i + 1;
    }
    proof {
        assert(replace_crlf_from(s@, s@.len() as int) =~= Seq::<char>::empty());
        assert(out@ + Seq::<char>::empty() =~= out@);
    }
    Charseq::new(out)
}

/// Returns the position of the first LF in the input, if there is one.
fn scan_first_nl(s: &Vec<char>, i: usize) -> (r: Option<usize>)
    requires
        i <= s@.len() <= MAX_INPUT_LENGTH,
    ensures
        match r {
            Some(k) => first_nl(s@, i as int) == Some(k as int) && i <= k < s@.len(),
            None => first_nl(s@, i as int) is None,
        },
    decreases s@.len() - i,
{
    if i >= s.len() {
        None
    } else if s[i] == '\u{000a}' {
        Some(i)
    } else {
        scan_first_nl(s, i + 1)
    }
}

/// Performs shebang removal.
pub fn clean_shebang(input: &Charseq, edition: Edition) -> (r: Charseq)
    requires
        input@.len() <= MAX_INPUT_LENGTH,
    ensures
        r@ == clean_shebang_spec(input@, edition),
        r@.len() <= input@.len(),
{
    if !(input.len() >= 2 && input.at(0) == '#' && input.at(1) == '!') {
        return input.clone();
    }
    let rest = input.slice(2, input.len());
    proof {
        assert(input@.subrange(2, input@.len() as int) =~= input@.skip(2));
    }
    match first_nonwhitespace_token(&rest, edition) {
        Some(t) => {
            let is_bracket = match &t.data {
                FineTokenData::Punctuation { mark } => *mark == '[',
                _ => false,
            };
            if is_bracket {
                return input.clone();
            }
        },
        None => {},
    }
    match scan_first_nl(input.chars(), 0) {
        Some(k) => {
            let r = input.slice(k + 1, input.len());
            proof {
                assert(input@.subrange(k + 1, input@.len() as int) =~= input@.skip(k + 1));
            }
            r
        },
        None => Charseq::empty(),
    }
}

/// Applies the transformations made to input text before tokenisation,
/// honouring the requested cleaning mode.
pub fn clean(input: &Charseq, edition: Edition, cleaning: CleaningMode) -> (r: CleaningOutcome)
    requires
        input@.len() <= MAX_INPUT_LENGTH,
    ensures
        match r {
            CleaningOutcome::Accepts(y) => clean_spec(input@, edition, cleaning) == CleanSpec::Cleaned(
                y@,
            ) && y@.len() <= input@.len(),
            CleaningOutcome::Rejects(_) => clean_spec(input@, edition, cleaning)
                == CleanSpec::Reject,
            CleaningOutcome::ModelError(_) => false,
        },
{
    let a = remove_bom(input);
    let b = replace_crlf(&a);
    let c = if !matches!(cleaning, CleaningMode::NoCleaning) {
        clean_shebang(&b, edition)
    } else {
        b
    };
    if matches!(cleaning, CleaningMode::CleanShebangAndFrontmatter) {
        match find_frontmatter(&c) {
            FrontmatterOutcome::NotFound => CleaningOutcome::Accepts(c),
            FrontmatterOutcome::Found(e) => {
                let r = c.slice(e, c.len());
                proof {
                    assert(c@.subrange(e as int, c@.len() as int) =~= c@.skip(e as int));
                }
                CleaningOutcome::Accepts(r)
            },
            FrontmatterOutcome::Reserved => CleaningOutcome::Rejects(
                "malformed frontmatter".to_owned(),
            ),
        }
    } else {
        CleaningOutcome::Accepts(c)
    }
}

/// Applies the transformations made to input text before tokenisation inside
/// a declarative macro: only CRLF normalisation.
pub fn clean_for_macro_input(input: &Charseq, _edition: Edition) -> (r: Charseq)
    ensures
        r@ == replace_crlf_spec(input@),
        r@.len() <= input@.len(),
{
    replace_crlf(input)
}

} // verus!
