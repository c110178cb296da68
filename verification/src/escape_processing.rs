//! Escape processing: the micro-grammar over literal content.
//!
//! A literal's content is read as a sequence of components: non-escapes,
//! simple escapes, 7/8-bit hexadecimal escapes, braced Unicode escapes, and
//! string-continuation escapes.  Single-quoted literals use the single-escape
//! interpretation (one component covering the whole content); double-quoted
//! families use the full interpretation (a greedy sequence of components).

use vstd::prelude::*;
use crate::char_sequences::Charseq;
use crate::pretokenisation::rules::{dec_digit, hex_digit, p_hex_us, run_len,
    lemma_run_len_le, is_hex_digit, scan_hex_us, MAX_INPUT_LENGTH};
use vstd::utf8::is_scalar;

verus! {

/// Error from escape processing.
///
/// Every error here reports a problem in the model or its use, as opposed to
/// a rejection of the input.
#[derive(Copy, Clone, PartialEq, Eq, Structural, Debug)]
pub enum Error {
    /// A query was made which the model leaves undefined, such as the
    /// represented character of a string-continuation escape.
    Undefined,
    /// The escape micro-grammar matched something of an unexpected shape.
    BadParse,
    /// Some other situation which cannot happen happened.
    Internal,
}

/// One match of the literal-component micro-grammar, with its decoded
/// attribute.
#[derive(Copy, Clone, PartialEq, Eq, Structural, Debug)]
pub enum LiteralComponent {
    NonEscape { represented_character: char },
    SimpleEscape { represented_character: char },
    UnicodeEscape { numeric_value: u32 },
    HexadecimalEscape { represented_byte: u8 },
    StringContinuationEscape,
}

/// Return value for [`try_single_escape_interpretation`] and
/// [`try_escape_interpretation`].
pub enum MaybeInterpretation<T> {
    /// The character sequence has an interpretation.
    HasInterpretation(T),
    /// The character sequence has no interpretation.
    HasNoInterpretation,
}

/// The represented character of a simple escape body, if the character is
/// one.
pub open spec fn simple_escape_value(c: char) -> Option<char> {
    if c == '0' {
        Some('\u{0000}')
    } else if c == 't' {
        Some('\u{0009}')
    } else if c == 'n' {
        Some('\u{000a}')
    } else if c == 'r' {
        Some('\u{000d}')
    } else if c == '"' {
        Some('\u{0022}')
    } else if c == '\'' {
        Some('\u{0027}')
    } else if c == '\\' {
        Some('\u{005c}')
    } else {
        None
    }
}

/// Interprets a simple escape body: the represented character, if the body
/// is a simple escape body.
pub fn interpret_simple_escape_body(c: char) -> (r: Option<char>)
    ensures
        r == simple_escape_value(c),
{
    if c == '0' {
        Some('\u{0000}')
    } else if c == 't' {
        Some('\u{0009}')
    } else if c == 'n' {
        Some('\u{000a}')
    } else if c == 'r' {
        Some('\u{000d}')
    } else if c == '"' {
        Some('\u{0022}')
    } else if c == '\'' {
        Some('\u{0027}')
    } else if c == '\\' {
        Some('\u{005c}')
    } else {
        None
    }
}

/// The characters allowed after `\` LF in a string continuation escape.
pub open spec fn continuation_ws(c: char) -> bool {
    c == '\u{0009}' || c == '\u{000a}' || c == '\u{000d}' || c == '\u{0020}'
}

/// String-continuation whitespace, as a predicate value.
pub open spec fn p_cont_ws() -> spec_fn(char) -> bool {
    |c: char| continuation_ws(c)
}

/// Returns the length of the run of continuation whitespace at `i`.
fn scan_cont_ws(s: &Vec<char>, i: usize) -> (r: usize)
    requires
        i <= s@.len(),
    ensures
        r == run_len(s@, i as int, p_cont_ws()),
        i + r <= s@.len(),
    decreases s@.len() - i,
{
    if i < s.len() && (s[i] == '\u{0009}' || s[i] == '\u{000a}' || s[i] == '\u{000d}' || s[i]
        == '\u{0020}') {
        1 + scan_cont_ws(s, i + 1)
    } else {
        0
    }
}

// --- hexadecimal digit values -------------------------------------------------

/// The numeric value of a hexadecimal digit character.
pub open spec fn hex_char_val(c: char) -> nat {
    if dec_digit(c) {
        (c as u32 - 0x30) as nat
    } else if 0x61 <= c as u32 && c as u32 <= 0x66 {
        (c as u32 - 0x61 + 10) as nat
    } else if 0x41 <= c as u32 && c as u32 <= 0x46 {
        (c as u32 - 0x41 + 10) as nat
    } else {
        0
    }
}

/// Returns the numeric value of a hexadecimal digit character.
pub fn hex_char_value(c: char) -> (r: u8)
    ensures
        r == hex_char_val(c),
        r <= 15 || !hex_digit(c),
{
    let u = c as u32;
    if 0x30 <= u && u <= 0x39 {
        (u - 0x30) as u8
    } else if 0x61 <= u && u <= 0x66 {
        (u - 0x61 + 10) as u8
    } else if 0x41 <= u && u <= 0x46 {
        (u - 0x41 + 10) as u8
    } else {
        0
    }
}

/// A hexadecimal digit's value is below sixteen.
pub proof fn lemma_hex_char_val_bound(c: char)
    ensures
        hex_char_val(c) < 16,
{
}

/// The number of hexadecimal digits (underscores not counted) among the `m`
/// characters starting at `j`.
pub open spec fn hd_count(s: Seq<char>, j: int, m: int) -> nat
    decreases m,
{
    if m <= 0 {
        0
    } else {
        hd_count(s, j, m - 1) + (if s[j + m - 1] == '_' {
            0nat
        } else {
            1nat
        })
    }
}

/// The value of the hexadecimal numeral formed by the `m` characters
/// starting at `j`, ignoring underscores.
pub open spec fn hd_value(s: Seq<char>, j: int, m: int) -> nat
    decreases m,
{
    if m <= 0 {
        0
    } else if s[j + m - 1] == '_' {
        hd_value(s, j, m - 1)
    } else {
        hd_value(s, j, m - 1) * 16 + hex_char_val(s[j + m - 1])
    }
}

/// Sixteen to the power `n`.
pub open spec fn pow16(n: nat) -> nat
    decreases n,
{
    if n == 0 {
        1
    } else {
        16 * pow16((n - 1) as nat)
    }
}

/// The numeral's value is below sixteen to the power of its digit count.
pub proof fn lemma_hd_value_bound(s: Seq<char>, j: int, m: int)
    requires
        m >= 0,
    ensures
        hd_value(s, j, m) < pow16(hd_count(s, j, m)),
    decreases m,
{
    if m > 0 {
        lemma_hd_value_bound(s, j, m - 1);
        if s[j + m - 1] != '_' {
            lemma_hex_char_val_bound(s[j + m - 1]);
        }
    }
}

/// Digit counts grow with the prefix length.
pub proof fn lemma_hd_count_mono(s: Seq<char>, j: int, m1: int, m2: int)
    requires
        0 <= m1 <= m2,
    ensures
        hd_count(s, j, m1) <= hd_count(s, j, m2),
    decreases m2,
{
    if m1 < m2 {
        lemma_hd_count_mono(s, j, m1, m2 - 1);
    }
}

/// Powers of sixteen grow with the exponent.
pub proof fn lemma_pow16_mono(n1: nat, n2: nat)
    requires
        n1 <= n2,
    ensures
        pow16(n1) <= pow16(n2),
    decreases n2,
{
    if n1 < n2 {
        lemma_pow16_mono(n1, (n2 - 1) as nat);
        assert(pow16(n2) == 16 * pow16((n2 - 1) as nat));
    }
}

/// Sixteen to the sixth power, spelled out.
pub proof fn lemma_pow16_6()
    ensures
        pow16(6) == 0x100_0000,
{
    assert(pow16(0) == 1);
    assert(pow16(1) == 16);
    assert(pow16(2) == 0x100);
    assert(pow16(3) == 0x1000);
    assert(pow16(4) == 0x1_0000);
    assert(pow16(5) == 0x10_0000);
    assert(pow16(6) == 0x100_0000);
}

/// Interprets the digits of a hexadecimal escape: the represented byte, where
/// the two characters are hexadecimal digits.
pub fn interpret_hexadecimal_escape_digits(c1: char, c2: char) -> (r: Option<u8>)
    ensures
        match r {
            Some(b) => hex_digit(c1) && hex_digit(c2) && b == 16 * hex_char_val(c1) + hex_char_val(
                c2,
            ),
            None => !(hex_digit(c1) && hex_digit(c2)),
        },
{
    if is_hex_digit(c1) && is_hex_digit(c2) {
        proof {
            lemma_hex_char_val_bound(c1);
            lemma_hex_char_val_bound(c2);
        }
        Some(16 * hex_char_value(c1) + hex_char_value(c2))
    } else {
        None
    }
}

// --- the component micro-grammar ----------------------------------------------

/// What a braced Unicode escape starting at `i` (at the `\`) matches: its
/// length and numeric value.
pub open spec fn unicode_escape_at(s: Seq<char>, i: int) -> Option<(nat, u32)> {
    let j = i + 3;
    let n = run_len(s, j, p_hex_us());
    let cnt = hd_count(s, j, n as int);
    if i + 2 < s.len() && s[i + 2] == '{' && j + n < s.len() && s[j + n] == '}' && n >= 1 && s[j]
        != '_' && 1 <= cnt <= 6 {
        Some(((n + 4) as nat, hd_value(s, j, n as int) as u32))
    } else {
        None
    }
}

/// Interprets the digit characters of a braced Unicode escape at `i`.
fn scan_unicode_escape(s: &Vec<char>, i: usize) -> (r: Option<(usize, u32)>)
    requires
        i < s@.len() <= MAX_INPUT_LENGTH,
        s@[i as int] == '\\',
        i + 1 < s@.len(),
        s@[i + 1] == 'u',
    ensures
        match r {
            Some((l, v)) => unicode_escape_at(s@, i as int) == Some((l as nat, v)) && i + l
                <= s@.len() && 4 <= l,
            None => unicode_escape_at(s@, i as int) is None,
        },
{
    if i + 2 < s.len() && s[i + 2] == '{' {
        let j = i + 3;
        let n = scan_hex_us(s, j);
        if j + n < s.len() && s[j + n] == '}' && n >= 1 && s[j] != '_' {
            // count the digits
            let mut cnt: usize = 0;
            let mut k: usize = 0;
            while k < n
                invariant
                    k <= n,
                    j + n <= s@.len() <= MAX_INPUT_LENGTH,
                    cnt == hd_count(s@, j as int, k as int),
                    cnt <= k,
                decreases n - k,
            {
                if s[j + k] != '_' {
                    cnt = cnt + 1;
                }
                k = k + 1;
            }
            if 1 <= cnt && cnt <= 6 {
                // accumulate the value
                let mut v: u32 = 0;
                let mut k2: usize = 0;
                proof {
                    lemma_pow16_6();
                }
                while k2 < n
                    invariant
                        k2 <= n,
                        j + n <= s@.len() <= MAX_INPUT_LENGTH,
                        hd_count(s@, j as int, n as int) <= 6,
                        v == hd_value(s@, j as int, k2 as int),
                        pow16(6) == 0x100_0000,
                    decreases n - k2,
                {
                    proof {
                        lemma_hd_value_bound(s@, j as int, k2 as int);
                        lemma_hd_count_mono(s@, j as int, k2 as int, n as int);
                        lemma_pow16_mono(hd_count(s@, j as int, k2 as int), 6);
                        if s@[j + k2] != '_' {
                            lemma_hd_count_mono(s@, j as int, k2 + 1, n as int);
                            lemma_pow16_mono(hd_count(s@, j as int, k2 + 1 as int), 6);
                            lemma_hex_char_val_bound(s@[j + k2]);
                            assert(hd_count(s@, j as int, k2 + 1 as int) == hd_count(
                                s@,
                                j as int,
                                k2 as int,
                            ) + 1);
                            assert(pow16(hd_count(s@, j as int, k2 + 1 as int)) == 16 * pow16(
                                hd_count(s@, j as int, k2 as int),
                            ));
                            assert(16 * pow16(hd_count(s@, j as int, k2 as int)) <= pow16(6));
                        }
                    }
                    if s[j + k2] != '_' {
                        v = v * 16 + hex_char_value(s[j + k2]) as u32;
                    }
                    k2 = k2 + 1;
                }
                proof {
                    lemma_hd_value_bound(s@, j as int, n as int);
                    lemma_pow16_mono(hd_count(s@, j as int, n as int), 6);
                }
                Some((n + 4, v))
            } else {
                None
            }
        } else {
            None
        }
    } else {
        None
    }
}

/// What the literal-component micro-grammar matches at position `i` of the
/// content, for the literal family whose closing quote is `q`: the consumed
/// length and the component.
pub open spec fn component_at(s: Seq<char>, i: int, q: char) -> Option<(nat, LiteralComponent)> {
    if !(0 <= i < s.len()) {
        None
    } else if s[i] == '\\' {
        if i + 1 >= s.len() {
            None
        } else {
            let c = s[i + 1];
            if c == '\u{000a}' {
                let w = run_len(s, i + 2, p_cont_ws());
                Some(((2 + w) as nat, LiteralComponent::StringContinuationEscape))
            } else if c == 'x' {
                if i + 3 < s.len() && hex_digit(s[i + 2]) && hex_digit(s[i + 3]) {
                    Some(
                        (
                            4,
                            LiteralComponent::HexadecimalEscape {
                                represented_byte: (16 * hex_char_val(s[i + 2]) + hex_char_val(
                                    s[i + 3],
                                )) as u8,
                            },
                        ),
                    )
                } else {
                    None
                }
            } else if c == 'u' {
                match unicode_escape_at(s, i) {
                    Some((l, v)) => Some((l, LiteralComponent::UnicodeEscape { numeric_value: v })),
                    None => None,
                }
            } else {
                match simple_escape_value(c) {
                    Some(rc) => Some(
                        (2, LiteralComponent::SimpleEscape { represented_character: rc }),
                    ),
                    None => None,
                }
            }
        }
    } else if s[i] == q {
        None
    } else {
        Some((1, LiteralComponent::NonEscape { represented_character: s[i] }))
    }
}

/// Matches one literal component at position `i` of the content, for the
/// literal family whose closing quote is `q`.
pub fn match_component(s: &Vec<char>, i: usize, q: char) -> (r: Option<(usize, LiteralComponent)>)
    requires
        i < s@.len() <= MAX_INPUT_LENGTH,
    ensures
        match r {
            Some((l, c)) => component_at(s@, i as int, q) == Some((l as nat, c)) && 1 <= l && i + l
                <= s@.len(),
            None => component_at(s@, i as int, q) is None,
        },
{
    if s[i] == '\\' {
        if i + 1 >= s.len() {
            None
        } else {
            let c = s[i + 1];
            if c == '\u{000a}' {
                let w = scan_cont_ws(s, i + 2);
                Some((2 + w, LiteralComponent::StringContinuationEscape))
            } else if c == 'x' {
                if i + 3 < s.len() && is_hex_digit(s[i + 2]) && is_hex_digit(s[i + 3]) {
                    proof {
                        lemma_hex_char_val_bound(s@[i + 2]);
                        lemma_hex_char_val_bound(s@[i + 3]);
                    }
                    let b: u8 = 16 * hex_char_value(s[i + 2]) + hex_char_value(s[i + 3]);
                    Some((4, LiteralComponent::HexadecimalEscape { represented_byte: b }))
                } else {
                    None
                }
            } else if c == 'u' {
                match scan_unicode_escape(s, i) {
                    Some((l, v)) => Some(
                        (l, LiteralComponent::UnicodeEscape { numeric_value: v }),
                    ),
                    None => None,
                }
            } else {
                match interpret_simple_escape_body(c) {
                    Some(rc) => Some(
                        (2, LiteralComponent::SimpleEscape { represented_character: rc }),
                    ),
                    None => None,
                }
            }
        }
    } else if s[i] == q {
        None
    } else {
        Some((1, LiteralComponent::NonEscape { represented_character: s[i] }))
    }
}

} // verus!

verus! {

use crate::unicode::char_from_u32;

// --- represented characters and bytes ---------------------------------------

/// The component's represented character, where the model defines one.
pub open spec fn repr_char_of(c: LiteralComponent) -> Option<char> {
    match c {
        LiteralComponent::NonEscape { represented_character } => Some(represented_character),
        LiteralComponent::SimpleEscape { represented_character } => Some(represented_character),
        LiteralComponent::UnicodeEscape { numeric_value } => if is_scalar(numeric_value) {
            Some(numeric_value as char)
        } else {
            None
        },
        LiteralComponent::HexadecimalEscape { represented_byte } => if represented_byte < 128 {
            Some(represented_byte as char)
        } else {
            None
        },
        LiteralComponent::StringContinuationEscape => None,
    }
}

/// The component's represented byte, where the model defines one.
pub open spec fn repr_byte_of(c: LiteralComponent) -> Option<u8> {
    match c {
        LiteralComponent::NonEscape { represented_character } => {
            if (represented_character as u32) < 128 {
                Some(represented_character as u8)
            } else {
                None
            }
        },
        LiteralComponent::SimpleEscape { represented_character } => {
            if (represented_character as u32) < 128 {
                Some(represented_character as u8)
            } else {
                None
            }
        },
        LiteralComponent::UnicodeEscape { .. } => None,
        LiteralComponent::HexadecimalEscape { represented_byte } => Some(represented_byte),
        LiteralComponent::StringContinuationEscape => None,
    }
}

impl LiteralComponent {
    /// Returns the component's represented character.
    ///
    /// Returns `None` where the component has no represented character, and
    /// an error where the model leaves the notion undefined.
    pub fn represented_character(&self) -> (r: Result<Option<char>, Error>)
        ensures
            match self {
                LiteralComponent::StringContinuationEscape => r == Err::<Option<char>, Error>(
                    Error::Undefined,
                ),
                _ => r == Ok::<Option<char>, Error>(repr_char_of(*self)),
            },
    {
        match self {
            LiteralComponent::NonEscape { represented_character } => Ok(
                Some(*represented_character),
            ),
            LiteralComponent::SimpleEscape { represented_character } => Ok(
                Some(*represented_character),
            ),
            LiteralComponent::UnicodeEscape { numeric_value } => Ok(char_from_u32(*numeric_value)),
            LiteralComponent::HexadecimalEscape { represented_byte } => {
                if *represented_byte < 128 {
                    Ok(Some(*represented_byte as char))
                } else {
                    Ok(None)
                }
            },
            LiteralComponent::StringContinuationEscape => Err(Error::Undefined),
        }
    }

    /// Returns the component's represented byte.
    ///
    /// Returns `None` where the component has no represented byte, and an
    /// error where the model leaves the notion undefined.
    pub fn represented_byte(&self) -> (r: Result<Option<u8>, Error>)
        ensures
            match self {
                LiteralComponent::UnicodeEscape { .. } => r == Err::<Option<u8>, Error>(
                    Error::Undefined,
                ),
                LiteralComponent::StringContinuationEscape => r == Err::<Option<u8>, Error>(
                    Error::Undefined,
                ),
                _ => r == Ok::<Option<u8>, Error>(repr_byte_of(*self)),
            },
    {
        match self {
            LiteralComponent::NonEscape { represented_character } => {
                let u = *represented_character as u32;
                if u < 128 {
                    Ok(Some(u as u8))
                } else {
                    Ok(None)
                }
            },
            LiteralComponent::SimpleEscape { represented_character } => {
                let u = *represented_character as u32;
                if u < 128 {
                    Ok(Some(u as u8))
                } else {
                    Ok(None)
                }
            },
            LiteralComponent::UnicodeEscape { .. } => Err(Error::Undefined),
            LiteralComponent::HexadecimalEscape { represented_byte } => Ok(
                Some(*represented_byte),
            ),
            LiteralComponent::StringContinuationEscape => Err(Error::Undefined),
        }
    }
}

// --- the two interpretation modes --------------------------------------------

/// The single-escape interpretation of single-quoted content: the one
/// component which consumes the entire content, where there is one and it is
/// not a string continuation escape.
pub open spec fn single_escape_interp(s: Seq<char>) -> Option<LiteralComponent> {
    match component_at(s, 0, '\'') {
        Some((l, c)) => if l == s.len() && !(c is StringContinuationEscape) {
            Some(c)
        } else {
            None
        },
        None => None,
    }
}

/// Attempts to find a single-escape interpretation of a character sequence.
pub fn try_single_escape_interpretation(charseq: &Charseq) -> (r: MaybeInterpretation<
    LiteralComponent,
>)
    requires
        charseq@.len() <= MAX_INPUT_LENGTH,
    ensures
        match r {
            MaybeInterpretation::HasInterpretation(c) => single_escape_interp(charseq@) == Some(c),
            MaybeInterpretation::HasNoInterpretation => single_escape_interp(charseq@) is None,
        },
{
    let s = charseq.chars();
    if s.len() == 0 {
        return MaybeInterpretation::HasNoInterpretation;
    }
    match match_component(s, 0, '\'') {
        Some((l, c)) => {
            if l == s.len() && !matches!(c, LiteralComponent::StringContinuationEscape) {
                MaybeInterpretation::HasInterpretation(c)
            } else {
                MaybeInterpretation::HasNoInterpretation
            }
        },
        None => MaybeInterpretation::HasNoInterpretation,
    }
}

/// The escape interpretation of double-quoted content from position `i`: the
/// greedy component sequence covering the rest of the content, with string
/// continuation escapes dropped.
pub open spec fn escape_interp_from(s: Seq<char>, i: int) -> Option<Seq<LiteralComponent>>
    decreases s.len() - i,
{
    if i >= s.len() {
        Some(Seq::<LiteralComponent>::empty())
    } else {
        match component_at(s, i, '"') {
            Some((l, c)) => if 1 <= l && i + l <= s.len() {
                match escape_interp_from(s, i + l) {
                    Some(rest) => if c is StringContinuationEscape {
                        Some(rest)
                    } else {
                        Some(seq![c] + rest)
                    },
                    None => None,
                }
            } else {
                None
            },
            None => None,
        }
    }
}

/// The escape interpretation of the whole content.
pub open spec fn escape_interp(s: Seq<char>) -> Option<Seq<LiteralComponent>> {
    escape_interp_from(s, 0)
}

/// Interprets double-quoted content from position `i`.
fn interpret_components_from(s: &Vec<char>, i: usize) -> (r: Option<Vec<LiteralComponent>>)
    requires
        i <= s@.len() <= MAX_INPUT_LENGTH,
    ensures
        match r {
            Some(v) => escape_interp_from(s@, i as int) == Some(v@),
            None => escape_interp_from(s@, i as int) is None,
        },
    decreases s@.len() - i,
{
    if i >= s.len() {
        Some(Vec::new())
    } else {
        match match_component(s, i, '"') {
            Some((l, c)) => {
                match interpret_components_from(s, i + l) {
                    Some(mut rest) => {
                        if !matches!(c, LiteralComponent::StringContinuationEscape) {
                            let ghost pre = rest@;
                            rest.insert(0, c);
                            proof {
                                assert(rest@ =~= seq![c] + pre);
                            }
                        }
                        Some(rest)
                    },
                    None => None,
                }
            },
            None => None,
        }
    }
}

/// Attempts to find an escape interpretation of a character sequence.
pub fn try_escape_interpretation(charseq: &Charseq) -> (r: MaybeInterpretation<
    Vec<LiteralComponent>,
>)
    requires
        charseq@.len() <= MAX_INPUT_LENGTH,
    ensures
        match r {
            MaybeInterpretation::HasInterpretation(v) => escape_interp(charseq@) == Some(v@),
            MaybeInterpretation::HasNoInterpretation => escape_interp(charseq@) is None,
        },
{
    match interpret_components_from(charseq.chars(), 0) {
        Some(v) => MaybeInterpretation::HasInterpretation(v),
        None => MaybeInterpretation::HasNoInterpretation,
    }
}

} // verus!
