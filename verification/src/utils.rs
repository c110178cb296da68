//! Common utility code.

use vstd::prelude::*;
use crate::char_sequences::Charseq;

verus! {

/// A graphic ASCII character or a space: shown as itself in the escaped
/// display form.
pub open spec fn plain_displayable(c: char) -> bool {
    (0x21 <= c as u32 && c as u32 <= 0x7e) || c == ' '
}

/// The uppercase hexadecimal digit with value `v`.
pub open spec fn hex_digit_char(v: nat) -> char {
    if v == 0 {
        '0'
    } else if v == 1 {
        '1'
    } else if v == 2 {
        '2'
    } else if v == 3 {
        '3'
    } else if v == 4 {
        '4'
    } else if v == 5 {
        '5'
    } else if v == 6 {
        '6'
    } else if v == 7 {
        '7'
    } else if v == 8 {
        '8'
    } else if v == 9 {
        '9'
    } else if v == 10 {
        'A'
    } else if v == 11 {
        'B'
    } else if v == 12 {
        'C'
    } else if v == 13 {
        'D'
    } else if v == 14 {
        'E'
    } else {
        'F'
    }
}

/// The guillemet-wrapped hexadecimal escape shown for one character: two
/// digits for small scalar values, four digits otherwise.
pub open spec fn display_escape(c: char) -> Seq<char> {
    let u = c as u32;
    if u < 256 {
        seq!['\u{2039}', hex_digit_char(((u / 16) % 16) as nat), hex_digit_char((u % 16) as nat),
            '\u{203a}']
    } else {
        seq!['\u{2039}', hex_digit_char(((u / 4096) % 16) as nat), hex_digit_char(
            ((u / 256) % 16) as nat,
        ), hex_digit_char(((u / 16) % 16) as nat), hex_digit_char((u % 16) as nat), '\u{203a}']
    }
}

/// The escaped display form of a character sequence, from position `i` on.
pub open spec fn display_form_from(s: Seq<char>, i: int) -> Seq<char>
    decreases s.len() - i,
{
    if !(0 <= i < s.len()) {
        Seq::<char>::empty()
    } else if plain_displayable(s[i]) {
        seq![s[i]] + display_form_from(s, i + 1)
    } else {
        display_escape(s[i]) + display_form_from(s, i + 1)
    }
}

/// Returns the uppercase hexadecimal digit with value `v`.
fn hex_digit(v: u32) -> (r: char)
    requires
        v < 16,
    ensures
        r == hex_digit_char(v as nat),
{
    match v {
        0 => '0',
        1 => '1',
        2 => '2',
        3 => '3',
        4 => '4',
        5 => '5',
        6 => '6',
        7 => '7',
        8 => '8',
        9 => '9',
        10 => 'A',
        11 => 'B',
        12 => 'C',
        13 => 'D',
        14 => 'E',
        _ => 'F',
    }
}

/// Returns an escaped form of a character sequence, for display to an end
/// user.
///
/// Non-ASCII and control characters are shown as guillemet-wrapped
/// hexadecimal escapes, which cannot be confused with characters meaningful
/// in the lexed language.
pub fn escape_for_display(input: &Charseq) -> (r: Charseq)
    ensures
        r@ == display_form_from(input@, 0),
{
    let n = input.len();
    let mut out: Vec<char> = Vec::new();
    let mut i: usize = 0;
    while i < n
        invariant
            i <= n == input@.len(),
            display_form_from(input@, 0) == out@ + display_form_from(input@, i as int),
        decreases n - i,
    {
        let ghost pre = out@;
        let c = input.at(i);
        let u = c as u32;
        if (0x21 <= u && u <= 0x7e) || c == ' ' {
            out.push(c);
            proof {
                assert(out@ =~= pre + seq![input@[i as int]]);
                assert(pre + (seq![input@[i as int]] + display_form_from(input@, i + 1)) =~= out@
                    + display_form_from(input@, i + 1));
            }
        } else if u < 256 {
            out.push('\u{2039}');
            out.push(hex_digit((u / 16) % 16));
            out.push(hex_digit(u % 16));
            out.push('\u{203a}');
            proof {
                assert(out@ =~= pre + display_escape(input@[i as int]));
                assert(pre + (display_escape(input@[i as int]) + display_form_from(input@, i + 1))
                    =~= out@ + display_form_from(input@, i + 1));
            }
        } else {
            out.push('\u{2039}');
            out.push(hex_digit((u / 4096) % 16));
            out.push(hex_digit((u / 256) % 16));
            out.push(hex_digit((u / 16) % 16));
            out.push(hex_digit(u % 16));
            out.push('\u{203a}');
            proof {
                assert(out@ =~= pre + display_escape(input@[i as int]));
                assert(pre + (display_escape(input@[i as int]) + display_form_from(input@, i + 1))
                    =~= out@ + display_form_from(input@, i + 1));
            }
        }
        i = i + 1;
    }
    proof {
        assert(display_form_from(input@, n as int) =~= Seq::<char>::empty());
        assert(out@ + Seq::<char>::empty() =~= out@);
    }
    Charseq::new(out)
}

} // verus!
