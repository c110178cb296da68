//! A sequence of Unicode scalar values, the unit all lexing works on.

use vstd::prelude::*;

verus! {

/// What Unicode Normalisation Form C turns a sequence of scalar values into.
///
/// The outside normaliser computes it; contracts speak of it by this name.
pub uninterp spec fn nfc_of(s: Seq<char>) -> Seq<char>;

/// A sequence of characters (Unicode scalar values).
pub struct Charseq {
    chars: Vec<char>,
}

impl View for Charseq {
    type V = Seq<char>;

    closed spec fn view(&self) -> Seq<char> {
        self.chars@
    }
}

impl Clone for Charseq {
    fn clone(&self) -> (r: Self)
        ensures
            r@ == self@,
    {
        Charseq { chars: self.chars.clone() }
    }
}

impl Charseq {
    /// Returns a new `Charseq` holding the specified characters.
    pub fn new(chars: Vec<char>) -> (r: Charseq)
        ensures
            r@ == chars@,
    {
        Charseq { chars }
    }

    /// Returns an empty `Charseq`.
    pub fn empty() -> (r: Charseq)
        ensures
            r@ == Seq::<char>::empty(),
    {
        Charseq { chars: Vec::new() }
    }

    /// Returns the number of characters in the sequence.
    pub fn len(&self) -> (r: usize)
        ensures
            r == self@.len(),
    {
        self.chars.len()
    }

    /// Returns `true` iff the sequence is zero-length.
    pub fn is_empty(&self) -> (r: bool)
        ensures
            r == (self@.len() == 0),
    {
        self.chars.len() == 0
    }

    /// Returns the character at the specified position.
    pub fn at(&self, i: usize) -> (r: char)
        requires
            i < self@.len(),
        ensures
            r == self@[i as int],
    {
        self.chars[i]
    }

    /// Returns `true` iff the specified character occurs in the sequence.
    pub fn contains(&self, c: char) -> (r: bool)
        ensures
            r == self@.contains(c),
    {
        let mut i: usize = 0;
        while i < self.chars.len()
            invariant
                i <= self@.len(),
                forall|j: int| 0 <= j < i ==> self@[j] != c,
            decreases self@.len() - i,
        {
            if self.chars[i] == c {
                assert(self@.contains(c));
                return true;
            }
            i = i + 1;
        }
        assert(forall|j: int| 0 <= j < self@.len() ==> self@[j] != c);
        false
    }

    /// Returns the sequence's characters.
    pub fn chars(&self) -> (r: &Vec<char>)
        ensures
            r@ == self@,
    {
        &self.chars
    }

    /// Converts to Unicode Normalisation Form C, returning a new sequence.
    ///
    /// Relies on unicode_normalization's `nfc` iterator adaptor: the result is
    /// the NFC form of the input, which is itself normalised (UAX #15
    /// guarantees that normalisation is idempotent).
    #[verifier::external_body]
    pub fn nfc(&self) -> (r: Charseq)
        ensures
            r@ == nfc_of(self@),
            nfc_of(r@) == r@,
    {
        Charseq {
            chars: unicode_normalization::UnicodeNormalization::nfc(
                self.chars.iter().copied(),
            ).collect(),
        }
    }

    /// Removes the characters at positions `start .. end` from the sequence.
    pub fn remove_range(&mut self, start: usize, end: usize)
        requires
            start <= end,
            end <= old(self)@.len(),
        ensures
            final(self)@ == old(self)@.subrange(0, start as int) + old(self)@.subrange(
                end as int,
                old(self)@.len() as int,
            ),
    {
        let mut kept: Vec<char> = Vec::new();
        let mut i: usize = 0;
        while i < start
            invariant
                i <= start,
                start <= end <= self@.len(),
                self@ == old(self)@,
                kept@ == self@.subrange(0, i as int),
            decreases start - i,
        {
            kept.push(self.chars[i]);
            i = i + 1;
        }
        let mut j: usize = end;
        while j < self.chars.len()
            invariant
                end <= j <= self@.len(),
                start <= end <= self@.len(),
                self@ == old(self)@,
                kept@ == self@.subrange(0, start as int) + self@.subrange(end as int, j as int),
            decreases self@.len() - j,
        {
            kept.push(self.chars[j]);
            j = j + 1;
        }
        assert(kept@ == self@.subrange(0, start as int) + self@.subrange(
            end as int,
            self@.len() as int,
        ));
        self.chars = kept;
    }

    /// Returns a copy of the characters at positions `start .. end`.
    pub fn slice(&self, start: usize, end: usize) -> (r: Charseq)
        requires
            start <= end,
            end <= self@.len(),
        ensures
            r@ == self@.subrange(start as int, end as int),
    {
        let mut taken: Vec<char> = Vec::new();
        let mut i: usize = start;
        while i < end
            invariant
                start <= i <= end <= self@.len(),
                taken@ == self@.subrange(start as int, i as int),
            decreases end - i,
        {
            taken.push(self.chars[i]);
            i = i + 1;
        }
        Charseq { chars: taken }
    }
}

/// Returns a new `Charseq`: the characters of `l1` followed by those of `l2`.
pub fn concat_charseqs(l1: &Charseq, l2: &Charseq) -> (r: Charseq)
    ensures
        r@ == l1@ + l2@,
{
    let mut chars: Vec<char> = l1.chars.clone();
    let mut i: usize = 0;
    while i < l2.chars.len()
        invariant
            i <= l2@.len(),
            chars@ == l1@ + l2@.subrange(0, i as int),
        decreases l2@.len() - i,
    {
        chars.push(l2.chars[i]);
        i = i + 1;
    }
    assert(chars@ == l1@ + l2@);
    Charseq { chars }
}

} // verus!
