//! Trees and forests of tokens, grouped by balanced delimiters.

use vstd::prelude::*;

verus! {

/// A token or delimited group of tokens.
pub enum Tree<T> {
    Token(T),
    Group(GroupKind, Forest<T>),
}

/// A sequence of tokens and delimited groups of tokens.
pub struct Forest<T> {
    pub contents: Vec<Tree<T>>,
}

/// A kind of delimited group of tokens.
#[derive(PartialEq, Eq, Copy, Clone, Structural, Debug)]
pub enum GroupKind {
    /// `()` delimiters
    Parenthesised,
    /// `{}` delimiters
    Braced,
    /// `[]` delimiters
    Bracketed,
}

impl GroupKind {
    /// The delimiter character which starts this kind of group.
    pub fn open_char(&self) -> (r: char)
        ensures
            r == self.open_char_spec(),
    {
        match self {
            GroupKind::Parenthesised => '(',
            GroupKind::Braced => '{',
            GroupKind::Bracketed => '[',
        }
    }

    /// The delimiter character which ends this kind of group.
    pub fn close_char(&self) -> (r: char)
        ensures
            r == self.close_char_spec(),
    {
        match self {
            GroupKind::Parenthesised => ')',
            GroupKind::Braced => '}',
            GroupKind::Bracketed => ']',
        }
    }

    pub open spec fn open_char_spec(&self) -> char {
        match self {
            GroupKind::Parenthesised => '(',
            GroupKind::Braced => '{',
            GroupKind::Bracketed => '[',
        }
    }

    pub open spec fn close_char_spec(&self) -> char {
        match self {
            GroupKind::Parenthesised => ')',
            GroupKind::Braced => '}',
            GroupKind::Bracketed => ']',
        }
    }

    /// The kind of group opened by the specified character, if any.
    pub fn for_open_char(c: char) -> (r: Option<GroupKind>)
        ensures
            r == Self::for_open_char_spec(c),
    {
        match c {
            '(' => Some(GroupKind::Parenthesised),
            '{' => Some(GroupKind::Braced),
            '[' => Some(GroupKind::Bracketed),
            _ => None,
        }
    }

    /// The kind of group closed by the specified character, if any.
    pub fn for_close_char(c: char) -> (r: Option<GroupKind>)
        ensures
            r == Self::for_close_char_spec(c),
    {
        match c {
            ')' => Some(GroupKind::Parenthesised),
            '}' => Some(GroupKind::Braced),
            ']' => Some(GroupKind::Bracketed),
            _ => None,
        }
    }

    pub open spec fn for_open_char_spec(c: char) -> Option<GroupKind> {
        if c == '(' {
            Some(GroupKind::Parenthesised)
        } else if c == '{' {
            Some(GroupKind::Braced)
        } else if c == '[' {
            Some(GroupKind::Bracketed)
        } else {
            None
        }
    }

    pub open spec fn for_close_char_spec(c: char) -> Option<GroupKind> {
        if c == ')' {
            Some(GroupKind::Parenthesised)
        } else if c == '}' {
            Some(GroupKind::Braced)
        } else if c == ']' {
            Some(GroupKind::Bracketed)
        } else {
            None
        }
    }
}

impl<T> Forest<T> {
    /// Returns a new empty forest.
    pub fn new() -> (r: Self)
        ensures
            r.contents@.len() == 0,
    {
        Forest { contents: Vec::new() }
    }

    /// Adds a single token or delimited group of tokens to the sequence.
    pub fn push(&mut self, value: Tree<T>)
        ensures
            final(self).contents@ == old(self).contents@.push(value),
    {
        self.contents.push(value)
    }

    /// Says whether the sequence is empty.
    pub fn is_empty(&self) -> (r: bool)
        ensures
            r == (self.contents@.len() == 0),
    {
        self.contents.len() == 0
    }
}

/// The number of `Tree::Token` leaves in a forest, counting from position `i`.
pub open spec fn forest_token_count_from<T>(f: Forest<T>, i: int) -> nat
    decreases f, f.contents@.len() - i,
{
    if 0 <= i < f.contents@.len() {
        tree_token_count(f.contents@[i]) + forest_token_count_from(f, i + 1)
    } else {
        0
    }
}

/// The number of `Tree::Token` leaves in a forest.
pub open spec fn forest_token_count<T>(f: Forest<T>) -> nat {
    forest_token_count_from(f, 0)
}

/// The number of `Tree::Token` leaves in a tree.
pub open spec fn tree_token_count<T>(t: Tree<T>) -> nat
    decreases t,
{
    match t {
        Tree::Token(_) => 1,
        Tree::Group(_, f) => forest_token_count_from(f, 0),
    }
}

} // verus!
