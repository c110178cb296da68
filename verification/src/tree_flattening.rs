//! Converting a forest of tokens back into a linear sequence, for reporting.

use vstd::prelude::*;
use crate::fine_tokens::{FineToken, FineTokenV};
use crate::trees::{Forest, GroupKind, Tree};

verus! {

/// An item in the sequence returned by [`flatten`].
pub enum FlatItem {
    Token(FineToken),
    OpenDelimiter(GroupKind),
    CloseDelimiter(GroupKind),
}

/// The mathematical value of a flat item.
pub enum FlatItemV {
    Token(FineTokenV),
    OpenDelimiter(GroupKind),
    CloseDelimiter(GroupKind),
}

impl View for FlatItem {
    type V = FlatItemV;

    open spec fn view(&self) -> FlatItemV {
        match self {
            FlatItem::Token(t) => FlatItemV::Token(t@),
            FlatItem::OpenDelimiter(k) => FlatItemV::OpenDelimiter(*k),
            FlatItem::CloseDelimiter(k) => FlatItemV::CloseDelimiter(*k),
        }
    }
}

/// The flat form of one tree: a token, or a group written out between its
/// delimiters.
pub open spec fn flat_of_tree(t: Tree<FineToken>) -> Seq<FlatItemV>
    decreases t,
{
    match t {
        Tree::Token(tok) => seq![FlatItemV::Token(tok@)],
        Tree::Group(k, f) => seq![FlatItemV::OpenDelimiter(k)] + flat_of_forest(f, 0) + seq![
            FlatItemV::CloseDelimiter(k),
        ],
    }
}

/// The flat form of a forest's trees, from position `i` on.
pub open spec fn flat_of_forest(f: Forest<FineToken>, i: int) -> Seq<FlatItemV>
    decreases f, f.contents@.len() - i,
{
    if 0 <= i < f.contents@.len() {
        flat_of_tree(f.contents@[i]) + flat_of_forest(f, i + 1)
    } else {
        Seq::<FlatItemV>::empty()
    }
}

/// The mathematical values of a flat item sequence.
pub open spec fn flat_views(v: Seq<FlatItem>) -> Seq<FlatItemV> {
    Seq::new(v.len(), |k: int| v[k]@)
}

/// Converts a forest of tokens into a linear sequence.
///
/// The result holds the forest's tokens in order, with delimiter items
/// marking where each group opens and closes.
pub fn flatten(forest: &Forest<FineToken>) -> (r: Vec<FlatItem>)
    ensures
        flat_views(r@) == flat_of_forest(*forest, 0),
    decreases *forest,
{
    let n = forest.contents.len();
    let mut out: Vec<FlatItem> = Vec::new();
    let mut i: usize = 0;
    proof {
        assert(flat_views(out@) =~= Seq::<FlatItemV>::empty());
    }
    while i < n
        invariant
            i <= n == forest.contents@.len(),
            flat_views(out@) + flat_of_forest(*forest, i as int) == flat_of_forest(*forest, 0),
        decreases n - i,
    {
        let ghost pre = out@;
        match &forest.contents[i] {
            Tree::Token(tok) => {
                out.push(FlatItem::Token(tok.clone()));
                proof {
                    assert(flat_views(out@) =~= flat_views(pre) + flat_of_tree(
                        forest.contents@[i as int],
                    ));
                }
            },
            Tree::Group(k, inner) => {
                out.push(FlatItem::OpenDelimiter(*k));
                let mut sub = flatten(inner);
                let ghost subv = sub@;
                out.append(&mut sub);
                out.push(FlatItem::CloseDelimiter(*k));
                proof {
                    assert(flat_views(out@) =~= flat_views(pre) + (seq![
                        FlatItemV::OpenDelimiter(*k),
                    ] + flat_views(subv) + seq![FlatItemV::CloseDelimiter(*k)]));
                    assert(flat_views(out@) =~= flat_views(pre) + flat_of_tree(
                        forest.contents@[i as int],
                    ));
                }
            },
        }
        proof {
            assert(flat_views(pre) + (flat_of_tree(forest.contents@[i as int]) + flat_of_forest(
                *forest,
                i + 1,
            )) =~= flat_views(out@) + flat_of_forest(*forest, i + 1));
        }
        i = i + 1;
    }
    proof {
        assert(flat_of_forest(*forest, n as int) =~= Seq::<FlatItemV>::empty());
        assert(flat_views(out@) + Seq::<FlatItemV>::empty() =~= flat_views(out@));
    }
    out
}

} // verus!
