//! Converts a sequence of fine-grained tokens into a forest of
//! delimiter-balanced groups.

use vstd::prelude::*;
use crate::fine_tokens::{FineToken, FineTokenData, FineTokenDataV};
use crate::trees::{Forest, GroupKind, Tree};

verus! {

/// The data of the tokens a tree stands for, with each group written back
/// out between its opening and closing delimiter.
pub open spec fn flat_data_tree(t: Tree<FineToken>) -> Seq<FineTokenDataV>
    decreases t,
{
    match t {
        Tree::Token(tok) => seq![tok@.data],
        Tree::Group(k, f) => seq![
            FineTokenDataV::Punctuation { mark: k.open_char_spec() },
        ] + flat_data_forest(f, 0) + seq![FineTokenDataV::Punctuation { mark: k.close_char_spec() }],
    }
}

/// The data of the tokens a forest stands for, from position `i` on.
pub open spec fn flat_data_forest(f: Forest<FineToken>, i: int) -> Seq<FineTokenDataV>
    decreases f, f.contents@.len() - i,
{
    if 0 <= i < f.contents@.len() {
        flat_data_tree(f.contents@[i]) + flat_data_forest(f, i + 1)
    } else {
        Seq::<FineTokenDataV>::empty()
    }
}

/// Appending a tree appends its flat data.
proof fn lemma_flat_push(f1: Forest<FineToken>, f2: Forest<FineToken>, t: Tree<FineToken>, i: int)
    requires
        f2.contents@ == f1.contents@.push(t),
        0 <= i <= f1.contents@.len(),
    ensures
        flat_data_forest(f2, i) == flat_data_forest(f1, i) + flat_data_tree(t),
    decreases f1.contents@.len() - i,
{
    if i < f1.contents@.len() {
        lemma_flat_push(f1, f2, t, i + 1);
        assert(f2.contents@[i] == f1.contents@[i]);
        assert(flat_data_forest(f2, i) =~= flat_data_forest(f1, i) + flat_data_tree(t));
    } else {
        assert(f2.contents@[i] == t);
        assert(flat_data_forest(f2, i + 1) == Seq::<FineTokenDataV>::empty());
        assert(flat_data_forest(f1, i) == Seq::<FineTokenDataV>::empty());
        assert(flat_data_forest(f2, i) =~= flat_data_forest(f1, i) + flat_data_tree(t));
    }
}

/// The data values of a token sequence.
pub open spec fn datas_of(ts: Seq<FineToken>) -> Seq<FineTokenDataV> {
    Seq::new(ts.len(), |k: int| ts[k]@.data)
}

/// Whether the token data from position `i` on closes every group it opens,
/// in the right order, starting from the given stack of open groups.
pub open spec fn balance_scan(ds: Seq<FineTokenDataV>, i: int, stack: Seq<GroupKind>) -> bool
    decreases ds.len() - i,
{
    if i < 0 {
        false
    } else if i >= ds.len() {
        stack.len() == 0
    } else {
        match ds[i] {
            FineTokenDataV::Punctuation { mark } => {
                match GroupKind::for_open_char_spec(mark) {
                    Some(k) => balance_scan(ds, i + 1, stack.push(k)),
                    None => match GroupKind::for_close_char_spec(mark) {
                        Some(k) => stack.len() > 0 && stack.last() == k && balance_scan(
                            ds,
                            i + 1,
                            stack.drop_last(),
                        ),
                        None => balance_scan(ds, i + 1, stack),
                    },
                }
            },
            _ => balance_scan(ds, i + 1, stack),
        }
    }
}

/// The tokens the partial construction stands for: each open frame holds the
/// parent forest built so far, below its pending opening delimiter.
pub open spec fn reconstruct(
    frames: Seq<(GroupKind, Forest<FineToken>)>,
    cur: Forest<FineToken>,
) -> Seq<FineTokenDataV>
    decreases frames.len(),
{
    if frames.len() == 0 {
        flat_data_forest(cur, 0)
    } else {
        reconstruct(frames.drop_last(), frames.last().1) + seq![
            FineTokenDataV::Punctuation { mark: frames.last().0.open_char_spec() },
        ] + flat_data_forest(cur, 0)
    }
}

/// The kinds of the open frames, bottom first.
pub open spec fn frame_kinds(frames: Seq<(GroupKind, Forest<FineToken>)>) -> Seq<GroupKind> {
    Seq::new(frames.len(), |k: int| frames[k].0)
}

/// Appending a tree to the current forest appends its flat data to the
/// reconstruction.
proof fn lemma_reconstruct_push(
    frames: Seq<(GroupKind, Forest<FineToken>)>,
    f1: Forest<FineToken>,
    f2: Forest<FineToken>,
    t: Tree<FineToken>,
)
    requires
        f2.contents@ == f1.contents@.push(t),
    ensures
        reconstruct(frames, f2) == reconstruct(frames, f1) + flat_data_tree(t),
{
    lemma_flat_push(f1, f2, t, 0);
    if frames.len() == 0 {
    } else {
        assert(reconstruct(frames, f2) =~= reconstruct(frames, f1) + flat_data_tree(t));
    }
}

/// Converts a sequence of tokens into a forest.
///
/// Opening punctuation pushes a group; the matching closing punctuation pops
/// it.  The input is accepted exactly when its delimiters balance, and the
/// forest then stands for exactly the input tokens' data.
pub fn construct_forest(tokens: &Vec<FineToken>) -> (r: Result<Forest<FineToken>, String>)
    ensures
        match r {
            Ok(f) => balance_scan(datas_of(tokens@), 0, Seq::<GroupKind>::empty())
                && flat_data_forest(f, 0) == datas_of(tokens@),
            Err(_) => !balance_scan(datas_of(tokens@), 0, Seq::<GroupKind>::empty()),
        },
{
    let ghost orig = tokens@;
    let ghost ds = datas_of(orig);
    let n_tokens = tokens.len();
    let mut frames: Vec<(GroupKind, Forest<FineToken>)> = Vec::new();
    let mut cur: Forest<FineToken> = Forest::new();
    let mut i: usize = 0;
    proof {
        assert(flat_data_forest(cur, 0) == Seq::<FineTokenDataV>::empty());
        assert(reconstruct(frames@, cur) =~= ds.subrange(0, 0));
        assert(frame_kinds(frames@) =~= Seq::<GroupKind>::empty());
    }
    while i < n_tokens
        invariant
            orig == tokens@,
            n_tokens == orig.len(),
            i <= n_tokens,
            ds == datas_of(orig),
            reconstruct(frames@, cur) == ds.subrange(0, i as int),
            balance_scan(ds, 0, Seq::<GroupKind>::empty()) == balance_scan(
                ds,
                i as int,
                frame_kinds(frames@),
            ),
        decreases n_tokens - i,
    {
        let t = tokens[i].clone();
        let ghost tv = t;
        proof {
            assert(t@ == orig[i as int]@);
            assert(ds[i as int] == t@.data);
        }
        let mark: Option<char> = match &t.data {
            FineTokenData::Punctuation { mark } => Some(*mark),
            _ => None,
        };
        let ghost old_frames = frames@;
        let ghost old_cur = cur;
        match mark {
            Some(m) => {
                match GroupKind::for_open_char(m) {
                    Some(k) => {
                        frames.push((k, cur));
                        cur = Forest::new();
                        proof {
                            assert(frames@.drop_last() =~= old_frames);
                            assert(frames@.last() == (k, old_cur));
                            assert(flat_data_forest(cur, 0) == Seq::<FineTokenDataV>::empty());
                            assert(reconstruct(frames@, cur) =~= ds.subrange(0, i + 1));
                            assert(frame_kinds(frames@) =~= frame_kinds(old_frames).push(k));
                        }
                    },
                    None => {
                        match GroupKind::for_close_char(m) {
                            Some(k) => {
                                if frames.len() == 0 {
                                    proof {
                                        assert(frame_kinds(old_frames).len() == 0);
                                        assert(t@.data == (FineTokenDataV::Punctuation {
                                            mark: m,
                                        }));
                                        assert(!balance_scan(
                                            ds,
                                            i as int,
                                            frame_kinds(old_frames),
                                        ));
                                        assert(!balance_scan(ds, 0, Seq::<GroupKind>::empty()));
                                    }
                                    return Err("unexpected close delimiter".to_owned());
                                }
                                let (pk, parent) = frames.pop().unwrap();
                                if !(pk == k) {
                                    proof {
                                        assert(frame_kinds(old_frames).last() == pk);
                                        assert(GroupKind::for_open_char_spec(m) is None);
                                        assert(GroupKind::for_close_char_spec(m) == Some(k));
                                        assert(!balance_scan(
                                            ds,
                                            i as int,
                                            frame_kinds(old_frames),
                                        ));
                                    }
                                    return Err("unexpected close delimiter".to_owned());
                                }
                                let ghost p1 = parent;
                                let mut parent2 = parent;
                                parent2.contents.push(Tree::Group(k, cur));
                                proof {
                                    lemma_reconstruct_push(
                                        frames@,
                                        p1,
                                        parent2,
                                        Tree::Group(k, old_cur),
                                    );
                                    assert(old_frames.drop_last() =~= frames@);
                                    assert(old_frames.last() == (k, p1));
                                    assert(m == k.close_char_spec());
                                    assert(ds[i as int] == (FineTokenDataV::Punctuation {
                                        mark: k.close_char_spec(),
                                    }));
                                    assert(reconstruct(old_frames, old_cur) == reconstruct(
                                        old_frames.drop_last(),
                                        old_frames.last().1,
                                    ) + seq![
                                        FineTokenDataV::Punctuation {
                                            mark: old_frames.last().0.open_char_spec(),
                                        },
                                    ] + flat_data_forest(old_cur, 0));
                                    assert(ds.subrange(0, i + 1) =~= ds.subrange(0, i as int)
                                        + seq![ds[i as int]]);
                                    assert(flat_data_tree(Tree::Group(k, old_cur))
                                        =~= seq![
                                        FineTokenDataV::Punctuation { mark: k.open_char_spec() },
                                    ] + flat_data_forest(old_cur, 0) + seq![
                                        FineTokenDataV::Punctuation { mark: k.close_char_spec() },
                                    ]);
                                    assert(reconstruct(frames@, parent2) =~= ds.subrange(
                                        0,
                                        i + 1,
                                    ));
                                    assert(frame_kinds(frames@) =~= frame_kinds(
                                        old_frames,
                                    ).drop_last());
                                    assert(frame_kinds(old_frames).last() == k);
                                }
                                cur = parent2;
                            },
                            None => {
                                let ghost f1 = cur;
                                cur.contents.push(Tree::Token(t));
                                proof {
                                    lemma_reconstruct_push(frames@, f1, cur, Tree::Token(tv));
                                    assert(reconstruct(frames@, cur) =~= ds.subrange(0, i + 1));
                                }
                            },
                        }
                    },
                }
            },
            None => {
                let ghost f1 = cur;
                cur.contents.push(Tree::Token(t));
                proof {
                    lemma_reconstruct_push(frames@, f1, cur, Tree::Token(tv));
                    assert(reconstruct(frames@, cur) =~= ds.subrange(0, i + 1));
                }
            },
        }
        i = i + 1;
    }
    if frames.len() > 0 {
        proof {
            assert(frame_kinds(frames@).len() > 0);
            assert(!balance_scan(ds, i as int, frame_kinds(frames@)));
        }
        return Err("missing close delimiter".to_owned());
    }
    proof {
        assert(frame_kinds(frames@).len() == 0);
        assert(frame_kinds(frames@) =~= Seq::<GroupKind>::empty());
        assert(balance_scan(ds, i as int, Seq::<GroupKind>::empty()));
        assert(ds.subrange(0, i as int) =~= ds);
        assert(flat_data_forest(cur, 0) == reconstruct(frames@, cur));
    }
    Ok(cur)
}

} // verus!
