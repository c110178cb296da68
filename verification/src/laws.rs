//! The library's general laws, stated and proved once for every input.

use vstd::prelude::*;
use crate::cleaning::{clean_shebang_spec, clean_spec, replace_crlf_from, replace_crlf_spec,
    remove_bom_spec, CleanSpec};
use crate::cleaning::frontmatter::{frontmatter_spec, FrontmatterSpec};
use crate::pretokenisation::PretokenDataV;
use crate::fine_tokens::FineTokenDataV;
use crate::reprocessing::{forbidden_ident, reprocess_spec, ReprocessOutcome};
use crate::{CleaningMode, Edition};

verus! {

/// A text free of CR LF pairs passes CRLF normalisation unchanged.
proof fn lemma_replace_crlf_fixpoint(y: Seq<char>, i: int)
    requires
        0 <= i <= y.len(),
        forall|k: int|
            0 <= k && k + 1 < y.len() ==> !(y[k] == '\u{000d}' && #[trigger] y[k + 1]
                == '\u{000a}'),
    ensures
        replace_crlf_from(y, i) == y.skip(i),
    decreases y.len() - i,
{
    if i < y.len() {
        lemma_replace_crlf_fixpoint(y, i + 1);
        assert(!(y[i] == '\u{000d}' && i + 1 < y.len() && y[i + 1] == '\u{000a}'));
        assert(replace_crlf_from(y, i) =~= y.skip(i));
    } else {
        assert(replace_crlf_from(y, i) =~= y.skip(i));
    }
}

/// Cleaning is idempotent: cleaning a cleaned text changes nothing.
///
/// This holds for every cleaned text which does not itself begin with a byte
/// order mark, contains no CR LF pair, would not have a (new) shebang
/// stripped, and opens no (new) frontmatter; cleaning outputs outside those
/// bounds do exist, and cleaning them again cleans further.
pub proof fn lemma_clean_idempotent(s: Seq<char>, ed: Edition, mode: CleaningMode, y: Seq<char>)
    requires
        clean_spec(s, ed, mode) == CleanSpec::Cleaned(y),
        !(y.len() >= 1 && y[0] == '\u{feff}'),
        forall|k: int|
            0 <= k && k + 1 < y.len() ==> !(y[k] == '\u{000d}' && #[trigger] y[k + 1]
                == '\u{000a}'),
        mode != CleaningMode::NoCleaning ==> clean_shebang_spec(y, ed) == y,
        mode == CleaningMode::CleanShebangAndFrontmatter ==> frontmatter_spec(y)
            == FrontmatterSpec::NotFound,
    ensures
        clean_spec(y, ed, mode) == CleanSpec::Cleaned(y),
{
    assert(remove_bom_spec(y) == y);
    lemma_replace_crlf_fixpoint(y, 0);
    assert(y.skip(0) =~= y);
    assert(replace_crlf_spec(y) == y);
}

/// No accepted raw identifier spells one of the five forbidden identifiers
/// (in normalised form), and no accepted raw lifetime or label does either.
pub proof fn lemma_raw_forms_not_forbidden(d: PretokenDataV)
    ensures
        match reprocess_spec(d) {
            ReprocessOutcome::Token(t) => match t {
                FineTokenDataV::RawIdent { represented_ident } => !forbidden_ident(
                    represented_ident,
                ),
                FineTokenDataV::RawLifetimeOrLabel { name } => !forbidden_ident(name),
                _ => true,
            },
            _ => true,
        },
{
}

} // verus!

verus! {

use crate::fine_tokens::FineToken;
use crate::pretokenisation::chosen_len;
use crate::tokenisation::{fine_chain_valid, natural_extent};
use crate::tokens_common::OriginV;

/// Consecutive tokens of an accepted analysis sit directly against each
/// other in the cleaned text: each token's extent ends exactly where the
/// next token's extent begins.
///
/// Coarsening marks a surviving token `Joint` exactly when the next tree of
/// its group is the very next (non-whitespace) token of the analysed stream,
/// so a `Joint` token is immediately followed in the cleaned text by the
/// token it is joint to, with nothing dropped between them.
pub proof fn lemma_chain_extents_adjacent(
    ed: Edition,
    s: Seq<char>,
    ts: Seq<FineToken>,
    pos: int,
    i: int,
)
    requires
        0 <= pos,
        fine_chain_valid(ed, s, ts, pos),
        0 <= i,
        i + 1 < ts.len(),
    ensures
        exists|q: int, q2: int, q3: int|
            #![trigger s.subrange(q, q2), s.subrange(q2, q3)]
            {
                &&& natural_extent(ts[i]@) == s.subrange(q, q2)
                &&& natural_extent(ts[i + 1]@) == s.subrange(q2, q3)
                &&& pos <= q <= q2 <= q3 <= s.len()
            },
    decreases i,
{
    if i == 0 {
        let l = chosen_len(ed, s, pos);
        let l2 = chosen_len(ed, s, pos + l);
        assert(fine_chain_valid(ed, s, ts.skip(1), pos + l));
        assert(ts.skip(1).len() > 0);
        assert(ts.skip(1)[0]@.origin == (OriginV::Natural {
            extent: s.subrange(pos + l, pos + l + l2),
        }));
        assert(ts.skip(1)[0] == ts[1]);
        assert(natural_extent(ts[0]@) == s.subrange(pos, pos + l));
        assert(natural_extent(ts[1]@) == s.subrange(pos + l, pos + l + l2));
        assert({
            &&& natural_extent(ts[0]@) == s.subrange(pos, pos + l)
            &&& natural_extent(ts[1]@) == s.subrange(pos + l, pos + l + l2)
            &&& pos <= pos <= pos + l <= pos + l + l2 <= s.len()
        });
    } else {
        let l = chosen_len(ed, s, pos);
        lemma_chain_extents_adjacent(ed, s, ts.skip(1), pos + l, i - 1);
        let (q, q2, q3) = choose|q: int, q2: int, q3: int|
            #![trigger s.subrange(q, q2), s.subrange(q2, q3)]
            {
                &&& natural_extent(ts.skip(1)[i - 1]@) == s.subrange(q, q2)
                &&& natural_extent(ts.skip(1)[i]@) == s.subrange(q2, q3)
                &&& pos + l <= q <= q2 <= q3 <= s.len()
            };
        assert(ts.skip(1)[i - 1] == ts[i]);
        assert(ts.skip(1)[i] == ts[i + 1]);
        assert({
            &&& natural_extent(ts[i]@) == s.subrange(q, q2)
            &&& natural_extent(ts[i + 1]@) == s.subrange(q2, q3)
            &&& pos <= q <= q2 <= q3 <= s.len()
        });
    }
}

} // verus!

verus! {

use crate::doc_lowering::{min_hash, min_hash_from, raw_quoted};
use crate::tokenisation::accepts_as_single_token;

/// No hash count at or above `h` and below the chosen one renders the body
/// as a single token.
proof fn lemma_min_hash_from_minimal(ed: Edition, body: Seq<char>, h: nat, h2: nat)
    requires
        h <= h2 < min_hash_from(ed, body, h),
    ensures
        !accepts_as_single_token(ed, raw_quoted(body, h2)),
    decreases 255 - h,
{
    if h < 255 {
        if h2 > h {
            lemma_min_hash_from_minimal(ed, body, h + 1, h2);
        }
    }
}

/// The hash count chosen when a doc-comment is lowered is minimal: no raw
/// string rendering of the comment body with fewer hashes lexes back as a
/// single token, and the chosen rendering itself does (whenever any count up
/// to 255 does at all).
pub proof fn lemma_min_hash_minimal(ed: Edition, body: Seq<char>, h2: nat)
    requires
        h2 < min_hash(ed, body),
    ensures
        !accepts_as_single_token(ed, raw_quoted(body, h2)),
        min_hash(ed, body) < 255 ==> accepts_as_single_token(
            ed,
            raw_quoted(body, min_hash(ed, body)),
        ),
{
    lemma_min_hash_from_minimal(ed, body, 0, h2);
    lemma_min_hash_accepts(ed, body, 0);
}

/// Where the search stops below 255, the chosen rendering lexes as a single
/// token.
proof fn lemma_min_hash_accepts(ed: Edition, body: Seq<char>, h: nat)
    requires
        h <= 255,
    ensures
        min_hash_from(ed, body, h) < 255 ==> accepts_as_single_token(
            ed,
            raw_quoted(body, min_hash_from(ed, body, h)),
        ),
    decreases 255 - h,
{
    if h < 255 {
        lemma_min_hash_accepts(ed, body, h + 1);
    }
}

} // verus!
