//! The laws of the ancestor search, proved once and for all over its
//! mathematical description [`find_spec`].

use vstd::prelude::*;

use crate::path::{is_ancestor_or_self, NameV, PathV};
use crate::search::{find_spec, has_marker, listing_of, FindError, FsV};

verus! {

/// Whether the directory at `p` can be listed and its entries are clean of
/// the marker.
pub open spec fn listed_without_marker(fs: FsV, p: PathV, marker: NameV) -> bool {
    listing_of(fs, p) matches Some(entries) && !has_marker(entries, marker)
}

/// Ancestor-only: whatever the snapshot looks like, a found root is always
/// the start directory itself or one of its proper ancestors — never a
/// sibling or a descendant.
pub proof fn lemma_found_is_ancestor_or_self(fs: FsV, start: PathV, marker: NameV)
    ensures
        find_spec(fs, start, marker) matches Ok(root) ==> is_ancestor_or_self(root, start),
    decreases start.len(),
{
    match listing_of(fs, start) {
        None => {},
        Some(entries) => {
            if has_marker(entries, marker) {
                assert(start.subrange(0, start.len() as int) =~= start);
            } else if start.len() > 0 {
                lemma_found_is_ancestor_or_self(fs, start.drop_last(), marker);
                let up = find_spec(fs, start.drop_last(), marker);
                if up is Ok {
                    let root = up->Ok_0;
                    assert(start.subrange(0, root.len() as int) =~= start.drop_last().subrange(
                        0,
                        root.len() as int,
                    ));
                }
            }
        },
    }
}

/// A found root really is a listable directory whose direct entries include
/// the marker name — the one guarantee a consumer may rely on when joining
/// further names onto the returned path.
pub proof fn lemma_found_holds_marker(fs: FsV, start: PathV, marker: NameV)
    ensures
        find_spec(fs, start, marker) matches Ok(root) ==> listing_of(fs, root) matches Some(
            entries,
        ) && has_marker(entries, marker),
    decreases start.len(),
{
    match listing_of(fs, start) {
        None => {},
        Some(entries) => {
            if !has_marker(entries, marker) && start.len() > 0 {
                lemma_found_holds_marker(fs, start.drop_last(), marker);
            }
        },
    }
}

/// Nearest match wins: where the start directory itself holds the marker, the
/// search returns the start directory — it never walks past this match to a
/// "better" one, however many of its ancestors also hold the marker.
pub proof fn lemma_nearest_match_wins(fs: FsV, start: PathV, marker: NameV)
    requires
        listing_of(fs, start) matches Some(entries) && has_marker(entries, marker),
    ensures
        find_spec(fs, start, marker) == Ok::<PathV, FindError>(start),
{
}

/// Determinism: two searches over the same snapshot, the same start path and
/// the same marker name return the same result.
pub proof fn lemma_deterministic(
    fs: FsV,
    start: PathV,
    marker: NameV,
    r1: Result<PathV, FindError>,
    r2: Result<PathV, FindError>,
)
    requires
        r1 == find_spec(fs, start, marker),
        r2 == find_spec(fs, start, marker),
    ensures
        r1 == r2,
{
}

/// Exhaustion: where every directory from `start` up to and including the
/// filesystem root can be listed and none holds the marker, the search fails
/// with `NotFound`.
pub proof fn lemma_exhaustion(fs: FsV, start: PathV, marker: NameV)
    requires
        forall|k: int|
            0 <= k <= start.len() ==> listed_without_marker(
                fs,
                #[trigger] start.subrange(0, k),
                marker,
            ),
    ensures
        find_spec(fs, start, marker) == Err::<PathV, FindError>(FindError::NotFound),
    decreases start.len(),
{
    assert(start.subrange(0, start.len() as int) =~= start);
    if start.len() > 0 {
        assert forall|k: int|
            0 <= k <= start.drop_last().len() implies listed_without_marker(
            fs,
            #[trigger] start.drop_last().subrange(0, k),
            marker,
        ) by {
            assert(start.drop_last().subrange(0, k) =~= start.subrange(0, k));
        }
        lemma_exhaustion(fs, start.drop_last(), marker);
    }
}

/// Fail-fast: where the ancestor `start.subrange(0, j)` cannot be listed and
/// every directory strictly below it on the chain lists clean of the marker,
/// the search fails with `Listing` — even where a match sits further up,
/// above the unreadable directory. Nothing is skipped silently.
pub proof fn lemma_fail_fast(fs: FsV, start: PathV, marker: NameV, j: int)
    requires
        0 <= j <= start.len(),
        listing_of(fs, start.subrange(0, j)) is None,
        forall|k: int|
            j < k <= start.len() ==> listed_without_marker(
                fs,
                #[trigger] start.subrange(0, k),
                marker,
            ),
    ensures
        find_spec(fs, start, marker) == Err::<PathV, FindError>(FindError::Listing),
    decreases start.len(),
{
    assert(start.subrange(0, start.len() as int) =~= start);
    if j == start.len() {
    } else {
        assert(listed_without_marker(fs, start.subrange(0, start.len() as int), marker));
        assert(start.drop_last().subrange(0, j) =~= start.subrange(0, j));
        assert forall|k: int|
            j < k <= start.drop_last().len() implies listed_without_marker(
            fs,
            #[trigger] start.drop_last().subrange(0, k),
            marker,
        ) by {
            assert(start.drop_last().subrange(0, k) =~= start.subrange(0, k));
        }
        lemma_fail_fast(fs, start.drop_last(), marker, j);
    }
}

} // verus!
