//! The ancestor search: its mathematical description and its verified
//! executable forms.

use vstd::prelude::*;

use crate::path::{is_ancestor_or_self, DirPath, NameV, PathV};

verus! {

/// Why a search failed.
#[derive(Clone, Copy, Debug, PartialEq, Eq, Structural)]
pub enum FindError {
    /// The starting directory could not be determined.
    Environment,
    /// An ancestor directory could not be listed; the walk stops right there.
    Listing,
    /// Every directory from the start up to and including the filesystem root
    /// was listed, and none holds the marker.
    NotFound,
}

/// Whether some entry name equals the marker name exactly.
pub open spec fn has_marker(entries: Seq<NameV>, marker: NameV) -> bool {
    entries.contains(marker)
}

/// Whether some entry of the listing equals the marker name exactly:
/// codepoint for codepoint, case-sensitive, no globbing.
pub fn contains_marker(entries: &Vec<String>, marker: &String) -> (found: bool)
    ensures
        found == has_marker(entries.deep_view(), marker@),
{
    let mut i: usize = 0;
    while i < entries.len()
        invariant
            i <= entries@.len(),
            forall|j: int| 0 <= j < i ==> entries.deep_view()[j] != marker@,
        decreases entries@.len() - i,
    {
        let entry: &String = &entries[i];
        if entry.eq(marker) {
            proof {
                assert(entries.deep_view()[i as int] == marker@);
            }
            return true;
        }
        i = i + 1;
    }
    false
}

/// One directory of a snapshot: its absolute path and the names of its direct
/// entries.
pub struct DirListing {
    pub path: DirPath,
    pub entries: Vec<String>,
}

impl View for DirListing {
    type V = (PathV, Seq<NameV>);

    open spec fn view(&self) -> (PathV, Seq<NameV>) {
        (self.path@, self.entries.deep_view())
    }
}

/// The mathematical value of a snapshot: each listable path with the names of
/// its direct entries.
pub type FsV = Seq<(PathV, Seq<NameV>)>;

/// A snapshot of the listable part of a filesystem. A path that appears
/// nowhere in `dirs` cannot be listed (it is absent, or unreadable); where two
/// entries carry the same path, the first one governs.
pub struct FsModel {
    pub dirs: Vec<DirListing>,
}

impl View for FsModel {
    type V = FsV;

    open spec fn view(&self) -> FsV {
        Seq::new(self.dirs@.len(), |i: int| self.dirs@[i]@)
    }
}

/// What listing the directory at `p` yields, scanning the snapshot from
/// position `i` on: its entry names, or `None` where no snapshot entry carries
/// the path `p`.
pub open spec fn listing_from(fs: FsV, i: int, p: PathV) -> Option<Seq<NameV>>
    decreases fs.len() - i,
{
    if 0 <= i < fs.len() {
        if fs[i].0 == p {
            Some(fs[i].1)
        } else {
            listing_from(fs, i + 1, p)
        }
    } else {
        None
    }
}

/// What listing the directory at `p` yields on the snapshot `fs`.
pub open spec fn listing_of(fs: FsV, p: PathV) -> Option<Seq<NameV>> {
    listing_from(fs, 0, p)
}

/// Whether two paths have exactly the same components.
pub fn path_eq(a: &DirPath, b: &DirPath) -> (eq: bool)
    ensures
        eq == (a@ == b@),
{
    if a.components.len() != b.components.len() {
        return false;
    }
    let mut i: usize = 0;
    while i < a.components.len()
        invariant
            i <= a@.len(),
            a@.len() == b@.len(),
            forall|j: int| 0 <= j < i ==> a@[j] == b@[j],
        decreases a@.len() - i,
    {
        let ca: &String = &a.components[i];
        let cb: &String = &b.components[i];
        if !ca.eq(cb) {
            proof {
                assert(a@[i as int] != b@[i as int]);
            }
            return false;
        }
        i = i + 1;
    }
    proof {
        assert(a@ =~= b@);
    }
    true
}

impl FsModel {
    /// List the directory at `p` in this snapshot: its entry names, or `None`
    /// where the snapshot has no listing for `p`.
    pub fn list<'a>(&'a self, p: &DirPath) -> (listing: Option<&'a Vec<String>>)
        ensures
            listing_view(listing) == listing_of(self@, p@),
    {
        let mut i: usize = 0;
        while i < self.dirs.len()
            invariant
                i <= self.dirs@.len(),
                listing_of(self@, p@) == listing_from(self@, i as int, p@),
            decreases self.dirs@.len() - i,
        {
            let d: &DirListing = &self.dirs[i];
            proof {
                assert(self@[i as int] == d@);
            }
            if path_eq(&d.path, p) {
                return Some(&d.entries);
            }
            i = i + 1;
        }
        None
    }
}

/// The mathematical value of a listing as a driver hands it in: the entry
/// names, or `None` where the directory could not be listed.
pub open spec fn listing_view(listing: Option<&Vec<String>>) -> Option<Seq<NameV>> {
    match listing {
        Some(entries) => Some(entries.deep_view()),
        None => None,
    }
}

/// What the search does next, after one directory of the ancestor chain has
/// been examined.
#[derive(Clone, Copy, Debug, PartialEq, Eq, Structural)]
pub enum SearchStep {
    /// The current directory holds the marker: it is the project root.
    Found,
    /// The current directory could not be listed: fail with
    /// [`FindError::Listing`] at once, whatever lies further up.
    Unreadable,
    /// The current directory is the filesystem root and holds no marker: the
    /// chain is exhausted, fail with [`FindError::NotFound`].
    Exhausted,
    /// The current directory holds no marker: move to its parent and examine
    /// that one next.
    Ascend,
}

/// The decision taken for one directory of the ancestor chain, given whether
/// it is the filesystem root and what listing it yielded.
pub open spec fn step_spec(at_root: bool, listing: Option<Seq<NameV>>, marker: NameV) -> SearchStep {
    match listing {
        None => SearchStep::Unreadable,
        Some(entries) => if has_marker(entries, marker) {
            SearchStep::Found
        } else if at_root {
            SearchStep::Exhausted
        } else {
            SearchStep::Ascend
        },
    }
}

/// Decide one step of the search. A filesystem-facing driver calls this once
/// per ancestor, deepest first, handing in that directory's listing (or
/// `None` where listing it failed) and whether it is the filesystem root; the
/// driver then performs the returned step.
pub fn search_step(at_root: bool, listing: Option<&Vec<String>>, marker: &String) -> (step: SearchStep)
    ensures
        step == step_spec(at_root, listing_view(listing), marker@),
{
    match listing {
        None => SearchStep::Unreadable,
        Some(entries) => {
            if contains_marker(entries, marker) {
                SearchStep::Found
            } else if at_root {
                SearchStep::Exhausted
            } else {
                SearchStep::Ascend
            }
        },
    }
}

/// What the search returns on snapshot `fs`, from `start`, looking for
/// `marker`: walk the ancestor chain from `start` toward the root; at each
/// directory, fail with `Listing` where it cannot be listed, stop and return
/// it where it holds the marker, and otherwise go on to its parent; once the
/// root itself has been examined without a match, fail with `NotFound`.
pub open spec fn find_spec(fs: FsV, start: PathV, marker: NameV) -> Result<PathV, FindError>
    decreases start.len(),
{
    match listing_of(fs, start) {
        None => Err(FindError::Listing),
        Some(entries) => if has_marker(entries, marker) {
            Ok(start)
        } else if start.len() == 0 {
            Err(FindError::NotFound)
        } else {
            find_spec(fs, start.drop_last(), marker)
        },
    }
}

/// The mathematical value of a search result.
pub open spec fn result_view(result: Result<DirPath, FindError>) -> Result<PathV, FindError> {
    match result {
        Ok(path) => Ok(path@),
        Err(e) => Err(e),
    }
}

/// Find the project root in the snapshot `fs`: the nearest directory among
/// `start` and its ancestors whose direct entries include `marker`. The walk
/// never looks outside that chain, stops at the first match, and aborts on
/// the first directory it cannot list.
pub fn find_root_in(fs: &FsModel, start: DirPath, marker: &String) -> (result: Result<
    DirPath,
    FindError,
>)
    ensures
        result_view(result) == find_spec(fs@, start@, marker@),
        result matches Ok(root) ==> is_ancestor_or_self(root@, start@),
        result matches Ok(root) ==> listing_of(fs@, root@) matches Some(entries) && has_marker(
            entries,
            marker@,
        ),
{
    let mut current = start;
    loop
        invariant
            find_spec(fs@, current@, marker@) == find_spec(fs@, start@, marker@),
        decreases current@.len(),
    {
        let listing = fs.list(&current);
        match search_step(current.is_root(), listing, marker) {
            SearchStep::Found => {
                proof {
                    crate::laws::lemma_found_is_ancestor_or_self(fs@, start@, marker@);
                    crate::laws::lemma_found_holds_marker(fs@, start@, marker@);
                }
                return Ok(current);
            },
            SearchStep::Unreadable => {
                return Err(FindError::Listing);
            },
            SearchStep::Exhausted => {
                return Err(FindError::NotFound);
            },
            SearchStep::Ascend => {
                current = current.parent();
            },
        }
    }
}

/// The marker name for callers that do not choose their own: the manifest
/// file of a Rust package.
pub fn default_marker() -> (marker: String)
    ensures
        marker@ == "Cargo.toml"@,
{
    "Cargo.toml".to_owned()
}

} // verus!
