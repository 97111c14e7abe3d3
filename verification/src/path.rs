//! Absolute directory paths, held as their component names.

use vstd::prelude::*;

verus! {

/// The mathematical value of a single file or directory name.
pub type NameV = Seq<char>;

/// The mathematical value of an absolute directory path: its component names
/// in order, from the filesystem root downward. The root itself is the empty
/// sequence.
pub type PathV = Seq<NameV>;

/// An absolute directory path. `components` are the names along the path from
/// the filesystem root downward; the root itself has no components.
#[derive(Debug)]
pub struct DirPath {
    pub components: Vec<String>,
}

impl View for DirPath {
    type V = PathV;

    open spec fn view(&self) -> PathV {
        self.components.deep_view()
    }
}

/// Whether `p` denotes `start` itself or one of its proper ancestors, that
/// is, whether `p`'s components are a prefix of `start`'s.
pub open spec fn is_ancestor_or_self(p: PathV, start: PathV) -> bool {
    p.len() <= start.len() && p == start.subrange(0, p.len() as int)
}

impl DirPath {
    /// The path with the given components.
    pub fn new(components: Vec<String>) -> (path: Self)
        ensures
            path@ == components.deep_view(),
    {
        DirPath { components }
    }

    /// The filesystem root.
    pub fn root() -> (path: Self)
        ensures
            path@ == Seq::<NameV>::empty(),
    {
        let path = DirPath { components: Vec::new() };
        proof {
            assert(path@ =~= Seq::<NameV>::empty());
        }
        path
    }

    /// Whether this path is the filesystem root.
    pub fn is_root(&self) -> (root: bool)
        ensures
            root == (self@.len() == 0),
    {
        self.components.len() == 0
    }

    /// The parent directory: this path without its last component.
    pub fn parent(self) -> (parent: Self)
        requires
            self@.len() > 0,
        ensures
            parent@ == self@.drop_last(),
    {
        let mut components = self.components;
        components.pop();
        let parent = DirPath { components };
        proof {
            assert(parent@ =~= self@.drop_last());
        }
        parent
    }
}

} // verus!
