//! Locate a project's root directory: walk the chain of ancestors of a
//! starting directory, from the most specific upward, and stop at the first
//! one whose direct entries include a designated marker file name.
//!
//! The search itself is pure: it runs over a snapshot of the listable
//! directories ([`search::FsModel`]) or, one decision at a time, over listings
//! that a filesystem-facing driver hands in ([`search::search_step`]).

pub mod laws;
pub mod path;
pub mod search;
