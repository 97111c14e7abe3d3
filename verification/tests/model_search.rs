use project_root::path::DirPath;
use project_root::search::{find_root_in, DirListing, FindError, FsModel};

fn names(entries: &[&str]) -> Vec<String> {
    entries.iter().map(|e| e.to_string()).collect()
}

fn path(components: &[&str]) -> DirPath {
    DirPath::new(names(components))
}

fn dir(components: &[&str], entries: &[&str]) -> DirListing {
    DirListing { path: path(components), entries: names(entries) }
}

fn marker() -> String {
    "Cargo.lock".to_string()
}

#[test]
fn scenario_marker_in_parent() {
    let fs = FsModel {
        dirs: vec![
            dir(&[], &["tmp"]),
            dir(&["tmp"], &["proj"]),
            dir(&["tmp", "proj"], &["Cargo.lock", "sub"]),
            dir(&["tmp", "proj", "sub"], &[]),
        ],
    };
    let result = find_root_in(&fs, path(&["tmp", "proj", "sub"]), &marker());
    assert_eq!(result.unwrap().components, names(&["tmp", "proj"]));
}

#[test]
fn scenario_marker_in_start() {
    let fs = FsModel {
        dirs: vec![
            dir(&[], &["tmp"]),
            dir(&["tmp"], &["proj"]),
            dir(&["tmp", "proj"], &["Cargo.lock", "sub"]),
        ],
    };
    let result = find_root_in(&fs, path(&["tmp", "proj"]), &marker());
    assert_eq!(result.unwrap().components, names(&["tmp", "proj"]));
}

#[test]
fn scenario_no_marker_anywhere() {
    let fs = FsModel {
        dirs: vec![
            dir(&[], &["tmp", "etc"]),
            dir(&["tmp"], &["orphan"]),
            dir(&["tmp", "orphan"], &["notes.txt"]),
        ],
    };
    let result = find_root_in(&fs, path(&["tmp", "orphan"]), &marker());
    assert_eq!(result.unwrap_err(), FindError::NotFound);
}

#[test]
fn scenario_case_sensitive_marker() {
    // The lowercase name in the start directory is no match; the walk goes on
    // upward and stops at the root, which holds the exact name.
    let fs = FsModel {
        dirs: vec![
            dir(&[], &["tmp", "Cargo.lock"]),
            dir(&["tmp"], &["proj"]),
            dir(&["tmp", "proj"], &["cargo.lock"]),
        ],
    };
    let result = find_root_in(&fs, path(&["tmp", "proj"]), &marker());
    assert_eq!(result.unwrap().components, names(&[]));
}

#[test]
fn sibling_marker_is_ignored() {
    // A sibling of the start directory holds the marker; the search never
    // looks outside the ancestor chain, so it fails.
    let fs = FsModel {
        dirs: vec![
            dir(&[], &["tmp"]),
            dir(&["tmp"], &["a", "b"]),
            dir(&["tmp", "a"], &["Cargo.lock"]),
            dir(&["tmp", "b"], &[]),
        ],
    };
    let result = find_root_in(&fs, path(&["tmp", "b"]), &marker());
    assert_eq!(result.unwrap_err(), FindError::NotFound);
}

#[test]
fn nearest_match_wins() {
    let fs = FsModel {
        dirs: vec![
            dir(&[], &["Cargo.lock", "tmp"]),
            dir(&["tmp"], &["Cargo.lock", "proj"]),
            dir(&["tmp", "proj"], &["Cargo.lock"]),
        ],
    };
    let result = find_root_in(&fs, path(&["tmp", "proj"]), &marker());
    assert_eq!(result.unwrap().components, names(&["tmp", "proj"]));
}

#[test]
fn identical_calls_agree() {
    let fs = FsModel {
        dirs: vec![
            dir(&[], &["tmp"]),
            dir(&["tmp"], &["Cargo.lock", "proj"]),
            dir(&["tmp", "proj"], &["src"]),
        ],
    };
    let first = find_root_in(&fs, path(&["tmp", "proj"]), &marker());
    let second = find_root_in(&fs, path(&["tmp", "proj"]), &marker());
    assert_eq!(first.unwrap().components, second.unwrap().components);
}

#[test]
fn unreadable_ancestor_fails_fast() {
    // The root holds the marker, but the middle ancestor has no listing: the
    // walk aborts there instead of skipping upward to the match.
    let fs = FsModel {
        dirs: vec![
            dir(&[], &["Cargo.lock", "tmp"]),
            dir(&["tmp", "proj"], &["src"]),
        ],
    };
    let result = find_root_in(&fs, path(&["tmp", "proj"]), &marker());
    assert_eq!(result.unwrap_err(), FindError::Listing);
}

#[test]
fn unreadable_start_fails() {
    let fs = FsModel { dirs: vec![dir(&[], &["Cargo.lock", "tmp"])] };
    let result = find_root_in(&fs, path(&["tmp"]), &marker());
    assert_eq!(result.unwrap_err(), FindError::Listing);
}

#[test]
fn root_as_start_with_marker() {
    let fs = FsModel { dirs: vec![dir(&[], &["Cargo.lock"])] };
    let result = find_root_in(&fs, path(&[]), &marker());
    assert_eq!(result.unwrap().components, names(&[]));
}

#[test]
fn first_snapshot_entry_governs() {
    // Two snapshot entries carry the start path; the first one governs.
    let fs = FsModel {
        dirs: vec![
            dir(&["tmp"], &["Cargo.lock"]),
            dir(&["tmp"], &["other"]),
        ],
    };
    let result = find_root_in(&fs, path(&["tmp"]), &marker());
    assert_eq!(result.unwrap().components, names(&["tmp"]));
}
