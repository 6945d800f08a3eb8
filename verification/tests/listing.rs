use lan_server::listing::{
    list, resolve_path, DirectoryEntry, DirectoryScan, ListError, ScannedChild, SERVER_ROOT,
};

fn child(name: &str, is_dir: Option<bool>) -> ScannedChild {
    ScannedChild { name: name.to_string(), is_dir }
}

fn entry(name: &str, is_dir: bool) -> DirectoryEntry {
    DirectoryEntry { name: name.to_string(), is_dir }
}

#[test]
fn empty_path_resolves_to_the_root() {
    assert_eq!(SERVER_ROOT, ".");
    assert_eq!(resolve_path(""), ".");
}

#[test]
fn other_paths_resolve_to_themselves() {
    assert_eq!(resolve_path("sub/"), "sub/");
    assert_eq!(resolve_path("sub/deeper"), "sub/deeper");
    assert_eq!(resolve_path("."), ".");
    assert_eq!(resolve_path("../outside"), "../outside");
    assert_eq!(resolve_path("/etc"), "/etc");
}

#[test]
fn missing_path_is_not_found() {
    assert_eq!(list(&DirectoryScan::Missing), Err(ListError::NotFound));
}

#[test]
fn unreadable_directory_is_a_read_error() {
    assert_eq!(list(&DirectoryScan::Unreadable), Err(ListError::ReadError));
}

#[test]
fn empty_directory_lists_nothing() {
    assert_eq!(list(&DirectoryScan::Children(vec![])), Ok(vec![]));
}

#[test]
fn every_child_of_known_type_gets_one_entry() {
    let scan = DirectoryScan::Children(vec![
        child("b.txt", Some(false)),
        child("a", Some(true)),
        child("c.txt", Some(false)),
    ]);
    assert_eq!(
        list(&scan),
        Ok(vec![entry("b.txt", false), entry("a", true), entry("c.txt", false)])
    );
}

#[test]
fn child_of_unknown_type_is_passed_over() {
    let scan = DirectoryScan::Children(vec![
        child("gone", None),
        child("notes.txt", Some(false)),
        child("locked", None),
        child("sub", Some(true)),
        child("last", None),
    ]);
    assert_eq!(list(&scan), Ok(vec![entry("notes.txt", false), entry("sub", true)]));
}

#[test]
fn directory_of_unknown_children_lists_nothing() {
    let scan = DirectoryScan::Children(vec![child("x", None), child("y", None)]);
    assert_eq!(list(&scan), Ok(vec![]));
}

#[test]
fn hidden_and_equal_names_are_listed_as_they_come() {
    let scan = DirectoryScan::Children(vec![
        child(".hidden", Some(false)),
        child("twin", Some(true)),
        child("twin", Some(false)),
    ]);
    assert_eq!(
        list(&scan),
        Ok(vec![entry(".hidden", false), entry("twin", true), entry("twin", false)])
    );
}

#[test]
fn root_with_a_file_and_a_directory() {
    let root = DirectoryScan::Children(vec![child("notes.txt", Some(false)), child("sub", Some(true))]);
    assert_eq!(list(&root), Ok(vec![entry("notes.txt", false), entry("sub", true)]));
    let sub = DirectoryScan::Children(vec![child("a.txt", Some(false))]);
    assert_eq!(list(&sub), Ok(vec![entry("a.txt", false)]));
}

#[test]
fn scan_that_was_cut_short_is_listed_as_far_as_it_came() {
    let scan = DirectoryScan::CutShort(vec![
        child("notes.txt", Some(false)),
        child("gone", None),
        child("sub", Some(true)),
    ]);
    assert_eq!(list(&scan), Ok(vec![entry("notes.txt", false), entry("sub", true)]));
    assert_eq!(list(&DirectoryScan::CutShort(vec![])), Ok(vec![]));
}
