//! Tests of the tree model, ordering, paths and volume discovery.

use dirnav::entry::{EntryKind, ListCause, Meta, RawEntry};
use dirnav::input::{key_to_command, Command, Key};
use dirnav::listing::{partition_entries, sort_entries};
use dirnav::node::{Children, DirNode};
use dirnav::path::{drive_label, VPath};
use dirnav::volume::discover_from;

fn dir_entry(name: &str) -> RawEntry {
    RawEntry { name: name.to_string(), kind: EntryKind::Directory, meta: None }
}

fn file_entry(name: &str) -> RawEntry {
    RawEntry { name: name.to_string(), kind: EntryKind::File, meta: None }
}

fn names_of(node: &DirNode) -> (Vec<String>, Vec<String>) {
    match &node.children {
        Children::Populated { dirs, files } => (
            dirs.iter().map(|d| d.name.clone()).collect(),
            files.iter().map(|f| f.name.clone()).collect(),
        ),
        Children::Unpopulated => panic!("node is unpopulated"),
    }
}

#[test]
fn sort_is_case_insensitive_and_exact() {
    let v = vec![file_entry("b"), file_entry("A"), file_entry("c")];
    let sorted = sort_entries(v);
    let names: Vec<String> = sorted.into_iter().map(|e| e.name).collect();
    assert_eq!(names, vec!["A".to_string(), "b".to_string(), "c".to_string()]);
}

#[test]
fn partition_keeps_relative_order() {
    let v = vec![
        file_entry("one"),
        dir_entry("two"),
        file_entry("three"),
        dir_entry("four"),
    ];
    let (dirs, files) = partition_entries(v);
    let dn: Vec<String> = dirs.into_iter().map(|e| e.name).collect();
    let fnames: Vec<String> = files.into_iter().map(|e| e.name).collect();
    assert_eq!(dn, vec!["two".to_string(), "four".to_string()]);
    assert_eq!(fnames, vec!["one".to_string(), "three".to_string()]);
}

#[test]
fn populate_sorts_directories_before_files() {
    let mut node = DirNode::unpopulated("C:".to_string(), VPath::root('C'), None);
    let listing = vec![
        file_entry("beta.txt"),
        dir_entry("zeta"),
        file_entry("Alpha.txt"),
        dir_entry("Echo"),
        dir_entry("alpha"),
    ];
    assert!(node.populate(Ok(listing)).is_ok());
    let (dirs, files) = names_of(&node);
    assert_eq!(dirs, vec!["alpha".to_string(), "Echo".to_string(), "zeta".to_string()]);
    assert_eq!(files, vec!["Alpha.txt".to_string(), "beta.txt".to_string()]);
}

#[test]
fn populate_is_idempotent() {
    let mut node = DirNode::unpopulated("C:".to_string(), VPath::root('C'), None);
    assert!(node.populate(Ok(vec![dir_entry("docs"), file_entry("a.txt")])).is_ok());
    let first = names_of(&node);
    // A second populate is a no-op, whatever listing it is handed.
    assert!(node.populate(Ok(vec![dir_entry("other")])).is_ok());
    let second = names_of(&node);
    assert_eq!(first, second);
}

#[test]
fn populate_failure_leaves_node_unpopulated() {
    let mut node = DirNode::unpopulated("C:".to_string(), VPath::root('C'), None);
    let r = node.populate(Err(ListCause::PermissionDenied));
    assert_eq!(r, Err(ListCause::PermissionDenied));
    assert!(matches!(node.children, Children::Unpopulated));
}

#[test]
fn populated_empty_differs_from_unpopulated() {
    let mut node = DirNode::unpopulated("C:".to_string(), VPath::root('C'), None);
    assert!(matches!(node.children, Children::Unpopulated));
    assert!(node.populate(Ok(vec![])).is_ok());
    match &node.children {
        Children::Populated { dirs, files } => {
            assert!(dirs.is_empty());
            assert!(files.is_empty());
        }
        Children::Unpopulated => panic!("listed-and-empty must not look unpopulated"),
    }
}

#[test]
fn refresh_replaces_children() {
    let mut node = DirNode::unpopulated("C:".to_string(), VPath::root('C'), None);
    assert!(node.populate(Ok(vec![dir_entry("docs")])).is_ok());
    assert!(node.refresh(Ok(vec![dir_entry("new"), file_entry("x.txt")])).is_ok());
    let (dirs, files) = names_of(&node);
    assert_eq!(dirs, vec!["new".to_string()]);
    assert_eq!(files, vec!["x.txt".to_string()]);
}

#[test]
fn refresh_failure_keeps_children() {
    let mut node = DirNode::unpopulated("C:".to_string(), VPath::root('C'), None);
    assert!(node.populate(Ok(vec![dir_entry("docs")])).is_ok());
    let r = node.refresh(Err(ListCause::Io));
    assert_eq!(r, Err(ListCause::Io));
    let (dirs, files) = names_of(&node);
    assert_eq!(dirs, vec!["docs".to_string()]);
    assert!(files.is_empty());
}

#[test]
fn metadata_snapshot_is_kept_per_entry() {
    let mut node = DirNode::unpopulated("C:".to_string(), VPath::root('C'), None);
    let listing = vec![
        RawEntry {
            name: "a.txt".to_string(),
            kind: EntryKind::File,
            meta: Some(Meta { size: 10, modified: 111 }),
        },
        RawEntry { name: "b.txt".to_string(), kind: EntryKind::File, meta: None },
    ];
    assert!(node.populate(Ok(listing)).is_ok());
    match &node.children {
        Children::Populated { files, .. } => {
            assert_eq!(files[0].meta, Some(Meta { size: 10, modified: 111 }));
            assert_eq!(files[1].meta, None);
        }
        Children::Unpopulated => panic!("node is unpopulated"),
    }
}

#[test]
fn path_display_is_exact() {
    let mut p = VPath::root('C');
    assert_eq!(p.display(), "C:\\");
    p.push_comp("docs".to_string());
    assert_eq!(p.display(), "C:\\docs");
    p.push_comp("old".to_string());
    assert_eq!(p.display(), "C:\\docs\\old");
    p.pop_comp();
    assert_eq!(p.display(), "C:\\docs");
    assert_eq!(drive_label('Z'), "Z:");
}

#[test]
fn child_paths_sit_below_the_parent() {
    let mut node = DirNode::unpopulated("C:".to_string(), VPath::root('C'), None);
    assert!(node.populate(Ok(vec![dir_entry("docs"), file_entry("a.txt")])).is_ok());
    match &node.children {
        Children::Populated { dirs, files } => {
            assert_eq!(dirs[0].path.display(), "C:\\docs");
            assert_eq!(files[0].path.display(), "C:\\a.txt");
        }
        Children::Unpopulated => panic!("node is unpopulated"),
    }
}

#[test]
fn discover_keeps_canonical_order_and_labels() {
    let mut present = vec![false; 26];
    present[0] = true; // A
    present[2] = true; // C
    present[25] = true; // Z
    let vols = discover_from(&present);
    let names: Vec<String> = vols.iter().map(|v| v.name.clone()).collect();
    assert_eq!(names, vec!["A:".to_string(), "C:".to_string(), "Z:".to_string()]);
    for v in &vols {
        assert!(matches!(v.children, Children::Unpopulated));
    }
    let none = discover_from(&vec![false; 26]);
    assert!(none.is_empty());
}

#[test]
fn key_bindings_are_fixed() {
    assert_eq!(key_to_command(Key::Up), Some(Command::Move(-1)));
    assert_eq!(key_to_command(Key::Down), Some(Command::Move(1)));
    assert_eq!(key_to_command(Key::Enter), Some(Command::Enter));
    assert_eq!(key_to_command(Key::Right), Some(Command::Enter));
    assert_eq!(key_to_command(Key::Left), Some(Command::Up));
    assert_eq!(key_to_command(Key::Backspace), Some(Command::Up));
    assert_eq!(key_to_command(Key::Char('q')), Some(Command::Quit));
    assert_eq!(key_to_command(Key::Char('x')), None);
    assert_eq!(key_to_command(Key::Other), None);
}
