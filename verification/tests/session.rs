//! Tests of the navigation state machine and the view builder.

use dirnav::entry::{EntryKind, ListCause, RawEntry};
use dirnav::nav::{NavState, Status};
use dirnav::node::Children;
use dirnav::view::build_view;
use dirnav::volume::discover_from;

fn dir_entry(name: &str) -> RawEntry {
    RawEntry { name: name.to_string(), kind: EntryKind::Directory, meta: None }
}

fn file_entry(name: &str) -> RawEntry {
    RawEntry { name: name.to_string(), kind: EntryKind::File, meta: None }
}

/// A registry with volumes C and D.
fn volumes_c_d() -> NavState {
    let mut present = vec![false; 26];
    present[2] = true; // C
    present[3] = true; // D
    NavState::new(discover_from(&present))
}

fn current_path_text(s: &NavState) -> Option<String> {
    s.current_path.as_ref().map(|p| p.display())
}

/// Drives the state into the volume root `C:\` holding `listing`.
fn at_volume_root(listing: Vec<RawEntry>) -> NavState {
    let mut s = volumes_c_d();
    s.move_selection(1); // select C
    assert!(s.enter_request().is_some());
    s.enter_selection(Some(Ok(listing)));
    assert_eq!(current_path_text(&s), Some("C:\\".to_string()));
    s
}

#[test]
fn selection_never_leaves_the_listing() {
    let mut s = volumes_c_d();
    assert_eq!(s.selection, None);
    for delta in [3, -10, 1, 1, 100, -1, i64::MIN, i64::MAX, 0] {
        s.move_selection(delta);
        match s.selection {
            None => panic!("two volumes are listed, so something must be selected"),
            Some(i) => assert!(i <= 1),
        }
    }
    // Saturation, not wrapping.
    s.move_selection(-100);
    assert_eq!(s.selection, Some(0));
    s.move_selection(-1);
    assert_eq!(s.selection, Some(0));
    s.move_selection(100);
    assert_eq!(s.selection, Some(1));
    s.move_selection(1);
    assert_eq!(s.selection, Some(1));
}

#[test]
fn selection_stays_none_on_empty_listing() {
    let mut s = NavState::new(discover_from(&vec![false; 26]));
    for delta in [1, -1, 5, 0] {
        s.move_selection(delta);
        assert_eq!(s.selection, None);
    }
}

#[test]
fn first_move_selects_the_first_line() {
    let mut s = volumes_c_d();
    s.move_selection(-1);
    assert_eq!(s.selection, Some(0));
    s.selection = None;
    s.move_selection(1);
    assert_eq!(s.selection, Some(0));
}

#[test]
fn enter_volume_scenario() {
    // Root state with volumes C and D; select index 1 (D) and enter.
    let mut s = volumes_c_d();
    s.move_selection(1);
    s.move_selection(1);
    assert_eq!(s.selection, Some(1));
    // Exactly one listing is needed: the volume root's.
    let req = s.enter_request().expect("entering a volume needs one listing");
    assert_eq!(req.display(), "D:\\");
    s.enter_selection(Some(Ok(vec![dir_entry("docs")])));
    assert_eq!(current_path_text(&s), Some("D:\\".to_string()));
    assert_eq!(s.selection, None);
    assert!(matches!(s.status, Status::Idle));
    // The directory is now realized: no further listing is needed to draw.
    match &s.current_dir {
        Some(d) => assert!(matches!(d.children, Children::Populated { .. })),
        None => panic!("a directory state must hold a realized directory"),
    }
}

#[test]
fn enter_on_a_file_reports_and_keeps_the_state() {
    let mut s = at_volume_root(vec![dir_entry("docs"), file_entry("a.txt")]);
    s.move_selection(2); // the file line, after the directory line
    assert_eq!(s.selection, Some(1));
    assert!(s.enter_request().is_none());
    s.enter_selection(None);
    assert_eq!(current_path_text(&s), Some("C:\\".to_string()));
    assert_eq!(s.selection, Some(1));
    assert!(matches!(s.status, Status::NotADirectory));
}

#[test]
fn enter_failure_keeps_the_state_and_records_it() {
    let mut s = at_volume_root(vec![dir_entry("docs")]);
    s.move_selection(1);
    assert!(s.enter_request().is_some());
    s.enter_selection(Some(Err(ListCause::PermissionDenied)));
    assert_eq!(current_path_text(&s), Some("C:\\".to_string()));
    assert_eq!(s.selection, Some(0));
    match &s.status {
        Status::ListingFailed { path, cause } => {
            assert_eq!(path.display(), "C:\\docs");
            assert_eq!(*cause, ListCause::PermissionDenied);
        }
        _ => panic!("the failure must be recorded"),
    }
}

#[test]
fn round_trip_returns_to_the_parent_path() {
    let mut s = at_volume_root(vec![dir_entry("docs")]);
    s.move_selection(1);
    s.enter_selection(Some(Ok(vec![dir_entry("old"), file_entry("b.txt")])));
    assert_eq!(current_path_text(&s), Some("C:\\docs".to_string()));
    s.move_selection(1);
    s.enter_selection(Some(Ok(vec![])));
    assert_eq!(current_path_text(&s), Some("C:\\docs\\old".to_string()));
    // Going up needs the parent's listing and lands on the parent, exactly.
    let req = s.up_request().expect("going up needs the parent's listing");
    assert_eq!(req.display(), "C:\\docs");
    s.go_up(Some(Ok(vec![dir_entry("old"), file_entry("b.txt")])));
    assert_eq!(current_path_text(&s), Some("C:\\docs".to_string()));
    assert_eq!(s.selection, None);
}

#[test]
fn go_up_from_volume_root_reaches_home_and_is_then_a_noop() {
    let mut s = at_volume_root(vec![]);
    assert!(s.up_request().is_none());
    s.go_up(None);
    assert_eq!(current_path_text(&s), None);
    assert!(s.current_dir.is_none());
    assert_eq!(s.selection, None);
    // At the volume-selection root, going up does nothing.
    s.go_up(None);
    assert_eq!(current_path_text(&s), None);
    assert!(s.current_dir.is_none());
    assert_eq!(s.volumes.len(), 2);
}

#[test]
fn deleted_directory_scenario() {
    // The directory under the current path vanished outside the session.
    let mut s = at_volume_root(vec![dir_entry("docs")]);
    s.move_selection(1);
    s.enter_selection(Some(Ok(vec![file_entry("b.txt")])));
    assert_eq!(current_path_text(&s), Some("C:\\docs".to_string()));
    // Going up now fails to list the parent: everything is kept.
    s.go_up(Some(Err(ListCause::NotFound)));
    assert_eq!(current_path_text(&s), Some("C:\\docs".to_string()));
    assert!(s.current_dir.is_some());
    match &s.status {
        Status::ListingFailed { path, cause } => {
            assert_eq!(path.display(), "C:\\");
            assert_eq!(*cause, ListCause::NotFound);
        }
        _ => panic!("the failure must be recorded"),
    }
    // Re-listing the current directory fails too: everything is kept.
    let before_sel = s.selection;
    s.refresh_current(Err(ListCause::NotFound));
    assert_eq!(current_path_text(&s), Some("C:\\docs".to_string()));
    assert_eq!(s.selection, before_sel);
    match &s.status {
        Status::ListingFailed { path, cause } => {
            assert_eq!(path.display(), "C:\\docs");
            assert_eq!(*cause, ListCause::NotFound);
        }
        _ => panic!("the failure must be recorded"),
    }
}

#[test]
fn refresh_replaces_the_current_listing() {
    let mut s = at_volume_root(vec![dir_entry("docs")]);
    s.move_selection(1);
    s.refresh_current(Ok(vec![dir_entry("new"), file_entry("x.txt")]));
    assert_eq!(s.selection, None);
    let v = build_view(&s);
    assert_eq!(v.entries, vec!["new".to_string(), "x.txt".to_string()]);
}

#[test]
fn replace_volumes_restarts_at_home() {
    let mut s = at_volume_root(vec![dir_entry("docs")]);
    let mut present = vec![false; 26];
    present[4] = true; // E
    s.replace_volumes(discover_from(&present));
    assert_eq!(current_path_text(&s), None);
    assert!(s.current_dir.is_none());
    assert_eq!(s.selection, None);
    assert!(matches!(s.status, Status::Idle));
    assert_eq!(s.volumes.len(), 1);
    assert_eq!(s.volumes[0].name, "E:");
}

#[test]
fn view_of_the_volume_root() {
    let mut s = volumes_c_d();
    s.move_selection(1);
    let v = build_view(&s);
    assert_eq!(v.path_line, "Home");
    assert_eq!(v.entries, vec!["C:".to_string(), "D:".to_string()]);
    assert_eq!(v.highlighted, Some(0));
    assert_eq!(v.status_line, "enter opens, backspace goes up, q quits");
}

#[test]
fn view_of_a_directory_orders_and_highlights() {
    let mut s = at_volume_root(vec![
        file_entry("beta.txt"),
        dir_entry("zeta"),
        file_entry("Alpha.txt"),
        dir_entry("Echo"),
    ]);
    s.move_selection(4);
    let v = build_view(&s);
    assert_eq!(v.path_line, "C:\\");
    assert_eq!(
        v.entries,
        vec![
            "Echo".to_string(),
            "zeta".to_string(),
            "Alpha.txt".to_string(),
            "beta.txt".to_string()
        ]
    );
    assert_eq!(v.highlighted, Some(3));
}

#[test]
fn view_shows_failures_and_invalid_transitions() {
    let mut s = at_volume_root(vec![dir_entry("docs"), file_entry("a.txt")]);
    s.move_selection(1);
    s.enter_selection(Some(Err(ListCause::NotFound)));
    let v = build_view(&s);
    assert_eq!(v.status_line, "listing failed: C:\\docs (not found)");
    s.move_selection(1);
    s.enter_selection(None);
    let v2 = build_view(&s);
    assert_eq!(v2.status_line, "not a directory");
    s.refresh_current(Err(ListCause::Io));
    let v3 = build_view(&s);
    assert_eq!(v3.status_line, "listing failed: C:\\ (i/o error)");
}
