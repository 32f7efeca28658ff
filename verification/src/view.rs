//! The view builder: a pure map from navigation state to a drawable layout.

use vstd::prelude::*;
use vstd::pervasive::unreached;

use crate::entry::ListCause;
use crate::nav::{NavState, Status};
use crate::node::{Children, DirNode};
use crate::path::display_seq;

verus! {

/// A renderable layout: three stacked text regions. The rendering backend
/// draws it; the library never touches the terminal.
pub struct Layout {
    /// The single-line path indicator: the current path, or `Home` at the
    /// volume-selection root.
    pub path_line: String,
    /// The listing region, one line per entry.
    pub entries: Vec<String>,
    /// Which listing line is highlighted, if any.
    pub highlighted: Option<usize>,
    /// The status and help footer.
    pub status_line: String,
}

/// The text of the path indicator.
pub open spec fn path_text(s: NavState) -> Seq<char> {
    match s.current_path {
        None => "Home"@,
        Some(p) => display_seq(p@),
    }
}

/// The lines of the listing region: the volume labels at the
/// volume-selection root, else the current directory's children,
/// directories first.
pub open spec fn line_texts(s: NavState) -> Seq<Seq<char>> {
    match s.current_dir {
        None => s.volumes@.map_values(|d: DirNode| d.name@),
        Some(d) => d.listing_names(),
    }
}

/// The text a listing failure's cause is shown as.
pub open spec fn cause_text(c: ListCause) -> Seq<char> {
    match c {
        ListCause::PermissionDenied => "permission denied"@,
        ListCause::NotFound => "not found"@,
        ListCause::Io => "i/o error"@,
    }
}

/// The text of the status footer.
pub open spec fn status_text(st: Status) -> Seq<char> {
    match st {
        Status::Idle => "enter opens, backspace goes up, q quits"@,
        Status::ListingFailed { path, cause } => "listing failed: "@ + display_seq(path@) + " ("@
            + cause_text(cause) + ")"@,
        Status::NotADirectory => "not a directory"@,
    }
}

/// The text a listing failure's cause is shown as.
fn cause_str(c: &ListCause) -> (r: &'static str)
    ensures
        r@ == cause_text(*c),
{
    match c {
        ListCause::PermissionDenied => "permission denied",
        ListCause::NotFound => "not found",
        ListCause::Io => "i/o error",
    }
}

/// Builds the layout for a state: the path indicator, the listing with the
/// selection highlighted, and the status footer. Pure: no filesystem
/// access and no mutation; the state's directory is already realized.
pub fn build_view(s: &NavState) -> (v: Layout)
    requires
        s.wf(),
    ensures
        v.path_line@ == path_text(*s),
        v.entries@.len() == line_texts(*s).len(),
        forall|k: int| 0 <= k < v.entries@.len() ==> (#[trigger] v.entries@[k])@ == line_texts(
            *s,
        )[k],
        v.highlighted == s.selection,
        v.status_line@ == status_text(s.status),
{
    let path_line = match &s.current_path {
        None => String::from_str("Home"),
        Some(p) => p.display(),
    };
    let entries = build_lines(s);
    let status_line = match &s.status {
        Status::Idle => String::from_str("enter opens, backspace goes up, q quits"),
        Status::NotADirectory => String::from_str("not a directory"),
        Status::ListingFailed { path, cause } => {
            let mut t = String::from_str("listing failed: ");
            let shown = path.display();
            t.append(shown.as_str());
            t.append(" (");
            t.append(cause_str(cause));
            t.append(")");
            t
        },
    };
    Layout { path_line, entries, highlighted: s.selection, status_line }
}

/// Builds the listing region's lines.
fn build_lines(s: &NavState) -> (r: Vec<String>)
    requires
        s.wf(),
    ensures
        r@.len() == line_texts(*s).len(),
        forall|k: int| 0 <= k < r@.len() ==> (#[trigger] r@[k])@ == line_texts(*s)[k],
{
    let mut out: Vec<String> = Vec::new();
    match &s.current_dir {
        None => {
            let n = s.volumes.len();
            let mut i: usize = 0;
            while i < n
                invariant
                    i <= n,
                    n == s.volumes@.len(),
                    out@.len() == i,
                    forall|k: int|
                        0 <= k < i ==> (#[trigger] out@[k])@ == s.volumes@[k].name@,
                decreases n - i,
            {
                out.push(s.volumes[i].name.clone());
                i = i + 1;
            }
        },
        Some(d) => match &d.children {
            Children::Populated { dirs, files } => {
                let nd = dirs.len();
                let mut i: usize = 0;
                while i < nd
                    invariant
                        i <= nd,
                        nd == dirs@.len(),
                        out@.len() == i,
                        forall|k: int| 0 <= k < i ==> (#[trigger] out@[k])@ == dirs@[k].name@,
                    decreases nd - i,
                {
                    out.push(dirs[i].name.clone());
                    i = i + 1;
                }
                let nf = files.len();
                let mut j: usize = 0;
                while j < nf
                    invariant
                        j <= nf,
                        nd == dirs@.len(),
                        nf == files@.len(),
                        out@.len() == nd + j,
                        forall|k: int| 0 <= k < nd ==> (#[trigger] out@[k])@ == dirs@[k].name@,
                        forall|k: int|
                            nd <= k < nd + j ==> (#[trigger] out@[k])@ == files@[k - nd].name@,
                    decreases nf - j,
                {
                    out.push(files[j].name.clone());
                    j = j + 1;
                }
            },
            Children::Unpopulated => {
                let _: usize = unreached();
            },
        },
    }
    out
}

} // verus!
