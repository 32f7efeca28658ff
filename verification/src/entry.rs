//! Raw directory entries and per-entry metadata snapshots.

use vstd::prelude::*;

verus! {

/// Kind of a directory entry as reported by one listing call.
#[derive(Clone, Copy, PartialEq, Eq, Structural, Debug)]
pub enum EntryKind {
    Directory,
    File,
}

/// Immutable per-entry attributes captured at listing time: size in bytes
/// and last-modification time in seconds. Never refreshed automatically.
#[derive(Clone, Copy, PartialEq, Eq, Structural, Debug)]
pub struct Meta {
    pub size: u64,
    pub modified: u64,
}

/// One raw directory entry, as handed in by the filesystem edge.
/// `meta` is `None` when the per-entry attribute lookup failed; that is
/// recorded per entry and is not an error of the listing as a whole.
pub struct RawEntry {
    pub name: String,
    pub kind: EntryKind,
    pub meta: Option<Meta>,
}

/// Why a directory listing failed.
#[derive(Clone, Copy, PartialEq, Eq, Structural, Debug)]
pub enum ListCause {
    PermissionDenied,
    NotFound,
    Io,
}

} // verus!
