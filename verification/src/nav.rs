//! The navigation state machine.
//!
//! `NavState` is the single mutable context of a browsing session: the
//! volume registry, the current path, the realized listing of the current
//! directory, the selection, and a status message. Transitions never touch
//! the filesystem themselves: where one needs a directory listing, the
//! matching `*_request` function names the path to list, and the caller
//! hands the listing's result in as a plain value. A transition that is
//! handed a failed listing leaves the state unchanged and only records the
//! failure in the status.

use vstd::prelude::*;
use vstd::pervasive::unreached;

use crate::entry::{ListCause, Meta, RawEntry};
use crate::node::{Children, DirNode};
use crate::path::{drive_label, VPath};

verus! {

/// What the status region reports.
pub enum Status {
    /// Nothing to report.
    Idle,
    /// A directory listing failed; the state at the time was kept.
    ListingFailed { path: VPath, cause: ListCause },
    /// The selected entry is a file, which cannot be entered.
    NotADirectory,
}

/// The navigation state: the session root.
pub struct NavState {
    /// The volume registry: one unpopulated root per discovered volume.
    pub volumes: Vec<DirNode>,
    /// The current absolute path; `None` at the volume-selection root.
    pub current_path: Option<VPath>,
    /// The realized directory at `current_path`; `None` exactly when
    /// `current_path` is `None`.
    pub current_dir: Option<DirNode>,
    /// Index into the current listing, or `None` when nothing is selected.
    pub selection: Option<usize>,
    /// The message for the status region.
    pub status: Status,
}

impl NavState {
    /// Number of lines in the current listing: the volumes at the root,
    /// else the current directory's children.
    pub open spec fn spec_listing_len(self) -> nat {
        match self.current_dir {
            None => self.volumes@.len(),
            Some(d) => d.spec_listing_len(),
        }
    }

    /// Well-formedness: path and realized directory go together and agree,
    /// registry roots are unpopulated volume roots, and the selection is a
    /// valid index into the current listing.
    pub open spec fn wf(self) -> bool {
        &&& self.current_path is Some <==> self.current_dir is Some
        &&& forall|i: int|
            0 <= i < self.volumes@.len() ==> {
                &&& (#[trigger] self.volumes@[i]).path.wf()
                &&& self.volumes@[i].children is Unpopulated
                &&& self.volumes@[i].path@.1 == Seq::<Seq<char>>::empty()
            }
        &&& match (self.current_path, self.current_dir) {
            (Some(p), Some(d)) => {
                &&& p.wf()
                &&& d.path@ == p@
                &&& d.is_populated()
                &&& d.wf()
            },
            _ => true,
        }
        &&& match self.selection {
            Some(i) => i < self.spec_listing_len(),
            None => true,
        }
        &&& match self.status {
            Status::ListingFailed { path, .. } => path.wf(),
            _ => true,
        }
    }

    /// A fresh session: at the volume-selection root, nothing selected.
    pub fn new(volumes: Vec<DirNode>) -> (s: NavState)
        requires
            forall|i: int|
                0 <= i < volumes@.len() ==> {
                    &&& (#[trigger] volumes@[i]).path.wf()
                    &&& volumes@[i].children is Unpopulated
                    &&& volumes@[i].path@.1 == Seq::<Seq<char>>::empty()
                },
        ensures
            s.wf(),
            s.volumes == volumes,
            s.current_path is None,
            s.current_dir is None,
            s.selection is None,
            s.status is Idle,
    {
        NavState {
            volumes,
            current_path: None,
            current_dir: None,
            selection: None,
            status: Status::Idle,
        }
    }

    /// The volume-rescan hook: replaces the registry and starts over at the
    /// volume-selection root.
    pub fn replace_volumes(&mut self, volumes: Vec<DirNode>)
        requires
            forall|i: int|
                0 <= i < volumes@.len() ==> {
                    &&& (#[trigger] volumes@[i]).path.wf()
                    &&& volumes@[i].children is Unpopulated
                    &&& volumes@[i].path@.1 == Seq::<Seq<char>>::empty()
                },
        ensures
            final(self).wf(),
            final(self).volumes == volumes,
            final(self).current_path is None,
            final(self).current_dir is None,
            final(self).selection is None,
            final(self).status is Idle,
    {
        self.volumes = volumes;
        self.current_path = None;
        self.current_dir = None;
        self.selection = None;
        self.status = Status::Idle;
    }

    /// Number of lines in the current listing.
    pub fn listing_len(&self) -> (n: usize)
        requires
            self.wf(),
        ensures
            n == self.spec_listing_len(),
    {
        match &self.current_dir {
            None => self.volumes.len(),
            Some(d) => d.listing_len(),
        }
    }

    /// The selection after one move by `delta` over a listing of `len`
    /// lines: `None` on an empty listing; otherwise the index moves from
    /// its old place (or from just before the first line, when nothing was
    /// selected) and saturates at the first and last line.
    pub open spec fn spec_move_sel(sel: Option<usize>, len: nat, delta: int) -> Option<usize> {
        if len == 0 {
            None
        } else {
            let cur = match sel {
                Some(i) => i as int,
                None => -1,
            };
            let raw = cur + delta;
            let clamped = if raw < 0 {
                0
            } else if raw > len - 1 {
                len - 1
            } else {
                raw
            };
            Some(clamped as usize)
        }
    }

    /// The state after one `move_selection(delta)`.
    pub open spec fn spec_moved(self, delta: int) -> NavState {
        NavState {
            selection: Self::spec_move_sel(self.selection, self.spec_listing_len(), delta),
            ..self
        }
    }

    /// Moves the selection by `delta` lines, saturating at the ends.
    pub fn move_selection(&mut self, delta: i64)
        requires
            old(self).wf(),
        ensures
            final(self).wf(),
            *final(self) == old(self).spec_moved(delta as int),
    {
        let len = self.listing_len();
        if len == 0 {
            self.selection = None;
            return;
        }
        let cur: i128 = match self.selection {
            Some(i) => i as i128,
            None => -1,
        };
        let raw: i128 = cur + (delta as i128);
        let clamped: i128 = if raw < 0 {
            0
        } else if raw > (len as i128) - 1 {
            (len as i128) - 1
        } else {
            raw
        };
        self.selection = Some(clamped as usize);
    }

    /// The state after a sequence of selection moves.
    pub open spec fn spec_moved_seq(self, deltas: Seq<int>) -> NavState
        decreases deltas.len(),
    {
        if deltas.len() == 0 {
            self
        } else {
            self.spec_moved_seq(deltas.drop_last()).spec_moved(deltas.last())
        }
    }

    /// Law: however the selection is moved, it stays within the current
    /// listing: `None` on an empty listing, else an index in `[0, len-1]`;
    /// it neither wraps nor leaves the range, and nothing else changes.
    pub proof fn lemma_move_selection_sequence(self, deltas: Seq<int>)
        requires
            self.wf(),
        ensures
            self.spec_moved_seq(deltas).wf(),
            self.spec_moved_seq(deltas).volumes == self.volumes,
            self.spec_moved_seq(deltas).current_path == self.current_path,
            self.spec_moved_seq(deltas).current_dir == self.current_dir,
            self.spec_moved_seq(deltas).status == self.status,
            self.spec_moved_seq(deltas).spec_listing_len() == self.spec_listing_len(),
            deltas.len() > 0 && self.spec_listing_len() == 0 ==> self.spec_moved_seq(
                deltas,
            ).selection is None,
            deltas.len() > 0 && self.spec_listing_len() > 0 ==> (self.spec_moved_seq(
                deltas,
            ).selection matches Some(i) && i < self.spec_listing_len()),
        decreases deltas.len(),
    {
        if deltas.len() > 0 {
            self.lemma_move_selection_sequence(deltas.drop_last());
        }
    }

    /// The path whose listing `enter_selection` will need: the selected
    /// volume's root, or the selected child directory. `None` when no
    /// listing is needed, because nothing is selected or a file is.
    pub open spec fn spec_enter_target(self) -> Option<(char, Seq<Seq<char>>)> {
        match self.selection {
            None => None,
            Some(i) => match self.current_dir {
                None => if i < self.volumes@.len() {
                    Some((self.volumes@[i as int].path@.0, Seq::<Seq<char>>::empty()))
                } else {
                    None
                },
                Some(d) => if i < d.spec_dirs().len() {
                    Some((d.path@.0, d.path@.1.push(d.spec_dirs()[i as int].name@)))
                } else {
                    None
                },
            },
        }
    }

    /// Names the path whose listing `enter_selection` needs, if any.
    pub fn enter_request(&self) -> (r: Option<VPath>)
        requires
            self.wf(),
        ensures
            match (r, self.spec_enter_target()) {
                (Some(p), Some(t)) => p@ == t && p.wf(),
                (None, None) => true,
                _ => false,
            },
    {
        match self.selection {
            None => None,
            Some(i) => match &self.current_dir {
                None => Some(VPath::root(self.volumes[i].path.volume)),
                Some(d) => match &d.children {
                    Children::Populated { dirs, .. } => {
                        if i < dirs.len() {
                            let mut p = d.path.duplicate();
                            p.push_comp(dirs[i].name.clone());
                            Some(p)
                        } else {
                            None
                        }
                    },
                    Children::Unpopulated => unreached(),
                },
            },
        }
    }
}

/// The parts of the state that an ineffective or failed transition keeps:
/// everything but the status.
pub open spec fn unchanged_core(pre: NavState, post: NavState) -> bool {
    &&& post.volumes == pre.volumes
    &&& post.current_path == pre.current_path
    &&& post.current_dir == pre.current_dir
    &&& post.selection == pre.selection
}

/// What holds after descending into the directory at `target` whose entry
/// had name `name` and metadata `meta`: with a good listing, the state is
/// there, freshly populated, with the selection cleared and the status
/// kept; with a failed listing, only the status changes, to the failure.
pub open spec fn entered(
    pre: NavState,
    name: Seq<char>,
    meta: Option<Meta>,
    target: (char, Seq<Seq<char>>),
    listing: Option<Result<Vec<RawEntry>, ListCause>>,
    post: NavState,
) -> bool {
    match listing {
        Some(Ok(l)) => {
            &&& post.volumes == pre.volumes
            &&& post.selection is None
            &&& post.status == pre.status
            &&& post.current_path matches Some(p) && p@ == target
            &&& post.current_dir matches Some(d) && d.path@ == target && d.name@ == name
                && d.meta == meta && d.populated_from(l@)
        },
        Some(Err(c)) => {
            &&& unchanged_core(pre, post)
            &&& post.status matches Status::ListingFailed { path, cause } && path@ == target
                && cause == c
        },
        None => false,
    }
}

/// The full transition relation of `enter_selection`.
pub open spec fn enter_post(
    pre: NavState,
    listing: Option<Result<Vec<RawEntry>, ListCause>>,
    post: NavState,
) -> bool {
    match pre.selection {
        None => post == pre,
        Some(i) => match pre.current_dir {
            None => entered(
                pre,
                pre.volumes@[i as int].name@,
                pre.volumes@[i as int].meta,
                (pre.volumes@[i as int].path@.0, Seq::<Seq<char>>::empty()),
                listing,
                post,
            ),
            Some(d) => if i < d.spec_dirs().len() {
                entered(
                    pre,
                    d.spec_dirs()[i as int].name@,
                    d.spec_dirs()[i as int].meta,
                    (d.path@.0, d.path@.1.push(d.spec_dirs()[i as int].name@)),
                    listing,
                    post,
                )
            } else {
                &&& unchanged_core(pre, post)
                &&& post.status is NotADirectory
            },
        },
    }
}

impl NavState {
    /// Enters the selected item. At the volume-selection root this descends
    /// into the selected volume; in a directory it descends into the
    /// selected child directory; on a selected file it does nothing and
    /// reports that in the status. `listing` must be the listing of the
    /// path that `enter_request` named, and must be `None` exactly when
    /// `enter_request` named none.
    pub fn enter_selection(&mut self, listing: Option<Result<Vec<RawEntry>, ListCause>>)
        requires
            old(self).wf(),
            listing is Some <==> old(self).spec_enter_target() is Some,
        ensures
            final(self).wf(),
            enter_post(*old(self), listing, *final(self)),
    {
        let i = match self.selection {
            None => {
                return ;
            },
            Some(i) => i,
        };
        let (name, path, meta): (String, VPath, Option<Meta>) = match &self.current_dir {
            None => {
                let v = &self.volumes[i];
                (v.name.clone(), VPath::root(v.path.volume), v.meta)
            },
            Some(d) => match &d.children {
                Children::Populated { dirs, .. } => {
                    if i >= dirs.len() {
                        self.status = Status::NotADirectory;
                        return ;
                    }
                    let c = &dirs[i];
                    (c.name.clone(), c.path.duplicate(), c.meta)
                },
                Children::Unpopulated => unreached(),
            },
        };
        let mut node = DirNode::unpopulated(name, path, meta);
        let lr = match listing {
            Some(x) => x,
            None => unreached(),
        };
        match node.populate(lr) {
            Ok(()) => {
                let p = node.path.duplicate();
                self.current_path = Some(p);
                self.current_dir = Some(node);
                self.selection = None;
            },
            Err(c) => {
                self.status = Status::ListingFailed { path: node.path, cause: c };
            },
        }
    }

    /// The parent path whose listing `go_up` will need: `None` at the
    /// volume-selection root and at a volume root, where no listing is
    /// needed.
    pub open spec fn spec_up_target(self) -> Option<(char, Seq<Seq<char>>)> {
        match self.current_path {
            None => None,
            Some(p) => if p@.1.len() == 0 {
                None
            } else {
                Some((p@.0, p@.1.drop_last()))
            },
        }
    }

    /// Names the path whose listing `go_up` needs, if any.
    pub fn up_request(&self) -> (r: Option<VPath>)
        requires
            self.wf(),
        ensures
            match (r, self.spec_up_target()) {
                (Some(p), Some(t)) => p@ == t && p.wf(),
                (None, None) => true,
                _ => false,
            },
    {
        match &self.current_path {
            None => None,
            Some(p) => {
                if p.comps.len() == 0 {
                    None
                } else {
                    let mut q = p.duplicate();
                    q.pop_comp();
                    Some(q)
                }
            },
        }
    }
}

/// The full transition relation of `go_up`: a no-op at the volume-selection
/// root; from a volume root, back to the volume selection; from anywhere
/// else, to the parent directory, freshly listed — or, when that listing
/// fails, no change but the status.
pub open spec fn up_post(
    pre: NavState,
    listing: Option<Result<Vec<RawEntry>, ListCause>>,
    post: NavState,
) -> bool {
    match pre.current_path {
        None => post == pre,
        Some(p) => if p@.1.len() == 0 {
            &&& post.volumes == pre.volumes
            &&& post.current_path is None
            &&& post.current_dir is None
            &&& post.selection is None
            &&& post.status == pre.status
        } else {
            let target = (p@.0, p@.1.drop_last());
            let pname = if p@.1.len() == 1 {
                seq![p@.0, ':']
            } else {
                p@.1[p@.1.len() - 2]
            };
            match listing {
                Some(Ok(l)) => {
                    &&& post.volumes == pre.volumes
                    &&& post.selection is None
                    &&& post.status == pre.status
                    &&& post.current_path matches Some(q) && q@ == target
                    &&& post.current_dir matches Some(d) && d.path@ == target && d.name@ == pname
                        && d.meta is None && d.populated_from(l@)
                },
                Some(Err(c)) => {
                    &&& unchanged_core(pre, post)
                    &&& post.status matches Status::ListingFailed { path, cause } && path@ == target
                        && cause == c
                },
                None => false,
            }
        },
    }
}

impl NavState {
    /// Moves to the parent of the current path: to the volume selection
    /// from a volume root, else to the parent directory, which is listed
    /// afresh. `listing` must be the listing of the path that `up_request`
    /// named, and must be `None` exactly when `up_request` named none.
    pub fn go_up(&mut self, listing: Option<Result<Vec<RawEntry>, ListCause>>)
        requires
            old(self).wf(),
            listing is Some <==> old(self).spec_up_target() is Some,
        ensures
            final(self).wf(),
            up_post(*old(self), listing, *final(self)),
    {
        let comps_len = match &self.current_path {
            None => {
                return ;
            },
            Some(p) => p.comps.len(),
        };
        if comps_len == 0 {
            self.current_path = None;
            self.current_dir = None;
            self.selection = None;
            return ;
        }
        let mut parent_path = match &self.current_path {
            Some(p) => p.duplicate(),
            None => unreached(),
        };
        parent_path.pop_comp();
        let pname = match parent_path.last_comp() {
            Some(s) => s.clone(),
            None => drive_label(parent_path.volume),
        };
        let mut node = DirNode::unpopulated(pname, parent_path, None);
        let lr = match listing {
            Some(x) => x,
            None => unreached(),
        };
        match node.populate(lr) {
            Ok(()) => {
                let q = node.path.duplicate();
                self.current_path = Some(q);
                self.current_dir = Some(node);
                self.selection = None;
            },
            Err(c) => {
                self.status = Status::ListingFailed { path: node.path, cause: c };
            },
        }
    }
}

/// The full transition relation of `refresh_current`: re-listing the
/// current directory replaces its whole child set and clears the
/// selection; a failed re-listing changes nothing but the status.
pub open spec fn refresh_post(
    pre: NavState,
    listing: Result<Vec<RawEntry>, ListCause>,
    post: NavState,
) -> bool {
    match listing {
        Ok(l) => {
            &&& post.volumes == pre.volumes
            &&& post.current_path == pre.current_path
            &&& post.status == pre.status
            &&& post.selection is None
            &&& post.current_dir matches Some(d) && pre.current_dir matches Some(c) && d.name
                == c.name && d.path == c.path && d.meta == c.meta && d.populated_from(l@)
        },
        Err(c) => {
            &&& unchanged_core(pre, post)
            &&& post.status matches Status::ListingFailed { path, cause } && pre.current_path
                matches Some(p) && path@ == p@ && cause == c
        },
    }
}

impl NavState {
    /// Explicitly re-lists the current directory, replacing its realized
    /// child set. On failure the state is kept and the failure recorded.
    pub fn refresh_current(&mut self, listing: Result<Vec<RawEntry>, ListCause>)
        requires
            old(self).wf(),
            old(self).current_dir is Some,
        ensures
            final(self).wf(),
            refresh_post(*old(self), listing, *final(self)),
    {
        let r = match &mut self.current_dir {
            Some(d) => d.refresh(listing),
            None => unreached(),
        };
        match r {
            Ok(()) => {
                self.selection = None;
            },
            Err(c) => {
                let p = match &self.current_path {
                    Some(p) => p.duplicate(),
                    None => unreached(),
                };
                self.status = Status::ListingFailed { path: p, cause: c };
            },
        }
    }
}

/// Law: entering a directory and then going up returns to exactly the
/// path the session was at before entering, with nothing selected.
pub proof fn lemma_enter_then_up_round_trip(
    pre: NavState,
    l1: Option<Result<Vec<RawEntry>, ListCause>>,
    mid: NavState,
    l2: Option<Result<Vec<RawEntry>, ListCause>>,
    post: NavState,
)
    requires
        pre.wf(),
        pre.spec_enter_target() is Some,
        l1 matches Some(Ok(_)),
        enter_post(pre, l1, mid),
        up_post(mid, l2, post),
        !(l2 matches Some(Err(_))),
    ensures
        match (post.current_path, pre.current_path) {
            (Some(a), Some(b)) => a@ == b@,
            (None, None) => true,
            _ => false,
        },
        post.selection is None,
{
    let i = pre.selection->0;
    match pre.current_dir {
        None => {
            assert(mid.current_path matches Some(p) && p@.1.len() == 0);
        },
        Some(d) => {
            let name = d.spec_dirs()[i as int].name@;
            let b = pre.current_path->0;
            assert(mid.current_path matches Some(p) && p@ == (b@.0, b@.1.push(name)));
            assert(b@.1.push(name).drop_last() =~= b@.1);
        },
    }
}

/// Law: going up at the volume-selection root is a no-op, and going up
/// from a volume root lands at the volume-selection root with no path,
/// no realized directory and no selection.
pub proof fn lemma_go_up_top(
    pre: NavState,
    listing: Option<Result<Vec<RawEntry>, ListCause>>,
    post: NavState,
)
    requires
        up_post(pre, listing, post),
    ensures
        pre.current_path is None ==> post == pre,
        (pre.current_path matches Some(p) && p@.1.len() == 0) ==> post.current_path is None
            && post.current_dir is None && post.selection is None && post.status == pre.status,
{
}

} // verus!
