//! The filesystem tree model: directory and file nodes with lazy population.

use vstd::prelude::*;

use crate::entry::{EntryKind, ListCause, Meta, RawEntry};
use crate::listing::{
    keep_kind, lemma_keep_kind_partition, lemma_sort_ci_len, lemma_sort_ci_sorted,
    partition_entries, sort_ci, sort_entries,
};
use crate::order::ci_le;
use crate::path::VPath;

verus! {

/// A file: a leaf of the tree.
pub struct FileNode {
    pub name: String,
    pub path: VPath,
    pub meta: Option<Meta>,
}

/// The children of a directory. `Unpopulated` means "not yet listed",
/// which is distinct from listed-and-empty.
pub enum Children {
    Unpopulated,
    Populated { dirs: Vec<DirNode>, files: Vec<FileNode> },
}

/// A directory node. Children are populated lazily by one listing call.
pub struct DirNode {
    pub name: String,
    pub path: VPath,
    pub meta: Option<Meta>,
    pub children: Children,
}

/// How a realized child directory relates to the raw entry it came from.
pub open spec fn child_dir_ok(parent: (char, Seq<Seq<char>>), e: RawEntry, d: DirNode) -> bool {
    &&& d.name@ == e.name@
    &&& d.meta == e.meta
    &&& d.path@.0 == parent.0
    &&& d.path@.1 == parent.1.push(e.name@)
    &&& d.children is Unpopulated
}

/// How a realized child file relates to the raw entry it came from.
pub open spec fn child_file_ok(parent: (char, Seq<Seq<char>>), e: RawEntry, f: FileNode) -> bool {
    &&& f.name@ == e.name@
    &&& f.meta == e.meta
    &&& f.path@.0 == parent.0
    &&& f.path@.1 == parent.1.push(e.name@)
}

impl DirNode {
    /// Whether the node has been listed.
    pub open spec fn is_populated(self) -> bool {
        self.children is Populated
    }

    /// The realized child directories, in listing order.
    pub open spec fn spec_dirs(self) -> Seq<DirNode> {
        match self.children {
            Children::Populated { dirs, .. } => dirs@,
            Children::Unpopulated => Seq::empty(),
        }
    }

    /// The realized child files, in listing order.
    pub open spec fn spec_files(self) -> Seq<FileNode> {
        match self.children {
            Children::Populated { files, .. } => files@,
            Children::Unpopulated => Seq::empty(),
        }
    }

    /// Number of lines in the node's listing: directories, then files.
    pub open spec fn spec_listing_len(self) -> nat {
        self.spec_dirs().len() + self.spec_files().len()
    }

    /// The names shown for the node's listing: directories, then files.
    pub open spec fn listing_names(self) -> Seq<Seq<char>> {
        self.spec_dirs().map_values(|d: DirNode| d.name@) + self.spec_files().map_values(
            |f: FileNode| f.name@,
        )
    }

    /// Realized children are consistent: each child sits directly below this
    /// node, child directories are not yet listed themselves, both groups are
    /// in case-insensitive name order, and the listing length fits `usize`.
    pub open spec fn children_wf(self) -> bool {
        match self.children {
            Children::Unpopulated => true,
            Children::Populated { dirs, files } => {
                &&& dirs@.len() + files@.len() <= usize::MAX
                &&& forall|i: int|
                    0 <= i < dirs@.len() ==> {
                        &&& (#[trigger] dirs@[i]).path@.0 == self.path@.0
                        &&& dirs@[i].path@.1 == self.path@.1.push(dirs@[i].name@)
                        &&& dirs@[i].children is Unpopulated
                    }
                &&& forall|i: int|
                    0 <= i < files@.len() ==> {
                        &&& (#[trigger] files@[i]).path@.0 == self.path@.0
                        &&& files@[i].path@.1 == self.path@.1.push(files@[i].name@)
                    }
                &&& forall|i: int, j: int|
                    0 <= i < j < dirs@.len() ==> ci_le(
                        #[trigger] dirs@[i].name@,
                        #[trigger] dirs@[j].name@,
                    )
                &&& forall|i: int, j: int|
                    0 <= i < j < files@.len() ==> ci_le(
                        #[trigger] files@[i].name@,
                        #[trigger] files@[j].name@,
                    )
            },
        }
    }

    /// A well-formed node: a proper volume letter and consistent children.
    pub open spec fn wf(self) -> bool {
        &&& self.path.wf()
        &&& self.children_wf()
    }

    /// The node was populated from exactly the raw entries `entries`:
    /// its child directories are the directory entries and its child files
    /// the file entries, each group sorted case-insensitively by name.
    pub open spec fn populated_from(self, entries: Seq<RawEntry>) -> bool {
        let ds = sort_ci(keep_kind(entries, EntryKind::Directory));
        let fs = sort_ci(keep_kind(entries, EntryKind::File));
        &&& self.is_populated()
        &&& self.spec_dirs().len() == ds.len()
        &&& forall|i: int|
            0 <= i < ds.len() ==> child_dir_ok(self.path@, ds[i], #[trigger] self.spec_dirs()[i])
        &&& self.spec_files().len() == fs.len()
        &&& forall|i: int|
            0 <= i < fs.len() ==> child_file_ok(self.path@, fs[i], #[trigger] self.spec_files()[i])
    }

    /// An unpopulated node at the given path.
    pub fn unpopulated(name: String, path: VPath, meta: Option<Meta>) -> (d: DirNode)
        ensures
            d.name == name,
            d.path == path,
            d.meta == meta,
            d.children is Unpopulated,
    {
        DirNode { name, path, meta, children: Children::Unpopulated }
    }

    /// Number of lines in the node's listing.
    pub fn listing_len(&self) -> (n: usize)
        requires
            self.children_wf(),
        ensures
            n == self.spec_listing_len(),
    {
        match &self.children {
            Children::Unpopulated => 0,
            Children::Populated { dirs, files } => dirs.len() + files.len(),
        }
    }

    /// Realizes the node's children from one listing of its path.
    ///
    /// If the node is already populated this is a no-op: the realized
    /// children are kept as they are, whatever the new listing says.
    /// On a failed listing the node stays unpopulated and the cause is
    /// returned; the node is never left partially populated.
    pub fn populate(&mut self, listing: Result<Vec<RawEntry>, ListCause>) -> (r: Result<
        (),
        ListCause,
    >)
        requires
            old(self).wf(),
        ensures
            final(self).wf(),
            final(self).name == old(self).name,
            final(self).path == old(self).path,
            final(self).meta == old(self).meta,
            old(self).is_populated() ==> *final(self) == *old(self) && r is Ok,
            !old(self).is_populated() ==> match listing {
                Ok(l) => final(self).populated_from(l@) && r is Ok,
                Err(c) => *final(self) == *old(self) && r == Err::<(), ListCause>(c),
            },
    {
        if let Children::Populated { .. } = &self.children {
            return Ok(());
        }
        match listing {
            Err(c) => Err(c),
            Ok(l) => {
                let ghost entries = l@;
                let n = l.len();
                let (raw_dirs, raw_files) = partition_entries(l);
                proof {
                    lemma_keep_kind_partition(entries);
                    lemma_sort_ci_len(keep_kind(entries, EntryKind::Directory));
                    lemma_sort_ci_len(keep_kind(entries, EntryKind::File));
                    lemma_sort_ci_sorted(keep_kind(entries, EntryKind::Directory));
                    lemma_sort_ci_sorted(keep_kind(entries, EntryKind::File));
                }
                let sorted_dirs = sort_entries(raw_dirs);
                let sorted_files = sort_entries(raw_files);
                let dirs = build_dir_children(&self.path, sorted_dirs);
                let files = build_file_children(&self.path, sorted_files);
                self.children = Children::Populated { dirs, files };
                Ok(())
            },
        }
    }

    /// Replaces the whole child set from a fresh listing: the explicit
    /// re-listing operation, as opposed to the lazy `populate`.
    /// On a failed listing the node is left exactly as it was.
    pub fn refresh(&mut self, listing: Result<Vec<RawEntry>, ListCause>) -> (r: Result<
        (),
        ListCause,
    >)
        requires
            old(self).wf(),
        ensures
            final(self).wf(),
            final(self).name == old(self).name,
            final(self).path == old(self).path,
            final(self).meta == old(self).meta,
            match listing {
                Ok(l) => final(self).populated_from(l@) && r is Ok,
                Err(c) => *final(self) == *old(self) && r == Err::<(), ListCause>(c),
            },
    {
        match listing {
            Err(c) => Err(c),
            Ok(l) => {
                self.children = Children::Unpopulated;
                let r = self.populate(Ok(l));
                r
            },
        }
    }
}

/// Law: population is deterministic. Two nodes at the same path realized
/// from the same raw entries show identical child sequences: the same
/// names in the same order, with the same paths and metadata. Together
/// with `populate` being a no-op on a populated node, listing a directory
/// twice without an intervening `refresh` yields identical children.
pub proof fn lemma_populate_deterministic(d1: DirNode, d2: DirNode, entries: Seq<RawEntry>)
    requires
        d1.populated_from(entries),
        d2.populated_from(entries),
        d1.path@ == d2.path@,
    ensures
        d1.listing_names() == d2.listing_names(),
        d1.spec_listing_len() == d2.spec_listing_len(),
        forall|i: int|
            0 <= i < d1.spec_dirs().len() ==> (#[trigger] d1.spec_dirs()[i]).path@
                == d2.spec_dirs()[i].path@ && d1.spec_dirs()[i].meta == d2.spec_dirs()[i].meta,
        forall|i: int|
            0 <= i < d1.spec_files().len() ==> (#[trigger] d1.spec_files()[i]).path@
                == d2.spec_files()[i].path@ && d1.spec_files()[i].meta == d2.spec_files()[i].meta,
{
    let nd = d1.spec_dirs().len() as int;
    assert forall|i: int| 0 <= i < d1.listing_names().len() implies d1.listing_names()[i]
        == d2.listing_names()[i] by {
        if i < nd {
            assert(d1.listing_names()[i] == d1.spec_dirs()[i].name@);
            assert(d2.listing_names()[i] == d2.spec_dirs()[i].name@);
        } else {
            assert(d1.listing_names()[i] == d1.spec_files()[i - nd].name@);
            assert(d2.listing_names()[i] == d2.spec_files()[i - nd].name@);
        }
    }
    assert(d1.listing_names() =~= d2.listing_names());
}

/// Law: in a well-formed populated directory's listing, all directory
/// children precede all file children, and within each group the names
/// are in case-insensitive non-decreasing order.
pub proof fn lemma_listing_ordered(d: DirNode)
    requires
        d.wf(),
        d.is_populated(),
    ensures
        d.listing_names() == d.spec_dirs().map_values(|c: DirNode| c.name@) + d.spec_files(
        ).map_values(|f: FileNode| f.name@),
        forall|i: int, j: int|
            0 <= i < j < d.spec_dirs().len() ==> ci_le(
                #[trigger] d.listing_names()[i],
                #[trigger] d.listing_names()[j],
            ),
        forall|i: int, j: int|
            d.spec_dirs().len() <= i < j < d.listing_names().len() ==> ci_le(
                #[trigger] d.listing_names()[i],
                #[trigger] d.listing_names()[j],
            ),
{
    let nd = d.spec_dirs().len() as int;
    assert forall|i: int, j: int| 0 <= i < j < nd implies ci_le(
        #[trigger] d.listing_names()[i],
        #[trigger] d.listing_names()[j],
    ) by {
        assert(d.listing_names()[i] == d.spec_dirs()[i].name@);
        assert(d.listing_names()[j] == d.spec_dirs()[j].name@);
    }
    assert forall|i: int, j: int| nd <= i < j < d.listing_names().len() implies ci_le(
        #[trigger] d.listing_names()[i],
        #[trigger] d.listing_names()[j],
    ) by {
        assert(d.listing_names()[i] == d.spec_files()[i - nd].name@);
        assert(d.listing_names()[j] == d.spec_files()[j - nd].name@);
    }
}

/// Builds the realized child directories from sorted directory entries.
fn build_dir_children(path: &VPath, entries: Vec<RawEntry>) -> (r: Vec<DirNode>)
    ensures
        r@.len() == entries@.len(),
        forall|i: int|
            0 <= i < entries@.len() ==> child_dir_ok(path@, entries@[i], #[trigger] r@[i]),
{
    let ghost g = entries@;
    let mut entries = entries;
    let mut out: Vec<DirNode> = Vec::new();
    proof {
        assert(g.skip(0) =~= g);
    }
    while entries.len() > 0
        invariant
            entries@.len() <= g.len(),
            entries@ =~= g.skip(g.len() - entries@.len()),
            out@.len() == g.len() - entries@.len(),
            forall|i: int| 0 <= i < out@.len() ==> child_dir_ok(path@, g[i], #[trigger] out@[i]),
        decreases entries@.len(),
    {
        let ghost k = g.len() - entries@.len();
        let e = entries.remove(0);
        proof {
            assert(e == g[k]);
            assert(g.skip(k).remove(0) =~= g.skip(k + 1));
        }
        let name = e.name;
        let mut child_path = path.duplicate();
        child_path.push_comp(name.clone());
        out.push(DirNode { name, path: child_path, meta: e.meta, children: Children::Unpopulated });
    }
    out
}

/// Builds the realized child files from sorted file entries.
fn build_file_children(path: &VPath, entries: Vec<RawEntry>) -> (r: Vec<FileNode>)
    ensures
        r@.len() == entries@.len(),
        forall|i: int|
            0 <= i < entries@.len() ==> child_file_ok(path@, entries@[i], #[trigger] r@[i]),
{
    let ghost g = entries@;
    let mut entries = entries;
    let mut out: Vec<FileNode> = Vec::new();
    proof {
        assert(g.skip(0) =~= g);
    }
    while entries.len() > 0
        invariant
            entries@.len() <= g.len(),
            entries@ =~= g.skip(g.len() - entries@.len()),
            out@.len() == g.len() - entries@.len(),
            forall|i: int| 0 <= i < out@.len() ==> child_file_ok(path@, g[i], #[trigger] out@[i]),
        decreases entries@.len(),
    {
        let ghost k = g.len() - entries@.len();
        let e = entries.remove(0);
        proof {
            assert(e == g[k]);
            assert(g.skip(k).remove(0) =~= g.skip(k + 1));
        }
        let name = e.name;
        let mut child_path = path.duplicate();
        child_path.push_comp(name.clone());
        out.push(FileNode { name, path: child_path, meta: e.meta });
    }
    out
}

} // verus!
