//! Sorting and partitioning of raw directory entries.
//!
//! A listing is realized directories-first, then files, each group in
//! case-insensitive non-decreasing name order. The order is deterministic,
//! so realized listings are reproducible.

use vstd::prelude::*;
use vstd::multiset::Multiset;

use crate::entry::{EntryKind, RawEntry};
use crate::order::{ci_le, lemma_ci_le_total, lemma_ci_le_trans, name_ci_le};

verus! {

/// Insertion of one entry into a name-sorted sequence of entries.
pub open spec fn insert_ci(e: RawEntry, s: Seq<RawEntry>) -> Seq<RawEntry>
    decreases s.len(),
{
    if s.len() == 0 {
        seq![e]
    } else if ci_le(e.name@, s[0].name@) {
        seq![e] + s
    } else {
        seq![s[0]] + insert_ci(e, s.drop_first())
    }
}

/// Insertion sort of entries by case-insensitive name order.
pub open spec fn sort_ci(s: Seq<RawEntry>) -> Seq<RawEntry>
    decreases s.len(),
{
    if s.len() == 0 {
        Seq::empty()
    } else {
        insert_ci(s.last(), sort_ci(s.drop_last()))
    }
}

/// The entries of `s` whose kind is `k`, in their original relative order.
pub open spec fn keep_kind(s: Seq<RawEntry>, k: EntryKind) -> Seq<RawEntry>
    decreases s.len(),
{
    if s.len() == 0 {
        Seq::empty()
    } else if s.last().kind == k {
        keep_kind(s.drop_last(), k).push(s.last())
    } else {
        keep_kind(s.drop_last(), k)
    }
}

/// `insert_ci`'s result is one entry longer than its input.
pub proof fn lemma_insert_ci_len(x: RawEntry, s: Seq<RawEntry>)
    ensures
        insert_ci(x, s).len() == s.len() + 1,
    decreases s.len(),
{
    if s.len() > 0 && !ci_le(x.name@, s[0].name@) {
        lemma_insert_ci_len(x, s.drop_first());
    }
}

/// Sorting keeps the number of entries.
pub proof fn lemma_sort_ci_len(s: Seq<RawEntry>)
    ensures
        sort_ci(s).len() == s.len(),
    decreases s.len(),
{
    if s.len() > 0 {
        lemma_sort_ci_len(s.drop_last());
        lemma_insert_ci_len(s.last(), sort_ci(s.drop_last()));
    }
}

/// A sequence of entries in case-insensitive non-decreasing name order.
pub open spec fn ci_sorted(s: Seq<RawEntry>) -> bool {
    forall|i: int, j: int| 0 <= i < j < s.len() ==> ci_le(s[i].name@, s[j].name@)
}

/// Appending one entry extends the kept-kind subsequence by at most that entry.
pub proof fn lemma_keep_kind_push(s: Seq<RawEntry>, x: RawEntry, k: EntryKind)
    ensures
        keep_kind(s.push(x), k) =~= if x.kind == k {
            keep_kind(s, k).push(x)
        } else {
            keep_kind(s, k)
        },
{
    assert(s.push(x).drop_last() =~= s);
    assert(s.push(x).last() == x);
}

/// Each entry has one of the two kinds, so the two groups partition `s`.
pub proof fn lemma_keep_kind_partition(s: Seq<RawEntry>)
    ensures
        keep_kind(s, EntryKind::Directory).len() + keep_kind(s, EntryKind::File).len() == s.len(),
    decreases s.len(),
{
    if s.len() > 0 {
        lemma_keep_kind_partition(s.drop_last());
    }
}

/// `insert_ci` keeps every lower bound on the names of `s` and of `x`.
proof fn lemma_insert_ci_lower(x: RawEntry, s: Seq<RawEntry>, b: Seq<char>)
    requires
        ci_le(b, x.name@),
        forall|k: int| 0 <= k < s.len() ==> ci_le(b, #[trigger] s[k].name@),
    ensures
        forall|i: int|
            0 <= i < insert_ci(x, s).len() ==> ci_le(b, #[trigger] insert_ci(x, s)[i].name@),
    decreases s.len(),
{
    if s.len() == 0 {
    } else if ci_le(x.name@, s[0].name@) {
    } else {
        assert(forall|k: int|
            0 <= k < s.drop_first().len() ==> ci_le(b, #[trigger] s.drop_first()[k].name@));
        lemma_insert_ci_lower(x, s.drop_first(), b);
    }
}

/// Inserting into a sorted sequence keeps it sorted.
proof fn lemma_insert_ci_sorted(x: RawEntry, s: Seq<RawEntry>)
    requires
        ci_sorted(s),
    ensures
        ci_sorted(insert_ci(x, s)),
    decreases s.len(),
{
    if s.len() == 0 {
    } else if ci_le(x.name@, s[0].name@) {
        let r = seq![x] + s;
        assert forall|i: int, j: int| 0 <= i < j < r.len() implies ci_le(r[i].name@, r[j].name@) by {
            if i == 0 {
                if j > 1 {
                    lemma_ci_le_trans(x.name@, s[0].name@, s[j - 1].name@);
                }
            }
        }
    } else {
        lemma_ci_le_total(x.name@, s[0].name@);
        assert(ci_le(s[0].name@, x.name@));
        assert(ci_sorted(s.drop_first()));
        lemma_insert_ci_sorted(x, s.drop_first());
        assert(forall|k: int|
            0 <= k < s.drop_first().len() ==> ci_le(s[0].name@, #[trigger] s.drop_first()[k].name@));
        lemma_insert_ci_lower(x, s.drop_first(), s[0].name@);
        let r = seq![s[0]] + insert_ci(x, s.drop_first());
        assert forall|i: int, j: int| 0 <= i < j < r.len() implies ci_le(r[i].name@, r[j].name@) by {
            if i > 0 {
                assert(r[i] == insert_ci(x, s.drop_first())[i - 1]);
                assert(r[j] == insert_ci(x, s.drop_first())[j - 1]);
            }
        }
    }
}

/// The sort's result is in case-insensitive non-decreasing name order.
pub proof fn lemma_sort_ci_sorted(s: Seq<RawEntry>)
    ensures
        ci_sorted(sort_ci(s)),
    decreases s.len(),
{
    if s.len() > 0 {
        lemma_sort_ci_sorted(s.drop_last());
        lemma_insert_ci_sorted(s.last(), sort_ci(s.drop_last()));
    }
}

/// The sort permutes its input: same entries, same multiplicities.
pub proof fn lemma_insert_ci_multiset(x: RawEntry, s: Seq<RawEntry>)
    ensures
        insert_ci(x, s).to_multiset() =~= s.to_multiset().insert(x),
    decreases s.len(),
{
    broadcast use vstd::seq_lib::group_to_multiset_ensures;

    if s.len() == 0 {
        assert(seq![x] =~= Seq::<RawEntry>::empty().push(x));
    } else if ci_le(x.name@, s[0].name@) {
        vstd::seq_lib::lemma_multiset_commutative(seq![x], s);
        assert(seq![x].to_multiset() =~= Multiset::<RawEntry>::empty().insert(x)) by {
            assert(seq![x] =~= Seq::<RawEntry>::empty().push(x));
        }
    } else {
        lemma_insert_ci_multiset(x, s.drop_first());
        vstd::seq_lib::lemma_multiset_commutative(seq![s[0]], insert_ci(x, s.drop_first()));
        vstd::seq_lib::lemma_multiset_commutative(seq![s[0]], s.drop_first());
        assert(seq![s[0]] + s.drop_first() =~= s);
        assert(seq![s[0]].to_multiset() =~= Multiset::<RawEntry>::empty().insert(s[0])) by {
            assert(seq![s[0]] =~= Seq::<RawEntry>::empty().push(s[0]));
        }
    }
}

/// The sorted sequence holds exactly the input entries.
pub proof fn lemma_sort_ci_multiset(s: Seq<RawEntry>)
    ensures
        sort_ci(s).to_multiset() =~= s.to_multiset(),
    decreases s.len(),
{
    broadcast use vstd::seq_lib::group_to_multiset_ensures;

    if s.len() > 0 {
        lemma_sort_ci_multiset(s.drop_last());
        lemma_insert_ci_multiset(s.last(), sort_ci(s.drop_last()));
        assert(s.drop_last().push(s.last()) =~= s);
    }
}

/// Where the scan stops is exactly where `insert_ci` places the entry.
proof fn lemma_insert_ci_at(x: RawEntry, s: Seq<RawEntry>, j: int)
    requires
        0 <= j <= s.len(),
        forall|k: int| 0 <= k < j ==> !ci_le(x.name@, #[trigger] s[k].name@),
        j < s.len() ==> ci_le(x.name@, s[j].name@),
    ensures
        insert_ci(x, s) =~= s.insert(j, x),
    decreases s.len(),
{
    if s.len() == 0 {
    } else if j == 0 {
        assert(ci_le(x.name@, s[0].name@));
    } else {
        assert(!ci_le(x.name@, s[0].name@));
        assert(forall|k: int|
            0 <= k < j - 1 ==> !ci_le(x.name@, #[trigger] s.drop_first()[k].name@));
        lemma_insert_ci_at(x, s.drop_first(), j - 1);
        assert(seq![s[0]] + s.drop_first().insert(j - 1, x) =~= s.insert(j, x));
    }
}

/// Finds the position where `e` belongs in the name-sorted vector `v`.
fn lower_bound(v: &Vec<RawEntry>, e: &RawEntry) -> (j: usize)
    ensures
        j <= v@.len(),
        forall|k: int| 0 <= k < j ==> !ci_le(e.name@, #[trigger] v@[k].name@),
        j < v@.len() ==> ci_le(e.name@, v@[j as int].name@),
{
    let mut j: usize = 0;
    loop
        invariant
            j <= v@.len(),
            forall|k: int| 0 <= k < j ==> !ci_le(e.name@, #[trigger] v@[k].name@),
        decreases v@.len() - j,
    {
        if j >= v.len() {
            return j;
        }
        if name_ci_le(e.name.as_str(), v[j].name.as_str()) {
            return j;
        }
        j = j + 1;
    }
}

/// Inserts `e` into the name-sorted vector `v`, keeping it sorted.
fn insert_sorted(v: &mut Vec<RawEntry>, e: RawEntry)
    ensures
        final(v)@ == insert_ci(e, old(v)@),
{
    let j = lower_bound(v, &e);
    proof {
        lemma_insert_ci_at(e, v@, j as int);
    }
    v.insert(j, e);
}

/// Sorts the entries by case-insensitive name order, consuming the input.
pub fn sort_entries(v: Vec<RawEntry>) -> (r: Vec<RawEntry>)
    ensures
        r@ == sort_ci(v@),
{
    let ghost g = v@;
    let mut v = v;
    let mut out: Vec<RawEntry> = Vec::new();
    proof {
        assert(g.skip(0) =~= g);
        assert(g.take(0) =~= Seq::<RawEntry>::empty());
    }
    while v.len() > 0
        invariant
            v@.len() <= g.len(),
            v@ =~= g.skip(g.len() - v@.len()),
            out@ == sort_ci(g.take(g.len() - v@.len())),
        decreases v@.len(),
    {
        let ghost k = g.len() - v@.len();
        let e = v.remove(0);
        proof {
            assert(e == g[k]);
            assert(g.skip(k).remove(0) =~= g.skip(k + 1));
            assert(g.take(k + 1).drop_last() =~= g.take(k));
            assert(g.take(k + 1).last() == g[k]);
        }
        insert_sorted(&mut out, e);
    }
    proof {
        assert(g.take(g.len() as int) =~= g);
    }
    out
}

/// Splits the entries into directories and files, keeping each group's
/// original relative order, consuming the input.
pub fn partition_entries(v: Vec<RawEntry>) -> (r: (Vec<RawEntry>, Vec<RawEntry>))
    ensures
        r.0@ == keep_kind(v@, EntryKind::Directory),
        r.1@ == keep_kind(v@, EntryKind::File),
{
    let ghost g = v@;
    let mut v = v;
    let mut dirs: Vec<RawEntry> = Vec::new();
    let mut files: Vec<RawEntry> = Vec::new();
    proof {
        assert(g.skip(0) =~= g);
        assert(g.take(0) =~= Seq::<RawEntry>::empty());
    }
    while v.len() > 0
        invariant
            v@.len() <= g.len(),
            v@ =~= g.skip(g.len() - v@.len()),
            dirs@ == keep_kind(g.take(g.len() - v@.len()), EntryKind::Directory),
            files@ == keep_kind(g.take(g.len() - v@.len()), EntryKind::File),
        decreases v@.len(),
    {
        let ghost k = g.len() - v@.len();
        let e = v.remove(0);
        proof {
            assert(e == g[k]);
            assert(g.skip(k).remove(0) =~= g.skip(k + 1));
            assert(g.take(k + 1) =~= g.take(k).push(g[k]));
            lemma_keep_kind_push(g.take(k), g[k], EntryKind::Directory);
            lemma_keep_kind_push(g.take(k), g[k], EntryKind::File);
        }
        match e.kind {
            EntryKind::Directory => dirs.push(e),
            EntryKind::File => files.push(e),
        }
    }
    proof {
        assert(g.take(g.len() as int) =~= g);
    }
    (dirs, files)
}

} // verus!
