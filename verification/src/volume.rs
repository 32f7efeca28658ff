//! The volume registry: building the list of storage roots.

use vstd::prelude::*;

use crate::node::DirNode;
use crate::path::{drive_label, VPath};

verus! {

/// The letter of the volume with canonical index `i` (0 is `A`, 25 is `Z`).
pub open spec fn spec_letter(i: int) -> char {
    ((65 + i) as u8) as char
}

/// The ascending letters of the present volumes among the first `n`
/// canonical volume identifiers.
pub open spec fn spec_discover(present: Seq<bool>, n: int) -> Seq<char>
    decreases n,
{
    if n <= 0 {
        Seq::empty()
    } else {
        spec_discover(present, n - 1) + if present[n - 1] {
            seq![spec_letter(n - 1)]
        } else {
            Seq::empty()
        }
    }
}

/// Builds the volume registry from the probe results for the 26 canonical
/// single-letter volume identifiers, in their fixed canonical order:
/// one unpopulated root per present volume, labelled `X:`. An absent
/// volume is silently omitted. The probing itself happens at the caller's
/// filesystem edge.
pub fn discover_from(present: &Vec<bool>) -> (r: Vec<DirNode>)
    requires
        present@.len() == 26,
    ensures
        r@.map_values(|d: DirNode| d.path@.0) == spec_discover(present@, 26),
        forall|k: int|
            0 <= k < r@.len() ==> {
                &&& (#[trigger] r@[k]).path.wf()
                &&& r@[k].children is Unpopulated
                &&& r@[k].path@.1 == Seq::<Seq<char>>::empty()
                &&& r@[k].name@ == seq![r@[k].path@.0, ':']
                &&& r@[k].meta is None
            },
{
    let mut out: Vec<DirNode> = Vec::new();
    let mut i: usize = 0;
    proof {
        assert(out@.map_values(|d: DirNode| d.path@.0) =~= spec_discover(present@, 0));
    }
    while i < 26
        invariant
            i <= 26,
            present@.len() == 26,
            out@.map_values(|d: DirNode| d.path@.0) == spec_discover(present@, i as int),
            forall|k: int|
                0 <= k < out@.len() ==> {
                    &&& (#[trigger] out@[k]).path.wf()
                    &&& out@[k].children is Unpopulated
                    &&& out@[k].path@.1 == Seq::<Seq<char>>::empty()
                    &&& out@[k].name@ == seq![out@[k].path@.0, ':']
                    &&& out@[k].meta is None
                },
        decreases 26 - i,
    {
        if present[i] {
            let letter = (65 + i as u8) as char;
            proof {
                assert(letter == spec_letter(i as int));
            }
            let name = drive_label(letter);
            let node = DirNode::unpopulated(name, VPath::root(letter), None);
            let ghost before = out@;
            out.push(node);
            proof {
                assert(out@.map_values(|d: DirNode| d.path@.0) =~= before.map_values(
                    |d: DirNode| d.path@.0,
                ).push(letter));
            }
        }
        i = i + 1;
    }
    out
}

} // verus!
