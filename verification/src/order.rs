//! Case-insensitive name ordering used for directory listings.

use vstd::prelude::*;

verus! {

/// Code of a character with ASCII upper-case letters folded to lower case.
pub open spec fn fold_code(c: char) -> int {
    if 65 <= c as int && c as int <= 90 {
        c as int + 32
    } else {
        c as int
    }
}

/// Case-insensitive lexicographic "less or equal" on names.
pub open spec fn ci_le(a: Seq<char>, b: Seq<char>) -> bool
    decreases a.len(),
{
    if a.len() == 0 {
        true
    } else if b.len() == 0 {
        false
    } else if fold_code(a[0]) < fold_code(b[0]) {
        true
    } else if fold_code(a[0]) > fold_code(b[0]) {
        false
    } else {
        ci_le(a.drop_first(), b.drop_first())
    }
}

/// Folds one character's code as `fold_code` describes.
fn fold_code_x(c: char) -> (r: u32)
    ensures
        r as int == fold_code(c),
{
    let u = c as u32;
    if 65 <= u && u <= 90 {
        u + 32
    } else {
        u
    }
}

/// Any two names are comparable under `ci_le`.
pub proof fn lemma_ci_le_total(a: Seq<char>, b: Seq<char>)
    ensures
        ci_le(a, b) || ci_le(b, a),
    decreases a.len(),
{
    if a.len() > 0 && b.len() > 0 && fold_code(a[0]) == fold_code(b[0]) {
        lemma_ci_le_total(a.drop_first(), b.drop_first());
    }
}

/// `ci_le` is transitive.
pub proof fn lemma_ci_le_trans(a: Seq<char>, b: Seq<char>, c: Seq<char>)
    requires
        ci_le(a, b),
        ci_le(b, c),
    ensures
        ci_le(a, c),
    decreases a.len(),
{
    if a.len() > 0 && b.len() > 0 && c.len() > 0 && fold_code(a[0]) == fold_code(b[0])
        && fold_code(b[0]) == fold_code(c[0]) {
        lemma_ci_le_trans(a.drop_first(), b.drop_first(), c.drop_first());
    }
}

/// Decides `ci_le` on two names.
pub fn name_ci_le(a: &str, b: &str) -> (r: bool)
    ensures
        r == ci_le(a@, b@),
{
    let alen = a.unicode_len();
    let blen = b.unicode_len();
    let mut i: usize = 0;
    proof {
        assert(a@.skip(0) =~= a@);
        assert(b@.skip(0) =~= b@);
    }
    loop
        invariant
            i <= alen,
            i <= blen,
            alen == a@.len(),
            blen == b@.len(),
            ci_le(a@, b@) == ci_le(a@.skip(i as int), b@.skip(i as int)),
        decreases alen - i,
    {
        if i >= alen {
            return true;
        }
        if i >= blen {
            return false;
        }
        let fa = fold_code_x(a.get_char(i));
        let fb = fold_code_x(b.get_char(i));
        if fa < fb {
            return true;
        }
        if fa > fb {
            return false;
        }
        proof {
            assert(a@.skip(i as int).drop_first() =~= a@.skip(i as int + 1));
            assert(b@.skip(i as int).drop_first() =~= b@.skip(i as int + 1));
        }
        i = i + 1;
    }
}

} // verus!
