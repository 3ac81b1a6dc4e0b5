//! Small verified string utilities: character-wise equality and the
//! derivation of a region name from a zone name.

use vstd::prelude::*;
use vstd::string::StrSliceExecFns;
use vstd::string::StringExecFns;

verus! {

/// Character-wise equality of two string slices.
pub fn str_eq(a: &str, b: &str) -> (r: bool)
    ensures
        r == (a@ == b@),
{
    let na = a.unicode_len();
    let nb = b.unicode_len();
    if na != nb {
        return false;
    }
    let mut i: usize = 0;
    while i < na
        invariant
            na == a@.len(),
            na == b@.len(),
            i <= na,
            forall|k: int| 0 <= k < i ==> a@[k] == b@[k],
        decreases na - i,
    {
        if a.get_char(i) != b.get_char(i) {
            return false;
        }
        i += 1;
    }
    proof {
        assert(a@ =~= b@);
    }
    true
}

/// How many hyphens a character sequence holds.
pub open spec fn hyphens_in(s: Seq<char>) -> nat
    decreases s.len(),
{
    if s.len() == 0 {
        0
    } else {
        hyphens_in(s.drop_last()) + if s.last() == '-' { 1nat } else { 0nat }
    }
}

/// Whether index `j` carries the second hyphen of `z`: a hyphen with exactly
/// one hyphen before it.
pub open spec fn second_hyphen_at(z: Seq<char>, j: int) -> bool {
    0 <= j < z.len() && z[j] == '-' && hyphens_in(z.take(j)) == 1
}

/// The region a zone name implies: the zone's first two hyphen-separated
/// tokens rejoined, that is its prefix up to (not including) the second
/// hyphen; the whole name when it holds fewer than two hyphens.
pub open spec fn region_of_zone(z: Seq<char>) -> Seq<char> {
    if exists|j: int| second_hyphen_at(z, j) {
        z.take(choose|j: int| second_hyphen_at(z, j))
    } else {
        z
    }
}

proof fn lemma_hyphens_take_succ(z: Seq<char>, i: int)
    requires
        0 <= i < z.len(),
    ensures
        hyphens_in(z.take(i + 1)) == hyphens_in(z.take(i)) + if z[i] == '-' {
            1nat
        } else {
            0nat
        },
{
    assert(z.take(i + 1).drop_last() =~= z.take(i));
    assert(z.take(i + 1).last() == z[i]);
}

proof fn lemma_hyphens_monotone(z: Seq<char>, i: int, j: int)
    requires
        0 <= i <= j <= z.len(),
    ensures
        hyphens_in(z.take(i)) <= hyphens_in(z.take(j)),
    decreases j - i,
{
    if i < j {
        lemma_hyphens_monotone(z, i, j - 1);
        lemma_hyphens_take_succ(z, j - 1);
    }
}

/// A sequence has at most one index that carries its second hyphen.
proof fn lemma_second_hyphen_unique(z: Seq<char>, j1: int, j2: int)
    requires
        second_hyphen_at(z, j1),
        second_hyphen_at(z, j2),
    ensures
        j1 == j2,
{
    if j1 < j2 {
        lemma_hyphens_take_succ(z, j1);
        lemma_hyphens_monotone(z, j1 + 1, j2);
    } else if j2 < j1 {
        lemma_hyphens_take_succ(z, j2);
        lemma_hyphens_monotone(z, j2 + 1, j1);
    }
}

/// Computes the region a zone name implies: the prefix up to the second
/// hyphen, or the whole name when there are fewer than two hyphens.
pub fn region_of_zone_str(z: &str) -> (r: String)
    ensures
        r@ == region_of_zone(z@),
{
    let n = z.unicode_len();
    let mut i: usize = 0;
    let mut seen_one: bool = false;
    while i < n
        invariant
            n == z@.len(),
            i <= n,
            seen_one <==> hyphens_in(z@.take(i as int)) == 1,
            !seen_one ==> hyphens_in(z@.take(i as int)) == 0,
            forall|k: int| 0 <= k < i ==> !second_hyphen_at(z@, k),
        decreases n - i,
    {
        let c = z.get_char(i);
        if c == '-' && seen_one {
            proof {
                assert(second_hyphen_at(z@, i as int));
                let j = choose|j: int| second_hyphen_at(z@, j);
                lemma_second_hyphen_unique(z@, j, i as int);
            }
            let s = z.substring_char(0, i);
            return s.to_owned();
        }
        proof {
            lemma_hyphens_take_succ(z@, i as int);
        }
        if c == '-' {
            seen_one = true;
        }
        i += 1;
    }
    proof {
        assert forall|j: int| !second_hyphen_at(z@, j) by {
            if 0 <= j < z@.len() {
                assert(!second_hyphen_at(z@, j));
            }
        }
    }
    z.to_owned()
}

} // verus!
