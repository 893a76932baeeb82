//! The order in which an ordered map of (month, day) pairs hands out its keys.

use vstd::prelude::*;
use vstd::std_specs::btree::{axiom_increasing_seq_meaning, increasing_seq};
use vstd::std_specs::cmp::OrdSpec;

verus! {

broadcast use vstd::laws_cmp::group_laws_cmp;

/// The order of pairs: by the first number, then by the second.
pub open spec fn pair_before(a: (u8, u8), b: (u8, u8)) -> bool {
    a.0 < b.0 || (a.0 == b.0 && a.1 < b.1)
}

proof fn lemma_increasing<K: Ord>(s: Seq<K>, i: int, j: int)
    requires
        vstd::laws_cmp::obeys_cmp::<K>(),
        increasing_seq(s),
        0 <= i < j < s.len(),
    ensures
        s[i].cmp_spec(&s[j]) is Less,
{
    axiom_increasing_seq_meaning(s);
}

/// In an increasing sequence of pairs, an earlier pair is before a later one.
pub proof fn lemma_keys_ascend(s: Seq<&(u8, u8)>, i: int, j: int)
    requires
        increasing_seq(s),
        0 <= i < j < s.len(),
    ensures
        pair_before(*s[i], *s[j]),
{
    lemma_increasing::<&(u8, u8)>(s, i, j);
}

} // verus!
