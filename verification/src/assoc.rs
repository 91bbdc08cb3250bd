//! Maps kept as lists of (key, value) pairs with distinct string keys, in the
//! order keys were first inserted.
use vstd::prelude::*;

verus! {

/// No key occurs twice.
pub open spec fn distinct_keys<W>(m: Seq<(Seq<char>, W)>) -> bool {
    forall|i: int, j: int| 0 <= i < j < m.len() ==> #[trigger] m[i].0 != #[trigger] m[j].0
}

/// `m` with `k` mapped to `w`: the value replaced where `k` is a key,
/// appended otherwise (a map insert on a list of distinct keys).
pub open spec fn alist_put<W>(m: Seq<(Seq<char>, W)>, k: Seq<char>, w: W) -> Seq<(Seq<char>, W)> {
    if exists|i: int| 0 <= i < m.len() && #[trigger] m[i].0 == k {
        let i = choose|i: int| 0 <= i < m.len() && #[trigger] m[i].0 == k;
        m.update(i, (k, w))
    } else {
        m.push((k, w))
    }
}

/// The value under `k`, if `k` is a key.
pub open spec fn alist_get<W>(m: Seq<(Seq<char>, W)>, k: Seq<char>) -> Option<W> {
    if exists|i: int| 0 <= i < m.len() && #[trigger] m[i].0 == k {
        let i = choose|i: int| 0 <= i < m.len() && #[trigger] m[i].0 == k;
        Some(m[i].1)
    } else {
        None
    }
}

pub proof fn lemma_put_distinct<W>(m: Seq<(Seq<char>, W)>, k: Seq<char>, w: W)
    requires
        distinct_keys(m),
    ensures
        distinct_keys(alist_put(m, k, w)),
        alist_put(m, k, w).len() > 0,
{
    if exists|i: int| 0 <= i < m.len() && #[trigger] m[i].0 == k {
        let i = choose|i: int| 0 <= i < m.len() && #[trigger] m[i].0 == k;
        let r = m.update(i, (k, w));
        assert forall|a: int, b: int| 0 <= a < b < r.len() implies #[trigger] r[a].0
            != #[trigger] r[b].0 by {
            if a == i {
                assert(m[b].0 != m[i].0);
            } else if b == i {
                assert(m[a].0 != m[i].0);
            } else {
                assert(m[a].0 != m[b].0);
            }
        }
    } else {
        let r = m.push((k, w));
        assert forall|a: int, b: int| 0 <= a < b < r.len() implies #[trigger] r[a].0
            != #[trigger] r[b].0 by {
            if b == m.len() {
                assert(m[a].0 != k);
            } else {
                assert(m[a].0 != m[b].0);
            }
        }
    }
}

} // verus!
