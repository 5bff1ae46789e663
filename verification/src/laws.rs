//! The vault's fundamental laws, stated over the abstract contents that
//! every backend's contract speaks of.
//!
//! Each backend's `get`, `set` and `remove` relate the store's known
//! contents before and after the call (see [`crate::secret_store`]); these
//! laws pin down what sequences of such calls observe.

use vstd::prelude::*;

verus! {

/// Law (round trip): after a successful `set(k, v)`, the contents hold `v`
/// under `k`, so a `get(k)` answered from them returns `Some(v)`.
pub proof fn lemma_set_then_get(m: Map<Seq<char>, Seq<char>>, k: Seq<char>, v: Seq<char>)
    ensures
        m.insert(k, v).contains_key(k),
        m.insert(k, v)[k] == v,
{
}

/// Law (overwrite): after `set(k, v1)` then `set(k, v2)`, a `get(k)`
/// returns `Some(v2)` and never `v1`.
pub proof fn lemma_overwrite(
    m: Map<Seq<char>, Seq<char>>,
    k: Seq<char>,
    v1: Seq<char>,
    v2: Seq<char>,
)
    ensures
        m.insert(k, v1).insert(k, v2).contains_key(k),
        m.insert(k, v1).insert(k, v2)[k] == v2,
{
}

/// Law (removal): after `set(k, v)` then `remove(k)`, the contents hold
/// nothing under `k`, so a `get(k)` answered from them returns `None`;
/// removing a key that is already absent leaves the contents unchanged,
/// matching `remove`'s success on absent keys.
pub proof fn lemma_set_then_remove(m: Map<Seq<char>, Seq<char>>, k: Seq<char>, v: Seq<char>)
    ensures
        !m.insert(k, v).remove(k).contains_key(k),
        !m.contains_key(k) ==> m.remove(k) == m,
{
    assert(!m.contains_key(k) ==> m.remove(k) =~= m);
}

/// Law (independence of distinct keys): an operation on one key neither
/// changes nor hides another key's binding, and operations on distinct
/// keys commute — so callers working on distinct keys each observe
/// exactly their own values, under any interleaving.
pub proof fn lemma_distinct_keys_independent(
    m: Map<Seq<char>, Seq<char>>,
    k1: Seq<char>,
    k2: Seq<char>,
    v1: Seq<char>,
    v2: Seq<char>,
)
    requires
        k1 != k2,
    ensures
        m.insert(k2, v2).contains_key(k1) == m.contains_key(k1),
        m.contains_key(k1) ==> m.insert(k2, v2)[k1] == m[k1],
        m.remove(k2).contains_key(k1) == m.contains_key(k1),
        m.contains_key(k1) ==> m.remove(k2)[k1] == m[k1],
        m.insert(k1, v1).insert(k2, v2) == m.insert(k2, v2).insert(k1, v1),
        m.insert(k1, v1).remove(k2) == m.remove(k2).insert(k1, v1),
        m.remove(k1).remove(k2) == m.remove(k2).remove(k1),
{
    assert(m.insert(k1, v1).insert(k2, v2) =~= m.insert(k2, v2).insert(k1, v1));
    assert(m.insert(k1, v1).remove(k2) =~= m.remove(k2).insert(k1, v1));
    assert(m.remove(k1).remove(k2) =~= m.remove(k2).remove(k1));
}

} // verus!
