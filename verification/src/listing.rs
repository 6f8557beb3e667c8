//! Ascending listings of maps keyed by identifier.
//!
//! A full scan of a table hands its entries out one after another, by
//! ascending key. `is_listing` says when a sequence of entries is such a scan
//! of a given map; `lemma_listing_unique` shows that a map has at most one.

use vstd::prelude::*;

verus! {

/// `s` lists `m`: every entry of `s` is an entry of `m`, the keys of `s`
/// ascend strictly, and every key of `m` occurs in `s`.
pub open spec fn is_listing<V>(s: Seq<(u64, V)>, m: Map<u64, V>) -> bool {
    &&& forall|i: int|
        0 <= i < s.len() ==> m.contains_key((#[trigger] s[i]).0) && m[s[i].0] == s[i].1
    &&& forall|i: int, j: int| 0 <= i < j < s.len() ==> (#[trigger] s[i]).0 < (#[trigger] s[j]).0
    &&& forall|k: u64| #[trigger]
        m.contains_key(k) ==> exists|i: int| 0 <= i < s.len() && (#[trigger] s[i]).0 == k
}

/// The number of keys of `m` below `bound`, seen through a listing `s`.
spec fn count_below<V>(s: Seq<(u64, V)>, bound: int) -> nat
    decreases s.len(),
{
    if s.len() == 0 {
        0
    } else {
        count_below(s.drop_last(), bound) + if s.last().0 < bound {
            1nat
        } else {
            0nat
        }
    }
}

/// In a listing, the entry at position `i` is preceded by exactly `i` keys.
proof fn lemma_position_counts<V>(s: Seq<(u64, V)>, m: Map<u64, V>, i: int)
    requires
        is_listing(s, m),
        0 <= i < s.len(),
    ensures
        count_below(s, s[i].0 as int) == i,
    decreases s.len(),
{
    let bound = s[i].0 as int;
    lemma_prefix_counts(s, s.len() as int, i);
    assert(s.take(s.len() as int) =~= s);
}

/// The keys below the key at position `i`, among the first `n` entries.
proof fn lemma_prefix_counts<V>(s: Seq<(u64, V)>, n: int, i: int)
    requires
        forall|a: int, b: int| 0 <= a < b < s.len() ==> (#[trigger] s[a]).0 < (#[trigger] s[b]).0,
        0 <= i < s.len(),
        0 <= n <= s.len(),
    ensures
        count_below(s.take(n), s[i].0 as int) == if n <= i {
            n
        } else {
            i
        },
    decreases n,
{
    if n > 0 {
        lemma_prefix_counts(s, n - 1, i);
        assert(s.take(n).drop_last() =~= s.take(n - 1));
        assert(s.take(n).last() == s[n - 1]);
        if n - 1 < i {
            assert(s[n - 1].0 < s[i].0);
        } else if n - 1 > i {
            assert(s[i].0 < s[n - 1].0);
        }
    }
}

/// Two listings of maps that agree count the same keys below any bound.
proof fn lemma_counts_agree<V>(s: Seq<(u64, V)>, t: Seq<(u64, V)>, m: Map<u64, V>, bound: int)
    requires
        is_listing(s, m),
        is_listing(t, m),
    ensures
        count_below(s, bound) == count_below(t, bound),
    decreases s.len() + t.len(),
{
    if s.len() == 0 {
        if t.len() > 0 {
            assert(m.contains_key(t[0].0));
        }
    } else if t.len() == 0 {
        assert(m.contains_key(s[0].0));
    } else {
        // Both listings end in the greatest key of `m`.
        let ls = s.last();
        let lt = t.last();
        assert(ls == s[s.len() - 1]);
        assert(lt == t[t.len() - 1]);
        assert(m.contains_key(ls.0));
        assert(m.contains_key(lt.0));
        let js = choose|j: int| 0 <= j < t.len() && (#[trigger] t[j]).0 == ls.0;
        let jt = choose|j: int| 0 <= j < s.len() && (#[trigger] s[j]).0 == lt.0;
        if js < t.len() - 1 {
            assert(t[js].0 < t[t.len() - 1].0);
        }
        if jt < s.len() - 1 {
            assert(s[jt].0 < s[s.len() - 1].0);
        }
        assert(ls.0 == lt.0);
        let m2 = m.remove(ls.0);
        let s2 = s.drop_last();
        let t2 = t.drop_last();
        lemma_drop_last_lists(s, m);
        lemma_drop_last_lists(t, m);
        lemma_counts_agree(s2, t2, m2, bound);
    }
}

/// Dropping the last entry of a listing lists the map without its greatest key.
proof fn lemma_drop_last_lists<V>(s: Seq<(u64, V)>, m: Map<u64, V>)
    requires
        is_listing(s, m),
        s.len() > 0,
    ensures
        is_listing(s.drop_last(), m.remove(s.last().0)),
{
    let s2 = s.drop_last();
    let last = s.last();
    let m2 = m.remove(last.0);
    assert forall|i: int| 0 <= i < s2.len() implies m2.contains_key((#[trigger] s2[i]).0)
        && m2[s2[i].0] == s2[i].1 by {
        assert(s2[i] == s[i]);
        assert(s[i].0 < s[s.len() - 1].0);
    }
    assert forall|i: int, j: int| 0 <= i < j < s2.len() implies (#[trigger] s2[i]).0 < (
    #[trigger] s2[j]).0 by {
        assert(s2[i] == s[i]);
        assert(s2[j] == s[j]);
    }
    assert forall|k: u64| #[trigger] m2.contains_key(k) implies exists|i: int|
        0 <= i < s2.len() && (#[trigger] s2[i]).0 == k by {
        assert(m.contains_key(k));
        let i = choose|i: int| 0 <= i < s.len() && (#[trigger] s[i]).0 == k;
        assert(i < s.len() - 1);
        assert(s2[i] == s[i]);
    }
}

/// Two listings of one map agree at every position of the first.
proof fn lemma_listing_agrees<V>(s: Seq<(u64, V)>, t: Seq<(u64, V)>, m: Map<u64, V>, i: int)
    requires
        is_listing(s, m),
        is_listing(t, m),
        0 <= i < s.len(),
    ensures
        i < t.len(),
        s[i] == t[i],
{
    let k = s[i].0;
    assert(m.contains_key(k));
    let j = choose|j: int| 0 <= j < t.len() && (#[trigger] t[j]).0 == k;
    lemma_position_counts(s, m, i);
    lemma_position_counts(t, m, j);
    lemma_counts_agree(s, t, m, k as int);
    assert(i == j);
    assert(m[k] == s[i].1);
    assert(m[t[j].0] == t[j].1);
}

/// A map has at most one listing: the scan of a store is determined by what
/// the store holds.
pub proof fn lemma_listing_unique<V>(s: Seq<(u64, V)>, t: Seq<(u64, V)>, m: Map<u64, V>)
    requires
        is_listing(s, m),
        is_listing(t, m),
    ensures
        s == t,
{
    if s.len() > 0 {
        lemma_listing_agrees(s, t, m, s.len() - 1);
    }
    if t.len() > 0 {
        lemma_listing_agrees(t, s, m, t.len() - 1);
    }
    assert forall|i: int| 0 <= i < s.len() implies s[i] == t[i] by {
        lemma_listing_agrees(s, t, m, i);
    }
    assert(s =~= t);
}

} // verus!
