//! Keeping, for each key, only the last element that carries it.
use vstd::prelude::*;

verus! {

/// Element `i` of `s` is the last one with its key.
pub open spec fn is_last_of_key<T, K>(s: Seq<T>, key: spec_fn(T) -> K, i: int) -> bool {
    forall|j: int| i < j < s.len() ==> key(#[trigger] s[j]) != key(s[i])
}

/// The elements among the first `n` of `s` that are the last of their key in all of `s`,
/// in their order in `s`.
pub open spec fn keep_last_prefix<T, K>(s: Seq<T>, key: spec_fn(T) -> K, n: int) -> Seq<T>
    decreases n,
{
    if n <= 0 {
        Seq::empty()
    } else {
        let p = keep_last_prefix(s, key, n - 1);
        if is_last_of_key(s, key, n - 1) {
            p.push(s[n - 1])
        } else {
            p
        }
    }
}

/// `s` with every element dropped that a later element shares its key with.
pub open spec fn keep_last<T, K>(s: Seq<T>, key: spec_fn(T) -> K) -> Seq<T> {
    keep_last_prefix(s, key, s.len() as int)
}

/// The positions in `s` of the elements that `keep_last_prefix` keeps.
pub open spec fn kept_positions<T, K>(s: Seq<T>, key: spec_fn(T) -> K, n: int) -> Seq<int>
    decreases n,
{
    if n <= 0 {
        Seq::empty()
    } else {
        let p = kept_positions(s, key, n - 1);
        if is_last_of_key(s, key, n - 1) {
            p.push(n - 1)
        } else {
            p
        }
    }
}

proof fn lemma_kept_positions<T, K>(s: Seq<T>, key: spec_fn(T) -> K, n: int)
    requires
        0 <= n <= s.len(),
    ensures
        keep_last_prefix(s, key, n).len() == kept_positions(s, key, n).len(),
        forall|k: int|
            0 <= k < kept_positions(s, key, n).len() ==> {
                &&& 0 <= #[trigger] kept_positions(s, key, n)[k] < n
                &&& is_last_of_key(s, key, kept_positions(s, key, n)[k])
                &&& keep_last_prefix(s, key, n)[k] == s[kept_positions(s, key, n)[k]]
            },
        forall|k1: int, k2: int|
            0 <= k1 < k2 < kept_positions(s, key, n).len() ==> #[trigger] kept_positions(
                s,
                key,
                n,
            )[k1] < #[trigger] kept_positions(s, key, n)[k2],
        forall|i: int|
            0 <= i < n && is_last_of_key(s, key, i) ==> #[trigger] kept_positions(
                s,
                key,
                n,
            ).contains(i),
    decreases n,
{
    if n > 0 {
        lemma_kept_positions(s, key, n - 1);
        let p = kept_positions(s, key, n - 1);
        let q = kept_positions(s, key, n);
        if is_last_of_key(s, key, n - 1) {
            assert(q == p.push(n - 1));
            assert forall|i: int| 0 <= i < n && is_last_of_key(s, key, i) implies #[trigger] q.contains(i) by {
                if i < n - 1 {
                    assert(p.contains(i));
                    let k = choose|k: int| 0 <= k < p.len() && p[k] == i;
                    assert(q[k] == i);
                } else {
                    assert(q[p.len() as int] == i);
                }
            }
        } else {
            assert forall|i: int| 0 <= i < n && is_last_of_key(s, key, i) implies #[trigger] q.contains(i) by {
                assert(i < n - 1);
            }
        }
    }
}

/// What the result of `keep_last` promises: its elements come from `s`; no two of them
/// share a key; every element of `s` that is the last of its key is kept; and every key
/// of `s` has such a last element.
pub proof fn lemma_keep_last<T, K>(s: Seq<T>, key: spec_fn(T) -> K)
    ensures
        forall|k: int|
            0 <= k < keep_last(s, key).len() ==> #[trigger] s.contains(keep_last(s, key)[k]),
        forall|k1: int, k2: int|
            0 <= k1 < k2 < keep_last(s, key).len() ==> key(#[trigger] keep_last(s, key)[k1])
                != key(#[trigger] keep_last(s, key)[k2]),
        forall|i: int|
            0 <= i < s.len() && is_last_of_key(s, key, i) ==> #[trigger] keep_last(
                s,
                key,
            ).contains(s[i]),
        forall|i: int|
            0 <= i < s.len() ==> exists|j: int|
                i <= j < s.len() && is_last_of_key(s, key, j) && key(s[j]) == key(
                    #[trigger] s[i],
                ),
        keep_last(s, key).len() <= s.len(),
{
    let n = s.len() as int;
    lemma_kept_positions(s, key, n);
    let r = keep_last(s, key);
    let pos = kept_positions(s, key, n);
    assert forall|k: int| 0 <= k < r.len() implies #[trigger] s.contains(r[k]) by {
        assert(0 <= pos[k] < n);
        assert(s[pos[k]] == r[k]);
    }
    assert forall|k1: int, k2: int| 0 <= k1 < k2 < r.len() implies key(#[trigger] r[k1]) != key(
        #[trigger] r[k2],
    ) by {
        assert(pos[k1] < pos[k2]);
        assert(is_last_of_key(s, key, pos[k1]));
        assert(0 <= pos[k2] < n);
        assert(key(s[pos[k2]]) != key(s[pos[k1]]));
    }
    assert forall|i: int| 0 <= i < s.len() && is_last_of_key(s, key, i) implies #[trigger] r.contains(s[i]) by {
        assert(pos.contains(i));
        let k = choose|k: int| 0 <= k < pos.len() && pos[k] == i;
        assert(r[k] == s[i]);
    }
    assert forall|i: int| 0 <= i < s.len() implies exists|j: int|
        i <= j < s.len() && is_last_of_key(s, key, j) && key(s[j]) == key(#[trigger] s[i]) by {
        lemma_last_exists(s, key, i, i);
    }
    lemma_kept_positions_len(s, key, n);
}

proof fn lemma_kept_positions_len<T, K>(s: Seq<T>, key: spec_fn(T) -> K, n: int)
    requires
        0 <= n,
    ensures
        keep_last_prefix(s, key, n).len() <= n,
    decreases n,
{
    if n > 0 {
        lemma_kept_positions_len(s, key, n - 1);
    }
}

/// From any position, walking right reaches the last element with the same key.
proof fn lemma_last_exists<T, K>(s: Seq<T>, key: spec_fn(T) -> K, i: int, from: int)
    requires
        0 <= i <= from < s.len(),
        key(s[from]) == key(s[i]),
    ensures
        exists|j: int| i <= j < s.len() && is_last_of_key(s, key, j) && key(s[j]) == key(s[i]),
    decreases s.len() - from,
{
    if is_last_of_key(s, key, from) {
    } else {
        let j = choose|j: int| from < j < s.len() && key(#[trigger] s[j]) == key(s[from]);
        lemma_last_exists(s, key, i, j);
    }
}

} // verus!
