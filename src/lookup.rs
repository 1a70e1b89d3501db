//! First-match lookup by key, shared by every table of declarations.
use vstd::prelude::*;

verus! {

/// A value found in a table by its key.
pub trait Keyed<K> {
    spec fn key(&self) -> K;

    fn has_key(&self, k: &K) -> (r: bool)
        ensures
            r == (self.key() == *k);
}

/// Index of the first element of `s` whose key is `k`.
pub open spec fn first_with_key<K, T: Keyed<K>>(s: Seq<T>, k: K) -> Option<int>
    decreases s.len(),
{
    if s.len() == 0 {
        None
    } else if s.last().key() == k && first_with_key(s.drop_last(), k) is None {
        Some(s.len() - 1)
    } else {
        first_with_key(s.drop_last(), k)
    }
}

/// A found index is in bounds and holds the key.
pub proof fn lemma_first_with_key_bound<K, T: Keyed<K>>(s: Seq<T>, k: K)
    ensures
        first_with_key(s, k) matches Some(i) ==> 0 <= i < s.len() && s[i].key() == k,
    decreases s.len(),
{
    if s.len() > 0 {
        lemma_first_with_key_bound(s.drop_last(), k);
    }
}

/// A match found in a prefix is the match of the whole sequence.
proof fn lemma_first_with_key_prefix<K, T: Keyed<K>>(s: Seq<T>, k: K, n: int)
    requires
        0 < n <= s.len(),
        first_with_key(s.subrange(0, n), k) is Some,
    ensures
        first_with_key(s, k) == first_with_key(s.subrange(0, n), k),
    decreases s.len() - n,
{
    if n < s.len() {
        assert(s.subrange(0, n + 1).drop_last() =~= s.subrange(0, n));
        lemma_first_with_key_prefix(s, k, n + 1);
        assert(s.subrange(0, s.len() as int) =~= s);
    } else {
        assert(s.subrange(0, n) =~= s);
    }
}

/// Index of the first element of `v` whose key is `k`.
pub fn first_index<K, T: Keyed<K>>(v: &Vec<T>, k: &K) -> (r: Option<usize>)
    ensures
        match r {
            Some(i) => first_with_key(v@, *k) == Some(i as int) && i < v.len(),
            None => first_with_key(v@, *k) is None,
        },
{
    let mut i: usize = 0;
    while i < v.len()
        invariant
            i <= v.len(),
            first_with_key(v@.subrange(0, i as int), *k) is None,
        decreases v.len() - i,
    {
        assert(v@.subrange(0, i + 1).drop_last() =~= v@.subrange(0, i as int));
        if v[i].has_key(k) {
            proof { lemma_first_with_key_prefix(v@, *k, i as int + 1); }
            return Some(i);
        }
        i += 1;
    }
    assert(v@.subrange(0, i as int) =~= v@);
    None
}

} // verus!
