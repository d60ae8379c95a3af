//! Lists of entries looked up by a string key: the library's maps. A lookup
//! finds the first entry with the key.
use vstd::prelude::*;

verus! {

/// The position of the first key equal to `k`, or `keys.len()` when there is none.
pub open spec fn key_index(keys: Seq<Seq<char>>, k: Seq<char>) -> int
    decreases keys.len(),
{
    if keys.len() == 0 {
        0
    } else if keys[0] == k {
        0
    } else {
        1 + key_index(keys.drop_first(), k)
    }
}

pub open spec fn has_key(keys: Seq<Seq<char>>, k: Seq<char>) -> bool {
    exists|i: int| 0 <= i < keys.len() && keys[i] == k
}

/// No key occurs twice.
pub open spec fn keys_distinct(keys: Seq<Seq<char>>) -> bool {
    forall|i: int, j: int| 0 <= i < keys.len() && 0 <= j < keys.len() && i != j ==> keys[i] != keys[j]
}

/// The keys of a list of entries with `String` keys.
pub open spec fn entry_keys<V>(entries: Seq<(String, V)>) -> Seq<Seq<char>> {
    entries.map_values(|e: (String, V)| e.0@)
}

/// The value of the first entry with key `k`.
pub open spec fn lookup<V>(entries: Seq<(String, V)>, k: Seq<char>) -> Option<V> {
    let i = key_index(entry_keys(entries), k);
    if i < entries.len() {
        Some(entries[i].1)
    } else {
        None
    }
}

pub proof fn lemma_key_index(keys: Seq<Seq<char>>, k: Seq<char>)
    ensures
        0 <= key_index(keys, k) <= keys.len(),
        forall|j: int| 0 <= j < key_index(keys, k) ==> keys[j] != k,
        key_index(keys, k) < keys.len() ==> keys[key_index(keys, k)] == k,
        (key_index(keys, k) < keys.len()) == has_key(keys, k),
    decreases keys.len(),
{
    if keys.len() > 0 && keys[0] != k {
        lemma_key_index(keys.drop_first(), k);
        assert forall|j: int| 0 <= j < key_index(keys, k) implies keys[j] != k by {
            if j > 0 {
                assert(keys[j] == keys.drop_first()[j - 1]);
            }
        }
        if has_key(keys, k) {
            let w = choose|i: int| 0 <= i < keys.len() && keys[i] == k;
            assert(keys.drop_first()[w - 1] == k);
        }
    }
}

/// Any position before which `k` does not occur, and at which it occurs or
/// the keys end, is the first position of `k`.
pub proof fn lemma_key_index_unique(keys: Seq<Seq<char>>, k: Seq<char>, i: int)
    requires
        0 <= i <= keys.len(),
        forall|j: int| 0 <= j < i ==> keys[j] != k,
        i < keys.len() ==> keys[i] == k,
    ensures
        key_index(keys, k) == i,
{
    lemma_key_index(keys, k);
    let f = key_index(keys, k);
    if f < i {
        assert(keys[f] == k);
    } else if i < f {
        assert(keys[i] != k);
    }
}

/// The position of the first element on which `bad` holds, or `s.len()` when there is none.
pub open spec fn first_index_where<A>(s: Seq<A>, bad: spec_fn(A) -> bool) -> int
    decreases s.len(),
{
    if s.len() == 0 {
        0
    } else if bad(s[0]) {
        0
    } else {
        1 + first_index_where(s.drop_first(), bad)
    }
}

pub proof fn lemma_first_index_where<A>(s: Seq<A>, bad: spec_fn(A) -> bool)
    ensures
        0 <= first_index_where(s, bad) <= s.len(),
        forall|j: int| 0 <= j < first_index_where(s, bad) ==> !bad(s[j]),
        first_index_where(s, bad) < s.len() ==> bad(s[first_index_where(s, bad)]),
    decreases s.len(),
{
    if s.len() > 0 && !bad(s[0]) {
        lemma_first_index_where(s.drop_first(), bad);
        assert forall|j: int| 0 <= j < first_index_where(s, bad) implies !bad(s[j]) by {
            if j > 0 {
                assert(s[j] == s.drop_first()[j - 1]);
            }
        }
    }
}

/// Any position before which `bad` never holds, and at which it holds or the
/// sequence ends, is the first position where `bad` holds.
pub proof fn lemma_first_index_where_unique<A>(s: Seq<A>, bad: spec_fn(A) -> bool, i: int)
    requires
        0 <= i <= s.len(),
        forall|j: int| 0 <= j < i ==> !bad(s[j]),
        i < s.len() ==> bad(s[i]),
    ensures
        first_index_where(s, bad) == i,
{
    lemma_first_index_where(s, bad);
    let f = first_index_where(s, bad);
    if f < i {
        assert(!bad(s[f]));
    } else if i < f {
        assert(!bad(s[i]));
    }
}

/// The elements on which `keep` holds, in order.
pub open spec fn keep_where<A>(s: Seq<A>, keep: spec_fn(A) -> bool) -> Seq<A>
    decreases s.len(),
{
    if s.len() == 0 {
        Seq::empty()
    } else {
        let r = keep_where(s.drop_last(), keep);
        if keep(s.last()) {
            r.push(s.last())
        } else {
            r
        }
    }
}

/// One more element considered: `keep_where` of a prefix one longer.
/// Nothing kept means that no element passes the test.
pub proof fn lemma_keep_where_none<A>(s: Seq<A>, keep: spec_fn(A) -> bool)
    requires
        keep_where(s, keep).len() == 0,
    ensures
        forall|i: int| 0 <= i < s.len() ==> !keep(#[trigger] s[i]),
    decreases s.len(),
{
    if s.len() > 0 {
        lemma_keep_where_none(s.drop_last(), keep);
        assert forall|i: int| 0 <= i < s.len() implies !keep(#[trigger] s[i]) by {
            if i < s.len() - 1 {
                assert(s[i] == s.drop_last()[i]);
            }
        }
    }
}

pub proof fn lemma_keep_where_step<A>(s: Seq<A>, keep: spec_fn(A) -> bool, i: int)
    requires
        0 <= i < s.len(),
    ensures
        keep_where(s.take(i + 1), keep) == (if keep(s[i]) {
            keep_where(s.take(i), keep).push(s[i])
        } else {
            keep_where(s.take(i), keep)
        }),
{
    assert(s.take(i + 1).drop_last() =~= s.take(i));
}

/// Finds the first entry whose key is `key`.
pub fn find_key<V>(entries: &Vec<(String, V)>, key: &str) -> (r: Option<usize>)
    ensures
        ({
            let i = key_index(entry_keys(entries@), key@);
            match r {
                Some(p) => p == i && i < entries@.len(),
                None => i == entries@.len(),
            }
        }),
{
    let target = String::from_str(key);
    let n = entries.len();
    let ghost keys = entry_keys(entries@);
    let mut i: usize = 0;
    while i < n
        invariant
            n == entries@.len(),
            keys == entry_keys(entries@),
            keys.len() == n,
            target@ == key@,
            0 <= i <= n,
            forall|j: int| 0 <= j < i ==> keys[j] != key@,
        decreases n - i,
    {
        if entries[i].0 == target {
            proof {
                assert(keys[i as int] == key@);
                lemma_key_index_unique(keys, key@, i as int);
            }
            return Some(i);
        }
        assert(keys[i as int] != key@);
        i = i + 1;
    }
    proof {
        lemma_key_index_unique(keys, key@, i as int);
    }
    None
}

} // verus!
