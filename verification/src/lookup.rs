//! Looking a string key up in a sequence of keys: the index of the first
//! match, and what it means for a key to be present.

use vstd::prelude::*;

verus! {

/// Whether `key` occurs in `keys`.
pub open spec fn has_key(keys: Seq<Seq<char>>, key: Seq<char>) -> bool {
    exists|i: int| 0 <= i < keys.len() && keys[i] == key
}

/// The index of the first occurrence of `key` in `keys`, or `-1` when the
/// key is absent.
pub open spec fn index_of_key(keys: Seq<Seq<char>>, key: Seq<char>) -> int
    decreases keys.len(),
{
    if keys.len() == 0 {
        -1
    } else if keys[0] == key {
        0
    } else {
        let rest = index_of_key(keys.subrange(1, keys.len() as int), key);
        if rest < 0 {
            -1
        } else {
            rest + 1
        }
    }
}

/// What `index_of_key` yields: `-1` exactly when the key is absent, and
/// otherwise the position of the first occurrence.
pub proof fn lemma_index_of_key(keys: Seq<Seq<char>>, key: Seq<char>)
    ensures
        (index_of_key(keys, key) == -1) <==> !has_key(keys, key),
        index_of_key(keys, key) != -1 ==> {
            &&& 0 <= index_of_key(keys, key) < keys.len()
            &&& keys[index_of_key(keys, key)] == key
            &&& forall|j: int| 0 <= j < index_of_key(keys, key) ==> keys[j] != key
        },
    decreases keys.len(),
{
    if keys.len() == 0 {
        assert(!has_key(keys, key));
    } else if keys[0] == key {
        assert(has_key(keys, key));
    } else {
        let rest = keys.subrange(1, keys.len() as int);
        lemma_index_of_key(rest, key);
        if index_of_key(rest, key) == -1 {
            assert forall|i: int| 0 <= i < keys.len() implies keys[i] != key by {
                if i > 0 {
                    assert(rest[i - 1] == keys[i]);
                }
            }
        } else {
            let ri = index_of_key(rest, key);
            assert(keys[ri + 1] == rest[ri]);
            assert(has_key(keys, key));
            assert forall|j: int| 0 <= j < ri + 1 implies keys[j] != key by {
                if j > 0 {
                    assert(rest[j - 1] == keys[j]);
                }
            }
        }
    }
}

/// A position that matches, before which nothing matches, is exactly what
/// `index_of_key` yields.
pub proof fn lemma_index_of_key_at(keys: Seq<Seq<char>>, key: Seq<char>, i: int)
    requires
        0 <= i < keys.len(),
        keys[i] == key,
        forall|j: int| 0 <= j < i ==> keys[j] != key,
    ensures
        index_of_key(keys, key) == i,
{
    lemma_index_of_key(keys, key);
    assert(has_key(keys, key));
    let found = index_of_key(keys, key);
    if found < i {
        assert(keys[found] != key);
    }
    if found > i {
        assert(keys[i] != key);
    }
}

} // verus!
