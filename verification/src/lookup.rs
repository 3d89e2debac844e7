//! Finding the first entry with a given name in a list of names.

use vstd::prelude::*;

verus! {

/// The position of the first name equal to `key`, if there is one.
pub open spec fn first_index(keys: Seq<Seq<char>>, key: Seq<char>) -> Option<int>
    decreases keys.len(),
{
    if keys.len() == 0 {
        None
    } else if keys[0] == key {
        Some(0)
    } else {
        match first_index(keys.subrange(1, keys.len() as int), key) {
            Some(i) => Some(i + 1),
            None => None,
        }
    }
}

/// Whether some name equals `key`.
pub open spec fn has_key(keys: Seq<Seq<char>>, key: Seq<char>) -> bool {
    exists|i: int| 0 <= i < keys.len() && keys[i] == key
}

/// Whether no name occurs twice.
pub open spec fn all_distinct(keys: Seq<Seq<char>>) -> bool {
    forall|i: int, j: int| 0 <= i < j < keys.len() ==> keys[i] != keys[j]
}

/// What `first_index` finds: the name at that position is `key` and no earlier
/// name is; where it finds nothing, no name is `key`.
pub proof fn lemma_first_index(keys: Seq<Seq<char>>, key: Seq<char>)
    ensures
        match first_index(keys, key) {
            Some(i) => 0 <= i < keys.len() && keys[i] == key && forall|j: int|
                0 <= j < i ==> keys[j] != key,
            None => forall|j: int| 0 <= j < keys.len() ==> keys[j] != key,
        },
        first_index(keys, key) is Some <==> has_key(keys, key),
    decreases keys.len(),
{
    if keys.len() > 0 && keys[0] != key {
        let rest = keys.subrange(1, keys.len() as int);
        lemma_first_index(rest, key);
        match first_index(rest, key) {
            Some(i) => {
                assert forall|j: int| 0 <= j < i + 1 implies keys[j] != key by {
                    if j > 0 {
                        assert(rest[j - 1] == keys[j]);
                    }
                }
                assert(keys[i + 1] == rest[i]);
            },
            None => {
                assert forall|j: int| 0 <= j < keys.len() implies keys[j] != key by {
                    if j > 0 {
                        assert(rest[j - 1] == keys[j]);
                    }
                }
            },
        }
    }
}

/// If the name at position `i` is `key` and no earlier name is, `first_index`
/// finds `i`.
pub proof fn lemma_first_index_found(keys: Seq<Seq<char>>, key: Seq<char>, i: int)
    requires
        0 <= i < keys.len(),
        keys[i] == key,
        forall|j: int| 0 <= j < i ==> keys[j] != key,
    ensures
        first_index(keys, key) == Some(i),
{
    lemma_first_index(keys, key);
}

/// If no name is `key`, `first_index` finds nothing.
pub proof fn lemma_first_index_absent(keys: Seq<Seq<char>>, key: Seq<char>)
    requires
        forall|j: int| 0 <= j < keys.len() ==> keys[j] != key,
    ensures
        first_index(keys, key) is None,
{
    lemma_first_index(keys, key);
}

} // verus!
