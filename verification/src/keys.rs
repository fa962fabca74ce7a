//! Encryption keys, as a listing of them gives them.

use vstd::prelude::*;

verus! {

/// The identifiers in a listing of keys, in the order of the listing.
pub open spec fn key_ids(keys: Seq<Option<String>>) -> Seq<Seq<char>> {
    Seq::new(keys.len(), |i: int| keys[i]->0@)
}

/// The identifiers of a list of texts.
pub open spec fn texts(ids: Seq<String>) -> Seq<Seq<char>> {
    Seq::new(ids.len(), |i: int| ids[i]@)
}

/// Gathers the identifiers of the keys that exist, for a hint to a caller
/// who named a key that does not: one identifier per key of the listing,
/// in the same order. Every key of the listing must have an identifier.
pub fn existing_key_ids(keys: &Vec<Option<String>>) -> (ids: Vec<String>)
    requires
        forall|i: int| 0 <= i < keys@.len() ==> (#[trigger] keys@[i]) is Some,
    ensures
        texts(ids@) == key_ids(keys@),
{
    let mut ids: Vec<String> = Vec::new();
    let mut i: usize = 0;
    while i < keys.len()
        invariant
            i <= keys.len(),
            forall|j: int| 0 <= j < keys@.len() ==> (#[trigger] keys@[j]) is Some,
            ids@.len() == i,
            forall|j: int| 0 <= j < i ==> (#[trigger] ids@[j])@ == keys@[j]->0@,
        decreases keys.len() - i,
    {
        match &keys[i] {
            Some(id) => {
                ids.push(id.clone());
            },
            None => {},
        }
        i = i + 1;
    }
    assert(texts(ids@) =~= key_ids(keys@));
    ids
}

} // verus!
