//! Key extraction for the list operation.
//!
//! The service answers an enumeration request with a page of object
//! metadata; each entry may or may not carry a key. The verified part of
//! the list operation turns that page into the ordered sequence of keys,
//! in the service's order, silently skipping entries without key
//! metadata. It always succeeds: an empty page gives an empty sequence.

use vstd::prelude::*;
use vstd::string::*;

verus! {

/// One entry of the service's enumeration response: the key metadata of
/// an object, which the service may omit.
pub struct ObjectMeta {
    pub key: Option<String>,
}

impl View for ObjectMeta {
    type V = Option<Seq<char>>;

    open spec fn view(&self) -> Option<Seq<char>> {
        self.key.deep_view()
    }
}

/// The keys present in a page of object metadata, in the page's order,
/// entries without a key skipped.
pub open spec fn keys_of(objs: Seq<Option<Seq<char>>>) -> Seq<Seq<char>>
    decreases objs.len(),
{
    if objs.len() == 0 {
        Seq::empty()
    } else {
        keys_of(objs.drop_last()) + match objs.last() {
            Some(k) => seq![k],
            None => Seq::empty(),
        }
    }
}

/// The views of a sequence of strings.
pub open spec fn string_views(v: Seq<String>) -> Seq<Seq<char>> {
    v.map_values(|s: String| s@)
}

/// The views of a page of object metadata.
pub open spec fn object_views(v: Seq<ObjectMeta>) -> Seq<Option<Seq<char>>> {
    v.map_values(|o: ObjectMeta| o@)
}

/// Extracts the object keys from a page of the service's enumeration
/// response, in the service's order, skipping entries with no key. Total:
/// an empty page — an empty bucket — gives an empty vector, not an error.
pub fn extract_keys(objects: Vec<ObjectMeta>) -> (r: Vec<String>)
    ensures
        string_views(r@) == keys_of(object_views(objects@)),
{
    let mut r: Vec<String> = Vec::new();
    let mut i: usize = 0;
    proof {
        assert(object_views(objects@.take(0)) =~= Seq::<Option<Seq<char>>>::empty());
        assert(string_views(r@) =~= keys_of(object_views(objects@.take(0))));
    }
    while i < objects.len()
        invariant
            i <= objects@.len(),
            string_views(r@) == keys_of(object_views(objects@.take(i as int))),
        decreases objects@.len() - i,
    {
        let ghost prefix = object_views(objects@.take(i as int));
        let ghost next = object_views(objects@.take(i + 1));
        proof {
            assert(next.drop_last() =~= prefix);
            assert(next.last() == objects@[i as int]@);
        }
        match &objects[i].key {
            Some(k) => {
                let key = k.clone();
                r.push(key);
                proof {
                    assert(string_views(r@) =~= keys_of(next));
                }
            },
            None => {
                proof {
                    assert(string_views(r@) =~= keys_of(next));
                }
            },
        }
        i = i + 1;
    }
    proof {
        assert(objects@.take(objects@.len() as int) =~= objects@);
    }
    r
}

/// A bucket with zero objects lists as the empty sequence of keys; the
/// extraction itself cannot fail.
pub proof fn lemma_list_of_empty_bucket()
    ensures
        keys_of(Seq::<Option<Seq<char>>>::empty()) == Seq::<Seq<char>>::empty(),
{
}

/// A page in which every object carries a key lists as exactly one key
/// per object, in the page's order: no key is dropped, none is added, and
/// no duplicate is introduced that the page did not already hold.
pub proof fn lemma_list_all_keyed(objs: Seq<Option<Seq<char>>>)
    requires
        forall|i: int| 0 <= i < objs.len() ==> objs[i] is Some,
    ensures
        keys_of(objs).len() == objs.len(),
        forall|i: int| 0 <= i < objs.len() ==> keys_of(objs)[i] == objs[i]->0,
    decreases objs.len(),
{
    if objs.len() > 0 {
        lemma_list_all_keyed(objs.drop_last());
    }
}

} // verus!
