//! An in-memory model of the remote object store.
//!
//! The remote service is an external collaborator: the library cannot
//! verify it, but it can verify the three operations against a faithful
//! in-memory stand-in — a bucket holding objects in insertion order, each
//! an opaque byte blob under a unique key with a content type, together
//! with a counter of the service calls made. Tests exercise the
//! operations against this model; the spec functions here also give the
//! vocabulary in which the operations' contracts speak.

use vstd::prelude::*;
use vstd::string::*;
use vstd::pervasive::VecAdditionalExecFns;
use crate::listing::string_views;

verus! {

/// The mathematical view of one stored object: key, content type, body.
pub type ObjectView = (Seq<char>, Seq<char>, Seq<u8>);

/// One object held by the model store.
pub struct StoredObject {
    pub key: String,
    pub content_type: String,
    pub body: Vec<u8>,
}

impl View for StoredObject {
    type V = ObjectView;

    open spec fn view(&self) -> ObjectView {
        (self.key@, self.content_type@, self.body@)
    }
}

/// The keys of a store's objects, in the store's order.
pub open spec fn store_keys(s: Seq<ObjectView>) -> Seq<Seq<char>> {
    s.map_values(|o: ObjectView| o.0)
}

/// The content type and body stored under a key, if any: the first object
/// whose key matches.
pub open spec fn store_lookup(s: Seq<ObjectView>, key: Seq<char>) -> Option<(Seq<char>, Seq<u8>)>
    decreases s.len(),
{
    if s.len() == 0 {
        None
    } else if s.first().0 == key {
        Some((s.first().1, s.first().2))
    } else {
        store_lookup(s.drop_first(), key)
    }
}

/// The store after putting a body under a key: the first object with that
/// key is replaced in place, or a new object is appended when the key is
/// new.
pub open spec fn store_put(
    s: Seq<ObjectView>,
    key: Seq<char>,
    content_type: Seq<char>,
    body: Seq<u8>,
) -> Seq<ObjectView>
    decreases s.len(),
{
    if s.len() == 0 {
        seq![(key, content_type, body)]
    } else if s.first().0 == key {
        seq![(key, content_type, body)] + s.drop_first()
    } else {
        seq![s.first()] + store_put(s.drop_first(), key, content_type, body)
    }
}

/// When the first match for a key stands at index `i`, the lookup returns
/// exactly that object's content type and body.
proof fn lemma_store_lookup_found(s: Seq<ObjectView>, key: Seq<char>, i: int)
    requires
        0 <= i < s.len(),
        s[i].0 == key,
        forall|j: int| 0 <= j < i ==> s[j].0 != key,
    ensures
        store_lookup(s, key) == Some((s[i].1, s[i].2)),
    decreases s.len(),
{
    if i > 0 {
        lemma_store_lookup_found(s.drop_first(), key, i - 1);
    }
}

/// A key no object carries looks up to nothing.
proof fn lemma_store_lookup_absent(s: Seq<ObjectView>, key: Seq<char>)
    requires
        forall|j: int| 0 <= j < s.len() ==> s[j].0 != key,
    ensures
        store_lookup(s, key) is None,
    decreases s.len(),
{
    if s.len() > 0 {
        lemma_store_lookup_absent(s.drop_first(), key);
    }
}

/// When the first match for a key stands at index `i`, putting under that
/// key replaces the object at `i` and nothing else.
proof fn lemma_store_put_found(
    s: Seq<ObjectView>,
    key: Seq<char>,
    content_type: Seq<char>,
    body: Seq<u8>,
    i: int,
)
    requires
        0 <= i < s.len(),
        s[i].0 == key,
        forall|j: int| 0 <= j < i ==> s[j].0 != key,
    ensures
        store_put(s, key, content_type, body) == s.update(i, (key, content_type, body)),
    decreases s.len(),
{
    if i == 0 {
        assert(store_put(s, key, content_type, body) =~= s.update(0, (key, content_type, body)));
    } else {
        lemma_store_put_found(s.drop_first(), key, content_type, body, i - 1);
        assert(store_put(s, key, content_type, body) =~= s.update(i, (key, content_type, body)));
    }
}

/// Putting under a key no object carries appends one object at the end.
proof fn lemma_store_put_absent(
    s: Seq<ObjectView>,
    key: Seq<char>,
    content_type: Seq<char>,
    body: Seq<u8>,
)
    requires
        forall|j: int| 0 <= j < s.len() ==> s[j].0 != key,
    ensures
        store_put(s, key, content_type, body) == s.push((key, content_type, body)),
    decreases s.len(),
{
    if s.len() == 0 {
        assert(store_put(s, key, content_type, body) =~= s.push((key, content_type, body)));
    } else {
        lemma_store_put_absent(s.drop_first(), key, content_type, body);
        assert(store_put(s, key, content_type, body) =~= s.push((key, content_type, body)));
    }
}

/// What was put under a key is exactly what a lookup of that key then
/// finds: the heart of the upload–download round trip.
pub proof fn lemma_store_put_lookup_same(
    s: Seq<ObjectView>,
    key: Seq<char>,
    content_type: Seq<char>,
    body: Seq<u8>,
)
    ensures
        store_lookup(store_put(s, key, content_type, body), key) == Some((content_type, body)),
    decreases s.len(),
{
    let t = store_put(s, key, content_type, body);
    if s.len() == 0 {
        assert(t.first() == (key, content_type, body));
    } else if s.first().0 == key {
        assert(t.first() == (key, content_type, body));
    } else {
        lemma_store_put_lookup_same(s.drop_first(), key, content_type, body);
        assert(t.first() == s.first());
        assert(t.drop_first() =~= store_put(s.drop_first(), key, content_type, body));
    }
}

/// A well-formed store answers an enumeration with one key per object and
/// no duplicates: the keys listed are pairwise distinct.
pub proof fn lemma_listing_has_no_duplicates(store: FakeStore)
    requires
        store.wf(),
    ensures
        store_keys(store.contents()).len() == store.contents().len(),
        forall|i: int, j: int|
            0 <= i < j < store.contents().len() ==> store_keys(store.contents())[i] != store_keys(
                store.contents(),
            )[j],
{
}

/// The in-memory stand-in for one bucket of the remote service, with a
/// count of the service calls it has answered.
pub struct FakeStore {
    pub objects: Vec<StoredObject>,
    pub calls: u64,
}

impl FakeStore {
    /// The store's objects as their mathematical views.
    pub open spec fn contents(&self) -> Seq<ObjectView> {
        self.objects@.map_values(|o: StoredObject| o@)
    }

    /// Well-formed: no two objects share a key.
    pub open spec fn wf(&self) -> bool {
        forall|i: int, j: int|
            0 <= i < j < self.contents().len() ==> self.contents()[i].0 != self.contents()[j].0
    }

    /// An empty bucket that has answered no calls.
    pub fn new() -> (s: Self)
        ensures
            s.contents() == Seq::<ObjectView>::empty(),
            s.wf(),
            s.calls == 0,
    {
        let s = FakeStore { objects: Vec::new(), calls: 0 };
        proof {
            assert(s.contents() =~= Seq::<ObjectView>::empty());
        }
        s
    }

    /// Answers an enumeration request: every key, in the store's order.
    pub fn list_keys(&mut self) -> (r: Vec<String>)
        requires
            old(self).calls < u64::MAX,
        ensures
            string_views(r@) == store_keys(old(self).contents()),
            final(self).contents() == old(self).contents(),
            final(self).calls == old(self).calls + 1,
    {
        let mut r: Vec<String> = Vec::new();
        let n = self.objects.len();
        let mut i: usize = 0;
        while i < n
            invariant
                i <= n,
                n == self.objects@.len(),
                *self == *old(self),
                r@.len() == i,
                forall|j: int| 0 <= j < i ==> r@[j]@ == self.contents()[j].0,
            decreases n - i,
        {
            let key = self.objects[i].key.clone();
            r.push(key);
            i = i + 1;
        }
        proof {
            assert(string_views(r@) =~= store_keys(self.contents()));
        }
        self.calls = self.calls + 1;
        r
    }

    /// Answers a put request: stores the body and content type under the
    /// key, replacing any object already there.
    pub fn put(&mut self, key: String, content_type: String, body: Vec<u8>)
        requires
            old(self).wf(),
            old(self).calls < u64::MAX,
        ensures
            final(self).contents() == store_put(
                old(self).contents(),
                key@,
                content_type@,
                body@,
            ),
            final(self).wf(),
            final(self).calls == old(self).calls + 1,
    {
        let ghost s0 = self.contents();
        match find_key(&self.objects, &key) {
            Some(i) => {
                proof {
                    lemma_store_put_found(s0, key@, content_type@, body@, i as int);
                }
                self.objects.set(i, StoredObject { key, content_type, body });
                proof {
                    assert(self.contents() =~= s0.update(
                        i as int,
                        (key@, content_type@, body@),
                    ));
                }
            },
            None => {
                proof {
                    lemma_store_put_absent(s0, key@, content_type@, body@);
                }
                self.objects.push(StoredObject { key, content_type, body });
                proof {
                    assert(self.contents() =~= s0.push((key@, content_type@, body@)));
                }
            },
        }
        self.calls = self.calls + 1;
    }

    /// Answers a get request: the body stored under the key, or nothing
    /// when the key is absent.
    pub fn get(&mut self, key: &String) -> (r: Option<Vec<u8>>)
        requires
            old(self).calls < u64::MAX,
        ensures
            final(self).contents() == old(self).contents(),
            final(self).calls == old(self).calls + 1,
            match store_lookup(old(self).contents(), key@) {
                Some(p) => r matches Some(b) && b@ == p.1,
                None => r is None,
            },
    {
        let r = match find_key(&self.objects, key) {
            Some(i) => {
                proof {
                    lemma_store_lookup_found(self.contents(), key@, i as int);
                }
                Some(copy_bytes(&self.objects[i].body))
            },
            None => {
                proof {
                    lemma_store_lookup_absent(self.contents(), key@);
                }
                None
            },
        };
        self.calls = self.calls + 1;
        r
    }
}

/// The index of the first object whose key matches, if any.
fn find_key(objects: &Vec<StoredObject>, key: &String) -> (r: Option<usize>)
    ensures
        r matches Some(i) ==> i < objects@.len() && objects@[i as int]@.0 == key@ && (forall|j: int|
            0 <= j < i ==> objects@[j]@.0 != key@),
        r is None ==> forall|j: int| 0 <= j < objects@.len() ==> objects@[j]@.0 != key@,
{
    let mut i: usize = 0;
    let n = objects.len();
    while i < n
        invariant
            i <= n,
            n == objects@.len(),
            forall|j: int| 0 <= j < i ==> objects@[j]@.0 != key@,
        decreases n - i,
    {
        if objects[i].key == *key {
            return Some(i);
        }
        i = i + 1;
    }
    None
}

/// A verified byte-for-byte copy of a body.
fn copy_bytes(src: &Vec<u8>) -> (r: Vec<u8>)
    ensures
        r@ == src@,
{
    let mut r: Vec<u8> = Vec::new();
    let mut i: usize = 0;
    while i < src.len()
        invariant
            i <= src@.len(),
            r@ == src@.take(i as int),
        decreases src@.len() - i,
    {
        r.push(src[i]);
        proof {
            assert(r@ =~= src@.take(i + 1));
        }
        i = i + 1;
    }
    proof {
        assert(src@.take(src@.len() as int) =~= src@);
    }
    r
}

} // verus!
