//! A small map from strings to values, kept as a list of entries in which no
//! key occurs twice.
//!
//! The hash map of std is specified in vstd only for keys that have a key
//! model, and `String` has none, so nothing could be proved of one keyed by
//! strings. The list stands in for it, with the distinctness of its keys as
//! its invariant.

use vstd::prelude::*;

verus! {

/// One entry of a [`TextMap`].
pub struct Entry<T> {
    pub key: String,
    pub value: T,
}

/// The map that a list of entries stands for: each entry maps its key to its
/// value, a later entry overriding an earlier one.
pub open spec fn content<T>(entries: Seq<Entry<T>>) -> Map<Seq<char>, T>
    decreases entries.len(),
{
    if entries.len() == 0 {
        Map::empty()
    } else {
        content(entries.drop_last()).insert(entries.last().key@, entries.last().value)
    }
}

/// No key occurs twice.
pub open spec fn distinct_keys<T>(entries: Seq<Entry<T>>) -> bool {
    forall|i: int, j: int|
        0 <= i < j < entries.len() ==> (#[trigger] entries[i]).key@ != (#[trigger] entries[j]).key@
}

/// A key is in the map exactly when some entry has it.
pub proof fn lemma_content_keys<T>(entries: Seq<Entry<T>>, key: Seq<char>)
    ensures
        content(entries).contains_key(key) <==> exists|i: int|
            0 <= i < entries.len() && (#[trigger] entries[i]).key@ == key,
    decreases entries.len(),
{
    if entries.len() > 0 {
        let front = entries.drop_last();
        lemma_content_keys(front, key);
        if content(entries).contains_key(key) {
            if entries.last().key@ == key {
                assert(entries[entries.len() - 1].key@ == key);
            } else {
                let i = choose|i: int| 0 <= i < front.len() && (#[trigger] front[i]).key@ == key;
                assert(entries[i].key@ == key);
            }
        }
        if exists|i: int| 0 <= i < entries.len() && (#[trigger] entries[i]).key@ == key {
            let i = choose|i: int| 0 <= i < entries.len() && (#[trigger] entries[i]).key@ == key;
            if i < front.len() {
                assert(front[i].key@ == key);
            }
        }
    }
}

/// Where no key occurs twice, the map holds under each key the value of the
/// entry that has the key.
pub proof fn lemma_content_value<T>(entries: Seq<Entry<T>>, i: int)
    requires
        distinct_keys(entries),
        0 <= i < entries.len(),
    ensures
        content(entries).contains_key(entries[i].key@),
        content(entries)[entries[i].key@] == entries[i].value,
    decreases entries.len(),
{
    let front = entries.drop_last();
    if i < entries.len() - 1 {
        assert(front[i] == entries[i]);
        assert(entries[i].key@ != entries[entries.len() - 1].key@);
        lemma_content_value(front, i);
    }
}

/// Where no key occurs twice, the list without one entry stands for the map
/// without that entry's key.
pub proof fn lemma_content_remove<T>(entries: Seq<Entry<T>>, i: int)
    requires
        distinct_keys(entries),
        0 <= i < entries.len(),
    ensures
        distinct_keys(entries.remove(i)),
        content(entries.remove(i)) == content(entries).remove(entries[i].key@),
    decreases entries.len(),
{
    let front = entries.drop_last();
    let rest = entries.remove(i);
    assert forall|a: int, b: int| 0 <= a < b < rest.len() implies (#[trigger] rest[a]).key@ != (
    #[trigger] rest[b]).key@ by {
        let a0 = if a < i { a } else { a + 1 };
        let b0 = if b < i { b } else { b + 1 };
        assert(rest[a] == entries[a0]);
        assert(rest[b] == entries[b0]);
    }
    if i == entries.len() - 1 {
        assert(rest == front);
        lemma_content_keys(front, entries[i].key@);
        if content(front).contains_key(entries[i].key@) {
            let j = choose|j: int| 0 <= j < front.len() && (#[trigger] front[j]).key@ == entries[i].key@;
            assert(front[j] == entries[j]);
        }
        assert(content(rest) == content(entries).remove(entries[i].key@));
    } else {
        assert(front[i] == entries[i]);
        lemma_content_remove(front, i);
        assert(rest.drop_last() == front.remove(i));
        assert(rest.last() == entries.last());
        assert(entries[i].key@ != entries[entries.len() - 1].key@);
        assert(content(rest) == content(entries).remove(entries[i].key@));
    }
}

/// A map from strings to values.
pub struct TextMap<T> {
    entries: Vec<Entry<T>>,
}

impl<T> View for TextMap<T> {
    type V = Map<Seq<char>, T>;

    closed spec fn view(&self) -> Map<Seq<char>, T> {
        content(self.entries@)
    }
}

impl<T> TextMap<T> {
    #[verifier::type_invariant]
    spec fn keys_are_distinct(&self) -> bool {
        distinct_keys(self.entries@)
    }

    /// The empty map.
    pub fn new() -> (m: TextMap<T>)
        ensures
            m@ == Map::<Seq<char>, T>::empty(),
    {
        TextMap { entries: Vec::new() }
    }

    /// The place of the entry with the given key.
    fn position(&self, key: &str) -> (place: Option<usize>)
        ensures
            place matches Some(i) ==> i < self.entries.len() && self.entries[i as int].key@ == key@,
            place is None ==> forall|j: int|
                0 <= j < self.entries.len() ==> (#[trigger] self.entries[j]).key@ != key@,
    {
        let mut i: usize = 0;
        while i < self.entries.len()
            invariant
                i <= self.entries.len(),
                forall|j: int| 0 <= j < i ==> (#[trigger] self.entries[j]).key@ != key@,
            decreases self.entries.len() - i,
        {
            if self.entries[i].key.as_str().eq(key) {
                return Some(i);
            }
            i += 1;
        }
        None
    }

    /// Whether the map has the key.
    pub fn contains_key(&self, key: &str) -> (b: bool)
        ensures
            b == self@.contains_key(key@),
    {
        let place = self.position(key);
        proof {
            lemma_content_keys(self.entries@, key@);
        }
        place.is_some()
    }

    /// Puts `value` under `key`. Returns the value that was there before.
    pub fn insert(&mut self, key: String, value: T) -> (before: Option<T>)
        ensures
            final(self)@ == old(self)@.insert(key@, value),
            before == (if old(self)@.contains_key(key@) {
                Some(old(self)@[key@])
            } else {
                None
            }),
    {
        let before = self.remove(key.as_str());
        proof {
            use_type_invariant(&*self);
            lemma_content_keys(self.entries@, key@);
            assert(old(self)@.remove(key@).insert(key@, value) == old(self)@.insert(key@, value));
        }
        let entry = Entry { key, value };
        let mut entries: Vec<Entry<T>> = Vec::new();
        core::mem::swap(&mut self.entries, &mut entries);
        assert(entries@.push(entry).drop_last() == entries@);
        entries.push(entry);
        core::mem::swap(&mut self.entries, &mut entries);
        before
    }

    /// Takes the entry with the given key out of the map. Returns its value.
    pub fn remove(&mut self, key: &str) -> (before: Option<T>)
        ensures
            final(self)@ == old(self)@.remove(key@),
            before == (if old(self)@.contains_key(key@) {
                Some(old(self)@[key@])
            } else {
                None
            }),
    {
        proof {
            use_type_invariant(&*self);
            lemma_content_keys(self.entries@, key@);
        }
        match self.position(key) {
            Some(i) => {
                proof {
                    lemma_content_value(self.entries@, i as int);
                    lemma_content_remove(self.entries@, i as int);
                }
                let mut entries: Vec<Entry<T>> = Vec::new();
                core::mem::swap(&mut self.entries, &mut entries);
                let entry = entries.remove(i);
                core::mem::swap(&mut self.entries, &mut entries);
                Some(entry.value)
            },
            None => {
                assert(self@.remove(key@) == self@);
                None
            },
        }
    }
}

} // verus!
