//! Metadata of a course: lists of values under unique keys.

use crate::text::{copy_strings, texts};
use vstd::prelude::*;

verus! {

/// One key with its values.
#[derive(Debug)]
struct Entry {
    key: String,
    values: Vec<String>,
}

/// The mapping that a list of entries stands for: later entries win.
spec fn mapping(entries: Seq<Entry>) -> Map<Seq<char>, Seq<Seq<char>>>
    decreases entries.len(),
{
    if entries.len() == 0 {
        Map::empty()
    } else {
        mapping(entries.drop_last()).insert(entries.last().key@, texts(entries.last().values@))
    }
}

/// No key occurs twice.
spec fn distinct_keys(entries: Seq<Entry>) -> bool {
    forall|i: int, j: int| 0 <= i < j < entries.len() ==> entries[i].key@ != entries[j].key@
}

/// The keys of a mapping are the keys of its entries.
proof fn lemma_mapping_keys(entries: Seq<Entry>, key: Seq<char>)
    ensures
        mapping(entries).contains_key(key) <==> exists|i: int|
            0 <= i < entries.len() && entries[i].key@ == key,
    decreases entries.len(),
{
    if entries.len() > 0 {
        let front = entries.drop_last();
        lemma_mapping_keys(front, key);
        if exists|i: int| 0 <= i < entries.len() && entries[i].key@ == key {
            let i = choose|i: int| 0 <= i < entries.len() && entries[i].key@ == key;
            if i < front.len() {
                assert(front[i].key@ == key);
            }
        }
    }
}

/// Where keys are distinct, each entry's key maps to that entry's values.
proof fn lemma_mapping_values(entries: Seq<Entry>, at: int)
    requires
        distinct_keys(entries),
        0 <= at < entries.len(),
    ensures
        mapping(entries).contains_key(entries[at].key@),
        mapping(entries)[entries[at].key@] == texts(entries[at].values@),
    decreases entries.len(),
{
    if at < entries.len() - 1 {
        lemma_mapping_values(entries.drop_last(), at);
    }
}

/// Entries with the same keys and values, place by place, stand for the same
/// mapping.
proof fn lemma_mapping_same(first: Seq<Entry>, second: Seq<Entry>)
    requires
        first.len() == second.len(),
        forall|i: int|
            0 <= i < first.len() ==> (#[trigger] first[i]).key@ == second[i].key@ && texts(
                first[i].values@,
            ) == texts(second[i].values@),
    ensures
        mapping(first) == mapping(second),
    decreases first.len(),
{
    if first.len() > 0 {
        lemma_mapping_same(first.drop_last(), second.drop_last());
    }
}

/// Where keys are distinct, new values for the key of an entry change the
/// mapping at that key only.
proof fn lemma_mapping_replace(entries: Seq<Entry>, at: int, entry: Entry)
    requires
        distinct_keys(entries),
        0 <= at < entries.len(),
        entry.key@ == entries[at].key@,
    ensures
        mapping(entries.update(at, entry)) == mapping(entries).insert(
            entry.key@,
            texts(entry.values@),
        ),
    decreases entries.len(),
{
    let updated = entries.update(at, entry);
    let front = entries.drop_last();
    if at == entries.len() - 1 {
        assert(updated.drop_last() =~= front);
    } else {
        lemma_mapping_replace(front, at, entry);
        assert(updated.drop_last() =~= front.update(at, entry));
    }
}

/// A mapping from keys to lists of values. A key occurs once.
#[derive(Debug)]
pub struct Metadata {
    entries: Vec<Entry>,
}

impl View for Metadata {
    type V = Map<Seq<char>, Seq<Seq<char>>>;

    closed spec fn view(&self) -> Map<Seq<char>, Seq<Seq<char>>> {
        mapping(self.entries@)
    }
}

/// The keys of a list of entries, in order.
spec fn key_texts(entries: Seq<Entry>) -> Seq<Seq<char>> {
    Seq::new(entries.len(), |i: int| entries[i].key@)
}

impl Metadata {
    #[verifier::type_invariant]
    spec fn well_formed(&self) -> bool {
        distinct_keys(self.entries@)
    }

    /// The keys in the order in which each was first set.
    pub closed spec fn key_order(&self) -> Seq<Seq<char>> {
        key_texts(self.entries@)
    }

    /// The empty mapping.
    pub fn new() -> (metadata: Metadata)
        ensures
            metadata@ == Map::<Seq<char>, Seq<Seq<char>>>::empty(),
            metadata.key_order() == Seq::<Seq<char>>::empty(),
    {
        let metadata = Metadata { entries: Vec::new() };
        metadata
    }

    /// The place of `key` among the entries, if it has one.
    fn position(&self, key: &str) -> (place: Option<usize>)
        ensures
            match place {
                Some(at) => at < self.entries@.len() && self.entries@[at as int].key@ == key@,
                None => forall|i: int|
                    0 <= i < self.entries@.len() ==> (#[trigger] self.entries@[i]).key@ != key@,
            },
    {
        let wanted = key.to_owned();
        let mut i: usize = 0;
        while i < self.entries.len()
            invariant
                wanted@ == key@,
                i <= self.entries@.len(),
                forall|j: int| 0 <= j < i ==> (#[trigger] self.entries@[j]).key@ != key@,
            decreases self.entries@.len() - i,
        {
            if self.entries[i].key == wanted {
                return Some(i);
            }
            i += 1;
        }
        None
    }

    /// Sets the values of `key`, in place of those it had. A key that is
    /// new comes last in the order of the keys.
    pub fn insert(&mut self, key: String, values: Vec<String>)
        ensures
            final(self)@ == old(self)@.insert(key@, texts(values@)),
            final(self).key_order() == if old(self)@.contains_key(key@) {
                old(self).key_order()
            } else {
                old(self).key_order().push(key@)
            },
    {
        proof {
            use_type_invariant(&*self);
            lemma_mapping_keys(self.entries@, key@);
        }
        let place = self.position(key.as_str());
        let mut entries: Vec<Entry> = Vec::new();
        std::mem::swap(&mut entries, &mut self.entries);
        let ghost before = entries@;
        let entry = Entry { key, values };
        match place {
            Some(at) => {
                proof {
                    lemma_mapping_replace(before, at as int, entry);
                }
                entries.set(at, entry);
            },
            None => {
                entries.push(entry);
                proof {
                    assert(entries@.drop_last() =~= before);
                }
            },
        }
        self.entries = entries;
    }

    /// The values of `key`, if it has any.
    pub fn get(&self, key: &str) -> (values: Option<&Vec<String>>)
        ensures
            match values {
                Some(found) => self@.contains_key(key@) && texts(found@) == self@[key@],
                None => !self@.contains_key(key@),
            },
    {
        proof {
            use_type_invariant(self);
            lemma_mapping_keys(self.entries@, key@);
        }
        match self.position(key) {
            Some(at) => {
                proof {
                    lemma_mapping_values(self.entries@, at as int);
                }
                Some(&self.entries[at].values)
            },
            None => None,
        }
    }

    /// The keys, each once, in the order in which each was first set.
    pub fn keys(&self) -> (keys: Vec<String>)
        ensures
            texts(keys@) == self.key_order(),
            texts(keys@).no_duplicates(),
            forall|key: Seq<char>| self@.contains_key(key) <==> texts(keys@).contains(key),
    {
        proof {
            use_type_invariant(self);
        }
        let mut keys: Vec<String> = Vec::new();
        let mut i: usize = 0;
        while i < self.entries.len()
            invariant
                i <= self.entries@.len(),
                keys@.len() == i,
                forall|j: int| 0 <= j < i ==> (#[trigger] keys@[j])@ == self.entries@[j].key@,
            decreases self.entries@.len() - i,
        {
            keys.push(self.entries[i].key.clone());
            i += 1;
        }
        proof {
            assert forall|key: Seq<char>| self@.contains_key(key) <==> texts(keys@).contains(
                key,
            ) by {
                lemma_mapping_keys(self.entries@, key);
                if self@.contains_key(key) {
                    let at = choose|at: int|
                        0 <= at < self.entries@.len() && self.entries@[at].key@ == key;
                    assert(texts(keys@)[at] == key);
                }
            }
        }
        keys
    }
}

impl Clone for Metadata {
    /// A copy with the same keys and values, in the same order.
    fn clone(&self) -> (copy: Metadata)
        ensures
            copy@ == self@,
            copy.key_order() == self.key_order(),
    {
        proof {
            use_type_invariant(self);
        }
        let mut entries: Vec<Entry> = Vec::new();
        let mut i: usize = 0;
        while i < self.entries.len()
            invariant
                i <= self.entries@.len(),
                entries@.len() == i,
                forall|j: int|
                    0 <= j < i ==> (#[trigger] entries@[j]).key@ == self.entries@[j].key@ && texts(
                        entries@[j].values@,
                    ) == texts(self.entries@[j].values@),
            decreases self.entries@.len() - i,
        {
            let key = self.entries[i].key.clone();
            let values = copy_strings(&self.entries[i].values);
            entries.push(Entry { key, values });
            i += 1;
        }
        proof {
            lemma_mapping_same(entries@, self.entries@);
        }
        Metadata { entries }
    }
}

} // verus!
