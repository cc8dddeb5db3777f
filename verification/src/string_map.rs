//! A map keyed by strings that remembers the order in which keys were first
//! inserted. It holds the docker-compose service tables and the environment
//! variables of a service.

use vstd::prelude::*;

verus! {

/// The keys of `entries`, in order.
pub open spec fn entry_keys<V>(entries: Seq<(String, V)>) -> Seq<Seq<char>> {
    entries.map_values(|e: (String, V)| e.0@)
}

/// The map that `entries` stand for, later entries taking precedence.
pub open spec fn entry_map<V: View>(entries: Seq<(String, V)>) -> Map<Seq<char>, V::V>
    decreases entries.len(),
{
    if entries.len() == 0 {
        Map::empty()
    } else {
        entry_map(entries.drop_last()).insert(entries.last().0@, entries.last().1@)
    }
}

proof fn lemma_entry_map_dom<V: View>(entries: Seq<(String, V)>)
    ensures
        entry_map(entries).dom() =~= entry_keys(entries).to_set(),
    decreases entries.len(),
{
    if entries.len() > 0 {
        let init = entries.drop_last();
        lemma_entry_map_dom(init);
        assert(entry_keys(init) =~= entry_keys(entries).drop_last());
        assert(entry_keys(entries) =~= entry_keys(init).push(entries.last().0@));
        entry_keys(init).lemma_push_to_set_commute(entries.last().0@);
    } else {
        assert(entry_keys(entries).to_set() =~= Set::empty());
    }
}

proof fn lemma_entry_map_lookup<V: View>(entries: Seq<(String, V)>, i: int)
    requires
        0 <= i < entries.len(),
        entry_keys(entries).no_duplicates(),
    ensures
        entry_map(entries).dom().contains(entries[i].0@),
        entry_map(entries)[entries[i].0@] == entries[i].1@,
    decreases entries.len(),
{
    let init = entries.drop_last();
    let n = entries.len() - 1;
    if i < n {
        assert(entry_keys(init) =~= entry_keys(entries).drop_last());
        lemma_entry_map_lookup(init, i);
        assert(entry_keys(entries)[i] != entry_keys(entries)[n]);
    }
}

proof fn lemma_entry_map_update<V: View>(entries: Seq<(String, V)>, i: int, e: (String, V))
    requires
        0 <= i < entries.len(),
        entry_keys(entries).no_duplicates(),
        entries[i].0@ == e.0@,
    ensures
        entry_map(entries.update(i, e)) =~= entry_map(entries).insert(e.0@, e.1@),
        entry_keys(entries.update(i, e)) =~= entry_keys(entries),
    decreases entries.len(),
{
    let upd = entries.update(i, e);
    let n = entries.len() - 1;
    assert(entry_keys(upd) =~= entry_keys(entries));
    if i < n {
        let init = entries.drop_last();
        assert(entry_keys(init) =~= entry_keys(entries).drop_last());
        lemma_entry_map_update(init, i, e);
        assert(upd.drop_last() =~= init.update(i, e));
        assert(entry_keys(entries)[i] != entry_keys(entries)[n]);
    } else {
        assert(upd.drop_last() =~= entries.drop_last());
    }
}

/// String-keyed map; keys keep the order of their first insertion.
pub struct StringMap<V> {
    entries: Vec<(String, V)>,
}

impl<V: View> View for StringMap<V> {
    type V = Map<Seq<char>, V::V>;

    closed spec fn view(&self) -> Map<Seq<char>, V::V> {
        entry_map(self.entries@)
    }
}

impl<V> StringMap<V> {
    /// No key occurs twice.
    #[verifier::type_invariant]
    closed spec fn distinct_keys(self) -> bool {
        entry_keys(self.entries@).no_duplicates()
    }
}

impl<V: View> StringMap<V> {
    /// The keys, in order of first insertion.
    pub closed spec fn keys(&self) -> Seq<Seq<char>> {
        entry_keys(self.entries@)
    }

    /// The empty map.
    pub fn new() -> (m: Self)
        ensures
            m@ == Map::<Seq<char>, V::V>::empty(),
            m.keys() == Seq::<Seq<char>>::empty(),
    {
        let m = StringMap { entries: Vec::new() };
        assert(entry_keys(m.entries@) =~= Seq::<Seq<char>>::empty());
        m
    }

    /// The number of keys; also states how the keys relate to the map.
    pub fn len(&self) -> (n: usize)
        ensures
            n == self.keys().len(),
            self.keys().no_duplicates(),
            self@.dom() == self.keys().to_set(),
    {
        proof {
            use_type_invariant(self);
            lemma_entry_map_dom(self.entries@);
        }
        self.entries.len()
    }

    /// The `i`-th key in insertion order.
    pub fn key_at(&self, i: usize) -> (k: &String)
        requires
            i < self.keys().len(),
        ensures
            k@ == self.keys()[i as int],
    {
        &self.entries[i].0
    }

    /// The value of the `i`-th key in insertion order.
    pub fn value_at(&self, i: usize) -> (v: &V)
        requires
            i < self.keys().len(),
        ensures
            self@.dom().contains(self.keys()[i as int]),
            v@ == self@[self.keys()[i as int]],
    {
        proof {
            use_type_invariant(self);
            lemma_entry_map_lookup(self.entries@, i as int);
        }
        &self.entries[i].1
    }

    /// The value bound to `key`, if any.
    pub fn get(&self, key: &str) -> (r: Option<&V>)
        ensures
            r is Some <==> self@.dom().contains(key@),
            r matches Some(v) ==> v@ == self@[key@],
    {
        proof {
            use_type_invariant(self);
            lemma_entry_map_dom(self.entries@);
        }
        let wanted = key.to_owned();
        let n = self.entries.len();
        let mut i: usize = 0;
        while i < n
            invariant
                n == self.entries@.len(),
                i <= n,
                wanted@ == key@,
                entry_keys(self.entries@).no_duplicates(),
                self@.dom() == entry_keys(self.entries@).to_set(),
                forall|j: int| 0 <= j < i ==> self.entries@[j].0@ != key@,
            decreases n - i,
        {
            if self.entries[i].0 == wanted {
                proof {
                    lemma_entry_map_lookup(self.entries@, i as int);
                }
                return Some(&self.entries[i].1);
            }
            i = i + 1;
        }
        proof {
            if self@.dom().contains(key@) {
                assert(entry_keys(self.entries@).to_set().contains(key@));
                let j = choose|j: int| 0 <= j < n && entry_keys(self.entries@)[j] == key@;
                assert(self.entries@[j].0@ == key@);
            }
        }
        None
    }

    /// Binds `key` to `value`, as `HashMap::insert` does: a new key goes after
    /// the others, a present key keeps its place and gets the new value.
    pub fn insert(&mut self, key: String, value: V)
        ensures
            final(self)@ == old(self)@.insert(key@, value@),
            final(self).keys() == (if old(self).keys().contains(key@) {
                old(self).keys()
            } else {
                old(self).keys().push(key@)
            }),
    {
        proof {
            use_type_invariant(&*self);
        }
        let mut entries: Vec<(String, V)> = Vec::new();
        std::mem::swap(&mut entries, &mut self.entries);
        let ghost old_entries = entries@;
        let n = entries.len();
        let mut i: usize = 0;
        while i < n
            invariant
                entries@ == old_entries,
                old(self)@ == entry_map(old_entries),
                old(self).keys() == entry_keys(old_entries),
                n == old_entries.len(),
                i <= n,
                entry_keys(old_entries).no_duplicates(),
                forall|j: int| 0 <= j < i ==> old_entries[j].0@ != key@,
            decreases n - i,
        {
            if entries[i].0 == key {
                let ghost e = (key, value);
                proof {
                    lemma_entry_map_update(old_entries, i as int, e);
                    assert(entry_keys(old_entries)[i as int] == key@);
                    assert(entry_keys(old_entries).contains(key@));
                }
                entries.set(i, (key, value));
                self.entries = entries;
                return;
            }
            i = i + 1;
        }
        proof {
            assert(!entry_keys(old_entries).contains(key@)) by {
                if entry_keys(old_entries).contains(key@) {
                    let j = choose|j: int| 0 <= j < n && entry_keys(old_entries)[j] == key@;
                    assert(old_entries[j].0@ == key@);
                }
            }
        }
        entries.push((key, value));
        proof {
            assert(entries@.drop_last() =~= old_entries);
            assert(entry_keys(entries@) =~= entry_keys(old_entries).push(key@));
        }
        self.entries = entries;
    }
}

impl Clone for StringMap<String> {
    /// A copy with the same keys in the same order and the same values.
    fn clone(&self) -> (r: Self)
        ensures
            r@ == self@,
            r.keys() == self.keys(),
    {
        proof {
            use_type_invariant(self);
        }
        let n = self.entries.len();
        let mut entries: Vec<(String, String)> = Vec::new();
        let mut i: usize = 0;
        while i < n
            invariant
                n == self.entries@.len(),
                i <= n,
                entries@ == self.entries@.subrange(0, i as int),
            decreases n - i,
        {
            let k = self.entries[i].0.clone();
            let v = self.entries[i].1.clone();
            entries.push((k, v));
            proof {
                assert(entries@ =~= self.entries@.subrange(0, i + 1));
            }
            i = i + 1;
        }
        proof {
            assert(entries@ =~= self.entries@);
        }
        StringMap { entries }
    }
}

} // verus!
