//! Collections keyed by text: a map from strings to values, and a set of
//! strings. Each keeps its items in a vector in which no text occurs twice.
use vstd::prelude::*;

use crate::text::string_of;

verus! {

/// The texts of the keys of `entries`, in order.
pub open spec fn key_texts<V>(entries: Seq<(String, V)>) -> Seq<Seq<char>> {
    entries.map_values(|e: (String, V)| e.0@)
}

/// The map that the entries stand for.
pub open spec fn entries_map<V>(entries: Seq<(String, V)>) -> Map<Seq<char>, V> {
    Map::new(
        |k: Seq<char>| key_texts(entries).contains(k),
        |k: Seq<char>| entries[key_texts(entries).index_of(k)].1,
    )
}

/// A map from texts to values.
pub struct StringMap<V> {
    pub entries: Vec<(String, V)>,
}

impl<V> View for StringMap<V> {
    type V = Map<Seq<char>, V>;

    open spec fn view(&self) -> Map<Seq<char>, V> {
        entries_map(self.entries@)
    }
}

pub proof fn lemma_key_at<V>(entries: Seq<(String, V)>, i: int)
    requires
        key_texts(entries).no_duplicates(),
        0 <= i < entries.len(),
    ensures
        entries_map(entries).contains_key(entries[i].0@),
        entries_map(entries)[entries[i].0@] == entries[i].1,
        key_texts(entries).index_of(entries[i].0@) == i,
{
    let keys = key_texts(entries);
    assert(keys[i] == entries[i].0@);
    assert(keys.contains(entries[i].0@));
    let j = keys.index_of(entries[i].0@);
    assert(keys[j] == entries[i].0@);
}

pub proof fn lemma_key_absent<V>(entries: Seq<(String, V)>, k: Seq<char>)
    requires
        forall|i: int| 0 <= i < entries.len() ==> entries[i].0@ != k,
    ensures
        !entries_map(entries).contains_key(k),
{
    if key_texts(entries).contains(k) {
        let j = choose|j: int| 0 <= j < key_texts(entries).len() && key_texts(entries)[j] == k;
        assert(entries[j].0@ == k);
    }
}

pub proof fn lemma_update_value<V>(entries: Seq<(String, V)>, i: int, v: V)
    requires
        key_texts(entries).no_duplicates(),
        0 <= i < entries.len(),
    ensures
        key_texts(entries.update(i, (entries[i].0, v))).no_duplicates(),
        entries_map(entries.update(i, (entries[i].0, v))) == entries_map(entries).insert(
            entries[i].0@,
            v,
        ),
{
    let e2 = entries.update(i, (entries[i].0, v));
    assert(key_texts(e2) =~= key_texts(entries));
    lemma_key_at(entries, i);
    assert forall|k: Seq<char>| #[trigger] entries_map(e2).contains_key(k) implies entries_map(
        e2,
    )[k] == entries_map(entries).insert(entries[i].0@, v)[k] by {
        let j = key_texts(e2).index_of(k);
        if k == entries[i].0@ {
            assert(j == i);
        } else {
            assert(j != i);
        }
    }
    assert(entries_map(e2) =~= entries_map(entries).insert(entries[i].0@, v));
}

pub proof fn lemma_push_entry<V>(entries: Seq<(String, V)>, key: String, v: V)
    requires
        key_texts(entries).no_duplicates(),
        !entries_map(entries).contains_key(key@),
    ensures
        key_texts(entries.push((key, v))).no_duplicates(),
        entries_map(entries.push((key, v))) == entries_map(entries).insert(key@, v),
{
    let e2 = entries.push((key, v));
    assert(key_texts(e2) =~= key_texts(entries).push(key@));
    assert(!key_texts(entries).contains(key@));
    assert(key_texts(e2).no_duplicates());
    lemma_key_at(e2, entries.len() as int);
    assert forall|k: Seq<char>| #[trigger] entries_map(e2).contains_key(k) && k != key@ implies
        entries_map(entries).contains_key(k) && entries_map(e2)[k] == entries_map(entries)[k] by {
        let j = key_texts(e2).index_of(k);
        assert(j != entries.len());
        assert(key_texts(entries)[j] == k);
        lemma_key_at(entries, j);
        lemma_key_at(e2, j);
    }
    assert forall|k: Seq<char>| #[trigger] entries_map(entries).contains_key(k) implies entries_map(
        e2,
    ).contains_key(k) by {
        let j = key_texts(entries).index_of(k);
        assert(key_texts(e2)[j] == k);
    }
    assert(entries_map(e2) =~= entries_map(entries).insert(key@, v));
}

pub proof fn lemma_remove_entry<V>(entries: Seq<(String, V)>, i: int)
    requires
        key_texts(entries).no_duplicates(),
        0 <= i < entries.len(),
    ensures
        key_texts(entries.remove(i)).no_duplicates(),
        entries_map(entries.remove(i)) == entries_map(entries).remove(entries[i].0@),
{
    let e2 = entries.remove(i);
    let k0 = entries[i].0@;
    assert(key_texts(e2) =~= key_texts(entries).remove(i));
    assert forall|a: int, b: int| 0 <= a < b < key_texts(e2).len() implies key_texts(e2)[a]
        != key_texts(e2)[b] by {
        let a2 = if a < i { a } else { a + 1 };
        let b2 = if b < i { b } else { b + 1 };
        assert(key_texts(e2)[a] == key_texts(entries)[a2]);
        assert(key_texts(e2)[b] == key_texts(entries)[b2]);
    }
    assert forall|k: Seq<char>| #[trigger] entries_map(e2).contains_key(k) implies k != k0
        && entries_map(entries).contains_key(k) && entries_map(e2)[k] == entries_map(entries)[k] by {
        let j = key_texts(e2).index_of(k);
        let j2 = if j < i { j } else { j + 1 };
        assert(entries[j2] == e2[j]);
        assert(j2 != i);
        lemma_key_at(entries, j2);
        lemma_key_at(e2, j);
        lemma_key_at(entries, i);
    }
    assert forall|k: Seq<char>| #[trigger] entries_map(entries).contains_key(k) && k != k0 implies entries_map(
        e2,
    ).contains_key(k) by {
        let j = key_texts(entries).index_of(k);
        assert(j != i);
        let j2 = if j < i { j } else { j - 1 };
        assert(e2[j2] == entries[j]);
        assert(key_texts(e2)[j2] == k);
    }
    assert(entries_map(e2) =~= entries_map(entries).remove(k0));
}

pub proof fn lemma_map_len<V>(entries: Seq<(String, V)>)
    requires
        key_texts(entries).no_duplicates(),
    ensures
        entries_map(entries).dom().finite(),
        entries_map(entries).len() == entries.len(),
{
    key_texts(entries).unique_seq_to_set();
    assert(entries_map(entries).dom() =~= key_texts(entries).to_set());
}

impl<V> StringMap<V> {
    /// No key occurs twice.
    pub open spec fn wf(&self) -> bool {
        key_texts(self.entries@).no_duplicates()
    }

    pub fn new() -> (m: Self)
        ensures
            m.wf(),
            m@ == Map::<Seq<char>, V>::empty(),
    {
        let m = StringMap { entries: Vec::new() };
        assert(key_texts(m.entries@) =~= Seq::<Seq<char>>::empty());
        assert(m@ =~= Map::<Seq<char>, V>::empty());
        m
    }

    /// The number of keys.
    pub fn len(&self) -> (n: usize)
        requires
            self.wf(),
        ensures
            n == self@.len(),
            n == self.entries@.len(),
            self@.dom().finite(),
    {
        proof {
            lemma_map_len(self.entries@);
        }
        self.entries.len()
    }

    /// Where `key` stands in the entries, if it is a key.
    pub fn index_of(&self, key: &str) -> (r: Option<usize>)
        requires
            self.wf(),
        ensures
            match r {
                Some(i) => i < self.entries.len() && self.entries@[i as int].0@ == key@
                    && self@.contains_key(key@),
                None => !self@.contains_key(key@),
            },
    {
        let wanted = string_of(key);
        let mut i: usize = 0;
        while i < self.entries.len()
            invariant
                i <= self.entries.len(),
                self.wf(),
                wanted@ == key@,
                forall|j: int| 0 <= j < i ==> self.entries@[j].0@ != key@,
            decreases self.entries.len() - i,
        {
            if self.entries[i].0 == wanted {
                proof {
                    lemma_key_at(self.entries@, i as int);
                }
                return Some(i);
            }
            i = i + 1;
        }
        proof {
            lemma_key_absent(self.entries@, key@);
        }
        None
    }

    pub fn contains_key(&self, key: &str) -> (b: bool)
        requires
            self.wf(),
        ensures
            b == self@.contains_key(key@),
    {
        self.index_of(key).is_some()
    }

    /// The value of `key`, if it is a key.
    pub fn get(&self, key: &str) -> (r: Option<&V>)
        requires
            self.wf(),
        ensures
            match r {
                Some(v) => self@.contains_key(key@) && *v == self@[key@],
                None => !self@.contains_key(key@),
            },
    {
        match self.index_of(key) {
            Some(i) => {
                proof {
                    lemma_key_at(self.entries@, i as int);
                }
                Some(&self.entries[i].1)
            },
            None => None,
        }
    }

    /// The value of `key` for update, if it is a key.
    pub fn get_mut(&mut self, key: &str) -> (r: Option<&mut V>)
        requires
            old(self).wf(),
        ensures
            match r {
                Some(v) => old(self)@.contains_key(key@) && *v == old(self)@[key@]
                    && final(self)@ == old(self)@.insert(key@, *final(v)) && final(self).wf(),
                None => !old(self)@.contains_key(key@) && *final(self) == *old(self),
            },
    {
        match self.index_of(key) {
            Some(i) => {
                proof {
                    lemma_key_at(self.entries@, i as int);
                }
                let ghost e0 = self.entries@;
                let r = &mut self.entries[i].1;
                proof {
                    lemma_update_value(e0, i as int, *final(r));
                }
                Some(r)
            },
            None => None,
        }
    }

    /// Sets the value of `key`; returns the value it replaces.
    pub fn insert(&mut self, key: String, value: V) -> (r: Option<V>)
        requires
            old(self).wf(),
        ensures
            final(self).wf(),
            final(self)@ == old(self)@.insert(key@, value),
            match r {
                Some(v) => old(self)@.contains_key(key@) && v == old(self)@[key@],
                None => !old(self)@.contains_key(key@),
            },
    {
        match self.index_of(key.as_str()) {
            Some(i) => {
                proof {
                    lemma_key_at(self.entries@, i as int);
                }
                let ghost e0 = self.entries@;
                let k = self.entries[i].0.clone();
                let mut pair = (k, value);
                self.entries.set_and_swap(i, &mut pair);
                let (_, old_value) = pair;
                proof {
                    lemma_update_value(e0, i as int, value);
                }
                Some(old_value)
            },
            None => {
                proof {
                    lemma_push_entry(self.entries@, key, value);
                }
                self.entries.push((key, value));
                None
            },
        }
    }

    /// Removes `key`; returns its value.
    pub fn remove(&mut self, key: &str) -> (r: Option<V>)
        requires
            old(self).wf(),
        ensures
            final(self).wf(),
            final(self)@ == old(self)@.remove(key@),
            match r {
                Some(v) => old(self)@.contains_key(key@) && v == old(self)@[key@],
                None => !old(self)@.contains_key(key@),
            },
    {
        match self.index_of(key) {
            Some(i) => {
                proof {
                    lemma_key_at(self.entries@, i as int);
                    lemma_remove_entry(self.entries@, i as int);
                }
                let (_, value) = self.entries.remove(i);
                Some(value)
            },
            None => {
                assert(old(self)@.remove(key@) =~= old(self)@);
                None
            },
        }
    }

    /// Removes every key.
    pub fn clear(&mut self)
        ensures
            final(self).wf(),
            final(self)@ == Map::<Seq<char>, V>::empty(),
    {
        self.entries.clear();
        assert(key_texts(self.entries@) =~= Seq::<Seq<char>>::empty());
        assert(self@ =~= Map::<Seq<char>, V>::empty());
    }
}


/// The texts of a vector of strings, in order.
pub open spec fn texts(v: Seq<String>) -> Seq<Seq<char>> {
    v.map_values(|s: String| s@)
}

/// A set of texts.
#[derive(Debug)]
pub struct StringSet {
    pub members: Vec<String>,
}

impl View for StringSet {
    type V = Set<Seq<char>>;

    open spec fn view(&self) -> Set<Seq<char>> {
        texts(self.members@).to_set()
    }
}

impl StringSet {
    /// No member occurs twice.
    pub open spec fn wf(&self) -> bool {
        texts(self.members@).no_duplicates()
    }

    pub fn new() -> (s: Self)
        ensures
            s.wf(),
            s@ == Set::<Seq<char>>::empty(),
            s.members@.len() == 0,
    {
        let s = StringSet { members: Vec::new() };
        assert(texts(s.members@) =~= Seq::<Seq<char>>::empty());
        assert(s@ =~= Set::<Seq<char>>::empty());
        s
    }

    /// The number of members.
    pub fn len(&self) -> (n: usize)
        requires
            self.wf(),
        ensures
            n == self@.len(),
            self@.finite(),
    {
        proof {
            texts(self.members@).unique_seq_to_set();
        }
        self.members.len()
    }

    pub fn contains(&self, member: &str) -> (b: bool)
        ensures
            b == self@.contains(member@),
    {
        let wanted = string_of(member);
        let mut i: usize = 0;
        while i < self.members.len()
            invariant
                i <= self.members.len(),
                wanted@ == member@,
                forall|j: int| 0 <= j < i ==> self.members@[j]@ != member@,
            decreases self.members.len() - i,
        {
            if self.members[i] == wanted {
                assert(texts(self.members@)[i as int] == member@);
                return true;
            }
            i = i + 1;
        }
        proof {
            if texts(self.members@).contains(member@) {
                let j = texts(self.members@).index_of(member@);
                assert(self.members@[j]@ == member@);
            }
        }
        false
    }

    /// Adds `member`; returns whether it was not a member before.
    pub fn insert(&mut self, member: String) -> (added: bool)
        requires
            old(self).wf(),
        ensures
            final(self).wf(),
            final(self)@ == old(self)@.insert(member@),
            added == !old(self)@.contains(member@),
    {
        if self.contains(member.as_str()) {
            assert(self@.insert(member@) =~= self@);
            false
        } else {
            let ghost before = texts(self.members@);
            self.members.push(member);
            assert(texts(self.members@) =~= before.push(member@));
            proof {
                before.lemma_push_to_set_commute(member@);
            }
            true
        }
    }
}

impl PartialEq for StringSet {
    fn eq(&self, other: &Self) -> (r: bool) {
        if self.members.len() != other.members.len() {
            return false;
        }
        let mut i: usize = 0;
        while i < self.members.len()
            invariant
                i <= self.members.len(),
                forall|j: int| 0 <= j < i ==> other@.contains(#[trigger] self.members@[j]@),
            decreases self.members.len() - i,
        {
            if !other.contains(self.members[i].as_str()) {
                return false;
            }
            i = i + 1;
        }
        true
    }
}

impl vstd::std_specs::cmp::PartialEqSpecImpl for StringSet {
    open spec fn obeys_eq_spec() -> bool {
        true
    }

    open spec fn eq_spec(&self, other: &StringSet) -> bool {
        self.members@.len() == other.members@.len() && forall|j: int|
            0 <= j < self.members@.len() ==> other@.contains(#[trigger] self.members@[j]@)
    }
}

} // verus!
