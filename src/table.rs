use vstd::prelude::*;

use crate::text::same_text;

verus! {

/// The map that a sequence of entries denotes: a later entry for a key
/// overrides an earlier one.
pub open spec fn map_of<V: View>(s: Seq<(String, V)>) -> Map<Seq<char>, V::V>
    decreases s.len(),
{
    if s.len() == 0 {
        Map::empty()
    } else {
        map_of(s.drop_last()).insert(s.last().0@, s.last().1@)
    }
}

/// No two entries share a key.
pub open spec fn keys_unique<V>(s: Seq<(String, V)>) -> bool {
    forall|i: int, j: int|
        0 <= i < s.len() && 0 <= j < s.len() && i != j ==> #[trigger] s[i].0@ != #[trigger] s[j].0@
}

proof fn lemma_absent<V: View>(s: Seq<(String, V)>, k: Seq<char>)
    requires
        forall|j: int| 0 <= j < s.len() ==> #[trigger] s[j].0@ != k,
    ensures
        !map_of(s).contains_key(k),
    decreases s.len(),
{
    if s.len() > 0 {
        assert(s.last().0@ != k);
        lemma_absent(s.drop_last(), k);
    }
}

proof fn lemma_found<V: View>(s: Seq<(String, V)>, k: Seq<char>, i: int)
    requires
        0 <= i < s.len(),
        s[i].0@ == k,
        forall|j: int| i < j < s.len() ==> #[trigger] s[j].0@ != k,
    ensures
        map_of(s).contains_key(k),
        map_of(s)[k] == s[i].1@,
    decreases s.len(),
{
    if i < s.len() - 1 {
        assert(s.last().0@ != k);
        lemma_found(s.drop_last(), k, i);
    }
}

proof fn lemma_update<V: View>(s: Seq<(String, V)>, i: int, e: (String, V))
    requires
        0 <= i < s.len(),
        s[i].0@ == e.0@,
        forall|j: int| i < j < s.len() ==> #[trigger] s[j].0@ != e.0@,
    ensures
        map_of(s.update(i, e)) == map_of(s).insert(e.0@, e.1@),
    decreases s.len(),
{
    let t = s.update(i, e);
    if i == s.len() - 1 {
        assert(t.drop_last() =~= s.drop_last());
        assert(map_of(t) =~= map_of(s).insert(e.0@, e.1@));
    } else {
        assert(s.last().0@ != e.0@);
        assert(t.drop_last() =~= s.drop_last().update(i, e));
        lemma_update(s.drop_last(), i, e);
        assert(map_of(t) =~= map_of(s).insert(e.0@, e.1@));
    }
}

/// A mapping from string keys to values that keeps the order in which keys
/// were first inserted. Inserting an existing key replaces its value in place.
pub struct KeyedTable<V> {
    entries: Vec<(String, V)>,
}

impl<V: View> View for KeyedTable<V> {
    type V = Map<Seq<char>, V::V>;

    closed spec fn view(&self) -> Map<Seq<char>, V::V> {
        map_of(self.entries@)
    }
}

impl<V: View> KeyedTable<V> {
    /// Keys are unique, so each key stands for exactly one entry.
    pub closed spec fn wf(&self) -> bool {
        keys_unique(self.entries@)
    }

    /// The keys in insertion order.
    pub closed spec fn key_order(&self) -> Seq<Seq<char>> {
        self.entries@.map_values(|e: (String, V)| e.0@)
    }

    pub fn new() -> (t: Self)
        ensures
            t.wf(),
            t@ == Map::<Seq<char>, V::V>::empty(),
            t.key_order().len() == 0,
    {
        KeyedTable { entries: Vec::new() }
    }

    pub fn len(&self) -> (n: usize)
        requires
            self.wf(),
        ensures
            n == self.key_order().len(),
    {
        self.entries.len()
    }

    /// The position of `key`, if present.
    fn position(&self, key: &str) -> (r: Option<usize>)
        requires
            self.wf(),
        ensures
            match r {
                Some(i) => i < self.entries@.len() && self.entries@[i as int].0@ == key@,
                None => forall|j: int|
                    0 <= j < self.entries@.len() ==> #[trigger] self.entries@[j].0@ != key@,
            },
    {
        let mut i: usize = 0;
        while i < self.entries.len()
            invariant
                i <= self.entries@.len(),
                forall|j: int| 0 <= j < i ==> #[trigger] self.entries@[j].0@ != key@,
            decreases self.entries@.len() - i,
        {
            if same_text(self.entries[i].0.as_str(), key) {
                return Some(i);
            }
            i = i + 1;
        }
        None
    }

    pub fn contains(&self, key: &str) -> (r: bool)
        requires
            self.wf(),
        ensures
            r == self@.contains_key(key@),
    {
        match self.position(key) {
            Some(i) => {
                proof {
                    lemma_found(self.entries@, key@, i as int);
                }
                true
            },
            None => {
                proof {
                    lemma_absent(self.entries@, key@);
                }
                false
            },
        }
    }

    pub fn get(&self, key: &str) -> (r: Option<&V>)
        requires
            self.wf(),
        ensures
            match r {
                Some(v) => self@.contains_key(key@) && self@[key@] == v@,
                None => !self@.contains_key(key@),
            },
    {
        match self.position(key) {
            Some(i) => {
                proof {
                    lemma_found(self.entries@, key@, i as int);
                }
                Some(&self.entries[i].1)
            },
            None => {
                proof {
                    lemma_absent(self.entries@, key@);
                }
                None
            },
        }
    }

    /// Inserts `key` with `value`, replacing the value of an existing key.
    pub fn insert(&mut self, key: String, value: V)
        requires
            old(self).wf(),
        ensures
            final(self).wf(),
            final(self)@ == old(self)@.insert(key@, value@),
            old(self)@.contains_key(key@) ==> final(self).key_order() == old(self).key_order(),
            !old(self)@.contains_key(key@) ==> final(self).key_order() == old(
                self,
            ).key_order().push(key@),
    {
        let ghost k = key@;
        match self.position(key.as_str()) {
            Some(i) => {
                proof {
                    lemma_found(self.entries@, k, i as int);
                }
                let ghost s = self.entries@;
                self.entries.set(i, (key, value));
                proof {
                    lemma_update(s, i as int, self.entries@[i as int]);
                    assert(self.key_order() =~= old(self).key_order());
                }
            },
            None => {
                proof {
                    lemma_absent(self.entries@, k);
                }
                self.entries.push((key, value));
                proof {
                    assert(self.entries@.drop_last() =~= old(self).entries@);
                    assert(self.key_order() =~= old(self).key_order().push(k));
                }
            },
        }
    }
}

} // verus!
