//! A small map from texts to values, kept in order of insertion.

use crate::text::same_text;
use vstd::prelude::*;

verus! {

/// A map keyed by text. No two entries have the same key.
pub struct TextMap<V> {
    entries: Vec<(String, V)>,
}

/// Whether `entries[i]` is filed under `key`.
spec fn filed<V>(entries: Seq<(String, V)>, i: int, key: Seq<char>) -> bool {
    0 <= i < entries.len() && entries[i].0@ == key
}

/// Whether no two entries have the same key.
spec fn distinct<V>(entries: Seq<(String, V)>) -> bool {
    forall|i: int, j: int|
        0 <= i < j < entries.len() ==> (#[trigger] entries[i]).0@ != (#[trigger] entries[j]).0@
}

spec fn contents<V>(entries: Seq<(String, V)>) -> Map<Seq<char>, V> {
    Map::new(
        |key: Seq<char>| exists|i: int| filed(entries, i, key),
        |key: Seq<char>| entries[choose|i: int| filed(entries, i, key)].1,
    )
}

proof fn contents_at<V>(entries: Seq<(String, V)>, i: int)
    requires
        distinct(entries),
        0 <= i < entries.len(),
    ensures
        contents(entries).dom().contains(entries[i].0@),
        contents(entries)[entries[i].0@] == entries[i].1,
{
    let key = entries[i].0@;
    assert(filed(entries, i, key));
    let j = choose|j: int| filed(entries, j, key);
    assert(filed(entries, j, key));
    assert(i == j);
}

impl<V> View for TextMap<V> {
    type V = Map<Seq<char>, V>;

    closed spec fn view(&self) -> Map<Seq<char>, V> {
        contents(self.entries@)
    }
}

impl<V> TextMap<V> {
    #[verifier::type_invariant]
    spec fn keys_distinct(self) -> bool {
        distinct(self.entries@)
    }

    pub fn new() -> (m: TextMap<V>)
        ensures
            m@ == Map::<Seq<char>, V>::empty(),
    {
        let m = TextMap { entries: Vec::new() };
        assert(m@ =~= Map::<Seq<char>, V>::empty());
        m
    }

    fn find(&self, key: &str) -> (at: Option<usize>)
        ensures
            match at {
                Some(i) => filed(self.entries@, i as int, key@),
                None => !self@.dom().contains(key@),
            },
    {
        let mut i: usize = 0;
        while i < self.entries.len()
            invariant
                i <= self.entries@.len(),
                forall|j: int| 0 <= j < i ==> !filed(self.entries@, j, key@),
            decreases self.entries@.len() - i,
        {
            if same_text(self.entries[i].0.as_str(), key) {
                return Some(i);
            }
            i += 1;
        }
        None
    }

    pub fn contains_key(&self, key: &str) -> (found: bool)
        ensures
            found == self@.dom().contains(key@),
    {
        self.find(key).is_some()
    }

    pub fn get(&self, key: &str) -> (value: Option<&V>)
        ensures
            match value {
                Some(v) => self@.dom().contains(key@) && *v == self@[key@],
                None => !self@.dom().contains(key@),
            },
    {
        proof {
            use_type_invariant(self);
        }
        match self.find(key) {
            Some(i) => {
                proof {
                    contents_at(self.entries@, i as int);
                }
                Some(&self.entries[i].1)
            },
            None => None,
        }
    }

    /// Takes the entry of `key` out of the map.
    pub fn take(&mut self, key: &str) -> (entry: Option<(String, V)>)
        ensures
            match entry {
                Some(e) => old(self)@.dom().contains(key@) && e.0@ == key@ && e.1 == old(
                    self,
                )@[key@],
                None => !old(self)@.dom().contains(key@),
            },
            final(self)@ == old(self)@.remove(key@),
    {
        proof {
            use_type_invariant(&*self);
        }
        match self.find(key) {
            Some(i) => {
                let ghost before = self.entries@;
                let mut entries: Vec<(String, V)> = Vec::new();
                std::mem::swap(&mut entries, &mut self.entries);
                let entry = entries.remove(i);
                proof {
                    contents_at(before, i as int);
                    let after = entries@;
                    assert(after =~= before.remove(i as int));
                    let expected = contents(before).remove(key@);
                    assert forall|k: Seq<char>| #[trigger]
                        contents(after).dom().contains(k) implies expected.dom().contains(k)
                        && contents(after)[k] == expected[k] by {
                        let j = choose|j: int| filed(after, j, k);
                        assert(filed(after, j, k));
                        contents_at(after, j);
                        let p = if j < i {
                            j
                        } else {
                            j + 1
                        };
                        assert(after[j] == before[p]);
                        contents_at(before, p);
                        assert(before[p].0@ != before[i as int].0@);
                    }
                    assert forall|k: Seq<char>| #[trigger]
                        expected.dom().contains(k) implies contents(after).dom().contains(k) by {
                        let p = choose|p: int| filed(before, p, k);
                        assert(filed(before, p, k));
                        let j = if p < i {
                            p
                        } else {
                            p - 1
                        };
                        assert(after[j] == before[p]);
                        assert(filed(after, j, k));
                    }
                    assert(contents(after).dom() =~= expected.dom());
                    assert(contents(after) =~= contents(before).remove(key@));
                }
                self.entries = entries;
                Some(entry)
            },
            None => {
                assert(self@.remove(key@) =~= self@);
                None
            },
        }
    }

    /// Files `value` under `key`, in place of what was filed there.
    pub fn insert(&mut self, key: String, value: V)
        ensures
            final(self)@ == old(self)@.insert(key@, value),
    {
        let ghost start = self@;
        let _ = self.take(key.as_str());
        proof {
            use_type_invariant(&*self);
        }
        let ghost before = self.entries@;
        let mut entries: Vec<(String, V)> = Vec::new();
        std::mem::swap(&mut entries, &mut self.entries);
        entries.push((key, value));
        proof {
            let after = entries@;
            let n = before.len() as int;
            assert(after =~= before.push((key, value)));
            assert forall|i: int, j: int| 0 <= i < j < after.len() implies (#[trigger] after[i]).0@
                != (#[trigger] after[j]).0@ by {
                if j == n {
                    contents_at(before, i);
                }
            }
            let expected = contents(before).insert(key@, value);
            assert forall|k: Seq<char>| #[trigger]
                contents(after).dom().contains(k) implies expected.dom().contains(k) && contents(
                after,
            )[k] == expected[k] by {
                let j = choose|j: int| filed(after, j, k);
                assert(filed(after, j, k));
                contents_at(after, j);
                if j < n {
                    assert(after[j] == before[j]);
                    contents_at(before, j);
                }
            }
            assert forall|k: Seq<char>| #[trigger]
                expected.dom().contains(k) implies contents(after).dom().contains(k) by {
                if k == key@ {
                    assert(filed(after, n, k));
                } else {
                    let p = choose|p: int| filed(before, p, k);
                    assert(filed(before, p, k));
                    assert(filed(after, p, k));
                }
            }
            assert(contents(after).dom() =~= expected.dom());
            assert(contents(after) =~= contents(before).insert(key@, value));
            assert(start.remove(key@).insert(key@, value) =~= start.insert(key@, value));
        }
        self.entries = entries;
    }

    /// The keys, each once.
    pub fn keys(&self) -> (keys: Vec<String>)
        ensures
            forall|i: int|
                0 <= i < keys@.len() ==> self@.dom().contains((#[trigger] keys@[i])@),
            forall|k: Seq<char>| #[trigger]
                self@.dom().contains(k) ==> exists|i: int|
                    0 <= i < keys@.len() && (#[trigger] keys@[i])@ == k,
            forall|i: int, j: int|
                0 <= i < j < keys@.len() ==> (#[trigger] keys@[i])@ != (#[trigger] keys@[j])@,
    {
        proof {
            use_type_invariant(self);
        }
        let mut keys: Vec<String> = Vec::new();
        let mut i: usize = 0;
        while i < self.entries.len()
            invariant
                i <= self.entries@.len(),
                keys@.len() == i,
                forall|j: int| 0 <= j < i ==> (#[trigger] keys@[j])@ == self.entries@[j].0@,
            decreases self.entries@.len() - i,
        {
            keys.push(self.entries[i].0.clone());
            i += 1;
        }
        proof {
            assert forall|i: int| 0 <= i < keys@.len() implies self@.dom().contains(
                (#[trigger] keys@[i])@,
            ) by {
                contents_at(self.entries@, i);
            }
            assert forall|k: Seq<char>| #[trigger] self@.dom().contains(k) implies exists|i: int|
                0 <= i < keys@.len() && (#[trigger] keys@[i])@ == k by {
                let p = choose|p: int| filed(self.entries@, p, k);
                assert(filed(self.entries@, p, k));
                assert(keys@[p]@ == k);
            }
        }
        keys
    }
}

impl TextMap<String> {
    /// The texts that the keys are mapped to.
    pub open spec fn texts(self) -> Map<Seq<char>, Seq<char>> {
        self@.map_values(|v: String| v@)
    }

    pub fn copy(&self) -> (m: TextMap<String>)
        ensures
            m@ == self@,
    {
        proof {
            use_type_invariant(self);
        }
        let mut entries: Vec<(String, String)> = Vec::new();
        let mut i: usize = 0;
        while i < self.entries.len()
            invariant
                i <= self.entries@.len(),
                entries@ == self.entries@.take(i as int),
            decreases self.entries@.len() - i,
        {
            entries.push((self.entries[i].0.clone(), self.entries[i].1.clone()));
            assert(entries@ =~= self.entries@.take(i + 1));
            i += 1;
        }
        assert(entries@ =~= self.entries@);
        TextMap { entries }
    }
}

} // verus!
