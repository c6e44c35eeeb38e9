//! A map from texts to values.
use vstd::prelude::*;

use crate::text::same_text;

verus! {

/// A map from texts to values. It holds every key once.
#[derive(Debug)]
pub struct Table<V> {
    entries: Vec<(String, V)>,
}

/// No two entries have the same key.
pub open spec fn keyed<V>(entries: Seq<(String, V)>) -> bool {
    forall|i: int, j: int|
        #![trigger entries[i], entries[j]]
        0 <= i < j < entries.len() ==> entries[i].0@ != entries[j].0@
}

/// The position of the entry with key `k`.
pub open spec fn position_of<V>(entries: Seq<(String, V)>, k: Seq<char>) -> int {
    choose|i: int| 0 <= i < entries.len() && (#[trigger] entries[i]).0@ == k
}

/// The map that entries make up.
pub open spec fn map_of<V>(entries: Seq<(String, V)>) -> Map<Seq<char>, V> {
    Map::new(
        |k: Seq<char>| exists|i: int| 0 <= i < entries.len() && (#[trigger] entries[i]).0@ == k,
        |k: Seq<char>| entries[position_of(entries, k)].1,
    )
}

proof fn lemma_entry<V>(entries: Seq<(String, V)>, i: int)
    requires
        keyed(entries),
        0 <= i < entries.len(),
    ensures
        map_of(entries).contains_key(entries[i].0@),
        map_of(entries)[entries[i].0@] == entries[i].1,
{
    let k = entries[i].0@;
    let j = position_of(entries, k);
    assert(0 <= j < entries.len() && entries[j].0@ == k);
    assert(i == j);
}

proof fn lemma_push<V>(entries: Seq<(String, V)>, entry: (String, V))
    requires
        keyed(entries),
        !map_of(entries).contains_key(entry.0@),
    ensures
        keyed(entries.push(entry)),
        map_of(entries.push(entry)) == map_of(entries).insert(entry.0@, entry.1),
{
    let after = entries.push(entry);
    assert forall|i: int, j: int|
        #![trigger after[i], after[j]]
        0 <= i < j < after.len() implies after[i].0@ != after[j].0@ by {
        assert(after[i] == entries[i]);
        if j < entries.len() {
            assert(after[j] == entries[j]);
        }
    }
    let m = map_of(entries).insert(entry.0@, entry.1);
    assert forall|k: Seq<char>| map_of(after).contains_key(k) implies m.contains_key(k) && m[k]
        == map_of(after)[k] by {
        let i = position_of(after, k);
        lemma_entry(after, i);
        if i < entries.len() {
            assert(after[i] == entries[i]);
            lemma_entry(entries, i);
        }
    }
    assert forall|k: Seq<char>| m.contains_key(k) implies map_of(after).contains_key(k) by {
        if k == entry.0@ {
            assert(after[entries.len() as int] == entry);
        } else {
            let i = position_of(entries, k);
            assert(after[i] == entries[i]);
        }
    }
    assert(map_of(after) =~= m);
}

proof fn lemma_remove<V>(entries: Seq<(String, V)>, at: int)
    requires
        keyed(entries),
        0 <= at < entries.len(),
    ensures
        keyed(entries.remove(at)),
        map_of(entries.remove(at)) == map_of(entries).remove(entries[at].0@),
{
    let after = entries.remove(at);
    assert forall|i: int, j: int|
        #![trigger after[i], after[j]]
        0 <= i < j < after.len() implies after[i].0@ != after[j].0@ by {
        let p = if i < at { i } else { i + 1 };
        let q = if j < at { j } else { j + 1 };
        assert(after[i] == entries[p] && after[j] == entries[q]);
    }
    let m = map_of(entries).remove(entries[at].0@);
    assert forall|k: Seq<char>| map_of(after).contains_key(k) implies m.contains_key(k) && m[k]
        == map_of(after)[k] by {
        let i = position_of(after, k);
        lemma_entry(after, i);
        let p = if i < at { i } else { i + 1 };
        assert(after[i] == entries[p]);
        lemma_entry(entries, p);
    }
    assert forall|k: Seq<char>| m.contains_key(k) implies map_of(after).contains_key(k) by {
        let p = position_of(entries, k);
        assert(p != at);
        let i = if p < at { p } else { p - 1 };
        assert(after[i] == entries[p]);
    }
    assert(map_of(after) =~= m);
}

impl<V> View for Table<V> {
    type V = Map<Seq<char>, V>;

    closed spec fn view(&self) -> Map<Seq<char>, V> {
        map_of(self.entries@)
    }
}

impl<V> Table<V> {
    pub closed spec fn wf(&self) -> bool {
        keyed(self.entries@)
    }

    pub fn new() -> (r: Self)
        ensures
            r.wf(),
            r@ == Map::<Seq<char>, V>::empty(),
    {
        let r = Table { entries: Vec::new() };
        assert(r@ =~= Map::<Seq<char>, V>::empty());
        r
    }

    fn find(&self, key: &str) -> (r: Option<usize>)
        ensures
            match r {
                Some(i) => i < self.entries@.len() && self.entries@[i as int].0@ == key@,
                None => !self@.contains_key(key@),
            },
    {
        let mut i: usize = 0;
        while i < self.entries.len()
            invariant
                i <= self.entries@.len(),
                forall|k: int| 0 <= k < i ==> (#[trigger] self.entries@[k]).0@ != key@,
            decreases self.entries@.len() - i,
        {
            if same_text(self.entries[i].0.as_str(), key) {
                return Some(i);
            }
            i += 1;
        }
        None
    }

    /// The value of a key.
    pub fn get(&self, key: &str) -> (r: Option<&V>)
        requires
            self.wf(),
        ensures
            match r {
                Some(v) => self@.contains_key(key@) && self@[key@] == *v,
                None => !self@.contains_key(key@),
            },
    {
        let at = self.find(key);
        match at {
            Some(i) => {
                proof {
                    lemma_entry(self.entries@, i as int);
                }
                Some(&self.entries[i].1)
            },
            None => None,
        }
    }

    /// Takes a key out, and returns its value.
    pub fn remove(&mut self, key: &str) -> (r: Option<V>)
        requires
            old(self).wf(),
        ensures
            final(self).wf(),
            final(self)@ == old(self)@.remove(key@),
            match r {
                Some(v) => old(self)@.contains_key(key@) && old(self)@[key@] == v,
                None => !old(self)@.contains_key(key@),
            },
    {
        let at = self.find(key);
        match at {
            Some(i) => {
                proof {
                    lemma_entry(self.entries@, i as int);
                    lemma_remove(self.entries@, i as int);
                }
                let entry = self.entries.remove(i);
                Some(entry.1)
            },
            None => {
                assert(self@ =~= old(self)@.remove(key@));
                None
            },
        }
    }

    /// Gives a key a value, in place of the one it had.
    pub fn insert(&mut self, key: String, value: V)
        requires
            old(self).wf(),
        ensures
            final(self).wf(),
            final(self)@ == old(self)@.insert(key@, value),
    {
        let at = self.find(key.as_str());
        if let Some(i) = at {
            proof {
                lemma_remove(self.entries@, i as int);
            }
            self.entries.remove(i);
        }
        proof {
            lemma_push(self.entries@, (key, value));
        }
        self.entries.push((key, value));
        assert(self@ =~= old(self)@.insert(key@, value));
    }

    /// Keeps the values that satisfy `keep`, and takes the others out.
    pub fn retain(&mut self, keep: impl Fn(&V) -> bool)
        requires
            old(self).wf(),
            forall|v: &V| #[trigger] keep.requires((v,)),
        ensures
            final(self).wf(),
            forall|k: Seq<char>| #[trigger]
                final(self)@.contains_key(k) ==> old(self)@.contains_key(k) && final(self)@[k]
                    == old(self)@[k] && keep.ensures((&old(self)@[k],), true),
            forall|k: Seq<char>|
                old(self)@.contains_key(k) && !(#[trigger] final(self)@.contains_key(k))
                    ==> keep.ensures((&old(self)@[k],), false),
    {
        let ghost before = self@;
        let mut i: usize = 0;
        while i < self.entries.len()
            invariant
                i <= self.entries@.len(),
                self.wf(),
                before == old(self)@,
                forall|v: &V| #[trigger] keep.requires((v,)),
                forall|k: Seq<char>| #[trigger]
                    self@.contains_key(k) ==> before.contains_key(k) && self@[k] == before[k],
                forall|k: Seq<char>|
                    before.contains_key(k) && !(#[trigger] self@.contains_key(k)) ==> keep.ensures(
                        (&before[k],),
                        false,
                    ),
                forall|j: int|
                    0 <= j < i ==> keep.ensures((&(#[trigger] self.entries@[j]).1,), true),
            decreases self.entries@.len() - i,
        {
            let ghost entries = self.entries@;
            let ghost prior = self@;
            let kept = keep(&self.entries[i].1);
            proof {
                lemma_entry(entries, i as int);
            }
            if kept {
                i += 1;
            } else {
                proof {
                    lemma_remove(entries, i as int);
                }
                self.entries.remove(i);
                assert(self@ == prior.remove(entries[i as int].0@));
                assert forall|k: Seq<char>| #[trigger] self@.contains_key(k) implies
                    before.contains_key(k) && self@[k] == before[k] by {
                    assert(prior.contains_key(k));
                }
                assert forall|k: Seq<char>|
                    before.contains_key(k) && !(#[trigger] self@.contains_key(k)) implies
                    keep.ensures((&before[k],), false) by {
                    if prior.contains_key(k) {
                        assert(k == entries[i as int].0@);
                    }
                }
                assert forall|j: int| 0 <= j < i implies keep.ensures(
                    (&(#[trigger] self.entries@[j]).1,),
                    true,
                ) by {
                    assert(self.entries@[j] == entries[j]);
                }
            }
        }
        assert forall|k: Seq<char>| #[trigger] self@.contains_key(k) implies keep.ensures(
            (&before[k],),
            true,
        ) by {
            let j = position_of(self.entries@, k);
            lemma_entry(self.entries@, j);
        }
    }
}

}
