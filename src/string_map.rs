//! String-to-string maps with unique keys, viewed as `Map`s.

use vstd::prelude::*;

verus! {

/// The map that a sequence of key/value pairs denotes, a later pair winning
/// over an earlier one with the same key.
pub open spec fn map_of(entries: Seq<(String, String)>) -> Map<Seq<char>, Seq<char>>
    decreases entries.len(),
{
    if entries.len() == 0 {
        Map::empty()
    } else {
        let last = entries.last();
        map_of(entries.drop_last()).insert(last.0@, last.1@)
    }
}

/// No key occurs twice.
pub open spec fn keys_unique(entries: Seq<(String, String)>) -> bool {
    forall|i: int, j: int|
        0 <= i < entries.len() && 0 <= j < entries.len() && i != j ==> (#[trigger] entries[i]).0@
            != (#[trigger] entries[j]).0@
}

/// A map from strings to strings, such as the labels or annotations of a
/// stored object. Each key is held once.
#[derive(Debug, Clone)]
pub struct StringMap {
    pub entries: Vec<(String, String)>,
}

impl View for StringMap {
    type V = Map<Seq<char>, Seq<char>>;

    open spec fn view(&self) -> Map<Seq<char>, Seq<char>> {
        map_of(self.entries@)
    }
}

/// A key is in the map exactly when some pair carries it.
pub proof fn lemma_map_of_dom(entries: Seq<(String, String)>, k: Seq<char>)
    ensures
        map_of(entries).contains_key(k) <==> exists|i: int|
            0 <= i < entries.len() && (#[trigger] entries[i]).0@ == k,
    decreases entries.len(),
{
    if entries.len() > 0 {
        let init = entries.drop_last();
        lemma_map_of_dom(init, k);
        if map_of(entries).contains_key(k) {
            if entries.last().0@ != k {
                let i = choose|i: int| 0 <= i < init.len() && (#[trigger] init[i]).0@ == k;
                assert(entries[i] == init[i]);
            }
        }
        if exists|i: int| 0 <= i < entries.len() && (#[trigger] entries[i]).0@ == k {
            let i = choose|i: int| 0 <= i < entries.len() && (#[trigger] entries[i]).0@ == k;
            if i < entries.len() - 1 {
                assert(init[i] == entries[i]);
            }
        }
    }
}

/// Overwriting the value of the pair at `i` overwrites the value of its key,
/// when keys are unique.
pub proof fn lemma_map_of_update(entries: Seq<(String, String)>, i: int, v: String)
    requires
        keys_unique(entries),
        0 <= i < entries.len(),
    ensures
        map_of(entries.update(i, (entries[i].0, v))) == map_of(entries).insert(
            entries[i].0@,
            v@,
        ),
    decreases entries.len(),
{
    let k = entries[i].0;
    let updated = entries.update(i, (k, v));
    let init = entries.drop_last();
    assert(updated.drop_last() == if i == entries.len() - 1 {
        init
    } else {
        init.update(i, (k, v))
    });
    if i == entries.len() - 1 {
        assert(map_of(updated) =~= map_of(entries).insert(k@, v@));
    } else {
        assert(keys_unique(init)) by {
            assert forall|a: int, b: int|
                0 <= a < init.len() && 0 <= b < init.len() && a != b implies (#[trigger] init[a]).0@
                != (#[trigger] init[b]).0@ by {
                assert(init[a] == entries[a] && init[b] == entries[b]);
            }
        }
        lemma_map_of_update(init, i, v);
        let last = entries.last();
        assert(last == entries[entries.len() - 1]);
        assert(last.0@ != k@);
        assert(updated.last() == last);
        assert(map_of(updated) =~= map_of(entries).insert(k@, v@));
    }
}

impl StringMap {
    /// A map that holds the given pairs, a later pair winning over an
    /// earlier one with the same key.
    pub fn from_pairs(pairs: Vec<(String, String)>) -> (r: StringMap)
        ensures
            r.wf(),
            r@ == map_of(pairs@),
    {
        let mut m = StringMap::new();
        let mut i: usize = 0;
        while i < pairs.len()
            invariant
                i <= pairs@.len(),
                m.wf(),
                m@ == map_of(pairs@.take(i as int)),
            decreases pairs@.len() - i,
        {
            let k = pairs[i].0.clone();
            let v = pairs[i].1.clone();
            m.insert(k, v);
            assert(pairs@.take(i + 1).drop_last() =~= pairs@.take(i as int));
            i = i + 1;
        }
        assert(pairs@.take(i as int) =~= pairs@);
        m
    }

    /// Each key is held once.
    pub open spec fn wf(&self) -> bool {
        keys_unique(self.entries@)
    }

    /// The empty map.
    pub fn new() -> (r: StringMap)
        ensures
            r.wf(),
            r@ == Map::<Seq<char>, Seq<char>>::empty(),
    {
        StringMap { entries: Vec::new() }
    }

    /// The value held for `key`, if any.
    pub fn get(&self, key: &String) -> (r: Option<String>)
        requires
            self.wf(),
        ensures
            r.is_some() == self@.contains_key(key@),
            r.is_some() ==> r.unwrap()@ == self@[key@],
    {
        let mut i: usize = 0;
        while i < self.entries.len()
            invariant
                i <= self.entries.len(),
                self.wf(),
                forall|j: int| 0 <= j < i ==> (#[trigger] self.entries@[j]).0@ != key@,
            decreases self.entries.len() - i,
        {
            if self.entries[i].0 == *key {
                proof {
                    let ghost e = self.entries@;
                    lemma_map_of_dom(e, key@);
                    lemma_map_of_update(e, i as int, e[i as int].1);
                    assert(e.update(i as int, (e[i as int].0, e[i as int].1)) =~= e);
                }
                return Some(self.entries[i].1.clone());
            }
            i = i + 1;
        }
        proof {
            lemma_map_of_dom(self.entries@, key@);
        }
        None
    }

    /// Sets `key` to `value`, keeping every other key.
    pub fn insert(&mut self, key: String, value: String)
        requires
            old(self).wf(),
        ensures
            final(self).wf(),
            final(self)@ == old(self)@.insert(key@, value@),
    {
        let mut i: usize = 0;
        while i < self.entries.len()
            invariant
                i <= self.entries.len(),
                self.entries@ == old(self).entries@,
                old(self).wf(),
                forall|j: int| 0 <= j < i ==> (#[trigger] self.entries@[j]).0@ != key@,
            decreases self.entries.len() - i,
        {
            if self.entries[i].0 == key {
                let ghost e = self.entries@;
                proof {
                    lemma_map_of_update(e, i as int, value);
                }
                let k = self.entries[i].0.clone();
                self.entries.set(i, (k, value));
                assert(self.entries@ == e.update(i as int, (e[i as int].0, value)));
                assert(keys_unique(self.entries@)) by {
                    assert forall|a: int, b: int|
                        0 <= a < self.entries@.len() && 0 <= b < self.entries@.len() && a != b implies (#[trigger] self.entries@[a]).0@
                        != (#[trigger] self.entries@[b]).0@ by {
                        assert(e[a].0@ == self.entries@[a].0@ && e[b].0@ == self.entries@[b].0@);
                    }
                }
                return;
            }
            i = i + 1;
        }
        let ghost e = self.entries@;
        self.entries.push((key, value));
        proof {
            assert(self.entries@.drop_last() =~= e);
            assert(keys_unique(self.entries@)) by {
                assert forall|a: int, b: int|
                    0 <= a < self.entries@.len() && 0 <= b < self.entries@.len() && a != b implies (#[trigger] self.entries@[a]).0@
                    != (#[trigger] self.entries@[b]).0@ by {
                    if a < e.len() && b < e.len() {
                        assert(e[a] == self.entries@[a] && e[b] == self.entries@[b]);
                    } else if a < e.len() {
                        assert(e[a] == self.entries@[a]);
                    } else {
                        assert(e[b] == self.entries@[b]);
                    }
                }
            }
        }
    }
}

} // verus!
