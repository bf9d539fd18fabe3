//! A map with text keys.

use vstd::prelude::*;

use crate::text::same;

verus! {

/// A map from texts to values. Keys are in the order in which they were last put in.
pub struct TextMap<V> {
    pairs: Vec<(String, V)>,
}

pub open spec fn pairs_unique<V>(pairs: Seq<(String, V)>) -> bool {
    forall|i: int, j: int|
        0 <= i < j < pairs.len() ==> (#[trigger] pairs[i]).0@ != (#[trigger] pairs[j]).0@
}

pub open spec fn pairs_map<V>(pairs: Seq<(String, V)>) -> Map<Seq<char>, V>
    decreases pairs.len(),
{
    if pairs.len() == 0 {
        Map::empty()
    } else {
        pairs_map(pairs.drop_last()).insert(pairs.last().0@, pairs.last().1)
    }
}

proof fn pairs_map_has<V>(pairs: Seq<(String, V)>, i: int)
    requires
        pairs_unique(pairs),
        0 <= i < pairs.len(),
    ensures
        pairs_map(pairs).dom().contains(pairs[i].0@),
        pairs_map(pairs)[pairs[i].0@] == pairs[i].1,
    decreases pairs.len(),
{
    if i < pairs.len() - 1 {
        let init = pairs.drop_last();
        assert(init[i] == pairs[i]);
        pairs_map_has(init, i);
        assert(pairs[i].0@ != pairs[pairs.len() - 1].0@);
    }
}

proof fn pairs_map_lacks<V>(pairs: Seq<(String, V)>, key: Seq<char>)
    requires
        forall|i: int| 0 <= i < pairs.len() ==> (#[trigger] pairs[i]).0@ != key,
    ensures
        !pairs_map(pairs).dom().contains(key),
    decreases pairs.len(),
{
    if pairs.len() > 0 {
        let init = pairs.drop_last();
        assert forall|i: int| 0 <= i < init.len() implies (#[trigger] init[i]).0@ != key by {
            assert(init[i] == pairs[i]);
        }
        pairs_map_lacks(init, key);
        assert(pairs[pairs.len() - 1].0@ != key);
    }
}

proof fn pairs_map_from<V>(pairs: Seq<(String, V)>, key: Seq<char>) -> (i: int)
    requires
        pairs_map(pairs).dom().contains(key),
    ensures
        0 <= i < pairs.len(),
        pairs[i].0@ == key,
    decreases pairs.len(),
{
    if pairs.last().0@ == key {
        pairs.len() - 1
    } else {
        let i = pairs_map_from(pairs.drop_last(), key);
        assert(pairs.drop_last()[i] == pairs[i]);
        i
    }
}

impl<V> View for TextMap<V> {
    type V = Map<Seq<char>, V>;

    closed spec fn view(&self) -> Map<Seq<char>, V> {
        pairs_map(self.pairs@)
    }
}

impl<V> TextMap<V> {
    /// No key occurs twice.
    pub closed spec fn wf(&self) -> bool {
        pairs_unique(self.pairs@)
    }

    /// The keys in their order.
    pub closed spec fn keys(&self) -> Seq<Seq<char>> {
        self.pairs@.map_values(|pair: (String, V)| pair.0@)
    }

    /// Every key has one place.
    pub proof fn keys_have_places(&self)
        requires
            self.wf(),
        ensures
            self.keys().no_duplicates(),
            self.keys().len() == self@.dom().len(),
            forall|key: Seq<char>| self.keys().contains(key) <==> self@.dom().contains(key),
    {
        let keys = self.keys();
        pairs_map_len(self.pairs@);
        assert forall|i: int, j: int| 0 <= i < keys.len() && 0 <= j < keys.len() && i
            != j implies keys[i] != keys[j] by {
            if i < j {
                assert(self.pairs@[i].0@ != self.pairs@[j].0@);
            } else {
                assert(self.pairs@[j].0@ != self.pairs@[i].0@);
            }
        }
        assert forall|key: Seq<char>| keys.contains(key) <==> self@.dom().contains(key) by {
            if keys.contains(key) {
                let i = choose|i: int| 0 <= i < keys.len() && keys[i] == key;
                pairs_map_has(self.pairs@, i);
            }
            if self@.dom().contains(key) {
                let i = pairs_map_from(self.pairs@, key);
                assert(keys[i] == key);
            }
        }
    }

    pub fn new() -> (result: Self)
        ensures
            result.wf(),
            result@ == Map::<Seq<char>, V>::empty(),
    {
        TextMap { pairs: Vec::new() }
    }

    fn index_of(&self, key: &str) -> (result: Option<usize>)
        requires
            self.wf(),
        ensures
            match result {
                Some(i) => i < self.pairs@.len() && self.pairs@[i as int].0@ == key@
                    && self@.dom().contains(key@) && self@[key@] == self.pairs@[i as int].1,
                None => !self@.dom().contains(key@) && forall|i: int|
                    0 <= i < self.pairs@.len() ==> (#[trigger] self.pairs@[i]).0@ != key@,
            },
    {
        let mut i: usize = 0;
        while i < self.pairs.len()
            invariant
                self.wf(),
                i <= self.pairs@.len(),
                forall|j: int| 0 <= j < i ==> (#[trigger] self.pairs@[j]).0@ != key@,
            decreases self.pairs@.len() - i,
        {
            if same(self.pairs[i].0.as_str(), key) {
                proof {
                    pairs_map_has(self.pairs@, i as int);
                }
                return Some(i);
            }
            i += 1;
        }
        proof {
            pairs_map_lacks(self.pairs@, key@);
        }
        None
    }

    pub fn get(&self, key: &str) -> (result: Option<&V>)
        requires
            self.wf(),
        ensures
            match result {
                Some(value) => self@.dom().contains(key@) && *value == self@[key@],
                None => !self@.dom().contains(key@),
            },
    {
        match self.index_of(key) {
            Some(i) => Some(&self.pairs[i].1),
            None => None,
        }
    }

    pub fn contains(&self, key: &str) -> (result: bool)
        requires
            self.wf(),
        ensures
            result == self@.dom().contains(key@),
    {
        self.index_of(key).is_some()
    }

    pub fn remove(&mut self, key: &str) -> (result: Option<V>)
        requires
            old(self).wf(),
        ensures
            final(self).wf(),
            final(self)@ == old(self)@.remove(key@),
            match result {
                Some(value) => old(self)@.dom().contains(key@) && value == old(self)@[key@],
                None => !old(self)@.dom().contains(key@),
            },
    {
        let found = self.index_of(key);
        match found {
            Some(i) => {
                let ghost before = self.pairs@;
                let pair = self.pairs.remove(i);
                proof {
                    let after = self.pairs@;
                    assert forall|a: int, b: int| 0 <= a < b < after.len() implies (
                    #[trigger] after[a]).0@ != (#[trigger] after[b]).0@ by {
                        let x = if a < i { a } else { a + 1 };
                        let y = if b < i { b } else { b + 1 };
                        assert(after[a] == before[x] && after[b] == before[y]);
                    }
                    removed_map(before, i as int);
                }
                Some(pair.1)
            },
            None => {
                assert(self@.remove(key@) =~= self@);
                None
            },
        }
    }

    pub fn insert(&mut self, key: String, value: V)
        requires
            old(self).wf(),
        ensures
            final(self).wf(),
            final(self)@ == old(self)@.insert(key@, value),
    {
        let ghost start = self@;
        let gone = self.remove(key.as_str());
        let ghost before = self.pairs@;
        proof {
            assert forall|i: int| 0 <= i < before.len() implies (#[trigger] before[i]).0@ != key@ by {
                if before[i].0@ == key@ {
                    pairs_map_has(before, i);
                }
            }
        }
        self.pairs.push((key, value));
        proof {
            let after = self.pairs@;
            assert(after.drop_last() =~= before);
            assert forall|a: int, b: int| 0 <= a < b < after.len() implies (
            #[trigger] after[a]).0@ != (#[trigger] after[b]).0@ by {
                assert(after[a] == before[a]);
                if b < before.len() {
                    assert(after[b] == before[b]);
                }
            }
            assert(self@ =~= start.insert(key@, value));
        }
    }

    pub fn len(&self) -> (result: usize)
        requires
            self.wf(),
        ensures
            result == self@.dom().len(),
            self@.dom().finite(),
    {
        proof {
            pairs_map_len(self.pairs@);
        }
        self.pairs.len()
    }

    /// The key and value at a place in the order of the keys.
    pub fn entry(&self, i: usize) -> (result: (&str, &V))
        requires
            self.wf(),
            i < self@.dom().len(),
        ensures
            result.0@ == self.keys()[i as int],
            self@.dom().contains(result.0@),
            self@[result.0@] == *result.1,
    {
        proof {
            pairs_map_len(self.pairs@);
            pairs_map_has(self.pairs@, i as int);
        }
        let pair = &self.pairs[i];
        (pair.0.as_str(), &pair.1)
    }
}

impl TextMap<String> {
    /// The keys and values as a list.
    pub fn to_pairs(&self) -> (result: Vec<(String, String)>)
        requires
            self.wf(),
        ensures
            pairs_map(result@) == self@,
    {
        let mut result: Vec<(String, String)> = Vec::new();
        let mut i: usize = 0;
        while i < self.pairs.len()
            invariant
                i <= self.pairs@.len(),
                result@ =~= self.pairs@.take(i as int),
            decreases self.pairs@.len() - i,
        {
            result.push((self.pairs[i].0.clone(), self.pairs[i].1.clone()));
            i += 1;
        }
        assert(self.pairs@.take(i as int) =~= self.pairs@);
        result
    }

    pub fn copy(&self) -> (result: Self)
        requires
            self.wf(),
        ensures
            result.wf(),
            result@ == self@,
    {
        let mut result: Vec<(String, String)> = Vec::new();
        let mut i: usize = 0;
        while i < self.pairs.len()
            invariant
                i <= self.pairs@.len(),
                result@ =~= self.pairs@.take(i as int),
            decreases self.pairs@.len() - i,
        {
            result.push((self.pairs[i].0.clone(), self.pairs[i].1.clone()));
            i += 1;
        }
        assert(self.pairs@.take(i as int) =~= self.pairs@);
        TextMap { pairs: result }
    }
}

proof fn pairs_map_len<V>(pairs: Seq<(String, V)>)
    requires
        pairs_unique(pairs),
    ensures
        pairs_map(pairs).dom().finite(),
        pairs_map(pairs).dom().len() == pairs.len(),
    decreases pairs.len(),
{
    if pairs.len() > 0 {
        let init = pairs.drop_last();
        assert forall|i: int, j: int| 0 <= i < j < init.len() implies (#[trigger] init[i]).0@ != (
        #[trigger] init[j]).0@ by {
            assert(init[i] == pairs[i] && init[j] == pairs[j]);
        }
        pairs_map_len(init);
        assert forall|i: int| 0 <= i < init.len() implies (#[trigger] init[i]).0@
            != pairs.last().0@ by {
            assert(init[i] == pairs[i]);
            assert(pairs[i].0@ != pairs[pairs.len() - 1].0@);
        }
        pairs_map_lacks(init, pairs.last().0@);
    } else {
        assert(pairs_map(pairs).dom() =~= Set::<Seq<char>>::empty());
    }
}

proof fn removed_map<V>(pairs: Seq<(String, V)>, i: int)
    requires
        pairs_unique(pairs),
        0 <= i < pairs.len(),
    ensures
        pairs_map(pairs.remove(i)) == pairs_map(pairs).remove(pairs[i].0@),
    decreases pairs.len(),
{
    let key = pairs[i].0@;
    let init = pairs.drop_last();
    assert forall|a: int, b: int| 0 <= a < b < init.len() implies (#[trigger] init[a]).0@ != (
    #[trigger] init[b]).0@ by {
        assert(init[a] == pairs[a] && init[b] == pairs[b]);
    }
    if i == pairs.len() - 1 {
        assert(pairs.remove(i) =~= init);
        assert forall|a: int| 0 <= a < init.len() implies (#[trigger] init[a]).0@ != key by {
            assert(init[a] == pairs[a]);
            assert(pairs[a].0@ != pairs[i].0@);
        }
        pairs_map_lacks(init, key);
        assert(pairs_map(pairs.remove(i)) =~= pairs_map(pairs).remove(key));
    } else {
        assert(init[i] == pairs[i]);
        removed_map(init, i);
        assert(pairs.remove(i).drop_last() =~= init.remove(i));
        assert(pairs.remove(i).last() == pairs.last());
        assert(pairs[i].0@ != pairs[pairs.len() - 1].0@);
        assert(pairs_map(pairs.remove(i)) =~= pairs_map(pairs).remove(key));
    }
}

} // verus!
