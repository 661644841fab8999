//! A map from strings to values, kept as a list of pairs; a later pair for
//! the same key replaces an earlier one, as a hash map's `insert` does.
use vstd::prelude::*;

verus! {

/// The map that a list of (key, value) pairs stands for: a later pair for
/// the same key replaces an earlier one.
pub open spec fn pairs_map<V: View>(pairs: Seq<(String, V)>) -> Map<Seq<char>, V::V>
    decreases pairs.len(),
{
    if pairs.len() == 0 {
        Map::empty()
    } else {
        pairs_map(pairs.drop_last()).insert(pairs.last().0@, pairs.last().1@)
    }
}

/// Values keyed by strings.
pub struct TextMap<V> {
    pairs: Vec<(String, V)>,
}

impl<V: View> View for TextMap<V> {
    type V = Map<Seq<char>, V::V>;

    closed spec fn view(&self) -> Map<Seq<char>, V::V> {
        pairs_map(self.pairs@)
    }
}

/// Updating the last pair of a key updates the map at that key.
proof fn lemma_pairs_map_update<V: View>(pairs: Seq<(String, V)>, j: int, key: String, value: V)
    requires
        0 <= j < pairs.len(),
        pairs[j].0@ == key@,
        forall|k: int| j < k < pairs.len() ==> (#[trigger] pairs[k]).0@ != key@,
    ensures
        pairs_map(pairs.update(j, (key, value))) == pairs_map(pairs).insert(key@, value@),
    decreases pairs.len(),
{
    let upd = pairs.update(j, (key, value));
    if j == pairs.len() - 1 {
        assert(upd.drop_last() =~= pairs.drop_last());
        assert(pairs_map(upd) =~= pairs_map(pairs).insert(key@, value@));
    } else {
        assert(pairs[pairs.len() - 1].0@ != key@);
        assert(upd.drop_last() =~= pairs.drop_last().update(j, (key, value)));
        lemma_pairs_map_update(pairs.drop_last(), j, key, value);
        assert(pairs_map(upd) =~= pairs_map(pairs).insert(key@, value@));
    }
}

/// A key that no pair holds is not in the map.
proof fn lemma_pairs_map_absent<V: View>(pairs: Seq<(String, V)>, key: Seq<char>)
    requires
        forall|k: int| 0 <= k < pairs.len() ==> (#[trigger] pairs[k]).0@ != key,
    ensures
        !pairs_map(pairs).contains_key(key),
    decreases pairs.len(),
{
    if pairs.len() > 0 {
        lemma_pairs_map_absent(pairs.drop_last(), key);
    }
}

/// The map at the key of the last pair holding it is that pair's value.
proof fn lemma_pairs_map_found<V: View>(pairs: Seq<(String, V)>, j: int, key: Seq<char>)
    requires
        0 <= j < pairs.len(),
        pairs[j].0@ == key,
        forall|k: int| j < k < pairs.len() ==> (#[trigger] pairs[k]).0@ != key,
    ensures
        pairs_map(pairs).contains_key(key),
        pairs_map(pairs)[key] == pairs[j].1@,
    decreases pairs.len(),
{
    if j < pairs.len() - 1 {
        lemma_pairs_map_found(pairs.drop_last(), j, key);
    }
}

impl<V: View> TextMap<V> {
    /// No entries.
    pub fn new() -> (res: Self)
        ensures
            res@ == Map::<Seq<char>, V::V>::empty(),
    {
        TextMap { pairs: Vec::new() }
    }

    /// The position of the last pair for `key`, if any.
    fn find(&self, key: &String) -> (res: Option<usize>)
        ensures
            match res {
                Some(j) => j < self.pairs@.len() && self.pairs@[j as int].0@ == key@ && forall|k: int|
                    j < k < self.pairs@.len() ==> (#[trigger] self.pairs@[k]).0@ != key@,
                None => forall|k: int|
                    0 <= k < self.pairs@.len() ==> (#[trigger] self.pairs@[k]).0@ != key@,
            },
    {
        let mut j = self.pairs.len();
        while j > 0
            invariant
                j <= self.pairs@.len(),
                forall|k: int| j <= k < self.pairs@.len() ==> (#[trigger] self.pairs@[k]).0@ != key@,
            decreases j,
        {
            if self.pairs[j - 1].0 == *key {
                return Some(j - 1);
            }
            j = j - 1;
        }
        None
    }

    /// The value for a key, if there is one.
    pub fn get(&self, key: &str) -> (res: Option<&V>)
        ensures
            match res {
                Some(t) => self@.contains_key(key@) && t@ == self@[key@],
                None => !self@.contains_key(key@),
            },
    {
        let k = String::from_str(key);
        match self.find(&k) {
            Some(j) => {
                proof {
                    lemma_pairs_map_found(self.pairs@, j as int, key@);
                }
                Some(&self.pairs[j].1)
            },
            None => {
                proof {
                    lemma_pairs_map_absent(self.pairs@, key@);
                }
                None
            },
        }
    }

    /// Sets the value for a key, replacing any earlier one.
    pub fn insert(&mut self, key: String, value: V)
        ensures
            final(self)@ == old(self)@.insert(key@, value@),
    {
        match self.find(&key) {
            Some(j) => {
                proof {
                    lemma_pairs_map_update(self.pairs@, j as int, key, value);
                }
                self.pairs.set(j, (key, value));
            },
            None => {
                let ghost before = self.pairs@;
                self.pairs.push((key, value));
                assert(self.pairs@.drop_last() =~= before);
            },
        }
    }

    /// The stored pairs, for writing the map out.
    pub fn pairs(&self) -> (res: &Vec<(String, V)>)
        ensures
            pairs_map(res@) == self@,
    {
        &self.pairs
    }
}

} // verus!
