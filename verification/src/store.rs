//! A map from entity names to what is known of each entity.

use vstd::hash_map::StringHashMap;
use vstd::prelude::*;

verus! {

/// Per-entity records, found by name. A name occurs at most once, and the records can be
/// walked one by one.
pub struct Store<S> {
    names: Vec<String>,
    records: Vec<S>,
    /// Where in `names` and `records` each name stands.
    index: StringHashMap<usize>,
}

/// What the records and the index amount to as a map.
spec fn contents<S: View>(records: Seq<S>, index: Map<Seq<char>, usize>) -> Map<Seq<char>, S::V> {
    index.map_values(|i: usize| records[i as int]@)
}

impl<S: View> View for Store<S> {
    type V = Map<Seq<char>, S::V>;

    closed spec fn view(&self) -> Map<Seq<char>, S::V> {
        contents(self.records@, self.index@)
    }
}

/// The value that the map holds for the key, or else the given one.
pub open spec fn value_or<V>(map: Map<Seq<char>, V>, key: Seq<char>, otherwise: V) -> V {
    if map.contains_key(key) {
        map[key]
    } else {
        otherwise
    }
}

/// The value that the map holds for the key, if any.
pub open spec fn value_at<V>(map: Map<Seq<char>, V>, key: Seq<char>) -> Option<V> {
    if map.contains_key(key) {
        Some(map[key])
    } else {
        None
    }
}

impl<S> Store<S> {
    #[verifier::type_invariant]
    spec fn well_formed(self) -> bool {
        &&& self.names@.len() == self.records@.len()
        &&& forall|k: Seq<char>| #[trigger] self.index@.contains_key(k) ==> {
            &&& self.index@[k] < self.names@.len()
            &&& self.names@[self.index@[k] as int]@ == k
        }
        &&& forall|i: int| 0 <= i < self.names@.len() ==> {
            &&& self.index@.contains_key(#[trigger] self.names@[i]@)
            &&& self.index@[self.names@[i]@] == i
        }
    }

    /// The names in the order in which the store is walked.
    pub closed spec fn walk(self) -> Seq<Seq<char>> {
        self.names@.map_values(|n: String| n@)
    }
}

impl<S: View> Store<S> {
    pub fn new() -> (r: Self)
        ensures
            r@ == Map::<Seq<char>, S::V>::empty(),
    {
        let r = Store { names: Vec::new(), records: Vec::new(), index: StringHashMap::new() };
        assert(r@ =~= Map::<Seq<char>, S::V>::empty());
        r
    }

    /// The record of a name, if there is one.
    pub fn get(&self, name: &str) -> (r: Option<&S>)
        ensures
            match r {
                Some(s) => self@.contains_key(name@) && s@ == self@[name@],
                None => !self@.contains_key(name@),
            },
    {
        proof {
            use_type_invariant(self);
        }
        match self.index.get(name) {
            Some(i) => Some(&self.records[*i]),
            None => None,
        }
    }

    /// Adds a record under a name that has none yet.
    fn add(&mut self, name: &str, record: S)
        requires
            !old(self)@.contains_key(name@),
        ensures
            final(self)@ == old(self)@.insert(name@, record@),
    {
        proof {
            use_type_invariant(&*self);
        }
        let mut whole = Store { names: Vec::new(), records: Vec::new(), index: StringHashMap::new() };
        std::mem::swap(self, &mut whole);
        let Store { mut names, mut records, mut index } = whole;
        index.insert(name.to_owned(), names.len());
        names.push(name.to_owned());
        records.push(record);
        *self = Store { names, records, index };
        assert(self@ =~= old(self)@.insert(name@, record@));
    }

    /// The record of a name, for changing it. A name without a record gets `otherwise` first.
    pub fn entry(&mut self, name: &str, otherwise: S) -> (r: &mut S)
        ensures
            (*r)@ == value_or(old(self)@, name@, otherwise@),
            final(self)@ == old(self)@.insert(name@, (*final(r))@),
    {
        if !self.index.contains_key(name) {
            self.add(name, otherwise);
        }
        assert(self@.contains_key(name@));
        let i: usize = *self.index.get(name).unwrap();
        proof {
            use_type_invariant(&*self);
            assert(self@[name@] == self.records@[i as int]@);
            assert forall|v: S| #[trigger]
                contents(self.records@.update(i as int, v), self.index@) == old(self)@.insert(
                    name@,
                    v@,
                ) by {
                let after = contents(self.records@.update(i as int, v), self.index@);
                assert forall|k: Seq<char>| after.contains_key(k) implies after[k]
                    == self@.insert(name@, v@)[k] by {
                    assert(self.index@.contains_key(k));
                    assert(self@[k] == self.records@[self.index@[k] as int]@);
                }
                assert(after =~= self@.insert(name@, v@));
                assert(self@.insert(name@, v@) =~= old(self)@.insert(name@, v@));
            }
        }
        &mut self.records[i]
    }

    /// The number of names. A walk meets every name of the map, and each only once.
    pub fn len(&self) -> (r: usize)
        ensures
            r == self.walk().len(),
            self.walk().no_duplicates(),
            forall|k: Seq<char>| #[trigger] self@.contains_key(k) <==> self.walk().contains(k),
    {
        proof {
            use_type_invariant(self);
            assert forall|i: int, j: int|
                0 <= i < self.walk().len() && 0 <= j < self.walk().len() && i
                    != j implies self.walk()[i] != self.walk()[j] by {
                assert(self.index@[self.names@[i]@] == i);
                assert(self.index@[self.names@[j]@] == j);
            }
            assert forall|k: Seq<char>| #[trigger]
                self@.contains_key(k) implies self.walk().contains(k) by {
                assert(self.index@.contains_key(k));
                assert(self.walk()[self.index@[k] as int] == k);
            }
            assert forall|k: Seq<char>| self.walk().contains(k) implies #[trigger]
            self@.contains_key(k) by {
                let i = choose|i: int| 0 <= i < self.walk().len() && self.walk()[i] == k;
                assert(self.index@.contains_key(self.names@[i]@));
            }
        }
        self.names.len()
    }

    /// The name at a position of the walk, and its record.
    pub fn at(&self, i: usize) -> (r: (&str, &S))
        requires
            i < self.walk().len(),
        ensures
            r.0@ == self.walk()[i as int],
            self@.contains_key(r.0@),
            r.1@ == self@[r.0@],
    {
        proof {
            use_type_invariant(self);
            assert(self.index@.contains_key(self.names@[i as int]@));
        }
        (self.names[i].as_str(), &self.records[i])
    }
}

} // verus!
