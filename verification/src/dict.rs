//! Mappings from names to values, held as lists of named entries in which a
//! later entry of a name replaces an earlier one.

use vstd::prelude::*;

verus! {

/// What can stand as a value in a mapping: it has a model, can be compared
/// by it and copied.
pub trait Entry: Sized {
    /// What a value means.
    type Model;

    /// What this value means.
    spec fn model(&self) -> Self::Model;

    /// Whether two values mean the same.
    fn same(&self, other: &Self) -> (same: bool)
        ensures
            same == (self.model() == other.model()),
    ;

    /// A copy that means the same.
    fn copy(&self) -> (copy: Self)
        ensures
            copy.model() == self.model(),
    ;
}

/// The mapping that a list of named entries stands for: each name is mapped
/// to the model of its last entry.
pub open spec fn mapping<V: Entry>(entries: Seq<(String, V)>) -> Map<Seq<char>, V::Model>
    decreases entries.len(),
{
    if entries.len() == 0 {
        Map::empty()
    } else {
        mapping(entries.drop_last()).insert(entries.last().0@, entries.last().1.model())
    }
}

/// A mapping from names to values, as a list of named entries.
pub struct Dict<V> {
    pub entries: Vec<(String, V)>,
}

impl<V: Entry> Dict<V> {
    /// The mapping that the list stands for.
    pub open spec fn model(&self) -> Map<Seq<char>, V::Model> {
        mapping(self.entries@)
    }

    /// The mapping that holds nothing.
    pub fn new() -> (dict: Self)
        ensures
            dict.model() == Map::<Seq<char>, V::Model>::empty(),
    {
        Dict { entries: Vec::new() }
    }

    /// Index of the entry that counts for `name`: the last of that name.
    fn position(&self, name: &str) -> (found: Option<usize>)
        ensures
            match found {
                Some(i) => {
                    &&& i < self.entries.len()
                    &&& self.entries[i as int].0@ == name@
                    &&& self.model().contains_key(name@)
                    &&& self.model()[name@] == self.entries[i as int].1.model()
                },
                None => !self.model().contains_key(name@),
            },
    {
        let mut i: usize = self.entries.len();
        assert(self.entries@.take(i as int) =~= self.entries@);
        while i > 0
            invariant
                i <= self.entries.len(),
                self.model().contains_key(name@) == mapping(
                    self.entries@.take(i as int),
                ).contains_key(name@),
                self.model().contains_key(name@) ==> self.model()[name@] == mapping(
                    self.entries@.take(i as int),
                )[name@],
            decreases i,
        {
            let ghost seen = self.entries@.take(i as int);
            assert(seen.drop_last() =~= self.entries@.take(i - 1));
            assert(seen.last() == self.entries[i - 1]);
            i -= 1;
            if *self.entries[i].0.as_str() == *name {
                return Some(i);
            }
        }
        None
    }

    /// Whether the mapping has an entry for `name`.
    pub fn contains(&self, name: &str) -> (found: bool)
        ensures
            found == self.model().contains_key(name@),
    {
        self.position(name).is_some()
    }

    /// The value of `name`.
    pub fn get(&self, name: &str) -> (value: Option<&V>)
        ensures
            match value {
                Some(v) => self.model().contains_key(name@) && self.model()[name@] == v.model(),
                None => !self.model().contains_key(name@),
            },
    {
        match self.position(name) {
            Some(i) => Some(&self.entries[i].1),
            None => None,
        }
    }

    /// Maps `name` to `value`, in place of what it was mapped to.
    pub fn insert(&mut self, name: String, value: V)
        ensures
            final(self).model() == old(self).model().insert(name@, value.model()),
    {
        let ghost before = self.entries@;
        self.entries.push((name, value));
        assert(self.entries@.drop_last() =~= before);
    }

    /// Whether every name of this mapping has the same value in `other`.
    fn within(&self, other: &Self) -> (within: bool)
        ensures
            within == (forall|name: Seq<char>| #[trigger]
                self.model().contains_key(name) ==> other.model().contains_key(name)
                    && other.model()[name] == self.model()[name]),
    {
        let mut i: usize = 0;
        while i < self.entries.len()
            invariant
                i <= self.entries.len(),
                forall|k: int|
                    0 <= k < i ==> {
                        let name = (#[trigger] self.entries[k]).0@;
                        other.model().contains_key(name) && other.model()[name]
                            == self.model()[name]
                    },
            decreases self.entries.len() - i,
        {
            let name = self.entries[i].0.as_str();
            proof {
                lemma_mapping_has_all_names(self.entries@, i as int);
            }
            let same = match (self.get(name), other.get(name)) {
                (Some(mine), Some(theirs)) => mine.same(theirs),
                _ => false,
            };
            if !same {
                return false;
            }
            i += 1;
        }
        proof {
            assert forall|name: Seq<char>| #[trigger]
                self.model().contains_key(name) implies other.model().contains_key(name)
                && other.model()[name] == self.model()[name] by {
                lemma_mapping_names_come_from_entries(self.entries@, name);
            }
        }
        true
    }

    /// A copy that stands for the same mapping.
    pub fn duplicate(&self) -> (copy: Self)
        ensures
            copy.model() == self.model(),
    {
        let mut entries: Vec<(String, V)> = Vec::new();
        let mut i: usize = 0;
        assert(self.entries@.take(0) =~= Seq::<(String, V)>::empty());
        while i < self.entries.len()
            invariant
                i <= self.entries.len(),
                entries.len() == i,
                mapping(entries@) == mapping(self.entries@.take(i as int)),
            decreases self.entries.len() - i,
        {
            let ghost before = entries@;
            let name = self.entries[i].0.clone();
            let value = self.entries[i].1.copy();
            entries.push((name, value));
            proof {
                let seen = self.entries@.take(i + 1);
                assert(seen.drop_last() =~= self.entries@.take(i as int));
                assert(seen.last() == self.entries[i as int]);
                assert(entries@.drop_last() =~= before);
            }
            i += 1;
        }
        assert(self.entries@.take(i as int) =~= self.entries@);
        Dict { entries }
    }
}

/// Every entry's name is a name of the mapping.
pub proof fn lemma_mapping_has_all_names<V: Entry>(entries: Seq<(String, V)>, k: int)
    requires
        0 <= k < entries.len(),
    ensures
        mapping(entries).contains_key(entries[k].0@),
    decreases entries.len(),
{
    if k < entries.len() - 1 {
        lemma_mapping_has_all_names(entries.drop_last(), k);
    }
}

/// Every name of the mapping is the name of some entry.
pub proof fn lemma_mapping_names_come_from_entries<V: Entry>(
    entries: Seq<(String, V)>,
    name: Seq<char>,
)
    requires
        mapping(entries).contains_key(name),
    ensures
        exists|k: int| 0 <= k < entries.len() && (#[trigger] entries[k]).0@ == name,
    decreases entries.len(),
{
    if entries.len() > 0 {
        if entries.last().0@ == name {
            assert(entries[entries.len() - 1].0@ == name);
        } else {
            lemma_mapping_names_come_from_entries(entries.drop_last(), name);
            let k = choose|k: int|
                0 <= k < entries.drop_last().len() && (#[trigger] entries.drop_last()[k]).0@
                    == name;
            assert(entries[k].0@ == name);
        }
    }
}

impl<V: Entry> Entry for Dict<V> {
    type Model = Map<Seq<char>, V::Model>;

    open spec fn model(&self) -> Map<Seq<char>, V::Model> {
        mapping(self.entries@)
    }

    fn same(&self, other: &Self) -> (same: bool) {
        let forth = self.within(other);
        let back = other.within(self);
        proof {
            if forth && back {
                assert(self.model() =~= other.model());
            }
        }
        forth && back
    }

    fn copy(&self) -> (copy: Self) {
        self.duplicate()
    }
}

} // verus!
