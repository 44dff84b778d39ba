//! A table of values under names.
use crate::text::same_text;
use vstd::prelude::*;

verus! {

/// Values under names, no name twice. The order is that in which the names first came.
pub struct Registry<V> {
    entries: Vec<(String, V)>,
}

impl<V> Registry<V> {
    /// The names with their values, in order.
    pub closed spec fn entries(self) -> Seq<(Seq<char>, V)> {
        Seq::new(self.entries@.len(), |i: int| (self.entries@[i].0@, self.entries@[i].1))
    }

    /// No name stands twice.
    pub open spec fn wf(self) -> bool {
        forall|i: int, j: int|
            0 <= i < j < self.entries().len() ==> #[trigger] self.entries()[i].0
                != #[trigger] self.entries()[j].0
    }

    /// The position of a name.
    pub open spec fn position(self, name: Seq<char>, i: int) -> bool {
        0 <= i < self.entries().len() && self.entries()[i].0 == name
    }
}

impl<V> View for Registry<V> {
    type V = Map<Seq<char>, V>;

    open spec fn view(&self) -> Map<Seq<char>, V> {
        Map::new(
            |name: Seq<char>| exists|i: int| self.position(name, i),
            |name: Seq<char>| self.entries()[choose|i: int| self.position(name, i)].1,
        )
    }
}

/// What stands at a position is what the table holds under that name.
pub proof fn entry_is_held<V>(registry: Registry<V>, i: int)
    requires
        registry.wf(),
        0 <= i < registry.entries().len(),
    ensures
        registry@.contains_pair(registry.entries()[i].0, registry.entries()[i].1),
{
    let name = registry.entries()[i].0;
    assert(registry.position(name, i));
    let j = choose|j: int| registry.position(name, j);
    assert(registry.position(name, j));
    assert(i == j);
}

impl<V> Registry<V> {
    /// A table that holds nothing.
    pub fn new() -> (registry: Registry<V>)
        ensures
            registry.wf(),
            registry.entries() == Seq::<(Seq<char>, V)>::empty(),
            registry@ == Map::<Seq<char>, V>::empty(),
    {
        let registry: Registry<V> = Registry { entries: Vec::new() };
        assert(registry.entries() =~= Seq::empty());
        assert(registry@ =~= Map::empty());
        registry
    }

    /// How many names there are.
    pub fn len(&self) -> (len: usize)
        ensures
            len == self.entries().len(),
    {
        self.entries.len()
    }

    /// The value at a position.
    pub fn value_at(&self, i: usize) -> (value: &V)
        requires
            i < self.entries().len(),
        ensures
            *value == self.entries()[i as int].1,
    {
        &self.entries[i].1
    }

    /// The position of a name, if it is there.
    fn find(&self, name: &str) -> (found: Option<usize>)
        ensures
            match found {
                Some(i) => self.position(name@, i as int),
                None => forall|i: int| !#[trigger] self.position(name@, i),
            },
    {
        let mut i: usize = 0;
        while i < self.entries.len()
            invariant
                i <= self.entries.len(),
                forall|k: int| 0 <= k < i ==> !#[trigger] self.position(name@, k),
            decreases self.entries.len() - i,
        {
            if same_text(self.entries[i].0.as_str(), name) {
                return Some(i);
            }
            i += 1;
        }
        None
    }

    /// The value under a name.
    pub fn get(&self, name: &str) -> (value: Option<&V>)
        requires
            self.wf(),
        ensures
            match value {
                Some(value) => self@.contains_pair(name@, *value),
                None => !self@.contains_key(name@),
            },
    {
        match self.find(name) {
            Some(i) => {
                proof {
                    entry_is_held(*self, i as int);
                }
                Some(&self.entries[i].1)
            },
            None => None,
        }
    }

    /// Whether there is a value under a name.
    pub fn contains(&self, name: &str) -> (held: bool)
        requires
            self.wf(),
        ensures
            held == self@.contains_key(name@),
    {
        self.get(name).is_some()
    }

    /// Puts a value under a name, in place of the one that stands there.
    pub fn insert(&mut self, name: &str, value: V)
        requires
            old(self).wf(),
        ensures
            final(self).wf(),
            final(self)@ == old(self)@.insert(name@, value),
            final(self).entries().len() == if old(self)@.contains_key(name@) {
                old(self).entries().len()
            } else {
                old(self).entries().len() + 1
            },
    {
        let found: Option<usize> = self.find(name);
        match found {
            Some(i) => {
                self.entries.set(i, (name.to_owned(), value));
                assert(self.entries() =~= old(self).entries().update(i as int, (name@, value)));
                assert(old(self)@.contains_key(name@)) by {
                    entry_is_held(*old(self), i as int);
                }
            },
            None => {
                self.entries.push((name.to_owned(), value));
                assert(self.entries() =~= old(self).entries().push((name@, value)));
                assert forall|i: int| 0 <= i < old(self).entries().len() implies #[trigger] old(
                    self,
                ).entries()[i].0 != name@ by {
                    assert(!old(self).position(name@, i));
                }
            },
        }
        let ghost before = *old(self);
        let ghost at = match found {
            Some(i) => i as int,
            None => before.entries().len() as int,
        };
        assert(self.wf());
        assert forall|k: Seq<char>| #[trigger]
            self@.contains_key(k) == before@.insert(name@, value).contains_key(k) by {
            if k == name@ {
                assert(self.position(k, at));
            } else {
                if before@.contains_key(k) {
                    let i = choose|i: int| before.position(k, i);
                    assert(self.position(k, i));
                }
                if self@.contains_key(k) {
                    let i = choose|i: int| self.position(k, i);
                    assert(before.position(k, i));
                }
            }
        }
        assert forall|k: Seq<char>| #[trigger] self@.contains_key(k) implies self@[k]
            == before@.insert(name@, value)[k] by {
            if k == name@ {
                entry_is_held(*self, at);
            } else {
                let i = choose|i: int| self.position(k, i);
                assert(before.position(k, i));
                entry_is_held(*self, i);
                entry_is_held(before, i);
            }
        }
        assert(self@ =~= before@.insert(name@, value));
    }
}

} // verus!
