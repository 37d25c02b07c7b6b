//! The world space: a mapping from object name to object.
//!
//! The store keeps its entries as a vector of name/object pairs with
//! pairwise-distinct names, in insertion order.  It is populated at
//! startup through the importer and replaced wholesale on every animation
//! tick; inserting an existing name overwrites that object, as a map would.

use crate::object::Object;
use vstd::prelude::*;

verus! {

/// One entry of the world space: an object under its unique name.
pub struct NamedObject {
    pub name: String,
    pub object: Object,
}

/// The collection of all currently placed objects, keyed by name.
pub struct WorldSpace {
    pub entries: Vec<NamedObject>,
}

impl WorldSpace {
    /// No two entries share a name.
    pub open spec fn names_unique(&self) -> bool {
        forall|i: int, j: int| 0 <= i < j < self.entries.len() ==>
            (#[trigger] self.entries[i]).name@ != (#[trigger] self.entries[j]).name@
    }

    /// Some entry bears this name.
    pub open spec fn contains_name(&self, n: Seq<char>) -> bool {
        exists|i: int| 0 <= i < self.entries.len() && (#[trigger] self.entries[i]).name@ == n
    }

    /// The position of the entry bearing this name.
    pub open spec fn index_of(&self, n: Seq<char>) -> int {
        choose|i: int| 0 <= i < self.entries.len() && (#[trigger] self.entries[i]).name@ == n
    }

    /// The empty world space.
    pub fn new() -> (r: WorldSpace)
        ensures
            r.entries@ == Seq::<NamedObject>::empty(),
    {
        WorldSpace { entries: Vec::new() }
    }

    /// The number of objects currently stored.
    pub fn len(&self) -> (n: usize)
        ensures
            n == self.entries.len(),
    {
        self.entries.len()
    }

    /// Stores `object` under `name`: overwrites the entry with that name
    /// if one exists, and appends a new entry otherwise.
    pub fn insert(&mut self, name: String, object: Object)
        requires
            old(self).names_unique(),
            old(self).entries.len() < usize::MAX,
        ensures
            final(self).names_unique(),
            final(self).contains_name(name@),
            if old(self).contains_name(name@) {
                {
                    let k = old(self).index_of(name@);
                    &&& final(self).entries.len() == old(self).entries.len()
                    &&& final(self).entries[k].name@ == name@
                    &&& final(self).entries[k].object == object
                    &&& forall|j: int| 0 <= j < old(self).entries.len() && j != k ==>
                        #[trigger] final(self).entries[j] == old(self).entries[j]
                }
            } else {
                {
                    &&& final(self).entries.len() == old(self).entries.len() + 1
                    &&& final(self).entries[old(self).entries.len() as int].name@ == name@
                    &&& final(self).entries[old(self).entries.len() as int].object == object
                    &&& forall|j: int| 0 <= j < old(self).entries.len() ==>
                        #[trigger] final(self).entries[j] == old(self).entries[j]
                }
            },
    {
        let mut i: usize = 0;
        while i < self.entries.len()
            invariant
                *self == *old(self),
                old(self).names_unique(),
                old(self).entries.len() < usize::MAX,
                i <= self.entries.len(),
                forall|j: int| 0 <= j < i ==> (#[trigger] self.entries[j]).name@ != name@,
            decreases self.entries.len() - i,
        {
            if self.entries[i].name == name {
                proof {
                    assert(self.entries[i as int].name@ == name@);
                    assert(old(self).contains_name(name@));
                    let k = old(self).index_of(name@);
                    assert(0 <= k < old(self).entries.len() && old(self).entries[k].name@ == name@);
                    assert(k == i as int);
                }
                self.entries.set(i, NamedObject { name, object });
                proof {
                    assert(self.entries[i as int].name@ == name@);
                    assert(self.contains_name(name@));
                }
                return ;
            }
            i = i + 1;
        }
        proof {
            assert(!old(self).contains_name(name@));
        }
        self.entries.push(NamedObject { name, object });
        proof {
            assert(final(self).contains_name(name@)) by {
                assert(final(self).entries[old(self).entries.len() as int].name@ == name@);
            }
        }
    }

    /// Looks an object up by name; reports "not found" for a name no
    /// entry bears.
    pub fn get(&self, name: &String) -> (r: Option<&Object>)
        ensures
            match r {
                Some(o) => {
                    &&& self.contains_name(name@)
                    &&& exists|i: int| 0 <= i < self.entries.len()
                        && (#[trigger] self.entries[i]).name@ == name@
                        && *o == self.entries[i].object
                },
                None => !self.contains_name(name@),
            },
    {
        let mut i: usize = 0;
        while i < self.entries.len()
            invariant
                i <= self.entries.len(),
                forall|j: int| 0 <= j < i ==> (#[trigger] self.entries[j]).name@ != name@,
            decreases self.entries.len() - i,
        {
            if self.entries[i].name == *name {
                return Some(&self.entries[i].object);
            }
            i = i + 1;
        }
        None
    }
}

} // verus!
