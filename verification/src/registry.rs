//! The registry of the types of a schema.

use vstd::prelude::*;

verus! {

/// The names after `name` has been registered among `names`: a name that is
/// there already is not added a second time.
pub open spec fn with_type(names: Seq<Seq<char>>, name: Seq<char>) -> Seq<Seq<char>> {
    if names.contains(name) {
        names
    } else {
        names.push(name)
    }
}

/// The types that a schema knows of, by name.
pub struct Registry {
    types: Vec<String>,
}

impl View for Registry {
    type V = Seq<Seq<char>>;

    /// The names of the registered types, in the order in which they came.
    closed spec fn view(&self) -> Seq<Seq<char>> {
        Seq::new(self.types@.len(), |i: int| self.types@[i]@)
    }
}

impl Registry {
    /// Whether no name is registered twice. This holds of a new registry,
    /// and registering keeps it.
    pub open spec fn well_formed(&self) -> bool {
        self@.no_duplicates()
    }

    /// A registry that knows of no type.
    pub fn new() -> (registry: Self)
        ensures
            registry@ == Seq::<Seq<char>>::empty(),
            registry.well_formed(),
    {
        let registry = Registry { types: Vec::new() };
        registry
    }

    /// The number of registered types.
    pub fn len(&self) -> (len: usize)
        ensures
            len == self@.len(),
    {
        self.types.len()
    }

    /// Whether a type named `name` is registered.
    pub fn contains(&self, name: &String) -> (found: bool)
        ensures
            found == self@.contains(name@),
    {
        let mut i: usize = 0;
        while i < self.types.len()
            invariant
                i <= self.types@.len(),
                forall|k: int| 0 <= k < i ==> self@[k] != name@,
            decreases self.types.len() - i,
        {
            if self.types[i] == *name {
                assert(self@[i as int] == name@);
                return true;
            }
            i += 1;
        }
        false
    }

    /// Registers a type named `name`, unless one of that name is registered
    /// already.
    pub fn register(&mut self, name: String)
        ensures
            final(self)@ == with_type(old(self)@, name@),
            old(self).well_formed() ==> final(self).well_formed(),
    {
        if !self.contains(&name) {
            self.types.push(name);
        }
    }
}

} // verus!
