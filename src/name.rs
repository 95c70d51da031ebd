use vstd::prelude::*;

verus! {

/// An identifier, interned: two names are the same binder or reference iff their
/// ids are equal.
#[derive(Clone, Copy, Debug, PartialEq, Eq, Structural)]
pub struct Name {
    pub id: u64,
}

impl Name {
    pub fn new(id: u64) -> (r: Name)
        ensures
            r.id == id,
    {
        Name { id }
    }

    pub fn same(&self, other: &Name) -> (r: bool)
        ensures
            r == (*self == *other),
    {
        self.id == other.id
    }
}

} // verus!
