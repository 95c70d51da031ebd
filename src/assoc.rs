use std::rc::Rc;
use vstd::prelude::*;
use crate::name::Name;

verus! {

/// One binding of an environment, with the environment it extends.
pub struct AssocNode<V> {
    pub k: Name,
    pub v: Rc<V>,
    pub next: Assoc<V>,
}

/// A persistent, insertion-ordered map from names to values. Extending it
/// returns a new handle that shares the old one; no holder ever sees another's
/// extension. The newest binding of a name hides the older ones.
pub struct Assoc<V> {
    pub n: Option<Rc<AssocNode<V>>>,
}

impl<V> Assoc<V> {
    /// The bindings, newest first.
    pub open spec fn entries(self) -> Seq<(Name, V)>
        decreases self,
    {
        match self.n {
            None => Seq::empty(),
            Some(node) => seq![(node.k, *node.v)] + node.next.entries(),
        }
    }

    /// What a name is bound to: its newest binding.
    pub open spec fn lookup(self, k: Name) -> Option<V>
        decreases self,
    {
        match self.n {
            None => None,
            Some(node) => if node.k == k {
                Some(*node.v)
            } else {
                node.next.lookup(k)
            },
        }
    }

    /// The newest binding's value.
    pub open spec fn first_value(self) -> V {
        *self.n->Some_0.v
    }

    /// The bindings older than the newest.
    pub open spec fn rest(self) -> Assoc<V> {
        self.n->Some_0.next
    }

    pub fn new() -> (r: Assoc<V>)
        ensures
            r.entries() == Seq::<(Name, V)>::empty(),
            forall|k: Name| r.lookup(k).is_none(),
    {
        Assoc { n: None }
    }

    /// Another handle on the same bindings.
    pub fn share(&self) -> (r: Assoc<V>)
        ensures
            r == *self,
    {
        match &self.n {
            None => Assoc { n: None },
            Some(node) => Assoc { n: Some(Rc::clone(node)) },
        }
    }

    pub fn is_empty(&self) -> (r: bool)
        ensures
            r == (self.entries().len() == 0),
    {
        self.n.is_none()
    }

    /// A new environment with `k` bound to `v`; `self` is left as it was.
    pub fn set(&self, k: Name, v: V) -> (r: Assoc<V>)
        ensures
            r == (Assoc { n: Some(Rc::new(AssocNode { k, v: Rc::new(v), next: *self })) }),
            r.entries() == seq![(k, v)] + self.entries(),
            r.lookup(k) == Some(v),
            forall|j: Name| j != k ==> r.lookup(j) == self.lookup(j),
    {
        let node = AssocNode { k, v: Rc::new(v), next: self.share() };
        Assoc { n: Some(Rc::new(node)) }
    }

    /// The value that `k` is bound to, if any.
    pub fn find(&self, k: &Name) -> (r: Option<&V>)
        ensures
            match r {
                None => self.lookup(*k).is_none(),
                Some(v) => self.lookup(*k) == Some(*v),
            },
        decreases self,
    {
        match &self.n {
            None => None,
            Some(node) => {
                if node.k.same(k) {
                    Some(&*node.v)
                } else {
                    node.next.find(k)
                }
            },
        }
    }
}

} // verus!
