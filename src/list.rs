use std::rc::Rc;
use vstd::prelude::*;

verus! {

/// A persistent sequence: a cons list whose cells are shared, never mutated.
pub enum List<T> {
    Nil,
    Cons(Rc<T>, Rc<List<T>>),
}

impl<T> List<T> {
    pub open spec fn view(self) -> Seq<T>
        decreases self,
    {
        match self {
            List::Nil => Seq::empty(),
            List::Cons(h, t) => seq![*h] + (*t).view(),
        }
    }

    pub open spec fn head(self) -> T {
        *self->Cons_0
    }

    pub open spec fn tail(self) -> List<T> {
        *self->Cons_1
    }

    /// Another handle on the same cells.
    pub fn share(&self) -> (r: List<T>)
        ensures
            r == *self,
    {
        match self {
            List::Nil => List::Nil,
            List::Cons(h, t) => List::Cons(Rc::clone(h), Rc::clone(t)),
        }
    }

    pub fn cons(h: T, t: List<T>) -> (r: List<T>)
        ensures
            r == List::Cons(Rc::new(h), Rc::new(t)),
            r.view() == seq![h] + t.view(),
    {
        List::Cons(Rc::new(h), Rc::new(t))
    }

    /// The element at position `i`.
    pub fn nth(&self, i: usize) -> (r: &T)
        requires
            i < self.view().len(),
        ensures
            *r == self.view()[i as int],
        decreases self,
    {
        match self {
            List::Nil => unreached(),
            List::Cons(h, t) => {
                if i == 0 {
                    &**h
                } else {
                    t.nth(i - 1)
                }
            },
        }
    }

    pub fn len(&self) -> (r: usize)
        requires
            self.view().len() <= usize::MAX,
        ensures
            r == self.view().len(),
        decreases self,
    {
        match self {
            List::Nil => 0,
            List::Cons(_, t) => 1 + t.len(),
        }
    }
}

} // verus!
