use std::rc::Rc;
use vstd::prelude::*;
use crate::assoc::Assoc;
use crate::beta::Beta;
use crate::list::List;
use crate::name::Name;

verus! {

/// A reference to a form in a registry. Forms are compared by identity, that is
/// by this index.
#[derive(Clone, Copy, Debug, PartialEq, Eq, Structural)]
pub struct FormId {
    pub idx: usize,
}

/// An immutable syntax tree.
pub enum Ast {
    Trivial,
    /// A name that is not a reference: a binder, a field label, a keyword.
    Atom(Name),
    VariableReference(Name),
    /// A use of a form: its named sub-trees, and which of the bindings it makes
    /// are visible outside it.
    Node(FormId, Assoc<Ast>, Rc<Beta>),
    /// An ordered group of sub-trees, as a repeated position produces.
    Shape(List<Ast>),
    /// The sub-tree is walked in an environment extended by the scope spec.
    ExtendEnv(Rc<Ast>, Rc<Beta>),
    /// One more level of quotation; the flag tells a positive quotation from a
    /// negative one.
    QuoteMore(Rc<Ast>, bool),
    /// An escape out of quotation.
    QuoteLess(Rc<Ast>, u32),
}

impl Ast {
    /// The tree that a wrapper wraps.
    pub open spec fn inner(self) -> Ast {
        match self {
            Ast::ExtendEnv(sub, _) => *sub,
            Ast::QuoteMore(sub, _) => *sub,
            Ast::QuoteLess(sub, _) => *sub,
            _ => Ast::Trivial,
        }
    }

    /// Another handle on the same tree.
    pub fn share(&self) -> (r: Ast)
        ensures
            r == *self,
    {
        match self {
            Ast::Trivial => Ast::Trivial,
            Ast::Atom(n) => Ast::Atom(*n),
            Ast::VariableReference(n) => Ast::VariableReference(*n),
            Ast::Node(f, body, ex) => Ast::Node(*f, body.share(), Rc::clone(ex)),
            Ast::Shape(l) => Ast::Shape(l.share()),
            Ast::ExtendEnv(sub, b) => Ast::ExtendEnv(Rc::clone(sub), Rc::clone(b)),
            Ast::QuoteMore(sub, p) => Ast::QuoteMore(Rc::clone(sub), *p),
            Ast::QuoteLess(sub, d) => Ast::QuoteLess(Rc::clone(sub), *d),
        }
    }
}

} // verus!
