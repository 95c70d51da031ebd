use std::rc::Rc;
use vstd::prelude::*;
use crate::assoc::Assoc;
use crate::ast::Ast;
use crate::bignum::BigNum;
use crate::list::List;
use crate::name::Name;

verus! {

/// A function of the host, compared by identity.
#[derive(Clone, Copy, Debug, PartialEq, Eq, Structural)]
pub struct BIF {
    pub id: u64,
}

/// A function value: its body, its parameters and the environment it closed over.
pub struct Closure {
    pub body: Ast,
    pub params: List<Name>,
    pub env: Assoc<Value>,
}

/// A runtime datum.
pub enum Value {
    Int(Rc<BigNum>),
    Sequence(List<Value>),
    Function(Rc<Closure>),
    BuiltInFunction(BIF),
    /// Syntax, as quotation builds it.
    AbstractSyntax(Ast),
    Struct(Assoc<Value>),
    Enum(Name, List<Value>),
}

impl Value {
    /// Another handle on the same value.
    pub fn share(&self) -> (r: Value)
        ensures
            r == *self,
    {
        match self {
            Value::Int(i) => Value::Int(Rc::clone(i)),
            Value::Sequence(l) => Value::Sequence(l.share()),
            Value::Function(c) => Value::Function(Rc::clone(c)),
            Value::BuiltInFunction(b) => Value::BuiltInFunction(*b),
            Value::AbstractSyntax(a) => Value::AbstractSyntax(a.share()),
            Value::Struct(fs) => Value::Struct(fs.share()),
            Value::Enum(n, ps) => Value::Enum(*n, ps.share()),
        }
    }

    /// Syntax as a value.
    pub fn from_ast(a: &Ast) -> (r: Value)
        ensures
            r == Value::AbstractSyntax(*a),
    {
        Value::AbstractSyntax(a.share())
    }

    /// The syntax that a syntax value holds. Any other value here is a type error
    /// that type checking rules out.
    pub fn to_ast(&self) -> (r: Ast)
        requires
            self is AbstractSyntax,
        ensures
            *self == Value::AbstractSyntax(r),
    {
        match self {
            Value::AbstractSyntax(a) => a.share(),
            _ => unreached(),
        }
    }
}

} // verus!
