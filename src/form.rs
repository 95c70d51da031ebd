use vstd::prelude::*;
use vstd::string::*;
use crate::assoc::Assoc;
use crate::name::Name;
use crate::show::{name_text, write_name};

verus! {

/// A rule that may exist for the positive walk, the negative walk, or both.
pub enum EitherPN<L, R> {
    Positive(L),
    Negative(R),
    Both(L, R),
}

impl<L, R> EitherPN<L, R> {
    pub open spec fn has_pos(&self) -> bool {
        !(self is Negative)
    }

    pub open spec fn has_neg(&self) -> bool {
        !(self is Positive)
    }

    /// The positive half. Asking a negative-only pair for it is a wiring fault,
    /// so it is not allowed.
    pub fn pos(&self) -> (r: &L)
        requires
            self.has_pos(),
        ensures
            match *self {
                EitherPN::Positive(l) => *r == l,
                EitherPN::Both(l, _) => *r == l,
                EitherPN::Negative(_) => false,
            },
    {
        match self {
            EitherPN::Positive(l) => l,
            EitherPN::Both(l, _) => l,
            EitherPN::Negative(_) => unreached(),
        }
    }

    /// The negative half. Asking a positive-only pair for it is a wiring fault,
    /// so it is not allowed.
    pub fn neg(&self) -> (r: &R)
        requires
            self.has_neg(),
        ensures
            match *self {
                EitherPN::Negative(rr) => *r == rr,
                EitherPN::Both(_, rr) => *r == rr,
                EitherPN::Positive(_) => false,
            },
    {
        match self {
            EitherPN::Negative(r) => r,
            EitherPN::Both(_, r) => r,
            EitherPN::Positive(_) => unreached(),
        }
    }

    pub fn is_pos(&self) -> (r: bool)
        ensures
            r == self.has_pos(),
    {
        match self {
            EitherPN::Negative(_) => false,
            _ => true,
        }
    }

    pub fn is_neg(&self) -> (r: bool)
        ensures
            r == self.has_neg(),
    {
        match self {
            EitherPN::Positive(_) => false,
            _ => true,
        }
    }
}

/// How a walk treats a node of some form.
#[derive(Clone, Copy, Debug, PartialEq, Eq, Structural)]
pub enum WalkRule {
    /// The pass does not look inside: the tree itself is the result.
    NotWalked,
    /// Walk every sub-tree and reassemble the node from the results.
    LiteralLike,
    /// The node stands for the sub-tree under this key; its result is that one's.
    Sub(Name),
}

/// A walk rule for each direction of a pass.
pub type BiDiWR = EitherPN<WalkRule, WalkRule>;

/// What a node kind does in each pass.
pub struct Form {
    /// For diagnostics.
    pub name: Name,
    /// The type pass: synthesis and unpacking.
    pub synth_type: BiDiWR,
    /// The evaluation pass: evaluation and destructuring.
    pub eval: BiDiWR,
    /// The quasiquotation pass: quotation and quote-matching.
    pub quasiquote: BiDiWR,
    /// The phase shift of names imported into a macro body.
    pub relative_phase: Assoc<i32>,
}

/// A form that only describes syntax: no type or evaluation behaviour, and it is
/// quoted and quote-matched literally.
pub fn simple_form(form_name: Name) -> (r: Form)
    ensures
        r.name == form_name,
        r.synth_type == EitherPN::<WalkRule, WalkRule>::Positive(WalkRule::NotWalked),
        r.eval == EitherPN::<WalkRule, WalkRule>::Positive(WalkRule::NotWalked),
        r.quasiquote == EitherPN::<WalkRule, WalkRule>::Both(
            WalkRule::LiteralLike,
            WalkRule::LiteralLike,
        ),
        r.relative_phase.entries().len() == 0,
{
    Form {
        name: form_name,
        synth_type: EitherPN::Positive(WalkRule::NotWalked),
        eval: EitherPN::Positive(WalkRule::NotWalked),
        quasiquote: EitherPN::Both(WalkRule::LiteralLike, WalkRule::LiteralLike),
        relative_phase: Assoc::new(),
    }
}

impl Form {
    /// The form as text, for diagnostics.
    pub fn describe(&self) -> (r: String)
        ensures
            r@ == "[FORM "@ + name_text(self.name) + "]"@,
    {
        let mut out = String::new();
        out.append("[FORM ");
        write_name(&mut out, self.name);
        out.append("]");
        assert(out@ =~= "[FORM "@ + name_text(self.name) + "]"@);
        out
    }
}

} // verus!
