use vstd::prelude::*;
use crate::name::Name;

verus! {

/// A broken invariant of the implementation or of a tree that bypassed the
/// parser. Unlike a mismatch it is no property of the program being run: the
/// request that met it must be abandoned, never reported as a program error.
#[derive(Clone, Copy, Debug, PartialEq, Eq, Structural)]
pub enum Fault {
    /// A form was asked for the half of a rule pair that it lacks.
    WrongDirection,
    /// A variable was not bound, which type checking should have ruled out.
    Unbound(Name),
    /// The driver groups of a repetition differ in length.
    UnequalRepetition,
    /// A node body, or a scope spec, names a key that is not there.
    MissingKey(Name),
    /// A node refers to no registered form.
    UnknownForm,
    /// A result that had to be syntax was some other value.
    NotSyntax,
    /// The pass cannot bind a name whose type is inferred elsewhere.
    Underspecified(Name),
    /// The pass has no rule for this kind of tree.
    NoRule,
}

/// Why a walk produced no result.
#[derive(Clone, Copy, Debug, PartialEq, Eq, Structural)]
pub enum WalkError {
    /// An expected failure: a pattern or quoted literal did not match.
    Mismatch,
    /// An internal-consistency fault.
    Fault(Fault),
}

} // verus!
