//! The core of a small typed language with syntactic macros: syntax trees,
//! persistent environments, forms with bidirectional walk rules, the scope
//! algebra that every pass honours, and the evaluation and quasiquotation
//! walks over trees; besides, values and trees as text, and the line syntax of
//! an interactive session and of its prelude file.

pub mod name;
pub mod assoc;
pub mod list;
pub mod error;
pub mod form;
pub mod ast;
pub mod beta;
pub mod bignum;
pub mod value;
pub mod walk;
pub mod eval;
pub mod session;
pub mod show;
