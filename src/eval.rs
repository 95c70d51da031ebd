use std::rc::Rc;
use vstd::prelude::*;
use crate::assoc::{Assoc, AssocNode};
use crate::ast::Ast;
use crate::beta::{bind_all, extend, Part};
use crate::error::WalkError;
use crate::form::{EitherPN, Form, WalkRule};
use crate::list::List;
use crate::name::Name;
use crate::value::Value;
use crate::walk::{
    neg_walk, syntax, walk, walk_body, walk_child, walk_neg, node_parts, walk_pos, walk_syntax, neg_body, neg_syntax,
    NegMode, PosMode,
};

verus! {

/// `expr` evaluated in the empty environment.
pub fn eval_top(forms: &Vec<Form>, expr: &Ast) -> (r: Result<Value, WalkError>)
    ensures
        r == walk_pos(forms@, PosMode::Eval, *expr, Assoc { n: None }),
{
    eval(forms, expr, Assoc::new())
}

/// `expr` evaluated in `env`.
pub fn eval(forms: &Vec<Form>, expr: &Ast, env: Assoc<Value>) -> (r: Result<Value, WalkError>)
    ensures
        r == walk_pos(forms@, PosMode::Eval, *expr, env),
{
    walk(forms, PosMode::Eval, expr, &env)
}

/// The bindings that matching `v` against the pattern `pat` makes, as an
/// environment of their own.
pub fn neg_eval(forms: &Vec<Form>, pat: &Ast, env: Assoc<Value>, v: &Value) -> (r: Result<Assoc<Value>, WalkError>)
    ensures
        r == (match walk_neg(forms@, NegMode::Destructure, *pat, env, *v) {
            Ok(b) => Ok(extend(Assoc { n: None }, b)),
            Err(e) => Err(e),
        }),
{
    match neg_walk(forms, NegMode::Destructure, pat, &env, v) {
        Err(e) => Err(e),
        Ok(b) => Ok(bind_all(&Assoc::new(), &b)),
    }
}

/// Whether `t` is made only of forms that are quoted and quote-matched
/// literally, with no escape out of quotation.
pub open spec fn quotable(forms: Seq<Form>, t: Ast) -> bool
    decreases t, 0int,
{
    match t {
        Ast::Node(f, body, _) => f.idx < forms.len() && forms[f.idx as int].quasiquote == EitherPN::<
            WalkRule,
            WalkRule,
        >::Both(WalkRule::LiteralLike, WalkRule::LiteralLike) && body_quotable(forms, body),
        Ast::Shape(l) => list_quotable(forms, l),
        Ast::ExtendEnv(sub, _) => quotable(forms, *sub),
        Ast::QuoteMore(sub, _) => quotable(forms, *sub),
        Ast::QuoteLess(_, _) => false,
        _ => true,
    }
}

pub open spec fn body_quotable(forms: Seq<Form>, rest: Assoc<Ast>) -> bool
    decreases rest, 1int,
{
    match rest.n {
        None => true,
        Some(nd) => quotable(forms, *nd.v) && body_quotable(forms, nd.next),
    }
}

pub open spec fn list_quotable(forms: Seq<Form>, l: List<Ast>) -> bool
    decreases l, 1int,
{
    match l {
        List::Nil => true,
        List::Cons(h, t) => quotable(forms, *h) && list_quotable(forms, *t),
    }
}

proof fn lemma_quote_self(forms: Seq<Form>, t: Ast, env: Assoc<Value>)
    requires
        quotable(forms, t),
    ensures
        walk_pos(forms, PosMode::QQuote, t, env) == Ok::<Value, WalkError>(syntax(t)),
    decreases t, 0int,
{
    if t is Node {
        lemma_body_self(forms, t->Node_1, env);
        assert(node_parts(forms, PosMode::QQuote, t->Node_1, env) == List::<Part>::Nil);
    } else if t is Shape {
        lemma_list_self(forms, t->Shape_0, env);
    } else if t is ExtendEnv {
        lemma_quote_self(forms, t.inner(), env);
        assert(Rc::new(t.inner()) == t->ExtendEnv_0);
    } else if t is QuoteMore {
        lemma_quote_self(forms, t.inner(), env);
        assert(Rc::new(t.inner()) == t->QuoteMore_0);
    }
}

proof fn lemma_body_self(forms: Seq<Form>, rest: Assoc<Ast>, env: Assoc<Value>)
    requires
        body_quotable(forms, rest),
    ensures
        walk_body(forms, PosMode::QQuote, rest, List::Nil, env) == Ok::<Assoc<Ast>, WalkError>(rest),
    decreases rest, 1int,
{
    if rest.n is Some {
        let nd = rest.n->Some_0;
        lemma_quote_self(forms, rest.first_value(), env);
        lemma_body_self(forms, rest.rest(), env);
        assert(walk_child(forms, PosMode::QQuote, rest.first_value(), List::Nil, env) == walk_pos(forms, PosMode::QQuote, rest.first_value(), env));
        assert(Rc::new(rest.first_value()) == nd.v);
        assert(Rc::new(AssocNode { k: nd.k, v: Rc::new(rest.first_value()), next: rest.rest() }) == nd);
    }
}

proof fn lemma_list_self(forms: Seq<Form>, l: List<Ast>, env: Assoc<Value>)
    requires
        list_quotable(forms, l),
    ensures
        walk_syntax(forms, PosMode::QQuote, l, env) == Ok::<List<Ast>, WalkError>(l),
    decreases l, 1int,
{
    if l is Cons {
        lemma_quote_self(forms, l.head(), env);
        lemma_list_self(forms, l.tail(), env);
    }
}

proof fn lemma_match_self(forms: Seq<Form>, t: Ast, env: Assoc<Value>)
    requires
        quotable(forms, t),
    ensures
        walk_neg(forms, NegMode::QQuoteDestr, t, env, syntax(t)) == Ok::<Seq<(Name, Value)>, WalkError>(
            Seq::empty(),
        ),
    decreases t, 0int,
{
    if t is Node {
        lemma_match_body_self(forms, t->Node_1, env);
    } else if t is Shape {
        lemma_match_list_self(forms, t->Shape_0, env);
    } else if t is ExtendEnv {
        lemma_match_self(forms, t.inner(), env);
    } else if t is QuoteMore {
        lemma_match_self(forms, t.inner(), env);
    }
}

proof fn lemma_match_body_self(forms: Seq<Form>, rest: Assoc<Ast>, env: Assoc<Value>)
    requires
        body_quotable(forms, rest),
    ensures
        neg_body(forms, NegMode::QQuoteDestr, rest, rest, env) == Ok::<Seq<(Name, Value)>, WalkError>(
            Seq::empty(),
        ),
    decreases rest, 1int,
{
    if rest.n is Some {
        {
            lemma_match_self(forms, rest.first_value(), env);
            lemma_match_body_self(forms, rest.rest(), env);
            assert(Seq::<(Name, Value)>::empty() + Seq::<(Name, Value)>::empty() =~= Seq::<(Name, Value)>::empty());
        }
    }
}

proof fn lemma_match_list_self(forms: Seq<Form>, l: List<Ast>, env: Assoc<Value>)
    requires
        list_quotable(forms, l),
    ensures
        neg_syntax(forms, NegMode::QQuoteDestr, l, l, env) == Ok::<Seq<(Name, Value)>, WalkError>(
            Seq::empty(),
        ),
    decreases l, 1int,
{
    if l is Cons {
        {
            lemma_match_self(forms, l.head(), env);
            lemma_match_list_self(forms, l.tail(), env);
            assert(Seq::<(Name, Value)>::empty() + Seq::<(Name, Value)>::empty() =~= Seq::<(Name, Value)>::empty());
        }
    }
}

/// Quotation round trip: a term made only of literally quoted forms quotes to
/// itself, and matching that quotation against the term as a quoted pattern
/// succeeds with no bindings.
pub proof fn quote_round_trip(forms: Seq<Form>, t: Ast, env: Assoc<Value>)
    requires
        quotable(forms, t),
    ensures
        walk_pos(forms, PosMode::Eval, Ast::QuoteMore(Rc::new(t), true), env) == Ok::<Value, WalkError>(
            syntax(t),
        ),
        walk_neg(
            forms,
            NegMode::Destructure,
            Ast::QuoteMore(Rc::new(t), false),
            env,
            walk_pos(forms, PosMode::Eval, Ast::QuoteMore(Rc::new(t), true), env)->Ok_0,
        ) == Ok::<Seq<(Name, Value)>, WalkError>(Seq::empty()),
{
    lemma_quote_self(forms, t, env);
    lemma_match_self(forms, t, env);
}

/// Determinism: evaluating the same tree twice in the same environment gives
/// equal results.
pub proof fn evaluation_is_deterministic(
    forms: Seq<Form>,
    t: Ast,
    env: Assoc<Value>,
    r1: Result<Value, WalkError>,
    r2: Result<Value, WalkError>,
)
    requires
        r1 == walk_pos(forms, PosMode::Eval, t, env),
        r2 == walk_pos(forms, PosMode::Eval, t, env),
    ensures
        r1 == r2,
{
}

} // verus!
