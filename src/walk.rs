use std::rc::Rc;
use vstd::prelude::*;
use crate::assoc::{Assoc, AssocNode};
use crate::ast::{Ast, FormId};
use crate::beta::{extend_scope, scope_env, share_res, Part, Rep};
use crate::error::{Fault, WalkError};
use crate::form::{EitherPN, Form, WalkRule};
use crate::list::List;
use crate::name::Name;
use crate::value::Value;

verus! {

/// A positive walk: it builds a result from a tree.
#[derive(Clone, Copy, Debug, PartialEq, Eq, Structural)]
pub enum PosMode {
    /// Reduces a term to a value.
    Eval,
    /// Builds syntax from a template.
    QQuote,
}

/// A negative walk: it matches a tree against a value and yields bindings.
#[derive(Clone, Copy, Debug, PartialEq, Eq, Structural)]
pub enum NegMode {
    /// Matches a value against a pattern.
    Destructure,
    /// Matches syntax against a quoted pattern.
    QQuoteDestr,
}

impl PosMode {
    /// The negative walk that a sub-position in this mode uses to match.
    pub fn negated(self) -> (r: NegMode)
        ensures
            r == pos_negated(self),
    {
        match self {
            PosMode::Eval => NegMode::Destructure,
            PosMode::QQuote => NegMode::QQuoteDestr,
        }
    }

    /// Whether the bindings of a scope spec extend the environment of the
    /// sub-tree by themselves, or a rule must thread them.
    pub fn automatically_extend_env(self) -> (r: bool)
        ensures
            r == pos_extends(self),
    {
        match self {
            PosMode::Eval => true,
            PosMode::QQuote => false,
        }
    }
}

impl NegMode {
    pub fn negated(self) -> (r: PosMode)
        ensures
            pos_negated(r) == self,
    {
        match self {
            NegMode::Destructure => PosMode::Eval,
            NegMode::QQuoteDestr => PosMode::QQuote,
        }
    }

    pub fn automatically_extend_env(self) -> (r: bool)
        ensures
            r == (self is Destructure),
    {
        match self {
            NegMode::Destructure => true,
            NegMode::QQuoteDestr => false,
        }
    }

    /// Whether binders in the pattern must be resolved before matching: plain
    /// values carry no binders, quoted syntax does.
    pub fn needs_pre_match(self) -> (r: bool)
        ensures
            r == (self is QQuoteDestr),
    {
        match self {
            NegMode::Destructure => false,
            NegMode::QQuoteDestr => true,
        }
    }
}

pub open spec fn pos_negated(m: PosMode) -> NegMode {
    match m {
        PosMode::Eval => NegMode::Destructure,
        PosMode::QQuote => NegMode::QQuoteDestr,
    }
}

pub open spec fn pos_extends(m: PosMode) -> bool {
    m is Eval
}

/// The unit result.
pub open spec fn unit() -> Value {
    Value::Sequence(List::Nil)
}

pub open spec fn syntax(a: Ast) -> Value {
    Value::AbstractSyntax(a)
}

/// The rule pair of form `f` for the pass that `m` belongs to.
pub open spec fn pos_pair(forms: Seq<Form>, m: PosMode, f: FormId) -> EitherPN<WalkRule, WalkRule> {
    match m {
        PosMode::Eval => forms[f.idx as int].eval,
        PosMode::QQuote => forms[f.idx as int].quasiquote,
    }
}

pub open spec fn neg_pair(forms: Seq<Form>, m: NegMode, f: FormId) -> EitherPN<WalkRule, WalkRule> {
    match m {
        NegMode::Destructure => forms[f.idx as int].eval,
        NegMode::QQuoteDestr => forms[f.idx as int].quasiquote,
    }
}

/// The rule of form `f` in positive mode `m`.
pub open spec fn pos_rule(forms: Seq<Form>, m: PosMode, f: FormId) -> Result<WalkRule, WalkError> {
    if f.idx >= forms.len() {
        Err(WalkError::Fault(Fault::UnknownForm))
    } else {
        match pos_pair(forms, m, f) {
            EitherPN::Positive(r) => Ok(r),
            EitherPN::Both(r, _) => Ok(r),
            EitherPN::Negative(_) => Err(WalkError::Fault(Fault::WrongDirection)),
        }
    }
}

/// The rule of form `f` in negative mode `m`.
pub open spec fn neg_rule(forms: Seq<Form>, m: NegMode, f: FormId) -> Result<WalkRule, WalkError> {
    if f.idx >= forms.len() {
        Err(WalkError::Fault(Fault::UnknownForm))
    } else {
        match neg_pair(forms, m, f) {
            EitherPN::Negative(r) => Ok(r),
            EitherPN::Both(_, r) => Ok(r),
            EitherPN::Positive(_) => Err(WalkError::Fault(Fault::WrongDirection)),
        }
    }
}

pub open spec fn atom_of(t: Ast) -> Option<Name> {
    match t {
        Ast::Atom(n) => Some(n),
        _ => None,
    }
}

/// Whether some position of the body extends the environment.
pub open spec fn has_extend(rest: Assoc<Ast>) -> bool
    decreases rest,
{
    match rest.n {
        None => false,
        Some(nd) => (*nd.v is ExtendEnv) || has_extend(nd.next),
    }
}

/// A walk result that must be syntax, as the syntax.
pub open spec fn as_syntax(r: Result<Value, WalkError>) -> Result<Ast, WalkError> {
    match r {
        Err(e) => Err(e),
        Ok(Value::AbstractSyntax(a)) => Ok(a),
        Ok(_) => Err(WalkError::Fault(Fault::NotSyntax)),
    }
}

pub open spec fn wrap(r: Result<Ast, WalkError>) -> Result<Value, WalkError> {
    match r {
        Err(e) => Err(e),
        Ok(a) => Ok(syntax(a)),
    }
}

/// The positive walk of `t` in mode `m`.
pub open spec fn walk_pos(forms: Seq<Form>, m: PosMode, t: Ast, env: Assoc<Value>) -> Result<Value, WalkError>
    decreases t, 0int,
{
    match t {
        Ast::Trivial => match m {
            PosMode::QQuote => Ok(syntax(Ast::Trivial)),
            PosMode::Eval => Ok(unit()),
        },
        Ast::Atom(n) => match m {
            PosMode::QQuote => Ok(syntax(Ast::Atom(n))),
            PosMode::Eval => Err(WalkError::Fault(Fault::NoRule)),
        },
        Ast::VariableReference(n) => match m {
            PosMode::QQuote => Ok(syntax(Ast::VariableReference(n))),
            PosMode::Eval => match env.lookup(n) {
                Some(v) => Ok(v),
                None => Err(WalkError::Fault(Fault::Unbound(n))),
            },
        },
        Ast::Node(f, body, ex) => match pos_rule(forms, m, f) {
            Err(e) => Err(e),
            Ok(WalkRule::NotWalked) => Ok(syntax(t)),
            Ok(WalkRule::LiteralLike) => {
                let parts = node_parts(forms, m, body, env);
                match walk_body(forms, m, body, parts, env) {
                    Err(e) => Err(e),
                    Ok(b) => Ok(syntax(Ast::Node(f, b, ex))),
                }
            },
            Ok(WalkRule::Sub(k)) => walk_key(forms, m, body, k, node_parts(forms, m, body, env), env),
        },
        Ast::Shape(l) => match m {
            PosMode::Eval => match walk_values(forms, m, l, env) {
                Err(e) => Err(e),
                Ok(vs) => Ok(Value::Sequence(vs)),
            },
            PosMode::QQuote => match walk_syntax(forms, m, l, env) {
                Err(e) => Err(e),
                Ok(ts) => Ok(syntax(Ast::Shape(ts))),
            },
        },
        Ast::ExtendEnv(sub, beta) => if pos_extends(m) {
            match scope_env(*beta, Seq::empty(), env) {
                Err(e) => Err(e),
                Ok(env2) => walk_pos(forms, m, *sub, env2),
            }
        } else {
            match as_syntax(walk_pos(forms, m, *sub, env)) {
                Err(e) => Err(e),
                Ok(a) => Ok(syntax(Ast::ExtendEnv(Rc::new(a), beta))),
            }
        },
        Ast::QuoteMore(sub, p) => match m {
            PosMode::Eval => walk_pos(forms, PosMode::QQuote, *sub, env),
            PosMode::QQuote => match as_syntax(walk_pos(forms, m, *sub, env)) {
                Err(e) => Err(e),
                Ok(a) => Ok(syntax(Ast::QuoteMore(Rc::new(a), p))),
            },
        },
        Ast::QuoteLess(sub, _) => match m {
            PosMode::QQuote => wrap(as_syntax(walk_pos(forms, PosMode::Eval, *sub, env))),
            PosMode::Eval => Err(WalkError::Fault(Fault::NoRule)),
        },
    }
}

/// The parts that the scope specs of a node's positions read: present only where
/// the mode extends environments by itself and some position does.
pub open spec fn node_parts(forms: Seq<Form>, m: PosMode, body: Assoc<Ast>, env: Assoc<Value>) -> List<Part>
    decreases body, 1int,
{
    if pos_extends(m) && has_extend(body) {
        parts_of(forms, m, body, env)
    } else {
        List::Nil
    }
}

/// Each position's name, result and repetitions. A position that extends the
/// environment is no source of bindings: its scope may depend on the others.
pub open spec fn parts_of(forms: Seq<Form>, m: PosMode, rest: Assoc<Ast>, env: Assoc<Value>) -> List<Part>
    decreases rest, 0int,
{
    match rest.n {
        None => List::Nil,
        Some(nd) => {
            let c = *nd.v;
            let reps = match c {
                Ast::Shape(l) => reps_of(forms, m, l, env),
                _ => List::Nil,
            };
            List::Cons(
                Rc::new(
                    Part {
                        key: nd.k,
                        atom: atom_of(c),
                        res: if c is ExtendEnv {
                            Err(WalkError::Fault(Fault::MissingKey(nd.k)))
                        } else {
                            walk_pos(forms, m, c, env)
                        },
                        reps,
                    },
                ),
                Rc::new(parts_of(forms, m, nd.next, env)),
            )
        },
    }
}

pub open spec fn reps_of(forms: Seq<Form>, m: PosMode, l: List<Ast>, env: Assoc<Value>) -> List<Rep>
    decreases l, 0int,
{
    match l {
        List::Nil => List::Nil,
        List::Cons(h, t) => List::Cons(
            Rc::new(Rep { atom: atom_of(*h), res: walk_pos(forms, m, *h, env) }),
            Rc::new(reps_of(forms, m, *t, env)),
        ),
    }
}

/// One position of a node, walked in the environment that its scope spec gives.
pub open spec fn walk_child(forms: Seq<Form>, m: PosMode, c: Ast, parts: List<Part>, env: Assoc<Value>) -> Result<Value, WalkError>
    decreases c, 1int,
{
    match c {
        Ast::ExtendEnv(sub, beta) => if pos_extends(m) {
            match scope_env(*beta, parts.view(), env) {
                Err(e) => Err(e),
                Ok(env2) => walk_pos(forms, m, *sub, env2),
            }
        } else {
            walk_pos(forms, m, c, env)
        },
        _ => walk_pos(forms, m, c, env),
    }
}

/// Every position walked, each to syntax, and reassembled in order.
pub open spec fn walk_body(forms: Seq<Form>, m: PosMode, rest: Assoc<Ast>, parts: List<Part>, env: Assoc<Value>) -> Result<Assoc<Ast>, WalkError>
    decreases rest, 2int,
{
    match rest.n {
        None => Ok(Assoc { n: None }),
        Some(nd) => match as_syntax(walk_child(forms, m, *nd.v, parts, env)) {
            Err(e) => Err(e),
            Ok(a) => match walk_body(forms, m, nd.next, parts, env) {
                Err(e) => Err(e),
                Ok(b) => Ok(Assoc { n: Some(Rc::new(AssocNode { k: nd.k, v: Rc::new(a), next: b })) }),
            },
        },
    }
}

/// The position under key `k`, walked.
pub open spec fn walk_key(forms: Seq<Form>, m: PosMode, rest: Assoc<Ast>, k: Name, parts: List<Part>, env: Assoc<Value>) -> Result<Value, WalkError>
    decreases rest, 2int,
{
    match rest.n {
        None => Err(WalkError::Fault(Fault::MissingKey(k))),
        Some(nd) => if nd.k == k {
            walk_child(forms, m, *nd.v, parts, env)
        } else {
            walk_key(forms, m, nd.next, k, parts, env)
        },
    }
}

/// The elements of a group, walked to values.
pub open spec fn walk_values(forms: Seq<Form>, m: PosMode, l: List<Ast>, env: Assoc<Value>) -> Result<List<Value>, WalkError>
    decreases l, 2int,
{
    match l {
        List::Nil => Ok(List::Nil),
        List::Cons(h, t) => match walk_pos(forms, m, *h, env) {
            Err(e) => Err(e),
            Ok(v) => match walk_values(forms, m, *t, env) {
                Err(e) => Err(e),
                Ok(vs) => Ok(List::Cons(Rc::new(v), Rc::new(vs))),
            },
        },
    }
}

/// The elements of a group, walked to syntax.
pub open spec fn walk_syntax(forms: Seq<Form>, m: PosMode, l: List<Ast>, env: Assoc<Value>) -> Result<List<Ast>, WalkError>
    decreases l, 2int,
{
    match l {
        List::Nil => Ok(List::Nil),
        List::Cons(h, t) => match as_syntax(walk_pos(forms, m, *h, env)) {
            Err(e) => Err(e),
            Ok(a) => match walk_syntax(forms, m, *t, env) {
                Err(e) => Err(e),
                Ok(ts) => Ok(List::Cons(Rc::new(a), Rc::new(ts))),
            },
        },
    }
}

fn lookup_rule(forms: &Vec<Form>, m: PosMode, f: FormId) -> (r: Result<WalkRule, WalkError>)
    ensures
        r == pos_rule(forms@, m, f),
{
    if f.idx >= forms.len() {
        return Err(WalkError::Fault(Fault::UnknownForm));
    }
    let form = &forms[f.idx];
    let pair = match m {
        PosMode::Eval => &form.eval,
        PosMode::QQuote => &form.quasiquote,
    };
    if pair.is_pos() {
        Ok(*pair.pos())
    } else {
        Err(WalkError::Fault(Fault::WrongDirection))
    }
}

fn to_syntax(r: Result<Value, WalkError>) -> (o: Result<Ast, WalkError>)
    ensures
        o == as_syntax(r),
{
    match r {
        Err(e) => Err(e),
        Ok(Value::AbstractSyntax(a)) => Ok(a),
        Ok(_) => Err(WalkError::Fault(Fault::NotSyntax)),
    }
}

fn atom_name(t: &Ast) -> (r: Option<Name>)
    ensures
        r == atom_of(*t),
{
    match t {
        Ast::Atom(n) => Some(*n),
        _ => None,
    }
}

fn any_extend(rest: &Assoc<Ast>) -> (r: bool)
    ensures
        r == has_extend(*rest),
    decreases rest,
{
    match &rest.n {
        None => false,
        Some(nd) => match &*nd.v {
            Ast::ExtendEnv(_, _) => true,
            _ => any_extend(&nd.next),
        },
    }
}

/// The positive walk of `t` in mode `m`, under the forms of `forms`.
pub fn walk(forms: &Vec<Form>, m: PosMode, t: &Ast, env: &Assoc<Value>) -> (r: Result<Value, WalkError>)
    ensures
        r == walk_pos(forms@, m, *t, *env),
    decreases t, 0int,
{
    match t {
        Ast::Trivial => match m {
            PosMode::QQuote => Ok(Value::AbstractSyntax(Ast::Trivial)),
            PosMode::Eval => Ok(Value::Sequence(List::Nil)),
        },
        Ast::Atom(n) => match m {
            PosMode::QQuote => Ok(Value::AbstractSyntax(Ast::Atom(*n))),
            PosMode::Eval => Err(WalkError::Fault(Fault::NoRule)),
        },
        Ast::VariableReference(n) => match m {
            PosMode::QQuote => Ok(Value::AbstractSyntax(Ast::VariableReference(*n))),
            PosMode::Eval => match env.find(n) {
                Some(v) => Ok(v.share()),
                None => Err(WalkError::Fault(Fault::Unbound(*n))),
            },
        },
        Ast::Node(f, body, ex) => match lookup_rule(forms, m, *f) {
            Err(e) => Err(e),
            Ok(WalkRule::NotWalked) => Ok(Value::AbstractSyntax(t.share())),
            Ok(WalkRule::LiteralLike) => {
                let memo = m.automatically_extend_env() && any_extend(body);
                let parts = if memo {
                    parts_exec(forms, m, body, env)
                } else {
                    List::Nil
                };
                assert(parts == node_parts(forms@, m, *body, *env));
                let cache = if memo {
                    Some(&parts)
                } else {
                    None
                };
                match walk_body_exec(forms, m, body, cache, &parts, env) {
                    Err(e) => Err(e),
                    Ok(b) => Ok(Value::AbstractSyntax(Ast::Node(*f, b, Rc::clone(ex)))),
                }
            },
            Ok(WalkRule::Sub(k)) => {
                let memo = m.automatically_extend_env() && any_extend(body);
                let parts = if memo {
                    parts_exec(forms, m, body, env)
                } else {
                    List::Nil
                };
                assert(parts == node_parts(forms@, m, *body, *env));
                let cache = if memo {
                    Some(&parts)
                } else {
                    None
                };
                walk_key_exec(forms, m, body, k, cache, &parts, env)
            },
        },
        Ast::Shape(l) => match m {
            PosMode::Eval => match walk_values_exec(forms, m, l, env) {
                Err(e) => Err(e),
                Ok(vs) => Ok(Value::Sequence(vs)),
            },
            PosMode::QQuote => match walk_syntax_exec(forms, m, l, env) {
                Err(e) => Err(e),
                Ok(ts) => Ok(Value::AbstractSyntax(Ast::Shape(ts))),
            },
        },
        Ast::ExtendEnv(sub, beta) => {
            if m.automatically_extend_env() {
                match extend_scope(beta, &List::Nil, env) {
                    Err(e) => Err(e),
                    Ok(env2) => walk(forms, m, sub, &env2),
                }
            } else {
                match to_syntax(walk(forms, m, sub, env)) {
                    Err(e) => Err(e),
                    Ok(a) => Ok(Value::AbstractSyntax(Ast::ExtendEnv(Rc::new(a), Rc::clone(beta)))),
                }
            }
        },
        Ast::QuoteMore(sub, p) => match m {
            PosMode::Eval => walk(forms, PosMode::QQuote, sub, env),
            PosMode::QQuote => match to_syntax(walk(forms, m, sub, env)) {
                Err(e) => Err(e),
                Ok(a) => Ok(Value::AbstractSyntax(Ast::QuoteMore(Rc::new(a), *p))),
            },
        },
        Ast::QuoteLess(sub, _) => match m {
            PosMode::QQuote => match to_syntax(walk(forms, PosMode::Eval, sub, env)) {
                Err(e) => Err(e),
                Ok(a) => Ok(Value::AbstractSyntax(a)),
            },
            PosMode::Eval => Err(WalkError::Fault(Fault::NoRule)),
        },
    }
}

fn parts_exec(forms: &Vec<Form>, m: PosMode, rest: &Assoc<Ast>, env: &Assoc<Value>) -> (r: List<Part>)
    ensures
        r == parts_of(forms@, m, *rest, *env),
    decreases rest, 0int,
{
    match &rest.n {
        None => List::Nil,
        Some(nd) => {
            let c: &Ast = &nd.v;
            let reps = match c {
                Ast::Shape(l) => reps_exec(forms, m, l, env),
                _ => List::Nil,
            };
            let res = match c {
                Ast::ExtendEnv(_, _) => Err(WalkError::Fault(Fault::MissingKey(nd.k))),
                _ => walk(forms, m, c, env),
            };
            let part = Part { key: nd.k, atom: atom_name(c), res, reps };
            List::cons(part, parts_exec(forms, m, &nd.next, env))
        },
    }
}

fn reps_exec(forms: &Vec<Form>, m: PosMode, l: &List<Ast>, env: &Assoc<Value>) -> (r: List<Rep>)
    ensures
        r == reps_of(forms@, m, *l, *env),
    decreases l, 0int,
{
    match l {
        List::Nil => List::Nil,
        List::Cons(h, t) => {
            let rep = Rep { atom: atom_name(h), res: walk(forms, m, h, env) };
            List::cons(rep, reps_exec(forms, m, t, env))
        },
    }
}

fn walk_child_exec(forms: &Vec<Form>, m: PosMode, c: &Ast, parts: &List<Part>, env: &Assoc<Value>) -> (r: Result<Value, WalkError>)
    ensures
        r == walk_child(forms@, m, *c, *parts, *env),
    decreases c, 1int,
{
    match c {
        Ast::ExtendEnv(sub, beta) => {
            if m.automatically_extend_env() {
                match extend_scope(beta, parts, env) {
                    Err(e) => Err(e),
                    Ok(env2) => walk(forms, m, sub, &env2),
                }
            } else {
                walk(forms, m, c, env)
            }
        },
        _ => walk(forms, m, c, env),
    }
}

/// The result of position `c`, taken from the cache where one is kept and the
/// position's result is in it.
fn cached_child(
    forms: &Vec<Form>,
    m: PosMode,
    c: &Ast,
    cache: Option<&List<Part>>,
    parts: &List<Part>,
    env: &Assoc<Value>,
) -> (r: Result<Value, WalkError>)
    requires
        cache matches Some(cs) ==> (*cs is Cons && (*cs).head().res == (if *c is ExtendEnv {
            Err(WalkError::Fault(Fault::MissingKey((*cs).head().key)))
        } else {
            walk_pos(forms@, m, *c, *env)
        })),
    ensures
        r == walk_child(forms@, m, *c, *parts, *env),
    decreases c, 2int,
{
    match c {
        Ast::ExtendEnv(_, _) => walk_child_exec(forms, m, c, parts, env),
        _ => match cache {
            Some(List::Cons(h, _)) => share_res(&h.res),
            _ => walk_child_exec(forms, m, c, parts, env),
        },
    }
}

fn cache_tail<'a>(cache: Option<&'a List<Part>>) -> (r: Option<&'a List<Part>>)
    requires
        cache matches Some(cs) ==> *cs is Cons,
    ensures
        cache matches Some(cs) ==> (r matches Some(t) && *t == (*cs).tail()),
        cache is None ==> r is None,
{
    match cache {
        Some(List::Cons(_, t)) => Some(&**t),
        _ => None,
    }
}

fn walk_body_exec(
    forms: &Vec<Form>,
    m: PosMode,
    rest: &Assoc<Ast>,
    cache: Option<&List<Part>>,
    parts: &List<Part>,
    env: &Assoc<Value>,
) -> (r: Result<Assoc<Ast>, WalkError>)
    requires
        cache matches Some(cs) ==> *cs == parts_of(forms@, m, *rest, *env),
    ensures
        r == walk_body(forms@, m, *rest, *parts, *env),
    decreases rest, 2int,
{
    match &rest.n {
        None => Ok(Assoc { n: None }),
        Some(nd) => match to_syntax(cached_child(forms, m, &nd.v, cache, parts, env)) {
            Err(e) => Err(e),
            Ok(a) => match walk_body_exec(forms, m, &nd.next, cache_tail(cache), parts, env) {
                Err(e) => Err(e),
                Ok(b) => Ok(Assoc { n: Some(Rc::new(AssocNode { k: nd.k, v: Rc::new(a), next: b })) }),
            },
        },
    }
}

fn walk_key_exec(
    forms: &Vec<Form>,
    m: PosMode,
    rest: &Assoc<Ast>,
    k: Name,
    cache: Option<&List<Part>>,
    parts: &List<Part>,
    env: &Assoc<Value>,
) -> (r: Result<Value, WalkError>)
    requires
        cache matches Some(cs) ==> *cs == parts_of(forms@, m, *rest, *env),
    ensures
        r == walk_key(forms@, m, *rest, k, *parts, *env),
    decreases rest, 2int,
{
    match &rest.n {
        None => Err(WalkError::Fault(Fault::MissingKey(k))),
        Some(nd) => {
            if nd.k.same(&k) {
                cached_child(forms, m, &nd.v, cache, parts, env)
            } else {
                walk_key_exec(forms, m, &nd.next, k, cache_tail(cache), parts, env)
            }
        },
    }
}

fn walk_values_exec(forms: &Vec<Form>, m: PosMode, l: &List<Ast>, env: &Assoc<Value>) -> (r: Result<List<Value>, WalkError>)
    ensures
        r == walk_values(forms@, m, *l, *env),
    decreases l, 2int,
{
    match l {
        List::Nil => Ok(List::Nil),
        List::Cons(h, t) => match walk(forms, m, h, env) {
            Err(e) => Err(e),
            Ok(v) => match walk_values_exec(forms, m, t, env) {
                Err(e) => Err(e),
                Ok(vs) => Ok(List::cons(v, vs)),
            },
        },
    }
}

fn walk_syntax_exec(forms: &Vec<Form>, m: PosMode, l: &List<Ast>, env: &Assoc<Value>) -> (r: Result<List<Ast>, WalkError>)
    ensures
        r == walk_syntax(forms@, m, *l, *env),
    decreases l, 2int,
{
    match l {
        List::Nil => Ok(List::Nil),
        List::Cons(h, t) => match to_syntax(walk(forms, m, h, env)) {
            Err(e) => Err(e),
            Ok(a) => match walk_syntax_exec(forms, m, t, env) {
                Err(e) => Err(e),
                Ok(ts) => Ok(List::cons(a, ts)),
            },
        },
    }
}

/// Bindings made in order.
pub type Binds = Seq<(Name, Value)>;

pub open spec fn concat(a: Result<Binds, WalkError>, b: Result<Binds, WalkError>) -> Result<Binds, WalkError> {
    match a {
        Err(e) => Err(e),
        Ok(x) => match b {
            Err(e) => Err(e),
            Ok(y) => Ok(x + y),
        },
    }
}

pub open spec fn mismatch() -> Result<Binds, WalkError> {
    Err(WalkError::Mismatch)
}

pub open spec fn no_binds() -> Result<Binds, WalkError> {
    Ok(Seq::empty())
}

/// The negative walk of pattern `t` in mode `m` against `ctx`: the bindings that
/// the match makes.
pub open spec fn walk_neg(forms: Seq<Form>, m: NegMode, t: Ast, env: Assoc<Value>, ctx: Value) -> Result<Binds, WalkError>
    decreases t, 0int,
{
    match m {
        NegMode::Destructure => match t {
            Ast::Trivial => no_binds(),
            Ast::Atom(n) => Ok(seq![(n, ctx)]),
            Ast::VariableReference(n) => Ok(seq![(n, ctx)]),
            Ast::Node(f, body, _) => match neg_rule(forms, m, f) {
                Err(e) => Err(e),
                Ok(WalkRule::NotWalked) => no_binds(),
                Ok(WalkRule::LiteralLike) => Err(WalkError::Fault(Fault::NoRule)),
                Ok(WalkRule::Sub(k)) => neg_key(forms, m, body, k, env, ctx),
            },
            Ast::Shape(l) => match ctx {
                Value::Sequence(vs) => neg_values(forms, m, l, env, vs),
                _ => mismatch(),
            },
            Ast::ExtendEnv(sub, _) => walk_neg(forms, m, *sub, env, ctx),
            Ast::QuoteMore(sub, _) => walk_neg(forms, NegMode::QQuoteDestr, *sub, env, ctx),
            Ast::QuoteLess(_, _) => Err(WalkError::Fault(Fault::NoRule)),
        },
        NegMode::QQuoteDestr => match t {
            Ast::Trivial => match ctx {
                Value::AbstractSyntax(Ast::Trivial) => no_binds(),
                _ => mismatch(),
            },
            Ast::Atom(n) => match ctx {
                Value::AbstractSyntax(Ast::Atom(n2)) => if n2 == n {
                    no_binds()
                } else {
                    mismatch()
                },
                _ => mismatch(),
            },
            Ast::VariableReference(n) => match ctx {
                Value::AbstractSyntax(Ast::VariableReference(n2)) => if n2 == n {
                    no_binds()
                } else {
                    mismatch()
                },
                _ => mismatch(),
            },
            Ast::Node(f, body, _) => match neg_rule(forms, m, f) {
                Err(e) => Err(e),
                Ok(WalkRule::NotWalked) => no_binds(),
                Ok(WalkRule::LiteralLike) => match ctx {
                    Value::AbstractSyntax(Ast::Node(f2, body2, _)) => if f2 == f {
                        neg_body(forms, m, body, body2, env)
                    } else {
                        mismatch()
                    },
                    _ => mismatch(),
                },
                Ok(WalkRule::Sub(k)) => neg_key(forms, m, body, k, env, ctx),
            },
            Ast::Shape(l) => match ctx {
                Value::AbstractSyntax(Ast::Shape(l2)) => neg_syntax(forms, m, l, l2, env),
                _ => mismatch(),
            },
            Ast::ExtendEnv(sub, _) => match ctx {
                Value::AbstractSyntax(Ast::ExtendEnv(s2, _)) => walk_neg(forms, m, *sub, env, syntax(*s2)),
                _ => mismatch(),
            },
            Ast::QuoteMore(sub, _) => match ctx {
                Value::AbstractSyntax(Ast::QuoteMore(s2, _)) => walk_neg(forms, m, *sub, env, syntax(*s2)),
                _ => mismatch(),
            },
            Ast::QuoteLess(sub, _) => walk_neg(forms, NegMode::Destructure, *sub, env, ctx),
        },
    }
}

/// The position under key `k` matched against `ctx`.
pub open spec fn neg_key(forms: Seq<Form>, m: NegMode, rest: Assoc<Ast>, k: Name, env: Assoc<Value>, ctx: Value) -> Result<Binds, WalkError>
    decreases rest, 1int,
{
    match rest.n {
        None => Err(WalkError::Fault(Fault::MissingKey(k))),
        Some(nd) => if nd.k == k {
            walk_neg(forms, m, *nd.v, env, ctx)
        } else {
            neg_key(forms, m, nd.next, k, env, ctx)
        },
    }
}

/// The positions of a pattern node matched, in order, against those of a node of
/// syntax with the same keys in the same order.
pub open spec fn neg_body(forms: Seq<Form>, m: NegMode, rest: Assoc<Ast>, rest2: Assoc<Ast>, env: Assoc<Value>) -> Result<Binds, WalkError>
    decreases rest, 1int,
{
    match rest.n {
        None => if rest2.n is None {
            no_binds()
        } else {
            mismatch()
        },
        Some(nd) => match rest2.n {
            None => mismatch(),
            Some(nd2) => if nd.k == nd2.k {
                concat(walk_neg(forms, m, *nd.v, env, syntax(*nd2.v)), neg_body(forms, m, nd.next, nd2.next, env))
            } else {
                mismatch()
            },
        },
    }
}

/// The elements of a pattern group matched against those of a sequence.
pub open spec fn neg_values(forms: Seq<Form>, m: NegMode, l: List<Ast>, env: Assoc<Value>, vs: List<Value>) -> Result<Binds, WalkError>
    decreases l, 1int,
{
    match l {
        List::Nil => if vs is Nil {
            no_binds()
        } else {
            mismatch()
        },
        List::Cons(h, t) => match vs {
            List::Nil => mismatch(),
            List::Cons(v, vt) => concat(walk_neg(forms, m, *h, env, *v), neg_values(forms, m, *t, env, *vt)),
        },
    }
}

/// The elements of a pattern group matched against those of a group of syntax.
pub open spec fn neg_syntax(forms: Seq<Form>, m: NegMode, l: List<Ast>, l2: List<Ast>, env: Assoc<Value>) -> Result<Binds, WalkError>
    decreases l, 1int,
{
    match l {
        List::Nil => if l2 is Nil {
            no_binds()
        } else {
            mismatch()
        },
        List::Cons(h, t) => match l2 {
            List::Nil => mismatch(),
            List::Cons(a, at) => concat(walk_neg(forms, m, *h, env, syntax(*a)), neg_syntax(forms, m, *t, *at, env)),
        },
    }
}

pub open spec fn binds_view(r: Result<Vec<(Name, Value)>, WalkError>) -> Result<Binds, WalkError> {
    match r {
        Ok(b) => Ok(b@),
        Err(e) => Err(e),
    }
}

fn lookup_neg_rule(forms: &Vec<Form>, m: NegMode, f: FormId) -> (r: Result<WalkRule, WalkError>)
    ensures
        r == neg_rule(forms@, m, f),
{
    if f.idx >= forms.len() {
        return Err(WalkError::Fault(Fault::UnknownForm));
    }
    let form = &forms[f.idx];
    let pair = match m {
        NegMode::Destructure => &form.eval,
        NegMode::QQuoteDestr => &form.quasiquote,
    };
    if pair.is_neg() {
        Ok(*pair.neg())
    } else {
        Err(WalkError::Fault(Fault::WrongDirection))
    }
}

fn single(n: Name, v: Value) -> (r: Result<Vec<(Name, Value)>, WalkError>)
    ensures
        binds_view(r) == Ok::<Binds, WalkError>(seq![(n, v)]),
{
    let mut b = Vec::new();
    b.push((n, v));
    assert(b@ =~= seq![(n, v)]);
    Ok(b)
}

fn none_bound() -> (r: Result<Vec<(Name, Value)>, WalkError>)
    ensures
        binds_view(r) == no_binds(),
{
    let b: Vec<(Name, Value)> = Vec::new();
    assert(b@ =~= Seq::<(Name, Value)>::empty());
    Ok(b)
}

fn concat_exec(a: Vec<(Name, Value)>, b: Result<Vec<(Name, Value)>, WalkError>) -> (r: Result<Vec<(Name, Value)>, WalkError>)
    ensures
        binds_view(r) == concat(Ok(a@), binds_view(b)),
{
    match b {
        Err(e) => Err(e),
        Ok(mut b) => {
            let mut a = a;
            a.append(&mut b);
            Ok(a)
        },
    }
}

/// The negative walk of pattern `t` in mode `m` against `ctx`, under the forms of
/// `forms`: the bindings that the match makes, in order.
pub fn neg_walk(forms: &Vec<Form>, m: NegMode, t: &Ast, env: &Assoc<Value>, ctx: &Value) -> (r: Result<Vec<(Name, Value)>, WalkError>)
    ensures
        binds_view(r) == walk_neg(forms@, m, *t, *env, *ctx),
    decreases t, 0int,
{
    match m {
        NegMode::Destructure => match t {
            Ast::Trivial => none_bound(),
            Ast::Atom(n) => single(*n, ctx.share()),
            Ast::VariableReference(n) => single(*n, ctx.share()),
            Ast::Node(f, body, _) => match lookup_neg_rule(forms, m, *f) {
                Err(e) => Err(e),
                Ok(WalkRule::NotWalked) => none_bound(),
                Ok(WalkRule::LiteralLike) => Err(WalkError::Fault(Fault::NoRule)),
                Ok(WalkRule::Sub(k)) => neg_key_exec(forms, m, body, k, env, ctx),
            },
            Ast::Shape(l) => match ctx {
                Value::Sequence(vs) => neg_values_exec(forms, m, l, env, vs),
                _ => Err(WalkError::Mismatch),
            },
            Ast::ExtendEnv(sub, _) => neg_walk(forms, m, sub, env, ctx),
            Ast::QuoteMore(sub, _) => neg_walk(forms, NegMode::QQuoteDestr, sub, env, ctx),
            Ast::QuoteLess(_, _) => Err(WalkError::Fault(Fault::NoRule)),
        },
        NegMode::QQuoteDestr => match t {
            Ast::Trivial => match ctx {
                Value::AbstractSyntax(Ast::Trivial) => none_bound(),
                _ => Err(WalkError::Mismatch),
            },
            Ast::Atom(n) => match ctx {
                Value::AbstractSyntax(Ast::Atom(n2)) => if n2.same(n) {
                    none_bound()
                } else {
                    Err(WalkError::Mismatch)
                },
                _ => Err(WalkError::Mismatch),
            },
            Ast::VariableReference(n) => match ctx {
                Value::AbstractSyntax(Ast::VariableReference(n2)) => if n2.same(n) {
                    none_bound()
                } else {
                    Err(WalkError::Mismatch)
                },
                _ => Err(WalkError::Mismatch),
            },
            Ast::Node(f, body, _) => match lookup_neg_rule(forms, m, *f) {
                Err(e) => Err(e),
                Ok(WalkRule::NotWalked) => none_bound(),
                Ok(WalkRule::LiteralLike) => match ctx {
                    Value::AbstractSyntax(Ast::Node(f2, body2, _)) => if f2.idx == f.idx {
                        neg_body_exec(forms, m, body, body2, env)
                    } else {
                        Err(WalkError::Mismatch)
                    },
                    _ => Err(WalkError::Mismatch),
                },
                Ok(WalkRule::Sub(k)) => neg_key_exec(forms, m, body, k, env, ctx),
            },
            Ast::Shape(l) => match ctx {
                Value::AbstractSyntax(Ast::Shape(l2)) => neg_syntax_exec(forms, m, l, l2, env),
                _ => Err(WalkError::Mismatch),
            },
            Ast::ExtendEnv(sub, _) => match ctx {
                Value::AbstractSyntax(Ast::ExtendEnv(s2, _)) => neg_walk(forms, m, sub, env, &Value::AbstractSyntax(s2.share())),
                _ => Err(WalkError::Mismatch),
            },
            Ast::QuoteMore(sub, _) => match ctx {
                Value::AbstractSyntax(Ast::QuoteMore(s2, _)) => neg_walk(forms, m, sub, env, &Value::AbstractSyntax(s2.share())),
                _ => Err(WalkError::Mismatch),
            },
            Ast::QuoteLess(sub, _) => neg_walk(forms, NegMode::Destructure, sub, env, ctx),
        },
    }
}

fn neg_key_exec(forms: &Vec<Form>, m: NegMode, rest: &Assoc<Ast>, k: Name, env: &Assoc<Value>, ctx: &Value) -> (r: Result<Vec<(Name, Value)>, WalkError>)
    ensures
        binds_view(r) == neg_key(forms@, m, *rest, k, *env, *ctx),
    decreases rest, 1int,
{
    match &rest.n {
        None => Err(WalkError::Fault(Fault::MissingKey(k))),
        Some(nd) => {
            if nd.k.same(&k) {
                neg_walk(forms, m, &nd.v, env, ctx)
            } else {
                neg_key_exec(forms, m, &nd.next, k, env, ctx)
            }
        },
    }
}

fn neg_body_exec(forms: &Vec<Form>, m: NegMode, rest: &Assoc<Ast>, rest2: &Assoc<Ast>, env: &Assoc<Value>) -> (r: Result<Vec<(Name, Value)>, WalkError>)
    ensures
        binds_view(r) == neg_body(forms@, m, *rest, *rest2, *env),
    decreases rest, 1int,
{
    match &rest.n {
        None => if rest2.n.is_none() {
            none_bound()
        } else {
            Err(WalkError::Mismatch)
        },
        Some(nd) => match &rest2.n {
            None => Err(WalkError::Mismatch),
            Some(nd2) => {
                if nd.k.same(&nd2.k) {
                    match neg_walk(forms, m, &nd.v, env, &Value::AbstractSyntax(nd2.v.share())) {
                        Err(e) => Err(e),
                        Ok(a) => concat_exec(a, neg_body_exec(forms, m, &nd.next, &nd2.next, env)),
                    }
                } else {
                    Err(WalkError::Mismatch)
                }
            },
        },
    }
}

fn neg_values_exec(forms: &Vec<Form>, m: NegMode, l: &List<Ast>, env: &Assoc<Value>, vs: &List<Value>) -> (r: Result<Vec<(Name, Value)>, WalkError>)
    ensures
        binds_view(r) == neg_values(forms@, m, *l, *env, *vs),
    decreases l, 1int,
{
    match l {
        List::Nil => match vs {
            List::Nil => none_bound(),
            _ => Err(WalkError::Mismatch),
        },
        List::Cons(h, t) => match vs {
            List::Nil => Err(WalkError::Mismatch),
            List::Cons(v, vt) => match neg_walk(forms, m, h, env, v) {
                Err(e) => Err(e),
                Ok(a) => concat_exec(a, neg_values_exec(forms, m, t, env, vt)),
            },
        },
    }
}

fn neg_syntax_exec(forms: &Vec<Form>, m: NegMode, l: &List<Ast>, l2: &List<Ast>, env: &Assoc<Value>) -> (r: Result<Vec<(Name, Value)>, WalkError>)
    ensures
        binds_view(r) == neg_syntax(forms@, m, *l, *l2, *env),
    decreases l, 1int,
{
    match l {
        List::Nil => match l2 {
            List::Nil => none_bound(),
            _ => Err(WalkError::Mismatch),
        },
        List::Cons(h, t) => match l2 {
            List::Nil => Err(WalkError::Mismatch),
            List::Cons(a, at) => match neg_walk(forms, m, h, env, &Value::AbstractSyntax(a.share())) {
                Err(e) => Err(e),
                Ok(b) => concat_exec(b, neg_syntax_exec(forms, m, t, at, env)),
            },
        },
    }
}

} // verus!
