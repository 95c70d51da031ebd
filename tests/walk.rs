use std::rc::Rc;

use unseemly::assoc::Assoc;
use unseemly::bignum::BigNum;
use unseemly::ast::{Ast, FormId};
use unseemly::beta::Beta;
use unseemly::error::{Fault, WalkError};
use unseemly::eval::{eval, eval_top, neg_eval};
use unseemly::form::{simple_form, EitherPN, Form, WalkRule};
use unseemly::list::List;
use unseemly::name::Name;
use unseemly::value::Value;
use unseemly::walk::{neg_walk, walk, NegMode, PosMode};

const PLUS: u64 = 1;
const ONE: u64 = 2;
const TWO: u64 = 3;
const E: u64 = 4;
const RATOR: u64 = 10;
const RAND0: u64 = 11;
const RAND1: u64 = 12;

fn n(i: u64) -> Name {
    Name::new(i)
}

fn vr(i: u64) -> Ast {
    Ast::VariableReference(n(i))
}

fn int_val(i: i64) -> Value {
    Value::Int(Rc::new(BigNum::from_i64(i)))
}

fn int_of(v: &Value) -> String {
    match v {
        Value::Int(i) => i.to_decimal(),
        _ => panic!("not an integer"),
    }
}

fn node(f: usize, entries: Vec<(u64, Ast)>) -> Ast {
    let mut body = Assoc::new();
    for (k, t) in entries {
        body = body.set(n(k), t);
    }
    Ast::Node(FormId { idx: f }, body, Rc::new(Beta::Nothing))
}

// form 0: application, pure syntax; form 1: a form that evaluates to its `body`
// position; form 2: a form with only a negative evaluation rule
fn forms() -> Vec<Form> {
    let app = simple_form(n(100));
    let mut let_form = simple_form(n(101));
    let_form.eval = EitherPN::Both(WalkRule::Sub(n(22)), WalkRule::Sub(n(20)));
    let mut neg_only = simple_form(n(102));
    neg_only.eval = EitherPN::Negative(WalkRule::NotWalked);
    vec![app, let_form, neg_only]
}

fn plus_one_two() -> Ast {
    node(0, vec![(RATOR, vr(PLUS)), (RAND0, vr(ONE)), (RAND1, vr(TWO))])
}

fn quote(t: Ast) -> Ast {
    Ast::QuoteMore(Rc::new(t), true)
}

fn quote_pat(t: Ast) -> Ast {
    Ast::QuoteMore(Rc::new(t), false)
}

#[test]
fn quote_match_binds_the_escaped_position() {
    let fs = forms();
    let quoted = eval_top(&fs, &quote(plus_one_two())).ok().unwrap();
    let escape = Ast::QuoteLess(Rc::new(vr(E)), 1);
    let pat = quote_pat(node(0, vec![(RATOR, vr(PLUS)), (RAND0, escape), (RAND1, vr(TWO))]));
    let binds = neg_eval(&fs, &pat, Assoc::new(), &quoted).ok().unwrap();
    match binds.find(&n(E)) {
        Some(Value::AbstractSyntax(Ast::VariableReference(x))) => assert_eq!(*x, n(ONE)),
        _ => panic!("e is not bound to the quoted `one`"),
    }
    assert!(binds.find(&n(PLUS)).is_none());
}

#[test]
fn quote_match_rejects_other_syntax() {
    let fs = forms();
    let quoted = eval_top(&fs, &quote(plus_one_two())).ok().unwrap();
    let pat = quote_pat(node(0, vec![(RATOR, vr(PLUS)), (RAND0, vr(TWO)), (RAND1, vr(TWO))]));
    assert_eq!(neg_eval(&fs, &pat, Assoc::new(), &quoted).err(), Some(WalkError::Mismatch));
    let short = quote_pat(node(0, vec![(RATOR, vr(PLUS)), (RAND0, vr(ONE))]));
    assert_eq!(neg_eval(&fs, &short, Assoc::new(), &quoted).err(), Some(WalkError::Mismatch));
}

#[test]
fn quotation_matches_itself_with_no_bindings() {
    let fs = forms();
    let t = node(0, vec![
        (RATOR, vr(PLUS)),
        (RAND0, Ast::Atom(n(ONE))),
        (RAND1, Ast::Shape(List::cons(vr(TWO), List::cons(Ast::Trivial, List::Nil)))),
    ]);
    let quoted = eval_top(&fs, &quote(t.share())).ok().unwrap();
    let binds = neg_walk(&fs, NegMode::Destructure, &quote_pat(t), &Assoc::new(), &quoted).ok().unwrap();
    assert!(binds.is_empty());
}

#[test]
fn quotation_reifies_names() {
    let fs = forms();
    let v = walk(&fs, PosMode::QQuote, &Ast::Atom(n(ONE)), &Assoc::new()).ok().unwrap();
    assert!(matches!(v, Value::AbstractSyntax(Ast::Atom(x)) if x == n(ONE)));
    let v = walk(&fs, PosMode::QQuote, &vr(ONE), &Assoc::new()).ok().unwrap();
    assert!(matches!(v, Value::AbstractSyntax(Ast::VariableReference(x)) if x == n(ONE)));
}

#[test]
fn escape_interpolates_a_computed_syntax_value() {
    let fs = forms();
    let env = Assoc::new().set(n(E), Value::AbstractSyntax(vr(ONE)));
    let template = quote(node(0, vec![(RATOR, vr(PLUS)), (RAND0, Ast::QuoteLess(Rc::new(vr(E)), 1))]));
    let v = eval(&fs, &template, env).ok().unwrap();
    let pat = quote_pat(node(0, vec![(RATOR, vr(PLUS)), (RAND0, vr(ONE))]));
    assert!(neg_eval(&fs, &pat, Assoc::new(), &v).ok().unwrap().is_empty());
    let bad_env = Assoc::new().set(n(E), int_val(1));
    assert_eq!(eval(&fs, &template, bad_env).err(), Some(WalkError::Fault(Fault::NotSyntax)));
}

#[test]
fn variables_evaluate_to_their_binding() {
    let fs = forms();
    let env = Assoc::new().set(n(ONE), int_val(1)).set(n(TWO), int_val(2));
    assert_eq!(int_of(&eval(&fs, &vr(TWO), env.share()).ok().unwrap()), "2");
    assert_eq!(eval(&fs, &vr(E), env).err(), Some(WalkError::Fault(Fault::Unbound(n(E)))));
    assert_eq!(eval_top(&fs, &Ast::Atom(n(E))).err(), Some(WalkError::Fault(Fault::NoRule)));
}

#[test]
fn evaluation_is_repeatable() {
    let fs = forms();
    let env = Assoc::new().set(n(ONE), int_val(1));
    let a = eval(&fs, &vr(ONE), env.share()).ok().unwrap();
    let b = eval(&fs, &vr(ONE), env).ok().unwrap();
    assert_eq!(int_of(&a), int_of(&b));
}

#[test]
fn not_walked_forms_evaluate_to_their_syntax() {
    let fs = forms();
    let v = eval_top(&fs, &plus_one_two()).ok().unwrap();
    let pat = quote_pat(plus_one_two());
    assert!(neg_eval(&fs, &pat, Assoc::new(), &v).ok().unwrap().is_empty());
}

#[test]
fn sub_rule_evaluates_in_the_extended_scope() {
    // (let x = one in x): key 20 holds the binder, 21 the bound term, 22 the body
    let fs = forms();
    let scope = Rc::new(Beta::Basic(n(20), n(21)));
    let body = Ast::ExtendEnv(Rc::new(vr(E)), scope);
    let t = node(1, vec![(20, Ast::Atom(n(E))), (21, vr(ONE)), (22, body)]);
    let env = Assoc::new().set(n(ONE), int_val(1));
    assert_eq!(int_of(&eval(&fs, &t, env).ok().unwrap()), "1");
}

#[test]
fn rule_faults() {
    let fs = forms();
    let wrong = node(2, vec![]);
    assert_eq!(eval_top(&fs, &wrong).err(), Some(WalkError::Fault(Fault::WrongDirection)));
    let unknown = node(7, vec![]);
    assert_eq!(eval_top(&fs, &unknown).err(), Some(WalkError::Fault(Fault::UnknownForm)));
    let missing = node(1, vec![(20, Ast::Atom(n(E)))]);
    assert_eq!(eval_top(&fs, &missing).err(), Some(WalkError::Fault(Fault::MissingKey(n(22)))));
}

#[test]
fn groups_evaluate_to_sequences() {
    let fs = forms();
    let env = Assoc::new().set(n(ONE), int_val(1)).set(n(TWO), int_val(2));
    let t = Ast::Shape(List::cons(vr(ONE), List::cons(vr(TWO), List::Nil)));
    match eval(&fs, &t, env).ok().unwrap() {
        Value::Sequence(vs) => {
            assert_eq!(vs.len(), 2);
            assert_eq!(int_of(vs.nth(0)), "1");
            assert_eq!(int_of(vs.nth(1)), "2");
        },
        _ => panic!("not a sequence"),
    }
    assert!(matches!(eval_top(&fs, &Ast::Trivial).ok().unwrap(), Value::Sequence(List::Nil)));
}

#[test]
fn destructuring_binds_pattern_names() {
    let fs = forms();
    let pat = Ast::Shape(List::cons(Ast::Atom(n(ONE)), List::cons(vr(TWO), List::Nil)));
    let v = Value::Sequence(List::cons(int_val(5), List::cons(int_val(6), List::Nil)));
    let binds = neg_eval(&fs, &pat, Assoc::new(), &v).ok().unwrap();
    assert_eq!(int_of(binds.find(&n(ONE)).unwrap()), "5");
    assert_eq!(int_of(binds.find(&n(TWO)).unwrap()), "6");
    let short = Value::Sequence(List::cons(int_val(5), List::Nil));
    assert_eq!(neg_eval(&fs, &pat, Assoc::new(), &short).err(), Some(WalkError::Mismatch));
    assert_eq!(neg_eval(&fs, &pat, Assoc::new(), &int_val(5)).err(), Some(WalkError::Mismatch));
}

#[test]
fn destructuring_through_a_sub_rule() {
    let fs = forms();
    let pat = node(1, vec![(20, Ast::Atom(n(E)))]);
    let binds = neg_eval(&fs, &pat, Assoc::new(), &int_val(9)).ok().unwrap();
    assert_eq!(int_of(binds.find(&n(E)).unwrap()), "9");
}
