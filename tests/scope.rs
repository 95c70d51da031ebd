use std::rc::Rc;

use unseemly::assoc::Assoc;
use unseemly::bignum::BigNum;
use unseemly::beta::{extend_scope, resolve, Beta, Part, Rep};
use unseemly::error::{Fault, WalkError};
use unseemly::list::List;
use unseemly::name::Name;
use unseemly::value::Value;

fn int_val(i: i64) -> Value {
    Value::Int(Rc::new(BigNum::from_i64(i)))
}

fn int_of(v: &Value) -> String {
    match v {
        Value::Int(i) => i.to_decimal(),
        _ => panic!("not an integer"),
    }
}

fn part(key: u64, atom: Option<u64>, res: Option<i64>) -> Part {
    Part {
        key: Name::new(key),
        atom: atom.map(Name::new),
        res: match res {
            Some(i) => Ok(int_val(i)),
            None => Err(WalkError::Mismatch),
        },
        reps: List::Nil,
    }
}

fn parts(ps: Vec<Part>) -> List<Part> {
    let mut l = List::Nil;
    for p in ps.into_iter().rev() {
        l = List::cons(p, l);
    }
    l
}

fn basic(b: u64, s: u64) -> Rc<Beta> {
    Rc::new(Beta::Basic(Name::new(b), Name::new(s)))
}

// keys: 1 and 2 hold the binder x (id 100); 3 and 4 hold results 30 and 40
fn two_binders() -> List<Part> {
    parts(vec![
        part(1, Some(100), None),
        part(2, Some(100), None),
        part(3, None, Some(30)),
        part(4, None, Some(40)),
    ])
}

#[test]
fn shadow_inner_binding_wins() {
    let ps = two_binders();
    let beta = Beta::Shadow(basic(2, 4), basic(1, 3));
    let env = extend_scope(&beta, &ps, &Assoc::new()).ok().unwrap();
    assert_eq!(int_of(env.find(&Name::new(100)).unwrap()), "40");
    let flipped = Beta::Shadow(basic(1, 3), basic(2, 4));
    let env = extend_scope(&flipped, &ps, &Assoc::new()).ok().unwrap();
    assert_eq!(int_of(env.find(&Name::new(100)).unwrap()), "30");
}

#[test]
fn shadow_keeps_outer_only_names() {
    let ps = parts(vec![
        part(1, Some(100), None),
        part(2, Some(200), None),
        part(3, None, Some(30)),
        part(4, None, Some(40)),
    ]);
    let beta = Beta::Shadow(basic(2, 4), basic(1, 3));
    let (plain, prot) = resolve(&beta, &ps, &Assoc::new()).ok().unwrap();
    assert_eq!(plain.len(), 2);
    assert_eq!(prot.len(), 0);
    assert_eq!(plain[0].0, Name::new(100));
    assert_eq!(plain[1].0, Name::new(200));
    let env = extend_scope(&beta, &ps, &Assoc::new()).ok().unwrap();
    assert_eq!(int_of(env.find(&Name::new(100)).unwrap()), "30");
    assert_eq!(int_of(env.find(&Name::new(200)).unwrap()), "40");
}

#[test]
fn protected_is_not_shadowed() {
    let ps = parts(vec![part(1, Some(100), Some(10)), part(2, Some(100), None), part(4, None, Some(40))]);
    let beta = Beta::Shadow(basic(2, 4), Rc::new(Beta::Protected(Name::new(1))));
    let env = extend_scope(&beta, &ps, &Assoc::new()).ok().unwrap();
    assert_eq!(int_of(env.find(&Name::new(100)).unwrap()), "10");
}

#[test]
fn same_as_aliases_an_existing_binding() {
    let ps = parts(vec![part(1, Some(100), None), part(2, Some(7), None)]);
    let env = Assoc::new().set(Name::new(7), int_val(77));
    let beta = Beta::SameAs(Name::new(1), Name::new(2));
    let out = extend_scope(&beta, &ps, &env).ok().unwrap();
    assert_eq!(int_of(out.find(&Name::new(100)).unwrap()), "77");
    assert_eq!(int_of(out.find(&Name::new(7)).unwrap()), "77");
    let err = resolve(&beta, &ps, &Assoc::new()).err().unwrap();
    assert_eq!(err, WalkError::Fault(Fault::Unbound(Name::new(7))));
}

#[test]
fn missing_key_and_failed_source() {
    let ps = parts(vec![part(1, Some(100), None), part(2, None, None)]);
    let err = resolve(&Beta::Basic(Name::new(1), Name::new(9)), &ps, &Assoc::new()).err().unwrap();
    assert_eq!(err, WalkError::Fault(Fault::MissingKey(Name::new(9))));
    let err = resolve(&Beta::Basic(Name::new(2), Name::new(1)), &ps, &Assoc::new()).err().unwrap();
    assert_eq!(err, WalkError::Fault(Fault::MissingKey(Name::new(2))));
    let err = resolve(&Beta::Basic(Name::new(1), Name::new(2)), &ps, &Assoc::new()).err().unwrap();
    assert_eq!(err, WalkError::Mismatch);
}

#[test]
fn underspecified_faults_in_value_passes() {
    let ps = parts(vec![part(1, Some(100), None)]);
    let err = resolve(&Beta::Underspecified(Name::new(1)), &ps, &Assoc::new()).err().unwrap();
    assert_eq!(err, WalkError::Fault(Fault::Underspecified(Name::new(100))));
    let (plain, prot) = resolve(&Beta::Nothing, &ps, &Assoc::new()).ok().unwrap();
    assert!(plain.is_empty() && prot.is_empty());
}

fn reps(items: Vec<(u64, i64)>) -> List<Rep> {
    let mut l = List::Nil;
    for (a, r) in items.into_iter().rev() {
        l = List::cons(Rep { atom: Some(Name::new(a)), res: Ok(int_val(r)) }, l);
    }
    l
}

fn repeated(key: u64, items: Vec<(u64, i64)>) -> Part {
    Part { key: Name::new(key), atom: None, res: Err(WalkError::Mismatch), reps: reps(items) }
}

#[test]
fn shadow_all_chains_repetitions() {
    // binders under key 1, results under key 2, repeated in lockstep
    let ps = parts(vec![
        repeated(1, vec![(100, 0), (200, 0), (100, 0)]),
        repeated(2, vec![(0, 1), (0, 2), (0, 3)]),
    ]);
    let beta = Beta::ShadowAll(basic(1, 2), vec![Name::new(1), Name::new(2)]);
    let (plain, _) = resolve(&beta, &ps, &Assoc::new()).ok().unwrap();
    assert_eq!(plain.len(), 3);
    let env = extend_scope(&beta, &ps, &Assoc::new()).ok().unwrap();
    assert_eq!(int_of(env.find(&Name::new(100)).unwrap()), "3");
    assert_eq!(int_of(env.find(&Name::new(200)).unwrap()), "2");
}

#[test]
fn shadow_all_with_unequal_drivers_faults() {
    let ps = parts(vec![repeated(1, vec![(100, 0), (200, 0)]), repeated(2, vec![(0, 1)])]);
    let beta = Beta::ShadowAll(basic(1, 2), vec![Name::new(1), Name::new(2)]);
    let err = resolve(&beta, &ps, &Assoc::new()).err().unwrap();
    assert_eq!(err, WalkError::Fault(Fault::UnequalRepetition));
    let missing = Beta::ShadowAll(basic(1, 2), vec![Name::new(1), Name::new(5)]);
    let err = resolve(&missing, &ps, &Assoc::new()).err().unwrap();
    assert_eq!(err, WalkError::Fault(Fault::MissingKey(Name::new(5))));
}

#[test]
fn shadow_all_over_no_repetitions_binds_nothing() {
    let ps = parts(vec![repeated(1, vec![]), repeated(2, vec![])]);
    let beta = Beta::ShadowAll(basic(1, 2), vec![Name::new(1), Name::new(2)]);
    let (plain, prot) = resolve(&beta, &ps, &Assoc::new()).ok().unwrap();
    assert!(plain.is_empty() && prot.is_empty());
}
