use unseemly::form::{simple_form, EitherPN, WalkRule};
use unseemly::name::Name;

#[test]
fn either_pn_halves() {
    let p: EitherPN<u32, bool> = EitherPN::Positive(3);
    let n: EitherPN<u32, bool> = EitherPN::Negative(true);
    let b: EitherPN<u32, bool> = EitherPN::Both(7, false);
    assert!(p.is_pos() && !p.is_neg());
    assert!(!n.is_pos() && n.is_neg());
    assert!(b.is_pos() && b.is_neg());
    assert_eq!(*p.pos(), 3);
    assert_eq!(*n.neg(), true);
    assert_eq!(*b.pos(), 7);
    assert_eq!(*b.neg(), false);
}

#[test]
fn simple_form_is_literal_syntax() {
    let f = simple_form(Name::new(9));
    assert_eq!(f.name, Name::new(9));
    assert!(f.eval.is_pos() && !f.eval.is_neg());
    assert_eq!(*f.eval.pos(), WalkRule::NotWalked);
    assert_eq!(*f.synth_type.pos(), WalkRule::NotWalked);
    assert_eq!(*f.quasiquote.pos(), WalkRule::LiteralLike);
    assert_eq!(*f.quasiquote.neg(), WalkRule::LiteralLike);
    assert!(f.relative_phase.is_empty());
}

#[test]
fn forms_describe_themselves() {
    assert_eq!(simple_form(Name::new(42)).describe(), "[FORM #42]");
}
