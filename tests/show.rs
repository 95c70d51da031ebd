use std::rc::Rc;

use unseemly::assoc::Assoc;
use unseemly::ast::{Ast, FormId};
use unseemly::beta::Beta;
use unseemly::bignum::BigNum;
use unseemly::list::List;
use unseemly::name::Name;
use unseemly::value::{Closure, Value, BIF};

fn int_val(i: i64) -> Value {
    Value::Int(Rc::new(BigNum::from_i64(i)))
}

#[test]
fn integers_in_decimal() {
    assert_eq!(BigNum::from_i64(0).to_decimal(), "0");
    assert_eq!(BigNum::from_i64(120).to_decimal(), "120");
    assert_eq!(BigNum::from_i64(-7).to_decimal(), "-7");
    assert_eq!(BigNum::from_i64(i64::MAX).to_decimal(), "9223372036854775807");
    assert_eq!(BigNum::from_i64(i64::MIN).to_decimal(), "-9223372036854775808");
    assert_eq!(BigNum::from_i64(4294967296).digits, vec![0, 1]);
    let big = BigNum { negative: false, digits: vec![0, 0, 1] };
    assert_eq!(big.to_decimal(), "18446744073709551616");
    assert!(BigNum::from_i64(0).digits.is_empty() && !BigNum::from_i64(0).negative);
}

#[test]
fn values_as_text() {
    assert_eq!(int_val(2).display(), "2");
    let seq = Value::Sequence(List::cons(int_val(1), List::cons(int_val(23), List::Nil)));
    assert_eq!(seq.display(), "123");
    assert_eq!(Value::BuiltInFunction(BIF { id: 3 }).display(), "[built-in function]");
    let clo = Closure { body: Ast::Trivial, params: List::Nil, env: Assoc::new() };
    assert_eq!(Value::Function(Rc::new(clo)).display(), "[closure]");
    let fields = Assoc::new().set(Name::new(1), int_val(5)).set(Name::new(2), int_val(6));
    assert_eq!(Value::Struct(fields).display(), "*[#2: 6 #1: 5 ]*");
    let variant = Value::Enum(Name::new(8), List::cons(int_val(3), List::cons(int_val(-4), List::Nil)));
    assert_eq!(variant.display(), "+[#8 3 -4]+");
    assert_eq!(Value::Enum(Name::new(8), List::Nil).display(), "+[#8]+");
}

#[test]
fn syntax_as_text() {
    let body = Assoc::new().set(Name::new(10), Ast::VariableReference(Name::new(1)))
        .set(Name::new(11), Ast::Atom(Name::new(2)));
    let node = Ast::Node(FormId { idx: 0 }, body, Rc::new(Beta::Nothing));
    assert_eq!(node.display(), "(#2 #1 )");
    assert_eq!(Value::AbstractSyntax(node.share()).display(), "'[(#2 #1 )]'");
    let group = Ast::Shape(List::cons(Ast::Trivial, List::cons(Ast::Atom(Name::new(3)), List::Nil)));
    assert_eq!(group.display(), "[ #3 ]");
    let quoted = Ast::QuoteMore(Rc::new(Ast::QuoteLess(Rc::new(Ast::Atom(Name::new(4))), 1)), true);
    assert_eq!(quoted.display(), "'[,[#4],]'");
}
