use vstd::prelude::*;
use vstd::string::*;
use crate::assoc::Assoc;
use crate::ast::Ast;
use crate::bignum::{decimal, digit_char, signed_decimal};
use crate::list::List;
use crate::name::Name;
use crate::value::Value;

verus! {

/// A name as its id, after a `#`.
pub open spec fn name_text(n: Name) -> Seq<char> {
    seq!['#'] + decimal(n.id as nat)
}

/// A tree as text: a node or a group lists its parts, each followed by a blank.
pub open spec fn ast_text(a: Ast) -> Seq<char>
    decreases a, 0int,
{
    match a {
        Ast::Trivial => Seq::empty(),
        Ast::Atom(n) => name_text(n),
        Ast::VariableReference(n) => name_text(n),
        Ast::Node(_, body, _) => "("@ + body_text(body) + ")"@,
        Ast::Shape(l) => "["@ + items_text(l) + "]"@,
        Ast::ExtendEnv(sub, _) => ast_text(*sub),
        Ast::QuoteMore(sub, _) => "'["@ + ast_text(*sub) + "]'"@,
        Ast::QuoteLess(sub, _) => ",["@ + ast_text(*sub) + "],"@,
    }
}

pub open spec fn body_text(rest: Assoc<Ast>) -> Seq<char>
    decreases rest, 1int,
{
    match rest.n {
        None => Seq::empty(),
        Some(nd) => ast_text(*nd.v) + " "@ + body_text(nd.next),
    }
}

pub open spec fn items_text(l: List<Ast>) -> Seq<char>
    decreases l, 1int,
{
    match l {
        List::Nil => Seq::empty(),
        List::Cons(h, t) => ast_text(*h) + " "@ + items_text(*t),
    }
}

/// A value as text: integers in decimal, sequences as their elements one after
/// another, functions as placeholders, syntax in quotation brackets, structs as
/// `field: value` pairs and variants as their tag and payload.
pub open spec fn shown(v: Value) -> Seq<char>
    decreases v, 0int,
{
    match v {
        Value::Int(i) => signed_decimal(i.value()),
        Value::Sequence(l) => elements_text(l),
        Value::Function(_) => "[closure]"@,
        Value::BuiltInFunction(_) => "[built-in function]"@,
        Value::AbstractSyntax(a) => "'["@ + ast_text(a) + "]'"@,
        Value::Struct(fs) => "*["@ + fields_text(fs) + "]*"@,
        Value::Enum(n, ps) => "+["@ + name_text(n) + payload_text(ps) + "]+"@,
    }
}

pub open spec fn elements_text(l: List<Value>) -> Seq<char>
    decreases l, 1int,
{
    match l {
        List::Nil => Seq::empty(),
        List::Cons(h, t) => shown(*h) + elements_text(*t),
    }
}

pub open spec fn fields_text(rest: Assoc<Value>) -> Seq<char>
    decreases rest, 1int,
{
    match rest.n {
        None => Seq::empty(),
        Some(nd) => name_text(nd.k) + ": "@ + shown(*nd.v) + " "@ + fields_text(nd.next),
    }
}

pub open spec fn payload_text(l: List<Value>) -> Seq<char>
    decreases l, 1int,
{
    match l {
        List::Nil => Seq::empty(),
        List::Cons(h, t) => " "@ + shown(*h) + payload_text(*t),
    }
}

fn digit_str(d: u64) -> (r: &'static str)
    requires
        d < 10,
    ensures
        r@ == seq![digit_char(d as nat)],
{
    if d == 0 {
        proof { reveal_strlit("0"); }
        "0"
    } else if d == 1 {
        proof { reveal_strlit("1"); }
        "1"
    } else if d == 2 {
        proof { reveal_strlit("2"); }
        "2"
    } else if d == 3 {
        proof { reveal_strlit("3"); }
        "3"
    } else if d == 4 {
        proof { reveal_strlit("4"); }
        "4"
    } else if d == 5 {
        proof { reveal_strlit("5"); }
        "5"
    } else if d == 6 {
        proof { reveal_strlit("6"); }
        "6"
    } else if d == 7 {
        proof { reveal_strlit("7"); }
        "7"
    } else if d == 8 {
        proof { reveal_strlit("8"); }
        "8"
    } else {
        proof { reveal_strlit("9"); }
        "9"
    }
}

fn write_decimal(out: &mut String, x: u64)
    ensures
        final(out)@ == old(out)@ + decimal(x as nat),
    decreases x,
{
    if x < 10 {
        out.append(digit_str(x));
    } else {
        write_decimal(out, x / 10);
        out.append(digit_str(x % 10));
        assert(final(out)@ =~= old(out)@ + decimal(x as nat));
    }
}

pub fn write_name(out: &mut String, n: Name)
    ensures
        final(out)@ == old(out)@ + name_text(n),
{
    proof { reveal_strlit("#"); }
    out.append("#");
    write_decimal(out, n.id);
    assert(final(out)@ =~= old(out)@ + name_text(n));
}

/// Appends `a` as text.
pub fn write_ast(out: &mut String, a: &Ast)
    ensures
        final(out)@ == old(out)@ + ast_text(*a),
    decreases a, 0int,
{
    match a {
        Ast::Trivial => {
            assert(final(out)@ =~= old(out)@ + ast_text(*a));
        },
        Ast::Atom(n) => write_name(out, *n),
        Ast::VariableReference(n) => write_name(out, *n),
        Ast::Node(_, body, _) => {
            out.append("(");
            write_body(out, body);
            out.append(")");
            assert(final(out)@ =~= old(out)@ + ast_text(*a));
        },
        Ast::Shape(l) => {
            out.append("[");
            write_items(out, l);
            out.append("]");
            assert(final(out)@ =~= old(out)@ + ast_text(*a));
        },
        Ast::ExtendEnv(sub, _) => write_ast(out, sub),
        Ast::QuoteMore(sub, _) => {
            out.append("'[");
            write_ast(out, sub);
            out.append("]'");
            assert(final(out)@ =~= old(out)@ + ast_text(*a));
        },
        Ast::QuoteLess(sub, _) => {
            out.append(",[");
            write_ast(out, sub);
            out.append("],");
            assert(final(out)@ =~= old(out)@ + ast_text(*a));
        },
    }
}

fn write_body(out: &mut String, rest: &Assoc<Ast>)
    ensures
        final(out)@ == old(out)@ + body_text(*rest),
    decreases rest, 1int,
{
    match &rest.n {
        None => {
            assert(final(out)@ =~= old(out)@ + body_text(*rest));
        },
        Some(nd) => {
            write_ast(out, &nd.v);
            out.append(" ");
            write_body(out, &nd.next);
            assert(final(out)@ =~= old(out)@ + body_text(*rest));
        },
    }
}

fn write_items(out: &mut String, l: &List<Ast>)
    ensures
        final(out)@ == old(out)@ + items_text(*l),
    decreases l, 1int,
{
    match l {
        List::Nil => {
            assert(final(out)@ =~= old(out)@ + items_text(*l));
        },
        List::Cons(h, t) => {
            write_ast(out, h);
            out.append(" ");
            write_items(out, t);
            assert(final(out)@ =~= old(out)@ + items_text(*l));
        },
    }
}

/// Appends `v` as text.
pub fn write_value(out: &mut String, v: &Value)
    ensures
        final(out)@ == old(out)@ + shown(*v),
    decreases v, 0int,
{
    match v {
        Value::Int(i) => {
            let text = i.to_decimal();
            out.append(text.as_str());
        },
        Value::Sequence(l) => write_elements(out, l),
        Value::Function(_) => out.append("[closure]"),
        Value::BuiltInFunction(_) => out.append("[built-in function]"),
        Value::AbstractSyntax(a) => {
            out.append("'[");
            write_ast(out, a);
            out.append("]'");
            assert(final(out)@ =~= old(out)@ + shown(*v));
        },
        Value::Struct(fs) => {
            out.append("*[");
            write_fields(out, fs);
            out.append("]*");
            assert(final(out)@ =~= old(out)@ + shown(*v));
        },
        Value::Enum(n, ps) => {
            out.append("+[");
            write_name(out, *n);
            write_payload(out, ps);
            out.append("]+");
            assert(final(out)@ =~= old(out)@ + shown(*v));
        },
    }
}

fn write_elements(out: &mut String, l: &List<Value>)
    ensures
        final(out)@ == old(out)@ + elements_text(*l),
    decreases l, 1int,
{
    match l {
        List::Nil => {
            assert(final(out)@ =~= old(out)@ + elements_text(*l));
        },
        List::Cons(h, t) => {
            write_value(out, h);
            write_elements(out, t);
            assert(final(out)@ =~= old(out)@ + elements_text(*l));
        },
    }
}

fn write_fields(out: &mut String, rest: &Assoc<Value>)
    ensures
        final(out)@ == old(out)@ + fields_text(*rest),
    decreases rest, 1int,
{
    match &rest.n {
        None => {
            assert(final(out)@ =~= old(out)@ + fields_text(*rest));
        },
        Some(nd) => {
            write_name(out, nd.k);
            out.append(": ");
            write_value(out, &nd.v);
            out.append(" ");
            write_fields(out, &nd.next);
            assert(final(out)@ =~= old(out)@ + fields_text(*rest));
        },
    }
}

fn write_payload(out: &mut String, l: &List<Value>)
    ensures
        final(out)@ == old(out)@ + payload_text(*l),
    decreases l, 1int,
{
    match l {
        List::Nil => {
            assert(final(out)@ =~= old(out)@ + payload_text(*l));
        },
        List::Cons(h, t) => {
            out.append(" ");
            write_value(out, h);
            write_payload(out, t);
            assert(final(out)@ =~= old(out)@ + payload_text(*l));
        },
    }
}

impl Value {
    /// The value as text.
    pub fn display(&self) -> (r: String)
        ensures
            r@ == shown(*self),
    {
        let mut out = String::new();
        write_value(&mut out, self);
        assert(out@ =~= shown(*self));
        out
    }
}

impl Ast {
    /// The tree as text.
    pub fn display(&self) -> (r: String)
        ensures
            r@ == ast_text(*self),
    {
        let mut out = String::new();
        write_ast(&mut out, self);
        assert(out@ =~= ast_text(*self));
        out
    }
}

} // verus!
