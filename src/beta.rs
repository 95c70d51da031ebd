use std::rc::Rc;
use vstd::prelude::*;
use crate::name::Name;

verus! {

/// A scope spec: which names a form binds, at what, and what shadows what.
/// The keys it mentions are keys of the node body it belongs to.
pub enum Beta {
    Nothing,
    /// Both bind; on a name bound by both, the first (inner) wins.
    Shadow(Rc<Beta>, Rc<Beta>),
    /// The sub-spec once per repetition of the driver keys, later repetitions
    /// shadowing earlier ones.
    ShadowAll(Rc<Beta>, Vec<Name>),
    /// The name under the first key, bound to the result under the second.
    Basic(Name, Name),
    /// The name under the first key, bound to what the name under the second
    /// key is bound to.
    SameAs(Name, Name),
    /// The name under the key, bound to the result under it; no other binding
    /// of the spec shadows it.
    Protected(Name),
    /// The name under the key, with a type inferred elsewhere.
    Underspecified(Name),
}

} // verus!

use crate::assoc::{Assoc, AssocNode};
use crate::error::{Fault, WalkError};
use crate::list::List;
use crate::value::Value;

verus! {

/// What a scope spec may read of one repetition of a repeated position.
pub struct Rep {
    pub atom: Option<Name>,
    pub res: Result<Value, WalkError>,
}

/// What a scope spec may read of one position of a node body: the name written
/// there, if it is a name; the result of walking it; and, for a repeated
/// position, the same for each repetition.
pub struct Part {
    pub key: Name,
    pub atom: Option<Name>,
    pub res: Result<Value, WalkError>,
    pub reps: List<Rep>,
}

/// Bindings in the order they are made, and the protected ones, which are made
/// after all others.
pub type Bindings = (Seq<(Name, Value)>, Seq<(Name, Value)>);

/// The first part under key `k`.
pub open spec fn part_of(parts: Seq<Part>, k: Name) -> Option<Part>
    decreases parts.len(),
{
    if parts.len() == 0 {
        None
    } else if parts[0].key == k {
        Some(parts[0])
    } else {
        part_of(parts.drop_first(), k)
    }
}

/// The name under key `k`.
pub open spec fn binder_of(parts: Seq<Part>, k: Name) -> Result<Name, WalkError> {
    match part_of(parts, k) {
        Some(p) => match p.atom {
            Some(x) => Ok(x),
            None => Err(WalkError::Fault(Fault::MissingKey(k))),
        },
        None => Err(WalkError::Fault(Fault::MissingKey(k))),
    }
}

/// The result under key `k`.
pub open spec fn result_of(parts: Seq<Part>, k: Name) -> Result<Value, WalkError> {
    match part_of(parts, k) {
        Some(p) => p.res,
        None => Err(WalkError::Fault(Fault::MissingKey(k))),
    }
}

/// Whether the driver keys `ds[i..]` all have repetitions left (`true`) or all
/// have none (`false`).
pub open spec fn reps_left(parts: Seq<Part>, ds: Seq<Name>, i: int) -> Result<bool, WalkError>
    decreases ds.len() - i,
{
    if i < 0 || i >= ds.len() {
        Err(WalkError::Fault(Fault::UnequalRepetition))
    } else {
        match part_of(parts, ds[i]) {
            None => Err(WalkError::Fault(Fault::MissingKey(ds[i]))),
            Some(p) => if i + 1 == ds.len() {
                Ok(p.reps is Cons)
            } else {
                match reps_left(parts, ds, i + 1) {
                    Err(e) => Err(e),
                    Ok(b) => if b == (p.reps is Cons) {
                        Ok(b)
                    } else {
                        Err(WalkError::Fault(Fault::UnequalRepetition))
                    },
                }
            },
        }
    }
}

/// A driver part as seen in its first repetition.
pub open spec fn head_part(p: Part) -> Part {
    match p.reps {
        List::Cons(r, _) => Part { key: p.key, atom: r.atom, res: r.res, reps: List::Nil },
        List::Nil => p,
    }
}

/// A driver part without its first repetition.
pub open spec fn tail_part(p: Part) -> Part {
    match p.reps {
        List::Cons(_, t) => Part { key: p.key, atom: p.atom, res: p.res, reps: *t },
        List::Nil => p,
    }
}

/// The parts as seen in the first repetition of the drivers.
pub open spec fn heads(parts: Seq<Part>, ds: Seq<Name>) -> Seq<Part> {
    parts.map_values(|p: Part| if ds.contains(p.key) { head_part(p) } else { p })
}

/// The parts without the first repetition of the drivers.
pub open spec fn tails(parts: Seq<Part>, ds: Seq<Name>) -> Seq<Part> {
    parts.map_values(|p: Part| if ds.contains(p.key) { tail_part(p) } else { p })
}

pub open spec fn join(a: Result<Bindings, WalkError>, b: Result<Bindings, WalkError>) -> Result<Bindings, WalkError> {
    match a {
        Err(e) => Err(e),
        Ok(x) => match b {
            Err(e) => Err(e),
            Ok(y) => Ok((x.0 + y.0, x.1 + y.1)),
        },
    }
}

/// The bindings that `beta` makes, given the parts of its node and the
/// environment it extends.
pub open spec fn bindings_of(beta: Beta, parts: Seq<Part>, env: Assoc<Value>) -> Result<Bindings, WalkError>
    decreases beta, 0int,
{
    match beta {
        Beta::Nothing => Ok((Seq::empty(), Seq::empty())),
        Beta::Shadow(inner, outer) => join(bindings_of(*outer, parts, env), bindings_of(*inner, parts, env)),
        Beta::ShadowAll(sub, ds) => if ds@.len() == 0 {
            Ok((Seq::empty(), Seq::empty()))
        } else {
            match part_of(parts, ds@[0]) {
                None => Err(WalkError::Fault(Fault::MissingKey(ds@[0]))),
                Some(p) => rep_bindings(*sub, parts, ds@, env, p.reps),
            }
        },
        Beta::Basic(b, s) => match binder_of(parts, b) {
            Err(e) => Err(e),
            Ok(x) => match result_of(parts, s) {
                Err(e) => Err(e),
                Ok(v) => Ok((seq![(x, v)], Seq::empty())),
            },
        },
        Beta::SameAs(b, s) => match binder_of(parts, b) {
            Err(e) => Err(e),
            Ok(x) => match binder_of(parts, s) {
                Err(e) => Err(e),
                Ok(y) => match env.lookup(y) {
                    None => Err(WalkError::Fault(Fault::Unbound(y))),
                    Some(v) => Ok((seq![(x, v)], Seq::empty())),
                },
            },
        },
        Beta::Protected(b) => match binder_of(parts, b) {
            Err(e) => Err(e),
            Ok(x) => match result_of(parts, b) {
                Err(e) => Err(e),
                Ok(v) => Ok((Seq::empty(), seq![(x, v)])),
            },
        },
        Beta::Underspecified(b) => match binder_of(parts, b) {
            Err(e) => Err(e),
            Ok(x) => Err(WalkError::Fault(Fault::Underspecified(x))),
        },
    }
}

/// `sub` resolved in each remaining repetition of the drivers, in order; `drv`
/// is what remains of the first driver's repetitions.
pub open spec fn rep_bindings(
    sub: Beta,
    parts: Seq<Part>,
    ds: Seq<Name>,
    env: Assoc<Value>,
    drv: List<Rep>,
) -> Result<Bindings, WalkError>
    decreases sub, drv.view().len() + 1,
{
    match reps_left(parts, ds, 0) {
        Err(e) => Err(e),
        Ok(false) => Ok((Seq::empty(), Seq::empty())),
        Ok(true) => match drv {
            List::Nil => Ok((Seq::empty(), Seq::empty())),
            List::Cons(_, t) => join(
                bindings_of(sub, heads(parts, ds), env),
                rep_bindings(sub, tails(parts, ds), ds, env, *t),
            ),
        },
    }
}

/// `env` with the bindings `s` made in order.
pub open spec fn extend(env: Assoc<Value>, s: Seq<(Name, Value)>) -> Assoc<Value>
    decreases s.len(),
{
    if s.len() == 0 {
        env
    } else {
        let last = s.last();
        Assoc {
            n: Some(
                Rc::new(AssocNode { k: last.0, v: Rc::new(last.1), next: extend(env, s.drop_last()) }),
            ),
        }
    }
}

/// The newest binding of `k` in `s`.
pub open spec fn newest(s: Seq<(Name, Value)>, k: Name) -> Option<Value>
    decreases s.len(),
{
    if s.len() == 0 {
        None
    } else if s.last().0 == k {
        Some(s.last().1)
    } else {
        newest(s.drop_last(), k)
    }
}

/// The environment that `beta` gives its scope.
pub open spec fn scope_env(beta: Beta, parts: Seq<Part>, env: Assoc<Value>) -> Result<Assoc<Value>, WalkError> {
    match bindings_of(beta, parts, env) {
        Err(e) => Err(e),
        Ok(b) => Ok(extend(env, b.0 + b.1)),
    }
}

/// Another handle on a walk result.
pub fn share_res(r: &Result<Value, WalkError>) -> (o: Result<Value, WalkError>)
    ensures
        o == *r,
{
    match r {
        Ok(v) => Ok(v.share()),
        Err(e) => Err(*e),
    }
}

impl Rep {
    pub fn share(&self) -> (r: Rep)
        ensures
            r == *self,
    {
        Rep { atom: self.atom, res: share_res(&self.res) }
    }
}

impl Part {
    pub fn share(&self) -> (r: Part)
        ensures
            r == *self,
    {
        Part { key: self.key, atom: self.atom, res: share_res(&self.res), reps: self.reps.share() }
    }
}

/// The first part under key `k`.
pub fn find_part(parts: &List<Part>, k: Name) -> (r: Option<&Part>)
    ensures
        match r {
            None => part_of(parts.view(), k).is_none(),
            Some(p) => part_of(parts.view(), k) == Some(*p),
        },
    decreases parts,
{
    match parts {
        List::Nil => None,
        List::Cons(h, t) => {
            assert((seq![**h] + t.view()).drop_first() =~= t.view());
            if h.key.same(&k) {
                Some(&**h)
            } else {
                find_part(t, k)
            }
        },
    }
}

fn binder(parts: &List<Part>, k: Name) -> (r: Result<Name, WalkError>)
    ensures
        r == binder_of(parts.view(), k),
{
    match find_part(parts, k) {
        Some(p) => match p.atom {
            Some(x) => Ok(x),
            None => Err(WalkError::Fault(Fault::MissingKey(k))),
        },
        None => Err(WalkError::Fault(Fault::MissingKey(k))),
    }
}

fn result(parts: &List<Part>, k: Name) -> (r: Result<Value, WalkError>)
    ensures
        r == result_of(parts.view(), k),
{
    match find_part(parts, k) {
        Some(p) => share_res(&p.res),
        None => Err(WalkError::Fault(Fault::MissingKey(k))),
    }
}

fn contains_name(ds: &Vec<Name>, k: Name) -> (r: bool)
    ensures
        r == ds@.contains(k),
{
    let mut i: usize = 0;
    while i < ds.len()
        invariant
            i <= ds.len(),
            forall|j: int| 0 <= j < i ==> ds@[j] != k,
        decreases ds.len() - i,
    {
        if ds[i].same(&k) {
            return true;
        }
        i = i + 1;
    }
    false
}

fn check_reps_left(parts: &List<Part>, ds: &Vec<Name>, i: usize) -> (r: Result<bool, WalkError>)
    requires
        i < ds.len(),
    ensures
        r == reps_left(parts.view(), ds@, i as int),
    decreases ds.len() - i,
{
    match find_part(parts, ds[i]) {
        None => Err(WalkError::Fault(Fault::MissingKey(ds[i]))),
        Some(p) => {
            let here = match p.reps {
                List::Cons(_, _) => true,
                List::Nil => false,
            };
            if i + 1 == ds.len() {
                Ok(here)
            } else {
                match check_reps_left(parts, ds, i + 1) {
                    Err(e) => Err(e),
                    Ok(b) => if b == here {
                        Ok(b)
                    } else {
                        Err(WalkError::Fault(Fault::UnequalRepetition))
                    },
                }
            }
        },
    }
}

fn march_heads(parts: &List<Part>, ds: &Vec<Name>) -> (r: List<Part>)
    ensures
        r.view() == heads(parts.view(), ds@),
    decreases parts,
{
    match parts {
        List::Nil => {
            assert(heads(parts.view(), ds@) =~= Seq::<Part>::empty());
            List::Nil
        },
        List::Cons(h, t) => {
            let p = if contains_name(ds, h.key) {
                match &h.reps {
                    List::Cons(r, _) => Part {
                        key: h.key,
                        atom: r.atom,
                        res: share_res(&r.res),
                        reps: List::Nil,
                    },
                    List::Nil => h.share(),
                }
            } else {
                h.share()
            };
            let rest = march_heads(t, ds);
            let r = List::cons(p, rest);
            assert(r.view() =~= heads(parts.view(), ds@));
            r
        },
    }
}

fn march_tails(parts: &List<Part>, ds: &Vec<Name>) -> (r: List<Part>)
    ensures
        r.view() == tails(parts.view(), ds@),
    decreases parts,
{
    match parts {
        List::Nil => {
            assert(tails(parts.view(), ds@) =~= Seq::<Part>::empty());
            List::Nil
        },
        List::Cons(h, t) => {
            let p = if contains_name(ds, h.key) {
                match &h.reps {
                    List::Cons(_, rt) => Part {
                        key: h.key,
                        atom: h.atom,
                        res: share_res(&h.res),
                        reps: rt.share(),
                    },
                    List::Nil => h.share(),
                }
            } else {
                h.share()
            };
            let rest = march_tails(t, ds);
            let r = List::cons(p, rest);
            assert(r.view() =~= tails(parts.view(), ds@));
            r
        },
    }
}

/// Executable bindings: those made in order, and the protected ones.
pub type BindingVecs = (Vec<(Name, Value)>, Vec<(Name, Value)>);

pub open spec fn bindings_view(r: Result<BindingVecs, WalkError>) -> Result<Bindings, WalkError> {
    match r {
        Ok(b) => Ok((b.0@, b.1@)),
        Err(e) => Err(e),
    }
}

fn join_with(a: BindingVecs, b: Result<BindingVecs, WalkError>) -> (r: Result<BindingVecs, WalkError>)
    ensures
        bindings_view(r) == join(Ok((a.0@, a.1@)), bindings_view(b)),
{
    match b {
        Err(e) => Err(e),
        Ok(b) => {
            let (mut p, mut q) = a;
            let (mut bp, mut bq) = b;
            p.append(&mut bp);
            q.append(&mut bq);
            Ok((p, q))
        },
    }
}

fn no_bindings() -> (r: BindingVecs)
    ensures
        r.0@ == Seq::<(Name, Value)>::empty(),
        r.1@ == Seq::<(Name, Value)>::empty(),
{
    (Vec::new(), Vec::new())
}

fn one(x: Name, v: Value) -> (r: Vec<(Name, Value)>)
    ensures
        r@ == seq![(x, v)],
{
    let mut r = Vec::new();
    r.push((x, v));
    assert(r@ =~= seq![(x, v)]);
    r
}

/// The bindings that `beta` makes, given the parts of its node and the
/// environment it extends.
pub fn resolve(beta: &Beta, parts: &List<Part>, env: &Assoc<Value>) -> (r: Result<BindingVecs, WalkError>)
    ensures
        bindings_view(r) == bindings_of(*beta, parts.view(), *env),
    decreases beta, 0int,
{
    match beta {
        Beta::Nothing => Ok(no_bindings()),
        Beta::Shadow(inner, outer) => match resolve(outer, parts, env) {
            Err(e) => Err(e),
            Ok(a) => join_with(a, resolve(inner, parts, env)),
        },
        Beta::ShadowAll(sub, ds) => {
            if ds.len() == 0 {
                Ok(no_bindings())
            } else {
                match find_part(parts, ds[0]) {
                    None => Err(WalkError::Fault(Fault::MissingKey(ds[0]))),
                    Some(p) => resolve_reps(sub, parts, ds, env, &p.reps),
                }
            }
        },
        Beta::Basic(b, s) => match binder(parts, *b) {
            Err(e) => Err(e),
            Ok(x) => match result(parts, *s) {
                Err(e) => Err(e),
                Ok(v) => Ok((one(x, v), Vec::new())),
            },
        },
        Beta::SameAs(b, s) => match binder(parts, *b) {
            Err(e) => Err(e),
            Ok(x) => match binder(parts, *s) {
                Err(e) => Err(e),
                Ok(y) => match env.find(&y) {
                    None => Err(WalkError::Fault(Fault::Unbound(y))),
                    Some(v) => Ok((one(x, v.share()), Vec::new())),
                },
            },
        },
        Beta::Protected(b) => match binder(parts, *b) {
            Err(e) => Err(e),
            Ok(x) => match result(parts, *b) {
                Err(e) => Err(e),
                Ok(v) => Ok((Vec::new(), one(x, v))),
            },
        },
        Beta::Underspecified(b) => match binder(parts, *b) {
            Err(e) => Err(e),
            Ok(x) => Err(WalkError::Fault(Fault::Underspecified(x))),
        },
    }
}

fn resolve_reps(
    sub: &Beta,
    parts: &List<Part>,
    ds: &Vec<Name>,
    env: &Assoc<Value>,
    drv: &List<Rep>,
) -> (r: Result<BindingVecs, WalkError>)
    requires
        ds.len() > 0,
    ensures
        bindings_view(r) == rep_bindings(*sub, parts.view(), ds@, *env, *drv),
    decreases sub, drv.view().len() + 1,
{
    match check_reps_left(parts, ds, 0) {
        Err(e) => Err(e),
        Ok(false) => Ok(no_bindings()),
        Ok(true) => match drv {
            List::Nil => Ok(no_bindings()),
            List::Cons(_, t) => {
                let hs = march_heads(parts, ds);
                match resolve(sub, &hs, env) {
                    Err(e) => Err(e),
                    Ok(a) => {
                        let ts = march_tails(parts, ds);
                        join_with(a, resolve_reps(sub, &ts, ds, env, t))
                    },
                }
            },
        },
    }
}

/// `env` with the bindings `s` made in order.
pub fn bind_all(env: &Assoc<Value>, s: &Vec<(Name, Value)>) -> (r: Assoc<Value>)
    ensures
        r == extend(*env, s@),
{
    let mut cur = env.share();
    let mut i: usize = 0;
    while i < s.len()
        invariant
            i <= s.len(),
            cur == extend(*env, s@.subrange(0, i as int)),
        decreases s.len() - i,
    {
        assert(s@.subrange(0, i + 1).drop_last() =~= s@.subrange(0, i as int));
        cur = cur.set(s[i].0, s[i].1.share());
        i = i + 1;
    }
    assert(s@.subrange(0, s.len() as int) =~= s@);
    cur
}

/// The environment that `beta` gives its scope: `env` with the bindings made in
/// order, then the protected ones.
pub fn extend_scope(beta: &Beta, parts: &List<Part>, env: &Assoc<Value>) -> (r: Result<Assoc<Value>, WalkError>)
    ensures
        r == scope_env(*beta, parts.view(), *env),
{
    match resolve(beta, parts, env) {
        Err(e) => Err(e),
        Ok((mut plain, mut prot)) => {
            plain.append(&mut prot);
            Ok(bind_all(env, &plain))
        },
    }
}

/// The newest binding in a concatenation is the second part's, if it has one.
pub proof fn lemma_newest_concat(a: Seq<(Name, Value)>, b: Seq<(Name, Value)>, k: Name)
    ensures
        newest(a + b, k) == (if newest(b, k) is Some {
            newest(b, k)
        } else {
            newest(a, k)
        }),
    decreases b.len(),
{
    if b.len() == 0 {
        assert(a + b =~= a);
    } else {
        assert((a + b).drop_last() =~= a + b.drop_last());
        assert((a + b).last() == b.last());
        lemma_newest_concat(a, b.drop_last(), k);
    }
}

/// An extended environment sees the newest of the added bindings, else the old
/// environment's.
pub proof fn lemma_extend_lookup(env: Assoc<Value>, s: Seq<(Name, Value)>, k: Name)
    ensures
        extend(env, s).lookup(k) == (match newest(s, k) {
            Some(v) => Some(v),
            None => env.lookup(k),
        }),
    decreases s.len(),
{
    if s.len() > 0 {
        lemma_extend_lookup(env, s.drop_last(), k);
    }
}

/// Shadowing: where both halves of `Shadow(inner, outer)` bind a name, and
/// neither protects it, the scope sees the binding that `inner` makes, as the
/// scope of `inner` alone does.
pub proof fn shadow_inner_wins(inner: Beta, outer: Beta, parts: Seq<Part>, env: Assoc<Value>, x: Name)
    requires
        bindings_of(inner, parts, env) is Ok,
        bindings_of(outer, parts, env) is Ok,
        newest(bindings_of(inner, parts, env)->Ok_0.0, x) is Some,
        newest(bindings_of(outer, parts, env)->Ok_0.0, x) is Some,
        newest(bindings_of(inner, parts, env)->Ok_0.1, x) is None,
        newest(bindings_of(outer, parts, env)->Ok_0.1, x) is None,
    ensures
        scope_env(Beta::Shadow(Rc::new(inner), Rc::new(outer)), parts, env) is Ok,
        scope_env(Beta::Shadow(Rc::new(inner), Rc::new(outer)), parts, env)->Ok_0.lookup(x)
            == newest(bindings_of(inner, parts, env)->Ok_0.0, x),
        scope_env(inner, parts, env)->Ok_0.lookup(x) == newest(
            bindings_of(inner, parts, env)->Ok_0.0,
            x,
        ),
{
    let bi = bindings_of(inner, parts, env)->Ok_0;
    let bo = bindings_of(outer, parts, env)->Ok_0;
    let sh = Beta::Shadow(Rc::new(inner), Rc::new(outer));
    assert(bindings_of(sh, parts, env) == Ok::<Bindings, WalkError>((bo.0 + bi.0, bo.1 + bi.1)));
    lemma_newest_concat(bo.1, bi.1, x);
    lemma_newest_concat(bo.0, bi.0, x);
    lemma_newest_concat(bo.0 + bi.0, bo.1 + bi.1, x);
    lemma_extend_lookup(env, (bo.0 + bi.0) + (bo.1 + bi.1), x);
    lemma_newest_concat(bi.0, bi.1, x);
    lemma_extend_lookup(env, bi.0 + bi.1, x);
}

} // verus!
