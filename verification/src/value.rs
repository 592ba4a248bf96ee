//! Values: lazily reduced terms. A value is a thunk (a typed expression
//! closed over an environment), a head that may still take a reduction step
//! (the result of a substitution), or a settled weak-head normal form whose
//! children are themselves values at arbitrary stages.
use vstd::prelude::*;

use crate::syntax::{BinOp, Builtin, Const, ExprKind, InterpolatedTextContents, Label, List};
use crate::tyexpr::TyExpr;

verus! {

/// A normalization environment: one value per enclosing binder, innermost
/// first. A variable bound by an unapplied lambda is bound to itself as a
/// neutral variable.
#[derive(Debug)]
pub struct Env {
    pub items: List<Value>,
}

/// A value, at one of three stages. The stages only ever advance: forcing a
/// thunk yields a weak-head normal form, and forcing never changes a head
/// that is already settled.
#[derive(Debug)]
pub enum Value {
    /// Unevaluated: an expression closed over the environment of its
    /// creation. Binder names, type annotations and spans have been erased:
    /// the evaluator reads none of them.
    Thunk(Box<Env>, Box<TyExpr>),
    /// Unevaluated: a head form whose children were changed by substitution,
    /// so the head may reduce once more when forced.
    Blocked(Box<ValueF>),
    /// Weak-head normal form: the head constructor is settled; children are
    /// still values at arbitrary stages.
    Whnf(Box<ValueF>),
}

/// The head of a value in weak-head normal form: either a canonical
/// constructor or a neutral blocked on a variable or an under-applied
/// built-in. Binders are represented purely positionally: a lambda body is
/// open at de Bruijn index 0 and carries no name.
#[derive(Debug)]
pub enum ValueF {
    /// A neutral, free variable (de Bruijn index into enclosing binders).
    Var(usize),
    Const(Const),
    BoolLit(bool),
    NaturalLit(u64),
    IntegerLit(i64),
    /// IEEE-754 binary64 bits; equality is bit-exact.
    DoubleLit(u64),
    /// A built-in applied to too few arguments to reduce: a neutral.
    AppliedBuiltin(Builtin, List<Value>),
    /// Lambda: argument type and body (body open at index 0).
    Lam(Value, Value),
    /// Dependent function type: domain and codomain (open at index 0).
    Pi(Value, Value),
    /// An empty list, annotated with its element type.
    EmptyListLit(Value),
    NEListLit(List<Value>),
    /// An empty optional, annotated with its element type.
    EmptyOptionalLit(Value),
    NEOptionalLit(Value),
    RecordLit(List<(Label, Value)>),
    RecordType(List<(Label, Value)>),
    UnionType(List<(Label, Option<Value>)>),
    /// A union alternative waiting for its payload.
    UnionConstructor(Label, List<(Label, Option<Value>)>),
    UnionLit(Label, Value, List<(Label, Option<Value>)>),
    TextLit(List<InterpolatedTextContents<Value>>),
    /// An equivalence `x === y`: never reduces further.
    Equivalence(Value, Value),
    /// An expression of values that could not reduce at its head: a neutral
    /// (a blocked application, a field access on a neutral record, and so
    /// on).
    PartialExpr(Box<ExprKind<Value>>),
}

impl Value {
    /// Wraps a head form as a settled weak-head normal form.
    pub fn from_whnf(vf: ValueF) -> (r: Value)
        ensures
            r == Value::Whnf(Box::new(vf)),
    {
        Value::Whnf(Box::new(vf))
    }

    /// Wraps a head form that may still take a head step when forced.
    pub fn from_blocked(vf: ValueF) -> (r: Value)
        ensures
            r == Value::Blocked(Box::new(vf)),
    {
        Value::Blocked(Box::new(vf))
    }

    /// An unapplied built-in.
    pub fn from_builtin(b: Builtin) -> (r: Value)
        ensures
            r == Value::Whnf(Box::new(ValueF::AppliedBuiltin(b, List::Nil))),
    {
        Value::Whnf(Box::new(ValueF::AppliedBuiltin(b, List::Nil)))
    }
}

pub fn clone_opt_value(o: &Option<Value>) -> (r: Option<Value>)
    ensures
        r == *o,
    decreases o,
{
    match o {
        Option::None => Option::None,
        Option::Some(v) => Option::Some(v.clone()),
    }
}

pub fn clone_values(l: &List<Value>) -> (r: List<Value>)
    ensures
        r == *l,
    decreases l,
{
    match l {
        List::Nil => List::Nil,
        List::Cons(x, rest) => List::Cons(x.clone(), Box::new(clone_values(&**rest))),
    }
}

pub fn clone_entries(l: &List<(Label, Value)>) -> (r: List<(Label, Value)>)
    ensures
        r == *l,
    decreases l,
{
    match l {
        List::Nil => List::Nil,
        List::Cons((k, x), rest) => List::Cons(
            (k.clone(), x.clone()),
            Box::new(clone_entries(&**rest)),
        ),
    }
}

pub fn clone_alts(l: &List<(Label, Option<Value>)>) -> (r: List<(Label, Option<Value>)>)
    ensures
        r == *l,
    decreases l,
{
    match l {
        List::Nil => List::Nil,
        List::Cons((k, x), rest) => List::Cons(
            (k.clone(), clone_opt_value(x)),
            Box::new(clone_alts(&**rest)),
        ),
    }
}

pub fn clone_chunks(l: &List<InterpolatedTextContents<Value>>) -> (r: List<
    InterpolatedTextContents<Value>,
>)
    ensures
        r == *l,
    decreases l,
{
    match l {
        List::Nil => List::Nil,
        List::Cons(c, rest) => List::Cons(
            match c {
                InterpolatedTextContents::Text(s) => InterpolatedTextContents::Text(
                    crate::syntax::clone_bytes(s),
                ),
                InterpolatedTextContents::Expr(e) => InterpolatedTextContents::Expr(e.clone()),
            },
            Box::new(clone_chunks(&**rest)),
        ),
    }
}

pub fn clone_value_expr_kind(e: &ExprKind<Value>) -> (r: ExprKind<Value>)
    ensures
        r == *e,
    decreases e,
{
    match e {
        ExprKind::Var(v) => ExprKind::Var(v.clone()),
        ExprKind::Const(c) => ExprKind::Const(*c),
        ExprKind::Builtin(b) => ExprKind::Builtin(*b),
        ExprKind::BoolLit(b) => ExprKind::BoolLit(*b),
        ExprKind::NaturalLit(n) => ExprKind::NaturalLit(*n),
        ExprKind::IntegerLit(n) => ExprKind::IntegerLit(*n),
        ExprKind::DoubleLit(n) => ExprKind::DoubleLit(*n),
        ExprKind::TextLit(chunks) => ExprKind::TextLit(clone_chunks(chunks)),
        ExprKind::Lam(x, t, b) => ExprKind::Lam(x.clone(), t.clone(), b.clone()),
        ExprKind::Pi(x, t, b) => ExprKind::Pi(x.clone(), t.clone(), b.clone()),
        ExprKind::Let(x, ann, v, b) => ExprKind::Let(
            x.clone(),
            clone_opt_value(ann),
            v.clone(),
            b.clone(),
        ),
        ExprKind::App(f, a) => ExprKind::App(f.clone(), a.clone()),
        ExprKind::Annot(x, t) => ExprKind::Annot(x.clone(), t.clone()),
        ExprKind::Assert(t) => ExprKind::Assert(t.clone()),
        ExprKind::BoolIf(b, e1, e2) => ExprKind::BoolIf(b.clone(), e1.clone(), e2.clone()),
        ExprKind::BinOp(o, x, y) => ExprKind::BinOp(*o, x.clone(), y.clone()),
        ExprKind::EmptyListLit(t) => ExprKind::EmptyListLit(t.clone()),
        ExprKind::NEListLit(xs) => ExprKind::NEListLit(clone_values(xs)),
        ExprKind::SomeLit(x) => ExprKind::SomeLit(x.clone()),
        ExprKind::RecordType(kts) => ExprKind::RecordType(clone_entries(kts)),
        ExprKind::RecordLit(kvs) => ExprKind::RecordLit(clone_entries(kvs)),
        ExprKind::UnionType(kts) => ExprKind::UnionType(clone_alts(kts)),
        ExprKind::Field(x, l) => ExprKind::Field(x.clone(), l.clone()),
        ExprKind::Projection(x, ls) => ExprKind::Projection(
            x.clone(),
            crate::syntax::clone_labels(ls),
        ),
        ExprKind::Merge(h, v, t) => ExprKind::Merge(h.clone(), v.clone(), clone_opt_value(t)),
    }
}

pub fn clone_valuef(vf: &ValueF) -> (r: ValueF)
    ensures
        r == *vf,
    decreases vf,
{
    match vf {
        ValueF::Var(n) => ValueF::Var(*n),
        ValueF::Const(c) => ValueF::Const(*c),
        ValueF::BoolLit(b) => ValueF::BoolLit(*b),
        ValueF::NaturalLit(n) => ValueF::NaturalLit(*n),
        ValueF::IntegerLit(n) => ValueF::IntegerLit(*n),
        ValueF::DoubleLit(n) => ValueF::DoubleLit(*n),
        ValueF::AppliedBuiltin(b, args) => ValueF::AppliedBuiltin(*b, clone_values(args)),
        ValueF::Lam(t, e) => ValueF::Lam(t.clone(), e.clone()),
        ValueF::Pi(t, e) => ValueF::Pi(t.clone(), e.clone()),
        ValueF::EmptyListLit(t) => ValueF::EmptyListLit(t.clone()),
        ValueF::NEListLit(xs) => ValueF::NEListLit(clone_values(xs)),
        ValueF::EmptyOptionalLit(t) => ValueF::EmptyOptionalLit(t.clone()),
        ValueF::NEOptionalLit(x) => ValueF::NEOptionalLit(x.clone()),
        ValueF::RecordLit(kvs) => ValueF::RecordLit(clone_entries(kvs)),
        ValueF::RecordType(kts) => ValueF::RecordType(clone_entries(kts)),
        ValueF::UnionType(kts) => ValueF::UnionType(clone_alts(kts)),
        ValueF::UnionConstructor(l, kts) => ValueF::UnionConstructor(l.clone(), clone_alts(kts)),
        ValueF::UnionLit(l, x, kts) => ValueF::UnionLit(l.clone(), x.clone(), clone_alts(kts)),
        ValueF::TextLit(chunks) => ValueF::TextLit(clone_chunks(chunks)),
        ValueF::Equivalence(x, y) => ValueF::Equivalence(x.clone(), y.clone()),
        ValueF::PartialExpr(e) => ValueF::PartialExpr(Box::new(clone_value_expr_kind(&**e))),
    }
}

impl Clone for Env {
    fn clone(&self) -> (r: Self)
        ensures
            r == *self,
        decreases self,
    {
        Env { items: clone_values(&self.items) }
    }
}

impl Clone for Value {
    fn clone(&self) -> (r: Self)
        ensures
            r == *self,
        decreases self,
    {
        match self {
            Value::Thunk(env, e) => Value::Thunk(
                Box::new((&**env).clone()),
                Box::new((&**e).clone()),
            ),
            Value::Blocked(vf) => Value::Blocked(Box::new(clone_valuef(&**vf))),
            Value::Whnf(vf) => Value::Whnf(Box::new(clone_valuef(&**vf))),
        }
    }
}

/// Holds of a fully normalized value: the head is settled and every child
/// value is itself fully normalized.
pub open spec fn is_nf(v: Value) -> bool
    decreases v,
{
    match v {
        Value::Whnf(vf) => is_nf_f(*vf),
        _ => false,
    }
}

pub open spec fn is_nf_f(vf: ValueF) -> bool
    decreases vf,
{
    match vf {
        ValueF::Var(_) => true,
        ValueF::Const(_) => true,
        ValueF::BoolLit(_) => true,
        ValueF::NaturalLit(_) => true,
        ValueF::IntegerLit(_) => true,
        ValueF::DoubleLit(_) => true,
        ValueF::AppliedBuiltin(_, args) => is_nf_values(args),
        ValueF::Lam(t, e) => is_nf(t) && is_nf(e),
        ValueF::Pi(t, e) => is_nf(t) && is_nf(e),
        ValueF::EmptyListLit(t) => is_nf(t),
        ValueF::NEListLit(xs) => is_nf_values(xs),
        ValueF::EmptyOptionalLit(t) => is_nf(t),
        ValueF::NEOptionalLit(x) => is_nf(x),
        ValueF::RecordLit(kvs) => is_nf_entries(kvs),
        ValueF::RecordType(kts) => is_nf_entries(kts),
        ValueF::UnionType(kts) => is_nf_alts(kts),
        ValueF::UnionConstructor(_, kts) => is_nf_alts(kts),
        ValueF::UnionLit(_, x, kts) => is_nf(x) && is_nf_alts(kts),
        ValueF::TextLit(chunks) => is_nf_chunks(chunks),
        ValueF::Equivalence(x, y) => is_nf(x) && is_nf(y),
        ValueF::PartialExpr(e) => is_nf_expr(*e),
    }
}

pub open spec fn is_nf_values(l: List<Value>) -> bool
    decreases l,
{
    match l {
        List::Nil => true,
        List::Cons(x, rest) => is_nf(x) && is_nf_values(*rest),
    }
}

pub open spec fn is_nf_entries(l: List<(Label, Value)>) -> bool
    decreases l,
{
    match l {
        List::Nil => true,
        List::Cons((_, x), rest) => is_nf(x) && is_nf_entries(*rest),
    }
}

pub open spec fn is_nf_opt(o: Option<Value>) -> bool
    decreases o,
{
    match o {
        Option::None => true,
        Option::Some(v) => is_nf(v),
    }
}

pub open spec fn is_nf_alts(l: List<(Label, Option<Value>)>) -> bool
    decreases l,
{
    match l {
        List::Nil => true,
        List::Cons((_, x), rest) => is_nf_opt(x) && is_nf_alts(*rest),
    }
}

pub open spec fn is_nf_chunks(l: List<InterpolatedTextContents<Value>>) -> bool
    decreases l,
{
    match l {
        List::Nil => true,
        List::Cons(c, rest) => (match c {
            InterpolatedTextContents::Text(_) => true,
            InterpolatedTextContents::Expr(e) => is_nf(e),
        }) && is_nf_chunks(*rest),
    }
}

pub open spec fn is_nf_expr(e: ExprKind<Value>) -> bool
    decreases e,
{
    match e {
        ExprKind::Var(_) => true,
        ExprKind::Const(_) => true,
        ExprKind::Builtin(_) => true,
        ExprKind::BoolLit(_) => true,
        ExprKind::NaturalLit(_) => true,
        ExprKind::IntegerLit(_) => true,
        ExprKind::DoubleLit(_) => true,
        ExprKind::TextLit(chunks) => is_nf_chunks(chunks),
        ExprKind::Lam(_, t, b) => is_nf(t) && is_nf(b),
        ExprKind::Pi(_, t, b) => is_nf(t) && is_nf(b),
        ExprKind::Let(_, ann, v, b) => is_nf_opt(ann) && is_nf(v) && is_nf(b),
        ExprKind::App(f, a) => is_nf(f) && is_nf(a),
        ExprKind::Annot(x, t) => is_nf(x) && is_nf(t),
        ExprKind::Assert(t) => is_nf(t),
        ExprKind::BoolIf(b, e1, e2) => is_nf(b) && is_nf(e1) && is_nf(e2),
        ExprKind::BinOp(_, x, y) => is_nf(x) && is_nf(y),
        ExprKind::EmptyListLit(t) => is_nf(t),
        ExprKind::NEListLit(xs) => is_nf_values(xs),
        ExprKind::SomeLit(x) => is_nf(x),
        ExprKind::RecordType(kts) => is_nf_entries(kts),
        ExprKind::RecordLit(kvs) => is_nf_entries(kvs),
        ExprKind::UnionType(kts) => is_nf_alts(kts),
        ExprKind::Field(x, _) => is_nf(x),
        ExprKind::Projection(x, _) => is_nf(x),
        ExprKind::Merge(h, v, t) => is_nf(h) && is_nf(v) && is_nf_opt(t),
    }
}

} // verus!
