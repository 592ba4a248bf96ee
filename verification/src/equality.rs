//! Structural equality of fully normalized values. Binders are compared by
//! position alone (values carry no binder names), so on normal forms this
//! is alpha-equivalence. Record-like maps are compared as mappings: the
//! entry order is irrelevant. A value still carrying an unevaluated part
//! compares equal to nothing: callers normalize first.
use vstd::prelude::*;

use crate::maps::s_record_get;
use crate::syntax::{ExprKind, InterpolatedTextContents, Label, List};
use crate::value::{Value, ValueF};

verus! {

pub open spec fn s_nf_eq(a: Value, b: Value) -> bool
    decreases a, 2int,
{
    match (a, b) {
        (Value::Whnf(x), Value::Whnf(y)) => s_nf_eq_f(*x, *y),
        _ => false,
    }
}

pub open spec fn s_nf_eq_opt(a: Option<Value>, b: Option<Value>) -> bool
    decreases a, 3int,
{
    match (a, b) {
        (Option::None, Option::None) => true,
        (Option::Some(x), Option::Some(y)) => s_nf_eq(x, y),
        _ => false,
    }
}

pub open spec fn s_nf_eq_values(a: List<Value>, b: List<Value>) -> bool
    decreases a, 3int,
{
    match (a, b) {
        (List::Nil, List::Nil) => true,
        (List::Cons(x, xr), List::Cons(y, yr)) => s_nf_eq(x, y) && s_nf_eq_values(*xr, *yr),
        _ => false,
    }
}

/// Every entry of `a` has a matching entry in `b`.
pub open spec fn s_entries_sub(a: List<(Label, Value)>, b: List<(Label, Value)>) -> bool
    decreases a, 3int,
{
    match a {
        List::Nil => true,
        List::Cons((k, v), rest) => (match s_record_get(b, k) {
            Option::Some(w) => s_nf_eq(v, w),
            Option::None => false,
        }) && s_entries_sub(*rest, b),
    }
}

/// Every key of `a` occurs in `b` (keys only; no values compared).
pub open spec fn s_keys_sub(a: List<(Label, Value)>, b: List<(Label, Value)>) -> bool
    decreases a,
{
    match a {
        List::Nil => true,
        List::Cons((k, _), rest) => s_record_get(b, k) is Some && s_keys_sub(*rest, b),
    }
}

/// Two entry maps are equal as mappings: each entry of `a` matches in `b`
/// and `b` brings no key of its own.
pub open spec fn s_nf_eq_entries(a: List<(Label, Value)>, b: List<(Label, Value)>) -> bool
    decreases a, 4int,
{
    s_entries_sub(a, b) && s_keys_sub(b, a)
}

pub open spec fn s_alt_get(l: List<(Label, Option<Value>)>, k: Label) -> Option<Option<Value>>
    decreases l,
{
    match l {
        List::Nil => Option::None,
        List::Cons((k2, v), rest) => if k2 == k {
            Option::Some(v)
        } else {
            s_alt_get(*rest, k)
        },
    }
}

pub open spec fn s_alts_sub(a: List<(Label, Option<Value>)>, b: List<(Label, Option<Value>)>)
    -> bool
    decreases a, 3int,
{
    match a {
        List::Nil => true,
        List::Cons((k, v), rest) => (match s_alt_get(b, k) {
            Option::Some(w) => s_nf_eq_opt(v, w),
            Option::None => false,
        }) && s_alts_sub(*rest, b),
    }
}

pub open spec fn s_alt_keys_sub(a: List<(Label, Option<Value>)>, b: List<(Label, Option<Value>)>)
    -> bool
    decreases a,
{
    match a {
        List::Nil => true,
        List::Cons((k, _), rest) => s_alt_get(b, k) is Some && s_alt_keys_sub(*rest, b),
    }
}

pub open spec fn s_nf_eq_alts(a: List<(Label, Option<Value>)>, b: List<(Label, Option<Value>)>)
    -> bool
    decreases a, 4int,
{
    s_alts_sub(a, b) && s_alt_keys_sub(b, a)
}

pub open spec fn s_nf_eq_chunks(
    a: List<InterpolatedTextContents<Value>>,
    b: List<InterpolatedTextContents<Value>>,
) -> bool
    decreases a, 3int,
{
    match (a, b) {
        (List::Nil, List::Nil) => true,
        (List::Cons(x, xr), List::Cons(y, yr)) => (match (x, y) {
            (InterpolatedTextContents::Text(s), InterpolatedTextContents::Text(t)) => s == t,
            (InterpolatedTextContents::Expr(v), InterpolatedTextContents::Expr(w)) => s_nf_eq(v, w),
            _ => false,
        }) && s_nf_eq_chunks(*xr, *yr),
        _ => false,
    }
}

pub open spec fn s_nf_eq_expr(a: ExprKind<Value>, b: ExprKind<Value>) -> bool
    decreases a, 3int,
{
    match (a, b) {
        (ExprKind::Var(v), ExprKind::Var(w)) => v.name == w.name && v.idx == w.idx,
        (ExprKind::Const(c), ExprKind::Const(d)) => c == d,
        (ExprKind::Builtin(c), ExprKind::Builtin(d)) => c == d,
        (ExprKind::BoolLit(c), ExprKind::BoolLit(d)) => c == d,
        (ExprKind::NaturalLit(c), ExprKind::NaturalLit(d)) => c == d,
        (ExprKind::IntegerLit(c), ExprKind::IntegerLit(d)) => c == d,
        (ExprKind::DoubleLit(c), ExprKind::DoubleLit(d)) => c == d,
        (ExprKind::TextLit(c), ExprKind::TextLit(d)) => s_nf_eq_chunks(c, d),
        (ExprKind::Lam(_, t1, b1), ExprKind::Lam(_, t2, b2)) => s_nf_eq(t1, t2) && s_nf_eq(b1, b2),
        (ExprKind::Pi(_, t1, b1), ExprKind::Pi(_, t2, b2)) => s_nf_eq(t1, t2) && s_nf_eq(b1, b2),
        (ExprKind::Let(_, a1, v1, b1), ExprKind::Let(_, a2, v2, b2)) => s_nf_eq_opt(a1, a2)
            && s_nf_eq(v1, v2) && s_nf_eq(b1, b2),
        (ExprKind::App(f1, a1), ExprKind::App(f2, a2)) => s_nf_eq(f1, f2) && s_nf_eq(a1, a2),
        (ExprKind::Annot(x1, t1), ExprKind::Annot(x2, t2)) => s_nf_eq(x1, x2) && s_nf_eq(t1, t2),
        (ExprKind::Assert(t1), ExprKind::Assert(t2)) => s_nf_eq(t1, t2),
        (ExprKind::BoolIf(c1, x1, y1), ExprKind::BoolIf(c2, x2, y2)) => s_nf_eq(c1, c2) && s_nf_eq(
            x1,
            x2,
        ) && s_nf_eq(y1, y2),
        (ExprKind::BinOp(o1, x1, y1), ExprKind::BinOp(o2, x2, y2)) => o1 == o2 && s_nf_eq(x1, x2)
            && s_nf_eq(y1, y2),
        (ExprKind::EmptyListLit(t1), ExprKind::EmptyListLit(t2)) => s_nf_eq(t1, t2),
        (ExprKind::NEListLit(xs), ExprKind::NEListLit(ys)) => s_nf_eq_values(xs, ys),
        (ExprKind::SomeLit(x), ExprKind::SomeLit(y)) => s_nf_eq(x, y),
        (ExprKind::RecordType(x), ExprKind::RecordType(y)) => s_nf_eq_entries(x, y),
        (ExprKind::RecordLit(x), ExprKind::RecordLit(y)) => s_nf_eq_entries(x, y),
        (ExprKind::UnionType(x), ExprKind::UnionType(y)) => s_nf_eq_alts(x, y),
        (ExprKind::Field(x, k), ExprKind::Field(y, m)) => s_nf_eq(x, y) && k == m,
        (ExprKind::Projection(x, ks), ExprKind::Projection(y, ms)) => s_nf_eq(x, y) && ks == ms,
        (ExprKind::Merge(h1, v1, t1), ExprKind::Merge(h2, v2, t2)) => s_nf_eq(h1, h2) && s_nf_eq(
            v1,
            v2,
        ) && s_nf_eq_opt(t1, t2),
        _ => false,
    }
}

pub open spec fn s_nf_eq_f(a: ValueF, b: ValueF) -> bool
    decreases a, 2int,
{
    match (a, b) {
        (ValueF::Var(n), ValueF::Var(m)) => n == m,
        (ValueF::Const(c), ValueF::Const(d)) => c == d,
        (ValueF::BoolLit(c), ValueF::BoolLit(d)) => c == d,
        (ValueF::NaturalLit(c), ValueF::NaturalLit(d)) => c == d,
        (ValueF::IntegerLit(c), ValueF::IntegerLit(d)) => c == d,
        (ValueF::DoubleLit(c), ValueF::DoubleLit(d)) => c == d,
        (ValueF::AppliedBuiltin(c, xs), ValueF::AppliedBuiltin(d, ys)) => c == d && s_nf_eq_values(
            xs,
            ys,
        ),
        (ValueF::Lam(t1, b1), ValueF::Lam(t2, b2)) => s_nf_eq(t1, t2) && s_nf_eq(b1, b2),
        (ValueF::Pi(t1, b1), ValueF::Pi(t2, b2)) => s_nf_eq(t1, t2) && s_nf_eq(b1, b2),
        (ValueF::EmptyListLit(t1), ValueF::EmptyListLit(t2)) => s_nf_eq(t1, t2),
        (ValueF::NEListLit(xs), ValueF::NEListLit(ys)) => s_nf_eq_values(xs, ys),
        (ValueF::EmptyOptionalLit(t1), ValueF::EmptyOptionalLit(t2)) => s_nf_eq(t1, t2),
        (ValueF::NEOptionalLit(x), ValueF::NEOptionalLit(y)) => s_nf_eq(x, y),
        (ValueF::RecordLit(x), ValueF::RecordLit(y)) => s_nf_eq_entries(x, y),
        (ValueF::RecordType(x), ValueF::RecordType(y)) => s_nf_eq_entries(x, y),
        (ValueF::UnionType(x), ValueF::UnionType(y)) => s_nf_eq_alts(x, y),
        (ValueF::UnionConstructor(k, x), ValueF::UnionConstructor(m, y)) => k == m && s_nf_eq_alts(
            x,
            y,
        ),
        (ValueF::UnionLit(k, v, x), ValueF::UnionLit(m, w, y)) => k == m && s_nf_eq(v, w)
            && s_nf_eq_alts(x, y),
        (ValueF::TextLit(c), ValueF::TextLit(d)) => s_nf_eq_chunks(c, d),
        (ValueF::Equivalence(x1, y1), ValueF::Equivalence(x2, y2)) => s_nf_eq(x1, x2) && s_nf_eq(
            y1,
            y2,
        ),
        (ValueF::PartialExpr(x), ValueF::PartialExpr(y)) => s_nf_eq_expr(*x, *y),
        _ => false,
    }
}

pub fn nf_eq(a: &Value, b: &Value) -> (r: bool)
    ensures
        r == s_nf_eq(*a, *b),
    decreases *a, 2int,
{
    match (a, b) {
        (Value::Whnf(x), Value::Whnf(y)) => nf_eq_f(&**x, &**y),
        _ => false,
    }
}

pub fn nf_eq_opt(a: &Option<Value>, b: &Option<Value>) -> (r: bool)
    ensures
        r == s_nf_eq_opt(*a, *b),
    decreases *a, 3int,
{
    match (a, b) {
        (Option::None, Option::None) => true,
        (Option::Some(x), Option::Some(y)) => nf_eq(x, y),
        _ => false,
    }
}

pub fn nf_eq_values(a: &List<Value>, b: &List<Value>) -> (r: bool)
    ensures
        r == s_nf_eq_values(*a, *b),
    decreases *a, 3int,
{
    match (a, b) {
        (List::Nil, List::Nil) => true,
        (List::Cons(x, xr), List::Cons(y, yr)) => nf_eq(x, y) && nf_eq_values(&**xr, &**yr),
        _ => false,
    }
}

fn entries_sub(a: &List<(Label, Value)>, b: &List<(Label, Value)>) -> (r: bool)
    ensures
        r == s_entries_sub(*a, *b),
    decreases *a, 3int,
{
    match a {
        List::Nil => true,
        List::Cons((k, v), rest) => (match crate::maps::record_get(b, k) {
            Option::Some(w) => nf_eq(v, &w),
            Option::None => false,
        }) && entries_sub(&**rest, b),
    }
}

fn keys_sub(a: &List<(Label, Value)>, b: &List<(Label, Value)>) -> (r: bool)
    ensures
        r == s_keys_sub(*a, *b),
    decreases *a,
{
    match a {
        List::Nil => true,
        List::Cons((k, _), rest) => crate::maps::record_get(b, k).is_some() && keys_sub(&**rest, b),
    }
}

pub fn nf_eq_entries(a: &List<(Label, Value)>, b: &List<(Label, Value)>) -> (r: bool)
    ensures
        r == s_nf_eq_entries(*a, *b),
    decreases *a, 4int,
{
    entries_sub(a, b) && keys_sub(b, a)
}

pub fn alt_get(l: &List<(Label, Option<Value>)>, k: &Label) -> (r: Option<Option<Value>>)
    ensures
        r == s_alt_get(*l, *k),
    decreases *l,
{
    match l {
        List::Nil => Option::None,
        List::Cons((k2, v), rest) => if crate::syntax::label_eq(k2, k) {
            Option::Some(crate::value::clone_opt_value(v))
        } else {
            alt_get(&**rest, k)
        },
    }
}

fn alts_sub(a: &List<(Label, Option<Value>)>, b: &List<(Label, Option<Value>)>) -> (r: bool)
    ensures
        r == s_alts_sub(*a, *b),
    decreases *a, 3int,
{
    match a {
        List::Nil => true,
        List::Cons((k, v), rest) => (match alt_get(b, k) {
            Option::Some(w) => nf_eq_opt(v, &w),
            Option::None => false,
        }) && alts_sub(&**rest, b),
    }
}

fn alt_keys_sub(a: &List<(Label, Option<Value>)>, b: &List<(Label, Option<Value>)>) -> (r: bool)
    ensures
        r == s_alt_keys_sub(*a, *b),
    decreases *a,
{
    match a {
        List::Nil => true,
        List::Cons((k, _), rest) => alt_get(b, k).is_some() && alt_keys_sub(&**rest, b),
    }
}

pub fn nf_eq_alts(a: &List<(Label, Option<Value>)>, b: &List<(Label, Option<Value>)>) -> (r: bool)
    ensures
        r == s_nf_eq_alts(*a, *b),
    decreases *a, 4int,
{
    alts_sub(a, b) && alt_keys_sub(b, a)
}

pub fn nf_eq_chunks(
    a: &List<InterpolatedTextContents<Value>>,
    b: &List<InterpolatedTextContents<Value>>,
) -> (r: bool)
    ensures
        r == s_nf_eq_chunks(*a, *b),
    decreases *a, 3int,
{
    match (a, b) {
        (List::Nil, List::Nil) => true,
        (List::Cons(x, xr), List::Cons(y, yr)) => (match (x, y) {
            (InterpolatedTextContents::Text(s), InterpolatedTextContents::Text(t)) =>
                crate::syntax::bytes_eq(s, t),
            (InterpolatedTextContents::Expr(v), InterpolatedTextContents::Expr(w)) => nf_eq(v, w),
            _ => false,
        }) && nf_eq_chunks(&**xr, &**yr),
        _ => false,
    }
}

pub fn nf_eq_expr(a: &ExprKind<Value>, b: &ExprKind<Value>) -> (r: bool)
    ensures
        r == s_nf_eq_expr(*a, *b),
    decreases *a, 3int,
{
    match (a, b) {
        (ExprKind::Var(v), ExprKind::Var(w)) => crate::syntax::label_eq(&v.name, &w.name)
            && v.idx == w.idx,
        (ExprKind::Const(c), ExprKind::Const(d)) => c == d,
        (ExprKind::Builtin(c), ExprKind::Builtin(d)) => c == d,
        (ExprKind::BoolLit(c), ExprKind::BoolLit(d)) => c == d,
        (ExprKind::NaturalLit(c), ExprKind::NaturalLit(d)) => c == d,
        (ExprKind::IntegerLit(c), ExprKind::IntegerLit(d)) => c == d,
        (ExprKind::DoubleLit(c), ExprKind::DoubleLit(d)) => c == d,
        (ExprKind::TextLit(c), ExprKind::TextLit(d)) => nf_eq_chunks(c, d),
        (ExprKind::Lam(_, t1, b1), ExprKind::Lam(_, t2, b2)) => nf_eq(t1, t2) && nf_eq(b1, b2),
        (ExprKind::Pi(_, t1, b1), ExprKind::Pi(_, t2, b2)) => nf_eq(t1, t2) && nf_eq(b1, b2),
        (ExprKind::Let(_, a1, v1, b1), ExprKind::Let(_, a2, v2, b2)) => nf_eq_opt(a1, a2)
            && nf_eq(v1, v2) && nf_eq(b1, b2),
        (ExprKind::App(f1, a1), ExprKind::App(f2, a2)) => nf_eq(f1, f2) && nf_eq(a1, a2),
        (ExprKind::Annot(x1, t1), ExprKind::Annot(x2, t2)) => nf_eq(x1, x2) && nf_eq(t1, t2),
        (ExprKind::Assert(t1), ExprKind::Assert(t2)) => nf_eq(t1, t2),
        (ExprKind::BoolIf(c1, x1, y1), ExprKind::BoolIf(c2, x2, y2)) => nf_eq(c1, c2)
            && nf_eq(x1, x2) && nf_eq(y1, y2),
        (ExprKind::BinOp(o1, x1, y1), ExprKind::BinOp(o2, x2, y2)) => o1 == o2 && nf_eq(x1, x2)
            && nf_eq(y1, y2),
        (ExprKind::EmptyListLit(t1), ExprKind::EmptyListLit(t2)) => nf_eq(t1, t2),
        (ExprKind::NEListLit(xs), ExprKind::NEListLit(ys)) => nf_eq_values(xs, ys),
        (ExprKind::SomeLit(x), ExprKind::SomeLit(y)) => nf_eq(x, y),
        (ExprKind::RecordType(x), ExprKind::RecordType(y)) => nf_eq_entries(x, y),
        (ExprKind::RecordLit(x), ExprKind::RecordLit(y)) => nf_eq_entries(x, y),
        (ExprKind::UnionType(x), ExprKind::UnionType(y)) => nf_eq_alts(x, y),
        (ExprKind::Field(x, k), ExprKind::Field(y, m)) => nf_eq(x, y)
            && crate::syntax::label_eq(k, m),
        (ExprKind::Projection(x, ks), ExprKind::Projection(y, ms)) => nf_eq(x, y)
            && labels_eq(ks, ms),
        (ExprKind::Merge(h1, v1, t1), ExprKind::Merge(h2, v2, t2)) => nf_eq(h1, h2)
            && nf_eq(v1, v2) && nf_eq_opt(t1, t2),
        _ => false,
    }
}

pub fn labels_eq(a: &List<Label>, b: &List<Label>) -> (r: bool)
    ensures
        r == (*a == *b),
    decreases *a,
{
    match (a, b) {
        (List::Nil, List::Nil) => true,
        (List::Cons(x, xr), List::Cons(y, yr)) => crate::syntax::label_eq(x, y)
            && labels_eq(&**xr, &**yr),
        _ => false,
    }
}

pub fn nf_eq_f(a: &ValueF, b: &ValueF) -> (r: bool)
    ensures
        r == s_nf_eq_f(*a, *b),
    decreases *a, 2int,
{
    match (a, b) {
        (ValueF::Var(n), ValueF::Var(m)) => n == m,
        (ValueF::Const(c), ValueF::Const(d)) => c == d,
        (ValueF::BoolLit(c), ValueF::BoolLit(d)) => c == d,
        (ValueF::NaturalLit(c), ValueF::NaturalLit(d)) => c == d,
        (ValueF::IntegerLit(c), ValueF::IntegerLit(d)) => c == d,
        (ValueF::DoubleLit(c), ValueF::DoubleLit(d)) => c == d,
        (ValueF::AppliedBuiltin(c, xs), ValueF::AppliedBuiltin(d, ys)) => c == d
            && nf_eq_values(xs, ys),
        (ValueF::Lam(t1, b1), ValueF::Lam(t2, b2)) => nf_eq(t1, t2) && nf_eq(b1, b2),
        (ValueF::Pi(t1, b1), ValueF::Pi(t2, b2)) => nf_eq(t1, t2) && nf_eq(b1, b2),
        (ValueF::EmptyListLit(t1), ValueF::EmptyListLit(t2)) => nf_eq(t1, t2),
        (ValueF::NEListLit(xs), ValueF::NEListLit(ys)) => nf_eq_values(xs, ys),
        (ValueF::EmptyOptionalLit(t1), ValueF::EmptyOptionalLit(t2)) => nf_eq(t1, t2),
        (ValueF::NEOptionalLit(x), ValueF::NEOptionalLit(y)) => nf_eq(x, y),
        (ValueF::RecordLit(x), ValueF::RecordLit(y)) => nf_eq_entries(x, y),
        (ValueF::RecordType(x), ValueF::RecordType(y)) => nf_eq_entries(x, y),
        (ValueF::UnionType(x), ValueF::UnionType(y)) => nf_eq_alts(x, y),
        (ValueF::UnionConstructor(k, x), ValueF::UnionConstructor(m, y)) =>
            crate::syntax::label_eq(k, m) && nf_eq_alts(x, y),
        (ValueF::UnionLit(k, v, x), ValueF::UnionLit(m, w, y)) => crate::syntax::label_eq(k, m)
            && nf_eq(v, w) && nf_eq_alts(x, y),
        (ValueF::TextLit(c), ValueF::TextLit(d)) => nf_eq_chunks(c, d),
        (ValueF::Equivalence(x1, y1), ValueF::Equivalence(x2, y2)) => nf_eq(x1, x2)
            && nf_eq(y1, y2),
        (ValueF::PartialExpr(x), ValueF::PartialExpr(y)) => nf_eq_expr(&**x, &**y),
        _ => false,
    }
}

} // verus!
