//! The variable model on values: shifting of free de Bruijn indices and
//! capture-avoiding substitution. Both are a single structural traversal,
//! differing only at variables and when crossing a binder. Substitution may
//! enable a new head reduction wherever it rewrites children, so it demotes
//! settled heads to pending ones; shifting only renames variables and keeps
//! every head as it was.
use vstd::prelude::*;

use crate::syntax::{ExprKind, InterpolatedTextContents, Label, List};
use crate::tyexpr::AlphaVar;
use crate::value::{Env, Value, ValueF};

verus! {

/// What a traversal does to variables: add `delta` to every free index at
/// or above `cutoff`, or replace index `var` by a value (decrementing the
/// free indices above `var`).
pub enum VarOp {
    Shift(usize, usize),
    Subst(usize, Value),
}

/// Substitution ranks above shifting: crossing a binder during substitution
/// shifts the replacement, and that inner traversal must be the smaller one.
pub open spec fn op_rank(op: VarOp) -> int {
    match op {
        VarOp::Shift(_, _) => 0,
        VarOp::Subst(_, _) => 1,
    }
}

/// Keeps the stage a head was at, for heads the traversal cannot have made
/// reducible.
pub open spec fn s_rewrap(was_whnf: bool, vf: ValueF) -> Value {
    if was_whnf {
        Value::Whnf(Box::new(vf))
    } else {
        Value::Blocked(Box::new(vf))
    }
}

/// What a traversal leaves of a rewritten non-variable head: shifting keeps
/// the stage, substitution leaves a pending head that is re-examined when
/// forced.
pub open spec fn s_restage(op: VarOp, was_whnf: bool, vf: ValueF) -> Value {
    match op {
        VarOp::Shift(_, _) => s_rewrap(was_whnf, vf),
        VarOp::Subst(_, _) => Value::Blocked(Box::new(vf)),
    }
}

pub open spec fn s_vop_value(v: Value, op: VarOp) -> Value
    decreases op_rank(op), v, 2int,
{
    match v {
        Value::Thunk(env, e) => Value::Thunk(Box::new(s_vop_env(*env, op)), e),
        Value::Whnf(vf) => s_vop_valuef(*vf, op, true),
        Value::Blocked(vf) => s_vop_valuef(*vf, op, false),
    }
}

pub open spec fn s_vop_env(env: Env, op: VarOp) -> Env
    decreases op_rank(op), env, 1int,
{
    Env { items: s_vop_values(env.items, op) }
}

pub open spec fn s_vop_values(l: List<Value>, op: VarOp) -> List<Value>
    decreases op_rank(op), l, 1int,
{
    match l {
        List::Nil => List::Nil,
        List::Cons(x, rest) => List::Cons(
            s_vop_value(x, op),
            Box::new(s_vop_values(*rest, op)),
        ),
    }
}

pub open spec fn s_vop_opt(o: Option<Value>, op: VarOp) -> Option<Value>
    decreases op_rank(op), o, 1int,
{
    match o {
        Option::None => Option::None,
        Option::Some(x) => Option::Some(s_vop_value(x, op)),
    }
}

pub open spec fn s_vop_entries(l: List<(Label, Value)>, op: VarOp) -> List<(Label, Value)>
    decreases op_rank(op), l, 1int,
{
    match l {
        List::Nil => List::Nil,
        List::Cons((k, x), rest) => List::Cons(
            (k, s_vop_value(x, op)),
            Box::new(s_vop_entries(*rest, op)),
        ),
    }
}

pub open spec fn s_vop_alts(l: List<(Label, Option<Value>)>, op: VarOp) -> List<
    (Label, Option<Value>),
>
    decreases op_rank(op), l, 1int,
{
    match l {
        List::Nil => List::Nil,
        List::Cons((k, x), rest) => List::Cons(
            (k, s_vop_opt(x, op)),
            Box::new(s_vop_alts(*rest, op)),
        ),
    }
}

pub open spec fn s_vop_chunks(l: List<InterpolatedTextContents<Value>>, op: VarOp) -> List<
    InterpolatedTextContents<Value>,
>
    decreases op_rank(op), l, 1int,
{
    match l {
        List::Nil => List::Nil,
        List::Cons(c, rest) => List::Cons(
            match c {
                InterpolatedTextContents::Text(s) => InterpolatedTextContents::Text(s),
                InterpolatedTextContents::Expr(e) => InterpolatedTextContents::Expr(
                    s_vop_value(e, op),
                ),
            },
            Box::new(s_vop_chunks(*rest, op)),
        ),
    }
}

pub open spec fn s_vop_expr(e: ExprKind<Value>, op: VarOp) -> ExprKind<Value>
    decreases op_rank(op), e, 1int,
{
    match e {
        ExprKind::Var(v) => ExprKind::Var(v),
        ExprKind::Const(c) => ExprKind::Const(c),
        ExprKind::Builtin(b) => ExprKind::Builtin(b),
        ExprKind::BoolLit(b) => ExprKind::BoolLit(b),
        ExprKind::NaturalLit(n) => ExprKind::NaturalLit(n),
        ExprKind::IntegerLit(n) => ExprKind::IntegerLit(n),
        ExprKind::DoubleLit(n) => ExprKind::DoubleLit(n),
        ExprKind::TextLit(chunks) => ExprKind::TextLit(s_vop_chunks(chunks, op)),
        ExprKind::Lam(x, t, b) => ExprKind::Lam(
            x,
            s_vop_value(t, op),
            s_vop_value(b, (match op {
                VarOp::Shift(d2, c2) => VarOp::Shift(d2, c2.wrapping_add(1)),
                VarOp::Subst(i2, r2) => VarOp::Subst(
                    i2.wrapping_add(1),
                    s_vop_value(r2, VarOp::Shift(1, 0)),
                ),
            })),
        ),
        ExprKind::Pi(x, t, b) => ExprKind::Pi(
            x,
            s_vop_value(t, op),
            s_vop_value(b, (match op {
                VarOp::Shift(d2, c2) => VarOp::Shift(d2, c2.wrapping_add(1)),
                VarOp::Subst(i2, r2) => VarOp::Subst(
                    i2.wrapping_add(1),
                    s_vop_value(r2, VarOp::Shift(1, 0)),
                ),
            })),
        ),
        ExprKind::Let(x, ann, v, b) => ExprKind::Let(
            x,
            s_vop_opt(ann, op),
            s_vop_value(v, op),
            s_vop_value(b, (match op {
                VarOp::Shift(d2, c2) => VarOp::Shift(d2, c2.wrapping_add(1)),
                VarOp::Subst(i2, r2) => VarOp::Subst(
                    i2.wrapping_add(1),
                    s_vop_value(r2, VarOp::Shift(1, 0)),
                ),
            })),
        ),
        ExprKind::App(f, a) => ExprKind::App(s_vop_value(f, op), s_vop_value(a, op)),
        ExprKind::Annot(x, t) => ExprKind::Annot(s_vop_value(x, op), s_vop_value(t, op)),
        ExprKind::Assert(t) => ExprKind::Assert(s_vop_value(t, op)),
        ExprKind::BoolIf(b, e1, e2) => ExprKind::BoolIf(
            s_vop_value(b, op),
            s_vop_value(e1, op),
            s_vop_value(e2, op),
        ),
        ExprKind::BinOp(o, x, y) => ExprKind::BinOp(o, s_vop_value(x, op), s_vop_value(y, op)),
        ExprKind::EmptyListLit(t) => ExprKind::EmptyListLit(s_vop_value(t, op)),
        ExprKind::NEListLit(xs) => ExprKind::NEListLit(s_vop_values(xs, op)),
        ExprKind::SomeLit(x) => ExprKind::SomeLit(s_vop_value(x, op)),
        ExprKind::RecordType(kts) => ExprKind::RecordType(s_vop_entries(kts, op)),
        ExprKind::RecordLit(kvs) => ExprKind::RecordLit(s_vop_entries(kvs, op)),
        ExprKind::UnionType(kts) => ExprKind::UnionType(s_vop_alts(kts, op)),
        ExprKind::Field(x, l) => ExprKind::Field(s_vop_value(x, op), l),
        ExprKind::Projection(x, ls) => ExprKind::Projection(s_vop_value(x, op), ls),
        ExprKind::Merge(h, v, t) => ExprKind::Merge(
            s_vop_value(h, op),
            s_vop_value(v, op),
            s_vop_opt(t, op),
        ),
    }
}

/// A free variable as rewritten by the operation. The head's stage is kept:
/// a variable head can never become reducible.
pub open spec fn s_vop_var(n: usize, op: VarOp, was_whnf: bool) -> Value {
    match op {
        VarOp::Shift(d, c) => {
            if n >= c {
                s_rewrap(was_whnf, ValueF::Var(n.wrapping_add(d)))
            } else {
                s_rewrap(was_whnf, ValueF::Var(n))
            }
        },
        VarOp::Subst(i, r) => {
            if n == i {
                r
            } else if n > i {
                Value::Whnf(Box::new(ValueF::Var((n - 1) as usize)))
            } else {
                Value::Whnf(Box::new(ValueF::Var(n)))
            }
        },
    }
}

pub open spec fn s_vop_valuef(vf: ValueF, op: VarOp, was_whnf: bool) -> Value
    decreases op_rank(op), vf, 2int,
{
    match vf {
        ValueF::Var(n) => s_vop_var(n, op, was_whnf),
        ValueF::Const(c) => s_restage(op, was_whnf, ValueF::Const(c)),
        ValueF::BoolLit(b) => s_restage(op, was_whnf, ValueF::BoolLit(b)),
        ValueF::NaturalLit(n) => s_restage(op, was_whnf, ValueF::NaturalLit(n)),
        ValueF::IntegerLit(n) => s_restage(op, was_whnf, ValueF::IntegerLit(n)),
        ValueF::DoubleLit(n) => s_restage(op, was_whnf, ValueF::DoubleLit(n)),
        ValueF::AppliedBuiltin(b, args) => s_restage(
            op,
            was_whnf,
            ValueF::AppliedBuiltin(b, s_vop_values(args, op)),
        ),
        ValueF::Lam(t, e) => s_restage(
            op,
            was_whnf,
            ValueF::Lam(s_vop_value(t, op), s_vop_value(e, (match op {
                VarOp::Shift(d2, c2) => VarOp::Shift(d2, c2.wrapping_add(1)),
                VarOp::Subst(i2, r2) => VarOp::Subst(
                    i2.wrapping_add(1),
                    s_vop_value(r2, VarOp::Shift(1, 0)),
                ),
            }))),
        ),
        ValueF::Pi(t, e) => s_restage(
            op,
            was_whnf,
            ValueF::Pi(s_vop_value(t, op), s_vop_value(e, (match op {
                VarOp::Shift(d2, c2) => VarOp::Shift(d2, c2.wrapping_add(1)),
                VarOp::Subst(i2, r2) => VarOp::Subst(
                    i2.wrapping_add(1),
                    s_vop_value(r2, VarOp::Shift(1, 0)),
                ),
            }))),
        ),
        ValueF::EmptyListLit(t) => s_restage(op, was_whnf, ValueF::EmptyListLit(s_vop_value(t, op))),
        ValueF::NEListLit(xs) => s_restage(op, was_whnf, ValueF::NEListLit(s_vop_values(xs, op))),
        ValueF::EmptyOptionalLit(t) => s_restage(
            op,
            was_whnf,
            ValueF::EmptyOptionalLit(s_vop_value(t, op)),
        ),
        ValueF::NEOptionalLit(x) => s_restage(
            op,
            was_whnf,
            ValueF::NEOptionalLit(s_vop_value(x, op)),
        ),
        ValueF::RecordLit(kvs) => s_restage(op, was_whnf, ValueF::RecordLit(s_vop_entries(kvs, op))),
        ValueF::RecordType(kts) => s_restage(
            op,
            was_whnf,
            ValueF::RecordType(s_vop_entries(kts, op)),
        ),
        ValueF::UnionType(kts) => s_restage(op, was_whnf, ValueF::UnionType(s_vop_alts(kts, op))),
        ValueF::UnionConstructor(l, kts) => s_restage(
            op,
            was_whnf,
            ValueF::UnionConstructor(l, s_vop_alts(kts, op)),
        ),
        ValueF::UnionLit(l, x, kts) => s_restage(
            op,
            was_whnf,
            ValueF::UnionLit(l, s_vop_value(x, op), s_vop_alts(kts, op)),
        ),
        ValueF::TextLit(chunks) => s_restage(op, was_whnf, ValueF::TextLit(s_vop_chunks(chunks, op))),
        ValueF::Equivalence(x, y) => s_restage(
            op,
            was_whnf,
            ValueF::Equivalence(s_vop_value(x, op), s_vop_value(y, op)),
        ),
        ValueF::PartialExpr(e) => s_restage(
            op,
            was_whnf,
            ValueF::PartialExpr(Box::new(s_vop_expr(*e, op))),
        ),
    }
}

/// Adds `delta` to every free variable index at or above `cutoff`.
pub open spec fn s_shift(v: Value, delta: usize, cutoff: usize) -> Value {
    s_vop_value(v, VarOp::Shift(delta, cutoff))
}

/// Replaces free occurrences of `var` by `repl`, shifting `repl` across the
/// binders it crosses and decrementing the free indices above `var`.
pub open spec fn s_subst_shift(v: Value, var: AlphaVar, repl: Value) -> Value {
    s_vop_value(v, VarOp::Subst(var.idx, repl))
}

fn rewrap(was_whnf: bool, vf: ValueF) -> (r: Value)
    ensures
        r == s_rewrap(was_whnf, vf),
{
    if was_whnf {
        Value::Whnf(Box::new(vf))
    } else {
        Value::Blocked(Box::new(vf))
    }
}

fn restage(op: &VarOp, was_whnf: bool, vf: ValueF) -> (r: Value)
    ensures
        r == s_restage(*op, was_whnf, vf),
{
    match op {
        VarOp::Shift(_, _) => rewrap(was_whnf, vf),
        VarOp::Subst(_, _) => Value::Blocked(Box::new(vf)),
    }
}

pub fn vop_value(v: &Value, op: &VarOp) -> (r: Value)
    ensures
        r == s_vop_value(*v, *op),
    decreases op_rank(*op), *v, 2int,
{
    match v {
        Value::Thunk(env, e) => Value::Thunk(
            Box::new(vop_env(&**env, op)),
            Box::new((&**e).clone()),
        ),
        Value::Whnf(vf) => vop_valuef(&**vf, op, true),
        Value::Blocked(vf) => vop_valuef(&**vf, op, false),
    }
}

pub fn vop_env(env: &Env, op: &VarOp) -> (r: Env)
    ensures
        r == s_vop_env(*env, *op),
    decreases op_rank(*op), *env, 1int,
{
    Env { items: vop_values(&env.items, op) }
}

pub fn vop_values(l: &List<Value>, op: &VarOp) -> (r: List<Value>)
    ensures
        r == s_vop_values(*l, *op),
    decreases op_rank(*op), *l, 1int,
{
    match l {
        List::Nil => List::Nil,
        List::Cons(x, rest) => List::Cons(
            vop_value(x, op),
            Box::new(vop_values(&**rest, op)),
        ),
    }
}

pub fn vop_opt(o: &Option<Value>, op: &VarOp) -> (r: Option<Value>)
    ensures
        r == s_vop_opt(*o, *op),
    decreases op_rank(*op), *o, 1int,
{
    match o {
        Option::None => Option::None,
        Option::Some(x) => Option::Some(vop_value(x, op)),
    }
}

pub fn vop_entries(l: &List<(Label, Value)>, op: &VarOp) -> (r: List<(Label, Value)>)
    ensures
        r == s_vop_entries(*l, *op),
    decreases op_rank(*op), *l, 1int,
{
    match l {
        List::Nil => List::Nil,
        List::Cons((k, x), rest) => List::Cons(
            (k.clone(), vop_value(x, op)),
            Box::new(vop_entries(&**rest, op)),
        ),
    }
}

pub fn vop_alts(l: &List<(Label, Option<Value>)>, op: &VarOp) -> (r: List<(Label, Option<Value>)>)
    ensures
        r == s_vop_alts(*l, *op),
    decreases op_rank(*op), *l, 1int,
{
    match l {
        List::Nil => List::Nil,
        List::Cons((k, x), rest) => List::Cons(
            (k.clone(), vop_opt(x, op)),
            Box::new(vop_alts(&**rest, op)),
        ),
    }
}

pub fn vop_chunks(l: &List<InterpolatedTextContents<Value>>, op: &VarOp) -> (r: List<
    InterpolatedTextContents<Value>,
>)
    ensures
        r == s_vop_chunks(*l, *op),
    decreases op_rank(*op), *l, 1int,
{
    match l {
        List::Nil => List::Nil,
        List::Cons(c, rest) => List::Cons(
            match c {
                InterpolatedTextContents::Text(s) => InterpolatedTextContents::Text(
                    crate::syntax::clone_bytes(s),
                ),
                InterpolatedTextContents::Expr(e) => InterpolatedTextContents::Expr(
                    vop_value(e, op),
                ),
            },
            Box::new(vop_chunks(&**rest, op)),
        ),
    }
}

pub fn vop_expr(e: &ExprKind<Value>, op: &VarOp) -> (r: ExprKind<Value>)
    ensures
        r == s_vop_expr(*e, *op),
    decreases op_rank(*op), *e, 1int,
{
    match e {
        ExprKind::Var(v) => ExprKind::Var(v.clone()),
        ExprKind::Const(c) => ExprKind::Const(*c),
        ExprKind::Builtin(b) => ExprKind::Builtin(*b),
        ExprKind::BoolLit(b) => ExprKind::BoolLit(*b),
        ExprKind::NaturalLit(n) => ExprKind::NaturalLit(*n),
        ExprKind::IntegerLit(n) => ExprKind::IntegerLit(*n),
        ExprKind::DoubleLit(n) => ExprKind::DoubleLit(*n),
        ExprKind::TextLit(chunks) => ExprKind::TextLit(vop_chunks(chunks, op)),
        ExprKind::Lam(x, t, b) => {
            let op2 = match op {
                VarOp::Shift(d, c) => VarOp::Shift(*d, c.wrapping_add(1)),
                VarOp::Subst(i, repl) => VarOp::Subst(
                    i.wrapping_add(1),
                    vop_value(repl, &VarOp::Shift(1, 0)),
                ),
            };
            ExprKind::Lam(x.clone(), vop_value(t, op), vop_value(b, &op2))
        },
        ExprKind::Pi(x, t, b) => {
            let op2 = match op {
                VarOp::Shift(d, c) => VarOp::Shift(*d, c.wrapping_add(1)),
                VarOp::Subst(i, repl) => VarOp::Subst(
                    i.wrapping_add(1),
                    vop_value(repl, &VarOp::Shift(1, 0)),
                ),
            };
            ExprKind::Pi(x.clone(), vop_value(t, op), vop_value(b, &op2))
        },
        ExprKind::Let(x, ann, v, b) => {
            let op2 = match op {
                VarOp::Shift(d, c) => VarOp::Shift(*d, c.wrapping_add(1)),
                VarOp::Subst(i, repl) => VarOp::Subst(
                    i.wrapping_add(1),
                    vop_value(repl, &VarOp::Shift(1, 0)),
                ),
            };
            ExprKind::Let(x.clone(), vop_opt(ann, op), vop_value(v, op), vop_value(b, &op2))
        },
        ExprKind::App(f, a) => ExprKind::App(vop_value(f, op), vop_value(a, op)),
        ExprKind::Annot(x, t) => ExprKind::Annot(vop_value(x, op), vop_value(t, op)),
        ExprKind::Assert(t) => ExprKind::Assert(vop_value(t, op)),
        ExprKind::BoolIf(b, e1, e2) => ExprKind::BoolIf(
            vop_value(b, op),
            vop_value(e1, op),
            vop_value(e2, op),
        ),
        ExprKind::BinOp(o, x, y) => ExprKind::BinOp(*o, vop_value(x, op), vop_value(y, op)),
        ExprKind::EmptyListLit(t) => ExprKind::EmptyListLit(vop_value(t, op)),
        ExprKind::NEListLit(xs) => ExprKind::NEListLit(vop_values(xs, op)),
        ExprKind::SomeLit(x) => ExprKind::SomeLit(vop_value(x, op)),
        ExprKind::RecordType(kts) => ExprKind::RecordType(vop_entries(kts, op)),
        ExprKind::RecordLit(kvs) => ExprKind::RecordLit(vop_entries(kvs, op)),
        ExprKind::UnionType(kts) => ExprKind::UnionType(vop_alts(kts, op)),
        ExprKind::Field(x, l) => ExprKind::Field(vop_value(x, op), l.clone()),
        ExprKind::Projection(x, ls) => ExprKind::Projection(
            vop_value(x, op),
            crate::syntax::clone_labels(ls),
        ),
        ExprKind::Merge(h, v, t) => ExprKind::Merge(
            vop_value(h, op),
            vop_value(v, op),
            vop_opt(t, op),
        ),
    }
}

pub fn vop_valuef(vf: &ValueF, op: &VarOp, was_whnf: bool) -> (r: Value)
    ensures
        r == s_vop_valuef(*vf, *op, was_whnf),
    decreases op_rank(*op), *vf, 2int,
{
    match vf {
        ValueF::Var(n) => match op {
            VarOp::Shift(d, c) => {
                if *n >= *c {
                    rewrap(was_whnf, ValueF::Var(n.wrapping_add(*d)))
                } else {
                    rewrap(was_whnf, ValueF::Var(*n))
                }
            },
            VarOp::Subst(i, repl) => {
                if *n == *i {
                    repl.clone()
                } else if *n > *i {
                    Value::Whnf(Box::new(ValueF::Var(*n - 1)))
                } else {
                    Value::Whnf(Box::new(ValueF::Var(*n)))
                }
            },
        },
        ValueF::Const(c) => restage(op, was_whnf, ValueF::Const(*c)),
        ValueF::BoolLit(b) => restage(op, was_whnf, ValueF::BoolLit(*b)),
        ValueF::NaturalLit(n) => restage(op, was_whnf, ValueF::NaturalLit(*n)),
        ValueF::IntegerLit(n) => restage(op, was_whnf, ValueF::IntegerLit(*n)),
        ValueF::DoubleLit(n) => restage(op, was_whnf, ValueF::DoubleLit(*n)),
        ValueF::AppliedBuiltin(b, args) => restage(
            op,
            was_whnf,
            ValueF::AppliedBuiltin(*b, vop_values(args, op)),
        ),
        ValueF::Lam(t, e) => {
            let op2 = match op {
                VarOp::Shift(d, c) => VarOp::Shift(*d, c.wrapping_add(1)),
                VarOp::Subst(i, repl) => VarOp::Subst(
                    i.wrapping_add(1),
                    vop_value(repl, &VarOp::Shift(1, 0)),
                ),
            };
            restage(op, was_whnf, ValueF::Lam(vop_value(t, op), vop_value(e, &op2)))
        },
        ValueF::Pi(t, e) => {
            let op2 = match op {
                VarOp::Shift(d, c) => VarOp::Shift(*d, c.wrapping_add(1)),
                VarOp::Subst(i, repl) => VarOp::Subst(
                    i.wrapping_add(1),
                    vop_value(repl, &VarOp::Shift(1, 0)),
                ),
            };
            restage(op, was_whnf, ValueF::Pi(vop_value(t, op), vop_value(e, &op2)))
        },
        ValueF::EmptyListLit(t) => restage(op, was_whnf, ValueF::EmptyListLit(vop_value(t, op))),
        ValueF::NEListLit(xs) => restage(op, was_whnf, ValueF::NEListLit(vop_values(xs, op))),
        ValueF::EmptyOptionalLit(t) => restage(
            op,
            was_whnf,
            ValueF::EmptyOptionalLit(vop_value(t, op)),
        ),
        ValueF::NEOptionalLit(x) => restage(op, was_whnf, ValueF::NEOptionalLit(vop_value(x, op))),
        ValueF::RecordLit(kvs) => restage(op, was_whnf, ValueF::RecordLit(vop_entries(kvs, op))),
        ValueF::RecordType(kts) => restage(op, was_whnf, ValueF::RecordType(vop_entries(kts, op))),
        ValueF::UnionType(kts) => restage(op, was_whnf, ValueF::UnionType(vop_alts(kts, op))),
        ValueF::UnionConstructor(l, kts) => restage(
            op,
            was_whnf,
            ValueF::UnionConstructor(l.clone(), vop_alts(kts, op)),
        ),
        ValueF::UnionLit(l, x, kts) => restage(
            op,
            was_whnf,
            ValueF::UnionLit(l.clone(), vop_value(x, op), vop_alts(kts, op)),
        ),
        ValueF::TextLit(chunks) => restage(op, was_whnf, ValueF::TextLit(vop_chunks(chunks, op))),
        ValueF::Equivalence(x, y) => restage(
            op,
            was_whnf,
            ValueF::Equivalence(vop_value(x, op), vop_value(y, op)),
        ),
        ValueF::PartialExpr(e) => restage(
            op,
            was_whnf,
            ValueF::PartialExpr(Box::new(vop_expr(&**e, op))),
        ),
    }
}

impl Value {
    /// Adds `delta` to every free variable index at or above `cutoff`.
    pub fn shift(&self, delta: usize, cutoff: usize) -> (r: Value)
        ensures
            r == s_shift(*self, delta, cutoff),
    {
        vop_value(self, &VarOp::Shift(delta, cutoff))
    }

    /// Replaces free occurrences of `var` by `repl`, shifting free indices
    /// in `repl` across any binders it crosses.
    pub fn subst_shift(&self, var: AlphaVar, repl: &Value) -> (r: Value)
        ensures
            r == s_subst_shift(*self, var, *repl),
    {
        vop_value(self, &VarOp::Subst(var.idx(), repl.clone()))
    }
}

} // verus!
