//! The normalizer: forcing to weak-head normal form, one-layer head
//! reduction, the algebraic simplification of every binary operator,
//! built-in dispatch with arity-based partial application, text-literal
//! canonicalization, and full normalization.
//!
//! Reduction of well-typed terms terminates, but not by structural
//! recursion, so every reducing operation takes a fuel bound and returns
//! `None` when the bound runs out. Each function has a specification twin
//! that pins its result down exactly.
use vstd::prelude::*;

use crate::equality::s_nf_eq;
use crate::maps::{s_merge_maps, s_project_entries, s_record_get, s_restrict_away};
use crate::syntax::{
    lappend, llen, BinOp, Builtin, Const, ExprKind, InterpolatedTextContents, Label, List,
};
use crate::tyexpr::{TyExpr, TyExprKind};
use crate::value::{Env, Value, ValueF};
use crate::varops::{s_vop_value, s_vop_values, VarOp};

verus! {

/// The value of a variable: the environment entry, counted from the
/// innermost binder; a variable the environment does not reach stays
/// neutral, shifted past the bindings that were consumed.
pub open spec fn s_env_lookup(items: List<Value>, idx: usize) -> Value
    decreases items,
{
    match items {
        List::Nil => Value::Whnf(Box::new(ValueF::Var(idx))),
        List::Cons(v, rest) => if idx == 0 {
            v
        } else {
            s_env_lookup(*rest, (idx - 1) as usize)
        },
    }
}

/// The environment under one more binder: every earlier binding shifted,
/// the new variable bound to itself as a neutral.
pub open spec fn s_env_push_binder(env: Env) -> Env {
    Env {
        items: List::Cons(
            Value::Whnf(Box::new(ValueF::Var(0))),
            Box::new(s_vop_values(env.items, VarOp::Shift(1, 0))),
        ),
    }
}

/// The environment extended by a let binding.
pub open spec fn s_env_push(env: Env, v: Value) -> Env {
    Env { items: List::Cons(v, Box::new(env.items)) }
}

/// A subexpression as a value: an unevaluated thunk over the environment.
pub open spec fn s_thunk(env: Env, e: TyExpr) -> Value {
    Value::Thunk(Box::new(env), Box::new(e))
}

pub open spec fn s_thunk_list(env: Env, l: List<TyExpr>) -> List<Value>
    decreases l,
{
    match l {
        List::Nil => List::Nil,
        List::Cons(x, rest) => List::Cons(s_thunk(env, x), Box::new(s_thunk_list(env, *rest))),
    }
}

pub open spec fn s_thunk_opt(env: Env, o: Option<TyExpr>) -> Option<Value> {
    match o {
        Option::None => Option::None,
        Option::Some(x) => Option::Some(s_thunk(env, x)),
    }
}

pub open spec fn s_thunk_entries(env: Env, l: List<(Label, TyExpr)>) -> List<(Label, Value)>
    decreases l,
{
    match l {
        List::Nil => List::Nil,
        List::Cons((k, x), rest) => List::Cons(
            (k, s_thunk(env, x)),
            Box::new(s_thunk_entries(env, *rest)),
        ),
    }
}

pub open spec fn s_thunk_alts(env: Env, l: List<(Label, Option<TyExpr>)>) -> List<
    (Label, Option<Value>),
>
    decreases l,
{
    match l {
        List::Nil => List::Nil,
        List::Cons((k, x), rest) => List::Cons(
            (k, s_thunk_opt(env, x)),
            Box::new(s_thunk_alts(env, *rest)),
        ),
    }
}

pub open spec fn s_thunk_chunks(env: Env, l: List<InterpolatedTextContents<TyExpr>>) -> List<
    InterpolatedTextContents<Value>,
>
    decreases l,
{
    match l {
        List::Nil => List::Nil,
        List::Cons(c, rest) => List::Cons(
            match c {
                InterpolatedTextContents::Text(s) => InterpolatedTextContents::Text(s),
                InterpolatedTextContents::Expr(e) => InterpolatedTextContents::Expr(s_thunk(env, e)),
            },
            Box::new(s_thunk_chunks(env, *rest)),
        ),
    }
}

/// A typed expression's children as values, each an unevaluated thunk over
/// the environment. Binding constructs do not pass through here: the
/// evaluator handles them against an extended environment.
pub open spec fn s_thunk_expr(env: Env, e: ExprKind<TyExpr>) -> ExprKind<Value>
    decreases e,
{
    match e {
        ExprKind::Var(v) => ExprKind::Var(v),
        ExprKind::Const(c) => ExprKind::Const(c),
        ExprKind::Builtin(b) => ExprKind::Builtin(b),
        ExprKind::BoolLit(b) => ExprKind::BoolLit(b),
        ExprKind::NaturalLit(n) => ExprKind::NaturalLit(n),
        ExprKind::IntegerLit(n) => ExprKind::IntegerLit(n),
        ExprKind::DoubleLit(n) => ExprKind::DoubleLit(n),
        ExprKind::TextLit(chunks) => ExprKind::TextLit(s_thunk_chunks(env, chunks)),
        ExprKind::Lam(x, t, b) => ExprKind::Lam(x, s_thunk(env, t), s_thunk(env, b)),
        ExprKind::Pi(x, t, b) => ExprKind::Pi(x, s_thunk(env, t), s_thunk(env, b)),
        ExprKind::Let(x, ann, v, b) => ExprKind::Let(
            x,
            s_thunk_opt(env, ann),
            s_thunk(env, v),
            s_thunk(env, b),
        ),
        ExprKind::App(f, a) => ExprKind::App(s_thunk(env, f), s_thunk(env, a)),
        ExprKind::Annot(x, t) => ExprKind::Annot(s_thunk(env, x), s_thunk(env, t)),
        ExprKind::Assert(t) => ExprKind::Assert(s_thunk(env, t)),
        ExprKind::BoolIf(b, e1, e2) => ExprKind::BoolIf(
            s_thunk(env, b),
            s_thunk(env, e1),
            s_thunk(env, e2),
        ),
        ExprKind::BinOp(o, x, y) => ExprKind::BinOp(o, s_thunk(env, x), s_thunk(env, y)),
        ExprKind::EmptyListLit(t) => ExprKind::EmptyListLit(s_thunk(env, t)),
        ExprKind::NEListLit(xs) => ExprKind::NEListLit(s_thunk_list(env, xs)),
        ExprKind::SomeLit(x) => ExprKind::SomeLit(s_thunk(env, x)),
        ExprKind::RecordType(kts) => ExprKind::RecordType(s_thunk_entries(env, kts)),
        ExprKind::RecordLit(kvs) => ExprKind::RecordLit(s_thunk_entries(env, kvs)),
        ExprKind::UnionType(kts) => ExprKind::UnionType(s_thunk_alts(env, kts)),
        ExprKind::Field(x, l) => ExprKind::Field(s_thunk(env, x), l),
        ExprKind::Projection(x, ls) => ExprKind::Projection(s_thunk(env, x), ls),
        ExprKind::Merge(h, v, t) => ExprKind::Merge(
            s_thunk(env, h),
            s_thunk(env, v),
            s_thunk_opt(env, t),
        ),
    }
}

/// The key labels of a record-literal entry list.
pub open spec fn s_keys_of(l: List<(Label, Value)>) -> List<Label>
    decreases l,
{
    match l {
        List::Nil => List::Nil,
        List::Cons((k, _), rest) => List::Cons(k, Box::new(s_keys_of(*rest))),
    }
}

/// A right-biased union of record entries: all of `kvs2`, then what only
/// `kvs1` holds.
pub open spec fn s_right_merge(kvs1: List<(Label, Value)>, kvs2: List<(Label, Value)>) -> List<
    (Label, Value),
> {
    lappend(kvs2, s_restrict_away(kvs1, s_keys_of(kvs2)))
}

/// The length of a list when it fits the word a literal holds.
pub open spec fn s_len_u64<T>(l: List<T>) -> Option<u64> {
    if llen(l) <= u64::MAX {
        Option::Some(llen(l) as u64)
    } else {
        Option::None
    }
}

pub open spec fn s_last<T>(l: List<T>) -> Option<T>
    decreases l,
{
    match l {
        List::Nil => Option::None,
        List::Cons(x, rest) => match *rest {
            List::Nil => Option::Some(x),
            _ => s_last(*rest),
        },
    }
}

pub open spec fn s_lreverse<T>(l: List<T>) -> List<T>
    decreases l,
{
    match l {
        List::Nil => List::Nil,
        List::Cons(x, rest) => lappend(s_lreverse(*rest), List::Cons(x, Box::new(List::Nil))),
    }
}

pub open spec fn s_label_index() -> Label {
    Label {
        bytes: List::Cons(
            105u8,
            Box::new(
                List::Cons(
                    110u8,
                    Box::new(
                        List::Cons(
                            100u8,
                            Box::new(List::Cons(101u8, Box::new(List::Cons(120u8, Box::new(List::Nil))))),
                        ),
                    ),
                ),
            ),
        ),
    }
}

pub open spec fn s_label_value() -> Label {
    Label {
        bytes: List::Cons(
            118u8,
            Box::new(
                List::Cons(
                    97u8,
                    Box::new(
                        List::Cons(
                            108u8,
                            Box::new(List::Cons(117u8, Box::new(List::Cons(101u8, Box::new(List::Nil))))),
                        ),
                    ),
                ),
            ),
        ),
    }
}

/// The label of the present-optional handler.
pub open spec fn s_label_some() -> Label {
    Label {
        bytes: List::Cons(
            83u8,
            Box::new(
                List::Cons(
                    111u8,
                    Box::new(List::Cons(109u8, Box::new(List::Cons(101u8, Box::new(List::Nil))))),
                ),
            ),
        ),
    }
}

/// The label of the empty-optional handler.
pub open spec fn s_label_none() -> Label {
    Label {
        bytes: List::Cons(
            78u8,
            Box::new(
                List::Cons(
                    111u8,
                    Box::new(List::Cons(110u8, Box::new(List::Cons(101u8, Box::new(List::Nil))))),
                ),
            ),
        ),
    }
}

/// The record type `{ index : Natural, value : t }`.
pub open spec fn s_indexed_record_type(t: Value) -> Value {
    Value::Whnf(
        Box::new(
            ValueF::RecordType(
                List::Cons(
                    (s_label_index(), Value::Whnf(Box::new(ValueF::AppliedBuiltin(Builtin::Natural, List::Nil)))),
                    Box::new(List::Cons((s_label_value(), t), Box::new(List::Nil))),
                ),
            ),
        ),
    )
}

/// The record `{ index = i, value = x }`.
pub open spec fn s_indexed_record(i: u64, x: Value) -> Value {
    Value::Whnf(
        Box::new(
            ValueF::RecordLit(
                List::Cons(
                    (s_label_index(), Value::Whnf(Box::new(ValueF::NaturalLit(i)))),
                    Box::new(List::Cons((s_label_value(), x), Box::new(List::Nil))),
                ),
            ),
        ),
    )
}

/// Each element paired with its position, as `{ index, value }` records.
pub open spec fn s_indexed_list(xs: List<Value>, i: u64) -> List<Value>
    decreases xs,
{
    match xs {
        List::Nil => List::Nil,
        List::Cons(x, rest) => List::Cons(
            s_indexed_record(i, x),
            Box::new(s_indexed_list(*rest, i.wrapping_add(1))),
        ),
    }
}

/// The unfolding closure `\(x : t) -> \(xs : List t) -> [x] # xs`.
pub open spec fn s_list_cons_closure(t: Value) -> Value {
    Value::Whnf(
        Box::new(
            ValueF::Lam(
                t,
                Value::Whnf(
                    Box::new(
                        ValueF::Lam(
                            Value::Whnf(
                                Box::new(
                                    ValueF::AppliedBuiltin(
                                        Builtin::List,
                                        List::Cons(
                                            s_vop_value(t, VarOp::Shift(1, 0)),
                                            Box::new(List::Nil),
                                        ),
                                    ),
                                ),
                            ),
                            Value::Whnf(
                                Box::new(
                                    ValueF::PartialExpr(
                                        Box::new(
                                            ExprKind::BinOp(
                                                BinOp::ListAppend,
                                                Value::Whnf(
                                                    Box::new(
                                                        ValueF::NEListLit(
                                                            List::Cons(
                                                                Value::Whnf(Box::new(ValueF::Var(1))),
                                                                Box::new(List::Nil),
                                                            ),
                                                        ),
                                                    ),
                                                ),
                                                Value::Whnf(Box::new(ValueF::Var(0))),
                                            ),
                                        ),
                                    ),
                                ),
                            ),
                        ),
                    ),
                ),
            ),
        ),
    )
}

/// The unfolding closure `\(x : t) -> Some x`.
pub open spec fn s_some_closure(t: Value) -> Value {
    Value::Whnf(
        Box::new(
            ValueF::Lam(
                t,
                Value::Whnf(Box::new(ValueF::NEOptionalLit(Value::Whnf(Box::new(ValueF::Var(0)))))),
            ),
        ),
    )
}

/// The unfolding closure `\(x : Natural) -> x + 1`.
pub open spec fn s_succ_closure() -> Value {
    Value::Whnf(
        Box::new(
            ValueF::Lam(
                Value::Whnf(Box::new(ValueF::AppliedBuiltin(Builtin::Natural, List::Nil))),
                Value::Whnf(
                    Box::new(
                        ValueF::PartialExpr(
                            Box::new(
                                ExprKind::BinOp(
                                    BinOp::NaturalPlus,
                                    Value::Whnf(Box::new(ValueF::Var(0))),
                                    Value::Whnf(Box::new(ValueF::NaturalLit(1))),
                                ),
                            ),
                        ),
                    ),
                ),
            ),
        ),
    )
}

/// `List t` as a value.
pub open spec fn s_list_type(t: Value) -> Value {
    Value::Whnf(Box::new(ValueF::AppliedBuiltin(Builtin::List, List::Cons(t, Box::new(List::Nil)))))
}

/// `Optional t` as a value.
pub open spec fn s_optional_type(t: Value) -> Value {
    Value::Whnf(
        Box::new(ValueF::AppliedBuiltin(Builtin::Optional, List::Cons(t, Box::new(List::Nil)))),
    )
}

/// Forces a value to weak-head normal form. Idempotent: on a value already
/// in weak-head normal form it returns the value itself, whatever the fuel.
pub open spec fn s_whnf(v: Value, fuel: u64) -> Option<Value>
    decreases fuel, v, 0int,
{
    match v {
        Value::Whnf(_) => Option::Some(v),
        Value::Thunk(env, e) => if fuel == 0 {
            Option::None
        } else {
            match s_eval_node(*env, *e, (fuel - 1) as u64) {
                Option::None => Option::None,
                Option::Some(r) => s_whnf(r, (fuel - 1) as u64),
            }
        },
        Value::Blocked(vf) => if fuel == 0 {
            Option::None
        } else {
            match s_renorm_head(*vf, (fuel - 1) as u64) {
                Option::None => Option::None,
                Option::Some(r) => s_whnf(r, (fuel - 1) as u64),
            }
        },
    }
}

/// One forcing step on a pending head: an applied built-in fires if it now
/// can, an expression of values reduces one layer, a text literal is
/// squashed (a bare interpolation simplifies away); every other head is
/// already settled.
pub open spec fn s_renorm_head(vf: ValueF, fuel: u64) -> Option<Value>
    decreases fuel, vf, 0int,
{
    if fuel == 0 {
        Option::None
    } else {
        match vf {
            ValueF::AppliedBuiltin(b, args) => s_apply_builtin(b, args, (fuel - 1) as u64),
            ValueF::PartialExpr(e) => s_one_layer(*e, (fuel - 1) as u64),
            ValueF::TextLit(elts) => match s_squash(elts, (fuel - 1) as u64) {
                Option::None => Option::None,
                Option::Some(sq) => match sq {
                    List::Cons(InterpolatedTextContents::Expr(th), tail) => if *tail is Nil {
                        Option::Some(th)
                    } else {
                        Option::Some(Value::Whnf(Box::new(ValueF::TextLit(sq))))
                    },
                    _ => Option::Some(Value::Whnf(Box::new(ValueF::TextLit(sq)))),
                },
            },
            _ => Option::Some(Value::Whnf(Box::new(vf))),
        }
    }
}

/// Replays a thunk's expression against its environment: a variable is
/// looked up, binders close over the extended environment, a let binds, an
/// annotation is dropped, and every other construct builds its children as
/// thunks and reduces one layer.
pub open spec fn s_eval_node(env: Env, e: TyExpr, fuel: u64) -> Option<Value>
    decreases fuel, e, 0int,
{
    match *e.kind {
        TyExprKind::Var(a) => Option::Some(s_env_lookup(env.items, a.idx)),
        TyExprKind::Expr(ek) => match ek {
            ExprKind::Var(v) => Option::Some(
                Value::Whnf(Box::new(ValueF::PartialExpr(Box::new(ExprKind::Var(v))))),
            ),
            ExprKind::Lam(_, t, b) => Option::Some(
                Value::Whnf(
                    Box::new(ValueF::Lam(s_thunk(env, t), s_thunk(s_env_push_binder(env), b))),
                ),
            ),
            ExprKind::Pi(_, t, b) => Option::Some(
                Value::Whnf(
                    Box::new(ValueF::Pi(s_thunk(env, t), s_thunk(s_env_push_binder(env), b))),
                ),
            ),
            ExprKind::Let(_, _, v, b) => Option::Some(
                s_thunk(s_env_push(env, s_thunk(env, v)), b),
            ),
            ExprKind::Annot(x, _) => Option::Some(s_thunk(env, x)),
            _ => if fuel == 0 {
                Option::None
            } else {
                s_one_layer(s_thunk_expr(env, ek), (fuel - 1) as u64)
            },
        },
    }
}

/// Performs exactly one head reduction step on an expression of values,
/// returning a canonical form, a neutral wrapper, or a value still to be
/// forced.
pub open spec fn s_one_layer(e: ExprKind<Value>, fuel: u64) -> Option<Value>
    decreases fuel, e, 0int,
{
    if fuel == 0 {
        Option::None
    } else {
        let fl = (fuel - 1) as u64;
        match e {
            ExprKind::Var(v) => Option::Some(
                Value::Whnf(Box::new(ValueF::PartialExpr(Box::new(ExprKind::Var(v))))),
            ),
            ExprKind::Const(c) => Option::Some(Value::Whnf(Box::new(ValueF::Const(c)))),
            ExprKind::Builtin(b) => Option::Some(
                Value::Whnf(Box::new(ValueF::AppliedBuiltin(b, List::Nil))),
            ),
            ExprKind::BoolLit(b) => Option::Some(Value::Whnf(Box::new(ValueF::BoolLit(b)))),
            ExprKind::NaturalLit(n) => Option::Some(Value::Whnf(Box::new(ValueF::NaturalLit(n)))),
            ExprKind::IntegerLit(n) => Option::Some(Value::Whnf(Box::new(ValueF::IntegerLit(n)))),
            ExprKind::DoubleLit(n) => Option::Some(Value::Whnf(Box::new(ValueF::DoubleLit(n)))),
            ExprKind::Lam(_, t, b) => Option::Some(Value::Whnf(Box::new(ValueF::Lam(t, b)))),
            ExprKind::Pi(_, t, b) => Option::Some(Value::Whnf(Box::new(ValueF::Pi(t, b)))),
            ExprKind::Let(_, _, v, b) => Option::Some(s_vop_value(b, VarOp::Subst(0, v))),
            ExprKind::Annot(x, _) => Option::Some(x),
            ExprKind::Assert(t) => Option::Some(
                Value::Whnf(Box::new(ValueF::PartialExpr(Box::new(ExprKind::Assert(t))))),
            ),
            ExprKind::App(f, a) => s_apply_any(f, a, fl),
            ExprKind::BoolIf(b, e1, e2) => s_bool_if(b, e1, e2, fl),
            ExprKind::BinOp(o, x, y) => match s_apply_binop(o, x, y, fl) {
                Option::None => Option::None,
                Option::Some(Option::Some(v)) => Option::Some(v),
                Option::Some(Option::None) => Option::Some(
                    Value::Whnf(Box::new(ValueF::PartialExpr(Box::new(ExprKind::BinOp(o, x, y))))),
                ),
            },
            ExprKind::EmptyListLit(t) => match s_whnf(t, fl) {
                Option::None => Option::None,
                Option::Some(wt) => match wt {
                    Value::Whnf(h) => match *h {
                        ValueF::AppliedBuiltin(Builtin::List, List::Cons(arg, tail)) => if *tail is Nil {
                            Option::Some(Value::Whnf(Box::new(ValueF::EmptyListLit(arg))))
                        } else {
                            Option::Some(
                                Value::Whnf(
                                    Box::new(
                                        ValueF::PartialExpr(Box::new(ExprKind::EmptyListLit(t))),
                                    ),
                                ),
                            )
                        },
                        _ => Option::Some(
                            Value::Whnf(
                                Box::new(ValueF::PartialExpr(Box::new(ExprKind::EmptyListLit(t)))),
                            ),
                        ),
                    },
                    _ => Option::None,
                },
            },
            ExprKind::NEListLit(xs) => Option::Some(Value::Whnf(Box::new(ValueF::NEListLit(xs)))),
            ExprKind::SomeLit(x) => Option::Some(Value::Whnf(Box::new(ValueF::NEOptionalLit(x)))),
            ExprKind::RecordLit(kvs) => Option::Some(Value::Whnf(Box::new(ValueF::RecordLit(kvs)))),
            ExprKind::RecordType(kts) => Option::Some(
                Value::Whnf(Box::new(ValueF::RecordType(kts))),
            ),
            ExprKind::UnionType(kts) => Option::Some(Value::Whnf(Box::new(ValueF::UnionType(kts)))),
            ExprKind::TextLit(chunks) => match s_squash(chunks, fl) {
                Option::None => Option::None,
                Option::Some(sq) => match sq {
                    List::Cons(InterpolatedTextContents::Expr(th), tail) => if *tail is Nil {
                        Option::Some(th)
                    } else {
                        Option::Some(Value::Whnf(Box::new(ValueF::TextLit(sq))))
                    },
                    _ => Option::Some(Value::Whnf(Box::new(ValueF::TextLit(sq)))),
                },
            },
            ExprKind::Field(v, l) => match s_whnf(v, fl) {
                Option::None => Option::None,
                Option::Some(wv) => match wv {
                    Value::Whnf(h) => match *h {
                        ValueF::RecordLit(kvs) => match s_record_get(kvs, l) {
                            Option::Some(r) => Option::Some(r),
                            Option::None => Option::Some(
                                Value::Whnf(
                                    Box::new(ValueF::PartialExpr(Box::new(ExprKind::Field(v, l)))),
                                ),
                            ),
                        },
                        ValueF::UnionType(kts) => Option::Some(
                            Value::Whnf(Box::new(ValueF::UnionConstructor(l, kts))),
                        ),
                        _ => Option::Some(
                            Value::Whnf(
                                Box::new(ValueF::PartialExpr(Box::new(ExprKind::Field(v, l)))),
                            ),
                        ),
                    },
                    _ => Option::None,
                },
            },
            ExprKind::Projection(v, ls) => if ls is Nil {
                Option::Some(Value::Whnf(Box::new(ValueF::RecordLit(List::Nil))))
            } else {
                match s_whnf(v, fl) {
                    Option::None => Option::None,
                    Option::Some(wv) => match wv {
                        Value::Whnf(h) => match *h {
                            ValueF::RecordLit(kvs) => Option::Some(
                                Value::Whnf(
                                    Box::new(ValueF::RecordLit(s_project_entries(kvs, ls))),
                                ),
                            ),
                            _ => Option::Some(
                                Value::Whnf(
                                    Box::new(
                                        ValueF::PartialExpr(Box::new(ExprKind::Projection(v, ls))),
                                    ),
                                ),
                            ),
                        },
                        _ => Option::None,
                    },
                }
            },
            ExprKind::Merge(h, v, t) => match s_whnf(h, fl) {
                Option::None => Option::None,
                Option::Some(wh) => match s_whnf(v, fl) {
                    Option::None => Option::None,
                    Option::Some(wv) => s_merge(h, v, t, wh, wv, fl),
                },
            },
        }
    }
}

/// The reduction of `merge handlers variant` once both heads are known.
/// An optional value is matched like a union with a `Some` and a `None`
/// alternative.
pub open spec fn s_merge(
    h: Value,
    v: Value,
    t: Option<Value>,
    wh: Value,
    wv: Value,
    fuel: u64,
) -> Option<Value>
    decreases fuel, h, 2int,
{
    let neutral = Value::Whnf(
        Box::new(ValueF::PartialExpr(Box::new(ExprKind::Merge(h, v, t)))),
    );
    match (wh, wv) {
        (Value::Whnf(hh), Value::Whnf(hv)) => match (*hh, *hv) {
            (ValueF::RecordLit(kvs), ValueF::UnionConstructor(l, _)) => match s_record_get(kvs, l) {
                Option::Some(handler) => Option::Some(handler),
                Option::None => Option::Some(neutral),
            },
            (ValueF::RecordLit(kvs), ValueF::UnionLit(l, x, _)) => match s_record_get(kvs, l) {
                Option::Some(handler) => if fuel == 0 {
                    Option::None
                } else {
                    s_apply_any(handler, x, (fuel - 1) as u64)
                },
                Option::None => Option::Some(neutral),
            },
            (ValueF::RecordLit(kvs), ValueF::EmptyOptionalLit(_)) => match s_record_get(
                kvs,
                s_label_none(),
            ) {
                Option::Some(handler) => Option::Some(handler),
                Option::None => Option::Some(neutral),
            },
            (ValueF::RecordLit(kvs), ValueF::NEOptionalLit(x)) => match s_record_get(
                kvs,
                s_label_some(),
            ) {
                Option::Some(handler) => if fuel == 0 {
                    Option::None
                } else {
                    s_apply_any(handler, x, (fuel - 1) as u64)
                },
                Option::None => Option::Some(neutral),
            },
            _ => Option::Some(neutral),
        },
        _ => Option::None,
    }
}

/// The reduction of `if b then e1 else e2`: a literal condition chooses its
/// branch, `if b then True else False` is `b`, equal branches need no
/// condition, and anything else is neutral.
pub open spec fn s_bool_if(b: Value, e1: Value, e2: Value, fuel: u64) -> Option<Value>
    decreases fuel, b, 2int,
{
    if fuel == 0 {
        Option::None
    } else {
        let fl = (fuel - 1) as u64;
        let neutral = Value::Whnf(
            Box::new(ValueF::PartialExpr(Box::new(ExprKind::BoolIf(b, e1, e2)))),
        );
        match s_whnf(b, fl) {
            Option::None => Option::None,
            Option::Some(wb) => match wb {
                Value::Whnf(hb) => match *hb {
                    ValueF::BoolLit(true) => Option::Some(e1),
                    ValueF::BoolLit(false) => Option::Some(e2),
                    _ => match (s_whnf(e1, fl), s_whnf(e2, fl)) {
                        (Option::Some(we1), Option::Some(we2)) => {
                            if we1 == Value::Whnf(Box::new(ValueF::BoolLit(true))) && we2
                                == Value::Whnf(Box::new(ValueF::BoolLit(false))) {
                                Option::Some(wb)
                            } else {
                                match s_value_eq(e1, e2, fl) {
                                    Option::None => Option::None,
                                    Option::Some(true) => Option::Some(we1),
                                    Option::Some(false) => Option::Some(neutral),
                                }
                            }
                        },
                        _ => Option::None,
                    },
                },
                _ => Option::None,
            },
        }
    }
}

/// Applies one value to another: a lambda by substitution into its body, a
/// built-in by accumulating the argument, a union constructor by building
/// the union literal; anything else is a neutral application.
pub open spec fn s_apply_any(f: Value, a: Value, fuel: u64) -> Option<Value>
    decreases fuel, f, 0int,
{
    if fuel == 0 {
        Option::None
    } else {
        let fl = (fuel - 1) as u64;
        match s_whnf(f, fl) {
            Option::None => Option::None,
            Option::Some(wf) => match wf {
                Value::Whnf(hf) => match *hf {
                    ValueF::Lam(_, body) => Option::Some(s_vop_value(body, VarOp::Subst(0, a))),
                    ValueF::AppliedBuiltin(b, args) => s_apply_builtin(
                        b,
                        lappend(args, List::Cons(a, Box::new(List::Nil))),
                        fl,
                    ),
                    ValueF::UnionConstructor(l, kts) => Option::Some(
                        Value::Whnf(Box::new(ValueF::UnionLit(l, a, kts))),
                    ),
                    _ => Option::Some(
                        Value::Whnf(Box::new(ValueF::PartialExpr(Box::new(ExprKind::App(wf, a))))),
                    ),
                },
                _ => Option::None,
            },
        }
    }
}

/// Applies a value to each argument in turn.
pub open spec fn s_apply_args(v: Value, rest: List<Value>, fuel: u64) -> Option<Value>
    decreases fuel, rest, 0int,
{
    match rest {
        List::Nil => Option::Some(v),
        List::Cons(x, tail) => if fuel == 0 {
            Option::None
        } else {
            match s_apply_any(v, x, (fuel - 1) as u64) {
                Option::None => Option::None,
                Option::Some(r) => s_apply_args(r, *tail, fuel),
            }
        },
    }
}

/// Right-folds `cons` over the elements with seed `nil`.
pub open spec fn s_fold_right(cons: Value, xs: List<Value>, nil: Value, fuel: u64) -> Option<Value>
    decreases fuel, xs, 0int,
{
    match xs {
        List::Nil => Option::Some(nil),
        List::Cons(x, rest) => if fuel == 0 {
            Option::None
        } else {
            let fl = (fuel - 1) as u64;
            match s_fold_right(cons, *rest, nil, fuel) {
                Option::None => Option::None,
                Option::Some(acc) => match s_apply_any(cons, x, fl) {
                    Option::None => Option::None,
                    Option::Some(cx) => s_apply_any(cx, acc, fl),
                },
            }
        },
    }
}

/// The canonical form of a text literal's chunks: spliced values whose
/// head is itself a text literal are inlined, consecutive literal
/// fragments are concatenated, and no empty fragment remains.
pub open spec fn s_squash(chunks: List<InterpolatedTextContents<Value>>, fuel: u64) -> Option<
    List<InterpolatedTextContents<Value>>,
>
    decreases fuel, chunks, 0int,
{
    match chunks {
        List::Nil => Option::Some(List::Nil),
        List::Cons(c, rest) => match c {
            InterpolatedTextContents::Text(s) => match s_squash(*rest, fuel) {
                Option::None => Option::None,
                Option::Some(r) => Option::Some(s_text_cons(s, r)),
            },
            InterpolatedTextContents::Expr(e) => if fuel == 0 {
                Option::None
            } else {
                let fl = (fuel - 1) as u64;
                match s_whnf(e, fl) {
                    Option::None => Option::None,
                    Option::Some(we) => match we {
                        Value::Whnf(h) => match *h {
                            ValueF::TextLit(elts2) => s_squash(lappend(elts2, *rest), fl),
                            _ => match s_squash(*rest, fuel) {
                                Option::None => Option::None,
                                Option::Some(r) => Option::Some(
                                    List::Cons(InterpolatedTextContents::Expr(we), Box::new(r)),
                                ),
                            },
                        },
                        _ => Option::None,
                    },
                }
            },
        },
    }
}

/// Prepends a literal fragment to squashed chunks: an empty fragment
/// vanishes, a fragment before another fragment joins it.
pub open spec fn s_text_cons(
    s: List<u8>,
    rest: List<InterpolatedTextContents<Value>>,
) -> List<InterpolatedTextContents<Value>> {
    match s {
        List::Nil => rest,
        _ => match rest {
            List::Cons(InterpolatedTextContents::Text(t), tail) => List::Cons(
                InterpolatedTextContents::Text(lappend(s, t)),
                tail,
            ),
            _ => List::Cons(InterpolatedTextContents::Text(s), Box::new(rest)),
        },
    }
}

/// Whether two values are equal: both are fully normalized and compared
/// structurally, binders by position, record-like maps as mappings.
pub open spec fn s_value_eq(x: Value, y: Value, fuel: u64) -> Option<bool>
    decreases fuel, x, 0int,
{
    if fuel == 0 {
        Option::None
    } else {
        let fl = (fuel - 1) as u64;
        match (s_normalize(x, fl), s_normalize(y, fl)) {
            (Option::Some(nx), Option::Some(ny)) => Option::Some(s_nf_eq(nx, ny)),
            _ => Option::None,
        }
    }
}

/// Full normalization: force the head, then normalize every child in
/// place. On a fully normalized value this returns the value itself,
/// whatever the fuel.
pub open spec fn s_normalize(v: Value, fuel: u64) -> Option<Value>
    decreases fuel, v, 1int,
{
    match v {
        Value::Whnf(vf) => match s_norm_valuef(*vf, fuel) {
            Option::None => Option::None,
            Option::Some(r) => Option::Some(Value::Whnf(Box::new(r))),
        },
        _ => if fuel == 0 {
            Option::None
        } else {
            match s_whnf(v, fuel) {
                Option::None => Option::None,
                Option::Some(w) => s_normalize(w, (fuel - 1) as u64),
            }
        },
    }
}

pub open spec fn s_norm_values(l: List<Value>, fuel: u64) -> Option<List<Value>>
    decreases fuel, l, 1int,
{
    match l {
        List::Nil => Option::Some(List::Nil),
        List::Cons(x, rest) => match (s_normalize(x, fuel), s_norm_values(*rest, fuel)) {
            (Option::Some(nx), Option::Some(nr)) => Option::Some(List::Cons(nx, Box::new(nr))),
            _ => Option::None,
        },
    }
}

pub open spec fn s_norm_opt(o: Option<Value>, fuel: u64) -> Option<Option<Value>>
    decreases fuel, o, 1int,
{
    match o {
        Option::None => Option::Some(Option::None),
        Option::Some(x) => match s_normalize(x, fuel) {
            Option::Some(nx) => Option::Some(Option::Some(nx)),
            Option::None => Option::None,
        },
    }
}

pub open spec fn s_norm_entries(l: List<(Label, Value)>, fuel: u64) -> Option<List<(Label, Value)>>
    decreases fuel, l, 1int,
{
    match l {
        List::Nil => Option::Some(List::Nil),
        List::Cons((k, x), rest) => match (s_normalize(x, fuel), s_norm_entries(*rest, fuel)) {
            (Option::Some(nx), Option::Some(nr)) => Option::Some(
                List::Cons((k, nx), Box::new(nr)),
            ),
            _ => Option::None,
        },
    }
}

pub open spec fn s_norm_alts(l: List<(Label, Option<Value>)>, fuel: u64) -> Option<
    List<(Label, Option<Value>)>,
>
    decreases fuel, l, 1int,
{
    match l {
        List::Nil => Option::Some(List::Nil),
        List::Cons((k, x), rest) => match (s_norm_opt(x, fuel), s_norm_alts(*rest, fuel)) {
            (Option::Some(nx), Option::Some(nr)) => Option::Some(
                List::Cons((k, nx), Box::new(nr)),
            ),
            _ => Option::None,
        },
    }
}

pub open spec fn s_norm_chunks(l: List<InterpolatedTextContents<Value>>, fuel: u64) -> Option<
    List<InterpolatedTextContents<Value>>,
>
    decreases fuel, l, 1int,
{
    match l {
        List::Nil => Option::Some(List::Nil),
        List::Cons(c, rest) => {
            let head = match c {
                InterpolatedTextContents::Text(s) => Option::Some(InterpolatedTextContents::Text(s)),
                InterpolatedTextContents::Expr(e) => match s_normalize(e, fuel) {
                    Option::Some(ne) => Option::Some(InterpolatedTextContents::Expr(ne)),
                    Option::None => Option::None,
                },
            };
            match (head, s_norm_chunks(*rest, fuel)) {
                (Option::Some(h), Option::Some(nr)) => Option::Some(List::Cons(h, Box::new(nr))),
                _ => Option::None,
            }
        },
    }
}

pub open spec fn s_norm_expr(e: ExprKind<Value>, fuel: u64) -> Option<ExprKind<Value>>
    decreases fuel, e, 1int,
{
    match e {
        ExprKind::Var(v) => Option::Some(ExprKind::Var(v)),
        ExprKind::Const(c) => Option::Some(ExprKind::Const(c)),
        ExprKind::Builtin(b) => Option::Some(ExprKind::Builtin(b)),
        ExprKind::BoolLit(b) => Option::Some(ExprKind::BoolLit(b)),
        ExprKind::NaturalLit(n) => Option::Some(ExprKind::NaturalLit(n)),
        ExprKind::IntegerLit(n) => Option::Some(ExprKind::IntegerLit(n)),
        ExprKind::DoubleLit(n) => Option::Some(ExprKind::DoubleLit(n)),
        ExprKind::TextLit(chunks) => match s_norm_chunks(chunks, fuel) {
            Option::Some(nc) => Option::Some(ExprKind::TextLit(nc)),
            Option::None => Option::None,
        },
        ExprKind::Lam(x, t, b) => match (s_normalize(t, fuel), s_normalize(b, fuel)) {
            (Option::Some(nt), Option::Some(nb)) => Option::Some(ExprKind::Lam(x, nt, nb)),
            _ => Option::None,
        },
        ExprKind::Pi(x, t, b) => match (s_normalize(t, fuel), s_normalize(b, fuel)) {
            (Option::Some(nt), Option::Some(nb)) => Option::Some(ExprKind::Pi(x, nt, nb)),
            _ => Option::None,
        },
        ExprKind::Let(x, ann, v, b) => match (
            s_norm_opt(ann, fuel),
            s_normalize(v, fuel),
            s_normalize(b, fuel),
        ) {
            (Option::Some(na), Option::Some(nv), Option::Some(nb)) => Option::Some(
                ExprKind::Let(x, na, nv, nb),
            ),
            _ => Option::None,
        },
        ExprKind::App(f, a) => match (s_normalize(f, fuel), s_normalize(a, fuel)) {
            (Option::Some(nf), Option::Some(na)) => Option::Some(ExprKind::App(nf, na)),
            _ => Option::None,
        },
        ExprKind::Annot(x, t) => match (s_normalize(x, fuel), s_normalize(t, fuel)) {
            (Option::Some(nx), Option::Some(nt)) => Option::Some(ExprKind::Annot(nx, nt)),
            _ => Option::None,
        },
        ExprKind::Assert(t) => match s_normalize(t, fuel) {
            Option::Some(nt) => Option::Some(ExprKind::Assert(nt)),
            Option::None => Option::None,
        },
        ExprKind::BoolIf(b, e1, e2) => match (
            s_normalize(b, fuel),
            s_normalize(e1, fuel),
            s_normalize(e2, fuel),
        ) {
            (Option::Some(nb), Option::Some(n1), Option::Some(n2)) => Option::Some(
                ExprKind::BoolIf(nb, n1, n2),
            ),
            _ => Option::None,
        },
        ExprKind::BinOp(o, x, y) => match (s_normalize(x, fuel), s_normalize(y, fuel)) {
            (Option::Some(nx), Option::Some(ny)) => Option::Some(ExprKind::BinOp(o, nx, ny)),
            _ => Option::None,
        },
        ExprKind::EmptyListLit(t) => match s_normalize(t, fuel) {
            Option::Some(nt) => Option::Some(ExprKind::EmptyListLit(nt)),
            Option::None => Option::None,
        },
        ExprKind::NEListLit(xs) => match s_norm_values(xs, fuel) {
            Option::Some(nx) => Option::Some(ExprKind::NEListLit(nx)),
            Option::None => Option::None,
        },
        ExprKind::SomeLit(x) => match s_normalize(x, fuel) {
            Option::Some(nx) => Option::Some(ExprKind::SomeLit(nx)),
            Option::None => Option::None,
        },
        ExprKind::RecordType(kts) => match s_norm_entries(kts, fuel) {
            Option::Some(nk) => Option::Some(ExprKind::RecordType(nk)),
            Option::None => Option::None,
        },
        ExprKind::RecordLit(kvs) => match s_norm_entries(kvs, fuel) {
            Option::Some(nk) => Option::Some(ExprKind::RecordLit(nk)),
            Option::None => Option::None,
        },
        ExprKind::UnionType(kts) => match s_norm_alts(kts, fuel) {
            Option::Some(nk) => Option::Some(ExprKind::UnionType(nk)),
            Option::None => Option::None,
        },
        ExprKind::Field(x, l) => match s_normalize(x, fuel) {
            Option::Some(nx) => Option::Some(ExprKind::Field(nx, l)),
            Option::None => Option::None,
        },
        ExprKind::Projection(x, ls) => match s_normalize(x, fuel) {
            Option::Some(nx) => Option::Some(ExprKind::Projection(nx, ls)),
            Option::None => Option::None,
        },
        ExprKind::Merge(h, v, t) => match (
            s_normalize(h, fuel),
            s_normalize(v, fuel),
            s_norm_opt(t, fuel),
        ) {
            (Option::Some(nh), Option::Some(nv), Option::Some(nt)) => Option::Some(
                ExprKind::Merge(nh, nv, nt),
            ),
            _ => Option::None,
        },
    }
}

pub open spec fn s_norm_valuef(vf: ValueF, fuel: u64) -> Option<ValueF>
    decreases fuel, vf, 1int,
{
    match vf {
        ValueF::Var(n) => Option::Some(ValueF::Var(n)),
        ValueF::Const(c) => Option::Some(ValueF::Const(c)),
        ValueF::BoolLit(b) => Option::Some(ValueF::BoolLit(b)),
        ValueF::NaturalLit(n) => Option::Some(ValueF::NaturalLit(n)),
        ValueF::IntegerLit(n) => Option::Some(ValueF::IntegerLit(n)),
        ValueF::DoubleLit(n) => Option::Some(ValueF::DoubleLit(n)),
        ValueF::AppliedBuiltin(b, args) => match s_norm_values(args, fuel) {
            Option::Some(na) => Option::Some(ValueF::AppliedBuiltin(b, na)),
            Option::None => Option::None,
        },
        ValueF::Lam(t, e) => match (s_normalize(t, fuel), s_normalize(e, fuel)) {
            (Option::Some(nt), Option::Some(ne)) => Option::Some(ValueF::Lam(nt, ne)),
            _ => Option::None,
        },
        ValueF::Pi(t, e) => match (s_normalize(t, fuel), s_normalize(e, fuel)) {
            (Option::Some(nt), Option::Some(ne)) => Option::Some(ValueF::Pi(nt, ne)),
            _ => Option::None,
        },
        ValueF::EmptyListLit(t) => match s_normalize(t, fuel) {
            Option::Some(nt) => Option::Some(ValueF::EmptyListLit(nt)),
            Option::None => Option::None,
        },
        ValueF::NEListLit(xs) => match s_norm_values(xs, fuel) {
            Option::Some(nx) => Option::Some(ValueF::NEListLit(nx)),
            Option::None => Option::None,
        },
        ValueF::EmptyOptionalLit(t) => match s_normalize(t, fuel) {
            Option::Some(nt) => Option::Some(ValueF::EmptyOptionalLit(nt)),
            Option::None => Option::None,
        },
        ValueF::NEOptionalLit(x) => match s_normalize(x, fuel) {
            Option::Some(nx) => Option::Some(ValueF::NEOptionalLit(nx)),
            Option::None => Option::None,
        },
        ValueF::RecordLit(kvs) => match s_norm_entries(kvs, fuel) {
            Option::Some(nk) => Option::Some(ValueF::RecordLit(nk)),
            Option::None => Option::None,
        },
        ValueF::RecordType(kts) => match s_norm_entries(kts, fuel) {
            Option::Some(nk) => Option::Some(ValueF::RecordType(nk)),
            Option::None => Option::None,
        },
        ValueF::UnionType(kts) => match s_norm_alts(kts, fuel) {
            Option::Some(nk) => Option::Some(ValueF::UnionType(nk)),
            Option::None => Option::None,
        },
        ValueF::UnionConstructor(l, kts) => match s_norm_alts(kts, fuel) {
            Option::Some(nk) => Option::Some(ValueF::UnionConstructor(l, nk)),
            Option::None => Option::None,
        },
        ValueF::UnionLit(l, x, kts) => match (s_normalize(x, fuel), s_norm_alts(kts, fuel)) {
            (Option::Some(nx), Option::Some(nk)) => Option::Some(ValueF::UnionLit(l, nx, nk)),
            _ => Option::None,
        },
        ValueF::TextLit(chunks) => match s_norm_chunks(chunks, fuel) {
            Option::Some(nc) => Option::Some(ValueF::TextLit(nc)),
            Option::None => Option::None,
        },
        ValueF::Equivalence(x, y) => match (s_normalize(x, fuel), s_normalize(y, fuel)) {
            (Option::Some(nx), Option::Some(ny)) => Option::Some(ValueF::Equivalence(nx, ny)),
            _ => Option::None,
        },
        ValueF::PartialExpr(e) => match s_norm_expr(*e, fuel) {
            Option::Some(ne) => Option::Some(ValueF::PartialExpr(Box::new(ne))),
            Option::None => Option::None,
        },
    }
}

/// The algebraic simplification table of the binary operators, on forced
/// heads. `Some(Some(v))` is a simplification, `Some(None)` says no rule
/// applies (the operation stays neutral), `None` is fuel exhaustion.
pub open spec fn s_apply_binop(o: BinOp, x: Value, y: Value, fuel: u64) -> Option<Option<Value>>
    decreases fuel, x, 0int,
{
    if fuel == 0 {
        Option::None
    } else {
        let fl = (fuel - 1) as u64;
        match (s_whnf(x, fl), s_whnf(y, fl)) {
            (Option::Some(Value::Whnf(hx)), Option::Some(Value::Whnf(hy))) => s_binop_table(
                o,
                x,
                y,
                Value::Whnf(hx),
                Value::Whnf(hy),
                fl,
            ),
            _ => Option::None,
        }
    }
}

/// One operator on two forced operands. `wx` and `wy` are the forced forms
/// of `x` and `y`.
pub open spec fn s_binop_table(
    o: BinOp,
    x: Value,
    y: Value,
    wx: Value,
    wy: Value,
    fuel: u64,
) -> Option<Option<Value>>
    decreases fuel, x, 2int,
{
    let hx = wx->Whnf_0;
    let hy = wy->Whnf_0;
    match o {
        BinOp::BoolAnd => {
            if *hx == ValueF::BoolLit(true) {
                Option::Some(Option::Some(wy))
            } else if *hy == ValueF::BoolLit(true) {
                Option::Some(Option::Some(wx))
            } else if *hx == ValueF::BoolLit(false) || *hy == ValueF::BoolLit(false) {
                Option::Some(Option::Some(Value::Whnf(Box::new(ValueF::BoolLit(false)))))
            } else {
                match s_value_eq(x, y, fuel) {
                    Option::None => Option::None,
                    Option::Some(true) => Option::Some(Option::Some(wx)),
                    Option::Some(false) => Option::Some(Option::None),
                }
            }
        },
        BinOp::BoolOr => {
            if *hx == ValueF::BoolLit(true) || *hy == ValueF::BoolLit(true) {
                Option::Some(Option::Some(Value::Whnf(Box::new(ValueF::BoolLit(true)))))
            } else if *hx == ValueF::BoolLit(false) {
                Option::Some(Option::Some(wy))
            } else if *hy == ValueF::BoolLit(false) {
                Option::Some(Option::Some(wx))
            } else {
                match s_value_eq(x, y, fuel) {
                    Option::None => Option::None,
                    Option::Some(true) => Option::Some(Option::Some(wx)),
                    Option::Some(false) => Option::Some(Option::None),
                }
            }
        },
        BinOp::BoolEQ => {
            if *hx == ValueF::BoolLit(true) {
                Option::Some(Option::Some(wy))
            } else if *hy == ValueF::BoolLit(true) {
                Option::Some(Option::Some(wx))
            } else {
                match (*hx, *hy) {
                    (ValueF::BoolLit(bx), ValueF::BoolLit(by)) => Option::Some(
                        Option::Some(Value::Whnf(Box::new(ValueF::BoolLit(bx == by)))),
                    ),
                    _ => match s_value_eq(x, y, fuel) {
                        Option::None => Option::None,
                        Option::Some(true) => Option::Some(
                            Option::Some(Value::Whnf(Box::new(ValueF::BoolLit(true)))),
                        ),
                        Option::Some(false) => Option::Some(Option::None),
                    },
                }
            }
        },
        BinOp::BoolNE => {
            if *hx == ValueF::BoolLit(false) {
                Option::Some(Option::Some(wy))
            } else if *hy == ValueF::BoolLit(false) {
                Option::Some(Option::Some(wx))
            } else {
                match (*hx, *hy) {
                    (ValueF::BoolLit(bx), ValueF::BoolLit(by)) => Option::Some(
                        Option::Some(Value::Whnf(Box::new(ValueF::BoolLit(bx != by)))),
                    ),
                    _ => match s_value_eq(x, y, fuel) {
                        Option::None => Option::None,
                        Option::Some(true) => Option::Some(
                            Option::Some(Value::Whnf(Box::new(ValueF::BoolLit(false)))),
                        ),
                        Option::Some(false) => Option::Some(Option::None),
                    },
                }
            }
        },
        BinOp::NaturalPlus => {
            if *hx == ValueF::NaturalLit(0) {
                Option::Some(Option::Some(wy))
            } else if *hy == ValueF::NaturalLit(0) {
                Option::Some(Option::Some(wx))
            } else {
                match (*hx, *hy) {
                    (ValueF::NaturalLit(nx), ValueF::NaturalLit(ny)) => if nx + ny <= u64::MAX {
                        Option::Some(
                            Option::Some(
                                Value::Whnf(Box::new(ValueF::NaturalLit((nx + ny) as u64))),
                            ),
                        )
                    } else {
                        Option::Some(Option::None)
                    },
                    _ => Option::Some(Option::None),
                }
            }
        },
        BinOp::NaturalTimes => {
            if *hx == ValueF::NaturalLit(0) || *hy == ValueF::NaturalLit(0) {
                Option::Some(Option::Some(Value::Whnf(Box::new(ValueF::NaturalLit(0)))))
            } else if *hx == ValueF::NaturalLit(1) {
                Option::Some(Option::Some(wy))
            } else if *hy == ValueF::NaturalLit(1) {
                Option::Some(Option::Some(wx))
            } else {
                match (*hx, *hy) {
                    (ValueF::NaturalLit(nx), ValueF::NaturalLit(ny)) => if nx * ny <= u64::MAX {
                        Option::Some(
                            Option::Some(
                                Value::Whnf(Box::new(ValueF::NaturalLit((nx * ny) as u64))),
                            ),
                        )
                    } else {
                        Option::Some(Option::None)
                    },
                    _ => Option::Some(Option::None),
                }
            }
        },
        BinOp::ListAppend => match (*hx, *hy) {
            (ValueF::EmptyListLit(_), _) => Option::Some(Option::Some(wy)),
            (_, ValueF::EmptyListLit(_)) => Option::Some(Option::Some(wx)),
            (ValueF::NEListLit(xs), ValueF::NEListLit(ys)) => Option::Some(
                Option::Some(Value::Whnf(Box::new(ValueF::NEListLit(lappend(xs, ys))))),
            ),
            _ => Option::Some(Option::None),
        },
        BinOp::TextAppend => match (*hx, *hy) {
            (ValueF::TextLit(cx), ValueF::TextLit(cy)) => if cx is Nil {
                Option::Some(Option::Some(wy))
            } else if cy is Nil {
                Option::Some(Option::Some(wx))
            } else {
                if fuel == 0 {
                    Option::None
                } else {
                match s_squash(lappend(cx, cy), (fuel - 1) as u64) {
                    Option::None => Option::None,
                    Option::Some(sq) => Option::Some(
                        Option::Some(Value::Whnf(Box::new(ValueF::TextLit(sq)))),
                    ),
                }
                }
            },
            (ValueF::TextLit(cx), _) => if cx is Nil {
                Option::Some(Option::Some(wy))
            } else {
                if fuel == 0 {
                    Option::None
                } else {
                match s_squash(
                    lappend(
                        cx,
                        List::Cons(InterpolatedTextContents::Expr(y), Box::new(List::Nil)),
                    ),
                    (fuel - 1) as u64,
                ) {
                    Option::None => Option::None,
                    Option::Some(sq) => Option::Some(
                        Option::Some(Value::Whnf(Box::new(ValueF::TextLit(sq)))),
                    ),
                }
                }
            },
            (_, ValueF::TextLit(cy)) => if cy is Nil {
                Option::Some(Option::Some(wx))
            } else {
                if fuel == 0 {
                    Option::None
                } else {
                match s_squash(
                    List::Cons(InterpolatedTextContents::Expr(x), Box::new(cy)),
                    (fuel - 1) as u64,
                ) {
                    Option::None => Option::None,
                    Option::Some(sq) => Option::Some(
                        Option::Some(Value::Whnf(Box::new(ValueF::TextLit(sq)))),
                    ),
                }
                }
            },
            _ => Option::Some(Option::None),
        },
        BinOp::RightBiasedRecordMerge => match (*hx, *hy) {
            (_, ValueF::RecordLit(kvs2)) => if kvs2 is Nil {
                Option::Some(Option::Some(wx))
            } else {
                match *hx {
                    ValueF::RecordLit(kvs1) => if kvs1 is Nil {
                        Option::Some(Option::Some(wy))
                    } else {
                        Option::Some(
                            Option::Some(
                                Value::Whnf(Box::new(ValueF::RecordLit(s_right_merge(kvs1, kvs2)))),
                            ),
                        )
                    },
                    _ => Option::Some(Option::None),
                }
            },
            (ValueF::RecordLit(kvs1), _) => if kvs1 is Nil {
                Option::Some(Option::Some(wy))
            } else {
                Option::Some(Option::None)
            },
            _ => Option::Some(Option::None),
        },
        BinOp::RecursiveRecordMerge => match (*hx, *hy) {
            (_, ValueF::RecordLit(kvs2)) => if kvs2 is Nil {
                Option::Some(Option::Some(wx))
            } else {
                match *hx {
                    ValueF::RecordLit(kvs1) => if kvs1 is Nil {
                        Option::Some(Option::Some(wy))
                    } else {
                        Option::Some(
                            Option::Some(
                                Value::Whnf(
                                    Box::new(
                                        ValueF::RecordLit(
                                            s_merge_maps(kvs1, kvs2, BinOp::RecursiveRecordMerge),
                                        ),
                                    ),
                                ),
                            ),
                        )
                    },
                    _ => Option::Some(Option::None),
                }
            },
            (ValueF::RecordLit(kvs1), _) => if kvs1 is Nil {
                Option::Some(Option::Some(wy))
            } else {
                Option::Some(Option::None)
            },
            _ => Option::Some(Option::None),
        },
        BinOp::RecursiveRecordTypeMerge => match (*hx, *hy) {
            (_, ValueF::RecordType(kts2)) => if kts2 is Nil {
                Option::Some(Option::Some(wx))
            } else {
                match *hx {
                    ValueF::RecordType(kts1) => if kts1 is Nil {
                        Option::Some(Option::Some(wy))
                    } else {
                        Option::Some(
                            Option::Some(
                                Value::Whnf(
                                    Box::new(
                                        ValueF::RecordType(
                                            s_merge_maps(
                                                kts1,
                                                kts2,
                                                BinOp::RecursiveRecordTypeMerge,
                                            ),
                                        ),
                                    ),
                                ),
                            ),
                        )
                    },
                    _ => Option::Some(Option::None),
                }
            },
            (ValueF::RecordType(kts1), _) => if kts1 is Nil {
                Option::Some(Option::Some(wy))
            } else {
                Option::Some(Option::None)
            },
            _ => Option::Some(Option::None),
        },
        BinOp::Equivalence => Option::Some(
            Option::Some(Value::Whnf(Box::new(ValueF::Equivalence(wx, wy)))),
        ),
    }
}

/// Applies a built-in to its accumulated arguments: when enough arguments
/// are there and the inspected ones have the right shape, the rule for the
/// built-in fires and any unconsumed arguments are re-applied; otherwise
/// the application stays a neutral.
pub open spec fn s_apply_builtin(b: Builtin, args: List<Value>, fuel: u64) -> Option<Value>
    decreases fuel, args, 0int,
{
    if fuel == 0 {
        Option::None
    } else {
        let fl = (fuel - 1) as u64;
        let neutral = Value::Whnf(Box::new(ValueF::AppliedBuiltin(b, args)));
        match b {
            Builtin::OptionalNone => match args {
                List::Cons(t, r) => s_apply_args(
                    Value::Whnf(Box::new(ValueF::EmptyOptionalLit(t))),
                    *r,
                    fl,
                ),
                _ => Option::Some(neutral),
            },
            Builtin::NaturalIsZero => s_natural_pred(b, args, fl),
            Builtin::NaturalEven => s_natural_pred(b, args, fl),
            Builtin::NaturalOdd => s_natural_pred(b, args, fl),
            Builtin::NaturalToInteger => s_natural_pred(b, args, fl),
            Builtin::NaturalShow => s_natural_pred(b, args, fl),
            Builtin::NaturalSubtract => match args {
                List::Cons(a1, tail1) => match *tail1 {
                    List::Cons(a2, r) => match (s_whnf(a1, fl), s_whnf(a2, fl)) {
                        (Option::Some(Value::Whnf(h1)), Option::Some(Value::Whnf(h2))) => {
                            match (*h1, *h2) {
                                (ValueF::NaturalLit(n1), ValueF::NaturalLit(n2)) => s_apply_args(
                                    Value::Whnf(
                                        Box::new(
                                            ValueF::NaturalLit(
                                                if n2 > n1 {
                                                    (n2 - n1) as u64
                                                } else {
                                                    0
                                                },
                                            ),
                                        ),
                                    ),
                                    *r,
                                    fl,
                                ),
                                (ValueF::NaturalLit(n1), _) => if n1 == 0 {
                                    s_apply_args(Value::Whnf(h2), *r, fl)
                                } else {
                                    s_subtract_eq(b, args, a1, a2, *r, fl)
                                },
                                (_, ValueF::NaturalLit(n2)) => if n2 == 0 {
                                    s_apply_args(
                                        Value::Whnf(Box::new(ValueF::NaturalLit(0))),
                                        *r,
                                        fl,
                                    )
                                } else {
                                    s_subtract_eq(b, args, a1, a2, *r, fl)
                                },
                                _ => s_subtract_eq(b, args, a1, a2, *r, fl),
                            }
                        },
                        _ => Option::None,
                    },
                    _ => Option::Some(neutral),
                },
                _ => Option::Some(neutral),
            },
            Builtin::IntegerToDouble => match args {
                List::Cons(n, r) => match s_whnf(n, fl) {
                    Option::Some(Value::Whnf(h)) => match *h {
                        ValueF::IntegerLit(k) => s_apply_args(
                            Value::Whnf(
                                Box::new(
                                    ValueF::DoubleLit(crate::double::s_int_to_double_bits(k)),
                                ),
                            ),
                            *r,
                            fl,
                        ),
                        _ => Option::Some(neutral),
                    },
                    Option::Some(_) => Option::Some(neutral),
                    Option::None => Option::None,
                },
                _ => Option::Some(neutral),
            },
            Builtin::IntegerShow => match args {
                List::Cons(n, r) => match s_whnf(n, fl) {
                    Option::Some(Value::Whnf(h)) => match *h {
                        ValueF::IntegerLit(k) => s_apply_args(
                            s_text_value(crate::show::s_integer_digits(k)),
                            *r,
                            fl,
                        ),
                        _ => Option::Some(neutral),
                    },
                    Option::Some(_) => Option::Some(neutral),
                    Option::None => Option::None,
                },
                _ => Option::Some(neutral),
            },
            Builtin::TextShow => match args {
                List::Cons(v, r) => match s_whnf(v, fl) {
                    Option::Some(Value::Whnf(h)) => match *h {
                        ValueF::TextLit(List::Nil) => s_apply_args(
                            s_text_value(crate::show::s_text_show(List::Nil)),
                            *r,
                            fl,
                        ),
                        ValueF::TextLit(List::Cons(InterpolatedTextContents::Text(s), tail)) => {
                            if *tail is Nil {
                                s_apply_args(
                                    s_text_value(crate::show::s_text_show(s)),
                                    *r,
                                    fl,
                                )
                            } else {
                                Option::Some(neutral)
                            }
                        },
                        _ => Option::Some(neutral),
                    },
                    Option::Some(_) => Option::Some(neutral),
                    Option::None => Option::None,
                },
                _ => Option::Some(neutral),
            },
            Builtin::ListLength => s_list_arg_rule(b, args, fl),
            Builtin::ListHead => s_list_arg_rule(b, args, fl),
            Builtin::ListLast => s_list_arg_rule(b, args, fl),
            Builtin::ListReverse => s_list_arg_rule(b, args, fl),
            Builtin::ListIndexed => s_list_arg_rule(b, args, fl),
            Builtin::ListBuild => match args {
                List::Cons(t, tail1) => match *tail1 {
                    List::Cons(f, r) => match s_whnf(f, fl) {
                        Option::Some(Value::Whnf(h)) => match *h {
                            ValueF::AppliedBuiltin(Builtin::ListFold, fargs) => match fargs {
                                List::Cons(_, ftail) => match *ftail {
                                    List::Cons(xs, _) => s_apply_args(xs, *r, fl),
                                    _ => Option::Some(neutral),
                                },
                                _ => Option::Some(neutral),
                            },
                            _ => s_build_unfold(
                                Value::Whnf(h),
                                s_list_type(t),
                                s_list_cons_closure(t),
                                Value::Whnf(Box::new(ValueF::EmptyListLit(t))),
                                *r,
                                fl,
                            ),
                        },
                        Option::Some(_) => Option::Some(neutral),
                        Option::None => Option::None,
                    },
                    _ => Option::Some(neutral),
                },
                _ => Option::Some(neutral),
            },
            Builtin::ListFold => match args {
                List::Cons(_, tail1) => match *tail1 {
                    List::Cons(l, tail2) => match *tail2 {
                        List::Cons(_, tail3) => match *tail3 {
                            List::Cons(cons, tail4) => match *tail4 {
                                List::Cons(nil, r) => match s_whnf(l, fl) {
                                    Option::Some(Value::Whnf(h)) => match *h {
                                        ValueF::EmptyListLit(_) => s_apply_args(nil, *r, fl),
                                        ValueF::NEListLit(xs) => match s_fold_right(
                                            cons,
                                            xs,
                                            nil,
                                            fl,
                                        ) {
                                            Option::None => Option::None,
                                            Option::Some(v) => s_apply_args(v, *r, fl),
                                        },
                                        _ => Option::Some(neutral),
                                    },
                                    Option::Some(_) => Option::Some(neutral),
                                    Option::None => Option::None,
                                },
                                _ => Option::Some(neutral),
                            },
                            _ => Option::Some(neutral),
                        },
                        _ => Option::Some(neutral),
                    },
                    _ => Option::Some(neutral),
                },
                _ => Option::Some(neutral),
            },
            Builtin::OptionalBuild => match args {
                List::Cons(t, tail1) => match *tail1 {
                    List::Cons(f, r) => match s_whnf(f, fl) {
                        Option::Some(Value::Whnf(h)) => match *h {
                            ValueF::AppliedBuiltin(Builtin::OptionalFold, fargs) => match fargs {
                                List::Cons(_, ftail) => match *ftail {
                                    List::Cons(o, _) => s_apply_args(o, *r, fl),
                                    _ => Option::Some(neutral),
                                },
                                _ => Option::Some(neutral),
                            },
                            _ => s_build_unfold(
                                Value::Whnf(h),
                                s_optional_type(t),
                                s_some_closure(t),
                                Value::Whnf(Box::new(ValueF::EmptyOptionalLit(t))),
                                *r,
                                fl,
                            ),
                        },
                        Option::Some(_) => Option::Some(neutral),
                        Option::None => Option::None,
                    },
                    _ => Option::Some(neutral),
                },
                _ => Option::Some(neutral),
            },
            Builtin::OptionalFold => match args {
                List::Cons(_, tail1) => match *tail1 {
                    List::Cons(v, tail2) => match *tail2 {
                        List::Cons(_, tail3) => match *tail3 {
                            List::Cons(just, tail4) => match *tail4 {
                                List::Cons(nothing, r) => match s_whnf(v, fl) {
                                    Option::Some(Value::Whnf(h)) => match *h {
                                        ValueF::EmptyOptionalLit(_) => s_apply_args(nothing, *r, fl),
                                        ValueF::NEOptionalLit(xv) => match s_apply_any(
                                            just,
                                            xv,
                                            fl,
                                        ) {
                                            Option::None => Option::None,
                                            Option::Some(jv) => s_apply_args(jv, *r, fl),
                                        },
                                        _ => Option::Some(neutral),
                                    },
                                    Option::Some(_) => Option::Some(neutral),
                                    Option::None => Option::None,
                                },
                                _ => Option::Some(neutral),
                            },
                            _ => Option::Some(neutral),
                        },
                        _ => Option::Some(neutral),
                    },
                    _ => Option::Some(neutral),
                },
                _ => Option::Some(neutral),
            },
            Builtin::NaturalBuild => match args {
                List::Cons(f, r) => match s_whnf(f, fl) {
                    Option::Some(Value::Whnf(h)) => match *h {
                        ValueF::AppliedBuiltin(Builtin::NaturalFold, fargs) => match fargs {
                            List::Cons(n, _) => s_apply_args(n, *r, fl),
                            _ => Option::Some(neutral),
                        },
                        _ => s_build_unfold(
                            Value::Whnf(h),
                            Value::Whnf(Box::new(ValueF::AppliedBuiltin(Builtin::Natural, List::Nil))),
                            s_succ_closure(),
                            Value::Whnf(Box::new(ValueF::NaturalLit(0))),
                            *r,
                            fl,
                        ),
                    },
                    Option::Some(_) => Option::Some(neutral),
                    Option::None => Option::None,
                },
                _ => Option::Some(neutral),
            },
            Builtin::NaturalFold => match args {
                List::Cons(n, tail1) => match *tail1 {
                    List::Cons(t, tail2) => match *tail2 {
                        List::Cons(succ, tail3) => match *tail3 {
                            List::Cons(zero, r) => match s_whnf(n, fl) {
                                Option::Some(Value::Whnf(h)) => match *h {
                                    ValueF::NaturalLit(k) => if k == 0 {
                                        s_apply_args(zero, *r, fl)
                                    } else {
                                        let inner = Value::Blocked(
                                            Box::new(
                                                ValueF::AppliedBuiltin(
                                                    Builtin::NaturalFold,
                                                    List::Cons(
                                                        Value::Whnf(
                                                            Box::new(ValueF::NaturalLit((k - 1) as u64)),
                                                        ),
                                                        Box::new(
                                                            List::Cons(
                                                                t,
                                                                Box::new(
                                                                    List::Cons(
                                                                        succ,
                                                                        Box::new(
                                                                            List::Cons(
                                                                                zero,
                                                                                Box::new(List::Nil),
                                                                            ),
                                                                        ),
                                                                    ),
                                                                ),
                                                            ),
                                                        ),
                                                    ),
                                                ),
                                            ),
                                        );
                                        match s_apply_any(succ, inner, fl) {
                                            Option::None => Option::None,
                                            Option::Some(v) => s_apply_args(v, *r, fl),
                                        }
                                    },
                                    _ => Option::Some(neutral),
                                },
                                Option::Some(_) => Option::Some(neutral),
                                Option::None => Option::None,
                            },
                            _ => Option::Some(neutral),
                        },
                        _ => Option::Some(neutral),
                    },
                    _ => Option::Some(neutral),
                },
                _ => Option::Some(neutral),
            },
            _ => Option::Some(neutral),
        }
    }
}

/// The remaining `Natural/subtract` cases: equal arguments give zero.
pub open spec fn s_subtract_eq(
    b: Builtin,
    args: List<Value>,
    a1: Value,
    a2: Value,
    r: List<Value>,
    fuel: u64,
) -> Option<Value>
    decreases fuel, args, 2int,
{
    if fuel == 0 {
        Option::None
    } else {
        let fl = (fuel - 1) as u64;
        match s_value_eq(a1, a2, fl) {
            Option::None => Option::None,
            Option::Some(true) => s_apply_args(Value::Whnf(Box::new(ValueF::NaturalLit(0))), r, fl),
            Option::Some(false) => Option::Some(
                Value::Whnf(Box::new(ValueF::AppliedBuiltin(b, args))),
            ),
        }
    }
}

/// A text literal of one plain fragment, as a value.
pub open spec fn s_text_value(s: List<u8>) -> Value {
    Value::Whnf(
        Box::new(
            ValueF::TextLit(
                List::Cons(InterpolatedTextContents::Text(s), Box::new(List::Nil)),
            ),
        ),
    )
}

/// The one-argument rules on a natural literal.
pub open spec fn s_natural_pred(b: Builtin, args: List<Value>, fuel: u64) -> Option<Value>
    decreases fuel, args, 2int,
{
    if fuel == 0 {
        Option::None
    } else {
        let fl = (fuel - 1) as u64;
        let neutral = Value::Whnf(Box::new(ValueF::AppliedBuiltin(b, args)));
        match args {
            List::Cons(n, r) => match s_whnf(n, fl) {
                Option::Some(Value::Whnf(h)) => match *h {
                    ValueF::NaturalLit(k) => {
                        let produced = match b {
                            Builtin::NaturalIsZero => Value::Whnf(
                                Box::new(ValueF::BoolLit(k == 0)),
                            ),
                            Builtin::NaturalEven => Value::Whnf(
                                Box::new(ValueF::BoolLit(k % 2 == 0)),
                            ),
                            Builtin::NaturalOdd => Value::Whnf(
                                Box::new(ValueF::BoolLit(k % 2 != 0)),
                            ),
                            Builtin::NaturalToInteger => Value::Whnf(
                                Box::new(ValueF::IntegerLit(k as i64)),
                            ),
                            _ => s_text_value(crate::show::s_digits(k)),
                        };
                        s_apply_args(produced, *r, fl)
                    },
                    _ => Option::Some(neutral),
                },
                Option::Some(_) => Option::Some(neutral),
                Option::None => Option::None,
            },
            _ => Option::Some(neutral),
        }
    }
}

/// The rules that inspect a list literal in their second argument.
pub open spec fn s_list_arg_rule(b: Builtin, args: List<Value>, fuel: u64) -> Option<Value>
    decreases fuel, args, 2int,
{
    if fuel == 0 {
        Option::None
    } else {
        let fl = (fuel - 1) as u64;
        let neutral = Value::Whnf(Box::new(ValueF::AppliedBuiltin(b, args)));
        match args {
            List::Cons(_, tail1) => match *tail1 {
                List::Cons(l, r) => match s_whnf(l, fl) {
                    Option::Some(Value::Whnf(h)) => match *h {
                        ValueF::EmptyListLit(t) => {
                            let produced = match b {
                                Builtin::ListLength => Value::Whnf(
                                    Box::new(ValueF::NaturalLit(0)),
                                ),
                                Builtin::ListHead => Value::Whnf(
                                    Box::new(ValueF::EmptyOptionalLit(t)),
                                ),
                                Builtin::ListLast => Value::Whnf(
                                    Box::new(ValueF::EmptyOptionalLit(t)),
                                ),
                                Builtin::ListReverse => Value::Whnf(
                                    Box::new(ValueF::EmptyListLit(t)),
                                ),
                                _ => Value::Whnf(
                                    Box::new(ValueF::EmptyListLit(s_indexed_record_type(t))),
                                ),
                            };
                            s_apply_args(produced, *r, fl)
                        },
                        ValueF::NEListLit(xs) => match b {
                            Builtin::ListLength => match s_len_u64(xs) {
                                Option::Some(n) => s_apply_args(
                                    Value::Whnf(Box::new(ValueF::NaturalLit(n))),
                                    *r,
                                    fl,
                                ),
                                Option::None => Option::Some(neutral),
                            },
                            Builtin::ListHead => match xs {
                                List::Cons(x0, _) => s_apply_args(
                                    Value::Whnf(Box::new(ValueF::NEOptionalLit(x0))),
                                    *r,
                                    fl,
                                ),
                                _ => Option::Some(neutral),
                            },
                            Builtin::ListLast => match s_last(xs) {
                                Option::Some(xn) => s_apply_args(
                                    Value::Whnf(Box::new(ValueF::NEOptionalLit(xn))),
                                    *r,
                                    fl,
                                ),
                                Option::None => Option::Some(neutral),
                            },
                            Builtin::ListReverse => s_apply_args(
                                Value::Whnf(Box::new(ValueF::NEListLit(s_lreverse(xs)))),
                                *r,
                                fl,
                            ),
                            _ => match s_len_u64(xs) {
                                Option::Some(_) => s_apply_args(
                                    Value::Whnf(Box::new(ValueF::NEListLit(s_indexed_list(xs, 0)))),
                                    *r,
                                    fl,
                                ),
                                Option::None => Option::Some(neutral),
                            },
                        },
                        _ => Option::Some(neutral),
                    },
                    Option::Some(_) => Option::Some(neutral),
                    Option::None => Option::None,
                },
                _ => Option::Some(neutral),
            },
            _ => Option::Some(neutral),
        }
    }
}

/// The unfolding of a build: `f ty consish nilish`, with the unconsumed
/// arguments re-applied.
pub open spec fn s_build_unfold(
    f: Value,
    ty: Value,
    consish: Value,
    nilish: Value,
    r: List<Value>,
    fuel: u64,
) -> Option<Value>
    decreases fuel, f, 2int,
{
    if fuel == 0 {
        Option::None
    } else {
        let fl = (fuel - 1) as u64;
        match s_apply_any(f, ty, fl) {
            Option::None => Option::None,
            Option::Some(v1) => match s_apply_any(v1, consish, fl) {
                Option::None => Option::None,
                Option::Some(v2) => match s_apply_any(v2, nilish, fl) {
                    Option::None => Option::None,
                    Option::Some(v3) => s_apply_args(v3, r, fl),
                },
            },
        }
    }
}

fn env_lookup(items: &List<Value>, idx: usize) -> (r: Value)
    ensures
        r == s_env_lookup(*items, idx),
    decreases items,
{
    match items {
        List::Nil => Value::Whnf(Box::new(ValueF::Var(idx))),
        List::Cons(v, rest) => if idx == 0 {
            v.clone()
        } else {
            env_lookup(&**rest, idx - 1)
        },
    }
}

fn env_push_binder(env: &Env) -> (r: Env)
    ensures
        r == s_env_push_binder(*env),
{
    Env {
        items: List::Cons(
            Value::Whnf(Box::new(ValueF::Var(0))),
            Box::new(crate::varops::vop_values(&env.items, &VarOp::Shift(1, 0))),
        ),
    }
}

fn thunk(env: &Env, e: &TyExpr) -> (r: Value)
    ensures
        r == s_thunk(*env, *e),
{
    Value::Thunk(Box::new(env.clone()), Box::new(e.clone()))
}

fn thunk_list(env: &Env, l: &List<TyExpr>) -> (r: List<Value>)
    ensures
        r == s_thunk_list(*env, *l),
    decreases l,
{
    match l {
        List::Nil => List::Nil,
        List::Cons(x, rest) => List::Cons(thunk(env, x), Box::new(thunk_list(env, &**rest))),
    }
}

fn thunk_opt(env: &Env, o: &Option<TyExpr>) -> (r: Option<Value>)
    ensures
        r == s_thunk_opt(*env, *o),
{
    match o {
        Option::None => Option::None,
        Option::Some(x) => Option::Some(thunk(env, x)),
    }
}

fn thunk_entries(env: &Env, l: &List<(Label, TyExpr)>) -> (r: List<(Label, Value)>)
    ensures
        r == s_thunk_entries(*env, *l),
    decreases l,
{
    match l {
        List::Nil => List::Nil,
        List::Cons((k, x), rest) => List::Cons(
            (k.clone(), thunk(env, x)),
            Box::new(thunk_entries(env, &**rest)),
        ),
    }
}

fn thunk_alts(env: &Env, l: &List<(Label, Option<TyExpr>)>) -> (r: List<(Label, Option<Value>)>)
    ensures
        r == s_thunk_alts(*env, *l),
    decreases l,
{
    match l {
        List::Nil => List::Nil,
        List::Cons((k, x), rest) => List::Cons(
            (k.clone(), thunk_opt(env, x)),
            Box::new(thunk_alts(env, &**rest)),
        ),
    }
}

fn thunk_chunks(env: &Env, l: &List<InterpolatedTextContents<TyExpr>>) -> (r: List<
    InterpolatedTextContents<Value>,
>)
    ensures
        r == s_thunk_chunks(*env, *l),
    decreases l,
{
    match l {
        List::Nil => List::Nil,
        List::Cons(c, rest) => List::Cons(
            match c {
                InterpolatedTextContents::Text(t) => InterpolatedTextContents::Text(
                    crate::syntax::clone_bytes(t),
                ),
                InterpolatedTextContents::Expr(e) => InterpolatedTextContents::Expr(thunk(env, e)),
            },
            Box::new(thunk_chunks(env, &**rest)),
        ),
    }
}

fn thunk_expr(env: &Env, e: &ExprKind<TyExpr>) -> (r: ExprKind<Value>)
    ensures
        r == s_thunk_expr(*env, *e),
    decreases e,
{
    match e {
        ExprKind::Var(v) => ExprKind::Var(v.clone()),
        ExprKind::Const(c) => ExprKind::Const(*c),
        ExprKind::Builtin(b) => ExprKind::Builtin(*b),
        ExprKind::BoolLit(b) => ExprKind::BoolLit(*b),
        ExprKind::NaturalLit(n) => ExprKind::NaturalLit(*n),
        ExprKind::IntegerLit(n) => ExprKind::IntegerLit(*n),
        ExprKind::DoubleLit(n) => ExprKind::DoubleLit(*n),
        ExprKind::TextLit(chunks) => ExprKind::TextLit(thunk_chunks(env, chunks)),
        ExprKind::Lam(x, t, b) => ExprKind::Lam(x.clone(), thunk(env, t), thunk(env, b)),
        ExprKind::Pi(x, t, b) => ExprKind::Pi(x.clone(), thunk(env, t), thunk(env, b)),
        ExprKind::Let(x, ann, v, b) => ExprKind::Let(
            x.clone(),
            thunk_opt(env, ann),
            thunk(env, v),
            thunk(env, b),
        ),
        ExprKind::App(f, a) => ExprKind::App(thunk(env, f), thunk(env, a)),
        ExprKind::Annot(x, t) => ExprKind::Annot(thunk(env, x), thunk(env, t)),
        ExprKind::Assert(t) => ExprKind::Assert(thunk(env, t)),
        ExprKind::BoolIf(b, e1, e2) => ExprKind::BoolIf(
            thunk(env, b),
            thunk(env, e1),
            thunk(env, e2),
        ),
        ExprKind::BinOp(o, x, y) => ExprKind::BinOp(*o, thunk(env, x), thunk(env, y)),
        ExprKind::EmptyListLit(t) => ExprKind::EmptyListLit(thunk(env, t)),
        ExprKind::NEListLit(xs) => ExprKind::NEListLit(thunk_list(env, xs)),
        ExprKind::SomeLit(x) => ExprKind::SomeLit(thunk(env, x)),
        ExprKind::RecordType(kts) => ExprKind::RecordType(thunk_entries(env, kts)),
        ExprKind::RecordLit(kvs) => ExprKind::RecordLit(thunk_entries(env, kvs)),
        ExprKind::UnionType(kts) => ExprKind::UnionType(thunk_alts(env, kts)),
        ExprKind::Field(x, l) => ExprKind::Field(thunk(env, x), l.clone()),
        ExprKind::Projection(x, ls) => ExprKind::Projection(
            thunk(env, x),
            crate::syntax::clone_labels(ls),
        ),
        ExprKind::Merge(h, v, t) => ExprKind::Merge(
            thunk(env, h),
            thunk(env, v),
            thunk_opt(env, t),
        ),
    }
}

impl Value {
    /// Forces this value to weak-head normal form. Idempotent: on a value
    /// already in weak-head normal form it returns the value unchanged,
    /// whatever the fuel.
    pub fn whnf(&self, fuel: u64) -> (r: Option<Value>)
        ensures
            r == s_whnf(*self, fuel),
        decreases fuel, *self, 0int,
    {
        match self {
            Value::Whnf(_) => Option::Some(self.clone()),
            Value::Thunk(env, e) => if fuel == 0 {
                Option::None
            } else {
                match eval_node(&**env, &**e, fuel - 1) {
                    Option::None => Option::None,
                    Option::Some(r) => r.whnf(fuel - 1),
                }
            },
            Value::Blocked(vf) => if fuel == 0 {
                Option::None
            } else {
                match normalize_whnf(&**vf, fuel - 1) {
                    Option::None => Option::None,
                    Option::Some(r) => r.whnf(fuel - 1),
                }
            },
        }
    }
}

/// One forcing step on a pending head form: an applied built-in fires if
/// it now can, an expression of values reduces one layer, a text literal
/// is squashed; every other head is already settled.
pub fn normalize_whnf(vf: &ValueF, fuel: u64) -> (r: Option<Value>)
    ensures
        r == s_renorm_head(*vf, fuel),
    decreases fuel, *vf, 0int,
{
    if fuel == 0 {
        Option::None
    } else {
        match vf {
            ValueF::AppliedBuiltin(b, args) => apply_builtin(*b, args, fuel - 1),
            ValueF::PartialExpr(e) => normalize_one_layer(&**e, fuel - 1),
            ValueF::TextLit(elts) => match squash_textlit(elts, fuel - 1) {
                Option::None => Option::None,
                Option::Some(sq) => match sq {
                    List::Cons(InterpolatedTextContents::Expr(th), tail) => match *tail {
                        List::Nil => Option::Some(th),
                        _ => Option::Some(
                            Value::Whnf(
                                Box::new(
                                    ValueF::TextLit(
                                        List::Cons(InterpolatedTextContents::Expr(th), tail),
                                    ),
                                ),
                            ),
                        ),
                    },
                    _ => Option::Some(Value::Whnf(Box::new(ValueF::TextLit(sq)))),
                },
            },
            _ => Option::Some(Value::Whnf(Box::new(crate::value::clone_valuef(vf)))),
        }
    }
}

/// Replays a thunk's expression against its environment.
fn eval_node(env: &Env, e: &TyExpr, fuel: u64) -> (r: Option<Value>)
    ensures
        r == s_eval_node(*env, *e, fuel),
    decreases fuel, *e, 0int,
{
    match &*e.kind {
        TyExprKind::Var(a) => Option::Some(env_lookup(&env.items, a.idx())),
        TyExprKind::Expr(ek) => match ek {
            ExprKind::Var(v) => Option::Some(
                Value::Whnf(
                    Box::new(ValueF::PartialExpr(Box::new(ExprKind::Var(v.clone())))),
                ),
            ),
            ExprKind::Lam(_, t, b) => Option::Some(
                Value::Whnf(
                    Box::new(ValueF::Lam(thunk(env, t), thunk(&env_push_binder(env), b))),
                ),
            ),
            ExprKind::Pi(_, t, b) => Option::Some(
                Value::Whnf(
                    Box::new(ValueF::Pi(thunk(env, t), thunk(&env_push_binder(env), b))),
                ),
            ),
            ExprKind::Let(_, _, v, b) => {
                let bound = thunk(env, v);
                Option::Some(thunk(&Env { items: List::Cons(bound, Box::new(crate::value::clone_values(&env.items))) }, b))
            },
            ExprKind::Annot(x, _) => Option::Some(thunk(env, x)),
            _ => if fuel == 0 {
                Option::None
            } else {
                normalize_one_layer(&thunk_expr(env, ek), fuel - 1)
            },
        },
    }
}

/// Performs exactly one head reduction step on an expression of values,
/// returning a canonical form, a neutral wrapper, or a value still to be
/// forced by the caller.
pub fn normalize_one_layer(e: &ExprKind<Value>, fuel: u64) -> (r: Option<Value>)
    ensures
        r == s_one_layer(*e, fuel),
    decreases fuel, *e, 0int,
{
    if fuel == 0 {
        Option::None
    } else {
        let fl = fuel - 1;
        match e {
            ExprKind::Var(v) => Option::Some(
                Value::Whnf(Box::new(ValueF::PartialExpr(Box::new(ExprKind::Var(v.clone()))))),
            ),
            ExprKind::Const(c) => Option::Some(Value::Whnf(Box::new(ValueF::Const(*c)))),
            ExprKind::Builtin(b) => Option::Some(
                Value::Whnf(Box::new(ValueF::AppliedBuiltin(*b, List::Nil))),
            ),
            ExprKind::BoolLit(b) => Option::Some(Value::Whnf(Box::new(ValueF::BoolLit(*b)))),
            ExprKind::NaturalLit(n) => Option::Some(Value::Whnf(Box::new(ValueF::NaturalLit(*n)))),
            ExprKind::IntegerLit(n) => Option::Some(Value::Whnf(Box::new(ValueF::IntegerLit(*n)))),
            ExprKind::DoubleLit(n) => Option::Some(Value::Whnf(Box::new(ValueF::DoubleLit(*n)))),
            ExprKind::Lam(_, t, b) => Option::Some(
                Value::Whnf(Box::new(ValueF::Lam(t.clone(), b.clone()))),
            ),
            ExprKind::Pi(_, t, b) => Option::Some(
                Value::Whnf(Box::new(ValueF::Pi(t.clone(), b.clone()))),
            ),
            ExprKind::Let(_, _, v, b) => Option::Some(
                crate::varops::vop_value(b, &VarOp::Subst(0, v.clone())),
            ),
            ExprKind::Annot(x, _) => Option::Some(x.clone()),
            ExprKind::Assert(t) => Option::Some(
                Value::Whnf(
                    Box::new(ValueF::PartialExpr(Box::new(ExprKind::Assert(t.clone())))),
                ),
            ),
            ExprKind::App(f, a) => apply_any(f, a, fl),
            ExprKind::BoolIf(b, e1, e2) => bool_if_step(b, e1, e2, fl),
            ExprKind::BinOp(o, x, y) => match apply_binop(*o, x, y, fl) {
                Option::None => Option::None,
                Option::Some(Option::Some(v)) => Option::Some(v),
                Option::Some(Option::None) => Option::Some(
                    Value::Whnf(
                        Box::new(
                            ValueF::PartialExpr(
                                Box::new(ExprKind::BinOp(*o, x.clone(), y.clone())),
                            ),
                        ),
                    ),
                ),
            },
            ExprKind::EmptyListLit(t) => match t.whnf(fl) {
                Option::None => Option::None,
                Option::Some(wt) => match wt {
                    Value::Whnf(h) => match *h {
                        ValueF::AppliedBuiltin(Builtin::List, List::Cons(arg, tail)) => match *tail {
                            List::Nil => Option::Some(
                                Value::Whnf(Box::new(ValueF::EmptyListLit(arg))),
                            ),
                            _ => Option::Some(
                                Value::Whnf(
                                    Box::new(
                                        ValueF::PartialExpr(
                                            Box::new(ExprKind::EmptyListLit(t.clone())),
                                        ),
                                    ),
                                ),
                            ),
                        },
                        _ => Option::Some(
                            Value::Whnf(
                                Box::new(
                                    ValueF::PartialExpr(
                                        Box::new(ExprKind::EmptyListLit(t.clone())),
                                    ),
                                ),
                            ),
                        ),
                    },
                    _ => Option::None,
                },
            },
            ExprKind::NEListLit(xs) => Option::Some(
                Value::Whnf(Box::new(ValueF::NEListLit(crate::value::clone_values(xs)))),
            ),
            ExprKind::SomeLit(x) => Option::Some(
                Value::Whnf(Box::new(ValueF::NEOptionalLit(x.clone()))),
            ),
            ExprKind::RecordLit(kvs) => Option::Some(
                Value::Whnf(Box::new(ValueF::RecordLit(crate::value::clone_entries(kvs)))),
            ),
            ExprKind::RecordType(kts) => Option::Some(
                Value::Whnf(Box::new(ValueF::RecordType(crate::value::clone_entries(kts)))),
            ),
            ExprKind::UnionType(kts) => Option::Some(
                Value::Whnf(Box::new(ValueF::UnionType(crate::value::clone_alts(kts)))),
            ),
            ExprKind::TextLit(chunks) => match squash_textlit(chunks, fl) {
                Option::None => Option::None,
                Option::Some(sq) => match sq {
                    List::Cons(InterpolatedTextContents::Expr(th), tail) => match *tail {
                        List::Nil => Option::Some(th),
                        _ => Option::Some(
                            Value::Whnf(
                                Box::new(
                                    ValueF::TextLit(
                                        List::Cons(InterpolatedTextContents::Expr(th), tail),
                                    ),
                                ),
                            ),
                        ),
                    },
                    _ => Option::Some(Value::Whnf(Box::new(ValueF::TextLit(sq)))),
                },
            },
            ExprKind::Field(v, l) => match v.whnf(fl) {
                Option::None => Option::None,
                Option::Some(wv) => match wv {
                    Value::Whnf(h) => match *h {
                        ValueF::RecordLit(kvs) => match crate::maps::record_get(&kvs, l) {
                            Option::Some(found) => Option::Some(found),
                            Option::None => Option::Some(
                                Value::Whnf(
                                    Box::new(
                                        ValueF::PartialExpr(
                                            Box::new(ExprKind::Field(v.clone(), l.clone())),
                                        ),
                                    ),
                                ),
                            ),
                        },
                        ValueF::UnionType(kts) => Option::Some(
                            Value::Whnf(Box::new(ValueF::UnionConstructor(l.clone(), kts))),
                        ),
                        _ => Option::Some(
                            Value::Whnf(
                                Box::new(
                                    ValueF::PartialExpr(
                                        Box::new(ExprKind::Field(v.clone(), l.clone())),
                                    ),
                                ),
                            ),
                        ),
                    },
                    _ => Option::None,
                },
            },
            ExprKind::Projection(v, ls) => match ls {
                List::Nil => Option::Some(Value::Whnf(Box::new(ValueF::RecordLit(List::Nil)))),
                _ => match v.whnf(fl) {
                    Option::None => Option::None,
                    Option::Some(wv) => match wv {
                        Value::Whnf(h) => match *h {
                            ValueF::RecordLit(kvs) => Option::Some(
                                Value::Whnf(
                                    Box::new(
                                        ValueF::RecordLit(
                                            crate::maps::project_entries(&kvs, ls),
                                        ),
                                    ),
                                ),
                            ),
                            _ => Option::Some(
                                Value::Whnf(
                                    Box::new(
                                        ValueF::PartialExpr(
                                            Box::new(
                                                ExprKind::Projection(
                                                    v.clone(),
                                                    crate::syntax::clone_labels(ls),
                                                ),
                                            ),
                                        ),
                                    ),
                                ),
                            ),
                        },
                        _ => Option::None,
                    },
                },
            },
            ExprKind::Merge(h, v, t) => match h.whnf(fl) {
                Option::None => Option::None,
                Option::Some(wh) => match v.whnf(fl) {
                    Option::None => Option::None,
                    Option::Some(wv) => merge_step(h, v, t, wh, wv, fl),
                },
            },
        }
    }
}

/// The reduction of `merge handlers variant` once both heads are known.
fn merge_step(
    h: &Value,
    v: &Value,
    t: &Option<Value>,
    wh: Value,
    wv: Value,
    fuel: u64,
) -> (r: Option<Value>)
    ensures
        r == s_merge(*h, *v, *t, wh, wv, fuel),
    decreases fuel, *h, 2int,
{
    match (&wh, &wv) {
        (Value::Whnf(hh), Value::Whnf(hv)) => match (&**hh, &**hv) {
            (ValueF::RecordLit(kvs), ValueF::UnionConstructor(l, _)) => {
                match crate::maps::record_get(kvs, l) {
                    Option::Some(handler) => Option::Some(handler),
                    Option::None => Option::Some(merge_neutral(h, v, t)),
                }
            },
            (ValueF::RecordLit(kvs), ValueF::UnionLit(l, x, _)) => {
                match crate::maps::record_get(kvs, l) {
                    Option::Some(handler) => if fuel == 0 {
                        Option::None
                    } else {
                        apply_any(&handler, x, fuel - 1)
                    },
                    Option::None => Option::Some(merge_neutral(h, v, t)),
                }
            },
            (ValueF::RecordLit(kvs), ValueF::EmptyOptionalLit(_)) => {
                match crate::maps::record_get(kvs, &label_none()) {
                    Option::Some(handler) => Option::Some(handler),
                    Option::None => Option::Some(merge_neutral(h, v, t)),
                }
            },
            (ValueF::RecordLit(kvs), ValueF::NEOptionalLit(x)) => {
                match crate::maps::record_get(kvs, &label_some()) {
                    Option::Some(handler) => if fuel == 0 {
                        Option::None
                    } else {
                        apply_any(&handler, x, fuel - 1)
                    },
                    Option::None => Option::Some(merge_neutral(h, v, t)),
                }
            },
            _ => Option::Some(merge_neutral(h, v, t)),
        },
        _ => Option::None,
    }
}

fn merge_neutral(h: &Value, v: &Value, t: &Option<Value>) -> (r: Value)
    ensures
        r == Value::Whnf(
            Box::new(ValueF::PartialExpr(Box::new(ExprKind::Merge(*h, *v, *t)))),
        ),
{
    Value::Whnf(
        Box::new(
            ValueF::PartialExpr(
                Box::new(
                    ExprKind::Merge(h.clone(), v.clone(), crate::value::clone_opt_value(t)),
                ),
            ),
        ),
    )
}

/// The reduction of `if b then e1 else e2`.
fn bool_if_step(b: &Value, e1: &Value, e2: &Value, fuel: u64) -> (r: Option<Value>)
    ensures
        r == s_bool_if(*b, *e1, *e2, fuel),
    decreases fuel, *b, 2int,
{
    if fuel == 0 {
        Option::None
    } else {
        let fl = fuel - 1;
        match b.whnf(fl) {
            Option::None => Option::None,
            Option::Some(wb) => match &wb {
                Value::Whnf(hb) => match &**hb {
                    ValueF::BoolLit(true) => Option::Some(e1.clone()),
                    ValueF::BoolLit(false) => Option::Some(e2.clone()),
                    _ => match (e1.whnf(fl), e2.whnf(fl)) {
                        (Option::Some(we1), Option::Some(we2)) => {
                            let lit_pair = is_bool_lit(&we1, true) && is_bool_lit(&we2, false);
                            if lit_pair {
                                Option::Some(wb)
                            } else {
                                match value_eq(e1, e2, fl) {
                                    Option::None => Option::None,
                                    Option::Some(true) => Option::Some(we1),
                                    Option::Some(false) => Option::Some(
                                        Value::Whnf(
                                            Box::new(
                                                ValueF::PartialExpr(
                                                    Box::new(
                                                        ExprKind::BoolIf(
                                                            b.clone(),
                                                            e1.clone(),
                                                            e2.clone(),
                                                        ),
                                                    ),
                                                ),
                                            ),
                                        ),
                                    ),
                                }
                            }
                        },
                        _ => Option::None,
                    },
                },
                _ => Option::None,
            },
        }
    }
}

fn is_bool_lit(v: &Value, which: bool) -> (r: bool)
    ensures
        r == (*v == Value::Whnf(Box::new(ValueF::BoolLit(which)))),
{
    match v {
        Value::Whnf(h) => match &**h {
            ValueF::BoolLit(x) => *x == which,
            _ => false,
        },
        _ => false,
    }
}

/// Applies one value to another: beta reduction for a lambda, argument
/// accumulation for a built-in, payload attachment for a union
/// constructor; anything else is a neutral application.
pub fn apply_any(f: &Value, a: &Value, fuel: u64) -> (r: Option<Value>)
    ensures
        r == s_apply_any(*f, *a, fuel),
    decreases fuel, *f, 0int,
{
    if fuel == 0 {
        Option::None
    } else {
        let fl = fuel - 1;
        match f.whnf(fl) {
            Option::None => Option::None,
            Option::Some(wf) => match wf {
                Value::Whnf(hf) => match *hf {
                    ValueF::Lam(_, body) => Option::Some(
                        crate::varops::vop_value(&body, &VarOp::Subst(0, a.clone())),
                    ),
                    ValueF::AppliedBuiltin(b, args) => {
                        let all = crate::syntax::append(
                            args,
                            List::Cons(a.clone(), Box::new(List::Nil)),
                        );
                        apply_builtin(b, &all, fl)
                    },
                    ValueF::UnionConstructor(l, kts) => Option::Some(
                        Value::Whnf(Box::new(ValueF::UnionLit(l, a.clone(), kts))),
                    ),
                    hf2 => Option::Some(
                        Value::Whnf(
                            Box::new(
                                ValueF::PartialExpr(
                                    Box::new(
                                        ExprKind::App(Value::Whnf(Box::new(hf2)), a.clone()),
                                    ),
                                ),
                            ),
                        ),
                    ),
                },
                _ => Option::None,
            },
        }
    }
}

/// Applies a value to each argument in turn.
fn apply_args(v: Value, rest: &List<Value>, fuel: u64) -> (r: Option<Value>)
    ensures
        r == s_apply_args(v, *rest, fuel),
    decreases fuel, *rest, 0int,
{
    match rest {
        List::Nil => Option::Some(v),
        List::Cons(x, tail) => if fuel == 0 {
            Option::None
        } else {
            match apply_any(&v, x, fuel - 1) {
                Option::None => Option::None,
                Option::Some(r) => apply_args(r, &**tail, fuel),
            }
        },
    }
}

/// Right-folds `cons` over the elements with seed `nil`.
fn fold_right(cons: &Value, xs: &List<Value>, nil: &Value, fuel: u64) -> (r: Option<Value>)
    ensures
        r == s_fold_right(*cons, *xs, *nil, fuel),
    decreases fuel, *xs, 0int,
{
    match xs {
        List::Nil => Option::Some(nil.clone()),
        List::Cons(x, rest) => if fuel == 0 {
            Option::None
        } else {
            let fl = fuel - 1;
            match fold_right(cons, &**rest, nil, fuel) {
                Option::None => Option::None,
                Option::Some(acc) => match apply_any(cons, x, fl) {
                    Option::None => Option::None,
                    Option::Some(cx) => apply_any(&cx, &acc, fl),
                },
            }
        },
    }
}

fn text_value(s: List<u8>) -> (r: Value)
    ensures
        r == s_text_value(s),
{
    Value::Whnf(
        Box::new(
            ValueF::TextLit(List::Cons(InterpolatedTextContents::Text(s), Box::new(List::Nil))),
        ),
    )
}

fn label_index() -> (r: Label)
    ensures
        r == s_label_index(),
{
    Label {
        bytes: List::Cons(
            105u8,
            Box::new(
                List::Cons(
                    110u8,
                    Box::new(
                        List::Cons(
                            100u8,
                            Box::new(
                                List::Cons(101u8, Box::new(List::Cons(120u8, Box::new(List::Nil)))),
                            ),
                        ),
                    ),
                ),
            ),
        ),
    }
}

fn label_value() -> (r: Label)
    ensures
        r == s_label_value(),
{
    Label {
        bytes: List::Cons(
            118u8,
            Box::new(
                List::Cons(
                    97u8,
                    Box::new(
                        List::Cons(
                            108u8,
                            Box::new(
                                List::Cons(117u8, Box::new(List::Cons(101u8, Box::new(List::Nil)))),
                            ),
                        ),
                    ),
                ),
            ),
        ),
    }
}

fn label_some() -> (r: Label)
    ensures
        r == s_label_some(),
{
    Label {
        bytes: List::Cons(
            83u8,
            Box::new(
                List::Cons(
                    111u8,
                    Box::new(List::Cons(109u8, Box::new(List::Cons(101u8, Box::new(List::Nil))))),
                ),
            ),
        ),
    }
}

fn label_none() -> (r: Label)
    ensures
        r == s_label_none(),
{
    Label {
        bytes: List::Cons(
            78u8,
            Box::new(
                List::Cons(
                    111u8,
                    Box::new(List::Cons(110u8, Box::new(List::Cons(101u8, Box::new(List::Nil))))),
                ),
            ),
        ),
    }
}

fn indexed_record_type(t: Value) -> (r: Value)
    ensures
        r == s_indexed_record_type(t),
{
    Value::Whnf(
        Box::new(
            ValueF::RecordType(
                List::Cons(
                    (
                        label_index(),
                        Value::Whnf(Box::new(ValueF::AppliedBuiltin(Builtin::Natural, List::Nil))),
                    ),
                    Box::new(List::Cons((label_value(), t), Box::new(List::Nil))),
                ),
            ),
        ),
    )
}

fn indexed_list(xs: &List<Value>, i: u64) -> (r: List<Value>)
    ensures
        r == s_indexed_list(*xs, i),
    decreases *xs,
{
    match xs {
        List::Nil => List::Nil,
        List::Cons(x, rest) => List::Cons(
            Value::Whnf(
                Box::new(
                    ValueF::RecordLit(
                        List::Cons(
                            (label_index(), Value::Whnf(Box::new(ValueF::NaturalLit(i)))),
                            Box::new(
                                List::Cons((label_value(), x.clone()), Box::new(List::Nil)),
                            ),
                        ),
                    ),
                ),
            ),
            Box::new(indexed_list(&**rest, i.wrapping_add(1))),
        ),
    }
}

fn len_u64<T>(l: &List<T>) -> (r: Option<u64>)
    ensures
        r == s_len_u64(*l),
    decreases *l,
{
    match l {
        List::Nil => Option::Some(0),
        List::Cons(_, rest) => match len_u64(&**rest) {
            Option::None => Option::None,
            Option::Some(k) => if k == u64::MAX {
                Option::None
            } else {
                Option::Some(k + 1)
            },
        },
    }
}

fn last_value(l: &List<Value>) -> (r: Option<Value>)
    ensures
        r == s_last(*l),
    decreases *l,
{
    match l {
        List::Nil => Option::None,
        List::Cons(x, rest) => match &**rest {
            List::Nil => Option::Some(x.clone()),
            _ => last_value(&**rest),
        },
    }
}

fn reverse_values(l: &List<Value>) -> (r: List<Value>)
    ensures
        r == s_lreverse(*l),
    decreases *l,
{
    match l {
        List::Nil => List::Nil,
        List::Cons(x, rest) => crate::syntax::append(
            reverse_values(&**rest),
            List::Cons(x.clone(), Box::new(List::Nil)),
        ),
    }
}

fn keys_of(l: &List<(Label, Value)>) -> (r: List<Label>)
    ensures
        r == s_keys_of(*l),
    decreases *l,
{
    match l {
        List::Nil => List::Nil,
        List::Cons((k, _), rest) => List::Cons(k.clone(), Box::new(keys_of(&**rest))),
    }
}

fn list_cons_closure(t: &Value) -> (r: Value)
    ensures
        r == s_list_cons_closure(*t),
{
    let shifted = crate::varops::vop_value(t, &VarOp::Shift(1, 0));
    Value::Whnf(
        Box::new(
            ValueF::Lam(
                t.clone(),
                Value::Whnf(
                    Box::new(
                        ValueF::Lam(
                            Value::Whnf(
                                Box::new(
                                    ValueF::AppliedBuiltin(
                                        Builtin::List,
                                        List::Cons(shifted, Box::new(List::Nil)),
                                    ),
                                ),
                            ),
                            Value::Whnf(
                                Box::new(
                                    ValueF::PartialExpr(
                                        Box::new(
                                            ExprKind::BinOp(
                                                BinOp::ListAppend,
                                                Value::Whnf(
                                                    Box::new(
                                                        ValueF::NEListLit(
                                                            List::Cons(
                                                                Value::Whnf(
                                                                    Box::new(ValueF::Var(1)),
                                                                ),
                                                                Box::new(List::Nil),
                                                            ),
                                                        ),
                                                    ),
                                                ),
                                                Value::Whnf(Box::new(ValueF::Var(0))),
                                            ),
                                        ),
                                    ),
                                ),
                            ),
                        ),
                    ),
                ),
            ),
        ),
    )
}

fn some_closure(t: &Value) -> (r: Value)
    ensures
        r == s_some_closure(*t),
{
    Value::Whnf(
        Box::new(
            ValueF::Lam(
                t.clone(),
                Value::Whnf(Box::new(ValueF::NEOptionalLit(Value::Whnf(Box::new(ValueF::Var(0)))))),
            ),
        ),
    )
}

fn succ_closure() -> (r: Value)
    ensures
        r == s_succ_closure(),
{
    Value::Whnf(
        Box::new(
            ValueF::Lam(
                Value::Whnf(Box::new(ValueF::AppliedBuiltin(Builtin::Natural, List::Nil))),
                Value::Whnf(
                    Box::new(
                        ValueF::PartialExpr(
                            Box::new(
                                ExprKind::BinOp(
                                    BinOp::NaturalPlus,
                                    Value::Whnf(Box::new(ValueF::Var(0))),
                                    Value::Whnf(Box::new(ValueF::NaturalLit(1))),
                                ),
                            ),
                        ),
                    ),
                ),
            ),
        ),
    )
}

fn list_type(t: Value) -> (r: Value)
    ensures
        r == s_list_type(t),
{
    Value::Whnf(
        Box::new(ValueF::AppliedBuiltin(Builtin::List, List::Cons(t, Box::new(List::Nil)))),
    )
}

fn optional_type(t: Value) -> (r: Value)
    ensures
        r == s_optional_type(t),
{
    Value::Whnf(
        Box::new(ValueF::AppliedBuiltin(Builtin::Optional, List::Cons(t, Box::new(List::Nil)))),
    )
}

/// The unfolding of a build: `f ty consish nilish`, with the unconsumed
/// arguments re-applied.
fn build_unfold(
    f: Value,
    ty: Value,
    consish: Value,
    nilish: Value,
    r0: &List<Value>,
    fuel: u64,
) -> (r: Option<Value>)
    ensures
        r == s_build_unfold(f, ty, consish, nilish, *r0, fuel),
    decreases fuel, f, 2int,
{
    if fuel == 0 {
        Option::None
    } else {
        let fl = fuel - 1;
        match apply_any(&f, &ty, fl) {
            Option::None => Option::None,
            Option::Some(v1) => match apply_any(&v1, &consish, fl) {
                Option::None => Option::None,
                Option::Some(v2) => match apply_any(&v2, &nilish, fl) {
                    Option::None => Option::None,
                    Option::Some(v3) => apply_args(v3, r0, fl),
                },
            },
        }
    }
}

/// The one-argument rules on a natural literal.
fn natural_pred(b: Builtin, args: &List<Value>, fuel: u64) -> (r: Option<Value>)
    ensures
        r == s_natural_pred(b, *args, fuel),
    decreases fuel, *args, 2int,
{
    if fuel == 0 {
        Option::None
    } else {
        let fl = fuel - 1;
        match args {
            List::Cons(n, rest) => match n.whnf(fl) {
                Option::Some(Value::Whnf(h)) => match *h {
                    ValueF::NaturalLit(k) => {
                        let produced = match b {
                            Builtin::NaturalIsZero => Value::Whnf(
                                Box::new(ValueF::BoolLit(k == 0)),
                            ),
                            Builtin::NaturalEven => Value::Whnf(
                                Box::new(ValueF::BoolLit(k % 2 == 0)),
                            ),
                            Builtin::NaturalOdd => Value::Whnf(
                                Box::new(ValueF::BoolLit(k % 2 != 0)),
                            ),
                            Builtin::NaturalToInteger => Value::Whnf(
                                Box::new(ValueF::IntegerLit(k as i64)),
                            ),
                            _ => text_value(crate::show::digits(k)),
                        };
                        apply_args(produced, &**rest, fl)
                    },
                    h2 => Option::Some(neutral_builtin(b, args)),
                },
                Option::Some(_) => Option::Some(neutral_builtin(b, args)),
                Option::None => Option::None,
            },
            _ => Option::Some(neutral_builtin(b, args)),
        }
    }
}

fn neutral_builtin(b: Builtin, args: &List<Value>) -> (r: Value)
    ensures
        r == Value::Whnf(Box::new(ValueF::AppliedBuiltin(b, *args))),
{
    Value::Whnf(Box::new(ValueF::AppliedBuiltin(b, crate::value::clone_values(args))))
}

/// The rules that inspect a list literal in their second argument.
fn list_arg_rule(b: Builtin, args: &List<Value>, fuel: u64) -> (r: Option<Value>)
    ensures
        r == s_list_arg_rule(b, *args, fuel),
    decreases fuel, *args, 2int,
{
    if fuel == 0 {
        Option::None
    } else {
        let fl = fuel - 1;
        match args {
            List::Cons(_, tail1) => match &**tail1 {
                List::Cons(l, rest) => match l.whnf(fl) {
                    Option::Some(Value::Whnf(h)) => match *h {
                        ValueF::EmptyListLit(t) => {
                            let produced = match b {
                                Builtin::ListLength => Value::Whnf(
                                    Box::new(ValueF::NaturalLit(0)),
                                ),
                                Builtin::ListHead => Value::Whnf(
                                    Box::new(ValueF::EmptyOptionalLit(t)),
                                ),
                                Builtin::ListLast => Value::Whnf(
                                    Box::new(ValueF::EmptyOptionalLit(t)),
                                ),
                                Builtin::ListReverse => Value::Whnf(
                                    Box::new(ValueF::EmptyListLit(t)),
                                ),
                                _ => Value::Whnf(
                                    Box::new(ValueF::EmptyListLit(indexed_record_type(t))),
                                ),
                            };
                            apply_args(produced, &**rest, fl)
                        },
                        ValueF::NEListLit(xs) => match b {
                            Builtin::ListLength => match len_u64(&xs) {
                                Option::Some(n) => apply_args(
                                    Value::Whnf(Box::new(ValueF::NaturalLit(n))),
                                    &**rest,
                                    fl,
                                ),
                                Option::None => Option::Some(neutral_builtin(b, args)),
                            },
                            Builtin::ListHead => match &xs {
                                List::Cons(x0, _) => apply_args(
                                    Value::Whnf(Box::new(ValueF::NEOptionalLit(x0.clone()))),
                                    &**rest,
                                    fl,
                                ),
                                _ => Option::Some(neutral_builtin(b, args)),
                            },
                            Builtin::ListLast => match last_value(&xs) {
                                Option::Some(xn) => apply_args(
                                    Value::Whnf(Box::new(ValueF::NEOptionalLit(xn))),
                                    &**rest,
                                    fl,
                                ),
                                Option::None => Option::Some(neutral_builtin(b, args)),
                            },
                            Builtin::ListReverse => apply_args(
                                Value::Whnf(Box::new(ValueF::NEListLit(reverse_values(&xs)))),
                                &**rest,
                                fl,
                            ),
                            _ => match len_u64(&xs) {
                                Option::Some(_) => apply_args(
                                    Value::Whnf(
                                        Box::new(ValueF::NEListLit(indexed_list(&xs, 0))),
                                    ),
                                    &**rest,
                                    fl,
                                ),
                                Option::None => Option::Some(neutral_builtin(b, args)),
                            },
                        },
                        _ => Option::Some(neutral_builtin(b, args)),
                    },
                    Option::Some(_) => Option::Some(neutral_builtin(b, args)),
                    Option::None => Option::None,
                },
                _ => Option::Some(neutral_builtin(b, args)),
            },
            _ => Option::Some(neutral_builtin(b, args)),
        }
    }
}

/// The remaining `Natural/subtract` cases: equal arguments give zero.
fn subtract_eq(
    b: Builtin,
    args: &List<Value>,
    a1: &Value,
    a2: &Value,
    rest: &List<Value>,
    fuel: u64,
) -> (r: Option<Value>)
    ensures
        r == s_subtract_eq(b, *args, *a1, *a2, *rest, fuel),
    decreases fuel, *args, 2int,
{
    if fuel == 0 {
        Option::None
    } else {
        let fl = fuel - 1;
        match value_eq(a1, a2, fl) {
            Option::None => Option::None,
            Option::Some(true) => apply_args(
                Value::Whnf(Box::new(ValueF::NaturalLit(0))),
                rest,
                fl,
            ),
            Option::Some(false) => Option::Some(neutral_builtin(b, args)),
        }
    }
}

/// Applies a built-in to its accumulated arguments: when enough arguments
/// are there and the inspected ones have the right shape, the rule for the
/// built-in fires and any unconsumed arguments are re-applied; otherwise
/// the application stays a neutral.
pub fn apply_builtin(b: Builtin, args: &List<Value>, fuel: u64) -> (r: Option<Value>)
    ensures
        r == s_apply_builtin(b, *args, fuel),
    decreases fuel, *args, 0int,
{
    if fuel == 0 {
        Option::None
    } else {
        let fl = fuel - 1;
        match b {
            Builtin::OptionalNone => match args {
                List::Cons(t, rest) => apply_args(
                    Value::Whnf(Box::new(ValueF::EmptyOptionalLit(t.clone()))),
                    &**rest,
                    fl,
                ),
                _ => Option::Some(neutral_builtin(b, args)),
            },
            Builtin::NaturalIsZero => natural_pred(b, args, fl),
            Builtin::NaturalEven => natural_pred(b, args, fl),
            Builtin::NaturalOdd => natural_pred(b, args, fl),
            Builtin::NaturalToInteger => natural_pred(b, args, fl),
            Builtin::NaturalShow => natural_pred(b, args, fl),
            Builtin::NaturalSubtract => match args {
                List::Cons(a1, tail1) => match &**tail1 {
                    List::Cons(a2, rest) => match (a1.whnf(fl), a2.whnf(fl)) {
                        (Option::Some(Value::Whnf(h1)), Option::Some(Value::Whnf(h2))) => {
                            match (&*h1, &*h2) {
                                (ValueF::NaturalLit(n1), ValueF::NaturalLit(n2)) => apply_args(
                                    Value::Whnf(
                                        Box::new(
                                            ValueF::NaturalLit(
                                                if *n2 > *n1 {
                                                    *n2 - *n1
                                                } else {
                                                    0
                                                },
                                            ),
                                        ),
                                    ),
                                    &**rest,
                                    fl,
                                ),
                                (ValueF::NaturalLit(n1), _) => if *n1 == 0 {
                                    apply_args(Value::Whnf(h2), &**rest, fl)
                                } else {
                                    subtract_eq(b, args, a1, a2, &**rest, fl)
                                },
                                (_, ValueF::NaturalLit(n2)) => if *n2 == 0 {
                                    apply_args(
                                        Value::Whnf(Box::new(ValueF::NaturalLit(0))),
                                        &**rest,
                                        fl,
                                    )
                                } else {
                                    subtract_eq(b, args, a1, a2, &**rest, fl)
                                },
                                _ => subtract_eq(b, args, a1, a2, &**rest, fl),
                            }
                        },
                        _ => Option::None,
                    },
                    _ => Option::Some(neutral_builtin(b, args)),
                },
                _ => Option::Some(neutral_builtin(b, args)),
            },
            Builtin::IntegerToDouble => match args {
                List::Cons(n, rest) => match n.whnf(fl) {
                    Option::Some(Value::Whnf(h)) => match &*h {
                        ValueF::IntegerLit(k) => apply_args(
                            Value::Whnf(
                                Box::new(
                                    ValueF::DoubleLit(crate::double::int_to_double_bits(*k)),
                                ),
                            ),
                            &**rest,
                            fl,
                        ),
                        _ => Option::Some(neutral_builtin(b, args)),
                    },
                    Option::Some(_) => Option::Some(neutral_builtin(b, args)),
                    Option::None => Option::None,
                },
                _ => Option::Some(neutral_builtin(b, args)),
            },
            Builtin::IntegerShow => match args {
                List::Cons(n, rest) => match n.whnf(fl) {
                    Option::Some(Value::Whnf(h)) => match &*h {
                        ValueF::IntegerLit(k) => apply_args(
                            text_value(crate::show::integer_digits(*k)),
                            &**rest,
                            fl,
                        ),
                        _ => Option::Some(neutral_builtin(b, args)),
                    },
                    Option::Some(_) => Option::Some(neutral_builtin(b, args)),
                    Option::None => Option::None,
                },
                _ => Option::Some(neutral_builtin(b, args)),
            },
            Builtin::TextShow => match args {
                List::Cons(v, rest) => match v.whnf(fl) {
                    Option::Some(Value::Whnf(h)) => match &*h {
                        ValueF::TextLit(List::Nil) => apply_args(
                            text_value(crate::show::text_show(&List::Nil)),
                            &**rest,
                            fl,
                        ),
                        ValueF::TextLit(List::Cons(InterpolatedTextContents::Text(sfrag), tail)) => {
                            match &**tail {
                                List::Nil => apply_args(
                                    text_value(crate::show::text_show(sfrag)),
                                    &**rest,
                                    fl,
                                ),
                                _ => Option::Some(neutral_builtin(b, args)),
                            }
                        },
                        _ => Option::Some(neutral_builtin(b, args)),
                    },
                    Option::Some(_) => Option::Some(neutral_builtin(b, args)),
                    Option::None => Option::None,
                },
                _ => Option::Some(neutral_builtin(b, args)),
            },
            Builtin::ListLength => list_arg_rule(b, args, fl),
            Builtin::ListHead => list_arg_rule(b, args, fl),
            Builtin::ListLast => list_arg_rule(b, args, fl),
            Builtin::ListReverse => list_arg_rule(b, args, fl),
            Builtin::ListIndexed => list_arg_rule(b, args, fl),
            Builtin::ListBuild => match args {
                List::Cons(t, tail1) => match &**tail1 {
                    List::Cons(f, rest) => match f.whnf(fl) {
                        Option::Some(Value::Whnf(h)) => match &*h {
                            ValueF::AppliedBuiltin(Builtin::ListFold, fargs) => match fargs {
                                List::Cons(_, ftail) => match &**ftail {
                                    List::Cons(xs, _) => apply_args(xs.clone(), &**rest, fl),
                                    _ => Option::Some(neutral_builtin(b, args)),
                                },
                                _ => Option::Some(neutral_builtin(b, args)),
                            },
                            _ => build_unfold(
                                Value::Whnf(Box::new(crate::value::clone_valuef(&*h))),
                                list_type(t.clone()),
                                list_cons_closure(t),
                                Value::Whnf(Box::new(ValueF::EmptyListLit(t.clone()))),
                                &**rest,
                                fl,
                            ),
                        },
                        Option::Some(_) => Option::Some(neutral_builtin(b, args)),
                        Option::None => Option::None,
                    },
                    _ => Option::Some(neutral_builtin(b, args)),
                },
                _ => Option::Some(neutral_builtin(b, args)),
            },
            Builtin::ListFold => match args {
                List::Cons(_, tail1) => match &**tail1 {
                    List::Cons(l, tail2) => match &**tail2 {
                        List::Cons(_, tail3) => match &**tail3 {
                            List::Cons(cons, tail4) => match &**tail4 {
                                List::Cons(nil, rest) => match l.whnf(fl) {
                                    Option::Some(Value::Whnf(h)) => match &*h {
                                        ValueF::EmptyListLit(_) => apply_args(
                                            nil.clone(),
                                            &**rest,
                                            fl,
                                        ),
                                        ValueF::NEListLit(xs) => match fold_right(
                                            cons,
                                            xs,
                                            nil,
                                            fl,
                                        ) {
                                            Option::None => Option::None,
                                            Option::Some(v) => apply_args(v, &**rest, fl),
                                        },
                                        _ => Option::Some(neutral_builtin(b, args)),
                                    },
                                    Option::Some(_) => Option::Some(neutral_builtin(b, args)),
                                    Option::None => Option::None,
                                },
                                _ => Option::Some(neutral_builtin(b, args)),
                            },
                            _ => Option::Some(neutral_builtin(b, args)),
                        },
                        _ => Option::Some(neutral_builtin(b, args)),
                    },
                    _ => Option::Some(neutral_builtin(b, args)),
                },
                _ => Option::Some(neutral_builtin(b, args)),
            },
            Builtin::OptionalBuild => match args {
                List::Cons(t, tail1) => match &**tail1 {
                    List::Cons(f, rest) => match f.whnf(fl) {
                        Option::Some(Value::Whnf(h)) => match &*h {
                            ValueF::AppliedBuiltin(Builtin::OptionalFold, fargs) => match fargs {
                                List::Cons(_, ftail) => match &**ftail {
                                    List::Cons(o, _) => apply_args(o.clone(), &**rest, fl),
                                    _ => Option::Some(neutral_builtin(b, args)),
                                },
                                _ => Option::Some(neutral_builtin(b, args)),
                            },
                            _ => build_unfold(
                                Value::Whnf(Box::new(crate::value::clone_valuef(&*h))),
                                optional_type(t.clone()),
                                some_closure(t),
                                Value::Whnf(Box::new(ValueF::EmptyOptionalLit(t.clone()))),
                                &**rest,
                                fl,
                            ),
                        },
                        Option::Some(_) => Option::Some(neutral_builtin(b, args)),
                        Option::None => Option::None,
                    },
                    _ => Option::Some(neutral_builtin(b, args)),
                },
                _ => Option::Some(neutral_builtin(b, args)),
            },
            Builtin::OptionalFold => match args {
                List::Cons(_, tail1) => match &**tail1 {
                    List::Cons(v, tail2) => match &**tail2 {
                        List::Cons(_, tail3) => match &**tail3 {
                            List::Cons(just, tail4) => match &**tail4 {
                                List::Cons(nothing, rest) => match v.whnf(fl) {
                                    Option::Some(Value::Whnf(h)) => match &*h {
                                        ValueF::EmptyOptionalLit(_) => apply_args(
                                            nothing.clone(),
                                            &**rest,
                                            fl,
                                        ),
                                        ValueF::NEOptionalLit(xv) => match apply_any(
                                            just,
                                            xv,
                                            fl,
                                        ) {
                                            Option::None => Option::None,
                                            Option::Some(jv) => apply_args(jv, &**rest, fl),
                                        },
                                        _ => Option::Some(neutral_builtin(b, args)),
                                    },
                                    Option::Some(_) => Option::Some(neutral_builtin(b, args)),
                                    Option::None => Option::None,
                                },
                                _ => Option::Some(neutral_builtin(b, args)),
                            },
                            _ => Option::Some(neutral_builtin(b, args)),
                        },
                        _ => Option::Some(neutral_builtin(b, args)),
                    },
                    _ => Option::Some(neutral_builtin(b, args)),
                },
                _ => Option::Some(neutral_builtin(b, args)),
            },
            Builtin::NaturalBuild => match args {
                List::Cons(f, rest) => match f.whnf(fl) {
                    Option::Some(Value::Whnf(h)) => match &*h {
                        ValueF::AppliedBuiltin(Builtin::NaturalFold, fargs) => match fargs {
                            List::Cons(n, _) => apply_args(n.clone(), &**rest, fl),
                            _ => Option::Some(neutral_builtin(b, args)),
                        },
                        _ => build_unfold(
                            Value::Whnf(Box::new(crate::value::clone_valuef(&*h))),
                            Value::Whnf(
                                Box::new(ValueF::AppliedBuiltin(Builtin::Natural, List::Nil)),
                            ),
                            succ_closure(),
                            Value::Whnf(Box::new(ValueF::NaturalLit(0))),
                            &**rest,
                            fl,
                        ),
                    },
                    Option::Some(_) => Option::Some(neutral_builtin(b, args)),
                    Option::None => Option::None,
                },
                _ => Option::Some(neutral_builtin(b, args)),
            },
            Builtin::NaturalFold => match args {
                List::Cons(n, tail1) => match &**tail1 {
                    List::Cons(t, tail2) => match &**tail2 {
                        List::Cons(succ, tail3) => match &**tail3 {
                            List::Cons(zero, rest) => match n.whnf(fl) {
                                Option::Some(Value::Whnf(h)) => match &*h {
                                    ValueF::NaturalLit(k) => if *k == 0 {
                                        apply_args(zero.clone(), &**rest, fl)
                                    } else {
                                        let inner = Value::Blocked(
                                            Box::new(
                                                ValueF::AppliedBuiltin(
                                                    Builtin::NaturalFold,
                                                    List::Cons(
                                                        Value::Whnf(
                                                            Box::new(ValueF::NaturalLit(*k - 1)),
                                                        ),
                                                        Box::new(
                                                            List::Cons(
                                                                t.clone(),
                                                                Box::new(
                                                                    List::Cons(
                                                                        succ.clone(),
                                                                        Box::new(
                                                                            List::Cons(
                                                                                zero.clone(),
                                                                                Box::new(
                                                                                    List::Nil,
                                                                                ),
                                                                            ),
                                                                        ),
                                                                    ),
                                                                ),
                                                            ),
                                                        ),
                                                    ),
                                                ),
                                            ),
                                        );
                                        match apply_any(succ, &inner, fl) {
                                            Option::None => Option::None,
                                            Option::Some(v) => apply_args(v, &**rest, fl),
                                        }
                                    },
                                    _ => Option::Some(neutral_builtin(b, args)),
                                },
                                Option::Some(_) => Option::Some(neutral_builtin(b, args)),
                                Option::None => Option::None,
                            },
                            _ => Option::Some(neutral_builtin(b, args)),
                        },
                        _ => Option::Some(neutral_builtin(b, args)),
                    },
                    _ => Option::Some(neutral_builtin(b, args)),
                },
                _ => Option::Some(neutral_builtin(b, args)),
            },
            _ => Option::Some(neutral_builtin(b, args)),
        }
    }
}

/// The algebraic simplification of one binary operator on two values.
/// `Some(Some(v))` is a simplification, `Some(None)` says no rule applies
/// (the caller keeps a neutral), `None` is fuel exhaustion.
pub fn apply_binop(o: BinOp, x: &Value, y: &Value, fuel: u64) -> (r: Option<Option<Value>>)
    ensures
        r == s_apply_binop(o, *x, *y, fuel),
    decreases fuel, *x, 0int,
{
    if fuel == 0 {
        Option::None
    } else {
        let fl = fuel - 1;
        match (x.whnf(fl), y.whnf(fl)) {
            (Option::Some(wx), Option::Some(wy)) => {
                let both = (match &wx {
                    Value::Whnf(_) => true,
                    _ => false,
                }) && (match &wy {
                    Value::Whnf(_) => true,
                    _ => false,
                });
                if both {
                    binop_table(o, x, y, wx, wy, fl)
                } else {
                    Option::None
                }
            },
            _ => Option::None,
        }
    }
}

fn whnf_is_true(h: &ValueF) -> (r: bool)
    ensures
        r == (*h == ValueF::BoolLit(true)),
{
    match h {
        ValueF::BoolLit(b) => *b,
        _ => false,
    }
}

fn whnf_is_false(h: &ValueF) -> (r: bool)
    ensures
        r == (*h == ValueF::BoolLit(false)),
{
    match h {
        ValueF::BoolLit(b) => !*b,
        _ => false,
    }
}

fn whnf_is_nat(h: &ValueF, which: u64) -> (r: bool)
    ensures
        r == (*h == ValueF::NaturalLit(which)),
{
    match h {
        ValueF::NaturalLit(n) => *n == which,
        _ => false,
    }
}

/// One operator on two forced operands.
fn binop_table(o: BinOp, x: &Value, y: &Value, wx: Value, wy: Value, fuel: u64) -> (r: Option<
    Option<Value>,
>)
    requires
        wx is Whnf,
        wy is Whnf,
    ensures
        r == s_binop_table(o, *x, *y, wx, wy, fuel),
    decreases fuel, *x, 2int,
{
    match (&wx, &wy) {
        (Value::Whnf(hx), Value::Whnf(hy)) => match o {
            BinOp::BoolAnd => {
                if whnf_is_true(&**hx) {
                    Option::Some(Option::Some(wy))
                } else if whnf_is_true(&**hy) {
                    Option::Some(Option::Some(wx))
                } else if whnf_is_false(&**hx) || whnf_is_false(&**hy) {
                    Option::Some(Option::Some(Value::Whnf(Box::new(ValueF::BoolLit(false)))))
                } else {
                    match value_eq(x, y, fuel) {
                        Option::None => Option::None,
                        Option::Some(true) => Option::Some(Option::Some(wx)),
                        Option::Some(false) => Option::Some(Option::None),
                    }
                }
            },
            BinOp::BoolOr => {
                if whnf_is_true(&**hx) || whnf_is_true(&**hy) {
                    Option::Some(Option::Some(Value::Whnf(Box::new(ValueF::BoolLit(true)))))
                } else if whnf_is_false(&**hx) {
                    Option::Some(Option::Some(wy))
                } else if whnf_is_false(&**hy) {
                    Option::Some(Option::Some(wx))
                } else {
                    match value_eq(x, y, fuel) {
                        Option::None => Option::None,
                        Option::Some(true) => Option::Some(Option::Some(wx)),
                        Option::Some(false) => Option::Some(Option::None),
                    }
                }
            },
            BinOp::BoolEQ => {
                if whnf_is_true(&**hx) {
                    Option::Some(Option::Some(wy))
                } else if whnf_is_true(&**hy) {
                    Option::Some(Option::Some(wx))
                } else {
                    match (&**hx, &**hy) {
                        (ValueF::BoolLit(bx), ValueF::BoolLit(by)) => Option::Some(
                            Option::Some(Value::Whnf(Box::new(ValueF::BoolLit(*bx == *by)))),
                        ),
                        _ => match value_eq(x, y, fuel) {
                            Option::None => Option::None,
                            Option::Some(true) => Option::Some(
                                Option::Some(Value::Whnf(Box::new(ValueF::BoolLit(true)))),
                            ),
                            Option::Some(false) => Option::Some(Option::None),
                        },
                    }
                }
            },
            BinOp::BoolNE => {
                if whnf_is_false(&**hx) {
                    Option::Some(Option::Some(wy))
                } else if whnf_is_false(&**hy) {
                    Option::Some(Option::Some(wx))
                } else {
                    match (&**hx, &**hy) {
                        (ValueF::BoolLit(bx), ValueF::BoolLit(by)) => Option::Some(
                            Option::Some(Value::Whnf(Box::new(ValueF::BoolLit(*bx != *by)))),
                        ),
                        _ => match value_eq(x, y, fuel) {
                            Option::None => Option::None,
                            Option::Some(true) => Option::Some(
                                Option::Some(Value::Whnf(Box::new(ValueF::BoolLit(false)))),
                            ),
                            Option::Some(false) => Option::Some(Option::None),
                        },
                    }
                }
            },
            BinOp::NaturalPlus => {
                if whnf_is_nat(&**hx, 0) {
                    Option::Some(Option::Some(wy))
                } else if whnf_is_nat(&**hy, 0) {
                    Option::Some(Option::Some(wx))
                } else {
                    match (&**hx, &**hy) {
                        (ValueF::NaturalLit(nx), ValueF::NaturalLit(ny)) => {
                            match nx.checked_add(*ny) {
                                Option::Some(sum) => Option::Some(
                                    Option::Some(Value::Whnf(Box::new(ValueF::NaturalLit(sum)))),
                                ),
                                Option::None => Option::Some(Option::None),
                            }
                        },
                        _ => Option::Some(Option::None),
                    }
                }
            },
            BinOp::NaturalTimes => {
                if whnf_is_nat(&**hx, 0) || whnf_is_nat(&**hy, 0) {
                    Option::Some(Option::Some(Value::Whnf(Box::new(ValueF::NaturalLit(0)))))
                } else if whnf_is_nat(&**hx, 1) {
                    Option::Some(Option::Some(wy))
                } else if whnf_is_nat(&**hy, 1) {
                    Option::Some(Option::Some(wx))
                } else {
                    match (&**hx, &**hy) {
                        (ValueF::NaturalLit(nx), ValueF::NaturalLit(ny)) => {
                            match nx.checked_mul(*ny) {
                                Option::Some(prod) => Option::Some(
                                    Option::Some(Value::Whnf(Box::new(ValueF::NaturalLit(prod)))),
                                ),
                                Option::None => Option::Some(Option::None),
                            }
                        },
                        _ => Option::Some(Option::None),
                    }
                }
            },
            BinOp::ListAppend => match (&**hx, &**hy) {
                (ValueF::EmptyListLit(_), _) => Option::Some(Option::Some(wy.clone())),
                (_, ValueF::EmptyListLit(_)) => Option::Some(Option::Some(wx.clone())),
                (ValueF::NEListLit(xs), ValueF::NEListLit(ys)) => Option::Some(
                    Option::Some(
                        Value::Whnf(
                            Box::new(
                                ValueF::NEListLit(
                                    crate::syntax::append(
                                        crate::value::clone_values(xs),
                                        crate::value::clone_values(ys),
                                    ),
                                ),
                            ),
                        ),
                    ),
                ),
                _ => Option::Some(Option::None),
            },
            BinOp::TextAppend => match (&**hx, &**hy) {
                (ValueF::TextLit(cx), ValueF::TextLit(cy)) => match cx {
                    List::Nil => Option::Some(Option::Some(wy.clone())),
                    _ => match cy {
                        List::Nil => Option::Some(Option::Some(wx.clone())),
                        _ => {
                            if fuel == 0 {
                                Option::None
                            } else {
                                let joined = crate::syntax::append(
                                    crate::value::clone_chunks(cx),
                                    crate::value::clone_chunks(cy),
                                );
                                match squash_textlit(&joined, fuel - 1) {
                                    Option::None => Option::None,
                                    Option::Some(sq) => Option::Some(
                                        Option::Some(
                                            Value::Whnf(Box::new(ValueF::TextLit(sq))),
                                        ),
                                    ),
                                }
                            }
                        },
                    },
                },
                (ValueF::TextLit(cx), _) => match cx {
                    List::Nil => Option::Some(Option::Some(wy.clone())),
                    _ => {
                        if fuel == 0 {
                            Option::None
                        } else {
                            let joined = crate::syntax::append(
                                crate::value::clone_chunks(cx),
                                List::Cons(
                                    InterpolatedTextContents::Expr(y.clone()),
                                    Box::new(List::Nil),
                                ),
                            );
                            match squash_textlit(&joined, fuel - 1) {
                                Option::None => Option::None,
                                Option::Some(sq) => Option::Some(
                                    Option::Some(Value::Whnf(Box::new(ValueF::TextLit(sq)))),
                                ),
                            }
                        }
                    },
                },
                (_, ValueF::TextLit(cy)) => match cy {
                    List::Nil => Option::Some(Option::Some(wx.clone())),
                    _ => {
                        if fuel == 0 {
                            Option::None
                        } else {
                            let joined = List::Cons(
                                InterpolatedTextContents::Expr(x.clone()),
                                Box::new(crate::value::clone_chunks(cy)),
                            );
                            match squash_textlit(&joined, fuel - 1) {
                                Option::None => Option::None,
                                Option::Some(sq) => Option::Some(
                                    Option::Some(Value::Whnf(Box::new(ValueF::TextLit(sq)))),
                                ),
                            }
                        }
                    },
                },
                _ => Option::Some(Option::None),
            },
            BinOp::RightBiasedRecordMerge => match (&**hx, &**hy) {
                (_, ValueF::RecordLit(kvs2)) => match kvs2 {
                    List::Nil => Option::Some(Option::Some(wx.clone())),
                    _ => match &**hx {
                        ValueF::RecordLit(kvs1) => match kvs1 {
                            List::Nil => Option::Some(Option::Some(wy.clone())),
                            _ => {
                                let merged = crate::syntax::append(
                                    crate::value::clone_entries(kvs2),
                                    crate::maps::restrict_away(kvs1, &keys_of(kvs2)),
                                );
                                Option::Some(
                                    Option::Some(
                                        Value::Whnf(Box::new(ValueF::RecordLit(merged))),
                                    ),
                                )
                            },
                        },
                        _ => Option::Some(Option::None),
                    },
                },
                (ValueF::RecordLit(kvs1), _) => match kvs1 {
                    List::Nil => Option::Some(Option::Some(wy.clone())),
                    _ => Option::Some(Option::None),
                },
                _ => Option::Some(Option::None),
            },
            BinOp::RecursiveRecordMerge => match (&**hx, &**hy) {
                (_, ValueF::RecordLit(kvs2)) => match kvs2 {
                    List::Nil => Option::Some(Option::Some(wx.clone())),
                    _ => match &**hx {
                        ValueF::RecordLit(kvs1) => match kvs1 {
                            List::Nil => Option::Some(Option::Some(wy.clone())),
                            _ => Option::Some(
                                Option::Some(
                                    Value::Whnf(
                                        Box::new(
                                            ValueF::RecordLit(
                                                crate::maps::merge_maps(
                                                    kvs1,
                                                    kvs2,
                                                    BinOp::RecursiveRecordMerge,
                                                ),
                                            ),
                                        ),
                                    ),
                                ),
                            ),
                        },
                        _ => Option::Some(Option::None),
                    },
                },
                (ValueF::RecordLit(kvs1), _) => match kvs1 {
                    List::Nil => Option::Some(Option::Some(wy.clone())),
                    _ => Option::Some(Option::None),
                },
                _ => Option::Some(Option::None),
            },
            BinOp::RecursiveRecordTypeMerge => match (&**hx, &**hy) {
                (_, ValueF::RecordType(kts2)) => match kts2 {
                    List::Nil => Option::Some(Option::Some(wx.clone())),
                    _ => match &**hx {
                        ValueF::RecordType(kts1) => match kts1 {
                            List::Nil => Option::Some(Option::Some(wy.clone())),
                            _ => Option::Some(
                                Option::Some(
                                    Value::Whnf(
                                        Box::new(
                                            ValueF::RecordType(
                                                crate::maps::merge_maps(
                                                    kts1,
                                                    kts2,
                                                    BinOp::RecursiveRecordTypeMerge,
                                                ),
                                            ),
                                        ),
                                    ),
                                ),
                            ),
                        },
                        _ => Option::Some(Option::None),
                    },
                },
                (ValueF::RecordType(kts1), _) => match kts1 {
                    List::Nil => Option::Some(Option::Some(wy.clone())),
                    _ => Option::Some(Option::None),
                },
                _ => Option::Some(Option::None),
            },
            BinOp::Equivalence => Option::Some(
                Option::Some(
                    Value::Whnf(Box::new(ValueF::Equivalence(wx.clone(), wy.clone()))),
                ),
            ),
        },
        _ => {
            proof {
                assert(false);
            }
            Option::None
        },
    }
}

/// Canonicalizes the chunks of a text literal: spliced values whose head
/// is itself a text literal are inlined, consecutive literal fragments are
/// concatenated, and no empty fragment remains.
pub fn squash_textlit(chunks: &List<InterpolatedTextContents<Value>>, fuel: u64) -> (r: Option<
    List<InterpolatedTextContents<Value>>,
>)
    ensures
        r == s_squash(*chunks, fuel),
    decreases fuel, *chunks, 0int,
{
    match chunks {
        List::Nil => Option::Some(List::Nil),
        List::Cons(c, rest) => match c {
            InterpolatedTextContents::Text(sfrag) => match squash_textlit(&**rest, fuel) {
                Option::None => Option::None,
                Option::Some(r) => Option::Some(text_cons(crate::syntax::clone_bytes(sfrag), r)),
            },
            InterpolatedTextContents::Expr(e) => if fuel == 0 {
                Option::None
            } else {
                let fl = fuel - 1;
                match e.whnf(fl) {
                    Option::None => Option::None,
                    Option::Some(we) => match we {
                        Value::Whnf(h) => match *h {
                            ValueF::TextLit(elts2) => {
                                let joined = crate::syntax::append(
                                    elts2,
                                    crate::value::clone_chunks(rest),
                                );
                                squash_textlit(&joined, fl)
                            },
                            h2 => match squash_textlit(&**rest, fuel) {
                                Option::None => Option::None,
                                Option::Some(r) => Option::Some(
                                    List::Cons(
                                        InterpolatedTextContents::Expr(
                                            Value::Whnf(Box::new(h2)),
                                        ),
                                        Box::new(r),
                                    ),
                                ),
                            },
                        },
                        _ => Option::None,
                    },
                }
            },
        },
    }
}

/// Prepends a literal fragment to squashed chunks: an empty fragment
/// vanishes, a fragment before another fragment joins it.
fn text_cons(s: List<u8>, rest: List<InterpolatedTextContents<Value>>) -> (r: List<
    InterpolatedTextContents<Value>,
>)
    ensures
        r == s_text_cons(s, rest),
{
    match s {
        List::Nil => rest,
        _ => match rest {
            List::Cons(InterpolatedTextContents::Text(t), tail) => List::Cons(
                InterpolatedTextContents::Text(crate::syntax::append(s, t)),
                tail,
            ),
            _ => List::Cons(InterpolatedTextContents::Text(s), Box::new(rest)),
        },
    }
}

/// Whether two values are equal: both are fully normalized and compared
/// structurally, binders by position, record-like maps as mappings.
pub fn value_eq(x: &Value, y: &Value, fuel: u64) -> (r: Option<bool>)
    ensures
        r == s_value_eq(*x, *y, fuel),
    decreases fuel, *x, 0int,
{
    if fuel == 0 {
        Option::None
    } else {
        let fl = fuel - 1;
        match (x.normalize(fl), y.normalize(fl)) {
            (Option::Some(nx), Option::Some(ny)) => Option::Some(
                crate::equality::nf_eq(&nx, &ny),
            ),
            _ => Option::None,
        }
    }
}

impl Value {
    /// Beta-application shortcut: applies this value to an argument.
    pub fn app(&self, a: &Value, fuel: u64) -> (r: Option<Value>)
        ensures
            r == s_apply_any(*self, *a, fuel),
    {
        apply_any(self, a, fuel)
    }

    /// Fully normalizes this value: forces the head, then normalizes every
    /// child. On a fully normalized value this returns the value unchanged,
    /// whatever the fuel.
    pub fn normalize(&self, fuel: u64) -> (r: Option<Value>)
        ensures
            r == s_normalize(*self, fuel),
        decreases fuel, *self, 1int,
    {
        match self {
            Value::Whnf(vf) => match norm_valuef(&**vf, fuel) {
                Option::None => Option::None,
                Option::Some(r) => Option::Some(Value::Whnf(Box::new(r))),
            },
            _ => if fuel == 0 {
                Option::None
            } else {
                match self.whnf(fuel) {
                    Option::None => Option::None,
                    Option::Some(w) => w.normalize(fuel - 1),
                }
            },
        }
    }
}

fn norm_values(l: &List<Value>, fuel: u64) -> (r: Option<List<Value>>)
    ensures
        r == s_norm_values(*l, fuel),
    decreases fuel, *l, 1int,
{
    match l {
        List::Nil => Option::Some(List::Nil),
        List::Cons(x, rest) => match (x.normalize(fuel), norm_values(&**rest, fuel)) {
            (Option::Some(nx), Option::Some(nr)) => Option::Some(List::Cons(nx, Box::new(nr))),
            _ => Option::None,
        },
    }
}

fn norm_opt(o: &Option<Value>, fuel: u64) -> (r: Option<Option<Value>>)
    ensures
        r == s_norm_opt(*o, fuel),
    decreases fuel, *o, 1int,
{
    match o {
        Option::None => Option::Some(Option::None),
        Option::Some(x) => match x.normalize(fuel) {
            Option::Some(nx) => Option::Some(Option::Some(nx)),
            Option::None => Option::None,
        },
    }
}

fn norm_entries(l: &List<(Label, Value)>, fuel: u64) -> (r: Option<List<(Label, Value)>>)
    ensures
        r == s_norm_entries(*l, fuel),
    decreases fuel, *l, 1int,
{
    match l {
        List::Nil => Option::Some(List::Nil),
        List::Cons((k, x), rest) => match (x.normalize(fuel), norm_entries(&**rest, fuel)) {
            (Option::Some(nx), Option::Some(nr)) => Option::Some(
                List::Cons((k.clone(), nx), Box::new(nr)),
            ),
            _ => Option::None,
        },
    }
}

fn norm_alts(l: &List<(Label, Option<Value>)>, fuel: u64) -> (r: Option<
    List<(Label, Option<Value>)>,
>)
    ensures
        r == s_norm_alts(*l, fuel),
    decreases fuel, *l, 1int,
{
    match l {
        List::Nil => Option::Some(List::Nil),
        List::Cons((k, x), rest) => match (norm_opt(x, fuel), norm_alts(&**rest, fuel)) {
            (Option::Some(nx), Option::Some(nr)) => Option::Some(
                List::Cons((k.clone(), nx), Box::new(nr)),
            ),
            _ => Option::None,
        },
    }
}

fn norm_chunks(l: &List<InterpolatedTextContents<Value>>, fuel: u64) -> (r: Option<
    List<InterpolatedTextContents<Value>>,
>)
    ensures
        r == s_norm_chunks(*l, fuel),
    decreases fuel, *l, 1int,
{
    match l {
        List::Nil => Option::Some(List::Nil),
        List::Cons(c, rest) => {
            let head: Option<InterpolatedTextContents<Value>> = match c {
                InterpolatedTextContents::Text(sfrag) => Option::Some(
                    InterpolatedTextContents::Text(crate::syntax::clone_bytes(sfrag)),
                ),
                InterpolatedTextContents::Expr(e) => match e.normalize(fuel) {
                    Option::Some(ne) => Option::Some(InterpolatedTextContents::Expr(ne)),
                    Option::None => Option::None,
                },
            };
            match (head, norm_chunks(&**rest, fuel)) {
                (Option::Some(h), Option::Some(nr)) => Option::Some(List::Cons(h, Box::new(nr))),
                _ => Option::None,
            }
        },
    }
}

fn norm_expr(e: &ExprKind<Value>, fuel: u64) -> (r: Option<ExprKind<Value>>)
    ensures
        r == s_norm_expr(*e, fuel),
    decreases fuel, *e, 1int,
{
    match e {
        ExprKind::Var(v) => Option::Some(ExprKind::Var(v.clone())),
        ExprKind::Const(c) => Option::Some(ExprKind::Const(*c)),
        ExprKind::Builtin(b) => Option::Some(ExprKind::Builtin(*b)),
        ExprKind::BoolLit(b) => Option::Some(ExprKind::BoolLit(*b)),
        ExprKind::NaturalLit(n) => Option::Some(ExprKind::NaturalLit(*n)),
        ExprKind::IntegerLit(n) => Option::Some(ExprKind::IntegerLit(*n)),
        ExprKind::DoubleLit(n) => Option::Some(ExprKind::DoubleLit(*n)),
        ExprKind::TextLit(chunks) => match norm_chunks(chunks, fuel) {
            Option::Some(nc) => Option::Some(ExprKind::TextLit(nc)),
            Option::None => Option::None,
        },
        ExprKind::Lam(xl, t, b) => match (t.normalize(fuel), b.normalize(fuel)) {
            (Option::Some(nt), Option::Some(nb)) => Option::Some(
                ExprKind::Lam(xl.clone(), nt, nb),
            ),
            _ => Option::None,
        },
        ExprKind::Pi(xl, t, b) => match (t.normalize(fuel), b.normalize(fuel)) {
            (Option::Some(nt), Option::Some(nb)) => Option::Some(ExprKind::Pi(xl.clone(), nt, nb)),
            _ => Option::None,
        },
        ExprKind::Let(xl, ann, v, b) => match (
            norm_opt(ann, fuel),
            v.normalize(fuel),
            b.normalize(fuel),
        ) {
            (Option::Some(na), Option::Some(nv), Option::Some(nb)) => Option::Some(
                ExprKind::Let(xl.clone(), na, nv, nb),
            ),
            _ => Option::None,
        },
        ExprKind::App(f, a) => match (f.normalize(fuel), a.normalize(fuel)) {
            (Option::Some(nf), Option::Some(na)) => Option::Some(ExprKind::App(nf, na)),
            _ => Option::None,
        },
        ExprKind::Annot(xx, t) => match (xx.normalize(fuel), t.normalize(fuel)) {
            (Option::Some(nx), Option::Some(nt)) => Option::Some(ExprKind::Annot(nx, nt)),
            _ => Option::None,
        },
        ExprKind::Assert(t) => match t.normalize(fuel) {
            Option::Some(nt) => Option::Some(ExprKind::Assert(nt)),
            Option::None => Option::None,
        },
        ExprKind::BoolIf(b, e1, e2) => match (
            b.normalize(fuel),
            e1.normalize(fuel),
            e2.normalize(fuel),
        ) {
            (Option::Some(nb), Option::Some(n1), Option::Some(n2)) => Option::Some(
                ExprKind::BoolIf(nb, n1, n2),
            ),
            _ => Option::None,
        },
        ExprKind::BinOp(o, xx, yy) => match (xx.normalize(fuel), yy.normalize(fuel)) {
            (Option::Some(nx), Option::Some(ny)) => Option::Some(ExprKind::BinOp(*o, nx, ny)),
            _ => Option::None,
        },
        ExprKind::EmptyListLit(t) => match t.normalize(fuel) {
            Option::Some(nt) => Option::Some(ExprKind::EmptyListLit(nt)),
            Option::None => Option::None,
        },
        ExprKind::NEListLit(xs) => match norm_values(xs, fuel) {
            Option::Some(nx) => Option::Some(ExprKind::NEListLit(nx)),
            Option::None => Option::None,
        },
        ExprKind::SomeLit(xx) => match xx.normalize(fuel) {
            Option::Some(nx) => Option::Some(ExprKind::SomeLit(nx)),
            Option::None => Option::None,
        },
        ExprKind::RecordType(kts) => match norm_entries(kts, fuel) {
            Option::Some(nk) => Option::Some(ExprKind::RecordType(nk)),
            Option::None => Option::None,
        },
        ExprKind::RecordLit(kvs) => match norm_entries(kvs, fuel) {
            Option::Some(nk) => Option::Some(ExprKind::RecordLit(nk)),
            Option::None => Option::None,
        },
        ExprKind::UnionType(kts) => match norm_alts(kts, fuel) {
            Option::Some(nk) => Option::Some(ExprKind::UnionType(nk)),
            Option::None => Option::None,
        },
        ExprKind::Field(xx, l) => match xx.normalize(fuel) {
            Option::Some(nx) => Option::Some(ExprKind::Field(nx, l.clone())),
            Option::None => Option::None,
        },
        ExprKind::Projection(xx, ls) => match xx.normalize(fuel) {
            Option::Some(nx) => Option::Some(
                ExprKind::Projection(nx, crate::syntax::clone_labels(ls)),
            ),
            Option::None => Option::None,
        },
        ExprKind::Merge(h, v, t) => match (
            h.normalize(fuel),
            v.normalize(fuel),
            norm_opt(t, fuel),
        ) {
            (Option::Some(nh), Option::Some(nv), Option::Some(nt)) => Option::Some(
                ExprKind::Merge(nh, nv, nt),
            ),
            _ => Option::None,
        },
    }
}

fn norm_valuef(vf: &ValueF, fuel: u64) -> (r: Option<ValueF>)
    ensures
        r == s_norm_valuef(*vf, fuel),
    decreases fuel, *vf, 1int,
{
    match vf {
        ValueF::Var(n) => Option::Some(ValueF::Var(*n)),
        ValueF::Const(c) => Option::Some(ValueF::Const(*c)),
        ValueF::BoolLit(b) => Option::Some(ValueF::BoolLit(*b)),
        ValueF::NaturalLit(n) => Option::Some(ValueF::NaturalLit(*n)),
        ValueF::IntegerLit(n) => Option::Some(ValueF::IntegerLit(*n)),
        ValueF::DoubleLit(n) => Option::Some(ValueF::DoubleLit(*n)),
        ValueF::AppliedBuiltin(b, args) => match norm_values(args, fuel) {
            Option::Some(na) => Option::Some(ValueF::AppliedBuiltin(*b, na)),
            Option::None => Option::None,
        },
        ValueF::Lam(t, e) => match (t.normalize(fuel), e.normalize(fuel)) {
            (Option::Some(nt), Option::Some(ne)) => Option::Some(ValueF::Lam(nt, ne)),
            _ => Option::None,
        },
        ValueF::Pi(t, e) => match (t.normalize(fuel), e.normalize(fuel)) {
            (Option::Some(nt), Option::Some(ne)) => Option::Some(ValueF::Pi(nt, ne)),
            _ => Option::None,
        },
        ValueF::EmptyListLit(t) => match t.normalize(fuel) {
            Option::Some(nt) => Option::Some(ValueF::EmptyListLit(nt)),
            Option::None => Option::None,
        },
        ValueF::NEListLit(xs) => match norm_values(xs, fuel) {
            Option::Some(nx) => Option::Some(ValueF::NEListLit(nx)),
            Option::None => Option::None,
        },
        ValueF::EmptyOptionalLit(t) => match t.normalize(fuel) {
            Option::Some(nt) => Option::Some(ValueF::EmptyOptionalLit(nt)),
            Option::None => Option::None,
        },
        ValueF::NEOptionalLit(x) => match x.normalize(fuel) {
            Option::Some(nx) => Option::Some(ValueF::NEOptionalLit(nx)),
            Option::None => Option::None,
        },
        ValueF::RecordLit(kvs) => match norm_entries(kvs, fuel) {
            Option::Some(nk) => Option::Some(ValueF::RecordLit(nk)),
            Option::None => Option::None,
        },
        ValueF::RecordType(kts) => match norm_entries(kts, fuel) {
            Option::Some(nk) => Option::Some(ValueF::RecordType(nk)),
            Option::None => Option::None,
        },
        ValueF::UnionType(kts) => match norm_alts(kts, fuel) {
            Option::Some(nk) => Option::Some(ValueF::UnionType(nk)),
            Option::None => Option::None,
        },
        ValueF::UnionConstructor(l, kts) => match norm_alts(kts, fuel) {
            Option::Some(nk) => Option::Some(ValueF::UnionConstructor(l.clone(), nk)),
            Option::None => Option::None,
        },
        ValueF::UnionLit(l, x, kts) => match (x.normalize(fuel), norm_alts(kts, fuel)) {
            (Option::Some(nx), Option::Some(nk)) => Option::Some(
                ValueF::UnionLit(l.clone(), nx, nk),
            ),
            _ => Option::None,
        },
        ValueF::TextLit(chunks) => match norm_chunks(chunks, fuel) {
            Option::Some(nc) => Option::Some(ValueF::TextLit(nc)),
            Option::None => Option::None,
        },
        ValueF::Equivalence(x, y) => match (x.normalize(fuel), y.normalize(fuel)) {
            (Option::Some(nx), Option::Some(ny)) => Option::Some(ValueF::Equivalence(nx, ny)),
            _ => Option::None,
        },
        ValueF::PartialExpr(e) => match norm_expr(&**e, fuel) {
            Option::Some(ne) => Option::Some(ValueF::PartialExpr(Box::new(ne))),
            Option::None => Option::None,
        },
    }
}

} // verus!
