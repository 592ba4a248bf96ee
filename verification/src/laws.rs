//! The laws the normalizer obeys, stated over the specification twins of
//! the executable functions and proved for every input and every fuel
//! bound.
use vstd::prelude::*;

use crate::maps::{
    record_map, s_contains_label, s_intersect_labels, s_intersect_loop, s_merge_loop, s_merge_maps,
    s_project_entries, s_project_loop, s_record_get, s_restrict_away,
};
use crate::normalize::{
    s_apply_any, s_apply_builtin, s_eval_node, s_keys_of, s_norm_alts, s_norm_chunks,
    s_norm_entries, s_norm_expr, s_norm_opt, s_norm_valuef, s_norm_values, s_normalize,
    s_renorm_head, s_right_merge, s_squash, s_text_cons, s_whnf,
};
use crate::syntax::{BinOp, Builtin, ExprKind, InterpolatedTextContents, Label, List};
use crate::tyexpr::{
    s_erase, s_erase_alts, s_erase_chunks, s_erase_ek, s_erase_entries, s_erase_list, s_erase_opt,
    AlphaVar, TyExpr, TyExprKind,
};
use crate::value::{Env, 
    is_nf, is_nf_alts, is_nf_chunks, is_nf_entries, is_nf_expr, is_nf_f, is_nf_opt, is_nf_values,
    Value, ValueF,
};
use crate::varops::s_subst_shift;

verus! {

/// Whatever forcing returns is in weak-head normal form.
pub proof fn lemma_whnf_gives_whnf(v: Value, fuel: u64)
    ensures
        s_whnf(v, fuel) matches Option::Some(w) ==> w is Whnf,
    decreases fuel, v, 0int,
{
    match v {
        Value::Whnf(_) => {},
        Value::Thunk(env, e) => {
            if fuel > 0 {
                match s_eval_node(*env, *e, (fuel - 1) as u64) {
                    Option::Some(r) => {
                        lemma_whnf_gives_whnf(r, (fuel - 1) as u64);
                    },
                    Option::None => {},
                }
            }
        },
        Value::Blocked(vf) => {
            if fuel > 0 {
                match s_renorm_head(*vf, (fuel - 1) as u64) {
                    Option::Some(r) => {
                        lemma_whnf_gives_whnf(r, (fuel - 1) as u64);
                    },
                    Option::None => {},
                }
            }
        },
    }
}

/// Forcing to weak-head normal form is idempotent: forcing what forcing
/// returned gives it back unchanged, under any second fuel bound.
pub proof fn whnf_idempotent(v: Value, fuel: u64, fuel2: u64)
    ensures
        s_whnf(v, fuel) matches Option::Some(w) ==> s_whnf(w, fuel2) == Option::Some(w),
{
    lemma_whnf_gives_whnf(v, fuel);
}

/// Beta reduction: applying a value whose head is a lambda substitutes the
/// argument into the body. Normalizing the application and normalizing the
/// substituted body are therefore the same.
pub proof fn beta_law(f: Value, a: Value, t: Value, body: Value, fuel: u64)
    requires
        fuel > 0,
        s_whnf(f, (fuel - 1) as u64) == Option::Some(
            Value::Whnf(Box::new(ValueF::Lam(t, body))),
        ),
    ensures
        s_apply_any(f, a, fuel) == Option::Some(s_subst_shift(body, AlphaVar { idx: 0 }, a)),
        forall|f2: u64|
            s_normalize(s_apply_any(f, a, fuel)->Some_0, f2) == s_normalize(
                s_subst_shift(body, AlphaVar { idx: 0 }, a),
                f2,
            ),
{
}

/// Fold/build fusion for lists: building from a partially applied fold
/// gives back the folded list itself, with no unfolding.
pub proof fn fold_build_fusion_list(t: Value, f: Value, t2: Value, xs: Value, fuel: u64)
    requires
        fuel > 0,
        s_whnf(f, (fuel - 1) as u64) == Option::Some(
            Value::Whnf(
                Box::new(
                    ValueF::AppliedBuiltin(
                        Builtin::ListFold,
                        List::Cons(t2, Box::new(List::Cons(xs, Box::new(List::Nil)))),
                    ),
                ),
            ),
        ),
    ensures
        s_apply_builtin(
            Builtin::ListBuild,
            List::Cons(t, Box::new(List::Cons(f, Box::new(List::Nil)))),
            fuel,
        ) == Option::Some(xs),
{
}

/// Fold/build fusion for optionals.
pub proof fn fold_build_fusion_optional(t: Value, f: Value, t2: Value, o: Value, fuel: u64)
    requires
        fuel > 0,
        s_whnf(f, (fuel - 1) as u64) == Option::Some(
            Value::Whnf(
                Box::new(
                    ValueF::AppliedBuiltin(
                        Builtin::OptionalFold,
                        List::Cons(t2, Box::new(List::Cons(o, Box::new(List::Nil)))),
                    ),
                ),
            ),
        ),
    ensures
        s_apply_builtin(
            Builtin::OptionalBuild,
            List::Cons(t, Box::new(List::Cons(f, Box::new(List::Nil)))),
            fuel,
        ) == Option::Some(o),
{
}

/// Fold/build fusion for naturals.
pub proof fn fold_build_fusion_natural(f: Value, n: Value, fuel: u64)
    requires
        fuel > 0,
        s_whnf(f, (fuel - 1) as u64) == Option::Some(
            Value::Whnf(
                Box::new(
                    ValueF::AppliedBuiltin(
                        Builtin::NaturalFold,
                        List::Cons(n, Box::new(List::Nil)),
                    ),
                ),
            ),
        ),
    ensures
        s_apply_builtin(
            Builtin::NaturalBuild,
            List::Cons(f, Box::new(List::Nil)),
            fuel,
        ) == Option::Some(n),
{
}

/// What full normalization returns is fully normalized.
pub proof fn lemma_normalize_gives_nf(v: Value, fuel: u64)
    ensures
        s_normalize(v, fuel) matches Option::Some(r) ==> is_nf(r),
    decreases fuel, v, 1int,
{
    match v {
        Value::Whnf(vf) => {
            lemma_norm_valuef_gives_nf(*vf, fuel);
        },
        _ => {
            if fuel > 0 {
                match s_whnf(v, fuel) {
                    Option::Some(w) => {
                        lemma_normalize_gives_nf(w, (fuel - 1) as u64);
                    },
                    Option::None => {},
                }
            }
        },
    }
}

proof fn lemma_norm_values_gives_nf(l: List<Value>, fuel: u64)
    ensures
        s_norm_values(l, fuel) matches Option::Some(r) ==> is_nf_values(r),
    decreases fuel, l, 1int,
{
    match l {
        List::Nil => {},
        List::Cons(x, rest) => {
            lemma_normalize_gives_nf(x, fuel);
            lemma_norm_values_gives_nf(*rest, fuel);
        },
    }
}

proof fn lemma_norm_opt_gives_nf(o: Option<Value>, fuel: u64)
    ensures
        s_norm_opt(o, fuel) matches Option::Some(r) ==> is_nf_opt(r),
    decreases fuel, o, 1int,
{
    match o {
        Option::None => {},
        Option::Some(x) => {
            lemma_normalize_gives_nf(x, fuel);
        },
    }
}

proof fn lemma_norm_entries_gives_nf(l: List<(Label, Value)>, fuel: u64)
    ensures
        s_norm_entries(l, fuel) matches Option::Some(r) ==> is_nf_entries(r),
    decreases fuel, l, 1int,
{
    match l {
        List::Nil => {},
        List::Cons((_, x), rest) => {
            lemma_normalize_gives_nf(x, fuel);
            lemma_norm_entries_gives_nf(*rest, fuel);
        },
    }
}

proof fn lemma_norm_alts_gives_nf(l: List<(Label, Option<Value>)>, fuel: u64)
    ensures
        s_norm_alts(l, fuel) matches Option::Some(r) ==> is_nf_alts(r),
    decreases fuel, l, 1int,
{
    match l {
        List::Nil => {},
        List::Cons((_, x), rest) => {
            lemma_norm_opt_gives_nf(x, fuel);
            lemma_norm_alts_gives_nf(*rest, fuel);
        },
    }
}

proof fn lemma_norm_chunks_gives_nf(l: List<InterpolatedTextContents<Value>>, fuel: u64)
    ensures
        s_norm_chunks(l, fuel) matches Option::Some(r) ==> is_nf_chunks(r),
    decreases fuel, l, 1int,
{
    match l {
        List::Nil => {},
        List::Cons(c, rest) => {
            match c {
                InterpolatedTextContents::Text(_) => {},
                InterpolatedTextContents::Expr(e) => {
                    lemma_normalize_gives_nf(e, fuel);
                },
            }
            lemma_norm_chunks_gives_nf(*rest, fuel);
        },
    }
}

proof fn lemma_norm_expr_gives_nf(e: ExprKind<Value>, fuel: u64)
    ensures
        s_norm_expr(e, fuel) matches Option::Some(r) ==> is_nf_expr(r),
    decreases fuel, e, 1int,
{
    match e {
        ExprKind::TextLit(chunks) => {
            lemma_norm_chunks_gives_nf(chunks, fuel);
        },
        ExprKind::Lam(_, t, b) => {
            lemma_normalize_gives_nf(t, fuel);
            lemma_normalize_gives_nf(b, fuel);
        },
        ExprKind::Pi(_, t, b) => {
            lemma_normalize_gives_nf(t, fuel);
            lemma_normalize_gives_nf(b, fuel);
        },
        ExprKind::Let(_, ann, x, b) => {
            lemma_norm_opt_gives_nf(ann, fuel);
            lemma_normalize_gives_nf(x, fuel);
            lemma_normalize_gives_nf(b, fuel);
        },
        ExprKind::App(f, a) => {
            lemma_normalize_gives_nf(f, fuel);
            lemma_normalize_gives_nf(a, fuel);
        },
        ExprKind::Annot(x, t) => {
            lemma_normalize_gives_nf(x, fuel);
            lemma_normalize_gives_nf(t, fuel);
        },
        ExprKind::Assert(t) => {
            lemma_normalize_gives_nf(t, fuel);
        },
        ExprKind::BoolIf(b, e1, e2) => {
            lemma_normalize_gives_nf(b, fuel);
            lemma_normalize_gives_nf(e1, fuel);
            lemma_normalize_gives_nf(e2, fuel);
        },
        ExprKind::BinOp(_, x, y) => {
            lemma_normalize_gives_nf(x, fuel);
            lemma_normalize_gives_nf(y, fuel);
        },
        ExprKind::EmptyListLit(t) => {
            lemma_normalize_gives_nf(t, fuel);
        },
        ExprKind::NEListLit(xs) => {
            lemma_norm_values_gives_nf(xs, fuel);
        },
        ExprKind::SomeLit(x) => {
            lemma_normalize_gives_nf(x, fuel);
        },
        ExprKind::RecordType(kts) => {
            lemma_norm_entries_gives_nf(kts, fuel);
        },
        ExprKind::RecordLit(kvs) => {
            lemma_norm_entries_gives_nf(kvs, fuel);
        },
        ExprKind::UnionType(kts) => {
            lemma_norm_alts_gives_nf(kts, fuel);
        },
        ExprKind::Field(x, _) => {
            lemma_normalize_gives_nf(x, fuel);
        },
        ExprKind::Projection(x, _) => {
            lemma_normalize_gives_nf(x, fuel);
        },
        ExprKind::Merge(h, x, t) => {
            lemma_normalize_gives_nf(h, fuel);
            lemma_normalize_gives_nf(x, fuel);
            lemma_norm_opt_gives_nf(t, fuel);
        },
        _ => {},
    }
}

proof fn lemma_norm_valuef_gives_nf(vf: ValueF, fuel: u64)
    ensures
        s_norm_valuef(vf, fuel) matches Option::Some(r) ==> is_nf_f(r),
    decreases fuel, vf, 1int,
{
    match vf {
        ValueF::AppliedBuiltin(_, args) => {
            lemma_norm_values_gives_nf(args, fuel);
        },
        ValueF::Lam(t, e) => {
            lemma_normalize_gives_nf(t, fuel);
            lemma_normalize_gives_nf(e, fuel);
        },
        ValueF::Pi(t, e) => {
            lemma_normalize_gives_nf(t, fuel);
            lemma_normalize_gives_nf(e, fuel);
        },
        ValueF::EmptyListLit(t) => {
            lemma_normalize_gives_nf(t, fuel);
        },
        ValueF::NEListLit(xs) => {
            lemma_norm_values_gives_nf(xs, fuel);
        },
        ValueF::EmptyOptionalLit(t) => {
            lemma_normalize_gives_nf(t, fuel);
        },
        ValueF::NEOptionalLit(x) => {
            lemma_normalize_gives_nf(x, fuel);
        },
        ValueF::RecordLit(kvs) => {
            lemma_norm_entries_gives_nf(kvs, fuel);
        },
        ValueF::RecordType(kts) => {
            lemma_norm_entries_gives_nf(kts, fuel);
        },
        ValueF::UnionType(kts) => {
            lemma_norm_alts_gives_nf(kts, fuel);
        },
        ValueF::UnionConstructor(_, kts) => {
            lemma_norm_alts_gives_nf(kts, fuel);
        },
        ValueF::UnionLit(_, x, kts) => {
            lemma_normalize_gives_nf(x, fuel);
            lemma_norm_alts_gives_nf(kts, fuel);
        },
        ValueF::TextLit(chunks) => {
            lemma_norm_chunks_gives_nf(chunks, fuel);
        },
        ValueF::Equivalence(x, y) => {
            lemma_normalize_gives_nf(x, fuel);
            lemma_normalize_gives_nf(y, fuel);
        },
        ValueF::PartialExpr(e) => {
            lemma_norm_expr_gives_nf(*e, fuel);
        },
        _ => {},
    }
}

/// Full normalization leaves a fully normalized value untouched, whatever
/// the fuel: it succeeds and returns the value itself.
pub proof fn lemma_normalize_of_nf(v: Value, fuel: u64)
    requires
        is_nf(v),
    ensures
        s_normalize(v, fuel) == Option::Some(v),
    decreases fuel, v, 1int,
{
    match v {
        Value::Whnf(vf) => {
            lemma_norm_valuef_of_nf(*vf, fuel);
        },
        _ => {},
    }
}

proof fn lemma_norm_values_of_nf(l: List<Value>, fuel: u64)
    requires
        is_nf_values(l),
    ensures
        s_norm_values(l, fuel) == Option::Some(l),
    decreases fuel, l, 1int,
{
    match l {
        List::Nil => {},
        List::Cons(x, rest) => {
            lemma_normalize_of_nf(x, fuel);
            lemma_norm_values_of_nf(*rest, fuel);
        },
    }
}

proof fn lemma_norm_opt_of_nf(o: Option<Value>, fuel: u64)
    requires
        is_nf_opt(o),
    ensures
        s_norm_opt(o, fuel) == Option::Some(o),
    decreases fuel, o, 1int,
{
    match o {
        Option::None => {},
        Option::Some(x) => {
            lemma_normalize_of_nf(x, fuel);
        },
    }
}

proof fn lemma_norm_entries_of_nf(l: List<(Label, Value)>, fuel: u64)
    requires
        is_nf_entries(l),
    ensures
        s_norm_entries(l, fuel) == Option::Some(l),
    decreases fuel, l, 1int,
{
    match l {
        List::Nil => {},
        List::Cons((_, x), rest) => {
            lemma_normalize_of_nf(x, fuel);
            lemma_norm_entries_of_nf(*rest, fuel);
        },
    }
}

proof fn lemma_norm_alts_of_nf(l: List<(Label, Option<Value>)>, fuel: u64)
    requires
        is_nf_alts(l),
    ensures
        s_norm_alts(l, fuel) == Option::Some(l),
    decreases fuel, l, 1int,
{
    match l {
        List::Nil => {},
        List::Cons((_, x), rest) => {
            lemma_norm_opt_of_nf(x, fuel);
            lemma_norm_alts_of_nf(*rest, fuel);
        },
    }
}

proof fn lemma_norm_chunks_of_nf(l: List<InterpolatedTextContents<Value>>, fuel: u64)
    requires
        is_nf_chunks(l),
    ensures
        s_norm_chunks(l, fuel) == Option::Some(l),
    decreases fuel, l, 1int,
{
    match l {
        List::Nil => {},
        List::Cons(c, rest) => {
            match c {
                InterpolatedTextContents::Text(_) => {},
                InterpolatedTextContents::Expr(e) => {
                    lemma_normalize_of_nf(e, fuel);
                },
            }
            lemma_norm_chunks_of_nf(*rest, fuel);
        },
    }
}

proof fn lemma_norm_expr_of_nf(e: ExprKind<Value>, fuel: u64)
    requires
        is_nf_expr(e),
    ensures
        s_norm_expr(e, fuel) == Option::Some(e),
    decreases fuel, e, 1int,
{
    match e {
        ExprKind::TextLit(chunks) => {
            lemma_norm_chunks_of_nf(chunks, fuel);
        },
        ExprKind::Lam(_, t, b) => {
            lemma_normalize_of_nf(t, fuel);
            lemma_normalize_of_nf(b, fuel);
        },
        ExprKind::Pi(_, t, b) => {
            lemma_normalize_of_nf(t, fuel);
            lemma_normalize_of_nf(b, fuel);
        },
        ExprKind::Let(_, ann, x, b) => {
            lemma_norm_opt_of_nf(ann, fuel);
            lemma_normalize_of_nf(x, fuel);
            lemma_normalize_of_nf(b, fuel);
        },
        ExprKind::App(f, a) => {
            lemma_normalize_of_nf(f, fuel);
            lemma_normalize_of_nf(a, fuel);
        },
        ExprKind::Annot(x, t) => {
            lemma_normalize_of_nf(x, fuel);
            lemma_normalize_of_nf(t, fuel);
        },
        ExprKind::Assert(t) => {
            lemma_normalize_of_nf(t, fuel);
        },
        ExprKind::BoolIf(b, e1, e2) => {
            lemma_normalize_of_nf(b, fuel);
            lemma_normalize_of_nf(e1, fuel);
            lemma_normalize_of_nf(e2, fuel);
        },
        ExprKind::BinOp(_, x, y) => {
            lemma_normalize_of_nf(x, fuel);
            lemma_normalize_of_nf(y, fuel);
        },
        ExprKind::EmptyListLit(t) => {
            lemma_normalize_of_nf(t, fuel);
        },
        ExprKind::NEListLit(xs) => {
            lemma_norm_values_of_nf(xs, fuel);
        },
        ExprKind::SomeLit(x) => {
            lemma_normalize_of_nf(x, fuel);
        },
        ExprKind::RecordType(kts) => {
            lemma_norm_entries_of_nf(kts, fuel);
        },
        ExprKind::RecordLit(kvs) => {
            lemma_norm_entries_of_nf(kvs, fuel);
        },
        ExprKind::UnionType(kts) => {
            lemma_norm_alts_of_nf(kts, fuel);
        },
        ExprKind::Field(x, _) => {
            lemma_normalize_of_nf(x, fuel);
        },
        ExprKind::Projection(x, _) => {
            lemma_normalize_of_nf(x, fuel);
        },
        ExprKind::Merge(h, x, t) => {
            lemma_normalize_of_nf(h, fuel);
            lemma_normalize_of_nf(x, fuel);
            lemma_norm_opt_of_nf(t, fuel);
        },
        _ => {},
    }
}

proof fn lemma_norm_valuef_of_nf(vf: ValueF, fuel: u64)
    requires
        is_nf_f(vf),
    ensures
        s_norm_valuef(vf, fuel) == Option::Some(vf),
    decreases fuel, vf, 1int,
{
    match vf {
        ValueF::AppliedBuiltin(_, args) => {
            lemma_norm_values_of_nf(args, fuel);
        },
        ValueF::Lam(t, e) => {
            lemma_normalize_of_nf(t, fuel);
            lemma_normalize_of_nf(e, fuel);
        },
        ValueF::Pi(t, e) => {
            lemma_normalize_of_nf(t, fuel);
            lemma_normalize_of_nf(e, fuel);
        },
        ValueF::EmptyListLit(t) => {
            lemma_normalize_of_nf(t, fuel);
        },
        ValueF::NEListLit(xs) => {
            lemma_norm_values_of_nf(xs, fuel);
        },
        ValueF::EmptyOptionalLit(t) => {
            lemma_normalize_of_nf(t, fuel);
        },
        ValueF::NEOptionalLit(x) => {
            lemma_normalize_of_nf(x, fuel);
        },
        ValueF::RecordLit(kvs) => {
            lemma_norm_entries_of_nf(kvs, fuel);
        },
        ValueF::RecordType(kts) => {
            lemma_norm_entries_of_nf(kts, fuel);
        },
        ValueF::UnionType(kts) => {
            lemma_norm_alts_of_nf(kts, fuel);
        },
        ValueF::UnionConstructor(_, kts) => {
            lemma_norm_alts_of_nf(kts, fuel);
        },
        ValueF::UnionLit(_, x, kts) => {
            lemma_normalize_of_nf(x, fuel);
            lemma_norm_alts_of_nf(kts, fuel);
        },
        ValueF::TextLit(chunks) => {
            lemma_norm_chunks_of_nf(chunks, fuel);
        },
        ValueF::Equivalence(x, y) => {
            lemma_normalize_of_nf(x, fuel);
            lemma_normalize_of_nf(y, fuel);
        },
        ValueF::PartialExpr(e) => {
            lemma_norm_expr_of_nf(*e, fuel);
        },
        _ => {},
    }
}

/// Idempotence of full normalization: normalizing what normalization
/// returned gives it back unchanged, under any second fuel bound.
pub proof fn normalize_idempotent(v: Value, fuel: u64, fuel2: u64)
    ensures
        s_normalize(v, fuel) matches Option::Some(r) ==> s_normalize(r, fuel2) == Option::Some(r),
{
    lemma_normalize_gives_nf(v, fuel);
    match s_normalize(v, fuel) {
        Option::Some(r) => {
            lemma_normalize_of_nf(r, fuel2);
        },
        Option::None => {},
    }
}

/// A settled spliced value: forced, and not itself a text literal.
pub open spec fn s_settled_non_text(e: Value) -> bool {
    match e {
        Value::Whnf(h) => !(*h is TextLit),
        _ => false,
    }
}

/// The canonical shape of squashed text chunks: no empty literal fragment,
/// no two adjacent literal fragments, and every spliced value settled and
/// not itself a text literal.
pub open spec fn s_canonical_chunks(l: List<InterpolatedTextContents<Value>>) -> bool
    decreases l,
{
    match l {
        List::Nil => true,
        List::Cons(c, rest) => (match c {
            InterpolatedTextContents::Text(s) => !(s is Nil) && (match *rest {
                List::Cons(InterpolatedTextContents::Text(_), _) => false,
                _ => true,
            }),
            InterpolatedTextContents::Expr(e) => s_settled_non_text(e),
        }) && s_canonical_chunks(*rest),
    }
}

/// Whatever squashing returns is canonical.
pub proof fn lemma_squash_canonical(chunks: List<InterpolatedTextContents<Value>>, fuel: u64)
    ensures
        s_squash(chunks, fuel) matches Option::Some(r) ==> s_canonical_chunks(r),
    decreases fuel, chunks, 0int,
{
    match chunks {
        List::Nil => {},
        List::Cons(c, rest) => match c {
            InterpolatedTextContents::Text(s) => {
                lemma_squash_canonical(*rest, fuel);
            },
            InterpolatedTextContents::Expr(e) => {
                if fuel > 0 {
                    let fl = (fuel - 1) as u64;
                    lemma_whnf_gives_whnf(e, fl);
                    match s_whnf(e, fl) {
                        Option::Some(we) => match we {
                            Value::Whnf(h) => match *h {
                                ValueF::TextLit(elts2) => {
                                    lemma_squash_canonical(
                                        crate::syntax::lappend(elts2, *rest),
                                        fl,
                                    );
                                },
                                _ => {
                                    lemma_squash_canonical(*rest, fuel);
                                },
                            },
                            _ => {},
                        },
                        Option::None => {},
                    }
                }
            },
        },
    }
}

/// Squashing a canonical chunk list gives it back unchanged.
pub proof fn lemma_squash_of_canonical(l: List<InterpolatedTextContents<Value>>, fuel: u64)
    requires
        s_canonical_chunks(l),
        fuel > 0,
    ensures
        s_squash(l, fuel) == Option::Some(l),
    decreases fuel, l, 0int,
{
    match l {
        List::Nil => {},
        List::Cons(c, rest) => match c {
            InterpolatedTextContents::Text(s) => {
                lemma_squash_of_canonical(*rest, fuel);
                match *rest {
                    List::Cons(InterpolatedTextContents::Text(_), _) => {
                        assert(false);
                    },
                    _ => {},
                }
                match s {
                    List::Nil => {
                        assert(false);
                    },
                    _ => {},
                }
                assert(s_text_cons(s, *rest) == List::Cons(
                    InterpolatedTextContents::Text(s),
                    Box::new(*rest),
                ));
            },
            InterpolatedTextContents::Expr(e) => {
                lemma_squash_of_canonical(*rest, fuel);
                let fl = (fuel - 1) as u64;
                match e {
                    Value::Whnf(h) => {
                        assert(s_whnf(e, fl) == Option::Some(e));
                        assert(!(*h is TextLit));
                    },
                    _ => {
                        assert(false);
                    },
                }
            },
        },
    }
}

/// Canonicalization of text chunks is idempotent, and its output has no
/// empty fragment and no two adjacent literal fragments.
pub proof fn squash_idempotent(chunks: List<InterpolatedTextContents<Value>>, fuel: u64, fuel2: u64)
    requires
        fuel2 > 0,
    ensures
        s_squash(chunks, fuel) matches Option::Some(r) ==> s_squash(r, fuel2) == Option::Some(r)
            && s_canonical_chunks(r),
{
    lemma_squash_canonical(chunks, fuel);
    match s_squash(chunks, fuel) {
        Option::Some(r) => {
            lemma_squash_of_canonical(r, fuel2);
        },
        Option::None => {},
    }
}

/// No key has an entry in both maps.
pub open spec fn s_disjoint_entries(a: List<(Label, Value)>, b: List<(Label, Value)>) -> bool {
    forall|k: Label| !(#[trigger] s_record_get(a, k) is Some && #[trigger] s_record_get(b, k)
        is Some)
}

/// Lookup in an appended entry list: the front wins.
proof fn lemma_get_append(x: List<(Label, Value)>, y: List<(Label, Value)>, k: Label)
    ensures
        s_record_get(crate::syntax::lappend(x, y), k) == (match s_record_get(x, k) {
            Option::Some(v) => Option::Some(v),
            Option::None => s_record_get(y, k),
        }),
    decreases x,
{
    match x {
        List::Nil => {},
        List::Cons(_, rest) => {
            lemma_get_append(*rest, y, k);
        },
    }
}

/// Lookup in a restricted entry list.
proof fn lemma_get_restrict(l: List<(Label, Value)>, seen: List<Label>, k: Label)
    ensures
        s_record_get(s_restrict_away(l, seen), k) == (if s_contains_label(seen, k) {
            Option::<Value>::None
        } else {
            s_record_get(l, k)
        }),
    decreases l,
{
    match l {
        List::Nil => {},
        List::Cons(_, rest) => {
            lemma_get_restrict(*rest, seen, k);
        },
    }
}

/// A label is among an entry list's keys exactly when lookup finds it.
proof fn lemma_contains_keys_of(l: List<(Label, Value)>, k: Label)
    ensures
        s_contains_label(s_keys_of(l), k) == (s_record_get(l, k) is Some),
    decreases l,
{
    match l {
        List::Nil => {},
        List::Cons(_, rest) => {
            lemma_contains_keys_of(*rest, k);
        },
    }
}

/// Lookup in a right-biased union: the right map wins, the left fills in.
proof fn lemma_get_right_merge(a: List<(Label, Value)>, b: List<(Label, Value)>, k: Label)
    ensures
        s_record_get(s_right_merge(a, b), k) == (match s_record_get(b, k) {
            Option::Some(v) => Option::Some(v),
            Option::None => s_record_get(a, k),
        }),
{
    lemma_get_append(b, s_restrict_away(a, s_keys_of(b)), k);
    lemma_get_restrict(a, s_keys_of(b), k);
    lemma_contains_keys_of(b, k);
}

/// Lookup in the recursive union of two maps with no shared key: either
/// side's entry, whichever exists, with nothing combined.
proof fn lemma_get_merge_loop(
    m1: List<(Label, Value)>,
    m2: List<(Label, Value)>,
    o: BinOp,
    seen: List<Label>,
    k: Label,
)
    requires
        s_disjoint_entries(m1, m2),
    ensures
        s_record_get(s_merge_loop(m1, m2, o, seen), k) == (match s_record_get(m2, k) {
            Option::Some(v) => Option::Some(v),
            Option::None => if s_contains_label(seen, k) {
                Option::<Value>::None
            } else {
                s_record_get(m1, k)
            },
        }),
    decreases m2,
{
    match m2 {
        List::Nil => {
            lemma_get_restrict(m1, seen, k);
        },
        List::Cons((k2, v2), rest) => {
            assert(s_record_get(m2, k2) is Some);
            assert forall|kk: Label|
                !(#[trigger] s_record_get(m1, kk) is Some && #[trigger] s_record_get(
                    *rest,
                    kk,
                ) is Some) by {
                if s_record_get(*rest, kk) is Some {
                    assert(s_record_get(m2, kk) is Some);
                }
            }
            lemma_get_merge_loop(m1, *rest, o, List::Cons(k2, Box::new(seen)), k);
        },
    }
}

/// The mapping an entry list stands for agrees with lookup.
proof fn lemma_record_map_get(l: List<(Label, Value)>, k: Label)
    ensures
        record_map(l).contains_key(k) == (s_record_get(l, k) is Some),
        s_record_get(l, k) matches Option::Some(v) ==> record_map(l)[k] == v,
    decreases l,
{
    match l {
        List::Nil => {},
        List::Cons(_, rest) => {
            lemma_record_map_get(*rest, k);
        },
    }
}

/// Two entry lists whose lookups agree everywhere stand for the same
/// mapping.
proof fn lemma_same_gets_same_map(a: List<(Label, Value)>, b: List<(Label, Value)>)
    requires
        forall|k: Label| #[trigger] s_record_get(a, k) == s_record_get(b, k),
    ensures
        record_map(a) == record_map(b),
{
    assert forall|k: Label| #[trigger] record_map(a).contains_key(k) implies record_map(
        b,
    ).contains_key(k) && record_map(a)[k] == record_map(b)[k] by {
        lemma_record_map_get(a, k);
        lemma_record_map_get(b, k);
    }
    assert forall|k: Label| #[trigger] record_map(b).contains_key(k) implies record_map(
        a,
    ).contains_key(k) by {
        lemma_record_map_get(a, k);
        lemma_record_map_get(b, k);
    }
    assert(record_map(a) =~= record_map(b));
}

/// The right-biased record merge commutes when the two records share no
/// key: both orders stand for the same mapping.
pub proof fn right_merge_commutes_on_disjoint(
    kvs1: List<(Label, Value)>,
    kvs2: List<(Label, Value)>,
)
    requires
        s_disjoint_entries(kvs1, kvs2),
    ensures
        record_map(s_right_merge(kvs1, kvs2)) == record_map(s_right_merge(kvs2, kvs1)),
{
    assert forall|k: Label| #[trigger] s_record_get(s_right_merge(kvs1, kvs2), k) == s_record_get(
        s_right_merge(kvs2, kvs1),
        k,
    ) by {
        lemma_get_right_merge(kvs1, kvs2, k);
        lemma_get_right_merge(kvs2, kvs1, k);
    }
    lemma_same_gets_same_map(s_right_merge(kvs1, kvs2), s_right_merge(kvs2, kvs1));
}

/// The recursive record merge commutes when the two records share no key:
/// no pair is combined, and both orders stand for the same mapping.
pub proof fn recursive_merge_commutes_on_disjoint(
    kvs1: List<(Label, Value)>,
    kvs2: List<(Label, Value)>,
    o: BinOp,
)
    requires
        s_disjoint_entries(kvs1, kvs2),
    ensures
        record_map(s_merge_maps(kvs1, kvs2, o)) == record_map(s_merge_maps(kvs2, kvs1, o)),
{
    assert forall|k: Label| #[trigger] s_record_get(s_merge_maps(kvs1, kvs2, o), k)
        == s_record_get(s_merge_maps(kvs2, kvs1, o), k) by {
        lemma_get_merge_loop(kvs1, kvs2, o, List::Nil, k);
        lemma_get_merge_loop(kvs2, kvs1, o, List::Nil, k);
    }
    lemma_same_gets_same_map(s_merge_maps(kvs1, kvs2, o), s_merge_maps(kvs2, kvs1, o));
}

/// Lookup in a projection.
proof fn lemma_get_project_loop(
    kvs: List<(Label, Value)>,
    ls: List<Label>,
    seen: List<Label>,
    k: Label,
)
    ensures
        s_record_get(s_project_loop(kvs, ls, seen), k) == (if s_contains_label(ls, k)
            && !s_contains_label(seen, k) {
            s_record_get(kvs, k)
        } else {
            Option::<Value>::None
        }),
    decreases ls,
{
    match ls {
        List::Nil => {},
        List::Cons(k0, rest) => {
            if !s_contains_label(seen, k0) {
                match s_record_get(kvs, k0) {
                    Option::Some(_) => {
                        lemma_get_project_loop(kvs, *rest, List::Cons(k0, Box::new(seen)), k);
                    },
                    Option::None => {
                        lemma_get_project_loop(kvs, *rest, seen, k);
                    },
                }
            } else {
                lemma_get_project_loop(kvs, *rest, seen, k);
            }
        },
    }
}

/// Membership in an intersection of label lists.
proof fn lemma_contains_intersect_loop(
    ls: List<Label>,
    ms: List<Label>,
    seen: List<Label>,
    k: Label,
)
    ensures
        s_contains_label(s_intersect_loop(ls, ms, seen), k) == (s_contains_label(ls, k)
            && s_contains_label(ms, k) && !s_contains_label(seen, k)),
    decreases ls,
{
    match ls {
        List::Nil => {},
        List::Cons(k0, rest) => {
            if !s_contains_label(seen, k0) && s_contains_label(ms, k0) {
                lemma_contains_intersect_loop(*rest, ms, List::Cons(k0, Box::new(seen)), k);
            } else {
                lemma_contains_intersect_loop(*rest, ms, seen, k);
            }
        },
    }
}

/// The projection law: projecting a projection is projecting to the
/// intersection of the label sets. Both sides stand for the same mapping.
pub proof fn projection_law(kvs: List<(Label, Value)>, ls: List<Label>, ms: List<Label>)
    ensures
        record_map(s_project_entries(s_project_entries(kvs, ls), ms)) == record_map(
            s_project_entries(kvs, s_intersect_labels(ls, ms)),
        ),
{
    assert forall|k: Label| #[trigger] s_record_get(
        s_project_entries(s_project_entries(kvs, ls), ms),
        k,
    ) == s_record_get(s_project_entries(kvs, s_intersect_labels(ls, ms)), k) by {
        lemma_get_project_loop(s_project_entries(kvs, ls), ms, List::Nil, k);
        lemma_get_project_loop(kvs, ls, List::Nil, k);
        lemma_get_project_loop(kvs, s_intersect_labels(ls, ms), List::Nil, k);
        lemma_contains_intersect_loop(ls, ms, List::Nil, k);
    }
    lemma_same_gets_same_map(
        s_project_entries(s_project_entries(kvs, ls), ms),
        s_project_entries(kvs, s_intersect_labels(ls, ms)),
    );
}

/// `t2` is `t1` with its binders possibly renamed: the trees agree on
/// everything except the names at binder sites (and the type annotations
/// and spans, which evaluation never reads either).
pub open spec fn s_renamed(t1: TyExpr, t2: TyExpr) -> bool
    decreases t1, 1int,
{
    match (*t1.kind, *t2.kind) {
        (TyExprKind::Var(a), TyExprKind::Var(b)) => a == b,
        (TyExprKind::Expr(e1), TyExprKind::Expr(e2)) => s_renamed_ek(e1, e2),
        _ => false,
    }
}

pub open spec fn s_renamed_list(l1: List<TyExpr>, l2: List<TyExpr>) -> bool
    decreases l1, 1int,
{
    match (l1, l2) {
        (List::Nil, List::Nil) => true,
        (List::Cons(x, xr), List::Cons(y, yr)) => s_renamed(x, y) && s_renamed_list(*xr, *yr),
        _ => false,
    }
}

pub open spec fn s_renamed_opt(o1: Option<TyExpr>, o2: Option<TyExpr>) -> bool
    decreases o1, 1int,
{
    match (o1, o2) {
        (Option::None, Option::None) => true,
        (Option::Some(x), Option::Some(y)) => s_renamed(x, y),
        _ => false,
    }
}

pub open spec fn s_renamed_entries(l1: List<(Label, TyExpr)>, l2: List<(Label, TyExpr)>) -> bool
    decreases l1, 1int,
{
    match (l1, l2) {
        (List::Nil, List::Nil) => true,
        (List::Cons((k1, x), xr), List::Cons((k2, y), yr)) => k1 == k2 && s_renamed(x, y)
            && s_renamed_entries(*xr, *yr),
        _ => false,
    }
}

pub open spec fn s_renamed_alts(
    l1: List<(Label, Option<TyExpr>)>,
    l2: List<(Label, Option<TyExpr>)>,
) -> bool
    decreases l1, 1int,
{
    match (l1, l2) {
        (List::Nil, List::Nil) => true,
        (List::Cons((k1, x), xr), List::Cons((k2, y), yr)) => k1 == k2 && s_renamed_opt(x, y)
            && s_renamed_alts(*xr, *yr),
        _ => false,
    }
}

pub open spec fn s_renamed_chunks(
    l1: List<InterpolatedTextContents<TyExpr>>,
    l2: List<InterpolatedTextContents<TyExpr>>,
) -> bool
    decreases l1, 1int,
{
    match (l1, l2) {
        (List::Nil, List::Nil) => true,
        (List::Cons(c1, xr), List::Cons(c2, yr)) => (match (c1, c2) {
            (InterpolatedTextContents::Text(a), InterpolatedTextContents::Text(b)) => a == b,
            (InterpolatedTextContents::Expr(x), InterpolatedTextContents::Expr(y)) => s_renamed(
                x,
                y,
            ),
            _ => false,
        }) && s_renamed_chunks(*xr, *yr),
        _ => false,
    }
}

pub open spec fn s_renamed_ek(e1: ExprKind<TyExpr>, e2: ExprKind<TyExpr>) -> bool
    decreases e1, 2int,
{
    match (e1, e2) {
        (ExprKind::Var(v), ExprKind::Var(w)) => v == w,
        (ExprKind::Const(c), ExprKind::Const(d)) => c == d,
        (ExprKind::Builtin(c), ExprKind::Builtin(d)) => c == d,
        (ExprKind::BoolLit(c), ExprKind::BoolLit(d)) => c == d,
        (ExprKind::NaturalLit(c), ExprKind::NaturalLit(d)) => c == d,
        (ExprKind::IntegerLit(c), ExprKind::IntegerLit(d)) => c == d,
        (ExprKind::DoubleLit(c), ExprKind::DoubleLit(d)) => c == d,
        (ExprKind::TextLit(c), ExprKind::TextLit(d)) => s_renamed_chunks(c, d),
        (ExprKind::Lam(_, t1, b1), ExprKind::Lam(_, t2, b2)) => s_renamed(t1, t2) && s_renamed(
            b1,
            b2,
        ),
        (ExprKind::Pi(_, t1, b1), ExprKind::Pi(_, t2, b2)) => s_renamed(t1, t2) && s_renamed(
            b1,
            b2,
        ),
        (ExprKind::Let(_, a1, v1, b1), ExprKind::Let(_, a2, v2, b2)) => s_renamed_opt(a1, a2)
            && s_renamed(v1, v2) && s_renamed(b1, b2),
        (ExprKind::App(f1, a1), ExprKind::App(f2, a2)) => s_renamed(f1, f2) && s_renamed(a1, a2),
        (ExprKind::Annot(x1, t1), ExprKind::Annot(x2, t2)) => s_renamed(x1, x2) && s_renamed(
            t1,
            t2,
        ),
        (ExprKind::Assert(t1), ExprKind::Assert(t2)) => s_renamed(t1, t2),
        (ExprKind::BoolIf(c1, x1, y1), ExprKind::BoolIf(c2, x2, y2)) => s_renamed(c1, c2)
            && s_renamed(x1, x2) && s_renamed(y1, y2),
        (ExprKind::BinOp(o1, x1, y1), ExprKind::BinOp(o2, x2, y2)) => o1 == o2 && s_renamed(x1, x2)
            && s_renamed(y1, y2),
        (ExprKind::EmptyListLit(t1), ExprKind::EmptyListLit(t2)) => s_renamed(t1, t2),
        (ExprKind::NEListLit(xs), ExprKind::NEListLit(ys)) => s_renamed_list(xs, ys),
        (ExprKind::SomeLit(x), ExprKind::SomeLit(y)) => s_renamed(x, y),
        (ExprKind::RecordType(x), ExprKind::RecordType(y)) => s_renamed_entries(x, y),
        (ExprKind::RecordLit(x), ExprKind::RecordLit(y)) => s_renamed_entries(x, y),
        (ExprKind::UnionType(x), ExprKind::UnionType(y)) => s_renamed_alts(x, y),
        (ExprKind::Field(x, k), ExprKind::Field(y, m)) => s_renamed(x, y) && k == m,
        (ExprKind::Projection(x, ks), ExprKind::Projection(y, ms)) => s_renamed(x, y) && ks == ms,
        (ExprKind::Merge(h1, v1, t1), ExprKind::Merge(h2, v2, t2)) => s_renamed(h1, h2)
            && s_renamed(v1, v2) && s_renamed_opt(t1, t2),
        _ => false,
    }
}

/// Renaming binders does not change the erased tree.
proof fn lemma_renamed_erase(t1: TyExpr, t2: TyExpr)
    requires
        s_renamed(t1, t2),
    ensures
        s_erase(t1) == s_erase(t2),
    decreases t1, 1int,
{
    match (*t1.kind, *t2.kind) {
        (TyExprKind::Var(_), TyExprKind::Var(_)) => {},
        (TyExprKind::Expr(e1), TyExprKind::Expr(e2)) => {
            lemma_renamed_erase_ek(e1, e2);
        },
        _ => {},
    }
}

proof fn lemma_renamed_erase_list(l1: List<TyExpr>, l2: List<TyExpr>)
    requires
        s_renamed_list(l1, l2),
    ensures
        s_erase_list(l1) == s_erase_list(l2),
    decreases l1, 1int,
{
    match (l1, l2) {
        (List::Cons(x, xr), List::Cons(y, yr)) => {
            lemma_renamed_erase(x, y);
            lemma_renamed_erase_list(*xr, *yr);
        },
        _ => {},
    }
}

proof fn lemma_renamed_erase_opt(o1: Option<TyExpr>, o2: Option<TyExpr>)
    requires
        s_renamed_opt(o1, o2),
    ensures
        s_erase_opt(o1) == s_erase_opt(o2),
    decreases o1, 1int,
{
    match (o1, o2) {
        (Option::Some(x), Option::Some(y)) => {
            lemma_renamed_erase(x, y);
        },
        _ => {},
    }
}

proof fn lemma_renamed_erase_entries(l1: List<(Label, TyExpr)>, l2: List<(Label, TyExpr)>)
    requires
        s_renamed_entries(l1, l2),
    ensures
        s_erase_entries(l1) == s_erase_entries(l2),
    decreases l1, 1int,
{
    match (l1, l2) {
        (List::Cons((_, x), xr), List::Cons((_, y), yr)) => {
            lemma_renamed_erase(x, y);
            lemma_renamed_erase_entries(*xr, *yr);
        },
        _ => {},
    }
}

proof fn lemma_renamed_erase_alts(
    l1: List<(Label, Option<TyExpr>)>,
    l2: List<(Label, Option<TyExpr>)>,
)
    requires
        s_renamed_alts(l1, l2),
    ensures
        s_erase_alts(l1) == s_erase_alts(l2),
    decreases l1, 1int,
{
    match (l1, l2) {
        (List::Cons((_, x), xr), List::Cons((_, y), yr)) => {
            lemma_renamed_erase_opt(x, y);
            lemma_renamed_erase_alts(*xr, *yr);
        },
        _ => {},
    }
}

proof fn lemma_renamed_erase_chunks(
    l1: List<InterpolatedTextContents<TyExpr>>,
    l2: List<InterpolatedTextContents<TyExpr>>,
)
    requires
        s_renamed_chunks(l1, l2),
    ensures
        s_erase_chunks(l1) == s_erase_chunks(l2),
    decreases l1, 1int,
{
    match (l1, l2) {
        (List::Cons(c1, xr), List::Cons(c2, yr)) => {
            match (c1, c2) {
                (InterpolatedTextContents::Expr(x), InterpolatedTextContents::Expr(y)) => {
                    lemma_renamed_erase(x, y);
                },
                _ => {},
            }
            lemma_renamed_erase_chunks(*xr, *yr);
        },
        _ => {},
    }
}

proof fn lemma_renamed_erase_ek(e1: ExprKind<TyExpr>, e2: ExprKind<TyExpr>)
    requires
        s_renamed_ek(e1, e2),
    ensures
        s_erase_ek(e1) == s_erase_ek(e2),
    decreases e1, 2int,
{
    match (e1, e2) {
        (ExprKind::TextLit(c), ExprKind::TextLit(d)) => {
            lemma_renamed_erase_chunks(c, d);
        },
        (ExprKind::Lam(_, t1, b1), ExprKind::Lam(_, t2, b2)) => {
            lemma_renamed_erase(t1, t2);
            lemma_renamed_erase(b1, b2);
        },
        (ExprKind::Pi(_, t1, b1), ExprKind::Pi(_, t2, b2)) => {
            lemma_renamed_erase(t1, t2);
            lemma_renamed_erase(b1, b2);
        },
        (ExprKind::Let(_, a1, v1, b1), ExprKind::Let(_, a2, v2, b2)) => {
            lemma_renamed_erase_opt(a1, a2);
            lemma_renamed_erase(v1, v2);
            lemma_renamed_erase(b1, b2);
        },
        (ExprKind::App(f1, a1), ExprKind::App(f2, a2)) => {
            lemma_renamed_erase(f1, f2);
            lemma_renamed_erase(a1, a2);
        },
        (ExprKind::Annot(x1, t1), ExprKind::Annot(x2, t2)) => {
            lemma_renamed_erase(x1, x2);
            lemma_renamed_erase(t1, t2);
        },
        (ExprKind::Assert(t1), ExprKind::Assert(t2)) => {
            lemma_renamed_erase(t1, t2);
        },
        (ExprKind::BoolIf(c1, x1, y1), ExprKind::BoolIf(c2, x2, y2)) => {
            lemma_renamed_erase(c1, c2);
            lemma_renamed_erase(x1, x2);
            lemma_renamed_erase(y1, y2);
        },
        (ExprKind::BinOp(_, x1, y1), ExprKind::BinOp(_, x2, y2)) => {
            lemma_renamed_erase(x1, x2);
            lemma_renamed_erase(y1, y2);
        },
        (ExprKind::EmptyListLit(t1), ExprKind::EmptyListLit(t2)) => {
            lemma_renamed_erase(t1, t2);
        },
        (ExprKind::NEListLit(xs), ExprKind::NEListLit(ys)) => {
            lemma_renamed_erase_list(xs, ys);
        },
        (ExprKind::SomeLit(x), ExprKind::SomeLit(y)) => {
            lemma_renamed_erase(x, y);
        },
        (ExprKind::RecordType(x), ExprKind::RecordType(y)) => {
            lemma_renamed_erase_entries(x, y);
        },
        (ExprKind::RecordLit(x), ExprKind::RecordLit(y)) => {
            lemma_renamed_erase_entries(x, y);
        },
        (ExprKind::UnionType(x), ExprKind::UnionType(y)) => {
            lemma_renamed_erase_alts(x, y);
        },
        (ExprKind::Field(x, _), ExprKind::Field(y, _)) => {
            lemma_renamed_erase(x, y);
        },
        (ExprKind::Projection(x, _), ExprKind::Projection(y, _)) => {
            lemma_renamed_erase(x, y);
        },
        (ExprKind::Merge(h1, v1, t1), ExprKind::Merge(h2, v2, t2)) => {
            lemma_renamed_erase(h1, h2);
            lemma_renamed_erase(v1, v2);
            lemma_renamed_erase_opt(t1, t2);
        },
        _ => {},
    }
}

/// Alpha-invariance: renaming all binders in a typed expression gives a
/// tree that evaluates to the very same value, in any environment, so in
/// particular to a value equal under alpha.
pub proof fn alpha_invariance(t1: TyExpr, t2: TyExpr, env: Env)
    requires
        s_renamed(t1, t2),
    ensures
        s_erase(t1) == s_erase(t2),
        Value::Thunk(Box::new(env), Box::new(s_erase(t1))) == Value::Thunk(
            Box::new(env),
            Box::new(s_erase(t2)),
        ),
{
    lemma_renamed_erase(t1, t2);
}

} // verus!
