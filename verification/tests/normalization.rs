use dhall::equality::nf_eq;
use dhall::error::TypeMessage;
use dhall::normalize::value_eq;
use dhall::syntax::{BinOp, Builtin, ExprKind, InterpolatedTextContents, Label, List, Span};
use dhall::tyexpr::{AlphaVar, ExprNode, ToExprOptions, TyExpr, TyExprKind};
use dhall::value::{Value, ValueF};

const FUEL: u64 = 1 << 20;

fn lbl(s: &str) -> Label {
    Label::from_bytes(&s.as_bytes().to_vec())
}

fn mk_list<T>(mut v: Vec<T>) -> List<T> {
    let mut l = List::Nil;
    while let Some(x) = v.pop() {
        l = List::Cons(x, Box::new(l));
    }
    l
}

fn te(k: ExprKind<TyExpr>) -> TyExpr {
    TyExpr::new(TyExprKind::Expr(k), None, Span::Artificial)
}

fn tvar(i: usize) -> TyExpr {
    TyExpr::new(TyExprKind::Var(AlphaVar::new(i)), None, Span::Artificial)
}

fn nlit(n: u64) -> TyExpr {
    te(ExprKind::NaturalLit(n))
}

fn ilit(n: i64) -> TyExpr {
    te(ExprKind::IntegerLit(n))
}

fn builtin(b: Builtin) -> TyExpr {
    te(ExprKind::Builtin(b))
}

fn app(f: TyExpr, a: TyExpr) -> TyExpr {
    te(ExprKind::App(f, a))
}

fn lam(name: &str, ty: TyExpr, body: TyExpr) -> TyExpr {
    te(ExprKind::Lam(lbl(name), ty, body))
}

fn binop(o: BinOp, x: TyExpr, y: TyExpr) -> TyExpr {
    te(ExprKind::BinOp(o, x, y))
}

fn text(s: &str) -> InterpolatedTextContents<TyExpr> {
    InterpolatedTextContents::Text(dhall::syntax::bytes_from_vec(&s.as_bytes().to_vec()))
}

fn splice(e: TyExpr) -> InterpolatedTextContents<TyExpr> {
    InterpolatedTextContents::Expr(e)
}

fn record(entries: Vec<(&str, TyExpr)>) -> TyExpr {
    te(ExprKind::RecordLit(mk_list(
        entries.into_iter().map(|(k, v)| (lbl(k), v)).collect(),
    )))
}

fn norm(t: &TyExpr) -> Value {
    t.rec_eval_closed_expr(FUEL).expect("fuel bound was enough")
}

fn norms_equal(a: &TyExpr, b: &TyExpr) -> bool {
    nf_eq(&norm(a), &norm(b))
}

fn as_nat(v: &Value) -> Option<u64> {
    if let Value::Whnf(h) = v {
        if let ValueF::NaturalLit(n) = &**h {
            return Some(*n);
        }
    }
    None
}

fn as_text_bytes(v: &Value) -> Option<Vec<u8>> {
    if let Value::Whnf(h) = v {
        if let ValueF::TextLit(List::Cons(InterpolatedTextContents::Text(s), tail)) = &**h {
            if let List::Nil = &**tail {
                return Some(dhall::syntax::bytes_to_vec(s));
            }
        }
    }
    None
}

#[test]
fn beta_natural_increment() {
    // (\(x : Natural) -> x + 1) 4 normalizes to 5
    let f = lam(
        "x",
        builtin(Builtin::Natural),
        binop(BinOp::NaturalPlus, tvar(0), nlit(1)),
    );
    let e = app(f, nlit(4));
    assert_eq!(as_nat(&norm(&e)), Some(5));
}

#[test]
fn list_length_three() {
    let xs = te(ExprKind::NEListLit(mk_list(vec![nlit(1), nlit(2), nlit(3)])));
    let e = app(app(builtin(Builtin::ListLength), builtin(Builtin::Natural)), xs);
    assert_eq!(as_nat(&norm(&e)), Some(3));
}

#[test]
fn list_reverse_three() {
    let xs = te(ExprKind::NEListLit(mk_list(vec![nlit(1), nlit(2), nlit(3)])));
    let e = app(app(builtin(Builtin::ListReverse), builtin(Builtin::Natural)), xs);
    let expected = te(ExprKind::NEListLit(mk_list(vec![nlit(3), nlit(2), nlit(1)])));
    assert!(norms_equal(&e, &expected));
}

#[test]
fn list_fold_build_fusion() {
    // List/build Natural (List/fold Natural [1, 2, 3]) gives back [1, 2, 3]
    let xs = te(ExprKind::NEListLit(mk_list(vec![nlit(1), nlit(2), nlit(3)])));
    let folded = app(app(builtin(Builtin::ListFold), builtin(Builtin::Natural)), xs);
    let e = app(app(builtin(Builtin::ListBuild), builtin(Builtin::Natural)), folded);
    let expected = te(ExprKind::NEListLit(mk_list(vec![nlit(1), nlit(2), nlit(3)])));
    assert!(norms_equal(&e, &expected));
}

#[test]
fn optional_fold_build_fusion() {
    let o = te(ExprKind::SomeLit(nlit(7)));
    let folded = app(app(builtin(Builtin::OptionalFold), builtin(Builtin::Natural)), o);
    let e = app(
        app(builtin(Builtin::OptionalBuild), builtin(Builtin::Natural)),
        folded,
    );
    let expected = te(ExprKind::SomeLit(nlit(7)));
    assert!(norms_equal(&e, &expected));
}

#[test]
fn natural_fold_build_fusion() {
    let folded = app(builtin(Builtin::NaturalFold), nlit(9));
    let e = app(builtin(Builtin::NaturalBuild), folded);
    assert_eq!(as_nat(&norm(&e)), Some(9));
}

#[test]
fn merge_handles_empty_optional() {
    // merge { Some = \(x : Natural) -> x, None = 0 } (None Natural) is 0
    let handlers = record(vec![
        ("Some", lam("x", builtin(Builtin::Natural), tvar(0))),
        ("None", nlit(0)),
    ]);
    let variant = app(builtin(Builtin::OptionalNone), builtin(Builtin::Natural));
    let e = te(ExprKind::Merge(handlers, variant, None));
    assert_eq!(as_nat(&norm(&e)), Some(0));
}

#[test]
fn merge_handles_union_literal() {
    // merge { A = \(x : Natural) -> x + 1 } (<A : Natural>.A 4) is 5
    let union_ty = te(ExprKind::UnionType(mk_list(vec![(
        lbl("A"),
        Some(builtin(Builtin::Natural)),
    )])));
    let ctor = te(ExprKind::Field(union_ty, lbl("A")));
    let variant = app(ctor, nlit(4));
    let handlers = record(vec![(
        "A",
        lam(
            "x",
            builtin(Builtin::Natural),
            binop(BinOp::NaturalPlus, tvar(0), nlit(1)),
        ),
    )]);
    let e = te(ExprKind::Merge(handlers, variant, None));
    assert_eq!(as_nat(&norm(&e)), Some(5));
}

#[test]
fn text_interpolation_flattens() {
    // "a${"b${"c"}"}d" normalizes to the single chunk "abcd"
    let inner = te(ExprKind::TextLit(mk_list(vec![text("c")])));
    let middle = te(ExprKind::TextLit(mk_list(vec![text("b"), splice(inner)])));
    let outer = te(ExprKind::TextLit(mk_list(vec![
        text("a"),
        splice(middle),
        text("d"),
    ])));
    assert_eq!(as_text_bytes(&norm(&outer)), Some(b"abcd".to_vec()));
}

#[test]
fn right_biased_merge_keeps_right() {
    // { a = 1, b = 2 } // { b = 3, c = 4 } is { a = 1, b = 3, c = 4 }
    let left = record(vec![("a", nlit(1)), ("b", nlit(2))]);
    let right = record(vec![("b", nlit(3)), ("c", nlit(4))]);
    let e = binop(BinOp::RightBiasedRecordMerge, left, right);
    let expected = record(vec![("a", nlit(1)), ("b", nlit(3)), ("c", nlit(4))]);
    assert!(norms_equal(&e, &expected));
}

#[test]
fn natural_subtract_three_five() {
    let e = app(app(builtin(Builtin::NaturalSubtract), nlit(3)), nlit(5));
    assert_eq!(as_nat(&norm(&e)), Some(2));
}

#[test]
fn natural_subtract_five_three() {
    let e = app(app(builtin(Builtin::NaturalSubtract), nlit(5)), nlit(3));
    assert_eq!(as_nat(&norm(&e)), Some(0));
}

#[test]
fn whnf_is_idempotent() {
    // forcing twice gives the same head form
    let e = app(
        lam(
            "x",
            builtin(Builtin::Natural),
            binop(BinOp::NaturalPlus, tvar(0), nlit(1)),
        ),
        nlit(4),
    );
    let v = e.eval_closed_expr();
    let w1 = v.whnf(FUEL).expect("fuel bound was enough");
    let w2 = w1.whnf(5).expect("a settled head needs no fuel");
    assert_eq!(value_eq(&w1, &w2, FUEL), Some(true));
}

#[test]
fn normalize_is_idempotent() {
    let e = binop(
        BinOp::RecursiveRecordMerge,
        record(vec![("a", nlit(1))]),
        record(vec![("b", nlit(2))]),
    );
    let n1 = norm(&e);
    let n2 = n1.normalize(7).expect("a normal form needs no fuel");
    assert!(nf_eq(&n1, &n2));
}

#[test]
fn renaming_binders_changes_nothing() {
    let f = lam(
        "first",
        builtin(Builtin::Natural),
        binop(BinOp::NaturalPlus, tvar(0), nlit(2)),
    );
    let g = lam(
        "second",
        builtin(Builtin::Natural),
        binop(BinOp::NaturalPlus, tvar(0), nlit(2)),
    );
    assert!(norms_equal(&f, &g));
    assert!(norms_equal(&app(f, nlit(1)), &app(g, nlit(1))));
}

#[test]
fn record_merges_commute_on_disjoint_keys() {
    for o in [BinOp::RightBiasedRecordMerge, BinOp::RecursiveRecordMerge] {
        let lhs = binop(
            o,
            record(vec![("a", nlit(1)), ("b", nlit(2))]),
            record(vec![("c", nlit(3))]),
        );
        let rhs = binop(
            o,
            record(vec![("c", nlit(3))]),
            record(vec![("a", nlit(1)), ("b", nlit(2))]),
        );
        assert!(norms_equal(&lhs, &rhs));
    }
}

#[test]
fn projection_of_projection_is_intersection() {
    let base = record(vec![("a", nlit(1)), ("b", nlit(2)), ("c", nlit(3))]);
    let once = te(ExprKind::Projection(base, mk_list(vec![lbl("a"), lbl("b")])));
    let twice = te(ExprKind::Projection(once, mk_list(vec![lbl("b"), lbl("c")])));
    let direct = te(ExprKind::Projection(
        record(vec![("a", nlit(1)), ("b", nlit(2)), ("c", nlit(3))]),
        mk_list(vec![lbl("b")]),
    ));
    assert!(norms_equal(&twice, &direct));
}

#[test]
fn natural_show_renders_decimal() {
    let e = app(builtin(Builtin::NaturalShow), nlit(42));
    assert_eq!(as_text_bytes(&norm(&e)), Some(b"42".to_vec()));
}

#[test]
fn integer_show_signs() {
    let pos = app(builtin(Builtin::IntegerShow), ilit(3));
    assert_eq!(as_text_bytes(&norm(&pos)), Some(b"+3".to_vec()));
    let neg = app(builtin(Builtin::IntegerShow), ilit(-3));
    assert_eq!(as_text_bytes(&norm(&neg)), Some(b"-3".to_vec()));
    let zero = app(builtin(Builtin::IntegerShow), ilit(0));
    assert_eq!(as_text_bytes(&norm(&zero)), Some(b"+0".to_vec()));
}

#[test]
fn text_show_escapes() {
    let lit = te(ExprKind::TextLit(mk_list(vec![text("a\"b\\c\n")])));
    let e = app(builtin(Builtin::TextShow), lit);
    assert_eq!(
        as_text_bytes(&norm(&e)),
        Some(b"\"a\\\"b\\\\c\\n\"".to_vec())
    );
    let dollar = te(ExprKind::TextLit(mk_list(vec![text("$x")])));
    let e2 = app(builtin(Builtin::TextShow), dollar);
    assert_eq!(as_text_bytes(&norm(&e2)), Some(b"\"\\u0024x\"".to_vec()));
}

#[test]
fn natural_builtin_predicates() {
    let is_zero = app(builtin(Builtin::NaturalIsZero), nlit(0));
    assert!(norms_equal(&is_zero, &te(ExprKind::BoolLit(true))));
    let even = app(builtin(Builtin::NaturalEven), nlit(7));
    assert!(norms_equal(&even, &te(ExprKind::BoolLit(false))));
    let odd = app(builtin(Builtin::NaturalOdd), nlit(7));
    assert!(norms_equal(&odd, &te(ExprKind::BoolLit(true))));
    let to_int = app(builtin(Builtin::NaturalToInteger), nlit(7));
    assert!(norms_equal(&to_int, &ilit(7)));
}

#[test]
fn natural_fold_iterates() {
    // Natural/fold 3 Natural (\(x : Natural) -> x + 2) 1 is 7
    let succ = lam(
        "x",
        builtin(Builtin::Natural),
        binop(BinOp::NaturalPlus, tvar(0), nlit(2)),
    );
    let e = app(
        app(
            app(app(builtin(Builtin::NaturalFold), nlit(3)), builtin(Builtin::Natural)),
            succ,
        ),
        nlit(1),
    );
    assert_eq!(as_nat(&norm(&e)), Some(7));
}

#[test]
fn list_fold_folds_right() {
    // List/fold Natural [1, 2, 3] Natural (\(x) -> \(acc) -> x + acc) 0 is 6
    let xs = te(ExprKind::NEListLit(mk_list(vec![nlit(1), nlit(2), nlit(3)])));
    let cons = lam(
        "x",
        builtin(Builtin::Natural),
        lam(
            "acc",
            builtin(Builtin::Natural),
            binop(BinOp::NaturalPlus, tvar(1), tvar(0)),
        ),
    );
    let e = app(
        app(
            app(
                app(app(builtin(Builtin::ListFold), builtin(Builtin::Natural)), xs),
                builtin(Builtin::Natural),
            ),
            cons,
        ),
        nlit(0),
    );
    assert_eq!(as_nat(&norm(&e)), Some(6));
}

#[test]
fn list_head_and_last() {
    let xs = te(ExprKind::NEListLit(mk_list(vec![nlit(1), nlit(2)])));
    let head = app(app(builtin(Builtin::ListHead), builtin(Builtin::Natural)), xs);
    assert!(norms_equal(&head, &te(ExprKind::SomeLit(nlit(1)))));
    let xs2 = te(ExprKind::NEListLit(mk_list(vec![nlit(1), nlit(2)])));
    let last = app(app(builtin(Builtin::ListLast), builtin(Builtin::Natural)), xs2);
    assert!(norms_equal(&last, &te(ExprKind::SomeLit(nlit(2)))));
}

#[test]
fn list_indexed_pairs_positions() {
    let xs = te(ExprKind::NEListLit(mk_list(vec![nlit(10), nlit(20)])));
    let e = app(app(builtin(Builtin::ListIndexed), builtin(Builtin::Natural)), xs);
    let expected = te(ExprKind::NEListLit(mk_list(vec![
        record(vec![("index", nlit(0)), ("value", nlit(10))]),
        record(vec![("index", nlit(1)), ("value", nlit(20))]),
    ])));
    assert!(norms_equal(&e, &expected));
}

fn as_double_bits(v: &Value) -> Option<u64> {
    if let Value::Whnf(h) = v {
        if let ValueF::DoubleLit(bits) = &**h {
            return Some(*bits);
        }
    }
    None
}

#[test]
fn integer_to_double_rounds_to_nearest() {
    for n in [
        0i64,
        7,
        -3,
        1 << 52,
        (1 << 53) + 1,
        (1 << 53) + 3,
        -((1 << 53) + 1),
        i64::MAX,
        i64::MIN,
        i64::MIN + 1,
    ] {
        let e = app(builtin(Builtin::IntegerToDouble), ilit(n));
        assert_eq!(
            as_double_bits(&norm(&e)),
            Some((n as f64).to_bits()),
            "bits differ for {}",
            n
        );
    }
}

#[test]
fn double_equality_is_bit_exact() {
    let nan1 = te(ExprKind::DoubleLit(f64::NAN.to_bits()));
    let nan2 = te(ExprKind::DoubleLit(f64::NAN.to_bits() ^ 1));
    let zero_pos = te(ExprKind::DoubleLit((0.0f64).to_bits()));
    let zero_neg = te(ExprKind::DoubleLit((-0.0f64).to_bits()));
    assert!(norms_equal(
        &te(ExprKind::DoubleLit(f64::NAN.to_bits())),
        &te(ExprKind::DoubleLit(f64::NAN.to_bits())),
    ));
    assert!(!norms_equal(&nan1, &nan2));
    assert!(!norms_equal(&zero_pos, &zero_neg));
}

#[test]
fn bool_if_of_literal_branches_is_the_condition() {
    // if b then True else False simplifies to b, even when b is neutral
    let neutral_cond = te(ExprKind::Assert(te(ExprKind::BoolLit(true))));
    let e = te(ExprKind::BoolIf(
        neutral_cond,
        te(ExprKind::BoolLit(true)),
        te(ExprKind::BoolLit(false)),
    ));
    let v = norm(&e);
    match &v {
        Value::Whnf(h) => match &**h {
            ValueF::PartialExpr(pe) => assert!(matches!(&**pe, ExprKind::Assert(_))),
            _ => panic!("expected the condition itself, a neutral assert"),
        },
        _ => panic!("not settled"),
    }
}

#[test]
fn apply_shortcut_matches_application() {
    let f = lam(
        "x",
        builtin(Builtin::Natural),
        binop(BinOp::NaturalPlus, tvar(0), nlit(1)),
    )
    .eval_closed_expr();
    let a = nlit(4).eval_closed_expr();
    let r = f.app(&a, FUEL).expect("fuel bound was enough");
    let n = r.normalize(FUEL).expect("fuel bound was enough");
    assert_eq!(as_nat(&n), Some(5));
}

#[test]
fn empty_list_annotation_unwraps() {
    let e = te(ExprKind::EmptyListLit(app(
        builtin(Builtin::List),
        builtin(Builtin::Natural),
    )));
    let v = norm(&e);
    match &v {
        Value::Whnf(h) => match &**h {
            ValueF::EmptyListLit(t) => match t {
                Value::Whnf(th) => match &**th {
                    ValueF::AppliedBuiltin(Builtin::Natural, List::Nil) => {}
                    _ => panic!("element type not the natural primitive"),
                },
                _ => panic!("element type not settled"),
            },
            _ => panic!("not an empty list literal"),
        },
        _ => panic!("not settled"),
    }
}

#[test]
fn boolean_identities() {
    let t = te(ExprKind::BoolLit(true));
    let f = te(ExprKind::BoolLit(false));
    assert!(norms_equal(
        &binop(BinOp::BoolAnd, t, te(ExprKind::BoolLit(false))),
        &te(ExprKind::BoolLit(false)),
    ));
    assert!(norms_equal(
        &binop(BinOp::BoolOr, f, te(ExprKind::BoolLit(true))),
        &te(ExprKind::BoolLit(true)),
    ));
    assert!(norms_equal(
        &binop(
            BinOp::BoolEQ,
            te(ExprKind::BoolLit(false)),
            te(ExprKind::BoolLit(false)),
        ),
        &te(ExprKind::BoolLit(true)),
    ));
    assert!(norms_equal(
        &binop(
            BinOp::BoolNE,
            te(ExprKind::BoolLit(true)),
            te(ExprKind::BoolLit(true)),
        ),
        &te(ExprKind::BoolLit(false)),
    ));
}

#[test]
fn arithmetic_identities() {
    assert_eq!(as_nat(&norm(&binop(BinOp::NaturalPlus, nlit(2), nlit(3)))), Some(5));
    assert_eq!(as_nat(&norm(&binop(BinOp::NaturalTimes, nlit(2), nlit(3)))), Some(6));
    assert_eq!(as_nat(&norm(&binop(BinOp::NaturalTimes, nlit(0), nlit(3)))), Some(0));
    assert_eq!(as_nat(&norm(&binop(BinOp::NaturalPlus, nlit(0), nlit(3)))), Some(3));
}

#[test]
fn overflowing_sum_stays_neutral() {
    let e = binop(BinOp::NaturalPlus, nlit(u64::MAX), nlit(1));
    let v = norm(&e);
    match &v {
        Value::Whnf(h) => match &**h {
            ValueF::PartialExpr(pe) => match &**pe {
                ExprKind::BinOp(BinOp::NaturalPlus, _, _) => {}
                _ => panic!("expected the sum to stay a pending operator node"),
            },
            _ => panic!("expected a neutral"),
        },
        _ => panic!("not settled"),
    }
}

#[test]
fn equivalence_never_reduces() {
    let e = binop(BinOp::Equivalence, nlit(1), nlit(1));
    let v = norm(&e);
    match &v {
        Value::Whnf(h) => match &**h {
            ValueF::Equivalence(_, _) => {}
            _ => panic!("expected an equivalence head"),
        },
        _ => panic!("not settled"),
    }
}

#[test]
fn get_type_of_untyped_node_is_the_sort_error() {
    let e = nlit(1);
    let err = e.get_type().err().expect("no type was attached");
    assert!(err.is_sort());
    assert!(matches!(err.message, TypeMessage::Sort));
}

#[test]
fn get_type_returns_the_attached_type() {
    let ty = builtin(Builtin::Natural).eval_closed_expr();
    let e = TyExpr::new(
        TyExprKind::Expr(ExprKind::NaturalLit(1)),
        Some(ty),
        Span::Artificial,
    );
    assert!(e.get_type().is_ok());
    assert!(e.span() == Span::Artificial);
    assert!(matches!(e.kind(), TyExprKind::Expr(ExprKind::NaturalLit(1))));
}

#[test]
fn to_expr_resolves_names() {
    // \(x : Natural) -> x prints its variable under the binder's name
    let f = lam("x", builtin(Builtin::Natural), tvar(0));
    let plain = f.to_expr(ToExprOptions { normalize: false, alpha: false });
    match &*plain.kind {
        ExprNode::Expr(ExprKind::Lam(l, _, body)) => {
            assert_eq!(dhall::syntax::bytes_to_vec(&l.bytes), b"x".to_vec());
            match &*body.kind {
                ExprNode::Var(v) => {
                    assert_eq!(dhall::syntax::bytes_to_vec(&v.name.bytes), b"x".to_vec());
                    assert_eq!(v.idx, 0);
                }
                _ => panic!("body is not a variable"),
            }
        }
        _ => panic!("not a lambda"),
    }
    let alpha = f.to_expr(ToExprOptions { normalize: false, alpha: true });
    match &*alpha.kind {
        ExprNode::Expr(ExprKind::Lam(l, _, _)) => {
            assert_eq!(dhall::syntax::bytes_to_vec(&l.bytes), b"_".to_vec());
        }
        _ => panic!("not a lambda"),
    }
}

#[test]
fn to_expr_counts_shadowed_names() {
    // \(x : Natural) -> \(x : Natural) -> <outer x> prints as x@1
    let f = lam("x", builtin(Builtin::Natural), lam("x", builtin(Builtin::Natural), tvar(1)));
    let plain = f.to_expr(ToExprOptions { normalize: false, alpha: false });
    match &*plain.kind {
        ExprNode::Expr(ExprKind::Lam(_, _, inner)) => match &*inner.kind {
            ExprNode::Expr(ExprKind::Lam(_, _, body)) => match &*body.kind {
                ExprNode::Var(v) => {
                    assert_eq!(dhall::syntax::bytes_to_vec(&v.name.bytes), b"x".to_vec());
                    assert_eq!(v.idx, 1);
                }
                _ => panic!("body is not a variable"),
            },
            _ => panic!("inner is not a lambda"),
        },
        _ => panic!("not a lambda"),
    }
}

#[test]
fn text_append_squashes() {
    let a = te(ExprKind::TextLit(mk_list(vec![text("ab")])));
    let b = te(ExprKind::TextLit(mk_list(vec![text("cd")])));
    let e = binop(BinOp::TextAppend, a, b);
    assert_eq!(as_text_bytes(&norm(&e)), Some(b"abcd".to_vec()));
}

#[test]
fn list_append_concatenates() {
    let a = te(ExprKind::NEListLit(mk_list(vec![nlit(1)])));
    let b = te(ExprKind::NEListLit(mk_list(vec![nlit(2)])));
    let e = binop(BinOp::ListAppend, a, b);
    let expected = te(ExprKind::NEListLit(mk_list(vec![nlit(1), nlit(2)])));
    assert!(norms_equal(&e, &expected));
}

#[test]
fn recursive_merge_combines_nested_records() {
    // { p = { a = 1 } } /\ { p = { b = 2 } } is { p = { a = 1, b = 2 } }
    let lhs = record(vec![("p", record(vec![("a", nlit(1))]))]);
    let rhs = record(vec![("p", record(vec![("b", nlit(2))]))]);
    let e = binop(BinOp::RecursiveRecordMerge, lhs, rhs);
    let expected = record(vec![("p", record(vec![("a", nlit(1)), ("b", nlit(2))]))]);
    assert!(norms_equal(&e, &expected));
}

#[test]
fn let_binds_and_annotation_drops() {
    // let n = 4 in (n : Natural) + 1
    let body = binop(
        BinOp::NaturalPlus,
        te(ExprKind::Annot(tvar(0), builtin(Builtin::Natural))),
        nlit(1),
    );
    let e = te(ExprKind::Let(lbl("n"), None, nlit(4), body));
    assert_eq!(as_nat(&norm(&e)), Some(5));
}

#[test]
fn bool_if_chooses_branches() {
    let e = te(ExprKind::BoolIf(te(ExprKind::BoolLit(true)), nlit(1), nlit(2)));
    assert_eq!(as_nat(&norm(&e)), Some(1));
    let e2 = te(ExprKind::BoolIf(te(ExprKind::BoolLit(false)), nlit(1), nlit(2)));
    assert_eq!(as_nat(&norm(&e2)), Some(2));
    // equal branches need no condition, even when it is neutral
    let neutral_cond = te(ExprKind::Assert(te(ExprKind::BoolLit(true))));
    let e3 = te(ExprKind::BoolIf(neutral_cond, nlit(3), nlit(3)));
    assert_eq!(as_nat(&norm(&e3)), Some(3));
}

#[test]
fn field_access_picks_the_entry() {
    let e = te(ExprKind::Field(
        record(vec![("a", nlit(1)), ("b", nlit(2))]),
        lbl("b"),
    ));
    assert_eq!(as_nat(&norm(&e)), Some(2));
}

#[test]
fn intersection_keeps_shared_keys() {
    // the intersection of { a, b } and { b, c } holds the key b alone
    let m1 = mk_list(vec![(lbl("a"), nlit(1).eval_closed_expr()), (lbl("b"), nlit(2).eval_closed_expr())]);
    let m2 = mk_list(vec![(lbl("b"), nlit(3).eval_closed_expr()), (lbl("c"), nlit(4).eval_closed_expr())]);
    let shared = dhall::maps::intersection_with_key(BinOp::RecursiveRecordMerge, &m1, &m2);
    match &shared {
        List::Cons((k, _), rest) => {
            assert_eq!(dhall::syntax::bytes_to_vec(&k.bytes), b"b".to_vec());
            assert!(matches!(&**rest, List::Nil));
        }
        _ => panic!("one shared key was expected"),
    }
}

#[test]
fn empty_projection_is_the_empty_record() {
    let e = te(ExprKind::Projection(record(vec![("a", nlit(1))]), List::Nil));
    let expected = te(ExprKind::RecordLit(List::Nil));
    assert!(norms_equal(&e, &expected));
}
