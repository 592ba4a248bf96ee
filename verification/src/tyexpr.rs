//! Typed expressions: the post-elaboration tree handed to the evaluator.
//! Each node carries either an inferred type or no type (permitted only for
//! the top sort), and every variable is an alpha-normalized de Bruijn index.
use vstd::prelude::*;

use crate::syntax::{ExprKind, InterpolatedTextContents, Label, List, Span, V};
use crate::value::{Env, Value};

verus! {

/// The type of a typed expression is itself a value.
pub type Type = Value;

/// Stores an alpha-normalized variable: a pure de Bruijn index, produced by
/// elaboration. All variable equality in the evaluator is on this index.
#[derive(Clone, Copy, PartialEq, Eq, Structural, Debug)]
pub struct AlphaVar {
    pub idx: usize,
}

impl AlphaVar {
    pub fn new(idx: usize) -> (r: Self)
        ensures
            r.idx == idx,
    {
        AlphaVar { idx }
    }

    pub fn idx(&self) -> (r: usize)
        ensures
            r == self.idx,
    {
        self.idx
    }

    /// The index, for contracts.
    pub open spec fn index(self) -> usize {
        self.idx
    }
}

/// The head of a typed expression. Variable nodes are alpha-normalized;
/// the surface `Var`, which the general expression shape still offers,
/// stays a stuck neutral if it ever reaches the evaluator.
#[derive(Debug)]
pub enum TyExprKind {
    Var(AlphaVar),
    Expr(ExprKind<TyExpr>),
}

/// An expression with an inferred type at every node and resolved variables.
#[derive(Debug)]
pub struct TyExpr {
    pub kind: Box<TyExprKind>,
    pub ty: Option<Type>,
    pub span: Span,
}

pub fn clone_opt_ty(o: &Option<TyExpr>) -> (r: Option<TyExpr>)
    ensures
        r == *o,
    decreases o,
{
    match o {
        Option::None => Option::None,
        Option::Some(e) => Option::Some(e.clone()),
    }
}

pub fn clone_ty_list(l: &List<TyExpr>) -> (r: List<TyExpr>)
    ensures
        r == *l,
    decreases l,
{
    match l {
        List::Nil => List::Nil,
        List::Cons(x, rest) => List::Cons(x.clone(), Box::new(clone_ty_list(&**rest))),
    }
}

pub fn clone_ty_entries(l: &List<(Label, TyExpr)>) -> (r: List<(Label, TyExpr)>)
    ensures
        r == *l,
    decreases l,
{
    match l {
        List::Nil => List::Nil,
        List::Cons((k, x), rest) => List::Cons(
            (k.clone(), x.clone()),
            Box::new(clone_ty_entries(&**rest)),
        ),
    }
}

pub fn clone_ty_alts(l: &List<(Label, Option<TyExpr>)>) -> (r: List<(Label, Option<TyExpr>)>)
    ensures
        r == *l,
    decreases l,
{
    match l {
        List::Nil => List::Nil,
        List::Cons((k, x), rest) => List::Cons(
            (k.clone(), clone_opt_ty(x)),
            Box::new(clone_ty_alts(&**rest)),
        ),
    }
}

pub fn clone_ty_chunks(l: &List<InterpolatedTextContents<TyExpr>>) -> (r: List<
    InterpolatedTextContents<TyExpr>,
>)
    ensures
        r == *l,
    decreases l,
{
    match l {
        List::Nil => List::Nil,
        List::Cons(c, rest) => List::Cons(
            match c {
                InterpolatedTextContents::Text(s) => InterpolatedTextContents::Text(
                    crate::syntax::clone_bytes(s),
                ),
                InterpolatedTextContents::Expr(e) => InterpolatedTextContents::Expr(e.clone()),
            },
            Box::new(clone_ty_chunks(&**rest)),
        ),
    }
}

pub fn clone_ty_expr_kind(e: &ExprKind<TyExpr>) -> (r: ExprKind<TyExpr>)
    ensures
        r == *e,
    decreases e,
{
    match e {
        ExprKind::Var(v) => ExprKind::Var(v.clone()),
        ExprKind::Const(c) => ExprKind::Const(*c),
        ExprKind::Builtin(b) => ExprKind::Builtin(*b),
        ExprKind::BoolLit(b) => ExprKind::BoolLit(*b),
        ExprKind::NaturalLit(n) => ExprKind::NaturalLit(*n),
        ExprKind::IntegerLit(n) => ExprKind::IntegerLit(*n),
        ExprKind::DoubleLit(n) => ExprKind::DoubleLit(*n),
        ExprKind::TextLit(chunks) => ExprKind::TextLit(clone_ty_chunks(chunks)),
        ExprKind::Lam(x, t, b) => ExprKind::Lam(x.clone(), t.clone(), b.clone()),
        ExprKind::Pi(x, t, b) => ExprKind::Pi(x.clone(), t.clone(), b.clone()),
        ExprKind::Let(x, ann, v, b) => ExprKind::Let(
            x.clone(),
            clone_opt_ty(ann),
            v.clone(),
            b.clone(),
        ),
        ExprKind::App(f, a) => ExprKind::App(f.clone(), a.clone()),
        ExprKind::Annot(x, t) => ExprKind::Annot(x.clone(), t.clone()),
        ExprKind::Assert(t) => ExprKind::Assert(t.clone()),
        ExprKind::BoolIf(b, e1, e2) => ExprKind::BoolIf(b.clone(), e1.clone(), e2.clone()),
        ExprKind::BinOp(o, x, y) => ExprKind::BinOp(*o, x.clone(), y.clone()),
        ExprKind::EmptyListLit(t) => ExprKind::EmptyListLit(t.clone()),
        ExprKind::NEListLit(xs) => ExprKind::NEListLit(clone_ty_list(xs)),
        ExprKind::SomeLit(x) => ExprKind::SomeLit(x.clone()),
        ExprKind::RecordType(kts) => ExprKind::RecordType(clone_ty_entries(kts)),
        ExprKind::RecordLit(kvs) => ExprKind::RecordLit(clone_ty_entries(kvs)),
        ExprKind::UnionType(kts) => ExprKind::UnionType(clone_ty_alts(kts)),
        ExprKind::Field(x, l) => ExprKind::Field(x.clone(), l.clone()),
        ExprKind::Projection(x, ls) => ExprKind::Projection(
            x.clone(),
            crate::syntax::clone_labels(ls),
        ),
        ExprKind::Merge(h, v, t) => ExprKind::Merge(h.clone(), v.clone(), clone_opt_ty(t)),
    }
}

pub fn clone_tyexpr_kind(k: &TyExprKind) -> (r: TyExprKind)
    ensures
        r == *k,
    decreases k,
{
    match k {
        TyExprKind::Var(v) => TyExprKind::Var(*v),
        TyExprKind::Expr(e) => TyExprKind::Expr(clone_ty_expr_kind(e)),
    }
}

impl Clone for TyExpr {
    fn clone(&self) -> (r: Self)
        ensures
            r == *self,
        decreases self,
    {
        TyExpr {
            kind: Box::new(clone_tyexpr_kind(&*self.kind)),
            ty: crate::value::clone_opt_value(&self.ty),
            span: self.span,
        }
    }
}

/// A surface-style expression, as produced when a typed expression is
/// printed back: variables carry names again.
#[derive(Debug)]
pub struct Expr {
    pub kind: Box<ExprNode>,
    pub span: Span,
}

/// The head of a surface expression: a resolved variable or any other
/// construct.
#[derive(Debug)]
pub enum ExprNode {
    Var(V),
    Expr(ExprKind<Expr>),
}

/// Options for the conversion back to a surface expression.
#[derive(Clone, Copy)]
pub struct ToExprOptions {
    /// Whether to normalize the expression (directs callers that print
    /// values; the conversion of an already-typed tree keeps it as it is).
    pub normalize: bool,
    /// Whether to rewrite all binders and variables to the placeholder
    /// name: a pure de Bruijn presentation.
    pub alpha: bool,
}

/// What the conversion needs of a typing environment: the names of the
/// enclosing binders, innermost first.
pub struct TyEnv {
    pub names: List<Label>,
}

/// The placeholder name.
pub open spec fn s_underscore() -> Label {
    Label { bytes: List::Cons(95u8, Box::new(List::Nil)) }
}

fn underscore() -> (r: Label)
    ensures
        r == s_underscore(),
{
    Label { bytes: List::Cons(95u8, Box::new(List::Nil)) }
}

/// The binder name an index refers to, if the environment reaches it.
pub open spec fn s_name_at(names: List<Label>, idx: usize) -> Option<Label>
    decreases names,
{
    match names {
        List::Nil => Option::None,
        List::Cons(l, rest) => if idx == 0 {
            Option::Some(l)
        } else {
            s_name_at(*rest, (idx - 1) as usize)
        },
    }
}

/// How many binders closer in than `idx` carry the given name.
pub open spec fn s_count_eq(names: List<Label>, idx: usize, target: Label) -> nat
    decreases names,
{
    if idx == 0 {
        0
    } else {
        match names {
            List::Nil => 0,
            List::Cons(l, rest) => (if l == target {
                1nat
            } else {
                0nat
            }) + s_count_eq(*rest, (idx - 1) as usize, target),
        }
    }
}

proof fn lemma_count_le(names: List<Label>, idx: usize, target: Label)
    ensures
        s_count_eq(names, idx, target) <= idx,
    decreases names,
{
    if idx != 0 {
        match names {
            List::Nil => {},
            List::Cons(l, rest) => {
                lemma_count_le(*rest, (idx - 1) as usize, target);
            },
        }
    }
}

/// The surface variable an alpha-normalized index prints as: under the
/// placeholder option a pure index; otherwise the binder's name with the
/// count of closer binders of the same name. An index beyond the
/// environment keeps its number under the placeholder name.
pub open spec fn s_var_of(idx: usize, alpha: bool, names: List<Label>) -> V {
    if alpha {
        V { name: s_underscore(), idx }
    } else {
        match s_name_at(names, idx) {
            Option::Some(l) => V { name: l, idx: s_count_eq(names, idx, l) as usize },
            Option::None => V { name: s_underscore(), idx },
        }
    }
}

fn name_at(names: &List<Label>, idx: usize) -> (r: Option<Label>)
    ensures
        r == s_name_at(*names, idx),
    decreases *names,
{
    match names {
        List::Nil => Option::None,
        List::Cons(l, rest) => if idx == 0 {
            Option::Some(l.clone())
        } else {
            name_at(&**rest, idx - 1)
        },
    }
}

fn count_eq(names: &List<Label>, idx: usize, target: &Label) -> (r: usize)
    ensures
        r == s_count_eq(*names, idx, *target),
    decreases *names,
{
    proof {
        lemma_count_le(*names, idx, *target);
    }
    if idx == 0 {
        0
    } else {
        match names {
            List::Nil => 0,
            List::Cons(l, rest) => {
                let tail = count_eq(&**rest, idx - 1, target);
                if crate::syntax::label_eq(l, target) {
                    tail + 1
                } else {
                    tail
                }
            },
        }
    }
}

fn var_of(idx: usize, alpha: bool, names: &List<Label>) -> (r: V)
    ensures
        r == s_var_of(idx, alpha, *names),
{
    if alpha {
        V { name: underscore(), idx }
    } else {
        match name_at(names, idx) {
            Option::Some(l) => {
                let n = count_eq(names, idx, &l);
                V { name: l, idx: n }
            },
            Option::None => V { name: underscore(), idx },
        }
    }
}

/// Converts a typed expression back to a surface expression. Variables are
/// resolved against the binder names in scope; under the placeholder
/// option, lambda and function-type binders print as the placeholder.
pub open spec fn s_to_expr(t: TyExpr, alpha: bool, names: List<Label>) -> Expr
    decreases t, 1int,
{
    match *t.kind {
        TyExprKind::Var(a) => Expr {
            kind: Box::new(ExprNode::Var(s_var_of(a.idx, alpha, names))),
            span: Span::Artificial,
        },
        TyExprKind::Expr(ek) => Expr {
            kind: Box::new(ExprNode::Expr(s_to_expr_ek(ek, alpha, names))),
            span: Span::Artificial,
        },
    }
}

pub open spec fn s_to_expr_list(l: List<TyExpr>, alpha: bool, names: List<Label>) -> List<Expr>
    decreases l, 1int,
{
    match l {
        List::Nil => List::Nil,
        List::Cons(x, rest) => List::Cons(
            s_to_expr(x, alpha, names),
            Box::new(s_to_expr_list(*rest, alpha, names)),
        ),
    }
}

pub open spec fn s_to_expr_opt(o: Option<TyExpr>, alpha: bool, names: List<Label>) -> Option<Expr>
    decreases o, 1int,
{
    match o {
        Option::None => Option::None,
        Option::Some(x) => Option::Some(s_to_expr(x, alpha, names)),
    }
}

pub open spec fn s_to_expr_entries(l: List<(Label, TyExpr)>, alpha: bool, names: List<Label>)
    -> List<(Label, Expr)>
    decreases l, 1int,
{
    match l {
        List::Nil => List::Nil,
        List::Cons((k, x), rest) => List::Cons(
            (k, s_to_expr(x, alpha, names)),
            Box::new(s_to_expr_entries(*rest, alpha, names)),
        ),
    }
}

pub open spec fn s_to_expr_alts(l: List<(Label, Option<TyExpr>)>, alpha: bool, names: List<Label>)
    -> List<(Label, Option<Expr>)>
    decreases l, 1int,
{
    match l {
        List::Nil => List::Nil,
        List::Cons((k, x), rest) => List::Cons(
            (k, s_to_expr_opt(x, alpha, names)),
            Box::new(s_to_expr_alts(*rest, alpha, names)),
        ),
    }
}

pub open spec fn s_to_expr_chunks(
    l: List<InterpolatedTextContents<TyExpr>>,
    alpha: bool,
    names: List<Label>,
) -> List<InterpolatedTextContents<Expr>>
    decreases l, 1int,
{
    match l {
        List::Nil => List::Nil,
        List::Cons(c, rest) => List::Cons(
            match c {
                InterpolatedTextContents::Text(s) => InterpolatedTextContents::Text(s),
                InterpolatedTextContents::Expr(e) => InterpolatedTextContents::Expr(
                    s_to_expr(e, alpha, names),
                ),
            },
            Box::new(s_to_expr_chunks(*rest, alpha, names)),
        ),
    }
}

pub open spec fn s_to_expr_ek(ek: ExprKind<TyExpr>, alpha: bool, names: List<Label>) -> ExprKind<
    Expr,
>
    decreases ek, 2int,
{
    match ek {
        ExprKind::Var(v) => ExprKind::Var(v),
        ExprKind::Const(c) => ExprKind::Const(c),
        ExprKind::Builtin(b) => ExprKind::Builtin(b),
        ExprKind::BoolLit(b) => ExprKind::BoolLit(b),
        ExprKind::NaturalLit(n) => ExprKind::NaturalLit(n),
        ExprKind::IntegerLit(n) => ExprKind::IntegerLit(n),
        ExprKind::DoubleLit(n) => ExprKind::DoubleLit(n),
        ExprKind::TextLit(chunks) => ExprKind::TextLit(s_to_expr_chunks(chunks, alpha, names)),
        ExprKind::Lam(l, t, b) => ExprKind::Lam(
            if alpha {
                s_underscore()
            } else {
                l
            },
            s_to_expr(t, alpha, names),
            s_to_expr(b, alpha, List::Cons(l, Box::new(names))),
        ),
        ExprKind::Pi(l, t, b) => ExprKind::Pi(
            if alpha {
                s_underscore()
            } else {
                l
            },
            s_to_expr(t, alpha, names),
            s_to_expr(b, alpha, List::Cons(l, Box::new(names))),
        ),
        ExprKind::Let(l, ann, v, b) => ExprKind::Let(
            l,
            s_to_expr_opt(ann, alpha, names),
            s_to_expr(v, alpha, names),
            s_to_expr(b, alpha, List::Cons(l, Box::new(names))),
        ),
        ExprKind::App(f, a) => ExprKind::App(
            s_to_expr(f, alpha, names),
            s_to_expr(a, alpha, names),
        ),
        ExprKind::Annot(x, t) => ExprKind::Annot(
            s_to_expr(x, alpha, names),
            s_to_expr(t, alpha, names),
        ),
        ExprKind::Assert(t) => ExprKind::Assert(s_to_expr(t, alpha, names)),
        ExprKind::BoolIf(b, e1, e2) => ExprKind::BoolIf(
            s_to_expr(b, alpha, names),
            s_to_expr(e1, alpha, names),
            s_to_expr(e2, alpha, names),
        ),
        ExprKind::BinOp(o, x, y) => ExprKind::BinOp(
            o,
            s_to_expr(x, alpha, names),
            s_to_expr(y, alpha, names),
        ),
        ExprKind::EmptyListLit(t) => ExprKind::EmptyListLit(s_to_expr(t, alpha, names)),
        ExprKind::NEListLit(xs) => ExprKind::NEListLit(s_to_expr_list(xs, alpha, names)),
        ExprKind::SomeLit(x) => ExprKind::SomeLit(s_to_expr(x, alpha, names)),
        ExprKind::RecordType(kts) => ExprKind::RecordType(s_to_expr_entries(kts, alpha, names)),
        ExprKind::RecordLit(kvs) => ExprKind::RecordLit(s_to_expr_entries(kvs, alpha, names)),
        ExprKind::UnionType(kts) => ExprKind::UnionType(s_to_expr_alts(kts, alpha, names)),
        ExprKind::Field(x, l) => ExprKind::Field(s_to_expr(x, alpha, names), l),
        ExprKind::Projection(x, ls) => ExprKind::Projection(s_to_expr(x, alpha, names), ls),
        ExprKind::Merge(h, v, t) => ExprKind::Merge(
            s_to_expr(h, alpha, names),
            s_to_expr(v, alpha, names),
            s_to_expr_opt(t, alpha, names),
        ),
    }
}

fn to_expr_rec(t: &TyExpr, alpha: bool, names: &List<Label>) -> (r: Expr)
    ensures
        r == s_to_expr(*t, alpha, *names),
    decreases *t, 1int,
{
    match &*t.kind {
        TyExprKind::Var(a) => Expr {
            kind: Box::new(ExprNode::Var(var_of(a.idx(), alpha, names))),
            span: Span::Artificial,
        },
        TyExprKind::Expr(ek) => Expr {
            kind: Box::new(ExprNode::Expr(to_expr_ek(ek, alpha, names))),
            span: Span::Artificial,
        },
    }
}

fn to_expr_list(l: &List<TyExpr>, alpha: bool, names: &List<Label>) -> (r: List<Expr>)
    ensures
        r == s_to_expr_list(*l, alpha, *names),
    decreases *l, 1int,
{
    match l {
        List::Nil => List::Nil,
        List::Cons(x, rest) => List::Cons(
            to_expr_rec(x, alpha, names),
            Box::new(to_expr_list(&**rest, alpha, names)),
        ),
    }
}

fn to_expr_opt(o: &Option<TyExpr>, alpha: bool, names: &List<Label>) -> (r: Option<Expr>)
    ensures
        r == s_to_expr_opt(*o, alpha, *names),
    decreases *o, 1int,
{
    match o {
        Option::None => Option::None,
        Option::Some(x) => Option::Some(to_expr_rec(x, alpha, names)),
    }
}

fn to_expr_entries(l: &List<(Label, TyExpr)>, alpha: bool, names: &List<Label>) -> (r: List<
    (Label, Expr),
>)
    ensures
        r == s_to_expr_entries(*l, alpha, *names),
    decreases *l, 1int,
{
    match l {
        List::Nil => List::Nil,
        List::Cons((k, x), rest) => List::Cons(
            (k.clone(), to_expr_rec(x, alpha, names)),
            Box::new(to_expr_entries(&**rest, alpha, names)),
        ),
    }
}

fn to_expr_alts(l: &List<(Label, Option<TyExpr>)>, alpha: bool, names: &List<Label>) -> (r: List<
    (Label, Option<Expr>),
>)
    ensures
        r == s_to_expr_alts(*l, alpha, *names),
    decreases *l, 1int,
{
    match l {
        List::Nil => List::Nil,
        List::Cons((k, x), rest) => List::Cons(
            (k.clone(), to_expr_opt(x, alpha, names)),
            Box::new(to_expr_alts(&**rest, alpha, names)),
        ),
    }
}

fn to_expr_chunks(
    l: &List<InterpolatedTextContents<TyExpr>>,
    alpha: bool,
    names: &List<Label>,
) -> (r: List<InterpolatedTextContents<Expr>>)
    ensures
        r == s_to_expr_chunks(*l, alpha, *names),
    decreases *l, 1int,
{
    match l {
        List::Nil => List::Nil,
        List::Cons(c, rest) => List::Cons(
            match c {
                InterpolatedTextContents::Text(sfrag) => InterpolatedTextContents::Text(
                    crate::syntax::clone_bytes(sfrag),
                ),
                InterpolatedTextContents::Expr(e) => InterpolatedTextContents::Expr(
                    to_expr_rec(e, alpha, names),
                ),
            },
            Box::new(to_expr_chunks(&**rest, alpha, names)),
        ),
    }
}

fn to_expr_ek(ek: &ExprKind<TyExpr>, alpha: bool, names: &List<Label>) -> (r: ExprKind<Expr>)
    ensures
        r == s_to_expr_ek(*ek, alpha, *names),
    decreases *ek, 2int,
{
    match ek {
        ExprKind::Var(v) => ExprKind::Var(v.clone()),
        ExprKind::Const(c) => ExprKind::Const(*c),
        ExprKind::Builtin(b) => ExprKind::Builtin(*b),
        ExprKind::BoolLit(b) => ExprKind::BoolLit(*b),
        ExprKind::NaturalLit(n) => ExprKind::NaturalLit(*n),
        ExprKind::IntegerLit(n) => ExprKind::IntegerLit(*n),
        ExprKind::DoubleLit(n) => ExprKind::DoubleLit(*n),
        ExprKind::TextLit(chunks) => ExprKind::TextLit(to_expr_chunks(chunks, alpha, names)),
        ExprKind::Lam(l, t, b) => {
            let inner = List::Cons(l.clone(), Box::new(crate::syntax::clone_labels(names)));
            ExprKind::Lam(
                if alpha {
                    underscore()
                } else {
                    l.clone()
                },
                to_expr_rec(t, alpha, names),
                to_expr_rec(b, alpha, &inner),
            )
        },
        ExprKind::Pi(l, t, b) => {
            let inner = List::Cons(l.clone(), Box::new(crate::syntax::clone_labels(names)));
            ExprKind::Pi(
                if alpha {
                    underscore()
                } else {
                    l.clone()
                },
                to_expr_rec(t, alpha, names),
                to_expr_rec(b, alpha, &inner),
            )
        },
        ExprKind::Let(l, ann, v, b) => {
            let inner = List::Cons(l.clone(), Box::new(crate::syntax::clone_labels(names)));
            ExprKind::Let(
                l.clone(),
                to_expr_opt(ann, alpha, names),
                to_expr_rec(v, alpha, names),
                to_expr_rec(b, alpha, &inner),
            )
        },
        ExprKind::App(f, a) => ExprKind::App(
            to_expr_rec(f, alpha, names),
            to_expr_rec(a, alpha, names),
        ),
        ExprKind::Annot(x, t) => ExprKind::Annot(
            to_expr_rec(x, alpha, names),
            to_expr_rec(t, alpha, names),
        ),
        ExprKind::Assert(t) => ExprKind::Assert(to_expr_rec(t, alpha, names)),
        ExprKind::BoolIf(b, e1, e2) => ExprKind::BoolIf(
            to_expr_rec(b, alpha, names),
            to_expr_rec(e1, alpha, names),
            to_expr_rec(e2, alpha, names),
        ),
        ExprKind::BinOp(o, x, y) => ExprKind::BinOp(
            *o,
            to_expr_rec(x, alpha, names),
            to_expr_rec(y, alpha, names),
        ),
        ExprKind::EmptyListLit(t) => ExprKind::EmptyListLit(to_expr_rec(t, alpha, names)),
        ExprKind::NEListLit(xs) => ExprKind::NEListLit(to_expr_list(xs, alpha, names)),
        ExprKind::SomeLit(x) => ExprKind::SomeLit(to_expr_rec(x, alpha, names)),
        ExprKind::RecordType(kts) => ExprKind::RecordType(to_expr_entries(kts, alpha, names)),
        ExprKind::RecordLit(kvs) => ExprKind::RecordLit(to_expr_entries(kvs, alpha, names)),
        ExprKind::UnionType(kts) => ExprKind::UnionType(to_expr_alts(kts, alpha, names)),
        ExprKind::Field(x, l) => ExprKind::Field(to_expr_rec(x, alpha, names), l.clone()),
        ExprKind::Projection(x, ls) => ExprKind::Projection(
            to_expr_rec(x, alpha, names),
            crate::syntax::clone_labels(ls),
        ),
        ExprKind::Merge(h, v, t) => ExprKind::Merge(
            to_expr_rec(h, alpha, names),
            to_expr_rec(v, alpha, names),
            to_expr_opt(t, alpha, names),
        ),
    }
}

/// Converts a typed expression back to a surface expression, resolving
/// variables against the given binder names. The free function behind
/// both conversion methods.
pub fn tyexpr_to_expr(tyexpr: &TyExpr, opts: ToExprOptions, names: &List<Label>) -> (r: Expr)
    ensures
        r == s_to_expr(*tyexpr, opts.alpha, *names),
{
    to_expr_rec(tyexpr, opts.alpha, names)
}

/// A typed expression with binder names, type annotations and spans
/// erased: what evaluation reads. Renaming binders does not change it.
pub open spec fn s_erase(t: TyExpr) -> TyExpr
    decreases t, 1int,
{
    TyExpr {
        kind: Box::new(
            match *t.kind {
                TyExprKind::Var(a) => TyExprKind::Var(a),
                TyExprKind::Expr(ek) => TyExprKind::Expr(s_erase_ek(ek)),
            },
        ),
        ty: Option::None,
        span: Span::Artificial,
    }
}

pub open spec fn s_erase_list(l: List<TyExpr>) -> List<TyExpr>
    decreases l, 1int,
{
    match l {
        List::Nil => List::Nil,
        List::Cons(x, rest) => List::Cons(s_erase(x), Box::new(s_erase_list(*rest))),
    }
}

pub open spec fn s_erase_opt(o: Option<TyExpr>) -> Option<TyExpr>
    decreases o, 1int,
{
    match o {
        Option::None => Option::None,
        Option::Some(x) => Option::Some(s_erase(x)),
    }
}

pub open spec fn s_erase_entries(l: List<(Label, TyExpr)>) -> List<(Label, TyExpr)>
    decreases l, 1int,
{
    match l {
        List::Nil => List::Nil,
        List::Cons((k, x), rest) => List::Cons((k, s_erase(x)), Box::new(s_erase_entries(*rest))),
    }
}

pub open spec fn s_erase_alts(l: List<(Label, Option<TyExpr>)>) -> List<(Label, Option<TyExpr>)>
    decreases l, 1int,
{
    match l {
        List::Nil => List::Nil,
        List::Cons((k, x), rest) => List::Cons(
            (k, s_erase_opt(x)),
            Box::new(s_erase_alts(*rest)),
        ),
    }
}

pub open spec fn s_erase_chunks(l: List<InterpolatedTextContents<TyExpr>>) -> List<
    InterpolatedTextContents<TyExpr>,
>
    decreases l, 1int,
{
    match l {
        List::Nil => List::Nil,
        List::Cons(c, rest) => List::Cons(
            match c {
                InterpolatedTextContents::Text(s) => InterpolatedTextContents::Text(s),
                InterpolatedTextContents::Expr(e) => InterpolatedTextContents::Expr(s_erase(e)),
            },
            Box::new(s_erase_chunks(*rest)),
        ),
    }
}

pub open spec fn s_erase_ek(ek: ExprKind<TyExpr>) -> ExprKind<TyExpr>
    decreases ek, 2int,
{
    match ek {
        ExprKind::Var(v) => ExprKind::Var(v),
        ExprKind::Const(c) => ExprKind::Const(c),
        ExprKind::Builtin(b) => ExprKind::Builtin(b),
        ExprKind::BoolLit(b) => ExprKind::BoolLit(b),
        ExprKind::NaturalLit(n) => ExprKind::NaturalLit(n),
        ExprKind::IntegerLit(n) => ExprKind::IntegerLit(n),
        ExprKind::DoubleLit(n) => ExprKind::DoubleLit(n),
        ExprKind::TextLit(chunks) => ExprKind::TextLit(s_erase_chunks(chunks)),
        ExprKind::Lam(_, t, b) => ExprKind::Lam(
            Label { bytes: List::Nil },
            s_erase(t),
            s_erase(b),
        ),
        ExprKind::Pi(_, t, b) => ExprKind::Pi(Label { bytes: List::Nil }, s_erase(t), s_erase(b)),
        ExprKind::Let(_, ann, v, b) => ExprKind::Let(
            Label { bytes: List::Nil },
            s_erase_opt(ann),
            s_erase(v),
            s_erase(b),
        ),
        ExprKind::App(f, a) => ExprKind::App(s_erase(f), s_erase(a)),
        ExprKind::Annot(x, t) => ExprKind::Annot(s_erase(x), s_erase(t)),
        ExprKind::Assert(t) => ExprKind::Assert(s_erase(t)),
        ExprKind::BoolIf(b, e1, e2) => ExprKind::BoolIf(s_erase(b), s_erase(e1), s_erase(e2)),
        ExprKind::BinOp(o, x, y) => ExprKind::BinOp(o, s_erase(x), s_erase(y)),
        ExprKind::EmptyListLit(t) => ExprKind::EmptyListLit(s_erase(t)),
        ExprKind::NEListLit(xs) => ExprKind::NEListLit(s_erase_list(xs)),
        ExprKind::SomeLit(x) => ExprKind::SomeLit(s_erase(x)),
        ExprKind::RecordType(kts) => ExprKind::RecordType(s_erase_entries(kts)),
        ExprKind::RecordLit(kvs) => ExprKind::RecordLit(s_erase_entries(kvs)),
        ExprKind::UnionType(kts) => ExprKind::UnionType(s_erase_alts(kts)),
        ExprKind::Field(x, l) => ExprKind::Field(s_erase(x), l),
        ExprKind::Projection(x, ls) => ExprKind::Projection(s_erase(x), ls),
        ExprKind::Merge(h, v, t) => ExprKind::Merge(s_erase(h), s_erase(v), s_erase_opt(t)),
    }
}

fn erase(t: &TyExpr) -> (r: TyExpr)
    ensures
        r == s_erase(*t),
    decreases *t, 1int,
{
    TyExpr {
        kind: Box::new(
            match &*t.kind {
                TyExprKind::Var(a) => TyExprKind::Var(*a),
                TyExprKind::Expr(ek) => TyExprKind::Expr(erase_ek(ek)),
            },
        ),
        ty: Option::None,
        span: Span::Artificial,
    }
}

fn erase_list(l: &List<TyExpr>) -> (r: List<TyExpr>)
    ensures
        r == s_erase_list(*l),
    decreases *l, 1int,
{
    match l {
        List::Nil => List::Nil,
        List::Cons(x, rest) => List::Cons(erase(x), Box::new(erase_list(&**rest))),
    }
}

fn erase_opt(o: &Option<TyExpr>) -> (r: Option<TyExpr>)
    ensures
        r == s_erase_opt(*o),
    decreases *o, 1int,
{
    match o {
        Option::None => Option::None,
        Option::Some(x) => Option::Some(erase(x)),
    }
}

fn erase_entries(l: &List<(Label, TyExpr)>) -> (r: List<(Label, TyExpr)>)
    ensures
        r == s_erase_entries(*l),
    decreases *l, 1int,
{
    match l {
        List::Nil => List::Nil,
        List::Cons((k, x), rest) => List::Cons(
            (k.clone(), erase(x)),
            Box::new(erase_entries(&**rest)),
        ),
    }
}

fn erase_alts(l: &List<(Label, Option<TyExpr>)>) -> (r: List<(Label, Option<TyExpr>)>)
    ensures
        r == s_erase_alts(*l),
    decreases *l, 1int,
{
    match l {
        List::Nil => List::Nil,
        List::Cons((k, x), rest) => List::Cons(
            (k.clone(), erase_opt(x)),
            Box::new(erase_alts(&**rest)),
        ),
    }
}

fn erase_chunks(l: &List<InterpolatedTextContents<TyExpr>>) -> (r: List<
    InterpolatedTextContents<TyExpr>,
>)
    ensures
        r == s_erase_chunks(*l),
    decreases *l, 1int,
{
    match l {
        List::Nil => List::Nil,
        List::Cons(c, rest) => List::Cons(
            match c {
                InterpolatedTextContents::Text(sfrag) => InterpolatedTextContents::Text(
                    crate::syntax::clone_bytes(sfrag),
                ),
                InterpolatedTextContents::Expr(e) => InterpolatedTextContents::Expr(erase(e)),
            },
            Box::new(erase_chunks(&**rest)),
        ),
    }
}

fn erase_ek(ek: &ExprKind<TyExpr>) -> (r: ExprKind<TyExpr>)
    ensures
        r == s_erase_ek(*ek),
    decreases *ek, 2int,
{
    match ek {
        ExprKind::Var(v) => ExprKind::Var(v.clone()),
        ExprKind::Const(c) => ExprKind::Const(*c),
        ExprKind::Builtin(b) => ExprKind::Builtin(*b),
        ExprKind::BoolLit(b) => ExprKind::BoolLit(*b),
        ExprKind::NaturalLit(n) => ExprKind::NaturalLit(*n),
        ExprKind::IntegerLit(n) => ExprKind::IntegerLit(*n),
        ExprKind::DoubleLit(n) => ExprKind::DoubleLit(*n),
        ExprKind::TextLit(chunks) => ExprKind::TextLit(erase_chunks(chunks)),
        ExprKind::Lam(_, t, b) => ExprKind::Lam(Label { bytes: List::Nil }, erase(t), erase(b)),
        ExprKind::Pi(_, t, b) => ExprKind::Pi(Label { bytes: List::Nil }, erase(t), erase(b)),
        ExprKind::Let(_, ann, v, b) => ExprKind::Let(
            Label { bytes: List::Nil },
            erase_opt(ann),
            erase(v),
            erase(b),
        ),
        ExprKind::App(f, a) => ExprKind::App(erase(f), erase(a)),
        ExprKind::Annot(x, t) => ExprKind::Annot(erase(x), erase(t)),
        ExprKind::Assert(t) => ExprKind::Assert(erase(t)),
        ExprKind::BoolIf(b, e1, e2) => ExprKind::BoolIf(erase(b), erase(e1), erase(e2)),
        ExprKind::BinOp(o, x, y) => ExprKind::BinOp(*o, erase(x), erase(y)),
        ExprKind::EmptyListLit(t) => ExprKind::EmptyListLit(erase(t)),
        ExprKind::NEListLit(xs) => ExprKind::NEListLit(erase_list(xs)),
        ExprKind::SomeLit(x) => ExprKind::SomeLit(erase(x)),
        ExprKind::RecordType(kts) => ExprKind::RecordType(erase_entries(kts)),
        ExprKind::RecordLit(kvs) => ExprKind::RecordLit(erase_entries(kvs)),
        ExprKind::UnionType(kts) => ExprKind::UnionType(erase_alts(kts)),
        ExprKind::Field(x, l) => ExprKind::Field(erase(x), l.clone()),
        ExprKind::Projection(x, ls) => ExprKind::Projection(
            erase(x),
            crate::syntax::clone_labels(ls),
        ),
        ExprKind::Merge(h, v, t) => ExprKind::Merge(erase(h), erase(v), erase_opt(t)),
    }
}

impl TyExpr {
    pub fn new(kind: TyExprKind, ty: Option<Type>, span: Span) -> (r: Self)
        ensures
            r == (TyExpr { kind: Box::new(kind), ty, span }),
    {
        TyExpr { kind: Box::new(kind), ty, span }
    }

    pub fn kind(&self) -> (r: &TyExprKind)
        ensures
            r == &*self.kind,
    {
        &*self.kind
    }

    pub fn span(&self) -> (r: Span)
        ensures
            r == self.span,
    {
        self.span
    }

    /// The type the node carries; the error when it carries none, which is
    /// permitted only for the top sort.
    pub fn get_type(&self) -> (r: Result<Type, crate::error::TypeError>)
        ensures
            match self.ty {
                Option::Some(t) => r == Result::<Type, crate::error::TypeError>::Ok(t),
                Option::None => r is Err && (r->Err_0).message is Sort,
            },
    {
        match &self.ty {
            Option::Some(t) => Result::Ok(t.clone()),
            Option::None => Result::Err(
                crate::error::TypeError::new(crate::error::TypeMessage::Sort),
            ),
        }
    }

    /// Converts the expression back to a surface expression.
    pub fn to_expr(&self, opts: ToExprOptions) -> (r: Expr)
        ensures
            r == s_to_expr(*self, opts.alpha, List::Nil),
    {
        tyexpr_to_expr(self, opts, &List::Nil)
    }

    /// Converts the expression back to a surface expression, resolving
    /// variables against the binder names of a typing environment.
    pub fn to_expr_tyenv(&self, env: &TyEnv) -> (r: Expr)
        ensures
            r == s_to_expr(*self, false, env.names),
    {
        let opts = ToExprOptions { normalize: true, alpha: false };
        tyexpr_to_expr(self, opts, &env.names)
    }

    /// Evaluates the expression: builds a thunk over the environment, with
    /// binder names, type annotations and spans erased. Work happens only
    /// when the thunk is forced.
    pub fn eval(&self, env: &Env) -> (r: Value)
        ensures
            r == Value::Thunk(Box::new(*env), Box::new(s_erase(*self))),
    {
        Value::Thunk(Box::new(env.clone()), Box::new(erase(self)))
    }

    /// Evaluates a closed expression (one without free variables).
    pub fn eval_closed_expr(&self) -> (r: Value)
        ensures
            r == Value::Thunk(
                Box::new(Env { items: List::Nil }),
                Box::new(s_erase(*self)),
            ),
    {
        self.eval(&Env { items: List::Nil })
    }

    /// Evaluates a closed expression fully and recursively: the result,
    /// when the fuel suffices, is the normal form.
    pub fn rec_eval_closed_expr(&self, fuel: u64) -> (r: Option<Value>)
        ensures
            r == crate::normalize::s_normalize(
                Value::Thunk(Box::new(Env { items: List::Nil }), Box::new(s_erase(*self))),
                fuel,
            ),
    {
        let val = self.eval_closed_expr();
        val.normalize(fuel)
    }
}

} // verus!
