//! Term representation: labels, constants, built-in names, binary operators,
//! and the expression shape shared by surface expressions, typed expressions
//! and partially reduced values.
use vstd::prelude::*;

verus! {

/// A simple cons list. The evaluator's data is held in such lists so that
/// equality of terms and values is plain structural equality.
#[derive(Debug)]
pub enum List<T> {
    Nil,
    Cons(T, Box<List<T>>),
}

/// The sequence a list holds, for contracts.
pub open spec fn lseq<T>(l: List<T>) -> Seq<T>
    decreases l,
{
    match l {
        List::Nil => Seq::empty(),
        List::Cons(x, rest) => seq![x] + lseq(*rest),
    }
}

/// One list followed by another.
pub open spec fn lappend<T>(a: List<T>, b: List<T>) -> List<T>
    decreases a,
{
    match a {
        List::Nil => b,
        List::Cons(x, rest) => List::Cons(x, Box::new(lappend(*rest, b))),
    }
}

/// Appends two lists.
pub fn append<T>(a: List<T>, b: List<T>) -> (r: List<T>)
    ensures
        r == lappend(a, b),
    decreases a,
{
    match a {
        List::Nil => b,
        List::Cons(x, rest) => List::Cons(x, Box::new(append(*rest, b))),
    }
}

/// Number of entries in a list.
pub open spec fn llen<T>(l: List<T>) -> nat
    decreases l,
{
    match l {
        List::Nil => 0,
        List::Cons(_, rest) => 1 + llen(*rest),
    }
}

/// An identifier used for binders and record / union keys, as UTF-8 bytes.
/// Equality is structural.
#[derive(Debug)]
pub struct Label {
    pub bytes: List<u8>,
}

/// A surface variable: a name plus a de Bruijn index counting enclosing
/// binders of the same name (0 is the innermost).
#[derive(Debug)]
pub struct V {
    pub name: Label,
    pub idx: usize,
}

/// The sort hierarchy.
#[derive(Clone, Copy, PartialEq, Eq, Structural, Debug)]
pub enum Const {
    Type,
    Kind,
    Sort,
}

/// The fixed set of primitive types and functions.
#[derive(Clone, Copy, PartialEq, Eq, Structural, Debug)]
pub enum Builtin {
    Bool,
    Natural,
    Integer,
    Double,
    Text,
    List,
    Optional,
    OptionalNone,
    NaturalBuild,
    NaturalFold,
    NaturalIsZero,
    NaturalEven,
    NaturalOdd,
    NaturalToInteger,
    NaturalShow,
    NaturalSubtract,
    IntegerToDouble,
    IntegerShow,
    DoubleShow,
    ListBuild,
    ListFold,
    ListLength,
    ListHead,
    ListLast,
    ListIndexed,
    ListReverse,
    OptionalFold,
    OptionalBuild,
    TextShow,
}

/// Binary operators.
#[derive(Clone, Copy, PartialEq, Eq, Structural, Debug)]
pub enum BinOp {
    BoolAnd,
    BoolOr,
    BoolEQ,
    BoolNE,
    NaturalPlus,
    NaturalTimes,
    ListAppend,
    TextAppend,
    RightBiasedRecordMerge,
    RecursiveRecordMerge,
    RecursiveRecordTypeMerge,
    Equivalence,
}

/// Where a node came from in a source file, if anywhere.
#[derive(Clone, Copy, PartialEq, Eq, Structural, Debug)]
pub enum Span {
    /// Byte range in some source text.
    Bytes(usize, usize),
    /// Node made by the implementation itself.
    Artificial,
}

/// One chunk of an interpolated text literal: either a literal fragment
/// (UTF-8 bytes) or a spliced subexpression.
#[derive(Debug)]
pub enum InterpolatedTextContents<E> {
    Text(List<u8>),
    Expr(E),
}

/// The shape of an expression, parameterized by the recursive child type.
/// Import and Embed nodes never reach the evaluation core: the resolver
/// erases them, so this representation has no constructors for them.
#[derive(Debug)]
pub enum ExprKind<E> {
    /// A surface variable. Typed expressions hold their variables outside
    /// of this shape, as alpha-normalized indices.
    Var(V),
    Const(Const),
    Builtin(Builtin),
    BoolLit(bool),
    NaturalLit(u64),
    IntegerLit(i64),
    /// An IEEE-754 binary64 number held as its raw bits, so that equality
    /// is bit-exact (NaN is not NaN-collapsed, 0 and -0 differ).
    DoubleLit(u64),
    TextLit(List<InterpolatedTextContents<E>>),
    /// Lambda abstraction: binder name, argument type, body (binds index 0).
    Lam(Label, E, E),
    /// Dependent function type: binder name, domain, codomain (binds index 0).
    Pi(Label, E, E),
    /// Single let binding: name, optional annotation, bound value, body.
    Let(Label, Option<E>, E, E),
    App(E, E),
    Annot(E, E),
    Assert(E),
    BoolIf(E, E, E),
    BinOp(BinOp, E, E),
    /// An empty list, annotated with the type of the whole list.
    EmptyListLit(E),
    NEListLit(List<E>),
    SomeLit(E),
    RecordType(List<(Label, E)>),
    RecordLit(List<(Label, E)>),
    UnionType(List<(Label, Option<E>)>),
    Field(E, Label),
    Projection(E, List<Label>),
    /// Pattern match a union against a record of handlers, with an optional
    /// type annotation.
    Merge(E, E, Option<E>),
}

/// Byte list equality, for labels and text fragments.
pub fn bytes_eq(a: &List<u8>, b: &List<u8>) -> (r: bool)
    ensures
        r == (*a == *b),
    decreases a,
{
    match (a, b) {
        (List::Nil, List::Nil) => true,
        (List::Cons(x, ar), List::Cons(y, br)) => *x == *y && bytes_eq(&**ar, &**br),
        _ => false,
    }
}

/// Label equality, structural on the bytes.
pub fn label_eq(a: &Label, b: &Label) -> (r: bool)
    ensures
        r == (*a == *b),
{
    bytes_eq(&a.bytes, &b.bytes)
}

pub fn clone_bytes(l: &List<u8>) -> (r: List<u8>)
    ensures
        r == *l,
    decreases l,
{
    match l {
        List::Nil => List::Nil,
        List::Cons(x, rest) => List::Cons(*x, Box::new(clone_bytes(&**rest))),
    }
}

impl Clone for Label {
    fn clone(&self) -> (r: Self)
        ensures
            r == *self,
    {
        Label { bytes: clone_bytes(&self.bytes) }
    }
}

impl Clone for V {
    fn clone(&self) -> (r: Self)
        ensures
            r == *self,
    {
        V { name: self.name.clone(), idx: self.idx }
    }
}

pub fn clone_labels(l: &List<Label>) -> (r: List<Label>)
    ensures
        r == *l,
    decreases l,
{
    match l {
        List::Nil => List::Nil,
        List::Cons(x, rest) => List::Cons(x.clone(), Box::new(clone_labels(&**rest))),
    }
}

impl Label {
    /// Builds a label from a byte vector, for callers that hold names as
    /// ordinary strings or byte strings.
    pub fn from_bytes(v: &Vec<u8>) -> (r: Label)
        ensures
            lseq(r.bytes) == v@,
    {
        Label { bytes: bytes_from_vec(v) }
    }
}

/// Builds a list from a byte vector.
pub fn bytes_from_vec(v: &Vec<u8>) -> (r: List<u8>)
    ensures
        lseq(r) == v@,
{
    bytes_from_vec_at(v, 0)
}

fn bytes_from_vec_at(v: &Vec<u8>, i: usize) -> (r: List<u8>)
    requires
        i <= v@.len(),
    ensures
        lseq(r) == v@.skip(i as int),
    decreases v@.len() - i,
{
    if i == v.len() {
        proof {
            assert(lseq::<u8>(List::Nil) =~= v@.skip(i as int));
        }
        List::Nil
    } else {
        let rest = bytes_from_vec_at(v, i + 1);
        proof {
            assert(seq![v@[i as int]] + v@.skip(i + 1) =~= v@.skip(i as int));
        }
        List::Cons(v[i], Box::new(rest))
    }
}

/// Turns a byte list back into a vector, for callers that want to read a
/// name or a text fragment out of the library.
pub fn bytes_to_vec(l: &List<u8>) -> (r: Vec<u8>)
    ensures
        r@ == lseq(*l),
{
    let mut out: Vec<u8> = Vec::new();
    bytes_push(l, &mut out);
    proof {
        assert(out@ =~= lseq(*l));
    }
    out
}

fn bytes_push(l: &List<u8>, out: &mut Vec<u8>)
    ensures
        final(out)@ == old(out)@ + lseq(*l),
    decreases l,
{
    match l {
        List::Nil => {
            proof {
                assert(out@ =~= out@ + lseq::<u8>(List::Nil));
            }
        },
        List::Cons(x, rest) => {
            out.push(*x);
            bytes_push(&**rest, out);
            proof {
                assert(out@ =~= old(out)@ + lseq(*l));
            }
        },
    }
}

} // verus!
