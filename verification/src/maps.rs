//! Record fields, record-type fields and union alternatives are mappings
//! from label to value with unique keys, held as entry lists. Iteration
//! order is irrelevant for equality but stable: these operations keep the
//! order in which entries were first made.
use vstd::prelude::*;

use crate::syntax::{BinOp, ExprKind, Label, List};
use crate::value::{Value, ValueF};

verus! {

/// The mapping an entry list stands for. When a key repeats, the earliest
/// entry wins, matching lookup.
pub open spec fn record_map(l: List<(Label, Value)>) -> Map<Label, Value>
    decreases l,
{
    match l {
        List::Nil => Map::empty(),
        List::Cons((k, v), rest) => record_map(*rest).insert(k, v),
    }
}

/// First entry for a key, if any.
pub open spec fn s_record_get(l: List<(Label, Value)>, k: Label) -> Option<Value>
    decreases l,
{
    match l {
        List::Nil => Option::None,
        List::Cons((k2, v), rest) => if k2 == k {
            Option::Some(v)
        } else {
            s_record_get(*rest, k)
        },
    }
}

pub fn record_get(l: &List<(Label, Value)>, k: &Label) -> (r: Option<Value>)
    ensures
        r == s_record_get(*l, *k),
    decreases l,
{
    match l {
        List::Nil => Option::None,
        List::Cons((k2, v), rest) => if crate::syntax::label_eq(k2, k) {
            Option::Some(v.clone())
        } else {
            record_get(&**rest, k)
        },
    }
}

pub open spec fn s_contains_label(l: List<Label>, k: Label) -> bool
    decreases l,
{
    match l {
        List::Nil => false,
        List::Cons(k2, rest) => k2 == k || s_contains_label(*rest, k),
    }
}

pub fn contains_label(l: &List<Label>, k: &Label) -> (r: bool)
    ensures
        r == s_contains_label(*l, *k),
    decreases l,
{
    match l {
        List::Nil => false,
        List::Cons(k2, rest) => crate::syntax::label_eq(k2, k) || contains_label(&**rest, k),
    }
}

/// The labels of `ls` that also occur in `ms` and not in `seen`, in the
/// order of `ls`, counting a repeated label once.
pub open spec fn s_intersect_loop(ls: List<Label>, ms: List<Label>, seen: List<Label>) -> List<
    Label,
>
    decreases ls,
{
    match ls {
        List::Nil => List::Nil,
        List::Cons(k, rest) => if !s_contains_label(seen, k) && s_contains_label(ms, k) {
            List::Cons(k, Box::new(s_intersect_loop(*rest, ms, List::Cons(k, Box::new(seen)))))
        } else {
            s_intersect_loop(*rest, ms, seen)
        },
    }
}

/// The labels of `ls` that also occur in `ms`, in the order of `ls`,
/// without repetitions.
pub open spec fn s_intersect_labels(ls: List<Label>, ms: List<Label>) -> List<Label> {
    s_intersect_loop(ls, ms, List::Nil)
}

fn intersect_loop(ls: &List<Label>, ms: &List<Label>, seen: List<Label>) -> (r: List<Label>)
    ensures
        r == s_intersect_loop(*ls, *ms, seen),
    decreases ls,
{
    match ls {
        List::Nil => List::Nil,
        List::Cons(k, rest) => if !contains_label(&seen, k) && contains_label(ms, k) {
            let tail = intersect_loop(&**rest, ms, List::Cons(k.clone(), Box::new(seen)));
            List::Cons(k.clone(), Box::new(tail))
        } else {
            intersect_loop(&**rest, ms, seen)
        },
    }
}

pub fn intersect_labels(ls: &List<Label>, ms: &List<Label>) -> (r: List<Label>)
    ensures
        r == s_intersect_labels(*ls, *ms),
{
    intersect_loop(ls, ms, List::Nil)
}

/// Projects a record literal's entries to the given labels, skipping
/// labels already taken and labels the record lacks.
pub open spec fn s_project_loop(
    kvs: List<(Label, Value)>,
    ls: List<Label>,
    seen: List<Label>,
) -> List<(Label, Value)>
    decreases ls,
{
    match ls {
        List::Nil => List::Nil,
        List::Cons(k, rest) => if !s_contains_label(seen, k) {
            match s_record_get(kvs, k) {
                Option::Some(v) => List::Cons(
                    (k, v),
                    Box::new(s_project_loop(kvs, *rest, List::Cons(k, Box::new(seen)))),
                ),
                Option::None => s_project_loop(kvs, *rest, seen),
            }
        } else {
            s_project_loop(kvs, *rest, seen)
        },
    }
}

/// Projects a record literal's entries to the given labels: the result is
/// ordered by the label list, a repeated label counts once, and absent
/// labels are skipped.
pub open spec fn s_project_entries(kvs: List<(Label, Value)>, ls: List<Label>) -> List<
    (Label, Value),
> {
    s_project_loop(kvs, ls, List::Nil)
}

fn project_loop(kvs: &List<(Label, Value)>, ls: &List<Label>, seen: List<Label>) -> (r: List<
    (Label, Value),
>)
    ensures
        r == s_project_loop(*kvs, *ls, seen),
    decreases ls,
{
    match ls {
        List::Nil => List::Nil,
        List::Cons(k, rest) => if !contains_label(&seen, k) {
            match record_get(kvs, k) {
                Option::Some(v) => {
                    let tail = project_loop(kvs, &**rest, List::Cons(k.clone(), Box::new(seen)));
                    List::Cons((k.clone(), v), Box::new(tail))
                },
                Option::None => project_loop(kvs, &**rest, seen),
            }
        } else {
            project_loop(kvs, &**rest, seen)
        },
    }
}

pub fn project_entries(kvs: &List<(Label, Value)>, ls: &List<Label>) -> (r: List<(Label, Value)>)
    ensures
        r == s_project_entries(*kvs, *ls),
{
    project_loop(kvs, ls, List::Nil)
}

/// The recursive combination of two values that share a key: a pending
/// operator node, reduced when forced.
pub open spec fn s_combine(o: BinOp, v1: Value, v2: Value) -> Value {
    Value::Blocked(Box::new(ValueF::PartialExpr(Box::new(ExprKind::BinOp(o, v1, v2)))))
}

pub fn combine(o: BinOp, v1: Value, v2: Value) -> (r: Value)
    ensures
        r == s_combine(o, v1, v2),
{
    Value::Blocked(Box::new(ValueF::PartialExpr(Box::new(ExprKind::BinOp(o, v1, v2)))))
}

/// The entries of `l` whose keys are not in `seen`.
pub open spec fn s_restrict_away(l: List<(Label, Value)>, seen: List<Label>) -> List<
    (Label, Value),
>
    decreases l,
{
    match l {
        List::Nil => List::Nil,
        List::Cons((k, v), rest) => if s_contains_label(seen, k) {
            s_restrict_away(*rest, seen)
        } else {
            List::Cons((k, v), Box::new(s_restrict_away(*rest, seen)))
        },
    }
}

pub fn restrict_away(l: &List<(Label, Value)>, seen: &List<Label>) -> (r: List<(Label, Value)>)
    ensures
        r == s_restrict_away(*l, *seen),
    decreases l,
{
    match l {
        List::Nil => List::Nil,
        List::Cons((k, v), rest) => if contains_label(seen, k) {
            restrict_away(&**rest, seen)
        } else {
            List::Cons((k.clone(), v.clone()), Box::new(restrict_away(&**rest, seen)))
        },
    }
}

/// The union of two entry maps, walking `map2` with the keys already
/// emitted in `seen`, then appending what only `map1` holds.
pub open spec fn s_merge_loop(
    map1: List<(Label, Value)>,
    map2: List<(Label, Value)>,
    o: BinOp,
    seen: List<Label>,
) -> List<(Label, Value)>
    decreases map2,
{
    match map2 {
        List::Nil => s_restrict_away(map1, seen),
        List::Cons((k, v2), rest) => {
            let head = match s_record_get(map1, k) {
                Option::Some(v1) => (k, s_combine(o, v1, v2)),
                Option::None => (k, v2),
            };
            List::Cons(head, Box::new(s_merge_loop(map1, *rest, o, List::Cons(k, Box::new(seen)))))
        },
    }
}

/// The union of two entry maps. Keys of both maps combine to a pending `o`
/// node of both values; other keys keep their value. Entries come in the
/// order of `map2`, then the entries only `map1` has, as the right-biased
/// callers of this operation want them.
pub open spec fn s_merge_maps(map1: List<(Label, Value)>, map2: List<(Label, Value)>, o: BinOp)
    -> List<(Label, Value)> {
    s_merge_loop(map1, map2, o, List::Nil)
}

fn merge_loop(
    map1: &List<(Label, Value)>,
    map2: &List<(Label, Value)>,
    o: BinOp,
    seen: List<Label>,
) -> (r: List<(Label, Value)>)
    ensures
        r == s_merge_loop(*map1, *map2, o, seen),
    decreases map2,
{
    match map2 {
        List::Nil => restrict_away(map1, &seen),
        List::Cons((k, v2), rest) => {
            let head = match record_get(map1, k) {
                Option::Some(v1) => (k.clone(), combine(o, v1, v2.clone())),
                Option::None => (k.clone(), v2.clone()),
            };
            let tail = merge_loop(map1, &**rest, o, List::Cons(k.clone(), Box::new(seen)));
            List::Cons(head, Box::new(tail))
        },
    }
}

/// Merges two entry maps: keys of both combine to a pending `o` node (the
/// recursive record merges wrap a pending operator node around children
/// they cannot merge at once); keys of one side alone keep their value.
pub fn merge_maps(map1: &List<(Label, Value)>, map2: &List<(Label, Value)>, o: BinOp) -> (r: List<
    (Label, Value),
>)
    ensures
        r == s_merge_maps(*map1, *map2, o),
{
    merge_loop(map1, map2, o, List::Nil)
}

/// The keys two entry maps share, each combined to a pending `o` node of
/// the two values, in the order of the first map.
pub open spec fn s_intersection_with_key(
    o: BinOp,
    map1: List<(Label, Value)>,
    map2: List<(Label, Value)>,
) -> List<(Label, Value)>
    decreases map1,
{
    match map1 {
        List::Nil => List::Nil,
        List::Cons((k, v1), rest) => match s_record_get(map2, k) {
            Option::Some(v2) => List::Cons(
                (k, s_combine(o, v1, v2)),
                Box::new(s_intersection_with_key(o, *rest, map2)),
            ),
            Option::None => s_intersection_with_key(o, *rest, map2),
        },
    }
}

/// The intersection of two entry maps: the shared keys, each with the
/// combination of the values from both maps.
pub fn intersection_with_key(
    o: BinOp,
    map1: &List<(Label, Value)>,
    map2: &List<(Label, Value)>,
) -> (r: List<(Label, Value)>)
    ensures
        r == s_intersection_with_key(o, *map1, *map2),
    decreases map1,
{
    match map1 {
        List::Nil => List::Nil,
        List::Cons((k, v1), rest) => match record_get(map2, k) {
            Option::Some(v2) => List::Cons(
                (k.clone(), combine(o, v1.clone(), v2)),
                Box::new(intersection_with_key(o, &**rest, map2)),
            ),
            Option::None => intersection_with_key(o, &**rest, map2),
        },
    }
}

} // verus!
