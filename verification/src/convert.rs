//! From written paths and types to the type model.

use vstd::prelude::*;
use crate::model::{Path, PathSegment, PathSegmentV, PathV, Scope, Ty, TyV};
use crate::tree::{PathExpr, PathExprSegment, TypeExpr};

verus! {

/// The path that a written path stands for.  Of the type arguments of a
/// segment only those that are themselves paths are kept, in order.
pub open spec fn path_of(p: PathExpr) -> PathV
    decreases p,
{
    PathV {
        global: p.global,
        segments: Seq::new(
            p.segments@.len(),
            |i: int|
                if 0 <= i < p.segments@.len() {
                    segment_of(p.segments@[i])
                } else {
                    arbitrary()
                },
        ),
    }
}

/// The segment that a written segment stands for.
pub open spec fn segment_of(s: PathExprSegment) -> PathSegmentV
    decreases s,
{
    PathSegmentV { name: s.name@, types: path_args(s.types@, s.types@.len()) }
}

/// The paths among the first `n` of the type arguments `ts`, in order.
pub open spec fn path_args(ts: Seq<TypeExpr>, n: nat) -> Seq<PathV>
    decreases ts, n,
{
    if n == 0 || n > ts.len() {
        Seq::empty()
    } else {
        let rest = path_args(ts, (n - 1) as nat);
        match ts[n - 1] {
            TypeExpr::Path(p) => rest.push(path_of(p)),
            _ => rest,
        }
    }
}

/// The inferred type that a written type stands for, to be resolved from
/// `scope`: a tuple of the elements' types if each of them has one, the
/// referent's type for a reference, a deferred path for a named type, and
/// nothing for any other type.
pub open spec fn ty_of(t: TypeExpr, scope: Scope) -> Option<TyV>
    decreases t,
{
    match t {
        TypeExpr::Tup(items) => match tys_of(items@, items@.len(), scope) {
            Some(elems) => Some(TyV::Tuple(elems)),
            None => None,
        },
        TypeExpr::Rptr(inner) => ty_of(*inner, scope),
        TypeExpr::Path(p) => Some(TyV::Deferred(path_of(p), scope)),
        TypeExpr::Other => None,
    }
}

/// The types of the first `n` of `ts`, if each of them has one.
pub open spec fn tys_of(ts: Seq<TypeExpr>, n: nat, scope: Scope) -> Option<Seq<TyV>>
    decreases ts, n,
{
    if n == 0 || n > ts.len() {
        Some(Seq::empty())
    } else {
        match (tys_of(ts, (n - 1) as nat, scope), ty_of(ts[n - 1], scope)) {
            (Some(rest), Some(last)) => Some(rest.push(last)),
            _ => None,
        }
    }
}

/// The path of a named type, seen through at most one reference.
pub open spec fn path_behind(t: TypeExpr) -> Option<PathV> {
    match t {
        TypeExpr::Path(p) => Some(path_of(p)),
        TypeExpr::Rptr(inner) => match *inner {
            TypeExpr::Path(p) => Some(path_of(p)),
            _ => None,
        },
        _ => None,
    }
}

/// Converts a written path.
pub fn to_racer_path(pth: &PathExpr) -> (r: Path)
    ensures
        r.deep_view() == path_of(*pth),
    decreases pth,
{
    let mut segments: Vec<PathSegment> = Vec::new();
    let mut i: usize = 0;
    while i < pth.segments.len()
        invariant
            i <= pth.segments.len(),
            segments.len() == i,
            forall|j: int| 0 <= j < i ==> segments@[j].deep_view() == segment_of(pth.segments@[j]),
        decreases pth.segments.len() - i,
    {
        let seg = &pth.segments[i];
        let mut types: Vec<Path> = Vec::new();
        let mut k: usize = 0;
        while k < seg.types.len()
            invariant
                i < pth.segments.len(),
                *seg == pth.segments@[i as int],
                k <= seg.types.len(),
                types.deep_view() == path_args(seg.types@, k as nat),
            decreases seg.types.len() - k,
        {
            match &seg.types[k] {
                TypeExpr::Path(p) => {
                    let inner = to_racer_path(p);
                    let ghost before = types.deep_view();
                    types.push(inner);
                    assert(types.deep_view() =~= before.push(path_of(*p)));
                },
                _ => {},
            }
            k += 1;
        }
        let out = PathSegment { name: seg.name.clone(), types };
        assert(out.deep_view().types =~= out.types.deep_view());
        segments.push(out);
        i += 1;
    }
    let r = Path { global: pth.global, segments };
    assert(r.deep_view().segments =~= path_of(*pth).segments);
    r
}

/// Converts a written type; see [`ty_of`].
pub fn to_racer_ty(ty: &TypeExpr, scope: &Scope) -> (r: Option<Ty>)
    ensures
        r.deep_view() == ty_of(*ty, *scope),
    decreases ty,
{
    match ty {
        TypeExpr::Tup(items) => {
            let mut res: Vec<Ty> = Vec::new();
            let mut i: usize = 0;
            while i < items.len()
                invariant
                    ty is Tup,
                    *items == ty->Tup_0,
                    i <= items.len(),
                    tys_of(items@, i as nat, *scope) == Some(res.deep_view()),
                decreases items.len() - i,
            {
                match to_racer_ty(&items[i], scope) {
                    Some(t) => {
                        let ghost before = res.deep_view();
                        res.push(t);
                        assert(res.deep_view() =~= before.push(t.deep_view()));
                    },
                    None => {
                        assert(tys_of(items@, (i + 1) as nat, *scope) is None);
                        proof {
                            lemma_tys_of_none(items@, (i + 1) as nat, items@.len(), *scope);
                        }
                        return None;
                    },
                }
                i += 1;
            }
            let r = Ty::Tuple(res);
            assert(r.deep_view()->Tuple_0 =~= res.deep_view());
            Some(r)
        },
        TypeExpr::Rptr(inner) => to_racer_ty(inner, scope),
        TypeExpr::Path(p) => Some(Ty::Deferred(to_racer_path(p), *scope)),
        TypeExpr::Other => None,
    }
}

/// Once a prefix of the elements has no type, no longer prefix has one.
pub proof fn lemma_tys_of_none(ts: Seq<TypeExpr>, n: nat, m: nat, scope: Scope)
    requires
        n <= m <= ts.len(),
        tys_of(ts, n, scope) is None,
    ensures
        tys_of(ts, m, scope) is None,
    decreases m,
{
    if n < m {
        lemma_tys_of_none(ts, n, (m - 1) as nat, scope);
    }
}

/// The path of a named type, seen through at most one reference.
pub fn path_behind_type(ty: &TypeExpr) -> (r: Option<Path>)
    ensures
        r.deep_view() == path_behind(*ty),
{
    match ty {
        TypeExpr::Path(p) => Some(to_racer_path(p)),
        TypeExpr::Rptr(inner) => {
            let inner_ty: &TypeExpr = inner;
            match inner_ty {
                TypeExpr::Path(p) => Some(to_racer_path(p)),
                _ => None,
            }
        },
        _ => None,
    }
}

} // verus!
