//! The type that a pattern binds at a position, traced through the shape of
//! the pattern against the type it is matched with.

use vstd::prelude::*;
use crate::convert::{path_of, to_racer_path};
use crate::fields::{get_tuplestruct_field_type, tuple_struct_field_type};
use crate::host::{first_match, Answer, ContractViolation, Known, Namespace, Request, RequestV, Step, StepV};
use crate::model::{FileId, Match, MatchKind, MatchV, PathV, Scope, Ty, TyV};
use crate::resolve::{path_to_match, path_to_match_including_generics, resolved, resolved_in_context};
use crate::tree::{point_is_in_span, Pat, PatKind, PathExpr};

verus! {

/// The question what a path names, in either namespace.
pub open spec fn name_question(path: PathV, file: FileId, position: usize) -> RequestV {
    RequestV::Resolve { path, file, position, namespace: Namespace::Both }
}

/// The first declaration that a written path names, seen from a position
/// in a file.
pub fn resolve_ast_path(k: &Known, path: &PathExpr, file: FileId, position: usize) -> (r: Step<Match>)
    ensures
        r.deep_view() == first_match(k@, name_question(path_of(*path), file, position)),
{
    k.ask_match(
        Request::Resolve { path: to_racer_path(path), file, position, namespace: Namespace::Both },
    )
}

/// The index of the first pattern at or after `from` whose span holds
/// `point`.
pub open spec fn first_holding(ps: Seq<Pat>, point: usize, from: int) -> Option<int>
    decreases ps.len() - from,
{
    if from < 0 || from >= ps.len() {
        None
    } else if ps[from].span.holds(point as int) {
        Some(from)
    } else {
        first_holding(ps, point, from + 1)
    }
}

/// Whether a match can have positional fields.
pub open spec fn is_positional(kind: MatchKind) -> bool {
    kind == MatchKind::Struct || kind == MatchKind::EnumVariant
}

/// The type of the field at position `i` of the declaration `m`, resolved
/// in the context of what the whole pattern is matched with: with the
/// generic arguments of `context` where that is a resolved declaration, and
/// from the field's own scope otherwise.
pub open spec fn payload_type(k: Map<RequestV, Answer>, m: MatchV, i: usize, context: StepV<TyV>) -> StepV<TyV> {
    if !is_positional(m.kind) {
        StepV::Nothing
    } else {
        match tuple_struct_field_type(k, i, m) {
            StepV::Found(fieldtype) => match context {
                StepV::Found(TyV::Resolved(contextm)) => resolved_in_context(k, fieldtype, contextm),
                _ => resolved(k, fieldtype),
            },
            other => other,
        }
    }
}

/// The type bound at `point` when `pat` is matched with `ty`.
///
/// * A binding gives `ty` itself; `point` must lie in the name.
/// * A tuple pattern needs a tuple type of its own length, and gives what
///   the first element whose span holds `point` binds in the element type
///   at the same position.
/// * A pattern `Name(p0, p1, ..)` gives what the first `pi` whose span holds
///   `point` binds in the type of field `i` of the declaration that `Name`
///   resolves to from `scope`.
/// * Any other pattern gives nothing.
pub open spec fn pattern_type(k: Map<RequestV, Answer>, pat: Pat, point: usize, ty: TyV, scope: Scope) -> StepV<TyV>
    decreases pat,
{
    match pat.kind {
        PatKind::Ident { name, name_span } => if name_span.holds(point as int) {
            StepV::Found(ty)
        } else {
            StepV::Violation(ContractViolation::PointOutsideBinding)
        },
        PatKind::Tup => match ty {
            TyV::Tuple(elems) => if elems.len() != pat.children@.len() {
                StepV::Violation(ContractViolation::ArityMismatch)
            } else {
                match first_holding(pat.children@, point, 0) {
                    Some(i) if 0 <= i < pat.children@.len() => pattern_type(
                        k,
                        pat.children@[i],
                        point,
                        elems[i],
                        scope,
                    ),
                    _ => StepV::Nothing,
                }
            },
            _ => StepV::Violation(ContractViolation::NotATuple),
        },
        PatKind::Enum { path } => match first_match(
            k,
            name_question(path_of(path), scope.file, scope.position),
        ) {
            StepV::Found(m) => match first_holding(pat.children@, point, 0) {
                Some(i) if 0 <= i < pat.children@.len() => {
                    let context = resolved(k, ty);
                    if context is Ask {
                        context
                    } else {
                        match payload_type(k, m, i as usize, context) {
                            StepV::Found(t) => pattern_type(k, pat.children@[i], point, t, scope),
                            other => other,
                        }
                    }
                },
                _ => StepV::Nothing,
            },
            other => other.pass(),
        },
        PatKind::Other => StepV::Nothing,
    }
}

fn find_holding(ps: &Vec<Pat>, point: usize) -> (r: Option<usize>)
    ensures
        match r {
            Some(i) => first_holding(ps@, point, 0) == Some(i as int) && i < ps.len(),
            None => first_holding(ps@, point, 0) is None,
        },
{
    let mut i: usize = 0;
    while i < ps.len()
        invariant
            i <= ps.len(),
            first_holding(ps@, point, 0) == first_holding(ps@, point, i as int),
        decreases ps.len() - i,
    {
        if point_is_in_span(point, &ps[i].span) {
            return Some(i);
        }
        i += 1;
    }
    None
}

fn get_payload_type(k: &Known, m: &Match, i: usize, context: &Step<Ty>) -> (r: Step<Ty>)
    ensures
        r.deep_view() == payload_type(k@, m.deep_view(), i, context.deep_view()),
{
    match m.kind {
        MatchKind::Struct | MatchKind::EnumVariant => {},
        _ => {
            return Step::Nothing;
        },
    }
    let fieldtype = match get_tuplestruct_field_type(k, i, m) {
        Step::Found(t) => t,
        other => {
            return other;
        },
    };
    match context {
        Step::Found(Ty::Resolved(contextm)) => path_to_match_including_generics(
            k,
            fieldtype,
            contextm,
        ),
        _ => path_to_match(k, fieldtype),
    }
}

/// The type bound at `point` when `pat` is matched with `ty`; see
/// [`pattern_type`].  A position outside the binding it was said to lie in
/// and a tuple pattern against a type of another shape are told apart from
/// every other ending: the result is then `Violation`.
pub fn try_destructure_pattern_to_ty(k: &Known, pat: &Pat, point: usize, ty: &Ty, scope: &Scope) -> (r: Step<Ty>)
    ensures
        r.deep_view() == pattern_type(k@, *pat, point, ty.deep_view(), *scope),
    decreases pat,
{
    match &pat.kind {
        PatKind::Ident { name, name_span } => {
            if point_is_in_span(point, name_span) {
                Step::Found(ty.duplicate())
            } else {
                Step::Violation(ContractViolation::PointOutsideBinding)
            }
        },
        PatKind::Tup => match ty {
            Ty::Tuple(typeelems) => {
                assert(ty.deep_view()->Tuple_0.len() == typeelems.len());
                if typeelems.len() != pat.children.len() {
                    return Step::Violation(ContractViolation::ArityMismatch);
                }
                match find_holding(&pat.children, point) {
                    Some(i) => {
                        assert(ty.deep_view()->Tuple_0[i as int] == typeelems@[i as int].deep_view());
                        try_destructure_pattern_to_ty(k, &pat.children[i], point, &typeelems[i], scope)
                    },
                    None => Step::Nothing,
                }
            },
            _ => Step::Violation(ContractViolation::NotATuple),
        },
        PatKind::Enum { path } => {
            let m = match resolve_ast_path(k, path, scope.file, scope.position) {
                Step::Found(m) => m,
                other => {
                    return other.pass();
                },
            };
            let i = match find_holding(&pat.children, point) {
                Some(i) => i,
                None => {
                    return Step::Nothing;
                },
            };
            let context = path_to_match(k, ty.duplicate());
            match context {
                Step::Ask(q) => {
                    return Step::Ask(q);
                },
                _ => {},
            }
            match get_payload_type(k, &m, i, &context) {
                Step::Found(t) => try_destructure_pattern_to_ty(k, &pat.children[i], point, &t, scope),
                other => other,
            }
        },
        PatKind::Other => Step::Nothing,
    }
}

/// The type bound at `point` when `pat` is matched with `ty`; see
/// [`pattern_type`].  The point must lie in a binding of the pattern, and a
/// tuple pattern must stand against a tuple type of its own length: a caller
/// who cannot vouch for that calls [`try_destructure_pattern_to_ty`].
pub fn destructure_pattern_to_ty(k: &Known, pat: &Pat, point: usize, ty: &Ty, scope: &Scope) -> (r: Step<Ty>)
    requires
        !(pattern_type(k@, *pat, point, ty.deep_view(), *scope) is Violation),
    ensures
        r.deep_view() == pattern_type(k@, *pat, point, ty.deep_view(), *scope),
{
    try_destructure_pattern_to_ty(k, pat, point, ty, scope)
}

} // verus!
