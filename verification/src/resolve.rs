//! From paths to declarations: resolution in the type namespace, type
//! aliases, and the substitution of generic parameters.

use vstd::prelude::*;
use crate::host::{first_match, range_of, statement_of, text_of, Answer, Known, Namespace, Request, RequestV, Step, StepV};
use crate::items::{alias_target, parse_type};
use crate::model::{first_paired, FileId, Match, MatchKind, MatchV, Path, PathSearch, PathSearchV, PathV, Scope, Ty, TyV};
use crate::text::cut;

verus! {

/// The question what a path names as a type.
pub open spec fn type_question(path: PathV, file: FileId, position: usize) -> RequestV {
    RequestV::Resolve { path, file, position, namespace: Namespace::Type }
}

/// What a type alias stands for: the declaration that its target path
/// names.  The alias is read from the masked text of its file: the
/// statement that begins five bytes before the match, at the keyword.
pub open spec fn typedef_target(k: Map<RequestV, Answer>, m: MatchV) -> StepV<MatchV> {
    match text_of(k, RequestV::LoadMaskedFile { file: m.file }) {
        StepV::Found(msrc) => if m.position < 5 || m.position - 5 > msrc.len() {
            StepV::Nothing
        } else {
            let blobstart = m.position - 5;
            match range_of(k, RequestV::FirstStatement { source: msrc.skip(blobstart) }) {
                StepV::Found((start, end)) => if start <= end && blobstart + end <= msrc.len() {
                    let blob = msrc.subrange(blobstart + start, blobstart + end);
                    match statement_of(k, RequestV::ParseStatement { source: blob }) {
                        StepV::Found(parsed) => match alias_target(parsed) {
                            Some(target) => first_match(
                                k,
                                type_question(target, m.file, m.position),
                            ),
                            None => StepV::Nothing,
                        },
                        other => other.pass(),
                    }
                } else {
                    StepV::Nothing
                },
                other => other.pass(),
            }
        },
        other => other.pass(),
    }
}

/// The searches for the given type arguments, each to be resolved from the
/// same place.
pub open spec fn searches_of(types: Seq<PathV>, file: FileId, position: usize) -> Seq<PathSearchV> {
    Seq::new(types.len(), |i: int| PathSearchV { path: types[i], file, position })
}

/// The match with the type arguments of `path` attached, if it has any.
pub open spec fn instantiated(m: MatchV, path: PathV, file: FileId, position: usize) -> MatchV {
    let types = searches_of(path.generic_types(), file, position);
    if types.len() == 0 {
        m
    } else {
        m.with_generic_types(types)
    }
}

/// The type that a path names, seen from a position in a file: the first
/// match in the type namespace, a type alias replaced by what it stands for,
/// with the path's type arguments attached.
pub open spec fn type_match(k: Map<RequestV, Answer>, path: PathV, file: FileId, position: usize) -> StepV<TyV> {
    match first_match(k, type_question(path, file, position)) {
        StepV::Found(m) => {
            let target = if m.kind == MatchKind::TypeAlias {
                typedef_target(k, m)
            } else {
                StepV::Found(m)
            };
            match target {
                StepV::Found(t) => StepV::Found(TyV::Resolved(instantiated(t, path, file, position))),
                other => other.pass(),
            }
        },
        other => other.pass(),
    }
}

/// A deferred type resolved from its own scope; any other type as it is.
pub open spec fn resolved(k: Map<RequestV, Answer>, ty: TyV) -> StepV<TyV> {
    match ty {
        TyV::Deferred(path, scope) => type_match(k, path, scope.file, scope.position),
        _ => StepV::Found(ty),
    }
}

/// The search that stands for `path` in the context of an instantiated
/// declaration: where the path is one bare segment that names a generic
/// parameter of the context, the search supplied for that parameter;
/// otherwise the path itself, from `at`.
pub open spec fn substituted(path: PathV, at: Scope, context: MatchV) -> PathSearchV {
    let own = PathSearchV { path, file: at.file, position: at.position };
    if path.segments.len() == 1 {
        match context.generic_index(path.segments[0].name) {
            Some(i) => context.generic_arg_types[i],
            None => own,
        }
    } else {
        own
    }
}

/// A deferred type resolved in the context of an instantiated declaration,
/// else from its own scope; any other type as it is.
pub open spec fn resolved_in_context(k: Map<RequestV, Answer>, ty: TyV, context: MatchV) -> StepV<TyV> {
    match ty {
        TyV::Deferred(path, scope) => {
            let search = substituted(path, scope, context);
            type_match(k, search.path, search.file, search.position)
        },
        _ => StepV::Found(ty),
    }
}

/// The type of a field from its declared type.  A declared path is
/// resolved in the context of the instantiated struct, else from the given
/// place.  Any other declared type holds no parameter of the struct by
/// itself and is the field's type as it stands.
pub open spec fn field_type_match(
    k: Map<RequestV, Answer>,
    fieldtype: TyV,
    file: FileId,
    position: usize,
    structm: MatchV,
) -> StepV<TyV> {
    match fieldtype {
        TyV::Deferred(path, _) => {
            let search = substituted(path, Scope { file, position }, structm);
            type_match(k, search.path, search.file, search.position)
        },
        _ => StepV::Found(fieldtype),
    }
}

/// What a type alias stands for; see [`typedef_target`].
pub fn get_type_of_typedef(k: &Known, m: &Match) -> (r: Step<Match>)
    ensures
        r.deep_view() == typedef_target(k@, m.deep_view()),
{
    let msrc = match k.ask_text(Request::LoadMaskedFile { file: m.file }) {
        Step::Found(t) => t,
        other => {
            return other.pass();
        },
    };
    if m.position < 5 || m.position - 5 > msrc.len() {
        return Step::Nothing;
    }
    let blobstart: usize = m.position - 5;
    let rest = cut(msrc.as_slice(), blobstart, msrc.len());
    assert(rest@ =~= msrc@.skip(blobstart as int));
    let (start, end) = match k.ask_range(Request::FirstStatement { source: rest }) {
        Step::Found(r) => r,
        other => {
            return other.pass();
        },
    };
    if !(start <= end && end <= msrc.len() - blobstart) {
        return Step::Nothing;
    }
    let blob = cut(msrc.as_slice(), blobstart + start, blobstart + end);
    let parsed = match k.ask_statement(Request::ParseStatement { source: blob }) {
        Ok(parsed) => parsed,
        Err(e) => {
            return e.pass();
        },
    };
    match parse_type(parsed).type_ {
        Some(target) => k.ask_match(
            Request::Resolve {
                path: target,
                file: m.file,
                position: m.position,
                namespace: Namespace::Type,
            },
        ),
        None => Step::Nothing,
    }
}

fn searches_for(path: &Path, file: FileId, position: usize) -> (r: Vec<PathSearch>)
    ensures
        r.deep_view() == searches_of(path.deep_view().generic_types(), file, position),
{
    let mut out: Vec<PathSearch> = Vec::new();
    if path.segments.len() == 0 {
        assert(out.deep_view() =~= searches_of(path.deep_view().generic_types(), file, position));
        return out;
    }
    let last = &path.segments[path.segments.len() - 1];
    assert(path.deep_view().segments.last() == last.deep_view());
    let mut i: usize = 0;
    while i < last.types.len()
        invariant
            i <= last.types.len(),
            out.len() == i,
            forall|j: int|
                0 <= j < i ==> out@[j].deep_view() == (PathSearchV {
                    path: last.types@[j].deep_view(),
                    file,
                    position,
                }),
        decreases last.types.len() - i,
    {
        out.push(PathSearch { path: last.types[i].duplicate(), file, position });
        i += 1;
    }
    assert(out.deep_view() =~= searches_of(path.deep_view().generic_types(), file, position));
    out
}

/// The type that a path names, seen from a position in a file; see
/// [`type_match`].
pub fn find_type_match(k: &Known, path: &Path, file: FileId, position: usize) -> (r: Step<Ty>)
    ensures
        r.deep_view() == type_match(k@, path.deep_view(), file, position),
{
    let found = match k.ask_match(
        Request::Resolve { path: path.duplicate(), file, position, namespace: Namespace::Type },
    ) {
        Step::Found(m) => m,
        other => {
            return other.pass();
        },
    };
    let m = match found.kind {
        MatchKind::TypeAlias => match get_type_of_typedef(k, &found) {
            Step::Found(t) => t,
            other => {
                return other.pass();
            },
        },
        _ => found,
    };
    let types = searches_for(path, file, position);
    if types.len() == 0 {
        Step::Found(Ty::Resolved(m))
    } else {
        Step::Found(Ty::Resolved(m.with_generic_types(types)))
    }
}

/// Resolves a deferred type from its own scope; see [`resolved`].
pub fn path_to_match(k: &Known, ty: Ty) -> (r: Step<Ty>)
    ensures
        r.deep_view() == resolved(k@, ty.deep_view()),
{
    match ty {
        Ty::Deferred(path, scope) => find_type_match(k, &path, scope.file, scope.position),
        other => Step::Found(other),
    }
}

/// The search that stands for a path in a context; see [`substituted`].
pub fn substitute(path: &Path, at: Scope, context: &Match) -> (r: PathSearch)
    ensures
        r.deep_view() == substituted(path.deep_view(), at, context.deep_view()),
{
    if path.segments.len() == 1 {
        let name = &path.segments[0].name;
        let ghost names = context.deep_view().generic_arg_names;
        let ghost limit = context.deep_view().generic_arg_types.len();
        let mut i: usize = 0;
        while i < context.generic_arg_names.len() && i < context.generic_arg_types.len()
            invariant
                path.segments.len() == 1,
                name@ == path.deep_view().segments[0].name,
                i <= context.generic_arg_names.len(),
                names == context.deep_view().generic_arg_names,
                names == context.generic_arg_names.deep_view(),
                limit == context.generic_arg_types.len(),
                first_paired(names, limit, name@, 0) == first_paired(names, limit, name@, i as int),
            decreases context.generic_arg_names.len() - i,
        {
            if context.generic_arg_names[i] == *name {
                return context.generic_arg_types[i].duplicate();
            }
            i += 1;
        }
    }
    PathSearch { path: path.duplicate(), file: at.file, position: at.position }
}

/// Resolves a deferred type in the context of an instantiated declaration;
/// see [`resolved_in_context`].
pub fn path_to_match_including_generics(k: &Known, ty: Ty, contextm: &Match) -> (r: Step<Ty>)
    ensures
        r.deep_view() == resolved_in_context(k@, ty.deep_view(), contextm.deep_view()),
{
    match ty {
        Ty::Deferred(path, scope) => {
            let search = substitute(&path, scope, contextm);
            find_type_match(k, &search.path, search.file, search.position)
        },
        other => Step::Found(other),
    }
}

/// Resolves the declared type of a field in the context of the instantiated
/// struct; see [`field_type_match`].
pub fn find_type_match_including_generics(
    k: &Known,
    fieldtype: &Ty,
    file: FileId,
    position: usize,
    structm: &Match,
) -> (r: Step<Ty>)
    ensures
        r.deep_view() == field_type_match(
            k@,
            fieldtype.deep_view(),
            file,
            position,
            structm.deep_view(),
        ),
{
    match fieldtype {
        Ty::Deferred(path, _) => {
            let search = substitute(path, Scope { file, position }, structm);
            find_type_match(k, &search.path, search.file, search.position)
        },
        other => Step::Found(other.duplicate()),
    }
}

} // verus!
