//! What holds of the extractors and of inference in general.

use vstd::prelude::*;
use crate::bindings::parsed_spans;
use crate::convert::ty_of;
use crate::convert::path_of;
use crate::fields::{
    field_by_name, field_by_position, first_named, return_type, struct_field_type,
    tuple_struct_field_type, wrapped_in_impl,
};
use crate::host::{
    first_match, offset_of, range_of, statement_of, text_of, Answer, ContractViolation, RequestV,
    StepV,
};
use crate::imports::{empty_view_value, view_facts};
use crate::infer::{
    arg_type, expr_type, fnarg_type, if_let_type, if_let_types, let_expr_type, let_type,
    local_type, match_type, self_arg_type, text_type,
};
use crate::items::{
    alias_name, alias_target, declared_generics, declared_name, enum_name, enum_variants,
    field_facts, impl_target, impl_trait, mod_name, struct_fields_of, trait_name,
};
use crate::model::{first_paired, FileId, MatchKind, MatchV, PathSearchV, PathV, Scope, TyV};
use crate::pattern::{first_holding, name_question, pattern_type, payload_type};
use crate::resolve::{
    field_type_match, instantiated, resolved, resolved_in_context, substituted, type_match,
};
use crate::signature::{empty_fn_value, fn_facts};
use crate::text::{first_index, OPEN_BRACE};
use crate::tree::{Expr, ExprKind, Item, Local, ParseFailure, Pat, PatKind, Stmt, StructField};

verus! {

// ------------------------------------------------------- fields of structs

/// Whether the fields of a declaration are named as a declaration names
/// them: no name is empty, and no two fields have the same name.
pub open spec fn distinct_names(fields: Seq<StructField>) -> bool {
    &&& forall|i: int|
        0 <= i < fields.len() && fields[i].name is Some ==> (#[trigger] fields[i]).name.unwrap()@.len()
            > 0
    &&& forall|i: int, j: int|
        0 <= i < j < fields.len() && fields[i].name is Some && fields[j].name is Some ==> (
        #[trigger] fields[i]).name.unwrap()@ != (#[trigger] fields[j]).name.unwrap()@
}

proof fn lemma_first_named(
    facts: Seq<(Seq<char>, usize, Option<TyV>)>,
    name: Seq<char>,
    from: int,
    i: int,
)
    requires
        0 <= from <= i < facts.len(),
        facts[i].0 == name,
        forall|j: int| from <= j < i ==> facts[j].0 != name,
    ensures
        first_named(facts, name, from) == Some(i),
    decreases i - from,
{
    if from < i {
        lemma_first_named(facts, name, from + 1, i);
    }
}

/// For a struct declaration whose fields are distinctly named, the facts
/// extracted from it give for the name of every named field exactly the
/// type declared for that field.
pub proof fn law_named_field(item: Item, scope: Scope, i: int)
    requires
        item.kind is Struct,
        distinct_names(item.kind->Struct_fields@),
        0 <= i < item.kind->Struct_fields@.len(),
        item.kind->Struct_fields@[i].name is Some,
    ensures
        field_by_name(
            struct_fields_of(Ok(Stmt::Item(item)), scope),
            item.kind->Struct_fields@[i].name.unwrap()@,
        ) == ty_of(item.kind->Struct_fields@[i].ty, scope),
{
    let fields = item.kind->Struct_fields@;
    let facts = field_facts(fields, scope);
    let name = fields[i].name.unwrap()@;
    assert(struct_fields_of(Ok(Stmt::Item(item)), scope) == facts);
    assert forall|j: int| 0 <= j < i implies facts[j].0 != name by {
        if fields[j].name is Some {
            assert(fields[j].name.unwrap()@ != fields[i].name.unwrap()@);
        } else {
            assert(facts[j].0.len() == 0);
            assert(fields[i].name.unwrap()@.len() > 0);
        }
    }
    lemma_first_named(facts, name, 0, i);
}

/// The facts extracted from a struct declaration give for the position of
/// every field exactly the type declared for that field, in declaration
/// order.
pub proof fn law_positional_field(item: Item, scope: Scope, i: usize)
    requires
        item.kind is Struct,
        i < item.kind->Struct_fields@.len(),
    ensures
        field_by_position(struct_fields_of(Ok(Stmt::Item(item)), scope), i) == ty_of(
            item.kind->Struct_fields@[i as int].ty,
            scope,
        ),
        struct_fields_of(Ok(Stmt::Item(item)), scope).len() == item.kind->Struct_fields@.len(),
{
}

// --------------------------------------------------------- tuple patterns

proof fn lemma_first_holding(ps: Seq<Pat>, point: usize, from: int, i: int)
    requires
        0 <= from <= i < ps.len(),
        ps[i].span.holds(point as int),
        forall|j: int| from <= j < i ==> !ps[j].span.holds(point as int),
    ensures
        first_holding(ps, point, from) == Some(i),
    decreases i - from,
{
    if from < i {
        lemma_first_holding(ps, point, from + 1, i);
    }
}

/// A tuple pattern matched with a tuple type of its own length binds, at a
/// position in its element `i`, what that element binds in element `i` of
/// the type; where the element is a binding whose name holds the position,
/// that is exactly element `i` of the type.  Element `i` is the first whose
/// span holds the position.
pub proof fn law_tuple_pattern(
    k: Map<RequestV, Answer>,
    pat: Pat,
    point: usize,
    elems: Seq<TyV>,
    scope: Scope,
    i: int,
)
    requires
        pat.kind is Tup,
        pat.children@.len() == elems.len(),
        0 <= i < elems.len(),
        pat.children@[i].span.holds(point as int),
        forall|j: int| 0 <= j < i ==> !pat.children@[j].span.holds(point as int),
    ensures
        pattern_type(k, pat, point, TyV::Tuple(elems), scope) == pattern_type(
            k,
            pat.children@[i],
            point,
            elems[i],
            scope,
        ),
        (pat.children@[i].kind matches PatKind::Ident { name, name_span } && name_span.holds(
            point as int,
        )) ==> pattern_type(k, pat, point, TyV::Tuple(elems), scope) == StepV::Found(elems[i]),
{
    lemma_first_holding(pat.children@, point, 0, i);
}

/// A tuple pattern matched with a tuple type of another length, or with a
/// type that is no tuple, violates the caller's contract.
pub proof fn law_tuple_pattern_mismatch(
    k: Map<RequestV, Answer>,
    pat: Pat,
    point: usize,
    ty: TyV,
    scope: Scope,
)
    requires
        pat.kind is Tup,
    ensures
        (ty matches TyV::Tuple(elems) && elems.len() != pat.children@.len()) ==> pattern_type(
            k,
            pat,
            point,
            ty,
            scope,
        ) == StepV::<TyV>::Violation(ContractViolation::ArityMismatch),
        !(ty is Tuple) ==> pattern_type(k, pat, point, ty, scope) == StepV::<TyV>::Violation(
            ContractViolation::NotATuple,
        ),
{
}

/// A binding asked about at a position outside its name violates the
/// caller's contract.
pub proof fn law_binding_outside(
    k: Map<RequestV, Answer>,
    pat: Pat,
    point: usize,
    ty: TyV,
    scope: Scope,
)
    requires
        pat.kind is Ident,
        !pat.kind->Ident_name_span.holds(point as int),
    ensures
        pattern_type(k, pat, point, ty, scope) == StepV::<TyV>::Violation(
            ContractViolation::PointOutsideBinding,
        ),
{
}

// ---------------------------------------------------- generic substitution

proof fn lemma_first_paired_none(names: Seq<Seq<char>>, limit: nat, name: Seq<char>, from: int)
    requires
        0 <= from,
        forall|j: int| from <= j < names.len() && j < limit ==> names[j] != name,
    ensures
        first_paired(names, limit, name, from) is None,
    decreases names.len() - from,
{
    if from < names.len() && from < limit {
        lemma_first_paired_none(names, limit, name, from + 1);
    }
}

proof fn lemma_first_paired(names: Seq<Seq<char>>, limit: nat, name: Seq<char>, from: int, i: int)
    requires
        0 <= from <= i < names.len(),
        i < limit,
        names[i] == name,
        forall|j: int| from <= j < i ==> names[j] != name,
    ensures
        first_paired(names, limit, name, from) == Some(i),
    decreases i - from,
{
    if from < i {
        lemma_first_paired(names, limit, name, from + 1, i);
    }
}

/// Whether `path` is one bare segment that names a generic parameter of
/// `context` which has a search paired with it.
pub open spec fn names_parameter(path: PathV, context: MatchV) -> bool {
    path.segments.len() == 1 && exists|j: int|
        0 <= j < context.generic_arg_names.len() && j < context.generic_arg_types.len()
            && #[trigger] context.generic_arg_names[j] == path.segments[0].name
}

/// Substitution leaves alone what names no generic parameter of the
/// context: the path stands for itself, a deferred type resolves as it does
/// without the context, and a type that is not deferred, such as a tuple,
/// comes back unchanged, as the type of a field too.
pub proof fn law_substitution_without_parameter(
    k: Map<RequestV, Answer>,
    path: PathV,
    at: Scope,
    context: MatchV,
    other: TyV,
)
    requires
        !names_parameter(path, context),
        !(other is Deferred),
    ensures
        substituted(path, at, context) == (PathSearchV {
            path,
            file: at.file,
            position: at.position,
        }),
        resolved_in_context(k, TyV::Deferred(path, at), context) == resolved(
            k,
            TyV::Deferred(path, at),
        ),
        field_type_match(k, TyV::Deferred(path, at), at.file, at.position, context) == type_match(
            k,
            path,
            at.file,
            at.position,
        ),
        resolved_in_context(k, other, context) == StepV::Found(other),
        field_type_match(k, other, at.file, at.position, context) == StepV::Found(other),
{
    if path.segments.len() == 1 {
        lemma_first_paired_none(
            context.generic_arg_names,
            context.generic_arg_types.len(),
            path.segments[0].name,
            0,
        );
    }
}

/// Substitution is idempotent: what a path stands for in a context, where
/// that names no generic parameter of the context either, stands for itself
/// when substituted again.
pub proof fn law_substitution_idempotent(path: PathV, at: Scope, context: MatchV)
    requires
        !names_parameter(substituted(path, at, context).path, context),
    ensures
        ({
            let once = substituted(path, at, context);
            substituted(once.path, Scope { file: once.file, position: once.position }, context)
                == once
        }),
{
    let once = substituted(path, at, context);
    if once.path.segments.len() == 1 {
        lemma_first_paired_none(
            context.generic_arg_names,
            context.generic_arg_types.len(),
            once.path.segments[0].name,
            0,
        );
    }
}

/// A field declared with a generic parameter of its struct has, in an
/// instantiation of the struct, the type supplied for that parameter and not
/// the parameter's own name: the declared path stands for the search paired
/// with the parameter, and that search is what is resolved.
pub proof fn law_generic_field(
    k: Map<RequestV, Answer>,
    path: PathV,
    at: Scope,
    structm: MatchV,
    i: int,
)
    requires
        path.segments.len() == 1,
        0 <= i < structm.generic_arg_names.len(),
        i < structm.generic_arg_types.len(),
        structm.generic_arg_names[i] == path.segments[0].name,
        forall|j: int| 0 <= j < i ==> structm.generic_arg_names[j] != path.segments[0].name,
    ensures
        substituted(path, at, structm) == structm.generic_arg_types[i],
        field_type_match(k, TyV::Deferred(path, at), at.file, at.position, structm) == type_match(
            k,
            structm.generic_arg_types[i].path,
            structm.generic_arg_types[i].file,
            structm.generic_arg_types[i].position,
        ),
        resolved_in_context(k, TyV::Deferred(path, at), structm) == type_match(
            k,
            structm.generic_arg_types[i].path,
            structm.generic_arg_types[i].file,
            structm.generic_arg_types[i].position,
        ),
{
    lemma_first_paired(
        structm.generic_arg_names,
        structm.generic_arg_types.len(),
        path.segments[0].name,
        0,
        i,
    );
}

/// A match that a path with type arguments instantiates has its generic
/// parameters and the searches for them paired one to one, each search to
/// be resolved from the place of the path.
pub proof fn law_instantiation_pairs(m: MatchV, path: PathV, file: FileId, position: usize)
    requires
        path.generic_types().len() > 0,
    ensures
        instantiated(m, path, file, position).paired(),
        forall|i: int|
            0 <= i < instantiated(m, path, file, position).generic_arg_types.len() ==> (
            #[trigger] instantiated(m, path, file, position).generic_arg_types[i]) == (
            PathSearchV { path: path.generic_types()[i], file, position }),
        forall|i: int|
            0 <= i < instantiated(m, path, file, position).generic_arg_names.len() ==> (
            #[trigger] instantiated(m, path, file, position).generic_arg_names[i])
                == m.generic_arg_names[i],
{
}

// ------------------------------------------------ expressions and bindings

/// A field of an instantiated struct that is declared with a generic
/// parameter of the struct has the type supplied for the parameter: where
/// the base of `x.f` is a struct whose field `f` is declared with the bare
/// name of its parameter `i`, the type of `x.f` is what the search paired
/// with that parameter names, and not what the parameter's own name names.
pub proof fn law_field_of_instantiated_struct(
    k: Map<RequestV, Answer>,
    e: Expr,
    scope: Scope,
    depth: nat,
    structm: MatchV,
    path: PathV,
    at: Scope,
    i: int,
)
    requires
        e.kind is Field,
        e.children@.len() > 0,
        expr_type(k, e.children@[0], scope, depth) == StepV::Found(TyV::Resolved(structm)),
        structm.kind == MatchKind::Struct,
        struct_field_type(k, e.kind->Field_name@, structm) == StepV::Found(TyV::Deferred(path, at)),
        path.segments.len() == 1,
        0 <= i < structm.generic_arg_names.len(),
        i < structm.generic_arg_types.len(),
        structm.generic_arg_names[i] == path.segments[0].name,
        forall|j: int| 0 <= j < i ==> structm.generic_arg_names[j] != path.segments[0].name,
    ensures
        expr_type(k, e, scope, depth) == type_match(
            k,
            structm.generic_arg_types[i].path,
            structm.generic_arg_types[i].file,
            structm.generic_arg_types[i].position,
        ),
{
    law_generic_field(k, path, Scope { file: structm.file, position: structm.position }, structm, i);
}

/// A positional field access on a struct has the declared type of the field
/// at that position, resolved in the context of the struct.
pub proof fn law_positional_field_access(
    k: Map<RequestV, Answer>,
    e: Expr,
    scope: Scope,
    depth: nat,
    structm: MatchV,
    fieldtype: TyV,
)
    requires
        e.kind is TupField,
        e.children@.len() > 0,
        expr_type(k, e.children@[0], scope, depth) == StepV::Found(TyV::Resolved(structm)),
        structm.kind == MatchKind::Struct,
        tuple_struct_field_type(k, e.kind->TupField_index, structm) == StepV::Found(fieldtype),
    ensures
        expr_type(k, e, scope, depth) == field_type_match(
            k,
            fieldtype,
            structm.file,
            structm.position,
            structm,
        ),
{
}

/// A call of a struct is a constructor and has the struct as its type.
pub proof fn law_constructor_call(
    k: Map<RequestV, Answer>,
    e: Expr,
    scope: Scope,
    depth: nat,
    structm: MatchV,
)
    requires
        e.kind is Call,
        e.children@.len() > 0,
        expr_type(k, e.children@[0], scope, depth) == StepV::Found(TyV::Resolved(structm)),
        structm.kind == MatchKind::Struct,
    ensures
        expr_type(k, e, scope, depth) == StepV::Found(TyV::Resolved(structm)),
{
}

/// A name that resolves to a `let` binding has the type that the binding's
/// statement gives it, one unit of depth further down.
pub proof fn law_name_of_binding(
    k: Map<RequestV, Answer>,
    e: Expr,
    scope: Scope,
    depth: nat,
    m: MatchV,
    msrc: Seq<u8>,
)
    requires
        e.kind is Path,
        first_match(k, name_question(path_of(e.kind->Path_0), scope.file, scope.position))
            == StepV::Found(m),
        text_of(k, RequestV::LoadMaskedFile { file: m.file }) == StepV::Found(msrc),
        m.kind == MatchKind::Let,
        depth > 0,
    ensures
        expr_type(k, e, scope, depth) == let_expr_type(k, m, msrc, (depth - 1) as nat),
{
    assert(match_type(k, m, msrc, depth) == let_expr_type(k, m, msrc, (depth - 1) as nat));
    assert(expr_type(k, e, scope, depth) == match_type(k, m, msrc, depth));
}

/// A `let` that binds one plain name, without a declared type, gives the
/// name the type of its initialiser, resolved.
pub proof fn law_plain_binding(
    k: Map<RequestV, Answer>,
    local: Local,
    pos: usize,
    scope: Scope,
    depth: nat,
    t: TyV,
)
    requires
        local.ty is None,
        local.init is Some,
        expr_type(k, local.init.unwrap(), scope, depth) == StepV::Found(t),
        local.pat.kind is Ident,
        local.pat.kind->Ident_name_span.holds(pos as int),
    ensures
        local_type(k, local, pos, scope, depth) == resolved(k, t),
        !(t is Deferred) ==> local_type(k, local, pos, scope, depth) == StepV::Found(t),
{
}

/// The type that an `if let` binds depends on its pattern and its value
/// alone: two that agree in these bind the same, whatever their blocks hold
/// and whatever was found before.
pub proof fn law_if_let_reads_pattern_and_value(
    k: Map<RequestV, Answer>,
    e1: Expr,
    e2: Expr,
    pos: usize,
    scope: Scope,
    depth: nat,
    prior1: StepV<TyV>,
    prior2: StepV<TyV>,
)
    requires
        e1.kind is IfLet,
        e2.kind == e1.kind,
        e1.children@.len() > 0,
        e2.children@.len() > 0,
        e1.children@[0] == e2.children@[0],
    ensures
        if_let_type(k, e1, pos, scope, depth, prior1) == if_let_type(
            k,
            e2,
            pos,
            scope,
            depth,
            prior2,
        ),
{
}

/// What an `if let` binds where its value has a type: what the pattern
/// binds in that type, resolved.
pub proof fn law_if_let(
    k: Map<RequestV, Answer>,
    e: Expr,
    pos: usize,
    scope: Scope,
    depth: nat,
    prior: StepV<TyV>,
    t: TyV,
    bound: TyV,
)
    requires
        e.kind is IfLet,
        e.children@.len() > 0,
        expr_type(k, e.children@[0], scope, depth) == StepV::Found(t),
        pattern_type(k, e.kind->IfLet_pat, pos, t, scope) == StepV::Found(bound),
    ensures
        if_let_type(k, e, pos, scope, depth, prior) == resolved(k, bound),
{
}

/// A pattern `Name(p0, p1, ..)` asked about in a binding `pi` binds the
/// type of field `i` of the declaration that `Name` resolves to.
pub proof fn law_variant_payload(
    k: Map<RequestV, Answer>,
    pat: Pat,
    point: usize,
    ty: TyV,
    scope: Scope,
    m: MatchV,
    i: int,
    t: TyV,
)
    requires
        pat.kind is Enum,
        first_match(k, name_question(path_of(pat.kind->Enum_path), scope.file, scope.position))
            == StepV::Found(m),
        0 <= i < pat.children@.len(),
        i <= usize::MAX,
        pat.children@[i].span.holds(point as int),
        forall|j: int| 0 <= j < i ==> !pat.children@[j].span.holds(point as int),
        pat.children@[i].kind is Ident,
        pat.children@[i].kind->Ident_name_span.holds(point as int),
        !(resolved(k, ty) is Ask),
        payload_type(k, m, i as usize, resolved(k, ty)) == StepV::Found(t),
    ensures
        pattern_type(k, pat, point, ty, scope) == StepV::Found(t),
{
    lemma_first_holding(pat.children@, point, 0, i);
    assert(pattern_type(k, pat.children@[i], point, t, scope) == StepV::Found(t));
}

/// A method call has the declared return type of the first method of that
/// name implemented for the receiver's type, resolved with the receiver's
/// generic arguments.
pub proof fn law_method_call(
    k: Map<RequestV, Answer>,
    e: Expr,
    scope: Scope,
    depth: nat,
    receiver: MatchV,
    method: MatchV,
    declared: TyV,
)
    requires
        e.kind is MethodCall,
        e.children@.len() > 0,
        expr_type(k, e.children@[0], scope, depth) == StepV::Found(TyV::Resolved(receiver)),
        first_match(
            k,
            RequestV::ImplMethods {
                of_type: receiver.name,
                method_name: e.kind->MethodCall_method@,
                position: receiver.position,
                file: receiver.file,
                is_local: receiver.is_local,
            },
        ) == StepV::Found(method),
        return_type(k, method) == StepV::Found(declared),
    ensures
        expr_type(k, e, scope, depth) == resolved_in_context(k, declared, receiver),
{
}

/// A `let` whose tuple pattern stands against a declared tuple type of
/// another length violates the caller's contract, at every position.
pub proof fn law_annotation_of_other_length(
    k: Map<RequestV, Answer>,
    local: Local,
    pos: usize,
    scope: Scope,
    depth: nat,
)
    requires
        local.pat.kind is Tup,
        local.ty is Some,
        ty_of(local.ty.unwrap(), scope) matches Some(TyV::Tuple(elems)) && elems.len()
            != local.pat.children@.len(),
    ensures
        local_type(k, local, pos, scope, depth) == StepV::<TyV>::Violation(
            ContractViolation::ArityMismatch,
        ),
{
}

// ------------------------------------------------------- deferred types

/// Whether an inference did not end with a type that is still deferred.
pub open spec fn settled(step: StepV<TyV>) -> bool {
    !(step matches StepV::Found(TyV::Deferred(_, _)))
}

proof fn lemma_arg_type_settled(
    k: Map<RequestV, Answer>,
    args: Seq<(Seq<char>, usize, Option<PathV>)>,
    n: nat,
    m: MatchV,
    base: int,
)
    ensures
        settled(arg_type(k, args, n, m, base)),
    decreases n,
{
    if n > 0 && n <= args.len() {
        lemma_arg_type_settled(k, args, (n - 1) as nat, m, base);
    }
}

proof fn lemma_fnarg_type_settled(k: Map<RequestV, Answer>, m: MatchV, msrc: Seq<u8>)
    ensures
        settled(fnarg_type(k, m, msrc)),
        settled(self_arg_type(k, m, msrc)),
{
    if m.name != "self"@ {
        match offset_of(k, RequestV::StatementStart { source: msrc, position: m.position }) {
            StepV::Found(point) => {
                if point <= msrc.len() {
                    match range_of(
                        k,
                        RequestV::FirstStatement { source: msrc.skip(point as int) },
                    ) {
                        StepV::Found((start, end)) => {
                            if start <= end && point + end <= msrc.len() {
                                let blob = msrc.subrange(point + start, point + end);
                                match first_index(blob, OPEN_BRACE) {
                                    Some(n) => {
                                        match statement_of(
                                            k,
                                            RequestV::ParseStatement {
                                                source: wrapped_in_impl(blob.take(n + 1)),
                                            },
                                        ) {
                                            StepV::Found(parsed) => {
                                                let args = fn_facts(parsed, m.scope()).args;
                                                lemma_arg_type_settled(
                                                    k,
                                                    args,
                                                    args.len(),
                                                    m,
                                                    start + point,
                                                );
                                            },
                                            _ => {},
                                        }
                                    },
                                    None => {},
                                }
                            }
                        },
                        _ => {},
                    }
                }
            },
            _ => {},
        }
    }
}

proof fn lemma_if_let_settled(
    k: Map<RequestV, Answer>,
    e: Expr,
    pos: usize,
    scope: Scope,
    depth: nat,
    prior: StepV<TyV>,
)
    requires
        settled(prior),
    ensures
        settled(if_let_type(k, e, pos, scope, depth, prior)),
    decreases e,
{
    if !(e.kind is IfLet) {
        lemma_if_lets_settled(k, e.children@, e.children@.len(), pos, scope, depth, prior);
    }
}

proof fn lemma_if_lets_settled(
    k: Map<RequestV, Answer>,
    es: Seq<Expr>,
    n: nat,
    pos: usize,
    scope: Scope,
    depth: nat,
    prior: StepV<TyV>,
)
    requires
        settled(prior),
    ensures
        settled(if_let_types(k, es, n, pos, scope, depth, prior)),
    decreases es, n,
{
    if n > 0 && n <= es.len() {
        lemma_if_lets_settled(k, es, (n - 1) as nat, pos, scope, depth, prior);
        let before = if_let_types(k, es, (n - 1) as nat, pos, scope, depth, prior);
        if !(before is Ask || before is Violation) {
            lemma_if_let_settled(k, es[n - 1], pos, scope, depth, before);
        }
    }
}

/// No inference ends with a deferred type as its answer: the type of a
/// binding, of a resolved name and of an expression is a declaration, a
/// tuple or `Unsupported`, or there is none.
pub proof fn law_answers_are_settled(
    k: Map<RequestV, Answer>,
    e: Expr,
    local: Local,
    m: MatchV,
    text: Seq<u8>,
    pos: usize,
    scope: Scope,
    depth: nat,
)
    ensures
        settled(local_type(k, local, pos, scope, depth)),
        settled(let_type(k, text, pos, scope, depth)),
        settled(let_expr_type(k, m, text, depth)),
        settled(match_type(k, m, text, depth)),
        settled(expr_type(k, e, scope, depth)),
        settled(text_type(k, text, scope.file, scope.position, depth)),
{
    lemma_let_type_settled(k, text, pos, scope, depth);
    lemma_let_expr_type_settled(k, m, text, depth);
    lemma_match_type_settled(k, m, text, depth);
    lemma_expr_type_settled(k, e, scope, depth);
    match statement_of(k, RequestV::ParseStatement { source: text }) {
        StepV::Found(Ok(Stmt::Expr(inner))) => {
            lemma_expr_type_settled(k, inner, scope, depth);
        },
        StepV::Found(Ok(Stmt::Let(inner))) => {
            if inner.init is Some {
                lemma_expr_type_settled(k, inner.init.unwrap(), scope, depth);
            }
        },
        _ => {},
    }
}

proof fn lemma_let_type_settled(
    k: Map<RequestV, Answer>,
    text: Seq<u8>,
    pos: usize,
    scope: Scope,
    depth: nat,
)
    ensures
        settled(let_type(k, text, pos, scope, depth)),
{
    match statement_of(k, RequestV::ParseStatement { source: text }) {
        StepV::Found(Ok(Stmt::Expr(e))) => {
            lemma_if_let_settled(k, e, pos, scope, depth, StepV::Nothing);
        },
        _ => {},
    }
}

proof fn lemma_let_expr_type_settled(
    k: Map<RequestV, Answer>,
    m: MatchV,
    msrc: Seq<u8>,
    depth: nat,
)
    ensures
        settled(let_expr_type(k, m, msrc, depth)),
{
    match offset_of(k, RequestV::StatementStart { source: msrc, position: m.position }) {
        StepV::Found(point) => {
            if point <= msrc.len() {
                match range_of(k, RequestV::FirstStatement { source: msrc.skip(point as int) }) {
                    StepV::Found((start, end)) => {
                        if start <= end && point + end <= msrc.len() && m.position >= point
                            + start {
                            lemma_let_type_settled(
                                k,
                                msrc.subrange(point + start, point + end),
                                (m.position - point - start) as usize,
                                Scope { file: m.file, position: m.position },
                                depth,
                            );
                        }
                    },
                    _ => {},
                }
            }
        },
        _ => {},
    }
}

proof fn lemma_match_type_settled(k: Map<RequestV, Answer>, m: MatchV, msrc: Seq<u8>, depth: nat)
    ensures
        settled(match_type(k, m, msrc, depth)),
{
    lemma_fnarg_type_settled(k, m, msrc);
    if depth > 0 {
        lemma_let_expr_type_settled(k, m, msrc, (depth - 1) as nat);
    }
}

proof fn lemma_expr_type_settled(k: Map<RequestV, Answer>, e: Expr, scope: Scope, depth: nat)
    ensures
        settled(expr_type(k, e, scope, depth)),
{
    match e.kind {
        ExprKind::Path(path) => {
            match first_match(k, name_question(path_of(path), scope.file, scope.position)) {
                StepV::Found(m) => {
                    match text_of(k, RequestV::LoadMaskedFile { file: m.file }) {
                        StepV::Found(msrc) => {
                            lemma_match_type_settled(k, m, msrc, depth);
                        },
                        _ => {},
                    }
                },
                _ => {},
            }
        },
        _ => {},
    }
}

// ------------------------------------------------------------ failed parses

/// A fragment that failed to parse gives every extractor its empty record.
pub proof fn law_failed_parse(failure: ParseFailure, scope: Scope, deep: bool)
    ensures
        parsed_spans(Err(failure), deep).len() == 0,
        struct_fields_of(Err(failure), scope).len() == 0,
        declared_name(Err(failure)) is None,
        declared_generics(Err(failure)).len() == 0,
        alias_name(Err(failure)) is None,
        alias_target(Err(failure)) is None,
        trait_name(Err(failure)) is None,
        mod_name(Err(failure)) is None,
        impl_target(Err(failure)) is None,
        impl_trait(Err(failure)) is None,
        enum_name(Err(failure)).len() == 0,
        enum_variants(Err(failure)).len() == 0,
        fn_facts(Err(failure), scope) == empty_fn_value(scope),
        view_facts(Err(failure)) == empty_view_value(),
{
}

/// Where the text of a declaration or of a statement fails to parse,
/// inference finds nothing.
pub proof fn law_failed_parse_infers_nothing(
    k: Map<RequestV, Answer>,
    text: Seq<u8>,
    failure: ParseFailure,
    scope: Scope,
    pos: usize,
    depth: nat,
)
    requires
        statement_of(k, RequestV::ParseStatement { source: text }) == StepV::Found(
            Err::<Stmt, ParseFailure>(failure),
        ),
    ensures
        let_type(k, text, pos, scope, depth) == StepV::<TyV>::Nothing,
        text_type(k, text, scope.file, scope.position, depth) == StepV::<TyV>::Nothing,
{
}

} // verus!
