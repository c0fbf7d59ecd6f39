//! The types of expressions, of `let` bindings and of resolved names.
//!
//! A name that resolves to a `let` binding has the type of that binding,
//! which is inferred in turn from the binding's own statement.  Each such
//! step from a name to its binding costs one unit of `depth`; a chain of
//! bindings longer than `depth` has no type.
//!
//! Each inference comes twice.  Under its plain name it is for a caller who
//! knows that no pattern on the way is asked about at a position outside
//! its bindings or stands against a type of another shape.  Under `try_` it
//! takes every input and ends in `Violation` where that is not so.  Whether
//! a violation lies ahead shows only as the inference runs, so the two forms
//! run the same code.

use vstd::prelude::*;
use crate::convert::{path_of, to_racer_path, to_racer_ty, ty_of};
use crate::fields::{
    get_return_type_of_function, get_struct_field_type, get_tuplestruct_field_type, return_type,
    struct_field_type, tuple_struct_field_type, wrap_in_impl, wrapped_in_impl, IMPL_HEADER_LEN,
};
use crate::host::{first_match, offset_of, range_of, statement_of, text_of, Answer, Known, Namespace, Request, RequestV, Step, StepV};
use crate::items::{impl_target, parse_impl, parse_trait, trait_name};
use crate::model::{FileId, Match, MatchKind, MatchV, Path, PathV, Scope, Ty, TyV};
use crate::pattern::{try_destructure_pattern_to_ty, name_question, pattern_type, resolve_ast_path};
use crate::resolve::{
    field_type_match, find_type_match, find_type_match_including_generics, path_to_match,
    path_to_match_including_generics, resolved, resolved_in_context, type_match, type_question,
};
use crate::signature::{fn_facts, parse_fn};
use crate::text::{ascii, ascii_bytes, copy_slice, cut, find_byte, first_index, first_line, first_line_of, generate_skeleton_for_parsing, has_body, skeleton_of, starts_with, OPEN_BRACE};
use crate::tree::{Expr, ExprKind, Local, Stmt};

verus! {

// ------------------------------------------------------------- parameters

/// The type of the last of the first `n` parameters that stands at the
/// position of the match and has a type path: what that path names as a
/// type.  `base` is what leads from a position in the parsed header to a
/// position in the file.
pub open spec fn arg_type(
    k: Map<RequestV, Answer>,
    args: Seq<(Seq<char>, usize, Option<PathV>)>,
    n: nat,
    m: MatchV,
    base: int,
) -> StepV<TyV>
    decreases n,
{
    if n == 0 || n > args.len() {
        StepV::Nothing
    } else {
        let before = arg_type(k, args, (n - 1) as nat, m, base);
        let (name, pos, path) = args[n - 1];
        if before is Ask {
            before
        } else if pos >= IMPL_HEADER_LEN && pos - IMPL_HEADER_LEN + base == m.position
            && path is Some {
            match first_match(k, type_question(path.unwrap(), m.file, m.position)) {
                StepV::Found(found) => StepV::Found(TyV::Resolved(found)),
                other => other.pass(),
            }
        } else {
            before
        }
    }
}

/// Once the search among the parameters has met a question that is not
/// answered, it ends there.
pub proof fn lemma_arg_type_stop(
    k: Map<RequestV, Answer>,
    args: Seq<(Seq<char>, usize, Option<PathV>)>,
    n: nat,
    upto: nat,
    m: MatchV,
    base: int,
)
    requires
        n <= upto <= args.len(),
        arg_type(k, args, n, m, base) is Ask,
    ensures
        arg_type(k, args, upto, m, base) == arg_type(k, args, n, m, base),
    decreases upto,
{
    if n < upto {
        lemma_arg_type_stop(k, args, n, (upto - 1) as nat, m, base);
    }
}

/// The declaration that the receiver `self` has its methods from: what the
/// implementing type of the `impl` block around the match names, or the
/// trait where the block is a trait.
pub open spec fn self_arg_type(k: Map<RequestV, Answer>, m: MatchV, msrc: Seq<u8>) -> StepV<TyV> {
    match offset_of(k, RequestV::ImplBlockStart { source: msrc, position: m.position }) {
        StepV::Found(start) => if start > msrc.len() || !msrc.skip(start as int).contains(
            OPEN_BRACE,
        ) {
            StepV::Nothing
        } else {
            let rest = msrc.skip(start as int);
            let decl = skeleton_of(rest);
            match statement_of(k, RequestV::ParseStatement { source: decl }) {
                StepV::Found(parsed) => if ascii("impl"@).is_prefix_of(decl) {
                    match impl_target(parsed) {
                        Some(target) => match first_match(k, type_question(target, m.file, start)) {
                            StepV::Found(found) => StepV::Found(TyV::Resolved(found)),
                            other => other.pass(),
                        },
                        None => StepV::Nothing,
                    }
                } else {
                    match trait_name(parsed) {
                        Some(name) => StepV::Found(
                            TyV::Resolved(
                                MatchV {
                                    name,
                                    file: m.file,
                                    position: start,
                                    is_local: m.is_local,
                                    kind: MatchKind::Trait,
                                    context_line: first_line_of(rest),
                                    generic_arg_names: Seq::empty(),
                                    generic_arg_types: Seq::empty(),
                                },
                            ),
                        ),
                        None => StepV::Nothing,
                    }
                },
                other => other.pass(),
            }
        },
        other => other.pass(),
    }
}

/// The type of a parameter of a function.  `self` has the type of its
/// `impl` block.  Any other parameter is looked up in the header of the
/// function around it, parsed inside an `impl` block, by its position.
pub open spec fn fnarg_type(k: Map<RequestV, Answer>, m: MatchV, msrc: Seq<u8>) -> StepV<TyV> {
    if m.name == "self"@ {
        self_arg_type(k, m, msrc)
    } else {
        match offset_of(k, RequestV::StatementStart { source: msrc, position: m.position }) {
            StepV::Found(point) => if point > msrc.len() {
                StepV::Nothing
            } else {
                match range_of(k, RequestV::FirstStatement { source: msrc.skip(point as int) }) {
                    StepV::Found((start, end)) => if !(start <= end && point + end <= msrc.len()) {
                        StepV::Nothing
                    } else {
                        let blob = msrc.subrange(point + start, point + end);
                        match first_index(blob, OPEN_BRACE) {
                            Some(n) => match statement_of(
                                k,
                                RequestV::ParseStatement {
                                    source: wrapped_in_impl(blob.take(n + 1)),
                                },
                            ) {
                                StepV::Found(parsed) => {
                                    let args = fn_facts(parsed, m.scope()).args;
                                    arg_type(k, args, args.len(), m, start + point)
                                },
                                other => other.pass(),
                            },
                            None => StepV::Nothing,
                        }
                    },
                    other => other.pass(),
                }
            },
            other => other.pass(),
        }
    }
}

/// The type of `self`; see [`self_arg_type`].
pub fn get_type_of_self_arg(k: &Known, m: &Match, msrc: &[u8]) -> (r: Step<Ty>)
    ensures
        r.deep_view() == self_arg_type(k@, m.deep_view(), msrc@),
{
    let start = match k.ask_offset(
        Request::ImplBlockStart { source: copy_slice(msrc), position: m.position },
    ) {
        Step::Found(n) => n,
        other => {
            return other.pass();
        },
    };
    if start > msrc.len() {
        return Step::Nothing;
    }
    let rest = cut(msrc, start, msrc.len());
    assert(rest@ =~= msrc@.skip(start as int));
    if !has_body(rest.as_slice()) {
        return Step::Nothing;
    }
    let decl = generate_skeleton_for_parsing(rest.as_slice());
    proof {
        reveal_strlit("impl");
    }
    let keyword = ascii_bytes("impl");
    let is_impl = starts_with(decl.as_slice(), keyword.as_slice());
    let ghost decl_text = decl@;
    let parsed = match k.ask_statement(Request::ParseStatement { source: decl }) {
        Ok(parsed) => parsed,
        Err(e) => {
            return e.pass();
        },
    };
    if is_impl {
        match parse_impl(parsed).name_path {
            Some(target) => match k.ask_match(
                Request::Resolve {
                    path: target,
                    file: m.file,
                    position: start,
                    namespace: Namespace::Type,
                },
            ) {
                Step::Found(found) => Step::Found(Ty::Resolved(found)),
                other => other.pass(),
            },
            None => Step::Nothing,
        }
    } else {
        match parse_trait(parsed).name {
            Some(name) => {
                let found = Match {
                    name,
                    file: m.file,
                    position: start,
                    is_local: m.is_local,
                    kind: MatchKind::Trait,
                    context_line: first_line(rest.as_slice()),
                    generic_arg_names: Vec::new(),
                    generic_arg_types: Vec::new(),
                };
                assert(found.deep_view().generic_arg_names =~= Seq::empty());
                assert(found.deep_view().generic_arg_types =~= Seq::empty());
                Step::Found(Ty::Resolved(found))
            },
            None => Step::Nothing,
        }
    }
}

/// The type of a parameter of a function; see [`fnarg_type`].
pub fn get_type_of_fnarg(k: &Known, m: &Match, msrc: &[u8]) -> (r: Step<Ty>)
    ensures
        r.deep_view() == fnarg_type(k@, m.deep_view(), msrc@),
{
    let receiver = String::from_str("self");
    if m.name == receiver {
        return get_type_of_self_arg(k, m, msrc);
    }
    let point = match k.ask_offset(
        Request::StatementStart { source: copy_slice(msrc), position: m.position },
    ) {
        Step::Found(n) => n,
        other => {
            return other.pass();
        },
    };
    if point > msrc.len() {
        return Step::Nothing;
    }
    let rest = cut(msrc, point, msrc.len());
    assert(rest@ =~= msrc@.skip(point as int));
    let (start, end) = match k.ask_range(Request::FirstStatement { source: rest }) {
        Step::Found(r) => r,
        other => {
            return other.pass();
        },
    };
    if !(start <= end && end <= msrc.len() - point) {
        return Step::Nothing;
    }
    let blob = cut(msrc, point + start, point + end);
    let n = match find_byte(blob.as_slice(), OPEN_BRACE) {
        Some(n) => n,
        None => {
            return Step::Nothing;
        },
    };
    proof {
        blob@.index_of_first_ensures(OPEN_BRACE);
    }
    let header = cut(blob.as_slice(), 0, n + 1);
    let s = wrap_in_impl(header.as_slice());
    let parsed = match k.ask_statement(Request::ParseStatement { source: s }) {
        Ok(parsed) => parsed,
        Err(e) => {
            return e.pass();
        },
    };
    let fn_ = parse_fn(parsed, Scope::from_match(m));
    let ghost args = fn_.args.deep_view();
    let ghost base = start + point;
    let mut result: Step<Ty> = Step::Nothing;
    let mut i: usize = 0;
    while i < fn_.args.len()
        invariant
            i <= fn_.args.len(),
            args == fn_.args.deep_view(),
            base == start + point,
            point + start <= usize::MAX,
            fnarg_type(k@, m.deep_view(), msrc@) == arg_type(
                k@,
                args,
                args.len(),
                m.deep_view(),
                base,
            ),
            result.deep_view() == arg_type(k@, args, i as nat, m.deep_view(), base),
            !(result is Ask),
        decreases fn_.args.len() - i,
    {
        let pos = fn_.args[i].1;
        if m.position >= start + point && pos >= IMPL_HEADER_LEN && pos - IMPL_HEADER_LEN
            == m.position - (start + point) {
            match &fn_.args[i].2 {
                Some(path) => {
                    let found = k.ask_match(
                        Request::Resolve {
                            path: path.duplicate(),
                            file: m.file,
                            position: m.position,
                            namespace: Namespace::Type,
                        },
                    );
                    match found {
                        Step::Found(t) => {
                            result = Step::Found(Ty::Resolved(t));
                        },
                        Step::Ask(q) => {
                            proof {
                                lemma_arg_type_stop(
                                    k@,
                                    args,
                                    (i + 1) as nat,
                                    args.len(),
                                    m.deep_view(),
                                    base,
                                );
                            }
                            return Step::Ask(q);
                        },
                        _ => {
                            result = Step::Nothing;
                        },
                    }
                },
                None => {},
            }
        }
        i += 1;
    }
    result
}

// --------------------------------------------------- expressions and lets

/// The type of an expression, seen from `scope`.
///
/// * A path has the type of the declaration that it first resolves to.
/// * A call has the return type of the function called; a call of a struct
///   is a constructor and has the struct as its type.
/// * A struct literal has the type that its path names.
/// * A method call has the return type of the first method of that name
///   implemented for the receiver's type, resolved with the receiver's
///   generic arguments.
/// * A field of a struct has the field's declared type, resolved with the
///   struct's generic arguments.
/// * A tuple has the tuple of its elements' types, if each has one.
/// * A literal has the type `Unsupported`.
/// * Any other expression has no type.
pub open spec fn expr_type(k: Map<RequestV, Answer>, e: Expr, scope: Scope, depth: nat) -> StepV<TyV>
    decreases depth, 2nat, e,
{
    match e.kind {
        ExprKind::Path(path) => match first_match(
            k,
            name_question(path_of(path), scope.file, scope.position),
        ) {
            StepV::Found(m) => match text_of(k, RequestV::LoadMaskedFile { file: m.file }) {
                StepV::Found(msrc) => match_type(k, m, msrc, depth),
                other => other.pass(),
            },
            other => other.pass(),
        },
        ExprKind::Call => if e.children@.len() == 0 {
            StepV::Nothing
        } else {
            match expr_type(k, e.children@[0], scope, depth) {
                StepV::Found(TyV::Resolved(m)) => if m.kind == MatchKind::Function {
                    match return_type(k, m) {
                        StepV::Found(t) => resolved(k, t),
                        other => other,
                    }
                } else if m.kind == MatchKind::Struct {
                    StepV::Found(TyV::Resolved(m))
                } else {
                    StepV::Nothing
                },
                StepV::Found(_) => StepV::Nothing,
                other => other,
            }
        },
        ExprKind::Struct(path) => type_match(k, path_of(path), scope.file, scope.position),
        ExprKind::MethodCall { method } => if e.children@.len() == 0 {
            StepV::Nothing
        } else {
            match expr_type(k, e.children@[0], scope, depth) {
                StepV::Found(TyV::Resolved(contextm)) => match first_match(
                    k,
                    RequestV::ImplMethods {
                        of_type: contextm.name,
                        method_name: method@,
                        position: contextm.position,
                        file: contextm.file,
                        is_local: contextm.is_local,
                    },
                ) {
                    StepV::Found(found) => match return_type(k, found) {
                        StepV::Found(t) => resolved_in_context(k, t, contextm),
                        other => other,
                    },
                    other => other.pass(),
                },
                StepV::Found(_) => StepV::Nothing,
                other => other,
            }
        },
        ExprKind::Field { name } => if e.children@.len() == 0 {
            StepV::Nothing
        } else {
            match expr_type(k, e.children@[0], scope, depth) {
                StepV::Found(TyV::Resolved(structm)) => if structm.kind == MatchKind::Struct {
                    match struct_field_type(k, name@, structm) {
                        StepV::Found(fieldtype) => field_type_match(
                            k,
                            fieldtype,
                            structm.file,
                            structm.position,
                            structm,
                        ),
                        other => other,
                    }
                } else {
                    StepV::Nothing
                },
                StepV::Found(_) => StepV::Nothing,
                other => other,
            }
        },
        ExprKind::TupField { index } => if e.children@.len() == 0 {
            StepV::Nothing
        } else {
            match expr_type(k, e.children@[0], scope, depth) {
                StepV::Found(TyV::Resolved(structm)) => if structm.kind == MatchKind::Struct {
                    match tuple_struct_field_type(k, index, structm) {
                        StepV::Found(fieldtype) => field_type_match(
                            k,
                            fieldtype,
                            structm.file,
                            structm.position,
                            structm,
                        ),
                        other => other,
                    }
                } else {
                    StepV::Nothing
                },
                StepV::Found(_) => StepV::Nothing,
                other => other,
            }
        },
        ExprKind::Tup => match tuple_types(k, e.children@, e.children@.len(), scope, depth) {
            StepV::Found(elems) => StepV::Found(TyV::Tuple(elems)),
            other => other.pass(),
        },
        ExprKind::Lit => StepV::Found(TyV::Unsupported),
        ExprKind::IfLet { pat } => StepV::Nothing,
        ExprKind::Other => StepV::Nothing,
    }
}

/// The types of the first `n` of the expressions `es`, if each has one.
pub open spec fn tuple_types(
    k: Map<RequestV, Answer>,
    es: Seq<Expr>,
    n: nat,
    scope: Scope,
    depth: nat,
) -> StepV<Seq<TyV>>
    decreases depth, 2nat, es, n,
{
    if n == 0 || n > es.len() {
        StepV::Found(Seq::empty())
    } else {
        match tuple_types(k, es, (n - 1) as nat, scope, depth) {
            StepV::Found(rest) => match expr_type(k, es[n - 1], scope, depth) {
                StepV::Found(t) => StepV::Found(rest.push(t)),
                other => other.pass(),
            },
            other => other,
        }
    }
}

/// The type of a resolved name.  A `let` binding has the type inferred from
/// its statement, at the cost of one unit of `depth`.  A parameter has its
/// declared type.  A struct, an enum, a function and a module are their own
/// type.  Nothing else has one.
pub open spec fn match_type(k: Map<RequestV, Answer>, m: MatchV, msrc: Seq<u8>, depth: nat) -> StepV<TyV>
    decreases depth, 1nat,
{
    match m.kind {
        MatchKind::Let => if depth == 0 {
            StepV::Nothing
        } else {
            let_expr_type(k, m, msrc, (depth - 1) as nat)
        },
        MatchKind::FunctionArgument => fnarg_type(k, m, msrc),
        MatchKind::Struct => StepV::Found(TyV::Resolved(m)),
        MatchKind::Enum => StepV::Found(TyV::Resolved(m)),
        MatchKind::Function => StepV::Found(TyV::Resolved(m)),
        MatchKind::Module => StepV::Found(TyV::Resolved(m)),
        _ => StepV::Nothing,
    }
}

/// The type of a `let` binding: that which the first statement from the
/// start of the statement around the match binds at the match.
pub open spec fn let_expr_type(k: Map<RequestV, Answer>, m: MatchV, msrc: Seq<u8>, depth: nat) -> StepV<TyV>
    decreases depth, 5nat,
{
    match offset_of(k, RequestV::StatementStart { source: msrc, position: m.position }) {
        StepV::Found(point) => if point > msrc.len() {
            StepV::Nothing
        } else {
            match range_of(k, RequestV::FirstStatement { source: msrc.skip(point as int) }) {
                StepV::Found((start, end)) => if !(start <= end && point + end <= msrc.len())
                    || m.position < point + start {
                    StepV::Nothing
                } else {
                    let_type(
                        k,
                        msrc.subrange(point + start, point + end),
                        (m.position - point - start) as usize,
                        Scope { file: m.file, position: m.position },
                        depth,
                    )
                },
                other => other.pass(),
            }
        },
        other => other.pass(),
    }
}

/// The type bound at `pos` by the statement that `text` parses to.
pub open spec fn let_type(k: Map<RequestV, Answer>, text: Seq<u8>, pos: usize, scope: Scope, depth: nat) -> StepV<TyV>
    decreases depth, 4nat,
{
    match statement_of(k, RequestV::ParseStatement { source: text }) {
        StepV::Found(Ok(Stmt::Let(local))) => local_type(k, local, pos, scope, depth),
        StepV::Found(Ok(Stmt::Expr(e))) => if_let_type(k, e, pos, scope, depth, StepV::Nothing),
        StepV::Found(_) => StepV::Nothing,
        other => other.pass(),
    }
}

/// The type bound at `pos` by a `let`: the pattern is matched with the
/// declared type, or else with the type of the initialiser, and what it
/// binds is resolved.
pub open spec fn local_type(k: Map<RequestV, Answer>, local: Local, pos: usize, scope: Scope, depth: nat) -> StepV<TyV>
    decreases depth, 3nat,
{
    let declared = match local.ty {
        Some(t) => ty_of(t, scope),
        None => None,
    };
    let whole = match declared {
        Some(t) => StepV::Found(t),
        None => match local.init {
            Some(e) => expr_type(k, e, scope, depth),
            None => StepV::Nothing,
        },
    };
    match whole {
        StepV::Found(t) => match pattern_type(k, local.pat, pos, t, scope) {
            StepV::Found(bound) => resolved(k, bound),
            other => other,
        },
        other => other,
    }
}

/// The type bound at `pos` by the last `if let` met in `e`; `prior` where
/// there is none.  The pattern of an `if let` is matched with the type of
/// its value, and what it binds is resolved; nothing below an `if let` is
/// looked at.
pub open spec fn if_let_type(
    k: Map<RequestV, Answer>,
    e: Expr,
    pos: usize,
    scope: Scope,
    depth: nat,
    prior: StepV<TyV>,
) -> StepV<TyV>
    decreases depth, 3nat, e,
{
    match e.kind {
        ExprKind::IfLet { pat } => if e.children@.len() == 0 {
            StepV::Nothing
        } else {
            match expr_type(k, e.children@[0], scope, depth) {
                StepV::Found(t) => match pattern_type(k, pat, pos, t, scope) {
                    StepV::Found(bound) => resolved(k, bound),
                    other => other,
                },
                other => other,
            }
        },
        _ => if_let_types(k, e.children@, e.children@.len(), pos, scope, depth, prior),
    }
}

/// What [`if_let_type`] gives for the first `n` of the expressions `es`,
/// taken in order; the first question or violation ends the walk.
pub open spec fn if_let_types(
    k: Map<RequestV, Answer>,
    es: Seq<Expr>,
    n: nat,
    pos: usize,
    scope: Scope,
    depth: nat,
    prior: StepV<TyV>,
) -> StepV<TyV>
    decreases depth, 3nat, es, n,
{
    if n == 0 || n > es.len() {
        prior
    } else {
        let before = if_let_types(k, es, (n - 1) as nat, pos, scope, depth, prior);
        if before is Ask || before is Violation {
            before
        } else {
            if_let_type(k, es[n - 1], pos, scope, depth, before)
        }
    }
}

/// The type of the expression that `text` parses to, seen from `position`
/// in `file`; of a `let` statement, the type of its initialiser.
pub open spec fn text_type(k: Map<RequestV, Answer>, text: Seq<u8>, file: FileId, position: usize, depth: nat) -> StepV<TyV> {
    match statement_of(k, RequestV::ParseStatement { source: text }) {
        StepV::Found(Ok(Stmt::Expr(e))) => expr_type(k, e, Scope { file, position }, depth),
        StepV::Found(Ok(Stmt::Let(local))) => match local.init {
            Some(e) => expr_type(k, e, Scope { file, position }, depth),
            None => StepV::Nothing,
        },
        StepV::Found(_) => StepV::Nothing,
        other => other.pass(),
    }
}

/// The type of an expression; see [`expr_type`].
pub fn try_type_of_expression(k: &Known, expr: &Expr, scope: &Scope, depth: usize) -> (r: Step<Ty>)
    ensures
        r.deep_view() == expr_type(k@, *expr, *scope, depth as nat),
    decreases depth, 2nat, expr,
{
    match &expr.kind {
        ExprKind::Path(path) => {
            let m = match resolve_ast_path(k, path, scope.file, scope.position) {
                Step::Found(m) => m,
                other => {
                    return other.pass();
                },
            };
            let msrc = match k.ask_text(Request::LoadMaskedFile { file: m.file }) {
                Step::Found(t) => t,
                other => {
                    return other.pass();
                },
            };
            try_get_type_of_match(k, m, msrc.as_slice(), depth)
        },
        ExprKind::Call => {
            if expr.children.len() == 0 {
                return Step::Nothing;
            }
            match try_type_of_expression(k, &expr.children[0], scope, depth) {
                Step::Found(Ty::Resolved(m)) => match m.kind {
                    MatchKind::Function => match get_return_type_of_function(k, &m) {
                        Step::Found(t) => path_to_match(k, t),
                        other => other,
                    },
                    MatchKind::Struct => Step::Found(Ty::Resolved(m)),
                    _ => Step::Nothing,
                },
                Step::Found(_) => Step::Nothing,
                other => other,
            }
        },
        ExprKind::Struct(path) => {
            let pathvec = to_racer_path(path);
            find_type_match(k, &pathvec, scope.file, scope.position)
        },
        ExprKind::MethodCall { method } => {
            if expr.children.len() == 0 {
                return Step::Nothing;
            }
            match try_type_of_expression(k, &expr.children[0], scope, depth) {
                Step::Found(Ty::Resolved(contextm)) => {
                    let omethod = k.ask_match(
                        Request::ImplMethods {
                            of_type: contextm.name.clone(),
                            method_name: method.clone(),
                            position: contextm.position,
                            file: contextm.file,
                            is_local: contextm.is_local,
                        },
                    );
                    match omethod {
                        Step::Found(found) => match get_return_type_of_function(k, &found) {
                            Step::Found(t) => path_to_match_including_generics(k, t, &contextm),
                            other => other,
                        },
                        other => other.pass(),
                    }
                },
                Step::Found(_) => Step::Nothing,
                other => other,
            }
        },
        ExprKind::Field { name } => {
            if expr.children.len() == 0 {
                return Step::Nothing;
            }
            match try_type_of_expression(k, &expr.children[0], scope, depth) {
                Step::Found(Ty::Resolved(structm)) => match structm.kind {
                    MatchKind::Struct => match get_struct_field_type(k, name, &structm) {
                        Step::Found(fieldtype) => find_type_match_including_generics(
                            k,
                            &fieldtype,
                            structm.file,
                            structm.position,
                            &structm,
                        ),
                        other => other,
                    },
                    _ => Step::Nothing,
                },
                Step::Found(_) => Step::Nothing,
                other => other,
            }
        },
        ExprKind::TupField { index } => {
            if expr.children.len() == 0 {
                return Step::Nothing;
            }
            match try_type_of_expression(k, &expr.children[0], scope, depth) {
                Step::Found(Ty::Resolved(structm)) => match structm.kind {
                    MatchKind::Struct => match get_tuplestruct_field_type(k, *index, &structm) {
                        Step::Found(fieldtype) => find_type_match_including_generics(
                            k,
                            &fieldtype,
                            structm.file,
                            structm.position,
                            &structm,
                        ),
                        other => other,
                    },
                    _ => Step::Nothing,
                },
                Step::Found(_) => Step::Nothing,
                other => other,
            }
        },
        ExprKind::Tup => {
            let mut v: Vec<Ty> = Vec::new();
            let mut i: usize = 0;
            assert(v.deep_view() =~= Seq::empty());
            while i < expr.children.len()
                invariant
                    expr.kind is Tup,
                    i <= expr.children.len(),
                    tuple_types(k@, expr.children@, i as nat, *scope, depth as nat) == StepV::Found(
                        v.deep_view(),
                    ),
                decreases expr.children.len() - i,
            {
                match try_type_of_expression(k, &expr.children[i], scope, depth) {
                    Step::Found(t) => {
                        let ghost before = v.deep_view();
                        v.push(t);
                        assert(v.deep_view() =~= before.push(t.deep_view()));
                    },
                    other => {
                        proof {
                            lemma_tuple_types_stop(
                                k@,
                                expr.children@,
                                (i + 1) as nat,
                                expr.children@.len(),
                                *scope,
                                depth as nat,
                            );
                        }
                        return other;
                    },
                }
                i += 1;
            }
            let r = Ty::Tuple(v);
            assert(r.deep_view()->Tuple_0 =~= v.deep_view());
            Step::Found(r)
        },
        ExprKind::Lit => Step::Found(Ty::Unsupported),
        ExprKind::IfLet { pat } => Step::Nothing,
        ExprKind::Other => Step::Nothing,
    }
}

/// Where the types of a prefix of the elements end without a result, the
/// types of every longer prefix end the same way.
pub proof fn lemma_tuple_types_stop(
    k: Map<RequestV, Answer>,
    es: Seq<Expr>,
    n: nat,
    m: nat,
    scope: Scope,
    depth: nat,
)
    requires
        n <= m <= es.len(),
        !(tuple_types(k, es, n, scope, depth) is Found),
    ensures
        tuple_types(k, es, m, scope, depth) == tuple_types(k, es, n, scope, depth),
    decreases m,
{
    if n < m {
        lemma_tuple_types_stop(k, es, n, (m - 1) as nat, scope, depth);
    }
}

/// The type of a resolved name; see [`match_type`].
pub fn try_get_type_of_match(k: &Known, m: Match, msrc: &[u8], depth: usize) -> (r: Step<Ty>)
    ensures
        r.deep_view() == match_type(k@, m.deep_view(), msrc@, depth as nat),
    decreases depth, 1nat,
{
    match m.kind {
        MatchKind::Let => {
            if depth == 0 {
                Step::Nothing
            } else {
                try_get_type_of_let_expr(k, &m, msrc, depth - 1)
            }
        },
        MatchKind::FunctionArgument => get_type_of_fnarg(k, &m, msrc),
        MatchKind::Struct => Step::Found(Ty::Resolved(m)),
        MatchKind::Enum => Step::Found(Ty::Resolved(m)),
        MatchKind::Function => Step::Found(Ty::Resolved(m)),
        MatchKind::Module => Step::Found(Ty::Resolved(m)),
        _ => Step::Nothing,
    }
}

/// The type of a `let` binding; see [`let_expr_type`].
pub fn try_get_type_of_let_expr(k: &Known, m: &Match, msrc: &[u8], depth: usize) -> (r: Step<Ty>)
    ensures
        r.deep_view() == let_expr_type(k@, m.deep_view(), msrc@, depth as nat),
    decreases depth, 5nat,
{
    let point = match k.ask_offset(
        Request::StatementStart { source: copy_slice(msrc), position: m.position },
    ) {
        Step::Found(n) => n,
        other => {
            return other.pass();
        },
    };
    if point > msrc.len() {
        return Step::Nothing;
    }
    let src = cut(msrc, point, msrc.len());
    assert(src@ =~= msrc@.skip(point as int));
    let (start, end) = match k.ask_range(Request::FirstStatement { source: src }) {
        Step::Found(r) => r,
        other => {
            return other.pass();
        },
    };
    if !(start <= end && end <= msrc.len() - point) || m.position < point + start {
        return Step::Nothing;
    }
    let blob = cut(msrc, point + start, point + end);
    let pos = m.position - point - start;
    let scope = Scope { file: m.file, position: m.position };
    try_get_let_type(k, blob.as_slice(), pos, scope, depth)
}

/// The type bound at `pos` by the statement that `stmtstr` parses to; see
/// [`let_type`].
pub fn try_get_let_type(k: &Known, stmtstr: &[u8], pos: usize, scope: Scope, depth: usize) -> (r: Step<Ty>)
    ensures
        r.deep_view() == let_type(k@, stmtstr@, pos, scope, depth as nat),
    decreases depth, 4nat,
{
    let parsed = match k.ask_statement(Request::ParseStatement { source: copy_slice(stmtstr) }) {
        Ok(parsed) => parsed,
        Err(e) => {
            return e.pass();
        },
    };
    match parsed {
        Ok(Stmt::Let(local)) => try_type_of_local(k, local, pos, &scope, depth),
        Ok(Stmt::Expr(e)) => try_type_of_if_let(k, e, pos, &scope, depth, Step::Nothing),
        _ => Step::Nothing,
    }
}

/// The type bound at `pos` by a `let`; see [`local_type`].
pub fn try_type_of_local(k: &Known, local: &Local, pos: usize, scope: &Scope, depth: usize) -> (r: Step<Ty>)
    ensures
        r.deep_view() == local_type(k@, *local, pos, *scope, depth as nat),
    decreases depth, 3nat,
{
    let declared = match &local.ty {
        Some(t) => to_racer_ty(t, scope),
        None => None,
    };
    let whole = match declared {
        Some(t) => Step::Found(t),
        None => match &local.init {
            Some(initexpr) => try_type_of_expression(k, initexpr, scope, depth),
            None => Step::Nothing,
        },
    };
    match whole {
        Step::Found(t) => match try_destructure_pattern_to_ty(k, &local.pat, pos, &t, scope) {
            Step::Found(bound) => path_to_match(k, bound),
            other => other,
        },
        other => other,
    }
}

/// The type bound at `pos` by the last `if let` met in `ex`; see
/// [`if_let_type`].
pub fn try_type_of_if_let(
    k: &Known,
    ex: &Expr,
    pos: usize,
    scope: &Scope,
    depth: usize,
    prior: Step<Ty>,
) -> (r: Step<Ty>)
    ensures
        r.deep_view() == if_let_type(k@, *ex, pos, *scope, depth as nat, prior.deep_view()),
    decreases depth, 3nat, ex,
{
    match &ex.kind {
        ExprKind::IfLet { pat } => {
            if ex.children.len() == 0 {
                return Step::Nothing;
            }
            match try_type_of_expression(k, &ex.children[0], scope, depth) {
                Step::Found(t) => match try_destructure_pattern_to_ty(k, pat, pos, &t, scope) {
                    Step::Found(bound) => path_to_match(k, bound),
                    other => other,
                },
                other => other,
            }
        },
        _ => {
            let mut result = prior;
            let mut i: usize = 0;
            while i < ex.children.len()
                invariant
                    i <= ex.children.len(),
                    result.deep_view() == if_let_types(
                        k@,
                        ex.children@,
                        i as nat,
                        pos,
                        *scope,
                        depth as nat,
                        prior.deep_view(),
                    ),
                decreases ex.children.len() - i,
            {
                match result {
                    Step::Ask(q) => {
                        result = Step::Ask(q);
                    },
                    Step::Violation(c) => {
                        result = Step::Violation(c);
                    },
                    other => {
                        result = try_type_of_if_let(k, &ex.children[i], pos, scope, depth, other);
                    },
                }
                i += 1;
            }
            result
        },
    }
}

/// The type of the expression that `exprstr` parses to; see [`text_type`].
pub fn try_get_type_of(k: &Known, exprstr: &[u8], file: FileId, position: usize, depth: usize) -> (r: Step<Ty>)
    ensures
        r.deep_view() == text_type(k@, exprstr@, file, position, depth as nat),
{
    let parsed = match k.ask_statement(Request::ParseStatement { source: copy_slice(exprstr) }) {
        Ok(parsed) => parsed,
        Err(e) => {
            return e.pass();
        },
    };
    let startscope = Scope { file, position };
    match parsed {
        Ok(Stmt::Expr(e)) => try_type_of_expression(k, e, &startscope, depth),
        Ok(Stmt::Let(local)) => match &local.init {
            Some(e) => try_type_of_expression(k, e, &startscope, depth),
            None => Step::Nothing,
        },
        _ => Step::Nothing,
    }
}

/// The type of an expression; see [`expr_type`].
pub fn type_of_expression(k: &Known, expr: &Expr, scope: &Scope, depth: usize) -> (r: Step<Ty>)
    requires
        !(expr_type(k@, *expr, *scope, depth as nat) is Violation),
    ensures
        r.deep_view() == expr_type(k@, *expr, *scope, depth as nat),
{
    try_type_of_expression(k, expr, scope, depth)
}

/// The type of a resolved name; see [`match_type`].
pub fn get_type_of_match(k: &Known, m: Match, msrc: &[u8], depth: usize) -> (r: Step<Ty>)
    requires
        !(match_type(k@, m.deep_view(), msrc@, depth as nat) is Violation),
    ensures
        r.deep_view() == match_type(k@, m.deep_view(), msrc@, depth as nat),
{
    try_get_type_of_match(k, m, msrc, depth)
}

/// The type of a `let` binding; see [`let_expr_type`].
pub fn get_type_of_let_expr(k: &Known, m: &Match, msrc: &[u8], depth: usize) -> (r: Step<Ty>)
    requires
        !(let_expr_type(k@, m.deep_view(), msrc@, depth as nat) is Violation),
    ensures
        r.deep_view() == let_expr_type(k@, m.deep_view(), msrc@, depth as nat),
{
    try_get_type_of_let_expr(k, m, msrc, depth)
}

/// The type bound at `pos` by the statement that `stmtstr` parses to; see
/// [`let_type`].
pub fn get_let_type(k: &Known, stmtstr: &[u8], pos: usize, scope: Scope, depth: usize) -> (r: Step<Ty>)
    requires
        !(let_type(k@, stmtstr@, pos, scope, depth as nat) is Violation),
    ensures
        r.deep_view() == let_type(k@, stmtstr@, pos, scope, depth as nat),
{
    try_get_let_type(k, stmtstr, pos, scope, depth)
}

/// The type bound at `pos` by a `let`; see [`local_type`].
pub fn type_of_local(k: &Known, local: &Local, pos: usize, scope: &Scope, depth: usize) -> (r: Step<Ty>)
    requires
        !(local_type(k@, *local, pos, *scope, depth as nat) is Violation),
    ensures
        r.deep_view() == local_type(k@, *local, pos, *scope, depth as nat),
{
    try_type_of_local(k, local, pos, scope, depth)
}

/// The type bound at `pos` by the last `if let` met in `ex`; see
/// [`if_let_type`].
pub fn type_of_if_let(
    k: &Known,
    ex: &Expr,
    pos: usize,
    scope: &Scope,
    depth: usize,
    prior: Step<Ty>,
) -> (r: Step<Ty>)
    requires
        !(if_let_type(k@, *ex, pos, *scope, depth as nat, prior.deep_view()) is Violation),
    ensures
        r.deep_view() == if_let_type(k@, *ex, pos, *scope, depth as nat, prior.deep_view()),
{
    try_type_of_if_let(k, ex, pos, scope, depth, prior)
}

/// The type of the expression that `exprstr` parses to; see [`text_type`].
pub fn get_type_of(k: &Known, exprstr: &[u8], file: FileId, position: usize, depth: usize) -> (r: Step<Ty>)
    requires
        !(text_type(k@, exprstr@, file, position, depth as nat) is Violation),
    ensures
        r.deep_view() == text_type(k@, exprstr@, file, position, depth as nat),
{
    try_get_type_of(k, exprstr, file, position, depth)
}

} // verus!
