//! What holds of the exchange with the host: an inference asks only what
//! the table does not answer, and once it has ended without a question, no
//! further answer changes how it ended.

use vstd::prelude::*;
use crate::convert::{path_of, ty_of};
use crate::fields::{
    first_statement, mentions_self, return_type, struct_field_type, struct_source,
    tuple_struct_field_type, tuple_struct_source, wrapped_in_impl,
};
use crate::host::{
    extends, first_match, flag_of, offset_of, range_of, statement_of, text_of, Answer, RequestV,
    StepV,
};
use crate::infer::{
    arg_type, expr_type, fnarg_type, if_let_type, if_let_types, let_expr_type, let_type,
    local_type, match_type, self_arg_type, text_type, tuple_types,
};
use crate::model::{FileId, MatchV, PathV, Scope, TyV};
use crate::pattern::{first_holding, name_question, payload_type, pattern_type};
use crate::resolve::{
    field_type_match, resolved, resolved_in_context, substituted, type_match, type_question,
    typedef_target,
};
use crate::signature::fn_facts;
use crate::text::{first_index, OPEN_BRACE};
use crate::tree::{Expr, ExprKind, Local, Pat, PatKind, Stmt};

verus! {

/// Whether two endings of one inference, the first on a table and the
/// second on a table with more answers, are as the exchange needs them: a
/// question is not answered by the first table, and any other ending is
/// also the second.
pub open spec fn steady<T>(k: Map<RequestV, Answer>, first: StepV<T>, second: StepV<T>) -> bool {
    &&& first matches StepV::Ask(q) ==> !k.contains_key(q)
    &&& !(first is Ask) ==> second == first
}

/// What the table itself gives for a question is steady.
pub proof fn lemma_answers_steady(k: Map<RequestV, Answer>, more: Map<RequestV, Answer>, q: RequestV)
    requires
        extends(more, k),
    ensures
        steady(k, first_match(k, q), first_match(more, q)),
        steady(k, text_of(k, q), text_of(more, q)),
        steady(k, offset_of(k, q), offset_of(more, q)),
        steady(k, range_of(k, q), range_of(more, q)),
        steady(k, flag_of(k, q), flag_of(more, q)),
        steady(k, statement_of(k, q), statement_of(more, q)),
{
}

/// What a type alias stands for is steady.
pub proof fn lemma_typedef_steady(k: Map<RequestV, Answer>, more: Map<RequestV, Answer>, m: MatchV)
    requires
        extends(more, k),
    ensures
        steady(k, typedef_target(k, m), typedef_target(more, m)),
{
}

/// The type that a path names is steady.
pub proof fn lemma_type_match_steady(
    k: Map<RequestV, Answer>,
    more: Map<RequestV, Answer>,
    path: PathV,
    file: FileId,
    position: usize,
)
    requires
        extends(more, k),
    ensures
        steady(k, type_match(k, path, file, position), type_match(more, path, file, position)),
{
    match first_match(k, type_question(path, file, position)) {
        StepV::Found(m) => {
            lemma_typedef_steady(k, more, m);
        },
        _ => {},
    }
}

/// Resolution of a type from its own scope is steady.
pub proof fn lemma_resolved_steady(k: Map<RequestV, Answer>, more: Map<RequestV, Answer>, ty: TyV)
    requires
        extends(more, k),
    ensures
        steady(k, resolved(k, ty), resolved(more, ty)),
{
    match ty {
        TyV::Deferred(path, scope) => {
            lemma_type_match_steady(k, more, path, scope.file, scope.position);
        },
        _ => {},
    }
}

/// Resolution of a type in the context of an instantiated declaration is
/// steady.
pub proof fn lemma_resolved_in_context_steady(
    k: Map<RequestV, Answer>,
    more: Map<RequestV, Answer>,
    ty: TyV,
    context: MatchV,
    file: FileId,
    position: usize,
)
    requires
        extends(more, k),
    ensures
        steady(k, resolved_in_context(k, ty, context), resolved_in_context(more, ty, context)),
        steady(
            k,
            field_type_match(k, ty, file, position, context),
            field_type_match(more, ty, file, position, context),
        ),
{
    match ty {
        TyV::Deferred(path, scope) => {
            let inner = substituted(path, scope, context);
            lemma_type_match_steady(k, more, inner.path, inner.file, inner.position);
            let outer = substituted(path, Scope { file, position }, context);
            lemma_type_match_steady(k, more, outer.path, outer.file, outer.position);
        },
        _ => {},
    }
}

/// The texts that declarations are read from are steady.
pub proof fn lemma_sources_steady(
    k: Map<RequestV, Answer>,
    more: Map<RequestV, Answer>,
    m: MatchV,
    src: Seq<u8>,
)
    requires
        extends(more, k),
    ensures
        steady(k, first_statement(k, src), first_statement(more, src)),
        steady(k, struct_source(k, m), struct_source(more, m)),
        steady(k, tuple_struct_source(k, m), tuple_struct_source(more, m)),
        steady(k, mentions_self(k, src), mentions_self(more, src)),
{
    match text_of(k, RequestV::LoadFile { file: m.file }) {
        StepV::Found(text) => {
            match offset_of(k, RequestV::StatementStart { source: text, position: m.position }) {
                StepV::Found(start) => {
                    if start <= text.len() {
                        lemma_first_statement_steady(k, more, text.skip(start as int));
                    }
                },
                _ => {},
            }
        },
        _ => {},
    }
    lemma_first_statement_steady(k, more, src);
}

proof fn lemma_first_statement_steady(
    k: Map<RequestV, Answer>,
    more: Map<RequestV, Answer>,
    src: Seq<u8>,
)
    requires
        extends(more, k),
    ensures
        steady(k, first_statement(k, src), first_statement(more, src)),
{
}

/// The declared types of fields and functions are steady.
pub proof fn lemma_declared_types_steady(
    k: Map<RequestV, Answer>,
    more: Map<RequestV, Answer>,
    m: MatchV,
    name: Seq<char>,
    n: usize,
)
    requires
        extends(more, k),
    ensures
        steady(k, struct_field_type(k, name, m), struct_field_type(more, name, m)),
        steady(k, tuple_struct_field_type(k, n, m), tuple_struct_field_type(more, n, m)),
        steady(k, return_type(k, m), return_type(more, m)),
{
    lemma_sources_steady(k, more, m, Seq::empty());
}

/// The type of a positional field in its context is steady.
pub proof fn lemma_payload_steady(
    k: Map<RequestV, Answer>,
    more: Map<RequestV, Answer>,
    m: MatchV,
    i: usize,
    context: StepV<TyV>,
)
    requires
        extends(more, k),
    ensures
        steady(k, payload_type(k, m, i, context), payload_type(more, m, i, context)),
{
    lemma_declared_types_steady(k, more, m, Seq::empty(), i);
    match tuple_struct_field_type(k, i, m) {
        StepV::Found(fieldtype) => {
            match context {
                StepV::Found(TyV::Resolved(contextm)) => {
                    lemma_resolved_in_context_steady(k, more, fieldtype, contextm, m.file, 0);
                },
                _ => {
                    lemma_resolved_steady(k, more, fieldtype);
                },
            }
        },
        _ => {},
    }
}

/// What a pattern binds at a position is steady.
pub proof fn lemma_pattern_steady(
    k: Map<RequestV, Answer>,
    more: Map<RequestV, Answer>,
    pat: Pat,
    point: usize,
    ty: TyV,
    scope: Scope,
)
    requires
        extends(more, k),
    ensures
        steady(k, pattern_type(k, pat, point, ty, scope), pattern_type(more, pat, point, ty, scope)),
    decreases pat,
{
    match pat.kind {
        PatKind::Tup => {
            match ty {
                TyV::Tuple(elems) => {
                    if elems.len() == pat.children@.len() {
                        match first_holding(pat.children@, point, 0) {
                            Some(i) => {
                                if 0 <= i < pat.children@.len() {
                                    lemma_pattern_steady(
                                        k,
                                        more,
                                        pat.children@[i],
                                        point,
                                        elems[i],
                                        scope,
                                    );
                                }
                            },
                            None => {},
                        }
                    }
                },
                _ => {},
            }
        },
        PatKind::Enum { path } => {
            match first_match(k, name_question(path_of(path), scope.file, scope.position)) {
                StepV::Found(m) => {
                    match first_holding(pat.children@, point, 0) {
                        Some(i) => {
                            if 0 <= i < pat.children@.len() {
                                lemma_resolved_steady(k, more, ty);
                                let context = resolved(k, ty);
                                if !(context is Ask) {
                                    lemma_payload_steady(k, more, m, i as usize, context);
                                    match payload_type(k, m, i as usize, context) {
                                        StepV::Found(t) => {
                                            lemma_pattern_steady(
                                                k,
                                                more,
                                                pat.children@[i],
                                                point,
                                                t,
                                                scope,
                                            );
                                        },
                                        _ => {},
                                    }
                                }
                            }
                        },
                        None => {},
                    }
                },
                _ => {},
            }
        },
        _ => {},
    }
}

/// The search among the parameters of a function is steady.
pub proof fn lemma_arg_steady(
    k: Map<RequestV, Answer>,
    more: Map<RequestV, Answer>,
    args: Seq<(Seq<char>, usize, Option<PathV>)>,
    n: nat,
    m: MatchV,
    base: int,
)
    requires
        extends(more, k),
    ensures
        steady(k, arg_type(k, args, n, m, base), arg_type(more, args, n, m, base)),
    decreases n,
{
    if n > 0 && n <= args.len() {
        lemma_arg_steady(k, more, args, (n - 1) as nat, m, base);
    }
}

/// The type of a parameter is steady.
pub proof fn lemma_fnarg_steady(
    k: Map<RequestV, Answer>,
    more: Map<RequestV, Answer>,
    m: MatchV,
    msrc: Seq<u8>,
)
    requires
        extends(more, k),
    ensures
        steady(k, self_arg_type(k, m, msrc), self_arg_type(more, m, msrc)),
        steady(k, fnarg_type(k, m, msrc), fnarg_type(more, m, msrc)),
{
    if m.name != "self"@ {
        match offset_of(k, RequestV::StatementStart { source: msrc, position: m.position }) {
            StepV::Found(point) => {
                if point <= msrc.len() {
                    match range_of(
                        k,
                        RequestV::FirstStatement { source: msrc.skip(point as int) },
                    ) {
                        StepV::Found((start, end)) => {
                            if start <= end && point + end <= msrc.len() {
                                let blob = msrc.subrange(point + start, point + end);
                                match first_index(blob, OPEN_BRACE) {
                                    Some(n) => {
                                        match statement_of(
                                            k,
                                            RequestV::ParseStatement {
                                                source: wrapped_in_impl(blob.take(n + 1)),
                                            },
                                        ) {
                                            StepV::Found(parsed) => {
                                                let args = fn_facts(parsed, m.scope()).args;
                                                lemma_arg_steady(
                                                    k,
                                                    more,
                                                    args,
                                                    args.len(),
                                                    m,
                                                    start + point,
                                                );
                                            },
                                            _ => {},
                                        }
                                    },
                                    None => {},
                                }
                            }
                        },
                        _ => {},
                    }
                }
            },
            _ => {},
        }
    }
}

/// The type of an expression is steady.
pub proof fn lemma_expr_steady(
    k: Map<RequestV, Answer>,
    more: Map<RequestV, Answer>,
    e: Expr,
    scope: Scope,
    depth: nat,
)
    requires
        extends(more, k),
    ensures
        steady(k, expr_type(k, e, scope, depth), expr_type(more, e, scope, depth)),
    decreases depth, 2nat, e,
{
    match e.kind {
        ExprKind::Path(path) => {
            match first_match(k, name_question(path_of(path), scope.file, scope.position)) {
                StepV::Found(m) => {
                    match text_of(k, RequestV::LoadMaskedFile { file: m.file }) {
                        StepV::Found(msrc) => {
                            lemma_match_steady(k, more, m, msrc, depth);
                        },
                        _ => {},
                    }
                },
                _ => {},
            }
        },
        ExprKind::Call => {
            if e.children@.len() > 0 {
                lemma_expr_steady(k, more, e.children@[0], scope, depth);
                match expr_type(k, e.children@[0], scope, depth) {
                    StepV::Found(TyV::Resolved(m)) => {
                        lemma_declared_types_steady(k, more, m, Seq::empty(), 0);
                        match return_type(k, m) {
                            StepV::Found(t) => {
                                lemma_resolved_steady(k, more, t);
                            },
                            _ => {},
                        }
                    },
                    _ => {},
                }
            }
        },
        ExprKind::Struct(path) => {
            lemma_type_match_steady(k, more, path_of(path), scope.file, scope.position);
        },
        ExprKind::MethodCall { method } => {
            if e.children@.len() > 0 {
                lemma_expr_steady(k, more, e.children@[0], scope, depth);
                match expr_type(k, e.children@[0], scope, depth) {
                    StepV::Found(TyV::Resolved(contextm)) => {
                        match first_match(
                            k,
                            RequestV::ImplMethods {
                                of_type: contextm.name,
                                method_name: method@,
                                position: contextm.position,
                                file: contextm.file,
                                is_local: contextm.is_local,
                            },
                        ) {
                            StepV::Found(found) => {
                                lemma_declared_types_steady(k, more, found, Seq::empty(), 0);
                                match return_type(k, found) {
                                    StepV::Found(t) => {
                                        lemma_resolved_in_context_steady(
                                            k,
                                            more,
                                            t,
                                            contextm,
                                            found.file,
                                            0,
                                        );
                                    },
                                    _ => {},
                                }
                            },
                            _ => {},
                        }
                    },
                    _ => {},
                }
            }
        },
        ExprKind::Field { name } => {
            if e.children@.len() > 0 {
                lemma_expr_steady(k, more, e.children@[0], scope, depth);
                match expr_type(k, e.children@[0], scope, depth) {
                    StepV::Found(TyV::Resolved(structm)) => {
                        lemma_declared_types_steady(k, more, structm, name@, 0);
                        match struct_field_type(k, name@, structm) {
                            StepV::Found(fieldtype) => {
                                lemma_resolved_in_context_steady(
                                    k,
                                    more,
                                    fieldtype,
                                    structm,
                                    structm.file,
                                    structm.position,
                                );
                            },
                            _ => {},
                        }
                    },
                    _ => {},
                }
            }
        },
        ExprKind::TupField { index } => {
            if e.children@.len() > 0 {
                lemma_expr_steady(k, more, e.children@[0], scope, depth);
                match expr_type(k, e.children@[0], scope, depth) {
                    StepV::Found(TyV::Resolved(structm)) => {
                        lemma_declared_types_steady(k, more, structm, Seq::empty(), index);
                        match tuple_struct_field_type(k, index, structm) {
                            StepV::Found(fieldtype) => {
                                lemma_resolved_in_context_steady(
                                    k,
                                    more,
                                    fieldtype,
                                    structm,
                                    structm.file,
                                    structm.position,
                                );
                            },
                            _ => {},
                        }
                    },
                    _ => {},
                }
            }
        },
        ExprKind::Tup => {
            lemma_tuple_steady(k, more, e.children@, e.children@.len(), scope, depth);
        },
        _ => {},
    }
}

/// The types of the elements of a tuple are steady.
pub proof fn lemma_tuple_steady(
    k: Map<RequestV, Answer>,
    more: Map<RequestV, Answer>,
    es: Seq<Expr>,
    n: nat,
    scope: Scope,
    depth: nat,
)
    requires
        extends(more, k),
    ensures
        steady(k, tuple_types(k, es, n, scope, depth), tuple_types(more, es, n, scope, depth)),
    decreases depth, 2nat, es, n,
{
    if n > 0 && n <= es.len() {
        lemma_tuple_steady(k, more, es, (n - 1) as nat, scope, depth);
        lemma_expr_steady(k, more, es[n - 1], scope, depth);
    }
}

/// The type of a resolved name is steady.
pub proof fn lemma_match_steady(
    k: Map<RequestV, Answer>,
    more: Map<RequestV, Answer>,
    m: MatchV,
    msrc: Seq<u8>,
    depth: nat,
)
    requires
        extends(more, k),
    ensures
        steady(k, match_type(k, m, msrc, depth), match_type(more, m, msrc, depth)),
    decreases depth, 1nat,
{
    lemma_fnarg_steady(k, more, m, msrc);
    if depth > 0 {
        lemma_let_expr_steady(k, more, m, msrc, (depth - 1) as nat);
    }
}

/// The type of a `let` binding is steady.
pub proof fn lemma_let_expr_steady(
    k: Map<RequestV, Answer>,
    more: Map<RequestV, Answer>,
    m: MatchV,
    msrc: Seq<u8>,
    depth: nat,
)
    requires
        extends(more, k),
    ensures
        steady(k, let_expr_type(k, m, msrc, depth), let_expr_type(more, m, msrc, depth)),
    decreases depth, 5nat,
{
    match offset_of(k, RequestV::StatementStart { source: msrc, position: m.position }) {
        StepV::Found(point) => {
            if point <= msrc.len() {
                match range_of(k, RequestV::FirstStatement { source: msrc.skip(point as int) }) {
                    StepV::Found((start, end)) => {
                        if start <= end && point + end <= msrc.len() && m.position >= point
                            + start {
                            lemma_let_steady(
                                k,
                                more,
                                msrc.subrange(point + start, point + end),
                                (m.position - point - start) as usize,
                                Scope { file: m.file, position: m.position },
                                depth,
                            );
                        }
                    },
                    _ => {},
                }
            }
        },
        _ => {},
    }
}

/// The type that a statement binds at a position is steady.
pub proof fn lemma_let_steady(
    k: Map<RequestV, Answer>,
    more: Map<RequestV, Answer>,
    text: Seq<u8>,
    pos: usize,
    scope: Scope,
    depth: nat,
)
    requires
        extends(more, k),
    ensures
        steady(k, let_type(k, text, pos, scope, depth), let_type(more, text, pos, scope, depth)),
    decreases depth, 4nat,
{
    match statement_of(k, RequestV::ParseStatement { source: text }) {
        StepV::Found(Ok(Stmt::Let(local))) => {
            lemma_local_steady(k, more, local, pos, scope, depth);
        },
        StepV::Found(Ok(Stmt::Expr(e))) => {
            lemma_if_let_steady(k, more, e, pos, scope, depth, StepV::Nothing);
        },
        _ => {},
    }
}

/// The type that a `let` binds at a position is steady.
pub proof fn lemma_local_steady(
    k: Map<RequestV, Answer>,
    more: Map<RequestV, Answer>,
    local: Local,
    pos: usize,
    scope: Scope,
    depth: nat,
)
    requires
        extends(more, k),
    ensures
        steady(
            k,
            local_type(k, local, pos, scope, depth),
            local_type(more, local, pos, scope, depth),
        ),
    decreases depth, 3nat,
{
    let declared = match local.ty {
        Some(t) => ty_of(t, scope),
        None => None,
    };
    let whole = match declared {
        Some(t) => StepV::Found(t),
        None => match local.init {
            Some(e) => {
                lemma_expr_steady(k, more, e, scope, depth);
                expr_type(k, e, scope, depth)
            },
            None => StepV::Nothing,
        },
    };
    match whole {
        StepV::Found(t) => {
            lemma_bound_steady(k, more, local.pat, pos, t, scope);
        },
        _ => {},
    }
}

/// What a pattern binds in a type, resolved.
proof fn lemma_bound_steady(
    k: Map<RequestV, Answer>,
    more: Map<RequestV, Answer>,
    pat: Pat,
    pos: usize,
    t: TyV,
    scope: Scope,
)
    requires
        extends(more, k),
    ensures
        steady(k, pattern_type(k, pat, pos, t, scope), pattern_type(more, pat, pos, t, scope)),
        pattern_type(k, pat, pos, t, scope) matches StepV::Found(bound) ==> steady(
            k,
            resolved(k, bound),
            resolved(more, bound),
        ),
{
    lemma_pattern_steady(k, more, pat, pos, t, scope);
    match pattern_type(k, pat, pos, t, scope) {
        StepV::Found(bound) => {
            lemma_resolved_steady(k, more, bound);
        },
        _ => {},
    }
}

/// The type that the last `if let` in an expression binds is steady.
pub proof fn lemma_if_let_steady(
    k: Map<RequestV, Answer>,
    more: Map<RequestV, Answer>,
    e: Expr,
    pos: usize,
    scope: Scope,
    depth: nat,
    prior: StepV<TyV>,
)
    requires
        extends(more, k),
        !(prior is Ask),
    ensures
        steady(
            k,
            if_let_type(k, e, pos, scope, depth, prior),
            if_let_type(more, e, pos, scope, depth, prior),
        ),
    decreases depth, 3nat, e,
{
    match e.kind {
        ExprKind::IfLet { pat } => {
            if e.children@.len() > 0 {
                lemma_expr_steady(k, more, e.children@[0], scope, depth);
                match expr_type(k, e.children@[0], scope, depth) {
                    StepV::Found(t) => {
                        lemma_bound_steady(k, more, pat, pos, t, scope);
                    },
                    _ => {},
                }
            }
        },
        _ => {
            lemma_if_lets_steady(k, more, e.children@, e.children@.len(), pos, scope, depth, prior);
        },
    }
}

/// The walk over several expressions for their `if let` is steady.
pub proof fn lemma_if_lets_steady(
    k: Map<RequestV, Answer>,
    more: Map<RequestV, Answer>,
    es: Seq<Expr>,
    n: nat,
    pos: usize,
    scope: Scope,
    depth: nat,
    prior: StepV<TyV>,
)
    requires
        extends(more, k),
        !(prior is Ask),
    ensures
        steady(
            k,
            if_let_types(k, es, n, pos, scope, depth, prior),
            if_let_types(more, es, n, pos, scope, depth, prior),
        ),
    decreases depth, 3nat, es, n,
{
    if n > 0 && n <= es.len() {
        lemma_if_lets_steady(k, more, es, (n - 1) as nat, pos, scope, depth, prior);
        let before = if_let_types(k, es, (n - 1) as nat, pos, scope, depth, prior);
        if !(before is Ask || before is Violation) {
            lemma_if_let_steady(k, more, es[n - 1], pos, scope, depth, before);
        }
    }
}

/// An inference asks only what the table does not answer; and once it has
/// ended without a question, it ends the same way on every table that
/// holds the same answers and more.
pub proof fn law_exchange(
    k: Map<RequestV, Answer>,
    more: Map<RequestV, Answer>,
    text: Seq<u8>,
    pos: usize,
    scope: Scope,
    m: MatchV,
    depth: nat,
)
    requires
        extends(more, k),
    ensures
        steady(
            k,
            text_type(k, text, scope.file, scope.position, depth),
            text_type(more, text, scope.file, scope.position, depth),
        ),
        steady(k, let_type(k, text, pos, scope, depth), let_type(more, text, pos, scope, depth)),
        steady(k, match_type(k, m, text, depth), match_type(more, m, text, depth)),
{
    lemma_let_steady(k, more, text, pos, scope, depth);
    lemma_match_steady(k, more, m, text, depth);
    match statement_of(k, RequestV::ParseStatement { source: text }) {
        StepV::Found(Ok(Stmt::Expr(e))) => {
            lemma_expr_steady(k, more, e, scope, depth);
        },
        StepV::Found(Ok(Stmt::Let(local))) => {
            if local.init is Some {
                lemma_expr_steady(k, more, local.init.unwrap(), scope, depth);
            }
        },
        _ => {},
    }
}

} // verus!
