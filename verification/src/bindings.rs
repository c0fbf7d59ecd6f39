//! Where a fragment binds names: the spans of the identifiers that the
//! patterns of a statement introduce.

use vstd::prelude::*;
use crate::tree::{Arg, Expr, ExprKind, Item, ItemKind, Local, Method, ParseFailure, Pat, PatKind, Stmt};

verus! {

/// The spans of the names that a pattern binds, in source order.  A binding
/// is not looked into; any other pattern gives what its sub-patterns give.
pub open spec fn binding_spans(p: Pat) -> Seq<(usize, usize)>
    decreases p,
{
    match p.kind {
        PatKind::Ident { name, name_span } => seq![(name_span.lo, name_span.hi)],
        _ => binding_spans_in(p.children@, p.children@.len()),
    }
}

/// What the first `n` of the patterns `ps` bind, in order.
pub open spec fn binding_spans_in(ps: Seq<Pat>, n: nat) -> Seq<(usize, usize)>
    decreases ps, n,
{
    if n == 0 || n > ps.len() {
        Seq::empty()
    } else {
        binding_spans_in(ps, (n - 1) as nat) + binding_spans(ps[n - 1])
    }
}

/// What the patterns in an expression bind.  The pattern of an `if let`
/// counts; with `deep` unset nothing below an `if let` is looked at.
pub open spec fn expr_spans(e: Expr, deep: bool) -> Seq<(usize, usize)>
    decreases e,
{
    match e.kind {
        ExprKind::IfLet { pat } => if deep {
            binding_spans(pat) + expr_spans_in(e.children@, e.children@.len(), deep)
        } else {
            binding_spans(pat)
        },
        _ => expr_spans_in(e.children@, e.children@.len(), deep),
    }
}

/// What the first `n` of the expressions `es` give, in order.
pub open spec fn expr_spans_in(es: Seq<Expr>, n: nat, deep: bool) -> Seq<(usize, usize)>
    decreases es, n,
{
    if n == 0 || n > es.len() {
        Seq::empty()
    } else {
        expr_spans_in(es, (n - 1) as nat, deep) + expr_spans(es[n - 1], deep)
    }
}

/// What the patterns of the first `n` parameters bind.
pub open spec fn args_spans(args: Seq<Arg>, n: nat) -> Seq<(usize, usize)>
    decreases n,
{
    if n == 0 || n > args.len() {
        Seq::empty()
    } else {
        args_spans(args, (n - 1) as nat) + binding_spans(args[n - 1].pat)
    }
}

/// What the parameters of the first `n` methods bind.
pub open spec fn methods_spans(ms: Seq<Method>, n: nat) -> Seq<(usize, usize)>
    decreases n,
{
    if n == 0 || n > ms.len() {
        Seq::empty()
    } else {
        methods_spans(ms, (n - 1) as nat) + args_spans(
            ms[n - 1].decl.inputs@,
            ms[n - 1].decl.inputs@.len(),
        )
    }
}

/// What the parameters of an item's functions bind.
pub open spec fn item_spans(item: Item) -> Seq<(usize, usize)> {
    match item.kind {
        ItemKind::Fn(decl) => args_spans(decl.inputs@, decl.inputs@.len()),
        ItemKind::Impl { generics, trait_path, self_ty, methods } => methods_spans(
            methods@,
            methods@.len(),
        ),
        ItemKind::Trait { generics, methods } => methods_spans(methods@, methods@.len()),
        _ => Seq::empty(),
    }
}

/// What a statement binds.  With `deep` unset only the pattern of a `let` or
/// of an `if let` is looked at, never the value or the block; with `deep` set
/// the initialiser and what lies below an `if let` count too.
pub open spec fn stmt_spans(s: Stmt, deep: bool) -> Seq<(usize, usize)> {
    match s {
        Stmt::Let(local) => binding_spans(local.pat) + (match local.init {
            Some(e) if deep => expr_spans(e, deep),
            _ => Seq::empty(),
        }),
        Stmt::Expr(e) => expr_spans(e, deep),
        Stmt::Item(item) => item_spans(item),
    }
}

/// What a parsed fragment binds; nothing where parsing failed.
pub open spec fn parsed_spans(parsed: Result<Stmt, ParseFailure>, deep: bool) -> Seq<(usize, usize)> {
    match parsed {
        Ok(s) => stmt_spans(s, deep),
        Err(_) => Seq::empty(),
    }
}

fn push_binding_spans(points: &mut Vec<(usize, usize)>, p: &Pat)
    ensures
        final(points)@ == old(points)@ + binding_spans(*p),
    decreases p,
{
    match &p.kind {
        PatKind::Ident { name, name_span } => {
            points.push((name_span.lo, name_span.hi));
            assert(points@ =~= old(points)@ + binding_spans(*p));
        },
        _ => {
            let ghost start = points@;
            let mut i: usize = 0;
            assert(points@ =~= start + binding_spans_in(p.children@, 0));
            while i < p.children.len()
                invariant
                    i <= p.children.len(),
                    points@ == start + binding_spans_in(p.children@, i as nat),
                decreases p.children.len() - i,
            {
                let ghost before = points@;
                push_binding_spans(points, &p.children[i]);
                assert(points@ =~= start + binding_spans_in(p.children@, (i + 1) as nat));
                i += 1;
            }
        },
    }
}

fn push_expr_spans(points: &mut Vec<(usize, usize)>, e: &Expr, deep: bool)
    ensures
        final(points)@ == old(points)@ + expr_spans(*e, deep),
    decreases e,
{
    let ghost start = points@;
    match &e.kind {
        ExprKind::IfLet { pat } => {
            push_binding_spans(points, pat);
            if !deep {
                return ;
            }
        },
        _ => {},
    }
    let ghost mid = points@;
    let mut i: usize = 0;
    assert(points@ =~= mid + expr_spans_in(e.children@, 0, deep));
    while i < e.children.len()
        invariant
            i <= e.children.len(),
            points@ == mid + expr_spans_in(e.children@, i as nat, deep),
        decreases e.children.len() - i,
    {
        push_expr_spans(points, &e.children[i], deep);
        assert(points@ =~= mid + expr_spans_in(e.children@, (i + 1) as nat, deep));
        i += 1;
    }
    assert(points@ =~= start + expr_spans(*e, deep));
}

fn push_args_spans(points: &mut Vec<(usize, usize)>, args: &Vec<Arg>)
    ensures
        final(points)@ == old(points)@ + args_spans(args@, args@.len()),
{
    let ghost start = points@;
    let mut i: usize = 0;
    assert(points@ =~= start + args_spans(args@, 0));
    while i < args.len()
        invariant
            i <= args.len(),
            points@ == start + args_spans(args@, i as nat),
        decreases args.len() - i,
    {
        push_binding_spans(points, &args[i].pat);
        assert(points@ =~= start + args_spans(args@, (i + 1) as nat));
        i += 1;
    }
}

fn push_methods_spans(points: &mut Vec<(usize, usize)>, methods: &Vec<Method>)
    ensures
        final(points)@ == old(points)@ + methods_spans(methods@, methods@.len()),
{
    let ghost start = points@;
    let mut i: usize = 0;
    assert(points@ =~= start + methods_spans(methods@, 0));
    while i < methods.len()
        invariant
            i <= methods.len(),
            points@ == start + methods_spans(methods@, i as nat),
        decreases methods.len() - i,
    {
        push_args_spans(points, &methods[i].decl.inputs);
        assert(points@ =~= start + methods_spans(methods@, (i + 1) as nat));
        i += 1;
    }
}

fn push_item_spans(points: &mut Vec<(usize, usize)>, item: &Item)
    ensures
        final(points)@ == old(points)@ + item_spans(*item),
{
    match &item.kind {
        ItemKind::Fn(decl) => push_args_spans(points, &decl.inputs),
        ItemKind::Impl { generics, trait_path, self_ty, methods } => push_methods_spans(
            points,
            methods,
        ),
        ItemKind::Trait { generics, methods } => push_methods_spans(points, methods),
        _ => {
            assert(points@ =~= old(points)@ + item_spans(*item));
        },
    }
}

/// Collects the names that a `let` or an `if let` binds.
pub struct LetVisitor {
    pub ident_points: Vec<(usize, usize)>,
}

impl LetVisitor {
    /// Takes the pattern of a `let`, and never its initialiser.
    pub fn visit_local(&mut self, local: &Local)
        ensures
            final(self).ident_points@ == old(self).ident_points@ + binding_spans(local.pat),
    {
        self.visit_pat(&local.pat);
    }

    /// Takes the pattern of an `if let`, and never its value or block; looks
    /// into the parts of any other expression.
    pub fn visit_expr(&mut self, ex: &Expr)
        ensures
            final(self).ident_points@ == old(self).ident_points@ + expr_spans(*ex, false),
    {
        push_expr_spans(&mut self.ident_points, ex, false);
    }

    /// Takes the span of a bound name; looks into the parts of any other
    /// pattern.
    pub fn visit_pat(&mut self, p: &Pat)
        ensures
            final(self).ident_points@ == old(self).ident_points@ + binding_spans(*p),
    {
        push_binding_spans(&mut self.ident_points, p);
    }
}

/// Collects every name that the patterns of a fragment bind.
pub struct PatVisitor {
    pub ident_points: Vec<(usize, usize)>,
}

impl PatVisitor {
    /// Takes the span of a bound name; looks into the parts of any other
    /// pattern.
    pub fn visit_pat(&mut self, p: &Pat)
        ensures
            final(self).ident_points@ == old(self).ident_points@ + binding_spans(*p),
    {
        push_binding_spans(&mut self.ident_points, p);
    }
}

/// The spans of the names that a `let` statement or an `if let` binds, in
/// source order; for an item, those of its functions' parameters.  Empty
/// where parsing failed.
pub fn parse_let(parsed: &Result<Stmt, ParseFailure>) -> (r: Vec<(usize, usize)>)
    ensures
        r@ == parsed_spans(*parsed, false),
{
    let mut v = LetVisitor { ident_points: Vec::new() };
    match parsed {
        Ok(Stmt::Let(local)) => {
            v.visit_local(local);
        },
        Ok(Stmt::Expr(e)) => {
            v.visit_expr(e);
        },
        Ok(Stmt::Item(item)) => {
            push_item_spans(&mut v.ident_points, item);
        },
        Err(_) => {},
    }
    assert(v.ident_points@ =~= parsed_spans(*parsed, false));
    v.ident_points
}

/// The spans of all names that the patterns of a fragment bind, in source
/// order: parameters of functions, and the patterns of a `let`, of its
/// initialiser and of every `if let`.  Empty where parsing failed.
pub fn parse_fn_args(parsed: &Result<Stmt, ParseFailure>) -> (r: Vec<(usize, usize)>)
    ensures
        r@ == parsed_spans(*parsed, true),
{
    let mut v = PatVisitor { ident_points: Vec::new() };
    match parsed {
        Ok(Stmt::Let(local)) => {
            v.visit_pat(&local.pat);
            match &local.init {
                Some(e) => {
                    push_expr_spans(&mut v.ident_points, e, true);
                },
                None => {},
            }
        },
        Ok(Stmt::Expr(e)) => {
            push_expr_spans(&mut v.ident_points, e, true);
        },
        Ok(Stmt::Item(item)) => {
            push_item_spans(&mut v.ident_points, item);
        },
        Err(_) => {},
    }
    assert(v.ident_points@ =~= parsed_spans(*parsed, true));
    v.ident_points
}

} // verus!
