//! The signature of a function: its name, its simple parameters with their
//! positions and type paths, its return type, and whether it is a method.

use vstd::prelude::*;
use crate::convert::{path_behind, path_behind_type, to_racer_ty, ty_of};
use crate::items::parsed_item;
use crate::model::{Path, PathV, Scope, Ty, TyV};
use crate::tree::{Arg, FnDecl, ItemKind, Method, ParseFailure, PatKind, Stmt};

verus! {

/// What is collected of the functions of a fragment.
pub struct FnVisitor {
    pub name: String,
    pub output: Option<Ty>,
    pub args: Vec<(String, usize, Option<Path>)>,
    pub is_method: bool,
    pub scope: Scope,
}

/// The value of a [`FnVisitor`].
pub struct FnVisitorV {
    pub name: Seq<char>,
    pub output: Option<TyV>,
    pub args: Seq<(Seq<char>, usize, Option<PathV>)>,
    pub is_method: bool,
    pub scope: Scope,
}

impl DeepView for FnVisitor {
    type V = FnVisitorV;

    open spec fn deep_view(&self) -> FnVisitorV {
        FnVisitorV {
            name: self.name@,
            output: self.output.deep_view(),
            args: self.args.deep_view(),
            is_method: self.is_method,
            scope: self.scope,
        }
    }
}

/// What is known of a parameter whose pattern is a plain name: the name,
/// where it starts, and the path of its type seen through at most one
/// reference.  Nothing for a parameter with any other pattern.
pub open spec fn arg_fact(a: Arg) -> Option<(Seq<char>, usize, Option<PathV>)> {
    match a.pat.kind {
        PatKind::Ident { name, name_span } => Some((name@, name_span.lo, path_behind(a.ty))),
        _ => None,
    }
}

/// The index of the first parameter at or after `from` whose pattern is not a
/// plain name; the number of parameters if there is none.
pub open spec fn simple_prefix_len(args: Seq<Arg>, from: nat) -> nat
    decreases args.len() - from,
{
    if from >= args.len() || arg_fact(args[from as int]) is None {
        from
    } else {
        simple_prefix_len(args, from + 1)
    }
}

/// The facts of the parameters before the first that is not a plain name.
pub open spec fn arg_facts(args: Seq<Arg>) -> Seq<(Seq<char>, usize, Option<PathV>)> {
    Seq::new(simple_prefix_len(args, 0), |i: int| arg_fact(args[i]).unwrap())
}

/// The state after one function was visited.  Name, return type and method
/// flag are taken from it, and its simple parameters are appended: only the
/// collection of parameters stops at the first that is not a plain name.
pub open spec fn visit_fn_value(v: FnVisitorV, name: Seq<char>, decl: FnDecl, is_method: bool) -> FnVisitorV {
    FnVisitorV {
        name,
        args: v.args + arg_facts(decl.inputs@),
        output: match decl.output {
            Some(t) => ty_of(t, v.scope),
            None => None,
        },
        is_method,
        scope: v.scope,
    }
}

/// The state after the first `n` of the methods were visited in order.
pub open spec fn visit_methods_value(v: FnVisitorV, ms: Seq<Method>, n: nat) -> FnVisitorV
    decreases n,
{
    if n == 0 || n > ms.len() {
        v
    } else {
        visit_fn_value(
            visit_methods_value(v, ms, (n - 1) as nat),
            ms[n - 1].name@,
            ms[n - 1].decl,
            true,
        )
    }
}

/// The record that nothing was collected into.
pub open spec fn empty_fn_value(scope: Scope) -> FnVisitorV {
    FnVisitorV { name: Seq::empty(), output: None, args: Seq::empty(), is_method: false, scope }
}

/// What is collected of a parsed fragment: of a function, its signature; of
/// an `impl` or a trait, its methods visited in order; of anything else,
/// nothing.
pub open spec fn fn_facts(parsed: Result<Stmt, ParseFailure>, scope: Scope) -> FnVisitorV {
    match parsed_item(parsed) {
        Some(item) => match item.kind {
            ItemKind::Fn(decl) => visit_fn_value(empty_fn_value(scope), item.name@, decl, false),
            ItemKind::Impl { generics, trait_path, self_ty, methods } => visit_methods_value(
                empty_fn_value(scope),
                methods@,
                methods@.len(),
            ),
            ItemKind::Trait { generics, methods } => visit_methods_value(
                empty_fn_value(scope),
                methods@,
                methods@.len(),
            ),
            _ => empty_fn_value(scope),
        },
        None => empty_fn_value(scope),
    }
}

proof fn lemma_simple_prefix(args: Seq<Arg>, from: nat, stop: nat)
    requires
        from <= stop <= args.len(),
        forall|j: int| from <= j < stop ==> arg_fact(args[j]) is Some,
        stop < args.len() ==> arg_fact(args[stop as int]) is None,
    ensures
        simple_prefix_len(args, from) == stop,
    decreases stop - from,
{
    if from < stop {
        lemma_simple_prefix(args, from + 1, stop);
    }
}

impl FnVisitor {
    /// Visits one function; see [`visit_fn_value`].
    pub fn visit_fn(&mut self, name: &String, fd: &FnDecl, is_method: bool)
        ensures
            final(self).deep_view() == visit_fn_value(
                old(self).deep_view(),
                name@,
                *fd,
                is_method,
            ),
    {
        let ghost start = self.deep_view();
        self.name = name.clone();
        let mut i: usize = 0;
        let mut complete = true;
        assert(self.args.deep_view() =~= start.args + Seq::new(
            0,
            |k: int| arg_fact(fd.inputs@[k]).unwrap(),
        ));
        while complete && i < fd.inputs.len()
            invariant
                i <= fd.inputs.len(),
                self.name@ == name@,
                self.scope == start.scope,
                forall|j: int| 0 <= j < i ==> arg_fact(fd.inputs@[j]) is Some,
                !complete ==> i < fd.inputs.len() && arg_fact(fd.inputs@[i as int]) is None,
                self.args.deep_view() == start.args + Seq::new(
                    i as nat,
                    |k: int| arg_fact(fd.inputs@[k]).unwrap(),
                ),
            decreases fd.inputs.len() - i + (if complete { 1nat } else { 0nat }),
        {
            let arg = &fd.inputs[i];
            match &arg.pat.kind {
                PatKind::Ident { name: argname, name_span } => {
                    let typepath = path_behind_type(&arg.ty);
                    let ghost before = self.args.deep_view();
                    let ghost fact = (argname@, name_span.lo, typepath.deep_view());
                    self.args.push((argname.clone(), name_span.lo, typepath));
                    assert(self.args.deep_view() =~= before.push(fact));
                    assert(self.args.deep_view() =~= start.args + Seq::new(
                        (i + 1) as nat,
                        |k: int| arg_fact(fd.inputs@[k]).unwrap(),
                    ));
                    i += 1;
                },
                _ => {
                    complete = false;
                },
            }
        }
        proof {
            lemma_simple_prefix(fd.inputs@, 0, i as nat);
        }
        self.output = match &fd.output {
            Some(t) => to_racer_ty(t, &self.scope),
            None => None,
        };
        self.is_method = is_method;
    }
}

/// The signature facts of a parsed function, or of the methods of a parsed
/// `impl` or trait; see [`fn_facts`].
pub fn parse_fn(parsed: &Result<Stmt, ParseFailure>, scope: Scope) -> (r: FnVisitor)
    ensures
        r.deep_view() == fn_facts(*parsed, scope),
{
    let mut v = FnVisitor {
        name: String::new(),
        args: Vec::new(),
        output: None,
        is_method: false,
        scope,
    };
    assert(v.deep_view().args =~= empty_fn_value(scope).args);
    match parsed {
        Ok(Stmt::Item(item)) => match &item.kind {
            ItemKind::Fn(decl) => {
                v.visit_fn(&item.name, decl, false);
            },
            ItemKind::Impl { generics, trait_path, self_ty, methods } => {
                visit_methods(&mut v, methods);
            },
            ItemKind::Trait { generics, methods } => {
                visit_methods(&mut v, methods);
            },
            _ => {},
        },
        _ => {},
    }
    v
}

fn visit_methods(v: &mut FnVisitor, methods: &Vec<Method>)
    ensures
        final(v).deep_view() == visit_methods_value(old(v).deep_view(), methods@, methods@.len()),
{
    let ghost start = v.deep_view();
    let mut i: usize = 0;
    while i < methods.len()
        invariant
            i <= methods.len(),
            v.deep_view() == visit_methods_value(start, methods@, i as nat),
        decreases methods.len() - i,
    {
        v.visit_fn(&methods[i].name, &methods[i].decl, true);
        i += 1;
    }
}

/// The return type of a parsed function; none where it has no written
/// return type, where that type is not representable, or where the fragment
/// is no function.
pub fn parse_fn_output(parsed: &Result<Stmt, ParseFailure>, scope: Scope) -> (r: Option<Ty>)
    ensures
        r.deep_view() == fn_facts(*parsed, scope).output,
{
    parse_fn(parsed, scope).output
}

} // verus!
