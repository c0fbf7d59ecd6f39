//! Facts about single items: the fields of a struct, the variants of an
//! enum, the signature of a function, what an `impl` implements for what,
//! generic parameters, the name of a module or trait, the target of a type
//! alias.  Each extractor reads one parsed statement and gives an empty
//! record where parsing failed or the statement is not such an item.

use vstd::prelude::*;
use crate::convert::{path_behind, path_behind_type, path_of, to_racer_path, to_racer_ty, ty_of};
use crate::model::{Path, PathV, Scope, Ty, TyV};
use crate::tree::{Item, ItemKind, ParseFailure, Span, Stmt, StructField, Variant};

verus! {

/// The item of a statement that was parsed and is an item.
pub open spec fn parsed_item(parsed: Result<Stmt, ParseFailure>) -> Option<Item> {
    match parsed {
        Ok(Stmt::Item(item)) => Some(item),
        _ => None,
    }
}

/// The names of the generic type parameters declared on an item itself.
pub open spec fn item_generics(item: Item) -> Seq<Seq<char>> {
    match item.kind {
        ItemKind::Fn(decl) => decl.generics.deep_view(),
        ItemKind::Struct { generics, fields } => generics.deep_view(),
        ItemKind::Enum { generics, variants } => generics.deep_view(),
        ItemKind::Impl { generics, trait_path, self_ty, methods } => generics.deep_view(),
        ItemKind::Trait { generics, methods } => generics.deep_view(),
        ItemKind::TypeAlias { generics, ty } => generics.deep_view(),
        _ => Seq::empty(),
    }
}

fn generics_of(item: &Item) -> (r: Option<&Vec<String>>)
    ensures
        match r {
            Some(g) => g.deep_view() == item_generics(*item),
            None => item_generics(*item) == Seq::<Seq<char>>::empty(),
        },
{
    match &item.kind {
        ItemKind::Fn(decl) => Some(&decl.generics),
        ItemKind::Struct { generics, fields } => Some(generics),
        ItemKind::Enum { generics, variants } => Some(generics),
        ItemKind::Impl { generics, trait_path, self_ty, methods } => Some(generics),
        ItemKind::Trait { generics, methods } => Some(generics),
        ItemKind::TypeAlias { generics, ty } => Some(generics),
        _ => None,
    }
}

fn push_names(out: &mut Vec<String>, names: &Vec<String>)
    ensures
        final(out).deep_view() == old(out).deep_view() + names.deep_view(),
{
    let ghost start = out.deep_view();
    let mut i: usize = 0;
    assert(out.deep_view() =~= start + names.deep_view().take(0));
    while i < names.len()
        invariant
            i <= names.len(),
            out.deep_view() == start + names.deep_view().take(i as int),
        decreases names.len() - i,
    {
        let ghost before = out.deep_view();
        out.push(names[i].clone());
        assert(out.deep_view() =~= before.push(names@[i as int]@));
        assert(out.deep_view() =~= start + names.deep_view().take(i + 1));
        i += 1;
    }
    assert(names.deep_view().take(names.len() as int) =~= names.deep_view());
}

// ---------------------------------------------------------------- structs

/// What is known of one field: its name (empty for a positional field), the
/// position it starts at, and its type where the written type has one.
pub open spec fn field_fact(f: StructField, scope: Scope) -> (Seq<char>, usize, Option<TyV>) {
    (
        match f.name {
            Some(n) => n@,
            None => Seq::empty(),
        },
        f.span.lo,
        ty_of(f.ty, scope),
    )
}

/// The facts of all fields, in declaration order.
pub open spec fn field_facts(fields: Seq<StructField>, scope: Scope) -> Seq<
    (Seq<char>, usize, Option<TyV>),
> {
    Seq::new(fields.len(), |i: int| field_fact(fields[i], scope))
}

/// The field facts of a parsed struct declaration; none for anything else.
pub open spec fn struct_fields_of(parsed: Result<Stmt, ParseFailure>, scope: Scope) -> Seq<
    (Seq<char>, usize, Option<TyV>),
> {
    match parsed_item(parsed) {
        Some(item) => match item.kind {
            ItemKind::Struct { generics, fields } => field_facts(fields@, scope),
            _ => Seq::empty(),
        },
        None => Seq::empty(),
    }
}

/// Collects the fields of a struct declaration.
pub struct StructVisitor {
    pub scope: Scope,
    pub fields: Vec<(String, usize, Option<Ty>)>,
}

impl StructVisitor {
    /// Appends the facts of the given fields, in order.
    pub fn visit_struct_def(&mut self, fields: &Vec<StructField>)
        ensures
            final(self).scope == old(self).scope,
            final(self).fields.deep_view() == old(self).fields.deep_view() + field_facts(
                fields@,
                old(self).scope,
            ),
    {
        let ghost start = self.fields.deep_view();
        let ghost scope = self.scope;
        let mut i: usize = 0;
        assert(self.fields.deep_view() =~= start + field_facts(fields@, scope).take(0));
        while i < fields.len()
            invariant
                i <= fields.len(),
                self.scope == scope,
                self.fields.deep_view() == start + field_facts(fields@, scope).take(i as int),
            decreases fields.len() - i,
        {
            let field = &fields[i];
            let name = match &field.name {
                Some(n) => n.clone(),
                None => String::new(),
            };
            let ty = to_racer_ty(&field.ty, &self.scope);
            let ghost before = self.fields.deep_view();
            let ghost fact = (name@, field.span.lo, ty.deep_view());
            self.fields.push((name, field.span.lo, ty));
            assert(self.fields.deep_view() =~= before.push(fact));
            assert(self.fields.deep_view() =~= start + field_facts(fields@, scope).take(i + 1));
            i += 1;
        }
        assert(field_facts(fields@, scope).take(fields.len() as int) =~= field_facts(
            fields@,
            scope,
        ));
    }
}

/// The fields of a struct declaration, in declaration order: name (empty for
/// a positional field), start position, and type.
pub fn parse_struct_fields(parsed: &Result<Stmt, ParseFailure>, scope: Scope) -> (r: Vec<
    (String, usize, Option<Ty>),
>)
    ensures
        r.deep_view() == struct_fields_of(*parsed, scope),
{
    let mut v = StructVisitor { scope, fields: Vec::new() };
    match parsed {
        Ok(Stmt::Item(item)) => match &item.kind {
            ItemKind::Struct { generics, fields } => {
                v.visit_struct_def(fields);
            },
            _ => {},
        },
        _ => {},
    }
    assert(v.fields.deep_view() =~= struct_fields_of(*parsed, scope));
    v.fields
}

/// The name and the generic parameters of a declaration.
pub struct StructDefVisitor {
    pub name: Option<(String, usize)>,
    pub generic_args: Vec<String>,
}

impl StructDefVisitor {
    /// Appends the names of the given generic parameters.
    pub fn visit_generics(&mut self, g: &Vec<String>)
        ensures
            final(self).name == old(self).name,
            final(self).generic_args.deep_view() == old(self).generic_args.deep_view()
                + g.deep_view(),
    {
        push_names(&mut self.generic_args, g);
    }

    /// Records a name with the start of the span it was met at.
    pub fn visit_ident(&mut self, sp: Span, ident: &String)
        ensures
            final(self).name.deep_view() == Some((ident@, sp.lo)),
            final(self).generic_args == old(self).generic_args,
    {
        self.name = Some((ident.clone(), sp.lo));
    }
}

/// The name of a parsed item with the position the item starts at; none
/// for anything else.
pub open spec fn declared_name(parsed: Result<Stmt, ParseFailure>) -> Option<(Seq<char>, usize)> {
    match parsed_item(parsed) {
        Some(item) => Some((item.name@, item.span.lo)),
        None => None,
    }
}

/// The names of the generic parameters of a parsed item; none for anything
/// else.
pub open spec fn declared_generics(parsed: Result<Stmt, ParseFailure>) -> Seq<Seq<char>> {
    match parsed_item(parsed) {
        Some(item) => item_generics(item),
        None => Seq::empty(),
    }
}

/// The name of a declared item with the position the item starts at, and the
/// names of its generic parameters.
pub fn parse_struct_def(parsed: &Result<Stmt, ParseFailure>) -> (r: StructDefVisitor)
    ensures
        r.name.deep_view() == declared_name(*parsed),
        r.generic_args.deep_view() == declared_generics(*parsed),
{
    let mut v = StructDefVisitor { name: None, generic_args: Vec::new() };
    match parsed {
        Ok(Stmt::Item(item)) => {
            v.visit_ident(item.span, &item.name);
            match generics_of(item) {
                Some(g) => {
                    v.visit_generics(g);
                    assert(v.generic_args.deep_view() =~= item_generics(*item));
                },
                None => {
                    assert(v.generic_args.deep_view() =~= item_generics(*item));
                },
            }
        },
        _ => {
            assert(v.generic_args.deep_view() =~= Seq::<Seq<char>>::empty());
        },
    }
    v
}

/// The generic parameters of a declaration.
pub struct GenericsVisitor {
    pub generic_args: Vec<String>,
}

impl GenericsVisitor {
    /// Appends the names of the given generic parameters.
    pub fn visit_generics(&mut self, g: &Vec<String>)
        ensures
            final(self).generic_args.deep_view() == old(self).generic_args.deep_view()
                + g.deep_view(),
    {
        push_names(&mut self.generic_args, g);
    }
}

/// The names of the generic parameters declared on an item, in order.
pub fn parse_generics(parsed: &Result<Stmt, ParseFailure>) -> (r: GenericsVisitor)
    ensures
        r.generic_args.deep_view() == declared_generics(*parsed),
{
    let mut v = GenericsVisitor { generic_args: Vec::new() };
    match parsed {
        Ok(Stmt::Item(item)) => {
            match generics_of(item) {
                Some(g) => {
                    v.visit_generics(g);
                    assert(v.generic_args.deep_view() =~= item_generics(*item));
                },
                None => {
                    assert(v.generic_args.deep_view() =~= item_generics(*item));
                },
            }
        },
        _ => {
            assert(v.generic_args.deep_view() =~= Seq::<Seq<char>>::empty());
        },
    }
    v
}

// ------------------------------------------------- aliases, traits, modules

/// The name and the target of a type alias.
pub struct TypeVisitor {
    pub name: Option<String>,
    pub type_: Option<Path>,
}

impl TypeVisitor {
    /// For a type alias, records its name and the path of the aliased type,
    /// seen through at most one reference.  Any other item changes nothing.
    pub fn visit_item(&mut self, item: &Item)
        ensures
            match item.kind {
                ItemKind::TypeAlias { generics, ty } => final(self).name.deep_view() == Some(
                    item.name@,
                ) && final(self).type_.deep_view() == path_behind(ty),
                _ => *final(self) == *old(self),
            },
    {
        match &item.kind {
            ItemKind::TypeAlias { generics, ty } => {
                self.name = Some(item.name.clone());
                self.type_ = path_behind_type(ty);
            },
            _ => {},
        }
    }
}

/// The name of a parsed type alias; none for anything else.
pub open spec fn alias_name(parsed: Result<Stmt, ParseFailure>) -> Option<Seq<char>> {
    match parsed_item(parsed) {
        Some(item) if item.kind is TypeAlias => Some(item.name@),
        _ => None,
    }
}

/// The path that a parsed type alias stands for, seen through at most one
/// reference; none for anything else.
pub open spec fn alias_target(parsed: Result<Stmt, ParseFailure>) -> Option<PathV> {
    match parsed_item(parsed) {
        Some(item) => match item.kind {
            ItemKind::TypeAlias { generics, ty } => path_behind(ty),
            _ => None,
        },
        None => None,
    }
}

/// The name of a type alias and the path it stands for.
pub fn parse_type(parsed: &Result<Stmt, ParseFailure>) -> (r: TypeVisitor)
    ensures
        r.name.deep_view() == alias_name(*parsed),
        r.type_.deep_view() == alias_target(*parsed),
{
    let mut v = TypeVisitor { name: None, type_: None };
    match parsed {
        Ok(Stmt::Item(item)) => {
            v.visit_item(item);
        },
        _ => {},
    }
    v
}

/// The name of a trait.
pub struct TraitVisitor {
    pub name: Option<String>,
}

impl TraitVisitor {
    /// For a trait, records its name.  Any other item changes nothing.
    pub fn visit_item(&mut self, item: &Item)
        ensures
            match item.kind {
                ItemKind::Trait { generics, methods } => final(self).name.deep_view() == Some(
                    item.name@,
                ),
                _ => *final(self) == *old(self),
            },
    {
        match &item.kind {
            ItemKind::Trait { generics, methods } => {
                self.name = Some(item.name.clone());
            },
            _ => {},
        }
    }
}

/// The name of a parsed trait; none for anything else.
pub open spec fn trait_name(parsed: Result<Stmt, ParseFailure>) -> Option<Seq<char>> {
    match parsed_item(parsed) {
        Some(item) if item.kind is Trait => Some(item.name@),
        _ => None,
    }
}

/// The name of a declared trait.
pub fn parse_trait(parsed: &Result<Stmt, ParseFailure>) -> (r: TraitVisitor)
    ensures
        r.name.deep_view() == trait_name(*parsed),
{
    let mut v = TraitVisitor { name: None };
    match parsed {
        Ok(Stmt::Item(item)) => {
            v.visit_item(item);
        },
        _ => {},
    }
    v
}

/// The name of a module.
pub struct ModVisitor {
    pub name: Option<String>,
}

impl ModVisitor {
    /// For a module, records its name.  Any other item changes nothing.
    pub fn visit_item(&mut self, item: &Item)
        ensures
            match item.kind {
                ItemKind::Mod => final(self).name.deep_view() == Some(item.name@),
                _ => *final(self) == *old(self),
            },
    {
        match &item.kind {
            ItemKind::Mod => {
                self.name = Some(item.name.clone());
            },
            _ => {},
        }
    }
}

/// The name of a parsed module; none for anything else.
pub open spec fn mod_name(parsed: Result<Stmt, ParseFailure>) -> Option<Seq<char>> {
    match parsed_item(parsed) {
        Some(item) if item.kind is Mod => Some(item.name@),
        _ => None,
    }
}

/// The name of a declared module.
pub fn parse_mod(parsed: &Result<Stmt, ParseFailure>) -> (r: ModVisitor)
    ensures
        r.name.deep_view() == mod_name(*parsed),
{
    let mut v = ModVisitor { name: None };
    match parsed {
        Ok(Stmt::Item(item)) => {
            v.visit_item(item);
        },
        _ => {},
    }
    v
}

// ------------------------------------------------------------------ impls

/// What an `impl` implements, and for which type.
pub struct ImplVisitor {
    pub name_path: Option<Path>,
    pub trait_path: Option<Path>,
}

/// The path of the implementing type of an `impl`, a reference counting as
/// its referent; none for any other item or any other kind of type.
pub open spec fn impl_name_path(item: Item) -> Option<PathV> {
    match item.kind {
        ItemKind::Impl { generics, trait_path, self_ty, methods } => path_behind(self_ty),
        _ => None,
    }
}

/// The path of the trait that an `impl` implements, if it names one.
pub open spec fn impl_trait_path(item: Item) -> Option<PathV> {
    match item.kind {
        ItemKind::Impl { generics, trait_path, self_ty, methods } => match trait_path {
            Some(p) => Some(path_of(p)),
            None => None,
        },
        _ => None,
    }
}

impl ImplVisitor {
    /// For an `impl`, records the implementing type's path and the trait's
    /// path, each where there is one.  What is absent changes nothing.
    pub fn visit_item(&mut self, item: &Item)
        ensures
            final(self).name_path.deep_view() == match impl_name_path(*item) {
                Some(p) => Some(p),
                None => old(self).name_path.deep_view(),
            },
            final(self).trait_path.deep_view() == match impl_trait_path(*item) {
                Some(p) => Some(p),
                None => old(self).trait_path.deep_view(),
            },
    {
        match &item.kind {
            ItemKind::Impl { generics, trait_path, self_ty, methods } => {
                match path_behind_type(self_ty) {
                    Some(p) => {
                        self.name_path = Some(p);
                    },
                    None => {},
                }
                match trait_path {
                    Some(t) => {
                        self.trait_path = Some(to_racer_path(t));
                    },
                    None => {},
                }
            },
            _ => {},
        }
    }
}

/// The path of the implementing type of a parsed `impl`.
pub open spec fn impl_target(parsed: Result<Stmt, ParseFailure>) -> Option<PathV> {
    match parsed_item(parsed) {
        Some(item) => impl_name_path(item),
        None => None,
    }
}

/// The path of the trait that a parsed `impl` implements.
pub open spec fn impl_trait(parsed: Result<Stmt, ParseFailure>) -> Option<PathV> {
    match parsed_item(parsed) {
        Some(item) => impl_trait_path(item),
        None => None,
    }
}

/// The implementing type's path and the implemented trait's path of an
/// `impl`.
pub fn parse_impl(parsed: &Result<Stmt, ParseFailure>) -> (r: ImplVisitor)
    ensures
        r.name_path.deep_view() == impl_target(*parsed),
        r.trait_path.deep_view() == impl_trait(*parsed),
{
    let mut v = ImplVisitor { name_path: None, trait_path: None };
    match parsed {
        Ok(Stmt::Item(item)) => {
            v.visit_item(item);
        },
        _ => {},
    }
    v
}

// ------------------------------------------------------------------ enums

/// The name of an enum and its variants.
pub struct EnumVisitor {
    pub name: String,
    pub values: Vec<(String, usize)>,
}

/// Name and start position of each variant, in declaration order.
pub open spec fn variant_facts(variants: Seq<Variant>) -> Seq<(Seq<char>, usize)> {
    Seq::new(variants.len(), |i: int| (variants[i].name@, variants[i].span.lo))
}

impl EnumVisitor {
    /// For an enum, records its name and appends its variants.  Any other
    /// item changes nothing.
    pub fn visit_item(&mut self, i: &Item)
        ensures
            match i.kind {
                ItemKind::Enum { generics, variants } => final(self).name@ == i.name@
                    && final(self).values.deep_view() == old(self).values.deep_view()
                    + variant_facts(variants@),
                _ => *final(self) == *old(self),
            },
    {
        match &i.kind {
            ItemKind::Enum { generics, variants } => {
                self.name = i.name.clone();
                let ghost start = self.values.deep_view();
                let mut k: usize = 0;
                assert(self.values.deep_view() =~= start + variant_facts(variants@).take(0));
                while k < variants.len()
                    invariant
                        k <= variants.len(),
                        self.name@ == i.name@,
                        self.values.deep_view() == start + variant_facts(variants@).take(k as int),
                    decreases variants.len() - k,
                {
                    let ghost before = self.values.deep_view();
                    self.values.push((variants[k].name.clone(), variants[k].span.lo));
                    assert(self.values.deep_view() =~= before.push(
                        (variants@[k as int].name@, variants@[k as int].span.lo),
                    ));
                    assert(self.values.deep_view() =~= start + variant_facts(variants@).take(
                        k + 1,
                    ));
                    k += 1;
                }
                assert(variant_facts(variants@).take(variants.len() as int) =~= variant_facts(
                    variants@,
                ));
            },
            _ => {},
        }
    }
}

/// The name of a parsed enum; empty for anything else.
pub open spec fn enum_name(parsed: Result<Stmt, ParseFailure>) -> Seq<char> {
    match parsed_item(parsed) {
        Some(item) if item.kind is Enum => item.name@,
        _ => Seq::empty(),
    }
}

/// Name and start position of each variant of a parsed enum, in declaration
/// order; none for anything else.
pub open spec fn enum_variants(parsed: Result<Stmt, ParseFailure>) -> Seq<(Seq<char>, usize)> {
    match parsed_item(parsed) {
        Some(item) => match item.kind {
            ItemKind::Enum { generics, variants } => variant_facts(variants@),
            _ => Seq::empty(),
        },
        None => Seq::empty(),
    }
}

/// The name of an enum and, in declaration order, name and start position of
/// each of its variants.
pub fn parse_enum(parsed: &Result<Stmt, ParseFailure>) -> (r: EnumVisitor)
    ensures
        r.name@ == enum_name(*parsed),
        r.values.deep_view() == enum_variants(*parsed),
{
    let mut v = EnumVisitor { name: String::new(), values: Vec::new() };
    match parsed {
        Ok(Stmt::Item(item)) => {
            v.visit_item(item);
            assert(v.values.deep_view() =~= enum_variants(*parsed));
        },
        _ => {
            assert(v.values.deep_view() =~= enum_variants(*parsed));
        },
    }
    assert(v.name@ =~= enum_name(*parsed));
    v
}

/// Marks a position in a parameter list.
#[derive(Clone, Copy, Debug, PartialEq, Eq, Structural)]
pub struct FnArgTypeVisitor {
    pub point: usize,
}

} // verus!
