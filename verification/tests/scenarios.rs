use racer_typeinf::fields::{
    first_param_is_self, get_first_stmt, get_return_type_of_function, get_struct_field_type,
    get_tuplestruct_field_type, lookup_field_by_name, lookup_field_by_position, wrap_in_impl,
};
use racer_typeinf::host::{Answer, ContractViolation, Known, Looked, Namespace, Request, Step};
use racer_typeinf::infer::{
    get_let_type, get_type_of, get_type_of_fnarg, get_type_of_let_expr, get_type_of_match,
    get_type_of_self_arg, try_get_let_type, try_get_type_of, try_get_type_of_let_expr,
    try_get_type_of_match, try_type_of_expression, try_type_of_if_let, try_type_of_local,
    type_of_expression, type_of_if_let, type_of_local,
};
use racer_typeinf::model::{FileId, Match, MatchKind, Path, PathSearch, PathSegment, Scope, Ty};
use racer_typeinf::pattern::{
    destructure_pattern_to_ty, resolve_ast_path, try_destructure_pattern_to_ty,
};
use racer_typeinf::resolve::{
    find_type_match, find_type_match_including_generics, get_type_of_typedef, path_to_match,
    path_to_match_including_generics, substitute,
};
use racer_typeinf::tree::{
    Arg, Expr, ExprKind, FnDecl, Item, ItemKind, Local, Method, ParseFailure, Pat, PatKind,
    PathExpr, PathExprSegment, Span, Stmt, StructField, TypeExpr,
};

const SRC: &str = "\
struct int;
struct Point(int, int);
struct Foo;
struct Bar;
enum Opt { Some(Foo), None }
struct Wrapper<T> { inner: T, count: int }
impl<T> Wrapper<T> {
fn get(&self) -> T { }
}
trait Shape {
fn area(&self) -> int { }
}
fn f(opt_expr: Opt) {
if let Some(x) = opt_expr { }
}
let p = Point(1,2);
let wrapper_of_bar: Wrapper<Bar> = make();
let (a, b): (Foo, Bar) = pair();
let (c, d): (Foo, Bar, Point) = triple();
let q = p;
let r = q;
type Alias = Foo;
";

const FILE: FileId = FileId(1);

fn at(needle: &str) -> usize {
    SRC.find(needle).unwrap()
}

fn seg(name: &str, types: Vec<TypeExpr>) -> PathExprSegment {
    PathExprSegment { name: name.to_string(), types }
}

fn wpath(name: &str) -> PathExpr {
    PathExpr { global: false, segments: vec![seg(name, vec![])] }
}

fn wty(name: &str) -> TypeExpr {
    TypeExpr::Path(wpath(name))
}

fn named(name: &str) -> Path {
    Path { global: false, segments: vec![PathSegment { name: name.to_string(), types: vec![] }] }
}

fn ident(name: &str, lo: usize) -> Pat {
    let span = Span { lo, hi: lo + name.len() };
    Pat { span, kind: PatKind::Ident { name: name.to_string(), name_span: span }, children: vec![] }
}

fn expr(kind: ExprKind, children: Vec<Expr>) -> Expr {
    Expr { kind, children }
}

fn name_expr(name: &str) -> Expr {
    expr(ExprKind::Path(wpath(name)), vec![])
}

fn lit() -> Expr {
    expr(ExprKind::Lit, vec![])
}

fn call(name: &str, args: Vec<Expr>) -> Expr {
    let mut children = vec![name_expr(name)];
    children.extend(args);
    expr(ExprKind::Call, children)
}

fn decl(name: &str, kind: MatchKind, position: usize, generics: &[&str]) -> Match {
    let line_start = SRC[..position].rfind('\n').map_or(0, |n| n + 1);
    let line_end = SRC[position..].find('\n').map_or(SRC.len(), |n| position + n);
    Match {
        name: name.to_string(),
        file: FILE,
        position,
        is_local: true,
        kind,
        context_line: SRC[line_start..line_end].as_bytes().to_vec(),
        generic_arg_names: generics.iter().map(|g| g.to_string()).collect(),
        generic_arg_types: vec![],
    }
}

fn lookup_name(name: &str) -> Vec<Match> {
    match name {
        "int" => vec![decl("int", MatchKind::Struct, at("int;"), &[])],
        "Point" => vec![decl("Point", MatchKind::Struct, at("Point("), &[])],
        "Foo" => vec![decl("Foo", MatchKind::Struct, at("Foo;"), &[])],
        "Bar" => vec![decl("Bar", MatchKind::Struct, at("Bar;"), &[])],
        "Opt" => vec![decl("Opt", MatchKind::Enum, at("Opt {"), &[])],
        "Some" => vec![decl("Some", MatchKind::EnumVariant, at("Some(Foo)"), &[])],
        "Wrapper" => vec![decl("Wrapper", MatchKind::Struct, at("Wrapper<T> {"), &["T"])],
        "Shape" => vec![decl("Shape", MatchKind::Trait, at("Shape {"), &[])],
        "f" => vec![decl("f", MatchKind::Function, at("f(opt_expr"), &[])],
        "get" => vec![decl("get", MatchKind::Function, at("get(&self)"), &[])],
        "opt_expr" => vec![decl("opt_expr", MatchKind::FunctionArgument, at("opt_expr: Opt"), &[])],
        "p" => vec![decl("p", MatchKind::Let, at("p = Point"), &[])],
        "wrapper_of_bar" => {
            vec![decl("wrapper_of_bar", MatchKind::Let, at("wrapper_of_bar: "), &[])]
        }
        "b" => vec![decl("b", MatchKind::Let, at("b): (Foo, Bar)"), &[])],
        "d" => vec![decl("d", MatchKind::Let, at("d): (Foo"), &[])],
        "q" => vec![decl("q", MatchKind::Let, at("q = p"), &[])],
        "r" => vec![decl("r", MatchKind::Let, at("r = q"), &[])],
        "Alias" => vec![decl("Alias", MatchKind::TypeAlias, at("Alias = Foo"), &[])],
        _ => vec![],
    }
}

fn unnamed(ty: &str, lo: usize) -> StructField {
    StructField { name: None, span: Span { lo, hi: lo + ty.len() }, ty: wty(ty) }
}

fn field(name: &str, ty: &str, lo: usize) -> StructField {
    StructField {
        name: Some(name.to_string()),
        span: Span { lo, hi: lo + name.len() + 2 + ty.len() },
        ty: wty(ty),
    }
}

fn item(name: &str, kind: ItemKind) -> Stmt {
    Stmt::Item(Item { name: name.to_string(), span: Span { lo: 0, hi: 0 }, kind })
}

fn method_in_impl(name: &str, inputs: Vec<Arg>, output: Option<TypeExpr>) -> Stmt {
    item(
        "",
        ItemKind::Impl {
            generics: vec![],
            trait_path: None,
            self_ty: wty("blah"),
            methods: vec![Method {
                name: name.to_string(),
                decl: FnDecl { generics: vec![], inputs, output },
            }],
        },
    )
}

fn let_stmt(pat: Pat, ty: Option<TypeExpr>, init: Expr) -> Stmt {
    Stmt::Let(Local { pat, ty, init: Some(init) })
}

fn pair_pat(first: &str, second: &str) -> Pat {
    Pat {
        span: Span { lo: 4, hi: 10 },
        kind: PatKind::Tup,
        children: vec![ident(first, 5), ident(second, 8)],
    }
}

fn parse(text: &str) -> Result<Stmt, ParseFailure> {
    match text {
        "p.1" => Ok(Stmt::Expr(expr(ExprKind::TupField { index: 1 }, vec![name_expr("p")]))),
        "d" => Ok(Stmt::Expr(name_expr("d"))),
        "let p = Point(1,2);" => {
            Ok(let_stmt(ident("p", 4), None, call("Point", vec![lit(), lit()])))
        }
        "let q = p;" => Ok(let_stmt(ident("q", 4), None, name_expr("p"))),
        "let r = q;" => Ok(let_stmt(ident("r", 4), None, name_expr("q"))),
        "struct Point(int, int);" => Ok(item(
            "Point",
            ItemKind::Struct { generics: vec![], fields: vec![unnamed("int", 13), unnamed("int", 18)] },
        )),
        "struct Some(Foo);" => Ok(item(
            "Some",
            ItemKind::Struct { generics: vec![], fields: vec![unnamed("Foo", 12)] },
        )),
        "struct Wrapper<T> { inner: T, count: int }" => Ok(item(
            "Wrapper",
            ItemKind::Struct {
                generics: vec!["T".to_string()],
                fields: vec![field("inner", "T", 20), field("count", "int", 30)],
            },
        )),
        "if let Some(x) = opt_expr { }" => Ok(Stmt::Expr(expr(
            ExprKind::IfLet {
                pat: Pat {
                    span: Span { lo: 7, hi: 14 },
                    kind: PatKind::Enum { path: wpath("Some") },
                    children: vec![ident("x", 12)],
                },
            },
            vec![name_expr("opt_expr")],
        ))),
        "impl blah {fn f(opt_expr: Opt) {}}" => Ok(method_in_impl(
            "f",
            vec![Arg { pat: ident("opt_expr", 16), ty: wty("Opt") }],
            None,
        )),
        "impl blah {fn get(&self) -> T {}}" => Ok(method_in_impl(
            "get",
            vec![Arg { pat: ident("self", 19), ty: TypeExpr::Other }],
            Some(wty("T")),
        )),
        "impl<T> Wrapper<T> {};" => Ok(item(
            "",
            ItemKind::Impl {
                generics: vec!["T".to_string()],
                trait_path: None,
                self_ty: TypeExpr::Path(PathExpr {
                    global: false,
                    segments: vec![seg("Wrapper", vec![wty("T")])],
                }),
                methods: vec![],
            },
        )),
        "trait Shape {};" => Ok(item("Shape", ItemKind::Trait { generics: vec![], methods: vec![] })),
        "let wrapper_of_bar: Wrapper<Bar> = make();" => Ok(let_stmt(
            ident("wrapper_of_bar", 4),
            Some(TypeExpr::Path(PathExpr {
                global: false,
                segments: vec![seg("Wrapper", vec![wty("Bar")])],
            })),
            call("make", vec![]),
        )),
        "let (a, b): (Foo, Bar) = pair();" => Ok(let_stmt(
            pair_pat("a", "b"),
            Some(TypeExpr::Tup(vec![wty("Foo"), wty("Bar")])),
            call("pair", vec![]),
        )),
        "let (c, d): (Foo, Bar, Point) = triple();" => Ok(let_stmt(
            pair_pat("c", "d"),
            Some(TypeExpr::Tup(vec![wty("Foo"), wty("Bar"), wty("Point")])),
            call("triple", vec![]),
        )),
        "type Alias = Foo;" => {
            Ok(item("Alias", ItemKind::TypeAlias { generics: vec![], ty: wty("Foo") }))
        }
        _ => Err(ParseFailure),
    }
}

fn line_start(source: &[u8], position: usize) -> Option<usize> {
    if position > source.len() {
        return None;
    }
    Some(source[..position].iter().rposition(|b| *b == b'\n').map_or(0, |n| n + 1))
}

fn block_start(source: &[u8], position: usize) -> Option<usize> {
    let mut start = line_start(source, position)?;
    loop {
        if source[start..].starts_with(b"impl") || source[start..].starts_with(b"trait") {
            return Some(start);
        }
        if start == 0 {
            return None;
        }
        start = line_start(source, start - 1)?;
    }
}

fn closing_paren(source: &[u8], open: usize) -> Option<usize> {
    let mut depth = 1;
    for (i, b) in source.iter().enumerate().skip(open) {
        match b {
            b'(' => depth += 1,
            b')' => {
                depth -= 1;
                if depth == 0 {
                    return Some(i);
                }
            }
            _ => {}
        }
    }
    None
}

fn host(request: &Request) -> Answer {
    match request {
        Request::Resolve { path, .. } => {
            Answer::Matches(lookup_name(&path.segments.last().unwrap().name))
        }
        Request::ImplMethods { of_type, method_name, .. } => {
            if of_type == "Wrapper" && method_name == "get" {
                Answer::Matches(lookup_name("get"))
            } else {
                Answer::Matches(vec![])
            }
        }
        Request::LoadFile { file } | Request::LoadMaskedFile { file } => {
            if *file == FILE {
                Answer::Text(SRC.as_bytes().to_vec())
            } else {
                Answer::Text(vec![])
            }
        }
        Request::StatementStart { source, position } => {
            Answer::Offset(line_start(source, *position))
        }
        Request::ImplBlockStart { source, position } => {
            Answer::Offset(block_start(source, *position))
        }
        Request::ClosingParen { source, open } => Answer::Offset(closing_paren(source, *open)),
        Request::EndOfNextScope { source } => {
            Answer::Offset(source.iter().position(|b| *b == b'}').map(|n| n + 1))
        }
        Request::FirstStatement { source } => {
            if source.is_empty() {
                Answer::Range(None)
            } else {
                let end = source.iter().position(|b| *b == b'\n').unwrap_or(source.len());
                Answer::Range(Some((0, end)))
            }
        }
        Request::ContainsSelf { text } => {
            Answer::Flag(text.windows(4).any(|w| w == b"self"))
        }
        Request::ParseStatement { source } => {
            Answer::Statement(parse(std::str::from_utf8(source).unwrap()))
        }
    }
}

/// Runs an inference to its end, asking the host whatever it asks.
fn run<T>(known: &mut Known, infer: &dyn Fn(&Known) -> Step<T>) -> Step<T> {
    for _ in 0..200 {
        match infer(known) {
            Step::Ask(request) => {
                let answer = host(&request);
                known.record(request, answer);
            }
            done => return done,
        }
    }
    panic!("the inference keeps asking");
}

fn resolved_name(step: &Step<Ty>) -> Option<(&str, MatchKind)> {
    match step {
        Step::Found(Ty::Resolved(m)) => Some((m.name.as_str(), m.kind)),
        _ => None,
    }
}

fn scope_at(needle: &str) -> Scope {
    Scope { file: FILE, position: at(needle) }
}

#[test]
fn positional_field_of_a_tuple_struct() {
    // p.1 where p = Point(1,2) and struct Point(int, int)
    let mut known = Known::new();
    let r = run(&mut known, &|k| get_type_of(k, b"p.1", FILE, SRC.len(), 8));
    assert_eq!(resolved_name(&r), Some(("int", MatchKind::Struct)));
    // the base alone is the struct
    let p = name_expr("p");
    let r = run(&mut known, &|k| type_of_expression(k, &p, &scope_at("type Alias"), 8));
    assert_eq!(resolved_name(&r), Some(("Point", MatchKind::Struct)));
}

#[test]
fn positional_lookup_by_index() {
    let mut known = Known::new();
    let point = lookup_name("Point").pop().unwrap();
    let first = run(&mut known, &|k| get_tuplestruct_field_type(k, 0, &point));
    let expected = Ty::Deferred(named("int"), Scope { file: FILE, position: point.position });
    assert_eq!(first, Step::Found(expected));
    let second = run(&mut known, &|k| get_tuplestruct_field_type(k, 1, &point));
    assert!(matches!(second, Step::Found(Ty::Deferred(_, _))));
    let third = run(&mut known, &|k| get_tuplestruct_field_type(k, 2, &point));
    assert_eq!(third, Step::Nothing);
}

#[test]
fn payload_of_an_enum_variant_in_if_let() {
    // if let Some(x) = opt_expr { } with the position on x
    let mut known = Known::new();
    let stmt = "if let Some(x) = opt_expr { }";
    let scope = scope_at("if let Some(x)");
    let r = run(&mut known, &|k| get_let_type(k, stmt.as_bytes(), 12, scope, 8));
    assert_eq!(resolved_name(&r), Some(("Foo", MatchKind::Struct)));
    // the variant is read as a tuple struct
    let some = lookup_name("Some").pop().unwrap();
    let payload = run(&mut known, &|k| get_tuplestruct_field_type(k, 0, &some));
    let expected = Ty::Deferred(named("Foo"), Scope { file: FILE, position: some.position });
    assert_eq!(payload, Step::Found(expected));
}

#[test]
fn method_return_type_through_generics() {
    // wrapper_of_bar.get() with fn get(&self) -> T in impl<T> Wrapper<T>
    let mut known = Known::new();
    let e = expr(ExprKind::MethodCall { method: "get".to_string() }, vec![name_expr("wrapper_of_bar")]);
    let scope = scope_at("type Alias");
    let r = run(&mut known, &|k| type_of_expression(k, &e, &scope, 8));
    assert_eq!(resolved_name(&r), Some(("Bar", MatchKind::Struct)));
    // the receiver carries the pairing of T with Bar
    let receiver = name_expr("wrapper_of_bar");
    let r = run(&mut known, &|k| type_of_expression(k, &receiver, &scope, 8));
    match r {
        Step::Found(Ty::Resolved(m)) => {
            assert_eq!(m.name, "Wrapper");
            assert_eq!(m.generic_arg_names, vec!["T".to_string()]);
            assert_eq!(
                m.generic_arg_types,
                vec![PathSearch {
                    path: named("Bar"),
                    file: FILE,
                    position: at("wrapper_of_bar: ")
                }]
            );
        }
        other => panic!("no receiver type: {:?}", other),
    }
}

#[test]
fn mismatched_arity_is_a_violation() {
    // let (c, d): (Foo, Bar, Point) = triple();
    let mut known = Known::new();
    let stmt = "let (c, d): (Foo, Bar, Point) = triple();";
    let scope = scope_at("d): (Foo");
    let r = run(&mut known, &|k| try_get_let_type(k, stmt.as_bytes(), 8, scope, 8));
    assert_eq!(r, Step::Violation(ContractViolation::ArityMismatch));
    // through the resolved name too
    let d = lookup_name("d").pop().unwrap();
    let r = run(&mut known, &|k| try_get_type_of_let_expr(k, &d, SRC.as_bytes(), 8));
    assert_eq!(r, Step::Violation(ContractViolation::ArityMismatch));
    // and through the expression that names the binding
    let d_expr = name_expr("d");
    let scope = scope_at("type Alias");
    let r = run(&mut known, &|k| try_type_of_expression(k, &d_expr, &scope, 8));
    assert_eq!(r, Step::Violation(ContractViolation::ArityMismatch));
    let r = run(&mut known, &|k| try_get_type_of(k, b"d", FILE, SRC.len(), 8));
    assert_eq!(r, Step::Violation(ContractViolation::ArityMismatch));
    let r = run(&mut known, &|k| {
        try_get_type_of_match(k, lookup_name("d").pop().unwrap(), SRC.as_bytes(), 8)
    });
    assert_eq!(r, Step::Violation(ContractViolation::ArityMismatch));
}

#[test]
fn both_forms_agree_where_nothing_is_violated() {
    let mut known = Known::new();
    let stmt = "let (a, b): (Foo, Bar) = pair();";
    let scope = scope_at("b): (Foo, Bar)");
    let tried = run(&mut known, &|k| try_get_let_type(k, stmt.as_bytes(), 8, scope, 8));
    let plain = run(&mut known, &|k| get_let_type(k, stmt.as_bytes(), 8, scope, 8));
    assert_eq!(tried, plain);
    assert_eq!(resolved_name(&plain), Some(("Bar", MatchKind::Struct)));
    let p = name_expr("p");
    let tried = run(&mut known, &|k| try_type_of_expression(k, &p, &scope, 8));
    let plain = run(&mut known, &|k| type_of_expression(k, &p, &scope, 8));
    assert_eq!(tried, plain);
    let tried = run(&mut known, &|k| try_get_type_of(k, b"p.1", FILE, SRC.len(), 8));
    let plain = run(&mut known, &|k| get_type_of(k, b"p.1", FILE, SRC.len(), 8));
    assert_eq!(tried, plain);
    let pat = ident("abc", 4);
    assert_eq!(
        try_destructure_pattern_to_ty(&known, &pat, 5, &Ty::Unsupported, &scope),
        destructure_pattern_to_ty(&known, &pat, 5, &Ty::Unsupported, &scope)
    );
    // a binding alone, and an `if let` alone
    let local = Local { pat: ident("v", 4), ty: None, init: Some(lit()) };
    assert_eq!(type_of_local(&known, &local, 4, &scope, 8), Step::Found(Ty::Unsupported));
    assert_eq!(try_type_of_local(&known, &local, 4, &scope, 8), Step::Found(Ty::Unsupported));
    assert_eq!(
        try_type_of_local(&known, &local, 9, &scope, 8),
        Step::Violation(ContractViolation::PointOutsideBinding)
    );
    let iflet = expr(ExprKind::IfLet { pat: ident("w", 7) }, vec![lit()]);
    assert_eq!(
        type_of_if_let(&known, &iflet, 7, &scope, 8, Step::Nothing),
        Step::Found(Ty::Unsupported)
    );
    assert_eq!(
        try_type_of_if_let(&known, &iflet, 3, &scope, 8, Step::Nothing),
        Step::Violation(ContractViolation::PointOutsideBinding)
    );
}

#[test]
fn tuple_pattern_takes_the_element_at_its_position() {
    // let (a, b): (Foo, Bar) = pair();
    let mut known = Known::new();
    let stmt = "let (a, b): (Foo, Bar) = pair();";
    let scope = scope_at("b): (Foo, Bar)");
    let first = run(&mut known, &|k| get_let_type(k, stmt.as_bytes(), 5, scope, 8));
    assert_eq!(resolved_name(&first), Some(("Foo", MatchKind::Struct)));
    let second = run(&mut known, &|k| get_let_type(k, stmt.as_bytes(), 8, scope, 8));
    assert_eq!(resolved_name(&second), Some(("Bar", MatchKind::Struct)));
    // between the elements nothing is bound
    let between = run(&mut known, &|k| get_let_type(k, stmt.as_bytes(), 6, scope, 8));
    assert_eq!(between, Step::Nothing);
}

#[test]
fn tuple_pattern_without_resolution() {
    let known = Known::new();
    let scope = scope_at("type Alias");
    let pat = pair_pat("a", "b");
    let unit = Ty::Tuple(vec![Ty::Unsupported, Ty::Tuple(vec![])]);
    assert_eq!(destructure_pattern_to_ty(&known, &pat, 5, &unit, &scope), Step::Found(Ty::Unsupported));
    assert_eq!(
        destructure_pattern_to_ty(&known, &pat, 8, &unit, &scope),
        Step::Found(Ty::Tuple(vec![]))
    );
}

#[test]
fn contract_violations() {
    let known = Known::new();
    let scope = scope_at("type Alias");
    // the position is not in the binding
    let r = try_destructure_pattern_to_ty(&known, &ident("abc", 4), 7, &Ty::Unsupported, &scope);
    assert_eq!(r, Step::Violation(ContractViolation::PointOutsideBinding));
    let r = try_destructure_pattern_to_ty(&known, &ident("abc", 4), 3, &Ty::Unsupported, &scope);
    assert_eq!(r, Step::Violation(ContractViolation::PointOutsideBinding));
    let r = try_destructure_pattern_to_ty(&known, &ident("abc", 4), 6, &Ty::Unsupported, &scope);
    assert_eq!(r, Step::Found(Ty::Unsupported));
    // a tuple pattern against what is no tuple
    let r = try_destructure_pattern_to_ty(&known, &pair_pat("a", "b"), 5, &Ty::Unsupported, &scope);
    assert_eq!(r, Step::Violation(ContractViolation::NotATuple));
    // a tuple pattern against a shorter and a longer tuple
    let one = Ty::Tuple(vec![Ty::Unsupported]);
    let r = try_destructure_pattern_to_ty(&known, &pair_pat("a", "b"), 5, &one, &scope);
    assert_eq!(r, Step::Violation(ContractViolation::ArityMismatch));
    let three = Ty::Tuple(vec![Ty::Unsupported, Ty::Unsupported, Ty::Unsupported]);
    let r = try_destructure_pattern_to_ty(&known, &pair_pat("a", "b"), 5, &three, &scope);
    assert_eq!(r, Step::Violation(ContractViolation::ArityMismatch));
    // any other pattern binds nothing
    let other = Pat { span: Span { lo: 0, hi: 9 }, kind: PatKind::Other, children: vec![ident("a", 1)] };
    assert_eq!(try_destructure_pattern_to_ty(&known, &other, 1, &Ty::Unsupported, &scope), Step::Nothing);
}

#[test]
fn generic_field_resolves_to_the_argument() {
    // struct Wrapper<T> { inner: T, count: int }, instantiated as Wrapper<Bar>
    let mut known = Known::new();
    let scope = scope_at("type Alias");
    let inner = expr(ExprKind::Field { name: "inner".to_string() }, vec![name_expr("wrapper_of_bar")]);
    let r = run(&mut known, &|k| type_of_expression(k, &inner, &scope, 8));
    assert_eq!(resolved_name(&r), Some(("Bar", MatchKind::Struct)));
    // a field whose type is no parameter resolves as it stands
    let count = expr(ExprKind::Field { name: "count".to_string() }, vec![name_expr("wrapper_of_bar")]);
    let r = run(&mut known, &|k| type_of_expression(k, &count, &scope, 8));
    assert_eq!(resolved_name(&r), Some(("int", MatchKind::Struct)));
    // a field that is not there
    let missing = expr(ExprKind::Field { name: "nope".to_string() }, vec![name_expr("wrapper_of_bar")]);
    let r = run(&mut known, &|k| type_of_expression(k, &missing, &scope, 8));
    assert_eq!(r, Step::Nothing);
}

#[test]
fn named_field_lookup() {
    let mut known = Known::new();
    let wrapper = lookup_name("Wrapper").pop().unwrap();
    let scope = Scope { file: FILE, position: wrapper.position };
    let r = run(&mut known, &|k| get_struct_field_type(k, &"inner".to_string(), &wrapper));
    assert_eq!(r, Step::Found(Ty::Deferred(named("T"), scope)));
    let r = run(&mut known, &|k| get_struct_field_type(k, &"count".to_string(), &wrapper));
    assert_eq!(r, Step::Found(Ty::Deferred(named("int"), scope)));
    let r = run(&mut known, &|k| get_struct_field_type(k, &"other".to_string(), &wrapper));
    assert_eq!(r, Step::Nothing);
}

#[test]
fn lookups_in_extracted_fields() {
    let scope = scope_at("type Alias");
    let fields = vec![
        ("a".to_string(), 3, Some(Ty::Deferred(named("A"), scope))),
        ("b".to_string(), 9, None),
        ("a".to_string(), 15, Some(Ty::Unsupported)),
    ];
    assert_eq!(lookup_field_by_name(&fields, &"a".to_string()), Some(Ty::Deferred(named("A"), scope)));
    assert_eq!(lookup_field_by_name(&fields, &"b".to_string()), None);
    assert_eq!(lookup_field_by_name(&fields, &"c".to_string()), None);
    assert_eq!(lookup_field_by_position(&fields, 0), Some(Ty::Deferred(named("A"), scope)));
    assert_eq!(lookup_field_by_position(&fields, 1), None);
    assert_eq!(lookup_field_by_position(&fields, 2), Some(Ty::Unsupported));
    assert_eq!(lookup_field_by_position(&fields, 3), None);
}

#[test]
fn substitution() {
    let here = scope_at("type Alias");
    let mut context = lookup_name("Wrapper").pop().unwrap();
    let bar = PathSearch { path: named("Bar"), file: FileId(9), position: 77 };
    context = context.with_generic_types(vec![PathSearch {
        path: named("Bar"),
        file: FileId(9),
        position: 77,
    }]);
    // the parameter stands for its argument
    assert_eq!(substitute(&named("T"), here, &context), bar);
    // what names no parameter stands for itself
    let own = PathSearch { path: named("U"), file: FILE, position: here.position };
    assert_eq!(substitute(&named("U"), here, &context), own);
    // a longer path is never a parameter
    let long = Path {
        global: false,
        segments: vec![
            PathSegment { name: "T".to_string(), types: vec![] },
            PathSegment { name: "T".to_string(), types: vec![] },
        ],
    };
    let r = substitute(&long, here, &context);
    assert_eq!(r.path, long);
    assert_eq!((r.file, r.position), (FILE, here.position));
    // a parameter without an argument stands for itself
    let bare = lookup_name("Wrapper").pop().unwrap();
    let r = substitute(&named("T"), here, &bare);
    assert_eq!(r, PathSearch { path: named("T"), file: FILE, position: here.position });
    // substituting again changes nothing
    let once = substitute(&named("T"), here, &context);
    let again = substitute(&once.path, Scope { file: once.file, position: once.position }, &context);
    assert_eq!(again, once);
}

#[test]
fn pairing_of_generic_arguments() {
    let m = Match {
        name: "Map".to_string(),
        file: FILE,
        position: 0,
        is_local: false,
        kind: MatchKind::Struct,
        context_line: vec![],
        generic_arg_names: vec!["K".to_string(), "V".to_string()],
        generic_arg_types: vec![],
    };
    let search = |name: &str| PathSearch { path: named(name), file: FILE, position: 5 };
    let both = m.with_generic_types(vec![search("A"), search("B")]);
    assert_eq!(both.generic_arg_names, vec!["K".to_string(), "V".to_string()]);
    assert_eq!(both.generic_arg_types, vec![search("A"), search("B")]);
    let fewer = m.with_generic_types(vec![search("A")]);
    assert_eq!(fewer.generic_arg_names, vec!["K".to_string()]);
    assert_eq!(fewer.generic_arg_types, vec![search("A")]);
    let more = m.with_generic_types(vec![search("A"), search("B"), search("C")]);
    assert_eq!(more.generic_arg_names.len(), 2);
    assert_eq!(more.generic_arg_types, vec![search("A"), search("B")]);
    assert_eq!(more.name, "Map");
    assert_eq!(Scope::from_match(&more), Scope { file: FILE, position: 0 });
}

#[test]
fn resolution_with_and_without_context() {
    let mut known = Known::new();
    let here = scope_at("type Alias");
    let context = lookup_name("Wrapper").pop().unwrap().with_generic_types(vec![PathSearch {
        path: named("Bar"),
        file: FILE,
        position: here.position,
    }]);
    let r = run(&mut known, &|k| {
        path_to_match_including_generics(k, Ty::Deferred(named("T"), here), &context)
    });
    assert_eq!(resolved_name(&r), Some(("Bar", MatchKind::Struct)));
    let r = run(&mut known, &|k| {
        path_to_match_including_generics(k, Ty::Deferred(named("Foo"), here), &context)
    });
    assert_eq!(resolved_name(&r), Some(("Foo", MatchKind::Struct)));
    let r = run(&mut known, &|k| path_to_match(k, Ty::Deferred(named("Foo"), here)));
    assert_eq!(resolved_name(&r), Some(("Foo", MatchKind::Struct)));
    // what is not deferred comes back as it is
    assert_eq!(path_to_match(&known, Ty::Unsupported), Step::Found(Ty::Unsupported));
    assert_eq!(
        path_to_match_including_generics(&known, Ty::Tuple(vec![]), &context),
        Step::Found(Ty::Tuple(vec![]))
    );
    // a field type that is no path holds no parameter and stays as it is
    let r = find_type_match_including_generics(&known, &Ty::Unsupported, FILE, 0, &context);
    assert_eq!(r, Step::Found(Ty::Unsupported));
    let pair = || Ty::Tuple(vec![Ty::Deferred(named("Foo"), here), Ty::Deferred(named("Bar"), here)]);
    let r = find_type_match_including_generics(&known, &pair(), FILE, 0, &context);
    assert_eq!(r, Step::Found(pair()));
    let r = run(&mut known, &|k| {
        find_type_match_including_generics(k, &Ty::Deferred(named("T"), here), FILE, 0, &context)
    });
    assert_eq!(resolved_name(&r), Some(("Bar", MatchKind::Struct)));
    // an unknown name has no type
    let r = run(&mut known, &|k| find_type_match(k, &named("Nope"), FILE, 0));
    assert_eq!(r, Step::Nothing);
}

#[test]
fn type_alias_stands_for_its_target() {
    let mut known = Known::new();
    let r = run(&mut known, &|k| find_type_match(k, &named("Alias"), FILE, SRC.len()));
    assert_eq!(resolved_name(&r), Some(("Foo", MatchKind::Struct)));
    let alias = lookup_name("Alias").pop().unwrap();
    let r = run(&mut known, &|k| get_type_of_typedef(k, &alias));
    match r {
        Step::Found(m) => assert_eq!((m.name.as_str(), m.kind), ("Foo", MatchKind::Struct)),
        other => panic!("no target: {:?}", other),
    }
}

#[test]
fn calls_literals_and_tuples() {
    let mut known = Known::new();
    let scope = scope_at("type Alias");
    // a constructor call
    let e = call("Point", vec![lit(), lit()]);
    let r = run(&mut known, &|k| type_of_expression(k, &e, &scope, 8));
    assert_eq!(resolved_name(&r), Some(("Point", MatchKind::Struct)));
    // a call of a function without a return type
    let e = call("f", vec![name_expr("p")]);
    let r = run(&mut known, &|k| type_of_expression(k, &e, &scope, 8));
    assert_eq!(r, Step::Nothing);
    // a call of what is neither
    let e = call("Opt", vec![]);
    let r = run(&mut known, &|k| type_of_expression(k, &e, &scope, 8));
    assert_eq!(r, Step::Nothing);
    // a literal
    assert_eq!(type_of_expression(&known, &lit(), &scope, 8), Step::Found(Ty::Unsupported));
    // a tuple of a name and a literal
    let e = expr(ExprKind::Tup, vec![name_expr("p"), lit()]);
    let r = run(&mut known, &|k| type_of_expression(k, &e, &scope, 8));
    match r {
        Step::Found(Ty::Tuple(elems)) => {
            assert_eq!(elems.len(), 2);
            assert!(matches!(&elems[0], Ty::Resolved(m) if m.name == "Point"));
            assert_eq!(elems[1], Ty::Unsupported);
        }
        other => panic!("no tuple: {:?}", other),
    }
    // no partial tuples
    let e = expr(ExprKind::Tup, vec![lit(), name_expr("nope"), lit()]);
    let r = run(&mut known, &|k| type_of_expression(k, &e, &scope, 8));
    assert_eq!(r, Step::Nothing);
    // a struct literal
    let e = expr(ExprKind::Struct(wpath("Foo")), vec![]);
    let r = run(&mut known, &|k| type_of_expression(k, &e, &scope, 8));
    assert_eq!(resolved_name(&r), Some(("Foo", MatchKind::Struct)));
    // anything else
    let e = expr(ExprKind::Other, vec![lit()]);
    assert_eq!(type_of_expression(&known, &e, &scope, 8), Step::Nothing);
}

#[test]
fn method_return_type() {
    let mut known = Known::new();
    let get = lookup_name("get").pop().unwrap();
    let r = run(&mut known, &|k| get_return_type_of_function(k, &get));
    let expected = Ty::Deferred(named("T"), Scope { file: FILE, position: get.position });
    assert_eq!(r, Step::Found(expected));
    assert_eq!(wrap_in_impl(b"fn get(&self) -> T {"), b"impl blah {fn get(&self) -> T {}}".to_vec());
}

#[test]
fn parameters() {
    let mut known = Known::new();
    let arg = lookup_name("opt_expr").pop().unwrap();
    let r = run(&mut known, &|k| get_type_of_fnarg(k, &arg, SRC.as_bytes()));
    assert_eq!(resolved_name(&r), Some(("Opt", MatchKind::Enum)));
    let arg = lookup_name("opt_expr").pop().unwrap();
    let r = run(&mut known, &|k| get_type_of_match(k, lookup_name("opt_expr").pop().unwrap(), SRC.as_bytes(), 0));
    assert_eq!(resolved_name(&r), Some(("Opt", MatchKind::Enum)));
    assert_eq!(arg.kind, MatchKind::FunctionArgument);
}

#[test]
fn receiver_of_a_method() {
    let mut known = Known::new();
    let me = decl("self", MatchKind::FunctionArgument, at("self) -> T"), &[]);
    let r = run(&mut known, &|k| get_type_of_fnarg(k, &me, SRC.as_bytes()));
    assert_eq!(resolved_name(&r), Some(("Wrapper", MatchKind::Struct)));
    let r = run(&mut known, &|k| get_type_of_self_arg(k, &me, SRC.as_bytes()));
    assert_eq!(resolved_name(&r), Some(("Wrapper", MatchKind::Struct)));
    // in a trait the receiver is the trait
    let me = decl("self", MatchKind::FunctionArgument, at("self) -> int"), &[]);
    let r = run(&mut known, &|k| get_type_of_self_arg(k, &me, SRC.as_bytes()));
    let expected = Match {
        name: "Shape".to_string(),
        file: FILE,
        position: at("trait Shape"),
        is_local: true,
        kind: MatchKind::Trait,
        context_line: b"trait Shape {".to_vec(),
        generic_arg_names: vec![],
        generic_arg_types: vec![],
    };
    assert_eq!(r, Step::Found(Ty::Resolved(expected)));
    // outside any block there is no receiver
    let me = decl("self", MatchKind::FunctionArgument, at("struct Point"), &[]);
    let r = run(&mut known, &|k| get_type_of_self_arg(k, &me, SRC.as_bytes()));
    assert_eq!(r, Step::Nothing);
}

#[test]
fn kinds_of_matches() {
    let known = Known::new();
    for name in ["Point", "Opt", "f"] {
        let m = lookup_name(name).pop().unwrap();
        let r = get_type_of_match(&known, m, SRC.as_bytes(), 0);
        assert_eq!(resolved_name(&r).map(|x| x.0), Some(name));
    }
    let module = decl("m", MatchKind::Module, 0, &[]);
    assert!(matches!(get_type_of_match(&known, module, b"", 0), Step::Found(Ty::Resolved(_))));
    for kind in [MatchKind::Trait, MatchKind::TypeAlias, MatchKind::EnumVariant, MatchKind::Impl] {
        let m = decl("x", kind, 0, &[]);
        assert_eq!(get_type_of_match(&known, m, SRC.as_bytes(), 4), Step::Nothing);
    }
}

#[test]
fn chains_of_bindings_cost_depth() {
    // let p = Point(1,2); let q = p; let r = q;
    let scope = scope_at("type Alias");
    let r_expr = name_expr("r");
    for depth in 0..3 {
        let mut known = Known::new();
        let r = run(&mut known, &|k| type_of_expression(k, &r_expr, &scope, depth));
        assert_eq!(r, Step::Nothing, "depth {}", depth);
    }
    let mut known = Known::new();
    let r = run(&mut known, &|k| type_of_expression(k, &r_expr, &scope, 3));
    assert_eq!(resolved_name(&r), Some(("Point", MatchKind::Struct)));
    // p itself is one step away
    let p_expr = name_expr("p");
    let r = run(&mut known, &|k| type_of_expression(k, &p_expr, &scope, 0));
    assert_eq!(r, Step::Nothing);
    let r = run(&mut known, &|k| type_of_expression(k, &p_expr, &scope, 1));
    assert_eq!(resolved_name(&r), Some(("Point", MatchKind::Struct)));
}

#[test]
fn type_of_a_let_statement_is_that_of_its_value() {
    let mut known = Known::new();
    let r = run(&mut known, &|k| get_type_of(k, b"let p = Point(1,2);", FILE, SRC.len(), 8));
    assert_eq!(resolved_name(&r), Some(("Point", MatchKind::Struct)));
    // an item has no type
    let r = run(&mut known, &|k| get_type_of(k, b"type Alias = Foo;", FILE, SRC.len(), 8));
    assert_eq!(r, Step::Nothing);
}

#[test]
fn what_does_not_parse_has_no_type() {
    let mut known = Known::new();
    let scope = scope_at("type Alias");
    let r = run(&mut known, &|k| get_type_of(k, b"let x = {", FILE, 0, 8));
    assert_eq!(r, Step::Nothing);
    let r = run(&mut known, &|k| get_let_type(k, b"let (a, = ;", 5, scope, 8));
    assert_eq!(r, Step::Nothing);
}

#[test]
fn questions_come_one_at_a_time() {
    let mut known = Known::new();
    let first = get_type_of(&known, b"p.1", FILE, SRC.len(), 8);
    assert_eq!(first, Step::Ask(Request::ParseStatement { source: b"p.1".to_vec() }));
    known.record(Request::ParseStatement { source: b"p.1".to_vec() }, host(&Request::ParseStatement { source: b"p.1".to_vec() }));
    let second = get_type_of(&known, b"p.1", FILE, SRC.len(), 8);
    assert_eq!(
        second,
        Step::Ask(Request::Resolve {
            path: named("p"),
            file: FILE,
            position: SRC.len(),
            namespace: Namespace::Both
        })
    );
    // an answer of the wrong shape reads as no result
    known.record(
        Request::Resolve { path: named("p"), file: FILE, position: SRC.len(), namespace: Namespace::Both },
        Answer::Flag(true),
    );
    assert_eq!(get_type_of(&known, b"p.1", FILE, SRC.len(), 8), Step::Nothing);
}

#[test]
fn the_first_answer_stands() {
    let mut known = Known::new();
    let q = || Request::LoadFile { file: FILE };
    assert!(matches!(known.lookup(q()), Looked::Unknown(r) if r == q()));
    known.record(q(), Answer::Text(b"one".to_vec()));
    known.record(q(), Answer::Text(b"two".to_vec()));
    known.record(Request::LoadMaskedFile { file: FILE }, Answer::Text(b"masked".to_vec()));
    assert!(matches!(known.lookup(q()), Looked::Answered(Answer::Text(t)) if t == b"one"));
    assert_eq!(known.ask_text(q()), Step::Found(&b"one".to_vec()));
    assert_eq!(known.ask_text(Request::LoadMaskedFile { file: FILE }), Step::Found(&b"masked".to_vec()));
    assert_eq!(known.ask_text(Request::LoadFile { file: FileId(2) }), Step::Ask(Request::LoadFile { file: FileId(2) }));
    // a text is no position
    assert_eq!(known.ask_offset(q()), Step::Nothing);
    assert_eq!(known.ask_flag(q()), Step::Nothing);
    assert_eq!(known.ask_range(q()), Step::Nothing);
    assert_eq!(known.ask_match(q()), Step::Nothing);
}

#[test]
fn more_answers_change_nothing() {
    let mut known = Known::new();
    let first = run(&mut known, &|k| get_type_of(k, b"p.1", FILE, SRC.len(), 8));
    assert_eq!(resolved_name(&first), Some(("int", MatchKind::Struct)));
    let asked = known.entries.len();
    // nothing that was asked had an answer before
    for i in 0..asked {
        for j in 0..i {
            assert!(!known.entries[i].0.same(&known.entries[j].0));
        }
    }
    // answers to other questions, and other answers to the same questions
    known.record(Request::LoadFile { file: FileId(99) }, Answer::Text(b"other".to_vec()));
    known.record(Request::ParseStatement { source: b"p.1".to_vec() }, Answer::Flag(false));
    known.record(Request::LoadFile { file: FILE }, Answer::Text(vec![]));
    let again = get_type_of(&known, b"p.1", FILE, SRC.len(), 8);
    assert_eq!(again, first);
    assert_eq!(known.entries.len(), asked + 3);
}

#[test]
fn requests_compare_by_value() {
    let a = Request::Resolve { path: named("a"), file: FILE, position: 3, namespace: Namespace::Type };
    let b = Request::Resolve { path: named("a"), file: FILE, position: 3, namespace: Namespace::Type };
    let c = Request::Resolve { path: named("a"), file: FILE, position: 3, namespace: Namespace::Value };
    let d = Request::Resolve { path: named("b"), file: FILE, position: 3, namespace: Namespace::Type };
    assert!(a.same(&b));
    assert!(!a.same(&c));
    assert!(!a.same(&d));
    let e = Request::StatementStart { source: b"x".to_vec(), position: 0 };
    let f = Request::ImplBlockStart { source: b"x".to_vec(), position: 0 };
    assert!(!e.same(&f));
    assert!(e.same(&Request::StatementStart { source: b"x".to_vec(), position: 0 }));
    assert!(!e.same(&Request::StatementStart { source: b"y".to_vec(), position: 0 }));
    assert!(named("a").same(&named("a")));
    assert!(!named("a").same(&named("b")));
    assert_eq!(named("a").duplicate(), named("a"));
}

#[test]
fn self_in_the_parameter_list() {
    let mut known = Known::new();
    let r = run(&mut known, &|k| first_param_is_self(k, b"fn get(&self) -> T {"));
    assert_eq!(r, Step::Found(true));
    let r = run(&mut known, &|k| first_param_is_self(k, b"fn f(opt_expr: Opt) {"));
    assert_eq!(r, Step::Found(false));
    assert_eq!(first_param_is_self(&known, b"struct Foo;"), Step::Found(false));
    // the question names the text between the parentheses' start and the end
    let fresh = Known::new();
    assert_eq!(
        first_param_is_self(&fresh, b"fn g(a)"),
        Step::Ask(Request::ClosingParen { source: b"fn g(a)".to_vec(), open: 5 })
    );
}

#[test]
fn first_statement_of_a_text() {
    let mut known = Known::new();
    let r = run(&mut known, &|k| get_first_stmt(k, b"let a = 1;\nlet b = 2;"));
    assert_eq!(r, Step::Found(b"let a = 1;".to_vec()));
    // where the host finds none the text stands for itself
    let r = run(&mut known, &|k| get_first_stmt(k, b""));
    assert_eq!(r, Step::Found(vec![]));
    let mut odd = Known::new();
    odd.record(Request::FirstStatement { source: b"abc".to_vec() }, Answer::Range(Some((2, 9))));
    assert_eq!(get_first_stmt(&odd, b"abc"), Step::Found(b"abc".to_vec()));
    odd.record(Request::FirstStatement { source: b"abcd".to_vec() }, Answer::Range(Some((1, 3))));
    assert_eq!(get_first_stmt(&odd, b"abcd"), Step::Found(b"bc".to_vec()));
}

#[test]
fn names_resolve_in_both_namespaces() {
    let mut known = Known::new();
    let r = run(&mut known, &|k| resolve_ast_path(k, &wpath("Point"), FILE, 0));
    match r {
        Step::Found(m) => assert_eq!(m.position, at("Point(")),
        other => panic!("not found: {:?}", other),
    }
    assert_eq!(
        resolve_ast_path(&Known::new(), &wpath("Point"), FILE, 4),
        Step::Ask(Request::Resolve {
            path: named("Point"),
            file: FILE,
            position: 4,
            namespace: Namespace::Both
        })
    );
}
