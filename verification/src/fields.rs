//! Declared types, read from the source of a declaration: the type of a
//! field of a struct by name, of a field of a tuple struct or of an enum
//! variant by position, and the return type of a function.

use vstd::prelude::*;
use crate::host::{flag_of, offset_of, range_of, statement_of, text_of, Answer, Known, Request, RequestV, Step, StepV};
use crate::items::{parse_struct_fields, struct_fields_of};
use crate::model::{Match, MatchKind, MatchV, Scope, Ty, TyV};
use crate::signature::{fn_facts, parse_fn_output};
use crate::text::{append, ascii, ascii_bytes, copy_bytes, copy_slice, cut, find_byte, first_index, OPEN_BRACE, OPEN_PAREN};

verus! {

/// The index of the first field at or after `from` that is called `name`.
pub open spec fn first_named(
    fields: Seq<(Seq<char>, usize, Option<TyV>)>,
    name: Seq<char>,
    from: int,
) -> Option<int>
    decreases fields.len() - from,
{
    if from < 0 || from >= fields.len() {
        None
    } else if fields[from].0 == name {
        Some(from)
    } else {
        first_named(fields, name, from + 1)
    }
}

/// The type of the first field that is called `name`.
pub open spec fn field_by_name(fields: Seq<(Seq<char>, usize, Option<TyV>)>, name: Seq<char>) -> Option<TyV> {
    match first_named(fields, name, 0) {
        Some(i) => fields[i].2,
        None => None,
    }
}

/// The type of the field at position `n`.
pub open spec fn field_by_position(fields: Seq<(Seq<char>, usize, Option<TyV>)>, n: usize) -> Option<TyV> {
    if n < fields.len() {
        fields[n as int].2
    } else {
        None
    }
}

/// The type of the first of the fields that is called `name`.
pub fn lookup_field_by_name(fields: &Vec<(String, usize, Option<Ty>)>, name: &String) -> (r: Option<Ty>)
    ensures
        r.deep_view() == field_by_name(fields.deep_view(), name@),
{
    let mut i: usize = 0;
    while i < fields.len()
        invariant
            i <= fields.len(),
            first_named(fields.deep_view(), name@, 0) == first_named(
                fields.deep_view(),
                name@,
                i as int,
            ),
        decreases fields.len() - i,
    {
        if fields[i].0 == *name {
            return match &fields[i].2 {
                Some(t) => Some(t.duplicate()),
                None => None,
            };
        }
        i += 1;
    }
    None
}

/// The type of the field at position `n`.
pub fn lookup_field_by_position(fields: &Vec<(String, usize, Option<Ty>)>, n: usize) -> (r: Option<Ty>)
    ensures
        r.deep_view() == field_by_position(fields.deep_view(), n),
{
    if n < fields.len() {
        match &fields[n].2 {
            Some(t) => Some(t.duplicate()),
            None => None,
        }
    } else {
        None
    }
}

/// The first statement of a text; the whole text where the host finds none
/// or names a range that does not lie in it.
pub open spec fn first_statement(k: Map<RequestV, Answer>, src: Seq<u8>) -> StepV<Seq<u8>> {
    match range_of(k, RequestV::FirstStatement { source: src }) {
        StepV::Found((from, to)) => if from <= to <= src.len() {
            StepV::Found(src.subrange(from as int, to as int))
        } else {
            StepV::Found(src)
        },
        StepV::Nothing => StepV::Found(src),
        other => other.pass(),
    }
}

/// The first statement of a text; see [`first_statement`].
pub fn get_first_stmt(k: &Known, src: &[u8]) -> (r: Step<Vec<u8>>)
    ensures
        match r {
            Step::Found(t) => first_statement(k@, src@) == StepV::Found(t@),
            other => !(first_statement(k@, src@) is Found) && other.deep_view()
                == first_statement(k@, src@).pass::<Seq<u8>>(),
        },
{
    match k.ask_range(Request::FirstStatement { source: copy_slice(src) }) {
        Step::Found((from, to)) => {
            if from <= to && to <= src.len() {
                Step::Found(cut(src, from, to))
            } else {
                Step::Found(copy_slice(src))
            }
        },
        Step::Nothing => Step::Found(copy_slice(src)),
        Step::Ask(q) => Step::Ask(q),
        Step::Violation(c) => Step::Violation(c),
    }
}

/// The text of the declaration of a struct: from the start of the statement
/// around the match to the end of its braced scope.
pub open spec fn struct_source(k: Map<RequestV, Answer>, m: MatchV) -> StepV<Seq<u8>> {
    match text_of(k, RequestV::LoadFile { file: m.file }) {
        StepV::Found(src) => match offset_of(
            k,
            RequestV::StatementStart { source: src, position: m.position },
        ) {
            StepV::Found(start) => if start > src.len() {
                StepV::Nothing
            } else {
                let rest = src.skip(start as int);
                match offset_of(k, RequestV::EndOfNextScope { source: rest }) {
                    StepV::Found(end) => if end > rest.len() {
                        StepV::Nothing
                    } else {
                        StepV::Found(rest.take(end as int))
                    },
                    other => other.pass(),
                }
            },
            other => other.pass(),
        },
        other => other.pass(),
    }
}

/// The declared type of the field `name` of a struct, as its declaration
/// parses: that of the first field of this name.
pub open spec fn struct_field_type(k: Map<RequestV, Answer>, name: Seq<char>, m: MatchV) -> StepV<TyV> {
    match struct_source(k, m) {
        StepV::Found(text) => match statement_of(k, RequestV::ParseStatement { source: text }) {
            StepV::Found(parsed) => match field_by_name(
                struct_fields_of(parsed, m.scope()),
                name,
            ) {
                Some(t) => StepV::Found(t),
                None => StepV::Nothing,
            },
            other => other.pass(),
        },
        other => other.pass(),
    }
}

/// A payload in parentheses dressed as the declaration of a tuple struct.
pub open spec fn as_tuple_struct(payload: Seq<u8>) -> Seq<u8> {
    ascii("struct "@) + payload + ascii(";"@)
}

/// The header of a function set into an `impl` block, so that a method
/// parses like any function.
pub open spec fn wrapped_in_impl(header: Seq<u8>) -> Seq<u8> {
    ascii("impl blah {"@) + header + ascii("}}"@)
}

/// The length of what [`wrapped_in_impl`] puts before the header.
pub const IMPL_HEADER_LEN: usize = 11;

/// The text that declares the positional fields of a match.  For an enum
/// variant: its name and payload up to the closing parenthesis, dressed as a
/// tuple struct.  For a struct: the first statement from the start of the
/// statement around the match.
pub open spec fn tuple_struct_source(k: Map<RequestV, Answer>, m: MatchV) -> StepV<Seq<u8>> {
    match text_of(k, RequestV::LoadFile { file: m.file }) {
        StepV::Found(src) => if m.kind == MatchKind::EnumVariant {
            if m.position > src.len() {
                StepV::Nothing
            } else {
                match first_index(src.skip(m.position as int), OPEN_PAREN) {
                    Some(n) => match offset_of(
                        k,
                        RequestV::ClosingParen {
                            source: src,
                            open: (m.position + n + 1) as usize,
                        },
                    ) {
                        StepV::Found(to) => if m.position <= to < src.len() {
                            StepV::Found(as_tuple_struct(src.subrange(m.position as int, to + 1)))
                        } else {
                            StepV::Nothing
                        },
                        other => other.pass(),
                    },
                    None => StepV::Nothing,
                }
            }
        } else {
            match offset_of(k, RequestV::StatementStart { source: src, position: m.position }) {
                StepV::Found(start) => if start > src.len() {
                    StepV::Nothing
                } else {
                    first_statement(k, src.skip(start as int))
                },
                other => other.pass(),
            }
        },
        other => other.pass(),
    }
}

/// The declared type of the field at position `n` of a tuple struct or of
/// an enum variant, as its declaration parses.
pub open spec fn tuple_struct_field_type(k: Map<RequestV, Answer>, n: usize, m: MatchV) -> StepV<TyV> {
    match tuple_struct_source(k, m) {
        StepV::Found(text) => match statement_of(k, RequestV::ParseStatement { source: text }) {
            StepV::Found(parsed) => match field_by_position(
                struct_fields_of(parsed, m.scope()),
                n,
            ) {
                Some(t) => StepV::Found(t),
                None => StepV::Nothing,
            },
            other => other.pass(),
        },
        other => other.pass(),
    }
}

/// The declared return type of a function, as its header parses: the text
/// from the start of the statement around the match up to and with the
/// first `{`, set into an `impl` block.
pub open spec fn return_type(k: Map<RequestV, Answer>, m: MatchV) -> StepV<TyV> {
    match text_of(k, RequestV::LoadFile { file: m.file }) {
        StepV::Found(src) => match offset_of(
            k,
            RequestV::StatementStart { source: src, position: m.position },
        ) {
            StepV::Found(point) => if point > src.len() {
                StepV::Nothing
            } else {
                match first_index(src.skip(point as int), OPEN_BRACE) {
                    Some(n) => match statement_of(
                        k,
                        RequestV::ParseStatement {
                            source: wrapped_in_impl(src.subrange(point as int, point + n + 1)),
                        },
                    ) {
                        StepV::Found(parsed) => match fn_facts(parsed, m.scope()).output {
                            Some(t) => StepV::Found(t),
                            None => StepV::Nothing,
                        },
                        other => other.pass(),
                    },
                    None => StepV::Nothing,
                }
            },
            other => other.pass(),
        },
        other => other.pass(),
    }
}

/// Whether the parameter list of a function mentions `self`: whether the
/// text between the first `(` and its closing parenthesis holds the token.
/// False where there is no parenthesis or the host finds no closing one.
pub open spec fn mentions_self(k: Map<RequestV, Answer>, blob: Seq<u8>) -> StepV<bool> {
    match first_index(blob, OPEN_PAREN) {
        Some(start) => match offset_of(
            k,
            RequestV::ClosingParen { source: blob, open: (start + 1) as usize },
        ) {
            StepV::Found(end) => if start + 1 <= end <= blob.len() {
                match flag_of(
                    k,
                    RequestV::ContainsSelf { text: blob.subrange(start + 1, end as int) },
                ) {
                    StepV::Nothing => StepV::Found(false),
                    other => other,
                }
            } else {
                StepV::Found(false)
            },
            StepV::Nothing => StepV::Found(false),
            other => other.pass(),
        },
        None => StepV::Found(false),
    }
}

/// Sets the header of a function into an `impl` block.
pub fn wrap_in_impl(header: &[u8]) -> (r: Vec<u8>)
    ensures
        r@ == wrapped_in_impl(header@),
        ascii("impl blah {"@).len() == IMPL_HEADER_LEN,
{
    proof {
        reveal_strlit("impl blah {");
        reveal_strlit("}}");
    }
    let mut s = ascii_bytes("impl blah {");
    append(&mut s, header);
    let tail = ascii_bytes("}}");
    append(&mut s, tail.as_slice());
    s
}

fn dress_as_tuple_struct(payload: &[u8]) -> (r: Vec<u8>)
    ensures
        r@ == as_tuple_struct(payload@),
{
    proof {
        reveal_strlit("struct ");
        reveal_strlit(";");
    }
    let mut s = ascii_bytes("struct ");
    append(&mut s, payload);
    let tail = ascii_bytes(";");
    append(&mut s, tail.as_slice());
    s
}

fn skip(src: &Vec<u8>, from: usize) -> (r: Vec<u8>)
    requires
        from <= src.len(),
    ensures
        r@ == src@.skip(from as int),
{
    cut(src.as_slice(), from, src.len())
}

fn get_struct_source(k: &Known, m: &Match) -> (r: Step<Vec<u8>>)
    ensures
        match r {
            Step::Found(t) => struct_source(k@, m.deep_view()) == StepV::Found(t@),
            other => !(struct_source(k@, m.deep_view()) is Found) && other.deep_view()
                == struct_source(k@, m.deep_view()).pass::<Seq<u8>>(),
        },
{
    let src = match k.ask_text(Request::LoadFile { file: m.file }) {
        Step::Found(t) => t,
        other => {
            return other.pass();
        },
    };
    let start = match k.ask_offset(
        Request::StatementStart { source: copy_bytes(src), position: m.position },
    ) {
        Step::Found(n) => n,
        other => {
            return other.pass();
        },
    };
    if start > src.len() {
        return Step::Nothing;
    }
    let rest = skip(src, start);
    let end = match k.ask_offset(Request::EndOfNextScope { source: copy_bytes(&rest) }) {
        Step::Found(n) => n,
        other => {
            return other.pass();
        },
    };
    if end > rest.len() {
        return Step::Nothing;
    }
    Step::Found(cut(rest.as_slice(), 0, end))
}

/// The declared type of a named field of a struct; see
/// [`struct_field_type`].
pub fn get_struct_field_type(k: &Known, fieldname: &String, structmatch: &Match) -> (r: Step<Ty>)
    requires
        structmatch.kind == MatchKind::Struct,
    ensures
        r.deep_view() == struct_field_type(k@, fieldname@, structmatch.deep_view()),
{
    let structsrc = match get_struct_source(k, structmatch) {
        Step::Found(t) => t,
        other => {
            return other.pass();
        },
    };
    let parsed = match k.ask_statement(Request::ParseStatement { source: structsrc }) {
        Ok(parsed) => parsed,
        Err(e) => {
            return e.pass();
        },
    };
    let fields = parse_struct_fields(parsed, Scope::from_match(structmatch));
    match lookup_field_by_name(&fields, fieldname) {
        Some(t) => Step::Found(t),
        None => Step::Nothing,
    }
}

fn get_tuple_struct_source(k: &Known, m: &Match) -> (r: Step<Vec<u8>>)
    ensures
        match r {
            Step::Found(t) => tuple_struct_source(k@, m.deep_view()) == StepV::Found(t@),
            other => !(tuple_struct_source(k@, m.deep_view()) is Found) && other.deep_view()
                == tuple_struct_source(k@, m.deep_view()).pass::<Seq<u8>>(),
        },
{
    let src = match k.ask_text(Request::LoadFile { file: m.file }) {
        Step::Found(t) => t,
        other => {
            return other.pass();
        },
    };
    match m.kind {
        MatchKind::EnumVariant => {
            if m.position > src.len() {
                return Step::Nothing;
            }
            let rest = skip(src, m.position);
            let n = match find_byte(rest.as_slice(), OPEN_PAREN) {
                Some(n) => n,
                None => {
                    return Step::Nothing;
                },
            };
            proof {
                rest@.index_of_first_ensures(OPEN_PAREN);
            }
            let to = match k.ask_offset(
                Request::ClosingParen { source: copy_bytes(src), open: m.position + n + 1 },
            ) {
                Step::Found(to) => to,
                other => {
                    return other.pass();
                },
            };
            if m.position <= to && to < src.len() {
                let payload = cut(src.as_slice(), m.position, to + 1);
                Step::Found(dress_as_tuple_struct(payload.as_slice()))
            } else {
                Step::Nothing
            }
        },
        _ => {
            let start = match k.ask_offset(
                Request::StatementStart { source: copy_bytes(src), position: m.position },
            ) {
                Step::Found(n) => n,
                other => {
                    return other.pass();
                },
            };
            if start > src.len() {
                return Step::Nothing;
            }
            let rest = skip(src, start);
            get_first_stmt(k, rest.as_slice())
        },
    }
}

/// The declared type of a positional field of a tuple struct or of an enum
/// variant; see [`tuple_struct_field_type`].
pub fn get_tuplestruct_field_type(k: &Known, fieldnum: usize, structmatch: &Match) -> (r: Step<Ty>)
    requires
        structmatch.kind == MatchKind::Struct || structmatch.kind == MatchKind::EnumVariant,
    ensures
        r.deep_view() == tuple_struct_field_type(k@, fieldnum, structmatch.deep_view()),
{
    let structsrc = match get_tuple_struct_source(k, structmatch) {
        Step::Found(t) => t,
        other => {
            return other.pass();
        },
    };
    let parsed = match k.ask_statement(Request::ParseStatement { source: structsrc }) {
        Ok(parsed) => parsed,
        Err(e) => {
            return e.pass();
        },
    };
    let fields = parse_struct_fields(parsed, Scope::from_match(structmatch));
    match lookup_field_by_position(&fields, fieldnum) {
        Some(t) => Step::Found(t),
        None => Step::Nothing,
    }
}

/// The declared return type of a function; see [`return_type`].
pub fn get_return_type_of_function(k: &Known, fnmatch: &Match) -> (r: Step<Ty>)
    ensures
        r.deep_view() == return_type(k@, fnmatch.deep_view()),
{
    let src = match k.ask_text(Request::LoadFile { file: fnmatch.file }) {
        Step::Found(t) => t,
        other => {
            return other.pass();
        },
    };
    let point = match k.ask_offset(
        Request::StatementStart { source: copy_bytes(src), position: fnmatch.position },
    ) {
        Step::Found(n) => n,
        other => {
            return other.pass();
        },
    };
    if point > src.len() {
        return Step::Nothing;
    }
    let rest = skip(src, point);
    let n = match find_byte(rest.as_slice(), OPEN_BRACE) {
        Some(n) => n,
        None => {
            return Step::Nothing;
        },
    };
    proof {
        rest@.index_of_first_ensures(OPEN_BRACE);
    }
    let header = cut(src.as_slice(), point, point + n + 1);
    let decl = wrap_in_impl(header.as_slice());
    let parsed = match k.ask_statement(Request::ParseStatement { source: decl }) {
        Ok(parsed) => parsed,
        Err(e) => {
            return e.pass();
        },
    };
    match parse_fn_output(parsed, Scope::from_match(fnmatch)) {
        Some(t) => Step::Found(t),
        None => Step::Nothing,
    }
}

/// Whether the parameter list of a function mentions `self`; see
/// [`mentions_self`].
pub fn first_param_is_self(k: &Known, blob: &[u8]) -> (r: Step<bool>)
    ensures
        r.deep_view() == mentions_self(k@, blob@),
{
    proof {
        blob@.index_of_first_ensures(OPEN_PAREN);
    }
    let start = match find_byte(blob, OPEN_PAREN) {
        Some(n) => n,
        None => {
            return Step::Found(false);
        },
    };
    assert(start < blob.len());
    let end = match k.ask_offset(
        Request::ClosingParen { source: copy_slice(blob), open: start + 1 },
    ) {
        Step::Found(n) => n,
        Step::Nothing => {
            return Step::Found(false);
        },
        other => {
            return other.pass();
        },
    };
    if start + 1 <= end && end <= blob.len() {
        match k.ask_flag(Request::ContainsSelf { text: cut(blob, start + 1, end) }) {
            Step::Nothing => Step::Found(false),
            other => other,
        }
    } else {
        Step::Found(false)
    }
}

} // verus!
