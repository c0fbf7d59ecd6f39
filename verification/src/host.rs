//! The collaborators of inference, as data.
//!
//! Inference needs things that only the host can tell: what a path resolves
//! to, what a file holds, where a statement begins, how a fragment parses.
//! It never calls out.  It reads the answers from a table of what is known
//! so far, and where an answer is missing it stops and names the question.
//! The host answers, records the answer and asks for the inference again.

use vstd::prelude::*;
use crate::model::{FileId, Match, MatchV, Path, PathV};
use crate::text::same_bytes;
use crate::tree::{ParseFailure, Stmt};

verus! {

/// Which kind of name a path is resolved as.
#[derive(Clone, Copy, Debug, PartialEq, Eq, Structural)]
pub enum Namespace {
    Type,
    Value,
    Both,
}

/// A question to the host.  Every search is for an exact match.
#[derive(Debug, PartialEq, Eq)]
pub enum Request {
    /// The declarations that `path` names, seen from `position` in `file`,
    /// closest first.
    Resolve { path: Path, file: FileId, position: usize, namespace: Namespace },
    /// The methods called `method_name` that are implemented for the type
    /// called `of_type`, which is declared at `position` in `file`.
    ImplMethods {
        of_type: String,
        method_name: String,
        position: usize,
        file: FileId,
        is_local: bool,
    },
    /// The text of a file.
    LoadFile { file: FileId },
    /// The text of a file with its comments masked.
    LoadMaskedFile { file: FileId },
    /// Where the statement around `position` begins.
    StatementStart { source: Vec<u8>, position: usize },
    /// Where the `impl` or trait block around `position` begins.
    ImplBlockStart { source: Vec<u8>, position: usize },
    /// Where the parenthesis closes that was opened just before `open`.
    ClosingParen { source: Vec<u8>, open: usize },
    /// Where the next braced scope of `source` ends.
    EndOfNextScope { source: Vec<u8> },
    /// The first statement of `source`, as a range of positions.
    FirstStatement { source: Vec<u8> },
    /// Whether `text` holds the token `self`.
    ContainsSelf { text: Vec<u8> },
    /// `source` parsed as one statement.
    ParseStatement { source: Vec<u8> },
}

/// The value of a [`Request`].
pub enum RequestV {
    Resolve { path: PathV, file: FileId, position: usize, namespace: Namespace },
    ImplMethods {
        of_type: Seq<char>,
        method_name: Seq<char>,
        position: usize,
        file: FileId,
        is_local: bool,
    },
    LoadFile { file: FileId },
    LoadMaskedFile { file: FileId },
    StatementStart { source: Seq<u8>, position: usize },
    ImplBlockStart { source: Seq<u8>, position: usize },
    ClosingParen { source: Seq<u8>, open: usize },
    EndOfNextScope { source: Seq<u8> },
    FirstStatement { source: Seq<u8> },
    ContainsSelf { text: Seq<u8> },
    ParseStatement { source: Seq<u8> },
}

impl DeepView for Request {
    type V = RequestV;

    open spec fn deep_view(&self) -> RequestV {
        match *self {
            Request::Resolve { path, file, position, namespace } => RequestV::Resolve {
                path: path.deep_view(),
                file,
                position,
                namespace,
            },
            Request::ImplMethods {
                of_type,
                method_name,
                position,
                file,
                is_local,
            } => RequestV::ImplMethods {
                of_type: of_type@,
                method_name: method_name@,
                position,
                file,
                is_local,
            },
            Request::LoadFile { file } => RequestV::LoadFile { file },
            Request::LoadMaskedFile { file } => RequestV::LoadMaskedFile { file },
            Request::StatementStart { source, position } => RequestV::StatementStart {
                source: source@,
                position,
            },
            Request::ImplBlockStart { source, position } => RequestV::ImplBlockStart {
                source: source@,
                position,
            },
            Request::ClosingParen { source, open } => RequestV::ClosingParen {
                source: source@,
                open,
            },
            Request::EndOfNextScope { source } => RequestV::EndOfNextScope { source: source@ },
            Request::FirstStatement { source } => RequestV::FirstStatement { source: source@ },
            Request::ContainsSelf { text } => RequestV::ContainsSelf { text: text@ },
            Request::ParseStatement { source } => RequestV::ParseStatement { source: source@ },
        }
    }
}

impl Request {
    /// Whether two requests ask the same question.
    pub fn same(&self, other: &Request) -> (r: bool)
        ensures
            r == (self.deep_view() == other.deep_view()),
    {
        match (self, other) {
            (
                Request::Resolve { path: p1, file: f1, position: n1, namespace: s1 },
                Request::Resolve { path: p2, file: f2, position: n2, namespace: s2 },
            ) => *f1 == *f2 && *n1 == *n2 && *s1 == *s2 && p1.same(p2),
            (
                Request::ImplMethods {
                    of_type: t1,
                    method_name: m1,
                    position: n1,
                    file: f1,
                    is_local: l1,
                },
                Request::ImplMethods {
                    of_type: t2,
                    method_name: m2,
                    position: n2,
                    file: f2,
                    is_local: l2,
                },
            ) => *f1 == *f2 && *n1 == *n2 && *l1 == *l2 && *t1 == *t2 && *m1 == *m2,
            (Request::LoadFile { file: f1 }, Request::LoadFile { file: f2 }) => *f1 == *f2,
            (Request::LoadMaskedFile { file: f1 }, Request::LoadMaskedFile { file: f2 }) => {
                *f1 == *f2
            },
            (
                Request::StatementStart { source: a, position: n1 },
                Request::StatementStart { source: b, position: n2 },
            ) => *n1 == *n2 && same_bytes(a.as_slice(), b.as_slice()),
            (
                Request::ImplBlockStart { source: a, position: n1 },
                Request::ImplBlockStart { source: b, position: n2 },
            ) => *n1 == *n2 && same_bytes(a.as_slice(), b.as_slice()),
            (
                Request::ClosingParen { source: a, open: n1 },
                Request::ClosingParen { source: b, open: n2 },
            ) => *n1 == *n2 && same_bytes(a.as_slice(), b.as_slice()),
            (Request::EndOfNextScope { source: a }, Request::EndOfNextScope { source: b }) => {
                same_bytes(a.as_slice(), b.as_slice())
            },
            (Request::FirstStatement { source: a }, Request::FirstStatement { source: b }) => {
                same_bytes(a.as_slice(), b.as_slice())
            },
            (Request::ContainsSelf { text: a }, Request::ContainsSelf { text: b }) => same_bytes(
                a.as_slice(),
                b.as_slice(),
            ),
            (Request::ParseStatement { source: a }, Request::ParseStatement { source: b }) => {
                same_bytes(a.as_slice(), b.as_slice())
            },
            _ => false,
        }
    }
}

/// What the host answers.
#[derive(Debug, PartialEq, Eq)]
pub enum Answer {
    /// To `Resolve` and `ImplMethods`: the matches, best first.
    Matches(Vec<Match>),
    /// To `LoadFile` and `LoadMaskedFile`.
    Text(Vec<u8>),
    /// To `StatementStart`, `ImplBlockStart`, `ClosingParen` and
    /// `EndOfNextScope`: a position, if there is one.
    Offset(Option<usize>),
    /// To `FirstStatement`: where it begins and ends, if there is one.
    Range(Option<(usize, usize)>),
    /// To `ContainsSelf`.
    Flag(bool),
    /// To `ParseStatement`.
    Statement(Result<Stmt, ParseFailure>),
}

/// What the entries of a table say: each question with the first answer
/// recorded for it.
pub open spec fn table(entries: Seq<(Request, Answer)>) -> Map<RequestV, Answer>
    decreases entries.len(),
{
    if entries.len() == 0 {
        Map::empty()
    } else {
        let (request, answer) = entries.last();
        let rest = table(entries.drop_last());
        if rest.contains_key(request.deep_view()) {
            rest
        } else {
            rest.insert(request.deep_view(), answer)
        }
    }
}

/// A question that one of the first `n` entries asks has its answer in the
/// table: that of the first entry that asks it.
pub proof fn lemma_table_first(entries: Seq<(Request, Answer)>, i: int, key: RequestV)
    requires
        0 <= i < entries.len(),
        entries[i].0.deep_view() == key,
        forall|j: int| 0 <= j < i ==> entries[j].0.deep_view() != key,
    ensures
        table(entries).contains_key(key),
        table(entries)[key] == entries[i].1,
    decreases entries.len(),
{
    if i == entries.len() - 1 {
        lemma_table_absent(entries.drop_last(), key);
    } else {
        lemma_table_first(entries.drop_last(), i, key);
    }
}

/// A question that no entry asks is not in the table.
pub proof fn lemma_table_absent(entries: Seq<(Request, Answer)>, key: RequestV)
    requires
        forall|j: int| 0 <= j < entries.len() ==> entries[j].0.deep_view() != key,
    ensures
        !table(entries).contains_key(key),
    decreases entries.len(),
{
    if entries.len() > 0 {
        lemma_table_absent(entries.drop_last(), key);
    }
}

/// Whether the table `more` holds every answer of the table `k`.
pub open spec fn extends(more: Map<RequestV, Answer>, k: Map<RequestV, Answer>) -> bool {
    forall|q: RequestV| #[trigger] k.contains_key(q) ==> more.contains_key(q) && more[q] == k[q]
}

/// What the host has told so far.
#[derive(Debug, PartialEq, Eq)]
pub struct Known {
    pub entries: Vec<(Request, Answer)>,
}

impl View for Known {
    type V = Map<RequestV, Answer>;

    open spec fn view(&self) -> Map<RequestV, Answer> {
        table(self.entries@)
    }
}

/// What a look into the table gives.
pub enum Looked<'a> {
    /// The recorded answer.
    Answered(&'a Answer),
    /// Nothing is recorded for the question, which is handed back.
    Unknown(Request),
}

impl Known {
    /// A table that holds nothing.
    pub fn new() -> (r: Known)
        ensures
            r@ == Map::<RequestV, Answer>::empty(),
    {
        Known { entries: Vec::new() }
    }

    /// Records the answer to a question.  The first answer to a question
    /// stands: a later one changes nothing.
    pub fn record(&mut self, request: Request, answer: Answer)
        ensures
            final(self)@ == if old(self)@.contains_key(request.deep_view()) {
                old(self)@
            } else {
                old(self)@.insert(request.deep_view(), answer)
            },
            extends(final(self)@, old(self)@),
    {
        let ghost before = self.entries@;
        self.entries.push((request, answer));
        assert(self.entries@.drop_last() =~= before);
    }

    /// The answer recorded for a question.
    pub fn lookup(&self, request: Request) -> (r: Looked<'_>)
        ensures
            match r {
                Looked::Answered(a) => self@.contains_key(request.deep_view()) && self@[request.deep_view()]
                    == *a,
                Looked::Unknown(q) => !self@.contains_key(request.deep_view()) && q == request,
            },
    {
        let mut i: usize = 0;
        while i < self.entries.len()
            invariant
                i <= self.entries.len(),
                forall|j: int| 0 <= j < i ==> self.entries@[j].0.deep_view() != request.deep_view(),
            decreases self.entries.len() - i,
        {
            if self.entries[i].0.same(&request) {
                proof {
                    lemma_table_first(self.entries@, i as int, request.deep_view());
                }
                return Looked::Answered(&self.entries[i].1);
            }
            i += 1;
        }
        proof {
            lemma_table_absent(self.entries@, request.deep_view());
        }
        Looked::Unknown(request)
    }
}

/// A position or a shape that the caller had no right to ask about.
#[derive(Clone, Copy, Debug, PartialEq, Eq, Structural)]
pub enum ContractViolation {
    /// The position does not lie in the binding it was said to lie in.
    PointOutsideBinding,
    /// A tuple pattern stands against a type that is no tuple.
    NotATuple,
    /// A tuple pattern stands against a tuple type of another length.
    ArityMismatch,
}

/// How an inference ended.
#[derive(Debug, PartialEq, Eq)]
pub enum Step<T> {
    /// With a result.
    Found(T),
    /// With the finding that there is no result.
    Nothing,
    /// At a question that the table has no answer to.
    Ask(Request),
    /// At a violation of the caller's contract.
    Violation(ContractViolation),
}

/// The value of a [`Step`].
pub enum StepV<T> {
    Found(T),
    Nothing,
    Ask(RequestV),
    Violation(ContractViolation),
}

impl<T: DeepView> DeepView for Step<T> {
    type V = StepV<T::V>;

    open spec fn deep_view(&self) -> StepV<T::V> {
        match *self {
            Step::Found(t) => StepV::Found(t.deep_view()),
            Step::Nothing => StepV::Nothing,
            Step::Ask(r) => StepV::Ask(r.deep_view()),
            Step::Violation(c) => StepV::Violation(c),
        }
    }
}

impl<T> StepV<T> {
    /// The same ending for a result of another type.  Of a `Found` nothing
    /// is left.
    pub open spec fn pass<U>(self) -> StepV<U> {
        match self {
            StepV::Found(_) => StepV::Nothing,
            StepV::Nothing => StepV::Nothing,
            StepV::Ask(r) => StepV::Ask(r),
            StepV::Violation(c) => StepV::Violation(c),
        }
    }
}

impl<T: DeepView> Step<T> {
    /// The same ending for a result of another type.  Of a `Found` nothing
    /// is left.
    pub fn pass<U: DeepView>(self) -> (r: Step<U>)
        ensures
            r.deep_view() == self.deep_view().pass::<U::V>(),
    {
        match self {
            Step::Found(_) => Step::Nothing,
            Step::Nothing => Step::Nothing,
            Step::Ask(r) => Step::Ask(r),
            Step::Violation(c) => Step::Violation(c),
        }
    }
}

/// The best match that the table holds for a question.
pub open spec fn first_match(k: Map<RequestV, Answer>, q: RequestV) -> StepV<MatchV> {
    if !k.contains_key(q) {
        StepV::Ask(q)
    } else {
        match k[q] {
            Answer::Matches(ms) if ms@.len() > 0 => StepV::Found(ms@[0].deep_view()),
            _ => StepV::Nothing,
        }
    }
}

/// The text that the table holds for a question.
pub open spec fn text_of(k: Map<RequestV, Answer>, q: RequestV) -> StepV<Seq<u8>> {
    if !k.contains_key(q) {
        StepV::Ask(q)
    } else {
        match k[q] {
            Answer::Text(t) => StepV::Found(t@),
            _ => StepV::Nothing,
        }
    }
}

/// The position that the table holds for a question.
pub open spec fn offset_of(k: Map<RequestV, Answer>, q: RequestV) -> StepV<usize> {
    if !k.contains_key(q) {
        StepV::Ask(q)
    } else {
        match k[q] {
            Answer::Offset(Some(n)) => StepV::Found(n),
            _ => StepV::Nothing,
        }
    }
}

/// The range that the table holds for a question.
pub open spec fn range_of(k: Map<RequestV, Answer>, q: RequestV) -> StepV<(usize, usize)> {
    if !k.contains_key(q) {
        StepV::Ask(q)
    } else {
        match k[q] {
            Answer::Range(Some(r)) => StepV::Found(r),
            _ => StepV::Nothing,
        }
    }
}

/// The flag that the table holds for a question.
pub open spec fn flag_of(k: Map<RequestV, Answer>, q: RequestV) -> StepV<bool> {
    if !k.contains_key(q) {
        StepV::Ask(q)
    } else {
        match k[q] {
            Answer::Flag(b) => StepV::Found(b),
            _ => StepV::Nothing,
        }
    }
}

/// The parsed statement that the table holds for a question.
pub open spec fn statement_of(k: Map<RequestV, Answer>, q: RequestV) -> StepV<
    Result<Stmt, ParseFailure>,
> {
    if !k.contains_key(q) {
        StepV::Ask(q)
    } else {
        match k[q] {
            Answer::Statement(parsed) => StepV::Found(parsed),
            _ => StepV::Nothing,
        }
    }
}

impl Known {
    /// The best match recorded for a question.
    pub fn ask_match(&self, q: Request) -> (r: Step<Match>)
        ensures
            r.deep_view() == first_match(self@, q.deep_view()),
    {
        match self.lookup(q) {
            Looked::Unknown(q) => Step::Ask(q),
            Looked::Answered(Answer::Matches(ms)) => {
                if ms.len() > 0 {
                    Step::Found(ms[0].duplicate())
                } else {
                    Step::Nothing
                }
            },
            Looked::Answered(_) => Step::Nothing,
        }
    }

    /// The text recorded for a question.
    pub fn ask_text(&self, q: Request) -> (r: Step<&Vec<u8>>)
        ensures
            r.deep_view() == text_of(self@, q.deep_view()),
            r matches Step::Found(t) ==> text_of(self@, q.deep_view()) == StepV::Found(t@),
    {
        match self.lookup(q) {
            Looked::Unknown(q) => Step::Ask(q),
            Looked::Answered(Answer::Text(t)) => {
                assert(t.deep_view() =~= t@);
                Step::Found(t)
            },
            Looked::Answered(_) => Step::Nothing,
        }
    }

    /// The position recorded for a question.
    pub fn ask_offset(&self, q: Request) -> (r: Step<usize>)
        ensures
            r.deep_view() == offset_of(self@, q.deep_view()),
    {
        match self.lookup(q) {
            Looked::Unknown(q) => Step::Ask(q),
            Looked::Answered(Answer::Offset(Some(n))) => Step::Found(*n),
            Looked::Answered(_) => Step::Nothing,
        }
    }

    /// The range recorded for a question.
    pub fn ask_range(&self, q: Request) -> (r: Step<(usize, usize)>)
        ensures
            r.deep_view() == range_of(self@, q.deep_view()),
    {
        match self.lookup(q) {
            Looked::Unknown(q) => Step::Ask(q),
            Looked::Answered(Answer::Range(Some(r))) => Step::Found(*r),
            Looked::Answered(_) => Step::Nothing,
        }
    }

    /// The flag recorded for a question.
    pub fn ask_flag(&self, q: Request) -> (r: Step<bool>)
        ensures
            r.deep_view() == flag_of(self@, q.deep_view()),
    {
        match self.lookup(q) {
            Looked::Unknown(q) => Step::Ask(q),
            Looked::Answered(Answer::Flag(b)) => Step::Found(*b),
            Looked::Answered(_) => Step::Nothing,
        }
    }

    /// The parsed statement recorded for a question, or else the ending
    /// that its absence makes.
    pub fn ask_statement(&self, q: Request) -> (r: Result<&Result<Stmt, ParseFailure>, Step<()>>)
        ensures
            match r {
                Ok(parsed) => statement_of(self@, q.deep_view()) == StepV::Found(*parsed),
                Err(e) => !(e is Found) && !(statement_of(self@, q.deep_view()) is Found)
                    && e.deep_view() == statement_of(self@, q.deep_view()).pass::<()>(),
            },
    {
        match self.lookup(q) {
            Looked::Unknown(q) => Err(Step::Ask(q)),
            Looked::Answered(Answer::Statement(parsed)) => Ok(parsed),
            Looked::Answered(_) => Err(Step::Nothing),
        }
    }
}

} // verus!
