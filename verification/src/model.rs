//! The shared vocabulary: paths, scopes, matches and inferred types, each
//! with the mathematical value that contracts speak of.

use vstd::prelude::*;

verus! {

/// Identifies one source file of the program under inspection.
#[derive(Clone, Copy, Debug, PartialEq, Eq, Structural)]
pub struct FileId(pub u64);

/// An anchor for resolution: a byte position in a file.
#[derive(Clone, Copy, Debug, PartialEq, Eq, Structural)]
pub struct Scope {
    pub file: FileId,
    pub position: usize,
}

/// One segment of a path: a name and the paths given as its type arguments.
#[derive(Debug, PartialEq, Eq)]
pub struct PathSegment {
    pub name: String,
    pub types: Vec<Path>,
}

/// A possibly root-anchored sequence of segments, before resolution.
#[derive(Debug, PartialEq, Eq)]
pub struct Path {
    pub global: bool,
    pub segments: Vec<PathSegment>,
}

/// The value of a [`PathSegment`].
pub struct PathSegmentV {
    pub name: Seq<char>,
    pub types: Seq<PathV>,
}

/// The value of a [`Path`].
pub struct PathV {
    pub global: bool,
    pub segments: Seq<PathSegmentV>,
}

pub open spec fn segment_value(s: PathSegment) -> PathSegmentV
    decreases s,
{
    PathSegmentV {
        name: s.name@,
        types: Seq::new(
            s.types@.len(),
            |i: int|
                if 0 <= i < s.types@.len() {
                    path_value(s.types@[i])
                } else {
                    arbitrary()
                },
        ),
    }
}

pub open spec fn path_value(p: Path) -> PathV
    decreases p,
{
    PathV {
        global: p.global,
        segments: Seq::new(
            p.segments@.len(),
            |i: int|
                if 0 <= i < p.segments@.len() {
                    segment_value(p.segments@[i])
                } else {
                    arbitrary()
                },
        ),
    }
}

impl DeepView for PathSegment {
    type V = PathSegmentV;

    open spec fn deep_view(&self) -> PathSegmentV {
        segment_value(*self)
    }
}

impl DeepView for Path {
    type V = PathV;

    open spec fn deep_view(&self) -> PathV {
        path_value(*self)
    }
}

impl PathV {
    /// The type arguments written on the last segment; none for an empty path.
    pub open spec fn generic_types(self) -> Seq<PathV> {
        if self.segments.len() == 0 {
            Seq::empty()
        } else {
            self.segments.last().types
        }
    }
}

impl PathSegment {
    /// A copy with the same value.
    pub fn duplicate(&self) -> (r: PathSegment)
        ensures
            r.deep_view() == self.deep_view(),
        decreases self,
    {
        let mut types: Vec<Path> = Vec::new();
        let mut i: usize = 0;
        while i < self.types.len()
            invariant
                i <= self.types.len(),
                types.len() == i,
                forall|j: int| 0 <= j < i ==> path_value(types@[j]) == path_value(self.types@[j]),
            decreases self.types.len() - i,
        {
            let t = self.types[i].duplicate();
            types.push(t);
            i += 1;
        }
        let r = PathSegment { name: self.name.clone(), types };
        assert(r.deep_view().types =~= self.deep_view().types);
        r
    }

    /// Whether two segments have the same value.
    pub fn same(&self, other: &PathSegment) -> (r: bool)
        ensures
            r == (self.deep_view() == other.deep_view()),
        decreases self,
    {
        if self.name != other.name || self.types.len() != other.types.len() {
            assert(self.deep_view().types.len() == self.types.len());
            assert(other.deep_view().types.len() == other.types.len());
            return false;
        }
        let mut i: usize = 0;
        while i < self.types.len()
            invariant
                i <= self.types.len(),
                self.types.len() == other.types.len(),
                forall|j: int| 0 <= j < i ==> path_value(self.types@[j]) == path_value(other.types@[j]),
            decreases self.types.len() - i,
        {
            if !self.types[i].same(&other.types[i]) {
                assert(self.deep_view().types[i as int] != other.deep_view().types[i as int]);
                return false;
            }
            i += 1;
        }
        assert(self.deep_view().types =~= other.deep_view().types);
        true
    }
}

impl Path {
    /// A copy with the same value.
    pub fn duplicate(&self) -> (r: Path)
        ensures
            r.deep_view() == self.deep_view(),
        decreases self,
    {
        let mut segments: Vec<PathSegment> = Vec::new();
        let mut i: usize = 0;
        while i < self.segments.len()
            invariant
                i <= self.segments.len(),
                segments.len() == i,
                forall|j: int|
                    0 <= j < i ==> segment_value(segments@[j]) == segment_value(self.segments@[j]),
            decreases self.segments.len() - i,
        {
            let s = self.segments[i].duplicate();
            segments.push(s);
            i += 1;
        }
        let r = Path { global: self.global, segments };
        assert(r.deep_view().segments =~= self.deep_view().segments);
        r
    }

    /// Whether two paths have the same value.
    pub fn same(&self, other: &Path) -> (r: bool)
        ensures
            r == (self.deep_view() == other.deep_view()),
        decreases self,
    {
        if self.global != other.global || self.segments.len() != other.segments.len() {
            assert(self.deep_view().segments.len() == self.segments.len());
            assert(other.deep_view().segments.len() == other.segments.len());
            return false;
        }
        let mut i: usize = 0;
        while i < self.segments.len()
            invariant
                i <= self.segments.len(),
                self.segments.len() == other.segments.len(),
                forall|j: int|
                    0 <= j < i ==> segment_value(self.segments@[j]) == segment_value(
                        other.segments@[j],
                    ),
            decreases self.segments.len() - i,
        {
            if !self.segments[i].same(&other.segments[i]) {
                assert(self.deep_view().segments[i as int] != other.deep_view().segments[i as int]);
                return false;
            }
            i += 1;
        }
        assert(self.deep_view().segments =~= other.deep_view().segments);
        true
    }
}

/// A path together with the place it must be resolved from.
#[derive(Debug, PartialEq, Eq)]
pub struct PathSearch {
    pub path: Path,
    pub file: FileId,
    pub position: usize,
}

/// The value of a [`PathSearch`].
pub struct PathSearchV {
    pub path: PathV,
    pub file: FileId,
    pub position: usize,
}

impl DeepView for PathSearch {
    type V = PathSearchV;

    open spec fn deep_view(&self) -> PathSearchV {
        PathSearchV { path: path_value(self.path), file: self.file, position: self.position }
    }
}

impl PathSearch {
    /// A copy with the same value.
    pub fn duplicate(&self) -> (r: PathSearch)
        ensures
            r.deep_view() == self.deep_view(),
    {
        PathSearch { path: self.path.duplicate(), file: self.file, position: self.position }
    }
}

/// What sort of declaration a match stands for.
#[derive(Clone, Copy, Debug, PartialEq, Eq, Structural)]
pub enum MatchKind {
    Struct,
    Enum,
    EnumVariant,
    Function,
    Trait,
    Module,
    Let,
    IfLet,
    FunctionArgument,
    TypeAlias,
    StructField,
    MatchArm,
    Impl,
    Crate,
}

/// A located, resolved symbol.
///
/// `generic_arg_names` and `generic_arg_types` pair the declared generic
/// parameters with the searches supplied where the symbol is used, position
/// by position.  A match that was never instantiated carries names only.
#[derive(Debug, PartialEq, Eq)]
pub struct Match {
    pub name: String,
    pub file: FileId,
    pub position: usize,
    pub is_local: bool,
    pub kind: MatchKind,
    /// The line of source that declares the symbol, as bytes.
    pub context_line: Vec<u8>,
    pub generic_arg_names: Vec<String>,
    pub generic_arg_types: Vec<PathSearch>,
}

/// The value of a [`Match`].
pub struct MatchV {
    pub name: Seq<char>,
    pub file: FileId,
    pub position: usize,
    pub is_local: bool,
    pub kind: MatchKind,
    pub context_line: Seq<u8>,
    pub generic_arg_names: Seq<Seq<char>>,
    pub generic_arg_types: Seq<PathSearchV>,
}

impl DeepView for Match {
    type V = MatchV;

    open spec fn deep_view(&self) -> MatchV {
        MatchV {
            name: self.name@,
            file: self.file,
            position: self.position,
            is_local: self.is_local,
            kind: self.kind,
            context_line: self.context_line@,
            generic_arg_names: self.generic_arg_names.deep_view(),
            generic_arg_types: self.generic_arg_types.deep_view(),
        }
    }
}

impl MatchV {
    /// Every declared generic parameter has its search, and no search is
    /// without a parameter.
    pub open spec fn paired(self) -> bool {
        self.generic_arg_names.len() == self.generic_arg_types.len()
    }

    /// The place the match was found at.
    pub open spec fn scope(self) -> Scope {
        Scope { file: self.file, position: self.position }
    }

    /// The match instantiated with `types`: parameters and searches are paired
    /// position by position and what has no partner is dropped.
    pub open spec fn with_generic_types(self, types: Seq<PathSearchV>) -> MatchV {
        let n = if types.len() < self.generic_arg_names.len() {
            types.len()
        } else {
            self.generic_arg_names.len()
        };
        MatchV {
            generic_arg_names: self.generic_arg_names.take(n as int),
            generic_arg_types: types.take(n as int),
            ..self
        }
    }

    /// The first index at which `name` is a generic parameter that has a
    /// search paired with it.
    pub open spec fn generic_index(self, name: Seq<char>) -> Option<int> {
        first_paired(self.generic_arg_names, self.generic_arg_types.len(), name, 0)
    }
}

/// The first index `i >= from` below both lengths with `names[i] == name`.
pub open spec fn first_paired(names: Seq<Seq<char>>, limit: nat, name: Seq<char>, from: int) -> Option<int>
    decreases names.len() - from,
{
    if from < 0 || from >= names.len() || from >= limit {
        None
    } else if names[from] == name {
        Some(from)
    } else {
        first_paired(names, limit, name, from + 1)
    }
}

/// A copy of a list of names.
pub fn duplicate_names(names: &Vec<String>) -> (r: Vec<String>)
    ensures
        r.deep_view() == names.deep_view(),
{
    let mut out: Vec<String> = Vec::new();
    let mut i: usize = 0;
    while i < names.len()
        invariant
            i <= names.len(),
            out.len() == i,
            forall|j: int| 0 <= j < i ==> out@[j]@ == names@[j]@,
        decreases names.len() - i,
    {
        out.push(names[i].clone());
        i += 1;
    }
    assert(out.deep_view() =~= names.deep_view());
    out
}

/// A copy of a list of searches.
pub fn duplicate_searches(searches: &Vec<PathSearch>) -> (r: Vec<PathSearch>)
    ensures
        r.deep_view() == searches.deep_view(),
{
    let mut out: Vec<PathSearch> = Vec::new();
    let mut i: usize = 0;
    while i < searches.len()
        invariant
            i <= searches.len(),
            out.len() == i,
            forall|j: int| 0 <= j < i ==> out@[j].deep_view() == searches@[j].deep_view(),
        decreases searches.len() - i,
    {
        out.push(searches[i].duplicate());
        i += 1;
    }
    assert(out.deep_view() =~= searches.deep_view());
    out
}

impl Match {
    /// A copy with the same value.
    pub fn duplicate(&self) -> (r: Match)
        ensures
            r.deep_view() == self.deep_view(),
    {
        Match {
            name: self.name.clone(),
            file: self.file,
            position: self.position,
            is_local: self.is_local,
            kind: self.kind,
            context_line: crate::text::copy_bytes(&self.context_line),
            generic_arg_names: duplicate_names(&self.generic_arg_names),
            generic_arg_types: duplicate_searches(&self.generic_arg_types),
        }
    }

    /// The match instantiated with the searches supplied at a use site.
    pub fn with_generic_types(&self, types: Vec<PathSearch>) -> (r: Match)
        ensures
            r.deep_view() == self.deep_view().with_generic_types(types.deep_view()),
            r.deep_view().paired(),
    {
        let n: usize = if types.len() < self.generic_arg_names.len() {
            types.len()
        } else {
            self.generic_arg_names.len()
        };
        let mut names: Vec<String> = Vec::new();
        let mut kept: Vec<PathSearch> = Vec::new();
        let mut i: usize = 0;
        while i < n
            invariant
                i <= n,
                n <= types.len(),
                n <= self.generic_arg_names.len(),
                names.len() == i,
                kept.len() == i,
                forall|j: int| 0 <= j < i ==> names@[j]@ == self.generic_arg_names@[j]@,
                forall|j: int| 0 <= j < i ==> kept@[j].deep_view() == types@[j].deep_view(),
            decreases n - i,
        {
            names.push(self.generic_arg_names[i].clone());
            kept.push(types[i].duplicate());
            i += 1;
        }
        let r = Match {
            name: self.name.clone(),
            file: self.file,
            position: self.position,
            is_local: self.is_local,
            kind: self.kind,
            context_line: crate::text::copy_bytes(&self.context_line),
            generic_arg_names: names,
            generic_arg_types: kept,
        };
        proof {
            let want = self.deep_view().with_generic_types(types.deep_view());
            assert(r.deep_view().generic_arg_names =~= want.generic_arg_names);
            assert(r.deep_view().generic_arg_types =~= want.generic_arg_types);
        }
        r
    }
}

impl Scope {
    /// The place a match was found at.
    pub fn from_match(m: &Match) -> (r: Scope)
        ensures
            r == m.deep_view().scope(),
    {
        Scope { file: m.file, position: m.position }
    }
}

/// An inferred type.
#[derive(Debug, PartialEq, Eq)]
pub enum Ty {
    /// A concrete, located declaration.
    Resolved(Match),
    /// A path not yet resolved, with the place to resolve it from.
    Deferred(Path, Scope),
    /// A positional aggregate.
    Tuple(Vec<Ty>),
    /// Known to have no further structure, such as a literal.
    Unsupported,
}

/// The value of a [`Ty`].
pub enum TyV {
    Resolved(MatchV),
    Deferred(PathV, Scope),
    Tuple(Seq<TyV>),
    Unsupported,
}

pub open spec fn ty_value(t: Ty) -> TyV
    decreases t,
{
    match t {
        Ty::Resolved(m) => TyV::Resolved(m.deep_view()),
        Ty::Deferred(p, s) => TyV::Deferred(path_value(p), s),
        Ty::Tuple(elems) => TyV::Tuple(
            Seq::new(
                elems@.len(),
                |i: int|
                    if 0 <= i < elems@.len() {
                        ty_value(elems@[i])
                    } else {
                        arbitrary()
                    },
            ),
        ),
        Ty::Unsupported => TyV::Unsupported,
    }
}

impl DeepView for Ty {
    type V = TyV;

    open spec fn deep_view(&self) -> TyV {
        ty_value(*self)
    }
}

impl Ty {
    /// A copy with the same value.
    pub fn duplicate(&self) -> (r: Ty)
        ensures
            r.deep_view() == self.deep_view(),
        decreases self,
    {
        match self {
            Ty::Resolved(m) => Ty::Resolved(m.duplicate()),
            Ty::Deferred(p, s) => Ty::Deferred(p.duplicate(), *s),
            Ty::Tuple(elems) => {
                let mut out: Vec<Ty> = Vec::new();
                let mut i: usize = 0;
                while i < elems.len()
                    invariant
                        self is Tuple,
                        *elems == self->Tuple_0,
                        i <= elems.len(),
                        out.len() == i,
                        forall|j: int| 0 <= j < i ==> ty_value(out@[j]) == ty_value(elems@[j]),
                    decreases elems.len() - i,
                {
                    let t = elems[i].duplicate();
                    out.push(t);
                    i += 1;
                }
                let r = Ty::Tuple(out);
                assert(r.deep_view()->Tuple_0 =~= self.deep_view()->Tuple_0);
                r
            },
            Ty::Unsupported => Ty::Unsupported,
        }
    }
}

} // verus!
