//! What a file imports: the paths that its `use` and `extern crate` items
//! name, the last bound name, and whether anything is imported by glob.

use vstd::prelude::*;
use crate::convert::{path_of, to_racer_path};
use crate::model::{Path, PathSegment, PathSegmentV, PathV};
use crate::tree::{Crate, ParseFailure, PathListItem, ViewItem, ViewPath};

verus! {

/// What is collected of the imports of a file.
#[derive(Debug, PartialEq, Eq)]
pub struct ViewItemVisitor {
    pub ident: Option<String>,
    pub paths: Vec<Path>,
    pub is_glob: bool,
}

/// The value of a [`ViewItemVisitor`].
pub struct ViewItemVisitorV {
    pub ident: Option<Seq<char>>,
    pub paths: Seq<PathV>,
    pub is_glob: bool,
}

impl DeepView for ViewItemVisitor {
    type V = ViewItemVisitorV;

    open spec fn deep_view(&self) -> ViewItemVisitorV {
        ViewItemVisitorV {
            ident: self.ident.deep_view(),
            paths: self.paths.deep_view(),
            is_glob: self.is_glob,
        }
    }
}

/// `base` with one more segment `name` that has no type arguments.
pub open spec fn extended(base: PathV, name: Seq<char>) -> PathV {
    PathV {
        global: base.global,
        segments: base.segments.push(PathSegmentV { name, types: Seq::empty() }),
    }
}

/// One path for each name among the first `n` entries of an import list;
/// the module itself, however the tree holds its `self`, gives none.
pub open spec fn list_paths(base: PathV, items: Seq<PathListItem>, n: nat) -> Seq<PathV>
    decreases n,
{
    if n == 0 || n > items.len() {
        Seq::empty()
    } else {
        let rest = list_paths(base, items, (n - 1) as nat);
        match items[n - 1] {
            PathListItem::Ident(name) => if name@ == "self"@ {
                rest
            } else {
                rest.push(extended(base, name@))
            },
            PathListItem::Mod => rest,
        }
    }
}

/// The root-anchored path of one segment `name`.
pub open spec fn crate_path(name: Seq<char>) -> PathV {
    PathV { global: true, segments: seq![PathSegmentV { name, types: Seq::empty() }] }
}

/// The state after one import was visited.
///
/// A simple import adds its path and binds its alias.  A list import adds
/// one path for each listed name.  A glob import adds its base path and sets
/// the glob flag.  An `extern crate` binds its name and, where the crate's
/// own name is given, adds that as a root-anchored path.
pub open spec fn visit_view_item_value(v: ViewItemVisitorV, i: ViewItem) -> ViewItemVisitorV {
    match i {
        ViewItem::Use(ViewPath::Simple { alias, path }) => ViewItemVisitorV {
            ident: Some(alias@),
            paths: v.paths.push(path_of(path)),
            is_glob: v.is_glob,
        },
        ViewItem::Use(ViewPath::List { base, items }) => ViewItemVisitorV {
            paths: v.paths + list_paths(path_of(base), items@, items@.len()),
            ..v
        },
        ViewItem::Use(ViewPath::Glob { base }) => ViewItemVisitorV {
            ident: v.ident,
            paths: v.paths.push(path_of(base)),
            is_glob: true,
        },
        ViewItem::ExternCrate { name, source } => ViewItemVisitorV {
            ident: Some(name@),
            paths: match source {
                Some(s) => v.paths.push(crate_path(s@)),
                None => v.paths,
            },
            is_glob: v.is_glob,
        },
    }
}

/// The state after the first `n` imports were visited in order.
pub open spec fn visit_view_items_value(v: ViewItemVisitorV, items: Seq<ViewItem>, n: nat) -> ViewItemVisitorV
    decreases n,
{
    if n == 0 || n > items.len() {
        v
    } else {
        visit_view_item_value(visit_view_items_value(v, items, (n - 1) as nat), items[n - 1])
    }
}

/// The record that nothing was collected into.
pub open spec fn empty_view_value() -> ViewItemVisitorV {
    ViewItemVisitorV { ident: None, paths: Seq::empty(), is_glob: false }
}

/// What the imports of a parsed file give; nothing where parsing failed.
pub open spec fn view_facts(parsed: Result<Crate, ParseFailure>) -> ViewItemVisitorV {
    match parsed {
        Ok(c) => visit_view_items_value(empty_view_value(), c.view_items@, c.view_items@.len()),
        Err(_) => empty_view_value(),
    }
}

fn extend_path(base: &Path, name: &String) -> (r: Path)
    ensures
        r.deep_view() == extended(base.deep_view(), name@),
{
    let mut newpath = base.duplicate();
    let seg = PathSegment { name: name.clone(), types: Vec::new() };
    assert(seg.deep_view().types =~= Seq::<PathV>::empty());
    let ghost before = newpath.deep_view();
    newpath.segments.push(seg);
    assert(newpath.deep_view().segments =~= before.segments.push(seg.deep_view()));
    newpath
}

impl ViewItemVisitor {
    /// Visits one import; see [`visit_view_item_value`].
    pub fn visit_view_item(&mut self, i: &ViewItem)
        ensures
            final(self).deep_view() == visit_view_item_value(old(self).deep_view(), *i),
    {
        let ghost start = self.deep_view();
        match i {
            ViewItem::Use(ViewPath::Simple { alias, path }) => {
                let p = to_racer_path(path);
                self.paths.push(p);
                assert(self.paths.deep_view() =~= start.paths.push(path_of(*path)));
                self.ident = Some(alias.clone());
            },
            ViewItem::Use(ViewPath::List { base, items }) => {
                let basepath = to_racer_path(base);
                let module = String::from_str("self");
                let mut k: usize = 0;
                assert(self.paths.deep_view() =~= start.paths + list_paths(
                    path_of(*base),
                    items@,
                    0,
                ));
                while k < items.len()
                    invariant
                        k <= items.len(),
                        module@ == "self"@,
                        basepath.deep_view() == path_of(*base),
                        self.ident.deep_view() == start.ident,
                        self.is_glob == start.is_glob,
                        self.paths.deep_view() == start.paths + list_paths(
                            path_of(*base),
                            items@,
                            k as nat,
                        ),
                    decreases items.len() - k,
                {
                    match &items[k] {
                        PathListItem::Ident(name) => if *name != module {
                            let newpath = extend_path(&basepath, name);
                            let ghost before = self.paths.deep_view();
                            self.paths.push(newpath);
                            assert(self.paths.deep_view() =~= before.push(
                                extended(path_of(*base), name@),
                            ));
                            assert(self.paths.deep_view() =~= start.paths + list_paths(
                                path_of(*base),
                                items@,
                                (k + 1) as nat,
                            ));
                        },
                        PathListItem::Mod => {},
                    }
                    k += 1;
                }
            },
            ViewItem::Use(ViewPath::Glob { base }) => {
                let basepath = to_racer_path(base);
                self.paths.push(basepath);
                assert(self.paths.deep_view() =~= start.paths.push(path_of(*base)));
                self.is_glob = true;
            },
            ViewItem::ExternCrate { name, source } => {
                self.ident = Some(name.clone());
                match source {
                    Some(s) => {
                        let pathseg = PathSegment { name: s.clone(), types: Vec::new() };
                        assert(pathseg.deep_view().types =~= Seq::<PathV>::empty());
                        let mut segments: Vec<PathSegment> = Vec::new();
                        segments.push(pathseg);
                        let path = Path { global: true, segments };
                        assert(path.deep_view().segments =~= crate_path(s@).segments);
                        self.paths.push(path);
                        assert(self.paths.deep_view() =~= start.paths.push(crate_path(s@)));
                    },
                    None => {},
                }
            },
        }
    }
}

/// The imports of a parsed file; see [`view_facts`].
pub fn parse_view_item(parsed: &Result<Crate, ParseFailure>) -> (r: ViewItemVisitor)
    ensures
        r.deep_view() == view_facts(*parsed),
{
    let mut v = ViewItemVisitor { ident: None, paths: Vec::new(), is_glob: false };
    assert(v.deep_view().paths =~= empty_view_value().paths);
    match parsed {
        Ok(cr) => {
            let mut i: usize = 0;
            while i < cr.view_items.len()
                invariant
                    i <= cr.view_items.len(),
                    v.deep_view() == visit_view_items_value(
                        empty_view_value(),
                        cr.view_items@,
                        i as nat,
                    ),
                decreases cr.view_items.len() - i,
            {
                v.visit_view_item(&cr.view_items[i]);
                i += 1;
            }
        },
        Err(_) => {},
    }
    v
}

} // verus!
