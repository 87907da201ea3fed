//! Which files a source file asks for.

use crate::ast::{attr_string_value, attr_value, CompilationUnit, TopLevelDecl, TopLevelDeclV};
use crate::list::{empty_list, push_item};
use crate::lowering::rules::module_name;
use crate::text::cat2;
use vstd::prelude::*;
use vstd::string::*;

verus! {

/// A file that a declaration asks for.
#[derive(Debug, PartialEq, Eq)]
pub enum Request {
    /// `mod name;`
    Module(String),
    /// `extern crate name;`, with the file that its `path` annotation gives.
    Crate(String, Option<String>),
}

/// Model of [`Request`].
#[verifier::ext_equal]
pub enum RequestV {
    Module(Seq<char>),
    Crate(Seq<char>, Option<Seq<char>>),
}

impl DeepView for Request {
    type V = RequestV;

    open spec fn deep_view(&self) -> RequestV {
        match self {
            Request::Module(name) => RequestV::Module(name@),
            Request::Crate(name, path) => RequestV::Crate(name@, path.deep_view()),
        }
    }
}

impl RequestV {
    /// The name of the module that the file becomes.
    pub open spec fn name(self) -> Seq<char> {
        match self {
            RequestV::Module(name) => name,
            RequestV::Crate(name, _) => name,
        }
    }
}

/// The file that a declaration asks for.
pub open spec fn request_of(d: TopLevelDeclV) -> Option<RequestV> {
    match d {
        TopLevelDeclV::ModDecl { name, .. } => Some(RequestV::Module(name)),
        TopLevelDeclV::ExternCrate { name, attributes } => Some(
            RequestV::Crate(name, attr_value(attributes, "path"@, 0)),
        ),
        _ => None,
    }
}

/// The files that the declarations from `i` on ask for, behind `done`.
pub open spec fn requests_of(
    ds: Seq<TopLevelDeclV>,
    i: int,
    done: Seq<RequestV>,
) -> Seq<RequestV>
    decreases ds.len() - i,
{
    if i >= ds.len() {
        done
    } else {
        match request_of(ds[i]) {
            Some(r) => requests_of(ds, i + 1, done.push(r)),
            None => requests_of(ds, i + 1, done),
        }
    }
}

/// The files that a source file asks for, in the order of its declarations.
pub fn requests(unit: &CompilationUnit) -> (r: Vec<Request>)
    ensures
        r.deep_view() == requests_of(unit.deep_view().declarations, 0, Seq::empty()),
{
    let ghost ds = unit.deep_view().declarations;
    let mut out: Vec<Request> = empty_list();
    for i in 0..unit.declarations.len()
        invariant
            ds == unit.declarations.deep_view(),
            requests_of(ds, 0, Seq::empty()) == requests_of(ds, i as int, out.deep_view()),
    {
        proof {
            assert(ds[i as int] == unit.declarations@[i as int].deep_view());
        }
        match &unit.declarations[i] {
            TopLevelDecl::ModDecl { name, .. } => {
                push_item(&mut out, Request::Module(name.clone()));
            },
            TopLevelDecl::ExternCrate { name, attributes } => {
                let path: Option<String> = match attr_string_value(attributes.as_slice(), "path") {
                    Some(p) => Some(p.to_string()),
                    None => None,
                };
                push_item(&mut out, Request::Crate(name.clone(), path));
            },
            _ => {},
        }
    }
    out
}

/// The file of a module.
pub fn file_name(name: &str) -> (r: String)
    ensures
        r@ == name@ + ".mp"@,
{
    cat2(name, ".mp")
}

/// What to do for a file.
#[derive(Debug, Clone, Copy, PartialEq, Eq, Structural)]
pub enum Fetch {
    /// The file is being loaded; asking for it again gives an empty module.
    Cycle,
    /// The file was read before, at this position.
    Cached(usize),
    /// The file has to be read.
    Read,
}

/// The position of a text in a list, searched from `i` on.
pub open spec fn position(list: Seq<Seq<char>>, x: Seq<char>, i: int) -> Option<int>
    decreases list.len() - i,
{
    if i >= list.len() {
        None
    } else if list[i] == x {
        Some(i)
    } else {
        position(list, x, i + 1)
    }
}

fn find(list: &Vec<String>, x: &String) -> (r: Option<usize>)
    ensures
        match (r, position(list.deep_view(), x@, 0)) {
            (Some(i), Some(j)) => i == j,
            (None, None) => true,
            _ => false,
        },
{
    let ghost all = list.deep_view();
    for i in 0..list.len()
        invariant
            all == list.deep_view(),
            position(all, x@, 0) == position(all, x@, i as int),
    {
        assert(all[i as int] == list@[i as int]@);
        if list[i] == *x {
            return Some(i);
        }
    }
    None
}

/// What to do for the file `key` while the files `active` are being loaded and
/// the files `loaded` were read.
pub fn fetch(active: &Vec<String>, loaded: &Vec<String>, key: &String) -> (r: Fetch)
    ensures
        r is Cycle <==> position(active.deep_view(), key@, 0) is Some,
        r matches Fetch::Cached(i) ==> position(loaded.deep_view(), key@, 0) == Some(i as int),
        r is Read ==> position(loaded.deep_view(), key@, 0) is None,
{
    if find(active, key).is_some() {
        return Fetch::Cycle;
    }
    match find(loaded, key) {
        Some(i) => Fetch::Cached(i),
        None => Fetch::Read,
    }
}

/// The names of the modules that the declarations from `i` on make, behind
/// `done`.
pub open spec fn module_names(
    ds: Seq<TopLevelDeclV>,
    i: int,
    done: Seq<Seq<char>>,
) -> Seq<Seq<char>>
    decreases ds.len() - i,
{
    if i >= ds.len() {
        done
    } else {
        match module_name(ds[i]) {
            Some(name) => module_names(ds, i + 1, done.push(name)),
            None => module_names(ds, i + 1, done),
        }
    }
}

/// A source file asks for one file for each module that it declares, in the
/// order in which the resolver takes them.
pub proof fn law_one_request_per_module(ds: Seq<TopLevelDeclV>, i: int, done: Seq<RequestV>)
    requires
        0 <= i,
    ensures
        requests_of(ds, i, done).map_values(|r: RequestV| r.name()) == module_names(
            ds,
            i,
            done.map_values(|r: RequestV| r.name()),
        ),
    decreases ds.len() - i,
{
    if i < ds.len() {
        match request_of(ds[i]) {
            Some(r) => {
                law_one_request_per_module(ds, i + 1, done.push(r));
                assert(done.push(r).map_values(|r: RequestV| r.name()) =~= done.map_values(
                    |r: RequestV| r.name(),
                ).push(r.name()));
            },
            None => {
                law_one_request_per_module(ds, i + 1, done);
            },
        }
    }
}

} // verus!
