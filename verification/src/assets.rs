//! What the asset server answers: the harness page at the root path, the
//! first script of the build directory at the loader path, and the file
//! named by any other path.
//!
//! Every answer has status 200. A file that cannot be had is answered with
//! the text [`NOT_FOUND`], which the client has to tell apart by its body.

use vstd::prelude::*;
use vstd::string::*;
use vstd::utf8::encode_utf8;
use crate::harness::{
    HARNESS_PAGE, LOADER_PATH, NOT_FOUND, PATH_SEPARATOR, ROOT_PATH, SCRIPT_SUFFIX,
};
use crate::text::{ends_with, str_ends_with, str_eq};

verus! {

/// The kinds of resource.
#[derive(Debug, Clone, Copy, PartialEq, Eq, Structural)]
pub enum Route {
    /// The harness page.
    Harness,
    /// The loader script.
    Loader,
    /// A file of the build directory.
    Asset,
}

/// The resource that a request path stands for.
pub open spec fn route_of(url: Seq<char>) -> Route {
    if url == ROOT_PATH@ {
        Route::Harness
    } else if url == LOADER_PATH@ {
        Route::Loader
    } else {
        Route::Asset
    }
}

/// Computes [`route_of`].
pub fn route(url: &str) -> (route: Route)
    ensures
        route == route_of(url@),
{
    if str_eq(url, ROOT_PATH) {
        Route::Harness
    } else if str_eq(url, LOADER_PATH) {
        Route::Loader
    } else {
        Route::Asset
    }
}

/// What a body is declared as.
#[derive(Debug, Clone, Copy, PartialEq, Eq, Structural)]
pub enum ContentKind {
    /// `Content-Type: text/html`.
    Html,
    /// `Content-Type: text/plain; charset=UTF-8`.
    Plain,
    /// No content type.
    Raw,
}

/// One answer of the server.
#[derive(Debug, Clone, PartialEq, Eq)]
pub struct Reply {
    /// The status code.
    pub status: u16,
    /// What the body is declared as.
    pub kind: ContentKind,
    /// The body.
    pub body: Vec<u8>,
}

/// The mathematical content of a [`Reply`].
pub struct ReplyView {
    pub status: int,
    pub kind: ContentKind,
    pub body: Seq<u8>,
}

impl View for Reply {
    type V = ReplyView;

    open spec fn view(&self) -> ReplyView {
        ReplyView { status: self.status as int, kind: self.kind, body: self.body@ }
    }
}

/// The answer that carries the harness page.
pub open spec fn harness_reply() -> ReplyView {
    ReplyView { status: 200, kind: ContentKind::Html, body: encode_utf8(HARNESS_PAGE@) }
}

/// The answer for a file that cannot be had.
pub open spec fn missing_reply() -> ReplyView {
    ReplyView { status: 200, kind: ContentKind::Plain, body: encode_utf8(NOT_FOUND@) }
}

/// The answer that carries a file's bytes.
pub open spec fn file_reply(contents: Seq<u8>) -> ReplyView {
    ReplyView { status: 200, kind: ContentKind::Raw, body: contents }
}

/// The answer after an attempt to read a file: its bytes where it could be
/// read, the text [`NOT_FOUND`] where not.
pub open spec fn delivery(contents: Option<Vec<u8>>) -> ReplyView {
    match contents {
        Some(bytes) => file_reply(bytes@),
        None => missing_reply(),
    }
}

impl Reply {
    /// Builds [`harness_reply`].
    pub fn harness() -> (reply: Reply)
        ensures
            reply@ == harness_reply(),
    {
        Reply { status: 200, kind: ContentKind::Html, body: HARNESS_PAGE.as_bytes_vec() }
    }

    /// Builds [`missing_reply`].
    pub fn missing() -> (reply: Reply)
        ensures
            reply@ == missing_reply(),
    {
        Reply { status: 200, kind: ContentKind::Plain, body: NOT_FOUND.as_bytes_vec() }
    }

    /// Builds [`file_reply`].
    pub fn file(contents: Vec<u8>) -> (reply: Reply)
        ensures
            reply@ == file_reply(contents@),
    {
        Reply { status: 200, kind: ContentKind::Raw, body: contents }
    }

    /// Builds [`delivery`].
    pub fn deliver(contents: Option<Vec<u8>>) -> (reply: Reply)
        ensures
            reply@ == delivery(contents),
    {
        match contents {
            Some(bytes) => Reply::file(bytes),
            None => Reply::missing(),
        }
    }
}

/// A file name is that of a script: it ends with [`SCRIPT_SUFFIX`] and has
/// something before it.
pub open spec fn is_script(name: Seq<char>) -> bool {
    ends_with(name, SCRIPT_SUFFIX@) && name != SCRIPT_SUFFIX@
}

/// Computes [`is_script`].
pub fn is_script_name(name: &str) -> (script: bool)
    ensures
        script == is_script(name@),
{
    str_ends_with(name, SCRIPT_SUFFIX) && !str_eq(name, SCRIPT_SUFFIX)
}

/// `names[at]` is the first script among `names`.
pub open spec fn first_script_at(names: Seq<Seq<char>>, at: int) -> bool {
    &&& 0 <= at < names.len()
    &&& is_script(names[at])
    &&& forall|i: int| 0 <= i < at ==> !is_script(#[trigger] names[i])
}

/// There is no script among `names`.
pub open spec fn no_script(names: Seq<Seq<char>>) -> bool {
    forall|i: int| 0 <= i < names.len() ==> !is_script(#[trigger] names[i])
}

/// The place of the first script among `names`, where there is one.
pub open spec fn first_script(names: Seq<Seq<char>>) -> int
    recommends
        !no_script(names),
{
    choose|at: int| first_script_at(names, at)
}

/// There is one first script, or none.
pub proof fn lemma_first_script(names: Seq<Seq<char>>, at: int)
    requires
        first_script_at(names, at),
    ensures
        !no_script(names),
        first_script(names) == at,
{
    let other = first_script(names);
    assert(first_script_at(names, other));
    if other < at {
        assert(!is_script(names[other]));
    }
    if at < other {
        assert(!is_script(names[at]));
    }
}

/// Finds the first script among the file names of a directory.
pub fn find_script(names: &Vec<String>) -> (found: Option<usize>)
    ensures
        found is None <==> no_script(names.deep_view()),
        found matches Some(at) ==> first_script_at(names.deep_view(), at as int) && at
            == first_script(names.deep_view()),
{
    let mut i: usize = 0;
    while i < names.len()
        invariant
            i <= names@.len(),
            forall|j: int| 0 <= j < i ==> !is_script(#[trigger] names.deep_view()[j]),
        decreases names@.len() - i,
    {
        if is_script_name(names[i].as_str()) {
            assert(names.deep_view()[i as int] == names@[i as int]@);
            proof {
                lemma_first_script(names.deep_view(), i as int);
            }
            return Some(i);
        }
        assert(names.deep_view()[i as int] == names@[i as int]@);
        i += 1;
    }
    None
}

/// The path of the file that a request path names: the build directory
/// with the request path behind it, as it came.
pub open spec fn asset_path_of(dir: Seq<char>, url: Seq<char>) -> Seq<char> {
    dir + url
}

/// The path of a file of the build directory, by its name.
pub open spec fn member_path_of(dir: Seq<char>, name: Seq<char>) -> Seq<char> {
    dir + PATH_SEPARATOR@ + name
}

/// Computes [`asset_path_of`].
pub fn asset_path(dir: &str, url: &str) -> (path: String)
    ensures
        path@ == asset_path_of(dir@, url@),
{
    dir.to_owned().concat(url)
}

/// Computes [`member_path_of`].
pub fn member_path(dir: &str, name: &str) -> (path: String)
    ensures
        path@ == member_path_of(dir@, name@),
{
    dir.to_owned().concat(PATH_SEPARATOR).concat(name)
}

} // verus!
