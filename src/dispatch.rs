//! The dispatcher: which of forwarding, the index file, a static file, the
//! single-page fallback or not-found answers a request, in that fixed order
//! of precedence.

use vstd::prelude::*;
use crate::config::ServerConfig;
use crate::routes::{first_match, no_match};

verus! {

/// How a request is answered.
#[derive(Debug, PartialEq, Eq, Structural)]
pub enum Outcome {
    /// Forwarded through the binding at this index of the route table.
    Forward(usize),
    /// The root path: the index file.
    RootIndex,
    /// The static file that the resolver found.
    StaticFile,
    /// No route and no file, single-page mode on: the index file.
    SpaIndex,
    /// No route and no file, single-page mode off.
    NotFound,
}

/// The root path `/`.
pub open spec fn is_root(path: Seq<char>) -> bool {
    path == seq!['/']
}

/// `r` is how a request for `path` is answered under `cfg`, where
/// `static_file` tells whether the static resolver found a file for it.
pub open spec fn dispatched(cfg: ServerConfig, path: Seq<char>, static_file: bool, r: Outcome) -> bool {
    let bs = cfg.routes.bindings@;
    match r {
        Outcome::Forward(i) => first_match(bs, path, i as int),
        Outcome::RootIndex => no_match(bs, path) && is_root(path),
        Outcome::StaticFile => no_match(bs, path) && !is_root(path) && static_file,
        Outcome::SpaIndex => no_match(bs, path) && !is_root(path) && !static_file && cfg.spa,
        Outcome::NotFound => no_match(bs, path) && !is_root(path) && !static_file && !cfg.spa,
    }
}

/// The outcome answers with the index file.
pub open spec fn serves_index(r: Outcome) -> bool {
    r == Outcome::RootIndex || r == Outcome::SpaIndex
}

/// The status that the server sets itself; a forwarded request takes the
/// upstream's.
pub open spec fn local_status(r: Outcome) -> Option<u16> {
    match r {
        Outcome::Forward(_) => None,
        Outcome::NotFound => Some(404),
        _ => Some(200),
    }
}

impl Outcome {
    /// The status that the server sets itself for this outcome, `None` where
    /// the upstream's status is relayed.
    pub fn status(&self) -> (r: Option<u16>)
        ensures
            r == local_status(*self),
    {
        match self {
            Outcome::Forward(_) => None,
            Outcome::NotFound => Some(404),
            _ => Some(200),
        }
    }
}

/// Decides how a request for `path` is answered: a matching binding first,
/// then the root index, then a static file, then the single-page fallback.
pub fn dispatch(cfg: &ServerConfig, path: &str, static_file: bool) -> (r: Outcome)
    ensures
        dispatched(*cfg, path@, static_file, r),
{
    match cfg.routes.match_path(path) {
        Some(i) => return Outcome::Forward(i),
        None => {},
    }
    let root = path.unicode_len() == 1 && path.get_char(0) == '/';
    assert(root == is_root(path@)) by {
        if path@.len() == 1 && path@[0] == '/' {
            assert(path@ =~= seq!['/']);
        }
    }
    if root {
        Outcome::RootIndex
    } else if static_file {
        Outcome::StaticFile
    } else if cfg.spa {
        Outcome::SpaIndex
    } else {
        Outcome::NotFound
    }
}

/// A `..` segment starts at `i` of `path`.
pub open spec fn parent_segment_at(path: Seq<char>, i: int) -> bool {
    &&& 0 <= i
    &&& i + 2 <= path.len()
    &&& (i == 0 || path[i - 1] == '/')
    &&& path[i] == '.'
    &&& path[i + 1] == '.'
    &&& (i + 2 == path.len() || path[i + 2] == '/')
}

/// The path holds a `..` segment, which would climb out of the served
/// directory.
pub open spec fn climbs_out(path: Seq<char>) -> bool {
    exists|i: int| parent_segment_at(path, i)
}

/// The number of `/` that `path` starts with.
pub open spec fn leading_slashes(path: Seq<char>, i: int) -> int
    decreases path.len() - i,
{
    if i < 0 || i >= path.len() || path[i] != '/' {
        i
    } else {
        leading_slashes(path, i + 1)
    }
}

/// The file that a request path names, relative to the served directory:
/// the path without its leading `/`, or `None` where it climbs out.
pub fn static_relative_path(path: &str) -> (r: Option<String>)
    ensures
        match r {
            Some(t) => !climbs_out(path@) && t@ == path@.subrange(leading_slashes(path@, 0), path@.len() as int),
            None => climbs_out(path@),
        },
{
    let len = path.unicode_len();
    let mut i: usize = 0;
    while i < len
        invariant
            i <= len,
            len == path@.len(),
            forall|k: int| 0 <= k < i ==> !parent_segment_at(path@, k),
        decreases len - i,
    {
        if len - i >= 2 && (i == 0 || path.get_char(i - 1) == '/') && path.get_char(i) == '.'
            && path.get_char(i + 1) == '.' && (i + 2 == len || path.get_char(i + 2) == '/') {
            assert(parent_segment_at(path@, i as int));
            return None;
        }
        i = i + 1;
    }
    assert(!climbs_out(path@)) by {
        assert forall|k: int| !parent_segment_at(path@, k) by {
            if 0 <= k < len {
            }
        }
    }
    let mut j: usize = 0;
    while j < len && path.get_char(j) == '/'
        invariant
            j <= len,
            len == path@.len(),
            leading_slashes(path@, 0) == leading_slashes(path@, j as int),
        decreases len - j,
    {
        j = j + 1;
    }
    Some(String::from_str(path.substring_char(j, len)))
}

} // verus!
