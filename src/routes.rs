//! The route table: path prefixes bound to upstream base URLs, matched in
//! configuration order on whole path segments.

use vstd::prelude::*;

verus! {

/// One proxy binding: requests under `path_prefix` go to `upstream`, the
/// serialized absolute base URL.
#[derive(Clone, Debug)]
pub struct ProxyBinding {
    pub path_prefix: String,
    pub upstream: String,
}

/// The prefix as a rooted path: a leading `/` is added where it is missing.
pub open spec fn rooted(prefix: Seq<char>) -> Seq<char> {
    if prefix.len() > 0 && prefix[0] == '/' {
        prefix
    } else {
        seq!['/'] + prefix
    }
}

/// `path` starts with `prefix` and the match ends on a segment boundary:
/// the path ends there or goes on with a `/`.
pub open spec fn segment_prefix(prefix: Seq<char>, path: Seq<char>) -> bool {
    &&& prefix.len() <= path.len()
    &&& path.subrange(0, prefix.len() as int) == prefix
    &&& (path.len() == prefix.len() || path[prefix.len() as int] == '/')
}

/// The binding's prefix, rooted, is a segment-aligned prefix of `path`.
pub open spec fn binding_matches(b: ProxyBinding, path: Seq<char>) -> bool {
    segment_prefix(rooted(b.path_prefix@), path)
}

/// `i` is the first binding of `bs` that matches `path`.
pub open spec fn first_match(bs: Seq<ProxyBinding>, path: Seq<char>, i: int) -> bool {
    &&& 0 <= i < bs.len()
    &&& binding_matches(bs[i], path)
    &&& forall|j: int| 0 <= j < i ==> !binding_matches(#[trigger] bs[j], path)
}

/// No binding of `bs` matches `path`.
pub open spec fn no_match(bs: Seq<ProxyBinding>, path: Seq<char>) -> bool {
    forall|j: int| 0 <= j < bs.len() ==> !binding_matches(#[trigger] bs[j], path)
}

/// Whether the configured prefix `prefix` matches the request path `path`
/// on whole segments (`/api` matches `/api` and `/api/list`, not `/apix`).
pub fn prefix_matches(prefix: &str, path: &str) -> (r: bool)
    ensures
        r == segment_prefix(rooted(prefix@), path@),
{
    let plen = prefix.unicode_len();
    let len = path.unicode_len();
    let lead: usize = if plen > 0 && prefix.get_char(0) == '/' {
        0
    } else {
        1
    };
    let ghost p = rooted(prefix@);
    assert(p.len() == plen + lead);
    assert(forall|k: int| 0 <= k < plen ==> p[k + lead] == prefix@[k]);
    if len < lead || len - lead < plen {
        return false;
    }
    if lead == 1 && path.get_char(0) != '/' {
        assert(path@.subrange(0, p.len() as int)[0] != p[0]);
        return false;
    }
    let mut i: usize = 0;
    while i < plen
        invariant
            i <= plen,
            len == path@.len(),
            plen == prefix@.len(),
            p == rooted(prefix@),
            p.len() == plen + lead,
            plen + lead <= len,
            lead == 0 || (lead == 1 && p[0] == '/' && path@[0] == '/'),
            forall|k: int| 0 <= k < plen ==> p[k + lead] == prefix@[k],
            forall|k: int| 0 <= k < i + lead ==> path@[k] == p[k],
        decreases plen - i,
    {
        if path.get_char(i + lead) != prefix.get_char(i) {
            assert(path@.subrange(0, p.len() as int)[i + lead] != p[i + lead]);
            return false;
        }
        i = i + 1;
    }
    assert(path@.subrange(0, p.len() as int) =~= p);
    len == plen + lead || path.get_char(plen + lead) == '/'
}

/// The configured bindings, in configuration order, which is also the order
/// of precedence.
#[derive(Clone, Debug)]
pub struct RouteTable {
    pub bindings: Vec<ProxyBinding>,
}

impl RouteTable {
    /// The table of the given bindings, in the given order.
    pub fn new(bindings: Vec<ProxyBinding>) -> (r: RouteTable)
        ensures
            r.bindings@ == bindings@,
    {
        RouteTable { bindings }
    }

    /// The index of the first binding that matches `path`, if any does.
    pub fn match_path(&self, path: &str) -> (r: Option<usize>)
        ensures
            match r {
                Some(i) => first_match(self.bindings@, path@, i as int),
                None => no_match(self.bindings@, path@),
            },
    {
        let mut i: usize = 0;
        while i < self.bindings.len()
            invariant
                i <= self.bindings@.len(),
                forall|j: int| 0 <= j < i ==> !binding_matches(#[trigger] self.bindings@[j], path@),
            decreases self.bindings@.len() - i,
        {
            if prefix_matches(self.bindings[i].path_prefix.as_str(), path) {
                return Some(i);
            }
            i = i + 1;
        }
        None
    }
}

} // verus!
