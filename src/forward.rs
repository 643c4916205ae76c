//! The forwarding engine: the upstream request built from an inbound one
//! and its binding, and the client response built from the upstream one.

use vstd::prelude::*;
use vstd::utf8::encode_utf8;
use crate::routes::ProxyBinding;
use crate::url_text::{text_of, replace_path, replace_query, url_with_path, url_with_query, URL_TEXT_MAX};

verus! {

/// One HTTP header: its name, and its value as raw bytes.
pub struct Header {
    pub name: String,
    pub value: Vec<u8>,
}

impl View for Header {
    type V = (Seq<char>, Seq<u8>);

    open spec fn view(&self) -> (Seq<char>, Seq<u8>) {
        (self.name@, self.value@)
    }
}

/// The headers as (name, value) pairs, in order.
pub open spec fn headers_view(hs: Seq<Header>) -> Seq<(Seq<char>, Seq<u8>)> {
    hs.map_values(|h: Header| h@)
}

/// `c` is `lower`, or `lower` is an ASCII lower-case letter and `c` the
/// same letter in upper case.
pub open spec fn char_folds_to(c: char, lower: char) -> bool {
    c == lower || ('a' <= lower && lower <= 'z' && c as u32 + 32 == lower as u32)
}

/// The header name `name` equals the lower-case name `lower`, ignoring ASCII
/// case.
pub open spec fn name_is(name: Seq<char>, lower: Seq<char>) -> bool {
    &&& name.len() == lower.len()
    &&& forall|i: int| 0 <= i < name.len() ==> char_folds_to(#[trigger] name[i], lower[i])
}

/// The connection-management header, which is never relayed.
pub open spec fn connection_name() -> Seq<char> {
    seq!['c', 'o', 'n', 'n', 'e', 'c', 't', 'i', 'o', 'n']
}

/// The header that carries the client's address upstream.
pub open spec fn client_ip_name() -> Seq<char> {
    seq!['x', '-', 'f', 'o', 'r', 'w', 'a', 'r', 'd', 'e', 'd', '-', 'f', 'o', 'r']
}

/// The headers of `hs` that are not the connection header, in order.
pub open spec fn without_connection(hs: Seq<(Seq<char>, Seq<u8>)>) -> Seq<(Seq<char>, Seq<u8>)>
    decreases hs.len(),
{
    if hs.len() == 0 {
        hs
    } else {
        let rest = without_connection(hs.drop_last());
        if name_is(hs.last().0, connection_name()) {
            rest
        } else {
            rest.push(hs.last())
        }
    }
}

/// No header of `hs` is the connection header.
pub open spec fn has_no_connection(hs: Seq<(Seq<char>, Seq<u8>)>) -> bool {
    forall|i: int| 0 <= i < hs.len() ==> !name_is(#[trigger] hs[i].0, connection_name())
}

/// The inbound headers with the client-address header added after them when
/// the peer address is known.
pub open spec fn with_client_ip(hs: Seq<(Seq<char>, Seq<u8>)>, peer: Option<Seq<char>>) -> Seq<(Seq<char>, Seq<u8>)> {
    match peer {
        Some(a) => hs.push((client_ip_name(), encode_utf8(a))),
        None => hs,
    }
}

/// Whether `name` is the connection header, in any ASCII case.
pub fn is_connection_header(name: &str) -> (r: bool)
    ensures
        r == name_is(name@, connection_name()),
{
    let target = "connection";
    proof {
        reveal_strlit("connection");
    }
    assert(target@ =~= connection_name());
    let len = name.unicode_len();
    if len != 10 {
        return false;
    }
    let mut i: usize = 0;
    while i < len
        invariant
            i <= len,
            len == name@.len(),
            target@ == connection_name(),
            len == target@.len(),
            forall|k: int| 0 <= k < i ==> char_folds_to(#[trigger] name@[k], target@[k]),
        decreases len - i,
    {
        let c = name.get_char(i);
        let t = target.get_char(i);
        let folds = c == t || ('a' <= t && t <= 'z' && (c as u32) + 32 == t as u32);
        if !folds {
            assert(!char_folds_to(name@[i as int], target@[i as int]));
            return false;
        }
        i = i + 1;
    }
    true
}

/// A copy of a byte string.
fn copy_bytes(b: &Vec<u8>) -> (r: Vec<u8>)
    ensures
        r@ == b@,
{
    let mut r: Vec<u8> = Vec::new();
    let mut i: usize = 0;
    while i < b.len()
        invariant
            i <= b@.len(),
            r@ == b@.subrange(0, i as int),
        decreases b@.len() - i,
    {
        r.push(b[i]);
        i = i + 1;
        assert(r@ =~= b@.subrange(0, i as int));
    }
    assert(b@.subrange(0, b@.len() as int) =~= b@);
    r
}

impl Header {
    /// A copy of this header.
    pub fn duplicate(&self) -> (r: Header)
        ensures
            r@ == self@,
    {
        Header { name: self.name.clone(), value: copy_bytes(&self.value) }
    }
}

proof fn lemma_without_connection_clean(hs: Seq<(Seq<char>, Seq<u8>)>)
    ensures
        has_no_connection(without_connection(hs)),
    decreases hs.len(),
{
    if hs.len() > 0 {
        lemma_without_connection_clean(hs.drop_last());
    }
}

/// Dropping the connection header from headers that hold none leaves them
/// as they are.
pub proof fn lemma_without_connection_keeps_clean(hs: Seq<(Seq<char>, Seq<u8>)>)
    requires
        has_no_connection(hs),
    ensures
        without_connection(hs) == hs,
    decreases hs.len(),
{
    if hs.len() > 0 {
        assert(has_no_connection(hs.drop_last()));
        lemma_without_connection_keeps_clean(hs.drop_last());
        assert(!name_is(hs[hs.len() - 1].0, connection_name()));
        assert(hs.drop_last().push(hs.last()) =~= hs);
    }
}

/// The headers to relay to the client: all of `hs` but the connection
/// header, in their order.
pub fn relay_headers(hs: &Vec<Header>) -> (r: Vec<Header>)
    ensures
        headers_view(r@) == without_connection(headers_view(hs@)),
        has_no_connection(headers_view(r@)),
{
    let mut r: Vec<Header> = Vec::new();
    let mut i: usize = 0;
    while i < hs.len()
        invariant
            i <= hs@.len(),
            headers_view(r@) == without_connection(headers_view(hs@).subrange(0, i as int)),
        decreases hs@.len() - i,
    {
        let ghost before = headers_view(hs@).subrange(0, i as int);
        let ghost after = headers_view(hs@).subrange(0, i + 1);
        assert(after.drop_last() =~= before);
        if !is_connection_header(hs[i].name.as_str()) {
            r.push(hs[i].duplicate());
        }
        assert(headers_view(r@) =~= without_connection(after));
        i = i + 1;
    }
    assert(headers_view(hs@).subrange(0, hs@.len() as int) =~= headers_view(hs@));
    proof {
        lemma_without_connection_clean(headers_view(hs@));
    }
    r
}

/// Why a request could not be forwarded.
#[derive(Debug, PartialEq, Eq, Structural)]
pub enum ForwardError {
    /// The upstream URL would be longer than the rewrite allows.
    UrlTooLong,
    /// The `url` crate refused to read the upstream URL.
    UrlRejected,
}

/// The length of an optional query.
pub open spec fn query_len(q: Option<Seq<char>>) -> int {
    match q {
        Some(t) => t.len() as int,
        None => 0,
    }
}

/// The upstream URL of a request: the binding's base with its path replaced
/// by the full request path and its query by the request's query.
pub open spec fn target_url(base: Seq<char>, path: Seq<char>, query: Option<Seq<char>>) -> Result<Seq<char>, ForwardError> {
    if base.len() + path.len() > URL_TEXT_MAX {
        Err(ForwardError::UrlTooLong)
    } else {
        match url_with_path(base, path) {
            None => Err(ForwardError::UrlRejected),
            Some(t) => if t.len() + query_len(query) > URL_TEXT_MAX {
                Err(ForwardError::UrlTooLong)
            } else {
                match url_with_query(t, query) {
                    None => Err(ForwardError::UrlRejected),
                    Some(u) => Ok(u),
                }
            },
        }
    }
}

/// The upstream URL for `path` and `query` under the base URL `base`.
pub fn upstream_url(base: &str, path: &str, query: Option<&str>) -> (r: Result<String, ForwardError>)
    ensures
        match r {
            Ok(u) => target_url(base@, path@, match query { Some(q) => Some(q@), None => None }) == Ok::<Seq<char>, ForwardError>(u@),
            Err(e) => target_url(base@, path@, match query { Some(q) => Some(q@), None => None }) == Err::<Seq<char>, ForwardError>(e),
        },
{
    let blen = base.unicode_len();
    let plen = path.unicode_len();
    if blen > URL_TEXT_MAX || plen > URL_TEXT_MAX - blen {
        return Err(ForwardError::UrlTooLong);
    }
    let with_path = match replace_path(base, path) {
        Some(t) => t,
        None => return Err(ForwardError::UrlRejected),
    };
    let tlen = with_path.as_str().unicode_len();
    let qlen = match query {
        Some(q) => q.unicode_len(),
        None => 0,
    };
    if tlen > URL_TEXT_MAX || qlen > URL_TEXT_MAX - tlen {
        return Err(ForwardError::UrlTooLong);
    }
    match replace_query(with_path.as_str(), query) {
        Some(u) => Ok(u),
        None => Err(ForwardError::UrlRejected),
    }
}

/// A request as it came in: its method, raw path and query, headers, body,
/// and the peer's address where the connection knows it.
pub struct IncomingRequest {
    pub method: String,
    pub path: String,
    pub query: Option<String>,
    pub headers: Vec<Header>,
    pub body: Vec<u8>,
    pub peer: Option<String>,
}

/// The request to send upstream.
pub struct UpstreamRequest {
    pub method: String,
    pub url: String,
    pub headers: Vec<Header>,
    pub body: Vec<u8>,
}

/// A response: status code, headers and body.
pub struct Reply {
    pub status: u16,
    pub headers: Vec<Header>,
    pub body: Vec<u8>,
}

/// `out` is the upstream request for `req` under `binding`: the same method,
/// body and headers (the client's address added after them), sent to the
/// binding's base with the full request path and query.
pub open spec fn forwards_as(req: IncomingRequest, binding: ProxyBinding, out: UpstreamRequest) -> bool {
    &&& target_url(binding.upstream@, req.path@, text_of(req.query)) == Ok::<Seq<char>, ForwardError>(out.url@)
    &&& out.method@ == req.method@
    &&& headers_view(out.headers@) == with_client_ip(headers_view(req.headers@), text_of(req.peer))
    &&& out.body@ == req.body@
}

/// `down` relays `up` to the client: the same status and body, and every
/// header but the connection header.
pub open spec fn relays_as(up: Reply, down: Reply) -> bool {
    &&& down.status == up.status
    &&& headers_view(down.headers@) == without_connection(headers_view(up.headers@))
    &&& down.body@ == up.body@
}

/// The inbound headers, with the client-address header added after them
/// when `peer` is known.
pub fn upstream_headers(headers: Vec<Header>, peer: Option<&str>) -> (r: Vec<Header>)
    ensures
        headers_view(r@) == with_client_ip(headers_view(headers@), match peer { Some(a) => Some(a@), None => None }),
        match peer {
            Some(a) => r@.len() > 0 && r@.last()@ == (client_ip_name(), encode_utf8(a@)),
            None => r@.len() == headers@.len(),
        },
{
    let mut r = headers;
    match peer {
        Some(a) => {
            let name = "x-forwarded-for";
            proof {
                reveal_strlit("x-forwarded-for");
            }
            assert(name@ =~= client_ip_name());
            let h = Header { name: String::from_str(name), value: a.as_bytes_vec() };
            let ghost old_r = r@;
            r.push(h);
            assert(headers_view(r@) =~= headers_view(old_r).push(h@));
        },
        None => {},
    }
    r
}

/// Builds the upstream request for `req` under `binding`. The path is sent
/// whole, prefix included.
pub fn build_upstream_request(req: IncomingRequest, binding: &ProxyBinding) -> (r: Result<UpstreamRequest, ForwardError>)
    ensures
        match r {
            Ok(out) => forwards_as(req, *binding, out),
            Err(e) => target_url(binding.upstream@, req.path@, text_of(req.query)) == Err::<Seq<char>, ForwardError>(e),
        },
{
    let ghost old_req = req;
    let IncomingRequest { method, path, query, headers, body, peer } = req;
    let q = match &query {
        Some(t) => Some(t.as_str()),
        None => None,
    };
    let url = match upstream_url(binding.upstream.as_str(), path.as_str(), q) {
        Ok(u) => u,
        Err(e) => return Err(e),
    };
    let p = match &peer {
        Some(t) => Some(t.as_str()),
        None => None,
    };
    let headers = upstream_headers(headers, p);
    Ok(UpstreamRequest { method, url, headers, body })
}

/// The response to relay to the client for the upstream response `up`.
pub fn relay_response(up: Reply) -> (r: Reply)
    ensures
        relays_as(up, r),
        has_no_connection(headers_view(r.headers@)),
{
    let headers = relay_headers(&up.headers);
    Reply { status: up.status, headers, body: up.body }
}

} // verus!
