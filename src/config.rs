//! Startup configuration: proxy bindings read from `PREFIX=URL` text, and
//! the settings that every request reads.

use vstd::prelude::*;
use crate::routes::{ProxyBinding, RouteTable};
use crate::url_text::{has_host, parse_url, parsed_url, url_has_host};

verus! {

/// Why a `PREFIX=URL` binding was refused.
#[derive(Debug)]
pub enum BindingError {
    /// The text holds no `=`.
    MissingSeparator,
    /// Nothing stands before the first `=`.
    EmptyPrefix,
    /// The prefix holds a URL scheme mark, `://`.
    PrefixHasScheme,
    /// What follows the first `=` is no absolute URL.
    InvalidUrl(url::ParseError),
    /// The URL names no host.
    NoHost,
}

/// `p` holds `://` somewhere.
pub open spec fn has_scheme_mark(p: Seq<char>) -> bool {
    exists|i: int| 0 <= i && i + 3 <= p.len() && #[trigger] p[i] == ':' && p[i + 1] == '/' && p[i + 2] == '/'
}

/// Whether `p` holds `://` somewhere.
pub fn scheme_mark_in(p: &str) -> (r: bool)
    ensures
        r == has_scheme_mark(p@),
{
    let len = p.unicode_len();
    let mut i: usize = 0;
    while i < len
        invariant
            i <= len,
            len == p@.len(),
            forall|k: int| 0 <= k < i ==> !(k + 3 <= p@.len() && #[trigger] p@[k] == ':' && p@[k + 1] == '/' && p@[k + 2] == '/'),
        decreases len - i,
    {
        if len - i >= 3 && p.get_char(i) == ':' && p.get_char(i + 1) == '/' && p.get_char(i + 2) == '/' {
            return true;
        }
        i = i + 1;
    }
    false
}

/// The index of the first `c` in `s` at or after `i`, or -1.
pub open spec fn find_from(s: Seq<char>, c: char, i: int) -> int
    decreases s.len() - i,
{
    if i < 0 || i >= s.len() {
        -1
    } else if s[i] == c {
        i
    } else {
        find_from(s, c, i + 1)
    }
}

/// The index of the first `=` in `s`, or -1.
pub open spec fn separator_index(s: Seq<char>) -> int {
    find_from(s, '=', 0)
}

/// What stands before the first `=` of `s`.
pub open spec fn key_part(s: Seq<char>) -> Seq<char> {
    s.subrange(0, separator_index(s))
}

/// What follows the first `=` of `s`.
pub open spec fn url_part(s: Seq<char>) -> Seq<char> {
    s.subrange(separator_index(s) + 1, s.len() as int)
}

/// `s` has a non-empty prefix before its first `=`, with no scheme mark.
pub open spec fn key_ok(s: Seq<char>) -> bool {
    separator_index(s) > 0 && !has_scheme_mark(key_part(s))
}

/// What a binding text `s` yields: its prefix is what stands before the
/// first `=`, its upstream the parsed URL that follows it, which names a
/// host.
pub open spec fn binding_text_ok(s: Seq<char>, b: ProxyBinding) -> bool {
    &&& key_ok(s)
    &&& b.path_prefix@ == key_part(s)
    &&& parsed_url(url_part(s)) == Some(b.upstream@)
    &&& url_has_host(b.upstream@)
}

/// Reads a binding written `PREFIX=URL`, split at the first `=`.
pub fn parse_key_vals(s: &str) -> (r: Result<ProxyBinding, BindingError>)
    ensures
        match r {
            Ok(b) => binding_text_ok(s@, b),
            Err(BindingError::MissingSeparator) => separator_index(s@) == -1,
            Err(BindingError::EmptyPrefix) => separator_index(s@) == 0,
            Err(BindingError::PrefixHasScheme) => separator_index(s@) > 0 && has_scheme_mark(key_part(s@)),
            Err(BindingError::InvalidUrl(_)) => key_ok(s@) && parsed_url(url_part(s@)).is_none(),
            Err(BindingError::NoHost) => key_ok(s@) && match parsed_url(url_part(s@)) {
                Some(t) => !url_has_host(t),
                None => false,
            },
        },
{
    let len = s.unicode_len();
    let mut i: usize = 0;
    while i < len
        invariant
            i <= len,
            len == s@.len(),
            find_from(s@, '=', 0) == find_from(s@, '=', i as int),
        ensures
            i <= len,
            find_from(s@, '=', 0) == find_from(s@, '=', i as int),
            i < len ==> s@[i as int] == '=',
        decreases len - i,
    {
        if s.get_char(i) == '=' {
            break;
        }
        i = i + 1;
    }
    if i == len {
        return Err(BindingError::MissingSeparator);
    }
    if i == 0 {
        return Err(BindingError::EmptyPrefix);
    }
    let key = s.substring_char(0, i);
    if scheme_mark_in(key) {
        return Err(BindingError::PrefixHasScheme);
    }
    let value = s.substring_char(i + 1, len);
    let upstream = match parse_url(value) {
        Ok(u) => u,
        Err(e) => return Err(BindingError::InvalidUrl(e)),
    };
    if !has_host(upstream.as_str()) {
        return Err(BindingError::NoHost);
    }
    Ok(ProxyBinding { path_prefix: String::from_str(key), upstream })
}

/// The settings read on every request, fixed at startup.
#[derive(Clone, Debug)]
pub struct ServerConfig {
    pub port: u16,
    pub directory: String,
    pub index_file: String,
    pub spa: bool,
    pub workers: usize,
    pub routes: RouteTable,
}

} // verus!
