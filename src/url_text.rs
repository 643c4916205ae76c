//! Absolute URLs, as the `url` crate reads and rewrites them. The library
//! holds a URL as its serialized text; these functions hand that text to the
//! `url` crate and take its serialization back.

use vstd::prelude::*;

verus! {

#[verifier::external_type_specification]
#[verifier::external_body]
pub struct ExParseError(url::ParseError);

/// The serialization of what `url::Url::parse` reads from `s`, or `None`
/// where it finds no absolute URL there.
pub uninterp spec fn parsed_url(s: Seq<char>) -> Option<Seq<char>>;

/// The serialization of the URL read from `u` once `url::Url::set_path` has
/// replaced its path with `path`, or `None` where `u` is no absolute URL.
pub uninterp spec fn url_with_path(u: Seq<char>, path: Seq<char>) -> Option<Seq<char>>;

/// The serialization of the URL read from `u` once `url::Url::set_query` has
/// replaced its query with `query`, or `None` where `u` is no absolute URL.
pub uninterp spec fn url_with_query(u: Seq<char>, query: Option<Seq<char>>) -> Option<Seq<char>>;

/// Whether the URL read from `u` has a host, per `url::Url::has_host`;
/// `false` where `u` is no absolute URL.
pub uninterp spec fn url_has_host(u: Seq<char>) -> bool;

/// The longest text, in characters, handed to a rewrite. Percent-encoding
/// makes at most twelve bytes of a character, so the `url` crate's
/// 32-bit offsets stay in range.
pub const URL_TEXT_MAX: usize = 0x0100_0000;

/// The view of an optional string.
pub open spec fn text_of(t: Option<String>) -> Option<Seq<char>> {
    match t {
        Some(s) => Some(s@),
        None => None,
    }
}

/// Relies on `url::Url::parse` and `url::Url::as_str`: the text of the
/// parsed absolute URL, or the crate's parse error.
#[verifier::external_body]
pub(crate) fn parse_url(s: &str) -> (r: Result<String, url::ParseError>)
    ensures
        match r {
            Ok(t) => parsed_url(s@) == Some(t@),
            Err(_) => parsed_url(s@).is_none(),
        },
{
    match url::Url::parse(s) {
        Ok(u) => Ok(String::from(u.as_str())),
        Err(e) => Err(e),
    }
}

/// Relies on `url::Url::has_host` (after `url::Url::parse` of `u`):
/// whether the URL names a host.
#[verifier::external_body]
pub(crate) fn has_host(u: &str) -> (r: bool)
    ensures
        r == url_has_host(u@),
{
    match url::Url::parse(u) {
        Ok(v) => v.has_host(),
        Err(_) => false,
    }
}

/// Relies on `url::Url::set_path` (after `url::Url::parse` of `u`): the text
/// of `u` with its path replaced.
#[verifier::external_body]
pub(crate) fn replace_path(u: &str, path: &str) -> (r: Option<String>)
    requires
        u@.len() + path@.len() <= URL_TEXT_MAX,
    ensures
        text_of(r) == url_with_path(u@, path@),
{
    match url::Url::parse(u) {
        Ok(mut v) => {
            v.set_path(path);
            Some(String::from(v.as_str()))
        },
        Err(_) => None,
    }
}

/// Relies on `url::Url::set_query` (after `url::Url::parse` of `u`): the
/// text of `u` with its query replaced, or removed for `None`.
#[verifier::external_body]
pub(crate) fn replace_query(u: &str, query: Option<&str>) -> (r: Option<String>)
    requires
        u@.len() + match query {
            Some(q) => q@.len(),
            None => 0,
        } <= URL_TEXT_MAX,
    ensures
        text_of(r) == url_with_query(
            u@,
            match query {
                Some(q) => Some(q@),
                None => None,
            },
        ),
{
    match url::Url::parse(u) {
        Ok(mut v) => {
            v.set_query(query);
            Some(String::from(v.as_str()))
        },
        Err(_) => None,
    }
}

} // verus!
