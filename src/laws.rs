//! Properties that relate the route table, the dispatcher and the
//! forwarding engine, proved over their contracts.

use vstd::prelude::*;
use crate::config::ServerConfig;
use crate::dispatch::{dispatched, is_root, local_status, serves_index, Outcome};
use crate::forward::{
    forwards_as, has_no_connection, headers_view, lemma_without_connection_keeps_clean,
    relays_as, with_client_ip, without_connection, IncomingRequest, Reply, UpstreamRequest,
};
use crate::routes::{binding_matches, no_match};
use crate::url_text::{text_of, url_with_path, url_with_query};

verus! {

/// A request that the dispatcher forwards through a binding goes to that
/// binding's base URL with the whole request path, its prefix not
/// stripped, and with the request's own query.
pub proof fn law_forward_keeps_full_path(
    cfg: ServerConfig,
    static_file: bool,
    i: usize,
    req: IncomingRequest,
    out: UpstreamRequest,
)
    requires
        dispatched(cfg, req.path@, static_file, Outcome::Forward(i)),
        forwards_as(req, cfg.routes.bindings@[i as int], out),
    ensures
        binding_matches(cfg.routes.bindings@[i as int], req.path@),
        exists|t: Seq<char>|
            url_with_path(cfg.routes.bindings@[i as int].upstream@, req.path@) == Some(t)
                && #[trigger] url_with_query(t, text_of(req.query)) == Some(out.url@),
{
    let t = url_with_path(cfg.routes.bindings@[i as int].upstream@, req.path@).unwrap();
    assert(url_with_query(t, text_of(req.query)) == Some(out.url@));
}

/// Where several bindings match a path, the one configured first is chosen.
pub proof fn law_first_binding_wins(cfg: ServerConfig, path: Seq<char>, static_file: bool, i: usize, j: int)
    requires
        dispatched(cfg, path, static_file, Outcome::Forward(i)),
        0 <= j < cfg.routes.bindings@.len(),
        binding_matches(cfg.routes.bindings@[j], path),
    ensures
        i <= j,
{
    if j < i {
        assert(!binding_matches(cfg.routes.bindings@[j], path));
    }
}

/// With single-page mode on, a path that no binding matches and for which
/// no static file exists is answered with the index file and status 200.
pub proof fn law_spa_fallback(cfg: ServerConfig, path: Seq<char>, r: Outcome)
    requires
        cfg.spa,
        no_match(cfg.routes.bindings@, path),
        dispatched(cfg, path, false, r),
    ensures
        serves_index(r),
        local_status(r) == Some(200u16),
{
    match r {
        Outcome::Forward(i) => {
            assert(binding_matches(cfg.routes.bindings@[i as int], path));
        },
        _ => {},
    }
}

/// With single-page mode off, a path other than the root that no binding
/// matches and for which no static file exists is answered with 404.
pub proof fn law_spa_disabled(cfg: ServerConfig, path: Seq<char>, r: Outcome)
    requires
        !cfg.spa,
        no_match(cfg.routes.bindings@, path),
        !is_root(path),
        dispatched(cfg, path, false, r),
    ensures
        r == Outcome::NotFound,
        local_status(r) == Some(404u16),
{
    match r {
        Outcome::Forward(i) => {
            assert(binding_matches(cfg.routes.bindings@[i as int], path));
        },
        _ => {},
    }
}

/// Through an upstream that echoes the request it receives, the client gets
/// back the echoed status, its own body, and its own headers (with the
/// client-address header where the peer is known), the connection header
/// alone left out; a request with neither gets exactly its own headers.
pub proof fn law_echo_round_trip(
    req: IncomingRequest,
    binding: crate::routes::ProxyBinding,
    out: UpstreamRequest,
    up: Reply,
    down: Reply,
)
    requires
        forwards_as(req, binding, out),
        headers_view(up.headers@) == headers_view(out.headers@),
        up.body@ == out.body@,
        relays_as(up, down),
    ensures
        down.status == up.status,
        down.body@ == req.body@,
        headers_view(down.headers@) == without_connection(
            with_client_ip(headers_view(req.headers@), text_of(req.peer)),
        ),
        has_no_connection(headers_view(req.headers@)) && req.peer.is_none() ==> headers_view(
            down.headers@,
        ) == headers_view(req.headers@),
{
    if has_no_connection(headers_view(req.headers@)) && req.peer.is_none() {
        lemma_without_connection_keeps_clean(headers_view(req.headers@));
    }
}

} // verus!
