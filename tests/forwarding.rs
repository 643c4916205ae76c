use fserv::forward::{
    build_upstream_request, is_connection_header, relay_headers, relay_response, upstream_headers,
    upstream_url, ForwardError, Header, IncomingRequest, Reply,
};
use fserv::config::ServerConfig;
use fserv::dispatch::{dispatch, Outcome};
use fserv::routes::{ProxyBinding, RouteTable};

fn header(name: &str, value: &[u8]) -> Header {
    Header { name: name.to_string(), value: value.to_vec() }
}

fn pairs(hs: &[Header]) -> Vec<(String, Vec<u8>)> {
    hs.iter().map(|h| (h.name.clone(), h.value.clone())).collect()
}

fn request(path: &str, query: Option<&str>, peer: Option<&str>) -> IncomingRequest {
    IncomingRequest {
        method: "POST".to_string(),
        path: path.to_string(),
        query: query.map(|q| q.to_string()),
        headers: vec![header("x-one", b"1"), header("Y-Two", b"two \xff")],
        body: b"hello\x00world".to_vec(),
        peer: peer.map(|p| p.to_string()),
    }
}

#[test]
fn upstream_url_keeps_full_path_and_query() {
    assert_eq!(
        upstream_url("http://localhost:9010/", "/api/list", None).unwrap(),
        "http://localhost:9010/api/list"
    );
    assert_eq!(
        upstream_url("http://localhost:9010/", "/api/list", Some("page=2&x=y")).unwrap(),
        "http://localhost:9010/api/list?page=2&x=y"
    );
    assert_eq!(
        upstream_url("http://localhost:9010/base?old=1#frag", "/ws/updates", None).unwrap(),
        "http://localhost:9010/ws/updates#frag"
    );
    assert_eq!(
        upstream_url("http://localhost:9010/", "/api/some comments", Some("")).unwrap(),
        "http://localhost:9010/api/some%20comments?"
    );
}

#[test]
fn upstream_url_errors() {
    assert_eq!(upstream_url("not a url", "/api", None), Err(ForwardError::UrlRejected));
    let long = "a".repeat(0x0100_0000);
    assert_eq!(upstream_url("http://h/", &long, None), Err(ForwardError::UrlTooLong));
}

#[test]
fn connection_header_is_recognised_in_any_case() {
    assert!(is_connection_header("connection"));
    assert!(is_connection_header("Connection"));
    assert!(is_connection_header("CONNECTION"));
    assert!(!is_connection_header("connections"));
    assert!(!is_connection_header("keep-alive"));
    assert!(!is_connection_header(""));
}

#[test]
fn relayed_headers_drop_connection_only() {
    let hs = vec![
        header("content-type", b"text/plain"),
        header("Connection", b"close"),
        header("x-a", b"1"),
        header("connection", b"keep-alive"),
        header("x-a", b"2"),
    ];
    let r = relay_headers(&hs);
    assert_eq!(
        pairs(&r),
        vec![
            ("content-type".to_string(), b"text/plain".to_vec()),
            ("x-a".to_string(), b"1".to_vec()),
            ("x-a".to_string(), b"2".to_vec()),
        ]
    );
    assert!(relay_headers(&vec![]).is_empty());
}

#[test]
fn client_ip_header_added_when_peer_known() {
    let hs = vec![header("x-one", b"1")];
    let r = upstream_headers(hs, Some("10.0.0.7"));
    assert_eq!(
        pairs(&r),
        vec![
            ("x-one".to_string(), b"1".to_vec()),
            ("x-forwarded-for".to_string(), b"10.0.0.7".to_vec()),
        ]
    );
    let r = upstream_headers(vec![header("x-one", b"1")], None);
    assert_eq!(pairs(&r), vec![("x-one".to_string(), b"1".to_vec())]);
}

#[test]
fn upstream_request_copies_request() {
    let b = ProxyBinding {
        path_prefix: "api".to_string(),
        upstream: "http://localhost:9010/".to_string(),
    };
    let out = build_upstream_request(request("/api/list", Some("a=1"), Some("127.0.0.1")), &b).unwrap();
    assert_eq!(out.method, "POST");
    assert_eq!(out.url, "http://localhost:9010/api/list?a=1");
    assert_eq!(out.body, b"hello\x00world".to_vec());
    assert_eq!(
        pairs(&out.headers),
        vec![
            ("x-one".to_string(), b"1".to_vec()),
            ("Y-Two".to_string(), b"two \xff".to_vec()),
            ("x-forwarded-for".to_string(), b"127.0.0.1".to_vec()),
        ]
    );
}

#[test]
fn upstream_request_error_on_bad_base() {
    let b = ProxyBinding { path_prefix: "api".to_string(), upstream: "nope".to_string() };
    assert!(matches!(
        build_upstream_request(request("/api/list", None, None), &b),
        Err(ForwardError::UrlRejected)
    ));
}

#[test]
fn echo_round_trip() {
    let b = ProxyBinding {
        path_prefix: "api".to_string(),
        upstream: "http://localhost:9010/".to_string(),
    };
    let mut req = request("/api/echo", None, None);
    req.headers.push(header("connection", b"keep-alive"));
    let out = build_upstream_request(req, &b).unwrap();
    let echoed = Reply { status: 201, headers: out.headers, body: out.body };
    let down = relay_response(echoed);
    assert_eq!(down.status, 201);
    assert_eq!(down.body, b"hello\x00world".to_vec());
    assert_eq!(
        pairs(&down.headers),
        vec![
            ("x-one".to_string(), b"1".to_vec()),
            ("Y-Two".to_string(), b"two \xff".to_vec()),
        ]
    );
}

#[test]
fn relayed_response_keeps_status_and_body() {
    let up = Reply {
        status: 502,
        headers: vec![header("connection", b"close"), header("content-encoding", b"gzip")],
        body: vec![0x1f, 0x8b, 0x08],
    };
    let down = relay_response(up);
    assert_eq!(down.status, 502);
    assert_eq!(down.body, vec![0x1f, 0x8b, 0x08]);
    assert_eq!(pairs(&down.headers), vec![("content-encoding".to_string(), b"gzip".to_vec())]);
}

#[test]
fn dispatched_request_goes_to_first_binding_with_full_path() {
    let cfg = ServerConfig {
        port: 9000,
        directory: "build".to_string(),
        index_file: "index.html".to_string(),
        spa: true,
        workers: 1,
        routes: RouteTable::new(vec![
            ProxyBinding { path_prefix: "api".to_string(), upstream: "http://localhost:9010/".to_string() },
            ProxyBinding { path_prefix: "api/v2".to_string(), upstream: "http://localhost:9020/".to_string() },
        ]),
    };
    let r = dispatch(&cfg, "/api/v2/x", false);
    assert_eq!(r, Outcome::Forward(0));
    let out = build_upstream_request(request("/api/v2/x", Some("q=1"), Some("::1")), &cfg.routes.bindings[0]).unwrap();
    assert_eq!(out.url, "http://localhost:9010/api/v2/x?q=1");
    let echoed = Reply { status: 200, headers: out.headers, body: out.body };
    let down = relay_response(echoed);
    assert_eq!(
        pairs(&down.headers),
        vec![
            ("x-one".to_string(), b"1".to_vec()),
            ("Y-Two".to_string(), b"two \xff".to_vec()),
            ("x-forwarded-for".to_string(), b"::1".to_vec()),
        ]
    );
}
