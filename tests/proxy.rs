use async_compression::tokio::write::{BrotliEncoder, DeflateEncoder, GzipEncoder};
use futures_util::FutureExt;
use proxyfor::ca::{same_authority_exec, LeafCache};
use proxyfor::codec::{body_for_record, decompress, fall_back};
use proxyfor::filter::{glob_matches, is_match_title, is_match_type, Filter};
use proxyfor::recorder::{mime_from_value, Headers, Recorder};
use proxyfor::route::{cert_disposition, parse_id, resolve_target, route, strip_query, ResolveError, Route};
use proxyfor::server::{content_type_value, forward_headers, response_encoding, Plan, Server};
use proxyfor::state::State;
use proxyfor::text::{contains, starts_with};
use proxyfor::tunnel::{classify, connect_status, step, Action, Event, Phase, Protocol, Rewind, TunnelError};
use tokio::io::AsyncWriteExt;

fn gzip(data: &[u8]) -> Vec<u8> {
    let mut e = GzipEncoder::new(Vec::new());
    e.write_all(data).now_or_never().unwrap().unwrap();
    e.shutdown().now_or_never().unwrap().unwrap();
    e.into_inner()
}

fn deflate(data: &[u8]) -> Vec<u8> {
    let mut e = DeflateEncoder::new(Vec::new());
    e.write_all(data).now_or_never().unwrap().unwrap();
    e.shutdown().now_or_never().unwrap().unwrap();
    e.into_inner()
}

fn brotli(data: &[u8]) -> Vec<u8> {
    let mut e = BrotliEncoder::new(Vec::new());
    e.write_all(data).now_or_never().unwrap().unwrap();
    e.shutdown().now_or_never().unwrap().unwrap();
    e.into_inner()
}

fn headers(pairs: &[(&str, &str)]) -> Headers {
    pairs.iter().map(|(k, v)| (k.to_string(), v.to_string())).collect()
}

fn forward(plan: Plan) -> (String, Recorder) {
    match plan {
        Plan::Forward(u, r) => (u, r),
        _ => panic!("expected a forwarded request"),
    }
}

#[test]
fn text_helpers() {
    assert!(starts_with("/__proxyfor__/x", "/__proxyfor__"));
    assert!(!starts_with("/x", "/__proxyfor__"));
    assert!(contains("GET https://api.test/x", "api.test"));
    assert!(!contains("GET", "POST"));
    assert!(contains("abc", ""));
}

#[test]
fn glob_matching() {
    assert!(glob_matches("GET https://api.test/*", "GET https://api.test/x"));
    assert!(!glob_matches("GET https://api.test/*", "GET https://other.test/y"));
    assert!(glob_matches("*", ""));
    assert!(glob_matches("a*b*c", "aXXbYc"));
    assert!(!glob_matches("a*b*c", "aXXbY"));
    assert!(glob_matches("", ""));
    assert!(!glob_matches("", "a"));
}

#[test]
fn title_filters() {
    let filters = vec![Filter::new("GET https://api.test/*")];
    assert!(matches!(filters[0], Filter::Glob(_)));
    assert!(is_match_title(&filters, "GET https://api.test/x"));
    assert!(!is_match_title(&filters, "GET https://other.test/y"));
    let sub = vec![Filter::new("api.test")];
    assert!(matches!(sub[0], Filter::Substring(_)));
    assert!(is_match_title(&sub, "POST https://api.test/z"));
    assert!(is_match_title(&vec![], "anything"));
}

#[test]
fn mime_filters() {
    let m = vec!["application/json".to_string()];
    assert!(is_match_type(&m, "application/json; charset=utf-8"));
    assert!(!is_match_type(&m, "text/html"));
    assert!(is_match_type(&vec![], "text/html"));
}

#[test]
fn decode_round_trips() {
    let p = b"hello hello hello proxy".to_vec();
    assert_eq!(decompress(&gzip(&p), "gzip"), Some(p.clone()));
    assert_eq!(decompress(&deflate(&p), "deflate"), Some(p.clone()));
    assert_eq!(decompress(&brotli(&p), "br"), Some(p.clone()));
    let e: Vec<u8> = Vec::new();
    assert_eq!(decompress(&gzip(&e), "gzip"), Some(e.clone()));
}

#[test]
fn decode_not_applicable() {
    assert_eq!(decompress(b"plain", "identity"), None);
    assert_eq!(decompress(b"plain", ""), None);
    assert_eq!(decompress(b"not gzip at all", "gzip"), None);
    let g = gzip(b"truncated body here");
    assert_eq!(decompress(&g[..g.len() / 2], "gzip"), None);
}

#[test]
fn recorded_body_falls_back() {
    assert_eq!(body_for_record(b"raw", "x-unknown"), b"raw".to_vec());
    assert_eq!(body_for_record(&gzip(b"ok"), "gzip"), b"ok".to_vec());
    assert_eq!(body_for_record(b"broken", "br"), b"broken".to_vec());
    assert_eq!(fall_back(b"raw", Some(b"dec".to_vec())), b"dec".to_vec());
    assert_eq!(fall_back(b"raw", None), b"raw".to_vec());
}

#[test]
fn resolve_targets() {
    let base = Some("http://example.test".to_string());
    assert_eq!(resolve_target("/hello", &base), Ok("http://example.test/hello".to_string()));
    assert_eq!(resolve_target("/", &base), Ok("http://example.test".to_string()));
    assert_eq!(resolve_target("http://a.test/x", &None), Ok("http://a.test/x".to_string()));
    assert_eq!(resolve_target("/__proxyfor__/traffics", &None), Ok("/__proxyfor__/traffics".to_string()));
    assert_eq!(resolve_target("/foo", &None), Err(ResolveError::NoReverseProxyUrl));
}

#[test]
fn routes() {
    assert_eq!(route("http://proxyfor.local/"), Route::CertIndex);
    assert_eq!(route("http://proxyfor.local/proxyfor-ca-cert.pem"), Route::CertFile(true));
    assert_eq!(route("http://proxyfor.local/proxyfor-ca-cert.cer?x=1"), Route::CertFile(false));
    assert_eq!(route("http://proxyfor.local/other"), Route::CertNotFound);
    assert_eq!(route("/__proxyfor__"), Route::WebuiIndex);
    assert_eq!(route("/__proxyfor__/"), Route::WebuiIndex);
    assert_eq!(route("/__proxyfor__/subscribe"), Route::Subscribe);
    assert_eq!(route("/__proxyfor__/traffics?all"), Route::ListTraffics);
    assert_eq!(route("/__proxyfor__/traffic/12"), Route::TrafficInfo(Some(12)));
    assert_eq!(route("/__proxyfor__/traffic/abc"), Route::TrafficInfo(None));
    assert_eq!(route("/__proxyfor__/nope"), Route::WebuiNotFound);
    assert_eq!(route("http://example.test/hello"), Route::Forward);
    assert_eq!(strip_query("/a?b?c"), "/a".to_string());
    assert_eq!(cert_disposition(true), "attachment; filename=\"proxyfor-ca-cert.pem\"".to_string());
}

#[test]
fn id_parsing() {
    assert_eq!(parse_id("0"), Some(0));
    assert_eq!(parse_id("+7"), Some(7));
    assert_eq!(parse_id("18446744073709551615"), Some(u64::MAX));
    assert_eq!(parse_id("18446744073709551616"), None);
    assert_eq!(parse_id(""), None);
    assert_eq!(parse_id("+"), None);
    assert_eq!(parse_id("-1"), None);
    assert_eq!(parse_id("1a"), None);
}

#[test]
fn mime_of_content_type() {
    assert_eq!(mime_from_value("text/html; charset=UTF-8"), "text/html".to_string());
    assert_eq!(mime_from_value("application/json"), "application/json".to_string());
    let hs = headers(&[("content-encoding", "br"), ("content-type", "a/b"), ("content-encoding", "gzip")]);
    assert_eq!(content_type_value(&hs), Some("a/b".to_string()));
    assert_eq!(response_encoding(&hs), "gzip".to_string());
    assert_eq!(response_encoding(&headers(&[])), "".to_string());
}

#[test]
fn host_is_not_forwarded() {
    let hs = headers(&[("host", "x"), ("accept", "*/*"), ("a", "1"), ("a", "2")]);
    assert_eq!(forward_headers(&hs), headers(&[("accept", "*/*"), ("a", "1"), ("a", "2")]));
}

#[test]
fn store_ids_in_arrival_order() {
    let mut s = State::new();
    for (i, u) in ["/a", "/b", "/c"].iter().enumerate() {
        let h = s.add_traffic(Recorder::new(u, "GET", 0).take_traffic(1));
        assert_eq!(h.id, i as u64 + 1);
    }
    let list = s.list();
    assert_eq!(list.iter().map(|h| h.id).collect::<Vec<_>>(), vec![1, 2, 3]);
    assert_eq!(list[1].uri, "/b");
    assert_eq!(s.get_traffic(2).unwrap().uri, "/b");
    assert!(s.get_traffic(0).is_none());
    assert!(s.get_traffic(4).is_none());
}

#[test]
fn new_id_not_in_earlier_listing() {
    let mut s = State::new();
    s.add_traffic(Recorder::new("/a", "GET", 0).take_traffic(0));
    let snapshot = s.list();
    let h = s.add_traffic(Recorder::new("/b", "GET", 0).take_traffic(0));
    assert!(snapshot.iter().all(|x| x.id != h.id));
}

#[test]
fn request_body_read_back() {
    let mut server = Server::new(None, vec![], vec![]);
    let (url, mut rec) = forward(server.plan("http://a.test/p", "POST", 5));
    assert_eq!(url, "http://a.test/p");
    rec.set_req_body(b"payload".to_vec());
    let h = server.take_recorder(rec, 6);
    let t = server.state.get_traffic(h.id).unwrap();
    assert_eq!(t.req_body, b"payload".to_vec());
    assert_eq!(t.start, 5);
    assert_eq!(t.end, Some(6));
}

#[test]
fn empty_bodies_recorded_empty() {
    let server = Server::new(None, vec![], vec![]);
    let mut rec = Recorder::new("http://a.test/", "GET", 0);
    rec.set_req_body(Vec::new());
    let down = server.on_response(&mut rec, 204, headers(&[("content-encoding", "gzip")]), Vec::new());
    assert!(down.is_empty());
    let t = rec.take_traffic(1);
    assert_eq!(t.req_body, Vec::<u8>::new());
    assert_eq!(t.res_body, Some(Vec::new()));
    assert_eq!(t.res_raw_body, Some(Vec::new()));
}

#[test]
fn unknown_encoding_kept() {
    let server = Server::new(None, vec![], vec![]);
    let mut rec = Recorder::new("http://a.test/", "GET", 0);
    let down = server.on_response(&mut rec, 200, headers(&[("content-encoding", "zstd")]), b"abc".to_vec());
    assert_eq!(down, b"abc".to_vec());
    assert_eq!(rec.traffic.res_body, Some(b"abc".to_vec()));
}

#[test]
fn connect_without_authority() {
    assert_eq!(connect_status(false), 400);
    assert_eq!(connect_status(true), 200);
}

#[test]
fn peek_classification() {
    assert_eq!(classify(b"GET "), Protocol::Http);
    assert_eq!(classify(&[0x16, 0x03, 0x01, 0x00]), Protocol::Tls);
    assert_eq!(classify(&[0x16, 0x03]), Protocol::Tls);
    assert_eq!(classify(b"POST"), Protocol::Opaque);
    assert_eq!(classify(b"GE"), Protocol::Opaque);
    assert_eq!(classify(b""), Protocol::Opaque);
}

#[test]
fn tunnel_tls_path() {
    let s = step(Phase::Upgrading, Event::Upgraded);
    assert_eq!((s.phase, s.action), (Phase::Peeking, Action::ReadPeek));
    let s = step(Phase::Peeking, Event::Peeked(vec![0x16, 0x03, 0x01, 0x02]));
    assert_eq!((s.phase, s.action), (Phase::MintingConfig, Action::MintConfig));
    let s = step(Phase::MintingConfig, Event::ConfigReady);
    assert_eq!((s.phase, s.action), (Phase::AcceptingTls, Action::AcceptTls));
    let s = step(Phase::AcceptingTls, Event::TlsAccepted);
    assert_eq!((s.phase, s.action), (Phase::ServingHttps, Action::ServeHttps));
    let s = step(Phase::ServingHttps, Event::ServeEnded(Some("error shutting down connection: x".to_string())));
    assert_eq!((s.phase, s.action), (Phase::Done, Action::Finish));
    assert!(s.error.is_none());
    let s = step(Phase::ServingHttps, Event::ServeEnded(Some("broken".to_string())));
    assert!(matches!(s.error, Some(TunnelError::Serve(true, ref m)) if m == "broken"));
}

#[test]
fn tunnel_errors() {
    let s = step(Phase::Upgrading, Event::UpgradeFailed("u".to_string()));
    assert!(matches!(s.error, Some(TunnelError::Upgrade(_))));
    let s = step(Phase::Peeking, Event::PeekFailed("p".to_string()));
    assert!(matches!(s.error, Some(TunnelError::PeekRead(_))));
    let s = step(Phase::MintingConfig, Event::ConfigFailed("c".to_string()));
    assert!(matches!(s.error, Some(TunnelError::ServerConfig(_))));
    let s = step(Phase::AcceptingTls, Event::TlsFailed("t".to_string()));
    assert!(matches!(s.error, Some(TunnelError::TlsAccept(_))));
    let s = step(Phase::ServingHttp, Event::ServeEnded(Some("error shutting down connection".to_string())));
    assert!(matches!(s.error, Some(TunnelError::Serve(false, _))));
    let s = step(Phase::Connecting, Event::ConnectFailed("refused".to_string()));
    assert!(matches!(s.error, Some(TunnelError::Connect(_))));
    let s = step(Phase::Copying, Event::CopyEnded(Some("reset".to_string())));
    assert!(matches!(s.error, Some(TunnelError::Relay(_))));
    let s = step(Phase::Copying, Event::CopyEnded(None));
    assert!(s.error.is_none());
    assert_eq!(s.action, Action::Finish);
    let s = step(Phase::Done, Event::Upgraded);
    assert_eq!((s.phase, s.action), (Phase::Done, Action::Finish));
}

#[test]
fn rewind_yields_peeked_then_rest() {
    let mut w = Rewind::new(b"GET ".to_vec());
    let mut seen = Vec::new();
    seen.extend(w.read_prefix(3));
    assert!(!w.is_drained());
    seen.extend(w.read_prefix(3));
    assert!(w.is_drained());
    assert!(w.read_prefix(8).is_empty());
    seen.extend(b"/ HTTP/1.1");
    assert_eq!(seen, b"GET / HTTP/1.1".to_vec());
}

#[test]
fn leaf_cache_per_authority() {
    let mut c: LeafCache<u32> = LeafCache::new();
    assert!(c.get("upstream.test:443").is_none());
    c.insert("upstream.test:443".to_string(), 1);
    assert_eq!(c.get("upstream.test:443"), Some(&1));
    assert_eq!(c.get("UPSTREAM.test"), Some(&1));
    assert!(c.get("other.test:443").is_none());
    c.insert("other.test:443".to_string(), 2);
    assert_eq!(c.get("other.test"), Some(&2));
    assert_eq!(c.get("upstream.test:443"), Some(&1));
    assert!(same_authority_exec("A.test:80", "a.TEST"));
    assert!(!same_authority_exec("a.test:8080", "a.test"));
}

#[test]
fn scenario_reverse_proxy_get() {
    let mut server = Server::new(Some("http://example.test".to_string()), vec![], vec![]);
    let (url, mut rec) = forward(server.plan("/hello", "GET", 0));
    assert_eq!(url, "http://example.test/hello");
    let down = server.on_response(&mut rec, 200, headers(&[("content-type", "text/plain")]), b"hi".to_vec());
    assert_eq!(down, b"hi".to_vec());
    server.take_recorder(rec, 1);
    let list = server.state.list();
    assert_eq!(list.len(), 1);
    assert_eq!(list[0].id, 1);
    assert_eq!(list[0].method, "GET");
    assert_eq!(list[0].uri, "http://example.test/hello");
    assert_eq!(list[0].status, Some(200));
    assert_eq!(list[0].mime, "text/plain");
}

#[test]
fn scenario_tls_gzip() {
    let mut server = Server::new(None, vec![], vec![]);
    match server.plan("upstream.test:443", "CONNECT", 0) {
        Plan::Connect(rec) => assert!(!rec.is_dump()),
        _ => panic!("expected a tunnel"),
    }
    let (url, mut rec) = forward(server.plan("https://upstream.test/a", "GET", 0));
    assert_eq!(url, "https://upstream.test/a");
    let gz = gzip(b"ok");
    let down = server.on_response(&mut rec, 200, headers(&[("content-encoding", "gzip")]), gz.clone());
    assert_eq!(down, gz);
    let h = server.take_recorder(rec, 1);
    let t = server.state.get_traffic(h.id).unwrap();
    assert_eq!(t.res_body, Some(b"ok".to_vec()));
    assert_eq!(t.res_raw_body, Some(gz));
}

#[test]
fn scenario_title_filter_dump() {
    let mut server = Server::new(None, vec![Filter::new("GET https://api.test/*")], vec![]);
    let (_, a) = forward(server.plan("https://api.test/x", "GET", 0));
    let (_, b) = forward(server.plan("https://other.test/y", "GET", 0));
    assert!(a.is_dump());
    assert!(!b.is_dump());
    server.take_recorder(a, 1);
    server.take_recorder(b, 1);
    assert_eq!(server.state.len(), 2);
}

#[test]
fn scenario_mime_filter_dump() {
    let server = Server::new(None, vec![], vec!["application/json".to_string()]);
    let mut rec = Recorder::new("http://a.test/", "GET", 0);
    server.on_response(&mut rec, 200, headers(&[("content-type", "text/html")]), b"<p>".to_vec());
    assert!(!rec.is_dump());
    let mut rec = Recorder::new("http://a.test/", "GET", 0);
    server.on_response(&mut rec, 200, headers(&[]), b"<p>".to_vec());
    assert!(rec.is_dump());
}

#[test]
fn scenario_unknown_protocol_tunnel() {
    let s = step(Phase::Peeking, Event::Peeked(b"HELO".to_vec()));
    assert_eq!((s.phase, s.action), (Phase::Connecting, Action::ConnectTcp));
    assert!(matches!(s.error, Some(TunnelError::UnknownProtocol(ref b)) if b == b"HELO"));
    let s = step(Phase::Connecting, Event::Connected);
    assert_eq!((s.phase, s.action), (Phase::Copying, Action::CopyBidirectional));
}

#[test]
fn scenario_no_reverse_proxy_url() {
    let mut server = Server::new(None, vec![], vec![]);
    match server.plan("/foo", "GET", 3) {
        Plan::Failed(h, msg) => {
            assert_eq!(msg, "No reverse proxy url");
            assert_eq!(h.id, 1);
            assert_eq!(h.uri, "/foo");
            assert_eq!(h.status, None);
        }
        _ => panic!("expected a failure"),
    }
    let t = server.state.get_traffic(1).unwrap();
    assert_eq!(t.errors, vec!["No reverse proxy url".to_string()]);
}

#[test]
fn scenario_published_heads_in_order() {
    let mut server = Server::new(Some("http://example.test".to_string()), vec![], vec![]);
    let mut published = Vec::new();
    for p in ["/1", "/2", "/3"] {
        let (_, mut rec) = forward(server.plan(p, "GET", 0));
        server.on_response(&mut rec, 200, headers(&[]), Vec::new());
        published.push(server.take_recorder(rec, 0).id);
    }
    assert_eq!(published, vec![1, 2, 3]);
}

#[test]
fn control_paths_are_not_recorded() {
    let mut server = Server::new(None, vec![], vec![]);
    assert!(matches!(server.plan("/__proxyfor__/traffics", "GET", 0), Plan::Control(Route::ListTraffics)));
    assert!(matches!(server.plan("http://proxyfor.local/", "GET", 0), Plan::Control(Route::CertIndex)));
    assert_eq!(server.state.len(), 0);
}
