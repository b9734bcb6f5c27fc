use wallout::conf::proxy_pass_location_conf::ProxyPassLocationConf;
use wallout::conf::tunnal_conf::superior_conf::SuperiorConf;
use wallout::error::AppError;
use wallout::svc::rerverse::{MessageHead, RerverseSvc, SuperiorConnection};
use wallout::uri::UriParts;

fn uri_of(text: &str) -> UriParts {
    let u: http::Uri = text.parse().unwrap();
    UriParts {
        text: u.to_string(),
        scheme: u.scheme_str().map(|s| s.to_string()),
        host: u.host().map(|s| s.to_string()),
        port: u.port_u16(),
        path: u.path().to_string(),
        query: u.query().map(|s| s.to_string()),
    }
}

fn loc(matcher: &str, proxy_pass: &str, replace_re: &str, replace_to: &str) -> ProxyPassLocationConf {
    ProxyPassLocationConf {
        matcher: matcher.to_string(),
        proxy_pass: proxy_pass.to_string(),
        replace_re: replace_re.to_string(),
        replace_to: replace_to.to_string(),
    }
}

fn list(fields: &[(&str, &[u8])]) -> http::HeaderMap {
    let mut m = http::HeaderMap::new();
    for (n, v) in fields {
        m.append(http::header::HeaderName::from_bytes(n.as_bytes()).unwrap(), http::HeaderValue::from_bytes(v).unwrap());
    }
    m
}

fn pairs(h: &http::HeaderMap) -> Vec<(String, Vec<u8>)> {
    h.iter().map(|(k, v)| (k.as_str().to_string(), v.as_bytes().to_vec())).collect()
}

fn value(h: &http::HeaderMap, name: &str) -> Option<Vec<u8>> {
    h.get(name).map(|v| v.as_bytes().to_vec())
}

fn svc() -> RerverseSvc<()> {
    RerverseSvc::new((), "proxy.local:8999")
}

fn superior(uri: &str, user: Option<&str>, password: Option<&str>) -> SuperiorConf {
    SuperiorConf {
        id: "up".to_string(),
        uri: uri_of(uri),
        username: user.map(|s| s.to_string()),
        password: password.map(|s| s.to_string()),
    }
}

#[test]
fn first_applicable_location_rewrites_the_target() {
    let locs = vec![loc("^/other", "b.com", "", ""), loc("^/api", "backend:8080", "", "")];
    let u = svc().create_proxied_uri(&locs, &uri_of("http://a.com/api/v1?x=1")).ok().unwrap();
    assert_eq!(u.text, "http://backend:8080/api/v1?x=1");
    assert_eq!(u.host.as_deref(), Some("backend"));
    assert_eq!(u.port, Some(8080));
}

#[test]
fn location_rewrites_the_path() {
    let locs = vec![loc("^/api", "backend", "^/api", "/v2")];
    let u = svc().create_proxied_uri(&locs, &uri_of("https://a.com/api/items")).ok().unwrap();
    assert_eq!(u.text, "https://backend/v2/items?");
    assert_eq!(u.query.as_deref(), Some(""));
}

#[test]
fn broken_patterns_are_skipped() {
    let locs = vec![loc("(", "x.com", "", ""), loc("^/", "bad.com", "(", ""), loc("^/", "good.com", "", "")];
    let u = svc().create_proxied_uri(&locs, &uri_of("http://a.com/p")).ok().unwrap();
    assert_eq!(u.text, "http://good.com/p?");
}

#[test]
fn no_location_gives_no_match() {
    let locs = vec![loc("^/api", "backend", "", "")];
    match svc().create_proxied_uri(&locs, &uri_of("http://a.com/web")) {
        Err(AppError::UriError(m)) => assert_eq!(m, "No match"),
        _ => panic!("expected no match"),
    }
}

#[test]
fn host_and_port_of_a_target() {
    assert_eq!(svc().parse_hostport(&uri_of("http://a.com:81/")).ok(), Some("a.com:81".to_string()));
    assert_eq!(svc().parse_hostport(&uri_of("http://a.com/")).ok(), Some("a.com".to_string()));
    match svc().parse_hostport(&uri_of("/only/path")) {
        Err(AppError::UriError(m)) => assert_eq!(m, "No host found"),
        _ => panic!("expected an error"),
    }
}

#[test]
fn direct_request_drops_hop_headers_and_is_retargeted() {
    let locs = vec![loc("^/", "backend:9000", "", "")];
    let head = MessageHead {
        uri: uri_of("http://a.com/x"),
        headers: list(&[("connection", b"close"), ("host", b"a.com"), ("accept", b"*/*")]),
    };
    let m = svc().create_proxied_request(&locs, "10.0.0.1", head, None).ok().unwrap();
    assert_eq!(m.uri.text, "http://backend:9000/x?");
    assert_eq!(pairs(&m.headers), vec![
        ("host".to_string(), b"backend:9000".to_vec()),
        ("accept".to_string(), b"*/*".to_vec()),
        ("x-forwarded-for".to_string(), b"10.0.0.1, proxy.local:8999".to_vec()),
    ]);
}

#[test]
fn forwarded_for_is_extended() {
    let head = MessageHead {
        uri: uri_of("http://a.com/x"),
        headers: list(&[("x-forwarded-for", b"1.1.1.1")]),
    };
    let m = svc().create_proxied_request(&vec![], "10.0.0.1", head, None).ok().unwrap();
    assert_eq!(m.uri.text, "http://a.com/x");
    assert_eq!(value(&m.headers, "x-forwarded-for"), Some(b"1.1.1.1, proxy.local:8999".to_vec()));
}

#[test]
fn unreadable_forwarded_for_is_refused() {
    let head = MessageHead {
        uri: uri_of("http://a.com/x"),
        headers: list(&[("x-forwarded-for", &[0xffu8, 0x41u8])]),
    };
    match svc().create_proxied_request(&vec![], "10.0.0.1", head, None) {
        Err(AppError::ForwardHeaderError) => {},
        _ => panic!("expected a header error"),
    }
}

#[test]
fn request_through_superior_carries_credentials() {
    let sup = superior("http://up.local:3128", Some("user"), Some("pass"));
    let head = MessageHead {
        uri: uri_of("http://a.com/x"),
        headers: list(&[("connection", b"keep-alive")]),
    };
    let m = svc().create_proxied_request(&vec![], "10.0.0.1", head, Some(&sup)).ok().unwrap();
    assert_eq!(value(&m.headers, "proxy-authorization"), Some(b"Basic dXNlcjpwYXNz".to_vec()));
    assert_eq!(value(&m.headers, "connection"), Some(b"keep-alive".to_vec()));
}

#[test]
fn request_without_scheme_cannot_be_rewritten() {
    let locs = vec![loc("^/", "backend", "", "")];
    let head = MessageHead { uri: uri_of("/x"), headers: list(&[]) };
    assert!(svc().prepare_request(&locs, "10.0.0.1", head, None).is_none());
    let head = MessageHead { uri: uri_of("/x"), headers: list(&[]) };
    assert!(svc().prepare_request(&vec![loc("^/api", "b", "", "")], "10.0.0.1", head, None).is_some());
}

#[test]
fn response_location_is_rewritten() {
    let locs = vec![loc("^/login", "public.example.com", "", "")];
    let h = list(&[("location", b"http://internal/login?next=1"), ("transfer-encoding", b"chunked")]);
    let r = svc().prepare_response(&locs, &h).unwrap().ok().unwrap();
    assert_eq!(pairs(&r), vec![("location".to_string(), b"http://public.example.com/login?next=1".to_vec())]);
}

#[test]
fn unreadable_location_is_not_returned() {
    let h = list(&[("location", &[0xc3u8, 0xa9u8])]);
    assert!(svc().prepare_response(&vec![], &h).is_none());
    let h = list(&[("location", b"http://internal/x")]);
    let r = svc().prepare_response(&vec![], &h).unwrap().ok().unwrap();
    assert_eq!(value(&r, "location"), Some(b"http://internal/x".to_vec()));
}

#[test]
fn failed_forwarding_replies() {
    assert_eq!(RerverseSvc::<()>::error_reply(&AppError::ConfigError("bad".to_string())), (400, "bad".to_string()));
    assert_eq!(RerverseSvc::<()>::error_reply(&AppError::UriError("No match".to_string())), (400, "No match".to_string()));
    assert_eq!(RerverseSvc::<()>::error_reply(&AppError::RuntimeError("down".to_string())), (500, "down".to_string()));
    assert_eq!(RerverseSvc::<()>::error_reply(&AppError::ForwardHeaderError), (400, "Unknown Error".to_string()));
    let io = std::io::Error::new(std::io::ErrorKind::Other, "boom");
    assert_eq!(RerverseSvc::<()>::error_reply(&AppError::IOError(io)), (400, "IO Error:  boom".to_string()));
    let bad: http::uri::InvalidUri = "a b".parse::<http::Uri>().err().unwrap();
    let text = bad.to_string();
    assert_eq!(RerverseSvc::<()>::error_reply(&AppError::InvalidUri(bad)), (400, text));
}

#[test]
fn superior_connection_choice() {
    let s = superior("https://up.local:3128", None, None);
    assert!(matches!(RerverseSvc::<()>::superior_connection(&s, true), Ok(SuperiorConnection::Tls(h)) if h == "up.local"));
    let s = superior("http://up.local:3128", None, None);
    assert!(matches!(RerverseSvc::<()>::superior_connection(&s, true), Ok(SuperiorConnection::Plain)));
    let s = superior("up.local:3128", None, None);
    assert!(matches!(RerverseSvc::<()>::superior_connection(&s, true), Ok(SuperiorConnection::Tls(_))));
    match RerverseSvc::<()>::superior_connection(&s, false) {
        Err(AppError::RuntimeError(m)) => assert_eq!(m, "Can't parse superior address"),
        _ => panic!("expected an error"),
    }
    let s = superior("/nohost", None, None);
    match RerverseSvc::<()>::superior_connection(&s, true) {
        Err(AppError::RuntimeError(m)) => assert_eq!(m, "Can't parse superior host: /nohost"),
        _ => panic!("expected an error"),
    }
}

#[test]
fn too_many_header_names_are_refused() {
    let mut h = http::HeaderMap::new();
    for i in 0..6554 {
        h.insert(http::header::HeaderName::from_bytes(format!("x-{}", i).as_bytes()).unwrap(), http::HeaderValue::from_static("1"));
    }
    match svc().prepare_response(&vec![], &h) {
        Some(Err(AppError::RuntimeError(m))) => assert_eq!(m, "Too many header names"),
        _ => panic!("expected a runtime error"),
    }
    let head = MessageHead { uri: uri_of("http://a.com/x"), headers: h };
    match svc().prepare_request(&vec![], "10.0.0.1", head, None) {
        Some(Err(AppError::RuntimeError(m))) => assert_eq!(m, "Too many header names"),
        _ => panic!("expected a runtime error"),
    }
}
