use wallout::conf::tunnal_conf::superior_conf::SuperiorConf;
use wallout::error::AppError;
use wallout::svc::tunnal::stream::{HttpTunnalState, HttpTunnalStream};
use wallout::svc::tunnal::{tls_server_name, TunnalSvc, TunnelPlan};
use wallout::uri::UriParts;

fn uri_of(text: &str) -> UriParts {
    let u: http::Uri = text.parse().unwrap();
    UriParts {
        text: u.to_string(),
        scheme: u.scheme_str().map(|s| s.to_string()),
        host: u.host().map(|s| s.to_string()),
        port: u.port_u16(),
        path: u.path().to_string(),
        query: u.query().map(|s| s.to_string()),
    }
}

fn superior(uri: &str, user: Option<&str>, password: Option<&str>) -> SuperiorConf {
    SuperiorConf {
        id: "up".to_string(),
        uri: uri_of(uri),
        username: user.map(|s| s.to_string()),
        password: password.map(|s| s.to_string()),
    }
}

fn runtime_message(r: Result<(), AppError>) -> String {
    match r {
        Err(AppError::RuntimeError(m)) => m,
        _ => panic!("expected a runtime error"),
    }
}

fn stream(raw: &[u8], state: HttpTunnalState) -> HttpTunnalStream<()> {
    HttpTunnalStream { head_len: raw.len() as i32, raw: raw.to_vec(), io: (), state }
}

#[test]
fn connect_request_without_credentials() {
    let s = superior("http://up:3128", Some("user"), None);
    assert_eq!(
        TunnalSvc::<()>::connect_request("www.example.com:443", &s),
        "CONNECT www.example.com:443 HTTP/1.1\r\nHost: www.example.com:443\r\nProxy-Connection: Keep-Alive\r\n\r\n"
    );
}

#[test]
fn connect_request_with_credentials() {
    let s = superior("http://up:3128", Some("user"), Some("pass"));
    assert_eq!(
        TunnalSvc::<()>::connect_request("www.example.com:443", &s),
        "CONNECT www.example.com:443 HTTP/1.1\r\nHost: www.example.com:443\r\nProxy-Connection: Keep-Alive\r\nProxy-Authorization: Basic dXNlcjpwYXNz\r\n\r\n"
    );
}

#[test]
fn upstream_answer_to_connect() {
    assert!(TunnalSvc::<()>::check_connect_reply(b"HTTP/1.1 200 Connection established\r\n\r\n").is_ok());
    assert_eq!(
        runtime_message(TunnalSvc::<()>::check_connect_reply(b"HTTP/1.1 407 Proxy Authentication Required\r\n\r\n")),
        "Proxy Authentication Required"
    );
    assert_eq!(runtime_message(TunnalSvc::<()>::check_connect_reply(b"HTTP/1.1 503")), "Server Error");
    assert_eq!(runtime_message(TunnalSvc::<()>::check_connect_reply(b"garbage\r\n\r\n")), "invalid HTTP version");
    assert_eq!(
        runtime_message(TunnalSvc::<()>::check_connect_reply(b"HTTP/1.1 200 OK\r\nA: 1\r\nB: 2\r\n\r\n")),
        "too many headers"
    );
}

#[test]
fn tunnel_plans() {
    assert!(matches!(TunnalSvc::<()>::superior_plan(&superior("https://up:3128", None, None), true), Ok(TunnelPlan::Tls(h)) if h == "up"));
    assert!(matches!(TunnalSvc::<()>::superior_plan(&superior("http://up:3128", None, None), true), Ok(TunnelPlan::Plain)));
    match TunnalSvc::<()>::superior_plan(&superior("socks5://up:1080", None, None), true) {
        Ok(TunnelPlan::Unsupported(status, body)) => {
            assert_eq!(status, 400);
            assert_eq!(body, "CONNECT must be to a socket address");
        },
        _ => panic!("expected a refusal"),
    }
}

#[test]
fn tunnel_plan_errors() {
    let msg = |r: Result<TunnelPlan, AppError>| match r {
        Err(AppError::RuntimeError(m)) => m,
        _ => panic!("expected an error"),
    };
    assert_eq!(msg(TunnalSvc::<()>::superior_plan(&superior("/x", None, None), true)), "Can't parse superior host: /x");
    assert_eq!(msg(TunnalSvc::<()>::superior_plan(&superior("http://up:3128", None, None), false)), "Can't parse superior addr: http://up:3128/");
    assert_eq!(msg(TunnalSvc::<()>::superior_plan(&superior("up:3128", None, None), true)), "Can't parse superior schem: up:3128");
}

#[test]
fn tls_server_names() {
    assert!(tls_server_name("proxy.example.com").is_ok());
    assert!(tls_server_name("10.0.0.1").is_ok());
    match tls_server_name("not a name!") {
        Err(AppError::RuntimeError(m)) => assert_eq!(m, "invalid dns name"),
        _ => panic!("expected an error"),
    }
}

#[test]
fn tunnel_stream_states() {
    let s = stream(b"", HttpTunnalState::WAIT_RESPONSE);
    assert!(s.wants_response());
    assert!(!s.wants_handshake());
    let s = stream(b"", HttpTunnalState::WAIT_HANDSHAKE);
    assert!(s.wants_handshake());
    assert!(!s.wants_response());
    let s = stream(b"", HttpTunnalState::STREAM);
    assert!(!s.wants_handshake() && !s.wants_response());
}

#[test]
fn malformed_head_puts_stream_in_exception() {
    let mut s = stream(b"garbage\r\n\r\n", HttpTunnalState::WAIT_RESPONSE);
    s.head();
    assert!(matches!(&s.state, HttpTunnalState::EXCEPTION(m) if m == "invalid HTTP version"));
    let mut s = stream(b"HTTP/1.1 200 OK\r\n\r\n", HttpTunnalState::WAIT_RESPONSE);
    s.head();
    assert!(s.wants_response());
}

#[test]
fn head_is_read_when_its_end_arrives() {
    let mut s = stream(b"garbage", HttpTunnalState::WAIT_RESPONSE);
    s.head_len = 0;
    s.handle_response(b"no blank line yet\r\n");
    assert!(s.wants_response());
    s.head_len = 7;
    s.handle_response(b"garbage\r\n\r\n");
    assert!(matches!(&s.state, HttpTunnalState::EXCEPTION(_)));
}

#[test]
fn destination_error_names_the_target() {
    let u = wallout::uri::UriParts {
        text: "nohost".to_string(),
        scheme: None,
        host: None,
        port: None,
        path: "nohost".to_string(),
        query: None,
    };
    match wallout::svc::tunnal::TunnalSvc::<()>::destination_error(&u) {
        wallout::error::AppError::RuntimeError(m) => assert_eq!(m, "Can't parse destination addr: nohost"),
        _ => panic!("expected a runtime error"),
    }
}
