use wallout::conf::client_conf::ClientConf;
use wallout::conf::credential_conf::CredentialConf;
use wallout::conf::secure_conf::SecureConf;
use wallout::conf::subnet_conf::SubnetConf;
use wallout::conf::tunnal_conf::superior_conf::SuperiorConf;
use wallout::conf::tunnal_conf::TunnalConf;
use wallout::conf::AppConf;
use wallout::proxier::{request_destination, Proxier, RequestAction};
use wallout::uri::UriParts;

fn subnet(typ: &str, exp: &str) -> SubnetConf {
    SubnetConf { typ: typ.to_string(), exp: exp.to_string() }
}

fn superior(id: &str) -> SuperiorConf {
    SuperiorConf {
        id: id.to_string(),
        uri: UriParts { text: "http://up:3128/".to_string(), scheme: Some("http".to_string()), host: Some("up".to_string()), port: Some(3128), path: "/".to_string(), query: None },
        username: None,
        password: None,
    }
}

fn conf() -> AppConf {
    AppConf {
        hostnets: vec![subnet("ip", "127.0.0.1"), subnet("net", "10.0.0.0/8")],
        log_cfg_file: "config/log.yaml".to_string(),
        client: ClientConf { subject_alt_name: "noname".to_string(), certfile: None, keyfile: None, trusted_cerfiles: vec![] },
        servers: vec![],
        secure: SecureConf { whitelists: vec![subnet("ip", "192.168.1.5"), subnet("host", "10.0.0.9")] },
        tunnal: TunnalConf { superiors: vec![superior("a"), superior("b")] },
        credentials: vec![
            CredentialConf { user: "alice".to_string(), passwd: "secret".to_string() },
            CredentialConf { user: "bob".to_string(), passwd: "pw:x".to_string() },
        ],
        proxy_pass_locations: vec![],
    }
}

fn proxier(superior_id: Option<&str>) -> Proxier<()> {
    Proxier::new("local", superior_id.map(|s| s.to_string()), "wallout", "127.0.0.1:8999".to_string(), ()).ok().unwrap()
}

fn headers(fields: &[(&str, &str)]) -> http::HeaderMap {
    let mut m = http::HeaderMap::new();
    for (n, v) in fields {
        m.append(http::header::HeaderName::from_bytes(n.as_bytes()).unwrap(), http::HeaderValue::from_str(v).unwrap());
    }
    m
}

#[test]
fn introduction_names_server_and_superior() {
    assert_eq!(proxier(None).get_introducation(), "'local' server on 127.0.0.1:8999");
    assert_eq!(proxier(Some("up")).get_introducation(), "'local' server on 127.0.0.1:8999 and tunnal to 'up'");
    assert_eq!(proxier(None).get_sock(), "127.0.0.1:8999");
}

#[test]
fn white_list_holds_ip_entries_only() {
    let p = proxier(None);
    let c = conf();
    assert!(p.is_white(&c, "192.168.1.5"));
    assert!(!p.is_white(&c, "10.0.0.9"));
    assert!(!p.is_white(&c, "192.168.1.6"));
}

#[test]
fn requests_for_this_host_are_not_forwarded() {
    let p = proxier(None);
    let c = conf();
    assert!(!p.is_reverse(&c, &vec!["8.8.8.8".to_string(), "127.0.0.1".to_string()]));
    assert!(p.is_reverse(&c, &vec!["8.8.8.8".to_string()]));
    assert!(p.is_reverse(&c, &vec!["10.0.0.0/8".to_string()]));
    assert!(p.is_reverse(&c, &vec![]));
}

#[test]
fn basic_credentials_are_checked() {
    let p = proxier(None);
    let c = conf();
    assert!(p.authorize(&c, &headers(&[("proxy-authorization", "Basic YWxpY2U6c2VjcmV0")]), "proxy-authorization"));
    assert!(p.authorize(&c, &headers(&[("authorization", "Basic Ym9iOnB3Ong=")]), "authorization"));
    assert!(!p.authorize(&c, &headers(&[("authorization", "Basic Ym9iOnB3Ong=")]), "proxy-authorization"));
    assert!(!p.authorize(&c, &headers(&[("proxy-authorization", "Basic YWxpY2U6d3Jvbmc=")]), "proxy-authorization"));
    assert!(!p.authorize(&c, &headers(&[("proxy-authorization", "Basic  YWxpY2U6c2VjcmV0")]), "proxy-authorization"));
    assert!(!p.authorize(&c, &headers(&[("proxy-authorization", "YWxpY2U6c2VjcmV0")]), "proxy-authorization"));
    assert!(!p.authorize(&c, &headers(&[("proxy-authorization", "Basic %%%")]), "proxy-authorization"));
    assert!(!p.authorize(&c, &headers(&[("proxy-authorization", "Basic /w==")]), "proxy-authorization"));
    assert!(!p.authorize(&c, &headers(&[]), "proxy-authorization"));
}

#[test]
fn connect_is_challenged_without_credentials() {
    let p = proxier(None);
    let c = conf();
    match p.request_action(&c, true, false, "8.8.8.8", &headers(&[]), "") {
        RequestAction::Challenge(status, name) => {
            assert_eq!(status, 407);
            assert_eq!(name, "proxy-authenticate");
        },
        _ => panic!("expected a challenge"),
    }
}

#[test]
fn connect_is_tunnelled() {
    let c = conf();
    let creds = headers(&[("proxy-authorization", "Basic YWxpY2U6c2VjcmV0")]);
    assert!(matches!(proxier(None).request_action(&c, true, false, "8.8.8.8", &creds, ""), RequestAction::TunnelToDestination));
    assert!(matches!(proxier(Some("b")).request_action(&c, true, false, "192.168.1.5", &headers(&[]), ""), RequestAction::TunnelToSuperior(1)));
    assert!(matches!(proxier(Some("zz")).request_action(&c, true, false, "192.168.1.5", &headers(&[]), ""), RequestAction::TunnelToDestination));
}

#[test]
fn foreign_requests_are_forwarded() {
    let c = conf();
    assert!(matches!(proxier(Some("a")).request_action(&c, false, true, "192.168.1.5", &headers(&[]), "/x"), RequestAction::Reverse(Some(0))));
    assert!(matches!(proxier(None).request_action(&c, false, true, "8.8.8.8", &headers(&[]), "/x"), RequestAction::Challenge(407, _)));
}

#[test]
fn local_requests_are_answered() {
    let c = conf();
    let p = proxier(None);
    match p.request_action(&c, false, false, "8.8.8.8", &headers(&[("proxy-authorization", "Basic YWxpY2U6c2VjcmV0")]), "/") {
        RequestAction::Challenge(status, name) => {
            assert_eq!(status, 401);
            assert_eq!(name, "www-authenticate");
        },
        _ => panic!("expected a challenge"),
    }
    let creds = headers(&[("authorization", "Basic YWxpY2U6c2VjcmV0")]);
    assert!(matches!(p.request_action(&c, false, false, "8.8.8.8", &creds, "/"), RequestAction::Answer(200, b) if b == "Welcome!"));
    assert!(matches!(p.request_action(&c, false, false, "192.168.1.5", &headers(&[]), "/status"), RequestAction::Answer(404, b) if b == "/status"));
}

#[test]
fn challenge_response() {
    let r = proxier(None).build_authenticate_response(407, "proxy-authenticate");
    assert_eq!(r.status, 407);
    assert_eq!(r.headers, vec![
        ("proxy-authenticate".to_string(), "Basic realm=\"wallout\"".to_string()),
        ("Proxy-Agent".to_string(), "wallout".to_string()),
    ]);
    assert_eq!(r.body, "No authentication");
}

#[test]
fn destination_of_a_request() {
    let u = UriParts { text: "/".to_string(), scheme: None, host: Some("uri.host".to_string()), port: None, path: "/".to_string(), query: None };
    assert_eq!(request_destination(&headers(&[("host", "h.example:81")]), &u), Some("h.example:81".to_string()));
    assert_eq!(request_destination(&headers(&[]), &u), Some("uri.host".to_string()));
    let mut bad = http::HeaderMap::new();
    bad.insert(http::header::HOST, http::HeaderValue::from_bytes(&[0xffu8]).unwrap());
    assert_eq!(request_destination(&bad, &u), None);
}

#[test]
fn header_names_are_looked_up_in_lower_case() {
    let c = conf();
    let p = proxier(None);
    assert!(p.authorize(&c, &headers(&[("proxy-authorization", "Basic YWxpY2U6c2VjcmV0")]), "Proxy-Authorization"));
    assert!(!p.authorize(&c, &headers(&[("proxy-authorization", "Basic YWxpY2U6c2VjcmV0")]), "proxy authorization"));
    let u = UriParts { text: "/".to_string(), scheme: None, host: None, port: None, path: "/".to_string(), query: None };
    assert_eq!(request_destination(&headers(&[("host", "first"), ("host", "second")]), &u), Some("first".to_string()));
}
