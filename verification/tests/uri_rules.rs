use wallout::uri::{uri_host_port, uri_socket_target, UriParts};

fn uri(scheme: Option<&str>, host: Option<&str>, port: Option<u16>) -> UriParts {
    UriParts {
        text: String::new(),
        scheme: scheme.map(|s| s.to_string()),
        host: host.map(|s| s.to_string()),
        port,
        path: "/".to_string(),
        query: None,
    }
}

#[test]
fn socket_target_uses_scheme_default_ports() {
    assert_eq!(uri_socket_target(&uri(Some("http"), Some("a.com"), None)), Some(("a.com".to_string(), 80)));
    assert_eq!(uri_socket_target(&uri(Some("https"), Some("a.com"), None)), Some(("a.com".to_string(), 443)));
    assert_eq!(uri_socket_target(&uri(Some("https"), Some("a.com"), Some(8443))), Some(("a.com".to_string(), 8443)));
    assert_eq!(uri_socket_target(&uri(None, Some("a.com"), Some(3128))), Some(("a.com".to_string(), 3128)));
}

#[test]
fn socket_target_needs_a_host_and_a_port() {
    assert_eq!(uri_socket_target(&uri(Some("ftp"), Some("a.com"), None)), None);
    assert_eq!(uri_socket_target(&uri(None, Some("a.com"), None)), None);
    assert_eq!(uri_socket_target(&uri(Some("http"), None, Some(80))), None);
}

#[test]
fn host_port_rendering() {
    assert_eq!(uri_host_port(&uri(Some("http"), Some("a.com"), None)), Some("a.com".to_string()));
    assert_eq!(uri_host_port(&uri(Some("http"), Some("a.com"), Some(8080))), Some("a.com:8080".to_string()));
    assert_eq!(uri_host_port(&uri(None, None, None)), None);
}
