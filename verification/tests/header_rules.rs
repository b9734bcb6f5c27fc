use wallout::header::{is_hop_header, remove_hop_headers, valid_header_text};

fn list(fields: &[(&str, &str)]) -> http::HeaderMap {
    let mut m = http::HeaderMap::new();
    for (n, v) in fields {
        m.append(http::header::HeaderName::from_bytes(n.as_bytes()).unwrap(), http::HeaderValue::from_str(v).unwrap());
    }
    m
}

fn pairs(h: &http::HeaderMap) -> Vec<(String, String)> {
    h.iter().map(|(k, v)| (k.as_str().to_string(), String::from_utf8(v.as_bytes().to_vec()).unwrap())).collect()
}

#[test]
fn hop_headers_are_recognised_in_any_case() {
    assert!(is_hop_header("Connection"));
    assert!(is_hop_header("connection"));
    assert!(is_hop_header("KEEP-ALIVE"));
    assert!(is_hop_header("proxy-authorization"));
    assert!(is_hop_header("te"));
    assert!(is_hop_header("trailer"));
    assert!(is_hop_header("Trailer"));
    assert!(is_hop_header("TE"));
    assert!(is_hop_header("transfer-encoding"));
    assert!(is_hop_header("UpGrade"));
    assert!(is_hop_header("Proxy-Authenticate"));
}

#[test]
fn end_to_end_headers_are_not_hop_headers() {
    assert!(!is_hop_header("host"));
    assert!(!is_hop_header("x-forwarded-for"));
    assert!(!is_hop_header("location"));
    assert!(!is_hop_header("trailers"));
    assert!(!is_hop_header("connections"));
    assert!(!is_hop_header(""));
}

#[test]
fn removal_keeps_the_order_of_names() {
    let h = list(&[("a", "1"), ("b", "2"), ("a", "3"), ("Connection", "close"), ("c", "4")]);
    let r = remove_hop_headers(&h);
    assert_eq!(pairs(&r), vec![
        ("a".to_string(), "1".to_string()),
        ("a".to_string(), "3".to_string()),
        ("b".to_string(), "2".to_string()),
        ("c".to_string(), "4".to_string()),
    ]);
}

#[test]
fn hop_headers_are_removed_and_all_values_kept() {
    let h = list(&[
        ("connection", "keep-alive"),
        ("accept", "a"),
        ("te", "trailers"),
        ("accept", "b"),
        ("host", "example.com"),
        ("upgrade", "websocket"),
    ]);
    let r = remove_hop_headers(&h);
    assert_eq!(pairs(&r), vec![
        ("accept".to_string(), "a".to_string()),
        ("accept".to_string(), "b".to_string()),
        ("host".to_string(), "example.com".to_string()),
    ]);
}

#[test]
fn removing_hop_headers_twice_changes_nothing() {
    let h = list(&[("keep-alive", "1"), ("x", "1"), ("y", "2"), ("x", "3")]);
    let once = remove_hop_headers(&h);
    let twice = remove_hop_headers(&once);
    assert_eq!(pairs(&once), pairs(&twice));
}

#[test]
fn header_text_validity() {
    assert!(valid_header_text("Basic realm=\"wallout\""));
    assert!(valid_header_text("tab\tok"));
    assert!(valid_header_text("caf\u{e9}"));
    assert!(!valid_header_text("line\nbreak"));
    assert!(!valid_header_text("del\u{7f}"));
}

#[test]
fn repeated_cookies_survive_hop_removal() {
    let h = list(&[("set-cookie", "a=1"), ("set-cookie", "b=2"), ("connection", "close")]);
    let r = remove_hop_headers(&h);
    assert_eq!(pairs(&r), vec![
        ("set-cookie".to_string(), "a=1".to_string()),
        ("set-cookie".to_string(), "b=2".to_string()),
    ]);
    assert!(!r.contains_key("connection"));
}

#[test]
fn trailer_is_dropped_and_names_are_counted() {
    let h = list(&[("trailer", "expires"), ("accept", "a"), ("accept", "b"), ("host", "x")]);
    assert_eq!(wallout::header::header_name_count(&h), 3);
    let r = remove_hop_headers(&h);
    assert_eq!(wallout::header::header_name_count(&r), 2);
    assert!(!r.contains_key("trailer"));
}
