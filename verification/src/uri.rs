//! URIs as the proxy reads them: the parts of an `http::Uri`.

use vstd::prelude::*;
use std::str::FromStr;
use crate::text::{decimal, decimal_string, opt_chars, text_eq};

verus! {

/// The parts of a parsed URI that the proxy reads, as plain values.
pub struct UriParts {
    /// The URI as it is displayed.
    pub text: String,
    /// The scheme, such as `http`.
    pub scheme: Option<String>,
    /// The host of the authority.
    pub host: Option<String>,
    /// The port of the authority.
    pub port: Option<u16>,
    /// The path (empty when the URI has none).
    pub path: String,
    /// The query, without the leading `?`.
    pub query: Option<String>,
}

/// The abstract value of a URI.
pub struct UriView {
    pub text: Seq<char>,
    pub scheme: Option<Seq<char>>,
    pub host: Option<Seq<char>>,
    pub port: Option<u16>,
    pub path: Seq<char>,
    pub query: Option<Seq<char>>,
}

impl View for UriParts {
    type V = UriView;

    open spec fn view(&self) -> UriView {
        UriView {
            text: self.text@,
            scheme: opt_chars(self.scheme),
            host: opt_chars(self.host),
            port: self.port,
            path: self.path@,
            query: opt_chars(self.query),
        }
    }
}

/// The abstract value of an optional URI.
pub open spec fn opt_uri_view(u: Option<UriParts>) -> Option<UriView> {
    match u {
        Some(u) => Some(u@),
        None => None,
    }
}

/// What `http::Uri::from_str` makes of a text: `None` when the text is not a
/// valid URI, else the parts of the parsed URI.
pub uninterp spec fn spec_parse_uri(text: Seq<char>) -> Option<UriView>;

/// Every character is visible ASCII (`!` to `~`).
pub open spec fn visible_text(t: Seq<char>) -> bool {
    forall|i: int| 0 <= i < t.len() ==> '!' <= #[trigger] t[i] && t[i] <= '~'
}

/// Parses a URI with `http::Uri::from_str` and reads its parts.
/// Claimed: the result is `spec_parse_uri` of the text; and, from the
/// crate's source, the displayed text of a parsed URI is visible ASCII (its
/// scheme, authority, path and query admit no other character).
#[verifier::external_body]
pub(crate) fn parse_uri(text: &str) -> (res: Option<UriParts>)
    ensures
        opt_uri_view(res) == spec_parse_uri(text@),
        res matches Some(u) ==> visible_text(u.text@),
{
    match http::Uri::from_str(text) {
        Ok(u) => Some(UriParts {
            text: u.to_string(),
            scheme: u.scheme_str().map(|s| s.to_string()),
            host: u.host().map(|s| s.to_string()),
            port: u.port_u16(),
            path: u.path().to_string(),
            query: u.query().map(|s| s.to_string()),
        }),
        Err(_) => None,
    }
}

/// The host and port that a URI designates: the port of the authority, or
/// else the default port of the `http` (80) or `https` (443) scheme.
pub open spec fn socket_target(u: UriView) -> Option<(Seq<char>, u16)> {
    match u.host {
        None => None,
        Some(h) => match u.port {
            Some(p) => Some((h, p)),
            None => if u.scheme == Some("http"@) {
                Some((h, 80u16))
            } else if u.scheme == Some("https"@) {
                Some((h, 443u16))
            } else {
                None
            },
        },
    }
}

/// An explicit port is always the target port, whatever the scheme; without
/// one, `http` means 80, `https` means 443, and any other scheme (or none)
/// gives no target; without a host there is no target.
pub proof fn law_explicit_port_wins(u: UriView, h: Seq<char>, p: u16)
    ensures
        u.host is None ==> socket_target(u) is None,
        u.host == Some(h) && u.port == Some(p) ==> socket_target(u) == Some((h, p)),
        u.host == Some(h) && u.port is None && u.scheme == Some("http"@) ==> socket_target(u) == Some((h, 80u16)),
        u.host == Some(h) && u.port is None && u.scheme == Some("https"@) ==> socket_target(u) == Some((h, 443u16)),
        u.host is Some && u.port is None && u.scheme != Some("http"@) && u.scheme != Some("https"@)
            ==> socket_target(u) is None,
{
    reveal_strlit("http");
    reveal_strlit("https");
    assert("http"@.len() != "https"@.len());
}

/// The host and port to connect to for `uri`; the caller resolves them to a
/// socket address.
pub fn uri_socket_target(uri: &UriParts) -> (res: Option<(String, u16)>)
    ensures
        match res {
            Some((h, p)) => socket_target(uri@) == Some((h@, p)),
            None => socket_target(uri@) is None,
        },
        uri.host is Some && uri.port is Some ==> (res matches Some((h, p)) && h@ == uri.host.unwrap()@
            && p == uri.port.unwrap()),
{
    match &uri.host {
        None => None,
        Some(h) => match uri.port {
            Some(p) => Some((h.clone(), p)),
            None => match &uri.scheme {
                Some(s) => {
                    if text_eq(s, "http") {
                        Some((h.clone(), 80))
                    } else if text_eq(s, "https") {
                        Some((h.clone(), 443))
                    } else {
                        None
                    }
                },
                None => None,
            },
        },
    }
}

/// `host` or `host:port` of a URI, as the `Host` header carries it.
pub open spec fn host_port(u: UriView) -> Option<Seq<char>> {
    match u.host {
        None => None,
        Some(h) => match u.port {
            None => Some(h),
            Some(p) => Some(h + ":"@ + decimal(p as nat)),
        },
    }
}

/// Renders `host:port` of a URI; `None` when it has no host.
pub fn uri_host_port(uri: &UriParts) -> (res: Option<String>)
    ensures
        match res {
            Some(s) => host_port(uri@) == Some(s@),
            None => host_port(uri@) is None,
        },
{
    match &uri.host {
        None => None,
        Some(h) => match uri.port {
            None => Some(h.clone()),
            Some(p) => {
                let mut s = h.clone();
                s.append(":");
                s.append(decimal_string(p as u64).as_str());
                Some(s)
            },
        },
    }
}

} // verus!
