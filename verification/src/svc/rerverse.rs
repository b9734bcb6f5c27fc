//! Forwarding of plain HTTP requests: how a request is rewritten before it is
//! sent on, how a response is rewritten before it is returned, and what a
//! failed forwarding is answered.

use vstd::prelude::*;
use std::str::FromStr;
use crate::conf::proxy_pass_location_conf::ProxyPassLocationConf;
use crate::conf::tunnal_conf::superior_conf::SuperiorConf;
use crate::error::{
    AppError, http_error_text, hyper_error_text, invalid_uri_text, io_error_text, is_uri_error,
    is_runtime_error, join_error_text,
};
use crate::text::{base64_text, text_eq};
use crate::header::{
    HeaderSeq, ascii_text, first_value, header_fields, header_map_get, header_map_insert, header_map_name_count, header_value_from_str,
    header_value_to_str, inserted, law_without_hop_keeps_end_to_end_names, lemma_forwarded_names_not_hop,
    lemma_inserted_name_count, lemma_inserted_no_hop, lemma_inserted_values, lemma_proxy_names_stored, lemma_visible_text_valid,
    lemma_without_hop_name_count, name_count, no_hop, remove_hop_headers, valid_value, visible_ascii, without_hop,
};
use crate::uri::{visible_text, UriParts, UriView, host_port, parse_uri, spec_parse_uri, uri_host_port};
use headers::authorization::Credentials;

verus! {

// ---------------------------------------------------------------------------
// Regular expressions (the `regex` crate).
// ---------------------------------------------------------------------------

/// Whether `regex::Regex::from_str` accepts a pattern.
pub uninterp spec fn spec_regex_valid(pattern: Seq<char>) -> bool;

/// What `regex::Regex::is_match` answers for a (valid) pattern and a text.
pub uninterp spec fn spec_regex_is_match(pattern: Seq<char>, text: Seq<char>) -> bool;

/// What `regex::Regex::replace_all` makes of a text, for a (valid) pattern and a replacement.
pub uninterp spec fn spec_regex_replace_all(pattern: Seq<char>, text: Seq<char>, rep: Seq<char>) -> Seq<char>;

/// Compiles `pattern` and tests it on `text` (`regex::Regex::is_match`);
/// `false` when the pattern does not compile.
/// Claimed: the result is `spec_regex_valid` of the pattern and
/// `spec_regex_is_match` of the pattern and text.
#[verifier::external_body]
fn regex_matches(pattern: &str, text: &str) -> (res: bool)
    ensures
        res == (spec_regex_valid(pattern@) && spec_regex_is_match(pattern@, text@)),
{
    regex::Regex::from_str(pattern).map(|r| r.is_match(text)).unwrap_or(false)
}

/// Compiles `pattern` and replaces all its matches in `text` by `rep`
/// (`regex::Regex::replace_all`); `None` when the pattern does not compile.
/// Claimed: `Some` exactly when `spec_regex_valid` holds of the pattern, with
/// the text `spec_regex_replace_all` of the three arguments.
#[verifier::external_body]
fn regex_replace_all(pattern: &str, text: &str, rep: &str) -> (res: Option<String>)
    ensures
        (res is Some) == spec_regex_valid(pattern@),
        res matches Some(s) ==> s@ == spec_regex_replace_all(pattern@, text@, rep@),
{
    match regex::Regex::from_str(pattern) {
        Ok(re) => Some(re.replace_all(text, rep.to_string()).into_owned()),
        Err(_) => None,
    }
}

// ---------------------------------------------------------------------------
// `Basic` credentials (the `headers` crate).
// ---------------------------------------------------------------------------

/// The `Basic` authorization value of a user name and password: `Basic `
/// and the standard base64 of `user:password`, as bytes.
pub open spec fn spec_basic_authorization(user: Seq<char>, password: Seq<char>) -> Seq<u8> {
    vstd::utf8::encode_utf8("Basic "@ + base64_text(vstd::utf8::encode_utf8(user + ":"@ + password)))
}

/// Encodes `Basic` credentials as a header value (`headers::Authorization::basic`,
/// then `Credentials::encode`).
/// Claimed, from the crate's source: the bytes are `Basic ` and the standard
/// padded base64 of `user:password` (`spec_basic_authorization`), and, being
/// a `HeaderValue`'s, a valid header value.
#[verifier::external_body]
fn basic_authorization(user: &str, password: &str) -> (res: Vec<u8>)
    ensures
        res@ == spec_basic_authorization(user@, password@),
        valid_value(res@),
{
    headers::Authorization::basic(user, password).0.encode().as_bytes().to_vec()
}

// ---------------------------------------------------------------------------
// Rewriting the target of a request.
// ---------------------------------------------------------------------------

/// The query of a URI, or nothing.
pub open spec fn query_or_empty(u: UriView) -> Seq<char> {
    match u.query {
        Some(q) => q,
        None => Seq::empty(),
    }
}

/// The location's `matcher` compiles and matches the path.
pub open spec fn location_matches(loc: ProxyPassLocationConf, path: Seq<char>) -> bool {
    spec_regex_valid(loc.matcher@) && spec_regex_is_match(loc.matcher@, path)
}

/// The path sent upstream: the path itself when `replace_re` is empty, else
/// the path with `replace_re` replaced by `replace_to`; `None` when
/// `replace_re` does not compile (the location is then skipped).
pub open spec fn rewritten_path(loc: ProxyPassLocationConf, path: Seq<char>) -> Option<Seq<char>> {
    if loc.replace_re@.len() == 0 {
        Some(path)
    } else if spec_regex_valid(loc.replace_re@) {
        Some(spec_regex_replace_all(loc.replace_re@, path, loc.replace_to@))
    } else {
        None
    }
}

/// The location applies to the URI: it matches and its rewrite is usable.
pub open spec fn location_applies(loc: ProxyPassLocationConf, u: UriView) -> bool {
    location_matches(loc, u.path) && rewritten_path(loc, u.path) is Some
}

/// The text of the rewritten URI: `scheme://proxy_pass path?query`.
pub open spec fn location_target(loc: ProxyPassLocationConf, u: UriView) -> Seq<char> {
    u.scheme.unwrap() + "://"@ + loc.proxy_pass@ + rewritten_path(loc, u.path).unwrap() + "?"@
        + query_or_empty(u)
}

/// The URI a request is sent to: the first location (in order) that applies
/// and whose target text parses as a URI gives it; `None` when there is none.
pub open spec fn proxied_uri(locs: Seq<ProxyPassLocationConf>, u: UriView) -> Option<UriView>
    decreases locs.len(),
{
    if locs.len() == 0 {
        None
    } else if location_applies(locs[0], u) && spec_parse_uri(location_target(locs[0], u)) is Some {
        spec_parse_uri(location_target(locs[0], u))
    } else {
        proxied_uri(locs.drop_first(), u)
    }
}

/// The location takes the URI: it applies, and its target text parses.
pub open spec fn location_takes(loc: ProxyPassLocationConf, u: UriView) -> bool {
    location_applies(loc, u) && spec_parse_uri(location_target(loc, u)) is Some
}

/// The first location, in configuration order, that takes the URI decides
/// it: the URI goes to that location's target, whatever later locations say.
pub proof fn law_first_taking_location_decides(locs: Seq<ProxyPassLocationConf>, u: UriView, i: int)
    requires
        0 <= i < locs.len(),
        location_takes(locs[i], u),
        forall|j: int| 0 <= j < i ==> !location_takes(#[trigger] locs[j], u),
    ensures
        proxied_uri(locs, u) == spec_parse_uri(location_target(locs[i], u)),
    decreases i,
{
    if i > 0 {
        assert(!location_takes(locs[0], u));
        let rest = locs.drop_first();
        assert forall|j: int| 0 <= j < i - 1 implies !location_takes(#[trigger] rest[j], u) by {
            assert(rest[j] == locs[j + 1]);
        }
        assert(rest[i - 1] == locs[i]);
        law_first_taking_location_decides(rest, u, i - 1);
    }
}

/// When no location takes the URI, there is no proxied URI.
pub proof fn law_no_taking_location_no_target(locs: Seq<ProxyPassLocationConf>, u: UriView)
    requires
        forall|j: int| 0 <= j < locs.len() ==> !location_takes(#[trigger] locs[j], u),
    ensures
        proxied_uri(locs, u) is None,
    decreases locs.len(),
{
    if locs.len() > 0 {
        assert(!location_takes(locs[0], u));
        let rest = locs.drop_first();
        assert forall|j: int| 0 <= j < rest.len() implies !location_takes(#[trigger] rest[j], u) by {
            assert(rest[j] == locs[j + 1]);
        }
        law_no_taking_location_no_target(rest, u);
    }
}

/// Some location applies to the URI, so rewriting it reads its scheme.
pub open spec fn needs_scheme(locs: Seq<ProxyPassLocationConf>, u: UriView) -> bool {
    exists|i: int| 0 <= i < locs.len() && location_applies(#[trigger] locs[i], u)
}

/// Rewriting can take place: the URI has a scheme, or no location applies.
pub open spec fn rewritable(locs: Seq<ProxyPassLocationConf>, u: UriView) -> bool {
    u.scheme is Some || !needs_scheme(locs, u)
}

// ---------------------------------------------------------------------------
// Rewriting requests and responses.
// ---------------------------------------------------------------------------

/// The target and header fields of a request.
pub struct MessageHead {
    pub uri: UriParts,
    pub headers: http::HeaderMap,
}

/// The credentials of an upstream proxy, when one is used.
pub open spec fn superior_credentials(superior: Option<&SuperiorConf>) -> Option<(Seq<char>, Seq<char>)> {
    match superior {
        Some(s) => Some((s.username.unwrap()@, s.password.unwrap()@)),
        None => None,
    }
}

/// An upstream proxy, when one is used, has both a user name and a password.
pub open spec fn credentials_given(superior: Option<&SuperiorConf>) -> bool {
    match superior {
        Some(s) => s.username is Some && s.password is Some,
        None => true,
    }
}

/// Through an upstream proxy the request gets its `Proxy-Authorization`;
/// otherwise its hop-by-hop headers are dropped.
pub open spec fn authorized_headers(h: HeaderSeq, creds: Option<(Seq<char>, Seq<char>)>) -> HeaderSeq {
    match creds {
        Some((u, p)) => inserted(h, "proxy-authorization"@, spec_basic_authorization(u, p)),
        None => without_hop(h),
    }
}

/// The request sent to the rewritten URI, with its `Host` header set to the
/// new `host:port`; unchanged when no location gives a URI; `None` when the
/// new `Host` value is not a valid header value.
pub open spec fn retargeted(locs: Seq<ProxyPassLocationConf>, u: UriView, h: HeaderSeq) -> Option<(UriView, HeaderSeq)> {
    match proxied_uri(locs, u) {
        None => Some((u, h)),
        Some(nu) => match host_port(nu) {
            None => Some((nu, h)),
            Some(hp) => if valid_value(vstd::utf8::encode_utf8(hp)) {
                Some((nu, inserted(h, "host"@, vstd::utf8::encode_utf8(hp))))
            } else {
                None
            },
        },
    }
}

/// The new `X-Forwarded-For` text: the client address, or the earlier value,
/// followed by `, ` and the proxy's external address; `None` when the earlier
/// value does not read as text.
pub open spec fn forwarded_for_text(h: HeaderSeq, client_ip: Seq<char>, ext: Seq<char>) -> Option<Seq<char>> {
    match first_value(h, "x-forwarded-for"@) {
        None => Some(client_ip + ", "@ + ext),
        Some(v) => if visible_ascii(v) {
            Some(ascii_text(v) + ", "@ + ext)
        } else {
            None
        },
    }
}

/// The headers with `X-Forwarded-For` extended; `None` on an unreadable
/// earlier value or an invalid new value.
pub open spec fn with_forwarded_for(h: HeaderSeq, client_ip: Seq<char>, ext: Seq<char>) -> Option<HeaderSeq> {
    match forwarded_for_text(h, client_ip, ext) {
        None => None,
        Some(s) => if valid_value(vstd::utf8::encode_utf8(s)) {
            Some(inserted(h, "x-forwarded-for"@, vstd::utf8::encode_utf8(s)))
        } else {
            None
        },
    }
}

/// The request as it is sent on; `None` when a header value cannot be formed.
pub open spec fn proxied_request(
    locs: Seq<ProxyPassLocationConf>,
    client_ip: Seq<char>,
    ext: Seq<char>,
    u: UriView,
    h: HeaderSeq,
    creds: Option<(Seq<char>, Seq<char>)>,
) -> Option<(UriView, HeaderSeq)> {
    match retargeted(locs, u, authorized_headers(h, creds)) {
        None => None,
        Some((nu, h2)) => match with_forwarded_for(h2, client_ip, ext) {
            None => None,
            Some(h3) => Some((nu, h3)),
        },
    }
}

/// The response headers as they are returned: hop-by-hop headers dropped and
/// a `Location` that parses as a URI rewritten like a request target.
pub open spec fn proxied_response(locs: Seq<ProxyPassLocationConf>, h: HeaderSeq) -> HeaderSeq {
    let h1 = without_hop(h);
    match first_value(h1, "location"@) {
        None => h1,
        Some(v) => match spec_parse_uri(ascii_text(v)) {
            None => h1,
            Some(u) => match proxied_uri(locs, u) {
                None => h1,
                Some(nu) => inserted(h1, "location"@, vstd::utf8::encode_utf8(nu.text)),
            },
        },
    }
}

/// A response's `Location`, if any, reads as text, and can be rewritten.
pub open spec fn response_rewritable(locs: Seq<ProxyPassLocationConf>, h: HeaderSeq) -> bool {
    match first_value(without_hop(h), "location"@) {
        None => true,
        Some(v) => visible_ascii(v) && match spec_parse_uri(ascii_text(v)) {
            None => true,
            Some(u) => rewritable(locs, u),
        },
    }
}

/// How a forwarded request reaches an upstream proxy.
pub enum SuperiorConnection {
    /// Over TLS to the proxy at the host.
    Tls(String),
    /// Over plain TCP.
    Plain,
}

/// The forwarding service for plain HTTP requests.
pub struct RerverseSvc<C> {
    pub tls_client_config: C,
    pub server_external_address: String,
}

impl<C> RerverseSvc<C> {
    /// A forwarding service that uses `client_config` for TLS connections and
    /// names itself `server_external_address` in `X-Forwarded-For`.
    pub fn new(client_config: C, server_external_address: &str) -> (res: Self)
        ensures
            res.tls_client_config == client_config,
            res.server_external_address@ == server_external_address@,
    {
        RerverseSvc {
            tls_client_config: client_config,
            server_external_address: server_external_address.to_string(),
        }
    }

    /// `host` or `host:port` of a request target.
    pub fn parse_hostport(&self, uri: &UriParts) -> (res: Result<String, AppError>)
        ensures
            match res {
                Ok(s) => host_port(uri@) == Some(s@),
                Err(e) => host_port(uri@) is None && is_uri_error(e, "No host found"@),
            },
    {
        match uri_host_port(uri) {
            Some(s) => Ok(s),
            None => Err(AppError::UriError("No host found".to_string())),
        }
    }

    /// Whether some location applies to `uri`, so that rewriting it reads its scheme.
    pub fn needs_scheme(&self, locations: &Vec<ProxyPassLocationConf>, uri: &UriParts) -> (res: bool)
        ensures
            res == needs_scheme(locations@, uri@),
    {
        let n = locations.len();
        let mut i: usize = 0;
        while i < n
            invariant
                n == locations@.len(),
                i <= n,
                forall|j: int| 0 <= j < i ==> !location_applies(#[trigger] locations@[j], uri@),
            decreases n - i,
        {
            let loc = &locations[i];
            if regex_matches(loc.matcher.as_str(), uri.path.as_str()) {
                if loc.replace_re.as_str().is_empty() {
                    return true;
                }
                if let Some(_) = regex_replace_all(loc.replace_re.as_str(), uri.path.as_str(), loc.replace_to.as_str()) {
                    return true;
                }
            }
            i = i + 1;
        }
        false
    }

    /// The URI that a request (or a redirection) to `uri` is sent to, given by
    /// the first applicable location; an error `No match` when there is none.
    pub fn create_proxied_uri(&self, locations: &Vec<ProxyPassLocationConf>, uri: &UriParts) -> (res: Result<UriParts, AppError>)
        requires
            rewritable(locations@, uri@),
        ensures
            match res {
                Ok(u) => proxied_uri(locations@, uri@) == Some(u@) && visible_text(u.text@),
                Err(e) => proxied_uri(locations@, uri@) is None && is_uri_error(e, "No match"@),
            },
            forall|i: int| 0 <= i < locations@.len() && location_takes(#[trigger] locations@[i], uri@)
                && (forall|j: int| 0 <= j < i ==> !location_takes(#[trigger] locations@[j], uri@))
                ==> (res matches Ok(v) && Some(v@) == spec_parse_uri(location_target(locations@[i], uri@))),
    {
        proof {
            assert forall|i: int| 0 <= i < locations@.len() && location_takes(#[trigger] locations@[i], uri@)
                && (forall|j: int| 0 <= j < i ==> !location_takes(#[trigger] locations@[j], uri@))
                implies proxied_uri(locations@, uri@) == spec_parse_uri(location_target(locations@[i], uri@)) by {
                law_first_taking_location_decides(locations@, uri@, i);
            }
        }
        let n = locations.len();
        let mut i: usize = 0;
        assert(locations@.skip(0) =~= locations@);
        while i < n
            invariant
                n == locations@.len(),
                i <= n,
                rewritable(locations@, uri@),
                proxied_uri(locations@, uri@) == proxied_uri(locations@.skip(i as int), uri@),
                forall|k: int| 0 <= k < locations@.len() && location_takes(#[trigger] locations@[k], uri@)
                    && (forall|j: int| 0 <= j < k ==> !location_takes(#[trigger] locations@[j], uri@))
                    ==> proxied_uri(locations@, uri@) == spec_parse_uri(location_target(locations@[k], uri@)),
            decreases n - i,
        {
            let ghost rest = locations@.skip(i as int);
            assert(rest[0] == locations@[i as int]);
            assert(rest.drop_first() =~= locations@.skip(i as int + 1));
            let loc = &locations[i];
            if regex_matches(loc.matcher.as_str(), uri.path.as_str()) {
                let path = if loc.replace_re.as_str().is_empty() {
                    Some(uri.path.clone())
                } else {
                    regex_replace_all(loc.replace_re.as_str(), uri.path.as_str(), loc.replace_to.as_str())
                };
                if let Some(p) = path {
                    assert(location_applies(locations@[i as int], uri@));
                    let scheme = match &uri.scheme {
                        Some(s) => s.clone(),
                        None => {
                            assert(needs_scheme(locations@, uri@));
                            assert(false);
                            String::new()
                        },
                    };
                    let mut target = scheme;
                    target.append("://");
                    target.append(loc.proxy_pass.as_str());
                    target.append(p.as_str());
                    target.append("?");
                    match &uri.query {
                        Some(q) => target.append(q.as_str()),
                        None => {},
                    }
                    assert(target@ =~= location_target(locations@[i as int], uri@));
                    match parse_uri(target.as_str()) {
                        Some(u) => {
                            return Ok(u);
                        },
                        None => {},
                    }
                }
            }
            i = i + 1;
        }
        assert(locations@.skip(n as int).len() == 0);
        Err(AppError::UriError("No match".to_string()))
    }

    /// The request as it is sent on: through an upstream proxy it gets the
    /// proxy's `Basic` credentials, otherwise its hop-by-hop headers are
    /// dropped; its target is rewritten by the first applicable location (and
    /// its `Host` set accordingly); `X-Forwarded-For` is extended with the
    /// client address and this proxy's external address.
    pub fn create_proxied_request(
        &self,
        locations: &Vec<ProxyPassLocationConf>,
        client_ip: &str,
        request: MessageHead,
        superior: Option<&SuperiorConf>,
    ) -> (res: Result<MessageHead, AppError>)
        requires
            credentials_given(superior),
            rewritable(locations@, request.uri@),
            name_count(header_fields(request.headers)) < 6552,
        ensures
            match res {
                Ok(m) => proxied_request(locations@, client_ip@, self.server_external_address@,
                    request.uri@, header_fields(request.headers), superior_credentials(superior)) == Some((m.uri@, header_fields(m.headers))),
                Err(e) => proxied_request(locations@, client_ip@, self.server_external_address@,
                    request.uri@, header_fields(request.headers), superior_credentials(superior)) is None
                    && e is ForwardHeaderError,
            },
    {
        proof {
            lemma_proxy_names_stored();
        }
        let MessageHead { uri, headers } = request;
        let ghost h0 = header_fields(headers);
        let mut headers = headers;
        match superior {
            Some(s) => {
                let user = match &s.username {
                    Some(u) => u.as_str(),
                    None => "",
                };
                let password = match &s.password {
                    Some(p) => p.as_str(),
                    None => "",
                };
                header_map_insert(&mut headers, "proxy-authorization", basic_authorization(user, password));
                proof {
                    lemma_inserted_name_count(h0, "proxy-authorization"@, spec_basic_authorization(user@, password@));
                }
            },
            None => {
                headers = remove_hop_headers(&headers);
                proof {
                    lemma_without_hop_name_count(h0, h0.len() as int);
                    assert(h0.take(h0.len() as int) =~= h0);
                }
            },
        }
        let ghost h1 = header_fields(headers);
        let mut uri = uri;
        match self.create_proxied_uri(locations, &uri) {
            Ok(nu) => {
                uri = nu;
                match self.parse_hostport(&uri) {
                    Ok(hp) => match header_value_from_str(hp.as_str()) {
                        Some(v) => {
                            header_map_insert(&mut headers, "host", v);
                            proof {
                                lemma_inserted_name_count(h1, "host"@, vstd::utf8::encode_utf8(hp@));
                            }
                        },
                        None => {
                            return Err(AppError::ForwardHeaderError);
                        },
                    },
                    Err(_) => {},
                }
            },
            Err(_) => {},
        }
        let text = match header_map_get(&headers, "x-forwarded-for") {
            None => {
                let mut t = client_ip.to_string();
                t.append(", ");
                t.append(self.server_external_address.as_str());
                t
            },
            Some(v) => match header_value_to_str(v.as_slice()) {
                Some(t) => {
                    let mut t = t;
                    t.append(", ");
                    t.append(self.server_external_address.as_str());
                    t
                },
                None => {
                    return Err(AppError::ForwardHeaderError);
                },
            },
        };
        match header_value_from_str(text.as_str()) {
            Some(v) => header_map_insert(&mut headers, "x-forwarded-for", v),
            None => {
                return Err(AppError::ForwardHeaderError);
            },
        }
        Ok(MessageHead { uri, headers })
    }

    /// The response headers as they are returned: hop-by-hop headers dropped,
    /// and a `Location` rewritten like a request target when a location applies.
    pub fn create_proxied_response(&self, locations: &Vec<ProxyPassLocationConf>, headers: &http::HeaderMap) -> (res: Result<http::HeaderMap, AppError>)
        requires
            response_rewritable(locations@, header_fields(*headers)),
            name_count(header_fields(*headers)) < 6554,
        ensures
            res matches Ok(h) && header_fields(h) == proxied_response(locations@, header_fields(*headers)),
    {
        proof {
            lemma_proxy_names_stored();
            let h0 = header_fields(*headers);
            lemma_without_hop_name_count(h0, h0.len() as int);
            assert(h0.take(h0.len() as int) =~= h0);
        }
        let mut h = remove_hop_headers(headers);
        match header_map_get(&h, "location") {
            None => Ok(h),
            Some(v) => match header_value_to_str(v.as_slice()) {
                None => Ok(h),
                Some(text) => match parse_uri(text.as_str()) {
                    None => Ok(h),
                    Some(u) => match self.create_proxied_uri(locations, &u) {
                        Err(_) => Ok(h),
                        Ok(nu) => {
                            proof {
                                lemma_visible_text_valid(nu.text@);
                            }
                            match header_value_from_str(nu.text.as_str()) {
                                Some(b) => {
                                    header_map_insert(&mut h, "location", b);
                                    Ok(h)
                                },
                                None => {
                                    assert(false);
                                    Ok(h)
                                },
                            }
                        },
                    },
                },
            },
        }
    }

    /// The request as it is sent on, or `None` when no location can rewrite
    /// its target because it has no scheme (where the request is not served);
    /// a runtime error `Too many header names` when the request has 6552 or
    /// more header names, too many for the forwarded header map to hold.
    pub fn prepare_request(
        &self,
        locations: &Vec<ProxyPassLocationConf>,
        client_ip: &str,
        request: MessageHead,
        superior: Option<&SuperiorConf>,
    ) -> (res: Option<Result<MessageHead, AppError>>)
        requires
            credentials_given(superior),
        ensures
            name_count(header_fields(request.headers)) >= 6552
                ==> (res matches Some(Err(e)) && is_runtime_error(e, "Too many header names"@)),
            name_count(header_fields(request.headers)) < 6552 ==> {
                &&& (res is None) == !rewritable(locations@, request.uri@)
                &&& res matches Some(Ok(m)) ==> proxied_request(locations@, client_ip@, self.server_external_address@,
                    request.uri@, header_fields(request.headers), superior_credentials(superior))
                    == Some((m.uri@, header_fields(m.headers)))
                &&& res matches Some(Err(e)) ==> proxied_request(locations@, client_ip@, self.server_external_address@,
                    request.uri@, header_fields(request.headers), superior_credentials(superior)) is None
                    && e is ForwardHeaderError
            },
    {
        if header_map_name_count(&request.headers) >= 6552 {
            return Some(Err(AppError::RuntimeError("Too many header names".to_string())));
        }
        if request.uri.scheme.is_none() && self.needs_scheme(locations, &request.uri) {
            None
        } else {
            Some(self.create_proxied_request(locations, client_ip, request, superior))
        }
    }

    /// Whether a response's `Location`, if any, reads as text and can be rewritten.
    pub fn response_rewritable(&self, locations: &Vec<ProxyPassLocationConf>, headers: &http::HeaderMap) -> (res: bool)
        requires
            name_count(header_fields(*headers)) < 6554,
        ensures
            res == response_rewritable(locations@, header_fields(*headers)),
    {
        proof {
            lemma_proxy_names_stored();
        }
        let h = remove_hop_headers(headers);
        match header_map_get(&h, "location") {
            None => true,
            Some(v) => match header_value_to_str(v.as_slice()) {
                None => false,
                Some(text) => match parse_uri(text.as_str()) {
                    None => true,
                    Some(u) => u.scheme.is_some() || !self.needs_scheme(locations, &u),
                },
            },
        }
    }

    /// The returned response headers, or `None` when the response's
    /// `Location` does not read as text or cannot be rewritten (where the
    /// response is not returned); a runtime error `Too many header names`
    /// when the response has 6554 or more header names.
    pub fn prepare_response(&self, locations: &Vec<ProxyPassLocationConf>, headers: &http::HeaderMap) -> (res: Option<Result<http::HeaderMap, AppError>>)
        ensures
            name_count(header_fields(*headers)) >= 6554
                ==> (res matches Some(Err(e)) && is_runtime_error(e, "Too many header names"@)),
            name_count(header_fields(*headers)) < 6554 ==> {
                &&& (res is None) == !response_rewritable(locations@, header_fields(*headers))
                &&& res matches Some(r) ==> (r matches Ok(h)
                    && header_fields(h) == proxied_response(locations@, header_fields(*headers)))
            },
    {
        if header_map_name_count(headers) >= 6554 {
            return Some(Err(AppError::RuntimeError("Too many header names".to_string())));
        }
        if self.response_rewritable(locations, headers) {
            Some(self.create_proxied_response(locations, headers))
        } else {
            None
        }
    }

    /// What a request whose forwarding failed is answered: status 500 with
    /// the message for a runtime error; status 400 otherwise, with the
    /// message of a configuration or URI error, `Unknown Error` for a header
    /// that could not be forwarded, and the error's text (after `Join Error:  `
    /// or `IO Error:  ` for those kinds) for the others.
    pub fn error_reply(e: &AppError) -> (res: (u16, String))
        ensures
            res.0 == (if e is RuntimeError { 500u16 } else { 400u16 }),
            match e {
                AppError::ConfigError(m) => res.1@ == m@,
                AppError::UriError(m) => res.1@ == m@,
                AppError::RuntimeError(m) => res.1@ == m@,
                AppError::ForwardHeaderError => res.1@ == "Unknown Error"@,
                AppError::JoinError(_) => "Join Error:  "@.is_prefix_of(res.1@),
                AppError::IOError(_) => "IO Error:  "@.is_prefix_of(res.1@),
                _ => true,
            },
    {
        match e {
            AppError::ConfigError(m) => (400, m.clone()),
            AppError::JoinError(err) => {
                let mut t = "Join Error:  ".to_string();
                t.append(join_error_text(err).as_str());
                (400, t)
            },
            AppError::IOError(err) => {
                let mut t = "IO Error:  ".to_string();
                t.append(io_error_text(err).as_str());
                (400, t)
            },
            AppError::UriError(m) => (400, m.clone()),
            AppError::InvalidUri(err) => (400, invalid_uri_text(err)),
            AppError::HttpError(err) => (400, http_error_text(err)),
            AppError::HyperError(err) => (400, hyper_error_text(err)),
            AppError::RuntimeError(m) => (500, m.clone()),
            AppError::ForwardHeaderError => (400, "Unknown Error".to_string()),
        }
    }

    /// How to reach the upstream proxy `superior` for a forwarded request,
    /// given whether its address was resolved: the address must resolve and
    /// its URI needs a host; it is reached over TLS unless its scheme is
    /// given and is not `https`.
    pub fn superior_connection(superior: &SuperiorConf, resolved: bool) -> (res: Result<SuperiorConnection, AppError>)
        ensures
            match res {
                Ok(SuperiorConnection::Tls(h)) => resolved && superior.uri.host@ == Some(h)
                    && (superior.uri.scheme is None || superior.uri.scheme.unwrap()@ == "https"@),
                Ok(SuperiorConnection::Plain) => resolved && superior.uri.host is Some
                    && superior.uri.scheme is Some && superior.uri.scheme.unwrap()@ != "https"@,
                Err(e) => if !resolved {
                    is_runtime_error(e, "Can't parse superior address"@)
                } else {
                    superior.uri.host is None
                        && is_runtime_error(e, "Can't parse superior host: "@ + superior.uri.text@)
                },
            },
    {
        if !resolved {
            return Err(AppError::RuntimeError("Can't parse superior address".to_string()));
        }
        let host = match &superior.uri.host {
            Some(h) => h.clone(),
            None => {
                let mut m = "Can't parse superior host: ".to_string();
                m.append(superior.uri.text.as_str());
                return Err(AppError::RuntimeError(m));
            },
        };
        let tls = match &superior.uri.scheme {
            None => true,
            Some(s) => text_eq(s, "https"),
        };
        if tls {
            Ok(SuperiorConnection::Tls(host))
        } else {
            Ok(SuperiorConnection::Plain)
        }
    }
}

// ---------------------------------------------------------------------------
// Laws of forwarding.
// ---------------------------------------------------------------------------

/// A request forwarded without an upstream proxy carries no hop-by-hop header.
pub proof fn law_direct_request_has_no_hop_headers(
    locs: Seq<ProxyPassLocationConf>,
    client_ip: Seq<char>,
    ext: Seq<char>,
    u: UriView,
    h: HeaderSeq,
)
    ensures
        proxied_request(locs, client_ip, ext, u, h, None) matches Some((nu, r)) ==> no_hop(r),
{
    law_without_hop_keeps_end_to_end_names(h, Seq::empty());
    lemma_forwarded_names_not_hop();
    let h1 = without_hop(h);
    match retargeted(locs, u, h1) {
        None => {},
        Some((nu, h2)) => {
            match proxied_uri(locs, u) {
                None => {},
                Some(pu) => match host_port(pu) {
                    None => {},
                    Some(hp) => {
                        if valid_value(vstd::utf8::encode_utf8(hp)) {
                            lemma_inserted_no_hop(h1, "host"@, vstd::utf8::encode_utf8(hp));
                        }
                    },
                },
            }
            match forwarded_for_text(h2, client_ip, ext) {
                None => {},
                Some(t) => {
                    if valid_value(vstd::utf8::encode_utf8(t)) {
                        lemma_inserted_no_hop(h2, "x-forwarded-for"@, vstd::utf8::encode_utf8(t));
                    }
                },
            }
        },
    }
}

/// A request forwarded through an upstream proxy carries that proxy's
/// `Basic` credentials in `Proxy-Authorization`.
pub proof fn law_superior_request_carries_credentials(
    locs: Seq<ProxyPassLocationConf>,
    client_ip: Seq<char>,
    ext: Seq<char>,
    u: UriView,
    h: HeaderSeq,
    user: Seq<char>,
    password: Seq<char>,
)
    ensures
        proxied_request(locs, client_ip, ext, u, h, Some((user, password))) matches Some((nu, r))
            ==> first_value(r, "proxy-authorization"@) == Some(spec_basic_authorization(user, password)),
{
    reveal_strlit("proxy-authorization");
    reveal_strlit("host");
    reveal_strlit("x-forwarded-for");
    assert("host"@ != "proxy-authorization"@) by {
        assert("host"@.len() != "proxy-authorization"@.len());
    }
    assert("x-forwarded-for"@ != "proxy-authorization"@) by {
        assert("x-forwarded-for"@.len() != "proxy-authorization"@.len());
    }
    let auth = spec_basic_authorization(user, password);
    let h1 = inserted(h, "proxy-authorization"@, auth);
    lemma_inserted_values(h, "proxy-authorization"@, auth, "proxy-authorization"@);
    match retargeted(locs, u, h1) {
        None => {},
        Some((nu, h2)) => {
            match proxied_uri(locs, u) {
                None => {},
                Some(pu) => match host_port(pu) {
                    None => {},
                    Some(hp) => {
                        lemma_inserted_values(h1, "host"@, vstd::utf8::encode_utf8(hp), "proxy-authorization"@);
                    },
                },
            }
            match forwarded_for_text(h2, client_ip, ext) {
                None => {},
                Some(t) => {
                    lemma_inserted_values(h2, "x-forwarded-for"@, vstd::utf8::encode_utf8(t), "proxy-authorization"@);
                },
            }
        },
    }
}

/// A forwarded request's `X-Forwarded-For` ends with `, ` and this proxy's
/// external address.
pub proof fn law_forwarded_for_ends_with_proxy(
    locs: Seq<ProxyPassLocationConf>,
    client_ip: Seq<char>,
    ext: Seq<char>,
    u: UriView,
    h: HeaderSeq,
    creds: Option<(Seq<char>, Seq<char>)>,
)
    ensures
        proxied_request(locs, client_ip, ext, u, h, creds) matches Some((nu, r)) ==> exists|p: Seq<char>|
            first_value(r, "x-forwarded-for"@) == Some(vstd::utf8::encode_utf8(#[trigger] (p + ", "@ + ext))),
{
    match retargeted(locs, u, authorized_headers(h, creds)) {
        None => {},
        Some((nu, h2)) => {
            match first_value(h2, "x-forwarded-for"@) {
                None => {
                    let t = client_ip + ", "@ + ext;
                    lemma_inserted_values(h2, "x-forwarded-for"@, vstd::utf8::encode_utf8(t), "x-forwarded-for"@);
                },
                Some(v) => {
                    let t = ascii_text(v) + ", "@ + ext;
                    lemma_inserted_values(h2, "x-forwarded-for"@, vstd::utf8::encode_utf8(t), "x-forwarded-for"@);
                },
            }
        },
    }
}

/// A returned response carries no hop-by-hop header.
pub proof fn law_response_has_no_hop_headers(locs: Seq<ProxyPassLocationConf>, h: HeaderSeq)
    ensures
        no_hop(proxied_response(locs, h)),
{
    law_without_hop_keeps_end_to_end_names(h, Seq::empty());
    lemma_forwarded_names_not_hop();
    let h1 = without_hop(h);
    match first_value(h1, "location"@) {
        None => {},
        Some(v) => match spec_parse_uri(ascii_text(v)) {
            None => {},
            Some(pu) => match proxied_uri(locs, pu) {
                None => {},
                Some(nu) => {
                    lemma_inserted_no_hop(h1, "location"@, vstd::utf8::encode_utf8(nu.text));
                },
            },
        },
    }
}

} // verus!
