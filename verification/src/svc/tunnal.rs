//! Tunnelling of `CONNECT` requests, directly or through an upstream proxy:
//! what is sent to the upstream proxy, how its answer is judged, and how the
//! connection to it is chosen.

use vstd::prelude::*;
use std::convert::TryFrom;
use crate::conf::tunnal_conf::superior_conf::SuperiorConf;
use crate::error::{AppError, is_runtime_error};
use crate::text::{base64_text, opt_chars, text_eq};
use crate::uri::UriParts;

pub mod stream;

verus! {

#[verifier::external_type_specification]
#[verifier::external_body]
pub struct ExServerName(rustls::ServerName);

// ---------------------------------------------------------------------------
// Outside computations: base64, response heads, TLS server names.
// ---------------------------------------------------------------------------

/// Encodes bytes in standard base64 (`base64::encode`).
/// Claimed, from the crate's source: the text is the standard, padded
/// encoding `base64_text` of the bytes.
#[verifier::external_body]
pub(crate) fn base64_encode(data: &[u8]) -> (res: String)
    ensures
        res@ == base64_text(data@),
{
    base64::encode(data)
}

/// What is read of an HTTP response head with room for one header field.
pub struct ReplyHead {
    /// The parse error's text, when the head is malformed.
    pub error: Option<String>,
    /// The status code, when it was read.
    pub code: Option<u16>,
    /// The reason phrase, when it was read.
    pub reason: Option<String>,
}

/// The abstract value of a response head.
pub struct ReplyHeadView {
    pub error: Option<Seq<char>>,
    pub code: Option<u16>,
    pub reason: Option<Seq<char>>,
}

impl View for ReplyHead {
    type V = ReplyHeadView;

    open spec fn view(&self) -> ReplyHeadView {
        ReplyHeadView { error: opt_chars(self.error), code: self.code, reason: opt_chars(self.reason) }
    }
}

/// What `httparse::Response::parse`, with room for one header field, reads
/// of some bytes.
pub uninterp spec fn spec_reply_head(raw: Seq<u8>) -> ReplyHeadView;

/// Parses an HTTP response head with room for one header field
/// (`httparse::Response::parse`); a parse error is returned as its text.
/// Claimed: the result is `spec_reply_head` of the bytes.
#[verifier::external_body]
pub(crate) fn parse_reply_head(raw: &[u8]) -> (res: ReplyHead)
    ensures
        res@ == spec_reply_head(raw@),
{
    let mut headers = [httparse::EMPTY_HEADER; 1];
    let mut response = httparse::Response::new(&mut headers[..]);
    match response.parse(raw) {
        Ok(_) => ReplyHead { error: None, code: response.code, reason: response.reason.map(|r| r.to_string()) },
        Err(e) => ReplyHead { error: Some(format!("{}", e)), code: None, reason: None },
    }
}

/// Whether `rustls::ServerName::try_from` accepts a host (a DNS name or an IP address).
pub uninterp spec fn spec_server_name_valid(host: Seq<char>) -> bool;

/// The TLS server name of a host (`rustls::ServerName::try_from`), or the
/// error's text.
/// Claimed: `Ok` exactly when `spec_server_name_valid` holds of the host; the
/// error's text is `invalid dns name` (the crate's `Display` of the error).
#[verifier::external_body]
pub(crate) fn server_name(host: &str) -> (res: Result<rustls::ServerName, String>)
    ensures
        (res is Ok) == spec_server_name_valid(host@),
        res matches Err(m) ==> m@ == "invalid dns name"@,
{
    rustls::ServerName::try_from(host).map_err(|e| e.to_string())
}

/// The TLS server name to connect to an upstream proxy at `host`; a runtime
/// error `invalid dns name` when the host is neither a DNS name nor an address.
pub fn tls_server_name(host: &str) -> (res: Result<rustls::ServerName, AppError>)
    ensures
        (res is Ok) == spec_server_name_valid(host@),
        res matches Err(e) ==> is_runtime_error(e, "invalid dns name"@),
{
    match server_name(host) {
        Ok(n) => Ok(n),
        Err(m) => Err(AppError::RuntimeError(m)),
    }
}

// ---------------------------------------------------------------------------
// The `CONNECT` exchange with an upstream proxy.
// ---------------------------------------------------------------------------

/// The `CONNECT` request sent to an upstream proxy for the target `dest`,
/// with `Basic` credentials when both a user name and a password are given.
pub open spec fn connect_request_text(dest: Seq<char>, user: Option<Seq<char>>, password: Option<Seq<char>>) -> Seq<char> {
    let head = "CONNECT "@ + dest + " HTTP/1.1\r\nHost: "@ + dest + "\r\nProxy-Connection: Keep-Alive\r\n"@;
    match (user, password) {
        (Some(u), Some(p)) => head + "Proxy-Authorization: Basic "@
            + base64_text(vstd::utf8::encode_utf8(u + ":"@ + p)) + "\r\n\r\n"@,
        _ => head + "\r\n"@,
    }
}

/// How an upstream proxy's answer to `CONNECT` is judged: a malformed head
/// fails with the parse error's text; a status other than 200 fails with
/// the reason phrase, or `Server Error` when there is none.
pub open spec fn connect_reply_outcome(raw: Seq<u8>) -> Result<(), Seq<char>> {
    let r = spec_reply_head(raw);
    match r.error {
        Some(m) => Err(m),
        None => if r.code == Some(200u16) {
            Ok(())
        } else {
            Err(match r.reason {
                Some(x) => x,
                None => "Server Error"@,
            })
        },
    }
}

/// A well-formed answer with status 200 opens the tunnel, whatever its
/// reason phrase; any other status, or a malformed answer, does not.
pub proof fn law_status_200_opens_the_tunnel(raw: Seq<u8>)
    ensures
        spec_reply_head(raw).error is None && spec_reply_head(raw).code == Some(200u16)
            ==> connect_reply_outcome(raw) is Ok,
        spec_reply_head(raw).code != Some(200u16) ==> connect_reply_outcome(raw) is Err,
        spec_reply_head(raw).error is Some ==> connect_reply_outcome(raw) is Err,
{
}

/// How a tunnel through an upstream proxy is opened.
pub enum TunnelPlan {
    /// Over TLS to the proxy at the host.
    Tls(String),
    /// Over plain TCP.
    Plain,
    /// Not at all: the request is answered with this status and body.
    Unsupported(u16, String),
}

/// The tunnelling service for `CONNECT` requests.
pub struct TunnalSvc<C> {
    pub tls_client_config: C,
}

impl<C> TunnalSvc<C> {
    /// A tunnelling service that uses `client_config` for TLS connections.
    pub fn new(client_config: C) -> (res: Self)
        ensures
            res.tls_client_config == client_config,
    {
        TunnalSvc { tls_client_config: client_config }
    }

    /// The `CONNECT` request for the target `dest` sent to the upstream proxy `conf`.
    pub fn connect_request(dest: &str, conf: &SuperiorConf) -> (res: String)
        ensures
            res@ == connect_request_text(dest@, opt_chars(conf.username), opt_chars(conf.password)),
    {
        let mut content = "CONNECT ".to_string();
        content.append(dest);
        content.append(" HTTP/1.1\r\nHost: ");
        content.append(dest);
        content.append("\r\nProxy-Connection: Keep-Alive\r\n");
        match (&conf.username, &conf.password) {
            (Some(u), Some(p)) => {
                let mut credentials = u.clone();
                credentials.append(":");
                credentials.append(p.as_str());
                let auth = base64_encode(credentials.as_str().as_bytes());
                content.append("Proxy-Authorization: Basic ");
                content.append(auth.as_str());
                content.append("\r\n\r\n");
            },
            _ => {
                content.append("\r\n");
            },
        }
        content
    }

    /// Judges the upstream proxy's answer `raw` to `CONNECT`: `Ok` for status
    /// 200, else a runtime error with the parse error, the reason phrase, or
    /// `Server Error`.
    pub fn check_connect_reply(raw: &[u8]) -> (res: Result<(), AppError>)
        ensures
            match connect_reply_outcome(raw@) {
                Ok(()) => res is Ok,
                Err(m) => res matches Err(e) && is_runtime_error(e, m),
            },
            spec_reply_head(raw@).error is None && spec_reply_head(raw@).code == Some(200u16) ==> res is Ok,
            spec_reply_head(raw@).code != Some(200u16) ==> res is Err,
    {
        let head = parse_reply_head(raw);
        match head.error {
            Some(m) => Err(AppError::RuntimeError(m)),
            None => {
                if head.code == Some(200u16) {
                    Ok(())
                } else {
                    match head.reason {
                        Some(x) => Err(AppError::RuntimeError(x)),
                        None => Err(AppError::RuntimeError("Server Error".to_string())),
                    }
                }
            },
        }
    }

    /// The error of a tunnel whose destination `uri` does not give a socket
    /// address: `Can't parse destination addr: ` and the URI.
    pub fn destination_error(uri: &UriParts) -> (res: AppError)
        ensures
            is_runtime_error(res, "Can't parse destination addr: "@ + uri.text@),
    {
        let mut m = "Can't parse destination addr: ".to_string();
        m.append(uri.text.as_str());
        AppError::RuntimeError(m)
    }

    /// How to reach the upstream proxy `superior` for a tunnel, given whether
    /// its address was resolved: its URI needs a host, a resolved address and
    /// a scheme; `https` is reached over TLS, `http` over plain TCP, and any
    /// other scheme is answered 400 `CONNECT must be to a socket address`.
    pub fn superior_plan(superior: &SuperiorConf, resolved: bool) -> (res: Result<TunnelPlan, AppError>)
        ensures
            match res {
                Ok(TunnelPlan::Tls(h)) => superior.uri.host@ == Some(h) && resolved
                    && opt_chars(superior.uri.scheme) == Some("https"@),
                Ok(TunnelPlan::Plain) => superior.uri.host is Some && resolved
                    && opt_chars(superior.uri.scheme) == Some("http"@),
                Ok(TunnelPlan::Unsupported(status, body)) => superior.uri.host is Some && resolved
                    && superior.uri.scheme is Some
                    && opt_chars(superior.uri.scheme) != Some("https"@)
                    && opt_chars(superior.uri.scheme) != Some("http"@)
                    && status == 400 && body@ == "CONNECT must be to a socket address"@,
                Err(e) => if superior.uri.host is None {
                    is_runtime_error(e, "Can't parse superior host: "@ + superior.uri.text@)
                } else if !resolved {
                    is_runtime_error(e, "Can't parse superior addr: "@ + superior.uri.text@)
                } else {
                    superior.uri.scheme is None
                        && is_runtime_error(e, "Can't parse superior schem: "@ + superior.uri.text@)
                },
            },
    {
        let host = match &superior.uri.host {
            Some(h) => h.clone(),
            None => {
                let mut m = "Can't parse superior host: ".to_string();
                m.append(superior.uri.text.as_str());
                return Err(AppError::RuntimeError(m));
            },
        };
        if !resolved {
            let mut m = "Can't parse superior addr: ".to_string();
            m.append(superior.uri.text.as_str());
            return Err(AppError::RuntimeError(m));
        }
        match &superior.uri.scheme {
            None => {
                let mut m = "Can't parse superior schem: ".to_string();
                m.append(superior.uri.text.as_str());
                Err(AppError::RuntimeError(m))
            },
            Some(s) => {
                if text_eq(s, "https") {
                    Ok(TunnelPlan::Tls(host))
                } else if text_eq(s, "http") {
                    Ok(TunnelPlan::Plain)
                } else {
                    Ok(TunnelPlan::Unsupported(400, "CONNECT must be to a socket address".to_string()))
                }
            },
        }
    }
}

} // verus!
