//! One listening server of the proxy and the decisions it takes on each
//! request: who is let through, which requests are tunnelled, forwarded or
//! answered directly, and how a missing authorization is challenged.

use vstd::prelude::*;
use crate::conf::AppConf;
use crate::conf::credential_conf::CredentialConf;
use crate::conf::subnet_conf::SubnetConf;
use crate::conf::tunnal_conf::superior_conf::SuperiorConf;
use crate::error::AppError;
use crate::header::{
    HeaderSeq, ascii_text, first_value, header_fields, header_map_get, header_value_to_str, lemma_proxy_names_stored,
    lower_text, valid_value, visible_ascii,
};
use crate::text::{opt_chars, split_on, split_text, str_eq, text_eq};
use crate::uri::UriParts;

verus! {

// ---------------------------------------------------------------------------
// Outside computations: base64 decoding, UTF-8 decoding.
// ---------------------------------------------------------------------------

/// What standard base64 decoding (`base64::decode`) makes of some bytes;
/// `None` when they are not valid base64.
pub uninterp spec fn spec_base64_decode(data: Seq<u8>) -> Option<Seq<u8>>;

/// Decodes standard base64 (`base64::decode`).
/// Claimed: the result is `spec_base64_decode` of the bytes.
#[verifier::external_body]
fn base64_decode(data: &[u8]) -> (res: Option<Vec<u8>>)
    ensures
        match res {
            Some(v) => spec_base64_decode(data@) == Some(v@),
            None => spec_base64_decode(data@) is None,
        },
{
    base64::decode(data).ok()
}

/// Reads bytes as UTF-8 text (`String::from_utf8`).
/// Claimed, as std documents it: `Some` exactly when the bytes are valid
/// UTF-8, with the characters they encode.
#[verifier::external_body]
fn utf8_text(bytes: Vec<u8>) -> (res: Option<String>)
    ensures
        (res is Some) == vstd::utf8::valid_utf8(bytes@),
        res matches Some(s) ==> s@ == vstd::utf8::decode_utf8(bytes@),
{
    String::from_utf8(bytes).ok()
}

// ---------------------------------------------------------------------------
// Authorization.
// ---------------------------------------------------------------------------

/// The decoded credentials of an authorization text `scheme credentials`:
/// the text must split at spaces into exactly two pieces, the second of
/// which decodes from base64 to UTF-8 text.
pub open spec fn decoded_credentials(text: Seq<char>) -> Option<Seq<char>> {
    let parts = split_on(text, ' ');
    if parts.len() != 2 {
        None
    } else {
        match spec_base64_decode(vstd::utf8::encode_utf8(parts[1])) {
            None => None,
            Some(b) => if vstd::utf8::valid_utf8(b) {
                Some(vstd::utf8::decode_utf8(b))
            } else {
                None
            },
        }
    }
}

/// `user:passwd` of a configured credential.
pub open spec fn credential_text(c: CredentialConf) -> Seq<char> {
    c.user@ + ":"@ + c.passwd@
}

/// The header `name` carries credentials of one of the configured users:
/// its first value reads as text and decodes to `user:passwd` of one of them.
pub open spec fn authorized_by(credentials: Seq<CredentialConf>, h: HeaderSeq, name: Seq<char>) -> bool {
    match first_value(h, name) {
        None => false,
        Some(v) => visible_ascii(v) && match decoded_credentials(ascii_text(v)) {
            None => false,
            Some(a) => exists|i: int| 0 <= i < credentials.len() && a == credential_text(#[trigger] credentials[i]),
        },
    }
}

/// The address is on the white list as an `ip` entry.
pub open spec fn white_listed(whitelists: Seq<SubnetConf>, ip: Seq<char>) -> bool {
    exists|i: int| 0 <= i < whitelists.len() && (#[trigger] whitelists[i]).typ@ == "ip"@ && whitelists[i].exp@ == ip
}

/// An `ip` entry equal to the address, at any position of the white list,
/// lets the peer through; with none, the peer is not white-listed.
pub proof fn law_any_matching_entry_white_lists(whitelists: Seq<SubnetConf>, ip: Seq<char>, i: int)
    ensures
        0 <= i < whitelists.len() && whitelists[i].typ@ == "ip"@ && whitelists[i].exp@ == ip
            ==> white_listed(whitelists, ip),
        (forall|a: int| 0 <= a < whitelists.len() ==> !((#[trigger] whitelists[a]).typ@ == "ip"@ && whitelists[a].exp@ == ip))
            ==> !white_listed(whitelists, ip),
{
}

/// None of the destination addresses is one of this host's `ip` networks, so
/// the request is for another host.
pub open spec fn foreign_destination(hostnets: Seq<SubnetConf>, ips: Seq<String>) -> bool {
    !exists|i: int, j: int| 0 <= i < hostnets.len() && 0 <= j < ips.len()
        && (#[trigger] hostnets[i]).typ@ == "ip"@ && (#[trigger] ips[j])@ == hostnets[i].exp@
}

/// One destination address, at any position, that equals a local `ip`
/// network makes the destination local; with none, it is foreign.
pub proof fn law_any_local_address_makes_the_destination_local(hostnets: Seq<SubnetConf>, ips: Seq<String>, i: int, j: int)
    ensures
        0 <= i < hostnets.len() && 0 <= j < ips.len() && hostnets[i].typ@ == "ip"@ && ips[j]@ == hostnets[i].exp@
            ==> !foreign_destination(hostnets, ips),
        (forall|a: int, b: int| 0 <= a < hostnets.len() && 0 <= b < ips.len()
            ==> !((#[trigger] hostnets[a]).typ@ == "ip"@ && (#[trigger] ips[b])@ == hostnets[a].exp@))
            ==> foreign_destination(hostnets, ips),
{
}

/// `i` is the position of the first upstream proxy named `id`.
pub open spec fn first_superior(superiors: Seq<SuperiorConf>, id: Seq<char>, i: int) -> bool {
    &&& 0 <= i < superiors.len()
    &&& superiors[i].id@ == id
    &&& forall|j: int| 0 <= j < i ==> (#[trigger] superiors[j]).id@ != id
}

/// No upstream proxy is named `id`.
pub open spec fn no_superior(superiors: Seq<SuperiorConf>, id: Seq<char>) -> bool {
    forall|j: int| 0 <= j < superiors.len() ==> (#[trigger] superiors[j]).id@ != id
}

/// The host a request is for: its `Host` header when it has one (`None`
/// when that does not read as text), else the host of its target.
pub open spec fn destination_host(h: HeaderSeq, u: crate::uri::UriView) -> Option<Seq<char>> {
    match first_value(h, "host"@) {
        None => u.host,
        Some(v) => if visible_ascii(v) {
            Some(ascii_text(v))
        } else {
            None
        },
    }
}

/// The host a request is for, read from its `Host` header or its target.
pub fn request_destination(headers: &http::HeaderMap, uri: &UriParts) -> (res: Option<String>)
    ensures
        opt_chars(res) == destination_host(header_fields(*headers), uri@),
{
    proof {
        lemma_proxy_names_stored();
    }
    match header_map_get(headers, "host") {
        None => match &uri.host {
            Some(h) => Some(h.clone()),
            None => None,
        },
        Some(v) => header_value_to_str(v.as_slice()),
    }
}

/// The response that asks for authorization.
pub struct Reply {
    pub status: u16,
    pub headers: Vec<(String, String)>,
    pub body: String,
}

/// What is done with a request.
pub enum RequestAction {
    /// Authorization is required: answer with this status, asking for it in
    /// the header of this name.
    Challenge(u16, String),
    /// Tunnel through the upstream proxy at this position.
    TunnelToSuperior(usize),
    /// Tunnel straight to the destination.
    TunnelToDestination,
    /// Forward the request, through the upstream proxy at the position if any.
    Reverse(Option<usize>),
    /// Answer directly with this status and body.
    Answer(u16, String),
}

/// A listening server: its identifier, optional upstream proxy, realm name,
/// the services behind it, and its address.
pub struct Proxier<S> {
    pub id: String,
    pub superior_id: Option<String>,
    pub name: String,
    pub svc: S,
    pub sock: String,
}

impl<S> Proxier<S> {
    /// A server with the given identifier, upstream proxy, realm, address and services.
    pub fn new(id: &str, superior_id: Option<String>, name: &str, sock: String, svc: S) -> (res: Result<Self, AppError>)
        ensures
            res matches Ok(p) && p.id@ == id@ && p.superior_id == superior_id && p.name@ == name@
                && p.sock == sock && p.svc == svc,
    {
        Ok(Proxier { id: id.to_string(), superior_id, name: name.to_string(), sock, svc })
    }

    /// The listening address.
    pub fn get_sock(&self) -> (res: &String)
        ensures
            res == &self.sock,
    {
        &self.sock
    }

    /// A one-line description: `'id' server on address`, followed by
    /// ` and tunnal to 'superior'` when there is an upstream proxy.
    pub fn get_introducation(&self) -> (res: String)
        ensures
            res@ == "'"@ + self.id@ + "' server on "@ + self.sock@ + match self.superior_id {
                Some(s) => " and tunnal to '"@ + s@ + "'"@,
                None => Seq::<char>::empty(),
            },
    {
        let mut s = "'".to_string();
        s.append(self.id.as_str());
        s.append("' server on ");
        s.append(self.sock.as_str());
        match &self.superior_id {
            Some(sup) => {
                s.append(" and tunnal to '");
                s.append(sup.as_str());
                s.append("'");
            },
            None => {},
        }
        s
    }

    /// Whether the peer address `ip` is on the white list.
    #[verifier::loop_isolation(false)]
    pub fn is_white(&self, conf: &AppConf, ip: &str) -> (res: bool)
        ensures
            res == white_listed(conf.secure.whitelists@, ip@),
            forall|i: int| 0 <= i < conf.secure.whitelists@.len() && (#[trigger] conf.secure.whitelists@[i]).typ@ == "ip"@
                && conf.secure.whitelists@[i].exp@ == ip@ ==> res,
    {
        let w = &conf.secure.whitelists;
        let n = w.len();
        let mut i: usize = 0;
        while i < n
            invariant
                n == w@.len(),
                i <= n,
                forall|j: int| 0 <= j < i ==> !((#[trigger] w@[j]).typ@ == "ip"@ && w@[j].exp@ == ip@),
            decreases n - i,
        {
            if text_eq(&w[i].typ, "ip") && text_eq(&w[i].exp, ip) {
                assert(w@[i as int].typ@ == "ip"@ && w@[i as int].exp@ == ip@);
                return true;
            }
            i = i + 1;
        }
        false
    }

    /// Whether a request whose destination resolves to the addresses `ips` is
    /// for another host, and so is to be forwarded.
    #[verifier::loop_isolation(false)]
    pub fn is_reverse(&self, conf: &AppConf, ips: &Vec<String>) -> (res: bool)
        ensures
            res == foreign_destination(conf.hostnets@, ips@),
            forall|a: int, b: int| 0 <= a < conf.hostnets@.len() && 0 <= b < ips@.len()
                && (#[trigger] conf.hostnets@[a]).typ@ == "ip"@ && (#[trigger] ips@[b])@ == conf.hostnets@[a].exp@ ==> !res,
    {
        let h = &conf.hostnets;
        let n = h.len();
        let m = ips.len();
        let mut i: usize = 0;
        while i < n
            invariant
                n == h@.len(),
                m == ips@.len(),
                i <= n,
                forall|a: int, b: int| 0 <= a < i && 0 <= b < m ==> !((#[trigger] h@[a]).typ@ == "ip"@
                    && (#[trigger] ips@[b])@ == h@[a].exp@),
            decreases n - i,
        {
            let mut j: usize = 0;
            while j < m
                invariant
                    n == h@.len(),
                    m == ips@.len(),
                    i < n,
                    j <= m,
                    forall|a: int, b: int| 0 <= a < i && 0 <= b < m ==> !((#[trigger] h@[a]).typ@ == "ip"@
                        && (#[trigger] ips@[b])@ == h@[a].exp@),
                    forall|b: int| 0 <= b < j ==> !(h@[i as int].typ@ == "ip"@ && (#[trigger] ips@[b])@ == h@[i as int].exp@),
                decreases m - j,
            {
                if text_eq(&h[i].typ, "ip") && ips[j] == h[i].exp {
                    assert(h@[i as int].typ@ == "ip"@ && ips@[j as int]@ == h@[i as int].exp@);
                    return false;
                }
                j = j + 1;
            }
            i = i + 1;
        }
        true
    }

    /// Whether the header `name` carries the credentials of a configured user,
    /// given as `scheme base64(user:passwd)`.
    #[verifier::loop_isolation(false)]
    pub fn authorize(&self, conf: &AppConf, headers: &http::HeaderMap, name: &str) -> (res: bool)
        ensures
            res == authorized_by(conf.credentials@, header_fields(*headers), lower_text(name@)),
    {
        let value = match header_map_get(headers, name) {
            None => {
                return false;
            },
            Some(v) => v,
        };
        let text = match header_value_to_str(value.as_slice()) {
            None => {
                return false;
            },
            Some(t) => t,
        };
        let parts = split_text(text.as_str(), ' ');
        let ghost pv = parts@.map_values(|p: String| p@);
        if parts.len() != 2 {
            assert(pv.len() == parts@.len());
            return false;
        }
        assert(pv[1] == parts@[1]@);
        let decoded = match base64_decode(parts[1].as_str().as_bytes()) {
            None => {
                return false;
            },
            Some(d) => d,
        };
        let auth = match utf8_text(decoded) {
            None => {
                return false;
            },
            Some(a) => a,
        };
        let c = &conf.credentials;
        let n = c.len();
        let mut i: usize = 0;
        while i < n
            invariant
                n == c@.len(),
                i <= n,
                forall|j: int| 0 <= j < i ==> auth@ != credential_text(#[trigger] c@[j]),
            decreases n - i,
        {
            let mut expected = c[i].user.clone();
            expected.append(":");
            expected.append(c[i].passwd.as_str());
            if auth == expected {
                assert(auth@ == credential_text(c@[i as int]));
                return true;
            }
            i = i + 1;
        }
        false
    }

    /// The position of this server's upstream proxy, if it has one that is configured.
    pub fn superior(&self, conf: &AppConf) -> (res: Option<usize>)
        ensures
            match self.superior_id {
                Some(id) => match res {
                    Some(i) => first_superior(conf.tunnal.superiors@, id@, i as int),
                    None => no_superior(conf.tunnal.superiors@, id@),
                },
                None => res is None,
            },
    {
        match &self.superior_id {
            Some(id) => conf.tunnal.find_superior(id),
            None => None,
        }
    }

    /// The peer may use the service: it is white-listed, or the header
    /// `header_name` carries the credentials of a configured user.
    pub open spec fn admits(&self, conf: &AppConf, peer_ip: Seq<char>, h: HeaderSeq, header_name: Seq<char>) -> bool {
        white_listed(conf.secure.whitelists@, peer_ip) || authorized_by(conf.credentials@, h, header_name)
    }

    /// `s` is the position of this server's configured upstream proxy, or
    /// `None` when it has none (or it is not configured).
    pub open spec fn superior_is(&self, conf: &AppConf, s: Option<usize>) -> bool {
        match self.superior_id {
            Some(id) => match s {
                Some(i) => first_superior(conf.tunnal.superiors@, id@, i as int),
                None => no_superior(conf.tunnal.superiors@, id@),
            },
            None => s is None,
        }
    }

    /// What is done with a request from the peer `peer_ip`:
    /// a `CONNECT` request, and a request for another host (`reverse`), need
    /// the peer to be white-listed or to give credentials in
    /// `Proxy-Authorization`, else they are challenged with 407 and
    /// `Proxy-Authenticate`; a `CONNECT` request is then tunnelled through
    /// the server's upstream proxy if it has one, else straight to its
    /// destination, and a request for another host is forwarded.
    /// Any other request needs the peer to be white-listed or to give
    /// credentials in `Authorization`, else it is challenged with 401 and
    /// `WWW-Authenticate`; it is answered 200 `Welcome!` for the path `/` and
    /// 404 with its path otherwise.
    pub fn request_action(
        &self,
        conf: &AppConf,
        is_connect: bool,
        reverse: bool,
        peer_ip: &str,
        headers: &http::HeaderMap,
        path: &str,
    ) -> (res: RequestAction)
        ensures
            match res {
                RequestAction::Challenge(status, header_name) => if is_connect || reverse {
                    !self.admits(conf, peer_ip@, header_fields(*headers), "proxy-authorization"@) && status == 407
                        && header_name@ == "proxy-authenticate"@
                } else {
                    !self.admits(conf, peer_ip@, header_fields(*headers), "authorization"@) && status == 401
                        && header_name@ == "www-authenticate"@
                },
                RequestAction::TunnelToSuperior(i) => is_connect
                    && self.admits(conf, peer_ip@, header_fields(*headers), "proxy-authorization"@) && self.superior_is(conf, Some(i)),
                RequestAction::TunnelToDestination => is_connect
                    && self.admits(conf, peer_ip@, header_fields(*headers), "proxy-authorization"@) && self.superior_is(conf, None),
                RequestAction::Reverse(s) => !is_connect && reverse
                    && self.admits(conf, peer_ip@, header_fields(*headers), "proxy-authorization"@) && self.superior_is(conf, s),
                RequestAction::Answer(status, body) => !is_connect && !reverse
                    && self.admits(conf, peer_ip@, header_fields(*headers), "authorization"@) && if path@ == "/"@ {
                        status == 200 && body@ == "Welcome!"@
                    } else {
                        status == 404 && body@ == path@
                    },
            },
            white_listed(conf.secure.whitelists@, peer_ip@) ==> !(res is Challenge),
    {
        proof {
            lemma_proxy_names_stored();
        }
        let superior = self.superior(conf);
        if is_connect {
            if !self.is_white(conf, peer_ip) && !self.authorize(conf, headers, "proxy-authorization") {
                return RequestAction::Challenge(407, "proxy-authenticate".to_string());
            }
            match superior {
                Some(i) => RequestAction::TunnelToSuperior(i),
                None => RequestAction::TunnelToDestination,
            }
        } else if reverse {
            if !self.is_white(conf, peer_ip) && !self.authorize(conf, headers, "proxy-authorization") {
                return RequestAction::Challenge(407, "proxy-authenticate".to_string());
            }
            RequestAction::Reverse(superior)
        } else {
            if !self.is_white(conf, peer_ip) && !self.authorize(conf, headers, "authorization") {
                return RequestAction::Challenge(401, "www-authenticate".to_string());
            }
            if str_eq(path, "/") {
                RequestAction::Answer(200, "Welcome!".to_string())
            } else {
                RequestAction::Answer(404, path.to_string())
            }
        }
    }

    /// The challenge response: the given status, the header `header_name`
    /// asking for `Basic` credentials in this server's realm, the header
    /// `Proxy-Agent` naming the server, and the body `No authentication`.
    pub fn build_authenticate_response(&self, status: u16, header_name: &str) -> (res: Reply)
        requires
            valid_value(vstd::utf8::encode_utf8(self.name@)),
        ensures
            res.status == status,
            res.headers@.len() == 2,
            res.headers@[0].0@ == header_name@,
            res.headers@[0].1@ == "Basic realm=\""@ + self.name@ + "\""@,
            res.headers@[1].0@ == "Proxy-Agent"@,
            res.headers@[1].1@ == self.name@,
            res.body@ == "No authentication"@,
    {
        let mut realm = "Basic realm=\"".to_string();
        realm.append(self.name.as_str());
        realm.append("\"");
        let mut headers: Vec<(String, String)> = Vec::new();
        headers.push((header_name.to_string(), realm));
        headers.push(("Proxy-Agent".to_string(), self.name.clone()));
        Reply { status, headers, body: "No authentication".to_string() }
    }
}

} // verus!
