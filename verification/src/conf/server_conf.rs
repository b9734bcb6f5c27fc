//! A listening server of the proxy.

use vstd::prelude::*;
use crate::error::{AppError, is_config_error};
use crate::text::{decimal, decimal_string};
use crate::util::cert::blobs;
use crate::util::net::{is_socket_addr, socket_addr_text};

verus! {

#[verifier::external_type_specification]
#[verifier::external_body]
pub struct ExTlsServerConfig(rustls::ServerConfig);

/// Whether a DER private key is one rustls can sign with
/// (`rustls::sign::any_supported_type` reads it as an RSA, ECDSA or Ed25519
/// key, given a working random source).
pub uninterp spec fn spec_signing_key_supported(key: Seq<u8>) -> bool;

/// The certificate chain (as DER) that a server configuration presents.
pub uninterp spec fn server_config_chain(config: rustls::ServerConfig) -> Seq<Seq<u8>>;

/// The ALPN protocols a server configuration offers, in order of preference
/// (`ServerConfig::alpn_protocols`).
pub uninterp spec fn server_config_alpn(config: rustls::ServerConfig) -> Seq<Seq<u8>>;

/// What a TLS server configuration is built from: the certificate chain,
/// the private key, and the ALPN protocols in order of preference, all as
/// DER or ASCII bytes.
pub struct TlsServerPlan {
    pub certs: Vec<Vec<u8>>,
    pub key: Vec<u8>,
    pub alpn: Vec<Vec<u8>>,
}

/// Builds the TLS server configuration of a plan with rustls: the safe
/// default cipher suites, all key-exchange groups and all protocol versions,
/// no client authentication, the plan's chain and key (`with_single_cert`),
/// then the plan's ALPN protocols.
/// Claimed, from the crate's source: with these defaults only the key can be
/// refused; a build that succeeds had a key rustls can sign with
/// (`spec_signing_key_supported`) and presents the plan's chain
/// (`with_single_cert` keeps it in its resolver) and offers the plan's ALPN
/// protocols, and a refusal has the text `unexpected error: invalid private
/// key` (the `Display` of `Error::General`). Reading an ECDSA key draws on
/// the system's random source, so a supported key may still be refused.
/// Nothing else is claimed of what the configuration holds (the signing key
/// it keeps is no longer DER).
#[verifier::external_body]
fn rustls_server_config(plan: TlsServerPlan) -> (res: Result<rustls::ServerConfig, String>)
    ensures
        res is Ok ==> spec_signing_key_supported(plan.key@),
        res matches Ok(c) ==> server_config_chain(c) == blobs(plan.certs@) && server_config_alpn(c) == blobs(plan.alpn@),
        res matches Err(m) ==> m@ == "unexpected error: invalid private key"@,
{
    let mut cfg = rustls::ServerConfig::builder()
        .with_safe_default_cipher_suites()
        .with_kx_groups(&rustls::ALL_KX_GROUPS)
        .with_protocol_versions(rustls::ALL_VERSIONS)
        .map_err(|e| format!("{}", e))?
        .with_client_cert_verifier(rustls::server::NoClientAuth::new())
        .with_single_cert(plan.certs.into_iter().map(rustls::Certificate).collect(), rustls::PrivateKey(plan.key))
        .map_err(|e| format!("{}", e))?;
    cfg.alpn_protocols = plan.alpn;
    Ok(cfg)
}

/// One listening server: where it listens, its realm, and its TLS identity.
pub struct ServerConf {
    pub id: String,
    pub host: String,
    pub port: u32,
    pub realm: String,
    pub on_https: bool,
    pub certfile: String,
    pub keyfile: String,
    pub superior_id: Option<String>,
    pub external_host_name: Option<String>,
}

impl ServerConf {
    /// The host is given and the port lies in `1..=65535`.
    pub open spec fn address_valid(&self) -> bool {
        self.host@.len() > 0 && 0 < self.port && self.port < 65536
    }

    /// The text `host:port` of the listening address.
    pub open spec fn address_text(&self) -> Seq<char> {
        self.host@ + ":"@ + decimal(self.port as nat)
    }

    /// The listening address `host:port`, which must be a socket address: an
    /// IP address (an IPv6 one in brackets) and the port. A host that is
    /// given and a port in `1..=65535` that do not form one give the error
    /// of the socket address parser, `AddrParseError(Socket)`.
    pub fn get_address(&self) -> (res: Result<String, AppError>)
        ensures
            match res {
                Ok(s) => self.address_valid() && s@ == self.address_text() && socket_addr_text(s@),
                Err(e) => if !self.address_valid() {
                    is_config_error(e, "Invalid server configuration"@)
                } else {
                    !socket_addr_text(self.address_text()) && is_config_error(e, "AddrParseError(Socket)"@)
                },
            },
    {
        if !self.host.as_str().is_empty() && 0 < self.port && 65536 > self.port {
            let mut s = self.host.clone();
            s.append(":");
            s.append(decimal_string(self.port as u64).as_str());
            if is_socket_addr(s.as_str()) {
                Ok(s)
            } else {
                Err(AppError::ConfigError("AddrParseError(Socket)".to_string()))
            }
        } else {
            Err(AppError::ConfigError("Invalid server configuration".to_string()))
        }
    }

    /// The address that clients see: `external_host_name:port`, with
    /// `localhost` when no external host name is configured.
    pub fn get_external_address(&self) -> (res: String)
        ensures
            res@ == (match self.external_host_name {
                Some(h) => h@,
                None => "localhost"@,
            }) + ":"@ + decimal(self.port as nat),
    {
        let mut s = match &self.external_host_name {
            Some(h) => h.clone(),
            None => "localhost".to_string(),
        };
        s.append(":");
        s.append(decimal_string(self.port as u64).as_str());
        s
    }

    /// The server certificate file must hold at least one certificate.
    pub fn require_certificates(count: usize) -> (res: Result<(), AppError>)
        ensures
            match res {
                Ok(()) => count > 0,
                Err(e) => count == 0 && is_config_error(e, "No certificates"@),
            },
    {
        if count == 0 {
            Err(AppError::ConfigError("No certificates".to_string()))
        } else {
            Ok(())
        }
    }

    /// The server key file must hold at least one PKCS#8 private key.
    pub fn require_private_keys(count: usize) -> (res: Result<(), AppError>)
        ensures
            match res {
                Ok(()) => count > 0,
                Err(e) => count == 0 && is_config_error(e, "No private keys"@),
            },
    {
        if count == 0 {
            Err(AppError::ConfigError("No private keys".to_string()))
        } else {
            Ok(())
        }
    }

    /// The application protocols offered in TLS negotiation, in order of
    /// preference: HTTP/2 (`h2`), then HTTP/1.1 (`http/1.1`), as ASCII bytes.
    pub fn alpn_protocols() -> (res: Vec<Vec<u8>>)
        ensures
            res@.len() == 2,
            res@[0]@ == seq![104u8, 50u8],
            res@[1]@ == seq![104u8, 116u8, 116u8, 112u8, 47u8, 49u8, 46u8, 49u8],
    {
        let h2: Vec<u8> = vec![104u8, 50u8];
        let http11: Vec<u8> = vec![104u8, 116u8, 116u8, 112u8, 47u8, 49u8, 46u8, 49u8];
        let mut res: Vec<Vec<u8>> = Vec::new();
        res.push(h2);
        res.push(http11);
        res
    }

    /// The plan of the server's TLS configuration from the certificates
    /// `certs` and the private keys `keys` read from its files: there must be
    /// a certificate (else `No certificates`) and a key (else `No private
    /// keys`); the chain is `certs`, the key is the first of `keys`, and the
    /// ALPN protocols are `h2` then `http/1.1`.
    pub fn tls_server_plan(certs: Vec<Vec<u8>>, keys: Vec<Vec<u8>>) -> (res: Result<TlsServerPlan, AppError>)
        ensures
            certs@.len() == 0 ==> (res matches Err(e) && is_config_error(e, "No certificates"@)),
            certs@.len() > 0 && keys@.len() == 0 ==> (res matches Err(e) && is_config_error(e, "No private keys"@)),
            certs@.len() > 0 && keys@.len() > 0 ==> (res matches Ok(p) && blobs(p.certs@) == blobs(certs@)
                && p.key@ == keys@[0]@ && blobs(p.alpn@) == seq![
                    seq![104u8, 50u8],
                    seq![104u8, 116u8, 116u8, 112u8, 47u8, 49u8, 46u8, 49u8],
                ]),
    {
        ServerConf::require_certificates(certs.len())?;
        ServerConf::require_private_keys(keys.len())?;
        let mut keys = keys;
        let key = keys.remove(0);
        let alpn = ServerConf::alpn_protocols();
        assert(blobs(alpn@) =~= seq![
            seq![104u8, 50u8],
            seq![104u8, 116u8, 116u8, 112u8, 47u8, 49u8, 46u8, 49u8],
        ]);
        Ok(TlsServerPlan { certs, key, alpn })
    }

    /// The TLS configuration of the server from the certificates `certs` and
    /// the private keys `keys` read from its files, built from
    /// `tls_server_plan`: the plan's errors come first; a configuration that
    /// is built had a first key rustls can sign with, presents `certs` as its
    /// chain and offers `h2` then `http/1.1`; a key that rustls refuses is a
    /// configuration error with rustls's text.
    pub fn load_tls_server_configuration(&self, certs: Vec<Vec<u8>>, keys: Vec<Vec<u8>>) -> (res: Result<rustls::ServerConfig, AppError>)
        ensures
            certs@.len() == 0 ==> (res matches Err(e) && is_config_error(e, "No certificates"@)),
            certs@.len() > 0 && keys@.len() == 0 ==> (res matches Err(e) && is_config_error(e, "No private keys"@)),
            certs@.len() > 0 && keys@.len() > 0 ==> (res is Ok ==> spec_signing_key_supported(keys@[0]@))
                && (res matches Err(e) ==> is_config_error(e, "unexpected error: invalid private key"@)),
            res matches Ok(c) ==> server_config_chain(c) == blobs(certs@) && server_config_alpn(c) == seq![
                seq![104u8, 50u8],
                seq![104u8, 116u8, 116u8, 112u8, 47u8, 49u8, 46u8, 49u8],
            ],
    {
        let plan = ServerConf::tls_server_plan(certs, keys)?;
        match rustls_server_config(plan) {
            Ok(cfg) => Ok(cfg),
            Err(m) => Err(AppError::ConfigError(m)),
        }
    }
}

} // verus!
