//! The TLS identity and trust roots the proxy uses as a client.

use vstd::prelude::*;
use crate::error::{AppError, is_config_error};
use crate::util::cert::blobs;

verus! {

#[verifier::external_type_specification]
#[verifier::external_body]
pub struct ExTlsClientConfig(rustls::ClientConfig);

#[verifier::external_type_specification]
#[verifier::external_body]
pub struct ExRootCertStore(rustls::RootCertStore);

/// What `webpki::TrustAnchor::try_from_cert_der` reads of a DER certificate:
/// its trust anchor (subject, subject public key info, optional name
/// constraints, as DER), or `None` when it is no usable certificate.
pub uninterp spec fn spec_trust_anchor(der: Seq<u8>) -> Option<(Seq<u8>, Seq<u8>, Option<Seq<u8>>)>;

/// The trust anchors a root store holds, in order (`RootCertStore::roots`).
pub uninterp spec fn root_store_anchors(store: rustls::RootCertStore) -> Seq<(Seq<u8>, Seq<u8>, Option<Seq<u8>>)>;

/// The trust anchors a client configuration verifies servers against, in
/// order: those of the root store it was built with.
pub uninterp spec fn client_config_anchors(config: rustls::ClientConfig) -> Seq<(Seq<u8>, Seq<u8>, Option<Seq<u8>>)>;

/// How many roots `webpki_roots::TLS_SERVER_ROOTS` lists.
pub open spec fn web_root_count() -> nat {
    137
}

/// An empty root store (`rustls::RootCertStore::empty`).
/// Claimed: it holds no anchor.
#[verifier::external_body]
fn root_store_empty() -> (res: rustls::RootCertStore)
    ensures
        root_store_anchors(res) == Seq::<(Seq<u8>, Seq<u8>, Option<Seq<u8>>)>::empty(),
{
    rustls::RootCertStore::empty()
}

/// Adds the trust anchor of a DER certificate to a root store
/// (`rustls::RootCertStore::add`).
/// Claimed, from the crate's source: it succeeds exactly when
/// `webpki::TrustAnchor::try_from_cert_der` reads the certificate, and then
/// appends that anchor; otherwise the store is unchanged.
#[verifier::external_body]
fn root_store_add(store: &mut rustls::RootCertStore, der: &[u8]) -> (res: bool)
    ensures
        res == (spec_trust_anchor(der@) is Some),
        res ==> root_store_anchors(*final(store)) == root_store_anchors(*old(store)).push(spec_trust_anchor(der@).unwrap()),
        !res ==> root_store_anchors(*final(store)) == root_store_anchors(*old(store)),
{
    store.add(&rustls::Certificate(der.to_vec())).is_ok()
}

/// Appends the web's roots (`webpki_roots::TLS_SERVER_ROOTS`) to a root store
/// (`RootCertStore::add_server_trust_anchors`).
/// Claimed, from the crates' sources: the earlier anchors stay, followed by
/// the 137 web roots.
#[verifier::external_body]
fn root_store_add_web_roots(store: &mut rustls::RootCertStore)
    ensures
        root_store_anchors(*final(store)).len() == root_store_anchors(*old(store)).len() + web_root_count(),
        root_store_anchors(*final(store)).take(root_store_anchors(*old(store)).len() as int)
            == root_store_anchors(*old(store)),
{
    for ta in webpki_roots::TLS_SERVER_ROOTS.0.iter() {
        let owned = rustls::OwnedTrustAnchor::from_subject_spki_name_constraints(ta.subject, ta.spki, ta.name_constraints);
        store.add_server_trust_anchors(std::iter::once(owned));
    }
}

/// Builds a TLS client configuration with rustls: the safe defaults, the
/// root store's anchors for verifying servers, and no client authentication.
/// Claimed, from the crate's source: the configuration verifies servers
/// against exactly the store's anchors (`with_root_certificates`).
#[verifier::external_body]
fn client_config_with_roots(store: rustls::RootCertStore) -> (res: rustls::ClientConfig)
    ensures
        client_config_anchors(res) == root_store_anchors(store),
{
    rustls::ClientConfig::builder().with_safe_defaults().with_root_certificates(store).with_no_client_auth()
}

/// The trust anchors of DER certificates that all have one.
pub open spec fn anchors_of(ders: Seq<Seq<u8>>) -> Seq<(Seq<u8>, Seq<u8>, Option<Seq<u8>>)> {
    ders.map_values(|d: Seq<u8>| spec_trust_anchor(d).unwrap())
}

/// Every DER certificate has a trust anchor.
pub open spec fn all_anchors(ders: Seq<Seq<u8>>) -> bool {
    forall|i: int| 0 <= i < ders.len() ==> (#[trigger] spec_trust_anchor(ders[i])) is Some
}

/// The client-side TLS settings: the subject name of a generated identity,
/// the identity files, and extra trusted certificate files.
pub struct ClientConf {
    pub subject_alt_name: String,
    pub certfile: Option<String>,
    pub keyfile: Option<String>,
    pub trusted_cerfiles: Vec<String>,
}

/// The identity files to load, and whether they must first be generated.
pub struct IdentityFiles {
    pub certfile: String,
    pub keyfile: String,
    pub generate: bool,
}

impl ClientConf {
    /// The configured certificate file, `data/client.crt` by default.
    pub open spec fn spec_certfile(&self) -> Seq<char> {
        match self.certfile {
            Some(f) => f@,
            None => "data/client.crt"@,
        }
    }

    /// The configured key file, `data/client.key` by default.
    pub open spec fn spec_keyfile(&self) -> Seq<char> {
        match self.keyfile {
            Some(f) => f@,
            None => "data/client.key"@,
        }
    }

    /// The configured certificate and key files, with their defaults.
    pub fn identity_files(&self) -> (res: (String, String))
        ensures
            res.0@ == self.spec_certfile(),
            res.1@ == self.spec_keyfile(),
    {
        let c = match &self.certfile {
            Some(f) => f.clone(),
            None => "data/client.crt".to_string(),
        };
        let k = match &self.keyfile {
            Some(f) => f.clone(),
            None => "data/client.key".to_string(),
        };
        (c, k)
    }

    /// When both configured files exist they are used; otherwise a
    /// self-signed identity is generated into `temp/client.crt` and
    /// `temp/client.key` and used instead.
    pub fn identity_plan(&self, all_found: bool) -> (res: IdentityFiles)
        ensures
            all_found ==> res.certfile@ == self.spec_certfile() && res.keyfile@ == self.spec_keyfile()
                && !res.generate,
            !all_found ==> res.certfile@ == "temp/client.crt"@ && res.keyfile@ == "temp/client.key"@
                && res.generate,
    {
        if all_found {
            let (c, k) = self.identity_files();
            IdentityFiles { certfile: c, keyfile: k, generate: false }
        } else {
            IdentityFiles {
                certfile: "temp/client.crt".to_string(),
                keyfile: "temp/client.key".to_string(),
                generate: true,
            }
        }
    }

    /// The client certificate file must hold at least one certificate.
    pub fn require_certificates(certfile: &str, count: usize) -> (res: Result<(), AppError>)
        ensures
            match res {
                Ok(()) => count > 0,
                Err(e) => count == 0 && is_config_error(e, "No certificates "@ + certfile@),
            },
    {
        if count == 0 {
            let mut m = "No certificates ".to_string();
            m.append(certfile);
            Err(AppError::ConfigError(m))
        } else {
            Ok(())
        }
    }

    /// The client key file must hold at least one PKCS#8 private key.
    pub fn require_private_keys(keyfile: &str, count: usize) -> (res: Result<(), AppError>)
        ensures
            match res {
                Ok(()) => count > 0,
                Err(e) => count == 0 && is_config_error(e, "No private keys: "@ + keyfile@),
            },
    {
        if count == 0 {
            let mut m = "No private keys: ".to_string();
            m.append(keyfile);
            Err(AppError::ConfigError(m))
        } else {
            Ok(())
        }
    }

    /// The root store that trusts the certificates `trusted` (read from the
    /// trusted files), in order, followed by the web's roots; `None` when one
    /// of them is not a trust anchor (where the proxy does not start).
    pub fn tls_client_roots(trusted: &Vec<Vec<u8>>) -> (res: Option<rustls::RootCertStore>)
        ensures
            (res is Some) == all_anchors(blobs(trusted@)),
            res matches Some(s) ==> {
                &&& root_store_anchors(s).len() == trusted@.len() + web_root_count()
                &&& root_store_anchors(s).take(trusted@.len() as int) == anchors_of(blobs(trusted@))
            },
    {
        let mut store = root_store_empty();
        let n = trusted.len();
        let mut i: usize = 0;
        while i < n
            invariant
                n == trusted@.len(),
                i <= n,
                root_store_anchors(store) == anchors_of(blobs(trusted@).take(i as int)),
                forall|j: int| 0 <= j < i ==> (#[trigger] spec_trust_anchor(trusted@[j]@)) is Some,
            decreases n - i,
        {
            let ghost before = root_store_anchors(store);
            if !root_store_add(&mut store, trusted[i].as_slice()) {
                assert(blobs(trusted@)[i as int] == trusted@[i as int]@);
                return None;
            }
            assert(anchors_of(blobs(trusted@).take(i as int + 1)) =~= before.push(spec_trust_anchor(trusted@[i as int]@).unwrap()));
            i = i + 1;
        }
        assert(blobs(trusted@).take(n as int) =~= blobs(trusted@));
        assert(all_anchors(blobs(trusted@)));
        root_store_add_web_roots(&mut store);
        Some(store)
    }

    /// The TLS client configuration that trusts the certificates `trusted`,
    /// in order, and then the web's roots, with no client authentication;
    /// `None` when one of them is not a trust anchor.
    pub fn tls_client_configuration(trusted: Vec<Vec<u8>>) -> (res: Option<rustls::ClientConfig>)
        ensures
            (res is Some) == all_anchors(blobs(trusted@)),
            res matches Some(c) ==> {
                &&& client_config_anchors(c).len() == trusted@.len() + web_root_count()
                &&& client_config_anchors(c).take(trusted@.len() as int) == anchors_of(blobs(trusted@))
            },
    {
        match ClientConf::tls_client_roots(&trusted) {
            Some(store) => Some(client_config_with_roots(store)),
            None => None,
        }
    }
}

} // verus!
