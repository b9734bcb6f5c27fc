//! Reading certificates and keys from PEM text, and generating a
//! self-signed identity.

use vstd::prelude::*;
use crate::text::{lemma_split_on_nonempty, split_on, split_text};

verus! {

/// The DER certificates that `rustls_pemfile::certs` reads from PEM bytes;
/// `None` when the PEM text is malformed.
pub uninterp spec fn spec_pem_certs(pem: Seq<u8>) -> Option<Seq<Seq<u8>>>;

/// The DER PKCS#8 keys that `rustls_pemfile::pkcs8_private_keys` reads from
/// PEM bytes; `None` when the PEM text is malformed.
pub uninterp spec fn spec_pem_pkcs8_keys(pem: Seq<u8>) -> Option<Seq<Seq<u8>>>;

/// The contents of a list of byte strings.
pub open spec fn blobs(v: Seq<Vec<u8>>) -> Seq<Seq<u8>> {
    v.map_values(|b: Vec<u8>| b@)
}

/// Reads the certificates of PEM bytes (`rustls_pemfile::certs`).
/// Claimed: the result is `spec_pem_certs` of the bytes.
#[verifier::external_body]
fn pem_certs(pem: &[u8]) -> (res: Option<Vec<Vec<u8>>>)
    ensures
        match res {
            Some(v) => spec_pem_certs(pem@) == Some(blobs(v@)),
            None => spec_pem_certs(pem@) is None,
        },
{
    let mut reader = pem;
    rustls_pemfile::certs(&mut reader).ok()
}

/// Reads the PKCS#8 private keys of PEM bytes (`rustls_pemfile::pkcs8_private_keys`).
/// Claimed: the result is `spec_pem_pkcs8_keys` of the bytes.
#[verifier::external_body]
fn pem_pkcs8_keys(pem: &[u8]) -> (res: Option<Vec<Vec<u8>>>)
    ensures
        match res {
            Some(v) => spec_pem_pkcs8_keys(pem@) == Some(blobs(v@)),
            None => spec_pem_pkcs8_keys(pem@) is None,
        },
{
    let mut reader = pem;
    rustls_pemfile::pkcs8_private_keys(&mut reader).ok()
}

/// The DER certificates held in the PEM text of a certificate file.
pub fn parse_certs(pem: &[u8]) -> (res: Option<Vec<Vec<u8>>>)
    ensures
        match res {
            Some(v) => spec_pem_certs(pem@) == Some(blobs(v@)),
            None => spec_pem_certs(pem@) is None,
        },
{
    pem_certs(pem)
}

/// The DER PKCS#8 private keys held in the PEM text of a key file.
pub fn parse_keys(pem: &[u8]) -> (res: Option<Vec<Vec<u8>>>)
    ensures
        match res {
            Some(v) => spec_pem_pkcs8_keys(pem@) == Some(blobs(v@)),
            None => spec_pem_pkcs8_keys(pem@) is None,
        },
{
    pem_pkcs8_keys(pem)
}

/// The outcome of generating a self-signed identity.
pub enum CertGeneration {
    /// The certificate and its private key, as PEM text.
    Generated(String, String),
    /// The certificate could not be built.
    BuildFailed,
    /// The certificate could not be written as PEM; the error's text.
    SerializeFailed(String),
}

/// Every character of a text is ASCII.
pub open spec fn ascii_chars(s: Seq<char>) -> bool {
    forall|i: int| 0 <= i < s.len() ==> (#[trigger] s[i] as int) < 128
}

/// A PEM text with a single section of the given label, as the `pem` crate
/// writes it: it opens with `-----BEGIN label-----` and closes with
/// `-----END label-----`, each line ended by CR LF.
pub open spec fn pem_section(text: Seq<char>, label: Seq<char>) -> bool {
    let begin = "-----BEGIN "@ + label + "-----\r\n"@;
    let end = "-----END "@ + label + "-----\r\n"@;
    &&& begin.is_prefix_of(text)
    &&& end.is_suffix_of(text)
}

/// The DNS names that a PEM certificate lists in its subject alternative
/// names, in order.
pub uninterp spec fn spec_certificate_dns_names(cert_pem: Seq<char>) -> Seq<Seq<char>>;

/// The DER PKCS #8 private key `key_der` is the key of the DER certificate
/// `cert_der` (the certificate holds its public key and is signed with it).
pub uninterp spec fn spec_certified_key(cert_der: Seq<u8>, key_der: Seq<u8>) -> bool;

/// PEM texts of a certificate and a key read back (by `rustls_pemfile`) as
/// exactly one certificate and one PKCS #8 key, the key of that certificate.
pub open spec fn reads_back_as_identity(cert_pem: Seq<char>, key_pem: Seq<char>) -> bool {
    match (spec_pem_certs(vstd::utf8::encode_utf8(cert_pem)), spec_pem_pkcs8_keys(vstd::utf8::encode_utf8(key_pem))) {
        (Some(c), Some(k)) => c.len() == 1 && k.len() == 1 && spec_certified_key(c[0], k[0]),
        _ => false,
    }
}

/// Generates a self-signed certificate for DNS names with a fresh key
/// (`rcgen::Certificate::from_params`, `serialize_pem`,
/// `serialize_private_key_pem`). The names must be ASCII: rcgen writes them
/// as IA5 strings and panics otherwise.
/// Claimed, from the crates' sources: a generated certificate lists `names`,
/// in order, as its DNS names (rcgen writes `params.subject_alt_names`), and
/// is PEM text of one `CERTIFICATE` section, the key PEM text of one
/// `PRIVATE KEY` section (`pem::encode` of the DER, CR LF line ends); so
/// `rustls_pemfile` reads back one certificate from the one and one PKCS #8
/// key from the other, and that key is the certificate's (rcgen signs the
/// certificate with it). The key is random, and the build or the
/// serialisation fails only on the machine's randomness or signing: nothing
/// else is claimed of the outcome.
#[verifier::external_body]
fn rcgen_self_signed(names: Vec<String>) -> (res: CertGeneration)
    requires
        forall|i: int| 0 <= i < names@.len() ==> ascii_chars((#[trigger] names@[i])@),
    ensures
        res matches CertGeneration::Generated(cert, key) ==> {
            &&& pem_section(cert@, "CERTIFICATE"@)
            &&& pem_section(key@, "PRIVATE KEY"@)
            &&& spec_certificate_dns_names(cert@) == names@.map_values(|n: String| n@)
            &&& match (spec_pem_certs(vstd::utf8::encode_utf8(cert@)), spec_pem_pkcs8_keys(vstd::utf8::encode_utf8(key@))) {
                (Some(c), Some(k)) => c.len() == 1 && k.len() == 1 && spec_certified_key(c[0], k[0]),
                _ => false,
            }
        },
{
    let mut params = rcgen::CertificateParams::default();
    params.subject_alt_names = names.into_iter().map(rcgen::SanType::DnsName).collect();
    match rcgen::Certificate::from_params(params) {
        Err(_) => CertGeneration::BuildFailed,
        Ok(cert) => match cert.serialize_pem() {
            Err(e) => CertGeneration::SerializeFailed(format!("{}", e)),
            Ok(pem) => CertGeneration::Generated(pem, cert.serialize_private_key_pem()),
        },
    }
}

/// The pieces of an ASCII text split at a separator are ASCII.
pub proof fn lemma_split_on_ascii(s: Seq<char>, sep: char)
    requires
        ascii_chars(s),
    ensures
        forall|j: int| 0 <= j < split_on(s, sep).len() ==> ascii_chars(#[trigger] split_on(s, sep)[j]),
    decreases s.len(),
{
    if s.len() > 0 {
        let p = s.drop_last();
        assert(ascii_chars(p)) by {
            assert forall|i: int| 0 <= i < p.len() implies (#[trigger] p[i] as int) < 128 by {
                assert(p[i] == s[i]);
            }
        }
        lemma_split_on_ascii(p, sep);
        lemma_split_on_nonempty(p, sep);
        let r = split_on(p, sep);
        assert((s[s.len() - 1] as int) < 128);
        if s.last() != sep {
            let l = r.last().push(s.last());
            assert(ascii_chars(r[r.len() - 1]));
            assert(ascii_chars(l)) by {
                assert forall|i: int| 0 <= i < l.len() implies (#[trigger] l[i] as int) < 128 by {
                    if i < l.len() - 1 {
                        assert(l[i] == r.last()[i]);
                    }
                }
            }
        }
    }
}

/// The DNS names of a generated certificate: the comma-separated pieces of `hostnames`.
pub fn subject_alt_names(hostnames: &str) -> (res: Vec<String>)
    ensures
        res@.map_values(|p: String| p@) == split_on(hostnames@, ','),
{
    split_text(hostnames, ',')
}

/// Generates a self-signed certificate and key, as PEM text, for the
/// comma-separated DNS names in `hostnames` (see `subject_alt_names`), which
/// must be ASCII. A generated certificate lists those names, in order, as its
/// DNS names; it is one PEM `CERTIFICATE` section and the key one PEM
/// `PRIVATE KEY` section, which read back as one certificate and one key of
/// that certificate. The key is random.
pub fn generate_simple_self_signed_cert_and_key(hostnames: &str) -> (res: CertGeneration)
    requires
        ascii_chars(hostnames@),
    ensures
        res matches CertGeneration::Generated(cert, key) ==> {
            &&& pem_section(cert@, "CERTIFICATE"@)
            &&& pem_section(key@, "PRIVATE KEY"@)
            &&& spec_certificate_dns_names(cert@) == split_on(hostnames@, ',')
            &&& reads_back_as_identity(cert@, key@)
        },
{
    let names = subject_alt_names(hostnames);
    proof {
        lemma_split_on_ascii(hostnames@, ',');
        assert forall|i: int| 0 <= i < names@.len() implies ascii_chars((#[trigger] names@[i])@) by {
            assert(names@.map_values(|p: String| p@)[i] == names@[i]@);
        }
    }
    rcgen_self_signed(names)
}

} // verus!
