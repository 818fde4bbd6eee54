//! Certificate provisioning: deciding whether a fresh self-signed pair is
//! needed, and generating one — in PEM form, ready to be written to the two
//! fixed files — whose subject alternative names are exactly `localhost` and
//! `127.0.0.1`.

use vstd::prelude::*;
use vstd::string::StringExecFns;

use crate::errors::StartupError;
use crate::tls::last_key;
use crate::tls::pem_certs;
use crate::tls::pem_pkcs8_keys;
use crate::tls::selected_private_key;

verus! {

/// Provisioning runs exactly where at least one of the two files is missing.
pub open spec fn spec_needs_provisioning(cert_exists: bool, key_exists: bool) -> bool {
    !(cert_exists && key_exists)
}

/// Decide whether a certificate pair must be generated, from the presence of
/// the two files. Where both exist, nothing is generated and nothing is
/// written: present material is reused across runs until deleted.
pub fn needs_provisioning(cert_exists: bool, key_exists: bool) -> (r: bool)
    ensures
        r == spec_needs_provisioning(cert_exists, key_exists),
{
    !(cert_exists && key_exists)
}

/// Provisioning is idempotent: once both files exist, a further run decides
/// to generate nothing, so it never overwrites present material.
pub proof fn lemma_provisioning_noop_when_present()
    ensures
        !spec_needs_provisioning(true, true),
{
}

/// The subject alternative names every generated certificate covers.
pub fn subject_alt_names() -> (v: Vec<String>)
    ensures
        v@.len() == 2,
        v@[0]@ == "localhost"@,
        v@[1]@ == "127.0.0.1"@,
{
    let mut v: Vec<String> = Vec::new();
    v.push(String::from_str("localhost"));
    v.push(String::from_str("127.0.0.1"));
    v
}

/// A freshly generated certificate and private key, both PEM-encoded, as the
/// bytes to be written to the two files.
pub struct CertificatePair {
    /// The self-signed certificate, one PEM `CERTIFICATE` section.
    pub cert_pem: Vec<u8>,
    /// The matching private key, one PKCS8 PEM `PRIVATE KEY` section.
    pub key_pem: Vec<u8>,
}

/// Relies on rcgen::generate_simple_self_signed,
/// rcgen::Certificate::serialize_pem and
/// rcgen::Certificate::serialize_private_key_pem: a self-signed certificate
/// for the given names with a freshly generated key pair. The key pair is
/// random, so no value is promised; what is promised holds of every
/// successful outcome: serialize_pem encodes the certificate's DER as a
/// single PEM `CERTIFICATE` section and serialize_private_key_pem encodes
/// the key's PKCS8 DER as a single PEM `PRIVATE KEY` section, so parsing
/// the two buffers back yields exactly one certificate and a PKCS8 key.
/// The serialize_private_key_pem panic concerns only remote key pairs,
/// which generate_simple_self_signed never produces. Errors are folded to
/// `None`.
#[verifier::external_body]
fn rcgen_self_signed_pem(subject_alt_names: Vec<String>) -> (r: Option<(Vec<u8>, Vec<u8>)>)
    ensures
        r matches Some(pair) ==> pem_certs(pair.0@) matches Some(cs) && cs.len() == 1,
        r matches Some(pair) ==> last_key(pem_pkcs8_keys(pair.1@)) is Some,
{
    let cert = match rcgen::generate_simple_self_signed(subject_alt_names) {
        Ok(c) => c,
        Err(_) => return None,
    };
    let cert_pem = match cert.serialize_pem() {
        Ok(p) => p,
        Err(_) => return None,
    };
    Some((cert_pem.into_bytes(), cert.serialize_private_key_pem().into_bytes()))
}

/// Generate a fresh self-signed certificate pair covering `localhost` and
/// `127.0.0.1`. A successful result is valid TLS material: its certificate
/// buffer parses as exactly one certificate and its key buffer yields a
/// PKCS8 key. Failure to generate is startup-fatal for the caller: the
/// server must not start without valid TLS material.
pub fn generate_self_signed_cert() -> (r: Result<CertificatePair, StartupError>)
    ensures
        match r {
            Ok(pair) => {
                &&& pem_certs(pair.cert_pem@) matches Some(cs) && cs.len() == 1
                &&& last_key(pem_pkcs8_keys(pair.key_pem@)) is Some
            },
            Err(e) => e == StartupError::CertificateGeneration,
        },
{
    let names = subject_alt_names();
    match rcgen_self_signed_pem(names) {
        Some(pair) => Ok(CertificatePair { cert_pem: pair.0, key_pem: pair.1 }),
        None => Err(StartupError::CertificateGeneration),
    }
}

/// Generated material always loads: for buffers as a successful
/// `generate_self_signed_cert` returns them — certificates parsing
/// nonempty, PKCS8 yielding a key — both failure conditions of the TLS
/// material loader are excluded, so loading the written pair back cannot
/// fail.
pub proof fn lemma_generated_material_loads(cert_bytes: Seq<u8>, key_bytes: Seq<u8>)
    requires
        pem_certs(cert_bytes) matches Some(cs) && cs.len() > 0,
        last_key(pem_pkcs8_keys(key_bytes)) is Some,
    ensures
        pem_certs(cert_bytes) is Some,
        pem_certs(cert_bytes) != Some(Seq::<Seq<u8>>::empty()),
        selected_private_key(key_bytes) == last_key(pem_pkcs8_keys(key_bytes)),
        selected_private_key(key_bytes) is Some,
{
    let cs = pem_certs(cert_bytes)->Some_0;
    assert(pem_certs(cert_bytes) != Some(Seq::<Seq<u8>>::empty())) by {
        if pem_certs(cert_bytes) == Some(Seq::<Seq<u8>>::empty()) {
            assert(cs.len() == 0);
        }
    }
}

} // verus!
