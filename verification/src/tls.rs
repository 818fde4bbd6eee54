//! TLS material loading: parsing a PEM certificate chain and a PEM private
//! key from byte buffers already read from disk. The key is tried as PKCS8,
//! then RSA, then EC, and the first format that yields a key wins.

use vstd::prelude::*;

use crate::errors::StartupError;

verus! {

/// The DER contents of the CERTIFICATE sections of a PEM buffer, in file
/// order, or `None` where the buffer is malformed PEM.
pub uninterp spec fn pem_certs(bytes: Seq<u8>) -> Option<Seq<Seq<u8>>>;

/// The DER contents of the PKCS8 `PRIVATE KEY` sections of a PEM buffer, in
/// file order, or `None` where the buffer is malformed PEM.
pub uninterp spec fn pem_pkcs8_keys(bytes: Seq<u8>) -> Option<Seq<Seq<u8>>>;

/// The DER contents of the `RSA PRIVATE KEY` sections of a PEM buffer, in
/// file order, or `None` where the buffer is malformed PEM.
pub uninterp spec fn pem_rsa_keys(bytes: Seq<u8>) -> Option<Seq<Seq<u8>>>;

/// The DER contents of the `EC PRIVATE KEY` sections of a PEM buffer, in
/// file order, or `None` where the buffer is malformed PEM.
pub uninterp spec fn pem_ec_keys(bytes: Seq<u8>) -> Option<Seq<Seq<u8>>>;

/// Relies on rustls_pemfile::certs: returns the DER contents of the
/// CERTIFICATE sections of the buffer, in order, and an error only on
/// malformed PEM; the error is folded to `None`.
#[verifier::external_body]
fn pem_certs_exec(bytes: &Vec<u8>) -> (r: Option<Vec<Vec<u8>>>)
    ensures
        r.deep_view() == pem_certs(bytes@),
{
    let mut reader = std::io::Cursor::new(bytes.as_slice());
    rustls_pemfile::certs(&mut reader).ok()
}

/// Relies on rustls_pemfile::pkcs8_private_keys: returns the DER contents of
/// the PKCS8 `PRIVATE KEY` sections of the buffer, in order, and an error
/// only on malformed PEM; the error is folded to `None`.
#[verifier::external_body]
fn pem_pkcs8_keys_exec(bytes: &Vec<u8>) -> (r: Option<Vec<Vec<u8>>>)
    ensures
        r.deep_view() == pem_pkcs8_keys(bytes@),
{
    let mut reader = std::io::Cursor::new(bytes.as_slice());
    rustls_pemfile::pkcs8_private_keys(&mut reader).ok()
}

/// Relies on rustls_pemfile::rsa_private_keys: returns the DER contents of
/// the `RSA PRIVATE KEY` sections of the buffer, in order, and an error only
/// on malformed PEM; the error is folded to `None`.
#[verifier::external_body]
fn pem_rsa_keys_exec(bytes: &Vec<u8>) -> (r: Option<Vec<Vec<u8>>>)
    ensures
        r.deep_view() == pem_rsa_keys(bytes@),
{
    let mut reader = std::io::Cursor::new(bytes.as_slice());
    rustls_pemfile::rsa_private_keys(&mut reader).ok()
}

/// Relies on rustls_pemfile::ec_private_keys: returns the DER contents of
/// the `EC PRIVATE KEY` sections of the buffer, in order, and an error only
/// on malformed PEM; the error is folded to `None`.
#[verifier::external_body]
fn pem_ec_keys_exec(bytes: &Vec<u8>) -> (r: Option<Vec<Vec<u8>>>)
    ensures
        r.deep_view() == pem_ec_keys(bytes@),
{
    let mut reader = std::io::Cursor::new(bytes.as_slice());
    rustls_pemfile::ec_private_keys(&mut reader).ok()
}

/// The key one parse attempt contributes: the last key of the parsed
/// sections, or `None` where the parse failed or yielded no key.
pub open spec fn last_key(parsed: Option<Seq<Seq<u8>>>) -> Option<Seq<u8>> {
    match parsed {
        Some(ks) => if ks.len() > 0 {
            Some(ks.last())
        } else {
            None
        },
        None => None,
    }
}

/// The private key that loading selects from a key file's bytes: the formats
/// PKCS8, RSA and EC are tried in that order on the same buffer, and the
/// first attempt that contributes a key wins.
pub open spec fn selected_private_key(bytes: Seq<u8>) -> Option<Seq<u8>> {
    if last_key(pem_pkcs8_keys(bytes)) is Some {
        last_key(pem_pkcs8_keys(bytes))
    } else if last_key(pem_rsa_keys(bytes)) is Some {
        last_key(pem_rsa_keys(bytes))
    } else {
        last_key(pem_ec_keys(bytes))
    }
}

/// Key loading fails exactly where no format yields a key: the selection is
/// empty if and only if each of the PKCS8, RSA and EC parses of the buffer
/// fails or yields no key — corrupt or empty key material is reported as the
/// explicit key-parse failure and produces no partial result.
pub proof fn lemma_key_parse_failure_iff(key_bytes: Seq<u8>)
    ensures
        selected_private_key(key_bytes) is None <==> {
            &&& last_key(pem_pkcs8_keys(key_bytes)) is None
            &&& last_key(pem_rsa_keys(key_bytes)) is None
            &&& last_key(pem_ec_keys(key_bytes)) is None
        },
{
}

/// Take the key that one parse attempt contributes, the executable
/// counterpart of `last_key`.
fn take_last_key(parsed: Option<Vec<Vec<u8>>>) -> (r: Option<Vec<u8>>)
    ensures
        r.deep_view() == last_key(parsed.deep_view()),
{
    match parsed {
        Some(mut ks) => {
            if ks.len() > 0 {
                let ghost ks0: Seq<Vec<u8>> = ks@;
                let k = ks.pop().unwrap();
                proof {
                    assert(k == ks0.last());
                    assert(k.deep_view() == ks0[ks0.len() - 1].deep_view());
                }
                Some(k)
            } else {
                None
            }
        },
        None => None,
    }
}

/// The certificate chain parsed from a certificate file's bytes, in file
/// order. A buffer that is malformed PEM, or that holds no certificate
/// block, is a certificate-parse failure.
pub fn load_certificates(cert_bytes: &Vec<u8>) -> (r: Result<Vec<Vec<u8>>, StartupError>)
    ensures
        match r {
            Ok(certs) => pem_certs(cert_bytes@) == Some(certs.deep_view()) && certs@.len() > 0,
            Err(e) => e == StartupError::CertificateParse && (pem_certs(cert_bytes@) is None
                || pem_certs(cert_bytes@) == Some(Seq::<Seq<u8>>::empty())),
        },
{
    match pem_certs_exec(cert_bytes) {
        Some(certs) => {
            if certs.len() > 0 {
                Ok(certs)
            } else {
                proof {
                    assert(certs.deep_view() =~= Seq::<Seq<u8>>::empty());
                }
                Err(StartupError::CertificateParse)
            }
        },
        None => Err(StartupError::CertificateParse),
    }
}

/// The private key parsed from a key file's bytes, per the PKCS8, RSA, EC
/// trial order of `selected_private_key`. Fails exactly where no format
/// contributes a key.
pub fn load_private_key(key_bytes: &Vec<u8>) -> (r: Result<Vec<u8>, StartupError>)
    ensures
        match r {
            Ok(k) => selected_private_key(key_bytes@) == Some(k.deep_view()),
            Err(e) => e == StartupError::KeyParse && selected_private_key(key_bytes@) is None,
        },
{
    let pkcs8 = take_last_key(pem_pkcs8_keys_exec(key_bytes));
    match pkcs8 {
        Some(k) => {
            return Ok(k);
        },
        None => {},
    }
    let rsa = take_last_key(pem_rsa_keys_exec(key_bytes));
    match rsa {
        Some(k) => {
            return Ok(k);
        },
        None => {},
    }
    let ec = take_last_key(pem_ec_keys_exec(key_bytes));
    match ec {
        Some(k) => Ok(k),
        None => Err(StartupError::KeyParse),
    }
}

/// The certificate chain and private key the TLS layer is configured with.
#[derive(Debug)]
pub struct TlsMaterials {
    /// The DER certificates of the chain, leaf first by convention.
    pub certificates: Vec<Vec<u8>>,
    /// The DER private key, in the first format that parsed.
    pub private_key: Vec<u8>,
}

/// Parse the TLS material from the two PEM files' bytes: every certificate
/// block of the certificate file, in order, and the private key per the
/// PKCS8, RSA, EC trial order. The certificate side is checked first, so a
/// buffer pair that is bad on both sides reports the certificate failure.
pub fn load_tls_materials(cert_bytes: &Vec<u8>, key_bytes: &Vec<u8>) -> (r: Result<
    TlsMaterials,
    StartupError,
>)
    ensures
        match r {
            Ok(m) => {
                &&& pem_certs(cert_bytes@) == Some(m.certificates.deep_view())
                &&& m.certificates@.len() > 0
                &&& selected_private_key(key_bytes@) == Some(m.private_key.deep_view())
            },
            Err(e) => if pem_certs(cert_bytes@) is None || pem_certs(cert_bytes@) == Some(
                Seq::<Seq<u8>>::empty(),
            ) {
                e == StartupError::CertificateParse
            } else {
                e == StartupError::KeyParse && selected_private_key(key_bytes@) is None
            },
        },
{
    let certificates = match load_certificates(cert_bytes) {
        Ok(certs) => certs,
        Err(e) => {
            return Err(e);
        },
    };
    let private_key = match load_private_key(key_bytes) {
        Ok(k) => k,
        Err(e) => {
            proof {
                assert(certificates.deep_view().len() == certificates@.len());
                assert(pem_certs(cert_bytes@) != Some(Seq::<Seq<u8>>::empty()));
            }
            return Err(e);
        },
    };
    Ok(TlsMaterials { certificates, private_key })
}

} // verus!
