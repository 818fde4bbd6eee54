use dev_https_server::errors::StartupError;
use dev_https_server::tls::load_certificates;
use dev_https_server::tls::load_private_key;
use dev_https_server::tls::load_tls_materials;

// Base64 "AAEC" is the bytes [0, 1, 2]; "AQID" is [1, 2, 3]; "BAUG" is [4, 5, 6].

fn pem_section(tag: &str, b64: &str) -> String {
    format!("-----BEGIN {tag}-----\n{b64}\n-----END {tag}-----\n")
}

#[test]
fn pkcs8_key_loads() {
    let pem = pem_section("PRIVATE KEY", "AAEC");
    let key = load_private_key(&pem.into_bytes()).unwrap();
    assert_eq!(key, vec![0u8, 1, 2]);
}

#[test]
fn rsa_key_loads() {
    let pem = pem_section("RSA PRIVATE KEY", "AQID");
    let key = load_private_key(&pem.into_bytes()).unwrap();
    assert_eq!(key, vec![1u8, 2, 3]);
}

#[test]
fn ec_key_loads() {
    let pem = pem_section("EC PRIVATE KEY", "BAUG");
    let key = load_private_key(&pem.into_bytes()).unwrap();
    assert_eq!(key, vec![4u8, 5, 6]);
}

#[test]
fn pkcs8_wins_over_rsa() {
    let pem = format!(
        "{}{}",
        pem_section("RSA PRIVATE KEY", "AQID"),
        pem_section("PRIVATE KEY", "AAEC")
    );
    let key = load_private_key(&pem.into_bytes()).unwrap();
    assert_eq!(key, vec![0u8, 1, 2]);
}

#[test]
fn last_key_of_winning_format_is_taken() {
    let pem = format!(
        "{}{}",
        pem_section("PRIVATE KEY", "AAEC"),
        pem_section("PRIVATE KEY", "AQID")
    );
    let key = load_private_key(&pem.into_bytes()).unwrap();
    assert_eq!(key, vec![1u8, 2, 3]);
}

#[test]
fn corrupt_key_file_fails_with_explicit_error() {
    let err = load_private_key(&b"this is not a key".to_vec()).unwrap_err();
    assert_eq!(err, StartupError::KeyParse);
    assert_eq!(err.describe(), "Failed to parse private key");
}

#[test]
fn key_with_bad_base64_fails() {
    let pem = pem_section("PRIVATE KEY", "!!!not-base64!!!");
    let err = load_private_key(&pem.into_bytes()).unwrap_err();
    assert_eq!(err, StartupError::KeyParse);
}

#[test]
fn certificates_keep_file_order() {
    let pem = format!(
        "{}{}",
        pem_section("CERTIFICATE", "AQID"),
        pem_section("CERTIFICATE", "BAUG")
    );
    let certs = load_certificates(&pem.into_bytes()).unwrap();
    assert_eq!(certs, vec![vec![1u8, 2, 3], vec![4u8, 5, 6]]);
}

#[test]
fn certificate_file_without_certificates_fails() {
    let err = load_certificates(&b"no certificates here".to_vec()).unwrap_err();
    assert_eq!(err, StartupError::CertificateParse);
    assert_eq!(err.describe(), "Failed to parse certificates");
}

#[test]
fn materials_load_together() {
    let cert_pem = pem_section("CERTIFICATE", "AQID");
    let key_pem = pem_section("PRIVATE KEY", "AAEC");
    let materials = load_tls_materials(&cert_pem.into_bytes(), &key_pem.into_bytes()).unwrap();
    assert_eq!(materials.certificates, vec![vec![1u8, 2, 3]]);
    assert_eq!(materials.private_key, vec![0u8, 1, 2]);
}

#[test]
fn bad_certificates_are_reported_before_bad_key() {
    let err = load_tls_materials(&b"junk".to_vec(), &b"junk".to_vec()).unwrap_err();
    assert_eq!(err, StartupError::CertificateParse);
}
