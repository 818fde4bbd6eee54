//! The closed set of conditions that keep the server from starting.

use vstd::prelude::*;
use vstd::string::StringExecFns;

verus! {

/// A startup-fatal condition. Anything recoverable per connection or per
/// request never surfaces as one of these.
#[derive(Clone, Copy, Debug, PartialEq, Eq, Structural)]
pub enum StartupError {
    /// Generating or serializing the self-signed certificate failed.
    CertificateGeneration,
    /// The certificate file held no parseable PEM certificate block.
    CertificateParse,
    /// The key file parsed as none of PKCS8, RSA or EC.
    KeyParse,
    /// The listener could not bind its port.
    BindFailure,
}

impl StartupError {
    /// A descriptive message for the error.
    pub fn describe(&self) -> (r: String)
        ensures
            r@ == match *self {
                StartupError::CertificateGeneration => "Failed to generate self-signed certificate"@,
                StartupError::CertificateParse => "Failed to parse certificates"@,
                StartupError::KeyParse => "Failed to parse private key"@,
                StartupError::BindFailure => "Failed to bind listener port"@,
            },
    {
        match *self {
            StartupError::CertificateGeneration => String::from_str(
                "Failed to generate self-signed certificate",
            ),
            StartupError::CertificateParse => String::from_str("Failed to parse certificates"),
            StartupError::KeyParse => String::from_str("Failed to parse private key"),
            StartupError::BindFailure => String::from_str("Failed to bind listener port"),
        }
    }
}

} // verus!
