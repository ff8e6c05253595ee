//! Failures surfaced to the operator.
use vstd::prelude::*;

verus! {

/// Why a client identity could not be assembled.
#[derive(Clone, Copy, Debug, PartialEq, Eq, Structural)]
pub enum IdentityLoadError {
    /// The certificate file could not be read.
    CertUnreadable,
    /// The private key file could not be read.
    KeyUnreadable,
    /// The combined bytes are not a certificate and private key in PEM form.
    InvalidPem,
}

/// The error taxonomy of one command execution.
#[derive(Clone, Debug)]
pub enum ClientError {
    /// The operation's authentication requirement is not met; detected before
    /// any connection is made.
    MissingCredential,
    /// The mutual-TLS identity could not be loaded.
    IdentityLoad(IdentityLoadError),
    /// Connection or TLS failure.
    Transport(String),
    /// The server answered with a non-success status.
    Server { status: u16, body: String },
    /// The response body does not have the expected shape.
    Decode(String),
}

} // verus!
