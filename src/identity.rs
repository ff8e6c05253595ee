//! Assembling a device's mutual-TLS identity from its certificate and key files.
use vstd::prelude::*;
use crate::error::IdentityLoadError;

verus! {

#[verifier::external_type_specification]
#[verifier::external_body]
pub struct ExIdentity(reqwest::Identity);

#[verifier::external_type_specification]
#[verifier::external_body]
pub struct ExReqwestError(reqwest::Error);

/// Whether `reqwest::Identity::from_pem` accepts these bytes: PEM sections of
/// certificates and a private key, at least one of each.
pub uninterp spec fn pem_identity_accepted(pem: Seq<u8>) -> bool;

/// Relies on `reqwest::Identity::from_pem` (rustls backend): it parses the PEM
/// sections of `pem` and succeeds exactly when they form an identity; with no
/// bytes there is no private key, so it fails.
#[verifier::external_body]
fn identity_from_pem(pem: &Vec<u8>) -> (r: Result<reqwest::Identity, reqwest::Error>)
    ensures
        r is Ok <==> pem_identity_accepted(pem@),
        pem@.len() == 0 ==> r is Err,
{
    reqwest::Identity::from_pem(pem.as_slice())
}

/// The outcome of reading one file.
#[derive(Clone, Debug)]
pub enum FileRead {
    Read(Vec<u8>),
    Unreadable,
}

/// What to do next while loading an identity.
#[derive(Clone, Debug)]
pub enum IdentityStep {
    /// The certificate was read; read the key next.
    ReadKey,
    /// Both files were read: certificate bytes followed by key bytes.
    Assemble(Vec<u8>),
    Fail(IdentityLoadError),
}

/// The step after the certificate read `cert` and, once it was attempted, the
/// key read `key`. An unreadable certificate fails at once, and the key is
/// never asked for.
pub fn identity_step(cert: FileRead, key: Option<FileRead>) -> (r: IdentityStep)
    ensures
        cert is Unreadable ==> r == IdentityStep::Fail(IdentityLoadError::CertUnreadable),
        cert is Read && key is None ==> r is ReadKey,
        cert is Read && key == Some(FileRead::Unreadable) ==> r == IdentityStep::Fail(
            IdentityLoadError::KeyUnreadable,
        ),
        cert matches FileRead::Read(c) ==> (key matches Some(FileRead::Read(k)) ==> (
        r matches IdentityStep::Assemble(pem) && pem@ == c@ + k@)),
{
    match cert {
        FileRead::Unreadable => IdentityStep::Fail(IdentityLoadError::CertUnreadable),
        FileRead::Read(mut c) => match key {
            None => IdentityStep::ReadKey,
            Some(FileRead::Unreadable) => IdentityStep::Fail(IdentityLoadError::KeyUnreadable),
            Some(FileRead::Read(mut k)) => {
                c.append(&mut k);
                IdentityStep::Assemble(c)
            },
        },
    }
}

fn parse_identity(pem: &Vec<u8>) -> (r: Result<reqwest::Identity, IdentityLoadError>)
    ensures
        r is Ok <==> pem_identity_accepted(pem@),
        r matches Err(e) ==> e == IdentityLoadError::InvalidPem,
{
    match identity_from_pem(pem) {
        Ok(id) => Ok(id),
        Err(_) => Err(IdentityLoadError::InvalidPem),
    }
}

/// Loads the transport identity from the certificate read `cert` and the key
/// read `key` (`None` where the key was not read). An unreadable certificate
/// fails with `CertUnreadable` whatever `key` is, so the key need not be read;
/// a key that is unreadable or missing fails with `KeyUnreadable`. Otherwise
/// the certificate bytes followed by the key bytes are parsed, and bytes that
/// are not a certificate and a private key give `InvalidPem`.
pub fn load_identity(cert: FileRead, key: Option<FileRead>) -> (r: Result<
    reqwest::Identity,
    IdentityLoadError,
>)
    ensures
        cert is Unreadable ==> (r matches Err(e) && e == IdentityLoadError::CertUnreadable),
        cert is Read && !(key matches Some(FileRead::Read(_))) ==> (r matches Err(e) && e
            == IdentityLoadError::KeyUnreadable),
        cert matches FileRead::Read(c) ==> (key matches Some(FileRead::Read(k)) ==> {
            &&& (r is Ok <==> pem_identity_accepted(c@ + k@))
            &&& (r matches Err(e) ==> e == IdentityLoadError::InvalidPem)
        }),
{
    let key = match (&cert, key) {
        (FileRead::Read(_), None) => Some(FileRead::Unreadable),
        (_, k) => k,
    };
    match identity_step(cert, key) {
        IdentityStep::Assemble(pem) => parse_identity(&pem),
        IdentityStep::Fail(e) => Err(e),
        IdentityStep::ReadKey => Err(IdentityLoadError::KeyUnreadable),
    }
}

} // verus!
