//! Authentication contexts and how they are attached to a request.
use vstd::prelude::*;
use crate::error::ClientError;
use crate::request::HttpRequest;

verus! {

/// What an operation needs in order to be sent.
#[derive(Clone, Copy, Debug, PartialEq, Eq, Structural)]
pub enum AuthRequirement {
    /// No credential.
    Anonymous,
    /// An administrator's bearer token.
    AdminToken,
    /// A device's mutual-TLS identity, presented during the handshake.
    DeviceIdentity,
}

/// How a request will authenticate.
#[derive(Clone, Debug)]
pub enum AuthContext {
    Unauthenticated,
    Bearer(String),
    /// Certificate and private key, concatenated PEM.
    ClientIdentity(Vec<u8>),
}

/// Whether `auth` meets `req`.
pub open spec fn satisfies(req: AuthRequirement, auth: AuthContext) -> bool {
    match req {
        AuthRequirement::Anonymous => true,
        AuthRequirement::AdminToken => auth is Bearer,
        AuthRequirement::DeviceIdentity => auth is ClientIdentity,
    }
}

/// The bearer header a request carries under `req` and `auth`: the token only
/// for operations that ask for one.
pub open spec fn bearer_of(req: AuthRequirement, auth: AuthContext) -> Option<String> {
    match (req, auth) {
        (AuthRequirement::AdminToken, AuthContext::Bearer(t)) => Some(t),
        _ => None,
    }
}

/// The administrator context: the explicit token if given, else the one from
/// the environment, else none.
pub open spec fn admin_context_of(explicit: Option<String>, env: Option<String>) -> AuthContext {
    match explicit {
        Some(t) => AuthContext::Bearer(t),
        None => match env {
            Some(t) => AuthContext::Bearer(t),
            None => AuthContext::Unauthenticated,
        },
    }
}

/// Resolves the administrator token: an explicit one wins over the environment's.
pub fn admin_context(explicit: Option<String>, env: Option<String>) -> (r: AuthContext)
    ensures
        r == admin_context_of(explicit, env),
{
    match explicit {
        Some(t) => AuthContext::Bearer(t),
        None => match env {
            Some(t) => AuthContext::Bearer(t),
            None => AuthContext::Unauthenticated,
        },
    }
}

/// Checks `auth` against `requirement` and attaches it. A bearer token becomes
/// the request's bearer header; a client identity is left to the transport and
/// changes nothing in the request. An unmet requirement is `MissingCredential`.
pub fn attach_auth(request: HttpRequest, requirement: AuthRequirement, auth: &AuthContext) -> (r:
    Result<HttpRequest, ClientError>)
    ensures
        r is Ok <==> satisfies(requirement, *auth),
        r is Err ==> r matches Err(ClientError::MissingCredential),
        r matches Ok(out) ==> out == (HttpRequest { bearer: bearer_of(requirement, *auth), ..request }),
{
    match requirement {
        AuthRequirement::Anonymous => Ok(HttpRequest { bearer: None, ..request }),
        AuthRequirement::AdminToken => match auth {
            AuthContext::Bearer(t) => Ok(HttpRequest { bearer: Some(t.clone()), ..request }),
            _ => Err(ClientError::MissingCredential),
        },
        AuthRequirement::DeviceIdentity => match auth {
            AuthContext::ClientIdentity(_) => Ok(HttpRequest { bearer: None, ..request }),
            _ => Err(ClientError::MissingCredential),
        },
    }
}

} // verus!
