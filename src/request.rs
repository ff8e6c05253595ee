//! The request a command turns into, before it reaches the transport.
use vstd::prelude::*;

verus! {

/// HTTP method of an operation.
#[derive(Clone, Copy, Debug, PartialEq, Eq, Structural)]
pub enum Method {
    Get,
    Post,
}

/// The JSON payload an operation sends, field for field.
#[derive(Clone, Debug)]
pub enum RequestBody {
    Empty,
    Bootstrap { admin_username: String, admin_password: String, display_name: Option<String> },
    Login { username: String, password: String },
    /// `ssh_key`, when present, is sent as a one-element `ssh_public_keys` list.
    CreateUser { username: String, display_name: String, password: String, ssh_key: Option<String> },
    CreateGroup { name: String },
    AddMember { user_id: u128 },
    EnrollDevice {
        name: String,
        device_type: String,
        tags: Vec<String>,
        host_fingerprint: Option<String>,
        pubkey_fingerprint: Option<String>,
    },
    CreatePolicy { group_id: u128, host_tag: String, effect: String, description: Option<String> },
}

/// The shape the response body is decoded into.
#[derive(Clone, Copy, Debug, PartialEq, Eq, Structural)]
pub enum ResponseKind {
    /// Raw text, printed as received.
    Text,
    AdminToken,
    LoginResult,
    User,
    Group,
    /// Success is the status alone; no body is read.
    MemberAdded { group_id: u128, user_id: u128 },
    EnrolledDevice,
    Policy,
    AuditRecords,
    KerberosCommands,
}

/// A fully authenticated request, ready for the transport.
#[derive(Clone, Debug)]
pub struct HttpRequest {
    pub method: Method,
    /// Base URL followed by the operation's path.
    pub url: String,
    /// Query parameters, in order; the transport encodes them.
    pub query: Vec<(String, String)>,
    /// Token sent as `Authorization: Bearer <token>`, if any.
    pub bearer: Option<String>,
    pub body: RequestBody,
    pub expect: ResponseKind,
}

/// A 2xx status: the operation succeeded and its body, if any, is decoded.
/// Any other status ends the command with a server error.
pub open spec fn success_status(status: u16) -> bool {
    200 <= status < 300
}

pub fn is_success_status(status: u16) -> (r: bool)
    ensures
        r == success_status(status),
{
    200 <= status && status < 300
}

} // verus!
