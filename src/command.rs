//! Operator commands, the operation each maps to, and the router that turns a
//! command into either a request or locally rendered output.
use vstd::prelude::*;
use crate::auth::{attach_auth, bearer_of, satisfies, AuthContext, AuthRequirement};
use crate::error::ClientError;
use crate::kerberos::{
    host_commands, kdc_banner, lines_view, render_kerberos_host, render_kerberos_user,
    with_kdc_banner,
    user_commands,
};
use crate::request::{HttpRequest, Method, RequestBody, ResponseKind};
use crate::text::{int_text, push_decimal, push_uuid, uuid_text};

verus! {

/// One operator action with its parameters. Identifiers are 128-bit UUIDs.
#[derive(Clone, Debug)]
pub enum Command {
    Health,
    Login { username: String, password: String },
    Bootstrap { admin_username: String, admin_password: String, display_name: Option<String> },
    CreateUser { username: String, display_name: String, password: String, ssh_key: Option<String> },
    CreateGroup { name: String },
    AddMember { group_id: u128, user_id: u128 },
    EnrollDevice {
        name: String,
        device_type: String,
        tags: Vec<String>,
        host_fingerprint: Option<String>,
        pubkey_fingerprint: Option<String>,
    },
    CreatePolicy { group_id: u128, host_tag: String, effect: String, description: Option<String> },
    ListAudit { limit: i64 },
    KerberosUser { username: String, realm: String },
    KerberosHost { hostname: String, realm: String, keytab: String },
    KerberosSyncUser { user_id: u128 },
    KerberosSyncDevice { device_id: u128 },
}

/// What the router decided: send a request, or print lines produced locally.
#[derive(Clone, Debug)]
pub enum Action {
    Send(HttpRequest),
    Print(Vec<String>),
}

/// Commands rendered locally, with no server round trip.
pub open spec fn is_local(cmd: Command) -> bool {
    cmd is KerberosUser || cmd is KerberosHost
}

/// The operations of the catalogue that act with administrator rights.
pub open spec fn admin_scoped(cmd: Command) -> bool {
    ||| cmd is CreateUser
    ||| cmd is CreateGroup
    ||| cmd is AddMember
    ||| cmd is EnrollDevice
    ||| cmd is CreatePolicy
    ||| cmd is ListAudit
    ||| cmd is KerberosSyncUser
    ||| cmd is KerberosSyncDevice
}

pub open spec fn requirement_of(cmd: Command) -> AuthRequirement {
    match cmd {
        Command::Health | Command::Login { .. } | Command::Bootstrap { .. } | Command::KerberosUser {
            ..
        } | Command::KerberosHost { .. } => AuthRequirement::Anonymous,
        _ => AuthRequirement::AdminToken,
    }
}

pub open spec fn method_of(cmd: Command) -> Method {
    match cmd {
        Command::Health | Command::ListAudit { .. } => Method::Get,
        _ => Method::Post,
    }
}

/// The path of the operation, parameters substituted.
pub open spec fn path_of(cmd: Command) -> Seq<char> {
    match cmd {
        Command::Health => "/health"@,
        Command::Login { .. } => "/v1/login"@,
        Command::Bootstrap { .. } => "/v1/bootstrap"@,
        Command::CreateUser { .. } => "/v1/users"@,
        Command::CreateGroup { .. } => "/v1/groups"@,
        Command::AddMember { group_id, .. } => "/v1/groups/"@ + uuid_text(group_id) + "/members"@,
        Command::EnrollDevice { .. } => "/v1/devices/enroll"@,
        Command::CreatePolicy { .. } => "/v1/policies"@,
        Command::ListAudit { limit } => "/v1/audit?limit="@ + int_text(limit as int),
        Command::KerberosSyncUser { user_id } => "/v1/kerberos/users/"@ + uuid_text(user_id)
            + "/commands"@,
        Command::KerberosSyncDevice { device_id } => "/v1/kerberos/devices/"@ + uuid_text(
            device_id,
        ) + "/commands"@,
        _ => Seq::empty(),
    }
}

pub open spec fn body_of(cmd: Command) -> RequestBody {
    match cmd {
        Command::Login { username, password } => RequestBody::Login { username, password },
        Command::Bootstrap { admin_username, admin_password, display_name } =>
            RequestBody::Bootstrap { admin_username, admin_password, display_name },
        Command::CreateUser { username, display_name, password, ssh_key } =>
            RequestBody::CreateUser { username, display_name, password, ssh_key },
        Command::CreateGroup { name } => RequestBody::CreateGroup { name },
        Command::AddMember { user_id, .. } => RequestBody::AddMember { user_id },
        Command::EnrollDevice { name, device_type, tags, host_fingerprint, pubkey_fingerprint } =>
            RequestBody::EnrollDevice {
            name,
            device_type,
            tags,
            host_fingerprint,
            pubkey_fingerprint,
        },
        Command::CreatePolicy { group_id, host_tag, effect, description } =>
            RequestBody::CreatePolicy { group_id, host_tag, effect, description },
        _ => RequestBody::Empty,
    }
}

pub open spec fn response_kind_of(cmd: Command) -> ResponseKind {
    match cmd {
        Command::Bootstrap { .. } => ResponseKind::AdminToken,
        Command::Login { .. } => ResponseKind::LoginResult,
        Command::CreateUser { .. } => ResponseKind::User,
        Command::CreateGroup { .. } => ResponseKind::Group,
        Command::AddMember { group_id, user_id } => ResponseKind::MemberAdded { group_id, user_id },
        Command::EnrollDevice { .. } => ResponseKind::EnrolledDevice,
        Command::CreatePolicy { .. } => ResponseKind::Policy,
        Command::ListAudit { .. } => ResponseKind::AuditRecords,
        Command::KerberosSyncUser { .. } | Command::KerberosSyncDevice { .. } =>
            ResponseKind::KerberosCommands,
        _ => ResponseKind::Text,
    }
}

/// The lines a local command prints: the banner comment, then its two commands.
pub open spec fn local_output(cmd: Command) -> Seq<Seq<char>> {
    match cmd {
        Command::KerberosUser { username, realm } => seq![kdc_banner()] + user_commands(
            username@,
            realm@,
        ),
        Command::KerberosHost { hostname, realm, keytab } => seq![kdc_banner()] + host_commands(
            hostname@,
            realm@,
            keytab@,
        ),
        _ => Seq::empty(),
    }
}

/// Whether `r` is the request a remote command becomes under `auth`.
pub open spec fn request_of(cmd: Command, server: Seq<char>, auth: AuthContext, r: HttpRequest) -> bool {
    &&& r.method == method_of(cmd)
    &&& r.url@ == server + path_of(cmd)
    &&& r.query@.len() == 0
    &&& r.bearer == bearer_of(requirement_of(cmd), auth)
    &&& r.body == body_of(cmd)
    &&& r.expect == response_kind_of(cmd)
}

impl Command {
    pub fn auth_requirement(&self) -> (r: AuthRequirement)
        ensures
            r == requirement_of(*self),
    {
        match self {
            Command::Health | Command::Login { .. } | Command::Bootstrap { .. }
            | Command::KerberosUser { .. } | Command::KerberosHost { .. } =>
                AuthRequirement::Anonymous,
            _ => AuthRequirement::AdminToken,
        }
    }

    pub fn method(&self) -> (r: Method)
        ensures
            r == method_of(*self),
    {
        match self {
            Command::Health | Command::ListAudit { .. } => Method::Get,
            _ => Method::Post,
        }
    }

    pub fn response_kind(&self) -> (r: ResponseKind)
        ensures
            r == response_kind_of(*self),
    {
        match self {
            Command::Bootstrap { .. } => ResponseKind::AdminToken,
            Command::Login { .. } => ResponseKind::LoginResult,
            Command::CreateUser { .. } => ResponseKind::User,
            Command::CreateGroup { .. } => ResponseKind::Group,
            Command::AddMember { group_id, user_id } => ResponseKind::MemberAdded {
                group_id: *group_id,
                user_id: *user_id,
            },
            Command::EnrollDevice { .. } => ResponseKind::EnrolledDevice,
            Command::CreatePolicy { .. } => ResponseKind::Policy,
            Command::ListAudit { .. } => ResponseKind::AuditRecords,
            Command::KerberosSyncUser { .. } | Command::KerberosSyncDevice { .. } =>
                ResponseKind::KerberosCommands,
            _ => ResponseKind::Text,
        }
    }

    /// `server` followed by the operation's path.
    pub fn url(&self, server: &str) -> (r: String)
        ensures
            r@ == server@ + path_of(*self),
    {
        let mut s = String::from_str(server);
        match self {
            Command::Health => s.append("/health"),
            Command::Login { .. } => s.append("/v1/login"),
            Command::Bootstrap { .. } => s.append("/v1/bootstrap"),
            Command::CreateUser { .. } => s.append("/v1/users"),
            Command::CreateGroup { .. } => s.append("/v1/groups"),
            Command::AddMember { group_id, .. } => {
                s.append("/v1/groups/");
                push_uuid(&mut s, *group_id);
                s.append("/members");
            },
            Command::EnrollDevice { .. } => s.append("/v1/devices/enroll"),
            Command::CreatePolicy { .. } => s.append("/v1/policies"),
            Command::ListAudit { limit } => {
                s.append("/v1/audit?limit=");
                push_decimal(&mut s, *limit as i128);
            },
            Command::KerberosSyncUser { user_id } => {
                s.append("/v1/kerberos/users/");
                push_uuid(&mut s, *user_id);
                s.append("/commands");
            },
            Command::KerberosSyncDevice { device_id } => {
                s.append("/v1/kerberos/devices/");
                push_uuid(&mut s, *device_id);
                s.append("/commands");
            },
            _ => {
                assert(path_of(*self) =~= Seq::empty());
            },
        }
        assert(s@ =~= server@ + path_of(*self));
        s
    }
}

fn into_body(cmd: Command) -> (r: RequestBody)
    ensures
        r == body_of(cmd),
{
    match cmd {
        Command::Login { username, password } => RequestBody::Login { username, password },
        Command::Bootstrap { admin_username, admin_password, display_name } =>
            RequestBody::Bootstrap { admin_username, admin_password, display_name },
        Command::CreateUser { username, display_name, password, ssh_key } =>
            RequestBody::CreateUser { username, display_name, password, ssh_key },
        Command::CreateGroup { name } => RequestBody::CreateGroup { name },
        Command::AddMember { user_id, .. } => RequestBody::AddMember { user_id },
        Command::EnrollDevice { name, device_type, tags, host_fingerprint, pubkey_fingerprint } =>
            RequestBody::EnrollDevice {
            name,
            device_type,
            tags,
            host_fingerprint,
            pubkey_fingerprint,
        },
        Command::CreatePolicy { group_id, host_tag, effect, description } =>
            RequestBody::CreatePolicy { group_id, host_tag, effect, description },
        _ => RequestBody::Empty,
    }
}

/// Routes a command. A local command yields its output lines. A remote one
/// yields its request, authenticated under `auth`; when `auth` does not meet
/// the operation's requirement the result is `MissingCredential` and no
/// request exists to be sent.
pub fn route(cmd: Command, server: &str, auth: &AuthContext) -> (r: Result<Action, ClientError>)
    ensures
        is_local(cmd) ==> (r matches Ok(Action::Print(lines)) && lines_view(lines@) == local_output(cmd)),
        !is_local(cmd) ==> (r is Ok <==> satisfies(requirement_of(cmd), *auth)),
        r is Err ==> r matches Err(ClientError::MissingCredential),
        !is_local(cmd) && r is Ok ==> (r matches Ok(Action::Send(req)) && request_of(cmd, server@, *auth, req)),
{
    match cmd {
        Command::KerberosUser { username, realm } => {
            Ok(Action::Print(with_kdc_banner(render_kerberos_user(username.as_str(), realm.as_str()))))
        },
        Command::KerberosHost { hostname, realm, keytab } => {
            Ok(Action::Print(with_kdc_banner(
                render_kerberos_host(hostname.as_str(), realm.as_str(), keytab.as_str()),
            )))
        },
        _ => {
            let requirement = cmd.auth_requirement();
            let method = cmd.method();
            let expect = cmd.response_kind();
            let url = cmd.url(server);
            let body = into_body(cmd);
            let request = HttpRequest { method, url, query: Vec::new(), bearer: None, body, expect };
            proof {
                assert(request.query@ =~= Seq::<(String, String)>::empty());
            }
            match attach_auth(request, requirement, auth) {
                Ok(req) => Ok(Action::Send(req)),
                Err(e) => Err(e),
            }
        },
    }
}

/// Path of the device-side authorized-keys lookup.
pub open spec fn authorized_keys_path() -> Seq<char> {
    "/v1/ssh/authorized_keys"@
}

/// The authorized-keys lookup for `username` on the host with
/// `host_fingerprint`. It needs the device's client identity; without one the
/// result is `MissingCredential`.
pub fn authorized_keys_request(
    server: &str,
    username: String,
    host_fingerprint: String,
    auth: &AuthContext,
) -> (r: Result<HttpRequest, ClientError>)
    ensures
        r is Ok <==> auth is ClientIdentity,
        r is Err ==> r matches Err(ClientError::MissingCredential),
        r matches Ok(req) ==> {
            &&& req.method == Method::Get
            &&& req.url@ == server@ + authorized_keys_path()
            &&& req.query@.len() == 2
            &&& req.query@[0].0@ == "username"@
            &&& req.query@[0].1 == username
            &&& req.query@[1].0@ == "host_fingerprint"@
            &&& req.query@[1].1 == host_fingerprint
            &&& req.bearer is None
            &&& req.body is Empty
            &&& req.expect == ResponseKind::Text
        },
{
    let mut url = String::from_str(server);
    url.append("/v1/ssh/authorized_keys");
    let mut query: Vec<(String, String)> = Vec::new();
    query.push((String::from_str("username"), username));
    query.push((String::from_str("host_fingerprint"), host_fingerprint));
    let request = HttpRequest {
        method: Method::Get,
        url,
        query,
        bearer: None,
        body: RequestBody::Empty,
        expect: ResponseKind::Text,
    };
    attach_auth(request, AuthRequirement::DeviceIdentity, auth)
}

/// Every administrator operation of the catalogue asks for a bearer token, so
/// without one it is refused with `MissingCredential` before a request exists.
pub proof fn lemma_admin_operations_need_token(cmd: Command, auth: AuthContext)
    requires
        admin_scoped(cmd),
        !(auth is Bearer),
    ensures
        requirement_of(cmd) == AuthRequirement::AdminToken,
        !is_local(cmd),
        !satisfies(requirement_of(cmd), auth),
{
}

} // verus!
