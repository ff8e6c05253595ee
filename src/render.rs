//! Server responses and the lines printed for each, in a fixed order.
use vstd::prelude::*;
use crate::kerberos::lines_view;
use crate::text::{int_text, push_decimal, push_uuid, uuid_text};

verus! {

#[derive(Clone, Debug)]
pub struct UserResponse {
    pub id: u128,
    pub username: String,
    pub display_name: String,
    pub status: String,
    pub ssh_public_keys: Vec<String>,
    pub created_at: String,
}

#[derive(Clone, Debug)]
pub struct GroupResponse {
    pub id: u128,
    pub name: String,
    pub created_at: String,
}

#[derive(Clone, Debug)]
pub struct EnrollDeviceResponse {
    pub device_id: u128,
    pub trust_state: String,
    pub device_cert_pem: String,
    pub device_key_pem: String,
    pub ca_cert_pem: Option<String>,
}

#[derive(Clone, Debug)]
pub struct PolicyResponse {
    pub id: u128,
    pub group_id: u128,
    pub host_tag: String,
    pub effect: String,
    pub description: Option<String>,
}

#[derive(Clone, Debug)]
pub struct AuditRecord {
    pub id: i64,
    /// RFC 3339 timestamp.
    pub created_at: String,
    pub actor_username: Option<String>,
    pub action: String,
    pub result: String,
}

/// A decoded response, one variant per response shape.
#[derive(Clone, Debug)]
pub enum Response {
    Text(String),
    AdminToken(String),
    LoginResult(String),
    User(UserResponse),
    Group(GroupResponse),
    MemberAdded { group_id: u128, user_id: u128 },
    EnrolledDevice(EnrollDeviceResponse),
    Policy(PolicyResponse),
    AuditRecords(Vec<AuditRecord>),
    KerberosCommands(Vec<String>),
}

pub open spec fn cert_header() -> Seq<char> {
    "--- device certificate (PEM) ---\n"@
}

pub open spec fn key_header() -> Seq<char> {
    "--- device private key (PEM) ---\n"@
}

pub open spec fn ca_header() -> Seq<char> {
    "--- ca certificate (PEM) ---\n"@
}

/// The lines for an enrolled device: a summary, the certificate block, the
/// private key block, and the CA block only when a CA certificate came back.
/// Each PEM is reproduced as received.
pub open spec fn enroll_lines(r: EnrollDeviceResponse) -> Seq<Seq<char>> {
    let head = seq![
        "enrolled device id="@ + uuid_text(r.device_id) + " state="@ + r.trust_state@,
        cert_header() + r.device_cert_pem@,
        key_header() + r.device_key_pem@,
    ];
    match r.ca_cert_pem {
        Some(ca) => head.push(ca_header() + ca@),
        None => head,
    }
}

/// One audit record on one line: id, time, actor (empty when absent), action, result.
pub open spec fn audit_line(r: AuditRecord) -> Seq<char> {
    let actor = match r.actor_username {
        Some(a) => a@,
        None => Seq::empty(),
    };
    int_text(r.id as int) + " "@ + r.created_at@ + " "@ + actor + " "@ + r.action@ + " "@ + r.result@
}

pub open spec fn user_line(r: UserResponse) -> Seq<char> {
    "created user "@ + r.username@ + " id="@ + uuid_text(r.id) + " status="@ + r.status@
        + " keys="@ + int_text(r.ssh_public_keys@.len() as int)
}

pub open spec fn group_line(r: GroupResponse) -> Seq<char> {
    "created group "@ + r.name@ + " id="@ + uuid_text(r.id)
}

pub open spec fn member_line(group_id: u128, user_id: u128) -> Seq<char> {
    "added user "@ + uuid_text(user_id) + " to group "@ + uuid_text(group_id)
}

pub open spec fn policy_line(r: PolicyResponse) -> Seq<char> {
    "policy "@ + uuid_text(r.id) + " host_tag="@ + r.host_tag@ + " effect="@ + r.effect@
}

/// The lines printed for a response.
pub open spec fn response_lines(resp: Response) -> Seq<Seq<char>> {
    match resp {
        Response::Text(t) => seq![t@],
        Response::AdminToken(t) => seq!["admin_token="@ + t@],
        Response::LoginResult(t) => seq![t@],
        Response::User(u) => seq![user_line(u)],
        Response::Group(g) => seq![group_line(g)],
        Response::MemberAdded { group_id, user_id } => seq![member_line(group_id, user_id)],
        Response::EnrolledDevice(d) => enroll_lines(d),
        Response::Policy(p) => seq![policy_line(p)],
        Response::AuditRecords(records) => records@.map_values(|r: AuditRecord| audit_line(r)),
        Response::KerberosCommands(cmds) => lines_view(cmds@),
    }
}

fn joined(header: &str, pem: &str) -> (r: String)
    ensures
        r@ == header@ + pem@,
{
    let mut s = String::from_str(header);
    s.append(pem);
    s
}

/// The enrolled-device block; see `enroll_lines`.
pub fn render_enrolled_device(resp: &EnrollDeviceResponse) -> (r: Vec<String>)
    ensures
        lines_view(r@) == enroll_lines(*resp),
        r@.len() == enroll_lines(*resp).len(),
{
    let mut summary = String::from_str("enrolled device id=");
    push_uuid(&mut summary, resp.device_id);
    summary.append(" state=");
    summary.append(resp.trust_state.as_str());
    let mut r: Vec<String> = Vec::new();
    r.push(summary);
    r.push(joined("--- device certificate (PEM) ---\n", resp.device_cert_pem.as_str()));
    r.push(joined("--- device private key (PEM) ---\n", resp.device_key_pem.as_str()));
    match &resp.ca_cert_pem {
        Some(ca) => {
            r.push(joined("--- ca certificate (PEM) ---\n", ca.as_str()));
        },
        None => {},
    }
    assert(lines_view(r@) =~= enroll_lines(*resp));
    r
}

/// One line per audit record, in the order received.
pub fn render_audit_line(record: &AuditRecord) -> (r: String)
    ensures
        r@ == audit_line(*record),
{
    let mut s = String::new();
    push_decimal(&mut s, record.id as i128);
    s.append(" ");
    s.append(record.created_at.as_str());
    s.append(" ");
    match &record.actor_username {
        Some(a) => s.append(a.as_str()),
        None => {},
    }
    s.append(" ");
    s.append(record.action.as_str());
    s.append(" ");
    s.append(record.result.as_str());
    assert(s@ =~= audit_line(*record));
    s
}

/// The audit listing: line `i` renders record `i`; nothing is sorted or dropped.
pub fn render_audit(records: &Vec<AuditRecord>) -> (r: Vec<String>)
    ensures
        lines_view(r@) == records@.map_values(|x: AuditRecord| audit_line(x)),
        r@.len() == records@.len(),
{
    let mut r: Vec<String> = Vec::new();
    let mut i: usize = 0;
    while i < records.len()
        invariant
            i <= records.len(),
            lines_view(r@) == records@.subrange(0, i as int).map_values(|x: AuditRecord| audit_line(x)),
        decreases records.len() - i,
    {
        let ghost prev = r@;
        r.push(render_audit_line(&records[i]));
        assert(lines_view(r@) =~= lines_view(prev).push(audit_line(records@[i as int])));
        assert(records@.subrange(0, i + 1).map_values(|x: AuditRecord| audit_line(x))
            =~= records@.subrange(0, i as int).map_values(|x: AuditRecord| audit_line(x)).push(
            audit_line(records@[i as int]),
        ));
        i = i + 1;
    }
    assert(records@.subrange(0, records.len() as int) =~= records@);
    r
}

fn copy_lines(lines: &Vec<String>) -> (r: Vec<String>)
    ensures
        lines_view(r@) == lines_view(lines@),
{
    let mut r: Vec<String> = Vec::new();
    let mut i: usize = 0;
    while i < lines.len()
        invariant
            i <= lines.len(),
            lines_view(r@) == lines_view(lines@.subrange(0, i as int)),
        decreases lines.len() - i,
    {
        let ghost prev = r@;
        r.push(lines[i].clone());
        assert(lines_view(r@) =~= lines_view(prev).push(lines@[i as int]@));
        assert(lines_view(lines@.subrange(0, i + 1)) =~= lines_view(lines@.subrange(0, i as int)).push(
            lines@[i as int]@,
        ));
        i = i + 1;
    }
    assert(lines@.subrange(0, lines.len() as int) =~= lines@);
    r
}

fn single(s: String) -> (r: Vec<String>)
    ensures
        lines_view(r@) == seq![s@],
{
    let mut r: Vec<String> = Vec::new();
    r.push(s);
    assert(lines_view(r@) =~= seq![s@]);
    r
}

/// The lines printed for `resp`, as `response_lines` states them.
pub fn render_response(resp: &Response) -> (r: Vec<String>)
    ensures
        lines_view(r@) == response_lines(*resp),
        r@.len() == response_lines(*resp).len(),
{
    match resp {
        Response::Text(t) => single(t.clone()),
        Response::AdminToken(t) => single(joined("admin_token=", t.as_str())),
        Response::LoginResult(t) => single(t.clone()),
        Response::User(u) => {
            let mut s = String::from_str("created user ");
            s.append(u.username.as_str());
            s.append(" id=");
            push_uuid(&mut s, u.id);
            s.append(" status=");
            s.append(u.status.as_str());
            s.append(" keys=");
            push_decimal(&mut s, u.ssh_public_keys.len() as i128);
            assert(s@ =~= user_line(*u));
            single(s)
        },
        Response::Group(g) => {
            let mut s = String::from_str("created group ");
            s.append(g.name.as_str());
            s.append(" id=");
            push_uuid(&mut s, g.id);
            assert(s@ =~= group_line(*g));
            single(s)
        },
        Response::MemberAdded { group_id, user_id } => {
            let mut s = String::from_str("added user ");
            push_uuid(&mut s, *user_id);
            s.append(" to group ");
            push_uuid(&mut s, *group_id);
            assert(s@ =~= member_line(*group_id, *user_id));
            single(s)
        },
        Response::EnrolledDevice(d) => render_enrolled_device(d),
        Response::Policy(p) => {
            let mut s = String::from_str("policy ");
            push_uuid(&mut s, p.id);
            s.append(" host_tag=");
            s.append(p.host_tag.as_str());
            s.append(" effect=");
            s.append(p.effect.as_str());
            assert(s@ =~= policy_line(*p));
            single(s)
        },
        Response::AuditRecords(records) => render_audit(records),
        Response::KerberosCommands(cmds) => copy_lines(cmds),
    }
}

/// The audit listing keeps the server's order: line `i` is record `i`, whatever
/// the records' timestamps, and no line is added or dropped.
pub proof fn lemma_audit_order_kept(records: Vec<AuditRecord>)
    ensures
        response_lines(Response::AuditRecords(records)).len() == records@.len(),
        forall|i: int|
            0 <= i < records@.len() ==> #[trigger] response_lines(Response::AuditRecords(records))[i]
                == audit_line(records@[i]),
{
}

/// Without a CA certificate the enrolled-device output is the summary, the
/// certificate block and the key block, in that order, and no CA block.
pub proof fn lemma_enroll_without_ca(resp: EnrollDeviceResponse)
    requires
        resp.ca_cert_pem is None,
    ensures
        enroll_lines(resp).len() == 3,
        enroll_lines(resp)[1] == cert_header() + resp.device_cert_pem@,
        enroll_lines(resp)[2] == key_header() + resp.device_key_pem@,
{
}

/// With a CA certificate its block comes fourth, after the key block.
pub proof fn lemma_enroll_with_ca(resp: EnrollDeviceResponse, ca: String)
    requires
        resp.ca_cert_pem == Some(ca),
    ensures
        enroll_lines(resp).len() == 4,
        enroll_lines(resp)[1] == cert_header() + resp.device_cert_pem@,
        enroll_lines(resp)[2] == key_header() + resp.device_key_pem@,
        enroll_lines(resp)[3] == ca_header() + ca@,
{
}

} // verus!
