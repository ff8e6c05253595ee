use udctl::render::{
    render_audit, render_enrolled_device, render_response, AuditRecord, EnrollDeviceResponse,
    GroupResponse, PolicyResponse, Response, UserResponse,
};

const ID: u128 = 0x0123_4567_89ab_cdef_0011_2233_4455_6677;

fn enroll(ca: Option<&str>) -> EnrollDeviceResponse {
    EnrollDeviceResponse {
        device_id: ID,
        trust_state: "trusted".into(),
        device_cert_pem: "CERT".into(),
        device_key_pem: "KEY".into(),
        ca_cert_pem: ca.map(|c| c.to_string()),
    }
}

#[test]
fn enroll_without_ca_prints_no_ca_block() {
    let lines = render_enrolled_device(&enroll(None));
    assert_eq!(
        lines,
        vec![
            "enrolled device id=01234567-89ab-cdef-0011-223344556677 state=trusted".to_string(),
            "--- device certificate (PEM) ---\nCERT".to_string(),
            "--- device private key (PEM) ---\nKEY".to_string(),
        ]
    );
    assert!(lines.iter().all(|l| !l.contains("ca certificate")));
}

#[test]
fn enroll_with_ca_prints_it_last() {
    let lines = render_enrolled_device(&enroll(Some("CA")));
    assert_eq!(lines.len(), 4);
    assert_eq!(lines[3], "--- ca certificate (PEM) ---\nCA");
}

fn record(id: i64, at: &str, actor: Option<&str>) -> AuditRecord {
    AuditRecord {
        id,
        created_at: at.into(),
        actor_username: actor.map(|a| a.to_string()),
        action: "login".into(),
        result: "ok".into(),
    }
}

#[test]
fn audit_keeps_server_order() {
    let records = vec![
        record(3, "2024-03-01T00:00:00Z", Some("bob")),
        record(1, "2024-01-01T00:00:00Z", None),
        record(2, "2025-01-01T00:00:00Z", Some("alice")),
    ];
    let lines = render_audit(&records);
    assert_eq!(
        lines,
        vec![
            "3 2024-03-01T00:00:00Z bob login ok".to_string(),
            "1 2024-01-01T00:00:00Z  login ok".to_string(),
            "2 2025-01-01T00:00:00Z alice login ok".to_string(),
        ]
    );
}

#[test]
fn audit_empty_and_negative_id() {
    assert!(render_audit(&vec![]).is_empty());
    let lines = render_audit(&vec![record(-12, "t", Some("x"))]);
    assert_eq!(lines, vec!["-12 t x login ok".to_string()]);
}

#[test]
fn simple_responses() {
    assert_eq!(render_response(&Response::Text("ok".into())), vec!["ok".to_string()]);
    assert_eq!(render_response(&Response::AdminToken("abc".into())), vec!["admin_token=abc".to_string()]);
    assert_eq!(render_response(&Response::LoginResult("allowed".into())), vec!["allowed".to_string()]);
    assert_eq!(
        render_response(&Response::MemberAdded { group_id: ID, user_id: 1 }),
        vec!["added user 00000000-0000-0000-0000-000000000001 to group 01234567-89ab-cdef-0011-223344556677"
            .to_string()]
    );
    assert_eq!(
        render_response(&Response::KerberosCommands(vec!["a".into(), "b".into()])),
        vec!["a".to_string(), "b".to_string()]
    );
}

#[test]
fn record_responses() {
    let user = UserResponse {
        id: ID,
        username: "alice".into(),
        display_name: "Alice".into(),
        status: "active".into(),
        ssh_public_keys: vec!["k1".into(), "k2".into()],
        created_at: "t".into(),
    };
    assert_eq!(
        render_response(&Response::User(user)),
        vec!["created user alice id=01234567-89ab-cdef-0011-223344556677 status=active keys=2".to_string()]
    );
    let group = GroupResponse { id: 255, name: "ops".into(), created_at: "t".into() };
    assert_eq!(
        render_response(&Response::Group(group)),
        vec!["created group ops id=00000000-0000-0000-0000-0000000000ff".to_string()]
    );
    let policy = PolicyResponse {
        id: ID,
        group_id: 0,
        host_tag: "prod".into(),
        effect: "deny".into(),
        description: None,
    };
    assert_eq!(
        render_response(&Response::Policy(policy)),
        vec!["policy 01234567-89ab-cdef-0011-223344556677 host_tag=prod effect=deny".to_string()]
    );
    assert_eq!(render_response(&Response::EnrolledDevice(enroll(None))).len(), 3);
}
