use udctl::kerberos::{
    principal_for_host, principal_for_user, render_host_commands, render_kerberos_host,
    render_kerberos_user, render_user_commands, with_kdc_banner,
};

#[test]
fn user_commands_exact() {
    let cmds = render_user_commands("alice", "UD.INTERNAL");
    assert_eq!(
        cmds,
        vec![
            "kadmin.local -q \"addprinc -randkey alice@UD.INTERNAL\"".to_string(),
            "kadmin.local -q \"ktadd -k /keytabs/alice.keytab alice@UD.INTERNAL\"".to_string(),
        ]
    );
}

#[test]
fn host_commands_share_principal() {
    let cmds = render_host_commands("web01", "UD.INTERNAL", "/etc/krb5.keytab");
    assert_eq!(cmds.len(), 2);
    assert!(cmds.iter().all(|c| c.contains("host/web01@UD.INTERNAL")));
    assert_eq!(cmds[0], "kadmin.local -q \"addprinc -randkey host/web01@UD.INTERNAL\"");
    assert_eq!(cmds[1], "kadmin.local -q \"ktadd -k /etc/krb5.keytab host/web01@UD.INTERNAL\"");
}

#[test]
fn host_keytab_taken_verbatim() {
    let cmds = render_host_commands("db", "EXAMPLE.ORG", "/srv/keys/db host.keytab");
    assert_eq!(cmds[1], "kadmin.local -q \"ktadd -k /srv/keys/db host.keytab host/db@EXAMPLE.ORG\"");
}

#[test]
fn principals() {
    assert_eq!(principal_for_user("bob", "R"), "bob@R");
    assert_eq!(principal_for_host("h", "R"), "host/h@R");
    assert_eq!(principal_for_user("", ""), "@");
}

#[test]
fn kerberos_renderers_return_two_commands() {
    let u = render_kerberos_user("alice", "UD.INTERNAL");
    assert_eq!(
        u,
        vec![
            "kadmin.local -q \"addprinc -randkey alice@UD.INTERNAL\"".to_string(),
            "kadmin.local -q \"ktadd -k /keytabs/alice.keytab alice@UD.INTERNAL\"".to_string(),
        ]
    );
    let h = render_kerberos_host("web01", "UD.INTERNAL", "/etc/krb5.keytab");
    assert_eq!(
        h,
        vec![
            "kadmin.local -q \"addprinc -randkey host/web01@UD.INTERNAL\"".to_string(),
            "kadmin.local -q \"ktadd -k /etc/krb5.keytab host/web01@UD.INTERNAL\"".to_string(),
        ]
    );
}

#[test]
fn printed_block_starts_with_banner() {
    let lines = with_kdc_banner(render_kerberos_user("alice", "UD.INTERNAL"));
    assert_eq!(lines.len(), 3);
    assert_eq!(lines[0], "# Run inside KDC host");
    assert_eq!(lines[1], "kadmin.local -q \"addprinc -randkey alice@UD.INTERNAL\"");
}
