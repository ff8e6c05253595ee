//! Kerberos administration commands rendered locally from a principal, a realm
//! and a keytab path. Pure text: no network and no filesystem.
use vstd::prelude::*;

verus! {

/// The comment line that heads each rendered block.
pub open spec fn kdc_banner() -> Seq<char> {
    "# Run inside KDC host"@
}

/// `kadmin.local -q "addprinc -randkey <principal>"`
pub open spec fn addprinc_command(principal: Seq<char>) -> Seq<char> {
    "kadmin.local -q \"addprinc -randkey "@ + principal + "\""@
}

/// `kadmin.local -q "ktadd -k <keytab> <principal>"`
pub open spec fn ktadd_command(keytab: Seq<char>, principal: Seq<char>) -> Seq<char> {
    "kadmin.local -q \"ktadd -k "@ + keytab + " "@ + principal + "\""@
}

/// The principal `<username>@<realm>`.
pub open spec fn user_principal(username: Seq<char>, realm: Seq<char>) -> Seq<char> {
    username + "@"@ + realm
}

/// The principal `host/<hostname>@<realm>`.
pub open spec fn host_principal(hostname: Seq<char>, realm: Seq<char>) -> Seq<char> {
    "host/"@ + hostname + "@"@ + realm
}

/// The keytab a user's key is extracted to: `/keytabs/<username>.keytab`.
pub open spec fn user_keytab(username: Seq<char>) -> Seq<char> {
    "/keytabs/"@ + username + ".keytab"@
}

/// The two commands for a user principal, creation first.
pub open spec fn user_commands(username: Seq<char>, realm: Seq<char>) -> Seq<Seq<char>> {
    seq![
        addprinc_command(user_principal(username, realm)),
        ktadd_command(user_keytab(username), user_principal(username, realm)),
    ]
}

/// The two commands for a host principal, creation first.
pub open spec fn host_commands(hostname: Seq<char>, realm: Seq<char>, keytab: Seq<char>) -> Seq<
    Seq<char>,
> {
    seq![
        addprinc_command(host_principal(hostname, realm)),
        ktadd_command(keytab, host_principal(hostname, realm)),
    ]
}

/// The text of each line.
pub open spec fn lines_view(v: Seq<String>) -> Seq<Seq<char>> {
    v.map_values(|s: String| s@)
}

fn addprinc(principal: &str) -> (r: String)
    ensures
        r@ == addprinc_command(principal@),
{
    let mut s = String::from_str("kadmin.local -q \"addprinc -randkey ");
    s.append(principal);
    s.append("\"");
    s
}

fn ktadd(keytab: &str, principal: &str) -> (r: String)
    ensures
        r@ == ktadd_command(keytab@, principal@),
{
    let mut s = String::from_str("kadmin.local -q \"ktadd -k ");
    s.append(keytab);
    s.append(" ");
    s.append(principal);
    s.append("\"");
    s
}

/// Builds the principal `<username>@<realm>`.
pub fn principal_for_user(username: &str, realm: &str) -> (r: String)
    ensures
        r@ == user_principal(username@, realm@),
{
    let mut s = String::from_str(username);
    s.append("@");
    s.append(realm);
    s
}

/// Builds the principal `host/<hostname>@<realm>`.
pub fn principal_for_host(hostname: &str, realm: &str) -> (r: String)
    ensures
        r@ == host_principal(hostname@, realm@),
{
    let mut s = String::from_str("host/");
    s.append(hostname);
    s.append("@");
    s.append(realm);
    s
}

/// Principal creation and keytab extraction for `<username>@<realm>`, in that order.
pub fn render_user_commands(username: &str, realm: &str) -> (r: Vec<String>)
    ensures
        lines_view(r@) == user_commands(username@, realm@),
        r@.len() == 2,
{
    let principal = principal_for_user(username, realm);
    let mut keytab = String::from_str("/keytabs/");
    keytab.append(username);
    keytab.append(".keytab");
    let mut r: Vec<String> = Vec::new();
    r.push(addprinc(principal.as_str()));
    r.push(ktadd(keytab.as_str(), principal.as_str()));
    assert(lines_view(r@) =~= user_commands(username@, realm@));
    r
}

/// Principal creation and keytab extraction for `host/<hostname>@<realm>`, the
/// keytab path taken as given.
pub fn render_host_commands(hostname: &str, realm: &str, keytab_path: &str) -> (r: Vec<String>)
    ensures
        lines_view(r@) == host_commands(hostname@, realm@, keytab_path@),
        r@.len() == 2,
{
    let principal = principal_for_host(hostname, realm);
    let mut r: Vec<String> = Vec::new();
    r.push(addprinc(principal.as_str()));
    r.push(ktadd(keytab_path, principal.as_str()));
    assert(lines_view(r@) =~= host_commands(hostname@, realm@, keytab_path@));
    r
}

/// The printed block: the banner comment line, then the commands in order.
pub fn with_kdc_banner(commands: Vec<String>) -> (r: Vec<String>)
    ensures
        lines_view(r@) == seq![kdc_banner()] + lines_view(commands@),
        r@.len() == commands@.len() + 1,
{
    let mut r: Vec<String> = Vec::new();
    r.push(String::from_str("# Run inside KDC host"));
    let mut i: usize = 0;
    while i < commands.len()
        invariant
            i <= commands.len(),
            lines_view(r@) == seq![kdc_banner()] + lines_view(commands@.subrange(0, i as int)),
            r@.len() == i + 1,
        decreases commands.len() - i,
    {
        let ghost prev = r@;
        r.push(commands[i].clone());
        assert(lines_view(r@) =~= lines_view(prev).push(commands@[i as int]@));
        assert(lines_view(commands@.subrange(0, i + 1)) =~= lines_view(
            commands@.subrange(0, i as int),
        ).push(commands@[i as int]@));
        assert(lines_view(r@) =~= seq![kdc_banner()] + lines_view(commands@.subrange(0, i + 1)));
        i = i + 1;
    }
    assert(commands@.subrange(0, commands.len() as int) =~= commands@);
    r
}

/// The commands for the user principal `<username>@<realm>`: exactly two,
/// principal creation first, keytab extraction second.
pub fn render_kerberos_user(username: &str, realm: &str) -> (r: Vec<String>)
    ensures
        lines_view(r@) == user_commands(username@, realm@),
        r@.len() == 2,
{
    render_user_commands(username, realm)
}

/// The commands for the host principal `host/<hostname>@<realm>`: exactly two,
/// principal creation first, keytab extraction into `keytab` second.
pub fn render_kerberos_host(hostname: &str, realm: &str, keytab: &str) -> (r: Vec<String>)
    ensures
        lines_view(r@) == host_commands(hostname@, realm@, keytab@),
        r@.len() == 2,
{
    render_host_commands(hostname, realm, keytab)
}

/// Both commands for a host name the same principal, `host/<hostname>@<realm>`,
/// and the keytab path appears as given.
pub proof fn lemma_host_commands_share_principal(
    hostname: Seq<char>,
    realm: Seq<char>,
    keytab: Seq<char>,
)
    ensures
        host_commands(hostname, realm, keytab).len() == 2,
        host_commands(hostname, realm, keytab)[0] == addprinc_command(
            host_principal(hostname, realm),
        ),
        host_commands(hostname, realm, keytab)[1] == ktadd_command(
            keytab,
            host_principal(hostname, realm),
        ),
{
}

} // verus!
