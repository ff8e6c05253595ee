use udctl::config::{
    default_true, AuthSettings, ConfigError, ConfigField, ConfigSettings, DatabaseSettings,
    KerberosSettings, ServerSettings, UnifiedDomainConfig,
};

fn full() -> ConfigSettings {
    ConfigSettings {
        server: Some(ServerSettings {
            listen_addr: Some("0.0.0.0:8443".into()),
            tls_cert_path: Some("/etc/ud/tls.crt".into()),
            tls_key_path: Some("/etc/ud/tls.key".into()),
        }),
        auth: Some(AuthSettings {
            admin_token: Some("SECRET-REDACTED".into()),
            mtls_ca_cert_path: None,
            mtls_ca_key_path: None,
            admin_token_enabled: None,
        }),
        database: Some(DatabaseSettings { url: Some("sqlite://ud.db".into()) }),
        domain: Some("ud.internal".into()),
        kerberos: None,
    }
}

#[test]
fn defaults_applied() {
    assert!(default_true());
    let cfg = UnifiedDomainConfig::load(full()).unwrap();
    assert_eq!(cfg.server.listen_addr, "0.0.0.0:8443");
    assert_eq!(cfg.server.tls_key_path, "/etc/ud/tls.key");
    assert_eq!(cfg.auth.admin_token, "SECRET-REDACTED");
    assert!(cfg.auth.admin_token_enabled);
    assert_eq!(cfg.database.url, "sqlite://ud.db");
    assert_eq!(cfg.domain.as_deref(), Some("ud.internal"));
    assert!(cfg.kerberos.is_none());
}

#[test]
fn kerberos_table_defaults_disabled() {
    let mut s = full();
    s.kerberos = Some(KerberosSettings {
        enabled: None,
        realm: Some("UD.INTERNAL".into()),
        kadmin_path: None,
        keytab_dir: None,
    });
    let k = UnifiedDomainConfig::load(s).unwrap().kerberos.unwrap();
    assert!(!k.enabled);
    assert_eq!(k.realm.as_deref(), Some("UD.INTERNAL"));
}

#[test]
fn explicit_flag_kept() {
    let mut s = full();
    if let Some(a) = s.auth.as_mut() {
        a.admin_token_enabled = Some(false);
    }
    assert!(!UnifiedDomainConfig::load(s).unwrap().auth.admin_token_enabled);
}

#[test]
fn missing_fields_reported() {
    let mut s = full();
    s.server = None;
    assert_eq!(UnifiedDomainConfig::load(s).unwrap_err(), ConfigError::MissingField(ConfigField::Server));
    let mut s = full();
    s.server.as_mut().unwrap().tls_cert_path = None;
    assert_eq!(UnifiedDomainConfig::load(s).unwrap_err(), ConfigError::MissingField(ConfigField::TlsCertPath));
    let mut s = full();
    s.auth.as_mut().unwrap().admin_token = None;
    s.database = None;
    assert_eq!(UnifiedDomainConfig::load(s).unwrap_err(), ConfigError::MissingField(ConfigField::AdminToken));
    let mut s = full();
    s.database.as_mut().unwrap().url = None;
    assert_eq!(UnifiedDomainConfig::load(s).unwrap_err(), ConfigError::MissingField(ConfigField::Url));
    let mut s = full();
    s.auth = None;
    assert_eq!(UnifiedDomainConfig::load(s).unwrap_err(), ConfigError::MissingField(ConfigField::Auth));
}
