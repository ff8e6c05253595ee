//! Domain configuration: the typed shape, and its resolution from the settings
//! that the layered sources (default file, local file, `UD__*` environment)
//! produced. Required settings that are absent are reported by name; optional
//! ones take their defaults.
use vstd::prelude::*;

verus! {

#[derive(Clone, Debug)]
pub struct ServerConfig {
    pub listen_addr: String,
    pub tls_cert_path: String,
    pub tls_key_path: String,
}

#[derive(Clone, Debug)]
pub struct AuthConfig {
    pub admin_token: String,
    pub mtls_ca_cert_path: Option<String>,
    pub mtls_ca_key_path: Option<String>,
    pub admin_token_enabled: bool,
}

#[derive(Clone, Debug)]
pub struct KerberosConfig {
    pub enabled: bool,
    pub realm: Option<String>,
    pub kadmin_path: Option<String>,
    pub keytab_dir: Option<String>,
}

#[derive(Clone, Debug)]
pub struct DatabaseConfig {
    pub url: String,
}

#[derive(Clone, Debug)]
pub struct UnifiedDomainConfig {
    pub server: ServerConfig,
    pub auth: AuthConfig,
    pub database: DatabaseConfig,
    pub domain: Option<String>,
    pub kerberos: Option<KerberosConfig>,
}

/// The `server` table as the sources gave it.
#[derive(Clone, Debug)]
pub struct ServerSettings {
    pub listen_addr: Option<String>,
    pub tls_cert_path: Option<String>,
    pub tls_key_path: Option<String>,
}

/// The `auth` table as the sources gave it.
#[derive(Clone, Debug)]
pub struct AuthSettings {
    pub admin_token: Option<String>,
    pub mtls_ca_cert_path: Option<String>,
    pub mtls_ca_key_path: Option<String>,
    pub admin_token_enabled: Option<bool>,
}

/// The `kerberos` table as the sources gave it.
#[derive(Clone, Debug)]
pub struct KerberosSettings {
    pub enabled: Option<bool>,
    pub realm: Option<String>,
    pub kadmin_path: Option<String>,
    pub keytab_dir: Option<String>,
}

/// The `database` table as the sources gave it.
#[derive(Clone, Debug)]
pub struct DatabaseSettings {
    pub url: Option<String>,
}

/// Every setting the sources may give, each possibly absent.
#[derive(Clone, Debug)]
pub struct ConfigSettings {
    pub server: Option<ServerSettings>,
    pub auth: Option<AuthSettings>,
    pub database: Option<DatabaseSettings>,
    pub domain: Option<String>,
    pub kerberos: Option<KerberosSettings>,
}

/// A required setting.
#[derive(Clone, Copy, Debug, PartialEq, Eq, Structural)]
pub enum ConfigField {
    Server,
    ListenAddr,
    TlsCertPath,
    TlsKeyPath,
    Auth,
    AdminToken,
    Database,
    Url,
}

/// Why the settings do not make a configuration.
#[derive(Clone, Copy, Debug, PartialEq, Eq, Structural)]
pub enum ConfigError {
    /// The first required setting, in declaration order, that is absent.
    MissingField(ConfigField),
}

pub open spec fn server_spec(s: Option<ServerSettings>) -> Result<ServerConfig, ConfigError> {
    match s {
        None => Err(ConfigError::MissingField(ConfigField::Server)),
        Some(s) => match (s.listen_addr, s.tls_cert_path, s.tls_key_path) {
            (Some(listen_addr), Some(tls_cert_path), Some(tls_key_path)) => Ok(
                ServerConfig { listen_addr, tls_cert_path, tls_key_path },
            ),
            (None, _, _) => Err(ConfigError::MissingField(ConfigField::ListenAddr)),
            (_, None, _) => Err(ConfigError::MissingField(ConfigField::TlsCertPath)),
            _ => Err(ConfigError::MissingField(ConfigField::TlsKeyPath)),
        },
    }
}

pub open spec fn auth_spec(a: Option<AuthSettings>) -> Result<AuthConfig, ConfigError> {
    match a {
        None => Err(ConfigError::MissingField(ConfigField::Auth)),
        Some(a) => match a.admin_token {
            None => Err(ConfigError::MissingField(ConfigField::AdminToken)),
            Some(admin_token) => Ok(
                AuthConfig {
                    admin_token,
                    mtls_ca_cert_path: a.mtls_ca_cert_path,
                    mtls_ca_key_path: a.mtls_ca_key_path,
                    admin_token_enabled: match a.admin_token_enabled {
                        Some(b) => b,
                        None => true,
                    },
                },
            ),
        },
    }
}

pub open spec fn database_spec(d: Option<DatabaseSettings>) -> Result<DatabaseConfig, ConfigError> {
    match d {
        None => Err(ConfigError::MissingField(ConfigField::Database)),
        Some(d) => match d.url {
            None => Err(ConfigError::MissingField(ConfigField::Url)),
            Some(url) => Ok(DatabaseConfig { url }),
        },
    }
}

pub open spec fn kerberos_spec(k: KerberosSettings) -> KerberosConfig {
    KerberosConfig {
        enabled: match k.enabled {
            Some(b) => b,
            None => false,
        },
        realm: k.realm,
        kadmin_path: k.kadmin_path,
        keytab_dir: k.keytab_dir,
    }
}

/// The configuration the settings make: tables in the order server, auth,
/// database; the first absent required setting is the error.
pub open spec fn config_spec(s: ConfigSettings) -> Result<UnifiedDomainConfig, ConfigError> {
    match server_spec(s.server) {
        Err(e) => Err(e),
        Ok(server) => match auth_spec(s.auth) {
            Err(e) => Err(e),
            Ok(auth) => match database_spec(s.database) {
                Err(e) => Err(e),
                Ok(database) => Ok(
                    UnifiedDomainConfig {
                        server,
                        auth,
                        database,
                        domain: s.domain,
                        kerberos: match s.kerberos {
                            Some(k) => Some(kerberos_spec(k)),
                            None => None,
                        },
                    },
                ),
            },
        },
    }
}

/// Default of `auth.admin_token_enabled`.
pub fn default_true() -> (r: bool)
    ensures
        r,
{
    true
}

fn resolve_server(s: Option<ServerSettings>) -> (r: Result<ServerConfig, ConfigError>)
    ensures
        r == server_spec(s),
{
    match s {
        None => Err(ConfigError::MissingField(ConfigField::Server)),
        Some(s) => match (s.listen_addr, s.tls_cert_path, s.tls_key_path) {
            (Some(listen_addr), Some(tls_cert_path), Some(tls_key_path)) => Ok(
                ServerConfig { listen_addr, tls_cert_path, tls_key_path },
            ),
            (None, _, _) => Err(ConfigError::MissingField(ConfigField::ListenAddr)),
            (_, None, _) => Err(ConfigError::MissingField(ConfigField::TlsCertPath)),
            _ => Err(ConfigError::MissingField(ConfigField::TlsKeyPath)),
        },
    }
}

fn resolve_auth(a: Option<AuthSettings>) -> (r: Result<AuthConfig, ConfigError>)
    ensures
        r == auth_spec(a),
{
    match a {
        None => Err(ConfigError::MissingField(ConfigField::Auth)),
        Some(a) => match a.admin_token {
            None => Err(ConfigError::MissingField(ConfigField::AdminToken)),
            Some(admin_token) => {
                let admin_token_enabled = match a.admin_token_enabled {
                    Some(b) => b,
                    None => default_true(),
                };
                Ok(
                    AuthConfig {
                        admin_token,
                        mtls_ca_cert_path: a.mtls_ca_cert_path,
                        mtls_ca_key_path: a.mtls_ca_key_path,
                        admin_token_enabled,
                    },
                )
            },
        },
    }
}

fn resolve_database(d: Option<DatabaseSettings>) -> (r: Result<DatabaseConfig, ConfigError>)
    ensures
        r == database_spec(d),
{
    match d {
        None => Err(ConfigError::MissingField(ConfigField::Database)),
        Some(d) => match d.url {
            None => Err(ConfigError::MissingField(ConfigField::Url)),
            Some(url) => Ok(DatabaseConfig { url }),
        },
    }
}

fn resolve_kerberos(k: KerberosSettings) -> (r: KerberosConfig)
    ensures
        r == kerberos_spec(k),
{
    KerberosConfig {
        enabled: match k.enabled {
            Some(b) => b,
            None => false,
        },
        realm: k.realm,
        kadmin_path: k.kadmin_path,
        keytab_dir: k.keytab_dir,
    }
}

impl UnifiedDomainConfig {
    /// Resolves the merged settings into a configuration; see `config_spec`.
    pub fn load(settings: ConfigSettings) -> (r: Result<UnifiedDomainConfig, ConfigError>)
        ensures
            r == config_spec(settings),
    {
        let server = match resolve_server(settings.server) {
            Ok(s) => s,
            Err(e) => return Err(e),
        };
        let auth = match resolve_auth(settings.auth) {
            Ok(a) => a,
            Err(e) => return Err(e),
        };
        let database = match resolve_database(settings.database) {
            Ok(d) => d,
            Err(e) => return Err(e),
        };
        let kerberos = match settings.kerberos {
            Some(k) => Some(resolve_kerberos(k)),
            None => None,
        };
        Ok(UnifiedDomainConfig { server, auth, database, domain: settings.domain, kerberos })
    }
}

} // verus!
