use vstd::prelude::*;
use vstd::string::*;
use crate::error::Error;
use crate::proxy_core::models::certs::{CertAccountPath, CertDir, Email};
use crate::proxy_core::models::proxy::{ProxyInputAddress, ProxyPort};
use crate::proxy_core::models::routes::Route;
use crate::proxy_core::models::tasks::TaskInterval;
use crate::text::{concat3, parse_u16, spec_parse_u16};

verus! {

pub const CONFIG_PATH_ENV: &'static str = "CONFIG_PATH";

pub const CERT_DIR_ENV: &'static str = "CERT_DIR";

pub const HTTP_PORT_ENV: &'static str = "HTTP_PORT";

pub const HTTPS_PORT_ENV: &'static str = "HTTPS_PORT";

pub const CERT_DIR_DEFAULT: &'static str = ".certs/";

/// File name, inside the certificate directory, of the stored ACME account.
pub const CERT_CREDENTIAL_FILE: &'static str = "acme_account";

pub const HTTP_PORT_DEFAULT: u16 = 80;

pub const HTTPS_PORT_DEFAULT: u16 = 443;

pub const INPUT_ADDRESS: &'static str = "0.0.0.0";

/// Seconds between two runs of the certificate renewal loop.
pub const CERT_BACKGROUND_TASK_INTERVAL: u64 = 3600;

/// A certificate is renewed once it expires within this many days.
pub const CERT_RENEWAL_TRESHOLD_DAYS: u32 = 30;

/// Everything the proxy needs at start-up.
#[derive(Debug)]
pub struct Config {
    pub email: Email,
    pub cert_dir: CertDir,
    pub cert_account_path: CertAccountPath,
    pub routes: Vec<Route>,
    pub task_interval: TaskInterval,
    pub http_port: ProxyPort,
    pub https_port: ProxyPort,
    pub input_address: ProxyInputAddress,
}

/// The configuration file: an `[acme]` table and a list of `[[routes]]`.
#[derive(Debug)]
pub struct ConfigTomlFile {
    pub acme: Acme,
    pub routes: Vec<Route>,
}

/// The `[acme]` table.
#[derive(Debug)]
pub struct Acme {
    pub email: Email,
}

/// The value of an environment variable, or the error that names the missing variable.
pub fn load_env(key: &str, value: Option<String>) -> (res: Result<String, Error>)
    ensures
        match value {
            Some(v) => res matches Ok(r) && r == v,
            None => res matches Err(Error::Env(k)) && k@ == key@,
        },
{
    match value {
        Some(v) => Ok(v),
        None => Err(Error::Env(key.to_owned())),
    }
}

/// The certificate directory: the environment's value, else the default.
pub open spec fn cert_dir_setting(env: Option<String>) -> Seq<char> {
    match env {
        Some(v) => v@,
        None => CERT_DIR_DEFAULT@,
    }
}

/// A listener port: the environment's value when it parses as a `u16`, else the default.
pub open spec fn port_setting(env: Option<String>, default: u16) -> u16 {
    match env {
        Some(v) => match spec_parse_u16(v@) {
            Some(p) => p,
            None => default,
        },
        None => default,
    }
}

/// Reads a port from an optional environment value, falling back to `default` when the value
/// is absent or is not a valid port number.
pub fn port_from_env(value: &Option<String>, default: u16) -> (p: u16)
    ensures
        p == port_setting(*value, default),
{
    match value {
        Some(v) => match parse_u16(v.as_str()) {
            Some(p) => p,
            None => default,
        },
        None => default,
    }
}

impl Config {
    /// Builds the start-up configuration from the parsed configuration file and the values of
    /// `CERT_DIR`, `HTTP_PORT` and `HTTPS_PORT` (each `None` when unset).
    pub fn init(
        config_file: ConfigTomlFile,
        cert_dir_env: Option<String>,
        http_port_env: Option<String>,
        https_port_env: Option<String>,
    ) -> (c: Config)
        ensures
            c.email == config_file.acme.email,
            c.routes == config_file.routes,
            c.cert_dir@ == cert_dir_setting(cert_dir_env),
            c.cert_account_path@ == cert_dir_setting(cert_dir_env) + "/"@ + CERT_CREDENTIAL_FILE@,
            c.task_interval.0 == CERT_BACKGROUND_TASK_INTERVAL,
            c.http_port.0 == port_setting(http_port_env, HTTP_PORT_DEFAULT),
            c.https_port.0 == port_setting(https_port_env, HTTPS_PORT_DEFAULT),
            c.input_address@ == INPUT_ADDRESS@,
    {
        let http_port = port_from_env(&http_port_env, HTTP_PORT_DEFAULT);
        let https_port = port_from_env(&https_port_env, HTTPS_PORT_DEFAULT);
        let cert_dir = match cert_dir_env {
            Some(v) => v,
            None => CERT_DIR_DEFAULT.to_owned(),
        };
        let cert_account_path = concat3(cert_dir.as_str(), "/", CERT_CREDENTIAL_FILE);
        Config {
            email: config_file.acme.email,
            cert_dir: CertDir::from(cert_dir),
            cert_account_path: CertAccountPath::from(cert_account_path),
            routes: config_file.routes,
            task_interval: TaskInterval::from(CERT_BACKGROUND_TASK_INTERVAL),
            http_port: ProxyPort::from(http_port),
            https_port: ProxyPort::from(https_port),
            input_address: ProxyInputAddress::from(INPUT_ADDRESS.to_owned()),
        }
    }
}

} // verus!
