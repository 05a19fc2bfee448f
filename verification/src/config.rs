//! The connection settings and the connection URL that is built from them.

use crate::error::{ConfigError, LedgerError};
use vstd::prelude::*;
use vstd::string::StringExecFns;

verus! {

/// One of the five settings that describe the connection to the store.
#[derive(Debug, Clone, Copy, PartialEq, Eq, Structural)]
pub enum Setting {
    Name,
    User,
    Password,
    Host,
    Port,
}

impl Setting {
    /// The name under which the setting is looked up in the environment.
    pub open spec fn key_text(self) -> Seq<char> {
        match self {
            Setting::Name => "DB_NAME"@,
            Setting::User => "DB_USER"@,
            Setting::Password => "DB_PASSWORD"@,
            Setting::Host => "DB_HOST"@,
            Setting::Port => "DB_PORT"@,
        }
    }

    /// The name under which the setting is looked up in the environment.
    pub fn key(self) -> (name: &'static str)
        ensures
            name@ == self.key_text(),
    {
        match self {
            Setting::Name => "DB_NAME",
            Setting::User => "DB_USER",
            Setting::Password => "DB_PASSWORD",
            Setting::Host => "DB_HOST",
            Setting::Port => "DB_PORT",
        }
    }
}

/// The five settings that describe the connection to the store.
#[derive(Debug, PartialEq, Eq)]
pub struct DbConfig {
    pub db_name: String,
    pub db_user: String,
    pub db_password: String,
    pub db_host: String,
    pub db_port: String,
}

/// The settings as texts.
pub struct DbConfigView {
    pub db_name: Seq<char>,
    pub db_user: Seq<char>,
    pub db_password: Seq<char>,
    pub db_host: Seq<char>,
    pub db_port: Seq<char>,
}

impl View for DbConfig {
    type V = DbConfigView;

    open spec fn view(&self) -> DbConfigView {
        DbConfigView {
            db_name: self.db_name@,
            db_user: self.db_user@,
            db_password: self.db_password@,
            db_host: self.db_host@,
            db_port: self.db_port@,
        }
    }
}

/// The first absent setting, in the order name, user, password, host, port.
pub open spec fn first_missing(
    name: bool,
    user: bool,
    password: bool,
    host: bool,
    port: bool,
) -> Option<Setting> {
    if !name {
        Some(Setting::Name)
    } else if !user {
        Some(Setting::User)
    } else if !password {
        Some(Setting::Password)
    } else if !host {
        Some(Setting::Host)
    } else if !port {
        Some(Setting::Port)
    } else {
        None
    }
}

/// Collects the five settings, each as it was found (`Some`) or not (`None`).
///
/// All five are required: the result is the configuration exactly when all are
/// present, and otherwise names the first one that is absent.
pub fn get_db_config(
    db_name: Option<String>,
    db_user: Option<String>,
    db_password: Option<String>,
    db_host: Option<String>,
    db_port: Option<String>,
) -> (found: Result<DbConfig, LedgerError>)
    ensures
        match first_missing(
            db_name is Some,
            db_user is Some,
            db_password is Some,
            db_host is Some,
            db_port is Some,
        ) {
            Some(setting) => found == Err::<DbConfig, LedgerError>(
                LedgerError::Config(ConfigError::Missing(setting)),
            ),
            None => found == Ok::<DbConfig, LedgerError>(
                (DbConfig {
                    db_name: db_name->0,
                    db_user: db_user->0,
                    db_password: db_password->0,
                    db_host: db_host->0,
                    db_port: db_port->0,
                }),
            ),
        },
{
    let db_name = match db_name {
        Some(text) => text,
        None => return Err(LedgerError::Config(ConfigError::Missing(Setting::Name))),
    };
    let db_user = match db_user {
        Some(text) => text,
        None => return Err(LedgerError::Config(ConfigError::Missing(Setting::User))),
    };
    let db_password = match db_password {
        Some(text) => text,
        None => return Err(LedgerError::Config(ConfigError::Missing(Setting::Password))),
    };
    let db_host = match db_host {
        Some(text) => text,
        None => return Err(LedgerError::Config(ConfigError::Missing(Setting::Host))),
    };
    let db_port = match db_port {
        Some(text) => text,
        None => return Err(LedgerError::Config(ConfigError::Missing(Setting::Port))),
    };
    Ok(DbConfig { db_name, db_user, db_password, db_host, db_port })
}

/// The connection URL of a configuration:
/// `mysql://` user `:` password `@` host `:` port `/` name.
pub open spec fn url_of(config: DbConfigView) -> Seq<char> {
    "mysql://"@ + config.db_user + ":"@ + config.db_password + "@"@ + config.db_host + ":"@
        + config.db_port + "/"@ + config.db_name
}

/// Builds the connection URL of a configuration. The settings are placed in the
/// URL as they are, without escaping.
pub fn connection_url(config: &DbConfig) -> (url: String)
    ensures
        url@ == url_of(config@),
{
    let mut url = String::from_str("mysql://");
    url.append(config.db_user.as_str());
    url.append(":");
    url.append(config.db_password.as_str());
    url.append("@");
    url.append(config.db_host.as_str());
    url.append(":");
    url.append(config.db_port.as_str());
    url.append("/");
    url.append(config.db_name.as_str());
    url
}

} // verus!
