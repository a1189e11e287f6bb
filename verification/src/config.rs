//! Process configuration: command-line values overridden by the
//! environment, with the two ports parsed exactly as the standard
//! library parses a `u16`.

use crate::error::Error;
use crate::num::{parse_u16, parse_u16_spec};
use vstd::prelude::*;

verus! {

/// The configuration the service runs under.
#[derive(Debug, Clone, PartialEq, Eq)]
pub struct Config {
    /// Which errors to log (info, warn, or error).
    pub log_level: String,
    /// Which port the server listens on.
    pub port: u16,
    /// Database user.
    pub db_user: String,
    /// Database password.
    pub db_password: String,
    /// Database hostname.
    pub db_host: String,
    /// Port number of the database.
    pub db_port: u16,
    /// Database name.
    pub db_name: String,
}

/// What resolution returns: each field of the base overridden by the
/// environment value where one is present; a port that does not parse
/// refuses the whole configuration, the listening port examined first.
pub open spec fn resolve_config_spec(
    base: Config,
    port: Option<String>,
    db_user: Option<String>,
    db_password: Option<String>,
    db_host: Option<String>,
    db_port: Option<String>,
    db_name: Option<String>,
) -> Result<Config, Error> {
    let pv = match port {
        Some(s) => parse_u16_spec(s@),
        None => Ok(base.port),
    };
    match pv {
        Err(k) => Err(Error::ParseError(k)),
        Ok(p) => {
            let dbpv = match db_port {
                Some(s) => parse_u16_spec(s@),
                None => Ok(base.db_port),
            };
            match dbpv {
                Err(k) => Err(Error::ParseError(k)),
                Ok(dbp) => Ok(
                    Config {
                        log_level: base.log_level,
                        port: p,
                        db_user: match db_user {
                            Some(u) => u,
                            None => base.db_user,
                        },
                        db_password: match db_password {
                            Some(u) => u,
                            None => base.db_password,
                        },
                        db_host: match db_host {
                            Some(u) => u,
                            None => base.db_host,
                        },
                        db_port: dbp,
                        db_name: match db_name {
                            Some(u) => u,
                            None => base.db_name,
                        },
                    },
                ),
            }
        },
    }
}

impl Config {
    /// Overrides this configuration with the values the environment
    /// supplies, parsing the ports.
    pub fn with_env_overrides(
        self,
        port: Option<String>,
        db_user: Option<String>,
        db_password: Option<String>,
        db_host: Option<String>,
        db_port: Option<String>,
        db_name: Option<String>,
    ) -> (r: Result<Config, Error>)
        ensures
            r == resolve_config_spec(self, port, db_user, db_password, db_host, db_port, db_name),
    {
        let p = match &port {
            Some(s) => match parse_u16(s.as_str()) {
                Ok(v) => v,
                Err(k) => {
                    return Err(Error::ParseError(k));
                },
            },
            None => self.port,
        };
        let dbp = match &db_port {
            Some(s) => match parse_u16(s.as_str()) {
                Ok(v) => v,
                Err(k) => {
                    return Err(Error::ParseError(k));
                },
            },
            None => self.db_port,
        };
        Ok(
            Config {
                log_level: self.log_level,
                port: p,
                db_user: match db_user {
                    Some(u) => u,
                    None => self.db_user,
                },
                db_password: match db_password {
                    Some(u) => u,
                    None => self.db_password,
                },
                db_host: match db_host {
                    Some(u) => u,
                    None => self.db_host,
                },
                db_port: dbp,
                db_name: match db_name {
                    Some(u) => u,
                    None => self.db_name,
                },
            },
        )
    }
}

} // verus!
