//! Connection configuration: host, port, username, target database and auth
//! mode, with the documented defaults. Immutable once constructed; a reader
//! or writer copies it and never mutates it.

use vstd::prelude::*;
use vstd::string::StringExecFns;

use crate::text::{dec_digits, u64_to_dec};

verus! {

/// Connection parameters of a warehouse session. Holds no network state.
#[derive(Debug)]
pub struct HiveConfig {
    pub host: String,
    pub port: u16,
    pub username: String,
    pub database: String,
    pub auth: String,
}

impl Clone for HiveConfig {
    /// A field-wise copy with the same contents.
    fn clone(&self) -> (r: Self)
        ensures
            cfg_eq(r, *self),
    {
        HiveConfig {
            host: self.host.clone(),
            port: self.port,
            username: self.username.clone(),
            database: self.database.clone(),
            auth: self.auth.clone(),
        }
    }
}

/// Field-wise equality of two configurations, by string contents.
pub open spec fn cfg_eq(a: HiveConfig, b: HiveConfig) -> bool {
    &&& a.host@ == b.host@
    &&& a.port == b.port
    &&& a.username@ == b.username@
    &&& a.database@ == b.database@
    &&& a.auth@ == b.auth@
}

/// The documented defaults: localhost:10000, user and database `default`,
/// auth `NONE`.
pub open spec fn is_default_config(c: HiveConfig) -> bool {
    &&& c.host@ == "localhost"@
    &&& c.port == 10000
    &&& c.username@ == "default"@
    &&& c.database@ == "default"@
    &&& c.auth@ == "NONE"@
}

/// The printable form of a configuration:
/// `HiveConfig(host='H', port=P, username='U', database='D', auth='A')`.
pub open spec fn config_repr(c: HiveConfig) -> Seq<char> {
    "HiveConfig(host='"@ + c.host@ + "', port="@ + dec_digits(c.port as nat) + ", username='"@
        + c.username@ + "', database='"@ + c.database@ + "', auth='"@ + c.auth@ + "')"@
}

impl HiveConfig {
    /// Builds a configuration, falling back to the documented default for
    /// every argument that is absent.
    pub fn new(
        host: Option<String>,
        port: Option<u16>,
        username: Option<String>,
        database: Option<String>,
        auth: Option<String>,
    ) -> (r: HiveConfig)
        ensures
            (host matches Some(h) ==> r.host@ == h@) && (host is None ==> r.host@ == "localhost"@),
            (port matches Some(p) ==> r.port == p) && (port is None ==> r.port == 10000),
            (username matches Some(u) ==> r.username@ == u@) && (username is None
                ==> r.username@ == "default"@),
            (database matches Some(d) ==> r.database@ == d@) && (database is None
                ==> r.database@ == "default"@),
            (auth matches Some(a) ==> r.auth@ == a@) && (auth is None ==> r.auth@ == "NONE"@),
    {
        let host = match host {
            Some(h) => h,
            None => String::from_str("localhost"),
        };
        let port = match port {
            Some(p) => p,
            None => 10000,
        };
        let username = match username {
            Some(u) => u,
            None => String::from_str("default"),
        };
        let database = match database {
            Some(d) => d,
            None => String::from_str("default"),
        };
        let auth = match auth {
            Some(a) => a,
            None => String::from_str("NONE"),
        };
        HiveConfig { host, port, username, database, auth }
    }

    /// Builds the all-defaults configuration.
    pub fn default_config() -> (r: HiveConfig)
        ensures
            is_default_config(r),
    {
        HiveConfig::new(None, None, None, None, None)
    }

    /// The printable form of this configuration.
    pub fn repr(&self) -> (r: String)
        ensures
            r@ == config_repr(*self),
    {
        let mut r = String::from_str("HiveConfig(host='");
        r.append(self.host.as_str());
        r.append("', port=");
        let port = u64_to_dec(self.port as u64);
        r.append(port.as_str());
        r.append(", username='");
        r.append(self.username.as_str());
        r.append("', database='");
        r.append(self.database.as_str());
        r.append("', auth='");
        r.append(self.auth.as_str());
        r.append("')");
        r
    }
}

} // verus!
