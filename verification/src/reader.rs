//! The read-path orchestrator: a connection-gated SQL templating layer. A
//! reader owns a configuration and a connected flag; every query helper
//! yields the exact SQL text to execute, or `NotConnected` before
//! `connect()`. Executing the SQL and shaping its tabular result belong to
//! the shell that owns the transport.

use vstd::prelude::*;
use vstd::string::StringExecFns;

use crate::config::{cfg_eq, is_default_config, HiveConfig};
use crate::errors::HiveError;
use crate::text::{int_text, i64_to_dec};

verus! {

/// `DESCRIBE <table>`.
pub open spec fn describe_sql_spec(name: Seq<char>) -> Seq<char> {
    "DESCRIBE "@ + name
}

/// `SELECT * FROM <table> LIMIT <n>`.
pub open spec fn sample_sql_spec(name: Seq<char>, limit: int) -> Seq<char> {
    "SELECT * FROM "@ + name + " LIMIT "@ + int_text(limit)
}

/// The row limit of a sample when none is given.
pub open spec fn effective_limit(limit: Option<i32>) -> int {
    match limit {
        Some(n) => n as int,
        None => 10,
    }
}

/// The warehouse reader: configuration and a connected flag.
#[derive(Debug)]
pub struct RustHiveReader {
    pub config: HiveConfig,
    pub connected: bool,
}

impl RustHiveReader {
    /// Builds a disconnected reader; a missing configuration means the
    /// defaults.
    pub fn new(config: Option<HiveConfig>) -> (r: RustHiveReader)
        ensures
            !r.connected,
            (config matches Some(c) ==> cfg_eq(r.config, c)),
            (config is None ==> is_default_config(r.config)),
    {
        let config = match config {
            Some(c) => c,
            None => HiveConfig::default_config(),
        };
        RustHiveReader { config, connected: false }
    }

    /// Marks the session connected.
    pub fn connect(&mut self)
        ensures
            final(self).connected,
            final(self).config == old(self).config,
    {
        self.connected = true;
    }

    /// Marks the session disconnected; a no-op success when already
    /// disconnected.
    pub fn disconnect(&mut self)
        ensures
            !final(self).connected,
            final(self).config == old(self).config,
    {
        self.connected = false;
    }

    /// Whether the session is connected.
    pub fn is_connected(&self) -> (r: bool)
        ensures
            r == self.connected,
    {
        self.connected
    }

    /// A copy of the configuration.
    pub fn get_config(&self) -> (r: HiveConfig)
        ensures
            cfg_eq(r, self.config),
    {
        self.config.clone()
    }

    /// Admits a query for execution: hands the SQL back unchanged when
    /// connected, and fails with `NotConnected` otherwise.
    pub fn prepare_query(&self, sql: String) -> (r: Result<String, HiveError>)
        ensures
            !self.connected ==> (r matches Err(e) && e is NotConnected),
            self.connected ==> (r matches Ok(s) && s@ == sql@),
    {
        if !self.connected {
            return Err(HiveError::NotConnected);
        }
        Ok(sql)
    }

    /// The SQL listing all tables.
    pub fn show_tables(&self) -> (r: Result<String, HiveError>)
        ensures
            !self.connected ==> (r matches Err(e) && e is NotConnected),
            self.connected ==> (r matches Ok(s) && s@ == "SHOW TABLES"@),
    {
        self.prepare_query(String::from_str("SHOW TABLES"))
    }

    /// The SQL describing a table's structure.
    pub fn describe_table(&self, table_name: &String) -> (r: Result<String, HiveError>)
        ensures
            !self.connected ==> (r matches Err(e) && e is NotConnected),
            self.connected ==> (r matches Ok(s) && s@ == describe_sql_spec(table_name@)),
    {
        let mut sql = String::from_str("DESCRIBE ");
        sql.append(table_name.as_str());
        self.prepare_query(sql)
    }

    /// The SQL sampling a table's rows; the limit defaults to 10.
    pub fn get_table_sample(&self, table_name: &String, limit: Option<i32>) -> (r: Result<
        String,
        HiveError,
    >)
        ensures
            !self.connected ==> (r matches Err(e) && e is NotConnected),
            self.connected ==> (r matches Ok(s) && s@ == sample_sql_spec(
                table_name@,
                effective_limit(limit),
            )),
    {
        let limit: i32 = match limit {
            Some(n) => n,
            None => 10,
        };
        let mut sql = String::from_str("SELECT * FROM ");
        sql.append(table_name.as_str());
        sql.append(" LIMIT ");
        let n = i64_to_dec(limit as i64);
        sql.append(n.as_str());
        self.prepare_query(sql)
    }
}

/// Scoped acquisition around a reader: entry connects, exit disconnects on
/// every path and never suppresses an in-flight error.
#[derive(Debug)]
pub struct RustHiveContext {
    pub reader: RustHiveReader,
}

impl RustHiveContext {
    /// Wraps a fresh, disconnected reader.
    pub fn new(config: Option<HiveConfig>) -> (r: RustHiveContext)
        ensures
            !r.reader.connected,
            (config matches Some(c) ==> cfg_eq(r.reader.config, c)),
            (config is None ==> is_default_config(r.reader.config)),
    {
        RustHiveContext { reader: RustHiveReader::new(config) }
    }

    /// Entry: connects the wrapped reader.
    pub fn enter(&mut self)
        ensures
            final(self).reader.connected,
            final(self).reader.config == old(self).reader.config,
    {
        self.reader.connect();
    }

    /// Exit: disconnects on every path. The result says whether an
    /// in-flight error is suppressed, and it never is.
    pub fn exit(&mut self) -> (suppress: bool)
        ensures
            !final(self).reader.connected,
            final(self).reader.config == old(self).reader.config,
            !suppress,
    {
        self.reader.disconnect();
        false
    }

    /// Admits a query through the wrapped reader.
    pub fn prepare_query(&self, sql: String) -> (r: Result<String, HiveError>)
        ensures
            !self.reader.connected ==> (r matches Err(e) && e is NotConnected),
            self.reader.connected ==> (r matches Ok(s) && s@ == sql@),
    {
        self.reader.prepare_query(sql)
    }

    /// The SQL listing all tables.
    pub fn show_tables(&self) -> (r: Result<String, HiveError>)
        ensures
            !self.reader.connected ==> (r matches Err(e) && e is NotConnected),
            self.reader.connected ==> (r matches Ok(s) && s@ == "SHOW TABLES"@),
    {
        self.reader.show_tables()
    }

    /// The SQL describing a table's structure.
    pub fn describe_table(&self, table_name: &String) -> (r: Result<String, HiveError>)
        ensures
            !self.reader.connected ==> (r matches Err(e) && e is NotConnected),
            self.reader.connected ==> (r matches Ok(s) && s@ == describe_sql_spec(table_name@)),
    {
        self.reader.describe_table(table_name)
    }

    /// The SQL sampling a table's rows; the limit defaults to 10.
    pub fn get_table_sample(&self, table_name: &String, limit: Option<i32>) -> (r: Result<
        String,
        HiveError,
    >)
        ensures
            !self.reader.connected ==> (r matches Err(e) && e is NotConnected),
            self.reader.connected ==> (r matches Ok(s) && s@ == sample_sql_spec(
                table_name@,
                effective_limit(limit),
            )),
    {
        self.reader.get_table_sample(table_name, limit)
    }

    /// Whether the wrapped session is connected.
    pub fn is_connected(&self) -> (r: bool)
        ensures
            r == self.reader.connected,
    {
        self.reader.is_connected()
    }

    /// A copy of the configuration.
    pub fn get_config(&self) -> (r: HiveConfig)
        ensures
            cfg_eq(r, self.reader.config),
    {
        self.reader.get_config()
    }
}

/// Builds a read context around a fresh, disconnected reader; entering it
/// connects.
pub fn connect_hive(config: Option<HiveConfig>) -> (r: RustHiveContext)
    ensures
        !r.reader.connected,
        (config matches Some(c) ==> cfg_eq(r.reader.config, c)),
        (config is None ==> is_default_config(r.reader.config)),
{
    RustHiveContext::new(config)
}

} // verus!
