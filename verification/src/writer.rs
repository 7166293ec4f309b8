//! The write-path orchestrator. A writer owns a configuration, a connected
//! flag and an ingestion strategy; `write_table` turns one write request and
//! the observed existence of the target table into the full, ordered plan of
//! statements the warehouse must execute, or into the error that aborts the
//! write before anything is issued.
//!
//! The check-existence-then-act sequence is inherently racy against
//! concurrent external writers; the warehouse offers no transaction to build
//! on, so this is an accepted, documented limitation, not something the
//! planner tries to fix.

use vstd::prelude::*;
use vstd::string::StringExecFns;

use crate::config::{cfg_eq, is_default_config, HiveConfig};
use crate::conflict::{resolve_spec, ConflictResolver, PreAction, WriteMode};
use crate::errors::HiveError;
use crate::ingest::{batch_end, csv_path_spec, inline_insert_statements, insert_sql_spec,
    load_sql_spec, now_epoch_seconds, num_batches, parquet_path_spec, IngestStrategy, BATCH_SIZE,
    LARGE_ROW_THRESHOLD};
use crate::schema::{build_create_statement, create_table_sql_spec, parts_of, schema_supported,
    unsupported_at};
use crate::table::LocalTable;
use crate::text::i64_to_dec;

verus! {

/// `DROP TABLE [IF EXISTS] <name>`.
pub open spec fn drop_sql_spec(name: Seq<char>, if_exists: bool) -> Seq<char> {
    if if_exists {
        "DROP TABLE IF EXISTS "@ + name
    } else {
        "DROP TABLE "@ + name
    }
}

/// The existence query: `SHOW TABLES LIKE '<name>'`. A non-empty result
/// means the table exists.
pub open spec fn existence_sql_spec(name: Seq<char>) -> Seq<char> {
    "SHOW TABLES LIKE '"@ + name + "'"@
}

/// The mode a write uses when none is given.
pub open spec fn effective_mode(mode: Option<WriteMode>) -> WriteMode {
    match mode {
        Some(m) => m,
        None => WriteMode::ErrorIfExists,
    }
}

/// Whether the write creates the table when none is requested explicitly.
pub open spec fn effective_create(create_table: Option<bool>) -> bool {
    match create_table {
        Some(b) => b,
        None => true,
    }
}

/// Whether the write goes on to the load (neither fails nor skips).
pub open spec fn proceeding(m: WriteMode, table_exists: bool) -> bool {
    !(resolve_spec(m, table_exists) is Fail) && !(resolve_spec(m, table_exists) is Skip)
}

/// Whether the write drops the existing table first.
pub open spec fn drops_first(m: WriteMode, table_exists: bool) -> bool {
    resolve_spec(m, table_exists) is DropThenCreate
}

/// Whether the write issues a `CREATE TABLE`: only when requested, and only
/// when the table is absent or the mode is `Overwrite`.
pub open spec fn creates(m: WriteMode, table_exists: bool, create_table: bool) -> bool {
    create_table && (!table_exists || m is Overwrite)
}

/// The plan of one write: every statement the warehouse executes, in order,
/// plus the staging work around them. The plan is the whole of the write's
/// own output; executing it is the shell's job.
#[derive(Debug)]
pub struct WritePlan {
    /// The write is a successful no-op (mode `Ignore` on an existing table).
    pub skipped: bool,
    /// DDL/DML to execute strictly in order, short-circuiting on the first
    /// failure.
    pub statements: Vec<String>,
    /// When set: serialize the table, without a header row, to this path
    /// before executing the final statement (the `LOAD DATA`), and remove
    /// the file afterwards best-effort.
    pub stage_csv: Option<String>,
    /// When set: the staging path of the columnar-file strategy, which only
    /// announces the intended file and defers placement to an external
    /// collaborator; no data is moved.
    pub parquet_stub: Option<String>,
    /// The inline strategy found more rows than the soft threshold; a
    /// file-based strategy is recommended, but execution proceeds.
    pub large_row_warning: bool,
}

/// What the plan of a proceeding write holds, for the timestamp `ts` drawn
/// while planning: first the drop (mode `Overwrite` on an existing table),
/// then the `CREATE TABLE` (when owed), then the load of the chosen
/// strategy.
pub open spec fn plan_matches(
    p: WritePlan,
    table: LocalTable,
    name: Seq<char>,
    m: WriteMode,
    parts: Seq<String>,
    create_table: bool,
    table_exists: bool,
    strategy: IngestStrategy,
    ts: int,
) -> bool {
    let n_drop: int = if drops_first(m, table_exists) {
        1
    } else {
        0
    };
    let n_create: int = if creates(m, table_exists, create_table) {
        1
    } else {
        0
    };
    let pre = n_drop + n_create;
    let h = table.spec_height();
    &&& !p.skipped
    &&& p.large_row_warning == (strategy is InlineSql && h > LARGE_ROW_THRESHOLD)
    &&& (drops_first(m, table_exists) ==> p.statements@[0]@ == drop_sql_spec(name, false))
    &&& (creates(m, table_exists, create_table) ==> p.statements@[n_drop]@
        == create_table_sql_spec(name, table.columns@, parts))
    &&& (strategy is InlineSql ==> {
        &&& p.stage_csv is None
        &&& p.parquet_stub is None
        &&& p.statements@.len() == pre + num_batches(h)
        &&& forall|k: int|
            0 <= k < num_batches(h) ==> p.statements@[pre + k]@ == insert_sql_spec(
                name,
                table.columns@,
                k * BATCH_SIZE,
                batch_end(h, k),
            )
    })
    &&& (strategy is CsvLoad ==> {
        &&& p.parquet_stub is None
        &&& p.statements@.len() == pre + 1
        &&& p.stage_csv matches Some(path) && (path@ == csv_path_spec(name, ts)
            && p.statements@[pre]@ == load_sql_spec(path@, name))
    })
    &&& (strategy is ParquetStage ==> {
        &&& p.stage_csv is None
        &&& p.statements@.len() == pre
        &&& p.parquet_stub matches Some(path) && path@ == parquet_path_spec(name, ts)
    })
}

/// Renders `DROP TABLE [IF EXISTS] <name>`.
pub fn render_drop_sql(table_name: &String, if_exists: bool) -> (r: String)
    ensures
        r@ == drop_sql_spec(table_name@, if_exists),
{
    let mut r = if if_exists {
        String::from_str("DROP TABLE IF EXISTS ")
    } else {
        String::from_str("DROP TABLE ")
    };
    r.append(table_name.as_str());
    r
}

/// Renders the existence query of a table.
pub fn existence_query(table_name: &String) -> (r: String)
    ensures
        r@ == existence_sql_spec(table_name@),
{
    let mut r = String::from_str("SHOW TABLES LIKE '");
    r.append(table_name.as_str());
    r.append("'");
    r
}

/// Reads a table-existence result: a non-empty result means existence.
pub fn existence_from_result(result_rows: usize) -> (r: bool)
    ensures
        r == (result_rows > 0),
{
    result_rows > 0
}

/// Renders the staging path of the delimiter-separated file.
fn render_csv_path(table_name: &String, ts: i64) -> (r: String)
    ensures
        r@ == csv_path_spec(table_name@, ts as int),
{
    let mut r = String::from_str("/tmp/");
    r.append(table_name.as_str());
    r.append("_");
    let t = i64_to_dec(ts);
    r.append(t.as_str());
    r.append(".csv");
    r
}

/// Renders the staging path of the columnar binary file.
fn render_parquet_path(table_name: &String, ts: i64) -> (r: String)
    ensures
        r@ == parquet_path_spec(table_name@, ts as int),
{
    let mut r = String::from_str("/tmp/");
    r.append(table_name.as_str());
    r.append("_");
    let t = i64_to_dec(ts);
    r.append(t.as_str());
    r.append(".parquet");
    r
}

/// Renders the bulk-load statement referencing a staged local file.
fn render_load_sql(path: &String, table_name: &String) -> (r: String)
    ensures
        r@ == load_sql_spec(path@, table_name@),
{
    let mut r = String::from_str("LOAD DATA LOCAL INPATH '");
    r.append(path.as_str());
    r.append("' INTO TABLE ");
    r.append(table_name.as_str());
    r
}

/// The warehouse writer: configuration, a connected flag, and the ingestion
/// strategy resolved once at construction.
#[derive(Debug)]
pub struct RustHiveWriter {
    pub config: HiveConfig,
    pub connected: bool,
    pub strategy: IngestStrategy,
}

impl RustHiveWriter {
    /// Builds a disconnected writer with the inline-statement strategy; a
    /// missing configuration means the defaults.
    pub fn new(config: Option<HiveConfig>) -> (r: RustHiveWriter)
        ensures
            !r.connected,
            r.strategy is InlineSql,
            (config matches Some(c) ==> cfg_eq(r.config, c)),
            (config is None ==> is_default_config(r.config)),
    {
        RustHiveWriter::new_with_strategy(config, IngestStrategy::InlineSql)
    }

    /// Builds a disconnected writer with an explicit ingestion strategy.
    pub fn new_with_strategy(config: Option<HiveConfig>, strategy: IngestStrategy) -> (r:
        RustHiveWriter)
        ensures
            !r.connected,
            r.strategy == strategy,
            (config matches Some(c) ==> cfg_eq(r.config, c)),
            (config is None ==> is_default_config(r.config)),
    {
        let config = match config {
            Some(c) => c,
            None => HiveConfig::default_config(),
        };
        RustHiveWriter { config, connected: false, strategy }
    }

    /// Marks the session connected.
    pub fn connect(&mut self)
        ensures
            final(self).connected,
            final(self).config == old(self).config,
            final(self).strategy == old(self).strategy,
    {
        self.connected = true;
    }

    /// Marks the session disconnected; a no-op success when already
    /// disconnected.
    pub fn disconnect(&mut self)
        ensures
            !final(self).connected,
            final(self).config == old(self).config,
            final(self).strategy == old(self).strategy,
    {
        self.connected = false;
    }

    /// Whether the session is connected.
    pub fn is_connected(&self) -> (r: bool)
        ensures
            r == self.connected,
    {
        self.connected
    }

    /// A copy of the configuration.
    pub fn get_config(&self) -> (r: HiveConfig)
        ensures
            cfg_eq(r, self.config),
    {
        self.config.clone()
    }

    /// Renders `DROP TABLE [IF EXISTS] <name>` for this session; `if_exists`
    /// defaults to false. Fails with `NotConnected` before `connect()`.
    pub fn drop_table(&self, table_name: &String, if_exists: Option<bool>) -> (r: Result<
        String,
        HiveError,
    >)
        ensures
            !self.connected ==> (r matches Err(e) && e is NotConnected),
            self.connected ==> (r matches Ok(s) && s@ == drop_sql_spec(
                table_name@,
                (if_exists matches Some(b) && b),
            )),
    {
        if !self.connected {
            return Err(HiveError::NotConnected);
        }
        let if_exists = match if_exists {
            Some(b) => b,
            None => false,
        };
        Ok(render_drop_sql(table_name, if_exists))
    }

    /// Builds the `CREATE TABLE` statement for the table's schema. Fails
    /// with `NotConnected` before `connect()` and with `UnsupportedType`
    /// for the first column type outside the supported set.
    pub fn create_table_from_dataframe(
        &self,
        table: &LocalTable,
        table_name: &String,
        partition_cols: &Option<Vec<String>>,
    ) -> (r: Result<String, HiveError>)
        ensures
            !self.connected ==> (r matches Err(e) && e is NotConnected),
            self.connected && schema_supported(table.columns@) ==> (r matches Ok(s) && s@
                == create_table_sql_spec(table_name@, table.columns@, parts_of(*partition_cols))),
            self.connected && !schema_supported(table.columns@) ==> (r matches Err(
                HiveError::UnsupportedType(d),
            ) && exists|i: int| unsupported_at(table.columns@, i, d@)),
    {
        if !self.connected {
            return Err(HiveError::NotConnected);
        }
        build_create_statement(table_name, &table.columns, partition_cols)
    }

    /// Plans one write. The mode defaults to `ErrorIfExists` and creation to
    /// requested. `table_exists` is the outcome of the existence query,
    /// performed exactly once per write, before any DDL. The write fails
    /// before anything is issued — `NotConnected` without a session,
    /// `TableAlreadyExists` in `ErrorIfExists` mode on an existing table,
    /// `UnsupportedType` when a `CREATE TABLE` is owed over an unsupported
    /// schema — or it returns the complete plan; mode `Ignore` on an
    /// existing table yields the empty, skipped plan.
    pub fn write_table(
        &self,
        table: &LocalTable,
        table_name: &String,
        mode: Option<WriteMode>,
        partition_cols: &Option<Vec<String>>,
        create_table: Option<bool>,
        table_exists: bool,
    ) -> (r: Result<WritePlan, HiveError>)
        requires
            table.wf(),
        ensures
            !self.connected ==> (r matches Err(e) && e is NotConnected),
            (self.connected && effective_mode(mode) is ErrorIfExists && table_exists) ==> (
            r matches Err(HiveError::TableAlreadyExists(t)) && t@ == table_name@),
            (self.connected && effective_mode(mode) is Ignore && table_exists) ==> (r matches Ok(p)
                && (p.skipped && p.statements@.len() == 0 && p.stage_csv is None
                && p.parquet_stub is None && !p.large_row_warning)),
            (self.connected && proceeding(effective_mode(mode), table_exists) && creates(
                effective_mode(mode),
                table_exists,
                effective_create(create_table),
            ) && !schema_supported(table.columns@)) ==> (r matches Err(
                HiveError::UnsupportedType(d),
            ) && exists|i: int| unsupported_at(table.columns@, i, d@)),
            (self.connected && proceeding(effective_mode(mode), table_exists) && (creates(
                effective_mode(mode),
                table_exists,
                effective_create(create_table),
            ) ==> schema_supported(table.columns@))) ==> (r matches Ok(p) && exists|ts: int|
                plan_matches(
                    p,
                    *table,
                    table_name@,
                    effective_mode(mode),
                    parts_of(*partition_cols),
                    effective_create(create_table),
                    table_exists,
                    self.strategy,
                    ts,
                )),
    {
        if !self.connected {
            return Err(HiveError::NotConnected);
        }
        let m = match mode {
            Some(m) => m,
            None => WriteMode::ErrorIfExists,
        };
        let ct = match create_table {
            Some(b) => b,
            None => true,
        };
        let pre_action = ConflictResolver::resolve(&m, table_exists);
        match pre_action {
            PreAction::Fail => {
                return Err(HiveError::TableAlreadyExists(table_name.clone()));
            },
            PreAction::Skip => {
                return Ok(
                    WritePlan {
                        skipped: true,
                        statements: Vec::new(),
                        stage_csv: None,
                        parquet_stub: None,
                        large_row_warning: false,
                    },
                );
            },
            _ => {},
        }
        let mut statements: Vec<String> = Vec::new();
        if matches!(pre_action, PreAction::DropThenCreate) {
            let drop = render_drop_sql(table_name, false);
            statements.push(drop);
        }
        if ct && (!table_exists || matches!(m, WriteMode::Overwrite)) {
            let create = match build_create_statement(table_name, &table.columns, partition_cols) {
                Ok(s) => s,
                Err(e) => {
                    return Err(e);
                },
            };
            statements.push(create);
        }
        let ghost n_drop: int = if drops_first(m, table_exists) {
            1
        } else {
            0
        };
        let ghost pre: int = statements@.len() as int;
        match self.strategy {
            IngestStrategy::InlineSql => {
                let h = table.row_count();
                let mut inserts = inline_insert_statements(table, table_name);
                statements.append(&mut inserts);
                let plan = WritePlan {
                    skipped: false,
                    statements,
                    stage_csv: None,
                    parquet_stub: None,
                    large_row_warning: h > LARGE_ROW_THRESHOLD,
                };
                proof {
                    assert(plan_matches(
                        plan,
                        *table,
                        table_name@,
                        effective_mode(mode),
                        parts_of(*partition_cols),
                        effective_create(create_table),
                        table_exists,
                        self.strategy,
                        0,
                    ));
                    assert(exists|ts: int|
                        plan_matches(
                            plan,
                            *table,
                            table_name@,
                            effective_mode(mode),
                            parts_of(*partition_cols),
                            effective_create(create_table),
                            table_exists,
                            self.strategy,
                            ts,
                        ));
                }
                Ok(plan)
            },
            IngestStrategy::CsvLoad => {
                let ts = now_epoch_seconds();
                let path = render_csv_path(table_name, ts);
                let load = render_load_sql(&path, table_name);
                statements.push(load);
                let plan = WritePlan {
                    skipped: false,
                    statements,
                    stage_csv: Some(path),
                    parquet_stub: None,
                    large_row_warning: false,
                };
                proof {
                    assert(plan_matches(
                        plan,
                        *table,
                        table_name@,
                        effective_mode(mode),
                        parts_of(*partition_cols),
                        effective_create(create_table),
                        table_exists,
                        self.strategy,
                        ts as int,
                    ));
                    assert(exists|ts: int|
                        plan_matches(
                            plan,
                            *table,
                            table_name@,
                            effective_mode(mode),
                            parts_of(*partition_cols),
                            effective_create(create_table),
                            table_exists,
                            self.strategy,
                            ts,
                        ));
                }
                Ok(plan)
            },
            IngestStrategy::ParquetStage => {
                let ts = now_epoch_seconds();
                let path = render_parquet_path(table_name, ts);
                let plan = WritePlan {
                    skipped: false,
                    statements,
                    stage_csv: None,
                    parquet_stub: Some(path),
                    large_row_warning: false,
                };
                proof {
                    assert(plan_matches(
                        plan,
                        *table,
                        table_name@,
                        effective_mode(mode),
                        parts_of(*partition_cols),
                        effective_create(create_table),
                        table_exists,
                        self.strategy,
                        ts as int,
                    ));
                    assert(exists|ts: int|
                        plan_matches(
                            plan,
                            *table,
                            table_name@,
                            effective_mode(mode),
                            parts_of(*partition_cols),
                            effective_create(create_table),
                            table_exists,
                            self.strategy,
                            ts,
                        ));
                }
                Ok(plan)
            },
        }
    }
}

/// Scoped acquisition around a writer: entry connects, exit disconnects on
/// every path and never suppresses an in-flight error.
#[derive(Debug)]
pub struct RustHiveWriteContext {
    pub writer: RustHiveWriter,
}

impl RustHiveWriteContext {
    /// Wraps a fresh, disconnected writer with the inline-statement
    /// strategy.
    pub fn new(config: Option<HiveConfig>) -> (r: RustHiveWriteContext)
        ensures
            !r.writer.connected,
            r.writer.strategy is InlineSql,
            (config matches Some(c) ==> cfg_eq(r.writer.config, c)),
            (config is None ==> is_default_config(r.writer.config)),
    {
        RustHiveWriteContext { writer: RustHiveWriter::new(config) }
    }

    /// Entry: connects the wrapped writer.
    pub fn enter(&mut self)
        ensures
            final(self).writer.connected,
            final(self).writer.config == old(self).writer.config,
            final(self).writer.strategy == old(self).writer.strategy,
    {
        self.writer.connect();
    }

    /// Exit: disconnects on every path. The result says whether an
    /// in-flight error is suppressed, and it never is.
    pub fn exit(&mut self) -> (suppress: bool)
        ensures
            !final(self).writer.connected,
            final(self).writer.config == old(self).writer.config,
            final(self).writer.strategy == old(self).writer.strategy,
            !suppress,
    {
        self.writer.disconnect();
        false
    }

    /// Plans one write through the wrapped writer.
    pub fn write_table(
        &self,
        table: &LocalTable,
        table_name: &String,
        mode: Option<WriteMode>,
        partition_cols: &Option<Vec<String>>,
        create_table: Option<bool>,
        table_exists: bool,
    ) -> (r: Result<WritePlan, HiveError>)
        requires
            table.wf(),
        ensures
            !self.writer.connected ==> (r matches Err(e) && e is NotConnected),
            (self.writer.connected && effective_mode(mode) is ErrorIfExists && table_exists) ==> (
            r matches Err(HiveError::TableAlreadyExists(t)) && t@ == table_name@),
            (self.writer.connected && effective_mode(mode) is Ignore && table_exists) ==> (
            r matches Ok(p) && (p.skipped && p.statements@.len() == 0)),
            (self.writer.connected && proceeding(effective_mode(mode), table_exists) && creates(
                effective_mode(mode),
                table_exists,
                effective_create(create_table),
            ) && !schema_supported(table.columns@)) ==> (r matches Err(
                HiveError::UnsupportedType(d),
            ) && exists|i: int| unsupported_at(table.columns@, i, d@)),
            (self.writer.connected && proceeding(effective_mode(mode), table_exists) && (creates(
                effective_mode(mode),
                table_exists,
                effective_create(create_table),
            ) ==> schema_supported(table.columns@))) ==> (r matches Ok(p) && exists|ts: int|
                plan_matches(
                    p,
                    *table,
                    table_name@,
                    effective_mode(mode),
                    parts_of(*partition_cols),
                    effective_create(create_table),
                    table_exists,
                    self.writer.strategy,
                    ts,
                )),
    {
        self.writer.write_table(
            table,
            table_name,
            mode,
            partition_cols,
            create_table,
            table_exists,
        )
    }

    /// Builds the `CREATE TABLE` statement through the wrapped writer.
    pub fn create_table_from_dataframe(
        &self,
        table: &LocalTable,
        table_name: &String,
        partition_cols: &Option<Vec<String>>,
    ) -> (r: Result<String, HiveError>)
        ensures
            !self.writer.connected ==> (r matches Err(e) && e is NotConnected),
            self.writer.connected && schema_supported(table.columns@) ==> (r matches Ok(s) && s@
                == create_table_sql_spec(table_name@, table.columns@, parts_of(*partition_cols))),
            self.writer.connected && !schema_supported(table.columns@) ==> (r matches Err(
                HiveError::UnsupportedType(d),
            ) && exists|i: int| unsupported_at(table.columns@, i, d@)),
    {
        self.writer.create_table_from_dataframe(table, table_name, partition_cols)
    }

    /// Renders `DROP TABLE [IF EXISTS] <name>` through the wrapped writer.
    pub fn drop_table(&self, table_name: &String, if_exists: Option<bool>) -> (r: Result<
        String,
        HiveError,
    >)
        ensures
            !self.writer.connected ==> (r matches Err(e) && e is NotConnected),
            self.writer.connected ==> (r matches Ok(s) && s@ == drop_sql_spec(
                table_name@,
                (if_exists matches Some(b) && b),
            )),
    {
        self.writer.drop_table(table_name, if_exists)
    }

    /// Whether the wrapped session is connected.
    pub fn is_connected(&self) -> (r: bool)
        ensures
            r == self.writer.connected,
    {
        self.writer.is_connected()
    }

    /// A copy of the configuration.
    pub fn get_config(&self) -> (r: HiveConfig)
        ensures
            cfg_eq(r, self.writer.config),
    {
        self.writer.get_config()
    }
}

/// Builds a write context around a fresh, disconnected writer; entering it
/// connects.
pub fn connect_hive_writer(config: Option<HiveConfig>) -> (r: RustHiveWriteContext)
    ensures
        !r.writer.connected,
        r.writer.strategy is InlineSql,
        (config matches Some(c) ==> cfg_eq(r.writer.config, c)),
        (config is None ==> is_default_config(r.writer.config)),
{
    RustHiveWriteContext::new(config)
}

} // verus!
