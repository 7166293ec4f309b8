//! Verified write-path decision engine for a Hive-like SQL warehouse.
//!
//! The library plans every statement a write issues — conflict resolution,
//! schema DDL, value formatting and batched inserts — as plain strings with
//! proved contracts; an unverified shell executes them against the warehouse.

pub mod config;
pub mod conflict;
pub mod errors;
pub mod ingest;
pub mod reader;
pub mod schema;
pub mod table;
pub mod text;
pub mod types;
pub mod writer;

pub use config::HiveConfig;
pub use conflict::{ConflictResolver, PreAction, WriteMode};
pub use errors::HiveError;
pub use ingest::IngestStrategy;
pub use reader::{connect_hive, RustHiveContext, RustHiveReader};
pub use table::{Column, LocalTable};
pub use types::{CellValue, HiveType, SemanticType};
pub use writer::{connect_hive_writer, RustHiveWriteContext, RustHiveWriter, WritePlan};
