//! Error taxonomy of the adapter. Every fallible step returns one of these;
//! the orchestrators neither retry nor roll back, so the first error a write
//! or read meets is the one the caller sees.

use vstd::prelude::*;
use vstd::string::StringExecFns;

verus! {

/// What can go wrong on the write or read path.
#[derive(Clone, Debug)]
pub enum HiveError {
    /// An operation was attempted before `connect()`.
    NotConnected,
    /// A write in `ErrorIfExists` mode found the named table already present.
    TableAlreadyExists(String),
    /// The schema holds a column type outside the supported set; the payload
    /// describes that type.
    UnsupportedType(String),
    /// The warehouse rejected a statement; `stage` names the statement and
    /// `message` carries the warehouse's words.
    ExecutionFailure { stage: String, message: String },
    /// A staging file could not be created or written.
    StagingIoFailure { message: String },
}

/// The printable message of each error kind.
pub open spec fn error_message(e: HiveError) -> Seq<char> {
    match e {
        HiveError::NotConnected => "not connected to Hive; call connect() first"@,
        HiveError::TableAlreadyExists(t) => "table "@ + t@ + " already exists"@,
        HiveError::UnsupportedType(d) => "unsupported data type: "@ + d@,
        HiveError::ExecutionFailure { stage, message } => "execution failed at ["@ + stage@
            + "]: "@ + message@,
        HiveError::StagingIoFailure { message } => "staging file failure: "@ + message@,
    }
}

impl HiveError {
    /// The message the caller sees, naming the error's kind and detail.
    pub fn message(&self) -> (r: String)
        ensures
            r@ == error_message(*self),
    {
        match self {
            HiveError::NotConnected => String::from_str(
                "not connected to Hive; call connect() first",
            ),
            HiveError::TableAlreadyExists(t) => {
                let mut r = String::from_str("table ");
                r.append(t.as_str());
                r.append(" already exists");
                r
            },
            HiveError::UnsupportedType(d) => {
                let mut r = String::from_str("unsupported data type: ");
                r.append(d.as_str());
                r
            },
            HiveError::ExecutionFailure { stage, message } => {
                let mut r = String::from_str("execution failed at [");
                r.append(stage.as_str());
                r.append("]: ");
                r.append(message.as_str());
                r
            },
            HiveError::StagingIoFailure { message } => {
                let mut r = String::from_str("staging file failure: ");
                r.append(message.as_str());
                r
            },
        }
    }
}

} // verus!
