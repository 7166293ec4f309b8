//! Write modes and the conflict resolver: given the desired mode and the
//! observed existence of the target table, decide what happens before any
//! data is loaded.

use vstd::prelude::*;
use vstd::string::StringExecFns;

verus! {

/// What a write does when the target table already exists.
#[derive(Clone, Copy, Debug, PartialEq, Eq, Structural)]
pub enum WriteMode {
    /// Drop the existing table, then create it afresh before loading.
    Overwrite,
    /// Load into the table as it stands; never a pre-action.
    Append,
    /// Fail when the table already exists.
    ErrorIfExists,
    /// Do nothing (successfully) when the table already exists.
    Ignore,
}

impl WriteMode {
    /// A printable name of the mode, `WriteMode.<variant>`.
    pub fn repr(&self) -> (r: String)
        ensures
            *self is Overwrite ==> r@ == "WriteMode.Overwrite"@,
            *self is Append ==> r@ == "WriteMode.Append"@,
            *self is ErrorIfExists ==> r@ == "WriteMode.ErrorIfExists"@,
            *self is Ignore ==> r@ == "WriteMode.Ignore"@,
    {
        match self {
            WriteMode::Overwrite => String::from_str("WriteMode.Overwrite"),
            WriteMode::Append => String::from_str("WriteMode.Append"),
            WriteMode::ErrorIfExists => String::from_str("WriteMode.ErrorIfExists"),
            WriteMode::Ignore => String::from_str("WriteMode.Ignore"),
        }
    }
}

/// The action a write takes before loading data.
#[derive(Clone, Copy, Debug, PartialEq, Eq, Structural)]
pub enum PreAction {
    /// Go on to (optional) creation and the load.
    Proceed,
    /// The whole write is a no-op that succeeds.
    Skip,
    /// Drop the existing table, then create a fresh schema.
    DropThenCreate,
    /// The write fails with `TableAlreadyExists`.
    Fail,
}

/// The pre-action for every (mode, existence) pair: `ErrorIfExists` fails on
/// an existing table, `Ignore` skips one, `Overwrite` drops and recreates
/// one; every other pair proceeds.
pub open spec fn resolve_spec(mode: WriteMode, table_exists: bool) -> PreAction {
    if table_exists {
        match mode {
            WriteMode::ErrorIfExists => PreAction::Fail,
            WriteMode::Ignore => PreAction::Skip,
            WriteMode::Overwrite => PreAction::DropThenCreate,
            WriteMode::Append => PreAction::Proceed,
        }
    } else {
        PreAction::Proceed
    }
}

/// The whole conflict table, case by case: `ErrorIfExists` fails exactly on
/// an existing table, `Ignore` skips exactly one, `Overwrite` drops and
/// recreates exactly one, `Append` always proceeds, and nothing ever
/// pre-acts on an absent table.
pub proof fn lemma_resolve_table()
    ensures
        resolve_spec(WriteMode::ErrorIfExists, true) == PreAction::Fail,
        resolve_spec(WriteMode::ErrorIfExists, false) == PreAction::Proceed,
        resolve_spec(WriteMode::Ignore, true) == PreAction::Skip,
        resolve_spec(WriteMode::Ignore, false) == PreAction::Proceed,
        resolve_spec(WriteMode::Overwrite, true) == PreAction::DropThenCreate,
        resolve_spec(WriteMode::Overwrite, false) == PreAction::Proceed,
        resolve_spec(WriteMode::Append, true) == PreAction::Proceed,
        resolve_spec(WriteMode::Append, false) == PreAction::Proceed,
{
}

/// Decides the pre-action of a write from the desired mode and the observed
/// existence of the target table.
pub struct ConflictResolver;

impl ConflictResolver {
    /// Returns exactly the action of `resolve_spec` for every (mode, exists)
    /// pair.
    pub fn resolve(mode: &WriteMode, table_exists: bool) -> (r: PreAction)
        ensures
            r == resolve_spec(*mode, table_exists),
    {
        if table_exists {
            match mode {
                WriteMode::ErrorIfExists => PreAction::Fail,
                WriteMode::Ignore => PreAction::Skip,
                WriteMode::Overwrite => PreAction::DropThenCreate,
                WriteMode::Append => PreAction::Proceed,
            }
        } else {
            PreAction::Proceed
        }
    }
}

} // verus!
