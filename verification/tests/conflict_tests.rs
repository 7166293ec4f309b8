use hive_adapter::conflict::{ConflictResolver, PreAction, WriteMode};

#[test]
fn resolve_error_if_exists_on_existing_fails() {
    assert_eq!(ConflictResolver::resolve(&WriteMode::ErrorIfExists, true), PreAction::Fail);
}

#[test]
fn resolve_error_if_exists_on_absent_proceeds() {
    assert_eq!(ConflictResolver::resolve(&WriteMode::ErrorIfExists, false), PreAction::Proceed);
}

#[test]
fn resolve_ignore_on_existing_skips() {
    assert_eq!(ConflictResolver::resolve(&WriteMode::Ignore, true), PreAction::Skip);
}

#[test]
fn resolve_ignore_on_absent_proceeds() {
    assert_eq!(ConflictResolver::resolve(&WriteMode::Ignore, false), PreAction::Proceed);
}

#[test]
fn resolve_overwrite_on_existing_drops_then_creates() {
    assert_eq!(ConflictResolver::resolve(&WriteMode::Overwrite, true), PreAction::DropThenCreate);
}

#[test]
fn resolve_overwrite_on_absent_proceeds() {
    assert_eq!(ConflictResolver::resolve(&WriteMode::Overwrite, false), PreAction::Proceed);
}

#[test]
fn resolve_append_proceeds_either_way() {
    assert_eq!(ConflictResolver::resolve(&WriteMode::Append, true), PreAction::Proceed);
    assert_eq!(ConflictResolver::resolve(&WriteMode::Append, false), PreAction::Proceed);
}

#[test]
fn write_mode_repr_names_each_variant() {
    assert_eq!(WriteMode::Overwrite.repr(), "WriteMode.Overwrite");
    assert_eq!(WriteMode::Append.repr(), "WriteMode.Append");
    assert_eq!(WriteMode::ErrorIfExists.repr(), "WriteMode.ErrorIfExists");
    assert_eq!(WriteMode::Ignore.repr(), "WriteMode.Ignore");
}
