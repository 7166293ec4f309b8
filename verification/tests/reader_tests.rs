use hive_adapter::config::HiveConfig;
use hive_adapter::errors::HiveError;
use hive_adapter::reader::{connect_hive, RustHiveContext, RustHiveReader};

#[test]
fn default_config_has_the_documented_values() {
    let r = RustHiveReader::new(None);
    let c = r.get_config();
    assert_eq!(c.host, "localhost");
    assert_eq!(c.port, 10000);
    assert_eq!(c.username, "default");
    assert_eq!(c.database, "default");
    assert_eq!(c.auth, "NONE");
}

#[test]
fn explicit_config_is_kept() {
    let c = HiveConfig::new(
        Some("warehouse.example".to_string()),
        Some(10013),
        Some("etl".to_string()),
        Some("analytics".to_string()),
        Some("LDAP".to_string()),
    );
    let r = RustHiveReader::new(Some(c));
    let got = r.get_config();
    assert_eq!(got.host, "warehouse.example");
    assert_eq!(got.port, 10013);
    assert_eq!(got.username, "etl");
    assert_eq!(got.database, "analytics");
    assert_eq!(got.auth, "LDAP");
}

#[test]
fn config_repr_prints_every_field() {
    let c = HiveConfig::new(None, None, None, None, None);
    assert_eq!(
        c.repr(),
        "HiveConfig(host='localhost', port=10000, username='default', database='default', auth='NONE')"
    );
}

#[test]
fn connect_and_disconnect_drive_the_flag() {
    let mut r = RustHiveReader::new(None);
    assert!(!r.is_connected());
    r.connect();
    assert!(r.is_connected());
    r.disconnect();
    assert!(!r.is_connected());
    // disconnecting again stays a no-op success
    r.disconnect();
    assert!(!r.is_connected());
}

#[test]
fn queries_require_a_connection() {
    let r = RustHiveReader::new(None);
    assert!(matches!(r.show_tables(), Err(HiveError::NotConnected)));
    assert!(matches!(r.describe_table(&"users".to_string()), Err(HiveError::NotConnected)));
    assert!(matches!(
        r.get_table_sample(&"users".to_string(), None),
        Err(HiveError::NotConnected)
    ));
    assert!(matches!(
        r.prepare_query("SELECT 1".to_string()),
        Err(HiveError::NotConnected)
    ));
}

#[test]
fn query_templates_match_the_sql_surface() {
    let mut r = RustHiveReader::new(None);
    r.connect();
    assert_eq!(r.show_tables().unwrap(), "SHOW TABLES");
    assert_eq!(r.describe_table(&"users".to_string()).unwrap(), "DESCRIBE users");
    assert_eq!(
        r.get_table_sample(&"users".to_string(), None).unwrap(),
        "SELECT * FROM users LIMIT 10"
    );
    assert_eq!(
        r.get_table_sample(&"users".to_string(), Some(5)).unwrap(),
        "SELECT * FROM users LIMIT 5"
    );
    assert_eq!(r.prepare_query("SELECT 1".to_string()).unwrap(), "SELECT 1");
}

#[test]
fn connect_hive_hands_back_a_disconnected_context() {
    let mut ctx = connect_hive(None);
    assert!(!ctx.is_connected());
    assert_eq!(ctx.get_config().host, "localhost");
    ctx.enter();
    assert!(ctx.is_connected());
}

#[test]
fn reader_context_connects_on_entry_and_disconnects_on_exit() {
    let mut ctx = RustHiveContext::new(None);
    assert!(!ctx.is_connected());
    assert!(matches!(ctx.show_tables(), Err(HiveError::NotConnected)));
    ctx.enter();
    assert!(ctx.is_connected());
    assert_eq!(ctx.show_tables().unwrap(), "SHOW TABLES");
    assert_eq!(ctx.describe_table(&"t".to_string()).unwrap(), "DESCRIBE t");
    assert_eq!(
        ctx.get_table_sample(&"t".to_string(), Some(3)).unwrap(),
        "SELECT * FROM t LIMIT 3"
    );
    let suppress = ctx.exit();
    assert!(!suppress);
    assert!(!ctx.is_connected());
}
