use hive_adapter::errors::HiveError;
use hive_adapter::conflict::WriteMode;
use hive_adapter::ingest::IngestStrategy;
use hive_adapter::table::{Column, LocalTable};
use hive_adapter::types::{CellValue, SemanticType};
use hive_adapter::writer::{connect_hive_writer, existence_from_result, existence_query,
    RustHiveWriter, RustHiveWriteContext};

/// A table of `n` rows with an integer id and a text name per row.
fn sample_table(n: usize) -> LocalTable {
    let ids: Vec<CellValue> = (0..n).map(|i| CellValue::Int(i as i64)).collect();
    let names: Vec<CellValue> = (0..n).map(|i| CellValue::Text(format!("row{i}"))).collect();
    LocalTable::from_columns(vec![
        Column { name: "id".to_string(), dtype: SemanticType::Int64, values: ids },
        Column { name: "name".to_string(), dtype: SemanticType::Text, values: names },
    ])
    .unwrap()
}

fn connected_writer() -> RustHiveWriter {
    let mut w = RustHiveWriter::new(None);
    w.connect();
    w
}

#[test]
fn five_rows_create_then_one_insert_then_conflict() {
    let table = sample_table(5);
    let w = connected_writer();
    let plan = w
        .write_table(&table, &"t".to_string(), None, &None, None, false)
        .unwrap();
    assert!(!plan.skipped);
    assert!(!plan.large_row_warning);
    assert!(plan.stage_csv.is_none() && plan.parquet_stub.is_none());
    assert_eq!(plan.statements.len(), 2);
    assert_eq!(
        plan.statements[0],
        "CREATE TABLE t (id BIGINT, name STRING) STORED AS PARQUET"
    );
    let mut expected = "INSERT INTO t (id, name) VALUES ".to_string();
    let tuples: Vec<String> = (0..5).map(|i| format!("({i}, 'row{i}')")).collect();
    expected.push_str(&tuples.join(", "));
    assert_eq!(plan.statements[1], expected);

    // the identical call once the table exists: zero statements, one error
    let again = w.write_table(&table, &"t".to_string(), None, &None, None, true);
    match again {
        Err(HiveError::TableAlreadyExists(name)) => assert_eq!(name, "t"),
        other => panic!("expected TableAlreadyExists, got {other:?}"),
    }
}

#[test]
fn ignore_mode_on_existing_table_is_an_idempotent_no_op() {
    let table = sample_table(3);
    let w = connected_writer();
    for _ in 0..2 {
        let plan = w
            .write_table(&table, &"t".to_string(), Some(WriteMode::Ignore), &None, None, true)
            .unwrap();
        assert!(plan.skipped);
        assert_eq!(plan.statements.len(), 0);
        assert!(plan.stage_csv.is_none() && plan.parquet_stub.is_none());
    }
}

#[test]
fn two_hundred_fifty_rows_make_three_batches_in_row_order() {
    let ids: Vec<CellValue> = (0..250).map(CellValue::Int).collect();
    let table = LocalTable::from_columns(vec![Column {
        name: "x".to_string(),
        dtype: SemanticType::Int64,
        values: ids,
    }])
    .unwrap();
    let w = connected_writer();
    let plan = w
        .write_table(
            &table,
            &"t".to_string(),
            Some(WriteMode::Append),
            &None,
            Some(false),
            true,
        )
        .unwrap();
    assert_eq!(plan.statements.len(), 3);
    let expect = |lo: i64, hi: i64| {
        let tuples: Vec<String> = (lo..hi).map(|i| format!("({i})")).collect();
        format!("INSERT INTO t (x) VALUES {}", tuples.join(", "))
    };
    assert_eq!(plan.statements[0], expect(0, 100));
    assert_eq!(plan.statements[1], expect(100, 200));
    assert_eq!(plan.statements[2], expect(200, 250));
}

#[test]
fn unsupported_column_type_fails_before_any_statement() {
    let table = LocalTable::from_columns(vec![Column {
        name: "nested".to_string(),
        dtype: SemanticType::Other("List(Int64)".to_string()),
        values: vec![CellValue::Null],
    }])
    .unwrap();
    let w = connected_writer();
    let r = w.write_table(&table, &"t".to_string(), None, &None, None, false);
    match r {
        Err(HiveError::UnsupportedType(d)) => assert_eq!(d, "List(Int64)"),
        other => panic!("expected UnsupportedType, got {other:?}"),
    }
}

#[test]
fn overwrite_on_existing_table_drops_then_creates() {
    let table = sample_table(1);
    let w = connected_writer();
    let plan = w
        .write_table(&table, &"t".to_string(), Some(WriteMode::Overwrite), &None, None, true)
        .unwrap();
    assert_eq!(plan.statements.len(), 3);
    assert_eq!(plan.statements[0], "DROP TABLE t");
    assert_eq!(
        plan.statements[1],
        "CREATE TABLE t (id BIGINT, name STRING) STORED AS PARQUET"
    );
    assert!(plan.statements[2].starts_with("INSERT INTO t (id, name) VALUES "));
}

#[test]
fn append_never_creates_on_an_existing_table() {
    let table = sample_table(2);
    let w = connected_writer();
    let plan = w
        .write_table(&table, &"t".to_string(), Some(WriteMode::Append), &None, None, true)
        .unwrap();
    assert_eq!(plan.statements.len(), 1);
    assert!(plan.statements[0].starts_with("INSERT INTO t "));
}

#[test]
fn create_can_be_declined() {
    let table = sample_table(2);
    let w = connected_writer();
    let plan = w
        .write_table(&table, &"t".to_string(), None, &None, Some(false), false)
        .unwrap();
    assert_eq!(plan.statements.len(), 1);
    assert!(plan.statements[0].starts_with("INSERT INTO t "));
}

#[test]
fn disconnected_writer_refuses_every_operation() {
    let table = sample_table(1);
    let w = RustHiveWriter::new(None);
    assert!(matches!(
        w.write_table(&table, &"t".to_string(), None, &None, None, false),
        Err(HiveError::NotConnected)
    ));
    assert!(matches!(w.drop_table(&"t".to_string(), None), Err(HiveError::NotConnected)));
    assert!(matches!(
        w.create_table_from_dataframe(&table, &"t".to_string(), &None),
        Err(HiveError::NotConnected)
    ));
}

#[test]
fn drop_table_renders_both_forms() {
    let w = connected_writer();
    assert_eq!(w.drop_table(&"t".to_string(), None).unwrap(), "DROP TABLE t");
    assert_eq!(
        w.drop_table(&"t".to_string(), Some(true)).unwrap(),
        "DROP TABLE IF EXISTS t"
    );
    assert_eq!(w.drop_table(&"t".to_string(), Some(false)).unwrap(), "DROP TABLE t");
}

#[test]
fn csv_strategy_stages_a_file_and_loads_it() {
    let table = sample_table(2);
    let mut w = RustHiveWriter::new_with_strategy(None, IngestStrategy::CsvLoad);
    w.connect();
    let plan = w
        .write_table(&table, &"t".to_string(), None, &None, None, false)
        .unwrap();
    assert_eq!(plan.statements.len(), 2);
    assert!(plan.statements[0].starts_with("CREATE TABLE t "));
    let path = plan.stage_csv.clone().unwrap();
    assert!(path.starts_with("/tmp/t_"));
    assert!(path.ends_with(".csv"));
    let ts: &str = &path["/tmp/t_".len()..path.len() - ".csv".len()];
    assert!(ts.parse::<i64>().is_ok(), "timestamp part should be an integer: {ts}");
    assert_eq!(
        plan.statements[1],
        format!("LOAD DATA LOCAL INPATH '{path}' INTO TABLE t")
    );
    assert!(plan.parquet_stub.is_none());
    assert!(!plan.large_row_warning);
}

#[test]
fn parquet_strategy_only_announces_a_path() {
    let table = sample_table(2);
    let mut w = RustHiveWriter::new_with_strategy(None, IngestStrategy::ParquetStage);
    w.connect();
    let plan = w
        .write_table(&table, &"t".to_string(), None, &None, Some(false), false)
        .unwrap();
    assert_eq!(plan.statements.len(), 0);
    let path = plan.parquet_stub.unwrap();
    assert!(path.starts_with("/tmp/t_") && path.ends_with(".parquet"));
    assert!(plan.stage_csv.is_none());
}

#[test]
fn large_inline_write_carries_a_warning() {
    let ids: Vec<CellValue> = (0..1001).map(CellValue::Int).collect();
    let table = LocalTable::from_columns(vec![Column {
        name: "x".to_string(),
        dtype: SemanticType::Int64,
        values: ids,
    }])
    .unwrap();
    let w = connected_writer();
    let plan = w
        .write_table(&table, &"big".to_string(), Some(WriteMode::Append), &None, Some(false), true)
        .unwrap();
    assert!(plan.large_row_warning);
    assert_eq!(plan.statements.len(), 11);

    let exactly_1000: Vec<CellValue> = (0..1000).map(CellValue::Int).collect();
    let table2 = LocalTable::from_columns(vec![Column {
        name: "x".to_string(),
        dtype: SemanticType::Int64,
        values: exactly_1000,
    }])
    .unwrap();
    let plan2 = w
        .write_table(&table2, &"big".to_string(), Some(WriteMode::Append), &None, Some(false), true)
        .unwrap();
    assert!(!plan2.large_row_warning);
    assert_eq!(plan2.statements.len(), 10);
}

#[test]
fn empty_table_issues_no_insert() {
    let table = sample_table(0);
    let w = connected_writer();
    let plan = w
        .write_table(&table, &"t".to_string(), None, &None, None, false)
        .unwrap();
    assert_eq!(plan.statements.len(), 1);
    assert!(plan.statements[0].starts_with("CREATE TABLE t "));
}

#[test]
fn existence_check_templates_and_reads_results() {
    assert_eq!(existence_query(&"users".to_string()), "SHOW TABLES LIKE 'users'");
    assert!(existence_from_result(1));
    assert!(existence_from_result(5));
    assert!(!existence_from_result(0));
}

#[test]
fn ragged_columns_are_refused() {
    let r = LocalTable::from_columns(vec![
        Column {
            name: "a".to_string(),
            dtype: SemanticType::Int64,
            values: vec![CellValue::Int(1)],
        },
        Column { name: "b".to_string(), dtype: SemanticType::Int64, values: vec![] },
    ]);
    assert!(r.is_none());
}

#[test]
fn write_context_connects_on_entry_and_disconnects_on_exit() {
    let table = sample_table(1);
    let mut ctx = RustHiveWriteContext::new(None);
    assert!(!ctx.is_connected());
    assert!(matches!(
        ctx.write_table(&table, &"t".to_string(), None, &None, None, false),
        Err(HiveError::NotConnected)
    ));
    ctx.enter();
    assert!(ctx.is_connected());
    let plan = ctx
        .write_table(&table, &"t".to_string(), None, &None, None, false)
        .unwrap();
    assert_eq!(plan.statements.len(), 2);
    assert_eq!(ctx.drop_table(&"t".to_string(), Some(true)).unwrap(), "DROP TABLE IF EXISTS t");
    let suppress = ctx.exit();
    assert!(!suppress);
    assert!(!ctx.is_connected());
    // exit on an already-disconnected context stays a no-op success
    assert!(!ctx.exit());
    assert!(!ctx.is_connected());
}

#[test]
fn connect_hive_writer_hands_back_a_disconnected_context() {
    let mut ctx = connect_hive_writer(None);
    assert!(!ctx.is_connected());
    assert_eq!(ctx.get_config().port, 10000);
    ctx.enter();
    assert!(ctx.is_connected());
    assert!(!ctx.exit());
}

#[test]
fn partitioned_write_uses_the_partition_clause() {
    let table = LocalTable::from_columns(vec![
        Column {
            name: "v".to_string(),
            dtype: SemanticType::Int32,
            values: vec![CellValue::Int(1)],
        },
        Column {
            name: "p".to_string(),
            dtype: SemanticType::Text,
            values: vec![CellValue::Text("x".to_string())],
        },
    ])
    .unwrap();
    let w = connected_writer();
    let parts = Some(vec!["p".to_string()]);
    let plan = w
        .write_table(&table, &"t".to_string(), None, &parts, None, false)
        .unwrap();
    assert_eq!(
        plan.statements[0],
        "CREATE TABLE t (v INT) PARTITIONED BY (p STRING) STORED AS PARQUET"
    );
    // the insert still covers every column, partition or not
    assert_eq!(plan.statements[1], "INSERT INTO t (v, p) VALUES (1, 'x')");
}
