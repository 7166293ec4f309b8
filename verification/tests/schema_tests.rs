use hive_adapter::errors::HiveError;
use hive_adapter::schema::build_create_statement;
use hive_adapter::table::Column;
use hive_adapter::types::SemanticType;

fn col(name: &str, dtype: SemanticType) -> Column {
    Column { name: name.to_string(), dtype, values: Vec::new() }
}

#[test]
fn partition_column_is_excluded_and_declared_separately() {
    let cols = vec![
        col("a", SemanticType::Int64),
        col("b", SemanticType::Text),
        col("p", SemanticType::Text),
    ];
    let parts = Some(vec!["p".to_string()]);
    let ddl = build_create_statement(&"t".to_string(), &cols, &parts).unwrap();
    assert_eq!(
        ddl,
        "CREATE TABLE t (a BIGINT, b STRING) PARTITIONED BY (p STRING) STORED AS PARQUET"
    );
}

#[test]
fn no_partitions_means_no_partition_clause() {
    let cols = vec![col("a", SemanticType::Int64), col("b", SemanticType::Text)];
    let ddl = build_create_statement(&"t".to_string(), &cols, &None).unwrap();
    assert_eq!(ddl, "CREATE TABLE t (a BIGINT, b STRING) STORED AS PARQUET");
}

#[test]
fn column_order_follows_the_schema() {
    let cols = vec![
        col("z", SemanticType::Boolean),
        col("a", SemanticType::Date),
        col("m", SemanticType::Datetime),
    ];
    let ddl = build_create_statement(&"ordered".to_string(), &cols, &None).unwrap();
    assert_eq!(ddl, "CREATE TABLE ordered (z BOOLEAN, a DATE, m TIMESTAMP) STORED AS PARQUET");
}

#[test]
fn several_partition_columns_keep_schema_order() {
    let cols = vec![
        col("a", SemanticType::Int32),
        col("p1", SemanticType::Text),
        col("b", SemanticType::Float64),
        col("p2", SemanticType::Date),
    ];
    let parts = Some(vec!["p2".to_string(), "p1".to_string()]);
    let ddl = build_create_statement(&"t".to_string(), &cols, &parts).unwrap();
    assert_eq!(
        ddl,
        "CREATE TABLE t (a INT, b DOUBLE) PARTITIONED BY (p1 STRING, p2 DATE) STORED AS PARQUET"
    );
}

#[test]
fn first_unsupported_column_aborts_construction() {
    let cols = vec![
        col("ok", SemanticType::Int64),
        col("bad", SemanticType::Other("List(Int64)".to_string())),
        col("worse", SemanticType::Other("Struct".to_string())),
    ];
    let r = build_create_statement(&"t".to_string(), &cols, &None);
    match r {
        Err(HiveError::UnsupportedType(d)) => assert_eq!(d, "List(Int64)"),
        other => panic!("expected UnsupportedType, got {other:?}"),
    }
}
