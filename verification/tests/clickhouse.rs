//! The ClickHouse driver.
use dbgate::connection::ConnectionDefinition;
use dbgate::drivers::clickhouse::{
    analyse_clickhouse_full, build_config, build_create_view_sql, build_primary_key_from_comma,
    build_sorting_key_from_comma, build_url, extract_data_type, get_column_info_from_ch,
    list_databases, needs_view_texts, parse_comma_separated, result_columns, server_version,
    substitute_condition, ClickHouseDriver, CLICKHOUSE_ENGINE,
};
use dbgate::value::Value;

/// The library's value for a parsed JSON value.
fn convert(v: &serde_json::Value) -> Value {
    match v {
        serde_json::Value::Null => Value::Null,
        serde_json::Value::Bool(b) => Value::Bool(*b),
        serde_json::Value::Number(n) => {
            if let Some(i) = n.as_i64() {
                Value::Int(i as i128)
            } else if let Some(u) = n.as_u64() {
                Value::Int(u as i128)
            } else {
                Value::Double(n.as_f64().unwrap().to_bits())
            }
        }
        serde_json::Value::String(s) => Value::Str(s.clone()),
        serde_json::Value::Array(a) => Value::Array(a.iter().map(convert).collect()),
        serde_json::Value::Object(o) => {
            Value::Object(o.iter().map(|(k, x)| (k.clone(), convert(x))).collect())
        }
    }
}

/// The value that a JSON text stands for.
fn json(text: &str) -> Value {
    convert(&serde_json::from_str(text).unwrap())
}

/// The values of a JSON array.
fn rows(text: &str) -> Vec<Value> {
    match json(text) {
        Value::Array(items) => items,
        other => panic!("not an array: {other:?}"),
    }
}

#[test]
fn clickhouse_substitutes_object_conditions() {
    let sql = substitute_condition(
        "where database = '#DATABASE#' and uuid =OBJECT_ID_CONDITION",
        "mydb",
        Some("abc-123"),
    );
    assert!(sql.contains("database = 'mydb'"));
    assert!(sql.contains("uuid = 'abc-123'") || sql.contains("uuid  = 'abc-123'"));

    let sql_all = substitute_condition(
        "where database = '#DATABASE#' and uuid =OBJECT_ID_CONDITION",
        "mydb",
        None,
    );
    assert!(sql_all.contains("database = 'mydb'"));
    assert!(sql_all.contains("is not null"));
}

#[test]
fn extracts_nullable_data_type() {
    let (displayed, not_null) = extract_data_type("Nullable(String)");
    assert_eq!(displayed, "String");
    assert!(!not_null);

    let (displayed, not_null) = extract_data_type("UInt32");
    assert_eq!(displayed, "UInt32");
    assert!(not_null);

    let (displayed, not_null) = extract_data_type("Nullable(DateTime64(3))");
    assert_eq!(displayed, "DateTime64(3)");
    assert!(!not_null);
}

#[test]
fn parses_comma_separated_primary_key() {
    let pk = build_primary_key_from_comma("id, tenant_id").unwrap();
    assert_eq!(pk.columns_constraint.columns.len(), 2);
    assert_eq!(pk.columns_constraint.columns[0].column_name, "id");
    assert_eq!(pk.columns_constraint.columns[1].column_name, "tenant_id");
}

#[test]
fn returns_none_for_empty_primary_key() {
    assert!(build_primary_key_from_comma("").is_none());
    assert!(build_primary_key_from_comma("  ").is_none());
}

#[test]
fn builds_column_info_from_clickhouse_row() {
    let row = json(
        r#"{
        "columnName": "created_at",
        "dataType": "Nullable(DateTime64(3))",
        "columnComment": "creation timestamp",
        "defaultValue": "now64()"
    }"#,
    );
    let info = get_column_info_from_ch(&row, "columnName");
    assert_eq!(info.column_name, "created_at");
    assert_eq!(info.data_type, "Nullable(DateTime64(3))");
    assert_eq!(info.displayed_data_type.as_deref(), Some("DateTime64(3)"));
    assert_eq!(info.not_null, Some(false));
    assert_eq!(info.default_value.as_deref(), Some("now64()"));
    assert_eq!(info.column_comment.as_deref(), Some("creation timestamp"));
}

#[test]
fn builds_create_view_sql_correctly() {
    let sql = build_create_view_sql("my_view", "SELECT id, name FROM users");
    assert_eq!(sql, "CREATE VIEW \"my_view\"\nAS\nSELECT id, name FROM users");
}

#[test]
fn clickhouse_driver_describes_itself() {
    let d = ClickHouseDriver::new();
    assert_eq!(d.engine(), CLICKHOUSE_ENGINE);
    assert_eq!(d.title(), "ClickHouse");
    assert_eq!(d.capabilities().default_port, Some(8123));
}

#[test]
fn clickhouse_connects_over_http() {
    assert_eq!(build_url("h", 8123), "http://h:8123");
    let mut def = ConnectionDefinition::default();
    def.server = Some("h".to_string());
    let config = build_config(&def).unwrap();
    assert_eq!(config.host, "h");
    assert_eq!(config.port, 8123);
}

#[test]
fn clickhouse_keys_are_split_at_commas() {
    assert_eq!(parse_comma_separated(" a ,, b"), vec!["a".to_string(), "b".to_string()]);
    let key = build_sorting_key_from_comma("a, b").unwrap();
    assert_eq!(key.columns[1].column_name, "b");
    assert!(build_sorting_key_from_comma(" ").is_none());
}

#[test]
fn clickhouse_results_take_their_columns_from_the_first_row() {
    let columns = result_columns(&rows(r#"[{"a":1,"b":2},{"c":3}]"#));
    let names: Vec<&str> = columns.iter().map(|c| c.column_name.as_str()).collect();
    assert_eq!(names, vec!["a", "b"]);
    assert!(result_columns(&Vec::new()).is_empty());
}

#[test]
fn clickhouse_server_metadata() {
    let v = server_version(&rows(r#"[{"version":"24.1"}]"#));
    assert_eq!(v.version, "24.1");
    let dbs = list_databases(&rows(r#"[{"name":"default"}]"#));
    assert_eq!(dbs[0].name, "default");
}

#[test]
fn clickhouse_tables_and_views_are_told_apart() {
    assert!(needs_view_texts(None));
    assert!(needs_view_texts(Some(&Vec::new())));
    assert!(!needs_view_texts(Some(&rows("[1]"))));
    let tables = rows(
        r#"[{"objectId":"1","pureName":"t","tableEngine":"MergeTree","primaryKeyColumns":"id","sortingKeyColumns":"id"}]"#,
    );
    let columns = rows(
        r#"[{"objectId":"1","pureName":"t","columnName":"id","dataType":"UInt32"},
            {"objectId":"2","pureName":"v","columnName":"x","dataType":"String"}]"#,
    );
    let views = rows(r#"[{"objectId":"2","pureName":"v","viewDefinition":"SELECT 1"}]"#);
    let info = analyse_clickhouse_full(&tables, &columns, &views);
    assert_eq!(info.tables.len(), 1);
    assert_eq!(info.tables[0].object.pure_name, "t");
    assert_eq!(info.tables[0].columns.len(), 1);
    assert!(info.tables[0].primary_key.is_some());
    assert_eq!(info.views.len(), 1);
}
