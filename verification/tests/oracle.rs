//! The Oracle driver.
use dbgate::connection::ConnectionDefinition;
use dbgate::dbinfo::{NamedObjectInfo, TriggerEventType, TriggerTiming};
use dbgate::drivers::oracle::{
    build_primary_key, cell_value, column_info_with, connect_string, current_schema_sql,
    get_column_info, quote_default_value, server_version, substitute_conditions,
    table_analysis_queries, timestamp_to_iso, trigger_info_with, trim_trailing_semicolon, CellKind,
    OracleCell, OracleDriver, ORACLE_ENGINE,
};
use dbgate::value::Value;

/// The library's value for a parsed JSON value.
fn convert(v: &serde_json::Value) -> Value {
    match v {
        serde_json::Value::Null => Value::Null,
        serde_json::Value::Bool(b) => Value::Bool(*b),
        serde_json::Value::Number(n) => {
            if let Some(i) = n.as_i64() {
                Value::Int(i as i128)
            } else if let Some(u) = n.as_u64() {
                Value::Int(u as i128)
            } else {
                Value::Double(n.as_f64().unwrap().to_bits())
            }
        }
        serde_json::Value::String(s) => Value::Str(s.clone()),
        serde_json::Value::Array(a) => Value::Array(a.iter().map(convert).collect()),
        serde_json::Value::Object(o) => {
            Value::Object(o.iter().map(|(k, x)| (k.clone(), convert(x))).collect())
        }
    }
}

/// The value that a JSON text stands for.
fn json(text: &str) -> Value {
    convert(&serde_json::from_str(text).unwrap())
}

/// The values of a JSON array.
fn rows(text: &str) -> Vec<Value> {
    match json(text) {
        Value::Array(items) => items,
        other => panic!("not an array: {other:?}"),
    }
}

#[test]
fn oracle_substitutes_object_conditions() {
    let sql = substitute_conditions(
        "where OWNER='$owner' AND 'tables:' || TABLE_NAME =OBJECT_ID_CONDITION",
        "HR",
        Some("users"),
    );
    assert!(sql.contains("OWNER='HR'"));
    assert!(sql.contains("TABLE_NAME ='tables:users'"));
    let sql_all = substitute_conditions(
        "where OWNER='$owner' AND 'tables:' || TABLE_NAME =OBJECT_ID_CONDITION",
        "HR",
        None,
    );
    assert!(sql_all.contains("OWNER='HR'"));
    assert!(sql_all.contains("is not null"));
}

#[test]
fn oracle_table_queries_name_the_table_once() {
    let name = NamedObjectInfo {
        pure_name: "USERS".to_string(),
        schema_name: None,
        content_hash: None,
        engine: None,
    };
    let queries = table_analysis_queries("HR", &name);
    assert_eq!(queries.len(), 6);
    for sql in &queries[..5] {
        assert!(sql.contains("'tables:USERS'"));
        assert!(!sql.contains("tables:tables:"));
    }
}

#[test]
fn oracle_quotes_default_values() {
    assert_eq!(quote_default_value("42"), "42");
    assert_eq!(quote_default_value("NULL"), "NULL");
    assert_eq!(quote_default_value("hello"), "'hello'");
}

#[test]
fn trims_trailing_semicolon() {
    assert_eq!(trim_trailing_semicolon("select 1;"), "select 1");
    assert_eq!(trim_trailing_semicolon("select 1"), "select 1");
    assert_eq!(trim_trailing_semicolon("  select 1;  "), "  select 1");
}

#[test]
fn oracle_builds_primary_key_from_rows() {
    let rows = rows(
        r#"[{"pure_name": "users", "constraint_name": "PK_USERS", "column_name": "id"},
            {"pure_name": "users", "constraint_name": "PK_USERS", "column_name": "tenant"}]"#,
    );
    let pk = build_primary_key("users", &rows).unwrap();
    assert_eq!(pk.columns_constraint.columns.len(), 2);
    assert_eq!(pk.columns_constraint.columns[0].column_name, "id");
    assert_eq!(pk.columns_constraint.columns[1].column_name, "tenant");
}

#[test]
fn oracle_computes_full_data_type_names() {
    let row = json(r#"{"data_type": "VARCHAR2", "char_max_length": 250}"#);
    let info = get_column_info(&row, "name", true);
    assert_eq!(info.data_type, "VARCHAR2(250)");

    let row2 = json(r#"{"data_type": "NUMBER", "numeric_precision": 10, "numeric_scale": 2}"#);
    let info2 = get_column_info(&row2, "price", true);
    assert_eq!(info2.data_type, "NUMBER(10,2)");
}

#[test]
fn detects_auto_increment_sequence_default() {
    let row = json(r#"{"data_type": "NUMBER", "default_value": "MY_SEQ.NEXTVAL"}"#);
    let info = get_column_info(&row, "id", true);
    assert_eq!(info.auto_increment, Some(true));
    assert_eq!(info.default_value, None);
}

#[test]
fn oracle_driver_describes_itself() {
    assert_eq!(OracleDriver::new().engine(), ORACLE_ENGINE);
    assert_eq!(OracleDriver::new().title(), "OracleDB");
    assert_eq!(OracleDriver::new().capabilities().default_port, Some(1521));
}

#[test]
fn oracle_timestamps_are_iso() {
    assert_eq!(timestamp_to_iso(2024, 1, 2, 3, 4, 5), "2024-01-02T03:04:05");
    assert_eq!(
        cell_value(CellKind::Number, &Some(OracleCell::Number("1.50".to_string()))),
        Value::Str("1.50".to_string())
    );
    assert_eq!(cell_value(CellKind::Text, &None), Value::Null);
}

#[test]
fn oracle_connect_strings_name_the_server() {
    let mut def = ConnectionDefinition::default();
    def.server = Some("db".to_string());
    assert_eq!(connect_string(&def), "db:1521");
    def.port = Some(1522);
    assert_eq!(connect_string(&def), "db:1522");
    def.auth_type = Some("url".to_string());
    def.database = Some("//host/service".to_string());
    assert_eq!(connect_string(&def), "//host/service");
    assert_eq!(current_schema_sql("HR"), "ALTER SESSION SET CURRENT_SCHEMA = \"HR\"");
}

#[test]
fn oracle_versions_are_dotted() {
    let v = server_version((19, 3, 0, 1, 2));
    assert_eq!(v.version, "19.3.0.1.2");
    assert_eq!(v.version_text.as_deref(), Some("Oracle 19c"));
}

#[test]
fn oracle_columns_by_given_letter_case() {
    let row = json(r#"{"data_type": "Raw", "char_max_length": 16}"#);
    assert_eq!(column_info_with(&row, "id", true, "raw").data_type, "Raw(16)");
    assert_eq!(column_info_with(&row, "id", true, "blob").data_type, "Raw");
    assert_eq!(get_column_info(&row, "id", true).data_type, "Raw(16)");
}

#[test]
fn oracle_triggers_by_given_letter_case() {
    let row = json(r#"{"trigger_name": "T", "table_name": "USERS", "trigger_timing": "Before", "event_type": "Update"}"#);
    let info = trigger_info_with(&row, "BEFORE", "UPDATE");
    assert!(matches!(info.trigger_timing, Some(TriggerTiming::Before)));
    assert!(matches!(info.event_type, Some(TriggerEventType::Update)));
    assert!(trigger_info_with(&row, "AFTER", "TRUNCATE").event_type.is_none());
}
