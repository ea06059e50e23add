//! The MySQL and MariaDB drivers.
use dbgate::connection::ConnectionDefinition;
use dbgate::dbinfo::{
    NamedObjectInfo, ParameterInfo, ParameterMode, TriggerEventType, TriggerTiming,
};
use dbgate::drivers::common::parameter_ddl_entry;
use dbgate::drivers::mysql::{
    build_opts, build_primary_key, column_info_with, get_column_info, list_databases,
    named_version, on_update_expression, quote_default_value, server_version,
    substitute_condition, table_analysis_queries, trigger_info_with, value_to_json, MariaDbDriver,
    MySqlCell, MySqlDriver, MARIADB_ENGINE, MYSQL_ENGINE,
};
use dbgate::value::Value;

/// The library's value for a parsed JSON value.
fn convert(v: &serde_json::Value) -> Value {
    match v {
        serde_json::Value::Null => Value::Null,
        serde_json::Value::Bool(b) => Value::Bool(*b),
        serde_json::Value::Number(n) => {
            if let Some(i) = n.as_i64() {
                Value::Int(i as i128)
            } else if let Some(u) = n.as_u64() {
                Value::Int(u as i128)
            } else {
                Value::Double(n.as_f64().unwrap().to_bits())
            }
        }
        serde_json::Value::String(s) => Value::Str(s.clone()),
        serde_json::Value::Array(a) => Value::Array(a.iter().map(convert).collect()),
        serde_json::Value::Object(o) => {
            Value::Object(o.iter().map(|(k, x)| (k.clone(), convert(x))).collect())
        }
    }
}

/// The value that a JSON text stands for.
fn json(text: &str) -> Value {
    convert(&serde_json::from_str(text).unwrap())
}

/// The values of a JSON array.
fn rows(text: &str) -> Vec<Value> {
    match json(text) {
        Value::Array(items) => items,
        other => panic!("not an array: {other:?}"),
    }
}

#[test]
fn mysql_substitutes_object_conditions() {
    let sql = substitute_condition(
        "where TABLE_SCHEMA = '#DATABASE#' and TABLE_NAME =OBJECT_ID_CONDITION",
        "mydb",
        Some("users"),
    );
    assert!(sql.contains("TABLE_SCHEMA = 'mydb'"));
    assert!(sql.contains("TABLE_NAME = 'users'") || sql.contains("TABLE_NAME  = 'users'"));
    let sql_all = substitute_condition(
        "where TABLE_SCHEMA = '#DATABASE#' and TABLE_NAME =OBJECT_ID_CONDITION",
        "mydb",
        None,
    );
    assert!(sql_all.contains("TABLE_SCHEMA = 'mydb'"));
    assert!(sql_all.contains("is not null"));
}

#[test]
fn mysql_builds_primary_key_from_rows() {
    let rows = rows(
        r#"[{"pureName": "users", "constraintName": "PRIMARY", "columnName": "id"},
            {"pureName": "users", "constraintName": "PRIMARY", "columnName": "tenant"}]"#,
    );
    let pk = build_primary_key("users", &rows).unwrap();
    assert_eq!(pk.columns_constraint.columns.len(), 2);
    assert_eq!(pk.columns_constraint.columns[0].column_name, "id");
    assert_eq!(pk.columns_constraint.columns[1].column_name, "tenant");
}

#[test]
fn mysql_quotes_default_values() {
    assert_eq!(quote_default_value("42"), "42");
    assert_eq!(quote_default_value("CURRENT_TIMESTAMP"), "CURRENT_TIMESTAMP");
    assert_eq!(quote_default_value("hello"), "'hello'");
    assert_eq!(quote_default_value("NULL"), "NULL");
}

#[test]
fn maps_binary_and_precision_types() {
    let j = value_to_json(&MySqlCell::Bytes(vec![1, 2, 3]), "MYSQL_TYPE_BLOB");
    assert_eq!(j, json(r#"{"$binary": {"base64": "AQID"}}"#));
    let j = value_to_json(&MySqlCell::Int(123456789012345678), "MYSQL_TYPE_LONGLONG");
    assert_eq!(j, json(r#""123456789012345678""#));
    let j = value_to_json(&MySqlCell::Int(42), "MYSQL_TYPE_LONG");
    assert_eq!(j, json("42"));
}

#[test]
fn mysql_computes_full_data_type_names() {
    let row = json(
        r#"{"dataType": "varchar", "charMaxLength": 250, "columnType": "varchar(250)"}"#,
    );
    let info = get_column_info(&row, "name", true);
    assert_eq!(info.data_type, "varchar(250)");

    let row2 = json(
        r#"{"dataType": "decimal", "numericPrecision": 10, "numericScale": 2, "columnType": "decimal(10,2)"}"#,
    );
    let info2 = get_column_info(&row2, "price", true);
    assert_eq!(info2.data_type, "decimal(10,2)");
}

#[test]
fn mysql_drivers_describe_themselves() {
    assert_eq!(MySqlDriver::new().engine(), MYSQL_ENGINE);
    assert_eq!(MariaDbDriver::new().engine(), MARIADB_ENGINE);
    assert_eq!(MariaDbDriver::new().title(), "MariaDB");
    assert_eq!(MySqlDriver::new().capabilities(), MariaDbDriver::new().capabilities());
    assert_eq!(MySqlDriver::new().capabilities().default_port, Some(3306));
}

#[test]
fn mysql_options_need_a_server() {
    let mut def = ConnectionDefinition::default();
    assert!(build_opts(&def).is_err());
    def.server = Some("db".to_string());
    assert_eq!(build_opts(&def).ok().unwrap().port, 3306);
}

#[test]
fn mysql_cells_of_other_kinds() {
    assert_eq!(value_to_json(&MySqlCell::Null, "MYSQL_TYPE_LONG"), Value::Null);
    assert_eq!(
        value_to_json(&MySqlCell::Bytes(b"abc".to_vec()), "MYSQL_TYPE_VAR_STRING"),
        Value::Str("abc".to_string())
    );
}

#[test]
fn mysql_server_metadata() {
    let v = server_version(&rows(r#"[{"Value":"10.11.2-MariaDB-1"}]"#));
    assert_eq!(v.version, "10.11.2-MariaDB-1");
    assert_eq!(v.version_text.as_deref(), Some("MariaDB 10.11.2"));
    let v = server_version(&rows(r#"[{"Value":"8.0.36"}]"#));
    assert_eq!(v.version_text.as_deref(), Some("MySQL 8.0.36"));
    let dbs = list_databases(&rows(r#"[{"Database":"a"},{"other":"b"},{"Database":"c"}]"#));
    let names: Vec<&str> = dbs.iter().map(|d| d.name.as_str()).collect();
    assert_eq!(names, vec!["a", "c"]);
}

#[test]
fn mysql_table_queries_name_the_bare_table() {
    let name = NamedObjectInfo {
        pure_name: "users".to_string(),
        schema_name: None,
        content_hash: None,
        engine: None,
    };
    let queries = table_analysis_queries("mydb", &name);
    assert_eq!(queries.len(), 6);
    for sql in &queries[..5] {
        assert!(sql.contains(" = 'users'"));
        assert!(!sql.contains("tables:"));
    }
}

#[test]
fn mysql_columns_say_whether_they_take_null() {
    let no = json(r#"{"dataType": "int", "isNullable": "NO"}"#);
    assert_eq!(get_column_info(&no, "id", true).not_null, Some(true));
    let yes = json(r#"{"dataType": "int", "isNullable": "YES"}"#);
    assert_eq!(get_column_info(&yes, "id", true).not_null, Some(false));
    let unknown = json(r#"{"dataType": "int"}"#);
    assert_eq!(get_column_info(&unknown, "id", true).not_null, Some(false));
}

#[test]
fn mysql_on_update_expressions() {
    let row = json(r#"{"dataType": "timestamp", "extra": "DEFAULT_GENERATED on update CURRENT_TIMESTAMP"}"#);
    assert_eq!(
        get_column_info(&row, "at", true).on_update_expression.as_deref(),
        Some("CURRENT_TIMESTAMP")
    );
    let row = json(r#"{"dataType": "timestamp", "extra": "ON UPDATE now()"}"#);
    assert_eq!(get_column_info(&row, "at", true).on_update_expression.as_deref(), Some("now()"));
    let row = json(r#"{"dataType": "int", "extra": "auto_increment"}"#);
    assert_eq!(get_column_info(&row, "id", true).on_update_expression, None);
}

#[test]
fn mysql_on_update_counts_bytes() {
    // The capital dotted I takes two bytes, its small form three.
    let extra = "\u{130} ON UPDATE now()";
    let low = extra.to_lowercase();
    assert_eq!(low.find("on update"), Some(4));
    assert_eq!(on_update_expression(extra, &low).as_deref(), Some("now()"));
    assert_eq!(on_update_expression("\u{130}ON UPDATEnow()", "i\u{307}on update").as_deref(), Some("ow()"));
    // Behind the text, or within a character of it.
    assert_eq!(on_update_expression("short", "xx on update y"), None);
    assert_eq!(on_update_expression("12345678\u{e9}rest", "on update"), None);
    assert_eq!(on_update_expression("on update x", "nothing"), None);
}

#[test]
fn mysql_columns_by_given_letter_case() {
    let row = json(r#"{"dataType": "enum", "columnType": "ENUM('a','b')", "extra": "E", "defaultValue": "a"}"#);
    let info = column_info_with(&row, "kind", true, "auto_increment", "enum(");
    assert_eq!(info.data_type, "ENUM('a','b')");
    assert_eq!(info.auto_increment, Some(true));
    assert_eq!(info.default_value, None);
    let info = column_info_with(&row, "kind", true, "", "varchar(1)");
    assert_eq!(info.data_type, "enum");
    assert_eq!(info.default_value.as_deref(), Some("'a'"));
    assert_eq!(get_column_info(&row, "kind", true).data_type, "ENUM('a','b')");
}

#[test]
fn mysql_versions_by_given_suffix() {
    assert_eq!(named_version("10.11.2-MARIADB", "-mariadb"), "MariaDB 10.11.2");
    assert_eq!(named_version("10.11.2-MARIADB", "-log"), "MySQL 10.11.2-MARIADB");
    assert_eq!(named_version("8.0.36", "mariadb"), "MySQL 8.0.36");
}

#[test]
fn mysql_triggers_by_given_letter_case() {
    let row = json(
        r#"{"triggerName": "t", "tableName": "users", "triggerTiming": "after", "eventType": "truncate", "definition": "BEGIN END"}"#,
    );
    let info = trigger_info_with(&row, "AFTER", "TRUNCATE");
    assert!(matches!(info.trigger_timing, Some(TriggerTiming::After)));
    assert!(matches!(info.event_type, Some(TriggerEventType::Truncate)));
    assert_eq!(
        info.object.create_sql.as_deref(),
        Some("CREATE TRIGGER t after truncate ON users FOR EACH ROW BEGIN END")
    );
    let info = trigger_info_with(&row, "INSTEAD OF", "MERGE");
    assert!(matches!(info.trigger_timing, Some(TriggerTiming::InsteadOf)));
    assert!(info.event_type.is_none());
}

#[test]
fn mysql_parameters_by_given_letter_case() {
    let p = ParameterInfo {
        parameter_name: "id".to_string(),
        data_type: "int".to_string(),
        parameter_mode: Some(ParameterMode::In),
        position: Some(1),
    };
    assert_eq!(parameter_ddl_entry(&p, "INT"), "IN id INT");
    let p = ParameterInfo {
        parameter_name: "all".to_string(),
        data_type: String::new(),
        parameter_mode: Some(ParameterMode::InOut),
        position: None,
    };
    assert_eq!(parameter_ddl_entry(&p, "INT"), "INOUT all");
}
