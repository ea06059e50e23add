//! The Firebird driver.
use dbgate::connection::ConnectionDefinition;
use dbgate::dbinfo::{NamedObjectInfo, TriggerEventType, TriggerTiming};
use dbgate::drivers::firebird::{
    analyse_firebird_table, build_connection, build_primary_key, cell_value, column_info_with,
    data_type_string, full_analysis_queries, get_column_info, get_trigger_create_sql, query_result,
    raw_type_to_name, substitute_conditions, table_analysis_queries, trigger_event,
    FirebirdCatalog, FirebirdCell, FirebirdDriver, SqlType, FIREBIRD_ENGINE,
};
use dbgate::drivers::firebird_queries::{
    SQL_COLUMNS, SQL_FOREIGN_KEYS, SQL_FUNCTIONS, SQL_FUNCTION_PARAMETERS, SQL_INDEXES,
    SQL_PRIMARY_KEYS, SQL_PROCEDURES, SQL_PROCEDURE_PARAMETERS, SQL_TABLES, SQL_TRIGGERS,
    SQL_UNIQUES, SQL_VIEWS,
};
use dbgate::value::Value;

/// The library's value for a parsed JSON value.
fn convert(v: &serde_json::Value) -> Value {
    match v {
        serde_json::Value::Null => Value::Null,
        serde_json::Value::Bool(b) => Value::Bool(*b),
        serde_json::Value::Number(n) => {
            if let Some(i) = n.as_i64() {
                Value::Int(i as i128)
            } else if let Some(u) = n.as_u64() {
                Value::Int(u as i128)
            } else {
                Value::Double(n.as_f64().unwrap().to_bits())
            }
        }
        serde_json::Value::String(s) => Value::Str(s.clone()),
        serde_json::Value::Array(a) => Value::Array(a.iter().map(convert).collect()),
        serde_json::Value::Object(o) => {
            Value::Object(o.iter().map(|(k, x)| (k.clone(), convert(x))).collect())
        }
    }
}

/// The value that a JSON text stands for.
fn json(text: &str) -> Value {
    convert(&serde_json::from_str(text).unwrap())
}

/// The values of a JSON array.
fn rows(text: &str) -> Vec<Value> {
    match json(text) {
        Value::Array(items) => items,
        other => panic!("not an array: {other:?}"),
    }
}

#[test]
fn firebird_substitutes_object_conditions() {
    let sql = substitute_conditions(
        "WHERE ('tables:' || TRIM(RDB$RELATION_NAME)) =OBJECT_ID_CONDITION",
        Some("USERS"),
    );
    assert!(sql.contains("='tables:USERS'"));
    let sql_all = substitute_conditions(
        "WHERE ('tables:' || TRIM(RDB$RELATION_NAME)) =OBJECT_ID_CONDITION",
        None,
    );
    assert!(sql_all.contains("=is not null"));
}

#[test]
fn firebird_table_queries_name_the_table_once() {
    let name = NamedObjectInfo {
        pure_name: "USERS".to_string(),
        schema_name: None,
        content_hash: None,
        engine: None,
    };
    let queries = table_analysis_queries(&name);
    assert_eq!(queries.len(), 6);
    for sql in queries {
        assert!(sql.contains("'tables:USERS'"));
        assert!(!sql.contains("tables:tables:"));
    }
}

#[test]
fn maps_data_type_codes() {
    assert_eq!(data_type_string(Some(8), None, None, None, None), "integer");
    assert_eq!(data_type_string(Some(37), None, None, Some(100), None), "varchar(100)");
    assert_eq!(data_type_string(Some(7), Some(1), Some(-2), None, Some(8)), "numeric(8, 2)");
    assert_eq!(data_type_string(Some(35), None, None, None, None), "timestamp");
}

#[test]
fn decodes_sql_types() {
    assert_eq!(cell_value(&SqlType::Text("abc".into())), Value::Str("abc".into()));
    assert_eq!(cell_value(&SqlType::Integer(5)), Value::Int(5));
    assert_eq!(cell_value(&SqlType::Boolean(true)), Value::Bool(true));
    assert_eq!(cell_value(&SqlType::Null), Value::Null);
    assert!(matches!(
        cell_value(&SqlType::Floating(1.5f64.to_bits())),
        Value::Double(n) if f64::from_bits(n) == 1.5
    ));
}

#[test]
fn maps_trigger_types() {
    let (t1, e1) = trigger_event(2);
    assert!(matches!(t1, Some(TriggerTiming::After)));
    assert!(matches!(e1, Some(TriggerEventType::Insert)));
    let (t3, e3) = trigger_event(5);
    assert!(matches!(t3, Some(TriggerTiming::Before)));
    assert!(matches!(e3, Some(TriggerEventType::Delete)));
}

#[test]
fn firebird_builds_primary_key_from_rows() {
    let rows = rows(
        r#"[{"pure_name": "users", "constraint_name": "INTEG_1", "column_name": "id"},
            {"pure_name": "users", "constraint_name": "INTEG_1", "column_name": "tenant"}]"#,
    );
    let pk = build_primary_key("users", &rows).unwrap();
    assert_eq!(pk.columns_constraint.columns.len(), 2);
    assert_eq!(pk.columns_constraint.columns[0].column_name, "id");
    assert_eq!(pk.columns_constraint.columns[1].column_name, "tenant");
}

#[test]
fn firebird_driver_describes_itself() {
    let d = FirebirdDriver::new();
    assert_eq!(d.engine(), FIREBIRD_ENGINE);
    assert_eq!(d.title(), "Firebird");
    assert_eq!(d.capabilities().default_port, Some(3050));
}

#[test]
fn firebird_moments_are_written_to_the_second() {
    assert_eq!(
        cell_value(&SqlType::Timestamp(738887, 3661, 5)),
        Value::Str("2024-01-02 01:01:01".to_string())
    );
}

#[test]
fn firebird_bytes_are_text_where_they_can_be() {
    assert_eq!(cell_value(&SqlType::Binary(b"abc".to_vec())), Value::Str("abc".to_string()));
    assert_eq!(
        cell_value(&SqlType::Binary(vec![0xff])),
        json(r#"{"$binary":{"base64":"/w=="}}"#)
    );
}

#[test]
fn firebird_results_take_their_columns_from_the_first_row() {
    let cell = |name: &str, raw_type: u32, value: SqlType| FirebirdCell {
        name: name.to_string(),
        raw_type,
        value,
    };
    let result = query_result(&vec![vec![
        cell("A", 496, SqlType::Integer(1)),
        cell("B", 448, SqlType::Text("x".to_string())),
    ]]);
    assert_eq!(result.columns.len(), 2);
    assert_eq!(result.columns[0].column_name, "A");
    assert_eq!(result.columns[0].data_type, raw_type_to_name(496));
    assert_eq!(result.rows, vec![json(r#"{"A":1,"B":"x"}"#)]);
}

#[test]
fn firebird_needs_a_database_file() {
    let mut def = ConnectionDefinition::default();
    match build_connection(&def) {
        Err(e) => assert_eq!(e.message, "Firebird connection requires a database file path"),
        Ok(_) => panic!("expected an error"),
    }
    def.database_file = Some("/data/a.fdb".to_string());
    let c = build_connection(&def).unwrap();
    assert_eq!(c.host, "localhost");
    assert_eq!(c.port, 3050);
    assert_eq!(c.user, "SYSDBA");
    assert_eq!(c.database, "/data/a.fdb");
}

#[test]
fn firebird_triggers_are_shown_as_statements() {
    let sql = get_trigger_create_sql(
        "T1",
        "USERS",
        "AS BEGIN END",
        Some(TriggerTiming::After),
        Some(TriggerEventType::Insert),
    );
    assert_eq!(sql, "CREATE OR ALTER TRIGGER \"T1\" AFTER INSERT ON \"USERS\" AS BEGIN END;");
}

#[test]
fn firebird_missing_tables_are_reported() {
    let catalog = FirebirdCatalog {
        tables: Vec::new(),
        columns: Vec::new(),
        primary_keys: Vec::new(),
        foreign_keys: Vec::new(),
        indexes: Vec::new(),
        views: Vec::new(),
        procedures: Vec::new(),
        procedure_parameters: Vec::new(),
        functions: Vec::new(),
        function_parameters: Vec::new(),
        triggers: Vec::new(),
        uniques: Vec::new(),
    };
    let name = NamedObjectInfo {
        pure_name: "nope".to_string(),
        schema_name: None,
        content_hash: None,
        engine: None,
    };
    assert!(analyse_firebird_table(&name, &catalog).is_err());
    assert!(!full_analysis_queries(&Vec::new()).is_empty());
}

#[test]
fn firebird_queries_name_the_columns_that_are_read() {
    let expected: Vec<(&str, Vec<&str>)> = vec![
        (SQL_TABLES, vec!["pure_name", "object_comment", "object_type_field"]),
        (SQL_VIEWS, vec!["pure_name", "object_comment"]),
        (
            SQL_COLUMNS,
            vec![
                "pure_name", "column_name", "notNull", "dataTypeCode", "subType", "precision",
                "scale", "length", "defaultValue",
            ],
        ),
        (SQL_PRIMARY_KEYS, vec!["pure_name", "constraint_name", "column_name"]),
        (SQL_UNIQUES, vec!["pure_name", "constraint_name", "column_name"]),
        (
            SQL_INDEXES,
            vec![
                "pure_name", "constraint_name", "column_name", "is_unique", "index_type",
                "is_descending",
            ],
        ),
        (
            SQL_FOREIGN_KEYS,
            vec![
                "pure_name", "constraint_name", "column_name", "ref_column_name", "ref_table_name",
            ],
        ),
        (SQL_TRIGGERS, vec!["pure_name", "table_name", "trigger_type", "trigger_body_sql"]),
        (SQL_PROCEDURES, vec!["pure_name", "object_type_field", "create_sql"]),
        (SQL_FUNCTIONS, vec!["pure_name", "object_type_field", "legacy_flag", "create_sql"]),
        (SQL_PROCEDURE_PARAMETERS, vec!["owning_object_name", "parameter_name", "position"]),
        (SQL_FUNCTION_PARAMETERS, vec!["owning_object_name", "parameter_name", "position"]),
    ];
    for (sql, names) in expected {
        for name in names {
            let lower = format!(" as \"{name}\"");
            assert!(sql.contains(&format!(" AS \"{name}\"")) || sql.contains(&lower), "{name}");
        }
    }
}

#[test]
fn firebird_columns_by_given_letter_case() {
    let row = json(r#"{"dataTypeCode": 8, "notNull": 1, "defaultValue": "default Identity"}"#);
    let info = column_info_with(&row, "ID", "DEFAULT IDENTITY");
    assert_eq!(info.auto_increment, Some(true));
    assert_eq!(info.default_value, None);
    assert_eq!(info.not_null, Some(true));
    assert_eq!(get_column_info(&row, "ID").auto_increment, Some(true));
    let info = column_info_with(&row, "ID", "");
    assert_eq!(info.auto_increment, Some(false));
    assert_eq!(info.default_value.as_deref(), Some("Identity"));
}
