//! The SQL Server driver.
use base64::Engine;
use dbgate::driver::StreamTally;
use dbgate::drivers::mssql::{
    build_foreign_keys, build_primary_key, cell_to_json, cell_value, column_type_name,
    full_data_type_name, resolve_object_id, server_version, split_sql, statement_events,
    strip_outer_parens, substitute_conditions, ColumnData, ColumnType, Moment, MssqlDriver,
    MSSQL_ENGINE,
};
use dbgate::dbinfo::NamedObjectInfo;
use dbgate::value::Value;

/// The library's value for a parsed JSON value.
fn convert(v: &serde_json::Value) -> Value {
    match v {
        serde_json::Value::Null => Value::Null,
        serde_json::Value::Bool(b) => Value::Bool(*b),
        serde_json::Value::Number(n) => {
            if let Some(i) = n.as_i64() {
                Value::Int(i as i128)
            } else if let Some(u) = n.as_u64() {
                Value::Int(u as i128)
            } else {
                Value::Double(n.as_f64().unwrap().to_bits())
            }
        }
        serde_json::Value::String(s) => Value::Str(s.clone()),
        serde_json::Value::Array(a) => Value::Array(a.iter().map(convert).collect()),
        serde_json::Value::Object(o) => {
            Value::Object(o.iter().map(|(k, x)| (k.clone(), convert(x))).collect())
        }
    }
}

/// The value that a JSON text stands for.
fn json(text: &str) -> Value {
    convert(&serde_json::from_str(text).unwrap())
}

/// The values of a JSON array.
fn rows(text: &str) -> Vec<Value> {
    match json(text) {
        Value::Array(items) => items,
        other => panic!("not an array: {other:?}"),
    }
}

/// The serde value for one of the library.
fn plain(v: &Value) -> serde_json::Value {
    match v {
        Value::Null => serde_json::Value::Null,
        Value::Bool(b) => serde_json::Value::Bool(*b),
        Value::Int(n) => match i64::try_from(*n) {
            Ok(i) => serde_json::Value::from(i),
            Err(_) => serde_json::Value::from(*n as u64),
        },
        Value::Double(d) => serde_json::Value::from(f64::from_bits(*d)),
        Value::Str(s) => serde_json::Value::from(s.as_str()),
        Value::Array(a) => serde_json::Value::Array(a.iter().map(plain).collect()),
        Value::Object(o) => {
            serde_json::Value::Object(o.iter().map(|(k, x)| (k.clone(), plain(x))).collect())
        }
    }
}

#[test]
fn mssql_substitutes_object_and_schema_conditions() {
    let tpl = "where o.object_id =OBJECT_ID_CONDITION and s.name =SCHEMA_NAME_CONDITION";
    // Full analysis: no filter -> is not null
    assert_eq!(
        substitute_conditions(tpl, None, None),
        "where o.object_id  is not null and s.name  is not null"
    );
    // Single object
    assert_eq!(
        substitute_conditions(tpl, Some("55"), Some("dbo")),
        "where o.object_id  = '55' and s.name  = 'dbo'"
    );
}

#[test]
fn mssql_computes_full_data_type_names() {
    assert_eq!(full_data_type_name("nvarchar", Some(50), None, None), "nvarchar(50)");
    assert_eq!(full_data_type_name("varchar", Some(-1), None, None), "varchar(MAX)");
    assert_eq!(full_data_type_name("decimal", None, Some(18), Some(2)), "decimal(18,2)");
    assert_eq!(full_data_type_name("int", None, None, None), "int");
}

#[test]
fn strips_outer_parens_recursively() {
    assert_eq!(strip_outer_parens("((5))".to_string()), "5");
    assert_eq!(strip_outer_parens("(getdate())".to_string()), "getdate()");
    assert_eq!(strip_outer_parens("plain".to_string()), "plain");
}

#[test]
fn splits_sql_on_semicolons_respecting_quotes_and_brackets() {
    let sql = "SELECT 'a;b' AS x; SELECT * FROM [t;bl];";
    let parts = split_sql(sql);
    assert_eq!(parts.len(), 2);
    assert!(parts[0].contains("'a;b'"));
    assert!(parts[1].contains("[t;bl]"));
}

#[test]
fn maps_column_types_to_sql_names() {
    assert_eq!(column_type_name(ColumnType::Int4), "int");
    assert_eq!(column_type_name(ColumnType::NVarchar), "nvarchar");
    assert_eq!(column_type_name(ColumnType::Decimaln), "decimal");
    assert_eq!(column_type_name(ColumnType::Daten), "date");
}

#[test]
fn maps_cells_to_json() {
    assert_eq!(cell_to_json(&ColumnData::I32(Some(42))), Value::Int(42));
    assert_eq!(cell_to_json(&ColumnData::I32(None)), Value::Null);
    assert_eq!(cell_to_json(&ColumnData::Bit(Some(true))), Value::Bool(true));
    assert_eq!(
        cell_to_json(&ColumnData::Text(Some("hi".to_string()))),
        Value::Str("hi".to_string())
    );
    // binary -> $binary.base64
    let bin = ColumnData::Binary(Some(vec![0u8, 1, 2, 255]));
    let v = plain(&cell_to_json(&bin));
    assert_eq!(
        v["$binary"]["base64"],
        serde_json::Value::from(
            base64::engine::general_purpose::STANDARD.encode([0u8, 1, 2, 255])
        )
    );
}

#[test]
fn groups_foreign_keys_by_constraint() {
    let mk_row = |name: &str, col: &str, ref_col: &str| {
        json(&format!(
            r#"{{"pureName":"T","schemaName":"dbo","constraintName":"{name}","columnName":"{col}",
                "refColumnName":"{ref_col}","refTableName":"R","refSchemaName":"dbo"}}"#
        ))
    };
    let rows = vec![
        mk_row("FK1", "a", "x"),
        mk_row("FK1", "b", "y"),
        mk_row("FK_OTHER", "c", "z"),
    ];
    let table = json(r#"{ "pureName": "T", "schemaName": "dbo" }"#);
    let fks = build_foreign_keys(&table, &rows);
    assert_eq!(fks.len(), 2);
    let fk1 = fks
        .iter()
        .find(|f| f.columns_constraint.constraint.constraint_name.as_deref() == Some("FK1"))
        .unwrap();
    assert_eq!(fk1.columns_constraint.columns.len(), 2);
    assert_eq!(fk1.columns_constraint.columns[0].column_name, "a");
    assert_eq!(fk1.columns_constraint.columns[0].ref_column_name.as_deref(), Some("x"));
}

#[test]
fn mssql_builds_primary_key_from_rows() {
    let mk_row = |col: &str| {
        json(&format!(
            r#"{{"pureName":"T","schemaName":"dbo","columnName":"{col}","constraintName":"PK_T"}}"#
        ))
    };
    let rows = vec![mk_row("id"), mk_row("name")];
    let table = json(r#"{ "pureName": "T", "schemaName": "dbo" }"#);
    let pk = build_primary_key(&table, &rows).expect("pk");
    assert_eq!(pk.columns_constraint.columns.len(), 2);
    assert_eq!(pk.columns_constraint.columns[0].column_name, "id");
}

#[test]
fn mssql_driver_describes_itself() {
    assert_eq!(MssqlDriver::new().engine(), MSSQL_ENGINE);
    assert_eq!(MssqlDriver::new().title(), "SQL Server");
    assert_eq!(MssqlDriver::new().capabilities().default_port, Some(1433));
}

#[test]
fn mssql_moments_are_written_by_their_type() {
    let at = |ty, m| cell_value(ty, Some(m), &ColumnData::Temporal);
    assert_eq!(at(ColumnType::Daten, Moment::Date(738887)), Value::Str("2024-01-02".to_string()));
    assert_eq!(
        at(ColumnType::Timen, Moment::Time(3661, 0)),
        Value::Str("01:01:01".to_string())
    );
    assert_eq!(
        at(ColumnType::Datetime2, Moment::DateTime(738887, 3661, 0)),
        Value::Str("2024-01-02 01:01:01".to_string())
    );
    assert_eq!(
        at(ColumnType::DatetimeOffsetn, Moment::DateTimeOffset(738887, 3661, 0, 3600)),
        Value::Str("2024-01-02 02:01:01 +01:00".to_string())
    );
}

#[test]
fn mssql_guids_are_hyphenated() {
    let bytes = [0x12, 0x3e, 0x45, 0x67, 0xe8, 0x9b, 0x12, 0xd3, 0xa4, 0x56, 0x42, 0x66, 0x14, 0x17, 0x40, 0x00];
    assert_eq!(
        cell_to_json(&ColumnData::Guid(Some(bytes))),
        Value::Str("123e4567-e89b-12d3-a456-426614174000".to_string())
    );
}

#[test]
fn mssql_versions_fall_back() {
    let v = server_version(&rows(r#"[{"version":"text","productVersion":"15.0"}]"#));
    assert_eq!(v.version, "15.0");
    assert_eq!(server_version(&Vec::new()).version, "unknown");
}

#[test]
fn mssql_object_ids_are_looked_up() {
    let name = NamedObjectInfo {
        pure_name: "nope".to_string(),
        schema_name: None,
        content_hash: None,
        engine: None,
    };
    assert!(resolve_object_id(&name, &None, &Vec::new()).is_err());
}

#[test]
fn mssql_streams_count_rows() {
    let mut tally = StreamTally::new();
    let events = statement_events(&mut tally, Vec::new(), Vec::new());
    assert!(events.is_empty());
    assert_eq!(tally.finish().len(), 1);
}
