//! The Cassandra driver.
use dbgate::connection::ConnectionDefinition;
use dbgate::dbinfo::{
    ColumnInfo, ColumnReference, ColumnsConstraintInfo, ConstraintInfo, ConstraintType,
    DatabaseObjectInfo, NamedObjectInfo, PrimaryKeyInfo, TableInfo,
};
use dbgate::drivers::cassandra::{
    build_config, build_primary_key, collect_columns, column_type_string, cql_value_to_json,
    hydrate_keyspace_query, native_type_string, parse_contact_points, row_to_value, result_column,
    CassandraDriver, CollectionType, ColumnType, CqlValue, NativeType,
};
use dbgate::drivers::cassandra_queries::SQL_TABLES;
use dbgate::drivers::cassandra_write::{
    blob_of, build_insert_sql, create_table_sql, escape_string, full_name_quoted, is_uuid_literal,
    quote_escaped, quote_identifier, should_add_uuid_pk_info, write_table_statements, CellText,
    InsertRow,
};
use dbgate::drivers::cassandra_write::cql_literal as literal_with_texts;
use dbgate::drivers::common::object_info;
use dbgate::driver::WriteTableOptions;
use dbgate::value::Value;

/// The library's value for a parsed JSON value.
fn convert(v: &serde_json::Value) -> Value {
    match v {
        serde_json::Value::Null => Value::Null,
        serde_json::Value::Bool(b) => Value::Bool(*b),
        serde_json::Value::Number(n) => {
            if let Some(i) = n.as_i64() {
                Value::Int(i as i128)
            } else if let Some(u) = n.as_u64() {
                Value::Int(u as i128)
            } else {
                Value::Double(n.as_f64().unwrap().to_bits())
            }
        }
        serde_json::Value::String(s) => Value::Str(s.clone()),
        serde_json::Value::Array(a) => Value::Array(a.iter().map(convert).collect()),
        serde_json::Value::Object(o) => {
            Value::Object(o.iter().map(|(k, x)| (k.clone(), convert(x))).collect())
        }
    }
}

/// The value that a JSON text stands for.
fn json(text: &str) -> Value {
    convert(&serde_json::from_str(text).unwrap())
}

/// The values of a JSON array.
fn rows(text: &str) -> Vec<Value> {
    match json(text) {
        Value::Array(items) => items,
        other => panic!("not an array: {other:?}"),
    }
}

/// The serde value for one of the library.
fn plain(v: &Value) -> serde_json::Value {
    match v {
        Value::Null => serde_json::Value::Null,
        Value::Bool(b) => serde_json::Value::Bool(*b),
        Value::Int(n) => match i64::try_from(*n) {
            Ok(i) => serde_json::Value::from(i),
            Err(_) => serde_json::Value::from(*n as u64),
        },
        Value::Double(d) => serde_json::Value::from(f64::from_bits(*d)),
        Value::Str(s) => serde_json::Value::from(s.as_str()),
        Value::Array(a) => serde_json::Value::Array(a.iter().map(plain).collect()),
        Value::Object(o) => {
            serde_json::Value::Object(o.iter().map(|(k, x)| (k.clone(), plain(x))).collect())
        }
    }
}

/// The texts of a cell.
fn texts_of(value: &Value) -> CellText {
    CellText {
        json: plain(value).to_string(),
        number: match value {
            Value::Str(s) => s.parse::<f64>().ok().map(|f| f.to_string()),
            _ => None,
        },
    }
}

fn cql_literal(value: &Value, data_type: Option<&str>) -> String {
    literal_with_texts(value, data_type, &texts_of(value))
}

fn insert_row(row: Value, columns: &Vec<ColumnInfo>) -> InsertRow {
    let texts = columns
        .iter()
        .map(|c| texts_of(row.get(&c.column_name).unwrap_or(&Value::Null)))
        .collect();
    InsertRow { row, texts }
}

fn db_object_info(name: &str) -> DatabaseObjectInfo {
    object_info(name.to_string(), None, None, None)
}

fn column(name: &str, data_type: &str) -> ColumnInfo {
    ColumnInfo {
        column_name: name.to_string(),
        data_type: data_type.to_string(),
        ..Default::default()
    }
}

#[test]
fn parses_single_contact_point() {
    let def = ConnectionDefinition {
        server: Some("127.0.0.1".to_string()),
        port: Some(9042),
        ..Default::default()
    };
    let points = parse_contact_points(&def).unwrap();
    assert_eq!(points, vec!["127.0.0.1:9042"]);
}

#[test]
fn parses_multiple_contact_points() {
    let def = ConnectionDefinition {
        server: Some("host1, host2".to_string()),
        port: Some(9043),
        ..Default::default()
    };
    let points = parse_contact_points(&def).unwrap();
    assert_eq!(points, vec!["host1:9043", "host2:9043"]);
}

#[test]
fn strips_cassandra_scheme_prefix() {
    let def = ConnectionDefinition {
        server: Some("cassandra://10.0.0.1".to_string()),
        ..Default::default()
    };
    let points = parse_contact_points(&def).unwrap();
    assert_eq!(points, vec!["10.0.0.1:9042"]);
}

#[test]
fn preserves_existing_port() {
    let def = ConnectionDefinition {
        server: Some("host1:19042".to_string()),
        port: Some(9042),
        ..Default::default()
    };
    let points = parse_contact_points(&def).unwrap();
    assert_eq!(points, vec!["host1:19042"]);
}

#[test]
fn returns_error_for_empty_server() {
    let def = ConnectionDefinition { server: None, ..Default::default() };
    assert!(parse_contact_points(&def).is_err());
}

#[test]
fn hydrates_keyspace_query() {
    let sql = hydrate_keyspace_query(SQL_TABLES, "my_keyspace").unwrap();
    assert!(sql.contains("keyspace_name='my_keyspace'"));
}

#[test]
fn rejects_keyspace_with_single_quote() {
    assert!(hydrate_keyspace_query(SQL_TABLES, "key'space").is_err());
}

#[test]
fn maps_native_type_to_string() {
    assert_eq!(native_type_string(&NativeType::Int), "int");
    assert_eq!(native_type_string(&NativeType::Text), "text");
    assert_eq!(native_type_string(&NativeType::Boolean), "boolean");
    assert_eq!(native_type_string(&NativeType::Timestamp), "timestamp");
}

#[test]
fn builds_primary_key_from_analyser_rows() {
    let columns = rows(
        r#"[{"pureName": "users", "columnName": "id", "kind": "partition_key"},
            {"pureName": "users", "columnName": "name", "kind": "clustering"},
            {"pureName": "users", "columnName": "email", "kind": "regular"},
            {"pureName": "other", "columnName": "x", "kind": "partition_key"}]"#,
    );
    let pk = build_primary_key("users", &columns).unwrap();
    assert_eq!(pk.columns_constraint.columns.len(), 2);
    assert_eq!(pk.columns_constraint.columns[0].column_name, "id");
    assert_eq!(pk.columns_constraint.columns[1].column_name, "name");
}

#[test]
fn returns_none_for_no_pk_columns() {
    let columns = rows(r#"[{"pureName": "t", "columnName": "a", "kind": "regular"}]"#);
    assert!(build_primary_key("t", &columns).is_none());
}

#[test]
fn collects_columns_for_table() {
    let columns = rows(
        r#"[{"pureName": "t1", "columnName": "a", "dataType": "int"},
            {"pureName": "t1", "columnName": "b", "dataType": "text"},
            {"pureName": "t2", "columnName": "x", "dataType": "boolean"}]"#,
    );
    let cols = collect_columns(&columns, "t1");
    assert_eq!(cols.len(), 2);
    assert_eq!(cols[0].column_name, "a");
    assert_eq!(cols[1].column_name, "b");
}

#[test]
fn cql_value_boolean_to_json() {
    assert_eq!(cql_value_to_json(&CqlValue::Boolean(true)), Value::Bool(true));
    assert_eq!(cql_value_to_json(&CqlValue::Boolean(false)), Value::Bool(false));
}

#[test]
fn cql_value_int_to_json() {
    assert_eq!(cql_value_to_json(&CqlValue::Int(42)), Value::Int(42));
}

#[test]
fn cql_value_text_to_json() {
    assert_eq!(
        cql_value_to_json(&CqlValue::Text("hello".into())),
        Value::Str("hello".into())
    );
}

#[test]
fn cql_value_empty_to_json() {
    assert_eq!(cql_value_to_json(&CqlValue::Empty), Value::Null);
}

#[test]
fn cql_value_list_to_json() {
    let val = CqlValue::List(vec![CqlValue::Int(1), CqlValue::Int(2)]);
    let json = plain(&cql_value_to_json(&val));
    assert!(json.is_array());
    assert_eq!(json.as_array().unwrap().len(), 2);
}

#[test]
fn cql_value_map_to_json() {
    let val = CqlValue::MapOf(vec![
        (CqlValue::Text("a".into()), "a".to_string(), CqlValue::Int(1)),
        (CqlValue::Text("b".into()), "b".to_string(), CqlValue::Int(2)),
    ]);
    let json = plain(&cql_value_to_json(&val));
    assert!(json.is_object());
    assert_eq!(json["a"], serde_json::Value::from(1));
    assert_eq!(json["b"], serde_json::Value::from(2));
}

#[test]
fn cql_value_counter_to_json() {
    assert_eq!(cql_value_to_json(&CqlValue::Counter(100)), Value::Int(100));
}

#[test]
fn column_type_string_native() {
    assert_eq!(column_type_string(&ColumnType::Native(NativeType::Int)), "int");
}

#[test]
fn column_type_string_list() {
    let ct = ColumnType::Collection {
        frozen: false,
        typ: CollectionType::List(Box::new(ColumnType::Native(NativeType::Text))),
    };
    assert_eq!(column_type_string(&ct), "list<text>");
}

#[test]
fn column_type_string_map() {
    let ct = ColumnType::Collection {
        frozen: false,
        typ: CollectionType::MapOf(
            Box::new(ColumnType::Native(NativeType::Text)),
            Box::new(ColumnType::Native(NativeType::Int)),
        ),
    };
    assert_eq!(column_type_string(&ct), "map<text, int>");
}

#[test]
fn engine_and_title() {
    let driver = CassandraDriver::new();
    assert_eq!(driver.engine(), "cassandra@dbgate-plugin-cassandra");
    assert_eq!(driver.title(), "Cassandra");
}

#[test]
fn capabilities_match_spec() {
    let driver = CassandraDriver::new();
    let caps = driver.capabilities();
    assert!(!caps.supports_transactions);
    assert_eq!(caps.default_port, Some(9042));
}

fn make_table_info(columns: Vec<(&str, &str)>, pk_columns: Vec<&str>) -> TableInfo {
    TableInfo {
        object: db_object_info("t"),
        columns: columns.into_iter().map(|(name, data_type)| column(name, data_type)).collect(),
        primary_key: if pk_columns.is_empty() {
            None
        } else {
            Some(PrimaryKeyInfo {
                columns_constraint: ColumnsConstraintInfo {
                    constraint: ConstraintInfo {
                        pairing_id: None,
                        constraint_name: None,
                        constraint_type: ConstraintType::PrimaryKey,
                    },
                    columns: pk_columns
                        .into_iter()
                        .map(|c| ColumnReference {
                            column_name: c.to_string(),
                            ref_column_name: None,
                            is_included_column: None,
                            is_descending: None,
                        })
                        .collect(),
                },
            })
        },
        sorting_key: None,
        foreign_keys: Some(vec![]),
        dependencies: None,
        indexes: None,
        uniques: None,
        checks: None,
        table_row_count: None,
        table_engine: None,
    }
}

#[test]
fn quotes_identifiers_with_double_quotes() {
    assert_eq!(quote_identifier("id"), "\"id\"");
    assert_eq!(quote_identifier("my table"), "\"my table\"");
}

#[test]
fn full_name_quoted_schema_and_plain() {
    let with_schema = NamedObjectInfo {
        pure_name: "t".to_string(),
        schema_name: Some("ks".to_string()),
        content_hash: None,
        engine: None,
    };
    assert_eq!(full_name_quoted(&with_schema), "\"ks\".\"t\"");
    let plain = NamedObjectInfo {
        pure_name: "t".to_string(),
        schema_name: None,
        content_hash: None,
        engine: None,
    };
    assert_eq!(full_name_quoted(&plain), "\"t\"");
}

#[test]
fn adds_uuid_pk_when_no_pk_and_no_id_column() {
    let structure = make_table_info(vec![("name", "text")], vec![]);
    let (add, name) = should_add_uuid_pk_info(&structure);
    assert!(add);
    assert_eq!(name, "id");
}

#[test]
fn does_not_add_uuid_pk_when_id_column_exists() {
    let structure = make_table_info(vec![("id", "uuid"), ("name", "text")], vec![]);
    let (add, name) = should_add_uuid_pk_info(&structure);
    assert!(!add);
    assert_eq!(name, "");
}

#[test]
fn does_not_add_uuid_pk_when_primary_key_exists() {
    let structure = make_table_info(vec![("uid", "uuid"), ("name", "text")], vec!["uid"]);
    let (add, name) = should_add_uuid_pk_info(&structure);
    assert!(!add);
    assert_eq!(name, "");
}

#[test]
fn escapes_single_quotes_in_strings() {
    assert_eq!(escape_string("O'Brien"), "O''Brien");
    assert_eq!(quote_escaped("a'b"), "'a''b'");
}

#[test]
fn detects_canonical_uuid_literals() {
    let uuid = "123e4567-e89b-12d3-a456-426614174000";
    assert!(is_uuid_literal(uuid));
    assert!(!is_uuid_literal("not-a-uuid"));
    assert!(!is_uuid_literal("123E4567-E89B-12D3-A456-426614174000"));
}

#[test]
fn formats_blob_as_hex() {
    let blob = json(r#"{"$binary": {"base64": "aGVsbG8="}}"#);
    assert_eq!(cql_literal(&blob, Some("blob")), "0x68656c6c6f");
}

#[test]
fn formats_scalar_values_as_cql_literals() {
    assert_eq!(cql_literal(&Value::Null, None), "null");
    assert_eq!(cql_literal(&Value::Bool(true), None), "true");
    assert_eq!(cql_literal(&Value::Bool(false), None), "false");
    assert_eq!(cql_literal(&Value::Int(42), None), "42");
    assert_eq!(cql_literal(&Value::Str("O'Brien".to_string()), None), "'O''Brien'");
}

#[test]
fn uuid_and_text_data_types_quote_respectively() {
    let uuid = "123e4567-e89b-12d3-a456-426614174000";
    assert_eq!(cql_literal(&Value::Str(uuid.to_string()), Some("uuid")), uuid);
    assert_eq!(cql_literal(&Value::Str("hello".to_string()), Some("text")), "'hello'");
}

#[test]
fn formats_collections_as_json_strings() {
    let arr = json("[1, 2]");
    assert_eq!(cql_literal(&arr, Some("list<int>")), "'[1,2]'");
    let obj = json(r#"{"a": 1}"#);
    assert_eq!(cql_literal(&obj, Some("map<text,int>")), "'{\"a\":1}'");
}

#[test]
fn json_without_fractions_needs_no_given_text() {
    let given = CellText { json: "given".to_string(), number: None };
    let cell = json(r#"{"a": [1, "it's"]}"#);
    assert_eq!(
        literal_with_texts(&cell, Some("map<text,int>"), &given),
        r#"'{"a":[1,"it''s"]}'"#
    );
    assert_eq!(literal_with_texts(&json("[0.5]"), Some("list<double>"), &given), "'given'");
}

#[test]
fn builds_insert_sql_with_generated_uuid_pk() {
    let columns = vec![column("a", "int"), column("b", "text")];
    let row = insert_row(json(r#"{"a": 1, "b": "x"}"#), &columns);
    let sql = build_insert_sql("\"t\"", &columns, true, "id", &row);
    assert_eq!(sql, "INSERT INTO \"t\" (\"id\", \"a\", \"b\")\n VALUES\n(uuid(), 1, 'x')");
}

#[test]
fn builds_insert_sql_without_uuid_pk() {
    let columns = vec![column("a", "int")];
    let row = insert_row(json(r#"{"a": 42}"#), &columns);
    let sql = build_insert_sql("\"t\"", &columns, false, "", &row);
    assert_eq!(sql, "INSERT INTO \"t\" (\"a\")\n VALUES\n(42)");
}

#[test]
fn creates_table_with_generated_uuid_pk() {
    let structure = make_table_info(vec![("a", "int")], vec![]);
    let sql = create_table_sql("\"t\"", &structure, true, "id");
    assert_eq!(sql, "CREATE TABLE \"t\" (\"id\" uuid, \"a\" int, PRIMARY KEY (\"id\"));");
}

#[test]
fn cql_moments_are_written_as_text() {
    assert_eq!(
        cql_value_to_json(&CqlValue::Timestamp(0, "shown".to_string())),
        Value::Str("1970-01-01T00:00:00+00:00".to_string())
    );
    assert_eq!(
        cql_value_to_json(&CqlValue::Timestamp(i64::MAX, "shown".to_string())),
        Value::Str("shown".to_string())
    );
    assert_eq!(
        cql_value_to_json(&CqlValue::Date(0x8000_0000, "shown".to_string())),
        Value::Str("1970-01-01".to_string())
    );
    assert_eq!(
        cql_value_to_json(&CqlValue::Time(3_661_500_000_000, "shown".to_string())),
        Value::Str("01:01:01.500".to_string())
    );
}

#[test]
fn cql_rows_are_keyed_by_column() {
    let columns = vec![
        result_column("a", &ColumnType::Native(NativeType::Int)),
        result_column("b", &ColumnType::Native(NativeType::Text)),
    ];
    let row = row_to_value(&vec![Some(CqlValue::Int(1)), None], &columns);
    assert_eq!(row, json(r#"{"a":1,"b":null}"#));
}

#[test]
fn cassandra_configures_its_session() {
    let def = ConnectionDefinition {
        server: Some("h".to_string()),
        user: Some("u".to_string()),
        password: Some("p".to_string()),
        ..Default::default()
    };
    let config = build_config(&def, vec!["h:9042".to_string()]);
    assert_eq!(config.contact_points, vec!["h:9042"]);
    assert_eq!(config.credentials, Some(("u".to_string(), "p".to_string())));
}

#[test]
fn written_tables_are_created_and_filled() {
    let structure = make_table_info(vec![("a", "int")], vec![]);
    let name = NamedObjectInfo {
        pure_name: "t".to_string(),
        schema_name: None,
        content_hash: None,
        engine: None,
    };
    let options = WriteTableOptions { create_if_not_exists: true, ..Default::default() };
    let rows = vec![insert_row(json(r#"{"a": 7}"#), &structure.columns)];
    let statements = write_table_statements(&name, &options, &structure, &rows);
    assert_eq!(
        statements.last().map(|s| s.as_str()),
        Some("INSERT INTO \"t\" (\"id\", \"a\")\n VALUES\n(uuid(), 7)")
    );
}

#[test]
fn blobs_are_written_from_their_bytes() {
    assert_eq!(blob_of(Some(vec![0x00, 0x7f, 0xab])), "0x007fab");
    assert_eq!(blob_of(Some(vec![])), "0x");
    assert_eq!(blob_of(None), "null");
    let broken = json(r#"{"$binary": {"base64": "?"}}"#);
    assert_eq!(cql_literal(&broken, Some("blob")), "null");
}

#[test]
fn collections_escape_control_characters() {
    let cell = Value::Array(vec![Value::Str("\u{8}\t\n\u{c}\r\u{1}\u{1f}\u{7f}\\\"/\u{e9}".to_string())]);
    assert_eq!(
        cql_literal(&cell, Some("list<text>")),
        "'[\"\\b\\t\\n\\f\\r\\u0001\\u001f\u{7f}\\\\\\\"/\u{e9}\"]'"
    );
}
