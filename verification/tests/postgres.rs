//! The PostgreSQL driver.
use dbgate::connection::ConnectionDefinition;
use dbgate::dbinfo::{NamedObjectInfo, ParameterInfo, ParameterMode};
use dbgate::drivers::postgres::{
    analyse_postgres_full, analyse_postgres_table, build_config, build_foreign_keys,
    build_primary_key, cell_kind, column_value, full_analysis_queries, full_data_type_name,
    get_column_info, normalize_type_name, parameter_entry, parameters_sql_string, product_name,
    routine_ddl, row_to_value, server_version, substitute_conditions, table_analysis_queries, CellKind, PostgresCatalog, PostgresCell,
    PostgresColumn, PostgresDriver, POSTGRES_ENGINE,
};
use dbgate::value::Value;

/// The library's value for a parsed JSON value.
fn convert(v: &serde_json::Value) -> Value {
    match v {
        serde_json::Value::Null => Value::Null,
        serde_json::Value::Bool(b) => Value::Bool(*b),
        serde_json::Value::Number(n) => {
            if let Some(i) = n.as_i64() {
                Value::Int(i as i128)
            } else if let Some(u) = n.as_u64() {
                Value::Int(u as i128)
            } else {
                Value::Double(n.as_f64().unwrap().to_bits())
            }
        }
        serde_json::Value::String(s) => Value::Str(s.clone()),
        serde_json::Value::Array(a) => Value::Array(a.iter().map(convert).collect()),
        serde_json::Value::Object(o) => {
            Value::Object(o.iter().map(|(k, x)| (k.clone(), convert(x))).collect())
        }
    }
}

/// The value that a JSON text stands for.
fn json(text: &str) -> Value {
    convert(&serde_json::from_str(text).unwrap())
}

/// The values of a JSON array.
fn rows(text: &str) -> Vec<Value> {
    match json(text) {
        Value::Array(items) => items,
        other => panic!("not an array: {other:?}"),
    }
}

/// The serde value for one of the library.
fn plain(v: &Value) -> serde_json::Value {
    match v {
        Value::Null => serde_json::Value::Null,
        Value::Bool(b) => serde_json::Value::Bool(*b),
        Value::Int(n) => match i64::try_from(*n) {
            Ok(i) => serde_json::Value::from(i),
            Err(_) => serde_json::Value::from(*n as u64),
        },
        Value::Double(d) => serde_json::Value::from(f64::from_bits(*d)),
        Value::Str(s) => serde_json::Value::from(s.as_str()),
        Value::Array(a) => serde_json::Value::Array(a.iter().map(plain).collect()),
        Value::Object(o) => {
            serde_json::Value::Object(o.iter().map(|(k, x)| (k.clone(), plain(x))).collect())
        }
    }
}

#[test]
fn normalizes_postgres_type_names() {
    assert_eq!(normalize_type_name("character varying"), "varchar");
    assert_eq!(normalize_type_name("timestamp without time zone"), "timestamp");
    assert_eq!(normalize_type_name("integer"), "integer");
}

#[test]
fn postgres_computes_full_data_type_names() {
    let s = |t: &str, len, p, sc| full_data_type_name(t, len, p, sc);
    assert_eq!(s("varchar", Some(250), None, None), "varchar(250)");
    assert_eq!(s("numeric", None, Some(10), Some(2)), "numeric(10,2)");
    assert_eq!(s("timestamp", None, None, None), "timestamp");
}

#[test]
fn postgres_substitutes_object_and_schema_conditions() {
    let sql = "AND c.relname =OBJECT_ID_CONDITION AND n.nspname =SCHEMA_NAME_CONDITION";
    let full = substitute_conditions(sql, None, None);
    assert!(full.contains("is not null"));
    assert!(full.contains("not in ('pg_catalog', 'pg_toast', 'information_schema')"));

    let single = substitute_conditions(sql, Some("tables:public.customer"), Some("public"));
    assert!(single.contains("= 'tables:public.customer'"));
    assert!(single.contains("= 'public'"));
}

#[test]
fn builds_parameters_sql_string() {
    let params = vec![
        ParameterInfo {
            parameter_name: "id".to_string(),
            data_type: "int4".to_string(),
            parameter_mode: Some(ParameterMode::In),
            position: Some(1),
        },
        ParameterInfo {
            parameter_name: "name".to_string(),
            data_type: "varchar".to_string(),
            parameter_mode: None,
            position: Some(2),
        },
    ];
    assert_eq!(parameters_sql_string(&params), "id INT4, name VARCHAR");
}

#[test]
fn detects_geometry_and_geography_columns() {
    let row = json(
        r#"{"schema_name":"public","pure_name":"places","column_name":"geom","data_type":"bytea","is_nullable":"YES"}"#,
    );
    let geom = rows(r#"[{"schema_name":"public","pure_name":"places","column_name":"geom"}]"#);
    let info = get_column_info(&row, "public", "places", "geom", &geom, &Vec::new());
    assert_eq!(info.data_type, "geometry");
    let info = get_column_info(&row, "public", "places", "geom", &Vec::new(), &geom);
    assert_eq!(info.data_type, "geography");
}

fn catalog() -> PostgresCatalog {
    PostgresCatalog {
        tables: Vec::new(),
        views: Vec::new(),
        columns: Vec::new(),
        primary_keys: Vec::new(),
        foreign_keys: Vec::new(),
        unique_names: Vec::new(),
        routines: Vec::new(),
        parameters: Vec::new(),
        indexes: Vec::new(),
        index_columns: Vec::new(),
        matviews: Vec::new(),
        matview_columns: Vec::new(),
        triggers: Vec::new(),
        geometry_columns: Vec::new(),
        geography_columns: Vec::new(),
    }
}

#[test]
fn postgres_driver_advertises_native_backup_and_restore() {
    let caps = PostgresDriver::new().capabilities();
    assert!(caps.supports_native_backup);
    assert!(caps.supports_native_restore);
    assert_eq!(PostgresDriver::new().engine(), POSTGRES_ENGINE);
    assert_eq!(PostgresDriver::new().title(), "PostgreSQL");
    assert_eq!(
        PostgresDriver::new().write_table_unsupported().to_string(),
        "DBGM-00000: PostgreSQL write_table streaming is not yet supported"
    );
}

#[test]
fn postgres_config_has_defaults_and_needs_a_server() {
    let mut def = ConnectionDefinition::default();
    assert_eq!(
        build_config(&def).err().unwrap().message,
        "PostgreSQL connection requires a server host"
    );
    def.server = Some("db".to_string());
    let config = build_config(&def).ok().unwrap();
    assert_eq!((config.host.as_str(), config.port, config.dbname.as_str()), ("db", 5432, "postgres"));
    def.port = Some(65536 + 7);
    def.is_read_only = Some(true);
    let config = build_config(&def).ok().unwrap();
    assert_eq!(config.port, 7);
    assert!(config.read_only);
}

#[test]
fn postgres_cells_map_to_json() {
    let bytes = Some(PostgresCell::Bytes(vec![1, 2, 3]));
    assert_eq!(
        column_value(CellKind::Bytes, &bytes),
        json(r#"{"$binary":{"base64":"AQID"}}"#)
    );
    assert_eq!(
        column_value(CellKind::Date, &Some(PostgresCell::Date(738887))),
        Value::Str("2024-01-02".to_string())
    );
    assert_eq!(
        column_value(CellKind::Timestamp, &Some(PostgresCell::Timestamp(738887, 3661, 0))),
        Value::Str("2024-01-02 01:01:01".to_string())
    );
    assert_eq!(
        column_value(CellKind::TimestampTz, &Some(PostgresCell::TimestampTz(738887, 3661, 0))),
        Value::Str("2024-01-02 01:01:01 UTC".to_string())
    );
    assert_eq!(column_value(CellKind::Int4, &None), Value::Null);
    assert_eq!(
        column_value(CellKind::Float8, &Some(PostgresCell::Double(f64::NAN.to_bits()))),
        Value::Null
    );
    assert_eq!(
        column_value(CellKind::Float8, &Some(PostgresCell::Double(1.5f64.to_bits()))),
        Value::Double(1.5f64.to_bits())
    );
}

#[test]
fn postgres_rows_are_keyed_by_column_name() {
    let columns = vec![
        PostgresColumn { name: "id".to_string(), data_type: "int4".to_string(), oid: 23 },
        PostgresColumn { name: "name".to_string(), data_type: "text".to_string(), oid: 25 },
    ];
    let none: Vec<(u32, String)> = Vec::new();
    assert!(matches!(cell_kind(&columns[0], &none), CellKind::Int4));
    let cells = vec![
        Some(PostgresCell::Int(7)),
        Some(PostgresCell::Text("x".to_string())),
    ];
    let row = row_to_value(&columns, &cells, &none);
    assert_eq!(row, json(r#"{"id":7,"name":"x"}"#));
}

#[test]
fn postgres_versions_are_reported() {
    let v = server_version(&rows(r#"[{"version":"PostgreSQL 16.1 on x86_64"}]"#));
    assert_eq!(v.version, "PostgreSQL 16.1 on x86_64");
}

#[test]
fn postgres_keys_are_built_from_rows() {
    let pk_rows = rows(
        r#"[{"schema_name":"public","pure_name":"t","constraint_name":"t_pk","column_name":"a"},
            {"schema_name":"public","pure_name":"other","constraint_name":"o_pk","column_name":"z"},
            {"schema_name":"public","pure_name":"t","constraint_name":"t_pk","column_name":"b"}]"#,
    );
    let pk = build_primary_key("public", "t", &pk_rows).unwrap();
    let names: Vec<&str> =
        pk.columns_constraint.columns.iter().map(|c| c.column_name.as_str()).collect();
    assert_eq!(names, vec!["a", "b"]);
    assert!(build_primary_key("public", "none", &pk_rows).is_none());
    let fks = build_foreign_keys("public", "t", &Vec::new());
    assert!(fks.is_empty());
}

#[test]
fn postgres_tables_are_analysed() {
    let mut c = catalog();
    c.tables = rows(r#"[{"schema_name":"public","pure_name":"t"}]"#);
    c.columns = rows(
        r#"[{"schema_name":"public","pure_name":"t","column_name":"id","data_type":"integer","is_nullable":"NO"}]"#,
    );
    let info = analyse_postgres_full(&c);
    assert_eq!(info.tables.len(), 1);
    assert_eq!(info.tables[0].object.pure_name, "t");
    assert_eq!(info.tables[0].columns[0].column_name, "id");

    let name = NamedObjectInfo {
        pure_name: "t".to_string(),
        schema_name: Some("public".to_string()),
        content_hash: None,
        engine: None,
    };
    assert!(analyse_postgres_table(&name, &c).is_ok());
    assert!(analyse_postgres_table(&name, &catalog()).is_err());
    assert!(full_analysis_queries().len() > table_analysis_queries(&name).len());
}

#[test]
fn postgres_parameters_by_given_letter_case() {
    let mut p = ParameterInfo {
        parameter_name: "id".to_string(),
        data_type: "int4".to_string(),
        parameter_mode: Some(ParameterMode::In),
        position: Some(1),
    };
    assert_eq!(parameter_entry(&p, "INT4"), "id INT4");
    p.parameter_mode = Some(ParameterMode::Out);
    assert_eq!(parameter_entry(&p, "TEXT"), "OUT id TEXT");
    p.parameter_mode = Some(ParameterMode::InOut);
    p.data_type = String::new();
    assert_eq!(parameter_entry(&p, "TEXT"), "INOUT id");
}

#[test]
fn postgres_products_by_given_version() {
    assert_eq!(product_name("cockroachdb ccl v23.1"), "CockroachDB");
    assert_eq!(product_name("postgresql 8.0.2 on redshift 1.0"), "Redshift");
    assert_eq!(product_name("postgresql 16.2"), "PostgreSQL");
    assert_eq!(product_name("Redshift"), "PostgreSQL");
}

#[test]
fn postgres_routines_by_given_letter_case() {
    let row = json(
        r#"{"schema_name":"public","pure_name":"f","object_type":"FUNCTION","language":"sql","definition":"select 1","data_type":"int4"}"#,
    );
    assert_eq!(
        routine_ddl(&row, "a INT4", "INT4"),
        "CREATE FUNCTION \"public\".\"f\"(a INT4) RETURNS INT4 LANGUAGE sql\nAS\n$$\nselect 1\n$$"
    );
    let row = json(
        r#"{"schema_name":"public","pure_name":"p","object_type":"PROCEDURE","language":"sql","definition":"select 1"}"#,
    );
    assert_eq!(
        routine_ddl(&row, "", "INT4"),
        "CREATE PROCEDURE \"public\".\"p\"() LANGUAGE sql\nAS\n$$\nselect 1\n$$"
    );
}
