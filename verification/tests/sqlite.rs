//! The SQLite driver, on databases in memory.
use dbgate::connection::ConnectionDefinition;
use dbgate::driver::{ServerVersion, StreamEvent, StreamTally};
use dbgate::drivers::sqlite::{
    analyse_sqlite_full, analyse_sqlite_table, foreign_key_query, group_foreign_keys,
    list_databases, open_config, open_error, quote_ident, result_column, row_to_value,
    server_version, split_sql, statement_events, table_info_query, value_ref_to_json, ColumnRow,
    ForeignKeyRow, SqliteCell, SqliteDriver, SqliteTableRows, SQLITE_ENGINE, SQL_TABLES,
    SQL_VERSION,
};
use dbgate::query::QueryResult;
use dbgate::value::Value;
use rusqlite::Connection;

/// The library's value for a parsed JSON value.
fn convert(v: &serde_json::Value) -> Value {
    match v {
        serde_json::Value::Null => Value::Null,
        serde_json::Value::Bool(b) => Value::Bool(*b),
        serde_json::Value::Number(n) => {
            if let Some(i) = n.as_i64() {
                Value::Int(i as i128)
            } else if let Some(u) = n.as_u64() {
                Value::Int(u as i128)
            } else {
                Value::Double(n.as_f64().unwrap().to_bits())
            }
        }
        serde_json::Value::String(s) => Value::Str(s.clone()),
        serde_json::Value::Array(a) => Value::Array(a.iter().map(convert).collect()),
        serde_json::Value::Object(o) => {
            Value::Object(o.iter().map(|(k, x)| (k.clone(), convert(x))).collect())
        }
    }
}

/// The value that a JSON text stands for.
fn json(text: &str) -> Value {
    convert(&serde_json::from_str(text).unwrap())
}
/// A cell of a row that SQLite returned.
fn cell_of(v: rusqlite::types::ValueRef) -> SqliteCell {
    match v {
        rusqlite::types::ValueRef::Null => SqliteCell::Null,
        rusqlite::types::ValueRef::Integer(i) => SqliteCell::Integer(i),
        rusqlite::types::ValueRef::Real(f) => SqliteCell::Real(f.to_bits()),
        rusqlite::types::ValueRef::Text(s) => SqliteCell::Text(s.to_vec()),
        rusqlite::types::ValueRef::Blob(b) => SqliteCell::Blob(b.to_vec()),
    }
}

/// Runs one statement.
fn query(conn: &Connection, sql: &str) -> Result<QueryResult, String> {
    let mut stmt = conn.prepare(sql).map_err(|e| e.to_string())?;
    let n = stmt.column_count();
    if n == 0 {
        stmt.execute([]).map_err(|e| e.to_string())?;
        return Ok(QueryResult::empty());
    }
    let names: Vec<String> = (0..n).map(|i| stmt.column_name(i).unwrap().to_string()).collect();
    let columns = names
        .iter()
        .enumerate()
        .map(|(i, name)| result_column(Some(name.clone()), i as u64))
        .collect();
    let mut rows = Vec::new();
    let mut found = stmt.query([]).map_err(|e| e.to_string())?;
    while let Some(row) = found.next().map_err(|e| e.to_string())? {
        let cells: Vec<SqliteCell> = (0..n).map(|i| cell_of(row.get_ref(i).unwrap())).collect();
        rows.push(row_to_value(&names, &cells));
    }
    Ok(QueryResult { rows, columns })
}

/// The rows that describe the columns of a table.
fn column_rows(conn: &Connection, table: &str) -> Vec<ColumnRow> {
    let mut stmt = conn.prepare(&table_info_query(table)).unwrap();
    let found = stmt.query_map([], |r| {
        Ok(ColumnRow {
            name: r.get(1)?,
            data_type: r.get(2)?,
            not_null: r.get(3)?,
            default_value: r.get(4)?,
            pk: r.get(5)?,
        })
    });
    found.unwrap().map(|r| r.unwrap()).collect()
}

/// The rows that describe the foreign keys of a table.
fn foreign_key_rows(conn: &Connection, table: &str) -> Vec<ForeignKeyRow> {
    let mut stmt = conn.prepare(&foreign_key_query(table)).unwrap();
    let found = stmt.query_map([], |r| {
        Ok(ForeignKeyRow {
            seq: r.get(1)?,
            table: r.get(2)?,
            from_col: r.get(3)?,
            to_col: r.get(4)?,
            on_update: r.get(5)?,
            on_delete: r.get(6)?,
        })
    });
    found.unwrap().map(|r| r.unwrap()).collect()
}

/// What the catalogue says of all tables.
fn table_rows(conn: &Connection) -> Vec<SqliteTableRows> {
    let tables: Vec<(String, Option<String>)> = conn
        .prepare(SQL_TABLES)
        .unwrap()
        .query_map([], |r| Ok((r.get(0)?, r.get(1)?)))
        .unwrap()
        .map(|r| r.unwrap())
        .collect();
    tables
        .into_iter()
        .map(|(name, create_sql)| SqliteTableRows {
            columns: column_rows(conn, &name),
            foreign_keys: foreign_key_rows(conn, &name),
            name,
            create_sql,
        })
        .collect()
}

/// The version that SQLite reports.
fn version(conn: &Connection) -> ServerVersion {
    server_version(conn.query_row(SQL_VERSION, [], |r| r.get(0)).unwrap())
}
#[test]
fn query_select_returns_rows_and_columns() {
    let conn = Connection::open_in_memory().unwrap();
    query(&conn, "CREATE TABLE t (id INTEGER PRIMARY KEY, name TEXT)").unwrap();
    query(&conn, "INSERT INTO t (name) VALUES ('a'), ('b')").unwrap();
    let result = query(&conn, "SELECT * FROM t ORDER BY id").unwrap();
    assert_eq!(result.columns.len(), 2);
    assert_eq!(result.rows.len(), 2);
    assert_eq!(result.rows[0].get("name"), Some(&Value::Str("a".to_string())));
}

#[test]
fn version_reports_sqlite() {
    let conn = Connection::open_in_memory().unwrap();
    let version = version(&conn);
    assert!(version.version.starts_with('3'));
    assert!(version.version_text.unwrap().starts_with("SQLite"));
}

#[test]
fn analyse_full_discovers_table() {
    let conn = Connection::open_in_memory().unwrap();
    query(&conn, "CREATE TABLE customer (id INTEGER PRIMARY KEY, name TEXT NOT NULL)").unwrap();
    let info = analyse_sqlite_full(&table_rows(&conn));
    assert_eq!(info.tables.len(), 1);
    assert_eq!(info.tables[0].object.pure_name, "customer");
    assert_eq!(info.tables[0].columns.len(), 2);
    assert!(info.tables[0].primary_key.is_some());
}

#[test]
fn sqlite_driver_describes_itself() {
    let d = SqliteDriver::new();
    assert_eq!(d.engine(), SQLITE_ENGINE);
    assert_eq!(d.title(), "SQLite");
    assert_eq!(d.capabilities().default_port, None);
    assert!(d.capabilities().supports_transactions);
}

#[test]
fn sqlite_opens_the_file_it_is_given() {
    let mut def = ConnectionDefinition::default();
    assert!(open_config(&def).is_err());
    def.database_file = Some(":memory:".to_string());
    let config = open_config(&def).unwrap();
    assert_eq!(config.db_file, ":memory:");
    assert!(!config.read_only);
    def.is_read_only = Some(true);
    assert!(open_config(&def).unwrap().read_only);
    assert!(open_error("f", "cause".to_string()).to_string().contains("f"));
}

#[test]
fn sqlite_cells_become_json() {
    assert_eq!(value_ref_to_json(&SqliteCell::Null), Value::Null);
    assert_eq!(value_ref_to_json(&SqliteCell::Integer(-3)), Value::Int(-3));
    assert_eq!(
        value_ref_to_json(&SqliteCell::Real(1.5f64.to_bits())),
        Value::Double(1.5f64.to_bits())
    );
    assert_eq!(value_ref_to_json(&SqliteCell::Real(f64::NAN.to_bits())), Value::Null);
    assert_eq!(
        value_ref_to_json(&SqliteCell::Text(vec![b'a', 0xff])),
        Value::Str("a\u{fffd}".to_string())
    );
    assert_eq!(
        value_ref_to_json(&SqliteCell::Blob(vec![0, 1, 2, 255])),
        json(r#"{"$binary":{"base64":"AAEC/w=="}}"#)
    );
}

#[test]
fn sqlite_names_are_quoted() {
    assert_eq!(quote_ident("a\"b"), "\"a\"\"b\"");
    assert_eq!(result_column(None, 3).column_name, "col3");
    assert_eq!(list_databases()[0].name, "main");
}

#[test]
fn sqlite_scripts_are_split() {
    assert_eq!(
        split_sql("SELECT 'a;b'; -- c;\nSELECT 2; /* d; */"),
        vec!["SELECT 'a;b'", "-- c;\nSELECT 2", "/* d; */"]
    );
}

#[test]
fn sqlite_statements_are_tallied() {
    let conn = Connection::open_in_memory().unwrap();
    let mut tally = StreamTally::new();
    query(&conn, "CREATE TABLE t (id INTEGER)").unwrap();
    let done = query(&conn, "INSERT INTO t VALUES (1), (2)").unwrap();
    assert!(statement_events(&mut tally, done, conn.changes()).is_empty());
    let rows = query(&conn, "SELECT id FROM t").unwrap();
    let events = statement_events(&mut tally, rows, conn.changes());
    assert!(matches!(events[0], StreamEvent::Recordset(_)));
    assert_eq!(events.len(), 3);
    let closing = tally.finish();
    assert!(matches!(
        &closing[0],
        StreamEvent::Info(i) if i.message == "2 rows affected" && i.rows_affected == Some(2)
    ));
    assert!(matches!(closing[1], StreamEvent::Done));
}

#[test]
fn sqlite_foreign_keys_are_grouped() {
    let conn = Connection::open_in_memory().unwrap();
    query(&conn, "CREATE TABLE p (a INTEGER, b INTEGER, PRIMARY KEY (a, b))").unwrap();
    query(
        &conn,
        "CREATE TABLE c (x INTEGER, y INTEGER, FOREIGN KEY (x, y) REFERENCES p (a, b) ON DELETE CASCADE)",
    )
    .unwrap();
    let groups = group_foreign_keys(&foreign_key_rows(&conn, "c"));
    assert_eq!(groups.len(), 1);
    assert_eq!(groups[0].ref_table, "p");
    assert_eq!(
        groups[0].columns,
        vec![("x".to_string(), "a".to_string()), ("y".to_string(), "b".to_string())]
    );
    assert_eq!(groups[0].on_delete, "CASCADE");
    let table = analyse_sqlite_table(
        "c",
        None,
        &column_rows(&conn, "c"),
        &foreign_key_rows(&conn, "c"),
    );
    assert_eq!(table.foreign_keys.unwrap().len(), 1);
    assert!(table.primary_key.is_none());
}
