//! The routes together: a small backend that keeps its connections in memory
//! and runs SQL on SQLite databases.
use dbgate::connection::ConnectionDefinition;
use dbgate::dbinfo::TableInfo;
use dbgate::driver::{ServerVersion, StreamEvent, StreamTally};
use dbgate::drivers::sqlite::{
    analyse_sqlite_full, analyse_sqlite_table, foreign_key_query, list_databases, open_config,
    result_column, row_to_value, server_version, split_sql, statement_events, table_info_query,
    ColumnRow, ForeignKeyRow, SqliteCell, SqliteTableRows, SQLITE_ENGINE, SQL_TABLES, SQL_VERSION,
};
use dbgate::engines::{builtin_registry, BuiltinEngine};
use dbgate::events::UiEvent;
use dbgate::jsl::JslStore;
use dbgate::keyed::KeyedMap;
use dbgate::query::QueryResult;
use dbgate::registry::DriverRegistry;
use dbgate::routes::backup::{backup_request, engine_context, restore_request};
use dbgate::routes::connections::ConnectionsStore;
use dbgate::routes::database_connections::{
    call_method_request, conid_request, driver_method, run_script_request, saved_definition,
    script_result, sql_select_request, DriverMethod,
};
use dbgate::routes::sessions::{
    create_request, execute_query_request, execute_reader_request, query_answer, reader_answer,
    stop_loading_reader, SessionStore, StreamCollector,
};
use dbgate::routes::{
    config, connections, dispatch, jsldata, no_driver, nothing_listed, ok_value, plugins,
    route_error, unknown_connection, Route,
};
use dbgate::script::{script_step, ScriptAction, ScriptState};
use dbgate::security::{resolved_record, secrets_to_find, secrets_to_keep, Secrets};
use dbgate::value::Value;
use rusqlite::Connection;

/// The library's value for a parsed JSON value.
fn convert(v: &serde_json::Value) -> Value {
    match v {
        serde_json::Value::Null => Value::Null,
        serde_json::Value::Bool(b) => Value::Bool(*b),
        serde_json::Value::Number(n) => {
            if let Some(i) = n.as_i64() {
                Value::Int(i as i128)
            } else if let Some(u) = n.as_u64() {
                Value::Int(u as i128)
            } else {
                Value::Double(n.as_f64().unwrap().to_bits())
            }
        }
        serde_json::Value::String(s) => Value::Str(s.clone()),
        serde_json::Value::Array(a) => Value::Array(a.iter().map(convert).collect()),
        serde_json::Value::Object(o) => {
            Value::Object(o.iter().map(|(k, x)| (k.clone(), convert(x))).collect())
        }
    }
}

/// The value that a JSON text stands for.
fn json(text: &str) -> Value {
    convert(&serde_json::from_str(text).unwrap())
}

/// The serde value for one of the library.
fn plain(v: &Value) -> serde_json::Value {
    match v {
        Value::Null => serde_json::Value::Null,
        Value::Bool(b) => serde_json::Value::Bool(*b),
        Value::Int(n) => match i64::try_from(*n) {
            Ok(i) => serde_json::Value::from(i),
            Err(_) => serde_json::Value::from(*n as u64),
        },
        Value::Double(d) => serde_json::Value::from(f64::from_bits(*d)),
        Value::Str(s) => serde_json::Value::from(s.as_str()),
        Value::Array(a) => serde_json::Value::Array(a.iter().map(plain).collect()),
        Value::Object(o) => {
            serde_json::Value::Object(o.iter().map(|(k, x)| (k.clone(), plain(x))).collect())
        }
    }
}
/// A cell of a row that SQLite returned.
fn cell_of(v: rusqlite::types::ValueRef) -> SqliteCell {
    match v {
        rusqlite::types::ValueRef::Null => SqliteCell::Null,
        rusqlite::types::ValueRef::Integer(i) => SqliteCell::Integer(i),
        rusqlite::types::ValueRef::Real(f) => SqliteCell::Real(f.to_bits()),
        rusqlite::types::ValueRef::Text(s) => SqliteCell::Text(s.to_vec()),
        rusqlite::types::ValueRef::Blob(b) => SqliteCell::Blob(b.to_vec()),
    }
}

/// Runs one statement.
fn query(conn: &Connection, sql: &str) -> Result<QueryResult, String> {
    let mut stmt = conn.prepare(sql).map_err(|e| e.to_string())?;
    let n = stmt.column_count();
    if n == 0 {
        stmt.execute([]).map_err(|e| e.to_string())?;
        return Ok(QueryResult::empty());
    }
    let names: Vec<String> = (0..n).map(|i| stmt.column_name(i).unwrap().to_string()).collect();
    let columns = names
        .iter()
        .enumerate()
        .map(|(i, name)| result_column(Some(name.clone()), i as u64))
        .collect();
    let mut rows = Vec::new();
    let mut found = stmt.query([]).map_err(|e| e.to_string())?;
    while let Some(row) = found.next().map_err(|e| e.to_string())? {
        let cells: Vec<SqliteCell> = (0..n).map(|i| cell_of(row.get_ref(i).unwrap())).collect();
        rows.push(row_to_value(&names, &cells));
    }
    Ok(QueryResult { rows, columns })
}

/// The rows that describe the columns of a table.
fn column_rows(conn: &Connection, table: &str) -> Vec<ColumnRow> {
    let mut stmt = conn.prepare(&table_info_query(table)).unwrap();
    let found = stmt.query_map([], |r| {
        Ok(ColumnRow {
            name: r.get(1)?,
            data_type: r.get(2)?,
            not_null: r.get(3)?,
            default_value: r.get(4)?,
            pk: r.get(5)?,
        })
    });
    found.unwrap().map(|r| r.unwrap()).collect()
}

/// The rows that describe the foreign keys of a table.
fn foreign_key_rows(conn: &Connection, table: &str) -> Vec<ForeignKeyRow> {
    let mut stmt = conn.prepare(&foreign_key_query(table)).unwrap();
    let found = stmt.query_map([], |r| {
        Ok(ForeignKeyRow {
            seq: r.get(1)?,
            table: r.get(2)?,
            from_col: r.get(3)?,
            to_col: r.get(4)?,
            on_update: r.get(5)?,
            on_delete: r.get(6)?,
        })
    });
    found.unwrap().map(|r| r.unwrap()).collect()
}

/// What the catalogue says of all tables.
fn table_rows(conn: &Connection) -> Vec<SqliteTableRows> {
    let tables: Vec<(String, Option<String>)> = conn
        .prepare(SQL_TABLES)
        .unwrap()
        .query_map([], |r| Ok((r.get(0)?, r.get(1)?)))
        .unwrap()
        .map(|r| r.unwrap())
        .collect();
    tables
        .into_iter()
        .map(|(name, create_sql)| SqliteTableRows {
            columns: column_rows(conn, &name),
            foreign_keys: foreign_key_rows(conn, &name),
            name,
            create_sql,
        })
        .collect()
}

/// The version that SQLite reports.
fn version(conn: &Connection) -> ServerVersion {
    server_version(conn.query_row(SQL_VERSION, [], |r| r.get(0)).unwrap())
}
/// A table as the frontend sees it, as far as these tests look.
fn table_json(table: &TableInfo) -> serde_json::Value {
    let columns: Vec<String> = table
        .columns
        .iter()
        .map(|c| format!("{{\"columnName\":{}}}", quoted(&c.column_name)))
        .collect();
    serde_json::from_str(&format!(
        "{{\"object\":{{\"pureName\":{}}},\"columns\":[{}]}}",
        quoted(&table.object.pure_name),
        columns.join(",")
    ))
    .unwrap()
}

fn quoted(text: &str) -> String {
    serde_json::Value::from(text).to_string()
}

struct Backend {
    registry: DriverRegistry<BuiltinEngine>,
    store: ConnectionsStore,
    records: Vec<Value>,
    connections: KeyedMap<Connection>,
    sessions: SessionStore<Connection>,
    jsl: JslStore,
    emitted: Vec<UiEvent>,
    /// The credential store, where there is one.
    vault: Option<KeyedMap<String>>,
}

impl Backend {
    fn new() -> Self {
        Backend {
            registry: builtin_registry(),
            store: ConnectionsStore::new("connections.jsonl".to_string()),
            records: Vec::new(),
            connections: KeyedMap::new(),
            sessions: SessionStore::new(),
            jsl: JslStore::new(),
            emitted: Vec::new(),
            vault: None,
        }
    }

    fn save_sqlite_connection(&mut self, conid: &str) {
        let record = json(&format!(
            r#"{{
            "_id": "{conid}",
            "engine": "sqlite@dbgate-plugin-sqlite",
            "name": "saved",
            "databaseFile": ":memory:"
        }}"#
        ));
        let items = std::mem::take(&mut self.records);
        self.records = self.store.insert(items, record, "unused").0;
    }

    fn open_sqlite(&mut self, conid: &str) {
        self.connections.insert(conid.to_string(), Connection::open_in_memory().unwrap());
    }

    fn load_definition(&self, conid: &str) -> Result<ConnectionDefinition, String> {
        let saved = self.store.get(&self.records, conid);
        let saved = self.with_secrets(saved_definition(&saved, conid)?.clone());
        Ok(ConnectionDefinition {
            password: saved.text("password").map(|s| s.to_string()),
            engine: saved.text("engine").unwrap_or_default().to_string(),
            name: saved.text("name").unwrap_or_default().to_string(),
            database_file: saved.text("databaseFile").map(|s| s.to_string()),
            port: saved.uint64("port").map(|p| p as u32),
            ..Default::default()
        })
    }

    fn connect(&self, conid: &str) -> Result<Connection, String> {
        let def = self.load_definition(conid)?;
        match self.registry.get(&def.engine) {
            Some(BuiltinEngine::Sqlite) => {}
            Some(_) => panic!("only SQLite can be reached here"),
            None => return Err(no_driver(&def.engine)),
        }
        let config = open_config(&def).map_err(|e| route_error(&e.to_string()))?;
        assert_eq!(config.db_file, ":memory:");
        Ok(Connection::open_in_memory().unwrap())
    }

    fn connected(&mut self, conid: &str) -> Result<&Connection, String> {
        if !self.connections.contains_key(conid) {
            let conn = self.connect(conid)?;
            self.connections.insert(conid.to_string(), conn);
        }
        self.connections.get(conid).ok_or_else(|| unknown_connection(conid))
    }

    /// Hands the secrets of a record to the credential store; whether it took them.
    fn keep_secrets(&mut self, record: &Value, id: &str) -> bool {
        match &mut self.vault {
            Some(vault) => {
                for (user, secret) in secrets_to_keep(record, id) {
                    vault.insert(user, secret);
                }
                true
            }
            None => false,
        }
    }

    /// A stored record with its secrets.
    fn with_secrets(&self, record: Value) -> Value {
        let find = |user: Option<String>| {
            let vault = self.vault.as_ref()?;
            vault.get(&user?).cloned()
        };
        let users = secrets_to_find(&record);
        let answers = Secrets {
            password: find(users.password),
            ssh_password: find(users.ssh_password),
            ssh_passphrase: find(users.ssh_passphrase),
        };
        resolved_record(record, answers)
    }

    /// Runs statements in a transaction; their results, with the rows changed.
    fn run(conn: &Connection, statements: &Vec<String>) -> Result<Vec<(QueryResult, u64)>, String> {
        let mut results = Vec::new();
        let mut failure = None;
        let mut state = ScriptState::Start;
        let mut ok = true;
        loop {
            let (next, action) = script_step(statements, true, state, ok);
            state = next;
            let outcome = match action {
                ScriptAction::Begin => conn.execute_batch("BEGIN").map_err(|e| e.to_string()),
                ScriptAction::Run(i) => {
                    query(conn, &statements[i]).map(|r| results.push((r, conn.changes())))
                }
                ScriptAction::Commit => conn.execute_batch("COMMIT").map_err(|e| e.to_string()),
                ScriptAction::Rollback => {
                    conn.execute_batch("ROLLBACK").map_err(|e| e.to_string())
                }
                ScriptAction::Finished => break,
            };
            ok = outcome.is_ok();
            if let Err(e) = outcome {
                failure.get_or_insert(e);
            }
        }
        match failure {
            Some(e) => Err(route_error(&e)),
            None => Ok(results),
        }
    }

    /// What a script streams.
    fn stream(conn: &Connection, sql: &str) -> Result<Vec<StreamEvent>, String> {
        let mut tally = StreamTally::new();
        let mut events = Vec::new();
        for (result, changes) in Backend::run(conn, &split_sql(sql))? {
            events.extend(statement_events(&mut tally, result, changes));
        }
        events.extend(tally.finish());
        Ok(events)
    }

    /// Collects what was streamed, and hands out the result sets.
    fn collect(&mut self, events: Vec<StreamEvent>, sesid: Option<&str>, done: bool) -> Vec<String> {
        let mut collector = StreamCollector::new(sesid, done);
        for event in events {
            let ui = match event {
                StreamEvent::Recordset(columns) => collector.on_recordset(&mut self.jsl, columns),
                StreamEvent::Row(row) => collector.on_row(&mut self.jsl, row),
                StreamEvent::Info(info) => collector.on_info(&info),
                StreamEvent::Done => collector.on_done(&mut self.jsl),
            };
            self.emitted.extend(ui);
        }
        collector.jslids
    }

    fn sql(&mut self, conid: &str, sql: &str) -> Result<serde_json::Value, String> {
        let conn = self.connected(conid)?;
        let result = query(conn, sql).map_err(|e| route_error(&e))?;
        Ok(plain(&result.to_value()))
    }

    fn analyse(&mut self, conid: &str) -> Result<serde_json::Value, String> {
        let conn = self.connected(conid)?;
        let info = analyse_sqlite_full(&table_rows(conn));
        let tables: Vec<String> =
            info.tables.iter().map(|t| table_json(t).to_string()).collect();
        Ok(serde_json::from_str(&format!("{{\"tables\":[{}]}}", tables.join(","))).unwrap())
    }

    fn databases(&mut self, conid: &str) -> Result<serde_json::Value, String> {
        self.connected(conid)?;
        let names: Vec<String> = list_databases()
            .iter()
            .map(|d| format!("{{\"name\":{}}}", quoted(&d.name)))
            .collect();
        Ok(serde_json::from_str(&format!("[{}]", names.join(","))).unwrap())
    }

    fn alive(&mut self, args: &Value, route: &str) -> Result<serde_json::Value, String> {
        let conn = self.connected(conid_request(args, route)?)?;
        version(conn);
        Ok(plain(&ok_value()))
    }

    fn call_method(&mut self, args: &Value) -> Result<serde_json::Value, String> {
        let request = call_method_request(args)?;
        let conn = self.connected(&request.conid)?;
        match driver_method(&request.method)? {
            DriverMethod::GetVersion => {
                let v = version(conn);
                Ok(serde_json::from_str(&format!(
                    "{{\"version\":{},\"versionText\":{}}}",
                    quoted(&v.version),
                    quoted(&v.version_text.unwrap())
                ))
                .unwrap())
            }
            DriverMethod::ListDatabases => self.databases(&request.conid),
            DriverMethod::AnalyseSingleTable => {
                let name = request.args.text("pureName").unwrap();
                Ok(table_json(&analyse_sqlite_table(
                    name,
                    None,
                    &column_rows(conn, name),
                    &foreign_key_rows(conn, name),
                )))
            }
        }
    }

    fn call(&mut self, route: &str, args: &str) -> Result<serde_json::Value, String> {
        let args = json(args);
        match dispatch(route)? {
            Route::ConnectionsList => Ok(plain(&connections::list(self.records.clone()))),
            Route::ConnectionsSave => {
                let id = connections::saved_id(&args, "generated");
                let kept = self.keep_secrets(&args, &id);
                let items = std::mem::take(&mut self.records);
                let change = connections::save(&self.store, items, args, "generated", kept);
                self.records = change.items.unwrap();
                Ok(plain(&change.answer))
            }
            Route::ConnectionsUpdate => {
                let (id, values) = connections::update_request(&args)?;
                let kept = self.keep_secrets(&values, &id);
                let items = self.records.clone();
                let change = connections::update(&self.store, items, &id, values, kept)?;
                self.records = change.items.unwrap();
                Ok(plain(&change.answer))
            }
            Route::ConfigGet => Ok(plain(&config::get())),
            Route::PluginsInstalled => {
                Ok(plain(&plugins::installed(&self.registry.list_metadata())))
            }
            Route::PluginsScript => {
                Ok(plugins::script(&self.registry.list_metadata(), &args).into())
            }
            Route::AppsGetAllApps | Route::FilesFavorites => Ok(plain(&nothing_listed())),
            Route::SqlSelect => {
                let q = sql_select_request(&args)?;
                self.sql(&q.conid, &q.sql)
            }
            Route::RunScript => {
                let q = run_script_request(&args)?;
                let results = Backend::run(self.connected(&q.conid)?, &q.statements)?;
                let results = results.into_iter().map(|(result, _)| result).collect();
                Ok(plain(&script_result(results).to_value()))
            }
            Route::SyncModel => self.analyse(conid_request(&args, "sync_model")?),
            Route::Structure => self.analyse(conid_request(&args, "structure")?),
            Route::RefreshDatabase | Route::RefreshServer => Ok(plain(&ok_value())),
            Route::CallMethod => self.call_method(&args),
            Route::PingDatabase => self.alive(&args, "ping"),
            Route::StatusDatabase => self.alive(&args, "status"),
            Route::Disconnect => {
                let conid = conid_request(&args, "disconnect")?;
                match self.connections.remove(conid) {
                    Some(conn) => conn.close().map_err(|(_, e)| route_error(&e.to_string()))?,
                    None => return Err(unknown_connection(conid)),
                }
                Ok(plain(&ok_value()))
            }
            Route::ListDatabases => self.databases(conid_request(&args, "list_databases")?),
            Route::BackupNative => {
                let (conid, _) = backup_request(&args)?;
                self.native(&conid, false)
            }
            Route::RestoreNative => {
                let (conid, _) = restore_request(&args)?;
                self.native(&conid, true)
            }
            Route::SessionsCreate => {
                let (conid, database) = create_request(&args)?;
                let conn = self.connect(&conid)?;
                Ok(plain(&self.sessions.create(conid, database, conn)))
            }
            Route::SessionsExecuteReader => {
                let (conid, sql) = execute_reader_request(&args)?;
                let events = Backend::stream(self.connected(&conid)?, &sql)?;
                let jslids = self.collect(events, None, true);
                Ok(plain(&reader_answer(&jslids)?))
            }
            Route::SessionsExecuteQuery => {
                let (sesid, sql) = execute_query_request(&args)?;
                let events = Backend::stream(&self.sessions.get(&sesid)?.handle, &sql)?;
                let jslids = self.collect(events, Some(&sesid), false);
                Ok(plain(&query_answer(&jslids)))
            }
            Route::SessionsStopLoadingReader => {
                Ok(plain(&stop_loading_reader(&mut self.jsl, &args)?))
            }
            Route::SessionsSetIsolationLevel => {
                Ok(plain(&self.sessions.set_isolation_level(&args)?))
            }
            Route::SessionsKill => {
                let (conn, event) = self.sessions.kill(&args)?;
                conn.close().map_err(|(_, e)| route_error(&e.to_string()))?;
                self.emitted.push(event);
                Ok(plain(&ok_value()))
            }
            Route::SessionsPing => Ok(plain(&self.sessions.ping(&args)?)),
            Route::JsldataGetStats => Ok(plain(&jsldata::get_stats(&self.jsl, &args)?)),
            Route::JsldataGetRows => Ok(plain(&jsldata::get_rows(&self.jsl, &args)?)),
            other => panic!("not served here: {}", other.name()),
        }
    }

    fn native(&mut self, conid: &str, restore: bool) -> Result<serde_json::Value, String> {
        let def = self.load_definition(conid)?;
        let caps = self.registry.get(&def.engine).map(|d| d.capabilities());
        engine_context(caps, &def, restore)?;
        panic!("no tool is run here")
    }

    fn stats(&self, jslid: &str) -> serde_json::Value {
        plain(&self.jsl.jsl_stats(jslid).unwrap())
    }

    fn row(&self, jslid: &str, i: u64) -> serde_json::Value {
        plain(&self.jsl.jsl_rows(jslid, i, 1).unwrap()[0])
    }

    fn session(&mut self) -> String {
        let created = self.call("sessions_create", r#"{"conid": "saved-sqlite"}"#).unwrap();
        created["sesid"].as_str().unwrap().to_string()
    }

    fn execute(&mut self, sesid: &str, sql: &str) -> Result<serde_json::Value, String> {
        self.call("sessions_execute_query", &format!(r#"{{"sesid": "{sesid}", "sql": "{sql}"}}"#))
    }
}

fn ok_status() -> serde_json::Value {
    serde_json::from_str(r#"{ "status": "ok" }"#).unwrap()
}

fn state_is(word: &str) -> serde_json::Value {
    serde_json::from_str(&format!(r#"{{ "state": "{word}" }}"#)).unwrap()
}

// Database connections --------------------------------------------------------

#[test]
fn sql_select_returns_rows_from_sqlite() {
    let mut state = Backend::new();
    state.open_sqlite("sqlite-test");
    state
        .call(
            "database_connections_run_script",
            r#"{"conid": "sqlite-test", "sql": "CREATE TABLE t (id INTEGER PRIMARY KEY, name TEXT)"}"#,
        )
        .unwrap();
    state
        .call(
            "database_connections_run_script",
            r#"{"conid": "sqlite-test", "sql": "INSERT INTO t (name) VALUES ('a'), ('b')"}"#,
        )
        .unwrap();
    let result = state
        .call(
            "database_connections_sql_select",
            r#"{"conid": "sqlite-test", "sql": "SELECT * FROM t ORDER BY id", "limit": 1000}"#,
        )
        .unwrap();
    assert_eq!(result["rows"].as_array().unwrap().len(), 2);
    assert_eq!(result["columns"].as_array().unwrap().len(), 2);
    assert_eq!(result["columns"][0]["columnName"], "id");
    assert_eq!(result["rows"][0]["name"], "a");
}

#[test]
fn sql_select_unknown_conid_errors() {
    let mut state = Backend::new();
    let err = state
        .call("database_connections_sql_select", r#"{"conid": "nope", "sql": "SELECT 1"}"#)
        .unwrap_err();
    assert!(err.starts_with("DBGM-00000"));
    assert!(err.contains("Unknown connection nope"));
}

#[test]
fn sql_select_route_dispatches() {
    let mut state = Backend::new();
    state.open_sqlite("sqlite-route");
    let result = state
        .call(
            "database_connections_sql_select",
            r#"{"conid": "sqlite-route", "sql": "SELECT 1 AS one"}"#,
        )
        .unwrap();
    assert_eq!(result["rows"][0]["one"], 1);
}

#[test]
fn sql_select_auto_connects_from_saved_definition() {
    let mut state = Backend::new();
    state.save_sqlite_connection("saved-sqlite");
    let result = state
        .call(
            "database_connections_sql_select",
            r#"{"conid": "saved-sqlite", "sql": "SELECT 1 AS one"}"#,
        )
        .unwrap();
    assert_eq!(result["rows"][0]["one"], 1);
    assert!(state.connections.contains_key("saved-sqlite"));
}

#[test]
fn select_requests_carry_their_limit() {
    let q = sql_select_request(&json(r#"{"conid":"c","sql":"s","limit":5}"#)).unwrap();
    assert_eq!(q.options.range, Some((0, 5)));
    let q = sql_select_request(&json(r#"{"conid":"c","sql":"s"}"#)).unwrap();
    assert_eq!(q.options.range, Some((0, 1000)));
    match sql_select_request(&json("{}")) {
        Err(e) => assert_eq!(e, "DBGM-00000: sql_select missing conid"),
        Ok(_) => panic!("expected an error"),
    }
    let q = run_script_request(&json(r#"{"conid":"c","sql":"a; 'b;c' ;;"}"#)).unwrap();
    assert_eq!(q.statements, vec!["a", "'b;c'"]);
    match run_script_request(&json(r#"{"conid":"c"}"#)) {
        Err(e) => assert_eq!(e, "DBGM-00000: run_script missing sql"),
        Ok(_) => panic!("expected an error"),
    }
}

#[test]
fn sync_model_returns_database_info() {
    let mut state = Backend::new();
    state.open_sqlite("sqlite-sync");
    state
        .call(
            "database_connections_run_script",
            r#"{"conid": "sqlite-sync", "sql": "CREATE TABLE t (id INTEGER PRIMARY KEY, name TEXT)"}"#,
        )
        .unwrap();
    let result =
        state.call("database_connections_sync_model", r#"{"conid": "sqlite-sync"}"#).unwrap();
    let tables = result["tables"].as_array().unwrap();
    assert_eq!(tables.len(), 1);
    assert_eq!(tables[0]["object"]["pureName"], "t");
    assert_eq!(tables[0]["columns"][0]["columnName"], "id");
}

#[test]
fn sync_model_route_dispatches() {
    let mut state = Backend::new();
    state.save_sqlite_connection("sync-route");
    let result =
        state.call("database_connections_sync_model", r#"{"conid": "sync-route"}"#).unwrap();
    assert!(result["tables"].is_array());
}

#[test]
fn sync_model_unknown_conid_errors() {
    let mut state = Backend::new();
    let err = state.call("database_connections_sync_model", r#"{"conid": "nope"}"#).unwrap_err();
    assert!(err.starts_with("DBGM-00000"));
    assert!(err.contains("Unknown connection nope"));
}

#[test]
fn database_connections_refresh_returns_ok() {
    let mut state = Backend::new();
    let result = state.call("database_connections_refresh", "{}").unwrap();
    assert_eq!(result, ok_status());
}

#[test]
fn call_method_get_version_returns_version_text() {
    let mut state = Backend::new();
    state.open_sqlite("sqlite-version");
    let result = state
        .call(
            "database_connections_call_method",
            r#"{"conid": "sqlite-version", "method": "getVersion"}"#,
        )
        .unwrap();
    assert!(result["version"].as_str().is_some());
    assert!(result["versionText"].as_str().unwrap().starts_with("SQLite"));
}

#[test]
fn call_method_list_databases_returns_main() {
    let mut state = Backend::new();
    state.open_sqlite("sqlite-dbs");
    let result = state
        .call(
            "database_connections_call_method",
            r#"{"conid": "sqlite-dbs", "method": "listDatabases"}"#,
        )
        .unwrap();
    let dbs = result.as_array().unwrap();
    assert_eq!(dbs[0]["name"], "main");
}

#[test]
fn call_method_analyse_single_table_returns_table() {
    let mut state = Backend::new();
    state.open_sqlite("sqlite-opts");
    state
        .call(
            "database_connections_run_script",
            r#"{"conid": "sqlite-opts", "sql": "CREATE TABLE t (id INTEGER PRIMARY KEY, name TEXT)"}"#,
        )
        .unwrap();
    let result = state
        .call(
            "database_connections_call_method",
            r#"{"conid": "sqlite-opts", "method": "analyseSingleTable", "args": {"pureName": "t"}}"#,
        )
        .unwrap();
    assert_eq!(result["object"]["pureName"], "t");
    assert!(result["columns"].is_array());
}

#[test]
fn call_method_unknown_method_errors() {
    let mut state = Backend::new();
    state.open_sqlite("sqlite-bad");
    let err = state
        .call(
            "database_connections_call_method",
            r#"{"conid": "sqlite-bad", "method": "bogus"}"#,
        )
        .unwrap_err();
    assert!(err.starts_with("DBGM-00000"));
    assert!(err.contains("Unknown method bogus"));
}

#[test]
fn ping_returns_ok_for_open_connection() {
    let mut state = Backend::new();
    state.open_sqlite("sqlite-ping");
    let result = state.call("database_connections_ping", r#"{"conid": "sqlite-ping"}"#).unwrap();
    assert_eq!(result, ok_status());
}

#[test]
fn ping_unknown_conid_errors() {
    let mut state = Backend::new();
    let err = state.call("database_connections_ping", r#"{"conid": "nope"}"#).unwrap_err();
    assert!(err.starts_with("DBGM-00000"));
    assert!(err.contains("Unknown connection nope"));
}

#[test]
fn structure_returns_database_info() {
    let mut state = Backend::new();
    state.open_sqlite("sqlite-structure");
    state
        .call(
            "database_connections_run_script",
            r#"{"conid": "sqlite-structure", "sql": "CREATE TABLE t (id INTEGER PRIMARY KEY, name TEXT)"}"#,
        )
        .unwrap();
    let result =
        state.call("database_connections_structure", r#"{"conid": "sqlite-structure"}"#).unwrap();
    let tables = result["tables"].as_array().unwrap();
    assert_eq!(tables.len(), 1);
    assert_eq!(tables[0]["object"]["pureName"], "t");
}

#[test]
fn structure_unknown_conid_errors() {
    let mut state = Backend::new();
    let err = state.call("database_connections_structure", r#"{"conid": "nope"}"#).unwrap_err();
    assert!(err.starts_with("DBGM-00000"));
    assert!(err.contains("Unknown connection nope"));
}

#[test]
fn status_returns_ok_for_open_connection() {
    let mut state = Backend::new();
    state.open_sqlite("sqlite-status");
    let result =
        state.call("database_connections_status", r#"{"conid": "sqlite-status"}"#).unwrap();
    assert_eq!(result, ok_status());
}

#[test]
fn disconnect_removes_connection() {
    let mut state = Backend::new();
    state.open_sqlite("sqlite-disc");
    let result =
        state.call("database_connections_disconnect", r#"{"conid": "sqlite-disc"}"#).unwrap();
    assert_eq!(result, ok_status());
    assert!(!state.connections.contains_key("sqlite-disc"));
}

#[test]
fn disconnect_unknown_conid_errors() {
    let mut state = Backend::new();
    let err = state.call("database_connections_disconnect", r#"{"conid": "nope"}"#).unwrap_err();
    assert!(err.starts_with("DBGM-00000"));
    assert!(err.contains("Unknown connection nope"));
}

// Server connections ----------------------------------------------------------

#[test]
fn server_connections_refresh_returns_ok() {
    let mut state = Backend::new();
    let result = state.call("server_connections_refresh", "{}").unwrap();
    assert_eq!(result, ok_status());
}

#[test]
fn list_databases_returns_main_for_sqlite() {
    let mut state = Backend::new();
    state.save_sqlite_connection("saved-sqlite");
    let result = state
        .call("server_connections_list_databases", r#"{"conid": "saved-sqlite"}"#)
        .unwrap();
    let dbs = result.as_array().unwrap();
    assert_eq!(dbs[0]["name"], "main");
    assert!(state.connections.contains_key("saved-sqlite"));
}

#[test]
fn list_databases_unknown_conid_errors() {
    let mut state = Backend::new();
    let err = state.call("server_connections_list_databases", r#"{"conid": "nope"}"#).unwrap_err();
    assert!(err.starts_with("DBGM-00000"));
    assert!(err.contains("Unknown connection nope"));
}

// Backup ----------------------------------------------------------------------

#[test]
fn backup_native_rejects_non_capable_engine() {
    let mut state = Backend::new();
    state.save_sqlite_connection("sqlite-backup");
    let err = state
        .call("database_connections_backup_native", r#"{"conid": "sqlite-backup"}"#)
        .unwrap_err();
    assert!(err.starts_with("DBGM-00000"));
    assert!(err.contains(&format!("native backup not supported for {SQLITE_ENGINE}")));
}

#[test]
fn restore_native_rejects_non_capable_engine() {
    let mut state = Backend::new();
    state.save_sqlite_connection("sqlite-restore");
    let err = state
        .call(
            "database_connections_restore_native",
            r#"{"conid": "sqlite-restore", "path": "/tmp/dump.sql"}"#,
        )
        .unwrap_err();
    assert!(err.starts_with("DBGM-00000"));
    assert!(err.contains(&format!("native restore not supported for {SQLITE_ENGINE}")));
}

#[test]
fn backup_native_unknown_conid_errors() {
    let mut state = Backend::new();
    let err = state.call("database_connections_backup_native", r#"{"conid": "nope"}"#).unwrap_err();
    assert!(err.starts_with("DBGM-00000"));
    assert!(err.contains("Unknown connection nope"));
}

#[test]
fn backup_native_missing_conid_errors() {
    let mut state = Backend::new();
    let err = state.call("database_connections_backup_native", "{}").unwrap_err();
    assert!(err.starts_with("DBGM-00000"));
    assert!(err.contains("backup_native missing conid"));
}

#[test]
fn restore_native_missing_path_errors() {
    let mut state = Backend::new();
    let err =
        state.call("database_connections_restore_native", r#"{"conid": "nope"}"#).unwrap_err();
    assert!(err.starts_with("DBGM-00000"));
    assert!(err.contains("restore_native missing path"));
}

// Sessions --------------------------------------------------------------------

#[test]
fn create_returns_sesid_and_opens_session() {
    let mut state = Backend::new();
    state.save_sqlite_connection("saved-sqlite");
    let result = state
        .call("sessions_create", r#"{"conid": "saved-sqlite", "database": "main"}"#)
        .unwrap();
    let sesid = result["sesid"].as_str().unwrap();
    assert!(!sesid.is_empty());
    match state.sessions.get(sesid) {
        Ok(session) => assert_eq!(session.database.as_deref(), Some("main")),
        Err(e) => panic!("{e}"),
    }
}

#[test]
fn create_unknown_conid_errors() {
    let mut state = Backend::new();
    let err = state.call("sessions_create", r#"{"conid": "nope"}"#).unwrap_err();
    assert!(err.starts_with("DBGM-00000"));
    assert!(err.contains("Unknown connection nope"));
}

#[test]
fn execute_reader_returns_jslid_and_emits_jslid_done() {
    let mut state = Backend::new();
    state.save_sqlite_connection("saved-sqlite");
    let result = state
        .call(
            "sessions_execute_reader",
            r#"{"conid": "saved-sqlite", "database": "main", "sql": "SELECT 1 AS one"}"#,
        )
        .unwrap();
    let jslid = result["jslid"].as_str().unwrap();
    let stats = state.stats(jslid);
    assert_eq!(stats["rowCount"], 1);
    assert_eq!(stats["isFinished"], true);
    assert_eq!(state.row(jslid, 0)["one"], 1);
    assert!(state.emitted.iter().any(|e| e.name == format!("session-jslid-done-{jslid}")));
    assert!(state.emitted.iter().all(|e| !e.name.starts_with("session-recordset-")));
}

#[test]
fn execute_reader_unknown_conid_errors() {
    let mut state = Backend::new();
    let err = state
        .call("sessions_execute_reader", r#"{"conid": "nope", "sql": "SELECT 1"}"#)
        .unwrap_err();
    assert!(err.starts_with("DBGM-00000"));
    assert!(err.contains("Unknown connection nope"));
}

#[test]
fn execute_reader_auto_connects_from_saved_definition() {
    let mut state = Backend::new();
    state.save_sqlite_connection("saved-sqlite");
    let result = state
        .call("sessions_execute_reader", r#"{"conid": "saved-sqlite", "sql": "SELECT 1 AS one"}"#)
        .unwrap();
    let jslid = result["jslid"].as_str().unwrap();
    assert!(state.connections.contains_key("saved-sqlite"));
    assert_eq!(state.stats(jslid)["rowCount"], 1);
}

#[test]
fn execute_reader_without_result_set_errors() {
    let mut state = Backend::new();
    state.save_sqlite_connection("saved-sqlite");
    let err = state
        .call(
            "sessions_execute_reader",
            r#"{"conid": "saved-sqlite", "sql": "CREATE TABLE t (id INTEGER)"}"#,
        )
        .unwrap_err();
    assert_eq!(err, "DBGM-00000: execute_reader produced no result set");
}

#[test]
fn execute_query_emits_recordsets_and_done() {
    let mut state = Backend::new();
    state.save_sqlite_connection("saved-sqlite");
    let sesid = state.session();
    let result = state.execute(&sesid, "SELECT 1 AS one").unwrap();
    assert_eq!(result["status"], "ok");
    let jslids = result["jslids"].as_array().unwrap();
    assert_eq!(jslids.len(), 1);
    let jslid = jslids[0].as_str().unwrap();

    assert_eq!(state.stats(jslid)["rowCount"], 1);
    assert_eq!(state.stats(jslid)["isFinished"], true);

    let recordset = state
        .emitted
        .iter()
        .find(|e| e.name == format!("session-recordset-{sesid}"))
        .expect("recordset event");
    let payload = plain(&recordset.payload);
    assert_eq!(payload["jslid"], jslid);
    assert_eq!(payload["resultIndex"], 0);
    assert_eq!(payload["columns"][0]["columnName"], "one");
    assert!(state.emitted.iter().any(|e| e.name == format!("session-done-{sesid}")));
}

#[test]
fn execute_query_emits_info_for_affected_rows() {
    let mut state = Backend::new();
    state.save_sqlite_connection("saved-sqlite");
    let sesid = state.session();
    state.execute(&sesid, "CREATE TABLE t (id INTEGER PRIMARY KEY, name TEXT)").unwrap();
    let result = state.execute(&sesid, "INSERT INTO t (name) VALUES ('x')").unwrap();
    assert_eq!(result["jslids"].as_array().unwrap().len(), 0);

    let info = state
        .emitted
        .iter()
        .find(|e| e.name == format!("session-info-{sesid}"))
        .expect("info event");
    let payload = plain(&info.payload);
    assert_eq!(payload["message"], "1 rows affected");
    assert_eq!(payload["severity"], "info");
}

#[test]
fn execute_query_multiple_statements_produce_multiple_recordsets() {
    let mut state = Backend::new();
    state.save_sqlite_connection("saved-sqlite");
    let sesid = state.session();
    let result = state.execute(&sesid, "SELECT 1 AS one; SELECT 2 AS two").unwrap();
    let jslids = result["jslids"].as_array().unwrap();
    assert_eq!(jslids.len(), 2);
    assert_eq!(state.stats(jslids[0].as_str().unwrap())["rowCount"], 1);
    assert_eq!(state.stats(jslids[1].as_str().unwrap())["rowCount"], 1);
    assert_eq!(state.row(jslids[1].as_str().unwrap(), 0)["two"], 2);

    let indices: Vec<u64> = state
        .emitted
        .iter()
        .filter(|e| e.name == format!("session-recordset-{sesid}"))
        .map(|e| plain(&e.payload)["resultIndex"].as_u64().unwrap())
        .collect();
    assert_eq!(indices, vec![0, 1]);
}

#[test]
fn execute_query_unknown_sesid_errors() {
    let mut state = Backend::new();
    let err = state.execute("nope", "SELECT 1").unwrap_err();
    assert!(err.starts_with("DBGM-00000"));
    assert!(err.contains("Invalid session nope"));
}

#[test]
fn stop_loading_reader_removes_jslid() {
    let mut state = Backend::new();
    state.save_sqlite_connection("saved-sqlite");
    let sesid = state.session();
    let jslid = state.execute(&sesid, "SELECT 1").unwrap()["jslids"][0].as_str().unwrap().to_string();
    let resp = state
        .call("sessions_stop_loading_reader", &format!(r#"{{"jslid": "{jslid}"}}"#))
        .unwrap();
    assert_eq!(resp, ok_status());
    assert!(state.jsl.jsl_stats(&jslid).is_none());
    assert!(state.emitted.iter().any(|e| e.name.starts_with("jsldata-stats-")));
}

#[test]
fn stop_loading_reader_unknown_jslid_is_ok() {
    let mut state = Backend::new();
    let resp = state.call("sessions_stop_loading_reader", r#"{"jslid": "nope"}"#).unwrap();
    assert_eq!(resp, ok_status());
}

#[test]
fn session_routes_dispatch() {
    let mut state = Backend::new();
    state.save_sqlite_connection("saved-sqlite");
    let sesid = state.session();
    let result = state.execute(&sesid, "SELECT 2 AS two").unwrap();
    let jslid = result["jslids"][0].as_str().unwrap();
    assert_eq!(state.row(jslid, 0)["two"], 2);

    let reader = state
        .call("sessions_execute_reader", r#"{"conid": "saved-sqlite", "sql": "SELECT 3 AS three"}"#)
        .unwrap();
    let reader_jslid = reader["jslid"].as_str().unwrap();
    assert_eq!(state.row(reader_jslid, 0)["three"], 3);

    let resp = state
        .call("sessions_stop_loading_reader", &format!(r#"{{"jslid": "{reader_jslid}"}}"#))
        .unwrap();
    assert_eq!(resp, ok_status());
    assert!(state.jsl.jsl_stats(reader_jslid).is_none());
    assert!(state.emitted.iter().any(|e| e.name.contains("session-")));
}

#[test]
fn set_isolation_level_returns_ok_and_stores_level() {
    let mut state = Backend::new();
    state.save_sqlite_connection("saved-sqlite");
    let sesid = state.session();
    let resp = state
        .call(
            "sessions_set_isolation_level",
            &format!(r#"{{"sesid": "{sesid}", "level": "serializable"}}"#),
        )
        .unwrap();
    assert_eq!(resp, ok_status());
    match state.sessions.get(&sesid) {
        Ok(s) => assert_eq!(s.isolation_level.as_deref(), Some("serializable")),
        Err(e) => panic!("{e}"),
    }
}

#[test]
fn set_isolation_level_unknown_sesid_errors() {
    let mut state = Backend::new();
    let err = state
        .call("sessions_set_isolation_level", r#"{"sesid": "nope", "level": "serializable"}"#)
        .unwrap_err();
    assert!(err.starts_with("DBGM-00000"));
    assert!(err.contains("Invalid session nope"));
}

#[test]
fn set_isolation_level_route_dispatches() {
    let mut state = Backend::new();
    state.save_sqlite_connection("saved-sqlite");
    let sesid = state.session();
    let resp = state
        .call(
            "sessions_set_isolation_level",
            &format!(r#"{{"sesid": "{sesid}", "level": "read committed"}}"#),
        )
        .unwrap();
    assert_eq!(resp, ok_status());
}

#[test]
fn kill_removes_session_and_emits_closed() {
    let mut state = Backend::new();
    state.save_sqlite_connection("saved-sqlite");
    let sesid = state.session();
    let resp = state.call("sessions_kill", &format!(r#"{{"sesid": "{sesid}"}}"#)).unwrap();
    assert_eq!(resp, ok_status());
    assert!(state.sessions.get(&sesid).is_err());
    assert!(state.emitted.iter().any(|e| e.name == format!("session-closed-{sesid}")));
}

#[test]
fn kill_unknown_sesid_errors() {
    let mut state = Backend::new();
    let err = state.call("sessions_kill", r#"{"sesid": "nope"}"#).unwrap_err();
    assert!(err.starts_with("DBGM-00000"));
    assert!(err.contains("Invalid session nope"));
}

#[test]
fn kill_route_dispatches() {
    let mut state = Backend::new();
    state.save_sqlite_connection("saved-sqlite");
    let sesid = state.session();
    let resp = state.call("sessions_kill", &format!(r#"{{"sesid": "{sesid}"}}"#)).unwrap();
    assert_eq!(resp, ok_status());
}

#[test]
fn ping_returns_ok_for_live_session() {
    let mut state = Backend::new();
    state.save_sqlite_connection("saved-sqlite");
    let sesid = state.session();
    let resp = state.call("sessions_ping", &format!(r#"{{"sesid": "{sesid}"}}"#)).unwrap();
    assert_eq!(resp, state_is("ok"));
}

#[test]
fn ping_after_kill_returns_missing() {
    let mut state = Backend::new();
    state.save_sqlite_connection("saved-sqlite");
    let sesid = state.session();
    state.call("sessions_kill", &format!(r#"{{"sesid": "{sesid}"}}"#)).unwrap();
    let resp = state.call("sessions_ping", &format!(r#"{{"sesid": "{sesid}"}}"#)).unwrap();
    assert_eq!(resp, state_is("missing"));
}

#[test]
fn ping_route_dispatches() {
    let mut state = Backend::new();
    state.save_sqlite_connection("saved-sqlite");
    let sesid = state.session();
    let resp = state.call("sessions_ping", &format!(r#"{{"sesid": "{sesid}"}}"#)).unwrap();
    assert_eq!(resp, state_is("ok"));
}

// Result sets -----------------------------------------------------------------

#[test]
fn get_stats_paginates_rows_and_reports_finished() {
    let mut state = Backend::new();
    state.open_sqlite("sqlite-jsl");
    let seeded = state
        .call(
            "sessions_execute_reader",
            r#"{"conid": "sqlite-jsl", "sql": "SELECT 1 AS one UNION ALL SELECT 2 UNION ALL SELECT 3"}"#,
        )
        .unwrap();
    let jslid = seeded["jslid"].as_str().unwrap();

    let stats = state.call("jsldata_get_stats", &format!(r#"{{"jslid": "{jslid}"}}"#)).unwrap();
    assert_eq!(stats["rowCount"], 3);
    assert_eq!(stats["isFinished"], true);

    let page1 = state
        .call("jsldata_get_rows", &format!(r#"{{"jslid": "{jslid}", "offset": 0, "limit": 2}}"#))
        .unwrap();
    assert_eq!(page1["rows"].as_array().unwrap().len(), 2);
    assert_eq!(page1["rows"][0]["one"], 1);

    let page2 = state
        .call("jsldata_get_rows", &format!(r#"{{"jslid": "{jslid}", "offset": 2, "limit": 2}}"#))
        .unwrap();
    assert_eq!(page2["rows"].as_array().unwrap().len(), 1);
    assert_eq!(page2["rows"][0]["one"], 3);
}

#[test]
fn get_stats_unknown_jslid_errors() {
    let mut state = Backend::new();
    let err = state.call("jsldata_get_stats", r#"{"jslid": "nope"}"#).unwrap_err();
    assert!(err.starts_with("DBGM-00000"));
    assert!(err.contains("Invalid jslid nope"));
}

#[test]
fn get_rows_unknown_jslid_errors() {
    let mut state = Backend::new();
    let err = state.call("jsldata_get_rows", r#"{"jslid": "nope"}"#).unwrap_err();
    assert!(err.starts_with("DBGM-00000"));
    assert!(err.contains("Invalid jslid nope"));
}

#[test]
fn jsldata_routes_dispatch() {
    let mut state = Backend::new();
    state.open_sqlite("sqlite-jsl");
    let made = state
        .call("sessions_execute_reader", r#"{"conid": "sqlite-jsl", "sql": "SELECT 1 AS one"}"#)
        .unwrap();
    let jslid = made["jslid"].as_str().unwrap();
    let stats = state.call("jsldata_get_stats", &format!(r#"{{"jslid": "{jslid}"}}"#)).unwrap();
    assert_eq!(stats["rowCount"], 1);
    let rows = state.call("jsldata_get_rows", &format!(r#"{{"jslid": "{jslid}"}}"#)).unwrap();
    assert_eq!(rows["rows"][0]["one"], 1);
}

// The whole -------------------------------------------------------------------

#[test]
fn plugins_installed_route_dispatches() {
    let mut state = Backend::new();
    let res = state.call("plugins_installed", "{}").unwrap();
    assert_eq!(res.as_array().expect("array").len(), 8);
}

#[test]
fn connections_list_returns_empty_array_fresh() {
    let mut state = Backend::new();
    let res = state.call("connections_list", "{}").unwrap();
    assert_eq!(res, serde_json::Value::Array(vec![]));
}

#[test]
fn plugins_script_returns_js_module_for_sqlite() {
    let mut state = Backend::new();
    let res =
        state.call("plugins_script", r#"{ "packageName": "dbgate-plugin-sqlite" }"#).unwrap();
    let js = res.as_str().expect("js string");
    assert!(js.starts_with("var plugin = "));
    assert!(js.contains("\"__esModule\": true"));
    assert!(js.contains("\"drivers\": ["));
    assert!(js.contains("engine: \"sqlite@dbgate-plugin-sqlite\""));
    assert!(js.contains("showConnectionField"));
    assert!(js.contains("beforeConnectionSave"));
}

#[test]
fn plugins_script_returns_empty_module_for_unknown_package() {
    let mut state = Backend::new();
    let res = state
        .call("plugins_script", r#"{ "packageName": "dbgate-plugin-does-not-exist" }"#)
        .unwrap();
    let js = res.as_str().expect("js string");
    assert!(js.starts_with("var plugin = "));
    assert!(js.contains("\"__esModule\": true"));
    assert!(js.contains("\"drivers\": ["));
    // no engine produced any driver object
    assert!(!js.contains("showConnectionField"));
}

#[test]
fn apps_get_all_apps_returns_empty_array() {
    let mut state = Backend::new();
    let res = state.call("apps_get_all_apps", "{}").unwrap();
    assert_eq!(res, serde_json::Value::Array(vec![]));
}

#[test]
fn files_favorites_returns_empty_array() {
    let mut state = Backend::new();
    let res = state.call("files_favorites", "{}").unwrap();
    assert_eq!(res, serde_json::Value::Array(vec![]));
}

#[test]
fn config_get_returns_config_object() {
    let mut state = Backend::new();
    let res = state.call("config_get", "{}").unwrap();
    assert_eq!(res["isElectron"], true);
    assert_eq!(res["isTauri"], true);
    assert_eq!(res["skipAllAuth"], true);
}

#[test]
fn sqlite_save_list_select_round_trip() {
    let mut state = Backend::new();
    let saved = state
        .call(
            "connections_save",
            r#"{
            "_id": "saved-sqlite",
            "engine": "sqlite@dbgate-plugin-sqlite",
            "name": "saved",
            "databaseFile": ":memory:"
        }"#,
        )
        .unwrap();
    assert_eq!(saved["_id"], "saved-sqlite");

    let list = state.call("connections_list", "{}").unwrap();
    let arr = list.as_array().expect("array");
    assert_eq!(arr.len(), 1);
    assert_eq!(arr[0]["_id"], "saved-sqlite");

    let rows = state
        .call(
            "database_connections_sql_select",
            r#"{ "conid": "saved-sqlite", "sql": "SELECT 1 AS one" }"#,
        )
        .unwrap();
    assert_eq!(rows["rows"][0]["one"], 1);
}

#[test]
fn a_script_runs_all_its_statements() {
    let mut state = Backend::new();
    state.open_sqlite("script");
    let answer = state
        .call(
            "database_connections_run_script",
            r#"{"conid": "script", "sql": "CREATE TABLE t (n INTEGER); INSERT INTO t VALUES (1), (2); SELECT COUNT(*) AS c FROM t"}"#,
        )
        .unwrap();
    assert_eq!(answer["rows"][0]["c"], 2);
    let empty =
        state.call("database_connections_run_script", r#"{"conid": "script", "sql": " ; "}"#);
    assert_eq!(empty.unwrap()["rows"].as_array().unwrap().len(), 0);
}

#[test]
fn a_failing_script_leaves_nothing_behind() {
    let mut state = Backend::new();
    state.open_sqlite("script");
    let run = |state: &mut Backend, sql: &str| {
        state.call(
            "database_connections_run_script",
            &format!(r#"{{"conid": "script", "sql": "{sql}"}}"#),
        )
    };
    run(&mut state, "CREATE TABLE t (n INTEGER)").unwrap();
    let failed = run(&mut state, "INSERT INTO t VALUES (1); INSERT INTO nowhere VALUES (1)");
    assert!(failed.unwrap_err().starts_with("DBGM-00000: "));
    let count = run(&mut state, "SELECT COUNT(*) AS c FROM t").unwrap();
    assert_eq!(count["rows"][0]["c"], 0);
    run(&mut state, "INSERT INTO t VALUES (1); INSERT INTO t VALUES (2)").unwrap();
    let count = run(&mut state, "SELECT COUNT(*) AS c FROM t").unwrap();
    assert_eq!(count["rows"][0]["c"], 2);
}

#[test]
fn a_failing_stream_leaves_nothing_behind() {
    let mut state = Backend::new();
    state.save_sqlite_connection("saved-sqlite");
    let sesid = state.session();
    state.execute(&sesid, "CREATE TABLE t (n INTEGER)").unwrap();
    assert!(state.execute(&sesid, "INSERT INTO t VALUES (1); SELECT * FROM nowhere").is_err());
    let answer = state.execute(&sesid, "SELECT COUNT(*) AS c FROM t").unwrap();
    let jslid = answer["jslids"][0].as_str().unwrap().to_string();
    assert_eq!(state.row(&jslid, 0)["c"], 0);
}

#[test]
fn a_saved_password_is_kept_in_the_vault() {
    let mut state = Backend::new();
    state.vault = Some(KeyedMap::new());
    let saved = state
        .call(
            "connections_save",
            r#"{"_id": "pg", "engine": "postgres@dbgate-plugin-postgres", "name": "n",
                "password": "hunter2",
                "extra": {"sshPassword": "s1", "sshPassphrase": "s2", "other": "o"}}"#,
        )
        .unwrap();
    assert_eq!(saved["password"], "keyring:pg");
    let list = state.call("connections_list", "{}").unwrap();
    assert_eq!(list[0]["password"], "keyring:pg");
    assert_eq!(list[0]["extra"]["sshPassword"], "keyring:pg:sshPassword");
    assert_eq!(list[0]["extra"]["sshPassphrase"], "keyring:pg:sshPassphrase");
    assert_eq!(list[0]["extra"]["other"], "o");
    assert!(!list.to_string().contains("hunter2"));
    assert_eq!(state.load_definition("pg").unwrap().password.as_deref(), Some("hunter2"));
    let whole = plain(&state.with_secrets(state.records[0].clone()));
    assert_eq!(whole["extra"]["sshPassword"], "s1");
    assert_eq!(whole["extra"]["sshPassphrase"], "s2");

    state
        .call("connections_update", r#"{"_id": "pg", "values": {"password": "changed"}}"#)
        .unwrap();
    let list = state.call("connections_list", "{}").unwrap();
    assert_eq!(list[0]["password"], "keyring:pg");
    assert_eq!(state.load_definition("pg").unwrap().password.as_deref(), Some("changed"));
}

#[test]
fn without_a_vault_the_password_stays_in_the_record() {
    let mut state = Backend::new();
    let saved = state
        .call(
            "connections_save",
            r#"{"engine": "postgres@dbgate-plugin-postgres", "name": "n", "password": "hunter2"}"#,
        )
        .unwrap();
    assert_eq!(saved["_id"], "generated");
    let list = state.call("connections_list", "{}").unwrap();
    assert_eq!(list[0]["password"], "hunter2");
    assert_eq!(state.load_definition("generated").unwrap().password.as_deref(), Some("hunter2"));
}

#[test]
fn a_placeholder_is_saved_as_it_is() {
    let mut state = Backend::new();
    let mut vault = KeyedMap::new();
    vault.insert("pg".to_string(), "hunter2".to_string());
    state.vault = Some(vault);
    state
        .call(
            "connections_save",
            r#"{"_id": "pg", "engine": "postgres@dbgate-plugin-postgres", "name": "n",
                "password": "keyring:pg"}"#,
        )
        .unwrap();
    let list = state.call("connections_list", "{}").unwrap();
    assert_eq!(list[0]["password"], "keyring:pg");
    assert_eq!(state.load_definition("pg").unwrap().password.as_deref(), Some("hunter2"));
}
