//! The routes, one by one.
use dbgate::connection::ConnectionDefinition;
use dbgate::drivers::mysql::MYSQL_ENGINE;
use dbgate::drivers::postgres::POSTGRES_ENGINE;
use dbgate::drivers::sqlite::SQLITE_ENGINE;
use dbgate::engines::builtin_registry;
use dbgate::jsl::JslStore;
use dbgate::query::QueryResultColumn;
use dbgate::routes::backup::{
    backup_answer, child_env, connection_args, dump_file_name, engine_context, native_command,
    native_tool, restore_answer, spawn_error, ToolKind,
};
use dbgate::routes::config::{get, get_settings, platform_info, update_settings, updated, Platform};
use dbgate::routes::connections::{
    delete, delete_request, file_text, invalid_json, io_err, list, new_id, record_texts, save,
    saved_id, update, update_database, update_database_request, update_request, ConnectionsStore,
};
use dbgate::routes::connections::get_request as connections_get_request;
use dbgate::routes::database_connections::{
    driver_method, invalid_definition, invalid_table_name, next_conn_id,
};
use dbgate::routes::plugins::{installed, one_per_package, script};
use dbgate::routes::query_history::{entry, history_line};
use dbgate::routes::{dispatch, no_driver, ok_value, route_error};
use dbgate::value::Value;

/// The library's value for a parsed JSON value.
fn convert(v: &serde_json::Value) -> Value {
    match v {
        serde_json::Value::Null => Value::Null,
        serde_json::Value::Bool(b) => Value::Bool(*b),
        serde_json::Value::Number(n) => {
            if let Some(i) = n.as_i64() {
                Value::Int(i as i128)
            } else if let Some(u) = n.as_u64() {
                Value::Int(u as i128)
            } else {
                Value::Double(n.as_f64().unwrap().to_bits())
            }
        }
        serde_json::Value::String(s) => Value::Str(s.clone()),
        serde_json::Value::Array(a) => Value::Array(a.iter().map(convert).collect()),
        serde_json::Value::Object(o) => {
            Value::Object(o.iter().map(|(k, x)| (k.clone(), convert(x))).collect())
        }
    }
}

/// The value that a JSON text stands for.
fn json(text: &str) -> Value {
    convert(&serde_json::from_str(text).unwrap())
}

/// The serde value for one of the library.
fn plain(v: &Value) -> serde_json::Value {
    match v {
        Value::Null => serde_json::Value::Null,
        Value::Bool(b) => serde_json::Value::Bool(*b),
        Value::Int(n) => match i64::try_from(*n) {
            Ok(i) => serde_json::Value::from(i),
            Err(_) => serde_json::Value::from(*n as u64),
        },
        Value::Double(d) => serde_json::Value::from(f64::from_bits(*d)),
        Value::Str(s) => serde_json::Value::from(s.as_str()),
        Value::Array(a) => serde_json::Value::Array(a.iter().map(plain).collect()),
        Value::Object(o) => {
            serde_json::Value::Object(o.iter().map(|(k, x)| (k.clone(), plain(x))).collect())
        }
    }
}

// Plugins ---------------------------------------------------------------------

#[test]
fn installed_returns_engine_metadata() {
    let res = plain(&installed(&builtin_registry().list_metadata()));
    let arr = res.as_array().expect("array");
    assert_eq!(arr.len(), 8);

    let mysql = arr
        .iter()
        .find(|e| e["engine"] == "mysql@dbgate-plugin-mysql")
        .expect("mysql entry");
    assert_eq!(mysql["name"], "dbgate-plugin-mysql");
    assert_eq!(mysql["displayName"], "MySQL");
    assert_eq!(mysql["defaultPort"], 3306);
    assert_eq!(mysql["databaseEngine"], "mysql");
    assert!(mysql["icons"].is_object());

    let mariadb = arr
        .iter()
        .find(|e| e["engine"] == "mariadb@dbgate-plugin-mysql")
        .expect("mariadb entry");
    assert_eq!(mariadb["name"], "dbgate-plugin-mysql");
    assert_eq!(mariadb["databaseEngine"], "mariadb");

    let sqlite = arr
        .iter()
        .find(|e| e["engine"] == "sqlite@dbgate-plugin-sqlite")
        .expect("sqlite entry");
    assert_eq!(sqlite["defaultPort"], serde_json::Value::Null);
}

#[test]
fn plugins_installed_returns_one_row_per_package() {
    let res = plain(&installed(&one_per_package(&builtin_registry().list_metadata())));
    let arr = res.as_array().expect("array");
    assert_eq!(arr.len(), 7);

    let mut names: Vec<&str> = arr.iter().map(|e| e["name"].as_str().unwrap()).collect();
    names.sort();
    names.dedup();
    assert_eq!(names.len(), 7);
    assert!(names.contains(&"dbgate-plugin-mysql"));
}

fn script_of(package: &str) -> String {
    script(
        &builtin_registry().list_metadata(),
        &json(&format!(r#"{{ "packageName": "{package}" }}"#)),
    )
}

#[test]
fn script_generates_sqlite_module() {
    let js = script_of("dbgate-plugin-sqlite");
    assert!(js.starts_with("var plugin = "));
    assert!(js.contains("\"__esModule\": true"));
    assert!(js.contains("\"drivers\": ["));
    assert!(js.contains("engine: \"sqlite@dbgate-plugin-sqlite\""));
    assert!(js.contains("title: \"SQLite\""));
    assert!(js.contains("databaseEngine: \"sqlite\""));
    assert!(js.contains("databaseEngineTypes: [\"sql\"]"));
    assert!(js.contains("showConnectionField"));
    assert!(js.contains("showConnectionTab"));
    assert!(js.contains("beforeConnectionSave"));
    assert!(js.contains("singleDatabase: true"));
    assert!(js.contains("driverBase"));
}

#[test]
fn script_generates_both_mysql_engines_for_shared_package() {
    let js = script_of("dbgate-plugin-mysql");
    assert!(js.contains("engine: \"mysql@dbgate-plugin-mysql\""));
    assert!(js.contains("engine: \"mariadb@dbgate-plugin-mysql\""));
    // two driver object literals
    assert_eq!(js.matches("showConnectionField").count(), 2);
    // sqlite-only method must not leak into the mysql package
    assert!(!js.contains("beforeConnectionSave"));
}

#[test]
fn script_returns_empty_module_for_unknown_package() {
    let js = script_of("dbgate-plugin-missing");
    assert!(js.starts_with("var plugin = "));
    assert!(js.contains("\"__esModule\": true"));
    assert!(js.contains("\"drivers\": ["));
    // no engine produced any driver object
    assert!(!js.contains("showConnectionField"));
}

// Config ----------------------------------------------------------------------

#[test]
fn get_returns_expected_structure() {
    let res = plain(&get());
    assert_eq!(res["isElectron"], true);
    assert_eq!(res["isTauri"], true);
    assert_eq!(res["singleConnection"], serde_json::Value::Null);
    assert!(res["settingsValue"].is_object());
    assert_eq!(res["skipAllAuth"], true);
}

#[test]
fn get_settings_returns_empty_when_missing() {
    assert_eq!(get_settings(None), json("{}"));
}

#[test]
fn update_settings_persists_flat_map() {
    let after = update_settings(get_settings(None), &json(r#"{ "localization.language": "cs" }"#));
    assert_eq!(plain(&updated())["status"], "ok");
    let settings = plain(&get_settings(Some(after)));
    assert_eq!(settings["localization.language"], "cs");
}

#[test]
fn update_settings_merges_with_existing() {
    let one = update_settings(get_settings(None), &json(r#"{ "a": 1 }"#));
    let two = update_settings(get_settings(Some(one)), &json(r#"{ "b": 2 }"#));
    let settings = plain(&get_settings(Some(two)));
    assert_eq!(settings["a"], 1);
    assert_eq!(settings["b"], 2);
}

#[test]
fn update_settings_accepts_wrapper() {
    let after = update_settings(get_settings(None), &json(r#"{ "settings": { "theme": "dark" } }"#));
    let settings = plain(&get_settings(Some(after)));
    assert_eq!(settings["theme"], "dark");
}

#[test]
fn settings_that_are_no_object_stay_as_they_are() {
    assert_eq!(update_settings(json("[1]"), &json(r#"{"a":1}"#)), json("[1]"));
    assert_eq!(update_settings(json(r#"{"a":1}"#), &json("2")), json(r#"{"a":1}"#));
}

#[test]
fn platform_info_reports_tauri() {
    let res = plain(&platform_info(Platform {
        is_windows: false,
        is_mac: false,
        is_linux: true,
        ssh_auth_sock: None,
        home: "/home/me".to_string(),
    }));
    assert_eq!(res["isElectron"], true);
    assert_eq!(res["isTauri"], true);
    assert_eq!(res["isDocker"], false);
    assert_eq!(res["isLinux"], true);
    assert_eq!(res["defaultKeyfile"], "/home/me/.ssh/id_rsa");
    assert_eq!(res["sshAuthSock"], serde_json::Value::Null);
}

// Connections -----------------------------------------------------------------

fn store() -> ConnectionsStore {
    ConnectionsStore::new("/data/connections.jsonl".to_string())
}

#[test]
fn round_trip_list_get_save_update() {
    let store = store();
    let conn = json(
        r#"{ "engine": "sqlite@dbgate-plugin-sqlite", "name": "test", "databaseFile": "/tmp/x.sqlite" }"#,
    );
    let (items, saved) = store.insert(Vec::new(), conn, &new_id(0x1234abcd));
    let id = saved.text("_id").unwrap().to_string();
    assert!(!id.is_empty());

    assert_eq!(items.len(), 1);
    assert_eq!(items[0].text("_id").unwrap(), id);

    let got = store.get(&items, &id);
    assert_eq!(got.text("databaseFile").unwrap(), "/tmp/x.sqlite");

    let (items, patched) = store.patch(items, &id, &json(r#"{ "port": 5432 }"#)).unwrap();
    assert_eq!(patched.uint64("port").unwrap(), 5432);
    assert_eq!(patched.text("databaseFile").unwrap(), "/tmp/x.sqlite");

    let got2 = store.get(&items, &id);
    assert_eq!(got2.uint64("port").unwrap(), 5432);
}

#[test]
fn insert_generates_unique_ids() {
    let store = store();
    let (items, a) = store.insert(Vec::new(), json(r#"{ "name": "a" }"#), &new_id(1000));
    let (items, b) = store.insert(items, json(r#"{ "name": "b" }"#), &new_id(1001));
    assert_ne!(a.text("_id").unwrap(), b.text("_id").unwrap());
    assert_eq!(items.len(), 2);
    assert_eq!(new_id(1000), "3e8");
}

#[test]
fn update_database_route_upserts() {
    let store = store();
    let (items, saved) = store.insert(
        Vec::new(),
        json(r#"{ "name": "c", "engine": "mysql@dbgate-plugin-mysql" }"#),
        &new_id(7),
    );
    let id = saved.text("_id").unwrap().to_string();
    let args = json(&format!(
        r#"{{ "conid": "{id}", "database": "orders", "values": {{ "readOnly": true }} }}"#
    ));
    let (conid, database, values) = update_database_request(&args).unwrap();
    let change = update_database(&store, items, &conid, &database, &values).unwrap();
    let res = plain(&change.answer);
    assert_eq!(res["databases"][0]["name"].as_str().unwrap(), "orders");
    assert!(res["databases"][0]["readOnly"].as_bool().unwrap());

    let again = update_database(
        &store,
        change.items.unwrap(),
        &conid,
        &database,
        &json(r#"{ "readOnly": false }"#),
    );
    let res = plain(&again.unwrap().answer);
    assert_eq!(res["databases"].as_array().unwrap().len(), 1);
    assert_eq!(res["databases"][0]["readOnly"], false);
}

#[test]
fn save_route_inserts_then_updates() {
    let store = store();
    let (items, saved) = store.insert(Vec::new(), json(r#"{ "name": "x" }"#), &new_id(7));
    let id = saved.text("_id").unwrap().to_string();

    let upd = save(
        &store,
        items,
        json(&format!(
            r#"{{ "_id": "{id}", "name": "x2", "engine": "sqlite@dbgate-plugin-sqlite" }}"#
        )),
        "unused",
        false,
    );
    assert_eq!(upd.answer.text("name").unwrap(), "x2");
    let items = upd.items.unwrap();
    let arr = plain(&list(items.clone()));
    assert_eq!(arr.as_array().unwrap().len(), 1);
    assert_eq!(arr[0]["name"].as_str().unwrap(), "x2");
    assert_eq!(arr[0]["_id"].as_str().unwrap(), id);

    let args = json(&format!(r#"{{ "conid": "{id}" }}"#));
    let removed = delete(&store, &items, delete_request(&args).unwrap());
    assert_eq!(removed.answer.text("_id").unwrap(), id);
    let arr2 = plain(&list(removed.items.unwrap()));
    assert_eq!(arr2.as_array().unwrap().len(), 0);
}

#[test]
fn a_kept_secret_is_saved_as_a_placeholder() {
    let record = json(r#"{ "name": "x", "password": "p" }"#);
    assert_eq!(saved_id(&record, "new"), "new");
    let change = save(&store(), Vec::new(), record.clone(), "new", true);
    assert_eq!(change.answer.text("password"), Some("keyring:new"));
    let items = change.items.unwrap();
    assert_eq!(store().get(&items, "new").text("password"), Some("keyring:new"));
    assert_eq!(store().get(&items, "new").text("name"), Some("x"));

    let change = save(&store(), Vec::new(), record, "new", false);
    assert_eq!(change.answer.text("password"), Some("p"));

    let carried = json(r#"{ "_id": "own", "password": "q" }"#);
    assert_eq!(saved_id(&carried, "new"), "own");
    let change = save(&store(), items, carried, "new", true);
    assert_eq!(change.answer.text("password"), Some("keyring:own"));
    assert_eq!(change.items.unwrap().len(), 2);

    let (items, _) = store().insert(Vec::new(), json(r#"{ "_id": "a" }"#), "unused");
    let changes = json(r#"{ "password": "r" }"#);
    let change = update(&store(), items.clone(), "a", changes, true).unwrap_or_else(|e| panic!("{e}"));
    assert_eq!(change.answer.text("password"), Some("keyring:a"));
    match update(&store(), items, "b", json("{}"), true) {
        Err(e) => assert!(e.contains("Cannot patch unknown connection b in ")),
        Ok(_) => panic!("expected an error"),
    }
}

#[test]
fn settings_that_are_no_object_are_a_key_like_any_other() {
    let after = update_settings(json(r#"{ "a": 1 }"#), &json(r#"{ "settings": 5, "b": 2 }"#));
    assert_eq!(plain(&after)["settings"], 5);
    assert_eq!(plain(&after)["a"], 1);
    assert_eq!(plain(&after)["b"], 2);
}

#[test]
fn records_are_kept_one_per_line() {
    let texts = vec![r#"{"_id":"a"}"#.to_string(), r#"{"_id":"b"}"#.to_string()];
    let file = file_text(&texts);
    assert_eq!(file, "{\"_id\":\"a\"}\n{\"_id\":\"b\"}\n");
    assert_eq!(record_texts(&file), texts);
    assert_eq!(record_texts("\n  {} \r\n\n"), vec!["{}"]);
    assert_eq!(invalid_json("f", "e"), "DBGM-00000: Invalid JSON in f: e");
    assert_eq!(io_err("f", "e"), "DBGM-00000: IO error on f: e");
}

#[test]
fn connection_requests_name_what_is_missing() {
    let none = json("{}");
    assert_eq!(
        connections_get_request(&none).unwrap_err(),
        "DBGM-00000: connections_get missing conid"
    );
    assert_eq!(
        update_request(&none).unwrap_err(),
        "DBGM-00000: connections_update missing _id"
    );
    assert_eq!(
        update_database_request(&none).unwrap_err(),
        "DBGM-00000: connections_update-database missing conid"
    );
    assert_eq!(
        update_database_request(&json(r#"{"conid":"c"}"#)).unwrap_err(),
        "DBGM-00000: connections_update-database missing database"
    );
    assert_eq!(
        delete_request(&none).unwrap_err(),
        "DBGM-00000: connections_delete missing conid"
    );
    let store = store();
    assert_eq!(
        store.update(Vec::new(), &none).unwrap_err(),
        "DBGM-00000: Cannot update connection without _id in /data/connections.jsonl"
    );
    assert_eq!(
        store.patch(Vec::new(), "x", &none).unwrap_err(),
        "DBGM-00000: Cannot patch unknown connection x in /data/connections.jsonl"
    );
    assert!(delete(&store, &Vec::new(), "x").items.is_none());
    assert!(store.remove(&Vec::new(), "x").is_none());
    match update_database(&store, Vec::new(), "x", "d", &none) {
        Err(e) => assert_eq!(e, "DBGM-00000: Unknown connection x"),
        Ok(_) => panic!("expected an error"),
    }
}

// Backup ----------------------------------------------------------------------

fn mysql_def() -> ConnectionDefinition {
    ConnectionDefinition {
        engine: MYSQL_ENGINE.to_string(),
        name: "test".to_string(),
        server: Some("localhost".to_string()),
        port: Some(3306),
        user: Some("root".to_string()),
        password: Some("secret".to_string()),
        database: Some("mydb".to_string()),
        ..Default::default()
    }
}

fn postgres_def() -> ConnectionDefinition {
    ConnectionDefinition {
        engine: POSTGRES_ENGINE.to_string(),
        name: "test".to_string(),
        server: Some("localhost".to_string()),
        port: Some(5432),
        user: Some("root".to_string()),
        password: Some("secret".to_string()),
        database: Some("mydb".to_string()),
        ..Default::default()
    }
}

#[test]
fn mysql_backup_args_use_concatenated_flag_style() {
    let tool = native_tool(&mysql_def(), false).unwrap();
    assert_eq!(
        connection_args(&mysql_def(), &tool, 3306),
        vec!["-hlocalhost", "-P3306", "-uroot", "-psecret", "mydb"]
    );
}

#[test]
fn postgres_backup_args_use_separated_flag_style() {
    let tool = native_tool(&postgres_def(), false).unwrap();
    assert_eq!(
        connection_args(&postgres_def(), &tool, 5432),
        vec!["-h", "localhost", "-p", "5432", "-U", "root", "mydb"]
    );
}

#[test]
fn restore_binaries_are_mysql_and_psql() {
    assert_eq!(native_tool(&mysql_def(), true).unwrap().bin, "mysql");
    assert_eq!(native_tool(&postgres_def(), true).unwrap().bin, "psql");
}

#[test]
fn postgres_env_carries_password_but_not_args() {
    let tool = native_tool(&postgres_def(), false).unwrap();
    assert_eq!(
        child_env(&postgres_def(), &tool),
        vec![("PGPASSWORD".to_string(), "secret".to_string())]
    );
    let command = native_command(&postgres_def(), &tool, 5432);
    assert_eq!(command.bin, "pg_dump");
    assert!(!command.args.iter().any(|a| a.contains("secret")));
}

#[test]
fn missing_binary_reports_db_error() {
    let err = spawn_error("definitely-not-a-real-dbgate-tool", true, "No such file");
    assert!(err.starts_with("DBGM-00000"));
    assert!(err.contains("definitely-not-a-real-dbgate-tool not found in PATH"));
    assert_eq!(spawn_error("t", false, "denied"), "DBGM-00000: Failed to spawn t: denied");
}

#[test]
fn default_dump_path_creates_dumps_directory() {
    let name = dump_file_name("mysql/test", 1234);
    assert!(name.ends_with(".sql"));
    assert!(name.starts_with("mysql_test"));
    assert_eq!(name, "mysql_test-1234.sql");
}

#[test]
fn tools_need_a_capable_engine_and_a_port() {
    let caps = |engine: &str| builtin_registry().get(engine).map(|d| d.capabilities());
    let mut def = postgres_def();
    def.port = None;
    let (tool, port) = engine_context(caps(POSTGRES_ENGINE), &def, false).unwrap();
    assert!(matches!(tool.kind, ToolKind::Postgres));
    assert_eq!(port, 5432);
    assert_eq!(
        engine_context(None, &def, false).unwrap_err(),
        format!("DBGM-00000: No driver registered for engine '{POSTGRES_ENGINE}'")
    );
    def.engine = SQLITE_ENGINE.to_string();
    assert_eq!(
        engine_context(caps(SQLITE_ENGINE), &def, true).unwrap_err(),
        format!("DBGM-00000: native restore not supported for {SQLITE_ENGINE}")
    );
}

#[test]
fn tool_output_is_reported() {
    let r = plain(&backup_answer(true, &b"dump".to_vec(), &vec![0xff], "/p"));
    assert_eq!(r["success"], true);
    assert_eq!(r["stdout"], "dump");
    assert_eq!(r["stderr"], "\u{fffd}");
    assert_eq!(r["path"], "/p");
    let r = plain(&restore_answer(false, &Vec::new(), &b"bad".to_vec()));
    assert_eq!(r["success"], false);
    assert_eq!(r["stderr"], "bad");
}

// Result sets -----------------------------------------------------------------

#[test]
fn create_push_finish_roundtrip() {
    let mut store = JslStore::new();
    let mut emitted = Vec::new();
    let (jslid, event) = store.jsl_create(vec![QueryResultColumn {
        column_name: "one".into(),
        ..Default::default()
    }]);
    emitted.push(event);
    emitted.extend(store.jsl_push_row(&jslid, Value::Int(1)));
    emitted.extend(store.jsl_push_row(&jslid, Value::Int(2)));
    emitted.extend(store.jsl_finish(&jslid));

    let stats = plain(&store.jsl_stats(&jslid).unwrap());
    assert_eq!(stats["rowCount"], 2);
    assert_eq!(stats["changeIndex"], 2);
    assert_eq!(stats["isFinished"], true);

    let rows = store.jsl_rows(&jslid, 1, 1).unwrap();
    assert_eq!(rows, vec![Value::Int(2)]);

    let stats_names: Vec<&str> = emitted
        .iter()
        .filter(|e| e.name.starts_with("jsldata-stats-"))
        .map(|e| e.name.as_str())
        .collect();
    assert!(stats_names.contains(&format!("jsldata-stats-{jslid}").as_str()));
    let final_stats = emitted
        .iter()
        .rev()
        .find(|e| e.name == format!("jsldata-stats-{jslid}"))
        .expect("final stats event emitted");
    assert_eq!(plain(&final_stats.payload)["isFinished"], true);
    assert_eq!(jslid.len(), 36);
}

#[test]
fn unknown_jslid_returns_none() {
    let store = JslStore::new();
    assert!(store.jsl_stats("nope").is_none());
    assert!(store.jsl_rows("nope", 0, 10).is_none());
}

#[test]
fn pages_follow_each_other() {
    let mut store = JslStore::new();
    let (id, _) = store.jsl_create(Vec::new());
    for i in 0..5 {
        store.jsl_push_row(&id, Value::Int(i));
    }
    let mut all = store.jsl_rows(&id, 0, 3).unwrap();
    all.extend(store.jsl_rows(&id, 3, 3).unwrap());
    assert_eq!(all, store.jsl_rows(&id, 0, u64::MAX).unwrap());
    assert_eq!(store.jsl_rows(&id, 9, 1).unwrap(), Vec::new());
    store.jsl_remove(&id);
    assert!(store.jsl_push_row(&id, Value::Null).is_none());
    assert!(store.jsl_finish(&id).is_none());
}

// The rest --------------------------------------------------------------------

#[test]
fn write_appends_json_line() {
    let args = json(
        r#"{"data": {"sql": "SELECT 1", "conid": "c1", "database": "main", "date": "2026-01-01"}}"#,
    );
    let content = history_line(&plain(&entry(&args)).to_string());
    assert_eq!(ok_value(), json(r#"{ "status": "ok" }"#));
    assert!(content.contains("\"SELECT 1\""));
    assert!(content.ends_with('\n'));
    assert_eq!(entry(&json("{}")), json("{}"));
}

#[test]
fn errors_carry_the_sentinel() {
    assert_eq!(route_error("x"), "DBGM-00000: x");
    assert_eq!(no_driver("e"), "DBGM-00000: No driver registered for engine 'e'");
    match dispatch("no_such_route") {
        Err(e) => assert_eq!(e, "DBGM-00000: Route not implemented: no_such_route"),
        Ok(_) => panic!("expected an error"),
    }
    match dispatch("plugins_script") {
        Ok(r) => assert_eq!(r.name(), "plugins_script"),
        Err(e) => panic!("{e}"),
    }
    match driver_method("bogus") {
        Err(e) => assert_eq!(e, "DBGM-00000: Unknown method bogus"),
        Ok(_) => panic!("expected an error"),
    }
    assert_eq!(invalid_definition("e"), "DBGM-00000: Invalid connection definition: e");
    assert_eq!(invalid_table_name("e"), "DBGM-00000: Invalid table name: e");
    assert_eq!(next_conn_id("mysql@dbgate-plugin-mysql", 42), "mysql_dbgate-plugin-mysql-42");
}

#[test]
fn the_last_of_repeated_settings_counts() {
    let repeated = Value::Object(vec![
        ("a".to_string(), Value::Int(1)),
        ("b".to_string(), Value::Int(2)),
        ("a".to_string(), Value::Int(3)),
    ]);
    let flat = update_settings(json(r#"{"a":0,"c":4}"#), &repeated);
    assert_eq!(plain(&flat)["a"], 3);
    assert_eq!(plain(&flat)["b"], 2);
    assert_eq!(plain(&flat)["c"], 4);
    let wrapper = Value::Object(vec![
        ("settings".to_string(), repeated),
        ("d".to_string(), Value::Int(5)),
    ]);
    assert_eq!(update_settings(json(r#"{"a":0,"c":4}"#), &wrapper), flat);
}

#[test]
fn a_patched_record_takes_the_last_of_repeated_members() {
    let values = Value::Object(vec![
        ("server".to_string(), Value::Str("one".to_string())),
        ("server".to_string(), Value::Str("two".to_string())),
    ]);
    let items = vec![json(r#"{"_id":"x","server":"zero","user":"me"}"#)];
    let change = update(&store(), items, "x", values, false).ok().unwrap();
    assert_eq!(change.answer, json(r#"{"_id":"x","server":"two","user":"me"}"#));
}
