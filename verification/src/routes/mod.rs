//! The bridge routes: the frontend calls a single command with a route name and
//! JSON arguments, and each route answers with JSON or with an error text.
//!
//! The frontend sends the route with dashes replaced by underscores, so route
//! names always hold underscores.
use vstd::prelude::*;

use crate::text::{concat2, concat3, same};
use crate::value::{Json, Value};

pub mod backup;
pub mod config;
pub mod connections;
pub mod database_connections;
pub mod jsldata;
pub mod plugins;
pub mod query_history;
pub mod sessions;

verus! {

/// The text of a route error: the message behind the generic code.
pub open spec fn error_text(message: Seq<char>) -> Seq<char> {
    "DBGM-00000: "@ + message
}

/// Route error returned to the frontend, always carrying the generic code.
pub fn route_error(message: &str) -> (r: String)
    ensures
        r@ == error_text(message@),
{
    concat2("DBGM-00000: ", message)
}

/// A bridge route.
#[derive(Debug, Clone, Copy, PartialEq, Eq, Structural)]
pub enum Route {
    ConnectionsList,
    ConnectionsGet,
    ConnectionsSave,
    ConnectionsUpdate,
    ConnectionsUpdateDatabase,
    ConnectionsDelete,
    ConfigGet,
    ConfigGetSettings,
    ConfigUpdateSettings,
    ConfigPlatformInfo,
    PluginsInstalled,
    PluginsScript,
    SqlSelect,
    RunScript,
    SyncModel,
    Structure,
    RefreshDatabase,
    CallMethod,
    PingDatabase,
    StatusDatabase,
    Disconnect,
    BackupNative,
    RestoreNative,
    RefreshServer,
    ListDatabases,
    SessionsCreate,
    SessionsExecuteReader,
    SessionsExecuteQuery,
    SessionsStopLoadingReader,
    SessionsSetIsolationLevel,
    SessionsKill,
    SessionsPing,
    JsldataGetStats,
    JsldataGetRows,
    QueryHistoryWrite,
    AppsGetAllApps,
    FilesFavorites,
}

/// The name of a route.
pub open spec fn name_of(route: Route) -> Seq<char> {
    match route {
        Route::ConnectionsList => "connections_list"@,
        Route::ConnectionsGet => "connections_get"@,
        Route::ConnectionsSave => "connections_save"@,
        Route::ConnectionsUpdate => "connections_update"@,
        Route::ConnectionsUpdateDatabase => "connections_update_database"@,
        Route::ConnectionsDelete => "connections_delete"@,
        Route::ConfigGet => "config_get"@,
        Route::ConfigGetSettings => "config_get_settings"@,
        Route::ConfigUpdateSettings => "config_update_settings"@,
        Route::ConfigPlatformInfo => "config_platform_info"@,
        Route::PluginsInstalled => "plugins_installed"@,
        Route::PluginsScript => "plugins_script"@,
        Route::SqlSelect => "database_connections_sql_select"@,
        Route::RunScript => "database_connections_run_script"@,
        Route::SyncModel => "database_connections_sync_model"@,
        Route::Structure => "database_connections_structure"@,
        Route::RefreshDatabase => "database_connections_refresh"@,
        Route::CallMethod => "database_connections_call_method"@,
        Route::PingDatabase => "database_connections_ping"@,
        Route::StatusDatabase => "database_connections_status"@,
        Route::Disconnect => "database_connections_disconnect"@,
        Route::BackupNative => "database_connections_backup_native"@,
        Route::RestoreNative => "database_connections_restore_native"@,
        Route::RefreshServer => "server_connections_refresh"@,
        Route::ListDatabases => "server_connections_list_databases"@,
        Route::SessionsCreate => "sessions_create"@,
        Route::SessionsExecuteReader => "sessions_execute_reader"@,
        Route::SessionsExecuteQuery => "sessions_execute_query"@,
        Route::SessionsStopLoadingReader => "sessions_stop_loading_reader"@,
        Route::SessionsSetIsolationLevel => "sessions_set_isolation_level"@,
        Route::SessionsKill => "sessions_kill"@,
        Route::SessionsPing => "sessions_ping"@,
        Route::JsldataGetStats => "jsldata_get_stats"@,
        Route::JsldataGetRows => "jsldata_get_rows"@,
        Route::QueryHistoryWrite => "query_history_write"@,
        Route::AppsGetAllApps => "apps_get_all_apps"@,
        Route::FilesFavorites => "files_favorites"@,
    }
}

impl Route {
    /// The name of the route.
    pub fn name(&self) -> (r: &'static str)
        ensures
            r@ == name_of(*self),
    {
        match self {
            Route::ConnectionsList => "connections_list",
            Route::ConnectionsGet => "connections_get",
            Route::ConnectionsSave => "connections_save",
            Route::ConnectionsUpdate => "connections_update",
            Route::ConnectionsUpdateDatabase => "connections_update_database",
            Route::ConnectionsDelete => "connections_delete",
            Route::ConfigGet => "config_get",
            Route::ConfigGetSettings => "config_get_settings",
            Route::ConfigUpdateSettings => "config_update_settings",
            Route::ConfigPlatformInfo => "config_platform_info",
            Route::PluginsInstalled => "plugins_installed",
            Route::PluginsScript => "plugins_script",
            Route::SqlSelect => "database_connections_sql_select",
            Route::RunScript => "database_connections_run_script",
            Route::SyncModel => "database_connections_sync_model",
            Route::Structure => "database_connections_structure",
            Route::RefreshDatabase => "database_connections_refresh",
            Route::CallMethod => "database_connections_call_method",
            Route::PingDatabase => "database_connections_ping",
            Route::StatusDatabase => "database_connections_status",
            Route::Disconnect => "database_connections_disconnect",
            Route::BackupNative => "database_connections_backup_native",
            Route::RestoreNative => "database_connections_restore_native",
            Route::RefreshServer => "server_connections_refresh",
            Route::ListDatabases => "server_connections_list_databases",
            Route::SessionsCreate => "sessions_create",
            Route::SessionsExecuteReader => "sessions_execute_reader",
            Route::SessionsExecuteQuery => "sessions_execute_query",
            Route::SessionsStopLoadingReader => "sessions_stop_loading_reader",
            Route::SessionsSetIsolationLevel => "sessions_set_isolation_level",
            Route::SessionsKill => "sessions_kill",
            Route::SessionsPing => "sessions_ping",
            Route::JsldataGetStats => "jsldata_get_stats",
            Route::JsldataGetRows => "jsldata_get_rows",
            Route::QueryHistoryWrite => "query_history_write",
            Route::AppsGetAllApps => "apps_get_all_apps",
            Route::FilesFavorites => "files_favorites",
        }
    }
}

/// The route with the given name; any other name is an error.
pub fn dispatch(route: &str) -> (r: Result<Route, String>)
    ensures
        match r {
            Ok(found) => name_of(found) == route@,
            Err(e) => (forall|any: Route| #[trigger] name_of(any) != route@) && e@ == error_text(
                "Route not implemented: "@ + route@,
            ),
        },
{
    if same(route, "connections_list") {
        return Ok(Route::ConnectionsList);
    }
    if same(route, "connections_get") {
        return Ok(Route::ConnectionsGet);
    }
    if same(route, "connections_save") {
        return Ok(Route::ConnectionsSave);
    }
    if same(route, "connections_update") {
        return Ok(Route::ConnectionsUpdate);
    }
    if same(route, "connections_update_database") {
        return Ok(Route::ConnectionsUpdateDatabase);
    }
    if same(route, "connections_delete") {
        return Ok(Route::ConnectionsDelete);
    }
    if same(route, "config_get") {
        return Ok(Route::ConfigGet);
    }
    if same(route, "config_get_settings") {
        return Ok(Route::ConfigGetSettings);
    }
    if same(route, "config_update_settings") {
        return Ok(Route::ConfigUpdateSettings);
    }
    if same(route, "config_platform_info") {
        return Ok(Route::ConfigPlatformInfo);
    }
    if same(route, "plugins_installed") {
        return Ok(Route::PluginsInstalled);
    }
    if same(route, "plugins_script") {
        return Ok(Route::PluginsScript);
    }
    if same(route, "database_connections_sql_select") {
        return Ok(Route::SqlSelect);
    }
    if same(route, "database_connections_run_script") {
        return Ok(Route::RunScript);
    }
    if same(route, "database_connections_sync_model") {
        return Ok(Route::SyncModel);
    }
    if same(route, "database_connections_structure") {
        return Ok(Route::Structure);
    }
    if same(route, "database_connections_refresh") {
        return Ok(Route::RefreshDatabase);
    }
    if same(route, "database_connections_call_method") {
        return Ok(Route::CallMethod);
    }
    if same(route, "database_connections_ping") {
        return Ok(Route::PingDatabase);
    }
    if same(route, "database_connections_status") {
        return Ok(Route::StatusDatabase);
    }
    if same(route, "database_connections_disconnect") {
        return Ok(Route::Disconnect);
    }
    if same(route, "database_connections_backup_native") {
        return Ok(Route::BackupNative);
    }
    if same(route, "database_connections_restore_native") {
        return Ok(Route::RestoreNative);
    }
    if same(route, "server_connections_refresh") {
        return Ok(Route::RefreshServer);
    }
    if same(route, "server_connections_list_databases") {
        return Ok(Route::ListDatabases);
    }
    if same(route, "sessions_create") {
        return Ok(Route::SessionsCreate);
    }
    if same(route, "sessions_execute_reader") {
        return Ok(Route::SessionsExecuteReader);
    }
    if same(route, "sessions_execute_query") {
        return Ok(Route::SessionsExecuteQuery);
    }
    if same(route, "sessions_stop_loading_reader") {
        return Ok(Route::SessionsStopLoadingReader);
    }
    if same(route, "sessions_set_isolation_level") {
        return Ok(Route::SessionsSetIsolationLevel);
    }
    if same(route, "sessions_kill") {
        return Ok(Route::SessionsKill);
    }
    if same(route, "sessions_ping") {
        return Ok(Route::SessionsPing);
    }
    if same(route, "jsldata_get_stats") {
        return Ok(Route::JsldataGetStats);
    }
    if same(route, "jsldata_get_rows") {
        return Ok(Route::JsldataGetRows);
    }
    if same(route, "query_history_write") {
        return Ok(Route::QueryHistoryWrite);
    }
    if same(route, "apps_get_all_apps") {
        return Ok(Route::AppsGetAllApps);
    }
    if same(route, "files_favorites") {
        return Ok(Route::FilesFavorites);
    }
    Err(route_error(concat2("Route not implemented: ", route).as_str()))
}

/// The error for a missing argument.
pub open spec fn missing(route: Seq<char>, key: Seq<char>) -> Seq<char> {
    error_text(route + " missing "@ + key)
}

/// The text argument under `key`, or the error that it is missing.
pub fn text_argument<'a>(args: &'a Value, key: &str, route: &str) -> (r: Result<&'a str, String>)
    ensures
        match r {
            Ok(t) => args@.text(key@) == Some(t@),
            Err(e) => args@.text(key@) is None && e@ == missing(route@, key@),
        },
{
    match args.text(key) {
        Some(t) => Ok(t),
        None => Err(route_error(concat3(route, " missing ", key).as_str())),
    }
}

/// The error for a connection that is neither open nor saved.
pub fn unknown_connection(conid: &str) -> (r: String)
    ensures
        r@ == error_text("Unknown connection "@ + conid@),
{
    route_error(concat2("Unknown connection ", conid).as_str())
}

/// The error for an engine without a driver.
pub fn no_driver(engine: &str) -> (r: String)
    ensures
        r@ == error_text("No driver registered for engine '"@ + engine@ + "'"@),
{
    route_error(concat3("No driver registered for engine '", engine, "'").as_str())
}

/// The answer of a route that has nothing else to say.
pub open spec fn ok_json() -> Json {
    crate::encoding::one_member("status"@, Json::Str("ok"@))
}

/// The answer of a route that has nothing else to say.
pub fn ok_value() -> (r: Value)
    ensures
        r@ == ok_json(),
{
    crate::encoding::object_of_one("status", crate::value::str_value("ok"))
}

/// The answer of a route that lists nothing.
pub fn nothing_listed() -> (r: Value)
    ensures
        r@ == Json::Array(Seq::empty()),
{
    let none: Vec<Value> = Vec::new();
    assert(none.deep_view() =~= Seq::empty());
    crate::value::array_value(none)
}

// ---------------------------------------------------------------------------
// Laws
// ---------------------------------------------------------------------------

/// Every route goes by its own name.
pub proof fn law_names()
    ensures
        name_of(Route::ConnectionsList) == "connections_list"@,
        name_of(Route::ConnectionsGet) == "connections_get"@,
        name_of(Route::ConnectionsSave) == "connections_save"@,
        name_of(Route::ConnectionsUpdate) == "connections_update"@,
        name_of(Route::ConnectionsUpdateDatabase) == "connections_update_database"@,
        name_of(Route::ConnectionsDelete) == "connections_delete"@,
        name_of(Route::ConfigGet) == "config_get"@,
        name_of(Route::ConfigGetSettings) == "config_get_settings"@,
        name_of(Route::ConfigUpdateSettings) == "config_update_settings"@,
        name_of(Route::ConfigPlatformInfo) == "config_platform_info"@,
        name_of(Route::PluginsInstalled) == "plugins_installed"@,
        name_of(Route::PluginsScript) == "plugins_script"@,
        name_of(Route::SqlSelect) == "database_connections_sql_select"@,
        name_of(Route::RunScript) == "database_connections_run_script"@,
        name_of(Route::SyncModel) == "database_connections_sync_model"@,
        name_of(Route::Structure) == "database_connections_structure"@,
        name_of(Route::RefreshDatabase) == "database_connections_refresh"@,
        name_of(Route::CallMethod) == "database_connections_call_method"@,
        name_of(Route::PingDatabase) == "database_connections_ping"@,
        name_of(Route::StatusDatabase) == "database_connections_status"@,
        name_of(Route::Disconnect) == "database_connections_disconnect"@,
        name_of(Route::BackupNative) == "database_connections_backup_native"@,
        name_of(Route::RestoreNative) == "database_connections_restore_native"@,
        name_of(Route::RefreshServer) == "server_connections_refresh"@,
        name_of(Route::ListDatabases) == "server_connections_list_databases"@,
        name_of(Route::SessionsCreate) == "sessions_create"@,
        name_of(Route::SessionsExecuteReader) == "sessions_execute_reader"@,
        name_of(Route::SessionsExecuteQuery) == "sessions_execute_query"@,
        name_of(Route::SessionsStopLoadingReader) == "sessions_stop_loading_reader"@,
        name_of(Route::SessionsSetIsolationLevel) == "sessions_set_isolation_level"@,
        name_of(Route::SessionsKill) == "sessions_kill"@,
        name_of(Route::SessionsPing) == "sessions_ping"@,
        name_of(Route::JsldataGetStats) == "jsldata_get_stats"@,
        name_of(Route::JsldataGetRows) == "jsldata_get_rows"@,
        name_of(Route::QueryHistoryWrite) == "query_history_write"@,
        name_of(Route::AppsGetAllApps) == "apps_get_all_apps"@,
        name_of(Route::FilesFavorites) == "files_favorites"@,
{
}

/// The text of an error begins with the general code; a missing argument is named behind the
/// route that misses it.
pub proof fn law_error_texts(message: Seq<char>, route: Seq<char>, key: Seq<char>)
    ensures
        error_text(message) == "DBGM-00000: "@ + message,
        missing(route, key) == "DBGM-00000: "@ + (route + " missing "@ + key),
{
}

/// The plain answer says that all is well.
pub proof fn law_ok()
    ensures
        ok_json().text("status"@) == Some("ok"@),
{
    crate::encoding::law_one_member("status"@, Json::Str("ok"@), "ok"@);
}

} // verus!
