//! The database-connection routes: what they ask for, and how they answer.
//!
//! Every handler connects on demand: when a connection is not open, its
//! definition is taken from the saved ones.
use vstd::prelude::*;

use crate::driver::QueryOptions;
use crate::query::QueryResult;
use crate::query_splitter::split_sql;
use crate::routes::{route_error, text_argument, unknown_connection};
use crate::text::{concat2, concat3, replaced, same};
use crate::value::{clone_value, no_members, object_value, Json, Value};

verus! {

/// The definition that is saved for a connection, given its record.
pub fn saved_definition<'a>(saved: &'a Value, conid: &str) -> (r: Result<&'a Value, String>)
    ensures
        match r {
            Ok(v) => saved@ !is Null && v@ == saved@,
            Err(e) => saved@ is Null && e@ == crate::routes::error_text(
                "Unknown connection "@ + conid@,
            ),
        },
{
    if saved.is_null() {
        Err(unknown_connection(conid))
    } else {
        Ok(saved)
    }
}

/// The error for a record that is no connection definition.
pub fn invalid_definition(cause: &str) -> (r: String)
    ensures
        r@ == crate::routes::error_text("Invalid connection definition: "@ + cause@),
{
    route_error(concat2("Invalid connection definition: ", cause).as_str())
}

/// A request to run SQL on a connection.
pub struct SqlRequest {
    pub conid: String,
    pub sql: String,
    pub options: QueryOptions,
}

fn conid_and_sql(args: &Value, route: &str) -> (r: Result<(String, String), String>)
    ensures
        match r {
            Ok((conid, sql)) => args@.text("conid"@) == Some(conid@) && args@.text("sql"@) == Some(
                sql@,
            ),
            Err(e) => {
                ||| args@.text("conid"@) is None && e@ == crate::routes::missing(
                    route@,
                    "conid"@,
                )
                ||| args@.text("conid"@) is Some && args@.text("sql"@) is None && e@
                    == crate::routes::missing(route@, "sql"@)
            },
        },
{
    let conid = match text_argument(args, "conid", route) {
        Ok(c) => c,
        Err(e) => return Err(e),
    };
    let sql = match text_argument(args, "sql", route) {
        Ok(s) => s,
        Err(e) => return Err(e),
    };
    Ok((conid.to_owned(), sql.to_owned()))
}

/// The limit in the arguments.
pub open spec fn limit_in(args: Json) -> u64 {
    match args.uint64("limit"@) {
        Some(n) => n,
        None => 1000,
    }
}

/// `database_connections_sql_select`: runs a query for the first rows, a thousand
/// unless a limit is given.
pub fn sql_select_request(args: &Value) -> (r: Result<SqlRequest, String>)
    ensures
        match r {
            Ok(q) => {
                &&& args@.text("conid"@) == Some(q.conid@)
                &&& args@.text("sql"@) == Some(q.sql@)
                &&& q.options == (QueryOptions {
                    discard_result: false,
                    import_sql_dump: false,
                    range: Some((0, limit_in(args@))),
                    readonly: false,
                    command_timeout_ms: None,
                })
            },
            Err(e) => {
                ||| args@.text("conid"@) is None && e@ == crate::routes::missing(
                    "sql_select"@,
                    "conid"@,
                )
                ||| args@.text("conid"@) is Some && args@.text("sql"@) is None && e@
                    == crate::routes::missing("sql_select"@, "sql"@)
            },
        },
{
    let (conid, sql) = match conid_and_sql(args, "sql_select") {
        Ok(p) => p,
        Err(e) => return Err(e),
    };
    let limit: u64 = match args.uint64("limit") {
        Some(n) => n,
        None => 1000,
    };
    let options = QueryOptions {
        discard_result: false,
        import_sql_dump: false,
        range: Some((0, limit)),
        readonly: false,
        command_timeout_ms: None,
    };
    Ok(SqlRequest { conid, sql, options })
}

/// A request to run a script on a connection.
pub struct ScriptRequest {
    pub conid: String,
    /// The statements of the script, in order.
    pub statements: Vec<String>,
    pub options: QueryOptions,
}

/// `database_connections_run_script`: executes a script. It is split into its
/// statements, which are run in a transaction window.
pub fn run_script_request(args: &Value) -> (r: Result<ScriptRequest, String>)
    ensures
        match r {
            Ok(q) => {
                &&& args@.text("conid"@) == Some(q.conid@)
                &&& args@.text("sql"@) is Some
                &&& crate::text::texts(q.statements@) == crate::query_splitter::statements(
                    args@.text("sql"@)->0,
                )
                &&& q.options == (QueryOptions {
                    discard_result: false,
                    import_sql_dump: false,
                    range: None,
                    readonly: false,
                    command_timeout_ms: None,
                })
            },
            Err(e) => {
                ||| args@.text("conid"@) is None && e@ == crate::routes::missing(
                    "run_script"@,
                    "conid"@,
                )
                ||| args@.text("conid"@) is Some && args@.text("sql"@) is None && e@
                    == crate::routes::missing("run_script"@, "sql"@)
            },
        },
{
    let (conid, sql) = match conid_and_sql(args, "run_script") {
        Ok(p) => p,
        Err(e) => return Err(e),
    };
    let options = QueryOptions {
        discard_result: false,
        import_sql_dump: false,
        range: None,
        readonly: false,
        command_timeout_ms: None,
    };
    Ok(ScriptRequest { conid, statements: split_sql(sql.as_str()), options })
}

/// The result of a script: that of its last statement, an empty one where it has
/// no statements.
pub fn script_result(results: Vec<QueryResult>) -> (r: QueryResult)
    ensures
        r.deep_view() == if results@.len() > 0 {
            results@.last().deep_view()
        } else {
            crate::query::QueryResultView { rows: Seq::empty(), columns: Seq::empty() }
        },
{
    let mut results = results;
    match results.pop() {
        Some(last) => last,
        None => QueryResult::empty(),
    }
}

/// The connection that a route is about: `sync_model`, `structure`, `ping`,
/// `status`, `disconnect` and `list_databases` take nothing else.
pub fn conid_request<'a>(args: &'a Value, route: &str) -> (r: Result<&'a str, String>)
    ensures
        match r {
            Ok(id) => args@.text("conid"@) == Some(id@),
            Err(e) => args@.text("conid"@) is None && e@ == crate::routes::missing(
                route@,
                "conid"@,
            ),
        },
{
    text_argument(args, "conid", route)
}

/// A request to call a metadata method of a driver.
pub struct MethodRequest {
    pub conid: String,
    pub method: String,
    pub args: Value,
}

/// `database_connections_call_method`: the connection, the method and its
/// arguments.
pub fn call_method_request(args: &Value) -> (r: Result<MethodRequest, String>)
    ensures
        match r {
            Ok(q) => {
                &&& args@.text("conid"@) == Some(q.conid@)
                &&& args@.text("method"@) == Some(q.method@)
                &&& q.args@ == match args@.get("args"@) {
                    Some(v) => v,
                    None => Json::Object(Seq::empty()),
                }
            },
            Err(e) => {
                ||| args@.text("conid"@) is None && e@ == crate::routes::missing(
                    "call_method"@,
                    "conid"@,
                )
                ||| args@.text("conid"@) is Some && args@.text("method"@) is None && e@
                    == crate::routes::missing("call_method"@, "method"@)
            },
        },
{
    let conid = match text_argument(args, "conid", "call_method") {
        Ok(c) => c,
        Err(e) => return Err(e),
    };
    let method = match text_argument(args, "method", "call_method") {
        Ok(m) => m,
        Err(e) => return Err(e),
    };
    let method_args = match args.get("args") {
        Some(v) => clone_value(v),
        None => object_value(no_members()),
    };
    Ok(MethodRequest { conid: conid.to_owned(), method: method.to_owned(), args: method_args })
}

/// A metadata method of a driver.
#[derive(Debug, Clone, Copy, PartialEq, Eq, Structural)]
pub enum DriverMethod {
    GetVersion,
    ListDatabases,
    AnalyseSingleTable,
}

/// The name of a metadata method.
pub open spec fn method_name(m: DriverMethod) -> Seq<char> {
    match m {
        DriverMethod::GetVersion => "getVersion"@,
        DriverMethod::ListDatabases => "listDatabases"@,
        DriverMethod::AnalyseSingleTable => "analyseSingleTable"@,
    }
}

/// The metadata method with the given name.
pub fn driver_method(method: &str) -> (r: Result<DriverMethod, String>)
    ensures
        match r {
            Ok(m) => method_name(m) == method@,
            Err(e) => (forall|m: DriverMethod| #[trigger] method_name(m) != method@) && e@
                == crate::routes::error_text("Unknown method "@ + method@),
        },
{
    if same(method, "getVersion") {
        return Ok(DriverMethod::GetVersion);
    }
    if same(method, "listDatabases") {
        return Ok(DriverMethod::ListDatabases);
    }
    if same(method, "analyseSingleTable") {
        return Ok(DriverMethod::AnalyseSingleTable);
    }
    Err(route_error(concat2("Unknown method ", method).as_str()))
}

/// The error for arguments that name no table.
pub fn invalid_table_name(cause: &str) -> (r: String)
    ensures
        r@ == crate::routes::error_text("Invalid table name: "@ + cause@),
{
    route_error(concat2("Invalid table name: ", cause).as_str())
}

/// The id of a new connection, from its engine and the nanoseconds since the Unix
/// epoch.
pub fn next_conn_id(engine: &str, nanos: u128) -> (r: String)
    ensures
        r@ == crate::text::replace(engine@, "@"@, "_"@) + "-"@ + crate::numbers::dec(nanos as nat),
{
    proof {
        reveal_strlit("@");
    }
    let name = replaced(engine, "@", "_");
    concat3(name.as_str(), "-", crate::numbers::decimal_large(nanos).as_str())
}

// ---------------------------------------------------------------------------
// Laws
// ---------------------------------------------------------------------------

/// A selection shows as many rows as the arguments say, and a thousand where they do not.
pub proof fn law_limit(args: Json, n: u64)
    ensures
        args.get("limit"@) == Some(Json::Int(n as int)) ==> limit_in(args) == n,
        args.get("limit"@) is None ==> limit_in(args) == 1000,
{
    crate::value::law_member_kinds(args, "limit"@);
}

/// The methods of a driver go by their names.
pub proof fn law_methods()
    ensures
        method_name(DriverMethod::GetVersion) == "getVersion"@,
        method_name(DriverMethod::ListDatabases) == "listDatabases"@,
        method_name(DriverMethod::AnalyseSingleTable) == "analyseSingleTable"@,
{
}

} // verus!
