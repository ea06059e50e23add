//! Native backup and restore: which client of an engine is run, and how.
//!
//! Only engines that advertise native backup or restore are accepted.
use vstd::prelude::*;

use crate::connection::{ConnectionDefinition, ConnectionDefinitionView};
use crate::driver::Capabilities;
use crate::drivers::mysql::{MARIADB_ENGINE, MYSQL_ENGINE};
use crate::drivers::postgres::POSTGRES_ENGINE;
use crate::encoding::utf8_lossy_text;
use crate::numbers::{decimal, decimal_large};
use crate::routes::{no_driver, route_error, text_argument};
use crate::rows::or_empty;
use crate::text::{chars_of, concat2, concat3, concat4, same};
use crate::value::{add_member, no_members, object_value, Json, Value};

verus! {

/// Client family for a native backup / restore tool.
#[derive(Debug, Clone, Copy, PartialEq, Eq, Structural)]
pub enum ToolKind {
    Mysql,
    Postgres,
}

/// The native tool of an engine: the client binary and its argument style.
#[derive(Debug, Clone, Copy)]
pub struct NativeTool {
    pub bin: &'static str,
    pub kind: ToolKind,
}

/// What is run: program, arguments, environment.
#[derive(Debug)]
pub struct NativeCommand {
    pub bin: String,
    pub args: Vec<String>,
    pub env: Vec<(String, String)>,
}

/// The client family of an engine.
pub open spec fn kind_of(engine: Seq<char>) -> Option<ToolKind> {
    if engine == MYSQL_ENGINE@ || engine == MARIADB_ENGINE@ {
        Some(ToolKind::Mysql)
    } else if engine == POSTGRES_ENGINE@ {
        Some(ToolKind::Postgres)
    } else {
        None
    }
}

/// The client binary of a family.
pub open spec fn binary_of(kind: ToolKind, restore: bool) -> Seq<char> {
    match kind {
        ToolKind::Mysql => if restore {
            "mysql"@
        } else {
            "mysqldump"@
        },
        ToolKind::Postgres => if restore {
            "psql"@
        } else {
            "pg_dump"@
        },
    }
}

/// The error for an engine without native backup or restore.
pub open spec fn unsupported(engine: Seq<char>, restore: bool) -> Seq<char> {
    crate::routes::error_text(
        "native "@ + (if restore {
            "restore"@
        } else {
            "backup"@
        }) + " not supported for "@ + engine,
    )
}

fn unsupported_error(engine: &str, restore: bool) -> (r: String)
    ensures
        r@ == unsupported(engine@, restore),
{
    let what = if restore {
        "restore"
    } else {
        "backup"
    };
    route_error(concat4("native ", what, " not supported for ", engine).as_str())
}

/// The native tool for the engine of a connection.
pub fn native_tool(def: &ConnectionDefinition, restore: bool) -> (r: Result<NativeTool, String>)
    ensures
        match r {
            Ok(tool) => kind_of(def.engine@) == Some(tool.kind) && tool.bin@ == binary_of(
                tool.kind,
                restore,
            ),
            Err(e) => kind_of(def.engine@) is None && e@ == unsupported(def.engine@, restore),
        },
{
    let engine = def.engine.as_str();
    if same(engine, MYSQL_ENGINE) || same(engine, MARIADB_ENGINE) {
        let bin = if restore {
            "mysql"
        } else {
            "mysqldump"
        };
        return Ok(NativeTool { bin, kind: ToolKind::Mysql });
    }
    if same(engine, POSTGRES_ENGINE) {
        let bin = if restore {
            "psql"
        } else {
            "pg_dump"
        };
        return Ok(NativeTool { bin, kind: ToolKind::Postgres });
    }
    Err(unsupported_error(engine, restore))
}

/// Whether capabilities admit the operation.
pub open spec fn admits(caps: Capabilities, restore: bool) -> bool {
    if restore {
        caps.supports_native_restore
    } else {
        caps.supports_native_backup
    }
}

/// The port of a definition, else that of its engine.
pub open spec fn port_of(def: ConnectionDefinitionView, caps: Capabilities) -> Option<u32> {
    match def.port {
        Some(p) => Some(p),
        None => caps.default_port,
    }
}

/// The tool and the port for a connection, given the capabilities of its driver,
/// where its engine has one.
pub fn engine_context(
    caps: Option<Capabilities>,
    def: &ConnectionDefinition,
    restore: bool,
) -> (r: Result<(NativeTool, u32), String>)
    ensures
        match (r, caps) {
            (Ok((tool, port)), Some(c)) => {
                &&& admits(c, restore)
                &&& kind_of(def.engine@) == Some(tool.kind)
                &&& tool.bin@ == binary_of(tool.kind, restore)
                &&& port_of(def.deep_view(), c) == Some(port)
            },
            (Ok(_), None) => false,
            (Err(e), None) => e@ == crate::routes::error_text(
                "No driver registered for engine '"@ + def.engine@ + "'"@,
            ),
            (Err(e), Some(c)) => {
                ||| (!admits(c, restore) || kind_of(def.engine@) is None) && e@ == unsupported(
                    def.engine@,
                    restore,
                )
                ||| admits(c, restore) && kind_of(def.engine@) is Some && port_of(
                    def.deep_view(),
                    c,
                ) is None && e@ == crate::routes::error_text(
                    "No port for engine '"@ + def.engine@ + "'"@,
                )
            },
        },
{
    let caps = match caps {
        Some(c) => c,
        None => return Err(no_driver(def.engine.as_str())),
    };
    let supported = if restore {
        caps.supports_native_restore
    } else {
        caps.supports_native_backup
    };
    if !supported {
        return Err(unsupported_error(def.engine.as_str(), restore));
    }
    let tool = match native_tool(def, restore) {
        Ok(t) => t,
        Err(e) => return Err(e),
    };
    let port = match def.port {
        Some(p) => Some(p),
        None => caps.default_port,
    };
    match port {
        Some(p) => Ok((tool, p)),
        None => Err(
            route_error(concat3("No port for engine '", def.engine.as_str(), "'").as_str()),
        ),
    }
}

/// The arguments with which a client reaches a connection.
pub open spec fn args_of(def: ConnectionDefinitionView, kind: ToolKind, port: u32) -> Seq<
    Seq<char>,
> {
    let server = or_empty(def.server);
    let user = or_empty(def.user);
    let password = or_empty(def.password);
    let database = or_empty(def.database);
    match kind {
        ToolKind::Mysql => seq![
            "-h"@ + server,
            "-P"@ + crate::numbers::dec(port as nat),
            "-u"@ + user,
            "-p"@ + password,
            database,
        ],
        ToolKind::Postgres => seq![
            "-h"@,
            server,
            "-p"@,
            crate::numbers::dec(port as nat),
            "-U"@,
            user,
            database,
        ],
    }
}

fn text_or_empty(t: &Option<String>) -> (r: String)
    ensures
        r@ == or_empty(t.deep_view()),
{
    match t {
        Some(s) => s.clone(),
        None => String::new(),
    }
}

/// The arguments with which a client reaches a connection.
pub fn connection_args(def: &ConnectionDefinition, tool: &NativeTool, port: u32) -> (r: Vec<String>)
    ensures
        r.deep_view() == args_of(def.deep_view(), tool.kind, port),
{
    let server = text_or_empty(&def.server);
    let user = text_or_empty(&def.user);
    let password = text_or_empty(&def.password);
    let database = text_or_empty(&def.database);
    let port_text = decimal(port as u64);
    let mut out: Vec<String> = Vec::new();
    match tool.kind {
        ToolKind::Mysql => {
            out.push(concat2("-h", server.as_str()));
            out.push(concat2("-P", port_text.as_str()));
            out.push(concat2("-u", user.as_str()));
            out.push(concat2("-p", password.as_str()));
            out.push(database);
        },
        ToolKind::Postgres => {
            out.push("-h".to_owned());
            out.push(server);
            out.push("-p".to_owned());
            out.push(port_text);
            out.push("-U".to_owned());
            out.push(user);
            out.push(database);
        },
    }
    assert(out.deep_view() =~= args_of(def.deep_view(), tool.kind, port));
    out
}

/// The environment in which a client runs: PostgreSQL's takes the password from
/// it.
pub open spec fn env_of(def: ConnectionDefinitionView, kind: ToolKind) -> Seq<
    (Seq<char>, Seq<char>),
> {
    match (kind, def.password) {
        (ToolKind::Postgres, Some(password)) => seq![("PGPASSWORD"@, password)],
        _ => Seq::empty(),
    }
}

/// The environment in which a client runs.
pub fn child_env(def: &ConnectionDefinition, tool: &NativeTool) -> (r: Vec<(String, String)>)
    ensures
        r.deep_view() == env_of(def.deep_view(), tool.kind),
{
    let mut out: Vec<(String, String)> = Vec::new();
    if let ToolKind::Postgres = tool.kind {
        if let Some(password) = &def.password {
            out.push(("PGPASSWORD".to_owned(), password.clone()));
        }
    }
    assert(out.deep_view() =~= env_of(def.deep_view(), tool.kind));
    out
}

/// The command that backs up or restores a connection.
pub fn native_command(def: &ConnectionDefinition, tool: &NativeTool, port: u32) -> (r:
    NativeCommand)
    ensures
        r.bin@ == tool.bin@,
        r.args.deep_view() == args_of(def.deep_view(), tool.kind, port),
        r.env.deep_view() == env_of(def.deep_view(), tool.kind),
{
    NativeCommand {
        bin: tool.bin.to_owned(),
        args: connection_args(def, tool, port),
        env: child_env(def, tool),
    }
}

/// The arguments of PostgreSQL's clients do not depend on the password.
pub proof fn law_password_not_in_args(
    def: ConnectionDefinitionView,
    other: ConnectionDefinitionView,
    port: u32,
)
    requires
        other == (ConnectionDefinitionView { password: other.password, ..def }),
    ensures
        args_of(def, ToolKind::Postgres, port) == args_of(other, ToolKind::Postgres, port),
{
}

/// The error for a client that could not be started, given whether it was not
/// found and the cause.
pub fn spawn_error(bin: &str, not_found: bool, cause: &str) -> (r: String)
    ensures
        r@ == crate::routes::error_text(
            if not_found {
                bin@ + " not found in PATH"@
            } else {
                "Failed to spawn "@ + bin@ + ": "@ + cause@
            },
        ),
{
    if not_found {
        route_error(concat2(bin, " not found in PATH").as_str())
    } else {
        route_error(concat4("Failed to spawn ", bin, ": ", cause).as_str())
    }
}

/// An ASCII letter or digit.
pub open spec fn is_plain(c: char) -> bool {
    'a' <= c <= 'z' || 'A' <= c <= 'Z' || '0' <= c <= '9'
}

/// A text with everything but ASCII letters and digits replaced by underscores.
pub open spec fn safe_name(s: Seq<char>) -> Seq<char> {
    Seq::new(
        s.len(),
        |i: int|
            if is_plain(s[i]) {
                s[i]
            } else {
                '_'
            },
    )
}

/// The name of a dump file, from the connection and the milliseconds since the
/// Unix epoch.
pub fn dump_file_name(conid: &str, millis: u128) -> (r: String)
    ensures
        r@ == safe_name(conid@) + "-"@ + crate::numbers::dec(millis as nat) + ".sql"@,
{
    let chars = chars_of(conid);
    let mut safe = String::new();
    let mut i: usize = 0;
    assert(safe@ =~= safe_name(conid@).take(0));
    while i < chars.len()
        invariant
            i <= chars@.len(),
            chars@ == conid@,
            safe@ == safe_name(conid@).take(i as int),
        decreases chars@.len() - i,
    {
        let c = chars[i];
        let plain = ('a' <= c && c <= 'z') || ('A' <= c && c <= 'Z') || ('0' <= c && c <= '9');
        if plain {
            safe.push(c);
        } else {
            safe.push('_');
        }
        assert(safe@ =~= safe_name(conid@).take(i + 1));
        i = i + 1;
    }
    assert(safe@ =~= safe_name(conid@));
    concat4(safe.as_str(), "-", decimal_large(millis).as_str(), ".sql")
}

/// A safe name holds letters, digits and underscores alone, and is as long as
/// what it stands for.
pub proof fn law_safe_name(s: Seq<char>, i: int)
    requires
        0 <= i < s.len(),
    ensures
        safe_name(s).len() == s.len(),
        is_plain(safe_name(s)[i]) || safe_name(s)[i] == '_',
{
}

/// `database_connections_backup_native`: the connection, and the path to write to
/// where one is given.
pub fn backup_request(args: &Value) -> (r: Result<(String, Option<String>), String>)
    ensures
        match r {
            Ok((conid, path)) => args@.text("conid"@) == Some(conid@) && path.deep_view()
                == args@.text("path"@),
            Err(e) => args@.text("conid"@) is None && e@ == crate::routes::missing(
                "backup_native"@,
                "conid"@,
            ),
        },
{
    let conid = match text_argument(args, "conid", "backup_native") {
        Ok(c) => c,
        Err(e) => return Err(e),
    };
    Ok((conid.to_owned(), crate::rows::get_str(args, "path")))
}

/// `database_connections_restore_native`: the connection, and the path to read
/// from.
pub fn restore_request(args: &Value) -> (r: Result<(String, String), String>)
    ensures
        match r {
            Ok((conid, path)) => args@.text("conid"@) == Some(conid@) && args@.text("path"@)
                == Some(path@),
            Err(e) => {
                ||| args@.text("conid"@) is None && e@ == crate::routes::missing(
                    "restore_native"@,
                    "conid"@,
                )
                ||| args@.text("conid"@) is Some && args@.text("path"@) is None && e@
                    == crate::routes::missing("restore_native"@, "path"@)
            },
        },
{
    let conid = match text_argument(args, "conid", "restore_native") {
        Ok(c) => c,
        Err(e) => return Err(e),
    };
    let path = match text_argument(args, "path", "restore_native") {
        Ok(p) => p,
        Err(e) => return Err(e),
    };
    Ok((conid.to_owned(), path.to_owned()))
}

/// The report of a run: whether it succeeded, and what it wrote.
pub open spec fn report_json(success: bool, stdout: Seq<u8>, stderr: Seq<u8>) -> Seq<
    (Seq<char>, Json),
> {
    seq![
        ("success"@, Json::Bool(success)),
        ("stdout"@, Json::Str(crate::encoding::utf8_lossy(stdout))),
        ("stderr"@, Json::Str(crate::encoding::utf8_lossy(stderr))),
    ]
}

fn report(success: bool, stdout: &Vec<u8>, stderr: &Vec<u8>) -> (r: Vec<(String, Value)>)
    ensures
        crate::value::entries(r@) == report_json(success, stdout@, stderr@),
{
    let mut o = no_members();
    add_member(&mut o, "success", Value::Bool(success));
    add_member(&mut o, "stdout", Value::Str(utf8_lossy_text(stdout)));
    add_member(&mut o, "stderr", Value::Str(utf8_lossy_text(stderr)));
    assert(crate::value::entries(o@) =~= report_json(success, stdout@, stderr@));
    o
}

/// The answer to a backup: the report, with the path of the dump.
pub fn backup_answer(success: bool, stdout: &Vec<u8>, stderr: &Vec<u8>, path: &str) -> (r: Value)
    ensures
        r@ == Json::Object(
            report_json(success, stdout@, stderr@).push(("path"@, Json::Str(path@))),
        ),
{
    let mut o = report(success, stdout, stderr);
    add_member(&mut o, "path", crate::value::str_value(path));
    object_value(o)
}

/// The answer to a restore: the report.
pub fn restore_answer(success: bool, stdout: &Vec<u8>, stderr: &Vec<u8>) -> (r: Value)
    ensures
        r@ == Json::Object(report_json(success, stdout@, stderr@)),
{
    object_value(report(success, stdout, stderr))
}

// ---------------------------------------------------------------------------
// Laws
// ---------------------------------------------------------------------------

/// The clients that back up and restore: those of MySQL for MySQL and MariaDB, those of
/// PostgreSQL for PostgreSQL.
pub proof fn law_native_tools(tool: NativeTool, engine: Seq<char>, restore: bool)
    requires
        kind_of(engine) == Some(tool.kind),
        tool.bin@ == binary_of(tool.kind, restore),
    ensures
        engine == "mysql@dbgate-plugin-mysql"@ || engine == "mariadb@dbgate-plugin-mysql"@
            || engine == "postgres@dbgate-plugin-postgres"@,
        engine == "mysql@dbgate-plugin-mysql"@ || engine == "mariadb@dbgate-plugin-mysql"@ ==> {
            &&& tool.kind == ToolKind::Mysql
            &&& restore ==> tool.bin@ == "mysql"@
            &&& !restore ==> tool.bin@ == "mysqldump"@
        },
        engine == "postgres@dbgate-plugin-postgres"@ ==> {
            &&& tool.kind == ToolKind::Postgres
            &&& restore ==> tool.bin@ == "psql"@
            &&& !restore ==> tool.bin@ == "pg_dump"@
        },
{
    crate::engines::law_ids();
    crate::engines::law_ids_distinct(
        crate::engines::BuiltinEngine::MySql,
        crate::engines::BuiltinEngine::Postgres,
    );
    crate::engines::law_ids_distinct(
        crate::engines::BuiltinEngine::MariaDb,
        crate::engines::BuiltinEngine::Postgres,
    );
}

/// An engine has a client exactly where its driver advertises native backup or restore.
pub proof fn law_advertised_engines_have_tools(e: crate::engines::BuiltinEngine, restore: bool)
    ensures
        kind_of(crate::engines::id_of(e)) is Some <==> admits(
            crate::engines::capabilities_of(e),
            restore,
        ),
        crate::engines::capabilities_of(e).supports_native_backup ==> kind_of(
            crate::engines::id_of(e),
        ) is Some,
        crate::engines::capabilities_of(e).supports_native_restore ==> kind_of(
            crate::engines::id_of(e),
        ) is Some,
{
    crate::engines::law_ids();
    if e != crate::engines::BuiltinEngine::MySql {
        crate::engines::law_ids_distinct(e, crate::engines::BuiltinEngine::MySql);
    }
    if e != crate::engines::BuiltinEngine::MariaDb {
        crate::engines::law_ids_distinct(e, crate::engines::BuiltinEngine::MariaDb);
    }
    if e != crate::engines::BuiltinEngine::Postgres {
        crate::engines::law_ids_distinct(e, crate::engines::BuiltinEngine::Postgres);
    }
}

/// A backup asks for the backup capability and a restore for the restore capability.
pub proof fn law_admits(caps: Capabilities)
    ensures
        admits(caps, false) <==> caps.supports_native_backup,
        admits(caps, true) <==> caps.supports_native_restore,
{
}

/// The port of a definition counts; that of the engine only where it has none.
pub proof fn law_port(def: ConnectionDefinitionView, caps: Capabilities)
    ensures
        def.port is Some ==> port_of(def, caps) == def.port,
        def.port is None ==> port_of(def, caps) == caps.default_port,
{
}

/// The client reaches the server, the port and the database of the connection as its
/// user: every argument says what it is for, the database comes last, and the port is
/// read back as the port.
pub proof fn law_arguments(def: ConnectionDefinitionView, kind: ToolKind, port: u32)
    requires
        def.server is Some,
        def.user is Some,
        def.password is Some,
        def.database is Some,
    ensures
        ({
            let args = args_of(def, kind, port);
            let shown = crate::numbers::dec(port as nat);
            &&& args.last() == def.database->0
            &&& crate::numbers::parsed_unsigned(shown, u32::MAX as int) == Some(port as int)
            &&& match kind {
                ToolKind::Mysql => {
                    &&& args.contains("-h"@ + def.server->0)
                    &&& args.contains("-P"@ + shown)
                    &&& args.contains("-u"@ + def.user->0)
                    &&& args.contains("-p"@ + def.password->0)
                    &&& args.len() == 5
                },
                ToolKind::Postgres => {
                    &&& exists|i: int|
                        0 <= i < args.len() - 1 && #[trigger] args[i] == "-h"@ && args[i + 1]
                            == def.server->0
                    &&& exists|i: int|
                        0 <= i < args.len() - 1 && #[trigger] args[i] == "-p"@ && args[i + 1]
                            == shown
                    &&& exists|i: int|
                        0 <= i < args.len() - 1 && #[trigger] args[i] == "-U"@ && args[i + 1]
                            == def.user->0
                    &&& args.len() == 7
                },
            }
        }),
{
    let args = args_of(def, kind, port);
    crate::numbers::law_read_decimal(port as nat, u32::MAX as int);
    match kind {
        ToolKind::Mysql => {
            assert(args[0] == "-h"@ + def.server->0);
            assert(args[1] == "-P"@ + crate::numbers::dec(port as nat));
            assert(args[2] == "-u"@ + def.user->0);
            assert(args[3] == "-p"@ + def.password->0);
        },
        ToolKind::Postgres => {
            assert(args[0] == "-h"@ && args[1] == def.server->0);
            assert(args[2] == "-p"@ && args[3] == crate::numbers::dec(port as nat));
            assert(args[4] == "-U"@ && args[5] == def.user->0);
        },
    }
}

/// PostgreSQL's clients take the password from the environment, and only they.
pub proof fn law_environment(def: ConnectionDefinitionView, password: Seq<char>)
    requires
        def.password == Some(password),
    ensures
        env_of(def, ToolKind::Postgres) == seq![("PGPASSWORD"@, password)],
        env_of(def, ToolKind::Mysql).len() == 0,
        env_of(ConnectionDefinitionView { password: None, ..def }, ToolKind::Postgres).len() == 0,
{
}

/// Letters and digits of a connection's id stay in the name of its dump, everything else
/// becomes an underscore.
pub proof fn law_safe_characters(s: Seq<char>, i: int)
    requires
        0 <= i < s.len(),
    ensures
        'a' <= s[i] <= 'z' || 'A' <= s[i] <= 'Z' || '0' <= s[i] <= '9' ==> safe_name(s)[i] == s[i],
        !('a' <= s[i] <= 'z' || 'A' <= s[i] <= 'Z' || '0' <= s[i] <= '9') ==> safe_name(s)[i]
            == '_',
{
}

/// A report says whether the run succeeded, and what it wrote where.
pub proof fn law_report(success: bool, stdout: Seq<u8>, stderr: Seq<u8>, path: Seq<char>)
    ensures
        ({
            let restored = Json::Object(report_json(success, stdout, stderr));
            let saved = Json::Object(
                report_json(success, stdout, stderr).push(("path"@, Json::Str(path))),
            );
            &&& restored.flag("success"@) == Some(success)
            &&& restored.text("stdout"@) == Some(crate::encoding::utf8_lossy(stdout))
            &&& restored.text("stderr"@) == Some(crate::encoding::utf8_lossy(stderr))
            &&& saved.flag("success"@) == Some(success)
            &&& saved.text("path"@) == Some(path)
        }),
{
    reveal_strlit("success");
    reveal_strlit("stdout");
    reveal_strlit("stderr");
    reveal_strlit("path");
    reveal_with_fuel(crate::value::find_key, 5);
    assert("success"@.len() == 7 && "stdout"@.len() == 6 && "stderr"@.len() == 6 && "path"@.len()
        == 4);
    assert("stdout"@[3] == 'o' && "stderr"@[3] == 'e');
    let o = report_json(success, stdout, stderr);
    let p = o.push(("path"@, Json::Str(path)));
    assert(o.drop_first()[0] == o[1] && o.drop_first().drop_first()[0] == o[2]);
    assert(p.drop_first()[0] == o[1] && p.drop_first().drop_first()[0] == o[2]);
    assert(p.drop_first().drop_first().drop_first()[0] == ("path"@, Json::Str(path)));
}

/// An engine without a tool is refused by name.
pub proof fn law_unsupported(engine: Seq<char>)
    ensures
        unsupported(engine, false) == "DBGM-00000: "@ + ("native "@ + "backup"@
            + " not supported for "@ + engine),
        unsupported(engine, true) == "DBGM-00000: "@ + ("native "@ + "restore"@
            + " not supported for "@ + engine),
{
}

} // verus!
