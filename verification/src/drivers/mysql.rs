//! MySQL / MariaDB engine driver.
//!
//! Both engines share one client protocol and one set of catalog queries; they
//! differ in their id and title.
use vstd::prelude::*;

use crate::connection::{ConnectionDefinition, ConnectionDefinitionView};
use crate::dbinfo::{
    CallableObjectInfo, CallableObjectInfoView, ColumnInfo, ColumnInfoView, ColumnReference,
    ColumnReferenceView, ConstraintType, DatabaseInfo, DatabaseInfoView, DatabaseObjectInfo,
    DatabaseObjectInfoView, ForeignKeyInfo, ForeignKeyInfoView, FunctionInfo, FunctionInfoView,
    IndexInfo, IndexInfoView, NamedObjectInfo, ParameterInfo, ParameterInfoView, ParameterMode,
    PrimaryKeyInfo, PrimaryKeyInfoView, ProcedureInfo, ProcedureInfoView, SqlObjectInfo,
    SqlObjectInfoView, TableInfo, TableInfoView, TriggerEventType, TriggerInfo, TriggerInfoView,
    UniqueInfo, UniqueInfoView, ViewInfo, ViewInfoView,
};
use crate::driver::{
    list_databases_under, stream_single_result, Capabilities, DatabaseEntry, ServerVersion,
    ServerVersionView, StreamEvent,
};
use crate::drivers::common::{
    constraint_over, foreign_keys_from, list_of_one, object_id_condition, parameter_mode,
    parameters_ddl_string, primary_key_from, sql_object, trigger_timing, ForeignKeyFields,
};
use crate::drivers::mysql_queries::{
    SQL_COLUMNS, SQL_FOREIGN_KEYS, SQL_INDEXES, SQL_PARAMETERS, SQL_PRIMARY_KEYS,
    SQL_PROGRAMMABLES, SQL_SCHEDULER_EVENTS, SQL_TABLES, SQL_TRIGGERS, SQL_UNIQUE_NAMES, SQL_VIEWS,
    SQL_VIEW_TEXTS,
};
use crate::encoding::{binary_value, number_or_null, text_or_binary_value, utf8_lossy_text};
use crate::error::{DbgmError, DbgmResult};
use crate::numbers::{decimal, decimal_padded, decimal_signed, float_literal};
use crate::query::{QueryResultColumn, QueryResultColumnView};
use crate::rows::{
    collect_texts, get_i64, get_str, get_text, list_has, map_list, new_list, or_empty, push_item,
    rows_with_text, text_is,
};
use crate::text::{
    chars_of, concat2, concat3, concat4, concat5, contains, find, position_of_byte, replaced, same,
    slice_string, split_words, starts_with, to_ascii_lower, trimmed, utf8_length,
};
use crate::value::{object_from, Json, Value};

verus! {

/// Dotted engine id for MySQL.
pub const MYSQL_ENGINE: &'static str = "mysql@dbgate-plugin-mysql";

/// Dotted engine id for MariaDB.
pub const MARIADB_ENGINE: &'static str = "mariadb@dbgate-plugin-mysql";

/// The MySQL driver.
pub struct MySqlDriver;

/// The MariaDB driver.
pub struct MariaDbDriver;

/// What both engines are capable of.
pub open spec fn mysql_capabilities() -> Capabilities {
    Capabilities {
        read_only_sessions: true,
        supports_transactions: true,
        supports_native_backup: true,
        supports_native_restore: true,
        supports_server_summary: true,
        default_port: Some(3306),
    }
}

fn shared_capabilities() -> (r: Capabilities)
    ensures
        r == mysql_capabilities(),
{
    Capabilities {
        read_only_sessions: true,
        supports_transactions: true,
        supports_native_backup: true,
        supports_native_restore: true,
        supports_server_summary: true,
        default_port: Some(3306),
    }
}

impl Default for MySqlDriver {
    fn default() -> (r: Self)
        ensures
            r == MySqlDriver,
    {
        MySqlDriver::new()
    }
}

impl MySqlDriver {
    pub fn new() -> (r: Self)
        ensures
            r == MySqlDriver,
    {
        MySqlDriver
    }

    pub fn engine(&self) -> (r: &'static str)
        ensures
            r@ == MYSQL_ENGINE@,
    {
        MYSQL_ENGINE
    }

    pub fn title(&self) -> (r: &'static str)
        ensures
            r@ == "MySQL"@,
    {
        "MySQL"
    }

    pub fn capabilities(&self) -> (r: Capabilities)
        ensures
            r == mysql_capabilities(),
    {
        shared_capabilities()
    }
}

impl Default for MariaDbDriver {
    fn default() -> (r: Self)
        ensures
            r == MariaDbDriver,
    {
        MariaDbDriver::new()
    }
}

impl MariaDbDriver {
    pub fn new() -> (r: Self)
        ensures
            r == MariaDbDriver,
    {
        MariaDbDriver
    }

    pub fn engine(&self) -> (r: &'static str)
        ensures
            r@ == MARIADB_ENGINE@,
    {
        MARIADB_ENGINE
    }

    pub fn title(&self) -> (r: &'static str)
        ensures
            r@ == "MariaDB"@,
    {
        "MariaDB"
    }

    pub fn capabilities(&self) -> (r: Capabilities)
        ensures
            r == mysql_capabilities(),
    {
        shared_capabilities()
    }
}

/// Bulk writes are not offered.
pub fn write_table_unsupported() -> (r: DbgmError)
    ensures
        r.deep_view() == crate::error::generic_error(
            "MySQL write_table streaming is not yet supported"@,
        ),
{
    DbgmError::new("MySQL write_table streaming is not yet supported".to_owned())
}

// ---------------------------------------------------------------------------
// Connecting
// ---------------------------------------------------------------------------

/// What a client is configured with.
pub struct MySqlOpts {
    pub host: String,
    pub port: u16,
    pub user: Option<String>,
    pub password: Option<String>,
    pub database: String,
    pub read_only: bool,
}

/// What [`MySqlOpts`] hold.
pub struct MySqlOptsView {
    pub host: Seq<char>,
    pub port: u16,
    pub user: Option<Seq<char>>,
    pub password: Option<Seq<char>>,
    pub database: Seq<char>,
    pub read_only: bool,
}

impl DeepView for MySqlOpts {
    type V = MySqlOptsView;

    open spec fn deep_view(&self) -> MySqlOptsView {
        MySqlOptsView {
            host: self.host@,
            port: self.port,
            user: self.user.deep_view(),
            password: self.password.deep_view(),
            database: self.database@,
            read_only: self.read_only,
        }
    }
}

/// The options for a definition with the server `host`. The database defaults
/// to `mysql`; of the port the low 16 bits count.
pub open spec fn opts_of(def: ConnectionDefinitionView, host: Seq<char>) -> MySqlOptsView {
    MySqlOptsView {
        host,
        port: match def.port {
            Some(p) => (p % 65536) as u16,
            None => 3306,
        },
        user: def.user,
        password: def.password,
        database: match def.database {
            Some(d) => d,
            None => "mysql"@,
        },
        read_only: def.is_read_only == Some(true),
    }
}

/// Builds the client options from a connection definition.
pub fn build_opts(def: &ConnectionDefinition) -> (r: DbgmResult<MySqlOpts>)
    ensures
        match r {
            Ok(c) => def.server is Some && c.deep_view() == opts_of(
                def.deep_view(),
                def.server->0@,
            ),
            Err(e) => def.server is None && e.deep_view() == crate::error::generic_error(
                "MySQL connection requires a server host"@,
            ),
        },
        r matches Ok(c) ==> (def.port matches Some(p) ==> p < 65536 ==> c.port == p),
{
    match &def.server {
        Some(server) => Ok(
            MySqlOpts {
                host: server.clone(),
                port: match def.port {
                    Some(p) => (p % 65536) as u16,
                    None => 3306,
                },
                user: def.user.clone(),
                password: def.password.clone(),
                database: match &def.database {
                    Some(d) => d.clone(),
                    None => "mysql".to_owned(),
                },
                read_only: match def.is_read_only {
                    Some(b) => b,
                    None => false,
                },
            },
        ),
        None => Err(DbgmError::new("MySQL connection requires a server host".to_owned())),
    }
}

// ---------------------------------------------------------------------------
// Value mapping
// ---------------------------------------------------------------------------

/// A cell as the client hands it out. Floating-point numbers of either width
/// are the bits of a double.
pub enum MySqlCell {
    Null,
    Int(i64),
    UInt(u64),
    Double(u64),
    Bytes(Vec<u8>),
    /// Year, month, day, hour, minute, second, microsecond.
    Date(u16, u8, u8, u8, u8, u8, u32),
    /// Negative, days, hours, minutes, seconds, microseconds.
    Time(bool, u32, u8, u8, u8, u32),
}

/// A column of a result set: its name and the name of its protocol type.
pub struct MySqlColumn {
    pub name: String,
    pub column_type: String,
}

/// What a [`MySqlColumn`] holds.
pub struct MySqlColumnView {
    pub name: Seq<char>,
    pub column_type: Seq<char>,
}

impl DeepView for MySqlColumn {
    type V = MySqlColumnView;

    open spec fn deep_view(&self) -> MySqlColumnView {
        MySqlColumnView { name: self.name@, column_type: self.column_type@ }
    }
}

/// Whether a column type carries binary bytes.
pub open spec fn is_binary(t: Seq<char>) -> bool {
    t == "MYSQL_TYPE_BLOB"@ || t == "MYSQL_TYPE_TINY_BLOB"@ || t == "MYSQL_TYPE_MEDIUM_BLOB"@ || t
        == "MYSQL_TYPE_LONG_BLOB"@ || t == "MYSQL_TYPE_BIT"@ || t == "MYSQL_TYPE_GEOMETRY"@
}

/// Whether a column type holds a number that must keep its digits.
pub open spec fn is_precise(t: Seq<char>) -> bool {
    t == "MYSQL_TYPE_LONGLONG"@ || t == "MYSQL_TYPE_NEWDECIMAL"@ || t == "MYSQL_TYPE_DECIMAL"@
}

/// Whether a column type carries binary bytes that must be `$binary` encoded.
pub fn is_binary_type(t: &str) -> (r: bool)
    ensures
        r == is_binary(t@),
{
    same(t, "MYSQL_TYPE_BLOB") || same(t, "MYSQL_TYPE_TINY_BLOB") || same(
        t,
        "MYSQL_TYPE_MEDIUM_BLOB",
    ) || same(t, "MYSQL_TYPE_LONG_BLOB") || same(t, "MYSQL_TYPE_BIT") || same(
        t,
        "MYSQL_TYPE_GEOMETRY",
    )
}

/// Whether a column type holds an integer/decimal that must keep string
/// precision.
pub fn is_precision_type(t: &str) -> (r: bool)
    ensures
        r == is_precise(t@),
{
    same(t, "MYSQL_TYPE_LONGLONG") || same(t, "MYSQL_TYPE_NEWDECIMAL") || same(
        t,
        "MYSQL_TYPE_DECIMAL",
    )
}

/// A date with its time: `YYYY-MM-DD HH:MM:SS`, and the microseconds where there
/// are any.
pub open spec fn date_form(
    year: u16,
    month: u8,
    day: u8,
    hour: u8,
    minute: u8,
    second: u8,
    micros: u32,
) -> Seq<char> {
    let base = crate::numbers::padded(year as nat, 4) + "-"@ + crate::numbers::padded(
        month as nat,
        2,
    ) + "-"@ + crate::numbers::padded(day as nat, 2) + " "@ + clock_form(hour, minute, second);
    if micros > 0 {
        base + "."@ + crate::numbers::padded(micros as nat, 6)
    } else {
        base
    }
}

/// A time of day: `HH:MM:SS`.
pub open spec fn clock_form(hour: u8, minute: u8, second: u8) -> Seq<char> {
    crate::numbers::padded(hour as nat, 2) + ":"@ + crate::numbers::padded(minute as nat, 2) + ":"@
        + crate::numbers::padded(second as nat, 2)
}

/// The JSON form of a cell in a column of type `t`.
pub open spec fn cell_json(cell: MySqlCell, t: Seq<char>) -> Json {
    if is_binary(t) && cell is Bytes {
        crate::encoding::binary_json(cell->Bytes_0@)
    } else if is_precise(t) {
        match cell {
            MySqlCell::Int(n) => Json::Str(crate::numbers::dec_int(n as int)),
            MySqlCell::UInt(n) => Json::Str(crate::numbers::dec(n as nat)),
            MySqlCell::Bytes(b) => Json::Str(crate::encoding::utf8_lossy(b@)),
            _ => Json::Null,
        }
    } else {
        match cell {
            MySqlCell::Null => Json::Null,
            MySqlCell::Int(n) => Json::Int(n as int),
            MySqlCell::UInt(n) => Json::Int(n as int),
            MySqlCell::Double(d) => crate::encoding::double_json(d),
            MySqlCell::Bytes(b) => crate::encoding::text_or_binary(b@),
            MySqlCell::Date(y, mo, d, h, mi, s, us) => Json::Str(
                date_form(y, mo, d, h, mi, s, us),
            ),
            MySqlCell::Time(neg, days, h, mi, s, _us) => Json::Str(
                (if neg {
                    "-"@
                } else {
                    ""@
                }) + crate::numbers::dec(days as nat) + " "@ + clock_form(h, mi, s),
            ),
        }
    }
}

fn clock_text(hour: u8, minute: u8, second: u8) -> (r: String)
    ensures
        r@ == clock_form(hour, minute, second),
{
    concat5(
        decimal_padded(hour as u64, 2).as_str(),
        ":",
        decimal_padded(minute as u64, 2).as_str(),
        ":",
        decimal_padded(second as u64, 2).as_str(),
    )
}

fn date_text(year: u16, month: u8, day: u8, hour: u8, minute: u8, second: u8, micros: u32) -> (r:
    String)
    ensures
        r@ == date_form(year, month, day, hour, minute, second, micros),
{
    let mut out = concat5(
        decimal_padded(year as u64, 4).as_str(),
        "-",
        decimal_padded(month as u64, 2).as_str(),
        "-",
        decimal_padded(day as u64, 2).as_str(),
    );
    out.push_str(" ");
    out.push_str(clock_text(hour, minute, second).as_str());
    if micros > 0 {
        out.push_str(".");
        out.push_str(decimal_padded(micros as u64, 6).as_str());
    }
    out
}

/// Converts a single cell to JSON.
pub fn value_to_json(cell: &MySqlCell, t: &str) -> (r: Value)
    ensures
        r@ == cell_json(*cell, t@),
{
    if is_binary_type(t) {
        if let MySqlCell::Bytes(b) = cell {
            return binary_value(b);
        }
    }
    if is_precision_type(t) {
        return match cell {
            MySqlCell::Int(n) => Value::Str(decimal_signed(*n)),
            MySqlCell::UInt(n) => Value::Str(decimal(*n)),
            MySqlCell::Bytes(b) => Value::Str(utf8_lossy_text(b)),
            _ => Value::Null,
        };
    }
    match cell {
        MySqlCell::Null => Value::Null,
        MySqlCell::Int(n) => Value::Int(*n as i128),
        MySqlCell::UInt(n) => Value::Int(*n as i128),
        MySqlCell::Double(d) => number_or_null(*d),
        MySqlCell::Bytes(b) => text_or_binary_value(b),
        MySqlCell::Date(y, mo, d, h, mi, s, us) => Value::Str(
            date_text(*y, *mo, *d, *h, *mi, *s, *us),
        ),
        MySqlCell::Time(neg, days, h, mi, s, _us) => {
            let sign = if *neg {
                "-"
            } else {
                ""
            };
            Value::Str(
                concat4(
                    sign,
                    decimal(*days as u64).as_str(),
                    " ",
                    clock_text(*h, *mi, *s).as_str(),
                ),
            )
        },
    }
}

/// The JSON form of a cell that may be missing.
pub open spec fn optional_cell_json(cell: Option<MySqlCell>, t: Seq<char>) -> Json {
    match cell {
        Some(c) => cell_json(c, t),
        None => Json::Null,
    }
}

/// The JSON object of a row.
pub open spec fn row_json(columns: Seq<MySqlColumnView>, cells: Seq<Option<MySqlCell>>) -> Json {
    crate::value::row_object(
        Seq::new(columns.len(), |i: int| columns[i].name),
        Seq::new(columns.len(), |i: int| optional_cell_json(cells[i], columns[i].column_type)),
    )
}

/// Converts a full row to a JSON object keyed by column name.
pub fn row_to_value(columns: &Vec<MySqlColumn>, cells: &Vec<Option<MySqlCell>>) -> (r: Value)
    requires
        columns@.len() == cells@.len(),
    ensures
        r@ == row_json(columns.deep_view(), cells@),
{
    let mut names: Vec<String> = Vec::new();
    let mut values: Vec<Value> = Vec::new();
    let mut i: usize = 0;
    while i < columns.len()
        invariant
            i <= columns@.len() == cells@.len(),
            names@.len() == i,
            values@.len() == i,
            forall|k: int| 0 <= k < i ==> (#[trigger] names@[k])@ == columns@[k].name@,
            forall|k: int|
                0 <= k < i ==> (#[trigger] values@[k])@ == optional_cell_json(
                    cells@[k],
                    columns@[k].column_type@,
                ),
        decreases columns@.len() - i,
    {
        names.push(columns[i].name.clone());
        let value = match &cells[i] {
            Some(cell) => value_to_json(cell, columns[i].column_type.as_str()),
            None => Value::Null,
        };
        values.push(value);
        i = i + 1;
    }
    proof {
        let cv = columns.deep_view();
        assert(names.deep_view() =~= Seq::new(cv.len(), |k: int| cv[k].name));
        assert(values.deep_view() =~= Seq::new(
            cv.len(),
            |k: int| optional_cell_json(cells@[k], cv[k].column_type),
        ));
    }
    object_from(&names, values)
}

/// The metadata of a result set's columns.
pub open spec fn metadata_of(columns: Seq<MySqlColumnView>) -> Seq<QueryResultColumnView> {
    Seq::new(
        columns.len(),
        |i: int| crate::query::plain_column(columns[i].name, Some(columns[i].column_type)),
    )
}

/// Builds the column metadata for a result set's columns.
pub fn columns_metadata(columns: &Vec<MySqlColumn>) -> (r: Vec<QueryResultColumn>)
    ensures
        r.deep_view() == metadata_of(columns.deep_view()),
{
    let f = |c: &MySqlColumn| -> (q: QueryResultColumn)
        ensures
            q.deep_view() == crate::query::plain_column(c.name@, Some(c.column_type@)),
    {
        QueryResultColumn::plain(c.name.clone(), Some(c.column_type.clone()))
    };
    let r = map_list(columns, f);
    assert(r.deep_view() =~= metadata_of(columns.deep_view()));
    r
}

/// The events of a streamed query.
pub fn stream_events(columns: Vec<QueryResultColumn>, rows: Vec<Value>) -> (r: Vec<StreamEvent>)
    ensures
        r.deep_view() == crate::driver::single_result_events(
            columns.deep_view(),
            rows.deep_view(),
        ),
{
    stream_single_result(columns, rows)
}

// ---------------------------------------------------------------------------
// Server metadata
// ---------------------------------------------------------------------------

/// The text of a version, given in small letters what stands from its first hyphen
/// on: MariaDB where that names it, MySQL otherwise.
pub open spec fn version_text_with(version: Seq<char>, low_suffix: Seq<char>) -> Seq<char> {
    match crate::text::find_from(version, "-"@, 0) {
        Some(i) => if crate::text::holds(low_suffix, "mariadb"@) {
            "MariaDB "@ + version.take(i)
        } else {
            "MySQL "@ + version
        },
        None => "MySQL "@ + version,
    }
}

/// What stands from the first hyphen of a version on.
pub open spec fn version_suffix(version: Seq<char>) -> Seq<char> {
    match crate::text::find_from(version, "-"@, 0) {
        Some(i) => version.skip(i),
        None => Seq::empty(),
    }
}

/// The text of a version: MariaDB where the part from the first hyphen on names
/// it, MySQL otherwise.
pub open spec fn version_text_of(version: Seq<char>) -> Seq<char> {
    version_text_with(version, crate::encoding::lowercase(version_suffix(version)))
}

/// The version that the rows of `show variables like 'version'` report.
pub open spec fn version_of(rows: Seq<Json>) -> ServerVersionView {
    let version = if rows.len() > 0 && rows[0].text("Value"@) is Some {
        rows[0].text("Value"@)->0
    } else {
        "unknown"@
    };
    ServerVersionView { version, version_text: Some(version_text_of(version)) }
}

/// The text of a version, given in small letters what stands from its first hyphen
/// on.
pub fn named_version(version: &str, low_suffix: &str) -> (r: String)
    ensures
        r@ == version_text_with(version@, low_suffix@),
{
    let chars = chars_of(version);
    if let Some(i) = find(&chars, &chars_of("-")) {
        if contains(low_suffix, "mariadb") {
            let prefix = slice_string(&chars, 0, i);
            assert(prefix@ =~= version@.take(i as int));
            return concat2("MariaDB ", prefix.as_str());
        }
    }
    concat2("MySQL ", version)
}

fn version_text(version: &str) -> (r: String)
    ensures
        r@ == version_text_of(version@),
{
    let chars = chars_of(version);
    let suffix = match find(&chars, &chars_of("-")) {
        Some(i) => {
            let rest = slice_string(&chars, i, chars.len());
            assert(rest@ =~= version@.skip(i as int));
            rest
        },
        None => String::new(),
    };
    assert(suffix@ =~= version_suffix(version@));
    named_version(version, suffix.as_str().to_lowercase().as_str())
}

/// The server version, from the rows of `show variables like 'version'`.
pub fn server_version(rows: &Vec<Value>) -> (r: ServerVersion)
    ensures
        r.deep_view() == version_of(rows.deep_view()),
{
    let reported = if rows.len() > 0 {
        assert(rows.deep_view()[0] == rows@[0]@);
        get_str(&rows[0], "Value")
    } else {
        None
    };
    let version = match reported {
        Some(v) => v,
        None => "unknown".to_owned(),
    };
    let version_text = Some(version_text(version.as_str()));
    ServerVersion { version, version_text }
}

/// The databases on a server, from the rows of `show databases`.
pub fn list_databases(rows: &Vec<Value>) -> (r: Vec<DatabaseEntry>)
    ensures
        r.deep_view() == crate::driver::databases_under(rows.deep_view(), "Database"@),
{
    list_databases_under(rows, "Database")
}

// ---------------------------------------------------------------------------
// Analysis queries
// ---------------------------------------------------------------------------

/// The id of an object: `{kind}:{pure}`.
pub open spec fn id_of(kind: Seq<char>, pure: Seq<char>) -> Seq<char> {
    kind + ":"@ + pure
}

pub fn object_id(kind: &str, pure: &str) -> (r: String)
    ensures
        r@ == id_of(kind@, pure@),
{
    concat3(kind, ":", pure)
}

/// A query template with its placeholders filled in.
pub open spec fn with_condition(
    template: Seq<char>,
    database: Seq<char>,
    object_id: Option<Seq<char>>,
) -> Seq<char> {
    crate::text::replace(
        crate::text::replace(template, "#DATABASE#"@, database),
        "=OBJECT_ID_CONDITION"@,
        crate::drivers::common::id_condition(object_id),
    )
}

/// Substitutes the database and the `=OBJECT_ID_CONDITION` placeholder.
/// `object_id` is `None` in full-analysis mode (all objects).
pub fn substitute_condition(template: &str, database: &str, object_id: Option<&str>) -> (r: String)
    ensures
        r@ == with_condition(template@, database@, crate::value::opt_str(object_id)),
{
    proof {
        reveal_strlit("#DATABASE#");
        reveal_strlit("=OBJECT_ID_CONDITION");
    }
    let with_database = replaced(template, "#DATABASE#", database);
    replaced(
        with_database.as_str(),
        "=OBJECT_ID_CONDITION",
        object_id_condition(object_id).as_str(),
    )
}

/// The queries of a full analysis, in the order of the fields of
/// [`MySqlCatalog`].
pub open spec fn full_queries(database: Seq<char>) -> Seq<Seq<char>> {
    seq![
        with_condition(SQL_TABLES@, database, None),
        with_condition(SQL_COLUMNS@, database, None),
        with_condition(SQL_PRIMARY_KEYS@, database, None),
        with_condition(SQL_FOREIGN_KEYS@, database, None),
        with_condition(SQL_VIEWS@, database, None),
        with_condition(SQL_PROGRAMMABLES@, database, None),
        with_condition(SQL_PARAMETERS@, database, None),
        with_condition(SQL_VIEW_TEXTS@, database, None),
        with_condition(SQL_INDEXES@, database, None),
        with_condition(SQL_TRIGGERS@, database, None),
        with_condition(SQL_SCHEDULER_EVENTS@, database, None),
        with_condition(SQL_UNIQUE_NAMES@, database, None),
    ]
}

/// The queries of a full analysis.
pub fn full_analysis_queries(database: &str) -> (r: Vec<String>)
    ensures
        r.deep_view() == full_queries(database@),
{
    let mut out: Vec<String> = Vec::new();
    out.push(substitute_condition(SQL_TABLES, database, None));
    out.push(substitute_condition(SQL_COLUMNS, database, None));
    out.push(substitute_condition(SQL_PRIMARY_KEYS, database, None));
    out.push(substitute_condition(SQL_FOREIGN_KEYS, database, None));
    out.push(substitute_condition(SQL_VIEWS, database, None));
    out.push(substitute_condition(SQL_PROGRAMMABLES, database, None));
    out.push(substitute_condition(SQL_PARAMETERS, database, None));
    out.push(substitute_condition(SQL_VIEW_TEXTS, database, None));
    out.push(substitute_condition(SQL_INDEXES, database, None));
    out.push(substitute_condition(SQL_TRIGGERS, database, None));
    out.push(substitute_condition(SQL_SCHEDULER_EVENTS, database, None));
    out.push(substitute_condition(SQL_UNIQUE_NAMES, database, None));
    assert(out.deep_view() =~= full_queries(database@));
    out
}

/// The queries of the analysis of one table: tables, columns, primary keys,
/// foreign keys, indexes, unique names.
pub open spec fn table_queries(database: Seq<char>, pure: Seq<char>) -> Seq<Seq<char>> {
    let id = Some(pure);
    seq![
        with_condition(SQL_TABLES@, database, id),
        with_condition(SQL_COLUMNS@, database, id),
        with_condition(SQL_PRIMARY_KEYS@, database, id),
        with_condition(SQL_FOREIGN_KEYS@, database, id),
        with_condition(SQL_INDEXES@, database, id),
        with_condition(SQL_UNIQUE_NAMES@, database, None),
    ]
}

/// The queries of the analysis of one table.
pub fn table_analysis_queries(database: &str, name: &NamedObjectInfo) -> (r: Vec<String>)
    ensures
        r.deep_view() == table_queries(database@, name.pure_name@),
{
    let id = Some(name.pure_name.as_str());
    let mut out: Vec<String> = Vec::new();
    out.push(substitute_condition(SQL_TABLES, database, id));
    out.push(substitute_condition(SQL_COLUMNS, database, id));
    out.push(substitute_condition(SQL_PRIMARY_KEYS, database, id));
    out.push(substitute_condition(SQL_FOREIGN_KEYS, database, id));
    out.push(substitute_condition(SQL_INDEXES, database, id));
    out.push(substitute_condition(SQL_UNIQUE_NAMES, database, None));
    assert(out.deep_view() =~= table_queries(database@, name.pure_name@));
    out
}

// ---------------------------------------------------------------------------
// Columns
// ---------------------------------------------------------------------------

pub open spec fn is_string_type(t: Seq<char>) -> bool {
    t == "varchar"@ || t == "char"@ || t == "text"@ || t == "tinytext"@ || t == "mediumtext"@ || t
        == "longtext"@ || t == "binary"@ || t == "varbinary"@
}

pub open spec fn is_numeric_type(t: Seq<char>) -> bool {
    t == "decimal"@ || t == "numeric"@
}

fn is_type_string(t: &str) -> (r: bool)
    ensures
        r == is_string_type(t@),
{
    same(t, "varchar") || same(t, "char") || same(t, "text") || same(t, "tinytext") || same(
        t,
        "mediumtext",
    ) || same(t, "longtext") || same(t, "binary") || same(t, "varbinary")
}

fn is_type_numeric(t: &str) -> (r: bool)
    ensures
        r == is_numeric_type(t@),
{
    same(t, "decimal") || same(t, "numeric")
}

/// Whether a column type in small letters is that of an enum or a set: it carries
/// its options.
pub open spec fn is_inline_type(low_type: Seq<char>) -> bool {
    crate::text::has_prefix(low_type, "enum("@) || crate::text::has_prefix(low_type, "set("@)
}

/// The full name of the type of the column that a row describes, given its column
/// type in small letters.
pub open spec fn full_type_with(row: Json, low_type: Seq<char>) -> Seq<char> {
    let data_type = or_empty(row.text("dataType"@));
    let column_type = or_empty(row.text("columnType"@));
    let precision = row.int64("numericPrecision"@);
    let scale = row.int64("numericScale"@);
    let length = row.int64("charMaxLength"@);
    if is_inline_type(low_type) {
        column_type
    } else if precision is Some && scale is Some && is_numeric_type(data_type) {
        data_type + "("@ + crate::numbers::dec_int(precision->0 as int) + ","@
            + crate::numbers::dec_int(scale->0 as int) + ")"@
    } else if length is Some && is_string_type(data_type) {
        data_type + "("@ + crate::numbers::dec_int(length->0 as int) + ")"@
    } else {
        data_type
    }
}

fn full_type_name(row: &Value, low_type: &str) -> (r: String)
    ensures
        r@ == full_type_with(row@, low_type@),
{
    let data_type = get_text(row, "dataType");
    let column_type = get_text(row, "columnType");
    let mut full = data_type.clone();
    if let Some(len) = get_i64(row, "charMaxLength") {
        if is_type_string(data_type.as_str()) {
            full = concat4(data_type.as_str(), "(", decimal_signed(len).as_str(), ")");
        }
    }
    if let Some(p) = get_i64(row, "numericPrecision") {
        if let Some(s) = get_i64(row, "numericScale") {
            if is_type_numeric(data_type.as_str()) {
                full =
                concat5(
                    data_type.as_str(),
                    "(",
                    decimal_signed(p).as_str(),
                    ",",
                    decimal_signed(s).as_str(),
                );
                full.push_str(")");
            }
        }
    }
    if starts_with(low_type, "enum(") || starts_with(low_type, "set(") {
        full = column_type;
    }
    full
}

/// A default value as SQL: numbers, `CURRENT_*` and `NULL` stay bare; other texts
/// are single-quoted, their quotes escaped by a backslash.
pub open spec fn quoted_default(value: Seq<char>) -> Seq<char> {
    if value.len() == 0 || crate::numbers::is_float_literal(value) || crate::text::has_prefix(
        value,
        "CURRENT_"@,
    ) || crate::text::ascii_lower(value) == "null"@ {
        value
    } else {
        "'"@ + crate::text::replace(value, "'"@, "\\'"@) + "'"@
    }
}

/// Numeric and `CURRENT_*` defaults stay bare; other string defaults are
/// single-quoted.
pub fn quote_default_value(value: &str) -> (r: String)
    ensures
        r@ == quoted_default(value@),
{
    proof {
        reveal_strlit("'");
    }
    if value.is_empty() || float_literal(value) || starts_with(value, "CURRENT_") || same(
        to_ascii_lower(value).as_str(),
        "null",
    ) {
        return value.to_owned();
    }
    concat3("'", replaced(value, "'", "\\'").as_str(), "'")
}

/// The expression behind `on update`, given the text in lower case: what stands
/// behind the bytes that lead up to it there. Nothing where these do not end
/// between two characters of the text.
pub open spec fn on_update_behind(extra: Seq<char>, lowered: Seq<char>) -> Option<Seq<char>> {
    match crate::text::find_from(lowered, "on update"@, 0) {
        Some(i) => match crate::text::char_position(
            extra,
            crate::text::utf8_len(lowered.take(i)) as int + 9,
        ) {
            Some(k) => Some(crate::text::trim(extra.skip(k))),
            None => None,
        },
        None => None,
    }
}

/// The expression behind `on update`, given the text in lower case.
pub fn on_update_expression(extra: &str, lowered: &str) -> (r: Option<String>)
    ensures
        r.deep_view() == on_update_behind(extra@, lowered@),
{
    let low = chars_of(lowered);
    match find(&low, &chars_of("on update")) {
        Some(i) => {
            let chars = chars_of(extra);
            match position_of_byte(&chars, utf8_length(&low, i) + 9) {
                Some(k) => {
                    let rest = slice_string(&chars, k, chars.len());
                    assert(rest@ =~= extra@.skip(k as int));
                    Some(trimmed(rest.as_str()))
                },
                None => None,
            }
        },
        None => None,
    }
}

fn has_word(text: &str, word: &str) -> (r: bool)
    ensures
        r == crate::text::words(text@).contains(word@),
{
    let words = split_words(text);
    assert(words.deep_view() =~= crate::text::texts(words@));
    list_has(&words, word)
}

/// The column that a row describes, given its `extra` and its column type in small
/// letters.
pub open spec fn column_with(
    row: Json,
    column_name: Seq<char>,
    quote_defaults: bool,
    low_extra: Seq<char>,
    low_type: Seq<char>,
) -> ColumnInfoView {
    let extra = or_empty(row.text("extra"@));
    let column_type = or_empty(row.text("columnType"@));
    let nullable = row.text("isNullable"@);
    let auto_increment = crate::text::holds(low_extra, "auto_increment"@);
    ColumnInfoView {
        column_name,
        data_type: full_type_with(row, low_type),
        not_null: Some(nullable == Some("NO"@) || nullable == Some("no"@)),
        auto_increment: Some(auto_increment),
        default_value: match row.text("defaultValue"@) {
            Some(v) => if auto_increment {
                None
            } else if quote_defaults {
                Some(quoted_default(v))
            } else {
                Some(v)
            },
            None => None,
        },
        on_update_expression: on_update_behind(extra, low_extra),
        is_unsigned: Some(crate::text::words(column_type).contains("unsigned"@)),
        is_zerofill: Some(crate::text::words(column_type).contains("zerofill"@)),
        column_comment: row.text("columnComment"@),
        ..crate::dbinfo::blank_column()
    }
}

/// The column that a row describes.
pub open spec fn column_of(
    row: Json,
    column_name: Seq<char>,
    quote_defaults: bool,
) -> ColumnInfoView {
    column_with(
        row,
        column_name,
        quote_defaults,
        crate::encoding::lowercase(or_empty(row.text("extra"@))),
        crate::encoding::lowercase(or_empty(row.text("columnType"@))),
    )
}

/// The column that a row describes, given its `extra` and its column type in small
/// letters.
pub fn column_info_with(
    row: &Value,
    column_name: &str,
    quote_defaults: bool,
    low_extra: &str,
    low_type: &str,
) -> (r: ColumnInfo)
    ensures
        r.deep_view() == column_with(row@, column_name@, quote_defaults, low_extra@, low_type@),
{
    let extra = get_text(row, "extra");
    let column_type = get_text(row, "columnType");
    let nullable_no = text_is(row, "isNullable", "NO") || text_is(row, "isNullable", "no");
    let auto_increment = contains(low_extra, "auto_increment");
    let default_value = match get_str(row, "defaultValue") {
        Some(v) => if auto_increment {
            None
        } else if quote_defaults {
            Some(quote_default_value(v.as_str()))
        } else {
            Some(v)
        },
        None => None,
    };
    let mut info = ColumnInfo::default();
    info.column_name = column_name.to_owned();
    info.data_type = full_type_name(row, low_type);
    info.not_null = Some(nullable_no);
    info.auto_increment = Some(auto_increment);
    info.default_value = default_value;
    info.on_update_expression = on_update_expression(extra.as_str(), low_extra);
    info.is_unsigned = Some(has_word(column_type.as_str(), "unsigned"));
    info.is_zerofill = Some(has_word(column_type.as_str(), "zerofill"));
    info.column_comment = get_str(row, "columnComment");
    info
}

pub fn get_column_info(row: &Value, column_name: &str, quote_defaults: bool) -> (r: ColumnInfo)
    ensures
        r.deep_view() == column_of(row@, column_name@, quote_defaults),
{
    column_info_with(
        row,
        column_name,
        quote_defaults,
        get_text(row, "extra").as_str().to_lowercase().as_str(),
        get_text(row, "columnType").as_str().to_lowercase().as_str(),
    )
}

/// The rows that belong to an object.
pub open spec fn rows_of(rows: Seq<Json>, pure: Seq<char>) -> Seq<Json> {
    crate::rows::where_text(rows, "pureName"@, pure)
}

/// The columns of an object.
pub open spec fn columns_of(rows: Seq<Json>, pure: Seq<char>) -> Seq<ColumnInfoView> {
    let own = rows_of(rows, pure);
    Seq::new(
        own.len(),
        |i: int| column_of(own[i], or_empty(own[i].text("columnName"@)), true),
    )
}

/// The columns of an object.
pub fn build_columns(pure: &str, column_rows: &Vec<Value>) -> (r: Vec<ColumnInfo>)
    ensures
        r.deep_view() == columns_of(column_rows.deep_view(), pure@),
{
    let own = rows_with_text(column_rows, "pureName", pure);
    let f = |row: &&Value| -> (c: ColumnInfo)
        ensures
            c.deep_view() == column_of(
                row.deep_view(),
                or_empty(row.deep_view().text("columnName"@)),
                true,
            ),
    {
        get_column_info(row, get_text(row, "columnName").as_str(), true)
    };
    let r = map_list(&own, f);
    assert(r.deep_view() =~= columns_of(column_rows.deep_view(), pure@));
    r
}

// ---------------------------------------------------------------------------
// Keys and indexes
// ---------------------------------------------------------------------------

/// The primary key of a table.
pub open spec fn primary_key(rows: Seq<Json>, pure: Seq<char>) -> Option<PrimaryKeyInfoView> {
    crate::drivers::common::primary_key_of(
        rows_of(rows, pure),
        "constraintName"@,
        "columnName"@,
    )
}

pub fn build_primary_key(pure: &str, pk_rows: &Vec<Value>) -> (r: Option<PrimaryKeyInfo>)
    ensures
        r.deep_view() == primary_key(pk_rows.deep_view(), pure@),
{
    let own = rows_with_text(pk_rows, "pureName", pure);
    primary_key_from(&own, "constraintName", "columnName")
}

/// The keys under which rows describe foreign keys.
pub open spec fn fk_fields() -> ForeignKeyFields<'static> {
    ForeignKeyFields {
        constraint_name: "constraintName",
        column_name: "columnName",
        ref_column_name: "refColumnName",
        ref_schema_name: None,
        ref_table_name: "refTableName",
        update_action: Some("updateAction"),
        delete_action: Some("deleteAction"),
        is_descending: None,
        empty_actions: false,
    }
}

/// The foreign keys of a table.
pub open spec fn foreign_keys(rows: Seq<Json>, pure: Seq<char>) -> Seq<ForeignKeyInfoView> {
    crate::drivers::common::foreign_keys_of(rows_of(rows, pure), fk_fields())
}

pub fn build_foreign_keys(pure: &str, fk_rows: &Vec<Value>) -> (r: Vec<ForeignKeyInfo>)
    ensures
        r.deep_view() == foreign_keys(fk_rows.deep_view(), pure@),
{
    let own = rows_with_text(fk_rows, "pureName", pure);
    let fields = ForeignKeyFields {
        constraint_name: "constraintName",
        column_name: "columnName",
        ref_column_name: "refColumnName",
        ref_schema_name: None,
        ref_table_name: "refTableName",
        update_action: Some("updateAction"),
        delete_action: Some("deleteAction"),
        is_descending: None,
        empty_actions: false,
    };
    foreign_keys_from(&own, &fields)
}

/// The column of an index row, ascending where the row does not say.
pub open spec fn index_column(row: Json) -> ColumnReferenceView {
    ColumnReferenceView {
        column_name: or_empty(row.text("columnName"@)),
        ref_column_name: None,
        is_included_column: None,
        is_descending: Some(row.flag("isDescending"@) == Some(true)),
    }
}

/// The name of the index that a row describes.
pub open spec fn index_name(row: Json) -> Seq<char> {
    or_empty(row.text("constraintName"@))
}

/// The index that a row describes, where its name is not that of a unique
/// constraint.
pub open spec fn as_index(row: Json, unique_names: Seq<Seq<char>>) -> Option<IndexInfoView> {
    if unique_names.contains(index_name(row)) {
        None
    } else {
        Some(
            IndexInfoView {
                columns_constraint: crate::drivers::common::over_columns(
                    ConstraintType::Index,
                    Some(index_name(row)),
                    seq![index_column(row)],
                ),
                is_unique: row.int64("nonUnique"@) == Some(0i64),
                index_type: match row.text("indexType"@) {
                    Some(t) => Some(t),
                    None => Some("index"@),
                },
                filter_definition: None,
            },
        )
    }
}

/// The unique constraint that a row describes, where its name is that of one.
pub open spec fn as_unique(row: Json, unique_names: Seq<Seq<char>>) -> Option<UniqueInfoView> {
    if unique_names.contains(index_name(row)) {
        Some(
            UniqueInfoView {
                columns_constraint: crate::drivers::common::over_columns(
                    ConstraintType::Unique,
                    Some(index_name(row)),
                    seq![index_column(row)],
                ),
            },
        )
    } else {
        None
    }
}

/// The indexes among some index rows.
pub open spec fn indexes_of(rows: Seq<Json>, unique_names: Seq<Seq<char>>) -> Seq<IndexInfoView> {
    crate::rows::pick(rows, |r: Json| as_index(r, unique_names))
}

/// The unique constraints among some index rows.
pub open spec fn uniques_of(rows: Seq<Json>, unique_names: Seq<Seq<char>>) -> Seq<UniqueInfoView> {
    crate::rows::pick(rows, |r: Json| as_unique(r, unique_names))
}

/// Each index row becomes an index or a unique constraint, and never both.
pub proof fn law_index_or_unique(rows: Seq<Json>, unique_names: Seq<Seq<char>>)
    ensures
        indexes_of(rows, unique_names).len() + uniques_of(rows, unique_names).len() == rows.len(),
    decreases rows.len(),
{
    if rows.len() > 0 {
        law_index_or_unique(rows.drop_last(), unique_names);
    }
}

pub fn build_indexes_and_uniques(
    pure: &str,
    index_rows: &Vec<Value>,
    unique_names: &Vec<String>,
) -> (r: (Vec<IndexInfo>, Vec<UniqueInfo>))
    ensures
        r.0.deep_view() == indexes_of(
            crate::rows::where_text(index_rows.deep_view(), "tableName"@, pure@),
            unique_names.deep_view(),
        ),
        r.1.deep_view() == uniques_of(
            crate::rows::where_text(index_rows.deep_view(), "tableName"@, pure@),
            unique_names.deep_view(),
        ),
{
    let own = rows_with_text(index_rows, "tableName", pure);
    let ghost all = own.deep_view();
    let ghost names = unique_names.deep_view();
    let mut indexes: Vec<IndexInfo> = new_list();
    let mut uniques: Vec<UniqueInfo> = new_list();
    let mut i: usize = 0;
    while i < own.len()
        invariant
            i <= own@.len(),
            all == own.deep_view(),
            names == unique_names.deep_view(),
            indexes.deep_view() == indexes_of(all.take(i as int), names),
            uniques.deep_view() == uniques_of(all.take(i as int), names),
        decreases own@.len() - i,
    {
        proof {
            crate::rows::lemma_take_next(all, i as int);
        }
        let idx: &Value = own[i];
        let name = get_text(idx, "constraintName");
        let is_descending = match idx.flag("isDescending") {
            Some(b) => b,
            None => false,
        };
        let columns = list_of_one(
            ColumnReference {
                column_name: get_text(idx, "columnName"),
                ref_column_name: None,
                is_included_column: None,
                is_descending: Some(is_descending),
            },
        );
        if list_has(unique_names, name.as_str()) {
            push_item(
                &mut uniques,
                UniqueInfo {
                    columns_constraint: constraint_over(
                        ConstraintType::Unique,
                        Some(name),
                        columns,
                    ),
                },
            );
        } else {
            let non_unique: i64 = match idx.int64("nonUnique") {
                Some(n) => n,
                None => 1,
            };
            push_item(
                &mut indexes,
                IndexInfo {
                    columns_constraint: constraint_over(
                        ConstraintType::Index,
                        Some(name),
                        columns,
                    ),
                    is_unique: non_unique == 0,
                    index_type: match get_str(idx, "indexType") {
                        Some(t) => Some(t),
                        None => Some("index".to_owned()),
                    },
                    filter_definition: None,
                },
            );
        }
        i = i + 1;
    }
    proof {
        crate::rows::lemma_take_all(all);
    }
    (indexes, uniques)
}

// ---------------------------------------------------------------------------
// Routines
// ---------------------------------------------------------------------------

/// The parameter that a row describes.
pub open spec fn parameter_of(row: Json) -> ParameterInfoView {
    ParameterInfoView {
        parameter_name: or_empty(row.text("parameterName"@)),
        data_type: or_empty(row.text("dataType"@)),
        parameter_mode: Some(
            crate::drivers::common::mode_named(row.text("parameterMode"@)),
        ),
        position: row.int64("ordinalPosition"@),
    }
}

/// The parameters of a routine.
pub open spec fn parameters_of(rows: Seq<Json>, pure: Seq<char>) -> Seq<ParameterInfoView> {
    let own = rows_of(rows, pure);
    Seq::new(own.len(), |i: int| parameter_of(own[i]))
}

pub fn build_parameters(pure: &str, param_rows: &Vec<Value>) -> (r: Vec<ParameterInfo>)
    ensures
        r.deep_view() == parameters_of(param_rows.deep_view(), pure@),
{
    let own = rows_with_text(param_rows, "pureName", pure);
    let f = |row: &&Value| -> (p: ParameterInfo)
        ensures
            p.deep_view() == parameter_of(row.deep_view()),
    {
        ParameterInfo {
            parameter_name: get_text(row, "parameterName"),
            data_type: get_text(row, "dataType"),
            parameter_mode: Some(parameter_mode(row, "parameterMode")),
            position: get_i64(row, "ordinalPosition"),
        }
    };
    let r = map_list(&own, f);
    assert(r.deep_view() =~= parameters_of(param_rows.deep_view(), pure@));
    r
}

/// The parameter list used to build procedure/function DDL.
pub fn parameters_sql_string(parameters: &Vec<ParameterInfo>) -> (r: String)
    ensures
        r@ == crate::drivers::common::parameters_ddl(parameters.deep_view()),
{
    parameters_ddl_string(parameters)
}

// ---------------------------------------------------------------------------
// Full analysis
// ---------------------------------------------------------------------------

/// The rows of the queries of a full analysis.
pub struct MySqlCatalog {
    pub tables: Vec<Value>,
    pub columns: Vec<Value>,
    pub primary_keys: Vec<Value>,
    pub foreign_keys: Vec<Value>,
    pub views: Vec<Value>,
    pub routines: Vec<Value>,
    pub parameters: Vec<Value>,
    pub view_texts: Vec<Value>,
    pub indexes: Vec<Value>,
    pub triggers: Vec<Value>,
    pub scheduler_events: Vec<Value>,
    pub unique_names: Vec<Value>,
}

/// What a [`MySqlCatalog`] holds.
pub struct MySqlCatalogView {
    pub tables: Seq<Json>,
    pub columns: Seq<Json>,
    pub primary_keys: Seq<Json>,
    pub foreign_keys: Seq<Json>,
    pub views: Seq<Json>,
    pub routines: Seq<Json>,
    pub parameters: Seq<Json>,
    pub view_texts: Seq<Json>,
    pub indexes: Seq<Json>,
    pub triggers: Seq<Json>,
    pub scheduler_events: Seq<Json>,
    pub unique_names: Seq<Json>,
}

impl DeepView for MySqlCatalog {
    type V = MySqlCatalogView;

    open spec fn deep_view(&self) -> MySqlCatalogView {
        MySqlCatalogView {
            tables: self.tables.deep_view(),
            columns: self.columns.deep_view(),
            primary_keys: self.primary_keys.deep_view(),
            foreign_keys: self.foreign_keys.deep_view(),
            views: self.views.deep_view(),
            routines: self.routines.deep_view(),
            parameters: self.parameters.deep_view(),
            view_texts: self.view_texts.deep_view(),
            indexes: self.indexes.deep_view(),
            triggers: self.triggers.deep_view(),
            scheduler_events: self.scheduler_events.deep_view(),
            unique_names: self.unique_names.deep_view(),
        }
    }
}

/// The object that a row of a catalog query describes.
pub open spec fn object_in(
    row: Json,
    id: Seq<char>,
    hash: Option<Seq<char>>,
) -> DatabaseObjectInfoView {
    DatabaseObjectInfoView {
        pure_name: pure_in(row),
        schema_name: None,
        pairing_id: None,
        object_id: Some(id),
        create_date: None,
        modify_date: row.text("modifyDate"@),
        hash_code: hash,
        object_type_field: None,
        object_comment: row.text("objectComment"@),
    }
}

pub fn db_table_object(row: &Value, object_id: String, content_hash: Option<String>) -> (r:
    DatabaseObjectInfo)
    ensures
        r.deep_view() == object_in(row@, object_id@, content_hash.deep_view()),
{
    DatabaseObjectInfo {
        pure_name: get_text(row, "pureName"),
        schema_name: None,
        pairing_id: None,
        object_id: Some(object_id),
        create_date: None,
        modify_date: get_str(row, "modifyDate"),
        hash_code: content_hash,
        object_type_field: None,
        object_comment: get_str(row, "objectComment"),
    }
}

/// The name that a row gives, empty where it gives none.
pub open spec fn pure_in(row: Json) -> Seq<char> {
    or_empty(row.text("pureName"@))
}

/// The table that a row of the table query describes, with the id `key`.
pub open spec fn table_of(row: Json, key: Seq<char>, c: MySqlCatalogView) -> TableInfoView {
    let pure = pure_in(row);
    let unique_names = crate::rows::texts_under(c.unique_names, "constraintName"@);
    let index_rows = crate::rows::where_text(c.indexes, "tableName"@, pure);
    TableInfoView {
        object: object_in(row, key, row.text("modifyDate"@)),
        columns: columns_of(c.columns, pure),
        primary_key: primary_key(c.primary_keys, pure),
        sorting_key: None,
        foreign_keys: Some(foreign_keys(c.foreign_keys, pure)),
        dependencies: None,
        indexes: Some(indexes_of(index_rows, unique_names)),
        uniques: Some(uniques_of(index_rows, unique_names)),
        checks: None,
        table_row_count: row.int64("tableRowCount"@),
        table_engine: row.text("tableEngine"@),
    }
}

fn build_table(row: &Value, key: String, catalog: &MySqlCatalog) -> (r: TableInfo)
    ensures
        r.deep_view() == table_of(row@, key@, catalog.deep_view()),
{
    let pure = get_text(row, "pureName");
    let unique_names = collect_texts(&catalog.unique_names, "constraintName");
    let (indexes, uniques) = build_indexes_and_uniques(
        pure.as_str(),
        &catalog.indexes,
        &unique_names,
    );
    TableInfo {
        object: db_table_object(row, key, get_str(row, "modifyDate")),
        columns: build_columns(pure.as_str(), &catalog.columns),
        primary_key: build_primary_key(pure.as_str(), &catalog.primary_keys),
        sorting_key: None,
        foreign_keys: Some(build_foreign_keys(pure.as_str(), &catalog.foreign_keys)),
        dependencies: None,
        indexes: Some(indexes),
        uniques: Some(uniques),
        checks: None,
        table_row_count: get_i64(row, "tableRowCount"),
        table_engine: get_str(row, "tableEngine"),
    }
}

/// The definition of a view: that of the last text row with its name, empty
/// where there is none.
pub open spec fn view_text(rows: Seq<Json>, pure: Seq<char>) -> Seq<char>
    decreases rows.len(),
{
    if rows.len() == 0 {
        Seq::empty()
    } else if rows.last().text("pureName"@) == Some(pure) {
        or_empty(rows.last().text("viewDefinition"@))
    } else {
        view_text(rows.drop_last(), pure)
    }
}

fn find_view_text(rows: &Vec<Value>, pure: &str) -> (r: String)
    ensures
        r@ == view_text(rows.deep_view(), pure@),
{
    let ghost all = rows.deep_view();
    let mut found = String::new();
    let mut i: usize = 0;
    while i < rows.len()
        invariant
            i <= rows@.len(),
            all == rows.deep_view(),
            found@ == view_text(all.take(i as int), pure@),
        decreases rows@.len() - i,
    {
        proof {
            crate::rows::lemma_take_next(all, i as int);
        }
        if text_is(&rows[i], "pureName", pure) {
            found = get_text(&rows[i], "viewDefinition");
        }
        i = i + 1;
    }
    proof {
        crate::rows::lemma_take_all(all);
    }
    found
}

/// The view that a row describes.
pub open spec fn view_of(row: Json, c: MySqlCatalogView) -> ViewInfoView {
    let pure = pure_in(row);
    ViewInfoView {
        object: SqlObjectInfoView {
            object: object_in(row, id_of("views"@, pure), row.text("modifyDate"@)),
            create_sql: Some("CREATE VIEW `"@ + pure + "` AS "@ + view_text(c.view_texts, pure)),
            requires_format: Some(true),
        },
        columns: columns_of(c.columns, pure),
    }
}

fn analyse_view_row(row: &Value, catalog: &MySqlCatalog) -> (r: ViewInfo)
    ensures
        r.deep_view() == view_of(row@, catalog.deep_view()),
{
    let pure = get_text(row, "pureName");
    let definition = find_view_text(&catalog.view_texts, pure.as_str());
    let create_sql = concat4("CREATE VIEW `", pure.as_str(), "` AS ", definition.as_str());
    let key = object_id("views", pure.as_str());
    ViewInfo {
        object: SqlObjectInfo {
            object: db_table_object(row, key, get_str(row, "modifyDate")),
            create_sql: Some(create_sql),
            requires_format: Some(true),
        },
        columns: build_columns(pure.as_str(), &catalog.columns),
    }
}

/// Whether a routine row describes a procedure.
pub open spec fn is_procedure(row: Json) -> bool {
    row.text("objectType"@) == Some("PROCEDURE"@)
}

/// The parameters that a function is called with: without the pseudo-parameter
/// that stands for its result.
pub open spec fn call_parameters(params: Seq<ParameterInfoView>) -> Seq<ParameterInfoView> {
    crate::rows::select(
        params,
        |p: ParameterInfoView| p.parameter_mode != Some(ParameterMode::Return),
    )
}

fn without_result(params: &Vec<ParameterInfo>) -> (r: Vec<ParameterInfo>)
    ensures
        r.deep_view() == call_parameters(params.deep_view()),
{
    let ghost all = params.deep_view();
    let mut out: Vec<ParameterInfo> = new_list();
    let mut i: usize = 0;
    while i < params.len()
        invariant
            i <= params@.len(),
            all == params.deep_view(),
            out.deep_view() == call_parameters(all.take(i as int)),
        decreases params@.len() - i,
    {
        proof {
            crate::rows::lemma_take_next(all, i as int);
        }
        let p = &params[i];
        let is_result = match p.parameter_mode {
            Some(ParameterMode::Return) => true,
            _ => false,
        };
        if !is_result {
            push_item(
                &mut out,
                ParameterInfo {
                    parameter_name: p.parameter_name.clone(),
                    data_type: p.data_type.clone(),
                    parameter_mode: p.parameter_mode,
                    position: p.position,
                },
            );
        }
        i = i + 1;
    }
    proof {
        crate::rows::lemma_take_all(all);
    }
    out
}

/// The DDL of the routine that a row describes.
pub open spec fn routine_sql(row: Json, params: Seq<ParameterInfoView>) -> Seq<char> {
    let definition = or_empty(row.text("routineDefinition"@));
    if is_procedure(row) {
        "DELIMITER //\n\nCREATE PROCEDURE `"@ + pure_in(row) + "`("@
            + crate::drivers::common::parameters_ddl(params) + ")\n"@ + definition
            + "\n\nDELIMITER ;\n"@
    } else {
        "CREATE FUNCTION `"@ + pure_in(row) + "`("@ + crate::drivers::common::parameters_ddl(
            call_parameters(params),
        ) + ")\nRETURNS "@ + or_empty(row.text("returnDataType"@)) + " "@ + (if row.text(
            "isDeterministic"@,
        ) == Some("YES"@) {
            "DETERMINISTIC"@
        } else {
            "NOT DETERMINISTIC"@
        }) + "\n"@ + definition
    }
}

/// The routine that a row describes.
pub open spec fn callable_of(row: Json, param_rows: Seq<Json>) -> CallableObjectInfoView {
    let pure = pure_in(row);
    let params = parameters_of(param_rows, pure);
    let kind = if is_procedure(row) {
        "procedures"@
    } else {
        "functions"@
    };
    CallableObjectInfoView {
        object: crate::drivers::common::sql_object_with(
            object_in(row, id_of(kind, pure), row.text("modifyDate"@)),
            Some(routine_sql(row, params)),
        ),
        parameters: if params.len() == 0 {
            None
        } else {
            Some(params)
        },
    }
}

fn analyse_routine_row(row: &Value, param_rows: &Vec<Value>) -> (r: CallableObjectInfo)
    ensures
        r.deep_view() == callable_of(row@, param_rows.deep_view()),
{
    let pure = get_text(row, "pureName");
    let params = build_parameters(pure.as_str(), param_rows);
    let procedure = text_is(row, "objectType", "PROCEDURE");
    let definition = get_text(row, "routineDefinition");
    let kind = if procedure {
        "procedures"
    } else {
        "functions"
    };
    let create_sql = if procedure {
        let mut sql = concat5(
            "DELIMITER //\n\nCREATE PROCEDURE `",
            pure.as_str(),
            "`(",
            parameters_sql_string(&params).as_str(),
            ")\n",
        );
        sql.push_str(definition.as_str());
        sql.push_str("\n\nDELIMITER ;\n");
        sql
    } else {
        let called = without_result(&params);
        let mut sql = concat5(
            "CREATE FUNCTION `",
            pure.as_str(),
            "`(",
            parameters_sql_string(&called).as_str(),
            ")\nRETURNS ",
        );
        sql.push_str(get_text(row, "returnDataType").as_str());
        sql.push_str(" ");
        sql.push_str(
            if text_is(row, "isDeterministic", "YES") {
                "DETERMINISTIC"
            } else {
                "NOT DETERMINISTIC"
            },
        );
        sql.push_str("\n");
        sql.push_str(definition.as_str());
        sql
    };
    let key = object_id(kind, pure.as_str());
    CallableObjectInfo {
        object: sql_object(
            db_table_object(row, key, get_str(row, "modifyDate")),
            Some(create_sql),
        ),
        parameters: if params.len() == 0 {
            None
        } else {
            Some(params)
        },
    }
}

/// The procedures among routine rows.
pub open spec fn procedures_of(rows: Seq<Json>, param_rows: Seq<Json>) -> Seq<ProcedureInfoView> {
    crate::rows::pick(
        rows,
        |r: Json|
            if is_procedure(r) {
                Some(ProcedureInfoView { callable: callable_of(r, param_rows) })
            } else {
                None
            },
    )
}

/// The functions among routine rows.
pub open spec fn functions_of(rows: Seq<Json>, param_rows: Seq<Json>) -> Seq<FunctionInfoView> {
    crate::rows::pick(
        rows,
        |r: Json|
            if is_procedure(r) {
                None
            } else {
                Some(
                    FunctionInfoView {
                        callable: callable_of(r, param_rows),
                        return_type: r.text("returnDataType"@),
                    },
                )
            },
    )
}

/// Each routine row becomes a procedure or a function, and never both.
pub proof fn law_procedure_or_function(rows: Seq<Json>, param_rows: Seq<Json>)
    ensures
        procedures_of(rows, param_rows).len() + functions_of(rows, param_rows).len() == rows.len(),
    decreases rows.len(),
{
    if rows.len() > 0 {
        law_procedure_or_function(rows.drop_last(), param_rows);
    }
}

fn analyse_routines(rows: &Vec<Value>, param_rows: &Vec<Value>) -> (r: (
    Vec<ProcedureInfo>,
    Vec<FunctionInfo>,
))
    ensures
        r.0.deep_view() == procedures_of(rows.deep_view(), param_rows.deep_view()),
        r.1.deep_view() == functions_of(rows.deep_view(), param_rows.deep_view()),
{
    let ghost all = rows.deep_view();
    let ghost params = param_rows.deep_view();
    let mut procedures: Vec<ProcedureInfo> = new_list();
    let mut functions: Vec<FunctionInfo> = new_list();
    let mut i: usize = 0;
    while i < rows.len()
        invariant
            i <= rows@.len(),
            all == rows.deep_view(),
            params == param_rows.deep_view(),
            procedures.deep_view() == procedures_of(all.take(i as int), params),
            functions.deep_view() == functions_of(all.take(i as int), params),
        decreases rows@.len() - i,
    {
        proof {
            crate::rows::lemma_take_next(all, i as int);
        }
        let row = &rows[i];
        let callable = analyse_routine_row(row, param_rows);
        if text_is(row, "objectType", "PROCEDURE") {
            push_item(&mut procedures, ProcedureInfo { callable });
        } else {
            push_item(
                &mut functions,
                FunctionInfo { callable, return_type: get_str(row, "returnDataType") },
            );
        }
        i = i + 1;
    }
    proof {
        crate::rows::lemma_take_all(all);
    }
    (procedures, functions)
}

/// The event that a text in capital letters names.
pub open spec fn event_in(up: Seq<char>) -> Option<TriggerEventType> {
    if up == "INSERT"@ {
        Some(TriggerEventType::Insert)
    } else if up == "UPDATE"@ {
        Some(TriggerEventType::Update)
    } else if up == "DELETE"@ {
        Some(TriggerEventType::Delete)
    } else if up == "TRUNCATE"@ {
        Some(TriggerEventType::Truncate)
    } else {
        None
    }
}

fn trigger_event(upper: &str) -> (r: Option<TriggerEventType>)
    ensures
        r == event_in(upper@),
{
    if same(upper, "INSERT") {
        Some(TriggerEventType::Insert)
    } else if same(upper, "UPDATE") {
        Some(TriggerEventType::Update)
    } else if same(upper, "DELETE") {
        Some(TriggerEventType::Delete)
    } else if same(upper, "TRUNCATE") {
        Some(TriggerEventType::Truncate)
    } else {
        None
    }
}

/// The trigger that a row describes, given its timing and its event in capital
/// letters.
pub open spec fn trigger_with(
    row: Json,
    upper_timing: Seq<char>,
    upper_event: Seq<char>,
) -> TriggerInfoView {
    let name = or_empty(row.text("triggerName"@));
    let table = or_empty(row.text("tableName"@));
    let timing = or_empty(row.text("triggerTiming"@));
    let event = or_empty(row.text("eventType"@));
    let id = Some("triggers:"@ + name);
    TriggerInfoView {
        object: crate::drivers::common::sql_object_with(
            DatabaseObjectInfoView {
                pure_name: name,
                schema_name: row.text("schemaName"@),
                pairing_id: None,
                object_id: id,
                create_date: None,
                modify_date: row.text("modifyDate"@),
                hash_code: id,
                object_type_field: None,
                object_comment: None,
            },
            Some(
                "CREATE TRIGGER "@ + name + " "@ + timing + " "@ + event + " ON "@ + table
                    + " FOR EACH ROW "@ + or_empty(row.text("definition"@)),
            ),
        ),
        function_name: None,
        table_name: Some(table),
        trigger_timing: Some(crate::drivers::common::timing_in(upper_timing)),
        event_type: event_in(upper_event),
    }
}

/// The trigger that a row describes.
pub open spec fn trigger_of(row: Json) -> TriggerInfoView {
    trigger_with(
        row,
        crate::encoding::uppercase(or_empty(row.text("triggerTiming"@))),
        crate::encoding::uppercase(or_empty(row.text("eventType"@))),
    )
}

/// The trigger that a row describes, given its timing and its event in capital
/// letters.
pub fn trigger_info_with(row: &Value, upper_timing: &str, upper_event: &str) -> (r: TriggerInfo)
    ensures
        r.deep_view() == trigger_with(row@, upper_timing@, upper_event@),
{
    let name = get_text(row, "triggerName");
    let table = get_text(row, "tableName");
    let timing = get_text(row, "triggerTiming");
    let event = get_text(row, "eventType");
    let mut create_sql = concat5(
        "CREATE TRIGGER ",
        name.as_str(),
        " ",
        timing.as_str(),
        " ",
    );
    create_sql.push_str(event.as_str());
    create_sql.push_str(" ON ");
    create_sql.push_str(table.as_str());
    create_sql.push_str(" FOR EACH ROW ");
    create_sql.push_str(get_text(row, "definition").as_str());
    let id = concat2("triggers:", name.as_str());
    let object = DatabaseObjectInfo {
        pure_name: name,
        schema_name: get_str(row, "schemaName"),
        pairing_id: None,
        object_id: Some(id.clone()),
        create_date: None,
        modify_date: get_str(row, "modifyDate"),
        hash_code: Some(id),
        object_type_field: None,
        object_comment: None,
    };
    TriggerInfo {
        object: sql_object(object, Some(create_sql)),
        function_name: None,
        table_name: Some(table),
        trigger_timing: Some(trigger_timing(upper_timing)),
        event_type: trigger_event(upper_event),
    }
}

fn analyse_trigger_row(row: &Value) -> (r: TriggerInfo)
    ensures
        r.deep_view() == trigger_of(row@),
{
    trigger_info_with(
        row,
        get_text(row, "triggerTiming").as_str().to_uppercase().as_str(),
        get_text(row, "eventType").as_str().to_uppercase().as_str(),
    )
}

/// The structure of the database that the catalog describes.
pub open spec fn database_of(c: MySqlCatalogView) -> DatabaseInfoView {
    DatabaseInfoView {
        tables: Seq::new(
            c.tables.len(),
            |i: int| table_of(c.tables[i], id_of("tables"@, pure_in(c.tables[i])), c),
        ),
        views: Seq::new(c.views.len(), |i: int| view_of(c.views[i], c)),
        procedures: procedures_of(c.routines, c.parameters),
        functions: functions_of(c.routines, c.parameters),
        triggers: Seq::new(c.triggers.len(), |i: int| trigger_of(c.triggers[i])),
        ..crate::dbinfo::empty_database()
    }
}

/// The full structure of a database, from the rows of the analysis queries. The
/// rows of the scheduler events are not read.
pub fn analyse_mysql_full(catalog: &MySqlCatalog) -> (r: DatabaseInfo)
    ensures
        r.deep_view() == database_of(catalog.deep_view()),
{
    let ghost c = catalog.deep_view();
    let table_row = |row: &Value| -> (t: TableInfo)
        ensures
            t.deep_view() == table_of(
                row@,
                id_of("tables"@, pure_in(row@)),
                catalog.deep_view(),
            ),
    {
        let key = object_id("tables", get_text(row, "pureName").as_str());
        build_table(row, key, catalog)
    };
    let tables = map_list(&catalog.tables, table_row);
    let view_row = |row: &Value| -> (v: ViewInfo)
        ensures
            v.deep_view() == view_of(row@, catalog.deep_view()),
    {
        analyse_view_row(row, catalog)
    };
    let views = map_list(&catalog.views, view_row);
    let (procedures, functions) = analyse_routines(&catalog.routines, &catalog.parameters);
    let trigger_row = |row: &Value| -> (t: TriggerInfo)
        ensures
            t.deep_view() == trigger_of(row@),
    {
        analyse_trigger_row(row)
    };
    let triggers = map_list(&catalog.triggers, trigger_row);
    proof {
        assert(tables.deep_view() =~= database_of(c).tables);
        assert(views.deep_view() =~= database_of(c).views);
        assert(triggers.deep_view() =~= database_of(c).triggers);
    }
    let mut info = DatabaseInfo::default();
    info.tables = tables;
    info.views = views;
    info.procedures = procedures;
    info.functions = functions;
    info.triggers = triggers;
    info
}

/// The structure of one table, from the rows of the table queries: that of the
/// first table row. Fields of the catalog that hold other rows are not read.
pub fn analyse_mysql_table(name: &NamedObjectInfo, catalog: &MySqlCatalog) -> (r: DbgmResult<
    TableInfo,
>)
    ensures
        ({
            let key = id_of("tables"@, name.pure_name@);
            let c = catalog.deep_view();
            match r {
                Ok(t) => c.tables.len() > 0 && t.deep_view() == table_of(c.tables[0], key, c),
                Err(e) => c.tables.len() == 0 && e.deep_view() == crate::error::generic_error(
                    "Table not found: "@ + key,
                ),
            }
        }),
{
    let key = object_id("tables", name.pure_name.as_str());
    if catalog.tables.len() == 0 {
        return Err(DbgmError::new(concat2("Table not found: ", key.as_str())));
    }
    Ok(build_table(&catalog.tables[0], key, catalog))
}

// ---------------------------------------------------------------------------
// Laws
// ---------------------------------------------------------------------------

/// The client is told the server, the port, the user, the password and the database of
/// the definition; the port 3306 and the database `mysql` only where it has none.
pub proof fn law_options(def: ConnectionDefinition, c: MySqlOpts)
    requires
        def.server is Some,
        c.deep_view() == opts_of(def.deep_view(), def.server->0@),
    ensures
        c.host@ == def.server->0@,
        def.port matches Some(p) ==> p < 65536 ==> c.port == p,
        def.port is None ==> c.port == 3306,
        c.user.deep_view() == def.user.deep_view(),
        c.password.deep_view() == def.password.deep_view(),
        def.database matches Some(d) ==> c.database@ == d@,
        def.database is None ==> c.database@ == "mysql"@,
        c.read_only <==> def.is_read_only == Some(true),
{
    let v = c.deep_view();
    assert(v.host == c.host@ && v.port == c.port && v.database == c.database@);
    assert(v.user == c.user.deep_view() && v.password == c.password.deep_view());
    assert(v.read_only == c.read_only);
    assert(def.deep_view().port == def.port);
    if let Some(d) = def.database {
        assert(def.deep_view().database == Some(d@));
    }
}

proof fn lemma_clock(hour: u8, minute: u8, second: u8)
    requires
        hour < 100,
        minute < 100,
        second < 100,
    ensures
        ({
            let t = clock_form(hour, minute, second);
            &&& t.len() == 8
            &&& t[2] == ':'
            &&& t[5] == ':'
            &&& (t[0] as int - '0' as int) * 10 + (t[1] as int - '0' as int) == hour
            &&& (t[3] as int - '0' as int) * 10 + (t[4] as int - '0' as int) == minute
            &&& (t[6] as int - '0' as int) * 10 + (t[7] as int - '0' as int) == second
        }),
{
    reveal_strlit(":");
    crate::numbers::law_two_digits(hour as nat);
    crate::numbers::law_two_digits(minute as nat);
    crate::numbers::law_two_digits(second as nat);
    let h = crate::numbers::padded(hour as nat, 2);
    let m = crate::numbers::padded(minute as nat, 2);
    let s = crate::numbers::padded(second as nat, 2);
    let t = clock_form(hour, minute, second);
    assert(t =~= seq![h[0], h[1], ':', m[0], m[1], ':', s[0], s[1]]);
}

/// The day and the clock of a moment, without the fraction of a second.
spec fn date_base(year: u16, month: u8, day: u8, clock: Seq<char>) -> Seq<char> {
    crate::numbers::padded(year as nat, 4) + "-"@ + crate::numbers::padded(month as nat, 2) + "-"@
        + crate::numbers::padded(day as nat, 2) + " "@ + clock
}

#[verifier::spinoff_prover]
proof fn lemma_date_base(year: u16, month: u8, day: u8, c: Seq<char>)
    requires
        year < 10000,
        month < 100,
        day < 100,
        c.len() == 8,
    ensures
        ({
            let s = date_base(year, month, day, c);
            &&& s.len() == 19
            &&& s[4] == '-' && s[7] == '-' && s[10] == ' '
            &&& (s[0] as int - '0' as int) * 1000 + (s[1] as int - '0' as int) * 100 + (s[2] as int
                - '0' as int) * 10 + (s[3] as int - '0' as int) == year
            &&& (s[5] as int - '0' as int) * 10 + (s[6] as int - '0' as int) == month
            &&& (s[8] as int - '0' as int) * 10 + (s[9] as int - '0' as int) == day
            &&& s.skip(11) == c
        }),
{
    reveal_strlit("-");
    reveal_strlit(" ");
    crate::numbers::law_four_digits(year as nat);
    crate::numbers::law_two_digits(month as nat);
    crate::numbers::law_two_digits(day as nat);
    let y = crate::numbers::padded(year as nat, 4);
    let m = crate::numbers::padded(month as nat, 2);
    let d = crate::numbers::padded(day as nat, 2);
    let front = seq![y[0], y[1], y[2], y[3], '-', m[0], m[1], '-', d[0], d[1], ' '];
    assert(y + "-"@ + m + "-"@ + d + " "@ =~= front);
    assert((front + c).skip(11) =~= c);
}

/// A moment is written as year, month, day, hour, minute and second: each number is read
/// back from its place.
#[verifier::spinoff_prover]
pub proof fn law_date_cell(
    t: Seq<char>,
    year: u16,
    month: u8,
    day: u8,
    hour: u8,
    minute: u8,
    second: u8,
    micros: u32,
)
    requires
        t == "MYSQL_TYPE_DATE"@ || t == "MYSQL_TYPE_DATETIME"@ || t == "MYSQL_TYPE_TIMESTAMP"@,
        year < 10000,
        month < 100,
        day < 100,
        hour < 100,
        minute < 100,
        second < 100,
        micros < 1000000,
    ensures
        cell_json(MySqlCell::Date(year, month, day, hour, minute, second, micros), t) matches
            Json::Str(s) && {
            &&& s.len() == if micros > 0 {
                26int
            } else {
                19
            }
            &&& s[4] == '-' && s[7] == '-' && s[10] == ' ' && s[13] == ':' && s[16] == ':'
            &&& (s[0] as int - '0' as int) * 1000 + (s[1] as int - '0' as int) * 100 + (s[2] as int
                - '0' as int) * 10 + (s[3] as int - '0' as int) == year
            &&& (s[5] as int - '0' as int) * 10 + (s[6] as int - '0' as int) == month
            &&& (s[8] as int - '0' as int) * 10 + (s[9] as int - '0' as int) == day
            &&& (s[11] as int - '0' as int) * 10 + (s[12] as int - '0' as int) == hour
            &&& (s[14] as int - '0' as int) * 10 + (s[15] as int - '0' as int) == minute
            &&& (s[17] as int - '0' as int) * 10 + (s[18] as int - '0' as int) == second
            &&& micros > 0 ==> s[19] == '.' && crate::numbers::digits_value(s.skip(20), 0, 6)
                == micros
        },
{
    lemma_other_types(t);
    let c = clock_form(hour, minute, second);
    lemma_clock(hour, minute, second);
    lemma_date_base(year, month, day, c);
    let base = date_base(year, month, day, c);
    assert forall|i: int| 11 <= i < 19 implies #[trigger] base[i] == c[i - 11] by {
        assert(base.skip(11)[i - 11] == base[i]);
    }
    let s = date_form(year, month, day, hour, minute, second, micros);
    if micros > 0 {
        reveal_strlit(".");
        let u = crate::numbers::padded(micros as nat, 6);
        crate::numbers::law_padded(micros as nat, 6);
        lemma_six_digits(micros as nat);
        assert(s == base + "."@ + u);
        assert(s.skip(20) =~= u);
        assert(s.take(19) =~= base);
        assert forall|i: int| 0 <= i < 19 implies #[trigger] s[i] == base[i] by {
            assert(s.take(19)[i] == s[i]);
        }
    } else {
        assert(s == base);
    }
}

proof fn lemma_six_digits(n: nat)
    requires
        n < 1000000,
    ensures
        crate::numbers::dec(n).len() <= 6,
{
    reveal_with_fuel(crate::numbers::dec, 7);
}

proof fn lemma_other_types(t: Seq<char>)
    requires
        t == "MYSQL_TYPE_DATE"@ || t == "MYSQL_TYPE_DATETIME"@ || t == "MYSQL_TYPE_TIMESTAMP"@ || t
            == "MYSQL_TYPE_TIME"@,
    ensures
        !is_precise(t),
{
    reveal_strlit("MYSQL_TYPE_DATE");
    reveal_strlit("MYSQL_TYPE_DATETIME");
    reveal_strlit("MYSQL_TYPE_TIMESTAMP");
    reveal_strlit("MYSQL_TYPE_TIME");
    reveal_strlit("MYSQL_TYPE_LONGLONG");
    reveal_strlit("MYSQL_TYPE_NEWDECIMAL");
    reveal_strlit("MYSQL_TYPE_DECIMAL");
    assert(t[11] == 'D' || t[11] == 'T');
    assert("MYSQL_TYPE_LONGLONG"@[11] == 'L');
    assert("MYSQL_TYPE_NEWDECIMAL"@[11] == 'N');
    assert("MYSQL_TYPE_DECIMAL"@[11] == 'D' && "MYSQL_TYPE_DECIMAL"@[12] == 'E');
    assert("MYSQL_TYPE_DATE"@[12] == 'A');
    assert("MYSQL_TYPE_DATETIME"@[12] == 'A');
    assert("MYSQL_TYPE_TIME"@[11] == 'T' && "MYSQL_TYPE_TIMESTAMP"@[11] == 'T');
}

/// A time is written as its sign, its days, and its clock as hour, minute and second.
pub proof fn law_time_cell(neg: bool, days: u32, hour: u8, minute: u8, second: u8, micros: u32)
    requires
        hour < 100,
        minute < 100,
        second < 100,
    ensures
        cell_json(
            MySqlCell::Time(neg, days, hour, minute, second, micros),
            "MYSQL_TYPE_TIME"@,
        ) matches Json::Str(s) && {
            let t = s.skip(s.len() - 8);
            let front = s.take(s.len() - 9);
            &&& s.len() > 9
            &&& s[s.len() - 9] == ' '
            &&& neg <==> front[0] == '-'
            &&& crate::numbers::digits_value(
                front,
                if neg {
                    1int
                } else {
                    0
                },
                front.len() as int,
            ) == days
            &&& (t[0] as int - '0' as int) * 10 + (t[1] as int - '0' as int) == hour
            &&& t[2] == ':' && t[5] == ':'
            &&& (t[3] as int - '0' as int) * 10 + (t[4] as int - '0' as int) == minute
            &&& (t[6] as int - '0' as int) * 10 + (t[7] as int - '0' as int) == second
        },
{
    lemma_other_types("MYSQL_TYPE_TIME"@);
    lemma_clock(hour, minute, second);
    crate::numbers::law_decimal(days as nat);
    reveal_strlit("-");
    reveal_strlit("");
    reveal_strlit(" ");
    let d = crate::numbers::dec(days as nat);
    let c = clock_form(hour, minute, second);
    let sign = if neg {
        "-"@
    } else {
        ""@
    };
    let s = sign + d + " "@ + c;
    assert(s.skip(s.len() - 8) =~= c);
    assert(s.take(s.len() - 9) =~= sign + d);
    assert('0' <= d[0]);
    if neg {
        crate::numbers::law_decimal_signed(-(days as int));
        let f = sign + d;
        assert(f[0] == '-');
        assert(f.skip(1) =~= d);
        crate::numbers::lemma_digits_value_behind(f, 1, f.len() - 1);
    } else {
        assert(sign + d =~= d);
    }
}

/// Whole numbers become numbers, except in columns of the types that JavaScript's numbers
/// cannot hold, where they become texts that are read as the number.
pub proof fn law_number_cells(n: i64, u: u64, t: Seq<char>)
    ensures
        t != "MYSQL_TYPE_LONGLONG"@ && t != "MYSQL_TYPE_NEWDECIMAL"@ && t != "MYSQL_TYPE_DECIMAL"@
            ==> cell_json(MySqlCell::Int(n), t) == Json::Int(n as int) && cell_json(
            MySqlCell::UInt(u),
            t,
        ) == Json::Int(u as int) && cell_json(MySqlCell::Null, t) == Json::Null,
        t == "MYSQL_TYPE_LONGLONG"@ || t == "MYSQL_TYPE_NEWDECIMAL"@ || t == "MYSQL_TYPE_DECIMAL"@
            ==> {
            &&& cell_json(MySqlCell::Int(n), t) matches Json::Str(s)
                && crate::numbers::parsed_signed(s) == Some(n as int)
            &&& cell_json(MySqlCell::UInt(u), t) matches Json::Str(s)
                && crate::numbers::parsed_unsigned(s, u64::MAX as int) == Some(u as int)
            &&& cell_json(MySqlCell::Null, t) == Json::Null
        },
{
    crate::numbers::law_read_signed(n);
    crate::numbers::law_read_decimal(u as nat, u64::MAX as int);
}

/// Bytes become a binary value in columns of binary types, and otherwise the text that they
/// stand for, where they stand for one.
pub proof fn law_byte_cells(b: Vec<u8>, t: Seq<char>)
    ensures
        t == "MYSQL_TYPE_BLOB"@ || t == "MYSQL_TYPE_TINY_BLOB"@ || t == "MYSQL_TYPE_MEDIUM_BLOB"@
            || t == "MYSQL_TYPE_LONG_BLOB"@ || t == "MYSQL_TYPE_BIT"@ || t
            == "MYSQL_TYPE_GEOMETRY"@ ==> cell_json(MySqlCell::Bytes(b), t)
            == crate::encoding::binary_json(b@),
        t == "MYSQL_TYPE_VAR_STRING"@ || t == "MYSQL_TYPE_STRING"@ || t == "MYSQL_TYPE_JSON"@
            ==> cell_json(MySqlCell::Bytes(b), t) == crate::encoding::text_or_binary(b@),
        t == "MYSQL_TYPE_NEWDECIMAL"@ ==> cell_json(MySqlCell::Bytes(b), t) == Json::Str(
            crate::encoding::utf8_lossy(b@),
        ),
{
    reveal_strlit("MYSQL_TYPE_VAR_STRING");
    reveal_strlit("MYSQL_TYPE_STRING");
    reveal_strlit("MYSQL_TYPE_JSON");
    reveal_strlit("MYSQL_TYPE_NEWDECIMAL");
    reveal_strlit("MYSQL_TYPE_LONGLONG");
    reveal_strlit("MYSQL_TYPE_DECIMAL");
    reveal_strlit("MYSQL_TYPE_BLOB");
    reveal_strlit("MYSQL_TYPE_TINY_BLOB");
    reveal_strlit("MYSQL_TYPE_MEDIUM_BLOB");
    reveal_strlit("MYSQL_TYPE_LONG_BLOB");
    reveal_strlit("MYSQL_TYPE_BIT");
    reveal_strlit("MYSQL_TYPE_GEOMETRY");
    assert("MYSQL_TYPE_VAR_STRING"@[11] == 'V');
    assert("MYSQL_TYPE_STRING"@[11] == 'S');
    assert("MYSQL_TYPE_JSON"@[11] == 'J');
    assert("MYSQL_TYPE_NEWDECIMAL"@[11] == 'N');
    assert("MYSQL_TYPE_LONGLONG"@[11] == 'L');
    assert("MYSQL_TYPE_DECIMAL"@[11] == 'D');
    assert("MYSQL_TYPE_BLOB"@[11] == 'B');
    assert("MYSQL_TYPE_BIT"@[11] == 'B');
    assert("MYSQL_TYPE_TINY_BLOB"@[11] == 'T');
    assert("MYSQL_TYPE_MEDIUM_BLOB"@[11] == 'M');
    assert("MYSQL_TYPE_LONG_BLOB"@[11] == 'L');
    assert("MYSQL_TYPE_GEOMETRY"@[11] == 'G');
}

/// A row is read by the names of its columns; a cell that is not there is null.
pub proof fn law_row(columns: Seq<MySqlColumnView>, cells: Seq<Option<MySqlCell>>, i: int)
    requires
        columns.len() == cells.len(),
        0 <= i < columns.len(),
        forall|j: int| i < j < columns.len() ==> (#[trigger] columns[j]).name != columns[i].name,
    ensures
        row_json(columns, cells).get(columns[i].name) == match cells[i] {
            Some(cell) => Some(cell_json(cell, columns[i].column_type)),
            None => Some(Json::Null),
        },
{
    let names = Seq::new(columns.len(), |i: int| columns[i].name);
    let values = Seq::new(
        columns.len(),
        |i: int| optional_cell_json(cells[i], columns[i].column_type),
    );
    let other = crate::value::lemma_absent_name(names);
    crate::value::law_row_object(names, values, i, other);
}

/// A column says what its row says: it takes no null exactly where the row says `NO`, it
/// counts up where the extra text says so and has no default value then, and its signs
/// are words of its type.
pub proof fn law_column(
    row: Json,
    name: Seq<char>,
    quote: bool,
    low_extra: Seq<char>,
    low_type: Seq<char>,
)
    ensures
        ({
            let c = column_with(row, name, quote, low_extra, low_type);
            &&& c.column_name == name
            &&& row.text("isNullable"@) == Some("NO"@) ==> c.not_null == Some(true)
            &&& row.text("isNullable"@) == Some("no"@) ==> c.not_null == Some(true)
            &&& row.text("isNullable"@) == Some("YES"@) ==> c.not_null == Some(false)
            &&& row.text("isNullable"@) is None ==> c.not_null == Some(false)
            &&& c.auto_increment == Some(crate::text::holds(low_extra, "auto_increment"@))
            &&& c.auto_increment == Some(true) ==> c.default_value is None
            &&& c.auto_increment == Some(false) && !quote ==> c.default_value == row.text(
                "defaultValue"@,
            )
            &&& row.text("defaultValue"@) is None ==> c.default_value is None
            &&& c.column_comment == row.text("columnComment"@)
            &&& row.text("columnType"@) matches Some(t) ==> {
                &&& c.is_unsigned == Some(crate::text::words(t).contains("unsigned"@))
                &&& c.is_zerofill == Some(crate::text::words(t).contains("zerofill"@))
            }
        }),
{
    reveal_strlit("NO");
    reveal_strlit("no");
    reveal_strlit("YES");
    assert("YES"@.len() == 3 && "NO"@.len() == 2 && "no"@.len() == 2);
}

/// The type of a column: enums and sets as the row gives them; decimals with precision and
/// scale, in this order; texts with their length; others bare.
pub proof fn law_column_type(row: Json, low_type: Seq<char>, p: i64, s: i64, n: i64)
    requires
        row.int64("numericPrecision"@) == Some(p),
        row.int64("numericScale"@) == Some(s),
        row.int64("charMaxLength"@) == Some(n),
    ensures
        crate::text::has_prefix(low_type, "enum("@) || crate::text::has_prefix(low_type, "set("@)
            ==> (row.text("columnType"@) matches Some(t) ==> full_type_with(row, low_type) == t),
        !crate::text::has_prefix(low_type, "enum("@) && !crate::text::has_prefix(low_type, "set("@)
            ==> {
            &&& row.text("dataType"@) == Some("decimal"@) ==> full_type_with(row, low_type)
                == "decimal("@ + crate::numbers::dec_int(p as int) + ","@
                + crate::numbers::dec_int(s as int) + ")"@
            &&& row.text("dataType"@) == Some("varchar"@) ==> full_type_with(row, low_type)
                == "varchar("@ + crate::numbers::dec_int(n as int) + ")"@
            &&& row.text("dataType"@) == Some("int"@) ==> full_type_with(row, low_type) == "int"@
        },
{
    reveal_strlit("decimal");
    reveal_strlit("numeric");
    reveal_strlit("varchar");
    reveal_strlit("char");
    reveal_strlit("text");
    reveal_strlit("tinytext");
    reveal_strlit("mediumtext");
    reveal_strlit("longtext");
    reveal_strlit("binary");
    reveal_strlit("varbinary");
    reveal_strlit("int");
    reveal_strlit("decimal(");
    reveal_strlit("varchar(");
    reveal_strlit("(");
    assert("int"@.len() == 3 && "varchar"@.len() == 7 && "varchar"@[0] == 'v');
    assert("decimal"@[0] == 'd' && "numeric"@[0] == 'n');
    assert("decimal"@ + "("@ =~= "decimal("@);
    assert("varchar"@ + "("@ =~= "varchar("@);
}

/// A default value that is a number, the current time or null is shown bare, as is an empty
/// one; every other is shown between single quotes with its own quotes escaped.
pub proof fn law_default_value(v: Seq<char>)
    ensures
        crate::numbers::is_float_literal(v) ==> quoted_default(v) == v,
        crate::text::has_prefix(v, "CURRENT_"@) ==> quoted_default(v) == v,
        v.len() == 0 ==> quoted_default(v) == v,
        crate::text::ascii_lower(v) == "null"@ ==> quoted_default(v) == v,
        v.len() > 0 && !crate::numbers::is_float_literal(v) && !crate::text::has_prefix(
            v,
            "CURRENT_"@,
        ) && crate::text::ascii_lower(v) != "null"@ ==> {
            &&& quoted_default(v)[0] == '\''
            &&& quoted_default(v).last() == '\''
            &&& !v.contains('\'') ==> quoted_default(v) == seq!['\''] + v + seq!['\'']
        },
{
    reveal_strlit("'");
    assert("'"@ =~= seq!['\'']);
    if !v.contains('\'') {
        if crate::text::holds(v, "'"@) {
            let i = choose|i: int| crate::text::occurs_at(v, "'"@, i);
            assert(v.subrange(i, i + 1)[0] == '\'');
            assert(v.contains(v[i]));
        }
        crate::text::law_replace_absent(v, "'"@, "\\'"@);
    }
}

/// The columns of an object are those of its rows, in their order, under their names.
pub proof fn law_columns(rows: Seq<Json>, r: Json, pure: Seq<char>, name: Seq<char>)
    requires
        r.text("columnName"@) == Some(name),
    ensures
        columns_of(Seq::empty(), pure).len() == 0,
        r.text("pureName"@) == Some(pure) ==> columns_of(rows.push(r), pure) == columns_of(
            rows,
            pure,
        ).push(column_of(r, name, true)),
        r.text("pureName"@) != Some(pure) ==> columns_of(rows.push(r), pure) == columns_of(
            rows,
            pure,
        ),
{
    crate::rows::law_where_text(rows, r, "pureName"@, pure);
    let after = columns_of(rows.push(r), pure);
    if r.text("pureName"@) == Some(pure) {
        assert(after =~= columns_of(rows, pure).push(column_of(r, name, true)));
    }
}

/// The primary key of a table is made of the rows that name the table.
pub proof fn law_primary_key(rows: Seq<Json>, r: Json, pure: Seq<char>, name: Seq<char>)
    requires
        r.text("columnName"@) == Some(name),
    ensures
        primary_key(Seq::empty(), pure) is None,
        r.text("pureName"@) != Some(pure) ==> primary_key(rows.push(r), pure) == primary_key(
            rows,
            pure,
        ),
        r.text("pureName"@) == Some(pure) ==> (primary_key(rows.push(r), pure) matches Some(after)
            && {
            let c = after.columns_constraint;
            &&& c.columns.last().column_name == name
            &&& c.constraint.constraint_type == ConstraintType::PrimaryKey
            &&& match primary_key(rows, pure) {
                Some(before) => c.columns.drop_last() == before.columns_constraint.columns
                    && c.constraint == before.columns_constraint.constraint,
                None => c.columns.len() == 1 && c.constraint.constraint_name == r.text(
                    "constraintName"@,
                ),
            }
        }),
{
    crate::rows::law_where_text(rows, r, "pureName"@, pure);
    if r.text("pureName"@) == Some(pure) {
        let own = rows_of(rows, pure);
        let after = primary_key(rows.push(r), pure)->0.columns_constraint;
        assert(own.push(r).last() == r);
        if own.len() > 0 {
            assert(own.push(r)[0] == own[0]);
            let before = primary_key(rows, pure)->0.columns_constraint;
            assert(after.columns.drop_last() =~= before.columns);
        }
    }
}

/// A foreign key refers to the table and the column of its row, with its actions.
pub proof fn law_foreign_key(r: Json, pure: Seq<char>, name: Seq<char>, table: Seq<char>)
    requires
        r.text("pureName"@) == Some(pure),
        r.text("constraintName"@) == Some(name),
        r.text("columnName"@) is Some,
        r.text("refTableName"@) == Some(table),
    ensures
        foreign_keys(seq![r], pure).len() == 1,
        ({
            let k = foreign_keys(seq![r], pure)[0];
            &&& k.columns_constraint.constraint.constraint_name == Some(name)
            &&& k.columns_constraint.columns.len() == 1
            &&& Some(k.columns_constraint.columns[0].column_name) == r.text("columnName"@)
            &&& k.columns_constraint.columns[0].ref_column_name == r.text("refColumnName"@)
            &&& k.ref_table_name == table
            &&& k.update_action == r.text("updateAction"@)
            &&& k.delete_action == r.text("deleteAction"@)
        }),
{
    let none = Seq::<Json>::empty();
    crate::rows::law_where_text(none, r, "pureName"@, pure);
    assert(none.push(r) =~= seq![r]);
    let own = rows_of(none, pure);
    assert(own.len() == 0);
    assert(foreign_keys(none, pure) =~= Seq::empty()) by {
        assert(crate::rows::keys_of(own, "constraintName"@) =~= Seq::empty());
    }
    crate::drivers::common::law_foreign_key_begun(own, r, fk_fields());
    let after = foreign_keys(seq![r], pure);
    assert(after.last() == after[0]);
    let g = crate::rows::group_of(own.push(r), "constraintName"@, name);
    crate::rows::law_group_push(own, r, "constraintName"@, name);
    assert(g.last() == r);
    assert(crate::rows::group_of(own, "constraintName"@, name) =~= Seq::empty());
    assert(g =~= seq![r]);
}

/// An index row gives an index with its column, unless its name is that of a unique
/// constraint, where it gives that constraint; it is unique where the row says that it is
/// not non-unique.
pub proof fn law_index(rows: Seq<Json>, r: Json, unique_names: Seq<Seq<char>>, name: Seq<char>)
    requires
        r.text("constraintName"@) == Some(name),
        r.text("columnName"@) is Some,
    ensures
        unique_names.contains(name) ==> indexes_of(rows.push(r), unique_names) == indexes_of(
            rows,
            unique_names,
        ) && uniques_of(rows.push(r), unique_names).len() == uniques_of(rows, unique_names).len()
            + 1 && {
            let u = uniques_of(rows.push(r), unique_names).last().columns_constraint;
            &&& u.constraint.constraint_name == Some(name)
            &&& u.constraint.constraint_type == ConstraintType::Unique
            &&& u.columns.len() == 1
            &&& Some(u.columns[0].column_name) == r.text("columnName"@)
        },
        !unique_names.contains(name) ==> uniques_of(rows.push(r), unique_names) == uniques_of(
            rows,
            unique_names,
        ) && indexes_of(rows.push(r), unique_names).len() == indexes_of(rows, unique_names).len()
            + 1 && {
            let x = indexes_of(rows.push(r), unique_names).last();
            &&& x.columns_constraint.constraint.constraint_name == Some(name)
            &&& x.columns_constraint.constraint.constraint_type == ConstraintType::Index
            &&& x.columns_constraint.columns.len() == 1
            &&& Some(x.columns_constraint.columns[0].column_name) == r.text("columnName"@)
            &&& r.flag("isDescending"@) == Some(true)
                ==> x.columns_constraint.columns[0].is_descending == Some(true)
            &&& r.flag("isDescending"@) == Some(false)
                ==> x.columns_constraint.columns[0].is_descending == Some(false)
            &&& r.int64("nonUnique"@) == Some(0i64) ==> x.is_unique
            &&& r.int64("nonUnique"@) == Some(1i64) ==> !x.is_unique
            &&& r.text("indexType"@) is Some ==> x.index_type == r.text("indexType"@)
        },
{
    crate::rows::law_pick_push(rows, |r: Json| as_index(r, unique_names), r);
    crate::rows::law_pick_push(rows, |r: Json| as_unique(r, unique_names), r);
}

/// A table has the columns, the keys, the indexes and the figures that the catalogue holds
/// under its name.
pub proof fn law_table(row: Json, key: Seq<char>, c: MySqlCatalogView, pure: Seq<char>)
    requires
        row.text("pureName"@) == Some(pure),
    ensures
        ({
            let t = table_of(row, key, c);
            let names = crate::rows::texts_under(c.unique_names, "constraintName"@);
            let indexes = crate::rows::where_text(c.indexes, "tableName"@, pure);
            &&& t.object.pure_name == pure
            &&& t.object.object_id == Some(key)
            &&& t.object.object_comment == row.text("objectComment"@)
            &&& t.object.modify_date == row.text("modifyDate"@)
            &&& t.columns == columns_of(c.columns, pure)
            &&& t.primary_key == primary_key(c.primary_keys, pure)
            &&& t.foreign_keys == Some(foreign_keys(c.foreign_keys, pure))
            &&& t.indexes == Some(indexes_of(indexes, names))
            &&& t.uniques == Some(uniques_of(indexes, names))
            &&& t.table_row_count == row.int64("tableRowCount"@)
            &&& t.table_engine == row.text("tableEngine"@)
        }),
{
}

/// The structure of a database has one table for each table row, one view for each view
/// row and one trigger for each trigger row, in their order; its routines are the
/// procedures and functions among the routine rows.
pub proof fn law_database(c: MySqlCatalogView, i: int)
    ensures
        ({
            let d = database_of(c);
            &&& d.tables.len() == c.tables.len()
            &&& d.views.len() == c.views.len()
            &&& d.triggers.len() == c.triggers.len()
            &&& 0 <= i < c.tables.len() ==> (c.tables[i].text("pureName"@) matches Some(p)
                ==> d.tables[i] == table_of(c.tables[i], "tables:"@ + p, c))
            &&& 0 <= i < c.views.len() ==> d.views[i] == view_of(c.views[i], c)
            &&& 0 <= i < c.triggers.len() ==> d.triggers[i] == trigger_of(c.triggers[i])
            &&& d.procedures == procedures_of(c.routines, c.parameters)
            &&& d.functions == functions_of(c.routines, c.parameters)
        }),
{
    reveal_strlit("tables");
    reveal_strlit(":");
    reveal_strlit("tables:");
    assert("tables"@ + ":"@ =~= "tables:"@);
}

/// A view has the columns under its name and the statement that made it, from the last
/// text that the catalogue holds for it.
pub proof fn law_view(row: Json, c: MySqlCatalogView, before: Seq<Json>, r: Json, pure: Seq<char>)
    requires
        row.text("pureName"@) == Some(pure),
        c.view_texts == before.push(r),
        r.text("pureName"@) == Some(pure),
        r.text("viewDefinition"@) is Some,
    ensures
        view_of(row, c).object.object.pure_name == pure,
        view_of(row, c).columns == columns_of(c.columns, pure),
        view_of(row, c).object.create_sql == Some(
            "CREATE VIEW `"@ + pure + "` AS "@ + r.text("viewDefinition"@)->0,
        ),
{
}

/// A parameter has the name, the type, the mode and the position of its row.
pub proof fn law_parameter(r: Json)
    requires
        r.text("parameterName"@) is Some,
        r.text("dataType"@) is Some,
    ensures
        Some(parameter_of(r).parameter_name) == r.text("parameterName"@),
        Some(parameter_of(r).data_type) == r.text("dataType"@),
        parameter_of(r).position == r.int64("ordinalPosition"@),
        r.text("parameterMode"@) == Some("OUT"@) ==> parameter_of(r).parameter_mode == Some(
            ParameterMode::Out,
        ),
        r.text("parameterMode"@) == Some("INOUT"@) ==> parameter_of(r).parameter_mode == Some(
            ParameterMode::InOut,
        ),
        r.text("parameterMode"@) == Some("IN"@) ==> parameter_of(r).parameter_mode == Some(
            ParameterMode::In,
        ),
{
    crate::drivers::common::law_parameter_mode(r.text("parameterMode"@));
    reveal_strlit("IN");
    reveal_strlit("OUT");
    reveal_strlit("INOUT");
    reveal_strlit("RETURN");
    assert("IN"@.len() == 2 && "OUT"@.len() == 3 && "INOUT"@.len() == 5 && "RETURN"@.len() == 6);
}

/// The parameters of a routine are those of the rows that name it, in their order.
pub proof fn law_parameters(rows: Seq<Json>, r: Json, pure: Seq<char>)
    ensures
        r.text("pureName"@) == Some(pure) ==> parameters_of(rows.push(r), pure) == parameters_of(
            rows,
            pure,
        ).push(parameter_of(r)),
        r.text("pureName"@) != Some(pure) ==> parameters_of(rows.push(r), pure) == parameters_of(
            rows,
            pure,
        ),
{
    crate::rows::law_where_text(rows, r, "pureName"@, pure);
    if r.text("pureName"@) == Some(pure) {
        assert(parameters_of(rows.push(r), pure) =~= parameters_of(rows, pure).push(
            parameter_of(r),
        ));
    }
}

/// A routine row is a procedure where it says so and a function otherwise, with the
/// parameters that the catalogue holds under its name.
pub proof fn law_routine(rows: Seq<Json>, r: Json, params: Seq<Json>, pure: Seq<char>)
    requires
        r.text("pureName"@) == Some(pure),
    ensures
        r.text("objectType"@) == Some("PROCEDURE"@) ==> {
            let p = procedures_of(rows.push(r), params);
            &&& functions_of(rows.push(r), params) == functions_of(rows, params)
            &&& p.len() == procedures_of(rows, params).len() + 1
            &&& p.last().callable.object.object.pure_name == pure
            &&& p.last().callable.object.object.object_id == Some("procedures:"@ + pure)
            &&& parameters_of(params, pure).len() > 0 ==> p.last().callable.parameters == Some(
                parameters_of(params, pure),
            )
        },
        r.text("objectType"@) != Some("PROCEDURE"@) ==> {
            let f = functions_of(rows.push(r), params);
            &&& procedures_of(rows.push(r), params) == procedures_of(rows, params)
            &&& f.len() == functions_of(rows, params).len() + 1
            &&& f.last().callable.object.object.pure_name == pure
            &&& f.last().callable.object.object.object_id == Some("functions:"@ + pure)
            &&& f.last().return_type == r.text("returnDataType"@)
        },
{
    reveal_strlit("procedures");
    reveal_strlit("functions");
    reveal_strlit(":");
    reveal_strlit("procedures:");
    reveal_strlit("functions:");
    assert("procedures"@ + ":"@ =~= "procedures:"@);
    assert("functions"@ + ":"@ =~= "functions:"@);
    crate::rows::law_pick_push(
        rows,
        |r: Json|
            if is_procedure(r) {
                Some(ProcedureInfoView { callable: callable_of(r, params) })
            } else {
                None
            },
        r,
    );
    crate::rows::law_pick_push(
        rows,
        |r: Json|
            if is_procedure(r) {
                None
            } else {
                Some(
                    FunctionInfoView {
                        callable: callable_of(r, params),
                        return_type: r.text("returnDataType"@),
                    },
                )
            },
        r,
    );
}

/// A trigger has the name, the table, the timing and the event of its row.
pub proof fn law_trigger(row: Json, timing: Seq<char>, event: Seq<char>)
    requires
        row.text("triggerName"@) is Some,
        row.text("tableName"@) is Some,
    ensures
        Some(trigger_with(row, timing, event).object.object.pure_name) == row.text("triggerName"@),
        trigger_with(row, timing, event).table_name == row.text("tableName"@),
        timing == "AFTER"@ <==> trigger_with(row, timing, event).trigger_timing == Some(
            crate::dbinfo::TriggerTiming::After,
        ),
        timing == "INSTEAD OF"@ <==> trigger_with(row, timing, event).trigger_timing == Some(
            crate::dbinfo::TriggerTiming::InsteadOf,
        ),
        event == "INSERT"@ <==> trigger_with(row, timing, event).event_type == Some(
            TriggerEventType::Insert,
        ),
        event == "UPDATE"@ <==> trigger_with(row, timing, event).event_type == Some(
            TriggerEventType::Update,
        ),
        event == "DELETE"@ <==> trigger_with(row, timing, event).event_type == Some(
            TriggerEventType::Delete,
        ),
        event == "TRUNCATE"@ <==> trigger_with(row, timing, event).event_type == Some(
            TriggerEventType::Truncate,
        ),
{
    crate::drivers::common::law_trigger_timing(timing);
    reveal_strlit("INSERT");
    reveal_strlit("UPDATE");
    reveal_strlit("DELETE");
    reveal_strlit("TRUNCATE");
    assert("INSERT"@[0] == 'I' && "UPDATE"@[0] == 'U' && "DELETE"@[0] == 'D' && "TRUNCATE"@[0]
        == 'T');
}

/// A version from MariaDB is shown as such, up to its first hyphen; others as MySQL's.
pub proof fn law_version(front: Seq<char>, back: Seq<char>, low: Seq<char>)
    requires
        !front.contains('-'),
    ensures
        crate::text::holds(low, "mariadb"@) ==> version_text_with(front + seq!['-'] + back, low)
            == "MariaDB "@ + front,
        !crate::text::holds(low, "mariadb"@) ==> version_text_with(front + seq!['-'] + back, low)
            == "MySQL "@ + (front + seq!['-'] + back),
        version_text_with(front, low) == "MySQL "@ + front,
        version_suffix(front + seq!['-'] + back) == seq!['-'] + back,
{
    reveal_strlit("-");
    assert("-"@ =~= seq!['-']);
    let v = front + seq!['-'] + back;
    assert forall|k: int| 0 <= k < front.len() implies #[trigger] v.subrange(k, k + "-"@.len())
        != "-"@ by {
        assert(v.subrange(k, k + 1)[0] == front[k]);
        assert(front.contains(front[k]));
    }
    crate::text::law_find(front, "-"@, back);
    assert(v.take(front.len() as int) =~= front);
    assert(v.skip(front.len() as int) =~= seq!['-'] + back);
    if crate::text::holds(front, "-"@) {
        let i = choose|i: int| crate::text::occurs_at(front, "-"@, i);
        assert(front.subrange(i, i + 1)[0] == '-');
        assert(front.contains(front[i]));
    }
    crate::text::law_find_none(front, "-"@, 0);
}

/// The expression behind `on update` in an ASCII text, wherever it stands.
pub proof fn law_on_update(a: Seq<char>, b: Seq<char>, low_a: Seq<char>, low_b: Seq<char>)
    requires
        low_a.len() == a.len(),
        forall|k: int| 0 <= k < a.len() ==> (#[trigger] a[k] as int) < 128,
        forall|k: int| 0 <= k < b.len() ==> (#[trigger] b[k] as int) < 128,
        forall|k: int| 0 <= k < low_a.len() ==> (#[trigger] low_a[k] as int) < 128,
        forall|k: int|
            0 <= k < low_a.len() ==> #[trigger] (low_a + "on update"@ + low_b).subrange(k, k + 9)
                != "on update"@,
    ensures
        on_update_behind(a + "on update"@ + b, low_a + "on update"@ + low_b) == Some(
            crate::text::trim(b),
        ),
        on_update_behind(a + "ON UPDATE"@ + b, low_a + "on update"@ + low_b) == Some(
            crate::text::trim(b),
        ),
{
    reveal_strlit("on update");
    reveal_strlit("ON UPDATE");
    let low = low_a + "on update"@ + low_b;
    crate::text::law_find(low_a, "on update"@, low_b);
    assert(low.take(low_a.len() as int) =~= low_a);
    crate::text::law_ascii_bytes(low_a, 0);
    let s = a + "on update"@ + b;
    let t = a + "ON UPDATE"@ + b;
    assert forall|k: int| 0 <= k < s.len() implies (#[trigger] s[k] as int) < 128 by {
        if k < a.len() {
            assert(s[k] == a[k]);
        } else if k >= a.len() + 9 {
            assert(s[k] == b[k - a.len() - 9]);
        } else {
            assert(s[k] == "on update"@[k - a.len()]);
        }
    }
    assert forall|k: int| 0 <= k < t.len() implies (#[trigger] t[k] as int) < 128 by {
        if k < a.len() {
            assert(t[k] == a[k]);
        } else if k >= a.len() + 9 {
            assert(t[k] == b[k - a.len() - 9]);
        } else {
            assert(t[k] == "ON UPDATE"@[k - a.len()]);
        }
    }
    crate::text::law_ascii_bytes(s, a.len() as int + 9);
    crate::text::law_ascii_bytes(t, a.len() as int + 9);
    assert(s.skip(a.len() as int + 9) =~= b);
    assert(t.skip(a.len() as int + 9) =~= b);
}

/// The queries of a table ask for the table alone: those of the whole database with the
/// name of the table for a condition.
pub proof fn law_table_queries(database: Seq<char>, pure: Seq<char>)
    ensures
        table_queries(database, pure).len() == 6,
        full_queries(database).len() == 12,
        table_queries(database, pure)[0] == with_condition(SQL_TABLES@, database, Some(pure)),
        table_queries(database, pure)[1] == with_condition(SQL_COLUMNS@, database, Some(pure)),
        table_queries(database, pure)[2] == with_condition(SQL_PRIMARY_KEYS@, database, Some(pure)),
        table_queries(database, pure)[3] == with_condition(SQL_FOREIGN_KEYS@, database, Some(pure)),
        table_queries(database, pure)[4] == with_condition(SQL_INDEXES@, database, Some(pure)),
        full_queries(database)[0] == with_condition(SQL_TABLES@, database, None),
        full_queries(database)[1] == with_condition(SQL_COLUMNS@, database, None),
        full_queries(database)[2] == with_condition(SQL_PRIMARY_KEYS@, database, None),
        full_queries(database)[3] == with_condition(SQL_FOREIGN_KEYS@, database, None),
{
}

/// A query names the database and the object that are asked for.
pub proof fn law_condition(a: Seq<char>, b: Seq<char>, c: Seq<char>, db: Seq<char>, id: Seq<char>)
    requires
        !crate::text::holds(b + "=OBJECT_ID_CONDITION"@ + c, "#DATABASE#"@),
        forall|k: int|
            0 <= k < a.len() ==> #[trigger] (a + "#DATABASE#"@ + (b + "=OBJECT_ID_CONDITION"@
                + c)).subrange(k, k + "#DATABASE#"@.len()) != "#DATABASE#"@,
        forall|k: int|
            0 <= k < (a + db + b).len() ==> #[trigger] (a + db + b + "=OBJECT_ID_CONDITION"@
                + c).subrange(k, k + "=OBJECT_ID_CONDITION"@.len()) != "=OBJECT_ID_CONDITION"@,
        !crate::text::holds(c, "=OBJECT_ID_CONDITION"@),
    ensures
        with_condition(a + "#DATABASE#"@ + (b + "=OBJECT_ID_CONDITION"@ + c), db, Some(id)) == a
            + db + b + (" = '"@ + id + "'"@) + c,
        with_condition(a + "#DATABASE#"@ + (b + "=OBJECT_ID_CONDITION"@ + c), db, None) == a + db
            + b + " is not null"@ + c,
{
    reveal_strlit("#DATABASE#");
    reveal_strlit("=OBJECT_ID_CONDITION");
    let rest = b + "=OBJECT_ID_CONDITION"@ + c;
    crate::text::law_replace(a, "#DATABASE#"@, rest, db);
    crate::text::law_replace_absent(rest, "#DATABASE#"@, db);
    assert(a + db + rest =~= a + db + b + "=OBJECT_ID_CONDITION"@ + c);
    crate::text::law_replace(a + db + b, "=OBJECT_ID_CONDITION"@, c, " = '"@ + id + "'"@);
    crate::text::law_replace(a + db + b, "=OBJECT_ID_CONDITION"@, c, " is not null"@);
    crate::text::law_replace_absent(c, "=OBJECT_ID_CONDITION"@, " = '"@ + id + "'"@);
    crate::text::law_replace_absent(c, "=OBJECT_ID_CONDITION"@, " is not null"@);
}

/// A trigger is made again by the statement of its row, and is known by its name.
pub proof fn law_trigger_object(
    row: Json,
    name: Seq<char>,
    table: Seq<char>,
    timing: Seq<char>,
    event: Seq<char>,
    body: Seq<char>,
)
    requires
        row.text("triggerName"@) == Some(name),
        row.text("tableName"@) == Some(table),
        row.text("triggerTiming"@) == Some(timing),
        row.text("eventType"@) == Some(event),
        row.text("definition"@) == Some(body),
    ensures
        ({
            let t = trigger_of(row);
            &&& t.object.create_sql == Some(
                "CREATE TRIGGER "@ + name + " "@ + timing + " "@ + event + " ON "@ + table
                    + " FOR EACH ROW "@ + body,
            )
            &&& t.object.object.pure_name == name
            &&& t.object.object.schema_name == row.text("schemaName"@)
            &&& t.object.object.object_id == Some("triggers:"@ + name)
            &&& t.object.object.hash_code == Some("triggers:"@ + name)
            &&& t.object.object.modify_date == row.text("modifyDate"@)
            &&& t.function_name is None
            &&& t.table_name == Some(table)
            &&& t == trigger_with(
                row,
                crate::encoding::uppercase(timing),
                crate::encoding::uppercase(event),
            )
        }),
{
}

/// A routine is made again by a statement of its name, its parameters and its body; a function
/// also says what it gives back and whether that depends on its arguments alone.
pub proof fn law_routine_sql(
    row: Json,
    params: Seq<ParameterInfoView>,
    pure: Seq<char>,
    body: Seq<char>,
    back: Seq<char>,
)
    requires
        row.text("pureName"@) == Some(pure),
        row.text("routineDefinition"@) == Some(body),
        row.text("returnDataType"@) == Some(back),
    ensures
        row.text("objectType"@) == Some("PROCEDURE"@) ==> routine_sql(row, params)
            == "DELIMITER //\n\nCREATE PROCEDURE `"@ + pure + "`("@
            + crate::drivers::common::parameters_ddl(params) + ")\n"@ + body
            + "\n\nDELIMITER ;\n"@,
        row.text("objectType"@) == Some("FUNCTION"@) && row.text("isDeterministic"@) == Some("YES"@)
            ==> routine_sql(row, params) == "CREATE FUNCTION `"@ + pure + "`("@
            + crate::drivers::common::parameters_ddl(call_parameters(params)) + ")\nRETURNS "@
            + back + " "@ + "DETERMINISTIC"@ + "\n"@ + body,
        row.text("objectType"@) == Some("FUNCTION"@) && row.text("isDeterministic"@) != Some(
            "YES"@,
        ) ==> routine_sql(row, params) == "CREATE FUNCTION `"@ + pure + "`("@
            + crate::drivers::common::parameters_ddl(call_parameters(params)) + ")\nRETURNS "@
            + back + " "@ + "NOT DETERMINISTIC"@ + "\n"@ + body,
{
    reveal_strlit("PROCEDURE");
    reveal_strlit("FUNCTION");
    assert("PROCEDURE"@.len() == 9 && "FUNCTION"@.len() == 8);
}

/// What a catalogue row tells of an object is kept: its comment, the date of its last change, and
/// that date as its hash for a view and a routine.
pub proof fn law_object(row: Json, id: Seq<char>, hash: Option<Seq<char>>, pure: Seq<char>)
    requires
        row.text("pureName"@) == Some(pure),
    ensures
        object_in(row, id, hash).pure_name == pure,
        object_in(row, id, hash).object_id == Some(id),
        object_in(row, id, hash).modify_date == row.text("modifyDate"@),
        object_in(row, id, hash).object_comment == row.text("objectComment"@),
        object_in(row, id, hash).hash_code == hash,
        object_in(row, id, hash).schema_name is None,
{
}

/// A view and a routine carry their object and the statement that makes them.
pub proof fn law_sql_objects(row: Json, c: MySqlCatalogView, params: Seq<Json>, pure: Seq<char>)
    requires
        row.text("pureName"@) == Some(pure),
    ensures
        view_of(row, c).object.object == object_in(row, "views:"@ + pure, row.text("modifyDate"@)),
        view_of(row, c).columns == columns_of(c.columns, pure),
        callable_of(row, params).object.create_sql == Some(
            routine_sql(row, parameters_of(params, pure)),
        ),
        callable_of(row, params).object.object.hash_code == row.text("modifyDate"@),
        parameters_of(params, pure).len() == 0 ==> callable_of(row, params).parameters is None,
{
    reveal_strlit("views");
    reveal_strlit(":");
    reveal_strlit("views:");
    assert("views"@ + ":"@ =~= "views:"@);
}

/// The kind of an index that its row leaves open is `index`.
pub proof fn law_index_type(row: Json, names: Seq<Seq<char>>)
    requires
        !names.contains(index_name(row)),
    ensures
        as_index(row, names) matches Some(index) && (row.text("indexType"@) is None
            ==> index.index_type == Some("index"@)) && (row.text("indexType"@) matches Some(t)
            ==> index.index_type == Some(t)) && index.filter_definition is None,
{
}

/// A column is read by the small letters of what its row says of its type and its extras.
pub proof fn law_column_reading(row: Json, name: Seq<char>, quote: bool, t: Seq<char>, x: Seq<char>)
    requires
        row.text("columnType"@) == Some(t),
        row.text("extra"@) == Some(x),
    ensures
        column_of(row, name, quote) == column_with(
            row,
            name,
            quote,
            crate::encoding::lowercase(x),
            crate::encoding::lowercase(t),
        ),
{
}

/// The version is the one that the first row holds.
pub proof fn law_version_row(rows: Seq<Json>, v: Seq<char>)
    ensures
        rows.len() > 0 && rows[0].text("Value"@) == Some(v) ==> version_of(rows).version == v
            && version_of(rows).version_text == Some(version_text_of(v)),
        version_of(Seq::empty()).version == "unknown"@,
{
}

/// A quote in a text default is escaped by a backslash.
pub proof fn law_quoted_default(v: Seq<char>)
    requires
        v.len() > 0,
        !crate::numbers::is_float_literal(v),
        !crate::text::has_prefix(v, "CURRENT_"@),
        crate::text::ascii_lower(v) != "null"@,
    ensures
        quoted_default(v) == seq!['\''] + crate::text::replace(v, seq!['\''], seq!['\\', '\''])
            + seq!['\''],
{
    reveal_strlit("'");
    reveal_strlit("\\'");
    assert("'"@ =~= seq!['\'']);
    assert("\\'"@ =~= seq!['\\', '\'']);
}

/// A text or byte type shows its length and a number type its precision and scale.
pub proof fn law_sized_types(t: Seq<char>)
    ensures
        is_string_type(t) <==> t == "char"@ || t == "varchar"@ || t == "text"@ || t == "tinytext"@ || t == "mediumtext"@ || t == "longtext"@ || t == "binary"@ || t == "varbinary"@,
        is_numeric_type(t) <==> t == "decimal"@ || t == "numeric"@,
{
}

/// A table carries the date of its last change as its hash, a view asks for its statement to be
/// laid out, and a column shows what happens to it on an update.
pub proof fn law_further_fields(
    row: Json,
    key: Seq<char>,
    c: MySqlCatalogView,
    name: Seq<char>,
    quote: bool,
    low_extra: Seq<char>,
    low_type: Seq<char>,
)
    ensures
        table_of(row, key, c).object == object_in(row, key, row.text("modifyDate"@)),
        view_of(row, c).object.requires_format == Some(true),
        row.text("extra"@) matches Some(x) ==> column_with(
            row,
            name,
            quote,
            low_extra,
            low_type,
        ).on_update_expression == on_update_behind(x, low_extra),
        mysql_capabilities() == crate::engines::capabilities_of(
            crate::engines::BuiltinEngine::MySql,
        ),
{
}

/// A function is called with all its parameters but what it gives back, in their order.
pub proof fn law_call_parameters(params: Seq<ParameterInfoView>, p: ParameterInfoView)
    ensures
        call_parameters(Seq::empty()).len() == 0,
        p.parameter_mode == Some(ParameterMode::Return) ==> call_parameters(params.push(p))
            == call_parameters(params),
        p.parameter_mode != Some(ParameterMode::Return) ==> call_parameters(params.push(p))
            == call_parameters(params).push(p),
{
    let keep = |p: ParameterInfoView| p.parameter_mode != Some(ParameterMode::Return);
    let f = |a: ParameterInfoView|
        if keep(a) {
            Some(a)
        } else {
            None
        };
    crate::rows::law_pick_push(params, f, p);
}

/// A port beyond sixteen bits counts by what remains of it in them.
pub proof fn law_wide_port(def: ConnectionDefinitionView, p: u32, k: int, host: Seq<char>)
    requires
        def.port == Some(p),
        0 <= p - k * 65536 < 65536,
    ensures
        opts_of(def, host).port == p - k * 65536,
{
}

} // verus!
