//! Firebird engine driver.
//!
//! Text blobs are decoded to strings; binary data that is not valid UTF-8 falls
//! back to a `$binary` object.
use vstd::prelude::*;

use crate::connection::{ConnectionDefinition, ConnectionDefinitionView};
use crate::datetime::datetime_seconds_text;
use crate::dbinfo::{
    CallableObjectInfo, CallableObjectInfoView, ColumnInfo, ColumnInfoView, ColumnReference,
    ColumnReferenceView, ConstraintType, DatabaseInfo, DatabaseInfoView, DatabaseObjectInfo,
    DatabaseObjectInfoView, ForeignKeyInfo, ForeignKeyInfoView, FunctionInfo, FunctionInfoView,
    IndexInfo, IndexInfoView, NamedObjectInfo, ParameterInfo, ParameterInfoView, PrimaryKeyInfo,
    PrimaryKeyInfoView, ProcedureInfo, ProcedureInfoView, TableInfo, TableInfoView,
    TriggerEventType, TriggerInfo, TriggerInfoView, TriggerTiming, UniqueInfo, UniqueInfoView,
    ViewInfo, ViewInfoView,
};
use crate::driver::{
    stream_single_result, Capabilities, DatabaseEntry, ServerVersion, ServerVersionView,
    StreamEvent,
};
use crate::drivers::common::{
    build_refs, constraint_over, flagged, foreign_keys_from, list_of_one, object_info,
    parameter_mode, sql_object, ForeignKeyFields,
};
use crate::drivers::firebird_queries::{
    SQL_CAPABILITIES, SQL_COLUMNS, SQL_FOREIGN_KEYS, SQL_FUNCTIONS, SQL_FUNCTIONS_LEGACY,
    SQL_FUNCTION_PARAMETERS, SQL_FUNCTION_PARAMETERS_LEGACY, SQL_INDEXES, SQL_PRIMARY_KEYS,
    SQL_PROCEDURES, SQL_PROCEDURE_PARAMETERS, SQL_TABLES, SQL_TRIGGERS, SQL_UNIQUES, SQL_VIEWS,
};
use crate::encoding::{number_or_null, text_or_binary_value};
use crate::error::{DbgmError, DbgmResult};
use crate::numbers::{decimal, decimal_signed};
use crate::query::{QueryResult, QueryResultColumn, QueryResultColumnView, QueryResultView};
use crate::rows::{
    get_i64, get_str, get_text, map_list, new_list, or_empty, push_item, rows_with_text,
};
use crate::text::{concat2, concat3, concat5, contains, replaced};
use crate::value::{object_from, text_value, Json, Value};

verus! {

/// Dotted engine id for Firebird.
pub const FIREBIRD_ENGINE: &'static str = "firebird@dbgate-plugin-firebird";

/// The Firebird driver.
pub struct FirebirdDriver;

impl Default for FirebirdDriver {
    fn default() -> (r: Self)
        ensures
            r == FirebirdDriver,
    {
        FirebirdDriver::new()
    }
}

impl FirebirdDriver {
    pub fn new() -> (r: Self)
        ensures
            r == FirebirdDriver,
    {
        FirebirdDriver
    }

    pub fn engine(&self) -> (r: &'static str)
        ensures
            r@ == FIREBIRD_ENGINE@,
    {
        FIREBIRD_ENGINE
    }

    pub fn title(&self) -> (r: &'static str)
        ensures
            r@ == "Firebird"@,
    {
        "Firebird"
    }

    pub fn capabilities(&self) -> (r: Capabilities)
        ensures
            r == (Capabilities {
                read_only_sessions: true,
                supports_transactions: true,
                supports_native_backup: false,
                supports_native_restore: false,
                supports_server_summary: true,
                default_port: Some(3050),
            }),
    {
        Capabilities {
            read_only_sessions: true,
            supports_transactions: true,
            supports_native_backup: false,
            supports_native_restore: false,
            supports_server_summary: true,
            default_port: Some(3050),
        }
    }

    /// Bulk writes are not offered.
    pub fn write_table_unsupported(&self) -> (r: DbgmError)
        ensures
            r.deep_view() == crate::error::generic_error(
                "Firebird write_table streaming is not yet supported"@,
            ),
    {
        DbgmError::new("Firebird write_table streaming is not yet supported".to_owned())
    }
}

// ---------------------------------------------------------------------------
// Connecting
// ---------------------------------------------------------------------------

/// What a client is configured with.
pub struct FirebirdConfig {
    pub host: String,
    pub port: u16,
    pub user: String,
    pub password: String,
    pub database: String,
}

/// What a [`FirebirdConfig`] holds.
pub struct FirebirdConfigView {
    pub host: Seq<char>,
    pub port: u16,
    pub user: Seq<char>,
    pub password: Seq<char>,
    pub database: Seq<char>,
}

impl DeepView for FirebirdConfig {
    type V = FirebirdConfigView;

    open spec fn deep_view(&self) -> FirebirdConfigView {
        FirebirdConfigView {
            host: self.host@,
            port: self.port,
            user: self.user@,
            password: self.password@,
            database: self.database@,
        }
    }
}

/// The text, or another where there is none.
pub open spec fn text_or(t: Option<Seq<char>>, other: Seq<char>) -> Seq<char> {
    match t {
        Some(s) => s,
        None => other,
    }
}

/// The database of a definition: its file, else its database name.
pub open spec fn database_path(def: ConnectionDefinitionView) -> Option<Seq<char>> {
    match def.database_file {
        Some(f) => Some(f),
        None => def.database,
    }
}

/// The configuration for a definition with the given database. Of the port the
/// low 16 bits count.
pub open spec fn config_of(def: ConnectionDefinitionView, database: Seq<char>) -> FirebirdConfigView {
    FirebirdConfigView {
        host: text_or(def.server, "localhost"@),
        port: match def.port {
            Some(p) => (p % 65536) as u16,
            None => 3050,
        },
        user: text_or(def.user, "SYSDBA"@),
        password: text_or(def.password, "masterkey"@),
        database,
    }
}

fn or_text(t: &Option<String>, other: &str) -> (r: String)
    ensures
        r@ == text_or(t.deep_view(), other@),
{
    match t {
        Some(s) => s.clone(),
        None => other.to_owned(),
    }
}

/// Builds the client configuration from a connection definition.
pub fn build_connection(def: &ConnectionDefinition) -> (r: DbgmResult<FirebirdConfig>)
    ensures
        match r {
            Ok(c) => database_path(def.deep_view()) is Some && c.deep_view() == config_of(
                def.deep_view(),
                database_path(def.deep_view())->0,
            ),
            Err(e) => database_path(def.deep_view()) is None && e.deep_view()
                == crate::error::generic_error(
                "Firebird connection requires a database file path"@,
            ),
        },
{
    let database = match (&def.database_file, &def.database) {
        (Some(f), _) => f.clone(),
        (None, Some(d)) => d.clone(),
        (None, None) => return Err(
            DbgmError::new("Firebird connection requires a database file path".to_owned()),
        ),
    };
    Ok(
        FirebirdConfig {
            host: or_text(&def.server, "localhost"),
            port: match def.port {
                Some(p) => (p % 65536) as u16,
                None => 3050,
            },
            user: or_text(&def.user, "SYSDBA"),
            password: or_text(&def.password, "masterkey"),
            database,
        },
    )
}

// ---------------------------------------------------------------------------
// Value mapping
// ---------------------------------------------------------------------------

/// The display name of a type code, of which the low 8 bits count.
pub open spec fn type_display(raw: u32) -> Option<Seq<char>> {
    let code = raw % 256;
    if code == 7 {
        Some("SMALLINT"@)
    } else if code == 8 {
        Some("INTEGER"@)
    } else if code == 9 {
        Some("BIGINT"@)
    } else if code == 10 {
        Some("FLOAT"@)
    } else if code == 11 || code == 27 {
        Some("DOUBLE PRECISION"@)
    } else if code == 12 {
        Some("DATE"@)
    } else if code == 13 {
        Some("TIME"@)
    } else if code == 14 {
        Some("CHAR"@)
    } else if code == 16 {
        Some("NUMERIC"@)
    } else if code == 35 {
        Some("TIMESTAMP"@)
    } else if code == 37 {
        Some("VARCHAR"@)
    } else if code == 40 {
        Some("CSTRING"@)
    } else {
        None
    }
}

/// Maps a SQL type code to a display name used for query result column metadata.
pub fn raw_type_to_name(raw: u32) -> (r: Option<String>)
    ensures
        r.deep_view() == type_display(raw),
{
    let code: u32 = raw % 256;
    let name = if code == 7 {
        "SMALLINT"
    } else if code == 8 {
        "INTEGER"
    } else if code == 9 {
        "BIGINT"
    } else if code == 10 {
        "FLOAT"
    } else if code == 11 || code == 27 {
        "DOUBLE PRECISION"
    } else if code == 12 {
        "DATE"
    } else if code == 13 {
        "TIME"
    } else if code == 14 {
        "CHAR"
    } else if code == 16 {
        "NUMERIC"
    } else if code == 35 {
        "TIMESTAMP"
    } else if code == 37 {
        "VARCHAR"
    } else if code == 40 {
        "CSTRING"
    } else {
        return None;
    };
    Some(name.to_owned())
}

/// A cell as the client hands it out: a floating-point number as its bits, a
/// moment as day number, seconds since midnight and nanoseconds.
pub enum SqlType {
    Text(String),
    Integer(i64),
    Floating(u64),
    Timestamp(i32, u32, u32),
    Binary(Vec<u8>),
    Boolean(bool),
    Null,
}

/// The JSON form of a cell.
pub open spec fn cell_json(cell: SqlType) -> Json {
    match cell {
        SqlType::Text(s) => Json::Str(s@),
        SqlType::Integer(n) => Json::Int(n as int),
        SqlType::Floating(d) => crate::encoding::double_json(d),
        SqlType::Timestamp(d, s, n) => crate::value::text_or_null(
            crate::datetime::datetime_seconds_format(d, s, n),
        ),
        SqlType::Binary(b) => crate::encoding::text_or_binary(b@),
        SqlType::Boolean(b) => Json::Bool(b),
        SqlType::Null => Json::Null,
    }
}

/// Decodes a single cell to a JSON value. Binary data that is not valid UTF-8
/// falls back to a `$binary` base64 object.
pub fn cell_value(cell: &SqlType) -> (r: Value)
    ensures
        r@ == cell_json(*cell),
{
    match cell {
        SqlType::Text(s) => Value::Str(s.clone()),
        SqlType::Integer(n) => Value::Int(*n as i128),
        SqlType::Floating(d) => number_or_null(*d),
        SqlType::Timestamp(d, s, n) => text_value(datetime_seconds_text(*d, *s, *n)),
        SqlType::Binary(b) => text_or_binary_value(b),
        SqlType::Boolean(b) => Value::Bool(*b),
        SqlType::Null => Value::Null,
    }
}

/// A cell with its column.
pub struct FirebirdCell {
    pub name: String,
    pub raw_type: u32,
    pub value: SqlType,
}

/// The JSON object of a row.
pub open spec fn row_json(cells: Seq<FirebirdCell>) -> Json {
    crate::value::row_object(
        Seq::new(cells.len(), |i: int| cells[i].name@),
        Seq::new(cells.len(), |i: int| cell_json(cells[i].value)),
    )
}

/// Converts a full row to a JSON object keyed by column name.
pub fn row_to_value(cells: &Vec<FirebirdCell>) -> (r: Value)
    ensures
        r@ == row_json(cells@),
{
    let name_of = |c: &FirebirdCell| -> (n: String)
        ensures
            n@ == c.name@,
    {
        c.name.clone()
    };
    let names = map_list(cells, name_of);
    let value_of = |c: &FirebirdCell| -> (v: Value)
        ensures
            v@ == cell_json(c.value),
    {
        cell_value(&c.value)
    };
    let values = map_list(cells, value_of);
    proof {
        assert(names.deep_view() =~= Seq::new(cells@.len(), |i: int| cells@[i].name@));
        assert(values.deep_view() =~= Seq::new(cells@.len(), |i: int| cell_json(cells@[i].value)));
    }
    object_from(&names, values)
}

/// The metadata of the columns of a row.
pub open spec fn metadata_of(cells: Seq<FirebirdCell>) -> Seq<QueryResultColumnView> {
    Seq::new(
        cells.len(),
        |i: int| crate::query::plain_column(cells[i].name@, type_display(cells[i].raw_type)),
    )
}

/// The result that some rows make up: its columns are those of the first row,
/// and where there is no row there are none.
pub open spec fn result_of(rows: Seq<Vec<FirebirdCell>>) -> QueryResultView {
    QueryResultView {
        rows: Seq::new(rows.len(), |i: int| row_json(rows[i]@)),
        columns: if rows.len() == 0 {
            Seq::empty()
        } else {
            metadata_of(rows[0]@)
        },
    }
}

/// The result that some rows make up.
pub fn query_result(rows: &Vec<Vec<FirebirdCell>>) -> (r: QueryResult)
    ensures
        r.deep_view() == result_of(rows@),
{
    if rows.len() == 0 {
        let r = QueryResult::empty();
        assert(r.deep_view().rows =~= result_of(rows@).rows);
        return r;
    }
    let column = |c: &FirebirdCell| -> (q: QueryResultColumn)
        ensures
            q.deep_view() == crate::query::plain_column(c.name@, type_display(c.raw_type)),
    {
        QueryResultColumn::plain(c.name.clone(), raw_type_to_name(c.raw_type))
    };
    let columns = map_list(&rows[0], column);
    let row = |cells: &Vec<FirebirdCell>| -> (v: Value)
        ensures
            v@ == row_json(cells@),
    {
        row_to_value(cells)
    };
    let values = map_list(rows, row);
    proof {
        assert(columns.deep_view() =~= metadata_of(rows@[0]@));
        assert(values.deep_view() =~= result_of(rows@).rows);
    }
    QueryResult { rows: values, columns }
}

/// The events of a streamed query.
pub fn stream_events(columns: Vec<QueryResultColumn>, rows: Vec<Value>) -> (r: Vec<StreamEvent>)
    ensures
        r.deep_view() == crate::driver::single_result_events(
            columns.deep_view(),
            rows.deep_view(),
        ),
{
    stream_single_result(columns, rows)
}

// ---------------------------------------------------------------------------
// Server metadata
// ---------------------------------------------------------------------------

/// The version that the rows of the version query report.
pub open spec fn version_of(rows: Seq<Json>) -> ServerVersionView {
    let version = if rows.len() > 0 && rows[0].text("VERSION"@) is Some {
        rows[0].text("VERSION"@)->0
    } else {
        "unknown"@
    };
    ServerVersionView { version, version_text: Some("Firebird "@ + version) }
}

/// The server version, from the rows of the version query.
pub fn server_version(rows: &Vec<Value>) -> (r: ServerVersion)
    ensures
        r.deep_view() == version_of(rows.deep_view()),
{
    let reported = if rows.len() > 0 {
        assert(rows.deep_view()[0] == rows@[0]@);
        get_str(&rows[0], "VERSION")
    } else {
        None
    };
    let version = match reported {
        Some(v) => v,
        None => "unknown".to_owned(),
    };
    let version_text = Some(concat2("Firebird ", version.as_str()));
    ServerVersion { version, version_text }
}

/// The one database that a connection is attached to.
pub fn list_databases(database: &str) -> (r: Vec<DatabaseEntry>)
    ensures
        r.deep_view() == seq![crate::driver::named_database(database@)],
{
    list_of_one(DatabaseEntry { name: database.to_owned(), size_on_disk: None, empty: None })
}

// ---------------------------------------------------------------------------
// Analysis queries
// ---------------------------------------------------------------------------

/// The id of an object: `{kind}:{pure}`.
pub open spec fn id_of(kind: Seq<char>, pure: Seq<char>) -> Seq<char> {
    kind + ":"@ + pure
}

pub fn object_id(kind: &str, pure: &str) -> (r: String)
    ensures
        r@ == id_of(kind@, pure@),
{
    concat3(kind, ":", pure)
}

/// The condition on object ids: one id, or any.
pub open spec fn condition_of(object_id: Option<Seq<char>>) -> Seq<char> {
    match object_id {
        Some(id) => "'tables:"@ + id + "'"@,
        None => "is not null"@,
    }
}

/// A query template with its placeholder filled in.
pub open spec fn with_conditions(template: Seq<char>, object_id: Option<Seq<char>>) -> Seq<char> {
    crate::text::replace(template, "OBJECT_ID_CONDITION"@, condition_of(object_id))
}

/// Substitutes the `OBJECT_ID_CONDITION` placeholder, leaving the `=` before it:
/// with `'tables:NAME'` when analysing a single table or `is not null` for a full
/// analysis.
pub fn substitute_conditions(template: &str, object_id: Option<&str>) -> (r: String)
    ensures
        r@ == with_conditions(template@, crate::value::opt_str(object_id)),
{
    proof {
        reveal_strlit("OBJECT_ID_CONDITION");
    }
    let condition = match object_id {
        Some(id) => concat3("'tables:", id, "'"),
        None => "is not null".to_owned(),
    };
    replaced(template, "OBJECT_ID_CONDITION", condition.as_str())
}

/// The query that tells which variant of the function queries a server has.
pub fn capabilities_query() -> (r: String)
    ensures
        r@ == with_conditions(SQL_CAPABILITIES@, None),
{
    substitute_conditions(SQL_CAPABILITIES, None)
}

/// Whether the first row counts more than zero under `key`.
pub open spec fn counts(rows: Seq<Json>, key: Seq<char>) -> bool {
    rows.len() > 0 && match rows[0].int64(key) {
        Some(n) => n > 0,
        None => false,
    }
}

fn has_count(rows: &Vec<Value>, key: &str) -> (r: bool)
    ensures
        r == counts(rows.deep_view(), key@),
{
    if rows.len() == 0 {
        return false;
    }
    assert(rows.deep_view()[0] == rows@[0]@);
    match get_i64(&rows[0], key) {
        Some(n) => n > 0,
        None => false,
    }
}

/// The queries of a full analysis, in the order of the fields of
/// [`FirebirdCatalog`]. The rows of the capabilities query decide on the variant
/// of the function queries.
pub open spec fn full_queries(capabilities: Seq<Json>) -> Seq<Seq<char>> {
    let functions = if counts(capabilities, "functionSourceCount"@) {
        SQL_FUNCTIONS@
    } else {
        SQL_FUNCTIONS_LEGACY@
    };
    let params = if counts(capabilities, "functionArgumentSourceCount"@) {
        SQL_FUNCTION_PARAMETERS@
    } else {
        SQL_FUNCTION_PARAMETERS_LEGACY@
    };
    seq![
        with_conditions(SQL_TABLES@, None),
        with_conditions(SQL_COLUMNS@, None),
        with_conditions(SQL_PRIMARY_KEYS@, None),
        with_conditions(SQL_FOREIGN_KEYS@, None),
        with_conditions(SQL_INDEXES@, None),
        with_conditions(SQL_VIEWS@, None),
        with_conditions(SQL_PROCEDURES@, None),
        with_conditions(SQL_PROCEDURE_PARAMETERS@, None),
        with_conditions(functions, None),
        with_conditions(params, None),
        with_conditions(SQL_TRIGGERS@, None),
        with_conditions(SQL_UNIQUES@, None),
    ]
}

/// The queries of a full analysis.
pub fn full_analysis_queries(capabilities: &Vec<Value>) -> (r: Vec<String>)
    ensures
        r.deep_view() == full_queries(capabilities.deep_view()),
{
    let functions = if has_count(capabilities, "functionSourceCount") {
        SQL_FUNCTIONS
    } else {
        SQL_FUNCTIONS_LEGACY
    };
    let params = if has_count(capabilities, "functionArgumentSourceCount") {
        SQL_FUNCTION_PARAMETERS
    } else {
        SQL_FUNCTION_PARAMETERS_LEGACY
    };
    let mut out: Vec<String> = Vec::new();
    out.push(substitute_conditions(SQL_TABLES, None));
    out.push(substitute_conditions(SQL_COLUMNS, None));
    out.push(substitute_conditions(SQL_PRIMARY_KEYS, None));
    out.push(substitute_conditions(SQL_FOREIGN_KEYS, None));
    out.push(substitute_conditions(SQL_INDEXES, None));
    out.push(substitute_conditions(SQL_VIEWS, None));
    out.push(substitute_conditions(SQL_PROCEDURES, None));
    out.push(substitute_conditions(SQL_PROCEDURE_PARAMETERS, None));
    out.push(substitute_conditions(functions, None));
    out.push(substitute_conditions(params, None));
    out.push(substitute_conditions(SQL_TRIGGERS, None));
    out.push(substitute_conditions(SQL_UNIQUES, None));
    assert(out.deep_view() =~= full_queries(capabilities.deep_view()));
    out
}

/// The queries of the analysis of one table: tables, columns, primary keys,
/// foreign keys, indexes, uniques.
pub open spec fn table_queries(pure: Seq<char>) -> Seq<Seq<char>> {
    let id = Some(pure);
    seq![
        with_conditions(SQL_TABLES@, id),
        with_conditions(SQL_COLUMNS@, id),
        with_conditions(SQL_PRIMARY_KEYS@, id),
        with_conditions(SQL_FOREIGN_KEYS@, id),
        with_conditions(SQL_INDEXES@, id),
        with_conditions(SQL_UNIQUES@, id),
    ]
}

/// The queries of the analysis of one table.
pub fn table_analysis_queries(name: &NamedObjectInfo) -> (r: Vec<String>)
    ensures
        r.deep_view() == table_queries(name.pure_name@),
{
    let id = Some(name.pure_name.as_str());
    let mut out: Vec<String> = Vec::new();
    out.push(substitute_conditions(SQL_TABLES, id));
    out.push(substitute_conditions(SQL_COLUMNS, id));
    out.push(substitute_conditions(SQL_PRIMARY_KEYS, id));
    out.push(substitute_conditions(SQL_FOREIGN_KEYS, id));
    out.push(substitute_conditions(SQL_INDEXES, id));
    out.push(substitute_conditions(SQL_UNIQUES, id));
    assert(out.deep_view() =~= table_queries(name.pure_name@));
    out
}

// ---------------------------------------------------------------------------
// Columns
// ---------------------------------------------------------------------------

/// The number, or zero where there is none.
pub open spec fn or_zero(n: Option<i64>) -> int {
    match n {
        Some(n) => n as int,
        None => 0,
    }
}

/// A fixed-point type with its precision and the magnitude of its scale.
pub open spec fn fixed_point(
    name: Seq<char>,
    precision: Option<i64>,
    scale: Option<i64>,
) -> Seq<char> {
    let s = or_zero(scale);
    name + "("@ + crate::numbers::dec_int(or_zero(precision)) + ", "@ + crate::numbers::dec(
        (if s < 0 {
            -s
        } else {
            s
        }) as nat,
    ) + ")"@
}

/// The name of an exact number type: fixed-point by its sub-type, else `name`.
pub open spec fn exact_type(
    name: Seq<char>,
    sub_type: Option<i64>,
    precision: Option<i64>,
    scale: Option<i64>,
) -> Seq<char> {
    if sub_type == Some(1i64) {
        fixed_point("numeric"@, precision, scale)
    } else if sub_type == Some(2i64) {
        fixed_point("decimal"@, precision, scale)
    } else {
        name
    }
}

/// A type with its length.
pub open spec fn sized_type(name: Seq<char>, length: Option<i64>) -> Seq<char> {
    name + "("@ + crate::numbers::dec_int(or_zero(length)) + ")"@
}

/// The name of the type with the given code.
pub open spec fn data_type_of(
    code: Option<i64>,
    sub_type: Option<i64>,
    scale: Option<i64>,
    length: Option<i64>,
    precision: Option<i64>,
) -> Seq<char> {
    if code == Some(7i64) {
        exact_type("smallint"@, sub_type, precision, scale)
    } else if code == Some(8i64) {
        exact_type("integer"@, sub_type, precision, scale)
    } else if code == Some(9i64) {
        "bigint"@
    } else if code == Some(10i64) {
        "float"@
    } else if code == Some(11i64) {
        "DOUBLE precision"@
    } else if code == Some(12i64) {
        "date"@
    } else if code == Some(13i64) {
        "time"@
    } else if code == Some(14i64) {
        sized_type("char"@, length)
    } else if code == Some(16i64) {
        exact_type("bigint"@, sub_type, precision, scale)
    } else if code == Some(27i64) {
        "double precision"@
    } else if code == Some(35i64) {
        "timestamp"@
    } else if code == Some(40i64) {
        sized_type("cstring"@, length)
    } else if code == Some(37i64) {
        sized_type("varchar"@, length)
    } else if code == Some(261i64) {
        "blob"@
    } else {
        "UNKNOWN"@
    }
}

fn fixed_point_text(name: &str, precision: Option<i64>, scale: Option<i64>) -> (r: String)
    ensures
        r@ == fixed_point(name@, precision, scale),
{
    let p: i64 = match precision {
        Some(n) => n,
        None => 0,
    };
    let s: i64 = match scale {
        Some(n) => n,
        None => 0,
    };
    let magnitude: u64 = if s == i64::MIN {
        9223372036854775808
    } else if s < 0 {
        (-s) as u64
    } else {
        s as u64
    };
    let mut out = concat5(
        name,
        "(",
        decimal_signed(p).as_str(),
        ", ",
        decimal(magnitude).as_str(),
    );
    out.push_str(")");
    out
}

fn exact_text(name: &str, sub_type: Option<i64>, precision: Option<i64>, scale: Option<i64>) -> (r:
    String)
    ensures
        r@ == exact_type(name@, sub_type, precision, scale),
{
    match sub_type {
        Some(1) => fixed_point_text("numeric", precision, scale),
        Some(2) => fixed_point_text("decimal", precision, scale),
        _ => name.to_owned(),
    }
}

fn sized_text(name: &str, length: Option<i64>) -> (r: String)
    ensures
        r@ == sized_type(name@, length),
{
    let len: i64 = match length {
        Some(n) => n,
        None => 0,
    };
    let mut out = concat3(name, "(", decimal_signed(len).as_str());
    out.push_str(")");
    out
}

/// The name of a column type, from its code, sub-type, scale, length and
/// precision.
pub fn data_type_string(
    data_type_code: Option<i64>,
    sub_type: Option<i64>,
    scale: Option<i64>,
    length: Option<i64>,
    precision: Option<i64>,
) -> (r: String)
    ensures
        r@ == data_type_of(data_type_code, sub_type, scale, length, precision),
{
    match data_type_code {
        Some(7) => exact_text("smallint", sub_type, precision, scale),
        Some(8) => exact_text("integer", sub_type, precision, scale),
        Some(9) => "bigint".to_owned(),
        Some(10) => "float".to_owned(),
        Some(11) => "DOUBLE precision".to_owned(),
        Some(12) => "date".to_owned(),
        Some(13) => "time".to_owned(),
        Some(14) => sized_text("char", length),
        Some(16) => exact_text("bigint", sub_type, precision, scale),
        Some(27) => "double precision".to_owned(),
        Some(35) => "timestamp".to_owned(),
        Some(40) => sized_text("cstring", length),
        Some(37) => sized_text("varchar", length),
        Some(261) => "blob".to_owned(),
        _ => "UNKNOWN".to_owned(),
    }
}

/// The type that a row gives.
pub open spec fn type_in(row: Json) -> Seq<char> {
    data_type_of(
        row.int64("dataTypeCode"@),
        row.int64("subType"@),
        row.int64("scale"@),
        row.int64("length"@),
        row.int64("precision"@),
    )
}

fn row_type(row: &Value) -> (r: String)
    ensures
        r@ == type_in(row@),
{
    data_type_string(
        get_i64(row, "dataTypeCode"),
        get_i64(row, "subType"),
        get_i64(row, "scale"),
        get_i64(row, "length"),
        get_i64(row, "precision"),
    )
}

/// A default value without the word `default`, in small or in capital letters.
pub open spec fn bare_default(text: Seq<char>) -> Seq<char> {
    crate::text::replace(
        crate::text::replace(text, "default "@, ""@),
        "DEFAULT "@,
        ""@,
    )
}

/// The column that a row describes, given its default value in capital letters.
pub open spec fn column_with(
    row: Json,
    column_name: Seq<char>,
    upper_default: Seq<char>,
) -> ColumnInfoView {
    let raw = row.text("defaultValue"@);
    let identity = raw is Some && crate::text::holds(upper_default, "IDENTITY"@);
    ColumnInfoView {
        column_name,
        data_type: type_in(row),
        not_null: Some(crate::drivers::common::is_flagged(row, "notNull"@)),
        auto_increment: Some(identity),
        default_value: if raw is Some && !identity {
            Some(bare_default(raw->0))
        } else {
            None
        },
        ..crate::dbinfo::blank_column()
    }
}

/// The column that a row describes.
pub open spec fn column_of(row: Json, column_name: Seq<char>) -> ColumnInfoView {
    column_with(
        row,
        column_name,
        crate::encoding::uppercase(or_empty(row.text("defaultValue"@))),
    )
}

/// The column that a row describes, given its default value in capital letters.
pub fn column_info_with(row: &Value, column_name: &str, upper_default: &str) -> (r: ColumnInfo)
    ensures
        r.deep_view() == column_with(row@, column_name@, upper_default@),
{
    proof {
        reveal_strlit("default ");
        reveal_strlit("DEFAULT ");
    }
    let raw = get_str(row, "defaultValue");
    let identity = raw.is_some() && contains(upper_default, "IDENTITY");
    let default_value = match raw {
        Some(d) => if identity {
            None
        } else {
            let once = replaced(d.as_str(), "default ", "");
            Some(replaced(once.as_str(), "DEFAULT ", ""))
        },
        None => None,
    };
    let mut info = ColumnInfo::default();
    info.column_name = column_name.to_owned();
    info.data_type = row_type(row);
    info.not_null = Some(flagged(row, "notNull"));
    info.auto_increment = Some(identity);
    info.default_value = default_value;
    info
}

pub fn get_column_info(row: &Value, column_name: &str) -> (r: ColumnInfo)
    ensures
        r.deep_view() == column_of(row@, column_name@),
{
    column_info_with(
        row,
        column_name,
        get_text(row, "defaultValue").as_str().to_uppercase().as_str(),
    )
}

/// The rows that belong to an object.
pub open spec fn rows_of(rows: Seq<Json>, pure: Seq<char>) -> Seq<Json> {
    crate::rows::where_text(rows, "pure_name"@, pure)
}

/// The columns of an object.
pub open spec fn columns_of(rows: Seq<Json>, pure: Seq<char>) -> Seq<
    ColumnInfoView,
> {
    let own = rows_of(rows, pure);
    Seq::new(
        own.len(),
        |i: int| column_of(own[i], or_empty(own[i].text("column_name"@))),
    )
}

/// The columns of an object.
pub fn collect_columns(columns_rows: &Vec<Value>, pure: &str) -> (r: Vec<
    ColumnInfo,
>)
    ensures
        r.deep_view() == columns_of(columns_rows.deep_view(), pure@),
{
    let own = rows_with_text(columns_rows, "pure_name", pure);
    let f = |row: &&Value| -> (c: ColumnInfo)
        ensures
            c.deep_view() == column_of(
                row.deep_view(),
                or_empty(row.deep_view().text("column_name"@)),
            ),
    {
        get_column_info(row, get_text(row, "column_name").as_str())
    };
    let r = map_list(&own, f);
    assert(r.deep_view() =~= columns_of(columns_rows.deep_view(), pure@));
    r
}

// ---------------------------------------------------------------------------
// Keys and indexes
// ---------------------------------------------------------------------------

/// The primary key of a table.
pub open spec fn primary_key(rows: Seq<Json>, pure: Seq<char>) -> Option<PrimaryKeyInfoView> {
    let own = rows_of(rows, pure);
    if own.len() == 0 {
        None
    } else {
        Some(
            PrimaryKeyInfoView {
                columns_constraint: crate::drivers::common::over_columns(
                    ConstraintType::PrimaryKey,
                    own[0].text("constraint_name"@),
                    crate::drivers::common::refs_of(
                        own,
                        "column_name"@,
                        None,
                        Some("is_descending"@),
                    ),
                ),
            },
        )
    }
}

pub fn build_primary_key(pure: &str, pk_rows: &Vec<Value>) -> (r: Option<PrimaryKeyInfo>)
    ensures
        r.deep_view() == primary_key(pk_rows.deep_view(), pure@),
{
    let own = rows_with_text(pk_rows, "pure_name", pure);
    assert(own.deep_view().len() == own@.len());
    if own.len() == 0 {
        return None;
    }
    assert(own.deep_view()[0] == own@[0]@);
    Some(
        PrimaryKeyInfo {
            columns_constraint: constraint_over(
                ConstraintType::PrimaryKey,
                get_str(own[0], "constraint_name"),
                build_refs(&own, "column_name", None, Some("is_descending")),
            ),
        },
    )
}

/// The keys under which rows describe foreign keys.
pub open spec fn fk_fields() -> ForeignKeyFields<'static> {
    ForeignKeyFields {
        constraint_name: "constraint_name",
        column_name: "column_name",
        ref_column_name: "ref_column_name",
        ref_schema_name: None,
        ref_table_name: "ref_table_name",
        update_action: None,
        delete_action: None,
        is_descending: Some("is_descending"),
        empty_actions: false,
    }
}

/// The foreign keys of a table.
pub open spec fn foreign_keys(rows: Seq<Json>, pure: Seq<char>) -> Seq<ForeignKeyInfoView> {
    crate::drivers::common::foreign_keys_of(rows_of(rows, pure), fk_fields())
}

pub fn build_foreign_keys(pure: &str, fk_rows: &Vec<Value>) -> (r: Vec<ForeignKeyInfo>)
    ensures
        r.deep_view() == foreign_keys(fk_rows.deep_view(), pure@),
{
    let own = rows_with_text(fk_rows, "pure_name", pure);
    let fields = ForeignKeyFields {
        constraint_name: "constraint_name",
        column_name: "column_name",
        ref_column_name: "ref_column_name",
        ref_schema_name: None,
        ref_table_name: "ref_table_name",
        update_action: None,
        delete_action: None,
        is_descending: Some("is_descending"),
        empty_actions: false,
    };
    foreign_keys_from(&own, &fields)
}

/// The name of the index that a row describes.
pub open spec fn index_name(row: Json) -> Seq<char> {
    or_empty(row.text("constraint_name"@))
}

/// The column of an index row.
pub open spec fn index_column(row: Json) -> ColumnReferenceView {
    crate::drivers::common::ref_of(row, "column_name"@, None, Some("is_descending"@))
}

/// Whether an index row describes a unique constraint.
pub open spec fn is_unique_row(row: Json) -> bool {
    crate::drivers::common::is_flagged(row, "is_unique"@)
}

/// The index that a row describes, where it is not unique.
pub open spec fn as_index(row: Json) -> Option<IndexInfoView> {
    if is_unique_row(row) {
        None
    } else {
        Some(
            IndexInfoView {
                columns_constraint: crate::drivers::common::over_columns(
                    ConstraintType::Index,
                    Some(index_name(row)),
                    seq![index_column(row)],
                ),
                is_unique: false,
                index_type: row.text("index_type"@),
                filter_definition: None,
            },
        )
    }
}

/// The unique constraint that a row describes, where it is unique.
pub open spec fn as_unique(row: Json) -> Option<UniqueInfoView> {
    if is_unique_row(row) {
        Some(
            UniqueInfoView {
                columns_constraint: crate::drivers::common::over_columns(
                    ConstraintType::Unique,
                    Some(index_name(row)),
                    seq![index_column(row)],
                ),
            },
        )
    } else {
        None
    }
}

/// The indexes among some index rows.
pub open spec fn indexes_of(rows: Seq<Json>) -> Seq<IndexInfoView> {
    crate::rows::pick(rows, |r: Json| as_index(r))
}

/// The unique constraints among some index rows.
pub open spec fn uniques_of(rows: Seq<Json>) -> Seq<UniqueInfoView> {
    crate::rows::pick(rows, |r: Json| as_unique(r))
}

/// Each index row becomes an index or a unique constraint, and never both.
pub proof fn law_index_or_unique(rows: Seq<Json>)
    ensures
        indexes_of(rows).len() + uniques_of(rows).len() == rows.len(),
    decreases rows.len(),
{
    if rows.len() > 0 {
        law_index_or_unique(rows.drop_last());
    }
}

pub fn build_indexes_and_uniques(pure: &str, index_rows: &Vec<Value>) -> (r: (
    Vec<IndexInfo>,
    Vec<UniqueInfo>,
))
    ensures
        r.0.deep_view() == indexes_of(rows_of(index_rows.deep_view(), pure@)),
        r.1.deep_view() == uniques_of(rows_of(index_rows.deep_view(), pure@)),
{
    let own = rows_with_text(index_rows, "pure_name", pure);
    let ghost all = own.deep_view();
    let mut indexes: Vec<IndexInfo> = new_list();
    let mut uniques: Vec<UniqueInfo> = new_list();
    let mut i: usize = 0;
    while i < own.len()
        invariant
            i <= own@.len(),
            all == own.deep_view(),
            indexes.deep_view() == indexes_of(all.take(i as int)),
            uniques.deep_view() == uniques_of(all.take(i as int)),
        decreases own@.len() - i,
    {
        proof {
            crate::rows::lemma_take_next(all, i as int);
        }
        let idx: &Value = own[i];
        let name = get_text(idx, "constraint_name");
        let columns = list_of_one(
            ColumnReference {
                column_name: get_text(idx, "column_name"),
                ref_column_name: None,
                is_included_column: None,
                is_descending: Some(flagged(idx, "is_descending")),
            },
        );
        if flagged(idx, "is_unique") {
            push_item(
                &mut uniques,
                UniqueInfo {
                    columns_constraint: constraint_over(
                        ConstraintType::Unique,
                        Some(name),
                        columns,
                    ),
                },
            );
        } else {
            push_item(
                &mut indexes,
                IndexInfo {
                    columns_constraint: constraint_over(
                        ConstraintType::Index,
                        Some(name),
                        columns,
                    ),
                    is_unique: false,
                    index_type: get_str(idx, "index_type"),
                    filter_definition: None,
                },
            );
        }
        i = i + 1;
    }
    proof {
        crate::rows::lemma_take_all(all);
    }
    (indexes, uniques)
}

// ---------------------------------------------------------------------------
// Full analysis
// ---------------------------------------------------------------------------

/// The parameter that a row describes.
pub open spec fn parameter_of(row: Json) -> ParameterInfoView {
    ParameterInfoView {
        parameter_name: or_empty(row.text("parameter_name"@)),
        data_type: type_in(row),
        parameter_mode: Some(
            crate::drivers::common::mode_named(row.text("parameter_mode"@)),
        ),
        position: row.int64("position"@),
    }
}

/// The parameters of a routine.
pub open spec fn parameters_of(rows: Seq<Json>, pure: Seq<char>) -> Seq<ParameterInfoView> {
    let own = crate::rows::where_text(rows, "owning_object_name"@, pure);
    Seq::new(own.len(), |i: int| parameter_of(own[i]))
}

pub fn build_parameters(pure: &str, param_rows: &Vec<Value>) -> (r: Vec<ParameterInfo>)
    ensures
        r.deep_view() == parameters_of(param_rows.deep_view(), pure@),
{
    let own = rows_with_text(param_rows, "owning_object_name", pure);
    let f = |row: &&Value| -> (p: ParameterInfo)
        ensures
            p.deep_view() == parameter_of(row.deep_view()),
    {
        ParameterInfo {
            parameter_name: get_text(row, "parameter_name"),
            data_type: row_type(row),
            parameter_mode: Some(parameter_mode(row, "parameter_mode")),
            position: get_i64(row, "position"),
        }
    };
    let r = map_list(&own, f);
    assert(r.deep_view() =~= parameters_of(param_rows.deep_view(), pure@));
    r
}

/// The rows of the queries of a full analysis.
pub struct FirebirdCatalog {
    pub tables: Vec<Value>,
    pub columns: Vec<Value>,
    pub primary_keys: Vec<Value>,
    pub foreign_keys: Vec<Value>,
    pub indexes: Vec<Value>,
    pub views: Vec<Value>,
    pub procedures: Vec<Value>,
    pub procedure_parameters: Vec<Value>,
    pub functions: Vec<Value>,
    pub function_parameters: Vec<Value>,
    pub triggers: Vec<Value>,
    pub uniques: Vec<Value>,
}

/// What a [`FirebirdCatalog`] holds.
pub struct FirebirdCatalogView {
    pub tables: Seq<Json>,
    pub columns: Seq<Json>,
    pub primary_keys: Seq<Json>,
    pub foreign_keys: Seq<Json>,
    pub indexes: Seq<Json>,
    pub views: Seq<Json>,
    pub procedures: Seq<Json>,
    pub procedure_parameters: Seq<Json>,
    pub functions: Seq<Json>,
    pub function_parameters: Seq<Json>,
    pub triggers: Seq<Json>,
    pub uniques: Seq<Json>,
}

impl DeepView for FirebirdCatalog {
    type V = FirebirdCatalogView;

    open spec fn deep_view(&self) -> FirebirdCatalogView {
        FirebirdCatalogView {
            tables: self.tables.deep_view(),
            columns: self.columns.deep_view(),
            primary_keys: self.primary_keys.deep_view(),
            foreign_keys: self.foreign_keys.deep_view(),
            indexes: self.indexes.deep_view(),
            views: self.views.deep_view(),
            procedures: self.procedures.deep_view(),
            procedure_parameters: self.procedure_parameters.deep_view(),
            functions: self.functions.deep_view(),
            function_parameters: self.function_parameters.deep_view(),
            triggers: self.triggers.deep_view(),
            uniques: self.uniques.deep_view(),
        }
    }
}

/// The name that a row gives, empty where it gives none.
pub open spec fn pure_in(row: Json) -> Seq<char> {
    or_empty(row.text("pure_name"@))
}

/// The object that a row of a catalog query describes.
pub open spec fn object_in(row: Json, id: Seq<char>) -> DatabaseObjectInfoView {
    DatabaseObjectInfoView {
        pure_name: pure_in(row),
        schema_name: None,
        pairing_id: None,
        object_id: Some(id),
        create_date: None,
        modify_date: None,
        hash_code: None,
        object_type_field: Some(or_empty(row.text("object_type_field"@))),
        object_comment: row.text("object_comment"@),
    }
}

pub fn db_table_object(row: &Value, object_id: String) -> (r: DatabaseObjectInfo)
    ensures
        r.deep_view() == object_in(row@, object_id@),
{
    DatabaseObjectInfo {
        pure_name: get_text(row, "pure_name"),
        schema_name: None,
        pairing_id: None,
        object_id: Some(object_id),
        create_date: None,
        modify_date: None,
        hash_code: None,
        object_type_field: Some(get_text(row, "object_type_field")),
        object_comment: get_str(row, "object_comment"),
    }
}

/// The table that a row of the table query describes, with the id `key`.
pub open spec fn table_of(row: Json, key: Seq<char>, c: FirebirdCatalogView) -> TableInfoView {
    let pure = pure_in(row);
    TableInfoView {
        object: object_in(row, key),
        columns: columns_of(c.columns, pure),
        primary_key: primary_key(c.primary_keys, pure),
        sorting_key: None,
        foreign_keys: Some(foreign_keys(c.foreign_keys, pure)),
        dependencies: None,
        indexes: Some(indexes_of(rows_of(c.indexes, pure))),
        uniques: Some(uniques_of(rows_of(c.indexes, pure))),
        checks: None,
        table_row_count: row.int64("table_row_count"@),
        table_engine: None,
    }
}

fn build_table(row: &Value, key: String, catalog: &FirebirdCatalog) -> (r: TableInfo)
    ensures
        r.deep_view() == table_of(row@, key@, catalog.deep_view()),
{
    let pure = get_text(row, "pure_name");
    let (indexes, uniques) = build_indexes_and_uniques(pure.as_str(), &catalog.indexes);
    TableInfo {
        object: db_table_object(row, key),
        columns: collect_columns(&catalog.columns, pure.as_str()),
        primary_key: build_primary_key(pure.as_str(), &catalog.primary_keys),
        sorting_key: None,
        foreign_keys: Some(build_foreign_keys(pure.as_str(), &catalog.foreign_keys)),
        dependencies: None,
        indexes: Some(indexes),
        uniques: Some(uniques),
        checks: None,
        table_row_count: get_i64(row, "table_row_count"),
        table_engine: None,
    }
}

/// The view that a row describes. Views have ids of the kind of tables.
pub open spec fn view_of(row: Json, c: FirebirdCatalogView) -> ViewInfoView {
    ViewInfoView {
        object: crate::drivers::common::sql_object_with(
            object_in(row, id_of("tables"@, pure_in(row))),
            None,
        ),
        columns: columns_of(c.columns, pure_in(row)),
    }
}

fn analyse_view_row(row: &Value, catalog: &FirebirdCatalog) -> (r: ViewInfo)
    ensures
        r.deep_view() == view_of(row@, catalog.deep_view()),
{
    let pure = get_text(row, "pure_name");
    let key = object_id("tables", pure.as_str());
    ViewInfo {
        object: sql_object(db_table_object(row, key), None),
        columns: collect_columns(&catalog.columns, pure.as_str()),
    }
}

/// The routine that a row describes.
pub open spec fn callable_of(
    row: Json,
    kind: Seq<char>,
    create_sql: Option<Seq<char>>,
    param_rows: Seq<Json>,
) -> CallableObjectInfoView {
    let params = parameters_of(param_rows, pure_in(row));
    CallableObjectInfoView {
        object: crate::drivers::common::sql_object_with(
            object_in(row, id_of(kind, pure_in(row))),
            create_sql,
        ),
        parameters: if params.len() == 0 {
            None
        } else {
            Some(params)
        },
    }
}

fn build_callable(
    row: &Value,
    kind: &str,
    create_sql: Option<String>,
    param_rows: &Vec<Value>,
) -> (r: CallableObjectInfo)
    ensures
        r.deep_view() == callable_of(
            row@,
            kind@,
            create_sql.deep_view(),
            param_rows.deep_view(),
        ),
{
    let pure = get_text(row, "pure_name");
    let params = build_parameters(pure.as_str(), param_rows);
    let key = object_id(kind, pure.as_str());
    CallableObjectInfo {
        object: sql_object(db_table_object(row, key), create_sql),
        parameters: if params.len() == 0 {
            None
        } else {
            Some(params)
        },
    }
}

/// The procedure that a row describes.
pub open spec fn procedure_of(row: Json, param_rows: Seq<Json>) -> ProcedureInfoView {
    ProcedureInfoView {
        callable: callable_of(row, "procedures"@, row.text("create_sql"@), param_rows),
    }
}

/// The function that a row describes. Legacy functions have no DDL.
pub open spec fn function_of(row: Json, param_rows: Seq<Json>) -> FunctionInfoView {
    FunctionInfoView {
        callable: callable_of(
            row,
            "functions"@,
            if crate::drivers::common::is_flagged(row, "legacy_flag"@) {
                None
            } else {
                row.text("create_sql"@)
            },
            param_rows,
        ),
        return_type: None,
    }
}

/// The timing and the event that a trigger type code stands for.
pub open spec fn trigger_event_of(code: int) -> (Option<TriggerTiming>, Option<TriggerEventType>) {
    if code == 1 || code == 17 || code == 25 {
        (Some(TriggerTiming::Before), Some(TriggerEventType::Insert))
    } else if code == 2 || code == 18 || code == 26 {
        (Some(TriggerTiming::After), Some(TriggerEventType::Insert))
    } else if code == 3 || code == 27 {
        (Some(TriggerTiming::Before), Some(TriggerEventType::Update))
    } else if code == 4 || code == 28 {
        (Some(TriggerTiming::After), Some(TriggerEventType::Update))
    } else if code == 5 {
        (Some(TriggerTiming::Before), Some(TriggerEventType::Delete))
    } else if code == 6 {
        (Some(TriggerTiming::After), Some(TriggerEventType::Delete))
    } else if code == 113 {
        (Some(TriggerTiming::Before), None)
    } else if code == 114 {
        (Some(TriggerTiming::After), None)
    } else if code == 8192 || code == 8193 {
        (Some(TriggerTiming::BeforeEvent), None)
    } else if 8194 <= code <= 8196 {
        (Some(TriggerTiming::AfterStatement), None)
    } else {
        (None, None)
    }
}

/// Maps a trigger type code to the `(timing, event)` pair.
pub fn trigger_event(trigger_type: i64) -> (r: (Option<TriggerTiming>, Option<TriggerEventType>))
    ensures
        r == trigger_event_of(trigger_type as int),
{
    match trigger_type {
        1 | 17 | 25 => (Some(TriggerTiming::Before), Some(TriggerEventType::Insert)),
        2 | 18 | 26 => (Some(TriggerTiming::After), Some(TriggerEventType::Insert)),
        3 | 27 => (Some(TriggerTiming::Before), Some(TriggerEventType::Update)),
        4 | 28 => (Some(TriggerTiming::After), Some(TriggerEventType::Update)),
        5 => (Some(TriggerTiming::Before), Some(TriggerEventType::Delete)),
        6 => (Some(TriggerTiming::After), Some(TriggerEventType::Delete)),
        113 => (Some(TriggerTiming::Before), None),
        114 => (Some(TriggerTiming::After), None),
        8192 | 8193 => (Some(TriggerTiming::BeforeEvent), None),
        8194 | 8195 | 8196 => (Some(TriggerTiming::AfterStatement), None),
        _ => (None, None),
    }
}

/// The DDL of a trigger.
pub open spec fn trigger_sql(
    name: Seq<char>,
    table: Seq<char>,
    body: Seq<char>,
    timing: Option<TriggerTiming>,
    event: Option<TriggerEventType>,
) -> Seq<char> {
    "CREATE OR ALTER TRIGGER \""@ + name + "\" "@ + (if timing == Some(TriggerTiming::After) {
        "AFTER"@
    } else {
        "BEFORE"@
    }) + " "@ + (if event == Some(TriggerEventType::Insert) {
        "INSERT"@
    } else if event == Some(TriggerEventType::Update) {
        "UPDATE"@
    } else if event == Some(TriggerEventType::Delete) {
        "DELETE"@
    } else {
        "INSERT OR UPDATE OR DELETE"@
    }) + " ON \""@ + table + "\" "@ + body + ";"@
}

/// Builds the `CREATE OR ALTER TRIGGER` SQL.
pub fn get_trigger_create_sql(
    name: &str,
    table_name: &str,
    body: &str,
    timing: Option<TriggerTiming>,
    event: Option<TriggerEventType>,
) -> (r: String)
    ensures
        r@ == trigger_sql(name@, table_name@, body@, timing, event),
{
    let timing_str = match timing {
        Some(TriggerTiming::After) => "AFTER",
        _ => "BEFORE",
    };
    let event_str = match event {
        Some(TriggerEventType::Insert) => "INSERT",
        Some(TriggerEventType::Update) => "UPDATE",
        Some(TriggerEventType::Delete) => "DELETE",
        _ => "INSERT OR UPDATE OR DELETE",
    };
    let mut out = concat5("CREATE OR ALTER TRIGGER \"", name, "\" ", timing_str, " ");
    out.push_str(event_str);
    out.push_str(" ON \"");
    out.push_str(table_name);
    out.push_str("\" ");
    out.push_str(body);
    out.push_str(";");
    out
}

/// The trigger that a row describes.
pub open spec fn trigger_of(row: Json) -> TriggerInfoView {
    let name = pure_in(row);
    let table = or_empty(row.text("table_name"@));
    let (timing, event) = trigger_event_of(or_zero(row.int64("trigger_type"@)));
    TriggerInfoView {
        object: crate::drivers::common::sql_object_with(
            crate::drivers::common::object_with(name, None, Some("triggers:"@ + name), None),
            Some(
                trigger_sql(name, table, or_empty(row.text("trigger_body_sql"@)), timing, event),
            ),
        ),
        function_name: None,
        table_name: Some(table),
        trigger_timing: timing,
        event_type: event,
    }
}

fn analyse_trigger_row(row: &Value) -> (r: TriggerInfo)
    ensures
        r.deep_view() == trigger_of(row@),
{
    let name = get_text(row, "pure_name");
    let table = get_text(row, "table_name");
    let code: i64 = match get_i64(row, "trigger_type") {
        Some(n) => n,
        None => 0,
    };
    let body = get_text(row, "trigger_body_sql");
    let (timing, event) = trigger_event(code);
    let create_sql = get_trigger_create_sql(
        name.as_str(),
        table.as_str(),
        body.as_str(),
        timing,
        event,
    );
    let id = concat2("triggers:", name.as_str());
    TriggerInfo {
        object: sql_object(object_info(name, None, Some(id), None), Some(create_sql)),
        function_name: None,
        table_name: Some(table),
        trigger_timing: timing,
        event_type: event,
    }
}

/// The structure of the database that the catalog describes.
pub open spec fn database_of(c: FirebirdCatalogView) -> DatabaseInfoView {
    DatabaseInfoView {
        tables: Seq::new(
            c.tables.len(),
            |i: int| table_of(c.tables[i], id_of("tables"@, pure_in(c.tables[i])), c),
        ),
        views: Seq::new(c.views.len(), |i: int| view_of(c.views[i], c)),
        procedures: Seq::new(
            c.procedures.len(),
            |i: int| procedure_of(c.procedures[i], c.procedure_parameters),
        ),
        functions: Seq::new(
            c.functions.len(),
            |i: int| function_of(c.functions[i], c.function_parameters),
        ),
        triggers: Seq::new(c.triggers.len(), |i: int| trigger_of(c.triggers[i])),
        ..crate::dbinfo::empty_database()
    }
}

/// The full structure of a database, from the rows of the analysis queries. The
/// rows of the uniques query are not read: index rows tell which are unique.
pub fn analyse_firebird_full(catalog: &FirebirdCatalog) -> (r: DatabaseInfo)
    ensures
        r.deep_view() == database_of(catalog.deep_view()),
{
    let ghost c = catalog.deep_view();
    let table_row = |row: &Value| -> (t: TableInfo)
        ensures
            t.deep_view() == table_of(
                row@,
                id_of("tables"@, pure_in(row@)),
                catalog.deep_view(),
            ),
    {
        let key = object_id("tables", get_text(row, "pure_name").as_str());
        build_table(row, key, catalog)
    };
    let tables = map_list(&catalog.tables, table_row);
    let view_row = |row: &Value| -> (v: ViewInfo)
        ensures
            v.deep_view() == view_of(row@, catalog.deep_view()),
    {
        analyse_view_row(row, catalog)
    };
    let views = map_list(&catalog.views, view_row);
    let procedure_row = |row: &Value| -> (p: ProcedureInfo)
        ensures
            p.deep_view() == procedure_of(row@, catalog.procedure_parameters.deep_view()),
    {
        let create_sql = get_str(row, "create_sql");
        ProcedureInfo {
            callable: build_callable(
                row,
                "procedures",
                create_sql,
                &catalog.procedure_parameters,
            ),
        }
    };
    let procedures = map_list(&catalog.procedures, procedure_row);
    let function_row = |row: &Value| -> (f: FunctionInfo)
        ensures
            f.deep_view() == function_of(row@, catalog.function_parameters.deep_view()),
    {
        let create_sql = if flagged(row, "legacy_flag") {
            None
        } else {
            get_str(row, "create_sql")
        };
        FunctionInfo {
            callable: build_callable(row, "functions", create_sql, &catalog.function_parameters),
            return_type: None,
        }
    };
    let functions = map_list(&catalog.functions, function_row);
    let trigger_row = |row: &Value| -> (t: TriggerInfo)
        ensures
            t.deep_view() == trigger_of(row@),
    {
        analyse_trigger_row(row)
    };
    let triggers = map_list(&catalog.triggers, trigger_row);
    proof {
        assert(tables.deep_view() =~= database_of(c).tables);
        assert(views.deep_view() =~= database_of(c).views);
        assert(procedures.deep_view() =~= database_of(c).procedures);
        assert(functions.deep_view() =~= database_of(c).functions);
        assert(triggers.deep_view() =~= database_of(c).triggers);
    }
    let mut info = DatabaseInfo::default();
    info.tables = tables;
    info.views = views;
    info.procedures = procedures;
    info.functions = functions;
    info.triggers = triggers;
    info
}

/// The structure of one table, from the rows of the table queries: that of the
/// first table row. Fields of the catalog that hold other rows are not read.
pub fn analyse_firebird_table(name: &NamedObjectInfo, catalog: &FirebirdCatalog) -> (r: DbgmResult<
    TableInfo,
>)
    ensures
        ({
            let key = id_of("tables"@, name.pure_name@);
            let c = catalog.deep_view();
            match r {
                Ok(t) => c.tables.len() > 0 && t.deep_view() == table_of(c.tables[0], key, c),
                Err(e) => c.tables.len() == 0 && e.deep_view() == crate::error::generic_error(
                    "Table not found: "@ + key,
                ),
            }
        }),
{
    let key = object_id("tables", name.pure_name.as_str());
    if catalog.tables.len() == 0 {
        return Err(DbgmError::new(concat2("Table not found: ", key.as_str())));
    }
    Ok(build_table(&catalog.tables[0], key, catalog))
}

// ---------------------------------------------------------------------------
// Laws
// ---------------------------------------------------------------------------

/// The client is told the server, the port, the user, the password and the file of the
/// definition; the defaults of the server only where it has none.
pub proof fn law_connection(def: ConnectionDefinition, c: FirebirdConfig)
    requires
        database_path(def.deep_view()) is Some,
        c.deep_view() == config_of(def.deep_view(), database_path(def.deep_view())->0),
    ensures
        def.server matches Some(s) ==> c.host@ == s@,
        def.server is None ==> c.host@ == "localhost"@,
        def.port matches Some(p) ==> p < 65536 ==> c.port == p,
        def.port is None ==> c.port == 3050,
        def.user matches Some(u) ==> c.user@ == u@,
        def.password matches Some(p) ==> c.password@ == p@,
        def.database_file matches Some(f) ==> c.database@ == f@,
        def.database_file is None ==> (def.database matches Some(d) ==> c.database@ == d@),
{
    let v = c.deep_view();
    assert(v.host == c.host@ && v.port == c.port && v.database == c.database@);
    assert(v.user == c.user@ && v.password == c.password@);
    if let Some(s) = def.server {
        assert(def.deep_view().server == Some(s@));
    }
    if let Some(u) = def.user {
        assert(def.deep_view().user == Some(u@));
    }
    if let Some(p) = def.password {
        assert(def.deep_view().password == Some(p@));
    }
    if let Some(f) = def.database_file {
        assert(def.deep_view().database_file == Some(f@));
    }
    if let Some(d) = def.database {
        assert(def.deep_view().database == Some(d@));
    }
}

/// A cell becomes the JSON value of its kind.
pub proof fn law_cells(n: i64, d: u64, b: bool, days: i32, secs: u32, nanos: u32)
    ensures
        cell_json(SqlType::Null) == Json::Null,
        cell_json(SqlType::Integer(n)) == Json::Int(n as int),
        cell_json(SqlType::Floating(d)) == crate::encoding::double_json(d),
        cell_json(SqlType::Boolean(b)) == Json::Bool(b),
        crate::datetime::datetime_seconds_format(days, secs, nanos) matches Some(t) ==> cell_json(
            SqlType::Timestamp(days, secs, nanos),
        ) == Json::Str(t),
{
}

/// Text cells become texts, bytes become the text that they stand for, where they stand for one.
pub proof fn law_text_cells(s: String, b: Vec<u8>)
    ensures
        cell_json(SqlType::Text(s)) == Json::Str(s@),
        cell_json(SqlType::Binary(b)) == crate::encoding::text_or_binary(b@),
{
}

/// A row is read by the names of its cells; the columns of a result are those of its first row.
pub proof fn law_row(rows: Seq<Vec<FirebirdCell>>, r: int, i: int)
    requires
        0 <= r < rows.len(),
        0 <= i < rows[r]@.len(),
        forall|j: int|
            i < j < rows[r]@.len() ==> (#[trigger] rows[r]@[j]).name@ != rows[r]@[i].name@,
    ensures
        result_of(rows).rows.len() == rows.len(),
        result_of(rows).rows[r].get(rows[r]@[i].name@) == Some(cell_json(rows[r]@[i].value)),
        result_of(rows).columns.len() == rows[0]@.len(),
        r == 0 ==> result_of(rows).columns[i].column_name == rows[0]@[i].name@,
{
    let cells = rows[r]@;
    let names = Seq::new(cells.len(), |i: int| cells[i].name@);
    let values = Seq::new(cells.len(), |i: int| cell_json(cells[i].value));
    let other = crate::value::lemma_absent_name(names);
    crate::value::law_row_object(names, values, i, other);
}

/// The types of the wire have their names, whatever stands in the upper bits.
pub proof fn law_wire_types(upper: u32)
    requires
        upper < 0x10_0000,
    ensures
        type_display((upper * 256 + 7) as u32) == Some("SMALLINT"@),
        type_display((upper * 256 + 8) as u32) == Some("INTEGER"@),
        type_display((upper * 256 + 9) as u32) == Some("BIGINT"@),
        type_display((upper * 256 + 10) as u32) == Some("FLOAT"@),
        type_display((upper * 256 + 12) as u32) == Some("DATE"@),
        type_display((upper * 256 + 13) as u32) == Some("TIME"@),
        type_display((upper * 256 + 14) as u32) == Some("CHAR"@),
        type_display((upper * 256 + 16) as u32) == Some("NUMERIC"@),
        type_display((upper * 256 + 35) as u32) == Some("TIMESTAMP"@),
        type_display((upper * 256 + 37) as u32) == Some("VARCHAR"@),
        type_display((upper * 256 + 40) as u32) == Some("CSTRING"@),
        type_display((upper * 256 + 11) as u32) == Some("DOUBLE PRECISION"@),
        type_display((upper * 256 + 27) as u32) == Some("DOUBLE PRECISION"@),
{
}

/// The types of columns by their codes: fixed-point types with precision and scale, whose sign
/// is dropped, and texts with their length.
pub proof fn law_data_types(
    sub_type: Option<i64>,
    p: i64,
    s: i64,
    n: i64,
    scale: Option<i64>,
    length: Option<i64>,
    precision: Option<i64>,
)
    requires
        0 <= s < 1000,
    ensures
        data_type_of(Some(8), None, scale, length, precision) == "integer"@,
        data_type_of(Some(7), None, scale, length, precision) == "smallint"@,
        data_type_of(Some(16), None, scale, length, precision) == "bigint"@,
        data_type_of(Some(10), sub_type, scale, length, precision) == "float"@,
        data_type_of(Some(12), sub_type, scale, length, precision) == "date"@,
        data_type_of(Some(13), sub_type, scale, length, precision) == "time"@,
        data_type_of(Some(35), sub_type, scale, length, precision) == "timestamp"@,
        data_type_of(Some(27), sub_type, scale, length, precision) == "double precision"@,
        data_type_of(Some(261), sub_type, scale, length, precision) == "blob"@,
        data_type_of(Some(14), sub_type, scale, Some(n), precision) == "char("@
            + crate::numbers::dec_int(n as int) + ")"@,
        data_type_of(Some(37), sub_type, scale, Some(n), precision) == "varchar("@
            + crate::numbers::dec_int(n as int) + ")"@,
        data_type_of(Some(8), Some(1), Some((-s) as i64), length, Some(p)) == "numeric("@
            + crate::numbers::dec_int(p as int) + ", "@ + crate::numbers::dec(s as nat) + ")"@,
        data_type_of(Some(8), Some(2), Some((-s) as i64), length, Some(p)) == "decimal("@
            + crate::numbers::dec_int(p as int) + ", "@ + crate::numbers::dec(s as nat) + ")"@,
        data_type_of(Some(16), Some(1), Some(s), length, Some(p)) == "numeric("@
            + crate::numbers::dec_int(p as int) + ", "@ + crate::numbers::dec(s as nat) + ")"@,
        data_type_of(None, sub_type, scale, length, precision) == "UNKNOWN"@,
{
    reveal_strlit("char");
    reveal_strlit("char(");
    reveal_strlit("varchar");
    reveal_strlit("varchar(");
    reveal_strlit("numeric");
    reveal_strlit("numeric(");
    reveal_strlit("decimal");
    reveal_strlit("decimal(");
    reveal_strlit("(");
    assert("char"@ + "("@ =~= "char("@);
    assert("varchar"@ + "("@ =~= "varchar("@);
    assert("numeric"@ + "("@ =~= "numeric("@);
    assert("decimal"@ + "("@ =~= "decimal("@);
}

/// A column says what its row says: it takes no null exactly where its flag is set, and it counts
/// up where its default value names an identity, and has none then.
pub proof fn law_column(row: Json, name: Seq<char>, upper: Seq<char>)
    ensures
        ({
            let c = column_with(row, name, upper);
            &&& c.column_name == name
            &&& row.int64("notNull"@) == Some(1i64) ==> c.not_null == Some(true)
            &&& row.get("notNull"@) == Some(Json::Int(0)) ==> c.not_null == Some(false)
            &&& row.get("notNull"@) is None ==> c.not_null == Some(false)
            &&& row.text("defaultValue"@) is None ==> c.auto_increment == Some(false)
                && c.default_value is None
            &&& row.text("defaultValue"@) matches Some(d) ==> {
                &&& crate::text::holds(upper, "IDENTITY"@) ==> c.auto_increment == Some(true)
                    && c.default_value is None
                &&& !crate::text::holds(upper, "IDENTITY"@) ==> c.auto_increment == Some(false)
                    && c.default_value is Some
                &&& !crate::text::holds(upper, "IDENTITY"@) && !crate::text::holds(d, "default "@)
                    && !crate::text::holds(d, "DEFAULT "@) ==> c.default_value == Some(d)
            }
            &&& c.data_type == data_type_of(
                row.int64("dataTypeCode"@),
                row.int64("subType"@),
                row.int64("scale"@),
                row.int64("length"@),
                row.int64("precision"@),
            )
        }),
{
    if let Some(d) = row.text("defaultValue"@) {
        if !crate::text::holds(d, "default "@) {
            crate::text::law_replace_absent(d, "default "@, ""@);
            if !crate::text::holds(d, "DEFAULT "@) {
                crate::text::law_replace_absent(d, "DEFAULT "@, ""@);
            }
        }
    }
}

/// The word `default` in front of a default value is dropped.
pub proof fn law_default_value(v: Seq<char>)
    requires
        !crate::text::holds(v, "default "@),
        !crate::text::holds(v, "DEFAULT "@),
    ensures
        bare_default("DEFAULT "@ + v) == v,
        bare_default("default "@ + v) == v,
{
    reveal_strlit("default ");
    reveal_strlit("DEFAULT ");
    reveal_strlit("");
    let none = Seq::<char>::empty();
    assert(none + "DEFAULT "@ + v =~= "DEFAULT "@ + v);
    assert(none + "default "@ + v =~= "default "@ + v);
    assert(none + ""@ + v =~= v);
    crate::text::law_replace(none, "default "@, v, ""@);
    crate::text::law_replace_absent(v, "default "@, ""@);
    crate::text::law_replace(none, "DEFAULT "@, v, ""@);
    crate::text::law_replace_absent(v, "DEFAULT "@, ""@);
    let s = "DEFAULT "@ + v;
    if crate::text::holds(s, "default "@) {
        let i = choose|i: int| crate::text::occurs_at(s, "default "@, i);
        let t = s.subrange(i, i + 8);
        if i >= 8 {
            assert(v.subrange(i - 8, i) =~= t);
            assert(crate::text::occurs_at(v, "default "@, i - 8));
        } else {
            assert(t[0] == 'd');
            assert(s[i] == t[0]);
            assert(s[i] == "DEFAULT "@[i]);
        }
    }
    crate::text::law_replace_absent(s, "default "@, ""@);
}

/// The columns of an object are those of its rows, in their order, under their names.
pub proof fn law_columns(
    rows: Seq<Json>,
    r: Json,
    pure: Seq<char>,
    name: Seq<char>,
)
    requires
        r.text("column_name"@) == Some(name),
    ensures
        columns_of(Seq::empty(), pure).len() == 0,
        r.text("pure_name"@) == Some(pure) ==> columns_of(rows.push(r), pure) == columns_of(
            rows,
            pure,
        ).push(column_of(r, name)),
        r.text("pure_name"@) != Some(pure) ==> columns_of(rows.push(r), pure) == columns_of(
            rows,
            pure,
        ),
{
    crate::rows::law_where_text(rows, r, "pure_name"@, pure);
    if r.text("pure_name"@) == Some(pure) {
        assert(columns_of(rows.push(r), pure) =~= columns_of(rows, pure).push(
            column_of(r, name),
        ));
    }
}

/// The primary key of a table is made of the rows that name the table.
pub proof fn law_primary_key(rows: Seq<Json>, r: Json, pure: Seq<char>, name: Seq<char>)
    requires
        r.text("column_name"@) == Some(name),
    ensures
        primary_key(Seq::empty(), pure) is None,
        r.text("pure_name"@) != Some(pure) ==> primary_key(rows.push(r), pure) == primary_key(
            rows,
            pure,
        ),
        r.text("pure_name"@) == Some(pure) ==> (primary_key(rows.push(r), pure) matches Some(after)
            && {
            let c = after.columns_constraint;
            &&& c.columns.last().column_name == name
            &&& r.int64("is_descending"@) == Some(1i64) ==> c.columns.last().is_descending == Some(
                true,
            )
            &&& r.get("is_descending"@) == Some(Json::Int(0)) ==> c.columns.last().is_descending
                == Some(false)
            &&& c.constraint.constraint_type == ConstraintType::PrimaryKey
            &&& match primary_key(rows, pure) {
                Some(before) => c.columns.drop_last() == before.columns_constraint.columns
                    && c.constraint == before.columns_constraint.constraint,
                None => c.columns.len() == 1 && c.constraint.constraint_name == r.text(
                    "constraint_name"@,
                ),
            }
        }),
{
    crate::rows::law_where_text(rows, r, "pure_name"@, pure);
    if r.text("pure_name"@) == Some(pure) {
        let own = rows_of(rows, pure);
        let after = primary_key(rows.push(r), pure)->0.columns_constraint;
        assert(own.push(r).last() == r);
        if own.len() > 0 {
            assert(own.push(r)[0] == own[0]);
            let before = primary_key(rows, pure)->0.columns_constraint;
            assert(after.columns.drop_last() =~= before.columns);
        }
    }
}

/// A foreign key refers to the table and the column of its row.
pub proof fn law_foreign_key(r: Json, pure: Seq<char>, name: Seq<char>, table: Seq<char>)
    requires
        r.text("pure_name"@) == Some(pure),
        r.text("constraint_name"@) == Some(name),
        r.text("column_name"@) is Some,
        r.text("ref_table_name"@) == Some(table),
    ensures
        foreign_keys(seq![r], pure).len() == 1,
        ({
            let k = foreign_keys(seq![r], pure)[0];
            &&& k.columns_constraint.constraint.constraint_name == Some(name)
            &&& k.columns_constraint.columns.len() == 1
            &&& Some(k.columns_constraint.columns[0].column_name) == r.text("column_name"@)
            &&& k.columns_constraint.columns[0].ref_column_name == r.text("ref_column_name"@)
            &&& k.ref_table_name == table
        }),
{
    let none = Seq::<Json>::empty();
    crate::rows::law_where_text(none, r, "pure_name"@, pure);
    assert(none.push(r) =~= seq![r]);
    let own = rows_of(none, pure);
    assert(own.len() == 0);
    assert(foreign_keys(none, pure) =~= Seq::empty()) by {
        assert(crate::rows::keys_of(own, "constraint_name"@) =~= Seq::empty());
    }
    crate::drivers::common::law_foreign_key_begun(own, r, fk_fields());
    let after = foreign_keys(seq![r], pure);
    assert(after.last() == after[0]);
    crate::rows::law_group_push(own, r, "constraint_name"@, name);
    assert(crate::rows::group_of(own, "constraint_name"@, name) =~= Seq::empty());
    assert(crate::rows::group_of(own.push(r), "constraint_name"@, name) =~= seq![r]);
}

/// An index row gives an index with its column, unless it is unique, where it gives a unique
/// constraint.
pub proof fn law_index(rows: Seq<Json>, r: Json, name: Seq<char>)
    requires
        r.text("constraint_name"@) == Some(name),
        r.text("column_name"@) is Some,
    ensures
        r.int64("is_unique"@) == Some(1i64) ==> {
            let u = uniques_of(rows.push(r));
            &&& indexes_of(rows.push(r)) == indexes_of(rows)
            &&& u.len() == uniques_of(rows).len() + 1
            &&& u.last().columns_constraint.constraint.constraint_name == Some(name)
            &&& u.last().columns_constraint.constraint.constraint_type == ConstraintType::Unique
            &&& u.last().columns_constraint.columns.len() == 1
            &&& Some(u.last().columns_constraint.columns[0].column_name) == r.text("column_name"@)
        },
        r.get("is_unique"@) == Some(Json::Int(0)) ==> {
            let x = indexes_of(rows.push(r));
            &&& uniques_of(rows.push(r)) == uniques_of(rows)
            &&& x.len() == indexes_of(rows).len() + 1
            &&& x.last().columns_constraint.constraint.constraint_name == Some(name)
            &&& x.last().columns_constraint.constraint.constraint_type == ConstraintType::Index
            &&& x.last().columns_constraint.columns.len() == 1
            &&& Some(x.last().columns_constraint.columns[0].column_name) == r.text("column_name"@)
            &&& !x.last().is_unique
            &&& x.last().index_type == r.text("index_type"@)
            &&& r.int64("is_descending"@) == Some(1i64)
                ==> x.last().columns_constraint.columns[0].is_descending == Some(true)
            &&& r.get("is_descending"@) == Some(Json::Int(0))
                ==> x.last().columns_constraint.columns[0].is_descending == Some(false)
        },
{
    crate::rows::law_pick_push(rows, |r: Json| as_index(r), r);
    crate::rows::law_pick_push(rows, |r: Json| as_unique(r), r);
}

/// A table has the columns, the keys and the indexes that the catalogue holds under its name.
pub proof fn law_table(row: Json, key: Seq<char>, c: FirebirdCatalogView, pure: Seq<char>)
    requires
        row.text("pure_name"@) == Some(pure),
    ensures
        ({
            let t = table_of(row, key, c);
            let indexes = crate::rows::where_text(c.indexes, "pure_name"@, pure);
            &&& t.object.pure_name == pure
            &&& t.object.object_id == Some(key)
            &&& t.object.object_comment == row.text("object_comment"@)
            &&& t.columns == columns_of(c.columns, pure)
            &&& t.primary_key == primary_key(c.primary_keys, pure)
            &&& t.foreign_keys == Some(foreign_keys(c.foreign_keys, pure))
            &&& t.indexes == Some(indexes_of(indexes))
            &&& t.uniques == Some(uniques_of(indexes))
        }),
{
}

/// The structure of a database has one object for each row of its kind, in the order of the rows.
pub proof fn law_database(c: FirebirdCatalogView, i: int)
    ensures
        ({
            let d = database_of(c);
            &&& d.tables.len() == c.tables.len()
            &&& d.views.len() == c.views.len()
            &&& d.triggers.len() == c.triggers.len()
            &&& d.procedures.len() == c.procedures.len()
            &&& d.functions.len() == c.functions.len()
            &&& 0 <= i < c.tables.len() ==> (c.tables[i].text("pure_name"@) matches Some(p)
                ==> d.tables[i] == table_of(c.tables[i], "tables:"@ + p, c))
            &&& 0 <= i < c.views.len() ==> (c.views[i].text("pure_name"@) matches Some(p) ==> {
                &&& d.views[i].object.object.pure_name == p
                &&& d.views[i].columns == columns_of(c.columns, p)
            })
            &&& 0 <= i < c.procedures.len() ==> (c.procedures[i].text("pure_name"@) matches Some(p)
                ==> {
                let f = d.procedures[i].callable;
                &&& f.object.object.pure_name == p
                &&& f.object.object.object_id == Some("procedures:"@ + p)
                &&& f.object.create_sql == c.procedures[i].text("create_sql"@)
                &&& parameters_of(c.procedure_parameters, p).len() > 0 ==> f.parameters == Some(
                    parameters_of(c.procedure_parameters, p),
                )
            })
            &&& 0 <= i < c.functions.len() ==> (c.functions[i].text("pure_name"@) matches Some(p)
                ==> {
                let f = d.functions[i].callable;
                &&& f.object.object.pure_name == p
                &&& f.object.object.object_id == Some("functions:"@ + p)
                &&& c.functions[i].int64("legacy_flag"@) == Some(1i64) ==> f.object.create_sql is None
                &&& c.functions[i].get("legacy_flag"@) == Some(Json::Int(0)) ==> f.object.create_sql
                    == c.functions[i].text("create_sql"@)
                &&& parameters_of(c.function_parameters, p).len() > 0 ==> f.parameters == Some(
                    parameters_of(c.function_parameters, p),
                )
            })
            &&& 0 <= i < c.triggers.len() ==> d.triggers[i] == trigger_of(c.triggers[i])
        }),
{
    reveal_strlit("tables");
    reveal_strlit(":");
    reveal_strlit("tables:");
    reveal_strlit("procedures");
    reveal_strlit("procedures:");
    reveal_strlit("functions");
    reveal_strlit("functions:");
    assert("tables"@ + ":"@ =~= "tables:"@);
    assert("procedures"@ + ":"@ =~= "procedures:"@);
    assert("functions"@ + ":"@ =~= "functions:"@);
}

/// A parameter has the name, the type, the mode and the position of its row.
pub proof fn law_parameter(r: Json)
    requires
        r.text("parameter_name"@) is Some,
    ensures
        Some(parameter_of(r).parameter_name) == r.text("parameter_name"@),
        parameter_of(r).data_type == data_type_of(
            r.int64("dataTypeCode"@),
            r.int64("subType"@),
            r.int64("scale"@),
            r.int64("length"@),
            r.int64("precision"@),
        ),
        parameter_of(r).position == r.int64("position"@),
        r.text("parameter_mode"@) == Some("OUT"@) <==> parameter_of(r).parameter_mode == Some(
            crate::dbinfo::ParameterMode::Out,
        ),
        r.text("parameter_mode"@) == Some("RETURN"@) <==> parameter_of(r).parameter_mode == Some(
            crate::dbinfo::ParameterMode::Return,
        ),
{
    crate::drivers::common::law_parameter_mode(r.text("parameter_mode"@));
}

/// The parameters of a routine are those of the rows that name it, in their order.
pub proof fn law_parameters(rows: Seq<Json>, r: Json, pure: Seq<char>)
    ensures
        r.text("owning_object_name"@) == Some(pure) ==> parameters_of(rows.push(r), pure) == parameters_of(
            rows,
            pure,
        ).push(parameter_of(r)),
        r.text("owning_object_name"@) != Some(pure) ==> parameters_of(rows.push(r), pure) == parameters_of(
            rows,
            pure,
        ),
{
    crate::rows::law_where_text(rows, r, "owning_object_name"@, pure);
    if r.text("owning_object_name"@) == Some(pure) {
        assert(parameters_of(rows.push(r), pure) =~= parameters_of(rows, pure).push(
            parameter_of(r),
        ));
    }
}

/// The codes of triggers: of the simple ones the odd codes stand for before and the even ones for
/// after, in the order of inserting, updating and deleting.
pub proof fn law_trigger_codes(k: int)
    requires
        0 <= k < 3,
    ensures
        trigger_event_of(2 * k + 1).0 == Some(TriggerTiming::Before),
        trigger_event_of(2 * k + 2).0 == Some(TriggerTiming::After),
        trigger_event_of(2 * k + 1).1 == trigger_event_of(2 * k + 2).1,
        trigger_event_of(2 * k + 1).1 == if k == 0 {
            Some(TriggerEventType::Insert)
        } else if k == 1 {
            Some(TriggerEventType::Update)
        } else {
            Some(TriggerEventType::Delete)
        },
        trigger_event_of(0) == (None::<TriggerTiming>, None::<TriggerEventType>),
{
}

/// A trigger has the name, the table, the timing and the event of its row, and the statement that
/// makes it names them.
pub proof fn law_trigger(row: Json, name: Seq<char>, table: Seq<char>, body: Seq<char>, code: i64)
    requires
        row.text("pure_name"@) == Some(name),
        row.text("table_name"@) == Some(table),
        row.text("trigger_body_sql"@) == Some(body),
        row.int64("trigger_type"@) == Some(code),
    ensures
        trigger_of(row).object.object.pure_name == name,
        trigger_of(row).table_name == Some(table),
        trigger_of(row).trigger_timing == trigger_event_of(code as int).0,
        trigger_of(row).event_type == trigger_event_of(code as int).1,
        code == 1 ==> trigger_of(row).object.create_sql == Some(
            "CREATE OR ALTER TRIGGER \""@ + name + "\" "@ + "BEFORE"@ + " "@ + "INSERT"@ + " ON \""@
                + table + "\" "@ + body + ";"@,
        ),
        code == 4 ==> trigger_of(row).object.create_sql == Some(
            "CREATE OR ALTER TRIGGER \""@ + name + "\" "@ + "AFTER"@ + " "@ + "UPDATE"@ + " ON \""@
                + table + "\" "@ + body + ";"@,
        ),
        code == 6 ==> trigger_of(row).object.create_sql == Some(
            "CREATE OR ALTER TRIGGER \""@ + name + "\" "@ + "AFTER"@ + " "@ + "DELETE"@ + " ON \""@
                + table + "\" "@ + body + ";"@,
        ),
{
}

/// A query names the table that is asked for.
pub proof fn law_condition(a: Seq<char>, c: Seq<char>, id: Seq<char>)
    requires
        forall|k: int|
            0 <= k < a.len() ==> #[trigger] (a + "OBJECT_ID_CONDITION"@ + c).subrange(
                k,
                k + "OBJECT_ID_CONDITION"@.len(),
            ) != "OBJECT_ID_CONDITION"@,
        !crate::text::holds(c, "OBJECT_ID_CONDITION"@),
    ensures
        with_conditions(a + "OBJECT_ID_CONDITION"@ + c, Some(id)) == a + ("'tables:"@ + id + "'"@)
            + c,
        with_conditions(a + "OBJECT_ID_CONDITION"@ + c, None) == a + "is not null"@ + c,
{
    reveal_strlit("OBJECT_ID_CONDITION");
    crate::text::law_replace(a, "OBJECT_ID_CONDITION"@, c, "'tables:"@ + id + "'"@);
    crate::text::law_replace(a, "OBJECT_ID_CONDITION"@, c, "is not null"@);
    crate::text::law_replace_absent(c, "OBJECT_ID_CONDITION"@, "'tables:"@ + id + "'"@);
    crate::text::law_replace_absent(c, "OBJECT_ID_CONDITION"@, "is not null"@);
}

/// The queries of a table ask for the table alone; those of a database for all, for functions as
/// far as the server keeps their sources.
pub proof fn law_queries(pure: Seq<char>, r: Json)
    ensures
        ({
            let q = table_queries(pure);
            let f = full_queries(seq![r]);
            &&& q.len() == 6
            &&& q[0] == with_conditions(SQL_TABLES@, Some(pure))
            &&& q[1] == with_conditions(SQL_COLUMNS@, Some(pure))
            &&& q[2] == with_conditions(SQL_PRIMARY_KEYS@, Some(pure))
            &&& q[3] == with_conditions(SQL_FOREIGN_KEYS@, Some(pure))
            &&& q[4] == with_conditions(SQL_INDEXES@, Some(pure))
            &&& f.len() == 12
            &&& f[0] == with_conditions(SQL_TABLES@, None)
            &&& f[1] == with_conditions(SQL_COLUMNS@, None)
            &&& r.int64("functionSourceCount"@) == Some(1i64) ==> f[8] == with_conditions(
                SQL_FUNCTIONS@,
                None,
            )
            &&& r.int64("functionSourceCount"@) == Some(0i64) ==> f[8] == with_conditions(
                SQL_FUNCTIONS_LEGACY@,
                None,
            )
            &&& r.int64("functionArgumentSourceCount"@) == Some(1i64) ==> f[9] == with_conditions(
                SQL_FUNCTION_PARAMETERS@,
                None,
            )
            &&& r.int64("functionArgumentSourceCount"@) == Some(0i64) ==> f[9] == with_conditions(
                SQL_FUNCTION_PARAMETERS_LEGACY@,
                None,
            )
        }),
{
}

/// The version of the server, from the first row.
pub proof fn law_version(r: Json, rest: Seq<Json>, version: Seq<char>)
    requires
        r.text("VERSION"@) == Some(version),
    ensures
        version_of(seq![r] + rest).version == version,
        version_of(seq![r] + rest).version_text == Some("Firebird "@ + version),
        version_of(Seq::empty()).version == "unknown"@,
{
    assert((seq![r] + rest)[0] == r);
}

/// Without a user and a password the connection uses those of a new server.
pub proof fn law_default_login(def: ConnectionDefinitionView, database: Seq<char>)
    ensures
        def.user is None ==> config_of(def, database).user == "SYSDBA"@,
        def.password is None ==> config_of(def, database).password == "masterkey"@,
        config_of(def, database).database == database,
{
}

/// The remaining codes of types, and exact numbers of the small integer type.
pub proof fn law_further_types(
    sub_type: Option<i64>,
    p: i64,
    s: i64,
    n: i64,
    scale: Option<i64>,
    length: Option<i64>,
    precision: Option<i64>,
)
    requires
        0 <= s < 1000,
    ensures
        data_type_of(Some(9), sub_type, scale, length, precision) == "bigint"@,
        data_type_of(Some(11), sub_type, scale, length, precision) == "DOUBLE precision"@,
        data_type_of(Some(40), sub_type, scale, Some(n), precision) == "cstring"@ + "("@
            + crate::numbers::dec_int(n as int) + ")"@,
        data_type_of(Some(7), Some(1), Some((-s) as i64), length, Some(p)) == "numeric"@ + "("@
            + crate::numbers::dec_int(p as int) + ", "@ + crate::numbers::dec(s as nat) + ")"@,
        data_type_of(Some(7), Some(2), Some((-s) as i64), length, Some(p)) == "decimal"@ + "("@
            + crate::numbers::dec_int(p as int) + ", "@ + crate::numbers::dec(s as nat) + ")"@,
        data_type_of(Some(14), sub_type, scale, None, precision) == "char"@ + "("@
            + crate::numbers::dec_int(0) + ")"@,
        data_type_of(Some(8), Some(0), scale, length, precision) == "integer"@,
{
}

/// What a catalogue row tells of an object is kept.
pub proof fn law_object(row: Json, id: Seq<char>, pure: Seq<char>)
    requires
        row.text("pure_name"@) == Some(pure),
    ensures
        object_in(row, id).pure_name == pure,
        object_in(row, id).object_id == Some(id),
        object_in(row, id).object_comment == row.text("object_comment"@),
        row.text("object_type_field"@) matches Some(t) ==> object_in(row, id).object_type_field
            == Some(t),
        object_in(row, id).hash_code is None,
        object_in(row, id).schema_name is None,
        object_in(row, id).modify_date is None,
{
}

/// A table and a view are known by their name among the tables, a trigger among the triggers.
pub proof fn law_objects(
    row: Json,
    key: Seq<char>,
    c: FirebirdCatalogView,
    pure: Seq<char>,
)
    requires
        row.text("pure_name"@) == Some(pure),
    ensures
        table_of(row, key, c).object == object_in(row, key),
        table_of(row, key, c).table_row_count == row.int64("table_row_count"@),
        view_of(row, c).object.object == object_in(row, "tables:"@ + pure),
        view_of(row, c).object.create_sql is None,
        trigger_of(row).object.object.object_id == Some("triggers:"@ + pure),
        trigger_of(row).object.object.hash_code is None,
        trigger_of(row).function_name is None,
{
    reveal_strlit("tables");
    reveal_strlit(":");
    reveal_strlit("tables:");
    assert("tables"@ + ":"@ =~= "tables:"@);
}

/// A trigger on no single event is made for all three.
pub proof fn law_trigger_sql(
    name: Seq<char>,
    table: Seq<char>,
    body: Seq<char>,
    timing: Option<TriggerTiming>,
    event: Option<TriggerEventType>,
)
    ensures
        ({
            let when = if timing == Some(TriggerTiming::After) {
                "AFTER"@
            } else {
                "BEFORE"@
            };
            let what = match event {
                Some(TriggerEventType::Insert) => "INSERT"@,
                Some(TriggerEventType::Update) => "UPDATE"@,
                Some(TriggerEventType::Delete) => "DELETE"@,
                _ => "INSERT OR UPDATE OR DELETE"@,
            };
            trigger_sql(name, table, body, timing, event) == "CREATE OR ALTER TRIGGER \""@ + name
                + "\" "@ + when + " "@ + what + " ON \""@ + table + "\" "@ + body + ";"@
        }),
{
}

/// The default value of a column is read by its capital letters.
pub proof fn law_column_reading(row: Json, name: Seq<char>, d: Seq<char>)
    requires
        row.text("defaultValue"@) == Some(d),
    ensures
        column_of(row, name) == column_with(row, name, crate::encoding::uppercase(d)),
{
}

/// A port beyond sixteen bits counts by what remains of it in them.
pub proof fn law_wide_port(def: ConnectionDefinitionView, p: u32, k: int, database: Seq<char>)
    requires
        def.port == Some(p),
        0 <= p - k * 65536 < 65536,
    ensures
        config_of(def, database).port == p - k * 65536,
{
}

/// Triggers on several events go by their first event, those on all three by none; triggers on a
/// database and the codes between them have no event.
pub proof fn law_compound_trigger_codes(code: int)
    ensures
        code == 17 || code == 25 ==> trigger_event_of(code) == trigger_event_of(1),
        code == 18 || code == 26 ==> trigger_event_of(code) == trigger_event_of(2),
        code == 27 ==> trigger_event_of(code) == trigger_event_of(3),
        code == 28 ==> trigger_event_of(code) == trigger_event_of(4),
        code == 113 ==> trigger_event_of(code).0 == Some(TriggerTiming::Before),
        code == 114 ==> trigger_event_of(code).0 == Some(TriggerTiming::After),
        8192 <= code <= 8193 ==> trigger_event_of(code).0 == Some(TriggerTiming::BeforeEvent),
        8194 <= code <= 8196 ==> trigger_event_of(code).0 == Some(TriggerTiming::AfterStatement),
        code > 28 ==> trigger_event_of(code).1 is None,
        code <= 0 || 6 < code < 17 || 18 < code < 25 || 28 < code < 113 || 114 < code < 8192 || code
            > 8196 ==> trigger_event_of(code).0 is None && trigger_event_of(code).1 is None,
{
}

} // verus!
