//! Oracle engine driver.
//!
//! Dispatch of cells happens on the column's database type; numbers keep their
//! full decimal precision as text.
use vstd::prelude::*;

use crate::connection::{ConnectionDefinition, ConnectionDefinitionView};
use crate::dbinfo::{
    CallableObjectInfo, CallableObjectInfoView, ColumnInfo, ColumnInfoView, ColumnReference,
    ColumnReferenceView, ConstraintType, DatabaseInfo, DatabaseInfoView, DatabaseObjectInfo,
    DatabaseObjectInfoView, ForeignKeyInfo, ForeignKeyInfoView, FunctionInfo, FunctionInfoView,
    IndexInfo, IndexInfoView, NamedObjectInfo, ParameterInfo, ParameterInfoView, PrimaryKeyInfo,
    PrimaryKeyInfoView, ProcedureInfo, ProcedureInfoView, TableInfo, TableInfoView,
    TriggerEventType, TriggerInfo, TriggerInfoView, UniqueInfo, UniqueInfoView,
    ViewInfo, ViewInfoView,
};
use crate::driver::{
    list_databases_under, stream_single_result, Capabilities, DatabaseEntry, ServerVersion,
    ServerVersionView, StreamEvent,
};
use crate::drivers::common::{
    constraint_over, foreign_keys_from, list_of_one, object_info, parameter_mode, primary_key_from,
    sql_object, trigger_timing, ForeignKeyFields,
};
use crate::drivers::oracle_queries::{
    SQL_COLUMNS, SQL_FOREIGN_KEYS, SQL_INDEXES, SQL_PARAMETERS, SQL_PRIMARY_KEYS, SQL_ROUTINES,
    SQL_TABLES, SQL_TRIGGERS, SQL_UNIQUE_NAMES, SQL_VIEWS,
};
use crate::encoding::{binary_value, number_or_null};
use crate::error::{DbgmError, DbgmResult};
use crate::numbers::{
    decimal, decimal_padded, decimal_padded_signed, decimal_signed, float_literal,
};
use crate::query::{QueryResultColumn, QueryResultColumnView};
use crate::rows::{
    collect_texts, get_i64, get_str, get_text, list_has, map_list, new_list, or_empty, push_item,
    rows_with_text, text_is,
};
use crate::text::{
    chars_of, concat2, concat3, concat4, concat5, ends_with, replaced, same, slice_string,
    starts_with, to_ascii_lower, trim_end_bound,
};
use crate::value::{object_from, Json, Value};

verus! {

/// Dotted engine id for Oracle.
pub const ORACLE_ENGINE: &'static str = "oracle@dbgate-plugin-oracle";

/// The Oracle driver.
pub struct OracleDriver;

impl Default for OracleDriver {
    fn default() -> (r: Self)
        ensures
            r == OracleDriver,
    {
        OracleDriver::new()
    }
}

impl OracleDriver {
    pub fn new() -> (r: Self)
        ensures
            r == OracleDriver,
    {
        OracleDriver
    }

    pub fn engine(&self) -> (r: &'static str)
        ensures
            r@ == ORACLE_ENGINE@,
    {
        ORACLE_ENGINE
    }

    pub fn title(&self) -> (r: &'static str)
        ensures
            r@ == "OracleDB"@,
    {
        "OracleDB"
    }

    pub fn capabilities(&self) -> (r: Capabilities)
        ensures
            r == (Capabilities {
                read_only_sessions: true,
                supports_transactions: true,
                supports_native_backup: false,
                supports_native_restore: false,
                supports_server_summary: true,
                default_port: Some(1521),
            }),
    {
        Capabilities {
            read_only_sessions: true,
            supports_transactions: true,
            supports_native_backup: false,
            supports_native_restore: false,
            supports_server_summary: true,
            default_port: Some(1521),
        }
    }

    /// Bulk writes are not offered.
    pub fn write_table_unsupported(&self) -> (r: DbgmError)
        ensures
            r.deep_view() == crate::error::generic_error(
                "Oracle write_table streaming is not yet supported"@,
            ),
    {
        DbgmError::new("Oracle write_table streaming is not yet supported".to_owned())
    }
}

// ---------------------------------------------------------------------------
// Connecting
// ---------------------------------------------------------------------------

/// The connect string of a definition: `server:port`. Where the auth type is
/// `url` and a database is given, the database is the connect string.
pub open spec fn connect_string_of(def: ConnectionDefinitionView) -> Seq<char> {
    if def.auth_type == Some("url"@) && def.database is Some {
        def.database->0
    } else {
        or_empty(def.server) + ":"@ + crate::numbers::dec(
            match def.port {
                Some(p) => p as nat,
                None => 1521,
            },
        )
    }
}

/// Builds the connect string from a connection definition.
pub fn connect_string(def: &ConnectionDefinition) -> (r: String)
    ensures
        r@ == connect_string_of(def.deep_view()),
{
    let by_url = match &def.auth_type {
        Some(t) => same(t.as_str(), "url"),
        None => false,
    };
    if by_url {
        if let Some(d) = &def.database {
            return d.clone();
        }
    }
    let server = match &def.server {
        Some(s) => s.clone(),
        None => String::new(),
    };
    let port: u32 = match def.port {
        Some(p) => p,
        None => 1521,
    };
    concat3(server.as_str(), ":", decimal(port as u64).as_str())
}

/// The statement that makes a schema the current one.
pub fn current_schema_sql(schema: &str) -> (r: String)
    ensures
        r@ == "ALTER SESSION SET CURRENT_SCHEMA = \""@ + schema@ + "\""@,
{
    concat3("ALTER SESSION SET CURRENT_SCHEMA = \"", schema, "\"")
}

/// A statement as it is executed: without trailing whitespace, and without one
/// semicolon at its end.
pub open spec fn executable(sql: Seq<char>) -> Seq<char> {
    let t = crate::text::trim_end(sql);
    if t.len() > 0 && t.last() == ';' {
        t.drop_last()
    } else {
        t
    }
}

/// Strips a single trailing semicolon before executing.
pub fn trim_trailing_semicolon(sql: &str) -> (r: String)
    ensures
        r@ == executable(sql@),
{
    let chars = chars_of(sql);
    let end: usize = trim_end_bound(&chars);
    let ghost t = crate::text::trim_end(sql@);
    assert(t =~= chars@.subrange(0, end as int));
    if end > 0 && chars[end - 1] == ';' {
        let r = slice_string(&chars, 0, end - 1);
        assert(r@ =~= t.drop_last());
        r
    } else {
        slice_string(&chars, 0, end)
    }
}

// ---------------------------------------------------------------------------
// Value mapping
// ---------------------------------------------------------------------------

/// The database types that cells are told apart by.
#[derive(Debug, Clone, Copy, PartialEq, Eq, Structural)]
pub enum OracleType {
    Raw,
    LongRaw,
    Blob,
    Date,
    Timestamp,
    TimestampLtz,
    TimestampTz,
    Number,
    BinaryDouble,
    BinaryFloat,
    Boolean,
    Other,
}

/// A column of a result set: its name, its type and the name of the type, and
/// whether the type is one of the string types.
pub struct OracleColumn {
    pub name: String,
    pub db_type: OracleType,
    pub is_string_type: bool,
    pub data_type: String,
}

/// As what a cell is to be read.
#[derive(Debug, Clone, Copy, PartialEq, Eq, Structural)]
pub enum CellKind {
    Bytes,
    Timestamp,
    Text,
    Number,
    Double,
    Float,
    Bool,
    Unsupported,
}

/// A cell that was read: a number as its decimal text, floating-point numbers of
/// either width as the bits of a double, a moment as year, month, day, hour,
/// minute and second.
pub enum OracleCell {
    Bytes(Vec<u8>),
    Timestamp(i16, u8, u8, u8, u8, u8),
    Text(String),
    Number(String),
    Double(u64),
    Bool(bool),
}

/// As what a cell of a column is to be read.
pub open spec fn kind_of(db_type: OracleType, is_string_type: bool) -> CellKind {
    match db_type {
        OracleType::Raw | OracleType::LongRaw | OracleType::Blob => CellKind::Bytes,
        OracleType::Date | OracleType::Timestamp | OracleType::TimestampLtz
        | OracleType::TimestampTz => CellKind::Timestamp,
        _ => if is_string_type {
            CellKind::Text
        } else {
            match db_type {
                OracleType::Number => CellKind::Number,
                OracleType::BinaryDouble => CellKind::Double,
                OracleType::BinaryFloat => CellKind::Float,
                OracleType::Boolean => CellKind::Bool,
                _ => CellKind::Unsupported,
            }
        },
    }
}

/// As what a cell of a column is to be read.
pub fn cell_kind(column: &OracleColumn) -> (r: CellKind)
    ensures
        r == kind_of(column.db_type, column.is_string_type),
{
    match column.db_type {
        OracleType::Raw | OracleType::LongRaw | OracleType::Blob => CellKind::Bytes,
        OracleType::Date | OracleType::Timestamp | OracleType::TimestampLtz
        | OracleType::TimestampTz => CellKind::Timestamp,
        _ => if column.is_string_type {
            CellKind::Text
        } else {
            match column.db_type {
                OracleType::Number => CellKind::Number,
                OracleType::BinaryDouble => CellKind::Double,
                OracleType::BinaryFloat => CellKind::Float,
                OracleType::Boolean => CellKind::Bool,
                _ => CellKind::Unsupported,
            }
        },
    }
}

/// A moment in ISO form: `YYYY-MM-DDTHH:MM:SS`.
pub open spec fn iso_form(
    year: i16,
    month: u8,
    day: u8,
    hour: u8,
    minute: u8,
    second: u8,
) -> Seq<char> {
    crate::numbers::padded_int(year as int, 4) + "-"@ + crate::numbers::padded(month as nat, 2)
        + "-"@ + crate::numbers::padded(day as nat, 2) + "T"@ + crate::numbers::padded(
        hour as nat,
        2,
    ) + ":"@ + crate::numbers::padded(minute as nat, 2) + ":"@ + crate::numbers::padded(
        second as nat,
        2,
    )
}

/// A moment in ISO form.
pub fn timestamp_to_iso(year: i16, month: u8, day: u8, hour: u8, minute: u8, second: u8) -> (r:
    String)
    ensures
        r@ == iso_form(year, month, day, hour, minute, second),
{
    let mut out = concat5(
        decimal_padded_signed(year, 4).as_str(),
        "-",
        decimal_padded(month as u64, 2).as_str(),
        "-",
        decimal_padded(day as u64, 2).as_str(),
    );
    out.push_str("T");
    out.push_str(decimal_padded(hour as u64, 2).as_str());
    out.push_str(":");
    out.push_str(decimal_padded(minute as u64, 2).as_str());
    out.push_str(":");
    out.push_str(decimal_padded(second as u64, 2).as_str());
    out
}

/// The JSON form of a cell that was read as `kind`. What could not be read is
/// null.
pub open spec fn cell_json(kind: CellKind, cell: Option<OracleCell>) -> Json {
    match (kind, cell) {
        (CellKind::Bytes, Some(OracleCell::Bytes(b))) => crate::encoding::binary_json(b@),
        (CellKind::Timestamp, Some(OracleCell::Timestamp(y, mo, d, h, mi, s))) => Json::Str(
            iso_form(y, mo, d, h, mi, s),
        ),
        (CellKind::Text, Some(OracleCell::Text(t))) => Json::Str(t@),
        (CellKind::Number, Some(OracleCell::Number(t))) => Json::Str(t@),
        (CellKind::Double, Some(OracleCell::Double(d))) => crate::encoding::double_json(d),
        (CellKind::Float, Some(OracleCell::Double(d))) => crate::encoding::double_json(d),
        (CellKind::Bool, Some(OracleCell::Bool(b))) => Json::Bool(b),
        _ => Json::Null,
    }
}

/// Decodes a single cell to a JSON value.
pub fn cell_value(kind: CellKind, cell: &Option<OracleCell>) -> (r: Value)
    ensures
        r@ == cell_json(kind, *cell),
{
    match (kind, cell) {
        (CellKind::Bytes, Some(OracleCell::Bytes(b))) => binary_value(b),
        (CellKind::Timestamp, Some(OracleCell::Timestamp(y, mo, d, h, mi, s))) => Value::Str(
            timestamp_to_iso(*y, *mo, *d, *h, *mi, *s),
        ),
        (CellKind::Text, Some(OracleCell::Text(t))) => Value::Str(t.clone()),
        (CellKind::Number, Some(OracleCell::Number(t))) => Value::Str(t.clone()),
        (CellKind::Double, Some(OracleCell::Double(d))) => number_or_null(*d),
        (CellKind::Float, Some(OracleCell::Double(d))) => number_or_null(*d),
        (CellKind::Bool, Some(OracleCell::Bool(b))) => Value::Bool(*b),
        _ => Value::Null,
    }
}

/// The JSON object of a row.
pub open spec fn row_json(columns: Seq<OracleColumn>, cells: Seq<Option<OracleCell>>) -> Json {
    crate::value::row_object(
        Seq::new(columns.len(), |i: int| columns[i].name@),
        Seq::new(
            columns.len(),
            |i: int|
                cell_json(kind_of(columns[i].db_type, columns[i].is_string_type), cells[i]),
        ),
    )
}

/// Converts a full row to a JSON object keyed by column name.
pub fn row_to_value(columns: &Vec<OracleColumn>, cells: &Vec<Option<OracleCell>>) -> (r: Value)
    requires
        columns@.len() == cells@.len(),
    ensures
        r@ == row_json(columns@, cells@),
{
    let mut names: Vec<String> = Vec::new();
    let mut values: Vec<Value> = Vec::new();
    let mut i: usize = 0;
    while i < columns.len()
        invariant
            i <= columns@.len() == cells@.len(),
            names@.len() == i,
            values@.len() == i,
            forall|k: int| 0 <= k < i ==> (#[trigger] names@[k])@ == columns@[k].name@,
            forall|k: int|
                0 <= k < i ==> (#[trigger] values@[k])@ == cell_json(
                    kind_of(columns@[k].db_type, columns@[k].is_string_type),
                    cells@[k],
                ),
        decreases columns@.len() - i,
    {
        names.push(columns[i].name.clone());
        values.push(cell_value(cell_kind(&columns[i]), &cells[i]));
        i = i + 1;
    }
    proof {
        assert(names.deep_view() =~= Seq::new(columns@.len(), |k: int| columns@[k].name@));
        assert(values.deep_view() =~= Seq::new(
            columns@.len(),
            |k: int|
                cell_json(kind_of(columns@[k].db_type, columns@[k].is_string_type), cells@[k]),
        ));
    }
    object_from(&names, values)
}

/// The metadata of a result set's columns.
pub open spec fn metadata_of(columns: Seq<OracleColumn>) -> Seq<QueryResultColumnView> {
    Seq::new(
        columns.len(),
        |i: int| crate::query::plain_column(columns[i].name@, Some(columns[i].data_type@)),
    )
}

/// Builds the column metadata for a result set's columns.
pub fn columns_metadata(columns: &Vec<OracleColumn>) -> (r: Vec<QueryResultColumn>)
    ensures
        r.deep_view() == metadata_of(columns@),
{
    let f = |c: &OracleColumn| -> (q: QueryResultColumn)
        ensures
            q.deep_view() == crate::query::plain_column(c.name@, Some(c.data_type@)),
    {
        QueryResultColumn::plain(c.name.clone(), Some(c.data_type.clone()))
    };
    let r = map_list(columns, f);
    assert(r.deep_view() =~= metadata_of(columns@));
    r
}

/// The events of a streamed query.
pub fn stream_events(columns: Vec<QueryResultColumn>, rows: Vec<Value>) -> (r: Vec<StreamEvent>)
    ensures
        r.deep_view() == crate::driver::single_result_events(
            columns.deep_view(),
            rows.deep_view(),
        ),
{
    stream_single_result(columns, rows)
}

// ---------------------------------------------------------------------------
// Server metadata
// ---------------------------------------------------------------------------

/// The five numbers of a server version.
pub type VersionNumbers = (usize, usize, usize, usize, usize);

/// The numbers of a version with points between them.
pub open spec fn version_form(v: VersionNumbers) -> Seq<char> {
    crate::numbers::dec(v.0 as nat) + "."@ + crate::numbers::dec(v.1 as nat) + "."@
        + crate::numbers::dec(v.2 as nat) + "."@ + crate::numbers::dec(v.3 as nat) + "."@
        + crate::numbers::dec(v.4 as nat)
}

/// `oracledb::OracleVersion::to_string`: the five numbers with points between
/// them.
#[verifier::external_body]
fn version_display(v: VersionNumbers) -> (r: String)
    ensures
        r@ == version_form(v),
{
    oracledb::OracleVersion(v.0, v.1, v.2, v.3, v.4).to_string()
}

/// The server version: its numbers, and the product by the first of them.
pub fn server_version(v: VersionNumbers) -> (r: ServerVersion)
    ensures
        r.deep_view() == (ServerVersionView {
            version: version_form(v),
            version_text: Some("Oracle "@ + crate::numbers::dec(v.0 as nat) + "c"@),
        }),
{
    ServerVersion {
        version: version_display(v),
        version_text: Some(concat3("Oracle ", decimal(v.0 as u64).as_str(), "c")),
    }
}

/// The databases on a server, from the rows of the user query.
pub fn list_databases(rows: &Vec<Value>) -> (r: Vec<DatabaseEntry>)
    ensures
        r.deep_view() == crate::driver::databases_under(rows.deep_view(), "name"@),
{
    list_databases_under(rows, "name")
}

// ---------------------------------------------------------------------------
// Analysis queries
// ---------------------------------------------------------------------------

/// The id of an object: `{kind}:{pure}`.
pub open spec fn id_of(kind: Seq<char>, pure: Seq<char>) -> Seq<char> {
    kind + ":"@ + pure
}

pub fn object_id(kind: &str, pure: &str) -> (r: String)
    ensures
        r@ == id_of(kind@, pure@),
{
    concat3(kind, ":", pure)
}

/// The condition on object ids: one id, or any.
pub open spec fn condition_of(object_id: Option<Seq<char>>) -> Seq<char> {
    match object_id {
        Some(id) => "'tables:"@ + id + "'"@,
        None => "is not null"@,
    }
}

/// A query template with its placeholders filled in.
pub open spec fn with_conditions(
    template: Seq<char>,
    database: Seq<char>,
    object_id: Option<Seq<char>>,
) -> Seq<char> {
    crate::text::replace(
        crate::text::replace(template, "$owner"@, database),
        "OBJECT_ID_CONDITION"@,
        condition_of(object_id),
    )
}

/// Substitutes the `$owner` / `OBJECT_ID_CONDITION` placeholders. `object_id` is
/// `None` in full-analysis mode (all objects).
pub fn substitute_conditions(template: &str, database: &str, object_id: Option<&str>) -> (r: String)
    ensures
        r@ == with_conditions(template@, database@, crate::value::opt_str(object_id)),
{
    proof {
        reveal_strlit("$owner");
        reveal_strlit("OBJECT_ID_CONDITION");
    }
    let condition = match object_id {
        Some(id) => concat3("'tables:", id, "'"),
        None => "is not null".to_owned(),
    };
    let with_owner = replaced(template, "$owner", database);
    replaced(with_owner.as_str(), "OBJECT_ID_CONDITION", condition.as_str())
}

/// The queries of a full analysis, in the order of the fields of
/// [`OracleCatalog`].
pub open spec fn full_queries(database: Seq<char>) -> Seq<Seq<char>> {
    seq![
        with_conditions(SQL_TABLES@, database, None),
        with_conditions(SQL_COLUMNS@, database, None),
        with_conditions(SQL_PRIMARY_KEYS@, database, None),
        with_conditions(SQL_FOREIGN_KEYS@, database, None),
        with_conditions(SQL_INDEXES@, database, None),
        with_conditions(SQL_VIEWS@, database, None),
        with_conditions(SQL_ROUTINES@, database, None),
        with_conditions(SQL_PARAMETERS@, database, None),
        with_conditions(SQL_TRIGGERS@, database, None),
        with_conditions(SQL_UNIQUE_NAMES@, database, None),
    ]
}

/// The queries of a full analysis.
pub fn full_analysis_queries(database: &str) -> (r: Vec<String>)
    ensures
        r.deep_view() == full_queries(database@),
{
    let mut out: Vec<String> = Vec::new();
    out.push(substitute_conditions(SQL_TABLES, database, None));
    out.push(substitute_conditions(SQL_COLUMNS, database, None));
    out.push(substitute_conditions(SQL_PRIMARY_KEYS, database, None));
    out.push(substitute_conditions(SQL_FOREIGN_KEYS, database, None));
    out.push(substitute_conditions(SQL_INDEXES, database, None));
    out.push(substitute_conditions(SQL_VIEWS, database, None));
    out.push(substitute_conditions(SQL_ROUTINES, database, None));
    out.push(substitute_conditions(SQL_PARAMETERS, database, None));
    out.push(substitute_conditions(SQL_TRIGGERS, database, None));
    out.push(substitute_conditions(SQL_UNIQUE_NAMES, database, None));
    assert(out.deep_view() =~= full_queries(database@));
    out
}

/// The queries of the analysis of one table: tables, columns, primary keys,
/// foreign keys, indexes, unique names.
pub open spec fn table_queries(database: Seq<char>, pure: Seq<char>) -> Seq<Seq<char>> {
    let id = Some(pure);
    seq![
        with_conditions(SQL_TABLES@, database, id),
        with_conditions(SQL_COLUMNS@, database, id),
        with_conditions(SQL_PRIMARY_KEYS@, database, id),
        with_conditions(SQL_FOREIGN_KEYS@, database, id),
        with_conditions(SQL_INDEXES@, database, id),
        with_conditions(SQL_UNIQUE_NAMES@, database, None),
    ]
}

/// The queries of the analysis of one table.
pub fn table_analysis_queries(database: &str, name: &NamedObjectInfo) -> (r: Vec<String>)
    ensures
        r.deep_view() == table_queries(database@, name.pure_name@),
{
    let id = Some(name.pure_name.as_str());
    let mut out: Vec<String> = Vec::new();
    out.push(substitute_conditions(SQL_TABLES, database, id));
    out.push(substitute_conditions(SQL_COLUMNS, database, id));
    out.push(substitute_conditions(SQL_PRIMARY_KEYS, database, id));
    out.push(substitute_conditions(SQL_FOREIGN_KEYS, database, id));
    out.push(substitute_conditions(SQL_INDEXES, database, id));
    out.push(substitute_conditions(SQL_UNIQUE_NAMES, database, None));
    assert(out.deep_view() =~= table_queries(database@, name.pure_name@));
    out
}

// ---------------------------------------------------------------------------
// Columns
// ---------------------------------------------------------------------------

/// The short name of a type.
pub open spec fn normal_type(data_type: Seq<char>) -> Seq<char> {
    if data_type == "character varying"@ {
        "varchar"@
    } else if data_type == "timestamp without time zone"@ {
        "timestamp"@
    } else {
        data_type
    }
}

pub fn normalize_type_name(data_type: &str) -> (r: String)
    ensures
        r@ == normal_type(data_type@),
{
    if same(data_type, "character varying") {
        "varchar".to_owned()
    } else if same(data_type, "timestamp without time zone") {
        "timestamp".to_owned()
    } else {
        data_type.to_owned()
    }
}

/// Whether a type name in small letters is that of a text type.
pub open spec fn is_string_type(low: Seq<char>) -> bool {
    low == "varchar"@ || low == "varchar2"@ || low == "char"@ || low == "nchar"@ || low
        == "nvarchar2"@ || low == "clob"@ || low == "nclob"@ || low == "raw"@
}

/// Whether a type name in small letters is that of a numeric type.
pub open spec fn is_numeric_type(low: Seq<char>) -> bool {
    low == "number"@ || low == "decimal"@ || low == "numeric"@
}

fn is_type_string(low: &str) -> (r: bool)
    ensures
        r == is_string_type(low@),
{
    same(low, "varchar") || same(low, "varchar2") || same(low, "char") || same(low, "nchar")
        || same(low, "nvarchar2") || same(low, "clob") || same(low, "nclob") || same(low, "raw")
}

fn is_type_numeric(low: &str) -> (r: bool)
    ensures
        r == is_numeric_type(low@),
{
    same(low, "number") || same(low, "decimal") || same(low, "numeric")
}

/// The full name of a type, given its normal name in small letters: string types
/// with their length, numeric types with precision and scale, where these are known.
pub open spec fn full_type_with(row: Json, low_type: Seq<char>) -> Seq<char> {
    let data_type = normal_type(or_empty(row.text("data_type"@)));
    let precision = row.int64("numeric_precision"@);
    let scale = row.int64("numeric_scale"@);
    let length = row.int64("char_max_length"@);
    if precision is Some && scale is Some && is_numeric_type(low_type) {
        data_type + "("@ + crate::numbers::dec_int(precision->0 as int) + ","@
            + crate::numbers::dec_int(scale->0 as int) + ")"@
    } else if length is Some && is_string_type(low_type) {
        data_type + "("@ + crate::numbers::dec_int(length->0 as int) + ")"@
    } else {
        data_type
    }
}

fn full_type_name(row: &Value, low_type: &str) -> (r: String)
    ensures
        r@ == full_type_with(row@, low_type@),
{
    let data_type = normalize_type_name(get_text(row, "data_type").as_str());
    let mut full = data_type.clone();
    if let Some(len) = get_i64(row, "char_max_length") {
        if is_type_string(low_type) {
            full = concat4(data_type.as_str(), "(", decimal_signed(len).as_str(), ")");
        }
    }
    if let Some(p) = get_i64(row, "numeric_precision") {
        if let Some(s) = get_i64(row, "numeric_scale") {
            if is_type_numeric(low_type) {
                full =
                concat5(
                    data_type.as_str(),
                    "(",
                    decimal_signed(p).as_str(),
                    ",",
                    decimal_signed(s).as_str(),
                );
                full.push_str(")");
            }
        }
    }
    full
}

/// A default value as SQL: numbers and `NULL` stay bare; other texts are
/// single-quoted, their quotes doubled.
pub open spec fn quoted_default(value: Seq<char>) -> Seq<char> {
    if value.len() == 0 || crate::numbers::is_float_literal(value) || crate::text::ascii_lower(
        value,
    ) == "null"@ {
        value
    } else {
        "'"@ + crate::text::replace(value, "'"@, "''"@) + "'"@
    }
}

/// Numeric and `NULL` defaults stay bare; other string defaults are
/// single-quoted.
pub fn quote_default_value(value: &str) -> (r: String)
    ensures
        r@ == quoted_default(value@),
{
    proof {
        reveal_strlit("'");
    }
    if value.is_empty() || float_literal(value) || same(to_ascii_lower(value).as_str(), "null") {
        return value.to_owned();
    }
    concat3("'", replaced(value, "'", "''").as_str(), "'")
}

/// Whether a default value is the next value of a sequence.
pub open spec fn is_sequence_default(value: Seq<char>) -> bool {
    crate::text::has_suffix(value, ".nextval"@) || crate::text::has_suffix(value, ".NEXTVAL"@)
}

/// The column that a row describes, given the normal name of its type in small
/// letters.
pub open spec fn column_with(
    row: Json,
    column_name: Seq<char>,
    quote_defaults: bool,
    low_type: Seq<char>,
) -> ColumnInfoView {
    let nullable = row.text("is_nullable"@);
    let default_value = row.text("default_value"@);
    let auto_increment = default_value is Some && is_sequence_default(default_value->0);
    ColumnInfoView {
        column_name,
        data_type: full_type_with(row, low_type),
        not_null: Some(
            !(nullable == Some("Y"@) || nullable == Some("YES"@) || nullable == Some("y"@)),
        ),
        auto_increment: Some(auto_increment),
        default_value: match default_value {
            Some(v) => if auto_increment {
                None
            } else if quote_defaults {
                Some(quoted_default(v))
            } else {
                Some(v)
            },
            None => None,
        },
        ..crate::dbinfo::blank_column()
    }
}

/// The column that a row describes.
pub open spec fn column_of(
    row: Json,
    column_name: Seq<char>,
    quote_defaults: bool,
) -> ColumnInfoView {
    column_with(
        row,
        column_name,
        quote_defaults,
        crate::encoding::lowercase(normal_type(or_empty(row.text("data_type"@)))),
    )
}

/// The column that a row describes, given the normal name of its type in small
/// letters.
pub fn column_info_with(
    row: &Value,
    column_name: &str,
    quote_defaults: bool,
    low_type: &str,
) -> (r: ColumnInfo)
    ensures
        r.deep_view() == column_with(row@, column_name@, quote_defaults, low_type@),
{
    let nullable = text_is(row, "is_nullable", "Y") || text_is(row, "is_nullable", "YES")
        || text_is(row, "is_nullable", "y");
    let raw_default = get_str(row, "default_value");
    let auto_increment = match &raw_default {
        Some(v) => ends_with(v.as_str(), ".nextval") || ends_with(v.as_str(), ".NEXTVAL"),
        None => false,
    };
    let default_value = match raw_default {
        Some(v) => if auto_increment {
            None
        } else if quote_defaults {
            Some(quote_default_value(v.as_str()))
        } else {
            Some(v)
        },
        None => None,
    };
    let mut info = ColumnInfo::default();
    info.column_name = column_name.to_owned();
    info.data_type = full_type_name(row, low_type);
    info.not_null = Some(!nullable);
    info.auto_increment = Some(auto_increment);
    info.default_value = default_value;
    info
}

pub fn get_column_info(row: &Value, column_name: &str, quote_defaults: bool) -> (r: ColumnInfo)
    ensures
        r.deep_view() == column_of(row@, column_name@, quote_defaults),
{
    let data_type = normalize_type_name(get_text(row, "data_type").as_str());
    column_info_with(
        row,
        column_name,
        quote_defaults,
        data_type.as_str().to_lowercase().as_str(),
    )
}

/// The rows that belong to an object.
pub open spec fn rows_of(rows: Seq<Json>, pure: Seq<char>) -> Seq<Json> {
    crate::rows::where_text(rows, "pure_name"@, pure)
}

/// The columns of an object.
pub open spec fn columns_of(rows: Seq<Json>, pure: Seq<char>, quote_defaults: bool) -> Seq<
    ColumnInfoView,
> {
    let own = rows_of(rows, pure);
    Seq::new(
        own.len(),
        |i: int| column_of(own[i], or_empty(own[i].text("column_name"@)), quote_defaults),
    )
}

/// The columns of an object.
pub fn collect_columns(columns_rows: &Vec<Value>, pure: &str, quote_defaults: bool) -> (r: Vec<
    ColumnInfo,
>)
    ensures
        r.deep_view() == columns_of(columns_rows.deep_view(), pure@, quote_defaults),
{
    let own = rows_with_text(columns_rows, "pure_name", pure);
    let f = |row: &&Value| -> (c: ColumnInfo)
        ensures
            c.deep_view() == column_of(
                row.deep_view(),
                or_empty(row.deep_view().text("column_name"@)),
                quote_defaults,
            ),
    {
        get_column_info(row, get_text(row, "column_name").as_str(), quote_defaults)
    };
    let r = map_list(&own, f);
    assert(r.deep_view() =~= columns_of(columns_rows.deep_view(), pure@, quote_defaults));
    r
}

// ---------------------------------------------------------------------------
// Keys and indexes
// ---------------------------------------------------------------------------

/// The primary key of a table.
pub open spec fn primary_key(rows: Seq<Json>, pure: Seq<char>) -> Option<PrimaryKeyInfoView> {
    crate::drivers::common::primary_key_of(
        rows_of(rows, pure),
        "constraint_name"@,
        "column_name"@,
    )
}

pub fn build_primary_key(pure: &str, pk_rows: &Vec<Value>) -> (r: Option<PrimaryKeyInfo>)
    ensures
        r.deep_view() == primary_key(pk_rows.deep_view(), pure@),
{
    let own = rows_with_text(pk_rows, "pure_name", pure);
    primary_key_from(&own, "constraint_name", "column_name")
}

/// The keys under which rows describe foreign keys.
pub open spec fn fk_fields() -> ForeignKeyFields<'static> {
    ForeignKeyFields {
        constraint_name: "constraint_name",
        column_name: "column_name",
        ref_column_name: "ref_column_name",
        ref_schema_name: None,
        ref_table_name: "ref_table_name",
        update_action: Some("update_action"),
        delete_action: Some("delete_action"),
        is_descending: None,
        empty_actions: true,
    }
}

/// The foreign keys of a table.
pub open spec fn foreign_keys(rows: Seq<Json>, pure: Seq<char>) -> Seq<ForeignKeyInfoView> {
    crate::drivers::common::foreign_keys_of(rows_of(rows, pure), fk_fields())
}

pub fn build_foreign_keys(pure: &str, fk_rows: &Vec<Value>) -> (r: Vec<ForeignKeyInfo>)
    ensures
        r.deep_view() == foreign_keys(fk_rows.deep_view(), pure@),
{
    let own = rows_with_text(fk_rows, "pure_name", pure);
    let fields = ForeignKeyFields {
        constraint_name: "constraint_name",
        column_name: "column_name",
        ref_column_name: "ref_column_name",
        ref_schema_name: None,
        ref_table_name: "ref_table_name",
        update_action: Some("update_action"),
        delete_action: Some("delete_action"),
        is_descending: None,
        empty_actions: true,
    };
    foreign_keys_from(&own, &fields)
}

/// The column of an index row, ascending unless the row says otherwise.
pub open spec fn index_column(row: Json) -> ColumnReferenceView {
    ColumnReferenceView {
        column_name: or_empty(row.text("columnName"@)),
        ref_column_name: None,
        is_included_column: None,
        is_descending: Some(row.text("descending"@) == Some("DESC"@)),
    }
}

/// The name of the index that a row describes.
pub open spec fn index_name(row: Json) -> Seq<char> {
    or_empty(row.text("constraintName"@))
}

/// Whether an index was made by the system for a constraint.
pub open spec fn is_system_index(row: Json) -> bool {
    crate::text::has_prefix(index_name(row), "SYS_C"@)
}

/// The index that a row describes, where it is not the system's and its name is
/// not that of a unique constraint.
pub open spec fn as_index(row: Json, unique_names: Seq<Seq<char>>) -> Option<IndexInfoView> {
    if is_system_index(row) || unique_names.contains(index_name(row)) {
        None
    } else {
        Some(
            IndexInfoView {
                columns_constraint: crate::drivers::common::over_columns(
                    ConstraintType::Index,
                    Some(index_name(row)),
                    seq![index_column(row)],
                ),
                is_unique: row.text("Unique"@) == Some("UNIQUE"@),
                index_type: row.text("indexType"@),
                filter_definition: None,
            },
        )
    }
}

/// The unique constraint that a row describes, where it is not the system's and
/// its name is that of one.
pub open spec fn as_unique(row: Json, unique_names: Seq<Seq<char>>) -> Option<UniqueInfoView> {
    if !is_system_index(row) && unique_names.contains(index_name(row)) {
        Some(
            UniqueInfoView {
                columns_constraint: crate::drivers::common::over_columns(
                    ConstraintType::Unique,
                    Some(index_name(row)),
                    seq![index_column(row)],
                ),
            },
        )
    } else {
        None
    }
}

/// The indexes among some index rows.
pub open spec fn indexes_of(rows: Seq<Json>, unique_names: Seq<Seq<char>>) -> Seq<IndexInfoView> {
    crate::rows::pick(rows, |r: Json| as_index(r, unique_names))
}

/// The unique constraints among some index rows.
pub open spec fn uniques_of(rows: Seq<Json>, unique_names: Seq<Seq<char>>) -> Seq<UniqueInfoView> {
    crate::rows::pick(rows, |r: Json| as_unique(r, unique_names))
}

/// Each index row becomes an index or a unique constraint, and never both; those
/// of the system become neither.
pub proof fn law_index_or_unique(rows: Seq<Json>, unique_names: Seq<Seq<char>>)
    ensures
        indexes_of(rows, unique_names).len() + uniques_of(rows, unique_names).len()
            == crate::rows::select(rows, |r: Json| !is_system_index(r)).len(),
    decreases rows.len(),
{
    if rows.len() > 0 {
        law_index_or_unique(rows.drop_last(), unique_names);
    }
}

pub fn build_indexes_and_uniques(
    pure: &str,
    index_rows: &Vec<Value>,
    unique_names: &Vec<String>,
) -> (r: (Vec<IndexInfo>, Vec<UniqueInfo>))
    ensures
        r.0.deep_view() == indexes_of(
            crate::rows::where_text(index_rows.deep_view(), "tableName"@, pure@),
            unique_names.deep_view(),
        ),
        r.1.deep_view() == uniques_of(
            crate::rows::where_text(index_rows.deep_view(), "tableName"@, pure@),
            unique_names.deep_view(),
        ),
{
    let own = rows_with_text(index_rows, "tableName", pure);
    let ghost all = own.deep_view();
    let ghost names = unique_names.deep_view();
    let mut indexes: Vec<IndexInfo> = new_list();
    let mut uniques: Vec<UniqueInfo> = new_list();
    let mut i: usize = 0;
    while i < own.len()
        invariant
            i <= own@.len(),
            all == own.deep_view(),
            names == unique_names.deep_view(),
            indexes.deep_view() == indexes_of(all.take(i as int), names),
            uniques.deep_view() == uniques_of(all.take(i as int), names),
        decreases own@.len() - i,
    {
        proof {
            crate::rows::lemma_take_next(all, i as int);
        }
        let idx: &Value = own[i];
        let name = get_text(idx, "constraintName");
        if !starts_with(name.as_str(), "SYS_C") {
            let columns = list_of_one(
                ColumnReference {
                    column_name: get_text(idx, "columnName"),
                    ref_column_name: None,
                    is_included_column: None,
                    is_descending: Some(text_is(idx, "descending", "DESC")),
                },
            );
            if list_has(unique_names, name.as_str()) {
                push_item(
                    &mut uniques,
                    UniqueInfo {
                        columns_constraint: constraint_over(
                            ConstraintType::Unique,
                            Some(name),
                            columns,
                        ),
                    },
                );
            } else {
                push_item(
                    &mut indexes,
                    IndexInfo {
                        columns_constraint: constraint_over(
                            ConstraintType::Index,
                            Some(name),
                            columns,
                        ),
                        is_unique: text_is(idx, "Unique", "UNIQUE"),
                        index_type: get_str(idx, "indexType"),
                        filter_definition: None,
                    },
                );
            }
        }
        i = i + 1;
    }
    proof {
        crate::rows::lemma_take_all(all);
    }
    (indexes, uniques)
}

// ---------------------------------------------------------------------------
// Full analysis
// ---------------------------------------------------------------------------

/// The parameter that a row describes.
pub open spec fn parameter_of(row: Json) -> ParameterInfoView {
    ParameterInfoView {
        parameter_name: or_empty(row.text("parameter_name"@)),
        data_type: normal_type(or_empty(row.text("data_type"@))),
        parameter_mode: Some(
            crate::drivers::common::mode_named(row.text("parameter_mode"@)),
        ),
        position: row.int64("ordinal_position"@),
    }
}

/// The parameters of a routine.
pub open spec fn parameters_of(rows: Seq<Json>, pure: Seq<char>) -> Seq<ParameterInfoView> {
    let own = rows_of(rows, pure);
    Seq::new(own.len(), |i: int| parameter_of(own[i]))
}

pub fn build_parameters(pure: &str, param_rows: &Vec<Value>) -> (r: Vec<ParameterInfo>)
    ensures
        r.deep_view() == parameters_of(param_rows.deep_view(), pure@),
{
    let own = rows_with_text(param_rows, "pure_name", pure);
    let f = |row: &&Value| -> (p: ParameterInfo)
        ensures
            p.deep_view() == parameter_of(row.deep_view()),
    {
        ParameterInfo {
            parameter_name: get_text(row, "parameter_name"),
            data_type: normalize_type_name(get_text(row, "data_type").as_str()),
            parameter_mode: Some(parameter_mode(row, "parameter_mode")),
            position: get_i64(row, "ordinal_position"),
        }
    };
    let r = map_list(&own, f);
    assert(r.deep_view() =~= parameters_of(param_rows.deep_view(), pure@));
    r
}

/// The rows of the queries of a full analysis.
pub struct OracleCatalog {
    pub tables: Vec<Value>,
    pub columns: Vec<Value>,
    pub primary_keys: Vec<Value>,
    pub foreign_keys: Vec<Value>,
    pub indexes: Vec<Value>,
    pub views: Vec<Value>,
    pub routines: Vec<Value>,
    pub parameters: Vec<Value>,
    pub triggers: Vec<Value>,
    pub unique_names: Vec<Value>,
}

/// What a [`OracleCatalog`] holds.
pub struct OracleCatalogView {
    pub tables: Seq<Json>,
    pub columns: Seq<Json>,
    pub primary_keys: Seq<Json>,
    pub foreign_keys: Seq<Json>,
    pub indexes: Seq<Json>,
    pub views: Seq<Json>,
    pub routines: Seq<Json>,
    pub parameters: Seq<Json>,
    pub triggers: Seq<Json>,
    pub unique_names: Seq<Json>,
}

impl DeepView for OracleCatalog {
    type V = OracleCatalogView;

    open spec fn deep_view(&self) -> OracleCatalogView {
        OracleCatalogView {
            tables: self.tables.deep_view(),
            columns: self.columns.deep_view(),
            primary_keys: self.primary_keys.deep_view(),
            foreign_keys: self.foreign_keys.deep_view(),
            indexes: self.indexes.deep_view(),
            views: self.views.deep_view(),
            routines: self.routines.deep_view(),
            parameters: self.parameters.deep_view(),
            triggers: self.triggers.deep_view(),
            unique_names: self.unique_names.deep_view(),
        }
    }
}

/// The object that a row of a catalog query describes.
pub open spec fn object_in(
    row: Json,
    id: Seq<char>,
    hash: Option<Seq<char>>,
) -> DatabaseObjectInfoView {
    DatabaseObjectInfoView {
        pure_name: pure_in(row),
        schema_name: None,
        pairing_id: None,
        object_id: Some(id),
        create_date: None,
        modify_date: row.text("modify_date"@),
        hash_code: hash,
        object_type_field: None,
        object_comment: row.text("object_comment"@),
    }
}

pub fn db_table_object(row: &Value, object_id: String, content_hash: Option<String>) -> (r:
    DatabaseObjectInfo)
    ensures
        r.deep_view() == object_in(row@, object_id@, content_hash.deep_view()),
{
    DatabaseObjectInfo {
        pure_name: get_text(row, "pure_name"),
        schema_name: None,
        pairing_id: None,
        object_id: Some(object_id),
        create_date: None,
        modify_date: get_str(row, "modify_date"),
        hash_code: content_hash,
        object_type_field: None,
        object_comment: get_str(row, "object_comment"),
    }
}

/// The name that a row gives, empty where it gives none.
pub open spec fn pure_in(row: Json) -> Seq<char> {
    or_empty(row.text("pure_name"@))
}

/// The table that a row of the table query describes, with the id `key`.
pub open spec fn table_of(row: Json, key: Seq<char>, c: OracleCatalogView) -> TableInfoView {
    let pure = pure_in(row);
    let unique_names = crate::rows::texts_under(c.unique_names, "constraintName"@);
    let index_rows = crate::rows::where_text(c.indexes, "tableName"@, pure);
    TableInfoView {
        object: object_in(row, key, row.text("hash_code"@)),
        columns: columns_of(c.columns, pure, true),
        primary_key: primary_key(c.primary_keys, pure),
        sorting_key: None,
        foreign_keys: Some(foreign_keys(c.foreign_keys, pure)),
        dependencies: None,
        indexes: Some(indexes_of(index_rows, unique_names)),
        uniques: Some(uniques_of(index_rows, unique_names)),
        checks: None,
        table_row_count: row.int64("table_row_count"@),
        table_engine: None,
    }
}

fn build_table(row: &Value, key: String, catalog: &OracleCatalog) -> (r: TableInfo)
    ensures
        r.deep_view() == table_of(row@, key@, catalog.deep_view()),
{
    let pure = get_text(row, "pure_name");
    let unique_names = collect_texts(&catalog.unique_names, "constraintName");
    let (indexes, uniques) = build_indexes_and_uniques(
        pure.as_str(),
        &catalog.indexes,
        &unique_names,
    );
    TableInfo {
        object: db_table_object(row, key, get_str(row, "hash_code")),
        columns: collect_columns(&catalog.columns, pure.as_str(), true),
        primary_key: build_primary_key(pure.as_str(), &catalog.primary_keys),
        sorting_key: None,
        foreign_keys: Some(build_foreign_keys(pure.as_str(), &catalog.foreign_keys)),
        dependencies: None,
        indexes: Some(indexes),
        uniques: Some(uniques),
        checks: None,
        table_row_count: get_i64(row, "table_row_count"),
        table_engine: None,
    }
}

/// The view that a row describes.
pub open spec fn view_of(row: Json, c: OracleCatalogView) -> ViewInfoView {
    let pure = pure_in(row);
    ViewInfoView {
        object: crate::drivers::common::sql_object_with(
            object_in(row, id_of("views"@, pure), row.text("hash_code"@)),
            match row.text("create_sql"@) {
                Some(v) => Some("CREATE VIEW \""@ + pure + "\"\nAS\n"@ + v),
                None => None,
            },
        ),
        columns: columns_of(c.columns, pure, true),
    }
}

fn analyse_view_row(row: &Value, catalog: &OracleCatalog) -> (r: ViewInfo)
    ensures
        r.deep_view() == view_of(row@, catalog.deep_view()),
{
    let pure = get_text(row, "pure_name");
    let create_sql = match get_str(row, "create_sql") {
        Some(v) => Some(concat4("CREATE VIEW \"", pure.as_str(), "\"\nAS\n", v.as_str())),
        None => None,
    };
    let key = object_id("views", pure.as_str());
    ViewInfo {
        object: sql_object(db_table_object(row, key, get_str(row, "hash_code")), create_sql),
        columns: collect_columns(&catalog.columns, pure.as_str(), true),
    }
}

/// Whether a routine row describes a procedure.
pub open spec fn is_procedure(row: Json) -> bool {
    row.text("object_type"@) == Some("PROCEDURE"@)
}

/// The routine that a row describes, its source between SQL*Plus terminators.
pub open spec fn callable_of(row: Json, param_rows: Seq<Json>) -> CallableObjectInfoView {
    let pure = pure_in(row);
    let params = parameters_of(param_rows, pure);
    let kind = if is_procedure(row) {
        "procedures"@
    } else {
        "functions"@
    };
    CallableObjectInfoView {
        object: crate::drivers::common::sql_object_with(
            object_in(row, id_of(kind, pure), row.text("hash_code"@)),
            Some("SET SQLTERMINATOR \"/\"\n"@ + or_empty(row.text("source_code"@)) + "\n/\n"@),
        ),
        parameters: if params.len() == 0 {
            None
        } else {
            Some(params)
        },
    }
}

fn analyse_routine_row(row: &Value, param_rows: &Vec<Value>) -> (r: CallableObjectInfo)
    ensures
        r.deep_view() == callable_of(row@, param_rows.deep_view()),
{
    let pure = get_text(row, "pure_name");
    let params = build_parameters(pure.as_str(), param_rows);
    let kind = if text_is(row, "object_type", "PROCEDURE") {
        "procedures"
    } else {
        "functions"
    };
    let create_sql = concat3(
        "SET SQLTERMINATOR \"/\"\n",
        get_text(row, "source_code").as_str(),
        "\n/\n",
    );
    let key = object_id(kind, pure.as_str());
    CallableObjectInfo {
        object: sql_object(db_table_object(row, key, get_str(row, "hash_code")), Some(create_sql)),
        parameters: if params.len() == 0 {
            None
        } else {
            Some(params)
        },
    }
}

/// The procedures among routine rows.
pub open spec fn procedures_of(rows: Seq<Json>, param_rows: Seq<Json>) -> Seq<ProcedureInfoView> {
    crate::rows::pick(
        rows,
        |r: Json|
            if is_procedure(r) {
                Some(ProcedureInfoView { callable: callable_of(r, param_rows) })
            } else {
                None
            },
    )
}

/// The functions among routine rows.
pub open spec fn functions_of(rows: Seq<Json>, param_rows: Seq<Json>) -> Seq<FunctionInfoView> {
    crate::rows::pick(
        rows,
        |r: Json|
            if is_procedure(r) {
                None
            } else {
                Some(
                    FunctionInfoView {
                        callable: callable_of(r, param_rows),
                        return_type: None,
                    },
                )
            },
    )
}

/// Each routine row becomes a procedure or a function, and never both.
pub proof fn law_procedure_or_function(rows: Seq<Json>, param_rows: Seq<Json>)
    ensures
        procedures_of(rows, param_rows).len() + functions_of(rows, param_rows).len() == rows.len(),
    decreases rows.len(),
{
    if rows.len() > 0 {
        law_procedure_or_function(rows.drop_last(), param_rows);
    }
}

fn analyse_routines(rows: &Vec<Value>, param_rows: &Vec<Value>) -> (r: (
    Vec<ProcedureInfo>,
    Vec<FunctionInfo>,
))
    ensures
        r.0.deep_view() == procedures_of(rows.deep_view(), param_rows.deep_view()),
        r.1.deep_view() == functions_of(rows.deep_view(), param_rows.deep_view()),
{
    let ghost all = rows.deep_view();
    let ghost params = param_rows.deep_view();
    let mut procedures: Vec<ProcedureInfo> = new_list();
    let mut functions: Vec<FunctionInfo> = new_list();
    let mut i: usize = 0;
    while i < rows.len()
        invariant
            i <= rows@.len(),
            all == rows.deep_view(),
            params == param_rows.deep_view(),
            procedures.deep_view() == procedures_of(all.take(i as int), params),
            functions.deep_view() == functions_of(all.take(i as int), params),
        decreases rows@.len() - i,
    {
        proof {
            crate::rows::lemma_take_next(all, i as int);
        }
        let row = &rows[i];
        let callable = analyse_routine_row(row, param_rows);
        if text_is(row, "object_type", "PROCEDURE") {
            push_item(&mut procedures, ProcedureInfo { callable });
        } else {
            push_item(
                &mut functions,
                FunctionInfo { callable, return_type: None },
            );
        }
        i = i + 1;
    }
    proof {
        crate::rows::lemma_take_all(all);
    }
    (procedures, functions)
}

/// The event that a text in capital letters names.
pub open spec fn event_in(up: Seq<char>) -> Option<TriggerEventType> {
    if up == "INSERT"@ {
        Some(TriggerEventType::Insert)
    } else if up == "UPDATE"@ {
        Some(TriggerEventType::Update)
    } else if up == "DELETE"@ {
        Some(TriggerEventType::Delete)
    } else {
        None
    }
}

fn trigger_event(upper: &str) -> (r: Option<TriggerEventType>)
    ensures
        r == event_in(upper@),
{
    if same(upper, "INSERT") {
        Some(TriggerEventType::Insert)
    } else if same(upper, "UPDATE") {
        Some(TriggerEventType::Update)
    } else if same(upper, "DELETE") {
        Some(TriggerEventType::Delete)
    } else {
        None
    }
}

/// The trigger that a row describes, given its timing and its event in capital
/// letters.
pub open spec fn trigger_with(
    row: Json,
    upper_timing: Seq<char>,
    upper_event: Seq<char>,
) -> TriggerInfoView {
    let name = or_empty(row.text("trigger_name"@));
    let table = or_empty(row.text("table_name"@));
    let timing = or_empty(row.text("trigger_timing"@));
    let event = or_empty(row.text("event_type"@));
    let id = Some("triggers:"@ + name);
    TriggerInfoView {
        object: crate::drivers::common::sql_object_with(
            crate::drivers::common::object_with(name, None, id, id),
            Some(
                "SET SQLTERMINATOR \"/\"\nCREATE TRIGGER \""@ + name + "\" "@ + timing + " "@
                    + event + " ON \""@ + table + "\" FOR EACH ROW "@ + or_empty(
                    row.text("definition"@),
                ) + "\n/\n"@,
            ),
        ),
        function_name: None,
        table_name: Some(table),
        trigger_timing: Some(crate::drivers::common::timing_in(upper_timing)),
        event_type: event_in(upper_event),
    }
}

/// The trigger that a row describes.
pub open spec fn trigger_of(row: Json) -> TriggerInfoView {
    trigger_with(
        row,
        crate::encoding::uppercase(or_empty(row.text("trigger_timing"@))),
        crate::encoding::uppercase(or_empty(row.text("event_type"@))),
    )
}

/// The trigger that a row describes, given its timing and its event in capital
/// letters.
pub fn trigger_info_with(row: &Value, upper_timing: &str, upper_event: &str) -> (r: TriggerInfo)
    ensures
        r.deep_view() == trigger_with(row@, upper_timing@, upper_event@),
{
    let name = get_text(row, "trigger_name");
    let table = get_text(row, "table_name");
    let timing = get_text(row, "trigger_timing");
    let event = get_text(row, "event_type");
    let mut create_sql = concat5(
        "SET SQLTERMINATOR \"/\"\nCREATE TRIGGER \"",
        name.as_str(),
        "\" ",
        timing.as_str(),
        " ",
    );
    create_sql.push_str(event.as_str());
    create_sql.push_str(" ON \"");
    create_sql.push_str(table.as_str());
    create_sql.push_str("\" FOR EACH ROW ");
    create_sql.push_str(get_text(row, "definition").as_str());
    create_sql.push_str("\n/\n");
    let id = concat2("triggers:", name.as_str());
    let object = object_info(name, None, Some(id.clone()), Some(id));
    TriggerInfo {
        object: sql_object(object, Some(create_sql)),
        function_name: None,
        table_name: Some(table),
        trigger_timing: Some(trigger_timing(upper_timing)),
        event_type: trigger_event(upper_event),
    }
}

fn analyse_trigger_row(row: &Value) -> (r: TriggerInfo)
    ensures
        r.deep_view() == trigger_of(row@),
{
    trigger_info_with(
        row,
        get_text(row, "trigger_timing").as_str().to_uppercase().as_str(),
        get_text(row, "event_type").as_str().to_uppercase().as_str(),
    )
}

/// The structure of the database that the catalog describes.
pub open spec fn database_of(c: OracleCatalogView) -> DatabaseInfoView {
    DatabaseInfoView {
        tables: Seq::new(
            c.tables.len(),
            |i: int| table_of(c.tables[i], id_of("tables"@, pure_in(c.tables[i])), c),
        ),
        views: Seq::new(c.views.len(), |i: int| view_of(c.views[i], c)),
        procedures: procedures_of(c.routines, c.parameters),
        functions: functions_of(c.routines, c.parameters),
        triggers: Seq::new(c.triggers.len(), |i: int| trigger_of(c.triggers[i])),
        ..crate::dbinfo::empty_database()
    }
}

/// The full structure of a database, from the rows of the analysis queries.
pub fn analyse_oracle_full(catalog: &OracleCatalog) -> (r: DatabaseInfo)
    ensures
        r.deep_view() == database_of(catalog.deep_view()),
{
    let ghost c = catalog.deep_view();
    let table_row = |row: &Value| -> (t: TableInfo)
        ensures
            t.deep_view() == table_of(
                row@,
                id_of("tables"@, pure_in(row@)),
                catalog.deep_view(),
            ),
    {
        let key = object_id("tables", get_text(row, "pure_name").as_str());
        build_table(row, key, catalog)
    };
    let tables = map_list(&catalog.tables, table_row);
    let view_row = |row: &Value| -> (v: ViewInfo)
        ensures
            v.deep_view() == view_of(row@, catalog.deep_view()),
    {
        analyse_view_row(row, catalog)
    };
    let views = map_list(&catalog.views, view_row);
    let (procedures, functions) = analyse_routines(&catalog.routines, &catalog.parameters);
    let trigger_row = |row: &Value| -> (t: TriggerInfo)
        ensures
            t.deep_view() == trigger_of(row@),
    {
        analyse_trigger_row(row)
    };
    let triggers = map_list(&catalog.triggers, trigger_row);
    proof {
        assert(tables.deep_view() =~= database_of(c).tables);
        assert(views.deep_view() =~= database_of(c).views);
        assert(triggers.deep_view() =~= database_of(c).triggers);
    }
    let mut info = DatabaseInfo::default();
    info.tables = tables;
    info.views = views;
    info.procedures = procedures;
    info.functions = functions;
    info.triggers = triggers;
    info
}

/// The structure of one table, from the rows of the table queries: that of the
/// first table row. Fields of the catalog that hold other rows are not read.
pub fn analyse_oracle_table(name: &NamedObjectInfo, catalog: &OracleCatalog) -> (r: DbgmResult<
    TableInfo,
>)
    ensures
        ({
            let key = id_of("tables"@, name.pure_name@);
            let c = catalog.deep_view();
            match r {
                Ok(t) => c.tables.len() > 0 && t.deep_view() == table_of(c.tables[0], key, c),
                Err(e) => c.tables.len() == 0 && e.deep_view() == crate::error::generic_error(
                    "Table not found: "@ + key,
                ),
            }
        }),
{
    let key = object_id("tables", name.pure_name.as_str());
    if catalog.tables.len() == 0 {
        return Err(DbgmError::new(concat2("Table not found: ", key.as_str())));
    }
    Ok(build_table(&catalog.tables[0], key, catalog))
}

// ---------------------------------------------------------------------------
// Laws
// ---------------------------------------------------------------------------

/// The client is told the server and the port of the definition, in this order with a colon
/// between them; the port 1521 only where it has none. A definition by URL is told its URL.
pub proof fn law_connect_string(def: ConnectionDefinitionView, server: Seq<char>)
    requires
        def.server == Some(server),
    ensures
        def.auth_type != Some("url"@) ==> {
            &&& def.port matches Some(p) ==> connect_string_of(def) == server + ":"@
                + crate::numbers::dec(p as nat)
            &&& def.port is None ==> connect_string_of(def) == server + ":1521"@
        },
        def.auth_type == Some("url"@) ==> (def.database matches Some(d) ==> connect_string_of(def)
            == d),
{
    reveal_strlit(":1521");
    reveal_strlit(":");
    reveal_with_fuel(crate::numbers::dec, 5);
    assert(crate::numbers::dec(1521) =~= seq!['1', '5', '2', '1']);
    assert(server + ":"@ + crate::numbers::dec(1521) =~= server + ":1521"@);
}

/// One semicolon at the end is taken off a statement, with the whitespace around it; the rest
/// of the statement stays.
pub proof fn law_executable(sql: Seq<char>, space: Seq<char>)
    requires
        sql.len() > 0,
        !crate::text::is_space(sql.last()),
        sql.last() != ';',
        forall|i: int| 0 <= i < space.len() ==> crate::text::is_space(#[trigger] space[i]),
    ensures
        executable(sql) == sql,
        executable(sql + space) == sql,
        executable(sql + seq![';'] + space) == sql,
{
    lemma_trim_end(sql, space);
    lemma_trim_end(sql + seq![';'], space);
    assert(sql + Seq::<char>::empty() =~= sql);
    lemma_trim_end(sql, Seq::empty());
    assert((sql + seq![';']).drop_last() =~= sql);
}

proof fn lemma_trim_end(s: Seq<char>, space: Seq<char>)
    requires
        s.len() > 0,
        !crate::text::is_space(s.last()),
        forall|i: int| 0 <= i < space.len() ==> crate::text::is_space(#[trigger] space[i]),
    ensures
        crate::text::trim_end(s + space) == s,
    decreases space.len(),
{
    let t = s + space;
    if space.len() > 0 {
        assert(crate::text::is_space(space[space.len() - 1]));
        assert(t.last() == space.last());
        assert(t.drop_last() =~= s + space.drop_last());
        assert forall|i: int| 0 <= i < space.drop_last().len() implies crate::text::is_space(
            #[trigger] space.drop_last()[i],
        ) by {
            assert(space.drop_last()[i] == space[i]);
        }
        lemma_trim_end(s, space.drop_last());
    } else {
        assert(t =~= s);
    }
}

/// A moment is written as year, month, day, hour, minute and second: each number is read
/// back from its place.
pub proof fn law_timestamp(year: i16, month: u8, day: u8, hour: u8, minute: u8, second: u8)
    requires
        0 <= year < 10000,
        month < 100,
        day < 100,
        hour < 100,
        minute < 100,
        second < 100,
    ensures
        ({
            let s = iso_form(year, month, day, hour, minute, second);
            &&& s.len() == 19
            &&& s[4] == '-' && s[7] == '-' && s[10] == 'T' && s[13] == ':' && s[16] == ':'
            &&& (s[0] as int - '0' as int) * 1000 + (s[1] as int - '0' as int) * 100 + (s[2] as int
                - '0' as int) * 10 + (s[3] as int - '0' as int) == year
            &&& (s[5] as int - '0' as int) * 10 + (s[6] as int - '0' as int) == month
            &&& (s[8] as int - '0' as int) * 10 + (s[9] as int - '0' as int) == day
            &&& (s[11] as int - '0' as int) * 10 + (s[12] as int - '0' as int) == hour
            &&& (s[14] as int - '0' as int) * 10 + (s[15] as int - '0' as int) == minute
            &&& (s[17] as int - '0' as int) * 10 + (s[18] as int - '0' as int) == second
        }),
{
    reveal_strlit("-");
    reveal_strlit("T");
    reveal_strlit(":");
    crate::numbers::law_four_digits(year as nat);
    crate::numbers::law_two_digits(month as nat);
    crate::numbers::law_two_digits(day as nat);
    crate::numbers::law_two_digits(hour as nat);
    crate::numbers::law_two_digits(minute as nat);
    crate::numbers::law_two_digits(second as nat);
    let y = crate::numbers::padded(year as nat, 4);
    let m = crate::numbers::padded(month as nat, 2);
    let d = crate::numbers::padded(day as nat, 2);
    let h = crate::numbers::padded(hour as nat, 2);
    let n = crate::numbers::padded(minute as nat, 2);
    let c = crate::numbers::padded(second as nat, 2);
    assert(crate::numbers::padded_int(year as int, 4) == y);
    assert(iso_form(year, month, day, hour, minute, second) =~= seq![
        y[0], y[1], y[2], y[3], '-', m[0], m[1], '-', d[0], d[1], 'T', h[0], h[1], ':', n[0], n[1],
        ':', c[0], c[1],
    ]);
}

/// A cell is read by the type of its column: moments as texts in their order, numbers as the
/// texts of the client, truth values as truth values; where there is no cell it is null.
pub proof fn law_cells(
    t: OracleType,
    kind: CellKind,
    year: i16,
    month: u8,
    day: u8,
    hour: u8,
    minute: u8,
    second: u8,
    b: bool,
    d: u64,
    is_text: bool,
)
    ensures
        t is Date || t is Timestamp || t is TimestampLtz || t is TimestampTz ==> cell_json(
            kind_of(t, is_text),
            Some(OracleCell::Timestamp(year, month, day, hour, minute, second)),
        ) == Json::Str(iso_form(year, month, day, hour, minute, second)),
        t is Boolean ==> cell_json(kind_of(t, false), Some(OracleCell::Bool(b))) == Json::Bool(b),
        t is BinaryDouble || t is BinaryFloat ==> cell_json(
            kind_of(t, false),
            Some(OracleCell::Double(d)),
        ) == crate::encoding::double_json(d),
        cell_json(kind, None) == Json::Null,
{
}

/// Text columns give texts, numbers the texts of the client, byte columns binary values.
pub proof fn law_text_cells(t: OracleType, s: String, b: Vec<u8>, is_text: bool)
    ensures
        t is Raw || t is LongRaw || t is Blob ==> cell_json(
            kind_of(t, is_text),
            Some(OracleCell::Bytes(b)),
        ) == crate::encoding::binary_json(b@),
        t is Number ==> cell_json(kind_of(t, false), Some(OracleCell::Number(s))) == Json::Str(s@),
        t is Number || t is Boolean || t is BinaryDouble ==> cell_json(
            kind_of(t, true),
            Some(OracleCell::Text(s)),
        ) == Json::Str(s@),
{
}

/// A row is read by the names of its columns.
pub proof fn law_row(columns: Seq<OracleColumn>, cells: Seq<Option<OracleCell>>, i: int)
    requires
        columns.len() == cells.len(),
        0 <= i < columns.len(),
        forall|j: int| i < j < columns.len() ==> (#[trigger] columns[j]).name@ != columns[i].name@,
    ensures
        row_json(columns, cells).get(columns[i].name@) == Some(
            cell_json(kind_of(columns[i].db_type, columns[i].is_string_type), cells[i]),
        ),
{
    let names = Seq::new(columns.len(), |i: int| columns[i].name@);
    let values = Seq::new(
        columns.len(),
        |i: int| cell_json(kind_of(columns[i].db_type, columns[i].is_string_type), cells[i]),
    );
    let other = crate::value::lemma_absent_name(names);
    crate::value::law_row_object(names, values, i, other);
}

/// A column says what its row says: it takes null exactly where the row says `Y` or `YES`, and
/// it counts up where its default value is the next of a sequence, and has none then.
pub proof fn law_column(row: Json, name: Seq<char>, quote: bool, low_type: Seq<char>)
    ensures
        ({
            let c = column_with(row, name, quote, low_type);
            &&& c.column_name == name
            &&& row.text("is_nullable"@) == Some("Y"@) ==> c.not_null == Some(false)
            &&& row.text("is_nullable"@) == Some("YES"@) ==> c.not_null == Some(false)
            &&& row.text("is_nullable"@) == Some("N"@) ==> c.not_null == Some(true)
            &&& row.text("is_nullable"@) == Some("NO"@) ==> c.not_null == Some(true)
            &&& row.text("is_nullable"@) is None ==> c.not_null == Some(true)
            &&& row.text("default_value"@) matches Some(d) ==> {
                let next = crate::text::has_suffix(d, ".nextval"@) || crate::text::has_suffix(
                    d,
                    ".NEXTVAL"@,
                );
                &&& next ==> c.auto_increment == Some(true) && c.default_value is None
                &&& !next ==> c.auto_increment == Some(false) && c.default_value is Some
                &&& !next && !quote ==> c.default_value == Some(d)
            }
            &&& row.text("default_value"@) is None ==> c.auto_increment == Some(false)
                && c.default_value is None
        }),
{
    reveal_strlit("Y");
    reveal_strlit("YES");
    reveal_strlit("y");
    reveal_strlit("N");
    reveal_strlit("NO");
    assert("Y"@.len() == 1);
    assert("YES"@.len() == 3);
    assert("y"@.len() == 1);
    assert("N"@.len() == 1);
    assert("NO"@.len() == 2);
    assert("Y"@[0] == 'Y');
    assert("y"@[0] == 'y');
    assert("N"@[0] == 'N');
}

/// The type of a column: numbers with precision and scale, in this order; texts with their
/// length; others bare.
pub proof fn law_column_type(row: Json, low: Seq<char>, t: Seq<char>, p: i64, s: i64, n: i64)
    requires
        row.int64("numeric_precision"@) == Some(p),
        row.int64("numeric_scale"@) == Some(s),
        row.int64("char_max_length"@) == Some(n),
        row.text("data_type"@) == Some(t),
        t == "NUMBER"@ || t == "VARCHAR2"@ || t == "DATE"@,
    ensures
        low == "number"@ || low == "decimal"@ || low == "numeric"@ ==> full_type_with(row, low) == t
            + "("@ + crate::numbers::dec_int(p as int) + ","@ + crate::numbers::dec_int(s as int)
            + ")"@,
        low == "varchar2"@ || low == "varchar"@ || low == "char"@ || low == "nchar"@ || low
            == "nvarchar2"@ || low == "clob"@ || low == "nclob"@ || low == "raw"@
            ==> full_type_with(row, low) == t + "("@ + crate::numbers::dec_int(n as int) + ")"@,
        low == "date"@ ==> full_type_with(row, low) == t,
{
    reveal_strlit("number");
    reveal_strlit("decimal");
    reveal_strlit("numeric");
    reveal_strlit("varchar");
    reveal_strlit("varchar2");
    reveal_strlit("char");
    reveal_strlit("nchar");
    reveal_strlit("nvarchar2");
    reveal_strlit("clob");
    reveal_strlit("nclob");
    reveal_strlit("raw");
    reveal_strlit("date");
    assert("number"@.len() == 6);
    assert("decimal"@.len() == 7);
    assert("numeric"@.len() == 7);
    assert("varchar"@.len() == 7);
    assert("varchar2"@.len() == 8);
    assert("char"@.len() == 4);
    assert("nchar"@.len() == 5);
    assert("nvarchar2"@.len() == 9);
    assert("clob"@.len() == 4);
    assert("nclob"@.len() == 5);
    assert("raw"@.len() == 3);
    assert("date"@.len() == 4);
    assert("decimal"@[0] == 'd');
    assert("numeric"@[0] == 'n');
    assert("varchar"@[0] == 'v');
    assert("char"@[0] == 'c' && "char"@[1] == 'h');
    assert("nchar"@[2] == 'h');
    assert("clob"@[0] == 'c' && "clob"@[1] == 'l');
    assert("nclob"@[2] == 'l');
    assert("date"@[0] == 'd');
    reveal_strlit("NUMBER");
    reveal_strlit("VARCHAR2");
    reveal_strlit("DATE");
    reveal_strlit("character varying");
    reveal_strlit("timestamp without time zone");
    assert("NUMBER"@.len() == 6);
    assert("VARCHAR2"@.len() == 8);
    assert("DATE"@.len() == 4);
    assert("character varying"@.len() == 17);
    assert("timestamp without time zone"@.len() == 27);
}

/// A default value that is a number or null is shown bare, as is an empty one; every other is
/// shown between single quotes with its own quotes doubled.
pub proof fn law_default_value(v: Seq<char>)
    ensures
        crate::numbers::is_float_literal(v) ==> quoted_default(v) == v,
        v.len() == 0 ==> quoted_default(v) == v,
        crate::text::ascii_lower(v) == "null"@ ==> quoted_default(v) == v,
        v.len() > 0 && !crate::numbers::is_float_literal(v) && crate::text::ascii_lower(v)
            != "null"@ ==> {
            &&& quoted_default(v)[0] == '\''
            &&& quoted_default(v).last() == '\''
            &&& !v.contains('\'') ==> quoted_default(v) == seq!['\''] + v + seq!['\'']
        },
{
    reveal_strlit("'");
    assert("'"@ =~= seq!['\'']);
    if !v.contains('\'') {
        if crate::text::holds(v, "'"@) {
            let i = choose|i: int| crate::text::occurs_at(v, "'"@, i);
            assert(v.subrange(i, i + 1)[0] == '\'');
            assert(v.contains(v[i]));
        }
        crate::text::law_replace_absent(v, "'"@, "''"@);
    }
}

/// The columns of an object are those of its rows, in their order, under their names.
pub proof fn law_columns(
    rows: Seq<Json>,
    r: Json,
    pure: Seq<char>,
    name: Seq<char>,
    quote: bool,
)
    requires
        r.text("column_name"@) == Some(name),
    ensures
        columns_of(Seq::empty(), pure, quote).len() == 0,
        r.text("pure_name"@) == Some(pure) ==> columns_of(rows.push(r), pure, quote) == columns_of(
            rows,
            pure, quote,
        ).push(column_of(r, name, quote)),
        r.text("pure_name"@) != Some(pure) ==> columns_of(rows.push(r), pure, quote) == columns_of(
            rows,
            pure, quote,
        ),
{
    crate::rows::law_where_text(rows, r, "pure_name"@, pure);
    if r.text("pure_name"@) == Some(pure) {
        assert(columns_of(rows.push(r), pure, quote) =~= columns_of(rows, pure, quote).push(
            column_of(r, name, quote),
        ));
    }
}

/// The primary key of a table is made of the rows that name the table.
pub proof fn law_primary_key(rows: Seq<Json>, r: Json, pure: Seq<char>, name: Seq<char>)
    requires
        r.text("column_name"@) == Some(name),
    ensures
        primary_key(Seq::empty(), pure) is None,
        r.text("pure_name"@) != Some(pure) ==> primary_key(rows.push(r), pure) == primary_key(
            rows,
            pure,
        ),
        r.text("pure_name"@) == Some(pure) ==> (primary_key(rows.push(r), pure) matches Some(after)
            && {
            let c = after.columns_constraint;
            &&& c.columns.last().column_name == name
            &&& c.constraint.constraint_type == ConstraintType::PrimaryKey
            &&& match primary_key(rows, pure) {
                Some(before) => c.columns.drop_last() == before.columns_constraint.columns
                    && c.constraint == before.columns_constraint.constraint,
                None => c.columns.len() == 1 && c.constraint.constraint_name == r.text(
                    "constraint_name"@,
                ),
            }
        }),
{
    crate::rows::law_where_text(rows, r, "pure_name"@, pure);
    if r.text("pure_name"@) == Some(pure) {
        let own = rows_of(rows, pure);
        let after = primary_key(rows.push(r), pure)->0.columns_constraint;
        assert(own.push(r).last() == r);
        if own.len() > 0 {
            assert(own.push(r)[0] == own[0]);
            let before = primary_key(rows, pure)->0.columns_constraint;
            assert(after.columns.drop_last() =~= before.columns);
        }
    }
}

/// A foreign key refers to the table and the column of its row.
pub proof fn law_foreign_key(r: Json, pure: Seq<char>, name: Seq<char>, table: Seq<char>)
    requires
        r.text("pure_name"@) == Some(pure),
        r.text("constraint_name"@) == Some(name),
        r.text("column_name"@) is Some,
        r.text("ref_table_name"@) == Some(table),
        r.text("update_action"@) is Some,
        r.text("delete_action"@) is Some,
    ensures
        foreign_keys(seq![r], pure).len() == 1,
        ({
            let k = foreign_keys(seq![r], pure)[0];
            &&& k.columns_constraint.constraint.constraint_name == Some(name)
            &&& k.columns_constraint.columns.len() == 1
            &&& Some(k.columns_constraint.columns[0].column_name) == r.text("column_name"@)
            &&& k.columns_constraint.columns[0].ref_column_name == r.text("ref_column_name"@)
            &&& k.ref_table_name == table
            &&& k.update_action == r.text("update_action"@)
            &&& k.delete_action == r.text("delete_action"@)
        }),
{
    let none = Seq::<Json>::empty();
    crate::rows::law_where_text(none, r, "pure_name"@, pure);
    assert(none.push(r) =~= seq![r]);
    let own = rows_of(none, pure);
    assert(own.len() == 0);
    assert(foreign_keys(none, pure) =~= Seq::empty()) by {
        assert(crate::rows::keys_of(own, "constraint_name"@) =~= Seq::empty());
    }
    crate::drivers::common::law_foreign_key_begun(own, r, fk_fields());
    let after = foreign_keys(seq![r], pure);
    assert(after.last() == after[0]);
    crate::rows::law_group_push(own, r, "constraint_name"@, name);
    assert(crate::rows::group_of(own, "constraint_name"@, name) =~= Seq::empty());
    assert(crate::rows::group_of(own.push(r), "constraint_name"@, name) =~= seq![r]);
}

/// An index row gives an index with its column, unless its name is that of a unique constraint,
/// where it gives that constraint; the indexes that the server made for itself give neither.
pub proof fn law_index(rows: Seq<Json>, r: Json, unique_names: Seq<Seq<char>>, name: Seq<char>)
    requires
        r.text("constraintName"@) == Some(name),
        r.text("columnName"@) is Some,
    ensures
        ({
            let x = indexes_of(rows.push(r), unique_names);
            let u = uniques_of(rows.push(r), unique_names);
            let own = crate::text::has_prefix(name, "SYS_C"@);
            &&& own ==> x == indexes_of(rows, unique_names) && u == uniques_of(rows, unique_names)
            &&& !own && unique_names.contains(name) ==> {
                &&& x == indexes_of(rows, unique_names)
                &&& u.len() == uniques_of(rows, unique_names).len() + 1
                &&& u.last().columns_constraint.constraint.constraint_name == Some(name)
                &&& u.last().columns_constraint.constraint.constraint_type
                    == ConstraintType::Unique
                &&& u.last().columns_constraint.columns.len() == 1
                &&& Some(u.last().columns_constraint.columns[0].column_name) == r.text(
                    "columnName"@,
                )
            }
            &&& !own && !unique_names.contains(name) ==> {
                &&& u == uniques_of(rows, unique_names)
                &&& x.len() == indexes_of(rows, unique_names).len() + 1
                &&& x.last().columns_constraint.constraint.constraint_name == Some(name)
                &&& x.last().columns_constraint.constraint.constraint_type
                    == ConstraintType::Index
                &&& x.last().columns_constraint.columns.len() == 1
                &&& Some(x.last().columns_constraint.columns[0].column_name) == r.text(
                    "columnName"@,
                )
                &&& x.last().is_unique <==> r.text("Unique"@) == Some("UNIQUE"@)
                &&& x.last().columns_constraint.columns[0].is_descending == Some(
                    r.text("descending"@) == Some("DESC"@),
                )
                &&& x.last().index_type == r.text("indexType"@)
            }
        }),
{
    crate::rows::law_pick_push(rows, |r: Json| as_index(r, unique_names), r);
    crate::rows::law_pick_push(rows, |r: Json| as_unique(r, unique_names), r);
}

/// A table has the columns, the keys and the indexes that the catalogue holds under its name.
pub proof fn law_table(row: Json, key: Seq<char>, c: OracleCatalogView, pure: Seq<char>)
    requires
        row.text("pure_name"@) == Some(pure),
    ensures
        ({
            let t = table_of(row, key, c);
            let names = crate::rows::texts_under(c.unique_names, "constraintName"@);
            let indexes = crate::rows::where_text(c.indexes, "tableName"@, pure);
            &&& t.object.pure_name == pure
            &&& t.object.object_id == Some(key)
            &&& t.columns == columns_of(c.columns, pure, true)
            &&& t.primary_key == primary_key(c.primary_keys, pure)
            &&& t.foreign_keys == Some(foreign_keys(c.foreign_keys, pure))
            &&& t.indexes == Some(indexes_of(indexes, names))
            &&& t.uniques == Some(uniques_of(indexes, names))
            &&& t.table_row_count == row.int64("table_row_count"@)
        }),
{
}

/// The structure of a database has one table for each table row, one view for each view row and
/// one trigger for each trigger row, in their order; its routines are the procedures and
/// functions among the routine rows.
pub proof fn law_database(c: OracleCatalogView, i: int)
    ensures
        ({
            let d = database_of(c);
            &&& d.tables.len() == c.tables.len()
            &&& d.views.len() == c.views.len()
            &&& d.triggers.len() == c.triggers.len()
            &&& 0 <= i < c.tables.len() ==> (c.tables[i].text("pure_name"@) matches Some(p)
                ==> d.tables[i] == table_of(c.tables[i], "tables:"@ + p, c))
            &&& 0 <= i < c.views.len() ==> (c.views[i].text("pure_name"@) matches Some(p) ==> {
                &&& d.views[i].object.object.pure_name == p
                &&& d.views[i].columns == columns_of(c.columns, p, true)
                &&& c.views[i].text("create_sql"@) matches Some(s)
                    ==> d.views[i].object.create_sql == Some(
                    "CREATE VIEW \""@ + p + "\"\nAS\n"@ + s,
                )
            })
            &&& 0 <= i < c.triggers.len() ==> d.triggers[i] == trigger_of(c.triggers[i])
            &&& d.procedures == procedures_of(c.routines, c.parameters)
            &&& d.functions == functions_of(c.routines, c.parameters)
        }),
{
    reveal_strlit("tables");
    reveal_strlit(":");
    reveal_strlit("tables:");
    assert("tables"@ + ":"@ =~= "tables:"@);
}

/// A parameter has the name, the type, the mode and the position of its row.
pub proof fn law_parameter(r: Json)
    requires
        r.text("parameter_name"@) is Some,
    ensures
        Some(parameter_of(r).parameter_name) == r.text("parameter_name"@),
        r.text("data_type"@) == Some("NUMBER"@) ==> parameter_of(r).data_type == "NUMBER"@,
        parameter_of(r).position == r.int64("ordinal_position"@),
        r.text("parameter_mode"@) == Some("OUT"@) <==> parameter_of(r).parameter_mode == Some(
            crate::dbinfo::ParameterMode::Out,
        ),
        r.text("parameter_mode"@) == Some("INOUT"@) <==> parameter_of(r).parameter_mode == Some(
            crate::dbinfo::ParameterMode::InOut,
        ),
{
    crate::drivers::common::law_parameter_mode(r.text("parameter_mode"@));
    reveal_strlit("NUMBER");
    reveal_strlit("character varying");
    reveal_strlit("timestamp without time zone");
    assert("NUMBER"@.len() == 6);
    assert("character varying"@.len() == 17);
    assert("timestamp without time zone"@.len() == 27);
}

/// The parameters of a routine are those of the rows that name it, in their order.
pub proof fn law_parameters(rows: Seq<Json>, r: Json, pure: Seq<char>)
    ensures
        r.text("pure_name"@) == Some(pure) ==> parameters_of(rows.push(r), pure) == parameters_of(
            rows,
            pure,
        ).push(parameter_of(r)),
        r.text("pure_name"@) != Some(pure) ==> parameters_of(rows.push(r), pure) == parameters_of(
            rows,
            pure,
        ),
{
    crate::rows::law_where_text(rows, r, "pure_name"@, pure);
    if r.text("pure_name"@) == Some(pure) {
        assert(parameters_of(rows.push(r), pure) =~= parameters_of(rows, pure).push(
            parameter_of(r),
        ));
    }
}

/// A routine row is a procedure where it says so and a function otherwise, with its source and
/// the parameters that the catalogue holds under its name.
pub proof fn law_routine(rows: Seq<Json>, r: Json, params: Seq<Json>, pure: Seq<char>)
    requires
        r.text("pure_name"@) == Some(pure),
    ensures
        r.text("object_type"@) == Some("PROCEDURE"@) ==> {
            let p = procedures_of(rows.push(r), params);
            &&& functions_of(rows.push(r), params) == functions_of(rows, params)
            &&& p.len() == procedures_of(rows, params).len() + 1
            &&& p.last().callable.object.object.pure_name == pure
            &&& p.last().callable.object.object.object_id == Some("procedures:"@ + pure)
            &&& parameters_of(params, pure).len() > 0 ==> p.last().callable.parameters == Some(
                parameters_of(params, pure),
            )
            &&& r.text("source_code"@) matches Some(s) ==> p.last().callable.object.create_sql
                == Some("SET SQLTERMINATOR \"/\"\n"@ + s + "\n/\n"@)
        },
        r.text("object_type"@) != Some("PROCEDURE"@) ==> {
            let f = functions_of(rows.push(r), params);
            &&& procedures_of(rows.push(r), params) == procedures_of(rows, params)
            &&& f.len() == functions_of(rows, params).len() + 1
            &&& f.last().callable.object.object.pure_name == pure
            &&& f.last().callable.object.object.object_id == Some("functions:"@ + pure)
        },
{
    reveal_strlit("procedures");
    reveal_strlit("functions");
    reveal_strlit(":");
    reveal_strlit("procedures:");
    reveal_strlit("functions:");
    assert("procedures"@ + ":"@ =~= "procedures:"@);
    assert("functions"@ + ":"@ =~= "functions:"@);
    crate::rows::law_pick_push(
        rows,
        |r: Json|
            if is_procedure(r) {
                Some(ProcedureInfoView { callable: callable_of(r, params) })
            } else {
                None
            },
        r,
    );
    crate::rows::law_pick_push(
        rows,
        |r: Json|
            if is_procedure(r) {
                None
            } else {
                Some(FunctionInfoView { callable: callable_of(r, params), return_type: None })
            },
        r,
    );
}

/// A trigger has the name, the table, the timing and the event of its row.
pub proof fn law_trigger(row: Json, timing: Seq<char>, event: Seq<char>)
    requires
        row.text("trigger_name"@) is Some,
        row.text("table_name"@) is Some,
    ensures
        Some(trigger_with(row, timing, event).object.object.pure_name) == row.text("trigger_name"@),
        trigger_with(row, timing, event).table_name == row.text("table_name"@),
        timing == "AFTER"@ <==> trigger_with(row, timing, event).trigger_timing == Some(
            crate::dbinfo::TriggerTiming::After,
        ),
        timing == "INSTEAD OF"@ <==> trigger_with(row, timing, event).trigger_timing == Some(
            crate::dbinfo::TriggerTiming::InsteadOf,
        ),
        event == "INSERT"@ <==> trigger_with(row, timing, event).event_type == Some(
            TriggerEventType::Insert,
        ),
        event == "UPDATE"@ <==> trigger_with(row, timing, event).event_type == Some(
            TriggerEventType::Update,
        ),
        event == "DELETE"@ <==> trigger_with(row, timing, event).event_type == Some(
            TriggerEventType::Delete,
        ),
{
    crate::drivers::common::law_trigger_timing(timing);
    reveal_strlit("INSERT");
    reveal_strlit("UPDATE");
    reveal_strlit("DELETE");
    assert("INSERT"@.len() == 6);
    assert("UPDATE"@.len() == 6);
    assert("DELETE"@.len() == 6);
    assert("INSERT"@[0] == 'I');
    assert("UPDATE"@[0] == 'U');
    assert("DELETE"@[0] == 'D');
}

/// A query names the owner and the table that are asked for.
pub proof fn law_condition(a: Seq<char>, b: Seq<char>, c: Seq<char>, db: Seq<char>, id: Seq<char>)
    requires
        !crate::text::holds(b + "OBJECT_ID_CONDITION"@ + c, "$owner"@),
        forall|k: int|
            0 <= k < a.len() ==> #[trigger] (a + "$owner"@ + (b + "OBJECT_ID_CONDITION"@
                + c)).subrange(k, k + "$owner"@.len()) != "$owner"@,
        forall|k: int|
            0 <= k < (a + db + b).len() ==> #[trigger] (a + db + b + "OBJECT_ID_CONDITION"@
                + c).subrange(k, k + "OBJECT_ID_CONDITION"@.len()) != "OBJECT_ID_CONDITION"@,
        !crate::text::holds(c, "OBJECT_ID_CONDITION"@),
    ensures
        with_conditions(a + "$owner"@ + (b + "OBJECT_ID_CONDITION"@ + c), db, Some(id)) == a + db
            + b + ("'tables:"@ + id + "'"@) + c,
        with_conditions(a + "$owner"@ + (b + "OBJECT_ID_CONDITION"@ + c), db, None) == a + db + b
            + "is not null"@ + c,
{
    reveal_strlit("$owner");
    reveal_strlit("OBJECT_ID_CONDITION");
    let rest = b + "OBJECT_ID_CONDITION"@ + c;
    crate::text::law_replace(a, "$owner"@, rest, db);
    crate::text::law_replace_absent(rest, "$owner"@, db);
    assert(a + db + rest =~= a + db + b + "OBJECT_ID_CONDITION"@ + c);
    crate::text::law_replace(a + db + b, "OBJECT_ID_CONDITION"@, c, "'tables:"@ + id + "'"@);
    crate::text::law_replace(a + db + b, "OBJECT_ID_CONDITION"@, c, "is not null"@);
    crate::text::law_replace_absent(c, "OBJECT_ID_CONDITION"@, "'tables:"@ + id + "'"@);
    crate::text::law_replace_absent(c, "OBJECT_ID_CONDITION"@, "is not null"@);
}

/// The queries of a table ask for the table alone; those of a database for all.
pub proof fn law_table_queries(database: Seq<char>, pure: Seq<char>)
    ensures
        ({
            let q = table_queries(database, pure);
            let f = full_queries(database);
            &&& q.len() == 6
            &&& q[0] == with_conditions(SQL_TABLES@, database, Some(pure))
            &&& q[1] == with_conditions(SQL_COLUMNS@, database, Some(pure))
            &&& q[2] == with_conditions(SQL_PRIMARY_KEYS@, database, Some(pure))
            &&& q[3] == with_conditions(SQL_FOREIGN_KEYS@, database, Some(pure))
            &&& q[4] == with_conditions(SQL_INDEXES@, database, Some(pure))
            &&& f.len() == 10
            &&& f[0] == with_conditions(SQL_TABLES@, database, None)
            &&& f[1] == with_conditions(SQL_COLUMNS@, database, None)
            &&& f[2] == with_conditions(SQL_PRIMARY_KEYS@, database, None)
            &&& f[3] == with_conditions(SQL_FOREIGN_KEYS@, database, None)
        }),
{
}

/// A trigger is made again by the statement of its row, and is known by its name.
pub proof fn law_trigger_object(
    row: Json,
    name: Seq<char>,
    table: Seq<char>,
    timing: Seq<char>,
    event: Seq<char>,
    body: Seq<char>,
)
    requires
        row.text("trigger_name"@) == Some(name),
        row.text("table_name"@) == Some(table),
        row.text("trigger_timing"@) == Some(timing),
        row.text("event_type"@) == Some(event),
        row.text("definition"@) == Some(body),
    ensures
        ({
            let t = trigger_of(row);
            &&& t.object.create_sql == Some(
                "SET SQLTERMINATOR \"/\"\nCREATE TRIGGER \""@ + name + "\" "@ + timing + " "@
                    + event + " ON \""@ + table + "\" FOR EACH ROW "@ + body + "\n/\n"@,
            )
            &&& t.object.object.pure_name == name
            &&& t.object.object.object_id == Some("triggers:"@ + name)
            &&& t.object.object.hash_code == Some("triggers:"@ + name)
            &&& t.function_name is None
            &&& t.table_name == Some(table)
            &&& t == trigger_with(
                row,
                crate::encoding::uppercase(timing),
                crate::encoding::uppercase(event),
            )
        }),
{
}

/// What a catalogue row tells of an object is kept: its comment, its hash and the date of its
/// last change.
pub proof fn law_object(row: Json, id: Seq<char>, hash: Option<Seq<char>>, pure: Seq<char>)
    requires
        row.text("pure_name"@) == Some(pure),
    ensures
        object_in(row, id, hash).pure_name == pure,
        object_in(row, id, hash).object_id == Some(id),
        object_in(row, id, hash).modify_date == row.text("modify_date"@),
        object_in(row, id, hash).object_comment == row.text("object_comment"@),
        object_in(row, id, hash).hash_code == hash,
        object_in(row, id, hash).schema_name is None,
{
}

/// A table, a view and a routine carry the hash of their row.
pub proof fn law_sql_objects(
    row: Json,
    key: Seq<char>,
    c: OracleCatalogView,
    params: Seq<Json>,
    pure: Seq<char>,
)
    requires
        row.text("pure_name"@) == Some(pure),
    ensures
        table_of(row, key, c).object == object_in(row, key, row.text("hash_code"@)),
        view_of(row, c).object.object == object_in(row, "views:"@ + pure, row.text("hash_code"@)),
        row.text("create_sql"@) is None ==> view_of(row, c).object.create_sql is None,
        callable_of(row, params).object.object.hash_code == row.text("hash_code"@),
        callable_of(row, params).object.object.modify_date == row.text("modify_date"@),
        parameters_of(params, pure).len() == 0 ==> callable_of(row, params).parameters is None,
{
    reveal_strlit("views");
    reveal_strlit(":");
    reveal_strlit("views:");
    assert("views"@ + ":"@ =~= "views:"@);
}

/// Two types have a short name; every other keeps its own.
pub proof fn law_normal_type(t: Seq<char>)
    ensures
        normal_type("character varying"@) == "varchar"@,
        normal_type("timestamp without time zone"@) == "timestamp"@,
        t != "character varying"@ && t != "timestamp without time zone"@ ==> normal_type(t) == t,
{
    reveal_strlit("character varying");
    reveal_strlit("timestamp without time zone");
    assert("character varying"@.len() == 17 && "timestamp without time zone"@.len() == 27);
}

/// A quote in a text default is doubled; a small `y` allows null as well.
pub proof fn law_quoted_default(v: Seq<char>, row: Json, name: Seq<char>, low: Seq<char>)
    ensures
        v.len() > 0 && !crate::numbers::is_float_literal(v) && crate::text::ascii_lower(v)
            != "null"@ ==> quoted_default(v) == seq!['\''] + crate::text::replace(
            v,
            seq!['\''],
            seq!['\'', '\''],
        ) + seq!['\''],
        row.text("is_nullable"@) == Some("y"@) ==> column_with(row, name, true, low).not_null
            == Some(false),
{
    reveal_strlit("'");
    reveal_strlit("''");
    assert("'"@ =~= seq!['\'']);
    assert("''"@ =~= seq!['\'', '\'']);
}

/// An action that a foreign key row does not give is the empty text.
pub proof fn law_actions(row: Json)
    ensures
        ({
            let up = crate::drivers::common::action_of(
                row,
                fk_fields().update_action,
                fk_fields().empty_actions,
            );
            let down = crate::drivers::common::action_of(
                row,
                fk_fields().delete_action,
                fk_fields().empty_actions,
            );
            &&& row.text("update_action"@) is None ==> up == Some(Seq::<char>::empty())
            &&& row.text("delete_action"@) is None ==> down == Some(Seq::<char>::empty())
            &&& row.text("update_action"@) is Some ==> up == row.text("update_action"@)
            &&& row.text("delete_action"@) is Some ==> down == row.text("delete_action"@)
        }),
{
}

/// A version is its five numbers with points between them.
pub proof fn law_version_form(v: VersionNumbers)
    ensures
        version_form(v) == crate::numbers::dec(v.0 as nat) + seq!['.'] + crate::numbers::dec(
            v.1 as nat,
        ) + seq!['.'] + crate::numbers::dec(v.2 as nat) + seq!['.'] + crate::numbers::dec(
            v.3 as nat,
        ) + seq!['.'] + crate::numbers::dec(v.4 as nat),
{
    reveal_strlit(".");
    assert("."@ =~= seq!['.']);
}

/// A lone semicolon leaves nothing to run.
pub proof fn law_lone_semicolon(space: Seq<char>)
    requires
        forall|i: int| 0 <= i < space.len() ==> crate::text::is_space(#[trigger] space[i]),
    ensures
        executable(seq![';'] + space).len() == 0,
{
    lemma_trim_end(seq![';'], space);
}

/// A column is read by the small letters of the type that its row names.
pub proof fn law_column_reading(row: Json, name: Seq<char>, quote: bool, t: Seq<char>)
    requires
        row.text("data_type"@) == Some(t),
    ensures
        column_of(row, name, quote) == column_with(
            row,
            name,
            quote,
            crate::encoding::lowercase(normal_type(t)),
        ),
{
}

} // verus!
