//! SQL Server engine driver.
//!
//! Date and time cells are read through typed getters; every other cell is
//! mapped from its raw data, binary data to `$binary`.
use vstd::prelude::*;

use crate::connection::{ConnectionDefinition, ConnectionDefinitionView};
use crate::datetime::{date_text, datetime_offset_text, datetime_text, time_text};
use crate::dbinfo::{
    CallableObjectInfo, CallableObjectInfoView, ColumnInfo, ColumnInfoView, ColumnReference,
    ColumnReferenceView, ConstraintType, DatabaseInfo, DatabaseInfoView, DatabaseObjectInfo,
    DatabaseObjectInfoView, ForeignKeyInfo, ForeignKeyInfoView, FunctionInfo, FunctionInfoView,
    IndexInfo, IndexInfoView, NamedObjectInfo, ParameterInfo, ParameterInfoView, ParameterMode,
    PrimaryKeyInfo, PrimaryKeyInfoView, ProcedureInfo, ProcedureInfoView, TableInfo, TableInfoView,
    TriggerEventType, TriggerInfo, TriggerInfoView, TriggerTiming, UniqueInfo, UniqueInfoView,
    ViewInfo, ViewInfoView,
};
use crate::driver::{
    list_databases_under, Capabilities, DatabaseEntry, ServerVersion, ServerVersionView,
    StreamEvent, StreamTally,
};
use crate::drivers::common::{
    constraint_over, foreign_keys_from, object_id_condition, plain_reference, sql_object,
    ForeignKeyFields,
};
use crate::drivers::mssql_queries::{
    SQL_COLUMNS, SQL_FOREIGN_KEYS, SQL_FUNCTION_PARAMETERS, SQL_INDEXCOLS, SQL_INDEXES,
    SQL_LOAD_SQL_CODE, SQL_PRIMARY_KEYS, SQL_PROCEDURES_PARAMETERS, SQL_PROGRAMMABLES, SQL_TABLES,
    SQL_TABLE_SIZES, SQL_TRIGGERS, SQL_VIEWS, SQL_VIEW_COLUMNS,
};
use crate::encoding::{binary_value, number_or_null, uuid_text};
use crate::error::{DbgmError, DbgmResult};
use crate::numbers::decimal_signed;
use crate::query::{QueryResultColumn, QueryResultColumnView};
use crate::rows::{
    get_i64, get_str, get_text, map_list, new_list, or_empty, push_item, rows_with_text, text_is,
};
use crate::text::{
    chars_of, concat2, concat3, concat4, concat5, joined, replaced, same, slice_string,
    to_ascii_lower, trim_bounds, trimmed,
};
use crate::value::{object_from, same_value, Json, Value};

verus! {

/// Dotted engine id for SQL Server.
pub const MSSQL_ENGINE: &'static str = "mssql@dbgate-plugin-mssql";

/// The SQL Server driver.
pub struct MssqlDriver;

impl Default for MssqlDriver {
    fn default() -> (r: Self)
        ensures
            r == MssqlDriver,
    {
        MssqlDriver::new()
    }
}

impl MssqlDriver {
    pub fn new() -> (r: Self)
        ensures
            r == MssqlDriver,
    {
        MssqlDriver
    }

    pub fn engine(&self) -> (r: &'static str)
        ensures
            r@ == MSSQL_ENGINE@,
    {
        MSSQL_ENGINE
    }

    pub fn title(&self) -> (r: &'static str)
        ensures
            r@ == "SQL Server"@,
    {
        "SQL Server"
    }

    pub fn capabilities(&self) -> (r: Capabilities)
        ensures
            r == (Capabilities {
                read_only_sessions: false,
                supports_transactions: true,
                supports_native_backup: false,
                supports_native_restore: false,
                supports_server_summary: false,
                default_port: Some(1433),
            }),
    {
        Capabilities {
            read_only_sessions: false,
            supports_transactions: true,
            supports_native_backup: false,
            supports_native_restore: false,
            supports_server_summary: false,
            default_port: Some(1433),
        }
    }

    /// Bulk writes are not offered.
    pub fn write_table_unsupported(&self) -> (r: DbgmError)
        ensures
            r.deep_view() == crate::error::generic_error(
                "MSSQL write_table streaming is not yet supported"@,
            ),
    {
        DbgmError::new("MSSQL write_table streaming is not yet supported".to_owned())
    }
}

// ---------------------------------------------------------------------------
// Connecting
// ---------------------------------------------------------------------------

/// What a client is configured with. Encryption is always required.
pub struct MssqlConfig {
    pub host: String,
    pub port: u16,
    pub database: Option<String>,
    /// User and password.
    pub login: Option<(String, String)>,
    pub application_name: String,
    pub trust_certificate: bool,
}

/// What a [`MssqlConfig`] holds.
pub struct MssqlConfigView {
    pub host: Seq<char>,
    pub port: u16,
    pub database: Option<Seq<char>>,
    pub login: Option<(Seq<char>, Seq<char>)>,
    pub application_name: Seq<char>,
    pub trust_certificate: bool,
}

impl DeepView for MssqlConfig {
    type V = MssqlConfigView;

    open spec fn deep_view(&self) -> MssqlConfigView {
        MssqlConfigView {
            host: self.host@,
            port: self.port,
            database: self.database.deep_view(),
            login: self.login.deep_view(),
            application_name: self.application_name@,
            trust_certificate: self.trust_certificate,
        }
    }
}

/// Whether the server certificate is trusted: where the flag says so, or where
/// SSL settings are given at all.
pub open spec fn trusts(def: ConnectionDefinitionView) -> bool {
    def.extra_field("trustServerCertificate"@) == Some(Json::Bool(true)) || def.extra_field("ssl"@)
        is Some
}

/// The configuration for a definition with the server `host`. Of the port the
/// low 16 bits count.
pub open spec fn config_of(def: ConnectionDefinitionView, host: Seq<char>) -> MssqlConfigView {
    MssqlConfigView {
        host,
        port: match def.port {
            Some(p) => (p % 65536) as u16,
            None => 1433,
        },
        database: def.database,
        login: match def.user {
            Some(user) => Some((user, or_empty(def.password))),
            None => None,
        },
        application_name: "DbGate"@,
        trust_certificate: trusts(def),
    }
}

fn trust_server(def: &ConnectionDefinition) -> (r: bool)
    ensures
        r == trusts(def.deep_view()),
{
    let flagged = match def.extra_field("trustServerCertificate") {
        Some(v) => match v.as_bool() {
            Some(b) => b,
            None => false,
        },
        None => false,
    };
    flagged || def.extra_field("ssl").is_some()
}

/// Builds a client configuration from a connection definition.
pub fn build_config(def: &ConnectionDefinition) -> (r: DbgmResult<MssqlConfig>)
    ensures
        match r {
            Ok(c) => def.server is Some && c.deep_view() == config_of(
                def.deep_view(),
                def.server->0@,
            ),
            Err(e) => def.server is None && e.deep_view() == crate::error::generic_error(
                "MSSQL connection requires a server host"@,
            ),
        },
        r matches Ok(c) ==> (def.port matches Some(p) ==> p < 65536 ==> c.port == p),
{
    match &def.server {
        Some(server) => Ok(
            MssqlConfig {
                host: server.clone(),
                port: match def.port {
                    Some(p) => (p % 65536) as u16,
                    None => 1433,
                },
                database: def.database.clone(),
                login: match &def.user {
                    Some(user) => Some(
                        (
                            user.clone(),
                            match &def.password {
                                Some(p) => p.clone(),
                                None => String::new(),
                            },
                        ),
                    ),
                    None => None,
                },
                application_name: "DbGate".to_owned(),
                trust_certificate: trust_server(def),
            },
        ),
        None => Err(DbgmError::new("MSSQL connection requires a server host".to_owned())),
    }
}

// ---------------------------------------------------------------------------
// Value mapping
// ---------------------------------------------------------------------------

/// The wire type of a column.
#[derive(Debug, Clone, Copy, PartialEq, Eq, Structural)]
pub enum ColumnType {
    Null,
    Bit,
    Bitn,
    Int1,
    Int2,
    Int4,
    Int8,
    Intn,
    Float4,
    Float8,
    Floatn,
    Money,
    Money4,
    Datetime4,
    Datetime,
    Datetimen,
    Guid,
    Decimaln,
    Numericn,
    Daten,
    Timen,
    Datetime2,
    DatetimeOffsetn,
    BigVarBin,
    BigBinary,
    Image,
    BigVarChar,
    BigChar,
    Text,
    NVarchar,
    NChar,
    NText,
    Xml,
    Udt,
    SSVariant,
}

/// The SQL name of a wire type.
pub open spec fn sql_name(ty: ColumnType) -> Seq<char> {
    match ty {
        ColumnType::Null => "null"@,
        ColumnType::Bit | ColumnType::Bitn => "bit"@,
        ColumnType::Int1 => "tinyint"@,
        ColumnType::Int2 => "smallint"@,
        ColumnType::Int4 => "int"@,
        ColumnType::Int8 | ColumnType::Intn => "bigint"@,
        ColumnType::Float4 => "real"@,
        ColumnType::Float8 | ColumnType::Floatn => "float"@,
        ColumnType::Money | ColumnType::Money4 => "money"@,
        ColumnType::Datetime4 => "smalldatetime"@,
        ColumnType::Datetime | ColumnType::Datetimen => "datetime"@,
        ColumnType::Guid => "uniqueidentifier"@,
        ColumnType::Decimaln | ColumnType::Numericn => "decimal"@,
        ColumnType::Daten => "date"@,
        ColumnType::Timen => "time"@,
        ColumnType::Datetime2 => "datetime2"@,
        ColumnType::DatetimeOffsetn => "datetimeoffset"@,
        ColumnType::BigVarBin | ColumnType::BigBinary | ColumnType::Image => "binary"@,
        ColumnType::BigVarChar | ColumnType::BigChar | ColumnType::Text => "varchar"@,
        ColumnType::NVarchar | ColumnType::NChar | ColumnType::NText => "nvarchar"@,
        ColumnType::Xml => "xml"@,
        ColumnType::Udt => "udt"@,
        ColumnType::SSVariant => "sql_variant"@,
    }
}

/// Converts a column type to a lowercase SQL type-name string.
pub fn column_type_name(ty: ColumnType) -> (r: String)
    ensures
        r@ == sql_name(ty),
{
    let name = match ty {
        ColumnType::Null => "null",
        ColumnType::Bit | ColumnType::Bitn => "bit",
        ColumnType::Int1 => "tinyint",
        ColumnType::Int2 => "smallint",
        ColumnType::Int4 => "int",
        ColumnType::Int8 | ColumnType::Intn => "bigint",
        ColumnType::Float4 => "real",
        ColumnType::Float8 | ColumnType::Floatn => "float",
        ColumnType::Money | ColumnType::Money4 => "money",
        ColumnType::Datetime4 => "smalldatetime",
        ColumnType::Datetime | ColumnType::Datetimen => "datetime",
        ColumnType::Guid => "uniqueidentifier",
        ColumnType::Decimaln | ColumnType::Numericn => "decimal",
        ColumnType::Daten => "date",
        ColumnType::Timen => "time",
        ColumnType::Datetime2 => "datetime2",
        ColumnType::DatetimeOffsetn => "datetimeoffset",
        ColumnType::BigVarBin | ColumnType::BigBinary | ColumnType::Image => "binary",
        ColumnType::BigVarChar | ColumnType::BigChar | ColumnType::Text => "varchar",
        ColumnType::NVarchar | ColumnType::NChar | ColumnType::NText => "nvarchar",
        ColumnType::Xml => "xml",
        ColumnType::Udt => "udt",
        ColumnType::SSVariant => "sql_variant",
    };
    name.to_owned()
}

/// The raw data of a cell. Floating-point numbers of either width and decimal
/// numbers are the bits of a double; date and time data carries no value here.
pub enum ColumnData {
    U8(Option<u8>),
    I16(Option<i16>),
    I32(Option<i32>),
    I64(Option<i64>),
    F32(Option<u64>),
    F64(Option<u64>),
    Bit(Option<bool>),
    Text(Option<String>),
    Guid(Option<[u8; 16]>),
    Binary(Option<Vec<u8>>),
    Numeric(Option<u64>),
    Xml(Option<String>),
    Temporal,
}

/// The JSON form of raw data.
pub open spec fn data_json(data: ColumnData) -> Json {
    match data {
        ColumnData::U8(Some(v)) => Json::Int(v as int),
        ColumnData::I16(Some(v)) => Json::Int(v as int),
        ColumnData::I32(Some(v)) => Json::Int(v as int),
        ColumnData::I64(Some(v)) => Json::Int(v as int),
        ColumnData::F32(Some(d)) => crate::encoding::double_json(d),
        ColumnData::F64(Some(d)) => crate::encoding::double_json(d),
        ColumnData::Bit(Some(b)) => Json::Bool(b),
        ColumnData::Text(Some(s)) => Json::Str(s@),
        ColumnData::Guid(Some(u)) => Json::Str(crate::encoding::uuid_form(u@)),
        ColumnData::Binary(Some(b)) => crate::encoding::binary_json(b@),
        ColumnData::Numeric(Some(d)) => crate::encoding::double_json(d),
        ColumnData::Xml(Some(s)) => Json::Str(s@),
        _ => Json::Null,
    }
}

/// Maps a single cell to a JSON value by its raw data.
pub fn cell_to_json(data: &ColumnData) -> (r: Value)
    ensures
        r@ == data_json(*data),
{
    match data {
        ColumnData::U8(Some(v)) => Value::Int(*v as i128),
        ColumnData::I16(Some(v)) => Value::Int(*v as i128),
        ColumnData::I32(Some(v)) => Value::Int(*v as i128),
        ColumnData::I64(Some(v)) => Value::Int(*v as i128),
        ColumnData::F32(Some(d)) => number_or_null(*d),
        ColumnData::F64(Some(d)) => number_or_null(*d),
        ColumnData::Bit(Some(b)) => Value::Bool(*b),
        ColumnData::Text(Some(s)) => Value::Str(s.clone()),
        ColumnData::Guid(Some(u)) => Value::Str(uuid_text(*u)),
        ColumnData::Binary(Some(b)) => binary_value(b),
        ColumnData::Numeric(Some(d)) => number_or_null(*d),
        ColumnData::Xml(Some(s)) => Value::Str(s.clone()),
        _ => Value::Null,
    }
}

/// What a typed getter gave for a date or time cell: day numbers, seconds since
/// midnight, nanoseconds, and the offset from UTC in seconds.
#[derive(Clone, Copy)]
pub enum Moment {
    Date(i32),
    Time(u32, u32),
    DateTime(i32, u32, u32),
    DateTimeOffset(i32, u32, u32, i32),
}

/// The text of a moment that was read as the type of its column.
pub open spec fn moment_text_of(ty: ColumnType, moment: Option<Moment>) -> Option<Seq<char>> {
    match (ty, moment) {
        (ColumnType::Daten, Some(Moment::Date(d))) => crate::datetime::date_display(d),
        (ColumnType::Timen, Some(Moment::Time(s, n))) => crate::datetime::time_display(s, n),
        (
            ColumnType::Datetime4 | ColumnType::Datetimen | ColumnType::Datetime2
            | ColumnType::Datetime,
            Some(Moment::DateTime(d, s, n)),
        ) => crate::datetime::datetime_display(d, s, n),
        (ColumnType::DatetimeOffsetn, Some(Moment::DateTimeOffset(d, s, n, o))) =>
            crate::datetime::datetime_offset_display(d, s, n, o),
        _ => None,
    }
}

/// The JSON form of a cell: the text of its moment, or its raw data where it has
/// none.
pub open spec fn cell_json(ty: ColumnType, moment: Option<Moment>, data: ColumnData) -> Json {
    match moment_text_of(ty, moment) {
        Some(t) => Json::Str(t),
        None => data_json(data),
    }
}

fn moment_text(ty: ColumnType, moment: Option<Moment>) -> (r: Option<String>)
    ensures
        r.deep_view() == moment_text_of(ty, moment),
{
    match (ty, moment) {
        (ColumnType::Daten, Some(Moment::Date(d))) => date_text(d),
        (ColumnType::Timen, Some(Moment::Time(s, n))) => time_text(s, n),
        (
            ColumnType::Datetime4 | ColumnType::Datetimen | ColumnType::Datetime2
            | ColumnType::Datetime,
            Some(Moment::DateTime(d, s, n)),
        ) => datetime_text(d, s, n),
        (ColumnType::DatetimeOffsetn, Some(Moment::DateTimeOffset(d, s, n, o))) =>
            datetime_offset_text(d, s, n, o),
        _ => None,
    }
}

/// Converts one cell, using the typed value for dates and times and the raw
/// data for everything else.
pub fn cell_value(ty: ColumnType, moment: Option<Moment>, data: &ColumnData) -> (r: Value)
    ensures
        r@ == cell_json(ty, moment, *data),
{
    match moment_text(ty, moment) {
        Some(t) => Value::Str(t),
        None => cell_to_json(data),
    }
}

/// A cell of a row with its column.
pub struct MssqlCell {
    pub name: String,
    pub column_type: ColumnType,
    pub moment: Option<Moment>,
    pub data: ColumnData,
}

/// The JSON object of a row.
pub open spec fn row_json(cells: Seq<MssqlCell>) -> Json {
    crate::value::row_object(
        Seq::new(cells.len(), |i: int| cells[i].name@),
        Seq::new(
            cells.len(),
            |i: int| cell_json(cells[i].column_type, cells[i].moment, cells[i].data),
        ),
    )
}

/// Converts a full row to a JSON object keyed by column name.
pub fn row_to_value(cells: &Vec<MssqlCell>) -> (r: Value)
    ensures
        r@ == row_json(cells@),
{
    let name_of = |c: &MssqlCell| -> (n: String)
        ensures
            n@ == c.name@,
    {
        c.name.clone()
    };
    let names = map_list(cells, name_of);
    let value_of = |c: &MssqlCell| -> (v: Value)
        ensures
            v@ == cell_json(c.column_type, c.moment, c.data),
    {
        cell_value(c.column_type, c.moment, &c.data)
    };
    let values = map_list(cells, value_of);
    proof {
        assert(names.deep_view() =~= Seq::new(cells@.len(), |i: int| cells@[i].name@));
        assert(values.deep_view() =~= Seq::new(
            cells@.len(),
            |i: int| cell_json(cells@[i].column_type, cells@[i].moment, cells@[i].data),
        ));
    }
    object_from(&names, values)
}

/// A column of a result set.
pub struct MssqlColumn {
    pub name: String,
    pub column_type: ColumnType,
}

/// The metadata of a result set's columns.
pub open spec fn metadata_of(columns: Seq<MssqlColumn>) -> Seq<QueryResultColumnView> {
    Seq::new(
        columns.len(),
        |i: int|
            crate::query::plain_column(
                columns[i].name@,
                Some(sql_name(columns[i].column_type)),
            ),
    )
}

/// Builds the column metadata for a result set's columns.
pub fn columns_metadata(columns: &Vec<MssqlColumn>) -> (r: Vec<QueryResultColumn>)
    ensures
        r.deep_view() == metadata_of(columns@),
{
    let f = |c: &MssqlColumn| -> (q: QueryResultColumn)
        ensures
            q.deep_view() == crate::query::plain_column(c.name@, Some(sql_name(c.column_type))),
    {
        QueryResultColumn::plain(c.name.clone(), Some(column_type_name(c.column_type)))
    };
    let r = map_list(columns, f);
    assert(r.deep_view() =~= metadata_of(columns@));
    r
}

// ---------------------------------------------------------------------------
// Scripts
// ---------------------------------------------------------------------------

/// Where a position of a script lies.
pub enum Zone {
    Plain,
    Quoted(char),
    Bracketed,
}

/// The zone behind the character `c`.
pub open spec fn zone_after(zone: Zone, c: char) -> Zone {
    match zone {
        Zone::Quoted(q) => if c == q {
            Zone::Plain
        } else {
            zone
        },
        Zone::Bracketed => if c == ']' {
            Zone::Plain
        } else {
            zone
        },
        Zone::Plain => if c == '\'' || c == '"' {
            Zone::Quoted(c)
        } else if c == '[' {
            Zone::Bracketed
        } else {
            zone
        },
    }
}

/// The stretches of `s` between terminators from position `i` on, where the
/// first stretch has begun with `cur`. A terminator is a semicolon outside
/// quotes and brackets.
pub open spec fn pieces_from(s: Seq<char>, zone: Zone, cur: Seq<char>, i: int) -> Seq<Seq<char>>
    decreases s.len() - i,
{
    if i < 0 || i >= s.len() {
        seq![cur]
    } else if zone is Plain && s[i] == ';' {
        seq![cur] + pieces_from(s, Zone::Plain, Seq::empty(), i + 1)
    } else {
        pieces_from(s, zone_after(zone, s[i]), cur.push(s[i]), i + 1)
    }
}

/// The stretches of a script between terminators.
pub open spec fn pieces(s: Seq<char>) -> Seq<Seq<char>> {
    pieces_from(s, Zone::Plain, Seq::empty(), 0)
}

/// The statements of a script: its stretches, trimmed, without empty ones.
pub open spec fn statements(s: Seq<char>) -> Seq<Seq<char>> {
    crate::query_splitter::kept(pieces(s))
}

/// Splitting loses nothing but terminators: the stretches between them, joined
/// by semicolons, are the script.
pub proof fn law_pieces_join(s: Seq<char>)
    ensures
        crate::text::join(pieces(s), seq![';']) == s,
{
    lemma_pieces_join_from(s, Zone::Plain, Seq::empty(), 0);
    assert(Seq::<char>::empty() + s.skip(0) =~= s);
}

proof fn lemma_pieces_join_from(s: Seq<char>, zone: Zone, cur: Seq<char>, i: int)
    requires
        0 <= i <= s.len(),
    ensures
        pieces_from(s, zone, cur, i).len() > 0,
        crate::text::join(pieces_from(s, zone, cur, i), seq![';']) == cur + s.skip(i),
    decreases s.len() - i,
{
    if i >= s.len() {
        assert(cur + s.skip(i) =~= cur);
    } else if zone is Plain && s[i] == ';' {
        lemma_pieces_join_from(s, Zone::Plain, Seq::empty(), i + 1);
        let all = pieces_from(s, zone, cur, i);
        let rest = pieces_from(s, Zone::Plain, Seq::empty(), i + 1);
        assert(all.drop_first() =~= rest);
        crate::text::lemma_join_first(all, seq![';']);
        assert(cur + seq![';'] + (Seq::<char>::empty() + s.skip(i + 1)) =~= cur + s.skip(i));
    } else {
        lemma_pieces_join_from(s, zone_after(zone, s[i]), cur.push(s[i]), i + 1);
        assert(cur.push(s[i]) + s.skip(i + 1) =~= cur + s.skip(i));
    }
}

/// No statement is empty, and none has whitespace at its ends.
pub proof fn law_statements_trimmed(s: Seq<char>)
    ensures
        forall|k: int|
            0 <= k < statements(s).len() ==> (#[trigger] statements(s)[k]).len() > 0
                && crate::text::is_trimmed(statements(s)[k]),
{
    crate::query_splitter::lemma_kept_trimmed(pieces(s));
}

/// The zone that the scanner's flags stand for.
spec fn zone_of(in_quote: Option<char>, in_square: bool) -> Zone {
    match in_quote {
        Some(q) => Zone::Quoted(q),
        None => if in_square {
            Zone::Bracketed
        } else {
            Zone::Plain
        },
    }
}

/// Splits a SQL script on statement terminators, honouring quoted strings and
/// bracketed names.
pub fn split_sql(sql: &str) -> (r: Vec<String>)
    ensures
        crate::text::texts(r@) == statements(sql@),
{
    let mut out: Vec<String> = Vec::new();
    let mut current = String::new();
    let mut in_quote: Option<char> = None;
    let mut in_square = false;
    let chars = chars_of(sql);
    let ghost s = sql@;
    let mut i: usize = 0;
    assert(crate::text::texts(out@) + statements(s) =~= statements(s));
    while i < chars.len()
        invariant
            i <= chars.len(),
            chars@ == s,
            s == sql@,
            in_square ==> in_quote is None,
            crate::text::texts(out@) + crate::query_splitter::kept(
                pieces_from(s, zone_of(in_quote, in_square), current@, i as int),
            ) == statements(s),
        decreases chars.len() - i,
    {
        let c = chars[i];
        if let Some(q) = in_quote {
            current.push(c);
            if c == q {
                in_quote = None;
            }
        } else if in_square {
            current.push(c);
            if c == ']' {
                in_square = false;
            }
        } else if c == '\'' || c == '"' {
            in_quote = Some(c);
            current.push(c);
        } else if c == '[' {
            in_square = true;
            current.push(c);
        } else if c == ';' {
            let ghost rest = pieces_from(s, Zone::Plain, Seq::empty(), i + 1);
            proof {
                crate::query_splitter::lemma_kept_first(current@, rest);
                let one = crate::query_splitter::kept(seq![current@]);
                let more = crate::query_splitter::kept(rest);
                assert(crate::text::texts(out@) + (one + more) =~= (crate::text::texts(out@) + one)
                    + more);
            }
            crate::query_splitter::push_statement(&mut out, current.as_str());
            current = String::new();
        } else {
            current.push(c);
        }
        i = i + 1;
    }
    crate::query_splitter::push_statement(&mut out, current.as_str());
    out
}

/// The events of one statement's result within a stream: all its rows count as
/// affected.
pub fn statement_events(
    tally: &mut StreamTally,
    columns: Vec<QueryResultColumn>,
    rows: Vec<Value>,
) -> (r: Vec<StreamEvent>)
    requires
        old(tally).rows_affected + rows@.len() <= u64::MAX,
    ensures
        final(tally).rows_affected == old(tally).rows_affected + rows@.len(),
        r.deep_view() == crate::driver::recordset_events(columns.deep_view(), rows.deep_view()),
{
    let n: u64 = rows.len() as u64;
    tally.add_result(columns, rows, n)
}

// ---------------------------------------------------------------------------
// Server metadata
// ---------------------------------------------------------------------------

/// The version that the rows of the version query report.
pub open spec fn version_of(rows: Seq<Json>) -> ServerVersionView {
    let product = if rows.len() > 0 {
        rows[0].text("productVersion"@)
    } else {
        None
    };
    let text = if rows.len() > 0 {
        rows[0].text("version"@)
    } else {
        None
    };
    ServerVersionView {
        version: match (product, text) {
            (Some(v), _) => v,
            (None, Some(v)) => v,
            (None, None) => "unknown"@,
        },
        version_text: text,
    }
}

/// The server version, from the rows of the version query.
pub fn server_version(rows: &Vec<Value>) -> (r: ServerVersion)
    ensures
        r.deep_view() == version_of(rows.deep_view()),
{
    if rows.len() == 0 {
        return ServerVersion { version: "unknown".to_owned(), version_text: None };
    }
    assert(rows.deep_view()[0] == rows@[0]@);
    let version_text = get_str(&rows[0], "version");
    let version = match get_str(&rows[0], "productVersion") {
        Some(v) => v,
        None => match &version_text {
            Some(v) => v.clone(),
            None => "unknown".to_owned(),
        },
    };
    ServerVersion { version, version_text }
}

/// The databases on a server, from the rows of the database query.
pub fn list_databases(rows: &Vec<Value>) -> (r: Vec<DatabaseEntry>)
    ensures
        r.deep_view() == crate::driver::databases_under(rows.deep_view(), "name"@),
{
    list_databases_under(rows, "name")
}

// ---------------------------------------------------------------------------
// Analysis queries
// ---------------------------------------------------------------------------

/// A query template with its placeholders filled in.
pub open spec fn with_conditions(
    template: Seq<char>,
    object_id: Option<Seq<char>>,
    schema: Option<Seq<char>>,
) -> Seq<char> {
    crate::text::replace(
        crate::text::replace(
            template,
            "=OBJECT_ID_CONDITION"@,
            crate::drivers::common::id_condition(object_id),
        ),
        "=SCHEMA_NAME_CONDITION"@,
        crate::drivers::common::id_condition(schema),
    )
}

/// Replaces the analyser's `OBJECT_ID_CONDITION` / `SCHEMA_NAME_CONDITION`
/// placeholders. A condition that is `None` becomes ` is not null` (all
/// objects).
pub fn substitute_conditions(template: &str, object_id: Option<&str>, schema: Option<&str>) -> (r:
    String)
    ensures
        r@ == with_conditions(
            template@,
            crate::value::opt_str(object_id),
            crate::value::opt_str(schema),
        ),
{
    proof {
        reveal_strlit("=OBJECT_ID_CONDITION");
        reveal_strlit("=SCHEMA_NAME_CONDITION");
    }
    let with_object = replaced(
        template,
        "=OBJECT_ID_CONDITION",
        object_id_condition(object_id).as_str(),
    );
    replaced(
        with_object.as_str(),
        "=SCHEMA_NAME_CONDITION",
        object_id_condition(schema).as_str(),
    )
}

/// The queries of a full analysis, in the order of the fields of
/// [`MssqlCatalog`].
pub open spec fn full_queries() -> Seq<Seq<char>> {
    seq![
        with_conditions(SQL_TABLES@, None, None),
        with_conditions(SQL_COLUMNS@, None, None),
        with_conditions(SQL_PRIMARY_KEYS@, None, None),
        with_conditions(SQL_FOREIGN_KEYS@, None, None),
        with_conditions(SQL_INDEXES@, None, None),
        with_conditions(SQL_INDEXCOLS@, None, None),
        with_conditions(SQL_TABLE_SIZES@, None, None),
        with_conditions(SQL_LOAD_SQL_CODE@, None, None),
        with_conditions(SQL_VIEWS@, None, None),
        with_conditions(SQL_VIEW_COLUMNS@, None, None),
        with_conditions(SQL_PROGRAMMABLES@, None, None),
        with_conditions(SQL_PROCEDURES_PARAMETERS@, None, None),
        with_conditions(SQL_FUNCTION_PARAMETERS@, None, None),
        with_conditions(SQL_TRIGGERS@, None, None),
    ]
}

/// The queries of a full analysis.
pub fn full_analysis_queries() -> (r: Vec<String>)
    ensures
        r.deep_view() == full_queries(),
{
    let mut out: Vec<String> = Vec::new();
    out.push(substitute_conditions(SQL_TABLES, None, None));
    out.push(substitute_conditions(SQL_COLUMNS, None, None));
    out.push(substitute_conditions(SQL_PRIMARY_KEYS, None, None));
    out.push(substitute_conditions(SQL_FOREIGN_KEYS, None, None));
    out.push(substitute_conditions(SQL_INDEXES, None, None));
    out.push(substitute_conditions(SQL_INDEXCOLS, None, None));
    out.push(substitute_conditions(SQL_TABLE_SIZES, None, None));
    out.push(substitute_conditions(SQL_LOAD_SQL_CODE, None, None));
    out.push(substitute_conditions(SQL_VIEWS, None, None));
    out.push(substitute_conditions(SQL_VIEW_COLUMNS, None, None));
    out.push(substitute_conditions(SQL_PROGRAMMABLES, None, None));
    out.push(substitute_conditions(SQL_PROCEDURES_PARAMETERS, None, None));
    out.push(substitute_conditions(SQL_FUNCTION_PARAMETERS, None, None));
    out.push(substitute_conditions(SQL_TRIGGERS, None, None));
    assert(out.deep_view() =~= full_queries());
    out
}

/// The schema that a table name refers to: its own, else the database of the
/// connection, else `dbo`.
pub open spec fn schema_for(schema: Option<Seq<char>>, database: Option<Seq<char>>) -> Seq<char> {
    match (schema, database) {
        (Some(s), _) => s,
        (None, Some(d)) => d,
        (None, None) => "dbo"@,
    }
}

/// A bracketed qualified name.
pub open spec fn full_name_of(schema: Seq<char>, pure: Seq<char>) -> Seq<char> {
    "["@ + schema + "].["@ + pure + "]"@
}

/// The schema that a table name refers to.
pub fn table_schema(name: &NamedObjectInfo, database: &Option<String>) -> (r: String)
    ensures
        r@ == schema_for(name.schema_name.deep_view(), database.deep_view()),
{
    match (&name.schema_name, database) {
        (Some(s), _) => s.clone(),
        (None, Some(d)) => d.clone(),
        (None, None) => "dbo".to_owned(),
    }
}

fn table_full_name(name: &NamedObjectInfo, database: &Option<String>) -> (r: String)
    ensures
        r@ == full_name_of(
            schema_for(name.schema_name.deep_view(), database.deep_view()),
            name.pure_name@,
        ),
{
    let schema = table_schema(name, database);
    concat5("[", schema.as_str(), "].[", name.pure_name.as_str(), "]")
}

/// The query that resolves the object id of a table. Placeholders in the name
/// are filled in as in every query.
pub fn object_id_query(name: &NamedObjectInfo, database: &Option<String>) -> (r: String)
    ensures
        r@ == with_conditions(
            "SELECT OBJECT_ID('"@ + full_name_of(
                schema_for(name.schema_name.deep_view(), database.deep_view()),
                name.pure_name@,
            ) + "') AS id"@,
            None,
            None,
        ),
{
    let full_name = table_full_name(name, database);
    let sql = concat3("SELECT OBJECT_ID('", full_name.as_str(), "') AS id");
    substitute_conditions(sql.as_str(), None, None)
}

/// The object id that the rows of the id query give.
pub fn resolve_object_id(
    name: &NamedObjectInfo,
    database: &Option<String>,
    id_rows: &Vec<Value>,
) -> (r: DbgmResult<String>)
    ensures
        ({
            let rows = id_rows.deep_view();
            let found = rows.len() > 0 && rows[0].text("id"@) is Some;
            match r {
                Ok(id) => found && rows[0].text("id"@) == Some(id@),
                Err(e) => !found && e.deep_view() == crate::error::generic_error(
                    "Object not found: "@ + full_name_of(
                        schema_for(name.schema_name.deep_view(), database.deep_view()),
                        name.pure_name@,
                    ),
                ),
            }
        }),
{
    if id_rows.len() > 0 {
        assert(id_rows.deep_view()[0] == id_rows@[0]@);
        if let Some(id) = get_str(&id_rows[0], "id") {
            return Ok(id);
        }
    }
    Err(
        DbgmError::new(
            concat2("Object not found: ", table_full_name(name, database).as_str()),
        ),
    )
}

/// The queries of the analysis of one table: tables, columns, primary keys,
/// foreign keys, indexes, index columns, table sizes.
pub open spec fn table_queries(object_id: Seq<char>, schema: Seq<char>) -> Seq<Seq<char>> {
    let id = Some(object_id);
    seq![
        with_conditions(SQL_TABLES@, id, Some(schema)),
        with_conditions(SQL_COLUMNS@, id, Some(schema)),
        with_conditions(SQL_PRIMARY_KEYS@, id, Some(schema)),
        with_conditions(SQL_FOREIGN_KEYS@, id, Some(schema)),
        with_conditions(SQL_INDEXES@, id, Some(schema)),
        with_conditions(SQL_INDEXCOLS@, id, Some(schema)),
        with_conditions(SQL_TABLE_SIZES@, None, Some(schema)),
    ]
}

/// The queries of the analysis of one table.
pub fn table_analysis_queries(object_id: &str, schema: &str) -> (r: Vec<String>)
    ensures
        r.deep_view() == table_queries(object_id@, schema@),
{
    let id = Some(object_id);
    let within = Some(schema);
    let mut out: Vec<String> = Vec::new();
    out.push(substitute_conditions(SQL_TABLES, id, within));
    out.push(substitute_conditions(SQL_COLUMNS, id, within));
    out.push(substitute_conditions(SQL_PRIMARY_KEYS, id, within));
    out.push(substitute_conditions(SQL_FOREIGN_KEYS, id, within));
    out.push(substitute_conditions(SQL_INDEXES, id, within));
    out.push(substitute_conditions(SQL_INDEXCOLS, id, within));
    out.push(substitute_conditions(SQL_TABLE_SIZES, None, within));
    assert(out.deep_view() =~= table_queries(object_id@, schema@));
    out
}

// ---------------------------------------------------------------------------
// Columns
// ---------------------------------------------------------------------------

pub open spec fn is_string_type(t: Seq<char>) -> bool {
    let low = crate::text::ascii_lower(t);
    low == "char"@ || low == "varchar"@ || low == "nchar"@ || low == "nvarchar"@ || low == "binary"@
        || low == "varbinary"@ || low == "text"@ || low == "ntext"@ || low == "xml"@ || low
        == "sysname"@
}

pub open spec fn is_numeric_type(t: Seq<char>) -> bool {
    let low = crate::text::ascii_lower(t);
    low == "decimal"@ || low == "numeric"@
}

fn is_type_string(t: &str) -> (r: bool)
    ensures
        r == is_string_type(t@),
{
    let lowered = to_ascii_lower(t);
    let low = lowered.as_str();
    same(low, "char") || same(low, "varchar") || same(low, "nchar") || same(low, "nvarchar")
        || same(low, "binary") || same(low, "varbinary") || same(low, "text") || same(low, "ntext")
        || same(low, "xml") || same(low, "sysname")
}

fn is_type_numeric(t: &str) -> (r: bool)
    ensures
        r == is_numeric_type(t@),
{
    let lowered = to_ascii_lower(t);
    same(lowered.as_str(), "decimal") || same(lowered.as_str(), "numeric")
}

/// A length as it stands in a type name: `MAX` where it is negative.
pub open spec fn length_text(len: i64) -> Seq<char> {
    if len < 0 {
        "MAX"@
    } else {
        crate::numbers::dec_int(len as int)
    }
}

/// The full name of a type: string types with their length, numeric types with
/// precision and scale, where these are known.
pub open spec fn full_type(
    data_type: Seq<char>,
    char_max_length: Option<i64>,
    precision: Option<i64>,
    scale: Option<i64>,
) -> Seq<char> {
    if precision is Some && scale is Some && is_numeric_type(data_type) {
        data_type + "("@ + crate::numbers::dec_int(precision->0 as int) + ","@
            + crate::numbers::dec_int(scale->0 as int) + ")"@
    } else if char_max_length is Some && is_string_type(data_type) {
        data_type + "("@ + length_text(char_max_length->0) + ")"@
    } else {
        data_type
    }
}

pub fn full_data_type_name(
    data_type: &str,
    char_max_length: Option<i64>,
    precision: Option<i64>,
    scale: Option<i64>,
) -> (r: String)
    ensures
        r@ == full_type(data_type@, char_max_length, precision, scale),
{
    let mut full = data_type.to_owned();
    if let Some(len) = char_max_length {
        if is_type_string(data_type) {
            let text = if len < 0 {
                "MAX".to_owned()
            } else {
                decimal_signed(len)
            };
            full = concat4(data_type, "(", text.as_str(), ")");
        }
    }
    if let Some(p) = precision {
        if let Some(s) = scale {
            if is_type_numeric(data_type) {
                full =
                concat5(
                    data_type,
                    "(",
                    decimal_signed(p).as_str(),
                    ",",
                    decimal_signed(s).as_str(),
                );
                full.push_str(")");
            }
        }
    }
    full
}

/// The text without the parentheses around it: while the trimmed text begins
/// with one and ends with one, what stands between them.
pub open spec fn stripped(s: Seq<char>) -> Seq<char>
    decreases s.len(),
{
    let t = crate::text::trim(s);
    if t.len() >= 2 && t[0] == '(' && t.last() == ')' {
        proof {
            crate::text::lemma_trim_len(s);
        }
        stripped(t.subrange(1, t.len() - 1))
    } else {
        s
    }
}

/// What is left after stripping is not parenthesised, whitespace at the ends
/// aside, and stripping it again changes nothing.
pub proof fn law_stripped(s: Seq<char>)
    ensures
        ({
            let t = crate::text::trim(stripped(s));
            !(t.len() >= 2 && t[0] == '(' && t.last() == ')')
        }),
        stripped(stripped(s)) == stripped(s),
    decreases s.len(),
{
    let t = crate::text::trim(s);
    if t.len() >= 2 && t[0] == '(' && t.last() == ')' {
        crate::text::lemma_trim_len(s);
        law_stripped(t.subrange(1, t.len() - 1));
    }
}

/// Strips parentheses off default values and computed expressions.
pub fn strip_outer_parens(s: String) -> (r: String)
    ensures
        r@ == stripped(s@),
{
    let mut chars = chars_of(s.as_str());
    loop
        invariant
            stripped(chars@) == stripped(s@),
        ensures
            chars@ == stripped(s@),
        decreases chars@.len(),
    {
        let (a, b) = trim_bounds(&chars);
        let ghost t = crate::text::trim(chars@);
        assert(t =~= chars@.subrange(a as int, b as int));
        if b - a >= 2 && chars[a] == '(' && chars[b - 1] == ')' {
            let inner = slice_string(&chars, a + 1, b - 1);
            assert(inner@ =~= t.subrange(1, t.len() - 1));
            chars = chars_of(inner.as_str());
        } else {
            assert(stripped(chars@) == chars@);
            break ;
        }
    }
    crate::text::string_of(&chars)
}

/// The text under `key` without the parentheses around it.
pub open spec fn stripped_text(row: Json, key: Seq<char>) -> Option<Seq<char>> {
    match row.text(key) {
        Some(t) => Some(stripped(t)),
        None => None,
    }
}

fn get_stripped(row: &Value, key: &str) -> (r: Option<String>)
    ensures
        r.deep_view() == stripped_text(row@, key@),
{
    match get_str(row, key) {
        Some(t) => Some(strip_outer_parens(t)),
        None => None,
    }
}

/// The column that a row describes: nullable and not an identity where the row
/// does not say.
pub open spec fn column_of(row: Json) -> ColumnInfoView {
    ColumnInfoView {
        column_name: or_empty(row.text("columnName"@)),
        data_type: full_type(
            or_empty(row.text("dataType"@)),
            row.int64("charMaxLength"@),
            row.int64("numericPrecision"@),
            row.int64("numericScale"@),
        ),
        not_null: Some(row.flag("isNullable"@) == Some(false)),
        auto_increment: Some(row.flag("isIdentity"@) == Some(true)),
        default_value: stripped_text(row, "defaultValue"@),
        default_constraint: row.text("defaultConstraint"@),
        computed_expression: stripped_text(row, "computedExpression"@),
        column_comment: row.text("columnComment"@),
        ..crate::dbinfo::blank_column()
    }
}

pub fn build_column_info(row: &Value) -> (r: ColumnInfo)
    ensures
        r.deep_view() == column_of(row@),
{
    let mut info = ColumnInfo::default();
    info.column_name = get_text(row, "columnName");
    info.data_type =
    full_data_type_name(
        get_text(row, "dataType").as_str(),
        get_i64(row, "charMaxLength"),
        get_i64(row, "numericPrecision"),
        get_i64(row, "numericScale"),
    );
    info.not_null =
    Some(
        match row.flag("isNullable") {
            Some(b) => !b,
            None => false,
        },
    );
    info.auto_increment =
    Some(
        match row.flag("isIdentity") {
            Some(b) => b,
            None => false,
        },
    );
    info.default_value = get_stripped(row, "defaultValue");
    info.default_constraint = get_str(row, "defaultConstraint");
    info.computed_expression = get_stripped(row, "computedExpression");
    info.column_comment = get_str(row, "columnComment");
    info
}

/// The columns of the object with the given id.
pub open spec fn columns_of(rows: Seq<Json>, object_id: Seq<char>) -> Seq<ColumnInfoView> {
    let own = crate::rows::where_text(rows, "objectId"@, object_id);
    Seq::new(own.len(), |i: int| column_of(own[i]))
}

pub fn build_columns(object_id: &str, column_rows: &Vec<Value>) -> (r: Vec<ColumnInfo>)
    ensures
        r.deep_view() == columns_of(column_rows.deep_view(), object_id@),
{
    let own = rows_with_text(column_rows, "objectId", object_id);
    let f = |row: &&Value| -> (c: ColumnInfo)
        ensures
            c.deep_view() == column_of(row.deep_view()),
    {
        build_column_info(row)
    };
    let r = map_list(&own, f);
    assert(r.deep_view() =~= columns_of(column_rows.deep_view(), object_id@));
    r
}

// ---------------------------------------------------------------------------
// Keys and indexes
// ---------------------------------------------------------------------------

/// Whether a row belongs to a table: its name is the table's, and both have the
/// same schema, or neither has one.
pub open spec fn belongs_to(row: Json, table: Json) -> bool {
    row.text("pureName"@) == Some(or_empty(table.text("pureName"@))) && same_members(
        row.get("schemaName"@),
        table.get("schemaName"@),
    )
}

/// Whether two members are equal, or both missing.
pub open spec fn same_members(a: Option<Json>, b: Option<Json>) -> bool {
    match (a, b) {
        (Some(x), Some(y)) => crate::value::same_json(x, y),
        (None, None) => true,
        _ => false,
    }
}

/// The rows that belong to a table.
pub open spec fn rows_of(rows: Seq<Json>, table: Json) -> Seq<Json> {
    crate::rows::select(rows, |r: Json| belongs_to(r, table))
}

fn same_member(a: &Value, b: &Value, key: &str) -> (r: bool)
    ensures
        r == same_members(a@.get(key@), b@.get(key@)),
{
    match (a.get(key), b.get(key)) {
        (Some(x), Some(y)) => same_value(x, y),
        (None, None) => true,
        _ => false,
    }
}

fn table_rows<'a>(rows: &'a Vec<Value>, table: &Value) -> (r: Vec<&'a Value>)
    ensures
        r.deep_view() == rows_of(rows.deep_view(), table@),
{
    let pure_name = get_text(table, "pureName");
    let ghost all = rows.deep_view();
    let mut out: Vec<&'a Value> = new_list();
    let mut i: usize = 0;
    while i < rows.len()
        invariant
            i <= rows@.len(),
            all == rows.deep_view(),
            pure_name@ == or_empty(table@.text("pureName"@)),
            out.deep_view() == rows_of(all.take(i as int), table@),
        decreases rows@.len() - i,
    {
        proof {
            crate::rows::lemma_take_next(all, i as int);
        }
        if text_is(&rows[i], "pureName", pure_name.as_str()) && same_member(
            &rows[i],
            table,
            "schemaName",
        ) {
            push_item(&mut out, &rows[i]);
        }
        i = i + 1;
    }
    proof {
        crate::rows::lemma_take_all(all);
    }
    out
}

/// References to the columns that rows name; rows that name none are left out.
pub open spec fn named_refs(rows: Seq<Json>) -> Seq<ColumnReferenceView> {
    crate::rows::pick(
        rows,
        |r: Json|
            match r.text("columnName"@) {
                Some(c) => Some(crate::drivers::common::plain_ref(c)),
                None => None,
            },
    )
}

/// The first name that a row gives for the constraint.
pub open spec fn first_name(rows: Seq<Json>) -> Option<Seq<char>> {
    let names = crate::rows::texts_under(rows, "constraintName"@);
    if names.len() > 0 {
        Some(names[0])
    } else {
        None
    }
}

/// The primary key of a table: none where no row names a column.
pub open spec fn primary_key(rows: Seq<Json>, table: Json) -> Option<PrimaryKeyInfoView> {
    let own = rows_of(rows, table);
    if named_refs(own).len() == 0 {
        None
    } else {
        Some(
            PrimaryKeyInfoView {
                columns_constraint: crate::drivers::common::over_columns(
                    ConstraintType::PrimaryKey,
                    first_name(own),
                    named_refs(own),
                ),
            },
        )
    }
}

pub fn build_primary_key(table: &Value, pk_rows: &Vec<Value>) -> (r: Option<PrimaryKeyInfo>)
    ensures
        r.deep_view() == primary_key(pk_rows.deep_view(), table@),
{
    let own = table_rows(pk_rows, table);
    let ghost all = own.deep_view();
    let mut columns: Vec<ColumnReference> = new_list();
    let mut constraint_name: Option<String> = None;
    let mut i: usize = 0;
    while i < own.len()
        invariant
            i <= own@.len(),
            all == own.deep_view(),
            columns.deep_view() == named_refs(all.take(i as int)),
            constraint_name.deep_view() == first_name(all.take(i as int)),
        decreases own@.len() - i,
    {
        proof {
            crate::rows::lemma_take_next(all, i as int);
        }
        let row: &Value = own[i];
        if constraint_name.is_none() {
            constraint_name = get_str(row, "constraintName");
        }
        if let Some(c) = get_str(row, "columnName") {
            push_item(&mut columns, plain_reference(c));
        }
        i = i + 1;
    }
    proof {
        crate::rows::lemma_take_all(all);
        assert(columns.deep_view().len() == columns@.len());
    }
    if columns.len() == 0 {
        return None;
    }
    Some(
        PrimaryKeyInfo {
            columns_constraint: constraint_over(
                ConstraintType::PrimaryKey,
                constraint_name,
                columns,
            ),
        },
    )
}

/// The keys under which rows describe foreign keys.
pub open spec fn fk_fields() -> ForeignKeyFields<'static> {
    ForeignKeyFields {
        constraint_name: "constraintName",
        column_name: "columnName",
        ref_column_name: "refColumnName",
        ref_schema_name: Some("refSchemaName"),
        ref_table_name: "refTableName",
        update_action: Some("updateAction"),
        delete_action: Some("deleteAction"),
        is_descending: None,
        empty_actions: false,
    }
}

/// The foreign keys of a table.
pub open spec fn foreign_keys(rows: Seq<Json>, table: Json) -> Seq<ForeignKeyInfoView> {
    crate::drivers::common::foreign_keys_of(rows_of(rows, table), fk_fields())
}

/// Builds foreign keys grouped by constraint name.
pub fn build_foreign_keys(table: &Value, fk_rows: &Vec<Value>) -> (r: Vec<ForeignKeyInfo>)
    ensures
        r.deep_view() == foreign_keys(fk_rows.deep_view(), table@),
{
    let own = table_rows(fk_rows, table);
    let fields = ForeignKeyFields {
        constraint_name: "constraintName",
        column_name: "columnName",
        ref_column_name: "refColumnName",
        ref_schema_name: Some("refSchemaName"),
        ref_table_name: "refTableName",
        update_action: Some("updateAction"),
        delete_action: Some("deleteAction"),
        is_descending: None,
        empty_actions: false,
    };
    foreign_keys_from(&own, &fields)
}

/// The column of an index that a row describes.
pub open spec fn index_column(row: Json) -> ColumnReferenceView {
    ColumnReferenceView {
        column_name: or_empty(row.text("columnName"@)),
        ref_column_name: None,
        is_included_column: row.flag("isIncludedColumn"@),
        is_descending: row.flag("isDescending"@),
    }
}

/// The columns of the index with the given id.
pub open spec fn index_columns(
    rows: Seq<Json>,
    object_id: Seq<char>,
    index_id: Option<i64>,
) -> Seq<ColumnReferenceView> {
    crate::rows::pick(
        rows,
        |c: Json|
            if c.text("object_id"@) == Some(object_id) && c.int64("index_id"@) == index_id {
                Some(index_column(c))
            } else {
                None
            },
    )
}

fn build_index_columns(rows: &Vec<Value>, object_id: &str, index_id: Option<i64>) -> (r: Vec<
    ColumnReference,
>)
    ensures
        r.deep_view() == index_columns(rows.deep_view(), object_id@, index_id),
{
    let ghost all = rows.deep_view();
    let mut out: Vec<ColumnReference> = new_list();
    let mut i: usize = 0;
    while i < rows.len()
        invariant
            i <= rows@.len(),
            all == rows.deep_view(),
            out.deep_view() == index_columns(all.take(i as int), object_id@, index_id),
        decreases rows@.len() - i,
    {
        proof {
            crate::rows::lemma_take_next(all, i as int);
        }
        let row = &rows[i];
        if text_is(row, "object_id", object_id) && get_i64(row, "index_id") == index_id {
            push_item(
                &mut out,
                ColumnReference {
                    column_name: get_text(row, "columnName"),
                    ref_column_name: None,
                    is_included_column: row.flag("isIncludedColumn"),
                    is_descending: row.flag("isDescending"),
                },
            );
        }
        i = i + 1;
    }
    proof {
        crate::rows::lemma_take_all(all);
    }
    out
}

/// Whether an index row describes a unique constraint.
pub open spec fn is_unique_constraint(idx: Json) -> bool {
    idx.flag("is_unique_constraint"@) == Some(true)
}

/// The index that a row describes, where it is no unique constraint.
pub open spec fn as_index(
    idx: Json,
    column_rows: Seq<Json>,
    object_id: Seq<char>,
) -> Option<IndexInfoView> {
    if is_unique_constraint(idx) {
        None
    } else {
        Some(
            IndexInfoView {
                columns_constraint: crate::drivers::common::over_columns(
                    ConstraintType::Index,
                    idx.text("constraintName"@),
                    index_columns(column_rows, object_id, idx.int64("index_id"@)),
                ),
                is_unique: idx.flag("isUnique"@) == Some(true),
                index_type: idx.text("indexType"@),
                filter_definition: idx.text("filterDefinition"@),
            },
        )
    }
}

/// The unique constraint that a row describes, where it is one.
pub open spec fn as_unique(
    idx: Json,
    column_rows: Seq<Json>,
    object_id: Seq<char>,
) -> Option<UniqueInfoView> {
    if is_unique_constraint(idx) {
        Some(
            UniqueInfoView {
                columns_constraint: crate::drivers::common::over_columns(
                    ConstraintType::Unique,
                    idx.text("constraintName"@),
                    index_columns(column_rows, object_id, idx.int64("index_id"@)),
                ),
            },
        )
    } else {
        None
    }
}

/// The id of a table, empty where it has none.
pub open spec fn table_id(table: Json) -> Seq<char> {
    or_empty(table.text("objectId"@))
}

/// The indexes among some index rows.
pub open spec fn indexes_of(
    rows: Seq<Json>,
    column_rows: Seq<Json>,
    object_id: Seq<char>,
) -> Seq<IndexInfoView> {
    crate::rows::pick(rows, |r: Json| as_index(r, column_rows, object_id))
}

/// The unique constraints among some index rows.
pub open spec fn uniques_of(
    rows: Seq<Json>,
    column_rows: Seq<Json>,
    object_id: Seq<char>,
) -> Seq<UniqueInfoView> {
    crate::rows::pick(rows, |r: Json| as_unique(r, column_rows, object_id))
}

/// Each index row becomes an index or a unique constraint, and never both.
pub proof fn law_index_or_unique(
    rows: Seq<Json>,
    column_rows: Seq<Json>,
    object_id: Seq<char>,
)
    ensures
        indexes_of(rows, column_rows, object_id).len() + uniques_of(
            rows,
            column_rows,
            object_id,
        ).len() == rows.len(),
    decreases rows.len(),
{
    if rows.len() > 0 {
        law_index_or_unique(rows.drop_last(), column_rows, object_id);
    }
}

pub fn build_indexes_and_uniques(
    table: &Value,
    index_rows: &Vec<Value>,
    indexcols_rows: &Vec<Value>,
) -> (r: (Vec<IndexInfo>, Vec<UniqueInfo>))
    ensures
        r.0.deep_view() == indexes_of(
            crate::rows::where_text(index_rows.deep_view(), "object_id"@, table_id(table@)),
            indexcols_rows.deep_view(),
            table_id(table@),
        ),
        r.1.deep_view() == uniques_of(
            crate::rows::where_text(index_rows.deep_view(), "object_id"@, table_id(table@)),
            indexcols_rows.deep_view(),
            table_id(table@),
        ),
{
    let object_id = get_text(table, "objectId");
    let own = rows_with_text(index_rows, "object_id", object_id.as_str());
    let ghost all = own.deep_view();
    let ghost cols = indexcols_rows.deep_view();
    let mut indexes: Vec<IndexInfo> = new_list();
    let mut uniques: Vec<UniqueInfo> = new_list();
    let mut i: usize = 0;
    while i < own.len()
        invariant
            i <= own@.len(),
            all == own.deep_view(),
            cols == indexcols_rows.deep_view(),
            indexes.deep_view() == indexes_of(all.take(i as int), cols, object_id@),
            uniques.deep_view() == uniques_of(all.take(i as int), cols, object_id@),
        decreases own@.len() - i,
    {
        proof {
            crate::rows::lemma_take_next(all, i as int);
        }
        let idx: &Value = own[i];
        let columns = build_index_columns(
            indexcols_rows,
            object_id.as_str(),
            get_i64(idx, "index_id"),
        );
        let name = get_str(idx, "constraintName");
        let unique = match idx.flag("is_unique_constraint") {
            Some(b) => b,
            None => false,
        };
        if unique {
            push_item(
                &mut uniques,
                UniqueInfo {
                    columns_constraint: constraint_over(ConstraintType::Unique, name, columns),
                },
            );
        } else {
            let is_unique = match idx.flag("isUnique") {
                Some(b) => b,
                None => false,
            };
            push_item(
                &mut indexes,
                IndexInfo {
                    columns_constraint: constraint_over(ConstraintType::Index, name, columns),
                    is_unique,
                    index_type: get_str(idx, "indexType"),
                    filter_definition: get_str(idx, "filterDefinition"),
                },
            );
        }
        i = i + 1;
    }
    proof {
        crate::rows::lemma_take_all(all);
    }
    (indexes, uniques)
}

// ---------------------------------------------------------------------------
// Full analysis
// ---------------------------------------------------------------------------

/// The parameter that a row describes.
pub open spec fn parameter_of(row: Json) -> ParameterInfoView {
    ParameterInfoView {
        parameter_name: or_empty(row.text("parameterName"@)),
        data_type: full_type(
            or_empty(row.text("dataType"@)),
            row.int64("charMaxLength"@),
            row.int64("numericPrecision"@),
            row.int64("numericScale"@),
        ),
        parameter_mode: Some(
            if row.text("parameterMode"@) == Some("OUT"@) {
                ParameterMode::Out
            } else {
                ParameterMode::In
            },
        ),
        position: row.int64("parameterIndex"@),
    }
}

/// The parameters of a routine.
pub open spec fn parameters_of(rows: Seq<Json>, object_id: Seq<char>) -> Seq<ParameterInfoView> {
    let own = crate::rows::where_text(rows, "parentObjectId"@, object_id);
    Seq::new(own.len(), |i: int| parameter_of(own[i]))
}

pub fn build_parameters(parent_object_id: &str, param_rows: &Vec<Value>) -> (r: Vec<ParameterInfo>)
    ensures
        r.deep_view() == parameters_of(param_rows.deep_view(), parent_object_id@),
{
    let own = rows_with_text(param_rows, "parentObjectId", parent_object_id);
    let f = |row: &&Value| -> (p: ParameterInfo)
        ensures
            p.deep_view() == parameter_of(row.deep_view()),
    {
        let mode = if text_is(row, "parameterMode", "OUT") {
            ParameterMode::Out
        } else {
            ParameterMode::In
        };
        ParameterInfo {
            parameter_name: get_text(row, "parameterName"),
            data_type: full_data_type_name(
                get_text(row, "dataType").as_str(),
                get_i64(row, "charMaxLength"),
                get_i64(row, "numericPrecision"),
                get_i64(row, "numericScale"),
            ),
            parameter_mode: Some(mode),
            position: get_i64(row, "parameterIndex"),
        }
    };
    let r = map_list(&own, f);
    assert(r.deep_view() =~= parameters_of(param_rows.deep_view(), parent_object_id@));
    r
}

/// The object that a row of a catalog query describes.
pub open spec fn object_in(row: Json) -> DatabaseObjectInfoView {
    DatabaseObjectInfoView {
        pure_name: or_empty(row.text("pureName"@)),
        schema_name: row.text("schemaName"@),
        pairing_id: None,
        object_id: row.text("objectId"@),
        create_date: row.text("createDate"@),
        modify_date: row.text("modifyDate"@),
        hash_code: row.text("contentHash"@),
        object_type_field: row.text("sqlObjectType"@),
        object_comment: row.text("objectComment"@),
    }
}

pub fn db_object(row: &Value) -> (r: DatabaseObjectInfo)
    ensures
        r.deep_view() == object_in(row@),
{
    DatabaseObjectInfo {
        pure_name: get_text(row, "pureName"),
        schema_name: get_str(row, "schemaName"),
        pairing_id: None,
        object_id: get_str(row, "objectId"),
        create_date: get_str(row, "createDate"),
        modify_date: get_str(row, "modifyDate"),
        hash_code: get_str(row, "contentHash"),
        object_type_field: get_str(row, "sqlObjectType"),
        object_comment: get_str(row, "objectComment"),
    }
}

/// The rows of the queries of a full analysis.
pub struct MssqlCatalog {
    pub tables: Vec<Value>,
    pub columns: Vec<Value>,
    pub primary_keys: Vec<Value>,
    pub foreign_keys: Vec<Value>,
    pub indexes: Vec<Value>,
    pub index_columns: Vec<Value>,
    pub table_sizes: Vec<Value>,
    pub sql_code: Vec<Value>,
    pub views: Vec<Value>,
    pub view_columns: Vec<Value>,
    pub programmables: Vec<Value>,
    pub procedure_parameters: Vec<Value>,
    pub function_parameters: Vec<Value>,
    pub triggers: Vec<Value>,
}

/// What a [`MssqlCatalog`] holds.
pub struct MssqlCatalogView {
    pub tables: Seq<Json>,
    pub columns: Seq<Json>,
    pub primary_keys: Seq<Json>,
    pub foreign_keys: Seq<Json>,
    pub indexes: Seq<Json>,
    pub index_columns: Seq<Json>,
    pub table_sizes: Seq<Json>,
    pub sql_code: Seq<Json>,
    pub views: Seq<Json>,
    pub view_columns: Seq<Json>,
    pub programmables: Seq<Json>,
    pub procedure_parameters: Seq<Json>,
    pub function_parameters: Seq<Json>,
    pub triggers: Seq<Json>,
}

impl DeepView for MssqlCatalog {
    type V = MssqlCatalogView;

    open spec fn deep_view(&self) -> MssqlCatalogView {
        MssqlCatalogView {
            tables: self.tables.deep_view(),
            columns: self.columns.deep_view(),
            primary_keys: self.primary_keys.deep_view(),
            foreign_keys: self.foreign_keys.deep_view(),
            indexes: self.indexes.deep_view(),
            index_columns: self.index_columns.deep_view(),
            table_sizes: self.table_sizes.deep_view(),
            sql_code: self.sql_code.deep_view(),
            views: self.views.deep_view(),
            view_columns: self.view_columns.deep_view(),
            programmables: self.programmables.deep_view(),
            procedure_parameters: self.procedure_parameters.deep_view(),
            function_parameters: self.function_parameters.deep_view(),
            triggers: self.triggers.deep_view(),
        }
    }
}

/// The parts of an object's source text, in order.
pub open spec fn code_parts(
    rows: Seq<Json>,
    pure: Seq<char>,
    schema: Option<Seq<char>>,
) -> Seq<Seq<char>> {
    crate::rows::pick(
        rows,
        |r: Json|
            if r.text("pureName"@) == Some(pure) && r.text("schemaName"@) == schema {
                r.text("codeText"@)
            } else {
                None
            },
    )
}

/// The source text of the object that a row describes: its parts one after the
/// other, where there are any.
pub open spec fn create_sql_of(rows: Seq<Json>, object: Json) -> Option<Seq<char>> {
    let parts = code_parts(rows, or_empty(object.text("pureName"@)), object.text("schemaName"@));
    if parts.len() == 0 {
        None
    } else {
        Some(crate::text::join(parts, ""@))
    }
}

fn same_text(row: &Value, key: &str, want: &Option<String>) -> (r: bool)
    ensures
        r == (row@.text(key@) == want.deep_view()),
{
    match (row.text(key), want) {
        (Some(t), Some(w)) => same(t, w.as_str()),
        (None, None) => true,
        _ => false,
    }
}

fn get_create_sql(rows: &Vec<Value>, object: &Value) -> (r: Option<String>)
    ensures
        r.deep_view() == create_sql_of(rows.deep_view(), object@),
{
    let pure = get_text(object, "pureName");
    let schema = get_str(object, "schemaName");
    let ghost all = rows.deep_view();
    let mut parts: Vec<String> = new_list();
    let mut i: usize = 0;
    while i < rows.len()
        invariant
            i <= rows@.len(),
            all == rows.deep_view(),
            parts.deep_view() == code_parts(all.take(i as int), pure@, schema.deep_view()),
        decreases rows@.len() - i,
    {
        proof {
            crate::rows::lemma_take_next(all, i as int);
        }
        let row = &rows[i];
        if text_is(row, "pureName", pure.as_str()) && same_text(row, "schemaName", &schema) {
            if let Some(code) = get_str(row, "codeText") {
                push_item(&mut parts, code);
            }
        }
        i = i + 1;
    }
    proof {
        crate::rows::lemma_take_all(all);
        assert(parts.deep_view() =~= crate::text::texts(parts@));
    }
    if parts.len() == 0 {
        None
    } else {
        Some(joined(&parts, ""))
    }
}

/// The number of rows of a table: that of the first size row with its id.
pub open spec fn row_count_of(rows: Seq<Json>, object_id: Seq<char>) -> Option<i64> {
    match crate::rows::first_where(rows, |r: Json| r.text("objectId"@) == Some(object_id)) {
        Some(r) => r.int64("tableRowCount"@),
        None => None,
    }
}

fn row_count(rows: &Vec<Value>, object_id: &str) -> (r: Option<i64>)
    ensures
        r == row_count_of(rows.deep_view(), object_id@),
{
    let ghost all = rows.deep_view();
    let ghost p = |r: Json| r.text("objectId"@) == Some(object_id@);
    let mut i: usize = 0;
    while i < rows.len()
        invariant
            i <= rows@.len(),
            all == rows.deep_view(),
            p == (|r: Json| r.text("objectId"@) == Some(object_id@)),
            crate::rows::first_where(all.take(i as int), p) is None,
        decreases rows@.len() - i,
    {
        proof {
            crate::rows::lemma_take_next(all, i as int);
        }
        if text_is(&rows[i], "objectId", object_id) {
            proof {
                crate::rows::lemma_first_found(all, p, i as int);
            }
            return get_i64(&rows[i], "tableRowCount");
        }
        i = i + 1;
    }
    proof {
        crate::rows::lemma_take_all(all);
    }
    None
}

/// The table that a row of the table query describes; its columns and its size
/// are those of the object with the id `columns_id`.
pub open spec fn table_of(row: Json, columns_id: Seq<char>, c: MssqlCatalogView) -> TableInfoView {
    let index_rows = crate::rows::where_text(c.indexes, "object_id"@, table_id(row));
    TableInfoView {
        object: object_in(row),
        columns: columns_of(c.columns, columns_id),
        primary_key: primary_key(c.primary_keys, row),
        sorting_key: None,
        foreign_keys: Some(foreign_keys(c.foreign_keys, row)),
        dependencies: None,
        indexes: Some(indexes_of(index_rows, c.index_columns, table_id(row))),
        uniques: Some(uniques_of(index_rows, c.index_columns, table_id(row))),
        checks: None,
        table_row_count: row_count_of(c.table_sizes, columns_id),
        table_engine: None,
    }
}

fn build_table(row: &Value, columns_id: &str, catalog: &MssqlCatalog) -> (r: TableInfo)
    ensures
        r.deep_view() == table_of(row@, columns_id@, catalog.deep_view()),
{
    let (indexes, uniques) = build_indexes_and_uniques(
        row,
        &catalog.indexes,
        &catalog.index_columns,
    );
    TableInfo {
        object: db_object(row),
        columns: build_columns(columns_id, &catalog.columns),
        primary_key: build_primary_key(row, &catalog.primary_keys),
        sorting_key: None,
        foreign_keys: Some(build_foreign_keys(row, &catalog.foreign_keys)),
        dependencies: None,
        indexes: Some(indexes),
        uniques: Some(uniques),
        checks: None,
        table_row_count: row_count(&catalog.table_sizes, columns_id),
        table_engine: None,
    }
}

/// The view that a row describes.
pub open spec fn view_of(row: Json, c: MssqlCatalogView) -> ViewInfoView {
    ViewInfoView {
        object: crate::drivers::common::sql_object_with(
            object_in(row),
            create_sql_of(c.sql_code, row),
        ),
        columns: columns_of(c.view_columns, table_id(row)),
    }
}

fn analyse_view_row(row: &Value, catalog: &MssqlCatalog) -> (r: ViewInfo)
    ensures
        r.deep_view() == view_of(row@, catalog.deep_view()),
{
    let id = get_text(row, "objectId");
    ViewInfo {
        object: sql_object(db_object(row), get_create_sql(&catalog.sql_code, row)),
        columns: build_columns(id.as_str(), &catalog.view_columns),
    }
}

/// The type of a programmable object.
pub open spec fn routine_type(row: Json) -> Seq<char> {
    crate::text::trim(or_empty(row.text("sqlObjectType"@)))
}

pub open spec fn is_function_type(t: Seq<char>) -> bool {
    t == "FN"@ || t == "IF"@ || t == "TF"@
}

fn function_type(t: &str) -> (r: bool)
    ensures
        r == is_function_type(t@),
{
    same(t, "FN") || same(t, "IF") || same(t, "TF")
}

/// The routine that a row describes.
pub open spec fn callable_of(row: Json, c: MssqlCatalogView) -> CallableObjectInfoView {
    let params = parameters_of(
        if is_function_type(routine_type(row)) {
            c.function_parameters
        } else {
            c.procedure_parameters
        },
        table_id(row),
    );
    CallableObjectInfoView {
        object: crate::drivers::common::sql_object_with(
            object_in(row),
            create_sql_of(c.sql_code, row),
        ),
        parameters: if params.len() == 0 {
            None
        } else {
            Some(params)
        },
    }
}

fn analyse_routine_row(row: &Value, catalog: &MssqlCatalog) -> (r: CallableObjectInfo)
    ensures
        r.deep_view() == callable_of(row@, catalog.deep_view()),
{
    let id = get_text(row, "objectId");
    let object_type = trimmed(get_text(row, "sqlObjectType").as_str());
    let params = if function_type(object_type.as_str()) {
        build_parameters(id.as_str(), &catalog.function_parameters)
    } else {
        build_parameters(id.as_str(), &catalog.procedure_parameters)
    };
    CallableObjectInfo {
        object: sql_object(db_object(row), get_create_sql(&catalog.sql_code, row)),
        parameters: if params.len() == 0 {
            None
        } else {
            Some(params)
        },
    }
}

/// The procedures among programmable objects.
pub open spec fn procedures_of(rows: Seq<Json>, c: MssqlCatalogView) -> Seq<ProcedureInfoView> {
    crate::rows::pick(
        rows,
        |r: Json|
            if routine_type(r) == "P"@ {
                Some(ProcedureInfoView { callable: callable_of(r, c) })
            } else {
                None
            },
    )
}

/// The functions among programmable objects.
pub open spec fn functions_of(rows: Seq<Json>, c: MssqlCatalogView) -> Seq<FunctionInfoView> {
    crate::rows::pick(
        rows,
        |r: Json|
            if is_function_type(routine_type(r)) {
                Some(FunctionInfoView { callable: callable_of(r, c), return_type: None })
            } else {
                None
            },
    )
}

fn analyse_routines(catalog: &MssqlCatalog) -> (r: (Vec<ProcedureInfo>, Vec<FunctionInfo>))
    ensures
        r.0.deep_view() == procedures_of(catalog.programmables.deep_view(), catalog.deep_view()),
        r.1.deep_view() == functions_of(catalog.programmables.deep_view(), catalog.deep_view()),
{
    let rows = &catalog.programmables;
    let ghost all = rows.deep_view();
    let ghost c = catalog.deep_view();
    let mut procedures: Vec<ProcedureInfo> = new_list();
    let mut functions: Vec<FunctionInfo> = new_list();
    let mut i: usize = 0;
    proof {
        reveal_strlit("P");
        reveal_strlit("FN");
        reveal_strlit("IF");
        reveal_strlit("TF");
    }
    while i < rows.len()
        invariant
            i <= rows@.len(),
            all == rows.deep_view(),
            c == catalog.deep_view(),
            "P"@.len() == 1,
            "FN"@.len() == 2,
            "IF"@.len() == 2,
            "TF"@.len() == 2,
            procedures.deep_view() == procedures_of(all.take(i as int), c),
            functions.deep_view() == functions_of(all.take(i as int), c),
        decreases rows@.len() - i,
    {
        proof {
            crate::rows::lemma_take_next(all, i as int);
        }
        let row = &rows[i];
        let object_type = trimmed(get_text(row, "sqlObjectType").as_str());
        let callable = analyse_routine_row(row, catalog);
        if same(object_type.as_str(), "P") {
            push_item(&mut procedures, ProcedureInfo { callable });
        } else if function_type(object_type.as_str()) {
            push_item(&mut functions, FunctionInfo { callable, return_type: None });
        }
        i = i + 1;
    }
    proof {
        crate::rows::lemma_take_all(all);
    }
    (procedures, functions)
}

/// The timing that a trigger row gives.
pub open spec fn timing_of(row: Json) -> TriggerTiming {
    if row.text("triggerTiming"@) == Some("AFTER"@) {
        TriggerTiming::After
    } else if row.text("triggerTiming"@) == Some("INSTEAD OF"@) {
        TriggerTiming::InsteadOf
    } else {
        TriggerTiming::Before
    }
}

/// The event that a trigger row names.
pub open spec fn event_of(row: Json) -> Option<TriggerEventType> {
    if row.text("eventType"@) == Some("INSERT"@) {
        Some(TriggerEventType::Insert)
    } else if row.text("eventType"@) == Some("UPDATE"@) {
        Some(TriggerEventType::Update)
    } else if row.text("eventType"@) == Some("DELETE"@) {
        Some(TriggerEventType::Delete)
    } else {
        None
    }
}

/// The trigger that a row describes.
pub open spec fn trigger_of(row: Json) -> TriggerInfoView {
    TriggerInfoView {
        object: crate::drivers::common::sql_object_with(
            DatabaseObjectInfoView {
                pure_name: or_empty(row.text("triggerName"@)),
                schema_name: row.text("schemaName"@),
                pairing_id: None,
                object_id: row.text("objectId"@),
                create_date: None,
                modify_date: row.text("modifyDate"@),
                hash_code: None,
                object_type_field: None,
                object_comment: None,
            },
            row.text("definition"@),
        ),
        function_name: None,
        table_name: row.text("tableName"@),
        trigger_timing: Some(timing_of(row)),
        event_type: event_of(row),
    }
}

fn analyse_trigger_row(row: &Value) -> (r: TriggerInfo)
    ensures
        r.deep_view() == trigger_of(row@),
{
    let timing = if text_is(row, "triggerTiming", "AFTER") {
        TriggerTiming::After
    } else if text_is(row, "triggerTiming", "INSTEAD OF") {
        TriggerTiming::InsteadOf
    } else {
        TriggerTiming::Before
    };
    let event = if text_is(row, "eventType", "INSERT") {
        Some(TriggerEventType::Insert)
    } else if text_is(row, "eventType", "UPDATE") {
        Some(TriggerEventType::Update)
    } else if text_is(row, "eventType", "DELETE") {
        Some(TriggerEventType::Delete)
    } else {
        None
    };
    let object = DatabaseObjectInfo {
        pure_name: get_text(row, "triggerName"),
        schema_name: get_str(row, "schemaName"),
        pairing_id: None,
        object_id: get_str(row, "objectId"),
        create_date: None,
        modify_date: get_str(row, "modifyDate"),
        hash_code: None,
        object_type_field: None,
        object_comment: None,
    };
    TriggerInfo {
        object: sql_object(object, get_str(row, "definition")),
        function_name: None,
        table_name: get_str(row, "tableName"),
        trigger_timing: Some(timing),
        event_type: event,
    }
}

/// The structure of the database that the catalog describes.
pub open spec fn database_of(c: MssqlCatalogView) -> DatabaseInfoView {
    DatabaseInfoView {
        tables: Seq::new(c.tables.len(), |i: int| table_of(c.tables[i], table_id(c.tables[i]), c)),
        views: Seq::new(c.views.len(), |i: int| view_of(c.views[i], c)),
        procedures: procedures_of(c.programmables, c),
        functions: functions_of(c.programmables, c),
        triggers: Seq::new(c.triggers.len(), |i: int| trigger_of(c.triggers[i])),
        ..crate::dbinfo::empty_database()
    }
}

/// The full structure of a database, from the rows of the analysis queries.
pub fn analyse_mssql_full(catalog: &MssqlCatalog) -> (r: DatabaseInfo)
    ensures
        r.deep_view() == database_of(catalog.deep_view()),
{
    let ghost c = catalog.deep_view();
    let table_row = |row: &Value| -> (t: TableInfo)
        ensures
            t.deep_view() == table_of(row@, table_id(row@), catalog.deep_view()),
    {
        build_table(row, get_text(row, "objectId").as_str(), catalog)
    };
    let tables = map_list(&catalog.tables, table_row);
    let view_row = |row: &Value| -> (v: ViewInfo)
        ensures
            v.deep_view() == view_of(row@, catalog.deep_view()),
    {
        analyse_view_row(row, catalog)
    };
    let views = map_list(&catalog.views, view_row);
    let (procedures, functions) = analyse_routines(catalog);
    let trigger_row = |row: &Value| -> (t: TriggerInfo)
        ensures
            t.deep_view() == trigger_of(row@),
    {
        analyse_trigger_row(row)
    };
    let triggers = map_list(&catalog.triggers, trigger_row);
    proof {
        assert(tables.deep_view() =~= database_of(c).tables);
        assert(views.deep_view() =~= database_of(c).views);
        assert(triggers.deep_view() =~= database_of(c).triggers);
    }
    let mut info = DatabaseInfo::default();
    info.tables = tables;
    info.views = views;
    info.procedures = procedures;
    info.functions = functions;
    info.triggers = triggers;
    info
}

/// The structure of one table, from its object id and the rows of the table
/// queries: that of the first table row. Fields of the catalog that hold other
/// rows are not read.
pub fn analyse_mssql_table(
    name: &NamedObjectInfo,
    database: &Option<String>,
    object_id: &str,
    catalog: &MssqlCatalog,
) -> (r: DbgmResult<TableInfo>)
    ensures
        ({
            let c = catalog.deep_view();
            match r {
                Ok(t) => c.tables.len() > 0 && t.deep_view() == table_of(
                    c.tables[0],
                    object_id@,
                    c,
                ),
                Err(e) => c.tables.len() == 0 && e.deep_view() == crate::error::generic_error(
                    "Table not found: "@ + full_name_of(
                        schema_for(name.schema_name.deep_view(), database.deep_view()),
                        name.pure_name@,
                    ),
                ),
            }
        }),
{
    if catalog.tables.len() == 0 {
        return Err(
            DbgmError::new(
                concat2("Table not found: ", table_full_name(name, database).as_str()),
            ),
        );
    }
    Ok(build_table(&catalog.tables[0], object_id, catalog))
}

// ---------------------------------------------------------------------------
// Laws
// ---------------------------------------------------------------------------

/// The client is told the server, the port, the database and the login of the definition; the
/// port 1433 only where it has none, and no login where it has no user.
pub proof fn law_config(def: ConnectionDefinition, c: MssqlConfig)
    requires
        def.server is Some,
        c.deep_view() == config_of(def.deep_view(), def.server->0@),
    ensures
        c.host@ == def.server->0@,
        def.port matches Some(p) ==> p < 65536 ==> c.port == p,
        def.port is None ==> c.port == 1433,
        c.database.deep_view() == def.database.deep_view(),
        def.user is None ==> c.login is None,
        def.user matches Some(u) ==> (c.login matches Some((name, word)) && name@ == u@ && (
        def.password matches Some(p) ==> word@ == p@)),
        c.trust_certificate <==> def.deep_view().extra_field("trustServerCertificate"@) == Some(
            Json::Bool(true),
        ) || def.deep_view().extra_field("ssl"@) is Some,
{
    let v = c.deep_view();
    assert(v.host == c.host@ && v.port == c.port);
    assert(v.database == c.database.deep_view() && v.login == c.login.deep_view());
    assert(v.trust_certificate == c.trust_certificate);
    assert(def.deep_view().port == def.port);
    if let Some(u) = def.user {
        assert(def.deep_view().user == Some(u@));
        assert(c.login.deep_view() is Some);
        if let Some((name, word)) = c.login {
            assert(c.login.deep_view() == Some((name@, word@)));
        }
        if let Some(p) = def.password {
            assert(def.deep_view().password == Some(p@));
        }
    } else {
        assert(def.deep_view().user is None);
    }
}

/// The types of result columns have their names.
pub proof fn law_type_names()
    ensures
        sql_name(ColumnType::Bit) == "bit"@,
        sql_name(ColumnType::Bitn) == "bit"@,
        sql_name(ColumnType::Int1) == "tinyint"@,
        sql_name(ColumnType::Int2) == "smallint"@,
        sql_name(ColumnType::Int4) == "int"@,
        sql_name(ColumnType::Int8) == "bigint"@,
        sql_name(ColumnType::Intn) == "bigint"@,
        sql_name(ColumnType::Float4) == "real"@,
        sql_name(ColumnType::Float8) == "float"@,
        sql_name(ColumnType::Guid) == "uniqueidentifier"@,
        sql_name(ColumnType::Daten) == "date"@,
        sql_name(ColumnType::Timen) == "time"@,
        sql_name(ColumnType::Datetime) == "datetime"@,
        sql_name(ColumnType::Datetime2) == "datetime2"@,
        sql_name(ColumnType::DatetimeOffsetn) == "datetimeoffset"@,
        sql_name(ColumnType::Decimaln) == "decimal"@,
        sql_name(ColumnType::Numericn) == "decimal"@,
        sql_name(ColumnType::NVarchar) == "nvarchar"@,
        sql_name(ColumnType::BigVarChar) == "varchar"@,
        sql_name(ColumnType::BigVarBin) == "binary"@,
        sql_name(ColumnType::Xml) == "xml"@,
        sql_name(ColumnType::Money) == "money"@,
{
}

/// A cell becomes the JSON value of its kind; one without data is null.
pub proof fn law_cells(u: u8, a: i16, b: i32, c: i64, d: u64, t: bool)
    ensures
        data_json(ColumnData::U8(Some(u))) == Json::Int(u as int),
        data_json(ColumnData::I16(Some(a))) == Json::Int(a as int),
        data_json(ColumnData::I32(Some(b))) == Json::Int(b as int),
        data_json(ColumnData::I64(Some(c))) == Json::Int(c as int),
        data_json(ColumnData::F32(Some(d))) == crate::encoding::double_json(d),
        data_json(ColumnData::F64(Some(d))) == crate::encoding::double_json(d),
        data_json(ColumnData::Numeric(Some(d))) == crate::encoding::double_json(d),
        data_json(ColumnData::Bit(Some(t))) == Json::Bool(t),
        data_json(ColumnData::U8(None)) == Json::Null,
        data_json(ColumnData::I32(None)) == Json::Null,
        data_json(ColumnData::I64(None)) == Json::Null,
        data_json(ColumnData::Bit(None)) == Json::Null,
        data_json(ColumnData::Text(None)) == Json::Null,
        data_json(ColumnData::Temporal) == Json::Null,
{
}

/// Texts become texts, bytes binary values, and a UUID its text.
pub proof fn law_text_cells(s: String, b: Vec<u8>, u: [u8; 16])
    ensures
        data_json(ColumnData::Text(Some(s))) == Json::Str(s@),
        data_json(ColumnData::Xml(Some(s))) == Json::Str(s@),
        data_json(ColumnData::Binary(Some(b))) == crate::encoding::binary_json(b@),
        data_json(ColumnData::Guid(Some(u))) matches Json::Str(t) && t.len() == 36 && t[8] == '-'
            && t.subrange(0, 8) == crate::numbers::hex(u@.subrange(0, 4)),
{
    crate::encoding::law_uuid_form(u@);
}

/// Dates, times and moments are written as the calendar writes them, by the type of the column;
/// other cells by their data.
pub proof fn law_moment_cells(ty: ColumnType, d: i32, s: u32, n: u32, o: i32, data: ColumnData)
    ensures
        crate::datetime::date_display(d) matches Some(t) ==> cell_json(
            ColumnType::Daten,
            Some(Moment::Date(d)),
            data,
        ) == Json::Str(t),
        crate::datetime::time_display(s, n) matches Some(t) ==> cell_json(
            ColumnType::Timen,
            Some(Moment::Time(s, n)),
            data,
        ) == Json::Str(t),
        crate::datetime::datetime_display(d, s, n) matches Some(t) ==> cell_json(
            ColumnType::Datetime2,
            Some(Moment::DateTime(d, s, n)),
            data,
        ) == Json::Str(t) && cell_json(
            ColumnType::Datetime,
            Some(Moment::DateTime(d, s, n)),
            data,
        ) == Json::Str(t) && cell_json(
            ColumnType::Datetime4,
            Some(Moment::DateTime(d, s, n)),
            data,
        ) == Json::Str(t) && cell_json(
            ColumnType::Datetimen,
            Some(Moment::DateTime(d, s, n)),
            data,
        ) == Json::Str(t),
        crate::datetime::datetime_offset_display(d, s, n, o) matches Some(t) ==> cell_json(
            ColumnType::DatetimeOffsetn,
            Some(Moment::DateTimeOffset(d, s, n, o)),
            data,
        ) == Json::Str(t),
        cell_json(ty, None, data) == data_json(data),
{
}

/// A row is read by the names of its cells.
pub proof fn law_row(cells: Seq<MssqlCell>, i: int)
    requires
        0 <= i < cells.len(),
        forall|j: int| i < j < cells.len() ==> (#[trigger] cells[j]).name@ != cells[i].name@,
    ensures
        row_json(cells).get(cells[i].name@) == Some(
            cell_json(cells[i].column_type, cells[i].moment, cells[i].data),
        ),
{
    let names = Seq::new(cells.len(), |i: int| cells[i].name@);
    let values = Seq::new(
        cells.len(),
        |i: int| cell_json(cells[i].column_type, cells[i].moment, cells[i].data),
    );
    let other = crate::value::lemma_absent_name(names);
    crate::value::law_row_object(names, values, i, other);
}

/// The zone at the end of a text that is scanned from position `i` on.
pub open spec fn end_zone(s: Seq<char>, zone: Zone, i: int) -> Zone
    decreases s.len() - i,
{
    if i < 0 || i >= s.len() {
        zone
    } else {
        end_zone(s, zone_after(zone, s[i]), i + 1)
    }
}

proof fn lemma_behind(s: Seq<char>, n: int, b: Seq<char>, zone: Zone, cur: Seq<char>, k: int)
    requires
        0 <= n,
        0 <= k <= b.len(),
        s.len() == n + b.len(),
        s.skip(n) == b,
    ensures
        pieces_from(s, zone, cur, n + k) == pieces_from(b, zone, cur, k),
        end_zone(s, zone, n + k) == end_zone(b, zone, k),
    decreases b.len() - k,
{
    if k < b.len() {
        assert(s[n + k] == s.skip(n)[k]);
        lemma_behind(s, n, b, zone_after(zone, b[k]), cur.push(b[k]), k + 1);
        if zone is Plain && b[k] == ';' {
            lemma_behind(s, n, b, Zone::Plain, Seq::empty(), k + 1);
        }
    }
}

proof fn lemma_pieces_append(a: Seq<char>, b: Seq<char>, zone: Zone, cur: Seq<char>, i: int)
    requires
        0 <= i <= a.len(),
        end_zone(a, zone, i) is Plain,
    ensures
        pieces_from(a + seq![';'] + b, zone, cur, i) == pieces_from(a, zone, cur, i) + pieces(b),
    decreases a.len() - i,
{
    let s = a + seq![';'] + b;
    let n = a.len() as int;
    if i == n {
        assert(s[i] == ';');
        assert(s.skip(n + 1) =~= b);
        lemma_behind(s, n + 1, b, Zone::Plain, Seq::empty(), 0);
    } else {
        assert(s[i] == a[i]);
        if zone is Plain && a[i] == ';' {
            lemma_pieces_append(a, b, Zone::Plain, Seq::empty(), i + 1);
            let rest = pieces_from(a, Zone::Plain, Seq::empty(), i + 1);
            assert(seq![cur] + (rest + pieces(b)) =~= (seq![cur] + rest) + pieces(b));
        } else {
            lemma_pieces_append(a, b, zone_after(zone, a[i]), cur.push(a[i]), i + 1);
        }
    }
}

/// Scripts can be put together: where no quote and no bracket is open at the end of the first,
/// the stretches and statements of both, with a semicolon in between, are those of the first and
/// those of the second.
pub proof fn law_append(a: Seq<char>, b: Seq<char>)
    requires
        end_zone(a, Zone::Plain, 0) is Plain,
    ensures
        pieces(a + seq![';'] + b) == pieces(a) + pieces(b),
        statements(a + seq![';'] + b) == statements(a) + statements(b),
{
    lemma_pieces_append(a, b, Zone::Plain, Seq::empty(), 0);
    crate::query_splitter::lemma_kept_append(pieces(a), pieces(b));
}

proof fn lemma_bare_zone(a: Seq<char>, i: int)
    requires
        forall|k: int|
            0 <= k < a.len() ==> #[trigger] a[k] != '\'' && a[k] != '"' && a[k] != '[',
        0 <= i <= a.len(),
    ensures
        end_zone(a, Zone::Plain, i) is Plain,
    decreases a.len() - i,
{
    if i < a.len() {
        assert(a[i] != '\'');
        lemma_bare_zone(a, i + 1);
    }
}

/// Only quotes and brackets protect a semicolon: behind a text without them it ends a statement.
pub proof fn law_semicolon_ends(a: Seq<char>, b: Seq<char>)
    requires
        forall|k: int|
            0 <= k < a.len() ==> #[trigger] a[k] != '\'' && a[k] != '"' && a[k] != '[',
    ensures
        end_zone(a, Zone::Plain, 0) is Plain,
        statements(a + seq![';'] + b) == statements(a) + statements(b),
{
    lemma_bare_zone(a, 0);
    law_append(a, b);
}

proof fn lemma_run(s: Seq<char>, zone: Zone, cur: Seq<char>, i: int, n: int)
    requires
        0 <= i <= n <= s.len(),
        forall|k: int| i <= k < n ==> zone_after(zone, #[trigger] s[k]) == zone,
        zone is Plain ==> forall|k: int| i <= k < n ==> #[trigger] s[k] != ';',
    ensures
        pieces_from(s, zone, cur, i) == pieces_from(s, zone, cur + s.subrange(i, n), n),
        end_zone(s, zone, i) == end_zone(s, zone, n),
    decreases n - i,
{
    if i < n {
        lemma_run(s, zone, cur.push(s[i]), i + 1, n);
        assert(cur.push(s[i]) + s.subrange(i + 1, n) =~= cur + s.subrange(i, n));
    } else {
        assert(cur + s.subrange(i, n) =~= cur);
    }
}

proof fn lemma_extended(a: Seq<char>, z: Seq<char>, zone: Zone, cur: Seq<char>, i: int)
    requires
        0 <= i <= a.len(),
        end_zone(a, zone, i) is Plain,
        forall|c: Seq<char>| #[trigger]
            pieces_from(z, Zone::Plain, c, 0) == seq![c + z],
    ensures
        ({
            let ps = pieces_from(a, zone, cur, i);
            &&& ps.len() > 0
            &&& pieces_from(a + z, zone, cur, i) == ps.drop_last().push(ps.last() + z)
            &&& end_zone(a + z, zone, i) == end_zone(z, Zone::Plain, 0)
        }),
    decreases a.len() - i,
{
    let s = a + z;
    let n = a.len() as int;
    let ps = pieces_from(a, zone, cur, i);
    if i == n {
        assert(s.skip(n) =~= z);
        lemma_behind(s, n, z, Zone::Plain, cur, 0);
        assert(ps =~= seq![cur]);
        assert(pieces_from(z, Zone::Plain, cur, 0) == seq![cur + z]);
        assert(ps.drop_last().push(ps.last() + z) =~= seq![cur + z]);
    } else {
        assert(s[i] == a[i]);
        lemma_extended(a, z, zone_after(zone, a[i]), cur.push(a[i]), i + 1);
        if zone is Plain && a[i] == ';' {
            lemma_extended(a, z, Zone::Plain, Seq::empty(), i + 1);
            let rest = pieces_from(a, Zone::Plain, Seq::empty(), i + 1);
            assert(ps == seq![cur] + rest);
            assert(ps.drop_last().push(ps.last() + z) =~= seq![cur] + rest.drop_last().push(
                rest.last() + z,
            ));
        }
    }
}

/// What stands between two quotes, or between brackets, belongs to the statement that it stands
/// in, whatever it holds; behind the second quote or the closing bracket it is over.
pub proof fn law_quoted_continues(a: Seq<char>, t: Seq<char>, open: char, close: char)
    requires
        end_zone(a, Zone::Plain, 0) is Plain,
        open == '\'' && close == '\'' || open == '"' && close == '"' || open == '[' && close
            == ']',
        !t.contains(close),
    ensures
        ({
            let z = seq![open] + t + seq![close];
            &&& end_zone(a + z, Zone::Plain, 0) is Plain
            &&& pieces(a + z) == pieces(a).drop_last().push(pieces(a).last() + z)
        }),
{
    let z = seq![open] + t + seq![close];
    let zone = zone_after(Zone::Plain, open);
    let n = t.len() as int + 1;
    assert forall|k: int| 1 <= k < n implies zone_after(zone, #[trigger] z[k]) == zone by {
        assert(t.contains(t[k - 1]));
    }
    assert(z[0] == open && z[n] == close);
    assert(zone_after(zone, close) is Plain);
    assert forall|c: Seq<char>| #[trigger]
        pieces_from(z, Zone::Plain, c, 0) == seq![c + z] by {
        lemma_run(z, zone, c.push(open), 1, n);
        let d = c.push(open) + z.subrange(1, n);
        assert(pieces_from(z, zone, d, n) == pieces_from(z, Zone::Plain, d.push(close), n + 1));
        assert(d.push(close) =~= c + z);
    }
    lemma_run(z, zone, seq![open], 1, n);
    assert(end_zone(z, zone, n) == end_zone(z, Zone::Plain, n + 1));
    lemma_extended(a, z, Zone::Plain, Seq::empty(), 0);
}

/// A quote or a bracket that is not closed reaches to the end of the script.
pub proof fn law_open_quote(a: Seq<char>, t: Seq<char>, open: char, close: char)
    requires
        end_zone(a, Zone::Plain, 0) is Plain,
        open == '\'' && close == '\'' || open == '"' && close == '"' || open == '[' && close
            == ']',
        !t.contains(close),
    ensures
        pieces(a + (seq![open] + t)) == pieces(a).drop_last().push(
            pieces(a).last() + (seq![open] + t),
        ),
{
    let z = seq![open] + t;
    let zone = zone_after(Zone::Plain, open);
    let n = z.len() as int;
    assert forall|k: int| 1 <= k < n implies zone_after(zone, #[trigger] z[k]) == zone by {
        assert(t.contains(t[k - 1]));
    }
    assert(z[0] == open);
    assert forall|c: Seq<char>| #[trigger]
        pieces_from(z, Zone::Plain, c, 0) == seq![c + z] by {
        lemma_run(z, zone, c.push(open), 1, n);
        assert(c.push(open) + z.subrange(1, n) =~= c + z);
    }
    lemma_extended(a, z, Zone::Plain, Seq::empty(), 0);
}

/// Text without quotes, brackets and semicolons belongs to the statement that it stands in.
pub proof fn law_bare_text_continues(a: Seq<char>, t: Seq<char>)
    requires
        end_zone(a, Zone::Plain, 0) is Plain,
        forall|k: int|
            0 <= k < t.len() ==> #[trigger] t[k] != '\'' && t[k] != '"' && t[k] != '[' && t[k]
                != ';',
    ensures
        end_zone(a + t, Zone::Plain, 0) is Plain,
        pieces(a + t) == pieces(a).drop_last().push(pieces(a).last() + t),
{
    let n = t.len() as int;
    assert forall|k: int| 0 <= k < n implies zone_after(Zone::Plain, #[trigger] t[k])
        == Zone::Plain by {}
    assert forall|c: Seq<char>| #[trigger]
        pieces_from(t, Zone::Plain, c, 0) == seq![c + t] by {
        lemma_run(t, Zone::Plain, c, 0, n);
        assert(t.subrange(0, n) =~= t);
    }
    lemma_bare_zone(t, 0);
    lemma_extended(a, t, Zone::Plain, Seq::empty(), 0);
}

/// A column says what its row says: it takes no null exactly where the row says that it is not
/// nullable, and it counts up exactly where it is an identity.
pub proof fn law_column(row: Json, name: Seq<char>)
    requires
        row.text("columnName"@) == Some(name),
    ensures
        ({
            let c = column_of(row);
            &&& c.column_name == name
            &&& row.flag("isNullable"@) == Some(false) ==> c.not_null == Some(true)
            &&& row.flag("isNullable"@) == Some(true) ==> c.not_null == Some(false)
            &&& row.flag("isNullable"@) is None ==> c.not_null == Some(false)
            &&& row.flag("isIdentity"@) == Some(true) ==> c.auto_increment == Some(true)
            &&& row.flag("isIdentity"@) == Some(false) ==> c.auto_increment == Some(false)
            &&& c.default_constraint == row.text("defaultConstraint"@)
            &&& c.column_comment == row.text("columnComment"@)
            &&& row.text("defaultValue"@) is None ==> c.default_value is None
            &&& row.text("defaultValue"@) matches Some(d) ==> c.default_value == Some(stripped(d))
            &&& row.text("computedExpression"@) matches Some(d) ==> c.computed_expression == Some(
                stripped(d),
            )
            &&& row.text("computedExpression"@) is None ==> c.computed_expression is None
            &&& row.text("dataType"@) matches Some(t) ==> c.data_type == full_type(
                t,
                row.int64("charMaxLength"@),
                row.int64("numericPrecision"@),
                row.int64("numericScale"@),
            )
        }),
{
}

/// Parentheses around an expression are taken off, however many there are; an expression without
/// them stays.
pub proof fn law_stripped_parens(s: Seq<char>)
    requires
        s.len() > 0,
        !crate::text::is_space(s[0]),
        !crate::text::is_space(s.last()),
    ensures
        s[0] != '(' ==> stripped(s) == s,
        stripped(seq!['('] + s + seq![')']) == stripped(s),
{
    crate::text::law_trim_fixed(s);
    let t = seq!['('] + s + seq![')'];
    crate::text::law_trim_fixed(t);
    assert(t.subrange(1, t.len() - 1) =~= s);
}

/// The type of a column: decimals with precision and scale, in this order; texts with their
/// length, `MAX` where it has no limit; others bare.
pub proof fn law_column_type(p: i64, s: i64, n: i64)
    ensures
        full_type("decimal"@, Some(n), Some(p), Some(s)) == "decimal("@ + crate::numbers::dec_int(
            p as int,
        ) + ","@ + crate::numbers::dec_int(s as int) + ")"@,
        n >= 0 ==> full_type("nvarchar"@, Some(n), Some(p), Some(s)) == "nvarchar("@
            + crate::numbers::dec_int(n as int) + ")"@,
        n < 0 ==> full_type("nvarchar"@, Some(n), Some(p), Some(s)) == "nvarchar(MAX)"@,
        full_type("int"@, Some(n), Some(p), Some(s)) == "int"@,
        full_type("nvarchar"@, None, None, None) == "nvarchar"@,
{
    reveal_strlit("char");
    reveal_strlit("varchar");
    reveal_strlit("nchar");
    reveal_strlit("nvarchar");
    reveal_strlit("binary");
    reveal_strlit("varbinary");
    reveal_strlit("text");
    reveal_strlit("ntext");
    reveal_strlit("xml");
    reveal_strlit("sysname");
    reveal_strlit("decimal");
    reveal_strlit("numeric");
    reveal_strlit("int");
    assert("char"@.len() == 4);
    assert("varchar"@.len() == 7);
    assert("nchar"@.len() == 5);
    assert("nvarchar"@.len() == 8);
    assert("binary"@.len() == 6);
    assert("varbinary"@.len() == 9);
    assert("text"@.len() == 4);
    assert("ntext"@.len() == 5);
    assert("xml"@.len() == 3);
    assert("sysname"@.len() == 7);
    assert("decimal"@.len() == 7);
    assert("numeric"@.len() == 7);
    assert("int"@.len() == 3);
    assert("char"@[0] == 'c');
    assert("varchar"@[0] == 'v');
    assert("nchar"@[1] == 'c');
    assert("text"@[0] == 't');
    assert("ntext"@[1] == 't');
    assert("xml"@[0] == 'x');
    assert("sysname"@[0] == 's');
    assert("decimal"@[0] == 'd');
    assert("numeric"@[0] == 'n');
    assert("int"@[0] == 'i');
    reveal_strlit("decimal(");
    reveal_strlit("nvarchar(");
    reveal_strlit("nvarchar(MAX)");
    reveal_strlit("(");
    reveal_strlit(")");
    reveal_strlit("MAX");
    assert("decimal"@ + "("@ =~= "decimal("@);
    assert("nvarchar"@ + "("@ =~= "nvarchar("@);
    assert("nvarchar"@ + "("@ + "MAX"@ + ")"@ =~= "nvarchar(MAX)"@);
    assert(crate::text::ascii_lower("decimal"@) =~= "decimal"@);
    assert(crate::text::ascii_lower("nvarchar"@) =~= "nvarchar"@);
    assert(crate::text::ascii_lower("int"@) =~= "int"@);
}

/// The columns of an object are those of the rows with its id, in their order.
pub proof fn law_columns(rows: Seq<Json>, r: Json, id: Seq<char>)
    ensures
        columns_of(Seq::empty(), id).len() == 0,
        r.text("objectId"@) == Some(id) ==> columns_of(rows.push(r), id) == columns_of(
            rows,
            id,
        ).push(column_of(r)),
        r.text("objectId"@) != Some(id) ==> columns_of(rows.push(r), id) == columns_of(rows, id),
{
    crate::rows::law_where_text(rows, r, "objectId"@, id);
    if r.text("objectId"@) == Some(id) {
        assert(columns_of(rows.push(r), id) =~= columns_of(rows, id).push(column_of(r)));
    }
}

/// A row belongs to a table by its name and its schema.
pub proof fn law_belongs(r: Json, table: Json, pure: Seq<char>, schema: Seq<char>)
    requires
        table.text("pureName"@) == Some(pure),
        table.get("schemaName"@) == Some(Json::Str(schema)),
    ensures
        r.text("pureName"@) == Some(pure) && r.get("schemaName"@) == Some(Json::Str(schema))
            ==> belongs_to(r, table),
        r.text("pureName"@) != Some(pure) ==> !belongs_to(r, table),
        r.get("schemaName"@) != Some(Json::Str(schema)) ==> !belongs_to(r, table),
{
}

/// The primary key of a table is made of the rows that belong to it, in their order, under the
/// first name among them.
pub proof fn law_primary_key(rows: Seq<Json>, r: Json, table: Json, name: Seq<char>)
    requires
        r.text("columnName"@) == Some(name),
    ensures
        primary_key(Seq::empty(), table) is None,
        !belongs_to(r, table) ==> primary_key(rows.push(r), table) == primary_key(rows, table),
        belongs_to(r, table) ==> (primary_key(rows.push(r), table) matches Some(after) && {
            let c = after.columns_constraint;
            &&& c.columns.last().column_name == name
            &&& c.constraint.constraint_type == ConstraintType::PrimaryKey
            &&& match primary_key(rows, table) {
                Some(before) => c.columns.drop_last() == before.columns_constraint.columns && (
                before.columns_constraint.constraint.constraint_name is Some ==> c.constraint
                    == before.columns_constraint.constraint),
                None => c.columns.len() == 1,
            }
        }),
{
    let own = rows_of(rows, table);
    assert(rows.push(r).drop_last() =~= rows);
    if belongs_to(r, table) {
        assert(rows_of(rows.push(r), table) == own.push(r));
        crate::rows::law_pick_push(
            own,
            |r: Json|
                match r.text("columnName"@) {
                    Some(c) => Some(crate::drivers::common::plain_ref(c)),
                    None => None,
                },
            r,
        );
        crate::rows::law_texts_under(own, r, "constraintName"@);
        let refs = named_refs(own);
        assert(named_refs(own.push(r)) == refs.push(crate::drivers::common::plain_ref(name)));
        assert(refs.push(crate::drivers::common::plain_ref(name)).drop_last() =~= refs);
        let names = crate::rows::texts_under(own, "constraintName"@);
        if names.len() > 0 {
            assert(crate::rows::texts_under(own.push(r), "constraintName"@)[0] == names[0]);
        }
    }
}

/// A foreign key refers to the schema, the table and the column of its row, with its actions.
pub proof fn law_foreign_key(r: Json, table: Json, name: Seq<char>, target: Seq<char>)
    requires
        belongs_to(r, table),
        r.text("constraintName"@) == Some(name),
        r.text("columnName"@) is Some,
        r.text("refTableName"@) == Some(target),
    ensures
        foreign_keys(seq![r], table).len() == 1,
        ({
            let k = foreign_keys(seq![r], table)[0];
            &&& k.columns_constraint.constraint.constraint_name == Some(name)
            &&& k.columns_constraint.columns.len() == 1
            &&& Some(k.columns_constraint.columns[0].column_name) == r.text("columnName"@)
            &&& k.columns_constraint.columns[0].ref_column_name == r.text("refColumnName"@)
            &&& k.ref_table_name == target
            &&& k.ref_schema_name == r.text("refSchemaName"@)
            &&& k.update_action == r.text("updateAction"@)
            &&& k.delete_action == r.text("deleteAction"@)
        }),
{
    let none = Seq::<Json>::empty();
    assert(none.push(r) =~= seq![r]);
    assert(none.push(r).drop_last() =~= none);
    let own = rows_of(none, table);
    assert(own.len() == 0);
    assert(rows_of(seq![r], table) =~= own.push(r));
    assert(foreign_keys(none, table) =~= Seq::empty()) by {
        assert(crate::rows::keys_of(own, "constraintName"@) =~= Seq::empty());
    }
    crate::drivers::common::law_foreign_key_begun(own, r, fk_fields());
    let after = foreign_keys(seq![r], table);
    assert(after.last() == after[0]);
    crate::rows::law_group_push(own, r, "constraintName"@, name);
    assert(crate::rows::group_of(own, "constraintName"@, name) =~= Seq::empty());
    assert(crate::rows::group_of(own.push(r), "constraintName"@, name) =~= seq![r]);
}

/// The columns of an index are those of the rows with the table's id and the index's number, in
/// their order.
pub proof fn law_index_columns(rows: Seq<Json>, r: Json, id: Seq<char>, n: i64, name: Seq<char>)
    requires
        r.text("columnName"@) == Some(name),
    ensures
        r.text("object_id"@) == Some(id) && r.int64("index_id"@) == Some(n) ==> {
            let after = index_columns(rows.push(r), id, Some(n));
            &&& after.len() == index_columns(rows, id, Some(n)).len() + 1
            &&& after.drop_last() == index_columns(rows, id, Some(n))
            &&& after.last().column_name == name
            &&& after.last().is_descending == r.flag("isDescending"@)
            &&& after.last().is_included_column == r.flag("isIncludedColumn"@)
        },
        !(r.text("object_id"@) == Some(id) && r.int64("index_id"@) == Some(n)) ==> index_columns(
            rows.push(r),
            id,
            Some(n),
        ) == index_columns(rows, id, Some(n)),
{
    crate::rows::law_pick_push(
        rows,
        |c: Json|
            if c.text("object_id"@) == Some(id) && c.int64("index_id"@) == Some(n) {
                Some(index_column(c))
            } else {
                None
            },
        r,
    );
    if r.text("object_id"@) == Some(id) && r.int64("index_id"@) == Some(n) {
        let before = index_columns(rows, id, Some(n));
        assert(before.push(index_column(r)).drop_last() =~= before);
    }
}

/// An index row gives an index with its columns, unless it stands for a unique constraint, where
/// it gives that constraint.
pub proof fn law_index(rows: Seq<Json>, r: Json, columns: Seq<Json>, id: Seq<char>)
    ensures
        ({
            let x = indexes_of(rows.push(r), columns, id);
            let u = uniques_of(rows.push(r), columns, id);
            let own = index_columns(columns, id, r.int64("index_id"@));
            &&& r.flag("is_unique_constraint"@) == Some(true) ==> {
                &&& x == indexes_of(rows, columns, id)
                &&& u.len() == uniques_of(rows, columns, id).len() + 1
                &&& u.last().columns_constraint.constraint.constraint_name == r.text(
                    "constraintName"@,
                )
                &&& u.last().columns_constraint.constraint.constraint_type
                    == ConstraintType::Unique
                &&& u.last().columns_constraint.columns == own
            }
            &&& r.flag("is_unique_constraint"@) != Some(true) ==> {
                &&& u == uniques_of(rows, columns, id)
                &&& x.len() == indexes_of(rows, columns, id).len() + 1
                &&& x.last().columns_constraint.constraint.constraint_name == r.text(
                    "constraintName"@,
                )
                &&& x.last().columns_constraint.constraint.constraint_type
                    == ConstraintType::Index
                &&& x.last().columns_constraint.columns == own
                &&& x.last().is_unique <==> r.flag("isUnique"@) == Some(true)
                &&& x.last().index_type == r.text("indexType"@)
                &&& x.last().filter_definition == r.text("filterDefinition"@)
            }
        }),
{
    crate::rows::law_pick_push(rows, |r: Json| as_index(r, columns, id), r);
    crate::rows::law_pick_push(rows, |r: Json| as_unique(r, columns, id), r);
}

/// An object has the name, the schema, the id and the dates of its row.
pub proof fn law_object(row: Json)
    requires
        row.text("pureName"@) is Some,
    ensures
        Some(object_in(row).pure_name) == row.text("pureName"@),
        object_in(row).schema_name == row.text("schemaName"@),
        object_in(row).object_id == row.text("objectId"@),
        object_in(row).create_date == row.text("createDate"@),
        object_in(row).modify_date == row.text("modifyDate"@),
        object_in(row).hash_code == row.text("contentHash"@),
        object_in(row).object_comment == row.text("objectComment"@),
{
}

/// The row count of a table is that of the first row with its id.
pub proof fn law_row_count(before: Seq<Json>, r: Json, after: Seq<Json>, id: Seq<char>)
    requires
        r.text("objectId"@) == Some(id),
        forall|j: int| 0 <= j < before.len() ==> (#[trigger] before[j]).text("objectId"@) != Some(id),
    ensures
        row_count_of(before.push(r) + after, id) == r.int64("tableRowCount"@),
        row_count_of(before, id) is None,
{
    let rows = before.push(r) + after;
    let p = |r: Json| r.text("objectId"@) == Some(id);
    let i = before.len() as int;
    assert(rows[i] == r);
    assert forall|j: int| 0 <= j < rows.take(i).len() implies !p(#[trigger] rows.take(i)[j]) by {
        assert(rows.take(i)[j] == before[j]);
    }
    crate::rows::lemma_none_found(rows.take(i), p);
    crate::rows::lemma_first_found(rows, p, i);
    assert forall|j: int| 0 <= j < before.len() implies !p(#[trigger] before[j]) by {}
    crate::rows::lemma_none_found(before, p);
}

/// The source of an object is made of the pieces that the catalogue holds under its name and its
/// schema, one behind the other.
pub proof fn law_source(rows: Seq<Json>, r: Json, object: Json, pure: Seq<char>, t: Seq<char>)
    requires
        object.text("pureName"@) == Some(pure),
        r.text("codeText"@) == Some(t),
    ensures
        create_sql_of(Seq::empty(), object) is None,
        r.text("pureName"@) == Some(pure) && r.text("schemaName"@) == object.text("schemaName"@)
            ==> create_sql_of(rows.push(r), object) == match create_sql_of(rows, object) {
            Some(before) => Some(before + t),
            None => Some(t),
        },
        !(r.text("pureName"@) == Some(pure) && r.text("schemaName"@) == object.text("schemaName"@))
            ==> create_sql_of(rows.push(r), object) == create_sql_of(rows, object),
{
    let schema = object.text("schemaName"@);
    reveal_strlit("");
    crate::rows::law_pick_push(
        rows,
        |r: Json|
            if r.text("pureName"@) == Some(pure) && r.text("schemaName"@) == schema {
                r.text("codeText"@)
            } else {
                None
            },
        r,
    );
    let parts = code_parts(rows, pure, schema);
    crate::text::law_join(parts, t, ""@);
    if parts.len() == 0 {
        assert(parts.push(t) =~= seq![t]);
    } else {
        assert(crate::text::join(parts, ""@) + ""@ + t =~= crate::text::join(parts, ""@) + t);
    }
}

/// A table has the columns, the keys, the indexes and the row count that the catalogue holds for
/// it.
pub proof fn law_table(row: Json, id: Seq<char>, columns_id: Seq<char>, c: MssqlCatalogView)
    requires
        row.text("objectId"@) == Some(id),
    ensures
        ({
            let t = table_of(row, columns_id, c);
            let indexes = crate::rows::where_text(c.indexes, "object_id"@, id);
            &&& t.object == object_in(row)
            &&& t.columns == columns_of(c.columns, columns_id)
            &&& t.primary_key == primary_key(c.primary_keys, row)
            &&& t.foreign_keys == Some(foreign_keys(c.foreign_keys, row))
            &&& t.indexes == Some(indexes_of(indexes, c.index_columns, id))
            &&& t.uniques == Some(uniques_of(indexes, c.index_columns, id))
            &&& t.table_row_count == row_count_of(c.table_sizes, columns_id)
        }),
{
}

/// The structure of a database has one table for each table row, one view for each view row and
/// one trigger for each trigger row, in their order; its routines are the procedures and
/// functions among its programmable objects.
pub proof fn law_database(c: MssqlCatalogView, i: int)
    ensures
        ({
            let d = database_of(c);
            &&& d.tables.len() == c.tables.len()
            &&& d.views.len() == c.views.len()
            &&& d.triggers.len() == c.triggers.len()
            &&& 0 <= i < c.tables.len() ==> (c.tables[i].text("objectId"@) matches Some(id)
                ==> d.tables[i] == table_of(c.tables[i], id, c))
            &&& 0 <= i < c.views.len() ==> (c.views[i].text("objectId"@) matches Some(id) ==> {
                &&& d.views[i].object.object == object_in(c.views[i])
                &&& d.views[i].object.create_sql == create_sql_of(c.sql_code, c.views[i])
                &&& d.views[i].columns == columns_of(c.view_columns, id)
            })
            &&& 0 <= i < c.triggers.len() ==> d.triggers[i] == trigger_of(c.triggers[i])
            &&& d.procedures == procedures_of(c.programmables, c)
            &&& d.functions == functions_of(c.programmables, c)
        }),
{
}

/// A parameter has the name, the type, the mode and the position of its row.
pub proof fn law_parameter(r: Json)
    requires
        r.text("parameterName"@) is Some,
    ensures
        Some(parameter_of(r).parameter_name) == r.text("parameterName"@),
        parameter_of(r).position == r.int64("parameterIndex"@),
        parameter_of(r).parameter_mode == Some(ParameterMode::Out) <==> r.text("parameterMode"@)
            == Some("OUT"@),
        r.text("parameterMode"@) != Some("OUT"@) ==> parameter_of(r).parameter_mode == Some(
            ParameterMode::In,
        ),
        r.text("dataType"@) matches Some(t) ==> parameter_of(r).data_type == full_type(
            t,
            r.int64("charMaxLength"@),
            r.int64("numericPrecision"@),
            r.int64("numericScale"@),
        ),
{
}

/// A programmable object is a procedure where its type is `P`, a function where it is one of the
/// function types, with the parameters that the catalogue holds under its id.
pub proof fn law_routine(rows: Seq<Json>, r: Json, c: MssqlCatalogView, id: Seq<char>)
    requires
        r.text("objectId"@) == Some(id),
    ensures
        r.text("sqlObjectType"@) == Some("P"@) || r.text("sqlObjectType"@) == Some("P "@) ==> {
            let p = procedures_of(rows.push(r), c);
            &&& functions_of(rows.push(r), c) == functions_of(rows, c)
            &&& p.len() == procedures_of(rows, c).len() + 1
            &&& p.last().callable.object.object == object_in(r)
            &&& p.last().callable.object.create_sql == create_sql_of(c.sql_code, r)
            &&& parameters_of(c.procedure_parameters, id).len() > 0 ==> p.last().callable.parameters
                == Some(parameters_of(c.procedure_parameters, id))
        },
        r.text("sqlObjectType"@) == Some("FN"@) || r.text("sqlObjectType"@) == Some("IF"@) || r.text(
            "sqlObjectType"@,
        ) == Some("TF"@) ==> {
            let f = functions_of(rows.push(r), c);
            &&& procedures_of(rows.push(r), c) == procedures_of(rows, c)
            &&& f.len() == functions_of(rows, c).len() + 1
            &&& f.last().callable.object.object == object_in(r)
            &&& f.last().callable.object.create_sql == create_sql_of(c.sql_code, r)
            &&& parameters_of(c.function_parameters, id).len() > 0 ==> f.last().callable.parameters
                == Some(parameters_of(c.function_parameters, id))
        },
{
    reveal_strlit("P");
    reveal_strlit("P ");
    reveal_strlit("FN");
    reveal_strlit("IF");
    reveal_strlit("TF");
    assert("P"@.len() == 1);
    assert("P "@.len() == 2);
    assert("FN"@.len() == 2);
    assert("IF"@.len() == 2);
    assert("TF"@.len() == 2);
    assert("P "@[0] == 'P');
    assert("FN"@[0] == 'F');
    assert("IF"@[0] == 'I');
    assert("TF"@[0] == 'T');
    crate::text::law_spaces('P');
    crate::text::law_spaces(' ');
    crate::text::law_spaces('F');
    crate::text::law_spaces('N');
    crate::text::law_spaces('I');
    crate::text::law_spaces('T');
    crate::text::law_trim_fixed("P"@);
    crate::text::law_trim_fixed("FN"@);
    crate::text::law_trim_fixed("IF"@);
    crate::text::law_trim_fixed("TF"@);
    let none = Seq::<char>::empty();
    crate::text::law_trim_around(none, "P"@, seq![' ']);
    assert(none + "P"@ + seq![' '] =~= "P "@);
    crate::rows::law_pick_push(
        rows,
        |r: Json|
            if routine_type(r) == "P"@ {
                Some(ProcedureInfoView { callable: callable_of(r, c) })
            } else {
                None
            },
        r,
    );
    crate::rows::law_pick_push(
        rows,
        |r: Json|
            if is_function_type(routine_type(r)) {
                Some(FunctionInfoView { callable: callable_of(r, c), return_type: None })
            } else {
                None
            },
        r,
    );
}

/// The parameters of a routine are those of the rows with its id, in their order.
pub proof fn law_parameters(rows: Seq<Json>, r: Json, id: Seq<char>)
    ensures
        r.text("parentObjectId"@) == Some(id) ==> parameters_of(rows.push(r), id) == parameters_of(
            rows,
            id,
        ).push(parameter_of(r)),
        r.text("parentObjectId"@) != Some(id) ==> parameters_of(rows.push(r), id) == parameters_of(
            rows,
            id,
        ),
{
    crate::rows::law_where_text(rows, r, "parentObjectId"@, id);
    if r.text("parentObjectId"@) == Some(id) {
        assert(parameters_of(rows.push(r), id) =~= parameters_of(rows, id).push(parameter_of(r)));
    }
}

/// A trigger has the name, the table, the timing and the event of its row.
pub proof fn law_trigger(row: Json)
    requires
        row.text("triggerName"@) is Some,
    ensures
        Some(trigger_of(row).object.object.pure_name) == row.text("triggerName"@),
        trigger_of(row).table_name == row.text("tableName"@),
        trigger_of(row).object.create_sql == row.text("definition"@),
        row.text("triggerTiming"@) == Some("AFTER"@) <==> trigger_of(row).trigger_timing == Some(
            TriggerTiming::After,
        ),
        row.text("triggerTiming"@) == Some("INSTEAD OF"@) <==> trigger_of(row).trigger_timing
            == Some(TriggerTiming::InsteadOf),
        row.text("eventType"@) == Some("INSERT"@) <==> trigger_of(row).event_type == Some(
            TriggerEventType::Insert,
        ),
        row.text("eventType"@) == Some("UPDATE"@) <==> trigger_of(row).event_type == Some(
            TriggerEventType::Update,
        ),
        row.text("eventType"@) == Some("DELETE"@) <==> trigger_of(row).event_type == Some(
            TriggerEventType::Delete,
        ),
{
    reveal_strlit("AFTER");
    reveal_strlit("INSTEAD OF");
    reveal_strlit("INSERT");
    reveal_strlit("UPDATE");
    reveal_strlit("DELETE");
    assert("AFTER"@.len() == 5);
    assert("INSTEAD OF"@.len() == 10);
    assert("INSERT"@.len() == 6);
    assert("UPDATE"@.len() == 6);
    assert("DELETE"@.len() == 6);
    assert("INSERT"@[0] == 'I');
    assert("UPDATE"@[0] == 'U');
    assert("DELETE"@[0] == 'D');
}

/// The version of the server: its number, else its text.
pub proof fn law_version(r: Json, rest: Seq<Json>)
    ensures
        r.text("productVersion"@) matches Some(v) ==> version_of(seq![r] + rest).version == v,
        r.text("productVersion"@) is None ==> (r.text("version"@) matches Some(v) ==> version_of(
            seq![r] + rest,
        ).version == v),
        version_of(seq![r] + rest).version_text == r.text("version"@),
        version_of(Seq::empty()).version == "unknown"@,
{
    assert((seq![r] + rest)[0] == r);
}

/// The schema of a table: its own, else the name of the database, else `dbo`; the full name stands
/// in brackets.
pub proof fn law_full_name(s: Seq<char>, d: Seq<char>, pure: Seq<char>)
    ensures
        schema_for(Some(s), Some(d)) == s,
        schema_for(None, Some(d)) == d,
        schema_for(None, None) == "dbo"@,
        full_name_of(s, pure) == "["@ + s + "].["@ + pure + "]"@,
{
}

/// A query asks for one object and one schema.
pub proof fn law_conditions(
    a: Seq<char>,
    b: Seq<char>,
    c: Seq<char>,
    id: Seq<char>,
    schema: Seq<char>,
)
    requires
        forall|k: int|
            0 <= k < a.len() ==> #[trigger] (a + "=OBJECT_ID_CONDITION"@ + (b
                + "=SCHEMA_NAME_CONDITION"@ + c)).subrange(k, k + "=OBJECT_ID_CONDITION"@.len())
                != "=OBJECT_ID_CONDITION"@,
        !crate::text::holds(b + "=SCHEMA_NAME_CONDITION"@ + c, "=OBJECT_ID_CONDITION"@),
        forall|k: int|
            0 <= k < (a + (" = '"@ + id + "'"@) + b).len() ==> #[trigger] (a + (" = '"@ + id + "'"@)
                + b + "=SCHEMA_NAME_CONDITION"@ + c).subrange(
                k,
                k + "=SCHEMA_NAME_CONDITION"@.len(),
            ) != "=SCHEMA_NAME_CONDITION"@,
        !crate::text::holds(c, "=SCHEMA_NAME_CONDITION"@),
    ensures
        with_conditions(
            a + "=OBJECT_ID_CONDITION"@ + (b + "=SCHEMA_NAME_CONDITION"@ + c),
            Some(id),
            Some(schema),
        ) == a + (" = '"@ + id + "'"@) + b + (" = '"@ + schema + "'"@) + c,
{
    reveal_strlit("=OBJECT_ID_CONDITION");
    reveal_strlit("=SCHEMA_NAME_CONDITION");
    let cond = " = '"@ + id + "'"@;
    let rest = b + "=SCHEMA_NAME_CONDITION"@ + c;
    crate::text::law_replace(a, "=OBJECT_ID_CONDITION"@, rest, cond);
    crate::text::law_replace_absent(rest, "=OBJECT_ID_CONDITION"@, cond);
    assert(a + cond + rest =~= a + cond + b + "=SCHEMA_NAME_CONDITION"@ + c);
    crate::text::law_replace(a + cond + b, "=SCHEMA_NAME_CONDITION"@, c, " = '"@ + schema + "'"@);
    crate::text::law_replace_absent(c, "=SCHEMA_NAME_CONDITION"@, " = '"@ + schema + "'"@);
}

/// The queries of a table ask for that table in its schema; those of a database for all.
pub proof fn law_table_queries(id: Seq<char>, schema: Seq<char>)
    ensures
        ({
            let q = table_queries(id, schema);
            &&& q.len() == 7
            &&& q[0] == with_conditions(SQL_TABLES@, Some(id), Some(schema))
            &&& q[1] == with_conditions(SQL_COLUMNS@, Some(id), Some(schema))
            &&& q[2] == with_conditions(SQL_PRIMARY_KEYS@, Some(id), Some(schema))
            &&& q[3] == with_conditions(SQL_FOREIGN_KEYS@, Some(id), Some(schema))
            &&& q[4] == with_conditions(SQL_INDEXES@, Some(id), Some(schema))
            &&& full_queries().len() == 14
            &&& full_queries()[0] == with_conditions(SQL_TABLES@, None, None)
            &&& full_queries()[1] == with_conditions(SQL_COLUMNS@, None, None)
            &&& full_queries()[2] == with_conditions(SQL_PRIMARY_KEYS@, None, None)
            &&& full_queries()[3] == with_conditions(SQL_FOREIGN_KEYS@, None, None)
        }),
{
}

/// A number type shows its precision and its scale, a text or byte type its length, `MAX` where
/// that has no bound; every other type stands alone. The case of the name does not matter.
pub proof fn law_full_type(t: Seq<char>, p: i64, s: i64, n: i64)
    ensures
        ({
            let low = crate::text::ascii_lower(t);
            let number = low == "decimal"@ || low == "numeric"@;
            let sized = low == "char"@ || low == "varchar"@ || low == "nchar"@ || low == "nvarchar"@ || low == "binary"@ || low == "varbinary"@ || low == "text"@ || low == "ntext"@ || low == "xml"@ || low == "sysname"@;
            &&& number ==> full_type(t, Some(n), Some(p), Some(s)) == t + "("@
                + crate::numbers::dec_int(p as int) + ","@ + crate::numbers::dec_int(s as int)
                + ")"@
            &&& sized && n >= 0 ==> full_type(t, Some(n), Some(p), Some(s)) == t + "("@
                + crate::numbers::dec_int(n as int) + ")"@
            &&& sized && n < 0 ==> full_type(t, Some(n), Some(p), Some(s)) == t + "("@ + "MAX"@
                + ")"@
            &&& !number && !sized ==> full_type(t, Some(n), Some(p), Some(s)) == t
            &&& number ==> full_type(t, Some(n), None, Some(s)) == t
            &&& sized ==> full_type(t, None, Some(p), Some(s)) == t
        }),
{
    reveal_strlit("char");
    reveal_strlit("varchar");
    reveal_strlit("nchar");
    reveal_strlit("nvarchar");
    reveal_strlit("binary");
    reveal_strlit("varbinary");
    reveal_strlit("text");
    reveal_strlit("ntext");
    reveal_strlit("xml");
    reveal_strlit("sysname");
    reveal_strlit("decimal");
    reveal_strlit("numeric");
    assert("char"@.len() == 4);
    assert("varchar"@.len() == 7);
    assert("nchar"@.len() == 5);
    assert("nvarchar"@.len() == 8);
    assert("binary"@.len() == 6);
    assert("varbinary"@.len() == 9);
    assert("text"@.len() == 4);
    assert("ntext"@.len() == 5);
    assert("xml"@.len() == 3);
    assert("sysname"@.len() == 7);
    assert("decimal"@.len() == 7);
    assert("numeric"@.len() == 7);
    assert("char"@[0] == 'c');
    assert("varchar"@[0] == 'v');
    assert("nchar"@[1] == 'c');
    assert("text"@[0] == 't');
    assert("ntext"@[1] == 't');
    assert("sysname"@[0] == 's');
    assert("decimal"@[0] == 'd');
    assert("numeric"@[0] == 'n');
}

/// The further types go by their names, and a connection says which program it serves.
pub proof fn law_further_names(def: ConnectionDefinitionView, host: Seq<char>, row: Json)
    ensures
        sql_name(ColumnType::Null) == "null"@,
        sql_name(ColumnType::Floatn) == "float"@,
        sql_name(ColumnType::Money4) == "money"@,
        sql_name(ColumnType::Datetimen) == "datetime"@,
        sql_name(ColumnType::BigBinary) == "binary"@,
        sql_name(ColumnType::Image) == "binary"@,
        sql_name(ColumnType::BigChar) == "varchar"@,
        sql_name(ColumnType::Text) == "varchar"@,
        sql_name(ColumnType::NChar) == "nvarchar"@,
        sql_name(ColumnType::NText) == "nvarchar"@,
        sql_name(ColumnType::Datetime4) == "smalldatetime"@,
        sql_name(ColumnType::Udt) == "udt"@,
        sql_name(ColumnType::SSVariant) == "sql_variant"@,
        config_of(def, host).application_name == "DbGate"@,
        object_in(row).object_type_field == row.text("sqlObjectType"@),
        object_in(row).pairing_id is None,
{
}

/// Where neither a row nor a table names a schema, the names decide; where only one of them does,
/// they do not belong together.
pub proof fn law_belongs_without_schema(r: Json, table: Json, pure: Seq<char>)
    requires
        table.text("pureName"@) == Some(pure),
        r.text("pureName"@) == Some(pure),
    ensures
        table.get("schemaName"@) is None && r.get("schemaName"@) is None ==> belongs_to(r, table),
        table.get("schemaName"@) is None && r.get("schemaName"@) is Some ==> !belongs_to(r, table),
        table.get("schemaName"@) is Some && r.get("schemaName"@) is None ==> !belongs_to(r, table),
{
}

/// A key has the first name that its rows give.
pub proof fn law_first_name(rows: Seq<Json>, r: Json)
    ensures
        first_name(Seq::empty()) is None,
        first_name(rows) is Some ==> first_name(rows.push(r)) == first_name(rows),
        first_name(rows) is None ==> first_name(rows.push(r)) == r.text("constraintName"@),
{
    crate::rows::law_texts_under(rows, r, "constraintName"@);
}

/// A port beyond sixteen bits counts by what remains of it in them.
pub proof fn law_wide_port(def: ConnectionDefinitionView, p: u32, k: int, host: Seq<char>)
    requires
        def.port == Some(p),
        0 <= p - k * 65536 < 65536,
    ensures
        config_of(def, host).port == p - k * 65536,
{
}

} // verus!
