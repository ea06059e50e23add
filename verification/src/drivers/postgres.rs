//! PostgreSQL engine driver.
//!
//! Text family types stay strings, `bytea` becomes `$binary`, and geometry /
//! geography columns (reported through the OID -> name map) become `$binary` as
//! well.
use vstd::prelude::*;

use crate::connection::{ConnectionDefinition, ConnectionDefinitionView};
use crate::datetime::{date_text, datetime_text, datetime_utc_text};
use crate::dbinfo::{
    CallableObjectInfo, CallableObjectInfoView, ColumnInfo, ColumnInfoView, ColumnReference,
    ColumnReferenceView, ConstraintType, DatabaseInfo, DatabaseInfoView, DatabaseObjectInfo,
    DatabaseObjectInfoView, ForeignKeyInfo, ForeignKeyInfoView, FunctionInfo, FunctionInfoView,
    IndexInfo, IndexInfoView, NamedObjectInfo, ParameterInfo, ParameterInfoView, ParameterMode,
    PrimaryKeyInfo, PrimaryKeyInfoView, ProcedureInfo, ProcedureInfoView, TableInfo, TableInfoView,
    TriggerEventType, TriggerInfo, TriggerInfoView, TriggerTiming, UniqueInfo, UniqueInfoView,
    ViewInfo, ViewInfoView,
};
use crate::driver::{
    list_databases_under, stream_single_result, Capabilities, DatabaseEntry, ServerVersion,
    ServerVersionView, StreamEvent,
};
use crate::drivers::common::{
    constraint_over, foreign_keys_from, object_id_condition, object_info, primary_key_from, sql_object,
    ForeignKeyFields,
};
use crate::drivers::postgres_queries::{
    SQL_COLUMNS, SQL_FOREIGN_KEYS, SQL_GEOGRAPHY_COLUMNS, SQL_GEOMETRY_COLUMNS, SQL_INDEXCOLS,
    SQL_INDEXES, SQL_MATVIEWS, SQL_MATVIEW_COLUMNS, SQL_PRIMARY_KEYS, SQL_PROCEDURES_PARAMETERS,
    SQL_ROUTINES, SQL_TABLES, SQL_TRIGGERS, SQL_UNIQUE_NAMES, SQL_VIEWS,
};
use crate::encoding::{binary_value, number_or_null};
use crate::error::{DbgmError, DbgmResult};
use crate::numbers::{decimal_signed, parse_signed};
use crate::query::{QueryResultColumn, QueryResultColumnView};
use crate::rows::{
    collect_texts, get_i64, get_str, get_text, list_has, map_list, new_list, push_item,
    rows_with_texts, text_is,
};
use crate::text::{
    concat2, concat3, concat4, concat5, contains, joined, replaced, same, split_on, split_words,
    starts_with,
};
use crate::value::{object_from, text_value, Json, Value};

verus! {

/// Dotted engine id for PostgreSQL.
pub const POSTGRES_ENGINE: &'static str = "postgres@dbgate-plugin-postgres";

/// The PostgreSQL driver.
pub struct PostgresDriver;

impl Default for PostgresDriver {
    fn default() -> (r: Self)
        ensures
            r == PostgresDriver,
    {
        PostgresDriver::new()
    }
}

impl PostgresDriver {
    pub fn new() -> (r: Self)
        ensures
            r == PostgresDriver,
    {
        PostgresDriver
    }

    pub fn engine(&self) -> (r: &'static str)
        ensures
            r@ == POSTGRES_ENGINE@,
    {
        POSTGRES_ENGINE
    }

    pub fn title(&self) -> (r: &'static str)
        ensures
            r@ == "PostgreSQL"@,
    {
        "PostgreSQL"
    }

    pub fn capabilities(&self) -> (r: Capabilities)
        ensures
            r == (Capabilities {
                read_only_sessions: false,
                supports_transactions: true,
                supports_native_backup: true,
                supports_native_restore: true,
                supports_server_summary: true,
                default_port: Some(5432),
            }),
    {
        Capabilities {
            read_only_sessions: false,
            supports_transactions: true,
            supports_native_backup: true,
            supports_native_restore: true,
            supports_server_summary: true,
            default_port: Some(5432),
        }
    }

    /// Bulk writes are not offered.
    pub fn write_table_unsupported(&self) -> (r: DbgmError)
        ensures
            r.deep_view() == crate::error::generic_error(
                "PostgreSQL write_table streaming is not yet supported"@,
            ),
    {
        DbgmError::new("PostgreSQL write_table streaming is not yet supported".to_owned())
    }
}

// ---------------------------------------------------------------------------
// Connecting
// ---------------------------------------------------------------------------

/// What a client is configured with.
pub struct PostgresConfig {
    pub host: String,
    pub port: u16,
    pub user: Option<String>,
    pub password: Option<String>,
    pub dbname: String,
    pub application_name: String,
    pub read_only: bool,
}

/// What a [`PostgresConfig`] holds.
pub struct PostgresConfigView {
    pub host: Seq<char>,
    pub port: u16,
    pub user: Option<Seq<char>>,
    pub password: Option<Seq<char>>,
    pub dbname: Seq<char>,
    pub application_name: Seq<char>,
    pub read_only: bool,
}

impl DeepView for PostgresConfig {
    type V = PostgresConfigView;

    open spec fn deep_view(&self) -> PostgresConfigView {
        PostgresConfigView {
            host: self.host@,
            port: self.port,
            user: self.user.deep_view(),
            password: self.password.deep_view(),
            dbname: self.dbname@,
            application_name: self.application_name@,
            read_only: self.read_only,
        }
    }
}

/// The configuration for a definition with the server `host`. The database
/// defaults to `postgres`; of the port the low 16 bits count.
pub open spec fn config_of(def: ConnectionDefinitionView, host: Seq<char>) -> PostgresConfigView {
    PostgresConfigView {
        host,
        port: match def.port {
            Some(p) => (p % 65536) as u16,
            None => 5432,
        },
        user: def.user,
        password: def.password,
        dbname: match def.database {
            Some(d) => d,
            None => "postgres"@,
        },
        application_name: "DbGate"@,
        read_only: def.is_read_only == Some(true),
    }
}

/// Builds a client configuration from a connection definition.
pub fn build_config(def: &ConnectionDefinition) -> (r: DbgmResult<PostgresConfig>)
    ensures
        match r {
            Ok(c) => def.server is Some && c.deep_view() == config_of(
                def.deep_view(),
                def.server->0@,
            ),
            Err(e) => def.server is None && e.deep_view() == crate::error::generic_error(
                "PostgreSQL connection requires a server host"@,
            ),
        },
        r matches Ok(c) ==> (def.port matches Some(p) ==> p < 65536 ==> c.port == p),
{
    match &def.server {
        Some(server) => Ok(
            PostgresConfig {
                host: server.clone(),
                port: match def.port {
                    Some(p) => (p % 65536) as u16,
                    None => 5432,
                },
                user: def.user.clone(),
                password: def.password.clone(),
                dbname: match &def.database {
                    Some(d) => d.clone(),
                    None => "postgres".to_owned(),
                },
                application_name: "DbGate".to_owned(),
                read_only: match def.is_read_only {
                    Some(b) => b,
                    None => false,
                },
            },
        ),
        None => Err(DbgmError::new("PostgreSQL connection requires a server host".to_owned())),
    }
}

/// The entry of the OID -> type-name map that a row describes. An OID is the low
/// 32 bits of the number.
pub open spec fn type_entry(row: Json) -> Option<(u32, Seq<char>)> {
    match (row.int64("oid"@), row.text("typname"@)) {
        (Some(oid), Some(name)) => Some((oid as u32, name)),
        _ => None,
    }
}

/// The OID -> type-name map that rows describe.
pub open spec fn type_entries(rows: Seq<Json>) -> Seq<(u32, Seq<char>)> {
    crate::rows::pick(rows, |r: Json| type_entry(r))
}

/// Reads the OID -> type-name map (bytea / geography / geometry).
pub fn type_id_to_name(rows: &Vec<Value>) -> (r: Vec<(u32, String)>)
    ensures
        r.deep_view() == type_entries(rows.deep_view()),
{
    let ghost all = rows.deep_view();
    let mut out: Vec<(u32, String)> = new_list();
    let mut i: usize = 0;
    while i < rows.len()
        invariant
            i <= rows@.len(),
            all == rows.deep_view(),
            out.deep_view() == type_entries(all.take(i as int)),
        decreases rows@.len() - i,
    {
        proof {
            crate::rows::lemma_take_next(all, i as int);
        }
        if let Some(oid) = get_i64(&rows[i], "oid") {
            if let Some(name) = get_str(&rows[i], "typname") {
                push_item(&mut out, (#[verifier::truncate] (oid as u32), name));
            }
        }
        i = i + 1;
    }
    proof {
        crate::rows::lemma_take_all(all);
    }
    out
}

// ---------------------------------------------------------------------------
// Value mapping
// ---------------------------------------------------------------------------

/// A column of a result set.
pub struct PostgresColumn {
    pub name: String,
    pub data_type: String,
    pub oid: u32,
}

/// What a [`PostgresColumn`] holds.
pub struct PostgresColumnView {
    pub name: Seq<char>,
    pub data_type: Seq<char>,
    pub oid: u32,
}

impl DeepView for PostgresColumn {
    type V = PostgresColumnView;

    open spec fn deep_view(&self) -> PostgresColumnView {
        PostgresColumnView { name: self.name@, data_type: self.data_type@, oid: self.oid }
    }
}

/// As what a cell is to be read, by the type of its column.
#[derive(Debug, Clone, Copy, PartialEq, Eq, Structural)]
pub enum CellKind {
    Bool,
    Int2,
    Int4,
    Int8,
    Float4,
    Float8,
    Text,
    Bytes,
    Date,
    Timestamp,
    TimestampTz,
    Unsupported,
}

/// A cell that was read. Integers of every width widen to `Int`, floating-point
/// numbers of either width to the bits of a double.
pub enum PostgresCell {
    Bool(bool),
    Int(i64),
    Double(u64),
    Text(String),
    Bytes(Vec<u8>),
    Date(i32),
    Timestamp(i32, u32, u32),
    TimestampTz(i32, u32, u32),
}

/// The name that an OID is bound to: by the last entry, where there are several.
pub open spec fn type_name_of(entries: Seq<(u32, Seq<char>)>, oid: u32) -> Option<Seq<char>>
    decreases entries.len(),
{
    if entries.len() == 0 {
        None
    } else if entries.last().0 == oid {
        Some(entries.last().1)
    } else {
        type_name_of(entries.drop_last(), oid)
    }
}

/// Whether an OID is that of a PostGIS type.
pub open spec fn is_spatial(entries: Seq<(u32, Seq<char>)>, oid: u32) -> bool {
    type_name_of(entries, oid) == Some("geometry"@) || type_name_of(entries, oid) == Some(
        "geography"@,
    )
}

/// As what a cell of a column is to be read.
pub open spec fn kind_of(
    data_type: Seq<char>,
    oid: u32,
    entries: Seq<(u32, Seq<char>)>,
) -> CellKind {
    if data_type == "bool"@ {
        CellKind::Bool
    } else if data_type == "int2"@ {
        CellKind::Int2
    } else if data_type == "int4"@ {
        CellKind::Int4
    } else if data_type == "int8"@ {
        CellKind::Int8
    } else if data_type == "float4"@ {
        CellKind::Float4
    } else if data_type == "float8"@ {
        CellKind::Float8
    } else if data_type == "text"@ || data_type == "varchar"@ || data_type == "bpchar"@ || data_type
        == "name"@ || data_type == "citext"@ || data_type == "char"@ {
        CellKind::Text
    } else if data_type == "bytea"@ {
        CellKind::Bytes
    } else if data_type == "date"@ {
        CellKind::Date
    } else if data_type == "timestamp"@ {
        CellKind::Timestamp
    } else if data_type == "timestamptz"@ {
        CellKind::TimestampTz
    } else if is_spatial(entries, oid) {
        CellKind::Bytes
    } else {
        CellKind::Unsupported
    }
}

fn spatial(entries: &Vec<(u32, String)>, oid: u32) -> (r: bool)
    ensures
        r == is_spatial(entries.deep_view(), oid),
{
    let ghost all = entries.deep_view();
    let mut found = false;
    let mut i: usize = 0;
    while i < entries.len()
        invariant
            i <= entries@.len(),
            all == entries.deep_view(),
            found == is_spatial(all.take(i as int), oid),
        decreases entries@.len() - i,
    {
        proof {
            crate::rows::lemma_take_next(all, i as int);
            assert(all[i as int] == (entries@[i as int].0, entries@[i as int].1@));
        }
        if entries[i].0 == oid {
            let name = entries[i].1.as_str();
            found = same(name, "geometry") || same(name, "geography");
        }
        i = i + 1;
    }
    proof {
        crate::rows::lemma_take_all(all);
    }
    found
}

/// As what a cell is to be read, dispatching on the column type name.
pub fn cell_kind(column: &PostgresColumn, type_id_to_name: &Vec<(u32, String)>) -> (r: CellKind)
    ensures
        r == kind_of(column.data_type@, column.oid, type_id_to_name.deep_view()),
{
    let t = column.data_type.as_str();
    if same(t, "bool") {
        CellKind::Bool
    } else if same(t, "int2") {
        CellKind::Int2
    } else if same(t, "int4") {
        CellKind::Int4
    } else if same(t, "int8") {
        CellKind::Int8
    } else if same(t, "float4") {
        CellKind::Float4
    } else if same(t, "float8") {
        CellKind::Float8
    } else if same(t, "text") || same(t, "varchar") || same(t, "bpchar") || same(t, "name") || same(
        t,
        "citext",
    ) || same(t, "char") {
        CellKind::Text
    } else if same(t, "bytea") {
        CellKind::Bytes
    } else if same(t, "date") {
        CellKind::Date
    } else if same(t, "timestamp") {
        CellKind::Timestamp
    } else if same(t, "timestamptz") {
        CellKind::TimestampTz
    } else if spatial(type_id_to_name, column.oid) {
        CellKind::Bytes
    } else {
        CellKind::Unsupported
    }
}

/// The JSON form of a cell that was read as `kind`. What could not be read is
/// null.
pub open spec fn cell_json(kind: CellKind, cell: Option<PostgresCell>) -> Json {
    match (kind, cell) {
        (CellKind::Bool, Some(PostgresCell::Bool(b))) => Json::Bool(b),
        (CellKind::Int2, Some(PostgresCell::Int(n))) => Json::Int(n as int),
        (CellKind::Int4, Some(PostgresCell::Int(n))) => Json::Int(n as int),
        (CellKind::Int8, Some(PostgresCell::Int(n))) => Json::Int(n as int),
        (CellKind::Float4, Some(PostgresCell::Double(d))) => crate::encoding::double_json(d),
        (CellKind::Float8, Some(PostgresCell::Double(d))) => crate::encoding::double_json(d),
        (CellKind::Text, Some(PostgresCell::Text(s))) => Json::Str(s@),
        (CellKind::Bytes, Some(PostgresCell::Bytes(b))) => crate::encoding::binary_json(b@),
        (CellKind::Date, Some(PostgresCell::Date(d))) => crate::value::text_or_null(
            crate::datetime::date_display(d),
        ),
        (CellKind::Timestamp, Some(PostgresCell::Timestamp(d, s, n))) => crate::value::text_or_null(
            crate::datetime::datetime_display(d, s, n),
        ),
        (CellKind::TimestampTz, Some(PostgresCell::TimestampTz(d, s, n))) => crate::value::text_or_null(
            crate::datetime::datetime_utc_display(d, s, n),
        ),
        _ => Json::Null,
    }
}

/// Converts a single cell to JSON.
pub fn column_value(kind: CellKind, cell: &Option<PostgresCell>) -> (r: Value)
    ensures
        r@ == cell_json(kind, *cell),
{
    match (kind, cell) {
        (CellKind::Bool, Some(PostgresCell::Bool(b))) => Value::Bool(*b),
        (CellKind::Int2, Some(PostgresCell::Int(n))) => Value::Int(*n as i128),
        (CellKind::Int4, Some(PostgresCell::Int(n))) => Value::Int(*n as i128),
        (CellKind::Int8, Some(PostgresCell::Int(n))) => Value::Int(*n as i128),
        (CellKind::Float4, Some(PostgresCell::Double(d))) => number_or_null(*d),
        (CellKind::Float8, Some(PostgresCell::Double(d))) => number_or_null(*d),
        (CellKind::Text, Some(PostgresCell::Text(s))) => Value::Str(s.clone()),
        (CellKind::Bytes, Some(PostgresCell::Bytes(b))) => binary_value(b),
        (CellKind::Date, Some(PostgresCell::Date(d))) => text_value(date_text(*d)),
        (CellKind::Timestamp, Some(PostgresCell::Timestamp(d, s, n))) => text_value(
            datetime_text(*d, *s, *n),
        ),
        (CellKind::TimestampTz, Some(PostgresCell::TimestampTz(d, s, n))) => text_value(
            datetime_utc_text(*d, *s, *n),
        ),
        _ => Value::Null,
    }
}

/// The JSON object of a row: its cells under the names of their columns.
pub open spec fn row_json(
    columns: Seq<PostgresColumnView>,
    cells: Seq<Option<PostgresCell>>,
    entries: Seq<(u32, Seq<char>)>,
) -> Json {
    crate::value::row_object(
        Seq::new(columns.len(), |i: int| columns[i].name),
        Seq::new(
            columns.len(),
            |i: int| cell_json(kind_of(columns[i].data_type, columns[i].oid, entries), cells[i]),
        ),
    )
}

/// Converts a full row to a JSON object keyed by column name.
pub fn row_to_value(
    columns: &Vec<PostgresColumn>,
    cells: &Vec<Option<PostgresCell>>,
    type_id_to_name: &Vec<(u32, String)>,
) -> (r: Value)
    requires
        columns@.len() == cells@.len(),
    ensures
        r@ == row_json(columns.deep_view(), cells@, type_id_to_name.deep_view()),
{
    let mut names: Vec<String> = Vec::new();
    let mut values: Vec<Value> = Vec::new();
    let mut i: usize = 0;
    while i < columns.len()
        invariant
            i <= columns@.len() == cells@.len(),
            names@.len() == i,
            values@.len() == i,
            forall|k: int| 0 <= k < i ==> (#[trigger] names@[k])@ == columns@[k].name@,
            forall|k: int|
                0 <= k < i ==> (#[trigger] values@[k])@ == cell_json(
                    kind_of(
                        columns@[k].data_type@,
                        columns@[k].oid,
                        type_id_to_name.deep_view(),
                    ),
                    cells@[k],
                ),
        decreases columns@.len() - i,
    {
        names.push(columns[i].name.clone());
        values.push(column_value(cell_kind(&columns[i], type_id_to_name), &cells[i]));
        i = i + 1;
    }
    proof {
        let cv = columns.deep_view();
        assert(names.deep_view() =~= Seq::new(cv.len(), |k: int| cv[k].name));
        assert(values.deep_view() =~= Seq::new(
            cv.len(),
            |k: int|
                cell_json(
                    kind_of(cv[k].data_type, cv[k].oid, type_id_to_name.deep_view()),
                    cells@[k],
                ),
        ));
    }
    object_from(&names, values)
}

/// The metadata of a result set's columns.
pub open spec fn metadata_of(columns: Seq<PostgresColumnView>) -> Seq<QueryResultColumnView> {
    Seq::new(
        columns.len(),
        |i: int| crate::query::plain_column(columns[i].name, Some(columns[i].data_type)),
    )
}

/// Builds the column metadata for a result set's columns.
pub fn columns_metadata(columns: &Vec<PostgresColumn>) -> (r: Vec<QueryResultColumn>)
    ensures
        r.deep_view() == metadata_of(columns.deep_view()),
{
    let f = |c: &PostgresColumn| -> (q: QueryResultColumn)
        ensures
            q.deep_view() == crate::query::plain_column(c.name@, Some(c.data_type@)),
    {
        QueryResultColumn::plain(c.name.clone(), Some(c.data_type.clone()))
    };
    let r = map_list(columns, f);
    assert(r.deep_view() =~= metadata_of(columns.deep_view()));
    r
}

/// The events of a streamed query.
pub fn stream_events(columns: Vec<QueryResultColumn>, rows: Vec<Value>) -> (r: Vec<StreamEvent>)
    ensures
        r.deep_view() == crate::driver::single_result_events(
            columns.deep_view(),
            rows.deep_view(),
        ),
{
    stream_single_result(columns, rows)
}

// ---------------------------------------------------------------------------
// Server metadata
// ---------------------------------------------------------------------------

/// The first of some words that has a point in it.
pub open spec fn dotted_word(words: Seq<Seq<char>>) -> Option<Seq<char>> {
    crate::rows::first_where(words, |w: Seq<char>| crate::text::split(w, '.').len() >= 2)
}

/// The product that a version text in small letters names.
pub open spec fn product_in(low: Seq<char>) -> Seq<char> {
    if crate::text::holds(low, "cockroach"@) {
        "CockroachDB"@
    } else if crate::text::holds(low, "redshift"@) {
        "Redshift"@
    } else {
        "PostgreSQL"@
    }
}

/// The product that a version text names.
pub open spec fn product_of(version: Seq<char>) -> Seq<char> {
    product_in(crate::encoding::lowercase(version))
}

/// The product that a version text in small letters names.
pub fn product_name(low: &str) -> (r: &'static str)
    ensures
        r@ == product_in(low@),
{
    if contains(low, "cockroach") {
        "CockroachDB"
    } else if contains(low, "redshift") {
        "Redshift"
    } else {
        "PostgreSQL"
    }
}

/// The version that the rows of `SELECT version()` report.
pub open spec fn version_of(rows: Seq<Json>) -> ServerVersionView {
    let version = if rows.len() > 0 && rows[0].text("version"@) is Some {
        rows[0].text("version"@)->0
    } else {
        "unknown"@
    };
    ServerVersionView {
        version,
        version_text: match dotted_word(crate::text::split(version, ' ')) {
            Some(word) => Some(product_of(version) + " "@ + word),
            None => None,
        },
    }
}

fn find_dotted(words: &Vec<String>) -> (r: Option<String>)
    ensures
        r.deep_view() == dotted_word(words.deep_view()),
{
    let ghost all = words.deep_view();
    let mut found: Option<String> = None;
    let mut i: usize = 0;
    while i < words.len()
        invariant
            i <= words@.len(),
            all == words.deep_view(),
            found.deep_view() == dotted_word(all.take(i as int)),
        decreases words@.len() - i,
    {
        proof {
            crate::rows::lemma_take_next(all, i as int);
        }
        if found.is_none() {
            let parts = split_on(words[i].as_str(), '.');
            assert(crate::text::texts(parts@).len() == parts@.len());
            if parts.len() >= 2 {
                found = Some(words[i].clone());
            }
        }
        i = i + 1;
    }
    proof {
        crate::rows::lemma_take_all(all);
    }
    found
}

/// The server version, from the rows of `SELECT version()`.
pub fn server_version(rows: &Vec<Value>) -> (r: ServerVersion)
    ensures
        r.deep_view() == version_of(rows.deep_view()),
{
    let reported = if rows.len() > 0 {
        assert(rows.deep_view()[0] == rows@[0]@);
        get_str(&rows[0], "version")
    } else {
        None
    };
    let version = match reported {
        Some(v) => v,
        None => "unknown".to_owned(),
    };
    let words = split_on(version.as_str(), ' ');
    assert(words.deep_view() =~= crate::text::texts(words@));
    let version_text = match find_dotted(&words) {
        Some(word) => {
            let product = product_name(version.as_str().to_lowercase().as_str());
            Some(concat3(product, " ", word.as_str()))
        },
        None => None,
    };
    ServerVersion { version, version_text }
}

/// The databases on a server, from the rows of the database query.
pub fn list_databases(rows: &Vec<Value>) -> (r: Vec<DatabaseEntry>)
    ensures
        r.deep_view() == crate::driver::databases_under(rows.deep_view(), "name"@),
{
    list_databases_under(rows, "name")
}

// ---------------------------------------------------------------------------
// Analysis queries
// ---------------------------------------------------------------------------

/// The id of an object: `{kind}:{schema}.{pure}`.
pub open spec fn id_of(kind: Seq<char>, schema: Seq<char>, pure: Seq<char>) -> Seq<char> {
    kind + ":"@ + schema + "."@ + pure
}

pub fn object_id(kind: &str, schema: &str, pure: &str) -> (r: String)
    ensures
        r@ == id_of(kind@, schema@, pure@),
{
    concat5(kind, ":", schema, ".", pure)
}

/// The condition on schema names: one schema, or any but the system schemas.
pub open spec fn schema_condition(schema: Option<Seq<char>>) -> Seq<char> {
    match schema {
        Some(s) => " = '"@ + s + "'"@,
        None => " not in ('pg_catalog', 'pg_toast', 'information_schema')"@,
    }
}

/// A query template with its placeholders filled in.
pub open spec fn with_conditions(
    template: Seq<char>,
    object_id: Option<Seq<char>>,
    schema: Option<Seq<char>>,
) -> Seq<char> {
    crate::text::replace(
        crate::text::replace(template, "=OBJECT_ID_CONDITION"@, crate::drivers::common::id_condition(object_id)),
        "=SCHEMA_NAME_CONDITION"@,
        schema_condition(schema),
    )
}

/// Substitutes the analyser `=OBJECT_ID_CONDITION` / `=SCHEMA_NAME_CONDITION`
/// placeholders. `object_id` is `None` in full-analysis mode (all objects)
/// and `schema` is `None` for the default schema-name exclusion.
pub fn substitute_conditions(template: &str, object_id: Option<&str>, schema: Option<&str>) -> (r:
    String)
    ensures
        r@ == with_conditions(
            template@,
            crate::value::opt_str(object_id),
            crate::value::opt_str(schema),
        ),
{
    proof {
        reveal_strlit("=OBJECT_ID_CONDITION");
        reveal_strlit("=SCHEMA_NAME_CONDITION");
    }
    let object_cond = object_id_condition(object_id);
    let schema_cond = match schema {
        Some(s) => concat3(" = '", s, "'"),
        None => " not in ('pg_catalog', 'pg_toast', 'information_schema')".to_owned(),
    };
    let with_object = replaced(template, "=OBJECT_ID_CONDITION", object_cond.as_str());
    replaced(with_object.as_str(), "=SCHEMA_NAME_CONDITION", schema_cond.as_str())
}

/// The queries of a full analysis, in the order of the fields of
/// [`PostgresCatalog`].
pub open spec fn full_queries() -> Seq<Seq<char>> {
    seq![
        with_conditions(SQL_TABLES@, None, None),
        with_conditions(SQL_VIEWS@, None, None),
        with_conditions(SQL_COLUMNS@, None, None),
        with_conditions(SQL_PRIMARY_KEYS@, None, None),
        with_conditions(SQL_FOREIGN_KEYS@, None, None),
        with_conditions(SQL_UNIQUE_NAMES@, None, None),
        with_conditions(SQL_ROUTINES@, None, None),
        with_conditions(SQL_PROCEDURES_PARAMETERS@, None, None),
        with_conditions(SQL_INDEXES@, None, None),
        with_conditions(SQL_INDEXCOLS@, None, None),
        with_conditions(SQL_MATVIEWS@, None, None),
        with_conditions(SQL_MATVIEW_COLUMNS@, None, None),
        with_conditions(SQL_TRIGGERS@, None, None),
        with_conditions(SQL_GEOMETRY_COLUMNS@, None, None),
        with_conditions(SQL_GEOGRAPHY_COLUMNS@, None, None),
    ]
}

/// The queries of a full analysis.
pub fn full_analysis_queries() -> (r: Vec<String>)
    ensures
        r.deep_view() == full_queries(),
{
    let mut out: Vec<String> = Vec::new();
    out.push(substitute_conditions(SQL_TABLES, None, None));
    out.push(substitute_conditions(SQL_VIEWS, None, None));
    out.push(substitute_conditions(SQL_COLUMNS, None, None));
    out.push(substitute_conditions(SQL_PRIMARY_KEYS, None, None));
    out.push(substitute_conditions(SQL_FOREIGN_KEYS, None, None));
    out.push(substitute_conditions(SQL_UNIQUE_NAMES, None, None));
    out.push(substitute_conditions(SQL_ROUTINES, None, None));
    out.push(substitute_conditions(SQL_PROCEDURES_PARAMETERS, None, None));
    out.push(substitute_conditions(SQL_INDEXES, None, None));
    out.push(substitute_conditions(SQL_INDEXCOLS, None, None));
    out.push(substitute_conditions(SQL_MATVIEWS, None, None));
    out.push(substitute_conditions(SQL_MATVIEW_COLUMNS, None, None));
    out.push(substitute_conditions(SQL_TRIGGERS, None, None));
    out.push(substitute_conditions(SQL_GEOMETRY_COLUMNS, None, None));
    out.push(substitute_conditions(SQL_GEOGRAPHY_COLUMNS, None, None));
    assert(out.deep_view() =~= full_queries());
    out
}

/// The schema that a table name refers to: `public` where none is given.
pub open spec fn schema_or_public(schema: Option<Seq<char>>) -> Seq<char> {
    match schema {
        Some(s) => s,
        None => "public"@,
    }
}

/// The queries of the analysis of one table: tables, columns, primary keys,
/// foreign keys, unique names, indexes, index columns, geometry columns,
/// geography columns.
pub open spec fn table_queries(schema: Seq<char>, pure: Seq<char>) -> Seq<Seq<char>> {
    let id = Some(id_of("tables"@, schema, pure));
    seq![
        with_conditions(SQL_TABLES@, id, Some(schema)),
        with_conditions(SQL_COLUMNS@, id, Some(schema)),
        with_conditions(SQL_PRIMARY_KEYS@, id, Some(schema)),
        with_conditions(SQL_FOREIGN_KEYS@, id, Some(schema)),
        with_conditions(SQL_UNIQUE_NAMES@, None, Some(schema)),
        with_conditions(SQL_INDEXES@, id, Some(schema)),
        with_conditions(SQL_INDEXCOLS@, id, Some(schema)),
        with_conditions(SQL_GEOMETRY_COLUMNS@, id, Some(schema)),
        with_conditions(SQL_GEOGRAPHY_COLUMNS@, id, Some(schema)),
    ]
}

fn schema_of(name: &NamedObjectInfo) -> (r: String)
    ensures
        r@ == schema_or_public(name.schema_name.deep_view()),
{
    match &name.schema_name {
        Some(s) => s.clone(),
        None => "public".to_owned(),
    }
}

/// The queries of the analysis of one table.
pub fn table_analysis_queries(name: &NamedObjectInfo) -> (r: Vec<String>)
    ensures
        r.deep_view() == table_queries(
            schema_or_public(name.schema_name.deep_view()),
            name.pure_name@,
        ),
{
    let schema = schema_of(name);
    let key = object_id("tables", schema.as_str(), name.pure_name.as_str());
    let id = Some(key.as_str());
    let within = Some(schema.as_str());
    let mut out: Vec<String> = Vec::new();
    out.push(substitute_conditions(SQL_TABLES, id, within));
    out.push(substitute_conditions(SQL_COLUMNS, id, within));
    out.push(substitute_conditions(SQL_PRIMARY_KEYS, id, within));
    out.push(substitute_conditions(SQL_FOREIGN_KEYS, id, within));
    out.push(substitute_conditions(SQL_UNIQUE_NAMES, None, within));
    out.push(substitute_conditions(SQL_INDEXES, id, within));
    out.push(substitute_conditions(SQL_INDEXCOLS, id, within));
    out.push(substitute_conditions(SQL_GEOMETRY_COLUMNS, id, within));
    out.push(substitute_conditions(SQL_GEOGRAPHY_COLUMNS, id, within));
    assert(out.deep_view() =~= table_queries(schema@, name.pure_name@));
    out
}

// ---------------------------------------------------------------------------
// Columns
// ---------------------------------------------------------------------------

/// The short name of a type.
pub open spec fn normal_type(data_type: Seq<char>) -> Seq<char> {
    if data_type == "character varying"@ {
        "varchar"@
    } else if data_type == "timestamp without time zone"@ {
        "timestamp"@
    } else {
        data_type
    }
}

pub fn normalize_type_name(data_type: &str) -> (r: String)
    ensures
        r@ == normal_type(data_type@),
{
    if same(data_type, "character varying") {
        "varchar".to_owned()
    } else if same(data_type, "timestamp without time zone") {
        "timestamp".to_owned()
    } else {
        data_type.to_owned()
    }
}

pub open spec fn is_string_type(t: Seq<char>) -> bool {
    t == "varchar"@ || t == "char"@ || t == "bpchar"@ || t == "character"@ || t == "text"@ || t
        == "name"@ || t == "citext"@
}

pub open spec fn is_numeric_type(t: Seq<char>) -> bool {
    t == "numeric"@ || t == "decimal"@
}

fn is_type_string(t: &str) -> (r: bool)
    ensures
        r == is_string_type(t@),
{
    same(t, "varchar") || same(t, "char") || same(t, "bpchar") || same(t, "character") || same(
        t,
        "text",
    ) || same(t, "name") || same(t, "citext")
}

fn is_type_numeric(t: &str) -> (r: bool)
    ensures
        r == is_numeric_type(t@),
{
    same(t, "numeric") || same(t, "decimal")
}

/// The full name of a type: string types with their length, numeric types with
/// precision and scale, where these are known.
pub open spec fn full_type(
    data_type: Seq<char>,
    char_max_length: Option<i64>,
    precision: Option<i64>,
    scale: Option<i64>,
) -> Seq<char> {
    let norm = normal_type(data_type);
    if precision is Some && scale is Some && is_numeric_type(norm) {
        norm + "("@ + crate::numbers::dec_int(precision->0 as int) + ","@
            + crate::numbers::dec_int(scale->0 as int) + ")"@
    } else if char_max_length is Some && is_string_type(norm) {
        norm + "("@ + crate::numbers::dec_int(char_max_length->0 as int) + ")"@
    } else {
        norm
    }
}

pub fn full_data_type_name(
    data_type: &str,
    char_max_length: Option<i64>,
    precision: Option<i64>,
    scale: Option<i64>,
) -> (r: String)
    ensures
        r@ == full_type(data_type@, char_max_length, precision, scale),
{
    let norm = normalize_type_name(data_type);
    let mut full = norm.clone();
    if let Some(len) = char_max_length {
        if is_type_string(norm.as_str()) {
            full = concat4(norm.as_str(), "(", decimal_signed(len).as_str(), ")");
        }
    }
    if let Some(p) = precision {
        if let Some(s) = scale {
            if is_type_numeric(norm.as_str()) {
                full =
                concat5(
                    norm.as_str(),
                    "(",
                    decimal_signed(p).as_str(),
                    ",",
                    decimal_signed(s).as_str(),
                );
                full.push_str(")");
            }
        }
    }
    full
}

/// Whether a list of spatial columns holds the column.
pub open spec fn lists_column(
    rows: Seq<Json>,
    schema: Seq<char>,
    pure: Seq<char>,
    column: Seq<char>,
) -> bool {
    exists|i: int|
        0 <= i < rows.len() && (#[trigger] rows[i]).text("schema_name"@) == Some(schema)
            && rows[i].text("pure_name"@) == Some(pure) && rows[i].text("column_name"@) == Some(
            column,
        )
}

fn has_column(rows: &Vec<Value>, schema: &str, pure: &str, column: &str) -> (r: bool)
    ensures
        r == lists_column(rows.deep_view(), schema@, pure@, column@),
{
    let ghost all = rows.deep_view();
    let mut i: usize = 0;
    while i < rows.len()
        invariant
            i <= rows@.len(),
            all == rows.deep_view(),
            forall|k: int|
                0 <= k < i ==> !((#[trigger] all[k]).text("schema_name"@) == Some(schema@)
                    && all[k].text("pure_name"@) == Some(pure@) && all[k].text("column_name"@)
                    == Some(column@)),
        decreases rows@.len() - i,
    {
        assert(all[i as int] == rows@[i as int]@);
        if text_is(&rows[i], "schema_name", schema) && text_is(&rows[i], "pure_name", pure)
            && text_is(&rows[i], "column_name", column) {
            return true;
        }
        i = i + 1;
    }
    false
}

/// The column that a row describes.
pub open spec fn column_of(
    row: Json,
    schema: Seq<char>,
    pure: Seq<char>,
    column_name: Seq<char>,
    geometry: Seq<Json>,
    geography: Seq<Json>,
) -> ColumnInfoView {
    let default_value = row.text("default_value"@);
    let auto_increment = default_value is Some && crate::text::has_prefix(
        default_value->0,
        "nextval("@,
    );
    let nullable = row.text("is_nullable"@);
    ColumnInfoView {
        column_name,
        data_type: if lists_column(geometry, schema, pure, column_name) {
            "geometry"@
        } else if lists_column(geography, schema, pure, column_name) {
            "geography"@
        } else {
            full_type(
                crate::rows::or_empty(row.text("data_type"@)),
                row.int64("char_max_length"@),
                row.int64("numeric_precision"@),
                row.int64("numeric_scale"@),
            )
        },
        not_null: Some(!(nullable == Some("YES"@) || nullable == Some("yes"@))),
        auto_increment: Some(auto_increment),
        default_value: if auto_increment {
            None
        } else {
            default_value
        },
        ..crate::dbinfo::blank_column()
    }
}

pub fn get_column_info(
    row: &Value,
    schema: &str,
    pure: &str,
    column_name: &str,
    geometry_columns: &Vec<Value>,
    geography_columns: &Vec<Value>,
) -> (r: ColumnInfo)
    ensures
        r.deep_view() == column_of(
            row@,
            schema@,
            pure@,
            column_name@,
            geometry_columns.deep_view(),
            geography_columns.deep_view(),
        ),
{
    let data_type = get_text(row, "data_type");
    let mut full = full_data_type_name(
        data_type.as_str(),
        get_i64(row, "char_max_length"),
        get_i64(row, "numeric_precision"),
        get_i64(row, "numeric_scale"),
    );
    if has_column(geometry_columns, schema, pure, column_name) {
        full = "geometry".to_owned();
    } else if has_column(geography_columns, schema, pure, column_name) {
        full = "geography".to_owned();
    }
    let default_value = get_str(row, "default_value");
    let auto_increment = match &default_value {
        Some(v) => starts_with(v.as_str(), "nextval("),
        None => false,
    };
    let nullable = text_is(row, "is_nullable", "YES") || text_is(row, "is_nullable", "yes");
    let mut info = ColumnInfo::default();
    info.column_name = column_name.to_owned();
    info.data_type = full;
    info.not_null = Some(!nullable);
    info.auto_increment = Some(auto_increment);
    info.default_value =
    if auto_increment {
        None
    } else {
        default_value
    };
    info
}

/// The rows that belong to an object.
pub open spec fn rows_of(rows: Seq<Json>, schema: Seq<char>, pure: Seq<char>) -> Seq<Json> {
    crate::rows::where_texts(rows, "schema_name"@, schema, "pure_name"@, pure)
}

/// The columns of an object.
pub open spec fn columns_of(
    rows: Seq<Json>,
    schema: Seq<char>,
    pure: Seq<char>,
    geometry: Seq<Json>,
    geography: Seq<Json>,
) -> Seq<ColumnInfoView> {
    let own = rows_of(rows, schema, pure);
    Seq::new(
        own.len(),
        |i: int|
            column_of(
                own[i],
                schema,
                pure,
                crate::rows::or_empty(own[i].text("column_name"@)),
                geometry,
                geography,
            ),
    )
}

/// The columns of an object.
pub fn build_columns(
    schema: &str,
    pure: &str,
    column_rows: &Vec<Value>,
    geometry_columns: &Vec<Value>,
    geography_columns: &Vec<Value>,
) -> (r: Vec<ColumnInfo>)
    ensures
        r.deep_view() == columns_of(
            column_rows.deep_view(),
            schema@,
            pure@,
            geometry_columns.deep_view(),
            geography_columns.deep_view(),
        ),
{
    let own = rows_with_texts(column_rows, "schema_name", schema, "pure_name", pure);
    let f = |row: &&Value| -> (c: ColumnInfo)
        ensures
            c.deep_view() == column_of(
                row.deep_view(),
                schema@,
                pure@,
                crate::rows::or_empty(row.deep_view().text("column_name"@)),
                geometry_columns.deep_view(),
                geography_columns.deep_view(),
            ),
    {
        get_column_info(
            row,
            schema,
            pure,
            get_text(row, "column_name").as_str(),
            geometry_columns,
            geography_columns,
        )
    };
    let r = map_list(&own, f);
    assert(r.deep_view() =~= columns_of(
        column_rows.deep_view(),
        schema@,
        pure@,
        geometry_columns.deep_view(),
        geography_columns.deep_view(),
    ));
    r
}

// ---------------------------------------------------------------------------
// Keys and indexes
// ---------------------------------------------------------------------------

/// The primary key of a table.
pub open spec fn primary_key(rows: Seq<Json>, schema: Seq<char>, pure: Seq<char>) -> Option<
    PrimaryKeyInfoView,
> {
    crate::drivers::common::primary_key_of(
        rows_of(rows, schema, pure),
        "constraint_name"@,
        "column_name"@,
    )
}

pub fn build_primary_key(schema: &str, pure: &str, pk_rows: &Vec<Value>) -> (r: Option<
    PrimaryKeyInfo,
>)
    ensures
        r.deep_view() == primary_key(pk_rows.deep_view(), schema@, pure@),
{
    let own = rows_with_texts(pk_rows, "schema_name", schema, "pure_name", pure);
    primary_key_from(&own, "constraint_name", "column_name")
}

/// The keys under which rows describe foreign keys.
pub open spec fn fk_fields() -> ForeignKeyFields<'static> {
    ForeignKeyFields {
        constraint_name: "constraint_name",
        column_name: "column_name",
        ref_column_name: "ref_column_name",
        ref_schema_name: Some("ref_table_schema"),
        ref_table_name: "ref_table_name",
        update_action: Some("update_action"),
        delete_action: Some("delete_action"),
        is_descending: None,
        empty_actions: false,
    }
}

/// The foreign keys of a table.
pub open spec fn foreign_keys(rows: Seq<Json>, schema: Seq<char>, pure: Seq<char>) -> Seq<
    ForeignKeyInfoView,
> {
    crate::drivers::common::foreign_keys_of(
        crate::rows::where_texts(rows, "table_schema"@, schema, "table_name"@, pure),
        fk_fields(),
    )
}

pub fn build_foreign_keys(schema: &str, pure: &str, fk_rows: &Vec<Value>) -> (r: Vec<
    ForeignKeyInfo,
>)
    ensures
        r.deep_view() == foreign_keys(fk_rows.deep_view(), schema@, pure@),
{
    let own = rows_with_texts(fk_rows, "table_schema", schema, "table_name", pure);
    let fields = ForeignKeyFields {
        constraint_name: "constraint_name",
        column_name: "column_name",
        ref_column_name: "ref_column_name",
        ref_schema_name: Some("ref_table_schema"),
        ref_table_name: "ref_table_name",
        update_action: Some("update_action"),
        delete_action: Some("delete_action"),
        is_descending: None,
        empty_actions: false,
    };
    foreign_keys_from(&own, &fields)
}

/// Whether a row describes the attribute of the table with the given OID.
pub open spec fn is_index_column(row: Json, oid: Option<i64>, attnum: Seq<char>) -> bool {
    row.int64("oid"@) == oid && row.text("attnum"@) == Some(attnum)
}

/// The row of an index column: that with the table's OID and the attribute
/// number in question.
pub open spec fn index_column_row(rows: Seq<Json>, oid: Option<i64>, attnum: Seq<char>) -> Option<
    Json,
> {
    crate::rows::first_where(rows, |c: Json| is_index_column(c, oid, attnum))
}

/// Whether the option of the `k`-th index column says that it is descending.
pub open spec fn option_descending(options: Seq<Seq<char>>, k: int) -> Option<bool> {
    if 0 <= k < options.len() {
        match crate::numbers::parsed_signed(options[k]) {
            Some(n) => Some(n > 0),
            None => None,
        }
    } else {
        None
    }
}

/// The `k`-th column of an index, where its row is known.
pub open spec fn index_column(
    keys: Seq<Seq<char>>,
    options: Seq<Seq<char>>,
    oid: Option<i64>,
    column_rows: Seq<Json>,
    k: int,
) -> Option<ColumnReferenceView> {
    match index_column_row(column_rows, oid, keys[k]) {
        Some(c) => Some(
            ColumnReferenceView {
                column_name: crate::rows::or_empty(c.text("column_name"@)),
                ref_column_name: None,
                is_included_column: None,
                is_descending: option_descending(options, k),
            },
        ),
        None => None,
    }
}

/// The first `n` columns of an index, without those whose row is not known.
pub open spec fn index_columns(
    keys: Seq<Seq<char>>,
    options: Seq<Seq<char>>,
    oid: Option<i64>,
    column_rows: Seq<Json>,
    n: int,
) -> Seq<ColumnReferenceView>
    decreases n,
{
    if n <= 0 {
        Seq::empty()
    } else {
        let before = index_columns(keys, options, oid, column_rows, n - 1);
        match index_column(keys, options, oid, column_rows, n - 1) {
            Some(c) => before.push(c),
            None => before,
        }
    }
}

/// The columns of the index that a row describes.
pub open spec fn columns_of_index(idx: Json, column_rows: Seq<Json>) -> Seq<ColumnReferenceView> {
    let keys = crate::text::words(crate::rows::or_empty(idx.text("indkey"@)));
    let options = crate::text::words(crate::rows::or_empty(idx.text("indoption"@)));
    index_columns(keys, options, idx.int64("oid"@), column_rows, keys.len() as int)
}

fn matches_index_column(row: &Value, oid: Option<i64>, attnum: &str) -> (r: bool)
    ensures
        r == is_index_column(row@, oid, attnum@),
{
    get_i64(row, "oid") == oid && text_is(row, "attnum", attnum)
}

#[verifier::spinoff_prover]
fn find_index_column<'a>(rows: &'a Vec<Value>, oid: Option<i64>, attnum: &str) -> (r: Option<
    &'a Value,
>)
    ensures
        crate::value::opt_value(r) == index_column_row(rows.deep_view(), oid, attnum@),
{
    let ghost all = rows.deep_view();
    let ghost p = |c: Json| is_index_column(c, oid, attnum@);
    let mut i: usize = 0;
    while i < rows.len()
        invariant
            i <= rows@.len(),
            all == rows.deep_view(),
            p == |c: Json| is_index_column(c, oid, attnum@),
            forall|j: int| 0 <= j < i ==> !p(#[trigger] all[j]),
        decreases rows@.len() - i,
    {
        assert(all[i as int] == rows@[i as int]@);
        if matches_index_column(&rows[i], oid, attnum) {
            proof {
                crate::rows::lemma_none_found(all.take(i as int), p);
                crate::rows::lemma_first_found(all, p, i as int);
            }
            return Some(&rows[i]);
        }
        i = i + 1;
    }
    proof {
        crate::rows::lemma_none_found(all, p);
    }
    None
}

fn build_index_columns(idx: &Value, column_rows: &Vec<Value>) -> (r: Vec<ColumnReference>)
    ensures
        r.deep_view() == columns_of_index(idx@, column_rows.deep_view()),
{
    let oid: Option<i64> = get_i64(idx, "oid");
    let keys = split_words(get_text(idx, "indkey").as_str());
    let options = split_words(get_text(idx, "indoption").as_str());
    let ghost kt = crate::text::texts(keys@);
    let ghost ot = crate::text::texts(options@);
    let mut out: Vec<ColumnReference> = new_list();
    let mut k: usize = 0;
    while k < keys.len()
        invariant
            k <= keys@.len(),
            kt == crate::text::texts(keys@),
            ot == crate::text::texts(options@),
            out.deep_view() == index_columns(kt, ot, oid, column_rows.deep_view(), k as int),
        decreases keys@.len() - k,
    {
        assert(kt[k as int] == keys@[k as int]@);
        if let Some(c) = find_index_column(column_rows, oid, keys[k].as_str()) {
            let is_descending = if k < options.len() {
                assert(ot[k as int] == options@[k as int]@);
                match parse_signed(options[k].as_str()) {
                    Some(n) => Some(n > 0),
                    None => None,
                }
            } else {
                None
            };
            push_item(
                &mut out,
                ColumnReference {
                    column_name: get_text(c, "column_name"),
                    ref_column_name: None,
                    is_included_column: None,
                    is_descending,
                },
            );
        }
        k = k + 1;
    }
    out
}

/// The rows of a table's indexes.
pub open spec fn index_rows_of(rows: Seq<Json>, schema: Seq<char>, pure: Seq<char>) -> Seq<Json> {
    crate::rows::where_texts(rows, "schema_name"@, schema, "table_name"@, pure)
}

/// The name of the index that a row describes.
pub open spec fn index_name(idx: Json) -> Seq<char> {
    crate::rows::or_empty(idx.text("index_name"@))
}

/// The index that a row describes, where its name is not that of a unique
/// constraint.
pub open spec fn as_index(
    idx: Json,
    column_rows: Seq<Json>,
    unique_names: Seq<Seq<char>>,
) -> Option<IndexInfoView> {
    if unique_names.contains(index_name(idx)) {
        None
    } else {
        Some(
            IndexInfoView {
                columns_constraint: crate::drivers::common::over_columns(
                    ConstraintType::Index,
                    Some(index_name(idx)),
                    columns_of_index(idx, column_rows),
                ),
                is_unique: idx.flag("is_unique"@) == Some(true),
                index_type: Some("index"@),
                filter_definition: None,
            },
        )
    }
}

/// The unique constraint that a row describes, where its name is that of one.
pub open spec fn as_unique(
    idx: Json,
    column_rows: Seq<Json>,
    unique_names: Seq<Seq<char>>,
) -> Option<UniqueInfoView> {
    if unique_names.contains(index_name(idx)) {
        Some(
            UniqueInfoView {
                columns_constraint: crate::drivers::common::over_columns(
                    ConstraintType::Unique,
                    Some(index_name(idx)),
                    columns_of_index(idx, column_rows),
                ),
            },
        )
    } else {
        None
    }
}

/// The indexes among some index rows.
pub open spec fn indexes_of(
    rows: Seq<Json>,
    column_rows: Seq<Json>,
    unique_names: Seq<Seq<char>>,
) -> Seq<IndexInfoView> {
    crate::rows::pick(rows, |r: Json| as_index(r, column_rows, unique_names))
}

/// The unique constraints among some index rows.
pub open spec fn uniques_of(
    rows: Seq<Json>,
    column_rows: Seq<Json>,
    unique_names: Seq<Seq<char>>,
) -> Seq<UniqueInfoView> {
    crate::rows::pick(rows, |r: Json| as_unique(r, column_rows, unique_names))
}

/// Each index row becomes an index or a unique constraint, and never both.
pub proof fn law_index_or_unique(
    rows: Seq<Json>,
    column_rows: Seq<Json>,
    unique_names: Seq<Seq<char>>,
)
    ensures
        indexes_of(rows, column_rows, unique_names).len() + uniques_of(
            rows,
            column_rows,
            unique_names,
        ).len() == rows.len(),
    decreases rows.len(),
{
    if rows.len() > 0 {
        law_index_or_unique(rows.drop_last(), column_rows, unique_names);
    }
}

pub fn build_indexes_and_uniques(
    schema: &str,
    pure: &str,
    index_rows: &Vec<Value>,
    indexcols_rows: &Vec<Value>,
    unique_names: &Vec<String>,
) -> (r: (Vec<IndexInfo>, Vec<UniqueInfo>))
    ensures
        r.0.deep_view() == indexes_of(
            index_rows_of(index_rows.deep_view(), schema@, pure@),
            indexcols_rows.deep_view(),
            unique_names.deep_view(),
        ),
        r.1.deep_view() == uniques_of(
            index_rows_of(index_rows.deep_view(), schema@, pure@),
            indexcols_rows.deep_view(),
            unique_names.deep_view(),
        ),
{
    let own = rows_with_texts(index_rows, "schema_name", schema, "table_name", pure);
    let ghost all = own.deep_view();
    let ghost cols = indexcols_rows.deep_view();
    let ghost names = unique_names.deep_view();
    let mut indexes: Vec<IndexInfo> = new_list();
    let mut uniques: Vec<UniqueInfo> = new_list();
    let mut i: usize = 0;
    while i < own.len()
        invariant
            i <= own@.len(),
            all == own.deep_view(),
            cols == indexcols_rows.deep_view(),
            names == unique_names.deep_view(),
            indexes.deep_view() == indexes_of(all.take(i as int), cols, names),
            uniques.deep_view() == uniques_of(all.take(i as int), cols, names),
        decreases own@.len() - i,
    {
        proof {
            crate::rows::lemma_take_next(all, i as int);
        }
        let idx: &Value = own[i];
        let name = get_text(idx, "index_name");
        let columns = build_index_columns(idx, indexcols_rows);
        if list_has(unique_names, name.as_str()) {
            push_item(
                &mut uniques,
                UniqueInfo {
                    columns_constraint: constraint_over(
                        ConstraintType::Unique,
                        Some(name),
                        columns,
                    ),
                },
            );
        } else {
            let is_unique = match idx.flag("is_unique") {
                Some(b) => b,
                None => false,
            };
            push_item(
                &mut indexes,
                IndexInfo {
                    columns_constraint: constraint_over(
                        ConstraintType::Index,
                        Some(name),
                        columns,
                    ),
                    is_unique,
                    index_type: Some("index".to_owned()),
                    filter_definition: None,
                },
            );
        }
        i = i + 1;
    }
    proof {
        crate::rows::lemma_take_all(all);
    }
    (indexes, uniques)
}

// ---------------------------------------------------------------------------
// Routines
// ---------------------------------------------------------------------------

/// The mode that a parameter row gives.
pub open spec fn mode_of(row: Json) -> ParameterMode {
    if row.text("parameter_mode"@) == Some("OUT"@) {
        ParameterMode::Out
    } else if row.text("parameter_mode"@) == Some("INOUT"@) {
        ParameterMode::InOut
    } else {
        ParameterMode::In
    }
}

/// The parameter that a row describes.
pub open spec fn parameter_of(row: Json) -> ParameterInfoView {
    ParameterInfoView {
        parameter_name: crate::rows::or_empty(row.text("parameter_name"@)),
        data_type: normal_type(crate::rows::or_empty(row.text("data_type"@))),
        parameter_mode: Some(mode_of(row)),
        position: row.int64("parameter_index"@),
    }
}

/// The parameters of a routine.
pub open spec fn parameters_of(rows: Seq<Json>, schema: Seq<char>, pure: Seq<char>) -> Seq<
    ParameterInfoView,
> {
    let own = rows_of(rows, schema, pure);
    Seq::new(own.len(), |i: int| parameter_of(own[i]))
}

pub fn build_parameters(schema: &str, pure: &str, param_rows: &Vec<Value>) -> (r: Vec<
    ParameterInfo,
>)
    ensures
        r.deep_view() == parameters_of(param_rows.deep_view(), schema@, pure@),
{
    let own = rows_with_texts(param_rows, "schema_name", schema, "pure_name", pure);
    let f = |row: &&Value| -> (p: ParameterInfo)
        ensures
            p.deep_view() == parameter_of(row.deep_view()),
    {
        let mode = if text_is(row, "parameter_mode", "OUT") {
            ParameterMode::Out
        } else if text_is(row, "parameter_mode", "INOUT") {
            ParameterMode::InOut
        } else {
            ParameterMode::In
        };
        ParameterInfo {
            parameter_name: get_text(row, "parameter_name"),
            data_type: normalize_type_name(get_text(row, "data_type").as_str()),
            parameter_mode: Some(mode),
            position: get_i64(row, "parameter_index"),
        }
    };
    let r = map_list(&own, f);
    assert(r.deep_view() =~= parameters_of(param_rows.deep_view(), schema@, pure@));
    r
}

/// A parameter as DDL: its mode where it is not an input, its name, and the given
/// text of its type where it has one.
pub open spec fn parameter_sql_with(p: ParameterInfoView, upper_type: Seq<char>) -> Seq<char> {
    let prefix = if p.parameter_mode == Some(ParameterMode::Out) {
        "OUT "@
    } else if p.parameter_mode == Some(ParameterMode::InOut) {
        "INOUT "@
    } else {
        ""@
    };
    let suffix = if p.data_type.len() == 0 {
        Seq::empty()
    } else {
        " "@ + upper_type
    };
    prefix + p.parameter_name + suffix
}

/// A parameter as DDL: its mode where it is not an input, its name, its type in
/// capital letters.
pub open spec fn parameter_sql(p: ParameterInfoView) -> Seq<char> {
    parameter_sql_with(p, crate::encoding::uppercase(p.data_type))
}

/// A parameter as DDL, given its type in capital letters.
pub fn parameter_entry(p: &ParameterInfo, upper_type: &str) -> (r: String)
    ensures
        r@ == parameter_sql_with(p.deep_view(), upper_type@),
{
    let prefix = match p.parameter_mode {
        Some(ParameterMode::Out) => "OUT ",
        Some(ParameterMode::InOut) => "INOUT ",
        _ => "",
    };
    let suffix = if p.data_type.as_str().is_empty() {
        String::new()
    } else {
        concat2(" ", upper_type)
    };
    concat3(prefix, p.parameter_name.as_str(), suffix.as_str())
}

/// The parameter list of a routine as DDL.
pub open spec fn parameters_sql(params: Seq<ParameterInfoView>) -> Seq<char> {
    crate::text::join(Seq::new(params.len(), |i: int| parameter_sql(params[i])), ", "@)
}

/// The parameter list used to build procedure/function DDL.
pub fn parameters_sql_string(parameters: &Vec<ParameterInfo>) -> (r: String)
    ensures
        r@ == parameters_sql(parameters.deep_view()),
{
    let f = |p: &ParameterInfo| -> (t: String)
        ensures
            t@ == parameter_sql(p.deep_view()),
    { parameter_entry(p, p.data_type.as_str().to_uppercase().as_str()) };
    let parts = map_list(parameters, f);
    assert(crate::text::texts(parts@) =~= Seq::new(
        parameters.deep_view().len(),
        |i: int| parameter_sql(parameters.deep_view()[i]),
    ));
    joined(&parts, ", ")
}

// ---------------------------------------------------------------------------
// Full analysis
// ---------------------------------------------------------------------------

/// The rows of the queries of a full analysis.
pub struct PostgresCatalog {
    pub tables: Vec<Value>,
    pub views: Vec<Value>,
    pub columns: Vec<Value>,
    pub primary_keys: Vec<Value>,
    pub foreign_keys: Vec<Value>,
    pub unique_names: Vec<Value>,
    pub routines: Vec<Value>,
    pub parameters: Vec<Value>,
    pub indexes: Vec<Value>,
    pub index_columns: Vec<Value>,
    pub matviews: Vec<Value>,
    pub matview_columns: Vec<Value>,
    pub triggers: Vec<Value>,
    pub geometry_columns: Vec<Value>,
    pub geography_columns: Vec<Value>,
}

/// What a [`PostgresCatalog`] holds.
pub struct PostgresCatalogView {
    pub tables: Seq<Json>,
    pub views: Seq<Json>,
    pub columns: Seq<Json>,
    pub primary_keys: Seq<Json>,
    pub foreign_keys: Seq<Json>,
    pub unique_names: Seq<Json>,
    pub routines: Seq<Json>,
    pub parameters: Seq<Json>,
    pub indexes: Seq<Json>,
    pub index_columns: Seq<Json>,
    pub matviews: Seq<Json>,
    pub matview_columns: Seq<Json>,
    pub triggers: Seq<Json>,
    pub geometry_columns: Seq<Json>,
    pub geography_columns: Seq<Json>,
}

impl DeepView for PostgresCatalog {
    type V = PostgresCatalogView;

    open spec fn deep_view(&self) -> PostgresCatalogView {
        PostgresCatalogView {
            tables: self.tables.deep_view(),
            views: self.views.deep_view(),
            columns: self.columns.deep_view(),
            primary_keys: self.primary_keys.deep_view(),
            foreign_keys: self.foreign_keys.deep_view(),
            unique_names: self.unique_names.deep_view(),
            routines: self.routines.deep_view(),
            parameters: self.parameters.deep_view(),
            indexes: self.indexes.deep_view(),
            index_columns: self.index_columns.deep_view(),
            matviews: self.matviews.deep_view(),
            matview_columns: self.matview_columns.deep_view(),
            triggers: self.triggers.deep_view(),
            geometry_columns: self.geometry_columns.deep_view(),
            geography_columns: self.geography_columns.deep_view(),
        }
    }
}

/// The hash of a table: of its columns and of its constraints, where both are
/// known.
pub open spec fn content_hash_of(table: Json) -> Option<Seq<char>> {
    match (table.text("hash_code_columns"@), table.text("hash_code_constraints"@)) {
        (Some(c), Some(k)) => Some(c + "-"@ + k),
        _ => None,
    }
}

fn content_hash(table: &Value) -> (r: Option<String>)
    ensures
        r.deep_view() == content_hash_of(table@),
{
    match (get_str(table, "hash_code_columns"), get_str(table, "hash_code_constraints")) {
        (Some(c), Some(k)) => Some(concat3(c.as_str(), "-", k.as_str())),
        _ => None,
    }
}

/// The table with the given object, as the catalog describes it.
pub open spec fn table_with(
    object: DatabaseObjectInfoView,
    table: Json,
    schema: Seq<char>,
    pure: Seq<char>,
    c: PostgresCatalogView,
) -> TableInfoView {
    let unique_names = crate::rows::texts_under(c.unique_names, "constraint_name"@);
    let index_rows = index_rows_of(c.indexes, schema, pure);
    TableInfoView {
        object,
        columns: columns_of(c.columns, schema, pure, c.geometry_columns, c.geography_columns),
        primary_key: primary_key(c.primary_keys, schema, pure),
        sorting_key: None,
        foreign_keys: Some(foreign_keys(c.foreign_keys, schema, pure)),
        dependencies: None,
        indexes: Some(indexes_of(index_rows, c.index_columns, unique_names)),
        uniques: Some(uniques_of(index_rows, c.index_columns, unique_names)),
        checks: None,
        table_row_count: table.int64("size_bytes"@),
        table_engine: None,
    }
}

fn build_table(
    object: DatabaseObjectInfo,
    table: &Value,
    schema: &str,
    pure: &str,
    catalog: &PostgresCatalog,
) -> (r: TableInfo)
    ensures
        r.deep_view() == table_with(
            object.deep_view(),
            table@,
            schema@,
            pure@,
            catalog.deep_view(),
        ),
{
    let unique_names = collect_texts(&catalog.unique_names, "constraint_name");
    let (indexes, uniques) = build_indexes_and_uniques(
        schema,
        pure,
        &catalog.indexes,
        &catalog.index_columns,
        &unique_names,
    );
    TableInfo {
        object,
        columns: build_columns(
            schema,
            pure,
            &catalog.columns,
            &catalog.geometry_columns,
            &catalog.geography_columns,
        ),
        primary_key: build_primary_key(schema, pure, &catalog.primary_keys),
        sorting_key: None,
        foreign_keys: Some(build_foreign_keys(schema, pure, &catalog.foreign_keys)),
        dependencies: None,
        indexes: Some(indexes),
        uniques: Some(uniques),
        checks: None,
        table_row_count: get_i64(table, "size_bytes"),
        table_engine: None,
    }
}

/// The schema and the name that a row gives, empty where it gives none.
pub open spec fn schema_in(row: Json) -> Seq<char> {
    crate::rows::or_empty(row.text("schema_name"@))
}

pub open spec fn pure_in(row: Json) -> Seq<char> {
    crate::rows::or_empty(row.text("pure_name"@))
}

/// The table that a row of the table query describes.
pub open spec fn table_of(row: Json, c: PostgresCatalogView) -> TableInfoView {
    let schema = schema_in(row);
    let pure = pure_in(row);
    table_with(
        crate::drivers::common::object_with(
            pure,
            Some(schema),
            Some(id_of("tables"@, schema, pure)),
            content_hash_of(row),
        ),
        row,
        schema,
        pure,
        c,
    )
}

fn analyse_table_row(row: &Value, catalog: &PostgresCatalog) -> (r: TableInfo)
    ensures
        r.deep_view() == table_of(row@, catalog.deep_view()),
{
    let schema = get_text(row, "schema_name");
    let pure = get_text(row, "pure_name");
    let key = object_id("tables", schema.as_str(), pure.as_str());
    let object = object_info(pure.clone(), Some(schema.clone()), Some(key), content_hash(row));
    build_table(object, row, schema.as_str(), pure.as_str(), catalog)
}

/// The object that a row of a catalog query describes.
pub open spec fn object_in(
    row: Json,
    id: Seq<char>,
    hash: Option<Seq<char>>,
) -> DatabaseObjectInfoView {
    crate::drivers::common::object_with(pure_in(row), row.text("schema_name"@), Some(id), hash)
}

pub fn db_table_object(row: &Value, object_id: String, content_hash: Option<String>) -> (r:
    DatabaseObjectInfo)
    ensures
        r.deep_view() == object_in(row@, object_id@, content_hash.deep_view()),
{
    object_info(
        get_text(row, "pure_name"),
        get_str(row, "schema_name"),
        Some(object_id),
        content_hash,
    )
}

/// A qualified name in double quotes.
pub open spec fn quoted_name(schema: Seq<char>, pure: Seq<char>) -> Seq<char> {
    "\""@ + schema + "\".\""@ + pure + "\""@
}

fn quote_name(schema: &str, pure: &str) -> (r: String)
    ensures
        r@ == quoted_name(schema@, pure@),
{
    concat5("\"", schema, "\".\"", pure, "\"")
}

/// A view or a materialized view: its kind, the words that create it, the key of
/// its definition, and the rows of its columns.
pub open spec fn view_of(
    row: Json,
    kind: Seq<char>,
    create: Seq<char>,
    definition_key: Seq<char>,
    column_rows: Seq<Json>,
) -> ViewInfoView {
    let schema = schema_in(row);
    let pure = pure_in(row);
    ViewInfoView {
        object: crate::drivers::common::sql_object_with(
            object_in(row, id_of(kind, schema, pure), row.text("hash_code"@)),
            match row.text(definition_key) {
                Some(d) => Some(create + quoted_name(schema, pure) + "\nAS\n"@ + d),
                None => None,
            },
        ),
        columns: columns_of(column_rows, schema, pure, Seq::empty(), Seq::empty()),
    }
}

fn analyse_view_row(
    row: &Value,
    kind: &str,
    create: &str,
    definition_key: &str,
    column_rows: &Vec<Value>,
) -> (r: ViewInfo)
    ensures
        r.deep_view() == view_of(
            row@,
            kind@,
            create@,
            definition_key@,
            column_rows.deep_view(),
        ),
{
    let schema = get_text(row, "schema_name");
    let pure = get_text(row, "pure_name");
    let create_sql = match get_str(row, definition_key) {
        Some(d) => Some(
            concat4(
                create,
                quote_name(schema.as_str(), pure.as_str()).as_str(),
                "\nAS\n",
                d.as_str(),
            ),
        ),
        None => None,
    };
    let key = object_id(kind, schema.as_str(), pure.as_str());
    let none: Vec<Value> = new_list();
    ViewInfo {
        object: sql_object(db_table_object(row, key, get_str(row, "hash_code")), create_sql),
        columns: build_columns(schema.as_str(), pure.as_str(), column_rows, &none, &none),
    }
}

/// Whether a routine row describes a procedure.
pub open spec fn is_procedure(row: Json) -> bool {
    row.text("object_type"@) == Some("PROCEDURE"@)
}

/// The DDL of the routine that a row describes, given the text of its parameters
/// and its result type in capital letters.
pub open spec fn routine_sql_with(row: Json, params: Seq<char>, return_type: Seq<char>) -> Seq<char> {
    let name = quoted_name(schema_in(row), pure_in(row));
    let language = crate::rows::or_empty(row.text("language"@));
    let header = if is_procedure(row) {
        "CREATE PROCEDURE "@ + name + "("@ + params + ") LANGUAGE "@ + language
    } else {
        "CREATE FUNCTION "@ + name + "("@ + params + ") RETURNS "@ + return_type + " LANGUAGE "@
            + language
    };
    header + "\nAS\n$$\n"@ + crate::rows::or_empty(row.text("definition"@)) + "\n$$"@
}

/// The DDL of the routine that a row describes.
pub open spec fn routine_sql(row: Json, params: Seq<ParameterInfoView>) -> Seq<char> {
    routine_sql_with(
        row,
        parameters_sql(params),
        crate::encoding::uppercase(crate::rows::or_empty(row.text("data_type"@))),
    )
}

/// The DDL of the routine that a row describes, given the text of its parameters
/// and its result type in capital letters.
pub fn routine_ddl(row: &Value, params: &str, return_type: &str) -> (r: String)
    ensures
        r@ == routine_sql_with(row@, params@, return_type@),
{
    let schema = get_text(row, "schema_name");
    let pure = get_text(row, "pure_name");
    let procedure = text_is(row, "object_type", "PROCEDURE");
    let name = quote_name(schema.as_str(), pure.as_str());
    let mut out = concat4(
        if procedure {
            "CREATE PROCEDURE "
        } else {
            "CREATE FUNCTION "
        },
        name.as_str(),
        "(",
        params,
    );
    if procedure {
        out.push_str(") LANGUAGE ");
    } else {
        out.push_str(") RETURNS ");
        out.push_str(return_type);
        out.push_str(" LANGUAGE ");
    }
    out.push_str(get_text(row, "language").as_str());
    out.push_str("\nAS\n$$\n");
    out.push_str(get_text(row, "definition").as_str());
    out.push_str("\n$$");
    out
}

/// The routine that a row describes.
pub open spec fn callable_of(row: Json, param_rows: Seq<Json>) -> CallableObjectInfoView {
    let schema = schema_in(row);
    let pure = pure_in(row);
    let params = parameters_of(param_rows, schema, pure);
    let kind = if is_procedure(row) {
        "procedures"@
    } else {
        "functions"@
    };
    CallableObjectInfoView {
        object: crate::drivers::common::sql_object_with(
            object_in(row, id_of(kind, schema, pure), row.text("hash_code"@)),
            Some(routine_sql(row, params)),
        ),
        parameters: if params.len() == 0 {
            None
        } else {
            Some(params)
        },
    }
}

fn analyse_routine_row(row: &Value, param_rows: &Vec<Value>) -> (r: CallableObjectInfo)
    ensures
        r.deep_view() == callable_of(row@, param_rows.deep_view()),
{
    let schema = get_text(row, "schema_name");
    let pure = get_text(row, "pure_name");
    let params = build_parameters(schema.as_str(), pure.as_str(), param_rows);
    let procedure = text_is(row, "object_type", "PROCEDURE");
    let kind = if procedure {
        "procedures"
    } else {
        "functions"
    };
    let create_sql = routine_ddl(
        row,
        parameters_sql_string(&params).as_str(),
        get_text(row, "data_type").as_str().to_uppercase().as_str(),
    );
    let key = object_id(kind, schema.as_str(), pure.as_str());
    CallableObjectInfo {
        object: sql_object(db_table_object(row, key, get_str(row, "hash_code")), Some(create_sql)),
        parameters: if params.len() == 0 {
            None
        } else {
            Some(params)
        },
    }
}

/// The procedures among routine rows.
pub open spec fn procedures_of(rows: Seq<Json>, param_rows: Seq<Json>) -> Seq<ProcedureInfoView> {
    crate::rows::pick(
        rows,
        |r: Json|
            if is_procedure(r) {
                Some(ProcedureInfoView { callable: callable_of(r, param_rows) })
            } else {
                None
            },
    )
}

/// The functions among routine rows.
pub open spec fn functions_of(rows: Seq<Json>, param_rows: Seq<Json>) -> Seq<FunctionInfoView> {
    crate::rows::pick(
        rows,
        |r: Json|
            if is_procedure(r) {
                None
            } else {
                Some(
                    FunctionInfoView {
                        callable: callable_of(r, param_rows),
                        return_type: r.text("data_type"@),
                    },
                )
            },
    )
}

/// Each routine row becomes a procedure or a function, and never both.
pub proof fn law_procedure_or_function(rows: Seq<Json>, param_rows: Seq<Json>)
    ensures
        procedures_of(rows, param_rows).len() + functions_of(rows, param_rows).len() == rows.len(),
    decreases rows.len(),
{
    if rows.len() > 0 {
        law_procedure_or_function(rows.drop_last(), param_rows);
    }
}

fn analyse_routines(rows: &Vec<Value>, param_rows: &Vec<Value>) -> (r: (
    Vec<ProcedureInfo>,
    Vec<FunctionInfo>,
))
    ensures
        r.0.deep_view() == procedures_of(rows.deep_view(), param_rows.deep_view()),
        r.1.deep_view() == functions_of(rows.deep_view(), param_rows.deep_view()),
{
    let ghost all = rows.deep_view();
    let ghost params = param_rows.deep_view();
    let mut procedures: Vec<ProcedureInfo> = new_list();
    let mut functions: Vec<FunctionInfo> = new_list();
    let mut i: usize = 0;
    while i < rows.len()
        invariant
            i <= rows@.len(),
            all == rows.deep_view(),
            params == param_rows.deep_view(),
            procedures.deep_view() == procedures_of(all.take(i as int), params),
            functions.deep_view() == functions_of(all.take(i as int), params),
        decreases rows@.len() - i,
    {
        proof {
            crate::rows::lemma_take_next(all, i as int);
        }
        let row = &rows[i];
        let callable = analyse_routine_row(row, param_rows);
        if text_is(row, "object_type", "PROCEDURE") {
            push_item(&mut procedures, ProcedureInfo { callable });
        } else {
            push_item(
                &mut functions,
                FunctionInfo { callable, return_type: get_str(row, "data_type") },
            );
        }
        i = i + 1;
    }
    proof {
        crate::rows::lemma_take_all(all);
    }
    (procedures, functions)
}

/// The timing that a trigger row gives.
pub open spec fn timing_of(row: Json) -> TriggerTiming {
    if row.text("trigger_timing"@) == Some("AFTER"@) {
        TriggerTiming::After
    } else if row.text("trigger_timing"@) == Some("INSTEAD OF"@) {
        TriggerTiming::InsteadOf
    } else {
        TriggerTiming::Before
    }
}

/// The event that a trigger row names: the first that occurs in its text.
pub open spec fn event_of(row: Json) -> Option<TriggerEventType> {
    match row.text("event_type"@) {
        Some(e) => if crate::text::holds(e, "INSERT"@) {
            Some(TriggerEventType::Insert)
        } else if crate::text::holds(e, "UPDATE"@) {
            Some(TriggerEventType::Update)
        } else if crate::text::holds(e, "DELETE"@) {
            Some(TriggerEventType::Delete)
        } else if crate::text::holds(e, "TRUNCATE"@) {
            Some(TriggerEventType::Truncate)
        } else {
            None
        },
        None => None,
    }
}

/// The trigger that a row describes.
pub open spec fn trigger_of(row: Json) -> TriggerInfoView {
    let number = match row.int64("trigger_id"@) {
        Some(n) => n as int,
        None => 0,
    };
    let id = Some("triggers:"@ + crate::numbers::dec_int(number));
    TriggerInfoView {
        object: crate::drivers::common::sql_object_with(
            crate::drivers::common::object_with(
                crate::rows::or_empty(row.text("trigger_name"@)),
                row.text("schema_name"@),
                id,
                id,
            ),
            row.text("definition"@),
        ),
        function_name: row.text("function_name"@),
        table_name: row.text("table_name"@),
        trigger_timing: Some(timing_of(row)),
        event_type: event_of(row),
    }
}

fn analyse_trigger_row(row: &Value) -> (r: TriggerInfo)
    ensures
        r.deep_view() == trigger_of(row@),
{
    let number: i64 = match get_i64(row, "trigger_id") {
        Some(n) => n,
        None => 0,
    };
    let id = concat2("triggers:", decimal_signed(number).as_str());
    let timing = if text_is(row, "trigger_timing", "AFTER") {
        TriggerTiming::After
    } else if text_is(row, "trigger_timing", "INSTEAD OF") {
        TriggerTiming::InsteadOf
    } else {
        TriggerTiming::Before
    };
    let event = match row.text("event_type") {
        Some(e) => if contains(e, "INSERT") {
            Some(TriggerEventType::Insert)
        } else if contains(e, "UPDATE") {
            Some(TriggerEventType::Update)
        } else if contains(e, "DELETE") {
            Some(TriggerEventType::Delete)
        } else if contains(e, "TRUNCATE") {
            Some(TriggerEventType::Truncate)
        } else {
            None
        },
        None => None,
    };
    let object = object_info(
        get_text(row, "trigger_name"),
        get_str(row, "schema_name"),
        Some(id.clone()),
        Some(id),
    );
    TriggerInfo {
        object: sql_object(object, get_str(row, "definition")),
        function_name: get_str(row, "function_name"),
        table_name: get_str(row, "table_name"),
        trigger_timing: Some(timing),
        event_type: event,
    }
}

/// The structure of the database that the catalog describes.
pub open spec fn database_of(c: PostgresCatalogView) -> DatabaseInfoView {
    DatabaseInfoView {
        tables: Seq::new(c.tables.len(), |i: int| table_of(c.tables[i], c)),
        views: Seq::new(
            c.views.len(),
            |i: int|
                view_of(c.views[i], "views"@, "CREATE VIEW "@, "create_sql"@, c.columns),
        ),
        matviews: Some(
            Seq::new(
                c.matviews.len(),
                |i: int|
                    view_of(
                        c.matviews[i],
                        "matviews"@,
                        "CREATE MATERIALIZED VIEW "@,
                        "definition"@,
                        c.matview_columns,
                    ),
            ),
        ),
        procedures: procedures_of(c.routines, c.parameters),
        functions: functions_of(c.routines, c.parameters),
        triggers: Seq::new(c.triggers.len(), |i: int| trigger_of(c.triggers[i])),
        ..crate::dbinfo::empty_database()
    }
}

/// The full structure of a database, from the rows of the analysis queries.
pub fn analyse_postgres_full(catalog: &PostgresCatalog) -> (r: DatabaseInfo)
    ensures
        r.deep_view() == database_of(catalog.deep_view()),
{
    let ghost c = catalog.deep_view();
    let table_row = |row: &Value| -> (t: TableInfo)
        ensures
            t.deep_view() == table_of(row@, catalog.deep_view()),
    {
        analyse_table_row(row, catalog)
    };
    let tables = map_list(&catalog.tables, table_row);
    let view_row = |row: &Value| -> (v: ViewInfo)
        ensures
            v.deep_view() == view_of(
                row@,
                "views"@,
                "CREATE VIEW "@,
                "create_sql"@,
                catalog.columns.deep_view(),
            ),
    {
        analyse_view_row(row, "views", "CREATE VIEW ", "create_sql", &catalog.columns)
    };
    let views = map_list(&catalog.views, view_row);
    let matview_row = |row: &Value| -> (v: ViewInfo)
        ensures
            v.deep_view() == view_of(
                row@,
                "matviews"@,
                "CREATE MATERIALIZED VIEW "@,
                "definition"@,
                catalog.matview_columns.deep_view(),
            ),
    {
        analyse_view_row(
            row,
            "matviews",
            "CREATE MATERIALIZED VIEW ",
            "definition",
            &catalog.matview_columns,
        )
    };
    let matviews = map_list(&catalog.matviews, matview_row);
    let (procedures, functions) = analyse_routines(&catalog.routines, &catalog.parameters);
    let trigger_row = |row: &Value| -> (t: TriggerInfo)
        ensures
            t.deep_view() == trigger_of(row@),
    {
        analyse_trigger_row(row)
    };
    let triggers = map_list(&catalog.triggers, trigger_row);
    proof {
        assert(tables.deep_view() =~= database_of(c).tables);
        assert(views.deep_view() =~= database_of(c).views);
        assert(matviews.deep_view() =~= database_of(c).matviews->0);
        assert(triggers.deep_view() =~= database_of(c).triggers);
    }
    let mut info = DatabaseInfo::default();
    info.tables = tables;
    info.views = views;
    info.matviews = Some(matviews);
    info.procedures = procedures;
    info.functions = functions;
    info.triggers = triggers;
    info
}

/// The structure of one table, from the rows of the table queries: that of the
/// first table row. Fields of the catalog that hold other rows are not read.
pub fn analyse_postgres_table(name: &NamedObjectInfo, catalog: &PostgresCatalog) -> (r: DbgmResult<
    TableInfo,
>)
    ensures
        ({
            let key = id_of(
                "tables"@,
                schema_or_public(name.schema_name.deep_view()),
                name.pure_name@,
            );
            let c = catalog.deep_view();
            match r {
                Ok(t) => c.tables.len() > 0 && t.deep_view() == table_with(
                    object_in(c.tables[0], key, content_hash_of(c.tables[0])),
                    c.tables[0],
                    schema_in(c.tables[0]),
                    pure_in(c.tables[0]),
                    c,
                ),
                Err(e) => c.tables.len() == 0 && e.deep_view() == crate::error::generic_error(
                    "Table not found: "@ + key,
                ),
            }
        }),
{
    let schema = schema_of(name);
    let key = object_id("tables", schema.as_str(), name.pure_name.as_str());
    if catalog.tables.len() == 0 {
        return Err(DbgmError::new(concat2("Table not found: ", key.as_str())));
    }
    let table = &catalog.tables[0];
    let schema_ref = get_text(table, "schema_name");
    let pure_ref = get_text(table, "pure_name");
    let object = db_table_object(table, key, content_hash(table));
    Ok(build_table(object, table, schema_ref.as_str(), pure_ref.as_str(), catalog))
}

// ---------------------------------------------------------------------------
// Laws
// ---------------------------------------------------------------------------

/// The client is told the server, the port, the user, the password and the database of
/// the definition; the port 5432 and the database `postgres` only where it has none.
pub proof fn law_config(def: ConnectionDefinition, c: PostgresConfig)
    requires
        def.server is Some,
        c.deep_view() == config_of(def.deep_view(), def.server->0@),
    ensures
        c.host@ == def.server->0@,
        def.port matches Some(p) ==> p < 65536 ==> c.port == p,
        def.port is None ==> c.port == 5432,
        c.user.deep_view() == def.user.deep_view(),
        c.password.deep_view() == def.password.deep_view(),
        def.database matches Some(d) ==> c.dbname@ == d@,
        def.database is None ==> c.dbname@ == "postgres"@,
        c.read_only <==> def.is_read_only == Some(true),
{
    let v = c.deep_view();
    assert(v.host == c.host@ && v.port == c.port && v.dbname == c.dbname@);
    assert(v.user == c.user.deep_view() && v.password == c.password.deep_view());
    assert(v.read_only == c.read_only);
    assert(def.deep_view().port == def.port);
    if let Some(d) = def.database {
        assert(def.deep_view().database == Some(d@));
    }
}

/// A cell is read by the type of its column: numbers as numbers, truth values as truth
/// values, texts as texts; where there is no cell it is null.
pub proof fn law_cells(
    oid: u32,
    entries: Seq<(u32, Seq<char>)>,
    n: i64,
    b: bool,
    d: u64,
    kind: CellKind,
)
    ensures
        cell_json(kind_of("bool"@, oid, entries), Some(PostgresCell::Bool(b))) == Json::Bool(b),
        cell_json(kind_of("int2"@, oid, entries), Some(PostgresCell::Int(n))) == Json::Int(
            n as int,
        ),
        cell_json(kind_of("int4"@, oid, entries), Some(PostgresCell::Int(n))) == Json::Int(
            n as int,
        ),
        cell_json(kind_of("int8"@, oid, entries), Some(PostgresCell::Int(n))) == Json::Int(
            n as int,
        ),
        cell_json(kind_of("float4"@, oid, entries), Some(PostgresCell::Double(d)))
            == crate::encoding::double_json(d),
        cell_json(kind_of("float8"@, oid, entries), Some(PostgresCell::Double(d)))
            == crate::encoding::double_json(d),
        cell_json(kind, None) == Json::Null,
{
    reveal_strlit("bool");
    reveal_strlit("int2");
    reveal_strlit("int4");
    reveal_strlit("int8");
    reveal_strlit("float4");
    reveal_strlit("float8");
    reveal_strlit("text");
    reveal_strlit("varchar");
    reveal_strlit("bpchar");
    reveal_strlit("name");
    reveal_strlit("citext");
    reveal_strlit("char");
    reveal_strlit("bytea");
    reveal_strlit("date");
    reveal_strlit("timestamp");
    reveal_strlit("timestamptz");
    assert("bool"@.len() == 4);
    assert("int2"@.len() == 4);
    assert("int4"@.len() == 4);
    assert("int8"@.len() == 4);
    assert("float4"@.len() == 6);
    assert("float8"@.len() == 6);
    assert("text"@.len() == 4);
    assert("varchar"@.len() == 7);
    assert("bpchar"@.len() == 6);
    assert("name"@.len() == 4);
    assert("citext"@.len() == 6);
    assert("char"@.len() == 4);
    assert("bytea"@.len() == 5);
    assert("date"@.len() == 4);
    assert("timestamp"@.len() == 9);
    assert("timestamptz"@.len() == 11);
    assert("bool"@[0] == 'b');
    assert("int2"@[0] == 'i' && "int2"@[3] == '2');
    assert("int4"@[0] == 'i' && "int4"@[3] == '4');
    assert("int8"@[0] == 'i' && "int8"@[3] == '8');
    assert("float4"@[0] == 'f' && "float4"@[5] == '4');
    assert("float8"@[0] == 'f' && "float8"@[5] == '8');
    assert("text"@[0] == 't');
    assert("bpchar"@[0] == 'b');
    assert("name"@[0] == 'n');
    assert("citext"@[0] == 'c');
    assert("char"@[0] == 'c');
    assert("date"@[0] == 'd');
}

/// Text columns give texts, byte columns binary values.
pub proof fn law_text_cells(t: Seq<char>, oid: u32, entries: Seq<(u32, Seq<char>)>, s: String, b: Vec<u8>)
    ensures
        t == "text"@ || t == "varchar"@ || t == "bpchar"@ || t == "name"@ || t == "citext"@ || t
            == "char"@ ==> cell_json(kind_of(t, oid, entries), Some(PostgresCell::Text(s)))
            == Json::Str(s@),
        t == "bytea"@ ==> cell_json(kind_of(t, oid, entries), Some(PostgresCell::Bytes(b)))
            == crate::encoding::binary_json(b@),
{
    reveal_strlit("bool");
    reveal_strlit("int2");
    reveal_strlit("int4");
    reveal_strlit("int8");
    reveal_strlit("float4");
    reveal_strlit("float8");
    reveal_strlit("text");
    reveal_strlit("varchar");
    reveal_strlit("bpchar");
    reveal_strlit("name");
    reveal_strlit("citext");
    reveal_strlit("char");
    reveal_strlit("bytea");
    reveal_strlit("date");
    reveal_strlit("timestamp");
    reveal_strlit("timestamptz");
    assert("bool"@.len() == 4);
    assert("int2"@.len() == 4);
    assert("int4"@.len() == 4);
    assert("int8"@.len() == 4);
    assert("float4"@.len() == 6);
    assert("float8"@.len() == 6);
    assert("text"@.len() == 4);
    assert("varchar"@.len() == 7);
    assert("bpchar"@.len() == 6);
    assert("name"@.len() == 4);
    assert("citext"@.len() == 6);
    assert("char"@.len() == 4);
    assert("bytea"@.len() == 5);
    assert("date"@.len() == 4);
    assert("timestamp"@.len() == 9);
    assert("timestamptz"@.len() == 11);
    assert("bool"@[0] == 'b');
    assert("int2"@[0] == 'i' && "int2"@[3] == '2');
    assert("int4"@[0] == 'i' && "int4"@[3] == '4');
    assert("int8"@[0] == 'i' && "int8"@[3] == '8');
    assert("float4"@[0] == 'f' && "float4"@[5] == '4');
    assert("float8"@[0] == 'f' && "float8"@[5] == '8');
    assert("text"@[0] == 't');
    assert("bpchar"@[0] == 'b');
    assert("name"@[0] == 'n');
    assert("citext"@[0] == 'c');
    assert("char"@[0] == 'c');
    assert("date"@[0] == 'd');
}

/// Dates and moments are written as the calendar writes them, moments with a time zone in
/// universal time.
pub proof fn law_moment_cells(
    oid: u32,
    entries: Seq<(u32, Seq<char>)>,
    days: i32,
    secs: u32,
    nanos: u32,
)
    ensures
        crate::datetime::date_display(days) matches Some(t) ==> cell_json(
            kind_of("date"@, oid, entries),
            Some(PostgresCell::Date(days)),
        ) == Json::Str(t),
        crate::datetime::datetime_display(days, secs, nanos) matches Some(t) ==> cell_json(
            kind_of("timestamp"@, oid, entries),
            Some(PostgresCell::Timestamp(days, secs, nanos)),
        ) == Json::Str(t),
        crate::datetime::datetime_utc_display(days, secs, nanos) matches Some(t) ==> cell_json(
            kind_of("timestamptz"@, oid, entries),
            Some(PostgresCell::TimestampTz(days, secs, nanos)),
        ) == Json::Str(t),
{
    reveal_strlit("bool");
    reveal_strlit("int2");
    reveal_strlit("int4");
    reveal_strlit("int8");
    reveal_strlit("float4");
    reveal_strlit("float8");
    reveal_strlit("text");
    reveal_strlit("varchar");
    reveal_strlit("bpchar");
    reveal_strlit("name");
    reveal_strlit("citext");
    reveal_strlit("char");
    reveal_strlit("bytea");
    reveal_strlit("date");
    reveal_strlit("timestamp");
    reveal_strlit("timestamptz");
    assert("bool"@.len() == 4);
    assert("int2"@.len() == 4);
    assert("int4"@.len() == 4);
    assert("int8"@.len() == 4);
    assert("float4"@.len() == 6);
    assert("float8"@.len() == 6);
    assert("text"@.len() == 4);
    assert("varchar"@.len() == 7);
    assert("bpchar"@.len() == 6);
    assert("name"@.len() == 4);
    assert("citext"@.len() == 6);
    assert("char"@.len() == 4);
    assert("bytea"@.len() == 5);
    assert("date"@.len() == 4);
    assert("timestamp"@.len() == 9);
    assert("timestamptz"@.len() == 11);
    assert("bool"@[0] == 'b');
    assert("int2"@[0] == 'i' && "int2"@[3] == '2');
    assert("int4"@[0] == 'i' && "int4"@[3] == '4');
    assert("int8"@[0] == 'i' && "int8"@[3] == '8');
    assert("float4"@[0] == 'f' && "float4"@[5] == '4');
    assert("float8"@[0] == 'f' && "float8"@[5] == '8');
    assert("text"@[0] == 't');
    assert("bpchar"@[0] == 'b');
    assert("name"@[0] == 'n');
    assert("citext"@[0] == 'c');
    assert("char"@[0] == 'c');
    assert("date"@[0] == 'd');
}

/// A type is known by the last name that the server gives for its number; the types
/// `geometry` and `geography` give binary values.
pub proof fn law_spatial_cells(rows: Seq<Json>, r: Json, oid: u32, b: Vec<u8>)
    requires
        r.int64("oid"@) == Some(oid as i64),
        r.text("typname"@) == Some("geometry"@) || r.text("typname"@) == Some("geography"@),
    ensures
        cell_json(
            kind_of("unknown"@, oid, type_entries(rows.push(r))),
            Some(PostgresCell::Bytes(b)),
        ) == crate::encoding::binary_json(b@),
{
    crate::rows::law_pick_push(rows, |r: Json| type_entry(r), r);
    reveal_strlit("bool");
    reveal_strlit("int2");
    reveal_strlit("int4");
    reveal_strlit("int8");
    reveal_strlit("float4");
    reveal_strlit("float8");
    reveal_strlit("text");
    reveal_strlit("varchar");
    reveal_strlit("bpchar");
    reveal_strlit("name");
    reveal_strlit("citext");
    reveal_strlit("char");
    reveal_strlit("bytea");
    reveal_strlit("date");
    reveal_strlit("timestamp");
    reveal_strlit("timestamptz");
    reveal_strlit("unknown");
    assert("bool"@.len() == 4);
    assert("int2"@.len() == 4);
    assert("int4"@.len() == 4);
    assert("int8"@.len() == 4);
    assert("float4"@.len() == 6);
    assert("float8"@.len() == 6);
    assert("text"@.len() == 4);
    assert("varchar"@.len() == 7);
    assert("bpchar"@.len() == 6);
    assert("name"@.len() == 4);
    assert("citext"@.len() == 6);
    assert("char"@.len() == 4);
    assert("bytea"@.len() == 5);
    assert("date"@.len() == 4);
    assert("timestamp"@.len() == 9);
    assert("timestamptz"@.len() == 11);
    assert("unknown"@.len() == 7);
    assert("bool"@[0] == 'b');
    assert("int2"@[0] == 'i' && "int2"@[3] == '2');
    assert("int4"@[0] == 'i' && "int4"@[3] == '4');
    assert("int8"@[0] == 'i' && "int8"@[3] == '8');
    assert("float4"@[0] == 'f' && "float4"@[5] == '4');
    assert("float8"@[0] == 'f' && "float8"@[5] == '8');
    assert("text"@[0] == 't');
    assert("varchar"@[0] == 'v');
    assert("bpchar"@[0] == 'b');
    assert("name"@[0] == 'n');
    assert("citext"@[0] == 'c');
    assert("char"@[0] == 'c');
    assert("date"@[0] == 'd');
    assert("unknown"@[0] == 'u');
}

/// A row is read by the names of its columns.
pub proof fn law_row(
    columns: Seq<PostgresColumnView>,
    cells: Seq<Option<PostgresCell>>,
    entries: Seq<(u32, Seq<char>)>,
    i: int,
)
    requires
        columns.len() == cells.len(),
        0 <= i < columns.len(),
        forall|j: int| i < j < columns.len() ==> (#[trigger] columns[j]).name != columns[i].name,
    ensures
        row_json(columns, cells, entries).get(columns[i].name) == Some(
            cell_json(kind_of(columns[i].data_type, columns[i].oid, entries), cells[i]),
        ),
{
    let names = Seq::new(columns.len(), |i: int| columns[i].name);
    let values = Seq::new(
        columns.len(),
        |i: int| cell_json(kind_of(columns[i].data_type, columns[i].oid, entries), cells[i]),
    );
    let other = crate::value::lemma_absent_name(names);
    crate::value::law_row_object(names, values, i, other);
}

/// A column says what its row says: it takes null exactly where the row says `YES`, and it
/// counts up where its default value is the next of a sequence, and has none then.
pub proof fn law_column(
    row: Json,
    schema: Seq<char>,
    pure: Seq<char>,
    name: Seq<char>,
    geometry: Seq<Json>,
    geography: Seq<Json>,
)
    ensures
        ({
            let c = column_of(row, schema, pure, name, geometry, geography);
            &&& c.column_name == name
            &&& row.text("is_nullable"@) == Some("YES"@) ==> c.not_null == Some(false)
            &&& row.text("is_nullable"@) == Some("yes"@) ==> c.not_null == Some(false)
            &&& row.text("is_nullable"@) == Some("NO"@) ==> c.not_null == Some(true)
            &&& row.text("is_nullable"@) is None ==> c.not_null == Some(true)
            &&& row.text("default_value"@) matches Some(d) ==> {
                &&& crate::text::has_prefix(d, "nextval("@) ==> c.auto_increment == Some(true)
                    && c.default_value is None
                &&& !crate::text::has_prefix(d, "nextval("@) ==> c.auto_increment == Some(false)
                    && c.default_value == Some(d)
            }
            &&& row.text("default_value"@) is None ==> c.auto_increment == Some(false)
                && c.default_value is None
        }),
{
    reveal_strlit("YES");
    reveal_strlit("yes");
    reveal_strlit("NO");
    assert("YES"@.len() == 3);
    assert("yes"@.len() == 3);
    assert("NO"@.len() == 2);
    assert("YES"@[0] == 'Y');
    assert("yes"@[0] == 'y');
}

/// The type of a column: spatial columns by their list, decimals with precision and scale,
/// texts with their length, long names of types shortened.
pub proof fn law_column_type(
    row: Json,
    schema: Seq<char>,
    pure: Seq<char>,
    name: Seq<char>,
    geometry: Seq<Json>,
    geography: Seq<Json>,
    p: i64,
    s: i64,
    n: i64,
)
    requires
        row.int64("numeric_precision"@) == Some(p),
        row.int64("numeric_scale"@) == Some(s),
        row.int64("char_max_length"@) == Some(n),
    ensures
        ({
            let t = column_of(row, schema, pure, name, geometry, geography).data_type;
            let in_geometry = exists|i: int|
                0 <= i < geometry.len() && (#[trigger] geometry[i]).text("schema_name"@) == Some(
                    schema,
                ) && geometry[i].text("pure_name"@) == Some(pure) && geometry[i].text(
                    "column_name"@,
                ) == Some(name);
            let in_geography = exists|i: int|
                0 <= i < geography.len() && (#[trigger] geography[i]).text("schema_name"@) == Some(
                    schema,
                ) && geography[i].text("pure_name"@) == Some(pure) && geography[i].text(
                    "column_name"@,
                ) == Some(name);
            &&& in_geometry ==> t == "geometry"@
            &&& !in_geometry && in_geography ==> t == "geography"@
            &&& !in_geometry && !in_geography ==> {
                &&& row.text("data_type"@) == Some("numeric"@) ==> t == "numeric("@
                    + crate::numbers::dec_int(p as int) + ","@ + crate::numbers::dec_int(s as int)
                    + ")"@
                &&& row.text("data_type"@) == Some("character varying"@) ==> t == "varchar("@
                    + crate::numbers::dec_int(n as int) + ")"@
                &&& row.text("data_type"@) == Some("varchar"@) ==> t == "varchar("@
                    + crate::numbers::dec_int(n as int) + ")"@
                &&& row.text("data_type"@) == Some("timestamp without time zone"@) ==> t
                    == "timestamp"@
                &&& row.text("data_type"@) == Some("int4"@) ==> t == "int4"@
            }
        }),
{
    reveal_strlit("numeric");
    reveal_strlit("decimal");
    reveal_strlit("varchar");
    reveal_strlit("char");
    reveal_strlit("bpchar");
    reveal_strlit("character");
    reveal_strlit("text");
    reveal_strlit("name");
    reveal_strlit("citext");
    reveal_strlit("int4");
    reveal_strlit("timestamp");
    reveal_strlit("timestamp without time zone");
    reveal_strlit("character varying");
    assert("numeric"@.len() == 7);
    assert("decimal"@.len() == 7);
    assert("varchar"@.len() == 7);
    assert("char"@.len() == 4);
    assert("bpchar"@.len() == 6);
    assert("character"@.len() == 9);
    assert("text"@.len() == 4);
    assert("name"@.len() == 4);
    assert("citext"@.len() == 6);
    assert("int4"@.len() == 4);
    assert("timestamp"@.len() == 9);
    assert("timestamp without time zone"@.len() == 27);
    assert("character varying"@.len() == 17);
    assert("numeric"@[0] == 'n');
    assert("decimal"@[0] == 'd');
    assert("varchar"@[0] == 'v');
    assert("char"@[0] == 'c');
    assert("bpchar"@[0] == 'b');
    assert("character"@[0] == 'c');
    assert("text"@[0] == 't');
    assert("name"@[0] == 'n');
    assert("citext"@[0] == 'c');
    assert("int4"@[0] == 'i');
    assert("timestamp"@[0] == 't');
    reveal_strlit("numeric(");
    reveal_strlit("varchar(");
    reveal_strlit("(");
    assert("numeric"@ + "("@ =~= "numeric("@);
    assert("varchar"@ + "("@ =~= "varchar("@);
}

/// The columns of an object are those of its rows, in their order, under their names.
pub proof fn law_columns(
    rows: Seq<Json>,
    r: Json,
    schema: Seq<char>,
    pure: Seq<char>,
    name: Seq<char>,
    geometry: Seq<Json>,
    geography: Seq<Json>,
)
    requires
        r.text("column_name"@) == Some(name),
    ensures
        columns_of(Seq::empty(), schema, pure, geometry, geography).len() == 0,
        r.text("schema_name"@) == Some(schema) && r.text("pure_name"@) == Some(pure)
            ==> columns_of(rows.push(r), schema, pure, geometry, geography) == columns_of(
            rows,
            schema,
            pure,
            geometry,
            geography,
        ).push(column_of(r, schema, pure, name, geometry, geography)),
        !(r.text("schema_name"@) == Some(schema) && r.text("pure_name"@) == Some(pure))
            ==> columns_of(rows.push(r), schema, pure, geometry, geography) == columns_of(
            rows,
            schema,
            pure,
            geometry,
            geography,
        ),
{
    crate::rows::law_where_texts(rows, r, "schema_name"@, schema, "pure_name"@, pure);
    if r.text("schema_name"@) == Some(schema) && r.text("pure_name"@) == Some(pure) {
        assert(columns_of(rows.push(r), schema, pure, geometry, geography) =~= columns_of(
            rows,
            schema,
            pure,
            geometry,
            geography,
        ).push(column_of(r, schema, pure, name, geometry, geography)));
    }
}

/// The primary key of a table is made of the rows that name its schema and the table.
pub proof fn law_primary_key(
    rows: Seq<Json>,
    r: Json,
    schema: Seq<char>,
    pure: Seq<char>,
    name: Seq<char>,
)
    requires
        r.text("column_name"@) == Some(name),
    ensures
        primary_key(Seq::empty(), schema, pure) is None,
        !(r.text("schema_name"@) == Some(schema) && r.text("pure_name"@) == Some(pure))
            ==> primary_key(rows.push(r), schema, pure) == primary_key(rows, schema, pure),
        r.text("schema_name"@) == Some(schema) && r.text("pure_name"@) == Some(pure) ==> (
        primary_key(rows.push(r), schema, pure) matches Some(after) && {
            let c = after.columns_constraint;
            &&& c.columns.last().column_name == name
            &&& c.constraint.constraint_type == ConstraintType::PrimaryKey
            &&& match primary_key(rows, schema, pure) {
                Some(before) => c.columns.drop_last() == before.columns_constraint.columns
                    && c.constraint == before.columns_constraint.constraint,
                None => c.columns.len() == 1 && c.constraint.constraint_name == r.text(
                    "constraint_name"@,
                ),
            }
        }),
{
    crate::rows::law_where_texts(rows, r, "schema_name"@, schema, "pure_name"@, pure);
    if r.text("schema_name"@) == Some(schema) && r.text("pure_name"@) == Some(pure) {
        let own = rows_of(rows, schema, pure);
        let after = primary_key(rows.push(r), schema, pure)->0.columns_constraint;
        assert(own.push(r).last() == r);
        if own.len() > 0 {
            assert(own.push(r)[0] == own[0]);
            let before = primary_key(rows, schema, pure)->0.columns_constraint;
            assert(after.columns.drop_last() =~= before.columns);
        }
    }
}

/// A foreign key refers to the schema, the table and the column of its row, with its
/// actions.
pub proof fn law_foreign_key(
    r: Json,
    schema: Seq<char>,
    pure: Seq<char>,
    name: Seq<char>,
    table: Seq<char>,
)
    requires
        r.text("table_schema"@) == Some(schema),
        r.text("table_name"@) == Some(pure),
        r.text("constraint_name"@) == Some(name),
        r.text("column_name"@) is Some,
        r.text("ref_table_name"@) == Some(table),
    ensures
        foreign_keys(seq![r], schema, pure).len() == 1,
        ({
            let k = foreign_keys(seq![r], schema, pure)[0];
            &&& k.columns_constraint.constraint.constraint_name == Some(name)
            &&& k.columns_constraint.columns.len() == 1
            &&& Some(k.columns_constraint.columns[0].column_name) == r.text("column_name"@)
            &&& k.columns_constraint.columns[0].ref_column_name == r.text("ref_column_name"@)
            &&& k.ref_table_name == table
            &&& k.ref_schema_name == r.text("ref_table_schema"@)
            &&& k.update_action == r.text("update_action"@)
            &&& k.delete_action == r.text("delete_action"@)
        }),
{
    let none = Seq::<Json>::empty();
    crate::rows::law_where_texts(none, r, "table_schema"@, schema, "table_name"@, pure);
    assert(none.push(r) =~= seq![r]);
    let own = crate::rows::where_texts(none, "table_schema"@, schema, "table_name"@, pure);
    assert(own.len() == 0);
    assert(foreign_keys(none, schema, pure) =~= Seq::empty()) by {
        assert(crate::rows::keys_of(own, "constraint_name"@) =~= Seq::empty());
    }
    crate::drivers::common::law_foreign_key_begun(own, r, fk_fields());
    let after = foreign_keys(seq![r], schema, pure);
    assert(after.last() == after[0]);
    crate::rows::law_group_push(own, r, "constraint_name"@, name);
    assert(crate::rows::group_of(own, "constraint_name"@, name) =~= Seq::empty());
    assert(crate::rows::group_of(own.push(r), "constraint_name"@, name) =~= seq![r]);
}

/// The columns of an index: one for each of its keys that names an attribute of its table,
/// in the order of the keys, descending where its option says so.
pub proof fn law_index_column(
    keys: Seq<Seq<char>>,
    options: Seq<Seq<char>>,
    oid: Option<i64>,
    before: Seq<Json>,
    c: Json,
    after: Seq<Json>,
    n: int,
    k: int,
    name: Seq<char>,
)
    requires
        0 <= k < keys.len(),
        c.int64("oid"@) == oid,
        c.text("attnum"@) == Some(keys[k]),
        c.text("column_name"@) == Some(name),
        forall|j: int|
            0 <= j < before.len() ==> !((#[trigger] before[j]).int64("oid"@) == oid
                && before[j].text("attnum"@) == Some(keys[k])),
    ensures
        ({
            let rows = before.push(c) + after;
            let columns = index_columns(keys, options, oid, rows, k + 1);
            &&& columns.len() == index_columns(keys, options, oid, rows, k).len() + 1
            &&& columns.drop_last() == index_columns(keys, options, oid, rows, k)
            &&& columns.last().column_name == name
            &&& k < options.len() && options[k] == "0"@ ==> columns.last().is_descending == Some(
                false,
            )
            &&& k < options.len() && options[k] == "1"@ ==> columns.last().is_descending == Some(
                true,
            )
            &&& k < options.len() && options[k] == "3"@ ==> columns.last().is_descending == Some(
                true,
            )
        }),
{
    let rows = before.push(c) + after;
    let p = |c: Json| is_index_column(c, oid, keys[k]);
    let i = before.len() as int;
    assert(rows[i] == c);
    assert forall|j: int| 0 <= j < rows.take(i).len() implies !p(#[trigger] rows.take(i)[j]) by {
        assert(rows.take(i)[j] == before[j]);
    }
    crate::rows::lemma_none_found(rows.take(i), p);
    crate::rows::lemma_first_found(rows, p, i);
    let columns = index_columns(keys, options, oid, rows, k + 1);
    assert(columns.drop_last() =~= index_columns(keys, options, oid, rows, k));
    reveal_strlit("0");
    reveal_strlit("1");
    reveal_strlit("3");
    reveal_with_fuel(crate::numbers::dec, 2);
    assert("0"@ =~= crate::numbers::dec_int(0));
    assert("1"@ =~= crate::numbers::dec_int(1));
    assert("3"@ =~= crate::numbers::dec_int(3));
    crate::numbers::law_read_signed(0);
    crate::numbers::law_read_signed(1);
    crate::numbers::law_read_signed(3);
}

/// A key of an index that names no attribute gives no column.
pub proof fn law_index_expression(
    keys: Seq<Seq<char>>,
    options: Seq<Seq<char>>,
    oid: Option<i64>,
    rows: Seq<Json>,
    k: int,
)
    requires
        0 <= k < keys.len(),
        forall|j: int|
            0 <= j < rows.len() ==> !((#[trigger] rows[j]).int64("oid"@) == oid && rows[j].text(
                "attnum"@,
            ) == Some(keys[k])),
    ensures
        index_columns(keys, options, oid, rows, k + 1) == index_columns(keys, options, oid, rows, k),
{
    crate::rows::lemma_none_found(rows, |c: Json| is_index_column(c, oid, keys[k]));
}

/// An index row gives an index with its columns, unless its name is that of a unique
/// constraint, where it gives that constraint.
pub proof fn law_index(
    rows: Seq<Json>,
    r: Json,
    column_rows: Seq<Json>,
    unique_names: Seq<Seq<char>>,
    name: Seq<char>,
    keys: Seq<char>,
    options: Seq<char>,
)
    requires
        r.text("index_name"@) == Some(name),
        r.text("indkey"@) == Some(keys),
        r.text("indoption"@) == Some(options),
    ensures
        ({
            let words = crate::text::words(keys);
            let columns = index_columns(
                words,
                crate::text::words(options),
                r.int64("oid"@),
                column_rows,
                words.len() as int,
            );
            let x = indexes_of(rows.push(r), column_rows, unique_names);
            let u = uniques_of(rows.push(r), column_rows, unique_names);
            &&& unique_names.contains(name) ==> {
                &&& x == indexes_of(rows, column_rows, unique_names)
                &&& u.len() == uniques_of(rows, column_rows, unique_names).len() + 1
                &&& u.last().columns_constraint.constraint.constraint_name == Some(name)
                &&& u.last().columns_constraint.constraint.constraint_type
                    == ConstraintType::Unique
                &&& u.last().columns_constraint.columns == columns
            }
            &&& !unique_names.contains(name) ==> {
                &&& u == uniques_of(rows, column_rows, unique_names)
                &&& x.len() == indexes_of(rows, column_rows, unique_names).len() + 1
                &&& x.last().columns_constraint.constraint.constraint_name == Some(name)
                &&& x.last().columns_constraint.constraint.constraint_type
                    == ConstraintType::Index
                &&& x.last().columns_constraint.columns == columns
                &&& x.last().is_unique <==> r.flag("is_unique"@) == Some(true)
            }
        }),
{
    crate::rows::law_pick_push(rows, |r: Json| as_index(r, column_rows, unique_names), r);
    crate::rows::law_pick_push(rows, |r: Json| as_unique(r, column_rows, unique_names), r);
}

/// A table has the columns, the keys and the indexes that the catalogue holds under its
/// schema and its name.
pub proof fn law_table(row: Json, c: PostgresCatalogView, schema: Seq<char>, pure: Seq<char>)
    requires
        row.text("schema_name"@) == Some(schema),
        row.text("pure_name"@) == Some(pure),
    ensures
        ({
            let t = table_of(row, c);
            let names = crate::rows::texts_under(c.unique_names, "constraint_name"@);
            let indexes = crate::rows::where_texts(
                c.indexes,
                "schema_name"@,
                schema,
                "table_name"@,
                pure,
            );
            &&& t.object.pure_name == pure
            &&& t.object.schema_name == Some(schema)
            &&& t.object.object_id == Some("tables:"@ + schema + "."@ + pure)
            &&& t.columns == columns_of(
                c.columns,
                schema,
                pure,
                c.geometry_columns,
                c.geography_columns,
            )
            &&& t.primary_key == primary_key(c.primary_keys, schema, pure)
            &&& t.foreign_keys == Some(foreign_keys(c.foreign_keys, schema, pure))
            &&& t.indexes == Some(indexes_of(indexes, c.index_columns, names))
            &&& t.uniques == Some(uniques_of(indexes, c.index_columns, names))
            &&& t.table_row_count == row.int64("size_bytes"@)
        }),
{
    reveal_strlit("tables");
    reveal_strlit(":");
    reveal_strlit("tables:");
    assert("tables"@ + ":"@ =~= "tables:"@);
}

/// The content hash of a table joins those of its columns and its constraints.
pub proof fn law_content_hash(row: Json, a: Seq<char>, b: Seq<char>)
    requires
        row.text("hash_code_columns"@) == Some(a),
        row.text("hash_code_constraints"@) == Some(b),
    ensures
        content_hash_of(row) == Some(a + "-"@ + b),
{
}

/// The structure of a database has one table for each table row, one view for each view
/// row, one materialized view for each of its rows, and one trigger for each trigger row,
/// in their order; its routines are the procedures and functions among the routine rows.
pub proof fn law_database(c: PostgresCatalogView, i: int)
    ensures
        ({
            let d = database_of(c);
            &&& d.tables.len() == c.tables.len()
            &&& d.views.len() == c.views.len()
            &&& d.matviews is Some && d.matviews->0.len() == c.matviews.len()
            &&& d.triggers.len() == c.triggers.len()
            &&& 0 <= i < c.tables.len() ==> d.tables[i] == table_of(c.tables[i], c)
            &&& 0 <= i < c.views.len() && c.views[i].text("pure_name"@) is Some && c.views[i].text(
                "schema_name"@,
            ) is Some ==> {
                let schema = c.views[i].text("schema_name"@)->0;
                let pure = c.views[i].text("pure_name"@)->0;
                &&& d.views[i].object.object.pure_name == pure
                &&& d.views[i].columns == columns_of(
                    c.columns,
                    schema,
                    pure,
                    Seq::empty(),
                    Seq::empty(),
                )
                &&& c.views[i].text("create_sql"@) matches Some(s)
                    ==> d.views[i].object.create_sql == Some(
                    "CREATE VIEW "@ + ("\""@ + schema + "\".\""@ + pure + "\""@) + "\nAS\n"@ + s,
                )
            }
            &&& 0 <= i < c.matviews.len() && c.matviews[i].text("pure_name"@) is Some
                && c.matviews[i].text("schema_name"@) is Some ==> {
                let schema = c.matviews[i].text("schema_name"@)->0;
                let pure = c.matviews[i].text("pure_name"@)->0;
                &&& d.matviews->0[i].object.object.pure_name == pure
                &&& d.matviews->0[i].columns == columns_of(
                    c.matview_columns,
                    schema,
                    pure,
                    Seq::empty(),
                    Seq::empty(),
                )
                &&& c.matviews[i].text("definition"@) matches Some(s)
                    ==> d.matviews->0[i].object.create_sql == Some(
                    "CREATE MATERIALIZED VIEW "@ + ("\""@ + schema + "\".\""@ + pure + "\""@)
                        + "\nAS\n"@ + s,
                )
            }
            &&& 0 <= i < c.triggers.len() ==> d.triggers[i] == trigger_of(c.triggers[i])
            &&& d.procedures == procedures_of(c.routines, c.parameters)
            &&& d.functions == functions_of(c.routines, c.parameters)
        }),
{
}

/// A parameter has the name, the type, the mode and the position of its row.
pub proof fn law_parameter(r: Json)
    requires
        r.text("parameter_name"@) is Some,
        r.text("data_type"@) is Some,
    ensures
        Some(parameter_of(r).parameter_name) == r.text("parameter_name"@),
        r.text("data_type"@) == Some("int4"@) ==> parameter_of(r).data_type == "int4"@,
        r.text("data_type"@) == Some("character varying"@) ==> parameter_of(r).data_type
            == "varchar"@,
        parameter_of(r).position == r.int64("parameter_index"@),
        r.text("parameter_mode"@) == Some("OUT"@) <==> parameter_of(r).parameter_mode == Some(
            ParameterMode::Out,
        ),
        r.text("parameter_mode"@) == Some("INOUT"@) <==> parameter_of(r).parameter_mode == Some(
            ParameterMode::InOut,
        ),
        r.text("parameter_mode"@) == Some("IN"@) ==> parameter_of(r).parameter_mode == Some(
            ParameterMode::In,
        ),
{
    reveal_strlit("IN");
    reveal_strlit("OUT");
    reveal_strlit("INOUT");
    reveal_strlit("int4");
    reveal_strlit("character varying");
    reveal_strlit("timestamp without time zone");
    assert("IN"@.len() == 2);
    assert("OUT"@.len() == 3);
    assert("INOUT"@.len() == 5);
    assert("int4"@.len() == 4);
    assert("character varying"@.len() == 17);
    assert("timestamp without time zone"@.len() == 27);
}

/// The parameters of a routine are those of the rows that name it, in their order.
pub proof fn law_parameters(rows: Seq<Json>, r: Json, schema: Seq<char>, pure: Seq<char>)
    ensures
        r.text("schema_name"@) == Some(schema) && r.text("pure_name"@) == Some(pure)
            ==> parameters_of(rows.push(r), schema, pure) == parameters_of(
            rows,
            schema,
            pure,
        ).push(parameter_of(r)),
        !(r.text("schema_name"@) == Some(schema) && r.text("pure_name"@) == Some(pure))
            ==> parameters_of(rows.push(r), schema, pure) == parameters_of(rows, schema, pure),
{
    crate::rows::law_where_texts(rows, r, "schema_name"@, schema, "pure_name"@, pure);
    if r.text("schema_name"@) == Some(schema) && r.text("pure_name"@) == Some(pure) {
        assert(parameters_of(rows.push(r), schema, pure) =~= parameters_of(
            rows,
            schema,
            pure,
        ).push(parameter_of(r)));
    }
}

/// A parameter as DDL: the mode where it is not an input, the name and the type.
pub proof fn law_parameter_ddl(p: ParameterInfoView, upper: Seq<char>)
    requires
        p.data_type.len() > 0,
    ensures
        p.parameter_mode == Some(ParameterMode::Out) ==> parameter_sql_with(p, upper) == "OUT "@
            + p.parameter_name + " "@ + upper,
        p.parameter_mode == Some(ParameterMode::InOut) ==> parameter_sql_with(p, upper)
            == "INOUT "@ + p.parameter_name + " "@ + upper,
        p.parameter_mode == Some(ParameterMode::In) || p.parameter_mode is None
            ==> parameter_sql_with(p, upper) == p.parameter_name + " "@ + upper,
{
    reveal_strlit("");
    assert("OUT "@ + p.parameter_name + (" "@ + upper) =~= "OUT "@ + p.parameter_name + " "@
        + upper);
    assert("INOUT "@ + p.parameter_name + (" "@ + upper) =~= "INOUT "@ + p.parameter_name + " "@
        + upper);
    assert(""@ + p.parameter_name + (" "@ + upper) =~= p.parameter_name + " "@ + upper);
}

/// A routine row is a procedure where it says so and a function otherwise, with the
/// parameters that the catalogue holds under its schema and its name.
pub proof fn law_routine(
    rows: Seq<Json>,
    r: Json,
    params: Seq<Json>,
    schema: Seq<char>,
    pure: Seq<char>,
)
    requires
        r.text("schema_name"@) == Some(schema),
        r.text("pure_name"@) == Some(pure),
    ensures
        r.text("object_type"@) == Some("PROCEDURE"@) ==> {
            let p = procedures_of(rows.push(r), params);
            &&& functions_of(rows.push(r), params) == functions_of(rows, params)
            &&& p.len() == procedures_of(rows, params).len() + 1
            &&& p.last().callable.object.object.pure_name == pure
            &&& p.last().callable.object.object.schema_name == Some(schema)
            &&& p.last().callable.object.object.object_id == Some(
                "procedures:"@ + schema + "."@ + pure,
            )
            &&& parameters_of(params, schema, pure).len() > 0 ==> p.last().callable.parameters
                == Some(parameters_of(params, schema, pure))
        },
        r.text("object_type"@) != Some("PROCEDURE"@) ==> {
            let f = functions_of(rows.push(r), params);
            &&& procedures_of(rows.push(r), params) == procedures_of(rows, params)
            &&& f.len() == functions_of(rows, params).len() + 1
            &&& f.last().callable.object.object.pure_name == pure
            &&& f.last().callable.object.object.object_id == Some(
                "functions:"@ + schema + "."@ + pure,
            )
            &&& f.last().return_type == r.text("data_type"@)
        },
{
    reveal_strlit("procedures");
    reveal_strlit("functions");
    reveal_strlit(":");
    reveal_strlit("procedures:");
    reveal_strlit("functions:");
    assert("procedures"@ + ":"@ =~= "procedures:"@);
    assert("functions"@ + ":"@ =~= "functions:"@);
    crate::rows::law_pick_push(
        rows,
        |r: Json|
            if is_procedure(r) {
                Some(ProcedureInfoView { callable: callable_of(r, params) })
            } else {
                None
            },
        r,
    );
    crate::rows::law_pick_push(
        rows,
        |r: Json|
            if is_procedure(r) {
                None
            } else {
                Some(
                    FunctionInfoView {
                        callable: callable_of(r, params),
                        return_type: r.text("data_type"@),
                    },
                )
            },
        r,
    );
}

/// A trigger has the name, the table, the function, the timing and the event of its row.
pub proof fn law_trigger(row: Json)
    requires
        row.text("trigger_name"@) is Some,
    ensures
        Some(trigger_of(row).object.object.pure_name) == row.text("trigger_name"@),
        trigger_of(row).table_name == row.text("table_name"@),
        trigger_of(row).function_name == row.text("function_name"@),
        trigger_of(row).object.create_sql == row.text("definition"@),
        row.text("trigger_timing"@) == Some("AFTER"@) <==> trigger_of(row).trigger_timing == Some(
            TriggerTiming::After,
        ),
        row.text("trigger_timing"@) == Some("INSTEAD OF"@) <==> trigger_of(row).trigger_timing
            == Some(TriggerTiming::InsteadOf),
        row.text("event_type"@) is None ==> trigger_of(row).event_type is None,
        row.text("event_type"@) == Some("INSERT"@) ==> trigger_of(row).event_type == Some(
            TriggerEventType::Insert,
        ),
        row.text("event_type"@) == Some("UPDATE"@) ==> trigger_of(row).event_type == Some(
            TriggerEventType::Update,
        ),
        row.text("event_type"@) == Some("DELETE"@) ==> trigger_of(row).event_type == Some(
            TriggerEventType::Delete,
        ),
        row.text("event_type"@) == Some("TRUNCATE"@) ==> trigger_of(row).event_type == Some(
            TriggerEventType::Truncate,
        ),
{
    reveal_strlit("AFTER");
    reveal_strlit("INSTEAD OF");
    reveal_strlit("INSERT");
    reveal_strlit("UPDATE");
    reveal_strlit("DELETE");
    reveal_strlit("TRUNCATE");
    assert("AFTER"@.len() == 5);
    assert("INSTEAD OF"@.len() == 10);
    assert("INSERT"@.len() == 6);
    assert("UPDATE"@.len() == 6);
    assert("DELETE"@.len() == 6);
    assert("TRUNCATE"@.len() == 8);
    assert("INSERT"@[0] == 'I');
    assert("UPDATE"@[0] == 'U');
    assert("DELETE"@[0] == 'D');
    lemma_event_holds("INSERT"@);
    lemma_event_holds("UPDATE"@);
    lemma_event_holds("DELETE"@);
    lemma_event_holds("TRUNCATE"@);
}

proof fn lemma_event_holds(e: Seq<char>)
    requires
        e == "INSERT"@ || e == "UPDATE"@ || e == "DELETE"@ || e == "TRUNCATE"@,
    ensures
        crate::text::holds(e, e),
        e != "INSERT"@ ==> !crate::text::holds(e, "INSERT"@),
        e != "UPDATE"@ ==> !crate::text::holds(e, "UPDATE"@),
        e != "DELETE"@ ==> !crate::text::holds(e, "DELETE"@),
{
    reveal_strlit("INSERT");
    reveal_strlit("UPDATE");
    reveal_strlit("DELETE");
    reveal_strlit("TRUNCATE");
    assert("INSERT"@.len() == 6);
    assert("UPDATE"@.len() == 6);
    assert("DELETE"@.len() == 6);
    assert("TRUNCATE"@.len() == 8);
    assert("INSERT"@[0] == 'I');
    assert("UPDATE"@[0] == 'U');
    assert("DELETE"@[0] == 'D');
    assert(e.subrange(0, e.len() as int) =~= e);
    assert(crate::text::occurs_at(e, e, 0));
    assert("TRUNCATE"@ =~= seq!['T', 'R', 'U', 'N', 'C', 'A', 'T', 'E']);
    assert("UPDATE"@ =~= seq!['U', 'P', 'D', 'A', 'T', 'E']);
    assert("INSERT"@ =~= seq!['I', 'N', 'S', 'E', 'R', 'T']);
    assert("DELETE"@ =~= seq!['D', 'E', 'L', 'E', 'T', 'E']);
    assert forall|i: int| e != "INSERT"@ implies !crate::text::occurs_at(e, "INSERT"@, i) by {
        if crate::text::occurs_at(e, "INSERT"@, i) {
            assert(e.subrange(i, i + 6)[0] == 'I');
            assert(e[i] == 'I');
        }
    }
    assert forall|i: int| e != "UPDATE"@ implies !crate::text::occurs_at(e, "UPDATE"@, i) by {
        if crate::text::occurs_at(e, "UPDATE"@, i) {
            assert(e.subrange(i, i + 6)[1] == 'P');
            assert(e[i + 1] == 'P');
        }
    }
    assert forall|i: int| e != "DELETE"@ implies !crate::text::occurs_at(e, "DELETE"@, i) by {
        if crate::text::occurs_at(e, "DELETE"@, i) {
            assert(e.subrange(i, i + 6)[2] == 'L');
            assert(e[i + 2] == 'L');
        }
    }
}

/// The version that is shown: the product that the server names and the first word with a
/// point in it.
pub proof fn law_version(r: Json, rest: Seq<Json>, version: Seq<char>)
    requires
        r.text("version"@) == Some(version),
    ensures
        version_of(seq![r] + rest).version == version,
        version_of(seq![r] + rest).version_text matches Some(t) ==> exists|w: Seq<char>|
            crate::text::split(version, ' ').contains(w) && crate::text::split(w, '.').len() >= 2
                && t == #[trigger] (product_of(version) + " "@ + w),
        version_of(Seq::empty()).version == "unknown"@,
{
    let words = crate::text::split(version, ' ');
    let p = |w: Seq<char>| crate::text::split(w, '.').len() >= 2;
    assert((seq![r] + rest)[0] == r);
    if dotted_word(words) is Some {
        lemma_dotted(words);
    }
}

proof fn lemma_dotted(words: Seq<Seq<char>>)
    requires
        dotted_word(words) is Some,
    ensures
        words.contains(dotted_word(words)->0),
        crate::text::split(dotted_word(words)->0, '.').len() >= 2,
    decreases words.len(),
{
    if words.len() > 0 {
        let front = words.drop_last();
        if dotted_word(front) is Some {
            lemma_dotted(front);
            let w = dotted_word(front)->0;
            let i = choose|i: int| 0 <= i < front.len() && front[i] == w;
            assert(words[i] == w);
        } else {
            assert(words[words.len() - 1] == words.last());
        }
    }
}

/// The product that a version in small letters names.
pub proof fn law_product(low: Seq<char>)
    ensures
        crate::text::holds(low, "cockroach"@) ==> product_in(low) == "CockroachDB"@,
        !crate::text::holds(low, "cockroach"@) && crate::text::holds(low, "redshift"@)
            ==> product_in(low) == "Redshift"@,
        !crate::text::holds(low, "cockroach"@) && !crate::text::holds(low, "redshift"@)
            ==> product_in(low) == "PostgreSQL"@,
{
}

/// A query asks for one object and one schema, or for all but the server's own schemas.
pub proof fn law_conditions(
    a: Seq<char>,
    b: Seq<char>,
    c: Seq<char>,
    id: Seq<char>,
    schema: Seq<char>,
)
    requires
        forall|k: int|
            0 <= k < a.len() ==> #[trigger] (a + "=OBJECT_ID_CONDITION"@ + (b
                + "=SCHEMA_NAME_CONDITION"@ + c)).subrange(k, k + "=OBJECT_ID_CONDITION"@.len())
                != "=OBJECT_ID_CONDITION"@,
        !crate::text::holds(b + "=SCHEMA_NAME_CONDITION"@ + c, "=OBJECT_ID_CONDITION"@),
        forall|k: int|
            0 <= k < (a + (" = '"@ + id + "'"@) + b).len() ==> #[trigger] (a + (" = '"@ + id + "'"@)
                + b + "=SCHEMA_NAME_CONDITION"@ + c).subrange(
                k,
                k + "=SCHEMA_NAME_CONDITION"@.len(),
            ) != "=SCHEMA_NAME_CONDITION"@,
        !crate::text::holds(c, "=SCHEMA_NAME_CONDITION"@),
    ensures
        with_conditions(
            a + "=OBJECT_ID_CONDITION"@ + (b + "=SCHEMA_NAME_CONDITION"@ + c),
            Some(id),
            Some(schema),
        ) == a + (" = '"@ + id + "'"@) + b + (" = '"@ + schema + "'"@) + c,
{
    reveal_strlit("=OBJECT_ID_CONDITION");
    reveal_strlit("=SCHEMA_NAME_CONDITION");
    let cond = " = '"@ + id + "'"@;
    let rest = b + "=SCHEMA_NAME_CONDITION"@ + c;
    crate::text::law_replace(a, "=OBJECT_ID_CONDITION"@, rest, cond);
    crate::text::law_replace_absent(rest, "=OBJECT_ID_CONDITION"@, cond);
    assert(a + cond + rest =~= a + cond + b + "=SCHEMA_NAME_CONDITION"@ + c);
    crate::text::law_replace(a + cond + b, "=SCHEMA_NAME_CONDITION"@, c, " = '"@ + schema + "'"@);
    crate::text::law_replace_absent(c, "=SCHEMA_NAME_CONDITION"@, " = '"@ + schema + "'"@);
}

/// Without a schema the server's own are left out.
pub proof fn law_any_schema()
    ensures
        schema_condition(None) == " not in ('pg_catalog', 'pg_toast', 'information_schema')"@,
        schema_or_public(None) == "public"@,
{
}

/// The queries of a table ask for that table in its schema; those of a database for all.
pub proof fn law_table_queries(schema: Seq<char>, pure: Seq<char>)
    ensures
        ({
            let id = Some("tables:"@ + schema + "."@ + pure);
            let q = table_queries(schema, pure);
            &&& q.len() == 9
            &&& q[0] == with_conditions(SQL_TABLES@, id, Some(schema))
            &&& q[1] == with_conditions(SQL_COLUMNS@, id, Some(schema))
            &&& q[2] == with_conditions(SQL_PRIMARY_KEYS@, id, Some(schema))
            &&& q[3] == with_conditions(SQL_FOREIGN_KEYS@, id, Some(schema))
            &&& q[5] == with_conditions(SQL_INDEXES@, id, Some(schema))
            &&& full_queries().len() == 15
            &&& full_queries()[0] == with_conditions(SQL_TABLES@, None, None)
            &&& full_queries()[2] == with_conditions(SQL_COLUMNS@, None, None)
            &&& full_queries()[3] == with_conditions(SQL_PRIMARY_KEYS@, None, None)
            &&& full_queries()[4] == with_conditions(SQL_FOREIGN_KEYS@, None, None)
        }),
{
    reveal_strlit("tables");
    reveal_strlit(":");
    reveal_strlit("tables:");
    assert("tables"@ + ":"@ =~= "tables:"@);
}

/// A connection says which program it serves.
pub proof fn law_application(def: ConnectionDefinitionView, host: Seq<char>)
    ensures
        config_of(def, host).application_name == "DbGate"@,
{
}

/// A text type shows its length and a number type its precision and scale.
pub proof fn law_sized_types(t: Seq<char>)
    ensures
        is_string_type(t) <==> t == "varchar"@ || t == "char"@ || t == "bpchar"@ || t == "character"@ || t == "text"@ || t == "name"@ || t == "citext"@,
        is_numeric_type(t) <==> t == "numeric"@ || t == "decimal"@,
{
}

/// A routine is made again by a statement of its name, its parameters, its language and its body;
/// a function also says what it gives back.
pub proof fn law_routine_sql(
    row: Json,
    params: Seq<ParameterInfoView>,
    schema: Seq<char>,
    pure: Seq<char>,
    language: Seq<char>,
    body: Seq<char>,
    back: Seq<char>,
)
    requires
        row.text("schema_name"@) == Some(schema),
        row.text("pure_name"@) == Some(pure),
        row.text("language"@) == Some(language),
        row.text("definition"@) == Some(body),
        row.text("data_type"@) == Some(back),
    ensures
        ({
            let name = "\""@ + schema + "\".\""@ + pure + "\""@;
            let tail = "\nAS\n$$\n"@;
            &&& row.text("object_type"@) == Some("PROCEDURE"@) ==> routine_sql(row, params)
                == "CREATE PROCEDURE "@ + name + "("@ + parameters_sql(params) + ") LANGUAGE "@
                + language + tail + body + "\n$$"@
            &&& row.text("object_type"@) != Some("PROCEDURE"@) ==> routine_sql(row, params)
                == "CREATE FUNCTION "@ + name + "("@ + parameters_sql(params) + ") RETURNS "@
                + crate::encoding::uppercase(back) + " LANGUAGE "@ + language + tail + body
                + "\n$$"@
        }),
{
}

/// The parameters of a statement stand in their order with commas between them.
pub proof fn law_parameters_sql(params: Seq<ParameterInfoView>, p: ParameterInfoView)
    ensures
        parameters_sql(Seq::empty()).len() == 0,
        params.len() == 0 ==> parameters_sql(params.push(p)) == parameter_sql(p),
        params.len() > 0 ==> parameters_sql(params.push(p)) == parameters_sql(params) + seq![
            ',',
            ' ',
        ] + parameter_sql(p),
        parameter_sql(p) == parameter_sql_with(p, crate::encoding::uppercase(p.data_type)),
{
    reveal_strlit(", ");
    assert(", "@ =~= seq![',', ' ']);
    let texts = Seq::new(params.len(), |i: int| parameter_sql(params[i]));
    let more = Seq::new(params.push(p).len(), |i: int| parameter_sql(params.push(p)[i]));
    assert(more =~= texts.push(parameter_sql(p)));
    crate::text::law_join(texts, parameter_sql(p), ", "@);
    if params.len() == 0 {
        assert(more =~= seq![parameter_sql(p)]);
    }
    let none = Seq::<ParameterInfoView>::empty();
    assert(Seq::new(none.len(), |i: int| parameter_sql(none[i])) =~= Seq::<Seq<char>>::empty());
}

/// A view, a routine and a table carry the schema and the hash of their row.
pub proof fn law_sql_objects(
    row: Json,
    kind: Seq<char>,
    create: Seq<char>,
    key: Seq<char>,
    columns: Seq<Json>,
    params: Seq<Json>,
    schema: Seq<char>,
    pure: Seq<char>,
)
    requires
        row.text("schema_name"@) == Some(schema),
        row.text("pure_name"@) == Some(pure),
    ensures
        ({
            let v = view_of(row, kind, create, key, columns);
            let f = callable_of(row, params);
            &&& v.object.object.schema_name == Some(schema)
            &&& v.object.object.object_id == Some(kind + ":"@ + schema + "."@ + pure)
            &&& v.object.object.hash_code == row.text("hash_code"@)
            &&& row.text(key) is None ==> v.object.create_sql is None
            &&& f.object.object.hash_code == row.text("hash_code"@)
            &&& f.object.object.schema_name == Some(schema)
            &&& f.object.create_sql == Some(
                routine_sql(row, parameters_of(params, schema, pure)),
            )
            &&& parameters_of(params, schema, pure).len() == 0 ==> f.parameters is None
        }),
{
}

/// The views of a database are known among the views and the materialized views.
pub proof fn law_view_kinds(c: PostgresCatalogView, i: int)
    ensures
        0 <= i < c.views.len() ==> database_of(c).views[i] == view_of(
            c.views[i],
            "views"@,
            "CREATE VIEW "@,
            "create_sql"@,
            c.columns,
        ),
        0 <= i < c.matviews.len() ==> (database_of(c).matviews matches Some(m) && m[i] == view_of(
            c.matviews[i],
            "matviews"@,
            "CREATE MATERIALIZED VIEW "@,
            "definition"@,
            c.matview_columns,
        )),
{
}

/// A trigger is known by its number, and an index is an index.
pub proof fn law_trigger_object(
    row: Json,
    n: i64,
    idx: Json,
    columns: Seq<Json>,
    names: Seq<Seq<char>>,
)
    requires
        row.int64("trigger_id"@) == Some(n),
    ensures
        trigger_of(row).object.object.object_id == Some(
            "triggers:"@ + crate::numbers::dec_int(n as int),
        ),
        trigger_of(row).object.object.hash_code == Some(
            "triggers:"@ + crate::numbers::dec_int(n as int),
        ),
        trigger_of(row).object.object.schema_name == row.text("schema_name"@),
        !names.contains(index_name(idx)) ==> (as_index(idx, columns, names) matches Some(index)
            && index.index_type == Some("index"@) && index.filter_definition is None),
{
}

/// Without both hashes of its parts a table has none; its object has its schema and its name.
pub proof fn law_table_object(row: Json, c: PostgresCatalogView)
    ensures
        table_of(row, c).object.hash_code == content_hash_of(row),
        row.text("hash_code_columns"@) is None ==> content_hash_of(row) is None,
        row.text("hash_code_constraints"@) is None ==> content_hash_of(row) is None,
{
}

/// A port beyond sixteen bits counts by what remains of it in them.
pub proof fn law_wide_port(def: ConnectionDefinitionView, p: u32, k: int, host: Seq<char>)
    requires
        def.port == Some(p),
        0 <= p - k * 65536 < 65536,
    ensures
        config_of(def, host).port == p - k * 65536,
{
}

} // verus!
