//! ClickHouse engine driver.
use vstd::prelude::*;

use crate::connection::{ConnectionDefinition, ConnectionDefinitionView};
use crate::dbinfo::{
    ColumnInfo, ColumnInfoView, ColumnReference, ColumnReferenceView, ColumnsConstraintInfo,
    ColumnsConstraintInfoView, ConstraintType, DatabaseInfo, DatabaseInfoView,
    DatabaseObjectInfoView, NamedObjectInfo, PrimaryKeyInfo, PrimaryKeyInfoView, TableInfo,
    TableInfoView, ViewInfo, ViewInfoView,
};
use crate::driver::{
    list_databases_under, stream_single_result, Capabilities, DatabaseEntry, ServerVersion,
    ServerVersionView, StreamEvent,
};
use crate::drivers::clickhouse_queries::{SQL_COLUMNS, SQL_TABLES, SQL_VIEWS, SQL_VIEW_TEXTS};
use crate::drivers::common::{constraint_over, object_info, plain_reference, sql_object};
use crate::error::{DbgmError, DbgmResult};
use crate::numbers::decimal;
use crate::query::{QueryResultColumn, QueryResultColumnView};
use crate::rows::{
    get_i64, get_str, get_text, list_has, map_list, new_list, or_empty, push_item,
};
use crate::text::{
    chars_of, concat3, concat4, concat5, doubling, replaced, same, slice_string, split_on,
    starts_with, trimmed,
};
use crate::value::{Json, Value};

verus! {

/// Dotted engine id for ClickHouse.
pub const CLICKHOUSE_ENGINE: &'static str = "clickhouse@dbgate-plugin-clickhouse";

/// The query for the version of the server.
pub const SQL_VERSION: &'static str = "SELECT version() as version";

/// The query for the databases of the server.
pub const SQL_DATABASES: &'static str =
    "SELECT name FROM system.databases WHERE name NOT IN ('system', 'information_schema', 'information_schema_ro', 'INFORMATION_SCHEMA')";

/// The ClickHouse driver.
pub struct ClickHouseDriver;

impl Default for ClickHouseDriver {
    fn default() -> (r: Self)
        ensures
            r == ClickHouseDriver,
    {
        ClickHouseDriver::new()
    }
}

impl ClickHouseDriver {
    pub fn new() -> (r: Self)
        ensures
            r == ClickHouseDriver,
    {
        ClickHouseDriver
    }

    pub fn engine(&self) -> (r: &'static str)
        ensures
            r@ == CLICKHOUSE_ENGINE@,
    {
        CLICKHOUSE_ENGINE
    }

    pub fn title(&self) -> (r: &'static str)
        ensures
            r@ == "ClickHouse"@,
    {
        "ClickHouse"
    }

    pub fn capabilities(&self) -> (r: Capabilities)
        ensures
            r == (Capabilities {
                read_only_sessions: true,
                supports_transactions: false,
                supports_native_backup: false,
                supports_native_restore: false,
                supports_server_summary: false,
                default_port: Some(8123),
            }),
    {
        Capabilities {
            read_only_sessions: true,
            supports_transactions: false,
            supports_native_backup: false,
            supports_native_restore: false,
            supports_server_summary: false,
            default_port: Some(8123),
        }
    }

    /// Bulk writes are not offered.
    pub fn write_table_unsupported(&self) -> (r: DbgmError)
        ensures
            r.deep_view() == crate::error::generic_error(
                "ClickHouse write_table streaming is not yet supported"@,
            ),
    {
        DbgmError::new("ClickHouse write_table streaming is not yet supported".to_owned())
    }
}

// ---------------------------------------------------------------------------
// Connecting
// ---------------------------------------------------------------------------

/// Where a server is found, and which of its databases is used.
pub struct ClickHouseConfig {
    pub host: String,
    pub port: u16,
    pub database: String,
}

/// What a [`ClickHouseConfig`] holds.
pub struct ClickHouseConfigView {
    pub host: Seq<char>,
    pub port: u16,
    pub database: Seq<char>,
}

impl DeepView for ClickHouseConfig {
    type V = ClickHouseConfigView;

    open spec fn deep_view(&self) -> ClickHouseConfigView {
        ClickHouseConfigView { host: self.host@, port: self.port, database: self.database@ }
    }
}

/// The configuration for a definition with the given host. Of the port the low 16
/// bits count.
pub open spec fn config_of(def: ConnectionDefinitionView, host: Seq<char>) -> ClickHouseConfigView {
    ClickHouseConfigView {
        host,
        port: match def.port {
            Some(p) => (p % 65536) as u16,
            None => 8123,
        },
        database: match def.database {
            Some(d) => d,
            None => "default"@,
        },
    }
}

/// The configuration for a definition.
pub fn build_config(def: &ConnectionDefinition) -> (r: DbgmResult<ClickHouseConfig>)
    ensures
        match r {
            Ok(c) => def.deep_view().server is Some && c.deep_view() == config_of(
                def.deep_view(),
                def.deep_view().server->0,
            ),
            Err(e) => def.deep_view().server is None && e.deep_view()
                == crate::error::generic_error("ClickHouse connection requires a server host"@),
        },
        r matches Ok(c) ==> (def.port matches Some(p) ==> p < 65536 ==> c.port == p),
{
    let host = match &def.server {
        Some(s) => s.clone(),
        None => return Err(
            DbgmError::new("ClickHouse connection requires a server host".to_owned()),
        ),
    };
    Ok(
        ClickHouseConfig {
            host,
            port: match def.port {
                Some(p) => (p % 65536) as u16,
                None => 8123,
            },
            database: match &def.database {
                Some(d) => d.clone(),
                None => "default".to_owned(),
            },
        },
    )
}

/// The address of the server's HTTP interface.
pub fn build_url(host: &str, port: u16) -> (r: String)
    ensures
        r@ == "http://"@ + host@ + ":"@ + crate::numbers::dec(port as nat),
{
    concat4("http://", host, ":", decimal(port as u64).as_str())
}

// ---------------------------------------------------------------------------
// Results
// ---------------------------------------------------------------------------

/// The columns of a result: the members of its first row, where that is an
/// object.
pub open spec fn columns_of_rows(rows: Seq<Json>) -> Seq<QueryResultColumnView> {
    if rows.len() > 0 && rows[0] is Object {
        let members = rows[0]->Object_0;
        Seq::new(members.len(), |i: int| crate::query::plain_column(members[i].0, None))
    } else {
        Seq::empty()
    }
}

/// The columns of a result.
pub fn result_columns(rows: &Vec<Value>) -> (r: Vec<QueryResultColumn>)
    ensures
        r.deep_view() == columns_of_rows(rows.deep_view()),
{
    if rows.len() == 0 {
        let none = new_list();
        assert(none.deep_view() =~= columns_of_rows(rows.deep_view()));
        return none;
    }
    proof {
        assert(rows.deep_view()[0] == rows@[0]@);
        crate::value::lemma_compound_views(rows@[0]);
    }
    match &rows[0] {
        Value::Object(members) => {
            let f = |m: &(String, Value)| -> (c: QueryResultColumn)
                ensures
                    c.deep_view() == crate::query::plain_column(m.0@, None),
            {
                QueryResultColumn::plain(m.0.clone(), None)
            };
            let r = map_list(members, f);
            assert(r.deep_view() =~= columns_of_rows(rows.deep_view()));
            r
        },
        _ => {
            let none = new_list();
            assert(none.deep_view() =~= columns_of_rows(rows.deep_view()));
            none
        },
    }
}

/// The events of a streamed query.
pub fn stream_events(columns: Vec<QueryResultColumn>, rows: Vec<Value>) -> (r: Vec<StreamEvent>)
    ensures
        r.deep_view() == crate::driver::single_result_events(
            columns.deep_view(),
            rows.deep_view(),
        ),
{
    stream_single_result(columns, rows)
}

/// The version that the rows of the version query report.
pub open spec fn version_of(rows: Seq<Json>) -> ServerVersionView {
    let version = if rows.len() > 0 && rows[0].text("version"@) is Some {
        rows[0].text("version"@)->0
    } else {
        "unknown"@
    };
    ServerVersionView { version, version_text: Some("ClickHouse "@ + version) }
}

/// The server version, from the rows of the version query.
pub fn server_version(rows: &Vec<Value>) -> (r: ServerVersion)
    ensures
        r.deep_view() == version_of(rows.deep_view()),
{
    let reported = if rows.len() > 0 {
        assert(rows.deep_view()[0] == rows@[0]@);
        get_str(&rows[0], "version")
    } else {
        None
    };
    let version = match reported {
        Some(v) => v,
        None => "unknown".to_owned(),
    };
    let version_text = Some(crate::text::concat2("ClickHouse ", version.as_str()));
    ServerVersion { version, version_text }
}

/// The databases, from the rows of the database query.
pub fn list_databases(rows: &Vec<Value>) -> (r: Vec<DatabaseEntry>)
    ensures
        r.deep_view() == crate::driver::databases_under(rows.deep_view(), "name"@),
{
    list_databases_under(rows, "name")
}

// ---------------------------------------------------------------------------
// Analysis queries
// ---------------------------------------------------------------------------

/// The condition on the id of an object.
pub open spec fn condition_of(object_id: Option<Seq<char>>) -> Seq<char> {
    match object_id {
        Some(id) => " = '"@ + id + "'"@,
        None => " is not null"@,
    }
}

/// A query template with its placeholders filled in.
pub open spec fn with_condition(
    template: Seq<char>,
    database: Seq<char>,
    object_id: Option<Seq<char>>,
) -> Seq<char> {
    crate::text::replace(
        crate::text::replace(template, "#DATABASE#"@, database),
        "=OBJECT_ID_CONDITION"@,
        condition_of(object_id),
    )
}

/// Fills in the database and the condition on the id of an object.
pub fn substitute_condition(template: &str, database: &str, object_id: Option<&str>) -> (r: String)
    ensures
        r@ == with_condition(template@, database@, crate::value::opt_str(object_id)),
{
    proof {
        reveal_strlit("#DATABASE#");
        reveal_strlit("=OBJECT_ID_CONDITION");
    }
    let object_cond = match object_id {
        Some(id) => concat3(" = '", id, "'"),
        None => " is not null".to_owned(),
    };
    let named = replaced(template, "#DATABASE#", database);
    replaced(named.as_str(), "=OBJECT_ID_CONDITION", object_cond.as_str())
}

/// The queries of a full analysis: tables, columns, views, and the views without
/// their definitions.
pub open spec fn full_queries(database: Seq<char>) -> Seq<Seq<char>> {
    seq![
        with_condition(SQL_TABLES@, database, None),
        with_condition(SQL_COLUMNS@, database, None),
        with_condition(SQL_VIEWS@, database, None),
        with_condition(SQL_VIEW_TEXTS@, database, None),
    ]
}

/// The queries of a full analysis. The last one is run only where
/// [`needs_view_texts`] says so.
pub fn full_analysis_queries(database: &str) -> (r: Vec<String>)
    ensures
        r.deep_view() == full_queries(database@),
{
    let mut out: Vec<String> = Vec::new();
    out.push(substitute_condition(SQL_TABLES, database, None));
    out.push(substitute_condition(SQL_COLUMNS, database, None));
    out.push(substitute_condition(SQL_VIEWS, database, None));
    out.push(substitute_condition(SQL_VIEW_TEXTS, database, None));
    assert(out.deep_view() =~= full_queries(database@));
    out
}

/// Whether the views are to be asked for without their definitions: where the
/// query with the definitions failed or gave nothing.
pub fn needs_view_texts(views: Option<&Vec<Value>>) -> (r: bool)
    ensures
        r == match views {
            Some(rows) => rows@.len() == 0,
            None => true,
        },
{
    match views {
        Some(rows) => rows.len() == 0,
        None => true,
    }
}

/// The query for the id of a table.
pub fn table_id_query(database: &str, pure_name: &str) -> (r: String)
    ensures
        r@ == "SELECT uuid as id FROM system.tables WHERE database = '"@ + database@
            + "' AND name='"@ + crate::text::doubled(pure_name@, '\'') + "'"@,
{
    concat5(
        "SELECT uuid as id FROM system.tables WHERE database = '",
        database,
        "' AND name='",
        doubling(pure_name, '\'').as_str(),
        "'",
    )
}

/// The id that the rows of the id query give, empty where they give none.
pub open spec fn id_of(rows: Seq<Json>) -> Seq<char> {
    if rows.len() > 0 {
        or_empty(rows[0].text("id"@))
    } else {
        Seq::empty()
    }
}

/// The queries of the analysis of one table: tables, columns.
pub fn table_analysis_queries(database: &str, id_rows: &Vec<Value>) -> (r: (String, String))
    ensures
        r.0@ == with_condition(SQL_TABLES@, database@, Some(id_of(id_rows.deep_view()))),
        r.1@ == with_condition(SQL_COLUMNS@, database@, Some(id_of(id_rows.deep_view()))),
{
    let id = if id_rows.len() > 0 {
        assert(id_rows.deep_view()[0] == id_rows@[0]@);
        get_text(&id_rows[0], "id")
    } else {
        String::new()
    };
    (
        substitute_condition(SQL_TABLES, database, Some(id.as_str())),
        substitute_condition(SQL_COLUMNS, database, Some(id.as_str())),
    )
}

// ---------------------------------------------------------------------------
// Columns and keys
// ---------------------------------------------------------------------------

/// Whether a type admits null values.
pub open spec fn is_nullable(data_type: Seq<char>) -> bool {
    crate::text::has_prefix(data_type, "Nullable("@) && data_type.len() > 9
        && data_type.last() == ')'
}

/// The type without the mark of nullable types.
pub open spec fn bare_type(data_type: Seq<char>) -> Seq<char> {
    if is_nullable(data_type) {
        data_type.subrange(9, data_type.len() - 1)
    } else {
        data_type
    }
}

/// The type without the mark of nullable types, and whether null is ruled out.
pub fn extract_data_type(data_type: &str) -> (r: (String, bool))
    ensures
        r.0@ == bare_type(data_type@),
        r.1 == !is_nullable(data_type@),
{
    proof {
        reveal_strlit("Nullable(");
    }
    let chars = chars_of(data_type);
    if starts_with(data_type, "Nullable(") && chars.len() > 9 && chars[chars.len() - 1] == ')' {
        (slice_string(&chars, 9, chars.len() - 1), false)
    } else {
        (data_type.to_owned(), true)
    }
}

/// A nullable type is its bare type between `Nullable(` and `)`.
pub proof fn law_nullable(inner: Seq<char>)
    ensures
        is_nullable("Nullable("@ + inner + ")"@),
        bare_type("Nullable("@ + inner + ")"@) == inner,
{
    reveal_strlit("Nullable(");
    reveal_strlit(")");
    let whole = "Nullable("@ + inner + ")"@;
    assert(whole.subrange(0, 9) =~= "Nullable("@);
    assert(whole.subrange(9, whole.len() - 1) =~= inner);
}

/// The text without the space around it, unless it is blank.
pub open spec fn entry_of(s: Seq<char>) -> Option<Seq<char>> {
    if crate::text::trim(s).len() == 0 {
        None
    } else {
        Some(crate::text::trim(s))
    }
}

/// The entries among some texts.
pub open spec fn entries_among(parts: Seq<Seq<char>>) -> Seq<Seq<char>> {
    crate::rows::pick(parts, |s: Seq<char>| entry_of(s))
}

/// The entries of a list that is separated by commas.
pub open spec fn list_entries(raw: Seq<char>) -> Seq<Seq<char>> {
    entries_among(crate::text::split(raw, ','))
}

/// Splits a list at its commas, without blank entries.
pub fn parse_comma_separated(raw: &str) -> (r: Vec<String>)
    ensures
        r.deep_view() == list_entries(raw@),
{
    let parts = split_on(raw, ',');
    let ghost all = crate::text::split(raw@, ',');
    assert(parts.deep_view() =~= all);
    let mut out: Vec<String> = new_list();
    let mut i: usize = 0;
    while i < parts.len()
        invariant
            i <= parts@.len(),
            all == parts.deep_view(),
            out.deep_view() == entries_among(all.take(i as int)),
        decreases parts@.len() - i,
    {
        proof {
            crate::rows::lemma_take_next(all, i as int);
        }
        let entry = trimmed(parts[i].as_str());
        if !entry.as_str().is_empty() {
            push_item(&mut out, entry);
        }
        i = i + 1;
    }
    proof {
        crate::rows::lemma_take_all(all);
    }
    out
}

/// The references to the columns of a list.
pub open spec fn list_refs(raw: Seq<char>) -> Seq<ColumnReferenceView> {
    let names = list_entries(raw);
    Seq::new(names.len(), |i: int| crate::drivers::common::plain_ref(names[i]))
}

/// The constraint over the columns of a list, unless the list is blank.
pub open spec fn key_of(raw: Seq<char>, kind: ConstraintType) -> Option<ColumnsConstraintInfoView> {
    if list_entries(raw).len() == 0 {
        None
    } else {
        Some(crate::drivers::common::over_columns(kind, None, list_refs(raw)))
    }
}

fn build_key(raw: &str, kind: ConstraintType) -> (r: Option<ColumnsConstraintInfo>)
    ensures
        r.deep_view() == key_of(raw@, kind),
{
    let names = parse_comma_separated(raw);
    assert(names.deep_view().len() == names@.len());
    if names.len() == 0 {
        return None;
    }
    let f = |n: &String| -> (c: ColumnReference)
        ensures
            c.deep_view() == crate::drivers::common::plain_ref(n@),
    {
        plain_reference(n.clone())
    };
    let columns = map_list(&names, f);
    assert(columns.deep_view() =~= list_refs(raw@));
    Some(constraint_over(kind, None, columns))
}

/// The primary key over the columns of a list.
pub open spec fn primary_key_of(raw: Seq<char>) -> Option<PrimaryKeyInfoView> {
    match key_of(raw, ConstraintType::PrimaryKey) {
        Some(columns_constraint) => Some(PrimaryKeyInfoView { columns_constraint }),
        None => None,
    }
}

pub fn build_primary_key_from_comma(raw: &str) -> (r: Option<PrimaryKeyInfo>)
    ensures
        r.deep_view() == primary_key_of(raw@),
{
    match build_key(raw, ConstraintType::PrimaryKey) {
        Some(columns_constraint) => Some(PrimaryKeyInfo { columns_constraint }),
        None => None,
    }
}

pub fn build_sorting_key_from_comma(raw: &str) -> (r: Option<ColumnsConstraintInfo>)
    ensures
        r.deep_view() == key_of(raw@, ConstraintType::SortingKey),
{
    build_key(raw, ConstraintType::SortingKey)
}

/// The column that a row describes.
pub open spec fn column_of(row: Json, name_field: Seq<char>) -> ColumnInfoView {
    let raw = or_empty(row.text("dataType"@));
    ColumnInfoView {
        column_name: or_empty(row.text(name_field)),
        data_type: raw,
        not_null: Some(!is_nullable(raw)),
        displayed_data_type: Some(bare_type(raw)),
        default_value: row.text("defaultValue"@),
        column_comment: row.text("columnComment"@),
        ..crate::dbinfo::blank_column()
    }
}

pub fn get_column_info_from_ch(row: &Value, column_name_field: &str) -> (r: ColumnInfo)
    ensures
        r.deep_view() == column_of(row@, column_name_field@),
{
    let raw_type = get_text(row, "dataType");
    let (displayed, not_null) = extract_data_type(raw_type.as_str());
    let mut info = ColumnInfo::default();
    info.column_name = get_text(row, column_name_field);
    info.data_type = raw_type;
    info.not_null = Some(not_null);
    info.displayed_data_type = Some(displayed);
    info.default_value = get_str(row, "defaultValue");
    info.column_comment = get_str(row, "columnComment");
    info
}

// ---------------------------------------------------------------------------
// Analysis
// ---------------------------------------------------------------------------

/// The columns that some rows describe.
pub open spec fn all_columns(rows: Seq<Json>) -> Seq<ColumnInfoView> {
    Seq::new(rows.len(), |i: int| column_of(rows[i], "columnName"@))
}

/// The columns of the object with the given name.
pub open spec fn columns_of(rows: Seq<Json>, name: Seq<char>) -> Seq<ColumnInfoView> {
    all_columns(crate::rows::group_of(rows, "pureName"@, name))
}

/// Whether a name occurs among the first `i`.
pub open spec fn named_before(names: Seq<Seq<char>>, i: int) -> bool {
    exists|j: int| 0 <= j < i && #[trigger] names[j] == names[i]
}

/// The columns of the `i`-th of some objects: where several have one name, the
/// first takes the columns.
pub open spec fn columns_taken(rows: Seq<Json>, names: Seq<Seq<char>>, i: int) -> Seq<
    ColumnInfoView,
> {
    if named_before(names, i) {
        Seq::empty()
    } else {
        columns_of(rows, names[i])
    }
}

fn collect_columns(rows: &Vec<Value>, name: &str) -> (r: Vec<ColumnInfo>)
    ensures
        r.deep_view() == columns_of(rows.deep_view(), name@),
{
    let ghost all = rows.deep_view();
    let mut out: Vec<ColumnInfo> = new_list();
    let mut i: usize = 0;
    assert(columns_of(all.take(0), name@) =~= Seq::empty());
    while i < rows.len()
        invariant
            i <= rows@.len(),
            all == rows.deep_view(),
            out.deep_view() == columns_of(all.take(i as int), name@),
        decreases rows@.len() - i,
    {
        let ghost before = crate::rows::group_of(all.take(i as int), "pureName"@, name@);
        proof {
            crate::rows::lemma_take_next(all, i as int);
        }
        if same(get_text(&rows[i], "pureName").as_str(), name) {
            push_item(&mut out, get_column_info_from_ch(&rows[i], "columnName"));
            assert(all_columns(before.push(all[i as int])) =~= all_columns(before).push(
                column_of(all[i as int], "columnName"@),
            ));
        }
        i = i + 1;
    }
    proof {
        crate::rows::lemma_take_all(all);
    }
    out
}

/// The object with the given name.
pub open spec fn table_object(row: Json, pure: Seq<char>) -> DatabaseObjectInfoView {
    DatabaseObjectInfoView {
        object_comment: row.text("objectComment"@),
        ..crate::drivers::common::object_with(pure, None, None, row.text("contentHash"@))
    }
}

/// The table that a row of the table query describes, with the given name and
/// columns.
pub open spec fn table_of(row: Json, pure: Seq<char>, columns: Seq<ColumnInfoView>) ->
    TableInfoView {
    TableInfoView {
        object: table_object(row, pure),
        columns,
        primary_key: match row.text("primaryKeyColumns"@) {
            Some(raw) => primary_key_of(raw),
            None => None,
        },
        sorting_key: match row.text("sortingKeyColumns"@) {
            Some(raw) => key_of(raw, ConstraintType::SortingKey),
            None => None,
        },
        foreign_keys: None,
        dependencies: None,
        indexes: None,
        uniques: None,
        checks: None,
        table_row_count: row.int64("tableRowCount"@),
        table_engine: row.text("tableEngine"@),
    }
}

fn build_table(row: &Value, pure: &str, columns: Vec<ColumnInfo>) -> (r: TableInfo)
    ensures
        r.deep_view() == table_of(row@, pure@, columns.deep_view()),
{
    let primary_key = match row.text("primaryKeyColumns") {
        Some(raw) => build_primary_key_from_comma(raw),
        None => None,
    };
    let sorting_key = match row.text("sortingKeyColumns") {
        Some(raw) => build_sorting_key_from_comma(raw),
        None => None,
    };
    let mut object = object_info(pure.to_owned(), None, None, get_str(row, "contentHash"));
    object.object_comment = get_str(row, "objectComment");
    TableInfo {
        object,
        columns,
        primary_key,
        sorting_key,
        foreign_keys: None,
        dependencies: None,
        indexes: None,
        uniques: None,
        checks: None,
        table_row_count: get_i64(row, "tableRowCount"),
        table_engine: get_str(row, "tableEngine"),
    }
}

/// The statement that creates a view.
pub open spec fn view_sql(pure: Seq<char>, definition: Seq<char>) -> Seq<char> {
    "CREATE VIEW \""@ + pure + "\"\nAS\n"@ + definition
}

pub fn build_create_view_sql(pure_name: &str, view_def: &str) -> (r: String)
    ensures
        r@ == view_sql(pure_name@, view_def@),
{
    concat4("CREATE VIEW \"", pure_name, "\"\nAS\n", view_def)
}

/// The view that a row of a view query describes, with the given columns.
pub open spec fn view_of(row: Json, columns: Seq<ColumnInfoView>) -> ViewInfoView {
    let pure = or_empty(row.text("pureName"@));
    let definition = or_empty(row.text("viewDefinition"@));
    ViewInfoView {
        object: crate::drivers::common::sql_object_with(
            crate::drivers::common::object_with(pure, None, None, None),
            if definition.len() == 0 {
                None
            } else {
                Some(view_sql(pure, definition))
            },
        ),
        columns,
    }
}

fn build_view(row: &Value, columns: Vec<ColumnInfo>) -> (r: ViewInfo)
    ensures
        r.deep_view() == view_of(row@, columns.deep_view()),
{
    let pure = get_text(row, "pureName");
    let definition = get_text(row, "viewDefinition");
    let create_sql = if definition.as_str().is_empty() {
        None
    } else {
        Some(build_create_view_sql(pure.as_str(), definition.as_str()))
    };
    ViewInfo { object: sql_object(object_info(pure, None, None, None), create_sql), columns }
}

/// The structure of a database. Tables come before views where they compete for
/// columns.
pub open spec fn database_of(tables: Seq<Json>, columns: Seq<Json>, views: Seq<Json>) ->
    DatabaseInfoView {
    let names = crate::rows::keys_of(tables, "pureName"@) + crate::rows::keys_of(
        views,
        "pureName"@,
    );
    DatabaseInfoView {
        tables: Seq::new(
            tables.len(),
            |i: int| table_of(tables[i], names[i], columns_taken(columns, names, i)),
        ),
        views: Seq::new(
            views.len(),
            |i: int| view_of(views[i], columns_taken(columns, names, tables.len() + i)),
        ),
        ..crate::dbinfo::empty_database()
    }
}

/// The columns of the next object, which has the given name, after those whose
/// names are in `taken`.
fn take_columns(rows: &Vec<Value>, taken: &mut Vec<String>, name: &str) -> (r: Vec<ColumnInfo>)
    ensures
        final(taken).deep_view() == old(taken).deep_view().push(name@),
        r.deep_view() == columns_taken(
            rows.deep_view(),
            final(taken).deep_view(),
            old(taken).deep_view().len() as int,
        ),
{
    let ghost before = taken.deep_view();
    let again = list_has(taken, name);
    push_item(taken, name.to_owned());
    let ghost names = taken.deep_view();
    let ghost n = before.len() as int;
    assert(names[n] == name@);
    if again {
        assert(named_before(names, n)) by {
            let j = choose|j: int| 0 <= j < before.len() && before[j] == name@;
            assert(names[j] == before[j]);
        }
        new_list()
    } else {
        assert(!named_before(names, n)) by {
            if named_before(names, n) {
                let j = choose|j: int| 0 <= j < n && #[trigger] names[j] == names[n];
                assert(before[j] == name@);
            }
        }
        collect_columns(rows, name)
    }
}

proof fn lemma_taken_so_far(rows: Seq<Json>, some: Seq<Seq<char>>, names: Seq<Seq<char>>, i: int)
    requires
        0 <= i < some.len() <= names.len(),
        some == names.take(some.len() as int),
    ensures
        columns_taken(rows, some, i) == columns_taken(rows, names, i),
{
    assert(forall|j: int| 0 <= j <= i ==> some[j] == names[j]);
    if named_before(some, i) {
        let j = choose|j: int| 0 <= j < i && #[trigger] some[j] == some[i];
        assert(names[j] == names[i]);
        assert(named_before(names, i));
    }
    if named_before(names, i) {
        let j = choose|j: int| 0 <= j < i && #[trigger] names[j] == names[i];
        assert(some[j] == some[i]);
        assert(named_before(some, i));
    }
}

/// The full structure of a database, from the rows of the analysis queries.
pub fn analyse_clickhouse_full(
    tables: &Vec<Value>,
    columns: &Vec<Value>,
    views: &Vec<Value>,
) -> (r: DatabaseInfo)
    ensures
        r.deep_view() == database_of(tables.deep_view(), columns.deep_view(), views.deep_view()),
{
    let ghost names = crate::rows::keys_of(tables.deep_view(), "pureName"@) + crate::rows::keys_of(
        views.deep_view(),
        "pureName"@,
    );
    let ghost goal = database_of(tables.deep_view(), columns.deep_view(), views.deep_view());
    let ghost n = tables@.len() as int;
    let mut taken: Vec<String> = new_list();
    let mut result_tables: Vec<TableInfo> = new_list();
    let mut i: usize = 0;
    assert(taken.deep_view() =~= names.take(0));
    assert(result_tables.deep_view() =~= goal.tables.take(0));
    while i < tables.len()
        invariant
            i <= tables@.len(),
            n == tables@.len(),
            names == crate::rows::keys_of(tables.deep_view(), "pureName"@)
                + crate::rows::keys_of(views.deep_view(), "pureName"@),
            goal == database_of(tables.deep_view(), columns.deep_view(), views.deep_view()),
            taken.deep_view() == names.take(i as int),
            result_tables.deep_view() == goal.tables.take(i as int),
        decreases tables@.len() - i,
    {
        let row = &tables[i];
        assert(tables.deep_view()[i as int] == row@);
        let pure = get_text(row, "pureName");
        assert(names[i as int] == pure@);
        let own = take_columns(columns, &mut taken, pure.as_str());
        proof {
            assert(taken.deep_view() =~= names.take(i + 1));
            lemma_taken_so_far(columns.deep_view(), taken.deep_view(), names, i as int);
        }
        push_item(&mut result_tables, build_table(row, pure.as_str(), own));
        assert(result_tables.deep_view() =~= goal.tables.take(i + 1));
        i = i + 1;
    }
    let mut result_views: Vec<ViewInfo> = new_list();
    let mut k: usize = 0;
    assert(result_views.deep_view() =~= goal.views.take(0));
    while k < views.len()
        invariant
            k <= views@.len(),
            n == tables@.len(),
            names == crate::rows::keys_of(tables.deep_view(), "pureName"@)
                + crate::rows::keys_of(views.deep_view(), "pureName"@),
            goal == database_of(tables.deep_view(), columns.deep_view(), views.deep_view()),
            taken.deep_view() == names.take(n + k),
            result_views.deep_view() == goal.views.take(k as int),
        decreases views@.len() - k,
    {
        let row = &views[k];
        assert(views.deep_view()[k as int] == row@);
        let pure = get_text(row, "pureName");
        assert(names[n + k] == pure@);
        let own = take_columns(columns, &mut taken, pure.as_str());
        proof {
            assert(taken.deep_view() =~= names.take(n + k + 1));
            lemma_taken_so_far(columns.deep_view(), taken.deep_view(), names, n + k);
        }
        push_item(&mut result_views, build_view(row, own));
        assert(result_views.deep_view() =~= goal.views.take(k + 1));
        k = k + 1;
    }
    assert(result_tables.deep_view() =~= goal.tables);
    assert(result_views.deep_view() =~= goal.views);
    let mut info = DatabaseInfo::default();
    info.tables = result_tables;
    info.views = result_views;
    info
}

/// The structure of one table, from the rows of the two table queries.
pub fn analyse_clickhouse_table(
    name: &NamedObjectInfo,
    tables: &Vec<Value>,
    columns: &Vec<Value>,
) -> (r: DbgmResult<TableInfo>)
    ensures
        match r {
            Ok(t) => tables@.len() > 0 && t.deep_view() == table_of(
                tables.deep_view()[0],
                name.pure_name@,
                all_columns(columns.deep_view()),
            ),
            Err(e) => tables@.len() == 0 && e.deep_view() == crate::error::generic_error(
                "Table '"@ + name.pure_name@ + "' not found"@,
            ),
        },
{
    if tables.len() == 0 {
        return Err(
            DbgmError::new(concat3("Table '", name.pure_name.as_str(), "' not found")),
        );
    }
    assert(tables.deep_view()[0] == tables@[0]@);
    let f = |row: &Value| -> (c: ColumnInfo)
        ensures
            c.deep_view() == column_of(row@, "columnName"@),
    {
        get_column_info_from_ch(row, "columnName")
    };
    let own = map_list(columns, f);
    assert(own.deep_view() =~= all_columns(columns.deep_view()));
    Ok(build_table(&tables[0], name.pure_name.as_str(), own))
}

// ---------------------------------------------------------------------------
// Laws
// ---------------------------------------------------------------------------

/// The client is told the server, the port and the database of the definition; the port 8123 and
/// the database `default` only where it has none.
pub proof fn law_config(def: ConnectionDefinition, c: ClickHouseConfig)
    requires
        def.server is Some,
        c.deep_view() == config_of(def.deep_view(), def.server->0@),
    ensures
        c.host@ == def.server->0@,
        def.port matches Some(p) ==> p < 65536 ==> c.port == p,
        def.port is None ==> c.port == 8123,
        def.database matches Some(d) ==> c.database@ == d@,
        def.database is None ==> c.database@ == "default"@,
{
    let v = c.deep_view();
    assert(v.host == c.host@ && v.port == c.port && v.database == c.database@);
    assert(def.deep_view().port == def.port);
    if let Some(d) = def.database {
        assert(def.deep_view().database == Some(d@));
    }
}

/// The columns of a result are the keys of its first row, in their order.
pub proof fn law_result_columns(o: Seq<(Seq<char>, Json)>, rest: Seq<Json>, i: int)
    requires
        0 <= i < o.len(),
    ensures
        columns_of_rows(seq![Json::Object(o)] + rest).len() == o.len(),
        columns_of_rows(seq![Json::Object(o)] + rest)[i].column_name == o[i].0,
        columns_of_rows(Seq::empty()).len() == 0,
{
    assert((seq![Json::Object(o)] + rest)[0] == Json::Object(o));
}

/// A column says what its row says: it takes null exactly where its type is nullable, and shows
/// the type without that mark.
pub proof fn law_column(row: Json, field: Seq<char>, name: Seq<char>, inner: Seq<char>)
    requires
        row.text(field) == Some(name),
    ensures
        column_of(row, field).column_name == name,
        column_of(row, field).default_value == row.text("defaultValue"@),
        column_of(row, field).column_comment == row.text("columnComment"@),
        row.text("dataType"@) == Some("Nullable("@ + inner + ")"@) ==> {
            &&& column_of(row, field).not_null == Some(false)
            &&& column_of(row, field).displayed_data_type == Some(inner)
            &&& column_of(row, field).data_type == "Nullable("@ + inner + ")"@
        },
        row.text("dataType"@) == Some(inner) && !crate::text::has_prefix(inner, "Nullable("@) ==> {
            &&& column_of(row, field).not_null == Some(true)
            &&& column_of(row, field).displayed_data_type == Some(inner)
            &&& column_of(row, field).data_type == inner
        },
{
    law_nullable(inner);
}

/// The columns of an object are those of the rows under its name, in their order.
pub proof fn law_columns(rows: Seq<Json>, r: Json, name: Seq<char>)
    requires
        name.len() > 0,
    ensures
        columns_of(Seq::empty(), name).len() == 0,
        r.text("pureName"@) == Some(name) ==> columns_of(rows.push(r), name) == columns_of(
            rows,
            name,
        ).push(column_of(r, "columnName"@)),
        r.text("pureName"@) != Some(name) ==> columns_of(rows.push(r), name) == columns_of(
            rows,
            name,
        ),
{
    crate::rows::law_group_push(rows, r, "pureName"@, name);
    if r.text("pureName"@) == Some(name) {
        assert(columns_of(rows.push(r), name) =~= columns_of(rows, name).push(
            column_of(r, "columnName"@),
        ));
    }
}

/// A list at commas has an entry for each part that is not blank, without the whitespace around it.
pub proof fn law_list_entries(a: Seq<char>, b: Seq<char>)
    requires
        !b.contains(','),
    ensures
        list_entries(a + seq![','] + b) == list_entries(a) + list_entries(b),
        list_entries(b) == if crate::text::trim(b).len() > 0 {
            seq![crate::text::trim(b)]
        } else {
            Seq::empty()
        },
{
    let none = Seq::<char>::empty();
    crate::text::law_split_push(a, ',', ',');
    crate::text::law_split_append(a.push(','), b, ',');
    crate::text::law_split_append(none, b, ',');
    let parts = crate::text::split(a, ',');
    assert(crate::text::split(none, ',') =~= seq![none]);
    assert(none + b =~= b);
    assert(crate::text::split(b, ',') =~= seq![b]);
    assert(a.push(',') + b =~= a + seq![','] + b);
    assert(crate::text::split(a.push(','), ',') == parts.push(none));
    assert(parts.push(none).drop_last().push(none + b) =~= parts.push(b));
    crate::rows::law_pick_push(parts, |s: Seq<char>| entry_of(s), b);
    let no_parts = Seq::<Seq<char>>::empty();
    crate::rows::law_pick_push(no_parts, |s: Seq<char>| entry_of(s), b);
    assert(no_parts.push(b) =~= seq![b]);
    assert(list_entries(a + seq![','] + b) =~= list_entries(a) + list_entries(b));
}

/// A key has the columns that its list names, in their order; an empty list makes no key.
pub proof fn law_key(raw: Seq<char>, kind: ConstraintType, i: int)
    ensures
        key_of(raw, kind) is None <==> list_entries(raw).len() == 0,
        key_of(raw, kind) matches Some(k) ==> {
            &&& k.constraint.constraint_type == kind
            &&& k.columns.len() == list_entries(raw).len()
            &&& 0 <= i < k.columns.len() ==> k.columns[i].column_name == list_entries(raw)[i]
        },
        primary_key_of(raw) is None <==> list_entries(raw).len() == 0,
        primary_key_of(raw) matches Some(p)
            ==> p.columns_constraint.constraint.constraint_type == ConstraintType::PrimaryKey
            && p.columns_constraint.columns.len() == list_entries(raw).len() && (0 <= i
            < list_entries(raw).len() ==> p.columns_constraint.columns[i].column_name
            == list_entries(raw)[i]),
{
}

/// A table has the keys, the engine, the comment and the row count of its row.
pub proof fn law_table(row: Json, pure: Seq<char>, columns: Seq<ColumnInfoView>)
    ensures
        ({
            let t = table_of(row, pure, columns);
            &&& t.object.pure_name == pure
            &&& t.object.object_comment == row.text("objectComment"@)
            &&& t.object.hash_code == row.text("contentHash"@)
            &&& t.columns == columns
            &&& t.table_engine == row.text("tableEngine"@)
            &&& t.table_row_count == row.int64("tableRowCount"@)
            &&& row.text("primaryKeyColumns"@) matches Some(raw) ==> t.primary_key
                == primary_key_of(raw)
            &&& row.text("primaryKeyColumns"@) is None ==> t.primary_key is None
            &&& row.text("sortingKeyColumns"@) matches Some(raw) ==> t.sorting_key == key_of(
                raw,
                ConstraintType::SortingKey,
            )
            &&& row.text("sortingKeyColumns"@) is None ==> t.sorting_key is None
        }),
{
}

/// The structure of a database has one table for each table row and one view for each view row,
/// with the columns under its name; a view shows the statement that made it.
pub proof fn law_database(
    tables: Seq<Json>,
    columns: Seq<Json>,
    views: Seq<Json>,
    i: int,
    name: Seq<char>,
)
    ensures
        database_of(tables, columns, views).tables.len() == tables.len(),
        database_of(tables, columns, views).views.len() == views.len(),
        0 <= i < tables.len() && tables[i].text("pureName"@) == Some(name) && (forall|j: int|
            0 <= j < i ==> (#[trigger] tables[j]).text("pureName"@) is Some && tables[j].text(
                "pureName"@,
            ) != Some(name)) ==> database_of(tables, columns, views).tables[i] == table_of(
            tables[i],
            name,
            columns_of(columns, name),
        ),
        0 <= i < views.len() && views[i].text("pureName"@) == Some(name) ==> {
            let v = database_of(tables, columns, views).views[i];
            &&& v.object.object.pure_name == name
            &&& views[i].text("viewDefinition"@) matches Some(d) ==> d.len() > 0
                ==> v.object.create_sql == Some("CREATE VIEW \""@ + name + "\"\nAS\n"@ + d)
        },
        0 <= i < views.len() && views[i].text("pureName"@) == Some(name) && (forall|j: int|
            0 <= j < tables.len() ==> (#[trigger] tables[j]).text("pureName"@) is Some
                && tables[j].text("pureName"@) != Some(name)) && (forall|j: int|
            0 <= j < i ==> (#[trigger] views[j]).text("pureName"@) is Some && views[j].text(
                "pureName"@,
            ) != Some(name)) ==> database_of(tables, columns, views).views[i].columns == columns_of(
            columns,
            name,
        ),
{
    let a = crate::rows::keys_of(tables, "pureName"@);
    let b = crate::rows::keys_of(views, "pureName"@);
    let names = a + b;
    if 0 <= i < tables.len() && tables[i].text("pureName"@) == Some(name) && (forall|j: int|
        0 <= j < i ==> (#[trigger] tables[j]).text("pureName"@) is Some && tables[j].text(
            "pureName"@,
        ) != Some(name)) {
        assert(names[i] == name);
        assert(!named_before(names, i)) by {
            assert forall|j: int| 0 <= j < i implies #[trigger] names[j] != names[i] by {
                assert(names[j] == or_empty(tables[j].text("pureName"@)));
            }
        }
    }
    if 0 <= i < views.len() && views[i].text("pureName"@) == Some(name) && (forall|j: int|
        0 <= j < tables.len() ==> (#[trigger] tables[j]).text("pureName"@) is Some && tables[j].text(
            "pureName"@,
        ) != Some(name)) && (forall|j: int|
        0 <= j < i ==> (#[trigger] views[j]).text("pureName"@) is Some && views[j].text(
            "pureName"@,
        ) != Some(name)) {
        let k = tables.len() + i;
        assert(names[k] == name);
        assert(!named_before(names, k)) by {
            assert forall|j: int| 0 <= j < k implies #[trigger] names[j] != names[k] by {
                if j < tables.len() {
                    assert(names[j] == or_empty(tables[j].text("pureName"@)));
                } else {
                    assert(names[j] == or_empty(views[j - tables.len()].text("pureName"@)));
                }
            }
        }
    }
}

/// The version of the server, from the first row.
pub proof fn law_version(r: Json, rest: Seq<Json>, version: Seq<char>)
    requires
        r.text("version"@) == Some(version),
    ensures
        version_of(seq![r] + rest).version == version,
        version_of(seq![r] + rest).version_text == Some("ClickHouse "@ + version),
        version_of(Seq::empty()).version == "unknown"@,
{
    assert((seq![r] + rest)[0] == r);
}

/// A query names the database and the object that are asked for.
pub proof fn law_condition(a: Seq<char>, b: Seq<char>, c: Seq<char>, db: Seq<char>, id: Seq<char>)
    requires
        !crate::text::holds(b + "=OBJECT_ID_CONDITION"@ + c, "#DATABASE#"@),
        forall|k: int|
            0 <= k < a.len() ==> #[trigger] (a + "#DATABASE#"@ + (b + "=OBJECT_ID_CONDITION"@
                + c)).subrange(k, k + "#DATABASE#"@.len()) != "#DATABASE#"@,
        forall|k: int|
            0 <= k < (a + db + b).len() ==> #[trigger] (a + db + b + "=OBJECT_ID_CONDITION"@
                + c).subrange(k, k + "=OBJECT_ID_CONDITION"@.len()) != "=OBJECT_ID_CONDITION"@,
        !crate::text::holds(c, "=OBJECT_ID_CONDITION"@),
    ensures
        with_condition(a + "#DATABASE#"@ + (b + "=OBJECT_ID_CONDITION"@ + c), db, Some(id)) == a
            + db + b + (" = '"@ + id + "'"@) + c,
        with_condition(a + "#DATABASE#"@ + (b + "=OBJECT_ID_CONDITION"@ + c), db, None) == a + db
            + b + " is not null"@ + c,
{
    reveal_strlit("#DATABASE#");
    reveal_strlit("=OBJECT_ID_CONDITION");
    let rest = b + "=OBJECT_ID_CONDITION"@ + c;
    crate::text::law_replace(a, "#DATABASE#"@, rest, db);
    crate::text::law_replace_absent(rest, "#DATABASE#"@, db);
    assert(a + db + rest =~= a + db + b + "=OBJECT_ID_CONDITION"@ + c);
    crate::text::law_replace(a + db + b, "=OBJECT_ID_CONDITION"@, c, " = '"@ + id + "'"@);
    crate::text::law_replace(a + db + b, "=OBJECT_ID_CONDITION"@, c, " is not null"@);
    crate::text::law_replace_absent(c, "=OBJECT_ID_CONDITION"@, " = '"@ + id + "'"@);
    crate::text::law_replace_absent(c, "=OBJECT_ID_CONDITION"@, " is not null"@);
}

/// The id of a table is that of the first row; the queries of a database ask for all objects.
pub proof fn law_queries(database: Seq<char>, r: Json, rest: Seq<Json>, id: Seq<char>)
    requires
        r.text("id"@) == Some(id),
    ensures
        id_of(seq![r] + rest) == id,
        full_queries(database).len() == 4,
        full_queries(database)[0] == with_condition(SQL_TABLES@, database, None),
        full_queries(database)[1] == with_condition(SQL_COLUMNS@, database, None),
        full_queries(database)[2] == with_condition(SQL_VIEWS@, database, None),
        full_queries(database)[3] == with_condition(SQL_VIEW_TEXTS@, database, None),
{
    assert((seq![r] + rest)[0] == r);
}

/// A port beyond sixteen bits counts by what remains of it in them.
pub proof fn law_wide_port(def: ConnectionDefinitionView, p: u32, k: int, host: Seq<char>)
    requires
        def.port == Some(p),
        0 <= p - k * 65536 < 65536,
    ensures
        config_of(def, host).port == p - k * 65536,
{
}

} // verus!
