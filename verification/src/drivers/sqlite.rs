//! SQLite engine driver.
use vstd::prelude::*;

use crate::connection::{ConnectionDefinition, ConnectionDefinitionView};
use crate::dbinfo::{
    ColumnInfo, ColumnInfoView, ColumnReference, ColumnReferenceView, ConstraintType, DatabaseInfo,
    DatabaseInfoView, DatabaseObjectInfo, DatabaseObjectInfoView, ForeignKeyInfo,
    ForeignKeyInfoView, PrimaryKeyInfo, PrimaryKeyInfoView, TableInfo, TableInfoView,
};
use crate::driver::{
    Capabilities, DatabaseEntry, ServerVersion, ServerVersionView, StreamEvent, StreamTally,
};
use crate::drivers::common::{constraint_over, list_of_one, plain_reference};
use crate::encoding::{binary_value, number_or_null, utf8_lossy_text};
use crate::error::{DbgmError, DbgmResult};
use crate::numbers::decimal;
use crate::query::{QueryResult, QueryResultColumn};
use crate::rows::{map_list, new_list, push_item};
use crate::text::{concat2, concat3, in_quotes};
use crate::value::{object_from, Json, Value};

verus! {

/// Dotted engine id for SQLite.
pub const SQLITE_ENGINE: &'static str = "sqlite@dbgate-plugin-sqlite";

/// The tables of a database, with the statements that created them.
pub const SQL_TABLES: &'static str =
    "SELECT name, sql FROM sqlite_master WHERE type='table' AND name NOT LIKE 'sqlite_%' ORDER BY name";

/// The query for the version of the library.
pub const SQL_VERSION: &'static str = "select sqlite_version()";

/// The SQLite driver.
pub struct SqliteDriver;

impl Default for SqliteDriver {
    fn default() -> (r: Self)
        ensures
            r == SqliteDriver,
    {
        SqliteDriver::new()
    }
}

impl SqliteDriver {
    pub fn new() -> (r: Self)
        ensures
            r == SqliteDriver,
    {
        SqliteDriver
    }

    pub fn engine(&self) -> (r: &'static str)
        ensures
            r@ == SQLITE_ENGINE@,
    {
        SQLITE_ENGINE
    }

    pub fn title(&self) -> (r: &'static str)
        ensures
            r@ == "SQLite"@,
    {
        "SQLite"
    }

    pub fn capabilities(&self) -> (r: Capabilities)
        ensures
            r == (Capabilities {
                read_only_sessions: false,
                supports_transactions: true,
                supports_native_backup: false,
                supports_native_restore: false,
                supports_server_summary: false,
                default_port: None,
            }),
    {
        Capabilities {
            read_only_sessions: false,
            supports_transactions: true,
            supports_native_backup: false,
            supports_native_restore: false,
            supports_server_summary: false,
            default_port: None,
        }
    }

    /// Bulk writes are not offered.
    pub fn write_table_unsupported(&self) -> (r: DbgmError)
        ensures
            r.deep_view() == crate::error::generic_error(
                "SQLite write_table streaming is not yet supported"@,
            ),
    {
        DbgmError::new("SQLite write_table streaming is not yet supported".to_owned())
    }
}

// ---------------------------------------------------------------------------
// Connecting
// ---------------------------------------------------------------------------

/// How a database file is opened.
pub struct SqliteConfig {
    pub db_file: String,
    pub read_only: bool,
}

/// What a [`SqliteConfig`] holds.
pub struct SqliteConfigView {
    pub db_file: Seq<char>,
    pub read_only: bool,
}

impl DeepView for SqliteConfig {
    type V = SqliteConfigView;

    open spec fn deep_view(&self) -> SqliteConfigView {
        SqliteConfigView { db_file: self.db_file@, read_only: self.read_only }
    }
}

/// The file of a definition: its database file, else the extra field
/// `databaseFile`.
pub open spec fn file_of(def: ConnectionDefinitionView) -> Option<Seq<char>> {
    match def.database_file {
        Some(f) => Some(f),
        None => match def.extra_field("databaseFile"@) {
            Some(v) => v.as_str(),
            None => None,
        },
    }
}

/// The file to open for a definition, and whether it is opened for reading only.
pub fn open_config(def: &ConnectionDefinition) -> (r: DbgmResult<SqliteConfig>)
    ensures
        match r {
            Ok(c) => file_of(def.deep_view()) is Some && c.deep_view() == (SqliteConfigView {
                db_file: file_of(def.deep_view())->0,
                read_only: def.is_read_only == Some(true),
            }),
            Err(e) => file_of(def.deep_view()) is None && e.deep_view()
                == crate::error::generic_error("SQLite connection requires a database_file"@),
        },
{
    let read_only = match def.is_read_only {
        Some(b) => b,
        None => false,
    };
    if let Some(f) = &def.database_file {
        return Ok(SqliteConfig { db_file: f.clone(), read_only });
    }
    if let Some(v) = def.extra_field("databaseFile") {
        if let Some(f) = v.as_str() {
            return Ok(SqliteConfig { db_file: f.to_owned(), read_only });
        }
    }
    Err(DbgmError::new("SQLite connection requires a database_file".to_owned()))
}

/// The error for a file that cannot be opened, with the cause.
pub fn open_error(db_file: &str, cause: String) -> (r: DbgmError)
    ensures
        r.deep_view() == (crate::error::DbgmErrorView {
            code: crate::error::DBGM_GENERIC@,
            message: "Cannot open SQLite database "@ + db_file@,
            source: Some(cause@),
        }),
{
    DbgmError::with_source(concat2("Cannot open SQLite database ", db_file), cause)
}

// ---------------------------------------------------------------------------
// Value mapping
// ---------------------------------------------------------------------------

/// A cell as the client hands it out: a real number as its bits, text as its
/// bytes.
pub enum SqliteCell {
    Null,
    Integer(i64),
    Real(u64),
    Text(Vec<u8>),
    Blob(Vec<u8>),
}

/// The JSON form of a cell.
pub open spec fn cell_json(cell: SqliteCell) -> Json {
    match cell {
        SqliteCell::Null => Json::Null,
        SqliteCell::Integer(n) => Json::Int(n as int),
        SqliteCell::Real(d) => crate::encoding::double_json(d),
        SqliteCell::Text(b) => Json::Str(crate::encoding::utf8_lossy(b@)),
        SqliteCell::Blob(b) => crate::encoding::binary_json(b@),
    }
}

/// Decodes a cell to a JSON value.
pub fn value_ref_to_json(cell: &SqliteCell) -> (r: Value)
    ensures
        r@ == cell_json(*cell),
{
    match cell {
        SqliteCell::Null => Value::Null,
        SqliteCell::Integer(n) => Value::Int(*n as i128),
        SqliteCell::Real(d) => number_or_null(*d),
        SqliteCell::Text(b) => Value::Str(utf8_lossy_text(b)),
        SqliteCell::Blob(b) => binary_value(b),
    }
}

/// The JSON object of a row.
pub open spec fn row_json(names: Seq<Seq<char>>, cells: Seq<SqliteCell>) -> Json {
    crate::value::row_object(names, Seq::new(cells.len(), |i: int| cell_json(cells[i])))
}

/// Converts a row to a JSON object keyed by column name.
pub fn row_to_value(names: &Vec<String>, cells: &Vec<SqliteCell>) -> (r: Value)
    requires
        names@.len() == cells@.len(),
    ensures
        r@ == row_json(names.deep_view(), cells@),
{
    let f = |c: &SqliteCell| -> (v: Value)
        ensures
            v@ == cell_json(*c),
    {
        value_ref_to_json(c)
    };
    let values = map_list(cells, f);
    assert(values.deep_view() =~= Seq::new(cells@.len(), |i: int| cell_json(cells@[i])));
    object_from(names, values)
}

/// The metadata of the result column at position `i`, which is called `col{i}`
/// where the client has no name for it.
pub fn result_column(name: Option<String>, i: u64) -> (r: QueryResultColumn)
    ensures
        r.deep_view() == crate::query::plain_column(
            match name.deep_view() {
                Some(n) => n,
                None => "col"@ + crate::numbers::dec(i as nat),
            },
            None,
        ),
{
    let column_name = match name {
        Some(n) => n,
        None => concat2("col", decimal(i).as_str()),
    };
    QueryResultColumn::plain(column_name, None)
}

// ---------------------------------------------------------------------------
// Streams
// ---------------------------------------------------------------------------

/// The statements of a script, each trimmed and none blank.
pub fn split_sql(sql: &str) -> (r: Vec<String>)
    ensures
        crate::text::texts(r@) == crate::query_splitter::statements(sql@),
{
    crate::query_splitter::split_sql(sql)
}

/// How many rows a statement adds to the count: those it changed, where it gives
/// no recordset.
pub open spec fn counted(columns: nat, changes: u64) -> u64 {
    if columns == 0 {
        changes
    } else {
        0
    }
}

/// The events of the next statement of a streamed script, which has changed
/// `changes` rows.
pub fn statement_events(tally: &mut StreamTally, result: QueryResult, changes: u64) -> (r: Vec<
    StreamEvent,
>)
    requires
        old(tally).rows_affected + counted(result.columns@.len(), changes) <= u64::MAX,
    ensures
        final(tally).rows_affected == old(tally).rows_affected + counted(
            result.columns@.len(),
            changes,
        ),
        r.deep_view() == crate::driver::recordset_events(
            result.columns.deep_view(),
            result.rows.deep_view(),
        ),
{
    let affected: u64 = if result.columns.len() == 0 {
        changes
    } else {
        0
    };
    tally.add_result(result.columns, result.rows, affected)
}

// ---------------------------------------------------------------------------
// Server metadata
// ---------------------------------------------------------------------------

/// The version, from the text that the library reports.
pub fn server_version(version: String) -> (r: ServerVersion)
    ensures
        r.deep_view() == (ServerVersionView {
            version: version@,
            version_text: Some("SQLite "@ + version@),
        }),
{
    let version_text = Some(concat2("SQLite ", version.as_str()));
    ServerVersion { version, version_text }
}

/// The one database of a file.
pub fn list_databases() -> (r: Vec<DatabaseEntry>)
    ensures
        r.deep_view() == seq![crate::driver::named_database("main"@)],
{
    list_of_one(DatabaseEntry { name: "main".to_owned(), size_on_disk: None, empty: None })
}

// ---------------------------------------------------------------------------
// Analysis
// ---------------------------------------------------------------------------

/// A name as an identifier: in double quotes, with each double quote inside
/// doubled.
pub fn quote_ident(name: &str) -> (r: String)
    ensures
        r@ == crate::text::quoted(name@, '"'),
{
    in_quotes(name, '"')
}

/// The query for the columns of a table.
pub fn table_info_query(name: &str) -> (r: String)
    ensures
        r@ == "PRAGMA table_info("@ + crate::text::quoted(name@, '"') + ")"@,
{
    concat3("PRAGMA table_info(", quote_ident(name).as_str(), ")")
}

/// The query for the foreign keys of a table.
pub fn foreign_key_query(name: &str) -> (r: String)
    ensures
        r@ == "PRAGMA foreign_key_list("@ + crate::text::quoted(name@, '"') + ")"@,
{
    concat3("PRAGMA foreign_key_list(", quote_ident(name).as_str(), ")")
}

/// A row about a column of a table.
pub struct ColumnRow {
    pub name: String,
    pub data_type: String,
    pub not_null: i64,
    pub default_value: Option<String>,
    pub pk: i64,
}

/// What a [`ColumnRow`] holds.
pub struct ColumnRowView {
    pub name: Seq<char>,
    pub data_type: Seq<char>,
    pub not_null: i64,
    pub default_value: Option<Seq<char>>,
    pub pk: i64,
}

impl DeepView for ColumnRow {
    type V = ColumnRowView;

    open spec fn deep_view(&self) -> ColumnRowView {
        ColumnRowView {
            name: self.name@,
            data_type: self.data_type@,
            not_null: self.not_null,
            default_value: self.default_value.deep_view(),
            pk: self.pk,
        }
    }
}

/// A row about a column of a foreign key; the first column of a key has the
/// number zero.
pub struct ForeignKeyRow {
    pub seq: i64,
    pub table: String,
    pub from_col: String,
    pub to_col: String,
    pub on_update: String,
    pub on_delete: String,
}

/// What a [`ForeignKeyRow`] holds.
pub struct ForeignKeyRowView {
    pub seq: i64,
    pub table: Seq<char>,
    pub from_col: Seq<char>,
    pub to_col: Seq<char>,
    pub on_update: Seq<char>,
    pub on_delete: Seq<char>,
}

impl DeepView for ForeignKeyRow {
    type V = ForeignKeyRowView;

    open spec fn deep_view(&self) -> ForeignKeyRowView {
        ForeignKeyRowView {
            seq: self.seq,
            table: self.table@,
            from_col: self.from_col@,
            to_col: self.to_col@,
            on_update: self.on_update@,
            on_delete: self.on_delete@,
        }
    }
}

/// The column that a row describes; one without a type is text.
pub open spec fn column_of(row: ColumnRowView) -> ColumnInfoView {
    ColumnInfoView {
        column_name: row.name,
        data_type: if row.data_type.len() == 0 {
            "TEXT"@
        } else {
            row.data_type
        },
        not_null: Some(row.not_null != 0),
        default_value: row.default_value,
        ..crate::dbinfo::blank_column()
    }
}

fn build_column(row: &ColumnRow) -> (r: ColumnInfo)
    ensures
        r.deep_view() == column_of(row.deep_view()),
{
    let mut info = ColumnInfo::default();
    info.column_name = row.name.clone();
    info.data_type = if row.data_type.as_str().is_empty() {
        "TEXT".to_owned()
    } else {
        row.data_type.clone()
    };
    info.not_null = Some(row.not_null != 0);
    info.default_value = match &row.default_value {
        Some(d) => Some(d.clone()),
        None => None,
    };
    info
}

/// The column of the primary key that a row describes, where it is part of it.
pub open spec fn key_part(row: ColumnRowView) -> Option<ColumnReferenceView> {
    if row.pk > 0 {
        Some(crate::drivers::common::plain_ref(row.name))
    } else {
        None
    }
}

/// The columns of the primary key.
pub open spec fn key_parts(rows: Seq<ColumnRowView>) -> Seq<ColumnReferenceView> {
    crate::rows::pick(rows, |r: ColumnRowView| key_part(r))
}

/// The primary key of a table, where any of its columns is part of one.
pub open spec fn primary_key(pure: Seq<char>, rows: Seq<ColumnRowView>) -> Option<
    PrimaryKeyInfoView,
> {
    let parts = key_parts(rows);
    if parts.len() == 0 {
        None
    } else {
        Some(
            PrimaryKeyInfoView {
                columns_constraint: crate::drivers::common::over_columns(
                    ConstraintType::PrimaryKey,
                    Some("PK_"@ + pure),
                    parts,
                ),
            },
        )
    }
}

fn build_primary_key(pure_name: &str, rows: &Vec<ColumnRow>) -> (r: Option<PrimaryKeyInfo>)
    ensures
        r.deep_view() == primary_key(pure_name@, rows.deep_view()),
{
    let ghost all = rows.deep_view();
    let mut parts: Vec<ColumnReference> = new_list();
    let mut i: usize = 0;
    while i < rows.len()
        invariant
            i <= rows@.len(),
            all == rows.deep_view(),
            parts.deep_view() == key_parts(all.take(i as int)),
        decreases rows@.len() - i,
    {
        proof {
            crate::rows::lemma_take_next(all, i as int);
        }
        if rows[i].pk > 0 {
            push_item(&mut parts, plain_reference(rows[i].name.clone()));
        }
        i = i + 1;
    }
    proof {
        crate::rows::lemma_take_all(all);
        assert(parts.deep_view().len() == parts@.len());
    }
    if parts.len() == 0 {
        None
    } else {
        Some(
            PrimaryKeyInfo {
                columns_constraint: constraint_over(
                    ConstraintType::PrimaryKey,
                    Some(concat2("PK_", pure_name)),
                    parts,
                ),
            },
        )
    }
}

/// One grouped foreign key: referenced table, its (from, to) column pairs, and
/// the update / delete actions.
pub struct FkGroup {
    pub ref_table: String,
    pub columns: Vec<(String, String)>,
    pub on_update: String,
    pub on_delete: String,
}

/// What a [`FkGroup`] holds.
pub struct FkGroupView {
    pub ref_table: Seq<char>,
    pub columns: Seq<(Seq<char>, Seq<char>)>,
    pub on_update: Seq<char>,
    pub on_delete: Seq<char>,
}

impl DeepView for FkGroup {
    type V = FkGroupView;

    open spec fn deep_view(&self) -> FkGroupView {
        FkGroupView {
            ref_table: self.ref_table@,
            columns: self.columns.deep_view(),
            on_update: self.on_update@,
            on_delete: self.on_delete@,
        }
    }
}

/// The foreign keys that rows make up: a row with the number zero begins a key,
/// any other adds its columns to the last key, if there is one.
pub open spec fn groups_of(rows: Seq<ForeignKeyRowView>) -> Seq<FkGroupView>
    decreases rows.len(),
{
    if rows.len() == 0 {
        Seq::empty()
    } else {
        let before = groups_of(rows.drop_last());
        let row = rows.last();
        if row.seq == 0 {
            before.push(
                FkGroupView {
                    ref_table: row.table,
                    columns: seq![(row.from_col, row.to_col)],
                    on_update: row.on_update,
                    on_delete: row.on_delete,
                },
            )
        } else if before.len() > 0 {
            let last = before.last();
            before.drop_last().push(
                FkGroupView {
                    columns: last.columns.push((row.from_col, row.to_col)),
                    ..last
                },
            )
        } else {
            before
        }
    }
}

/// Each foreign key has at least one column, and there are as many keys as rows
/// that begin one.
pub proof fn law_groups(rows: Seq<ForeignKeyRowView>)
    ensures
        forall|k: int|
            0 <= k < groups_of(rows).len() ==> (#[trigger] groups_of(rows)[k]).columns.len() > 0,
        groups_of(rows).len() == crate::rows::select(
            rows,
            |r: ForeignKeyRowView| r.seq == 0,
        ).len(),
    decreases rows.len(),
{
    if rows.len() > 0 {
        law_groups(rows.drop_last());
    }
}

/// The foreign keys that rows make up.
pub fn group_foreign_keys(rows: &Vec<ForeignKeyRow>) -> (r: Vec<FkGroup>)
    ensures
        r.deep_view() == groups_of(rows.deep_view()),
{
    let ghost all = rows.deep_view();
    let mut groups: Vec<FkGroup> = new_list();
    let mut i: usize = 0;
    while i < rows.len()
        invariant
            i <= rows@.len(),
            all == rows.deep_view(),
            groups.deep_view() == groups_of(all.take(i as int)),
        decreases rows@.len() - i,
    {
        proof {
            crate::rows::lemma_take_next(all, i as int);
            assert(groups.deep_view().len() == groups@.len());
        }
        let row = &rows[i];
        let ghost before = groups.deep_view();
        if row.seq == 0 {
            let columns = list_of_one((row.from_col.clone(), row.to_col.clone()));
            push_item(
                &mut groups,
                FkGroup {
                    ref_table: row.table.clone(),
                    columns,
                    on_update: row.on_update.clone(),
                    on_delete: row.on_delete.clone(),
                },
            );
        } else {
            match groups.pop() {
                Some(mut last) => {
                    assert(groups.deep_view() =~= before.drop_last());
                    assert(last.deep_view() == before.last());
                    push_item(&mut last.columns, (row.from_col.clone(), row.to_col.clone()));
                    push_item(&mut groups, last);
                },
                None => {},
            }
        }
        i = i + 1;
    }
    proof {
        crate::rows::lemma_take_all(all);
    }
    groups
}

/// The text, unless it is empty.
pub open spec fn non_empty(s: Seq<char>) -> Option<Seq<char>> {
    if s.len() == 0 {
        None
    } else {
        Some(s)
    }
}

fn if_non_empty(s: &String) -> (r: Option<String>)
    ensures
        r.deep_view() == non_empty(s@),
{
    if s.as_str().is_empty() {
        None
    } else {
        Some(s.clone())
    }
}

/// The foreign key that a group stands for.
pub open spec fn foreign_key_of(g: FkGroupView) -> ForeignKeyInfoView {
    ForeignKeyInfoView {
        columns_constraint: crate::drivers::common::over_columns(
            ConstraintType::ForeignKey,
            None,
            Seq::new(
                g.columns.len(),
                |i: int| crate::drivers::common::plain_ref(g.columns[i].0),
            ),
        ),
        ref_schema_name: None,
        ref_table_name: g.ref_table,
        update_action: non_empty(g.on_update),
        delete_action: non_empty(g.on_delete),
    }
}

fn build_foreign_key(g: &FkGroup) -> (r: ForeignKeyInfo)
    ensures
        r.deep_view() == foreign_key_of(g.deep_view()),
{
    let f = |pair: &(String, String)| -> (c: ColumnReference)
        ensures
            c.deep_view() == crate::drivers::common::plain_ref(pair.0@),
    {
        plain_reference(pair.0.clone())
    };
    let columns = map_list(&g.columns, f);
    assert(columns.deep_view() =~= foreign_key_of(g.deep_view()).columns_constraint.columns);
    ForeignKeyInfo {
        columns_constraint: constraint_over(ConstraintType::ForeignKey, None, columns),
        ref_schema_name: None,
        ref_table_name: g.ref_table.clone(),
        update_action: if_non_empty(&g.on_update),
        delete_action: if_non_empty(&g.on_delete),
    }
}

/// The structure of a table.
pub open spec fn table_of(
    pure: Seq<char>,
    create_sql: Option<Seq<char>>,
    column_rows: Seq<ColumnRowView>,
    fk_rows: Seq<ForeignKeyRowView>,
) -> TableInfoView {
    let groups = groups_of(fk_rows);
    TableInfoView {
        object: DatabaseObjectInfoView {
            pure_name: pure,
            schema_name: None,
            pairing_id: None,
            object_id: None,
            create_date: None,
            modify_date: None,
            hash_code: None,
            object_type_field: None,
            object_comment: create_sql,
        },
        columns: Seq::new(column_rows.len(), |i: int| column_of(column_rows[i])),
        primary_key: primary_key(pure, column_rows),
        sorting_key: None,
        foreign_keys: Some(Seq::new(groups.len(), |i: int| foreign_key_of(groups[i]))),
        dependencies: None,
        indexes: None,
        uniques: None,
        checks: None,
        table_row_count: None,
        table_engine: None,
    }
}

/// The structure of a table, from the rows about its columns and foreign keys.
/// The statement that created it, where it is known, is its comment.
pub fn analyse_sqlite_table(
    pure_name: &str,
    create_sql: Option<&str>,
    column_rows: &Vec<ColumnRow>,
    fk_rows: &Vec<ForeignKeyRow>,
) -> (r: TableInfo)
    ensures
        r.deep_view() == table_of(
            pure_name@,
            crate::value::opt_str(create_sql),
            column_rows.deep_view(),
            fk_rows.deep_view(),
        ),
{
    let f = |row: &ColumnRow| -> (c: ColumnInfo)
        ensures
            c.deep_view() == column_of(row.deep_view()),
    {
        build_column(row)
    };
    let columns = map_list(column_rows, f);
    let groups = group_foreign_keys(fk_rows);
    let g = |group: &FkGroup| -> (k: ForeignKeyInfo)
        ensures
            k.deep_view() == foreign_key_of(group.deep_view()),
    {
        build_foreign_key(group)
    };
    let foreign_keys = map_list(&groups, g);
    proof {
        let t = table_of(
            pure_name@,
            crate::value::opt_str(create_sql),
            column_rows.deep_view(),
            fk_rows.deep_view(),
        );
        assert(columns.deep_view() =~= t.columns);
        assert(foreign_keys.deep_view() =~= t.foreign_keys->0);
    }
    TableInfo {
        object: DatabaseObjectInfo {
            pure_name: pure_name.to_owned(),
            schema_name: None,
            pairing_id: None,
            object_id: None,
            create_date: None,
            modify_date: None,
            hash_code: None,
            object_type_field: None,
            object_comment: match create_sql {
                Some(s) => Some(s.to_owned()),
                None => None,
            },
        },
        columns,
        primary_key: build_primary_key(pure_name, column_rows),
        sorting_key: None,
        foreign_keys: Some(foreign_keys),
        dependencies: None,
        indexes: None,
        uniques: None,
        checks: None,
        table_row_count: None,
        table_engine: None,
    }
}

/// What the analysis queries tell about one table.
pub struct SqliteTableRows {
    pub name: String,
    pub create_sql: Option<String>,
    pub columns: Vec<ColumnRow>,
    pub foreign_keys: Vec<ForeignKeyRow>,
}

/// What a [`SqliteTableRows`] holds.
pub struct SqliteTableRowsView {
    pub name: Seq<char>,
    pub create_sql: Option<Seq<char>>,
    pub columns: Seq<ColumnRowView>,
    pub foreign_keys: Seq<ForeignKeyRowView>,
}

impl DeepView for SqliteTableRows {
    type V = SqliteTableRowsView;

    open spec fn deep_view(&self) -> SqliteTableRowsView {
        SqliteTableRowsView {
            name: self.name@,
            create_sql: self.create_sql.deep_view(),
            columns: self.columns.deep_view(),
            foreign_keys: self.foreign_keys.deep_view(),
        }
    }
}

/// The structure of a database with the given tables.
pub open spec fn database_of(tables: Seq<SqliteTableRowsView>) -> DatabaseInfoView {
    DatabaseInfoView {
        tables: Seq::new(
            tables.len(),
            |i: int|
                table_of(
                    tables[i].name,
                    tables[i].create_sql,
                    tables[i].columns,
                    tables[i].foreign_keys,
                ),
        ),
        ..crate::dbinfo::empty_database()
    }
}

/// The full structure of a database, from the rows about each of its tables.
pub fn analyse_sqlite_full(tables: &Vec<SqliteTableRows>) -> (r: DatabaseInfo)
    ensures
        r.deep_view() == database_of(tables.deep_view()),
{
    let f = |t: &SqliteTableRows| -> (info: TableInfo)
        ensures
            info.deep_view() == table_of(
                t.name@,
                t.create_sql.deep_view(),
                t.columns.deep_view(),
                t.foreign_keys.deep_view(),
            ),
    {
        let create_sql = match &t.create_sql {
            Some(s) => Some(s.as_str()),
            None => None,
        };
        analyse_sqlite_table(t.name.as_str(), create_sql, &t.columns, &t.foreign_keys)
    };
    let analysed = map_list(tables, f);
    assert(analysed.deep_view() =~= database_of(tables.deep_view()).tables);
    let mut info = DatabaseInfo::default();
    info.tables = analysed;
    info
}

// ---------------------------------------------------------------------------
// Laws
// ---------------------------------------------------------------------------

/// Every column row gives the column at its place: with its name, its type, its default
/// value, and not null exactly where the row's flag is set.
pub proof fn law_columns(
    t: TableInfo,
    pure: Seq<char>,
    create_sql: Option<Seq<char>>,
    column_rows: Seq<ColumnRow>,
    fk_rows: Seq<ForeignKeyRowView>,
    rows: Seq<ColumnRowView>,
    i: int,
)
    requires
        t.deep_view() == table_of(pure, create_sql, rows, fk_rows),
        rows == Seq::new(column_rows.len(), |k: int| column_rows[k].deep_view()),
        0 <= i < column_rows.len(),
    ensures
        t.columns@.len() == column_rows.len(),
        t.columns@[i].column_name@ == column_rows[i].name@,
        column_rows[i].not_null == 1 ==> t.columns@[i].not_null == Some(true),
        column_rows[i].not_null == 0 ==> t.columns@[i].not_null == Some(false),
        column_rows[i].data_type@.len() > 0 ==> t.columns@[i].data_type@
            == column_rows[i].data_type@,
        column_rows[i].data_type@.len() == 0 ==> t.columns@[i].data_type@ == "TEXT"@,
        t.columns@[i].default_value.deep_view() == column_rows[i].default_value.deep_view(),
{
    let c = t.deep_view().columns;
    assert(c.len() == t.columns@.len());
    assert(c[i] == t.columns@[i].deep_view());
    assert(c[i].not_null == t.columns@[i].not_null);
    assert(c[i].column_name == t.columns@[i].column_name@);
    assert(c[i].data_type == t.columns@[i].data_type@);
    assert(c[i].default_value == t.columns@[i].default_value.deep_view());
}

/// The primary key of a table has the columns whose rows count in it, in the order of the
/// rows; a table without such a row has none.
pub proof fn law_primary_key(pure: Seq<char>, rows: Seq<ColumnRowView>, row: ColumnRowView)
    ensures
        primary_key(pure, Seq::empty()) is None,
        row.pk <= 0 ==> primary_key(pure, rows.push(row)) == primary_key(pure, rows),
        row.pk > 0 ==> (primary_key(pure, rows.push(row)) matches Some(after) && {
            let c = after.columns_constraint;
            &&& c.constraint.constraint_type == ConstraintType::PrimaryKey
            &&& c.constraint.constraint_name == Some("PK_"@ + pure)
            &&& c.columns.last().column_name == row.name
            &&& match primary_key(pure, rows) {
                Some(before) => c.columns.drop_last() == before.columns_constraint.columns,
                None => c.columns.len() == 1,
            }
        }),
{
    crate::rows::law_pick_push(rows, |r: ColumnRowView| key_part(r), row);
    if row.pk > 0 {
        let parts = key_parts(rows);
        assert(key_parts(rows.push(row)) == parts.push(
            crate::drivers::common::plain_ref(row.name),
        ));
        assert(parts.push(crate::drivers::common::plain_ref(row.name)).drop_last() =~= parts);
    }
}

/// A foreign key row with the number zero begins a key, with its column, its table and its
/// actions; any other row adds its column to the last key.
pub proof fn law_foreign_keys(
    pure: Seq<char>,
    create_sql: Option<Seq<char>>,
    columns: Seq<ColumnRowView>,
    rows: Seq<ForeignKeyRowView>,
    row: ForeignKeyRowView,
)
    ensures
        table_of(pure, create_sql, columns, Seq::empty()).foreign_keys == Some(
            Seq::<ForeignKeyInfoView>::empty(),
        ),
        table_of(pure, create_sql, columns, rows).foreign_keys is Some,
        ({
            let before = table_of(pure, create_sql, columns, rows).foreign_keys->0;
            let after = table_of(pure, create_sql, columns, rows.push(row)).foreign_keys->0;
            if row.seq == 0 {
                let k = after.last();
                &&& after.len() == before.len() + 1
                &&& after.drop_last() == before
                &&& k.ref_table_name == row.table
                &&& k.columns_constraint.constraint.constraint_type == ConstraintType::ForeignKey
                &&& k.columns_constraint.columns.len() == 1
                &&& k.columns_constraint.columns[0].column_name == row.from_col
                &&& row.on_update.len() > 0 ==> k.update_action == Some(row.on_update)
                &&& row.on_update.len() == 0 ==> k.update_action is None
                &&& row.on_delete.len() > 0 ==> k.delete_action == Some(row.on_delete)
                &&& row.on_delete.len() == 0 ==> k.delete_action is None
            } else if before.len() > 0 {
                let k = after.last();
                &&& after.len() == before.len()
                &&& after.drop_last() == before.drop_last()
                &&& k.ref_table_name == before.last().ref_table_name
                &&& k.update_action == before.last().update_action
                &&& k.delete_action == before.last().delete_action
                &&& k.columns_constraint.columns.drop_last()
                    == before.last().columns_constraint.columns
                &&& k.columns_constraint.columns.len() > 0
                &&& k.columns_constraint.columns.last().column_name == row.from_col
            } else {
                after.len() == 0
            }
        }),
{
    let none = Seq::<ForeignKeyRowView>::empty();
    assert(groups_of(none) =~= Seq::empty());
    assert(table_of(pure, create_sql, columns, none).foreign_keys->0 =~= Seq::<
        ForeignKeyInfoView,
    >::empty());
    assert(rows.push(row).drop_last() =~= rows);
    let before = table_of(pure, create_sql, columns, rows).foreign_keys->0;
    let after = table_of(pure, create_sql, columns, rows.push(row)).foreign_keys->0;
    if row.seq == 0 {
        assert(after.drop_last() =~= before);
    } else if before.len() > 0 {
        assert(after.drop_last() =~= before.drop_last());
        assert(after.last().columns_constraint.columns.drop_last()
            =~= before.last().columns_constraint.columns);
    }
}

/// The database has a table for each of those that were read, with its name, its
/// statement, its columns and its keys.
pub proof fn law_tables(tables: Seq<SqliteTableRowsView>, i: int)
    requires
        0 <= i < tables.len(),
    ensures
        database_of(tables).tables.len() == tables.len(),
        database_of(tables).tables[i].object.pure_name == tables[i].name,
        database_of(tables).tables[i].object.object_comment == tables[i].create_sql,
        database_of(tables).tables[i].columns.len() == tables[i].columns.len(),
        database_of(tables).tables[i] == table_of(
            tables[i].name,
            tables[i].create_sql,
            tables[i].columns,
            tables[i].foreign_keys,
        ),
        database_of(tables).tables[i].primary_key == primary_key(tables[i].name, tables[i].columns),
{
}

/// A cell becomes the JSON value of its kind.
pub proof fn law_cells(n: i64, d: u64)
    ensures
        cell_json(SqliteCell::Null) == Json::Null,
        cell_json(SqliteCell::Integer(n)) == Json::Int(n as int),
        cell_json(SqliteCell::Real(d)) == crate::encoding::double_json(d),
{
}

/// Text cells become texts and blobs become binary values.
pub proof fn law_byte_cells(b: Vec<u8>)
    ensures
        cell_json(SqliteCell::Text(b)) == Json::Str(crate::encoding::utf8_lossy(b@)),
        cell_json(SqliteCell::Blob(b)) == crate::encoding::binary_json(b@),
{
}

/// A row is read by the names of its columns.
pub proof fn law_row(names: Seq<Seq<char>>, cells: Seq<SqliteCell>, i: int)
    requires
        names.len() == cells.len(),
        names.no_duplicates(),
        0 <= i < names.len(),
    ensures
        row_json(names, cells).get(names[i]) == Some(cell_json(cells[i])),
{
    let values = Seq::new(cells.len(), |i: int| cell_json(cells[i]));
    crate::value::law_row_members(names, values);
    let o = Seq::new(names.len(), |i: int| (names[i], values[i]));
    let a = o.take(i);
    let b = o.skip(i + 1);
    assert forall|j: int| 0 <= j < a.len() implies (#[trigger] a[j]).0 != names[i] by {
        assert(a[j] == o[j]);
    }
    crate::value::law_get(a, names[i], values[i], b);
    assert(a.push((names[i], values[i])) + b =~= o);
}

/// The file of a definition: its own, else that among its extra fields.
pub proof fn law_file(def: ConnectionDefinitionView)
    ensures
        def.database_file is Some ==> file_of(def) == def.database_file,
        def.database_file is None ==> file_of(def) == match def.extra_field("databaseFile"@) {
            Some(Json::Str(f)) => Some(f),
            _ => None,
        },
{
}

/// Changed rows are counted for a statement that shows no result, and only for such a one.
pub proof fn law_counted(columns: nat, changes: u64)
    ensures
        counted(0, changes) == changes,
        columns > 0 ==> counted(columns, changes) == 0,
{
}

} // verus!
