//! The statements with which the Cassandra driver writes a table.
//!
//! A JSON number may be a floating-point number, whose text is left to the
//! caller: each cell that is written comes with the texts of a [`CellText`].
use vstd::prelude::*;

use crate::dbinfo::{
    ColumnInfo, ColumnInfoView, NamedObjectInfo, NamedObjectInfoView, TableInfo, TableInfoView,
};
use crate::driver::WriteTableOptions;
use crate::encoding::{base64_decode, json_written};
use crate::numbers::{decimal_wide, hex_of};
use crate::rows::{map_list, new_list, push_item};
use crate::text::{
    chars_of, concat2, concat3, concat4, doubling, in_quotes, joined, same, to_ascii_lower,
};
use crate::value::{Json, Value};

verus! {

/// The texts of a cell that rest on how a number with a fraction is written: how
/// JSON writes the cell where it holds such a number, and, where it is itself a
/// text that reads as a number, how that number is written.
pub struct CellText {
    pub json: String,
    pub number: Option<String>,
}

/// What a [`CellText`] holds.
pub struct CellTextView {
    pub json: Seq<char>,
    pub number: Option<Seq<char>>,
}

impl DeepView for CellText {
    type V = CellTextView;

    open spec fn deep_view(&self) -> CellTextView {
        CellTextView { json: self.json@, number: self.number.deep_view() }
    }
}

// ---------------------------------------------------------------------------
// Names
// ---------------------------------------------------------------------------

/// A name between double quotes.
pub open spec fn quoted_name(s: Seq<char>) -> Seq<char> {
    "\""@ + s + "\""@
}

/// Quotes an identifier with double quotes, as the dialect does: the name itself
/// is left as it is.
pub fn quote_identifier(s: &str) -> (r: String)
    ensures
        r@ == quoted_name(s@),
{
    concat3("\"", s, "\"")
}

/// The quoted full name of a table.
pub open spec fn full_name(name: NamedObjectInfoView) -> Seq<char> {
    match name.schema_name {
        Some(schema) => quoted_name(schema) + "."@ + quoted_name(name.pure_name),
        None => quoted_name(name.pure_name),
    }
}

/// Builds the quoted full table name: `"schema"."table"` or `"table"`.
pub fn full_name_quoted(name: &NamedObjectInfo) -> (r: String)
    ensures
        r@ == full_name(name.deep_view()),
{
    match &name.schema_name {
        Some(schema) => concat3(
            quote_identifier(schema.as_str()).as_str(),
            ".",
            quote_identifier(name.pure_name.as_str()).as_str(),
        ),
        None => quote_identifier(name.pure_name.as_str()),
    }
}

/// Whether a column has the given name.
pub open spec fn has_column(columns: Seq<ColumnInfoView>, name: Seq<char>) -> bool {
    exists|i: int| 0 <= i < columns.len() && (#[trigger] columns[i]).column_name == name
}

/// The first column of the primary key of a table.
pub open spec fn first_key_column(structure: TableInfoView) -> Option<Seq<char>> {
    match structure.primary_key {
        Some(pk) => if pk.columns_constraint.columns.len() > 0 {
            Some(pk.columns_constraint.columns[0].column_name)
        } else {
            None
        },
        None => None,
    }
}

/// Whether rows get a generated key: in a table without key columns, unless it
/// has no primary key but a column `id`.
pub open spec fn adds_key(structure: TableInfoView) -> bool {
    first_key_column(structure) is None && !(structure.primary_key is None && has_column(
        structure.columns,
        "id"@,
    ))
}

fn any_column(columns: &Vec<ColumnInfo>, name: &str) -> (r: bool)
    ensures
        r == has_column(columns.deep_view(), name@),
{
    let ghost all = columns.deep_view();
    let mut i: usize = 0;
    while i < columns.len()
        invariant
            i <= columns@.len(),
            all == columns.deep_view(),
            forall|j: int| 0 <= j < i ==> (#[trigger] all[j]).column_name != name@,
        decreases columns@.len() - i,
    {
        assert(all[i as int].column_name == columns@[i as int].column_name@);
        if same(columns[i].column_name.as_str(), name) {
            return true;
        }
        i = i + 1;
    }
    false
}

/// Whether a generated `id uuid` primary key is added, and its name. It is added
/// only for tables with neither a primary key nor an `id` column; rows then use
/// `uuid()` to fill it.
pub fn should_add_uuid_pk_info(structure: &TableInfo) -> (r: (bool, String))
    ensures
        r.0 == adds_key(structure.deep_view()),
        r.1@ == if r.0 {
            "id"@
        } else {
            Seq::empty()
        },
{
    let has_id_column = any_column(&structure.columns, "id");
    if has_id_column && structure.primary_key.is_none() {
        return (false, String::new());
    }
    let has_key = match &structure.primary_key {
        Some(pk) => {
            proof {
                let columns = pk.columns_constraint.columns;
                assert(columns.deep_view().len() == columns@.len());
            }
            pk.columns_constraint.columns.len() > 0
        },
        None => false,
    };
    if has_key {
        (false, String::new())
    } else {
        (true, "id".to_owned())
    }
}

// ---------------------------------------------------------------------------
// Literals
// ---------------------------------------------------------------------------

/// Escapes a string for a single-quoted literal by doubling `'`.
pub fn escape_string(s: &str) -> (r: String)
    ensures
        r@ == crate::text::doubled(s@, '\''),
{
    doubling(s, '\'')
}

/// Wraps a string in single quotes after escaping.
pub fn quote_escaped(s: &str) -> (r: String)
    ensures
        r@ == crate::text::quoted(s@, '\''),
{
    in_quotes(s, '\'')
}

/// A hexadecimal digit, in small letters.
pub open spec fn is_lower_hex(c: char) -> bool {
    '0' <= c <= '9' || 'a' <= c <= 'f'
}

/// The positions of the hyphens in a UUID.
pub open spec fn is_hyphen_place(i: int) -> bool {
    i == 8 || i == 13 || i == 18 || i == 23
}

/// Whether a text has the canonical form of a UUID in small letters.
pub open spec fn is_uuid(s: Seq<char>) -> bool {
    s.len() == 36 && forall|i: int|
        0 <= i < 36 ==> if is_hyphen_place(i) {
            #[trigger] s[i] == '-'
        } else {
            is_lower_hex(s[i])
        }
}

/// Checks whether a string has the canonical lowercase uuid shape.
pub fn is_uuid_literal(s: &str) -> (r: bool)
    ensures
        r == is_uuid(s@),
{
    let chars = chars_of(s);
    if chars.len() != 36 {
        return false;
    }
    let mut i: usize = 0;
    while i < 36
        invariant
            i <= 36,
            chars@ == s@,
            chars@.len() == 36,
            forall|j: int|
                0 <= j < i ==> if is_hyphen_place(j) {
                    #[trigger] s@[j] == '-'
                } else {
                    is_lower_hex(s@[j])
                },
        decreases 36 - i,
    {
        let c = chars[i];
        assert(s@[i as int] == c);
        let fits = if i == 8 || i == 13 || i == 18 || i == 23 {
            c == '-'
        } else {
            ('0' <= c && c <= '9') || ('a' <= c && c <= 'f')
        };
        if !fits {
            return false;
        }
        i = i + 1;
    }
    true
}

/// The literal of a blob with the given bytes, `null` where there are none.
pub open spec fn bytes_literal(bytes: Option<Seq<u8>>) -> Seq<char> {
    match bytes {
        Some(b) => "0x"@ + crate::numbers::hex(b),
        None => "null"@,
    }
}

/// The literal of the blob with the given base64 text.
pub open spec fn blob_literal(b64: Seq<char>) -> Seq<char> {
    bytes_literal(crate::encoding::base64_bytes(b64))
}

/// The literal of a blob, given its bytes where its text could be decoded.
pub fn blob_of(bytes: Option<Vec<u8>>) -> (r: String)
    ensures
        r@ == match bytes {
            Some(b) => "0x"@ + crate::numbers::hex(b@),
            None => "null"@,
        },
{
    match bytes {
        Some(b) => concat2("0x", hex_of(&b).as_str()),
        None => "null".to_owned(),
    }
}

/// Decodes a base64 blob into a hex literal (`0x...`), falling back to `null`
/// when the payload is not valid base64.
pub fn blob_hex_literal(b64: &str) -> (r: String)
    ensures
        r@ == blob_literal(b64@),
{
    let bytes = base64_decode(b64);
    proof {
        if bytes is Some {
            assert(bytes->0.deep_view() =~= bytes->0@);
        }
    }
    blob_of(bytes)
}

/// A type whose values are numbers.
pub open spec fn is_numeric(dt: Seq<char>) -> bool {
    dt == "tinyint"@ || dt == "smallint"@ || dt == "int"@ || dt == "bigint"@ || dt == "varint"@
        || dt == "float"@ || dt == "double"@ || dt == "decimal"@
}

fn numeric(dt: &str) -> (r: bool)
    ensures
        r == is_numeric(dt@),
{
    same(dt, "tinyint") || same(dt, "smallint") || same(dt, "int") || same(dt, "bigint")
        || same(dt, "varint") || same(dt, "float") || same(dt, "double") || same(dt, "decimal")
}

/// A type whose values are text.
pub open spec fn is_textual(dt: Seq<char>) -> bool {
    dt == "text"@ || dt == "varchar"@
}

/// The keyword of a truth value.
pub open spec fn bool_word(b: bool) -> Seq<char> {
    if b {
        "true"@
    } else {
        "false"@
    }
}

fn bool_text(b: bool) -> (r: &'static str)
    ensures
        r@ == bool_word(b),
{
    if b {
        "true"
    } else {
        "false"
    }
}

/// The base64 text of a value that stands for binary data.
pub open spec fn binary_part(v: Json) -> Option<Seq<char>> {
    match v.get("$binary"@) {
        Some(b) => b.text("base64"@),
        None => None,
    }
}

/// How JSON writes a value: as [`json_text`](crate::encoding::json_text) says, else
/// by the given text.
pub open spec fn json_or(v: Json, given: Seq<char>) -> Seq<char> {
    match crate::encoding::json_text(v) {
        Some(t) => t,
        None => given,
    }
}

fn json_or_given(value: &Value, given: &str) -> (r: String)
    ensures
        r@ == json_or(value@, given@),
{
    match json_written(value) {
        Some(t) => t,
        None => given.to_owned(),
    }
}

/// A value in a text column: always between quotes, but for null.
pub open spec fn text_literal(v: Json, json: Seq<char>) -> Seq<char> {
    match v {
        Json::Null => "null"@,
        Json::Bool(b) => crate::text::quoted(bool_word(b), '\''),
        Json::Int(n) => crate::text::quoted(crate::numbers::dec_int(n), '\''),
        Json::Str(s) => crate::text::quoted(s, '\''),
        _ => crate::text::quoted(json, '\''),
    }
}

/// A value in a column of any other type: binary data in hexadecimal, compound
/// values as quoted JSON.
pub open spec fn plain_literal(v: Json, json: Seq<char>) -> Seq<char> {
    match v {
        Json::Null => "null"@,
        Json::Bool(b) => bool_word(b),
        Json::Int(n) => crate::numbers::dec_int(n),
        Json::Double(_) => json,
        Json::Str(s) => crate::text::quoted(s, '\''),
        Json::Object(_) => match binary_part(v) {
            Some(b64) => blob_literal(b64),
            None => crate::text::quoted(json, '\''),
        },
        Json::Array(_) => crate::text::quoted(json, '\''),
    }
}

/// The literal of a value in a column of the given type.
pub open spec fn literal(v: Json, data_type: Option<Seq<char>>, texts: CellTextView) -> Seq<char> {
    let dt = crate::text::ascii_lower(crate::rows::or_empty(data_type));
    if dt == "uuid"@ && v is Str && is_uuid(v->Str_0) {
        v->Str_0
    } else if is_numeric(dt) && v is Str && texts.number is Some {
        texts.number->0
    } else if is_textual(dt) {
        text_literal(v, json_or(v, texts.json))
    } else {
        plain_literal(v, json_or(v, texts.json))
    }
}

fn text_column_literal(value: &Value, json: &str) -> (r: String)
    ensures
        r@ == text_literal(value@, json@),
{
    proof {
        crate::value::lemma_compound_views(*value);
    }
    match value {
        Value::Null => "null".to_owned(),
        Value::Bool(b) => quote_escaped(bool_text(*b)),
        Value::Int(n) => quote_escaped(decimal_wide(*n).as_str()),
        Value::Str(s) => quote_escaped(s.as_str()),
        _ => quote_escaped(json),
    }
}

fn base64_part(value: &Value) -> (r: Option<&str>)
    ensures
        crate::value::opt_str(r) == binary_part(value@),
{
    match value.get("$binary") {
        Some(b) => b.text("base64"),
        None => None,
    }
}

fn plain_column_literal(value: &Value, json: &str) -> (r: String)
    ensures
        r@ == plain_literal(value@, json@),
{
    proof {
        crate::value::lemma_compound_views(*value);
    }
    match value {
        Value::Null => "null".to_owned(),
        Value::Bool(b) => bool_text(*b).to_owned(),
        Value::Int(n) => decimal_wide(*n),
        Value::Double(_) => json.to_owned(),
        Value::Str(s) => quote_escaped(s.as_str()),
        Value::Object(_) => match base64_part(value) {
            Some(b64) => blob_hex_literal(b64),
            None => quote_escaped(json),
        },
        Value::Array(_) => quote_escaped(json),
    }
}

/// Formats a value as a literal: strings escaped with `'`, numbers bare, booleans
/// as `true` / `false`, null as `null`, bare uuid literals for uuid columns,
/// binary data as hex, collections as JSON strings.
pub fn cql_literal(value: &Value, data_type: Option<&str>, texts: &CellText) -> (r: String)
    ensures
        r@ == literal(value@, crate::value::opt_str(data_type), texts.deep_view()),
{
    let dt = match data_type {
        Some(t) => to_ascii_lower(t),
        None => {
            let none = to_ascii_lower("");
            proof {
                reveal_strlit("");
                assert(""@ =~= Seq::<char>::empty());
            }
            none
        },
    };
    if let Value::Str(s) = value {
        if same(dt.as_str(), "uuid") && is_uuid_literal(s.as_str()) {
            return s.clone();
        }
        if numeric(dt.as_str()) {
            if let Some(n) = &texts.number {
                return n.clone();
            }
        }
    }
    let json = json_or_given(value, texts.json.as_str());
    if same(dt.as_str(), "text") || same(dt.as_str(), "varchar") {
        return text_column_literal(value, json.as_str());
    }
    plain_column_literal(value, json.as_str())
}

// ---------------------------------------------------------------------------
// Statements
// ---------------------------------------------------------------------------

/// A row to write: the row, and the texts of its cells, column by column.
pub struct InsertRow {
    pub row: Value,
    pub texts: Vec<CellText>,
}

/// The cell of a row under a name, null where it has none.
pub open spec fn cell_of(row: Json, name: Seq<char>) -> Json {
    match row.get(name) {
        Some(v) => v,
        None => Json::Null,
    }
}

/// The quoted names of some columns.
pub open spec fn column_names(columns: Seq<ColumnInfoView>) -> Seq<Seq<char>> {
    Seq::new(columns.len(), |i: int| quoted_name(columns[i].column_name))
}

/// The literals of a row, column by column.
pub open spec fn row_literals(
    columns: Seq<ColumnInfoView>,
    row: Json,
    texts: Seq<CellTextView>,
) -> Seq<Seq<char>> {
    Seq::new(
        columns.len(),
        |i: int|
            literal(
                cell_of(row, columns[i].column_name),
                Some(columns[i].data_type),
                texts[i],
            ),
    )
}

/// The statement that inserts a row.
pub open spec fn insert_sql(
    table: Seq<char>,
    columns: Seq<ColumnInfoView>,
    add_key: bool,
    key: Seq<char>,
    row: Json,
    texts: Seq<CellTextView>,
) -> Seq<char> {
    "INSERT INTO "@ + table + " ("@ + (if add_key {
        quoted_name(key) + ", "@
    } else {
        Seq::empty()
    }) + crate::text::join(column_names(columns), ", "@) + ")\n VALUES\n("@ + (if add_key {
        "uuid(), "@
    } else {
        Seq::empty()
    }) + crate::text::join(row_literals(columns, row, texts), ", "@) + ")"@
}

fn quoted_columns(columns: &Vec<ColumnInfo>) -> (r: Vec<String>)
    ensures
        crate::text::texts(r@) == column_names(columns.deep_view()),
{
    let f = |c: &ColumnInfo| -> (s: String)
        ensures
            s@ == quoted_name(c.deep_view().column_name),
    {
        quote_identifier(c.column_name.as_str())
    };
    let r = map_list(columns, f);
    assert(crate::text::texts(r@) =~= column_names(columns.deep_view()));
    r
}

/// Builds a single-row `INSERT INTO ... VALUES (...)` statement: an optional
/// generated key column filled by `uuid()`, then one quoted column per structure
/// column, with the values formatted by [`cql_literal`].
pub fn build_insert_sql(
    full_name_quoted: &str,
    columns: &Vec<ColumnInfo>,
    should_add_uuid_pk: bool,
    pk_column_name: &str,
    row: &InsertRow,
) -> (r: String)
    requires
        row.texts@.len() == columns@.len(),
    ensures
        r@ == insert_sql(
            full_name_quoted@,
            columns.deep_view(),
            should_add_uuid_pk,
            pk_column_name@,
            row.row@,
            row.texts.deep_view(),
        ),
{
    let ghost cols = columns.deep_view();
    let ghost texts = row.texts.deep_view();
    let mut literals: Vec<String> = Vec::new();
    let mut i: usize = 0;
    while i < columns.len()
        invariant
            i <= columns@.len(),
            row.texts@.len() == columns@.len(),
            cols == columns.deep_view(),
            texts == row.texts.deep_view(),
            literals@.len() == i,
            forall|j: int|
                0 <= j < i ==> (#[trigger] literals@[j])@ == literal(
                    cell_of(row.row@, cols[j].column_name),
                    Some(cols[j].data_type),
                    texts[j],
                ),
        decreases columns@.len() - i,
    {
        let c = &columns[i];
        assert(cols[i as int] == c.deep_view());
        assert(texts[i as int] == row.texts@[i as int].deep_view());
        let none = Value::Null;
        let cell = match row.row.get(c.column_name.as_str()) {
            Some(v) => v,
            None => &none,
        };
        literals.push(cql_literal(cell, Some(c.data_type.as_str()), &row.texts[i]));
        i = i + 1;
    }
    assert(crate::text::texts(literals@) =~= row_literals(cols, row.row@, texts));
    let mut sql = concat3("INSERT INTO ", full_name_quoted, " (");
    let mut key = String::new();
    if should_add_uuid_pk {
        key = concat2(quote_identifier(pk_column_name).as_str(), ", ");
    }
    sql.push_str(key.as_str());
    sql.push_str(joined(&quoted_columns(columns), ", ").as_str());
    sql.push_str(")\n VALUES\n(");
    let mut filled = String::new();
    if should_add_uuid_pk {
        filled = "uuid(), ".to_owned();
    }
    sql.push_str(filled.as_str());
    sql.push_str(joined(&literals, ", ").as_str());
    sql.push_str(")");
    sql
}

/// The definitions of some columns.
pub open spec fn column_defs(columns: Seq<ColumnInfoView>) -> Seq<Seq<char>> {
    Seq::new(
        columns.len(),
        |i: int| quoted_name(columns[i].column_name) + " "@ + columns[i].data_type,
    )
}

/// The definitions of a table: its columns, with the generated key first and its
/// declaration last where there is one.
pub open spec fn table_defs(
    columns: Seq<ColumnInfoView>,
    add_key: bool,
    key: Seq<char>,
) -> Seq<Seq<char>> {
    if add_key {
        seq![quoted_name(key) + " uuid"@] + column_defs(columns) + seq![
            "PRIMARY KEY ("@ + quoted_name(key) + ")"@,
        ]
    } else {
        column_defs(columns)
    }
}

/// The statement that creates a table.
pub open spec fn create_sql(
    table: Seq<char>,
    columns: Seq<ColumnInfoView>,
    add_key: bool,
    key: Seq<char>,
) -> Seq<char> {
    "CREATE TABLE "@ + table + " ("@ + crate::text::join(
        table_defs(columns, add_key, key),
        ", "@,
    ) + ");"@
}

/// Minimal `CREATE TABLE`: lists the structure's columns and, when a generated
/// key is needed, the uuid primary key.
pub fn create_table_sql(
    full_name_quoted: &str,
    structure: &TableInfo,
    should_add_uuid_pk: bool,
    pk_column_name: &str,
) -> (r: String)
    ensures
        r@ == create_sql(
            full_name_quoted@,
            structure.columns.deep_view(),
            should_add_uuid_pk,
            pk_column_name@,
        ),
{
    let columns = &structure.columns;
    let ghost cols = columns.deep_view();
    let mut defs: Vec<String> = new_list();
    if should_add_uuid_pk {
        push_item(&mut defs, concat2(quote_identifier(pk_column_name).as_str(), " uuid"));
    }
    let ghost head = defs.deep_view();
    assert(head + column_defs(cols.take(0)) =~= head);
    let mut i: usize = 0;
    while i < columns.len()
        invariant
            i <= columns@.len(),
            cols == columns.deep_view(),
            defs.deep_view() == head + column_defs(cols.take(i as int)),
        decreases columns@.len() - i,
    {
        let c = &columns[i];
        assert(cols[i as int] == c.deep_view());
        push_item(
            &mut defs,
            concat3(
                quote_identifier(c.column_name.as_str()).as_str(),
                " ",
                c.data_type.as_str(),
            ),
        );
        assert(defs.deep_view() =~= head + column_defs(cols.take(i + 1)));
        i = i + 1;
    }
    assert(cols.take(cols.len() as int) =~= cols);
    if should_add_uuid_pk {
        push_item(
            &mut defs,
            concat3("PRIMARY KEY (", quote_identifier(pk_column_name).as_str(), ")"),
        );
    }
    assert(crate::text::texts(defs@) =~= defs.deep_view());
    assert(defs.deep_view() =~= table_defs(cols, should_add_uuid_pk, pk_column_name@));
    let mut sql = concat4(
        "CREATE TABLE ",
        full_name_quoted,
        " (",
        joined(&defs, ", ").as_str(),
    );
    sql.push_str(");");
    sql
}

/// The statement, where it is wanted.
pub open spec fn wanted(want: bool, sql: Seq<char>) -> Seq<Seq<char>> {
    if want {
        seq![sql]
    } else {
        Seq::empty()
    }
}

/// The statements that prepare a table for writing: dropping, creating and
/// emptying it, as the options say.
pub open spec fn preparation(
    name: NamedObjectInfoView,
    options: WriteTableOptions,
    structure: TableInfoView,
) -> Seq<Seq<char>> {
    let table = full_name(name);
    let add_key = adds_key(structure);
    wanted(options.drop_if_exists, "DROP TABLE "@ + table + ";"@) + wanted(
        options.create_if_not_exists,
        create_sql(
            table,
            structure.columns,
            add_key,
            if add_key {
                "id"@
            } else {
                Seq::empty()
            },
        ),
    ) + wanted(options.truncate, "TRUNCATE TABLE "@ + table + ";"@)
}

/// The statements that insert some rows.
pub open spec fn insertions(
    name: NamedObjectInfoView,
    structure: TableInfoView,
    rows: Seq<InsertRow>,
) -> Seq<Seq<char>> {
    let add_key = adds_key(structure);
    Seq::new(
        rows.len(),
        |i: int|
            insert_sql(
                full_name(name),
                structure.columns,
                add_key,
                if add_key {
                    "id"@
                } else {
                    Seq::empty()
                },
                rows[i].row@,
                rows[i].texts.deep_view(),
            ),
    )
}

/// The statements that write rows to a table, in the order in which they run.
pub fn write_table_statements(
    name: &NamedObjectInfo,
    options: &WriteTableOptions,
    structure: &TableInfo,
    rows: &Vec<InsertRow>,
) -> (r: Vec<String>)
    requires
        forall|i: int|
            0 <= i < rows@.len() ==> (#[trigger] rows@[i]).texts@.len()
                == structure.columns@.len(),
    ensures
        r.deep_view() == preparation(name.deep_view(), *options, structure.deep_view())
            + insertions(name.deep_view(), structure.deep_view(), rows@),
{
    let table_name = full_name_quoted(name);
    let (should_add_uuid_pk, pk_column_name) = should_add_uuid_pk_info(structure);
    let mut out: Vec<String> = new_list();
    if options.drop_if_exists {
        push_item(&mut out, concat3("DROP TABLE ", table_name.as_str(), ";"));
    }
    if options.create_if_not_exists {
        let sql = create_table_sql(
            table_name.as_str(),
            structure,
            should_add_uuid_pk,
            pk_column_name.as_str(),
        );
        push_item(&mut out, sql);
    }
    if options.truncate {
        push_item(&mut out, concat3("TRUNCATE TABLE ", table_name.as_str(), ";"));
    }
    let ghost head = preparation(name.deep_view(), *options, structure.deep_view());
    assert(out.deep_view() =~= head);
    let ghost all = insertions(name.deep_view(), structure.deep_view(), rows@);
    assert(head + all.take(0) =~= head);
    let mut i: usize = 0;
    while i < rows.len()
        invariant
            i <= rows@.len(),
            forall|k: int|
                0 <= k < rows@.len() ==> (#[trigger] rows@[k]).texts@.len()
                    == structure.columns@.len(),
            all == insertions(name.deep_view(), structure.deep_view(), rows@),
            table_name@ == full_name(name.deep_view()),
            should_add_uuid_pk == adds_key(structure.deep_view()),
            pk_column_name@ == if should_add_uuid_pk {
                "id"@
            } else {
                Seq::empty()
            },
            out.deep_view() == head + all.take(i as int),
        decreases rows@.len() - i,
    {
        let sql = build_insert_sql(
            table_name.as_str(),
            &structure.columns,
            should_add_uuid_pk,
            pk_column_name.as_str(),
            &rows[i],
        );
        assert(all[i as int] == sql@);
        push_item(&mut out, sql);
        assert(out.deep_view() =~= head + all.take(i + 1));
        i = i + 1;
    }
    assert(all.take(all.len() as int) =~= all);
    out
}

// ---------------------------------------------------------------------------
// Laws
// ---------------------------------------------------------------------------

/// A table is named with its schema in front where it has one, each name in double quotes.
pub proof fn law_full_name(name: NamedObjectInfoView)
    ensures
        name.schema_name is None ==> full_name(name) == seq!['"'] + name.pure_name + seq!['"'],
        name.schema_name matches Some(schema) ==> full_name(name) == seq!['"'] + schema + seq![
            '"',
            '.',
            '"',
        ] + name.pure_name + seq!['"'],
{
    reveal_strlit("\"");
    reveal_strlit(".");
    assert("\""@ =~= seq!['"']);
    if name.schema_name is Some {
        assert(full_name(name) =~= seq!['"'] + name.schema_name->0 + seq!['"', '.', '"']
            + name.pure_name + seq!['"']);
    }
}

/// A key column is added exactly where the table names no key column, unless it has no key at all
/// and a column of its own is called `id`.
pub proof fn law_adds_key(t: TableInfoView, i: int)
    ensures
        t.primary_key matches Some(pk) ==> (adds_key(t) <==> pk.columns_constraint.columns.len()
            == 0),
        t.primary_key is None && 0 <= i < t.columns.len() && t.columns[i].column_name == seq![
            'i',
            'd',
        ] ==> !adds_key(t),
        t.primary_key is None && (forall|j: int|
            0 <= j < t.columns.len() ==> (#[trigger] t.columns[j]).column_name != seq!['i', 'd'])
            ==> adds_key(t),
{
    reveal_strlit("id");
    assert("id"@ =~= seq!['i', 'd']);
}

/// The text of an id has the form of one; no text of another length and none with a letter
/// behind `f`, or in upper case, has it.
pub proof fn law_uuid_literal(bytes: Seq<u8>, s: Seq<char>, i: int)
    requires
        bytes.len() == 16,
    ensures
        is_uuid(crate::encoding::uuid_form(bytes)),
        s.len() != 36 ==> !is_uuid(s),
        0 <= i < 36 && ('g' <= s[i] <= 'z' || 'A' <= s[i] <= 'Z' || s[i] == '\'') ==> !is_uuid(s),
        is_uuid(s) ==> s[8] == '-' && s[13] == '-' && s[18] == '-' && s[23] == '-',
        is_uuid(s) && 0 <= i < 36 && s[i] == '-' ==> i == 8 || i == 13 || i == 18 || i == 23,
{
    let u = crate::encoding::uuid_form(bytes);
    crate::encoding::law_uuid_form(bytes);
    assert forall|k: int| 0 <= k < 36 implies if is_hyphen_place(k) {
        #[trigger] u[k] == '-'
    } else {
        is_lower_hex(u[k])
    } by {
        if k < 8 {
            lemma_hex_chars(bytes.subrange(0, 4), k);
            assert(u[k] == u.subrange(0, 8)[k]);
        } else if 8 < k < 13 {
            lemma_hex_chars(bytes.subrange(4, 6), k - 9);
            assert(u[k] == u.subrange(9, 13)[k - 9]);
        } else if 13 < k < 18 {
            lemma_hex_chars(bytes.subrange(6, 8), k - 14);
            assert(u[k] == u.subrange(14, 18)[k - 14]);
        } else if 18 < k < 23 {
            lemma_hex_chars(bytes.subrange(8, 10), k - 19);
            assert(u[k] == u.subrange(19, 23)[k - 19]);
        } else if k > 23 {
            lemma_hex_chars(bytes.subrange(10, 16), k - 24);
            assert(u[k] == u.subrange(24, 36)[k - 24]);
        }
    }
    if 0 <= i < 36 && is_uuid(s) {
        assert(if is_hyphen_place(i) {
            s[i] == '-'
        } else {
            is_lower_hex(s[i])
        });
    }
    if is_uuid(s) {
        assert(s[8] == '-' && s[13] == '-' && s[18] == '-' && s[23] == '-');
    }
}

proof fn lemma_hex_chars(bytes: Seq<u8>, k: int)
    requires
        0 <= k < 2 * bytes.len(),
    ensures
        k < crate::numbers::hex(bytes).len(),
        is_lower_hex(crate::numbers::hex(bytes)[k]),
{
    crate::numbers::law_hex(bytes, k / 2);
    if k % 2 == 0 {
        assert(2 * (k / 2) == k);
    } else {
        assert(2 * (k / 2) + 1 == k);
    }
}

/// Null is written as null, whatever the column holds. A truth value, a number and a text stand
/// in quotes in a text column; elsewhere only the text does.
pub proof fn law_plain_literals(
    b: bool,
    n: int,
    s: Seq<char>,
    data_type: Option<Seq<char>>,
    texts: CellTextView,
)
    ensures
        literal(Json::Null, data_type, texts) == "null"@,
        ({
            let dt = crate::text::ascii_lower(crate::rows::or_empty(data_type));
            let textual = dt == "text"@ || dt == "varchar"@;
            &&& literal(Json::Bool(b), data_type, texts) == if textual {
                crate::text::quoted(if b {
                    "true"@
                } else {
                    "false"@
                }, '\'')
            } else if b {
                "true"@
            } else {
                "false"@
            }
            &&& literal(Json::Int(n), data_type, texts) == if textual {
                crate::text::quoted(crate::numbers::dec_int(n), '\'')
            } else {
                crate::numbers::dec_int(n)
            }
            &&& textual ==> literal(Json::Str(s), data_type, texts) == crate::text::quoted(s, '\'')
            &&& data_type is None ==> literal(Json::Str(s), data_type, texts)
                == crate::text::quoted(s, '\'')
        }),
{
    reveal_strlit("tinyint");
    reveal_strlit("smallint");
    reveal_strlit("int");
    reveal_strlit("bigint");
    reveal_strlit("varint");
    reveal_strlit("float");
    reveal_strlit("double");
    reveal_strlit("decimal");
    reveal_strlit("uuid");
    reveal_strlit("text");
    reveal_strlit("varchar");
    assert("tinyint"@.len() == 7);
    assert("smallint"@.len() == 8);
    assert("int"@.len() == 3);
    assert("bigint"@.len() == 6);
    assert("varint"@.len() == 6);
    assert("float"@.len() == 5);
    assert("double"@.len() == 6);
    assert("decimal"@.len() == 7);
    assert("uuid"@.len() == 4);
    assert("text"@.len() == 4);
    assert("varchar"@.len() == 7);
    assert("tinyint"@[0] == 't');
    assert("bigint"@[0] == 'b');
    assert("varint"@[0] == 'v');
    assert("double"@[0] == 'd');
    assert("decimal"@[0] == 'd');
    assert("uuid"@[0] == 'u');
    assert("text"@[0] == 't');
    assert("varchar"@[0] == 'v');
    if data_type is None {
        assert(crate::text::ascii_lower(Seq::<char>::empty()).len() == 0);
    }
}

/// In a number column a text is written as the number that it reads as, without quotes, and as a
/// text where it reads as none; an id stands without quotes in an id column only.
pub proof fn law_typed_literals(s: Seq<char>, data_type: Seq<char>, texts: CellTextView)
    ensures
        ({
            let dt = crate::text::ascii_lower(data_type);
            let number = dt == "tinyint"@ || dt == "smallint"@ || dt == "int"@ || dt == "bigint"@
                || dt == "varint"@ || dt == "float"@ || dt == "double"@ || dt == "decimal"@;
            let r = literal(Json::Str(s), Some(data_type), texts);
            &&& number && texts.number is Some ==> r == texts.number->0
            &&& number && texts.number is None ==> r == crate::text::quoted(s, '\'')
            &&& dt == "uuid"@ && is_uuid(s) ==> r == s
            &&& dt == "uuid"@ && !is_uuid(s) ==> r == crate::text::quoted(s, '\'')
            &&& !number && dt != "uuid"@ ==> r == crate::text::quoted(s, '\'')
        }),
{
    reveal_strlit("tinyint");
    reveal_strlit("smallint");
    reveal_strlit("int");
    reveal_strlit("bigint");
    reveal_strlit("varint");
    reveal_strlit("float");
    reveal_strlit("double");
    reveal_strlit("decimal");
    reveal_strlit("uuid");
    reveal_strlit("text");
    reveal_strlit("varchar");
    assert("tinyint"@.len() == 7);
    assert("smallint"@.len() == 8);
    assert("int"@.len() == 3);
    assert("bigint"@.len() == 6);
    assert("varint"@.len() == 6);
    assert("float"@.len() == 5);
    assert("double"@.len() == 6);
    assert("decimal"@.len() == 7);
    assert("uuid"@.len() == 4);
    assert("text"@.len() == 4);
    assert("varchar"@.len() == 7);
    assert("tinyint"@[0] == 't');
    assert("bigint"@[0] == 'b');
    assert("varint"@[0] == 'v');
    assert("double"@[0] == 'd');
    assert("decimal"@[0] == 'd');
    assert("uuid"@[0] == 'u');
    assert("text"@[0] == 't');
    assert("varchar"@[0] == 'v');
}

/// Bytes are written in hexadecimal behind `0x`; bytes that cannot be read are null.
pub proof fn law_bytes_literal(bytes: Seq<u8>, b64: Seq<char>, texts: CellTextView)
    ensures
        bytes_literal(Some(bytes)).len() == 2 + 2 * bytes.len(),
        bytes_literal(Some(bytes)).take(2) == seq!['0', 'x'],
        bytes_literal(Some(bytes)).skip(2) == crate::numbers::hex(bytes),
        bytes_literal(None) == "null"@,
        forall|v: Json|
            v is Object && (v.get("$binary"@) matches Some(inner) && inner.text("base64"@) == Some(
                b64,
            )) ==> #[trigger] literal(v, None, texts) == bytes_literal(
                crate::encoding::base64_bytes(b64),
            ),
{
    reveal_strlit("0x");
    reveal_strlit("tinyint");
    reveal_strlit("smallint");
    reveal_strlit("int");
    reveal_strlit("bigint");
    reveal_strlit("varint");
    reveal_strlit("float");
    reveal_strlit("double");
    reveal_strlit("decimal");
    reveal_strlit("uuid");
    reveal_strlit("text");
    reveal_strlit("varchar");
    assert("tinyint"@.len() == 7);
    assert("smallint"@.len() == 8);
    assert("int"@.len() == 3);
    assert("bigint"@.len() == 6);
    assert("varint"@.len() == 6);
    assert("float"@.len() == 5);
    assert("double"@.len() == 6);
    assert("decimal"@.len() == 7);
    assert("uuid"@.len() == 4);
    assert("text"@.len() == 4);
    assert("varchar"@.len() == 7);
    assert("tinyint"@[0] == 't');
    assert("bigint"@[0] == 'b');
    assert("varint"@[0] == 'v');
    assert("double"@[0] == 'd');
    assert("decimal"@[0] == 'd');
    assert("uuid"@[0] == 'u');
    assert("text"@[0] == 't');
    assert("varchar"@[0] == 'v');
    assert(crate::text::ascii_lower(Seq::<char>::empty()).len() == 0);
    if bytes.len() > 0 {
        crate::numbers::law_hex(bytes, 0);
    } else {
        assert(crate::numbers::hex(bytes).len() == 0);
    }
    assert(bytes_literal(Some(bytes)).take(2) =~= seq!['0', 'x']);
    assert(bytes_literal(Some(bytes)).skip(2) =~= crate::numbers::hex(bytes));
}

/// An insert names every column, in double quotes and in order, and gives for each the literal
/// of the cell under its name, null where the row has none; the key column, where one is added,
/// comes first and is a new id.
pub proof fn law_insert(
    table: Seq<char>,
    columns: Seq<ColumnInfoView>,
    key: Seq<char>,
    row: Json,
    texts: Seq<CellTextView>,
    i: int,
)
    requires
        columns.len() == texts.len(),
        0 <= i < columns.len(),
    ensures
        column_names(columns).len() == columns.len(),
        row_literals(columns, row, texts).len() == columns.len(),
        column_names(columns)[i] == seq!['"'] + columns[i].column_name + seq!['"'],
        row.get(columns[i].column_name) matches Some(v) ==> row_literals(columns, row, texts)[i]
            == literal(v, Some(columns[i].data_type), texts[i]),
        row.get(columns[i].column_name) is None ==> row_literals(columns, row, texts)[i]
            == "null"@,
        insert_sql(table, columns, false, key, row, texts) == "INSERT INTO "@ + table + " ("@
            + crate::text::join(column_names(columns), ", "@) + ")\n VALUES\n("@
            + crate::text::join(row_literals(columns, row, texts), ", "@) + ")"@,
        insert_sql(table, columns, true, key, row, texts) == "INSERT INTO "@ + table + " ("@ + (
        seq!['"'] + key + seq!['"'] + ", "@) + crate::text::join(column_names(columns), ", "@)
            + ")\n VALUES\n("@ + "uuid(), "@ + crate::text::join(
            row_literals(columns, row, texts),
            ", "@,
        ) + ")"@,
{
    reveal_strlit("\"");
    assert("\""@ =~= seq!['"']);
    law_plain_literals(
        true,
        0,
        Seq::empty(),
        Some(columns[i].data_type),
        texts[i],
    );
    assert(insert_sql(table, columns, false, key, row, texts) =~= "INSERT INTO "@ + table + " ("@
        + crate::text::join(column_names(columns), ", "@) + ")\n VALUES\n("@ + crate::text::join(
        row_literals(columns, row, texts),
        ", "@,
    ) + ")"@);
}

/// A new table has its columns with their types, in order; where a key column is added, it comes
/// first, and the table is keyed by it.
pub proof fn law_create(
    table: Seq<char>,
    columns: Seq<ColumnInfoView>,
    key: Seq<char>,
    add_key: bool,
    i: int,
)
    requires
        0 <= i < columns.len(),
    ensures
        create_sql(table, columns, add_key, key) == "CREATE TABLE "@ + table + " ("@
            + crate::text::join(table_defs(columns, add_key, key), ", "@) + ");"@,
        table_defs(columns, false, key).len() == columns.len(),
        table_defs(columns, false, key)[i] == seq!['"'] + columns[i].column_name + seq!['"', ' ']
            + columns[i].data_type,
        table_defs(columns, true, key).len() == columns.len() + 2,
        table_defs(columns, true, key)[0] == seq!['"'] + key + seq!['"'] + " uuid"@,
        table_defs(columns, true, key)[i + 1] == seq!['"'] + columns[i].column_name + seq![
            '"',
            ' ',
        ] + columns[i].data_type,
        table_defs(columns, true, key).last() == "PRIMARY KEY ("@ + (seq!['"'] + key + seq!['"'])
            + ")"@,
{
    reveal_strlit("\"");
    reveal_strlit(" ");
    assert("\""@ =~= seq!['"']);
    assert(column_defs(columns)[i] =~= seq!['"'] + columns[i].column_name + seq!['"', ' ']
        + columns[i].data_type);
}

/// Before the rows, the table is dropped, made and emptied, in this order, each only where it is
/// asked for; then every row is inserted, in order.
pub proof fn law_statements(
    name: NamedObjectInfoView,
    options: WriteTableOptions,
    structure: TableInfoView,
    rows: Seq<InsertRow>,
    i: int,
)
    ensures
        ({
            let drop = "DROP TABLE "@ + full_name(name) + ";"@;
            let empty = "TRUNCATE TABLE "@ + full_name(name) + ";"@;
            let p = preparation(name, options, structure);
            let n = (if options.drop_if_exists {
                1int
            } else {
                0
            }) + (if options.create_if_not_exists {
                1int
            } else {
                0
            }) + (if options.truncate {
                1int
            } else {
                0
            });
            &&& p.len() == n
            &&& options.drop_if_exists ==> p[0] == drop
            &&& options.truncate ==> p.last() == empty
            &&& options.create_if_not_exists ==> p[if options.drop_if_exists {
                1
            } else {
                0
            }] == create_sql(
                full_name(name),
                structure.columns,
                adds_key(structure),
                if adds_key(structure) {
                    "id"@
                } else {
                    Seq::empty()
                },
            )
        }),
        insertions(name, structure, rows).len() == rows.len(),
        0 <= i < rows.len() ==> insertions(name, structure, rows)[i] == insert_sql(
            full_name(name),
            structure.columns,
            adds_key(structure),
            if adds_key(structure) {
                "id"@
            } else {
                Seq::empty()
            },
            rows[i].row@,
            rows[i].texts.deep_view(),
        ),
{
}

} // verus!
