//! Query result model. Rows are represented as JSON values. Columns carry the
//! metadata the frontend needs to render and edit data.
use vstd::prelude::*;

use crate::rows::{map_list, new_list};
use crate::value::{add_member, array_value, no_members, object_value, Json, Value};

verus! {

/// Metadata for a single column in a query result.
#[derive(Debug, Clone)]
pub struct QueryResultColumn {
    pub column_name: String,
    pub data_type: Option<String>,
    pub table_name: Option<String>,
    pub table_schema: Option<String>,
    pub source_column_name: Option<String>,
    pub display: Option<String>,
    /// Alias used by the UI when rendering.
    pub is_primary_key: Option<bool>,
}

/// What a [`QueryResultColumn`] holds.
pub struct QueryResultColumnView {
    pub column_name: Seq<char>,
    pub data_type: Option<Seq<char>>,
    pub table_name: Option<Seq<char>>,
    pub table_schema: Option<Seq<char>>,
    pub source_column_name: Option<Seq<char>>,
    pub display: Option<Seq<char>>,
    pub is_primary_key: Option<bool>,
}

impl DeepView for QueryResultColumn {
    type V = QueryResultColumnView;

    open spec fn deep_view(&self) -> QueryResultColumnView {
        QueryResultColumnView {
            column_name: self.column_name@,
            data_type: self.data_type.deep_view(),
            table_name: self.table_name.deep_view(),
            table_schema: self.table_schema.deep_view(),
            source_column_name: self.source_column_name.deep_view(),
            display: self.display.deep_view(),
            is_primary_key: self.is_primary_key,
        }
    }
}

/// A result column of which only the name and the type are known.
pub open spec fn plain_column(
    name: Seq<char>,
    data_type: Option<Seq<char>>,
) -> QueryResultColumnView {
    QueryResultColumnView {
        column_name: name,
        data_type,
        table_name: None,
        table_schema: None,
        source_column_name: None,
        display: None,
        is_primary_key: None,
    }
}

impl Default for QueryResultColumn {
    fn default() -> (r: Self)
        ensures
            r.deep_view() == plain_column(Seq::empty(), None),
    {
        QueryResultColumn {
            column_name: String::new(),
            data_type: None,
            table_name: None,
            table_schema: None,
            source_column_name: None,
            display: None,
            is_primary_key: None,
        }
    }
}

impl QueryResultColumn {
    /// A column of which only the name and the type are known.
    pub fn plain(column_name: String, data_type: Option<String>) -> (r: Self)
        ensures
            r.deep_view() == plain_column(column_name@, data_type.deep_view()),
    {
        QueryResultColumn {
            column_name,
            data_type,
            table_name: None,
            table_schema: None,
            source_column_name: None,
            display: None,
            is_primary_key: None,
        }
    }
}

/// The member of an object with the given text, where there is one.
pub open spec fn text_member(key: Seq<char>, t: Option<Seq<char>>) -> Seq<(Seq<char>, Json)> {
    match t {
        Some(s) => seq![(key, Json::Str(s))],
        None => Seq::empty(),
    }
}

/// The JSON form of the metadata of a column: what is not known is left out.
pub open spec fn column_json(c: QueryResultColumnView) -> Json {
    Json::Object(
        seq![("columnName"@, Json::Str(c.column_name))] + text_member("dataType"@, c.data_type)
            + text_member("tableName"@, c.table_name) + text_member("tableSchema"@, c.table_schema)
            + text_member("sourceColumnName"@, c.source_column_name) + text_member(
            "display"@,
            c.display,
        ) + match c.is_primary_key {
            Some(b) => seq![("isPrimaryKey"@, Json::Bool(b))],
            None => Seq::empty(),
        },
    )
}

fn add_text(members: &mut Vec<(String, Value)>, key: &str, t: &Option<String>)
    ensures
        crate::value::entries(final(members)@) == crate::value::entries(old(members)@)
            + text_member(key@, t.deep_view()),
{
    if let Some(s) = t {
        add_member(members, key, Value::Str(s.clone()));
    }
    assert(crate::value::entries(members@) =~= crate::value::entries(old(members)@) + text_member(
        key@,
        t.deep_view(),
    ));
}

/// The JSON form of the metadata of a column.
pub fn column_value(c: &QueryResultColumn) -> (r: Value)
    ensures
        r@ == column_json(c.deep_view()),
{
    let mut members = no_members();
    add_member(&mut members, "columnName", Value::Str(c.column_name.clone()));
    assert(crate::value::entries(members@) =~= seq![("columnName"@, Json::Str(c.column_name@))]);
    add_text(&mut members, "dataType", &c.data_type);
    add_text(&mut members, "tableName", &c.table_name);
    add_text(&mut members, "tableSchema", &c.table_schema);
    add_text(&mut members, "sourceColumnName", &c.source_column_name);
    add_text(&mut members, "display", &c.display);
    if let Some(b) = c.is_primary_key {
        add_member(&mut members, "isPrimaryKey", Value::Bool(b));
    }
    assert(crate::value::entries(members@) =~= column_json(c.deep_view())->Object_0);
    object_value(members)
}

/// The JSON forms of some columns.
pub open spec fn columns_json(columns: Seq<QueryResultColumnView>) -> Json {
    Json::Array(Seq::new(columns.len(), |i: int| column_json(columns[i])))
}

/// The JSON form of the metadata of some columns.
pub fn columns_value(columns: &Vec<QueryResultColumn>) -> (r: Value)
    ensures
        r@ == columns_json(columns.deep_view()),
{
    let f = |c: &QueryResultColumn| -> (v: Value)
        ensures
            v@ == column_json(c.deep_view()),
    {
        column_value(c)
    };
    let items = map_list(columns, f);
    assert(items.deep_view() =~= columns_json(columns.deep_view())->Array_0);
    array_value(items)
}

/// A full query result: rows + column metadata.
pub struct QueryResult {
    pub rows: Vec<Value>,
    pub columns: Vec<QueryResultColumn>,
}

/// What a [`QueryResult`] holds.
pub struct QueryResultView {
    pub rows: Seq<Json>,
    pub columns: Seq<QueryResultColumnView>,
}

impl DeepView for QueryResult {
    type V = QueryResultView;

    open spec fn deep_view(&self) -> QueryResultView {
        QueryResultView { rows: self.rows.deep_view(), columns: self.columns.deep_view() }
    }
}

impl Default for QueryResult {
    fn default() -> (r: Self)
        ensures
            r.deep_view() == (QueryResultView { rows: Seq::empty(), columns: Seq::empty() }),
    {
        QueryResult::empty()
    }
}

impl QueryResult {
    pub fn empty() -> (r: Self)
        ensures
            r.deep_view() == (QueryResultView { rows: Seq::empty(), columns: Seq::empty() }),
    {
        QueryResult { rows: new_list(), columns: new_list() }
    }

    /// The JSON form of the result: `{"rows": .., "columns": ..}`.
    pub fn to_value(self) -> (r: Value)
        ensures
            r@ == Json::Object(
                seq![
                    ("rows"@, Json::Array(self.rows.deep_view())),
                    ("columns"@, columns_json(self.columns.deep_view())),
                ],
            ),
    {
        let ghost rows = self.rows.deep_view();
        let columns = columns_value(&self.columns);
        let mut members = no_members();
        add_member(&mut members, "rows", array_value(self.rows));
        add_member(&mut members, "columns", columns);
        assert(crate::value::entries(members@) =~= seq![
            ("rows"@, Json::Array(rows)),
            ("columns"@, columns@),
        ]);
        object_value(members)
    }
}

// ---------------------------------------------------------------------------
// Laws
// ---------------------------------------------------------------------------

/// A column of a result is written member by member: each member that it has stands under its
/// own name, and what it does not have is left out.
#[verifier::rlimit(40)]
pub proof fn law_column_members(c: QueryResultColumnView)
    ensures
        column_json(c).text("columnName"@) == Some(c.column_name),
        column_json(c).text("dataType"@) == c.data_type,
        column_json(c).text("tableName"@) == c.table_name,
        column_json(c).text("tableSchema"@) == c.table_schema,
        column_json(c).text("sourceColumnName"@) == c.source_column_name,
        column_json(c).text("display"@) == c.display,
        column_json(c).flag("isPrimaryKey"@) == c.is_primary_key,
{
    reveal_strlit("columnName");
    reveal_strlit("dataType");
    reveal_strlit("tableName");
    reveal_strlit("tableSchema");
    reveal_strlit("sourceColumnName");
    reveal_strlit("display");
    reveal_strlit("isPrimaryKey");
    assert("columnName"@.len() == 10);
    assert("dataType"@.len() == 8);
    assert("tableName"@.len() == 9);
    assert("tableSchema"@.len() == 11);
    assert("sourceColumnName"@.len() == 16);
    assert("display"@.len() == 7);
    assert("isPrimaryKey"@.len() == 12);
    let m0 = seq![("columnName"@, Json::Str(c.column_name))];
    let m1 = m0 + text_member("dataType"@, c.data_type);
    let m2 = m1 + text_member("tableName"@, c.table_name);
    let m3 = m2 + text_member("tableSchema"@, c.table_schema);
    let m4 = m3 + text_member("sourceColumnName"@, c.source_column_name);
    let m5 = m4 + text_member("display"@, c.display);
    let last = match c.is_primary_key {
        Some(b) => seq![("isPrimaryKey"@, Json::Bool(b))],
        None => Seq::empty(),
    };
    assert forall|key: Seq<char>| #[trigger]
        column_json(c).get(key) == first_of(
            first_of(
                first_of(
                    first_of(
                        first_of(
                            first_of(
                                crate::value::find_key(m0, key),
                                crate::value::find_key(text_member("dataType"@, c.data_type), key),
                            ),
                            crate::value::find_key(text_member("tableName"@, c.table_name), key),
                        ),
                        crate::value::find_key(text_member("tableSchema"@, c.table_schema), key),
                    ),
                    crate::value::find_key(
                        text_member("sourceColumnName"@, c.source_column_name),
                        key,
                    ),
                ),
                crate::value::find_key(text_member("display"@, c.display), key),
            ),
            crate::value::find_key(last, key),
        ) by {
        lemma_members(m0, text_member("dataType"@, c.data_type), key);
        lemma_members(m1, text_member("tableName"@, c.table_name), key);
        lemma_members(m2, text_member("tableSchema"@, c.table_schema), key);
        lemma_members(m3, text_member("sourceColumnName"@, c.source_column_name), key);
        lemma_members(m4, text_member("display"@, c.display), key);
        lemma_members(m5, last, key);
    }
    reveal_with_fuel(crate::value::find_key, 2);
}

/// The members of two lists: what the first holds counts.
proof fn lemma_members(a: Seq<(Seq<char>, Json)>, b: Seq<(Seq<char>, Json)>, key: Seq<char>)
    ensures
        crate::value::find_key(a + b, key) == match crate::value::find_key(a, key) {
            Some(v) => Some(v),
            None => crate::value::find_key(b, key),
        },
    decreases a.len(),
{
    if a.len() == 0 {
        assert(a + b =~= b);
    } else if a[0].0 != key {
        lemma_members(a.drop_first(), b, key);
        assert((a + b).drop_first() =~= a.drop_first() + b);
    }
}

spec fn first_of(a: Option<Json>, b: Option<Json>) -> Option<Json> {
    match a {
        Some(v) => Some(v),
        None => b,
    }
}

/// The columns of a result are written in their order.
pub proof fn law_columns(columns: Seq<QueryResultColumnView>, i: int)
    ensures
        columns_json(columns) matches Json::Array(a) && a.len() == columns.len() && (0 <= i
            < columns.len() ==> a[i] == column_json(columns[i])),
{
}

/// A plain column has a name and a type and nothing else.
pub proof fn law_plain_column(name: Seq<char>, data_type: Option<Seq<char>>)
    ensures
        ({
            let c = plain_column(name, data_type);
            &&& c.column_name == name
            &&& c.data_type == data_type
            &&& c.table_name is None
            &&& c.table_schema is None
            &&& c.source_column_name is None
            &&& c.display is None
            &&& c.is_primary_key is None
        }),
{
}

} // verus!
