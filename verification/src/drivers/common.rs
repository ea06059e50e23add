//! Pieces of the database model that the drivers build alike.
use vstd::prelude::*;

use crate::dbinfo::{
    ColumnReference, ColumnReferenceView, ColumnsConstraintInfo, ColumnsConstraintInfoView,
    ConstraintInfo, ConstraintInfoView, ConstraintType, DatabaseObjectInfo, DatabaseObjectInfoView,
    ForeignKeyInfo, ForeignKeyInfoView, ParameterInfo, ParameterInfoView, ParameterMode,
    PrimaryKeyInfo, PrimaryKeyInfoView, SqlObjectInfo, SqlObjectInfoView, TriggerTiming,
};
use crate::rows::{
    get_str, get_text, group_names, group_of, group_rows, map_list, new_list, or_empty, push_item,
    text_is,
};
use crate::text::{concat2, concat3, joined, same};
use crate::value::{Json, Value};

verus! {

/// A reference to a column, and nothing more.
pub open spec fn plain_ref(name: Seq<char>) -> ColumnReferenceView {
    ColumnReferenceView {
        column_name: name,
        ref_column_name: None,
        is_included_column: None,
        is_descending: None,
    }
}

/// References to the columns that rows name under `key`.
pub open spec fn refs_under(rows: Seq<Json>, key: Seq<char>) -> Seq<ColumnReferenceView> {
    Seq::new(rows.len(), |i: int| plain_ref(or_empty(rows[i].text(key))))
}

/// Whether the value under `key` is `true` or 1.
pub open spec fn is_flagged(row: Json, key: Seq<char>) -> bool {
    row.flag(key) == Some(true) || row.int64(key) == Some(1i64)
}

/// Whether the value under `key` is `true` or 1.
pub fn flagged(row: &Value, key: &str) -> (r: bool)
    ensures
        r == is_flagged(row@, key@),
{
    let by_flag = match row.flag(key) {
        Some(b) => b,
        None => false,
    };
    by_flag || match row.int64(key) {
        Some(n) => n == 1,
        None => false,
    }
}

/// The reference that a row describes: the column under `key`, the column that
/// it refers to under `target`, and its direction under `descending`.
pub open spec fn ref_of(
    row: Json,
    key: Seq<char>,
    target: Option<Seq<char>>,
    descending: Option<Seq<char>>,
) -> ColumnReferenceView {
    ColumnReferenceView {
        column_name: or_empty(row.text(key)),
        ref_column_name: match target {
            Some(t) => row.text(t),
            None => None,
        },
        is_included_column: None,
        is_descending: match descending {
            Some(d) => Some(is_flagged(row, d)),
            None => None,
        },
    }
}

/// The references that rows describe.
pub open spec fn refs_of(
    rows: Seq<Json>,
    key: Seq<char>,
    target: Option<Seq<char>>,
    descending: Option<Seq<char>>,
) -> Seq<ColumnReferenceView> {
    Seq::new(rows.len(), |i: int| ref_of(rows[i], key, target, descending))
}

/// A constraint over columns.
pub open spec fn over_columns(
    kind: ConstraintType,
    name: Option<Seq<char>>,
    columns: Seq<ColumnReferenceView>,
) -> ColumnsConstraintInfoView {
    ColumnsConstraintInfoView {
        constraint: ConstraintInfoView {
            pairing_id: None,
            constraint_name: name,
            constraint_type: kind,
        },
        columns,
    }
}

pub fn constraint_over(
    kind: ConstraintType,
    name: Option<String>,
    columns: Vec<ColumnReference>,
) -> (r: ColumnsConstraintInfo)
    ensures
        r.deep_view() == over_columns(kind, name.deep_view(), columns.deep_view()),
{
    ColumnsConstraintInfo {
        constraint: ConstraintInfo {
            pairing_id: None,
            constraint_name: name,
            constraint_type: kind,
        },
        columns,
    }
}

pub fn plain_reference(name: String) -> (r: ColumnReference)
    ensures
        r.deep_view() == plain_ref(name@),
{
    ColumnReference {
        column_name: name,
        ref_column_name: None,
        is_included_column: None,
        is_descending: None,
    }
}

/// References to the columns that rows name under `key`.
pub fn column_refs(rows: &Vec<&Value>, key: &str) -> (r: Vec<ColumnReference>)
    ensures
        r.deep_view() == refs_under(rows.deep_view(), key@),
{
    let f = |row: &&Value| -> (c: ColumnReference)
        ensures
            c.deep_view() == plain_ref(or_empty(row.deep_view().text(key@))),
    {
        plain_reference(get_text(row, key))
    };
    let r = map_list(rows, f);
    assert(r.deep_view() =~= refs_under(rows.deep_view(), key@));
    r
}

/// The references that rows describe.
pub fn build_refs(
    rows: &Vec<&Value>,
    key: &str,
    target: Option<&str>,
    descending: Option<&str>,
) -> (r: Vec<ColumnReference>)
    ensures
        r.deep_view() == refs_of(
            rows.deep_view(),
            key@,
            crate::value::opt_str(target),
            crate::value::opt_str(descending),
        ),
{
    let f = |row: &&Value| -> (c: ColumnReference)
        ensures
            c.deep_view() == ref_of(
                row.deep_view(),
                key@,
                crate::value::opt_str(target),
                crate::value::opt_str(descending),
            ),
    {
        ColumnReference {
            column_name: get_text(row, key),
            ref_column_name: match target {
                Some(t) => get_str(row, t),
                None => None,
            },
            is_included_column: None,
            is_descending: match descending {
                Some(d) => Some(flagged(row, d)),
                None => None,
            },
        }
    };
    let r = map_list(rows, f);
    assert(r.deep_view() =~= refs_of(
        rows.deep_view(),
        key@,
        crate::value::opt_str(target),
        crate::value::opt_str(descending),
    ));
    r
}

/// The primary key that rows describe: none where there are no rows, else one
/// with the name that the first row gives and a column for each row.
pub open spec fn primary_key_of(
    rows: Seq<Json>,
    name_key: Seq<char>,
    column_key: Seq<char>,
) -> Option<PrimaryKeyInfoView> {
    if rows.len() == 0 {
        None
    } else {
        Some(
            PrimaryKeyInfoView {
                columns_constraint: over_columns(
                    ConstraintType::PrimaryKey,
                    rows[0].text(name_key),
                    refs_under(rows, column_key),
                ),
            },
        )
    }
}

pub fn primary_key_from(rows: &Vec<&Value>, name_key: &str, column_key: &str) -> (r: Option<
    PrimaryKeyInfo,
>)
    ensures
        r.deep_view() == primary_key_of(rows.deep_view(), name_key@, column_key@),
{
    if rows.len() == 0 {
        return None;
    }
    let name = get_str(rows[0], name_key);
    Some(
        PrimaryKeyInfo {
            columns_constraint: constraint_over(
                ConstraintType::PrimaryKey,
                name,
                column_refs(rows, column_key),
            ),
        },
    )
}

/// A database object of which the name, the schema, the id and the hash are
/// known.
pub open spec fn object_with(
    pure_name: Seq<char>,
    schema_name: Option<Seq<char>>,
    object_id: Option<Seq<char>>,
    hash_code: Option<Seq<char>>,
) -> DatabaseObjectInfoView {
    DatabaseObjectInfoView {
        pure_name,
        schema_name,
        pairing_id: None,
        object_id,
        create_date: None,
        modify_date: None,
        hash_code,
        object_type_field: None,
        object_comment: None,
    }
}

pub fn object_info(
    pure_name: String,
    schema_name: Option<String>,
    object_id: Option<String>,
    hash_code: Option<String>,
) -> (r: DatabaseObjectInfo)
    ensures
        r.deep_view() == object_with(
            pure_name@,
            schema_name.deep_view(),
            object_id.deep_view(),
            hash_code.deep_view(),
        ),
{
    DatabaseObjectInfo {
        pure_name,
        schema_name,
        pairing_id: None,
        object_id,
        create_date: None,
        modify_date: None,
        hash_code,
        object_type_field: None,
        object_comment: None,
    }
}

/// An object with its DDL.
pub open spec fn sql_object_with(
    object: DatabaseObjectInfoView,
    create_sql: Option<Seq<char>>,
) -> SqlObjectInfoView {
    SqlObjectInfoView { object, create_sql, requires_format: None }
}

pub fn sql_object(object: DatabaseObjectInfo, create_sql: Option<String>) -> (r: SqlObjectInfo)
    ensures
        r.deep_view() == sql_object_with(object.deep_view(), create_sql.deep_view()),
{
    SqlObjectInfo { object, create_sql, requires_format: None }
}

/// The keys under which a driver's rows describe foreign keys.
pub struct ForeignKeyFields<'a> {
    pub constraint_name: &'a str,
    pub column_name: &'a str,
    pub ref_column_name: &'a str,
    pub ref_schema_name: Option<&'a str>,
    pub ref_table_name: &'a str,
    pub update_action: Option<&'a str>,
    pub delete_action: Option<&'a str>,
    pub is_descending: Option<&'a str>,
    /// Whether an action that a row does not give counts as the empty text.
    pub empty_actions: bool,
}

/// The action that a row gives under `key`.
pub open spec fn action_of(row: Json, key: Option<&str>, empty_actions: bool) -> Option<Seq<char>> {
    match key {
        Some(k) => if empty_actions {
            Some(or_empty(row.text(k@)))
        } else {
            row.text(k@)
        },
        None => None,
    }
}

fn get_action(row: &Value, key: Option<&str>, empty_actions: bool) -> (r: Option<String>)
    ensures
        r.deep_view() == action_of(row@, key, empty_actions),
{
    match key {
        Some(k) => if empty_actions {
            Some(get_text(row, k))
        } else {
            get_str(row, k)
        },
        None => None,
    }
}

/// The foreign key that a group of rows describes: a column pair for each row,
/// everything else from the first.
pub open spec fn foreign_key_of(
    name: Seq<char>,
    group: Seq<Json>,
    keys: ForeignKeyFields,
) -> ForeignKeyInfoView {
    ForeignKeyInfoView {
        columns_constraint: over_columns(
            ConstraintType::ForeignKey,
            Some(name),
            refs_of(
                group,
                keys.column_name@,
                Some(keys.ref_column_name@),
                crate::value::opt_str(keys.is_descending),
            ),
        ),
        ref_schema_name: match keys.ref_schema_name {
            Some(key) => group[0].text(key@),
            None => None,
        },
        ref_table_name: or_empty(group[0].text(keys.ref_table_name@)),
        update_action: action_of(group[0], keys.update_action, keys.empty_actions),
        delete_action: action_of(group[0], keys.delete_action, keys.empty_actions),
    }
}

/// The foreign keys that rows describe, one for each constraint name, in the
/// order in which the names first occur.
pub open spec fn foreign_keys_of(rows: Seq<Json>, keys: ForeignKeyFields) -> Seq<
    ForeignKeyInfoView,
> {
    let names = group_names(rows, keys.constraint_name@);
    Seq::new(
        names.len(),
        |i: int|
            foreign_key_of(names[i], group_of(rows, keys.constraint_name@, names[i]), keys),
    )
}

/// The foreign keys that rows describe.
pub fn foreign_keys_from(rows: &Vec<&Value>, keys: &ForeignKeyFields) -> (r: Vec<ForeignKeyInfo>)
    ensures
        r.deep_view() == foreign_keys_of(rows.deep_view(), *keys),
{
    let groups = group_rows(rows, keys.constraint_name);
    let mut out: Vec<ForeignKeyInfo> = Vec::new();
    let mut i: usize = 0;
    while i < groups.len()
        invariant
            i <= groups@.len(),
            groups@.len() == group_names(rows.deep_view(), keys.constraint_name@).len(),
            forall|k: int|
                0 <= k < groups@.len() ==> (#[trigger] groups@[k]).0@ == group_names(
                    rows.deep_view(),
                    keys.constraint_name@,
                )[k] && groups@[k].1.deep_view() == group_of(
                    rows.deep_view(),
                    keys.constraint_name@,
                    groups@[k].0@,
                ) && groups@[k].1@.len() > 0,
            out@.len() == i,
            forall|k: int|
                0 <= k < i ==> (#[trigger] out@[k]).deep_view() == foreign_keys_of(
                    rows.deep_view(),
                    *keys,
                )[k],
        decreases groups@.len() - i,
    {
        let group = &groups[i].1;
        let first: &Value = group[0];
        let key = ForeignKeyInfo {
            columns_constraint: constraint_over(
                ConstraintType::ForeignKey,
                Some(groups[i].0.clone()),
                build_refs(
                    group,
                    keys.column_name,
                    Some(keys.ref_column_name),
                    keys.is_descending,
                ),
            ),
            ref_schema_name: match keys.ref_schema_name {
                Some(key) => get_str(first, key),
                None => None,
            },
            ref_table_name: get_text(first, keys.ref_table_name),
            update_action: get_action(first, keys.update_action, keys.empty_actions),
            delete_action: get_action(first, keys.delete_action, keys.empty_actions),
        };
        assert(group.deep_view()[0] == first@);
        assert(key.deep_view() == foreign_keys_of(rows.deep_view(), *keys)[i as int]);
        out.push(key);
        i = i + 1;
    }
    assert(out.deep_view() =~= foreign_keys_of(rows.deep_view(), *keys));
    out
}

/// The mode that a text names.
pub open spec fn mode_named(mode: Option<Seq<char>>) -> ParameterMode {
    if mode == Some("OUT"@) {
        ParameterMode::Out
    } else if mode == Some("INOUT"@) {
        ParameterMode::InOut
    } else if mode == Some("RETURN"@) {
        ParameterMode::Return
    } else {
        ParameterMode::In
    }
}

/// The mode that a row gives under `key`.
pub fn parameter_mode(row: &Value, key: &str) -> (r: ParameterMode)
    ensures
        r == mode_named(row@.text(key@)),
{
    if text_is(row, key, "OUT") {
        ParameterMode::Out
    } else if text_is(row, key, "INOUT") {
        ParameterMode::InOut
    } else if text_is(row, key, "RETURN") {
        ParameterMode::Return
    } else {
        ParameterMode::In
    }
}

/// A parameter as DDL: its mode, its name, and the given text of its type where it
/// has one.
pub open spec fn parameter_ddl_with(p: ParameterInfoView, upper_type: Seq<char>) -> Seq<char> {
    let prefix = if p.parameter_mode == Some(ParameterMode::Out) {
        "OUT "@
    } else if p.parameter_mode == Some(ParameterMode::InOut) {
        "INOUT "@
    } else if p.parameter_mode == Some(ParameterMode::In) {
        "IN "@
    } else {
        ""@
    };
    let suffix = if p.data_type.len() == 0 {
        Seq::empty()
    } else {
        " "@ + upper_type
    };
    prefix + p.parameter_name + suffix
}

/// A parameter as DDL: its mode, its name, its type in capital letters.
pub open spec fn parameter_ddl(p: ParameterInfoView) -> Seq<char> {
    parameter_ddl_with(p, crate::encoding::uppercase(p.data_type))
}

/// A parameter as DDL, given its type in capital letters.
pub fn parameter_ddl_entry(p: &ParameterInfo, upper_type: &str) -> (r: String)
    ensures
        r@ == parameter_ddl_with(p.deep_view(), upper_type@),
{
    let prefix = match p.parameter_mode {
        Some(ParameterMode::Out) => "OUT ",
        Some(ParameterMode::InOut) => "INOUT ",
        Some(ParameterMode::In) => "IN ",
        _ => "",
    };
    let suffix = if p.data_type.as_str().is_empty() {
        String::new()
    } else {
        concat2(" ", upper_type)
    };
    concat3(prefix, p.parameter_name.as_str(), suffix.as_str())
}

/// The timing of a trigger, given its name in capital letters.
pub open spec fn timing_in(upper: Seq<char>) -> TriggerTiming {
    if upper == "AFTER"@ {
        TriggerTiming::After
    } else if upper == "INSTEAD OF"@ {
        TriggerTiming::InsteadOf
    } else {
        TriggerTiming::Before
    }
}

/// The timing of a trigger, given its name in capital letters.
pub fn trigger_timing(upper: &str) -> (r: TriggerTiming)
    ensures
        r == timing_in(upper@),
{
    if same(upper, "AFTER") {
        TriggerTiming::After
    } else if same(upper, "INSTEAD OF") {
        TriggerTiming::InsteadOf
    } else {
        TriggerTiming::Before
    }
}

/// A parameter list as DDL.
pub open spec fn parameters_ddl(params: Seq<ParameterInfoView>) -> Seq<char> {
    crate::text::join(Seq::new(params.len(), |i: int| parameter_ddl(params[i])), ", "@)
}

/// A parameter list as DDL, the mode of input parameters spelled out.
pub fn parameters_ddl_string(parameters: &Vec<ParameterInfo>) -> (r: String)
    ensures
        r@ == parameters_ddl(parameters.deep_view()),
{
    let f = |p: &ParameterInfo| -> (t: String)
        ensures
            t@ == parameter_ddl(p.deep_view()),
    { parameter_ddl_entry(p, p.data_type.as_str().to_uppercase().as_str()) };
    let parts = map_list(parameters, f);
    assert(crate::text::texts(parts@) =~= Seq::new(
        parameters.deep_view().len(),
        |i: int| parameter_ddl(parameters.deep_view()[i]),
    ));
    joined(&parts, ", ")
}

/// A list with one item.
pub fn list_of_one<T: DeepView>(item: T) -> (r: Vec<T>)
    ensures
        r.deep_view() == seq![item.deep_view()],
{
    let mut out: Vec<T> = new_list();
    push_item(&mut out, item);
    assert(out.deep_view() =~= seq![item.deep_view()]);
    out
}

/// The condition that selects one object by its id, or every object.
pub open spec fn id_condition(id: Option<Seq<char>>) -> Seq<char> {
    match id {
        Some(id) => " = '"@ + id + "'"@,
        None => " is not null"@,
    }
}

pub fn object_id_condition(id: Option<&str>) -> (r: String)
    ensures
        r@ == id_condition(crate::value::opt_str(id)),
{
    match id {
        Some(id) => concat3(" = '", id, "'"),
        None => " is not null".to_owned(),
    }
}

// ---------------------------------------------------------------------------
// Laws
// ---------------------------------------------------------------------------

/// Rows of a primary key make up one key with their columns, in their order, under the
/// name that the first row gives; no rows make up none.
pub proof fn law_primary_key(rows: Seq<Json>, name_key: Seq<char>, column_key: Seq<char>, i: int)
    ensures
        primary_key_of(rows, name_key, column_key) is Some <==> rows.len() > 0,
        primary_key_of(rows, name_key, column_key) matches Some(pk) ==> {
            let c = pk.columns_constraint;
            &&& c.constraint.constraint_type == ConstraintType::PrimaryKey
            &&& c.constraint.constraint_name == rows[0].text(name_key)
            &&& c.columns.len() == rows.len()
            &&& 0 <= i < rows.len() && rows[i].text(column_key) is Some ==> c.columns[i].column_name
                == rows[i].text(column_key)->0
        },
{
}

/// Whether a flag is set: by true or by one, and by nothing else.
pub proof fn law_flagged(row: Json, key: Seq<char>)
    ensures
        row.get(key) == Some(Json::Bool(true)) ==> is_flagged(row, key),
        row.get(key) == Some(Json::Bool(false)) ==> !is_flagged(row, key),
        row.get(key) matches Some(Json::Int(n)) ==> (is_flagged(row, key) <==> n == 1),
        row.get(key) is None ==> !is_flagged(row, key),
{
}

/// A row with the name of a key that rows before it have begun adds its column to that
/// key and changes nothing else.
pub proof fn law_foreign_key_continued(
    rows: Seq<Json>,
    r: Json,
    keys: ForeignKeyFields,
    k: int,
)
    requires
        0 <= k < foreign_keys_of(rows, keys).len(),
        r.text(keys.constraint_name@) is Some,
        foreign_keys_of(rows, keys)[k].columns_constraint.constraint.constraint_name == r.text(
            keys.constraint_name@,
        ),
    ensures
        ({
            let before = foreign_keys_of(rows, keys);
            let after = foreign_keys_of(rows.push(r), keys);
            &&& after.len() == before.len()
            &&& forall|j: int| 0 <= j < before.len() && j != k ==> #[trigger] after[j] == before[j]
            &&& after[k].ref_table_name == before[k].ref_table_name
            &&& after[k].update_action == before[k].update_action
            &&& after[k].delete_action == before[k].delete_action
            &&& after[k].columns_constraint.constraint == before[k].columns_constraint.constraint
            &&& after[k].columns_constraint.columns.len()
                == before[k].columns_constraint.columns.len() + 1
            &&& after[k].columns_constraint.columns.drop_last()
                == before[k].columns_constraint.columns
            &&& r.text(keys.column_name@) matches Some(c)
                ==> after[k].columns_constraint.columns.last().column_name == c
            &&& after[k].columns_constraint.columns.last().ref_column_name == r.text(
                keys.ref_column_name@,
            )
        }),
{
    let key = keys.constraint_name@;
    let name = r.text(key)->0;
    let names = group_names(rows, key);
    let before = foreign_keys_of(rows, keys);
    let after = foreign_keys_of(rows.push(r), keys);
    assert(names[k] == name);
    assert(names.contains(name));
    crate::rows::law_group_push(rows, r, key, name);
    crate::rows::law_groups(rows, key, r, name);
    let g = group_of(rows, key, name);
    assert(group_of(rows.push(r), key, name) == g.push(r));
    assert(g.push(r)[0] == g[0]);
    assert forall|j: int| 0 <= j < before.len() && j != k implies #[trigger] after[j]
        == before[j] by {
        assert(names[j] != names[k]);
        crate::rows::law_group_push(rows, r, key, names[j]);
    }
    assert(after[k].columns_constraint.columns.drop_last()
        =~= before[k].columns_constraint.columns);
}

/// A row with a name that no key before it has begins a key: with its column, the
/// column and the table that it refers to, and its actions.
pub proof fn law_foreign_key_begun(rows: Seq<Json>, r: Json, keys: ForeignKeyFields)
    requires
        r.text(keys.constraint_name@) is Some,
        forall|j: int|
            0 <= j < foreign_keys_of(rows, keys).len() ==> (#[trigger] foreign_keys_of(
                rows,
                keys,
            )[j]).columns_constraint.constraint.constraint_name != r.text(keys.constraint_name@),
    ensures
        ({
            let before = foreign_keys_of(rows, keys);
            let after = foreign_keys_of(rows.push(r), keys);
            let k = after.last();
            &&& after.len() == before.len() + 1
            &&& after.drop_last() == before
            &&& k.columns_constraint.constraint.constraint_name == r.text(keys.constraint_name@)
            &&& k.columns_constraint.constraint.constraint_type == ConstraintType::ForeignKey
            &&& k.columns_constraint.columns.len() == 1
            &&& r.text(keys.column_name@) matches Some(c)
                ==> k.columns_constraint.columns[0].column_name == c
            &&& k.columns_constraint.columns[0].ref_column_name == r.text(keys.ref_column_name@)
            &&& r.text(keys.ref_table_name@) matches Some(t) ==> k.ref_table_name == t
            &&& keys.ref_schema_name matches Some(s) ==> k.ref_schema_name == r.text(s@)
            &&& keys.update_action matches Some(u) ==> r.text(u@) is Some ==> k.update_action
                == r.text(u@)
            &&& keys.delete_action matches Some(d) ==> r.text(d@) is Some ==> k.delete_action
                == r.text(d@)
        }),
{
    let key = keys.constraint_name@;
    let name = r.text(key)->0;
    let names = group_names(rows, key);
    let before = foreign_keys_of(rows, keys);
    let after = foreign_keys_of(rows.push(r), keys);
    if names.contains(name) {
        let j = choose|j: int| 0 <= j < names.len() && names[j] == name;
        assert(before[j].columns_constraint.constraint.constraint_name == Some(name));
    }
    crate::rows::law_group_push(rows, r, key, name);
    crate::rows::law_groups(rows, key, r, name);
    let g = group_of(rows, key, name);
    assert(g.len() == 0) by {
        if g.len() > 0 {
            assert(g.contains(g[0]));
            crate::rows::law_groups(rows, key, g[0], name);
        }
    }
    assert(group_of(rows.push(r), key, name) =~= seq![r]);
    assert forall|j: int| 0 <= j < before.len() implies #[trigger] after[j] == before[j] by {
        assert(names.contains(names[j]));
        crate::rows::law_group_push(rows, r, key, names[j]);
    }
    assert(after.drop_last() =~= before);
}

/// The mode of a parameter, by its name; an input where it has none of the others.
pub proof fn law_parameter_mode(mode: Option<Seq<char>>)
    ensures
        mode_named(mode) == ParameterMode::Out <==> mode == Some("OUT"@),
        mode_named(mode) == ParameterMode::InOut <==> mode == Some("INOUT"@),
        mode_named(mode) == ParameterMode::Return <==> mode == Some("RETURN"@),
        mode_named(mode) == ParameterMode::In || mode_named(mode) == ParameterMode::Out
            || mode_named(mode) == ParameterMode::InOut || mode_named(mode)
            == ParameterMode::Return,
{
    reveal_strlit("OUT");
    reveal_strlit("INOUT");
    reveal_strlit("RETURN");
    assert("OUT"@.len() == 3 && "INOUT"@.len() == 5 && "RETURN"@.len() == 6);
}

/// The timing of a trigger, by its name; before the event where it has neither of the
/// others.
pub proof fn law_trigger_timing(upper: Seq<char>)
    ensures
        timing_in(upper) == TriggerTiming::After <==> upper == "AFTER"@,
        timing_in(upper) == TriggerTiming::InsteadOf <==> upper == "INSTEAD OF"@,
        upper == "BEFORE"@ ==> timing_in(upper) == TriggerTiming::Before,
{
    reveal_strlit("AFTER");
    reveal_strlit("INSTEAD OF");
    reveal_strlit("BEFORE");
    assert("AFTER"@.len() == 5 && "INSTEAD OF"@.len() == 10 && "BEFORE"@.len() == 6);
}

/// A parameter as DDL: the mode, the name and the type, in this order.
pub proof fn law_parameter_ddl(p: ParameterInfoView, upper: Seq<char>)
    requires
        p.data_type.len() > 0,
    ensures
        p.parameter_mode == Some(ParameterMode::In) ==> parameter_ddl_with(p, upper) == "IN "@
            + p.parameter_name + " "@ + upper,
        p.parameter_mode == Some(ParameterMode::Out) ==> parameter_ddl_with(p, upper) == "OUT "@
            + p.parameter_name + " "@ + upper,
        p.parameter_mode == Some(ParameterMode::InOut) ==> parameter_ddl_with(p, upper)
            == "INOUT "@ + p.parameter_name + " "@ + upper,
        p.parameter_mode == Some(ParameterMode::Return) || p.parameter_mode is None
            ==> parameter_ddl_with(p, upper) == p.parameter_name + " "@ + upper,
{
    reveal_strlit("");
    assert(p.parameter_name + (" "@ + upper) =~= p.parameter_name + " "@ + upper);
    assert("IN "@ + p.parameter_name + (" "@ + upper) =~= "IN "@ + p.parameter_name + " "@
        + upper);
    assert("OUT "@ + p.parameter_name + (" "@ + upper) =~= "OUT "@ + p.parameter_name + " "@
        + upper);
    assert("INOUT "@ + p.parameter_name + (" "@ + upper) =~= "INOUT "@ + p.parameter_name + " "@
        + upper);
    assert(""@ + p.parameter_name + (" "@ + upper) =~= p.parameter_name + " "@ + upper);
}

/// The condition on ids: one id between quotes, or any.
pub proof fn law_id_condition(id: Seq<char>)
    ensures
        id_condition(Some(id)) == " = '"@ + id + "'"@,
        id_condition(None) == " is not null"@,
{
}

/// Parameters stand in their order with commas between them; one without a type shows its mode
/// and its name alone.
pub proof fn law_parameters_ddl(params: Seq<ParameterInfoView>, p: ParameterInfoView)
    ensures
        parameters_ddl(Seq::empty()).len() == 0,
        params.len() == 0 ==> parameters_ddl(params.push(p)) == parameter_ddl(p),
        params.len() > 0 ==> parameters_ddl(params.push(p)) == parameters_ddl(params) + seq![
            ',',
            ' ',
        ] + parameter_ddl(p),
        p.data_type.len() == 0 && p.parameter_mode is None ==> parameter_ddl(p)
            == p.parameter_name,
{
    reveal_strlit(", ");
    reveal_strlit("");
    assert(", "@ =~= seq![',', ' ']);
    let texts = Seq::new(params.len(), |i: int| parameter_ddl(params[i]));
    let more = Seq::new(params.push(p).len(), |i: int| parameter_ddl(params.push(p)[i]));
    assert(more =~= texts.push(parameter_ddl(p)));
    crate::text::law_join(texts, parameter_ddl(p), ", "@);
    if params.len() == 0 {
        assert(more =~= seq![parameter_ddl(p)]);
    }
    let none = Seq::<ParameterInfoView>::empty();
    assert(Seq::new(none.len(), |i: int| parameter_ddl(none[i])) =~= Seq::<Seq<char>>::empty());
    assert(""@ + p.parameter_name + Seq::<char>::empty() =~= p.parameter_name);
}

/// A reference to a column shows the column that it refers to and its direction, each where its
/// rows have a key for it.
pub proof fn law_reference(
    row: Json,
    key: Seq<char>,
    name: Seq<char>,
    target: Seq<char>,
    descending: Seq<char>,
)
    requires
        row.text(key) == Some(name),
    ensures
        ref_of(row, key, None, None).column_name == name,
        ref_of(row, key, None, None).ref_column_name is None,
        ref_of(row, key, None, None).is_descending is None,
        ref_of(row, key, Some(target), None).ref_column_name == row.text(target),
        ref_of(row, key, None, Some(descending)).is_descending == Some(
            is_flagged(row, descending),
        ),
        ref_of(row, key, Some(target), Some(descending)).is_included_column is None,
{
}

/// An action is the one that the row gives; where that is asked for, one that it does not give
/// is empty.
pub proof fn law_action(row: Json, key: &str)
    ensures
        action_of(row, None, true) is None,
        action_of(row, Some(key), false) == row.text(key@),
        row.text(key@) is None ==> action_of(row, Some(key), true) == Some(Seq::<char>::empty()),
        row.text(key@) is Some ==> action_of(row, Some(key), true) == row.text(key@),
{
}

} // verus!
