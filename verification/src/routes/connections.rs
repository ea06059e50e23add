//! The store of saved connections and its routes.
//!
//! Connections are stored as JSON lines: one raw object per line, its keys kept
//! as the frontend sent them, with placeholders for the secrets that a credential
//! store has kept. Each operation takes the records that the file
//! holds and says which it shall hold.
use vstd::prelude::*;

use crate::encoding::object_of_one;
use crate::numbers::hexadecimal;
use crate::routes::{route_error, text_argument, unknown_connection};
use crate::rows::{new_list, push_item};
use crate::security::vaulted_record;
use crate::text::{concat2, concat3, concat4, split_on, trimmed};
use crate::value::{
    array_value, clone_value, clone_values, merge_entries, object_value, put_entry, str_value,
    Json, Value,
};

verus! {

/// JSON-lines store of connections.
pub struct ConnectionsStore {
    pub path: String,
}

/// Whether a record has the given id.
pub open spec fn has_id(record: Json, id: Seq<char>) -> bool {
    record.text("_id"@) == Some(id)
}

/// The first record with the given id, null where there is none.
pub open spec fn record_with(items: Seq<Json>, id: Seq<char>) -> Json {
    match crate::rows::first_where(items, |x: Json| has_id(x, id)) {
        Some(x) => x,
        None => Json::Null,
    }
}

/// Whether any record has the given id.
pub open spec fn known(items: Seq<Json>, id: Seq<char>) -> bool {
    exists|i: int| 0 <= i < items.len() && has_id(#[trigger] items[i], id)
}

/// A record that is to be stored carries an id that is not empty.
pub open spec fn carries_id(record: Json) -> bool {
    match record.text("_id"@) {
        Some(id) => id.len() > 0,
        None => false,
    }
}

/// A record with a generated id, unless it carries one.
pub open spec fn with_id(record: Json, new_id: Seq<char>) -> Json {
    if carries_id(record) {
        record
    } else {
        match record {
            Json::Object(members) => Json::Object(
                crate::value::put_key(members, "_id"@, Json::Str(new_id)),
            ),
            _ => Json::Object(seq![("_id"@, Json::Str(new_id))]),
        }
    }
}

/// The records with every one of the given id replaced.
pub open spec fn replaced_with(items: Seq<Json>, id: Seq<char>, record: Json) -> Seq<Json> {
    Seq::new(
        items.len(),
        |i: int|
            if has_id(items[i], id) {
                record
            } else {
                items[i]
            },
    )
}

/// The records after an update: those with the id are replaced; where there is
/// none, the record is added.
pub open spec fn updated(items: Seq<Json>, id: Seq<char>, record: Json) -> Seq<Json> {
    if known(items, id) {
        replaced_with(items, id, record)
    } else {
        items.push(record)
    }
}

/// A record with the members of an object put over its own.
pub open spec fn merged(record: Json, changes: Json) -> Json {
    match (record, changes) {
        (Json::Object(target), Json::Object(source)) => Json::Object(
            crate::value::merge_keys(target, source),
        ),
        _ => record,
    }
}

/// The records after changes to those with the given id.
pub open spec fn patched(items: Seq<Json>, id: Seq<char>, changes: Json) -> Seq<Json> {
    Seq::new(
        items.len(),
        |i: int|
            if has_id(items[i], id) {
                merged(items[i], changes)
            } else {
                items[i]
            },
    )
}

/// The last record with the given id.
pub open spec fn last_with(items: Seq<Json>, id: Seq<char>) -> Option<Json>
    decreases items.len(),
{
    if items.len() == 0 {
        None
    } else if has_id(items.last(), id) {
        Some(items.last())
    } else {
        last_with(items.drop_last(), id)
    }
}

/// The records without those of the given id.
pub open spec fn without(items: Seq<Json>, id: Seq<char>) -> Seq<Json> {
    crate::rows::select(items, |x: Json| !has_id(x, id))
}

fn id_is(record: &Value, id: &str) -> (r: bool)
    ensures
        r == has_id(record@, id@),
{
    crate::rows::text_is(record, "_id", id)
}

fn non_empty_id(record: &Value) -> (r: bool)
    ensures
        r == carries_id(record@),
{
    match record.text("_id") {
        Some(id) => !id.is_empty(),
        None => false,
    }
}

fn identified(record: Value, new_id: &str) -> (r: Value)
    requires
        record@ is Object || record@ is Null,
    ensures
        r@ == with_id(record@, new_id@),
{
    if non_empty_id(&record) {
        return record;
    }
    proof {
        crate::value::lemma_compound_views(record);
    }
    match record {
        Value::Object(mut members) => {
            put_entry(&mut members, "_id".to_owned(), str_value(new_id));
            object_value(members)
        },
        _ => object_of_one("_id", str_value(new_id)),
    }
}

fn merge_into(record: &Value, changes: &Value) -> (r: Value)
    ensures
        r@ == merged(record@, changes@),
{
    proof {
        crate::value::lemma_compound_views(*record);
        crate::value::lemma_compound_views(*changes);
    }
    let copy = clone_value(record);
    proof {
        crate::value::lemma_compound_views(copy);
    }
    match (copy, changes) {
        (Value::Object(mut target), Value::Object(source)) => {
            merge_entries(&mut target, source);
            object_value(target)
        },
        (other, _) => other,
    }
}

impl ConnectionsStore {
    pub fn new(path: String) -> (r: Self)
        ensures
            r.path@ == path@,
    {
        ConnectionsStore { path }
    }

    /// The record with the given id, null where there is none.
    pub fn get(&self, items: &Vec<Value>, id: &str) -> (r: Value)
        ensures
            r@ == record_with(items.deep_view(), id@),
    {
        let ghost all = items.deep_view();
        let ghost p = |x: Json| has_id(x, id@);
        let mut i: usize = 0;
        while i < items.len()
            invariant
                i <= items@.len(),
                all == items.deep_view(),
                p == |x: Json| has_id(x, id@),
                forall|j: int| 0 <= j < i ==> !p(#[trigger] all[j]),
            decreases items@.len() - i,
        {
            assert(all[i as int] == items@[i as int]@);
            if id_is(&items[i], id) {
                proof {
                    crate::rows::lemma_none_found(all.take(i as int), p);
                    crate::rows::lemma_first_found(all, p, i as int);
                }
                return clone_value(&items[i]);
            }
            i = i + 1;
        }
        proof {
            crate::rows::lemma_none_found(all, p);
        }
        Value::Null
    }

    /// Adds a record, generating its id when absent.
    pub fn insert(&self, items: Vec<Value>, obj: Value, new_id: &str) -> (r: (Vec<Value>, Value))
        requires
            obj@ is Object || obj@ is Null,
        ensures
            r.1@ == with_id(obj@, new_id@),
            r.0.deep_view() == items.deep_view().push(r.1@),
    {
        let record = identified(obj, new_id);
        let mut after = items;
        push_item(&mut after, clone_value(&record));
        (after, record)
    }

    /// Replaces whole records by id.
    pub fn update(&self, items: Vec<Value>, obj: &Value) -> (r: Result<
        (Vec<Value>, Value),
        String,
    >)
        ensures
            match r {
                Ok((after, answer)) => {
                    &&& obj@.text("_id"@) is Some
                    &&& after.deep_view() == updated(
                        items.deep_view(),
                        obj@.text("_id"@)->0,
                        obj@,
                    )
                    &&& answer@ == obj@
                },
                Err(e) => obj@.text("_id"@) is None && e@ == crate::routes::error_text(
                    "Cannot update connection without _id in "@ + self.path@,
                ),
            },
    {
        let id = match obj.text("_id") {
            Some(id) => id,
            None => return Err(
                route_error(
                    concat2(
                        "Cannot update connection without _id in ",
                        self.path.as_str(),
                    ).as_str(),
                ),
            ),
        };
        let ghost all = items.deep_view();
        let mut after: Vec<Value> = new_list();
        let mut replaced = false;
        let mut i: usize = 0;
        assert(after.deep_view() =~= replaced_with(all, id@, obj@).take(0));
        while i < items.len()
            invariant
                i <= items@.len(),
                all == items.deep_view(),
                after.deep_view() == replaced_with(all, id@, obj@).take(i as int),
                replaced == exists|j: int| 0 <= j < i && has_id(#[trigger] all[j], id@),
            decreases items@.len() - i,
        {
            assert(all[i as int] == items@[i as int]@);
            let item = if id_is(&items[i], id) {
                replaced = true;
                clone_value(obj)
            } else {
                clone_value(&items[i])
            };
            push_item(&mut after, item);
            assert(after.deep_view() =~= replaced_with(all, id@, obj@).take(i + 1));
            i = i + 1;
        }
        assert(replaced_with(all, id@, obj@).take(all.len() as int) =~= replaced_with(
            all,
            id@,
            obj@,
        ));
        if !replaced {
            assert(replaced_with(all, id@, obj@) =~= all);
            push_item(&mut after, clone_value(obj));
        }
        Ok((after, clone_value(obj)))
    }

    /// Puts changes over the members of the records with the given id. The answer
    /// is the last of them.
    pub fn patch(&self, items: Vec<Value>, id: &str, values: &Value) -> (r: Result<
        (Vec<Value>, Value),
        String,
    >)
        ensures
            match r {
                Ok((after, answer)) => {
                    &&& known(items.deep_view(), id@)
                    &&& after.deep_view() == patched(items.deep_view(), id@, values@)
                    &&& Some(answer@) == match last_with(items.deep_view(), id@) {
                        Some(x) => Some(merged(x, values@)),
                        None => None,
                    }
                },
                Err(e) => !known(items.deep_view(), id@) && e@ == crate::routes::error_text(
                    "Cannot patch unknown connection "@ + id@ + " in "@ + self.path@,
                ),
            },
    {
        let ghost all = items.deep_view();
        let mut after: Vec<Value> = new_list();
        let mut answer: Option<Value> = None;
        let mut i: usize = 0;
        assert(after.deep_view() =~= patched(all, id@, values@).take(0));
        while i < items.len()
            invariant
                i <= items@.len(),
                all == items.deep_view(),
                after.deep_view() == patched(all, id@, values@).take(i as int),
                answer.deep_view() == match last_with(all.take(i as int), id@) {
                    Some(x) => Some(merged(x, values@)),
                    None => None,
                },
                answer is Some == exists|j: int| 0 <= j < i && has_id(#[trigger] all[j], id@),
            decreases items@.len() - i,
        {
            proof {
                crate::rows::lemma_take_next(all, i as int);
            }
            assert(all[i as int] == items@[i as int]@);
            let item = if id_is(&items[i], id) {
                let merged_item = merge_into(&items[i], values);
                answer = Some(clone_value(&merged_item));
                merged_item
            } else {
                clone_value(&items[i])
            };
            push_item(&mut after, item);
            assert(after.deep_view() =~= patched(all, id@, values@).take(i + 1));
            i = i + 1;
        }
        proof {
            crate::rows::lemma_take_all(all);
            assert(patched(all, id@, values@).take(all.len() as int) =~= patched(
                all,
                id@,
                values@,
            ));
        }
        match answer {
            Some(a) => Ok((after, a)),
            None => Err(
                route_error(
                    concat4(
                        "Cannot patch unknown connection ",
                        id,
                        " in ",
                        self.path.as_str(),
                    ).as_str(),
                ),
            ),
        }
    }

    /// The records without those of the given id, where that takes any away.
    pub fn remove(&self, items: &Vec<Value>, id: &str) -> (r: Option<Vec<Value>>)
        ensures
            match r {
                Some(after) => known(items.deep_view(), id@) && after.deep_view() == without(
                    items.deep_view(),
                    id@,
                ),
                None => !known(items.deep_view(), id@),
            },
    {
        let ghost all = items.deep_view();
        let mut after: Vec<Value> = new_list();
        let mut found = false;
        let mut i: usize = 0;
        while i < items.len()
            invariant
                i <= items@.len(),
                all == items.deep_view(),
                after.deep_view() == without(all.take(i as int), id@),
                found == exists|j: int| 0 <= j < i && has_id(#[trigger] all[j], id@),
            decreases items@.len() - i,
        {
            proof {
                crate::rows::lemma_take_next(all, i as int);
            }
            assert(all[i as int] == items@[i as int]@);
            if id_is(&items[i], id) {
                found = true;
            } else {
                push_item(&mut after, clone_value(&items[i]));
            }
            i = i + 1;
        }
        proof {
            crate::rows::lemma_take_all(all);
        }
        if found {
            Some(after)
        } else {
            None
        }
    }
}

/// A generated id, from the nanoseconds since the Unix epoch.
pub fn new_id(nanos: u128) -> (r: String)
    ensures
        r@ == crate::numbers::hex_number(nanos as nat),
{
    hexadecimal(nanos)
}

/// The records of a connections file: its lines without the space around them,
/// unless they are blank.
pub open spec fn record_line(line: Seq<char>) -> Option<Seq<char>> {
    if crate::text::trim(line).len() == 0 {
        None
    } else {
        Some(crate::text::trim(line))
    }
}

/// The record lines among some lines.
pub open spec fn lines_kept(lines: Seq<Seq<char>>) -> Seq<Seq<char>> {
    crate::rows::pick(lines, |l: Seq<char>| record_line(l))
}

/// The texts of the records in a connections file.
pub fn record_texts(file: &str) -> (r: Vec<String>)
    ensures
        r.deep_view() == lines_kept(crate::text::split(file@, '\n')),
{
    let lines = split_on(file, '\n');
    let ghost all = crate::text::split(file@, '\n');
    assert(lines.deep_view() =~= all);
    let mut out: Vec<String> = new_list();
    let mut i: usize = 0;
    while i < lines.len()
        invariant
            i <= lines@.len(),
            all == lines.deep_view(),
            out.deep_view() == lines_kept(all.take(i as int)),
        decreases lines@.len() - i,
    {
        proof {
            crate::rows::lemma_take_next(all, i as int);
        }
        let line = trimmed(lines[i].as_str());
        if !line.as_str().is_empty() {
            push_item(&mut out, line);
        }
        i = i + 1;
    }
    proof {
        crate::rows::lemma_take_all(all);
    }
    out
}

/// The file that holds the given record texts: each on a line of its own.
pub open spec fn file_of(texts: Seq<Seq<char>>) -> Seq<char>
    decreases texts.len(),
{
    if texts.len() == 0 {
        Seq::empty()
    } else {
        file_of(texts.drop_last()) + texts.last() + "\n"@
    }
}

/// The file that holds the given record texts.
pub fn file_text(texts: &Vec<String>) -> (r: String)
    ensures
        r@ == file_of(texts.deep_view()),
{
    let ghost all = texts.deep_view();
    let mut out = String::new();
    let mut i: usize = 0;
    while i < texts.len()
        invariant
            i <= texts@.len(),
            all == texts.deep_view(),
            out@ == file_of(all.take(i as int)),
        decreases texts@.len() - i,
    {
        proof {
            crate::rows::lemma_take_next(all, i as int);
        }
        out.push_str(texts[i].as_str());
        out.push_str("\n");
        i = i + 1;
    }
    proof {
        crate::rows::lemma_take_all(all);
    }
    out
}

/// The error for a line that is not JSON.
pub fn invalid_json(path: &str, cause: &str) -> (r: String)
    ensures
        r@ == crate::routes::error_text("Invalid JSON in "@ + path@ + ": "@ + cause@),
{
    route_error(concat4("Invalid JSON in ", path, ": ", cause).as_str())
}

/// The error for a file that cannot be read or written.
pub fn io_err(path: &str, cause: &str) -> (r: String)
    ensures
        r@ == crate::routes::error_text("IO error on "@ + path@ + ": "@ + cause@),
{
    route_error(concat4("IO error on ", path, ": ", cause).as_str())
}

// ---------------------------------------------------------------------------
// Route handlers
// ---------------------------------------------------------------------------

/// What a route does: its answer, and the records to store where they change.
pub struct Change {
    pub answer: Value,
    pub items: Option<Vec<Value>>,
}

/// `connections_list`: all saved connections.
pub fn list(items: Vec<Value>) -> (r: Value)
    ensures
        r@ == Json::Array(items.deep_view()),
{
    array_value(items)
}

/// `connections_get`: the id of the connection that is asked for.
pub fn get_request<'a>(args: &'a Value) -> (r: Result<&'a str, String>)
    ensures
        match r {
            Ok(id) => args@.text("conid"@) == Some(id@),
            Err(e) => args@.text("conid"@) is None && e@ == crate::routes::missing(
                "connections_get"@,
                "conid"@,
            ),
        },
{
    text_argument(args, "conid", "connections_get")
}

/// The id under which a record is saved: its own, or the generated one.
pub open spec fn id_saved(args: Json, new_id: Seq<char>) -> Seq<char> {
    if carries_id(args) {
        args.text("_id"@)->0
    } else {
        new_id
    }
}

/// The record that is stored for the given arguments.
pub open spec fn record_saved(args: Json, new_id: Seq<char>, kept: bool) -> Json {
    crate::security::vaulted(with_id(args, new_id), id_saved(args, new_id), kept)
}

/// The records after the given arguments were saved: the record replaces those
/// with the id that the arguments carry, or is added.
pub open spec fn saved(items: Seq<Json>, args: Json, new_id: Seq<char>, kept: bool) -> Seq<Json> {
    if carries_id(args) {
        updated(items, id_saved(args, new_id), record_saved(args, new_id, kept))
    } else {
        items.push(record_saved(args, new_id, kept))
    }
}

/// The id under which a record will be saved.
pub fn saved_id(args: &Value, new_id: &str) -> (r: String)
    ensures
        r@ == id_saved(args@, new_id@),
{
    match args.text("_id") {
        Some(id) => if id.is_empty() {
            new_id.to_owned()
        } else {
            id.to_owned()
        },
        None => new_id.to_owned(),
    }
}

/// `connections_save`: replaces the record with the id that the arguments carry,
/// or adds them as a new record. Where the credential store has `kept` its
/// secrets, the record holds placeholders instead.
pub fn save(
    store: &ConnectionsStore,
    items: Vec<Value>,
    args: Value,
    new_id: &str,
    kept: bool,
) -> (r: Change)
    requires
        args@ is Object || args@ is Null,
    ensures
        r.answer@ == record_saved(args@, new_id@, kept),
        r.items is Some,
        r.items->0.deep_view() == saved(items.deep_view(), args@, new_id@, kept),
{
    let carried = non_empty_id(&args);
    let id = saved_id(&args, new_id);
    let record = vaulted_record(identified(args, new_id), id.as_str(), kept);
    proof {
        crate::security::law_vaulted_keeps_id(with_id(args@, new_id@), id@, kept);
    }
    if carried {
        match store.update(items, &record) {
            Ok((after, answer)) => Change { answer, items: Some(after) },
            Err(_) => {
                assert(false);
                Change { answer: Value::Null, items: None }
            },
        }
    } else {
        let mut after = items;
        push_item(&mut after, clone_value(&record));
        Change { answer: record, items: Some(after) }
    }
}

/// The argument under `key`, the empty object where there is none.
pub open spec fn object_argument(args: Json, key: Seq<char>) -> Json {
    match args.get(key) {
        Some(v) => v,
        None => Json::Object(Seq::empty()),
    }
}

fn argument_or_empty(args: &Value, key: &str) -> (r: Value)
    ensures
        r@ == object_argument(args@, key@),
{
    match args.get(key) {
        Some(v) => clone_value(v),
        None => object_value(crate::value::no_members()),
    }
}

/// `connections_update`: the id and the changes that the arguments give.
pub fn update_request(args: &Value) -> (r: Result<(String, Value), String>)
    ensures
        match r {
            Ok((id, values)) => args@.text("_id"@) == Some(id@) && values@ == object_argument(
                args@,
                "values"@,
            ),
            Err(e) => args@.text("_id"@) is None && e@ == crate::routes::missing(
                "connections_update"@,
                "_id"@,
            ),
        },
{
    let id = match text_argument(args, "_id", "connections_update") {
        Ok(id) => id,
        Err(e) => return Err(e),
    };
    Ok((id.to_owned(), argument_or_empty(args, "values")))
}

/// `connections_update`: puts changes over the members of the records with the
/// given id. Where the credential store has `kept` the secrets among them, the
/// changes hold placeholders instead.
pub fn update(
    store: &ConnectionsStore,
    items: Vec<Value>,
    id: &str,
    values: Value,
    kept: bool,
) -> (r: Result<Change, String>)
    ensures
        ({
            let changes = crate::security::vaulted(values@, id@, kept);
            match r {
                Ok(change) => {
                    &&& known(items.deep_view(), id@)
                    &&& change.items is Some
                    &&& change.items->0.deep_view() == patched(items.deep_view(), id@, changes)
                    &&& Some(change.answer@) == match last_with(items.deep_view(), id@) {
                        Some(x) => Some(merged(x, changes)),
                        None => None,
                    }
                },
                Err(e) => !known(items.deep_view(), id@) && e@ == crate::routes::error_text(
                    "Cannot patch unknown connection "@ + id@ + " in "@ + store.path@,
                ),
            }
        }),
{
    let changes = vaulted_record(values, id, kept);
    match store.patch(items, id, &changes) {
        Ok((after, answer)) => Ok(Change { answer, items: Some(after) }),
        Err(e) => Err(e),
    }
}

/// `connections_update_database`: the id, the database and the values that the
/// arguments give.
pub fn update_database_request(args: &Value) -> (r: Result<(String, String, Value), String>)
    ensures
        match r {
            Ok((conid, database, values)) => {
                &&& args@.text("conid"@) == Some(conid@)
                &&& args@.text("database"@) == Some(database@)
                &&& values@ == object_argument(args@, "values"@)
            },
            Err(e) => {
                ||| args@.text("conid"@) is None && e@ == crate::routes::missing(
                    "connections_update-database"@,
                    "conid"@,
                )
                ||| args@.text("conid"@) is Some && args@.text("database"@) is None && e@
                    == crate::routes::missing("connections_update-database"@, "database"@)
            },
        },
{
    let conid = match text_argument(args, "conid", "connections_update-database") {
        Ok(c) => c,
        Err(e) => return Err(e),
    };
    let database = match text_argument(args, "database", "connections_update-database") {
        Ok(d) => d,
        Err(e) => return Err(e),
    };
    Ok((conid.to_owned(), database.to_owned(), argument_or_empty(args, "values")))
}

/// The databases of a record.
pub open spec fn databases_of(record: Json) -> Seq<Json> {
    match record.get("databases"@) {
        Some(Json::Array(items)) => items,
        _ => Seq::empty(),
    }
}

/// Whether an entry describes the given database.
pub open spec fn describes(entry: Json, database: Seq<char>) -> bool {
    entry.text("name"@) == Some(database)
}

/// The entry for a database: its name, with the values put over it.
pub open spec fn database_entry(database: Seq<char>, changes: Json) -> Json {
    merged(crate::encoding::one_member("name"@, Json::Str(database)), changes)
}

/// The position of the first entry for a database from `i` on.
pub open spec fn entry_position(entries: Seq<Json>, database: Seq<char>, i: int) -> int
    decreases entries.len() - i,
{
    if i < 0 || i >= entries.len() || describes(entries[i], database) {
        i
    } else {
        entry_position(entries, database, i + 1)
    }
}

/// The databases after an entry was put in the place of the first one for its
/// database, or behind them.
pub open spec fn upserted(entries: Seq<Json>, database: Seq<char>, entry: Json) -> Seq<Json> {
    let at = entry_position(entries, database, 0);
    if at < entries.len() {
        entries.update(at, entry)
    } else {
        entries.push(entry)
    }
}

fn database_list(record: &Value) -> (r: Vec<Value>)
    ensures
        r.deep_view() == databases_of(record@),
{
    match record.get("databases") {
        Some(v) => {
            proof {
                crate::value::lemma_compound_views(*v);
            }
            match v {
                Value::Array(items) => {
                    assert(crate::value::values(items@) =~= items.deep_view());
                    clone_values(items)
                },
                _ => new_list(),
            }
        },
        None => new_list(),
    }
}

fn upsert(entries: Vec<Value>, database: &str, entry: Value) -> (r: Vec<Value>)
    ensures
        r.deep_view() == upserted(entries.deep_view(), database@, entry@),
{
    let ghost all = entries.deep_view();
    let mut at: usize = 0;
    while at < entries.len()
        invariant
            at <= entries@.len(),
            all == entries.deep_view(),
            entry_position(all, database@, 0) == entry_position(all, database@, at as int),
        decreases entries@.len() - at,
    {
        assert(all[at as int] == entries@[at as int]@);
        if crate::rows::text_is(&entries[at], "name", database) {
            let mut after = entries;
            after.set(at, entry);
            assert(after.deep_view() =~= all.update(at as int, entry@));
            return after;
        }
        at = at + 1;
    }
    let mut after = entries;
    push_item(&mut after, entry);
    after
}

/// `connections_update_database`: puts an entry `{ name, ... }` among the
/// databases of a connection.
pub fn update_database(
    store: &ConnectionsStore,
    items: Vec<Value>,
    conid: &str,
    database: &str,
    values: &Value,
) -> (r: Result<Change, String>)
    ensures
        match r {
            Ok(change) => {
                let current = record_with(items.deep_view(), conid@);
                let changes = crate::encoding::one_member(
                    "databases"@,
                    Json::Array(
                        upserted(
                            databases_of(current),
                            database@,
                            database_entry(database@, values@),
                        ),
                    ),
                );
                &&& known(items.deep_view(), conid@)
                &&& change.items is Some
                &&& change.items->0.deep_view() == patched(items.deep_view(), conid@, changes)
                &&& Some(change.answer@) == match last_with(items.deep_view(), conid@) {
                    Some(x) => Some(merged(x, changes)),
                    None => None,
                }
            },
            Err(e) => !known(items.deep_view(), conid@) && e@ == crate::routes::error_text(
                "Unknown connection "@ + conid@,
            ),
        },
{
    let current = store.get(&items, conid);
    proof {
        lemma_record_known(items.deep_view(), conid@);
    }
    if current.is_null() {
        return Err(unknown_connection(conid));
    }
    let entry = merge_into(&object_of_one("name", str_value(database)), values);
    let databases = upsert(database_list(&current), database, entry);
    let changes = object_of_one("databases", array_value(databases));
    match store.patch(items, conid, &changes) {
        Ok((after, answer)) => Ok(Change { answer, items: Some(after) }),
        Err(_) => {
            assert(false);
            Err(unknown_connection(conid))
        },
    }
}

/// A record that is found is one of the records, and is not null.
proof fn lemma_record_known(items: Seq<Json>, id: Seq<char>)
    ensures
        known(items, id) <==> record_with(items, id) !is Null,
        known(items, id) ==> has_id(record_with(items, id), id),
    decreases items.len(),
{
    let p = |x: Json| has_id(x, id);
    if known(items, id) {
        let i = choose|i: int| 0 <= i < items.len() && has_id(#[trigger] items[i], id);
        crate::rows::lemma_first_of(items, p, i);
    } else {
        assert forall|j: int| 0 <= j < items.len() implies !p(#[trigger] items[j]) by {}
        crate::rows::lemma_none_found(items, p);
    }
}

/// `connections_delete`: the id of the connection to remove.
pub fn delete_request<'a>(args: &'a Value) -> (r: Result<&'a str, String>)
    ensures
        match r {
            Ok(id) => args@.text("conid"@) == Some(id@) || (args@.text("conid"@) is None
                && args@.text("_id"@) == Some(id@)),
            Err(e) => args@.text("conid"@) is None && args@.text("_id"@) is None && e@
                == crate::routes::missing("connections_delete"@, "conid"@),
        },
{
    match args.text("conid") {
        Some(id) => Ok(id),
        None => match args.text("_id") {
            Some(id) => Ok(id),
            None => Err(
                route_error(concat3("connections_delete", " missing ", "conid").as_str()),
            ),
        },
    }
}

/// `connections_delete`: removes a connection and answers with it; null where it
/// is not known.
pub fn delete(store: &ConnectionsStore, items: &Vec<Value>, conid: &str) -> (r: Change)
    ensures
        r.answer@ == record_with(items.deep_view(), conid@),
        match r.items {
            Some(after) => known(items.deep_view(), conid@) && after.deep_view() == without(
                items.deep_view(),
                conid@,
            ),
            None => !known(items.deep_view(), conid@),
        },
{
    proof {
        lemma_record_known(items.deep_view(), conid@);
    }
    let answer = store.get(items, conid);
    let after = store.remove(items, conid);
    Change { answer, items: after }
}

// ---------------------------------------------------------------------------
// Laws
// ---------------------------------------------------------------------------

/// What was added can be read back by its id, if no record had that id before.
pub proof fn law_insert_then_get(items: Seq<Json>, record: Json, new_id: Seq<char>)
    requires
        record is Object || record is Null,
        with_id(record, new_id).text("_id"@) is Some,
        !known(items, with_id(record, new_id).text("_id"@)->0),
    ensures
        record_with(
            items.push(with_id(record, new_id)),
            with_id(record, new_id).text("_id"@)->0,
        ) == with_id(record, new_id),
{
    let r = with_id(record, new_id);
    lemma_added(items, r, r.text("_id"@)->0);
}

/// A record that is stored always has an id.
pub proof fn law_stored_has_id(record: Json, new_id: Seq<char>)
    requires
        record is Object || record is Null,
    ensures
        with_id(record, new_id).text("_id"@) is Some,
        !carries_id(record) ==> has_id(with_id(record, new_id), new_id),
{
    if !carries_id(record) {
        match record {
            Json::Object(members) => {
                crate::value::law_put_then_find(
                    members,
                    "_id"@,
                    Json::Str(new_id),
                    "_id"@,
                );
            },
            _ => {
                let o = seq![("_id"@, Json::Str(new_id))];
                assert(o[0].0 == "_id"@);
                reveal_with_fuel(crate::value::find_key, 2);
            },
        }
    }
}

/// A saved connection can be read back by its id, which no other record has where
/// it was generated. Where the credential store has kept its password, the record
/// holds the placeholder for the id and not the password, and the password is
/// what the placeholder resolves to.
pub proof fn law_saved_secret(items: Seq<Json>, args: Json, new_id: Seq<char>, kept: bool)
    requires
        args is Object || args is Null,
        carries_id(args) || !known(items, new_id),
    ensures
        ({
            let id = id_saved(args, new_id);
            let record = record_with(saved(items, args, new_id, kept), id);
            let secret = crate::security::secret_in(args);
            &&& record == record_saved(args, new_id, kept)
            &&& !kept ==> record == with_id(args, new_id)
            &&& kept && secret is Some ==> {
                &&& record.text("password"@) == Some(crate::security::placeholder_for(id))
                &&& record.text("password"@) != secret
                &&& crate::security::secret_behind(
                    crate::security::placeholder_for(id),
                    secret,
                ) == secret->0
            }
        }),
{
    let id = id_saved(args, new_id);
    let whole = with_id(args, new_id);
    let record = record_saved(args, new_id, kept);
    crate::security::law_vaulted_keeps_id(whole, id, kept);
    law_stored_has_id(args, new_id);
    assert(has_id(record, id));
    if carries_id(args) {
        law_update_then_get(items, record, id, id);
    } else {
        lemma_added(items, record, id);
    }
    lemma_id_keeps_password(args, new_id);
    crate::security::law_placeholder(id);
    if kept && crate::security::secret_in(args) is Some {
        crate::security::law_kept_password(
            whole,
            id,
            crate::security::SecretsView {
                password: crate::security::secret_in(whole),
                ssh_password: None,
                ssh_passphrase: None,
            },
        );
    }
}

/// A generated id leaves the password as it is.
proof fn lemma_id_keeps_password(args: Json, new_id: Seq<char>)
    requires
        args is Object || args is Null,
    ensures
        with_id(args, new_id).text("password"@) == args.text("password"@),
{
    reveal_strlit("password");
    reveal_strlit("_id");
    assert("password"@.len() == 8 && "_id"@.len() == 3);
    if !carries_id(args) {
        match args {
            Json::Object(members) => {
                crate::value::law_put_then_find(
                    members,
                    "_id"@,
                    Json::Str(new_id),
                    "password"@,
                );
            },
            _ => {
                reveal_with_fuel(crate::value::find_key, 2);
            },
        }
    }
}

/// A record that is added under a new id is the one with that id.
proof fn lemma_added(items: Seq<Json>, record: Json, id: Seq<char>)
    requires
        has_id(record, id),
        !known(items, id),
    ensures
        record_with(items.push(record), id) == record,
{
    let after = items.push(record);
    let p = |x: Json| has_id(x, id);
    let n = items.len() as int;
    assert(after[n] == record);
    assert forall|j: int| 0 <= j < n implies !p(#[trigger] after[j]) by {
        assert(after[j] == items[j]);
    }
    crate::rows::lemma_none_found(after.take(n), p);
    crate::rows::lemma_first_found(after, p, n);
}

/// After an update the record can be read back by its id, and a record with
/// another id reads as before.
pub proof fn law_update_then_get(items: Seq<Json>, record: Json, id: Seq<char>, other: Seq<char>)
    requires
        has_id(record, id),
    ensures
        record_with(updated(items, id, record), id) == record,
        other != id ==> record_with(updated(items, id, record), other) == record_with(
            items,
            other,
        ),
{
    let after = updated(items, id, record);
    let p = |x: Json| has_id(x, id);
    lemma_first_matching(after, id);
    if known(items, id) {
        let i = choose|i: int| 0 <= i < items.len() && has_id(#[trigger] items[i], id);
        assert(after[i] == record);
    } else {
        assert(after[items.len() as int] == record);
    }
    assert(known(after, id));
    let k = choose|k: int|
        0 <= k < after.len() && has_id(#[trigger] after[k], id) && record_with(after, id)
            == after[k];
    if k < items.len() {
        if !has_id(items[k], id) {
            assert(after[k] == items[k]);
        }
    }
    if other != id {
        lemma_same_matches(items, after, other);
    }
}

/// Removing a connection leaves none with its id, and every other as it was.
pub proof fn law_remove(items: Seq<Json>, id: Seq<char>, other: Seq<char>)
    ensures
        !known(without(items, id), id),
        other != id ==> record_with(without(items, id), other) == record_with(items, other),
    decreases items.len(),
{
    if items.len() > 0 {
        law_remove(items.drop_last(), id, other);
        let before = without(items.drop_last(), id);
        let last = items.last();
        let after = without(items, id);
        let po = |x: Json| has_id(x, other);
        if has_id(last, id) {
            assert(after == before);
            if other != id {
                assert(items =~= items.drop_last().push(last));
                lemma_push_other(items.drop_last(), last, other);
            }
        } else {
            assert(after == before.push(last));
            assert forall|j: int| 0 <= j < after.len() implies !has_id(#[trigger] after[j], id) by {
                if j < before.len() {
                    assert(after[j] == before[j]);
                }
            }
            if other != id {
                assert(items =~= items.drop_last().push(last));
                lemma_push_any(items.drop_last(), before, last, other);
            }
        }
    }
}

/// A text that may stand on a line of its own: without line breaks, without
/// space around it, and not empty.
pub open spec fn is_line(t: Seq<char>) -> bool {
    t.len() > 0 && crate::text::is_trimmed(t) && !t.contains('\n')
}

proof fn lemma_file_lines(texts: Seq<Seq<char>>)
    requires
        forall|i: int| 0 <= i < texts.len() ==> is_line(#[trigger] texts[i]),
    ensures
        crate::text::split(file_of(texts), '\n') == texts.push(Seq::empty()),
    decreases texts.len(),
{
    if texts.len() == 0 {
        assert(crate::text::split(file_of(texts), '\n') =~= texts.push(Seq::empty()));
    } else {
        let before = texts.drop_last();
        let last = texts.last();
        assert forall|i: int| 0 <= i < before.len() implies is_line(#[trigger] before[i]) by {
            assert(before[i] == texts[i]);
        }
        assert(is_line(texts[texts.len() - 1]));
        lemma_file_lines(before);
        let f = file_of(before);
        crate::text::law_split_append(f, last, '\n');
        crate::text::law_split_push(f + last, '\n', '\n');
        reveal_strlit("\n");
        assert("\n"@ =~= seq!['\n']);
        assert(file_of(texts) =~= (f + last).push('\n'));
        let parts = before.push(Seq::<char>::empty());
        assert(parts.last() + last =~= last);
        assert(parts.drop_last() =~= before);
        assert(before.push(last) =~= texts);
    }
}

/// What was written to a connections file is what is read from it.
pub proof fn law_file_round_trip(texts: Seq<Seq<char>>)
    requires
        forall|i: int| 0 <= i < texts.len() ==> is_line(#[trigger] texts[i]),
    ensures
        lines_kept(crate::text::split(file_of(texts), '\n')) == texts,
{
    lemma_file_lines(texts);
    lemma_lines_kept(texts);
    let all = texts.push(Seq::<char>::empty());
    assert(all.drop_last() =~= texts);
    assert(crate::text::trim(Seq::<char>::empty()).len() == 0) by {
        crate::text::lemma_trim_len(Seq::empty());
    }
}

proof fn lemma_lines_kept(texts: Seq<Seq<char>>)
    requires
        forall|i: int| 0 <= i < texts.len() ==> is_line(#[trigger] texts[i]),
    ensures
        lines_kept(texts) == texts,
    decreases texts.len(),
{
    if texts.len() > 0 {
        let before = texts.drop_last();
        assert forall|i: int| 0 <= i < before.len() implies is_line(#[trigger] before[i]) by {
            assert(before[i] == texts[i]);
        }
        lemma_lines_kept(before);
        assert(is_line(texts[texts.len() - 1]));
        crate::text::law_trim_fixed(texts.last());
        assert(before.push(texts.last()) =~= texts);
    } else {
        assert(lines_kept(texts) =~= texts);
    }
}

/// Patching touches the records with the id alone.
pub proof fn law_patch_keeps_others(items: Seq<Json>, id: Seq<char>, changes: Json, i: int)
    requires
        0 <= i < items.len(),
        !has_id(items[i], id),
    ensures
        patched(items, id, changes).len() == items.len(),
        patched(items, id, changes)[i] == items[i],
{
}

/// A patched record has the members of the changes, of several under one key the
/// last, and otherwise its own.
pub proof fn law_patched_members(
    target: Seq<(Seq<char>, Json)>,
    source: Seq<(Seq<char>, Json)>,
    key: Seq<char>,
)
    ensures
        merged(Json::Object(target), Json::Object(source)).get(key)
            == match crate::value::last_key(source, key) {
            Some(v) => Some(v),
            None => Json::Object(target).get(key),
        },
{
    crate::value::law_merge(target, source, key);
}

proof fn lemma_first_matching(items: Seq<Json>, id: Seq<char>)
    ensures
        known(items, id) ==> exists|k: int|
            0 <= k < items.len() && has_id(#[trigger] items[k], id) && record_with(items, id)
                == items[k],
{
    let p = |x: Json| has_id(x, id);
    if known(items, id) {
        let i = choose|i: int| 0 <= i < items.len() && has_id(#[trigger] items[i], id);
        crate::rows::lemma_first_of(items, p, i);
        let k = choose|k: int|
            0 <= k < items.len() && p(#[trigger] items[k]) && crate::rows::first_where(items, p)
                == Some(items[k]);
        assert(has_id(items[k], id));
    }
}

proof fn lemma_push_other(items: Seq<Json>, last: Json, other: Seq<char>)
    requires
        !has_id(last, other),
    ensures
        record_with(items.push(last), other) == record_with(items, other),
{
    crate::rows::lemma_first_push(items, |x: Json| has_id(x, other), last);
}

proof fn lemma_push_any(a: Seq<Json>, b: Seq<Json>, last: Json, other: Seq<char>)
    requires
        record_with(b, other) == record_with(a, other),
    ensures
        record_with(b.push(last), other) == record_with(a.push(last), other),
{
    let p = |x: Json| has_id(x, other);
    crate::rows::lemma_first_push(a, p, last);
    crate::rows::lemma_first_push(b, p, last);
    lemma_record_known(a, other);
    lemma_record_known(b, other);
    if !known(a, other) {
        assert forall|j: int| 0 <= j < a.len() implies !p(#[trigger] a[j]) by {}
        crate::rows::lemma_none_found(a, p);
    } else {
        lemma_first_matching(a, other);
    }
    if !known(b, other) {
        assert forall|j: int| 0 <= j < b.len() implies !p(#[trigger] b[j]) by {}
        crate::rows::lemma_none_found(b, p);
    } else {
        lemma_first_matching(b, other);
    }
}

proof fn lemma_same_matches(items: Seq<Json>, after: Seq<Json>, other: Seq<char>)
    requires
        after.len() >= items.len(),
        forall|j: int|
            0 <= j < items.len() ==> has_id(#[trigger] after[j], other) == has_id(
                items[j],
                other,
            ) && (has_id(items[j], other) ==> after[j] == items[j]),
        forall|j: int| items.len() <= j < after.len() ==> !has_id(#[trigger] after[j], other),
    ensures
        record_with(after, other) == record_with(items, other),
    decreases after.len(),
{
    let p = |x: Json| has_id(x, other);
    if after.len() > items.len() {
        let prefix = after.drop_last();
        assert forall|j: int| 0 <= j < items.len() implies has_id(#[trigger] prefix[j], other)
            == has_id(items[j], other) && (has_id(items[j], other) ==> prefix[j] == items[j]) by {
            assert(prefix[j] == after[j]);
        }
        assert forall|j: int| items.len() <= j < prefix.len() implies !has_id(
            #[trigger] prefix[j],
            other,
        ) by {
            assert(prefix[j] == after[j]);
        }
        lemma_same_matches(items, prefix, other);
        assert(after =~= prefix.push(after.last()));
        assert(!has_id(after[after.len() - 1], other));
        lemma_push_other(prefix, after.last(), other);
    } else if items.len() > 0 {
        let pa = after.drop_last();
        let pi = items.drop_last();
        assert forall|j: int| 0 <= j < pi.len() implies has_id(#[trigger] pa[j], other) == has_id(
            pi[j],
            other,
        ) && (has_id(pi[j], other) ==> pa[j] == pi[j]) by {
            assert(pa[j] == after[j]);
            assert(pi[j] == items[j]);
        }
        lemma_same_matches(pi, pa, other);
        let la = after.last();
        let li = items.last();
        assert(after =~= pa.push(la));
        assert(items =~= pi.push(li));
        assert(after[after.len() - 1] == la);
        if has_id(li, other) {
            assert(la == li);
            lemma_push_any(pi, pa, li, other);
        } else {
            lemma_push_other(pa, la, other);
            lemma_push_other(pi, li, other);
        }
    } else {
        assert(after =~= items);
    }
}

/// A record keeps an id of its own and gets the new one only where it has none or an empty one;
/// everything else in it stays.
pub proof fn law_with_id(
    members: Seq<(Seq<char>, Json)>,
    new_id: Seq<char>,
    id: Seq<char>,
    key: Seq<char>,
)
    ensures
        ({
            let record = Json::Object(members);
            &&& record.text("_id"@) == Some(id) && id.len() > 0 ==> with_id(record, new_id) == record
                && id_saved(record, new_id) == id
            &&& record.text("_id"@) is None || record.text("_id"@) == Some(Seq::<char>::empty())
                ==> with_id(record, new_id).text("_id"@) == Some(new_id) && id_saved(
                record,
                new_id,
            ) == new_id
            &&& key != "_id"@ ==> with_id(record, new_id).get(key) == record.get(key)
        }),
{
    crate::value::law_put_then_find(members, "_id"@, Json::Str(new_id), "_id"@);
    crate::value::law_put_then_find(members, "_id"@, Json::Str(new_id), key);
}

/// An update of a known record leaves the number of records, one of an unknown record adds it as
/// the last.
pub proof fn law_updated_list(items: Seq<Json>, id: Seq<char>, record: Json, i: int)
    ensures
        known(items, id) ==> updated(items, id, record).len() == items.len(),
        !known(items, id) ==> updated(items, id, record) == items.push(record),
        0 <= i < items.len() && items[i].text("_id"@) != Some(id) ==> updated(items, id, record)[i]
            == items[i],
        0 <= i < items.len() && items[i].text("_id"@) == Some(id) ==> updated(items, id, record)[i]
            == record,
{
    if 0 <= i < items.len() {
        assert(has_id(items[i], id) ==> known(items, id));
    }
}

/// A patch changes each record of that id by the changes.
pub proof fn law_patched_record(items: Seq<Json>, id: Seq<char>, changes: Json, i: int)
    requires
        0 <= i < items.len(),
        items[i].text("_id"@) == Some(id),
    ensures
        patched(items, id, changes)[i] == merged(items[i], changes),
{
}

/// Exactly the records of that id are taken out; the others stay in their order.
pub proof fn law_without(items: Seq<Json>, r: Json, id: Seq<char>)
    ensures
        without(Seq::empty(), id).len() == 0,
        r.text("_id"@) == Some(id) ==> without(items.push(r), id) == without(items, id),
        r.text("_id"@) != Some(id) ==> without(items.push(r), id) == without(items, id).push(r),
{
    let p = |x: Json| !has_id(x, id);
    let f = |a: Json|
        if p(a) {
            Some(a)
        } else {
            None
        };
    crate::rows::law_pick_push(items, f, r);
}

/// A record is found under its id: the first one of that id. Without one the answer is null.
pub proof fn law_record_with(items: Seq<Json>, id: Seq<char>, i: int)
    ensures
        0 <= i < items.len() && items[i].text("_id"@) == Some(id) && (forall|j: int|
            0 <= j < i ==> (#[trigger] items[j]).text("_id"@) != Some(id)) ==> record_with(
            items,
            id,
        ) == items[i],
        (forall|j: int| 0 <= j < items.len() ==> (#[trigger] items[j]).text("_id"@) != Some(id))
            ==> record_with(items, id) == Json::Null,
{
    let p = |x: Json| has_id(x, id);
    if 0 <= i < items.len() && items[i].text("_id"@) == Some(id) && (forall|j: int|
        0 <= j < i ==> (#[trigger] items[j]).text("_id"@) != Some(id)) {
        assert forall|j: int| 0 <= j < items.take(i).len() implies !p(
            #[trigger] items.take(i)[j],
        ) by {
            assert(items.take(i)[j] == items[j]);
        }
        crate::rows::lemma_none_found(items.take(i), p);
        crate::rows::lemma_first_found(items, p, i);
    }
    if forall|j: int| 0 <= j < items.len() ==> (#[trigger] items[j]).text("_id"@) != Some(id) {
        crate::rows::lemma_none_found(items, p);
    }
}

/// The lines of a file that hold something are its records, without the blanks around them.
pub proof fn law_lines(lines: Seq<Seq<char>>, line: Seq<char>)
    ensures
        lines_kept(Seq::empty()).len() == 0,
        crate::text::trim(line).len() == 0 ==> lines_kept(lines.push(line)) == lines_kept(lines),
        crate::text::trim(line).len() > 0 ==> lines_kept(lines.push(line)) == lines_kept(
            lines,
        ).push(crate::text::trim(line)),
{
    let f = |l: Seq<char>| record_line(l);
    crate::rows::law_pick_push(lines, f, line);
}

/// A record is saved under its own id in place of the one that has it, and as the last one where
/// it brings no id.
pub proof fn law_saved(items: Seq<Json>, args: Json, new_id: Seq<char>, id: Seq<char>)
    ensures
        args.text("_id"@) is None ==> saved(items, args, new_id, false) == items.push(
            with_id(args, new_id),
        ),
        args.text("_id"@) == Some(id) && id.len() > 0 && !known(items, id) ==> saved(
            items,
            args,
            new_id,
            false,
        ) == items.push(args),
        args.text("_id"@) == Some(id) && id.len() > 0 && known(items, id) ==> saved(
            items,
            args,
            new_id,
            false,
        ).len() == items.len(),
{
}

/// What a call is to change is the member of that name, and nothing where there is none.
pub proof fn law_object_argument(args: Json, key: Seq<char>)
    ensures
        args.get(key) matches Some(v) ==> object_argument(args, key) == v,
        args.get(key) is None ==> object_argument(args, key) == Json::Object(Seq::empty()),
{
}

/// The databases of a record are those in its list.
pub proof fn law_databases(record: Json, items: Seq<Json>)
    ensures
        record.get("databases"@) == Some(Json::Array(items)) ==> databases_of(record) == items,
        record.get("databases"@) is None ==> databases_of(record).len() == 0,
{
}

/// The entry of a database has its name and the changes.
pub proof fn law_database_entry(
    database: Seq<char>,
    source: Seq<(Seq<char>, Json)>,
    key: Seq<char>,
)
    ensures
        database_entry(database, Json::Object(source)).get(key)
            == match crate::value::last_key(source, key) {
            Some(v) => Some(v),
            None => if key == "name"@ {
                Some(Json::Str(database))
            } else {
                None
            },
        },
{
    crate::encoding::law_one_member("name"@, Json::Str(database), key);
    crate::value::law_merge(seq![("name"@, Json::Str(database))], source, key);
}

/// The first entry of a database is replaced; where there is none, the entry is added as the
/// last. The others stay.
pub proof fn law_upserted(entries: Seq<Json>, database: Seq<char>, entry: Json, i: int)
    ensures
        0 <= i < entries.len() && entries[i].text("name"@) == Some(database) && (forall|j: int|
            0 <= j < i ==> (#[trigger] entries[j]).text("name"@) != Some(database)) ==> upserted(
            entries,
            database,
            entry,
        ) == entries.update(i, entry),
        (forall|j: int|
            0 <= j < entries.len() ==> (#[trigger] entries[j]).text("name"@) != Some(database))
            ==> upserted(entries, database, entry) == entries.push(entry),
{
    if 0 <= i < entries.len() && entries[i].text("name"@) == Some(database) && (forall|j: int|
        0 <= j < i ==> (#[trigger] entries[j]).text("name"@) != Some(database)) {
        lemma_position(entries, database, 0, i);
    }
    if forall|j: int|
        0 <= j < entries.len() ==> (#[trigger] entries[j]).text("name"@) != Some(database) {
        lemma_position(entries, database, 0, entries.len() as int);
    }
}

proof fn lemma_position(entries: Seq<Json>, database: Seq<char>, from: int, i: int)
    requires
        0 <= from <= i <= entries.len(),
        forall|j: int| from <= j < i ==> (#[trigger] entries[j]).text("name"@) != Some(database),
        i < entries.len() ==> entries[i].text("name"@) == Some(database),
    ensures
        entry_position(entries, database, from) == i,
    decreases i - from,
{
    if from < i {
        lemma_position(entries, database, from + 1, i);
    }
}

/// The answer to a patch is the last record of that id.
pub proof fn law_last_with(items: Seq<Json>, r: Json, id: Seq<char>)
    ensures
        last_with(Seq::empty(), id) is None,
        r.text("_id"@) == Some(id) ==> last_with(items.push(r), id) == Some(r),
        r.text("_id"@) != Some(id) ==> last_with(items.push(r), id) == last_with(items, id),
{
    assert(items.push(r).drop_last() =~= items);
}

} // verus!
