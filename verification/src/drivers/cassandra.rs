//! Cassandra engine driver.
//!
//! Numbers map to JSON numbers, booleans to JSON booleans, timestamps and dates
//! to ISO-8601 text, blobs to base64, collections to JSON arrays and objects.
//!
//! Cassandra has no traditional SQL transactions, stored procedures, or foreign
//! keys. The analysis reads `system_schema.tables` and `system_schema.columns`.
use vstd::prelude::*;

use crate::connection::{ConnectionDefinition, ConnectionDefinitionView};
use crate::datetime::{date_text, instant_text, time_fraction_text};
use crate::dbinfo::{
    ColumnInfo, ColumnInfoView, ColumnReference, ColumnReferenceView, ConstraintType, DatabaseInfo,
    DatabaseInfoView, NamedObjectInfo, PrimaryKeyInfo, PrimaryKeyInfoView, TableInfo, TableInfoView,
};
use crate::driver::{
    list_databases_under, stream_single_result, Capabilities, DatabaseEntry, ServerVersion,
    ServerVersionView, StreamEvent,
};
use crate::drivers::cassandra_queries::{SQL_COLUMNS, SQL_TABLES};
use crate::drivers::common::{constraint_over, object_info, plain_reference};
use crate::encoding::{binary_value, number_or_null, uuid_text};
use crate::error::{DbgmError, DbgmResult};
use crate::numbers::decimal;
use crate::query::{QueryResultColumn, QueryResultColumnView};
use crate::rows::{
    get_str, get_text, map_list, new_list, or_empty, push_item, rows_with_text, text_is,
};
use crate::text::{
    concat2, concat3, concat5, contains, joined, replaced, split_on, strip_prefix, trimmed,
};
use crate::value::{object_from, put_entry, Json, Value};

verus! {

/// Dotted engine id for Cassandra.
pub const CASSANDRA_ENGINE: &'static str = "cassandra@dbgate-plugin-cassandra";

/// The query for the version of the server.
pub const SQL_VERSION: &'static str = "SELECT release_version FROM system.local";

/// The query for the keyspaces of the server.
pub const SQL_KEYSPACES: &'static str = "SELECT keyspace_name FROM system_schema.keyspaces";

/// The Cassandra driver.
pub struct CassandraDriver;

impl Default for CassandraDriver {
    fn default() -> (r: Self)
        ensures
            r == CassandraDriver,
    {
        CassandraDriver::new()
    }
}

impl CassandraDriver {
    pub fn new() -> (r: Self)
        ensures
            r == CassandraDriver,
    {
        CassandraDriver
    }

    pub fn engine(&self) -> (r: &'static str)
        ensures
            r@ == CASSANDRA_ENGINE@,
    {
        CASSANDRA_ENGINE
    }

    pub fn title(&self) -> (r: &'static str)
        ensures
            r@ == "Cassandra"@,
    {
        "Cassandra"
    }

    pub fn capabilities(&self) -> (r: Capabilities)
        ensures
            r == (Capabilities {
                read_only_sessions: false,
                supports_transactions: false,
                supports_native_backup: false,
                supports_native_restore: false,
                supports_server_summary: false,
                default_port: Some(9042),
            }),
    {
        Capabilities {
            read_only_sessions: false,
            supports_transactions: false,
            supports_native_backup: false,
            supports_native_restore: false,
            supports_server_summary: false,
            default_port: Some(9042),
        }
    }
}

// ---------------------------------------------------------------------------
// Connecting
// ---------------------------------------------------------------------------

/// The contact point that an entry of the server list names, unless the entry is
/// blank: without its scheme, and with the port where it has none.
pub open spec fn contact_point(entry: Seq<char>, port: nat) -> Option<Seq<char>> {
    let s = crate::text::trim(entry);
    if s.len() == 0 {
        None
    } else {
        let host = if crate::text::has_prefix(s, "cassandra://"@) {
            s.skip("cassandra://"@.len() as int)
        } else {
            s
        };
        if crate::text::holds(host, ":"@) {
            Some(host)
        } else {
            Some(host + ":"@ + crate::numbers::dec(port))
        }
    }
}

/// The port of a definition.
pub open spec fn port_of(def: ConnectionDefinitionView) -> nat {
    match def.port {
        Some(p) => p as nat,
        None => 9042,
    }
}

/// The contact points of a list of entries.
pub open spec fn points_among(entries: Seq<Seq<char>>, port: nat) -> Seq<Seq<char>> {
    crate::rows::pick(entries, |e: Seq<char>| contact_point(e, port))
}

/// The contact points that a server list names.
pub open spec fn contact_points(server: Seq<char>, port: nat) -> Seq<Seq<char>> {
    points_among(crate::text::split(server, ','), port)
}

fn build_contact_point(entry: &str, port: u32) -> (r: Option<String>)
    ensures
        r.deep_view() == contact_point(entry@, port as nat),
{
    let s = trimmed(entry);
    if s.as_str().is_empty() {
        return None;
    }
    let host = match strip_prefix(s.as_str(), "cassandra://") {
        Some(rest) => rest,
        None => s,
    };
    if contains(host.as_str(), ":") {
        Some(host)
    } else {
        Some(concat3(host.as_str(), ":", decimal(port as u64).as_str()))
    }
}

/// Parses the server of a definition into a list of contact points `host:port`:
/// the entries are separated by commas, may carry a `cassandra://` scheme and
/// have the port appended where they have none.
pub fn parse_contact_points(def: &ConnectionDefinition) -> (r: DbgmResult<Vec<String>>)
    ensures
        match (r, def.deep_view().server) {
            (Ok(points), Some(server)) => {
                &&& points.deep_view() == contact_points(server, port_of(def.deep_view()))
                &&& points@.len() > 0
            },
            (Err(e), Some(server)) => {
                &&& contact_points(server, port_of(def.deep_view())).len() == 0
                &&& e.deep_view() == crate::error::generic_error(
                    "Cassandra connection requires at least one contact point"@,
                )
            },
            (Err(e), None) => e.deep_view() == crate::error::generic_error(
                "Cassandra connection requires a server host"@,
            ),
            (Ok(_), None) => false,
        },
{
    let raw = match &def.server {
        Some(s) => s,
        None => return Err(
            DbgmError::new("Cassandra connection requires a server host".to_owned()),
        ),
    };
    let port: u32 = match def.port {
        Some(p) => p,
        None => 9042,
    };
    let entries = split_on(raw.as_str(), ',');
    let ghost all = crate::text::split(raw@, ',');
    assert(entries.deep_view() =~= all);
    let mut points: Vec<String> = new_list();
    let mut i: usize = 0;
    while i < entries.len()
        invariant
            i <= entries@.len(),
            all == entries.deep_view(),
            points.deep_view() == points_among(all.take(i as int), port as nat),
        decreases entries@.len() - i,
    {
        proof {
            crate::rows::lemma_take_next(all, i as int);
        }
        if let Some(point) = build_contact_point(entries[i].as_str(), port) {
            push_item(&mut points, point);
        }
        i = i + 1;
    }
    proof {
        crate::rows::lemma_take_all(all);
        assert(points.deep_view().len() == points@.len());
    }
    if points.len() == 0 {
        return Err(
            DbgmError::new("Cassandra connection requires at least one contact point".to_owned()),
        );
    }
    Ok(points)
}

/// What a session is opened with. The keyspace is empty where none is chosen.
pub struct CassandraConfig {
    pub contact_points: Vec<String>,
    pub keyspace: String,
    pub local_dc: String,
    pub credentials: Option<(String, String)>,
}

/// What a [`CassandraConfig`] holds.
pub struct CassandraConfigView {
    pub contact_points: Seq<Seq<char>>,
    pub keyspace: Seq<char>,
    pub local_dc: Seq<char>,
    pub credentials: Option<(Seq<char>, Seq<char>)>,
}

impl DeepView for CassandraConfig {
    type V = CassandraConfigView;

    open spec fn deep_view(&self) -> CassandraConfigView {
        CassandraConfigView {
            contact_points: self.contact_points.deep_view(),
            keyspace: self.keyspace@,
            local_dc: self.local_dc@,
            credentials: self.credentials.deep_view(),
        }
    }
}

/// The data centre that a definition prefers.
pub open spec fn local_dc_of(def: ConnectionDefinitionView) -> Seq<char> {
    match def.extra_field("localDataCenter"@) {
        Some(Json::Str(s)) => s,
        _ => "datacenter1"@,
    }
}

/// What a session for a definition with the given contact points is opened with.
pub open spec fn config_of(def: ConnectionDefinitionView, points: Seq<Seq<char>>) ->
    CassandraConfigView {
    CassandraConfigView {
        contact_points: points,
        keyspace: or_empty(def.database),
        local_dc: local_dc_of(def),
        credentials: match def.user {
            Some(user) => Some((user, or_empty(def.password))),
            None => None,
        },
    }
}

fn text_or_empty(t: &Option<String>) -> (r: String)
    ensures
        r@ == or_empty(t.deep_view()),
{
    match t {
        Some(s) => s.clone(),
        None => String::new(),
    }
}

/// What a session for a definition with the given contact points is opened with.
pub fn build_config(def: &ConnectionDefinition, contact_points: Vec<String>) -> (r: CassandraConfig)
    ensures
        r.deep_view() == config_of(def.deep_view(), contact_points.deep_view()),
{
    let local_dc = match def.extra_field("localDataCenter") {
        Some(v) => match v.as_str() {
            Some(s) => s.to_owned(),
            None => "datacenter1".to_owned(),
        },
        None => "datacenter1".to_owned(),
    };
    let credentials = match &def.user {
        Some(user) => Some((user.clone(), text_or_empty(&def.password))),
        None => None,
    };
    CassandraConfig {
        contact_points,
        keyspace: text_or_empty(&def.database),
        local_dc,
        credentials,
    }
}

/// The error for a keyspace that cannot be used, with the cause.
pub fn keyspace_error(keyspace: &str, cause: String) -> (r: DbgmError)
    ensures
        r.deep_view() == (crate::error::DbgmErrorView {
            code: crate::error::DBGM_GENERIC@,
            message: "Cannot use Cassandra keyspace '"@ + keyspace@ + "'"@,
            source: Some(cause@),
        }),
{
    DbgmError::with_source(concat3("Cannot use Cassandra keyspace '", keyspace, "'"), cause)
}

/// Substitutes `#DATABASE#` in a template with the given keyspace, unless its
/// name contains a single quote.
pub fn hydrate_keyspace_query(template: &str, keyspace: &str) -> (r: DbgmResult<String>)
    ensures
        match r {
            Ok(sql) => !crate::text::holds(keyspace@, "'"@) && sql@ == crate::text::replace(
                template@,
                "#DATABASE#"@,
                keyspace@,
            ),
            Err(e) => crate::text::holds(keyspace@, "'"@) && e.deep_view()
                == crate::error::generic_error(
                "Cassandra keyspace name contains invalid character"@,
            ),
        },
{
    proof {
        reveal_strlit("#DATABASE#");
    }
    if contains(keyspace, "'") {
        return Err(
            DbgmError::new("Cassandra keyspace name contains invalid character".to_owned()),
        );
    }
    Ok(replaced(template, "#DATABASE#", keyspace))
}

// ---------------------------------------------------------------------------
// Value mapping
// ---------------------------------------------------------------------------

/// A cell as the client hands it out. Floating-point numbers are given by their
/// bits. Dates count days from 2^31 days before the Unix epoch, times
/// nanoseconds since midnight, timestamps milliseconds since the Unix epoch;
/// each comes with the client's own text for it, which stands in where it is out
/// of range. Each key of a map comes with the client's text for it. `Shown` is a
/// value of any other kind, as the client writes it.
pub enum CqlValue {
    Boolean(bool),
    Int(i32),
    BigInt(i64),
    SmallInt(i16),
    TinyInt(i8),
    Counter(i64),
    Float(u64),
    Double(u64),
    Text(String),
    Ascii(String),
    Timestamp(i64, String),
    Date(u32, String),
    Time(i64, String),
    Inet(String),
    Uuid([u8; 16]),
    Timeuuid([u8; 16]),
    List(Vec<CqlValue>),
    SetOf(Vec<CqlValue>),
    MapOf(Vec<(CqlValue, String, CqlValue)>),
    Tuple(Vec<Option<CqlValue>>),
    Empty,
    Blob(Vec<u8>),
    Shown(String),
}

/// The days from the common era's begin of a date, where they can be counted.
pub open spec fn date_days(days: u32) -> Option<i32> {
    let n = days as int - 0x8000_0000 + 719163;
    if n <= i32::MAX {
        Some(n as i32)
    } else {
        None
    }
}

/// The text of a date, where it is in range.
pub open spec fn date_form(days: u32) -> Option<Seq<char>> {
    match date_days(days) {
        Some(n) => crate::datetime::date_display(n),
        None => None,
    }
}

/// The text of a time of day, where it is in range.
pub open spec fn time_form(nanos: i64) -> Option<Seq<char>> {
    if nanos < 0 || nanos / 1_000_000_000 > u32::MAX {
        None
    } else {
        crate::datetime::time_fraction_format(
            (nanos / 1_000_000_000) as u32,
            (nanos % 1_000_000_000) as u32,
        )
    }
}

/// The text, or another where there is none.
pub open spec fn text_or(t: Option<Seq<char>>, other: Seq<char>) -> Seq<char> {
    match t {
        Some(s) => s,
        None => other,
    }
}

/// The text under which a key stands in an object.
pub open spec fn key_text(key: CqlValue, shown: Seq<char>) -> Seq<char> {
    match key {
        CqlValue::Text(s) => s@,
        CqlValue::Ascii(s) => s@,
        _ => shown,
    }
}

/// The JSON form of a value.
pub open spec fn cql_json(v: CqlValue) -> Json
    decreases v,
{
    match v {
        CqlValue::Boolean(b) => Json::Bool(b),
        CqlValue::Int(n) => Json::Int(n as int),
        CqlValue::BigInt(n) => Json::Int(n as int),
        CqlValue::SmallInt(n) => Json::Int(n as int),
        CqlValue::TinyInt(n) => Json::Int(n as int),
        CqlValue::Counter(n) => Json::Int(n as int),
        CqlValue::Float(d) => crate::encoding::double_json(d),
        CqlValue::Double(d) => crate::encoding::double_json(d),
        CqlValue::Text(s) => Json::Str(s@),
        CqlValue::Ascii(s) => Json::Str(s@),
        CqlValue::Timestamp(millis, shown) => Json::Str(
            text_or(crate::datetime::instant_rfc3339(millis), shown@),
        ),
        CqlValue::Date(days, shown) => Json::Str(text_or(date_form(days), shown@)),
        CqlValue::Time(nanos, shown) => Json::Str(text_or(time_form(nanos), shown@)),
        CqlValue::Inet(s) => Json::Str(s@),
        CqlValue::Uuid(b) => Json::Str(crate::encoding::uuid_form(b@)),
        CqlValue::Timeuuid(b) => Json::Str(crate::encoding::uuid_form(b@)),
        CqlValue::List(items) => Json::Array(
            Seq::new(
                items@.len(),
                |i: int|
                    if 0 <= i < items@.len() {
                        cql_json(items@[i])
                    } else {
                        Json::Null
                    },
            ),
        ),
        CqlValue::SetOf(items) => Json::Array(
            Seq::new(
                items@.len(),
                |i: int|
                    if 0 <= i < items@.len() {
                        cql_json(items@[i])
                    } else {
                        Json::Null
                    },
            ),
        ),
        CqlValue::MapOf(pairs) => Json::Object(
            crate::value::merge_keys(Seq::empty(), members_of(pairs)),
        ),
        CqlValue::Tuple(items) => Json::Array(
            Seq::new(
                items@.len(),
                |i: int|
                    if 0 <= i < items@.len() {
                        match items@[i] {
                            Some(item) => cql_json(item),
                            None => Json::Null,
                        }
                    } else {
                        Json::Null
                    },
            ),
        ),
        CqlValue::Empty => Json::Null,
        CqlValue::Blob(b) => crate::encoding::binary_json(b@),
        CqlValue::Shown(s) => Json::Str(s@),
    }
}

/// The members that the pairs of a map become.
pub open spec fn members_of(pairs: Vec<(CqlValue, String, CqlValue)>) -> Seq<(Seq<char>, Json)>
    decreases pairs,
{
    Seq::new(
        pairs@.len(),
        |i: int|
            if 0 <= i < pairs@.len() {
                (key_text(pairs@[i].0, pairs@[i].1@), cql_json(pairs@[i].2))
            } else {
                (Seq::empty(), Json::Null)
            },
    )
}

/// The JSON form of a cell that may be missing.
pub open spec fn cell_json(cell: Option<CqlValue>) -> Json {
    match cell {
        Some(v) => cql_json(v),
        None => Json::Null,
    }
}

/// The JSON forms of some values.
pub open spec fn all_json(items: Seq<CqlValue>) -> Seq<Json> {
    Seq::new(items.len(), |i: int| cql_json(items[i]))
}

/// The JSON forms of some cells.
pub open spec fn cells_json(items: Seq<Option<CqlValue>>) -> Seq<Json> {
    Seq::new(items.len(), |i: int| cell_json(items[i]))
}

/// The members that the pairs of a map become.
pub open spec fn pairs_json(pairs: Seq<(CqlValue, String, CqlValue)>) -> Seq<(Seq<char>, Json)> {
    Seq::new(
        pairs.len(),
        |i: int| (key_text(pairs[i].0, pairs[i].1@), cql_json(pairs[i].2)),
    )
}

proof fn lemma_compound_json(v: CqlValue)
    ensures
        v matches CqlValue::List(items) ==> cql_json(v) == Json::Array(all_json(items@)),
        v matches CqlValue::SetOf(items) ==> cql_json(v) == Json::Array(all_json(items@)),
        v matches CqlValue::MapOf(pairs) ==> cql_json(v) == Json::Object(
            crate::value::merge_keys(Seq::empty(), pairs_json(pairs@)),
        ),
        v matches CqlValue::Tuple(items) ==> cql_json(v) == Json::Array(cells_json(items@)),
{
    match v {
        CqlValue::List(items) => {
            assert(cql_json(v)->Array_0 =~= all_json(items@));
        },
        CqlValue::SetOf(items) => {
            assert(cql_json(v)->Array_0 =~= all_json(items@));
        },
        CqlValue::MapOf(pairs) => {
            assert(members_of(pairs) =~= pairs_json(pairs@));
        },
        CqlValue::Tuple(items) => {
            assert(cql_json(v)->Array_0 =~= cells_json(items@));
        },
        _ => {},
    }
}

fn date_value(days: u32, shown: &String) -> (r: Value)
    ensures
        r@ == Json::Str(text_or(date_form(days), shown@)),
{
    let n: i64 = days as i64 - 0x8000_0000 + 719163;
    let text = if n <= i32::MAX as i64 {
        date_text(n as i32)
    } else {
        None
    };
    match text {
        Some(s) => Value::Str(s),
        None => Value::Str(shown.clone()),
    }
}

fn time_value(nanos: i64, shown: &String) -> (r: Value)
    ensures
        r@ == Json::Str(text_or(time_form(nanos), shown@)),
{
    let text = if nanos < 0 || nanos / 1_000_000_000 > u32::MAX as i64 {
        None
    } else {
        time_fraction_text((nanos / 1_000_000_000) as u32, (nanos % 1_000_000_000) as u32)
    };
    match text {
        Some(s) => Value::Str(s),
        None => Value::Str(shown.clone()),
    }
}

/// The text under which a key stands in an object: the text itself, or the
/// client's text for a key of another kind.
pub fn cql_map_key(key: &CqlValue, shown: &str) -> (r: String)
    ensures
        r@ == key_text(*key, shown@),
{
    match key {
        CqlValue::Text(s) => s.clone(),
        CqlValue::Ascii(s) => s.clone(),
        _ => shown.to_owned(),
    }
}

fn cql_list(items: &Vec<CqlValue>) -> (r: Value)
    ensures
        r@ == Json::Array(all_json(items@)),
    decreases items,
{
    let mut out: Vec<Value> = Vec::new();
    let mut i: usize = 0;
    while i < items.len()
        invariant
            i <= items@.len(),
            out@.len() == i,
            forall|j: int| 0 <= j < i ==> (#[trigger] out@[j])@ == cql_json(items@[j]),
        decreases items@.len() - i,
    {
        proof {
            assert(decreases_to!(items => items@));
            assert(decreases_to!(items@ => items@[i as int]));
        }
        out.push(cql_value_to_json(&items[i]));
        i = i + 1;
    }
    let r = Value::Array(out);
    proof {
        crate::value::lemma_compound_views(r);
        assert(crate::value::values(out@) =~= all_json(items@));
    }
    r
}

fn cql_tuple(items: &Vec<Option<CqlValue>>) -> (r: Value)
    ensures
        r@ == Json::Array(cells_json(items@)),
    decreases items,
{
    let mut out: Vec<Value> = Vec::new();
    let mut i: usize = 0;
    while i < items.len()
        invariant
            i <= items@.len(),
            out@.len() == i,
            forall|j: int| 0 <= j < i ==> (#[trigger] out@[j])@ == cell_json(items@[j]),
        decreases items@.len() - i,
    {
        proof {
            assert(decreases_to!(items => items@));
            assert(decreases_to!(items@ => items@[i as int]));
        }
        match &items[i] {
            Some(item) => {
                proof {
                    assert(decreases_to!(items@[i as int] => items@[i as int]->0));
                }
                out.push(cql_value_to_json(item));
            },
            None => {
                out.push(Value::Null);
            },
        }
        i = i + 1;
    }
    let r = Value::Array(out);
    proof {
        crate::value::lemma_compound_views(r);
        assert(crate::value::values(out@) =~= cells_json(items@));
    }
    r
}

fn cql_map(pairs: &Vec<(CqlValue, String, CqlValue)>) -> (r: Value)
    ensures
        r@ == Json::Object(crate::value::merge_keys(Seq::empty(), pairs_json(pairs@))),
    decreases pairs,
{
    let ghost all = pairs_json(pairs@);
    let ghost goal = crate::value::merge_keys(Seq::empty(), all);
    let mut out: Vec<(String, Value)> = Vec::new();
    let mut i: usize = 0;
    assert(crate::value::entries(out@) =~= Seq::empty());
    assert(all.skip(0) =~= all);
    while i < pairs.len()
        invariant
            i <= pairs@.len(),
            all == pairs_json(pairs@),
            crate::value::merge_keys(crate::value::entries(out@), all.skip(i as int)) == goal,
        decreases pairs@.len() - i,
    {
        proof {
            assert(decreases_to!(pairs => pairs@));
            assert(decreases_to!(pairs@ => pairs@[i as int]));
            assert(decreases_to!(pairs@[i as int] => pairs@[i as int].2));
            assert(all.skip(i as int)[0] == all[i as int]);
            assert(all.skip(i as int).drop_first() =~= all.skip(i + 1));
        }
        let pair = &pairs[i];
        let value = cql_value_to_json(&pair.2);
        put_entry(&mut out, cql_map_key(&pair.0, pair.1.as_str()), value);
        i = i + 1;
    }
    let r = Value::Object(out);
    proof {
        crate::value::lemma_compound_views(r);
    }
    r
}

/// Maps a value to JSON.
pub fn cql_value_to_json(val: &CqlValue) -> (r: Value)
    ensures
        r@ == cql_json(*val),
    decreases val,
{
    proof {
        lemma_compound_json(*val);
    }
    match val {
        CqlValue::Boolean(b) => Value::Bool(*b),
        CqlValue::Int(n) => Value::Int(*n as i128),
        CqlValue::BigInt(n) => Value::Int(*n as i128),
        CqlValue::SmallInt(n) => Value::Int(*n as i128),
        CqlValue::TinyInt(n) => Value::Int(*n as i128),
        CqlValue::Counter(n) => Value::Int(*n as i128),
        CqlValue::Float(d) => number_or_null(*d),
        CqlValue::Double(d) => number_or_null(*d),
        CqlValue::Text(s) => Value::Str(s.clone()),
        CqlValue::Ascii(s) => Value::Str(s.clone()),
        CqlValue::Timestamp(millis, shown) => match instant_text(*millis) {
            Some(s) => Value::Str(s),
            None => Value::Str(shown.clone()),
        },
        CqlValue::Date(days, shown) => date_value(*days, shown),
        CqlValue::Time(nanos, shown) => time_value(*nanos, shown),
        CqlValue::Inet(s) => Value::Str(s.clone()),
        CqlValue::Uuid(b) => Value::Str(uuid_text(*b)),
        CqlValue::Timeuuid(b) => Value::Str(uuid_text(*b)),
        CqlValue::List(items) => cql_list(items),
        CqlValue::SetOf(items) => cql_list(items),
        CqlValue::MapOf(pairs) => cql_map(pairs),
        CqlValue::Tuple(items) => cql_tuple(items),
        CqlValue::Empty => Value::Null,
        CqlValue::Blob(b) => binary_value(b),
        CqlValue::Shown(s) => Value::Str(s.clone()),
    }
}

/// The name of the column of a cell: that of the metadata, else `col_{i}`.
pub open spec fn cell_name(columns: Seq<QueryResultColumnView>, i: int) -> Seq<char> {
    if i < columns.len() {
        columns[i].column_name
    } else {
        "col_"@ + crate::numbers::dec(i as nat)
    }
}

/// The JSON object of a row.
pub open spec fn row_json(
    cells: Seq<Option<CqlValue>>,
    columns: Seq<QueryResultColumnView>,
) -> Json {
    crate::value::row_object(
        Seq::new(cells.len(), |i: int| cell_name(columns, i)),
        cells_json(cells),
    )
}

/// Converts a row to a JSON object, zipping the column names of the result
/// metadata with the row's cells.
pub fn row_to_value(cells: &Vec<Option<CqlValue>>, columns: &Vec<QueryResultColumn>) -> (r: Value)
    ensures
        r@ == row_json(cells@, columns.deep_view()),
{
    let ghost all = cells_json(cells@);
    let mut names: Vec<String> = Vec::new();
    let mut values: Vec<Value> = Vec::new();
    let mut i: usize = 0;
    while i < cells.len()
        invariant
            i <= cells.len(),
            names@.len() == i,
            values@.len() == i,
            forall|j: int|
                0 <= j < i ==> (#[trigger] names@[j])@ == cell_name(columns.deep_view(), j),
            forall|j: int| 0 <= j < i ==> (#[trigger] values@[j])@ == cell_json(cells@[j]),
        decreases cells@.len() - i,
    {
        let name = if i < columns.len() {
            columns[i].column_name.clone()
        } else {
            concat2("col_", decimal(i as u64).as_str())
        };
        let value = match &cells[i] {
            Some(v) => cql_value_to_json(v),
            None => Value::Null,
        };
        names.push(name);
        values.push(value);
        i = i + 1;
    }
    proof {
        assert(names.deep_view() =~= Seq::new(
            cells@.len(),
            |i: int| cell_name(columns.deep_view(), i),
        ));
        assert(values.deep_view() =~= all);
    }
    object_from(&names, values)
}

// ---------------------------------------------------------------------------
// Type names
// ---------------------------------------------------------------------------

/// A type without parts.
#[derive(Debug, Clone, Copy, PartialEq, Eq, Structural)]
pub enum NativeType {
    Ascii,
    BigInt,
    Blob,
    Boolean,
    Counter,
    Date,
    Decimal,
    Double,
    Float,
    Int,
    Text,
    Timestamp,
    Timeuuid,
    Inet,
    SmallInt,
    TinyInt,
    Time,
    Duration,
    Uuid,
    Varint,
    Other,
}

/// The type of a collection.
pub enum CollectionType {
    List(Box<ColumnType>),
    MapOf(Box<ColumnType>, Box<ColumnType>),
    SetOf(Box<ColumnType>),
    Other,
}

/// The type of a result column.
pub enum ColumnType {
    Native(NativeType),
    Collection { frozen: bool, typ: CollectionType },
    Vector { typ: Box<ColumnType>, dimensions: u16 },
    Tuple(Vec<ColumnType>),
    UserDefinedType { keyspace: String, name: String },
    Other,
}

/// The name of a type without parts.
pub open spec fn native_name(nt: NativeType) -> Seq<char> {
    match nt {
        NativeType::Ascii => "ascii"@,
        NativeType::BigInt => "bigint"@,
        NativeType::Blob => "blob"@,
        NativeType::Boolean => "boolean"@,
        NativeType::Counter => "counter"@,
        NativeType::Date => "date"@,
        NativeType::Decimal => "decimal"@,
        NativeType::Double => "double"@,
        NativeType::Float => "float"@,
        NativeType::Int => "int"@,
        NativeType::Text => "text"@,
        NativeType::Timestamp => "timestamp"@,
        NativeType::Timeuuid => "timeuuid"@,
        NativeType::Inet => "inet"@,
        NativeType::SmallInt => "smallint"@,
        NativeType::TinyInt => "tinyint"@,
        NativeType::Time => "time"@,
        NativeType::Duration => "duration"@,
        NativeType::Uuid => "uuid"@,
        NativeType::Varint => "varint"@,
        NativeType::Other => "unknown"@,
    }
}

/// The name of a type.
pub open spec fn column_name_of(ct: ColumnType) -> Seq<char>
    decreases ct,
{
    match ct {
        ColumnType::Native(nt) => native_name(nt),
        ColumnType::Collection { frozen, typ } => if frozen {
            "frozen<"@ + collection_name_of(typ) + ">"@
        } else {
            collection_name_of(typ)
        },
        ColumnType::Vector { typ, dimensions } => "vector<"@ + column_name_of(*typ) + ", "@
            + crate::numbers::dec(dimensions as nat) + ">"@,
        ColumnType::Tuple(items) => "tuple<"@ + crate::text::join(part_names(items), ", "@) + ">"@,
        ColumnType::UserDefinedType { keyspace, name } => keyspace@ + "."@ + name@,
        ColumnType::Other => "unknown"@,
    }
}

/// The names of the parts of a tuple type.
pub open spec fn part_names(items: Vec<ColumnType>) -> Seq<Seq<char>>
    decreases items,
{
    Seq::new(
        items@.len(),
        |i: int|
            if 0 <= i < items@.len() {
                column_name_of(items@[i])
            } else {
                Seq::empty()
            },
    )
}

/// The name of the type of a collection.
pub open spec fn collection_name_of(ct: CollectionType) -> Seq<char>
    decreases ct,
{
    match ct {
        CollectionType::List(inner) => "list<"@ + column_name_of(*inner) + ">"@,
        CollectionType::MapOf(k, v) => "map<"@ + column_name_of(*k) + ", "@ + column_name_of(*v)
            + ">"@,
        CollectionType::SetOf(inner) => "set<"@ + column_name_of(*inner) + ">"@,
        CollectionType::Other => "unknown"@,
    }
}

/// Maps a native type to its display name.
pub fn native_type_string(nt: &NativeType) -> (r: String)
    ensures
        r@ == native_name(*nt),
{
    let name = match nt {
        NativeType::Ascii => "ascii",
        NativeType::BigInt => "bigint",
        NativeType::Blob => "blob",
        NativeType::Boolean => "boolean",
        NativeType::Counter => "counter",
        NativeType::Date => "date",
        NativeType::Decimal => "decimal",
        NativeType::Double => "double",
        NativeType::Float => "float",
        NativeType::Int => "int",
        NativeType::Text => "text",
        NativeType::Timestamp => "timestamp",
        NativeType::Timeuuid => "timeuuid",
        NativeType::Inet => "inet",
        NativeType::SmallInt => "smallint",
        NativeType::TinyInt => "tinyint",
        NativeType::Time => "time",
        NativeType::Duration => "duration",
        NativeType::Uuid => "uuid",
        NativeType::Varint => "varint",
        NativeType::Other => "unknown",
    };
    name.to_owned()
}

/// Maps the type of a collection to its name.
pub fn collection_type_string(ct: &CollectionType) -> (r: String)
    ensures
        r@ == collection_name_of(*ct),
    decreases ct,
{
    match ct {
        CollectionType::List(inner) => concat3(
            "list<",
            column_type_string(&**inner).as_str(),
            ">",
        ),
        CollectionType::MapOf(k, v) => concat5(
            "map<",
            column_type_string(&**k).as_str(),
            ", ",
            column_type_string(&**v).as_str(),
            ">",
        ),
        CollectionType::SetOf(inner) => concat3(
            "set<",
            column_type_string(&**inner).as_str(),
            ">",
        ),
        CollectionType::Other => "unknown".to_owned(),
    }
}

/// Maps a column type to a human-readable name.
pub fn column_type_string(ct: &ColumnType) -> (r: String)
    ensures
        r@ == column_name_of(*ct),
    decreases ct,
{
    match ct {
        ColumnType::Native(nt) => native_type_string(nt),
        ColumnType::Collection { frozen, typ } => {
            let inner = collection_type_string(typ);
            if *frozen {
                concat3("frozen<", inner.as_str(), ">")
            } else {
                inner
            }
        },
        ColumnType::Vector { typ, dimensions } => concat5(
            "vector<",
            column_type_string(&**typ).as_str(),
            ", ",
            decimal(*dimensions as u64).as_str(),
            ">",
        ),
        ColumnType::Tuple(items) => {
            let mut parts: Vec<String> = Vec::new();
            let mut i: usize = 0;
            while i < items.len()
                invariant
                    i <= items@.len(),
                    ct == ColumnType::Tuple(*items),
                    parts@.len() == i,
                    forall|j: int|
                        0 <= j < i ==> (#[trigger] parts@[j])@ == column_name_of(items@[j]),
                decreases items@.len() - i,
            {
                proof {
                    assert(decreases_to!(ct => ct->Tuple_0));
                    assert(decreases_to!(items => items@));
                    assert(decreases_to!(items@ => items@[i as int]));
                }
                parts.push(column_type_string(&items[i]));
                i = i + 1;
            }
            assert(crate::text::texts(parts@) =~= part_names(*items));
            concat3("tuple<", joined(&parts, ", ").as_str(), ">")
        },
        ColumnType::UserDefinedType { keyspace, name } => concat3(
            keyspace.as_str(),
            ".",
            name.as_str(),
        ),
        ColumnType::Other => "unknown".to_owned(),
    }
}

/// The metadata of a result column.
pub fn result_column(name: &str, ct: &ColumnType) -> (r: QueryResultColumn)
    ensures
        r.deep_view() == crate::query::plain_column(name@, Some(column_name_of(*ct))),
{
    QueryResultColumn::plain(name.to_owned(), Some(column_type_string(ct)))
}

/// The events of a streamed query.
pub fn stream_events(columns: Vec<QueryResultColumn>, rows: Vec<Value>) -> (r: Vec<StreamEvent>)
    ensures
        r.deep_view() == crate::driver::single_result_events(
            columns.deep_view(),
            rows.deep_view(),
        ),
{
    stream_single_result(columns, rows)
}

// ---------------------------------------------------------------------------
// Server metadata
// ---------------------------------------------------------------------------

/// The version that the rows of the version query report.
pub open spec fn version_of(rows: Seq<Json>) -> ServerVersionView {
    let version = if rows.len() > 0 && rows[0].text("release_version"@) is Some {
        rows[0].text("release_version"@)->0
    } else {
        "unknown"@
    };
    ServerVersionView { version, version_text: Some("Cassandra/Scylla "@ + version) }
}

/// The server version, from the rows of the version query.
pub fn server_version(rows: &Vec<Value>) -> (r: ServerVersion)
    ensures
        r.deep_view() == version_of(rows.deep_view()),
{
    let reported = if rows.len() > 0 {
        assert(rows.deep_view()[0] == rows@[0]@);
        get_str(&rows[0], "release_version")
    } else {
        None
    };
    let version = match reported {
        Some(v) => v,
        None => "unknown".to_owned(),
    };
    let version_text = Some(concat2("Cassandra/Scylla ", version.as_str()));
    ServerVersion { version, version_text }
}

/// The keyspaces, from the rows of the keyspace query.
pub fn list_databases(rows: &Vec<Value>) -> (r: Vec<DatabaseEntry>)
    ensures
        r.deep_view() == crate::driver::databases_under(rows.deep_view(), "keyspace_name"@),
{
    list_databases_under(rows, "keyspace_name")
}

// ---------------------------------------------------------------------------
// Analysis
// ---------------------------------------------------------------------------

/// The queries for the tables and the columns of a keyspace.
pub fn analysis_queries(keyspace: &str) -> (r: DbgmResult<(String, String)>)
    ensures
        match r {
            Ok((tables, columns)) => {
                &&& !crate::text::holds(keyspace@, "'"@)
                &&& tables@ == crate::text::replace(SQL_TABLES@, "#DATABASE#"@, keyspace@)
                &&& columns@ == crate::text::replace(SQL_COLUMNS@, "#DATABASE#"@, keyspace@)
            },
            Err(e) => crate::text::holds(keyspace@, "'"@) && e.deep_view()
                == crate::error::generic_error(
                "Cassandra keyspace name contains invalid character"@,
            ),
        },
{
    let tables = match hydrate_keyspace_query(SQL_TABLES, keyspace) {
        Ok(sql) => sql,
        Err(e) => return Err(e),
    };
    let columns = match hydrate_keyspace_query(SQL_COLUMNS, keyspace) {
        Ok(sql) => sql,
        Err(e) => return Err(e),
    };
    Ok((tables, columns))
}

/// Whether a column row belongs to the primary key.
pub open spec fn is_key_row(row: Json) -> bool {
    row.text("kind"@) == Some("partition_key"@) || row.text("kind"@) == Some("clustering"@)
}

/// The column of the primary key that a row describes, where it is part of it.
pub open spec fn key_part(row: Json) -> Option<ColumnReferenceView> {
    if is_key_row(row) {
        Some(crate::drivers::common::plain_ref(or_empty(row.text("columnName"@))))
    } else {
        None
    }
}

/// The columns of the primary key among some rows.
pub open spec fn key_parts(rows: Seq<Json>) -> Seq<ColumnReferenceView> {
    crate::rows::pick(rows, |r: Json| key_part(r))
}

/// The rows that belong to a table.
pub open spec fn rows_of(rows: Seq<Json>, pure: Seq<char>) -> Seq<Json> {
    crate::rows::where_text(rows, "pureName"@, pure)
}

/// The primary key of a table: its partition key and its clustering columns.
pub open spec fn primary_key(pure: Seq<char>, rows: Seq<Json>) -> Option<PrimaryKeyInfoView> {
    let parts = key_parts(rows_of(rows, pure));
    if parts.len() == 0 {
        None
    } else {
        Some(
            PrimaryKeyInfoView {
                columns_constraint: crate::drivers::common::over_columns(
                    ConstraintType::PrimaryKey,
                    None,
                    parts,
                ),
            },
        )
    }
}

/// Builds the primary key from the column rows whose kind is `partition_key` or
/// `clustering`.
pub fn build_primary_key(pure: &str, columns_rows: &Vec<Value>) -> (r: Option<PrimaryKeyInfo>)
    ensures
        r.deep_view() == primary_key(pure@, columns_rows.deep_view()),
{
    let own = rows_with_text(columns_rows, "pureName", pure);
    let ghost all = own.deep_view();
    let mut parts: Vec<ColumnReference> = new_list();
    let mut i: usize = 0;
    while i < own.len()
        invariant
            i <= own@.len(),
            all == own.deep_view(),
            parts.deep_view() == key_parts(all.take(i as int)),
        decreases own@.len() - i,
    {
        proof {
            crate::rows::lemma_take_next(all, i as int);
        }
        let row: &Value = own[i];
        if text_is(row, "kind", "partition_key") || text_is(row, "kind", "clustering") {
            push_item(&mut parts, plain_reference(get_text(row, "columnName")));
        }
        i = i + 1;
    }
    proof {
        crate::rows::lemma_take_all(all);
        assert(parts.deep_view().len() == parts@.len());
    }
    if parts.len() == 0 {
        return None;
    }
    Some(
        PrimaryKeyInfo { columns_constraint: constraint_over(ConstraintType::PrimaryKey, None, parts) },
    )
}

/// The column that a row describes.
pub open spec fn column_of(row: Json) -> ColumnInfoView {
    ColumnInfoView {
        column_name: or_empty(row.text("columnName"@)),
        data_type: or_empty(row.text("dataType"@)),
        ..crate::dbinfo::blank_column()
    }
}

/// The columns of a table.
pub open spec fn columns_of(rows: Seq<Json>, pure: Seq<char>) -> Seq<ColumnInfoView> {
    let own = rows_of(rows, pure);
    Seq::new(own.len(), |i: int| column_of(own[i]))
}

/// Collects the columns of a table from the rows of the columns query.
pub fn collect_columns(columns_rows: &Vec<Value>, pure: &str) -> (r: Vec<ColumnInfo>)
    ensures
        r.deep_view() == columns_of(columns_rows.deep_view(), pure@),
{
    let own = rows_with_text(columns_rows, "pureName", pure);
    let f = |row: &&Value| -> (c: ColumnInfo)
        ensures
            c.deep_view() == column_of(row.deep_view()),
    {
        let mut info = ColumnInfo::default();
        info.column_name = get_text(row, "columnName");
        info.data_type = get_text(row, "dataType");
        info
    };
    let r = map_list(&own, f);
    assert(r.deep_view() =~= columns_of(columns_rows.deep_view(), pure@));
    r
}

/// The structure of the table with the given name.
pub open spec fn table_of(pure: Seq<char>, columns: Seq<Json>) -> TableInfoView {
    TableInfoView {
        object: crate::drivers::common::object_with(pure, None, None, None),
        columns: columns_of(columns, pure),
        primary_key: primary_key(pure, columns),
        sorting_key: None,
        foreign_keys: Some(Seq::empty()),
        dependencies: None,
        indexes: None,
        uniques: None,
        checks: None,
        table_row_count: None,
        table_engine: None,
    }
}

fn build_table(pure: &str, columns: &Vec<Value>) -> (r: TableInfo)
    ensures
        r.deep_view() == table_of(pure@, columns.deep_view()),
{
    TableInfo {
        object: object_info(pure.to_owned(), None, None, None),
        columns: collect_columns(columns, pure),
        primary_key: build_primary_key(pure, columns),
        sorting_key: None,
        foreign_keys: Some(new_list()),
        dependencies: None,
        indexes: None,
        uniques: None,
        checks: None,
        table_row_count: None,
        table_engine: None,
    }
}

/// The structure of a keyspace with the given tables and columns.
pub open spec fn database_of(tables: Seq<Json>, columns: Seq<Json>) -> DatabaseInfoView {
    DatabaseInfoView {
        tables: Seq::new(
            tables.len(),
            |i: int| table_of(or_empty(tables[i].text("pureName"@)), columns),
        ),
        ..crate::dbinfo::empty_database()
    }
}

/// The full structure of a keyspace, from the rows of the two analysis queries.
pub fn analyse_cassandra_full(tables: &Vec<Value>, columns: &Vec<Value>) -> (r: DatabaseInfo)
    ensures
        r.deep_view() == database_of(tables.deep_view(), columns.deep_view()),
{
    let f = |row: &Value| -> (t: TableInfo)
        ensures
            t.deep_view() == table_of(or_empty(row@.text("pureName"@)), columns.deep_view()),
    {
        build_table(get_text(row, "pureName").as_str(), columns)
    };
    let analysed = map_list(tables, f);
    assert(analysed.deep_view() =~= database_of(tables.deep_view(), columns.deep_view()).tables);
    let mut info = DatabaseInfo::default();
    info.tables = analysed;
    info
}

/// The structure of one table, from the rows of the two analysis queries.
pub fn analyse_cassandra_table(
    name: &NamedObjectInfo,
    tables: &Vec<Value>,
    columns: &Vec<Value>,
) -> (r: DbgmResult<TableInfo>)
    ensures
        match r {
            Ok(t) => rows_of(tables.deep_view(), name.pure_name@).len() > 0 && t.deep_view()
                == table_of(name.pure_name@, columns.deep_view()),
            Err(e) => rows_of(tables.deep_view(), name.pure_name@).len() == 0 && e.deep_view()
                == crate::error::generic_error(
                "Cassandra table not found: "@ + name.pure_name@,
            ),
        },
{
    let found = rows_with_text(tables, "pureName", name.pure_name.as_str());
    assert(found.deep_view().len() == found@.len());
    if found.len() == 0 {
        return Err(
            DbgmError::new(concat2("Cassandra table not found: ", name.pure_name.as_str())),
        );
    }
    Ok(build_table(name.pure_name.as_str(), columns))
}

// ---------------------------------------------------------------------------
// Laws
// ---------------------------------------------------------------------------

/// A host without a port is reached at the port of the connection, with or without the scheme in
/// front of it; a host that names a port keeps it. Blank entries give nothing.
pub proof fn law_contact_point(host: Seq<char>, port: nat)
    requires
        host.len() > 0,
        !crate::text::is_space(host[0]),
        !crate::text::is_space(host.last()),
    ensures
        !host.contains(':') ==> contact_point(host, port) == Some(
            host + seq![':'] + crate::numbers::dec(port),
        ),
        !host.contains(':') ==> contact_point("cassandra://"@ + host, port) == Some(
            host + seq![':'] + crate::numbers::dec(port),
        ),
        host.contains(':') && host[0] != 'c' ==> contact_point(host, port) == Some(host),
        host.contains(':') ==> contact_point("cassandra://"@ + host, port) == Some(host),
        contact_point(Seq::empty(), port) is None,
        contact_point(seq![' '], port) is None,
{
    reveal_strlit("cassandra://");
    reveal_strlit(":");
    let scheme = "cassandra://"@;
    assert(scheme.len() == 12 && scheme[0] == 'c' && scheme[9] == ':');
    assert(":"@ =~= seq![':']);
    crate::text::law_trim_fixed(host);
    let full = scheme + host;
    assert(full.last() == host.last() && full[0] == 'c');
    crate::text::law_trim_fixed(full);
    assert(full.subrange(0, 12) =~= scheme);
    assert(full.skip(12) =~= host);
    assert(crate::text::holds(host, ":"@) == host.contains(':')) by {
        if crate::text::holds(host, ":"@) {
            let i = choose|i: int| crate::text::occurs_at(host, ":"@, i);
            assert(host.subrange(i, i + 1)[0] == ':');
            assert(host[i] == ':');
        }
        if host.contains(':') {
            let i = choose|i: int| 0 <= i < host.len() && host[i] == ':';
            assert(host.subrange(i, i + 1) =~= ":"@);
            assert(crate::text::occurs_at(host, ":"@, i));
        }
    }
    if crate::text::has_prefix(host, scheme) {
        assert(host.subrange(0, 12)[9] == ':');
        assert(host[9] == ':');
        assert(host.subrange(0, 12)[0] == 'c');
    }
    crate::text::law_trim_fixed(Seq::<char>::empty());
    crate::text::lemma_trim_len(seq![' ']);
    crate::text::law_trim(seq![' ']);
    assert(crate::text::trim(seq![' ']).len() == 0) by {
        let t = crate::text::trim(seq![' ']);
        if t.len() > 0 {
            assert(exists|a: int, b: int|
                #![trigger seq![' '].subrange(a, b)]
                0 <= a <= b <= 1 && t == seq![' '].subrange(a, b));
            assert(t[0] == ' ');
            assert(crate::text::is_space(' '));
        }
    }
}

/// The points of a list are those before its last comma and the one behind it.
pub proof fn law_contact_points(front: Seq<char>, last: Seq<char>, port: nat)
    requires
        !last.contains(','),
    ensures
        contact_points(front + seq![','] + last, port) == match contact_point(last, port) {
            Some(p) => contact_points(front, port).push(p),
            None => contact_points(front, port),
        },
        contact_points(last, port) == match contact_point(last, port) {
            Some(p) => seq![p],
            None => Seq::empty(),
        },
{
    let f = |e: Seq<char>| contact_point(e, port);
    let entries = crate::text::split(front, ',');
    crate::text::law_split_push(front, ',', ',');
    crate::text::law_split_append(front.push(','), last, ',');
    assert(front + seq![','] + last =~= front.push(',') + last);
    let all = crate::text::split(front + seq![','] + last, ',');
    assert(Seq::<char>::empty() + last =~= last);
    assert(all =~= entries.push(last));
    crate::rows::law_pick_push(entries, f, last);
    let none = Seq::<char>::empty();
    crate::text::law_split_append(none, last, ',');
    assert(none + last =~= last);
    assert(crate::text::split(none, ',') =~= seq![none]) by {
        crate::text::law_split_join(none, ',');
    }
    assert(crate::text::split(last, ',') =~= seq![last]);
    let empty = Seq::<Seq<char>>::empty();
    crate::rows::law_pick_push(empty, f, last);
    assert(empty.push(last) =~= seq![last]);
    assert(crate::rows::pick(empty, f) =~= Seq::empty());
}

/// A connection uses its own port, or 9042 where it names none.
pub proof fn law_port(def: ConnectionDefinitionView)
    ensures
        def.port matches Some(p) ==> port_of(def) == p,
        def.port is None ==> port_of(def) == 9042,
{
}

/// The settings of a connection hold the points, the database, the user and the password that
/// it names, each in its place.
pub proof fn law_config(c: CassandraConfig, def: ConnectionDefinitionView, points: Seq<Seq<char>>)
    requires
        c.deep_view() == config_of(def, points),
    ensures
        c.contact_points.deep_view() == points,
        def.database matches Some(d) ==> c.keyspace@ == d,
        def.database is None ==> c.keyspace@.len() == 0,
        def.extra_field("localDataCenter"@) matches Some(Json::Str(s)) ==> c.local_dc@ == s,
        def.extra_field("localDataCenter"@) is None ==> c.local_dc@ == "datacenter1"@,
        def.user is None ==> c.credentials is None,
        def.user matches Some(user) ==> (c.credentials matches Some((name, secret)) && name@
            == user && (def.password matches Some(p) ==> secret@ == p) && (def.password is None
            ==> secret@.len() == 0)),
{
    assert(c.deep_view().credentials == c.credentials.deep_view());
    if c.credentials is Some {
        assert(c.credentials.deep_view() == Some(c.credentials->0.deep_view()));
    }
}

/// A cell shows its value: numbers as numbers, truth values as truth values, text as text, bytes
/// in base64 and nothing as null.
pub proof fn law_cells(
    b: bool,
    n32: i32,
    n64: i64,
    n16: i16,
    n8: i8,
    s: String,
    bytes: Vec<u8>,
    id: [u8; 16],
    d: u64,
)
    ensures
        cql_json(CqlValue::Boolean(b)) == Json::Bool(b),
        cql_json(CqlValue::Int(n32)) == Json::Int(n32 as int),
        cql_json(CqlValue::BigInt(n64)) == Json::Int(n64 as int),
        cql_json(CqlValue::Counter(n64)) == Json::Int(n64 as int),
        cql_json(CqlValue::SmallInt(n16)) == Json::Int(n16 as int),
        cql_json(CqlValue::TinyInt(n8)) == Json::Int(n8 as int),
        cql_json(CqlValue::Text(s)) == Json::Str(s@),
        cql_json(CqlValue::Ascii(s)) == Json::Str(s@),
        cql_json(CqlValue::Inet(s)) == Json::Str(s@),
        cql_json(CqlValue::Shown(s)) == Json::Str(s@),
        cql_json(CqlValue::Uuid(id)) == Json::Str(crate::encoding::uuid_form(id@)),
        cql_json(CqlValue::Timeuuid(id)) == Json::Str(crate::encoding::uuid_form(id@)),
        cql_json(CqlValue::Blob(bytes)) == crate::encoding::binary_json(bytes@),
        cql_json(CqlValue::Double(d)) == crate::encoding::double_json(d),
        cql_json(CqlValue::Float(d)) == crate::encoding::double_json(d),
        cql_json(CqlValue::Empty) == Json::Null,
        cell_json(None) == Json::Null,
        cell_json(Some(CqlValue::Int(n32))) == Json::Int(n32 as int),
{
}

/// Dates count days with 1970-01-01 in the middle of their range, times count nanoseconds from
/// midnight; what has no such form is shown as the server gave it.
pub proof fn law_moment_cells(day: int, second: u32, nano: u32, millis: i64, shown: String)
    requires
        -0x8000_0000 <= day <= i32::MAX - 719163,
        nano < 1_000_000_000,
    ensures
        crate::datetime::date_display((day + 719163) as i32) matches Some(t) ==> cql_json(
            CqlValue::Date((day + 0x8000_0000) as u32, shown),
        ) == Json::Str(t),
        crate::datetime::date_display((day + 719163) as i32) is None ==> cql_json(
            CqlValue::Date((day + 0x8000_0000) as u32, shown),
        ) == Json::Str(shown@),
        crate::datetime::time_fraction_format(second, nano) matches Some(t) ==> cql_json(
            CqlValue::Time((second * 1_000_000_000 + nano) as i64, shown),
        ) == Json::Str(t),
        crate::datetime::time_fraction_format(second, nano) is None ==> cql_json(
            CqlValue::Time((second * 1_000_000_000 + nano) as i64, shown),
        ) == Json::Str(shown@),
        millis < 0 ==> cql_json(CqlValue::Time(millis, shown)) == Json::Str(shown@),
        crate::datetime::instant_rfc3339(millis) matches Some(t) ==> cql_json(
            CqlValue::Timestamp(millis, shown),
        ) == Json::Str(t),
        crate::datetime::instant_rfc3339(millis) is None ==> cql_json(
            CqlValue::Timestamp(millis, shown),
        ) == Json::Str(shown@),
{
    let total = second * 1_000_000_000 + nano;
    assert(0 <= total <= i64::MAX);
    assert(total / 1_000_000_000 == second && total % 1_000_000_000 == nano);
}

/// Lists, sets and tuples show their items, each in its place; what a tuple leaves out is null.
pub proof fn law_compound_cells(items: Vec<CqlValue>, parts: Vec<Option<CqlValue>>, i: int)
    ensures
        cql_json(CqlValue::List(items)) matches Json::Array(a) && a.len() == items@.len() && (0
            <= i < items@.len() ==> a[i] == cql_json(items@[i])),
        cql_json(CqlValue::SetOf(items)) matches Json::Array(a) && a.len() == items@.len() && (0
            <= i < items@.len() ==> a[i] == cql_json(items@[i])),
        cql_json(CqlValue::Tuple(parts)) matches Json::Array(a) && a.len() == parts@.len() && (0
            <= i < parts@.len() ==> a[i] == match parts@[i] {
            Some(v) => cql_json(v),
            None => Json::Null,
        }),
{
}

/// A map shows its values under their keys: a text key as it is, any other as the server shows
/// it. Of equal keys the last one counts.
pub proof fn law_map_cell(pairs: Vec<(CqlValue, String, CqlValue)>, i: int, name: Seq<char>)
    requires
        0 <= i < pairs@.len(),
        match pairs@[i].0 {
            CqlValue::Text(s) => name == s@,
            CqlValue::Ascii(s) => name == s@,
            _ => name == pairs@[i].1@,
        },
        forall|j: int|
            i < j < pairs@.len() ==> #[trigger] key_text(pairs@[j].0, pairs@[j].1@) != name,
    ensures
        cql_json(CqlValue::MapOf(pairs)).get(name) == Some(cql_json(pairs@[i].2)),
{
    let members = members_of(pairs);
    crate::value::law_merge(Seq::empty(), members, name);
    assert(members[i].0 == name && members[i].1 == cql_json(pairs@[i].2));
    assert forall|j: int| i < j < members.len() implies (#[trigger] members[j]).0 != name by {
        assert(members[j].0 == key_text(pairs@[j].0, pairs@[j].1@));
    }
    lemma_last_key(members, name, i);
}

proof fn lemma_last_key(members: Seq<(Seq<char>, Json)>, name: Seq<char>, i: int)
    requires
        0 <= i < members.len(),
        members[i].0 == name,
        forall|j: int| i < j < members.len() ==> (#[trigger] members[j]).0 != name,
    ensures
        crate::value::last_key(members, name) == Some(members[i].1),
    decreases members.len(),
{
    if i < members.len() - 1 {
        lemma_last_key(members.drop_last(), name, i);
    }
}

/// A row shows its cells under the names of its columns; a cell behind the last column is named
/// by its place. Where two columns have one name, the last one counts.
pub proof fn law_row(cells: Seq<Option<CqlValue>>, columns: Seq<QueryResultColumnView>, i: int)
    requires
        columns.len() == cells.len(),
        0 <= i < columns.len(),
        forall|j: int|
            i < j < columns.len() ==> (#[trigger] columns[j]).column_name
                != columns[i].column_name,
    ensures
        row_json(cells, columns).get(columns[i].column_name) == Some(
            match cells[i] {
                Some(v) => cql_json(v),
                None => Json::Null,
            },
        ),
{
    let names = Seq::new(cells.len(), |i: int| cell_name(columns, i));
    let other = crate::value::lemma_absent_name(names);
    crate::value::law_row_object(names, cells_json(cells), i, other);
}

/// A cell behind the last column is named by its place.
pub proof fn law_cell_name(columns: Seq<QueryResultColumnView>, i: int)
    requires
        0 <= i,
    ensures
        i < columns.len() ==> cell_name(columns, i) == columns[i].column_name,
        i >= columns.len() ==> cell_name(columns, i).len() > 4 && cell_name(columns, i).take(4)
            == "col_"@ && cell_name(columns, i).skip(4) == crate::numbers::dec(i as nat),
{
    reveal_strlit("col_");
    crate::numbers::law_decimal(i as nat);
    if i >= columns.len() {
        assert(cell_name(columns, i).take(4) =~= "col_"@);
        assert(cell_name(columns, i).skip(4) =~= crate::numbers::dec(i as nat));
    }
}

/// The plain types go by their names in the query language.
pub proof fn law_native_names()
    ensures
        native_name(NativeType::Ascii) == "ascii"@,
        native_name(NativeType::BigInt) == "bigint"@,
        native_name(NativeType::Blob) == "blob"@,
        native_name(NativeType::Boolean) == "boolean"@,
        native_name(NativeType::Counter) == "counter"@,
        native_name(NativeType::Date) == "date"@,
        native_name(NativeType::Decimal) == "decimal"@,
        native_name(NativeType::Double) == "double"@,
        native_name(NativeType::Float) == "float"@,
        native_name(NativeType::Int) == "int"@,
        native_name(NativeType::Text) == "text"@,
        native_name(NativeType::Timestamp) == "timestamp"@,
        native_name(NativeType::Timeuuid) == "timeuuid"@,
        native_name(NativeType::Inet) == "inet"@,
        native_name(NativeType::SmallInt) == "smallint"@,
        native_name(NativeType::TinyInt) == "tinyint"@,
        native_name(NativeType::Time) == "time"@,
        native_name(NativeType::Duration) == "duration"@,
        native_name(NativeType::Uuid) == "uuid"@,
        native_name(NativeType::Varint) == "varint"@,
        native_name(NativeType::Other) == "unknown"@,
{
}

/// A type that is built of others shows them between angle brackets, in their order.
pub proof fn law_type_names(
    a: ColumnType,
    b: ColumnType,
    n: u16,
    keyspace: String,
    name: String,
    items: Vec<ColumnType>,
)
    ensures
        column_name_of(
            ColumnType::Collection { frozen: false, typ: CollectionType::List(Box::new(a)) },
        ) == "list<"@ + column_name_of(a) + ">"@,
        column_name_of(
            ColumnType::Collection { frozen: true, typ: CollectionType::List(Box::new(a)) },
        ) == "frozen<"@ + ("list<"@ + column_name_of(a) + ">"@) + ">"@,
        column_name_of(
            ColumnType::Collection { frozen: false, typ: CollectionType::SetOf(Box::new(a)) },
        ) == "set<"@ + column_name_of(a) + ">"@,
        column_name_of(
            ColumnType::Collection {
                frozen: false,
                typ: CollectionType::MapOf(Box::new(a), Box::new(b)),
            },
        ) == "map<"@ + column_name_of(a) + ", "@ + column_name_of(b) + ">"@,
        column_name_of(ColumnType::Vector { typ: Box::new(a), dimensions: n }) == "vector<"@
            + column_name_of(a) + ", "@ + crate::numbers::dec(n as nat) + ">"@,
        column_name_of(ColumnType::UserDefinedType { keyspace, name }) == keyspace@ + "."@ + name@,
        column_name_of(ColumnType::Other) == "unknown"@,
        items@ == seq![a, b] ==> column_name_of(ColumnType::Tuple(items)) == "tuple<"@ + (
        column_name_of(a) + ", "@ + column_name_of(b)) + ">"@,
{
    reveal_with_fuel(column_name_of, 3);
    reveal_with_fuel(collection_name_of, 3);
    if items@ == seq![a, b] {
        let parts = part_names(items);
        let first = seq![column_name_of(a)];
        crate::text::law_join(first, column_name_of(b), ", "@);
        crate::text::law_join(first, column_name_of(a), ", "@);
        assert(parts =~= first.push(column_name_of(b)));
    }
}

/// The version is the one that the first row names.
pub proof fn law_version(rows: Seq<Json>, version: Seq<char>)
    requires
        rows.len() > 0,
        rows[0].text("release_version"@) == Some(version),
    ensures
        version_of(rows).version == version,
        version_of(rows).version_text == Some("Cassandra/Scylla "@ + version),
        version_of(Seq::empty()).version == "unknown"@,
{
}

/// A column has the name and the type of its row, and nothing else is known of it.
pub proof fn law_column(row: Json, name: Seq<char>, data_type: Seq<char>)
    requires
        row.text("columnName"@) == Some(name),
        row.text("dataType"@) == Some(data_type),
    ensures
        column_of(row).column_name == name,
        column_of(row).data_type == data_type,
        column_of(row).not_null is None,
        column_of(row).auto_increment is None,
        column_of(row).default_value is None,
        column_of(row).length is None,
{
}

/// The columns of a table are those of the rows that name it, in their order.
pub proof fn law_columns(rows: Seq<Json>, r: Json, pure: Seq<char>)
    ensures
        columns_of(Seq::empty(), pure).len() == 0,
        r.text("pureName"@) == Some(pure) ==> columns_of(rows.push(r), pure) == columns_of(
            rows,
            pure,
        ).push(column_of(r)),
        r.text("pureName"@) != Some(pure) ==> columns_of(rows.push(r), pure) == columns_of(
            rows,
            pure,
        ),
{
    crate::rows::law_where_text(rows, r, "pureName"@, pure);
    if r.text("pureName"@) == Some(pure) {
        assert(columns_of(rows.push(r), pure) =~= columns_of(rows, pure).push(column_of(r)));
    }
}

/// The primary key of a table is made of its partition key and clustering columns, in the order
/// of their rows; no other column is part of it.
pub proof fn law_primary_key(rows: Seq<Json>, r: Json, pure: Seq<char>, name: Seq<char>)
    requires
        r.text("columnName"@) == Some(name),
    ensures
        primary_key(pure, Seq::empty()) is None,
        r.text("pureName"@) != Some(pure) ==> primary_key(pure, rows.push(r)) == primary_key(
            pure,
            rows,
        ),
        r.text("kind"@) != Some("partition_key"@) && r.text("kind"@) != Some("clustering"@)
            ==> primary_key(pure, rows.push(r)) == primary_key(pure, rows),
        r.text("pureName"@) == Some(pure) && (r.text("kind"@) == Some("partition_key"@) || r.text(
            "kind"@,
        ) == Some("clustering"@)) ==> (primary_key(pure, rows.push(r)) matches Some(after) && {
            let c = after.columns_constraint;
            &&& c.columns.last().column_name == name
            &&& c.columns.last().ref_column_name is None
            &&& c.constraint.constraint_type == ConstraintType::PrimaryKey
            &&& c.constraint.constraint_name is None
            &&& match primary_key(pure, rows) {
                Some(before) => c.columns.drop_last() == before.columns_constraint.columns,
                None => c.columns.len() == 1,
            }
        }),
{
    crate::rows::law_where_text(rows, r, "pureName"@, pure);
    let own = rows_of(rows, pure);
    let f = |r: Json| key_part(r);
    crate::rows::law_pick_push(own, f, r);
    assert(key_parts(Seq::empty()) =~= Seq::empty()) by {
        crate::rows::law_pick_push(Seq::<Json>::empty(), f, r);
    }
    if r.text("pureName"@) == Some(pure) && is_key_row(r) {
        let before = key_parts(own);
        assert(key_parts(own.push(r)) == before.push(key_part(r)->0));
        assert(before.push(key_part(r)->0).drop_last() =~= before);
    }
}

/// A table has the columns and the key of its name, and no foreign keys.
pub proof fn law_table(pure: Seq<char>, columns: Seq<Json>)
    ensures
        ({
            let t = table_of(pure, columns);
            &&& t.object.pure_name == pure
            &&& t.object.schema_name is None
            &&& t.columns == columns_of(columns, pure)
            &&& t.primary_key == primary_key(pure, columns)
            &&& t.foreign_keys == Some(Seq::<crate::dbinfo::ForeignKeyInfoView>::empty())
            &&& t.indexes is None
            &&& t.sorting_key is None
        }),
{
}

/// The structure of a keyspace has one table for each table row and nothing else.
pub proof fn law_database(tables: Seq<Json>, columns: Seq<Json>, i: int, name: Seq<char>)
    ensures
        database_of(tables, columns).tables.len() == tables.len(),
        database_of(tables, columns).views.len() == 0,
        database_of(tables, columns).triggers.len() == 0,
        0 <= i < tables.len() && tables[i].text("pureName"@) == Some(name) ==> database_of(
            tables,
            columns,
        ).tables[i] == table_of(name, columns),
{
}

/// The engine is of the Cassandra family and comes from the plugin of that name.
pub proof fn law_engine()
    ensures
        crate::registry::family_of(CASSANDRA_ENGINE@) == "cassandra"@,
        crate::registry::plugin_of(CASSANDRA_ENGINE@) == "dbgate-plugin-cassandra"@,
{
    reveal_strlit("cassandra");
    reveal_strlit("dbgate-plugin-cassandra");
    reveal_strlit("cassandra@dbgate-plugin-cassandra");
    assert(CASSANDRA_ENGINE@ =~= "cassandra"@ + seq!['@'] + "dbgate-plugin-cassandra"@);
    crate::registry::law_engine_id("cassandra"@, "dbgate-plugin-cassandra"@);
}

} // verus!
