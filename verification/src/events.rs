//! The events that notify the frontend while a query runs.
use vstd::prelude::*;

use crate::query::{columns_value, QueryResultColumn, QueryResultColumnView};
use crate::text::concat2;
use crate::value::{add_member, no_members, object_value, str_value, Json, Value};

verus! {

/// An event: its name and what it carries.
pub struct UiEvent {
    pub name: String,
    pub payload: Value,
}

/// What a [`UiEvent`] holds.
pub struct UiEventView {
    pub name: Seq<char>,
    pub payload: Json,
}

impl DeepView for UiEvent {
    type V = UiEventView;

    open spec fn deep_view(&self) -> UiEventView {
        UiEventView { name: self.name@, payload: self.payload@ }
    }
}

/// The event that reports a message to a session.
pub open spec fn info_event(sesid: Seq<char>, message: Seq<char>, severity: Seq<char>) ->
    UiEventView {
    UiEventView {
        name: "session-info-"@ + sesid,
        payload: Json::Object(
            seq![("message"@, Json::Str(message)), ("severity"@, Json::Str(severity))],
        ),
    }
}

pub fn session_info(sesid: &str, message: &str, severity: &str) -> (r: UiEvent)
    ensures
        r.deep_view() == info_event(sesid@, message@, severity@),
{
    let mut o = no_members();
    add_member(&mut o, "message", str_value(message));
    add_member(&mut o, "severity", str_value(severity));
    assert(crate::value::entries(o@) =~= info_event(
        sesid@,
        message@,
        severity@,
    ).payload->Object_0);
    UiEvent { name: concat2("session-info-", sesid), payload: object_value(o) }
}

/// An event that carries nothing.
pub open spec fn bare_event(name: Seq<char>) -> UiEventView {
    UiEventView { name, payload: Json::Object(Seq::empty()) }
}

fn bare(name: String) -> (r: UiEvent)
    ensures
        r.deep_view() == bare_event(name@),
{
    UiEvent { name, payload: object_value(no_members()) }
}

/// A session's query has ended.
pub fn session_done(sesid: &str) -> (r: UiEvent)
    ensures
        r.deep_view() == bare_event("session-done-"@ + sesid@),
{
    bare(concat2("session-done-", sesid))
}

/// A session has been closed.
pub fn session_closed(sesid: &str) -> (r: UiEvent)
    ensures
        r.deep_view() == bare_event("session-closed-"@ + sesid@),
{
    bare(concat2("session-closed-", sesid))
}

/// A result set is complete.
pub fn session_jslid_done(jslid: &str) -> (r: UiEvent)
    ensures
        r.deep_view() == bare_event("session-jslid-done-"@ + jslid@),
{
    bare(concat2("session-jslid-done-", jslid))
}

/// The event that announces a result set to a session: where it is found, the how
/// manieth it is, and its columns.
pub open spec fn recordset_event(
    sesid: Seq<char>,
    result_index: nat,
    jslid: Seq<char>,
    columns: Seq<QueryResultColumnView>,
) -> UiEventView {
    UiEventView {
        name: "session-recordset-"@ + sesid,
        payload: Json::Object(
            seq![
                ("jslid"@, Json::Str(jslid)),
                ("resultIndex"@, Json::Int(result_index as int)),
                ("columns"@, crate::query::columns_json(columns)),
            ],
        ),
    }
}

pub fn session_recordset(
    sesid: &str,
    result_index: usize,
    jslid: &str,
    columns: &Vec<QueryResultColumn>,
) -> (r: UiEvent)
    ensures
        r.deep_view() == recordset_event(
            sesid@,
            result_index as nat,
            jslid@,
            columns.deep_view(),
        ),
{
    let mut o = no_members();
    add_member(&mut o, "jslid", str_value(jslid));
    add_member(&mut o, "resultIndex", Value::Int(result_index as i128));
    add_member(&mut o, "columns", columns_value(columns));
    assert(crate::value::entries(o@) =~= recordset_event(
        sesid@,
        result_index as nat,
        jslid@,
        columns.deep_view(),
    ).payload->Object_0);
    UiEvent { name: concat2("session-recordset-", sesid), payload: object_value(o) }
}

/// The statistics of a result set.
pub open spec fn stats_json(row_count: nat, change_index: nat, is_finished: bool) -> Json {
    Json::Object(
        seq![
            ("rowCount"@, Json::Int(row_count as int)),
            ("changeIndex"@, Json::Int(change_index as int)),
            ("isFinished"@, Json::Bool(is_finished)),
        ],
    )
}

pub fn stats_value(row_count: usize, change_index: u64, is_finished: bool) -> (r: Value)
    ensures
        r@ == stats_json(row_count as nat, change_index as nat, is_finished),
{
    let mut o = no_members();
    add_member(&mut o, "rowCount", Value::Int(row_count as i128));
    add_member(&mut o, "changeIndex", Value::Int(change_index as i128));
    add_member(&mut o, "isFinished", Value::Bool(is_finished));
    assert(crate::value::entries(o@) =~= stats_json(
        row_count as nat,
        change_index as nat,
        is_finished,
    )->Object_0);
    object_value(o)
}

/// The event that reports the statistics of a result set.
pub open spec fn stats_event(jslid: Seq<char>, stats: Json) -> UiEventView {
    UiEventView { name: "jsldata-stats-"@ + jslid, payload: stats }
}

pub fn jsl_stats(jslid: &str, stats: Value) -> (r: UiEvent)
    ensures
        r.deep_view() == stats_event(jslid@, stats@),
{
    UiEvent { name: concat2("jsldata-stats-", jslid), payload: stats }
}

// ---------------------------------------------------------------------------
// Laws
// ---------------------------------------------------------------------------

/// The numbers of a result set stand under their names.
pub proof fn law_stats(row_count: nat, change_index: nat, is_finished: bool)
    ensures
        stats_json(row_count, change_index, is_finished).get("rowCount"@) == Some(
            Json::Int(row_count as int),
        ),
        stats_json(row_count, change_index, is_finished).get("changeIndex"@) == Some(
            Json::Int(change_index as int),
        ),
        stats_json(row_count, change_index, is_finished).flag("isFinished"@) == Some(is_finished),
{
    reveal_with_fuel(crate::value::find_key, 4);
    reveal_strlit("rowCount");
    reveal_strlit("changeIndex");
    reveal_strlit("isFinished");
    assert("rowCount"@.len() == 8);
    assert("changeIndex"@.len() == 11);
    assert("isFinished"@.len() == 10);
}

/// An event about a session or a result set carries its id in its name and what it reports in
/// its payload.
pub proof fn law_events(
    sesid: Seq<char>,
    jslid: Seq<char>,
    message: Seq<char>,
    severity: Seq<char>,
    n: nat,
    columns: Seq<QueryResultColumnView>,
    stats: Json,
)
    ensures
        info_event(sesid, message, severity).name == "session-info-"@ + sesid,
        info_event(sesid, message, severity).payload.text("message"@) == Some(message),
        info_event(sesid, message, severity).payload.text("severity"@) == Some(severity),
        recordset_event(sesid, n, jslid, columns).name == "session-recordset-"@ + sesid,
        recordset_event(sesid, n, jslid, columns).payload.text("jslid"@) == Some(jslid),
        recordset_event(sesid, n, jslid, columns).payload.get("resultIndex"@) == Some(
            Json::Int(n as int),
        ),
        recordset_event(sesid, n, jslid, columns).payload.get("columns"@) == Some(
            crate::query::columns_json(columns),
        ),
        stats_event(jslid, stats).name == "jsldata-stats-"@ + jslid,
        stats_event(jslid, stats).payload == stats,
        bare_event(sesid).name == sesid,
        bare_event(sesid).payload == Json::Object(Seq::empty()),
{
    reveal_with_fuel(crate::value::find_key, 4);
    reveal_strlit("message");
    reveal_strlit("severity");
    reveal_strlit("jslid");
    reveal_strlit("resultIndex");
    reveal_strlit("columns");
    assert("message"@.len() == 7);
    assert("severity"@.len() == 8);
    assert("jslid"@.len() == 5);
    assert("resultIndex"@.len() == 11);
    assert("columns"@.len() == 7);
    assert("message"@[0] == 'm');
    assert("columns"@[0] == 'c');
}

} // verus!
