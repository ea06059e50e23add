//! What every engine driver shares: the options and results of its operations,
//! and the events that a streamed query gives rise to.
use vstd::prelude::*;

use crate::dbinfo::TableInfo;
use crate::numbers::decimal;
use crate::query::{QueryResultColumn, QueryResultColumnView};
use crate::rows::{new_list, push_item};
use crate::text::concat2;
use crate::value::{Json, Value};

verus! {

/// A progress / info message emitted during stream execution.
#[derive(Debug, Clone)]
pub struct StreamInfo {
    pub message: String,
    pub severity: StreamSeverity,
    pub rows_affected: Option<u64>,
}

/// What a [`StreamInfo`] holds.
pub struct StreamInfoView {
    pub message: Seq<char>,
    pub severity: StreamSeverity,
    pub rows_affected: Option<u64>,
}

impl DeepView for StreamInfo {
    type V = StreamInfoView;

    open spec fn deep_view(&self) -> StreamInfoView {
        StreamInfoView {
            message: self.message@,
            severity: self.severity,
            rows_affected: self.rows_affected,
        }
    }
}

#[derive(Debug, Clone, Copy, PartialEq, Eq, Structural)]
pub enum StreamSeverity {
    Info,
    Warning,
    Error,
    Debug,
}

#[derive(Debug, Clone)]
pub struct QueryOptions {
    pub discard_result: bool,
    pub import_sql_dump: bool,
    /// Offset and limit.
    pub range: Option<(u64, u64)>,
    pub readonly: bool,
    pub command_timeout_ms: Option<u64>,
}

impl Default for QueryOptions {
    fn default() -> (r: Self)
        ensures
            !r.discard_result && !r.import_sql_dump && r.range is None && !r.readonly
                && r.command_timeout_ms is None,
    {
        QueryOptions {
            discard_result: false,
            import_sql_dump: false,
            range: None,
            readonly: false,
            command_timeout_ms: None,
        }
    }
}

#[derive(Debug, Clone)]
pub struct WriteTableOptions {
    pub drop_if_exists: bool,
    pub truncate: bool,
    pub create_if_not_exists: bool,
    pub commit_after_insert: bool,
    pub target_table_structure: Option<TableInfo>,
}

impl Default for WriteTableOptions {
    fn default() -> (r: Self)
        ensures
            !r.drop_if_exists && !r.truncate && !r.create_if_not_exists && !r.commit_after_insert
                && r.target_table_structure is None,
    {
        WriteTableOptions {
            drop_if_exists: false,
            truncate: false,
            create_if_not_exists: false,
            commit_after_insert: false,
            target_table_structure: None,
        }
    }
}

/// A version reported by a database server.
#[derive(Debug, Clone)]
pub struct ServerVersion {
    pub version: String,
    pub version_text: Option<String>,
}

/// What a [`ServerVersion`] holds.
pub struct ServerVersionView {
    pub version: Seq<char>,
    pub version_text: Option<Seq<char>>,
}

impl DeepView for ServerVersion {
    type V = ServerVersionView;

    open spec fn deep_view(&self) -> ServerVersionView {
        ServerVersionView {
            version: self.version@,
            version_text: self.version_text.deep_view(),
        }
    }
}

/// A database listed on a server.
#[derive(Debug, Clone)]
pub struct DatabaseEntry {
    pub name: String,
    pub size_on_disk: Option<u64>,
    pub empty: Option<bool>,
}

/// What a [`DatabaseEntry`] holds.
pub struct DatabaseEntryView {
    pub name: Seq<char>,
    pub size_on_disk: Option<u64>,
    pub empty: Option<bool>,
}

impl DeepView for DatabaseEntry {
    type V = DatabaseEntryView;

    open spec fn deep_view(&self) -> DatabaseEntryView {
        DatabaseEntryView {
            name: self.name@,
            size_on_disk: self.size_on_disk,
            empty: self.empty,
        }
    }
}

/// A database of which only the name is known.
pub open spec fn named_database(name: Seq<char>) -> DatabaseEntryView {
    DatabaseEntryView { name, size_on_disk: None, empty: None }
}

/// The databases that rows name under `key`, in order.
pub open spec fn databases_under(rows: Seq<Json>, key: Seq<char>) -> Seq<DatabaseEntryView> {
    crate::rows::pick(
        rows,
        |r: Json|
            match r.text(key) {
                Some(name) => Some(named_database(name)),
                None => None,
            },
    )
}

/// The databases that rows name under `key`, in order.
pub fn list_databases_under(rows: &Vec<Value>, key: &str) -> (r: Vec<DatabaseEntry>)
    ensures
        r.deep_view() == databases_under(rows.deep_view(), key@),
{
    let ghost all = rows.deep_view();
    let mut out: Vec<DatabaseEntry> = new_list();
    let mut i: usize = 0;
    while i < rows.len()
        invariant
            i <= rows@.len(),
            all == rows.deep_view(),
            out.deep_view() == databases_under(all.take(i as int), key@),
        decreases rows@.len() - i,
    {
        proof {
            crate::rows::lemma_take_next(all, i as int);
        }
        if let Some(name) = crate::rows::get_str(&rows[i], key) {
            push_item(&mut out, DatabaseEntry { name, size_on_disk: None, empty: None });
        }
        i = i + 1;
    }
    proof {
        crate::rows::lemma_take_all(all);
    }
    out
}

/// Driver capability flags.
#[derive(Debug, Clone, Copy, PartialEq, Eq, Structural)]
pub struct Capabilities {
    pub read_only_sessions: bool,
    pub supports_transactions: bool,
    pub supports_native_backup: bool,
    pub supports_native_restore: bool,
    pub supports_server_summary: bool,
    pub default_port: Option<u32>,
}

impl Default for Capabilities {
    fn default() -> (r: Self)
        ensures
            r == (Capabilities {
                read_only_sessions: false,
                supports_transactions: false,
                supports_native_backup: false,
                supports_native_restore: false,
                supports_server_summary: false,
                default_port: None,
            }),
    {
        Capabilities {
            read_only_sessions: false,
            supports_transactions: false,
            supports_native_backup: false,
            supports_native_restore: false,
            supports_server_summary: false,
            default_port: None,
        }
    }
}

// ---------------------------------------------------------------------------
// Streams
// ---------------------------------------------------------------------------

/// An event pushed to the sink of a streamed query.
pub enum StreamEvent {
    Recordset(Vec<QueryResultColumn>),
    Row(Value),
    Info(StreamInfo),
    Done,
}

/// What a [`StreamEvent`] holds.
pub enum StreamEventView {
    Recordset(Seq<QueryResultColumnView>),
    Row(Json),
    Info(StreamInfoView),
    Done,
}

impl DeepView for StreamEvent {
    type V = StreamEventView;

    open spec fn deep_view(&self) -> StreamEventView {
        match self {
            StreamEvent::Recordset(c) => StreamEventView::Recordset(c.deep_view()),
            StreamEvent::Row(v) => StreamEventView::Row(v@),
            StreamEvent::Info(i) => StreamEventView::Info(i.deep_view()),
            StreamEvent::Done => StreamEventView::Done,
        }
    }
}

/// The message that reports how many rows a query affected.
pub open spec fn affected_info(n: nat) -> StreamEventView {
    StreamEventView::Info(
        StreamInfoView {
            message: crate::numbers::dec(n) + " rows affected"@,
            severity: StreamSeverity::Info,
            rows_affected: Some(n as u64),
        },
    )
}

/// The row events of a recordset, in order.
pub open spec fn row_events(rows: Seq<Json>) -> Seq<StreamEventView> {
    Seq::new(rows.len(), |i: int| StreamEventView::Row(rows[i]))
}

/// The events of a recordset: its columns and its rows where it has columns,
/// nothing otherwise.
pub open spec fn recordset_events(
    columns: Seq<QueryResultColumnView>,
    rows: Seq<Json>,
) -> Seq<StreamEventView> {
    if columns.len() == 0 {
        Seq::empty()
    } else {
        seq![StreamEventView::Recordset(columns)] + row_events(rows)
    }
}

/// The report of `n` affected rows, where there are any, and the end.
pub open spec fn closing_events(n: nat) -> Seq<StreamEventView> {
    if n > 0 {
        seq![affected_info(n), StreamEventView::Done]
    } else {
        seq![StreamEventView::Done]
    }
}

/// Appends the events of a recordset.
pub fn push_recordset(
    events: &mut Vec<StreamEvent>,
    columns: Vec<QueryResultColumn>,
    rows: Vec<Value>,
)
    ensures
        final(events).deep_view() == old(events).deep_view() + recordset_events(
            columns.deep_view(),
            rows.deep_view(),
        ),
{
    let ghost all = rows.deep_view();
    if columns.len() == 0 {
        assert(events.deep_view() =~= old(events).deep_view() + recordset_events(
            columns.deep_view(),
            all,
        ));
        return ;
    }
    let ghost start = old(events).deep_view();
    let ghost head = StreamEventView::Recordset(columns.deep_view());
    push_item(events, StreamEvent::Recordset(columns));
    assert(start.push(head) + row_events(all.take(0)) =~= events.deep_view());
    for row in it: rows
        invariant
            it.seq() == rows@,
            all == rows.deep_view(),
            events.deep_view() == start.push(head) + row_events(all.take(it.index())),
    {
        let ghost k = it.index();
        assert(all[k] == row@);
        assert(row_events(all.take(k + 1)) =~= row_events(all.take(k)).push(
            StreamEventView::Row(row@),
        ));
        push_item(events, StreamEvent::Row(row));
        assert(events.deep_view() =~= start.push(head) + row_events(all.take(k + 1)));
    }
    assert(all.take(all.len() as int) =~= all);
    assert(events.deep_view() =~= start + recordset_events(columns.deep_view(), all));
}

/// Appends the report of the affected rows, where there are any, and the end.
pub fn push_closing(events: &mut Vec<StreamEvent>, rows_affected: u64)
    ensures
        final(events).deep_view() == old(events).deep_view() + closing_events(rows_affected as nat),
{
    let ghost start = old(events).deep_view();
    if rows_affected > 0 {
        let message = concat2(decimal(rows_affected).as_str(), " rows affected");
        push_item(
            events,
            StreamEvent::Info(
                StreamInfo {
                    message,
                    severity: StreamSeverity::Info,
                    rows_affected: Some(rows_affected),
                },
            ),
        );
    }
    push_item(events, StreamEvent::Done);
    assert(events.deep_view() =~= start + closing_events(rows_affected as nat));
}

/// The events of a query with one result: the recordset, the number of its rows
/// where there are any, the end.
pub open spec fn single_result_events(
    columns: Seq<QueryResultColumnView>,
    rows: Seq<Json>,
) -> Seq<StreamEventView> {
    recordset_events(columns, rows) + closing_events(rows.len())
}

/// The events of a query with one result.
pub fn stream_single_result(columns: Vec<QueryResultColumn>, rows: Vec<Value>) -> (r: Vec<
    StreamEvent,
>)
    ensures
        r.deep_view() == single_result_events(columns.deep_view(), rows.deep_view()),
{
    let mut events: Vec<StreamEvent> = new_list();
    let n: u64 = rows.len() as u64;
    push_recordset(&mut events, columns, rows);
    push_closing(&mut events, n);
    assert(events.deep_view() =~= single_result_events(columns.deep_view(), rows.deep_view()));
    events
}

/// The running count of a stream of several statements.
pub struct StreamTally {
    pub rows_affected: u64,
}

impl StreamTally {
    pub fn new() -> (r: Self)
        ensures
            r.rows_affected == 0,
    {
        StreamTally { rows_affected: 0 }
    }

    /// The events of the next statement's result; `affected` rows are counted.
    pub fn add_result(
        &mut self,
        columns: Vec<QueryResultColumn>,
        rows: Vec<Value>,
        affected: u64,
    ) -> (r: Vec<StreamEvent>)
        requires
            old(self).rows_affected + affected <= u64::MAX,
        ensures
            final(self).rows_affected == old(self).rows_affected + affected,
            r.deep_view() == recordset_events(columns.deep_view(), rows.deep_view()),
    {
        let mut events: Vec<StreamEvent> = new_list();
        push_recordset(&mut events, columns, rows);
        self.rows_affected = self.rows_affected + affected;
        assert(events.deep_view() =~= recordset_events(columns.deep_view(), rows.deep_view()));
        events
    }

    /// The events at the end of the stream.
    pub fn finish(&self) -> (r: Vec<StreamEvent>)
        ensures
            r.deep_view() == closing_events(self.rows_affected as nat),
    {
        let mut events: Vec<StreamEvent> = new_list();
        push_closing(&mut events, self.rows_affected);
        assert(events.deep_view() =~= closing_events(self.rows_affected as nat));
        events
    }
}

// ---------------------------------------------------------------------------
// Laws
// ---------------------------------------------------------------------------

/// The databases of a server are those that its rows name, in their order; a row without a name
/// gives none.
pub proof fn law_databases(rows: Seq<Json>, r: Json, key: Seq<char>)
    ensures
        databases_under(Seq::empty(), key).len() == 0,
        r.text(key) is None ==> databases_under(rows.push(r), key) == databases_under(rows, key),
        r.text(key) matches Some(name) ==> {
            let after = databases_under(rows.push(r), key);
            &&& after.len() == databases_under(rows, key).len() + 1
            &&& after.drop_last() == databases_under(rows, key)
            &&& after.last().name == name
            &&& after.last().size_on_disk is None
            &&& after.last().empty is None
        },
{
    let f = |r: Json|
        match r.text(key) {
            Some(name) => Some(named_database(name)),
            None => None,
        };
    crate::rows::law_pick_push(rows, f, r);
    if r.text(key) is Some {
        let before = databases_under(rows, key);
        assert(databases_under(rows.push(r), key).drop_last() =~= before);
    }
}

/// A result is announced by its columns, then come its rows in order, then how many there were,
/// and then the end; a result without rows is not counted, and one without columns shows no rows.
pub proof fn law_single_result(columns: Seq<QueryResultColumnView>, rows: Seq<Json>, i: int)
    requires
        rows.len() <= u64::MAX,
    ensures
        ({
            let events = single_result_events(columns, rows);
            let n = rows.len();
            let counted = if n > 0 {
                1int
            } else {
                0
            };
            let shown = if columns.len() > 0 {
                n as int + 1
            } else {
                0int
            };
            &&& events.len() == shown + counted + 1
            &&& columns.len() > 0 ==> events[0] == StreamEventView::Recordset(columns)
            &&& columns.len() > 0 && 0 <= i < n ==> events[i + 1] == StreamEventView::Row(rows[i])
            &&& events.last() == StreamEventView::Done
            &&& n > 0 ==> (events[events.len() - 2] matches StreamEventView::Info(info)
                && info.rows_affected == Some(n as u64) && info.severity == StreamSeverity::Info
                && info.message == crate::numbers::dec(n) + " rows affected"@)
        }),
{
}

/// The end of a stream tells how many rows were affected, where there were any.
pub proof fn law_closing(n: nat)
    requires
        n <= u64::MAX,
    ensures
        closing_events(0) == seq![StreamEventView::Done],
        n > 0 ==> closing_events(n).len() == 2 && closing_events(n)[1] == StreamEventView::Done
            && (closing_events(n)[0] matches StreamEventView::Info(info) && info.rows_affected
            == Some(n as u64) && info.message == crate::numbers::dec(n) + " rows affected"@),
{
}

} // verus!
