//! The session routes.
//!
//! A session owns a connection of its own. A reader and a query collect their
//! results into the store of result sets, and notify the frontend by events.
use vstd::prelude::*;

use crate::driver::{StreamInfo, StreamSeverity};
use crate::encoding::{new_uuid, object_of_one};
use crate::events::{
    session_closed, session_done, session_info, session_jslid_done, session_recordset, UiEvent,
    UiEventView,
};
use crate::jsl::{JslDataView, JslStore};
use crate::keyed::KeyedMap;
use crate::query::{QueryResultColumn, QueryResultColumnView};
use crate::routes::{ok_value, route_error, text_argument};
use crate::rows::{map_list, new_list, push_item};
use crate::text::concat2;
use crate::value::{add_member, array_value, no_members, object_value, str_value, Json, Value};

verus! {

// ---------------------------------------------------------------------------
// Sessions
// ---------------------------------------------------------------------------

/// An open session. The connection that it owns is not looked into.
pub struct Session<H> {
    pub sesid: String,
    pub conid: String,
    pub database: Option<String>,
    pub isolation_level: Option<String>,
    pub handle: H,
}

/// What a [`Session`] holds.
pub struct SessionView<H> {
    pub sesid: Seq<char>,
    pub conid: Seq<char>,
    pub database: Option<Seq<char>>,
    pub isolation_level: Option<Seq<char>>,
    pub handle: H,
}

/// What a session holds.
pub open spec fn session_view<H>(s: Session<H>) -> SessionView<H> {
    SessionView {
        sesid: s.sesid@,
        conid: s.conid@,
        database: s.database.deep_view(),
        isolation_level: s.isolation_level.deep_view(),
        handle: s.handle,
    }
}

/// The open sessions.
pub struct SessionStore<H> {
    sessions: KeyedMap<Session<H>>,
}

spec fn contents<H>(m: Map<Seq<char>, Session<H>>) -> Map<Seq<char>, SessionView<H>> {
    m.map_values(|s: Session<H>| session_view(s))
}

impl<H> View for SessionStore<H> {
    type V = Map<Seq<char>, SessionView<H>>;

    closed spec fn view(&self) -> Map<Seq<char>, SessionView<H>> {
        contents(self.sessions@)
    }
}

/// The error for a session that is not open.
pub open spec fn invalid(sesid: Seq<char>) -> Seq<char> {
    crate::routes::error_text("Invalid session "@ + sesid)
}

/// The error for a session that is not open.
pub fn invalid_session(sesid: &str) -> (r: String)
    ensures
        r@ == invalid(sesid@),
{
    route_error(concat2("Invalid session ", sesid).as_str())
}

/// `sessions_create`: the connection, and the database where one is given.
pub fn create_request(args: &Value) -> (r: Result<(String, Option<String>), String>)
    ensures
        match r {
            Ok((conid, database)) => args@.text("conid"@) == Some(conid@) && database.deep_view()
                == args@.text("database"@),
            Err(e) => args@.text("conid"@) is None && e@ == crate::routes::missing(
                "create"@,
                "conid"@,
            ),
        },
{
    let conid = match text_argument(args, "conid", "create") {
        Ok(c) => c,
        Err(e) => return Err(e),
    };
    Ok((conid.to_owned(), crate::rows::get_str(args, "database")))
}

impl<H> SessionStore<H> {
    pub fn new() -> (r: Self)
        ensures
            r@ == Map::<Seq<char>, SessionView<H>>::empty(),
    {
        let r = SessionStore { sessions: KeyedMap::new() };
        assert(r@ =~= Map::empty());
        r
    }

    /// Opens a session under the given id, in place of what was there, and
    /// answers with the id.
    pub fn create_as(
        &mut self,
        sesid: String,
        conid: String,
        database: Option<String>,
        handle: H,
    ) -> (r: Value)
        ensures
            final(self)@ == old(self)@.insert(
                sesid@,
                SessionView {
                    sesid: sesid@,
                    conid: conid@,
                    database: database.deep_view(),
                    isolation_level: None,
                    handle,
                },
            ),
            r@ == crate::encoding::one_member("sesid"@, Json::Str(sesid@)),
    {
        let ghost before = self.sessions@;
        let answer = object_of_one("sesid", str_value(sesid.as_str()));
        let session = Session {
            sesid: sesid.clone(),
            conid,
            database,
            isolation_level: None,
            handle,
        };
        let ghost s = session_view(session);
        self.sessions.insert(sesid, session);
        assert(self@ =~= contents(before).insert(sesid@, s));
        answer
    }

    /// `sessions_create`: opens a session under a new random id.
    pub fn create(&mut self, conid: String, database: Option<String>, handle: H) -> (r: Value)
        ensures
            match r@.text("sesid"@) {
                Some(sesid) => {
                    &&& crate::encoding::is_uuid_form(sesid)
                    &&& r@ == crate::encoding::one_member("sesid"@, Json::Str(sesid))
                    &&& final(self)@ == old(self)@.insert(
                        sesid,
                        SessionView {
                            sesid,
                            conid: conid@,
                            database: database.deep_view(),
                            isolation_level: None,
                            handle,
                        },
                    )
                },
                None => false,
            },
    {
        let sesid = new_uuid();
        let ghost id = sesid@;
        let r = self.create_as(sesid, conid, database, handle);
        proof {
            let o = seq![("sesid"@, Json::Str(id))];
            assert(o[0] == ("sesid"@, Json::Str(id)));
            reveal_with_fuel(crate::value::find_key, 2);
            assert(r@.text("sesid"@) == Some(id));
        }
        r
    }

    /// The session with the given id.
    pub fn get(&self, sesid: &str) -> (r: Result<&Session<H>, String>)
        ensures
            match r {
                Ok(s) => self@.dom().contains(sesid@) && session_view(*s) == self@[sesid@],
                Err(e) => !self@.dom().contains(sesid@) && e@ == invalid(sesid@),
            },
    {
        match self.sessions.get(sesid) {
            Some(s) => Ok(s),
            None => Err(invalid_session(sesid)),
        }
    }

    /// `sessions_set_isolation_level`: stores the transaction isolation level of
    /// a session.
    pub fn set_isolation_level(&mut self, args: &Value) -> (r: Result<Value, String>)
        ensures
            match (r, args@.text("sesid"@), args@.text("level"@)) {
                (Ok(v), Some(sesid), Some(level)) => {
                    &&& old(self)@.dom().contains(sesid)
                    &&& final(self)@ == old(self)@.insert(
                        sesid,
                        SessionView { isolation_level: Some(level), ..old(self)@[sesid] },
                    )
                    &&& v@ == crate::routes::ok_json()
                },
                (Ok(_), _, _) => false,
                (Err(e), sesid, level) => {
                    &&& final(self)@ == old(self)@
                    &&& e@ == if sesid is None {
                        crate::routes::missing("set_isolation_level"@, "sesid"@)
                    } else if level is None {
                        crate::routes::missing("set_isolation_level"@, "level"@)
                    } else {
                        invalid(sesid->0)
                    }
                    &&& sesid is Some && level is Some ==> !old(self)@.dom().contains(sesid->0)
                },
            },
    {
        let sesid = match text_argument(args, "sesid", "set_isolation_level") {
            Ok(s) => s,
            Err(e) => return Err(e),
        };
        let level = match text_argument(args, "level", "set_isolation_level") {
            Ok(l) => l,
            Err(e) => return Err(e),
        };
        let ghost before = self.sessions@;
        match self.sessions.remove(sesid) {
            Some(session) => {
                let ghost was = session_view(session);
                let after = Session {
                    sesid: session.sesid,
                    conid: session.conid,
                    database: session.database,
                    isolation_level: Some(level.to_owned()),
                    handle: session.handle,
                };
                let ghost s = session_view(after);
                self.sessions.insert(sesid.to_owned(), after);
                proof {
                    assert(contents(before)[sesid@] == was);
                    assert(self@ =~= contents(before).insert(sesid@, s));
                }
                Ok(ok_value())
            },
            None => {
                assert(self@ =~= contents(before));
                Err(invalid_session(sesid))
            },
        }
    }

    /// `sessions_kill`: removes a session. The caller closes the connection that
    /// it owned, and then emits the event.
    pub fn kill(&mut self, args: &Value) -> (r: Result<(H, UiEvent), String>)
        ensures
            match (r, args@.text("sesid"@)) {
                (Ok((handle, event)), Some(sesid)) => {
                    &&& old(self)@.dom().contains(sesid)
                    &&& final(self)@ == old(self)@.remove(sesid)
                    &&& handle == old(self)@[sesid].handle
                    &&& event.deep_view() == crate::events::bare_event(
                        "session-closed-"@ + sesid,
                    )
                },
                (Ok(_), None) => false,
                (Err(e), Some(sesid)) => {
                    &&& !old(self)@.dom().contains(sesid)
                    &&& final(self)@ == old(self)@
                    &&& e@ == invalid(sesid)
                },
                (Err(e), None) => final(self)@ == old(self)@ && e@ == crate::routes::missing(
                    "kill"@,
                    "sesid"@,
                ),
            },
    {
        let sesid = match text_argument(args, "sesid", "kill") {
            Ok(s) => s,
            Err(e) => return Err(e),
        };
        let ghost before = self.sessions@;
        match self.sessions.remove(sesid) {
            Some(session) => {
                assert(contents(before)[sesid@] == session_view(session));
                assert(self@ =~= contents(before).remove(sesid@));
                Ok((session.handle, session_closed(sesid)))
            },
            None => {
                assert(self@ =~= contents(before));
                Err(invalid_session(sesid))
            },
        }
    }

    /// `sessions_ping`: whether a session is still open: `{ state: "ok" }` or
    /// `{ state: "missing" }`.
    pub fn ping(&self, args: &Value) -> (r: Result<Value, String>)
        ensures
            match (r, args@.text("sesid"@)) {
                (Ok(v), Some(sesid)) => v@ == crate::encoding::one_member(
                    "state"@,
                    Json::Str(
                        if self@.dom().contains(sesid) {
                            "ok"@
                        } else {
                            "missing"@
                        },
                    ),
                ),
                (Ok(_), None) => false,
                (Err(e), sesid) => sesid is None && e@ == crate::routes::missing(
                    "ping"@,
                    "sesid"@,
                ),
            },
    {
        let sesid = match text_argument(args, "sesid", "ping") {
            Ok(s) => s,
            Err(e) => return Err(e),
        };
        let state = if self.sessions.contains_key(sesid) {
            "ok"
        } else {
            "missing"
        };
        Ok(object_of_one("state", str_value(state)))
    }
}

/// A session that was killed is missing; every other session is as it was.
pub proof fn law_kill<H>(sessions: Map<Seq<char>, SessionView<H>>, sesid: Seq<char>, other: Seq<char>)
    ensures
        !sessions.remove(sesid).dom().contains(sesid),
        other != sesid ==> sessions.remove(sesid).dom().contains(other)
            == sessions.dom().contains(other),
{
}

// ---------------------------------------------------------------------------
// Running queries
// ---------------------------------------------------------------------------

/// The name of a severity.
pub open spec fn severity_name(severity: StreamSeverity) -> Seq<char> {
    match severity {
        StreamSeverity::Info => "info"@,
        StreamSeverity::Warning => "warning"@,
        StreamSeverity::Error => "error"@,
        StreamSeverity::Debug => "debug"@,
    }
}

pub fn severity_str(severity: StreamSeverity) -> (r: &'static str)
    ensures
        r@ == severity_name(severity),
{
    match severity {
        StreamSeverity::Info => "info",
        StreamSeverity::Warning => "warning",
        StreamSeverity::Error => "error",
        StreamSeverity::Debug => "debug",
    }
}

/// Collects the recordsets of a running query. With a session, its recordsets,
/// messages and end are announced to it; `emit_jslid_done` asks for an event at
/// the end of each result set.
pub struct StreamCollector {
    pub jslids: Vec<String>,
    pub current: Option<String>,
    pub sesid: Option<String>,
    pub emit_jslid_done: bool,
}

/// What a [`StreamCollector`] holds.
pub struct StreamCollectorView {
    pub jslids: Seq<Seq<char>>,
    pub current: Option<Seq<char>>,
    pub sesid: Option<Seq<char>>,
    pub emit_jslid_done: bool,
}

impl DeepView for StreamCollector {
    type V = StreamCollectorView;

    open spec fn deep_view(&self) -> StreamCollectorView {
        StreamCollectorView {
            jslids: self.jslids.deep_view(),
            current: self.current.deep_view(),
            sesid: self.sesid.deep_view(),
            emit_jslid_done: self.emit_jslid_done,
        }
    }
}

/// The event, where there is one.
pub open spec fn event_list(event: Option<UiEventView>) -> Seq<UiEventView> {
    match event {
        Some(e) => seq![e],
        None => Seq::empty(),
    }
}

/// The events at the begin of a result set.
pub open spec fn recordset_events(
    c: StreamCollectorView,
    jslid: Seq<char>,
    columns: Seq<QueryResultColumnView>,
) -> Seq<UiEventView> {
    seq![
        crate::events::stats_event(
            jslid,
            crate::jsl::stats_of(crate::jsl::fresh(jslid, columns)),
        ),
    ] + event_list(
        match c.sesid {
            Some(sesid) => Some(
                crate::events::recordset_event(sesid, c.jslids.len(), jslid, columns),
            ),
            None => None,
        },
    )
}

/// The store after result sets were marked complete.
pub open spec fn finish_all(m: Map<Seq<char>, JslDataView>, ids: Seq<Seq<char>>) -> Map<
    Seq<char>,
    JslDataView,
>
    decreases ids.len(),
{
    if ids.len() == 0 {
        m
    } else {
        let before = finish_all(m, ids.drop_last());
        if before.dom().contains(ids.last()) {
            before.insert(ids.last(), crate::jsl::ended(before[ids.last()]))
        } else {
            before
        }
    }
}

/// The statistics that are reported while result sets are marked complete.
pub open spec fn finish_events(m: Map<Seq<char>, JslDataView>, ids: Seq<Seq<char>>) -> Seq<
    UiEventView,
>
    decreases ids.len(),
{
    if ids.len() == 0 {
        Seq::empty()
    } else {
        let before = finish_all(m, ids.drop_last());
        finish_events(m, ids.drop_last()) + event_list(
            if before.dom().contains(ids.last()) {
                Some(
                    crate::events::stats_event(
                        ids.last(),
                        crate::jsl::stats_of(crate::jsl::ended(before[ids.last()])),
                    ),
                )
            } else {
                None
            },
        )
    }
}

/// At the end of a query each of its result sets that is still there is complete,
/// with its rows as they were; every other one is untouched.
pub proof fn law_finish_all(m: Map<Seq<char>, JslDataView>, ids: Seq<Seq<char>>, k: Seq<char>)
    ensures
        finish_all(m, ids).dom() == m.dom(),
        m.dom().contains(k) ==> finish_all(m, ids)[k] == if ids.contains(k) {
            crate::jsl::ended(m[k])
        } else {
            m[k]
        },
    decreases ids.len(),
{
    if ids.len() > 0 {
        let rest = ids.drop_last();
        law_finish_all(m, rest, k);
        assert(finish_all(m, ids).dom() =~= m.dom());
        if ids.contains(k) && k != ids.last() {
            let i = choose|i: int| 0 <= i < ids.len() && ids[i] == k;
            assert(rest[i] == k);
        }
        if rest.contains(k) {
            let i = choose|i: int| 0 <= i < rest.len() && rest[i] == k;
            assert(ids[i] == k);
        }
        if k == ids.last() {
            assert(ids[ids.len() - 1] == k);
        }
    } else {
        assert(finish_all(m, ids).dom() =~= m.dom());
    }
}

/// The events that end result sets.
pub open spec fn done_events(ids: Seq<Seq<char>>) -> Seq<UiEventView> {
    Seq::new(
        ids.len(),
        |i: int| crate::events::bare_event("session-jslid-done-"@ + ids[i]),
    )
}

/// The events at the end of a query.
pub open spec fn closing(c: StreamCollectorView, m: Map<Seq<char>, JslDataView>) -> Seq<
    UiEventView,
> {
    finish_events(m, c.jslids) + event_list(
        match c.sesid {
            Some(sesid) => Some(crate::events::bare_event("session-done-"@ + sesid)),
            None => None,
        },
    ) + if c.emit_jslid_done {
        done_events(c.jslids)
    } else {
        Seq::empty()
    }
}

impl StreamCollector {
    pub fn new(sesid: Option<&str>, emit_jslid_done: bool) -> (r: Self)
        ensures
            r.deep_view() == (StreamCollectorView {
                jslids: Seq::empty(),
                current: None,
                sesid: crate::value::opt_str(sesid),
                emit_jslid_done,
            }),
    {
        StreamCollector {
            jslids: new_list(),
            current: None,
            sesid: match sesid {
                Some(s) => Some(s.to_owned()),
                None => None,
            },
            emit_jslid_done,
        }
    }

    /// A result set begins, to be stored under the given id.
    pub fn on_recordset_as(
        &mut self,
        store: &mut JslStore,
        jslid: String,
        columns: Vec<QueryResultColumn>,
    ) -> (r: Vec<UiEvent>)
        ensures
            final(store)@ == old(store)@.insert(
                jslid@,
                crate::jsl::fresh(jslid@, columns.deep_view()),
            ),
            final(self).deep_view() == (StreamCollectorView {
                jslids: old(self).deep_view().jslids.push(jslid@),
                current: Some(jslid@),
                ..old(self).deep_view()
            }),
            r.deep_view() == recordset_events(
                old(self).deep_view(),
                jslid@,
                columns.deep_view(),
            ),
    {
        let ghost c = self.deep_view();
        let announced = match &self.sesid {
            Some(sesid) => {
                assert(self.jslids.deep_view().len() == self.jslids@.len());
                Some(
                    session_recordset(
                        sesid.as_str(),
                        self.jslids.len(),
                        jslid.as_str(),
                        &columns,
                    ),
                )
            },
            None => None,
        };
        let ghost cols = columns.deep_view();
        let stats = store.jsl_create_as(jslid.clone(), columns);
        let mut out: Vec<UiEvent> = new_list();
        push_item(&mut out, stats);
        if let Some(e) = announced {
            push_item(&mut out, e);
        }
        self.current = Some(jslid.clone());
        push_item(&mut self.jslids, jslid);
        assert(out.deep_view() =~= recordset_events(c, jslid@, cols));
        out
    }

    /// A result set begins, to be stored under a new random id.
    pub fn on_recordset(&mut self, store: &mut JslStore, columns: Vec<QueryResultColumn>) -> (r:
        Vec<UiEvent>)
        ensures
            final(self).deep_view().current is Some,
            ({
                let jslid = final(self).deep_view().current->0;
                &&& crate::encoding::is_uuid_form(jslid)
                &&& final(store)@ == old(store)@.insert(
                    jslid,
                    crate::jsl::fresh(jslid, columns.deep_view()),
                )
                &&& final(self).deep_view() == (StreamCollectorView {
                    jslids: old(self).deep_view().jslids.push(jslid),
                    current: Some(jslid),
                    ..old(self).deep_view()
                })
                &&& r.deep_view() == recordset_events(
                    old(self).deep_view(),
                    jslid,
                    columns.deep_view(),
                )
            }),
    {
        let jslid = new_uuid();
        self.on_recordset_as(store, jslid, columns)
    }

    /// A row of the current result set, if one has begun.
    pub fn on_row(&self, store: &mut JslStore, row: Value) -> (r: Vec<UiEvent>)
        ensures
            match self.deep_view().current {
                Some(jslid) if old(store)@.dom().contains(jslid) => {
                    let after = crate::jsl::with_row(old(store)@[jslid], row@);
                    &&& final(store)@ == old(store)@.insert(jslid, after)
                    &&& r.deep_view() == seq![
                        crate::events::stats_event(jslid, crate::jsl::stats_of(after)),
                    ]
                },
                _ => final(store)@ == old(store)@ && r@.len() == 0,
            },
    {
        let mut out: Vec<UiEvent> = new_list();
        assert(out.deep_view().len() == out@.len());
        if let Some(jslid) = &self.current {
            if let Some(e) = store.jsl_push_row(jslid.as_str(), row) {
                push_item(&mut out, e);
                assert(out.deep_view() =~= seq![e.deep_view()]);
            }
        }
        out
    }

    /// A message, which goes to the session.
    pub fn on_info(&self, info: &StreamInfo) -> (r: Vec<UiEvent>)
        ensures
            r.deep_view() == event_list(
                match self.deep_view().sesid {
                    Some(sesid) => Some(
                        crate::events::info_event(
                            sesid,
                            info.message@,
                            severity_name(info.severity),
                        ),
                    ),
                    None => None,
                },
            ),
    {
        let mut out: Vec<UiEvent> = new_list();
        if let Some(sesid) = &self.sesid {
            push_item(
                &mut out,
                session_info(sesid.as_str(), info.message.as_str(), severity_str(info.severity)),
            );
        }
        assert(out.deep_view() =~= event_list(
            match self.deep_view().sesid {
                Some(sesid) => Some(
                    crate::events::info_event(sesid, info.message@, severity_name(info.severity)),
                ),
                None => None,
            },
        ));
        out
    }

    /// The end of the query: every result set is marked complete.
    pub fn on_done(&self, store: &mut JslStore) -> (r: Vec<UiEvent>)
        ensures
            final(store)@ == finish_all(old(store)@, self.deep_view().jslids),
            r.deep_view() == closing(self.deep_view(), old(store)@),
    {
        let ghost m = store@;
        let ghost ids = self.jslids.deep_view();
        let mut out: Vec<UiEvent> = new_list();
        let mut i: usize = 0;
        while i < self.jslids.len()
            invariant
                i <= self.jslids@.len(),
                ids == self.jslids.deep_view(),
                store@ == finish_all(m, ids.take(i as int)),
                out.deep_view() == finish_events(m, ids.take(i as int)),
            decreases self.jslids@.len() - i,
        {
            proof {
                crate::rows::lemma_take_next(ids, i as int);
            }
            assert(ids[i as int] == self.jslids@[i as int]@);
            let ghost so_far = out.deep_view();
            match store.jsl_finish(self.jslids[i].as_str()) {
                Some(e) => {
                    push_item(&mut out, e);
                    assert(out.deep_view() =~= so_far + seq![e.deep_view()]);
                },
                None => {
                    assert(out.deep_view() =~= so_far + Seq::<UiEventView>::empty());
                },
            }
            i = i + 1;
        }
        proof {
            crate::rows::lemma_take_all(ids);
        }
        if let Some(sesid) = &self.sesid {
            push_item(&mut out, session_done(sesid.as_str()));
        }
        let ghost head = out.deep_view();
        assert(head =~= finish_events(m, ids) + event_list(
            match self.deep_view().sesid {
                Some(sesid) => Some(crate::events::bare_event("session-done-"@ + sesid)),
                None => None,
            },
        ));
        if self.emit_jslid_done {
            let mut k: usize = 0;
            assert(head + done_events(ids).take(0) =~= head);
            while k < self.jslids.len()
                invariant
                    k <= self.jslids@.len(),
                    ids == self.jslids.deep_view(),
                    out.deep_view() == head + done_events(ids).take(k as int),
                decreases self.jslids@.len() - k,
            {
                assert(ids[k as int] == self.jslids@[k as int]@);
                push_item(&mut out, session_jslid_done(self.jslids[k].as_str()));
                assert(out.deep_view() =~= head + done_events(ids).take(k + 1));
                k = k + 1;
            }
            assert(done_events(ids).take(ids.len() as int) =~= done_events(ids));
        } else {
            assert(head + Seq::<UiEventView>::empty() =~= head);
        }
        out
    }
}

/// `sessions_execute_reader`: the connection and the SQL to run.
pub fn execute_reader_request(args: &Value) -> (r: Result<(String, String), String>)
    ensures
        match r {
            Ok((conid, sql)) => args@.text("conid"@) == Some(conid@) && args@.text("sql"@) == Some(
                sql@,
            ),
            Err(e) => {
                ||| args@.text("conid"@) is None && e@ == crate::routes::missing(
                    "execute_reader"@,
                    "conid"@,
                )
                ||| args@.text("conid"@) is Some && args@.text("sql"@) is None && e@
                    == crate::routes::missing("execute_reader"@, "sql"@)
            },
        },
{
    let conid = match text_argument(args, "conid", "execute_reader") {
        Ok(c) => c,
        Err(e) => return Err(e),
    };
    let sql = match text_argument(args, "sql", "execute_reader") {
        Ok(s) => s,
        Err(e) => return Err(e),
    };
    Ok((conid.to_owned(), sql.to_owned()))
}

/// The answer to a reader: its first result set.
pub fn reader_answer(jslids: &Vec<String>) -> (r: Result<Value, String>)
    ensures
        match r {
            Ok(v) => jslids@.len() > 0 && v@ == crate::encoding::one_member(
                "jslid"@,
                Json::Str(jslids@[0]@),
            ),
            Err(e) => jslids@.len() == 0 && e@ == crate::routes::error_text(
                "execute_reader produced no result set"@,
            ),
        },
{
    if jslids.len() == 0 {
        return Err(route_error("execute_reader produced no result set"));
    }
    Ok(object_of_one("jslid", str_value(jslids[0].as_str())))
}

/// `sessions_execute_query`: the session and the SQL to run.
pub fn execute_query_request(args: &Value) -> (r: Result<(String, String), String>)
    ensures
        match r {
            Ok((sesid, sql)) => args@.text("sesid"@) == Some(sesid@) && args@.text("sql"@) == Some(
                sql@,
            ),
            Err(e) => {
                ||| args@.text("sesid"@) is None && e@ == crate::routes::missing(
                    "execute_query"@,
                    "sesid"@,
                )
                ||| args@.text("sesid"@) is Some && args@.text("sql"@) is None && e@
                    == crate::routes::missing("execute_query"@, "sql"@)
            },
        },
{
    let sesid = match text_argument(args, "sesid", "execute_query") {
        Ok(s) => s,
        Err(e) => return Err(e),
    };
    let sql = match text_argument(args, "sql", "execute_query") {
        Ok(s) => s,
        Err(e) => return Err(e),
    };
    Ok((sesid.to_owned(), sql.to_owned()))
}

/// The answer to a query: all its result sets.
pub open spec fn query_json(jslids: Seq<Seq<char>>) -> Json {
    Json::Object(
        seq![
            ("status"@, Json::Str("ok"@)),
            ("jslids"@, Json::Array(Seq::new(jslids.len(), |i: int| Json::Str(jslids[i])))),
        ],
    )
}

/// The answer to a query: all its result sets.
pub fn query_answer(jslids: &Vec<String>) -> (r: Value)
    ensures
        r@ == query_json(jslids.deep_view()),
{
    let f = |s: &String| -> (v: Value)
        ensures
            v@ == Json::Str(s@),
    {
        str_value(s.as_str())
    };
    let ids = map_list(jslids, f);
    let ghost names = jslids.deep_view();
    assert(ids.deep_view() =~= Seq::new(names.len(), |i: int| Json::Str(names[i])));
    let mut o = no_members();
    add_member(&mut o, "status", str_value("ok"));
    add_member(&mut o, "jslids", array_value(ids));
    assert(crate::value::entries(o@) =~= query_json(names)->Object_0);
    object_value(o)
}

/// `sessions_stop_loading_reader`: drops a reader's result set. An unknown id is
/// not an error.
pub fn stop_loading_reader(store: &mut JslStore, args: &Value) -> (r: Result<Value, String>)
    ensures
        match (r, args@.text("jslid"@)) {
            (Ok(v), Some(jslid)) => final(store)@ == old(store)@.remove(jslid) && v@
                == crate::routes::ok_json(),
            (Ok(_), None) => false,
            (Err(e), jslid) => jslid is None && final(store)@ == old(store)@ && e@
                == crate::routes::missing("stop_loading_reader"@, "jslid"@),
        },
{
    let jslid = match text_argument(args, "jslid", "stop_loading_reader") {
        Ok(j) => j,
        Err(e) => return Err(e),
    };
    store.jsl_remove(jslid);
    Ok(ok_value())
}

// ---------------------------------------------------------------------------
// Laws
// ---------------------------------------------------------------------------

/// The severities go by their names, and a session that is not there is named in the error.
pub proof fn law_names(sesid: Seq<char>)
    ensures
        severity_name(StreamSeverity::Info) == "info"@,
        severity_name(StreamSeverity::Warning) == "warning"@,
        severity_name(StreamSeverity::Error) == "error"@,
        severity_name(StreamSeverity::Debug) == "debug"@,
        invalid(sesid) == "DBGM-00000: "@ + ("Invalid session "@ + sesid),
{
}

/// A new result set is reported by its numbers, and to the session, where there is one, by its
/// place among the results of the run.
pub proof fn law_recordset_events(
    c: StreamCollectorView,
    jslid: Seq<char>,
    columns: Seq<QueryResultColumnView>,
)
    ensures
        ({
            let events = recordset_events(c, jslid, columns);
            &&& events[0].name == "jsldata-stats-"@ + jslid
            &&& events[0].payload.get("rowCount"@) == Some(Json::Int(0))
            &&& events[0].payload.flag("isFinished"@) == Some(false)
            &&& c.sesid is None ==> events.len() == 1
            &&& c.sesid matches Some(sesid) ==> events.len() == 2 && events[1].name
                == "session-recordset-"@ + sesid && events[1].payload.get("resultIndex"@) == Some(
                Json::Int(c.jslids.len() as int),
            ) && events[1].payload.text("jslid"@) == Some(jslid)
        }),
{
    crate::jsl::law_stats(crate::jsl::fresh(jslid, columns));
    if c.sesid is Some {
        crate::events::law_events(
            c.sesid->0,
            jslid,
            Seq::empty(),
            Seq::empty(),
            c.jslids.len(),
            columns,
            Json::Null,
        );
    }
}

/// At the end every result set of the run is reported as finished, in order, with the rows that
/// it has.
pub proof fn law_finish_events(m: Map<Seq<char>, JslDataView>, ids: Seq<Seq<char>>, i: int)
    requires
        forall|k: int| 0 <= k < ids.len() ==> m.dom().contains(#[trigger] ids[k]),
        0 <= i < ids.len(),
    ensures
        finish_events(m, ids).len() == ids.len(),
        finish_events(m, ids)[i].name == "jsldata-stats-"@ + ids[i],
        finish_events(m, ids)[i].payload.get("rowCount"@) == Some(
            Json::Int(m[ids[i]].rows.len() as int),
        ),
        finish_events(m, ids)[i].payload.flag("isFinished"@) == Some(true),
    decreases ids.len(),
{
    let rest = ids.drop_last();
    let last = ids.last();
    assert(last == ids[ids.len() - 1]);
    assert forall|k: int| 0 <= k < rest.len() implies m.dom().contains(#[trigger] rest[k]) by {
        assert(rest[k] == ids[k]);
    }
    law_finish_all(m, rest, last);
    let before = finish_all(m, rest);
    crate::jsl::law_stats(crate::jsl::ended(before[last]));
    if rest.len() > 0 {
        law_finish_events(m, rest, if i < rest.len() {
            i
        } else {
            0
        });
    } else {
        assert(finish_events(m, rest).len() == 0);
    }
    if i < rest.len() {
        assert(rest[i] == ids[i]);
    }
}

/// Then the session, where there is one, is told that it is done, and where that is asked for,
/// each result set is told so, in order.
pub proof fn law_closing(c: StreamCollectorView, m: Map<Seq<char>, JslDataView>, i: int)
    ensures
        ({
            let shown = finish_events(m, c.jslids);
            let events = closing(c, m);
            let told = if c.sesid is Some {
                1int
            } else {
                0
            };
            &&& events.len() == shown.len() + told + (if c.emit_jslid_done {
                c.jslids.len() as int
            } else {
                0
            })
            &&& events.take(shown.len() as int) == shown
            &&& c.sesid matches Some(sesid) ==> events[shown.len() as int].name == "session-done-"@
                + sesid
            &&& c.emit_jslid_done && 0 <= i < c.jslids.len() ==> events[shown.len() + told
                + i].name == "session-jslid-done-"@ + c.jslids[i]
        }),
{
    assert(closing(c, m).take(finish_events(m, c.jslids).len() as int) =~= finish_events(
        m,
        c.jslids,
    ));
}

/// The answer to a query says that all is well and names the result sets in order.
pub proof fn law_query_answer(jslids: Seq<Seq<char>>, i: int)
    ensures
        query_json(jslids).text("status"@) == Some("ok"@),
        query_json(jslids).get("jslids"@) matches Some(Json::Array(a)) && a.len() == jslids.len()
            && (0 <= i < jslids.len() ==> a[i] == Json::Str(jslids[i])),
{
    reveal_with_fuel(crate::value::find_key, 3);
    reveal_strlit("status");
    reveal_strlit("jslids");
    assert("status"@[0] == 's' && "jslids"@[0] == 'j');
}

/// What a session is said to hold is what its fields hold.
pub proof fn law_session_fields<H>(s: Session<H>)
    ensures
        session_view(s).sesid == s.sesid@,
        session_view(s).conid == s.conid@,
        s.database matches Some(d) ==> session_view(s).database == Some(d@),
        s.database is None ==> session_view(s).database is None,
        s.isolation_level matches Some(l) ==> session_view(s).isolation_level == Some(l@),
        s.isolation_level is None ==> session_view(s).isolation_level is None,
        session_view(s).handle == s.handle,
{
}

} // verus!
