//! In-memory store of result sets.
//!
//! Query results are stored under an id and served page by page; an event with
//! the statistics follows each change.
use vstd::prelude::*;

use crate::encoding::new_uuid;
use crate::events::{jsl_stats, stats_value, UiEvent};
use crate::keyed::KeyedMap;
use crate::query::{QueryResultColumn, QueryResultColumnView};
use crate::rows::{new_list, push_item};
use crate::value::{clone_value, Json, Value};

verus! {

/// A result set.
pub struct JslData {
    pub jslid: String,
    pub columns: Vec<QueryResultColumn>,
    pub rows: Vec<Value>,
    pub change_index: u64,
    pub is_finished: bool,
}

/// What a [`JslData`] holds.
pub struct JslDataView {
    pub jslid: Seq<char>,
    pub columns: Seq<QueryResultColumnView>,
    pub rows: Seq<Json>,
    pub change_index: nat,
    pub is_finished: bool,
}

impl DeepView for JslData {
    type V = JslDataView;

    open spec fn deep_view(&self) -> JslDataView {
        JslDataView {
            jslid: self.jslid@,
            columns: self.columns.deep_view(),
            rows: self.rows.deep_view(),
            change_index: self.change_index as nat,
            is_finished: self.is_finished,
        }
    }
}

/// The statistics of a result set.
pub open spec fn stats_of(d: JslDataView) -> Json {
    crate::events::stats_json(d.rows.len(), d.change_index, d.is_finished)
}

/// A new result set.
pub open spec fn fresh(jslid: Seq<char>, columns: Seq<QueryResultColumnView>) -> JslDataView {
    JslDataView { jslid, columns, rows: Seq::empty(), change_index: 0, is_finished: false }
}

/// A result set with one row more.
pub open spec fn with_row(d: JslDataView, row: Json) -> JslDataView {
    JslDataView { rows: d.rows.push(row), change_index: d.change_index + 1, ..d }
}

/// A result set that is complete.
pub open spec fn ended(d: JslDataView) -> JslDataView {
    JslDataView { is_finished: true, ..d }
}

/// The smaller of two numbers.
pub open spec fn at_most(n: nat, limit: nat) -> nat {
    if n < limit {
        n
    } else {
        limit
    }
}

/// A page of rows: up to `limit` of those behind the first `offset`.
pub open spec fn page(rows: Seq<Json>, offset: nat, limit: nat) -> Seq<Json> {
    rows.subrange(
        at_most(offset, rows.len()) as int,
        at_most((offset + limit) as nat, rows.len()) as int,
    )
}

/// Two pages in a row are one longer page.
pub proof fn law_pages(rows: Seq<Json>, offset: nat, first: nat, second: nat)
    ensures
        page(rows, offset, first) + page(rows, (offset + first) as nat, second) == page(
            rows,
            offset,
            (first + second) as nat,
        ),
        page(rows, 0, rows.len()) == rows,
{
    assert(page(rows, offset, first) + page(rows, (offset + first) as nat, second) =~= page(
        rows,
        offset,
        (first + second) as nat,
    ));
    assert(page(rows, 0, rows.len()) =~= rows);
}

/// The result sets.
pub struct JslStore {
    results: KeyedMap<JslData>,
}

spec fn contents(m: Map<Seq<char>, JslData>) -> Map<Seq<char>, JslDataView> {
    m.map_values(|d: JslData| d.deep_view())
}

impl View for JslStore {
    type V = Map<Seq<char>, JslDataView>;

    closed spec fn view(&self) -> Map<Seq<char>, JslDataView> {
        contents(self.results@)
    }
}

impl JslStore {
    /// The change index of a result set counts its rows, and each result set
    /// knows the id that it is stored under.
    #[verifier::type_invariant]
    spec fn counted(self) -> bool {
        forall|k: Seq<char>| #[trigger]
            self.results@.dom().contains(k) ==> self.results@[k].change_index
                == self.results@[k].rows@.len() && self.results@[k].jslid@ == k
    }

    pub fn new() -> (r: Self)
        ensures
            r@ == Map::<Seq<char>, JslDataView>::empty(),
    {
        let r = JslStore { results: KeyedMap::new() };
        assert(r@ =~= Map::empty());
        r
    }

    /// Stores a new empty result set under the given id, in place of what was
    /// there, and reports its statistics.
    pub fn jsl_create_as(&mut self, jslid: String, columns: Vec<QueryResultColumn>) -> (r: UiEvent)
        ensures
            final(self)@ == old(self)@.insert(jslid@, fresh(jslid@, columns.deep_view())),
            r.deep_view() == crate::events::stats_event(
                jslid@,
                stats_of(fresh(jslid@, columns.deep_view())),
            ),
    {
        proof {
            use_type_invariant(&*self);
        }
        let ghost before = self.results@;
        let event = jsl_stats(jslid.as_str(), stats_value(0, 0, false));
        let data = JslData {
            jslid: jslid.clone(),
            columns,
            rows: new_list(),
            change_index: 0,
            is_finished: false,
        };
        assert(data.rows.deep_view().len() == data.rows@.len());
        assert(data.deep_view() == fresh(jslid@, columns.deep_view()));
        let mut results: KeyedMap<JslData> = KeyedMap::new();
        std::mem::swap(&mut self.results, &mut results);
        results.insert(jslid, data);
        self.results = results;
        assert(self@ =~= contents(before).insert(jslid@, data.deep_view()));
        event
    }

    /// Stores a new empty result set under a new random id. Whether the id was in
    /// use before is left to chance.
    pub fn jsl_create(&mut self, columns: Vec<QueryResultColumn>) -> (r: (String, UiEvent))
        ensures
            crate::encoding::is_uuid_form(r.0@),
            final(self)@ == old(self)@.insert(r.0@, fresh(r.0@, columns.deep_view())),
            r.1.deep_view() == crate::events::stats_event(
                r.0@,
                stats_of(fresh(r.0@, columns.deep_view())),
            ),
    {
        let jslid = new_uuid();
        let event = self.jsl_create_as(jslid.clone(), columns);
        (jslid, event)
    }

    /// Appends a row to a result set and reports its statistics. An unknown id
    /// changes nothing.
    pub fn jsl_push_row(&mut self, jslid: &str, row: Value) -> (r: Option<UiEvent>)
        ensures
            match r {
                Some(event) => {
                    let after = with_row(old(self)@[jslid@], row@);
                    &&& old(self)@.dom().contains(jslid@)
                    &&& final(self)@ == old(self)@.insert(jslid@, after)
                    &&& event.deep_view() == crate::events::stats_event(jslid@, stats_of(after))
                },
                None => !old(self)@.dom().contains(jslid@) && final(self)@ == old(self)@,
            },
    {
        proof {
            use_type_invariant(&*self);
        }
        let ghost before = self.results@;
        if !self.results.contains_key(jslid) {
            return None;
        }
        let mut results: KeyedMap<JslData> = KeyedMap::new();
        std::mem::swap(&mut self.results, &mut results);
        match results.remove(jslid) {
            Some(data) => {
                let ghost d = data.deep_view();
                assert(data.rows.deep_view().len() == data.rows@.len());
                let mut rows = data.rows;
                push_item(&mut rows, row);
                assert(rows.deep_view().len() == rows@.len());
                let row_count: usize = rows.len();
                let after = JslData {
                    jslid: data.jslid,
                    columns: data.columns,
                    rows,
                    change_index: row_count as u64,
                    is_finished: data.is_finished,
                };
                assert(after.deep_view() == with_row(d, row@));
                let event = jsl_stats(
                    jslid,
                    stats_value(row_count, row_count as u64, after.is_finished),
                );
                results.insert(jslid.to_owned(), after);
                self.results = results;
                assert(self@ =~= contents(before).insert(jslid@, after.deep_view()));
                Some(event)
            },
            None => {
                self.results = results;
                None
            },
        }
    }

    /// Marks a result set complete and reports its statistics. An unknown id
    /// changes nothing.
    pub fn jsl_finish(&mut self, jslid: &str) -> (r: Option<UiEvent>)
        ensures
            match r {
                Some(event) => {
                    let after = ended(old(self)@[jslid@]);
                    &&& old(self)@.dom().contains(jslid@)
                    &&& final(self)@ == old(self)@.insert(jslid@, after)
                    &&& event.deep_view() == crate::events::stats_event(jslid@, stats_of(after))
                },
                None => !old(self)@.dom().contains(jslid@) && final(self)@ == old(self)@,
            },
    {
        proof {
            use_type_invariant(&*self);
        }
        let ghost before = self.results@;
        if !self.results.contains_key(jslid) {
            return None;
        }
        let mut results: KeyedMap<JslData> = KeyedMap::new();
        std::mem::swap(&mut self.results, &mut results);
        match results.remove(jslid) {
            Some(data) => {
                let ghost d = data.deep_view();
                assert(data.rows.deep_view().len() == data.rows@.len());
                let row_count: usize = data.rows.len();
                let after = JslData {
                    jslid: data.jslid,
                    columns: data.columns,
                    rows: data.rows,
                    change_index: data.change_index,
                    is_finished: true,
                };
                assert(after.deep_view() == ended(d));
                let event = jsl_stats(jslid, stats_value(row_count, after.change_index, true));
                results.insert(jslid.to_owned(), after);
                self.results = results;
                assert(self@ =~= contents(before).insert(jslid@, after.deep_view()));
                Some(event)
            },
            None => {
                self.results = results;
                None
            },
        }
    }

    /// Removes a result set; an unknown id changes nothing.
    pub fn jsl_remove(&mut self, jslid: &str)
        ensures
            final(self)@ == old(self)@.remove(jslid@),
    {
        proof {
            use_type_invariant(&*self);
        }
        let ghost before = self.results@;
        let mut results: KeyedMap<JslData> = KeyedMap::new();
        std::mem::swap(&mut self.results, &mut results);
        let _ = results.remove(jslid);
        self.results = results;
        assert(self@ =~= contents(before).remove(jslid@));
    }

    /// `{ rowCount, changeIndex, isFinished }` of a result set, if it exists. The
    /// change index counts the rows.
    pub fn jsl_stats(&self, jslid: &str) -> (r: Option<Value>)
        ensures
            match r {
                Some(v) => {
                    &&& self@.dom().contains(jslid@)
                    &&& v@ == stats_of(self@[jslid@])
                    &&& self@[jslid@].change_index == self@[jslid@].rows.len()
                    &&& self@[jslid@].jslid == jslid@
                },
                None => !self@.dom().contains(jslid@),
            },
    {
        proof {
            use_type_invariant(self);
        }
        match self.results.get(jslid) {
            Some(d) => {
                assert(d.rows.deep_view().len() == d.rows@.len());
                Some(stats_value(d.rows.len(), d.change_index, d.is_finished))
            },
            None => None,
        }
    }

    /// A page of the rows of a result set, if it exists.
    pub fn jsl_rows(&self, jslid: &str, offset: u64, limit: u64) -> (r: Option<Vec<Value>>)
        ensures
            match r {
                Some(rows) => self@.dom().contains(jslid@) && rows.deep_view() == page(
                    self@[jslid@].rows,
                    offset as nat,
                    limit as nat,
                ),
                None => !self@.dom().contains(jslid@),
            },
    {
        let d = match self.results.get(jslid) {
            Some(d) => d,
            None => return None,
        };
        let ghost all = d.rows.deep_view();
        let len: usize = d.rows.len();
        assert(all.len() == len);
        let from: usize = if offset < len as u64 {
            offset as usize
        } else {
            len
        };
        let left: usize = len - from;
        let count: usize = if limit < left as u64 {
            limit as usize
        } else {
            left
        };
        let to: usize = from + count;
        let mut out: Vec<Value> = new_list();
        let mut i: usize = from;
        assert(out.deep_view() =~= all.subrange(from as int, i as int));
        while i < to
            invariant
                from <= i <= to <= d.rows.len(),
                all == d.rows.deep_view(),
                out.deep_view() == all.subrange(from as int, i as int),
            decreases to - i,
        {
            assert(all[i as int] == d.rows@[i as int]@);
            push_item(&mut out, clone_value(&d.rows[i]));
            assert(out.deep_view() =~= all.subrange(from as int, i + 1));
            i = i + 1;
        }
        assert(all.subrange(from as int, to as int) =~= page(all, offset as nat, limit as nat));
        Some(out)
    }
}

// ---------------------------------------------------------------------------
// Laws
// ---------------------------------------------------------------------------

/// A page holds the rows from its offset on, in order, and no more than its limit; a page behind
/// the last row is empty.
pub proof fn law_page(rows: Seq<Json>, offset: nat, limit: nat, i: int)
    ensures
        page(rows, offset, limit).len() <= limit,
        offset >= rows.len() ==> page(rows, offset, limit).len() == 0,
        offset + limit <= rows.len() ==> page(rows, offset, limit).len() == limit,
        offset <= rows.len() < offset + limit ==> page(rows, offset, limit).len() == rows.len()
            - offset,
        0 <= i < page(rows, offset, limit).len() ==> page(rows, offset, limit)[i] == rows[offset
            + i],
{
}

/// A new result set has no rows and is not finished; each row that comes is its last one then and
/// counts as one change; the end changes nothing but that it is finished.
pub proof fn law_growth(
    jslid: Seq<char>,
    columns: Seq<QueryResultColumnView>,
    d: JslDataView,
    row: Json,
)
    ensures
        fresh(jslid, columns).jslid == jslid,
        fresh(jslid, columns).columns == columns,
        fresh(jslid, columns).rows.len() == 0,
        fresh(jslid, columns).change_index == 0,
        !fresh(jslid, columns).is_finished,
        with_row(d, row).rows.len() == d.rows.len() + 1,
        with_row(d, row).rows.last() == row,
        with_row(d, row).rows.drop_last() == d.rows,
        with_row(d, row).change_index == d.change_index + 1,
        with_row(d, row).is_finished == d.is_finished,
        with_row(d, row).jslid == d.jslid,
        with_row(d, row).columns == d.columns,
        ended(d).is_finished,
        ended(d).rows == d.rows,
        ended(d).change_index == d.change_index,
        ended(d).jslid == d.jslid,
        ended(d).columns == d.columns,
{
    assert(with_row(d, row).rows.drop_last() =~= d.rows);
}

/// The numbers of a result set are the number of its rows, the number of its changes and whether
/// it is finished.
pub proof fn law_stats(d: JslDataView)
    ensures
        stats_of(d).get("rowCount"@) == Some(Json::Int(d.rows.len() as int)),
        stats_of(d).get("changeIndex"@) == Some(Json::Int(d.change_index as int)),
        stats_of(d).flag("isFinished"@) == Some(d.is_finished),
{
    crate::events::law_stats(d.rows.len(), d.change_index, d.is_finished);
}

} // verus!
