//! Reading lists of metadata rows: picking out rows in order, collecting what
//! they describe, and looking at single fields.
use vstd::prelude::*;

use crate::text::same;
use crate::value::{Json, Value};

verus! {

/// What `f` makes of the items it takes, in order; the others are left out.
pub open spec fn pick<A, B>(s: Seq<A>, f: spec_fn(A) -> Option<B>) -> Seq<B>
    decreases s.len(),
{
    if s.len() == 0 {
        Seq::empty()
    } else {
        let before = pick(s.drop_last(), f);
        match f(s.last()) {
            Some(b) => before.push(b),
            None => before,
        }
    }
}

/// The distinct items, in the order in which each first occurs.
pub open spec fn firsts<A>(s: Seq<A>) -> Seq<A>
    decreases s.len(),
{
    if s.len() == 0 {
        Seq::empty()
    } else {
        let before = firsts(s.drop_last());
        if before.contains(s.last()) {
            before
        } else {
            before.push(s.last())
        }
    }
}

/// The first item that `p` holds of.
pub open spec fn first_where<A>(s: Seq<A>, p: spec_fn(A) -> bool) -> Option<A>
    decreases s.len(),
{
    if s.len() == 0 {
        None
    } else {
        match first_where(s.drop_last(), p) {
            Some(a) => Some(a),
            None => if p(s.last()) {
                Some(s.last())
            } else {
                None
            },
        }
    }
}

/// The first item that `p` holds of is the one before which it holds of none.
pub proof fn lemma_first_found<A>(s: Seq<A>, p: spec_fn(A) -> bool, i: int)
    requires
        0 <= i < s.len(),
        p(s[i]),
        first_where(s.take(i), p) is None,
    ensures
        first_where(s, p) == Some(s[i]),
    decreases s.len(),
{
    if i == s.len() - 1 {
        assert(s.take(i) =~= s.drop_last());
    } else {
        assert(s.drop_last().take(i) =~= s.take(i));
        lemma_first_found(s.drop_last(), p, i);
    }
}

/// Where `p` holds of no item, there is no first such item.
pub proof fn lemma_none_found<A>(s: Seq<A>, p: spec_fn(A) -> bool)
    requires
        forall|j: int| 0 <= j < s.len() ==> !p(#[trigger] s[j]),
    ensures
        first_where(s, p) is None,
    decreases s.len(),
{
    if s.len() > 0 {
        assert(!p(s[s.len() - 1]));
        assert forall|j: int| 0 <= j < s.drop_last().len() implies !p(
            #[trigger] s.drop_last()[j],
        ) by {
            assert(s.drop_last()[j] == s[j]);
        }
        lemma_none_found(s.drop_last(), p);
    }
}

/// Where `p` holds of an item, there is a first such item.
pub proof fn lemma_first_of<A>(s: Seq<A>, p: spec_fn(A) -> bool, i: int)
    requires
        0 <= i < s.len(),
        p(s[i]),
    ensures
        first_where(s, p) is Some,
        exists|k: int|
            0 <= k < s.len() && p(#[trigger] s[k]) && first_where(s, p) == Some(s[k]),
    decreases s.len(),
{
    let before = s.drop_last();
    if first_where(before, p) is Some {
        lemma_first_member(before, p);
        let k = choose|k: int|
            0 <= k < before.len() && p(#[trigger] before[k]) && first_where(before, p) == Some(
                before[k],
            );
        assert(s[k] == before[k]);
    } else {
        if i < before.len() {
            assert(before[i] == s[i]);
            lemma_first_of(before, p, i);
        }
        assert(s[s.len() - 1] == s.last());
    }
}

proof fn lemma_first_member<A>(s: Seq<A>, p: spec_fn(A) -> bool)
    requires
        first_where(s, p) is Some,
    ensures
        exists|k: int|
            0 <= k < s.len() && p(#[trigger] s[k]) && first_where(s, p) == Some(s[k]),
    decreases s.len(),
{
    let before = s.drop_last();
    if first_where(before, p) is Some {
        lemma_first_member(before, p);
        let k = choose|k: int|
            0 <= k < before.len() && p(#[trigger] before[k]) && first_where(before, p) == Some(
                before[k],
            );
        assert(s[k] == before[k]);
    } else {
        assert(s[s.len() - 1] == s.last());
    }
}

/// The first such item of a longer sequence.
pub proof fn lemma_first_push<A>(s: Seq<A>, p: spec_fn(A) -> bool, a: A)
    ensures
        first_where(s.push(a), p) == match first_where(s, p) {
            Some(x) => Some(x),
            None => if p(a) {
                Some(a)
            } else {
                None
            },
        },
{
    assert(s.push(a).drop_last() =~= s);
}

/// Every picked item stems from an item that `f` takes, and every such item is
/// picked; nothing is picked more often than it is taken.
pub proof fn law_pick_members<A, B>(s: Seq<A>, f: spec_fn(A) -> Option<B>, b: B)
    ensures
        pick(s, f).contains(b) <==> exists|i: int| 0 <= i < s.len() && f(#[trigger] s[i]) == Some(b),
        pick(s, f).len() <= s.len(),
    decreases s.len(),
{
    if s.len() > 0 {
        let before = pick(s.drop_last(), f);
        law_pick_members(s.drop_last(), f, b);
        if pick(s, f).contains(b) {
            let k = choose|k: int| 0 <= k < pick(s, f).len() && pick(s, f)[k] == b;
            if k < before.len() {
                assert(before[k] == b);
                let i = choose|i: int|
                    0 <= i < s.drop_last().len() && f(#[trigger] s.drop_last()[i]) == Some(b);
                assert(f(s[i]) == Some(b));
            } else {
                assert(f(s[s.len() - 1]) == Some(b));
            }
        }
        if exists|i: int| 0 <= i < s.len() && f(#[trigger] s[i]) == Some(b) {
            let i = choose|i: int| 0 <= i < s.len() && f(#[trigger] s[i]) == Some(b);
            if i < s.len() - 1 {
                assert(f(s.drop_last()[i]) == Some(b));
                let k = choose|k: int| 0 <= k < before.len() && before[k] == b;
                assert(pick(s, f)[k] == b);
            } else {
                assert(pick(s, f)[pick(s, f).len() - 1] == b);
            }
        }
    }
}

/// The distinct items hold each item once.
pub proof fn law_firsts<A>(s: Seq<A>)
    ensures
        firsts(s).no_duplicates(),
        forall|a: A| firsts(s).contains(a) <==> s.contains(a),
    decreases s.len(),
{
    if s.len() > 0 {
        law_firsts(s.drop_last());
        let before = firsts(s.drop_last());
        assert forall|a: A| firsts(s).contains(a) <==> s.contains(a) by {
            if s.contains(a) {
                let i = choose|i: int| 0 <= i < s.len() && s[i] == a;
                if i < s.len() - 1 {
                    assert(s.drop_last()[i] == a);
                    assert(s.drop_last().contains(a));
                    assert(before.contains(a));
                    let k = choose|k: int| 0 <= k < before.len() && before[k] == a;
                    assert(firsts(s)[k] == a);
                } else if before.contains(a) {
                    assert(firsts(s) == before);
                } else {
                    assert(firsts(s)[before.len() as int] == a);
                }
            }
            if firsts(s).contains(a) {
                let k = choose|k: int| 0 <= k < firsts(s).len() && firsts(s)[k] == a;
                if k < before.len() {
                    assert(before.contains(before[k]));
                    assert(s.drop_last().contains(a));
                    let i = choose|i: int| 0 <= i < s.drop_last().len() && s.drop_last()[i] == a;
                    assert(s[i] == a);
                } else {
                    assert(s[s.len() - 1] == a);
                }
            }
        }
    }
}

/// The next item of a list that is read from the front.
pub proof fn lemma_take_next<A>(s: Seq<A>, i: int)
    requires
        0 <= i < s.len(),
    ensures
        s.take(i + 1).drop_last() == s.take(i),
        s.take(i + 1).last() == s[i],
        s.take(i + 1) == s.take(i).push(s[i]),
{
    assert(s.take(i + 1).drop_last() =~= s.take(i));
    assert(s.take(i + 1) =~= s.take(i).push(s[i]));
}

pub proof fn lemma_take_all<A>(s: Seq<A>)
    ensures
        s.take(s.len() as int) == s,
{
    assert(s.take(s.len() as int) =~= s);
}

/// Appends an item to a list of which only the contents matter.
pub fn push_item<T: DeepView>(v: &mut Vec<T>, item: T)
    ensures
        final(v).deep_view() == old(v).deep_view().push(item.deep_view()),
{
    v.push(item);
    assert(v.deep_view() =~= old(v).deep_view().push(item.deep_view()));
}

/// A list without items.
pub fn new_list<T: DeepView>() -> (r: Vec<T>)
    ensures
        r.deep_view() == Seq::<T::V>::empty(),
{
    let r: Vec<T> = Vec::new();
    assert(r.deep_view() =~= Seq::<T::V>::empty());
    r
}

// ---------------------------------------------------------------------------
// Fields
// ---------------------------------------------------------------------------

/// The text, or the empty text where there is none.
pub open spec fn or_empty(t: Option<Seq<char>>) -> Seq<char> {
    match t {
        Some(s) => s,
        None => Seq::empty(),
    }
}

/// The text under `key`.
pub fn get_str(row: &Value, key: &str) -> (r: Option<String>)
    ensures
        r.deep_view() == row@.text(key@),
{
    match row.text(key) {
        Some(s) => Some(s.to_owned()),
        None => None,
    }
}

/// The text under `key`, or the empty text.
pub fn get_text(row: &Value, key: &str) -> (r: String)
    ensures
        r@ == or_empty(row@.text(key@)),
{
    match row.text(key) {
        Some(s) => s.to_owned(),
        None => String::new(),
    }
}

/// The integer under `key`.
pub fn get_i64(row: &Value, key: &str) -> (r: Option<i64>)
    ensures
        r == row@.int64(key@),
{
    row.int64(key)
}

/// Whether the text under `key` is `want`.
pub fn text_is(row: &Value, key: &str, want: &str) -> (r: bool)
    ensures
        r == (row@.text(key@) == Some(want@)),
{
    match row.text(key) {
        Some(s) => same(s, want),
        None => false,
    }
}

/// Whether the rows' texts under two keys are the wanted ones.
pub fn texts_are(row: &Value, key1: &str, want1: &str, key2: &str, want2: &str) -> (r: bool)
    ensures
        r == (row@.text(key1@) == Some(want1@) && row@.text(key2@) == Some(want2@)),
{
    text_is(row, key1, want1) && text_is(row, key2, want2)
}

/// Whether a list of strings holds a text.
pub fn list_has(list: &Vec<String>, want: &str) -> (r: bool)
    ensures
        r == list.deep_view().contains(want@),
{
    let mut i: usize = 0;
    while i < list.len()
        invariant
            i <= list@.len(),
            forall|j: int| 0 <= j < i ==> list.deep_view()[j] != want@,
        decreases list@.len() - i,
    {
        if same(list[i].as_str(), want) {
            assert(list.deep_view()[i as int] == want@);
            return true;
        }
        i = i + 1;
    }
    false
}

/// The texts that rows have under `key`, in order.
pub open spec fn texts_under(rows: Seq<Json>, key: Seq<char>) -> Seq<Seq<char>> {
    pick(rows, |r: Json| r.text(key))
}

/// The texts that rows have under `key`, in order.
pub fn collect_texts(rows: &Vec<Value>, key: &str) -> (r: Vec<String>)
    ensures
        r.deep_view() == texts_under(rows.deep_view(), key@),
{
    let ghost all = rows.deep_view();
    let mut out: Vec<String> = new_list();
    let mut i: usize = 0;
    while i < rows.len()
        invariant
            i <= rows@.len(),
            all == rows.deep_view(),
            out.deep_view() == texts_under(all.take(i as int), key@),
        decreases rows@.len() - i,
    {
        proof {
            lemma_take_next(all, i as int);
        }
        if let Some(t) = get_str(&rows[i], key) {
            push_item(&mut out, t);
        }
        i = i + 1;
    }
    proof {
        lemma_take_all(all);
    }
    out
}

/// The distinct texts, in the order in which each first occurs.
pub fn distinct(list: &Vec<String>) -> (r: Vec<String>)
    ensures
        r.deep_view() == firsts(list.deep_view()),
{
    let ghost all = list.deep_view();
    let mut out: Vec<String> = new_list();
    let mut i: usize = 0;
    while i < list.len()
        invariant
            i <= list@.len(),
            all == list.deep_view(),
            out.deep_view() == firsts(all.take(i as int)),
        decreases list@.len() - i,
    {
        proof {
            lemma_take_next(all, i as int);
        }
        if !list_has(&out, list[i].as_str()) {
            push_item(&mut out, list[i].clone());
        }
        i = i + 1;
    }
    proof {
        lemma_take_all(all);
    }
    out
}

// ---------------------------------------------------------------------------
// Selecting and mapping
// ---------------------------------------------------------------------------

/// The items that `p` holds of, in order.
pub open spec fn select<A>(s: Seq<A>, p: spec_fn(A) -> bool) -> Seq<A> {
    pick(
        s,
        |a: A|
            if p(a) {
                Some(a)
            } else {
                None
            },
    )
}

/// The rows whose text under `key` is `want`.
pub open spec fn where_text(rows: Seq<Json>, key: Seq<char>, want: Seq<char>) -> Seq<Json> {
    select(rows, |r: Json| r.text(key) == Some(want))
}

/// The rows whose texts under two keys are the wanted ones.
pub open spec fn where_texts(
    rows: Seq<Json>,
    key1: Seq<char>,
    want1: Seq<char>,
    key2: Seq<char>,
    want2: Seq<char>,
) -> Seq<Json> {
    select(rows, |r: Json| r.text(key1) == Some(want1) && r.text(key2) == Some(want2))
}

/// The rows whose text under `key` is `want`.
pub fn rows_with_text<'a>(rows: &'a Vec<Value>, key: &str, want: &str) -> (r: Vec<&'a Value>)
    ensures
        r.deep_view() == where_text(rows.deep_view(), key@, want@),
{
    let ghost all = rows.deep_view();
    let mut out: Vec<&'a Value> = new_list();
    let mut i: usize = 0;
    while i < rows.len()
        invariant
            i <= rows@.len(),
            all == rows.deep_view(),
            out.deep_view() == where_text(all.take(i as int), key@, want@),
        decreases rows@.len() - i,
    {
        proof {
            lemma_take_next(all, i as int);
        }
        if text_is(&rows[i], key, want) {
            push_item(&mut out, &rows[i]);
        }
        i = i + 1;
    }
    proof {
        lemma_take_all(all);
    }
    out
}

/// The rows whose texts under two keys are the wanted ones.
pub fn rows_with_texts<'a>(
    rows: &'a Vec<Value>,
    key1: &str,
    want1: &str,
    key2: &str,
    want2: &str,
) -> (r: Vec<&'a Value>)
    ensures
        r.deep_view() == where_texts(rows.deep_view(), key1@, want1@, key2@, want2@),
{
    let ghost all = rows.deep_view();
    let mut out: Vec<&'a Value> = new_list();
    let mut i: usize = 0;
    while i < rows.len()
        invariant
            i <= rows@.len(),
            all == rows.deep_view(),
            out.deep_view() == where_texts(all.take(i as int), key1@, want1@, key2@, want2@),
        decreases rows@.len() - i,
    {
        proof {
            lemma_take_next(all, i as int);
        }
        if texts_are(&rows[i], key1, want1, key2, want2) {
            push_item(&mut out, &rows[i]);
        }
        i = i + 1;
    }
    proof {
        lemma_take_all(all);
    }
    out
}

/// What `f` makes of each item, in order.
pub fn map_list<A, T, F: Fn(&A) -> T>(list: &Vec<A>, f: F) -> (r: Vec<T>)
    requires
        forall|a: &A| #[trigger] f.requires((a,)),
    ensures
        r@.len() == list@.len(),
        forall|i: int| 0 <= i < r@.len() ==> f.ensures((&list@[i],), #[trigger] r@[i]),
{
    let mut out: Vec<T> = Vec::new();
    let mut i: usize = 0;
    while i < list.len()
        invariant
            i <= list@.len(),
            out@.len() == i,
            forall|a: &A| #[trigger] f.requires((a,)),
            forall|k: int| 0 <= k < i ==> f.ensures((&list@[k],), #[trigger] out@[k]),
        decreases list@.len() - i,
    {
        out.push(f(&list[i]));
        i = i + 1;
    }
    out
}

// ---------------------------------------------------------------------------
// Groups
// ---------------------------------------------------------------------------

/// What the rows have under `key`, the empty text where they have nothing.
pub open spec fn keys_of(rows: Seq<Json>, key: Seq<char>) -> Seq<Seq<char>> {
    Seq::new(rows.len(), |i: int| or_empty(rows[i].text(key)))
}

/// The distinct texts under `key`, in the order in which each first occurs.
pub open spec fn group_names(rows: Seq<Json>, key: Seq<char>) -> Seq<Seq<char>> {
    firsts(keys_of(rows, key))
}

/// The rows that have `name` under `key`, in order.
pub open spec fn group_of(rows: Seq<Json>, key: Seq<char>, name: Seq<char>) -> Seq<Json> {
    select(rows, |r: Json| or_empty(r.text(key)) == name)
}

/// Grouping loses no row and invents none: the names are distinct, every row
/// lies in the group of the text it has under the key, and no group holds a row
/// with another text. No group is empty.
pub proof fn law_groups(rows: Seq<Json>, key: Seq<char>, r: Json, name: Seq<char>)
    ensures
        group_names(rows, key).no_duplicates(),
        rows.contains(r) ==> group_names(rows, key).contains(or_empty(r.text(key))),
        group_of(rows, key, name).contains(r) <==> rows.contains(r) && or_empty(r.text(key))
            == name,
        group_names(rows, key).contains(name) ==> group_of(rows, key, name).len() > 0,
{
    let keys = keys_of(rows, key);
    law_firsts(keys);
    if rows.contains(r) {
        let i = choose|i: int| 0 <= i < rows.len() && rows[i] == r;
        assert(keys[i] == or_empty(r.text(key)));
        assert(keys.contains(or_empty(r.text(key))));
    }
    let f = |a: Json|
        if or_empty(a.text(key)) == name {
            Some(a)
        } else {
            None
        };
    law_pick_members(rows, f, r);
    lemma_group_pick(rows, key, name);
    if rows.contains(r) && or_empty(r.text(key)) == name {
        let i = choose|i: int| 0 <= i < rows.len() && rows[i] == r;
        assert(f(rows[i]) == Some(r));
    }
    if group_names(rows, key).contains(name) {
        assert(keys.contains(name));
        let i = choose|i: int| 0 <= i < keys.len() && keys[i] == name;
        law_pick_members(rows, f, rows[i]);
        assert(f(rows[i]) == Some(rows[i]));
        assert(group_of(rows, key, name).contains(rows[i]));
    }
}

proof fn lemma_group_pick(rows: Seq<Json>, key: Seq<char>, name: Seq<char>)
    ensures
        group_of(rows, key, name) == pick(
            rows,
            |a: Json|
                if or_empty(a.text(key)) == name {
                    Some(a)
                } else {
                    None
                },
        ),
    decreases rows.len(),
{
    if rows.len() > 0 {
        lemma_group_pick(rows.drop_last(), key, name);
    }
}

fn keys_under(rows: &Vec<&Value>, key: &str) -> (r: Vec<String>)
    ensures
        r.deep_view() == keys_of(rows.deep_view(), key@),
{
    let f = |row: &&Value| -> (t: String)
        ensures
            t@ == or_empty(row.deep_view().text(key@)),
    {
        get_text(row, key)
    };
    let r = map_list(rows, f);
    assert(r.deep_view() =~= keys_of(rows.deep_view(), key@));
    r
}

fn group_members<'a>(rows: &Vec<&'a Value>, key: &str, name: &str) -> (r: Vec<&'a Value>)
    ensures
        r.deep_view() == group_of(rows.deep_view(), key@, name@),
{
    let ghost all = rows.deep_view();
    let mut out: Vec<&'a Value> = new_list();
    let mut i: usize = 0;
    while i < rows.len()
        invariant
            i <= rows@.len(),
            all == rows.deep_view(),
            out.deep_view() == group_of(all.take(i as int), key@, name@),
        decreases rows@.len() - i,
    {
        proof {
            lemma_take_next(all, i as int);
        }
        let row: &'a Value = rows[i];
        if same(get_text(row, key).as_str(), name) {
            push_item(&mut out, row);
        }
        i = i + 1;
    }
    proof {
        lemma_take_all(all);
    }
    out
}

/// The groups of rows that have the same text under `key`, in the order in
/// which each text first occurs.
pub fn group_rows<'a>(rows: &Vec<&'a Value>, key: &str) -> (r: Vec<(String, Vec<&'a Value>)>)
    ensures
        r@.len() == group_names(rows.deep_view(), key@).len(),
        forall|i: int|
            0 <= i < r@.len() ==> (#[trigger] r@[i]).0@ == group_names(rows.deep_view(), key@)[i]
                && r@[i].1.deep_view() == group_of(rows.deep_view(), key@, r@[i].0@)
                && r@[i].1@.len() > 0,
{
    let names = distinct(&keys_under(rows, key));
    let ghost want = group_names(rows.deep_view(), key@);
    let mut out: Vec<(String, Vec<&'a Value>)> = Vec::new();
    let mut k: usize = 0;
    while k < names.len()
        invariant
            k <= names@.len(),
            names.deep_view() == want,
            want == group_names(rows.deep_view(), key@),
            out@.len() == k,
            forall|i: int|
                0 <= i < k ==> (#[trigger] out@[i]).0@ == want[i] && out@[i].1.deep_view()
                    == group_of(rows.deep_view(), key@, out@[i].0@) && out@[i].1@.len() > 0,
        decreases names@.len() - k,
    {
        let members = group_members(rows, key, names[k].as_str());
        proof {
            assert(want[k as int] == names@[k as int]@);
            assert(want.contains(names@[k as int]@));
            law_groups(rows.deep_view(), key@, Json::Null, names@[k as int]@);
            assert(members.deep_view().len() > 0);
        }
        out.push((names[k].clone(), members));
        k = k + 1;
    }
    out
}

// ---------------------------------------------------------------------------
// Laws
// ---------------------------------------------------------------------------

/// Of rows those are taken that hold the wanted text under the key, in their order.
pub proof fn law_where_text(rows: Seq<Json>, r: Json, key: Seq<char>, want: Seq<char>)
    ensures
        where_text(Seq::empty(), key, want) == Seq::<Json>::empty(),
        where_text(rows.push(r), key, want) == if r.text(key) == Some(want) {
            where_text(rows, key, want).push(r)
        } else {
            where_text(rows, key, want)
        },
{
    assert(rows.push(r).drop_last() =~= rows);
}

/// Of rows those are taken that hold both wanted texts under their keys, in their order.
pub proof fn law_where_texts(
    rows: Seq<Json>,
    r: Json,
    key1: Seq<char>,
    want1: Seq<char>,
    key2: Seq<char>,
    want2: Seq<char>,
)
    ensures
        where_texts(Seq::empty(), key1, want1, key2, want2) == Seq::<Json>::empty(),
        where_texts(rows.push(r), key1, want1, key2, want2) == if r.text(key1) == Some(want1)
            && r.text(key2) == Some(want2) {
            where_texts(rows, key1, want1, key2, want2).push(r)
        } else {
            where_texts(rows, key1, want1, key2, want2)
        },
{
    assert(rows.push(r).drop_last() =~= rows);
}

/// A longer list picks what the shorter one picks, and what the last item gives.
pub proof fn law_pick_push<A, B>(s: Seq<A>, f: spec_fn(A) -> Option<B>, a: A)
    ensures
        pick(Seq::<A>::empty(), f) == Seq::<B>::empty(),
        pick(s.push(a), f) == match f(a) {
            Some(b) => pick(s, f).push(b),
            None => pick(s, f),
        },
{
    assert(s.push(a).drop_last() =~= s);
}

/// The texts under a key, in the order of the rows; rows without one give none.
pub proof fn law_texts_under(rows: Seq<Json>, r: Json, key: Seq<char>)
    ensures
        texts_under(Seq::empty(), key) == Seq::<Seq<char>>::empty(),
        texts_under(rows.push(r), key) == match r.text(key) {
            Some(t) => texts_under(rows, key).push(t),
            None => texts_under(rows, key),
        },
{
    assert(rows.push(r).drop_last() =~= rows);
}

/// A row makes up a new group where no row before it has its name, and joins the group
/// of that name otherwise; the order of the groups and of the rows in them stays.
pub proof fn law_group_push(rows: Seq<Json>, r: Json, key: Seq<char>, name: Seq<char>)
    ensures
        group_of(rows.push(r), key, name) == if r.text(key) == Some(name) || (r.text(key) is None
            && name.len() == 0) {
            group_of(rows, key, name).push(r)
        } else {
            group_of(rows, key, name)
        },
        r.text(key) matches Some(t) ==> group_names(rows.push(r), key) == if group_names(
            rows,
            key,
        ).contains(t) {
            group_names(rows, key)
        } else {
            group_names(rows, key).push(t)
        },
{
    assert(rows.push(r).drop_last() =~= rows);
    assert(keys_of(rows.push(r), key).drop_last() =~= keys_of(rows, key));
    assert(keys_of(rows.push(r), key).last() == or_empty(r.text(key)));
    if r.text(key) is None && name.len() == 0 {
        assert(name =~= Seq::empty());
    }
}

/// A text that is there is kept; one that is missing counts as empty.
pub proof fn law_or_empty(t: Seq<char>)
    ensures
        or_empty(Some(t)) == t,
        or_empty(None).len() == 0,
{
}

} // verus!
