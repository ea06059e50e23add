//! JSON values as the drivers and routes see them: rows of metadata queries,
//! cells of result sets, saved connections.
use vstd::prelude::*;

use crate::text::same;

verus! {

/// A JSON value.
///
/// Integers span the union of the signed and the unsigned 64-bit range. A
/// `Double` holds the IEEE-754 bit pattern of a finite double.
#[derive(Debug, PartialEq)]
pub enum Value {
    Null,
    Bool(bool),
    Int(i128),
    Double(u64),
    Str(String),
    Array(Vec<Value>),
    Object(Vec<(String, Value)>),
}

/// The mathematical content of a [`Value`].
pub enum Json {
    Null,
    Bool(bool),
    Int(int),
    Double(u64),
    Str(Seq<char>),
    Array(Seq<Json>),
    Object(Seq<(Seq<char>, Json)>),
}

/// What a value holds.
pub open spec fn content(v: Value) -> Json
    decreases v,
{
    match v {
        Value::Null => Json::Null,
        Value::Bool(b) => Json::Bool(b),
        Value::Int(n) => Json::Int(n as int),
        Value::Double(d) => Json::Double(d),
        Value::Str(s) => Json::Str(s@),
        Value::Array(a) => Json::Array(
            Seq::new(
                a@.len(),
                |i: int|
                    if 0 <= i < a@.len() {
                        content(a@[i])
                    } else {
                        Json::Null
                    },
            ),
        ),
        Value::Object(o) => Json::Object(
            Seq::new(
                o@.len(),
                |i: int|
                    if 0 <= i < o@.len() {
                        (o@[i].0@, content(o@[i].1))
                    } else {
                        (Seq::empty(), Json::Null)
                    },
            ),
        ),
    }
}

impl View for Value {
    type V = Json;

    open spec fn view(&self) -> Json {
        content(*self)
    }
}

impl DeepView for Value {
    type V = Json;

    open spec fn deep_view(&self) -> Json {
        self@
    }
}

/// The contents of a list of values.
pub open spec fn values(items: Seq<Value>) -> Seq<Json> {
    Seq::new(items.len(), |i: int| items[i]@)
}

/// The contents of a list of object entries.
pub open spec fn entries(items: Seq<(String, Value)>) -> Seq<(Seq<char>, Json)> {
    Seq::new(items.len(), |i: int| (items[i].0@, items[i].1@))
}

/// The views of compound values in terms of [`values`] and [`entries`].
pub proof fn lemma_compound_views(v: Value)
    ensures
        v matches Value::Array(a) ==> v@ == Json::Array(values(a@)),
        v matches Value::Object(o) ==> v@ == Json::Object(entries(o@)),
{
    match v {
        Value::Array(a) => {
            assert(v@->Array_0 =~= values(a@));
        },
        Value::Object(o) => {
            assert(v@->Object_0 =~= entries(o@));
        },
        _ => {},
    }
}

/// The value under `key`: that of the first entry that carries the key.
pub open spec fn find_key(o: Seq<(Seq<char>, Json)>, key: Seq<char>) -> Option<Json>
    decreases o.len(),
{
    if o.len() == 0 {
        None
    } else if o[0].0 == key {
        Some(o[0].1)
    } else {
        find_key(o.drop_first(), key)
    }
}

/// `o` with `key` bound to `val`: in place where the key is there, else as the
/// last entry.
pub open spec fn put_key(o: Seq<(Seq<char>, Json)>, key: Seq<char>, val: Json) -> Seq<
    (Seq<char>, Json),
>
    decreases o.len(),
{
    if o.len() == 0 {
        seq![(key, val)]
    } else if o[0].0 == key {
        o.update(0, (key, val))
    } else {
        seq![o[0]] + put_key(o.drop_first(), key, val)
    }
}

/// `target` after each entry of `source` was put into it, first to last.
pub open spec fn merge_keys(
    target: Seq<(Seq<char>, Json)>,
    source: Seq<(Seq<char>, Json)>,
) -> Seq<(Seq<char>, Json)>
    decreases source.len(),
{
    if source.len() == 0 {
        target
    } else {
        merge_keys(put_key(target, source[0].0, source[0].1), source.drop_first())
    }
}

impl Json {
    /// The member `key` of an object.
    pub open spec fn get(self, key: Seq<char>) -> Option<Json> {
        match self {
            Json::Object(o) => find_key(o, key),
            _ => None,
        }
    }

    pub open spec fn as_str(self) -> Option<Seq<char>> {
        match self {
            Json::Str(s) => Some(s),
            _ => None,
        }
    }

    pub open spec fn as_bool(self) -> Option<bool> {
        match self {
            Json::Bool(b) => Some(b),
            _ => None,
        }
    }

    pub open spec fn as_i64(self) -> Option<i64> {
        match self {
            Json::Int(n) => if i64::MIN <= n <= i64::MAX {
                Some(n as i64)
            } else {
                None
            },
            _ => None,
        }
    }

    pub open spec fn as_u64(self) -> Option<u64> {
        match self {
            Json::Int(n) => if 0 <= n <= u64::MAX {
                Some(n as u64)
            } else {
                None
            },
            _ => None,
        }
    }

    /// The text under `key`, where there is one.
    pub open spec fn text(self, key: Seq<char>) -> Option<Seq<char>> {
        match self.get(key) {
            Some(j) => j.as_str(),
            None => None,
        }
    }

    /// The signed integer under `key`, where there is one.
    pub open spec fn int64(self, key: Seq<char>) -> Option<i64> {
        match self.get(key) {
            Some(j) => j.as_i64(),
            None => None,
        }
    }

    /// The flag under `key`, where there is one.
    pub open spec fn flag(self, key: Seq<char>) -> Option<bool> {
        match self.get(key) {
            Some(j) => j.as_bool(),
            None => None,
        }
    }

    /// The unsigned integer under `key`, where there is one.
    pub open spec fn uint64(self, key: Seq<char>) -> Option<u64> {
        match self.get(key) {
            Some(j) => j.as_u64(),
            None => None,
        }
    }
}

/// What an optional borrowed string holds.
pub open spec fn opt_str(o: Option<&str>) -> Option<Seq<char>> {
    match o {
        Some(s) => Some(s@),
        None => None,
    }
}

/// What an optional borrowed value holds.
pub open spec fn opt_value(o: Option<&Value>) -> Option<Json> {
    match o {
        Some(v) => Some(v@),
        None => None,
    }
}

proof fn lemma_find_at(o: Seq<(Seq<char>, Json)>, key: Seq<char>, n: int)
    requires
        0 <= n < o.len(),
        o[n].0 == key,
        forall|j: int| 0 <= j < n ==> o[j].0 != key,
    ensures
        find_key(o, key) == Some(o[n].1),
    decreases n,
{
    if n > 0 {
        assert(o.drop_first()[n - 1] == o[n]);
        assert forall|j: int| 0 <= j < n - 1 implies o.drop_first()[j].0 != key by {
            assert(o.drop_first()[j] == o[j + 1]);
        }
        lemma_find_at(o.drop_first(), key, n - 1);
    }
}

proof fn lemma_find_none(o: Seq<(Seq<char>, Json)>, key: Seq<char>)
    requires
        forall|j: int| 0 <= j < o.len() ==> o[j].0 != key,
    ensures
        find_key(o, key) is None,
    decreases o.len(),
{
    if o.len() > 0 {
        assert forall|j: int| 0 <= j < o.drop_first().len() implies o.drop_first()[j].0 != key by {
            assert(o.drop_first()[j] == o[j + 1]);
        }
        lemma_find_none(o.drop_first(), key);
    }
}

proof fn lemma_put_at(o: Seq<(Seq<char>, Json)>, key: Seq<char>, val: Json, n: int)
    requires
        0 <= n < o.len(),
        o[n].0 == key,
        forall|j: int| 0 <= j < n ==> o[j].0 != key,
    ensures
        put_key(o, key, val) == o.update(n, (key, val)),
    decreases n,
{
    if n > 0 {
        assert(o.drop_first()[n - 1] == o[n]);
        assert forall|j: int| 0 <= j < n - 1 implies o.drop_first()[j].0 != key by {
            assert(o.drop_first()[j] == o[j + 1]);
        }
        lemma_put_at(o.drop_first(), key, val, n - 1);
        assert(put_key(o, key, val) =~= o.update(n, (key, val)));
    }
}

proof fn lemma_put_new(o: Seq<(Seq<char>, Json)>, key: Seq<char>, val: Json)
    requires
        forall|j: int| 0 <= j < o.len() ==> o[j].0 != key,
    ensures
        put_key(o, key, val) == o.push((key, val)),
    decreases o.len(),
{
    if o.len() > 0 {
        assert forall|j: int| 0 <= j < o.drop_first().len() implies o.drop_first()[j].0 != key by {
            assert(o.drop_first()[j] == o[j + 1]);
        }
        lemma_put_new(o.drop_first(), key, val);
    }
    assert(put_key(o, key, val) =~= o.push((key, val)));
}

/// Reading a key that was just put gives the value back; every other key reads
/// as before.
pub proof fn law_put_then_find(
    o: Seq<(Seq<char>, Json)>,
    key: Seq<char>,
    val: Json,
    other: Seq<char>,
)
    ensures
        find_key(put_key(o, key, val), key) == Some(val),
        other != key ==> find_key(put_key(o, key, val), other) == find_key(o, other),
    decreases o.len(),
{
    let p = put_key(o, key, val);
    if o.len() == 0 {
        reveal_with_fuel(find_key, 2);
        assert(p.drop_first() =~= o);
    } else if o[0].0 == key {
        assert(p.drop_first() =~= o.drop_first());
    } else {
        law_put_then_find(o.drop_first(), key, val, other);
        assert(p.drop_first() =~= put_key(o.drop_first(), key, val));
    }
}

/// The value of the last entry for `key`.
pub open spec fn last_key(o: Seq<(Seq<char>, Json)>, key: Seq<char>) -> Option<Json>
    decreases o.len(),
{
    if o.len() == 0 {
        None
    } else if o.last().0 == key {
        Some(o.last().1)
    } else {
        last_key(o.drop_last(), key)
    }
}

proof fn lemma_merge_last(
    target: Seq<(Seq<char>, Json)>,
    source: Seq<(Seq<char>, Json)>,
)
    requires
        source.len() > 0,
    ensures
        merge_keys(target, source) == put_key(
            merge_keys(target, source.drop_last()),
            source.last().0,
            source.last().1,
        ),
    decreases source.len(),
{
    let next = put_key(target, source[0].0, source[0].1);
    if source.len() == 1 {
        assert(source.drop_first() =~= source.drop_last());
        assert(merge_keys(next, source.drop_first()) == next);
    } else {
        lemma_merge_last(next, source.drop_first());
        assert(source.drop_first().drop_last() =~= source.drop_last().drop_first());
    }
}

/// A merge binds every key that the source has to the value of its last entry
/// there, and leaves every other key as it was.
pub proof fn law_merge(
    target: Seq<(Seq<char>, Json)>,
    source: Seq<(Seq<char>, Json)>,
    key: Seq<char>,
)
    ensures
        find_key(merge_keys(target, source), key) == match last_key(source, key) {
            Some(v) => Some(v),
            None => find_key(target, key),
        },
    decreases source.len(),
{
    if source.len() > 0 {
        law_merge(target, source.drop_last(), key);
        lemma_merge_last(target, source);
        law_put_then_find(
            merge_keys(target, source.drop_last()),
            source.last().0,
            source.last().1,
            key,
        );
    }
}

/// A copy of a value.
pub fn clone_value(v: &Value) -> (r: Value)
    ensures
        r@ == v@,
    decreases v,
{
    match v {
        Value::Null => Value::Null,
        Value::Bool(b) => Value::Bool(*b),
        Value::Int(n) => Value::Int(*n),
        Value::Double(d) => Value::Double(*d),
        Value::Str(s) => Value::Str(s.clone()),
        Value::Array(a) => {
            let mut out: Vec<Value> = Vec::new();
            let mut i: usize = 0;
            while i < a.len()
                invariant
                    i <= a@.len(),
                    out@.len() == i,
                    forall|j: int| 0 <= j < i ==> (#[trigger] out@[j])@ == a@[j]@,
                    v == Value::Array(*a),
                decreases a@.len() - i,
            {
                proof {
                    assert(decreases_to!(v => v->Array_0));
                    assert(decreases_to!(a => a@));
                    assert(decreases_to!(a@ => a@[i as int]));
                }
                let item = clone_value(&a[i]);
                out.push(item);
                i = i + 1;
            }
            let r = Value::Array(out);
            proof {
                lemma_compound_views(r);
                lemma_compound_views(*v);
                assert(values(out@) =~= values(a@));
            }
            r
        },
        Value::Object(o) => {
            let mut out: Vec<(String, Value)> = Vec::new();
            let mut i: usize = 0;
            while i < o.len()
                invariant
                    i <= o@.len(),
                    out@.len() == i,
                    forall|j: int|
                        0 <= j < i ==> (#[trigger] out@[j]).0@ == o@[j].0@ && out@[j].1@
                            == o@[j].1@,
                    v == Value::Object(*o),
                decreases o@.len() - i,
            {
                proof {
                    assert(decreases_to!(v => v->Object_0));
                    assert(decreases_to!(o => o@));
                    assert(decreases_to!(o@ => o@[i as int]));
                    assert(decreases_to!(o@[i as int] => o@[i as int].1));
                }
                let item = clone_value(&o[i].1);
                out.push((o[i].0.clone(), item));
                i = i + 1;
            }
            let r = Value::Object(out);
            proof {
                lemma_compound_views(r);
                lemma_compound_views(*v);
                assert(entries(out@) =~= entries(o@));
            }
            r
        },
    }
}

impl Clone for Value {
    fn clone(&self) -> (r: Self)
        ensures
            r@ == self@,
    {
        clone_value(self)
    }
}

/// Whether the bits are those of a zero, of either sign.
pub open spec fn is_zero(bits: u64) -> bool {
    bits == 0 || bits == 0x8000_0000_0000_0000
}

/// Whether two values are equal: doubles by their number, objects by what each
/// key is bound to, in any order.
pub open spec fn same_json(a: Json, b: Json) -> bool
    decreases a,
{
    match (a, b) {
        (Json::Double(x), Json::Double(y)) => x == y || is_zero(x) && is_zero(y),
        (Json::Array(xs), Json::Array(ys)) => xs.len() == ys.len() && forall|i: int|
            0 <= i < xs.len() ==> same_json(#[trigger] xs[i], ys[i]),
        (Json::Object(xs), Json::Object(ys)) => xs.len() == ys.len() && forall|i: int|
            0 <= i < xs.len() ==> match find_key(ys, (#[trigger] xs[i]).0) {
                Some(y) => same_json(xs[i].1, y),
                None => false,
            },
        _ => a == b,
    }
}

/// Whether two values are equal.
pub fn same_value(a: &Value, b: &Value) -> (r: bool)
    ensures
        r == same_json(a@, b@),
    decreases a,
{
    proof {
        lemma_compound_views(*a);
        lemma_compound_views(*b);
    }
    match (a, b) {
        (Value::Null, Value::Null) => true,
        (Value::Bool(x), Value::Bool(y)) => *x == *y,
        (Value::Int(x), Value::Int(y)) => *x == *y,
        (Value::Double(x), Value::Double(y)) => {
            let zeros = (*x == 0 || *x == 0x8000_0000_0000_0000) && (*y == 0 || *y
                == 0x8000_0000_0000_0000);
            *x == *y || zeros
        },
        (Value::Str(x), Value::Str(y)) => same(x.as_str(), y.as_str()),
        (Value::Array(x), Value::Array(y)) => {
            let ghost xs = values(x@);
            let ghost ys = values(y@);
            if x.len() != y.len() {
                assert(xs.len() != ys.len());
                return false;
            }
            let mut i: usize = 0;
            while i < x.len()
                invariant
                    i <= x@.len() == y@.len(),
                    a == Value::Array(*x),
                    xs == values(x@),
                    ys == values(y@),
                    a@ == Json::Array(xs),
                    b@ == Json::Array(ys),
                    forall|k: int| 0 <= k < i ==> same_json(#[trigger] xs[k], ys[k]),
                decreases x@.len() - i,
            {
                proof {
                    assert(decreases_to!(a => a->Array_0));
                    assert(decreases_to!(x => x@));
                    assert(decreases_to!(x@ => x@[i as int]));
                }
                if !same_value(&x[i], &y[i]) {
                    assert(!same_json(xs[i as int], ys[i as int]));
                    return false;
                }
                i = i + 1;
            }
            true
        },
        (Value::Object(x), Value::Object(y)) => {
            let ghost xs = entries(x@);
            let ghost ys = entries(y@);
            if x.len() != y.len() {
                assert(xs.len() != ys.len());
                return false;
            }
            let mut i: usize = 0;
            while i < x.len()
                invariant
                    i <= x@.len() == y@.len(),
                    a == Value::Object(*x),
                    xs == entries(x@),
                    ys == entries(y@),
                    a@ == Json::Object(xs),
                    b@ == Json::Object(ys),
                    forall|k: int|
                        0 <= k < i ==> match find_key(ys, (#[trigger] xs[k]).0) {
                            Some(v) => same_json(xs[k].1, v),
                            None => false,
                        },
                decreases x@.len() - i,
            {
                proof {
                    assert(decreases_to!(a => a->Object_0));
                    assert(decreases_to!(x => x@));
                    assert(decreases_to!(x@ => x@[i as int]));
                    assert(decreases_to!(x@[i as int] => x@[i as int].1));
                }
                assert(xs[i as int] == (x@[i as int].0@, x@[i as int].1@));
                match b.get(x[i].0.as_str()) {
                    Some(v) => {
                        if !same_value(&x[i].1, v) {
                            return false;
                        }
                    },
                    None => {
                        return false;
                    },
                }
                i = i + 1;
            }
            true
        },
        _ => false,
    }
}

/// A copy of a list of values.
pub fn clone_values(items: &Vec<Value>) -> (r: Vec<Value>)
    ensures
        values(r@) == values(items@),
{
    let mut out: Vec<Value> = Vec::new();
    let mut i: usize = 0;
    while i < items.len()
        invariant
            i <= items@.len(),
            out@.len() == i,
            forall|j: int| 0 <= j < i ==> (#[trigger] out@[j])@ == items@[j]@,
        decreases items@.len() - i,
    {
        out.push(clone_value(&items[i]));
        i = i + 1;
    }
    assert(values(out@) =~= values(items@));
    out
}

/// Binds `key` to `val` in a list of object entries.
pub fn put_entry(o: &mut Vec<(String, Value)>, key: String, val: Value)
    ensures
        entries(final(o)@) == put_key(entries(old(o)@), key@, val@),
{
    let ghost before = entries(o@);
    let mut i: usize = 0;
    while i < o.len()
        invariant
            i <= o@.len(),
            o@ == old(o)@,
            before == entries(o@),
            forall|j: int| 0 <= j < i ==> before[j].0 != key@,
        decreases o@.len() - i,
    {
        if same(o[i].0.as_str(), key.as_str()) {
            proof {
                lemma_put_at(before, key@, val@, i as int);
            }
            o.set(i, (key, val));
            assert(entries(o@) =~= before.update(i as int, (key@, val@)));
            return ;
        }
        i = i + 1;
    }
    proof {
        lemma_put_new(before, key@, val@);
    }
    o.push((key, val));
    assert(entries(o@) =~= before.push((key@, val@)));
}

/// Puts a copy of every entry of `source` into `target`.
pub fn merge_entries(target: &mut Vec<(String, Value)>, source: &Vec<(String, Value)>)
    ensures
        entries(final(target)@) == merge_keys(entries(old(target)@), entries(source@)),
{
    let ghost all = entries(source@);
    let mut i: usize = 0;
    assert(all.skip(0) =~= all);
    while i < source.len()
        invariant
            i <= source@.len(),
            all == entries(source@),
            merge_keys(entries(target@), all.skip(i as int)) == merge_keys(
                entries(old(target)@),
                all,
            ),
        decreases source@.len() - i,
    {
        assert(all.skip(i as int)[0] == all[i as int]);
        assert(all.skip(i as int).drop_first() =~= all.skip(i + 1));
        put_entry(target, source[i].0.clone(), clone_value(&source[i].1));
        i = i + 1;
    }
}

/// A text as JSON, or null where there is none.
pub open spec fn text_or_null(t: Option<Seq<char>>) -> Json {
    match t {
        Some(s) => Json::Str(s),
        None => Json::Null,
    }
}

/// A text as a value, or null where there is none.
pub fn text_value(t: Option<String>) -> (r: Value)
    ensures
        r@ == text_or_null(t.deep_view()),
{
    match t {
        Some(s) => Value::Str(s),
        None => Value::Null,
    }
}

/// Adds a member behind those of an object.
pub fn add_member(o: &mut Vec<(String, Value)>, key: &str, val: Value)
    ensures
        entries(final(o)@) == entries(old(o)@).push((key@, val@)),
{
    o.push((key.to_owned(), val));
    assert(entries(o@) =~= entries(old(o)@).push((key@, val@)));
}

/// No members.
pub fn no_members() -> (r: Vec<(String, Value)>)
    ensures
        entries(r@) == Seq::<(Seq<char>, Json)>::empty(),
{
    let r: Vec<(String, Value)> = Vec::new();
    assert(entries(r@) =~= Seq::empty());
    r
}

/// The object with the given members.
pub fn object_value(members: Vec<(String, Value)>) -> (r: Value)
    ensures
        r@ == Json::Object(entries(members@)),
{
    let r = Value::Object(members);
    proof {
        lemma_compound_views(r);
    }
    r
}

/// The list of the given values.
pub fn array_value(items: Vec<Value>) -> (r: Value)
    ensures
        r@ == Json::Array(items.deep_view()),
{
    let r = Value::Array(items);
    proof {
        lemma_compound_views(r);
        assert(values(items@) =~= items.deep_view());
    }
    r
}

/// A text as a value.
pub fn str_value(s: &str) -> (r: Value)
    ensures
        r@ == Json::Str(s@),
{
    Value::Str(s.to_owned())
}

/// The object with the given names bound to the given values, first to last: a
/// name that occurs again takes the later value.
pub open spec fn row_object(names: Seq<Seq<char>>, cells: Seq<Json>) -> Json {
    Json::Object(
        merge_keys(Seq::empty(), Seq::new(names.len(), |i: int| (names[i], cells[i]))),
    )
}

/// Builds the object of a row from its column names and its cells.
pub fn object_from(names: &Vec<String>, cells: Vec<Value>) -> (r: Value)
    requires
        names@.len() == cells@.len(),
    ensures
        r@ == row_object(names.deep_view(), cells.deep_view()),
{
    let ghost all = Seq::new(
        names.deep_view().len(),
        |i: int| (names.deep_view()[i], cells.deep_view()[i]),
    );
    let ghost goal = merge_keys(Seq::empty(), all);
    let mut out: Vec<(String, Value)> = Vec::new();
    let mut i: usize = 0;
    assert(entries(out@) =~= Seq::empty());
    assert(all.skip(0) =~= all);
    for cell in it: cells
        invariant
            it.seq() == cells@,
            i == it.index(),
            i <= names.len(),
            names@.len() == cells@.len(),
            all.len() == names@.len(),
            forall|k: int| 0 <= k < all.len() ==> all[k] == (names@[k]@, cells@[k]@),
            merge_keys(entries(out@), all.skip(i as int)) == goal,
    {
        assert(all.skip(i as int)[0] == all[i as int]);
        assert(all.skip(i as int).drop_first() =~= all.skip(i + 1));
        put_entry(&mut out, names[i].clone(), cell);
        i = i + 1;
    }
    let r = Value::Object(out);
    proof {
        lemma_compound_views(r);
    }
    r
}

impl Value {
    /// The member `key` of an object.
    pub fn get(&self, key: &str) -> (r: Option<&Value>)
        ensures
            opt_value(r) == self@.get(key@),
    {
        proof {
            lemma_compound_views(*self);
        }
        match self {
            Value::Object(o) => {
                let ghost all = entries(o@);
                let mut i: usize = 0;
                while i < o.len()
                    invariant
                        i <= o@.len(),
                        all == entries(o@),
                        self@ == Json::Object(all),
                        forall|j: int| 0 <= j < i ==> all[j].0 != key@,
                    decreases o@.len() - i,
                {
                    if same(o[i].0.as_str(), key) {
                        proof {
                            lemma_find_at(all, key@, i as int);
                        }
                        return Some(&o[i].1);
                    }
                    i = i + 1;
                }
                proof {
                    lemma_find_none(all, key@);
                }
                None
            },
            _ => None,
        }
    }

    pub fn is_null(&self) -> (r: bool)
        ensures
            r == (self@ is Null),
    {
        match self {
            Value::Null => true,
            _ => false,
        }
    }

    pub fn is_object(&self) -> (r: bool)
        ensures
            r == (self@ is Object),
    {
        match self {
            Value::Object(_) => true,
            _ => false,
        }
    }

    pub fn as_str(&self) -> (r: Option<&str>)
        ensures
            opt_str(r) == self@.as_str(),
    {
        match self {
            Value::Str(s) => Some(s.as_str()),
            _ => None,
        }
    }

    pub fn as_bool(&self) -> (r: Option<bool>)
        ensures
            r == self@.as_bool(),
    {
        match self {
            Value::Bool(b) => Some(*b),
            _ => None,
        }
    }

    pub fn as_i64(&self) -> (r: Option<i64>)
        ensures
            r == self@.as_i64(),
    {
        match self {
            Value::Int(n) => if i64::MIN as i128 <= *n && *n <= i64::MAX as i128 {
                Some(*n as i64)
            } else {
                None
            },
            _ => None,
        }
    }

    pub fn as_u64(&self) -> (r: Option<u64>)
        ensures
            r == self@.as_u64(),
    {
        match self {
            Value::Int(n) => if 0 <= *n && *n <= u64::MAX as i128 {
                Some(*n as u64)
            } else {
                None
            },
            _ => None,
        }
    }

    /// The text under `key`.
    pub fn text(&self, key: &str) -> (r: Option<&str>)
        ensures
            opt_str(r) == self@.text(key@),
    {
        match self.get(key) {
            Some(v) => v.as_str(),
            None => None,
        }
    }

    /// The signed integer under `key`.
    pub fn int64(&self, key: &str) -> (r: Option<i64>)
        ensures
            r == self@.int64(key@),
    {
        match self.get(key) {
            Some(v) => v.as_i64(),
            None => None,
        }
    }

    /// The flag under `key`.
    pub fn flag(&self, key: &str) -> (r: Option<bool>)
        ensures
            r == self@.flag(key@),
    {
        match self.get(key) {
            Some(v) => v.as_bool(),
            None => None,
        }
    }

    /// The unsigned integer under `key`.
    pub fn uint64(&self, key: &str) -> (r: Option<u64>)
        ensures
            r == self@.uint64(key@),
    {
        match self.get(key) {
            Some(v) => v.as_u64(),
            None => None,
        }
    }
}

// ---------------------------------------------------------------------------
// Laws
// ---------------------------------------------------------------------------

/// An object is read by its first entry for a key, wherever that stands; where there is
/// none nothing is read.
pub proof fn law_get(
    a: Seq<(Seq<char>, Json)>,
    key: Seq<char>,
    val: Json,
    b: Seq<(Seq<char>, Json)>,
)
    requires
        forall|j: int| 0 <= j < a.len() ==> (#[trigger] a[j]).0 != key,
    ensures
        Json::Object(a).get(key) is None,
        Json::Object(a.push((key, val)) + b).get(key) == Some(val),
{
    let o = a.push((key, val)) + b;
    assert forall|j: int| 0 <= j < a.len() implies o[j].0 != key by {
        assert(o[j] == a[j]);
        assert(a[j].0 != key);
    }
    lemma_find_none(a, key);
    assert(o[a.len() as int] == (key, val));
    lemma_find_at(o, key, a.len() as int);
}

/// A member is read as what it is, and as nothing else.
pub proof fn law_member_kinds(o: Json, key: Seq<char>)
    ensures
        o.get(key) matches Some(Json::Str(s)) ==> o.text(key) == Some(s),
        !(o.get(key) matches Some(Json::Str(_))) ==> o.text(key) is None,
        o.get(key) matches Some(Json::Bool(b)) ==> o.flag(key) == Some(b),
        !(o.get(key) matches Some(Json::Bool(_))) ==> o.flag(key) is None,
        o.get(key) matches Some(Json::Int(n)) ==> (o.int64(key) is Some <==> i64::MIN <= n
            <= i64::MAX) && (o.int64(key) matches Some(m) ==> m == n) && (o.uint64(key) is Some
            <==> 0 <= n <= u64::MAX) && (o.uint64(key) matches Some(m) ==> m == n),
        !(o.get(key) matches Some(Json::Int(_))) ==> o.int64(key) is None && o.uint64(key) is None,
{
}

proof fn lemma_last_key(o: Seq<(Seq<char>, Json)>, key: Seq<char>, i: int)
    requires
        0 <= i < o.len(),
        o[i].0 == key,
        forall|j: int| i < j < o.len() ==> (#[trigger] o[j]).0 != key,
    ensures
        last_key(o, key) == Some(o[i].1),
    decreases o.len(),
{
    if i < o.len() - 1 {
        assert(o[o.len() - 1].0 != key);
        assert forall|j: int| i < j < o.drop_last().len() implies (#[trigger] o.drop_last()[j]).0
            != key by {
            assert(o.drop_last()[j] == o[j]);
        }
        lemma_last_key(o.drop_last(), key, i);
    }
}

proof fn lemma_no_last_key(o: Seq<(Seq<char>, Json)>, key: Seq<char>)
    requires
        forall|j: int| 0 <= j < o.len() ==> (#[trigger] o[j]).0 != key,
    ensures
        last_key(o, key) is None,
    decreases o.len(),
{
    if o.len() > 0 {
        assert(o[o.len() - 1].0 != key);
        assert forall|j: int| 0 <= j < o.drop_last().len() implies (#[trigger] o.drop_last()[j]).0
            != key by {
            assert(o.drop_last()[j] == o[j]);
        }
        lemma_no_last_key(o.drop_last(), key);
    }
}

/// A name that is not among the names.
pub proof fn lemma_absent_name(names: Seq<Seq<char>>) -> (r: Seq<char>)
    ensures
        !names.contains(r),
{
    let r = lemma_longer_name(names);
    r
}

proof fn lemma_longer_name(names: Seq<Seq<char>>) -> (r: Seq<char>)
    ensures
        forall|i: int| 0 <= i < names.len() ==> (#[trigger] names[i]).len() < r.len(),
        !names.contains(r),
    decreases names.len(),
{
    if names.len() == 0 {
        seq!['a']
    } else {
        let front = names.drop_last();
        let shorter = lemma_longer_name(front);
        let r = shorter + names.last().push('a');
        assert forall|i: int| 0 <= i < names.len() implies (#[trigger] names[i]).len()
            < r.len() by {
            if i < front.len() {
                assert(front[i] == names[i]);
            }
        }
        r
    }
}

/// A row is read by the names of its columns: each name gives the cell of its column, of
/// several columns with one name that of the last; other names give nothing.
pub proof fn law_row_object(names: Seq<Seq<char>>, cells: Seq<Json>, i: int, other: Seq<char>)
    requires
        names.len() == cells.len(),
        0 <= i < names.len(),
        forall|j: int| i < j < names.len() ==> #[trigger] names[j] != names[i],
        !names.contains(other),
    ensures
        row_object(names, cells) is Object,
        row_object(names, cells).get(names[i]) == Some(cells[i]),
        row_object(names, cells).get(other) is None,
{
    let o = Seq::new(names.len(), |i: int| (names[i], cells[i]));
    law_merge(Seq::empty(), o, names[i]);
    law_merge(Seq::empty(), o, other);
    assert forall|j: int| i < j < o.len() implies (#[trigger] o[j]).0 != names[i] by {
        assert(names[j] != names[i]);
    }
    lemma_last_key(o, names[i], i);
    assert forall|j: int| 0 <= j < o.len() implies (#[trigger] o[j]).0 != other by {
        assert(names.contains(names[j]));
    }
    lemma_no_last_key(o, other);
}

/// A row whose columns have different names holds one member for each column, in the
/// order of the columns.
pub proof fn law_row_members(names: Seq<Seq<char>>, cells: Seq<Json>)
    requires
        names.len() == cells.len(),
        names.no_duplicates(),
    ensures
        row_object(names, cells) == Json::Object(
            Seq::new(names.len(), |i: int| (names[i], cells[i])),
        ),
{
    let o = Seq::new(names.len(), |i: int| (names[i], cells[i]));
    lemma_merge_distinct(Seq::empty(), o);
    assert(Seq::<(Seq<char>, Json)>::empty() + o =~= o);
}

proof fn lemma_merge_distinct(target: Seq<(Seq<char>, Json)>, source: Seq<(Seq<char>, Json)>)
    requires
        forall|i: int, j: int| 0 <= i < j < source.len() ==> source[i].0 != source[j].0,
        forall|i: int, j: int|
            0 <= i < target.len() && 0 <= j < source.len() ==> target[i].0 != source[j].0,
    ensures
        merge_keys(target, source) == target + source,
    decreases source.len(),
{
    if source.len() == 0 {
        assert(target + source =~= target);
    } else {
        assert forall|j: int| 0 <= j < target.len() implies target[j].0 != source[0].0 by {}
        lemma_put_new(target, source[0].0, source[0].1);
        let next = target.push((source[0].0, source[0].1));
        let rest = source.drop_first();
        assert forall|i: int, j: int| 0 <= i < j < rest.len() implies rest[i].0 != rest[j].0 by {
            assert(rest[i] == source[i + 1] && rest[j] == source[j + 1]);
        }
        assert forall|i: int, j: int|
            0 <= i < next.len() && 0 <= j < rest.len() implies next[i].0 != rest[j].0 by {
            assert(rest[j] == source[j + 1]);
            if i < target.len() {
                assert(next[i] == target[i]);
            }
        }
        lemma_merge_distinct(next, rest);
        assert(next + rest =~= target + source);
    }
}

/// Two values are the same where they are of one kind and hold the same; the two zeros are one
/// number.
pub proof fn law_same_json(b: bool, c: bool, m: int, n: int, s: Seq<char>, t: Seq<char>)
    ensures
        same_json(Json::Null, Json::Null),
        same_json(Json::Bool(b), Json::Bool(c)) <==> b == c,
        same_json(Json::Int(m), Json::Int(n)) <==> m == n,
        same_json(Json::Str(s), Json::Str(t)) <==> s == t,
        !same_json(Json::Null, Json::Str(t)),
        !same_json(Json::Int(m), Json::Str(t)),
        !same_json(Json::Str(s), Json::Null),
        same_json(Json::Double(0), Json::Double(0x8000_0000_0000_0000)),
        same_json(Json::Double(0x8000_0000_0000_0000), Json::Double(0)),
        !same_json(Json::Double(0), Json::Double(1)),
        !same_json(Json::Double(1), Json::Double(0x8000_0000_0000_0000)),
{
}

/// Lists are the same item by item; objects are the same where each member of the one is in the
/// other.
pub proof fn law_same_compound(
    xs: Seq<Json>,
    ys: Seq<Json>,
    os: Seq<(Seq<char>, Json)>,
    ps: Seq<(Seq<char>, Json)>,
    i: int,
)
    ensures
        xs.len() != ys.len() ==> !same_json(Json::Array(xs), Json::Array(ys)),
        same_json(Json::Array(xs), Json::Array(ys)) && 0 <= i < xs.len() ==> same_json(
            xs[i],
            ys[i],
        ),
        xs.len() == ys.len() && (forall|k: int|
            0 <= k < xs.len() ==> same_json(#[trigger] xs[k], ys[k])) ==> same_json(
            Json::Array(xs),
            Json::Array(ys),
        ),
        os.len() != ps.len() ==> !same_json(Json::Object(os), Json::Object(ps)),
        same_json(Json::Object(os), Json::Object(ps)) && 0 <= i < os.len() ==> (Json::Object(ps).get(
            os[i].0,
        ) matches Some(y) && same_json(os[i].1, y)),
{
    if same_json(Json::Object(os), Json::Object(ps)) && 0 <= i < os.len() {
        assert(match find_key(ps, os[i].0) {
            Some(y) => same_json(os[i].1, y),
            None => false,
        });
    }
}

} // verus!
