//! Bytes and text: base64, UTF-8, letter case, the JSON forms of binary data and
//! of floating-point numbers, and JSON texts.
use base64::Engine;
use vstd::prelude::*;

use crate::numbers::decimal_wide;
use crate::text::{concat3, is_before, joined};
use crate::value::{Json, Value};

verus! {

/// The standard base64 text (padded) of some bytes.
pub uninterp spec fn base64_text(bytes: Seq<u8>) -> Seq<char>;

/// The bytes that a standard base64 text stands for, where it is one.
pub uninterp spec fn base64_bytes(text: Seq<char>) -> Option<Seq<u8>>;

/// The text that bytes stand for when every ill-formed UTF-8 sequence is
/// replaced by U+FFFD.
pub uninterp spec fn utf8_lossy(bytes: Seq<u8>) -> Seq<char>;

/// The text in capital letters, by Unicode.
pub uninterp spec fn uppercase(s: Seq<char>) -> Seq<char>;

/// The text in small letters, by Unicode.
pub uninterp spec fn lowercase(s: Seq<char>) -> Seq<char>;

/// A character within a JSON string: quotes, backslashes and control characters
/// are escaped, a control character by its short form where it has one.
pub open spec fn json_char(c: char) -> Seq<char> {
    let code = c as int;
    if c == '"' || c == '\\' {
        seq!['\\', c]
    } else if code >= 0x20 {
        seq![c]
    } else if code == 0x08 {
        seq!['\\', 'b']
    } else if code == 0x09 {
        seq!['\\', 't']
    } else if code == 0x0a {
        seq!['\\', 'n']
    } else if code == 0x0c {
        seq!['\\', 'f']
    } else if code == 0x0d {
        seq!['\\', 'r']
    } else {
        seq![
            '\\',
            'u',
            '0',
            '0',
            crate::numbers::hex_char(code / 16),
            crate::numbers::hex_char(code % 16),
        ]
    }
}

/// A text as a JSON string, with its quotes and escapes.
pub open spec fn json_string(s: Seq<char>) -> Seq<char> {
    seq!['"'] + Seq::new(s.len(), |i: int| json_char(s[i])).flatten() + seq!['"']
}

/// `base64::engine::general_purpose::STANDARD.encode`: decoding the text that it
/// gives gives the bytes back.
#[verifier::external_body]
pub(crate) fn base64_encode(bytes: &Vec<u8>) -> (r: String)
    ensures
        r@ == base64_text(bytes@),
        base64_bytes(r@) == Some(bytes@),
{
    base64::engine::general_purpose::STANDARD.encode(bytes)
}

/// `base64::engine::general_purpose::STANDARD.decode`: the bytes, or nothing
/// where the text is not standard base64.
#[verifier::external_body]
pub(crate) fn base64_decode(text: &str) -> (r: Option<Vec<u8>>)
    ensures
        r.deep_view() == base64_bytes(text@),
{
    base64::engine::general_purpose::STANDARD.decode(text).ok()
}

/// `String::from_utf8`: the text whose UTF-8 form the bytes are, or nothing
/// where they are not well formed.
#[verifier::external_body]
pub(crate) fn utf8_text(bytes: &Vec<u8>) -> (r: Option<String>)
    ensures
        match r {
            Some(s) => vstd::utf8::valid_utf8(bytes@) && s@ == vstd::utf8::decode_utf8(bytes@),
            None => !vstd::utf8::valid_utf8(bytes@),
        },
{
    String::from_utf8(bytes.clone()).ok()
}

/// `String::from_utf8_lossy`.
#[verifier::external_body]
pub(crate) fn utf8_lossy_text(bytes: &Vec<u8>) -> (r: String)
    ensures
        r@ == utf8_lossy(bytes@),
        vstd::utf8::valid_utf8(bytes@) ==> r@ == vstd::utf8::decode_utf8(bytes@),
{
    String::from_utf8_lossy(bytes).into_owned()
}

/// The hyphenated form of a UUID: its bytes in hexadecimal, in groups of four,
/// two, two, two and six bytes.
pub open spec fn uuid_form(bytes: Seq<u8>) -> Seq<char> {
    crate::numbers::hex(bytes.subrange(0, 4)) + "-"@ + crate::numbers::hex(bytes.subrange(4, 6))
        + "-"@ + crate::numbers::hex(bytes.subrange(6, 8)) + "-"@ + crate::numbers::hex(
        bytes.subrange(8, 10),
    ) + "-"@ + crate::numbers::hex(bytes.subrange(10, 16))
}

/// Whether a text is the hyphenated form of some UUID.
pub open spec fn is_uuid_form(s: Seq<char>) -> bool {
    exists|bytes: Seq<u8>| bytes.len() == 16 && s == #[trigger] uuid_form(bytes)
}

/// `uuid::Uuid::new_v4` and its `to_string`: a new random UUID in its hyphenated
/// form. Which one it is cannot be said.
#[verifier::external_body]
pub(crate) fn new_uuid() -> (r: String)
    ensures
        is_uuid_form(r@),
{
    uuid::Uuid::new_v4().to_string()
}

/// `serde_json::to_string` of a text, which does not fail: the text between
/// double quotes, with quotes, backslashes and control characters escaped.
#[verifier::external_body]
pub(crate) fn json_string_text(s: &str) -> (r: String)
    ensures
        r@ == json_string(s@),
{
    serde_json::to_string(s).unwrap_or_default()
}

/// `uuid::Uuid::to_string`: the hyphenated form in lower case.
#[verifier::external_body]
pub(crate) fn uuid_text(bytes: [u8; 16]) -> (r: String)
    ensures
        r@ == uuid_form(bytes@),
{
    uuid::Uuid::from_bytes(bytes).to_string()
}

/// `str::to_uppercase`.
pub assume_specification[ str::to_uppercase ](s: &str) -> (r: String)
    ensures
        r@ == uppercase(s@),
;

/// `str::to_lowercase`.
pub assume_specification[ str::to_lowercase ](s: &str) -> (r: String)
    ensures
        r@ == lowercase(s@),
;

/// The JSON form of binary data: `{"$binary": {"base64": ..}}`.
pub open spec fn binary_json(bytes: Seq<u8>) -> Json {
    Json::Object(
        seq![("$binary"@, Json::Object(seq![("base64"@, Json::Str(base64_text(bytes)))]))],
    )
}

/// An object with one member.
pub open spec fn one_member(key: Seq<char>, val: Json) -> Json {
    Json::Object(seq![(key, val)])
}

pub fn object_of_one(key: &str, val: Value) -> (r: Value)
    ensures
        r@ == one_member(key@, val@),
{
    let mut o: Vec<(String, Value)> = Vec::new();
    o.push((key.to_owned(), val));
    let r = Value::Object(o);
    proof {
        crate::value::lemma_compound_views(r);
        assert(crate::value::entries(o@) =~= seq![(key@, val@)]);
    }
    r
}

/// The JSON form of binary data. The text in it decodes to the bytes.
pub fn binary_value(bytes: &Vec<u8>) -> (r: Value)
    ensures
        r@ == binary_json(bytes@),
        base64_bytes(base64_text(bytes@)) == Some(bytes@),
{
    object_of_one("$binary", object_of_one("base64", Value::Str(base64_encode(bytes))))
}

/// Whether an IEEE-754 double with these bits is a finite number.
pub open spec fn is_finite(bits: u64) -> bool {
    (bits as int / 0x10_0000_0000_0000) % 2048 != 2047
}

/// A double as a JSON number; JSON has none for infinities and NaN.
pub open spec fn double_json(bits: u64) -> Json {
    if is_finite(bits) {
        Json::Double(bits)
    } else {
        Json::Null
    }
}

/// A double as a JSON number, or null where it is not finite.
pub fn number_or_null(bits: u64) -> (r: Value)
    ensures
        r@ == double_json(bits),
{
    if (bits / 0x10_0000_0000_0000) % 2048 != 2047 {
        Value::Double(bits)
    } else {
        Value::Null
    }
}

/// The text that well-formed bytes stand for, or else the bytes themselves.
pub open spec fn text_or_binary(bytes: Seq<u8>) -> Json {
    if vstd::utf8::valid_utf8(bytes) {
        Json::Str(vstd::utf8::decode_utf8(bytes))
    } else {
        binary_json(bytes)
    }
}

/// Bytes as text where they are well-formed UTF-8, else as binary data.
pub fn text_or_binary_value(bytes: &Vec<u8>) -> (r: Value)
    ensures
        r@ == text_or_binary(bytes@),
{
    match utf8_text(bytes) {
        Some(s) => Value::Str(s),
        None => binary_value(bytes),
    }
}

// ---------------------------------------------------------------------------
// JSON texts
// ---------------------------------------------------------------------------

/// Whether the keys of an object stand in ascending order, none of them twice.
pub open spec fn keys_ascend(o: Seq<(Seq<char>, Json)>) -> bool {
    forall|i: int|
        0 <= i < o.len() - 1 ==> crate::text::precedes(#[trigger] o[i].0, o[i + 1].0)
}

/// The JSON text of a value, without spaces. Nothing is said of a value that
/// holds a double, or an object whose keys do not ascend.
pub open spec fn json_text(v: Json) -> Option<Seq<char>>
    decreases v,
{
    match v {
        Json::Null => Some("null"@),
        Json::Bool(b) => Some(
            if b {
                "true"@
            } else {
                "false"@
            },
        ),
        Json::Int(n) => Some(crate::numbers::dec_int(n)),
        Json::Double(_) => None,
        Json::Str(s) => Some(json_string(s)),
        Json::Array(items) => match item_texts(items) {
            Some(ts) => Some("["@ + crate::text::join(ts, ","@) + "]"@),
            None => None,
        },
        Json::Object(o) => match member_texts(o) {
            Some(ts) => if keys_ascend(o) {
                Some("{"@ + crate::text::join(ts, ","@) + "}"@)
            } else {
                None
            },
            None => None,
        },
    }
}

/// The JSON texts of some values.
pub open spec fn item_texts(items: Seq<Json>) -> Option<Seq<Seq<char>>>
    decreases items,
{
    if items.len() == 0 {
        Some(Seq::empty())
    } else {
        match (item_texts(items.drop_last()), json_text(items.last())) {
            (Some(ts), Some(t)) => Some(ts.push(t)),
            _ => None,
        }
    }
}

/// The JSON texts of the members of an object.
pub open spec fn member_texts(o: Seq<(Seq<char>, Json)>) -> Option<Seq<Seq<char>>>
    decreases o,
{
    if o.len() == 0 {
        Some(Seq::empty())
    } else {
        match (member_texts(o.drop_last()), json_text(o.last().1)) {
            (Some(ts), Some(t)) => Some(ts.push(json_string(o.last().0) + ":"@ + t)),
            _ => None,
        }
    }
}

proof fn lemma_no_item_texts(items: Seq<Json>, i: int)
    requires
        0 <= i <= items.len(),
        item_texts(items.take(i)) is None,
    ensures
        item_texts(items) is None,
    decreases items.len() - i,
{
    if i < items.len() {
        assert(items.take(i + 1).drop_last() =~= items.take(i));
        lemma_no_item_texts(items, i + 1);
    } else {
        assert(items.take(i) =~= items);
    }
}

proof fn lemma_no_member_texts(o: Seq<(Seq<char>, Json)>, i: int)
    requires
        0 <= i <= o.len(),
        member_texts(o.take(i)) is None,
    ensures
        member_texts(o) is None,
    decreases o.len() - i,
{
    if i < o.len() {
        assert(o.take(i + 1).drop_last() =~= o.take(i));
        lemma_no_member_texts(o, i + 1);
    } else {
        assert(o.take(i) =~= o);
    }
}

fn items_written(items: &Vec<Value>) -> (r: Option<Vec<String>>)
    ensures
        match r {
            Some(ts) => item_texts(crate::value::values(items@)) == Some(
                crate::text::texts(ts@),
            ),
            None => item_texts(crate::value::values(items@)) is None,
        },
    decreases items,
{
    let ghost all = crate::value::values(items@);
    let mut out: Vec<String> = Vec::new();
    let mut i: usize = 0;
    assert(crate::text::texts(out@) =~= Seq::empty());
    assert(all.take(0) =~= Seq::empty());
    while i < items.len()
        invariant
            i <= items@.len(),
            all == crate::value::values(items@),
            item_texts(all.take(i as int)) == Some(crate::text::texts(out@)),
        decreases items@.len() - i,
    {
        proof {
            assert(all.take(i + 1).drop_last() =~= all.take(i as int));
            assert(all.take(i + 1).last() == items@[i as int]@);
            assert(decreases_to!(items => items@));
            assert(decreases_to!(items@ => items@[i as int]));
        }
        let ghost before = crate::text::texts(out@);
        match json_written(&items[i]) {
            Some(t) => {
                out.push(t);
                assert(crate::text::texts(out@) =~= before.push(t@));
            },
            None => {
                proof {
                    lemma_no_item_texts(all, i + 1);
                }
                return None;
            },
        }
        i = i + 1;
    }
    assert(all.take(all.len() as int) =~= all);
    Some(out)
}

fn members_written(o: &Vec<(String, Value)>) -> (r: Option<Vec<String>>)
    ensures
        match r {
            Some(ts) => member_texts(crate::value::entries(o@)) == Some(
                crate::text::texts(ts@),
            ),
            None => member_texts(crate::value::entries(o@)) is None,
        },
    decreases o,
{
    let ghost all = crate::value::entries(o@);
    let mut out: Vec<String> = Vec::new();
    let mut i: usize = 0;
    assert(crate::text::texts(out@) =~= Seq::empty());
    assert(all.take(0) =~= Seq::empty());
    while i < o.len()
        invariant
            i <= o@.len(),
            all == crate::value::entries(o@),
            member_texts(all.take(i as int)) == Some(crate::text::texts(out@)),
        decreases o@.len() - i,
    {
        proof {
            assert(all.take(i + 1).drop_last() =~= all.take(i as int));
            assert(all.take(i + 1).last() == (o@[i as int].0@, o@[i as int].1@));
            assert(decreases_to!(o => o@));
            assert(decreases_to!(o@ => o@[i as int]));
            assert(decreases_to!(o@[i as int] => o@[i as int].1));
        }
        let ghost before = crate::text::texts(out@);
        match json_written(&o[i].1) {
            Some(t) => {
                let key = json_string_text(o[i].0.as_str());
                let member = concat3(key.as_str(), ":", t.as_str());
                out.push(member);
                assert(crate::text::texts(out@) =~= before.push(member@));
            },
            None => {
                proof {
                    lemma_no_member_texts(all, i + 1);
                }
                return None;
            },
        }
        i = i + 1;
    }
    assert(all.take(all.len() as int) =~= all);
    Some(out)
}

fn ascending(o: &Vec<(String, Value)>) -> (r: bool)
    ensures
        r == keys_ascend(crate::value::entries(o@)),
{
    let ghost all = crate::value::entries(o@);
    let mut i: usize = 1;
    while i < o.len()
        invariant
            1 <= i,
            all == crate::value::entries(o@),
            forall|j: int|
                0 <= j < i - 1 && j < all.len() - 1 ==> crate::text::precedes(
                    #[trigger] all[j].0,
                    all[j + 1].0,
                ),
        decreases o@.len() - i,
    {
        if !is_before(o[i - 1].0.as_str(), o[i].0.as_str()) {
            assert(!crate::text::precedes(all[i - 1].0, all[i as int].0));
            return false;
        }
        i = i + 1;
    }
    true
}

/// The JSON text of a value that holds no double and no object whose keys do not
/// ascend.
pub fn json_written(v: &Value) -> (r: Option<String>)
    ensures
        r.deep_view() == json_text(v@),
    decreases v,
{
    proof {
        crate::value::lemma_compound_views(*v);
    }
    match v {
        Value::Null => Some("null".to_owned()),
        Value::Bool(b) => Some(
            if *b {
                "true".to_owned()
            } else {
                "false".to_owned()
            },
        ),
        Value::Int(n) => Some(decimal_wide(*n)),
        Value::Double(_) => None,
        Value::Str(s) => Some(json_string_text(s.as_str())),
        Value::Array(items) => match items_written(items) {
            Some(ts) => Some(concat3("[", joined(&ts, ",").as_str(), "]")),
            None => None,
        },
        Value::Object(o) => match members_written(o) {
            Some(ts) => if ascending(o) {
                Some(concat3("{", joined(&ts, ",").as_str(), "}"))
            } else {
                None
            },
            None => None,
        },
    }
}

// ---------------------------------------------------------------------------
// Laws
// ---------------------------------------------------------------------------

proof fn lemma_flat_plain(s: Seq<char>)
    requires
        forall|i: int|
            0 <= i < s.len() ==> #[trigger] s[i] != '"' && s[i] != '\\' && s[i] as int >= 0x20,
    ensures
        Seq::new(s.len(), |i: int| json_char(s[i])).flatten() == s,
    decreases s.len(),
{
    let parts = Seq::new(s.len(), |i: int| json_char(s[i]));
    if s.len() == 0 {
        assert(parts.flatten() =~= s);
    } else {
        let front = s.drop_last();
        assert forall|i: int| 0 <= i < front.len() implies #[trigger] front[i] != '"' && front[i]
            != '\\' && front[i] as int >= 0x20 by {
            assert(front[i] == s[i]);
        }
        lemma_flat_plain(front);
        assert(parts.drop_last() =~= Seq::new(front.len(), |i: int| json_char(front[i])));
        parts.lemma_flatten_and_flatten_alt_are_equivalent();
        parts.drop_last().lemma_flatten_and_flatten_alt_are_equivalent();
        assert(s[s.len() - 1] != '"');
        assert(parts.last() =~= seq![s.last()]);
        assert(parts.flatten() =~= s);
    }
}

/// A text without quotes, backslashes and control characters stands in a JSON string as
/// it is.
pub proof fn law_plain_json_string(s: Seq<char>)
    requires
        forall|i: int|
            0 <= i < s.len() ==> #[trigger] s[i] != '"' && s[i] != '\\' && s[i] as int >= 0x20,
    ensures
        json_string(s) == seq!['"'] + s + seq!['"'],
{
    lemma_flat_plain(s);
}

/// A JSON string is escaped character by character: quotes and backslashes by a
/// backslash, so that none of them ends the string, and control characters so that none
/// of them is left.
pub proof fn law_json_char(c: char)
    ensures
        c == '"' || c == '\\' ==> json_char(c) == seq!['\\', c],
        c != '"' && c != '\\' && c as int >= 0x20 ==> json_char(c) == seq![c],
        c == '\n' ==> json_char(c) == seq!['\\', 'n'],
        c == '\r' ==> json_char(c) == seq!['\\', 'r'],
        c == '\t' ==> json_char(c) == seq!['\\', 't'],
        forall|i: int| 0 <= i < json_char(c).len() ==> #[trigger] json_char(c)[i] as int >= 0x20,
        json_char(c).len() > 1 ==> json_char(c)[0] == '\\',
        json_char(c).len() == 1 ==> json_char(c)[0] != '"' && json_char(c)[0] != '\\',
{
}

/// Bytes stand in JSON as an object with their base64 text.
pub proof fn law_binary_json(bytes: Seq<u8>)
    ensures
        binary_json(bytes).get("$binary"@) matches Some(inner) && inner.text("base64"@) == Some(
            base64_text(bytes),
        ),
{
    let inner = Json::Object(seq![("base64"@, Json::Str(base64_text(bytes)))]);
    crate::value::law_get(Seq::empty(), "base64"@, Json::Str(base64_text(bytes)), Seq::empty());
    crate::value::law_get(Seq::empty(), "$binary"@, inner, Seq::empty());
    let none = Seq::<(Seq<char>, Json)>::empty();
    assert(none.push(("base64"@, Json::Str(base64_text(bytes)))) + none =~= seq![
        ("base64"@, Json::Str(base64_text(bytes))),
    ]);
    assert(none.push(("$binary"@, inner)) + none =~= seq![("$binary"@, inner)]);
}

/// A double is kept by its bits, except that an infinity and what is no number become
/// null: those whose exponent has all its bits set.
pub proof fn law_double_json(sign: bool, exponent: int, fraction: int)
    requires
        0 <= exponent < 2048,
        0 <= fraction < 0x10_0000_0000_0000,
    ensures
        ({
            let bits = ((if sign {
                0x8000_0000_0000_0000int
            } else {
                0
            }) + exponent * 0x10_0000_0000_0000 + fraction) as u64;
            double_json(bits) == if exponent == 2047 {
                Json::Null
            } else {
                Json::Double(bits)
            }
        }),
{
    let n = (if sign {
        0x8000_0000_0000_0000int
    } else {
        0
    }) + exponent * 0x10_0000_0000_0000 + fraction;
    assert(0 <= n <= u64::MAX);
    assert(n / 0x10_0000_0000_0000 == (if sign {
        2048int
    } else {
        0
    }) + exponent);
}

/// Well-formed bytes become the text that they stand for, others are kept as bytes.
pub proof fn law_text_or_binary(bytes: Seq<u8>)
    ensures
        vstd::utf8::valid_utf8(bytes) ==> text_or_binary(bytes) == Json::Str(
            vstd::utf8::decode_utf8(bytes),
        ),
        !vstd::utf8::valid_utf8(bytes) ==> text_or_binary(bytes) == binary_json(bytes),
{
}

/// The text of a UUID: 32 hexadecimal digits, two for each byte in order, with hyphens behind
/// the fourth, the sixth, the eighth and the tenth byte.
pub proof fn law_uuid_form(bytes: Seq<u8>)
    requires
        bytes.len() == 16,
    ensures
        uuid_form(bytes).len() == 36,
        uuid_form(bytes)[8] == '-' && uuid_form(bytes)[13] == '-' && uuid_form(bytes)[18] == '-'
            && uuid_form(bytes)[23] == '-',
        uuid_form(bytes).subrange(0, 8) == crate::numbers::hex(bytes.subrange(0, 4)),
        uuid_form(bytes).subrange(9, 13) == crate::numbers::hex(bytes.subrange(4, 6)),
        uuid_form(bytes).subrange(14, 18) == crate::numbers::hex(bytes.subrange(6, 8)),
        uuid_form(bytes).subrange(19, 23) == crate::numbers::hex(bytes.subrange(8, 10)),
        uuid_form(bytes).subrange(24, 36) == crate::numbers::hex(bytes.subrange(10, 16)),
{
    reveal_strlit("-");
    crate::numbers::law_hex(bytes.subrange(0, 4), 0);
    crate::numbers::law_hex(bytes.subrange(4, 6), 0);
    crate::numbers::law_hex(bytes.subrange(6, 8), 0);
    crate::numbers::law_hex(bytes.subrange(8, 10), 0);
    crate::numbers::law_hex(bytes.subrange(10, 16), 0);
    let s = uuid_form(bytes);
    assert(s.subrange(0, 8) =~= crate::numbers::hex(bytes.subrange(0, 4)));
    assert(s.subrange(9, 13) =~= crate::numbers::hex(bytes.subrange(4, 6)));
    assert(s.subrange(14, 18) =~= crate::numbers::hex(bytes.subrange(6, 8)));
    assert(s.subrange(19, 23) =~= crate::numbers::hex(bytes.subrange(8, 10)));
    assert(s.subrange(24, 36) =~= crate::numbers::hex(bytes.subrange(10, 16)));
}

/// An object of one member holds that member and no other.
pub proof fn law_one_member(key: Seq<char>, val: Json, other: Seq<char>)
    ensures
        one_member(key, val).get(key) == Some(val),
        other != key ==> one_member(key, val).get(other) is None,
{
    reveal_with_fuel(crate::value::find_key, 2);
}

/// Plain values are written as JSON writes them; a list and an object hold what their items
/// write, with commas between them.
pub proof fn law_json_text(
    b: bool,
    n: int,
    s: Seq<char>,
    items: Seq<Json>,
    key: Seq<char>,
    t: Seq<char>,
)
    ensures
        json_text(Json::Null) == Some("null"@),
        json_text(Json::Bool(true)) == Some("true"@),
        json_text(Json::Bool(false)) == Some("false"@),
        json_text(Json::Int(n)) == Some(crate::numbers::dec_int(n)),
        json_text(Json::Str(s)) == Some(json_string(s)),
        item_texts(items) matches Some(ts) ==> json_text(Json::Array(items)) == Some(
            seq!['['] + crate::text::join(ts, seq![',']) + seq![']'],
        ),
        json_text(Json::Object(seq![(key, Json::Int(n))])) == Some(
            seq!['{'] + (json_string(key) + seq![':'] + crate::numbers::dec_int(n)) + seq!['}'],
        ),
{
    reveal_strlit("[");
    reveal_strlit("]");
    reveal_strlit("{");
    reveal_strlit("}");
    reveal_strlit(",");
    reveal_strlit(":");
    assert("["@ =~= seq!['[']);
    assert("]"@ =~= seq![']']);
    assert("{"@ =~= seq!['{']);
    assert("}"@ =~= seq!['}']);
    assert(","@ =~= seq![',']);
    assert(":"@ =~= seq![':']);
    let o = seq![(key, Json::Int(n))];
    let text = json_string(key) + ":"@ + crate::numbers::dec_int(n);
    reveal_with_fuel(member_texts, 2);
    assert(o.drop_last() =~= Seq::empty());
    assert(o.last() == (key, Json::Int(n)));
    assert(member_texts(o) =~= Some(seq![text])) by {
        assert(Seq::<Seq<char>>::empty().push(text) =~= seq![text]);
    }
    crate::text::law_join(Seq::empty(), text, ","@);
    assert(keys_ascend(o));
}

/// The keys of an object ascend where each one that is added comes behind the last.
pub proof fn law_keys_ascend(o: Seq<(Seq<char>, Json)>, key: Seq<char>, val: Json)
    requires
        o.len() > 0,
    ensures
        keys_ascend(seq![(key, val)]),
        keys_ascend(o.push((key, val))) <==> keys_ascend(o) && crate::text::precedes(
            o.last().0,
            key,
        ),
{
    let all = o.push((key, val));
    let n = o.len() - 1;
    assert(all[n].0 == o.last().0 && all[n + 1].0 == key);
    if keys_ascend(all) {
        assert forall|i: int| 0 <= i < o.len() - 1 implies crate::text::precedes(
            #[trigger] o[i].0,
            o[i + 1].0,
        ) by {
            assert(crate::text::precedes(all[i].0, all[i + 1].0));
        }
        assert(crate::text::precedes(all[n].0, all[n + 1].0));
    }
    if keys_ascend(o) && crate::text::precedes(o.last().0, key) {
        assert forall|i: int| 0 <= i < all.len() - 1 implies crate::text::precedes(
            #[trigger] all[i].0,
            all[i + 1].0,
        ) by {
            if i < n {
                assert(crate::text::precedes(o[i].0, o[i + 1].0));
                assert(all[i] == o[i] && all[i + 1] == o[i + 1]);
            }
        }
    }
}

} // verus!
