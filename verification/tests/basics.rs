//! Texts, numbers, values, rows, maps and the registry.
use dbgate::encoding::{binary_value, json_written, number_or_null, text_or_binary_value};
use dbgate::engines::{builtin_registry, BuiltinEngine};
use dbgate::error::DbgmError;
use dbgate::events::{session_closed, session_info, stats_value};
use dbgate::keyed::KeyedMap;
use dbgate::numbers::{
    decimal, decimal_padded, decimal_padded_signed, decimal_signed, decimal_wide, float_literal,
    hex_of, hexadecimal, parse_signed, parse_unsigned,
};
use dbgate::query::{QueryResult, QueryResultColumn};
use dbgate::registry::{database_engine, plugin_name, DriverRegistry, RegisteredDriver};
use dbgate::rows::{collect_texts, distinct, group_rows, get_i64, get_str, rows_with_text};
use dbgate::text::{
    contains, doubling, ends_with, in_quotes, is_before, joined, replaced, split_on, split_words,
    starts_with, strip_prefix, to_ascii_lower, trimmed,
};
use dbgate::value::{merge_entries, put_entry, same_value, Value};

/// The library's value for a parsed JSON value.
fn convert(v: &serde_json::Value) -> Value {
    match v {
        serde_json::Value::Null => Value::Null,
        serde_json::Value::Bool(b) => Value::Bool(*b),
        serde_json::Value::Number(n) => {
            if let Some(i) = n.as_i64() {
                Value::Int(i as i128)
            } else if let Some(u) = n.as_u64() {
                Value::Int(u as i128)
            } else {
                Value::Double(n.as_f64().unwrap().to_bits())
            }
        }
        serde_json::Value::String(s) => Value::Str(s.clone()),
        serde_json::Value::Array(a) => Value::Array(a.iter().map(convert).collect()),
        serde_json::Value::Object(o) => {
            Value::Object(o.iter().map(|(k, x)| (k.clone(), convert(x))).collect())
        }
    }
}

/// The value that a JSON text stands for.
fn json(text: &str) -> Value {
    convert(&serde_json::from_str(text).unwrap())
}

/// The values of a JSON array.
fn rows(text: &str) -> Vec<Value> {
    match json(text) {
        Value::Array(items) => items,
        other => panic!("not an array: {other:?}"),
    }
}

fn texts(list: &[&str]) -> Vec<String> {
    list.iter().map(|s| s.to_string()).collect()
}

#[test]
fn texts_are_trimmed_and_split() {
    assert_eq!(trimmed(" \t a b\u{3000}\n"), "a b");
    assert_eq!(split_on("a,,b,", ','), texts(&["a", "", "b", ""]));
    assert_eq!(split_words("  a  bc d "), texts(&["a", "bc", "d"]));
    assert_eq!(joined(&texts(&["a", "b"]), ", "), "a, b");
    assert_eq!(joined(&split_on("x.y.z", '.'), "."), "x.y.z");
}

#[test]
fn texts_are_searched_and_replaced() {
    assert_eq!(replaced("aXbXX", "X", "yy"), "ayybyyyy");
    assert_eq!(replaced("aaa", "aa", "b"), "ba");
    assert!(contains("hello", "ell"));
    assert!(!contains("hello", "elx"));
    assert!(starts_with("hello", "he") && ends_with("hello", "lo"));
    assert_eq!(strip_prefix("keyring:a", "keyring:").as_deref(), Some("a"));
    assert_eq!(strip_prefix("a", "keyring:"), None);
    assert_eq!(to_ascii_lower("AbÉ"), "abÉ");
}

#[test]
fn quotes_are_doubled() {
    assert_eq!(doubling("a'b''", '\''), "a''b''''");
    assert_eq!(in_quotes("O'B", '\''), "'O''B'");
}

#[test]
fn texts_are_ordered() {
    assert!(is_before("a", "b"));
    assert!(is_before("a", "ab"));
    assert!(!is_before("b", "a"));
    assert!(!is_before("a", "a"));
    assert!(is_before("", "a"));
}

#[test]
fn numbers_are_written() {
    assert_eq!(decimal(0), "0");
    assert_eq!(decimal(u64::MAX), u64::MAX.to_string());
    assert_eq!(decimal_signed(i64::MIN), i64::MIN.to_string());
    assert_eq!(decimal_wide(i128::MIN), i128::MIN.to_string());
    assert_eq!(decimal_padded(7, 2), "07");
    assert_eq!(decimal_padded(123, 2), "123");
    assert_eq!(decimal_padded_signed(-5, 4), format!("{:04}", -5i16));
    assert_eq!(hexadecimal(0), "0");
    assert_eq!(hexadecimal(0x1f), "1f");
    assert_eq!(hex_of(&vec![0, 255, 16]), "00ff10");
}

#[test]
fn numbers_are_read() {
    assert_eq!(parse_unsigned("42", 100), Some(42));
    assert_eq!(parse_unsigned("101", 100), None);
    assert_eq!(parse_unsigned("x", 100), None);
    assert_eq!(parse_unsigned("", 100), None);
    assert_eq!(parse_signed("-9223372036854775808"), Some(i64::MIN));
    assert_eq!(parse_signed("9223372036854775808"), None);
    for t in ["1", "-1.5", "1e5", ".5", "5.", "inf", "NaN", "1e", "", "abc", "+1", "1.2.3"] {
        assert_eq!(float_literal(t), t.parse::<f64>().is_ok(), "{t}");
    }
}

#[test]
fn values_are_looked_into() {
    let v = json(r#"{"a":"x","b":-1,"c":true,"d":18446744073709551615,"e":null}"#);
    assert_eq!(v.text("a"), Some("x"));
    assert_eq!(v.int64("b"), Some(-1));
    assert_eq!(v.uint64("b"), None);
    assert_eq!(v.flag("c"), Some(true));
    assert_eq!(v.uint64("d"), Some(u64::MAX));
    assert_eq!(v.int64("d"), None);
    assert!(v.get("e").unwrap().is_null());
    assert!(v.get("z").is_none());
    assert!(same_value(&v, &v.clone()));
    assert!(!same_value(&v, &Value::Null));
    assert!(same_value(&json(r#"{"a":1,"b":[0.0]}"#), &json(r#"{"b":[-0.0],"a":1}"#)));
    let ab = Value::Object(vec![("a".into(), Value::Int(1)), ("b".into(), Value::Int(2))]);
    let ba = Value::Object(vec![("b".into(), Value::Int(2)), ("a".into(), Value::Int(1))]);
    let cb = Value::Object(vec![("c".into(), Value::Int(1)), ("b".into(), Value::Int(2))]);
    assert!(same_value(&ab, &ba));
    assert!(!same_value(&ab, &cb));
}

#[test]
fn entries_are_put_and_merged() {
    let mut o = vec![("a".to_string(), Value::Int(1))];
    put_entry(&mut o, "a".to_string(), Value::Int(2));
    put_entry(&mut o, "b".to_string(), Value::Int(3));
    merge_entries(&mut o, &vec![("b".to_string(), Value::Null)]);
    assert_eq!(Value::Object(o), json(r#"{"a":2,"b":null}"#));
}

#[test]
fn bytes_and_doubles_become_values() {
    assert_eq!(binary_value(&b"hello".to_vec()), json(r#"{"$binary":{"base64":"aGVsbG8="}}"#));
    assert_eq!(text_or_binary_value(&b"ok".to_vec()), Value::Str("ok".to_string()));
    assert_eq!(
        text_or_binary_value(&vec![0xc3, 0x28]),
        json(r#"{"$binary":{"base64":"wyg="}}"#)
    );
    assert_eq!(number_or_null(f64::INFINITY.to_bits()), Value::Null);
    assert_eq!(number_or_null(0.25f64.to_bits()), Value::Double(0.25f64.to_bits()));
}

#[test]
fn rows_are_filtered_and_grouped() {
    let all = rows(r#"[{"t":"a","n":1},{"t":"b","n":2},{"t":"a","n":3},{"n":4}]"#);
    assert_eq!(get_str(&all[0], "t").as_deref(), Some("a"));
    assert_eq!(get_i64(&all[2], "n"), Some(3));
    assert_eq!(rows_with_text(&all, "t", "a").len(), 2);
    assert_eq!(collect_texts(&all, "t"), texts(&["a", "b", "a"]));
    assert_eq!(distinct(&texts(&["a", "b", "a"])), texts(&["a", "b"]));
    let refs: Vec<&Value> = all.iter().take(3).collect();
    let groups = group_rows(&refs, "t");
    assert_eq!(groups.len(), 2);
    assert_eq!(groups[0].0, "a");
    assert_eq!(groups[0].1.len(), 2);
}

#[test]
fn maps_keep_one_value_per_key() {
    let mut m: KeyedMap<u8> = KeyedMap::new();
    assert!(m.is_empty());
    m.insert("b".to_string(), 1);
    m.insert("a".to_string(), 2);
    m.insert("b".to_string(), 3);
    assert_eq!(m.len(), 2);
    assert_eq!(m.get("b"), Some(&3));
    assert_eq!(m.keys(), texts(&["a", "b"]));
    assert_eq!(m.remove("b"), Some(3));
    assert_eq!(m.remove("b"), None);
    assert!(!m.contains_key("b"));
}

#[test]
fn engines_are_registered_under_their_ids() {
    assert_eq!(plugin_name("mysql@dbgate-plugin-mysql"), "dbgate-plugin-mysql");
    assert_eq!(database_engine("mysql@dbgate-plugin-mysql"), "mysql");
    assert_eq!(plugin_name("mysql"), "mysql");
    assert_eq!(database_engine("mysql"), "mysql");
    let registry = builtin_registry();
    assert_eq!(registry.len(), 8);
    for id in registry.engine_ids() {
        assert_eq!(registry.get(&id).unwrap().engine(), id);
    }
    assert!(matches!(
        registry.get("sqlite@dbgate-plugin-sqlite"),
        Some(BuiltinEngine::Sqlite)
    ));
    assert!(registry.get("nope").is_none());
    let mut own: DriverRegistry<u8> = DriverRegistry::new();
    assert!(own.is_empty());
    own.register(
        "x@y".to_string(),
        RegisteredDriver { title: "X".to_string(), default_port: Some(1), driver: 7 },
    );
    assert_eq!(own.get("x@y"), Some(&7));
    let m = own.list_metadata();
    assert_eq!(m[0].name, "y");
    assert_eq!(m[0].display_name, "X");
    assert_eq!(m[0].database_engine, "x");
}

#[test]
fn errors_show_code_and_message() {
    assert_eq!(DbgmError::new("m".to_string()).to_string(), "DBGM-00000: m");
    assert_eq!(
        DbgmError::code("m".to_string(), "DBGM-1".to_string()).to_string(),
        "DBGM-1: m"
    );
    let e = DbgmError::with_source("m".to_string(), "s".to_string());
    assert_eq!(e.source.as_deref(), Some("s"));
}

#[test]
fn events_carry_their_payload() {
    let e = session_info("s", "hi", "info");
    assert_eq!(e.name, "session-info-s");
    assert_eq!(e.payload, json(r#"{"message":"hi","severity":"info"}"#));
    assert_eq!(session_closed("s").name, "session-closed-s");
    let v = stats_value(2, 3, true);
    assert_eq!(v.uint64("rowCount"), Some(2));
    assert_eq!(v.uint64("changeIndex"), Some(3));
    assert_eq!(v.flag("isFinished"), Some(true));
}

#[test]
fn results_are_shown_with_their_columns() {
    let r = QueryResult {
        rows: vec![Value::Int(1)],
        columns: vec![QueryResultColumn::plain("a".to_string(), Some("int".to_string()))],
    };
    let v = r.to_value();
    assert_eq!(v.get("rows"), Some(&json("[1]")));
    assert_eq!(
        v.get("columns"),
        Some(&json(r#"[{"columnName":"a","dataType":"int"}]"#))
    );
}

#[test]
fn json_texts_are_written_without_spaces() {
    for text in [
        "null",
        "true",
        "-12",
        r#""a\"b\n""#,
        "[]",
        r#"[1,"x",[null]]"#,
        r#"{"a":{"b":[false]},"c":"d"}"#,
        "{}",
    ] {
        assert_eq!(json_written(&json(text)).as_deref(), Some(text));
    }
    assert_eq!(json_written(&json("[0.5]")), None);
    let unordered = Value::Object(vec![
        ("b".to_string(), Value::Null),
        ("a".to_string(), Value::Null),
    ]);
    assert_eq!(json_written(&unordered), None);
}
