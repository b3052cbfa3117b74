use metasploit::decoder::decode;
use metasploit::encoder::{encodable, encode};
use metasploit::value::Value;
use metasploit::wire::{DecodeError, MAX_DEPTH};
use std::collections::BTreeMap;

fn text(s: &str) -> Value {
    Value::Str(s.to_string())
}

fn bytes_of(v: &Value) -> Vec<u8> {
    encode(v).expect("the value can be written")
}

fn nested(depth: usize) -> Value {
    let mut v = Value::Nil;
    for _ in 0..depth {
        v = Value::List(vec![v]);
    }
    v
}

#[test]
fn nil_and_booleans_have_their_one_byte() {
    assert_eq!(bytes_of(&Value::Nil), vec![0xc0]);
    assert_eq!(bytes_of(&Value::Bool(false)), vec![0xc2]);
    assert_eq!(bytes_of(&Value::Bool(true)), vec![0xc3]);
}

#[test]
fn integers_take_the_shortest_form() {
    assert_eq!(bytes_of(&Value::Int(0)), vec![0x00]);
    assert_eq!(bytes_of(&Value::Int(127)), vec![0x7f]);
    assert_eq!(bytes_of(&Value::Int(128)), vec![0xcc, 0x80]);
    assert_eq!(bytes_of(&Value::Int(255)), vec![0xcc, 0xff]);
    assert_eq!(bytes_of(&Value::Int(256)), vec![0xcd, 0x01, 0x00]);
    assert_eq!(bytes_of(&Value::Int(65535)), vec![0xcd, 0xff, 0xff]);
    assert_eq!(bytes_of(&Value::Int(65536)), vec![0xce, 0x00, 0x01, 0x00, 0x00]);
    assert_eq!(bytes_of(&Value::Int(4294967295)), vec![0xce, 0xff, 0xff, 0xff, 0xff]);
    assert_eq!(
        bytes_of(&Value::Int(4294967296)),
        vec![0xcf, 0x00, 0x00, 0x00, 0x01, 0x00, 0x00, 0x00, 0x00]
    );
    assert_eq!(
        bytes_of(&Value::Int(i64::MAX)),
        vec![0xcf, 0x7f, 0xff, 0xff, 0xff, 0xff, 0xff, 0xff, 0xff]
    );
    assert_eq!(bytes_of(&Value::Int(-1)), vec![0xff]);
    assert_eq!(bytes_of(&Value::Int(-32)), vec![0xe0]);
    assert_eq!(bytes_of(&Value::Int(-33)), vec![0xd0, 0xdf]);
    assert_eq!(bytes_of(&Value::Int(-128)), vec![0xd0, 0x80]);
    assert_eq!(bytes_of(&Value::Int(-129)), vec![0xd1, 0xff, 0x7f]);
    assert_eq!(bytes_of(&Value::Int(-32768)), vec![0xd1, 0x80, 0x00]);
    assert_eq!(bytes_of(&Value::Int(-32769)), vec![0xd2, 0xff, 0xff, 0x7f, 0xff]);
    assert_eq!(bytes_of(&Value::Int(-2147483648)), vec![0xd2, 0x80, 0x00, 0x00, 0x00]);
    assert_eq!(
        bytes_of(&Value::Int(-2147483649)),
        vec![0xd3, 0xff, 0xff, 0xff, 0xff, 0x7f, 0xff, 0xff, 0xff]
    );
    assert_eq!(
        bytes_of(&Value::Int(i64::MIN)),
        vec![0xd3, 0x80, 0x00, 0x00, 0x00, 0x00, 0x00, 0x00, 0x00]
    );
}

#[test]
fn integers_are_written_as_rmp_serde_writes_them() {
    let samples: Vec<i64> = vec![
        0, 1, 127, 128, 255, 256, 65535, 65536, 4294967295, 4294967296, i64::MAX, -1, -32, -33,
        -128, -129, -32768, -32769, -2147483648, -2147483649, i64::MIN, 55552, -7,
    ];
    for i in samples {
        assert_eq!(bytes_of(&Value::Int(i)), rmp_serde::to_vec(&i).unwrap(), "integer {}", i);
    }
}

#[test]
fn strings_are_written_as_rmp_serde_writes_them() {
    let lengths: Vec<usize> = vec![0, 1, 31, 32, 255, 256, 65535, 65536];
    for n in lengths {
        let s = "a".repeat(n);
        assert_eq!(bytes_of(&text(&s)), rmp_serde::to_vec(&s).unwrap(), "length {}", n);
    }
    let accented = "caf\u{e9} \u{4e16}\u{754c} \u{1f600}";
    assert_eq!(bytes_of(&text(accented)), rmp_serde::to_vec(accented).unwrap());
}

#[test]
fn string_headers_grow_with_the_length() {
    assert_eq!(bytes_of(&text("")), vec![0xa0]);
    assert_eq!(bytes_of(&text("abc")), vec![0xa3, b'a', b'b', b'c']);
    assert_eq!(bytes_of(&text(&"x".repeat(31)))[0], 0xbf);
    assert_eq!(bytes_of(&text(&"x".repeat(32)))[..2], [0xd9, 0x20]);
    assert_eq!(bytes_of(&text(&"x".repeat(256)))[..3], [0xda, 0x01, 0x00]);
    assert_eq!(bytes_of(&text(&"x".repeat(65536)))[..5], [0xdb, 0x00, 0x01, 0x00, 0x00]);
    assert_eq!(bytes_of(&text("\u{e9}")), vec![0xa2, 0xc3, 0xa9]);
}

#[test]
fn lists_are_written_as_rmp_serde_writes_them() {
    let lengths: Vec<usize> = vec![0, 1, 15, 16, 300, 65535, 65536];
    for n in lengths {
        let plain: Vec<i64> = (0..n as i64).collect();
        let ours = Value::List(plain.iter().map(|i| Value::Int(*i)).collect());
        assert_eq!(bytes_of(&ours), rmp_serde::to_vec(&plain).unwrap(), "length {}", n);
    }
}

#[test]
fn maps_are_written_as_rmp_serde_writes_them() {
    let lengths: Vec<usize> = vec![0, 1, 15, 16, 70000];
    for n in lengths {
        let mut plain: BTreeMap<String, String> = BTreeMap::new();
        for i in 0..n {
            plain.insert(format!("key{:06}", i), format!("value{}", i));
        }
        let ours = Value::Dict(plain.iter().map(|(k, v)| (text(k), text(v))).collect());
        assert_eq!(bytes_of(&ours), rmp_serde::to_vec(&plain).unwrap(), "length {}", n);
    }
}

#[test]
fn a_request_is_written_as_rmp_serde_writes_a_tuple() {
    let ours = Value::List(vec![text("auth.logout"), text("tok-123"), text("out-tok-456")]);
    let theirs = rmp_serde::to_vec(&("auth.logout", "tok-123", "out-tok-456")).unwrap();
    assert_eq!(bytes_of(&ours), theirs);
    let mixed = Value::List(
        vec![text("session.shell_upgrade"), text("t"), text("1"), Value::Int(4444)],
    );
    let theirs = rmp_serde::to_vec(&("session.shell_upgrade", "t", "1", 4444i32)).unwrap();
    assert_eq!(bytes_of(&mixed), theirs);
}

#[test]
fn json_values_are_written_alike() {
    let mut object = serde_json::Map::new();
    object.insert("busy".to_string(), serde_json::Value::Bool(false));
    object.insert("id".to_string(), serde_json::Value::Number(serde_json::Number::from(3i64)));
    object.insert("none".to_string(), serde_json::Value::Null);
    object.insert(
        "tabs".to_string(),
        serde_json::Value::Array(vec![
            serde_json::Value::String("use".to_string()),
            serde_json::Value::Number(serde_json::Number::from(-5i64)),
        ]),
    );
    let theirs = rmp_serde::to_vec(&serde_json::Value::Object(object)).unwrap();
    let ours = Value::Dict(vec![
        (text("busy"), Value::Bool(false)),
        (text("id"), Value::Int(3)),
        (text("none"), Value::Nil),
        (text("tabs"), Value::List(vec![text("use"), Value::Int(-5)])),
    ]);
    assert_eq!(bytes_of(&ours), theirs);
    assert_eq!(decode(&theirs), Ok(ours));
}

#[test]
fn decoding_gives_back_what_was_encoded() {
    let samples = vec![
        Value::Nil,
        Value::Bool(true),
        Value::Int(i64::MIN),
        Value::Int(i64::MAX),
        text(""),
        text(&"long ".repeat(20000)),
        Value::List(vec![]),
        Value::Dict(vec![]),
        Value::List(vec![text("auth.logout"), text("tok-123"), text("out-tok-456")]),
        Value::Dict(vec![
            (text("a"), Value::List(vec![Value::Int(1), Value::Nil, Value::Bool(false)])),
            (Value::Int(7), Value::Dict(vec![(text("deep"), text("value"))])),
            (text("a"), text("the same key again")),
        ]),
        nested(MAX_DEPTH),
    ];
    for v in samples {
        let bytes = bytes_of(&v);
        assert_eq!(decode(&bytes), Ok(v));
    }
}

#[test]
fn what_rmp_serde_writes_is_read() {
    let plain: Vec<String> = vec!["exploit/a".to_string(), "exploit/b".to_string()];
    let bytes = rmp_serde::to_vec(&plain).unwrap();
    assert_eq!(decode(&bytes), Ok(Value::List(vec![text("exploit/a"), text("exploit/b")])));
    let bytes = rmp_serde::to_vec(&(true, -300i32, Option::<i32>::None, "x")).unwrap();
    assert_eq!(
        decode(&bytes),
        Ok(Value::List(vec![Value::Bool(true), Value::Int(-300), Value::Nil, text("x")]))
    );
}

#[test]
fn what_is_written_is_read_by_rmp_serde() {
    let v = Value::List(vec![text("module.exploits"), text("tok")]);
    let back: Vec<String> = rmp_serde::from_slice(&bytes_of(&v)).unwrap();
    assert_eq!(back, vec!["module.exploits".to_string(), "tok".to_string()]);
    let v = Value::Dict(vec![(text("0"), text("Exploit: multi/handler"))]);
    let back: BTreeMap<String, String> = rmp_serde::from_slice(&bytes_of(&v)).unwrap();
    assert_eq!(back.get("0"), Some(&"Exploit: multi/handler".to_string()));
    let back: i64 = rmp_serde::from_slice(&bytes_of(&Value::Int(-2147483649))).unwrap();
    assert_eq!(back, -2147483649);
}

#[test]
fn longer_forms_of_an_integer_are_read_too() {
    assert_eq!(decode(&[0xcc, 0x05]), Ok(Value::Int(5)));
    assert_eq!(decode(&[0xcd, 0x00, 0x05]), Ok(Value::Int(5)));
    assert_eq!(decode(&[0xce, 0x00, 0x00, 0x00, 0x05]), Ok(Value::Int(5)));
    assert_eq!(decode(&[0xcf, 0, 0, 0, 0, 0, 0, 0, 5]), Ok(Value::Int(5)));
    assert_eq!(decode(&[0xd0, 0x05]), Ok(Value::Int(5)));
    assert_eq!(decode(&[0xd0, 0xfb]), Ok(Value::Int(-5)));
    assert_eq!(decode(&[0xd1, 0xff, 0xfb]), Ok(Value::Int(-5)));
    assert_eq!(decode(&[0xd2, 0xff, 0xff, 0xff, 0xfb]), Ok(Value::Int(-5)));
    assert_eq!(decode(&[0xd3, 0xff, 0xff, 0xff, 0xff, 0xff, 0xff, 0xff, 0xfb]), Ok(Value::Int(-5)));
    assert_eq!(decode(&[0xd9, 0x01, b'a']), Ok(text("a")));
    assert_eq!(decode(&[0xda, 0x00, 0x01, b'a']), Ok(text("a")));
    assert_eq!(decode(&[0xdb, 0x00, 0x00, 0x00, 0x01, b'a']), Ok(text("a")));
    assert_eq!(decode(&[0xdc, 0x00, 0x01, 0xc0]), Ok(Value::List(vec![Value::Nil])));
    assert_eq!(decode(&[0xdd, 0x00, 0x00, 0x00, 0x01, 0xc0]), Ok(Value::List(vec![Value::Nil])));
    assert_eq!(
        decode(&[0xde, 0x00, 0x01, 0x01, 0x02]),
        Ok(Value::Dict(vec![(Value::Int(1), Value::Int(2))]))
    );
    assert_eq!(
        decode(&[0xdf, 0x00, 0x00, 0x00, 0x01, 0x01, 0x02]),
        Ok(Value::Dict(vec![(Value::Int(1), Value::Int(2))]))
    );
}

#[test]
fn input_that_ends_early_is_truncated() {
    assert_eq!(decode(&[]), Err(DecodeError::Truncated));
    assert_eq!(decode(&[0xa3, b'a', b'b']), Err(DecodeError::Truncated));
    assert_eq!(decode(&[0x92, 0x01]), Err(DecodeError::Truncated));
    assert_eq!(decode(&[0x81, 0xa1, b'k']), Err(DecodeError::Truncated));
    assert_eq!(decode(&[0xcd, 0x01]), Err(DecodeError::Truncated));
    assert_eq!(decode(&[0xd3, 0, 0, 0, 0, 0, 0, 0]), Err(DecodeError::Truncated));
    assert_eq!(decode(&[0xda, 0x00]), Err(DecodeError::Truncated));
    assert_eq!(decode(&[0xdd, 0xff, 0xff, 0xff, 0xff]), Err(DecodeError::Truncated));
    assert_eq!(decode(&[0xdb, 0xff, 0xff, 0xff, 0xff, b'a']), Err(DecodeError::Truncated));
}

#[test]
fn bytes_after_the_value_are_not_read() {
    assert_eq!(decode(&[0xc0, 0xc3]), Ok(Value::Nil));
    assert_eq!(decode(&[0x90, 0x00]), Ok(Value::List(vec![])));
    assert_eq!(decode(&[0xa1, b'a', 0xc1, 0xff]), Ok(text("a")));
    let back: Option<bool> = rmp_serde::from_slice(&[0xc0, 0xc3]).unwrap();
    assert_eq!(back, None);
}

#[test]
fn the_marker_without_a_meaning_is_unsupported() {
    assert_eq!(decode(&[0xc1]), Err(DecodeError::Unsupported));
    assert_eq!(decode(&[0x91, 0xc1]), Err(DecodeError::Unsupported));
    assert_eq!(encode(&Value::Other(vec![0xc1])), None);
}

#[test]
fn values_of_other_kinds_are_carried_as_their_bytes() {
    let samples: Vec<Vec<u8>> = vec![
        vec![0xc4, 0x00],
        vec![0xc4, 0x02, 0xff, 0xfe],
        vec![0xc5, 0x00, 0x01, 0x07],
        vec![0xc6, 0x00, 0x00, 0x00, 0x01, 0x07],
        vec![0xc7, 0x01, 0x05, 0xaa],
        vec![0xc8, 0x00, 0x01, 0x05, 0xaa],
        vec![0xc9, 0x00, 0x00, 0x00, 0x01, 0x05, 0xaa],
        vec![0xca, 0x3f, 0xc0, 0x00, 0x00],
        vec![0xcb, 0x3f, 0xf8, 0, 0, 0, 0, 0, 0],
        vec![0xcf, 0x80, 0, 0, 0, 0, 0, 0, 0],
        vec![0xcf, 0xff, 0xff, 0xff, 0xff, 0xff, 0xff, 0xff, 0xff],
        vec![0xd4, 0x01, 0x02],
        vec![0xd5, 0x01, 0x02, 0x03],
        vec![0xd6, 0x01, 1, 2, 3, 4],
        vec![0xd7, 0x01, 1, 2, 3, 4, 5, 6, 7, 8],
        vec![0xd8, 0x01, 1, 2, 3, 4, 5, 6, 7, 8, 9, 10, 11, 12, 13, 14, 15, 16],
    ];
    for bytes in samples {
        assert_eq!(decode(&bytes), Ok(Value::Other(bytes.clone())), "bytes {:?}", bytes);
        assert_eq!(encode(&Value::Other(bytes.clone())), Some(bytes.clone()));
        let mut more = bytes.clone();
        more.push(0xc0);
        assert_eq!(decode(&more), Ok(Value::Other(bytes.clone())));
        assert_eq!(encode(&Value::Other(more)), None);
        let short = &bytes[..bytes.len() - 1];
        assert_eq!(decode(short), Err(DecodeError::Truncated), "bytes {:?}", short);
        assert_eq!(encode(&Value::Other(short.to_vec())), None);
        let inside = Value::List(vec![Value::Int(1), Value::Other(bytes.clone()), text("x")]);
        assert_eq!(decode(&bytes_of(&inside)), Ok(inside));
    }
    assert_eq!(decode(&rmp_serde::to_vec(&1.5f64).unwrap()), Ok(Value::Other(vec![
        0xcb, 0x3f, 0xf8, 0, 0, 0, 0, 0, 0,
    ])));
    assert_eq!(decode(&rmp_serde::to_vec(&u64::MAX).unwrap()), Ok(Value::Other(vec![
        0xcf, 0xff, 0xff, 0xff, 0xff, 0xff, 0xff, 0xff, 0xff,
    ])));
    let back: f64 = rmp_serde::from_slice(&bytes_of(&Value::Other(vec![
        0xcb, 0x3f, 0xf8, 0, 0, 0, 0, 0, 0,
    ]))).unwrap();
    assert_eq!(back, 1.5);
}

#[test]
fn bytes_that_are_no_value_of_another_kind_are_not_written() {
    assert_eq!(encode(&Value::Other(vec![])), None);
    assert_eq!(encode(&Value::Other(vec![0xc0])), None);
    assert_eq!(encode(&Value::Other(vec![0x01])), None);
    assert_eq!(encode(&Value::Other(vec![0xa1, b'a'])), None);
    assert_eq!(encode(&Value::Other(vec![0x90])), None);
    assert_eq!(encode(&Value::Other(vec![0xcf, 0, 0, 0, 0, 0, 0, 0, 5])), None);
    assert_eq!(encode(&Value::List(vec![Value::Other(vec![0xc0])])), None);
    assert!(!encodable(&Value::Other(vec![0xc4]), MAX_DEPTH));
    assert!(encodable(&Value::Other(vec![0xc4, 0x00]), 0));
}

#[test]
fn a_string_must_be_utf8() {
    assert_eq!(decode(&[0xa1, 0xff]), Err(DecodeError::InvalidUtf8));
    assert_eq!(decode(&[0xa2, 0xc3, 0x28]), Err(DecodeError::InvalidUtf8));
    assert_eq!(decode(&[0xa3, 0xed, 0xa0, 0x80]), Err(DecodeError::InvalidUtf8));
}

#[test]
fn the_largest_signed_integer_is_still_an_integer() {
    assert_eq!(
        decode(&[0xcf, 0x7f, 0xff, 0xff, 0xff, 0xff, 0xff, 0xff, 0xff]),
        Ok(Value::Int(i64::MAX))
    );
}

#[test]
fn nesting_is_read_up_to_the_limit() {
    let mut bytes = vec![0x91u8; MAX_DEPTH];
    bytes.push(0xc0);
    assert_eq!(decode(&bytes), Ok(nested(MAX_DEPTH)));
    let mut bytes = vec![0x91u8; MAX_DEPTH + 1];
    bytes.push(0xc0);
    assert_eq!(decode(&bytes), Err(DecodeError::TooDeep));
    let bytes = vec![0x91u8; 1_000_000];
    assert_eq!(decode(&bytes), Err(DecodeError::TooDeep));
    let mut bytes = vec![0x81u8; MAX_DEPTH + 1];
    bytes.push(0xc0);
    assert_eq!(decode(&bytes), Err(DecodeError::TooDeep));
}

#[test]
fn the_first_fault_from_the_left_is_reported() {
    assert_eq!(decode(&[0x92, 0xc1, 0xa1, 0xff]), Err(DecodeError::Unsupported));
    assert_eq!(decode(&[0x92, 0xc4, 0x05, 0xc1]), Err(DecodeError::Truncated));
    assert_eq!(decode(&[0x92, 0xa1, 0xff, 0xc1]), Err(DecodeError::InvalidUtf8));
    assert_eq!(decode(&[0x92, 0xc0]), Err(DecodeError::Truncated));
}

#[test]
fn nesting_is_written_up_to_the_limit() {
    assert!(encodable(&nested(MAX_DEPTH), MAX_DEPTH));
    assert!(!encodable(&nested(MAX_DEPTH + 1), MAX_DEPTH));
    assert!(encode(&nested(MAX_DEPTH)).is_some());
    assert_eq!(encode(&nested(MAX_DEPTH + 1)), None);
    assert!(encodable(&Value::Int(1), 0));
    assert!(!encodable(&Value::List(vec![]), 0));
    assert!(!encodable(&Value::Dict(vec![]), 0));
    assert!(encodable(&Value::Dict(vec![(text("k"), Value::List(vec![]))]), 2));
    assert!(!encodable(&Value::Dict(vec![(text("k"), Value::List(vec![]))]), 1));
}

#[test]
fn list_and_map_headers_grow_with_the_length() {
    let items = |n: usize| Value::List((0..n).map(|_| Value::Nil).collect());
    let entries = |n: usize| Value::Dict((0..n).map(|_| (Value::Nil, Value::Nil)).collect());
    assert_eq!(bytes_of(&items(0)), vec![0x90]);
    assert_eq!(bytes_of(&items(2)), vec![0x92, 0xc0, 0xc0]);
    assert_eq!(bytes_of(&items(15))[0], 0x9f);
    assert_eq!(bytes_of(&items(16))[..3], [0xdc, 0x00, 0x10]);
    assert_eq!(bytes_of(&items(65535))[..3], [0xdc, 0xff, 0xff]);
    assert_eq!(bytes_of(&items(65536))[..5], [0xdd, 0x00, 0x01, 0x00, 0x00]);
    assert_eq!(bytes_of(&items(65536)).len(), 5 + 65536);
    assert_eq!(bytes_of(&entries(0)), vec![0x80]);
    assert_eq!(bytes_of(&entries(1)), vec![0x81, 0xc0, 0xc0]);
    assert_eq!(bytes_of(&entries(15))[0], 0x8f);
    assert_eq!(bytes_of(&entries(16))[..3], [0xde, 0x00, 0x10]);
    assert_eq!(bytes_of(&entries(65536))[..5], [0xdf, 0x00, 0x01, 0x00, 0x00]);
    assert_eq!(bytes_of(&entries(65536)).len(), 5 + 2 * 65536);
}
