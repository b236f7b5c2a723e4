use fql::format::{format_directory, format_keyvalue, format_tuple, format_value, format_variable};
use fql::keyval::{DirElement, Key, KeyValue, Query, TupElement, Value, ValueType, Variable};

#[test]
fn test_format_directory() {
    let dir = vec![
        DirElement::String("users".to_string()),
        DirElement::String("profiles".to_string()),
    ];
    assert_eq!(format_directory(&dir), "/users/profiles");
}

#[test]
fn test_format_directory_with_variable() {
    let dir = vec![
        DirElement::String("users".to_string()),
        DirElement::Variable(Variable::any()),
    ];
    assert_eq!(format_directory(&dir), "/users/<>");
}

#[test]
fn test_format_tuple() {
    let tuple = vec![TupElement::Int(42), TupElement::String("hello".to_string())];
    assert_eq!(format_tuple(&tuple), "(42,\"hello\")");
}

#[test]
fn test_format_keyvalue() {
    let kv = KeyValue {
        key: Key {
            directory: vec![DirElement::String("test".to_string())],
            tuple: vec![TupElement::Int(1)],
        },
        value: Value::String("data".to_string()),
    };
    assert_eq!(format_keyvalue(&kv), "/test(1)=\"data\"");
}

#[test]
fn test_format_query_keyvalue() {
    let query = Query::KeyValue(KeyValue {
        key: Key {
            directory: vec![],
            tuple: vec![TupElement::Int(42)],
        },
        value: Value::Int(100),
    });
    assert_eq!(fql::format::format(&query), "(42)=100");
}

#[test]
fn test_format_query_key() {
    let query = Query::Key(Key {
        directory: vec![DirElement::String("dir".to_string())],
        tuple: vec![TupElement::String("key".to_string())],
    });
    assert_eq!(fql::format::format(&query), "/dir(\"key\")");
}

#[test]
fn test_format_maybe_more() {
    let tuple = vec![TupElement::Int(1), TupElement::MaybeMore];
    assert_eq!(format_tuple(&tuple), "(1,...)");
}

#[test]
fn test_format_variable_with_types() {
    let var = Variable::with_types(vec![ValueType::Int, ValueType::String]);
    assert_eq!(format_variable(&var), "int|string");
}

#[test]
fn test_format_bytes() {
    let value = Value::Bytes(vec![0xde, 0xad, 0xbe, 0xef]);
    assert_eq!(format_value(&value), "0xdeadbeef");
}

#[test]
fn test_format_negative_int() {
    assert_eq!(format_value(&Value::Int(-42)), "-42");
    assert_eq!(
        format_value(&Value::Int(i64::MIN)),
        "-9223372036854775808"
    );
    assert_eq!(format_value(&Value::Uint(0)), "0");
}

#[test]
fn test_format_bool_and_nil_and_clear() {
    assert_eq!(format_value(&Value::Bool(true)), "true");
    assert_eq!(format_value(&Value::Bool(false)), "false");
    assert_eq!(format_value(&Value::Nil), "nil");
    assert_eq!(format_value(&Value::Clear), "clear");
}

#[test]
fn test_format_float_bit_pattern() {
    // 1.5 is 0x3ff8000000000000 in IEEE-754 bits.
    assert_eq!(
        format_value(&Value::Float(1.5f64.to_bits())),
        "#float:3ff8000000000000"
    );
}

#[test]
fn test_format_uuid_hyphenated() {
    let value = Value::Uuid([
        0xde, 0xad, 0xbe, 0xef, 0x00, 0x11, 0x22, 0x33, 0x44, 0x55, 0x66, 0x77, 0x88, 0x99,
        0xaa, 0xbb,
    ]);
    assert_eq!(
        format_value(&value),
        "deadbeef-0011-2233-4455-66778899aabb"
    );
}

#[test]
fn test_format_nested_tuple() {
    let tuple = vec![
        TupElement::Int(1),
        TupElement::Tuple(vec![TupElement::Bool(false), TupElement::Nil]),
    ];
    assert_eq!(format_tuple(&tuple), "(1,(false,nil))");
}

#[test]
fn test_format_vstamps() {
    let tuple = vec![
        TupElement::VStamp(fql::keyval::VStamp {
            tx_version: [0; 10],
            user_version: 1,
        }),
        TupElement::VStampFuture(fql::keyval::VStampFuture { user_version: 2 }),
    ];
    assert_eq!(format_tuple(&tuple), "(#vstamp,#vstamp_future)");
}
