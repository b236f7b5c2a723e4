use fql::keyval::{Value, ValueType, Variable, VStamp};
use fql::values::{pack, unpack, Endianness, SerializationError};

#[test]
fn test_pack_unpack_nil() {
    let value = Value::Nil;
    let packed = pack(&value, Endianness::Big, false).unwrap();
    assert_eq!(packed, vec![]);
}

#[test]
fn test_pack_unpack_bool() {
    let value_true = Value::Bool(true);
    let packed_true = pack(&value_true, Endianness::Big, false).unwrap();
    assert_eq!(packed_true, vec![1]);
    let unpacked_true = unpack(&packed_true, ValueType::Bool, Endianness::Big).unwrap();
    assert_eq!(unpacked_true, value_true);

    let value_false = Value::Bool(false);
    let packed_false = pack(&value_false, Endianness::Big, false).unwrap();
    assert_eq!(packed_false, vec![0]);
    let unpacked_false = unpack(&packed_false, ValueType::Bool, Endianness::Big).unwrap();
    assert_eq!(unpacked_false, value_false);
}

#[test]
fn test_pack_unpack_int() {
    let value = Value::Int(42);
    let packed = pack(&value, Endianness::Big, false).unwrap();
    assert_eq!(packed.len(), 8);
    let unpacked = unpack(&packed, ValueType::Int, Endianness::Big).unwrap();
    assert_eq!(unpacked, value);
}

#[test]
fn test_pack_unpack_uint() {
    let value = Value::Uint(12345);
    let packed = pack(&value, Endianness::Little, false).unwrap();
    assert_eq!(packed.len(), 8);
    let unpacked = unpack(&packed, ValueType::Uint, Endianness::Little).unwrap();
    assert_eq!(unpacked, value);
}

#[test]
fn test_pack_unpack_float() {
    let value = Value::Float(3.14159f64.to_bits());
    let packed = pack(&value, Endianness::Big, false).unwrap();
    assert_eq!(packed.len(), 8);
    let unpacked = unpack(&packed, ValueType::Float, Endianness::Big).unwrap();
    if let Value::Float(bits) = unpacked {
        assert!((f64::from_bits(bits) - 3.14159).abs() < 1e-10);
    } else {
        panic!("Expected Float");
    }
}

#[test]
fn test_pack_unpack_string() {
    let value = Value::String("hello world".to_string());
    let packed = pack(&value, Endianness::Big, false).unwrap();
    let unpacked = unpack(&packed, ValueType::String, Endianness::Big).unwrap();
    assert_eq!(unpacked, value);
}

#[test]
fn test_pack_unpack_bytes() {
    let value = Value::Bytes(vec![1, 2, 3, 4, 5]);
    let packed = pack(&value, Endianness::Big, false).unwrap();
    assert_eq!(packed, vec![1, 2, 3, 4, 5]);
    let unpacked = unpack(&packed, ValueType::Bytes, Endianness::Big).unwrap();
    assert_eq!(unpacked, value);
}

#[test]
fn test_pack_unpack_uuid() {
    let uuid = uuid::Uuid::new_v4();
    let value = Value::Uuid(*uuid.as_bytes());
    let packed = pack(&value, Endianness::Big, false).unwrap();
    assert_eq!(packed.len(), 16);
    let unpacked = unpack(&packed, ValueType::Uuid, Endianness::Big).unwrap();
    assert_eq!(unpacked, value);
}

#[test]
fn test_pack_unpack_vstamp() {
    let vstamp = VStamp {
        tx_version: [1, 2, 3, 4, 5, 6, 7, 8, 9, 10],
        user_version: 42,
    };
    let value = Value::VStamp(vstamp);
    let packed = pack(&value, Endianness::Big, false).unwrap();
    assert_eq!(packed.len(), 12);
    let unpacked = unpack(&packed, ValueType::VStamp, Endianness::Big).unwrap();
    assert_eq!(unpacked, value);
}

#[test]
fn test_pack_variable_fails() {
    let value = Value::Variable(Variable::any());
    let result = pack(&value, Endianness::Big, false);
    assert!(result.is_err());
}

#[test]
fn test_pack_clear_fails() {
    let value = Value::Clear;
    let result = pack(&value, Endianness::Big, false);
    assert!(result.is_err());
}

#[test]
fn test_endianness_difference() {
    let value = Value::Int(0x0102030405060708u64 as i64);

    let packed_big = pack(&value, Endianness::Big, false).unwrap();
    let packed_little = pack(&value, Endianness::Little, false).unwrap();

    // Different endianness should produce different bytes
    assert_ne!(packed_big, packed_little);

    // But unpacking with correct endianness should give same value
    let unpacked_big = unpack(&packed_big, ValueType::Int, Endianness::Big).unwrap();
    let unpacked_little = unpack(&packed_little, ValueType::Int, Endianness::Little).unwrap();

    assert_eq!(unpacked_big, value);
    assert_eq!(unpacked_little, value);
}

#[test]
fn test_endianness_byte_reversal() {
    let value = Value::Int(0x0102030405060708u64 as i64);
    let packed_big = pack(&value, Endianness::Big, false).unwrap();
    let mut packed_little = pack(&value, Endianness::Little, false).unwrap();
    packed_little.reverse();
    assert_eq!(packed_big, packed_little);
    assert_eq!(packed_big, vec![1, 2, 3, 4, 5, 6, 7, 8]);
}

#[test]
fn test_pack_refusal_messages() {
    match pack(&Value::Variable(Variable::any()), Endianness::Big, false) {
        Err(SerializationError::CannotSerialize(what)) => assert_eq!(what, "Variable"),
        other => panic!("expected CannotSerialize, got {:?}", other),
    }
    match pack(&Value::Clear, Endianness::Little, false) {
        Err(SerializationError::CannotSerialize(what)) => assert_eq!(what, "Clear"),
        other => panic!("expected CannotSerialize, got {:?}", other),
    }
}

#[test]
fn test_unpack_short_int() {
    let result = unpack(&[0u8; 7], ValueType::Int, Endianness::Big);
    assert_eq!(
        result,
        Err(SerializationError::InvalidLength { expected: 8, actual: 7 })
    );
}

#[test]
fn test_unpack_length_errors() {
    assert_eq!(
        unpack(&[0u8; 2], ValueType::Bool, Endianness::Big),
        Err(SerializationError::InvalidLength { expected: 1, actual: 2 })
    );
    assert_eq!(
        unpack(&[0u8; 15], ValueType::Uuid, Endianness::Big),
        Err(SerializationError::InvalidLength { expected: 16, actual: 15 })
    );
    assert_eq!(
        unpack(&[0u8; 11], ValueType::VStamp, Endianness::Big),
        Err(SerializationError::InvalidLength { expected: 12, actual: 11 })
    );
    assert_eq!(
        unpack(&[0u8; 3], ValueType::Float, Endianness::Little),
        Err(SerializationError::InvalidLength { expected: 8, actual: 3 })
    );
}

#[test]
fn test_unpack_invalid_utf8() {
    let result = unpack(&[0xff, 0xfe], ValueType::String, Endianness::Big);
    assert_eq!(
        result,
        Err(SerializationError::Failed("Invalid UTF-8".to_string()))
    );
}

#[test]
fn test_unpack_any_yields_bytes() {
    let unpacked = unpack(&[9, 8, 7], ValueType::Any, Endianness::Big).unwrap();
    assert_eq!(unpacked, Value::Bytes(vec![9, 8, 7]));
}

#[test]
fn test_round_trip_negative_and_extreme_ints() {
    for &i in &[-1i64, i64::MIN, i64::MAX, 0] {
        for &e in &[Endianness::Big, Endianness::Little] {
            let packed = pack(&Value::Int(i), e, false).unwrap();
            assert_eq!(unpack(&packed, ValueType::Int, e).unwrap(), Value::Int(i));
        }
    }
}

#[test]
fn test_round_trip_nan_bits() {
    let bits = f64::NAN.to_bits();
    let packed = pack(&Value::Float(bits), Endianness::Little, false).unwrap();
    let unpacked = unpack(&packed, ValueType::Float, Endianness::Little).unwrap();
    assert_eq!(unpacked, Value::Float(bits));
}

#[test]
fn test_round_trip_non_ascii_string() {
    let value = Value::String("héllo, wörld — ✓".to_string());
    for &e in &[Endianness::Big, Endianness::Little] {
        let packed = pack(&value, e, false).unwrap();
        assert_eq!(unpack(&packed, ValueType::String, e).unwrap(), value);
    }
}

#[test]
fn test_pack_vstamp_future_layout() {
    let value = Value::VStampFuture(fql::keyval::VStampFuture { user_version: 0x0201 });
    let packed = pack(&value, Endianness::Big, false).unwrap();
    assert_eq!(packed.len(), 16);
    assert_eq!(&packed[0..10], &[0u8; 10]);
    assert_eq!(&packed[10..12], &[0x01, 0x02]);
    assert_eq!(&packed[12..16], &[0u8; 4]);
}

#[test]
fn test_unpack_tuple_placeholder() {
    let unpacked = unpack(&[1, 2, 3], ValueType::Tuple, Endianness::Big).unwrap();
    assert_eq!(unpacked, Value::Tuple(vec![]));
}
