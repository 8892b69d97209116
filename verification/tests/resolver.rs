use carbonable_domain::errors::{DecodeError, ModelError};
use carbonable_domain::felt::Felt;
use carbonable_domain::model::{PersistenceValue, StarknetResolvedValue, StarknetValue};

fn felt_with_tail_bytes(tail: &[u8]) -> Felt {
    let mut bytes = vec![0u8; 32 - tail.len()];
    bytes.extend_from_slice(tail);
    Felt { bytes }
}

#[test]
fn test_starknet_resolved_value_from_bool_felt() {
    let mut falsy_value = StarknetValue::new(vec![Felt::from_u64(0)]);
    let falsy = falsy_value.resolve("bool").unwrap();
    let mut truthy_value = StarknetValue::new(vec![Felt::from_u64(1)]);
    let truthy = truthy_value.resolve("bool").unwrap();
    if let StarknetResolvedValue::Bool(false_bool) = falsy {
        assert_eq!(false, false_bool);
    }
    if let StarknetResolvedValue::Bool(true_bool) = truthy {
        assert_eq!(true, true_bool);
    }
}

#[test]
fn bool_decode_exact_identity_check() {
    let mut one = StarknetValue::new(vec![Felt::from_u64(1)]);
    assert!(matches!(one.resolve("bool"), Ok(StarknetResolvedValue::Bool(true))));
    let mut two = StarknetValue::new(vec![Felt::from_u64(2)]);
    assert!(matches!(two.resolve("bool"), Ok(StarknetResolvedValue::Bool(false))));
    let mut zero = StarknetValue::new(vec![Felt::from_u64(0)]);
    assert!(matches!(zero.resolve("bool"), Ok(StarknetResolvedValue::Bool(false))));
    let mut empty = StarknetValue::new(vec![]);
    assert_eq!(
        empty.resolve("bool"),
        Err(ModelError::Decode(DecodeError::Underflow))
    );
}

#[test]
fn memoization_returns_cached_value_whatever_tag() {
    let mut value = StarknetValue::new(vec![Felt::from_u64(7)]);
    let first = value.resolve("u64").unwrap();
    assert!(matches!(first, StarknetResolvedValue::Int(7)));
    // The first decode wins: a second request, even under another tag,
    // returns the cached value.
    let second = value.resolve("bool").unwrap();
    assert!(matches!(second, StarknetResolvedValue::Int(7)));
    let third = value.resolve("u64").unwrap();
    assert!(matches!(third, StarknetResolvedValue::Int(7)));
}

#[test]
fn string_decode_ascii_round_trip() {
    let first = felt_with_tail_bytes(b"Carbon");
    let second = felt_with_tail_bytes(b"able");
    let mut value = StarknetValue::new(vec![first, second]);
    match value.resolve("string").unwrap() {
        StarknetResolvedValue::Text(s) => assert_eq!(s, "Carbonable"),
        other => panic!("expected text, got {:?}", other),
    }
}

#[test]
fn string_array_decode_skips_reserved_first_scalar() {
    let length_slot = Felt::from_u64(1);
    let content = felt_with_tail_bytes(b"Banegas Farm");
    let mut value = StarknetValue::new(vec![length_slot, content]);
    match value.resolve("string_array").unwrap() {
        StarknetResolvedValue::Text(s) => assert_eq!(s, "Banegas Farm"),
        other => panic!("expected text, got {:?}", other),
    }
}

#[test]
fn string_decode_rejects_invalid_utf8() {
    let bad = felt_with_tail_bytes(&[0xff, 0xfe]);
    let mut value = StarknetValue::new(vec![bad]);
    assert_eq!(
        value.resolve("string"),
        Err(ModelError::Decode(DecodeError::InvalidUtf8))
    );
}

#[test]
fn address_decode_consumes_one_scalar_and_pads_hex() {
    let mut value = StarknetValue::new(vec![Felt::from_u64(0xabc)]);
    match value.resolve("address").unwrap() {
        StarknetResolvedValue::Address(a) => {
            assert_eq!(a.len(), 66);
            assert!(a.starts_with("0x"));
            assert_eq!(
                a,
                "0x0000000000000000000000000000000000000000000000000000000000000abc"
            );
        },
        other => panic!("expected address, got {:?}", other),
    }
    assert_eq!(value.inner.len(), 0);
}

#[test]
fn address_decode_of_empty_sequence_underflows() {
    let mut value = StarknetValue::new(vec![]);
    assert_eq!(
        value.resolve("address"),
        Err(ModelError::Decode(DecodeError::Underflow))
    );
}

#[test]
fn u64_decode_pops_last_scalar_and_checks_range() {
    let mut value = StarknetValue::new(vec![Felt::from_u64(3), Felt::from_u64(9)]);
    assert!(matches!(value.resolve("u64"), Ok(StarknetResolvedValue::Int(9))));
    let mut huge_tail = vec![0u8; 32];
    huge_tail[23] = 1; // 2^64: one above the 64-bit range
    let mut too_big = StarknetValue::new(vec![Felt { bytes: huge_tail }]);
    assert_eq!(
        too_big.resolve("u64"),
        Err(ModelError::Decode(DecodeError::Overflow))
    );
}

#[test]
fn u256_decode_reads_first_scalar_in_place() {
    let mut value = StarknetValue::new(vec![Felt::from_u64(42), Felt::from_u64(0)]);
    assert!(matches!(value.resolve("u256"), Ok(StarknetResolvedValue::Int(42))));
    assert_eq!(value.inner.len(), 2);
}

#[test]
fn u64_array_decode_skips_reserved_slot() {
    let mut value = StarknetValue::new(vec![
        Felt::from_u64(2),
        Felt::from_u64(10),
        Felt::from_u64(20),
    ]);
    match value.resolve("u64_array").unwrap() {
        StarknetResolvedValue::IntArray(v) => assert_eq!(v, vec![10, 20]),
        other => panic!("expected array, got {:?}", other),
    }
}

#[test]
fn datetime_decode_checks_representable_range() {
    let mut value = StarknetValue::new(vec![Felt::from_u64(1_600_000_000)]);
    assert!(matches!(
        value.resolve("datetime"),
        Ok(StarknetResolvedValue::Date(1_600_000_000))
    ));
    let mut far = StarknetValue::new(vec![Felt::from_u64(300_000_000_000)]);
    assert_eq!(
        far.resolve("datetime"),
        Err(ModelError::Decode(DecodeError::TimestampOutOfRange))
    );
}

#[test]
fn unsupported_tag_is_a_recoverable_error() {
    let mut value = StarknetValue::new(vec![Felt::from_u64(1)]);
    assert_eq!(
        value.resolve("float"),
        Err(ModelError::Decode(DecodeError::UnsupportedTag))
    );
}

#[test]
fn narrowing_conversions_are_fallible() {
    assert_eq!(StarknetResolvedValue::Int(42).to_text().unwrap(), "42");
    assert_eq!(
        StarknetResolvedValue::Text(String::from("ok")).to_text().unwrap(),
        "ok"
    );
    assert_eq!(StarknetResolvedValue::Int(9).to_u64().unwrap(), 9);
    assert_eq!(
        StarknetResolvedValue::Bool(true).to_u64(),
        Err(ModelError::Decode(DecodeError::TypeMismatch))
    );
    assert_eq!(StarknetResolvedValue::Int(9).to_i64().unwrap(), 9);
    assert_eq!(
        StarknetResolvedValue::Int(u64::MAX).to_i64(),
        Err(ModelError::Decode(DecodeError::Overflow))
    );
}

#[test]
fn persistence_conversion_covers_each_variant() {
    assert!(matches!(
        StarknetResolvedValue::Address(String::from("0x1")).to_persistence_value(),
        Ok(PersistenceValue::Text(_))
    ));
    assert!(matches!(
        StarknetResolvedValue::Int(5).to_persistence_value(),
        Ok(PersistenceValue::BigUnsigned(5))
    ));
    assert!(matches!(
        StarknetResolvedValue::Bool(true).to_persistence_value(),
        Ok(PersistenceValue::Flag(true))
    ));
    assert!(matches!(
        StarknetResolvedValue::IntArray(vec![1, 2]).to_persistence_value(),
        Ok(PersistenceValue::UnsignedArray(_))
    ));
    assert_eq!(
        StarknetResolvedValue::Float.to_persistence_value(),
        Err(ModelError::Decode(DecodeError::TypeMismatch))
    );
    assert_eq!(
        StarknetResolvedValue::DateArray.to_persistence_value(),
        Err(ModelError::Decode(DecodeError::TypeMismatch))
    );
}
