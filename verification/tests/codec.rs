use libsql_js::errors::Error;
use libsql_js::value::{
    convert_value_to_js, copy_bytes, map_value, BigInt, BindError, HostValue, SqlValue, TypedArray,
};

fn big(negative: bool, words: &[u64]) -> HostValue {
    HostValue::BigInt(BigInt { negative, words: words.to_vec() })
}

#[test]
fn null_and_undefined_bind_as_null() {
    assert_eq!(map_value(&HostValue::Null), Ok(SqlValue::Null));
    assert_eq!(map_value(&HostValue::Undefined), Ok(SqlValue::Null));
}

#[test]
fn booleans_bind_as_zero_and_one() {
    assert_eq!(map_value(&HostValue::Boolean(true)), Ok(SqlValue::Integer(1)));
    assert_eq!(map_value(&HostValue::Boolean(false)), Ok(SqlValue::Integer(0)));
}

#[test]
fn numbers_bind_as_reals_with_the_same_bits() {
    for x in [0.0f64, -0.0, 1.0, -1.5, 3.25, 1e300, f64::INFINITY, f64::MIN_POSITIVE] {
        assert_eq!(map_value(&HostValue::Number(x.to_bits())), Ok(SqlValue::Real(x.to_bits())));
    }
    let nan = f64::NAN.to_bits();
    assert_eq!(map_value(&HostValue::Number(nan)), Ok(SqlValue::Real(nan)));
}

#[test]
fn big_integers_in_range_bind_as_integers() {
    assert_eq!(map_value(&big(false, &[])), Ok(SqlValue::Integer(0)));
    assert_eq!(map_value(&big(true, &[])), Ok(SqlValue::Integer(0)));
    assert_eq!(map_value(&big(false, &[0])), Ok(SqlValue::Integer(0)));
    assert_eq!(map_value(&big(true, &[0])), Ok(SqlValue::Integer(0)));
    assert_eq!(map_value(&big(false, &[42])), Ok(SqlValue::Integer(42)));
    assert_eq!(map_value(&big(true, &[42])), Ok(SqlValue::Integer(-42)));
    assert_eq!(
        map_value(&big(false, &[0x7FFF_FFFF_FFFF_FFFF])),
        Ok(SqlValue::Integer(i64::MAX))
    );
    assert_eq!(
        map_value(&big(true, &[0x8000_0000_0000_0000])),
        Ok(SqlValue::Integer(i64::MIN))
    );
    assert_eq!(
        map_value(&big(true, &[0x7FFF_FFFF_FFFF_FFFF])),
        Ok(SqlValue::Integer(i64::MIN + 1))
    );
    assert_eq!(map_value(&big(false, &[7, 0, 0])), Ok(SqlValue::Integer(7)));
}

#[test]
fn big_integers_out_of_range_are_refused() {
    assert_eq!(map_value(&big(false, &[0x8000_0000_0000_0000])), Err(BindError::OutOfRange));
    assert_eq!(map_value(&big(true, &[0x8000_0000_0000_0001])), Err(BindError::OutOfRange));
    assert_eq!(map_value(&big(false, &[u64::MAX])), Err(BindError::OutOfRange));
    assert_eq!(map_value(&big(false, &[0, 1])), Err(BindError::OutOfRange));
    assert_eq!(map_value(&big(true, &[0, 1])), Err(BindError::OutOfRange));
    assert_eq!(map_value(&big(false, &[5, 0, 3])), Err(BindError::OutOfRange));
}

#[test]
fn big_integer_conversions_agree_with_wide_arithmetic() {
    let mut state: u64 = 0x9E37_79B9_7F4A_7C15;
    for i in 0..2000u32 {
        state = state.wrapping_mul(6364136223846793005).wrapping_add(1442695040888963407);
        let low = state >> (i % 64);
        state = state.wrapping_mul(6364136223846793005).wrapping_add(1442695040888963407);
        let high = if i % 3 == 0 { state >> 60 } else { 0 };
        let negative = i % 2 == 1;
        let magnitude = (low as i128) + ((high as i128) << 64);
        let value = if negative { -magnitude } else { magnitude };
        let big = BigInt { negative, words: vec![low, high] };
        let expected = if value >= i64::MIN as i128 && value <= i64::MAX as i128 {
            Some(value as i64)
        } else {
            None
        };
        assert_eq!(big.to_i64(), expected);
    }
}

#[test]
fn big_integer_from_i64_keeps_the_value() {
    for v in [0i64, 1, -1, 42, -42, i64::MAX, i64::MIN, i64::MIN + 1] {
        let big = BigInt::from_i64(v);
        assert_eq!(big.negative, v < 0);
        assert_eq!(big.words, vec![v.unsigned_abs()]);
        assert_eq!(big.to_i64(), Some(v));
    }
}

#[test]
fn strings_and_buffers_bind_by_copy() {
    assert_eq!(
        map_value(&HostValue::String("héllo".to_string())),
        Ok(SqlValue::Text("héllo".to_string()))
    );
    assert_eq!(map_value(&HostValue::String(String::new())), Ok(SqlValue::Text(String::new())));
    assert_eq!(map_value(&HostValue::Buffer(vec![1, 2, 3])), Ok(SqlValue::Blob(vec![1, 2, 3])));
    assert_eq!(map_value(&HostValue::Buffer(vec![])), Ok(SqlValue::Blob(vec![])));
}

#[test]
fn typed_arrays_bind_the_bytes_they_view() {
    let array = |byte_offset, length| {
        HostValue::TypedArray(TypedArray { buffer: vec![10, 11, 12, 13, 14], byte_offset, length })
    };
    assert_eq!(map_value(&array(0, 5)), Ok(SqlValue::Blob(vec![10, 11, 12, 13, 14])));
    assert_eq!(map_value(&array(1, 3)), Ok(SqlValue::Blob(vec![11, 12, 13])));
    assert_eq!(map_value(&array(5, 0)), Ok(SqlValue::Blob(vec![])));
    assert_eq!(map_value(&array(2, 0)), Ok(SqlValue::Blob(vec![])));
}

#[test]
fn typed_arrays_beyond_their_buffer_are_refused() {
    let array = |byte_offset, length| {
        HostValue::TypedArray(TypedArray { buffer: vec![10, 11, 12, 13, 14], byte_offset, length })
    };
    assert_eq!(map_value(&array(0, 6)), Err(BindError::TypedArrayOutOfBounds));
    assert_eq!(map_value(&array(3, 3)), Err(BindError::TypedArrayOutOfBounds));
    assert_eq!(map_value(&array(6, 0)), Err(BindError::TypedArrayOutOfBounds));
    assert_eq!(map_value(&array(usize::MAX, 2)), Err(BindError::TypedArrayOutOfBounds));
    assert_eq!(map_value(&array(2, usize::MAX)), Err(BindError::TypedArrayOutOfBounds));
}

#[test]
fn other_kinds_are_refused() {
    for value in [HostValue::Object, HostValue::Symbol, HostValue::Function, HostValue::External] {
        assert_eq!(map_value(&value), Err(BindError::Unsupported));
    }
}

#[test]
fn bind_errors_have_their_messages() {
    assert_eq!(
        BindError::OutOfRange.message(),
        "BigInt value is out of range for SQLite INTEGER (i64)"
    );
    assert_eq!(BindError::TypedArrayOutOfBounds.message(), "TypedArray length out of bounds");
    assert_eq!(
        BindError::Unsupported.message(),
        "SQLite3 can only bind numbers, strings, bigints, buffers, and null"
    );
    assert_eq!(
        Error::Bind(BindError::Unsupported).reason(),
        "SQLite3 can only bind numbers, strings, bigints, buffers, and null"
    );
}

#[test]
fn engine_values_are_handed_out_by_kind() {
    assert_eq!(convert_value_to_js(&SqlValue::Null, false), HostValue::Null);
    assert_eq!(convert_value_to_js(&SqlValue::Null, true), HostValue::Null);
    let bits = 2.5f64.to_bits();
    assert_eq!(convert_value_to_js(&SqlValue::Real(bits), false), HostValue::Number(bits));
    assert_eq!(convert_value_to_js(&SqlValue::Real(bits), true), HostValue::Number(bits));
    assert_eq!(
        convert_value_to_js(&SqlValue::Text("a".to_string()), true),
        HostValue::String("a".to_string())
    );
    assert_eq!(
        convert_value_to_js(&SqlValue::Blob(vec![9, 8]), false),
        HostValue::Buffer(vec![9, 8])
    );
}

#[test]
fn integers_are_handed_out_by_the_safe_integer_switch() {
    assert_eq!(
        convert_value_to_js(&SqlValue::Integer(1), false),
        HostValue::Number(1.0f64.to_bits())
    );
    assert_eq!(
        convert_value_to_js(&SqlValue::Integer(-7), false),
        HostValue::Number((-7.0f64).to_bits())
    );
    assert_eq!(
        convert_value_to_js(&SqlValue::Integer(1), true),
        HostValue::BigInt(BigInt { negative: false, words: vec![1] })
    );
    assert_eq!(
        convert_value_to_js(&SqlValue::Integer(-7), true),
        HostValue::BigInt(BigInt { negative: true, words: vec![7] })
    );
}

#[test]
fn large_integers_lose_precision_only_as_doubles() {
    let v: i64 = (1 << 53) + 1;
    let as_double = convert_value_to_js(&SqlValue::Integer(v), false);
    assert_eq!(as_double, HostValue::Number(9007199254740992.0f64.to_bits()));
    let as_big = convert_value_to_js(&SqlValue::Integer(v), true);
    assert_eq!(map_value(&as_big), Ok(SqlValue::Integer(v)));
}

#[test]
fn plain_host_values_round_trip() {
    let values = vec![
        HostValue::Null,
        HostValue::Number(0.1f64.to_bits()),
        HostValue::Number(f64::NEG_INFINITY.to_bits()),
        HostValue::String("round trip".to_string()),
        HostValue::Buffer(vec![0, 255, 7]),
    ];
    for value in values {
        let bound = map_value(&value).unwrap();
        assert_eq!(convert_value_to_js(&bound, false), value);
    }
    for v in [0i64, 5, -5, i64::MAX, i64::MIN] {
        let value = HostValue::BigInt(BigInt::from_i64(v));
        let bound = map_value(&value).unwrap();
        assert_eq!(convert_value_to_js(&bound, true), value);
    }
}

#[test]
fn other_host_values_come_back_normalized() {
    let bound = map_value(&HostValue::Undefined).unwrap();
    assert_eq!(convert_value_to_js(&bound, false), HostValue::Null);
    let bound = map_value(&HostValue::Boolean(true)).unwrap();
    assert_eq!(convert_value_to_js(&bound, false), HostValue::Number(1.0f64.to_bits()));
    let array = HostValue::TypedArray(TypedArray {
        buffer: vec![1, 2, 3, 4],
        byte_offset: 1,
        length: 2,
    });
    let bound = map_value(&array).unwrap();
    assert_eq!(convert_value_to_js(&bound, false), HostValue::Buffer(vec![2, 3]));
}

#[test]
fn engine_values_round_trip() {
    let values = vec![
        SqlValue::Null,
        SqlValue::Integer(12),
        SqlValue::Integer(i64::MIN),
        SqlValue::Real(6.5f64.to_bits()),
        SqlValue::Text("t".to_string()),
        SqlValue::Blob(vec![1]),
    ];
    for value in values {
        assert_eq!(map_value(&convert_value_to_js(&value, true)), Ok(value));
    }
    assert_eq!(
        map_value(&convert_value_to_js(&SqlValue::Integer(12), false)),
        Ok(SqlValue::Real(12.0f64.to_bits()))
    );
}

#[test]
fn bytes_are_copied_by_range() {
    let source = vec![1u8, 2, 3, 4, 5];
    assert_eq!(copy_bytes(&source, 0, 5), source);
    assert_eq!(copy_bytes(&source, 1, 4), vec![2, 3, 4]);
    assert_eq!(copy_bytes(&source, 3, 3), Vec::<u8>::new());
}
