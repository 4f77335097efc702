use deimos::decode::channel;
use deimos::decode::coord;
use deimos::decode::extent;
use deimos::decode::opt_bool;
use deimos::decode::opt_channel;
use deimos::decode::req_int;
use deimos::decode::req_size;
use deimos::decode::req_str;
use deimos::error::Error;
use deimos::error::Expected;
use deimos::value::Float;
use deimos::value::Tag;
use deimos::value::Value;

fn float(f: f64) -> Value {
    Value::Float(Float { trunc: f as i64, bits: f.to_bits() })
}

#[test]
fn required_string_decodes() {
    let args = vec![Value::Str("hello".to_string())];
    assert_eq!(req_str(&args, 0), Ok("hello".to_string()));
}

#[test]
fn required_string_mismatch() {
    let args = vec![Value::Int(3)];
    assert_eq!(
        req_str(&args, 0),
        Err(Error::TypeMismatch { expected: Expected::Exact(Tag::Str), actual: Tag::Int, position: 0 })
    );
}

#[test]
fn required_int_missing() {
    let args = vec![];
    assert_eq!(req_int(&args, 0), Err(Error::MissingArgument { position: 0 }));
}

#[test]
fn required_int_mismatch_reports_position() {
    let args = vec![Value::Int(1), Value::Bool(true)];
    assert_eq!(
        req_int(&args, 1),
        Err(Error::TypeMismatch { expected: Expected::Exact(Tag::Int), actual: Tag::Bool, position: 1 })
    );
}

#[test]
fn channel_clamps_low() {
    let args = vec![Value::Int(-10)];
    assert_eq!(channel(&args, 0), Ok(0));
}

#[test]
fn channel_clamps_high() {
    let args = vec![Value::Int(300)];
    assert_eq!(channel(&args, 0), Ok(255));
}

#[test]
fn channel_keeps_in_range() {
    let args = vec![Value::Int(128)];
    assert_eq!(channel(&args, 0), Ok(128));
}

#[test]
fn optional_channel_absent() {
    let args = vec![];
    assert_eq!(opt_channel(&args, 0), Ok(None));
}

#[test]
fn optional_channel_null() {
    let args = vec![Value::Null];
    assert_eq!(opt_channel(&args, 0), Ok(None));
}

#[test]
fn optional_channel_clamped() {
    let args = vec![Value::Int(999)];
    assert_eq!(opt_channel(&args, 0), Ok(Some(255)));
}

#[test]
fn optional_bool_mismatch() {
    let args = vec![Value::Int(1)];
    assert_eq!(
        opt_bool(&args, 0),
        Err(Error::TypeMismatch { expected: Expected::Exact(Tag::Bool), actual: Tag::Int, position: 0 })
    );
}

#[test]
fn coordinate_clamps_into_signed_32_bits() {
    let args = vec![Value::Int(i64::MAX), Value::Int(i64::MIN)];
    assert_eq!(coord(&args, 0), Ok(i32::MAX));
    assert_eq!(coord(&args, 1), Ok(i32::MIN));
}

#[test]
fn coordinate_accepts_float_truncated_toward_zero() {
    let args = vec![float(3.9), float(-3.9)];
    assert_eq!(coord(&args, 0), Ok(3));
    assert_eq!(coord(&args, 1), Ok(-3));
}

#[test]
fn coordinate_rejects_string() {
    let args = vec![Value::Str("x".to_string())];
    assert_eq!(
        coord(&args, 0),
        Err(Error::TypeMismatch { expected: Expected::Numeric, actual: Tag::Str, position: 0 })
    );
}

#[test]
fn extent_clamps_negative_to_zero() {
    let args = vec![Value::Int(-5)];
    assert_eq!(extent(&args, 0), Ok(0));
}

#[test]
fn extent_clamps_to_unsigned_32_bits() {
    let args = vec![Value::Int(i64::MAX)];
    assert_eq!(extent(&args, 0), Ok(u32::MAX));
}

#[test]
fn window_size_zero_is_out_of_range() {
    let args = vec![Value::Int(0)];
    assert_eq!(req_size(&args, 0), Err(Error::OutOfRange { position: 0 }));
}

#[test]
fn window_size_too_large_is_out_of_range() {
    let args = vec![Value::Int(u32::MAX as i64 + 1)];
    assert_eq!(req_size(&args, 0), Err(Error::OutOfRange { position: 0 }));
}

#[test]
fn window_size_in_range() {
    let args = vec![Value::Int(800)];
    assert_eq!(req_size(&args, 0), Ok(800));
}
