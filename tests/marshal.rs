use rtlola_ffi::value::{
    is_nan, marshal_input, marshal_inputs, MarshalError, RTLolaInput, RTLolaValueData, TypedValue,
    TAG_BOOL, TAG_FLOAT, TAG_SIGNED, TAG_STRING, TAG_UNSIGNED,
};

fn input(tag: u32, word: u64, text: &[u8]) -> RTLolaInput {
    RTLolaInput {
        name: "x".to_string(),
        type_: tag,
        value: RTLolaValueData { word, text: text.to_vec() },
    }
}

fn float_input(f: f64) -> RTLolaInput {
    input(TAG_FLOAT, f.to_bits(), b"")
}

#[test]
fn unsigned_payload_marshals_unchanged() {
    assert!(matches!(marshal_input(&input(TAG_UNSIGNED, u64::MAX, b"")), Ok(TypedValue::Unsigned(u64::MAX))));
}

#[test]
fn signed_payload_reads_twos_complement() {
    let word = (-5i64) as u64;
    assert!(matches!(marshal_input(&input(TAG_SIGNED, word, b"")), Ok(TypedValue::Signed(-5))));
}

#[test]
fn bool_payload_reads_zero_as_false() {
    assert!(matches!(marshal_input(&input(TAG_BOOL, 0, b"")), Ok(TypedValue::Bool(false))));
    assert!(matches!(marshal_input(&input(TAG_BOOL, 1, b"")), Ok(TypedValue::Bool(true))));
}

#[test]
fn float_nan_payloads_are_rejected() {
    for bits in [f64::NAN.to_bits(), 0x7ff0_0000_0000_0001, 0xfff8_0000_0000_0000, u64::MAX] {
        assert!(is_nan(bits));
        assert!(matches!(marshal_input(&input(TAG_FLOAT, bits, b"")), Err(MarshalError::InvalidFloat)));
    }
}

#[test]
fn float_non_nan_payloads_are_accepted() {
    for f in [0.0, -0.0, 1.5, -2.25, f64::MAX, f64::MIN_POSITIVE, f64::INFINITY, f64::NEG_INFINITY] {
        let r = marshal_input(&float_input(f));
        assert!(matches!(r, Ok(TypedValue::Float(b)) if b == f.to_bits()));
    }
}

#[test]
fn unknown_tag_is_rejected() {
    assert!(matches!(marshal_input(&input(5, 0, b"")), Err(MarshalError::InvalidTag)));
    assert!(matches!(marshal_input(&input(u32::MAX, 0, b"")), Err(MarshalError::InvalidTag)));
}

#[test]
fn valid_text_is_copied() {
    let r = marshal_input(&input(TAG_STRING, 0, "héllo".as_bytes()));
    assert!(matches!(r, Ok(TypedValue::Str(ref s)) if s == "héllo"));
}

#[test]
fn malformed_text_is_rejected() {
    assert!(matches!(marshal_input(&input(TAG_STRING, 0, &[0x66, 0xff, 0x66])), Err(MarshalError::InvalidString)));
    assert!(matches!(marshal_input(&input(TAG_STRING, 0, &[0xed, 0xa0, 0x80])), Err(MarshalError::InvalidString)));
}

#[test]
fn batch_reports_first_failure() {
    let batch = vec![float_input(1.0), input(9, 0, b""), float_input(f64::NAN)];
    assert!(matches!(marshal_inputs(&batch), Err(MarshalError::InvalidTag)));
}

#[test]
fn batch_keeps_order() {
    let batch = vec![float_input(1.5), input(TAG_UNSIGNED, 7, b""), input(TAG_STRING, 0, b"ok")];
    let vs = marshal_inputs(&batch).unwrap();
    assert_eq!(vs.len(), 3);
    assert!(matches!(vs[0], TypedValue::Float(b) if b == 1.5f64.to_bits()));
    assert!(matches!(vs[1], TypedValue::Unsigned(7)));
    assert!(matches!(vs[2], TypedValue::Str(ref s) if s == "ok"));
}
