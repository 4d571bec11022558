use guest_capi::{
    hl_flatbuffer_result_from_Bytes, hl_flatbuffer_result_from_Int, hl_flatbuffer_result_from_Long,
    hl_flatbuffer_result_from_String, hl_flatbuffer_result_from_UInt,
    hl_flatbuffer_result_from_ULong, hl_flatbuffer_result_from_Void, string_result, FfiVec,
};
use hyperlight_common::flatbuffer_wrappers::function_types::{FunctionCallResult, ReturnValue};

fn decode(handle: Box<FfiVec>) -> ReturnValue {
    let bytes = handle.into_vec();
    FunctionCallResult::try_from(bytes.as_slice())
        .expect("a well-formed result buffer")
        .into_inner()
        .expect("a value, not an error")
}

fn checksum(bytes: &[u8]) -> u64 {
    let mut sum: u64 = 0;
    for (i, b) in bytes.iter().enumerate() {
        sum = sum.wrapping_mul(31).wrapping_add((*b as u64) ^ (i as u64));
    }
    sum
}

#[test]
fn int_round_trips() {
    for v in [-1i32, 0, 2147483647, i32::MIN] {
        assert_eq!(decode(hl_flatbuffer_result_from_Int(v)), ReturnValue::Int(v));
    }
}

#[test]
fn uint_round_trips() {
    for v in [0u32, 7, u32::MAX] {
        assert_eq!(decode(hl_flatbuffer_result_from_UInt(v)), ReturnValue::UInt(v));
    }
}

#[test]
fn long_round_trips() {
    for v in [i64::MIN, -1i64, 0, i64::MAX] {
        assert_eq!(decode(hl_flatbuffer_result_from_Long(v)), ReturnValue::Long(v));
    }
}

#[test]
fn ulong_round_trips() {
    for v in [0u64, 18446744073709551615] {
        assert_eq!(decode(hl_flatbuffer_result_from_ULong(v)), ReturnValue::ULong(v));
    }
}

#[test]
fn void_decodes_to_no_value() {
    assert_eq!(decode(hl_flatbuffer_result_from_Void()), ReturnValue::Void(()));
}

#[test]
fn string_round_trips() {
    let handle = hl_flatbuffer_result_from_String(b"hello").expect("short text is encoded");
    assert_eq!(decode(handle), ReturnValue::String("hello".to_string()));
}

#[test]
fn empty_string_round_trips() {
    let handle = hl_flatbuffer_result_from_String(b"").expect("empty text is encoded");
    assert_eq!(decode(handle), ReturnValue::String(String::new()));
}

#[test]
fn invalid_utf8_is_replaced_not_refused() {
    let input: &[u8] = &[b'a', 0xff, b'b', 0xc3];
    let handle = hl_flatbuffer_result_from_String(input).expect("invalid text is still encoded");
    assert_eq!(decode(handle), ReturnValue::String("a\u{fffd}b\u{fffd}".to_string()));
}

#[test]
fn multibyte_text_round_trips() {
    let text = "grüße, 世界";
    let handle = hl_flatbuffer_result_from_String(text.as_bytes()).expect("valid text");
    assert_eq!(decode(handle), ReturnValue::String(text.to_string()));
    assert_eq!(decode(string_result(text)), ReturnValue::String(text.to_string()));
}

#[test]
fn empty_bytes_round_trip() {
    assert_eq!(decode(hl_flatbuffer_result_from_Bytes(&[])), ReturnValue::VecBytes(vec![]));
}

#[test]
fn bytes_round_trip_exactly() {
    let payload: Vec<u8> = (0..=255u8).chain([0, 0, 1, 2]).collect();
    assert_eq!(
        decode(hl_flatbuffer_result_from_Bytes(&payload)),
        ReturnValue::VecBytes(payload.clone())
    );
}

#[test]
fn encoding_leaves_inputs_unchanged() {
    let payload: Vec<u8> = vec![9, 8, 7, 0, 255, 1];
    let before = checksum(&payload);
    let _ = hl_flatbuffer_result_from_Bytes(&payload);
    assert_eq!(checksum(&payload), before);
    assert_eq!(payload, vec![9, 8, 7, 0, 255, 1]);

    let text: Vec<u8> = vec![b'h', 0xfe, b'i'];
    let before = checksum(&text);
    let _ = hl_flatbuffer_result_from_String(&text);
    assert_eq!(checksum(&text), before);
    assert_eq!(text, vec![b'h', 0xfe, b'i']);
}

#[test]
fn encoded_buffer_is_not_the_input() {
    let payload: Vec<u8> = vec![1, 2, 3];
    let handle = hl_flatbuffer_result_from_Bytes(&payload);
    assert!(handle.len() > payload.len());
    assert_ne!(handle.as_slice(), payload.as_slice());
}

#[test]
fn encoding_is_deterministic() {
    assert_eq!(
        hl_flatbuffer_result_from_Int(42).into_vec(),
        hl_flatbuffer_result_from_Int(42).into_vec()
    );
    assert_ne!(
        hl_flatbuffer_result_from_Int(42).into_vec(),
        hl_flatbuffer_result_from_Int(43).into_vec()
    );
}

#[test]
fn handle_gives_back_exactly_its_bytes() {
    let bytes = vec![5u8, 4, 3, 2, 1];
    let handle = Box::new(FfiVec::from_vec(bytes.clone()));
    assert_eq!(handle.len(), 5);
    assert!(!handle.is_empty());
    assert_eq!(handle.as_slice(), bytes.as_slice());
    assert_eq!(handle.into_vec(), bytes);
    assert!(FfiVec::from_vec(Vec::new()).is_empty());
}
