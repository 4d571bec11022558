use crate::ffi_vec::FfiVec;
use vstd::prelude::*;
use vstd::string::StringSliceAdditionalSpecFns;
use vstd::utf8::{decode_utf8, encode_utf8, valid_utf8};

verus! {

/// The largest payload, in bytes, that one result buffer can carry: the
/// flatbuffer builder doubles its storage and refuses to grow past 2 GiB.
pub const MAX_PAYLOAD_LEN: usize = 1073741824;

/// The result buffer that hyperlight_common builds for an `i32`.
pub uninterp spec fn int_result_bytes(value: i32) -> Seq<u8>;

/// The result buffer that hyperlight_common builds for a `u32`.
pub uninterp spec fn uint_result_bytes(value: u32) -> Seq<u8>;

/// The result buffer that hyperlight_common builds for an `i64`.
pub uninterp spec fn long_result_bytes(value: i64) -> Seq<u8>;

/// The result buffer that hyperlight_common builds for a `u64`.
pub uninterp spec fn ulong_result_bytes(value: u64) -> Seq<u8>;

/// The result buffer that hyperlight_common builds for "no value".
pub uninterp spec fn void_result_bytes(value: ()) -> Seq<u8>;

/// The result buffer that hyperlight_common builds for a string.
pub uninterp spec fn string_result_bytes(value: Seq<char>) -> Seq<u8>;

/// The result buffer that hyperlight_common builds for a byte slice.
pub uninterp spec fn bytes_result_bytes(value: Seq<u8>) -> Seq<u8>;

/// The string that std's lossy UTF-8 decoding makes of some bytes.
pub uninterp spec fn lossy_utf8_of(bytes: Seq<u8>) -> Seq<char>;

/// Relies on hyperlight_common's get_flatbuffer_result for `i32`: a pure
/// function of the value.
#[verifier::external_body]
fn flatbuffer_result_int(value: i32) -> (r: Vec<u8>)
    ensures
        r@ == int_result_bytes(value),
{
    hyperlight_common::flatbuffer_wrappers::util::get_flatbuffer_result(value)
}

/// Relies on hyperlight_common's get_flatbuffer_result for `u32`: a pure
/// function of the value.
#[verifier::external_body]
fn flatbuffer_result_uint(value: u32) -> (r: Vec<u8>)
    ensures
        r@ == uint_result_bytes(value),
{
    hyperlight_common::flatbuffer_wrappers::util::get_flatbuffer_result(value)
}

/// Relies on hyperlight_common's get_flatbuffer_result for `i64`: a pure
/// function of the value.
#[verifier::external_body]
fn flatbuffer_result_long(value: i64) -> (r: Vec<u8>)
    ensures
        r@ == long_result_bytes(value),
{
    hyperlight_common::flatbuffer_wrappers::util::get_flatbuffer_result(value)
}

/// Relies on hyperlight_common's get_flatbuffer_result for `u64`: a pure
/// function of the value.
#[verifier::external_body]
fn flatbuffer_result_ulong(value: u64) -> (r: Vec<u8>)
    ensures
        r@ == ulong_result_bytes(value),
{
    hyperlight_common::flatbuffer_wrappers::util::get_flatbuffer_result(value)
}

/// Relies on hyperlight_common's get_flatbuffer_result for `()`: always the
/// same buffer.
#[verifier::external_body]
fn flatbuffer_result_void() -> (r: Vec<u8>)
    ensures
        r@ == void_result_bytes(()),
{
    hyperlight_common::flatbuffer_wrappers::util::get_flatbuffer_result(())
}

/// Relies on hyperlight_common's get_flatbuffer_result for `&str`: a pure
/// function of the characters. The flatbuffer builder panics once its storage
/// would pass 2 GiB, hence the bound.
#[verifier::external_body]
fn flatbuffer_result_str(value: &str) -> (r: Vec<u8>)
    requires
        value.spec_bytes().len() <= MAX_PAYLOAD_LEN,
    ensures
        r@ == string_result_bytes(value@),
{
    hyperlight_common::flatbuffer_wrappers::util::get_flatbuffer_result(value)
}

/// Relies on hyperlight_common's get_flatbuffer_result for `&[u8]`: a pure
/// function of the bytes. The flatbuffer builder panics once its storage
/// would pass 2 GiB, hence the bound.
#[verifier::external_body]
fn flatbuffer_result_bytes(value: &[u8]) -> (r: Vec<u8>)
    requires
        value@.len() <= MAX_PAYLOAD_LEN,
    ensures
        r@ == bytes_result_bytes(value@),
{
    hyperlight_common::flatbuffer_wrappers::util::get_flatbuffer_result(value)
}

/// Relies on std's String::from_utf8_lossy: a pure function of the bytes,
/// which leaves valid UTF-8 as it decodes.
#[verifier::external_body]
fn utf8_lossy(bytes: &[u8]) -> (r: String)
    ensures
        r@ == lossy_utf8_of(bytes@),
        valid_utf8(bytes@) ==> r@ == decode_utf8(bytes@),
{
    String::from_utf8_lossy(bytes).into_owned()
}

/// Encodes an `i32` result and hands the buffer over.
#[allow(non_snake_case)]
pub fn hl_flatbuffer_result_from_Int(value: i32) -> (r: Box<FfiVec>)
    ensures
        r@ == int_result_bytes(value),
{
    Box::new(FfiVec::from_vec(flatbuffer_result_int(value)))
}

/// Encodes a `u32` result and hands the buffer over.
#[allow(non_snake_case)]
pub fn hl_flatbuffer_result_from_UInt(value: u32) -> (r: Box<FfiVec>)
    ensures
        r@ == uint_result_bytes(value),
{
    Box::new(FfiVec::from_vec(flatbuffer_result_uint(value)))
}

/// Encodes an `i64` result and hands the buffer over.
#[allow(non_snake_case)]
pub fn hl_flatbuffer_result_from_Long(value: i64) -> (r: Box<FfiVec>)
    ensures
        r@ == long_result_bytes(value),
{
    Box::new(FfiVec::from_vec(flatbuffer_result_long(value)))
}

/// Encodes a `u64` result and hands the buffer over.
#[allow(non_snake_case)]
pub fn hl_flatbuffer_result_from_ULong(value: u64) -> (r: Box<FfiVec>)
    ensures
        r@ == ulong_result_bytes(value),
{
    Box::new(FfiVec::from_vec(flatbuffer_result_ulong(value)))
}

/// Encodes the canonical "no value" result and hands the buffer over.
#[allow(non_snake_case)]
pub fn hl_flatbuffer_result_from_Void() -> (r: Box<FfiVec>)
    ensures
        r@ == void_result_bytes(()),
{
    Box::new(FfiVec::from_vec(flatbuffer_result_void()))
}

/// Encodes a string result and hands the buffer over.
pub fn string_result(value: &str) -> (r: Box<FfiVec>)
    requires
        value.spec_bytes().len() <= MAX_PAYLOAD_LEN,
    ensures
        r@ == string_result_bytes(value@),
{
    Box::new(FfiVec::from_vec(flatbuffer_result_str(value)))
}

/// Encodes the text of a C string, given as its bytes before the terminating
/// NUL, and hands the buffer over.
///
/// Invalid UTF-8 is never refused: each invalid sequence becomes U+FFFD. The
/// result is `None` only where the decoded text is longer than one result
/// buffer can carry.
#[allow(non_snake_case)]
pub fn hl_flatbuffer_result_from_String(value: &[u8]) -> (r: Option<Box<FfiVec>>)
    ensures
        r is Some <==> encode_utf8(lossy_utf8_of(value@)).len() <= MAX_PAYLOAD_LEN,
        r matches Some(h) ==> h@ == string_result_bytes(lossy_utf8_of(value@)),
        valid_utf8(value@) ==> lossy_utf8_of(value@) == decode_utf8(value@),
{
    let text = utf8_lossy(value);
    let s = text.as_str();
    if s.as_bytes().len() <= MAX_PAYLOAD_LEN {
        Some(string_result(s))
    } else {
        None
    }
}

/// Encodes a byte slice result and hands the buffer over. The slice is only
/// borrowed: its bytes are copied into the new buffer.
#[allow(non_snake_case)]
pub fn hl_flatbuffer_result_from_Bytes(data: &[u8]) -> (r: Box<FfiVec>)
    requires
        data@.len() <= MAX_PAYLOAD_LEN,
    ensures
        r@ == bytes_result_bytes(data@),
{
    Box::new(FfiVec::from_vec(flatbuffer_result_bytes(data)))
}

} // verus!
