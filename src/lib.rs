//! Marshaling between a sandboxed guest and its host.
//!
//! The result encoder turns one native value into a self-describing result
//! buffer and hands it over in an ownership-transferring handle; the host
//! return decoder checks the kind of the latest host-call response and
//! extracts a value of the kind the caller asked for.
pub mod encode;
pub mod ffi_vec;
pub mod host_return;

pub use encode::{
    hl_flatbuffer_result_from_Bytes, hl_flatbuffer_result_from_Int, hl_flatbuffer_result_from_Long,
    hl_flatbuffer_result_from_String, hl_flatbuffer_result_from_UInt, hl_flatbuffer_result_from_ULong,
    hl_flatbuffer_result_from_Void, string_result, MAX_PAYLOAD_LEN,
};
pub use ffi_vec::FfiVec;
pub use host_return::{
    hl_get_host_return_value_as_Int, hl_get_host_return_value_as_Long,
    hl_get_host_return_value_as_UInt, hl_get_host_return_value_as_ULong, host_return_as_int,
    host_return_as_long, host_return_as_uint, host_return_as_ulong, HostValue,
};
