use vstd::prelude::*;

verus! {

/// The value held by the latest host-call response, in plain values.
///
/// Floating-point results are carried by their IEEE 754 bit patterns.
pub enum HostValue {
    Int(i32),
    UInt(u32),
    Long(i64),
    ULong(u64),
    FloatBits(u32),
    DoubleBits(u64),
    String(String),
    Bool(bool),
    Void,
    VecBytes(Vec<u8>),
}

/// The `i32` a response holds, if it holds one.
pub open spec fn int_of(v: HostValue) -> Option<i32> {
    match v {
        HostValue::Int(x) => Some(x),
        _ => None,
    }
}

/// The `u32` a response holds, if it holds one.
pub open spec fn uint_of(v: HostValue) -> Option<u32> {
    match v {
        HostValue::UInt(x) => Some(x),
        _ => None,
    }
}

/// The `i64` a response holds, if it holds one.
pub open spec fn long_of(v: HostValue) -> Option<i64> {
    match v {
        HostValue::Long(x) => Some(x),
        _ => None,
    }
}

/// The `u64` a response holds, if it holds one.
pub open spec fn ulong_of(v: HostValue) -> Option<u64> {
    match v {
        HostValue::ULong(x) => Some(x),
        _ => None,
    }
}

/// Reads the response as an `i32`; `None` when it holds another kind.
pub fn host_return_as_int(response: &HostValue) -> (r: Option<i32>)
    ensures
        r == int_of(*response),
{
    match response {
        HostValue::Int(x) => Some(*x),
        _ => None,
    }
}

/// Reads the response as a `u32`; `None` when it holds another kind.
pub fn host_return_as_uint(response: &HostValue) -> (r: Option<u32>)
    ensures
        r == uint_of(*response),
{
    match response {
        HostValue::UInt(x) => Some(*x),
        _ => None,
    }
}

/// Reads the response as an `i64`; `None` when it holds another kind.
pub fn host_return_as_long(response: &HostValue) -> (r: Option<i64>)
    ensures
        r == long_of(*response),
{
    match response {
        HostValue::Long(x) => Some(*x),
        _ => None,
    }
}

/// Reads the response as a `u64`; `None` when it holds another kind.
pub fn host_return_as_ulong(response: &HostValue) -> (r: Option<u64>)
    ensures
        r == ulong_of(*response),
{
    match response {
        HostValue::ULong(x) => Some(*x),
        _ => None,
    }
}

/// The `i32` of a response that holds one. On any other response the guest
/// must stop: callers test with `host_return_as_int` first.
#[allow(non_snake_case)]
pub fn hl_get_host_return_value_as_Int(response: &HostValue) -> (r: i32)
    requires
        int_of(*response) is Some,
    ensures
        int_of(*response) == Some(r),
{
    host_return_as_int(response).unwrap()
}

/// The `u32` of a response that holds one. On any other response the guest
/// must stop: callers test with `host_return_as_uint` first.
#[allow(non_snake_case)]
pub fn hl_get_host_return_value_as_UInt(response: &HostValue) -> (r: u32)
    requires
        uint_of(*response) is Some,
    ensures
        uint_of(*response) == Some(r),
{
    host_return_as_uint(response).unwrap()
}

/// The `i64` of a response that holds one. On any other response the guest
/// must stop: callers test with `host_return_as_long` first.
#[allow(non_snake_case)]
pub fn hl_get_host_return_value_as_Long(response: &HostValue) -> (r: i64)
    requires
        long_of(*response) is Some,
    ensures
        long_of(*response) == Some(r),
{
    host_return_as_long(response).unwrap()
}

/// The `u64` of a response that holds one. On any other response the guest
/// must stop: callers test with `host_return_as_ulong` first.
#[allow(non_snake_case)]
pub fn hl_get_host_return_value_as_ULong(response: &HostValue) -> (r: u64)
    requires
        ulong_of(*response) is Some,
    ensures
        ulong_of(*response) == Some(r),
{
    host_return_as_ulong(response).unwrap()
}

/// A response that holds a value of one kind reads back as exactly that
/// value through the accessor of that kind.
pub proof fn accessors_read_back(i: i32, u: u32, l: i64, ul: u64)
    ensures
        int_of(HostValue::Int(i)) == Some(i),
        uint_of(HostValue::UInt(u)) == Some(u),
        long_of(HostValue::Long(l)) == Some(l),
        ulong_of(HostValue::ULong(ul)) == Some(ul),
{
}

/// No response is read as a value by the accessors of two different kinds:
/// an accessor whose kind the response does not hold yields nothing, never a
/// reinterpreted value.
pub proof fn kinds_are_isolated(v: HostValue)
    ensures
        int_of(v) is Some ==> uint_of(v) is None && long_of(v) is None && ulong_of(v) is None,
        uint_of(v) is Some ==> int_of(v) is None && long_of(v) is None && ulong_of(v) is None,
        long_of(v) is Some ==> int_of(v) is None && uint_of(v) is None && ulong_of(v) is None,
        ulong_of(v) is Some ==> int_of(v) is None && uint_of(v) is None && long_of(v) is None,
{
}

} // verus!
