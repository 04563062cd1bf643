//! Boolean fields that also accept the legacy integer encoding.
use vstd::prelude::*;

use crate::error::CodecError;

verus! {

/// The kind of a wire value, as far as a boolean field reads it.
#[derive(Debug, Clone, Copy, PartialEq, Eq, Structural)]
pub enum WireValue {
    /// A native boolean.
    Bool(bool),
    /// A non-negative integer.
    UInt(u64),
    /// Any other value: a string, a negative or fractional number, null, an
    /// array or an object.
    Other,
}

/// What a boolean field makes of a wire value.
pub open spec fn decoded_bool(v: WireValue) -> Result<bool, CodecError> {
    match v {
        WireValue::Bool(b) => Ok(b),
        WireValue::UInt(n) => Ok(n != 0),
        WireValue::Other => Err(CodecError::InvalidBoolean),
    }
}

/// Reads a boolean field: a boolean passes through, `0` is false and any
/// other non-negative integer is true; every other kind of value fails.
pub fn decode_bool(v: WireValue) -> (r: Result<bool, CodecError>)
    ensures
        r == decoded_bool(v),
{
    match v {
        WireValue::Bool(b) => Ok(b),
        WireValue::UInt(n) => Ok(n != 0),
        WireValue::Other => Err(CodecError::InvalidBoolean),
    }
}

/// Writes a boolean field: always the native boolean, which reads back as
/// the same value.
pub fn encode_bool(b: bool) -> (r: WireValue)
    ensures
        r == WireValue::Bool(b),
        decoded_bool(r) == Ok::<bool, CodecError>(b),
{
    WireValue::Bool(b)
}

} // verus!
