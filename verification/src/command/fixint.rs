//! Fixed-width little-endian integers in command payloads.
//!
//! The integers are laid out by `bincode`, configured for little-endian
//! byte order and fixed-width integers. What is believed of it is stated on
//! `encode_u16` and `decode_u32`; everything else here is proved from that.

use crate::command::de::Error;
use vstd::prelude::*;

verus! {

#[verifier::external_type_specification]
#[verifier::external_body]
pub struct ExEncodeError(bincode::error::EncodeError);

#[verifier::external_type_specification]
#[verifier::external_body]
pub struct ExDecodeError(bincode::error::DecodeError);

/// The two bytes of a `u16`, least significant first.
pub open spec fn spec_u16_bytes(value: u16) -> Seq<u8> {
    seq![(value % 256) as u8, (value / 256) as u8]
}

/// The `u32` that four bytes hold, least significant first.
pub open spec fn spec_u32_value(bytes: Seq<u8>) -> u32 {
    (bytes[0] + 0x100 * bytes[1] + 0x1_0000 * bytes[2] + 0x100_0000 * bytes[3]) as u32
}

/// What a payload that must be exactly one `u32` decodes to.
pub open spec fn spec_deserialize_u32(data_frame: Seq<u8>) -> Result<u32, Error> {
    if data_frame.len() == 4 {
        Ok(spec_u32_value(data_frame))
    } else {
        Err(Error::UnexpectedEOF)
    }
}

/// Calls `bincode::encode_to_vec` on a `u16`, with little-endian byte order
/// and fixed-width integers. Believed of it: the call succeeds, and gives the
/// two bytes of the value, least significant first.
#[verifier::external_body]
fn encode_u16(value: u16) -> (encoded: Result<Vec<u8>, bincode::error::EncodeError>)
    ensures
        encoded is Ok,
        encoded->Ok_0@ == spec_u16_bytes(value),
{
    bincode::encode_to_vec(
        value,
        bincode::config::standard().with_little_endian().with_fixed_int_encoding(),
    )
}

/// Calls `bincode::decode_from_slice` for a `u32`, with little-endian byte
/// order and fixed-width integers. Believed of it: on fewer than four bytes
/// the call fails; else it gives the value that the first four bytes hold,
/// least significant first, and 4 as the number of bytes read.
#[verifier::external_body]
fn decode_u32(data: &[u8]) -> (decoded: Result<(u32, usize), bincode::error::DecodeError>)
    ensures
        decoded is Ok <==> data@.len() >= 4,
        decoded is Ok ==> decoded->Ok_0.0 == spec_u32_value(data@.take(4)),
        decoded is Ok ==> decoded->Ok_0.1 == 4,
{
    bincode::decode_from_slice(
        data,
        bincode::config::standard().with_little_endian().with_fixed_int_encoding(),
    )
}

/// The bytes of `value` as a payload field.
pub fn serialize_bincode(value: u16) -> (bytes: Vec<u8>)
    ensures
        bytes@ == spec_u16_bytes(value),
{
    encode_u16(value).unwrap()
}

/// Decodes a payload that must be exactly one `u32`: a payload that is too
/// short, or that holds more than the value, is `UnexpectedEOF`.
pub fn deserialize_bincode(data_frame: Vec<u8>) -> (value: Result<u32, Error>)
    ensures
        value == spec_deserialize_u32(data_frame@),
{
    match decode_u32(data_frame.as_slice()) {
        Err(_) => Err(Error::UnexpectedEOF),
        Ok((value, len)) => {
            if len != data_frame.len() {
                return Err(Error::UnexpectedEOF);
            }
            assert(data_frame@.take(4) == data_frame@);
            Ok(value)
        },
    }
}

} // verus!
