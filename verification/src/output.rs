//! Outputs: the check of the caller's identifier and the conversion of the
//! caller's slice, up to the point where the node transmits, and the status
//! that the caller gets afterwards.

use crate::data::{ArrowData, ArrowValues, Float32Bits, ToArrow};
use vstd::prelude::*;
use vstd::utf8::{decode_utf8, encode_utf8, encode_utf8_decode_utf8, valid_utf8};

verus! {

/// Trusted: lets `core::str::Utf8Error` stand in signatures. Verus sees
/// nothing inside it.
#[verifier::external_type_specification]
#[verifier::external_body]
pub struct ExUtf8Error(core::str::Utf8Error);

/// Trusted specification of `core::str::from_utf8`: it succeeds exactly on
/// well-formed UTF-8, and the string slice it gives then has the given bytes.
pub assume_specification[ core::str::from_utf8 ](v: &[u8]) -> (decoded: Result<
    &str,
    core::str::Utf8Error,
>)
    ensures
        decoded is Ok <==> valid_utf8(v@),
        decoded matches Ok(text) ==> encode_utf8(text@) == v@,
;

/// Why an output was not sent.
#[derive(Clone, Copy, Debug, PartialEq, Eq, Structural)]
pub enum SendError {
    /// The identifier is not well-formed UTF-8.
    InvalidUtf8,
    /// The node could not transmit the output.
    Transport,
}

/// An output that is ready for the node to transmit: the identifier as an
/// owned string and the data as an array of its own. Neither aliases the
/// caller's memory.
pub struct Output {
    pub id: String,
    pub data: ArrowData,
}

/// The status that tells success.
pub const STATUS_OK: isize = 0;

/// The status that tells failure.
pub const STATUS_FAILED: isize = -1;

/// The status that the caller gets for the way a send ended.
pub open spec fn send_status_spec(result: Result<(), SendError>) -> isize {
    match result {
        Ok(()) => STATUS_OK,
        Err(_) => STATUS_FAILED,
    }
}

/// What is made ready for an identifier given as bytes: whether the identifier
/// is accepted and, if so, the characters it names. The data is converted as
/// [`ToArrow::to_arrow_spec`] says.
pub open spec fn checked_id(id: Seq<u8>) -> Result<Seq<char>, SendError> {
    if valid_utf8(id) {
        Ok(decode_utf8(id))
    } else {
        Err(SendError::InvalidUtf8)
    }
}

/// Makes an output ready: decodes the identifier into an owned string and
/// copies the slice into an array of its element type. An identifier that is
/// not well-formed UTF-8 is refused, and then nothing is converted.
pub fn try_send_output<T: ToArrow>(id: &[u8], data: T) -> (prepared: Result<Output, SendError>)
    ensures
        match prepared {
            Ok(output) => checked_id(id@) == Ok::<Seq<char>, SendError>(output.id@)
                && output.data@ == data.to_arrow_spec(),
            Err(error) => checked_id(id@) == Err::<Seq<char>, SendError>(error),
        },
        prepared matches Ok(output) ==> encode_utf8(output.id@) == id@,
{
    match core::str::from_utf8(id) {
        Ok(text) => {
            proof {
                encode_utf8_decode_utf8(text@);
            }
            Ok(Output { id: text.to_owned(), data: data.to_arrow() })
        },
        Err(_) => Err(SendError::InvalidUtf8),
    }
}

/// Makes an output of unsigned bytes ready for the node to transmit.
pub fn dora_send_output_u8(id: &[u8], data: &[u8]) -> (prepared: Result<Output, SendError>)
    ensures
        match prepared {
            Ok(output) => checked_id(id@) == Ok::<Seq<char>, SendError>(output.id@)
                && output.data@ == ArrowValues::UInt8(data@),
            Err(error) => checked_id(id@) == Err::<Seq<char>, SendError>(error),
        },
        prepared matches Ok(output) ==> encode_utf8(output.id@) == id@,
{
    try_send_output(id, data)
}

/// Makes an output of signed 32-bit integers ready for the node to transmit.
pub fn dora_send_output_i32(id: &[u8], data: &[i32]) -> (prepared: Result<Output, SendError>)
    ensures
        match prepared {
            Ok(output) => checked_id(id@) == Ok::<Seq<char>, SendError>(output.id@)
                && output.data@ == ArrowValues::Int32(data@),
            Err(error) => checked_id(id@) == Err::<Seq<char>, SendError>(error),
        },
        prepared matches Ok(output) ==> encode_utf8(output.id@) == id@,
{
    try_send_output(id, data)
}

/// Makes an output of 32-bit floats, given by their IEEE 754 bit patterns,
/// ready for the node to transmit.
pub fn dora_send_output_f32(id: &[u8], data: &[u32]) -> (prepared: Result<Output, SendError>)
    ensures
        match prepared {
            Ok(output) => checked_id(id@) == Ok::<Seq<char>, SendError>(output.id@)
                && output.data@ == ArrowValues::Float32(data@),
            Err(error) => checked_id(id@) == Err::<Seq<char>, SendError>(error),
        },
        prepared matches Ok(output) ==> encode_utf8(output.id@) == id@,
{
    try_send_output(id, Float32Bits { bits: data })
}

/// Makes an output of unsigned 64-bit integers ready for the node to transmit.
pub fn dora_send_output_u64(id: &[u8], data: &[u64]) -> (prepared: Result<Output, SendError>)
    ensures
        match prepared {
            Ok(output) => checked_id(id@) == Ok::<Seq<char>, SendError>(output.id@)
                && output.data@ == ArrowValues::UInt64(data@),
            Err(error) => checked_id(id@) == Err::<Seq<char>, SendError>(error),
        },
        prepared matches Ok(output) ==> encode_utf8(output.id@) == id@,
{
    try_send_output(id, data)
}

/// The status that the caller gets for the way a send ended: zero for
/// success, nonzero for any failure.
pub fn send_status(result: &Result<(), SendError>) -> (status: isize)
    ensures
        status == send_status_spec(*result),
{
    match result {
        Ok(()) => STATUS_OK,
        Err(_) => STATUS_FAILED,
    }
}

/// An identifier that is not well-formed UTF-8 ends the send with a nonzero
/// status, whatever the data is.
pub proof fn lemma_invalid_id_gives_nonzero_status(id: Seq<u8>)
    requires
        !valid_utf8(id),
    ensures
        checked_id(id) == Err::<Seq<char>, SendError>(SendError::InvalidUtf8),
        send_status_spec(Err(SendError::InvalidUtf8)) != 0,
{
}

/// The status is zero for success alone.
pub proof fn lemma_status_is_zero_for_success_alone(result: Result<(), SendError>)
    ensures
        send_status_spec(result) == 0 <==> result is Ok,
{
}

} // verus!
