//! The receiving side of a command: which frame answers it, and what the
//! answer's payload means.

use crate::command::reserved::{spec_not_found_id, spec_not_found_type, ErrorCode};
use crate::command::{
    spec_direction_bits, spec_subsystem_bits, CommandID, CommandType, Subsystem,
    COMMAND_TYPE_FLAG, SUBSYSTEM_FLAG,
};
use vstd::prelude::*;

verus! {

/// Why a frame body was not accepted as the answer to a command.
#[derive(Debug, Clone, PartialEq, Eq)]
#[allow(inconsistent_fields)]
pub enum Error {
    Unknown,
    /// The input ended before the value was complete.
    UnexpectedEOF,
    /// The frame travels in another direction than the answer does.
    MismatchedType { expected: CommandType, actual: u8 },
    /// The frame belongs to another command.
    MismatchedID { expected: [u8; 2], actual: [u8; 2] },
    Parse(Vec<u8>),
    /// The device refused the command.
    CommandNotFound { error_code: ErrorCode },
}

/// A decoding result with its output replaced by the output's view.
pub open spec fn spec_result_view<T: View>(result: Result<T, Error>) -> Result<T::V, Error> {
    match result {
        Ok(output) => Ok(output@),
        Err(error) => Err(error),
    }
}

/// Whether a header is that of the device's refusal.
pub open spec fn spec_is_not_found(direction: u8, subsystem: u8, id: u8) -> bool {
    &&& direction == spec_not_found_type().spec_to_u8()
    &&& seq![subsystem, id] == spec_not_found_id().spec_to_cmd()
}

/// The error that the header of a received frame body gives to someone who
/// waits for an answer of direction `response_type` from address `id`, or
/// `None` where the header lets the payload decide. The checks are made in
/// this order, and the first that fails decides:
///
/// 1. a body too short to hold its length and address bytes is
///    `UnexpectedEOF`;
/// 2. the device's refusal is `CommandNotFound` with the code of its payload
///    (or the error that the payload gives);
/// 3. another direction than the answer's is `MismatchedType`;
/// 4. another address than the command's is `MismatchedID`.
pub open spec fn spec_rejection(response_type: CommandType, id: CommandID, input: Seq<u8>) -> Option<
    Error,
> {
    if input.len() < 3 {
        Some(Error::UnexpectedEOF)
    } else {
        let direction = spec_direction_bits(input[1]);
        let subsystem = spec_subsystem_bits(input[1]);
        if spec_is_not_found(direction, subsystem, input[2]) {
            match ErrorCode::spec_from_payload(input.skip(3)) {
                Ok(error_code) => Some(Error::CommandNotFound { error_code }),
                Err(error) => Some(error),
            }
        } else if direction != response_type.spec_to_u8() {
            Some(Error::MismatchedType { expected: response_type, actual: direction })
        } else if seq![subsystem, input[2]] != id.spec_to_cmd() {
            Some(
                Error::MismatchedID {
                    expected: [id.subsystem.spec_to_u8(), id.id],
                    actual: [subsystem, input[2]],
                },
            )
        } else {
            None
        }
    }
}

/// The device's refusal comes first: a frame body whose header is that of the
/// refusal is never taken for a frame of another direction or of another
/// command, whatever answer is awaited. It is `CommandNotFound` with the code
/// that its payload holds, or the error that its payload gives.
pub proof fn lemma_refusal_comes_first(response_type: CommandType, id: CommandID, input: Seq<u8>)
    requires
        input.len() >= 3,
        spec_is_not_found(
            spec_direction_bits(input[1]),
            spec_subsystem_bits(input[1]),
            input[2],
        ),
    ensures
        spec_rejection(response_type, id, input) == Some(
            match ErrorCode::spec_from_payload(input.skip(3)) {
                Ok(error_code) => Error::CommandNotFound { error_code },
                Err(error) => error,
            },
        ),
        input.len() == 4 && ErrorCode::spec_from_u8(input[3]) is Some ==> spec_rejection(
            response_type,
            id,
            input,
        ) == Some(Error::CommandNotFound { error_code: ErrorCode::spec_from_u8(input[3])->0 }),
{
}

/// What a received frame body means to someone who waits for the answer to
/// `command`: the error that its header gives, else what its payload decodes
/// to.
pub open spec fn spec_deserialize<C: Command + ?Sized>(command: &C, input: Seq<u8>) -> Result<
    <C::Output as View>::V,
    Error,
> {
    match spec_rejection(C::spec_response_type(), C::spec_id(), input) {
        Some(error) => Err(error),
        None => command.spec_to_output(input.skip(3)),
    }
}

/// A command that is answered.
pub trait Command: crate::command::Command {
    /// What the answer's payload decodes to.
    type Output: View;

    /// The direction in which the answer travels.
    spec fn spec_response_type() -> CommandType;

    /// What a payload decodes to.
    spec fn spec_to_output(&self, data_frame: Seq<u8>) -> Result<<Self::Output as View>::V, Error>;

    fn response_type() -> (kind: CommandType)
        ensures
            kind == Self::spec_response_type(),
    ;

    /// Decodes the payload of an answer.
    fn to_output(&self, data_frame: Vec<u8>) -> (output: Result<Self::Output, Error>)
        ensures
            spec_result_view(output) == self.spec_to_output(data_frame@),
    ;

    /// Decodes a received frame body as the answer to this command.
    fn deserialize(&self, input: Vec<u8>) -> (output: Result<Self::Output, Error>)
        ensures
            spec_result_view(output) == (match spec_rejection(
                Self::spec_response_type(),
                Self::spec_id(),
                input@,
            ) {
                Some(error) => Err(error),
                None => self.spec_to_output(input@.skip(3)),
            }),
    {
        let mut input = input;
        if input.len() < 3 {
            return Err(Error::UnexpectedEOF);
        }
        let cmd0: u8 = input[1];
        let id: u8 = input[2];
        let data_frame = input.split_off(3);
        let direction: u8 = cmd0 & COMMAND_TYPE_FLAG;
        let subsystem: u8 = cmd0 & SUBSYSTEM_FLAG;
        if direction == CommandType::SRSP.to_u8() && subsystem == Subsystem::Reserved.to_u8() && id
            == 0x00 {
            return match ErrorCode::from_payload(&data_frame) {
                Ok(error_code) => Err(Error::CommandNotFound { error_code }),
                Err(error) => Err(error),
            };
        }
        let expected_type = Self::response_type();
        if direction != expected_type.to_u8() {
            return Err(Error::MismatchedType { expected: expected_type, actual: direction });
        }
        let expected = Self::id().to_cmd();
        if subsystem != expected[0] || id != expected[1] {
            let actual: [u8; 2] = [subsystem, id];
            assert(expected =~= [Self::spec_id().subsystem.spec_to_u8(), Self::spec_id().id]);
            assert(actual =~= [subsystem, id]);
            return Err(Error::MismatchedID { expected, actual });
        }
        self.to_output(data_frame)
    }
}

} // verus!
