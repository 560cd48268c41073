//! The reserved address by which the device refuses a command it does not
//! know.

use crate::command::de;
use crate::command::{Command, CommandID, CommandType, Subsystem};
use vstd::prelude::*;

verus! {

/// Why the device refused a command.
#[derive(Debug, Clone, Copy, PartialEq, Eq, Structural)]
pub enum ErrorCode {
    Subsystem,
    CommandID,
    Parameter,
    Length,
}

impl View for ErrorCode {
    type V = ErrorCode;

    open spec fn view(&self) -> ErrorCode {
        *self
    }
}

impl ErrorCode {
    /// The code as it appears on the wire.
    pub open spec fn spec_to_u8(self) -> u8 {
        match self {
            ErrorCode::Subsystem => 0x01,
            ErrorCode::CommandID => 0x02,
            ErrorCode::Parameter => 0x03,
            ErrorCode::Length => 0x04,
        }
    }

    #[verifier::when_used_as_spec(spec_to_u8)]
    pub fn to_u8(self) -> (code: u8)
        ensures
            code == self.spec_to_u8(),
    {
        match self {
            ErrorCode::Subsystem => 0x01,
            ErrorCode::CommandID => 0x02,
            ErrorCode::Parameter => 0x03,
            ErrorCode::Length => 0x04,
        }
    }

    /// The code that a wire byte stands for, if any.
    pub open spec fn spec_from_u8(code: u8) -> Option<ErrorCode> {
        if code == 0x01 {
            Some(ErrorCode::Subsystem)
        } else if code == 0x02 {
            Some(ErrorCode::CommandID)
        } else if code == 0x03 {
            Some(ErrorCode::Parameter)
        } else if code == 0x04 {
            Some(ErrorCode::Length)
        } else {
            None
        }
    }

    #[verifier::when_used_as_spec(spec_from_u8)]
    pub fn from_u8(code: u8) -> (error_code: Option<ErrorCode>)
        ensures
            error_code == Self::spec_from_u8(code),
    {
        if code == 0x01 {
            Some(ErrorCode::Subsystem)
        } else if code == 0x02 {
            Some(ErrorCode::CommandID)
        } else if code == 0x03 {
            Some(ErrorCode::Parameter)
        } else if code == 0x04 {
            Some(ErrorCode::Length)
        } else {
            None
        }
    }

    /// What the payload of a refusal decodes to: the code held by its single
    /// byte. A payload of any other length, or one holding no known code, is
    /// `UnexpectedEOF`.
    pub open spec fn spec_from_payload(data: Seq<u8>) -> Result<ErrorCode, de::Error> {
        if data.len() != 1 {
            Err(de::Error::UnexpectedEOF)
        } else {
            match Self::spec_from_u8(data[0]) {
                Some(error_code) => Ok(error_code),
                None => Err(de::Error::UnexpectedEOF),
            }
        }
    }

    pub fn from_payload(data: &Vec<u8>) -> (decoded: Result<ErrorCode, de::Error>)
        ensures
            decoded == Self::spec_from_payload(data@),
    {
        if data.len() != 1 {
            return Err(de::Error::UnexpectedEOF);
        }
        match ErrorCode::from_u8(data[0]) {
            Some(error_code) => Ok(error_code),
            None => Err(de::Error::UnexpectedEOF),
        }
    }
}

/// The direction in which a refusal travels.
pub open spec fn spec_not_found_type() -> CommandType {
    CommandType::SRSP
}

/// The address that a refusal is answered from.
pub open spec fn spec_not_found_id() -> CommandID {
    CommandID { subsystem: Subsystem::Reserved, id: 0x00 }
}

/// The response by which the device refuses a command. It is never sent; it
/// only names the address and the payload of the refusal.
#[derive(Default, Debug, Clone)]
pub struct CommandNotFound {}

impl Command for CommandNotFound {
    open spec fn spec_id() -> CommandID {
        spec_not_found_id()
    }

    fn id() -> (id: CommandID) {
        CommandID { subsystem: Subsystem::Reserved, id: 0x00 }
    }
}

impl de::Command for CommandNotFound {
    type Output = ErrorCode;

    open spec fn spec_response_type() -> CommandType {
        spec_not_found_type()
    }

    fn response_type() -> (kind: CommandType) {
        CommandType::SRSP
    }

    open spec fn spec_to_output(&self, data_frame: Seq<u8>) -> Result<ErrorCode, de::Error> {
        ErrorCode::spec_from_payload(data_frame)
    }

    fn to_output(&self, data_frame: Vec<u8>) -> (output: Result<ErrorCode, de::Error>) {
        let output = ErrorCode::from_payload(&data_frame);
        assert(de::spec_result_view(output) == output);
        output
    }
}

} // verus!
