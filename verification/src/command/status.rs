//! The status byte with which the device answers an operation.

use vstd::prelude::*;

verus! {

/// Outcome of an operation on the device.
#[derive(Debug, Clone, Copy, PartialEq, Eq, Structural)]
pub enum Status {
    Success,
    Failure,
    InvalidParameter,
    NvItemInitialized,
    NvOperationFailed,
    NvBadItemLength,
    MemoryError,
    BufferFull,
    UnsupportedMode,
    MacMemoryError,
}

impl View for Status {
    type V = Status;

    open spec fn view(&self) -> Status {
        *self
    }
}

impl Status {
    /// The status as it appears on the wire.
    pub open spec fn spec_to_u8(self) -> u8 {
        match self {
            Status::Success => 0x00,
            Status::Failure => 0x01,
            Status::InvalidParameter => 0x02,
            Status::NvItemInitialized => 0x09,
            Status::NvOperationFailed => 0x0A,
            Status::NvBadItemLength => 0x0C,
            Status::MemoryError => 0x10,
            Status::BufferFull => 0x11,
            Status::UnsupportedMode => 0x12,
            Status::MacMemoryError => 0x13,
        }
    }

    #[verifier::when_used_as_spec(spec_to_u8)]
    pub fn to_u8(self) -> (status: u8)
        ensures
            status == self.spec_to_u8(),
    {
        match self {
            Status::Success => 0x00,
            Status::Failure => 0x01,
            Status::InvalidParameter => 0x02,
            Status::NvItemInitialized => 0x09,
            Status::NvOperationFailed => 0x0A,
            Status::NvBadItemLength => 0x0C,
            Status::MemoryError => 0x10,
            Status::BufferFull => 0x11,
            Status::UnsupportedMode => 0x12,
            Status::MacMemoryError => 0x13,
        }
    }

    /// The status that a wire byte stands for, if any.
    pub open spec fn spec_from_u8(status: u8) -> Option<Status> {
        if status == 0x00 {
            Some(Status::Success)
        } else if status == 0x01 {
            Some(Status::Failure)
        } else if status == 0x02 {
            Some(Status::InvalidParameter)
        } else if status == 0x09 {
            Some(Status::NvItemInitialized)
        } else if status == 0x0A {
            Some(Status::NvOperationFailed)
        } else if status == 0x0C {
            Some(Status::NvBadItemLength)
        } else if status == 0x10 {
            Some(Status::MemoryError)
        } else if status == 0x11 {
            Some(Status::BufferFull)
        } else if status == 0x12 {
            Some(Status::UnsupportedMode)
        } else if status == 0x13 {
            Some(Status::MacMemoryError)
        } else {
            None
        }
    }

    #[verifier::when_used_as_spec(spec_from_u8)]
    pub fn from_u8(status: u8) -> (known: Option<Status>)
        ensures
            known == Self::spec_from_u8(status),
    {
        if status == 0x00 {
            Some(Status::Success)
        } else if status == 0x01 {
            Some(Status::Failure)
        } else if status == 0x02 {
            Some(Status::InvalidParameter)
        } else if status == 0x09 {
            Some(Status::NvItemInitialized)
        } else if status == 0x0A {
            Some(Status::NvOperationFailed)
        } else if status == 0x0C {
            Some(Status::NvBadItemLength)
        } else if status == 0x10 {
            Some(Status::MemoryError)
        } else if status == 0x11 {
            Some(Status::BufferFull)
        } else if status == 0x12 {
            Some(Status::UnsupportedMode)
        } else if status == 0x13 {
            Some(Status::MacMemoryError)
        } else {
            None
        }
    }
}

} // verus!
