//! Looking up an entry of the device list.

use super::SUBSYS;
use crate::command::{de, ser, Command, CommandID, CommandType};
use vstd::prelude::*;

verus! {

/// Asks for the n-th active entry of the device list. The answer is handed on
/// as it came: its layout differs between firmware builds.
#[derive(Debug, Clone)]
pub struct AssocFindDevice {
    /// n-th active entry in the device list
    nth_active_entry: u8,
}

impl AssocFindDevice {
    pub fn new(nth_active_entry: u8) -> (command: Self)
        ensures
            command.spec_nth_active_entry() == nth_active_entry,
    {
        Self { nth_active_entry }
    }

    /// The number of the entry that is asked for.
    pub closed spec fn spec_nth_active_entry(self) -> u8 {
        self.nth_active_entry
    }
}

impl Command for AssocFindDevice {
    open spec fn spec_id() -> CommandID {
        CommandID { subsystem: SUBSYS, id: 0x49 }
    }

    fn id() -> (id: CommandID) {
        CommandID { subsystem: SUBSYS, id: 0x49 }
    }
}

impl ser::Command for AssocFindDevice {
    open spec fn spec_request_type() -> CommandType {
        CommandType::SREQ
    }

    open spec fn spec_data(&self) -> Seq<u8> {
        seq![self.spec_nth_active_entry()]
    }

    fn request_type() -> (kind: CommandType) {
        CommandType::SREQ
    }

    fn len(&self) -> (len: u8) {
        1
    }

    fn data(&self) -> (data: Vec<u8>) {
        vec![self.nth_active_entry]
    }
}

impl de::Command for AssocFindDevice {
    type Output = Vec<u8>;

    open spec fn spec_response_type() -> CommandType {
        CommandType::SRSP
    }

    open spec fn spec_to_output(&self, data_frame: Seq<u8>) -> Result<Seq<u8>, de::Error> {
        Ok(data_frame)
    }

    fn response_type() -> (kind: CommandType) {
        CommandType::SRSP
    }

    fn to_output(&self, data_frame: Vec<u8>) -> (output: Result<Vec<u8>, de::Error>) {
        Ok(data_frame)
    }
}

} // verus!
