//! The sending side of a command: its direction and its payload.

use crate::command::{spec_first_address_byte, CommandID, CommandType};
use vstd::prelude::*;

verus! {

/// What goes between the start byte and the checksum when a payload is sent
/// in direction `kind` to address `id`: the payload length, the two address
/// bytes with the direction laid over the first, and the payload.
pub open spec fn spec_frame_body(kind: CommandType, id: CommandID, data: Seq<u8>) -> Seq<u8> {
    seq![data.len() as u8, spec_first_address_byte(kind, id), id.id] + data
}

/// The frame body of `command`.
pub open spec fn spec_serialize<C: Command + ?Sized>(command: &C) -> Seq<u8> {
    spec_frame_body(C::spec_request_type(), C::spec_id(), command.spec_data())
}

/// A command that can be sent.
pub trait Command: crate::command::Command {
    /// The direction in which the command is sent.
    spec fn spec_request_type() -> CommandType;

    /// The payload of the command. It is never longer than one byte can count.
    spec fn spec_data(&self) -> Seq<u8>;

    fn request_type() -> (kind: CommandType)
        ensures
            kind == Self::spec_request_type(),
    ;

    /// The length of the payload.
    fn len(&self) -> (len: u8)
        ensures
            len == self.spec_data().len(),
    ;

    /// The payload.
    fn data(&self) -> (data: Vec<u8>)
        ensures
            data@ == self.spec_data(),
    ;

    fn is_empty(&self) -> (empty: bool)
        ensures
            empty == (self.spec_data().len() == 0),
    {
        self.len() < 1
    }

    /// The frame body of the command: length, address, payload.
    fn serialize(&self) -> (body: Vec<u8>)
        ensures
            body@ == spec_frame_body(
                Self::spec_request_type(),
                Self::spec_id(),
                self.spec_data(),
            ),
            body@.len() == body@[0] + 3,
    {
        let id = Self::id();
        let cmd0: u8 = id.subsystem.to_u8() | Self::request_type().to_u8();
        let len: u8 = self.len();
        let mut data = self.data();
        let mut body: Vec<u8> = Vec::with_capacity(len as usize + 3);
        body.push(len);
        body.push(cmd0);
        body.push(id.id);
        body.append(&mut data);
        body
    }
}

} // verus!
