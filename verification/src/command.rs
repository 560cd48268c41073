//! The command model: how a command is addressed, which direction it travels
//! in, and how its payload is laid out.

use vstd::prelude::*;

pub mod de;
pub mod fixint;
pub mod reserved;
pub mod ser;
pub mod status;
pub mod sys;
pub mod util;

pub use status::Status;

verus! {

/// Mask of the three direction bits in the first address byte.
pub const COMMAND_TYPE_FLAG: u8 = 0xE0;

/// Mask of the five subsystem bits in the first address byte.
pub const SUBSYSTEM_FLAG: u8 = 0x1F;

/// Direction of a command, carried in the top three bits of the first address
/// byte.
#[derive(Debug, Copy, Clone, PartialEq, Eq, Structural)]
pub enum CommandType {
    Poll,
    /// blocking request
    SREQ,
    /// async request
    AREQ,
    /// blocking response
    SRSP,
}

impl CommandType {
    /// The direction tag as it appears on the wire.
    pub open spec fn spec_to_u8(self) -> u8 {
        match self {
            CommandType::Poll => 0x00,
            CommandType::SREQ => 0x20,
            CommandType::AREQ => 0x40,
            CommandType::SRSP => 0x60,
        }
    }

    #[verifier::when_used_as_spec(spec_to_u8)]
    pub fn to_u8(self) -> (tag: u8)
        ensures
            tag == self.spec_to_u8(),
    {
        match self {
            CommandType::Poll => 0x00,
            CommandType::SREQ => 0x20,
            CommandType::AREQ => 0x40,
            CommandType::SRSP => 0x60,
        }
    }
}

/// Functional grouping on the device, carried in the low five bits of the
/// first address byte.
#[derive(Debug, Copy, Clone, PartialEq, Eq, Structural)]
pub enum Subsystem {
    Reserved,
    IFaceSYS,
    IFaceMAC,
    IFaceNWK,
    IFaceAF,
    IFaceZDO,
    IFaceSAPI,
    IFaceUTIL,
    IFaceDEBUG,
    IFaceAPP,
    ConfigAPP,
    GreenPower,
}

impl Subsystem {
    /// The subsystem number as it appears on the wire.
    pub open spec fn spec_to_u8(self) -> u8 {
        match self {
            Subsystem::Reserved => 0x00,
            Subsystem::IFaceSYS => 0x01,
            Subsystem::IFaceMAC => 0x02,
            Subsystem::IFaceNWK => 0x03,
            Subsystem::IFaceAF => 0x04,
            Subsystem::IFaceZDO => 0x05,
            Subsystem::IFaceSAPI => 0x06,
            Subsystem::IFaceUTIL => 0x07,
            Subsystem::IFaceDEBUG => 0x08,
            Subsystem::IFaceAPP => 0x09,
            Subsystem::ConfigAPP => 0x0F,
            Subsystem::GreenPower => 0x15,
        }
    }

    #[verifier::when_used_as_spec(spec_to_u8)]
    pub fn to_u8(self) -> (number: u8)
        ensures
            number == self.spec_to_u8(),
            number < 0x20,
    {
        match self {
            Subsystem::Reserved => 0x00,
            Subsystem::IFaceSYS => 0x01,
            Subsystem::IFaceMAC => 0x02,
            Subsystem::IFaceNWK => 0x03,
            Subsystem::IFaceAF => 0x04,
            Subsystem::IFaceZDO => 0x05,
            Subsystem::IFaceSAPI => 0x06,
            Subsystem::IFaceUTIL => 0x07,
            Subsystem::IFaceDEBUG => 0x08,
            Subsystem::IFaceAPP => 0x09,
            Subsystem::ConfigAPP => 0x0F,
            Subsystem::GreenPower => 0x15,
        }
    }
}

/// Address of a command: its subsystem and its number within the subsystem.
#[derive(Debug, Copy, Clone, PartialEq, Eq, Structural)]
pub struct CommandID {
    pub subsystem: Subsystem,
    pub id: u8,
}

impl CommandID {
    /// The two address bytes, with the direction bits left clear.
    pub open spec fn spec_to_cmd(&self) -> Seq<u8> {
        seq![self.subsystem.spec_to_u8(), self.id]
    }

    pub fn to_cmd(&self) -> (cmd: [u8; 2])
        ensures
            cmd@ == self.spec_to_cmd(),
    {
        [self.subsystem.to_u8(), self.id]
    }
}

/// A command of the protocol: a value whose type fixes its address.
pub trait Command {
    /// The address that every value of the type is sent to and answered from.
    spec fn spec_id() -> CommandID;

    fn id() -> (id: CommandID)
        ensures
            id == Self::spec_id(),
    ;
}

/// The first address byte: the direction tag laid over the subsystem number.
pub open spec fn spec_first_address_byte(kind: CommandType, id: CommandID) -> u8 {
    id.subsystem.spec_to_u8() | kind.spec_to_u8()
}

/// The direction bits of a first address byte.
pub open spec fn spec_direction_bits(cmd0: u8) -> u8 {
    cmd0 & COMMAND_TYPE_FLAG
}

/// The subsystem bits of a first address byte.
pub open spec fn spec_subsystem_bits(cmd0: u8) -> u8 {
    cmd0 & SUBSYSTEM_FLAG
}

/// Splitting a first address byte gives back the direction tag and the
/// subsystem number it was made of.
pub proof fn lemma_first_address_byte_splits(kind: CommandType, id: CommandID)
    ensures
        spec_direction_bits(spec_first_address_byte(kind, id)) == kind.spec_to_u8(),
        spec_subsystem_bits(spec_first_address_byte(kind, id)) == id.subsystem.spec_to_u8(),
{
    let s: u8 = id.subsystem.spec_to_u8();
    let k: u8 = kind.spec_to_u8();
    assert(s < 0x20);
    assert(k == 0x00 || k == 0x20 || k == 0x40 || k == 0x60);
    assert((s | k) & 0xE0 == k && (s | k) & 0x1F == s) by (bit_vector)
        requires
            s < 0x20,
            k == 0x00 || k == 0x20 || k == 0x40 || k == 0x60,
    ;
}

} // verus!
