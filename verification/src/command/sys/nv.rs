//! Reading the device's non-volatile memory.

use super::SUBSYS;
use crate::command::fixint::{
    deserialize_bincode, serialize_bincode, spec_deserialize_u32, spec_u16_bytes,
};
use crate::command::status::Status;
use crate::command::{de, ser, Command, CommandID, CommandType};
use vstd::prelude::*;

verus! {

/// Names an item of the non-volatile memory.
#[derive(Debug, Clone, Copy, PartialEq, Eq, Structural)]
pub struct NVID {
    sys_id: u8,
    item_id: u16,
    sub_id: u16,
}

impl NVID {
    pub fn new(sys_id: u8, item_id: u16, sub_id: u16) -> (id: Self)
        ensures
            id.spec_sys_id() == sys_id,
            id.spec_item_id() == item_id,
            id.spec_sub_id() == sub_id,
    {
        Self { sys_id, item_id, sub_id }
    }

    pub closed spec fn spec_sys_id(self) -> u8 {
        self.sys_id
    }

    pub closed spec fn spec_item_id(self) -> u16 {
        self.item_id
    }

    pub closed spec fn spec_sub_id(self) -> u16 {
        self.sub_id
    }

    /// The five bytes that name the item in a payload: the system, then the
    /// item and the sub-item, each least significant byte first.
    pub open spec fn spec_data(self) -> Seq<u8> {
        seq![self.spec_sys_id()] + spec_u16_bytes(self.spec_item_id()) + spec_u16_bytes(
            self.spec_sub_id(),
        )
    }

    fn data(&self) -> (data: Vec<u8>)
        ensures
            data@ == self.spec_data(),
    {
        let mut data: Vec<u8> = Vec::new();
        data.push(self.sys_id);
        let mut item_id = serialize_bincode(self.item_id);
        data.append(&mut item_id);
        let mut sub_id = serialize_bincode(self.sub_id);
        data.append(&mut sub_id);
        data
    }
}

/// The systems that own items of the non-volatile memory.
#[derive(Debug, Clone, Copy, PartialEq, Eq, Structural)]
pub enum NvSysIds {
    NvDrvr,
    ZStack,
    TiMac,
    Remoti,
    Ble,
    _6Mesh,
    TiOp,
    App,
}

impl NvSysIds {
    pub open spec fn spec_to_u8(self) -> u8 {
        match self {
            NvSysIds::NvDrvr => 0,
            NvSysIds::ZStack => 1,
            NvSysIds::TiMac => 2,
            NvSysIds::Remoti => 3,
            NvSysIds::Ble => 4,
            NvSysIds::_6Mesh => 5,
            NvSysIds::TiOp => 6,
            NvSysIds::App => 7,
        }
    }

    #[verifier::when_used_as_spec(spec_to_u8)]
    pub fn to_u8(self) -> (sys_id: u8)
        ensures
            sys_id == self.spec_to_u8(),
    {
        match self {
            NvSysIds::NvDrvr => 0,
            NvSysIds::ZStack => 1,
            NvSysIds::TiMac => 2,
            NvSysIds::Remoti => 3,
            NvSysIds::Ble => 4,
            NvSysIds::_6Mesh => 5,
            NvSysIds::TiOp => 6,
            NvSysIds::App => 7,
        }
    }
}

/// The items of the extended non-volatile memory.
#[derive(Debug, Clone, Copy, PartialEq, Eq, Structural)]
pub enum ExNvIds {
    Legacy,
    AddrMgr,
    BindingTable,
    DeviceList,
    TClkTable,
    TClkIcTable,
    ApsKeyDataTable,
    NwkSecMaterialTable,
}

impl ExNvIds {
    pub open spec fn spec_to_u16(self) -> u16 {
        match self {
            ExNvIds::Legacy => 0x0000,
            ExNvIds::AddrMgr => 0x0001,
            ExNvIds::BindingTable => 0x0002,
            ExNvIds::DeviceList => 0x0003,
            ExNvIds::TClkTable => 0x0004,
            ExNvIds::TClkIcTable => 0x0005,
            ExNvIds::ApsKeyDataTable => 0x0006,
            ExNvIds::NwkSecMaterialTable => 0x0007,
        }
    }

    #[verifier::when_used_as_spec(spec_to_u16)]
    pub fn to_u16(self) -> (item_id: u16)
        ensures
            item_id == self.spec_to_u16(),
    {
        match self {
            ExNvIds::Legacy => 0x0000,
            ExNvIds::AddrMgr => 0x0001,
            ExNvIds::BindingTable => 0x0002,
            ExNvIds::DeviceList => 0x0003,
            ExNvIds::TClkTable => 0x0004,
            ExNvIds::TClkIcTable => 0x0005,
            ExNvIds::ApsKeyDataTable => 0x0006,
            ExNvIds::NwkSecMaterialTable => 0x0007,
        }
    }
}

/// Asks for the length of an item.
#[derive(Debug, Clone)]
pub struct NVLength {
    id: NVID,
}

impl NVLength {
    pub fn new(id: NVID) -> (command: Self)
        ensures
            command.spec_id_field() == id,
    {
        Self { id }
    }

    /// The item that is asked about.
    pub closed spec fn spec_id_field(self) -> NVID {
        self.id
    }
}

impl Command for NVLength {
    open spec fn spec_id() -> CommandID {
        CommandID { subsystem: SUBSYS, id: 0x32 }
    }

    fn id() -> (id: CommandID) {
        CommandID { subsystem: SUBSYS, id: 0x32 }
    }
}

impl ser::Command for NVLength {
    open spec fn spec_request_type() -> CommandType {
        CommandType::SREQ
    }

    open spec fn spec_data(&self) -> Seq<u8> {
        self.spec_id_field().spec_data()
    }

    fn request_type() -> (kind: CommandType) {
        CommandType::SREQ
    }

    fn len(&self) -> (len: u8) {
        5
    }

    fn data(&self) -> (data: Vec<u8>) {
        self.id.data()
    }
}

impl de::Command for NVLength {
    type Output = u32;

    open spec fn spec_response_type() -> CommandType {
        CommandType::SRSP
    }

    open spec fn spec_to_output(&self, data_frame: Seq<u8>) -> Result<u32, de::Error> {
        spec_deserialize_u32(data_frame)
    }

    fn response_type() -> (kind: CommandType) {
        CommandType::SRSP
    }

    fn to_output(&self, data_frame: Vec<u8>) -> (output: Result<u32, de::Error>) {
        let output = deserialize_bincode(data_frame);
        assert(de::spec_result_view(output) == output);
        output
    }
}

/// Asks for `length` bytes of an item, from `offset` on.
#[derive(Debug, Clone)]
pub struct NVRead {
    id: NVID,
    offset: u16,
    length: u8,
}

/// What the answer to a read decodes to: a known status, then a length byte,
/// then exactly as many bytes as the length byte says.
pub open spec fn spec_read_output(data_frame: Seq<u8>) -> Result<(Status, Seq<u8>), de::Error> {
    if data_frame.len() < 2 {
        Err(de::Error::UnexpectedEOF)
    } else {
        match Status::spec_from_u8(data_frame[0]) {
            None => Err(de::Error::Unknown),
            Some(status) => {
                if data_frame.len() - 2 != data_frame[1] {
                    Err(de::Error::UnexpectedEOF)
                } else {
                    Ok((status, data_frame.skip(2)))
                }
            },
        }
    }
}

impl NVRead {
    pub fn new(id: NVID, offset: u16, length: u8) -> (command: Self)
        ensures
            command.spec_id_field() == id,
            command.spec_offset() == offset,
            command.spec_length() == length,
    {
        Self { id, offset, length }
    }

    /// The item that is read.
    pub closed spec fn spec_id_field(self) -> NVID {
        self.id
    }

    /// The offset of the first byte that is read.
    pub closed spec fn spec_offset(self) -> u16 {
        self.offset
    }

    /// The number of bytes that are asked for.
    pub closed spec fn spec_length(self) -> u8 {
        self.length
    }
}

impl Command for NVRead {
    open spec fn spec_id() -> CommandID {
        CommandID { subsystem: SUBSYS, id: 0x33 }
    }

    fn id() -> (id: CommandID) {
        CommandID { subsystem: SUBSYS, id: 0x33 }
    }
}

impl ser::Command for NVRead {
    open spec fn spec_request_type() -> CommandType {
        CommandType::SREQ
    }

    open spec fn spec_data(&self) -> Seq<u8> {
        self.spec_id_field().spec_data() + spec_u16_bytes(self.spec_offset()) + seq![
            self.spec_length(),
        ]
    }

    fn request_type() -> (kind: CommandType) {
        CommandType::SREQ
    }

    fn len(&self) -> (len: u8) {
        8
    }

    fn data(&self) -> (data: Vec<u8>) {
        let mut data = self.id.data();
        let mut offset = serialize_bincode(self.offset);
        data.append(&mut offset);
        data.push(self.length);
        data
    }
}

impl de::Command for NVRead {
    type Output = (Status, Vec<u8>);

    open spec fn spec_response_type() -> CommandType {
        CommandType::SRSP
    }

    open spec fn spec_to_output(&self, data_frame: Seq<u8>) -> Result<
        (Status, Seq<u8>),
        de::Error,
    > {
        spec_read_output(data_frame)
    }

    fn response_type() -> (kind: CommandType) {
        CommandType::SRSP
    }

    fn to_output(&self, data_frame: Vec<u8>) -> (output: Result<(Status, Vec<u8>), de::Error>) {
        let mut data_frame = data_frame;
        if data_frame.len() < 2 {
            return Err(de::Error::UnexpectedEOF);
        }
        let status = match Status::from_u8(data_frame[0]) {
            Some(status) => status,
            None => {
                return Err(de::Error::Unknown);
            },
        };
        let len: usize = data_frame[1] as usize;
        let ghost received = data_frame@;
        let data_frame = data_frame.split_off(2);
        assert(data_frame@ == received.skip(2));
        if data_frame.len() != len {
            return Err(de::Error::UnexpectedEOF);
        }
        let output: Result<(Status, Vec<u8>), de::Error> = Ok((status, data_frame));
        assert(de::spec_result_view(output) == Ok::<(Status, Seq<u8>), de::Error>(
            (status, received.skip(2)),
        ));
        output
    }
}

} // verus!
