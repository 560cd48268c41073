use znp::command::de::Command as _;
use znp::command::de::Error;
use znp::command::fixint::{deserialize_bincode, serialize_bincode};
use znp::command::reserved::{CommandNotFound, ErrorCode};
use znp::command::ser::Command as _;
use znp::command::sys::{
    Capability, CapabilitySet, ExNvIds, NVLength, NVRead, NvSysIds, Ping, ALL_CAPABILITIES, NVID,
};
use znp::command::util::AssocFindDevice;
use znp::command::Command as _;
use znp::command::{CommandID, CommandType, Status, Subsystem};

#[test]
fn command_type_tags() {
    assert_eq!(CommandType::Poll.to_u8(), 0x00);
    assert_eq!(CommandType::SREQ.to_u8(), 0x20);
    assert_eq!(CommandType::AREQ.to_u8(), 0x40);
    assert_eq!(CommandType::SRSP.to_u8(), 0x60);
}

#[test]
fn subsystem_numbers() {
    assert_eq!(Subsystem::Reserved.to_u8(), 0x00);
    assert_eq!(Subsystem::IFaceSYS.to_u8(), 0x01);
    assert_eq!(Subsystem::IFaceMAC.to_u8(), 0x02);
    assert_eq!(Subsystem::IFaceNWK.to_u8(), 0x03);
    assert_eq!(Subsystem::IFaceAF.to_u8(), 0x04);
    assert_eq!(Subsystem::IFaceZDO.to_u8(), 0x05);
    assert_eq!(Subsystem::IFaceSAPI.to_u8(), 0x06);
    assert_eq!(Subsystem::IFaceUTIL.to_u8(), 0x07);
    assert_eq!(Subsystem::IFaceDEBUG.to_u8(), 0x08);
    assert_eq!(Subsystem::IFaceAPP.to_u8(), 0x09);
    assert_eq!(Subsystem::ConfigAPP.to_u8(), 0x0F);
    assert_eq!(Subsystem::GreenPower.to_u8(), 0x15);
}

#[test]
fn to_cmd_gives_subsystem_then_id() {
    let id = CommandID { subsystem: Subsystem::IFaceUTIL, id: 0x49 };
    assert_eq!(id.to_cmd(), [0x07, 0x49]);
}

#[test]
fn addresses_of_the_commands() {
    assert_eq!(Ping::id(), CommandID { subsystem: Subsystem::IFaceSYS, id: 0x01 });
    assert_eq!(NVLength::id(), CommandID { subsystem: Subsystem::IFaceSYS, id: 0x32 });
    assert_eq!(NVRead::id(), CommandID { subsystem: Subsystem::IFaceSYS, id: 0x33 });
    assert_eq!(AssocFindDevice::id(), CommandID { subsystem: Subsystem::IFaceUTIL, id: 0x49 });
    assert_eq!(CommandNotFound::id(), CommandID { subsystem: Subsystem::Reserved, id: 0x00 });
}

#[test]
fn directions_of_the_commands() {
    assert_eq!(Ping::request_type(), CommandType::SREQ);
    assert_eq!(Ping::response_type(), CommandType::SRSP);
    assert_eq!(NVLength::request_type(), CommandType::SREQ);
    assert_eq!(NVLength::response_type(), CommandType::SRSP);
    assert_eq!(NVRead::request_type(), CommandType::SREQ);
    assert_eq!(NVRead::response_type(), CommandType::SRSP);
    assert_eq!(AssocFindDevice::request_type(), CommandType::SREQ);
    assert_eq!(AssocFindDevice::response_type(), CommandType::SRSP);
    assert_eq!(CommandNotFound::response_type(), CommandType::SRSP);
}

#[test]
fn ping_has_no_payload() {
    let command = Ping {};
    assert_eq!(command.len(), 0);
    assert!(command.is_empty());
    assert_eq!(command.data(), Vec::<u8>::new());
    assert_eq!(command.serialize(), vec![0x00, 0x21, 0x01]);
}

#[test]
fn assoc_find_device_payload() {
    let command = AssocFindDevice::new(3);
    assert_eq!(command.len(), 1);
    assert!(!command.is_empty());
    assert_eq!(command.data(), vec![0x03]);
    assert_eq!(command.serialize(), vec![0x01, 0x27, 0x49, 0x03]);
}

#[test]
fn nv_length_payload_is_little_endian() {
    let command = NVLength::new(NVID::new(0x01, 0x1234, 0xABCD));
    assert_eq!(command.len(), 5);
    assert_eq!(command.data(), vec![0x01, 0x34, 0x12, 0xCD, 0xAB]);
    assert_eq!(command.serialize(), vec![0x05, 0x21, 0x32, 0x01, 0x34, 0x12, 0xCD, 0xAB]);
}

#[test]
fn nv_read_payload_is_little_endian() {
    let command = NVRead::new(NVID::new(0x02, 0x0003, 0x0100), 0xBEEF, 0x40);
    assert_eq!(command.len(), 8);
    assert_eq!(command.data(), vec![0x02, 0x03, 0x00, 0x00, 0x01, 0xEF, 0xBE, 0x40]);
    assert_eq!(
        command.serialize(),
        vec![0x08, 0x21, 0x33, 0x02, 0x03, 0x00, 0x00, 0x01, 0xEF, 0xBE, 0x40]
    );
}

#[test]
fn nv_identifiers() {
    assert_eq!(NvSysIds::NvDrvr.to_u8(), 0);
    assert_eq!(NvSysIds::ZStack.to_u8(), 1);
    assert_eq!(NvSysIds::TiMac.to_u8(), 2);
    assert_eq!(NvSysIds::Remoti.to_u8(), 3);
    assert_eq!(NvSysIds::Ble.to_u8(), 4);
    assert_eq!(NvSysIds::_6Mesh.to_u8(), 5);
    assert_eq!(NvSysIds::TiOp.to_u8(), 6);
    assert_eq!(NvSysIds::App.to_u8(), 7);
    assert_eq!(ExNvIds::Legacy.to_u16(), 0x0000);
    assert_eq!(ExNvIds::AddrMgr.to_u16(), 0x0001);
    assert_eq!(ExNvIds::BindingTable.to_u16(), 0x0002);
    assert_eq!(ExNvIds::DeviceList.to_u16(), 0x0003);
    assert_eq!(ExNvIds::TClkTable.to_u16(), 0x0004);
    assert_eq!(ExNvIds::TClkIcTable.to_u16(), 0x0005);
    assert_eq!(ExNvIds::ApsKeyDataTable.to_u16(), 0x0006);
    assert_eq!(ExNvIds::NwkSecMaterialTable.to_u16(), 0x0007);
}

#[test]
fn serialize_bincode_gives_low_byte_first() {
    assert_eq!(serialize_bincode(0x0000), vec![0x00, 0x00]);
    assert_eq!(serialize_bincode(0x0102), vec![0x02, 0x01]);
    assert_eq!(serialize_bincode(0xFFFE), vec![0xFE, 0xFF]);
}

#[test]
fn deserialize_bincode_takes_exactly_four_bytes() {
    assert_eq!(deserialize_bincode(vec![0x78, 0x56, 0x34, 0x12]), Ok(0x1234_5678));
    assert_eq!(deserialize_bincode(vec![0xFF, 0xFF, 0xFF, 0xFF]), Ok(u32::MAX));
    assert_eq!(deserialize_bincode(vec![]), Err(Error::UnexpectedEOF));
    assert_eq!(deserialize_bincode(vec![0x78, 0x56, 0x34]), Err(Error::UnexpectedEOF));
    assert_eq!(
        deserialize_bincode(vec![0x78, 0x56, 0x34, 0x12, 0x00]),
        Err(Error::UnexpectedEOF)
    );
}

#[test]
fn nv_length_output() {
    let command = NVLength::new(NVID::new(0x01, 0x0004, 0x0000));
    assert_eq!(command.to_output(vec![0x10, 0x00, 0x00, 0x00]), Ok(16));
    assert_eq!(command.to_output(vec![0x00, 0x01, 0x00, 0x00]), Ok(256));
    assert_eq!(command.to_output(vec![0x10, 0x00]), Err(Error::UnexpectedEOF));
    assert_eq!(
        command.deserialize(vec![0x04, 0x61, 0x32, 0x01, 0x02, 0x03, 0x04]),
        Ok(0x0403_0201)
    );
}

#[test]
fn nv_read_output() {
    let command = NVRead::new(NVID::new(0x01, 0x0004, 0x0000), 0, 3);
    assert_eq!(
        command.to_output(vec![0x00, 0x03, 0xAA, 0xBB, 0xCC]),
        Ok((Status::Success, vec![0xAA, 0xBB, 0xCC]))
    );
    assert_eq!(command.to_output(vec![0x02, 0x00]), Ok((Status::InvalidParameter, vec![])));
    assert_eq!(command.to_output(vec![]), Err(Error::UnexpectedEOF));
    assert_eq!(command.to_output(vec![0x00]), Err(Error::UnexpectedEOF));
    assert_eq!(command.to_output(vec![0x00, 0x03, 0xAA, 0xBB]), Err(Error::UnexpectedEOF));
    assert_eq!(
        command.to_output(vec![0x00, 0x01, 0xAA, 0xBB]),
        Err(Error::UnexpectedEOF)
    );
    assert_eq!(command.to_output(vec![0x7F, 0x01, 0xAA]), Err(Error::Unknown));
    assert_eq!(command.to_output(vec![0x7F, 0x05, 0xAA]), Err(Error::Unknown));
}

#[test]
fn assoc_find_device_output_is_handed_on() {
    let command = AssocFindDevice::new(0);
    assert_eq!(command.to_output(vec![]), Ok(vec![]));
    assert_eq!(command.to_output(vec![1, 2, 3]), Ok(vec![1, 2, 3]));
    assert_eq!(command.deserialize(vec![0x02, 0x67, 0x49, 0x09, 0x08]), Ok(vec![0x09, 0x08]));
}

#[test]
fn status_bytes() {
    let known = [
        (0x00, Status::Success),
        (0x01, Status::Failure),
        (0x02, Status::InvalidParameter),
        (0x09, Status::NvItemInitialized),
        (0x0A, Status::NvOperationFailed),
        (0x0C, Status::NvBadItemLength),
        (0x10, Status::MemoryError),
        (0x11, Status::BufferFull),
        (0x12, Status::UnsupportedMode),
        (0x13, Status::MacMemoryError),
    ];
    for byte in 0..=255u8 {
        let expected = known.iter().find(|(b, _)| *b == byte).map(|(_, s)| *s);
        assert_eq!(Status::from_u8(byte), expected);
        if let Some(status) = expected {
            assert_eq!(status.to_u8(), byte);
        }
    }
}

#[test]
fn error_code_bytes() {
    assert_eq!(ErrorCode::from_u8(0x00), None);
    assert_eq!(ErrorCode::from_u8(0x01), Some(ErrorCode::Subsystem));
    assert_eq!(ErrorCode::from_u8(0x02), Some(ErrorCode::CommandID));
    assert_eq!(ErrorCode::from_u8(0x03), Some(ErrorCode::Parameter));
    assert_eq!(ErrorCode::from_u8(0x04), Some(ErrorCode::Length));
    assert_eq!(ErrorCode::from_u8(0x05), None);
    assert_eq!(ErrorCode::Subsystem.to_u8(), 0x01);
    assert_eq!(ErrorCode::CommandID.to_u8(), 0x02);
    assert_eq!(ErrorCode::Parameter.to_u8(), 0x03);
    assert_eq!(ErrorCode::Length.to_u8(), 0x04);
}

#[test]
fn error_code_payload_is_one_byte() {
    assert_eq!(ErrorCode::from_payload(&vec![0x03]), Ok(ErrorCode::Parameter));
    assert_eq!(ErrorCode::from_payload(&vec![]), Err(Error::UnexpectedEOF));
    assert_eq!(ErrorCode::from_payload(&vec![0x09]), Err(Error::UnexpectedEOF));
    assert_eq!(ErrorCode::from_payload(&vec![0x01, 0x21, 0x01]), Err(Error::UnexpectedEOF));
    assert_eq!((CommandNotFound {}).to_output(vec![0x04]), Ok(ErrorCode::Length));
}

#[test]
fn capability_bits() {
    assert_eq!(Capability::SYS.bits(), 0x0001);
    assert_eq!(Capability::MAC.bits(), 0x0002);
    assert_eq!(Capability::NWK.bits(), 0x0004);
    assert_eq!(Capability::AF.bits(), 0x0008);
    assert_eq!(Capability::ZDO.bits(), 0x0010);
    assert_eq!(Capability::SAPI.bits(), 0x0020);
    assert_eq!(Capability::UTIL.bits(), 0x0040);
    assert_eq!(Capability::DEBUG.bits(), 0x0080);
    assert_eq!(Capability::APP.bits(), 0x0100);
    assert_eq!(Capability::ZOAD.bits(), 0x1000);
    assert_eq!(ALL_CAPABILITIES, 0x11FF);
}

#[test]
fn capability_set_drops_unknown_bits() {
    let set = CapabilitySet::from_bits_truncate(0xFFFF);
    assert_eq!(set.bits(), 0x11FF);
    assert!(set.contains(Capability::ZOAD));
    assert!(!set.is_empty());
    let none = CapabilitySet::from_bits_truncate(0xEE00);
    assert_eq!(none.bits(), 0x0000);
    assert!(none.is_empty());
    assert!(!none.contains(Capability::APP));
}

#[test]
fn capability_decode_sys_only() {
    let set = (Ping {}).to_output(vec![0x00, 0x01]).unwrap();
    assert_eq!(set, CapabilitySet::from_bits_truncate(0x0001));
    assert_eq!(set.bits(), 0x0001);
    assert!(set.contains(Capability::SYS));
    for other in [
        Capability::MAC,
        Capability::NWK,
        Capability::AF,
        Capability::ZDO,
        Capability::SAPI,
        Capability::UTIL,
        Capability::DEBUG,
        Capability::APP,
        Capability::ZOAD,
    ] {
        assert!(!set.contains(other));
    }
}

#[test]
fn capability_decode_empty() {
    let set = (Ping {}).to_output(vec![0x00, 0x00]).unwrap();
    assert!(set.is_empty());
    assert_eq!(set.bits(), 0);
}

#[test]
fn capability_decode_first_byte_is_high() {
    let set = (Ping {}).to_output(vec![0x11, 0x79]).unwrap();
    assert_eq!(set.bits(), 0x1179);
    assert!(set.contains(Capability::ZOAD));
    assert!(set.contains(Capability::APP));
    assert!(!set.contains(Capability::DEBUG));
    assert!(set.contains(Capability::UTIL));
}

#[test]
fn capability_decode_wrong_length() {
    assert_eq!((Ping {}).to_output(vec![]), Err(Error::UnexpectedEOF));
    assert_eq!((Ping {}).to_output(vec![0x00]), Err(Error::UnexpectedEOF));
    assert_eq!((Ping {}).to_output(vec![0x00, 0x01, 0x02]), Err(Error::UnexpectedEOF));
}

#[test]
fn deserialize_short_body() {
    assert_eq!((Ping {}).deserialize(vec![]), Err(Error::UnexpectedEOF));
    assert_eq!((Ping {}).deserialize(vec![0x00]), Err(Error::UnexpectedEOF));
    assert_eq!((Ping {}).deserialize(vec![0x00, 0x61]), Err(Error::UnexpectedEOF));
}

#[test]
fn deserialize_answer() {
    let set = (Ping {}).deserialize(vec![0x02, 0x61, 0x01, 0x00, 0x01]).unwrap();
    assert_eq!(set.bits(), 0x0001);
}

#[test]
fn deserialize_mismatched_type() {
    assert_eq!(
        (Ping {}).deserialize(vec![0x02, 0x41, 0x01, 0x00, 0x01]),
        Err(Error::MismatchedType { expected: CommandType::SRSP, actual: 0x40 })
    );
    assert_eq!(
        (Ping {}).deserialize(vec![0x00, 0x21, 0x01]),
        Err(Error::MismatchedType { expected: CommandType::SRSP, actual: 0x20 })
    );
}

#[test]
fn deserialize_mismatched_id() {
    assert_eq!(
        (Ping {}).deserialize(vec![0x02, 0x61, 0x02, 0x00, 0x01]),
        Err(Error::MismatchedID { expected: [0x01, 0x01], actual: [0x01, 0x02] })
    );
    assert_eq!(
        (Ping {}).deserialize(vec![0x02, 0x67, 0x01, 0x00, 0x01]),
        Err(Error::MismatchedID { expected: [0x01, 0x01], actual: [0x07, 0x01] })
    );
}

#[test]
fn deserialize_type_is_checked_before_id() {
    assert_eq!(
        (Ping {}).deserialize(vec![0x00, 0x47, 0x49]),
        Err(Error::MismatchedType { expected: CommandType::SRSP, actual: 0x40 })
    );
}

#[test]
fn deserialize_refusal_comes_first() {
    for code in [
        (0x01, ErrorCode::Subsystem),
        (0x02, ErrorCode::CommandID),
        (0x03, ErrorCode::Parameter),
        (0x04, ErrorCode::Length),
    ] {
        let body = vec![0x01, 0x60, 0x00, code.0];
        assert_eq!(
            (Ping {}).deserialize(body.clone()),
            Err(Error::CommandNotFound { error_code: code.1 })
        );
        assert_eq!(
            AssocFindDevice::new(0).deserialize(body.clone()),
            Err(Error::CommandNotFound { error_code: code.1 })
        );
        assert_eq!(
            NVLength::new(NVID::new(1, 4, 0)).deserialize(body),
            Err(Error::CommandNotFound { error_code: code.1 })
        );
    }
}

#[test]
fn deserialize_refusal_with_bad_payload() {
    assert_eq!((Ping {}).deserialize(vec![0x00, 0x60, 0x00]), Err(Error::UnexpectedEOF));
    assert_eq!((Ping {}).deserialize(vec![0x01, 0x60, 0x00, 0x09]), Err(Error::UnexpectedEOF));
    assert_eq!(
        (Ping {}).deserialize(vec![0x02, 0x60, 0x00, 0x01, 0x02]),
        Err(Error::UnexpectedEOF)
    );
}

#[test]
fn deserialize_reserved_address_in_other_direction_is_no_refusal() {
    assert_eq!(
        (Ping {}).deserialize(vec![0x01, 0x40, 0x00, 0x02]),
        Err(Error::MismatchedType { expected: CommandType::SRSP, actual: 0x40 })
    );
}
