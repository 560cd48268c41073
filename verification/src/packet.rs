//! The frame codec: the envelope that carries a command over the wire.
//!
//! A frame is a start byte, a frame body and a one-byte check sequence. The
//! body is the payload length, two address bytes and the payload; the check
//! sequence is the XOR of the body's bytes.

use crate::command::ser;
use crate::command::{
    lemma_first_address_byte_splits, spec_direction_bits, spec_subsystem_bits, CommandID,
    CommandType,
};
use vstd::prelude::*;
use vstd::slice::{slice_subrange, slice_to_vec};

verus! {

/// The start byte of every frame that is sent.
pub const START_OF_FRAME: u8 = 0xFE;

/// The XOR of all bytes of a sequence, folded from the left over zero.
pub open spec fn spec_checksum(bytes: Seq<u8>) -> u8
    decreases bytes.len(),
{
    if bytes.len() == 0 {
        0
    } else {
        spec_checksum(bytes.drop_last()) ^ bytes.last()
    }
}

/// Computes the check sequence of a frame body.
pub fn checksum(bytes: &[u8]) -> (fcs: u8)
    ensures
        fcs == spec_checksum(bytes@),
{
    let mut fcs: u8 = 0;
    let mut i: usize = 0;
    while i < bytes.len()
        invariant
            i <= bytes.len(),
            fcs == spec_checksum(bytes@.take(i as int)),
        decreases bytes.len() - i,
    {
        assert(bytes@.take(i + 1).drop_last() == bytes@.take(i as int));
        fcs = fcs ^ bytes[i];
        i += 1;
    }
    assert(bytes@.take(i as int) == bytes@);
    fcs
}

/// A frame as it travels over the wire.
#[derive(Debug, Clone)]
pub struct Packet {
    /// 0xFE on every frame sent; whatever was read on a frame received
    pub start_of_frame: u8,
    /// the frame body: payload length, address, payload
    pub command: Vec<u8>,
    /// XOR of `command`
    pub frame_check_sequence: u8,
}

/// The mathematical value of a [`Packet`].
pub struct PacketView {
    pub start_of_frame: u8,
    pub command: Seq<u8>,
    pub frame_check_sequence: u8,
}

impl View for Packet {
    type V = PacketView;

    open spec fn view(&self) -> PacketView {
        PacketView {
            start_of_frame: self.start_of_frame,
            command: self.command@,
            frame_check_sequence: self.frame_check_sequence,
        }
    }
}

impl PacketView {
    /// The bytes of the frame in wire order.
    pub open spec fn spec_serialize(self) -> Seq<u8> {
        seq![self.start_of_frame] + self.command + seq![self.frame_check_sequence]
    }

    /// The payload length that the frame declares.
    pub open spec fn spec_data_len(self) -> u8 {
        self.command[0]
    }

    /// The direction tag of the frame, as on the wire.
    pub open spec fn spec_direction(self) -> u8 {
        spec_direction_bits(self.command[1])
    }

    /// The subsystem number in the frame's address.
    pub open spec fn spec_subsystem(self) -> u8 {
        spec_subsystem_bits(self.command[1])
    }

    /// The command number in the frame's address.
    pub open spec fn spec_id(self) -> u8 {
        self.command[2]
    }

    /// The payload of the frame.
    pub open spec fn spec_payload(self) -> Seq<u8> {
        self.command.skip(3)
    }

    /// Whether the frame is one that a receiver accepts: its body holds a
    /// length byte, two address bytes and as many payload bytes as the length
    /// byte says, and its check sequence is that of the body.
    pub open spec fn spec_well_formed(self) -> bool {
        &&& self.command.len() >= 3
        &&& self.command[0] == self.command.len() - 3
        &&& self.frame_check_sequence == spec_checksum(self.command)
    }
}

/// Why no frame could be read.
#[derive(Debug, Clone, Copy, PartialEq, Eq, Structural)]
pub enum Error {
    Unknown,
    /// The input ended before the frame was complete.
    UnexpectedEOF,
    /// The check sequence is not that of the body.
    FrameCorrupted,
}

/// The frame that carries `body` when it is sent.
pub open spec fn spec_frame(body: Seq<u8>) -> PacketView {
    PacketView {
        start_of_frame: START_OF_FRAME,
        command: body,
        frame_check_sequence: spec_checksum(body),
    }
}

/// The number of bytes that a frame with a payload of `data_len` bytes takes
/// on the wire.
pub open spec fn spec_frame_len(data_len: u8) -> nat {
    (data_len + 5) as nat
}

/// What reading one frame from the front of `bytes` gives, where the input
/// ends after `bytes`.
///
/// The start byte, the length byte, the two address bytes with the payload,
/// and the check sequence are read in this order, and the input ending before
/// any of them is complete is `UnexpectedEOF`. The start byte is accepted
/// whatever it holds. A check sequence other than the body's is
/// `FrameCorrupted`. Bytes behind the frame are left alone.
pub open spec fn spec_from_reader(bytes: Seq<u8>) -> Result<PacketView, Error> {
    if bytes.len() < 2 {
        Err(Error::UnexpectedEOF)
    } else if bytes.len() < spec_frame_len(bytes[1]) {
        Err(Error::UnexpectedEOF)
    } else {
        let command = bytes.subrange(1, bytes[1] + 4);
        let frame_check_sequence = bytes[bytes[1] + 4];
        if frame_check_sequence != spec_checksum(command) {
            Err(Error::FrameCorrupted)
        } else {
            Ok(PacketView { start_of_frame: bytes[0], command, frame_check_sequence })
        }
    }
}

/// A reading result with its frame replaced by the frame's view.
pub open spec fn spec_result_view(result: Result<Packet, Error>) -> Result<PacketView, Error> {
    match result {
        Ok(packet) => Ok(packet@),
        Err(error) => Err(error),
    }
}

impl Packet {
    /// Wraps a frame body into a frame to be sent.
    pub fn from_body(body: Vec<u8>) -> (packet: Self)
        ensures
            packet@ == spec_frame(body@),
    {
        let frame_check_sequence = checksum(body.as_slice());
        Packet { start_of_frame: START_OF_FRAME, command: body, frame_check_sequence }
    }

    /// The frame that carries `command` when it is sent.
    pub fn from_command<C: ser::Command>(command: C) -> (packet: Self)
        ensures
            packet@ == spec_frame(ser::spec_serialize(&command)),
            packet@.spec_well_formed(),
    {
        Self::from_body(command.serialize())
    }

    /// The number of bytes that a frame with a payload of `data_len` bytes
    /// takes on the wire, start byte and check sequence included.
    pub fn frame_len(data_len: u8) -> (len: usize)
        ensures
            len == spec_frame_len(data_len),
    {
        data_len as usize + 5
    }

    /// Reads one frame from the front of `reader`.
    pub fn from_reader(reader: &[u8]) -> (packet: Result<Self, Error>)
        ensures
            spec_result_view(packet) == spec_from_reader(reader@),
            packet matches Ok(p) ==> p@.spec_well_formed(),
    {
        if reader.len() < 2 {
            return Err(Error::UnexpectedEOF);
        }
        let start_of_frame: u8 = reader[0];
        let data_len: u8 = reader[1];
        if reader.len() < Self::frame_len(data_len) {
            return Err(Error::UnexpectedEOF);
        }
        let end: usize = data_len as usize + 4;
        let command = slice_to_vec(slice_subrange(reader, 1, end));
        let frame_check_sequence: u8 = reader[end];
        let frame_check_sequence_target = checksum(command.as_slice());
        if frame_check_sequence != frame_check_sequence_target {
            return Err(Error::FrameCorrupted);
        }
        Ok(Packet { start_of_frame, command, frame_check_sequence })
    }

    /// The bytes of the frame in wire order.
    pub fn serialize(&self) -> (bytes: Vec<u8>)
        ensures
            bytes@ == self@.spec_serialize(),
    {
        let mut ret: Vec<u8> = Vec::new();
        ret.push(self.start_of_frame);
        ret.extend_from_slice(self.command.as_slice());
        ret.push(self.frame_check_sequence);
        ret
    }
}

/// A frame that a receiver accepts is read back from its own bytes, whatever
/// follows them.
pub proof fn lemma_serialize_then_read(packet: PacketView, rest: Seq<u8>)
    requires
        packet.spec_well_formed(),
    ensures
        spec_from_reader(packet.spec_serialize() + rest) == Ok::<PacketView, Error>(packet),
{
    let bytes = packet.spec_serialize() + rest;
    assert(bytes[1] == packet.command[0]);
    assert(bytes.subrange(1, bytes[1] + 4) =~= packet.command);
}

/// A frame that was read serializes to the bytes it was read from.
pub proof fn lemma_read_then_serialize(bytes: Seq<u8>)
    requires
        spec_from_reader(bytes) is Ok,
    ensures
        spec_from_reader(bytes)->Ok_0.spec_well_formed(),
        spec_from_reader(bytes)->Ok_0.spec_serialize() == bytes.take(
            spec_frame_len(bytes[1]) as int,
        ),
{
    let packet = spec_from_reader(bytes)->Ok_0;
    assert(packet.spec_serialize() =~= bytes.take(spec_frame_len(bytes[1]) as int));
}

/// Round trip: a payload of at most 255 bytes, sent in any direction to any
/// address, is read back from the bytes of its frame as the frame that was
/// sent, and the frame that is read gives back the direction, the address
/// and the payload.
pub proof fn lemma_round_trip(kind: CommandType, id: CommandID, data: Seq<u8>)
    requires
        data.len() <= 255,
    ensures
        ({
            let sent = spec_frame(ser::spec_frame_body(kind, id, data));
            let read = spec_from_reader(sent.spec_serialize());
            &&& read == Ok::<PacketView, Error>(sent)
            &&& read->Ok_0.spec_data_len() == data.len()
            &&& read->Ok_0.spec_direction() == kind.spec_to_u8()
            &&& read->Ok_0.spec_subsystem() == id.subsystem.spec_to_u8()
            &&& read->Ok_0.spec_id() == id.id
            &&& read->Ok_0.spec_payload() == data
        }),
{
    let sent = spec_frame(ser::spec_frame_body(kind, id, data));
    lemma_first_address_byte_splits(kind, id);
    lemma_serialize_then_read(sent, Seq::empty());
    assert(sent.spec_serialize() + Seq::<u8>::empty() =~= sent.spec_serialize());
    assert(sent.spec_payload() =~= data);
}

/// Replacing one byte of a sequence changes its checksum by the XOR of the
/// old byte and the new.
pub proof fn lemma_checksum_update(bytes: Seq<u8>, index: int, byte: u8)
    requires
        0 <= index < bytes.len(),
    ensures
        spec_checksum(bytes.update(index, byte)) == spec_checksum(bytes) ^ bytes[index] ^ byte,
    decreases bytes.len(),
{
    let updated = bytes.update(index, byte);
    let rest: u8 = spec_checksum(bytes.drop_last());
    let old_byte: u8 = bytes[index];
    let last: u8 = bytes.last();
    if index == bytes.len() - 1 {
        assert(updated.drop_last() =~= bytes.drop_last());
        assert(rest ^ byte == (rest ^ old_byte) ^ old_byte ^ byte) by (bit_vector);
    } else {
        assert(updated.drop_last() =~= bytes.drop_last().update(index, byte));
        lemma_checksum_update(bytes.drop_last(), index, byte);
        assert((rest ^ old_byte ^ byte) ^ last == (rest ^ last) ^ old_byte ^ byte) by (bit_vector);
    }
}

/// `bytes` with bit `bit` of the byte at `index` flipped.
pub open spec fn spec_flip_bit(bytes: Seq<u8>, index: int, bit: u8) -> Seq<u8> {
    bytes.update(index, bytes[index] ^ (1u8 << bit))
}

/// Whether flipping bit `bit` of the length byte of `wire` leaves a shorter
/// frame at the front of `wire` whose check sequence happens to fit: the one
/// flip that a receiver cannot tell from a frame that was sent.
pub open spec fn spec_flip_hides(wire: Seq<u8>, bit: u8) -> bool {
    let flipped = spec_flip_bit(wire, 1, bit);
    &&& flipped[1] < wire[1]
    &&& flipped[flipped[1] + 4] == spec_checksum(flipped.subrange(1, flipped[1] + 4))
}

/// A single flipped bit is noticed: where one bit of the bytes of a sent
/// frame, behind the start byte, is flipped, reading the frame fails. A flip
/// that raises the length is `UnexpectedEOF`; every other is
/// `FrameCorrupted`. Left out is the flip of a length bit that
/// [`spec_flip_hides`] describes.
pub proof fn lemma_bit_flip_detected(
    kind: CommandType,
    id: CommandID,
    data: Seq<u8>,
    index: int,
    bit: u8,
)
    requires
        data.len() <= 255,
        1 <= index < data.len() + 5,
        bit < 8,
        index == 1 ==> !spec_flip_hides(
            spec_frame(ser::spec_frame_body(kind, id, data)).spec_serialize(),
            bit,
        ),
    ensures
        ({
            let wire = spec_frame(ser::spec_frame_body(kind, id, data)).spec_serialize();
            let flipped = spec_flip_bit(wire, index, bit);
            spec_from_reader(flipped) == (if index == 1 && flipped[1] > wire[1] {
                Err::<PacketView, Error>(Error::UnexpectedEOF)
            } else {
                Err::<PacketView, Error>(Error::FrameCorrupted)
            })
        }),
{
    let body = ser::spec_frame_body(kind, id, data);
    let sent = spec_frame(body);
    let wire = sent.spec_serialize();
    let flipped = spec_flip_bit(wire, index, bit);
    let old_byte: u8 = wire[index];
    let new_byte: u8 = flipped[index];
    let fcs: u8 = spec_checksum(body);
    assert(new_byte != old_byte && (fcs ^ old_byte ^ new_byte) != fcs) by (bit_vector)
        requires
            new_byte == old_byte ^ (1u8 << bit),
            bit < 8,
    ;
    assert(wire.len() == data.len() + 5);
    assert(wire[1] == data.len());
    if index == 1 {
    } else if index < data.len() + 4 {
        assert(flipped.subrange(1, flipped[1] + 4) =~= body.update(index - 1, new_byte));
        lemma_checksum_update(body, index - 1, new_byte);
    } else {
        assert(flipped.subrange(1, flipped[1] + 4) =~= body);
    }
}

} // verus!
