//! The decisions of a correlated request/response exchange.
//!
//! A request is sent once. Then frames are received until something settles
//! the exchange: the answer to the command, the device's refusal, or a
//! failure of the transport. Every other frame, and every frame that could
//! not be read, is dropped, and after a pause the next one is awaited. The
//! request is never sent again.
//!
//! Who owns the transport writes what [`send_command`] gives, and hands what
//! each receive came to to [`receive`]. [`request`] runs the same exchange
//! over bytes that were received before.

use crate::command::de;
use crate::command::reserved::{spec_not_found_id, spec_not_found_type, ErrorCode};
use crate::command::ser;
use crate::command::{lemma_first_address_byte_splits, CommandID, CommandType};
use crate::packet;
use crate::packet::{Packet, PacketView};
use vstd::prelude::*;
use vstd::slice::slice_subrange;

verus! {

/// `std::io::Error`, carried through as it came: nothing is read from it.
#[verifier::external_type_specification]
#[verifier::external_body]
pub struct ExIoError(std::io::Error);

/// Why an exchange with the device failed.
#[derive(Debug)]
pub enum Error {
    Unknown,
    /// The transport failed.
    IO(std::io::Error),
    /// No frame could be read.
    Packet(packet::Error),
    /// A frame was read that is no answer.
    Deserialization(de::Error),
    /// The device does not know the command, for the reason it gave.
    CommandNotFound { error_code: ErrorCode },
}

/// The pause between two attempts to receive the answer, in milliseconds.
pub const RETRY_INTERVAL_MILLIS: u64 = 500;

/// What one attempt to receive the answer came to.
#[derive(Debug)]
pub enum Reception<T> {
    /// The answer arrived; the exchange ends with its output.
    Matched(T),
    /// The device refused the command; the exchange ends with its reason.
    NotFound { error_code: ErrorCode },
    /// The transport failed; the exchange ends with the failure.
    Failed(Error),
    /// Nothing that settles the exchange arrived; wait, then receive again.
    Retry,
}

/// An attempt with its output replaced by the output's view.
pub open spec fn spec_reception_view<T: View>(reception: Reception<T>) -> Reception<T::V> {
    match reception {
        Reception::Matched(output) => Reception::Matched(output@),
        Reception::NotFound { error_code } => Reception::NotFound { error_code },
        Reception::Failed(error) => Reception::Failed(error),
        Reception::Retry => Reception::Retry,
    }
}

/// What a receive came to, with its frame replaced by the frame's view.
pub open spec fn spec_received_view(received: Result<Packet, Error>) -> Result<PacketView, Error> {
    match received {
        Ok(frame) => Ok(frame@),
        Err(error) => Err(error),
    }
}

/// What the attempt to receive the answer to `command` comes to, given what
/// reading a frame gave: the answer settles the exchange, and so does the
/// device's refusal, which keeps its code; anything else, a failed read too,
/// asks for another attempt.
pub open spec fn spec_attempt<C: de::Command + ?Sized>(
    command: &C,
    received: Result<PacketView, packet::Error>,
) -> Reception<<C::Output as View>::V> {
    match received {
        Err(_) => Reception::Retry,
        Ok(frame) => match de::spec_deserialize(command, frame.command) {
            Ok(output) => Reception::Matched(output),
            Err(de::Error::CommandNotFound { error_code }) => Reception::NotFound { error_code },
            Err(_) => Reception::Retry,
        },
    }
}

/// What the attempt to receive the answer to `command` comes to, given what
/// the receive came to. A frame that was read, and one that could not be
/// read, count as [`spec_attempt`] says. Every other failure of the receive
/// is a failure of the transport, and settles the exchange at once.
pub open spec fn spec_receive<C: de::Command + ?Sized>(
    command: &C,
    received: Result<PacketView, Error>,
) -> Reception<<C::Output as View>::V> {
    match received {
        Ok(frame) => spec_attempt(command, Ok(frame)),
        Err(Error::Packet(error)) => spec_attempt(command, Err(error)),
        Err(error) => Reception::Failed(error),
    }
}

/// How a settled attempt ends the exchange; `None` where it asks for another
/// attempt.
pub open spec fn spec_outcome<V>(reception: Reception<V>) -> Option<Result<V, Error>> {
    match reception {
        Reception::Matched(output) => Some(Ok(output)),
        Reception::NotFound { error_code } => Some(Err(Error::CommandNotFound { error_code })),
        Reception::Failed(error) => Some(Err(error)),
        Reception::Retry => None,
    }
}

/// An exchange's end with its output replaced by the output's view.
pub open spec fn spec_outcome_view<T: View>(outcome: Option<Result<T, Error>>) -> Option<
    Result<T::V, Error>,
> {
    match outcome {
        Some(Ok(output)) => Some(Ok(output@)),
        Some(Err(error)) => Some(Err(error)),
        None => None,
    }
}

/// How the exchange for `command` goes when the bytes of `stream` are all
/// that arrives, and the receive that finds them used up comes to `end`:
/// how the exchange ends, and how many bytes are read up to then.
///
/// Frames are read from the front, one after the other. The first that
/// settles the exchange ends it, and nothing behind it is read. Where the
/// stream ends before a frame is complete, the incomplete frame is not
/// counted, and `end` decides: a failure of the transport ends the exchange
/// with that failure; with no `end`, or one that asks for another attempt,
/// the exchange has not ended, and the first component is `None`.
pub open spec fn spec_request<C: de::Command + ?Sized>(
    command: &C,
    stream: Seq<u8>,
    end: Option<Error>,
) -> (Option<Result<<C::Output as View>::V, Error>>, nat)
    decreases stream.len(),
{
    let received = packet::spec_from_reader(stream);
    if received == Err::<PacketView, packet::Error>(packet::Error::UnexpectedEOF) {
        match end {
            Some(error) => (spec_outcome(spec_receive(command, Err(error))), 0),
            None => (None, 0),
        }
    } else {
        let read = packet::spec_frame_len(stream[1]);
        match spec_outcome(spec_attempt(command, received)) {
            Some(outcome) => (Some(outcome), read),
            None => {
                let later = spec_request(command, stream.skip(read as int), end);
                (later.0, read + later.1)
            },
        }
    }
}

impl<T> Reception<T> {
    /// How the attempt ends the exchange; `None` where it asks for another
    /// attempt.
    pub fn outcome(self) -> (outcome: Option<Result<T, Error>>)
        ensures
            outcome == spec_outcome(self),
    {
        match self {
            Reception::Matched(output) => Some(Ok(output)),
            Reception::NotFound { error_code } => Some(
                Err(Error::CommandNotFound { error_code }),
            ),
            Reception::Failed(error) => Some(Err(error)),
            Reception::Retry => None,
        }
    }
}

/// The bytes to write when `command` is sent: its frame in wire order.
pub fn send_command<C: ser::Command>(command: &C) -> (bytes: Vec<u8>)
    ensures
        bytes@ == packet::spec_frame(ser::spec_serialize(command)).spec_serialize(),
{
    Packet::from_body(command.serialize()).serialize()
}

/// Decides what an attempt to receive the answer to `command` came to, from
/// what reading a frame gave.
pub fn attempt<C: de::Command>(command: &C, received: Result<Packet, packet::Error>) -> (reception:
    Reception<C::Output>)
    ensures
        spec_reception_view(reception) == spec_attempt(
            command,
            packet::spec_result_view(received),
        ),
{
    match received {
        Err(_) => Reception::Retry,
        Ok(frame) => match command.deserialize(frame.command) {
            Ok(output) => Reception::Matched(output),
            Err(de::Error::CommandNotFound { error_code }) => Reception::NotFound { error_code },
            Err(_) => Reception::Retry,
        },
    }
}

/// Decides what an attempt to receive the answer to `command` came to, from
/// what the receive came to, a failure of the transport among it.
pub fn receive<C: de::Command>(command: &C, received: Result<Packet, Error>) -> (reception:
    Reception<C::Output>)
    ensures
        spec_reception_view(reception) == spec_receive(command, spec_received_view(received)),
{
    match received {
        Ok(frame) => attempt(command, Ok(frame)),
        Err(Error::Packet(error)) => attempt(command, Err(error)),
        Err(error) => Reception::Failed(error),
    }
}

/// Runs the exchange for `command` over bytes that were received before,
/// with `end` for what the receive came to that found them used up, and
/// gives how the exchange ends and how many bytes were read up to then.
pub fn request<C: de::Command>(command: &C, stream: &[u8], end: Option<Error>) -> (result: (
    Option<Result<C::Output, Error>>,
    usize,
))
    ensures
        spec_outcome_view(result.0) == spec_request(command, stream@, end).0,
        result.1 == spec_request(command, stream@, end).1,
{
    let ghost last = end;
    let mut position: usize = 0;
    assert(stream@.skip(0) == stream@);
    loop
        invariant_except_break
            last == end,
            position <= stream.len(),
            spec_request(command, stream@, last).0 == spec_request(
                command,
                stream@.skip(position as int),
                last,
            ).0,
            spec_request(command, stream@, last).1 == position + spec_request(
                command,
                stream@.skip(position as int),
                last,
            ).1,
        ensures
            last == end,
            position <= stream.len(),
            packet::spec_from_reader(stream@.skip(position as int)) == Err::<
                PacketView,
                packet::Error,
            >(packet::Error::UnexpectedEOF),
            spec_request(command, stream@, last).0 == spec_request(
                command,
                stream@.skip(position as int),
                last,
            ).0,
            spec_request(command, stream@, last).1 == position + spec_request(
                command,
                stream@.skip(position as int),
                last,
            ).1,
        decreases stream.len() - position,
    {
        let rest = slice_subrange(stream, position, stream.len());
        assert(rest@ == stream@.skip(position as int));
        let received = Packet::from_reader(rest);
        if let Err(packet::Error::UnexpectedEOF) = received {
            break ;
        }
        let read: usize = Packet::frame_len(rest[1]);
        assert(stream@.skip(position as int).skip(read as int) == stream@.skip(position + read));
        let reception = attempt(command, received);
        assert(spec_outcome_view(spec_outcome(reception)) == spec_outcome(
            spec_reception_view(reception),
        ));
        match reception.outcome() {
            Some(outcome) => {
                return (Some(outcome), position + read);
            },
            None => {
                position = position + read;
            },
        }
    }
    match end {
        Some(error) => {
            let reception = receive(command, Err(error));
            assert(spec_outcome_view(spec_outcome(reception)) == spec_outcome(
                spec_reception_view(reception),
            ));
            (reception.outcome(), position)
        },
        None => (None, position),
    }
}

/// A frame that is complete within `bytes` is read the same whatever follows
/// `bytes`.
pub proof fn lemma_read_ignores_tail(bytes: Seq<u8>, tail: Seq<u8>)
    requires
        packet::spec_from_reader(bytes) != Err::<PacketView, packet::Error>(
            packet::Error::UnexpectedEOF,
        ),
    ensures
        packet::spec_from_reader(bytes + tail) == packet::spec_from_reader(bytes),
        packet::spec_frame_len(bytes[1]) <= bytes.len(),
{
    let longer = bytes + tail;
    assert(longer.subrange(1, longer[1] + 4) =~= bytes.subrange(1, bytes[1] + 4));
}

/// Frames that were read without settling the exchange change nothing but
/// the count: where all of `before` is read and the exchange has not ended,
/// the exchange over `before` followed by `stream` ends as the exchange over
/// `stream` does.
pub proof fn lemma_request_skips<C: de::Command + ?Sized>(
    command: &C,
    before: Seq<u8>,
    stream: Seq<u8>,
    end: Option<Error>,
)
    requires
        spec_request(command, before, None) == (
            None::<Result<<C::Output as View>::V, Error>>,
            before.len(),
        ),
    ensures
        spec_request(command, before + stream, end).0 == spec_request(command, stream, end).0,
        spec_request(command, before + stream, end).1 == before.len() + spec_request(
            command,
            stream,
            end,
        ).1,
    decreases before.len(),
{
    if before.len() == 0 {
        assert(before + stream =~= stream);
    } else {
        let read = packet::spec_frame_len(before[1]);
        lemma_read_ignores_tail(before, stream);
        assert((before + stream).skip(read as int) =~= before.skip(read as int) + stream);
        lemma_request_skips(command, before.skip(read as int), stream, end);
    }
}

/// The exchange ends on the first refusal, and with its code: where the
/// frames read so far have not settled the exchange and the next frame is
/// the device's refusal with `error_code`, the exchange ends with
/// `CommandNotFound` and that code as that frame is read, and nothing that
/// follows is read or changes how it ends.
pub proof fn lemma_request_ends_on_refusal<C: de::Command + ?Sized>(
    command: &C,
    before: Seq<u8>,
    refusal: PacketView,
    error_code: ErrorCode,
    rest: Seq<u8>,
    end: Option<Error>,
)
    requires
        spec_request(command, before, None) == (
            None::<Result<<C::Output as View>::V, Error>>,
            before.len(),
        ),
        refusal.spec_well_formed(),
        spec_attempt(command, Ok(refusal)) == (Reception::<<C::Output as View>::V>::NotFound {
            error_code,
        }),
    ensures
        spec_request(command, before + refusal.spec_serialize() + rest, end) == (
            Some(Err::<<C::Output as View>::V, Error>(Error::CommandNotFound { error_code })),
            before.len() + refusal.spec_serialize().len(),
        ),
{
    let wire = refusal.spec_serialize();
    packet::lemma_serialize_then_read(refusal, rest);
    lemma_request_skips(command, before, wire + rest, end);
    assert(before + wire + rest =~= before + (wire + rest));
}

/// The frame by which the device refuses a command with `error_code` is a
/// refusal with that code to whoever waits, whatever command they wait for.
pub proof fn lemma_refusal_is_not_found<C: de::Command + ?Sized>(
    command: &C,
    error_code: ErrorCode,
)
    ensures
        ({
            let refusal = packet::spec_frame(
                ser::spec_frame_body(
                    spec_not_found_type(),
                    spec_not_found_id(),
                    seq![error_code.spec_to_u8()],
                ),
            );
            &&& refusal.spec_well_formed()
            &&& spec_attempt(command, Ok(refusal)) == (Reception::<
                <C::Output as View>::V,
            >::NotFound { error_code })
        }),
{
    let body = ser::spec_frame_body(
        spec_not_found_type(),
        spec_not_found_id(),
        seq![error_code.spec_to_u8()],
    );
    lemma_first_address_byte_splits(spec_not_found_type(), spec_not_found_id());
    assert(body.skip(3) =~= seq![error_code.spec_to_u8()]);
    de::lemma_refusal_comes_first(C::spec_response_type(), C::spec_id(), body);
}

/// A failure of the transport ends the exchange at once: where the frames
/// read so far have not settled the exchange, and the next receive fails
/// with anything but a frame that could not be read, the exchange ends with
/// that failure, and no byte more is counted.
pub proof fn lemma_request_ends_on_failure<C: de::Command + ?Sized>(
    command: &C,
    before: Seq<u8>,
    failure: Error,
)
    requires
        spec_request(command, before, None) == (
            None::<Result<<C::Output as View>::V, Error>>,
            before.len(),
        ),
        failure !is Packet,
    ensures
        spec_receive(command, Err(failure)) == Reception::<<C::Output as View>::V>::Failed(
            failure,
        ),
        spec_request(command, before, Some(failure)) == (
            Some(Err::<<C::Output as View>::V, Error>(failure)),
            before.len(),
        ),
{
    lemma_request_skips(command, before, Seq::empty(), Some(failure));
    assert(before + Seq::<u8>::empty() =~= before);
}

/// A well-formed frame for another command is dropped: where a frame of
/// direction `kind` and address `other` is not what answers `command`, and
/// is not the device's refusal, it asks for another attempt, and the
/// exchange goes on with what follows it.
pub proof fn lemma_request_skips_other_command<C: de::Command + ?Sized>(
    command: &C,
    kind: CommandType,
    other: CommandID,
    data: Seq<u8>,
    rest: Seq<u8>,
    end: Option<Error>,
)
    requires
        data.len() <= 255,
        kind != C::spec_response_type() || other != C::spec_id(),
        kind != spec_not_found_type() || other != spec_not_found_id(),
    ensures
        ({
            let frame = packet::spec_frame(ser::spec_frame_body(kind, other, data));
            let wire = frame.spec_serialize();
            &&& spec_attempt(command, Ok(frame)) == Reception::<<C::Output as View>::V>::Retry
            &&& spec_request(command, wire + rest, end).0 == spec_request(command, rest, end).0
            &&& spec_request(command, wire + rest, end).1 == wire.len() + spec_request(
                command,
                rest,
                end,
            ).1
        }),
{
    let body = ser::spec_frame_body(kind, other, data);
    let frame = packet::spec_frame(body);
    let wire = frame.spec_serialize();
    lemma_first_address_byte_splits(kind, other);
    let subsystem = other.subsystem.spec_to_u8();
    assert(seq![subsystem, other.id][0] == subsystem);
    assert(seq![subsystem, other.id][1] == other.id);
    if kind == C::spec_response_type() {
        let expected = C::spec_id();
        assert(expected.spec_to_cmd()[0] == expected.subsystem.spec_to_u8());
        assert(expected.spec_to_cmd()[1] == expected.id);
    }
    assert(spec_attempt(command, Ok(frame)) == Reception::<<C::Output as View>::V>::Retry);
    packet::lemma_serialize_then_read(frame, rest);
    assert((wire + rest).skip(wire.len() as int) =~= rest);
}

} // verus!
