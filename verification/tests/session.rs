use znp::command::de::Command as _;
use znp::command::sys::{Capability, NVLength, Ping, NVID};
use znp::command::util::AssocFindDevice;
use znp::packet;
use znp::packet::Packet;
use znp::command::reserved::ErrorCode;
use znp::session::{
    attempt, receive, request, send_command, Error, Reception, RETRY_INTERVAL_MILLIS,
};

#[test]
fn send_command_gives_the_frame() {
    assert_eq!(send_command(&Ping {}), vec![0xFE, 0x00, 0x21, 0x01, 0x20]);
    assert_eq!(
        send_command(&AssocFindDevice::new(0)),
        vec![0xFE, 0x01, 0x27, 0x49, 0x00, 0x01 ^ 0x27 ^ 0x49]
    );
}

#[test]
fn retry_interval() {
    assert_eq!(RETRY_INTERVAL_MILLIS, 500);
}

#[test]
fn attempt_matches_the_answer() {
    let frame = Packet::from_reader(&[0xFE, 0x02, 0x61, 0x01, 0x00, 0x01, 0x63]);
    match attempt(&Ping {}, frame) {
        Reception::Matched(set) => assert_eq!(set.bits(), 0x0001),
        other => panic!("{:?}", other),
    }
}

#[test]
fn attempt_stops_on_refusal() {
    let frame = Packet::from_body(vec![0x01, 0x60, 0x00, 0x02]);
    assert!(matches!(
        attempt(&Ping {}, Ok(frame)),
        Reception::NotFound { error_code: ErrorCode::CommandID }
    ));
}

#[test]
fn attempt_retries_on_anything_else() {
    let other = Packet::from_body(vec![0x01, 0x67, 0x49, 0x00]);
    assert!(matches!(attempt(&Ping {}, Ok(other)), Reception::Retry));
    let request_echo = Packet::from_body(vec![0x00, 0x21, 0x01]);
    assert!(matches!(attempt(&Ping {}, Ok(request_echo)), Reception::Retry));
    let bad_payload = Packet::from_body(vec![0x01, 0x61, 0x01, 0x00]);
    assert!(matches!(attempt(&Ping {}, Ok(bad_payload)), Reception::Retry));
    let short = Packet { start_of_frame: 0xFE, command: vec![0x00], frame_check_sequence: 0 };
    assert!(matches!(attempt(&Ping {}, Ok(short)), Reception::Retry));
    assert!(matches!(
        attempt(&Ping {}, Err(packet::Error::UnexpectedEOF)),
        Reception::Retry
    ));
    assert!(matches!(
        attempt(&Ping {}, Err(packet::Error::FrameCorrupted)),
        Reception::Retry
    ));
    assert!(matches!(attempt(&Ping {}, Err(packet::Error::Unknown)), Reception::Retry));
}

#[test]
fn end_to_end_capabilities() {
    assert_eq!(send_command(&Ping {}), [0xFE, 0x00, 0x21, 0x01, 0x20]);
    let response = [0xFE, 0x02, 0x61, 0x01, 0x00, 0x01, 0x63];
    let (outcome, read) = request(&Ping {}, &response, None);
    let set = outcome.unwrap().unwrap();
    assert_eq!(read, 7);
    assert_eq!(set.bits(), Capability::SYS.bits());
    assert!(set.contains(Capability::SYS));
    assert!(!set.contains(Capability::MAC));
}

#[test]
fn frame_with_wrong_check_sequence_is_dropped() {
    let response = [0xFE, 0x02, 0x61, 0x01, 0x00, 0x01, 0x60];
    assert_eq!(Packet::from_reader(&response).unwrap_err(), packet::Error::FrameCorrupted);
    let (outcome, read) = request(&Ping {}, &response, None);
    assert!(outcome.is_none());
    assert_eq!(read, 7);
    let set = (Ping {}).deserialize(response[1..6].to_vec()).unwrap();
    assert_eq!(set.bits(), Capability::SYS.bits());
}

#[test]
fn request_waits_on_empty_stream() {
    let (outcome, read) = request(&Ping {}, &[], None);
    assert!(outcome.is_none());
    assert_eq!(read, 0);
}

#[test]
fn request_does_not_count_an_incomplete_frame() {
    let (outcome, read) = request(&Ping {}, &[0xFE, 0x02, 0x61, 0x01, 0x00], None);
    assert!(outcome.is_none());
    assert_eq!(read, 0);
}

#[test]
fn request_ends_on_the_first_refusal() {
    let mut stream = vec![];
    stream.extend(Packet::from_body(vec![0x01, 0x60, 0x00, 0x02]).serialize());
    let refusal_end = stream.len();
    stream.extend(Packet::from_body(vec![0x02, 0x61, 0x01, 0x00, 0x01]).serialize());
    let (outcome, read) = request(&Ping {}, &stream, None);
    assert!(matches!(
        outcome,
        Some(Err(Error::CommandNotFound { error_code: ErrorCode::CommandID }))
    ));
    assert_eq!(read, refusal_end);
}

#[test]
fn request_ends_on_refusal_after_retries() {
    let mut stream = vec![];
    stream.extend(Packet::from_body(vec![0x01, 0x67, 0x49, 0x00]).serialize());
    stream.extend(vec![0xFE, 0x00, 0x21, 0x01, 0x21]);
    stream.extend(Packet::from_body(vec![0x01, 0x60, 0x00, 0x01]).serialize());
    let refusal_end = stream.len();
    stream.extend(Packet::from_body(vec![0x04, 0x61, 0x32, 0x10, 0x00, 0x00, 0x00]).serialize());
    stream.extend(vec![0xFE, 0x07]);
    let (outcome, read) = request(&NVLength::new(NVID::new(1, 4, 0)), &stream, None);
    assert!(matches!(
        outcome,
        Some(Err(Error::CommandNotFound { error_code: ErrorCode::Subsystem }))
    ));
    assert_eq!(read, refusal_end);
}

#[test]
fn request_drops_a_frame_for_another_command() {
    let other = Packet::from_body(vec![0x01, 0x67, 0x49, 0x00]).serialize();
    let answer = Packet::from_body(vec![0x02, 0x61, 0x01, 0x01, 0x00]).serialize();
    let mut stream = other.clone();
    stream.extend(answer.clone());
    let (outcome, read) = request(&Ping {}, &stream, None);
    assert_eq!(outcome.unwrap().unwrap().bits(), 0x0100);
    assert_eq!(read, other.len() + answer.len());
    let (alone, read_alone) = request(&Ping {}, &answer, None);
    assert_eq!(alone.unwrap().unwrap().bits(), 0x0100);
    assert_eq!(read_alone, answer.len());
}

#[test]
fn request_goes_on_after_a_frame_for_another_command() {
    let other = Packet::from_body(vec![0x02, 0x61, 0x01, 0x00, 0x01]).serialize();
    let (outcome, read) = request(&AssocFindDevice::new(0), &other, None);
    assert!(outcome.is_none());
    assert_eq!(read, other.len());
}

#[test]
fn request_drops_a_corrupted_frame() {
    let mut stream = vec![0xFE, 0x02, 0x61, 0x01, 0x00, 0x01, 0x00];
    stream.extend(vec![0xFE, 0x02, 0x61, 0x01, 0x00, 0x03, 0x61]);
    stream.extend(vec![0xAA]);
    let (outcome, read) = request(&Ping {}, &stream, None);
    assert_eq!(outcome.unwrap().unwrap().bits(), 0x0003);
    assert_eq!(read, 14);
}

#[test]
fn request_hands_on_the_answer_of_each_command() {
    let device: Vec<u8> = (0..28).collect();
    let mut body = vec![28, 0x67, 0x49];
    body.extend(device.clone());
    let stream = Packet::from_body(body).serialize();
    let (outcome, read) = request(&AssocFindDevice::new(0), &stream, None);
    assert_eq!(outcome.unwrap().unwrap(), device);
    assert_eq!(read, 33);
    let stream = Packet::from_body(vec![0x04, 0x61, 0x32, 0x2A, 0x00, 0x00, 0x00]).serialize();
    let (outcome, _) = request(&NVLength::new(NVID::new(1, 4, 0)), &stream, None);
    assert_eq!(outcome.unwrap().unwrap(), 42);
}

#[test]
fn refusals_keep_their_codes() {
    for (byte, code) in [
        (0x01, ErrorCode::Subsystem),
        (0x02, ErrorCode::CommandID),
        (0x03, ErrorCode::Parameter),
        (0x04, ErrorCode::Length),
    ] {
        let stream = Packet::from_body(vec![0x01, 0x60, 0x00, byte]).serialize();
        let (outcome, read) = request(&Ping {}, &stream, None);
        match outcome {
            Some(Err(Error::CommandNotFound { error_code })) => assert_eq!(error_code, code),
            other => panic!("{:?}", other),
        }
        assert_eq!(read, 6);
        match receive(&Ping {}, Packet::from_reader(&stream).map_err(Error::Packet)).outcome() {
            Some(Err(Error::CommandNotFound { error_code })) => assert_eq!(error_code, code),
            other => panic!("{:?}", other),
        }
    }
}

#[test]
fn outcome_of_each_reception() {
    assert!(matches!(Reception::Matched(7u32).outcome(), Some(Ok(7))));
    assert!(matches!(
        Reception::<u32>::NotFound { error_code: ErrorCode::Length }.outcome(),
        Some(Err(Error::CommandNotFound { error_code: ErrorCode::Length }))
    ));
    assert!(matches!(
        Reception::<u32>::Failed(Error::Unknown).outcome(),
        Some(Err(Error::Unknown))
    ));
    assert!(Reception::<u32>::Retry.outcome().is_none());
}

#[test]
fn receive_counts_frames_as_attempt_does() {
    let answer = Packet::from_reader(&[0xFE, 0x02, 0x61, 0x01, 0x00, 0x01, 0x63]).unwrap();
    match receive(&Ping {}, Ok(answer)) {
        Reception::Matched(set) => assert_eq!(set.bits(), 0x0001),
        other => panic!("{:?}", other),
    }
    let other = Packet::from_body(vec![0x01, 0x67, 0x49, 0x00]);
    assert!(matches!(receive(&Ping {}, Ok(other)), Reception::Retry));
    assert!(matches!(
        receive(&Ping {}, Err(Error::Packet(packet::Error::UnexpectedEOF))),
        Reception::Retry
    ));
    assert!(matches!(
        receive(&Ping {}, Err(Error::Packet(packet::Error::FrameCorrupted))),
        Reception::Retry
    ));
}

#[test]
fn receive_ends_on_a_failure_of_the_transport() {
    let failure = std::io::Error::new(std::io::ErrorKind::BrokenPipe, "gone");
    match receive(&Ping {}, Err(Error::IO(failure))) {
        Reception::Failed(Error::IO(error)) => {
            assert_eq!(error.kind(), std::io::ErrorKind::BrokenPipe);
            assert_eq!(error.to_string(), "gone");
        }
        other => panic!("{:?}", other),
    }
    assert!(matches!(
        receive(&Ping {}, Err(Error::Unknown)),
        Reception::Failed(Error::Unknown)
    ));
}

#[test]
fn request_ends_on_a_failure_of_the_transport() {
    let mut stream = Packet::from_body(vec![0x01, 0x67, 0x49, 0x00]).serialize();
    let whole_frames = stream.len();
    stream.extend(vec![0xFE, 0x02, 0x61]);
    let failure = std::io::Error::new(std::io::ErrorKind::NotConnected, "unplugged");
    let (outcome, read) = request(&Ping {}, &stream, Some(Error::IO(failure)));
    match outcome {
        Some(Err(Error::IO(error))) => {
            assert_eq!(error.kind(), std::io::ErrorKind::NotConnected)
        }
        other => panic!("{:?}", other),
    }
    assert_eq!(read, whole_frames);
}

#[test]
fn request_settled_by_a_frame_does_not_reach_the_failure() {
    let stream = Packet::from_body(vec![0x02, 0x61, 0x01, 0x00, 0x01]).serialize();
    let failure = std::io::Error::new(std::io::ErrorKind::NotConnected, "unplugged");
    let (outcome, read) = request(&Ping {}, &stream, Some(Error::IO(failure)));
    assert_eq!(outcome.unwrap().unwrap().bits(), 0x0001);
    assert_eq!(read, 7);
}

#[test]
fn request_is_not_ended_by_a_short_read() {
    let stream = Packet::from_body(vec![0x01, 0x67, 0x49, 0x00]).serialize();
    let end = Some(Error::Packet(packet::Error::UnexpectedEOF));
    let (outcome, read) = request(&Ping {}, &stream, end);
    assert!(outcome.is_none());
    assert_eq!(read, stream.len());
}
