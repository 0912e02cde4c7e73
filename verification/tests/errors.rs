use socketcan::errors::{
    get_data, CanError, CanErrorDecodingFailure, ConstructionError, ControllerProblem, Location,
    TransceiverError, ViolationType,
};
use socketcan::frame::CanFrame;

fn error_frame(class: u32, payload: &[u8]) -> CanFrame {
    CanFrame::new(class, payload, false, true).unwrap()
}

#[test]
fn data_frame_is_never_decoded() {
    for &id in &[0u32, 1, 2, 4, 8, 0x100, 0x7FF, 0x1FFF_FFFF] {
        for &rtr in &[false, true] {
            let frame = CanFrame::new(id, &[5, 8, 1, 3], rtr, false).unwrap();
            assert_eq!(CanError::from_frame(&frame), Err(CanErrorDecodingFailure::NotAnError));
        }
    }
}

#[test]
fn error_frame_is_never_not_an_error() {
    for class in 0..0x200u32 {
        let frame = error_frame(class, &[0, 0, 0, 0]);
        assert_ne!(CanError::from_frame(&frame), Err(CanErrorDecodingFailure::NotAnError));
    }
}

#[test]
fn lost_arbitration_carries_the_bit() {
    assert_eq!(CanError::from_frame(&error_frame(0x2, &[5])), Ok(CanError::LostArbitration(5)));
    assert_eq!(
        CanError::from_frame(&error_frame(0x2, &[0, 9, 9])),
        Ok(CanError::LostArbitration(0))
    );
}

#[test]
fn controller_problem_is_read_from_byte_one() {
    assert_eq!(
        CanError::from_frame(&error_frame(0x4, &[0, 0x08])),
        Ok(CanError::ControllerProblem(ControllerProblem::TransmitErrorWarning))
    );
    assert_eq!(
        CanError::from_frame(&error_frame(0x4, &[0, 0xFF])),
        Err(CanErrorDecodingFailure::InvalidControllerProblem)
    );
}

#[test]
fn protocol_violation_is_read_from_bytes_two_and_three() {
    assert_eq!(
        CanError::from_frame(&error_frame(0x8, &[0x77, 0x99, 0x01, 0x03])),
        Ok(CanError::ProtocolViolation {
            vtype: ViolationType::SingleBitError,
            location: Location::StartOfFrame,
        })
    );
}

#[test]
fn classes_without_payload() {
    assert_eq!(CanError::from_frame(&error_frame(0x1, &[])), Ok(CanError::TransmitTimeout));
    assert_eq!(CanError::from_frame(&error_frame(0x10, &[])), Ok(CanError::TransceiverError));
    assert_eq!(CanError::from_frame(&error_frame(0x20, &[])), Ok(CanError::NoAck));
    assert_eq!(CanError::from_frame(&error_frame(0x40, &[])), Ok(CanError::BusOff));
    assert_eq!(CanError::from_frame(&error_frame(0x80, &[])), Ok(CanError::BusError));
    assert_eq!(CanError::from_frame(&error_frame(0x100, &[])), Ok(CanError::Restarted));
}

#[test]
fn unknown_class_is_reported_with_its_code() {
    assert_eq!(
        CanError::from_frame(&error_frame(0x0, &[])),
        Err(CanErrorDecodingFailure::UnknownErrorType(0))
    );
    assert_eq!(
        CanError::from_frame(&error_frame(0x3, &[1, 2, 3, 4])),
        Err(CanErrorDecodingFailure::UnknownErrorType(3))
    );
    assert_eq!(
        CanError::from_frame(&error_frame(0x200, &[])),
        Err(CanErrorDecodingFailure::UnknownErrorType(0x200))
    );
    assert_eq!(
        CanError::from_frame(&error_frame(0x1FFF_FFFF, &[])),
        Err(CanErrorDecodingFailure::UnknownErrorType(0x1FFF_FFFF))
    );
}

#[test]
fn short_payload_names_the_missing_index() {
    assert_eq!(
        CanError::from_frame(&error_frame(0x2, &[])),
        Err(CanErrorDecodingFailure::NotEnoughData(0))
    );
    assert_eq!(
        CanError::from_frame(&error_frame(0x4, &[0])),
        Err(CanErrorDecodingFailure::NotEnoughData(1))
    );
    assert_eq!(
        CanError::from_frame(&error_frame(0x8, &[0, 0])),
        Err(CanErrorDecodingFailure::NotEnoughData(2))
    );
    assert_eq!(
        CanError::from_frame(&error_frame(0x8, &[0, 0, 1])),
        Err(CanErrorDecodingFailure::NotEnoughData(3))
    );
}

#[test]
fn violation_kind_is_checked_before_the_location_is_read() {
    assert_eq!(
        CanError::from_frame(&error_frame(0x8, &[0, 0, 0x03])),
        Err(CanErrorDecodingFailure::InvalidViolationType)
    );
    assert_eq!(
        CanError::from_frame(&error_frame(0x8, &[0, 0, 0x03, 0x01])),
        Err(CanErrorDecodingFailure::InvalidViolationType)
    );
    assert_eq!(
        CanError::from_frame(&error_frame(0x8, &[0, 0, 0x01, 0x01])),
        Err(CanErrorDecodingFailure::InvalidLocation)
    );
}

#[test]
fn decoding_twice_gives_the_same() {
    let frame = error_frame(0x8, &[0, 0, 0x80, 0x1B]);
    let first = CanError::from_frame(&frame);
    assert_eq!(first, CanError::from_frame(&frame));
    assert_eq!(first, frame.error());
    assert_eq!(
        first,
        Ok(CanError::ProtocolViolation {
            vtype: ViolationType::TransmissionError,
            location: Location::AckDelimiter,
        })
    );
}

#[test]
fn payload_byte_or_its_index() {
    let frame = CanFrame::new(0x1, &[10, 20, 30], false, false).unwrap();
    assert_eq!(get_data(&frame, 0), Ok(10));
    assert_eq!(get_data(&frame, 2), Ok(30));
    assert_eq!(get_data(&frame, 3), Err(CanErrorDecodingFailure::NotEnoughData(3)));
    assert_eq!(get_data(&frame, 255), Err(CanErrorDecodingFailure::NotEnoughData(255)));
}

#[test]
fn controller_problem_table() {
    let table = [
        (0x00u8, ControllerProblem::Unspecified),
        (0x01, ControllerProblem::ReceiveBufferOverflow),
        (0x02, ControllerProblem::TransmitBufferOverflow),
        (0x04, ControllerProblem::ReceiveErrorWarning),
        (0x08, ControllerProblem::TransmitErrorWarning),
        (0x10, ControllerProblem::ReceiveErrorPassive),
        (0x20, ControllerProblem::TransmitErrorPassive),
        (0x40, ControllerProblem::Active),
    ];
    for byte in 0..=255u8 {
        let expected = table.iter().find(|(code, _)| *code == byte).map(|(_, p)| *p);
        assert_eq!(
            ControllerProblem::try_from(byte),
            expected.ok_or(CanErrorDecodingFailure::InvalidControllerProblem)
        );
    }
}

#[test]
fn violation_type_table() {
    let table = [
        (0x00u8, ViolationType::Unspecified),
        (0x01, ViolationType::SingleBitError),
        (0x02, ViolationType::FrameFormatError),
        (0x04, ViolationType::BitStuffingError),
        (0x08, ViolationType::UnableToSendDominantBit),
        (0x10, ViolationType::UnableToSendRecessiveBit),
        (0x20, ViolationType::BusOverload),
        (0x40, ViolationType::Active),
        (0x80, ViolationType::TransmissionError),
    ];
    for byte in 0..=255u8 {
        let expected = table.iter().find(|(code, _)| *code == byte).map(|(_, v)| *v);
        assert_eq!(
            ViolationType::try_from(byte),
            expected.ok_or(CanErrorDecodingFailure::InvalidViolationType)
        );
    }
}

#[test]
fn location_table() {
    let table = [
        (0x00u8, Location::Unspecified),
        (0x03, Location::StartOfFrame),
        (0x02, Location::Id2821),
        (0x06, Location::Id2018),
        (0x04, Location::SubstituteRtr),
        (0x05, Location::IdentifierExtension),
        (0x07, Location::Id1713),
        (0x0F, Location::Id1205),
        (0x0E, Location::Id0400),
        (0x0C, Location::Rtr),
        (0x0D, Location::Reserved1),
        (0x09, Location::Reserved0),
        (0x0B, Location::DataLengthCode),
        (0x0A, Location::DataSection),
        (0x08, Location::CrcSequence),
        (0x18, Location::CrcDelimiter),
        (0x19, Location::AckSlot),
        (0x1B, Location::AckDelimiter),
        (0x1A, Location::EndOfFrame),
        (0x12, Location::Intermission),
    ];
    for byte in 0..=255u8 {
        let expected = table.iter().find(|(code, _)| *code == byte).map(|(_, l)| *l);
        assert_eq!(
            Location::try_from(byte),
            expected.ok_or(CanErrorDecodingFailure::InvalidLocation)
        );
    }
}

#[test]
fn transceiver_error_table() {
    let table = [
        (0x00u8, TransceiverError::Unspecified),
        (0x04, TransceiverError::CanHighNoWire),
        (0x05, TransceiverError::CanHighShortToBat),
        (0x06, TransceiverError::CanHighShortToVcc),
        (0x07, TransceiverError::CanHighShortToGnd),
        (0x40, TransceiverError::CanLowNoWire),
        (0x50, TransceiverError::CanLowShortToBat),
        (0x60, TransceiverError::CanLowShortToVcc),
        (0x70, TransceiverError::CanLowShortToGnd),
        (0x80, TransceiverError::CanLowShortToCanHigh),
    ];
    for byte in 0..=255u8 {
        let expected = table.iter().find(|(code, _)| *code == byte).map(|(_, t)| *t);
        assert_eq!(
            TransceiverError::try_from(byte),
            expected.ok_or(CanErrorDecodingFailure::InvalidTransceiverError)
        );
    }
}

#[test]
fn construction_error_messages() {
    assert_eq!(ConstructionError::IDTooLarge.to_string(), "CAN ID too large");
    assert_eq!(
        ConstructionError::TooMuchData.to_string(),
        "Payload is larger than CAN maximum of 8 bytes"
    );
    assert_eq!(ConstructionError::IDTooLarge.description(), "can id too large");
    assert_eq!(ConstructionError::TooMuchData.description(), "too much data");
}

#[test]
fn decoding_failure_messages() {
    assert_eq!(CanErrorDecodingFailure::NotAnError.to_string(), "CAN frame is not an error");
    assert_eq!(CanErrorDecodingFailure::UnknownErrorType(7).to_string(), "unknown error type");
    assert_eq!(CanErrorDecodingFailure::NotEnoughData(2).to_string(), "not enough data");
    assert_eq!(
        CanErrorDecodingFailure::InvalidControllerProblem.to_string(),
        "not a valid controller problem"
    );
    assert_eq!(
        CanErrorDecodingFailure::InvalidViolationType.to_string(),
        "not a valid violation type"
    );
    assert_eq!(CanErrorDecodingFailure::InvalidLocation.to_string(), "not a valid location");
    assert_eq!(
        CanErrorDecodingFailure::InvalidTransceiverError.as_str(),
        "not a valid transceiver error"
    );
}

#[test]
fn report_messages() {
    assert_eq!(CanError::TransmitTimeout.to_string(), "transmission timeout");
    assert_eq!(CanError::LostArbitration(0).to_string(), "arbitration lost after 0 bits");
    assert_eq!(CanError::LostArbitration(5).to_string(), "arbitration lost after 5 bits");
    assert_eq!(CanError::LostArbitration(255).to_string(), "arbitration lost after 255 bits");
    assert_eq!(
        CanError::ControllerProblem(ControllerProblem::ReceiveErrorWarning).to_string(),
        "controller problem: ERROR WARNING (receive)"
    );
    assert_eq!(
        CanError::ProtocolViolation {
            vtype: ViolationType::BitStuffingError,
            location: Location::CrcSequence,
        }
        .to_string(),
        "protocol violation at CRC sequence: bit stuffing error"
    );
    assert_eq!(CanError::TransceiverError.to_string(), "transceiver error");
    assert_eq!(CanError::NoAck.to_string(), "no ack");
    assert_eq!(CanError::BusOff.to_string(), "bus off");
    assert_eq!(CanError::BusError.to_string(), "bus error");
    assert_eq!(CanError::Restarted.to_string(), "restarted");
    assert_eq!(CanError::Unknown(0).to_string(), "unknown error (0)");
    assert_eq!(CanError::Unknown(4294967295).to_string(), "unknown error (4294967295)");
}

#[test]
fn sub_kind_messages() {
    assert_eq!(ControllerProblem::Unspecified.to_string(), "unspecified controller problem");
    assert_eq!(ControllerProblem::ReceiveBufferOverflow.as_str(), "receive buffer overflow");
    assert_eq!(ControllerProblem::TransmitBufferOverflow.as_str(), "transmit buffer overflow");
    assert_eq!(ControllerProblem::TransmitErrorWarning.as_str(), "ERROR WARNING (transmit)");
    assert_eq!(ControllerProblem::ReceiveErrorPassive.as_str(), "ERROR PASSIVE (receive)");
    assert_eq!(ControllerProblem::TransmitErrorPassive.as_str(), "ERROR PASSIVE (transmit)");
    assert_eq!(ControllerProblem::Active.as_str(), "ERROR ACTIVE");
    assert_eq!(ViolationType::Unspecified.to_string(), "unspecified");
    assert_eq!(ViolationType::SingleBitError.as_str(), "single bit error");
    assert_eq!(ViolationType::FrameFormatError.as_str(), "frame format error");
    assert_eq!(ViolationType::UnableToSendDominantBit.as_str(), "unable to send dominant bit");
    assert_eq!(ViolationType::UnableToSendRecessiveBit.as_str(), "unable to send recessive bit");
    assert_eq!(ViolationType::BusOverload.as_str(), "bus overload");
    assert_eq!(ViolationType::Active.as_str(), "active");
    assert_eq!(ViolationType::TransmissionError.as_str(), "transmission error");
    assert_eq!(Location::Unspecified.to_string(), "unspecified location");
    assert_eq!(Location::StartOfFrame.as_str(), "start of frame");
    assert_eq!(Location::Id2821.as_str(), "ID, bits 28-21");
    assert_eq!(Location::Id2018.as_str(), "ID, bits 20-18");
    assert_eq!(Location::SubstituteRtr.as_str(), "substitute RTR bit");
    assert_eq!(Location::IdentifierExtension.as_str(), "ID, extension");
    assert_eq!(Location::Id1713.as_str(), "ID, bits 17-13");
    assert_eq!(Location::Id1205.as_str(), "ID, bits 12-05");
    assert_eq!(Location::Id0400.as_str(), "ID, bits 04-00");
    assert_eq!(Location::Rtr.as_str(), "RTR bit");
    assert_eq!(Location::Reserved1.as_str(), "reserved bit 1");
    assert_eq!(Location::Reserved0.as_str(), "reserved bit 0");
    assert_eq!(Location::DataLengthCode.as_str(), "data length code");
    assert_eq!(Location::DataSection.as_str(), "data section");
    assert_eq!(Location::CrcDelimiter.as_str(), "CRC delimiter");
    assert_eq!(Location::AckSlot.as_str(), "ACK slot");
    assert_eq!(Location::AckDelimiter.as_str(), "ACK delimiter");
    assert_eq!(Location::EndOfFrame.as_str(), "end of frame");
    assert_eq!(Location::Intermission.as_str(), "intermission");
    assert_eq!(TransceiverError::Unspecified.to_string(), "Unspecified");
    assert_eq!(TransceiverError::CanHighNoWire.as_str(), "CANbus High Wire Open");
    assert_eq!(TransceiverError::CanHighShortToBat.as_str(), "CANbus High Short to Battery");
    assert_eq!(TransceiverError::CanHighShortToVcc.as_str(), "CANbus High Short to VCC");
    assert_eq!(TransceiverError::CanHighShortToGnd.as_str(), "CANbus High Short to Ground");
    assert_eq!(TransceiverError::CanLowNoWire.as_str(), "CANbus Low Wire Open");
    assert_eq!(TransceiverError::CanLowShortToBat.as_str(), "CANbus Low Short to Battery");
    assert_eq!(TransceiverError::CanLowShortToVcc.as_str(), "CANbus Low Short to VCC");
    assert_eq!(TransceiverError::CanLowShortToGnd.as_str(), "CANbus Low Short to Ground");
    assert_eq!(TransceiverError::CanLowShortToCanHigh.as_str(), "CANbus Low and High Shorted");
}
