//! Errors of frame construction and the taxonomy of error frames.
//!
//! The kernel reports bus faults as frames with the error flag set. The
//! identifier word of such a frame names the class of the fault, and some
//! classes say more in fixed bytes of the payload. The byte codes are those of
//! the kernel's `can/error.h`.

use vstd::prelude::*;
use vstd::slice::slice_subrange;
use vstd::string::StringExecFns;
use crate::frame::{CanFrame, FrameModel};
use crate::task::TransportError;
use crate::text::{decimal, digits};

verus! {

/// Errors opening socket
#[derive(Debug, Copy, Clone, PartialEq, Eq, Structural)]
pub enum CanSocketOpenError {
    /// Device could not be found. Holds the error number of the lookup.
    LookupError(i32),
    /// System error while trying to create or bind the socket.
    IOError(TransportError),
}

/// Error that occurs when creating CAN frames.
#[derive(Debug, Copy, Clone, PartialEq, Eq, Structural)]
pub enum ConstructionError {
    /// CAN ID was outside the range of valid IDs.
    IDTooLarge,
    /// More than 8 bytes of payload data were passed in.
    TooMuchData,
}

impl ConstructionError {
    /// The message that describes the value.
    pub open spec fn text(self) -> Seq<char> {
        match self {
            ConstructionError::IDTooLarge => "CAN ID too large"@,
            ConstructionError::TooMuchData => "Payload is larger than CAN maximum of 8 bytes"@,
        }
    }

    /// The message that describes the value.
    pub fn as_str(&self) -> (message: &'static str)
        ensures
            message@ == self.text(),
    {
        match self {
            ConstructionError::IDTooLarge => "CAN ID too large",
            ConstructionError::TooMuchData => "Payload is larger than CAN maximum of 8 bytes",
        }
    }

    /// The message that describes the value, as a string of its own.
    pub fn to_string(&self) -> (message: String)
        ensures
            message@ == self.text(),
    {
        String::from_str(self.as_str())
    }

    /// A short name of the error.
    pub open spec fn description_text(self) -> Seq<char> {
        match self {
            ConstructionError::IDTooLarge => "can id too large"@,
            ConstructionError::TooMuchData => "too much data"@,
        }
    }

    /// A short name of the error.
    pub fn description(&self) -> (name: &'static str)
        ensures
            name@ == self.description_text(),
    {
        match self {
            ConstructionError::IDTooLarge => "can id too large",
            ConstructionError::TooMuchData => "too much data",
        }
    }
}

/// Error decoding a `CanError` from a `CanFrame`.
#[derive(Debug, Copy, Clone, PartialEq, Eq, Structural)]
pub enum CanErrorDecodingFailure {
    /// The supplied CanFrame did not have the error bit set.
    NotAnError,
    /// The error type is not known and cannot be decoded.
    UnknownErrorType(u32),
    /// The error type indicated a need for additional information as `data`,
    /// but the `data` field was not long enough. Holds the index of the
    /// byte that was missing.
    NotEnoughData(u8),
    /// The error type `ControllerProblem` was indicated and additional
    /// information found, but not recognized.
    InvalidControllerProblem,
    /// The type of the ProtocolViolation was not valid
    InvalidViolationType,
    /// A location was specified for a ProtocolViolation, but the location
    /// was not valid.
    InvalidLocation,
    /// The supplied transciever error was invalid.
    InvalidTransceiverError,
}

impl CanErrorDecodingFailure {
    /// The message that describes the value.
    pub open spec fn text(self) -> Seq<char> {
        match self {
            CanErrorDecodingFailure::NotAnError => "CAN frame is not an error"@,
            CanErrorDecodingFailure::UnknownErrorType(_) => "unknown error type"@,
            CanErrorDecodingFailure::NotEnoughData(_) => "not enough data"@,
            CanErrorDecodingFailure::InvalidControllerProblem => "not a valid controller problem"@,
            CanErrorDecodingFailure::InvalidViolationType => "not a valid violation type"@,
            CanErrorDecodingFailure::InvalidLocation => "not a valid location"@,
            CanErrorDecodingFailure::InvalidTransceiverError => "not a valid transceiver error"@,
        }
    }

    /// The message that describes the value.
    pub fn as_str(&self) -> (message: &'static str)
        ensures
            message@ == self.text(),
    {
        match self {
            CanErrorDecodingFailure::NotAnError => "CAN frame is not an error",
            CanErrorDecodingFailure::UnknownErrorType(_) => "unknown error type",
            CanErrorDecodingFailure::NotEnoughData(_) => "not enough data",
            CanErrorDecodingFailure::InvalidControllerProblem => "not a valid controller problem",
            CanErrorDecodingFailure::InvalidViolationType => "not a valid violation type",
            CanErrorDecodingFailure::InvalidLocation => "not a valid location",
            CanErrorDecodingFailure::InvalidTransceiverError => "not a valid transceiver error",
        }
    }

    /// The message that describes the value, as a string of its own.
    pub fn to_string(&self) -> (message: String)
        ensures
            message@ == self.text(),
    {
        String::from_str(self.as_str())
    }
}

/// What an error frame reports.
#[derive(Debug, Copy, Clone, PartialEq, Eq, Structural)]
pub enum CanError {
    /// TX timeout (by netdevice driver)
    TransmitTimeout,
    /// Arbitration was lost. Contains the number after which arbitration was
    /// lost or 0 if unspecified
    LostArbitration(u8),
    /// Controller problem, see `ControllerProblem`
    ControllerProblem(ControllerProblem),
    /// Protocol violation at the specified `Location`. See `ViolationType`
    /// for details.
    ProtocolViolation { vtype: ViolationType, location: Location },
    /// Transceiver Error.
    TransceiverError,
    /// No ACK received for current CAN frame.
    NoAck,
    /// Bus off (due to too many detected errors)
    BusOff,
    /// Bus error (due to too many detected errors)
    BusError,
    /// The bus has been restarted
    Restarted,
    /// Unknown, possibly invalid, error
    Unknown(u32),
}

impl CanError {
    /// The controller problem that byte 1 of the payload names.
    pub open spec fn decode_controller_problem(payload: Seq<u8>) -> Result<
        CanError,
        CanErrorDecodingFailure,
    > {
        match payload_byte(payload, 1) {
            Err(e) => Err(e),
            Ok(b) => match ControllerProblem::from_code(b) {
                None => Err(CanErrorDecodingFailure::InvalidControllerProblem),
                Some(problem) => Ok(CanError::ControllerProblem(problem)),
            },
        }
    }

    /// The protocol violation whose kind byte 2 of the payload names and whose
    /// location byte 3 names. The kind is read and looked up first.
    pub open spec fn decode_protocol_violation(payload: Seq<u8>) -> Result<
        CanError,
        CanErrorDecodingFailure,
    > {
        match payload_byte(payload, 2) {
            Err(e) => Err(e),
            Ok(kind) => match ViolationType::from_code(kind) {
                None => Err(CanErrorDecodingFailure::InvalidViolationType),
                Some(vtype) => match payload_byte(payload, 3) {
                    Err(e) => Err(e),
                    Ok(place) => match Location::from_code(place) {
                        None => Err(CanErrorDecodingFailure::InvalidLocation),
                        Some(location) => Ok(CanError::ProtocolViolation { vtype, location }),
                    },
                },
            },
        }
    }

    /// What an error frame reports. The error class bits of the identifier
    /// word select the report; three classes read the payload.
    pub open spec fn decode(frame: FrameModel) -> Result<CanError, CanErrorDecodingFailure> {
        let class = frame.err();
        if !frame.is_error() {
            Err(CanErrorDecodingFailure::NotAnError)
        } else if class == 0x00000001 {
            Ok(CanError::TransmitTimeout)
        } else if class == 0x00000002 {
            match payload_byte(frame.payload(), 0) {
                Err(e) => Err(e),
                Ok(bit) => Ok(CanError::LostArbitration(bit)),
            }
        } else if class == 0x00000004 {
            CanError::decode_controller_problem(frame.payload())
        } else if class == 0x00000008 {
            CanError::decode_protocol_violation(frame.payload())
        } else if class == 0x00000010 {
            Ok(CanError::TransceiverError)
        } else if class == 0x00000020 {
            Ok(CanError::NoAck)
        } else if class == 0x00000040 {
            Ok(CanError::BusOff)
        } else if class == 0x00000080 {
            Ok(CanError::BusError)
        } else if class == 0x00000100 {
            Ok(CanError::Restarted)
        } else {
            Err(CanErrorDecodingFailure::UnknownErrorType(class))
        }
    }

    /// Decodes the report of an error frame. A frame without the error flag
    /// gives `NotAnError` and never a report.
    pub fn from_frame(frame: &CanFrame) -> (r: Result<CanError, CanErrorDecodingFailure>)
        ensures
            r == CanError::decode(frame@),
            !frame@.is_error() <==> r == Err::<CanError, CanErrorDecodingFailure>(
                CanErrorDecodingFailure::NotAnError,
            ),
    {
        if !frame.is_error() {
            return Err(CanErrorDecodingFailure::NotAnError);
        }
        match frame.err() {
            0x00000001 => Ok(CanError::TransmitTimeout),
            0x00000002 => match get_data(frame, 0) {
                Ok(bit) => Ok(CanError::LostArbitration(bit)),
                Err(e) => Err(e),
            },
            0x00000004 => {
                let byte = match get_data(frame, 1) {
                    Ok(b) => b,
                    Err(e) => {
                        return Err(e);
                    },
                };
                match ControllerProblem::try_from(byte) {
                    Ok(problem) => Ok(CanError::ControllerProblem(problem)),
                    Err(e) => Err(e),
                }
            },
            0x00000008 => {
                let kind = match get_data(frame, 2) {
                    Ok(b) => b,
                    Err(e) => {
                        return Err(e);
                    },
                };
                let vtype = match ViolationType::try_from(kind) {
                    Ok(v) => v,
                    Err(e) => {
                        return Err(e);
                    },
                };
                let place = match get_data(frame, 3) {
                    Ok(b) => b,
                    Err(e) => {
                        return Err(e);
                    },
                };
                let location = match Location::try_from(place) {
                    Ok(l) => l,
                    Err(e) => {
                        return Err(e);
                    },
                };
                Ok(CanError::ProtocolViolation { vtype, location })
            },
            0x00000010 => Ok(CanError::TransceiverError),
            0x00000020 => Ok(CanError::NoAck),
            0x00000040 => Ok(CanError::BusOff),
            0x00000080 => Ok(CanError::BusError),
            0x00000100 => Ok(CanError::Restarted),
            e => Err(CanErrorDecodingFailure::UnknownErrorType(e)),
        }
    }

    /// The message that describes the report.
    pub open spec fn text(self) -> Seq<char> {
        match self {
            CanError::TransmitTimeout => "transmission timeout"@,
            CanError::LostArbitration(n) => "arbitration lost after "@ + digits(n as nat, 10)
                + " bits"@,
            CanError::ControllerProblem(e) => "controller problem: "@ + e.text(),
            CanError::ProtocolViolation { vtype, location } => "protocol violation at "@
                + location.text() + ": "@ + vtype.text(),
            CanError::TransceiverError => "transceiver error"@,
            CanError::NoAck => "no ack"@,
            CanError::BusOff => "bus off"@,
            CanError::BusError => "bus error"@,
            CanError::Restarted => "restarted"@,
            CanError::Unknown(errno) => "unknown error ("@ + digits(errno as nat, 10) + ")"@,
        }
    }

    /// The message that describes the report.
    pub fn to_string(&self) -> (message: String)
        ensures
            message@ == self.text(),
    {
        match self {
            CanError::TransmitTimeout => String::from_str("transmission timeout"),
            CanError::LostArbitration(n) => {
                let mut message = String::from_str("arbitration lost after ");
                let count = decimal(*n as u32);
                message.append(count.as_str());
                message.append(" bits");
                message
            },
            CanError::ControllerProblem(e) => {
                let mut message = String::from_str("controller problem: ");
                message.append(e.as_str());
                message
            },
            CanError::ProtocolViolation { vtype, location } => {
                let mut message = String::from_str("protocol violation at ");
                message.append(location.as_str());
                message.append(": ");
                message.append(vtype.as_str());
                message
            },
            CanError::TransceiverError => String::from_str("transceiver error"),
            CanError::NoAck => String::from_str("no ack"),
            CanError::BusOff => String::from_str("bus off"),
            CanError::BusError => String::from_str("bus error"),
            CanError::Restarted => String::from_str("restarted"),
            CanError::Unknown(errno) => {
                let mut message = String::from_str("unknown error (");
                let number = decimal(*errno);
                message.append(number.as_str());
                message.append(")");
                message
            },
        }
    }
}

/// What is wrong with the controller, as byte 1 of the payload of an error
/// frame says it.
#[derive(Debug, Copy, Clone, PartialEq, Eq, Structural)]
pub enum ControllerProblem {
    /// unspecified
    Unspecified,
    /// RX buffer overflow
    ReceiveBufferOverflow,
    /// TX buffer overflow
    TransmitBufferOverflow,
    /// reached warning level for RX errors
    ReceiveErrorWarning,
    /// reached warning level for TX errors
    TransmitErrorWarning,
    /// reached error passive status RX
    ReceiveErrorPassive,
    /// reached error passive status TX
    TransmitErrorPassive,
    /// recovered to error active state
    Active,
}

impl ControllerProblem {
    /// The problem that the byte `val` stands for in an error frame, if any.
    pub open spec fn from_code(val: u8) -> Option<ControllerProblem> {
        if val == 0x00 {
            Some(ControllerProblem::Unspecified)
        } else if val == 0x01 {
            Some(ControllerProblem::ReceiveBufferOverflow)
        } else if val == 0x02 {
            Some(ControllerProblem::TransmitBufferOverflow)
        } else if val == 0x04 {
            Some(ControllerProblem::ReceiveErrorWarning)
        } else if val == 0x08 {
            Some(ControllerProblem::TransmitErrorWarning)
        } else if val == 0x10 {
            Some(ControllerProblem::ReceiveErrorPassive)
        } else if val == 0x20 {
            Some(ControllerProblem::TransmitErrorPassive)
        } else if val == 0x40 {
            Some(ControllerProblem::Active)
        } else {
            None
        }
    }

    /// The byte that stands for this problem in an error frame.
    pub open spec fn code(self) -> u8 {
        match self {
            ControllerProblem::Unspecified => 0x00,
            ControllerProblem::ReceiveBufferOverflow => 0x01,
            ControllerProblem::TransmitBufferOverflow => 0x02,
            ControllerProblem::ReceiveErrorWarning => 0x04,
            ControllerProblem::TransmitErrorWarning => 0x08,
            ControllerProblem::ReceiveErrorPassive => 0x10,
            ControllerProblem::TransmitErrorPassive => 0x20,
            ControllerProblem::Active => 0x40,
        }
    }

    /// `code` and `from_code` are one table, read in the two directions.
    pub proof fn lemma_code_table(problem: ControllerProblem, val: u8)
        ensures
            ControllerProblem::from_code(val) == Some(problem) <==> problem.code() == val,
    {
    }

    /// The problem whose code is `val`. Fails with `InvalidControllerProblem` where no
    /// code of the table is `val`.
    pub fn try_from(val: u8) -> (r: Result<ControllerProblem, CanErrorDecodingFailure>)
        ensures
            r == (match ControllerProblem::from_code(val) {
                Some(problem) => Ok::<ControllerProblem, CanErrorDecodingFailure>(problem),
                None => Err(CanErrorDecodingFailure::InvalidControllerProblem),
            }),
    {
        match val {
            0x00 => Ok(ControllerProblem::Unspecified),
            0x01 => Ok(ControllerProblem::ReceiveBufferOverflow),
            0x02 => Ok(ControllerProblem::TransmitBufferOverflow),
            0x04 => Ok(ControllerProblem::ReceiveErrorWarning),
            0x08 => Ok(ControllerProblem::TransmitErrorWarning),
            0x10 => Ok(ControllerProblem::ReceiveErrorPassive),
            0x20 => Ok(ControllerProblem::TransmitErrorPassive),
            0x40 => Ok(ControllerProblem::Active),
            _ => Err(CanErrorDecodingFailure::InvalidControllerProblem),
        }
    }

    /// The message that describes the value.
    pub open spec fn text(self) -> Seq<char> {
        match self {
            ControllerProblem::Unspecified => "unspecified controller problem"@,
            ControllerProblem::ReceiveBufferOverflow => "receive buffer overflow"@,
            ControllerProblem::TransmitBufferOverflow => "transmit buffer overflow"@,
            ControllerProblem::ReceiveErrorWarning => "ERROR WARNING (receive)"@,
            ControllerProblem::TransmitErrorWarning => "ERROR WARNING (transmit)"@,
            ControllerProblem::ReceiveErrorPassive => "ERROR PASSIVE (receive)"@,
            ControllerProblem::TransmitErrorPassive => "ERROR PASSIVE (transmit)"@,
            ControllerProblem::Active => "ERROR ACTIVE"@,
        }
    }

    /// The message that describes the value.
    pub fn as_str(&self) -> (message: &'static str)
        ensures
            message@ == self.text(),
    {
        match self {
            ControllerProblem::Unspecified => "unspecified controller problem",
            ControllerProblem::ReceiveBufferOverflow => "receive buffer overflow",
            ControllerProblem::TransmitBufferOverflow => "transmit buffer overflow",
            ControllerProblem::ReceiveErrorWarning => "ERROR WARNING (receive)",
            ControllerProblem::TransmitErrorWarning => "ERROR WARNING (transmit)",
            ControllerProblem::ReceiveErrorPassive => "ERROR PASSIVE (receive)",
            ControllerProblem::TransmitErrorPassive => "ERROR PASSIVE (transmit)",
            ControllerProblem::Active => "ERROR ACTIVE",
        }
    }

    /// The message that describes the value, as a string of its own.
    pub fn to_string(&self) -> (message: String)
        ensures
            message@ == self.text(),
    {
        String::from_str(self.as_str())
    }
}

/// How the protocol was violated, as byte 2 of the payload of an error frame
/// says it.
#[derive(Debug, Copy, Clone, PartialEq, Eq, Structural)]
pub enum ViolationType {
    /// Unspecified Violation
    Unspecified,
    /// Single Bit Error
    SingleBitError,
    /// Frame formatting error
    FrameFormatError,
    /// Bit stuffing error
    BitStuffingError,
    /// A dominant bit was sent, but not received
    UnableToSendDominantBit,
    /// A recessive bit was sent, but not received
    UnableToSendRecessiveBit,
    /// Bus overloaded
    BusOverload,
    /// Bus is active (again)
    Active,
    /// Transmission Error
    TransmissionError,
}

impl ViolationType {
    /// The kind of violation that the byte `val` stands for in an error frame, if any.
    pub open spec fn from_code(val: u8) -> Option<ViolationType> {
        if val == 0x00 {
            Some(ViolationType::Unspecified)
        } else if val == 0x01 {
            Some(ViolationType::SingleBitError)
        } else if val == 0x02 {
            Some(ViolationType::FrameFormatError)
        } else if val == 0x04 {
            Some(ViolationType::BitStuffingError)
        } else if val == 0x08 {
            Some(ViolationType::UnableToSendDominantBit)
        } else if val == 0x10 {
            Some(ViolationType::UnableToSendRecessiveBit)
        } else if val == 0x20 {
            Some(ViolationType::BusOverload)
        } else if val == 0x40 {
            Some(ViolationType::Active)
        } else if val == 0x80 {
            Some(ViolationType::TransmissionError)
        } else {
            None
        }
    }

    /// The byte that stands for this kind of violation in an error frame.
    pub open spec fn code(self) -> u8 {
        match self {
            ViolationType::Unspecified => 0x00,
            ViolationType::SingleBitError => 0x01,
            ViolationType::FrameFormatError => 0x02,
            ViolationType::BitStuffingError => 0x04,
            ViolationType::UnableToSendDominantBit => 0x08,
            ViolationType::UnableToSendRecessiveBit => 0x10,
            ViolationType::BusOverload => 0x20,
            ViolationType::Active => 0x40,
            ViolationType::TransmissionError => 0x80,
        }
    }

    /// `code` and `from_code` are one table, read in the two directions.
    pub proof fn lemma_code_table(violation: ViolationType, val: u8)
        ensures
            ViolationType::from_code(val) == Some(violation) <==> violation.code() == val,
    {
    }

    /// The kind of violation whose code is `val`. Fails with `InvalidViolationType` where no
    /// code of the table is `val`.
    pub fn try_from(val: u8) -> (r: Result<ViolationType, CanErrorDecodingFailure>)
        ensures
            r == (match ViolationType::from_code(val) {
                Some(violation) => Ok::<ViolationType, CanErrorDecodingFailure>(violation),
                None => Err(CanErrorDecodingFailure::InvalidViolationType),
            }),
    {
        match val {
            0x00 => Ok(ViolationType::Unspecified),
            0x01 => Ok(ViolationType::SingleBitError),
            0x02 => Ok(ViolationType::FrameFormatError),
            0x04 => Ok(ViolationType::BitStuffingError),
            0x08 => Ok(ViolationType::UnableToSendDominantBit),
            0x10 => Ok(ViolationType::UnableToSendRecessiveBit),
            0x20 => Ok(ViolationType::BusOverload),
            0x40 => Ok(ViolationType::Active),
            0x80 => Ok(ViolationType::TransmissionError),
            _ => Err(CanErrorDecodingFailure::InvalidViolationType),
        }
    }

    /// The message that describes the value.
    pub open spec fn text(self) -> Seq<char> {
        match self {
            ViolationType::Unspecified => "unspecified"@,
            ViolationType::SingleBitError => "single bit error"@,
            ViolationType::FrameFormatError => "frame format error"@,
            ViolationType::BitStuffingError => "bit stuffing error"@,
            ViolationType::UnableToSendDominantBit => "unable to send dominant bit"@,
            ViolationType::UnableToSendRecessiveBit => "unable to send recessive bit"@,
            ViolationType::BusOverload => "bus overload"@,
            ViolationType::Active => "active"@,
            ViolationType::TransmissionError => "transmission error"@,
        }
    }

    /// The message that describes the value.
    pub fn as_str(&self) -> (message: &'static str)
        ensures
            message@ == self.text(),
    {
        match self {
            ViolationType::Unspecified => "unspecified",
            ViolationType::SingleBitError => "single bit error",
            ViolationType::FrameFormatError => "frame format error",
            ViolationType::BitStuffingError => "bit stuffing error",
            ViolationType::UnableToSendDominantBit => "unable to send dominant bit",
            ViolationType::UnableToSendRecessiveBit => "unable to send recessive bit",
            ViolationType::BusOverload => "bus overload",
            ViolationType::Active => "active",
            ViolationType::TransmissionError => "transmission error",
        }
    }

    /// The message that describes the value, as a string of its own.
    pub fn to_string(&self) -> (message: String)
        ensures
            message@ == self.text(),
    {
        String::from_str(self.as_str())
    }
}

/// Location
///
/// Describes where inside a received frame an error occured, as byte 3 of the
/// payload of an error frame says it.
#[derive(Debug, Copy, Clone, PartialEq, Eq, Structural)]
pub enum Location {
    /// Unspecified
    Unspecified,
    /// Start of frame.
    StartOfFrame,
    /// ID bits 28-21 (SFF: 10-3)
    Id2821,
    /// ID bits 20-18 (SFF: 2-0)
    Id2018,
    /// substitute RTR (SFF: RTR)
    SubstituteRtr,
    /// extension of identifier
    IdentifierExtension,
    /// ID bits 17-13
    Id1713,
    /// ID bits 12-5
    Id1205,
    /// ID bits 4-0
    Id0400,
    /// RTR bit
    Rtr,
    /// Reserved bit 1
    Reserved1,
    /// Reserved bit 0
    Reserved0,
    /// Data length
    DataLengthCode,
    /// Data section
    DataSection,
    /// CRC sequence
    CrcSequence,
    /// CRC delimiter
    CrcDelimiter,
    /// ACK slot
    AckSlot,
    /// ACK delimiter
    AckDelimiter,
    /// End-of-frame
    EndOfFrame,
    /// Intermission (between frames)
    Intermission,
}

impl Location {
    /// The location that the byte `val` stands for in an error frame, if any.
    pub open spec fn from_code(val: u8) -> Option<Location> {
        if val == 0x00 {
            Some(Location::Unspecified)
        } else if val == 0x03 {
            Some(Location::StartOfFrame)
        } else if val == 0x02 {
            Some(Location::Id2821)
        } else if val == 0x06 {
            Some(Location::Id2018)
        } else if val == 0x04 {
            Some(Location::SubstituteRtr)
        } else if val == 0x05 {
            Some(Location::IdentifierExtension)
        } else if val == 0x07 {
            Some(Location::Id1713)
        } else if val == 0x0F {
            Some(Location::Id1205)
        } else if val == 0x0E {
            Some(Location::Id0400)
        } else if val == 0x0C {
            Some(Location::Rtr)
        } else if val == 0x0D {
            Some(Location::Reserved1)
        } else if val == 0x09 {
            Some(Location::Reserved0)
        } else if val == 0x0B {
            Some(Location::DataLengthCode)
        } else if val == 0x0A {
            Some(Location::DataSection)
        } else if val == 0x08 {
            Some(Location::CrcSequence)
        } else if val == 0x18 {
            Some(Location::CrcDelimiter)
        } else if val == 0x19 {
            Some(Location::AckSlot)
        } else if val == 0x1B {
            Some(Location::AckDelimiter)
        } else if val == 0x1A {
            Some(Location::EndOfFrame)
        } else if val == 0x12 {
            Some(Location::Intermission)
        } else {
            None
        }
    }

    /// The byte that stands for this location in an error frame.
    pub open spec fn code(self) -> u8 {
        match self {
            Location::Unspecified => 0x00,
            Location::StartOfFrame => 0x03,
            Location::Id2821 => 0x02,
            Location::Id2018 => 0x06,
            Location::SubstituteRtr => 0x04,
            Location::IdentifierExtension => 0x05,
            Location::Id1713 => 0x07,
            Location::Id1205 => 0x0F,
            Location::Id0400 => 0x0E,
            Location::Rtr => 0x0C,
            Location::Reserved1 => 0x0D,
            Location::Reserved0 => 0x09,
            Location::DataLengthCode => 0x0B,
            Location::DataSection => 0x0A,
            Location::CrcSequence => 0x08,
            Location::CrcDelimiter => 0x18,
            Location::AckSlot => 0x19,
            Location::AckDelimiter => 0x1B,
            Location::EndOfFrame => 0x1A,
            Location::Intermission => 0x12,
        }
    }

    /// `code` and `from_code` are one table, read in the two directions.
    pub proof fn lemma_code_table(location: Location, val: u8)
        ensures
            Location::from_code(val) == Some(location) <==> location.code() == val,
    {
    }

    /// The location whose code is `val`. Fails with `InvalidLocation` where no
    /// code of the table is `val`.
    pub fn try_from(val: u8) -> (r: Result<Location, CanErrorDecodingFailure>)
        ensures
            r == (match Location::from_code(val) {
                Some(location) => Ok::<Location, CanErrorDecodingFailure>(location),
                None => Err(CanErrorDecodingFailure::InvalidLocation),
            }),
    {
        match val {
            0x00 => Ok(Location::Unspecified),
            0x03 => Ok(Location::StartOfFrame),
            0x02 => Ok(Location::Id2821),
            0x06 => Ok(Location::Id2018),
            0x04 => Ok(Location::SubstituteRtr),
            0x05 => Ok(Location::IdentifierExtension),
            0x07 => Ok(Location::Id1713),
            0x0F => Ok(Location::Id1205),
            0x0E => Ok(Location::Id0400),
            0x0C => Ok(Location::Rtr),
            0x0D => Ok(Location::Reserved1),
            0x09 => Ok(Location::Reserved0),
            0x0B => Ok(Location::DataLengthCode),
            0x0A => Ok(Location::DataSection),
            0x08 => Ok(Location::CrcSequence),
            0x18 => Ok(Location::CrcDelimiter),
            0x19 => Ok(Location::AckSlot),
            0x1B => Ok(Location::AckDelimiter),
            0x1A => Ok(Location::EndOfFrame),
            0x12 => Ok(Location::Intermission),
            _ => Err(CanErrorDecodingFailure::InvalidLocation),
        }
    }

    /// The message that describes the value.
    pub open spec fn text(self) -> Seq<char> {
        match self {
            Location::Unspecified => "unspecified location"@,
            Location::StartOfFrame => "start of frame"@,
            Location::Id2821 => "ID, bits 28-21"@,
            Location::Id2018 => "ID, bits 20-18"@,
            Location::SubstituteRtr => "substitute RTR bit"@,
            Location::IdentifierExtension => "ID, extension"@,
            Location::Id1713 => "ID, bits 17-13"@,
            Location::Id1205 => "ID, bits 12-05"@,
            Location::Id0400 => "ID, bits 04-00"@,
            Location::Rtr => "RTR bit"@,
            Location::Reserved1 => "reserved bit 1"@,
            Location::Reserved0 => "reserved bit 0"@,
            Location::DataLengthCode => "data length code"@,
            Location::DataSection => "data section"@,
            Location::CrcSequence => "CRC sequence"@,
            Location::CrcDelimiter => "CRC delimiter"@,
            Location::AckSlot => "ACK slot"@,
            Location::AckDelimiter => "ACK delimiter"@,
            Location::EndOfFrame => "end of frame"@,
            Location::Intermission => "intermission"@,
        }
    }

    /// The message that describes the value.
    pub fn as_str(&self) -> (message: &'static str)
        ensures
            message@ == self.text(),
    {
        match self {
            Location::Unspecified => "unspecified location",
            Location::StartOfFrame => "start of frame",
            Location::Id2821 => "ID, bits 28-21",
            Location::Id2018 => "ID, bits 20-18",
            Location::SubstituteRtr => "substitute RTR bit",
            Location::IdentifierExtension => "ID, extension",
            Location::Id1713 => "ID, bits 17-13",
            Location::Id1205 => "ID, bits 12-05",
            Location::Id0400 => "ID, bits 04-00",
            Location::Rtr => "RTR bit",
            Location::Reserved1 => "reserved bit 1",
            Location::Reserved0 => "reserved bit 0",
            Location::DataLengthCode => "data length code",
            Location::DataSection => "data section",
            Location::CrcSequence => "CRC sequence",
            Location::CrcDelimiter => "CRC delimiter",
            Location::AckSlot => "ACK slot",
            Location::AckDelimiter => "ACK delimiter",
            Location::EndOfFrame => "end of frame",
            Location::Intermission => "intermission",
        }
    }

    /// The message that describes the value, as a string of its own.
    pub fn to_string(&self) -> (message: String)
        ensures
            message@ == self.text(),
    {
        String::from_str(self.as_str())
    }
}

/// What is wrong with the transceiver, as a byte of the payload of an error
/// frame says it.
#[derive(Debug, Copy, Clone, PartialEq, Eq, Structural)]
pub enum TransceiverError {
    Unspecified,
    CanHighNoWire,
    CanHighShortToBat,
    CanHighShortToVcc,
    CanHighShortToGnd,
    CanLowNoWire,
    CanLowShortToBat,
    CanLowShortToVcc,
    CanLowShortToGnd,
    CanLowShortToCanHigh,
}

impl TransceiverError {
    /// The transceiver fault that the byte `val` stands for in an error frame, if any.
    pub open spec fn from_code(val: u8) -> Option<TransceiverError> {
        if val == 0x00 {
            Some(TransceiverError::Unspecified)
        } else if val == 0x04 {
            Some(TransceiverError::CanHighNoWire)
        } else if val == 0x05 {
            Some(TransceiverError::CanHighShortToBat)
        } else if val == 0x06 {
            Some(TransceiverError::CanHighShortToVcc)
        } else if val == 0x07 {
            Some(TransceiverError::CanHighShortToGnd)
        } else if val == 0x40 {
            Some(TransceiverError::CanLowNoWire)
        } else if val == 0x50 {
            Some(TransceiverError::CanLowShortToBat)
        } else if val == 0x60 {
            Some(TransceiverError::CanLowShortToVcc)
        } else if val == 0x70 {
            Some(TransceiverError::CanLowShortToGnd)
        } else if val == 0x80 {
            Some(TransceiverError::CanLowShortToCanHigh)
        } else {
            None
        }
    }

    /// The byte that stands for this transceiver fault in an error frame.
    pub open spec fn code(self) -> u8 {
        match self {
            TransceiverError::Unspecified => 0x00,
            TransceiverError::CanHighNoWire => 0x04,
            TransceiverError::CanHighShortToBat => 0x05,
            TransceiverError::CanHighShortToVcc => 0x06,
            TransceiverError::CanHighShortToGnd => 0x07,
            TransceiverError::CanLowNoWire => 0x40,
            TransceiverError::CanLowShortToBat => 0x50,
            TransceiverError::CanLowShortToVcc => 0x60,
            TransceiverError::CanLowShortToGnd => 0x70,
            TransceiverError::CanLowShortToCanHigh => 0x80,
        }
    }

    /// `code` and `from_code` are one table, read in the two directions.
    pub proof fn lemma_code_table(fault: TransceiverError, val: u8)
        ensures
            TransceiverError::from_code(val) == Some(fault) <==> fault.code() == val,
    {
    }

    /// The transceiver fault whose code is `val`. Fails with `InvalidTransceiverError` where no
    /// code of the table is `val`.
    pub fn try_from(val: u8) -> (r: Result<TransceiverError, CanErrorDecodingFailure>)
        ensures
            r == (match TransceiverError::from_code(val) {
                Some(fault) => Ok::<TransceiverError, CanErrorDecodingFailure>(fault),
                None => Err(CanErrorDecodingFailure::InvalidTransceiverError),
            }),
    {
        match val {
            0x00 => Ok(TransceiverError::Unspecified),
            0x04 => Ok(TransceiverError::CanHighNoWire),
            0x05 => Ok(TransceiverError::CanHighShortToBat),
            0x06 => Ok(TransceiverError::CanHighShortToVcc),
            0x07 => Ok(TransceiverError::CanHighShortToGnd),
            0x40 => Ok(TransceiverError::CanLowNoWire),
            0x50 => Ok(TransceiverError::CanLowShortToBat),
            0x60 => Ok(TransceiverError::CanLowShortToVcc),
            0x70 => Ok(TransceiverError::CanLowShortToGnd),
            0x80 => Ok(TransceiverError::CanLowShortToCanHigh),
            _ => Err(CanErrorDecodingFailure::InvalidTransceiverError),
        }
    }

    /// The message that describes the value.
    pub open spec fn text(self) -> Seq<char> {
        match self {
            TransceiverError::Unspecified => "Unspecified"@,
            TransceiverError::CanHighNoWire => "CANbus High Wire Open"@,
            TransceiverError::CanHighShortToBat => "CANbus High Short to Battery"@,
            TransceiverError::CanHighShortToVcc => "CANbus High Short to VCC"@,
            TransceiverError::CanHighShortToGnd => "CANbus High Short to Ground"@,
            TransceiverError::CanLowNoWire => "CANbus Low Wire Open"@,
            TransceiverError::CanLowShortToBat => "CANbus Low Short to Battery"@,
            TransceiverError::CanLowShortToVcc => "CANbus Low Short to VCC"@,
            TransceiverError::CanLowShortToGnd => "CANbus Low Short to Ground"@,
            TransceiverError::CanLowShortToCanHigh => "CANbus Low and High Shorted"@,
        }
    }

    /// The message that describes the value.
    pub fn as_str(&self) -> (message: &'static str)
        ensures
            message@ == self.text(),
    {
        match self {
            TransceiverError::Unspecified => "Unspecified",
            TransceiverError::CanHighNoWire => "CANbus High Wire Open",
            TransceiverError::CanHighShortToBat => "CANbus High Short to Battery",
            TransceiverError::CanHighShortToVcc => "CANbus High Short to VCC",
            TransceiverError::CanHighShortToGnd => "CANbus High Short to Ground",
            TransceiverError::CanLowNoWire => "CANbus Low Wire Open",
            TransceiverError::CanLowShortToBat => "CANbus Low Short to Battery",
            TransceiverError::CanLowShortToVcc => "CANbus Low Short to VCC",
            TransceiverError::CanLowShortToGnd => "CANbus Low Short to Ground",
            TransceiverError::CanLowShortToCanHigh => "CANbus Low and High Shorted",
        }
    }

    /// The message that describes the value, as a string of its own.
    pub fn to_string(&self) -> (message: String)
        ensures
            message@ == self.text(),
    {
        String::from_str(self.as_str())
    }
}

/// The payload byte at index `idx`. Where the payload has no such byte, the
/// failure that names the index.
pub open spec fn payload_byte(payload: Seq<u8>, idx: u8) -> Result<u8, CanErrorDecodingFailure> {
    if idx < payload.len() {
        Ok(payload[idx as int])
    } else {
        Err(CanErrorDecodingFailure::NotEnoughData(idx))
    }
}

/// Helper function to retrieve a specific byte of frame data or returning an
/// `Err(..)` otherwise.
#[inline]
pub fn get_data(frame: &CanFrame, idx: u8) -> (r: Result<u8, CanErrorDecodingFailure>)
    ensures
        r == payload_byte(frame@.payload(), idx),
{
    let data = frame.data();
    if (idx as usize) < data.len() {
        Ok(data[idx as usize])
    } else {
        Err(CanErrorDecodingFailure::NotEnoughData(idx))
    }
}

/// Access to the bytes of an error frame that the controller fills as it
/// likes.
pub trait ControllerSpecificErrorInformation {
    fn get_ctrl_err(&self) -> Option<&[u8]>;
}

impl ControllerSpecificErrorInformation for CanFrame {
    /// The last three bytes of a payload of eight bytes; nothing for a
    /// shorter payload.
    #[inline]
    fn get_ctrl_err(&self) -> (r: Option<&[u8]>)
        ensures
            self@.payload().len() == 8 <==> r is Some,
            r matches Some(bytes) ==> bytes@ == self@.payload().subrange(5, 8),
    {
        let data = self.data();

        if data.len() != 8 {
            None
        } else {
            Some(slice_subrange(data, 5, 8))
        }
    }
}

} // verus!
