//! SocketCAN support.
//!
//! The Linux kernel makes CAN devices available through a network-like API.
//! This crate holds the verified core of a user-space client: the frame model
//! and its wire layout, the decoding of error frames, acceptance filters, and
//! the decisions a bus-bound socket makes around its system calls.

pub mod constants;
pub mod errors;
pub mod filter;
pub mod frame;
pub mod socket;
pub mod task;
pub mod text;
pub mod util;

pub use errors::{
    CanError, CanErrorDecodingFailure, CanSocketOpenError, ConstructionError, ControllerProblem,
    ControllerSpecificErrorInformation, Location, TransceiverError, ViolationType,
};
pub use filter::CanFilter;
pub use frame::{ByteOrder, CanFrame};
pub use task::{write_retry, ShouldRetry};
