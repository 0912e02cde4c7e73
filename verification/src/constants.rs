//! Numbers fixed by the kernel's CAN interface.

use vstd::prelude::*;

verus! {

/// Protocol of the PF_CAN family: raw sockets.
pub const CAN_RAW: i32 = 1;

pub const SOL_CAN_BASE: i32 = 100;

pub const SOL_CAN_RAW: i32 = SOL_CAN_BASE + CAN_RAW;

pub const CAN_RAW_FILTER: i32 = 1;

pub const CAN_RAW_ERR_FILTER: i32 = 2;

pub const CAN_RAW_LOOPBACK: i32 = 3;

pub const CAN_RAW_RECV_OWN_MSGS: i32 = 4;

pub const CAN_RAW_JOIN_FILTERS: i32 = 6;

/// Request code that fetches the receive time of the last frame as seconds
/// and nanoseconds.
pub const SIOCGSTAMPNS: i32 = 0x8907;

/// Set in the identifier word of a frame in extended frame format.
pub const EFF_FLAG: u32 = 0x80000000;

/// Set in the identifier word of a remote transmission request.
pub const RTR_FLAG: u32 = 0x40000000;

/// Set in the identifier word of an error frame.
pub const ERR_FLAG: u32 = 0x20000000;

/// Identifier bits of the standard frame format.
pub const SFF_MASK: u32 = 0x000007ff;

/// Identifier bits of the extended frame format.
pub const EFF_MASK: u32 = 0x1fffffff;

/// Bits of the identifier word that carry the class of an error frame.
pub const ERR_MASK: u32 = 0x1fffffff;

/// An error mask that makes the kernel report every error class.
pub const ERR_MASK_ALL: u32 = ERR_MASK;

/// An error mask that makes the kernel report no error.
pub const ERR_MASK_NONE: u32 = 0;

/// Bytes in the wire form of one frame.
pub const FRAME_SIZE: usize = 16;

/// Most payload bytes a frame can carry.
pub const MAX_DATA_LEN: usize = 8;

} // verus!
