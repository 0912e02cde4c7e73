//! What a bus-bound socket decides around its system calls.
//!
//! Nothing here talks to the kernel. The functions say which call comes
//! next, what is handed to it, and what its answer means; the caller makes
//! the calls.

use vstd::prelude::*;
use crate::constants::{
    CAN_RAW_ERR_FILTER, CAN_RAW_FILTER, CAN_RAW_JOIN_FILTERS, CAN_RAW_LOOPBACK,
    CAN_RAW_RECV_OWN_MSGS, FRAME_SIZE, SOL_CAN_RAW,
};
use crate::errors::CanSocketOpenError;
use crate::filter::CanFilter;
use crate::frame::{word_bytes, word_to_bytes, ByteOrder};
use crate::task::TransportError;

verus! {

/// `libc::AF_CAN`, the number of the CAN address family. It is 29 on every
/// target for which libc has it.
#[verifier::external_body]
pub(crate) fn address_family() -> (family: i32)
    ensures
        family == 29,
{
    libc::AF_CAN
}

/// `libc::O_NONBLOCK`, the file status flag of non-blocking mode. Its value
/// differs between targets, but libc gives it as a number other than zero
/// for every target: that much is stated, and no more.
#[verifier::external_body]
pub(crate) fn nonblocking_flag() -> (flag: i32)
    ensures
        flag != 0,
{
    libc::O_NONBLOCK
}

/// A CAN address for binding a socket.
#[derive(Debug, Copy, Clone, PartialEq, Eq, Structural)]
pub struct CanAddr {
    pub af_can: i16,
    pub if_index: i32,
    /// transport protocol class address information (e.g. ISOTP)
    pub rx_id: u32,
    pub tx_id: u32,
}

impl CanAddr {
    /// The address of the interface with the given index: the CAN family,
    /// the index as the kernel's signed number, and no transport addresses.
    pub fn new(if_index: u32) -> (addr: CanAddr)
        ensures
            addr == (CanAddr { af_can: 29, if_index: if_index as i32, rx_id: 0, tx_id: 0 }),
    {
        CanAddr { af_can: address_family() as i16, if_index: if_index as i32, rx_id: 0, tx_id: 0 }
    }
}

/// Where the opening of a socket stands: the call that comes next, or how
/// the opening ended.
#[derive(Debug, Copy, Clone, PartialEq, Eq, Structural)]
pub enum OpenState {
    /// Next: look up the index of the named interface.
    Resolve,
    /// Next: create a raw socket of the CAN family.
    Create { if_index: u32 },
    /// Next: bind the descriptor `fd` to `addr`.
    Bind { fd: i32, addr: CanAddr },
    /// Binding failed. Next: release the descriptor `fd`.
    Release { fd: i32, error: CanSocketOpenError },
    /// The socket is open on the descriptor `fd`.
    Open { fd: i32 },
    /// Opening failed, and no descriptor is left behind.
    Failed { error: CanSocketOpenError },
}

/// The answer of the operating system to one call of the opening.
#[derive(Debug, Copy, Clone)]
pub enum OpenEvent {
    /// The lookup gave an interface index or failed with an error number.
    Resolved(Result<u32, i32>),
    /// The creation gave a descriptor or failed.
    Created(Result<i32, TransportError>),
    /// The binding succeeded or failed.
    Bound(Result<(), TransportError>),
    /// The descriptor was released.
    Released,
}

impl OpenState {
    /// The descriptor that the opening holds in this state, if any.
    pub open spec fn held(self) -> Option<i32> {
        match self {
            OpenState::Bind { fd, .. } => Some(fd),
            OpenState::Release { fd, .. } => Some(fd),
            OpenState::Open { fd } => Some(fd),
            _ => None,
        }
    }

    /// The state after `event`. An event that does not answer the call of
    /// the state leaves the state as it is.
    pub open spec fn next(self, event: OpenEvent) -> OpenState {
        match (self, event) {
            (OpenState::Resolve, OpenEvent::Resolved(Ok(if_index))) => OpenState::Create {
                if_index,
            },
            (OpenState::Resolve, OpenEvent::Resolved(Err(errno))) => OpenState::Failed {
                error: CanSocketOpenError::LookupError(errno),
            },
            (OpenState::Create { if_index }, OpenEvent::Created(Ok(fd))) => OpenState::Bind {
                fd,
                addr: CanAddr { af_can: 29, if_index: if_index as i32, rx_id: 0, tx_id: 0 },
            },
            (OpenState::Create { .. }, OpenEvent::Created(Err(e))) => OpenState::Failed {
                error: CanSocketOpenError::IOError(e),
            },
            (OpenState::Bind { fd, .. }, OpenEvent::Bound(Ok(_))) => OpenState::Open { fd },
            (OpenState::Bind { fd, .. }, OpenEvent::Bound(Err(e))) => OpenState::Release {
                fd,
                error: CanSocketOpenError::IOError(e),
            },
            (OpenState::Release { error, .. }, OpenEvent::Released) => OpenState::Failed { error },
            _ => self,
        }
    }

    /// The state in which to open a named device.
    pub fn open() -> (state: OpenState)
        ensures
            state == OpenState::Resolve,
    {
        OpenState::Resolve
    }

    /// The state in which to open a device by its interface number.
    pub fn open_interface(if_index: u32) -> (state: OpenState)
        ensures
            state == (OpenState::Create { if_index }),
    {
        OpenState::Create { if_index }
    }

    /// Takes the answer to the call of this state and gives the state that
    /// follows.
    pub fn step(self, event: OpenEvent) -> (state: OpenState)
        ensures
            state == self.next(event),
    {
        match (self, event) {
            (OpenState::Resolve, OpenEvent::Resolved(Ok(if_index))) => OpenState::Create {
                if_index,
            },
            (OpenState::Resolve, OpenEvent::Resolved(Err(errno))) => OpenState::Failed {
                error: CanSocketOpenError::LookupError(errno),
            },
            (OpenState::Create { if_index }, OpenEvent::Created(Ok(fd))) => OpenState::Bind {
                fd,
                addr: CanAddr::new(if_index),
            },
            (OpenState::Create { .. }, OpenEvent::Created(Err(e))) => OpenState::Failed {
                error: CanSocketOpenError::IOError(e),
            },
            (OpenState::Bind { fd, .. }, OpenEvent::Bound(Ok(_))) => OpenState::Open { fd },
            (OpenState::Bind { fd, .. }, OpenEvent::Bound(Err(e))) => OpenState::Release {
                fd,
                error: CanSocketOpenError::IOError(e),
            },
            (OpenState::Release { error, .. }, OpenEvent::Released) => OpenState::Failed { error },
            (state, _) => state,
        }
    }

    /// No descriptor leaks: a descriptor that the opening holds stays held
    /// through every event, but for the event that reports its release.
    /// A failed opening holds none.
    pub proof fn lemma_no_leak(self, event: OpenEvent)
        ensures
            self.held() is Some ==> self.next(event).held() == self.held() || (self is Release
                && event is Released),
            self.next(event) is Failed ==> self is Failed || self.held() is None || (self
                is Release && event is Released),
            self.next(event) is Failed ==> self.next(event).held() is None,
    {
    }

    /// An opening that ended stays as it ended.
    pub proof fn lemma_ended(self, event: OpenEvent)
        requires
            self is Open || self is Failed,
        ensures
            self.next(event) == self,
    {
    }
}

/// The descriptor of a socket, and whether it has been released. It hands the
/// descriptor out for release once.
#[derive(Debug)]
pub struct SocketHandle {
    fd: i32,
    released: bool,
}

impl SocketHandle {
    /// The descriptor.
    pub closed spec fn fd(self) -> i32 {
        self.fd
    }

    /// Whether the descriptor has been handed out for release.
    pub closed spec fn released(self) -> bool {
        self.released
    }

    /// The handle of an open socket.
    pub fn new(fd: i32) -> (handle: SocketHandle)
        ensures
            handle.fd() == fd,
            !handle.released(),
    {
        SocketHandle { fd, released: false }
    }

    /// The descriptor, for a call on the socket.
    pub fn as_raw_fd(&self) -> (fd: i32)
        ensures
            fd == self.fd(),
    {
        self.fd
    }

    /// Whether the descriptor has been handed out for release.
    pub fn is_released(&self) -> (b: bool)
        ensures
            b == self.released(),
    {
        self.released
    }

    /// Closes the handle. The first call hands out the descriptor, which the
    /// caller releases; every later call hands out nothing.
    pub fn close(&mut self) -> (fd: Option<i32>)
        ensures
            final(self).fd() == old(self).fd(),
            final(self).released(),
            fd == if old(self).released() {
                None
            } else {
                Some(old(self).fd())
            },
    {
        if self.released {
            None
        } else {
            self.released = true;
            Some(self.fd)
        }
    }

    /// Gives the descriptor away unreleased: the caller owns it from now on.
    pub fn into_raw_fd(self) -> (fd: i32)
        ensures
            fd == self.fd(),
    {
        self.fd
    }
}

/// A transfer moves one whole frame or it has failed: the kernel moved
/// `moved` bytes, and only the size of the wire form counts as success.
pub fn is_full_transfer(moved: isize) -> (b: bool)
    ensures
        b == (moved == FRAME_SIZE),
{
    moved >= 0 && moved as usize == FRAME_SIZE
}

/// File status flags with the bits of `flag` set or cleared.
pub open spec fn flags_with(old_flags: i32, flag: i32, on: bool) -> i32 {
    if on {
        old_flags | flag
    } else {
        old_flags & !flag
    }
}

/// The file status flags `old_flags` with the bits of `flag` set, or with
/// them cleared. Every other bit stays.
pub fn set_flag(old_flags: i32, flag: i32, on: bool) -> (new_flags: i32)
    ensures
        new_flags == flags_with(old_flags, flag, on),
        new_flags & !flag == old_flags & !flag,
        new_flags & flag == if on {
            flag
        } else {
            0
        },
{
    proof {
        assert((old_flags | flag) & !flag == old_flags & !flag && (old_flags | flag) & flag
            == flag && (old_flags & !flag) & !flag == old_flags & !flag && (old_flags & !flag)
            & flag == 0) by (bit_vector);
    }
    if on {
        old_flags | flag
    } else {
        old_flags & !flag
    }
}

/// The file status flags to set for a socket whose flags are `old_flags`, to
/// turn non-blocking mode on or off: `old_flags` with the flag of
/// non-blocking mode set, or with it cleared. Which bits that flag has
/// depends on the target; it has at least one.
pub fn nonblocking_flags(old_flags: i32, nonblocking: bool) -> (new_flags: i32)
    ensures
        exists|flag: i32| flag != 0 && new_flags == flags_with(old_flags, flag, nonblocking),
        nonblocking ==> new_flags != 0,
{
    let flag = nonblocking_flag();
    let new_flags = set_flag(old_flags, flag, nonblocking);
    proof {
        assert(old_flags | flag != 0) by (bit_vector)
            requires
                flag != 0,
        ;
        assert(flag != 0 && new_flags == flags_with(old_flags, flag, nonblocking));
    }
    new_flags
}

/// One socket option of the raw CAN protocol, as it is handed to the kernel.
#[derive(Debug)]
pub struct SocketOption {
    pub level: i32,
    pub name: i32,
    /// The bytes of the value. None stand for "no value".
    pub value: Vec<u8>,
}

/// The bytes of a list of filters: for each filter its identifier, then its
/// mask, each as four bytes in the given order.
pub open spec fn filter_bytes(filters: Seq<CanFilter>, order: ByteOrder) -> Seq<u8>
    decreases filters.len(),
{
    if filters.len() == 0 {
        Seq::empty()
    } else {
        filter_bytes(filters.drop_last(), order) + word_bytes(filters.last()@.id, order)
            + word_bytes(filters.last()@.mask, order)
    }
}

/// The number that stands for a switch: one for on, zero for off.
pub open spec fn switch_word(enabled: bool) -> u32 {
    if enabled {
        1
    } else {
        0
    }
}

impl SocketOption {
    /// An option of the raw CAN protocol whose value is one word.
    fn word(name: i32, word: u32, order: ByteOrder) -> (option: SocketOption)
        ensures
            option.level == SOL_CAN_RAW,
            option.name == name,
            option.value@ == word_bytes(word, order),
    {
        let bytes = word_to_bytes(word, order);
        let mut value: Vec<u8> = Vec::new();
        value.push(bytes[0]);
        value.push(bytes[1]);
        value.push(bytes[2]);
        value.push(bytes[3]);
        assert(value@ =~= bytes@);
        SocketOption { level: SOL_CAN_RAW, name, value }
    }

    /// The option that replaces the filters of a socket by `filters`. An
    /// empty list is an option without a value, which removes every filter.
    pub fn filters(filters: &[CanFilter], order: ByteOrder) -> (option: SocketOption)
        ensures
            option.level == SOL_CAN_RAW,
            option.name == CAN_RAW_FILTER,
            option.value@ == filter_bytes(filters@, order),
            option.value@.len() == 8 * filters@.len(),
    {
        let mut value: Vec<u8> = Vec::new();
        let mut i: usize = 0;
        assert(filters@.take(0) =~= Seq::<CanFilter>::empty());
        while i < filters.len()
            invariant
                i <= filters@.len(),
                value@ == filter_bytes(filters@.take(i as int), order),
                value@.len() == 8 * i,
            decreases filters@.len() - i,
        {
            let id = word_to_bytes(filters[i].id(), order);
            let mask = word_to_bytes(filters[i].mask(), order);
            let ghost before = value@;
            value.push(id[0]);
            value.push(id[1]);
            value.push(id[2]);
            value.push(id[3]);
            value.push(mask[0]);
            value.push(mask[1]);
            value.push(mask[2]);
            value.push(mask[3]);
            proof {
                let done = filters@.take(i + 1);
                assert(done.drop_last() =~= filters@.take(i as int));
                assert(done.last() == filters@[i as int]);
                assert(value@ =~= before + id@ + mask@);
            }
            i += 1;
        }
        assert(filters@.take(filters@.len() as int) =~= filters@);
        SocketOption { level: SOL_CAN_RAW, name: CAN_RAW_FILTER, value }
    }

    /// The option that sets which error classes the kernel reports as error
    /// frames.
    pub fn error_mask(mask: u32, order: ByteOrder) -> (option: SocketOption)
        ensures
            option.level == SOL_CAN_RAW,
            option.name == CAN_RAW_ERR_FILTER,
            option.value@ == word_bytes(mask, order),
    {
        SocketOption::word(CAN_RAW_ERR_FILTER, mask, order)
    }

    /// The option that enables or disables loopback.
    pub fn loopback(enabled: bool, order: ByteOrder) -> (option: SocketOption)
        ensures
            option.level == SOL_CAN_RAW,
            option.name == CAN_RAW_LOOPBACK,
            option.value@ == word_bytes(switch_word(enabled), order),
    {
        let loopback: u32 = match enabled {
            true => 1,
            false => 0,
        };
        SocketOption::word(CAN_RAW_LOOPBACK, loopback, order)
    }

    /// The option that enables or disables receiving of own frames.
    pub fn recv_own_msgs(enabled: bool, order: ByteOrder) -> (option: SocketOption)
        ensures
            option.level == SOL_CAN_RAW,
            option.name == CAN_RAW_RECV_OWN_MSGS,
            option.value@ == word_bytes(switch_word(enabled), order),
    {
        let recv_own_msgs: u32 = match enabled {
            true => 1,
            false => 0,
        };
        SocketOption::word(CAN_RAW_RECV_OWN_MSGS, recv_own_msgs, order)
    }

    /// The option that makes a frame pass only if it matches all filters, or
    /// makes one matching filter enough again.
    pub fn join_filters(enabled: bool, order: ByteOrder) -> (option: SocketOption)
        ensures
            option.level == SOL_CAN_RAW,
            option.name == CAN_RAW_JOIN_FILTERS,
            option.value@ == word_bytes(switch_word(enabled), order),
    {
        let join_filters: u32 = match enabled {
            true => 1,
            false => 0,
        };
        SocketOption::word(CAN_RAW_JOIN_FILTERS, join_filters, order)
    }
}

} // verus!
