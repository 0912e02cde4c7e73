use socketcan::errors::CanSocketOpenError;
use socketcan::filter::CanFilter;
use socketcan::frame::ByteOrder;
use socketcan::socket::{
    is_full_transfer, nonblocking_flags, set_flag, CanAddr, OpenEvent, OpenState, SocketHandle,
    SocketOption,
};
use socketcan::task::{IoErrorKind, TransportError};

fn failure(code: i32) -> TransportError {
    TransportError { kind: IoErrorKind::Other, raw_os_error: Some(code) }
}

#[test]
fn address_of_an_interface() {
    let addr = CanAddr::new(3);
    assert_eq!(addr, CanAddr { af_can: 29, if_index: 3, rx_id: 0, tx_id: 0 });
    assert_eq!(addr.af_can as i32, libc::AF_CAN);
    assert_eq!(CanAddr::new(u32::MAX).if_index, -1);
}

#[test]
fn opening_by_name_runs_through_all_calls() {
    let state = OpenState::open();
    assert_eq!(state, OpenState::Resolve);
    let state = state.step(OpenEvent::Resolved(Ok(4)));
    assert_eq!(state, OpenState::Create { if_index: 4 });
    let state = state.step(OpenEvent::Created(Ok(9)));
    assert_eq!(state, OpenState::Bind { fd: 9, addr: CanAddr::new(4) });
    let state = state.step(OpenEvent::Bound(Ok(())));
    assert_eq!(state, OpenState::Open { fd: 9 });
}

#[test]
fn opening_by_index_skips_the_lookup() {
    let state = OpenState::open_interface(7);
    assert_eq!(state, OpenState::Create { if_index: 7 });
    let state = state.step(OpenEvent::Created(Ok(3))).step(OpenEvent::Bound(Ok(())));
    assert_eq!(state, OpenState::Open { fd: 3 });
}

#[test]
fn failed_lookup_is_a_lookup_error() {
    let state = OpenState::open().step(OpenEvent::Resolved(Err(19)));
    assert_eq!(state, OpenState::Failed { error: CanSocketOpenError::LookupError(19) });
}

#[test]
fn failed_creation_is_an_io_error() {
    let state = OpenState::open_interface(1).step(OpenEvent::Created(Err(failure(13))));
    assert_eq!(state, OpenState::Failed { error: CanSocketOpenError::IOError(failure(13)) });
}

#[test]
fn failed_binding_releases_the_descriptor_first() {
    let state = OpenState::open_interface(1)
        .step(OpenEvent::Created(Ok(11)))
        .step(OpenEvent::Bound(Err(failure(19))));
    assert_eq!(
        state,
        OpenState::Release { fd: 11, error: CanSocketOpenError::IOError(failure(19)) }
    );
    let state = state.step(OpenEvent::Released);
    assert_eq!(state, OpenState::Failed { error: CanSocketOpenError::IOError(failure(19)) });
}

#[test]
fn events_out_of_turn_change_nothing() {
    let state = OpenState::open();
    assert_eq!(state.step(OpenEvent::Released), OpenState::Resolve);
    assert_eq!(state.step(OpenEvent::Created(Ok(1))), OpenState::Resolve);
    let bind = OpenState::Bind { fd: 2, addr: CanAddr::new(1) };
    assert_eq!(bind.step(OpenEvent::Released), bind);
    assert_eq!(bind.step(OpenEvent::Resolved(Ok(5))), bind);
    let open = OpenState::Open { fd: 2 };
    assert_eq!(open.step(OpenEvent::Bound(Err(failure(1)))), open);
    assert_eq!(open.step(OpenEvent::Released), open);
}

#[test]
fn handle_is_released_once() {
    let mut handle = SocketHandle::new(5);
    assert_eq!(handle.as_raw_fd(), 5);
    assert!(!handle.is_released());
    assert_eq!(handle.close(), Some(5));
    assert!(handle.is_released());
    assert_eq!(handle.close(), None);
    assert_eq!(handle.close(), None);
    assert_eq!(handle.as_raw_fd(), 5);
}

#[test]
fn handle_given_away_keeps_its_descriptor() {
    assert_eq!(SocketHandle::new(17).into_raw_fd(), 17);
}

#[test]
fn only_sixteen_bytes_are_a_transfer() {
    assert!(is_full_transfer(16));
    assert!(!is_full_transfer(15));
    assert!(!is_full_transfer(17));
    assert!(!is_full_transfer(0));
    assert!(!is_full_transfer(-1));
    assert!(!is_full_transfer(isize::MIN));
}

#[test]
fn flag_is_set_and_cleared() {
    assert_eq!(set_flag(0b0010, 0b1000, true), 0b1010);
    assert_eq!(set_flag(0b1010, 0b1000, true), 0b1010);
    assert_eq!(set_flag(0b1010, 0b1000, false), 0b0010);
    assert_eq!(set_flag(0b0010, 0b1000, false), 0b0010);
    assert_eq!(set_flag(-1, 0x800, false), !0x800);
}

#[test]
fn non_blocking_mode_changes_the_flags() {
    let on = nonblocking_flags(0, true);
    assert_ne!(on, 0);
    assert_eq!(nonblocking_flags(on, false), 0);
    assert_eq!(nonblocking_flags(on, true), on);
    assert_eq!(nonblocking_flags(0, false), 0);
    assert_ne!(libc::O_NONBLOCK, 0);
}

#[test]
fn non_blocking_mode_uses_the_flag_of_the_target() {
    assert_eq!(nonblocking_flags(0, true), libc::O_NONBLOCK);
    assert_eq!(nonblocking_flags(libc::O_RDWR, true), libc::O_RDWR | libc::O_NONBLOCK);
    assert_eq!(nonblocking_flags(libc::O_RDWR | libc::O_NONBLOCK, false), libc::O_RDWR);
    assert_eq!(nonblocking_flags(libc::O_RDWR, false), libc::O_RDWR);
}

#[test]
fn switches_are_one_word() {
    let option = SocketOption::loopback(true, ByteOrder::LittleEndian);
    assert_eq!((option.level, option.name), (101, 3));
    assert_eq!(option.value, [1, 0, 0, 0]);
    let option = SocketOption::loopback(false, ByteOrder::LittleEndian);
    assert_eq!(option.value, [0, 0, 0, 0]);
    let option = SocketOption::recv_own_msgs(true, ByteOrder::BigEndian);
    assert_eq!((option.level, option.name), (101, 4));
    assert_eq!(option.value, [0, 0, 0, 1]);
    let option = SocketOption::join_filters(true, ByteOrder::LittleEndian);
    assert_eq!((option.level, option.name), (101, 6));
    assert_eq!(option.value, 1i32.to_le_bytes());
    let option = SocketOption::join_filters(false, ByteOrder::BigEndian);
    assert_eq!(option.value, 0i32.to_be_bytes());
}

#[test]
fn error_mask_is_one_word() {
    let option = SocketOption::error_mask(0x1FFF_FFFF, ByteOrder::LittleEndian);
    assert_eq!((option.level, option.name), (101, 2));
    assert_eq!(option.value, [0xFF, 0xFF, 0xFF, 0x1F]);
    let option = SocketOption::error_mask(0, ByteOrder::BigEndian);
    assert_eq!(option.value, [0, 0, 0, 0]);
}

#[test]
fn filters_are_eight_bytes_each() {
    let filters = [
        CanFilter::new(0x100, 0x7FF).unwrap(),
        CanFilter::new(0x1234_5678, 0x1FFF_FFFF).unwrap(),
    ];
    let option = SocketOption::filters(&filters, ByteOrder::LittleEndian);
    assert_eq!((option.level, option.name), (101, 1));
    assert_eq!(
        option.value,
        [0x00, 0x01, 0, 0, 0xFF, 0x07, 0, 0, 0x78, 0x56, 0x34, 0x12, 0xFF, 0xFF, 0xFF, 0x1F]
    );
    let option = SocketOption::filters(&filters, ByteOrder::BigEndian);
    assert_eq!(
        option.value,
        [0, 0, 0x01, 0x00, 0, 0, 0x07, 0xFF, 0x12, 0x34, 0x56, 0x78, 0x1F, 0xFF, 0xFF, 0xFF]
    );
}

#[test]
fn no_filters_are_no_bytes() {
    let option = SocketOption::filters(&[], ByteOrder::LittleEndian);
    assert_eq!((option.level, option.name), (101, 1));
    assert!(option.value.is_empty());
}
