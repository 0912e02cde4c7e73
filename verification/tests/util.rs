use socketcan::util::{
    duration_from_timespec, system_time_from_timespec, timeval_from_duration, Duration, TimeSpec,
    TimeVal,
};

#[test]
fn span_of_seconds_and_nanoseconds() {
    let span = Duration::new(2, 500_000_000);
    assert_eq!(span.as_secs(), 2);
    assert_eq!(span.subsec_nanos(), 500_000_000);
    assert_eq!(span.subsec_micros(), 500_000);
}

#[test]
fn whole_seconds_of_nanoseconds_count_as_seconds() {
    let span = Duration::new(1, 1_500_000_000);
    assert_eq!(span.as_secs(), 2);
    assert_eq!(span.subsec_nanos(), 500_000_000);
    let span = Duration::new(0, u32::MAX);
    assert_eq!(span.as_secs(), 4);
    assert_eq!(span.subsec_nanos(), 294_967_295);
    let std_span = std::time::Duration::new(0, u32::MAX);
    assert_eq!(span.as_secs(), std_span.as_secs());
    assert_eq!(span.subsec_nanos(), std_span.subsec_nanos());
}

#[test]
fn timeout_in_seconds_and_microseconds() {
    assert_eq!(
        timeval_from_duration(Duration::new(2, 500_000_000)),
        TimeVal { tv_sec: 2, tv_usec: 500_000 }
    );
    assert_eq!(
        timeval_from_duration(Duration::new(0, 999)),
        TimeVal { tv_sec: 0, tv_usec: 0 }
    );
    assert_eq!(
        timeval_from_duration(Duration::new(0, 999_999_999)),
        TimeVal { tv_sec: 0, tv_usec: 999_999 }
    );
}

#[test]
fn zero_timeout_is_zero() {
    assert_eq!(timeval_from_duration(Duration::new(0, 0)), TimeVal { tv_sec: 0, tv_usec: 0 });
}

#[test]
fn seconds_beyond_the_kernel_type_wrap() {
    assert_eq!(
        timeval_from_duration(Duration::new(u64::MAX, 0)),
        TimeVal { tv_sec: -1, tv_usec: 0 }
    );
    assert_eq!(
        timeval_from_duration(Duration::new(1 << 63, 1000)),
        TimeVal { tv_sec: i64::MIN, tv_usec: 1 }
    );
}

#[test]
fn span_of_a_kernel_time() {
    let span = duration_from_timespec(TimeSpec { tv_sec: 1_700_000_000, tv_nsec: 123_456_789 });
    assert_eq!(span.as_secs(), 1_700_000_000);
    assert_eq!(span.subsec_nanos(), 123_456_789);
    let span = duration_from_timespec(TimeSpec { tv_sec: 5, tv_nsec: 2_000_000_001 });
    assert_eq!(span.as_secs(), 7);
    assert_eq!(span.subsec_nanos(), 1);
}

#[test]
fn kernel_time_is_read_as_unsigned() {
    let span = duration_from_timespec(TimeSpec { tv_sec: -10, tv_nsec: -1 });
    assert_eq!(span.as_secs(), u64::MAX - 9 + 4);
    assert_eq!(span.subsec_nanos(), 294_967_295);
}

#[test]
fn point_in_time_of_a_kernel_time() {
    let time = system_time_from_timespec(TimeSpec { tv_sec: 86_400, tv_nsec: 42 });
    assert_eq!(time.duration_since_epoch().as_secs(), 86_400);
    assert_eq!(time.duration_since_epoch().subsec_nanos(), 42);
}
