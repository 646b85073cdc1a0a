use ipc_clock::counter::{counter_from_halves, elapsed, timespec_elapsed_ns};

#[test]
fn halves_join_high_above_low() {
    assert_eq!(counter_from_halves(1, 2), 4_294_967_298);
    assert_eq!(counter_from_halves(0, 0xdead_beef), 0xdead_beef);
    assert_eq!(counter_from_halves(0xffff_ffff, 0xffff_ffff), u64::MAX);
}

#[test]
fn halves_can_be_split_back() {
    let v = counter_from_halves(0x0123_4567, 0x89ab_cdef);
    assert_eq!(v, 0x0123_4567_89ab_cdef);
    assert_eq!(v >> 32, 0x0123_4567);
    assert_eq!(v & 0xffff_ffff, 0x89ab_cdef);
}

#[test]
fn elapsed_ticks_between_readings() {
    assert_eq!(elapsed(5, 12), 7);
    assert_eq!(elapsed(3, 3), 0);
    assert_eq!(elapsed(0, u64::MAX), u64::MAX);
}

#[test]
fn timespec_difference_within_a_second() {
    assert_eq!(timespec_elapsed_ns(10, 5, 10, 7), 2);
}

#[test]
fn timespec_difference_across_a_second() {
    assert_eq!(timespec_elapsed_ns(1, 999_999_000, 2, 1_000), 2_000);
    assert_eq!(timespec_elapsed_ns(100, 0, 103, 250), 3_000_000_250);
}

#[test]
fn timespec_same_reading_is_zero() {
    assert_eq!(timespec_elapsed_ns(1_700_000_000, 123, 1_700_000_000, 123), 0);
}
