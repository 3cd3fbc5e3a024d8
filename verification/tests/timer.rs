use helix::ultra::timer::{cycles_from_nanos, TimeBase, OS_CLOCK_RATE, OS_CPU_COUNTER};

#[test]
fn scales_one_second_to_count_rate() {
    assert_eq!(cycles_from_nanos(1_000_000_000, OS_CPU_COUNTER), 46_875_000);
}

#[test]
fn scales_half_second() {
    assert_eq!(cycles_from_nanos(500_000_000, OS_CPU_COUNTER), 23_437_500);
}

#[test]
fn zero_elapsed_is_zero() {
    assert_eq!(cycles_from_nanos(0, OS_CPU_COUNTER), 0);
}

#[test]
fn bus_clock_is_four_thirds_of_count_rate() {
    assert_eq!(cycles_from_nanos(1_000_000_000, OS_CLOCK_RATE), 62_500_000);
    assert_eq!(cycles_from_nanos(1, OS_CPU_COUNTER), 0, "sub-cycle time floors to zero");
    assert_eq!(cycles_from_nanos(64, OS_CPU_COUNTER), 3);
}

#[test]
fn set_time_then_get_time_is_monotonic_from_base() {
    let mut tb = TimeBase::new();
    tb.set_time(1_000_000, 500);
    let a = tb.get_time(500);
    assert_eq!(a, 1_000_000);
    let b = tb.get_time(800);
    assert!(b >= a, "time went backwards: {a} -> {b}");
    assert_eq!(b, 1_000_300);
}

#[test]
fn set_time_reads_back_across_wraparound() {
    let mut tb = TimeBase::new();
    tb.set_time(5, 10);
    assert_eq!(tb.offset, u64::MAX - 4);
    assert_eq!(tb.get_time(10), 5);
    assert_eq!(tb.get_time(12), 7);
    let mut tb = TimeBase::new();
    tb.set_time(0x1_2345_6789, 0);
    assert_eq!(tb.get_count(0), 0x2345_6789);
}
