use proxy_stack::hedge::rotating::{checked_duration_as_nanos, Rotating};
use proxy_stack::clock::nanos_between;
use std::time::Duration;

fn fresh() -> Vec<u64> {
    Vec::new()
}

const PERIOD: u64 = 1_000_000_000;

#[test]
fn duration_as_nanos_exact() {
    let d = Duration::new(3, 250);
    assert_eq!(Rotating::<Vec<u64>, fn() -> Vec<u64>>::duration_as_nanos(&d), 3_000_000_250);
    assert_eq!(checked_duration_as_nanos(&d), Some(3_000_000_250));
    assert_eq!(checked_duration_as_nanos(&Duration::from_millis(10)), Some(10_000_000));
    assert_eq!(checked_duration_as_nanos(&Duration::new(u64::MAX, 0)), None);
    // The largest whole-second duration that fits.
    assert_eq!(checked_duration_as_nanos(&Duration::new(18_446_744_073, 709_551_615)), Some(u64::MAX));
    assert_eq!(checked_duration_as_nanos(&Duration::new(18_446_744_073, 709_551_616)), None);
}

#[test]
fn writes_show_on_the_read_side_after_one_period() {
    let mut r = Rotating::new(Duration::from_secs(1), fresh as fn() -> Vec<u64>);
    r.write_at(10).push(1);
    r.write_at(PERIOD / 2).push(2);
    assert!(r.read_at(PERIOD - 1).is_empty());
    // One whole period later the write side becomes the read side.
    assert_eq!(r.read_at(PERIOD), &vec![1, 2]);
    assert!(r.write_at(PERIOD + 1).is_empty());
    // Still within the second period: nothing rotates.
    assert_eq!(r.read_at(2 * PERIOD - 1), &vec![1, 2]);
}

#[test]
fn two_periods_clear_both_sides() {
    let mut r = Rotating::new(Duration::from_secs(1), fresh as fn() -> Vec<u64>);
    r.write_at(0).push(7);
    assert!(r.read_at(2 * PERIOD + 5).is_empty());
    assert!(r.write_at(2 * PERIOD + 6).is_empty());
}

#[test]
fn rotation_boundaries_advance_by_whole_periods() {
    let mut r = Rotating::new(Duration::from_secs(1), fresh as fn() -> Vec<u64>);
    // At 1.5 periods one rotation happens; the boundary moves to 1 period.
    r.write_at(0).push(1);
    r.read_at(PERIOD + PERIOD / 2);
    r.write_at(PERIOD + PERIOD / 2).push(2);
    // At 2 periods (one after the boundary) the next rotation happens.
    assert_eq!(r.read_at(2 * PERIOD), &vec![2]);
}

#[test]
fn earlier_readings_do_not_rotate() {
    let mut r = Rotating::new(Duration::from_secs(1), fresh as fn() -> Vec<u64>);
    r.write_at(0).push(3);
    r.read_at(PERIOD);
    assert_eq!(r.read_at(5), &vec![3]);
}

#[test]
fn clock_reads_and_writes() {
    let mut r = Rotating::new(Duration::from_secs(3600), fresh as fn() -> Vec<u64>);
    r.write().push(4);
    assert!(r.read().is_empty());
}

#[test]
fn try_new_refuses_overlong_periods() {
    assert!(Rotating::try_new(Duration::new(u64::MAX, 0), fresh as fn() -> Vec<u64>).is_none());
    let mut r = Rotating::try_new(Duration::from_millis(5), fresh as fn() -> Vec<u64>).expect("fits");
    assert_eq!(r.period_nanos(), 5_000_000);
    assert!(r.read_at(0).is_empty());
}

#[test]
fn nanos_between_instants() {
    let a = std::time::Instant::now();
    let b = a + Duration::from_millis(3);
    assert_eq!(nanos_between(b, a), 3_000_000);
    assert_eq!(nanos_between(a, b), 0);
    assert_eq!(nanos_between(a, a), 0);
}

#[test]
fn many_periods_clear_both_sides() {
    let mut r = Rotating::new(Duration::from_nanos(1), fresh as fn() -> Vec<u64>);
    r.write_at(0).push(1);
    // 2^32 + 1 whole periods: a clear, not a single rotation.
    assert!(r.read_at((1u64 << 32) + 1).is_empty());
    r.write_at((1u64 << 32) + 1).push(2);
    // Exactly 2^32 more periods: the boundary advanced to the reading above,
    // so the next period rotates once.
    assert_eq!(r.read_at((1u64 << 32) + 2), &vec![2]);
    r.write_at((1u64 << 32) + 2).push(3);
    assert!(r.read_at((1u64 << 33) + 2).is_empty());
}
