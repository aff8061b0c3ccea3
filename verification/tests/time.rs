use heng_rs::time::{day, hour, min, Time, ToDuration};
use heng_rs::Duration;

#[test]
fn test_duration() {
    assert_eq!(1.d(), Duration::from_secs(24 * 60 * 60 * 1));
    assert_eq!(2.h(), Duration::from_secs(60 * 60 * 2));
    assert_eq!(3.m(), Duration::from_secs(60 * 3));
    assert_eq!(4.millis(), Duration::from_millis(4));
    assert_eq!(5.micros(), Duration::from_micros(5));
    assert_eq!(6.nanos(), Duration::from_nanos(6));
}

#[test]
fn test_time() {
    let time: Duration = Time::new()
        .every(1.d())
        .plus(2.m())
        .plus(3.h())
        .plus(4.s())
        .into();

    assert_eq!(time, 1.d() + 2.m() + 3.h() + 4.s());
}

#[test]
fn durations_have_exact_nanoseconds() {
    assert_eq!(1.d().as_nanos(), 86_400_000_000_000);
    assert_eq!(2.h().as_nanos(), 7_200_000_000_000);
    assert_eq!(3.m().as_nanos(), 180_000_000_000);
    assert_eq!(4.s().as_nanos(), 4_000_000_000);
    assert_eq!(5.millis().as_nanos(), 5_000_000);
    assert_eq!(6.micros().as_nanos(), 6_000);
    assert_eq!(7.nanos().as_nanos(), 7);
    assert_eq!(day(2), Duration::from_secs(172_800));
    assert_eq!(hour(3), Duration::from_secs(10_800));
    assert_eq!(min(4), Duration::from_secs(240));
}

#[test]
fn units_nest() {
    assert_eq!(1.d(), 24.h());
    assert_eq!(1.h(), 60.m());
    assert_eq!(1.m(), 60.s());
    assert_eq!(1.s(), 1000.millis());
    assert_eq!(1.millis(), 1000.micros());
    assert_eq!(1.micros(), 1000.nanos());
}

#[test]
fn largest_counts_of_u16() {
    let n: u16 = u16::MAX;
    assert_eq!(n.d().as_secs(), 65_535 * 86_400);
    assert_eq!(n.nanos().as_nanos(), 65_535);
    assert_eq!(n.into_u64(), 65_535);
}

#[test]
fn seconds_and_subsecond_nanos() {
    let d = 3.s() + 250.millis() + 7.nanos();
    assert_eq!(d.as_secs(), 3);
    assert_eq!(d.subsec_nanos(), 250_000_007);
    assert_eq!(Duration::from_millis(1_500).as_secs(), 1);
    assert_eq!(Duration::from_millis(1_500).subsec_nanos(), 500_000_000);
}

#[test]
fn new_time_is_empty() {
    let d: Duration = Time::new().into();
    assert_eq!(d, Duration::zero());
    assert_eq!(d, Duration::default());
    let t: Duration = Time::default().into();
    assert_eq!(t.as_nanos(), 0);
}

#[test]
fn every_and_plus_add_alike() {
    let a: Duration = Time::new().every(5.s()).into();
    let b: Duration = Time::new().plus(5.s()).into();
    assert_eq!(a, b);
    let c: Duration = Time::new().every(2.h()).every(1.d()).into();
    let e: Duration = Time::new().plus(1.d()).plus(2.h()).into();
    assert_eq!(c, e);
    assert_eq!(c.as_secs(), 93_600);
}

#[test]
fn sum_commutes_and_zero_adds_nothing() {
    assert_eq!(3.s() + 2.m(), 2.m() + 3.s());
    assert_eq!(3.s() + Duration::zero(), 3.s());
    assert_eq!((1.s() + 2.s()) + 3.s(), 1.s() + (2.s() + 3.s()));
}

#[test]
fn largest_duration() {
    let max = Duration::from_secs(u64::MAX) + Duration::from_nanos(999_999_999);
    assert_eq!(max.as_secs(), u64::MAX);
    assert_eq!(max.subsec_nanos(), 999_999_999);
    assert_eq!(max.as_nanos(), 18_446_744_073_709_551_615_999_999_999);
}
