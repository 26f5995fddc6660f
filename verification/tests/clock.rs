use stokast::clock::Time;

#[test]
fn seconds_are_counted_in_cycles() {
    assert_eq!(Time::from_secs(5).count(), 3_000_000_000);
    assert_eq!(Time::from_millis(10).count(), 6_000_000);
    assert_eq!(Time::from_micros(10).count(), 6_000);
}

#[test]
fn time_differences_and_sums() {
    let a = Time::new(1000);
    let b = Time::new(400);
    assert_eq!(a.since(b), Time::new(600));
    assert_eq!(b.since(a), Time::new(-600));
    assert_eq!(a.plus(b), Time::new(1400));
    assert_eq!(a.plus(Time::new(-1000)).count(), 0);
}

#[test]
fn time_ranges() {
    assert!(Time::new(0).check_in_range());
    assert!(Time::new(0x3fff_ffff_ffff_ffff).check_in_range());
    assert!(!Time::new(0x4000_0000_0000_0000).check_in_range());
    assert!(Time::new(-0x3fff_ffff_ffff_ffff).check_in_range());
    assert!(!Time::new(i64::MIN).check_in_range());
    assert!(Time::new(0x0040_0000_0000_0000).check_is_interval());
    assert!(!Time::new(0x0040_0000_0000_0001).check_is_interval());
    assert!(Time::new(-0x0040_0000_0000_0000).check_is_interval());
    assert!(!Time::new(-0x0040_0000_0000_0001).check_is_interval());
    assert!(Time::from_secs(u32::MAX).check_in_range());
}
