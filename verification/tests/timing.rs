use asyncs::time::{DummyInstant, Instant, InstantTrait, StdInstant};

#[test]
fn delay_measured_back_is_the_delay() {
    let t = StdInstant::now();
    let u = t.add(250);
    assert_eq!(t.checked_duration_until(u), Some(250));
    assert_eq!(u.checked_duration_since(t), Some(250));
    assert_eq!(u.checked_duration_until(t), None);
    assert_eq!(t.checked_duration_until(t), Some(0));
    assert_eq!(t.checked_duration_since(t), Some(0));
}

#[test]
fn facade_instant_mirrors_the_system_clock_variant() {
    let t = Instant::now();
    let u = t.add(40);
    assert_eq!(t.checked_duration_until(u), Some(40));
    assert_eq!(u.checked_duration_since(t), Some(40));
    assert_eq!(u.checked_duration_until(t), None);
    let back = u.sub(40);
    assert_eq!(back.checked_duration_until(t), Some(0));
    assert_eq!(back.checked_duration_since(t), Some(0));
}

#[test]
fn arithmetic_saturates_at_the_range_ends() {
    let t = StdInstant::now();
    let high = t.add(u64::MAX);
    assert_eq!(high.add(5).checked_duration_since(t), Some(u64::MAX));
    let u = t.add(100);
    assert_eq!(u.sub(30).checked_duration_since(t), Some(70));
    assert_eq!(t.sub(10).checked_duration_until(t), Some(0));
}

#[test]
fn now_reads_a_monotonic_clock() {
    let a = StdInstant::now();
    let b = StdInstant::now();
    assert!(b.checked_duration_since(a).is_some());
    let c = Instant::now();
    let d = Instant::now();
    assert!(d.checked_duration_since(c).is_some());
    let ahead = StdInstant::with_delay(1_000_000_000);
    assert!(a.checked_duration_until(ahead).is_some());
}

#[test]
fn null_clock_exists_but_is_inert() {
    let d = DummyInstant;
    assert_eq!(d, DummyInstant);
}
