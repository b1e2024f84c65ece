use scli::status::{Clock, Status};

#[test]
fn test_clock_format() {
    assert_eq!(Clock::format(0), "00:00");

    assert_eq!(Clock::format(1000), "00:01");
    assert_eq!(Clock::format(1000 * 60), "01:00");
    assert_eq!(Clock::format(1000 * 60 * 60), "01:00:00");

    assert_eq!(Clock::format(271019), "04:31");
    assert_eq!(Clock::format(4112738), "01:08:32");
    assert_eq!(Clock::format(8688931), "02:24:48");
}

#[test]
fn clock_format_many_hours() {
    // 100 hours: the hour field grows past two digits.
    assert_eq!(Clock::format(100 * 3600 * 1000), "100:00:00");
    assert_eq!(Clock::format(100 * 3600 * 1000 + 61000), "100:01:01");
}

#[test]
fn clock_format_just_below_an_hour() {
    assert_eq!(Clock::format(3599999), "59:59");
    assert_eq!(Clock::format(3600000), "01:00:00");
}

#[test]
fn status_builders_set_fields() {
    let s = Status::default()
        .is_playing(true)
        .volume(70)
        .clock(Clock { elapsed_ms: 1500, total_ms: 60000 });
    assert!(s.is_playing);
    assert_eq!(s.volume, 70);
    assert_eq!(s.clock.elapsed_ms, 1500);
    assert_eq!(s.clock.total_ms, 60000);
}

#[test]
fn status_default_is_idle() {
    let s = Status::default();
    assert!(!s.is_playing);
    assert_eq!(s.volume, 0);
    assert_eq!(s.clock.elapsed_ms, 0);
    assert_eq!(s.clock.total_ms, 0);
}
