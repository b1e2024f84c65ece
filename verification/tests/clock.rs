use scli::clock::Clock;

#[test]
fn builders_set_the_two_times() {
    let c = Clock::default().elapsed(4000).total(271019);
    assert_eq!(c.elapsed_ms, 4000);
    assert_eq!(c.total_ms, 271019);
}

#[test]
fn both_clock_formats_agree() {
    for ms in [0u32, 999, 1000, 59999, 60000, 3599999, 3600000, 4112738, 8688931] {
        assert_eq!(Clock::format(ms), scli::status::Clock::format(ms));
    }
}

#[test]
fn format_pads_to_two_digits() {
    assert_eq!(Clock::format(9000), "00:09");
    assert_eq!(Clock::format(10000), "00:10");
    assert_eq!(Clock::format(9 * 60000), "09:00");
    assert_eq!(Clock::format(9 * 3600000), "09:00:00");
}
