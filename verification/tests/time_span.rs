use video_pipeline::clock::Clock;
use video_pipeline::time_span::TimeSpan;

#[test]
fn spans_from_their_units() {
    assert_eq!(TimeSpan::zero().as_nanos(), 0);
    assert_eq!(TimeSpan::from_nanos(1_500).as_nanos(), 1_500);
    assert_eq!(TimeSpan::from_millis(3).as_nanos(), 3_000_000);
    assert_eq!(TimeSpan::from_secs(2).as_nanos(), 2_000_000_000);
    assert_eq!(TimeSpan::from_secs(2), TimeSpan::from_millis(2_000));
    assert_eq!(TimeSpan::from_nanos_saturating(17), TimeSpan::from_nanos(17));
}

#[test]
fn spans_that_do_not_fit_are_the_longest() {
    let longest = TimeSpan::from_nanos(u64::MAX);
    assert_eq!(TimeSpan::from_secs(u64::MAX), longest);
    assert_eq!(TimeSpan::from_secs(18_446_744_074), longest);
    assert_eq!(TimeSpan::from_secs(18_446_744_073).as_nanos(), 18_446_744_073_000_000_000);
    assert_eq!(TimeSpan::from_millis(u64::MAX), longest);
    assert_eq!(TimeSpan::from_nanos_saturating(u128::MAX), longest);
    assert_eq!(TimeSpan::from_nanos_saturating(u64::MAX as u128 + 1), longest);
    assert_eq!(TimeSpan::from_nanos_saturating(u64::MAX as u128), longest);
}

#[test]
fn spans_in_parts() {
    let span = TimeSpan::from_nanos(3_250_000_999);
    assert_eq!(span.as_secs(), 3);
    assert_eq!(span.as_millis(), 3_250);
    assert_eq!(TimeSpan::from_nanos(999_999).as_millis(), 0);
}

#[test]
fn differences_and_the_longer_of_two() {
    let short = TimeSpan::from_secs(2);
    let long = TimeSpan::from_secs(9);
    assert_eq!(long.saturating_sub(short), TimeSpan::from_secs(7));
    assert_eq!(short.saturating_sub(long), TimeSpan::zero());
    assert_eq!(short.saturating_sub(short), TimeSpan::zero());
    assert_eq!(short.longer_of(long), long);
    assert_eq!(long.longer_of(short), long);
    assert!(short < long);
}

#[test]
fn clock_readings_never_go_back() {
    let clock = Clock::start();
    let mut last = clock.reading();
    for _ in 0..1000 {
        let reading = clock.reading();
        assert!(reading >= last);
        last = reading;
    }
    let waited = std::time::Instant::now();
    while waited.elapsed() < std::time::Duration::from_millis(5) {
        std::hint::spin_loop();
    }
    assert!(clock.reading().as_millis() >= 5);
    assert!(clock.reading().as_secs() < 20);
}
