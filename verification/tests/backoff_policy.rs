use video_pipeline::rtsp_to_srt::{BackoffPolicy, DomainError, Multiplier};
use video_pipeline::time_span::TimeSpan;

#[test]
fn test_default_policy() {
    let policy = BackoffPolicy::default();
    assert_eq!(policy.initial_delay(), TimeSpan::from_secs(1));
    assert_eq!(policy.max_delay(), TimeSpan::from_secs(30));
    assert_eq!(policy.multiplier(), Multiplier::new(2, 1));
}

#[test]
fn test_next_delay_doubles() {
    let policy = BackoffPolicy::default();
    let current = TimeSpan::from_secs(1);
    let next = policy.next_delay(current);
    assert_eq!(next, TimeSpan::from_secs(2));
}

#[test]
fn test_next_delay_caps_at_max() {
    let policy = BackoffPolicy::default();
    let current = TimeSpan::from_secs(20);
    let next = policy.next_delay(current);
    assert_eq!(next, TimeSpan::from_secs(30)); // Capped at max
}

#[test]
fn test_rejects_invalid_multiplier() {
    let result = BackoffPolicy::new(
        TimeSpan::from_secs(1),
        TimeSpan::from_secs(30),
        Multiplier::new(1, 1), // Invalid: must be > 1.0
    );
    assert!(result.is_err());
}

#[test]
fn test_accepts_valid_multiplier() {
    let result = BackoffPolicy::new(
        TimeSpan::from_secs(1),
        TimeSpan::from_secs(60),
        Multiplier::new(3, 2),
    );
    assert!(result.is_ok());
}

#[test]
fn multiplier_of_one_or_less_is_refused_with_its_own_error() {
    for (numerator, denominator) in [(1u64, 1u64), (1, 2), (0, 1), (999, 1000), (7, 7)] {
        let result = BackoffPolicy::new(
            TimeSpan::from_secs(1),
            TimeSpan::from_secs(30),
            Multiplier::new(numerator, denominator),
        );
        assert!(matches!(result, Err(DomainError::InvalidBackoffMultiplier)));
    }
}

#[test]
fn multiplier_without_a_denominator_is_refused() {
    let result = BackoffPolicy::new(
        TimeSpan::from_secs(1),
        TimeSpan::from_secs(30),
        Multiplier::new(2, 0),
    );
    assert!(matches!(result, Err(DomainError::InvalidBackoffMultiplier)));
}

#[test]
fn accepted_policy_keeps_its_parts() {
    let policy = BackoffPolicy::new(
        TimeSpan::from_millis(250),
        TimeSpan::from_secs(60),
        Multiplier::new(3, 2),
    )
    .unwrap();
    assert_eq!(policy.initial_delay(), TimeSpan::from_millis(250));
    assert_eq!(policy.max_delay(), TimeSpan::from_secs(60));
    assert_eq!(policy.multiplier(), Multiplier::new(3, 2));
    assert!(policy.multiplier().is_above_one());
    assert!(!Multiplier::new(2, 2).is_above_one());
}

#[test]
fn delays_of_the_default_policy_run_to_the_maximum_and_stay() {
    let policy = BackoffPolicy::default();
    let mut delay = policy.initial_delay();
    let mut seconds = vec![delay.as_secs()];
    for _ in 0..7 {
        delay = policy.next_delay(delay);
        seconds.push(delay.as_secs());
    }
    assert_eq!(seconds, vec![1, 2, 4, 8, 16, 30, 30, 30]);
}

#[test]
fn delays_never_decrease_and_reach_the_maximum_by_the_logarithm() {
    // 100 ms, times 1.5, at most 2 s: 1.5^8 > 20 > 1.5^7, so eight steps.
    let policy = BackoffPolicy::new(
        TimeSpan::from_millis(100),
        TimeSpan::from_secs(2),
        Multiplier::new(3, 2),
    )
    .unwrap();
    let mut delay = policy.initial_delay();
    let mut steps = 0;
    while delay != policy.max_delay() {
        let next = policy.next_delay(delay);
        assert!(next >= delay);
        delay = next;
        steps += 1;
        assert!(steps <= 8);
    }
    assert_eq!(steps, 8);
    assert_eq!(policy.next_delay(delay), policy.max_delay());
}

#[test]
fn product_that_is_not_whole_is_rounded_up() {
    let policy = BackoffPolicy::new(
        TimeSpan::from_nanos(1),
        TimeSpan::from_secs(1),
        Multiplier::new(3, 2),
    )
    .unwrap();
    assert_eq!(policy.next_delay(TimeSpan::from_nanos(1)), TimeSpan::from_nanos(2));
    assert_eq!(policy.next_delay(TimeSpan::from_nanos(2)), TimeSpan::from_nanos(3));
    assert_eq!(policy.next_delay(TimeSpan::from_nanos(3)), TimeSpan::from_nanos(5));
    assert_eq!(policy.next_delay(TimeSpan::from_nanos(0)), TimeSpan::from_nanos(0));
}

#[test]
fn longest_delay_times_largest_multiplier_is_capped() {
    let policy = BackoffPolicy::new(
        TimeSpan::from_secs(1),
        TimeSpan::from_nanos(u64::MAX),
        Multiplier::new(u64::MAX, 1),
    )
    .unwrap();
    assert_eq!(
        policy.next_delay(TimeSpan::from_nanos(u64::MAX)),
        TimeSpan::from_nanos(u64::MAX)
    );
    assert_eq!(policy.next_delay(TimeSpan::from_nanos(1)), TimeSpan::from_nanos(u64::MAX));
}

#[test]
fn initial_delay_above_the_maximum_is_cut_by_the_first_step() {
    let policy = BackoffPolicy::new(
        TimeSpan::from_secs(50),
        TimeSpan::from_secs(10),
        Multiplier::new(2, 1),
    )
    .unwrap();
    assert_eq!(policy.next_delay(policy.initial_delay()), TimeSpan::from_secs(10));
}
