use webhooks::retry::{
    ConstantConfig, ExponentialConfig, MaxAttemptsShouldRetryPolicy, RandCrateRandomGenerator,
    RandomSource, Retry, RetryPolicyBuilder, RetryPolicyConfig, ShouldRetryPolicy,
};

struct MinRandomGenerator {}

impl RandomSource for MinRandomGenerator {
    fn random(&self, min: u64, _max: u64) -> u64 {
        min
    }
}

struct MaxRandomGenerator {}

impl RandomSource for MaxRandomGenerator {
    fn random(&self, _min: u64, max: u64) -> u64 {
        max
    }
}

#[test]
fn exponential_waiting_times() {
    // First retry waits the base delay; each further retry multiplies it.
    let sut = Retry::new(
        5,
        RetryPolicyConfig::Exponential(ExponentialConfig::new(2, 2000)),
        None,
        RandCrateRandomGenerator::new(),
    );

    assert_eq!(2000, sut.get_waiting_time(1));
    assert_eq!(4000, sut.get_waiting_time(2));
    assert_eq!(8000, sut.get_waiting_time(3));
    assert_eq!(16000, sut.get_waiting_time(4));
    assert_eq!(32000, sut.get_waiting_time(5));

    let tripled = Retry::new(
        5,
        RetryPolicyConfig::Exponential(ExponentialConfig::new(3, 2000)),
        None,
        RandCrateRandomGenerator::new(),
    );
    assert_eq!(2000, tripled.get_waiting_time(1));
    assert_eq!(18000, tripled.get_waiting_time(3));
}

#[test]
fn constant_waiting_time() {
    let sut = Retry::new(
        3,
        RetryPolicyConfig::Constant(ConstantConfig::new(1500)),
        None,
        RandCrateRandomGenerator::new(),
    );

    assert_eq!(1500, sut.get_waiting_time(1));
    assert_eq!(1500, sut.get_waiting_time(7));
}

#[test]
fn randomize_decorated_retry_policy() {
    let cases: [(u64, u64, u64, u64); 3] =
        [(5000, 50, 2500, 7500), (5000, 25, 3750, 6250), (3000, 10, 2700, 3300)];

    for (delay, percent, min, max) in cases {
        let lo = Retry::new(
            5,
            RetryPolicyConfig::Constant(ConstantConfig::new(delay)),
            Some(percent),
            MinRandomGenerator {},
        );
        assert_eq!(min, lo.get_waiting_time(1));

        let hi = Retry::new(
            5,
            RetryPolicyConfig::Constant(ConstantConfig::new(delay)),
            Some(percent),
            MaxRandomGenerator {},
        );
        assert_eq!(max, hi.get_waiting_time(1));
    }
}

#[test]
fn zero_jitter_draws_exactly_the_base() {
    // With a factor of zero the drawn range collapses to the base delay, so
    // even the real random source must return it.
    let sut = Retry::new(
        5,
        RetryPolicyConfig::Constant(ConstantConfig::new(4000)),
        Some(0),
        RandCrateRandomGenerator::new(),
    );

    assert_eq!(4000, sut.get_waiting_time(1));
}

#[test]
fn jittered_wait_stays_in_range() {
    let sut = Retry::new(
        5,
        RetryPolicyConfig::Exponential(ExponentialConfig::new(2, 2000)),
        Some(50),
        RandCrateRandomGenerator::new(),
    );

    for _ in 0..50 {
        let wait = sut.get_waiting_time(1);
        assert!((1000..=3000).contains(&wait));
    }
}

#[test]
fn is_retryable_respects_the_ceiling() {
    let sut = Retry::new(
        5,
        RetryPolicyConfig::Constant(ConstantConfig::new(1000)),
        None,
        RandCrateRandomGenerator::new(),
    );

    assert!(sut.is_retryable(1));
    assert!(sut.is_retryable(4));
    assert!(!sut.is_retryable(5));
    assert!(!sut.is_retryable(6));

    let policy = MaxAttemptsShouldRetryPolicy::new(3);
    assert!(policy.is_retryable(2));
    assert!(!policy.is_retryable(3));
}

#[test]
fn builder_requires_max_retries() {
    let sut = RetryPolicyBuilder::new().constant(1000).build();

    assert_eq!(Err(String::from("Max retries should be set")), sut.map(|_| ()));
}

#[test]
fn builder_requires_base_policy() {
    let sut = RetryPolicyBuilder::new().max_retries(5).build();

    assert_eq!(
        Err(String::from("Any base policy wasn't chosen")),
        sut.map(|_| ())
    );
}

#[test]
fn builder_builds_the_production_policy() {
    let sut = RetryPolicyBuilder::new()
        .max_retries(5)
        .exponential(2, 2000)
        .randomize(50)
        .build()
        .unwrap();

    assert!(sut.is_retryable(4));
    assert!(!sut.is_retryable(5));
    let wait = sut.get_waiting_time(1);
    assert!((1000..=3000).contains(&wait));
}
