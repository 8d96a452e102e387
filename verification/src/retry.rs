use vstd::prelude::*;

verus! {

/// A source of numbers for jittered delays.  Implementations may be random;
/// tests inject sources pinned to an end of the range.
pub trait RandomSource {
    /// A value in `[min, max]`.
    fn random(&self, min: u64, max: u64) -> (r: u64)
        requires
            min <= max,
        ensures
            min <= r <= max,
    ;
}

/// Draws from the thread-local generator of the `rand` crate.
pub struct RandCrateRandomGenerator {}

impl RandCrateRandomGenerator {
    pub fn new() -> (r: Self) {
        RandCrateRandomGenerator {  }
    }
}

impl RandomSource for RandCrateRandomGenerator {
    fn random(&self, min: u64, max: u64) -> (r: u64) {
        rand_range(min, max)
    }
}

/// Relies on `rand::Rng::gen_range` over `thread_rng`: for a non-empty
/// inclusive range it returns a value inside the range; `requires` keeps the
/// range non-empty, so the call cannot panic.
#[verifier::external_body]
fn rand_range(min: u64, max: u64) -> (r: u64)
    requires
        min <= max,
    ensures
        min <= r <= max,
{
    rand::Rng::gen_range(&mut rand::thread_rng(), min..=max)
}

/// The exponential base policy: the wait before retrying attempt `a` is
/// `delay_ms * multiplier^(a - 1)` — the first retry waits `delay_ms`.
#[derive(Clone, Copy, Debug, PartialEq, Eq, Structural)]
pub struct ExponentialConfig {
    pub multiplier: u64,
    pub delay_ms: u64,
}

impl ExponentialConfig {
    pub fn new(multiplier: u64, delay_ms: u64) -> (r: Self)
        ensures
            r.multiplier == multiplier,
            r.delay_ms == delay_ms,
    {
        ExponentialConfig { multiplier, delay_ms }
    }
}

/// The constant base policy: every retry waits `delay_ms`.
#[derive(Clone, Copy, Debug, PartialEq, Eq, Structural)]
pub struct ConstantConfig {
    pub delay_ms: u64,
}

impl ConstantConfig {
    pub fn new(delay_ms: u64) -> (r: Self)
        ensures
            r.delay_ms == delay_ms,
    {
        ConstantConfig { delay_ms }
    }
}

/// The base delay policy a retry policy is built on.
#[derive(Clone, Copy, Debug, PartialEq, Eq, Structural)]
pub enum RetryPolicyConfig {
    Exponential(ExponentialConfig),
    Constant(ConstantConfig),
}

/// Multiplication on `u64` that stops at the largest value instead of
/// wrapping.
pub open spec fn sat_mul(a: u64, b: u64) -> u64 {
    if a * b > u64::MAX {
        u64::MAX
    } else {
        (a * b) as u64
    }
}

/// Addition on `u64` that stops at the largest value instead of wrapping.
pub open spec fn sat_add(a: u64, b: u64) -> u64 {
    if a + b > u64::MAX {
        u64::MAX
    } else {
        (a + b) as u64
    }
}

/// `delay * multiplier^exponent`, computed with saturating multiplication.
pub open spec fn exp_wait(delay: u64, multiplier: u64, exponent: nat) -> u64
    decreases exponent,
{
    if exponent == 0 {
        delay
    } else {
        sat_mul(exp_wait(delay, multiplier, (exponent - 1) as nat), multiplier)
    }
}

/// The base wait before retrying attempt `attempt` (counted from 1):
/// exponential growth from the configured delay, or the constant delay.
pub open spec fn base_wait(config: RetryPolicyConfig, attempt: usize) -> u64 {
    match config {
        RetryPolicyConfig::Exponential(c) => exp_wait(
            c.delay_ms,
            c.multiplier,
            if attempt == 0 {
                0
            } else {
                (attempt - 1) as nat
            },
        ),
        RetryPolicyConfig::Constant(c) => c.delay_ms,
    }
}

/// The jitter half-width: `base * percent / 100`, rounded down.
pub open spec fn jitter_diff(base: u64, percent: u64) -> u64 {
    (base * percent / 100) as u64
}

/// The lower end of the jittered range.
pub open spec fn jitter_lo(base: u64, percent: u64) -> u64 {
    (base - jitter_diff(base, percent)) as u64
}

/// The upper end of the jittered range.
pub open spec fn jitter_hi(base: u64, percent: u64) -> u64 {
    sat_add(base, jitter_diff(base, percent))
}

/// Decides whether an attempt may be retried at all.
pub trait ShouldRetryPolicy {
    /// The verdict the implementation stands for.
    spec fn spec_is_retryable(&self, attempt: usize) -> bool;

    /// Whether attempt number `attempt` may be retried.
    fn is_retryable(&self, attempt: usize) -> (r: bool)
        ensures
            r == self.spec_is_retryable(attempt),
    ;
}

/// Retryable while the attempt counter is below the maximum.
pub struct MaxAttemptsShouldRetryPolicy {
    max_retries: usize,
}

impl MaxAttemptsShouldRetryPolicy {
    pub fn new(max_retries: usize) -> (r: Self)
        ensures
            forall|a: usize| r.spec_is_retryable(a) == (a < max_retries),
    {
        MaxAttemptsShouldRetryPolicy { max_retries }
    }
}

impl ShouldRetryPolicy for MaxAttemptsShouldRetryPolicy {
    closed spec fn spec_is_retryable(&self, attempt: usize) -> bool {
        attempt < self.max_retries
    }

    fn is_retryable(&self, attempt: usize) -> (r: bool) {
        attempt < self.max_retries
    }
}

/// A complete retry policy: a retry ceiling, a base delay curve, and an
/// optional jitter factor (a percentage of the base delay) drawn from the
/// injected source.
pub struct Retry<G: RandomSource> {
    max_retries: usize,
    config: RetryPolicyConfig,
    random_factor_percent: Option<u64>,
    generator: G,
}

impl<G: RandomSource> Retry<G> {
    /// The jitter factor never exceeds 100 percent, so the jittered range
    /// never goes below zero.
    pub closed spec fn wf(&self) -> bool {
        match self.random_factor_percent {
            Some(p) => p <= 100,
            None => true,
        }
    }

    pub closed spec fn spec_max_retries(&self) -> usize {
        self.max_retries
    }

    pub closed spec fn spec_config(&self) -> RetryPolicyConfig {
        self.config
    }

    pub closed spec fn spec_factor(&self) -> Option<u64> {
        self.random_factor_percent
    }

    /// A policy from its parts.
    pub fn new(
        max_retries: usize,
        config: RetryPolicyConfig,
        random_factor_percent: Option<u64>,
        generator: G,
    ) -> (r: Self)
        requires
            random_factor_percent matches Some(p) ==> p <= 100,
        ensures
            r.wf(),
            r.spec_max_retries() == max_retries,
            r.spec_config() == config,
            r.spec_factor() == random_factor_percent,
    {
        Retry { max_retries, config, random_factor_percent, generator }
    }

    /// Retryable exactly while the attempt counter is below the maximum.
    pub fn is_retryable(&self, attempt: usize) -> (r: bool)
        ensures
            r == (attempt < self.spec_max_retries()),
    {
        attempt < self.max_retries
    }

    /// The wait before redelivering attempt `attempt`.  Without jitter it is
    /// exactly the base wait; with a jitter factor of `p` percent it is drawn
    /// from `[base - base*p/100, base + base*p/100]` by the injected source —
    /// a function of `attempt` and that source alone.
    pub fn get_waiting_time(&self, attempt: usize) -> (r: u64)
        requires
            self.wf(),
        ensures
            self.spec_factor() is None ==> r == base_wait(self.spec_config(), attempt),
            self.spec_factor() matches Some(p) ==> jitter_lo(
                base_wait(self.spec_config(), attempt),
                p,
            ) <= r <= jitter_hi(base_wait(self.spec_config(), attempt), p),
    {
        let base = match &self.config {
            RetryPolicyConfig::Exponential(c) => {
                let exponent = if attempt == 0 {
                    0
                } else {
                    attempt - 1
                };
                exp_wait_exec(c.delay_ms, c.multiplier, exponent)
            },
            RetryPolicyConfig::Constant(c) => c.delay_ms,
        };
        match self.random_factor_percent {
            None => base,
            Some(p) => {
                proof {
                    assert(base * p <= u64::MAX * 100) by (nonlinear_arith)
                        requires
                            base <= u64::MAX,
                            p <= 100,
                    ;
                    assert(base * p / 100 <= base) by (nonlinear_arith)
                        requires
                            p <= 100,
                    ;
                }
                let diff_wide = (base as u128) * (p as u128) / 100;
                let diff = diff_wide as u64;
                let lo = base - diff;
                let hi = match base.checked_add(diff) {
                    Some(v) => v,
                    None => u64::MAX,
                };
                self.generator.random(lo, hi)
            },
        }
    }
}

/// `delay * multiplier^exponent` with saturating steps.
fn exp_wait_exec(delay: u64, multiplier: u64, exponent: usize) -> (r: u64)
    ensures
        r == exp_wait(delay, multiplier, exponent as nat),
{
    let mut acc = delay;
    let mut i: usize = 0;
    while i < exponent
        invariant
            i <= exponent,
            acc == exp_wait(delay, multiplier, i as nat),
        decreases exponent - i,
    {
        acc = match acc.checked_mul(multiplier) {
            Some(v) => v,
            None => u64::MAX,
        };
        i += 1;
    }
    acc
}

/// Retry monotonicity: under a pure exponential policy, while no saturation
/// occurs, each attempt's wait is the multiplier times the previous one.
pub proof fn lemma_exponential_monotonic(c: ExponentialConfig, a: usize)
    requires
        1 <= a,
        a < usize::MAX,
        base_wait(RetryPolicyConfig::Exponential(c), a) * c.multiplier <= u64::MAX,
    ensures
        base_wait(RetryPolicyConfig::Exponential(c), (a + 1) as usize) == base_wait(
            RetryPolicyConfig::Exponential(c),
            a,
        ) * c.multiplier,
{
    assert(exp_wait(c.delay_ms, c.multiplier, a as nat) == sat_mul(
        exp_wait(c.delay_ms, c.multiplier, (a - 1) as nat),
        c.multiplier,
    ));
}

/// Builds a retry policy step by step; `build` fails fast when a mandatory
/// part is missing.
pub struct RetryPolicyBuilder {
    max_retries: Option<usize>,
    config: Option<RetryPolicyConfig>,
    random_factor_percent: Option<u64>,
}

impl RetryPolicyBuilder {
    pub closed spec fn spec_max_retries(&self) -> Option<usize> {
        self.max_retries
    }

    pub closed spec fn spec_config(&self) -> Option<RetryPolicyConfig> {
        self.config
    }

    pub closed spec fn spec_factor(&self) -> Option<u64> {
        self.random_factor_percent
    }

    /// The builder's consistency: a chosen jitter factor is a percentage.
    pub closed spec fn wf(&self) -> bool {
        match self.random_factor_percent {
            Some(p) => p <= 100,
            None => true,
        }
    }

    /// An empty builder: nothing chosen yet.
    pub fn new() -> (r: Self)
        ensures
            r.wf(),
            r.spec_max_retries() is None,
            r.spec_config() is None,
            r.spec_factor() is None,
    {
        RetryPolicyBuilder { max_retries: None, config: None, random_factor_percent: None }
    }

    /// Chooses the retry ceiling.
    pub fn max_retries(self, max_retries: usize) -> (r: Self)
        requires
            self.wf(),
        ensures
            r.wf(),
            r.spec_max_retries() == Some(max_retries),
            r.spec_config() == self.spec_config(),
            r.spec_factor() == self.spec_factor(),
    {
        RetryPolicyBuilder { max_retries: Some(max_retries), ..self }
    }

    /// Chooses an exponential base policy.
    pub fn exponential(self, multiplier: u64, delay_ms: u64) -> (r: Self)
        requires
            self.wf(),
        ensures
            r.wf(),
            r.spec_max_retries() == self.spec_max_retries(),
            r.spec_config() == Some(
                RetryPolicyConfig::Exponential(ExponentialConfig { multiplier, delay_ms }),
            ),
            r.spec_factor() == self.spec_factor(),
    {
        RetryPolicyBuilder {
            config: Some(RetryPolicyConfig::Exponential(ExponentialConfig::new(multiplier, delay_ms))),
            ..self
        }
    }

    /// Chooses a constant base policy.
    pub fn constant(self, delay_ms: u64) -> (r: Self)
        requires
            self.wf(),
        ensures
            r.wf(),
            r.spec_max_retries() == self.spec_max_retries(),
            r.spec_config() == Some(RetryPolicyConfig::Constant(ConstantConfig { delay_ms })),
            r.spec_factor() == self.spec_factor(),
    {
        RetryPolicyBuilder {
            config: Some(RetryPolicyConfig::Constant(ConstantConfig::new(delay_ms))),
            ..self
        }
    }

    /// Adds jitter of `percent` percent around the base delay.
    pub fn randomize(self, percent: u64) -> (r: Self)
        requires
            self.wf(),
            percent <= 100,
        ensures
            r.wf(),
            r.spec_max_retries() == self.spec_max_retries(),
            r.spec_config() == self.spec_config(),
            r.spec_factor() == Some(percent),
    {
        RetryPolicyBuilder { random_factor_percent: Some(percent), ..self }
    }

    /// Builds the policy.  Fails with a descriptive message when the retry
    /// ceiling or the base policy was never chosen.
    pub fn build(self) -> (r: Result<Retry<RandCrateRandomGenerator>, String>)
        requires
            self.wf(),
        ensures
            match r {
                Ok(p) => {
                    &&& self.spec_max_retries() is Some
                    &&& self.spec_config() is Some
                    &&& p.wf()
                    &&& p.spec_max_retries() == self.spec_max_retries().unwrap()
                    &&& p.spec_config() == self.spec_config().unwrap()
                    &&& p.spec_factor() == self.spec_factor()
                },
                Err(m) => {
                    &&& (self.spec_max_retries() is None || self.spec_config() is None)
                    &&& if self.spec_max_retries() is None {
                        m@ == "Max retries should be set"@
                    } else {
                        m@ == "Any base policy wasn't chosen"@
                    }
                },
            },
    {
        let max_retries = match self.max_retries {
            Some(n) => n,
            None => {
                return Err(String::from_str("Max retries should be set"));
            },
        };
        let config = match self.config {
            Some(c) => c,
            None => {
                return Err(String::from_str("Any base policy wasn't chosen"));
            },
        };
        Ok(
            Retry::new(
                max_retries,
                config,
                self.random_factor_percent,
                RandCrateRandomGenerator::new(),
            ),
        )
    }
}

} // verus!
