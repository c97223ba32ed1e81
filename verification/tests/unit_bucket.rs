use aleph_node::clique::unit_bucket::{
    OwningRateLimiterTask, Settling, SleepState, SleepingUnitLimiter, UnitBucket,
};
use std::time::{Duration, Instant};

/// A bucket whose rate is a fraction: the times are reckoned here, the units in
/// the library.
struct TokenBucket {
    rate: f64,
    units: UnitBucket,
    last_update: Instant,
}

impl TokenBucket {
    fn new(settling: Settling, rate: f64, initial: usize, now: Instant) -> Self {
        Self {
            rate,
            units: UnitBucket::new(settling, rate as usize, initial),
            last_update: now,
        }
    }

    fn rate_limit(
        &mut self,
        requested: usize,
        mut now: impl FnMut() -> Instant,
    ) -> Option<Duration> {
        let mut new_units = 0;
        if self.units.needs_update(requested) {
            let now = now();
            let elapsed = now.duration_since(self.last_update).as_secs_f64();
            new_units = (elapsed * self.rate).floor() as usize;
            self.last_update = now;
        }
        self.units
            .rate_limit(requested, new_units)
            .map(|missing| Duration::from_secs_f64(missing as f64 / self.rate))
    }
}

fn no_slowdown(settling: Settling) {
    let now = Instant::now();
    let limit_per_second = 10_f64;
    let mut rate_limiter = TokenBucket::new(settling, limit_per_second, 0, now);

    assert_eq!(
        rate_limiter.rate_limit(9, || now + Duration::from_secs(1)),
        None
    );
    assert_eq!(
        rate_limiter.rate_limit(5, || now + Duration::from_secs(2)),
        None
    );
    assert_eq!(
        rate_limiter.rate_limit(1, || now + Duration::from_secs(3)),
        None
    );
    assert_eq!(
        rate_limiter.rate_limit(0, || panic!("`now()` shouldn't be called")),
        None
    );
    assert_eq!(
        rate_limiter.rate_limit(0, || panic!("`now()` shouldn't be called")),
        None
    );
    assert_eq!(
        rate_limiter.rate_limit(9, || now + Duration::from_secs(3)),
        None
    );
}

#[test]
fn rate_limiter_no_slowdown_while_within_rate_limit() {
    no_slowdown(Settling::WhenShort);
    no_slowdown(Settling::WhenOwing);
}

fn slowdown(settling: Settling) {
    let now = Instant::now();
    let limit_per_second = 10_f64;
    let mut rate_limiter = TokenBucket::new(settling, limit_per_second, 0, now);

    assert_eq!(
        rate_limiter.rate_limit(10, || now + Duration::from_secs(1)),
        None
    );

    // we should wait some time after reaching the limit
    assert!(rate_limiter
        .rate_limit(1, || now + Duration::from_secs(1))
        .is_some());

    let sleep = rate_limiter
        .rate_limit(19, || now + Duration::from_secs(1))
        .expect("we should already reach the limit");

    assert_eq!(
        sleep,
        Duration::from_secs(2),
        "we should wait exactly 2 seconds"
    );
}

#[test]
fn rate_limiter_slowdown_when_limit_reached() {
    slowdown(Settling::WhenShort);
    slowdown(Settling::WhenOwing);
}

fn buildup(settling: Settling) {
    let now = Instant::now();
    let limit_per_second = 10_f64;
    let mut rate_limiter = TokenBucket::new(settling, limit_per_second, 0, now);

    assert_eq!(
        rate_limiter.rate_limit(10, || now + Duration::from_secs(2)),
        None
    );

    assert_eq!(
        rate_limiter.rate_limit(40, || now + Duration::from_secs(10)),
        Some(Duration::from_secs(3)),
    );
    assert_eq!(
        rate_limiter.rate_limit(40, || now + Duration::from_secs(11)),
        Some(Duration::from_secs(6))
    );
}

#[test]
fn rate_limiter_buildup_tokens_but_no_more_than_limit() {
    buildup(Settling::WhenShort);
    buildup(Settling::WhenOwing);
}

fn multiple_calls(settling: Settling) {
    let now = Instant::now();
    let limit_per_second = 10_f64;
    let mut rate_limiter = TokenBucket::new(settling, limit_per_second, 0, now);

    assert_eq!(
        rate_limiter.rate_limit(10, || now + Duration::from_secs(3)),
        None
    );

    assert_eq!(
        rate_limiter.rate_limit(10, || now + Duration::from_secs(3)),
        Some(Duration::from_secs(1))
    );

    assert_eq!(
        rate_limiter.rate_limit(10, || now + Duration::from_secs(3)),
        Some(Duration::from_secs(2))
    );

    assert_eq!(
        rate_limiter.rate_limit(50, || now + Duration::from_secs(3)),
        Some(Duration::from_secs(7))
    );
}

#[test]
fn rate_limiter_multiple_calls_buildup_wait_time() {
    multiple_calls(Settling::WhenShort);
    multiple_calls(Settling::WhenOwing);
}

#[test]
fn settling_decides_whether_owed_tokens_hold_back_small_requests() {
    let mut short = UnitBucket::new(Settling::WhenShort, 10, 5);
    assert_eq!(short.rate_limit(8, 0), Some(3));
    assert!(!short.needs_update(2));
    assert_eq!(short.rate_limit(2, 0), None);

    let mut owing = UnitBucket::new(Settling::WhenOwing, 10, 5);
    assert_eq!(owing.rate_limit(8, 0), Some(3));
    assert!(owing.needs_update(2));
    assert_eq!(owing.rate_limit(2, 0), Some(5));
}

#[test]
fn units_are_kept_up_to_the_limit() {
    let mut bucket = UnitBucket::new(Settling::WhenShort, 10, 0);
    assert_eq!(bucket.update_units(25), 10);
    assert_eq!(bucket.update_units(usize::MAX), 10);
    assert_eq!(bucket.rate_limit(12, 0), Some(2));
    assert_eq!(bucket.update_units(7), 5);
}

#[test]
fn waits_end_with_their_deadline() {
    let mut once = SleepState::once();
    assert!(!once.poll(false));
    assert!(once.poll(true));
    once.set_sleep();
    assert!(once.poll(false));

    let mut each_time = SleepState::each_time();
    assert!(each_time.poll(false));
    each_time.set_sleep();
    assert!(!each_time.poll(false));
    assert!(each_time.poll(true));
}

#[test]
fn owning_waits_hand_back_once() {
    let mut task = OwningRateLimiterTask::new(7);
    assert_eq!(task.poll(false), None);
    assert_eq!(task.poll(true), Some(7));
    assert_eq!(task.poll(true), None);
    assert_eq!(OwningRateLimiterTask::new(8).into_inner(), 8);
}

#[test]
fn readers_wait_for_what_they_owe() {
    let units = UnitBucket::new(Settling::WhenOwing, 10, 4);
    let mut limiter = SleepingUnitLimiter::new(units, SleepState::each_time());
    assert!(limiter.poll(false));
    assert_eq!(limiter.after_read(2, 5, 0), None);
    assert!(limiter.poll(false));
    assert!(limiter.needs_update(6));
    assert_eq!(limiter.after_read(0, 6, 2), Some(3));
    assert!(!limiter.poll(false));
    assert!(limiter.poll(true));
    assert!(limiter.poll(false));

    let units = UnitBucket::new(Settling::WhenShort, 10, 0);
    let mut limiter = SleepingUnitLimiter::new(units, SleepState::once());
    assert!(!limiter.poll(false));
    assert!(limiter.poll(true));
    assert_eq!(limiter.rate_limit(7, 0), Some(7));
    assert!(limiter.poll(false));
}
