use aleph_node::rate_limiter::hierarchical::{HierarchicalTokenBucket, RequestStep};
use aleph_node::rate_limiter::limiter::{
    accounted_read_size, read_size, start_shared, DefaultSharedRateLimiter, Deadline, Pause,
    PerConnectionRateLimiter, RateLimiter, RateLimiterFacade, ReadOutcome,
};
use aleph_node::rate_limiter::rate::{NonZeroRatePerSecond, RatePerSecond, ZeroRateError};
use aleph_node::rate_limiter::shared_bandwidth::{
    BandwidthPoll, PeersCount, SharedBandwidthManager,
};
use aleph_node::rate_limiter::token_bucket::TokenBucket;
use aleph_node::time::{DefaultTimeProvider, Instant, TimeProvider};

const START: u128 = 5_000_000_000;

fn rate(units: u64) -> NonZeroRatePerSecond {
    NonZeroRatePerSecond::try_from(units).expect("units > 0 qed")
}

fn at_millis(millis: u128) -> Instant {
    Instant {
        nanos: START + millis * 1_000_000,
    }
}

fn at(secs: u128) -> Instant {
    at_millis(secs * 1000)
}

/// Allows to treat both kinds of bucket similarly.
trait Limiter {
    fn make(rate: NonZeroRatePerSecond, now: Instant) -> Self;
    fn limit(&mut self, requested: u64, now: Instant) -> Option<Instant>;
}

impl Limiter for TokenBucket {
    fn make(rate: NonZeroRatePerSecond, now: Instant) -> Self {
        TokenBucket::new(rate, now)
    }

    fn limit(&mut self, requested: u64, now: Instant) -> Option<Instant> {
        TokenBucket::rate_limit(self, requested, now)
    }
}

/// A bucket that shares a bandwidth, with sleeps that are over at once and of
/// which only the latest deadline is remembered.
struct Tracing {
    bucket: HierarchicalTokenBucket,
    peers: PeersCount,
    last_sleep: Option<Instant>,
}

fn traced_limit(
    bucket: &mut HierarchicalTokenBucket,
    peers: &mut PeersCount,
    last_sleep: &mut Option<Instant>,
    requested: u64,
    now: Instant,
) -> Option<Instant> {
    let before = *last_sleep;
    bucket.start(requested, peers, now);
    if let Some(deadline) = bucket.deadline() {
        *last_sleep = std::cmp::max(*last_sleep, Some(deadline));
    }
    bucket.finish(peers);
    if before != *last_sleep {
        *last_sleep
    } else {
        None
    }
}

impl Limiter for Tracing {
    fn make(rate: NonZeroRatePerSecond, now: Instant) -> Self {
        Tracing {
            bucket: HierarchicalTokenBucket::new(rate, now),
            peers: PeersCount::new(),
            last_sleep: None,
        }
    }

    fn limit(&mut self, requested: u64, now: Instant) -> Option<Instant> {
        traced_limit(
            &mut self.bucket,
            &mut self.peers,
            &mut self.last_sleep,
            requested,
            now,
        )
    }
}

#[test]
fn basic_checks_of_shared_bandwidth_manager() {
    let mut peers = PeersCount::new();
    let mut bandwidth_share = SharedBandwidthManager::new(rate(10));
    let mut cloned_bandwidth_share = bandwidth_share.clone();
    let mut another_cloned_bandwidth_share = cloned_bandwidth_share.clone();

    // only one consumer, so it should get whole bandwidth
    assert_eq!(bandwidth_share.request_bandwidth(&mut peers), rate(10));

    // since other instances did not request any bandwidth, they should not receive a notification about its change
    assert_eq!(
        cloned_bandwidth_share.poll_bandwidth_change(&peers),
        BandwidthPoll::Never
    );
    assert_eq!(
        another_cloned_bandwidth_share.poll_bandwidth_change(&peers),
        BandwidthPoll::Never
    );

    // two consumers should equally divide the bandwidth
    assert_eq!(cloned_bandwidth_share.request_bandwidth(&mut peers), rate(5));
    assert_eq!(
        bandwidth_share.poll_bandwidth_change(&peers),
        BandwidthPoll::Changed(rate(5))
    );

    // similarly when there are three consumers
    let bandwidth: u64 = another_cloned_bandwidth_share
        .request_bandwidth(&mut peers)
        .into();
    let another_bandwidth: u64 = match bandwidth_share.poll_bandwidth_change(&peers) {
        BandwidthPoll::Changed(rate) => rate.into(),
        _ => panic!("the share should change"),
    };
    let yet_another_bandwidth: u64 = match cloned_bandwidth_share.poll_bandwidth_change(&peers) {
        BandwidthPoll::Changed(rate) => rate.into(),
        _ => panic!("the share should change"),
    };

    assert!((3..4).contains(&bandwidth));
    assert!((3..4).contains(&another_bandwidth));
    assert!((3..4).contains(&yet_another_bandwidth));

    assert!((9..10).contains(&(bandwidth + another_bandwidth + yet_another_bandwidth)));

    // all consumers should be notified after one of them become idle
    another_cloned_bandwidth_share.notify_idle(&mut peers);
    assert_eq!(
        cloned_bandwidth_share.poll_bandwidth_change(&peers),
        BandwidthPoll::Changed(rate(5))
    );
    assert_eq!(
        bandwidth_share.poll_bandwidth_change(&peers),
        BandwidthPoll::Changed(rate(5))
    );
    assert_eq!(
        bandwidth_share.poll_bandwidth_change(&peers),
        BandwidthPoll::Unchanged { sleep_millis: 250 }
    );
    assert_eq!(peers.get(), 2);
}

fn sanity_check<L: Limiter>() {
    let mut rate_limiter = L::make(rate(10), at(0));

    assert!(rate_limiter.limit(9, at(1)).is_none());
    assert!(rate_limiter.limit(12, at(1)).is_some());
    assert!(rate_limiter.limit(8, at(3)).is_none());
}

#[test]
fn rate_limiter_sanity_check() {
    sanity_check::<TokenBucket>();
    sanity_check::<Tracing>();
}

fn no_slowdown<L: Limiter>() {
    let mut rate_limiter = L::make(rate(10), at(0));

    assert_eq!(rate_limiter.limit(9, at(1)), None);
    assert_eq!(rate_limiter.limit(5, at(2)), None);
    assert_eq!(rate_limiter.limit(1, at(3)), None);
    assert_eq!(rate_limiter.limit(9, at(3)), None);
}

#[test]
fn token_bucket_no_slowdown_while_within_rate_limit() {
    no_slowdown::<TokenBucket>();
    no_slowdown::<Tracing>();
}

fn slowdown<L: Limiter>() {
    let mut rate_limiter = L::make(rate(10), at(0));

    assert_eq!(rate_limiter.limit(10, at(0)), Some(at(1)));

    // we should wait some time after reaching the limit
    assert!(rate_limiter.limit(1, at(1)).is_some());

    assert_eq!(
        rate_limiter.limit(19, at(1)),
        Some(at(3)),
        "we should wait exactly 2 seconds"
    );
}

#[test]
fn slowdown_when_limit_reached_token_bucket() {
    slowdown::<TokenBucket>();
    slowdown::<Tracing>();
}

fn buildup<L: Limiter>() {
    let mut rate_limiter = L::make(rate(10), at(0));

    assert_eq!(rate_limiter.limit(10, at(2)), None);
    assert_eq!(rate_limiter.limit(40, at(10)), Some(at(10 + 3)));
    assert_eq!(rate_limiter.limit(40, at(11)), Some(at(11 + 6)));
}

#[test]
fn buildup_tokens_but_no_more_than_limit_token_bucket() {
    buildup::<TokenBucket>();
    buildup::<Tracing>();
}

fn multiple_calls<L: Limiter>() {
    let mut rate_limiter = L::make(rate(10), at(0));

    assert_eq!(rate_limiter.limit(10, at(3)), None);
    assert_eq!(rate_limiter.limit(10, at(3)), Some(at(4)));
    assert_eq!(rate_limiter.limit(10, at(3)), Some(at(4 + 1)));
    assert_eq!(rate_limiter.limit(50, at(3)), Some(at(4 + 6)));
}

#[test]
fn token_bucket_multiple_calls_buildup_wait_time() {
    multiple_calls::<TokenBucket>();
    multiple_calls::<Tracing>();
}

#[test]
fn two_peers_can_share_bandwidth() {
    let mut peers = PeersCount::new();
    let mut first = HierarchicalTokenBucket::new(rate(10), at(0));
    let mut second = first.clone();

    first.start(10, &mut peers, at(0));
    second.start(10, &mut peers, at(0));
    assert_eq!(
        first.poll_bandwidth(&peers, at(0)),
        BandwidthPoll::Changed(rate(5))
    );
    let both = std::cmp::max(first.deadline(), second.deadline()).expect("we should sleep a bit");
    assert_eq!(both, at(2));
    first.finish(&mut peers);
    second.finish(&mut peers);

    first.start(30, &mut peers, both);
    second.start(25, &mut peers, both);
    assert_eq!(
        first.poll_bandwidth(&peers, both),
        BandwidthPoll::Changed(rate(5))
    );
    let second_deadline = second.deadline().expect("we should sleep a bit");
    second.finish(&mut peers);
    assert_eq!(
        first.poll_bandwidth(&peers, second_deadline),
        BandwidthPoll::Changed(rate(10))
    );
    let last_deadline = first.deadline().expect("we should sleep a bit");
    first.finish(&mut peers);

    let total_data_sent: u128 = 10 + 30 + 10 + 25;
    let duration_millis = (last_deadline.nanos - at(0).nanos) / 1_000_000;
    let rate = total_data_sent * 1000 / duration_millis;
    assert!(rate.abs_diff(10) <= 5, "rate = {rate}");
    assert_eq!(peers.get(), 0);
}

#[test]
fn single_peer_can_use_whole_bandwidth_when_needed() {
    let mut peers = PeersCount::new();
    let mut last_sleep = None;
    let mut rate_limiter = HierarchicalTokenBucket::new(rate(10), at(0));
    let mut rate_limiter_cloned = rate_limiter.clone();

    let deadline = traced_limit(&mut rate_limiter, &mut peers, &mut last_sleep, 5, at(0));
    assert_eq!(deadline, Some(at_millis(500)));
    let deadline = traced_limit(
        &mut rate_limiter_cloned,
        &mut peers,
        &mut last_sleep,
        5,
        at(0),
    );
    assert_eq!(deadline, None);

    let deadline = traced_limit(
        &mut rate_limiter,
        &mut peers,
        &mut last_sleep,
        10,
        at_millis(1500),
    );
    assert_eq!(deadline, None);
}

#[test]
fn peers_receive_at_least_one_token_per_second() {
    let mut peers = PeersCount::new();
    let mut last_sleep = None;
    let mut rate_limiter = HierarchicalTokenBucket::new(rate(1), at(0));
    let mut rate_limiter_cloned = rate_limiter.clone();

    let deadline = traced_limit(&mut rate_limiter, &mut peers, &mut last_sleep, 1, at(1));
    assert_eq!(deadline, None);
    let deadline = traced_limit(
        &mut rate_limiter_cloned,
        &mut peers,
        &mut last_sleep,
        1,
        at(1),
    );
    assert_eq!(deadline, None);

    let deadline = traced_limit(&mut rate_limiter, &mut peers, &mut last_sleep, 1, at(2));
    assert_eq!(deadline, None);
    let deadline = traced_limit(
        &mut rate_limiter_cloned,
        &mut peers,
        &mut last_sleep,
        2,
        at(2),
    );
    assert_eq!(deadline, Some(at(3)));
}

#[test]
fn rates_convert_to_numbers_and_back() {
    assert_eq!(NonZeroRatePerSecond::try_from(0), Err(ZeroRateError));
    assert_eq!(u64::from(rate(7)), 7);
    assert_eq!(RatePerSecond::from(0), RatePerSecond::Block);
    assert_eq!(RatePerSecond::from(7), RatePerSecond::Rate(rate(7)));
    assert_eq!(u64::from(RatePerSecond::from(0)), 0);
    assert_eq!(u64::from(RatePerSecond::from(u64::MAX)), u64::MAX);
    assert_eq!(RatePerSecond::from(rate(3)), RatePerSecond::Rate(rate(3)));
    assert_eq!(NonZeroRatePerSecond::min(), rate(1));
}

#[test]
fn delays_are_whole_microseconds_rounded_down() {
    let mut bucket = TokenBucket::new(rate(3), at(0));
    let deadline = bucket.rate_limit(1, at(0)).expect("a token is owed");
    assert_eq!(deadline.nanos - at(0).nanos, 333_333_000);
    // at the deadline the rounded token is not there yet, a microsecond later it is
    let mut early = bucket;
    assert!(early.rate_limit(1, deadline).is_some());
    let mut late = bucket;
    late.set_rate(
        rate(4),
        Instant {
            nanos: deadline.nanos + 1_000,
        },
    );
    assert_eq!(late.available(), Some(0));
}

#[test]
fn setting_the_rate_keeps_what_is_owed_and_what_is_at_hand() {
    let mut owing = TokenBucket::new(rate(10), at(0));
    assert_eq!(owing.rate_limit(20, at(0)), Some(at(2)));
    owing.set_rate(rate(5), at(0));
    assert_eq!(owing.rate(), rate(5));
    assert_eq!(owing.rate_limit(0, at(0)), Some(at(4)));

    let mut rich = TokenBucket::new(rate(10), at(0));
    rich.set_rate(rate(5), at(1));
    assert_eq!(rich.available(), Some(5));
    rich.set_rate(rate(20), at(1));
    assert_eq!(rich.available(), Some(5));
}

#[test]
fn counts_stop_at_the_largest_number() {
    let mut bucket = TokenBucket::new(rate(1), at(0));
    let deadline = bucket.rate_limit(u64::MAX, at(0)).expect("tokens are owed");
    assert_eq!(deadline.nanos - at(0).nanos, u128::from(u64::MAX) * 1_000);
    assert_eq!(bucket.available(), None);
}

#[test]
fn tokens_within_those_at_hand_need_no_clock() {
    let mut bucket = TokenBucket::new(rate(10), at(5));
    assert_eq!(bucket.rate_limit(4, at(6)), None);
    // the clock stands wrong, but is not looked at
    assert_eq!(bucket.rate_limit(6, at(0)), None);
}

#[test]
fn facades_block_or_limit() {
    let mut blocked: RateLimiterFacade<TokenBucket> =
        RateLimiterFacade::new(RatePerSecond::Block, at(0));
    assert_eq!(blocked.rate_limit(0, at(0)), Some(Deadline::Never));
    let mut limited: RateLimiterFacade<TokenBucket> =
        RateLimiterFacade::new(RatePerSecond::Rate(rate(10)), at(0));
    assert_eq!(limited.rate_limit(10, at(1)), None);
    assert_eq!(
        limited.rate_limit(10, at(1)),
        Some(Deadline::Instant(at(2)))
    );
    assert_eq!(Option::<Instant>::from(Deadline::Never), None);
    assert_eq!(
        Option::<Instant>::from(Deadline::Instant(at(2))),
        Some(at(2))
    );
    let mut bucket = <TokenBucket as RateLimiter>::with_rate(rate(10), at(0));
    assert_eq!(
        RateLimiter::rate_limit(&mut bucket, 10, at(0)),
        Some(Deadline::Instant(at(1)))
    );
}

#[test]
fn sleeping_limiters_pause() {
    let mut blocked = PerConnectionRateLimiter::new(RatePerSecond::Block, at(0));
    assert_eq!(blocked.rate_limit(1, at(0)), Pause::Forever);
    assert!(blocked.can_limit(1, at(0)));
    let mut limited = PerConnectionRateLimiter::new(RatePerSecond::Rate(rate(10)), at(1));
    assert!(limited.can_limit(0, at(0)));
    assert!(!limited.can_limit(1, at(0)));
    assert!(limited.can_limit(1, at(1)));
    assert_eq!(limited.rate_limit(0, at(1)), Pause::Nothing);
    assert_eq!(read_size(3, 23), 20);
    assert_eq!(read_size(23, 3), 0);
    let mut limited = PerConnectionRateLimiter::new(RatePerSecond::Rate(rate(10)), at(0));
    assert_eq!(limited.rate_limit(0, at(0)), Pause::Nothing);
    assert_eq!(limited.after_read(3, 23, at(1)), Pause::Until(at(2)));
    // a buffer that shrank counts as nothing read
    assert_eq!(limited.after_read(23, 3, at(2)), Pause::Until(at(2)));
}

#[test]
fn only_what_was_read_is_accounted_for() {
    assert_eq!(accounted_read_size(&ReadOutcome::Read(7)), 7);
    assert_eq!(accounted_read_size(&ReadOutcome::Pending), 0);
    assert_eq!(accounted_read_size(&ReadOutcome::Failed), 0);
}

#[test]
fn shared_limiters_start_unless_blocked() {
    let mut peers = PeersCount::new();
    let mut blocked: DefaultSharedRateLimiter = RateLimiterFacade::NoTraffic;
    assert!(!start_shared(&mut blocked, 5, &mut peers, at(0)));
    assert_eq!(peers.get(), 0);
    let mut limited =
        RateLimiterFacade::RateLimiter(HierarchicalTokenBucket::new(rate(10), at(0)));
    assert!(start_shared(&mut limited, 5, &mut peers, at(0)));
    assert_eq!(peers.get(), 1);
    if let RateLimiterFacade::RateLimiter(bucket) = &mut limited {
        assert_eq!(bucket.deadline(), Some(at_millis(500)));
        bucket.release(&mut peers);
    }
    assert_eq!(peers.get(), 0);
}

#[test]
fn the_clock_does_not_run_backwards() {
    let provider = DefaultTimeProvider::default();
    let first = provider.now();
    let second = provider.now();
    assert!(second.nanos >= first.nanos);
    let mut bucket = TokenBucket::new(rate(1_000_000_000), first);
    assert!(bucket.rate_limit(0, second).is_none());
}

#[test]
fn requests_sleep_until_they_are_over() {
    let mut peers = PeersCount::new();
    let mut first = HierarchicalTokenBucket::new(rate(10), at(0));
    let mut second = first.clone();
    assert_eq!(first.next_step(&peers, at(0)), RequestStep::Finish);
    first.start(10, &mut peers, at(0));
    assert_eq!(
        first.next_step(&peers, at(0)),
        RequestStep::Sleep {
            deadline: at(1),
            look_again_millis: Some(250)
        }
    );
    second.start(10, &mut peers, at(0));
    assert_eq!(
        first.next_step(&peers, at_millis(500)),
        RequestStep::Sleep {
            deadline: at_millis(1500),
            look_again_millis: Some(250)
        }
    );
    second.release(&mut peers);
    assert_eq!(
        first.next_step(&peers, at(2)),
        RequestStep::Finish
    );
    first.finish(&mut peers);
    assert_eq!(peers.get(), 0);
}

#[test]
fn requests_can_be_asked_about_beforehand() {
    let mut peers = PeersCount::new();
    let mut bucket = HierarchicalTokenBucket::new(rate(10), at(5));
    assert!(bucket.can_start(10, &peers, at(5)));
    // the clock runs backwards
    assert!(!bucket.can_start(10, &peers, at(4)));
    assert!(bucket.can_start(0, &peers, at(4)));
    bucket.start(10, &mut peers, at(5));
    assert!(bucket.can_poll(&peers, at(4)));
    assert!(!bucket.can_poll(&PeersCount::new(), at(6)));

    let mut bucket = TokenBucket::new(rate(10), at(5));
    assert!(bucket.accepts_request(0, at(4)));
    assert!(!bucket.accepts_request(1, at(4)));
    assert!(bucket.accepts_rate(rate(u64::MAX), at(5)));
    assert!(!bucket.accepts_rate(rate(1), at(4)));
    assert!(bucket.rate_limit(11, at(5)).is_some());
    assert!(!bucket.accepts_rate(rate(u64::MAX), at(5)));
}
