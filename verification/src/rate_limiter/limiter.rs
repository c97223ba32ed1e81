//! Rate limiters as their users see them: blocking or limiting, and told in
//! bytes that were read.

use vstd::prelude::*;

use crate::rate_limiter::hierarchical::HierarchicalTokenBucket;
use crate::rate_limiter::rate::{NonZeroRatePerSecond, RatePerSecond};
use crate::rate_limiter::shared_bandwidth::PeersCount;
use crate::rate_limiter::token_bucket::{BucketState, TokenBucket};
use crate::time::Instant;

verus! {

/// Until when to wait.
#[derive(Clone, Copy, Debug, PartialEq, Eq, Structural)]
pub enum Deadline {
    /// For ever.
    Never,
    /// Until a point in time.
    Instant(Instant),
}

impl From<Deadline> for Option<Instant> {
    fn from(value: Deadline) -> (instant: Option<Instant>) {
        match value {
            Deadline::Never => None,
            Deadline::Instant(value) => Some(value),
        }
    }
}

impl vstd::std_specs::convert::FromSpecImpl<Deadline> for Option<Instant> {
    open spec fn obeys_from_spec() -> bool {
        true
    }

    open spec fn from_spec(value: Deadline) -> Option<Instant> {
        match value {
            Deadline::Never => None,
            Deadline::Instant(value) => Some(value),
        }
    }
}

/// Something that says how long to delay the next access to a resource.
pub trait RateLimiter: Sized {
    /// Whether `limiter` is what is made for `rate` at time `now`.
    spec fn is_new(rate: NonZeroRatePerSecond, now: Instant, limiter: Self) -> bool;

    /// Whether the limiter is in a state that it can be in.
    spec fn is_valid(&self) -> bool;

    /// Whether a request can be made at time `now`.
    spec fn accepts(&self, requested: u64, now: Instant) -> bool;

    /// Whether a request at time `now` leads from `before` to `after` and yields
    /// `deadline`.
    spec fn limits(
        before: Self,
        requested: u64,
        now: Instant,
        after: Self,
        deadline: Option<Deadline>,
    ) -> bool;

    /// A limiter for the rate.
    fn with_rate(rate: NonZeroRatePerSecond, now: Instant) -> (limiter: Self)
        requires
            now.is_reading(),
        ensures
            Self::is_new(rate, now, limiter),
            limiter.is_valid(),
    ;

    /// Whether a request can be made at time `now`.
    fn can_limit(&self, requested: u64, now: Instant) -> (can: bool)
        requires
            self.is_valid(),
            now.is_reading(),
        ensures
            can == self.accepts(requested, now),
    ;

    /// Accounts for `requested` units and says until when to wait.
    fn rate_limit(&mut self, requested: u64, now: Instant) -> (deadline: Option<Deadline>)
        requires
            old(self).accepts(requested, now),
        ensures
            Self::limits(*old(self), requested, now, *final(self), deadline),
            final(self).is_valid(),
    ;
}

/// The deadline of a token bucket as a limiter gives it.
pub open spec fn bucket_deadline(state: BucketState) -> Option<Deadline> {
    match state.deadline() {
        Some(nanos) => Some(Deadline::Instant(Instant { nanos: nanos as u128 })),
        None => None,
    }
}

impl RateLimiter for TokenBucket {
    open spec fn is_new(rate: NonZeroRatePerSecond, now: Instant, limiter: Self) -> bool {
        &&& limiter@ == BucketState::initial(rate.units_spec() as nat, now.nanos as nat)
        &&& limiter@.valid()
    }

    open spec fn is_valid(&self) -> bool {
        self@.valid()
    }

    open spec fn accepts(&self, requested: u64, now: Instant) -> bool {
        &&& self@.valid()
        &&& now.is_reading()
        &&& self@.at_hand() < requested ==> self@.last_update <= now.nanos
    }

    open spec fn limits(
        before: Self,
        requested: u64,
        now: Instant,
        after: Self,
        deadline: Option<Deadline>,
    ) -> bool {
        &&& after@ == before@.limited(requested as nat, now.nanos as nat)
        &&& after@.valid()
        &&& deadline == bucket_deadline(after@)
    }

    fn with_rate(rate: NonZeroRatePerSecond, now: Instant) -> (limiter: Self) {
        TokenBucket::new(rate, now)
    }

    fn can_limit(&self, requested: u64, now: Instant) -> (can: bool) {
        self.accepts_request(requested, now)
    }

    fn rate_limit(&mut self, requested: u64, now: Instant) -> (deadline: Option<Deadline>) {
        match TokenBucket::rate_limit(self, requested, now) {
            Some(instant) => Some(Deadline::Instant(instant)),
            None => None,
        }
    }
}

/// A limiter for any rate: a rate of zero lets nothing pass.
#[derive(Clone, Debug)]
pub enum RateLimiterFacade<RL> {
    NoTraffic,
    RateLimiter(RL),
}

impl<RL: RateLimiter> RateLimiterFacade<RL> {
    /// A limiter for the rate.
    pub fn new(rate: RatePerSecond, now: Instant) -> (facade: Self)
        requires
            now.is_reading(),
        ensures
            match rate {
                RatePerSecond::Block => facade is NoTraffic,
                RatePerSecond::Rate(rate) => facade matches RateLimiterFacade::RateLimiter(limiter)
                    && RL::is_new(rate, now, limiter),
            },
            facade.is_valid(),
    {
        match rate {
            RatePerSecond::Block => RateLimiterFacade::NoTraffic,
            RatePerSecond::Rate(rate) => RateLimiterFacade::RateLimiter(RL::with_rate(rate, now)),
        }
    }

    /// Whether the limiter, if there is one, is in a state that it can be in.
    pub open spec fn is_valid(&self) -> bool {
        self matches RateLimiterFacade::RateLimiter(limiter) ==> limiter.is_valid()
    }

    /// Whether a request can be made at time `now`.
    pub fn can_limit(&self, requested: u64, now: Instant) -> (can: bool)
        requires
            self.is_valid(),
            now.is_reading(),
        ensures
            can == self.accepts(requested, now),
    {
        match self {
            RateLimiterFacade::NoTraffic => true,
            RateLimiterFacade::RateLimiter(limiter) => limiter.can_limit(requested, now),
        }
    }

    /// Whether a request can be made at time `now`.
    pub open spec fn accepts(&self, requested: u64, now: Instant) -> bool {
        self matches RateLimiterFacade::RateLimiter(limiter) ==> limiter.accepts(requested, now)
    }

    /// Whether a request at time `now` leads from `before` to `after` and yields
    /// `deadline`: for ever where nothing passes, else what the limiter says.
    pub open spec fn limits(
        before: Self,
        requested: u64,
        now: Instant,
        after: Self,
        deadline: Option<Deadline>,
    ) -> bool {
        match before {
            RateLimiterFacade::NoTraffic => after is NoTraffic && deadline == Some(Deadline::Never),
            RateLimiterFacade::RateLimiter(limiter) => {
                after matches RateLimiterFacade::RateLimiter(limiter_after) && RL::limits(
                    limiter,
                    requested,
                    now,
                    limiter_after,
                    deadline,
                )
            },
        }
    }

    /// Accounts for `requested` units and says until when to wait.
    pub fn rate_limit(&mut self, requested: u64, now: Instant) -> (deadline: Option<Deadline>)
        requires
            old(self).accepts(requested, now),
        ensures
            Self::limits(*old(self), requested, now, *final(self), deadline),
            final(self).is_valid(),
    {
        match self {
            RateLimiterFacade::NoTraffic => Some(Deadline::Never),
            RateLimiterFacade::RateLimiter(limiter) => limiter.rate_limit(requested, now),
        }
    }
}

/// What a reader does before it goes on.
#[derive(Clone, Copy, Debug, PartialEq, Eq, Structural)]
pub enum Pause {
    /// Not at all: it goes on at once.
    Nothing,
    /// It never goes on.
    Forever,
    /// It sleeps until then.
    Until(Instant),
}

impl Pause {
    /// The limiter's answer that asks for this pause.
    pub open spec fn deadline(self) -> Option<Deadline> {
        match self {
            Pause::Nothing => None,
            Pause::Forever => Some(Deadline::Never),
            Pause::Until(instant) => Some(Deadline::Instant(instant)),
        }
    }
}

/// Allows to limit access to some resource. Given a preferred rate (units of
/// something) and the last used amount of units of some resource, it calculates
/// how long to delay the next access to that resource in order to satisfy that
/// rate.
#[derive(Clone, Debug)]
pub struct SleepingRateLimiterImpl<RL> {
    pub rate_limiter: RL,
}

/// The limiter of a single connection.
pub type PerConnectionRateLimiter = SleepingRateLimiterImpl<RateLimiterFacade<TokenBucket>>;

/// The limiter of connections that share a bandwidth.
pub type DefaultSharedRateLimiter = RateLimiterFacade<HierarchicalTokenBucket>;

impl<RL: RateLimiter> SleepingRateLimiterImpl<RateLimiterFacade<RL>> {
    /// Constructs a limiter with the given target rate per second.
    pub fn new(rate_per_second: RatePerSecond, now: Instant) -> (limiter: Self)
        requires
            now.is_reading(),
        ensures
            match rate_per_second {
                RatePerSecond::Block => limiter.rate_limiter is NoTraffic,
                RatePerSecond::Rate(rate) => limiter.rate_limiter matches
                    RateLimiterFacade::RateLimiter(inner) && RL::is_new(rate, now, inner),
            },
            limiter.rate_limiter.is_valid(),
    {
        SleepingRateLimiterImpl { rate_limiter: RateLimiterFacade::new(rate_per_second, now) }
    }

    /// Whether a read of so many units can be accounted for at time `now`.
    pub fn can_limit(&self, read_size: usize, now: Instant) -> (can: bool)
        requires
            self.rate_limiter.is_valid(),
            now.is_reading(),
        ensures
            can == self.rate_limiter.accepts(read_size as u64, now),
    {
        self.rate_limiter.can_limit(read_size as u64, now)
    }

    /// Given `read_size`, an amount of units of some governed resource, says how
    /// to pause in order to satisfy the configured rate.
    pub fn rate_limit(&mut self, read_size: usize, now: Instant) -> (pause: Pause)
        requires
            old(self).rate_limiter.accepts(read_size as u64, now),
        ensures
            RateLimiterFacade::limits(
                old(self).rate_limiter,
                read_size as u64,
                now,
                final(self).rate_limiter,
                pause.deadline(),
            ),
            final(self).rate_limiter.is_valid(),
    {
        match self.rate_limiter.rate_limit(read_size as u64, now) {
            None => Pause::Nothing,
            Some(Deadline::Never) => Pause::Forever,
            Some(Deadline::Instant(instant)) => Pause::Until(instant),
        }
    }

    /// Accounts for one read into a buffer that held `filled_before` bytes and
    /// now holds `filled_after`.
    pub fn after_read(
        &mut self,
        filled_before: usize,
        filled_after: usize,
        now: Instant,
    ) -> (pause: Pause)
        requires
            old(self).rate_limiter.accepts(bytes_read(filled_before, filled_after) as u64, now),
        ensures
            RateLimiterFacade::limits(
                old(self).rate_limiter,
                bytes_read(filled_before, filled_after) as u64,
                now,
                final(self).rate_limiter,
                pause.deadline(),
            ),
            final(self).rate_limiter.is_valid(),
    {
        self.rate_limit(read_size(filled_before, filled_after), now)
    }
}

/// How many bytes a read added to a buffer; none where the buffer shrank.
pub open spec fn bytes_read(filled_before: usize, filled_after: usize) -> usize {
    if filled_before <= filled_after {
        (filled_after - filled_before) as usize
    } else {
        0
    }
}

/// How many bytes a read added to a buffer; none where the buffer shrank.
pub fn read_size(filled_before: usize, filled_after: usize) -> (size: usize)
    ensures
        size == bytes_read(filled_before, filled_after),
{
    filled_after.saturating_sub(filled_before)
}

/// The outcome of one attempt to read.
#[derive(Clone, Copy, Debug, PartialEq, Eq, Structural)]
pub enum ReadOutcome {
    /// Nothing can be read yet.
    Pending,
    /// This many bytes were read.
    Read(usize),
    /// The read failed.
    Failed,
}

/// How many bytes an attempt to read is accounted for: those that were read.
pub fn accounted_read_size(outcome: &ReadOutcome) -> (size: usize)
    ensures
        size == match *outcome {
            ReadOutcome::Read(size) => size,
            _ => 0,
        },
{
    match outcome {
        ReadOutcome::Read(size) => *size,
        _ => 0,
    }
}

/// Begins a request to a limiter that shares a bandwidth. Returns whether the
/// request can end at all: nothing passes where the rate is zero.
pub fn start_shared(
    limiter: &mut DefaultSharedRateLimiter,
    read_size: usize,
    peers: &mut PeersCount,
    now: Instant,
) -> (passes: bool)
    requires
        *old(limiter) matches RateLimiterFacade::RateLimiter(bucket) ==> {
            &&& bucket@.valid()
            &&& now.is_reading()
            &&& bucket@.can_start(read_size as nat, old(peers)@, now.nanos as nat)
        },
    ensures
        passes == (*old(limiter) is RateLimiter),
        match *old(limiter) {
            RateLimiterFacade::NoTraffic => *final(limiter) is NoTraffic && final(peers)@ == old(peers)@,
            RateLimiterFacade::RateLimiter(bucket) => {
                &&& final(peers)@ == bucket@.shared.peers_after_request(old(peers)@)
                &&& *final(limiter) matches RateLimiterFacade::RateLimiter(after) && after@
                    == bucket@.started(read_size as nat, final(peers)@, now.nanos as nat)
                    && after@.valid()
            },
        },
{
    match limiter {
        RateLimiterFacade::NoTraffic => false,
        RateLimiterFacade::RateLimiter(bucket) => {
            bucket.start(read_size as u64, peers, now);
            true
        },
    }
}

/// A limiter for a rate of zero stays one and never lets anything pass; any other
/// stays what it is and says what its limiter says.
pub proof fn blocked_limiters_let_nothing_pass<RL: RateLimiter>(
    before: RateLimiterFacade<RL>,
    requested: u64,
    now: Instant,
    after: RateLimiterFacade<RL>,
    deadline: Option<Deadline>,
)
    requires
        RateLimiterFacade::<RL>::limits(before, requested, now, after, deadline),
    ensures
        before is NoTraffic ==> after is NoTraffic && deadline == Some(Deadline::Never),
        before matches RateLimiterFacade::RateLimiter(limiter) ==> after matches
            RateLimiterFacade::RateLimiter(limiter_after) && RL::limits(
            limiter,
            requested,
            now,
            limiter_after,
            deadline,
        ),
{
}

/// A bucket that is used as a limiter makes a request wait exactly where tokens are
/// owed after it, for as long as they take at the rate.
pub proof fn limiters_wait_for_what_is_owed(
    before: TokenBucket,
    requested: u64,
    now: Instant,
    after: TokenBucket,
    deadline: Option<Deadline>,
)
    requires
        <TokenBucket as RateLimiter>::limits(before, requested, now, after, deadline),
    ensures
        after@ == before@.limited(requested as nat, now.nanos as nat),
        deadline is Some <==> after@.requested > after@.rate,
        deadline matches Some(at) ==> (at matches Deadline::Instant(instant) && {
            let delay = (instant.nanos - after@.last_update) / 1_000;
            let owed = after@.requested - after@.rate;
            &&& instant.nanos == after@.last_update + delay * 1_000
            &&& owed * 1_000_000 <= u64::MAX ==> delay * after@.rate <= owed * 1_000_000 < (delay
                + 1) * after@.rate
        }),
{
    let state = after@;
    crate::rate_limiter::token_bucket::delays_match_the_rate(state);
    if state.requested > state.rate {
        let delay = (state.deadline()->0 - state.last_update) / 1_000;
        assert(delay <= u64::MAX) by (nonlinear_arith)
            requires
                delay * state.rate <= u64::MAX,
                0 < state.rate,
                0 <= delay,
        ;
    }
}

/// A read is accounted for as what it added to the buffer.
pub proof fn reads_count_what_they_added(filled_before: usize, filled_after: usize)
    ensures
        filled_before <= filled_after ==> filled_before + bytes_read(filled_before, filled_after)
            == filled_after,
        filled_after <= filled_before ==> bytes_read(filled_before, filled_after) == 0,
{
}

/// A reader goes on at once, never, or from a point in time on, exactly as the
/// limiter says.
pub proof fn pauses_match_deadlines(pause: Pause, instant: Instant)
    ensures
        pause.deadline() is None <==> pause == Pause::Nothing,
        pause.deadline() == Some(Deadline::Never) <==> pause == Pause::Forever,
        pause.deadline() == Some(Deadline::Instant(instant)) <==> pause == Pause::Until(instant),
{
}

/// A bucket that is made as a limiter is a new bucket for the rate, and takes
/// requests as long as the clock does not run backwards.
pub proof fn limiters_begin_as_new_buckets(
    rate: NonZeroRatePerSecond,
    made: Instant,
    limiter: TokenBucket,
    requested: u64,
    now: Instant,
)
    requires
        <TokenBucket as RateLimiter>::is_new(rate, made, limiter),
    ensures
        limiter@.rate == rate.units_spec(),
        limiter@.requested == rate.units_spec(),
        limiter@.last_update == made.nanos,
        now.is_reading() && made.nanos <= now.nanos ==> <TokenBucket as RateLimiter>::accepts(
            &limiter,
            requested,
            now,
        ),
{
}

/// A deadline that never comes is no point in time; any other is its point in time.
pub proof fn only_deadlines_that_come_are_instants(instant: Instant)
    ensures
        <Option<Instant> as vstd::std_specs::convert::FromSpec<Deadline>>::from_spec(
            Deadline::Never,
        ) is None,
        <Option<Instant> as vstd::std_specs::convert::FromSpec<Deadline>>::from_spec(
            Deadline::Instant(instant),
        ) == Some(instant),
{
}

/// Reads are accounted for as what was read: nothing where nothing was.
pub proof fn only_reads_are_accounted_for(size: usize, outcome: ReadOutcome, accounted: usize)
    requires
        call_ensures(accounted_read_size, (&outcome,), accounted),
    ensures
        outcome == ReadOutcome::Read(size) ==> accounted == size,
        accounted > 0 ==> outcome == ReadOutcome::Read(accounted),
{
}

} // verus!
