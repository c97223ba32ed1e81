//! A token bucket whose rate is its share of a bandwidth that it has in common
//! with other buckets.
//!
//! A request is a conversation: [`HierarchicalTokenBucket::start`] accounts for
//! the tokens, [`HierarchicalTokenBucket::next_step`] then says how long to sleep
//! and when to look again whether the share has changed, which moves the
//! deadline, and [`HierarchicalTokenBucket::finish`] ends the request.

use vstd::prelude::*;

use crate::rate_limiter::rate::NonZeroRatePerSecond;
use crate::rate_limiter::shared_bandwidth::{
    share, BandwidthPoll, ManagerState, PeersCount, SharedBandwidthManager,
    BANDWIDTH_CHECK_MILLIS,
};
use crate::rate_limiter::token_bucket::{BucketState, TokenBucket};
use crate::time::Instant;

verus! {

/// A token bucket together with the deadline that it last gave.
#[verifier::ext_equal]
pub struct AsyncState {
    pub bucket: BucketState,
    pub deadline: Option<nat>,
}

impl AsyncState {
    /// Whether the clock stands right for a request of `tokens` tokens.
    pub open spec fn can_limit(self, tokens: nat, now: nat) -> bool {
        self.bucket.at_hand() < tokens ==> self.bucket.last_update <= now
    }

    /// Whether the rate can be set: nothing to do, or the clock stands right
    /// and what is owed fits beside the new rate.
    pub open spec fn can_set_rate(self, rate: nat, now: nat) -> bool {
        rate != self.bucket.rate ==> {
            &&& self.bucket.last_update <= now
            &&& self.bucket.updated(now).backlog() + rate <= u64::MAX
        }
    }

    /// The state after a request: the deadline is that of the bucket.
    pub open spec fn limited(self, tokens: nat, now: nat) -> Self {
        let bucket = self.bucket.limited(tokens, now);
        AsyncState { bucket, deadline: bucket.deadline() }
    }

    /// The state after the rate is set: a new rate moves the deadline.
    pub open spec fn with_rate(self, rate: nat, now: nat) -> Self {
        if rate == self.bucket.rate {
            self
        } else {
            let bucket = self.bucket.with_rate(rate, now);
            AsyncState { bucket, deadline: bucket.deadline() }
        }
    }
}

/// Wrapper around the [`TokenBucket`] that manages its rate and remembers until
/// when to sleep in order to fulfill the rate limit.
#[derive(Clone, Copy, Debug)]
pub struct AsyncTokenBucket {
    token_bucket: TokenBucket,
    next_deadline: Option<Instant>,
}

/// The nanoseconds of a deadline.
pub open spec fn deadline_nanos(deadline: Option<Instant>) -> Option<nat> {
    match deadline {
        Some(instant) => Some(instant.nanos as nat),
        None => None,
    }
}

impl View for AsyncTokenBucket {
    type V = AsyncState;

    closed spec fn view(&self) -> AsyncState {
        AsyncState { bucket: self.token_bucket@, deadline: deadline_nanos(self.next_deadline) }
    }
}

impl AsyncTokenBucket {
    /// Wraps a bucket that has not given a deadline yet.
    pub fn new(token_bucket: TokenBucket) -> (bucket: Self)
        ensures
            bucket@ == (AsyncState { bucket: token_bucket@, deadline: None }),
    {
        AsyncTokenBucket { token_bucket, next_deadline: None }
    }

    /// Accounts for `requested` tokens.
    pub fn rate_limit(&mut self, requested: u64, now: Instant)
        requires
            old(self)@.bucket.valid(),
            now.is_reading(),
            old(self)@.can_limit(requested as nat, now.nanos as nat),
        ensures
            final(self)@ == old(self)@.limited(requested as nat, now.nanos as nat),
            final(self)@.bucket.valid(),
    {
        self.next_deadline = self.token_bucket.rate_limit(requested, now);
    }

    /// Sets the rate. A rate that is set already changes nothing.
    pub fn set_rate(&mut self, rate: NonZeroRatePerSecond, now: Instant)
        requires
            old(self)@.bucket.valid(),
            now.is_reading(),
            old(self)@.can_set_rate(rate.units_spec() as nat, now.nanos as nat),
        ensures
            final(self)@ == old(self)@.with_rate(rate.units_spec() as nat, now.nanos as nat),
            final(self)@.bucket.valid(),
    {
        if self.token_bucket.rate().units() != rate.units() {
            self.token_bucket.set_rate(rate, now);
            self.next_deadline = self.token_bucket.rate_limit(0, now);
        }
    }

    /// Whether a request can be made at time `now`.
    pub fn accepts_request(&self, requested: u64, now: Instant) -> (accepts: bool)
        ensures
            accepts == self@.can_limit(requested as nat, now.nanos as nat),
    {
        self.token_bucket.accepts_request(requested, now)
    }

    /// Whether the rate can be set at time `now`.
    pub fn accepts_rate(&self, rate: NonZeroRatePerSecond, now: Instant) -> (accepts: bool)
        requires
            self@.bucket.valid(),
            now.is_reading(),
        ensures
            accepts == self@.can_set_rate(rate.units_spec() as nat, now.nanos as nat),
    {
        self.token_bucket.rate().units() == rate.units() || self.token_bucket.accepts_rate(
            rate,
            now,
        )
    }

    /// Until when to sleep, if at all.
    pub fn deadline(&self) -> (deadline: Option<Instant>)
        ensures
            deadline_nanos(deadline) == self@.deadline,
    {
        self.next_deadline
    }

    /// Forgets the deadline, once it was slept for.
    pub fn slept(&mut self)
        ensures
            final(self)@ == (AsyncState { deadline: None, ..old(self)@ }),
    {
        self.next_deadline = None;
    }
}

/// What a bucket that shares a bandwidth is.
#[verifier::ext_equal]
pub struct HierarchicalState {
    pub shared: ManagerState,
    pub limiter: AsyncState,
    pub notify: bool,
}

impl HierarchicalState {
    /// The ranges that the machine imposes; and a bucket that counts as active
    /// remembers that it has to fall idle again.
    pub open spec fn valid(self) -> bool {
        &&& self.limiter.bucket.valid()
        &&& self.shared.requested is Some ==> self.notify
    }

    /// The state after a request was accounted for, with `peers` active buckets.
    pub open spec fn started(self, tokens: nat, peers: nat, now: nat) -> Self {
        HierarchicalState {
            shared: self.shared.told(peers),
            limiter: self.limiter.with_rate(share(self.shared.max_rate, peers), now).limited(
                tokens,
                now,
            ),
            notify: true,
        }
    }

    /// Whether a request can be begun while `peers` buckets are active: the number
    /// of active buckets is right, the share can be taken on, and the tokens can
    /// be accounted for.
    pub open spec fn can_start(self, tokens: nat, peers: nat, now: nat) -> bool {
        let active = self.shared.peers_after_request(peers);
        let rate = share(self.shared.max_rate, active);
        &&& 0 < active <= u64::MAX
        &&& self.limiter.can_set_rate(rate, now)
        &&& self.limiter.with_rate(rate, now).can_limit(tokens, now)
    }

    /// Whether a look for a change of the share can be taken while `peers` buckets
    /// are active.
    pub open spec fn can_poll(self, peers: nat, now: nat) -> bool {
        let rate = share(self.shared.max_rate, peers);
        self.shared.requested is Some ==> {
            &&& peers > 0
            &&& self.shared.requested != Some(rate) ==> self.limiter.can_set_rate(rate, now)
        }
    }

    /// The state after a look for a change of the share.
    pub open spec fn polled(self, peers: nat, now: nat) -> Self {
        let rate = share(self.shared.max_rate, peers);
        if self.shared.requested is None || self.shared.requested == Some(rate) {
            self
        } else {
            HierarchicalState {
                shared: self.shared.told(peers),
                limiter: self.limiter.with_rate(rate, now),
                ..self
            }
        }
    }

    /// The state while no request is under way.
    pub open spec fn idle(self) -> Self {
        HierarchicalState {
            shared: if self.notify {
                self.shared.idle()
            } else {
                self.shared
            },
            notify: false,
            ..self
        }
    }
}

/// What a request does next.
#[derive(Clone, Copy, Debug, PartialEq, Eq, Structural)]
pub enum RequestStep {
    /// It is over.
    Finish,
    /// It sleeps until the deadline, or for so many milliseconds, if any, after
    /// which it takes another step.
    Sleep { deadline: Instant, look_again_millis: Option<u64> },
}

/// A token bucket whose rate is its share of a common bandwidth.
#[derive(Debug)]
pub struct HierarchicalTokenBucket {
    shared_bandwidth: SharedBandwidthManager,
    rate_limiter: AsyncTokenBucket,
    need_to_notify_parent: bool,
}

impl View for HierarchicalTokenBucket {
    type V = HierarchicalState;

    closed spec fn view(&self) -> HierarchicalState {
        HierarchicalState {
            shared: self.shared_bandwidth@,
            limiter: self.rate_limiter@,
            notify: self.need_to_notify_parent,
        }
    }
}

impl Clone for HierarchicalTokenBucket {
    /// A further bucket with the same tokens, which shares the bandwidth and is
    /// not active.
    fn clone(&self) -> (other: Self)
        ensures
            other@ == (HierarchicalState { shared: self@.shared.idle(), ..self@ }),
    {
        HierarchicalTokenBucket {
            shared_bandwidth: self.shared_bandwidth.clone(),
            rate_limiter: self.rate_limiter,
            need_to_notify_parent: self.need_to_notify_parent,
        }
    }
}

impl HierarchicalTokenBucket {
    /// The first bucket of a bandwidth, made at time `now`.
    pub fn new(rate: NonZeroRatePerSecond, now: Instant) -> (bucket: Self)
        requires
            now.is_reading(),
        ensures
            bucket@ == (HierarchicalState {
                shared: ManagerState { max_rate: rate.units_spec() as nat, requested: None },
                limiter: AsyncState {
                    bucket: BucketState::initial(rate.units_spec() as nat, now.nanos as nat),
                    deadline: None,
                },
                notify: false,
            }),
            bucket@.valid(),
    {
        HierarchicalTokenBucket {
            shared_bandwidth: SharedBandwidthManager::new(rate),
            rate_limiter: AsyncTokenBucket::new(TokenBucket::new(rate, now)),
            need_to_notify_parent: false,
        }
    }

    /// Whether a request can be begun at time `now`.
    pub fn can_start(&self, requested: u64, peers: &PeersCount, now: Instant) -> (can: bool)
        requires
            self@.valid(),
            now.is_reading(),
        ensures
            can == self@.can_start(requested as nat, peers@, now.nanos as nat),
    {
        match self.shared_bandwidth.share_after_request(peers) {
            None => false,
            Some(rate) => {
                let mut rate_limiter = self.rate_limiter;
                if rate_limiter.accepts_rate(rate, now) {
                    rate_limiter.set_rate(rate, now);
                    rate_limiter.accepts_request(requested, now)
                } else {
                    false
                }
            },
        }
    }

    /// Whether a look for a change of the share can be taken at time `now`.
    pub fn can_poll(&self, peers: &PeersCount, now: Instant) -> (can: bool)
        requires
            self@.valid(),
            now.is_reading(),
        ensures
            can == self@.can_poll(peers@, now.nanos as nat),
    {
        let mut shared_bandwidth = self.shared_bandwidth.duplicate();
        if !shared_bandwidth.is_active() {
            return true;
        }
        if peers.get() == 0 {
            return false;
        }
        match shared_bandwidth.poll_bandwidth_change(peers) {
            BandwidthPoll::Changed(rate) => self.rate_limiter.accepts_rate(rate, now),
            _ => true,
        }
    }

    /// Begins a request: becomes active, takes on the share of the bandwidth and
    /// accounts for the tokens.
    pub fn start(&mut self, requested: u64, peers: &mut PeersCount, now: Instant)
        requires
            old(self)@.valid(),
            now.is_reading(),
            old(self)@.can_start(requested as nat, old(peers)@, now.nanos as nat),
        ensures
            final(peers)@ == old(self)@.shared.peers_after_request(old(peers)@),
            final(self)@ == old(self)@.started(
                requested as nat,
                final(peers)@,
                now.nanos as nat,
            ),
            final(self)@.valid(),
    {
        self.need_to_notify_parent = true;
        let rate = self.shared_bandwidth.request_bandwidth(peers);
        self.rate_limiter.set_rate(rate, now);
        self.rate_limiter.rate_limit(requested, now);
    }

    /// Until when the request has to wait; `None` where it is over already.
    pub fn deadline(&self) -> (deadline: Option<Instant>)
        ensures
            deadline_nanos(deadline) == self@.limiter.deadline,
    {
        self.rate_limiter.deadline()
    }

    /// Looks for a change of the share, and takes on the new one.
    pub fn poll_bandwidth(&mut self, peers: &PeersCount, now: Instant) -> (poll: BandwidthPoll)
        requires
            old(self)@.valid(),
            now.is_reading(),
            old(self)@.can_poll(peers@, now.nanos as nat),
        ensures
            final(self)@ == old(self)@.polled(peers@, now.nanos as nat),
            final(self)@.valid(),
            poll is Never <==> old(self)@.shared.requested is None,
            poll is Changed <==> old(self)@.shared.requested is Some && final(self)@.shared.requested != old(self)@.shared.requested,
            poll matches BandwidthPoll::Changed(rate) ==> Some(rate.units_spec() as nat) == final(self)@.shared.requested,
            poll matches BandwidthPoll::Unchanged { sleep_millis } ==> sleep_millis
                == BANDWIDTH_CHECK_MILLIS,
    {
        let poll = self.shared_bandwidth.poll_bandwidth_change(peers);
        match poll {
            BandwidthPoll::Changed(rate) => {
                self.rate_limiter.set_rate(rate, now);
            },
            _ => {},
        }
        poll
    }

    /// What a request that was begun does next. As long as it has to wait, it takes
    /// on the share that there is now.
    pub fn next_step(&mut self, peers: &PeersCount, now: Instant) -> (step: RequestStep)
        requires
            old(self)@.valid(),
            now.is_reading(),
            old(self)@.limiter.deadline is Some ==> old(self)@.can_poll(peers@, now.nanos as nat),
        ensures
            final(self)@.valid(),
            final(self)@ == if old(self)@.limiter.deadline is None {
                old(self)@
            } else {
                old(self)@.polled(peers@, now.nanos as nat)
            },
            step is Finish <==> final(self)@.limiter.deadline is None,
            step matches RequestStep::Sleep { deadline, look_again_millis } ==> {
                &&& final(self)@.limiter.deadline == Some(deadline.nanos as nat)
                &&& look_again_millis == if old(self)@.shared.requested is None {
                    None
                } else {
                    Some(BANDWIDTH_CHECK_MILLIS)
                }
            },
    {
        if self.deadline().is_none() {
            return RequestStep::Finish;
        }
        let look_again_millis: Option<u64> = match self.poll_bandwidth(peers, now) {
            BandwidthPoll::Never => None,
            _ => Some(BANDWIDTH_CHECK_MILLIS),
        };
        match self.deadline() {
            None => RequestStep::Finish,
            Some(deadline) => RequestStep::Sleep { deadline, look_again_millis },
        }
    }

    /// Ends the request, once its deadline was slept for.
    pub fn finish(&mut self, peers: &mut PeersCount)
        requires
            old(self)@.valid(),
            old(self)@.shared.requested is Some ==> old(peers)@ > 0,
        ensures
            final(peers)@ == old(self)@.shared.peers_after_idle(old(peers)@),
            final(self)@ == (HierarchicalState {
                limiter: AsyncState { deadline: None, ..old(self)@.limiter },
                ..old(self)@.idle()
            }),
            final(self)@.valid(),
    {
        self.rate_limiter.slept();
        self.release(peers);
    }

    /// Gives up the share, also where a request is abandoned before its end.
    pub fn release(&mut self, peers: &mut PeersCount)
        requires
            old(self)@.valid(),
            old(self)@.shared.requested is Some ==> old(peers)@ > 0,
        ensures
            final(peers)@ == old(self)@.shared.peers_after_idle(old(peers)@),
            final(self)@ == old(self)@.idle(),
            final(self)@.valid(),
    {
        if self.need_to_notify_parent {
            self.shared_bandwidth.notify_idle(peers);
            self.need_to_notify_parent = false;
        }
    }
}

/// A request that is begun and ended leaves the number of active buckets as it
/// was, and the bucket idle.
pub proof fn requests_leave_no_trace_in_the_count(
    state: HierarchicalState,
    tokens: nat,
    peers: nat,
    now: nat,
)
    requires
        state.valid(),
        state.shared.requested is None,
    ensures
        ({
            let active = state.shared.peers_after_request(peers);
            let started = state.started(tokens, active, now);
            &&& active == peers + 1
            &&& started.shared.peers_after_idle(active) == peers
            &&& started.idle().shared == state.shared
        }),
{
}

/// While a request waits, a change of the share keeps the tokens that are owed
/// after the refill until then: only the time that they are waited for changes.
pub proof fn share_changes_keep_the_backlog(state: HierarchicalState, peers: nat, now: nat)
    requires
        state.valid(),
        state.limiter.bucket.last_update <= now,
        state.shared.requested is Some,
        state.shared.requested != Some(share(state.shared.max_rate, peers)),
        state.limiter.bucket.rate == state.shared.requested->0,
    ensures
        ({
            let polled = state.polled(peers, now);
            &&& polled.limiter.bucket.backlog() == state.limiter.bucket.updated(now).backlog()
            &&& polled.limiter.bucket.rate == share(state.shared.max_rate, peers)
            &&& polled.limiter.deadline == polled.limiter.bucket.deadline()
        }),
{
}

/// Whatever a request finds, it is accounted for by the bucket at the rate of its
/// share, and waits for as long as the bucket says from then on.
pub proof fn requests_run_at_the_rate_of_the_share(
    state: HierarchicalState,
    tokens: nat,
    peers: nat,
    now: nat,
)
    requires
        state.valid(),
        peers > 0,
        state.limiter.bucket.last_update <= now,
    ensures
        ({
            let after = state.started(tokens, peers, now);
            let rate = share(state.shared.max_rate, peers);
            let bucket = state.limiter.bucket;
            &&& after.limiter.bucket.rate == rate
            &&& after.shared.requested == Some(rate)
            &&& after.shared.max_rate == state.shared.max_rate
            &&& after.notify
            &&& after.limiter.deadline == after.limiter.bucket.deadline()
            &&& rate == bucket.rate ==> after.limiter.bucket == bucket.limited(tokens, now)
            &&& rate != bucket.rate ==> after.limiter.bucket == bucket.with_rate(rate, now).limited(
                tokens,
                now,
            )
            &&& rate != bucket.rate && bucket.updated(now).backlog() + rate + tokens <= u64::MAX
                ==> after.limiter.bucket.balance() == bucket.with_rate(rate, now).balance()
                - tokens
        }),
{
    let rate = share(state.shared.max_rate, peers);
    assert((0nat / 1_000) * rate == 0) by (nonlinear_arith);
    assert(crate::rate_limiter::token_bucket::refill(rate, 0) == 0);
}

/// A look for a change of the share concerns only a bucket that is active, and
/// changes it only where the share has changed: it then goes on at the new rate
/// and waits for as long as the bucket says at that rate.
pub proof fn looks_take_on_the_present_share(state: HierarchicalState, peers: nat, now: nat)
    requires
        state.valid(),
        peers > 0,
    ensures
        ({
            let after = state.polled(peers, now);
            let rate = share(state.shared.max_rate, peers);
            &&& after.shared.max_rate == state.shared.max_rate
            &&& after.notify == state.notify
            &&& state.shared.requested is None ==> after == state
            &&& state.shared.requested == Some(rate) ==> after == state
            &&& state.shared.requested is Some && state.shared.requested != Some(rate) ==> {
                &&& after.shared.requested == Some(rate)
                &&& after.limiter.bucket.rate == rate
                &&& rate != state.limiter.bucket.rate ==> after.limiter.bucket
                    == state.limiter.bucket.with_rate(rate, now) && after.limiter.deadline
                    == after.limiter.bucket.deadline()
                &&& rate == state.limiter.bucket.rate ==> after.limiter == state.limiter
            }
        }),
{
}

/// A bucket that gives up its share keeps its tokens and its deadline, and is then
/// idle.
pub proof fn giving_up_the_share_keeps_the_tokens(state: HierarchicalState)
    requires
        state.valid(),
    ensures
        state.idle().limiter == state.limiter,
        state.idle().shared.max_rate == state.shared.max_rate,
        state.idle().shared.requested is None,
        !state.idle().notify,
{
}

/// A bucket with a deadline of its own, when it is asked or its rate is set, has
/// the deadline that its tokens call for.
pub proof fn deadlines_follow_the_tokens(state: AsyncState, tokens: nat, rate: nat, now: nat)
    ensures
        state.limited(tokens, now).bucket == state.bucket.limited(tokens, now),
        state.limited(tokens, now).deadline == state.bucket.limited(tokens, now).deadline(),
        rate == state.bucket.rate ==> state.with_rate(rate, now) == state,
        rate != state.bucket.rate ==> state.with_rate(rate, now).bucket == state.bucket.with_rate(
            rate,
            now,
        ) && state.with_rate(rate, now).deadline == state.bucket.with_rate(rate, now).deadline(),
{
}

/// As long as the clock does not run backwards and what is owed leaves room for
/// the bandwidth, a request can be begun and a look be taken.
pub proof fn requests_can_begin_while_the_clock_runs(
    state: HierarchicalState,
    tokens: nat,
    peers: nat,
    now: nat,
)
    requires
        state.valid(),
        state.limiter.bucket.last_update <= now,
        0 < state.shared.max_rate,
        state.limiter.bucket.requested + state.shared.max_rate <= u64::MAX,
        0 < peers < u64::MAX,
    ensures
        state.can_start(tokens, peers, now),
        state.can_poll(peers, now),
{
    let active = state.shared.peers_after_request(peers);
    crate::rate_limiter::shared_bandwidth::shares_are_bounded(state.shared.max_rate, active);
    crate::rate_limiter::shared_bandwidth::shares_are_bounded(state.shared.max_rate, peers);
}

/// The nanoseconds of a deadline are those of its point in time.
pub proof fn deadlines_are_points_in_time(instant: Instant)
    ensures
        deadline_nanos(Some(instant)) == Some(instant.nanos as nat),
        deadline_nanos(None) is None,
{
}

/// Where the tokens at hand do not suffice, the clock must not run backwards; nor
/// may it where a new rate is set, for which what is owed has to leave room. Nothing
/// else stands in the way.
pub proof fn only_the_clock_and_the_count_stand_in_the_way(
    state: AsyncState,
    tokens: nat,
    rate: nat,
    now: nat,
)
    ensures
        state.can_limit(tokens, now) <==> state.bucket.last_update <= now || tokens
            <= state.bucket.at_hand(),
        state.can_set_rate(rate, now) <==> rate == state.bucket.rate || (state.bucket.last_update
            <= now && state.bucket.updated(now).backlog() + rate <= u64::MAX),
{
}

} // verus!
