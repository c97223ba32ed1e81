//! The token bucket algorithm: limits the access to an abstract resource, for
//! example incoming network traffic, to a rate.

use vstd::arithmetic::div_mod::{lemma_div_is_ordered, lemma_fundamental_div_mod};
use vstd::prelude::*;

use crate::rate_limiter::rate::NonZeroRatePerSecond;
use crate::time::{Instant, MAX_CLOCK_NANOS};

verus! {

/// How many units a rate of `rate` units per second yields in `nanos`
/// nanoseconds, counted in whole microseconds and rounded down.
pub open spec fn refill(rate: nat, nanos: nat) -> nat {
    (((nanos / 1_000) * rate) / 1_000_000) as nat
}

/// What a token bucket is: a rate, how many tokens are handed out or owed, and
/// when that number was last brought up to date (in nanoseconds of the clock).
///
/// Tokens up to `rate` are handed out of a full bucket; those beyond `rate` are
/// owed and have to be waited for.
#[verifier::ext_equal]
pub struct BucketState {
    pub rate: nat,
    pub requested: nat,
    pub last_update: nat,
}

impl BucketState {
    /// The ranges that the machine imposes.
    pub open spec fn valid(self) -> bool {
        &&& 0 < self.rate <= u64::MAX
        &&& self.requested <= u64::MAX
        &&& self.last_update <= MAX_CLOCK_NANOS
    }

    /// The state of a bucket that is made at `now`: no token is available yet.
    pub open spec fn initial(rate: nat, now: nat) -> Self {
        BucketState { rate, requested: rate, last_update: now }
    }

    /// The tokens that are available (positive) or owed (negative).
    pub open spec fn balance(self) -> int {
        self.rate - self.requested
    }

    /// The tokens at hand; none where tokens are owed.
    pub open spec fn available(self) -> Option<nat> {
        if self.requested <= self.rate {
            Some((self.rate - self.requested) as nat)
        } else {
            None
        }
    }

    /// The tokens at hand, zero where tokens are owed.
    pub open spec fn at_hand(self) -> nat {
        if self.requested <= self.rate {
            (self.rate - self.requested) as nat
        } else {
            0
        }
    }

    /// The tokens that are owed.
    pub open spec fn backlog(self) -> nat {
        if self.requested <= self.rate {
            0
        } else {
            (self.requested - self.rate) as nat
        }
    }

    /// The state after `tokens` more tokens were requested. The count stops at
    /// the largest `u64`.
    pub open spec fn accounted(self, tokens: nat) -> Self {
        BucketState {
            requested: if self.requested + tokens <= u64::MAX {
                self.requested + tokens
            } else {
                u64::MAX as nat
            },
            ..self
        }
    }

    /// The state brought up to date at `now`: the refill since the last update
    /// is given back, up to a full bucket.
    pub open spec fn updated(self, now: nat) -> Self {
        let units = refill(self.rate, (now - self.last_update) as nat);
        BucketState {
            requested: if units <= self.requested {
                (self.requested - units) as nat
            } else {
                0
            },
            last_update: now,
            ..self
        }
    }

    /// How long the tokens that are owed have to be waited for, in microseconds.
    /// The product stops at the largest `u64`.
    pub open spec fn delay_micros(self) -> nat {
        let scaled = self.backlog() * 1_000_000;
        (if scaled <= u64::MAX {
            scaled
        } else {
            u64::MAX as nat
        }) / self.rate
    }

    /// When the next access may happen: no delay unless tokens are owed.
    pub open spec fn deadline(self) -> Option<nat> {
        if self.backlog() == 0 {
            None
        } else {
            Some(self.last_update + self.delay_micros() * 1_000)
        }
    }

    /// The state after a request for `tokens` tokens at `now`. The clock counts
    /// only where the tokens at hand do not suffice.
    pub open spec fn limited(self, tokens: nat, now: nat) -> Self {
        (if self.at_hand() < tokens {
            self.updated(now)
        } else {
            self
        }).accounted(tokens)
    }

    /// The state after the rate is set at `now`: what was owed stays owed, what
    /// was at hand stays at hand as far as it fits the new rate.
    pub open spec fn with_rate(self, rate: nat, now: nat) -> Self {
        let updated = self.updated(now);
        BucketState {
            rate,
            requested: match updated.available() {
                Some(tokens) => if tokens <= rate {
                    (rate - tokens) as nat
                } else {
                    0
                },
                None => updated.backlog() + rate,
            },
            last_update: now,
        }
    }

    /// The state after a call.
    pub open spec fn called(self, call: BucketCall) -> Self {
        match call {
            BucketCall::Request { tokens, now } => self.limited(tokens, now),
            BucketCall::SetRate { rate, now } => self.with_rate(rate, now),
        }
    }

    /// The state after a sequence of calls.
    pub open spec fn after(self, calls: Seq<BucketCall>) -> Self
        decreases calls.len(),
    {
        if calls.len() == 0 {
            self
        } else {
            self.after(calls.drop_last()).called(calls.last())
        }
    }
}

/// A call to a bucket.
pub enum BucketCall {
    Request { tokens: nat, now: nat },
    SetRate { rate: nat, now: nat },
}

impl BucketCall {
    /// When the call is made.
    pub open spec fn time(self) -> nat {
        match self {
            BucketCall::Request { now, .. } => now,
            BucketCall::SetRate { now, .. } => now,
        }
    }

    /// How many tokens the call requests.
    pub open spec fn tokens(self) -> nat {
        match self {
            BucketCall::Request { tokens, .. } => tokens,
            BucketCall::SetRate { .. } => 0,
        }
    }
}

/// The tokens requested by a sequence of calls.
pub open spec fn total_requested(calls: Seq<BucketCall>) -> nat
    decreases calls.len(),
{
    if calls.len() == 0 {
        0
    } else {
        total_requested(calls.drop_last()) + calls.last().tokens()
    }
}

/// Whether the calls are in the order of their times, none before `start`.
pub open spec fn well_timed(start: nat, calls: Seq<BucketCall>) -> bool {
    &&& forall|i: int| 0 <= i < calls.len() ==> start <= (#[trigger] calls[i]).time()
    &&& forall|i: int, j: int|
        0 <= i <= j < calls.len() ==> (#[trigger] calls[i]).time() <= (#[trigger] calls[j]).time()
}

/// Whether no call sets a rate beyond `max_rate`, or to zero.
pub open spec fn rates_within(max_rate: nat, calls: Seq<BucketCall>) -> bool {
    forall|i: int|
        #![trigger calls[i]]
        0 <= i < calls.len() ==> (calls[i] matches BucketCall::SetRate { rate, .. } ==> 0 < rate
            <= max_rate)
}

/// Implementation of the `Token Bucket` algorithm for the purpose of
/// rate-limiting access to some abstract resource.
#[derive(Clone, Copy, Debug)]
pub struct TokenBucket {
    last_update: Instant,
    rate_per_second: NonZeroRatePerSecond,
    requested: u64,
}

impl View for TokenBucket {
    type V = BucketState;

    closed spec fn view(&self) -> BucketState {
        BucketState {
            rate: self.rate_per_second.units_spec() as nat,
            requested: self.requested as nat,
            last_update: self.last_update.nanos as nat,
        }
    }
}

impl TokenBucket {
    /// Constructs a bucket with the given target rate per second at time `now`.
    pub fn new(rate_per_second: NonZeroRatePerSecond, now: Instant) -> (bucket: Self)
        requires
            now.is_reading(),
        ensures
            bucket@ == BucketState::initial(rate_per_second.units_spec() as nat, now.nanos as nat),
            bucket@.valid(),
    {
        let requested: u64 = rate_per_second.units();
        TokenBucket { last_update: now, rate_per_second, requested }
    }

    fn max_possible_available_tokens(&self) -> (tokens: u64)
        ensures
            tokens == self@.rate,
    {
        self.rate_per_second.units()
    }

    /// The tokens at hand, or `None` where tokens are owed.
    pub fn available(&self) -> (tokens: Option<u64>)
        ensures
            tokens is Some <==> self@.available() is Some,
            tokens matches Some(t) ==> self@.available() == Some(t as nat),
    {
        let max: u64 = self.max_possible_available_tokens();
        if self.requested <= max {
            Some(max.saturating_sub(self.requested))
        } else {
            None
        }
    }

    fn account_requested_tokens(&mut self, requested: u64)
        ensures
            final(self)@ == old(self)@.accounted(requested as nat),
    {
        self.requested = self.requested.saturating_add(requested);
    }

    fn calculate_delay(&self) -> (deadline: Option<Instant>)
        requires
            self@.valid(),
        ensures
            deadline is Some <==> self@.deadline() is Some,
            deadline matches Some(d) ==> self@.deadline() == Some(d.nanos as nat),
    {
        if self.available().is_some() {
            return None;
        }
        let rate: u64 = self.rate_per_second.units();
        let scheduled_for_later: u64 = self.requested - rate;
        let scaled: u64 = match scheduled_for_later.checked_mul(1_000_000) {
            Some(scaled) => scaled,
            None => u64::MAX,
        };
        let delay_micros: u64 = scaled / rate;
        proof {
            assert(delay_micros as nat == self@.delay_micros());
        }
        Some(Instant { nanos: self.last_update.nanos + (delay_micros as u128) * 1_000 })
    }

    fn update_tokens(&mut self, now: Instant)
        requires
            old(self)@.valid(),
            now.is_reading(),
            old(self)@.last_update <= now.nanos,
        ensures
            final(self)@ == old(self)@.updated(now.nanos as nat),
            final(self)@.valid(),
    {
        let rate: u64 = self.rate_per_second.units();
        let elapsed_micros: u128 = (now.nanos - self.last_update.nanos) / 1_000;
        self.last_update = now;
        let new_units: u64 = match elapsed_micros.checked_mul(rate as u128) {
            Some(scaled) => {
                let units: u128 = scaled / 1_000_000;
                if units <= u64::MAX as u128 {
                    units as u64
                } else {
                    u64::MAX
                }
            },
            None => {
                proof {
                    assert(elapsed_micros * rate > u128::MAX);
                    lemma_div_is_ordered(
                        u64::MAX * 1_000_000,
                        elapsed_micros * rate,
                        1_000_000,
                    );
                }
                u64::MAX
            },
        };
        self.requested = self.requested.saturating_sub(new_units);
    }

    /// The current rate in units per second.
    pub fn rate(&self) -> (rate: NonZeroRatePerSecond)
        ensures
            rate.units_spec() == self@.rate,
    {
        self.rate_per_second
    }

    /// Whether a request can be made at time `now`: the clock must not run
    /// backwards where it is looked at.
    pub fn accepts_request(&self, requested: u64, now: Instant) -> (accepts: bool)
        ensures
            accepts == (self@.at_hand() < requested ==> self@.last_update <= now.nanos),
    {
        let now_available: u64 = match self.available() {
            Some(tokens) => tokens,
            None => 0,
        };
        now_available >= requested || self.last_update.nanos <= now.nanos
    }

    /// Whether the rate can be set at time `now`: the clock must not run
    /// backwards, and what is owed has to fit beside the rate.
    pub fn accepts_rate(&self, rate_per_second: NonZeroRatePerSecond, now: Instant) -> (accepts:
        bool)
        requires
            self@.valid(),
            now.is_reading(),
        ensures
            accepts == (self@.last_update <= now.nanos && self@.updated(
                now.nanos as nat,
            ).backlog() + rate_per_second.units_spec() <= u64::MAX),
    {
        if self.last_update.nanos > now.nanos {
            return false;
        }
        let mut updated = *self;
        updated.update_tokens(now);
        let rate: u64 = updated.rate_per_second.units();
        let backlog: u64 = updated.requested.saturating_sub(rate);
        backlog <= u64::MAX - rate_per_second.units()
    }

    /// Sets the rate in units per second at time `now`.
    pub fn set_rate(&mut self, rate_per_second: NonZeroRatePerSecond, now: Instant)
        requires
            old(self)@.valid(),
            now.is_reading(),
            old(self)@.last_update <= now.nanos,
            old(self)@.updated(now.nanos as nat).backlog() + rate_per_second.units_spec()
                <= u64::MAX,
        ensures
            final(self)@ == old(self)@.with_rate(
                rate_per_second.units_spec() as nat,
                now.nanos as nat,
            ),
            final(self)@.valid(),
    {
        self.update_tokens(now);
        let available = self.available();
        let previous_rate: u64 = self.rate_per_second.units();
        let new_rate: u64 = rate_per_second.units();
        self.rate_per_second = rate_per_second;
        match available {
            Some(tokens) => {
                let kept: u64 = if tokens <= new_rate {
                    tokens
                } else {
                    new_rate
                };
                self.requested = new_rate - kept;
            },
            None => {
                self.requested = self.requested - previous_rate + new_rate;
            },
        }
    }

    /// Accounts for `requested` tokens at time `now` and calculates until when
    /// the next call to the governed resource has to be delayed in order to
    /// satisfy the rate limit.
    pub fn rate_limit(&mut self, requested: u64, now: Instant) -> (deadline: Option<Instant>)
        requires
            old(self)@.valid(),
            now.is_reading(),
            old(self)@.at_hand() < requested ==> old(self)@.last_update <= now.nanos,
        ensures
            final(self)@ == old(self)@.limited(requested as nat, now.nanos as nat),
            final(self)@.valid(),
            deadline is Some <==> final(self)@.deadline() is Some,
            deadline matches Some(d) ==> final(self)@.deadline() == Some(d.nanos as nat),
    {
        let now_available: u64 = match self.available() {
            Some(tokens) => tokens,
            None => 0,
        };
        if now_available < requested {
            self.update_tokens(now);
        }
        self.account_requested_tokens(requested);
        self.calculate_delay()
    }
}

/// Waiting in two parts refills at most as much as waiting once: rounding down
/// only ever loses tokens.
pub proof fn refill_is_superadditive(rate: nat, first: nat, second: nat)
    ensures
        refill(rate, first) + refill(rate, second) <= refill(rate, first + second),
{
    let a = (first / 1_000) as int;
    let b = (second / 1_000) as int;
    let whole = ((first + second) / 1_000) as int;
    let r = rate as int;
    assert(a + b <= whole);
    assert(a * r + b * r == (a + b) * r) by (nonlinear_arith);
    assert((a + b) * r <= whole * r) by (nonlinear_arith)
        requires
            a + b <= whole,
            0 <= r,
    ;
    let x = a * r;
    let y = b * r;
    assert(x / 1_000_000 + y / 1_000_000 <= (x + y) / 1_000_000);
    lemma_div_is_ordered(x + y, whole * r, 1_000_000);
}

/// Bringing a bucket up to date adds the refill to its balance, but tokens
/// never build up beyond the rate.
pub proof fn tokens_build_up_to_the_rate(state: BucketState, now: nat)
    requires
        state.valid(),
        state.last_update <= now,
    ensures
        ({
            let filled = state.balance() + refill(state.rate, (now - state.last_update) as nat);
            state.updated(now).balance() == if filled <= state.rate {
                filled
            } else {
                state.rate as int
            }
        }),
        state.updated(now).at_hand() <= state.rate,
{
}

/// Where the tokens at hand suffice, there is no delay and the clock plays no
/// part.
pub proof fn no_delay_within_the_tokens_at_hand(
    state: BucketState,
    tokens: nat,
    now: nat,
    later: nat,
)
    requires
        state.valid(),
        tokens <= state.at_hand(),
    ensures
        tokens > 0 ==> state.limited(tokens, now).deadline() is None,
        state.limited(tokens, now) == state.limited(tokens, later),
        tokens > 0 ==> state.limited(tokens, now).balance() == state.balance() - tokens,
{
}

/// A request is delayed if and only if it exceeds the tokens that are there
/// once the bucket is up to date. Left out is the one case in which the count
/// cannot tell: it stops at the largest `u64` and that is the rate.
pub proof fn delay_exactly_beyond_the_balance(state: BucketState, tokens: nat, now: nat)
    requires
        state.valid(),
        state.last_update <= now,
        state.at_hand() < tokens,
        state.rate < u64::MAX || state.updated(now).requested + tokens <= u64::MAX,
    ensures
        state.limited(tokens, now).deadline() is Some <==> state.updated(now).balance() < tokens,
{
}

/// A microsecond after the deadline that a call returned (the deadline is
/// rounded down to whole microseconds) no token is owed any more. The product
/// in the delay must not have been cut off at the largest `u64`.
pub proof fn waiting_for_the_deadline_clears_the_backlog(state: BucketState)
    requires
        state.valid(),
        state.backlog() > 0,
        state.backlog() * 1_000_000 <= u64::MAX,
    ensures
        state.updated((state.deadline()->0 + 1_000) as nat).backlog() == 0,
{
    let b = state.backlog() as int;
    let r = state.rate as int;
    let d = state.delay_micros() as int;
    lemma_fundamental_div_mod(b * 1_000_000, r);
    assert(0 <= (b * 1_000_000) % r < r);
    assert((d + 1) * r == r * d + r) by (nonlinear_arith);
    assert((d + 1) * r >= b * 1_000_000);
    let nanos = (d * 1_000 + 1_000) as nat;
    assert(nanos / 1_000 == d + 1);
    lemma_div_is_ordered(b * 1_000_000, (d + 1) * r, 1_000_000);
    assert((b * 1_000_000) / 1_000_000 == b);
}

/// Until the deadline that a call returned, tokens are still owed.
pub proof fn backlog_lasts_until_the_deadline(state: BucketState, now: nat)
    requires
        state.valid(),
        state.backlog() > 0,
        state.last_update <= now,
        now + 1_000 <= state.deadline()->0,
    ensures
        state.updated(now).backlog() > 0,
{
    let b = state.backlog() as int;
    let r = state.rate as int;
    let d = state.delay_micros() as int;
    let scaled = if b * 1_000_000 <= u64::MAX {
        b * 1_000_000
    } else {
        u64::MAX as int
    };
    let e = ((now - state.last_update) / 1_000) as int;
    assert(e + 1 <= d);
    lemma_fundamental_div_mod(scaled, r);
    assert(r * d <= scaled);
    assert(e * r + r <= r * d) by (nonlinear_arith)
        requires
            e + 1 <= d,
            r > 0,
    ;
    assert(e * r < b * 1_000_000);
    assert((e * r) / 1_000_000 < b);
}

/// Setting the rate forgets nothing: what was owed stays owed.
pub proof fn setting_the_rate_keeps_the_backlog(state: BucketState, rate: nat, now: nat)
    requires
        state.valid(),
        state.last_update <= now,
    ensures
        state.with_rate(rate, now).backlog() == state.updated(now).backlog(),
        state.with_rate(rate, now).at_hand() == if state.updated(now).at_hand() <= rate {
            state.updated(now).at_hand()
        } else {
            rate
        },
        state.with_rate(rate, now).rate == rate,
{
}

/// A larger request is never allowed earlier.
pub proof fn larger_requests_wait_longer(state: BucketState, fewer: nat, more: nat, now: nat)
    requires
        state.valid(),
        state.last_update <= now,
        state.at_hand() < fewer <= more,
        state.limited(fewer, now).deadline() is Some,
    ensures
        state.limited(more, now).deadline() is Some,
        state.limited(fewer, now).deadline()->0 <= state.limited(more, now).deadline()->0,
{
    let small = state.limited(fewer, now);
    let large = state.limited(more, now);
    let x = if small.backlog() * 1_000_000 <= u64::MAX {
        (small.backlog() * 1_000_000) as int
    } else {
        u64::MAX as int
    };
    let y = if large.backlog() * 1_000_000 <= u64::MAX {
        (large.backlog() * 1_000_000) as int
    } else {
        u64::MAX as int
    };
    lemma_div_is_ordered(x, y, state.rate as int);
}

/// A higher rate refills at least as much.
pub proof fn refill_grows_with_the_rate(slower: nat, faster: nat, nanos: nat)
    requires
        slower <= faster,
    ensures
        refill(slower, nanos) <= refill(faster, nanos),
{
    let micros = (nanos / 1_000) as int;
    assert(micros * slower <= micros * faster) by (nonlinear_arith)
        requires
            0 <= micros,
            slower <= faster,
    ;
    lemma_div_is_ordered(micros * slower, micros * faster, 1_000_000);
}

proof fn lemma_prefix_of_calls(start: nat, max_rate: nat, calls: Seq<BucketCall>)
    requires
        well_timed(start, calls),
        rates_within(max_rate, calls),
        calls.len() > 0,
    ensures
        well_timed(start, calls.drop_last()),
        rates_within(max_rate, calls.drop_last()),
{
    let before = calls.drop_last();
    assert forall|i: int, j: int| 0 <= i <= j < before.len() implies (
    #[trigger] before[i]).time() <= (#[trigger] before[j]).time() by {
        assert(before[i] == calls[i]);
        assert(before[j] == calls[j]);
    }
    assert forall|i: int| 0 <= i < before.len() implies start <= (#[trigger] before[i]).time() by {
        assert(before[i] == calls[i]);
    }
    assert forall|i: int|
        #![trigger before[i]]
        0 <= i < before.len() implies (before[i] matches BucketCall::SetRate { rate, .. } ==> 0
        < rate <= max_rate) by {
        assert(before[i] == calls[i]);
    }
}

/// Over any sequence of requests and changes of the rate, the tokens requested
/// are paid for by the balance at the start and by what the highest rate yields
/// since then. Nothing may have been cut off at the largest `u64`.
pub proof fn tokens_are_conserved(state: BucketState, max_rate: nat, calls: Seq<BucketCall>)
    requires
        state.valid(),
        state.rate <= max_rate,
        well_timed(state.last_update, calls),
        rates_within(max_rate, calls),
        max_rate + state.backlog() + total_requested(calls) <= u64::MAX,
    ensures
        ({
            let end = state.after(calls);
            &&& 0 < end.rate <= max_rate
            &&& state.last_update <= end.last_update
            &&& calls.len() > 0 ==> end.last_update <= calls.last().time()
            &&& calls.len() == 0 ==> end == state
            &&& end.backlog() <= state.backlog() + total_requested(calls)
            &&& end.balance() + total_requested(calls) <= state.balance() + refill(
                max_rate,
                (end.last_update - state.last_update) as nat,
            )
        }),
    decreases calls.len(),
{
    if calls.len() > 0 {
        let before = calls.drop_last();
        lemma_prefix_of_calls(state.last_update, max_rate, calls);
        tokens_are_conserved(state, max_rate, before);
        let mid = state.after(before);
        let last = calls.last();
        assert(last == calls[calls.len() - 1]);
        let now = last.time();
        if before.len() > 0 {
            assert(before.last() == calls[calls.len() - 2]);
        }
        assert(mid.last_update <= now);
        let passed = (now - mid.last_update) as nat;
        refill_is_superadditive(max_rate, (mid.last_update - state.last_update) as nat, passed);
        refill_grows_with_the_rate(mid.rate, max_rate, passed);
    }
}

/// The rate is never exceeded: whenever a new bucket, whose rate is changed at
/// will up to `max_rate`, lets a sequence of calls pass without delay, they
/// requested no more tokens than that rate yields in the time since the bucket
/// was made: no more than the rate times the time.
pub proof fn rate_is_never_exceeded(rate: nat, start: nat, max_rate: nat, calls: Seq<BucketCall>)
    requires
        BucketState::initial(rate, start).valid(),
        rate <= max_rate,
        well_timed(start, calls),
        rates_within(max_rate, calls),
        max_rate + total_requested(calls) <= u64::MAX,
        calls.len() > 0,
        BucketState::initial(rate, start).after(calls).deadline() is None,
    ensures
        total_requested(calls) <= refill(max_rate, (calls.last().time() - start) as nat),
        total_requested(calls) * 1_000_000_000 <= max_rate * (calls.last().time() - start),
{
    let state = BucketState::initial(rate, start);
    refill_is_rate_times_time(max_rate, (calls.last().time() - start) as nat);
    tokens_are_conserved(state, max_rate, calls);
    let end = state.after(calls);
    refill_is_superadditive(
        max_rate,
        (end.last_update - start) as nat,
        (calls.last().time() - end.last_update) as nat,
    );
}

/// What a rate yields in a time, in plain arithmetic: as many units as the rate
/// times the time is worth, rounded down after the time is rounded down to whole
/// microseconds.
pub proof fn refill_is_rate_times_time(rate: nat, nanos: nat)
    ensures
        refill(rate, nanos) * 1_000_000 <= (nanos / 1_000) * rate,
        (nanos / 1_000) * rate < (refill(rate, nanos) + 1) * 1_000_000,
        refill(rate, nanos) * 1_000_000_000 <= rate * nanos,
        rate * nanos < (refill(rate, nanos) + 1) * 1_000_000_000 + 1_000 * rate,
{
    let micros = (nanos / 1_000) as int;
    let r = rate as int;
    let n = nanos as int;
    let product = micros * r;
    assert(product >= 0) by (nonlinear_arith)
        requires
            micros >= 0,
            r >= 0,
            product == micros * r,
    ;
    assert(refill(rate, nanos) == product / 1_000_000);
    assert(1_000 * micros <= n < 1_000 * micros + 1_000);
    assert(1_000 * product <= r * n <= 1_000 * product + 1_000 * r) by (nonlinear_arith)
        requires
            r >= 0,
            1_000 * micros <= n < 1_000 * micros + 1_000,
            product == micros * r,
    ;
}

/// Tokens are at hand or owed, never both, and their difference is that of the
/// rate and what was requested.
pub proof fn tokens_are_at_hand_or_owed(state: BucketState)
    ensures
        state.balance() == state.rate - state.requested,
        state.at_hand() - state.backlog() == state.rate - state.requested,
        state.at_hand() == 0 || state.backlog() == 0,
        state.available() is Some <==> state.requested <= state.rate,
        state.available() matches Some(tokens) ==> tokens == state.rate - state.requested,
{
}

/// Bringing a bucket up to date gives back what the rate is worth in the time
/// that passed, neither more nor less, as long as anything is left to give back.
pub proof fn updates_give_back_what_the_rate_yields(state: BucketState, now: nat)
    requires
        state.last_update <= now,
    ensures
        ({
            let after = state.updated(now);
            let given = state.requested - after.requested;
            let nanos = now - state.last_update;
            &&& after.rate == state.rate
            &&& after.last_update == now
            &&& 0 <= given
            &&& given * 1_000_000_000 <= state.rate * nanos
            &&& after.requested > 0 ==> (nanos / 1_000) * state.rate < (given + 1) * 1_000_000
        }),
{
    let nanos = (now - state.last_update) as nat;
    refill_is_rate_times_time(state.rate, nanos);
}

/// A delay is as long as the tokens that are owed take at the rate: their number
/// over the rate, in whole microseconds, rounded down. The number of microseconds
/// that a rate of one would take is cut off at the largest `u64`.
pub proof fn delays_match_the_rate(state: BucketState)
    requires
        state.rate > 0,
    ensures
        state.deadline() is Some <==> state.requested > state.rate,
        state.deadline() matches Some(at) ==> {
            let owed = state.requested - state.rate;
            let delay = (at - state.last_update) / 1_000;
            let scaled = if owed * 1_000_000 <= u64::MAX {
                owed * 1_000_000
            } else {
                u64::MAX as int
            };
            &&& at == state.last_update + delay * 1_000
            &&& 0 <= delay
            &&& delay * state.rate <= scaled < (delay + 1) * state.rate
        },
{
    if state.requested > state.rate {
        let owed = state.requested - state.rate;
        let scaled = if owed * 1_000_000 <= u64::MAX {
            owed * 1_000_000
        } else {
            u64::MAX as int
        };
        let r = state.rate as int;
        let d = scaled / r;
        lemma_fundamental_div_mod(scaled, r);
        assert(0 <= scaled % r < r);
        assert(d * r == r * d) by (nonlinear_arith);
        assert((d + 1) * r == r * d + r) by (nonlinear_arith);
        assert(d >= 0) by (nonlinear_arith)
            requires
                scaled >= 0,
                r > 0,
                d == scaled / r,
        ;
        assert(state.delay_micros() == d);
    }
}

/// A request that the tokens at hand suffice for is only counted. Any other looks
/// at the clock: what the rate was worth since the last look is given back, and
/// the request counted. The count stops at the largest `u64`.
pub proof fn requests_are_counted(state: BucketState, tokens: nat, now: nat)
    requires
        state.valid(),
        state.requested + tokens <= state.rate || tokens == 0 || state.last_update <= now,
    ensures
        ({
            let after = state.limited(tokens, now);
            let given = state.requested + tokens - after.requested;
            let nanos = now - state.last_update;
            &&& after.rate == state.rate
            &&& after.requested <= u64::MAX
            &&& if state.requested + tokens <= state.rate || tokens == 0 {
                after.requested == state.requested + tokens && after.last_update
                    == state.last_update
            } else {
                &&& after.last_update == now
                &&& after.requested == u64::MAX ==> state.updated(now).requested + tokens
                    >= u64::MAX
                &&& after.requested < u64::MAX ==> {
                    &&& 0 <= given <= state.requested
                    &&& given * 1_000_000_000 <= state.rate * nanos
                    &&& given < state.requested ==> (nanos / 1_000) * state.rate < (given + 1)
                        * 1_000_000
                }
            }
        }),
{
    if !(state.requested + tokens <= state.rate || tokens == 0) {
        updates_give_back_what_the_rate_yields(state, now);
    }
}

/// A new bucket has nothing to give yet: whatever is asked of it at once has to
/// be waited for as long as it takes at the rate.
pub proof fn first_requests_wait_for_all_they_ask(rate: nat, tokens: nat, now: nat)
    requires
        0 < rate,
        0 < tokens,
        rate + tokens <= u64::MAX,
        tokens * 1_000_000 <= u64::MAX,
        now <= MAX_CLOCK_NANOS,
    ensures
        BucketState::initial(rate, now).available() == Some(0nat),
        BucketState::initial(rate, now).rate == rate,
        BucketState::initial(rate, now).limited(tokens, now).deadline() matches Some(at) && {
            let delay = (at - now) / 1_000;
            &&& at == now + delay * 1_000
            &&& delay * rate <= tokens * 1_000_000 < (delay + 1) * rate
        },
{
    let state = BucketState::initial(rate, now);
    assert(0nat * rate == 0) by (nonlinear_arith);
    assert(refill(rate, 0) == 0);
    delays_match_the_rate(state.limited(tokens, now));
}

/// A bucket that is left alone until its rate is worth all that was requested is
/// full again: it has as many tokens at hand as its rate.
pub proof fn idle_buckets_fill_up(state: BucketState, now: nat)
    requires
        state.last_update <= now,
        state.requested * 1_000_000 <= ((now - state.last_update) / 1_000) * state.rate,
    ensures
        state.updated(now).available() == Some(state.rate),
{
    let nanos = (now - state.last_update) as nat;
    refill_is_rate_times_time(state.rate, nanos);
}

/// A new rate takes effect from now on: what is owed then stays owed, what is at
/// hand stays at hand as far as it fits the new rate.
pub proof fn new_rates_keep_the_count(state: BucketState, rate: nat, now: nat)
    requires
        state.last_update <= now,
    ensures
        ({
            let before = state.updated(now);
            let after = state.with_rate(rate, now);
            &&& after.rate == rate
            &&& after.last_update == now
            &&& before.requested > before.rate ==> after.requested - rate == before.requested
                - before.rate
            &&& before.requested <= before.rate && before.rate - before.requested <= rate ==> rate
                - after.requested == before.rate - before.requested
            &&& before.requested <= before.rate && before.rate - before.requested > rate
                ==> after.requested == 0
        }),
{
}

} // verus!
