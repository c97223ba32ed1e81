//! The whole-number part of a token bucket whose rate is a fraction: how many
//! tokens are there and how many are owed. How many tokens a time yields, and
//! how long missing tokens take, is for whoever knows the rate to say.

use vstd::prelude::*;

verus! {

/// When a bucket is brought up to date.
#[derive(Clone, Copy, Debug, PartialEq, Eq, Structural)]
pub enum Settling {
    /// When the tokens at hand do not suffice.
    WhenShort,
    /// Also whenever tokens are owed.
    WhenOwing,
}

/// What a bucket is.
#[verifier::ext_equal]
pub struct UnitState {
    pub settling: Settling,
    pub limit: nat,
    pub available: nat,
    pub owed: nat,
}

/// The smaller of two numbers.
pub open spec fn least(a: nat, b: nat) -> nat {
    if a <= b {
        a
    } else {
        b
    }
}

impl UnitState {
    /// The ranges that the machine imposes.
    pub open spec fn valid(self) -> bool {
        &&& self.limit <= usize::MAX
        &&& self.available <= usize::MAX
        &&& self.owed <= usize::MAX
    }

    /// Whether a request needs the bucket to be brought up to date.
    pub open spec fn needs_update(self, requested: nat) -> bool {
        self.available < requested || (self.settling == Settling::WhenOwing && self.owed > 0)
    }

    /// The state with new tokens: those that are owed are paid first, and no more
    /// than the limit is kept.
    pub open spec fn updated(self, new_units: nat) -> Self {
        let gross = least(self.available + new_units, usize::MAX as nat);
        let used = least(gross, self.owed);
        UnitState {
            available: least((gross - used) as nat, self.limit),
            owed: (self.owed - used) as nat,
            ..self
        }
    }

    /// The state that a request is granted or put off in.
    pub open spec fn settled(self, requested: nat, new_units: nat) -> Self {
        if self.needs_update(requested) {
            self.updated(new_units)
        } else {
            self
        }
    }

    /// Whether a request has to wait.
    pub open spec fn must_wait(self, requested: nat, new_units: nat) -> bool {
        self.settled(requested, new_units).available < requested
    }

    /// The state after a request.
    pub open spec fn limited(self, requested: nat, new_units: nat) -> Self {
        let settled = self.settled(requested, new_units);
        if self.must_wait(requested, new_units) {
            UnitState { owed: least(settled.owed + requested, usize::MAX as nat), ..settled }
        } else {
            UnitState {
                available: least((settled.available - requested) as nat, self.limit),
                ..settled
            }
        }
    }

    /// How many tokens have to be waited for.
    pub open spec fn missing(self) -> nat {
        (self.owed - self.available) as nat
    }
}

/// The whole-number part of a token bucket.
#[derive(Clone, Copy, Debug)]
pub struct UnitBucket {
    settling: Settling,
    tokens_limit: usize,
    available: usize,
    requested: usize,
}

impl View for UnitBucket {
    type V = UnitState;

    closed spec fn view(&self) -> UnitState {
        UnitState {
            settling: self.settling,
            limit: self.tokens_limit as nat,
            available: self.available as nat,
            owed: self.requested as nat,
        }
    }
}

impl UnitBucket {
    /// A bucket that keeps at most `tokens_limit` tokens and holds `initial`.
    pub fn new(settling: Settling, tokens_limit: usize, initial: usize) -> (bucket: Self)
        ensures
            bucket@ == (UnitState {
                settling,
                limit: tokens_limit as nat,
                available: initial as nat,
                owed: 0,
            }),
            bucket@.valid(),
    {
        UnitBucket { settling, tokens_limit, available: initial, requested: 0 }
    }

    /// Whether a request needs to know how many tokens have come in since the last
    /// update.
    pub fn needs_update(&self, requested: usize) -> (needs: bool)
        ensures
            needs == self@.needs_update(requested as nat),
    {
        let owing: bool = self.settling == Settling::WhenOwing && self.requested > 0;
        owing || self.available < requested
    }

    /// Takes in new tokens.
    pub fn update_units(&mut self, new_units: usize) -> (available: usize)
        ensures
            final(self)@ == old(self)@.updated(new_units as nat),
            available == final(self)@.available,
    {
        self.available = self.available.saturating_add(new_units);
        let used: usize = if self.available <= self.requested {
            self.available
        } else {
            self.requested
        };
        self.available = self.available - used;
        self.requested = self.requested - used;
        if self.available > self.tokens_limit {
            self.available = self.tokens_limit;
        }
        self.available
    }

    /// Asks for tokens. `new_units` have come in since the last update; they count
    /// only where the request needs to know them. Returns how many tokens have to
    /// be waited for, if any.
    pub fn rate_limit(&mut self, requested: usize, new_units: usize) -> (missing: Option<usize>)
        ensures
            final(self)@ == old(self)@.limited(requested as nat, new_units as nat),
            missing is Some <==> old(self)@.must_wait(requested as nat, new_units as nat),
            missing matches Some(m) ==> m == final(self)@.missing(),
            missing matches Some(m) ==> final(self)@.available + m == final(self)@.owed,
    {
        if self.needs_update(requested) {
            if self.update_units(new_units) < requested {
                self.requested = self.requested.saturating_add(requested);
                return Some(self.requested - self.available);
            }
        }
        self.available = self.available - requested;
        if self.available > self.tokens_limit {
            self.available = self.tokens_limit;
        }
        None
    }
}

/// How a wait for a deadline is followed.
#[derive(Clone, Copy, Debug, PartialEq, Eq, Structural)]
pub struct SleepState {
    /// Whether the wait is over.
    pub finished: bool,
    /// Whether a new deadline starts a new wait after one that is over.
    pub restarts: bool,
}

impl SleepState {
    /// A wait that has yet to be looked at, and that is not begun anew.
    pub fn once() -> (state: Self)
        ensures
            state == (SleepState { finished: false, restarts: false }),
    {
        SleepState { finished: false, restarts: false }
    }

    /// No wait; each new deadline begins one.
    pub fn each_time() -> (state: Self)
        ensures
            state == (SleepState { finished: true, restarts: true }),
    {
        SleepState { finished: true, restarts: true }
    }

    /// A new deadline is set.
    pub fn set_sleep(&mut self)
        ensures
            *final(self) == (SleepState {
                finished: old(self).finished && !old(self).restarts,
                ..*old(self)
            }),
    {
        if self.restarts {
            self.finished = false;
        }
    }

    /// Whether the wait is over, given whether the deadline has passed.
    pub fn poll(&mut self, deadline_passed: bool) -> (ready: bool)
        ensures
            ready == (old(self).finished || deadline_passed),
            *final(self) == (SleepState { finished: ready, ..*old(self) }),
    {
        if self.finished {
            return true;
        }
        if deadline_passed {
            self.finished = true;
            true
        } else {
            false
        }
    }
}

/// A bucket together with the wait for its last deadline.
#[derive(Clone, Copy, Debug)]
pub struct SleepingUnitLimiter {
    units: UnitBucket,
    sleep: SleepState,
}

impl SleepingUnitLimiter {
    /// The bucket.
    pub closed spec fn units(self) -> UnitState {
        self.units@
    }

    /// The wait.
    pub closed spec fn sleep(self) -> SleepState {
        self.sleep
    }

    /// A bucket, with its wait as it is at the start.
    pub fn new(units: UnitBucket, sleep: SleepState) -> (limiter: Self)
        ensures
            limiter.units() == units@,
            limiter.sleep() == sleep,
    {
        SleepingUnitLimiter { units, sleep }
    }

    /// Whether a request needs to know how many tokens have come in since the last
    /// update.
    pub fn needs_update(&self, requested: usize) -> (needs: bool)
        ensures
            needs == self.units().needs_update(requested as nat),
    {
        self.units.needs_update(requested)
    }

    /// Whether the wait is over, given whether the deadline has passed. Until it
    /// is, nothing may be read.
    pub fn poll(&mut self, deadline_passed: bool) -> (ready: bool)
        ensures
            ready == (old(self).sleep().finished || deadline_passed),
            final(self).sleep() == (SleepState { finished: ready, ..old(self).sleep() }),
            final(self).units() == old(self).units(),
    {
        self.sleep.poll(deadline_passed)
    }

    /// Accounts for what was read. Returns for how many tokens a new wait begins,
    /// if one does.
    pub fn rate_limit(&mut self, read_size: usize, new_units: usize) -> (missing: Option<usize>)
        ensures
            final(self).units() == old(self).units().limited(read_size as nat, new_units as nat),
            missing is Some <==> old(self).units().must_wait(read_size as nat, new_units as nat),
            missing matches Some(m) ==> m == final(self).units().missing(),
            final(self).sleep() == if missing is Some {
                SleepState {
                    finished: old(self).sleep().finished && !old(self).sleep().restarts,
                    ..old(self).sleep()
                }
            } else {
                old(self).sleep()
            },
    {
        let missing = self.units.rate_limit(read_size, new_units);
        if missing.is_some() {
            self.sleep.set_sleep();
        }
        missing
    }

    /// Accounts for one read into a buffer that held `filled_before` bytes and now
    /// holds `filled_after`.
    pub fn after_read(
        &mut self,
        filled_before: usize,
        filled_after: usize,
        new_units: usize,
    ) -> (missing: Option<usize>)
        requires
            filled_before <= filled_after,
        ensures
            final(self).units() == old(self).units().limited(
                (filled_after - filled_before) as nat,
                new_units as nat,
            ),
            missing is Some <==> old(self).units().must_wait(
                (filled_after - filled_before) as nat,
                new_units as nat,
            ),
            missing matches Some(m) ==> m == final(self).units().missing(),
            final(self).sleep() == if missing is Some {
                SleepState {
                    finished: old(self).sleep().finished && !old(self).sleep().restarts,
                    ..old(self).sleep()
                }
            } else {
                old(self).sleep()
            },
    {
        self.rate_limit(filled_after - filled_before, new_units)
    }
}

/// A wait that hands back what it holds once it is over.
#[derive(Debug)]
pub struct OwningRateLimiterTask<RL> {
    rate_limiter: Option<RL>,
}

impl<RL> OwningRateLimiterTask<RL> {
    /// What the wait holds; nothing once it was handed back.
    pub closed spec fn held(self) -> Option<RL> {
        self.rate_limiter
    }

    /// A wait that holds the limiter.
    pub fn new(rate_limiter: RL) -> (task: Self)
        ensures
            task.held() == Some(rate_limiter),
    {
        OwningRateLimiterTask { rate_limiter: Some(rate_limiter) }
    }

    /// What the wait holds, without waiting any longer.
    pub fn into_inner(self) -> (rate_limiter: RL)
        requires
            self.held() is Some,
        ensures
            Some(rate_limiter) == self.held(),
    {
        self.rate_limiter.unwrap()
    }

    /// Hands back what the wait holds, once and only if the deadline has passed.
    pub fn poll(&mut self, deadline_passed: bool) -> (ready: Option<RL>)
        ensures
            ready == if deadline_passed {
                old(self).held()
            } else {
                None
            },
            final(self).held() == if deadline_passed {
                None
            } else {
                old(self).held()
            },
    {
        if self.rate_limiter.is_none() || !deadline_passed {
            return None;
        }
        self.rate_limiter.take()
    }
}

/// The bucket never holds more tokens than its limit once it was brought up to
/// date or asked for tokens that were there.
pub proof fn units_stay_within_the_limit(state: UnitState, requested: nat, new_units: nat)
    requires
        state.valid(),
        state.available <= state.limit,
    ensures
        state.updated(new_units).available <= state.limit,
        state.limited(requested, new_units).available <= state.limit,
        state.limited(requested, new_units).limit == state.limit,
{
}

/// After an update tokens are there or owed, never both.
pub proof fn updates_settle(state: UnitState, new_units: nat)
    requires
        state.valid(),
    ensures
        state.updated(new_units).available == 0 || state.updated(new_units).owed == 0,
{
}

/// A bucket that settles whenever tokens are owed grants nothing while tokens
/// are owed: a request that need not wait leaves none owed.
pub proof fn nothing_is_granted_while_owing(state: UnitState, requested: nat, new_units: nat)
    requires
        state.valid(),
        state.settling == Settling::WhenOwing,
        requested > 0,
        !state.must_wait(requested, new_units),
    ensures
        state.limited(requested, new_units).owed == 0,
{
}

/// Tokens are granted only out of those that were there or came in.
pub proof fn units_are_conserved(state: UnitState, requested: nat, new_units: nat)
    requires
        state.valid(),
        !state.must_wait(requested, new_units),
    ensures
        state.limited(requested, new_units).available + requested + (state.owed - state.limited(
            requested,
            new_units,
        ).owed) <= state.available + new_units,
{
}

/// New tokens change nothing but what is there and what is owed. What is there
/// less what is owed grows by them, unless that exceeds the limit, which is then
/// what is there. No tokens are there while any are owed. What is there and came in
/// is counted up to the largest `usize`.
pub proof fn new_units_pay_what_is_owed_first(state: UnitState, new_units: nat)
    requires
        state.valid(),
    ensures
        ({
            let after = state.updated(new_units);
            let gross = if state.available + new_units <= usize::MAX {
                state.available + new_units
            } else {
                usize::MAX as nat
            };
            let net = gross - state.owed;
            &&& after.settling == state.settling
            &&& after.limit == state.limit
            &&& net <= state.limit ==> after.available - after.owed == net
            &&& net > state.limit ==> after.available == state.limit && after.owed == 0
            &&& after.available == 0 || after.owed == 0
        }),
{
}

/// A bucket is brought up to date where the tokens at hand do not suffice, and
/// where it settles whenever tokens are owed also then. Otherwise the tokens that
/// came in play no part.
pub proof fn updates_happen_when_needed(
    state: UnitState,
    requested: nat,
    new_units: nat,
    other_units: nat,
)
    ensures
        state.available < requested ==> state.needs_update(requested),
        state.settling == Settling::WhenOwing && state.owed > 0 ==> state.needs_update(requested),
        state.available >= requested && (state.settling == Settling::WhenShort || state.owed == 0)
            ==> !state.needs_update(requested),
        state.needs_update(requested) ==> state.settled(requested, new_units) == state.updated(
            new_units,
        ),
        !state.needs_update(requested) ==> state.limited(requested, new_units) == state.limited(
            requested,
            other_units,
        ),
{
}

/// A request is granted exactly where the tokens that are then there suffice. It
/// takes them from there; one that is not granted is owed in full, and takes
/// nothing. So either way as many more tokens as were requested are gone or owed,
/// but no more is kept than the limit, and no more owed than the largest `usize`.
pub proof fn requests_take_or_owe_all_they_ask(state: UnitState, requested: nat, new_units: nat)
    requires
        state.valid(),
    ensures
        ({
            let settled = if state.needs_update(requested) {
                state.updated(new_units)
            } else {
                state
            };
            let after = state.limited(requested, new_units);
            &&& state.must_wait(requested, new_units) <==> settled.available < requested
            &&& after.settling == state.settling
            &&& after.limit == state.limit
            &&& state.must_wait(requested, new_units) ==> after.available == settled.available
                && after.owed == (if settled.owed + requested <= usize::MAX {
                settled.owed + requested
            } else {
                usize::MAX as nat
            })
            &&& !state.must_wait(requested, new_units) ==> after.owed == settled.owed
            &&& !state.must_wait(requested, new_units) && settled.available - requested
                <= state.limit ==> after.available == settled.available - requested
            &&& !state.must_wait(requested, new_units) && settled.available - requested
                > state.limit ==> after.available == state.limit
        }),
{
}

/// Who has to wait waits for what is owed beyond what is there, which is at least
/// a token.
pub proof fn waits_are_for_what_is_missing(state: UnitState, requested: nat, new_units: nat)
    requires
        state.valid(),
        state.must_wait(requested, new_units),
        state.owed + requested <= usize::MAX,
    ensures
        ({
            let after = state.limited(requested, new_units);
            &&& after.available + after.missing() == after.owed
            &&& after.missing() > 0
        }),
{
}

} // verus!
