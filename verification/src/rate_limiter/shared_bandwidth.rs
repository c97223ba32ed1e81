//! Sharing a bandwidth equally among all its active consumers.

use vstd::arithmetic::div_mod::{lemma_div_is_ordered_by_denominator, lemma_fundamental_div_mod};
use vstd::prelude::*;

use crate::rate_limiter::rate::NonZeroRatePerSecond;

verus! {

/// How long a consumer sleeps between two looks at its share.
pub const BANDWIDTH_CHECK_MILLIS: u64 = 250;

/// How many consumers of a shared bandwidth are active.
#[derive(Debug)]
pub struct PeersCount {
    active: u64,
}

impl View for PeersCount {
    type V = nat;

    closed spec fn view(&self) -> nat {
        self.active as nat
    }
}

impl PeersCount {
    /// No consumer is active yet.
    pub fn new() -> (count: Self)
        ensures
            count@ == 0,
    {
        PeersCount { active: 0 }
    }

    /// How many consumers are active.
    pub fn get(&self) -> (active: u64)
        ensures
            active == self@,
    {
        self.active
    }
}

/// The share of each of `active` consumers in a bandwidth of `max_rate`: equal
/// parts, but never less than one unit per second.
pub open spec fn share(max_rate: nat, active: nat) -> nat {
    if max_rate / active == 0 {
        1
    } else {
        max_rate / active
    }
}

/// What a consumer of a shared bandwidth is: the whole bandwidth, and the share
/// that it was told last while it is active.
#[verifier::ext_equal]
pub struct ManagerState {
    pub max_rate: nat,
    pub requested: Option<nat>,
}

impl ManagerState {
    /// How many consumers are active after this one asks for its share.
    pub open spec fn peers_after_request(self, peers: nat) -> nat {
        if self.requested is None {
            peers + 1
        } else {
            peers
        }
    }

    /// How many consumers are active after this one falls idle.
    pub open spec fn peers_after_idle(self, peers: nat) -> nat {
        if self.requested is Some {
            (peers - 1) as nat
        } else {
            peers
        }
    }

    /// This consumer with the share that `peers` active consumers leave it.
    pub open spec fn told(self, peers: nat) -> Self {
        ManagerState { requested: Some(share(self.max_rate, peers)), ..self }
    }

    /// This consumer while it is idle.
    pub open spec fn idle(self) -> Self {
        ManagerState { requested: None, ..self }
    }
}

/// What a consumer that waits for a change of its share does next.
#[derive(Clone, Copy, Debug, PartialEq, Eq, Structural)]
pub enum BandwidthPoll {
    /// It is idle: its share never changes.
    Never,
    /// Its share is what it was: look again after this many milliseconds.
    Unchanged { sleep_millis: u64 },
    /// Its share is now this.
    Changed(NonZeroRatePerSecond),
}

/// Implementation of the bandwidth sharing strategy that attempts to assign
/// equal portions of the total bandwidth to all its active consumers.
///
/// All consumers of one bandwidth are given the same [`PeersCount`].
#[derive(Debug)]
pub struct SharedBandwidthManager {
    max_rate: NonZeroRatePerSecond,
    already_requested: Option<NonZeroRatePerSecond>,
}

impl View for SharedBandwidthManager {
    type V = ManagerState;

    closed spec fn view(&self) -> ManagerState {
        ManagerState {
            max_rate: self.max_rate.units_spec() as nat,
            requested: match self.already_requested {
                Some(rate) => Some(rate.units_spec() as nat),
                None => None,
            },
        }
    }
}

impl Clone for SharedBandwidthManager {
    /// A further consumer of the same bandwidth, which is idle.
    fn clone(&self) -> (other: Self)
        ensures
            other@ == self@.idle(),
    {
        SharedBandwidthManager { max_rate: self.max_rate, already_requested: None }
    }
}

impl SharedBandwidthManager {
    /// The first consumer of a bandwidth; it is idle.
    pub fn new(max_rate: NonZeroRatePerSecond) -> (manager: Self)
        ensures
            manager@ == (ManagerState { max_rate: max_rate.units_spec() as nat, requested: None }),
    {
        SharedBandwidthManager { max_rate, already_requested: None }
    }

    fn calculate_bandwidth(&self, active_children: u64) -> (rate: NonZeroRatePerSecond)
        requires
            active_children > 0,
        ensures
            rate.units_spec() == share(self@.max_rate, active_children as nat),
    {
        let rate: u64 = self.max_rate.units() / active_children;
        match NonZeroRatePerSecond::new(rate) {
            Some(rate) => rate,
            None => NonZeroRatePerSecond::min(),
        }
    }

    /// Whether it is active.
    pub fn is_active(&self) -> (active: bool)
        ensures
            active == (self@.requested is Some),
    {
        self.already_requested.is_some()
    }

    /// The same consumer once more, active or not. Unlike a clone it is no further
    /// consumer.
    pub(crate) fn duplicate(&self) -> (same: Self)
        ensures
            same@ == self@,
    {
        SharedBandwidthManager {
            max_rate: self.max_rate,
            already_requested: self.already_requested,
        }
    }

    /// The share that it would be told if it became active; `None` where the
    /// number of active consumers does not admit that.
    pub fn share_after_request(&self, peers: &PeersCount) -> (rate: Option<NonZeroRatePerSecond>)
        ensures
            rate is Some <==> 0 < self@.peers_after_request(peers@) <= u64::MAX,
            rate matches Some(r) ==> r.units_spec() == share(
                self@.max_rate,
                self@.peers_after_request(peers@),
            ),
    {
        if self.already_requested.is_none() {
            if peers.active == u64::MAX {
                None
            } else {
                Some(self.calculate_bandwidth(peers.active + 1))
            }
        } else if peers.active == 0 {
            None
        } else {
            Some(self.calculate_bandwidth(peers.active))
        }
    }

    /// Becomes active, unless it is already, and returns its share.
    pub fn request_bandwidth(&mut self, peers: &mut PeersCount) -> (rate: NonZeroRatePerSecond)
        requires
            0 < old(self)@.peers_after_request(old(peers)@) <= u64::MAX,
        ensures
            final(peers)@ == old(self)@.peers_after_request(old(peers)@),
            final(self)@ == old(self)@.told(final(peers)@),
            Some(rate.units_spec() as nat) == final(self)@.requested,
    {
        if self.already_requested.is_none() {
            peers.active = peers.active + 1;
        }
        let rate = self.calculate_bandwidth(peers.active);
        self.already_requested = Some(rate);
        rate
    }

    /// Falls idle, unless it is already.
    pub fn notify_idle(&mut self, peers: &mut PeersCount)
        requires
            old(self)@.requested is Some ==> old(peers)@ > 0,
        ensures
            final(peers)@ == old(self)@.peers_after_idle(old(peers)@),
            final(self)@ == old(self)@.idle(),
    {
        if self.already_requested.is_some() {
            peers.active = peers.active - 1;
        }
        self.already_requested = None;
    }

    /// Looks whether the share has changed since this consumer was told last.
    pub fn poll_bandwidth_change(&mut self, peers: &PeersCount) -> (poll: BandwidthPoll)
        requires
            old(self)@.requested is Some ==> peers@ > 0,
        ensures
            poll == BandwidthPoll::Never <==> old(self)@.requested is None,
            poll is Unchanged <==> old(self)@.requested == Some(
                share(old(self)@.max_rate, peers@),
            ),
            poll matches BandwidthPoll::Unchanged { sleep_millis } ==> sleep_millis
                == BANDWIDTH_CHECK_MILLIS,
            poll matches BandwidthPoll::Unchanged { sleep_millis } ==> sleep_millis == 250,
            poll matches BandwidthPoll::Changed(rate) ==> rate.units_spec() == share(
                old(self)@.max_rate,
                peers@,
            ),
            final(self)@ == if old(self)@.requested is None {
                old(self)@
            } else {
                old(self)@.told(peers@)
            },
    {
        match self.already_requested {
            None => BandwidthPoll::Never,
            Some(previous_rate) => {
                let rate = self.calculate_bandwidth(peers.active);
                if rate.units() == previous_rate.units() {
                    BandwidthPoll::Unchanged { sleep_millis: BANDWIDTH_CHECK_MILLIS }
                } else {
                    self.already_requested = Some(rate);
                    BandwidthPoll::Changed(rate)
                }
            },
        }
    }
}

/// How many of the consumers are active.
pub open spec fn active_among(group: Seq<ManagerState>) -> nat
    decreases group.len(),
{
    if group.len() == 0 {
        0
    } else {
        active_among(group.drop_last()) + if group.last().requested is Some {
            1nat
        } else {
            0nat
        }
    }
}

/// The bandwidth that the active consumers were told, summed.
pub open spec fn total_told(group: Seq<ManagerState>) -> nat
    decreases group.len(),
{
    if group.len() == 0 {
        0
    } else {
        total_told(group.drop_last()) + match group.last().requested {
            Some(rate) => rate,
            None => 0,
        }
    }
}

/// Whether the consumers share one bandwidth and `peers` counts the active ones.
pub open spec fn shares_bandwidth(group: Seq<ManagerState>, max_rate: nat, peers: nat) -> bool {
    &&& forall|i: int| 0 <= i < group.len() ==> (#[trigger] group[i]).max_rate == max_rate
    &&& peers == active_among(group)
}

/// Whether every active consumer was told its present share.
pub open spec fn up_to_date(group: Seq<ManagerState>, peers: nat) -> bool {
    forall|i: int|
        0 <= i < group.len() && (#[trigger] group[i]).requested is Some ==> group[i].requested
            == Some(share(group[i].max_rate, peers))
}

proof fn lemma_active_after_update(group: Seq<ManagerState>, i: int, state: ManagerState)
    requires
        0 <= i < group.len(),
    ensures
        active_among(group.update(i, state)) == active_among(group) + (if state.requested is Some {
            1int
        } else {
            0int
        }) - (if group[i].requested is Some {
            1int
        } else {
            0int
        }),
        group[i].requested is Some ==> active_among(group) > 0,
    decreases group.len(),
{
    let updated = group.update(i, state);
    if i == group.len() - 1 {
        assert(updated.drop_last() =~= group.drop_last());
    } else {
        lemma_active_after_update(group.drop_last(), i, state);
        assert(updated.drop_last() =~= group.drop_last().update(i, state));
        assert(updated.last() == group.last());
    }
}

/// A consumer that asks for its share leaves the count right, and finds the
/// count as its request needs it.
pub proof fn requests_keep_the_count(
    group: Seq<ManagerState>,
    max_rate: nat,
    peers: nat,
    consumer: int,
)
    requires
        shares_bandwidth(group, max_rate, peers),
        0 <= consumer < group.len(),
    ensures
        ({
            let after = group[consumer].peers_after_request(peers);
            &&& group[consumer].requested is Some ==> peers > 0
            &&& shares_bandwidth(
                group.update(consumer, group[consumer].told(after)),
                max_rate,
                after,
            )
        }),
{
    let after = group[consumer].peers_after_request(peers);
    lemma_active_after_update(group, consumer, group[consumer].told(after));
}

/// A consumer that falls idle leaves the count right, and finds the count as
/// falling idle needs it.
pub proof fn idling_keeps_the_count(
    group: Seq<ManagerState>,
    max_rate: nat,
    peers: nat,
    consumer: int,
)
    requires
        shares_bandwidth(group, max_rate, peers),
        0 <= consumer < group.len(),
    ensures
        ({
            let after = group[consumer].peers_after_idle(peers);
            &&& group[consumer].requested is Some ==> peers > 0
            &&& shares_bandwidth(group.update(consumer, group[consumer].idle()), max_rate, after)
        }),
{
    lemma_active_after_update(group, consumer, group[consumer].idle());
}

/// A further consumer, which is idle, leaves the count right.
pub proof fn cloning_keeps_the_count(
    group: Seq<ManagerState>,
    max_rate: nat,
    peers: nat,
    consumer: int,
)
    requires
        shares_bandwidth(group, max_rate, peers),
        0 <= consumer < group.len(),
    ensures
        shares_bandwidth(group.push(group[consumer].idle()), max_rate, peers),
{
    assert(group.push(group[consumer].idle()).drop_last() =~= group);
}

/// Once every active consumer was told its present share, all active consumers
/// have equal shares, and together no more than the whole bandwidth, provided
/// that there is a unit per second for each.
pub proof fn shares_are_equal_and_fit(group: Seq<ManagerState>, max_rate: nat, peers: nat)
    requires
        shares_bandwidth(group, max_rate, peers),
        up_to_date(group, peers),
    ensures
        forall|i: int, j: int|
            #![trigger group[i], group[j]]
            0 <= i < group.len() && 0 <= j < group.len() && group[i].requested is Some
                && group[j].requested is Some ==> group[i].requested == group[j].requested,
        peers > 0 ==> total_told(group) == peers * share(max_rate, peers),
        peers <= max_rate ==> total_told(group) <= max_rate,
{
    assert forall|i: int| 0 <= i < group.len() && (#[trigger] group[i]).requested is Some implies
        group[i].requested == Some(share(max_rate, peers)) by {
        assert(group[i].max_rate == max_rate);
    }
    lemma_total_of_equal_shares(group, share(max_rate, peers));
    if peers > 0 {
        lemma_fundamental_div_mod(max_rate as int, peers as int);
        if peers <= max_rate {
            assert(max_rate / peers >= 1) by (nonlinear_arith)
                requires
                    0 < peers <= max_rate,
            ;
        }
    }
}

proof fn lemma_total_of_equal_shares(group: Seq<ManagerState>, each: nat)
    requires
        forall|i: int|
            0 <= i < group.len() && (#[trigger] group[i]).requested is Some
                ==> group[i].requested == Some(each),
    ensures
        total_told(group) == active_among(group) * each,
    decreases group.len(),
{
    if group.len() > 0 {
        let rest = group.drop_last();
        assert forall|i: int| 0 <= i < rest.len() && (#[trigger] rest[i]).requested is Some implies
            rest[i].requested == Some(each) by {
            assert(rest[i] == group[i]);
        }
        lemma_total_of_equal_shares(rest, each);
        assert(group.last() == group[group.len() - 1]);
        let n = active_among(rest);
        assert((n + 1) * each == n * each + each) by (nonlinear_arith);
    } else {
        assert(0 * each == 0) by (nonlinear_arith);
    }
}

/// A single active consumer has the whole bandwidth, and a consumer has at
/// least one unit per second however many there are.
pub proof fn shares_are_bounded(max_rate: nat, active: nat)
    requires
        max_rate > 0,
        active > 0,
    ensures
        share(max_rate, 1) == max_rate,
        1 <= share(max_rate, active) <= max_rate,
{
    assert(max_rate / 1 == max_rate);
    lemma_div_is_ordered_by_denominator(max_rate as int, 1, active as int);
}

/// The active consumers use up the bandwidth but for rounding: their shares fit
/// into it, and shares of one unit more would not. Only where there is less than
/// a unit for each do the shares exceed the bandwidth, at one unit each.
pub proof fn shares_use_up_the_bandwidth(max_rate: nat, active: nat)
    requires
        active > 0,
    ensures
        active <= max_rate ==> share(max_rate, active) * active <= max_rate,
        active <= max_rate ==> max_rate < (share(max_rate, active) + 1) * active,
        active > max_rate ==> share(max_rate, active) == 1,
{
    let m = max_rate as int;
    let a = active as int;
    let q = m / a;
    lemma_fundamental_div_mod(m, a);
    assert(0 <= m % a < a);
    assert(q * a == a * q) by (nonlinear_arith);
    assert((q + 1) * a == a * q + a) by (nonlinear_arith);
    if active <= max_rate {
        assert(q >= 1) by (nonlinear_arith)
            requires
                0 < a <= m,
                q == m / a,
        ;
    } else {
        assert(q == 0) by (nonlinear_arith)
            requires
                0 <= m < a,
                q == m / a,
        ;
    }
}

/// A consumer that asks is told the share of as many consumers as are active
/// then, itself among them, and one that falls idle is no longer among them. The
/// bandwidth stays what it is.
pub proof fn consumers_are_counted_while_active(state: ManagerState, peers: nat)
    ensures
        state.peers_after_request(peers) == peers + (if state.requested is None {
            1int
        } else {
            0int
        }),
        state.requested is Some && peers > 0 ==> state.peers_after_idle(peers) == peers - 1,
        state.requested is None ==> state.peers_after_idle(peers) == peers,
        state.told(peers).max_rate == state.max_rate,
        state.told(peers).requested == Some(share(state.max_rate, peers)),
        state.idle().max_rate == state.max_rate,
        state.idle().requested is None,
{
}

} // verus!
