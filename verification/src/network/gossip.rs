//! A network that gossips: it keeps a list of all currently connected peers,
//! and allows broadcasting messages and sending data to random peers.

use vstd::prelude::*;
use vstd::string::StringExecFns;

use crate::network::address::PeerId;
use crate::rpc::text::{append_digits, digits};
use crate::time::Instant;

verus! {

/// What a network service reports.
#[derive(Debug)]
pub enum NetworkEvent {
    /// A peer wants to open a stream.
    ValidateInboundSubstream { peer: PeerId },
    /// A peer is connected.
    NotificationStreamOpened { peer: PeerId },
    /// A peer is no longer connected.
    NotificationStreamClosed { peer: PeerId },
    /// A peer sent something.
    NotificationReceived { peer: PeerId, notification: Vec<u8> },
}

/// What is done about an event.
#[derive(Debug)]
pub enum EventOutcome {
    /// The stream is accepted.
    Accept,
    /// Nothing.
    Ignore,
    /// What was sent, and by whom.
    Message { notification: Vec<u8>, peer: PeerId },
}

/// What can go wrong with a network that gossips.
#[derive(Clone, Copy, Debug, PartialEq, Eq, Structural)]
pub enum ProtocolNetworkError {
    NetworkStreamTerminated,
}

impl ProtocolNetworkError {
    /// What went wrong, in words.
    pub fn text(&self) -> (text: &'static str)
        ensures
            text@ == "Notifications event stream ended."@,
    {
        "Notifications event stream ended."
    }
}

/// The peers of a list, as a set.
pub open spec fn peer_set(peers: Seq<PeerId>) -> Set<Seq<u8>> {
    Set::new(
        |bytes: Seq<u8>| exists|i: int| 0 <= i < peers.len() && (#[trigger] peers[i])@ == bytes,
    )
}

/// Whether no peer occurs twice.
pub open spec fn distinct(peers: Seq<PeerId>) -> bool {
    forall|i: int, j: int|
        0 <= i < j < peers.len() ==> (#[trigger] peers[i])@ != (#[trigger] peers[j])@
}

fn position(peers: &Vec<PeerId>, peer: &PeerId) -> (index: Option<usize>)
    ensures
        index is Some <==> peer_set(peers@).contains(peer@),
        index matches Some(i) ==> i < peers@.len() && peers@[i as int]@ == peer@,
{
    let mut i: usize = 0;
    while i < peers.len()
        invariant
            i <= peers@.len(),
            forall|j: int| 0 <= j < i ==> (#[trigger] peers@[j])@ != peer@,
        decreases peers@.len() - i,
    {
        if peers[i].same(peer) {
            return Some(i);
        }
        i = i + 1;
    }
    None
}

/// Calls `rand::seq::IteratorRandom::choose` on the numbers below `count` with
/// the generator of the thread: some number where there is one, otherwise
/// nothing. Which number it is, is left to chance.
#[verifier::external_body]
fn choose_below(count: usize) -> (chosen: Option<usize>)
    ensures
        chosen is Some <==> count > 0,
        chosen matches Some(i) ==> i < count,
{
    rand::seq::IteratorRandom::choose(0..count, &mut rand::thread_rng())
}

/// A thin wrapper around a network service: the peers that are connected, and
/// when last a report on them was made.
#[derive(Debug)]
pub struct ProtocolNetwork {
    connected_peers: Vec<PeerId>,
    last_status_report: Instant,
}

/// What a network that gossips is.
#[verifier::ext_equal]
pub struct GossipState {
    pub connected: Set<Seq<u8>>,
    pub last_report: Instant,
}

impl GossipState {
    /// The peers that data for a random one of the given peers may be sent to.
    pub open spec fn candidates(self, given: Set<Seq<u8>>) -> Set<Seq<u8>> {
        if given.intersect(self.connected) == Set::<Seq<u8>>::empty() {
            self.connected
        } else {
            given.intersect(self.connected)
        }
    }
}

impl View for ProtocolNetwork {
    type V = GossipState;

    closed spec fn view(&self) -> GossipState {
        GossipState {
            connected: peer_set(self.connected_peers@),
            last_report: self.last_status_report,
        }
    }
}

/// The peers that an event leaves connected.
pub open spec fn connected_after(connected: Set<Seq<u8>>, event: NetworkEvent) -> Set<Seq<u8>> {
    match event {
        NetworkEvent::NotificationStreamOpened { peer } => connected.insert(peer@),
        NetworkEvent::NotificationStreamClosed { peer } => connected.remove(peer@),
        _ => connected,
    }
}

/// What is done about an event.
pub open spec fn outcome_of(event: NetworkEvent) -> EventOutcome {
    match event {
        NetworkEvent::ValidateInboundSubstream { .. } => EventOutcome::Accept,
        NetworkEvent::NotificationReceived { peer, notification } => EventOutcome::Message {
            notification,
            peer,
        },
        _ => EventOutcome::Ignore,
    }
}

impl ProtocolNetwork {
    /// Whether no peer is listed twice.
    pub closed spec fn wf(&self) -> bool {
        distinct(self.connected_peers@)
    }

    /// A network without connected peers, made at time `now`.
    pub fn new(now: Instant) -> (network: Self)
        ensures
            network.wf(),
            network@ == (GossipState { connected: Set::empty(), last_report: now }),
    {
        let network = ProtocolNetwork { connected_peers: Vec::new(), last_status_report: now };
        proof {
            assert(network@.connected =~= Set::empty());
        }
        network
    }

    /// Handles an event of the network service: keeps track of who is connected,
    /// accepts every stream and hands on what was sent.
    pub fn handle_network_event(&mut self, event: NetworkEvent) -> (outcome: EventOutcome)
        requires
            old(self).wf(),
        ensures
            final(self).wf(),
            final(self)@ == (GossipState {
                connected: connected_after(old(self)@.connected, event),
                ..old(self)@
            }),
            outcome == outcome_of(event),
    {
        match event {
            NetworkEvent::ValidateInboundSubstream { peer: _ } => EventOutcome::Accept,
            NetworkEvent::NotificationStreamOpened { peer } => {
                let ghost before = self.connected_peers@;
                let known = position(&self.connected_peers, &peer);
                if known.is_none() {
                    self.connected_peers.push(peer);
                    proof {
                        let after = self.connected_peers@;
                        assert forall|bytes: Seq<u8>| peer_set(before).insert(
                            peer@,
                        ).contains(bytes) implies #[trigger] peer_set(after).contains(bytes) by {
                            if bytes == peer@ {
                                assert(after[before.len() as int]@ == bytes);
                            } else {
                                let i = choose|i: int|
                                    0 <= i < before.len() && (#[trigger] before[i])@ == bytes;
                                assert(after[i]@ == bytes);
                            }
                        }
                        assert forall|bytes: Seq<u8>| #[trigger]
                            peer_set(after).contains(bytes) implies peer_set(before).insert(
                            peer@,
                        ).contains(bytes) by {
                            let i = choose|i: int|
                                0 <= i < after.len() && (#[trigger] after[i])@ == bytes;
                            if i < before.len() {
                                assert(before[i]@ == bytes);
                            }
                        }
                        assert(distinct(after)) by {
                            assert forall|i: int, j: int| 0 <= i < j < after.len() implies (
                            #[trigger] after[i])@ != (#[trigger] after[j])@ by {
                                if j < before.len() {
                                    assert(before[i]@ != before[j]@);
                                } else {
                                    assert(before[i]@ == after[i]@);
                                }
                            }
                        }
                    }
                }
                proof {
                    assert(self@.connected =~= old(self)@.connected.insert(peer@));
                }
                EventOutcome::Ignore
            },
            NetworkEvent::NotificationStreamClosed { peer } => {
                let ghost before = self.connected_peers@;
                let known = position(&self.connected_peers, &peer);
                match known {
                    Some(at) => {
                        let _ = self.connected_peers.remove(at);
                        proof {
                            let after = self.connected_peers@;
                            assert forall|bytes: Seq<u8>| peer_set(before).remove(
                                peer@,
                            ).contains(bytes) implies #[trigger] peer_set(after).contains(
                                bytes,
                            ) by {
                                let i = choose|i: int|
                                    0 <= i < before.len() && (#[trigger] before[i])@ == bytes;
                                if i < at {
                                    assert(after[i]@ == bytes);
                                } else {
                                    assert(after[i - 1]@ == bytes);
                                }
                            }
                            assert forall|bytes: Seq<u8>| #[trigger]
                                peer_set(after).contains(bytes) implies peer_set(before).remove(
                                peer@,
                            ).contains(bytes) by {
                                let i = choose|i: int|
                                    0 <= i < after.len() && (#[trigger] after[i])@ == bytes;
                                let j = if i < at {
                                    i
                                } else {
                                    i + 1
                                };
                                assert(before[j]@ == bytes);
                                if j < at {
                                    assert(before[j]@ != before[at as int]@);
                                } else {
                                    assert(before[at as int]@ != before[j]@);
                                }
                            }
                            assert forall|i: int, j: int| 0 <= i < j < after.len() implies (
                            #[trigger] after[i])@ != (#[trigger] after[j])@ by {
                                let oi = if i < at {
                                    i
                                } else {
                                    i + 1
                                };
                                let oj = if j < at {
                                    j
                                } else {
                                    j + 1
                                };
                                assert(before[oi]@ != before[oj]@);
                            }
                        }
                    },
                    None => {},
                }
                proof {
                    assert(self@.connected =~= old(self)@.connected.remove(peer@));
                }
                EventOutcome::Ignore
            },
            NetworkEvent::NotificationReceived { peer, notification } => EventOutcome::Message {
                notification,
                peer,
            },
        }
    }

    /// Handles what the network service yields: an event, or the end of its
    /// stream.
    pub fn on_event(&mut self, maybe_event: Option<NetworkEvent>) -> (outcome: Result<
        EventOutcome,
        ProtocolNetworkError,
    >)
        requires
            old(self).wf(),
        ensures
            final(self).wf(),
            match maybe_event {
                None => outcome == Err::<EventOutcome, _>(
                    ProtocolNetworkError::NetworkStreamTerminated,
                ) && *final(self) == *old(self),
                Some(event) => outcome == Ok::<_, ProtocolNetworkError>(outcome_of(event)) && final(self)@ == (GossipState {
                    connected: connected_after(old(self)@.connected, event),
                    ..old(self)@
                }),
            },
    {
        match maybe_event {
            None => Err(ProtocolNetworkError::NetworkStreamTerminated),
            Some(event) => Ok(self.handle_network_event(event)),
        }
    }

    fn connected_among(&self, peer_ids: &Vec<PeerId>) -> (connected: Vec<PeerId>)
        ensures
            peer_set(connected@) == peer_set(peer_ids@).intersect(self@.connected),
    {
        let mut connected: Vec<PeerId> = Vec::new();
        let mut i: usize = 0;
        while i < peer_ids.len()
            invariant
                i <= peer_ids@.len(),
                forall|j: int|
                    0 <= j < connected@.len() ==> peer_set(peer_ids@).contains(
                        (#[trigger] connected@[j])@,
                    ) && self@.connected.contains(connected@[j]@),
                forall|j: int|
                    #![trigger peer_ids@[j]]
                    0 <= j < i && self@.connected.contains(peer_ids@[j]@) ==> peer_set(
                        connected@,
                    ).contains(peer_ids@[j]@),
            decreases peer_ids@.len() - i,
        {
            let ghost before = connected@;
            if position(&self.connected_peers, &peer_ids[i]).is_some() {
                connected.push(peer_ids[i].clone());
                proof {
                    assert(connected@[before.len() as int]@ == peer_ids@[i as int]@);
                    assert forall|j: int|
                        #![trigger peer_ids@[j]]
                        0 <= j < i + 1 && self@.connected.contains(
                            peer_ids@[j]@,
                        ) implies peer_set(connected@).contains(peer_ids@[j]@) by {
                        if j < i {
                            let k = choose|k: int|
                                0 <= k < before.len() && (#[trigger] before[k])@ == peer_ids@[j]@;
                            assert(connected@[k]@ == peer_ids@[j]@);
                        }
                    }
                }
            }
            i = i + 1;
        }
        proof {
            assert forall|bytes: Seq<u8>| peer_set(peer_ids@).intersect(
                self@.connected,
            ).contains(bytes) implies #[trigger] peer_set(connected@).contains(bytes) by {
                let j = choose|j: int|
                    0 <= j < peer_ids@.len() && (#[trigger] peer_ids@[j])@ == bytes;
                assert(self@.connected.contains(peer_ids@[j]@));
            }
            assert(peer_set(connected@) =~= peer_set(peer_ids@).intersect(self@.connected));
        }
        connected
    }

    /// The peers that data for a random peer may be sent to: those of the given
    /// peers that are connected, and where there is none of these, all that are
    /// connected.
    pub fn candidates(&self, peer_ids: &Vec<PeerId>) -> (candidates: Vec<PeerId>)
        requires
            self.wf(),
        ensures
            peer_set(candidates@) == self@.candidates(peer_set(peer_ids@)),
            candidates@.len() == 0 <==> self@.connected == Set::<Seq<u8>>::empty(),
    {
        let given = self.connected_among(peer_ids);
        let candidates = if given.len() > 0 {
            proof {
                assert(peer_set(given@).contains(given@[0]@));
            }
            given
        } else {
            proof {
                assert(peer_set(given@) =~= Set::<Seq<u8>>::empty());
            }
            self.broadcast()
        };
        proof {
            if candidates@.len() > 0 {
                assert(peer_set(candidates@).contains(candidates@[0]@));
            } else {
                assert(peer_set(candidates@) =~= Set::<Seq<u8>>::empty());
            }
        }
        candidates
    }

    /// Picks a peer at random among the candidates. There is none only where no
    /// peer is connected.
    pub fn random_peer(&self, peer_ids: &Vec<PeerId>) -> (peer: Option<PeerId>)
        requires
            self.wf(),
        ensures
            peer is None <==> self@.connected == Set::<Seq<u8>>::empty(),
            peer matches Some(p) ==> self@.candidates(peer_set(peer_ids@)).contains(p@),
    {
        let candidates = self.candidates(peer_ids);
        match choose_below(candidates.len()) {
            Some(i) => {
                proof {
                    assert(peer_set(candidates@).contains(candidates@[i as int]@));
                }
                Some(candidates[i].clone())
            },
            None => None,
        }
    }

    /// Whom data that is broadcast is sent to: every connected peer, once.
    pub fn broadcast(&self) -> (recipients: Vec<PeerId>)
        requires
            self.wf(),
        ensures
            peer_set(recipients@) == self@.connected,
            distinct(recipients@),
            forall|i: int, j: int|
                0 <= i < j < recipients@.len() ==> (#[trigger] recipients@[i])@ != (
                #[trigger] recipients@[j])@,
    {
        let mut recipients: Vec<PeerId> = Vec::new();
        let mut i: usize = 0;
        while i < self.connected_peers.len()
            invariant
                i <= self.connected_peers@.len(),
                recipients@.len() == i,
                forall|j: int|
                    0 <= j < i ==> (#[trigger] recipients@[j])@ == self.connected_peers@[j]@,
            decreases self.connected_peers@.len() - i,
        {
            recipients.push(self.connected_peers[i].clone());
            i = i + 1;
        }
        proof {
            let peers = self.connected_peers@;
            assert forall|bytes: Seq<u8>| #[trigger]
                peer_set(peers).contains(bytes) implies peer_set(recipients@).contains(bytes) by {
                let j = choose|j: int| 0 <= j < peers.len() && (#[trigger] peers[j])@ == bytes;
                assert(recipients@[j]@ == bytes);
            }
            assert forall|bytes: Seq<u8>| #[trigger]
                peer_set(recipients@).contains(bytes) implies peer_set(peers).contains(bytes) by {
                let j = choose|j: int|
                    0 <= j < recipients@.len() && (#[trigger] recipients@[j])@ == bytes;
                assert(peers[j]@ == bytes);
            }
            assert(peer_set(recipients@) =~= self@.connected);
            assert forall|i: int, j: int| 0 <= i < j < recipients@.len() implies (
            #[trigger] recipients@[i])@ != (#[trigger] recipients@[j])@ by {
                assert(peers[i]@ != peers[j]@);
            }
        }
        recipients
    }

    /// When the next report is due: the interval after the last one, or now where
    /// that cannot be reckoned.
    pub fn next_status_report(&self, interval_nanos: u128, now: Instant) -> (due: Instant)
        ensures
            due.nanos == if self@.last_report.nanos + interval_nanos <= u128::MAX {
                self@.last_report.nanos + interval_nanos
            } else {
                now.nanos as int
            },
    {
        match self.last_status_report.nanos.checked_add(interval_nanos) {
            Some(nanos) => Instant { nanos },
            None => now,
        }
    }

    /// Reports how many peers are connected, at time `now`.
    pub fn status_report(&mut self, protocol: &str, now: Instant) -> (report: String)
        requires
            old(self).wf(),
        ensures
            final(self).wf(),
            final(self)@ == (GossipState { last_report: now, ..old(self)@ }),
            old(self)@.connected.finite(),
            report@ == report_text(protocol@, old(self)@.connected.len()),
            report@ == "Network status report: "@ + protocol@ + " connected peers - "@ + digits(
                old(self)@.connected.len(),
            ) + "; "@,
    {
        let count: usize = self.connected_peers.len();
        let mut report = String::new();
        report.append("Network status report: ");
        report.append(protocol);
        report.append(" connected peers - ");
        append_digits(&mut report, count as u64);
        report.append("; ");
        proof {
            assert(report@ =~= report_text(protocol@, count as nat));
            lemma_distinct_peers_count(self.connected_peers@);
        }
        self.last_status_report = now;
        report
    }
}

proof fn lemma_distinct_peers_count(peers: Seq<PeerId>)
    requires
        distinct(peers),
    ensures
        peer_set(peers).finite(),
        peer_set(peers).len() == peers.len(),
{
    let bytes = peers.map_values(|peer: PeerId| peer@);
    assert(bytes.no_duplicates()) by {
        assert forall|i: int, j: int| 0 <= i < bytes.len() && 0 <= j < bytes.len() && i != j implies bytes[i] != bytes[j] by {
            if i < j {
                assert(peers[i]@ != peers[j]@);
            } else {
                assert(peers[j]@ != peers[i]@);
            }
        }
    }
    bytes.unique_seq_to_set();
    vstd::seq_lib::seq_to_set_is_finite(bytes);
    assert forall|b: Seq<u8>| #[trigger] bytes.to_set().contains(b) implies peer_set(peers).contains(b) by {
        let i = choose|i: int| 0 <= i < bytes.len() && bytes[i] == b;
        assert(peers[i]@ == b);
    }
    assert forall|b: Seq<u8>| #[trigger] peer_set(peers).contains(b) implies bytes.to_set().contains(b) by {
        let i = choose|i: int| 0 <= i < peers.len() && (#[trigger] peers[i])@ == b;
        assert(bytes[i] == b);
    }
    assert(peer_set(peers) =~= bytes.to_set());
}

/// How a report on connected peers is put into words.
pub open spec fn report_text(protocol: Seq<char>, count: nat) -> Seq<char> {
    "Network status report: "@ + protocol + " connected peers - "@ + digits(count) + "; "@
}

/// A peer counts as connected from the event that it is, to the event that it is
/// no longer, whatever else happens meanwhile to other peers.
pub proof fn connected_until_closed(
    connected: Set<Seq<u8>>,
    opened: PeerId,
    other: NetworkEvent,
    closed: PeerId,
)
    requires
        opened@ == closed@,
        other matches NetworkEvent::NotificationStreamClosed { peer } ==> peer@ != opened@,
    ensures
        ({
            let after_open = connected_after(
                connected,
                NetworkEvent::NotificationStreamOpened { peer: opened },
            );
            let after_other = connected_after(after_open, other);
            &&& after_open.contains(opened@)
            &&& after_other.contains(opened@)
            &&& !connected_after(
                after_other,
                NetworkEvent::NotificationStreamClosed { peer: closed },
            ).contains(opened@)
        }),
{
}

/// Who is connected changes only by streams that are opened or closed, and only
/// for the peer whose stream it is: an opened one connects it, a closed one does
/// the contrary, and nothing that happens to one peer concerns another.
pub proof fn events_concern_their_peer_only(
    connected: Set<Seq<u8>>,
    peer: PeerId,
    notification: Vec<u8>,
    other: Seq<u8>,
)
    ensures
        connected_after(
            connected,
            NetworkEvent::NotificationStreamOpened { peer },
        ).contains(other) <==> connected.contains(other) || other == peer@,
        connected_after(
            connected,
            NetworkEvent::NotificationStreamClosed { peer },
        ).contains(other) <==> connected.contains(other) && other != peer@,
        connected_after(
            connected,
            NetworkEvent::NotificationReceived { peer, notification },
        ).contains(other) <==> connected.contains(other),
        connected_after(
            connected,
            NetworkEvent::ValidateInboundSubstream { peer },
        ).contains(other) <==> connected.contains(other),
{
}

/// Every stream is accepted, what a peer sent is handed on as it is with who sent
/// it, and of everything else nothing comes.
pub proof fn messages_are_handed_on_with_their_sender(peer: PeerId, notification: Vec<u8>)
    ensures
        outcome_of(NetworkEvent::ValidateInboundSubstream { peer }) == EventOutcome::Accept,
        outcome_of(NetworkEvent::NotificationReceived { peer, notification }) == (
        EventOutcome::Message { notification, peer }),
        outcome_of(NetworkEvent::NotificationStreamOpened { peer }) == EventOutcome::Ignore,
        outcome_of(NetworkEvent::NotificationStreamClosed { peer }) == EventOutcome::Ignore,
{
}

/// Data for a random one of the given peers goes to a given one that is connected
/// as long as there is any, otherwise to any that is connected, and never to
/// anybody else.
pub proof fn random_data_goes_to_connected_peers(
    state: GossipState,
    given: Set<Seq<u8>>,
    candidate: Seq<u8>,
    connected_given: Seq<u8>,
)
    ensures
        state.candidates(given).contains(candidate) ==> state.connected.contains(candidate),
        given.contains(connected_given) && state.connected.contains(connected_given) ==> (
        state.candidates(given).contains(candidate) <==> given.contains(candidate)
            && state.connected.contains(candidate)),
        (forall|peer: Seq<u8>| #[trigger] given.contains(peer) ==> !state.connected.contains(peer))
            ==> (state.candidates(given).contains(candidate) <==> state.connected.contains(
            candidate,
        )),
{
    if given.contains(connected_given) && state.connected.contains(connected_given) {
        assert(given.intersect(state.connected).contains(connected_given));
    }
    if forall|peer: Seq<u8>| #[trigger] given.contains(peer) ==> !state.connected.contains(peer) {
        assert(given.intersect(state.connected) =~= Set::<Seq<u8>>::empty());
    }
}

/// The peers of a list are those that are in it.
pub proof fn listed_peers_are_in_the_set(peers: Seq<PeerId>, i: int, unlisted: Seq<u8>)
    requires
        0 <= i < peers.len(),
        forall|j: int| 0 <= j < peers.len() ==> (#[trigger] peers[j])@ != unlisted,
    ensures
        peer_set(peers).contains(peers[i]@),
        !peer_set(peers).contains(unlisted),
{
}

/// Where no peer occurs twice in a list, any two are different, and as many are in
/// it as it is long.
pub proof fn distinct_peers_are_as_many_as_listed(peers: Seq<PeerId>, i: int, j: int)
    requires
        distinct(peers),
        0 <= i < peers.len(),
        0 <= j < peers.len(),
        i != j,
    ensures
        peers[i]@ != peers[j]@,
        peer_set(peers).finite(),
        peer_set(peers).len() == peers.len(),
{
    lemma_distinct_peers_count(peers);
    if i < j {
        assert(peers[i]@ != peers[j]@);
    } else {
        assert(peers[j]@ != peers[i]@);
    }
}

} // verus!
