//! Starting everything that is necessary to run the network between nodes.

use vstd::prelude::*;

use crate::rate_limiter::limiter::{DefaultSharedRateLimiter, RateLimiterFacade};

verus! {

/// How fast each part of the network may be.
#[derive(Clone, Copy, Debug, PartialEq, Eq, Structural)]
pub struct RateLimiterConfig {
    /// Maximum bit-rate in bytes per second of the alephbft validator network.
    pub alephbft_bit_rate_per_connection: usize,
    /// Maximum bit-rate per node in bytes per second of the substrate network
    /// (shared by sync, gossip, etc.).
    pub substrate_bit_rate_per_connection: usize,
}

/// How fast the substrate network may be.
#[derive(Clone, Copy, Debug, PartialEq, Eq, Structural)]
pub struct SubstrateNetworkConfig {
    /// Maximum bit-rate per node in bytes per second of the substrate network
    /// (shared by sync, gossip, etc.).
    pub substrate_bit_rate_per_connection: usize,
}

impl From<RateLimiterConfig> for SubstrateNetworkConfig {
    fn from(value: RateLimiterConfig) -> (config: Self) {
        SubstrateNetworkConfig {
            substrate_bit_rate_per_connection: value.substrate_bit_rate_per_connection,
        }
    }
}

impl vstd::std_specs::convert::FromSpecImpl<RateLimiterConfig> for SubstrateNetworkConfig {
    open spec fn obeys_from_spec() -> bool {
        true
    }

    open spec fn from_spec(value: RateLimiterConfig) -> Self {
        SubstrateNetworkConfig {
            substrate_bit_rate_per_connection: value.substrate_bit_rate_per_connection,
        }
    }
}

/// A part of the network that is started.
#[derive(Debug, PartialEq, Eq)]
pub enum NetworkPart {
    /// The configuration of the base protocol, for the genesis block.
    BaseProtocol { genesis_hash: [u8; 32] },
    /// The transport, the network service and the own protocols, with the rate of
    /// each connection. This can fail.
    BaseNetwork { rate_per_connection: usize },
    /// The service of the base protocol, which is told the genesis block and the
    /// names of the own protocols.
    BaseProtocolService { genesis_hash: [u8; 32], protocol_names: Vec<String> },
    /// The handler of transactions. This can fail.
    TransactionHandler,
    /// The service of remote procedure calls.
    RpcService,
}

/// What a part is.
pub enum PartView {
    BaseProtocol { genesis_hash: [u8; 32] },
    BaseNetwork { rate_per_connection: usize },
    BaseProtocolService { genesis_hash: [u8; 32], protocol_names: Seq<Seq<char>> },
    TransactionHandler,
    RpcService,
}

/// The texts of a list.
pub open spec fn texts(list: Seq<String>) -> Seq<Seq<char>> {
    list.map_values(|text: String| text@)
}

impl View for NetworkPart {
    type V = PartView;

    open spec fn view(&self) -> PartView {
        match *self {
            NetworkPart::BaseProtocol { genesis_hash } => PartView::BaseProtocol { genesis_hash },
            NetworkPart::BaseNetwork { rate_per_connection } => PartView::BaseNetwork {
                rate_per_connection,
            },
            NetworkPart::BaseProtocolService { genesis_hash, protocol_names } =>
                PartView::BaseProtocolService {
                    genesis_hash,
                    protocol_names: texts(protocol_names@),
                },
            NetworkPart::TransactionHandler => PartView::TransactionHandler,
            NetworkPart::RpcService => PartView::RpcService,
        }
    }
}

/// What starting a part came to.
#[derive(Debug)]
pub enum StartOutcome<E> {
    /// It runs.
    Started,
    /// The base network runs, and its own protocols have these names.
    NetworkStarted { authentication: String, block_sync: String },
    /// It failed.
    Failed(E),
}

/// How many parts the network has.
pub const NETWORK_PARTS: usize = 5;

/// What starting the network is: how many of its parts run, the names of the
/// protocols of authentication and of block synchronization, once they are known,
/// and why starting the next part failed, if it did.
#[verifier::ext_equal]
pub struct StartState<E> {
    pub config: SubstrateNetworkConfig,
    pub genesis_hash: [u8; 32],
    pub started: nat,
    pub names: Seq<Seq<char>>,
    pub failure: Option<E>,
}

impl<E> StartState<E> {
    /// The parts of the network in the order in which they are started.
    pub open spec fn parts(self) -> Seq<PartView> {
        seq![
            PartView::BaseProtocol { genesis_hash: self.genesis_hash },
            PartView::BaseNetwork {
                rate_per_connection: self.config.substrate_bit_rate_per_connection,
            },
            PartView::BaseProtocolService {
                genesis_hash: self.genesis_hash,
                protocol_names: self.names,
            },
            PartView::TransactionHandler,
            PartView::RpcService,
        ]
    }

    /// No more parts run than there are, and only a part that can fail failed.
    pub open spec fn valid(self) -> bool {
        &&& self.started <= NETWORK_PARTS
        &&& self.failure is Some ==> self.started < NETWORK_PARTS && self.can_fail()
    }

    /// Whether starting the next part can fail.
    pub open spec fn can_fail(self) -> bool {
        self.parts()[self.started as int] is BaseNetwork || self.parts()[self.started as int]
            is TransactionHandler
    }

    /// Whether every part runs.
    pub open spec fn is_complete(self) -> bool {
        self.failure is None && self.started == NETWORK_PARTS
    }

    /// The part to start next, if there is one.
    pub open spec fn next_part(self) -> Option<PartView> {
        if self.failure is None && self.started < NETWORK_PARTS {
            Some(self.parts()[self.started as int])
        } else {
            None
        }
    }

    /// Whether the outcome is one that starting the next part can have.
    pub open spec fn expects(self, outcome: StartOutcome<E>) -> bool {
        &&& self.next_part() is Some
        &&& match outcome {
            StartOutcome::Started => !(self.next_part()->0 is BaseNetwork),
            StartOutcome::NetworkStarted { .. } => self.next_part()->0 is BaseNetwork,
            StartOutcome::Failed(_) => self.can_fail(),
        }
    }

    /// What the outcome leads to.
    pub open spec fn after(self, outcome: StartOutcome<E>) -> Self {
        match outcome {
            StartOutcome::Started => StartState { started: self.started + 1, ..self },
            StartOutcome::NetworkStarted { authentication, block_sync } => StartState {
                started: self.started + 1,
                names: seq![authentication@, block_sync@],
                ..self
            },
            StartOutcome::Failed(error) => StartState { failure: Some(error), ..self },
        }
    }
}

/// What is done next to start the network.
#[derive(Debug, PartialEq, Eq)]
pub enum StartStep {
    /// Start this part.
    Start(NetworkPart),
    /// Nothing: everything runs.
    Complete,
    /// Nothing: starting a part failed.
    Abort,
}

/// The start of the network. The first part that fails ends it.
#[derive(Debug)]
pub struct NetworkStart<E> {
    config: SubstrateNetworkConfig,
    genesis_hash: [u8; 32],
    started: usize,
    names: Vec<String>,
    failure: Option<E>,
}

impl<E> View for NetworkStart<E> {
    type V = StartState<E>;

    closed spec fn view(&self) -> StartState<E> {
        StartState {
            config: self.config,
            genesis_hash: self.genesis_hash,
            started: self.started as nat,
            names: texts(self.names@),
            failure: self.failure,
        }
    }
}

fn copy_texts(list: &Vec<String>) -> (copy: Vec<String>)
    ensures
        texts(copy@) == texts(list@),
{
    let mut copy: Vec<String> = Vec::new();
    let mut i: usize = 0;
    while i < list.len()
        invariant
            i <= list@.len(),
            copy@.len() == i,
            forall|j: int| 0 <= j < i ==> (#[trigger] copy@[j])@ == list@[j]@,
        decreases list@.len() - i,
    {
        copy.push(list[i].clone());
        i = i + 1;
    }
    proof {
        assert(texts(copy@) =~= texts(list@));
    }
    copy
}

impl<E> NetworkStart<E> {
    /// What is done next.
    pub fn step(&self) -> (step: StartStep)
        requires
            self@.valid(),
        ensures
            match step {
                StartStep::Start(part) => self@.next_part() == Some(part@),
                StartStep::Complete => self@.is_complete(),
                StartStep::Abort => self@.failure is Some,
            },
    {
        if self.failure.is_some() {
            return StartStep::Abort;
        }
        if self.started == 0 {
            StartStep::Start(NetworkPart::BaseProtocol { genesis_hash: self.genesis_hash })
        } else if self.started == 1 {
            StartStep::Start(
                NetworkPart::BaseNetwork {
                    rate_per_connection: self.config.substrate_bit_rate_per_connection,
                },
            )
        } else if self.started == 2 {
            StartStep::Start(
                NetworkPart::BaseProtocolService {
                    genesis_hash: self.genesis_hash,
                    protocol_names: copy_texts(&self.names),
                },
            )
        } else if self.started == 3 {
            StartStep::Start(NetworkPart::TransactionHandler)
        } else if self.started == 4 {
            StartStep::Start(NetworkPart::RpcService)
        } else {
            StartStep::Complete
        }
    }

    /// Goes on with what starting the next part came to. A failure ends the start.
    pub fn on_outcome(&mut self, outcome: StartOutcome<E>)
        requires
            old(self)@.valid(),
            old(self)@.expects(outcome),
        ensures
            final(self)@.valid(),
            final(self)@ == old(self)@.after(outcome),
    {
        match outcome {
            StartOutcome::Started => {
                self.started = self.started + 1;
            },
            StartOutcome::NetworkStarted { authentication, block_sync } => {
                let ghost expected = seq![authentication@, block_sync@];
                let mut names: Vec<String> = Vec::new();
                names.push(authentication);
                names.push(block_sync);
                proof {
                    assert(texts(names@) =~= expected);
                }
                self.names = names;
                self.started = self.started + 1;
            },
            StartOutcome::Failed(error) => {
                self.failure = Some(error);
            },
        }
    }

    /// What the start came to, once it is over: success where every part runs,
    /// otherwise the error of the part that failed.
    pub fn result(self) -> (result: Result<(), E>)
        requires
            self@.is_complete() || self@.failure is Some,
        ensures
            result == match self@.failure {
                None => Ok(()),
                Some(error) => Err(error),
            },
    {
        match self.failure {
            None => Ok(()),
            Some(error) => Err(error),
        }
    }
}

/// Begins to start everything necessary to run the network between nodes: the
/// base network, the base protocol service, and services for handling
/// transactions and remote procedure calls.
pub fn network<E>(transport_config: SubstrateNetworkConfig, genesis_hash: [u8; 32]) -> (start:
    NetworkStart<E>)
    ensures
        start@.valid(),
        start@ == (StartState::<E> {
            config: transport_config,
            genesis_hash,
            started: 0,
            names: Seq::empty(),
            failure: None,
        }),
{
    let start = NetworkStart {
        config: transport_config,
        genesis_hash,
        started: 0,
        names: Vec::new(),
        failure: None,
    };
    proof {
        assert(start@.names =~= Seq::empty());
    }
    start
}

/// The state of a start after a sequence of outcomes.
pub open spec fn start_after<E>(state: StartState<E>, outcomes: Seq<StartOutcome<E>>) -> StartState<E>
    decreases outcomes.len(),
{
    if outcomes.len() == 0 {
        state
    } else {
        start_after(state, outcomes.drop_last()).after(outcomes.last())
    }
}

/// Whether each outcome is one that starting the part before it can have.
pub open spec fn start_expects<E>(state: StartState<E>, outcomes: Seq<StartOutcome<E>>) -> bool
    decreases outcomes.len(),
{
    outcomes.len() > 0 ==> {
        &&& start_expects(state, outcomes.drop_last())
        &&& start_after(state, outcomes.drop_last()).expects(outcomes.last())
    }
}

/// The network is complete only once each of its parts was started and none
/// failed; a failure is the last thing that happens.
pub proof fn networks_complete_only_when_all_start<E>(
    initial: StartState<E>,
    outcomes: Seq<StartOutcome<E>>,
)
    requires
        initial.started == 0,
        initial.failure is None,
        start_expects(initial, outcomes),
    ensures
        ({
            let state = start_after(initial, outcomes);
            &&& state.valid()
            &&& state.failure is None ==> outcomes.len() == state.started && forall|i: int|
                0 <= i < outcomes.len() ==> !((#[trigger] outcomes[i]) is Failed)
            &&& state.failure is Some ==> outcomes.len() == state.started + 1
            &&& state.is_complete() ==> outcomes.len() == NETWORK_PARTS
        }),
    decreases outcomes.len(),
{
    if outcomes.len() > 0 {
        let before = outcomes.drop_last();
        networks_complete_only_when_all_start(initial, before);
        assert forall|i: int|
            start_after(initial, outcomes).failure is None && 0 <= i < outcomes.len() implies !((
        #[trigger] outcomes[i]) is Failed) by {
            if i < before.len() {
                assert(before[i] == outcomes[i]);
            }
        }
    }
}

/// A connection that carries many streams, all of which share one bandwidth.
#[derive(Debug)]
pub struct RateLimitedStreamMuxer<SM> {
    pub rate_limiter: DefaultSharedRateLimiter,
    pub stream_muxer: SM,
}

impl<SM> RateLimitedStreamMuxer<SM> {
    /// The connection, with the limiter that its streams share.
    pub fn new(stream_muxer: SM, rate_limiter: DefaultSharedRateLimiter) -> (muxer: Self)
        ensures
            muxer.rate_limiter == rate_limiter,
            muxer.stream_muxer == stream_muxer,
    {
        RateLimitedStreamMuxer { rate_limiter, stream_muxer }
    }

    /// The limiter of a further stream of the connection, inbound or outbound: it
    /// shares the bandwidth, and is not active.
    pub fn share(&self) -> (limiter: DefaultSharedRateLimiter)
        ensures
            match self.rate_limiter {
                RateLimiterFacade::NoTraffic => limiter is NoTraffic,
                RateLimiterFacade::RateLimiter(bucket) => limiter matches
                    RateLimiterFacade::RateLimiter(shared) && shared@ == (
                crate::rate_limiter::hierarchical::HierarchicalState {
                    shared: bucket@.shared.idle(),
                    ..bucket@
                }),
            },
    {
        match &self.rate_limiter {
            RateLimiterFacade::NoTraffic => RateLimiterFacade::NoTraffic,
            RateLimiterFacade::RateLimiter(bucket) => RateLimiterFacade::RateLimiter(
                bucket.clone(),
            ),
        }
    }
}

/// The parts are started in order: the base protocol for the genesis block, the
/// base network at the configured rate, the service of the base protocol with the
/// genesis block and the names that the base network gave, the handler of
/// transactions, and the service of remote procedure calls.
pub proof fn parts_start_in_order<E>(state: StartState<E>)
    requires
        state.failure is None,
    ensures
        state.started == 0 ==> state.next_part() == Some(
            PartView::BaseProtocol { genesis_hash: state.genesis_hash },
        ),
        state.started == 1 ==> state.next_part() == Some(
            PartView::BaseNetwork {
                rate_per_connection: state.config.substrate_bit_rate_per_connection,
            },
        ),
        state.started == 2 ==> state.next_part() == Some(
            PartView::BaseProtocolService {
                genesis_hash: state.genesis_hash,
                protocol_names: state.names,
            },
        ),
        state.started == 3 ==> state.next_part() == Some(PartView::TransactionHandler),
        state.started == 4 ==> state.next_part() == Some(PartView::RpcService),
        state.started >= 5 ==> state.next_part() is None,
        state.is_complete() <==> state.started == 5,
{
}

/// Each part that starts brings the next one; the base network brings the names of
/// its protocols, that of authentication before that of block synchronization. A
/// part that fails ends the start with its error.
pub proof fn each_part_brings_the_next<E>(
    state: StartState<E>,
    authentication: String,
    block_sync: String,
    error: E,
)
    ensures
        state.after(StartOutcome::Started) == (StartState {
            started: (state.started + 1) as nat,
            ..state
        }),
        ({
            let after = state.after(StartOutcome::NetworkStarted { authentication, block_sync });
            &&& after.started == state.started + 1
            &&& after.names == seq![authentication@, block_sync@]
            &&& after.failure == state.failure
            &&& after.genesis_hash == state.genesis_hash
            &&& after.config == state.config
        }),
        state.after(StartOutcome::Failed(error)).failure == Some(error),
        state.after(StartOutcome::Failed(error)).started == state.started,
        state.after(StartOutcome::Failed(error)).next_part() is None,
        !state.after(StartOutcome::Failed(error)).is_complete(),
{
}

/// What a part is, is all that it holds, and the configuration of the network keeps
/// the rate that was given for it.
pub proof fn parts_are_all_that_they_hold(part: NetworkPart, limits: RateLimiterConfig)
    ensures
        match part {
            NetworkPart::BaseProtocol { genesis_hash } => part@ == (PartView::BaseProtocol {
                genesis_hash,
            }),
            NetworkPart::BaseNetwork { rate_per_connection } => part@ == (PartView::BaseNetwork {
                rate_per_connection,
            }),
            NetworkPart::BaseProtocolService { genesis_hash, protocol_names } => part@ matches
                PartView::BaseProtocolService { genesis_hash: told, protocol_names: names } && told
                == genesis_hash && names.len() == protocol_names@.len() && forall|i: int|
                0 <= i < names.len() ==> #[trigger] names[i] == protocol_names@[i]@,
            NetworkPart::TransactionHandler => part@ is TransactionHandler,
            NetworkPart::RpcService => part@ is RpcService,
        },
        <SubstrateNetworkConfig as vstd::std_specs::convert::FromSpec<
            RateLimiterConfig,
        >>::from_spec(limits).substrate_bit_rate_per_connection
            == limits.substrate_bit_rate_per_connection,
{
}

/// Only the base network and the handler of transactions can fail to start, and
/// only the base network starts with names.
pub proof fn only_two_parts_can_fail<E>(
    state: StartState<E>,
    authentication: String,
    block_sync: String,
    error: E,
)
    requires
        state.failure is None,
    ensures
        state.expects(StartOutcome::Failed(error)) <==> state.started == 1 || state.started == 3,
        state.expects(StartOutcome::NetworkStarted { authentication, block_sync })
            <==> state.started == 1,
        state.expects(StartOutcome::Started) <==> state.started < 5 && state.started != 1,
{
}

} // verus!
