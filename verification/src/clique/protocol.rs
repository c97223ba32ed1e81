//! The protocol of a connection: a handshake, an authorization where the peer
//! connected to us, and then data both ways with heartbeats in between.

use vstd::prelude::*;

verus! {

/// After how many seconds without data a heartbeat is sent.
pub const HEARTBEAT_TIMEOUT_SECS: u64 = 5;

/// How many heartbeats may be missed in a row.
pub const MAX_MISSED_HEARTBEATS: u64 = 4;

/// After how many seconds without any message a connection counts as dead.
pub fn cardiac_arrest_secs() -> (secs: u64)
    ensures
        secs == MAX_MISSED_HEARTBEATS * HEARTBEAT_TIMEOUT_SECS,
        secs == 20,
{
    MAX_MISSED_HEARTBEATS * HEARTBEAT_TIMEOUT_SECS
}

/// What travels over a connection.
#[derive(Clone, Debug)]
pub enum Message<D> {
    Data(D),
    Heartbeat,
}

/// What can go wrong with a connection.
#[derive(Clone, Copy, Debug, PartialEq, Eq, Structural)]
pub enum ProtocolError {
    /// The handshake failed.
    HandshakeError,
    /// Sending failed.
    SendError,
    /// Receiving failed.
    ReceiveError,
    /// No message came for too long.
    CardiacArrest,
    /// The service that manages connections is gone.
    NoParentConnection,
    /// Whoever the data is for is gone.
    NoUserConnection,
    /// Whether the peer is authorized cannot be told.
    NotAuthorized,
}

/// What comes from the user within the time for a heartbeat.
#[derive(Debug)]
pub enum FromUser<D> {
    /// Data to be sent.
    Data(D),
    /// The parent service closed the connection.
    Closed,
    /// Nothing.
    Timeout,
}

/// What the sending side does next.
#[derive(Debug)]
pub enum SendStep<D> {
    /// It sends the message.
    Send(Message<D>),
    /// It is done, without an error.
    Finish,
}

/// What the sending side does with what comes from the user.
pub fn sending<D>(from_user: FromUser<D>) -> (step: SendStep<D>)
    ensures
        step == match from_user {
            FromUser::Data(data) => SendStep::Send(Message::Data(data)),
            FromUser::Closed => SendStep::Finish,
            FromUser::Timeout => SendStep::Send(Message::Heartbeat),
        },
{
    match from_user {
        FromUser::Data(data) => SendStep::Send(Message::Data(data)),
        // We have been closed by the parent service, all good.
        FromUser::Closed => SendStep::Finish,
        FromUser::Timeout => SendStep::Send(Message::Heartbeat),
    }
}

/// What comes from the network within the time for a cardiac arrest.
#[derive(Debug)]
pub enum FromNetwork<D> {
    Message(Message<D>),
    /// Receiving failed.
    Broken,
    /// Nothing.
    Timeout,
}

/// What the receiving side does next.
#[derive(Debug)]
pub enum ReceiveStep<D> {
    /// It hands the data to the user.
    Deliver(D),
    /// It waits for the next message.
    Wait,
    /// It is done, with an error.
    Fail(ProtocolError),
}

/// What the receiving side does with what comes from the network.
pub fn receiving<D>(from_network: FromNetwork<D>) -> (step: ReceiveStep<D>)
    ensures
        step == match from_network {
            FromNetwork::Message(Message::Data(data)) => ReceiveStep::Deliver(data),
            FromNetwork::Message(Message::Heartbeat) => ReceiveStep::Wait,
            FromNetwork::Broken => ReceiveStep::Fail(ProtocolError::ReceiveError),
            FromNetwork::Timeout => ReceiveStep::Fail(ProtocolError::CardiacArrest),
        },
{
    match from_network {
        FromNetwork::Message(Message::Data(data)) => ReceiveStep::Deliver(data),
        FromNetwork::Message(Message::Heartbeat) => ReceiveStep::Wait,
        FromNetwork::Broken => ReceiveStep::Fail(ProtocolError::ReceiveError),
        FromNetwork::Timeout => ReceiveStep::Fail(ProtocolError::CardiacArrest),
    }
}

/// How far a connection has come.
#[derive(Debug)]
pub enum Phase<PK> {
    /// We wait for the peer to extend its hand.
    AwaitHandshake,
    /// We extend our hand to this peer.
    ExtendHand(PK),
    /// The peer has to be authorized.
    Authorization(PK),
    /// The parent service has to be told of the connection.
    Announcement(PK),
    /// Data is sent and received.
    Running(PK),
    /// It is over.
    Finished(Result<(), ProtocolError>),
}

/// What happens to a connection.
#[derive(Debug)]
pub enum ConnectionEvent<PK> {
    /// A peer extended its hand, and the handshake succeeded.
    HandReceived(PK),
    /// The peer took our hand, and the handshake succeeded.
    HandTaken,
    /// The handshake failed.
    HandshakeFailed,
    /// The peer is authorized or not.
    Authorized(bool),
    /// Whether the peer is authorized cannot be told.
    AuthorizationFailed,
    /// The parent service was told.
    Announced,
    /// The parent service is gone.
    ParentGone,
    /// The user has nothing more to send: the parent service closed us.
    Closed,
    /// Sending failed.
    SendFailed,
    /// The user is gone.
    UserGone,
    /// Receiving failed, or no message came for too long.
    ReceivingFailed(ProtocolError),
}

/// The phase that an event leads to. An event that does not belong to the phase
/// changes nothing.
pub open spec fn next_phase<PK>(phase: Phase<PK>, event: ConnectionEvent<PK>) -> Phase<PK> {
    match (phase, event) {
        (Phase::AwaitHandshake, ConnectionEvent::HandReceived(peer)) => Phase::Authorization(peer),
        (Phase::ExtendHand(peer), ConnectionEvent::HandTaken) => Phase::Announcement(peer),
        (Phase::AwaitHandshake, ConnectionEvent::HandshakeFailed) => Phase::Finished(
            Err(ProtocolError::HandshakeError),
        ),
        (Phase::ExtendHand(_), ConnectionEvent::HandshakeFailed) => Phase::Finished(
            Err(ProtocolError::HandshakeError),
        ),
        (Phase::Authorization(peer), ConnectionEvent::Authorized(authorized)) => if authorized {
            Phase::Announcement(peer)
        } else {
            Phase::Finished(Ok(()))
        },
        (Phase::Authorization(_), ConnectionEvent::AuthorizationFailed) => Phase::Finished(
            Err(ProtocolError::NotAuthorized),
        ),
        (Phase::Announcement(peer), ConnectionEvent::Announced) => Phase::Running(peer),
        (Phase::Announcement(_), ConnectionEvent::ParentGone) => Phase::Finished(
            Err(ProtocolError::NoParentConnection),
        ),
        (Phase::Running(_), ConnectionEvent::Closed) => Phase::Finished(Ok(())),
        (Phase::Running(_), ConnectionEvent::SendFailed) => Phase::Finished(
            Err(ProtocolError::SendError),
        ),
        (Phase::Running(_), ConnectionEvent::UserGone) => Phase::Finished(
            Err(ProtocolError::NoUserConnection),
        ),
        (Phase::Running(_), ConnectionEvent::ReceivingFailed(error)) => Phase::Finished(Err(error)),
        _ => phase,
    }
}

/// A connection with a peer, from the handshake to its end.
#[derive(Debug)]
pub struct Connection<PK> {
    pub phase: Phase<PK>,
}

/// A connection that a peer began: its handshake comes first.
pub fn incoming<PK>() -> (connection: Connection<PK>)
    ensures
        connection.phase is AwaitHandshake,
{
    Connection { phase: Phase::AwaitHandshake }
}

/// A connection that we began with a peer: the handshake with it comes first.
pub fn outgoing<PK>(public_key: PK) -> (connection: Connection<PK>)
    ensures
        connection.phase == Phase::ExtendHand(public_key),
{
    Connection { phase: Phase::ExtendHand(public_key) }
}

impl<PK> Connection<PK> {
    /// Goes on with what happened.
    pub fn handle(self, event: ConnectionEvent<PK>) -> (next: Self)
        ensures
            next.phase == next_phase(self.phase, event),
    {
        let phase = match (self.phase, event) {
            (Phase::AwaitHandshake, ConnectionEvent::HandReceived(peer)) => Phase::Authorization(
                peer,
            ),
            (Phase::ExtendHand(peer), ConnectionEvent::HandTaken) => Phase::Announcement(peer),
            (Phase::AwaitHandshake, ConnectionEvent::HandshakeFailed) => Phase::Finished(
                Err(ProtocolError::HandshakeError),
            ),
            (Phase::ExtendHand(_), ConnectionEvent::HandshakeFailed) => Phase::Finished(
                Err(ProtocolError::HandshakeError),
            ),
            (Phase::Authorization(peer), ConnectionEvent::Authorized(authorized)) => if authorized {
                Phase::Announcement(peer)
            } else {
                Phase::Finished(Ok(()))
            },
            (Phase::Authorization(_), ConnectionEvent::AuthorizationFailed) => Phase::Finished(
                Err(ProtocolError::NotAuthorized),
            ),
            (Phase::Announcement(peer), ConnectionEvent::Announced) => Phase::Running(peer),
            (Phase::Announcement(_), ConnectionEvent::ParentGone) => Phase::Finished(
                Err(ProtocolError::NoParentConnection),
            ),
            (Phase::Running(_), ConnectionEvent::Closed) => Phase::Finished(Ok(())),
            (Phase::Running(_), ConnectionEvent::SendFailed) => Phase::Finished(
                Err(ProtocolError::SendError),
            ),
            (Phase::Running(_), ConnectionEvent::UserGone) => Phase::Finished(
                Err(ProtocolError::NoUserConnection),
            ),
            (Phase::Running(_), ConnectionEvent::ReceivingFailed(error)) => Phase::Finished(
                Err(error),
            ),
            (phase, _) => phase,
        };
        Connection { phase }
    }
}

/// The phase after a sequence of events.
pub open spec fn phase_after<PK>(first: Phase<PK>, events: Seq<ConnectionEvent<PK>>) -> Phase<PK>
    decreases events.len(),
{
    if events.len() == 0 {
        first
    } else {
        next_phase(phase_after(first, events.drop_last()), events.last())
    }
}

/// No data is sent to or received from a peer that connected to us unless it was
/// authorized.
pub proof fn no_data_without_authorization<PK>(events: Seq<ConnectionEvent<PK>>)
    requires
        phase_after(Phase::<PK>::AwaitHandshake, events) is Running || phase_after(
            Phase::<PK>::AwaitHandshake,
            events,
        ) is Announcement,
    ensures
        exists|i: int|
            0 <= i < events.len() && #[trigger] events[i] == ConnectionEvent::<PK>::Authorized(
                true,
            ),
    decreases events.len(),
{
    let before = events.drop_last();
    let phase = phase_after(Phase::<PK>::AwaitHandshake, before);
    lemma_no_hand_extended(before);
    if phase is Running || phase is Announcement {
        no_data_without_authorization(before);
        let i = choose|i: int|
            0 <= i < before.len() && #[trigger] before[i] == ConnectionEvent::<PK>::Authorized(
                true,
            );
        assert(events[i] == ConnectionEvent::<PK>::Authorized(true));
    } else {
        assert(events[events.len() - 1] == ConnectionEvent::<PK>::Authorized(true));
    }
}

proof fn lemma_no_hand_extended<PK>(events: Seq<ConnectionEvent<PK>>)
    ensures
        !(phase_after(Phase::<PK>::AwaitHandshake, events) is ExtendHand),
    decreases events.len(),
{
    if events.len() > 0 {
        lemma_no_hand_extended(events.drop_last());
    }
}

/// A connection that we began is announced, and run, only with the peer that we
/// called.
pub proof fn only_the_called_peer_is_announced<PK>(
    public_key: PK,
    events: Seq<ConnectionEvent<PK>>,
)
    ensures
        match phase_after(Phase::ExtendHand(public_key), events) {
            Phase::ExtendHand(peer) => peer == public_key,
            Phase::Announcement(peer) => peer == public_key,
            Phase::Running(peer) => peer == public_key,
            Phase::Finished(_) => true,
            _ => false,
        },
    decreases events.len(),
{
    if events.len() > 0 {
        only_the_called_peer_is_announced(public_key, events.drop_last());
    }
}

/// A connection that is over stays as it ended.
pub proof fn finished_connections_stay_finished<PK>(
    result: Result<(), ProtocolError>,
    event: ConnectionEvent<PK>,
)
    ensures
        next_phase(Phase::Finished(result), event) == Phase::<PK>::Finished(result),
{
}

/// A running connection survives no failure of either side: whatever goes wrong
/// with receiving ends it with that error, as do a failure to send and the loss of
/// the user with theirs. Only being closed by the parent service ends it well.
pub proof fn running_connections_end_with_every_failure<PK>(peer: PK, error: ProtocolError)
    ensures
        next_phase(Phase::Running(peer), ConnectionEvent::ReceivingFailed(error)) == Phase::<
            PK,
        >::Finished(Err(error)),
        next_phase(Phase::Running(peer), ConnectionEvent::SendFailed) == Phase::<PK>::Finished(
            Err(ProtocolError::SendError),
        ),
        next_phase(Phase::Running(peer), ConnectionEvent::UserGone) == Phase::<PK>::Finished(
            Err(ProtocolError::NoUserConnection),
        ),
        next_phase(Phase::Running(peer), ConnectionEvent::Closed) == Phase::<PK>::Finished(Ok(())),
{
}

/// A running connection goes on with its peer until it is closed or fails.
pub proof fn running_connections_run_until_they_end<PK>(peer: PK, event: ConnectionEvent<PK>)
    requires
        !(event is Closed),
        !(event is SendFailed),
        !(event is UserGone),
        !(event is ReceivingFailed),
    ensures
        next_phase(Phase::Running(peer), event) == Phase::Running(peer),
{
}

/// A peer that connected to us comes as far as its authorization by its handshake,
/// and is announced if and only if it is authorized; without that the connection
/// is over, with an error only where nobody could tell.
pub proof fn incoming_peers_have_to_be_authorized<PK>(peer: PK, event: ConnectionEvent<PK>)
    ensures
        next_phase(Phase::AwaitHandshake, ConnectionEvent::HandReceived(peer))
            == Phase::Authorization(peer),
        next_phase(Phase::<PK>::AwaitHandshake, ConnectionEvent::HandshakeFailed)
            == Phase::<PK>::Finished(Err(ProtocolError::HandshakeError)),
        !(event is HandReceived) && !(event is HandshakeFailed) ==> next_phase(
            Phase::AwaitHandshake,
            event,
        ) == Phase::<PK>::AwaitHandshake,
        next_phase(Phase::Authorization(peer), ConnectionEvent::Authorized(true))
            == Phase::Announcement(peer),
        next_phase(Phase::Authorization(peer), ConnectionEvent::Authorized(false)) == Phase::<
            PK,
        >::Finished(Ok(())),
        next_phase(Phase::Authorization(peer), ConnectionEvent::AuthorizationFailed) == Phase::<
            PK,
        >::Finished(Err(ProtocolError::NotAuthorized)),
        !(event is Authorized) && !(event is AuthorizationFailed) ==> next_phase(
            Phase::Authorization(peer),
            event,
        ) == Phase::Authorization(peer),
{
}

/// A peer that we called is announced once it took our hand, and any peer that is
/// announced runs from then on with the same peer, unless the parent service is
/// gone.
pub proof fn announced_peers_run<PK>(peer: PK, event: ConnectionEvent<PK>)
    ensures
        next_phase(Phase::ExtendHand(peer), ConnectionEvent::HandTaken) == Phase::Announcement(
            peer,
        ),
        next_phase(Phase::ExtendHand(peer), ConnectionEvent::HandshakeFailed) == Phase::<
            PK,
        >::Finished(Err(ProtocolError::HandshakeError)),
        !(event is HandTaken) && !(event is HandshakeFailed) ==> next_phase(
            Phase::ExtendHand(peer),
            event,
        ) == Phase::ExtendHand(peer),
        next_phase(Phase::Announcement(peer), ConnectionEvent::Announced) == Phase::Running(peer),
        next_phase(Phase::Announcement(peer), ConnectionEvent::ParentGone) == Phase::<
            PK,
        >::Finished(Err(ProtocolError::NoParentConnection)),
        !(event is Announced) && !(event is ParentGone) ==> next_phase(
            Phase::Announcement(peer),
            event,
        ) == Phase::Announcement(peer),
{
}

/// Whatever data the user of one side sends is delivered to the user of the other
/// side.
pub proof fn sent_data_is_delivered<D>(data: D, sent: SendStep<D>, received: ReceiveStep<D>)
    requires
        call_ensures(sending::<D>, (FromUser::Data(data),), sent),
        sent matches SendStep::Send(message) && call_ensures(
            receiving::<D>,
            (FromNetwork::Message(message),),
            received,
        ),
    ensures
        received == ReceiveStep::Deliver(data),
{
}

/// A side that has nothing to send still sends something, which delivers nothing
/// to the other side and keeps it waiting.
pub proof fn heartbeats_keep_silent_connections_alive<D>(
    sent: SendStep<D>,
    received: ReceiveStep<D>,
)
    requires
        call_ensures(sending::<D>, (FromUser::<D>::Timeout,), sent),
        sent matches SendStep::Send(message) ==> call_ensures(
            receiving::<D>,
            (FromNetwork::Message(message),),
            received,
        ),
    ensures
        sent is Send,
        received is Wait,
{
}

/// A running connection whose peer falls silent, or breaks off, ends with an error.
pub proof fn silence_ends_connections<PK, D>(peer: PK, step: ReceiveStep<D>)
    requires
        call_ensures(receiving::<D>, (FromNetwork::<D>::Timeout,), step) || call_ensures(
            receiving::<D>,
            (FromNetwork::<D>::Broken,),
            step,
        ),
    ensures
        step matches ReceiveStep::Fail(error) && next_phase(
            Phase::Running(peer),
            ConnectionEvent::ReceivingFailed(error),
        ) == Phase::<PK>::Finished(Err(error)),
{
}

} // verus!
