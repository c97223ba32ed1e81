//! Splitting a single network into two separate ones. This way multiple
//! components can send data over the same underlying network not knowing what
//! types of data the other ones use.
//!
//! The two networks compete for the data of their parent network, and unpack it
//! to two separate channels; each reads the channel with the data that is for it.

use vstd::prelude::*;

verus! {

/// Used for routing data through split networks.
#[derive(Clone, Debug)]
pub enum Split<LeftData, RightData> {
    Left(LeftData),
    Right(RightData),
}

/// Whom data is for.
#[derive(Clone, Copy, Debug, PartialEq, Eq, Structural)]
pub enum Recipient {
    Everyone,
    Node(usize),
}

/// What the left network sends over its parent.
pub fn left_send<LeftData, RightData>(data: LeftData, recipient: Recipient) -> (sent: (
    Split<LeftData, RightData>,
    Recipient,
))
    ensures
        sent == (Split::<LeftData, RightData>::Left(data), recipient),
{
    (Split::Left(data), recipient)
}

/// What the right network sends over its parent.
pub fn right_send<LeftData, RightData>(data: RightData, recipient: Recipient) -> (sent: (
    Split<LeftData, RightData>,
    Recipient,
))
    ensures
        sent == (Split::<LeftData, RightData>::Right(data), recipient),
{
    (Split::Right(data), recipient)
}

/// What has come and was not read yet on each side, and whether more can come.
#[verifier::ext_equal]
pub struct SplitState<LeftData, RightData> {
    pub left: Seq<LeftData>,
    pub right: Seq<RightData>,
    pub closed: bool,
}

impl<LeftData, RightData> SplitState<LeftData, RightData> {
    /// Nothing has come yet.
    pub open spec fn initial() -> Self {
        SplitState { left: Seq::empty(), right: Seq::empty(), closed: false }
    }

    /// The state after the parent network gave something, or ended. A channel
    /// that is closed takes nothing in.
    pub open spec fn forwarded(self, item: Option<Split<LeftData, RightData>>) -> Self {
        match item {
            None => SplitState { closed: true, ..self },
            Some(Split::Left(data)) => if self.closed {
                self
            } else {
                SplitState { left: self.left.push(data), ..self }
            },
            Some(Split::Right(data)) => if self.closed {
                self
            } else {
                SplitState { right: self.right.push(data), ..self }
            },
        }
    }

    /// The state after everything that the parent network gave.
    pub open spec fn after(self, items: Seq<Split<LeftData, RightData>>) -> Self
        decreases items.len(),
    {
        if items.len() == 0 {
            self
        } else {
            self.after(items.drop_last()).forwarded(Some(items.last()))
        }
    }
}

/// What a look into a channel yields.
#[derive(Debug)]
pub enum Received<D> {
    /// Data.
    Data(D),
    /// Nothing yet.
    Pending,
    /// Nothing any more.
    Ended,
}

/// What is waiting at the front of a channel.
pub open spec fn front<D>(channel: Seq<D>, closed: bool) -> Received<D> {
    if channel.len() > 0 {
        Received::Data(channel[0])
    } else if closed {
        Received::Ended
    } else {
        Received::Pending
    }
}

/// A channel without what is waiting at its front.
pub open spec fn rest<D>(channel: Seq<D>) -> Seq<D> {
    if channel.len() > 0 {
        channel.remove(0)
    } else {
        channel
    }
}

/// The two channels that the data of a parent network is unpacked to.
#[derive(Debug)]
pub struct SplitChannels<LeftData, RightData> {
    left: Vec<LeftData>,
    right: Vec<RightData>,
    closed: bool,
}

impl<LeftData, RightData> View for SplitChannels<LeftData, RightData> {
    type V = SplitState<LeftData, RightData>;

    closed spec fn view(&self) -> SplitState<LeftData, RightData> {
        SplitState { left: self.left@, right: self.right@, closed: self.closed }
    }
}

/// The channels of a network that is split.
pub fn split<LeftData, RightData>() -> (channels: SplitChannels<LeftData, RightData>)
    ensures
        channels@ == SplitState::<LeftData, RightData>::initial(),
{
    let channels = SplitChannels { left: Vec::new(), right: Vec::new(), closed: false };
    proof {
        assert(channels@ =~= SplitState::<LeftData, RightData>::initial());
    }
    channels
}

impl<LeftData, RightData> SplitChannels<LeftData, RightData> {
    /// Unpacks what the parent network gave, or closes both channels where it has
    /// ended. Returns whether more can come.
    pub fn forward_or_wait(&mut self, item: Option<Split<LeftData, RightData>>) -> (go_on: bool)
        ensures
            final(self)@ == old(self)@.forwarded(item),
            go_on == (item is Some),
    {
        match item {
            Some(Split::Left(data)) => {
                if !self.closed {
                    self.left.push(data);
                }
                true
            },
            Some(Split::Right(data)) => {
                if !self.closed {
                    self.right.push(data);
                }
                true
            },
            None => {
                self.closed = true;
                false
            },
        }
    }

    /// Reads the next data that is for the left network.
    pub fn next_left(&mut self) -> (received: Received<LeftData>)
        ensures
            received == front(old(self)@.left, old(self)@.closed),
            final(self)@ == (SplitState { left: rest(old(self)@.left), ..old(self)@ }),
    {
        if self.left.len() > 0 {
            Received::Data(self.left.remove(0))
        } else if self.closed {
            Received::Ended
        } else {
            Received::Pending
        }
    }

    /// Reads the next data that is for the right network.
    pub fn next_right(&mut self) -> (received: Received<RightData>)
        ensures
            received == front(old(self)@.right, old(self)@.closed),
            final(self)@ == (SplitState { right: rest(old(self)@.right), ..old(self)@ }),
    {
        if self.right.len() > 0 {
            Received::Data(self.right.remove(0))
        } else if self.closed {
            Received::Ended
        } else {
            Received::Pending
        }
    }
}

/// What happens while one of the networks waits for data: its channel yields
/// something or has ended, or data of the parent was forwarded, after which
/// more can come or not.
#[derive(Debug)]
pub enum ReceiverEvent<D> {
    Translated(Option<D>),
    Forwarded { go_on: bool },
}

/// What the network that waits does then.
#[derive(Debug)]
pub enum ReceiverStep<D> {
    /// It returns data, or that there is none any more.
    Return(Option<D>),
    /// It goes on waiting.
    Wait,
}

/// What a network that waits for data does.
pub fn receiver_step<D>(event: ReceiverEvent<D>) -> (step: ReceiverStep<D>)
    ensures
        step == match event {
            ReceiverEvent::Translated(data) => ReceiverStep::Return(data),
            ReceiverEvent::Forwarded { go_on } => if go_on {
                ReceiverStep::Wait
            } else {
                ReceiverStep::Return(None)
            },
        },
{
    match event {
        ReceiverEvent::Translated(data) => ReceiverStep::Return(data),
        ReceiverEvent::Forwarded { go_on } => if go_on {
            ReceiverStep::Wait
        } else {
            ReceiverStep::Return(None)
        },
    }
}

/// What of the items is for the left network, in their order.
pub open spec fn lefts<LeftData, RightData>(items: Seq<Split<LeftData, RightData>>) -> Seq<LeftData>
    decreases items.len(),
{
    if items.len() == 0 {
        Seq::empty()
    } else {
        match items.last() {
            Split::Left(data) => lefts(items.drop_last()).push(data),
            Split::Right(_) => lefts(items.drop_last()),
        }
    }
}

/// What of the items is for the right network, in their order.
pub open spec fn rights<LeftData, RightData>(items: Seq<Split<LeftData, RightData>>) -> Seq<
    RightData,
>
    decreases items.len(),
{
    if items.len() == 0 {
        Seq::empty()
    } else {
        match items.last() {
            Split::Right(data) => rights(items.drop_last()).push(data),
            Split::Left(_) => rights(items.drop_last()),
        }
    }
}

/// Whatever the parent network gives reaches the network that it is for, in the
/// order in which it came, and no other; nothing is lost and nothing added.
pub proof fn split_networks_get_their_own_data<LeftData, RightData>(
    items: Seq<Split<LeftData, RightData>>,
)
    ensures
        ({
            let state = SplitState::<LeftData, RightData>::initial().after(items);
            &&& state.left == lefts(items)
            &&& state.right == rights(items)
            &&& !state.closed
            &&& state.left.len() + state.right.len() == items.len()
        }),
    decreases items.len(),
{
    if items.len() > 0 {
        split_networks_get_their_own_data(items.drop_last());
    }
}

/// What one network sends over the parent comes out at the same side of the
/// split on the other end.
pub proof fn sent_data_arrives_at_its_side<LeftData, RightData>(
    state: SplitState<LeftData, RightData>,
    left: LeftData,
    right: RightData,
)
    requires
        !state.closed,
    ensures
        state.forwarded(Some(Split::Left(left))) == (SplitState {
            left: state.left.push(left),
            ..state
        }),
        state.forwarded(Some(Split::Right(right))) == (SplitState {
            right: state.right.push(right),
            ..state
        }),
{
}

/// What came before the parent network ended can still be read after it ended.
pub proof fn data_outlives_the_parent<LeftData, RightData>(state: SplitState<LeftData, RightData>)
    ensures
        state.forwarded(None).left == state.left,
        state.forwarded(None).right == state.right,
        front(state.forwarded(None).left, true) is Ended <==> state.left.len() == 0,
        front(state.forwarded(None).right, true) is Ended <==> state.right.len() == 0,
{
}

/// A channel is read from its front: what is read and what is left are what was
/// waiting, in its order. An empty one has ended exactly where it is closed.
pub proof fn channels_are_read_in_order<D>(channel: Seq<D>, closed: bool)
    ensures
        channel.len() > 0 ==> front(channel, closed) == Received::Data(channel[0]),
        channel.len() > 0 ==> seq![channel[0]] + rest(channel) == channel,
        channel.len() == 0 ==> rest(channel) == channel,
        channel.len() == 0 && closed ==> front(channel, closed) == Received::<D>::Ended,
        channel.len() == 0 && !closed ==> front(channel, closed) == Received::<D>::Pending,
{
    if channel.len() > 0 {
        assert(seq![channel[0]] + rest(channel) =~= channel);
    }
}

/// Whatever the parent network gave is read in the order in which it came, after
/// all that was waiting already.
pub proof fn what_came_first_is_read_first<LeftData, RightData>(
    state: SplitState<LeftData, RightData>,
    left: LeftData,
    right: RightData,
)
    requires
        !state.closed,
    ensures
        state.left.len() > 0 ==> front(
            state.forwarded(Some(Split::Left(left))).left,
            false,
        ) == front(state.left, false),
        state.left.len() == 0 ==> front(
            state.forwarded(Some(Split::Left(left))).left,
            false,
        ) == Received::Data(left),
        state.right.len() > 0 ==> front(
            state.forwarded(Some(Split::Right(right))).right,
            false,
        ) == front(state.right, false),
        state.right.len() == 0 ==> front(
            state.forwarded(Some(Split::Right(right))).right,
            false,
        ) == Received::Data(right),
{
}

/// Once the parent network has ended, both channels are closed and stay so, and
/// take nothing in any more.
pub proof fn nothing_comes_after_the_end<LeftData, RightData>(
    state: SplitState<LeftData, RightData>,
    item: Option<Split<LeftData, RightData>>,
)
    ensures
        state.forwarded(None).closed,
        state.closed ==> state.forwarded(item) == state,
        item is Some ==> state.forwarded(item).closed == state.closed,
{
}

/// What one network sends reaches the network on the same side of the other end,
/// with whom it is for.
pub proof fn both_ends_agree_on_the_sides<LeftData, RightData>(
    state: SplitState<LeftData, RightData>,
    left: LeftData,
    right: RightData,
    recipient: Recipient,
    left_sent: (Split<LeftData, RightData>, Recipient),
    right_sent: (Split<LeftData, RightData>, Recipient),
)
    requires
        !state.closed,
        call_ensures(left_send::<LeftData, RightData>, (left, recipient), left_sent),
        call_ensures(right_send::<LeftData, RightData>, (right, recipient), right_sent),
    ensures
        left_sent.1 == recipient,
        right_sent.1 == recipient,
        state.forwarded(Some(left_sent.0)).left == state.left.push(left),
        state.forwarded(Some(left_sent.0)).right == state.right,
        state.forwarded(Some(right_sent.0)).right == state.right.push(right),
        state.forwarded(Some(right_sent.0)).left == state.left,
{
}

/// A network that waits returns what its channel yields, and nothing any more once
/// nothing more can come; as long as more can come it goes on waiting.
pub proof fn waiting_ends_with_data_or_the_end<D>(
    data: Option<D>,
    go_on: bool,
    translated: ReceiverStep<D>,
    forwarded: ReceiverStep<D>,
)
    requires
        call_ensures(receiver_step::<D>, (ReceiverEvent::Translated(data),), translated),
        call_ensures(receiver_step::<D>, (ReceiverEvent::<D>::Forwarded { go_on },), forwarded),
    ensures
        translated == ReceiverStep::Return(data),
        forwarded is Wait <==> go_on,
        !go_on ==> forwarded == ReceiverStep::Return(None::<D>),
{
}

} // verus!
