//! The broadcast channel: one publisher, any number of subscribers.
//!
//! The channel keeps the last `capacity` published messages in a ring. Each
//! message gets the next sequence number, counted from 0, and a subscription
//! is nothing but the sequence number that it will read next. Publishing
//! never waits for a reader: when the ring is full the oldest message is
//! evicted, and a subscriber that had not read it yet is told, on its next
//! read, how many messages it missed.

use vstd::prelude::*;
use std::collections::VecDeque;
use crate::message::{Message, MessageView};

verus! {

/// The capacity of a channel that is made without naming one.
pub const DEFAULT_CAPACITY: usize = 16;

/// What a subscriber is handed when it reads, as a mathematical value.
pub ghost enum DeliveryView {
    /// The next message after the subscriber's cursor.
    Message(MessageView),
    /// This many messages were evicted before the subscriber read them.
    Lagged(nat),
    /// Nothing has been published after the cursor: the subscriber waits.
    Pending,
}

/// A channel as a mathematical value: how many messages it retains, and
/// every message ever published on it, oldest first. The sequence number of
/// a message is its index in `history`.
pub ghost struct ChannelView {
    pub capacity: nat,
    pub history: Seq<MessageView>,
}

impl ChannelView {
    /// The sequence number of the oldest message that is still retained;
    /// the number of messages published so far when none is.
    pub open spec fn oldest(self) -> nat {
        if self.history.len() <= self.capacity {
            0
        } else {
            (self.history.len() - self.capacity) as nat
        }
    }

    /// The messages in the ring, oldest first.
    pub open spec fn retained(self) -> Seq<MessageView> {
        self.history.subrange(self.oldest() as int, self.history.len() as int)
    }

    /// The channel after `message` was published.
    pub open spec fn publish(self, message: MessageView) -> ChannelView {
        ChannelView { capacity: self.capacity, history: self.history.push(message) }
    }

    /// The channel after the messages of `messages` were published, first
    /// to last.
    pub open spec fn publish_all(self, messages: Seq<MessageView>) -> ChannelView
        decreases messages.len(),
    {
        if messages.len() == 0 {
            self
        } else {
            self.publish(messages.first()).publish_all(messages.drop_first())
        }
    }

    /// The cursor of a subscription taken now: it starts behind everything
    /// published so far.
    pub open spec fn subscribe(self) -> nat {
        self.history.len()
    }

    /// One read by a subscriber whose cursor is `cursor`: what it is handed,
    /// and its cursor afterwards.
    pub open spec fn poll(self, cursor: nat) -> (DeliveryView, nat) {
        if cursor >= self.history.len() {
            (DeliveryView::Pending, cursor)
        } else if cursor < self.oldest() {
            (DeliveryView::Lagged((self.oldest() - cursor) as nat), self.oldest())
        } else {
            (DeliveryView::Message(self.history[cursor as int]), cursor + 1)
        }
    }

    /// Everything that a subscriber whose cursor is `cursor` is handed when
    /// it reads until it would have to wait.
    pub open spec fn drain(self, cursor: nat) -> Seq<DeliveryView>
        decreases self.history.len() - cursor,
    {
        let (delivery, next) = self.poll(cursor);
        if cursor >= self.history.len() {
            Seq::empty()
        } else {
            seq![delivery] + self.drain(next)
        }
    }

    /// The messages from sequence number `from` on, each as a delivery.
    pub open spec fn deliveries_from(self, from: nat) -> Seq<DeliveryView> {
        Seq::new(
            (self.history.len() - from) as nat,
            |i: int| DeliveryView::Message(self.history[from + i]),
        )
    }
}

/// Publishing a sequence of messages appends it to the history and leaves
/// the capacity alone.
pub proof fn lemma_publish_all(channel: ChannelView, messages: Seq<MessageView>)
    ensures
        channel.publish_all(messages).capacity == channel.capacity,
        channel.publish_all(messages).history == channel.history + messages,
    decreases messages.len(),
{
    if messages.len() == 0 {
        assert(channel.history + messages =~= channel.history);
    } else {
        lemma_publish_all(channel.publish(messages.first()), messages.drop_first());
        assert(channel.history.push(messages.first()) + messages.drop_first()
            =~= channel.history + messages);
    }
}

/// Exactly-once delivery in publish order: a subscriber that has missed
/// nothing is handed every message from its cursor on, each once, oldest
/// first, and then has to wait.
pub proof fn lemma_drain_in_order(channel: ChannelView, cursor: nat)
    requires
        channel.oldest() <= cursor <= channel.history.len(),
    ensures
        channel.drain(cursor) == channel.deliveries_from(cursor),
    decreases channel.history.len() - cursor,
{
    if cursor < channel.history.len() {
        lemma_drain_in_order(channel, cursor + 1);
        assert(seq![DeliveryView::Message(channel.history[cursor as int])]
            + channel.deliveries_from(cursor + 1) =~= channel.deliveries_from(cursor));
    } else {
        assert(channel.deliveries_from(cursor) =~= Seq::empty());
    }
}

/// A subscriber that fell behind the ring is told so, with the number of
/// messages it missed, before it is handed anything else; after that it is
/// handed every retained message, oldest first.
pub proof fn lemma_drain_lagged(channel: ChannelView, cursor: nat)
    requires
        cursor < channel.oldest(),
    ensures
        channel.poll(cursor) == (
            DeliveryView::Lagged((channel.oldest() - cursor) as nat),
            channel.oldest(),
        ),
        channel.drain(cursor) == seq![
            DeliveryView::Lagged((channel.oldest() - cursor) as nat),
        ] + channel.deliveries_from(channel.oldest()),
{
    lemma_drain_in_order(channel, channel.oldest());
}

/// A subscriber is handed what was published after it subscribed, and
/// nothing from before: while no more messages follow its subscription than
/// the ring holds, draining gives exactly those messages, in publish order.
pub proof fn lemma_subscriber_sees_what_follows(channel: ChannelView, later: Seq<MessageView>)
    requires
        later.len() <= channel.capacity,
    ensures
        channel.publish_all(later).drain(channel.subscribe()) == later.map_values(
            |m: MessageView| DeliveryView::Message(m),
        ),
{
    let after = channel.publish_all(later);
    lemma_publish_all(channel, later);
    lemma_drain_in_order(after, channel.subscribe());
    assert(after.deliveries_from(channel.subscribe()) =~= later.map_values(
        |m: MessageView| DeliveryView::Message(m),
    ));
}

/// A subscriber behind which more messages were published than the ring
/// holds is told on its next read how many it lost: the excess over the
/// capacity.
pub proof fn lemma_overrun_is_reported(channel: ChannelView, later: Seq<MessageView>)
    requires
        later.len() > channel.capacity,
    ensures
        channel.publish_all(later).poll(channel.subscribe()) == (
            DeliveryView::Lagged((later.len() - channel.capacity) as nat),
            (channel.subscribe() + later.len() - channel.capacity) as nat,
        ),
{
    lemma_publish_all(channel, later);
}

/// Two subscribers, one from before a first message and one from between
/// that and a second: the first is handed both messages in order, the
/// second only the second.
pub proof fn lemma_broadcast_isolation(
    channel: ChannelView,
    first: MessageView,
    second: MessageView,
)
    requires
        channel.capacity >= 2,
    ensures
        ({
            let early = channel.subscribe();
            let late = channel.publish(first).subscribe();
            let after = channel.publish(first).publish(second);
            &&& after.drain(early) == seq![
                DeliveryView::Message(first),
                DeliveryView::Message(second),
            ]
            &&& after.drain(late) == seq![DeliveryView::Message(second)]
        }),
{
    let after = channel.publish(first).publish(second);
    lemma_drain_in_order(after, channel.subscribe());
    lemma_drain_in_order(after, channel.publish(first).subscribe());
    assert(after.deliveries_from(channel.subscribe()) =~= seq![
        DeliveryView::Message(first),
        DeliveryView::Message(second),
    ]);
    assert(after.deliveries_from(channel.publish(first).subscribe()) =~= seq![
        DeliveryView::Message(second),
    ]);
}

/// What a subscriber is handed when it reads.
#[derive(Debug, PartialEq, Eq)]
pub enum Delivery {
    /// The next message after the subscriber's cursor.
    Message(Message),
    /// This many messages were evicted before the subscriber read them. The
    /// cursor now stands at the oldest message that is left.
    Lagged(u64),
    /// Nothing has been published after the cursor: the subscriber has to
    /// wait for the next publish.
    Pending,
}

impl View for Delivery {
    type V = DeliveryView;

    open spec fn view(&self) -> DeliveryView {
        match self {
            Delivery::Message(message) => DeliveryView::Message(message@),
            Delivery::Lagged(missed) => DeliveryView::Lagged(*missed as nat),
            Delivery::Pending => DeliveryView::Pending,
        }
    }
}

/// The ring itself: the retained messages, the count of all that were ever
/// published, and, for the proofs, all of them.
struct Ring {
    slots: VecDeque<Message>,
    published: u64,
    history: Ghost<Seq<MessageView>>,
}

impl Ring {
    /// The slots hold the last `capacity` messages of the history, or all of
    /// it while it is shorter, and `published` counts the history.
    spec fn wf(&self, capacity: usize) -> bool {
        &&& self.history@.len() == self.published
        &&& self.slots@.len() == self.model(capacity).retained().len()
        &&& forall|i: int|
            0 <= i < self.slots@.len() ==> (#[trigger] self.slots@[i])@ == self.model(
                capacity,
            ).retained()[i]
    }

    /// The ring as the channel that it is the state of.
    spec fn model(&self, capacity: usize) -> ChannelView {
        ChannelView { capacity: capacity as nat, history: self.history@ }
    }

    /// A ring on which nothing has been published.
    fn empty() -> (ring: Ring)
        ensures
            ring.history@ == Seq::<MessageView>::empty(),
            forall|capacity: usize| ring.wf(capacity),
    {
        Ring { slots: VecDeque::new(), published: 0, history: Ghost(Seq::empty()) }
    }

    /// Takes `message` in as the newest, and lets the oldest go when the
    /// ring holds more than `capacity` with it.
    fn push(&mut self, capacity: usize, message: Message)
        requires
            old(self).wf(capacity),
            old(self).published < u64::MAX,
        ensures
            final(self).wf(capacity),
            final(self).history@ == old(self).history@.push(message@),
    {
        let ghost before = self.model(capacity);
        let ghost entered = message@;
        self.slots.push_back(message);
        if self.slots.len() > capacity {
            let _ = self.slots.pop_front();
        }
        self.published = self.published + 1;
        self.history = Ghost(before.history.push(entered));
        proof {
            let after = self.model(capacity);
            assert(after == before.publish(entered));
            assert(self.slots@.len() == after.retained().len());
            assert forall|i: int| 0 <= i < self.slots@.len() implies (#[trigger] self.slots@[i])@
                == after.retained()[i] by {
                if i + 1 < self.slots@.len() {
                    assert(after.retained()[i] == before.retained()[i + after.oldest()
                        - before.oldest()]);
                }
            }
        }
    }
}

/// The broadcast channel of a server.
pub struct BroadcastChannel {
    capacity: usize,
    ring: Ring,
}

impl View for BroadcastChannel {
    type V = ChannelView;

    closed spec fn view(&self) -> ChannelView {
        self.ring.model(self.capacity)
    }
}

impl BroadcastChannel {
    /// The ring always holds what its history and the capacity say.
    #[verifier::type_invariant]
    spec fn inv(&self) -> bool {
        self.ring.wf(self.capacity)
    }

    /// A channel that retains the last `capacity` messages and on which
    /// nothing has been published yet.
    pub fn new(capacity: usize) -> (channel: BroadcastChannel)
        ensures
            channel@ == (ChannelView { capacity: capacity as nat, history: Seq::empty() }),
    {
        BroadcastChannel { capacity, ring: Ring::empty() }
    }

    /// Publishes `message` to every subscriber. The message gets the next
    /// sequence number; when the ring was full, the oldest message leaves it.
    /// Publishing never waits for a subscriber.
    ///
    /// The count of published messages is kept in 64 bits, and the call
    /// asks that it has not reached the end of them.
    pub fn publish(&mut self, message: Message)
        requires
            old(self)@.history.len() < u64::MAX,
        ensures
            final(self)@ == old(self)@.publish(message@),
    {
        proof {
            use_type_invariant(&*self);
        }
        let mut ring = Ring::empty();
        core::mem::swap(&mut ring, &mut self.ring);
        ring.push(self.capacity, message);
        self.ring = ring;
    }

    /// A subscription that starts now: it will be handed the messages
    /// published from here on, and none from before.
    pub fn subscribe(&self) -> (subscription: Subscription)
        ensures
            subscription@ == self@.subscribe(),
    {
        proof {
            use_type_invariant(self);
        }
        Subscription { cursor: self.ring.published }
    }

    /// How many messages the channel retains at most.
    pub fn capacity(&self) -> (capacity: usize)
        ensures
            capacity == self@.capacity,
    {
        self.capacity
    }

    /// How many messages have been published on the channel so far.
    pub fn published(&self) -> (count: u64)
        ensures
            count == self@.history.len(),
    {
        proof {
            use_type_invariant(self);
        }
        self.ring.published
    }

    /// How many messages the channel retains now.
    pub fn retained(&self) -> (count: usize)
        ensures
            count == self@.retained().len(),
    {
        proof {
            use_type_invariant(self);
        }
        self.ring.slots.len()
    }
}

/// One subscriber's place in a channel: the sequence number of the message
/// that it reads next.
#[derive(Debug)]
pub struct Subscription {
    cursor: u64,
}

impl View for Subscription {
    type V = nat;

    closed spec fn view(&self) -> nat {
        self.cursor as nat
    }
}

impl Subscription {
    /// The sequence number of the message that this subscription reads next.
    pub fn cursor(&self) -> (cursor: u64)
        ensures
            cursor == self@,
    {
        self.cursor
    }

    /// Reads once from `channel`.
    ///
    /// Hands out a copy of the message at the cursor and moves the cursor
    /// past it; or, when that message was evicted, reports how many messages
    /// were missed and moves the cursor to the oldest one left; or, when
    /// nothing has been published after the cursor, reports that the
    /// subscriber has to wait and leaves the cursor alone. The channel is
    /// only read, so no subscriber's reading changes what another is handed.
    pub fn next(&mut self, channel: &BroadcastChannel) -> (delivery: Delivery)
        ensures
            (delivery@, final(self)@) == channel@.poll(old(self)@),
    {
        proof {
            use_type_invariant(channel);
        }
        let published: u64 = channel.ring.published;
        if self.cursor >= published {
            return Delivery::Pending;
        }
        let oldest: u64 = published - channel.ring.slots.len() as u64;
        if self.cursor < oldest {
            let missed: u64 = oldest - self.cursor;
            self.cursor = oldest;
            return Delivery::Lagged(missed);
        }
        let index: usize = (self.cursor - oldest) as usize;
        let message = channel.ring.slots[index].clone();
        self.cursor = self.cursor + 1;
        Delivery::Message(message)
    }
}

} // verus!
