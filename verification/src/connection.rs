//! The decisions of one connection.
//!
//! A connection is accepted, becomes active, and is closed; it never leaves
//! the closed state. While it is active its task does two things in turn: it
//! forwards what the broadcast channel holds for it to the peer, and it reads
//! what the peer sends and hands each message to the dispatcher. The task
//! does the reading, writing and waiting; what to do with each outcome is
//! decided here.

use vstd::prelude::*;
use crate::broadcast::{BroadcastChannel, ChannelView, Delivery, DeliveryView, Subscription};
use crate::codec::{encode, spec_encode, HEADER_SIZE};
use crate::error::NetError;
use crate::message::{Message, MessageView};
use crate::reader::{
    lemma_reader_round_trip, FrameReader, ReadProgress, ReadProgressView, ReadState,
};

verus! {

/// The life of a connection.
#[derive(Clone, Copy, Debug, PartialEq, Eq, Structural)]
pub enum ConnectionState {
    /// The listener accepted the connection; its task has not started.
    Accepted,
    /// The task runs its read/write loop.
    Active,
    /// The connection is released. Nothing is read or written any more.
    Closed,
}

/// What a connection does when it is told that it fell behind the channel.
#[derive(Clone, Copy, Debug, PartialEq, Eq, Structural)]
pub enum LagPolicy {
    /// Go on from the oldest message that is left.
    Resynchronise,
    /// Close the connection.
    Disconnect,
}

/// The rules that a connection is run by.
#[derive(Clone, Copy, Debug, PartialEq, Eq, Structural)]
pub struct ConnectionPolicy {
    /// The longest body that the connection reads from its peer.
    pub max_body_size: u32,
    /// How many frames that fail to decode the connection puts up with
    /// before it closes on the next one.
    pub decode_tolerance: u32,
    pub on_lag: LagPolicy,
}

impl Default for ConnectionPolicy {
    /// Every body that a header can declare is read, the first frame that
    /// fails to decode closes the connection, and a lagging connection goes
    /// on.
    fn default() -> (policy: ConnectionPolicy)
        ensures
            policy == (ConnectionPolicy {
                max_body_size: u32::MAX,
                decode_tolerance: 0,
                on_lag: LagPolicy::Resynchronise,
            }),
    {
        ConnectionPolicy {
            max_body_size: u32::MAX,
            decode_tolerance: 0,
            on_lag: LagPolicy::Resynchronise,
        }
    }
}

/// What the task of a connection is to do next, as a mathematical value.
pub ghost enum ConnectionActionView {
    Write(Seq<u8>),
    Dispatch(MessageView),
    Report(NetError),
    Idle,
    Close(Option<NetError>),
}

/// What the task of a connection is to do next.
#[derive(Debug, PartialEq, Eq)]
pub enum ConnectionAction {
    /// Write this frame to the peer, all of it, before anything else is
    /// written.
    Write(Vec<u8>),
    /// Hand this message of the peer to the dispatcher.
    Dispatch(Message),
    /// Tell the operator of this failure; the connection goes on.
    Report(NetError),
    /// Nothing to do for now.
    Idle,
    /// Release the connection: for the failure given, or, with `None`,
    /// because the server shuts down.
    Close(Option<NetError>),
}

impl View for ConnectionAction {
    type V = ConnectionActionView;

    open spec fn view(&self) -> ConnectionActionView {
        match self {
            ConnectionAction::Write(frame) => ConnectionActionView::Write(frame@),
            ConnectionAction::Dispatch(message) => ConnectionActionView::Dispatch(message@),
            ConnectionAction::Report(e) => ConnectionActionView::Report(*e),
            ConnectionAction::Idle => ConnectionActionView::Idle,
            ConnectionAction::Close(reason) => ConnectionActionView::Close(*reason),
        }
    }
}

/// A connection as a mathematical value.
pub ghost struct ConnectionView {
    pub state: ConnectionState,
    pub policy: ConnectionPolicy,
    /// The sequence number that the connection's subscription reads next.
    pub cursor: nat,
    pub reader: FrameReader,
    /// How many frames of the peer have failed to decode so far.
    pub decode_failures: nat,
}

impl ConnectionView {
    /// The connection with another state.
    pub open spec fn in_state(self, state: ConnectionState) -> ConnectionView {
        ConnectionView { state, ..self }
    }

    /// The task starts: an accepted connection becomes active.
    pub open spec fn activate(self) -> ConnectionView {
        if self.state == ConnectionState::Accepted {
            self.in_state(ConnectionState::Active)
        } else {
            self
        }
    }

    /// The connection turns to `channel`: a message that waits there for it
    /// is to be written to the peer as one frame; a lag is reported, and
    /// closes the connection where the policy says so; with nothing waiting,
    /// or while the connection is not active, there is nothing to do.
    pub open spec fn forward(self, channel: ChannelView) -> (ConnectionActionView, ConnectionView) {
        if self.state != ConnectionState::Active {
            (ConnectionActionView::Idle, self)
        } else {
            let (delivery, cursor) = channel.poll(self.cursor);
            let moved = ConnectionView { cursor, ..self };
            match delivery {
                DeliveryView::Message(message) => (
                    ConnectionActionView::Write(spec_encode(message)),
                    moved,
                ),
                DeliveryView::Lagged(missed) => match self.policy.on_lag {
                    LagPolicy::Resynchronise => (
                        ConnectionActionView::Report(NetError::LaggedSubscriber(missed as u64)),
                        moved,
                    ),
                    LagPolicy::Disconnect => (
                        ConnectionActionView::Close(
                            Some(NetError::LaggedSubscriber(missed as u64)),
                        ),
                        moved.in_state(ConnectionState::Closed),
                    ),
                },
                DeliveryView::Pending => (ConnectionActionView::Idle, moved),
            }
        }
    }

    /// The stream gave `chunk` for the reader's last request: a whole
    /// message goes to the dispatcher; after a header, the body is still to
    /// be read; a stream that the peer closed closes the connection; a frame
    /// that fails to decode is reported while the policy puts up with it,
    /// and closes the connection once it does not.
    pub open spec fn receive(self, chunk: Seq<u8>) -> (ConnectionActionView, ConnectionView) {
        if self.state != ConnectionState::Active {
            (ConnectionActionView::Idle, self)
        } else {
            let (progress, reader) = self.reader.spec_supply(chunk);
            let read = ConnectionView { reader, ..self };
            match progress {
                ReadProgressView::More => (ConnectionActionView::Idle, read),
                ReadProgressView::Complete(message) => (
                    ConnectionActionView::Dispatch(message),
                    read,
                ),
                ReadProgressView::Failed(e) => if e == NetError::ConnectionClosed
                    || self.decode_failures >= self.policy.decode_tolerance {
                    (ConnectionActionView::Close(Some(e)), read.in_state(ConnectionState::Closed))
                } else {
                    (
                        ConnectionActionView::Report(e),
                        ConnectionView { decode_failures: self.decode_failures + 1, ..read },
                    )
                },
            }
        }
    }

    /// A write to the peer failed: an active connection is closed.
    pub open spec fn write_failed(self) -> (ConnectionActionView, ConnectionView) {
        if self.state != ConnectionState::Active {
            (ConnectionActionView::Idle, self)
        } else {
            (
                ConnectionActionView::Close(Some(NetError::ConnectionClosed)),
                self.in_state(ConnectionState::Closed),
            )
        }
    }

    /// The server shuts down: a connection that is not closed yet is closed.
    pub open spec fn shut_down(self) -> (ConnectionActionView, ConnectionView) {
        if self.state == ConnectionState::Closed {
            (ConnectionActionView::Idle, self)
        } else {
            (ConnectionActionView::Close(None), self.in_state(ConnectionState::Closed))
        }
    }

    /// The action asks the task to touch the stream or the dispatcher.
    pub open spec fn is_work(action: ConnectionActionView) -> bool {
        action is Write || action is Dispatch
    }
}

/// A closed connection stays closed: whatever happens, there is nothing to
/// do for it and nothing about it changes.
pub proof fn lemma_closed_is_final(connection: ConnectionView, channel: ChannelView, chunk: Seq<u8>)
    requires
        connection.state == ConnectionState::Closed,
    ensures
        connection.activate() == connection,
        connection.forward(channel) == (ConnectionActionView::Idle, connection),
        connection.receive(chunk) == (ConnectionActionView::Idle, connection),
        connection.write_failed() == (ConnectionActionView::Idle, connection),
        connection.shut_down() == (ConnectionActionView::Idle, connection),
{
}

/// Only an active connection writes to its peer or dispatches a message,
/// and a connection is told to close only as it enters the closed state.
pub proof fn lemma_work_only_when_active(
    connection: ConnectionView,
    channel: ChannelView,
    chunk: Seq<u8>,
)
    ensures
        ({
            let (action, after) = connection.forward(channel);
            &&& ConnectionView::is_work(action) ==> connection.state == ConnectionState::Active
                && after.state == ConnectionState::Active
            &&& action is Close <==> after.state == ConnectionState::Closed && connection.state
                != ConnectionState::Closed
        }),
        ({
            let (action, after) = connection.receive(chunk);
            &&& ConnectionView::is_work(action) ==> connection.state == ConnectionState::Active
                && after.state == ConnectionState::Active
            &&& action is Close <==> after.state == ConnectionState::Closed && connection.state
                != ConnectionState::Closed
        }),
{
}

/// The count of frames that failed to decode never passes what the policy
/// puts up with.
pub proof fn lemma_failures_within_tolerance(connection: ConnectionView, chunk: Seq<u8>)
    requires
        connection.decode_failures <= connection.policy.decode_tolerance,
    ensures
        connection.receive(chunk).1.decode_failures <= connection.policy.decode_tolerance,
{
}

/// An active connection that stands before a frame and is handed the two
/// parts of an encoded message, header first, dispatches that message.
pub proof fn lemma_receive_round_trip(connection: ConnectionView, message: MessageView)
    requires
        connection.state == ConnectionState::Active,
        connection.reader.state == ReadState::Header,
        message.is_consistent(),
        message.header.message_size <= connection.reader.max_body_size,
    ensures
        ({
            let frame = spec_encode(message);
            let (first, midway) = connection.receive(
                frame.subrange(0, HEADER_SIZE as int),
            );
            let (second, after) = midway.receive(
                frame.subrange(HEADER_SIZE as int, frame.len() as int),
            );
            &&& first == ConnectionActionView::Idle
            &&& second == ConnectionActionView::Dispatch(message)
            &&& after == connection
        }),
{
    lemma_reader_round_trip(connection.reader, message);
}

/// One connection of the server: its state, its subscription to the
/// broadcast channel and its frame reader.
#[derive(Debug)]
pub struct Connection {
    state: ConnectionState,
    policy: ConnectionPolicy,
    subscription: Subscription,
    reader: FrameReader,
    decode_failures: u32,
}

impl View for Connection {
    type V = ConnectionView;

    closed spec fn view(&self) -> ConnectionView {
        ConnectionView {
            state: self.state,
            policy: self.policy,
            cursor: self.subscription@,
            reader: self.reader,
            decode_failures: self.decode_failures as nat,
        }
    }
}

impl Connection {
    /// A connection that was just accepted, with the subscription that it
    /// reads broadcasts through.
    pub fn new(subscription: Subscription, policy: ConnectionPolicy) -> (connection: Connection)
        ensures
            connection@ == (ConnectionView {
                state: ConnectionState::Accepted,
                policy,
                cursor: subscription@,
                reader: FrameReader {
                    max_body_size: policy.max_body_size,
                    state: ReadState::Header,
                },
                decode_failures: 0,
            }),
    {
        Connection {
            state: ConnectionState::Accepted,
            policy,
            subscription,
            reader: FrameReader::new(policy.max_body_size),
            decode_failures: 0,
        }
    }

    /// The state that the connection is in.
    pub fn state(&self) -> (state: ConnectionState)
        ensures
            state == self@.state,
    {
        self.state
    }

    /// How many bytes the task is to read from the peer next, exactly.
    pub fn wanted(&self) -> (count: usize)
        ensures
            count == self@.reader.spec_wanted(),
    {
        self.reader.wanted()
    }

    /// The task starts its loop.
    pub fn activate(&mut self)
        ensures
            final(self)@ == old(self)@.activate(),
    {
        if self.state == ConnectionState::Accepted {
            self.state = ConnectionState::Active;
        }
    }

    /// Takes what `channel` holds next for this connection and says what to
    /// do with it.
    pub fn forward(&mut self, channel: &BroadcastChannel) -> (action: ConnectionAction)
        ensures
            (action@, final(self)@) == old(self)@.forward(channel@),
    {
        if self.state != ConnectionState::Active {
            return ConnectionAction::Idle;
        }
        match self.subscription.next(channel) {
            Delivery::Message(message) => ConnectionAction::Write(encode(&message)),
            Delivery::Lagged(missed) => match self.policy.on_lag {
                LagPolicy::Resynchronise => ConnectionAction::Report(
                    NetError::LaggedSubscriber(missed),
                ),
                LagPolicy::Disconnect => {
                    self.state = ConnectionState::Closed;
                    ConnectionAction::Close(Some(NetError::LaggedSubscriber(missed)))
                },
            },
            Delivery::Pending => ConnectionAction::Idle,
        }
    }

    /// Takes what the stream gave for the last read of `wanted()` bytes,
    /// fewer if the stream ended, and says what to do next.
    pub fn receive(&mut self, chunk: &[u8]) -> (action: ConnectionAction)
        ensures
            (action@, final(self)@) == old(self)@.receive(chunk@),
    {
        if self.state != ConnectionState::Active {
            return ConnectionAction::Idle;
        }
        match self.reader.supply(chunk) {
            ReadProgress::More => ConnectionAction::Idle,
            ReadProgress::Complete(message) => ConnectionAction::Dispatch(message),
            ReadProgress::Failed(e) => {
                if e == NetError::ConnectionClosed || self.decode_failures
                    >= self.policy.decode_tolerance {
                    self.state = ConnectionState::Closed;
                    ConnectionAction::Close(Some(e))
                } else {
                    self.decode_failures = self.decode_failures + 1;
                    ConnectionAction::Report(e)
                }
            },
        }
    }

    /// Takes note that a write to the peer failed.
    pub fn write_failed(&mut self) -> (action: ConnectionAction)
        ensures
            (action@, final(self)@) == old(self)@.write_failed(),
    {
        if self.state != ConnectionState::Active {
            return ConnectionAction::Idle;
        }
        self.state = ConnectionState::Closed;
        ConnectionAction::Close(Some(NetError::ConnectionClosed))
    }

    /// Takes note that the server shuts down.
    pub fn shut_down(&mut self) -> (action: ConnectionAction)
        ensures
            (action@, final(self)@) == old(self)@.shut_down(),
    {
        if self.state == ConnectionState::Closed {
            return ConnectionAction::Idle;
        }
        self.state = ConnectionState::Closed;
        ConnectionAction::Close(None)
    }
}

} // verus!
