//! The decisions of the server.
//!
//! The server owns the broadcast channel. Its accept loop hands every
//! outcome of `accept` to `Server::accept`, which seeds a connection for
//! each peer and shrugs off a failed accept; whoever has something to tell
//! all peers calls `Server::broadcast`. The listening socket and the tasks
//! are the caller's.

use vstd::prelude::*;
use crate::broadcast::{BroadcastChannel, ChannelView, DEFAULT_CAPACITY};
use crate::codec::spec_encode;
use crate::connection::{
    Connection, ConnectionActionView, ConnectionPolicy, ConnectionState, ConnectionView,
    LagPolicy,
};
use crate::error::NetError;
use crate::message::{Message, MessageHeader, MessageType, MessageView};
use crate::reader::{FrameReader, ReadState};

verus! {

/// The length of the body of the announcement.
pub const ANNOUNCEMENT_SIZE: u32 = 12;

/// How a server is set up.
#[derive(Clone, Copy, Debug, PartialEq, Eq, Structural)]
pub struct ServerConfig {
    /// How many messages the broadcast channel retains.
    pub capacity: usize,
    /// Whether the announcement is broadcast each time a peer connects.
    pub announce: bool,
    /// The rules for every connection.
    pub policy: ConnectionPolicy,
}

impl Default for ServerConfig {
    /// A channel of `DEFAULT_CAPACITY` messages, an announcement for every
    /// peer that connects, and the default rules for connections.
    fn default() -> (config: ServerConfig)
        ensures
            config == (ServerConfig {
                capacity: DEFAULT_CAPACITY,
                announce: true,
                policy: ConnectionPolicy {
                    max_body_size: u32::MAX,
                    decode_tolerance: 0,
                    on_lag: LagPolicy::Resynchronise,
                },
            }),
    {
        ServerConfig { capacity: DEFAULT_CAPACITY, announce: true, policy: ConnectionPolicy::default() }
    }
}

/// The announcement: a `PostBlockchain` message whose body is
/// `ANNOUNCEMENT_SIZE` bytes of value 1.
pub open spec fn spec_announcement() -> MessageView {
    MessageView {
        header: MessageHeader {
            message_type: MessageType::PostBlockchain,
            message_size: ANNOUNCEMENT_SIZE,
        },
        body: Seq::new(ANNOUNCEMENT_SIZE as nat, |i: int| 1u8),
    }
}

/// The message that a server which announces broadcasts when a peer
/// connects.
pub fn announcement() -> (message: Message)
    ensures
        message@ == spec_announcement(),
        message@.is_consistent(),
{
    let mut body: Vec<u8> = Vec::new();
    while body.len() < ANNOUNCEMENT_SIZE as usize
        invariant
            body@.len() <= ANNOUNCEMENT_SIZE,
            forall|i: int| 0 <= i < body@.len() ==> body@[i] == 1u8,
        decreases ANNOUNCEMENT_SIZE - body@.len(),
    {
        body.push(1u8);
    }
    proof {
        assert(body@ =~= spec_announcement().body);
    }
    Message {
        header: MessageHeader {
            message_type: MessageType::PostBlockchain,
            message_size: ANNOUNCEMENT_SIZE,
        },
        body,
    }
}

/// How a call of the listener's `accept` ended.
#[derive(Clone, Copy, Debug, PartialEq, Eq, Structural)]
pub enum AcceptOutcome {
    /// A peer connected.
    Connected,
    /// The call failed.
    Failed,
}

/// What the accept loop is to do, as a mathematical value.
pub ghost enum AcceptActionView {
    Spawn(ConnectionView),
    Continue(NetError),
}

/// What the accept loop is to do after a call of `accept`.
#[derive(Debug)]
pub enum AcceptAction {
    /// Start a task for the peer, with this connection.
    Spawn(Connection),
    /// Note the failure and accept again.
    Continue(NetError),
}

impl View for AcceptAction {
    type V = AcceptActionView;

    open spec fn view(&self) -> AcceptActionView {
        match self {
            AcceptAction::Spawn(connection) => AcceptActionView::Spawn(connection@),
            AcceptAction::Continue(e) => AcceptActionView::Continue(*e),
        }
    }
}

/// A server as a mathematical value.
pub ghost struct ServerView {
    pub config: ServerConfig,
    pub channel: ChannelView,
}

impl ServerView {
    /// A server that has just been set up.
    pub open spec fn fresh(config: ServerConfig) -> ServerView {
        ServerView {
            config,
            channel: ChannelView { capacity: config.capacity as nat, history: Seq::empty() },
        }
    }

    /// The server after `message` went out to all peers.
    pub open spec fn broadcast(self, message: MessageView) -> ServerView {
        ServerView { config: self.config, channel: self.channel.publish(message) }
    }

    /// The connection that a peer who connects now is given: accepted, and
    /// subscribed from here on.
    pub open spec fn seeded(self) -> ConnectionView {
        ConnectionView {
            state: ConnectionState::Accepted,
            policy: self.config.policy,
            cursor: self.channel.subscribe(),
            reader: FrameReader {
                max_body_size: self.config.policy.max_body_size,
                state: ReadState::Header,
            },
            decode_failures: 0,
        }
    }

    /// One turn of the accept loop. A peer that connected is subscribed
    /// first; then, where the server announces, the announcement goes out
    /// to all peers, the new one among them. A failed accept is passed over
    /// and leaves the server as it was.
    pub open spec fn accept(self, outcome: AcceptOutcome) -> (AcceptActionView, ServerView) {
        match outcome {
            AcceptOutcome::Failed => (AcceptActionView::Continue(NetError::AcceptFailure), self),
            AcceptOutcome::Connected => (
                AcceptActionView::Spawn(self.seeded()),
                if self.config.announce {
                    self.broadcast(spec_announcement())
                } else {
                    self
                },
            ),
        }
    }
}

/// The first thing that a peer of an announcing server is sent is the
/// announcement, as one frame.
pub proof fn lemma_newcomer_is_greeted(server: ServerView)
    requires
        server.config.announce,
        server.config.capacity >= 1,
        server.channel.capacity == server.config.capacity,
    ensures
        ({
            let (action, after) = server.accept(AcceptOutcome::Connected);
            &&& action is Spawn
            &&& action->Spawn_0.activate().forward(after.channel).0
                == ConnectionActionView::Write(spec_encode(spec_announcement()))
        }),
{
}

/// Two active connections that have read all there was are both sent the
/// next broadcast, as the same frame.
pub proof fn lemma_broadcast_reaches_all(
    server: ServerView,
    one: ConnectionView,
    other: ConnectionView,
    message: MessageView,
)
    requires
        server.channel.capacity >= 1,
        one.state == ConnectionState::Active,
        other.state == ConnectionState::Active,
        one.cursor == server.channel.history.len(),
        other.cursor == server.channel.history.len(),
    ensures
        one.forward(server.broadcast(message).channel).0 == ConnectionActionView::Write(
            spec_encode(message),
        ),
        other.forward(server.broadcast(message).channel).0 == ConnectionActionView::Write(
            spec_encode(message),
        ),
{
}

/// The server: its configuration and the broadcast channel that all its
/// connections read from.
pub struct Server {
    config: ServerConfig,
    channel: BroadcastChannel,
}

impl View for Server {
    type V = ServerView;

    closed spec fn view(&self) -> ServerView {
        ServerView { config: self.config, channel: self.channel@ }
    }
}

impl Server {
    /// The port that the server listens on unless told otherwise.
    pub const LISTEN_PORT: u16 = 1337;

    /// A server with the default configuration.
    pub fn new() -> (server: Server)
        ensures
            server@ == ServerView::fresh(
                ServerConfig {
                    capacity: DEFAULT_CAPACITY,
                    announce: true,
                    policy: ConnectionPolicy {
                        max_body_size: u32::MAX,
                        decode_tolerance: 0,
                        on_lag: LagPolicy::Resynchronise,
                    },
                },
            ),
    {
        Server::with_config(ServerConfig::default())
    }

    /// A server with the given configuration, on whose channel nothing has
    /// been published yet.
    pub fn with_config(config: ServerConfig) -> (server: Server)
        ensures
            server@ == ServerView::fresh(config),
    {
        Server { config, channel: BroadcastChannel::new(config.capacity) }
    }

    /// The configuration that the server was set up with.
    pub fn config(&self) -> (config: ServerConfig)
        ensures
            config == self@.config,
    {
        self.config
    }

    /// The broadcast channel, for the connections to read from.
    pub fn channel(&self) -> (channel: &BroadcastChannel)
        ensures
            channel@ == self@.channel,
    {
        &self.channel
    }

    /// Sends `message` to every connected peer, by publishing it on the
    /// broadcast channel. This never waits for a peer.
    ///
    /// The channel counts its messages in 64 bits, and the call asks that
    /// the count has not reached the end of them.
    pub fn broadcast(&mut self, message: Message)
        requires
            old(self)@.channel.history.len() < u64::MAX,
        ensures
            final(self)@ == old(self)@.broadcast(message@),
    {
        self.channel.publish(message);
    }

    /// Decides one turn of the accept loop.
    ///
    /// Where the turn publishes the announcement, the call asks what
    /// `broadcast` asks.
    pub fn accept(&mut self, outcome: AcceptOutcome) -> (action: AcceptAction)
        requires
            outcome == AcceptOutcome::Connected && old(self)@.config.announce ==> old(
                self,
            )@.channel.history.len() < u64::MAX,
        ensures
            (action@, final(self)@) == old(self)@.accept(outcome),
    {
        match outcome {
            AcceptOutcome::Failed => AcceptAction::Continue(NetError::AcceptFailure),
            AcceptOutcome::Connected => {
                let subscription = self.channel.subscribe();
                if self.config.announce {
                    self.channel.publish(announcement());
                }
                AcceptAction::Spawn(Connection::new(subscription, self.config.policy))
            },
        }
    }
}

} // verus!
