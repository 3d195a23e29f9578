//! A node of a small publish/broadcast network: the byte-exact framing of its
//! messages, the bounded broadcast channel that fans a message out to every
//! connected peer, and the decisions of the server and of each connection.
//!
//! Everything here is pure: sockets, tasks and waiting belong to the program
//! that drives these functions.

pub mod broadcast;
pub mod codec;
pub mod connection;
pub mod error;
pub mod message;
pub mod reader;
pub mod server;

pub use broadcast::{BroadcastChannel, Delivery, Subscription, DEFAULT_CAPACITY};
pub use codec::{decode, decode_body, decode_header, encode, encode_header, HEADER_SIZE};
pub use connection::{
    Connection, ConnectionAction, ConnectionPolicy, ConnectionState, LagPolicy,
};
pub use error::NetError;
pub use message::{Message, MessageHeader, MessageType, MESSAGE_TYPE_COUNT};
pub use reader::{FrameReader, ReadProgress, ReadState};
pub use server::{announcement, AcceptAction, AcceptOutcome, Server, ServerConfig};
