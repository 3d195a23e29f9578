//! What can go wrong at a node.

use vstd::prelude::*;

verus! {

/// The failures that the node tells apart. None of them is fatal to the
/// server: each ends at most the connection on which it arose.
#[derive(Clone, Copy, Debug, PartialEq, Eq, Structural)]
pub enum NetError {
    /// The header is incomplete, or its type byte is the ordinal of no
    /// message type.
    MalformedHeader,
    /// Fewer bytes of body are at hand than the header declares.
    TruncatedBody,
    /// The header declares a body above the configured maximum.
    OversizedBody,
    /// The peer closed the stream, possibly in the middle of a frame.
    ConnectionClosed,
    /// The subscriber fell so far behind that this many messages were
    /// evicted before it read them.
    LaggedSubscriber(u64),
    /// The listener failed to accept a connection.
    AcceptFailure,
}

} // verus!
