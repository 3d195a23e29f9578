//! The messages that travel between peers.

use vstd::prelude::*;
use vstd::std_specs::convert::FromSpecImpl;

verus! {

/// What a message is for. The position of a variant in this list is its
/// ordinal on the wire, so the order is part of the protocol.
#[derive(Clone, Copy, Debug, PartialEq, Eq, Structural)]
pub enum MessageType {
    /// A bulletin board asks to post to this node; the body names the board
    /// and carries its public key.
    RequestForSubscription,
    /// The request for subscription is granted.
    ConfirmRFS,
    /// The request for subscription is refused.
    DenyRFS,
    /// A client asks which bulletin boards the node is subscribed to.
    RequestActiveSubscriptions,
    /// The answer to `RequestActiveSubscriptions`.
    ReturnActiveSubscriptions,
    /// A bulletin board posts to the chain.
    PostBlockchain,
    /// A client asks for the whole chain.
    RequestBlockchain,
    /// The answer to `RequestBlockchain`.
    ReturnBlockchain,
    /// A request for a resource of a bulletin board.
    RequestResource,
}

/// The number of message types; every ordinal is below it.
pub const MESSAGE_TYPE_COUNT: u8 = 9;

impl MessageType {
    /// The ordinal of a type: its position in the declaration, from 0.
    pub open spec fn spec_ordinal(self) -> u8 {
        match self {
            MessageType::RequestForSubscription => 0,
            MessageType::ConfirmRFS => 1,
            MessageType::DenyRFS => 2,
            MessageType::RequestActiveSubscriptions => 3,
            MessageType::ReturnActiveSubscriptions => 4,
            MessageType::PostBlockchain => 5,
            MessageType::RequestBlockchain => 6,
            MessageType::ReturnBlockchain => 7,
            MessageType::RequestResource => 8,
        }
    }

    /// The type with ordinal `n`, if there is one: the inverse of
    /// `spec_ordinal`.
    pub open spec fn spec_from_ordinal(n: u8) -> Option<MessageType> {
        if exists|t: MessageType| t.spec_ordinal() == n {
            Some(choose|t: MessageType| t.spec_ordinal() == n)
        } else {
            None
        }
    }

    /// Every ordinal is below `MESSAGE_TYPE_COUNT`, no two types share one,
    /// and every byte below `MESSAGE_TYPE_COUNT` is the ordinal of a type.
    pub proof fn lemma_ordinals(n: u8)
        ensures
            forall|t: MessageType| #[trigger] t.spec_ordinal() < MESSAGE_TYPE_COUNT,
            forall|t: MessageType|
                Self::spec_from_ordinal(#[trigger] t.spec_ordinal()) == Some(t),
            Self::spec_from_ordinal(n) is Some <==> n < MESSAGE_TYPE_COUNT,
            Self::spec_from_ordinal(n) matches Some(t) ==> t.spec_ordinal() == n,
    {
        assert forall|t: MessageType|
            Self::spec_from_ordinal(#[trigger] t.spec_ordinal()) == Some(t) by {
            let u = choose|u: MessageType| u.spec_ordinal() == t.spec_ordinal();
            assert(u.spec_ordinal() == t.spec_ordinal());
        }
        if n < MESSAGE_TYPE_COUNT {
            let t = Self::witness(n);
            assert(t.spec_ordinal() == n);
        }
    }

    /// A type whose ordinal is `n`, for `n` below `MESSAGE_TYPE_COUNT`.
    spec fn witness(n: u8) -> MessageType {
        if n == 0 {
            MessageType::RequestForSubscription
        } else if n == 1 {
            MessageType::ConfirmRFS
        } else if n == 2 {
            MessageType::DenyRFS
        } else if n == 3 {
            MessageType::RequestActiveSubscriptions
        } else if n == 4 {
            MessageType::ReturnActiveSubscriptions
        } else if n == 5 {
            MessageType::PostBlockchain
        } else if n == 6 {
            MessageType::RequestBlockchain
        } else if n == 7 {
            MessageType::ReturnBlockchain
        } else {
            MessageType::RequestResource
        }
    }

    /// The ordinal that stands for this type on the wire.
    #[verifier::when_used_as_spec(spec_ordinal)]
    pub fn ordinal(self) -> (n: u8)
        ensures
            n == self.spec_ordinal(),
            n < MESSAGE_TYPE_COUNT,
    {
        match self {
            MessageType::RequestForSubscription => 0,
            MessageType::ConfirmRFS => 1,
            MessageType::DenyRFS => 2,
            MessageType::RequestActiveSubscriptions => 3,
            MessageType::ReturnActiveSubscriptions => 4,
            MessageType::PostBlockchain => 5,
            MessageType::RequestBlockchain => 6,
            MessageType::ReturnBlockchain => 7,
            MessageType::RequestResource => 8,
        }
    }

    /// The type that the ordinal `n` stands for; `None` for a byte that is
    /// the ordinal of no type.
    pub fn from_ordinal(n: u8) -> (r: Option<MessageType>)
        ensures
            r == Self::spec_from_ordinal(n),
            r is Some <==> n < MESSAGE_TYPE_COUNT,
            r matches Some(t) ==> t.spec_ordinal() == n,
    {
        let r = match n {
            0 => Some(MessageType::RequestForSubscription),
            1 => Some(MessageType::ConfirmRFS),
            2 => Some(MessageType::DenyRFS),
            3 => Some(MessageType::RequestActiveSubscriptions),
            4 => Some(MessageType::ReturnActiveSubscriptions),
            5 => Some(MessageType::PostBlockchain),
            6 => Some(MessageType::RequestBlockchain),
            7 => Some(MessageType::ReturnBlockchain),
            8 => Some(MessageType::RequestResource),
            _ => None,
        };
        proof {
            Self::lemma_ordinals(n);
        }
        r
    }
}

impl From<MessageType> for u8 {
    fn from(value: MessageType) -> (n: u8) {
        value.ordinal()
    }
}

impl FromSpecImpl<MessageType> for u8 {
    open spec fn obeys_from_spec() -> bool {
        true
    }

    open spec fn from_spec(value: MessageType) -> u8 {
        value.spec_ordinal()
    }
}

/// The fixed-size record in front of every body: what the message is for and
/// how many bytes of body follow.
#[derive(Clone, Copy, Debug, PartialEq, Eq, Structural)]
pub struct MessageHeader {
    pub message_type: MessageType,
    pub message_size: u32,
}

/// One message: a header and the bytes of its body.
#[derive(Debug, PartialEq, Eq)]
pub struct Message {
    pub header: MessageHeader,
    pub body: Vec<u8>,
}

/// A message as a mathematical value: its header and the sequence of its
/// body's bytes.
pub ghost struct MessageView {
    pub header: MessageHeader,
    pub body: Seq<u8>,
}

impl MessageView {
    /// The body is as long as the header declares.
    pub open spec fn is_consistent(self) -> bool {
        self.body.len() == self.header.message_size
    }
}

impl View for Message {
    type V = MessageView;

    open spec fn view(&self) -> MessageView {
        MessageView { header: self.header, body: self.body@ }
    }
}

impl Clone for Message {
    fn clone(&self) -> (copy: Message)
        ensures
            copy@ == self@,
    {
        Message { header: self.header, body: self.body.clone() }
    }
}

impl Message {
    /// The body is as long as the header declares.
    pub open spec fn spec_is_consistent(&self) -> bool {
        self@.is_consistent()
    }

    /// Whether the body is as long as the header declares. Only such a
    /// message survives a trip over the wire unchanged.
    #[verifier::when_used_as_spec(spec_is_consistent)]
    pub fn is_consistent(&self) -> (ok: bool)
        ensures
            ok == self@.is_consistent(),
    {
        self.body.len() == self.header.message_size as usize
    }

    /// A message of the given type around `body`, with the size that the
    /// body has. `None` when the body is too long for the header's 32-bit
    /// size field.
    pub fn new(message_type: MessageType, body: Vec<u8>) -> (made: Option<Message>)
        ensures
            made is Some <==> body@.len() <= u32::MAX,
            made matches Some(m) ==> m@.is_consistent()
                && m.header.message_type == message_type
                && m@.body == body@,
    {
        if body.len() > u32::MAX as usize {
            None
        } else {
            let message_size: u32 = body.len() as u32;
            Some(Message { header: MessageHeader { message_type, message_size }, body })
        }
    }
}

} // verus!
