//! Reading one frame from a stream, without the stream.
//!
//! A frame arrives in two reads: first the `HEADER_SIZE` bytes of the
//! header, then as many bytes of body as the header declares. The reader
//! says how many bytes it wants next and is handed what the stream gave. A
//! read that comes back short means that the peer closed the stream in the
//! middle of a frame; that is told apart from bytes that are all there but
//! make no valid frame.

use vstd::prelude::*;
use crate::codec::{
    decode_body, decode_header, lemma_header_round_trip, spec_decode_body, spec_decode_header,
    spec_encode, spec_encode_header, HEADER_SIZE,
};
use crate::error::NetError;
use crate::message::{Message, MessageHeader, MessageView};

verus! {

/// Where in a frame the reader stands.
#[derive(Clone, Copy, Debug, PartialEq, Eq, Structural)]
pub enum ReadState {
    /// Before a frame: the header comes next.
    Header,
    /// The header is in: its body comes next.
    Body(MessageHeader),
}

/// What handing bytes to the reader led to, as a mathematical value.
pub ghost enum ReadProgressView {
    /// The header was accepted; the body is to be read next.
    More,
    /// A whole message was read.
    Complete(MessageView),
    /// The frame was given up.
    Failed(NetError),
}

/// What handing bytes to the reader led to.
#[derive(Debug, PartialEq, Eq)]
pub enum ReadProgress {
    /// The header was accepted; the body is to be read next.
    More,
    /// A whole message was read.
    Complete(Message),
    /// The frame was given up, for the reason given.
    Failed(NetError),
}

impl View for ReadProgress {
    type V = ReadProgressView;

    open spec fn view(&self) -> ReadProgressView {
        match self {
            ReadProgress::More => ReadProgressView::More,
            ReadProgress::Complete(message) => ReadProgressView::Complete(message@),
            ReadProgress::Failed(e) => ReadProgressView::Failed(*e),
        }
    }
}

/// The reader of one connection.
#[derive(Clone, Copy, Debug, PartialEq, Eq, Structural)]
pub struct FrameReader {
    /// The longest body that the reader is willing to read.
    pub max_body_size: u32,
    pub state: ReadState,
}

impl FrameReader {
    /// How many bytes the reader asks for next.
    pub open spec fn spec_wanted(self) -> nat {
        match self.state {
            ReadState::Header => HEADER_SIZE as nat,
            ReadState::Body(header) => header.message_size as nat,
        }
    }

    /// The reader before the next frame.
    pub open spec fn rewound(self) -> FrameReader {
        FrameReader { max_body_size: self.max_body_size, state: ReadState::Header }
    }

    /// What the reader makes of `chunk`, and the reader afterwards.
    ///
    /// A chunk shorter than was asked for ends the frame with
    /// `ConnectionClosed`. A header is refused when it is malformed, and
    /// with `OversizedBody`, before any byte of the body is read, when it
    /// declares more than `max_body_size`. Whatever ends a frame, well or
    /// badly, leaves the reader before the next one.
    pub open spec fn spec_supply(self, chunk: Seq<u8>) -> (ReadProgressView, FrameReader) {
        if chunk.len() < self.spec_wanted() {
            (ReadProgressView::Failed(NetError::ConnectionClosed), self.rewound())
        } else {
            match self.state {
                ReadState::Header => match spec_decode_header(chunk) {
                    Err(e) => (ReadProgressView::Failed(e), self.rewound()),
                    Ok(header) => if header.message_size > self.max_body_size {
                        (ReadProgressView::Failed(NetError::OversizedBody), self.rewound())
                    } else {
                        (
                            ReadProgressView::More,
                            FrameReader {
                                max_body_size: self.max_body_size,
                                state: ReadState::Body(header),
                            },
                        )
                    },
                },
                ReadState::Body(header) => match spec_decode_body(
                    chunk,
                    header,
                    self.max_body_size,
                ) {
                    Err(e) => (ReadProgressView::Failed(e), self.rewound()),
                    Ok(message) => (ReadProgressView::Complete(message), self.rewound()),
                },
            }
        }
    }

    /// A reader before its first frame.
    pub fn new(max_body_size: u32) -> (reader: FrameReader)
        ensures
            reader == (FrameReader { max_body_size, state: ReadState::Header }),
    {
        FrameReader { max_body_size, state: ReadState::Header }
    }

    /// How many bytes to read from the stream next, exactly.
    pub fn wanted(self) -> (count: usize)
        ensures
            count == self.spec_wanted(),
    {
        match self.state {
            ReadState::Header => HEADER_SIZE,
            ReadState::Body(header) => header.message_size as usize,
        }
    }

    /// Hands the reader what the stream gave for its last request.
    pub fn supply(&mut self, chunk: &[u8]) -> (progress: ReadProgress)
        ensures
            (progress@, *final(self)) == old(self).spec_supply(chunk@),
    {
        let state = self.state;
        let wanted: usize = self.wanted();
        self.state = ReadState::Header;
        if chunk.len() < wanted {
            return ReadProgress::Failed(NetError::ConnectionClosed);
        }
        match state {
            ReadState::Header => match decode_header(chunk) {
                Err(e) => ReadProgress::Failed(e),
                Ok(header) => {
                    if header.message_size > self.max_body_size {
                        ReadProgress::Failed(NetError::OversizedBody)
                    } else {
                        self.state = ReadState::Body(header);
                        ReadProgress::More
                    }
                },
            },
            ReadState::Body(header) => match decode_body(chunk, header, self.max_body_size) {
                Err(e) => ReadProgress::Failed(e),
                Ok(message) => ReadProgress::Complete(message),
            },
        }
    }
}

/// A reader before a frame that is handed the header of an encoded message
/// and then its body hands the message back, and stands before the next
/// frame: reading undoes encoding.
pub proof fn lemma_reader_round_trip(reader: FrameReader, message: MessageView)
    requires
        reader.state == ReadState::Header,
        message.is_consistent(),
        message.header.message_size <= reader.max_body_size,
    ensures
        ({
            let frame = spec_encode(message);
            let (first, midway) = reader.spec_supply(frame.subrange(0, HEADER_SIZE as int));
            let (second, after) = midway.spec_supply(
                frame.subrange(HEADER_SIZE as int, frame.len() as int),
            );
            &&& first == ReadProgressView::More
            &&& midway.spec_wanted() == message.body.len()
            &&& second == ReadProgressView::Complete(message)
            &&& after == reader
        }),
{
    let frame = spec_encode(message);
    lemma_header_round_trip(message.header);
    assert(frame.subrange(0, HEADER_SIZE as int) =~= spec_encode_header(message.header));
    let rest = frame.subrange(HEADER_SIZE as int, frame.len() as int);
    assert(rest =~= message.body);
    assert(rest.subrange(0, message.header.message_size as int) =~= message.body);
}

} // verus!
