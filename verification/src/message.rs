//! The messages of the handshake, their errors, and the reading of a frame
//! from a stream one piece at a time.

use vstd::prelude::*;
use vstd::bytes::{lemma_auto_spec_u64_to_from_le_bytes, spec_u64_from_le_bytes, u64_from_le_bytes};
use vstd::slice::slice_to_vec;

use crate::flavor::{frame, has_magic, magic, open_frame, OpenedFrame};

pub use crate::flavor::MAGIC_HEADER;

verus! {

/// How the address of a destination is written.
#[derive(Debug, Clone, Copy, PartialEq, Eq, Structural)]
pub enum DestinationType {
    DOMAIN,
    IP,
}

/// How a client moves its traffic after the handshake.
#[derive(Debug, Clone, Copy, PartialEq, Eq, Structural)]
pub enum Transport {
    /// Raw IP packets between two TUN devices.
    IP,
    /// One proxied TCP connection per tunnel.
    SOCKS,
}

/// A message of the handshake.
#[derive(Debug, PartialEq, Eq)]
pub enum Message {
    /// The client's first message: its version and the transport it wants.
    Hello { version: [u8; 3], transport: Transport },
    /// Where a proxied connection should go: address kind, address, port.
    Destination(DestinationType, String, u16),
    /// The server's go-ahead.
    Start,
    /// The server's refusal, with its reason.
    Error(String),
}

/// A message over sequences: its strings as characters, the version as bytes.
pub enum MessageModel {
    Hello { version: Seq<u8>, transport: Transport },
    Destination(DestinationType, Seq<char>, u16),
    Start,
    Error(Seq<char>),
}

impl View for Message {
    type V = MessageModel;

    open spec fn view(&self) -> MessageModel {
        match self {
            Message::Hello { version, transport } => MessageModel::Hello {
                version: version@,
                transport: *transport,
            },
            Message::Destination(t, addr, port) => MessageModel::Destination(*t, addr@, *port),
            Message::Start => MessageModel::Start,
            Message::Error(e) => MessageModel::Error(e@),
        }
    }
}

/// Why a message could not be read.
#[derive(Debug)]
pub enum MessageParsingError {
    /// A fixed-size field was cut short.
    PrimitiveConversion,
    /// A message type number that names no message.
    InvalidMessageType(u16),
    /// A destination type number that names no destination type.
    InvalidDestinationType(u8),
    /// The bytes read where the magic header belongs.
    InvalidHeader(Vec<u8>),
    /// The length field could not be read: bytes requested and available.
    InvalidHeaderLength { requested: usize, available: usize },
}

/// Where a reader of a frame stands: before the header, before the length,
/// or before a payload of the given length.
#[derive(Debug, Clone, Copy, PartialEq, Eq, Structural)]
pub enum FrameStage {
    Header,
    Length,
    Payload(u64),
}

/// What one piece of a frame gives.
#[derive(Debug)]
pub enum FrameStep {
    /// Read on, at this stage.
    Next(FrameStage),
    /// The payload of the frame.
    Done(Vec<u8>),
    /// The frame is refused.
    Failed(MessageParsingError),
}

/// What one piece of a frame gives, over sequences.
pub enum StepModel {
    Next(FrameStage),
    Done(Seq<u8>),
    BadHeader(Seq<u8>),
}

/// How many bytes the reader needs at `stage`.
pub open spec fn wanted(stage: FrameStage) -> nat {
    match stage {
        FrameStage::Header => 4,
        FrameStage::Length => 8,
        FrameStage::Payload(n) => n as nat,
    }
}

/// The step that reading `chunk` at `stage` takes: the header must be the
/// magic header, the length is little-endian, and the payload is handed on.
pub open spec fn read_step(stage: FrameStage, chunk: Seq<u8>) -> StepModel {
    match stage {
        FrameStage::Header => if chunk == magic() {
            StepModel::Next(FrameStage::Length)
        } else {
            StepModel::BadHeader(chunk)
        },
        FrameStage::Length => StepModel::Next(FrameStage::Payload(spec_u64_from_le_bytes(chunk))),
        FrameStage::Payload(_) => StepModel::Done(chunk),
    }
}

impl FrameStage {
    /// A reader that has read nothing yet.
    pub fn start() -> (s: FrameStage)
        ensures
            s == FrameStage::Header,
    {
        FrameStage::Header
    }

    /// How many bytes to read next.
    pub fn bytes_wanted(&self) -> (n: u64)
        ensures
            n == wanted(*self),
    {
        match self {
            FrameStage::Header => 4,
            FrameStage::Length => 8,
            FrameStage::Payload(n) => *n,
        }
    }

    /// Takes the next piece of the frame, of exactly the wanted length.
    pub fn advance(self, chunk: &[u8]) -> (r: FrameStep)
        requires
            chunk@.len() == wanted(self),
        ensures
            match read_step(self, chunk@) {
                StepModel::Next(s) => r == FrameStep::Next(s),
                StepModel::Done(p) => r matches FrameStep::Done(v) && v@ == p,
                StepModel::BadHeader(h) => r matches FrameStep::Failed(
                    MessageParsingError::InvalidHeader(v),
                ) && v@ == h,
            },
    {
        match self {
            FrameStage::Header => {
                if chunk[0] == 0x46u8 && chunk[1] == 0x54u8 && chunk[2] == 0x4cu8 && chunk[3]
                    == 0x53u8 {
                    assert(chunk@ =~= magic());
                    FrameStep::Next(FrameStage::Length)
                } else {
                    assert(chunk@ != magic());
                    FrameStep::Failed(MessageParsingError::InvalidHeader(slice_to_vec(chunk)))
                }
            },
            FrameStage::Length => FrameStep::Next(FrameStage::Payload(u64_from_le_bytes(chunk))),
            FrameStage::Payload(_) => FrameStep::Done(slice_to_vec(chunk)),
        }
    }
}

/// Read piece by piece from the start, a frame gives back the payload that it
/// wraps: the header passes, the length is the payload's, the last piece is
/// the payload, and the pieces together are exactly the frame, no more.
pub proof fn lemma_frame_reads_back(payload: Seq<u8>)
    requires
        payload.len() <= u64::MAX,
    ensures
        ({
            let f = frame(payload);
            &&& wanted(FrameStage::Header) + wanted(FrameStage::Length) + wanted(
                FrameStage::Payload(payload.len() as u64),
            ) == f.len()
            &&& read_step(FrameStage::Header, f.subrange(0, 4)) == StepModel::Next(
                FrameStage::Length,
            )
            &&& read_step(FrameStage::Length, f.subrange(4, 12)) == StepModel::Next(
                FrameStage::Payload(payload.len() as u64),
            )
            &&& read_step(FrameStage::Payload(payload.len() as u64), f.subrange(12, f.len() as int))
                == StepModel::Done(payload)
        }),
{
    lemma_auto_spec_u64_to_from_le_bytes();
    let f = frame(payload);
    assert(f.subrange(0, 4) =~= magic());
    assert(f.subrange(4, 12) =~= vstd::bytes::spec_u64_to_le_bytes(payload.len() as u64));
    assert(f.subrange(12, f.len() as int) =~= payload);
}

/// Reading a frame piece by piece and opening it whole agree: the header
/// passes the one exactly when it passes the other, and both read the same
/// claimed length.
pub proof fn lemma_frame_readers_agree(buf: Seq<u8>)
    requires
        buf.len() >= 12,
    ensures
        (read_step(FrameStage::Header, buf.subrange(0, 4)) == StepModel::Next(FrameStage::Length))
            <==> has_magic(buf),
        has_magic(buf) ==> (open_frame(buf) matches OpenedFrame::Opened(_, l) && read_step(
            FrameStage::Length,
            buf.subrange(4, 12),
        ) == StepModel::Next(FrameStage::Payload(l))),
{
}

} // verus!
