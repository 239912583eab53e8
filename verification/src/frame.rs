//! Control frames, the keys under which they wait to be sent, and their
//! encoding.

use vstd::prelude::*;

use crate::stream_id::{StreamId, StreamIndex};
use crate::wire::{encode_varint, lemma_varint_bytes_len, varint_bytes, varint_len};

verus! {

/// An error code chosen by the application, carried when a stream is
/// abandoned.
pub type AppError = u64;

/// Only values below this bound can be written as a variable-length integer.
pub const VARINT_LIMIT: u64 = 0x4000_0000_0000_0000;

pub const FRAME_TYPE_PADDING: u64 = 0x00;

pub const FRAME_TYPE_PING: u64 = 0x01;

pub const FRAME_TYPE_RESET_STREAM: u64 = 0x04;

pub const FRAME_TYPE_STOP_SENDING: u64 = 0x05;

pub const FRAME_TYPE_MAX_DATA: u64 = 0x10;

pub const FRAME_TYPE_MAX_STREAM_DATA: u64 = 0x11;

pub const FRAME_TYPE_MAX_STREAMS_BIDI: u64 = 0x12;

pub const FRAME_TYPE_MAX_STREAMS_UNIDI: u64 = 0x13;

pub const FRAME_TYPE_DATA_BLOCKED: u64 = 0x14;

pub const FRAME_TYPE_STREAM_DATA_BLOCKED: u64 = 0x15;

pub const FRAME_TYPE_STREAMS_BLOCKED_BIDI: u64 = 0x16;

pub const FRAME_TYPE_STREAMS_BLOCKED_UNIDI: u64 = 0x17;

pub const FRAME_TYPE_PATH_RESPONSE: u64 = 0x1b;

/// Whether a stream carries data in both directions or in one only.
#[derive(Clone, Copy, Debug, PartialEq, Eq, Structural, Hash)]
pub enum StreamType {
    BiDi,
    UniDi,
}

/// A control frame, by its fields.
#[derive(Clone, Copy, Debug, PartialEq, Eq)]
pub enum Frame {
    Padding,
    Ping,
    ResetStream { stream_id: u64, application_error_code: AppError, final_size: u64 },
    StopSending { stream_id: u64, application_error_code: AppError },
    MaxData { maximum_data: u64 },
    MaxStreamData { stream_id: u64, maximum_stream_data: u64 },
    MaxStreams { stream_type: StreamType, maximum_streams: StreamIndex },
    DataBlocked { data_limit: u64 },
    StreamDataBlocked { stream_id: u64, stream_data_limit: u64 },
    StreamsBlocked { stream_type: StreamType, stream_limit: StreamIndex },
    PathResponse { data: [u8; 8] },
}

/// The shape of a frame, whatever its fields hold. It only serves as a key and
/// is never sent.
#[derive(Clone, Copy, Debug, PartialEq, Eq, Structural, Hash)]
pub enum FrameKind {
    Padding,
    Ping,
    ResetStream,
    StopSending,
    MaxData,
    MaxStreamData,
    MaxStreams,
    DataBlocked,
    StreamDataBlocked,
    StreamsBlocked,
    PathResponse,
}

/// What a frame speaks about: the connection as a whole, one stream, or all
/// streams of one directionality.
#[derive(Clone, Copy, Debug, PartialEq, Eq, Structural, Hash)]
pub enum Scope {
    Connection,
    Stream(StreamId),
    Direction(StreamType),
}

impl Scope {
    /// Whether frames of this scope and of `other` wait in the same queue.
    pub open spec fn same_queue(self, other: Scope) -> bool {
        match self {
            Scope::Connection => other is Connection,
            Scope::Stream(_) => other is Stream,
            Scope::Direction(_) => other is Direction,
        }
    }
}

/// The key under which a frame waits to be sent. Two frames with the same key
/// carry the same signal about the same thing, so only the later one is worth
/// sending.
#[derive(Clone, Copy, Debug, PartialEq, Eq, Structural, Hash)]
pub struct FrameKey {
    pub scope: Scope,
    pub kind: FrameKind,
}

impl Frame {
    pub open spec fn spec_kind(&self) -> FrameKind {
        match *self {
            Frame::Padding => FrameKind::Padding,
            Frame::Ping => FrameKind::Ping,
            Frame::ResetStream { .. } => FrameKind::ResetStream,
            Frame::StopSending { .. } => FrameKind::StopSending,
            Frame::MaxData { .. } => FrameKind::MaxData,
            Frame::MaxStreamData { .. } => FrameKind::MaxStreamData,
            Frame::MaxStreams { .. } => FrameKind::MaxStreams,
            Frame::DataBlocked { .. } => FrameKind::DataBlocked,
            Frame::StreamDataBlocked { .. } => FrameKind::StreamDataBlocked,
            Frame::StreamsBlocked { .. } => FrameKind::StreamsBlocked,
            Frame::PathResponse { .. } => FrameKind::PathResponse,
        }
    }

    /// The shape of this frame.
    #[verifier::when_used_as_spec(spec_kind)]
    pub fn kind(&self) -> (k: FrameKind)
        ensures
            k == self.spec_kind(),
    {
        match self {
            Frame::Padding => FrameKind::Padding,
            Frame::Ping => FrameKind::Ping,
            Frame::ResetStream { .. } => FrameKind::ResetStream,
            Frame::StopSending { .. } => FrameKind::StopSending,
            Frame::MaxData { .. } => FrameKind::MaxData,
            Frame::MaxStreamData { .. } => FrameKind::MaxStreamData,
            Frame::MaxStreams { .. } => FrameKind::MaxStreams,
            Frame::DataBlocked { .. } => FrameKind::DataBlocked,
            Frame::StreamDataBlocked { .. } => FrameKind::StreamDataBlocked,
            Frame::StreamsBlocked { .. } => FrameKind::StreamsBlocked,
            Frame::PathResponse { .. } => FrameKind::PathResponse,
        }
    }

    pub open spec fn spec_scope(&self) -> Scope {
        match *self {
            Frame::ResetStream { stream_id, .. } => Scope::Stream(StreamId(stream_id)),
            Frame::StopSending { stream_id, .. } => Scope::Stream(StreamId(stream_id)),
            Frame::MaxStreamData { stream_id, .. } => Scope::Stream(StreamId(stream_id)),
            Frame::StreamDataBlocked { stream_id, .. } => Scope::Stream(StreamId(stream_id)),
            Frame::MaxStreams { stream_type, .. } => Scope::Direction(stream_type),
            Frame::StreamsBlocked { stream_type, .. } => Scope::Direction(stream_type),
            _ => Scope::Connection,
        }
    }

    /// What this frame speaks about.
    #[verifier::when_used_as_spec(spec_scope)]
    pub fn scope(&self) -> (s: Scope)
        ensures
            s == self.spec_scope(),
    {
        match self {
            Frame::ResetStream { stream_id, .. } => Scope::Stream(StreamId::new(*stream_id)),
            Frame::StopSending { stream_id, .. } => Scope::Stream(StreamId::new(*stream_id)),
            Frame::MaxStreamData { stream_id, .. } => Scope::Stream(StreamId::new(*stream_id)),
            Frame::StreamDataBlocked { stream_id, .. } => Scope::Stream(
                StreamId::new(*stream_id),
            ),
            Frame::MaxStreams { stream_type, .. } => Scope::Direction(*stream_type),
            Frame::StreamsBlocked { stream_type, .. } => Scope::Direction(*stream_type),
            _ => Scope::Connection,
        }
    }

    pub open spec fn spec_key(&self) -> FrameKey {
        FrameKey { scope: self.spec_scope(), kind: self.spec_kind() }
    }

    /// The key under which this frame waits to be sent.
    #[verifier::when_used_as_spec(spec_key)]
    pub fn key(&self) -> (k: FrameKey)
        ensures
            k == self.spec_key(),
    {
        FrameKey { scope: self.scope(), kind: self.kind() }
    }

    /// The number that announces this frame's shape on the wire.
    pub open spec fn spec_frame_type(&self) -> u64 {
        match *self {
            Frame::Padding => FRAME_TYPE_PADDING,
            Frame::Ping => FRAME_TYPE_PING,
            Frame::ResetStream { .. } => FRAME_TYPE_RESET_STREAM,
            Frame::StopSending { .. } => FRAME_TYPE_STOP_SENDING,
            Frame::MaxData { .. } => FRAME_TYPE_MAX_DATA,
            Frame::MaxStreamData { .. } => FRAME_TYPE_MAX_STREAM_DATA,
            Frame::MaxStreams { stream_type, .. } => match stream_type {
                StreamType::BiDi => FRAME_TYPE_MAX_STREAMS_BIDI,
                StreamType::UniDi => FRAME_TYPE_MAX_STREAMS_UNIDI,
            },
            Frame::DataBlocked { .. } => FRAME_TYPE_DATA_BLOCKED,
            Frame::StreamDataBlocked { .. } => FRAME_TYPE_STREAM_DATA_BLOCKED,
            Frame::StreamsBlocked { stream_type, .. } => match stream_type {
                StreamType::BiDi => FRAME_TYPE_STREAMS_BLOCKED_BIDI,
                StreamType::UniDi => FRAME_TYPE_STREAMS_BLOCKED_UNIDI,
            },
            Frame::PathResponse { .. } => FRAME_TYPE_PATH_RESPONSE,
        }
    }

    /// The number that announces this frame's shape on the wire.
    #[verifier::when_used_as_spec(spec_frame_type)]
    pub fn frame_type(&self) -> (t: u64)
        ensures
            t == self.spec_frame_type(),
    {
        match self {
            Frame::Padding => FRAME_TYPE_PADDING,
            Frame::Ping => FRAME_TYPE_PING,
            Frame::ResetStream { .. } => FRAME_TYPE_RESET_STREAM,
            Frame::StopSending { .. } => FRAME_TYPE_STOP_SENDING,
            Frame::MaxData { .. } => FRAME_TYPE_MAX_DATA,
            Frame::MaxStreamData { .. } => FRAME_TYPE_MAX_STREAM_DATA,
            Frame::MaxStreams { stream_type, .. } => match stream_type {
                StreamType::BiDi => FRAME_TYPE_MAX_STREAMS_BIDI,
                StreamType::UniDi => FRAME_TYPE_MAX_STREAMS_UNIDI,
            },
            Frame::DataBlocked { .. } => FRAME_TYPE_DATA_BLOCKED,
            Frame::StreamDataBlocked { .. } => FRAME_TYPE_STREAM_DATA_BLOCKED,
            Frame::StreamsBlocked { stream_type, .. } => match stream_type {
                StreamType::BiDi => FRAME_TYPE_STREAMS_BLOCKED_BIDI,
                StreamType::UniDi => FRAME_TYPE_STREAMS_BLOCKED_UNIDI,
            },
            Frame::PathResponse { .. } => FRAME_TYPE_PATH_RESPONSE,
        }
    }
    pub open spec fn spec_encodable(&self) -> bool {
        match *self {
            Frame::ResetStream { stream_id, application_error_code, final_size } => {
                &&& stream_id < VARINT_LIMIT
                &&& application_error_code < VARINT_LIMIT
                &&& final_size < VARINT_LIMIT
            },
            Frame::StopSending { stream_id, application_error_code } => {
                &&& stream_id < VARINT_LIMIT
                &&& application_error_code < VARINT_LIMIT
            },
            Frame::MaxData { maximum_data } => maximum_data < VARINT_LIMIT,
            Frame::MaxStreamData { stream_id, maximum_stream_data } => {
                &&& stream_id < VARINT_LIMIT
                &&& maximum_stream_data < VARINT_LIMIT
            },
            Frame::MaxStreams { maximum_streams, .. } => maximum_streams.0 < VARINT_LIMIT,
            Frame::DataBlocked { data_limit } => data_limit < VARINT_LIMIT,
            Frame::StreamDataBlocked { stream_id, stream_data_limit } => {
                &&& stream_id < VARINT_LIMIT
                &&& stream_data_limit < VARINT_LIMIT
            },
            Frame::StreamsBlocked { stream_limit, .. } => stream_limit.0 < VARINT_LIMIT,
            _ => true,
        }
    }

    /// Whether this frame can be written: each of its integers has to be
    /// below [`VARINT_LIMIT`].
    #[verifier::when_used_as_spec(spec_encodable)]
    pub fn encodable(&self) -> (b: bool)
        ensures
            b == self.spec_encodable(),
    {
        match self {
            Frame::ResetStream { stream_id, application_error_code, final_size } => {
                *stream_id < VARINT_LIMIT && *application_error_code < VARINT_LIMIT
                    && *final_size < VARINT_LIMIT
            },
            Frame::StopSending { stream_id, application_error_code } => {
                *stream_id < VARINT_LIMIT && *application_error_code < VARINT_LIMIT
            },
            Frame::MaxData { maximum_data } => *maximum_data < VARINT_LIMIT,
            Frame::MaxStreamData { stream_id, maximum_stream_data } => {
                *stream_id < VARINT_LIMIT && *maximum_stream_data < VARINT_LIMIT
            },
            Frame::MaxStreams { maximum_streams, .. } => maximum_streams.as_u64() < VARINT_LIMIT,
            Frame::DataBlocked { data_limit } => *data_limit < VARINT_LIMIT,
            Frame::StreamDataBlocked { stream_id, stream_data_limit } => {
                *stream_id < VARINT_LIMIT && *stream_data_limit < VARINT_LIMIT
            },
            Frame::StreamsBlocked { stream_limit, .. } => stream_limit.as_u64() < VARINT_LIMIT,
            _ => true,
        }
    }

    /// The bytes of this frame on the wire: its type, then its fields in
    /// order, each integer in the variable-length encoding.
    pub open spec fn wire_bytes(&self) -> Seq<u8> {
        let head = varint_bytes(self.spec_frame_type());
        match *self {
            Frame::Padding => head,
            Frame::Ping => head,
            Frame::ResetStream { stream_id, application_error_code, final_size } => {
                head + varint_bytes(stream_id) + varint_bytes(application_error_code)
                    + varint_bytes(final_size)
            },
            Frame::StopSending { stream_id, application_error_code } => {
                head + varint_bytes(stream_id) + varint_bytes(application_error_code)
            },
            Frame::MaxData { maximum_data } => head + varint_bytes(maximum_data),
            Frame::MaxStreamData { stream_id, maximum_stream_data } => {
                head + varint_bytes(stream_id) + varint_bytes(maximum_stream_data)
            },
            Frame::MaxStreams { maximum_streams, .. } => head + varint_bytes(maximum_streams.0),
            Frame::DataBlocked { data_limit } => head + varint_bytes(data_limit),
            Frame::StreamDataBlocked { stream_id, stream_data_limit } => {
                head + varint_bytes(stream_id) + varint_bytes(stream_data_limit)
            },
            Frame::StreamsBlocked { stream_limit, .. } => head + varint_bytes(stream_limit.0),
            Frame::PathResponse { data } => head + data@,
        }
    }

    /// The number of bytes of this frame on the wire.
    pub open spec fn wire_len(&self) -> nat {
        match *self {
            Frame::Padding => 1,
            Frame::Ping => 1,
            Frame::ResetStream { stream_id, application_error_code, final_size } => {
                1 + varint_len(stream_id) + varint_len(application_error_code) + varint_len(
                    final_size,
                )
            },
            Frame::StopSending { stream_id, application_error_code } => {
                1 + varint_len(stream_id) + varint_len(application_error_code)
            },
            Frame::MaxData { maximum_data } => 1 + varint_len(maximum_data),
            Frame::MaxStreamData { stream_id, maximum_stream_data } => {
                1 + varint_len(stream_id) + varint_len(maximum_stream_data)
            },
            Frame::MaxStreams { maximum_streams, .. } => 1 + varint_len(maximum_streams.0),
            Frame::DataBlocked { data_limit } => 1 + varint_len(data_limit),
            Frame::StreamDataBlocked { stream_id, stream_data_limit } => {
                1 + varint_len(stream_id) + varint_len(stream_data_limit)
            },
            Frame::StreamsBlocked { stream_limit, .. } => 1 + varint_len(stream_limit.0),
            Frame::PathResponse { .. } => 9,
        }
    }

    /// Appends this frame's bytes to `buf`.
    pub fn marshal(&self, buf: &mut Vec<u8>)
        requires
            self.encodable(),
        ensures
            final(buf)@ == old(buf)@ + self.wire_bytes(),
    {
        encode_varint(buf, self.frame_type());
        match self {
            Frame::Padding => {},
            Frame::Ping => {},
            Frame::ResetStream { stream_id, application_error_code, final_size } => {
                encode_varint(buf, *stream_id);
                encode_varint(buf, *application_error_code);
                encode_varint(buf, *final_size);
            },
            Frame::StopSending { stream_id, application_error_code } => {
                encode_varint(buf, *stream_id);
                encode_varint(buf, *application_error_code);
            },
            Frame::MaxData { maximum_data } => {
                encode_varint(buf, *maximum_data);
            },
            Frame::MaxStreamData { stream_id, maximum_stream_data } => {
                encode_varint(buf, *stream_id);
                encode_varint(buf, *maximum_stream_data);
            },
            Frame::MaxStreams { maximum_streams, .. } => {
                encode_varint(buf, maximum_streams.as_u64());
            },
            Frame::DataBlocked { data_limit } => {
                encode_varint(buf, *data_limit);
            },
            Frame::StreamDataBlocked { stream_id, stream_data_limit } => {
                encode_varint(buf, *stream_id);
                encode_varint(buf, *stream_data_limit);
            },
            Frame::StreamsBlocked { stream_limit, .. } => {
                encode_varint(buf, stream_limit.as_u64());
            },
            Frame::PathResponse { data } => {
                let ghost head = buf@;
                let mut i: usize = 0;
                while i < 8
                    invariant
                        i <= 8,
                        buf@ == head + data@.subrange(0, i as int),
                    decreases 8 - i,
                {
                    buf.push(data[i]);
                    i += 1;
                }
                assert(data@.subrange(0, 8) == data@);
            },
        }
    }
}

/// A frame takes as many bytes on the wire as `wire_len` says.
pub proof fn lemma_wire_len(frame: Frame)
    ensures
        frame.wire_bytes().len() == frame.wire_len(),
{
    lemma_varint_bytes_len(frame.spec_frame_type());
    match frame {
        Frame::ResetStream { stream_id, application_error_code, final_size } => {
            lemma_varint_bytes_len(stream_id);
            lemma_varint_bytes_len(application_error_code);
            lemma_varint_bytes_len(final_size);
        },
        Frame::StopSending { stream_id, application_error_code } => {
            lemma_varint_bytes_len(stream_id);
            lemma_varint_bytes_len(application_error_code);
        },
        Frame::MaxData { maximum_data } => {
            lemma_varint_bytes_len(maximum_data);
        },
        Frame::MaxStreamData { stream_id, maximum_stream_data } => {
            lemma_varint_bytes_len(stream_id);
            lemma_varint_bytes_len(maximum_stream_data);
        },
        Frame::MaxStreams { maximum_streams, .. } => {
            lemma_varint_bytes_len(maximum_streams.0);
        },
        Frame::DataBlocked { data_limit } => {
            lemma_varint_bytes_len(data_limit);
        },
        Frame::StreamDataBlocked { stream_id, stream_data_limit } => {
            lemma_varint_bytes_len(stream_id);
            lemma_varint_bytes_len(stream_data_limit);
        },
        Frame::StreamsBlocked { stream_limit, .. } => {
            lemma_varint_bytes_len(stream_limit.0);
        },
        _ => {},
    }
}

} // verus!
