//! What the flow-control tokens consult of a connection: its flow manager,
//! its stream counts, and the flow-control face of its streams.

use std::collections::BTreeMap;
use vstd::prelude::*;

use crate::flow_mgr::FlowMgr;
use crate::flow_state::FlowState;
use crate::frame::{Frame, StreamType};
use crate::stream_id::{StreamId, StreamIndex};

verus! {

/// The stream counts of a connection, for each directionality.
#[derive(Clone, Copy, Debug)]
pub struct StreamIndexes {
    /// How many unidirectional streams the peer may open.
    pub local_max_stream_uni: StreamIndex,
    /// How many bidirectional streams the peer may open.
    pub local_max_stream_bidi: StreamIndex,
    /// How many unidirectional streams the peer allows this end to open.
    pub peer_max_stream_uni: StreamIndex,
    /// How many bidirectional streams the peer allows this end to open.
    pub peer_max_stream_bidi: StreamIndex,
    /// How many unidirectional streams this end has opened.
    pub peer_next_stream_uni: StreamIndex,
    /// How many bidirectional streams this end has opened.
    pub peer_next_stream_bidi: StreamIndex,
}

impl StreamIndexes {
    /// No stream opened and none allowed.
    pub open spec fn zero() -> StreamIndexes {
        StreamIndexes {
            local_max_stream_uni: StreamIndex(0),
            local_max_stream_bidi: StreamIndex(0),
            peer_max_stream_uni: StreamIndex(0),
            peer_max_stream_bidi: StreamIndex(0),
            peer_next_stream_uni: StreamIndex(0),
            peer_next_stream_bidi: StreamIndex(0),
        }
    }

    /// The limit that this end has set on streams of the given directionality.
    pub open spec fn local_max_stream(&self, stream_type: StreamType) -> StreamIndex {
        match stream_type {
            StreamType::BiDi => self.local_max_stream_bidi,
            StreamType::UniDi => self.local_max_stream_uni,
        }
    }

    /// The limit that the peer has set on streams of the given directionality.
    pub open spec fn peer_max_stream(&self, stream_type: StreamType) -> StreamIndex {
        match stream_type {
            StreamType::BiDi => self.peer_max_stream_bidi,
            StreamType::UniDi => self.peer_max_stream_uni,
        }
    }

    /// How many streams of the given directionality this end has opened under
    /// the peer's limit.
    pub open spec fn peer_next_stream(&self, stream_type: StreamType) -> StreamIndex {
        match stream_type {
            StreamType::BiDi => self.peer_next_stream_bidi,
            StreamType::UniDi => self.peer_next_stream_uni,
        }
    }

    /// Whether the peer's limit keeps this end from opening a stream of the
    /// given directionality.
    pub open spec fn streams_blocked(&self, stream_type: StreamType) -> bool {
        self.peer_next_stream(stream_type).0 >= self.peer_max_stream(stream_type).0
    }
}

impl Default for StreamIndexes {
    /// No stream opened and none allowed.
    fn default() -> (r: Self)
        ensures
            r == StreamIndexes::zero(),
    {
        StreamIndexes {
            local_max_stream_uni: StreamIndex::new(0),
            local_max_stream_bidi: StreamIndex::new(0),
            peer_max_stream_uni: StreamIndex::new(0),
            peer_max_stream_bidi: StreamIndex::new(0),
            peer_next_stream_uni: StreamIndex::new(0),
            peer_next_stream_bidi: StreamIndex::new(0),
        }
    }
}

/// The sending side of a stream, as far as flow control consults it.
#[derive(Clone, Copy, Debug, PartialEq, Eq)]
pub struct SendStream {
    /// The credit that is left to the stream.
    pub credit_avail: u64,
    /// The limit that the peer has set on the stream's data.
    pub max_stream_data: u64,
    /// Whether the peer has acknowledged the reset of the stream, so that the
    /// stream may be retired.
    pub reset_acked: bool,
}

impl SendStream {
    /// A stream under the given limit with the given credit left, not reset.
    pub fn new(max_stream_data: u64, credit_avail: u64) -> (r: Self)
        ensures
            r == (SendStream { credit_avail, max_stream_data, reset_acked: false }),
    {
        SendStream { credit_avail, max_stream_data, reset_acked: false }
    }

    /// The credit that is left to the stream.
    pub fn credit_avail(&self) -> (r: u64)
        ensures
            r == self.credit_avail,
    {
        self.credit_avail
    }

    /// The limit that the peer has set on the stream's data.
    pub fn max_stream_data(&self) -> (r: u64)
        ensures
            r == self.max_stream_data,
    {
        self.max_stream_data
    }

    /// Takes note that the peer has acknowledged the reset of the stream.
    pub fn reset_acked(&mut self)
        ensures
            *final(self) == (SendStream { reset_acked: true, ..*old(self) }),
    {
        self.reset_acked = true;
    }
}

/// The receiving side of a stream, as far as flow control consults it.
#[derive(Clone, Copy, Debug, PartialEq, Eq)]
pub struct RecvStream {
    /// The limit that the stream wants the peer to be told, where it still
    /// needs a flow-control update; `None` where it needs none.
    pub flowc_update: Option<u64>,
}

impl RecvStream {
    /// A stream that wants the given flow-control update, if any.
    pub fn new(flowc_update: Option<u64>) -> (r: Self)
        ensures
            r == (RecvStream { flowc_update }),
    {
        RecvStream { flowc_update }
    }

    /// Queues a flow-control update for the stream `stream_id` if the stream
    /// still needs one, with the limit that the stream wants announced.
    pub fn maybe_send_flowc_update(&self, stream_id: StreamId, flow_mgr: &mut FlowMgr)
        ensures
            final(flow_mgr)@.wf(),
            final(flow_mgr)@ == match self.flowc_update {
                Some(maximum) => old(flow_mgr)@.max_stream_data(stream_id, maximum),
                None => old(flow_mgr)@,
            },
    {
        match self.flowc_update {
            Some(maximum) => flow_mgr.max_stream_data(stream_id, maximum),
            None => {
                proof {
                    use_type_invariant(&*flow_mgr);
                }
            },
        }
    }
}

/// What the flow-control tokens consult of a connection.
#[derive(Debug)]
pub struct Connection {
    pub flow_mgr: FlowMgr,
    pub indexes: StreamIndexes,
    /// The streams that this end sends on, by the number of their identifier.
    pub send_streams: BTreeMap<u64, SendStream>,
    /// The streams that this end receives on, by the number of their
    /// identifier.
    pub recv_streams: BTreeMap<u64, RecvStream>,
}

/// A connection as a mathematical value.
#[verifier::ext_equal]
pub struct ConnState {
    pub flow: FlowState,
    pub indexes: StreamIndexes,
    pub send_streams: Map<u64, SendStream>,
    pub recv_streams: Map<u64, RecvStream>,
}

impl View for Connection {
    type V = ConnState;

    open spec fn view(&self) -> ConnState {
        ConnState {
            flow: self.flow_mgr@,
            indexes: self.indexes,
            send_streams: self.send_streams@,
            recv_streams: self.recv_streams@,
        }
    }
}

impl Default for Connection {
    /// A connection without streams, stream allowances or credit, and with
    /// nothing to send.
    fn default() -> (r: Self)
        ensures
            r@.flow == FlowState::empty(),
            r@.indexes == StreamIndexes::zero(),
            r@.send_streams == Map::<u64, SendStream>::empty(),
            r@.recv_streams == Map::<u64, RecvStream>::empty(),
    {
        Connection {
            flow_mgr: FlowMgr::default(),
            indexes: StreamIndexes::default(),
            send_streams: BTreeMap::new(),
            recv_streams: BTreeMap::new(),
        }
    }
}

impl ConnState {
    /// The connection after `frame` was queued in its flow manager.
    pub open spec fn emit(self, frame: Frame) -> ConnState {
        ConnState { flow: self.flow.emit(frame), ..self }
    }

    /// The frame that has to be queued when `frame` was lost, if any. It is
    /// made from what the connection holds now, not from what `frame` held,
    /// wherever the two may differ.
    pub open spec fn resend(self, frame: Frame) -> Option<Frame> {
        match frame {
            Frame::ResetStream { stream_id, .. } => if self.send_streams.contains_key(stream_id) {
                Some(frame)
            } else {
                None
            },
            Frame::MaxStreams { stream_type, .. } => Some(
                Frame::MaxStreams {
                    stream_type,
                    maximum_streams: self.indexes.local_max_stream(stream_type),
                },
            ),
            Frame::DataBlocked { .. } => if self.flow.credit_avail() == 0 {
                Some(Frame::DataBlocked { data_limit: self.flow.max_data })
            } else {
                None
            },
            Frame::StreamDataBlocked { stream_id, .. } => if self.send_streams.contains_key(
                stream_id,
            ) && self.send_streams[stream_id].credit_avail == 0 {
                Some(
                    Frame::StreamDataBlocked {
                        stream_id,
                        stream_data_limit: self.send_streams[stream_id].max_stream_data,
                    },
                )
            } else {
                None
            },
            Frame::StreamsBlocked { stream_type, .. } => if self.indexes.streams_blocked(
                stream_type,
            ) {
                Some(
                    Frame::StreamsBlocked {
                        stream_type,
                        stream_limit: self.indexes.peer_max_stream(stream_type),
                    },
                )
            } else {
                None
            },
            Frame::StopSending { .. } => Some(frame),
            Frame::MaxStreamData { stream_id, .. } => if self.recv_streams.contains_key(
                stream_id,
            ) {
                match self.recv_streams[stream_id].flowc_update {
                    Some(maximum_stream_data) => Some(
                        Frame::MaxStreamData { stream_id, maximum_stream_data },
                    ),
                    None => None,
                }
            } else {
                None
            },
            _ => None,
        }
    }

    /// The connection after it learned that `frame` was lost.
    pub open spec fn lost(self, frame: Frame) -> ConnState {
        match self.resend(frame) {
            Some(again) => self.emit(again),
            None => self,
        }
    }

    /// The connection after it learned that the peer has received `frame`:
    /// where `frame` reset a stream that the connection still sends on, that
    /// stream knows its reset acknowledged.
    pub open spec fn acked(self, frame: Frame) -> ConnState {
        match frame {
            Frame::ResetStream { stream_id, .. } => if self.send_streams.contains_key(stream_id) {
                ConnState {
                    send_streams: self.send_streams.insert(
                        stream_id,
                        SendStream { reset_acked: true, ..self.send_streams[stream_id] },
                    ),
                    ..self
                }
            } else {
                self
            },
            _ => self,
        }
    }
}

} // verus!
