//! Tracks possibly redundant flow-control signals and turns them into the
//! frames that have to be sent to the peer.

use vstd::prelude::*;

use crate::connection::{ConnState, Connection};
use crate::flow_state::{
    holds_key, keys_distinct, lemma_emit_wf, lemma_index_of_key, lemma_pop_wf, upsert, FlowState,
};
use crate::frame::{lemma_wire_len, AppError, Frame, Scope, StreamType};
use crate::stream_id::{StreamId, StreamIndex};

verus! {

/// Queues `frame` in `queue`: in the place of the frame that waits under the
/// same key, or at the end where none does.
fn queue_frame(queue: &mut Vec<Frame>, frame: Frame)
    requires
        keys_distinct(old(queue)@),
    ensures
        final(queue)@ == upsert(old(queue)@, frame),
{
    let key = frame.key();
    let mut i: usize = 0;
    while i < queue.len()
        invariant
            i <= queue.len(),
            queue@ == old(queue)@,
            key == frame.spec_key(),
            keys_distinct(queue@),
            forall|j: int| 0 <= j < i ==> (#[trigger] queue@[j]).spec_key() != key,
        decreases queue.len() - i,
    {
        if queue[i].key() == key {
            proof {
                lemma_index_of_key(queue@, i as int);
            }
            queue[i] = frame;
            return;
        }
        i += 1;
    }
    assert(!holds_key(queue@, key));
    queue.push(frame);
}

/// The signals that wait to be sent to the peer as frames, and the
/// connection's credit.
///
/// A signal that is raised again before its frame was handed out replaces the
/// frame that waits, so that at most one frame waits per signal and scope and
/// it holds the latest values. Frames are handed out by scope: those of the
/// connection first, then those of single streams, then those of stream
/// directionalities; within a scope, the frame whose key has waited longest
/// goes first.
#[derive(Debug)]
pub struct FlowMgr {
    from_conn: Vec<Frame>,
    from_streams: Vec<Frame>,
    from_stream_types: Vec<Frame>,
    used_data: u64,
    max_data: u64,
    need_close_frame: bool,
}

impl View for FlowMgr {
    type V = FlowState;

    closed spec fn view(&self) -> FlowState {
        FlowState {
            from_conn: self.from_conn@,
            from_streams: self.from_streams@,
            from_stream_types: self.from_stream_types@,
            used_data: self.used_data,
            max_data: self.max_data,
            need_close_frame: self.need_close_frame,
        }
    }
}

impl Default for FlowMgr {
    /// A flow manager with nothing queued and no credit.
    fn default() -> (r: Self)
        ensures
            r@ == FlowState::empty(),
    {
        FlowMgr {
            from_conn: Vec::new(),
            from_streams: Vec::new(),
            from_stream_types: Vec::new(),
            used_data: 0,
            max_data: 0,
            need_close_frame: false,
        }
    }
}

impl FlowMgr {
    /// Every flow manager is well-formed, at all times.
    #[verifier::type_invariant]
    pub open spec fn well_formed(&self) -> bool {
        self@.wf()
    }

    /// The credit that is left to the connection.
    pub fn conn_credit_avail(&self) -> (r: u64)
        ensures
            self@.wf(),
            r == self@.credit_avail(),
    {
        proof {
            use_type_invariant(self);
        }
        self.max_data - self.used_data
    }

    /// Consumes `amount` of the connection's credit. No more can be consumed
    /// than is left.
    pub fn conn_increase_credit_used(&mut self, amount: u64)
        requires
            amount <= old(self)@.credit_avail(),
        ensures
            final(self)@.wf(),
            final(self)@ == old(self)@.increase_credit_used(amount),
            final(self)@.used_data == old(self)@.used_data + amount,
    {
        proof {
            use_type_invariant(&*self);
        }
        self.used_data = self.used_data + amount;
    }

    /// Takes note that the peer granted credit up to `new`. The limit never
    /// goes down: a grant that is not larger than the one in force is ignored.
    pub fn conn_increase_max_credit(&mut self, new: u64)
        ensures
            final(self)@.wf(),
            final(self)@ == old(self)@.increase_max_credit(new),
    {
        proof {
            use_type_invariant(&*self);
        }
        if new > self.max_data {
            self.max_data = new;
        }
    }

    /// Queues `frame` in the queue of its scope. The queue leaves the manager
    /// while it changes, so that the manager is well-formed at every step.
    fn emit(&mut self, frame: Frame)
        ensures
            final(self)@.wf(),
            final(self)@ == old(self)@.emit(frame),
    {
        proof {
            use_type_invariant(&*self);
            lemma_emit_wf(self@, frame);
        }
        match frame.scope() {
            Scope::Connection => {
                let mut queue = Vec::new();
                std::mem::swap(&mut queue, &mut self.from_conn);
                queue_frame(&mut queue, frame);
                self.from_conn = queue;
            },
            Scope::Stream(_) => {
                let mut queue = Vec::new();
                std::mem::swap(&mut queue, &mut self.from_streams);
                queue_frame(&mut queue, frame);
                self.from_streams = queue;
            },
            Scope::Direction(_) => {
                let mut queue = Vec::new();
                std::mem::swap(&mut queue, &mut self.from_stream_types);
                queue_frame(&mut queue, frame);
                self.from_stream_types = queue;
            },
        }
    }

    /// Tells the peer that the connection has no credit left, and under which
    /// limit.
    pub fn data_blocked(&mut self)
        ensures
            final(self)@.wf(),
            final(self)@ == old(self)@.data_blocked(),
    {
        let frame = Frame::DataBlocked { data_limit: self.max_data };
        self.emit(frame);
    }

    /// Answers a path challenge with the bytes that it carried.
    pub fn path_response(&mut self, data: [u8; 8])
        ensures
            final(self)@.wf(),
            final(self)@ == old(self)@.path_response(data),
    {
        self.emit(Frame::PathResponse { data });
    }

    /// Tells the receiving peer that the stream is reset.
    pub fn stream_reset(
        &mut self,
        stream_id: StreamId,
        application_error_code: AppError,
        final_size: u64,
    )
        ensures
            final(self)@.wf(),
            final(self)@ == old(self)@.stream_reset(stream_id, application_error_code, final_size),
    {
        let frame = Frame::ResetStream {
            stream_id: stream_id.as_u64(),
            application_error_code,
            final_size,
        };
        self.emit(frame);
    }

    /// Tells the sending peer that the stream is of no interest any more.
    pub fn stop_sending(&mut self, stream_id: StreamId, application_error_code: AppError)
        ensures
            final(self)@.wf(),
            final(self)@ == old(self)@.stop_sending(stream_id, application_error_code),
    {
        let frame = Frame::StopSending { stream_id: stream_id.as_u64(), application_error_code };
        self.emit(frame);
    }

    /// Grants the sending peer more credit on the stream.
    pub fn max_stream_data(&mut self, stream_id: StreamId, maximum_stream_data: u64)
        ensures
            final(self)@.wf(),
            final(self)@ == old(self)@.max_stream_data(stream_id, maximum_stream_data),
    {
        let frame = Frame::MaxStreamData { stream_id: stream_id.as_u64(), maximum_stream_data };
        self.emit(frame);
    }

    /// Tells the receiving peer that the stream needs more credit.
    pub fn stream_data_blocked(&mut self, stream_id: StreamId, stream_data_limit: u64)
        ensures
            final(self)@.wf(),
            final(self)@ == old(self)@.stream_data_blocked(stream_id, stream_data_limit),
    {
        let frame = Frame::StreamDataBlocked { stream_id: stream_id.as_u64(), stream_data_limit };
        self.emit(frame);
    }

    /// Allows the peer to open streams of the given directionality up to
    /// `stream_limit`.
    pub fn max_streams(&mut self, stream_limit: StreamIndex, stream_type: StreamType)
        ensures
            final(self)@.wf(),
            final(self)@ == old(self)@.max_streams(stream_limit, stream_type),
    {
        let frame = Frame::MaxStreams { stream_type, maximum_streams: stream_limit };
        self.emit(frame);
    }

    /// Tells the peer that its limit of `stream_limit` keeps streams of the
    /// given directionality from being opened.
    pub fn streams_blocked(&mut self, stream_limit: StreamIndex, stream_type: StreamType)
        ensures
            final(self)@.wf(),
            final(self)@ == old(self)@.streams_blocked(stream_limit, stream_type),
    {
        let frame = Frame::StreamsBlocked { stream_type, stream_limit };
        self.emit(frame);
    }

    /// The frame that `pop` would hand out, which stays queued.
    pub fn peek(&self) -> (r: Option<&Frame>)
        ensures
            self@.wf(),
            match r {
                Some(frame) => self@.peek() == Some(*frame),
                None => self@.peek() is None,
            },
    {
        proof {
            use_type_invariant(self);
        }
        if self.from_conn.len() > 0 {
            Some(&self.from_conn[0])
        } else if self.from_streams.len() > 0 {
            Some(&self.from_streams[0])
        } else if self.from_stream_types.len() > 0 {
            Some(&self.from_stream_types[0])
        } else {
            None
        }
    }

    /// Takes the next frame out of its queue and hands it out: the frame that
    /// `peek` showed. Frames of the connection go first, then those of single
    /// streams, then those of stream directionalities.
    pub fn pop(&mut self) -> (r: Option<Frame>)
        ensures
            final(self)@.wf(),
            r == old(self)@.peek(),
            final(self)@ == old(self)@.pop(),
    {
        proof {
            use_type_invariant(&*self);
            lemma_pop_wf(self@);
        }
        if self.from_conn.len() > 0 {
            let mut queue = Vec::new();
            std::mem::swap(&mut queue, &mut self.from_conn);
            let frame = queue.remove(0);
            self.from_conn = queue;
            Some(frame)
        } else if self.from_streams.len() > 0 {
            let mut queue = Vec::new();
            std::mem::swap(&mut queue, &mut self.from_streams);
            let frame = queue.remove(0);
            self.from_streams = queue;
            Some(frame)
        } else if self.from_stream_types.len() > 0 {
            let mut queue = Vec::new();
            std::mem::swap(&mut queue, &mut self.from_stream_types);
            let frame = queue.remove(0);
            self.from_stream_types = queue;
            Some(frame)
        } else {
            None
        }
    }

    /// Whether a frame that closes the connection has to be sent.
    pub fn need_close_frame(&self) -> (r: bool)
        ensures
            self@.wf(),
            r == self@.need_close_frame,
    {
        proof {
            use_type_invariant(self);
        }
        self.need_close_frame
    }

    /// Sets whether a frame that closes the connection has to be sent.
    pub fn set_need_close_frame(&mut self, new: bool)
        ensures
            final(self)@.wf(),
            final(self)@ == old(self)@.set_need_close_frame(new),
    {
        proof {
            use_type_invariant(&*self);
        }
        self.need_close_frame = new
    }
}

/// Hands the frames of a connection's flow manager to packet assembly.
#[derive(Debug)]
pub struct FlowControlGenerator {}

impl Default for FlowControlGenerator {
    fn default() -> (r: Self)
        ensures
            r == (FlowControlGenerator {  }),
    {
        FlowControlGenerator {  }
    }
}

impl FlowControlGenerator {
    /// Hands out the next frame of the connection's flow manager if it fits
    /// into `remaining` bytes, together with the token that has to learn what
    /// became of it. A frame that does not fit stays queued for the next
    /// packet.
    ///
    /// The frame is written out to see how many bytes it takes, so it has to
    /// be one that can be written.
    pub fn generate(&mut self, conn: &mut Connection, remaining: usize) -> (r: Option<
        (Frame, FlowControlGeneratorToken),
    >)
        requires
            old(conn)@.flow.peek() matches Some(frame) ==> frame.encodable(),
        ensures
            match old(conn)@.flow.peek() {
                Some(frame) => if frame.wire_len() <= remaining {
                    &&& r matches Some((sent, token))
                    &&& sent == frame
                    &&& token@ == frame
                    &&& final(conn)@ == (ConnState { flow: old(conn)@.flow.pop(), ..old(conn)@ })
                } else {
                    &&& r is None
                    &&& final(conn)@ == old(conn)@
                },
                None => {
                    &&& r is None
                    &&& final(conn)@ == old(conn)@
                },
            },
    {
        if let Some(frame) = conn.flow_mgr.peek() {
            // Writing the frame out is a costly way to find out whether it
            // fits, but one that cannot disagree with what is sent.
            let mut d: Vec<u8> = Vec::new();
            frame.marshal(&mut d);
            proof {
                lemma_wire_len(*frame);
            }
            if d.len() > remaining {
                return None;
            }
        } else {
            return None;
        }
        // There is enough space: the frame goes into the packet.
        let frame = conn.flow_mgr.pop().unwrap();
        Some((frame, FlowControlGeneratorToken(frame)))
    }
}

/// Stands for one frame that was put into one packet, until the fate of that
/// packet is known. It is told once, either that the packet was acknowledged
/// or that it was lost, and is used up by that.
#[derive(Debug)]
pub struct FlowControlGeneratorToken(Frame);

impl View for FlowControlGeneratorToken {
    type V = Frame;

    /// The frame that the token stands for.
    closed spec fn view(&self) -> Frame {
        self.0
    }
}

impl FlowControlGeneratorToken {
    /// The frame that the token stands for.
    pub fn frame(&self) -> (r: &Frame)
        ensures
            *r == self@,
    {
        &self.0
    }

    /// The peer has received the frame. Where the frame reset a stream that
    /// the connection still sends on, that stream learns that its reset was
    /// acknowledged. No other frame asks for anything.
    pub fn acked(self, conn: &mut Connection)
        ensures
            final(conn)@ == old(conn)@.acked(self@),
    {
        if let Frame::ResetStream { stream_id, .. } = self.0 {
            let found = match conn.send_streams.get(&stream_id) {
                Some(ss) => Some(*ss),
                None => None,
            };
            if let Some(mut ss) = found {
                ss.reset_acked();
                conn.send_streams.insert(stream_id, ss);
            }
        }
    }

    /// The frame was lost. Whether its signal is queued again, and with which
    /// values, is decided by what the connection holds now: see
    /// [`ConnState::resend`].
    pub fn lost(self, conn: &mut Connection)
        ensures
            final(conn)@ == old(conn)@.lost(self@),
    {
        match self.0 {
            // A reset is sent again for as long as the stream is there.
            Frame::ResetStream { stream_id, application_error_code, final_size } => {
                if conn.send_streams.contains_key(&stream_id) {
                    conn.flow_mgr.stream_reset(
                        StreamId::new(stream_id),
                        application_error_code,
                        final_size,
                    );
                }
            },
            // The limit is sent again, with the value that holds now.
            Frame::MaxStreams { stream_type, .. } => {
                let local_max = match stream_type {
                    StreamType::BiDi => conn.indexes.local_max_stream_bidi,
                    StreamType::UniDi => conn.indexes.local_max_stream_uni,
                };
                conn.flow_mgr.max_streams(local_max, stream_type)
            },
            // What says "blocked" is sent again only while that is the case.
            Frame::DataBlocked { .. } => {
                if conn.flow_mgr.conn_credit_avail() == 0 {
                    conn.flow_mgr.data_blocked()
                }
            },
            Frame::StreamDataBlocked { stream_id, .. } => {
                let found = match conn.send_streams.get(&stream_id) {
                    Some(ss) => Some(*ss),
                    None => None,
                };
                if let Some(ss) = found {
                    if ss.credit_avail() == 0 {
                        conn.flow_mgr.stream_data_blocked(
                            StreamId::new(stream_id),
                            ss.max_stream_data(),
                        )
                    }
                }
            },
            Frame::StreamsBlocked { stream_type, .. } => match stream_type {
                StreamType::UniDi => {
                    if conn.indexes.peer_next_stream_uni.as_u64()
                        >= conn.indexes.peer_max_stream_uni.as_u64() {
                        conn.flow_mgr.streams_blocked(
                            conn.indexes.peer_max_stream_uni,
                            StreamType::UniDi,
                        );
                    }
                },
                StreamType::BiDi => {
                    if conn.indexes.peer_next_stream_bidi.as_u64()
                        >= conn.indexes.peer_max_stream_bidi.as_u64() {
                        conn.flow_mgr.streams_blocked(
                            conn.indexes.peer_max_stream_bidi,
                            StreamType::BiDi,
                        );
                    }
                },
            },
            // The request to stop sending is sent again as it was.
            Frame::StopSending { stream_id, application_error_code } => {
                conn.flow_mgr.stop_sending(StreamId::new(stream_id), application_error_code)
            },
            // Whether more credit is granted is for the stream to say.
            Frame::MaxStreamData { stream_id, .. } => {
                let found = match conn.recv_streams.get(&stream_id) {
                    Some(rs) => Some(*rs),
                    None => None,
                };
                if let Some(rs) = found {
                    rs.maybe_send_flowc_update(StreamId::new(stream_id), &mut conn.flow_mgr)
                }
            },
            // A path response is never sent again, nor is any frame that
            // this module does not queue.
            _ => {},
        }
    }
}

} // verus!
