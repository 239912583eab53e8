//! The flow manager as a mathematical value: three queues of frames, the
//! connection's credit, and a flag. The contracts of the flow manager speak of
//! this value.

use vstd::prelude::*;

use crate::frame::{AppError, Frame, FrameKey, Scope, StreamType};
use crate::stream_id::{StreamId, StreamIndex};

verus! {

/// No two frames of `q` wait under the same key.
pub open spec fn keys_distinct(q: Seq<Frame>) -> bool {
    forall|i: int, j: int|
        0 <= i < j < q.len() ==> (#[trigger] q[i]).spec_key() != (#[trigger] q[j]).spec_key()
}

/// Some frame of `q` waits under the key `k`.
pub open spec fn holds_key(q: Seq<Frame>, k: FrameKey) -> bool {
    exists|i: int| 0 <= i < q.len() && (#[trigger] q[i]).spec_key() == k
}

/// Where in `q` a frame waits under the key `k`, if one does.
pub open spec fn index_of_key(q: Seq<Frame>, k: FrameKey) -> int {
    choose|i: int| 0 <= i < q.len() && (#[trigger] q[i]).spec_key() == k
}

/// The number of frames of `q` that wait under the key `k`.
pub open spec fn count_key(q: Seq<Frame>, k: FrameKey) -> nat
    decreases q.len(),
{
    if q.len() == 0 {
        0
    } else {
        count_key(q.drop_last(), k) + if q.last().spec_key() == k {
            1nat
        } else {
            0nat
        }
    }
}

/// `q` after `f` was queued: `f` takes the place of the frame that waited
/// under its key, or the end of the queue where there was none.
pub open spec fn upsert(q: Seq<Frame>, f: Frame) -> Seq<Frame> {
    if holds_key(q, f.spec_key()) {
        q.update(index_of_key(q, f.spec_key()), f)
    } else {
        q.push(f)
    }
}

/// What a flow manager holds.
#[verifier::ext_equal]
pub struct FlowState {
    /// The frames that speak of the connection as a whole, oldest key first.
    pub from_conn: Seq<Frame>,
    /// The frames that speak of one stream each, oldest key first.
    pub from_streams: Seq<Frame>,
    /// The frames that speak of all streams of one directionality, oldest key
    /// first.
    pub from_stream_types: Seq<Frame>,
    /// The credit that the connection has consumed.
    pub used_data: u64,
    /// The credit that the peer has granted to the connection.
    pub max_data: u64,
    /// Whether a frame that closes the connection has to be sent.
    pub need_close_frame: bool,
}

impl FlowState {
    /// A flow manager with nothing queued, no credit, and no close frame due.
    pub open spec fn empty() -> FlowState {
        FlowState {
            from_conn: Seq::empty(),
            from_streams: Seq::empty(),
            from_stream_types: Seq::empty(),
            used_data: 0,
            max_data: 0,
            need_close_frame: false,
        }
    }

    /// What holds of every flow manager: no more credit is consumed than was
    /// granted, each queue holds at most one frame per key, and each frame
    /// waits in the queue of its scope.
    pub open spec fn wf(self) -> bool {
        &&& self.used_data <= self.max_data
        &&& keys_distinct(self.from_conn)
        &&& keys_distinct(self.from_streams)
        &&& keys_distinct(self.from_stream_types)
        &&& forall|i: int|
            0 <= i < self.from_conn.len() ==> (#[trigger] self.from_conn[i]).spec_scope()
                is Connection
        &&& forall|i: int|
            0 <= i < self.from_streams.len() ==> (#[trigger] self.from_streams[i]).spec_scope()
                is Stream
        &&& forall|i: int|
            0 <= i < self.from_stream_types.len() ==> (
            #[trigger] self.from_stream_types[i]).spec_scope() is Direction
    }

    /// The credit that is left to the connection.
    pub open spec fn credit_avail(self) -> int {
        self.max_data - self.used_data
    }

    /// The state after `amount` more credit was consumed.
    pub open spec fn increase_credit_used(self, amount: u64) -> FlowState {
        FlowState { used_data: (self.used_data + amount) as u64, ..self }
    }

    /// The state after the peer granted credit up to `new`. A grant that is
    /// not larger than the one in force changes nothing.
    pub open spec fn increase_max_credit(self, new: u64) -> FlowState {
        FlowState {
            max_data: if new > self.max_data {
                new
            } else {
                self.max_data
            },
            ..self
        }
    }

    /// The state after `f` was queued, in the queue of its scope.
    pub open spec fn emit(self, f: Frame) -> FlowState {
        match f.spec_scope() {
            Scope::Connection => FlowState { from_conn: upsert(self.from_conn, f), ..self },
            Scope::Stream(_) => FlowState { from_streams: upsert(self.from_streams, f), ..self },
            Scope::Direction(_) => FlowState {
                from_stream_types: upsert(self.from_stream_types, f),
                ..self
            },
        }
    }

    /// The state after the peer was to be told that the connection has no
    /// credit left: the frame holds the limit in force.
    pub open spec fn data_blocked(self) -> FlowState {
        self.emit(Frame::DataBlocked { data_limit: self.max_data })
    }

    /// The state after a path challenge was to be answered with `data`.
    pub open spec fn path_response(self, data: [u8; 8]) -> FlowState {
        self.emit(Frame::PathResponse { data })
    }

    /// The state after the peer was to be told that the stream is reset.
    pub open spec fn stream_reset(
        self,
        stream_id: StreamId,
        application_error_code: AppError,
        final_size: u64,
    ) -> FlowState {
        self.emit(
            Frame::ResetStream { stream_id: stream_id.0, application_error_code, final_size },
        )
    }

    /// The state after the peer was to be asked to stop sending on the
    /// stream.
    pub open spec fn stop_sending(
        self,
        stream_id: StreamId,
        application_error_code: AppError,
    ) -> FlowState {
        self.emit(Frame::StopSending { stream_id: stream_id.0, application_error_code })
    }

    /// The state after the peer was to be granted credit on the stream up to
    /// `maximum_stream_data`.
    pub open spec fn max_stream_data(
        self,
        stream_id: StreamId,
        maximum_stream_data: u64,
    ) -> FlowState {
        self.emit(Frame::MaxStreamData { stream_id: stream_id.0, maximum_stream_data })
    }

    /// The state after the peer was to be told that the stream has no credit
    /// left under `stream_data_limit`.
    pub open spec fn stream_data_blocked(
        self,
        stream_id: StreamId,
        stream_data_limit: u64,
    ) -> FlowState {
        self.emit(Frame::StreamDataBlocked { stream_id: stream_id.0, stream_data_limit })
    }

    /// The state after the peer was to be allowed streams of the given
    /// directionality up to `stream_limit`.
    pub open spec fn max_streams(
        self,
        stream_limit: StreamIndex,
        stream_type: StreamType,
    ) -> FlowState {
        self.emit(Frame::MaxStreams { stream_type, maximum_streams: stream_limit })
    }

    /// The state after the peer was to be told that its limit of
    /// `stream_limit` keeps streams of the given directionality from being
    /// opened.
    pub open spec fn streams_blocked(
        self,
        stream_limit: StreamIndex,
        stream_type: StreamType,
    ) -> FlowState {
        self.emit(Frame::StreamsBlocked { stream_type, stream_limit })
    }

    /// The queue in which the frames of the given scope wait.
    pub open spec fn queue(self, scope: Scope) -> Seq<Frame> {
        match scope {
            Scope::Connection => self.from_conn,
            Scope::Stream(_) => self.from_streams,
            Scope::Direction(_) => self.from_stream_types,
        }
    }

    /// The frame that waits under the key `k`, if one does.
    pub open spec fn waiting(self, k: FrameKey) -> Option<Frame> {
        let q = self.queue(k.scope);
        if holds_key(q, k) {
            Some(q[index_of_key(q, k)])
        } else {
            None
        }
    }

    /// All queued frames in the order in which they will be handed out: those
    /// of the connection first, then those of single streams, then those of
    /// stream directionalities.
    pub open spec fn queued(self) -> Seq<Frame> {
        self.from_conn + self.from_streams + self.from_stream_types
    }

    /// The frame that is handed out next, if any is queued.
    pub open spec fn peek(self) -> Option<Frame> {
        if self.queued().len() > 0 {
            Some(self.queued()[0])
        } else {
            None
        }
    }

    /// The state after the next frame was handed out.
    pub open spec fn pop(self) -> FlowState {
        if self.from_conn.len() > 0 {
            FlowState { from_conn: self.from_conn.drop_first(), ..self }
        } else if self.from_streams.len() > 0 {
            FlowState { from_streams: self.from_streams.drop_first(), ..self }
        } else if self.from_stream_types.len() > 0 {
            FlowState { from_stream_types: self.from_stream_types.drop_first(), ..self }
        } else {
            self
        }
    }

    /// The state after it was noted whether a frame that closes the connection
    /// has to be sent.
    pub open spec fn set_need_close_frame(self, new: bool) -> FlowState {
        FlowState { need_close_frame: new, ..self }
    }
}

/// Under a key that waits once, `index_of_key` is the place where it waits.
pub proof fn lemma_index_of_key(q: Seq<Frame>, i: int)
    requires
        keys_distinct(q),
        0 <= i < q.len(),
    ensures
        holds_key(q, q[i].spec_key()),
        index_of_key(q, q[i].spec_key()) == i,
{
    let k = q[i].spec_key();
    let c = index_of_key(q, k);
    assert(0 <= c < q.len() && q[c].spec_key() == k);
    if c < i {
        assert(q[c].spec_key() != q[i].spec_key());
    } else if i < c {
        assert(q[i].spec_key() != q[c].spec_key());
    }
}

/// Queuing a frame keeps the keys of a queue distinct, and the queue holds
/// the frame afterwards, once.
pub proof fn lemma_upsert_keys_distinct(q: Seq<Frame>, f: Frame)
    requires
        keys_distinct(q),
    ensures
        keys_distinct(upsert(q, f)),
        holds_key(upsert(q, f), f.spec_key()),
        upsert(q, f)[index_of_key(upsert(q, f), f.spec_key())] == f,
        upsert(q, f).len() == if holds_key(q, f.spec_key()) {
            q.len()
        } else {
            q.len() + 1
        },
{
    let k = f.spec_key();
    let r = upsert(q, f);
    if holds_key(q, k) {
        let c = index_of_key(q, k);
        assert(0 <= c < q.len() && q[c].spec_key() == k);
        assert forall|i: int, j: int| 0 <= i < j < r.len() implies (#[trigger] r[i]).spec_key()
            != (#[trigger] r[j]).spec_key() by {
            assert(r[i].spec_key() == q[i].spec_key());
            assert(r[j].spec_key() == q[j].spec_key());
        }
        assert(r[c] == f);
        lemma_index_of_key(r, c);
    } else {
        let n = q.len() as int;
        assert forall|i: int, j: int| 0 <= i < j < r.len() implies (#[trigger] r[i]).spec_key()
            != (#[trigger] r[j]).spec_key() by {
            if j == n {
                assert(r[i] == q[i]);
            } else {
                assert(r[i] == q[i] && r[j] == q[j]);
            }
        }
        assert(r[n] == f);
        lemma_index_of_key(r, n);
    }
}

/// Queuing a frame leaves every frame of the queue in place but the one that
/// waited under its key.
pub proof fn lemma_upsert_others(q: Seq<Frame>, f: Frame, i: int)
    requires
        0 <= i < q.len(),
        q[i].spec_key() != f.spec_key(),
    ensures
        upsert(q, f)[i] == q[i],
{
    let k = f.spec_key();
    if holds_key(q, k) {
        let c = index_of_key(q, k);
        assert(0 <= c < q.len() && q[c].spec_key() == k);
    }
}

/// Every state that queuing a frame leads to from a well-formed state is
/// well-formed.
pub proof fn lemma_emit_wf(s: FlowState, f: Frame)
    requires
        s.wf(),
    ensures
        s.emit(f).wf(),
{
    let t = s.emit(f);
    match f.spec_scope() {
        Scope::Connection => {
            lemma_upsert_keys_distinct(s.from_conn, f);
            assert forall|i: int| 0 <= i < t.from_conn.len() implies (
            #[trigger] t.from_conn[i]).spec_scope() is Connection by {
                if i < s.from_conn.len() && s.from_conn[i].spec_key() != f.spec_key() {
                    lemma_upsert_others(s.from_conn, f, i);
                } else {
                    lemma_upsert_at_key(s.from_conn, f, i);
                }
            }
        },
        Scope::Stream(_) => {
            lemma_upsert_keys_distinct(s.from_streams, f);
            assert forall|i: int| 0 <= i < t.from_streams.len() implies (
            #[trigger] t.from_streams[i]).spec_scope() is Stream by {
                if i < s.from_streams.len() && s.from_streams[i].spec_key() != f.spec_key() {
                    lemma_upsert_others(s.from_streams, f, i);
                } else {
                    lemma_upsert_at_key(s.from_streams, f, i);
                }
            }
        },
        Scope::Direction(_) => {
            lemma_upsert_keys_distinct(s.from_stream_types, f);
            assert forall|i: int| 0 <= i < t.from_stream_types.len() implies (
            #[trigger] t.from_stream_types[i]).spec_scope() is Direction by {
                if i < s.from_stream_types.len() && s.from_stream_types[i].spec_key()
                    != f.spec_key() {
                    lemma_upsert_others(s.from_stream_types, f, i);
                } else {
                    lemma_upsert_at_key(s.from_stream_types, f, i);
                }
            }
        },
    }
}

/// After a frame was queued, it stands wherever the queue is new or held its
/// key.
pub proof fn lemma_upsert_at_key(q: Seq<Frame>, f: Frame, i: int)
    requires
        keys_distinct(q),
        0 <= i < upsert(q, f).len(),
        i >= q.len() || q[i].spec_key() == f.spec_key(),
    ensures
        upsert(q, f)[i] == f,
{
    let k = f.spec_key();
    if holds_key(q, k) {
        let c = index_of_key(q, k);
        assert(0 <= c < q.len() && q[c].spec_key() == k);
        lemma_index_of_key(q, i);
    } else {
        if i < q.len() {
            assert(q[i].spec_key() == k);
        }
    }
}

/// Handing out the next frame of a well-formed state leaves it well-formed.
pub proof fn lemma_pop_wf(s: FlowState)
    requires
        s.wf(),
    ensures
        s.pop().wf(),
{
    let t = s.pop();
    if s.from_conn.len() > 0 {
        assert forall|i: int, j: int| 0 <= i < j < t.from_conn.len() implies (
        #[trigger] t.from_conn[i]).spec_key() != (#[trigger] t.from_conn[j]).spec_key() by {
            assert(t.from_conn[i] == s.from_conn[i + 1]);
            assert(t.from_conn[j] == s.from_conn[j + 1]);
        }
        assert forall|i: int| 0 <= i < t.from_conn.len() implies (
        #[trigger] t.from_conn[i]).spec_scope() is Connection by {
            assert(t.from_conn[i] == s.from_conn[i + 1]);
        }
    } else if s.from_streams.len() > 0 {
        assert forall|i: int, j: int| 0 <= i < j < t.from_streams.len() implies (
        #[trigger] t.from_streams[i]).spec_key() != (#[trigger] t.from_streams[j]).spec_key() by {
            assert(t.from_streams[i] == s.from_streams[i + 1]);
            assert(t.from_streams[j] == s.from_streams[j + 1]);
        }
        assert forall|i: int| 0 <= i < t.from_streams.len() implies (
        #[trigger] t.from_streams[i]).spec_scope() is Stream by {
            assert(t.from_streams[i] == s.from_streams[i + 1]);
        }
    } else if s.from_stream_types.len() > 0 {
        assert forall|i: int, j: int| 0 <= i < j < t.from_stream_types.len() implies (
        #[trigger] t.from_stream_types[i]).spec_key() != (
        #[trigger] t.from_stream_types[j]).spec_key() by {
            assert(t.from_stream_types[i] == s.from_stream_types[i + 1]);
            assert(t.from_stream_types[j] == s.from_stream_types[j + 1]);
        }
        assert forall|i: int| 0 <= i < t.from_stream_types.len() implies (
        #[trigger] t.from_stream_types[i]).spec_scope() is Direction by {
            assert(t.from_stream_types[i] == s.from_stream_types[i + 1]);
        }
    }
}

} // verus!
