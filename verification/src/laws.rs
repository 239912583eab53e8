//! What holds of the flow manager and of the tokens, whatever the state and
//! the values.

use vstd::prelude::*;

use crate::connection::ConnState;
use crate::flow_state::{
    count_key, holds_key, index_of_key, keys_distinct, lemma_emit_wf, lemma_index_of_key,
    lemma_pop_wf, lemma_upsert_at_key, lemma_upsert_keys_distinct, lemma_upsert_others, upsert,
    FlowState,
};
use crate::frame::{AppError, Frame, FrameKey, FrameKind, Scope, StreamType};
use crate::stream_id::{StreamId, StreamIndex};

verus! {

/// The key of the signal that the connection has no credit left.
pub open spec fn data_blocked_key() -> FrameKey {
    FrameKey { scope: Scope::Connection, kind: FrameKind::DataBlocked }
}

/// The state after the signal that the connection has no credit left was
/// raised `n` times in a row.
pub open spec fn data_blocked_times(s: FlowState, n: nat) -> FlowState
    decreases n,
{
    if n == 0 {
        s
    } else {
        data_blocked_times(s, (n - 1) as nat).data_blocked()
    }
}

/// In a queue with distinct keys, a key waits once or not at all.
pub proof fn lemma_count_key(q: Seq<Frame>, k: FrameKey)
    requires
        keys_distinct(q),
    ensures
        count_key(q, k) == if holds_key(q, k) {
            1nat
        } else {
            0nat
        },
    decreases q.len(),
{
    if q.len() > 0 {
        let front = q.drop_last();
        let n = q.len() - 1;
        assert forall|i: int, j: int| 0 <= i < j < front.len() implies (
        #[trigger] front[i]).spec_key() != (#[trigger] front[j]).spec_key() by {
            assert(front[i] == q[i] && front[j] == q[j]);
        }
        lemma_count_key(front, k);
        if q.last().spec_key() == k {
            assert(q[n].spec_key() == k);
            if holds_key(front, k) {
                let c = index_of_key(front, k);
                assert(front[c] == q[c]);
                assert(q[c].spec_key() != q[n].spec_key());
            }
        } else {
            if holds_key(q, k) {
                let c = index_of_key(q, k);
                assert(c < n);
                assert(front[c] == q[c]);
            }
            if holds_key(front, k) {
                let c = index_of_key(front, k);
                assert(front[c] == q[c]);
            }
        }
    }
}

/// Of two frames queued one after the other under the same key, only the
/// second is left, in the place that the key had or that the first frame got.
pub proof fn lemma_upsert_twice(q: Seq<Frame>, f: Frame, g: Frame)
    requires
        keys_distinct(q),
        f.spec_key() == g.spec_key(),
    ensures
        upsert(upsert(q, f), g) == upsert(q, g),
{
    let k = f.spec_key();
    let qf = upsert(q, f);
    lemma_upsert_keys_distinct(q, f);
    let c = index_of_key(qf, k);
    assert(0 <= c < qf.len() && qf[c].spec_key() == k);
    if holds_key(q, k) {
        let c0 = index_of_key(q, k);
        assert(0 <= c0 < q.len() && q[c0].spec_key() == k);
        assert(qf[c0] == f);
        lemma_index_of_key(qf, c0);
        assert(upsert(qf, g) =~= upsert(q, g));
    } else {
        let n = q.len() as int;
        assert(qf[n] == f);
        lemma_index_of_key(qf, n);
        assert(upsert(qf, g) =~= upsert(q, g));
    }
}

/// Last write wins: where a signal is raised again before its frame was
/// handed out, the state is the same as if it had been raised once, with the
/// later values.
pub proof fn law_emit_replaces(s: FlowState, f: Frame, g: Frame)
    requires
        s.wf(),
        f.spec_key() == g.spec_key(),
    ensures
        s.emit(f).emit(g) == s.emit(g),
{
    match f.spec_scope() {
        Scope::Connection => lemma_upsert_twice(s.from_conn, f, g),
        Scope::Stream(_) => lemma_upsert_twice(s.from_streams, f, g),
        Scope::Direction(_) => lemma_upsert_twice(s.from_stream_types, f, g),
    }
}

/// A queued frame waits under its key, once, and it is the frame that was
/// queued last under that key. What waits under other keys is not touched.
pub proof fn law_emit_waits(s: FlowState, f: Frame, k: FrameKey)
    requires
        s.wf(),
    ensures
        s.emit(f).wf(),
        s.emit(f).waiting(f.spec_key()) == Some(f),
        count_key(s.emit(f).queue(f.spec_scope()), f.spec_key()) == 1,
        k != f.spec_key() ==> s.emit(f).waiting(k) == s.waiting(k),
{
    lemma_emit_wf(s, f);
    let q = s.queue(f.spec_scope());
    let r = s.emit(f).queue(f.spec_scope());
    assert(r == upsert(q, f));
    lemma_upsert_keys_distinct(q, f);
    lemma_count_key(r, f.spec_key());
    if k != f.spec_key() {
        if k.scope.same_queue(f.spec_scope()) {
            let q0 = s.queue(k.scope);
            let r0 = s.emit(f).queue(k.scope);
            assert(q0 == q && r0 == r);
            if holds_key(q, k) {
                let c = index_of_key(q, k);
                lemma_upsert_others(q, f, c);
                lemma_index_of_key(r, c);
            } else if holds_key(r, k) {
                let c = index_of_key(r, k);
                if c < q.len() && q[c].spec_key() != f.spec_key() {
                    lemma_upsert_others(q, f, c);
                } else {
                    lemma_upsert_at_key(q, f, c);
                }
            }
        } else {
            assert(s.emit(f).queue(k.scope) == s.queue(k.scope));
        }
    }
}

/// Raising the signal that the connection has no credit left any number of
/// times in a row is the same as raising it once: one frame with that signal
/// is queued, and where nothing else waited for the connection, it is the
/// only one.
pub proof fn law_data_blocked_dedup(s: FlowState, n: nat)
    requires
        s.wf(),
        n >= 1,
    ensures
        data_blocked_times(s, n) == s.data_blocked(),
        count_key(data_blocked_times(s, n).from_conn, data_blocked_key()) == 1,
        s.from_conn.len() == 0 ==> data_blocked_times(s, n).from_conn.len() == 1,
    decreases n,
{
    let f = Frame::DataBlocked { data_limit: s.max_data };
    if n > 1 {
        law_data_blocked_dedup(s, (n - 1) as nat);
        law_emit_replaces(s, f, f);
    } else {
        assert(data_blocked_times(s, 0) == s);
    }
    law_emit_waits(s, f, data_blocked_key());
    lemma_upsert_keys_distinct(s.from_conn, f);
    if s.from_conn.len() == 0 {
        assert(!holds_key(s.from_conn, f.spec_key()));
    }
}

/// Consuming credit up to the limit, and no further, keeps the state
/// well-formed; at the limit no credit is left.
pub proof fn law_credit_within_limit(s: FlowState, amount: u64)
    requires
        s.wf(),
        amount <= s.credit_avail(),
    ensures
        s.increase_credit_used(amount).wf(),
        s.increase_credit_used(amount).credit_avail() == s.credit_avail() - amount,
        s.used_data + amount == s.max_data ==> s.increase_credit_used(amount).credit_avail() == 0,
{
}

/// The limit on the connection's credit never goes down.
pub proof fn law_max_credit_monotonic(s: FlowState, new: u64)
    requires
        s.wf(),
    ensures
        s.increase_max_credit(new).wf(),
        s.increase_max_credit(new).max_data >= s.max_data,
        s.increase_max_credit(new).max_data >= new,
        s.increase_max_credit(new).max_data == s.max_data || s.increase_max_credit(new).max_data
            == new,
{
}

/// The frame that is handed out next is the one that `peek` shows; once
/// handed out it waits no longer, and every other frame keeps its place in
/// the order.
pub proof fn law_pop_removes_peeked(s: FlowState)
    requires
        s.wf(),
    ensures
        s.pop().wf(),
        s.peek() is None ==> s.pop() == s,
        s.peek() matches Some(frame) ==> {
            &&& s.queued() == seq![frame] + s.pop().queued()
            &&& s.pop().waiting(frame.spec_key()) is None
        },
{
    lemma_pop_wf(s);
    if s.queued().len() > 0 {
        let frame = s.queued()[0];
        let q = s.queue(frame.spec_scope());
        assert(s.queued() =~= seq![frame] + s.pop().queued());
        let r = s.pop().queue(frame.spec_scope());
        assert(q.len() > 0 && q[0] == frame && r == q.drop_first());
        if holds_key(r, frame.spec_key()) {
            let c = index_of_key(r, frame.spec_key());
            assert(r[c] == q[c + 1]);
            assert(q[0].spec_key() != q[c + 1].spec_key());
        }
    } else {
        assert(s.from_conn.len() == 0 && s.from_streams.len() == 0 && s.from_stream_types.len()
            == 0);
    }
}

/// The frame that `peek` shows is the first in the order of handing out, and
/// it still waits under its key: looking at it takes nothing away.
pub proof fn law_peek_shows_head(s: FlowState)
    requires
        s.wf(),
    ensures
        s.peek() is None <==> s.queued().len() == 0,
        s.peek() matches Some(frame) ==> {
            &&& s.queued()[0] == frame
            &&& s.waiting(frame.spec_key()) == Some(frame)
        },
{
    if s.queued().len() > 0 {
        let frame = s.queued()[0];
        let q = s.queue(frame.spec_scope());
        if s.from_conn.len() > 0 {
            assert(frame == s.from_conn[0]);
        } else if s.from_streams.len() > 0 {
            assert(frame == s.from_streams[0]);
        } else {
            assert(frame == s.from_stream_types[0]);
        }
        assert(q.len() > 0 && q[0] == frame);
        lemma_index_of_key(q, 0);
    }
}

/// Frames of the connection are handed out before those of single streams,
/// and those before the frames of stream directionalities.
pub proof fn law_scope_priority(s: FlowState)
    requires
        s.wf(),
    ensures
        s.peek() matches Some(frame) ==> {
            &&& frame.spec_scope() is Stream ==> s.from_conn.len() == 0
            &&& frame.spec_scope() is Direction ==> s.from_conn.len() == 0
                && s.from_streams.len() == 0
        },
{
    if s.from_conn.len() > 0 {
        assert(s.queued()[0] == s.from_conn[0]);
    } else if s.from_streams.len() > 0 {
        assert(s.queued()[0] == s.from_streams[0]);
    } else if s.from_stream_types.len() > 0 {
        assert(s.queued()[0] == s.from_stream_types[0]);
    }
}

/// A lost limit on streams is queued again with the limit that holds now,
/// whatever the lost frame said.
pub proof fn law_lost_max_streams_is_current(
    c: ConnState,
    stream_type: StreamType,
    stale: StreamIndex,
)
    requires
        c.flow.wf(),
    ensures
        ({
            let lost = Frame::MaxStreams { stream_type, maximum_streams: stale };
            let current = Frame::MaxStreams {
                stream_type,
                maximum_streams: c.indexes.local_max_stream(stream_type),
            };
            &&& c.lost(lost) == c.emit(current)
            &&& c.lost(lost).flow.waiting(lost.spec_key()) == Some(current)
        }),
{
    let current = Frame::MaxStreams {
        stream_type,
        maximum_streams: c.indexes.local_max_stream(stream_type),
    };
    law_emit_waits(c.flow, current, current.spec_key());
}

/// A lost signal that the connection has no credit left is not queued again
/// once credit is left; it is queued again, under the limit that holds now,
/// while none is.
pub proof fn law_lost_data_blocked(c: ConnState, stale: u64)
    requires
        c.flow.wf(),
    ensures
        c.flow.credit_avail() > 0 ==> c.lost(Frame::DataBlocked { data_limit: stale }) == c,
        c.flow.credit_avail() == 0 ==> c.lost(Frame::DataBlocked { data_limit: stale }).flow
            == c.flow.data_blocked(),
{
}

/// Once the peer has granted more credit than is consumed, a lost signal
/// that the connection has no credit left is not queued again.
pub proof fn law_restored_credit_suppresses_data_blocked(c: ConnState, new: u64, stale: u64)
    requires
        c.flow.wf(),
        new > c.flow.used_data,
    ensures
        ({
            let restored = ConnState { flow: c.flow.increase_max_credit(new), ..c };
            restored.lost(Frame::DataBlocked { data_limit: stale }) == restored
        }),
{
}

/// A lost reset of a stream that the connection still sends on is queued
/// again as it was; one of a stream that is gone is not.
pub proof fn law_lost_reset_stream(
    c: ConnState,
    stream_id: StreamId,
    application_error_code: AppError,
    final_size: u64,
)
    requires
        c.flow.wf(),
    ensures
        ({
            let reset = Frame::ResetStream {
                stream_id: stream_id.0,
                application_error_code,
                final_size,
            };
            if c.send_streams.contains_key(stream_id.0) {
                &&& c.lost(reset).flow == c.flow.stream_reset(
                    stream_id,
                    application_error_code,
                    final_size,
                )
                &&& c.lost(reset).flow.waiting(reset.spec_key()) == Some(reset)
            } else {
                c.lost(reset) == c
            }
        }),
{
    let reset = Frame::ResetStream { stream_id: stream_id.0, application_error_code, final_size };
    law_emit_waits(c.flow, reset, reset.spec_key());
}

/// A lost path response is never queued again, nor is a lost frame of a
/// kind that the flow manager does not queue.
pub proof fn law_lost_never_resent(c: ConnState, frame: Frame)
    requires
        frame is PathResponse || frame is Padding || frame is Ping || frame is MaxData,
    ensures
        c.lost(frame) == c,
{
}

/// Whatever frame was lost or received, the flow manager of the connection
/// stays well-formed.
pub proof fn law_outcome_keeps_well_formed(c: ConnState, frame: Frame)
    requires
        c.flow.wf(),
    ensures
        c.lost(frame).flow.wf(),
        c.acked(frame).flow.wf(),
{
    match c.resend(frame) {
        Some(again) => lemma_emit_wf(c.flow, again),
        None => {},
    }
}

/// Learning what became of a frame changes nothing of the connection but
/// its flow manager's queues, where the frame was lost, and the one stream
/// whose reset was acknowledged, where it was received.
pub proof fn law_outcome_frame(c: ConnState, frame: Frame)
    ensures
        c.lost(frame).indexes == c.indexes,
        c.lost(frame).send_streams == c.send_streams,
        c.lost(frame).recv_streams == c.recv_streams,
        c.lost(frame).flow.used_data == c.flow.used_data,
        c.lost(frame).flow.max_data == c.flow.max_data,
        c.acked(frame).flow == c.flow,
        c.acked(frame).indexes == c.indexes,
        c.acked(frame).recv_streams == c.recv_streams,
        !(frame is ResetStream) ==> c.acked(frame) == c,
{
}

} // verus!
