use quic_flow::connection::{Connection, RecvStream, SendStream};
use quic_flow::flow_mgr::{FlowControlGenerator, FlowControlGeneratorToken};
use quic_flow::frame::{Frame, StreamType};
use quic_flow::stream_id::{StreamId, StreamIndex};

/// Takes the one queued frame out of the connection, as packet assembly
/// would, and leaves the queue empty.
fn send(conn: &mut Connection) -> (Frame, FlowControlGeneratorToken) {
    let mut generator = FlowControlGenerator::default();
    let sent = generator.generate(conn, 1200).unwrap();
    assert_eq!(conn.flow_mgr.peek(), None);
    sent
}

#[test]
fn lost_max_streams_is_sent_again_with_the_current_limit() {
    let mut conn = Connection::default();
    conn.indexes.local_max_stream_uni = StreamIndex::new(10);
    conn.flow_mgr.max_streams(StreamIndex::new(10), StreamType::UniDi);
    let (frame, token) = send(&mut conn);
    assert_eq!(
        frame,
        Frame::MaxStreams {
            stream_type: StreamType::UniDi,
            maximum_streams: StreamIndex::new(10)
        }
    );
    conn.indexes.local_max_stream_uni = StreamIndex::new(20);
    conn.indexes.local_max_stream_bidi = StreamIndex::new(30);
    token.lost(&mut conn);
    assert_eq!(
        conn.flow_mgr.pop(),
        Some(Frame::MaxStreams {
            stream_type: StreamType::UniDi,
            maximum_streams: StreamIndex::new(20)
        })
    );
    assert_eq!(conn.flow_mgr.pop(), None);
}

#[test]
fn lost_max_streams_bidi_reads_the_bidi_limit() {
    let mut conn = Connection::default();
    conn.flow_mgr.max_streams(StreamIndex::new(1), StreamType::BiDi);
    let (_frame, token) = send(&mut conn);
    conn.indexes.local_max_stream_uni = StreamIndex::new(20);
    conn.indexes.local_max_stream_bidi = StreamIndex::new(30);
    token.lost(&mut conn);
    assert_eq!(
        conn.flow_mgr.pop(),
        Some(Frame::MaxStreams {
            stream_type: StreamType::BiDi,
            maximum_streams: StreamIndex::new(30)
        })
    );
}

#[test]
fn lost_data_blocked_is_dropped_once_credit_is_restored() {
    let mut conn = Connection::default();
    conn.flow_mgr.conn_increase_max_credit(100);
    conn.flow_mgr.conn_increase_credit_used(100);
    conn.flow_mgr.data_blocked();
    let (frame, token) = send(&mut conn);
    assert_eq!(frame, Frame::DataBlocked { data_limit: 100 });
    conn.flow_mgr.conn_increase_max_credit(200);
    token.lost(&mut conn);
    assert_eq!(conn.flow_mgr.peek(), None);
}

#[test]
fn lost_data_blocked_is_sent_again_while_no_credit_is_left() {
    let mut conn = Connection::default();
    conn.flow_mgr.conn_increase_max_credit(100);
    conn.flow_mgr.conn_increase_credit_used(100);
    conn.flow_mgr.data_blocked();
    let (_frame, token) = send(&mut conn);
    // More credit came and was used up at once.
    conn.flow_mgr.conn_increase_max_credit(150);
    conn.flow_mgr.conn_increase_credit_used(50);
    token.lost(&mut conn);
    assert_eq!(
        conn.flow_mgr.pop(),
        Some(Frame::DataBlocked { data_limit: 150 })
    );
    assert_eq!(conn.flow_mgr.pop(), None);
}

#[test]
fn reset_is_sent_again_until_acknowledged() {
    let mut conn = Connection::default();
    conn.send_streams.insert(4, SendStream::new(1000, 900));
    conn.flow_mgr.stream_reset(StreamId::new(4), 7, 100);
    let reset = Frame::ResetStream {
        stream_id: 4,
        application_error_code: 7,
        final_size: 100,
    };
    assert_eq!(conn.flow_mgr.peek(), Some(&reset));
    let (frame, token) = send(&mut conn);
    assert_eq!(frame, reset);
    token.lost(&mut conn);
    assert_eq!(conn.flow_mgr.peek(), Some(&reset));
    assert!(!conn.send_streams[&4].reset_acked);

    let (frame, token) = send(&mut conn);
    assert_eq!(frame, reset);
    token.acked(&mut conn);
    assert_eq!(conn.flow_mgr.peek(), None);
    assert_eq!(
        conn.send_streams[&4],
        SendStream {
            credit_avail: 900,
            max_stream_data: 1000,
            reset_acked: true
        }
    );
}

#[test]
fn lost_reset_of_a_stream_that_is_gone_is_dropped() {
    let mut conn = Connection::default();
    conn.send_streams.insert(4, SendStream::new(1000, 900));
    conn.send_streams.insert(8, SendStream::new(1000, 900));
    conn.flow_mgr.stream_reset(StreamId::new(4), 7, 100);
    let (_frame, token) = send(&mut conn);
    conn.send_streams.remove(&4);
    token.lost(&mut conn);
    assert_eq!(conn.flow_mgr.peek(), None);
    assert_eq!(conn.send_streams.len(), 1);
}

#[test]
fn acknowledged_reset_of_a_stream_that_is_gone_changes_nothing() {
    let mut conn = Connection::default();
    conn.send_streams.insert(8, SendStream::new(1000, 900));
    conn.flow_mgr.stream_reset(StreamId::new(4), 7, 100);
    let (_frame, token) = send(&mut conn);
    token.acked(&mut conn);
    assert_eq!(conn.flow_mgr.peek(), None);
    assert_eq!(conn.send_streams.len(), 1);
    assert_eq!(conn.send_streams[&8], SendStream::new(1000, 900));
}

#[test]
fn acknowledged_reset_marks_only_its_stream() {
    let mut conn = Connection::default();
    conn.send_streams.insert(4, SendStream::new(10, 0));
    conn.send_streams.insert(8, SendStream::new(20, 5));
    conn.flow_mgr.stream_reset(StreamId::new(8), 1, 15);
    let (_frame, token) = send(&mut conn);
    token.acked(&mut conn);
    assert!(!conn.send_streams[&4].reset_acked);
    assert!(conn.send_streams[&8].reset_acked);
    assert_eq!(conn.send_streams[&8].credit_avail, 5);
    assert_eq!(conn.send_streams[&8].max_stream_data, 20);
}

#[test]
fn acknowledged_frames_other_than_resets_ask_for_nothing() {
    let mut conn = Connection::default();
    conn.send_streams.insert(4, SendStream::new(10, 0));
    conn.recv_streams.insert(4, RecvStream::new(Some(99)));
    conn.indexes.peer_next_stream_uni = StreamIndex::new(3);

    conn.flow_mgr.stop_sending(StreamId::new(4), 1);
    let (_frame, token) = send(&mut conn);
    token.acked(&mut conn);
    assert_eq!(conn.flow_mgr.peek(), None);

    conn.flow_mgr.stream_data_blocked(StreamId::new(4), 10);
    let (_frame, token) = send(&mut conn);
    token.acked(&mut conn);
    assert_eq!(conn.flow_mgr.peek(), None);

    conn.flow_mgr.max_stream_data(StreamId::new(4), 10);
    let (_frame, token) = send(&mut conn);
    token.acked(&mut conn);
    assert_eq!(conn.flow_mgr.peek(), None);

    conn.flow_mgr.data_blocked();
    let (_frame, token) = send(&mut conn);
    token.acked(&mut conn);
    assert_eq!(conn.flow_mgr.peek(), None);

    conn.flow_mgr.streams_blocked(StreamIndex::new(0), StreamType::UniDi);
    let (_frame, token) = send(&mut conn);
    token.acked(&mut conn);
    assert_eq!(conn.flow_mgr.peek(), None);

    conn.flow_mgr.max_streams(StreamIndex::new(0), StreamType::UniDi);
    let (_frame, token) = send(&mut conn);
    token.acked(&mut conn);
    assert_eq!(conn.flow_mgr.peek(), None);

    conn.flow_mgr.path_response([1; 8]);
    let (_frame, token) = send(&mut conn);
    token.acked(&mut conn);
    assert_eq!(conn.flow_mgr.peek(), None);

    assert_eq!(conn.send_streams[&4], SendStream::new(10, 0));
    assert_eq!(conn.recv_streams[&4], RecvStream::new(Some(99)));
}

#[test]
fn lost_path_response_is_never_sent_again() {
    let mut conn = Connection::default();
    conn.flow_mgr.path_response([1, 2, 3, 4, 5, 6, 7, 8]);
    let (frame, token) = send(&mut conn);
    assert_eq!(
        frame,
        Frame::PathResponse {
            data: [1, 2, 3, 4, 5, 6, 7, 8]
        }
    );
    token.lost(&mut conn);
    assert_eq!(conn.flow_mgr.peek(), None);
    assert_eq!(conn.flow_mgr.pop(), None);
}

#[test]
fn lost_stop_sending_is_sent_again_as_it_was() {
    let mut conn = Connection::default();
    conn.flow_mgr.stop_sending(StreamId::new(12), 77);
    let (_frame, token) = send(&mut conn);
    token.lost(&mut conn);
    assert_eq!(
        conn.flow_mgr.pop(),
        Some(Frame::StopSending {
            stream_id: 12,
            application_error_code: 77
        })
    );
    assert_eq!(conn.flow_mgr.pop(), None);
}

#[test]
fn lost_stream_data_blocked_is_sent_again_with_the_current_limit() {
    let mut conn = Connection::default();
    conn.send_streams.insert(4, SendStream::new(1000, 0));
    conn.flow_mgr.stream_data_blocked(StreamId::new(4), 1000);
    let (_frame, token) = send(&mut conn);
    // The limit was raised and the new credit used up.
    conn.send_streams.insert(4, SendStream::new(1500, 0));
    token.lost(&mut conn);
    assert_eq!(
        conn.flow_mgr.pop(),
        Some(Frame::StreamDataBlocked {
            stream_id: 4,
            stream_data_limit: 1500
        })
    );
    assert_eq!(conn.flow_mgr.pop(), None);
}

#[test]
fn lost_stream_data_blocked_is_dropped_once_the_stream_has_credit() {
    let mut conn = Connection::default();
    conn.send_streams.insert(4, SendStream::new(1000, 0));
    conn.flow_mgr.stream_data_blocked(StreamId::new(4), 1000);
    let (_frame, token) = send(&mut conn);
    conn.send_streams.insert(4, SendStream::new(1500, 1));
    token.lost(&mut conn);
    assert_eq!(conn.flow_mgr.peek(), None);
}

#[test]
fn lost_stream_data_blocked_of_a_stream_that_is_gone_is_dropped() {
    let mut conn = Connection::default();
    conn.send_streams.insert(5, SendStream::new(1000, 0));
    conn.flow_mgr.stream_data_blocked(StreamId::new(4), 1000);
    let (_frame, token) = send(&mut conn);
    token.lost(&mut conn);
    assert_eq!(conn.flow_mgr.peek(), None);
}

#[test]
fn lost_streams_blocked_is_sent_again_while_the_limit_is_reached() {
    let mut conn = Connection::default();
    conn.indexes.peer_max_stream_uni = StreamIndex::new(3);
    conn.indexes.peer_next_stream_uni = StreamIndex::new(3);
    conn.flow_mgr.streams_blocked(StreamIndex::new(2), StreamType::UniDi);
    let (_frame, token) = send(&mut conn);
    token.lost(&mut conn);
    assert_eq!(
        conn.flow_mgr.pop(),
        Some(Frame::StreamsBlocked {
            stream_type: StreamType::UniDi,
            stream_limit: StreamIndex::new(3)
        })
    );

    conn.indexes.peer_max_stream_bidi = StreamIndex::new(5);
    conn.indexes.peer_next_stream_bidi = StreamIndex::new(6);
    conn.flow_mgr.streams_blocked(StreamIndex::new(5), StreamType::BiDi);
    let (_frame, token) = send(&mut conn);
    token.lost(&mut conn);
    assert_eq!(
        conn.flow_mgr.pop(),
        Some(Frame::StreamsBlocked {
            stream_type: StreamType::BiDi,
            stream_limit: StreamIndex::new(5)
        })
    );
    assert_eq!(conn.flow_mgr.pop(), None);
}

#[test]
fn lost_streams_blocked_is_dropped_once_streams_can_be_opened() {
    let mut conn = Connection::default();
    conn.indexes.peer_max_stream_uni = StreamIndex::new(3);
    conn.indexes.peer_next_stream_uni = StreamIndex::new(3);
    // The other direction stays blocked, which must not matter.
    conn.indexes.peer_max_stream_bidi = StreamIndex::new(0);
    conn.indexes.peer_next_stream_bidi = StreamIndex::new(0);
    conn.flow_mgr.streams_blocked(StreamIndex::new(3), StreamType::UniDi);
    let (_frame, token) = send(&mut conn);
    conn.indexes.peer_max_stream_uni = StreamIndex::new(4);
    token.lost(&mut conn);
    assert_eq!(conn.flow_mgr.peek(), None);

    conn.indexes.peer_max_stream_bidi = StreamIndex::new(1);
    conn.flow_mgr.streams_blocked(StreamIndex::new(0), StreamType::BiDi);
    let (_frame, token) = send(&mut conn);
    token.lost(&mut conn);
    assert_eq!(conn.flow_mgr.peek(), None);
}

#[test]
fn lost_max_stream_data_is_left_to_the_receiving_stream() {
    let mut conn = Connection::default();
    conn.recv_streams.insert(4, RecvStream::new(Some(5000)));
    conn.flow_mgr.max_stream_data(StreamId::new(4), 4000);
    let (_frame, token) = send(&mut conn);
    token.lost(&mut conn);
    assert_eq!(
        conn.flow_mgr.pop(),
        Some(Frame::MaxStreamData {
            stream_id: 4,
            maximum_stream_data: 5000
        })
    );
    assert_eq!(conn.flow_mgr.pop(), None);
    assert_eq!(conn.recv_streams[&4], RecvStream::new(Some(5000)));
}

#[test]
fn lost_max_stream_data_is_dropped_when_the_stream_needs_no_update() {
    let mut conn = Connection::default();
    conn.recv_streams.insert(4, RecvStream::new(None));
    conn.flow_mgr.max_stream_data(StreamId::new(4), 4000);
    let (_frame, token) = send(&mut conn);
    token.lost(&mut conn);
    assert_eq!(conn.flow_mgr.peek(), None);
}

#[test]
fn lost_max_stream_data_of_a_stream_that_is_gone_is_dropped() {
    let mut conn = Connection::default();
    conn.recv_streams.insert(8, RecvStream::new(Some(5000)));
    conn.flow_mgr.max_stream_data(StreamId::new(4), 4000);
    let (_frame, token) = send(&mut conn);
    token.lost(&mut conn);
    assert_eq!(conn.flow_mgr.peek(), None);
}

#[test]
fn lost_frame_joins_what_was_queued_meanwhile() {
    let mut conn = Connection::default();
    conn.flow_mgr.stop_sending(StreamId::new(1), 5);
    let (_frame, token) = send(&mut conn);
    conn.flow_mgr.stop_sending(StreamId::new(2), 6);
    conn.flow_mgr.stop_sending(StreamId::new(1), 9);
    // The lost frame takes the place of the newer one under its key.
    token.lost(&mut conn);
    assert_eq!(
        conn.flow_mgr.pop(),
        Some(Frame::StopSending {
            stream_id: 2,
            application_error_code: 6
        })
    );
    assert_eq!(
        conn.flow_mgr.pop(),
        Some(Frame::StopSending {
            stream_id: 1,
            application_error_code: 5
        })
    );
    assert_eq!(conn.flow_mgr.pop(), None);
}

#[test]
fn receiving_stream_queues_its_update_under_the_given_stream() {
    let mut conn = Connection::default();
    RecvStream::new(Some(10)).maybe_send_flowc_update(StreamId::new(3), &mut conn.flow_mgr);
    RecvStream::new(None).maybe_send_flowc_update(StreamId::new(4), &mut conn.flow_mgr);
    assert_eq!(
        conn.flow_mgr.pop(),
        Some(Frame::MaxStreamData {
            stream_id: 3,
            maximum_stream_data: 10
        })
    );
    assert_eq!(conn.flow_mgr.pop(), None);
}

#[test]
fn sending_stream_reports_what_it_holds() {
    let mut ss = SendStream::new(1000, 900);
    assert_eq!(ss.max_stream_data(), 1000);
    assert_eq!(ss.credit_avail(), 900);
    assert!(!ss.reset_acked);
    ss.reset_acked();
    assert!(ss.reset_acked);
    assert_eq!(ss.max_stream_data(), 1000);
    assert_eq!(ss.credit_avail(), 900);
}
