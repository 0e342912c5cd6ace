use dianyaapi::transcribe_stream::ConnState;
use dianyaapi::transcribe_stream::Frame;
use dianyaapi::transcribe_stream::ReadOutcome;
use dianyaapi::transcribe_stream::StartAction;
use dianyaapi::transcribe_stream::TranscribeStream;
use dianyaapi::types::ApiError;

fn open_stream(session: &str) -> TranscribeStream {
    let mut s = TranscribeStream::new(session.to_string()).unwrap();
    assert_eq!(s.start().unwrap(), StartAction::Connect);
    s.finish_start(true).unwrap();
    s
}

#[test]
fn new_rejects_empty_session_id() {
    let r = TranscribeStream::new(String::new());
    assert!(matches!(r, Err(ApiError::Validation(_))));
}

#[test]
fn new_starts_idle_with_subscription_attached() {
    let s = TranscribeStream::new("abc".to_string()).unwrap();
    assert_eq!(s.state(), ConnState::Idle);
    assert!(!s.is_ended());
    assert_eq!(s.session_id(), "abc");
    assert_eq!(s.pending_inbound(), 0);
    assert_eq!(s.pending_outbound(), 0);
}

#[test]
fn start_is_idempotent_when_open() {
    let mut s = open_stream("abc");
    assert_eq!(s.state(), ConnState::Open);
    assert_eq!(s.start().unwrap(), StartAction::AlreadyOpen);
    assert_eq!(s.state(), ConnState::Open);
}

#[test]
fn rejected_handshake_fails_the_connection() {
    let mut s = TranscribeStream::new("abc".to_string()).unwrap();
    assert_eq!(s.start().unwrap(), StartAction::Connect);
    let r = s.finish_start(false);
    assert!(matches!(r, Err(ApiError::Transport(_))));
    assert_eq!(s.state(), ConnState::Failed);
    let r2 = s.start();
    assert!(matches!(r2, Err(ApiError::Transport(_))));
}

#[test]
fn stop_is_idempotent() {
    let mut s = open_stream("abc");
    let first = s.stop();
    assert!(first);
    assert_eq!(s.state(), ConnState::Closed);
    assert!(s.is_ended());
    let second = s.stop();
    assert!(!second);
    assert_eq!(s.state(), ConnState::Closed);
    assert!(s.is_ended());
}

#[test]
fn stop_releases_the_handle_exactly_once() {
    let mut idle = TranscribeStream::new("abc".to_string()).unwrap();
    assert!(!idle.stop(), "no handle was acquired before start");

    let mut started = TranscribeStream::new("abc".to_string()).unwrap();
    started.start().unwrap();
    assert!(started.stop(), "a starting connection holds the handle");
    assert!(!started.stop());
}

#[test]
fn read_after_stop_is_stream_ended_despite_pending_data() {
    let mut s = open_stream("abc");
    assert!(s.deliver("one".to_string()));
    assert!(s.deliver("two".to_string()));
    s.stop();
    assert_eq!(s.read_next(), ReadOutcome::StreamEnded);
    assert_eq!(s.read_next(), ReadOutcome::StreamEnded);
}

#[test]
fn writes_appear_on_the_wire_in_grant_order() {
    let mut s = open_stream("abc");
    let n = 5;
    for i in 0..n {
        s.send_text(format!("frame-{i}")).unwrap();
    }
    s.send_bytes(vec![1u8, 2, 3]).unwrap();
    assert_eq!(s.pending_outbound(), n + 1);
    for i in 0..n {
        match s.pop_outbound().unwrap() {
            Frame::Text(t) => assert_eq!(t, format!("frame-{i}")),
            Frame::Binary(_) => panic!("text frame expected"),
        }
    }
    assert_eq!(s.pop_outbound().unwrap(), Frame::Binary(vec![1u8, 2, 3]));
    assert!(s.pop_outbound().is_none());
}

#[test]
fn write_fails_before_start_and_after_stop() {
    let mut s = TranscribeStream::new("abc".to_string()).unwrap();
    let before = s.send_text("early".to_string());
    assert!(matches!(before, Err(ApiError::Transport(_))));

    let mut open = open_stream("abc");
    open.stop();
    let after = open.send_bytes(vec![0u8]);
    assert!(matches!(after, Err(ApiError::Transport(_))));
    assert_eq!(open.pending_outbound(), 0);
}

#[test]
fn write_is_accepted_while_still_starting() {
    let mut s = TranscribeStream::new("abc".to_string()).unwrap();
    s.start().unwrap();
    assert_eq!(s.state(), ConnState::Starting);
    s.send_text("eager".to_string()).unwrap();
    assert_eq!(s.pending_outbound(), 1);
}

#[test]
fn read_on_empty_open_connection_reports_elapsed_wait() {
    let mut s = open_stream("abc");
    assert_eq!(s.read_next(), ReadOutcome::NoFrameWithinTimeout);
    assert_eq!(s.state(), ConnState::Open);
    assert!(!s.is_ended());
}

#[test]
fn timed_out_read_loses_no_frame() {
    let mut s = open_stream("abc");
    assert_eq!(s.read_next(), ReadOutcome::NoFrameWithinTimeout);
    assert!(s.deliver("late".to_string()));
    assert_eq!(s.read_next(), ReadOutcome::Frame("late".to_string()));
}

#[test]
fn reads_consume_frames_in_arrival_order() {
    let mut s = open_stream("abc");
    assert!(s.deliver("one".to_string()));
    assert!(s.deliver("two".to_string()));
    assert!(s.deliver("three".to_string()));
    assert_eq!(s.read_next(), ReadOutcome::Frame("one".to_string()));
    assert_eq!(s.read_next(), ReadOutcome::Frame("two".to_string()));
    assert_eq!(s.read_next(), ReadOutcome::Frame("three".to_string()));
    assert_eq!(s.read_next(), ReadOutcome::NoFrameWithinTimeout);
}

#[test]
fn frames_delivered_before_start_are_kept() {
    let mut s = TranscribeStream::new("abc".to_string()).unwrap();
    assert!(s.deliver("immediate".to_string()));
    s.start().unwrap();
    s.finish_start(true).unwrap();
    assert_eq!(s.read_next(), ReadOutcome::Frame("immediate".to_string()));
}

#[test]
fn delivery_after_stop_is_discarded() {
    let mut s = open_stream("abc");
    s.stop();
    assert!(!s.deliver("dead letter".to_string()));
    assert_eq!(s.pending_inbound(), 0);
}

#[test]
fn host_surface_collapses_both_absent_outcomes() {
    assert_eq!(
        ReadOutcome::Frame("data".to_string()).into_option(),
        Some("data".to_string())
    );
    assert_eq!(ReadOutcome::NoFrameWithinTimeout.into_option(), None);
    assert_eq!(ReadOutcome::StreamEnded.into_option(), None);
}

#[test]
fn end_to_end_session_round_trip() {
    let mut s = TranscribeStream::new("abc".to_string()).unwrap();
    assert_eq!(s.start().unwrap(), StartAction::Connect);
    s.finish_start(true).unwrap();
    s.send_text("ping".to_string()).unwrap();
    assert_eq!(
        s.pop_outbound().unwrap(),
        Frame::Text("ping".to_string()),
        "the written frame reaches the wire intact"
    );
    assert!(s.deliver("ping".to_string()));
    assert_eq!(s.read_next(), ReadOutcome::Frame("ping".to_string()));
    assert!(s.stop());
    assert_eq!(s.read_next(), ReadOutcome::StreamEnded);
}
