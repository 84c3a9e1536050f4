use ponoma::streaming::{check_stream_head, BodyEvent, FrameBuffer, HeadRefusal, NoFrame, MAX_STREAM_FRAME_BYTES};

#[test]
fn open_body_pulls_and_chunks_accumulate() {
    let mut b = FrameBuffer::new();
    assert_eq!(b.after_no_frame(), NoFrame::Pull);
    assert_eq!(b.on_event(BodyEvent::Chunk(vec![1, 2])), None);
    assert_eq!(b.on_event(BodyEvent::Chunk(vec![3])), None);
    assert_eq!(b.buf, vec![1, 2, 3]);
    assert!(!b.eof);
}

#[test]
fn ended_body_reports_incomplete_frame_once() {
    let mut b = FrameBuffer::new();
    b.on_event(BodyEvent::Chunk(vec![9]));
    assert_eq!(b.on_event(BodyEvent::Ended), None);
    assert!(b.eof);
    assert_eq!(b.after_no_frame(), NoFrame::Fail("incomplete streaming response frame".to_string()));
    assert!(b.buf.is_empty());
    assert_eq!(b.after_no_frame(), NoFrame::Done);
}

#[test]
fn transport_failure_stops_reading() {
    let mut b = FrameBuffer::new();
    assert_eq!(b.on_event(BodyEvent::Failed("reset".to_string())), Some("reset".to_string()));
    assert!(b.eof);
    assert_eq!(b.after_no_frame(), NoFrame::Done);
}

#[test]
fn oversized_frame_is_dropped() {
    let mut b = FrameBuffer::new();
    assert_eq!(b.on_event(BodyEvent::Chunk(vec![0; MAX_STREAM_FRAME_BYTES])), None);
    assert_eq!(b.buf.len(), MAX_STREAM_FRAME_BYTES);
    assert_eq!(
        b.on_event(BodyEvent::Chunk(vec![0])),
        Some("streaming response frame exceeded size limit".to_string())
    );
    assert!(b.buf.is_empty());
    assert!(b.eof);
    assert_eq!(MAX_STREAM_FRAME_BYTES, 8 * 1024 * 1024);
}

#[test]
fn stream_head_checks_in_order() {
    assert_eq!(check_stream_head(500, 200, false, false, false), Some(HeadRefusal::WrongStatus));
    assert_eq!(check_stream_head(200, 200, false, false, false), Some(HeadRefusal::NoContentType));
    assert_eq!(check_stream_head(200, 200, true, false, true), Some(HeadRefusal::InvalidContentType));
    assert_eq!(check_stream_head(200, 200, true, true, false), Some(HeadRefusal::UnsupportedContentType));
    assert_eq!(check_stream_head(200, 200, true, true, true), None);
}
