use pibq::connection::{ConnectionEvent, FrameReader};
use pibq::packet::Packet;
use pibq::thread_guard::ThreadStatus;

fn valid_frame() -> [u8; 128] {
    Packet::temp_packet().data
}

fn invalid_frame() -> [u8; 128] {
    // An all-zero frame stores checksum 0, but its bytes call for 0xFFFF.
    [0u8; 128]
}

#[test]
fn no_frames_no_events() {
    let mut r = FrameReader::new(0, 4000, None);
    let events = r.drain_frames();
    assert_eq!(0, events.len());
    assert_eq!(0, r.buffer.len());
}

#[test]
fn one_frame_one_event() {
    let mut r = FrameReader::new(0, 4000, None);
    r.push_bytes(&valid_frame(), 100);
    assert!(r.take_stale(200).is_none());
    let events = r.drain_frames();
    assert_eq!(1, events.len());
    assert!(matches!(events[0], ConnectionEvent::Packet(_)));
    assert_eq!(0, r.buffer.len());
}

#[test]
fn three_frames_three_events_in_arrival_order() {
    let mut r = FrameReader::new(0, 4000, None);
    let mut stream = Vec::new();
    stream.extend_from_slice(&valid_frame());
    stream.extend_from_slice(&invalid_frame());
    stream.extend_from_slice(&valid_frame());
    r.push_bytes(&stream, 100);
    let events = r.drain_frames();
    assert_eq!(3, events.len());
    assert!(matches!(events[0], ConnectionEvent::Packet(_)));
    assert!(matches!(events[1], ConnectionEvent::InvalidPacket(_)));
    assert!(matches!(events[2], ConnectionEvent::Packet(_)));
    assert_eq!(0, r.buffer.len());
}

#[test]
fn partial_frame_stays_buffered_until_completed() {
    let mut r = FrameReader::new(0, 4000, None);
    let frame = valid_frame();
    r.push_bytes(&frame[0..100], 100);
    let events = r.drain_frames();
    assert_eq!(0, events.len());
    assert_eq!(100, r.buffer.len());
    r.push_bytes(&frame[100..128], 200);
    let events = r.drain_frames();
    assert_eq!(1, events.len());
    assert!(matches!(events[0], ConnectionEvent::Packet(_)));
    assert_eq!(0, r.buffer.len());
}

#[test]
fn stale_partial_frame_is_discarded_once() {
    let mut r = FrameReader::new(0, 4000, None);
    r.push_bytes(&[1, 2, 3], 1000);
    // Within the window: nothing is discarded.
    assert!(r.take_stale(3000).is_none());
    assert_eq!(3, r.buffer.len());
    // Past the window: exactly the buffered bytes come back, once.
    let bad = r.take_stale(6000).expect("stale bytes expected");
    assert_eq!(vec![1, 2, 3], bad);
    assert_eq!(0, r.buffer.len());
    assert!(r.take_stale(10000).is_none());
    assert_eq!(0, r.drain_frames().len());
}

#[test]
fn whole_frames_are_never_reported_stale() {
    let mut r = FrameReader::new(0, 4000, None);
    r.push_bytes(&valid_frame(), 100);
    let events = r.drain_frames();
    assert_eq!(1, events.len());
    // The buffer emptied, so no staleness however long the silence.
    assert!(r.take_stale(1_000_000).is_none());
}

#[test]
fn heartbeat_fires_on_its_interval() {
    let mut r = FrameReader::new(0, 4000, Some(1000));
    assert!(!r.take_heartbeat(500));
    assert!(r.take_heartbeat(1000));
    // The tick restarts the interval.
    assert!(!r.take_heartbeat(1500));
    assert!(r.take_heartbeat(2100));
}

#[test]
fn no_heartbeat_when_not_configured() {
    let mut r = FrameReader::new(0, 4000, None);
    assert!(!r.take_heartbeat(1_000_000));
}

#[test]
fn thread_status_reports_liveness() {
    assert!(ThreadStatus::Running.is_running());
    assert!(!ThreadStatus::FinishedOk.is_running());
    assert!(!ThreadStatus::FinishedWithError.is_running());
}
