use pibq::connection::ConnectionEvent;
use pibq::harvester::{failure_detail_of, failure_kind_of, reading_from_packet, FailureKind,
    HarvesterState};
use pibq::packet::Packet;

fn fresh() -> HarvesterState {
    HarvesterState::new(5000, 7500)
}

#[test]
fn repeated_failure_kind_is_reported_once() {
    let mut h = fresh();
    let first = h.bt_error(FailureKind::ReadError, None, 1000);
    let second = h.bt_error(FailureKind::ReadError, None, 2000);
    assert!(first.status.is_some());
    assert!(second.status.is_none());
}

#[test]
fn changed_failure_kind_is_reported_again() {
    let mut h = fresh();
    let first = h.bt_error(FailureKind::ReadError, None, 1000);
    let second = h.bt_error(FailureKind::InvalidPacket, None, 2000);
    assert!(first.status.is_some());
    assert!(second.status.is_some());
}

#[test]
fn exceeding_error_threshold_asks_for_rebuild_and_resets_timers() {
    let mut h = fresh();
    h.note_sent(500);
    h.note_received(600);
    for i in 0..3 {
        let outcome = h.bt_error(FailureKind::ReadError, None, 1000 + i);
        assert!(!outcome.rebuild);
    }
    assert!(h.last_send_ms.is_some());
    let fourth = h.bt_error(FailureKind::ReadError, None, 2000);
    assert!(fourth.rebuild);
    assert_eq!(0, h.error_count);
    assert_eq!(None, h.last_send_ms);
    assert_eq!(None, h.last_receive_ms);
    // With the timers at "no data yet", the next poll is due at once.
    assert!(h.poll_due(2001));
}

#[test]
fn first_success_after_disconnection_persists_one_connect_row() {
    let mut h = fresh();
    let first = h.bt_success(1000).expect("connect row expected");
    assert!(first.is_connect);
    assert!(!first.is_disconnect);
    assert_eq!(None, first.info);
    assert_eq!(1000, first.created_at_ms);
    assert!(h.bt_success(2000).is_none());
}

#[test]
fn success_clears_the_episode_so_the_next_failure_reports() {
    let mut h = fresh();
    assert!(h.bt_error(FailureKind::ReadError, None, 1000).status.is_some());
    assert!(h.bt_error(FailureKind::ReadError, None, 2000).status.is_none());
    assert!(h.bt_success(3000).is_some());
    // A fresh episode: the same kind is news again.
    assert!(h.bt_error(FailureKind::ReadError, None, 4000).status.is_some());
}

#[test]
fn failure_reports_carry_their_reason() {
    let mut h = fresh();
    let st = h
        .bt_error(FailureKind::ReadError, Some("device gone".to_string()), 1000)
        .status
        .unwrap();
    assert!(st.is_disconnect);
    assert!(!st.is_connect);
    assert_eq!(Some("Read Error: device gone".to_string()), st.info);

    let mut h = fresh();
    let st = h.bt_error(FailureKind::Timeout, None, 1000).status.unwrap();
    assert_eq!(Some("Timeout".to_string()), st.info);

    let mut h = fresh();
    let st = h
        .bt_error(FailureKind::WriteError, Some("pipe closed".to_string()), 1000)
        .status
        .unwrap();
    assert_eq!(Some("Write Error: pipe closed".to_string()), st.info);

    let mut h = fresh();
    let frame = Packet::new();
    let frame_detail = failure_detail_of(&ConnectionEvent::InvalidPacket(frame)).unwrap();
    let st = h
        .bt_error(FailureKind::InvalidPacket, Some(frame_detail.clone()), 1000)
        .status
        .unwrap();
    assert_eq!(Some(format!("Invalid Packet: [{}]", frame_detail)), st.info);

    let mut h = fresh();
    let st = h
        .bt_error(FailureKind::BadData, Some("1:2:3".to_string()), 1000)
        .status
        .unwrap();
    assert_eq!(Some("Bad Data: [1:2:3]".to_string()), st.info);
}

#[test]
fn bad_frame_reports_identify_the_whole_frame() {
    let mut data = [0u8; 128];
    data[0] = 1;
    data[127] = 255;
    let p = Packet::from_bytes(&data);
    let detail = failure_detail_of(&ConnectionEvent::InvalidPacket(p)).unwrap();
    let mut rendered: Vec<String> = vec!["1".to_string()];
    rendered.extend((0..126).map(|_| "0".to_string()));
    rendered.push("255".to_string());
    assert_eq!(format!("Packet<{}>", rendered.join(":")), detail);
}

#[test]
fn stale_byte_reports_carry_the_payload() {
    let detail = failure_detail_of(&ConnectionEvent::BadData(vec![0, 7, 45, 100, 255])).unwrap();
    assert_eq!("0:7:45:100:255", detail);
    let empty = failure_detail_of(&ConnectionEvent::BadData(vec![])).unwrap();
    assert_eq!("", empty);

    let mut h = fresh();
    let st = h.bt_error(FailureKind::BadData, Some(detail), 1000).status.unwrap();
    assert_eq!(Some("Bad Data: [0:7:45:100:255]".to_string()), st.info);
}

#[test]
fn poll_is_due_immediately_and_then_on_the_interval() {
    let mut h = fresh();
    assert!(h.poll_due(0));
    h.note_sent(0);
    assert!(!h.poll_due(4999));
    assert!(h.poll_due(5000));
}

#[test]
fn heartbeat_goes_stale_after_the_timeout_interval() {
    let mut h = fresh();
    // No send and no receipt yet: silence is not a timeout.
    assert!(!h.heartbeat_stale(1_000_000));
    h.note_sent(0);
    assert!(!h.heartbeat_stale(7500));
    assert!(h.heartbeat_stale(7501));
    h.note_received(10000);
    assert!(!h.heartbeat_stale(17500));
    assert!(h.heartbeat_stale(17501));
    // A later send restarts the silence measurement: the timeout runs
    // from the later of the last send and the last receipt.
    h.note_sent(15000);
    assert!(!h.heartbeat_stale(22500));
    assert!(h.heartbeat_stale(22501));
}

#[test]
fn events_classify_by_kind() {
    let valid = Packet::temp_packet();
    let invalid = Packet::new();
    assert_eq!(None, failure_kind_of(&ConnectionEvent::Packet(valid)));
    assert_eq!(
        Some(FailureKind::InvalidPacket),
        failure_kind_of(&ConnectionEvent::InvalidPacket(invalid))
    );
    assert_eq!(
        Some(FailureKind::ReadError),
        failure_kind_of(&ConnectionEvent::ReadError("x".to_string()))
    );
    assert_eq!(
        Some(FailureKind::WriteError),
        failure_kind_of(&ConnectionEvent::WriteError("x".to_string()))
    );
    assert_eq!(Some(FailureKind::BadData), failure_kind_of(&ConnectionEvent::BadData(vec![1])));
    assert_eq!(Some(FailureKind::Timeout), failure_kind_of(&ConnectionEvent::Heartbeat));
}

#[test]
fn failure_details_describe_their_event() {
    assert_eq!(
        Some("boom".to_string()),
        failure_detail_of(&ConnectionEvent::ReadError("boom".to_string()))
    );
    assert_eq!(
        Some("snap".to_string()),
        failure_detail_of(&ConnectionEvent::WriteError("snap".to_string()))
    );
    assert_eq!(None, failure_detail_of(&ConnectionEvent::Heartbeat));
    assert_eq!(None, failure_detail_of(&ConnectionEvent::Packet(Packet::temp_packet())));
}

#[test]
fn readings_take_the_packet_values() {
    let mut p = Packet::new();
    p.set_sensor1_reading(Some(33200000));
    p.set_sensor2_reading(None);
    let reading = reading_from_packet(&p, 12345);
    assert_eq!(0, reading.id);
    assert_eq!(Some(33200000), reading.value1);
    assert_eq!(None, reading.value2);
    assert_eq!(12345, reading.timestamp_ms);
}
