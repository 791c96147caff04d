use record::api::{
    content_disposition, download_content_type, sdp_content_type, validate_protocol,
    ConnectResponse, DisconnectResponse, HealthResponse, RecordingDetails, RecordingListItem,
    StartRecordingResponse, StopRecordingResponse,
};
use record::config::{default_host, default_port, Config, DatabaseConfig, ServerConfig};
use record::error::RecordError;
use record::manager::{recording_location, StreamManager};
use record::models::GraphStates;
use record::recording::{
    delete_result, duration_seconds, lookup_result, Recording, RecordingStatus,
};
use record::session::{BranchState, LifecycleState, SessionEvent, StreamState};
use record::waits::{
    readiness_poll, startup_poll, teardown_poll, BusMessage, ReadyWait, StartupStep, TeardownWait,
};

const REC_A: &str = "550e8400-e29b-41d4-a716-446655440000";
const REC_B: &str = "6ba7b810-9dad-11d1-80b4-00c04fd430c8";

fn config() -> Config {
    Config {
        recording_directory: "/var/data/recordings".to_string(),
        database: DatabaseConfig { url: "postgres://localhost/record".to_string() },
        server: ServerConfig { host: default_host(), port: default_port() },
    }
}

fn live_manager(stream_id: &str) -> StreamManager {
    let mut m = StreamManager::new(config());
    m.connect(stream_id.to_string(), "rtsp".to_string(), "rtsp://host/a".to_string())
        .unwrap();
    assert!(m.apply_event(stream_id, SessionEvent::GraphRunning).is_none());
    assert!(m.apply_event(stream_id, SessionEvent::BufferHandedOff).is_none());
    m
}

#[test]
fn connect_registers_connecting_session() {
    let mut m = StreamManager::new(config());
    assert!(validate_protocol("rtsp").is_ok());
    assert!(m.connect("S".to_string(), "rtsp".to_string(), "rtsp://host/a".to_string()).is_ok());
    let st = m.get_status("S").unwrap();
    assert!(!st.is_connected);
    assert!(!st.is_recording);
    assert_eq!(st.protocol.as_deref(), Some("rtsp"));
    assert_eq!(st.url.as_deref(), Some("rtsp://host/a"));
    let r = ConnectResponse::connecting("S".to_string(), "rtsp");
    assert_eq!(r.stream_id, "S");
    assert_eq!(r.status, "CONNECTING");
    assert_eq!(r.message, "Stream connection initiated for protocol: rtsp");
}

#[test]
fn status_reports_connected_once_graph_runs() {
    let mut m = StreamManager::new(config());
    m.connect("S".to_string(), "rtsp".to_string(), "rtsp://host/a".to_string()).unwrap();
    assert!(!m.is_connected("S"));
    m.apply_event("S", SessionEvent::GraphRunning);
    assert!(m.is_connected("S"));
    assert!(m.get_status("S").unwrap().is_connected);
}

#[test]
fn connect_with_taken_id_is_already_exists() {
    let mut m = StreamManager::new(config());
    m.connect("S".to_string(), "rtsp".to_string(), "rtsp://host/a".to_string()).unwrap();
    match m.connect("S".to_string(), "rtsp".to_string(), "rtsp://host/b".to_string()) {
        Err(RecordError::AlreadyExists(id)) => assert_eq!(id, "S"),
        _ => panic!("expected AlreadyExists"),
    }
    assert_eq!(m.get_status("S").unwrap().url.as_deref(), Some("rtsp://host/a"));
    let e = RecordError::AlreadyExists("S".to_string());
    assert_eq!(e.http_status(), 409);
}

#[test]
fn start_then_stop_returns_same_recording() {
    let mut m = live_manager("S");
    let plan = m.start_recording("S", REC_A).unwrap();
    assert_eq!(plan.recording_id, REC_A);
    assert_eq!(plan.location, "/var/data/recordings/550e8400-e29b-41d4-a716-446655440000.mp4");
    assert!(m.is_recording("S"));
    assert_eq!(m.finish_attach("S", REC_A, true), None);
    let resp = StartRecordingResponse::recording(plan.recording_id.clone(), "S", plan.location.clone());
    assert_eq!(resp.status, "RECORDING");
    let branch = m.stop_recording("S").unwrap();
    assert_eq!(branch.recording_id, plan.recording_id);
    assert_eq!(branch.pad, plan.pad);
    assert_eq!(branch.state, BranchState::Capturing);
    assert!(!m.is_recording("S"));
    let stop = StopRecordingResponse::stopped(branch.recording_id, "S");
    assert_eq!(stop.status, "RECORDING_STOPPED");
    assert_eq!(stop.recording_id, REC_A);
}

#[test]
fn recording_id_is_written_in_canonical_form() {
    let mut m = live_manager("S");
    let plan = m.start_recording("S", "550E8400E29B41D4A716446655440000").unwrap();
    assert_eq!(plan.recording_id, REC_A);
    assert!(plan.location.ends_with("/550e8400-e29b-41d4-a716-446655440000.mp4"));
}

#[test]
fn invalid_recording_id_is_stream_error() {
    let mut m = live_manager("S");
    match m.start_recording("S", "not-a-uuid") {
        Err(RecordError::StreamError(msg)) => assert_eq!(msg, "Invalid recording_id: not-a-uuid"),
        _ => panic!("expected StreamError"),
    }
    assert!(!m.is_recording("S"));
}

#[test]
fn second_stop_is_no_active_recording() {
    let mut m = live_manager("S");
    m.start_recording("S", REC_A).unwrap();
    assert!(m.stop_recording("S").is_ok());
    let e = m.stop_recording("S").err().unwrap();
    assert!(matches!(e, RecordError::NoActiveRecording));
    assert_eq!(e.http_status(), 404);
    assert!(m.contains("S"));
}

#[test]
fn stop_on_unknown_stream_is_not_found() {
    let mut m = StreamManager::new(config());
    match m.stop_recording("X") {
        Err(RecordError::StreamNotFound(id)) => assert_eq!(id, "X"),
        _ => panic!("expected StreamNotFound"),
    }
}

#[test]
fn disconnect_twice_succeeds() {
    let mut m = live_manager("S");
    assert!(m.disconnect("S").is_some());
    assert!(m.disconnect("S").is_none());
    assert!(!m.contains("S"));
}

#[test]
fn delete_missing_recording_is_not_found() {
    let r = delete_result(0, REC_A);
    match r {
        Err(RecordError::RecordingNotFound(ref id)) => assert_eq!(id, REC_A),
        _ => panic!("expected RecordingNotFound"),
    }
    let e = r.err().unwrap();
    assert_eq!(e.http_status(), 404);
    assert_eq!(e.error_code(), "RESOURCE_NOT_FOUND");
    assert_eq!(e.message(), format!("Recording with ID {} not found", REC_A));
    assert!(delete_result(1, REC_A).is_ok());
}

#[test]
fn start_before_ready_waits_ten_polls_then_fails() {
    for n in 0..10u32 {
        assert_eq!(readiness_poll(false, n).unwrap(), ReadyWait::Sleep);
    }
    match readiness_poll(false, 10) {
        Err(RecordError::StreamError(msg)) => assert_eq!(msg, "Stream is not ready for recording"),
        _ => panic!("expected StreamError"),
    }
    assert_eq!(readiness_poll(true, 3).unwrap(), ReadyWait::Proceed);
    let mut m = StreamManager::new(config());
    m.connect("S".to_string(), "rtsp".to_string(), "rtsp://host/a".to_string()).unwrap();
    m.apply_event("S", SessionEvent::GraphRunning);
    match m.start_recording("S", REC_A) {
        Err(RecordError::StreamError(msg)) => assert_eq!(msg, "Stream is not ready for recording"),
        _ => panic!("expected StreamError"),
    }
}

#[test]
fn crash_hands_over_branches_and_keeps_data() {
    let mut m = live_manager("S");
    let plan = m.start_recording("S", REC_A).unwrap();
    let teardown = m.apply_event("S", SessionEvent::FatalError).unwrap();
    assert_eq!(teardown.recordings.len(), 1);
    assert_eq!(teardown.recordings[0].pad, plan.pad);
    assert!(!m.contains("S"));
    let rec = Recording::started(REC_A, "/var/data/recordings", 1_000).complete(4_000, 2048);
    assert_eq!(rec.status, RecordingStatus::Completed);
    assert_eq!(rec.file_size_bytes, Some(2048));
}

#[test]
fn happy_path_connect() {
    let mut m = StreamManager::new(config());
    assert!(validate_protocol("rtsp").is_ok());
    assert!(m.connect("S".to_string(), "rtsp".to_string(), "rtsp://host/a".to_string()).is_ok());
    assert!(m.contains("S"));
}

#[test]
fn happy_path_wait_connected() {
    let mut m = StreamManager::new(config());
    m.connect("S".to_string(), "rtsp".to_string(), "rtsp://host/a".to_string()).unwrap();
    assert_eq!(startup_poll(false, 0), StartupStep::Poll);
    assert_eq!(startup_poll(true, 100), StartupStep::Running);
    m.apply_event("S", SessionEvent::GraphRunning);
    assert!(m.get_status("S").unwrap().is_connected);
}

#[test]
fn happy_path_start() {
    let mut m = live_manager("S");
    let plan = m.start_recording("S", REC_A).unwrap();
    let r = StartRecordingResponse::recording(plan.recording_id, "S", plan.location);
    assert_eq!(r.recording_id, REC_A);
    assert_eq!(r.status, "RECORDING");
    assert_eq!(r.stream_id, "S");
}

#[test]
fn happy_path_stop() {
    let mut m = live_manager("S");
    m.start_recording("S", REC_A).unwrap();
    m.finish_attach("S", REC_A, true);
    let b = m.stop_recording("S").unwrap();
    let r = StopRecordingResponse::stopped(b.recording_id, "S");
    assert_eq!(r.recording_id, REC_A);
    assert_eq!(r.status, "RECORDING_STOPPED");
}

#[test]
fn happy_path_details() {
    let rec = Recording::started(REC_A, "/var/data/recordings", 10_000).complete(13_000, 4096);
    let d = RecordingDetails::from_recording(rec);
    assert!(d.duration.unwrap() >= 2);
    assert_eq!(d.duration, Some(3));
    assert!(d.file_size.unwrap() > 0);
    assert_eq!(d.file_path, "/var/data/recordings/550e8400-e29b-41d4-a716-446655440000.mp4");
}

#[test]
fn happy_path_download_headers() {
    assert_eq!(download_content_type(), "video/mp4");
    assert_eq!(
        content_disposition("550e8400-e29b-41d4-a716-446655440000.mp4"),
        "attachment; filename=\"550e8400-e29b-41d4-a716-446655440000.mp4\""
    );
}

#[test]
fn happy_path_delete_then_get() {
    assert!(delete_result(1, REC_A).is_ok());
    let e = lookup_result(None, REC_A).err().unwrap();
    assert_eq!(e.http_status(), 404);
}

#[test]
fn double_start_is_already_recording() {
    let mut m = live_manager("S");
    m.start_recording("S", REC_A).unwrap();
    let e = m.start_recording("S", REC_B).err().unwrap();
    assert!(matches!(e, RecordError::AlreadyRecording));
    assert_eq!(e.http_status(), 409);
    assert_eq!(e.error_code(), "ALREADY_RECORDING");
}

#[test]
fn start_on_unknown_stream_is_not_connected() {
    let mut m = StreamManager::new(config());
    let e = m.start_recording("UNKNOWN", REC_A).err().unwrap();
    assert!(matches!(e, RecordError::NotConnected));
    assert_eq!(e.http_status(), 409);
    assert_eq!(e.error_code(), "NOT_CONNECTED");
}

#[test]
fn disconnect_with_active_recording() {
    let mut m = live_manager("S");
    let plan = m.start_recording("S", REC_A).unwrap();
    m.finish_attach("S", REC_A, true);
    let teardown = m.disconnect("S").unwrap();
    assert_eq!(teardown.recordings.len(), 1);
    assert_eq!(teardown.recordings[0].recording_id, REC_A);
    assert_eq!(teardown.recordings[0].pad, plan.pad);
    assert!(m.get_status("S").is_none());
    let e = RecordError::StreamNotFound("S".to_string());
    assert_eq!(e.http_status(), 404);
    let r = DisconnectResponse::disconnecting("S");
    assert_eq!(r.status, "DISCONNECTING");
}

#[test]
fn unsupported_protocol_is_stream_error() {
    let e = validate_protocol("hls").err().unwrap();
    match &e {
        RecordError::StreamError(msg) => assert_eq!(msg, "Unsupported protocol: hls"),
        _ => panic!("expected StreamError"),
    }
    assert_eq!(e.http_status(), 400);
    assert_eq!(e.error_code(), "STREAM_ERROR");
    assert!(validate_protocol("webrtc").is_ok());
}

#[test]
fn webrtc_branch_on_live_session() {
    let mut m = live_manager("S");
    let pad = m.start_webrtc_streaming("S").unwrap();
    assert_eq!(pad, 0);
    assert_eq!(sdp_content_type(), "application/sdp");
    let mut n = StreamManager::new(config());
    n.connect("T".to_string(), "rtsp".to_string(), "rtsp://host/b".to_string()).unwrap();
    assert!(matches!(n.start_webrtc_streaming("T"), Err(RecordError::NotConnected)));
}

#[test]
fn branch_pads_are_distinct() {
    let mut m = live_manager("S");
    let w = m.start_webrtc_streaming("S").unwrap();
    let plan = m.start_recording("S", REC_A).unwrap();
    assert_ne!(w, plan.pad);
    let teardown = m.disconnect("S").unwrap();
    assert_eq!(teardown.webrtc_pads, vec![w]);
    assert_eq!(teardown.recordings[0].pad, plan.pad);
}

#[test]
fn readiness_stays_on() {
    let mut m = live_manager("S");
    assert!(m.is_ready("S"));
    m.apply_event("S", SessionEvent::EndOfStream);
    assert!(m.is_ready("S"));
    m.apply_event("S", SessionEvent::GraphRunning);
    assert!(m.is_ready("S"));
}

#[test]
fn same_order_gives_same_state() {
    let mut a = live_manager("S");
    let mut b = live_manager("S");
    let ra = a.start_recording("S", REC_A).map(|p| p.pad).ok();
    let rb = b.start_recording("S", REC_A).map(|p| p.pad).ok();
    assert_eq!(ra, rb);
    assert!(a.stop_recording("S").is_ok());
    assert!(b.stop_recording("S").is_ok());
    assert_eq!(a.is_recording("S"), b.is_recording("S"));
    let mut c = live_manager("S");
    assert!(c.stop_recording("S").is_err());
    assert!(c.start_recording("S", REC_A).is_ok());
    assert!(c.is_recording("S"));
}

#[test]
fn empty_file_is_marked_failed() {
    let rec = Recording::started(REC_A, "/d", 0).complete(500, 0);
    assert_eq!(rec.status, RecordingStatus::Failed);
    assert_eq!(rec.duration_seconds, Some(0));
    assert_eq!(rec.status.as_text(), "FAILED");
}

#[test]
fn failed_attach_is_rolled_back() {
    let mut m = live_manager("S");
    let plan = m.start_recording("S", REC_A).unwrap();
    assert_eq!(m.finish_attach("S", REC_A, false), Some(plan.pad));
    assert!(!m.is_recording("S"));
    assert_eq!(m.finish_attach("S", REC_A, false), None);
}

#[test]
fn startup_and_teardown_waits() {
    assert_eq!(startup_poll(false, 29_999), StartupStep::Poll);
    assert_eq!(startup_poll(true, 30_000), StartupStep::TimedOut);
    assert_eq!(teardown_poll(0, BusMessage::EndOfStream), TeardownWait::Done(true));
    assert_eq!(teardown_poll(3, BusMessage::Error), TeardownWait::Done(false));
    assert_eq!(teardown_poll(3, BusMessage::Nothing), TeardownWait::Continue);
    assert_eq!(teardown_poll(9, BusMessage::Other), TeardownWait::Done(false));
}

#[test]
fn startup_timeout_removes_session() {
    let mut m = StreamManager::new(config());
    m.connect("S".to_string(), "rtsp".to_string(), "rtsp://host/a".to_string()).unwrap();
    let t = m.apply_event("S", SessionEvent::StartupTimedOut).unwrap();
    assert!(t.recordings.is_empty());
    assert!(!m.contains("S"));
}

#[test]
fn durations_round_toward_zero() {
    assert_eq!(duration_seconds(0, 2_999), 2);
    assert_eq!(duration_seconds(3_000, 0), -3);
    assert_eq!(duration_seconds(0, -1_500), -1);
    assert_eq!(duration_seconds(i64::MIN, i64::MAX), 18_446_744_073_709_551);
}

#[test]
fn error_bodies() {
    assert_eq!(RecordError::ConfigError("x".to_string()).http_status(), 500);
    assert_eq!(RecordError::DatabaseError("x".to_string()).error_code(), "DB_ERROR");
    assert_eq!(RecordError::NotConnected.message(), "Not connected to stream");
    assert_eq!(RecordError::AlreadyRecording.message(), "Stream is already being recorded");
    assert_eq!(RecordError::StreamNotFound("S".to_string()).message(), "Stream S not found");
    assert_eq!(RecordError::InternalError("boom".to_string()).message(), "boom");
    assert_eq!(RecordError::PipelineError("p".to_string()).error_code(), "PIPELINE_ERROR");
}

#[test]
fn status_text_round_trip() {
    for s in [RecordingStatus::Recording, RecordingStatus::Completed, RecordingStatus::Failed] {
        assert_eq!(RecordingStatus::from_text(&s.as_text()), Some(s));
    }
    assert_eq!(RecordingStatus::from_text("DONE"), None);
}

#[test]
fn list_and_details_rows() {
    let rec = Recording::started(REC_B, "/rec", 5).fail(9);
    assert_eq!(rec.status, RecordingStatus::Failed);
    assert_eq!(rec.updated_at, 9);
    let item = RecordingListItem::from_recording(rec);
    assert_eq!(item.file_name, "6ba7b810-9dad-11d1-80b4-00c04fd430c8.mp4");
    assert_eq!(item.stream_id, None);
    assert_eq!(recording_location("/rec", "x"), "/rec/x.mp4");
}

#[test]
fn statuses_and_debug() {
    let mut m = live_manager("S");
    m.connect("T".to_string(), "webrtc".to_string(), "u".to_string()).unwrap();
    let all = m.get_all_statuses();
    assert_eq!(all.len(), 2);
    let s = all.iter().find(|(id, _)| id == "S").unwrap();
    assert!(s.1.is_connected);
    let t = all.iter().find(|(id, _)| id == "T").unwrap();
    assert!(!t.1.is_connected);
    let d = m
        .get_detailed_status(
            "S",
            GraphStates {
                pipeline_state: Some("Playing".to_string()),
                pipeline_pending_state: Some("VoidPending".to_string()),
                tee_state: None,
                tee_pending_state: None,
            },
        )
        .unwrap();
    assert!(d.tee_ready);
    assert_eq!(d.pipeline_state.as_deref(), Some("Playing"));
    assert_eq!(d.active_recording_pads, 0);
    let h = HealthResponse::healthy("0.1.0", true);
    assert_eq!(h.status, "healthy");
    let st = StreamState::new();
    assert_eq!(st.lifecycle, LifecycleState::Connecting);
    assert_eq!(default_port(), 3000);
    assert_eq!(ServerConfig::with_defaults().host, "0.0.0.0");
}
