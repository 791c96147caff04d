use vstd::prelude::*;
use crate::error::{RecordError, concat3};
use crate::recording::Recording;
use crate::session::str_eq;

verus! {

/// Body of `POST /streams/connect`.
#[derive(Debug)]
pub struct ConnectRequest {
    pub protocol: String,
    pub url: String,
}

#[derive(Debug)]
pub struct ConnectResponse {
    pub stream_id: String,
    pub status: String,
    pub message: String,
}

#[derive(Debug)]
pub struct DisconnectResponse {
    pub status: String,
    pub message: String,
}

#[derive(Debug)]
pub struct StartRecordingResponse {
    pub recording_id: String,
    pub stream_id: String,
    pub location: String,
    pub message: String,
    pub status: String,
}

#[derive(Debug)]
pub struct StopRecordingResponse {
    pub recording_id: String,
    pub stream_id: String,
    pub status: String,
    pub message: String,
}

#[derive(Debug)]
pub struct HealthResponse {
    pub status: String,
    pub version: String,
    pub database_connected: bool,
}

/// Query of the WebRTC signaling endpoint; it carries no parameter.
#[derive(Debug)]
pub struct StartWebRTCQuery {}

/// One entry of the recording list. Times are milliseconds since the Unix
/// epoch.
#[derive(Debug)]
pub struct RecordingListItem {
    pub id: String,
    pub file_name: String,
    pub start_time: i64,
    pub end_time: Option<i64>,
    pub duration: Option<i64>,
    pub file_size: Option<i64>,
    pub stream_id: Option<String>,
}

/// The details of one recording. Times are milliseconds since the Unix
/// epoch.
#[derive(Debug)]
pub struct RecordingDetails {
    pub id: String,
    pub file_name: String,
    pub file_path: String,
    pub start_time: i64,
    pub end_time: Option<i64>,
    pub duration: Option<i64>,
    pub file_size: Option<i64>,
    pub stream_id: Option<String>,
}

/// The protocols a stream can be connected with.
pub open spec fn supported_protocol(p: Seq<char>) -> bool {
    p == "rtsp"@ || p == "webrtc"@
}

/// Accepts `"rtsp"` and `"webrtc"`; any other protocol is a stream error.
pub fn validate_protocol(protocol: &str) -> (r: Result<(), RecordError>)
    ensures
        supported_protocol(protocol@) <==> r is Ok,
        !supported_protocol(protocol@) ==> (r matches Err(RecordError::StreamError(m))
            && m@ == "Unsupported protocol: "@ + protocol@),
{
    if str_eq(protocol, "rtsp") || str_eq(protocol, "webrtc") {
        Ok(())
    } else {
        let mut m = String::from_str("Unsupported protocol: ");
        m.append(protocol);
        Err(RecordError::StreamError(m))
    }
}

impl ConnectResponse {
    /// The reply to a connect that registered `stream_id`.
    pub fn connecting(stream_id: String, protocol: &str) -> (r: ConnectResponse)
        ensures
            r.stream_id@ == stream_id@,
            r.status@ == "CONNECTING"@,
            r.message@ == "Stream connection initiated for protocol: "@ + protocol@,
    {
        let mut message = String::from_str("Stream connection initiated for protocol: ");
        message.append(protocol);
        ConnectResponse { stream_id, status: String::from_str("CONNECTING"), message }
    }
}

impl DisconnectResponse {
    /// The reply to a disconnect of `stream_id`.
    pub fn disconnecting(stream_id: &str) -> (r: DisconnectResponse)
        ensures
            r.status@ == "DISCONNECTING"@,
            r.message@ == "Stream disconnection initiated for stream: "@ + stream_id@,
    {
        let mut message = String::from_str("Stream disconnection initiated for stream: ");
        message.append(stream_id);
        DisconnectResponse { status: String::from_str("DISCONNECTING"), message }
    }
}

impl StartRecordingResponse {
    /// The reply to a start that registered `recording_id` on `stream_id`.
    pub fn recording(recording_id: String, stream_id: &str, location: String) -> (r: StartRecordingResponse)
        ensures
            r.recording_id@ == recording_id@,
            r.stream_id@ == stream_id@,
            r.location@ == location@,
            r.status@ == "RECORDING"@,
            r.message@ == "Recording started successfully for stream: "@ + stream_id@,
    {
        let mut message = String::from_str("Recording started successfully for stream: ");
        message.append(stream_id);
        StartRecordingResponse {
            recording_id,
            stream_id: String::from_str(stream_id),
            location,
            message,
            status: String::from_str("RECORDING"),
        }
    }
}

impl StopRecordingResponse {
    /// The reply to a stop that finished `recording_id` on `stream_id`.
    pub fn stopped(recording_id: String, stream_id: &str) -> (r: StopRecordingResponse)
        ensures
            r.recording_id@ == recording_id@,
            r.stream_id@ == stream_id@,
            r.status@ == "RECORDING_STOPPED"@,
            r.message@ == "Recording has been stopped and saved for stream: "@ + stream_id@,
    {
        let mut message = String::from_str("Recording has been stopped and saved for stream: ");
        message.append(stream_id);
        StopRecordingResponse {
            recording_id,
            stream_id: String::from_str(stream_id),
            status: String::from_str("RECORDING_STOPPED"),
            message,
        }
    }
}

impl HealthResponse {
    /// The liveness reply of service `version`.
    pub fn healthy(version: &str, database_connected: bool) -> (r: HealthResponse)
        ensures
            r.status@ == "healthy"@,
            r.version@ == version@,
            r.database_connected == database_connected,
    {
        HealthResponse {
            status: String::from_str("healthy"),
            version: String::from_str(version),
            database_connected,
        }
    }
}

impl RecordingListItem {
    /// The list entry of a registry row.
    pub fn from_recording(rec: Recording) -> (r: RecordingListItem)
        ensures
            r.id == rec.id,
            r.file_name == rec.file_name,
            r.start_time == rec.start_time,
            r.end_time == rec.end_time,
            r.duration == rec.duration_seconds,
            r.file_size == rec.file_size_bytes,
            r.stream_id is None,
    {
        RecordingListItem {
            id: rec.id,
            file_name: rec.file_name,
            start_time: rec.start_time,
            end_time: rec.end_time,
            duration: rec.duration_seconds,
            file_size: rec.file_size_bytes,
            stream_id: None,
        }
    }
}

impl RecordingDetails {
    /// The details of a registry row.
    pub fn from_recording(rec: Recording) -> (r: RecordingDetails)
        ensures
            r.id == rec.id,
            r.file_name == rec.file_name,
            r.file_path == rec.file_path,
            r.start_time == rec.start_time,
            r.end_time == rec.end_time,
            r.duration == rec.duration_seconds,
            r.file_size == rec.file_size_bytes,
            r.stream_id is None,
    {
        RecordingDetails {
            id: rec.id,
            file_name: rec.file_name,
            file_path: rec.file_path,
            start_time: rec.start_time,
            end_time: rec.end_time,
            duration: rec.duration_seconds,
            file_size: rec.file_size_bytes,
            stream_id: None,
        }
    }
}

/// The media type of a recording download.
pub fn download_content_type() -> (r: String)
    ensures
        r@ == "video/mp4"@,
{
    String::from_str("video/mp4")
}

/// The disposition of a recording download: an attachment named after the file.
pub fn content_disposition(file_name: &str) -> (r: String)
    ensures
        r@ == "attachment; filename=\""@ + file_name@ + "\""@,
{
    concat3("attachment; filename=\"", file_name, "\"")
}

/// The media type of a WebRTC answer.
pub fn sdp_content_type() -> (r: String)
    ensures
        r@ == "application/sdp"@,
{
    String::from_str("application/sdp")
}

} // verus!
