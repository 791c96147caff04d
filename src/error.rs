use vstd::prelude::*;

verus! {

/// The failures of the service, each mapped to one HTTP status and code.
#[derive(Debug)]
pub enum RecordError {
    ConfigError(String),
    DatabaseError(String),
    MigrationError(String),
    StreamError(String),
    RecordingNotFound(String),
    AlreadyRecording,
    NotConnected,
    PipelineError(String),
    IoError(String),
    InternalError(String),
    /// A stream id that is already registered was supplied to `connect`.
    AlreadyExists(String),
    /// No session is registered under the stream id.
    StreamNotFound(String),
    /// `stopRecording` on a session that has no recording in progress.
    NoActiveRecording,
}

/// HTTP status of each error kind.
pub open spec fn status_of(e: RecordError) -> u16 {
    match e {
        RecordError::StreamError(_) => 400,
        RecordError::RecordingNotFound(_) => 404,
        RecordError::StreamNotFound(_) => 404,
        RecordError::NoActiveRecording => 404,
        RecordError::AlreadyRecording => 409,
        RecordError::NotConnected => 409,
        RecordError::AlreadyExists(_) => 409,
        _ => 500,
    }
}

/// Machine-readable code of each error kind, as carried in the error body.
pub open spec fn code_of(e: RecordError) -> Seq<char> {
    match e {
        RecordError::ConfigError(_) => "CONFIG_ERROR"@,
        RecordError::DatabaseError(_) => "DB_ERROR"@,
        RecordError::MigrationError(_) => "MIGRATION_ERROR"@,
        RecordError::StreamError(_) => "STREAM_ERROR"@,
        RecordError::RecordingNotFound(_) => "RESOURCE_NOT_FOUND"@,
        RecordError::AlreadyRecording => "ALREADY_RECORDING"@,
        RecordError::NotConnected => "NOT_CONNECTED"@,
        RecordError::PipelineError(_) => "PIPELINE_ERROR"@,
        RecordError::IoError(_) => "IO_ERROR"@,
        RecordError::InternalError(_) => "INTERNAL_SERVER_ERROR"@,
        RecordError::AlreadyExists(_) => "ALREADY_EXISTS"@,
        RecordError::StreamNotFound(_) => "RESOURCE_NOT_FOUND"@,
        RecordError::NoActiveRecording => "NO_ACTIVE_RECORDING"@,
    }
}

/// Human-readable message of each error kind, as carried in the error body.
pub open spec fn message_of(e: RecordError) -> Seq<char> {
    match e {
        RecordError::ConfigError(m) => m@,
        RecordError::DatabaseError(m) => m@,
        RecordError::MigrationError(m) => m@,
        RecordError::StreamError(m) => m@,
        RecordError::RecordingNotFound(id) => "Recording with ID "@ + id@ + " not found"@,
        RecordError::AlreadyRecording => "Stream is already being recorded"@,
        RecordError::NotConnected => "Not connected to stream"@,
        RecordError::PipelineError(m) => m@,
        RecordError::IoError(m) => m@,
        RecordError::InternalError(m) => m@,
        RecordError::AlreadyExists(id) => "Stream ID "@ + id@ + " already exists"@,
        RecordError::StreamNotFound(id) => "Stream "@ + id@ + " not found"@,
        RecordError::NoActiveRecording => "No active recording"@,
    }
}

/// Builds `a + b + c` as a new string.
pub fn concat3(a: &str, b: &str, c: &str) -> (r: String)
    ensures
        r@ == a@ + b@ + c@,
{
    let mut s = String::from_str(a);
    s.append(b);
    s.append(c);
    s
}

impl RecordError {
    /// The HTTP status that answers this error.
    pub fn http_status(&self) -> (r: u16)
        ensures
            r == status_of(*self),
    {
        match self {
            RecordError::StreamError(_) => 400,
            RecordError::RecordingNotFound(_) => 404,
            RecordError::StreamNotFound(_) => 404,
            RecordError::NoActiveRecording => 404,
            RecordError::AlreadyRecording => 409,
            RecordError::NotConnected => 409,
            RecordError::AlreadyExists(_) => 409,
            _ => 500,
        }
    }

    /// The `error_code` field of the error body.
    pub fn error_code(&self) -> (r: String)
        ensures
            r@ == code_of(*self),
    {
        let c = match self {
            RecordError::ConfigError(_) => "CONFIG_ERROR",
            RecordError::DatabaseError(_) => "DB_ERROR",
            RecordError::MigrationError(_) => "MIGRATION_ERROR",
            RecordError::StreamError(_) => "STREAM_ERROR",
            RecordError::RecordingNotFound(_) => "RESOURCE_NOT_FOUND",
            RecordError::AlreadyRecording => "ALREADY_RECORDING",
            RecordError::NotConnected => "NOT_CONNECTED",
            RecordError::PipelineError(_) => "PIPELINE_ERROR",
            RecordError::IoError(_) => "IO_ERROR",
            RecordError::InternalError(_) => "INTERNAL_SERVER_ERROR",
            RecordError::AlreadyExists(_) => "ALREADY_EXISTS",
            RecordError::StreamNotFound(_) => "RESOURCE_NOT_FOUND",
            RecordError::NoActiveRecording => "NO_ACTIVE_RECORDING",
        };
        String::from_str(c)
    }

    /// The `message` field of the error body.
    pub fn message(&self) -> (r: String)
        ensures
            r@ == message_of(*self),
    {
        match self {
            RecordError::ConfigError(m) => m.clone(),
            RecordError::DatabaseError(m) => m.clone(),
            RecordError::MigrationError(m) => m.clone(),
            RecordError::StreamError(m) => m.clone(),
            RecordError::RecordingNotFound(id) => concat3("Recording with ID ", id.as_str(), " not found"),
            RecordError::AlreadyRecording => String::from_str("Stream is already being recorded"),
            RecordError::NotConnected => String::from_str("Not connected to stream"),
            RecordError::PipelineError(m) => m.clone(),
            RecordError::IoError(m) => m.clone(),
            RecordError::InternalError(m) => m.clone(),
            RecordError::AlreadyExists(id) => concat3("Stream ID ", id.as_str(), " already exists"),
            RecordError::StreamNotFound(id) => concat3("Stream ", id.as_str(), " not found"),
            RecordError::NoActiveRecording => String::from_str("No active recording"),
        }
    }
}

} // verus!
