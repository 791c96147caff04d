use vstd::prelude::*;
use crate::error::RecordError;
use crate::manager::{location_of, recording_location};

verus! {

/// The status of a row of the recording registry.
#[derive(PartialEq, Eq, Structural, Clone, Copy, Debug)]
pub enum RecordingStatus {
    Recording,
    Completed,
    Failed,
}

pub open spec fn status_text(s: RecordingStatus) -> Seq<char> {
    match s {
        RecordingStatus::Recording => "RECORDING"@,
        RecordingStatus::Completed => "COMPLETED"@,
        RecordingStatus::Failed => "FAILED"@,
    }
}

impl RecordingStatus {
    /// The status as the registry stores it.
    pub fn as_text(&self) -> (r: String)
        ensures
            r@ == status_text(*self),
    {
        match self {
            RecordingStatus::Recording => String::from_str("RECORDING"),
            RecordingStatus::Completed => String::from_str("COMPLETED"),
            RecordingStatus::Failed => String::from_str("FAILED"),
        }
    }

    /// The status that the registry stored as `t`.
    pub fn from_text(t: &str) -> (r: Option<RecordingStatus>)
        ensures
            match r {
                Some(s) => status_text(s) == t@,
                None => t@ != "RECORDING"@ && t@ != "COMPLETED"@ && t@ != "FAILED"@,
            },
    {
        if crate::session::str_eq(t, "RECORDING") {
            Some(RecordingStatus::Recording)
        } else if crate::session::str_eq(t, "COMPLETED") {
            Some(RecordingStatus::Completed)
        } else if crate::session::str_eq(t, "FAILED") {
            Some(RecordingStatus::Failed)
        } else {
            None
        }
    }
}

/// A row of the recording registry. Times are milliseconds since the Unix
/// epoch.
#[derive(Debug)]
pub struct Recording {
    pub id: String,
    pub file_name: String,
    pub file_path: String,
    pub start_time: i64,
    pub end_time: Option<i64>,
    pub duration_seconds: Option<i64>,
    pub file_size_bytes: Option<i64>,
    pub status: RecordingStatus,
    pub created_at: i64,
    pub updated_at: i64,
}

/// Whole seconds from `start_ms` to `end_ms`, rounded toward zero.
pub open spec fn duration_of(start_ms: i64, end_ms: i64) -> int {
    let d = end_ms - start_ms;
    if d >= 0 {
        d / 1000
    } else {
        -((-d) / 1000)
    }
}

/// Whole seconds from `start_ms` to `end_ms`, rounded toward zero.
pub fn duration_seconds(start_ms: i64, end_ms: i64) -> (r: i64)
    ensures
        r == duration_of(start_ms, end_ms),
{
    let d: i128 = end_ms as i128 - start_ms as i128;
    if d >= 0 {
        let q: i128 = d / 1000;
        assert(q <= 0x7fff_ffff_ffff_ffff) by (nonlinear_arith)
            requires
                q == d / 1000,
                0 <= d <= 0x1_0000_0000_0000_0000,
        ;
        q as i64
    } else {
        let n: i128 = -d;
        let q: i128 = n / 1000;
        assert(q <= 0x7fff_ffff_ffff_ffff) by (nonlinear_arith)
            requires
                q == n / 1000,
                0 < n <= 0x1_0000_0000_0000_0000,
        ;
        (-q) as i64
    }
}

/// The status a stopped recording gets: completed when its file holds
/// data, failed when it is empty or missing.
pub open spec fn finished_status(file_size: i64) -> RecordingStatus {
    if file_size > 0 {
        RecordingStatus::Completed
    } else {
        RecordingStatus::Failed
    }
}

impl Recording {
    /// The row created when recording `id` starts at `now`, writing to
    /// `dir/id.mp4`.
    pub fn started(id: &str, dir: &str, now: i64) -> (r: Recording)
        ensures
            r.id@ == id@,
            r.file_name@ == id@ + ".mp4"@,
            r.file_path@ == location_of(dir@, id@),
            r.start_time == now,
            r.end_time is None,
            r.duration_seconds is None,
            r.file_size_bytes is None,
            r.status == RecordingStatus::Recording,
            r.created_at == now,
            r.updated_at == now,
    {
        let mut file_name = String::from_str(id);
        file_name.append(".mp4");
        Recording {
            id: String::from_str(id),
            file_name,
            file_path: recording_location(dir, id),
            start_time: now,
            end_time: None,
            duration_seconds: None,
            file_size_bytes: None,
            status: RecordingStatus::Recording,
            created_at: now,
            updated_at: now,
        }
    }

    /// The row after the recording stopped at `end` with a file of
    /// `file_size` bytes (0 when the file is missing). Only a recording
    /// whose file holds data is marked completed.
    pub fn complete(self, end: i64, file_size: i64) -> (r: Recording)
        requires
            file_size >= 0,
        ensures
            r.id@ == self.id@,
            r.file_name@ == self.file_name@,
            r.file_path@ == self.file_path@,
            r.start_time == self.start_time,
            r.end_time == Some(end),
            r.duration_seconds == Some(duration_of(self.start_time, end) as i64),
            r.file_size_bytes == Some(file_size),
            r.status == finished_status(file_size),
            r.status == RecordingStatus::Completed ==> (r.file_size_bytes matches Some(n) && n > 0),
            r.created_at == self.created_at,
            r.updated_at == end,
    {
        let duration = duration_seconds(self.start_time, end);
        let status = if file_size > 0 {
            RecordingStatus::Completed
        } else {
            RecordingStatus::Failed
        };
        Recording {
            end_time: Some(end),
            duration_seconds: Some(duration),
            file_size_bytes: Some(file_size),
            status,
            updated_at: end,
            ..self
        }
    }

    /// The row after the recording was marked failed at `now`.
    pub fn fail(self, now: i64) -> (r: Recording)
        ensures
            r.id@ == self.id@,
            r.file_name@ == self.file_name@,
            r.file_path@ == self.file_path@,
            r.start_time == self.start_time,
            r.end_time == self.end_time,
            r.duration_seconds == self.duration_seconds,
            r.file_size_bytes == self.file_size_bytes,
            r.status == RecordingStatus::Failed,
            r.created_at == self.created_at,
            r.updated_at == now,
    {
        Recording { status: RecordingStatus::Failed, updated_at: now, ..self }
    }
}

/// The outcome of looking up recording `id` when the registry returned
/// `row`: `RecordingNotFound` when there is no row.
pub fn lookup_result(row: Option<Recording>, id: &str) -> (r: Result<Recording, RecordError>)
    ensures
        row is None <==> (r matches Err(RecordError::RecordingNotFound(x)) && x@ == id@),
        row is Some <==> r is Ok,
        r matches Ok(rec) ==> row == Some(rec),
{
    match row {
        Some(rec) => Ok(rec),
        None => Err(RecordError::RecordingNotFound(String::from_str(id))),
    }
}

/// The outcome of deleting recording `id` when the registry removed
/// `rows_affected` rows: `RecordingNotFound` when it removed none.
pub fn delete_result(rows_affected: u64, id: &str) -> (r: Result<(), RecordError>)
    ensures
        rows_affected == 0 <==> (r matches Err(RecordError::RecordingNotFound(x)) && x@ == id@),
        rows_affected > 0 <==> r is Ok,
{
    if rows_affected == 0 {
        Err(RecordError::RecordingNotFound(String::from_str(id)))
    } else {
        Ok(())
    }
}

/// The message of the error for a recording whose file is gone.
pub fn file_missing_id(id: &str) -> (r: String)
    ensures
        r@ == "File not found for recording "@ + id@,
{
    let mut s = String::from_str("File not found for recording ");
    s.append(id);
    s
}

} // verus!
