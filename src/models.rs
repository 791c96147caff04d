use vstd::prelude::*;
use crate::session::{LifecycleState, StreamState};

verus! {

/// The status of one stream as reported to clients.
#[derive(Debug)]
pub struct StreamStatus {
    pub is_connected: bool,
    pub protocol: Option<String>,
    pub url: Option<String>,
    pub is_recording: bool,
    /// Milliseconds since the Unix epoch.
    pub connected_at: Option<i64>,
}

/// The runtime states of the ingest graph and its branch point, as the
/// media engine reports them.
#[derive(Debug)]
pub struct GraphStates {
    pub pipeline_state: Option<String>,
    pub pipeline_pending_state: Option<String>,
    pub tee_state: Option<String>,
    pub tee_pending_state: Option<String>,
}

/// The detailed status of one stream, for diagnosis.
#[derive(Debug)]
pub struct DebugStatus {
    pub is_connected: bool,
    pub is_recording: bool,
    pub protocol: Option<String>,
    pub url: Option<String>,
    pub tee_ready: bool,
    pub pipeline_state: Option<String>,
    pub pipeline_pending_state: Option<String>,
    pub tee_state: Option<String>,
    pub tee_pending_state: Option<String>,
    pub active_recording_pads: usize,
}

pub open spec fn opt_view(o: Option<String>) -> Option<Seq<char>> {
    match o {
        Some(s) => Some(s@),
        None => None,
    }
}

/// `st` is what clients are told of session `s`.
pub open spec fn reports(st: StreamStatus, s: crate::session::SessionView) -> bool {
    &&& st.is_connected == (s.lifecycle == LifecycleState::Live)
    &&& st.is_recording == s.is_recording()
    &&& opt_view(st.protocol) == Some(s.protocol)
    &&& opt_view(st.url) == Some(s.url)
    &&& st.connected_at.is_none()
}

impl StreamStatus {
    /// The status reported for a session.
    pub fn from_state(state: &StreamState) -> (r: StreamStatus)
        ensures
            reports(r, state@),
    {
        StreamStatus {
            is_connected: state.is_connected(),
            protocol: Some(state.protocol.clone()),
            url: Some(state.url.clone()),
            is_recording: state.is_recording(),
            connected_at: None,
        }
    }
}

impl DebugStatus {
    /// The detailed status of a session whose graph is in `graph`.
    pub fn from_state(state: &StreamState, graph: GraphStates) -> (r: DebugStatus)
        ensures
            r.is_connected == (state@.lifecycle == LifecycleState::Live),
            r.is_recording == state@.is_recording(),
            opt_view(r.protocol) == Some(state@.protocol),
            opt_view(r.url) == Some(state@.url),
            r.tee_ready == state@.ready,
            r.pipeline_state == graph.pipeline_state,
            r.pipeline_pending_state == graph.pipeline_pending_state,
            r.tee_state == graph.tee_state,
            r.tee_pending_state == graph.tee_pending_state,
            r.active_recording_pads == state@.recordings.len(),
    {
        DebugStatus {
            is_connected: state.is_connected(),
            is_recording: state.is_recording(),
            protocol: Some(state.protocol.clone()),
            url: Some(state.url.clone()),
            tee_ready: state.ready,
            pipeline_state: graph.pipeline_state,
            pipeline_pending_state: graph.pipeline_pending_state,
            tee_state: graph.tee_state,
            tee_pending_state: graph.tee_pending_state,
            active_recording_pads: state.active_recordings.len(),
        }
    }
}

} // verus!
