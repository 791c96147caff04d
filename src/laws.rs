use vstd::prelude::*;
use crate::error::RecordError;
use crate::manager::{
    StreamManager, attach_result, connect_result, disconnect_result, event_result, stop_result,
    tears_down,
};
use crate::recording::{RecordingStatus, finished_status};
use crate::session::{AttachPlan, BranchState, RecordingBranch, SessionEvent, SessionView};
use crate::waits::{READY_POLLS, READY_POLL_INTERVAL_MS, ReadyOutcome, ready_outcome};

verus! {

/// In every session of a well-formed registry, each recording branch is
/// linked, attaching or capturing, and fed by its own branch-point output
/// pad: no two branches share one.
pub proof fn lemma_branch_pads_distinct(m: &StreamManager, sid: Seq<char>)
    requires
        m.wf(),
        m.sessions().contains_key(sid),
    ensures
        forall|i: int, j: int|
            0 <= i < m.sessions()[sid].pads().len() && 0 <= j < m.sessions()[sid].pads().len() && i != j
                ==> m.sessions()[sid].pads()[i] != m.sessions()[sid].pads()[j],
        forall|k: int| 0 <= k < m.sessions()[sid].recordings.len()
            ==> m.sessions()[sid].pads()[k] == (#[trigger] m.sessions()[sid].recordings[k]).pad
                && (m.sessions()[sid].recordings[k].state == BranchState::Attaching
                    || m.sessions()[sid].recordings[k].state == BranchState::Capturing),
{
    m.lemma_sessions_wf(sid);
}

/// Readiness never turns off: no step of a session's life clears it.
pub proof fn lemma_readiness_monotonic(s: SessionView, ev: SessionEvent, rid: Seq<char>, loc: Seq<char>, linked: bool)
    requires
        s.ready,
    ensures
        s.after_event(ev).ready,
        s.with_recording(rid, loc).ready,
        s.with_webrtc().ready,
        s.after_attach(rid, linked).ready,
        s.without_recording().ready,
{
}

/// Once the mutex has ordered a start and a stop on a session, the state
/// they leave is fixed by that order alone: any two runs in the same order
/// from the same registry end in the same registry.
pub proof fn lemma_order_fixes_outcome(
    m0: Map<Seq<char>, SessionView>,
    a1: Map<Seq<char>, SessionView>,
    a2: Map<Seq<char>, SessionView>,
    b1: Map<Seq<char>, SessionView>,
    b2: Map<Seq<char>, SessionView>,
    dir: Seq<char>,
    sid: Seq<char>,
    rid: Seq<char>,
    ra1: Result<AttachPlan, RecordError>,
    rb1: Result<AttachPlan, RecordError>,
    ra2: Result<RecordingBranch, RecordError>,
    rb2: Result<RecordingBranch, RecordError>,
    start_first: bool,
)
    requires
        start_first ==> attach_result(m0, a1, dir, sid, rid, ra1) && stop_result(a1, a2, sid, ra2)
            && attach_result(m0, b1, dir, sid, rid, rb1) && stop_result(b1, b2, sid, rb2),
        !start_first ==> stop_result(m0, a1, sid, ra2) && attach_result(a1, a2, dir, sid, rid, ra1)
            && stop_result(m0, b1, sid, rb2) && attach_result(b1, b2, dir, sid, rid, rb1),
    ensures
        a1 == b1,
        a2 == b2,
{
}

/// A disconnect leaves no entry for the session, and hands over every
/// branch it had for detach, so none is left dangling.
pub proof fn lemma_disconnect_leaves_nothing(
    m0: Map<Seq<char>, SessionView>,
    m1: Map<Seq<char>, SessionView>,
    sid: Seq<char>,
    r: Option<crate::manager::TeardownPlan>,
)
    requires
        disconnect_result(m0, m1, sid, r),
    ensures
        !m1.contains_key(sid),
        m0.contains_key(sid) ==> (r matches Some(p) && p.pads() == m0[sid].pads()),
{
}

/// A session that dies on a fatal error leaves the registry, and every
/// branch it had is handed over for a forced detach.
pub proof fn lemma_fatal_error_leaves_nothing(
    m0: Map<Seq<char>, SessionView>,
    m1: Map<Seq<char>, SessionView>,
    sid: Seq<char>,
    r: Option<crate::manager::TeardownPlan>,
)
    requires
        event_result(m0, m1, sid, SessionEvent::FatalError, r),
    ensures
        !m1.contains_key(sid),
        m0.contains_key(sid) ==> (r matches Some(p) && tears_down(p, m0[sid].after_event(SessionEvent::FatalError))
            && p.pads() == m0[sid].pads()),
{
}

/// Stopping right after a successful start hands back the recording that
/// the start registered, under the same id.
pub proof fn lemma_start_then_stop(
    m0: Map<Seq<char>, SessionView>,
    m1: Map<Seq<char>, SessionView>,
    m2: Map<Seq<char>, SessionView>,
    dir: Seq<char>,
    sid: Seq<char>,
    rid: Seq<char>,
    r1: Result<AttachPlan, RecordError>,
    r2: Result<RecordingBranch, RecordError>,
)
    requires
        attach_result(m0, m1, dir, sid, rid, r1),
        r1 is Ok,
        stop_result(m1, m2, sid, r2),
    ensures
        r2 matches Ok(b) && b.recording_id@ == r1->Ok_0.recording_id@ && b.pad == r1->Ok_0.pad,
{
}

/// A second stop finds no recording and changes nothing.
pub proof fn lemma_stop_twice(
    m0: Map<Seq<char>, SessionView>,
    m1: Map<Seq<char>, SessionView>,
    m2: Map<Seq<char>, SessionView>,
    sid: Seq<char>,
    r1: Result<RecordingBranch, RecordError>,
    r2: Result<RecordingBranch, RecordError>,
)
    requires
        m0.contains_key(sid),
        stop_result(m0, m1, sid, r1),
        stop_result(m1, m2, sid, r2),
    ensures
        r2 == Err::<RecordingBranch, RecordError>(RecordError::NoActiveRecording),
        m2 == m1,
{
}

/// Disconnecting a session that is already gone succeeds with nothing to
/// do and changes nothing.
pub proof fn lemma_disconnect_twice(
    m0: Map<Seq<char>, SessionView>,
    m1: Map<Seq<char>, SessionView>,
    m2: Map<Seq<char>, SessionView>,
    sid: Seq<char>,
    r1: Option<crate::manager::TeardownPlan>,
    r2: Option<crate::manager::TeardownPlan>,
)
    requires
        disconnect_result(m0, m1, sid, r1),
        disconnect_result(m1, m2, sid, r2),
    ensures
        r2 is None,
        m2 == m1,
{
}

/// A connect with an id that an earlier connect registered is refused with
/// `AlreadyExists` and changes nothing.
pub proof fn lemma_connect_twice(
    m0: Map<Seq<char>, SessionView>,
    m1: Map<Seq<char>, SessionView>,
    m2: Map<Seq<char>, SessionView>,
    sid: Seq<char>,
    first_protocol: Seq<char>,
    first_url: Seq<char>,
    second_protocol: Seq<char>,
    second_url: Seq<char>,
    r1: Result<(), RecordError>,
    r2: Result<(), RecordError>,
)
    requires
        connect_result(m0, m1, sid, first_protocol, first_url, r1),
        connect_result(m1, m2, sid, second_protocol, second_url, r2),
    ensures
        r2 matches Err(RecordError::AlreadyExists(s)) && s@ == sid,
        m2 == m1,
{
}

/// A session that never becomes ready is polled once a second for ten
/// seconds, after which the attach gives up with "not ready".
pub proof fn lemma_never_ready_gives_up()
    ensures
        forall|n: u32| n < READY_POLLS ==> #[trigger] ready_outcome(false, n) == ReadyOutcome::Sleep,
        ready_outcome(false, READY_POLLS) == ReadyOutcome::GiveUp,
        READY_POLLS * READY_POLL_INTERVAL_MS == 10000,
{
}

/// A recording whose file holds data is marked completed when it stops,
/// also when its branch was torn down by a crash.
pub proof fn lemma_data_means_completed(file_size: i64)
    requires
        file_size > 0,
    ensures
        finished_status(file_size) == RecordingStatus::Completed,
{
}

} // verus!
