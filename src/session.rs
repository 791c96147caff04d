use vstd::prelude::*;
use crate::error::RecordError;

verus! {

/// Where a stream session is in its life.
#[derive(PartialEq, Eq, Structural, Clone, Copy, Debug)]
pub enum LifecycleState {
    Connecting,
    Live,
    Draining,
    Dead,
}

/// Where a recording branch is in its attach/detach protocol.
#[derive(PartialEq, Eq, Structural, Clone, Copy, Debug)]
pub enum BranchState {
    Attaching,
    Capturing,
    Draining,
    Detached,
}

/// What the media graph reports about a session, as seen by the control plane.
#[derive(PartialEq, Eq, Structural, Clone, Copy, Debug)]
pub enum SessionEvent {
    /// The ingest graph reached its running state with the source linked.
    GraphRunning,
    /// A first buffer went through the ingest chain.
    BufferHandedOff,
    /// End of stream on the top-level graph.
    EndOfStream,
    /// An error message on the graph's bus.
    FatalError,
    /// The graph did not reach its running state before the startup deadline.
    StartupTimedOut,
}

/// A detachable recording sub-graph, fed by one output pad of the branch point.
#[derive(Debug)]
pub struct RecordingBranch {
    pub recording_id: String,
    /// The branch-point output pad that feeds this branch.
    pub pad: u64,
    pub file_path: String,
    pub state: BranchState,
}

pub struct BranchView {
    pub recording_id: Seq<char>,
    pub pad: u64,
    pub file_path: Seq<char>,
    pub state: BranchState,
}

impl View for RecordingBranch {
    type V = BranchView;

    open spec fn view(&self) -> BranchView {
        BranchView {
            recording_id: self.recording_id@,
            pad: self.pad,
            file_path: self.file_path@,
            state: self.state,
        }
    }
}

/// The state of one connected stream: its lifecycle, readiness, and the
/// branches attached to its branch point. Output pads of the branch point are
/// numbered in the order they are requested.
#[derive(Debug)]
pub struct StreamState {
    pub protocol: String,
    pub url: String,
    pub lifecycle: LifecycleState,
    pub ready: bool,
    pub active_recordings: Vec<RecordingBranch>,
    pub webrtc_pads: Vec<u64>,
    pub next_pad: u64,
}

pub struct SessionView {
    pub protocol: Seq<char>,
    pub url: Seq<char>,
    pub lifecycle: LifecycleState,
    pub ready: bool,
    pub recordings: Seq<BranchView>,
    pub webrtc_pads: Seq<u64>,
    pub next_pad: u64,
}

impl View for StreamState {
    type V = SessionView;

    open spec fn view(&self) -> SessionView {
        SessionView {
            protocol: self.protocol@,
            url: self.url@,
            lifecycle: self.lifecycle,
            ready: self.ready,
            recordings: self.active_recordings@.map_values(|b: RecordingBranch| b@),
            webrtc_pads: self.webrtc_pads@,
            next_pad: self.next_pad,
        }
    }
}

/// The message of the error that a recording start gets on a session that
/// has produced no buffer yet.
pub open spec fn not_ready_message() -> Seq<char> {
    "Stream is not ready for recording"@
}

/// The message of the error that a branch gets when the branch point has
/// handed out every pad number.
pub open spec fn no_pad_message() -> Seq<char> {
    "No free output pad on the branch point"@
}

/// Why an attach is refused, checked in this order; `Proceed` when it is not.
pub enum AttachCheck {
    NotConnected,
    AlreadyRecording,
    NotReady,
    NoPad,
    Proceed,
}

impl SessionView {
    /// Every branch-point output pad in use, recordings first.
    pub open spec fn pads(self) -> Seq<u64> {
        self.recordings.map_values(|b: BranchView| b.pad) + self.webrtc_pads
    }

    pub open spec fn is_recording(self) -> bool {
        self.recordings.len() > 0
    }

    /// At most one recording at a time, and it is still linked (attaching
    /// or capturing); every pad in use was handed out by the branch point,
    /// no two branches share one, and branches exist only on a session that
    /// has become ready.
    pub open spec fn wf(self) -> bool {
        &&& self.recordings.len() <= 1
        &&& forall|k: int| 0 <= k < self.recordings.len()
            ==> (#[trigger] self.recordings[k]).state == BranchState::Attaching
                || self.recordings[k].state == BranchState::Capturing
        &&& forall|i: int| 0 <= i < self.pads().len() ==> #[trigger] self.pads()[i] < self.next_pad
        &&& forall|i: int, j: int|
            0 <= i < self.pads().len() && 0 <= j < self.pads().len() && i != j
                ==> #[trigger] self.pads()[i] != #[trigger] self.pads()[j]
        &&& self.pads().len() > 0 ==> self.ready
    }

    pub open spec fn attach_check(self) -> AttachCheck {
        if self.lifecycle != LifecycleState::Live {
            AttachCheck::NotConnected
        } else if self.is_recording() {
            AttachCheck::AlreadyRecording
        } else if !self.ready {
            AttachCheck::NotReady
        } else if self.next_pad == u64::MAX {
            AttachCheck::NoPad
        } else {
            AttachCheck::Proceed
        }
    }

    /// The session after a recording branch was registered on the next pad.
    pub open spec fn with_recording(self, recording_id: Seq<char>, file_path: Seq<char>) -> SessionView {
        SessionView {
            recordings: self.recordings.push(
                BranchView {
                    recording_id,
                    pad: self.next_pad,
                    file_path,
                    state: BranchState::Attaching,
                },
            ),
            next_pad: (self.next_pad + 1) as u64,
            ..self
        }
    }

    /// The session after a WebRTC branch was registered on the next pad.
    pub open spec fn with_webrtc(self) -> SessionView {
        SessionView {
            webrtc_pads: self.webrtc_pads.push(self.next_pad),
            next_pad: (self.next_pad + 1) as u64,
            ..self
        }
    }

    /// The session after the attach of `recording_id` ended: a linked branch
    /// starts capturing, one that could not be linked is taken out again.
    pub open spec fn after_attach(self, recording_id: Seq<char>, linked: bool) -> SessionView {
        if self.recordings.len() > 0 && self.recordings[0].recording_id == recording_id
            && self.recordings[0].state == BranchState::Attaching {
            if linked {
                SessionView {
                    recordings: seq![BranchView { state: BranchState::Capturing, ..self.recordings[0] }],
                    ..self
                }
            } else {
                self.without_recording()
            }
        } else {
            self
        }
    }

    /// The session after its only recording branch was taken out.
    pub open spec fn without_recording(self) -> SessionView {
        SessionView { recordings: Seq::empty(), ..self }
    }

    /// The session after the graph reported `ev`.
    pub open spec fn after_event(self, ev: SessionEvent) -> SessionView {
        match ev {
            SessionEvent::GraphRunning => if self.lifecycle == LifecycleState::Connecting {
                SessionView { lifecycle: LifecycleState::Live, ..self }
            } else {
                self
            },
            SessionEvent::BufferHandedOff => SessionView { ready: true, ..self },
            SessionEvent::EndOfStream => if self.lifecycle == LifecycleState::Live {
                SessionView { lifecycle: LifecycleState::Draining, ..self }
            } else {
                self
            },
            SessionEvent::FatalError => SessionView { lifecycle: LifecycleState::Dead, ..self },
            SessionEvent::StartupTimedOut => if self.lifecycle == LifecycleState::Connecting {
                SessionView { lifecycle: LifecycleState::Dead, ..self }
            } else {
                self
            },
        }
    }
}

/// What the caller must build for a newly registered recording branch: the
/// sub-graph writing to `location`, fed from output pad `pad`.
#[derive(Debug)]
pub struct AttachPlan {
    pub recording_id: String,
    pub pad: u64,
    pub location: String,
}

impl StreamState {
    /// A session that is connecting: no readiness, no branches, no pad handed out.
    pub fn new() -> (r: StreamState)
        ensures
            r@.lifecycle == LifecycleState::Connecting,
            !r@.ready,
            r@.recordings.len() == 0,
            r@.webrtc_pads.len() == 0,
            r@.next_pad == 0,
            r@.protocol.len() == 0,
            r@.url.len() == 0,
            r@.wf(),
    {
        StreamState {
            protocol: String::new(),
            url: String::new(),
            lifecycle: LifecycleState::Connecting,
            ready: false,
            active_recordings: Vec::new(),
            webrtc_pads: Vec::new(),
            next_pad: 0,
        }
    }

    /// The session is live: its graph runs with the source linked.
    pub fn is_connected(&self) -> (r: bool)
        ensures
            r == (self@.lifecycle == LifecycleState::Live),
    {
        self.lifecycle == LifecycleState::Live
    }

    /// A recording branch is attached.
    pub fn is_recording(&self) -> (r: bool)
        ensures
            r == self@.is_recording(),
    {
        self.active_recordings.len() > 0
    }

    /// Registers a recording branch on the next output pad of the branch
    /// point, before anything is linked, and says what to build. Refused on a
    /// session that is not live, that already records, or that has not
    /// become ready; the session is then unchanged.
    pub fn start_recording(&mut self, recording_id: &str, location: &str) -> (r: Result<AttachPlan, RecordError>)
        requires
            old(self)@.wf(),
        ensures
            final(self)@.wf(),
            match old(self)@.attach_check() {
                AttachCheck::NotConnected => r == Err::<AttachPlan, RecordError>(RecordError::NotConnected) && final(self)@ == old(self)@,
                AttachCheck::AlreadyRecording => r == Err::<AttachPlan, RecordError>(RecordError::AlreadyRecording) && final(self)@ == old(self)@,
                AttachCheck::NotReady => (r matches Err(RecordError::StreamError(m)) && m@ == not_ready_message()) && final(self)@ == old(self)@,
                AttachCheck::NoPad => (r matches Err(RecordError::PipelineError(m)) && m@ == no_pad_message()) && final(self)@ == old(self)@,
                AttachCheck::Proceed => (r matches Ok(p) && p.recording_id@ == recording_id@ && p.pad == old(self)@.next_pad && p.location@ == location@)
                    && final(self)@ == old(self)@.with_recording(recording_id@, location@),
            },
    {
        if self.lifecycle != LifecycleState::Live {
            return Err(RecordError::NotConnected);
        }
        if self.active_recordings.len() > 0 {
            return Err(RecordError::AlreadyRecording);
        }
        if !self.ready {
            return Err(RecordError::StreamError(String::from_str("Stream is not ready for recording")));
        }
        if self.next_pad == u64::MAX {
            return Err(RecordError::PipelineError(String::from_str("No free output pad on the branch point")));
        }
        let pad = self.next_pad;
        let ghost before = self@;
        self.active_recordings.push(RecordingBranch {
            recording_id: String::from_str(recording_id),
            pad,
            file_path: String::from_str(location),
            state: BranchState::Attaching,
        });
        self.next_pad = pad + 1;
        proof {
            assert(self@.recordings =~= before.recordings.push(
                BranchView { recording_id: recording_id@, pad, file_path: location@, state: BranchState::Attaching },
            ));
            assert(self@ == before.with_recording(recording_id@, location@));
            assert(before.recordings.len() == 0);
            assert(self@.pads() =~= seq![pad] + before.webrtc_pads);
            assert(before.pads() =~= before.webrtc_pads);
        }
        Ok(AttachPlan {
            recording_id: String::from_str(recording_id),
            pad,
            location: String::from_str(location),
        })
    }

    /// Ends the attach of `recording_id`. When the branch was linked it
    /// starts capturing and `None` comes back; when linking failed the
    /// branch is taken out again and its pad comes back, to be released.
    pub fn finish_attach(&mut self, recording_id: &str, linked: bool) -> (r: Option<u64>)
        requires
            old(self)@.wf(),
        ensures
            final(self)@.wf(),
            final(self)@ == old(self)@.after_attach(recording_id@, linked),
            r == (if !linked && old(self)@.after_attach(recording_id@, linked) != old(self)@ {
                Some(old(self)@.recordings[0].pad)
            } else {
                None::<u64>
            }),
    {
        if self.active_recordings.len() == 0 {
            return None;
        }
        let same_id = str_eq(self.active_recordings[0].recording_id.as_str(), recording_id);
        if !same_id || self.active_recordings[0].state != BranchState::Attaching {
            return None;
        }
        let ghost before = self@;
        let mut branch = self.active_recordings.pop().unwrap();
        if linked {
            branch.state = BranchState::Capturing;
            self.active_recordings.push(branch);
            proof {
                assert(self@.recordings =~= seq![BranchView { state: BranchState::Capturing, ..before.recordings[0] }]);
                assert(self@.pads() =~= before.pads());
            }
            None
        } else {
            proof {
                assert(self@.recordings =~= Seq::<BranchView>::empty());
                assert(self@.pads() =~= before.pads().subrange(1, before.pads().len() as int));
                assert(self@ != before);
            }
            Some(branch.pad)
        }
    }

    /// Takes the recording branch out of the session, before anything is
    /// unlinked, and hands it over for the detach. Refused with
    /// `NoActiveRecording` when no recording is in progress.
    pub fn stop_recording(&mut self) -> (r: Result<RecordingBranch, RecordError>)
        requires
            old(self)@.wf(),
        ensures
            final(self)@.wf(),
            final(self)@ == old(self)@.without_recording(),
            !old(self)@.is_recording() ==> r == Err::<RecordingBranch, RecordError>(RecordError::NoActiveRecording),
            old(self)@.is_recording() ==> (r matches Ok(b) && b@ == old(self)@.recordings[0]),
    {
        let ghost before = self@;
        match self.active_recordings.pop() {
            None => {
                proof {
                    assert(self@.recordings =~= Seq::<BranchView>::empty());
                }
                Err(RecordError::NoActiveRecording)
            },
            Some(b) => {
                proof {
                    assert(self@.recordings =~= Seq::<BranchView>::empty());
                    assert(self@.pads() =~= before.pads().subrange(1, before.pads().len() as int));
                }
                Ok(b)
            },
        }
    }

    /// Registers a WebRTC branch on the next output pad of the branch point
    /// and returns that pad. The session must be live and ready.
    pub fn start_webrtc_streaming(&mut self) -> (r: Result<u64, RecordError>)
        requires
            old(self)@.wf(),
        ensures
            final(self)@.wf(),
            old(self)@.lifecycle != LifecycleState::Live ==> r == Err::<u64, RecordError>(RecordError::NotConnected) && final(self)@ == old(self)@,
            old(self)@.lifecycle == LifecycleState::Live && !old(self)@.ready
                ==> (r matches Err(RecordError::StreamError(m)) && m@ == not_ready_message()) && final(self)@ == old(self)@,
            old(self)@.lifecycle == LifecycleState::Live && old(self)@.ready && old(self)@.next_pad == u64::MAX
                ==> (r matches Err(RecordError::PipelineError(m)) && m@ == no_pad_message()) && final(self)@ == old(self)@,
            old(self)@.lifecycle == LifecycleState::Live && old(self)@.ready && old(self)@.next_pad < u64::MAX
                ==> r == Ok::<u64, RecordError>(old(self)@.next_pad) && final(self)@ == old(self)@.with_webrtc(),
    {
        start_webrtc_streaming_impl(self)
    }

    /// Applies what the graph reported. Readiness only ever turns on.
    pub fn apply_event(&mut self, ev: SessionEvent)
        requires
            old(self)@.wf(),
        ensures
            final(self)@.wf(),
            final(self)@ == old(self)@.after_event(ev),
            old(self)@.ready ==> final(self)@.ready,
    {
        match ev {
            SessionEvent::GraphRunning => {
                if self.lifecycle == LifecycleState::Connecting {
                    self.lifecycle = LifecycleState::Live;
                }
            },
            SessionEvent::BufferHandedOff => {
                self.ready = true;
            },
            SessionEvent::EndOfStream => {
                if self.lifecycle == LifecycleState::Live {
                    self.lifecycle = LifecycleState::Draining;
                }
            },
            SessionEvent::FatalError => {
                self.lifecycle = LifecycleState::Dead;
            },
            SessionEvent::StartupTimedOut => {
                if self.lifecycle == LifecycleState::Connecting {
                    self.lifecycle = LifecycleState::Dead;
                }
            },
        }
        proof {
            assert(self@.pads() =~= old(self)@.pads());
        }
    }
}

/// Registers a WebRTC branch on the next output pad of the branch point
/// and returns that pad. The session must be live and ready.
pub fn start_webrtc_streaming_impl(state: &mut StreamState) -> (r: Result<u64, RecordError>)
    requires
        old(state)@.wf(),
    ensures
        final(state)@.wf(),
        old(state)@.lifecycle != LifecycleState::Live ==> r == Err::<u64, RecordError>(RecordError::NotConnected) && final(state)@ == old(state)@,
        old(state)@.lifecycle == LifecycleState::Live && !old(state)@.ready
            ==> (r matches Err(RecordError::StreamError(m)) && m@ == not_ready_message()) && final(state)@ == old(state)@,
        old(state)@.lifecycle == LifecycleState::Live && old(state)@.ready && old(state)@.next_pad == u64::MAX
            ==> (r matches Err(RecordError::PipelineError(m)) && m@ == no_pad_message()) && final(state)@ == old(state)@,
        old(state)@.lifecycle == LifecycleState::Live && old(state)@.ready && old(state)@.next_pad < u64::MAX
            ==> r == Ok::<u64, RecordError>(old(state)@.next_pad) && final(state)@ == old(state)@.with_webrtc(),
{
    if state.lifecycle != LifecycleState::Live {
        return Err(RecordError::NotConnected);
    }
    if !state.ready {
        return Err(RecordError::StreamError(String::from_str("Stream is not ready for recording")));
    }
    if state.next_pad == u64::MAX {
        return Err(RecordError::PipelineError(String::from_str("No free output pad on the branch point")));
    }
    let pad = state.next_pad;
    let ghost before = state@;
    state.webrtc_pads.push(pad);
    state.next_pad = pad + 1;
    proof {
        assert(state@.pads() =~= before.pads().push(pad));
        assert(state@ == before.with_webrtc());
    }
    Ok(pad)
}

/// Whether two strings hold the same characters.
pub fn str_eq(a: &str, b: &str) -> (r: bool)
    ensures
        r == (a@ == b@),
{
    let sa = String::from_str(a);
    let sb = String::from_str(b);
    sa.eq(&sb)
}

} // verus!
