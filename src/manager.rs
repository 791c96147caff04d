use vstd::prelude::*;
use crate::config::Config;
use crate::error::{RecordError, concat3};
use crate::ids::{canonical_uuid, uuid_text};
use crate::models::{DebugStatus, GraphStates, StreamStatus, reports, opt_view};
use crate::session::{
    AttachCheck, AttachPlan, BranchView, LifecycleState, no_pad_message, not_ready_message, RecordingBranch, SessionEvent, SessionView,
    StreamState, str_eq,
};

verus! {

/// Identifies a stream session; the text of a UUID.
pub type StreamId = String;

/// One registered session.
#[derive(Debug)]
pub struct SessionEntry {
    pub stream_id: StreamId,
    pub state: StreamState,
}

/// What is left to tear down of a session that left the registry: the
/// recording branches to detach and the WebRTC pads to release.
#[derive(Debug)]
pub struct TeardownPlan {
    pub recordings: Vec<RecordingBranch>,
    pub webrtc_pads: Vec<u64>,
}

impl TeardownPlan {
    /// Every branch-point pad that the teardown releases.
    pub open spec fn pads(self) -> Seq<u64> {
        self.recordings@.map_values(|b: RecordingBranch| b.pad) + self.webrtc_pads@
    }
}

pub open spec fn ids_unique(s: Seq<SessionEntry>) -> bool {
    forall|i: int, j: int|
        0 <= i < s.len() && 0 <= j < s.len() && i != j ==> #[trigger] s[i].stream_id@ != #[trigger] s[j].stream_id@
}

pub open spec fn has_id(s: Seq<SessionEntry>, id: Seq<char>) -> bool {
    exists|i: int| 0 <= i < s.len() && #[trigger] s[i].stream_id@ == id
}

pub open spec fn slot(s: Seq<SessionEntry>, id: Seq<char>) -> int {
    choose|i: int| 0 <= i < s.len() && #[trigger] s[i].stream_id@ == id
}

/// The sessions of a registry, by stream id.
pub open spec fn map_of(s: Seq<SessionEntry>) -> Map<Seq<char>, SessionView> {
    Map::new(|id: Seq<char>| has_id(s, id), |id: Seq<char>| s[slot(s, id)].state@)
}

/// `dir/id.mp4`: where the recording `id` is written.
pub open spec fn location_of(dir: Seq<char>, id: Seq<char>) -> Seq<char> {
    dir + "/"@ + id + ".mp4"@
}

proof fn lemma_slot(s: Seq<SessionEntry>, i: int)
    requires
        ids_unique(s),
        0 <= i < s.len(),
    ensures
        has_id(s, s[i].stream_id@),
        slot(s, s[i].stream_id@) == i,
        map_of(s).contains_key(s[i].stream_id@),
        map_of(s)[s[i].stream_id@] == s[i].state@,
{
    let id = s[i].stream_id@;
    assert(has_id(s, id));
    let k = slot(s, id);
    assert(s[k].stream_id@ == id);
}

proof fn lemma_update(s: Seq<SessionEntry>, i: int, e: SessionEntry)
    requires
        ids_unique(s),
        0 <= i < s.len(),
        e.stream_id@ == s[i].stream_id@,
    ensures
        ids_unique(s.update(i, e)),
        map_of(s.update(i, e)) == map_of(s).insert(e.stream_id@, e.state@),
{
    let t = s.update(i, e);
    assert forall|a: int, b: int| 0 <= a < t.len() && 0 <= b < t.len() && a != b
        implies #[trigger] t[a].stream_id@ != #[trigger] t[b].stream_id@ by {
        assert(t[a].stream_id@ == s[a].stream_id@);
        assert(t[b].stream_id@ == s[b].stream_id@);
    }
    assert forall|id: Seq<char>| has_id(t, id) == has_id(s, id) by {
        if has_id(s, id) {
            let k = choose|k: int| 0 <= k < s.len() && #[trigger] s[k].stream_id@ == id;
            assert(t[k].stream_id@ == id);
        }
        if has_id(t, id) {
            let k = choose|k: int| 0 <= k < t.len() && #[trigger] t[k].stream_id@ == id;
            assert(s[k].stream_id@ == id);
        }
    }
    assert forall|id: Seq<char>| #[trigger] map_of(t).contains_key(id) && id != e.stream_id@
        implies map_of(t)[id] == map_of(s)[id] by {
        let k = slot(t, id);
        lemma_slot(t, k);
        assert(s[k].stream_id@ == id);
        lemma_slot(s, k);
    }
    lemma_slot(t, i);
    assert(map_of(t) =~= map_of(s).insert(e.stream_id@, e.state@));
}

proof fn lemma_remove(s: Seq<SessionEntry>, i: int)
    requires
        ids_unique(s),
        0 <= i < s.len(),
    ensures
        ids_unique(s.remove(i)),
        map_of(s.remove(i)) == map_of(s).remove(s[i].stream_id@),
{
    let t = s.remove(i);
    let gone = s[i].stream_id@;
    assert forall|a: int, b: int| 0 <= a < t.len() && 0 <= b < t.len() && a != b
        implies #[trigger] t[a].stream_id@ != #[trigger] t[b].stream_id@ by {
        let sa = if a < i { a } else { a + 1 };
        let sb = if b < i { b } else { b + 1 };
        assert(t[a] == s[sa]);
        assert(t[b] == s[sb]);
    }
    assert forall|id: Seq<char>| has_id(t, id) == (has_id(s, id) && id != gone) by {
        if has_id(s, id) && id != gone {
            let k = choose|k: int| 0 <= k < s.len() && #[trigger] s[k].stream_id@ == id;
            let tk = if k < i { k } else { k - 1 };
            assert(t[tk] == s[k]);
        }
        if has_id(t, id) {
            let k = choose|k: int| 0 <= k < t.len() && #[trigger] t[k].stream_id@ == id;
            let sk = if k < i { k } else { k + 1 };
            assert(t[k] == s[sk]);
        }
    }
    assert forall|id: Seq<char>| #[trigger] map_of(t).contains_key(id)
        implies map_of(t)[id] == map_of(s)[id] by {
        let k = slot(t, id);
        lemma_slot(t, k);
        let sk = if k < i { k } else { k + 1 };
        assert(t[k] == s[sk]);
        lemma_slot(s, sk);
    }
    assert(map_of(t) =~= map_of(s).remove(gone));
}

proof fn lemma_push(s: Seq<SessionEntry>, e: SessionEntry)
    requires
        ids_unique(s),
        !has_id(s, e.stream_id@),
    ensures
        ids_unique(s.push(e)),
        map_of(s.push(e)) == map_of(s).insert(e.stream_id@, e.state@),
{
    let t = s.push(e);
    assert forall|a: int, b: int| 0 <= a < t.len() && 0 <= b < t.len() && a != b
        implies #[trigger] t[a].stream_id@ != #[trigger] t[b].stream_id@ by {
        if a == s.len() {
            assert(t[b] == s[b]);
        } else if b == s.len() {
            assert(t[a] == s[a]);
        } else {
            assert(t[a] == s[a]);
            assert(t[b] == s[b]);
        }
    }
    assert forall|id: Seq<char>| has_id(t, id) == (has_id(s, id) || id == e.stream_id@) by {
        if has_id(s, id) {
            let k = choose|k: int| 0 <= k < s.len() && #[trigger] s[k].stream_id@ == id;
            assert(t[k] == s[k]);
        }
        if id == e.stream_id@ {
            assert(t[s.len() as int] == e);
        }
        if has_id(t, id) && id != e.stream_id@ {
            let k = choose|k: int| 0 <= k < t.len() && #[trigger] t[k].stream_id@ == id;
            assert(t[k] == s[k]);
        }
    }
    assert forall|id: Seq<char>| #[trigger] map_of(t).contains_key(id) && id != e.stream_id@
        implies map_of(t)[id] == map_of(s)[id] by {
        let k = slot(t, id);
        lemma_slot(t, k);
        assert(t[k] == s[k]);
        lemma_slot(s, k);
    }
    lemma_slot(t, s.len() as int);
    assert(map_of(t) =~= map_of(s).insert(e.stream_id@, e.state@));
}

proof fn lemma_update_wf(s: Seq<SessionEntry>, i: int, e: SessionEntry)
    requires
        forall|k: int| 0 <= k < s.len() ==> (#[trigger] s[k]).state@.wf(),
        0 <= i < s.len(),
        e.state@.wf(),
    ensures
        forall|k: int| 0 <= k < s.update(i, e).len() ==> (#[trigger] s.update(i, e)[k]).state@.wf(),
{
    assert forall|k: int| 0 <= k < s.update(i, e).len() implies (#[trigger] s.update(i, e)[k]).state@.wf() by {
        if k != i {
            assert(s.update(i, e)[k] == s[k]);
        }
    }
}

proof fn lemma_remove_wf(s: Seq<SessionEntry>, i: int)
    requires
        forall|k: int| 0 <= k < s.len() ==> (#[trigger] s[k]).state@.wf(),
        0 <= i < s.len(),
    ensures
        forall|k: int| 0 <= k < s.remove(i).len() ==> (#[trigger] s.remove(i)[k]).state@.wf(),
{
    assert forall|k: int| 0 <= k < s.remove(i).len() implies (#[trigger] s.remove(i)[k]).state@.wf() by {
        if k < i {
            assert(s.remove(i)[k] == s[k]);
        } else {
            assert(s.remove(i)[k] == s[k + 1]);
        }
    }
}

/// A session that has just been registered for `url` over `protocol`.
pub open spec fn connecting_session(protocol: Seq<char>, url: Seq<char>) -> SessionView {
    SessionView {
        protocol,
        url,
        lifecycle: LifecycleState::Connecting,
        ready: false,
        recordings: Seq::empty(),
        webrtc_pads: Seq::empty(),
        next_pad: 0,
    }
}

/// The outcome of connecting session `sid`: refused when the id is taken.
pub open spec fn connect_result(
    before: Map<Seq<char>, SessionView>,
    after: Map<Seq<char>, SessionView>,
    sid: Seq<char>,
    protocol: Seq<char>,
    url: Seq<char>,
    r: Result<(), RecordError>,
) -> bool {
    if before.contains_key(sid) {
        (r matches Err(RecordError::AlreadyExists(s)) && s@ == sid) && after == before
    } else {
        r is Ok && after == before.insert(sid, connecting_session(protocol, url))
    }
}

/// Sessions present before and after a step that were ready stay ready.
pub open spec fn ready_kept(before: Map<Seq<char>, SessionView>, after: Map<Seq<char>, SessionView>) -> bool {
    forall|id: Seq<char>|
        before.contains_key(id) && after.contains_key(id) && (#[trigger] before[id]).ready ==> after[id].ready
}

/// The outcome of registering recording `rid` on session `sid`, whose
/// file goes under `dir`; `before` and `after` are the registry's sessions.
pub open spec fn attach_result(
    before: Map<Seq<char>, SessionView>,
    after: Map<Seq<char>, SessionView>,
    dir: Seq<char>,
    sid: Seq<char>,
    rid: Seq<char>,
    r: Result<AttachPlan, RecordError>,
) -> bool {
    if !before.contains_key(sid) {
        r == Err::<AttachPlan, RecordError>(RecordError::NotConnected) && after == before
    } else {
        let s = before[sid];
        match s.attach_check() {
            AttachCheck::NotConnected => r == Err::<AttachPlan, RecordError>(RecordError::NotConnected) && after == before,
            AttachCheck::AlreadyRecording => r == Err::<AttachPlan, RecordError>(RecordError::AlreadyRecording) && after == before,
            AttachCheck::NotReady => (r matches Err(RecordError::StreamError(m)) && m@ == not_ready_message()) && after == before,
            AttachCheck::NoPad => (r matches Err(RecordError::PipelineError(m)) && m@ == no_pad_message()) && after == before,
            AttachCheck::Proceed => (r matches Ok(p) && p.recording_id@ == rid && p.pad == s.next_pad
                && p.location@ == location_of(dir, rid))
                && after == before.insert(sid, s.with_recording(rid, location_of(dir, rid))),
        }
    }
}

/// The outcome of stopping the recording of session `sid`.
pub open spec fn stop_result(
    before: Map<Seq<char>, SessionView>,
    after: Map<Seq<char>, SessionView>,
    sid: Seq<char>,
    r: Result<RecordingBranch, RecordError>,
) -> bool {
    if !before.contains_key(sid) {
        (r matches Err(RecordError::StreamNotFound(x)) && x@ == sid) && after == before
    } else if !before[sid].is_recording() {
        r == Err::<RecordingBranch, RecordError>(RecordError::NoActiveRecording) && after == before
    } else {
        (r matches Ok(b) && b@ == before[sid].recordings[0])
            && after == before.insert(sid, before[sid].without_recording())
    }
}

/// `p` tears down exactly the branches of session `s`.
pub open spec fn tears_down(p: TeardownPlan, s: SessionView) -> bool {
    &&& p.recordings@.map_values(|b: RecordingBranch| b@) == s.recordings
    &&& p.webrtc_pads@ == s.webrtc_pads
    &&& p.pads() == s.pads()
}

/// The outcome of disconnecting session `sid`: it leaves the registry and
/// every one of its branches is handed over for detach.
pub open spec fn disconnect_result(
    before: Map<Seq<char>, SessionView>,
    after: Map<Seq<char>, SessionView>,
    sid: Seq<char>,
    r: Option<TeardownPlan>,
) -> bool {
    if !before.contains_key(sid) {
        r is None && after == before
    } else {
        (r matches Some(p) && tears_down(p, before[sid])) && after == before.remove(sid)
    }
}

/// The outcome of the graph of session `sid` reporting `ev`: a session
/// that dies leaves the registry and its branches are handed over.
pub open spec fn event_result(
    before: Map<Seq<char>, SessionView>,
    after: Map<Seq<char>, SessionView>,
    sid: Seq<char>,
    ev: SessionEvent,
    r: Option<TeardownPlan>,
) -> bool {
    if !before.contains_key(sid) {
        r is None && after == before
    } else {
        let s = before[sid].after_event(ev);
        if s.lifecycle == LifecycleState::Dead {
            (r matches Some(p) && tears_down(p, s)) && after == before.remove(sid)
        } else {
            r is None && after == before.insert(sid, s)
        }
    }
}

fn into_teardown(state: StreamState) -> (p: TeardownPlan)
    ensures
        tears_down(p, state@),
{
    let p = TeardownPlan { recordings: state.active_recordings, webrtc_pads: state.webrtc_pads };
    assert(p.recordings@.map_values(|b: RecordingBranch| b@) =~= state@.recordings);
    assert(p.recordings@.map_values(|b: RecordingBranch| b.pad) =~= state@.recordings.map_values(|b: BranchView| b.pad));
    p
}

/// `dir/id.mp4`.
pub fn recording_location(dir: &str, id: &str) -> (r: String)
    ensures
        r@ == location_of(dir@, id@),
{
    let mut s = concat3(dir, "/", id);
    s.append(".mp4");
    s
}

/// The process-wide registry of stream sessions, keyed by stream id.
#[derive(Debug)]
pub struct StreamManager {
    streams: Vec<SessionEntry>,
    recording_directory: String,
}

impl StreamManager {
    /// The sessions in the registry, by stream id.
    pub closed spec fn sessions(&self) -> Map<Seq<char>, SessionView> {
        map_of(self.streams@)
    }

    /// The directory that recordings are written to.
    pub closed spec fn recording_directory(&self) -> Seq<char> {
        self.recording_directory@
    }

    /// Stream ids are unique and every session is well formed.
    pub closed spec fn wf(&self) -> bool {
        &&& ids_unique(self.streams@)
        &&& forall|i: int| 0 <= i < self.streams@.len() ==> (#[trigger] self.streams@[i]).state@.wf()
    }

    /// Every session in a well-formed registry is well formed.
    pub proof fn lemma_sessions_wf(&self, id: Seq<char>)
        requires
            self.wf(),
            self.sessions().contains_key(id),
        ensures
            self.sessions()[id].wf(),
    {
        let k = slot(self.streams@, id);
        lemma_slot(self.streams@, k);
    }

    /// An empty registry writing recordings under the configured directory.
    pub fn new(config: Config) -> (r: StreamManager)
        ensures
            r.wf(),
            r.sessions() == Map::<Seq<char>, SessionView>::empty(),
            r.recording_directory() == config.recording_directory@,
    {
        let r = StreamManager { streams: Vec::new(), recording_directory: config.recording_directory };
        assert(r.sessions() =~= Map::<Seq<char>, SessionView>::empty());
        r
    }

    fn find(&self, stream_id: &str) -> (r: Option<usize>)
        requires
            self.wf(),
        ensures
            match r {
                Some(i) => i < self.streams@.len() && self.streams@[i as int].stream_id@ == stream_id@
                    && self.sessions().contains_key(stream_id@)
                    && self.sessions()[stream_id@] == self.streams@[i as int].state@,
                None => !self.sessions().contains_key(stream_id@),
            },
    {
        let mut i: usize = 0;
        while i < self.streams.len()
            invariant
                self.wf(),
                0 <= i <= self.streams@.len(),
                forall|k: int| 0 <= k < i ==> (#[trigger] self.streams@[k]).stream_id@ != stream_id@,
            decreases self.streams@.len() - i,
        {
            if str_eq(self.streams[i].stream_id.as_str(), stream_id) {
                proof {
                    lemma_slot(self.streams@, i as int);
                }
                return Some(i);
            }
            i = i + 1;
        }
        None
    }

    /// Whether a session is registered under `stream_id`.
    pub fn contains(&self, stream_id: &str) -> (r: bool)
        requires
            self.wf(),
        ensures
            r == self.sessions().contains_key(stream_id@),
    {
        self.find(stream_id).is_some()
    }

    /// Registers a new session, connecting, for `url` over `protocol`.
    /// Refused with `AlreadyExists` when the id is taken; the registry is
    /// then unchanged.
    pub fn connect(&mut self, stream_id: StreamId, protocol: String, url: String) -> (r: Result<(), RecordError>)
        requires
            old(self).wf(),
        ensures
            final(self).wf(),
            final(self).recording_directory() == old(self).recording_directory(),
            connect_result(old(self).sessions(), final(self).sessions(), stream_id@, protocol@, url@, r),
            ready_kept(old(self).sessions(), final(self).sessions()),
    {
        if self.find(stream_id.as_str()).is_some() {
            return Err(RecordError::AlreadyExists(stream_id));
        }
        let mut state = StreamState::new();
        state.protocol = protocol;
        state.url = url;
        let entry = SessionEntry { stream_id, state };
        proof {
            assert(entry.state@.recordings =~= Seq::empty());
            assert(entry.state@.pads() =~= Seq::empty());
            lemma_push(self.streams@, entry);
            assert(entry.state@ == connecting_session(entry.state.protocol@, entry.state.url@));
        }
        self.streams.push(entry);
        proof {
            assert forall|i: int| 0 <= i < self.streams@.len() implies (#[trigger] self.streams@[i]).state@.wf() by {
                if i < old(self).streams@.len() {
                    assert(self.streams@[i] == old(self).streams@[i]);
                }
            }
        }
        Ok(())
    }

    /// Registers a recording on session `stream_id`. The recording id must
    /// spell a UUID; its hyphenated lower-case form names the recording.
    pub fn start_recording(&mut self, stream_id: &str, recording_id: &str) -> (r: Result<AttachPlan, RecordError>)
        requires
            old(self).wf(),
        ensures
            final(self).wf(),
            final(self).recording_directory() == old(self).recording_directory(),
            ready_kept(old(self).sessions(), final(self).sessions()),
            match uuid_text(recording_id@) {
                None => (r matches Err(RecordError::StreamError(m)) && m@ == "Invalid recording_id: "@ + recording_id@)
                    && final(self).sessions() == old(self).sessions(),
                Some(c) => attach_result(old(self).sessions(), final(self).sessions(), old(self).recording_directory(), stream_id@, c, r),
            },
    {
        match canonical_uuid(recording_id) {
            None => {
                let mut m = String::from_str("Invalid recording_id: ");
                m.append(recording_id);
                Err(RecordError::StreamError(m))
            },
            Some(c) => start_recording_impl(self, stream_id, c.as_str()),
        }
    }

    /// Ends the attach of `recording_id` on session `stream_id`: see
    /// `StreamState::finish_attach`. Returns the pad to release, if any.
    pub fn finish_attach(&mut self, stream_id: &str, recording_id: &str, linked: bool) -> (r: Option<u64>)
        requires
            old(self).wf(),
        ensures
            final(self).wf(),
            final(self).recording_directory() == old(self).recording_directory(),
            ready_kept(old(self).sessions(), final(self).sessions()),
            !old(self).sessions().contains_key(stream_id@) ==> r is None && final(self).sessions() == old(self).sessions(),
            old(self).sessions().contains_key(stream_id@) ==> {
                let s = old(self).sessions()[stream_id@];
                &&& final(self).sessions() == old(self).sessions().insert(stream_id@, s.after_attach(recording_id@, linked))
                &&& r == (if !linked && s.after_attach(recording_id@, linked) != s {
                    Some(s.recordings[0].pad)
                } else {
                    None::<u64>
                })
            },
    {
        match self.find(stream_id) {
            None => None,
            Some(i) => {
                let ghost before = self.streams@;
                let mut entry = self.streams.remove(i);
                let r = entry.state.finish_attach(recording_id, linked);
                self.streams.insert(i, entry);
                proof {
                    assert(self.streams@ =~= before.update(i as int, self.streams@[i as int]));
                    lemma_update(before, i as int, self.streams@[i as int]);
                    lemma_update_wf(before, i as int, self.streams@[i as int]);
                }
                r
            },
        }
    }

    /// Takes the recording branch out of session `stream_id` and hands it
    /// over for the detach.
    pub fn stop_recording(&mut self, stream_id: &str) -> (r: Result<RecordingBranch, RecordError>)
        requires
            old(self).wf(),
        ensures
            final(self).wf(),
            final(self).recording_directory() == old(self).recording_directory(),
            stop_result(old(self).sessions(), final(self).sessions(), stream_id@, r),
            ready_kept(old(self).sessions(), final(self).sessions()),
    {
        match self.find(stream_id) {
            None => Err(RecordError::StreamNotFound(String::from_str(stream_id))),
            Some(i) => {
                let ghost before = self.streams@;
                let mut entry = self.streams.remove(i);
                let r = entry.state.stop_recording();
                self.streams.insert(i, entry);
                proof {
                    assert(self.streams@ =~= before.update(i as int, self.streams@[i as int]));
                    lemma_update(before, i as int, self.streams@[i as int]);
                    lemma_update_wf(before, i as int, self.streams@[i as int]);
                    if r is Err {
                        assert(before[i as int].state@.recordings =~= Seq::<BranchView>::empty());
                        assert(before[i as int].state@.without_recording() == before[i as int].state@);
                        assert(self.sessions() =~= old(self).sessions());
                    }
                }
                r
            },
        }
    }

    /// Registers a WebRTC branch on session `stream_id`: see
    /// `StreamState::start_webrtc_streaming`.
    pub fn start_webrtc_streaming(&mut self, stream_id: &str) -> (r: Result<u64, RecordError>)
        requires
            old(self).wf(),
        ensures
            final(self).wf(),
            final(self).recording_directory() == old(self).recording_directory(),
            ready_kept(old(self).sessions(), final(self).sessions()),
            !old(self).sessions().contains_key(stream_id@) ==> (r matches Err(RecordError::StreamNotFound(x)) && x@ == stream_id@)
                && final(self).sessions() == old(self).sessions(),
            old(self).sessions().contains_key(stream_id@) ==> {
                let s = old(self).sessions()[stream_id@];
                if s.lifecycle != LifecycleState::Live {
                    r == Err::<u64, RecordError>(RecordError::NotConnected) && final(self).sessions() == old(self).sessions()
                } else if !s.ready {
                    (r matches Err(RecordError::StreamError(m)) && m@ == not_ready_message()) && final(self).sessions() == old(self).sessions()
                } else if s.next_pad == u64::MAX {
                    (r matches Err(RecordError::PipelineError(m)) && m@ == no_pad_message()) && final(self).sessions() == old(self).sessions()
                } else {
                    r == Ok::<u64, RecordError>(s.next_pad) && final(self).sessions() == old(self).sessions().insert(stream_id@, s.with_webrtc())
                }
            },
    {
        match self.find(stream_id) {
            None => Err(RecordError::StreamNotFound(String::from_str(stream_id))),
            Some(i) => {
                let ghost before = self.streams@;
                let mut entry = self.streams.remove(i);
                let r = entry.state.start_webrtc_streaming();
                self.streams.insert(i, entry);
                proof {
                    assert(self.streams@ =~= before.update(i as int, self.streams@[i as int]));
                    lemma_update(before, i as int, self.streams@[i as int]);
                    lemma_update_wf(before, i as int, self.streams@[i as int]);
                    if r is Err {
                        assert(self.sessions() =~= old(self).sessions());
                    }
                }
                r
            },
        }
    }

    /// Applies what the graph of session `stream_id` reported. A session
    /// that dies leaves the registry, and its branches are handed over for
    /// forced detach.
    pub fn apply_event(&mut self, stream_id: &str, ev: SessionEvent) -> (r: Option<TeardownPlan>)
        requires
            old(self).wf(),
        ensures
            final(self).wf(),
            final(self).recording_directory() == old(self).recording_directory(),
            event_result(old(self).sessions(), final(self).sessions(), stream_id@, ev, r),
            ready_kept(old(self).sessions(), final(self).sessions()),
    {
        match self.find(stream_id) {
            None => None,
            Some(i) => {
                let ghost before = self.streams@;
                let mut entry = self.streams.remove(i);
                entry.state.apply_event(ev);
                if entry.state.lifecycle == LifecycleState::Dead {
                    proof {
                        assert(self.streams@ =~= before.remove(i as int));
                        lemma_remove(before, i as int);
                        lemma_remove_wf(before, i as int);
                        lemma_slot(before, i as int);
                    }
                    Some(into_teardown(entry.state))
                } else {
                    self.streams.insert(i, entry);
                    proof {
                        assert(self.streams@ =~= before.update(i as int, self.streams@[i as int]));
                        lemma_update(before, i as int, self.streams@[i as int]);
                        lemma_update_wf(before, i as int, self.streams@[i as int]);
                    }
                    None
                }
            },
        }
    }

    /// Removes session `stream_id` from the registry and hands over every
    /// one of its branches for detach. `None` when no such session is
    /// registered: there is nothing left to do.
    pub fn disconnect(&mut self, stream_id: &str) -> (r: Option<TeardownPlan>)
        requires
            old(self).wf(),
        ensures
            final(self).wf(),
            final(self).recording_directory() == old(self).recording_directory(),
            disconnect_result(old(self).sessions(), final(self).sessions(), stream_id@, r),
            ready_kept(old(self).sessions(), final(self).sessions()),
            !final(self).sessions().contains_key(stream_id@),
    {
        match self.find(stream_id) {
            None => None,
            Some(i) => {
                let ghost before = self.streams@;
                let entry = self.streams.remove(i);
                proof {
                    lemma_remove(before, i as int);
                    lemma_remove_wf(before, i as int);
                    lemma_slot(before, i as int);
                }
                Some(into_teardown(entry.state))
            },
        }
    }

    /// The status of session `stream_id`, `None` when it is not registered.
    pub fn get_status(&self, stream_id: &str) -> (r: Option<StreamStatus>)
        requires
            self.wf(),
        ensures
            r is None <==> !self.sessions().contains_key(stream_id@),
            r matches Some(st) ==> reports(st, self.sessions()[stream_id@]),
    {
        match self.find(stream_id) {
            None => None,
            Some(i) => Some(StreamStatus::from_state(&self.streams[i].state)),
        }
    }

    /// The status of every registered session, each under its stream id.
    pub fn get_all_statuses(&self) -> (r: Vec<(StreamId, StreamStatus)>)
        requires
            self.wf(),
        ensures
            forall|k: int| 0 <= k < r@.len() ==> self.sessions().contains_key((#[trigger] r@[k]).0@)
                && reports(r@[k].1, self.sessions()[r@[k].0@]),
            forall|id: Seq<char>| #[trigger] self.sessions().contains_key(id) ==> exists|k: int| 0 <= k < r@.len() && (#[trigger] r@[k]).0@ == id,
            forall|a: int, b: int| 0 <= a < r@.len() && 0 <= b < r@.len() && a != b ==> (#[trigger] r@[a]).0@ != (#[trigger] r@[b]).0@,
    {
        let mut out: Vec<(StreamId, StreamStatus)> = Vec::new();
        let mut i: usize = 0;
        while i < self.streams.len()
            invariant
                self.wf(),
                0 <= i <= self.streams@.len(),
                out@.len() == i,
                forall|k: int| 0 <= k < i ==> (#[trigger] out@[k]).0@ == self.streams@[k].stream_id@
                    && reports(out@[k].1, self.streams@[k].state@),
            decreases self.streams@.len() - i,
        {
            let e = &self.streams[i];
            out.push((e.stream_id.clone(), StreamStatus::from_state(&e.state)));
            i = i + 1;
        }
        proof {
            assert forall|k: int| 0 <= k < out@.len() implies self.sessions().contains_key((#[trigger] out@[k]).0@)
                && reports(out@[k].1, self.sessions()[out@[k].0@]) by {
                lemma_slot(self.streams@, k);
            }
            assert forall|id: Seq<char>| #[trigger] self.sessions().contains_key(id)
                implies exists|k: int| 0 <= k < out@.len() && (#[trigger] out@[k]).0@ == id by {
                let k = slot(self.streams@, id);
                assert(out@[k].0@ == id);
            }
            assert forall|a: int, b: int| 0 <= a < out@.len() && 0 <= b < out@.len() && a != b
                implies (#[trigger] out@[a]).0@ != (#[trigger] out@[b]).0@ by {
                assert(self.streams@[a].stream_id@ != self.streams@[b].stream_id@);
            }
        }
        out
    }

    /// Whether session `stream_id` is registered and live.
    pub fn is_connected(&self, stream_id: &str) -> (r: bool)
        requires
            self.wf(),
        ensures
            r == (self.sessions().contains_key(stream_id@)
                && self.sessions()[stream_id@].lifecycle == LifecycleState::Live),
    {
        match self.find(stream_id) {
            None => false,
            Some(i) => self.streams[i].state.is_connected(),
        }
    }

    /// Whether session `stream_id` is registered and records.
    pub fn is_recording(&self, stream_id: &str) -> (r: bool)
        requires
            self.wf(),
        ensures
            r == (self.sessions().contains_key(stream_id@) && self.sessions()[stream_id@].is_recording()),
    {
        match self.find(stream_id) {
            None => false,
            Some(i) => self.streams[i].state.is_recording(),
        }
    }

    /// Whether session `stream_id` is registered and has become ready.
    pub fn is_ready(&self, stream_id: &str) -> (r: bool)
        requires
            self.wf(),
        ensures
            r == (self.sessions().contains_key(stream_id@) && self.sessions()[stream_id@].ready),
    {
        match self.find(stream_id) {
            None => false,
            Some(i) => self.streams[i].state.ready,
        }
    }

    /// The detailed status of session `stream_id`, whose graph is in
    /// `graph`; `None` when it is not registered.
    pub fn get_detailed_status(&self, stream_id: &str, graph: GraphStates) -> (r: Option<DebugStatus>)
        requires
            self.wf(),
        ensures
            r is None <==> !self.sessions().contains_key(stream_id@),
            r matches Some(d) ==> {
                let s = self.sessions()[stream_id@];
                &&& d.is_connected == (s.lifecycle == LifecycleState::Live)
                &&& d.is_recording == s.is_recording()
                &&& opt_view(d.protocol) == Some(s.protocol)
                &&& opt_view(d.url) == Some(s.url)
                &&& d.tee_ready == s.ready
                &&& d.pipeline_state == graph.pipeline_state
                &&& d.pipeline_pending_state == graph.pipeline_pending_state
                &&& d.tee_state == graph.tee_state
                &&& d.tee_pending_state == graph.tee_pending_state
                &&& d.active_recording_pads == s.recordings.len()
            },
    {
        match self.find(stream_id) {
            None => None,
            Some(i) => Some(DebugStatus::from_state(&self.streams[i].state, graph)),
        }
    }
}

/// Registers recording `recording_id` (the text of a UUID) on session
/// `stream_id`, writing to `<recording directory>/<recording_id>.mp4`.
pub fn start_recording_impl(m: &mut StreamManager, stream_id: &str, recording_id: &str) -> (r: Result<AttachPlan, RecordError>)
    requires
        old(m).wf(),
    ensures
        final(m).wf(),
        final(m).recording_directory() == old(m).recording_directory(),
        attach_result(old(m).sessions(), final(m).sessions(), old(m).recording_directory(), stream_id@, recording_id@, r),
        ready_kept(old(m).sessions(), final(m).sessions()),
{
    match m.find(stream_id) {
        None => Err(RecordError::NotConnected),
        Some(i) => {
            let location = recording_location(m.recording_directory.as_str(), recording_id);
            let ghost before = m.streams@;
            let mut entry = m.streams.remove(i);
            let r = entry.state.start_recording(recording_id, location.as_str());
            m.streams.insert(i, entry);
            proof {
                assert(m.streams@ =~= before.update(i as int, m.streams@[i as int]));
                lemma_update(before, i as int, m.streams@[i as int]);
                lemma_update_wf(before, i as int, m.streams@[i as int]);
                if r is Err {
                    assert(m.sessions() =~= old(m).sessions());
                }
            }
            r
        },
    }
}

} // verus!
