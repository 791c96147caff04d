use vstd::prelude::*;
use crate::error::RecordError;
use crate::session::not_ready_message;

verus! {

/// Readiness is polled this many times, one second apart, before an attach
/// gives up.
pub const READY_POLLS: u32 = 10;

/// Milliseconds between two readiness polls.
pub const READY_POLL_INTERVAL_MS: u64 = 1000;

/// Milliseconds the ingest graph has to reach its running state.
pub const STARTUP_DEADLINE_MS: u64 = 30000;

/// Milliseconds between two polls of the graph's state during startup.
pub const STARTUP_POLL_INTERVAL_MS: u64 = 100;

/// Polls of the bus, 100 ms each, for end of stream during teardown.
pub const TEARDOWN_POLLS: u32 = 10;

/// Milliseconds a detach waits on the bus for the branch to drain.
pub const DETACH_WAIT_MS: u64 = 2000;

/// What to do next while waiting for a session to become ready.
#[derive(PartialEq, Eq, Structural, Clone, Copy, Debug)]
pub enum ReadyWait {
    Proceed,
    Sleep,
}

pub enum ReadyOutcome {
    Proceed,
    Sleep,
    GiveUp,
}

pub open spec fn ready_outcome(ready: bool, polls_done: u32) -> ReadyOutcome {
    if ready {
        ReadyOutcome::Proceed
    } else if polls_done < READY_POLLS {
        ReadyOutcome::Sleep
    } else {
        ReadyOutcome::GiveUp
    }
}

/// Decides the next step of the readiness wait, after `polls_done` sleeps:
/// go on once ready, sleep while polls are left, then give up.
pub fn readiness_poll(ready: bool, polls_done: u32) -> (r: Result<ReadyWait, RecordError>)
    ensures
        match ready_outcome(ready, polls_done) {
            ReadyOutcome::Proceed => r == Ok::<ReadyWait, RecordError>(ReadyWait::Proceed),
            ReadyOutcome::Sleep => r == Ok::<ReadyWait, RecordError>(ReadyWait::Sleep),
            ReadyOutcome::GiveUp => r matches Err(RecordError::StreamError(m)) && m@ == not_ready_message(),
        },
{
    if ready {
        Ok(ReadyWait::Proceed)
    } else if polls_done < READY_POLLS {
        Ok(ReadyWait::Sleep)
    } else {
        Err(RecordError::StreamError(String::from_str("Stream is not ready for recording")))
    }
}

/// What to do next while the ingest graph starts.
#[derive(PartialEq, Eq, Structural, Clone, Copy, Debug)]
pub enum StartupStep {
    /// The graph runs: the session is live.
    Running,
    /// Poll again after the poll interval.
    Poll,
    /// The deadline passed: the session is dead.
    TimedOut,
}

pub open spec fn startup_outcome(playing: bool, elapsed_ms: u64) -> StartupStep {
    if elapsed_ms >= STARTUP_DEADLINE_MS {
        StartupStep::TimedOut
    } else if playing {
        StartupStep::Running
    } else {
        StartupStep::Poll
    }
}

/// Decides the next step of the startup wait, `elapsed_ms` after the graph
/// was started; the deadline is checked before the state.
pub fn startup_poll(playing: bool, elapsed_ms: u64) -> (r: StartupStep)
    ensures
        r == startup_outcome(playing, elapsed_ms),
{
    if elapsed_ms >= STARTUP_DEADLINE_MS {
        StartupStep::TimedOut
    } else if playing {
        StartupStep::Running
    } else {
        StartupStep::Poll
    }
}

/// What one poll of a graph's bus returned.
#[derive(PartialEq, Eq, Structural, Clone, Copy, Debug)]
pub enum BusMessage {
    EndOfStream,
    Error,
    Other,
    Nothing,
}

/// What to do next while waiting for end of stream during teardown.
#[derive(PartialEq, Eq, Structural, Clone, Copy, Debug)]
pub enum TeardownWait {
    /// Stop waiting; `true` when end of stream arrived.
    Done(bool),
    Continue,
}

pub open spec fn teardown_outcome(polls_done: u32, msg: BusMessage) -> TeardownWait {
    match msg {
        BusMessage::EndOfStream => TeardownWait::Done(true),
        BusMessage::Error => TeardownWait::Done(false),
        _ => if polls_done + 1 >= TEARDOWN_POLLS {
            TeardownWait::Done(false)
        } else {
            TeardownWait::Continue
        },
    }
}

/// Decides the next step of the teardown wait after poll number
/// `polls_done` returned `msg`: end of stream or an error ends it, and so
/// does the last poll.
pub fn teardown_poll(polls_done: u32, msg: BusMessage) -> (r: TeardownWait)
    requires
        polls_done < TEARDOWN_POLLS,
    ensures
        r == teardown_outcome(polls_done, msg),
{
    match msg {
        BusMessage::EndOfStream => TeardownWait::Done(true),
        BusMessage::Error => TeardownWait::Done(false),
        _ => if polls_done + 1 >= TEARDOWN_POLLS {
            TeardownWait::Done(false)
        } else {
            TeardownWait::Continue
        },
    }
}

} // verus!
