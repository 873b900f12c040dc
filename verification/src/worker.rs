//! Worker shutdown metadata and the decision of the bounded join.
//!
//! Each worker has a display name, a success message and a grace period.
//! Joining a worker polls it until it finishes or its grace period runs
//! out; [`join_step`] is the decision taken at each poll, and the caller
//! performs the waiting and the join itself.

use vstd::prelude::*;

verus! {

/// Poll interval while waiting for a worker thread to finish.
pub const SHUTDOWN_POLL_MS: u64 = 10;

/// Grace period for the generator thread.
pub const GENERATOR_SHUTDOWN_TIMEOUT_MS: u64 = 250;

/// Grace period for the analyser thread.
pub const ANALYSER_SHUTDOWN_TIMEOUT_MS: u64 = 1_000;

/// Grace period for the mapper thread.
pub const MAPPER_SHUTDOWN_TIMEOUT_MS: u64 = 1_000;

/// Grace period for the MIDI input thread.
pub const MIDI_INPUT_SHUTDOWN_TIMEOUT_MS: u64 = 250;

/// Grace period for the WebSocket server thread.
pub const SERVER_SHUTDOWN_TIMEOUT_MS: u64 = 1_500;

/// Grace period for the OSC sender thread.
pub const OSC_SENDER_SHUTDOWN_TIMEOUT_MS: u64 = 1_500;

/// Grace period for the frame writer thread.
pub const FRAME_WRITER_SHUTDOWN_TIMEOUT_MS: u64 = 1_000;

/// How the bounded join of a worker ended.
#[derive(Debug, Clone, Copy, PartialEq, Eq, Structural)]
pub enum JoinOutcome {
    /// The thread finished and joined cleanly.
    Joined,
    /// The grace period elapsed first; the thread is detached.
    TimedOut,
    /// The thread finished but its closure panicked.
    Panicked,
}

/// A worker's display name, success log line and shutdown grace period.
#[derive(Debug, Clone, Copy)]
pub struct WorkerSpec {
    pub name: &'static str,
    pub success_message: &'static str,
    pub timeout_ms: u64,
}

impl WorkerSpec {
    /// The grace period, in milliseconds.
    pub fn timeout(self) -> (ms: u64)
        ensures
            ms == self.timeout_ms,
    {
        self.timeout_ms
    }
}

/// The workers, in the order in which they are usually registered.
#[derive(Debug, Clone, Copy, PartialEq, Eq, Structural)]
pub enum WorkerKind {
    Generator,
    Analyser,
    Mapper,
    MidiInput,
    WebSocket,
    Osc,
    FrameWriter,
}

/// A worker's display name.
pub open spec fn spec_worker_name(kind: WorkerKind) -> Seq<char> {
    match kind {
        WorkerKind::Generator => "generator"@,
        WorkerKind::Analyser => "analyser"@,
        WorkerKind::Mapper => "mapper"@,
        WorkerKind::MidiInput => "midi-input"@,
        WorkerKind::WebSocket => "websocket-server"@,
        WorkerKind::Osc => "osc-sender"@,
        WorkerKind::FrameWriter => "frame-writer"@,
    }
}

/// A worker's success log line.
pub open spec fn spec_worker_message(kind: WorkerKind) -> Seq<char> {
    match kind {
        WorkerKind::Generator => "- Generator shutdown complete"@,
        WorkerKind::Analyser => "- Analyser shutdown complete"@,
        WorkerKind::Mapper => "- Mapper shutdown complete"@,
        WorkerKind::MidiInput => "- MIDI input shutdown complete"@,
        WorkerKind::WebSocket => "- WebSocket server shutdown complete"@,
        WorkerKind::Osc => "- OSC sender shutdown complete"@,
        WorkerKind::FrameWriter => "- Frame writer shutdown complete"@,
    }
}

/// A worker's grace period in milliseconds.
pub open spec fn spec_worker_timeout(kind: WorkerKind) -> u64 {
    match kind {
        WorkerKind::Generator => GENERATOR_SHUTDOWN_TIMEOUT_MS,
        WorkerKind::Analyser => ANALYSER_SHUTDOWN_TIMEOUT_MS,
        WorkerKind::Mapper => MAPPER_SHUTDOWN_TIMEOUT_MS,
        WorkerKind::MidiInput => MIDI_INPUT_SHUTDOWN_TIMEOUT_MS,
        WorkerKind::WebSocket => SERVER_SHUTDOWN_TIMEOUT_MS,
        WorkerKind::Osc => OSC_SENDER_SHUTDOWN_TIMEOUT_MS,
        WorkerKind::FrameWriter => FRAME_WRITER_SHUTDOWN_TIMEOUT_MS,
    }
}

impl WorkerKind {
    /// This worker's shutdown metadata.
    pub fn spec(self) -> (spec: WorkerSpec)
        ensures
            spec.name@ == spec_worker_name(self),
            spec.success_message@ == spec_worker_message(self),
            spec.timeout_ms == spec_worker_timeout(self),
    {
        match self {
            WorkerKind::Generator => WorkerSpec {
                name: "generator",
                success_message: "- Generator shutdown complete",
                timeout_ms: GENERATOR_SHUTDOWN_TIMEOUT_MS,
            },
            WorkerKind::Analyser => WorkerSpec {
                name: "analyser",
                success_message: "- Analyser shutdown complete",
                timeout_ms: ANALYSER_SHUTDOWN_TIMEOUT_MS,
            },
            WorkerKind::Mapper => WorkerSpec {
                name: "mapper",
                success_message: "- Mapper shutdown complete",
                timeout_ms: MAPPER_SHUTDOWN_TIMEOUT_MS,
            },
            WorkerKind::MidiInput => WorkerSpec {
                name: "midi-input",
                success_message: "- MIDI input shutdown complete",
                timeout_ms: MIDI_INPUT_SHUTDOWN_TIMEOUT_MS,
            },
            WorkerKind::WebSocket => WorkerSpec {
                name: "websocket-server",
                success_message: "- WebSocket server shutdown complete",
                timeout_ms: SERVER_SHUTDOWN_TIMEOUT_MS,
            },
            WorkerKind::Osc => WorkerSpec {
                name: "osc-sender",
                success_message: "- OSC sender shutdown complete",
                timeout_ms: OSC_SENDER_SHUTDOWN_TIMEOUT_MS,
            },
            WorkerKind::FrameWriter => WorkerSpec {
                name: "frame-writer",
                success_message: "- Frame writer shutdown complete",
                timeout_ms: FRAME_WRITER_SHUTDOWN_TIMEOUT_MS,
            },
        }
    }
}

/// What one poll of a bounded join finds.
#[derive(Debug, Clone, Copy, PartialEq, Eq, Structural)]
pub enum JoinPoll {
    /// The thread has finished; `panicked` tells whether its closure
    /// panicked.
    Finished { panicked: bool },
    /// The thread is still running at `elapsed_ms` since the join began.
    Running { elapsed_ms: u64 },
}

/// What the join does after a poll.
#[derive(Debug, Clone, Copy, PartialEq, Eq, Structural)]
pub enum JoinStep {
    /// The join is over with this outcome.
    Done(JoinOutcome),
    /// Wake the thread and sleep this many milliseconds before polling again.
    Wait { sleep_ms: u64 },
}

/// The decision after one poll: a finished thread is joined (or reported
/// as panicked); a running one past its grace period is detached; otherwise
/// the join sleeps for the poll interval or the rest of the grace period,
/// whichever is shorter.
pub open spec fn spec_join_step(timeout_ms: u64, poll: JoinPoll) -> JoinStep {
    match poll {
        JoinPoll::Finished { panicked } => if panicked {
            JoinStep::Done(JoinOutcome::Panicked)
        } else {
            JoinStep::Done(JoinOutcome::Joined)
        },
        JoinPoll::Running { elapsed_ms } => if elapsed_ms >= timeout_ms {
            JoinStep::Done(JoinOutcome::TimedOut)
        } else {
            let remaining = (timeout_ms - elapsed_ms) as u64;
            JoinStep::Wait { sleep_ms: if remaining < SHUTDOWN_POLL_MS { remaining } else { SHUTDOWN_POLL_MS } }
        },
    }
}

/// Decides the next step of a bounded join of a worker with grace period
/// `timeout_ms`.
pub fn join_step(timeout_ms: u64, poll: JoinPoll) -> (step: JoinStep)
    ensures
        step == spec_join_step(timeout_ms, poll),
{
    match poll {
        JoinPoll::Finished { panicked } => if panicked {
            JoinStep::Done(JoinOutcome::Panicked)
        } else {
            JoinStep::Done(JoinOutcome::Joined)
        },
        JoinPoll::Running { elapsed_ms } => if elapsed_ms >= timeout_ms {
            JoinStep::Done(JoinOutcome::TimedOut)
        } else {
            let remaining = timeout_ms - elapsed_ms;
            JoinStep::Wait { sleep_ms: if remaining < SHUTDOWN_POLL_MS { remaining } else { SHUTDOWN_POLL_MS } }
        },
    }
}

/// A join never sleeps past its worker's grace period and always sleeps a
/// positive time, so the polls reach the deadline; and a thread that
/// finishes cleanly is always reported as joined, however late.
pub proof fn law_join_is_bounded(timeout_ms: u64, elapsed_ms: u64)
    ensures
        spec_join_step(timeout_ms, JoinPoll::Running { elapsed_ms }) matches JoinStep::Wait { sleep_ms }
            ==> 0 < sleep_ms <= SHUTDOWN_POLL_MS && elapsed_ms + sleep_ms <= timeout_ms,
        elapsed_ms >= timeout_ms ==> spec_join_step(timeout_ms, JoinPoll::Running { elapsed_ms })
            == JoinStep::Done(JoinOutcome::TimedOut),
        spec_join_step(timeout_ms, JoinPoll::Finished { panicked: false }) == JoinStep::Done(JoinOutcome::Joined),
{
}

} // verus!
