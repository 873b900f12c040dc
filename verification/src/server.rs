//! The WebSocket broadcast server's decisions.
//!
//! The server's tasks alternate waiting on sockets and channels with
//! decisions; each decision stands here as a function from what the task
//! observed to what it does next. The runtime performs the waiting, the
//! writes and the JSON encoding.

use crate::dsp::{levels_are_finite, spec_levels_are_finite, ChannelLevel};
use crate::text::concat;
use vstd::prelude::*;

verus! {

/// How long the accept loop waits for a connection before it rechecks the
/// shutdown flag.
pub const ACCEPT_TIMEOUT_MS: u64 = 100;

/// How long a client has to complete the WebSocket handshake.
pub const HANDSHAKE_TIMEOUT_MS: u64 = 1_000;

/// How long one write to a client may take before the client is dropped.
pub const CLIENT_WRITE_TIMEOUT_MS: u64 = 1_000;

/// How long shutdown waits for client tasks to close.
pub const CLIENT_SHUTDOWN_TIMEOUT_MS: u64 = 500;

/// Largest inbound frame or message a client may send.
pub const MAX_INBOUND_FRAME_BYTES: usize = 125;

/// Close reason sent to a client that sends an application message.
pub const INBOUND_APPLICATION_MESSAGE_CLOSE_REASON: &'static str = "Phase4 does not accept application messages";

/// Receivers of the serialised snapshot that the server keeps for itself.
pub const RETAINED_SERIALISED_RECEIVERS: usize = 1;

/// Capacity of the snapshot refresh queue.
pub const SNAPSHOT_REFRESH_QUEUE_CAPACITY: usize = 1;

/// The snapshot sent when the initial payload cannot be encoded: an empty
/// `channels` array.
pub const EMPTY_DISPLAY_PAYLOAD_JSON: &'static str = "{\"channels\":[]}";

/// Whether the serialised snapshot has receivers beyond the one the server
/// keeps for cloning, that is, whether any client is connected.
pub fn has_connected_clients(receiver_count: usize) -> (connected: bool)
    ensures
        connected == (receiver_count > RETAINED_SERIALISED_RECEIVERS),
{
    receiver_count > RETAINED_SERIALISED_RECEIVERS
}

/// What woke the serialiser task.
#[derive(Debug, Clone, Copy, PartialEq, Eq, Structural)]
pub enum SerialiserWake {
    /// The mapper published a new display payload.
    FrameChanged,
    /// The display channel closed.
    FrameChannelClosed,
    /// A new client asked for a current snapshot.
    RefreshRequested,
    /// The refresh queue closed.
    RefreshChannelClosed,
}

/// What the serialiser task does after waking.
#[derive(Debug, Clone, Copy, PartialEq, Eq, Structural)]
pub enum SerialiserAction {
    /// End the task.
    Stop,
    /// Mark the frame consumed without encoding it: nobody listens.
    Skip,
    /// Encode the current payload; `refresh` tells whether a refresh
    /// request is to be completed afterwards.
    Encode { refresh: bool },
}

pub open spec fn spec_serialiser_action(wake: SerialiserWake, receiver_count: usize) -> SerialiserAction {
    match wake {
        SerialiserWake::FrameChannelClosed | SerialiserWake::RefreshChannelClosed => SerialiserAction::Stop,
        SerialiserWake::RefreshRequested => SerialiserAction::Encode { refresh: true },
        SerialiserWake::FrameChanged => if receiver_count > RETAINED_SERIALISED_RECEIVERS {
            SerialiserAction::Encode { refresh: false }
        } else {
            SerialiserAction::Skip
        },
    }
}

/// Decides what the serialiser does: it stops when either channel closes,
/// always encodes for a refresh request, and skips a new frame while no
/// client is connected.
pub fn serialiser_action(wake: SerialiserWake, receiver_count: usize) -> (action: SerialiserAction)
    ensures
        action == spec_serialiser_action(wake, receiver_count),
{
    match wake {
        SerialiserWake::FrameChannelClosed | SerialiserWake::RefreshChannelClosed => SerialiserAction::Stop,
        SerialiserWake::RefreshRequested => SerialiserAction::Encode { refresh: true },
        SerialiserWake::FrameChanged => if has_connected_clients(receiver_count) {
            SerialiserAction::Encode { refresh: false }
        } else {
            SerialiserAction::Skip
        },
    }
}

/// Whether a freshly encoded snapshot replaces the published one: a new
/// frame always does, a refresh only when the text differs.
pub fn snapshot_changed(refresh: bool, current: &str, encoded: &str) -> (changed: bool)
    ensures
        changed == (!refresh || current@ != encoded@),
{
    if !refresh {
        return true;
    }
    let current_owned = String::from_str(current);
    let encoded_owned = String::from_str(encoded);
    !(current_owned == encoded_owned)
}

/// The decision on a payload before it is encoded, and the failure streak
/// flag after it.
#[derive(Debug, Clone, Copy, PartialEq, Eq, Structural)]
pub struct PayloadGate {
    /// Whether the payload may be encoded: every value is finite.
    pub encode: bool,
    /// Whether to log the rejection now: the first of a streak.
    pub log_rejection: bool,
}

/// What the payload check decides, given whether every value is finite
/// and whether the current run of refusals was already logged; paired with
/// that logging flag afterwards.
pub open spec fn spec_gate(finite: bool, already_logged: bool) -> (PayloadGate, bool) {
    if finite {
        (PayloadGate { encode: true, log_rejection: false }, false)
    } else {
        (PayloadGate { encode: false, log_rejection: !already_logged }, true)
    }
}

/// Checks a display payload before encoding. A payload holding `NaN` or an
/// infinity is refused, and logged only at the start of a run of refused
/// payloads; `already_logged` tracks the run and is cleared by the next
/// accepted payload.
pub fn gate_display_payload(levels: &[ChannelLevel], already_logged: &mut bool) -> (gate: PayloadGate)
    ensures
        (gate, *final(already_logged)) == spec_gate(spec_levels_are_finite(levels@), *old(already_logged)),
{
    if !levels_are_finite(levels) {
        let first = !*already_logged;
        *already_logged = true;
        return PayloadGate { encode: false, log_rejection: first };
    }
    *already_logged = false;
    PayloadGate { encode: true, log_rejection: false }
}

/// A streak of refused payloads is logged once: a refused payload that
/// follows a refused one is not logged again, and one that follows an
/// accepted payload is.
pub proof fn law_rejections_logged_once_per_streak(first_finite: bool, second_finite: bool, already_logged: bool)
    ensures
        !first_finite && !second_finite ==> !spec_gate(second_finite, spec_gate(first_finite, already_logged).1).0.log_rejection,
        first_finite && !second_finite ==> spec_gate(second_finite, spec_gate(first_finite, already_logged).1).0.log_rejection,
{
}

/// What a client task observed.
#[derive(Debug, Clone, Copy, PartialEq, Eq, Structural)]
pub enum ClientEvent {
    /// The server is shutting down.
    Shutdown,
    /// The client sent a ping.
    Ping,
    /// The client sent a pong or a raw frame.
    Pong,
    /// The client sent a close frame.
    Close,
    /// The client sent a text or binary message.
    ApplicationMessage,
    /// Reading from the client failed.
    ReadFailed,
    /// The client's stream ended.
    StreamEnded,
    /// A new snapshot was published.
    SnapshotChanged,
    /// The snapshot channel closed.
    SnapshotClosed,
}

/// What a client task does next.
#[derive(Debug, Clone, Copy, PartialEq, Eq, Structural)]
pub enum ClientAction {
    /// Flush pending writes (the pong) and keep serving.
    FlushAndContinue,
    /// Nothing to do; keep serving.
    Continue,
    /// Flush pending writes, then end.
    FlushAndEnd,
    /// Send a close frame with the policy reason, then end.
    ClosePolicyAndEnd,
    /// End without writing.
    End,
    /// Send the current snapshot and keep serving.
    SendSnapshot,
    /// Send a normal close frame, then end.
    CloseAndEnd,
}

pub open spec fn spec_client_action(event: ClientEvent) -> ClientAction {
    match event {
        ClientEvent::Shutdown => ClientAction::CloseAndEnd,
        ClientEvent::Ping => ClientAction::FlushAndContinue,
        ClientEvent::Pong => ClientAction::Continue,
        ClientEvent::Close => ClientAction::FlushAndEnd,
        ClientEvent::ApplicationMessage => ClientAction::ClosePolicyAndEnd,
        ClientEvent::ReadFailed => ClientAction::End,
        ClientEvent::StreamEnded => ClientAction::End,
        ClientEvent::SnapshotChanged => ClientAction::SendSnapshot,
        ClientEvent::SnapshotClosed => ClientAction::CloseAndEnd,
    }
}

/// Decides a client task's next step. The server only sends: an
/// application message from the client is answered with a policy close.
pub fn client_action(event: ClientEvent) -> (action: ClientAction)
    ensures
        action == spec_client_action(event),
{
    match event {
        ClientEvent::Shutdown => ClientAction::CloseAndEnd,
        ClientEvent::Ping => ClientAction::FlushAndContinue,
        ClientEvent::Pong => ClientAction::Continue,
        ClientEvent::Close => ClientAction::FlushAndEnd,
        ClientEvent::ApplicationMessage => ClientAction::ClosePolicyAndEnd,
        ClientEvent::ReadFailed => ClientAction::End,
        ClientEvent::StreamEnded => ClientAction::End,
        ClientEvent::SnapshotChanged => ClientAction::SendSnapshot,
        ClientEvent::SnapshotClosed => ClientAction::CloseAndEnd,
    }
}

/// Whether a client keeps being served after an action whose write
/// succeeded or failed: a failed or timed-out write always ends it.
pub fn client_continues(action: ClientAction, write_ok: bool) -> (continues: bool)
    ensures
        continues == (write_ok && (action == ClientAction::FlushAndContinue || action == ClientAction::Continue
            || action == ClientAction::SendSnapshot)),
{
    write_ok && match action {
        ClientAction::FlushAndContinue | ClientAction::Continue | ClientAction::SendSnapshot => true,
        _ => false,
    }
}

/// Whether a client is still connected after `event`: it is a ping, a
/// pong or a new snapshot.
pub open spec fn spec_keeps_client(event: ClientEvent) -> bool {
    event == ClientEvent::Ping || event == ClientEvent::Pong || event == ClientEvent::SnapshotChanged
}

/// New snapshots published in `events`.
pub open spec fn spec_published_frames(events: Seq<ClientEvent>) -> nat
    decreases events.len(),
{
    if events.len() == 0 {
        0
    } else if events.last() == ClientEvent::SnapshotChanged {
        spec_published_frames(events.drop_last()) + 1
    } else {
        spec_published_frames(events.drop_last())
    }
}

/// Frames a client task sends over `events`, each answered as
/// [`client_action`] decides.
pub open spec fn spec_frames_sent(events: Seq<ClientEvent>) -> nat
    decreases events.len(),
{
    if events.len() == 0 {
        0
    } else if spec_client_action(events.last()) == ClientAction::SendSnapshot {
        spec_frames_sent(events.drop_last()) + 1
    } else {
        spec_frames_sent(events.drop_last())
    }
}

/// Every published frame reaches each connected client, and nothing else
/// does: a client sends a frame on an event exactly when that event is a
/// new snapshot, and a ping, a pong or a new snapshot keeps it served while
/// its writes succeed; so over any run of events a client is handed, it
/// sends exactly as many frames as were published.
pub proof fn law_every_published_frame_reaches_the_client(events: Seq<ClientEvent>)
    ensures
        forall|e: ClientEvent| (#[trigger] spec_client_action(e) == ClientAction::SendSnapshot) <==> e == ClientEvent::SnapshotChanged,
        forall|e: ClientEvent| spec_keeps_client(e) ==> (match #[trigger] spec_client_action(e) {
            ClientAction::FlushAndContinue | ClientAction::Continue | ClientAction::SendSnapshot => true,
            _ => false,
        }),
        spec_frames_sent(events) == spec_published_frames(events),
    decreases events.len(),
{
    if events.len() > 0 {
        law_every_published_frame_reaches_the_client(events.drop_last());
    }
}

/// What one turn of the accept loop found.
#[derive(Debug, Clone, Copy, PartialEq, Eq, Structural)]
pub enum AcceptOutcome {
    /// No connection arrived within the accept timeout.
    TimedOut,
    /// A connection arrived; `slot_free` tells whether a client slot was
    /// free for it.
    Accepted { slot_free: bool },
    /// Accepting failed.
    Failed,
}

/// What the accept loop does with a connection.
#[derive(Debug, Clone, Copy, PartialEq, Eq, Structural)]
pub enum AcceptAction {
    /// Stop accepting and shut the clients down.
    Shutdown,
    /// Loop again.
    Continue,
    /// Refuse the connection: every slot is taken.
    RejectAtCapacity,
    /// Refresh the snapshot, then serve the client.
    Serve,
    /// Log the accept error and loop again.
    LogError,
}

pub open spec fn spec_accept_action(keep_running: bool, outcome: AcceptOutcome) -> AcceptAction {
    if !keep_running {
        AcceptAction::Shutdown
    } else {
        match outcome {
            AcceptOutcome::TimedOut => AcceptAction::Continue,
            AcceptOutcome::Accepted { slot_free } => if slot_free {
                AcceptAction::Serve
            } else {
                AcceptAction::RejectAtCapacity
            },
            AcceptOutcome::Failed => AcceptAction::LogError,
        }
    }
}

/// Decides a turn of the accept loop: the shutdown flag is checked first,
/// and a connection is served only when a client slot is free.
pub fn accept_action(keep_running: bool, outcome: AcceptOutcome) -> (action: AcceptAction)
    ensures
        action == spec_accept_action(keep_running, outcome),
{
    if !keep_running {
        return AcceptAction::Shutdown;
    }
    match outcome {
        AcceptOutcome::TimedOut => AcceptAction::Continue,
        AcceptOutcome::Accepted { slot_free } => if slot_free {
            AcceptAction::Serve
        } else {
            AcceptAction::RejectAtCapacity
        },
        AcceptOutcome::Failed => AcceptAction::LogError,
    }
}

/// The handshake's origin policy: with browser origins refused, a request
/// that carries an `Origin` header is rejected; otherwise every request is
/// accepted. Returns the rejection's body when it is rejected.
pub fn origin_rejection(reject_browser_origin: bool, origin: Option<&str>) -> (rejection: Option<String>)
    ensures
        match rejection {
            Some(body) => reject_browser_origin && origin is Some
                && body@ == "Browser-origin WebSocket clients are not supported, got "@ + origin.unwrap()@,
            None => !reject_browser_origin || origin is None,
        },
{
    if !reject_browser_origin {
        return None;
    }
    match origin {
        Some(o) => Some(concat("Browser-origin WebSocket clients are not supported, got ", o)),
        None => None,
    }
}

} // verus!
