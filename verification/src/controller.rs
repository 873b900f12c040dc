//! The keyboard controller's key handling.
//!
//! The terminal loop reads key events; each pressed key is decided here:
//! `t` toggles the engine between active and paused, and Ctrl+C asks every
//! worker to stop.

use crate::app::AppState;
use std::sync::atomic::Ordering;
use std::sync::Arc;
use vstd::prelude::*;

verus! {

/// Keyboard input polling interval.
pub const POLL_RATE_MS: u64 = 100;

/// A key event as the controller reads it.
#[derive(Debug, Clone, Copy, PartialEq, Eq, Structural)]
pub struct KeyInput {
    /// The character of a character key, `None` for any other key.
    pub character: Option<char>,
    /// Whether the Control modifier is held.
    pub control: bool,
    /// Whether this is a press, not a repeat or a release.
    pub press: bool,
}

/// What a key asks for.
#[derive(Debug, Clone, Copy, PartialEq, Eq, Structural)]
pub enum KeyCommand {
    /// Nothing.
    Ignore,
    /// Toggle the engine between active and paused.
    ToggleEngine,
    /// Stop every worker.
    Exit,
}

pub open spec fn spec_key_command(key: KeyInput) -> KeyCommand {
    if !key.press {
        KeyCommand::Ignore
    } else {
        match key.character {
            Some(c) => if c == 't' || c == 'T' {
                KeyCommand::ToggleEngine
            } else if (c == 'c' || c == 'C') && key.control {
                KeyCommand::Exit
            } else {
                KeyCommand::Ignore
            },
            None => KeyCommand::Ignore,
        }
    }
}

/// Decides what a key asks for: only presses count; `t` or `T` toggles
/// the engine, and `c` or `C` with Control exits.
pub fn key_command(key: KeyInput) -> (command: KeyCommand)
    ensures
        command == spec_key_command(key),
{
    if !key.press {
        return KeyCommand::Ignore;
    }
    match key.character {
        Some(c) => if c == 't' || c == 'T' {
            KeyCommand::ToggleEngine
        } else if (c == 'c' || c == 'C') && key.control {
            KeyCommand::Exit
        } else {
            KeyCommand::Ignore
        },
        None => KeyCommand::Ignore,
    }
}

/// The status line logged after a toggle, from whether the engine was
/// active before it.
pub fn toggle_status(was_active: bool) -> (status: &'static str)
    ensures
        status@ == (if was_active { "PAUSED"@ } else { "ACTIVE"@ }),
{
    if was_active {
        "PAUSED"
    } else {
        "ACTIVE"
    }
}

/// The keyboard controller, bound to the shared application state.
pub struct Controller {
    state: Arc<AppState>,
}

impl Controller {
    /// A controller bound to `state`.
    pub fn new(state: Arc<AppState>) -> (controller: Controller)
        ensures
            controller.spec_state() == state,
    {
        Controller { state }
    }

    pub closed spec fn spec_state(&self) -> Arc<AppState> {
        self.state
    }

    /// The shared state this controller drives.
    pub fn state(&self) -> (state: &Arc<AppState>)
        ensures
            *state == self.spec_state(),
    {
        &self.state
    }

    /// Carries out a key: a toggle flips `is_active` and returns the status
    /// to log, an exit clears `keep_running`, anything else does nothing.
    pub fn handle_key_event(&self, key: KeyInput) -> (outcome: (KeyCommand, Option<&'static str>))
        ensures
            outcome.0 == spec_key_command(key),
            outcome.1 is Some <==> outcome.0 == KeyCommand::ToggleEngine,
    {
        let command = key_command(key);
        match command {
            KeyCommand::ToggleEngine => {
                let was_active = self.state.is_active.load(Ordering::Acquire);
                self.state.is_active.store(!was_active, Ordering::Release);
                (command, Some(toggle_status(was_active)))
            },
            KeyCommand::Exit => {
                self.state.keep_running.store(false, Ordering::Release);
                (command, None)
            },
            KeyCommand::Ignore => (command, None),
        }
    }
}

} // verus!
