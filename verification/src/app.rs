//! Shared runtime state.
//!
//! [`AppState`] holds the flags and counters that the controller, the MIDI
//! input and the pipeline workers share across threads. Every field is an
//! atomic, so its value at any moment depends on every thread that writes
//! it; the library states what each writer stores, never what a later load
//! returns.

use std::sync::atomic::{AtomicBool, AtomicU32, AtomicU8};
use crate::midi::MIDI_TRANSPORT_NONE;
use vstd::prelude::*;

verus! {

/// Shared application state flags for cross-thread synchronisation.
pub struct AppState {
    /// Whether the analyser is processing samples. Toggled by the controller.
    pub is_active: AtomicBool,
    /// Signals every worker thread to exit.
    pub keep_running: AtomicBool,
    /// Whether the recorder should be writing to disk.
    pub is_recording: AtomicBool,
    /// Last MIDI transport event seen since the mapper last cleared it.
    pub midi_last_transport: AtomicU8,
    /// Most recent MIDI transport event, never cleared.
    pub midi_transport_latest: AtomicU8,
    /// Start, Stop and Continue events received, wrapping at 2^32.
    pub midi_transport_count: AtomicU32,
    /// MIDI 1/16 note steps since the most recent Start, wrapping at 2^32.
    pub midi_steps: AtomicU32,
}

impl AppState {
    /// The state a run starts with: active, running, not recording, and no
    /// MIDI event seen.
    pub fn new() -> (state: AppState) {
        AppState {
            is_active: AtomicBool::new(true),
            keep_running: AtomicBool::new(true),
            is_recording: AtomicBool::new(false),
            midi_last_transport: AtomicU8::new(MIDI_TRANSPORT_NONE),
            midi_transport_latest: AtomicU8::new(MIDI_TRANSPORT_NONE),
            midi_transport_count: AtomicU32::new(0),
            midi_steps: AtomicU32::new(0),
        }
    }
}

} // verus!
