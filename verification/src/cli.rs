//! Command-line options, as plain values.
//!
//! Option values that are `f32` on the command line are held as the bit
//! pattern of the `f32`; network addresses are held as [`SocketAddress`].

use crate::net::SocketAddress;
use vstd::prelude::*;

verus! {

/// Output format for `--list`.
#[derive(Clone, Copy, Debug, Default, PartialEq, Eq, Structural)]
pub enum ListFormat {
    /// Human-readable, one line per device. The default.
    #[default]
    Text,
    /// A single JSON array on stdout, one object per device.
    Json,
}

/// Format of the machine-readable event stream on stdout.
#[derive(Clone, Copy, Debug, PartialEq, Eq, Structural)]
pub enum EventFormat {
    /// Newline-delimited JSON.
    Json,
}

/// Runtime controller selection.
#[derive(Clone, Copy, Debug, Default, PartialEq, Eq, Structural)]
pub enum ControllerMode {
    /// Interactive terminal control. The default.
    #[default]
    Term,
    /// Block until stdin closes, with no keyboard handling.
    Headless,
}

/// Synthetic signal generation for device calibration.
#[derive(Clone, Debug, Default)]
pub struct CalibrationArgs {
    /// Fixed tone frequency in Hz, as `f32` bits.
    pub test_hz: Option<u32>,
    /// Sweep LFO rate in Hz, as `f32` bits.
    pub test_sweep: Option<u32>,
}

/// MIDI input options.
#[derive(Clone, Debug, Default)]
pub struct MidiArgs {
    /// MIDI input device name or partial name.
    pub midi_device: Option<String>,
    /// Synthetic clock tempo in beats per minute, as `f32` bits.
    pub midi_test_bpm: Option<u32>,
}

/// Device selection and listing.
#[derive(Clone, Debug, Default)]
pub struct InputArgs {
    /// Input device name or partial name.
    pub device: Option<String>,
    /// List the available audio input devices and exit.
    pub list: bool,
    /// Output format for `--list`.
    pub list_format: ListFormat,
    /// Hardware channel indices to forward to the analyser.
    pub analyse_channels: Option<Vec<u16>>,
}

/// Output transport options.
#[derive(Clone, Debug, Default)]
pub struct NetworkArgs {
    /// WebSocket listen address.
    pub ws_addr: Option<SocketAddress>,
    /// Maximum number of concurrent WebSocket clients.
    pub max_clients: Option<usize>,
    /// WebSocket broadcast rate in Hz, as `f32` bits.
    pub broadcast_rate: Option<u32>,
    /// Reject WebSocket handshakes that carry an `Origin` header.
    pub no_browser_origin: bool,
    /// OSC UDP target address.
    pub osc_addr: Option<SocketAddress>,
}

/// Vocoder filter bank tuning, each value as `f32` bits.
#[derive(Clone, Debug, Default)]
pub struct VocoderArgs {
    pub attack_ms: Option<u32>,
    pub release_ms: Option<u32>,
    pub freq_low: Option<u32>,
    pub freq_high: Option<u32>,
    pub filter_q: Option<u32>,
}

/// Runtime controller options.
#[derive(Clone, Copy, Debug, Default)]
pub struct RuntimeArgs {
    /// How the engine waits for a shutdown signal.
    pub controller_mode: ControllerMode,
}

/// Every command-line option.
#[derive(Clone, Debug, Default)]
pub struct Args {
    pub calibration: CalibrationArgs,
    pub midi: MidiArgs,
    pub input: InputArgs,
    pub network: NetworkArgs,
    pub vocoder: VocoderArgs,
    pub runtime: RuntimeArgs,
}

/// What a run of the program does.
#[derive(Clone, Copy, Debug, PartialEq, Eq, Structural)]
pub enum RunMode {
    /// List the audio input devices and exit.
    ListAudio,
    /// List the MIDI input devices and exit.
    ListMidi,
    /// Run under a supervising host, writing the event stream.
    Headless,
    /// Run with the keyboard controller.
    Interactive,
    /// Refuse to run: no terminal and no headless mode.
    NoTerminal,
}

/// The error text for an interactive run without a terminal.
pub const NO_TERMINAL_MESSAGE: &'static str = "Phase4 requires an interactive terminal. Run it directly from a terminal, or pass --headless.";

pub open spec fn spec_run_mode(list_audio: bool, list_midi: bool, headless: bool, stdin_is_terminal: bool) -> RunMode {
    if list_audio {
        RunMode::ListAudio
    } else if list_midi {
        RunMode::ListMidi
    } else if headless {
        RunMode::Headless
    } else if stdin_is_terminal {
        RunMode::Interactive
    } else {
        RunMode::NoTerminal
    }
}

/// Decides what a run does: a listing request wins, audio first; then the
/// headless mode; an interactive run needs a terminal on stdin.
pub fn run_mode(list_audio: bool, list_midi: bool, headless: bool, stdin_is_terminal: bool) -> (mode: RunMode)
    ensures
        mode == spec_run_mode(list_audio, list_midi, headless, stdin_is_terminal),
{
    if list_audio {
        RunMode::ListAudio
    } else if list_midi {
        RunMode::ListMidi
    } else if headless {
        RunMode::Headless
    } else if stdin_is_terminal {
        RunMode::Interactive
    } else {
        RunMode::NoTerminal
    }
}

} // verus!
