//! The headless supervision contract: why a headless run stops, and the
//! stable codes that its `error` events carry.

use crate::audio::DeviceError;
use crate::config::AppConfigError;
use crate::midi::MidiDeviceError;
use vstd::prelude::*;

verus! {

/// Schema version carried by every event line.
pub const EVENT_SCHEMA_VERSION: u32 = 1;

/// The event code reported when the process panics.
pub const PANIC_EVENT_CODE: &'static str = "Panic";

/// The code reported for an error with no typed source.
pub const UNKNOWN_EVENT_CODE: &'static str = "Unknown";

/// Name of the thread that watches stdin for end of file.
pub const STDIN_WATCHER_THREAD_NAME: &'static str = "headless-stdin";

/// The audio input the engine actually resolved.
#[derive(Debug, Clone, PartialEq, Eq)]
pub struct ReadyAudio {
    /// Resolved hardware device name; `None` in calibration mode.
    pub device: Option<String>,
    /// Hardware sample rate in Hz.
    pub sample_rate: u32,
    /// Analysed channel indices in output order.
    pub channels: Vec<u16>,
}

/// Why the engine stopped.
#[derive(Debug, Clone, Copy, PartialEq, Eq, Structural)]
pub enum ShutdownReason {
    /// SIGINT or SIGTERM was received.
    Signal,
    /// stdin reached end of file.
    StdinClosed,
}

/// What ended a headless run, decided once per poll.
#[derive(Debug, Clone, Copy, PartialEq, Eq, Structural)]
pub enum HeadlessStop {
    /// A shutdown was requested and the run drains cleanly.
    Requested(ShutdownReason),
    /// The engine cleared `keep_running` itself, so the run failed.
    Engine,
}

/// The stop decision: a signal first, then a closed stdin, then an engine
/// that stopped itself; no stop while none of these holds.
pub open spec fn spec_headless_stop(signal_received: bool, stdin_closed: bool, keep_running: bool) -> Option<HeadlessStop> {
    if signal_received {
        Some(HeadlessStop::Requested(ShutdownReason::Signal))
    } else if stdin_closed {
        Some(HeadlessStop::Requested(ShutdownReason::StdinClosed))
    } else if keep_running {
        None
    } else {
        Some(HeadlessStop::Engine)
    }
}

/// Decides whether a headless run stops. A signal takes precedence over a
/// closed stdin, and both take precedence over a stop raised by the engine.
pub fn headless_stop(signal_received: bool, stdin_closed: bool, keep_running: bool) -> (stop: Option<HeadlessStop>)
    ensures
        stop == spec_headless_stop(signal_received, stdin_closed, keep_running),
{
    if signal_received {
        Some(HeadlessStop::Requested(ShutdownReason::Signal))
    } else if stdin_closed {
        Some(HeadlessStop::Requested(ShutdownReason::StdinClosed))
    } else if keep_running {
        None
    } else {
        Some(HeadlessStop::Engine)
    }
}

/// A run keeps going exactly while no signal arrived, stdin is open and
/// the engine keeps running; a requested stop never counts as an engine
/// failure, and a signal always wins.
pub proof fn law_headless_stop_precedence(signal_received: bool, stdin_closed: bool, keep_running: bool)
    ensures
        spec_headless_stop(signal_received, stdin_closed, keep_running) is None
            <==> (!signal_received && !stdin_closed && keep_running),
        signal_received ==> spec_headless_stop(signal_received, stdin_closed, keep_running)
            == Some(HeadlessStop::Requested(ShutdownReason::Signal)),
        spec_headless_stop(signal_received, stdin_closed, keep_running) == Some(HeadlessStop::Engine)
            ==> !signal_received && !stdin_closed,
{
}

/// A stable identifier for an `error` event's `code` field: the name of
/// the error's variant.
pub trait EventCode {
    /// The stable code for this value.
    fn event_code(&self) -> &'static str;
}

/// The code of a configuration error: its variant's name.
pub open spec fn spec_config_code(e: AppConfigError) -> Seq<char> {
    match e {
        AppConfigError::MissingDevice => "MissingDevice"@,
        AppConfigError::NoOutputConfigured => "NoOutputConfigured"@,
        AppConfigError::NonLoopbackBindAddress(_) => "NonLoopbackBindAddress"@,
        AppConfigError::InvalidAttackTime { .. } => "InvalidAttackTime"@,
        AppConfigError::InvalidReleaseTime { .. } => "InvalidReleaseTime"@,
        AppConfigError::InvalidFreqLow { .. } => "InvalidFreqLow"@,
        AppConfigError::InvalidFreqHigh { .. } => "InvalidFreqHigh"@,
        AppConfigError::InvalidFreqRange { .. } => "InvalidFreqRange"@,
        AppConfigError::InvalidFilterQ { .. } => "InvalidFilterQ"@,
        AppConfigError::InvalidVocoderBandCoefficients { .. } => "InvalidVocoderBandCoefficients"@,
        AppConfigError::InvalidBroadcastRate { .. } => "InvalidBroadcastRate"@,
        AppConfigError::InvalidMidiTempo { .. } => "InvalidMidiTempo"@,
        AppConfigError::InvalidTestFrequency { .. } => "InvalidTestFrequency"@,
        AppConfigError::InvalidTestSweepRate { .. } => "InvalidTestSweepRate"@,
        AppConfigError::InvalidMaxClients => "InvalidMaxClients"@,
        AppConfigError::EmptyChannelSelection => "EmptyChannelSelection"@,
        AppConfigError::InvalidMidiDeviceName => "InvalidMidiDeviceName"@,
        AppConfigError::DuplicateOutputTransport { .. } => "DuplicateOutputTransport"@,
        AppConfigError::ChannelIndexOutOfRange { .. } => "ChannelIndexOutOfRange"@,
        AppConfigError::ConfigFileParseError(_) => "ConfigFileParseError"@,
        AppConfigError::ConfigFileNotFound(_) => "ConfigFileNotFound"@,
        AppConfigError::InvalidFreqAboveNyquist { .. } => "InvalidFreqAboveNyquist"@,
        AppConfigError::InvalidFreqAboveSafetyCeiling { .. } => "InvalidFreqAboveSafetyCeiling"@,
    }
}

impl EventCode for AppConfigError {
    fn event_code(&self) -> (code: &'static str)
        ensures
            code@ == spec_config_code(*self),
    {
        match self {
            AppConfigError::MissingDevice => "MissingDevice",
            AppConfigError::NoOutputConfigured => "NoOutputConfigured",
            AppConfigError::NonLoopbackBindAddress(_) => "NonLoopbackBindAddress",
            AppConfigError::InvalidAttackTime { .. } => "InvalidAttackTime",
            AppConfigError::InvalidReleaseTime { .. } => "InvalidReleaseTime",
            AppConfigError::InvalidFreqLow { .. } => "InvalidFreqLow",
            AppConfigError::InvalidFreqHigh { .. } => "InvalidFreqHigh",
            AppConfigError::InvalidFreqRange { .. } => "InvalidFreqRange",
            AppConfigError::InvalidFilterQ { .. } => "InvalidFilterQ",
            AppConfigError::InvalidVocoderBandCoefficients { .. } => "InvalidVocoderBandCoefficients",
            AppConfigError::InvalidBroadcastRate { .. } => "InvalidBroadcastRate",
            AppConfigError::InvalidMidiTempo { .. } => "InvalidMidiTempo",
            AppConfigError::InvalidTestFrequency { .. } => "InvalidTestFrequency",
            AppConfigError::InvalidTestSweepRate { .. } => "InvalidTestSweepRate",
            AppConfigError::InvalidMaxClients => "InvalidMaxClients",
            AppConfigError::EmptyChannelSelection => "EmptyChannelSelection",
            AppConfigError::InvalidMidiDeviceName => "InvalidMidiDeviceName",
            AppConfigError::DuplicateOutputTransport { .. } => "DuplicateOutputTransport",
            AppConfigError::ChannelIndexOutOfRange { .. } => "ChannelIndexOutOfRange",
            AppConfigError::ConfigFileParseError(_) => "ConfigFileParseError",
            AppConfigError::ConfigFileNotFound(_) => "ConfigFileNotFound",
            AppConfigError::InvalidFreqAboveNyquist { .. } => "InvalidFreqAboveNyquist",
            AppConfigError::InvalidFreqAboveSafetyCeiling { .. } => "InvalidFreqAboveSafetyCeiling",
        }
    }
}

/// The code of an audio device error: its variant's name.
pub open spec fn spec_device_code(e: DeviceError) -> Seq<char> {
    match e {
        DeviceError::EmptyQuery => "EmptyQuery"@,
        DeviceError::NoMatch { .. } => "NoMatch"@,
        DeviceError::UnsupportedFormat { .. } => "UnsupportedFormat"@,
        DeviceError::HardwareStreamError { .. } => "HardwareStreamError"@,
    }
}

impl EventCode for DeviceError {
    fn event_code(&self) -> (code: &'static str)
        ensures
            code@ == spec_device_code(*self),
    {
        match self {
            DeviceError::EmptyQuery => "EmptyQuery",
            DeviceError::NoMatch { .. } => "NoMatch",
            DeviceError::UnsupportedFormat { .. } => "UnsupportedFormat",
            DeviceError::HardwareStreamError { .. } => "HardwareStreamError",
        }
    }
}

/// The code of a MIDI device error: its variant's name.
pub open spec fn spec_midi_code(e: MidiDeviceError) -> Seq<char> {
    match e {
        MidiDeviceError::MidiUnavailable { .. } => "MidiUnavailable"@,
        MidiDeviceError::MidiNoMatch { .. } => "MidiNoMatch"@,
        MidiDeviceError::MidiConnectFailed { .. } => "MidiConnectFailed"@,
    }
}

impl EventCode for MidiDeviceError {
    fn event_code(&self) -> (code: &'static str)
        ensures
            code@ == spec_midi_code(*self),
    {
        match self {
            MidiDeviceError::MidiUnavailable { .. } => "MidiUnavailable",
            MidiDeviceError::MidiNoMatch { .. } => "MidiNoMatch",
            MidiDeviceError::MidiConnectFailed { .. } => "MidiConnectFailed",
        }
    }
}

/// The typed error at the root of a failure, when it has one.
#[derive(Clone, Debug)]
pub enum ErrorSource {
    Config(AppConfigError),
    Device(DeviceError),
    Midi(MidiDeviceError),
}

/// The code of a failure: its typed source's code, or `Unknown`.
pub open spec fn spec_error_code(source: Option<ErrorSource>) -> Seq<char> {
    match source {
        Some(ErrorSource::Config(e)) => spec_config_code(e),
        Some(ErrorSource::Device(e)) => spec_device_code(e),
        Some(ErrorSource::Midi(e)) => spec_midi_code(e),
        None => UNKNOWN_EVENT_CODE@,
    }
}

/// The stable code of a failure: that of its typed source when it has one,
/// `Unknown` otherwise.
pub fn error_code(source: Option<&ErrorSource>) -> (code: &'static str)
    ensures
        code@ == spec_error_code(match source { Some(s) => Some(*s), None => None }),
{
    match source {
        Some(ErrorSource::Config(e)) => e.event_code(),
        Some(ErrorSource::Device(e)) => e.event_code(),
        Some(ErrorSource::Midi(e)) => e.event_code(),
        None => UNKNOWN_EVENT_CODE,
    }
}

} // verus!
