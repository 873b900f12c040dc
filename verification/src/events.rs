//! Machine-readable startup events: whether they are written at all, and
//! the closed set of reasons a startup can fail for.

use crate::cli::EventFormat;
use crate::config::AppConfigError;
use crate::names::{chars_of, contains, spec_contains};
use vstd::prelude::*;

verus! {

/// Schema version of the event envelope.
pub const SCHEMA_VERSION: u32 = 1;

/// Closed set of startup failure classes. Unrecognised failures fall back
/// to `StartupFailed`.
#[derive(Clone, Copy, PartialEq, Eq, Debug, Structural)]
pub enum FatalReason {
    PortInUse,
    DeviceNotFound,
    DeviceUnsupported,
    InvalidConfig,
    NoOutputConfigured,
    StartupFailed,
}

/// Writes startup events when a format was requested, and nothing at all
/// otherwise.
pub struct Emitter {
    enabled: bool,
}

impl Emitter {
    /// Whether this emitter writes events.
    pub closed spec fn spec_enabled(&self) -> bool {
        self.enabled
    }

    /// An emitter that is enabled exactly when a format was requested.
    pub fn new(format: Option<EventFormat>) -> (emitter: Emitter)
        ensures
            emitter.spec_enabled() == format.is_some(),
    {
        Emitter { enabled: format.is_some() }
    }

    /// Whether this emitter writes events.
    pub fn is_enabled(&self) -> (enabled: bool)
        ensures
            enabled == self.spec_enabled(),
    {
        self.enabled
    }
}

/// The failure class of a configuration error.
pub open spec fn spec_config_reason(e: AppConfigError) -> FatalReason {
    match e {
        AppConfigError::MissingDevice => FatalReason::DeviceNotFound,
        AppConfigError::NoOutputConfigured => FatalReason::NoOutputConfigured,
        _ => FatalReason::InvalidConfig,
    }
}

/// Maps every configuration error to a failure class: a missing device is
/// `DeviceNotFound`, a missing output `NoOutputConfigured`, and every other
/// error `InvalidConfig`.
pub fn map_config_error(e: &AppConfigError) -> (reason: FatalReason)
    ensures
        reason == spec_config_reason(*e),
{
    match e {
        AppConfigError::MissingDevice => FatalReason::DeviceNotFound,
        AppConfigError::NoOutputConfigured => FatalReason::NoOutputConfigured,
        AppConfigError::NonLoopbackBindAddress(_)
        | AppConfigError::InvalidAttackTime { .. }
        | AppConfigError::InvalidReleaseTime { .. }
        | AppConfigError::InvalidFreqLow { .. }
        | AppConfigError::InvalidFreqHigh { .. }
        | AppConfigError::InvalidFreqRange { .. }
        | AppConfigError::InvalidFilterQ { .. }
        | AppConfigError::InvalidVocoderBandCoefficients { .. }
        | AppConfigError::InvalidBroadcastRate { .. }
        | AppConfigError::InvalidMidiTempo { .. }
        | AppConfigError::InvalidTestFrequency { .. }
        | AppConfigError::InvalidTestSweepRate { .. }
        | AppConfigError::InvalidMaxClients
        | AppConfigError::EmptyChannelSelection
        | AppConfigError::InvalidMidiDeviceName
        | AppConfigError::DuplicateOutputTransport { .. }
        | AppConfigError::ChannelIndexOutOfRange { .. }
        | AppConfigError::ConfigFileParseError(_)
        | AppConfigError::ConfigFileNotFound(_)
        | AppConfigError::InvalidFreqAboveNyquist { .. }
        | AppConfigError::InvalidFreqAboveSafetyCeiling { .. } => FatalReason::InvalidConfig,
    }
}

/// Substring shared by every device-resolution failure message.
pub const DEVICE_RESOLUTION_MARKER: &'static str = "--audio-list";

/// One link of a startup error's cause chain, outermost first, holding what
/// classification reads of it.
#[derive(Clone, Debug)]
pub enum StartupCause {
    /// An I/O error; `addr_in_use` tells whether its kind is `AddrInUse`.
    Io { addr_in_use: bool, message: String },
    /// A configuration error.
    Config(AppConfigError),
    /// Any other error, by its message.
    Other(String),
}

/// Whether a cause is an I/O error of kind `AddrInUse`.
pub open spec fn spec_addr_in_use(cause: StartupCause) -> bool {
    cause matches StartupCause::Io { addr_in_use, .. } && addr_in_use
}

/// Whether a cause's message names the device-resolution marker.
pub open spec fn spec_names_marker(cause: StartupCause) -> bool {
    match cause {
        StartupCause::Io { message, .. } => spec_contains(message@, DEVICE_RESOLUTION_MARKER@),
        StartupCause::Other(message) => spec_contains(message@, DEVICE_RESOLUTION_MARKER@),
        StartupCause::Config(_) => false,
    }
}

/// The outermost configuration error of `chain`, if it holds one.
pub open spec fn spec_first_config(chain: Seq<StartupCause>) -> Option<AppConfigError>
    decreases chain.len(),
{
    if chain.len() == 0 {
        None
    } else {
        match chain[0] {
            StartupCause::Config(e) => Some(e),
            _ => spec_first_config(chain.drop_first()),
        }
    }
}

/// The class of a startup failure, checked in order over the whole chain:
/// an `AddrInUse` I/O error anywhere is `PortInUse`; else a configuration
/// error anywhere maps as [`map_config_error`] does (the outermost one);
/// else a message anywhere naming the device-resolution marker is
/// `DeviceNotFound`; else `StartupFailed`.
pub open spec fn spec_startup_reason(chain: Seq<StartupCause>) -> FatalReason {
    if exists|i: int| 0 <= i < chain.len() && #[trigger] spec_addr_in_use(chain[i]) {
        FatalReason::PortInUse
    } else if spec_first_config(chain) is Some {
        spec_config_reason(spec_first_config(chain).unwrap())
    } else if exists|i: int| 0 <= i < chain.len() && #[trigger] spec_names_marker(chain[i]) {
        FatalReason::DeviceNotFound
    } else {
        FatalReason::StartupFailed
    }
}

/// Whether `message` holds the device-resolution marker.
fn names_device_resolution(message: &String) -> (found: bool)
    ensures
        found == spec_contains(message@, DEVICE_RESOLUTION_MARKER@),
{
    let haystack = chars_of(message.as_str());
    let needle = chars_of(DEVICE_RESOLUTION_MARKER);
    contains(haystack.as_slice(), needle.as_slice())
}

/// Classifies a startup failure by its cause chain: an I/O error of kind
/// `AddrInUse` anywhere in the chain first, then a configuration error
/// anywhere, then a message naming the device-resolution marker, and
/// `StartupFailed` when none of these is there.
pub fn map_startup_error(chain: &[StartupCause]) -> (reason: FatalReason)
    ensures
        reason == spec_startup_reason(chain@),
{
    let mut i: usize = 0;
    while i < chain.len()
        invariant
            i <= chain@.len(),
            forall|k: int| 0 <= k < i ==> !#[trigger] spec_addr_in_use(chain@[k]),
        decreases chain@.len() - i,
    {
        match &chain[i] {
            StartupCause::Io { addr_in_use, .. } => if *addr_in_use {
                assert(spec_addr_in_use(chain@[i as int]));
                return FatalReason::PortInUse;
            },
            _ => {},
        }
        i = i + 1;
    }
    let mut j: usize = 0;
    assert(chain@.subrange(0, chain@.len() as int) =~= chain@);
    while j < chain.len()
        invariant
            j <= chain@.len(),
            !(exists|i: int| 0 <= i < chain@.len() && #[trigger] spec_addr_in_use(chain@[i])),
            spec_first_config(chain@) == spec_first_config(chain@.subrange(j as int, chain@.len() as int)),
        decreases chain@.len() - j,
    {
        let ghost rest = chain@.subrange(j as int, chain@.len() as int);
        assert(rest[0] == chain@[j as int]);
        assert(rest.drop_first() =~= chain@.subrange(j + 1, chain@.len() as int));
        match &chain[j] {
            StartupCause::Config(e) => {
                return map_config_error(e);
            },
            _ => {},
        }
        j = j + 1;
    }
    let mut k: usize = 0;
    while k < chain.len()
        invariant
            k <= chain@.len(),
            !(exists|i: int| 0 <= i < chain@.len() && #[trigger] spec_addr_in_use(chain@[i])),
            spec_first_config(chain@) is None,
            forall|m: int| 0 <= m < k ==> !#[trigger] spec_names_marker(chain@[m]),
        decreases chain@.len() - k,
    {
        let found = match &chain[k] {
            StartupCause::Io { message, .. } => names_device_resolution(message),
            StartupCause::Other(message) => names_device_resolution(message),
            StartupCause::Config(_) => false,
        };
        if found {
            assert(spec_names_marker(chain@[k as int]));
            return FatalReason::DeviceNotFound;
        }
        k = k + 1;
    }
    FatalReason::StartupFailed
}

} // verus!
