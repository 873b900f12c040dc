//! Configuration errors, the file layer's audio and MIDI sections, and the
//! checks on channel selections, device names and client limits.
//!
//! Values that are `f32` in the configuration travel in the errors as the
//! bit pattern of the `f32`, so an error can be reported with the exact
//! value that was rejected.

use crate::audio::Specs;
use crate::cli::{Args, ControllerMode};
use crate::net::{spec_is_loopback, SocketAddress};
use crate::names::{is_blank, spec_is_blank};
use vstd::prelude::*;

verus! {

/// Fallback WebSocket client cap used when neither CLI nor file sets one.
pub const DEFAULT_MAX_CLIENTS: usize = 8;

/// Everything that makes a configuration unusable.
#[derive(Debug, Clone, PartialEq, Eq)]
pub enum AppConfigError {
    MissingDevice,
    NoOutputConfigured,
    NonLoopbackBindAddress(SocketAddress),
    InvalidAttackTime { value: u32 },
    InvalidReleaseTime { value: u32 },
    InvalidFreqLow { value: u32 },
    InvalidFreqHigh { value: u32 },
    InvalidFreqRange { freq_low: u32, freq_high: u32 },
    InvalidFilterQ { value: u32 },
    InvalidVocoderBandCoefficients { band: usize, frequency_hz: u32, sample_rate: u32 },
    InvalidBroadcastRate { value: u32 },
    InvalidMidiTempo { value: u32 },
    InvalidTestFrequency { value: u32 },
    InvalidTestSweepRate { value: u32 },
    InvalidMaxClients,
    EmptyChannelSelection,
    InvalidMidiDeviceName,
    DuplicateOutputTransport { transport: String },
    ChannelIndexOutOfRange { idx: u16, channels: u16 },
    ConfigFileParseError(String),
    ConfigFileNotFound(String),
    InvalidFreqAboveNyquist { sample_rate: u32, freq_high: u32, nyquist_hz: u32 },
    InvalidFreqAboveSafetyCeiling { sample_rate: u32, freq_high: u32, max_safe_hz: u32 },
}

/// Network-layer fields that may be set in the configuration file. The
/// broadcast rate is the bit pattern of an `f32`.
#[derive(Debug, Clone, PartialEq, Eq, Default)]
pub struct FileNetworkConfig {
    pub ws_addr: Option<SocketAddress>,
    pub max_clients: Option<usize>,
    pub broadcast_rate: Option<u32>,
    pub no_browser_origin: Option<bool>,
    pub osc_addr: Option<SocketAddress>,
}

/// Vocoder fields that may be set in the configuration file, each the bit
/// pattern of an `f32`.
#[derive(Debug, Clone, PartialEq, Eq, Default)]
pub struct FileVocoderConfig {
    pub attack_ms: Option<u32>,
    pub release_ms: Option<u32>,
    pub freq_low: Option<u32>,
    pub freq_high: Option<u32>,
    pub filter_q: Option<u32>,
}

/// The configuration file: each section may be omitted.
#[derive(Debug, Clone, PartialEq, Eq, Default)]
pub struct FileConfig {
    pub network: FileNetworkConfig,
    pub audio: FileAudioConfig,
    pub midi: FileMidiConfig,
    pub vocoder: FileVocoderConfig,
}

/// Audio-layer fields that may be set in the configuration file.
#[derive(Debug, Clone, PartialEq, Eq, Default)]
pub struct FileAudioConfig {
    pub device_name_match: Option<String>,
    pub analyse_channels: Option<Vec<u16>>,
}

/// MIDI-layer fields that may be set in the configuration file.
#[derive(Debug, Clone, PartialEq, Eq, Default)]
pub struct FileMidiConfig {
    pub device_name_match: Option<String>,
}

/// Whether `s` is sorted in strictly increasing order, so free of
/// duplicates.
pub open spec fn spec_strictly_increasing(s: Seq<u16>) -> bool {
    forall|i: int, j: int| 0 <= i < j < s.len() ==> s[i] < s[j]
}

/// Whether `normalised` holds exactly the indices of `raw`, each once, in
/// increasing order.
pub open spec fn spec_normalised(raw: Seq<u16>, normalised: Seq<u16>) -> bool {
    &&& spec_strictly_increasing(normalised)
    &&& forall|x: u16| normalised.contains(x) <==> raw.contains(x)
}

/// Inserts `x` into the strictly increasing `sorted`, unless it is already
/// there.
fn insert_sorted(sorted: &mut Vec<u16>, x: u16)
    requires
        spec_strictly_increasing(old(sorted)@),
    ensures
        spec_strictly_increasing(final(sorted)@),
        forall|y: u16| final(sorted)@.contains(y) <==> (old(sorted)@.contains(y) || y == x),
{
    let mut pos: usize = 0;
    while pos < sorted.len() && sorted[pos] < x
        invariant
            pos <= sorted@.len(),
            sorted@ == old(sorted)@,
            spec_strictly_increasing(sorted@),
            forall|k: int| 0 <= k < pos ==> #[trigger] sorted@[k] < x,
        decreases sorted@.len() - pos,
    {
        pos = pos + 1;
    }
    if pos < sorted.len() && sorted[pos] == x {
        assert(sorted@[pos as int] == x);
        return;
    }
    let ghost before = sorted@;
    sorted.insert(pos, x);
    proof {
        lemma_insert_keeps_order(before, pos as int, x);
        assert forall|y: u16| sorted@.contains(y) <==> (before.contains(y) || y == x) by {
            assert(sorted@ == before.insert(pos as int, x));
        }
    }
    assert(forall|y: u16| sorted@.contains(y) <==> (old(sorted)@.contains(y) || y == x));
}

/// Inserting `x` at a position where everything before is smaller and
/// everything after is larger keeps a strictly increasing sequence so, and
/// adds exactly `x` to its contents.
proof fn lemma_insert_keeps_order(before: Seq<u16>, pos: int, x: u16)
    requires
        0 <= pos <= before.len(),
        spec_strictly_increasing(before),
        forall|k: int| 0 <= k < pos ==> #[trigger] before[k] < x,
        pos < before.len() ==> x < before[pos],
    ensures
        spec_strictly_increasing(before.insert(pos, x)),
        forall|y: u16| before.insert(pos, x).contains(y) <==> (before.contains(y) || y == x),
{
    let after = before.insert(pos, x);
    assert forall|i: int, j: int| 0 <= i < j < after.len() implies after[i] < after[j] by {
        if j < pos {
        } else if j == pos {
        } else if i < pos {
            assert(before[i] < x);
            assert(x < before[pos]);
            assert(before[pos] <= before[j - 1]);
        } else if i == pos {
            assert(x < before[pos]);
            assert(before[pos] <= before[j - 1]);
        } else {
        }
    }
    assert forall|y: u16| after.contains(y) <==> (before.contains(y) || y == x) by {
        if after.contains(y) {
            let k = choose|k: int| 0 <= k < after.len() && after[k] == y;
            if k < pos {
                assert(before[k] == y);
            } else if k > pos {
                assert(before[k - 1] == y);
            }
        }
        if before.contains(y) {
            let k = choose|k: int| 0 <= k < before.len() && before[k] == y;
            if k < pos {
                assert(after[k] == y);
            } else {
                assert(after[k + 1] == y);
            }
        }
        if y == x {
            assert(after[pos] == x);
        }
    }
}

/// Deduplicates and sorts a channel selection. `None` stays `None`, which
/// means every channel; a present but empty selection is an error.
pub fn normalise_channel_selection(indices: Option<&[u16]>) -> (normalised: Result<Option<Vec<u16>>, AppConfigError>)
    ensures
        match indices {
            None => normalised == Ok::<Option<Vec<u16>>, AppConfigError>(None),
            Some(raw) => if raw@.len() == 0 {
                normalised == Err::<Option<Vec<u16>>, AppConfigError>(AppConfigError::EmptyChannelSelection)
            } else {
                normalised matches Ok(Some(sorted)) && spec_normalised(raw@, sorted@)
            },
        },
{
    let raw = match indices {
        None => return Ok(None),
        Some(raw) => raw,
    };
    if raw.len() == 0 {
        return Err(AppConfigError::EmptyChannelSelection);
    }
    let mut sorted: Vec<u16> = Vec::new();
    let mut i: usize = 0;
    while i < raw.len()
        invariant
            i <= raw@.len(),
            spec_strictly_increasing(sorted@),
            forall|y: u16| sorted@.contains(y) <==> raw@.subrange(0, i as int).contains(y),
        decreases raw@.len() - i,
    {
        let ghost prefix = raw@.subrange(0, i as int);
        insert_sorted(&mut sorted, raw[i]);
        proof {
            let next = raw@.subrange(0, i + 1);
            assert(next =~= prefix.push(raw@[i as int]));
            assert forall|y: u16| next.contains(y) <==> (prefix.contains(y) || y == raw@[i as int]) by {
                if next.contains(y) {
                    let k = choose|k: int| 0 <= k < next.len() && next[k] == y;
                    if k < i {
                        assert(prefix[k] == y);
                    }
                }
                if prefix.contains(y) {
                    let k = choose|k: int| 0 <= k < prefix.len() && prefix[k] == y;
                    assert(next[k] == y);
                }
                if y == raw@[i as int] {
                    assert(next[i as int] == y);
                }
            }
        }
        i = i + 1;
    }
    assert(raw@.subrange(0, raw@.len() as int) =~= raw@);
    Ok(Some(sorted))
}

/// Two strictly increasing sequences that hold the same values are the
/// same sequence.
proof fn lemma_sorted_sets_equal(a: Seq<u16>, b: Seq<u16>)
    requires
        spec_strictly_increasing(a),
        spec_strictly_increasing(b),
        forall|x: u16| a.contains(x) <==> b.contains(x),
    ensures
        a == b,
    decreases a.len(),
{
    if a.len() == 0 {
        if b.len() > 0 {
            assert(b.contains(b[0]));
        }
        assert(a =~= b);
    } else {
        assert(a.contains(a[0]));
        assert(b.contains(a[0]));
        assert(b.contains(b[0]));
        assert(a.contains(b[0]));
        let i = choose|i: int| 0 <= i < a.len() && a[i] == b[0];
        let j = choose|j: int| 0 <= j < b.len() && b[j] == a[0];
        assert(a[0] <= a[i]);
        assert(b[0] <= b[j]);
        assert(a[0] == b[0]);
        let a1 = a.drop_first();
        let b1 = b.drop_first();
        assert forall|x: u16| a1.contains(x) <==> b1.contains(x) by {
            if a1.contains(x) {
                let k = choose|k: int| 0 <= k < a1.len() && a1[k] == x;
                assert(a[k + 1] == x);
                assert(a.contains(x));
                assert(b.contains(x));
                let m = choose|m: int| 0 <= m < b.len() && b[m] == x;
                assert(a[0] < a[k + 1]);
                if m == 0 {
                    assert(false);
                }
                assert(b1[m - 1] == x);
            }
            if b1.contains(x) {
                let k = choose|k: int| 0 <= k < b1.len() && b1[k] == x;
                assert(b[k + 1] == x);
                assert(b.contains(x));
                assert(a.contains(x));
                let m = choose|m: int| 0 <= m < a.len() && a[m] == x;
                assert(b[0] < b[k + 1]);
                if m == 0 {
                    assert(false);
                }
                assert(a1[m - 1] == x);
            }
        }
        lemma_sorted_sets_equal(a1, b1);
        assert(a.len() == b.len());
        assert forall|k: int| 0 <= k < a.len() implies a[k] == b[k] by {
            if k > 0 {
                assert(a[k] == a1[k - 1]);
                assert(b[k] == b1[k - 1]);
            }
        }
        assert(a =~= b);
    }
}

/// A channel selection has exactly one normal form, and normalising a
/// normal form gives it back unchanged.
pub proof fn law_normal_form_is_unique_and_stable(raw: Seq<u16>, first: Seq<u16>, second: Seq<u16>)
    requires
        spec_normalised(raw, first),
    ensures
        spec_normalised(raw, second) ==> second == first,
        spec_normalised(first, second) ==> second == first,
{
    if spec_normalised(raw, second) {
        lemma_sorted_sets_equal(first, second);
    }
    if spec_normalised(first, second) {
        lemma_sorted_sets_equal(first, second);
    }
}

/// The largest index of a non-empty selection.
pub open spec fn spec_is_max(s: Seq<u16>, m: u16) -> bool {
    &&& s.contains(m)
    &&& forall|k: int| 0 <= k < s.len() ==> #[trigger] s[k] <= m
}

/// Checks a channel selection against the hardware channel count: every
/// index must name a hardware channel. The error reports the largest
/// index.
pub fn validate_channel_selection(selection: Option<&[u16]>, hw_specs: Specs) -> (checked: Result<(), AppConfigError>)
    ensures
        match checked {
            Ok(()) => selection matches Some(s) ==> forall|k: int| 0 <= k < s@.len() ==> (#[trigger] s@[k]) < hw_specs.channels,
            Err(e) => selection matches Some(s) && exists|m: u16| {
                &&& spec_is_max(s@, m)
                &&& m >= hw_specs.channels
                &&& e == AppConfigError::ChannelIndexOutOfRange { idx: m, channels: hw_specs.channels }
            },
        },
{
    let s = match selection {
        None => return Ok(()),
        Some(s) => s,
    };
    if s.len() == 0 {
        return Ok(());
    }
    let mut max = s[0];
    let mut i: usize = 1;
    assert(s@.subrange(0, 1)[0] == max);
    while i < s.len()
        invariant
            1 <= i <= s@.len(),
            s@.subrange(0, i as int).contains(max),
            forall|k: int| 0 <= k < i ==> #[trigger] s@[k] <= max,
        decreases s@.len() - i,
    {
        let ghost old_max = max;
        if s[i] > max {
            max = s[i];
        }
        proof {
            let next = s@.subrange(0, i + 1);
            if max == s@[i as int] {
                assert(next[i as int] == max);
            } else {
                let k = choose|k: int| 0 <= k < i && s@.subrange(0, i as int)[k] == max;
                assert(next[k] == max);
            }
        }
        i = i + 1;
    }
    assert(s@.subrange(0, s@.len() as int) =~= s@);
    if max >= hw_specs.channels {
        assert(spec_is_max(s@, max));
        return Err(AppConfigError::ChannelIndexOutOfRange { idx: max, channels: hw_specs.channels });
    }
    Ok(())
}

/// The device name a layer names: the command line's when given, else the
/// file's, and no name at all when the chosen one is empty or whitespace.
pub open spec fn spec_resolve_name(cli: Option<String>, file: Option<String>) -> Option<String> {
    let chosen = if cli is Some { cli } else { file };
    match chosen {
        Some(n) => if spec_is_blank(n@) { None } else { Some(n) },
        None => None,
    }
}

/// Merges a device name from the command line and the file layer: the
/// command line wins, and a blank name counts as no name.
pub fn resolve_device_name(cli: Option<String>, file: Option<String>) -> (name: Option<String>)
    ensures
        name == spec_resolve_name(cli, file),
{
    let chosen = match cli {
        Some(n) => Some(n),
        None => file,
    };
    match chosen {
        Some(n) => if is_blank(n.as_str()) {
            None
        } else {
            Some(n)
        },
        None => None,
    }
}

/// The largest number of permits a `tokio` semaphore holds, which bounds
/// the WebSocket client limit. `tokio` documents it as `usize::MAX >> 3`.
#[verifier::external_body]
fn semaphore_max_permits() -> (max: usize)
    ensures
        max == usize::MAX >> 3,
{
    tokio::sync::Semaphore::MAX_PERMITS
}

/// Checks the WebSocket client limit: it must be positive and within what a
/// semaphore can count.
pub fn validate_max_clients(max_clients: usize) -> (checked: Result<(), AppConfigError>)
    ensures
        checked is Ok <==> (max_clients > 0 && max_clients <= usize::MAX >> 3),
        checked matches Err(e) ==> e == AppConfigError::InvalidMaxClients,
{
    let maximum = semaphore_max_permits();
    if max_clients == 0 || max_clients > maximum {
        return Err(AppConfigError::InvalidMaxClients);
    }
    Ok(())
}


// ---------------------------------------------------------------------------
// Resolution of the command line and file layers.
// ---------------------------------------------------------------------------

/// Default fixed calibration tone: 440 Hz, as `f32` bits.
pub const DEFAULT_TEST_HZ: u32 = 0x43dc_0000;

/// Default WebSocket broadcast rate: 60 Hz, as `f32` bits.
pub const DEFAULT_BROADCAST_RATE_HZ: u32 = 0x4270_0000;

/// Default vocoder attack time: 24 ms, as `f32` bits.
pub const DEFAULT_ATTACK_MS: u32 = 0x41c0_0000;

/// Default vocoder release time: 96 ms, as `f32` bits.
pub const DEFAULT_RELEASE_MS: u32 = 0x42c0_0000;

/// Default lowest band centre frequency: 60 Hz, as `f32` bits.
pub const DEFAULT_FREQ_LOW: u32 = 0x4270_0000;

/// Default highest band centre frequency: 6000 Hz, as `f32` bits.
pub const DEFAULT_FREQ_HIGH: u32 = 0x45bb_8000;

/// Default band-pass filter Q: 8, as `f32` bits.
pub const DEFAULT_FILTER_Q: u32 = 0x4100_0000;

/// Bit patterns below this one, and above zero, are the positive finite
/// `f32` values; it is the pattern of positive infinity.
pub const F32_POSITIVE_INFINITY_BITS: u32 = 0x7f80_0000;

/// Highest calibration frequency the generator can produce: 0.45 of its
/// 44 100 Hz sample rate, 19 845 Hz, as `f32` bits.
pub const CALIBRATION_MAX_FREQUENCY_HZ: u32 = 0x469b_0a00;

/// The pattern of the largest filter Q whose biquad term `1 / (2 q)`
/// overflows `f32`: `q = 2^-129`. For a positive `q`, `2 q` is exact, and
/// `1 / (2 q)` rounds to infinity exactly when it is at least
/// `2^128 - 2^103`, that is when `q <= 2^-129 / (1 - 2^-25)`, which among
/// `f32` values means `q <= 2^-129`.
pub const MAX_OVERFLOWING_FILTER_Q: u32 = 0x0010_0000;

/// The synthetic calibration signal, its frequency as `f32` bits.
#[derive(Debug, Clone, Copy, PartialEq, Eq, Structural)]
pub enum TestSignal {
    /// Fixed tone at the given frequency in Hz.
    FixedTone(u32),
    /// Logarithmic sweep driven by an LFO at the given rate in Hz.
    Sweep(u32),
}

/// The resolved input: a calibration signal or a hardware device name.
#[derive(Debug, Clone, PartialEq, Eq)]
pub enum ConfigInput {
    Calibration(TestSignal),
    Device(String),
}

/// The resolved MIDI input, independent of the audio input.
#[derive(Debug, Clone, PartialEq, Eq)]
pub enum ConfigMidiInput {
    /// Synthetic clock at the given tempo in beats per minute, as `f32`
    /// bits.
    TestClock(u32),
    /// A MIDI input device, by name.
    Device(String),
}

/// One configured output transport.
#[derive(Debug, Clone, Copy, PartialEq, Eq, Structural)]
pub enum OutputConfig {
    /// WebSocket JSON broadcast on a listen address.
    WebSocket { addr: SocketAddress, max_clients: usize, no_browser_origin: bool },
    /// OSC UDP messages to a target address.
    Osc { addr: SocketAddress },
    /// Frames published into the shared frame region of the engine
    /// service; the region is created when the output is spawned.
    FrameRegion,
}

/// The resolved output set, never empty.
#[derive(Debug, Clone, PartialEq, Eq)]
pub struct ConfigOutputs {
    outputs: Vec<OutputConfig>,
}

impl ConfigOutputs {
    pub closed spec fn view(&self) -> Seq<OutputConfig> {
        self.outputs@
    }

    /// An output set from `outputs`, which must not be empty.
    pub fn new(outputs: Vec<OutputConfig>) -> (set: Result<ConfigOutputs, AppConfigError>)
        ensures
            match set {
                Ok(set) => outputs@.len() > 0 && set.view() == outputs@,
                Err(e) => outputs@.len() == 0 && e == AppConfigError::NoOutputConfigured,
            },
    {
        if outputs.len() == 0 {
            return Err(AppConfigError::NoOutputConfigured);
        }
        Ok(ConfigOutputs { outputs })
    }

    /// The outputs, in spawn order.
    pub fn as_slice(&self) -> (outputs: &[OutputConfig])
        ensures
            outputs@ == self.view(),
    {
        self.outputs.as_slice()
    }
}

/// Vocoder tuning, each value as `f32` bits.
#[derive(Debug, Clone, Copy, PartialEq, Eq, Structural)]
pub struct VocoderConfig {
    pub attack_ms: u32,
    pub release_ms: u32,
    pub freq_low: u32,
    pub freq_high: u32,
    pub filter_q: u32,
}

impl VocoderConfig {
    /// The default tuning: 24 ms attack, 96 ms release, 60 Hz to 6 kHz,
    /// Q of 8.
    pub fn default_tuning() -> (config: VocoderConfig)
        ensures
            config == (VocoderConfig {
                attack_ms: DEFAULT_ATTACK_MS,
                release_ms: DEFAULT_RELEASE_MS,
                freq_low: DEFAULT_FREQ_LOW,
                freq_high: DEFAULT_FREQ_HIGH,
                filter_q: DEFAULT_FILTER_Q,
            }),
    {
        VocoderConfig {
            attack_ms: DEFAULT_ATTACK_MS,
            release_ms: DEFAULT_RELEASE_MS,
            freq_low: DEFAULT_FREQ_LOW,
            freq_high: DEFAULT_FREQ_HIGH,
            filter_q: DEFAULT_FILTER_Q,
        }
    }
}

/// The resolved configuration.
#[derive(Debug, Clone, PartialEq, Eq)]
pub struct AppConfig {
    /// The output transports, never empty.
    pub outputs: ConfigOutputs,
    /// Calibration signal or hardware device.
    pub input: ConfigInput,
    /// The MIDI input, if any.
    pub midi_input: Option<ConfigMidiInput>,
    /// Vocoder tuning.
    pub vocoder_config: VocoderConfig,
    /// Broadcast rate in Hz, as `f32` bits.
    pub broadcast_rate: Option<u32>,
    /// Sorted, deduplicated channel indices of a hardware input; `None`
    /// means every channel, and a calibration input never has one.
    pub analyse_channels: Option<Vec<u16>>,
    /// How the engine waits for a shutdown signal.
    pub controller_mode: ControllerMode,
}

/// Whether `bits` is the pattern of a finite `f32` greater than zero. Among
/// such patterns, the order of the patterns is the order of the values.
pub open spec fn spec_strictly_positive(bits: u32) -> bool {
    0 < bits < F32_POSITIVE_INFINITY_BITS
}

/// Whether the `f32` whose pattern is `bits` is finite and greater than
/// zero.
pub fn is_strictly_positive(bits: u32) -> (positive: bool)
    ensures
        positive == spec_strictly_positive(bits),
{
    0 < bits && bits < F32_POSITIVE_INFINITY_BITS
}

/// Whether a filter Q is usable: finite and positive, with a finite
/// biquad term `1 / (2 q)`.
pub open spec fn spec_filter_q_usable(bits: u32) -> bool {
    MAX_OVERFLOWING_FILTER_Q < bits < F32_POSITIVE_INFINITY_BITS
}

/// The command line's value if given, else the file's, else the default.
pub open spec fn spec_pick<T>(cli: Option<T>, file: Option<T>, default: T) -> T {
    match cli {
        Some(v) => v,
        None => match file {
            Some(v) => v,
            None => default,
        },
    }
}

fn pick_u32(cli: Option<u32>, file: Option<u32>, default: u32) -> (value: u32)
    ensures
        value == spec_pick(cli, file, default),
{
    match cli {
        Some(v) => v,
        None => match file {
            Some(v) => v,
            None => default,
        },
    }
}

/// The first vocoder check that fails, in the order attack, release, low
/// frequency, high frequency, frequency range, filter Q.
pub open spec fn spec_vocoder_error(attack_ms: u32, release_ms: u32, freq_low: u32, freq_high: u32, filter_q: u32) -> Option<AppConfigError> {
    if !spec_strictly_positive(attack_ms) {
        Some(AppConfigError::InvalidAttackTime { value: attack_ms })
    } else if !spec_strictly_positive(release_ms) {
        Some(AppConfigError::InvalidReleaseTime { value: release_ms })
    } else if !spec_strictly_positive(freq_low) {
        Some(AppConfigError::InvalidFreqLow { value: freq_low })
    } else if !spec_strictly_positive(freq_high) {
        Some(AppConfigError::InvalidFreqHigh { value: freq_high })
    } else if freq_low >= freq_high {
        Some(AppConfigError::InvalidFreqRange { freq_low, freq_high })
    } else if !spec_filter_q_usable(filter_q) {
        Some(AppConfigError::InvalidFilterQ { value: filter_q })
    } else {
        None
    }
}

/// Checks the vocoder tuning: each time and frequency must be finite and
/// positive, the low frequency below the high one, and the Q finite and
/// positive with a finite `1 / (2 q)`. As both frequencies are positive
/// and finite by then, their bit patterns compare as the values do.
pub fn validate_vocoder_fields(attack_ms: u32, release_ms: u32, freq_low: u32, freq_high: u32, filter_q: u32) -> (checked: Result<(), AppConfigError>)
    ensures
        match checked {
            Ok(()) => spec_vocoder_error(attack_ms, release_ms, freq_low, freq_high, filter_q) is None,
            Err(e) => spec_vocoder_error(attack_ms, release_ms, freq_low, freq_high, filter_q) == Some(e),
        },
{
    if !is_strictly_positive(attack_ms) {
        return Err(AppConfigError::InvalidAttackTime { value: attack_ms });
    }
    if !is_strictly_positive(release_ms) {
        return Err(AppConfigError::InvalidReleaseTime { value: release_ms });
    }
    if !is_strictly_positive(freq_low) {
        return Err(AppConfigError::InvalidFreqLow { value: freq_low });
    }
    if !is_strictly_positive(freq_high) {
        return Err(AppConfigError::InvalidFreqHigh { value: freq_high });
    }
    if freq_low >= freq_high {
        return Err(AppConfigError::InvalidFreqRange { freq_low, freq_high });
    }
    if !(MAX_OVERFLOWING_FILTER_Q < filter_q && filter_q < F32_POSITIVE_INFINITY_BITS) {
        return Err(AppConfigError::InvalidFilterQ { value: filter_q });
    }
    Ok(())
}

/// The error a calibration signal is refused with, if any: its frequency
/// must be finite, positive, and at most the generator's ceiling.
pub open spec fn spec_test_signal_error(signal: TestSignal) -> Option<AppConfigError> {
    match signal {
        TestSignal::FixedTone(v) => if !spec_strictly_positive(v) || v > CALIBRATION_MAX_FREQUENCY_HZ {
            Some(AppConfigError::InvalidTestFrequency { value: v })
        } else {
            None
        },
        TestSignal::Sweep(v) => if !spec_strictly_positive(v) || v > CALIBRATION_MAX_FREQUENCY_HZ {
            Some(AppConfigError::InvalidTestSweepRate { value: v })
        } else {
            None
        },
    }
}

/// Checks a calibration signal against the generator's range.
pub fn validate_test_signal(signal: TestSignal) -> (checked: Result<(), AppConfigError>)
    ensures
        match checked {
            Ok(()) => spec_test_signal_error(signal) is None,
            Err(e) => spec_test_signal_error(signal) == Some(e),
        },
{
    match signal {
        TestSignal::FixedTone(v) => if !is_strictly_positive(v) || v > CALIBRATION_MAX_FREQUENCY_HZ {
            Err(AppConfigError::InvalidTestFrequency { value: v })
        } else {
            Ok(())
        },
        TestSignal::Sweep(v) => if !is_strictly_positive(v) || v > CALIBRATION_MAX_FREQUENCY_HZ {
            Err(AppConfigError::InvalidTestSweepRate { value: v })
        } else {
            Ok(())
        },
    }
}

/// Checks a WebSocket listen address: it must be a loopback address.
pub fn validate_bind_addr(addr: SocketAddress) -> (checked: Result<(), AppConfigError>)
    ensures
        checked == (if spec_is_loopback(addr.ip) {
            Ok::<(), AppConfigError>(())
        } else {
            Err::<(), AppConfigError>(AppConfigError::NonLoopbackBindAddress(addr))
        }),
{
    if addr.ip.is_loopback() {
        Ok(())
    } else {
        Err(AppConfigError::NonLoopbackBindAddress(addr))
    }
}

/// The vocoder tuning the layers resolve to.
pub open spec fn spec_vocoder_config(args: Args, file: FileConfig) -> VocoderConfig {
    VocoderConfig {
        attack_ms: spec_pick(args.vocoder.attack_ms, file.vocoder.attack_ms, DEFAULT_ATTACK_MS),
        release_ms: spec_pick(args.vocoder.release_ms, file.vocoder.release_ms, DEFAULT_RELEASE_MS),
        freq_low: spec_pick(args.vocoder.freq_low, file.vocoder.freq_low, DEFAULT_FREQ_LOW),
        freq_high: spec_pick(args.vocoder.freq_high, file.vocoder.freq_high, DEFAULT_FREQ_HIGH),
        filter_q: spec_pick(args.vocoder.filter_q, file.vocoder.filter_q, DEFAULT_FILTER_Q),
    }
}

/// The channel selection the layers name: the command line's if given,
/// else the file's.
pub open spec fn spec_raw_channels(args: Args, file: FileConfig) -> Option<Seq<u16>> {
    match args.input.analyse_channels {
        Some(c) => Some(c@),
        None => match file.audio.analyse_channels {
            Some(c) => Some(c@),
            None => None,
        },
    }
}

/// The calibration signal the command line asks for: a sweep wins over a
/// fixed tone.
pub open spec fn spec_calibration(args: Args) -> Option<TestSignal> {
    match args.calibration.test_sweep {
        Some(rate) => Some(TestSignal::Sweep(rate)),
        None => match args.calibration.test_hz {
            Some(hz) => Some(TestSignal::FixedTone(hz)),
            None => None,
        },
    }
}

/// The MIDI input the layers name: the command line's test clock, else a
/// device named on the command line or in the file, a blank name counting
/// as none.
pub open spec fn spec_midi_input(args: Args, file: FileConfig) -> Option<ConfigMidiInput> {
    match args.midi.midi_test_bpm {
        Some(bpm) => Some(ConfigMidiInput::TestClock(bpm)),
        None => match spec_resolve_name(args.midi.midi_device, file.midi.device_name_match) {
            Some(name) => Some(ConfigMidiInput::Device(name)),
            None => None,
        },
    }
}

/// The WebSocket listen address the layers name.
pub open spec fn spec_ws_addr(args: Args, file: FileConfig) -> Option<SocketAddress> {
    if args.network.ws_addr is Some { args.network.ws_addr } else { file.network.ws_addr }
}

/// The OSC target address the layers name.
pub open spec fn spec_osc_addr(args: Args, file: FileConfig) -> Option<SocketAddress> {
    if args.network.osc_addr is Some { args.network.osc_addr } else { file.network.osc_addr }
}

/// The WebSocket client limit the layers name.
pub open spec fn spec_max_clients(args: Args, file: FileConfig) -> usize {
    spec_pick(args.network.max_clients, file.network.max_clients, DEFAULT_MAX_CLIENTS)
}

/// The broadcast rate the layers name.
pub open spec fn spec_broadcast_rate(args: Args, file: FileConfig) -> u32 {
    spec_pick(args.network.broadcast_rate, file.network.broadcast_rate, DEFAULT_BROADCAST_RATE_HZ)
}

/// The first error of the checks that precede the outputs, in the order:
/// an empty channel selection, a calibration signal out of range, a missing
/// device when no calibration signal is asked for, a test clock tempo that
/// is not positive and finite or whose tick interval the machine cannot
/// represent (`tick_interval_ok`), the vocoder checks, the broadcast rate.
pub open spec fn spec_layers_error(args: Args, file: FileConfig, tick_interval_ok: bool) -> Option<AppConfigError> {
    let v = spec_vocoder_config(args, file);
    let rate = spec_broadcast_rate(args, file);
    if spec_raw_channels(args, file) matches Some(c) && c.len() == 0 {
        Some(AppConfigError::EmptyChannelSelection)
    } else if spec_calibration(args) is Some && spec_test_signal_error(spec_calibration(args).unwrap()) is Some {
        spec_test_signal_error(spec_calibration(args).unwrap())
    } else if spec_calibration(args) is None && spec_resolve_name(args.input.device, file.audio.device_name_match) is None {
        Some(AppConfigError::MissingDevice)
    } else if args.midi.midi_test_bpm is Some
        && (!spec_strictly_positive(args.midi.midi_test_bpm.unwrap()) || !tick_interval_ok) {
        Some(AppConfigError::InvalidMidiTempo { value: args.midi.midi_test_bpm.unwrap() })
    } else if spec_vocoder_error(v.attack_ms, v.release_ms, v.freq_low, v.freq_high, v.filter_q) is Some {
        spec_vocoder_error(v.attack_ms, v.release_ms, v.freq_low, v.freq_high, v.filter_q)
    } else if !spec_strictly_positive(rate) {
        Some(AppConfigError::InvalidBroadcastRate { value: rate })
    } else {
        None
    }
}

/// The first error resolution reports: those of the layers, then a
/// non-loopback WebSocket address, a client limit that is zero or beyond
/// what a semaphore counts, and a missing output.
pub open spec fn spec_resolve_error(args: Args, file: FileConfig, tick_interval_ok: bool) -> Option<AppConfigError> {
    if spec_layers_error(args, file, tick_interval_ok) is Some {
        spec_layers_error(args, file, tick_interval_ok)
    } else if spec_ws_addr(args, file) is Some && !spec_is_loopback(spec_ws_addr(args, file).unwrap().ip) {
        Some(AppConfigError::NonLoopbackBindAddress(spec_ws_addr(args, file).unwrap()))
    } else if spec_ws_addr(args, file) is Some
        && (spec_max_clients(args, file) == 0 || spec_max_clients(args, file) > usize::MAX >> 3) {
        Some(AppConfigError::InvalidMaxClients)
    } else if spec_ws_addr(args, file) is None && spec_osc_addr(args, file) is None {
        Some(AppConfigError::NoOutputConfigured)
    } else {
        None
    }
}

/// The outputs the layers configure: the WebSocket output first, then OSC.
/// Refusing browser origins is a command-line choice only.
pub open spec fn spec_outputs(args: Args, file: FileConfig) -> Seq<OutputConfig> {
    let ws: Seq<OutputConfig> = match spec_ws_addr(args, file) {
        Some(addr) => seq![OutputConfig::WebSocket {
            addr,
            max_clients: spec_max_clients(args, file),
            no_browser_origin: args.network.no_browser_origin,
        }],
        None => Seq::empty(),
    };
    match spec_osc_addr(args, file) {
        Some(addr) => ws.push(OutputConfig::Osc { addr }),
        None => ws,
    }
}

/// The input the layers resolve to: the calibration signal, else the named
/// device.
pub open spec fn spec_input(args: Args, file: FileConfig, input: ConfigInput) -> bool {
    match spec_calibration(args) {
        Some(signal) => input == ConfigInput::Calibration(signal),
        None => spec_resolve_name(args.input.device, file.audio.device_name_match) matches Some(name)
            && input == ConfigInput::Device(name),
    }
}

/// The channel selection a resolution keeps: none in calibration mode,
/// else the normal form of the named selection.
pub open spec fn spec_channels(args: Args, file: FileConfig, channels: Option<Vec<u16>>) -> bool {
    if spec_calibration(args) is Some {
        channels is None
    } else {
        match spec_raw_channels(args, file) {
            None => channels is None,
            Some(raw) => channels matches Some(c) && spec_normalised(raw, c@),
        }
    }
}

/// Everything a successful resolution holds besides its outputs.
pub open spec fn spec_resolved_layers(args: Args, file: FileConfig, config: AppConfig) -> bool {
    &&& spec_input(args, file, config.input)
    &&& config.midi_input == spec_midi_input(args, file)
    &&& config.vocoder_config == spec_vocoder_config(args, file)
    &&& config.broadcast_rate == Some(spec_broadcast_rate(args, file))
    &&& spec_channels(args, file, config.analyse_channels)
    &&& config.controller_mode == args.runtime.controller_mode
}

/// Everything a successful resolution holds.
pub open spec fn spec_resolved(args: Args, file: FileConfig, config: AppConfig) -> bool {
    &&& config.outputs.view() == spec_outputs(args, file)
    &&& spec_resolved_layers(args, file, config)
}

/// What the layers resolve to before the outputs.
pub struct ResolvedLayers {
    pub input: ConfigInput,
    pub midi_input: Option<ConfigMidiInput>,
    pub vocoder_config: VocoderConfig,
    pub broadcast_rate: u32,
    pub analyse_channels: Option<Vec<u16>>,
}

fn pick_channels(args: &Args, file: &FileConfig) -> (channels: Option<Vec<u16>>)
    ensures
        match channels {
            Some(c) => spec_raw_channels(*args, *file) == Some(c@),
            None => spec_raw_channels(*args, *file) is None,
        },
{
    match &args.input.analyse_channels {
        Some(c) => Some(c.clone()),
        None => file.audio.analyse_channels.clone(),
    }
}

fn calibration_signal(args: &Args) -> (signal: Option<TestSignal>)
    ensures
        signal == spec_calibration(*args),
{
    match args.calibration.test_sweep {
        Some(rate) => Some(TestSignal::Sweep(rate)),
        None => match args.calibration.test_hz {
            Some(hz) => Some(TestSignal::FixedTone(hz)),
            None => None,
        },
    }
}

/// Resolves the MIDI input. A test clock's tempo must be finite and
/// positive, and `tick_interval_ok` must say that the machine can represent
/// its tick interval.
pub fn resolve_midi_input(args: &Args, file: &FileConfig, tick_interval_ok: bool) -> (midi: Result<Option<ConfigMidiInput>, AppConfigError>)
    ensures
        match midi {
            Ok(m) => m == spec_midi_input(*args, *file)
                && (args.midi.midi_test_bpm matches Some(bpm) ==> spec_strictly_positive(bpm) && tick_interval_ok),
            Err(e) => args.midi.midi_test_bpm matches Some(bpm)
                && (!spec_strictly_positive(bpm) || !tick_interval_ok)
                && e == AppConfigError::InvalidMidiTempo { value: bpm },
        },
{
    match args.midi.midi_test_bpm {
        Some(bpm) => {
            if !is_strictly_positive(bpm) || !tick_interval_ok {
                return Err(AppConfigError::InvalidMidiTempo { value: bpm });
            }
            Ok(Some(ConfigMidiInput::TestClock(bpm)))
        },
        None => match resolve_device_name(args.midi.midi_device.clone(), file.midi.device_name_match.clone()) {
            Some(name) => Ok(Some(ConfigMidiInput::Device(name))),
            None => Ok(None),
        },
    }
}

/// Resolves the input, the MIDI input, the vocoder tuning and the
/// broadcast rate.
fn resolve_layers(args: &Args, file: &FileConfig, tick_interval_ok: bool) -> (layers: Result<ResolvedLayers, AppConfigError>)
    ensures
        match layers {
            Ok(l) => spec_layers_error(*args, *file, tick_interval_ok) is None
                && spec_input(*args, *file, l.input)
                && l.midi_input == spec_midi_input(*args, *file)
                && l.vocoder_config == spec_vocoder_config(*args, *file)
                && l.broadcast_rate == spec_broadcast_rate(*args, *file)
                && spec_channels(*args, *file, l.analyse_channels),
            Err(e) => spec_layers_error(*args, *file, tick_interval_ok) == Some(e),
        },
{
    let raw_channels = pick_channels(args, file);
    let normalised = match normalise_channel_selection(match &raw_channels {
        Some(c) => Some(c.as_slice()),
        None => None,
    }) {
        Ok(channels) => channels,
        Err(e) => return Err(e),
    };
    let signal = calibration_signal(args);
    let raw_device = resolve_device_name(args.input.device.clone(), file.audio.device_name_match.clone());
    let (input, analyse_channels) = match signal {
        Some(signal) => {
            match validate_test_signal(signal) {
                Ok(()) => {},
                Err(e) => return Err(e),
            }
            (ConfigInput::Calibration(signal), None)
        },
        None => match raw_device {
            Some(name) => (ConfigInput::Device(name), normalised),
            None => return Err(AppConfigError::MissingDevice),
        },
    };
    let midi_input = match resolve_midi_input(args, file, tick_interval_ok) {
        Ok(m) => m,
        Err(e) => return Err(e),
    };
    let vocoder_config = VocoderConfig {
        attack_ms: pick_u32(args.vocoder.attack_ms, file.vocoder.attack_ms, DEFAULT_ATTACK_MS),
        release_ms: pick_u32(args.vocoder.release_ms, file.vocoder.release_ms, DEFAULT_RELEASE_MS),
        freq_low: pick_u32(args.vocoder.freq_low, file.vocoder.freq_low, DEFAULT_FREQ_LOW),
        freq_high: pick_u32(args.vocoder.freq_high, file.vocoder.freq_high, DEFAULT_FREQ_HIGH),
        filter_q: pick_u32(args.vocoder.filter_q, file.vocoder.filter_q, DEFAULT_FILTER_Q),
    };
    match validate_vocoder_fields(
        vocoder_config.attack_ms,
        vocoder_config.release_ms,
        vocoder_config.freq_low,
        vocoder_config.freq_high,
        vocoder_config.filter_q,
    ) {
        Ok(()) => {},
        Err(e) => return Err(e),
    }
    let broadcast_rate = pick_u32(args.network.broadcast_rate, file.network.broadcast_rate, DEFAULT_BROADCAST_RATE_HZ);
    if !is_strictly_positive(broadcast_rate) {
        return Err(AppConfigError::InvalidBroadcastRate { value: broadcast_rate });
    }
    Ok(ResolvedLayers { input, midi_input, vocoder_config, broadcast_rate, analyse_channels })
}

/// Completes a configuration from its resolved layers and outputs, which
/// must not be empty.
fn complete_config(layers: ResolvedLayers, outputs: Vec<OutputConfig>, controller_mode: ControllerMode) -> (config: Result<AppConfig, AppConfigError>)
    ensures
        match config {
            Ok(c) => {
                &&& outputs@.len() > 0
                &&& c.outputs.view() == outputs@
                &&& c.input == layers.input
                &&& c.midi_input == layers.midi_input
                &&& c.vocoder_config == layers.vocoder_config
                &&& c.broadcast_rate == Some(layers.broadcast_rate)
                &&& c.analyse_channels == layers.analyse_channels
                &&& c.controller_mode == controller_mode
            },
            Err(e) => outputs@.len() == 0 && e == AppConfigError::NoOutputConfigured,
        },
{
    let outputs = match ConfigOutputs::new(outputs) {
        Ok(outputs) => outputs,
        Err(e) => return Err(e),
    };
    Ok(AppConfig {
        outputs,
        input: layers.input,
        midi_input: layers.midi_input,
        vocoder_config: layers.vocoder_config,
        broadcast_rate: Some(layers.broadcast_rate),
        analyse_channels: layers.analyse_channels,
        controller_mode,
    })
}

/// Merges the command line, the configuration file and the defaults, the
/// command line winning over the file and the file over the defaults, and
/// validates the result. `tick_interval_ok` tells whether the machine can
/// represent the tick interval of the test clock the command line asks for;
/// it is read only when one is asked for.
pub fn resolve_config(args: &Args, file: FileConfig, tick_interval_ok: bool) -> (config: Result<AppConfig, AppConfigError>)
    ensures
        match config {
            Ok(config) => spec_resolve_error(*args, file, tick_interval_ok) is None && spec_resolved(*args, file, config),
            Err(e) => spec_resolve_error(*args, file, tick_interval_ok) == Some(e),
        },
{
    let layers = match resolve_layers(args, &file, tick_interval_ok) {
        Ok(layers) => layers,
        Err(e) => return Err(e),
    };
    let ws_addr = match args.network.ws_addr {
        Some(a) => Some(a),
        None => file.network.ws_addr,
    };
    let max_clients = match args.network.max_clients {
        Some(m) => m,
        None => match file.network.max_clients {
            Some(m) => m,
            None => DEFAULT_MAX_CLIENTS,
        },
    };
    let no_browser_origin = args.network.no_browser_origin;
    let osc_addr = match args.network.osc_addr {
        Some(a) => Some(a),
        None => file.network.osc_addr,
    };
    let mut outputs: Vec<OutputConfig> = Vec::new();
    match ws_addr {
        Some(addr) => {
            match validate_bind_addr(addr) {
                Ok(()) => {},
                Err(e) => return Err(e),
            }
            match validate_max_clients(max_clients) {
                Ok(()) => {},
                Err(e) => return Err(e),
            }
            outputs.push(OutputConfig::WebSocket { addr, max_clients, no_browser_origin });
        },
        None => {},
    }
    match osc_addr {
        Some(addr) => outputs.push(OutputConfig::Osc { addr }),
        None => {},
    }
    assert(outputs@ =~= spec_outputs(*args, file));
    complete_config(layers, outputs, args.runtime.controller_mode)
}

/// The first error resolution with given outputs reports: those of the
/// layers, then a missing output.
pub open spec fn spec_resolve_with_outputs_error(args: Args, file: FileConfig, outputs: Seq<OutputConfig>, tick_interval_ok: bool) -> Option<AppConfigError> {
    if spec_layers_error(args, file, tick_interval_ok) is Some {
        spec_layers_error(args, file, tick_interval_ok)
    } else if outputs.len() == 0 {
        Some(AppConfigError::NoOutputConfigured)
    } else {
        None
    }
}

/// Whether `config` is what resolving `args` and `file` with the given
/// outputs gives.
pub open spec fn spec_resolves_with_outputs(
    args: Args,
    file: FileConfig,
    outputs: Seq<OutputConfig>,
    tick_interval_ok: bool,
    config: Result<AppConfig, AppConfigError>,
) -> bool {
    match config {
        Ok(c) => {
            &&& spec_resolve_with_outputs_error(args, file, outputs, tick_interval_ok) is None
            &&& c.outputs.view() == outputs
            &&& spec_resolved_layers(args, file, c)
        },
        Err(e) => spec_resolve_with_outputs_error(args, file, outputs, tick_interval_ok) == Some(e),
    }
}

/// Resolves the layers as [`resolve_config`] does, but with the given
/// outputs in place of those the network options name, whose checks are
/// then skipped.
pub fn resolve_with_outputs(args: &Args, file: FileConfig, outputs: Vec<OutputConfig>, tick_interval_ok: bool) -> (config: Result<AppConfig, AppConfigError>)
    ensures
        spec_resolves_with_outputs(*args, file, outputs@, tick_interval_ok, config),
{
    let layers = match resolve_layers(args, &file, tick_interval_ok) {
        Ok(layers) => layers,
        Err(e) => return Err(e),
    };
    complete_config(layers, outputs, args.runtime.controller_mode)
}

/// Each layer wins over the ones below it: a value given on the command
/// line is used whatever the file says, a value only the file gives is
/// used, and the default applies only when neither gives one.
pub proof fn law_command_line_overrides_file(args: Args, file: FileConfig)
    ensures
        args.vocoder.attack_ms matches Some(v) ==> spec_vocoder_config(args, file).attack_ms == v,
        args.vocoder.attack_ms is None ==> (file.vocoder.attack_ms matches Some(v) ==> spec_vocoder_config(args, file).attack_ms == v),
        args.vocoder.attack_ms is None && file.vocoder.attack_ms is None ==> spec_vocoder_config(args, file).attack_ms == DEFAULT_ATTACK_MS,
        args.network.broadcast_rate matches Some(r) ==> spec_broadcast_rate(args, file) == r,
        args.network.max_clients matches Some(m) ==> spec_max_clients(args, file) == m,
        args.network.max_clients is None && file.network.max_clients is None ==> spec_max_clients(args, file) == DEFAULT_MAX_CLIENTS,
        args.network.ws_addr is Some ==> spec_ws_addr(args, file) == args.network.ws_addr,
        args.input.analyse_channels matches Some(c) ==> spec_raw_channels(args, file) == Some(c@),
        args.midi.midi_test_bpm matches Some(bpm) ==> spec_midi_input(args, file) == Some(ConfigMidiInput::TestClock(bpm)),
{
}

/// Each value of a resolved configuration comes from the highest layer
/// that gives one: the command line, else the configuration file, else the
/// default. This holds of every vocoder field, the broadcast rate, the
/// WebSocket address and client limit, the OSC target, and, outside
/// calibration mode, the input device (which is never blank) and the
/// channel selection (kept in its normal form): a value given on
/// the command line is the resolved one whatever the file says, and the
/// file's is used only when the command line gives none. An OSC target or a
/// WebSocket address that no layer names gives no output of that kind.
pub proof fn law_every_layer_yields_to_the_command_line(args: Args, file: FileConfig, config: AppConfig)
    requires
        spec_resolved(args, file, config),
    ensures
        config.vocoder_config.attack_ms == match args.vocoder.attack_ms {
            Some(v) => v,
            None => match file.vocoder.attack_ms { Some(v) => v, None => DEFAULT_ATTACK_MS },
        },
        config.vocoder_config.release_ms == match args.vocoder.release_ms {
            Some(v) => v,
            None => match file.vocoder.release_ms { Some(v) => v, None => DEFAULT_RELEASE_MS },
        },
        config.vocoder_config.freq_low == match args.vocoder.freq_low {
            Some(v) => v,
            None => match file.vocoder.freq_low { Some(v) => v, None => DEFAULT_FREQ_LOW },
        },
        config.vocoder_config.freq_high == match args.vocoder.freq_high {
            Some(v) => v,
            None => match file.vocoder.freq_high { Some(v) => v, None => DEFAULT_FREQ_HIGH },
        },
        config.vocoder_config.filter_q == match args.vocoder.filter_q {
            Some(v) => v,
            None => match file.vocoder.filter_q { Some(v) => v, None => DEFAULT_FILTER_Q },
        },
        config.broadcast_rate == Some(match args.network.broadcast_rate {
            Some(v) => v,
            None => match file.network.broadcast_rate { Some(v) => v, None => DEFAULT_BROADCAST_RATE_HZ },
        }),
        forall|i: int| 0 <= i < config.outputs.view().len() ==> match #[trigger] config.outputs.view()[i] {
            OutputConfig::Osc { addr } => args.network.osc_addr == Some(addr)
                || (args.network.osc_addr is None && file.network.osc_addr == Some(addr)),
            OutputConfig::WebSocket { addr, max_clients, no_browser_origin } => {
                &&& (args.network.ws_addr == Some(addr)
                    || (args.network.ws_addr is None && file.network.ws_addr == Some(addr)))
                &&& max_clients == match args.network.max_clients {
                    Some(m) => m,
                    None => match file.network.max_clients { Some(m) => m, None => DEFAULT_MAX_CLIENTS },
                }
                &&& no_browser_origin == args.network.no_browser_origin
            },
            OutputConfig::FrameRegion => false,
        },
        args.network.osc_addr matches Some(a) ==> config.outputs.view().contains(OutputConfig::Osc { addr: a }),
        args.network.osc_addr is None ==> (file.network.osc_addr matches Some(a)
            ==> config.outputs.view().contains(OutputConfig::Osc { addr: a })),
        args.network.osc_addr is None && file.network.osc_addr is None ==> forall|i: int|
            0 <= i < config.outputs.view().len() ==> !(#[trigger] config.outputs.view()[i] is Osc),
        args.network.ws_addr matches Some(a) ==> exists|i: int|
            0 <= i < config.outputs.view().len() && (#[trigger] config.outputs.view()[i] matches OutputConfig::WebSocket { addr, .. } && addr == a),
        args.network.ws_addr is None && file.network.ws_addr is None ==> forall|i: int|
            0 <= i < config.outputs.view().len() ==> !(#[trigger] config.outputs.view()[i] is WebSocket),
        args.calibration.test_sweep is None && args.calibration.test_hz is None ==> match args.input.device {
            Some(n) => config.input == ConfigInput::Device(n) && !spec_is_blank(n@),
            None => file.audio.device_name_match matches Some(n) && config.input == ConfigInput::Device(n)
                && !spec_is_blank(n@),
        },
        args.calibration.test_sweep is None && args.calibration.test_hz is None ==> match args.input.analyse_channels {
            Some(c) => config.analyse_channels matches Some(k) && spec_normalised(c@, k@),
            None => match file.audio.analyse_channels {
                Some(c) => config.analyse_channels matches Some(k) && spec_normalised(c@, k@),
                None => config.analyse_channels is None,
            },
        },
{
    let outs = config.outputs.view();
    assert(outs == spec_outputs(args, file));
    match spec_ws_addr(args, file) {
        Some(a) => {
            let ws = seq![OutputConfig::WebSocket {
                addr: a,
                max_clients: spec_max_clients(args, file),
                no_browser_origin: args.network.no_browser_origin,
            }];
            assert(outs[0] == ws[0]);
            match spec_osc_addr(args, file) {
                Some(o) => {
                    assert(outs.len() == 2 && outs[1] == OutputConfig::Osc { addr: o });
                },
                None => {
                    assert(outs.len() == 1);
                },
            }
        },
        None => {
            match spec_osc_addr(args, file) {
                Some(o) => {
                    assert(outs.len() == 1 && outs[0] == OutputConfig::Osc { addr: o });
                },
                None => {
                    assert(outs.len() == 0);
                },
            }
        },
    }
}

/// MIDI stays off until a device or a test clock is named: a resolved
/// configuration has no MIDI input exactly when the command line names no
/// test clock and the device name that wins (the command line's, else the
/// file's) is absent or blank.
pub proof fn law_midi_off_until_named(args: Args, file: FileConfig, config: AppConfig)
    requires
        spec_resolved(args, file, config),
    ensures
        config.midi_input is None <==> {
            &&& args.midi.midi_test_bpm is None
            &&& args.midi.midi_device matches Some(n) ==> spec_is_blank(n@)
            &&& args.midi.midi_device is None ==> (file.midi.device_name_match matches Some(n) ==> spec_is_blank(n@))
        },
{
}

} // verus!
