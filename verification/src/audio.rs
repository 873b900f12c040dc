//! Audio stream sizing, channel selection and device resolution.
//!
//! [`Specs`] carries the stream channel count and sample rate used to size
//! buffers. [`ChannelMode`] says which hardware channels reach the
//! analyser, and [`StreamSink`] decides, for each block of samples the
//! hardware delivers, which whole frames are forwarded and whether any frame
//! was dropped. Device resolution picks one input device by name and never
//! falls back to the system default.

use crate::names::{find_device_index, is_blank, lemma_device_match_in_range, spec_device_match, spec_is_blank};
use crate::text::{concat, decimal, spec_decimal};
use vstd::prelude::*;

verus! {

/// Typed device-resolution failures. Each names the fix and points at
/// `--audio-list`.
#[derive(Debug, Clone, PartialEq, Eq)]
pub enum DeviceError {
    /// The device query was empty or whitespace-only.
    EmptyQuery,
    /// No device matched the query, exactly or as a substring.
    NoMatch { query: String },
    /// The device's input configuration does not report `F32`.
    UnsupportedFormat { format: String },
    /// The running hardware stream reported an error.
    HardwareStreamError { message: String },
}

/// Stream channel count and sample rate used for buffer sizing.
#[derive(Debug, Clone, Copy, PartialEq, Eq)]
pub struct Specs {
    /// Number of interleaved channels at this pipeline stage.
    pub channels: u16,
    /// Hardware sample rate in Hz.
    pub sample_rate: u32,
}

/// Samples, across every channel, that cover `ms` milliseconds of a
/// stream, rounded down.
pub open spec fn spec_samples_for_ms(sample_rate: int, channels: int, ms: int) -> int {
    (sample_rate * channels * ms) / 1000
}

/// `n` rounded up to a multiple of `unit`.
pub open spec fn spec_round_up(n: int, unit: int) -> int {
    ((n + unit - 1) / unit) * unit
}

impl Specs {
    /// Returns the number of samples needed to cover `ms` milliseconds,
    /// across all channels, at the configured stream sample rate. The
    /// product is formed before the division, so no fraction of a sample is
    /// lost before the final rounding down.
    pub fn samples_for_ms(&self, ms: u32) -> (samples: usize)
        requires
            self.sample_rate * self.channels * ms <= usize::MAX,
        ensures
            samples == spec_samples_for_ms(self.sample_rate as int, self.channels as int, ms as int),
    {
        if ms == 0 {
            return 0;
        }
        let rate = self.sample_rate as usize;
        let channels = self.channels as usize;
        let duration = ms as usize;
        assert(rate * channels <= rate * channels * duration) by (nonlinear_arith)
            requires
                rate * channels >= 0,
                duration >= 1,
        ;
        let per_second = rate * channels;
        (per_second * duration) / 1000
    }

    /// Like [`Specs::samples_for_ms`], rounded up to a whole frame multiple,
    /// so a buffer of this length holds whole frames only.
    pub fn frame_aligned_samples_for_ms(&self, ms: u32) -> (samples: usize)
        requires
            self.channels > 0,
            spec_samples_for_ms(self.sample_rate as int, self.channels as int, ms as int) + self.channels <= usize::MAX,
            self.sample_rate * self.channels * ms <= usize::MAX,
        ensures
            samples == spec_round_up(spec_samples_for_ms(self.sample_rate as int, self.channels as int, ms as int), self.channels as int),
            (samples as int) % (self.channels as int) == 0,
            samples >= spec_samples_for_ms(self.sample_rate as int, self.channels as int, ms as int),
            samples < spec_samples_for_ms(self.sample_rate as int, self.channels as int, ms as int) + self.channels,
    {
        let channels = self.channels as usize;
        let samples = self.samples_for_ms(ms);
        let frames = (samples + channels - 1) / channels;
        proof {
            lemma_round_up(samples as int, channels as int);
        }
        frames * channels
    }
}

proof fn lemma_round_up(n: int, unit: int)
    requires
        n >= 0,
        unit > 0,
    ensures
        spec_round_up(n, unit) % unit == 0,
        n <= spec_round_up(n, unit) < n + unit,
{
    let q = (n + unit - 1) / unit;
    assert(n + unit - 1 == q * unit + (n + unit - 1) % unit) by (nonlinear_arith)
        requires
            unit > 0,
            q == (n + unit - 1) / unit,
    ;
    assert((q * unit) % unit == 0) by (nonlinear_arith)
        requires
            unit > 0,
    ;
}

/// Whether `n` is a power of two.
pub open spec fn spec_is_power_of_two(n: int) -> bool
    decreases n,
{
    if n <= 0 {
        false
    } else if n == 1 {
        true
    } else {
        n % 2 == 0 && spec_is_power_of_two(n / 2)
    }
}

/// The smallest power of two at or above `n` (one for zero).
pub fn next_power_of_two(n: usize) -> (p: usize)
    requires
        n <= usize::MAX / 2 + 1,
    ensures
        spec_is_power_of_two(p as int),
        p >= n,
        p == 1 || p / 2 < n,
{
    let mut p: usize = 1;
    while p < n
        invariant
            spec_is_power_of_two(p as int),
            n <= usize::MAX / 2 + 1,
            p == 1 || p / 2 < n,
        decreases usize::MAX - p,
    {
        assert(spec_is_power_of_two((p * 2) as int)) by {
            assert((p * 2) as int / 2 == p);
        }
        p = p * 2;
    }
    p
}

/// The capacity of the buffer that holds about `buffer_ms` milliseconds of
/// interleaved audio at `specs`: the sample count rounded up to the next
/// power of two, so it holds at least `buffer_ms` and usually more.
pub fn audio_buffer_capacity(specs: Specs, buffer_ms: u32) -> (capacity: usize)
    requires
        buffer_ms > 0,
        specs.sample_rate * specs.channels * buffer_ms <= usize::MAX,
        spec_samples_for_ms(specs.sample_rate as int, specs.channels as int, buffer_ms as int) <= usize::MAX / 2 + 1,
    ensures
        spec_is_power_of_two(capacity as int),
        capacity >= spec_samples_for_ms(specs.sample_rate as int, specs.channels as int, buffer_ms as int),
        capacity == 1 || capacity / 2 < spec_samples_for_ms(specs.sample_rate as int, specs.channels as int, buffer_ms as int),
{
    next_power_of_two(specs.samples_for_ms(buffer_ms))
}

/// Describes which channels to extract from the hardware interleaved stream.
#[derive(Debug, Clone, PartialEq, Eq)]
pub enum ChannelMode {
    /// Forward every hardware channel.
    All,
    /// Forward only the listed zero-based hardware channel indices, sorted
    /// and deduplicated.
    Selected(Vec<u16>),
}

impl ChannelMode {
    /// Resolves the mode for `selection` and sets `specs.channels` to the
    /// channel count the analyser receives, which for a selection is the
    /// selection's length (kept to 16 bits, as the channel field is).
    pub fn resolve(selection: Option<Vec<u16>>, specs: &mut Specs) -> (mode: ChannelMode)
        ensures
            match selection {
                Some(indices) => {
                    &&& mode == ChannelMode::Selected(indices)
                    &&& final(specs).channels == indices@.len() % 0x1_0000
                    &&& final(specs).sample_rate == old(specs).sample_rate
                },
                None => mode == ChannelMode::All && *final(specs) == *old(specs),
            },
    {
        match selection {
            Some(indices) => {
                let count = indices.len();
                specs.channels = (count % 0x1_0000) as u16;
                ChannelMode::Selected(indices)
            },
            None => ChannelMode::All,
        }
    }
}

/// `n` rounded down to a multiple of `unit`.
pub open spec fn spec_round_down(n: int, unit: int) -> int {
    (n / unit) * unit
}

/// How the whole-stream path forwards a block: the number of leading
/// samples pushed and whether any frame was dropped.
#[derive(Debug, Clone, Copy, PartialEq, Eq)]
pub struct BlockPlan {
    pub push: usize,
    pub dropped: bool,
}

/// Plans the forwarding of a block of `len` interleaved samples when every
/// hardware channel is forwarded and `vacant` samples of room remain: both
/// the block and the room are truncated to whole frames, the smaller of the
/// two is pushed, and a frame is dropped exactly when the block held more
/// whole frames than fit.
pub fn plan_all_channels(len: usize, hw_channels: usize, vacant: usize) -> (plan: BlockPlan)
    requires
        hw_channels > 0,
    ensures
        plan.push == if spec_round_down(len as int, hw_channels as int) <= spec_round_down(vacant as int, hw_channels as int) {
            spec_round_down(len as int, hw_channels as int)
        } else {
            spec_round_down(vacant as int, hw_channels as int)
        },
        plan.dropped == (plan.push < spec_round_down(len as int, hw_channels as int)),
        (plan.push as int) % (hw_channels as int) == 0,
        plan.push <= len,
        plan.push <= vacant,
{
    proof {
        lemma_round_down(len as int, hw_channels as int);
        lemma_round_down(vacant as int, hw_channels as int);
    }
    let whole = len / hw_channels * hw_channels;
    let writable = vacant / hw_channels * hw_channels;
    let push = if whole <= writable {
        whole
    } else {
        writable
    };
    BlockPlan { push, dropped: push < whole }
}

proof fn lemma_round_down(n: int, unit: int)
    requires
        n >= 0,
        unit > 0,
    ensures
        0 <= spec_round_down(n, unit) <= n,
        spec_round_down(n, unit) % unit == 0,
{
    assert(n == (n / unit) * unit + n % unit) by (nonlinear_arith)
        requires
            unit > 0,
    ;
    assert(((n / unit) * unit) % unit == 0) by (nonlinear_arith)
        requires
            unit > 0,
    ;
    assert((n / unit) * unit >= 0) by (nonlinear_arith)
        requires
            unit > 0,
            n >= 0,
    ;
}

/// The selected samples of one frame, in selection order.
pub open spec fn spec_select<T>(frame: Seq<T>, indices: Seq<u16>) -> Seq<T> {
    Seq::new(indices.len(), |k: int| frame[indices[k] as int])
}

/// The samples of `frame` at `indices`, in the order the indices are
/// listed.
pub fn select_samples<T: Copy>(frame: &[T], indices: &[u16]) -> (selected: Vec<T>)
    requires
        forall|k: int| 0 <= k < indices@.len() ==> (#[trigger] indices@[k] as int) < frame@.len(),
    ensures
        selected@ == spec_select(frame@, indices@),
{
    let mut selected: Vec<T> = Vec::new();
    let mut k: usize = 0;
    while k < indices.len()
        invariant
            k <= indices@.len(),
            forall|j: int| 0 <= j < indices@.len() ==> (#[trigger] indices@[j] as int) < frame@.len(),
            selected@ =~= spec_select(frame@, indices@.subrange(0, k as int)),
        decreases indices@.len() - k,
    {
        let index = indices[k] as usize;
        selected.push(frame[index]);
        k = k + 1;
        assert(selected@ =~= spec_select(frame@, indices@.subrange(0, k as int)));
    }
    assert(indices@.subrange(0, indices@.len() as int) =~= indices@);
    selected
}

/// Whether a frame of `per_frame` selected samples fits in `vacant`
/// samples of room. A frame is pushed whole or not at all.
pub fn frame_fits(vacant: usize, per_frame: usize) -> (fits: bool)
    ensures
        fits == (vacant >= per_frame),
{
    vacant >= per_frame
}

/// Picks the input device `name_query` names among the devices whose names
/// are `names`: the first whose name equals the query, else the first whose
/// lower-cased name contains the lower-cased query. There is no fallback to
/// the system default input.
pub fn select_input_device(names: &Vec<Option<String>>, name_query: &str) -> (selected: Result<usize, DeviceError>)
    ensures
        match selected {
            Ok(i) => !spec_is_blank(name_query@) && spec_device_match(names@, name_query@) == Some(i as int) && i < names@.len(),
            Err(DeviceError::EmptyQuery) => spec_is_blank(name_query@),
            Err(DeviceError::NoMatch { query }) => {
                &&& !spec_is_blank(name_query@)
                &&& spec_device_match(names@, name_query@) is None
                &&& query@ == name_query@
            },
            Err(_) => false,
        },
{
    if is_blank(name_query) {
        return Err(DeviceError::EmptyQuery);
    }
    proof {
        lemma_device_match_in_range(names@, name_query@);
    }
    match find_device_index(names, name_query) {
        Some(i) => Ok(i),
        None => Err(DeviceError::NoMatch { query: String::from_str(name_query) }),
    }
}

/// One enumerated audio input device.
#[derive(Debug, Clone, PartialEq, Eq)]
pub struct DeviceInfo {
    /// Position in the host's input device enumeration.
    pub index: usize,
    /// Device name, or "Unknown Device" when it cannot be read.
    pub name: String,
    /// Hardware sample rate in Hz.
    pub sample_rate: Option<u32>,
    /// Hardware input channels.
    pub channels: Option<u16>,
    /// Sample format of the default input configuration, such as "F32".
    pub sample_format: Option<String>,
    /// Whether the default configuration is `f32`.
    pub supported: bool,
}

/// The listing's line when no device is present.
pub const NO_INPUT_DEVICES_LINE: &'static str = "[*] No input devices detected. Check system permissions";

/// The note on a device whose format the engine cannot use.
pub const UNSUPPORTED_NOTE: &'static str = "* No hardware support (32-bit required)";

/// A device's listing line, and whether it is a warning: a device whose
/// configuration was read shows its rate, channels, format and support
/// note; one whose configuration is unavailable says so, as a warning.
pub open spec fn spec_device_listing(entry: DeviceInfo) -> (Seq<char>, bool) {
    let head = "["@ + spec_decimal(entry.index as nat) + "] "@ + entry.name@;
    match (entry.sample_rate, entry.channels, entry.sample_format) {
        (Some(rate), Some(channels), Some(format)) => (
            head + " ("@ + spec_decimal(rate as nat) + "Hz, "@ + spec_decimal(channels as nat) + "ch, "@ + format@ + ") "@
                + if entry.supported { Seq::<char>::empty() } else { UNSUPPORTED_NOTE@ },
            false,
        ),
        _ => (head + " (Configuration unavailable)"@, true),
    }
}

fn append(s: String, tail: &str) -> (joined: String)
    ensures
        joined@ == s@ + tail@,
{
    concat(s.as_str(), tail)
}

/// A device's listing line, and whether it is a warning.
pub fn device_listing(entry: &DeviceInfo) -> (line: (String, bool))
    ensures
        (line.0@, line.1) == spec_device_listing(*entry),
{
    let mut head = append(String::from_str("["), decimal(entry.index as u64).as_str());
    head = append(head, "] ");
    head = append(head, entry.name.as_str());
    match (entry.sample_rate, entry.channels, &entry.sample_format) {
        (Some(rate), Some(channels), Some(format)) => {
            let mut line = append(head, " (");
            line = append(line, decimal(rate as u64).as_str());
            line = append(line, "Hz, ");
            line = append(line, decimal(channels as u64).as_str());
            line = append(line, "ch, ");
            line = append(line, format.as_str());
            line = append(line, ") ");
            if !entry.supported {
                line = append(line, UNSUPPORTED_NOTE);
            } else {
                proof {
                    assert(line@ + Seq::<char>::empty() =~= line@);
                }
            }
            (line, false)
        },
        _ => (append(head, " (Configuration unavailable)"), true),
    }
}

/// The lines of the text device listing, each with whether it is a
/// warning: one per device, or a single warning when there is none.
pub fn list_devices_text(entries: &[DeviceInfo]) -> (lines: Vec<(String, bool)>)
    ensures
        entries@.len() == 0 ==> lines@.len() == 1 && lines@[0].0@ == NO_INPUT_DEVICES_LINE@ && lines@[0].1,
        entries@.len() > 0 ==> lines@.len() == entries@.len()
            && forall|i: int| 0 <= i < entries@.len() ==>
                ((#[trigger] lines@[i]).0@, lines@[i].1) == spec_device_listing(entries@[i]),
{
    let mut lines: Vec<(String, bool)> = Vec::new();
    if entries.len() == 0 {
        lines.push((String::from_str(NO_INPUT_DEVICES_LINE), true));
        return lines;
    }
    let mut i: usize = 0;
    while i < entries.len()
        invariant
            i <= entries@.len(),
            lines@.len() == i,
            forall|k: int| 0 <= k < i ==> ((#[trigger] lines@[k]).0@, lines@[k].1) == spec_device_listing(entries@[k]),
        decreases entries@.len() - i,
    {
        lines.push(device_listing(&entries[i]));
        i = i + 1;
    }
    lines
}

} // verus!
