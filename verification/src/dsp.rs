//! Analysis payload types shared by the pipeline stages.
//!
//! Levels are carried as the IEEE 754 bit pattern of their `f32` value, so
//! every check the library makes on them (finiteness, copying, layout) is a
//! statement about integers.

use crate::midi::MidiSnapshot;
use vstd::prelude::*;

verus! {

/// Number of logarithmically spaced frequency bands analysed and broadcast.
pub const BAND_COUNT: usize = 32;

/// Number of vocoder bands, one envelope follower each.
pub const VOCODER_BANDS: usize = BAND_COUNT;

/// Number of analysis bins sent to clients for each channel.
pub const DISPLAY_BINS: usize = VOCODER_BANDS;

/// The exponent field of an IEEE 754 single precision value.
pub const F32_EXPONENT_MASK: u32 = 0x7f80_0000;

/// An `f32` bit pattern denotes a finite value exactly when its exponent
/// field is not all ones (all ones encodes the infinities and NaNs).
pub open spec fn spec_bits_are_finite(bits: u32) -> bool {
    bits & F32_EXPONENT_MASK != F32_EXPONENT_MASK
}

/// Whether the `f32` with bit pattern `bits` is finite.
pub fn bits_are_finite(bits: u32) -> (finite: bool)
    ensures
        finite == spec_bits_are_finite(bits),
{
    bits & F32_EXPONENT_MASK != F32_EXPONENT_MASK
}

/// One channel's analysis result: the peak followed by one envelope value
/// per band, each as the bit pattern of its `f32` value.
#[derive(Debug, Clone, Copy, PartialEq, Eq)]
pub struct ChannelLevel {
    pub peak: u32,
    pub bins: [u32; BAND_COUNT],
}

/// Whether the peak and every bin of `level` are finite.
pub open spec fn spec_level_is_finite(level: ChannelLevel) -> bool {
    &&& spec_bits_are_finite(level.peak)
    &&& forall|b: int| 0 <= b < BAND_COUNT ==> spec_bits_are_finite(#[trigger] level.bins@[b])
}

/// Whether every channel in `levels` is finite.
pub open spec fn spec_levels_are_finite(levels: Seq<ChannelLevel>) -> bool {
    forall|i: int| 0 <= i < levels.len() ==> spec_level_is_finite(#[trigger] levels[i])
}

impl ChannelLevel {
    /// A silent channel: zero peak and zero bins (`0.0` has bit pattern 0).
    pub fn zeroed() -> (level: ChannelLevel)
        ensures
            level.peak == 0,
            forall|b: int| 0 <= b < BAND_COUNT ==> #[trigger] level.bins@[b] == 0,
    {
        ChannelLevel { peak: 0, bins: [0u32; BAND_COUNT] }
    }

    /// Whether the peak and every bin are finite.
    pub fn is_finite(&self) -> (finite: bool)
        ensures
            finite == spec_level_is_finite(*self),
    {
        if !bits_are_finite(self.peak) {
            return false;
        }
        let mut b: usize = 0;
        while b < BAND_COUNT
            invariant
                b <= BAND_COUNT,
                forall|k: int| 0 <= k < b ==> spec_bits_are_finite(#[trigger] self.bins@[k]),
            decreases BAND_COUNT - b,
        {
            if !bits_are_finite(self.bins[b]) {
                return false;
            }
            b = b + 1;
        }
        true
    }
}

/// Whether every channel of `levels` is finite.
pub fn levels_are_finite(levels: &[ChannelLevel]) -> (finite: bool)
    ensures
        finite == spec_levels_are_finite(levels@),
{
    let mut i: usize = 0;
    while i < levels.len()
        invariant
            i <= levels.len(),
            forall|k: int| 0 <= k < i ==> spec_level_is_finite(#[trigger] levels@[k]),
        decreases levels.len() - i,
    {
        if !levels[i].is_finite() {
            return false;
        }
        i = i + 1;
    }
    true
}

/// One analysis snapshot: a level per analysed channel.
#[derive(Debug, Clone, PartialEq, Eq)]
pub struct RawPayload {
    pub channels: Vec<ChannelLevel>,
}

/// One display frame: a level per channel, and the MIDI snapshot when MIDI
/// input is configured.
#[derive(Debug, Clone, PartialEq, Eq)]
pub struct DisplayPayload {
    pub channels: Vec<ChannelLevel>,
    pub midi: Option<MidiSnapshot>,
}

/// `n` silent channels.
fn silent_channels(n: usize) -> (levels: Vec<ChannelLevel>)
    ensures
        levels@.len() == n,
        forall|i: int| 0 <= i < n ==> (#[trigger] levels@[i]).peak == 0
            && forall|b: int| 0 <= b < BAND_COUNT ==> #[trigger] levels@[i].bins@[b] == 0,
{
    let mut levels: Vec<ChannelLevel> = Vec::new();
    let mut i: usize = 0;
    while i < n
        invariant
            i <= n,
            levels@.len() == i,
            forall|k: int| 0 <= k < i ==> (#[trigger] levels@[k]).peak == 0
                && forall|b: int| 0 <= b < BAND_COUNT ==> #[trigger] levels@[k].bins@[b] == 0,
        decreases n - i,
    {
        levels.push(ChannelLevel::zeroed());
        i = i + 1;
    }
    levels
}

impl RawPayload {
    /// A snapshot of `channels` silent channels.
    pub fn new(channels: usize) -> (payload: RawPayload)
        ensures
            payload.channels@.len() == channels,
            forall|i: int| 0 <= i < channels ==> (#[trigger] payload.channels@[i]).peak == 0
                && forall|b: int| 0 <= b < BAND_COUNT ==> #[trigger] payload.channels@[i].bins@[b] == 0,
    {
        RawPayload { channels: silent_channels(channels) }
    }
}

impl DisplayPayload {
    /// A frame of `channels` silent channels and no MIDI snapshot.
    pub fn new(channels: usize) -> (payload: DisplayPayload)
        ensures
            payload.channels@.len() == channels,
            payload.midi is None,
            forall|i: int| 0 <= i < channels ==> (#[trigger] payload.channels@[i]).peak == 0
                && forall|b: int| 0 <= b < BAND_COUNT ==> #[trigger] payload.channels@[i].bins@[b] == 0,
    {
        DisplayPayload { channels: silent_channels(channels), midi: None }
    }
}

} // verus!
