//! The frame region of the `Phase4Engine` link contract, layout version 1.
//!
//! A frame region is a block of memory that one writer publishes every
//! analysis snapshot into under a sequence lock, and that readers copy the
//! latest frame out of. The region is modelled here as a sequence of
//! little-endian 32-bit words: every header field and every payload value
//! sits at a 4-byte aligned byte offset, and the two 64-bit fields (the
//! sequence and the publication time) occupy two consecutive words, low word
//! first.
//!
//! The writer makes the sequence odd before it touches the payload and even
//! again once the payload is complete. A reader accepts a frame only when the
//! sequence is non-zero and even, so it never returns a half written frame.

use crate::dsp::{
    levels_are_finite, spec_levels_are_finite, ChannelLevel, BAND_COUNT,
};
use vstd::prelude::*;

verus! {

/// The ASCII bytes at the start of every frame region.
pub const FRAME_MAGIC: [u8; 4] = [0x50, 0x34, 0x46, 0x52];

/// `FRAME_MAGIC` read as a little-endian 32-bit word.
pub const FRAME_MAGIC_WORD: u32 = 0x5246_3450;

/// The frame region layout version.
pub const FRAME_LAYOUT_VERSION: u32 = 1;

/// Bytes before the first channel record.
pub const FRAME_HEADER_BYTES: usize = 64;

/// Bytes in one 32-bit word of the region.
pub const WORD_BYTES: usize = 4;

/// Bytes in one channel record, the peak followed by every bin.
pub const CHANNEL_RECORD_BYTES: usize = 132;

/// Header field offsets in bytes.
pub const OFFSET_MAGIC: usize = 0;
pub const OFFSET_LAYOUT_VERSION: usize = 4;
pub const OFFSET_SEQUENCE: usize = 8;
pub const OFFSET_PUBLISHED_NS: usize = 16;
pub const OFFSET_CHANNEL_COUNT: usize = 24;
pub const OFFSET_BAND_COUNT: usize = 28;
pub const OFFSET_SAMPLE_RATE: usize = 32;
pub const OFFSET_MIDI_FLAGS: usize = 36;
pub const OFFSET_MIDI_STEPS: usize = 40;
pub const OFFSET_MIDI_TRANSPORT_COUNT: usize = 44;
pub const OFFSET_MIDI_TRANSPORT_LAST: usize = 48;

/// The peak's offset within a channel record.
pub const RECORD_PEAK_OFFSET: usize = 0;

/// The first bin's offset within a channel record.
pub const RECORD_BINS_OFFSET: usize = 4;

/// The band count as the header stores it.
pub const HEADER_BAND_COUNT: u32 = 32;

/// Bit 0 of `midi_flags`, set when MIDI input is configured.
pub const MIDI_FLAG_CONFIGURED: u32 = 1;

/// Read attempts a reader makes before it keeps its previous frame.
pub const READ_ATTEMPTS: usize = 3;

/// Words before the first channel record.
pub const HEADER_WORDS: usize = 16;

/// Words in one channel record.
pub const RECORD_WORDS: usize = 33;

/// Word indices of the header fields.
pub const WORD_MAGIC: usize = 0;
pub const WORD_LAYOUT_VERSION: usize = 1;
pub const WORD_SEQUENCE_LOW: usize = 2;
pub const WORD_SEQUENCE_HIGH: usize = 3;
pub const WORD_PUBLISHED_NS_LOW: usize = 4;
pub const WORD_PUBLISHED_NS_HIGH: usize = 5;
pub const WORD_CHANNEL_COUNT: usize = 6;
pub const WORD_BAND_COUNT: usize = 7;
pub const WORD_SAMPLE_RATE: usize = 8;
pub const WORD_MIDI_FLAGS: usize = 9;
pub const WORD_MIDI_STEPS: usize = 10;
pub const WORD_MIDI_TRANSPORT_COUNT: usize = 11;
pub const WORD_MIDI_TRANSPORT_LAST: usize = 12;

/// 2^32, the weight of the high word of a 64-bit field.
pub const HIGH_WORD_WEIGHT: u64 = 0x1_0000_0000;

/// The MIDI state carried by one frame.
#[derive(Debug, Clone, Copy, PartialEq, Eq, Default)]
pub struct FrameMidi {
    /// MIDI 1/16 note steps since the last Start, wrapping at 2^32.
    pub steps: u32,
    /// Start, Stop and Continue events received, wrapping at 2^32.
    pub transport_count: u32,
    /// The most recent transport event, 0 none, 1 Start, 2 Stop, 3 Continue.
    pub transport_last: u32,
}

/// The fields a region's creator writes once.
#[derive(Debug, Clone, Copy, PartialEq, Eq)]
pub struct FrameHeader {
    pub layout_version: u32,
    pub channel_count: u32,
    pub band_count: u32,
    pub sample_rate: u32,
    pub midi_flags: u32,
}

/// One frame copied out of a region by the sequence lock reader.
#[derive(Debug, Clone, PartialEq, Eq)]
pub struct Frame {
    pub sequence: u64,
    pub published_ns: u64,
    pub midi: FrameMidi,
    pub channels: Vec<ChannelLevel>,
}

/// Why a region could not be created.
#[derive(Debug, Clone, Copy, PartialEq, Eq)]
pub enum FrameRegionError {
    /// The channel count does not fit the 32-bit header field.
    ChannelCountTooLarge,
    /// The page size is zero or not a multiple of 8 bytes.
    InvalidPageSize,
    /// The page aligned region length does not fit the address space.
    RegionTooLarge,
}

// ---------------------------------------------------------------------------
// The layout as mathematics.
// ---------------------------------------------------------------------------

/// Bytes the layout uses for `channel_count` channels.
pub open spec fn spec_frame_bytes(channel_count: int) -> int {
    FRAME_HEADER_BYTES + channel_count * CHANNEL_RECORD_BYTES
}

/// The word holding channel `index`'s peak.
pub open spec fn peak_word(index: int) -> int {
    HEADER_WORDS + index * RECORD_WORDS
}

/// The word holding bin `band` of channel `index`.
pub open spec fn bin_word(index: int, band: int) -> int {
    HEADER_WORDS + index * RECORD_WORDS + 1 + band
}

/// The 64-bit value stored as `low` then `high`.
pub open spec fn spec_join_words(low: u32, high: u32) -> int {
    high * 0x1_0000_0000 + low
}

/// The sequence stored in `memory`.
pub open spec fn spec_sequence(memory: Seq<u32>) -> int {
    spec_join_words(memory[WORD_SEQUENCE_LOW as int], memory[WORD_SEQUENCE_HIGH as int])
}

/// The publication time stored in `memory`.
pub open spec fn spec_published_ns(memory: Seq<u32>) -> int {
    spec_join_words(memory[WORD_PUBLISHED_NS_LOW as int], memory[WORD_PUBLISHED_NS_HIGH as int])
}

/// The MIDI fields stored in `memory`.
pub open spec fn spec_midi(memory: Seq<u32>) -> FrameMidi {
    FrameMidi {
        steps: memory[WORD_MIDI_STEPS as int],
        transport_count: memory[WORD_MIDI_TRANSPORT_COUNT as int],
        transport_last: memory[WORD_MIDI_TRANSPORT_LAST as int],
    }
}

/// The header of a region of `len` bytes whose words are `memory`, or
/// `None` when `len` is shorter than the header or the magic does not match.
pub open spec fn spec_read_header(memory: Seq<u32>, len: int) -> Option<FrameHeader> {
    if len < FRAME_HEADER_BYTES || memory[WORD_MAGIC as int] != FRAME_MAGIC_WORD {
        None
    } else {
        Some(
            FrameHeader {
                layout_version: memory[WORD_LAYOUT_VERSION as int],
                channel_count: memory[WORD_CHANNEL_COUNT as int],
                band_count: memory[WORD_BAND_COUNT as int],
                sample_rate: memory[WORD_SAMPLE_RATE as int],
                midi_flags: memory[WORD_MIDI_FLAGS as int],
            },
        )
    }
}

/// Whether a reader finds a complete frame in a region of `len` bytes: the
/// header is valid for this layout, `len` covers every channel record, and
/// a frame has been published and is not being written.
pub open spec fn spec_frame_available(memory: Seq<u32>, len: int) -> bool {
    match spec_read_header(memory, len) {
        None => false,
        Some(header) => {
            &&& header.layout_version == FRAME_LAYOUT_VERSION
            &&& header.band_count == HEADER_BAND_COUNT
            &&& len >= spec_frame_bytes(header.channel_count as int)
            &&& spec_sequence(memory) != 0
            &&& spec_sequence(memory) % 2 == 0
        },
    }
}

/// Whether `level` is what the record of channel `index` holds.
pub open spec fn spec_record_holds(memory: Seq<u32>, index: int, level: ChannelLevel) -> bool {
    &&& level.peak == memory[peak_word(index)]
    &&& forall|b: int| 0 <= b < BAND_COUNT ==> #[trigger] level.bins@[b] == memory[bin_word(index, b)]
}

/// Whether `frame` is the frame a reader copies out of `memory`.
pub open spec fn spec_frame_holds(memory: Seq<u32>, frame: Frame) -> bool {
    &&& frame.sequence == spec_sequence(memory)
    &&& frame.published_ns == spec_published_ns(memory)
    &&& frame.midi == spec_midi(memory)
    &&& frame.channels@.len() == memory[WORD_CHANNEL_COUNT as int]
    &&& forall|i: int|
        0 <= i < frame.channels@.len() ==> spec_record_holds(memory, i, #[trigger] frame.channels@[i])
}

/// Every header word other than the sequence, the publication time and the
/// MIDI fields is the same in `before` and `after`.
pub open spec fn spec_header_kept(before: Seq<u32>, after: Seq<u32>) -> bool {
    forall|k: int|
        0 <= k < HEADER_WORDS && k != WORD_SEQUENCE_LOW && k != WORD_SEQUENCE_HIGH && k
            != WORD_PUBLISHED_NS_LOW && k != WORD_PUBLISHED_NS_HIGH && k != WORD_MIDI_STEPS && k
            != WORD_MIDI_TRANSPORT_COUNT && k != WORD_MIDI_TRANSPORT_LAST ==> #[trigger] after[k]
            == before[k]
}

/// What one publication leaves in memory: the header fields written once
/// are kept, the sequence advanced by two (wrapping at 2^64), and the
/// publication time, the MIDI fields and every channel record hold the new
/// values.
pub open spec fn spec_published(
    before: Seq<u32>,
    after: Seq<u32>,
    channels: Seq<ChannelLevel>,
    midi: FrameMidi,
    published_ns: u64,
) -> bool {
    &&& after.len() == before.len()
    &&& spec_header_kept(before, after)
    &&& spec_sequence(after) == (spec_sequence(before) + 2) % 0x1_0000_0000_0000_0000
    &&& spec_published_ns(after) == published_ns
    &&& spec_midi(after) == midi
    &&& forall|i: int| 0 <= i < channels.len() ==> spec_record_holds(after, i, #[trigger] channels[i])
}

/// The page aligned length of a region of `frame_bytes` bytes.
pub open spec fn spec_mapped_len(frame_bytes: int, page_size: int) -> int {
    let pages = frame_bytes / page_size + if frame_bytes % page_size == 0 { 0int } else { 1int };
    pages * page_size
}

// ---------------------------------------------------------------------------
// Layout arithmetic.
// ---------------------------------------------------------------------------

/// Bytes the layout uses for `channel_count` channels.
pub fn frame_bytes(channel_count: usize) -> (bytes: usize)
    requires
        spec_frame_bytes(channel_count as int) <= usize::MAX,
    ensures
        bytes == spec_frame_bytes(channel_count as int),
{
    FRAME_HEADER_BYTES + channel_count * CHANNEL_RECORD_BYTES
}

/// The byte offset of channel `index`'s record.
pub fn record_offset(index: usize) -> (offset: usize)
    requires
        spec_frame_bytes(index as int) <= usize::MAX,
    ensures
        offset == spec_frame_bytes(index as int),
        offset == peak_word(index as int) * WORD_BYTES,
{
    FRAME_HEADER_BYTES + index * CHANNEL_RECORD_BYTES
}

/// The two words, low first, that store `value`.
fn split_words(value: u64) -> (words: (u32, u32))
    ensures
        spec_join_words(words.0, words.1) == value,
{
    let low = (value % HIGH_WORD_WEIGHT) as u32;
    let high = (value / HIGH_WORD_WEIGHT) as u32;
    (low, high)
}

/// The 64-bit value stored as `low` then `high`.
fn join_words(low: u32, high: u32) -> (value: u64)
    ensures
        value == spec_join_words(low, high),
{
    (high as u64) * HIGH_WORD_WEIGHT + (low as u64)
}

/// The page aligned length of a region of `frame_bytes` bytes, or `None`
/// when it does not fit the address space.
fn page_aligned_len(frame_bytes: usize, page_size: usize) -> (len: Option<usize>)
    requires
        page_size > 0,
    ensures
        match len {
            Some(n) => n == spec_mapped_len(frame_bytes as int, page_size as int),
            None => spec_mapped_len(frame_bytes as int, page_size as int) > usize::MAX,
        },
{
    let pages = if frame_bytes % page_size == 0 {
        frame_bytes / page_size
    } else {
        assert(frame_bytes / page_size < usize::MAX) by (nonlinear_arith)
            requires
                page_size > 0,
                frame_bytes % page_size != 0,
                frame_bytes <= usize::MAX,
        ;
        frame_bytes / page_size + 1
    };
    pages.checked_mul(page_size)
}

proof fn lemma_mapped_len_bounds(frame_bytes: int, page_size: int)
    requires
        frame_bytes >= 0,
        page_size > 0,
        page_size % 8 == 0,
    ensures
        spec_mapped_len(frame_bytes, page_size) >= frame_bytes,
        spec_mapped_len(frame_bytes, page_size) < frame_bytes + page_size,
        spec_mapped_len(frame_bytes, page_size) % page_size == 0,
        spec_mapped_len(frame_bytes, page_size) % 8 == 0,
{
    let pages = frame_bytes / page_size + if frame_bytes % page_size == 0 { 0int } else { 1int };
    assert(frame_bytes == (frame_bytes / page_size) * page_size + frame_bytes % page_size)
        by (nonlinear_arith)
        requires
            page_size > 0,
    ;
    assert(pages * page_size >= frame_bytes) by (nonlinear_arith)
        requires
            pages == frame_bytes / page_size + if frame_bytes % page_size == 0 { 0int } else { 1int },
            frame_bytes == (frame_bytes / page_size) * page_size + frame_bytes % page_size,
            0 <= frame_bytes % page_size < page_size,
            page_size > 0,
    ;
    assert(pages * page_size < frame_bytes + page_size) by (nonlinear_arith)
        requires
            pages == frame_bytes / page_size + if frame_bytes % page_size == 0 { 0int } else { 1int },
            frame_bytes == (frame_bytes / page_size) * page_size + frame_bytes % page_size,
            0 <= frame_bytes % page_size < page_size,
            page_size > 0,
    ;
    assert((pages * page_size) % page_size == 0) by (nonlinear_arith)
        requires
            page_size > 0,
            pages >= 0,
    ;
    let eighths = page_size / 8;
    assert(page_size == eighths * 8);
    assert(pages * page_size == (pages * eighths) * 8) by (nonlinear_arith)
        requires
            page_size == eighths * 8,
    ;
}

proof fn lemma_record_words_in_bounds(channel_count: int, len_words: int, index: int)
    requires
        spec_frame_bytes(channel_count) <= len_words * 4,
        0 <= index < channel_count,
    ensures
        peak_word(index) + RECORD_WORDS <= len_words,
        bin_word(index, BAND_COUNT as int - 1) < len_words,
{
}

// ---------------------------------------------------------------------------
// Reading a region.
// ---------------------------------------------------------------------------

/// Reads the fields written once. Returns `None` when `len` is shorter than
/// the header or the magic does not match.
pub fn read_header(memory: &[u32], len: usize) -> (header: Option<FrameHeader>)
    requires
        len <= memory@.len() * 4,
    ensures
        header == spec_read_header(memory@, len as int),
{
    if len < FRAME_HEADER_BYTES {
        return None;
    }
    if memory[WORD_MAGIC] != FRAME_MAGIC_WORD {
        return None;
    }
    Some(
        FrameHeader {
            layout_version: memory[WORD_LAYOUT_VERSION],
            channel_count: memory[WORD_CHANNEL_COUNT],
            band_count: memory[WORD_BAND_COUNT],
            sample_rate: memory[WORD_SAMPLE_RATE],
            midi_flags: memory[WORD_MIDI_FLAGS],
        },
    )
}

/// Copies the record of channel `index` out of `memory`.
fn read_record(memory: &[u32], index: usize) -> (level: ChannelLevel)
    requires
        peak_word(index as int) + RECORD_WORDS <= memory@.len(),
    ensures
        spec_record_holds(memory@, index as int, level),
{
    assert(memory@.len() == memory.len());
    let peak_index = HEADER_WORDS + index * RECORD_WORDS;
    let mut level = ChannelLevel { peak: memory[peak_index], bins: [0u32; BAND_COUNT] };
    let mut b: usize = 0;
    while b < BAND_COUNT
        invariant
            b <= BAND_COUNT,
            peak_index == peak_word(index as int),
            peak_index + RECORD_WORDS <= memory@.len(),
            memory@.len() == memory.len(),
            level.peak == memory@[peak_word(index as int)],
            forall|k: int| 0 <= k < b ==> #[trigger] level.bins@[k] == memory@[bin_word(index as int, k)],
        decreases BAND_COUNT - b,
    {
        level.bins[b] = memory[peak_index + 1 + b];
        b = b + 1;
    }
    level
}

/// Reads the latest frame with the sequence lock. Returns `None` when the
/// header is invalid, `len` is too short for its channel count, no frame has
/// been published, or every one of `READ_ATTEMPTS` attempts found a write in
/// progress.
pub fn read_frame(memory: &[u32], len: usize) -> (frame: Option<Frame>)
    requires
        len <= memory@.len() * 4,
    ensures
        match frame {
            None => !spec_frame_available(memory@, len as int),
            Some(f) => spec_frame_available(memory@, len as int) && spec_frame_holds(memory@, f),
        },
{
    let header = match read_header(memory, len) {
        Some(header) => header,
        None => return None,
    };
    if header.layout_version != FRAME_LAYOUT_VERSION || header.band_count != HEADER_BAND_COUNT {
        return None;
    }
    let channel_count = header.channel_count as usize;
    // The header's channel count is a 32-bit value, so the layout length is
    // computed in 64 bits before it is compared with `len`.
    let needed: u64 = FRAME_HEADER_BYTES as u64 + (channel_count as u64) * (CHANNEL_RECORD_BYTES as u64);
    if (len as u64) < needed {
        return None;
    }
    let mut attempt: usize = 0;
    while attempt < READ_ATTEMPTS
        invariant
            len <= memory@.len() * 4,
            spec_read_header(memory@, len as int) == Some(header),
            header.layout_version == FRAME_LAYOUT_VERSION,
            header.band_count == HEADER_BAND_COUNT,
            channel_count == header.channel_count,
            len >= spec_frame_bytes(channel_count as int),
            attempt <= READ_ATTEMPTS,
            attempt > 0 ==> spec_sequence(memory@) % 2 == 1,
        decreases READ_ATTEMPTS - attempt,
    {
        let before = join_words(memory[WORD_SEQUENCE_LOW], memory[WORD_SEQUENCE_HIGH]);
        if before == 0 {
            return None;
        }
        if before % 2 != 0 {
            attempt = attempt + 1;
            continue;
        }
        let published_ns = join_words(memory[WORD_PUBLISHED_NS_LOW], memory[WORD_PUBLISHED_NS_HIGH]);
        let midi = FrameMidi {
            steps: memory[WORD_MIDI_STEPS],
            transport_count: memory[WORD_MIDI_TRANSPORT_COUNT],
            transport_last: memory[WORD_MIDI_TRANSPORT_LAST],
        };
        let mut channels: Vec<ChannelLevel> = Vec::new();
        let mut index: usize = 0;
        while index < channel_count
            invariant
                len <= memory@.len() * 4,
                len >= spec_frame_bytes(channel_count as int),
                index <= channel_count,
                channels@.len() == index,
                forall|i: int| 0 <= i < index ==> spec_record_holds(memory@, i, #[trigger] channels@[i]),
            decreases channel_count - index,
        {
            proof {
                lemma_record_words_in_bounds(channel_count as int, memory@.len() as int, index as int);
            }
            let level = read_record(memory, index);
            channels.push(level);
            index = index + 1;
        }
        let after = join_words(memory[WORD_SEQUENCE_LOW], memory[WORD_SEQUENCE_HIGH]);
        if after == before {
            return Some(Frame { sequence: before, published_ns, midi, channels });
        }
        attempt = attempt + 1;
    }
    None
}

proof fn lemma_frame_words_fit(channel_count: int, len_words: int)
    requires
        spec_frame_bytes(channel_count) <= len_words * 4,
        channel_count >= 0,
    ensures
        peak_word(channel_count) <= len_words,
        HEADER_WORDS <= len_words,
{
}

/// Writes one frame into `memory` under the sequence lock: the sequence is
/// made odd, the publication time, the MIDI fields and every channel record
/// are written, and the sequence is made even again, two above where it
/// started.
fn write_frame(memory: &mut Vec<u32>, channels: &[ChannelLevel], midi: FrameMidi, published_ns: u64)
    requires
        peak_word(channels@.len() as int) <= old(memory)@.len(),
        HEADER_WORDS <= old(memory)@.len(),
    ensures
        spec_published(old(memory)@, final(memory)@, channels@, midi, published_ns),
{
    let ghost before = memory@;
    let stable = join_words(memory[WORD_SEQUENCE_LOW], memory[WORD_SEQUENCE_HIGH]);
    let writing = split_words(stable.wrapping_add(1));
    memory.set(WORD_SEQUENCE_LOW, writing.0);
    memory.set(WORD_SEQUENCE_HIGH, writing.1);

    let time = split_words(published_ns);
    memory.set(WORD_PUBLISHED_NS_LOW, time.0);
    memory.set(WORD_PUBLISHED_NS_HIGH, time.1);
    memory.set(WORD_MIDI_STEPS, midi.steps);
    memory.set(WORD_MIDI_TRANSPORT_COUNT, midi.transport_count);
    memory.set(WORD_MIDI_TRANSPORT_LAST, midi.transport_last);

    let count = channels.len();
    let mut index: usize = 0;
    while index < count
        invariant
            count == channels@.len(),
            memory@.len() == before.len(),
            memory@.len() == memory.len(),
            peak_word(count as int) <= before.len(),
            HEADER_WORDS <= before.len(),
            index <= count,
            spec_header_kept(before, memory@),
            spec_published_ns(memory@) == published_ns,
            spec_midi(memory@) == midi,
            forall|i: int| 0 <= i < index ==> spec_record_holds(memory@, i, #[trigger] channels@[i]),
        decreases count - index,
    {
        let record = HEADER_WORDS + index * RECORD_WORDS;
        let level = channels[index];
        let ghost at_record = memory@;
        memory.set(record, level.peak);
        let mut b: usize = 0;
        while b < BAND_COUNT
            invariant
                record == peak_word(index as int),
                record + RECORD_WORDS <= memory@.len(),
                memory@.len() == at_record.len(),
                memory@.len() == memory.len(),
                b <= BAND_COUNT,
                memory@[record as int] == level.peak,
                forall|k: int| 0 <= k < b ==> #[trigger] memory@[bin_word(index as int, k)] == level.bins@[k],
                forall|w: int| 0 <= w < at_record.len() && (w < record || w >= record + RECORD_WORDS) ==> #[trigger] memory@[w] == at_record[w],
            decreases BAND_COUNT - b,
        {
            memory.set(record + 1 + b, level.bins[b]);
            b = b + 1;
        }
        proof {
            assert forall|i: int| 0 <= i < index + 1 implies spec_record_holds(memory@, i, #[trigger] channels@[i]) by {
                if i < index {
                    assert(spec_record_holds(at_record, i, channels@[i]));
                    assert(peak_word(i) + RECORD_WORDS <= record);
                    assert forall|bb: int| 0 <= bb < BAND_COUNT implies #[trigger] channels@[i].bins@[bb] == memory@[bin_word(i, bb)] by {
                        assert(bin_word(i, bb) < record);
                    }
                } else {
                    assert(i == index);
                }
            }
        }
        index = index + 1;
    }
    let done = split_words(stable.wrapping_add(2));
    memory.set(WORD_SEQUENCE_LOW, done.0);
    memory.set(WORD_SEQUENCE_HIGH, done.1);
    proof {
        assert forall|i: int| 0 <= i < count implies spec_record_holds(memory@, i, #[trigger] channels@[i]) by {
            assert(peak_word(i) >= HEADER_WORDS);
            assert forall|bb: int| 0 <= bb < BAND_COUNT implies #[trigger] channels@[i].bins@[bb] == memory@[bin_word(i, bb)] by {
                assert(bin_word(i, bb) >= HEADER_WORDS);
            }
        }
    }
}

/// `count` zeroed words carrying the header fields written once.
fn header_words(count: usize, channel_count: u32, sample_rate: u32, midi_configured: bool) -> (memory: Vec<u32>)
    requires
        count >= HEADER_WORDS,
    ensures
        memory@.len() == count,
        memory@[WORD_MAGIC as int] == FRAME_MAGIC_WORD,
        memory@[WORD_LAYOUT_VERSION as int] == FRAME_LAYOUT_VERSION,
        memory@[WORD_CHANNEL_COUNT as int] == channel_count,
        memory@[WORD_BAND_COUNT as int] == HEADER_BAND_COUNT,
        memory@[WORD_SAMPLE_RATE as int] == sample_rate,
        memory@[WORD_MIDI_FLAGS as int] == if midi_configured { MIDI_FLAG_CONFIGURED } else { 0 },
        memory@[WORD_SEQUENCE_LOW as int] == 0,
        memory@[WORD_SEQUENCE_HIGH as int] == 0,
{
    let mut memory: Vec<u32> = Vec::new();
    let mut k: usize = 0;
    while k < count
        invariant
            k <= count,
            memory@.len() == k,
            forall|j: int| 0 <= j < k ==> #[trigger] memory@[j] == 0,
        decreases count - k,
    {
        memory.push(0);
        k = k + 1;
    }
    let midi_flags = if midi_configured {
        MIDI_FLAG_CONFIGURED
    } else {
        0
    };
    memory.set(WORD_MAGIC, FRAME_MAGIC_WORD);
    memory.set(WORD_LAYOUT_VERSION, FRAME_LAYOUT_VERSION);
    memory.set(WORD_CHANNEL_COUNT, channel_count);
    memory.set(WORD_BAND_COUNT, HEADER_BAND_COUNT);
    memory.set(WORD_SAMPLE_RATE, sample_rate);
    memory.set(WORD_MIDI_FLAGS, midi_flags);
    memory
}

// ---------------------------------------------------------------------------
// The region.
// ---------------------------------------------------------------------------

/// A frame region: one writer publishes into it, and any reader copies the
/// latest frame out of it.
#[derive(Debug)]
pub struct FrameRegion {
    memory: Vec<u32>,
    mapped_len: usize,
    channel_count: usize,
}

impl FrameRegion {
    /// The region's words.
    pub closed spec fn memory(&self) -> Seq<u32> {
        self.memory@
    }

    /// The channel count the region was created for.
    pub closed spec fn spec_channel_count(&self) -> nat {
        self.channel_count as nat
    }

    /// Bytes the region spans, a whole number of pages.
    pub closed spec fn spec_mapped_len(&self) -> nat {
        self.mapped_len as nat
    }

    /// The region's invariant: its words span `mapped_len` bytes, which
    /// cover the layout for its channel count; the header carries the magic,
    /// the layout version, the channel count and the band count; and the
    /// sequence is even, since only a complete publication leaves it so.
    pub closed spec fn wf(&self) -> bool {
        &&& self.memory@.len() * 4 == self.mapped_len
        &&& spec_frame_bytes(self.channel_count as int) <= self.mapped_len
        &&& self.channel_count <= u32::MAX
        &&& self.memory@[WORD_MAGIC as int] == FRAME_MAGIC_WORD
        &&& self.memory@[WORD_LAYOUT_VERSION as int] == FRAME_LAYOUT_VERSION
        &&& self.memory@[WORD_CHANNEL_COUNT as int] == self.channel_count
        &&& self.memory@[WORD_BAND_COUNT as int] == HEADER_BAND_COUNT
        &&& spec_sequence(self.memory@) % 2 == 0
    }

    /// Creates a zeroed region of `frame_bytes(channel_count)` rounded up to
    /// a whole number of `page_size` pages, then writes the fields the
    /// contract marks Once. The sequence starts at zero, so no frame can be
    /// read before the first publication.
    pub fn new(channel_count: usize, sample_rate: u32, midi_configured: bool, page_size: usize) -> (region: Result<FrameRegion, FrameRegionError>)
        ensures
            match region {
                Ok(r) => {
                    &&& channel_count <= u32::MAX
                    &&& page_size > 0 && page_size % 8 == 0
                    &&& r.wf()
                    &&& r.spec_channel_count() == channel_count
                    &&& r.spec_mapped_len() == spec_mapped_len(spec_frame_bytes(channel_count as int), page_size as int)
                    &&& r.spec_mapped_len() % (page_size as nat) == 0
                    &&& spec_frame_bytes(channel_count as int) <= r.spec_mapped_len()
                    &&& r.spec_mapped_len() < spec_frame_bytes(channel_count as int) + page_size
                    &&& spec_read_header(r.memory(), r.spec_mapped_len() as int) == Some(FrameHeader {
                        layout_version: FRAME_LAYOUT_VERSION,
                        channel_count: channel_count as u32,
                        band_count: HEADER_BAND_COUNT,
                        sample_rate: sample_rate,
                        midi_flags: if midi_configured { MIDI_FLAG_CONFIGURED } else { 0 },
                    })
                    &&& spec_sequence(r.memory()) == 0
                    &&& !spec_frame_available(r.memory(), r.spec_mapped_len() as int)
                },
                Err(FrameRegionError::ChannelCountTooLarge) => channel_count > u32::MAX,
                Err(FrameRegionError::InvalidPageSize) => channel_count <= u32::MAX && (page_size == 0 || page_size % 8 != 0),
                Err(FrameRegionError::RegionTooLarge) => {
                    &&& channel_count <= u32::MAX
                    &&& page_size > 0 && page_size % 8 == 0
                    &&& spec_mapped_len(spec_frame_bytes(channel_count as int), page_size as int) > usize::MAX
                },
            },
    {
        if channel_count > u32::MAX as usize {
            return Err(FrameRegionError::ChannelCountTooLarge);
        }
        if page_size == 0 || page_size % 8 != 0 {
            return Err(FrameRegionError::InvalidPageSize);
        }
        let records = match channel_count.checked_mul(CHANNEL_RECORD_BYTES) {
            Some(records) => records,
            None => {
                proof {
                    lemma_mapped_len_bounds(spec_frame_bytes(channel_count as int), page_size as int);
                }
                return Err(FrameRegionError::RegionTooLarge);
            },
        };
        let layout_bytes = match records.checked_add(FRAME_HEADER_BYTES) {
            Some(bytes) => bytes,
            None => {
                proof {
                    lemma_mapped_len_bounds(spec_frame_bytes(channel_count as int), page_size as int);
                }
                return Err(FrameRegionError::RegionTooLarge);
            },
        };
        let mapped_len = match page_aligned_len(layout_bytes, page_size) {
            Some(len) => len,
            None => return Err(FrameRegionError::RegionTooLarge),
        };
        assert(layout_bytes == spec_frame_bytes(channel_count as int));
        proof {
            lemma_mapped_len_bounds(layout_bytes as int, page_size as int);
        }
        let words = mapped_len / WORD_BYTES;
        assert(words * 4 == mapped_len);
        let memory = header_words(words, channel_count as u32, sample_rate, midi_configured);
        Ok(FrameRegion { memory, mapped_len, channel_count })
    }

    /// Bytes the layout uses.
    pub fn frame_bytes(&self) -> (bytes: usize)
        requires
            self.wf(),
        ensures
            bytes == spec_frame_bytes(self.spec_channel_count() as int),
    {
        frame_bytes(self.channel_count)
    }

    /// Bytes mapped, a whole number of pages.
    pub fn mapped_len(&self) -> (len: usize)
        ensures
            len == self.spec_mapped_len(),
    {
        self.mapped_len
    }

    /// The region's words, for a reader in the same process.
    pub fn words(&self) -> (words: &[u32])
        ensures
            words@ == self.memory(),
    {
        self.memory.as_slice()
    }

    /// Publishes one frame with the sequence lock. Returns `false` and
    /// publishes nothing when any peak or bin is not finite.
    pub fn publish(&mut self, channels: &[ChannelLevel], midi: FrameMidi, published_ns: u64) -> (published: bool)
        requires
            old(self).wf(),
            channels@.len() == old(self).spec_channel_count(),
        ensures
            final(self).wf(),
            final(self).spec_channel_count() == old(self).spec_channel_count(),
            final(self).spec_mapped_len() == old(self).spec_mapped_len(),
            published == spec_levels_are_finite(channels@),
            !published ==> final(self).memory() == old(self).memory(),
            published ==> spec_published(old(self).memory(), final(self).memory(), channels@, midi, published_ns),
    {
        if !levels_are_finite(channels) {
            return false;
        }
        proof {
            lemma_frame_words_fit(self.channel_count as int, self.memory@.len() as int);
        }
        write_frame(&mut self.memory, channels, midi, published_ns);
        true
    }

    /// Reads the latest frame with the sequence lock.
    pub fn read(&self) -> (frame: Option<Frame>)
        requires
            self.wf(),
        ensures
            spec_read_gives(self.memory(), self.spec_mapped_len() as int, frame),
    {
        read_frame(self.memory.as_slice(), self.mapped_len)
    }
}

// ---------------------------------------------------------------------------
// Laws of the region.
// ---------------------------------------------------------------------------

/// A reader gets back exactly what the writer published: after a
/// publication into a well formed region, a frame is available, and the
/// frame a reader copies carries the sequence two above the previous one,
/// the publication time, the MIDI fields and every channel that were
/// published. The sequence wraps to zero after 2^64 / 2 publications, so
/// the law leaves out the publication that would wrap it.
pub proof fn law_read_returns_published_frame(
    before: FrameRegion,
    after: FrameRegion,
    channels: Seq<ChannelLevel>,
    midi: FrameMidi,
    published_ns: u64,
    frame: Frame,
)
    requires
        before.wf(),
        after.spec_mapped_len() == before.spec_mapped_len(),
        channels.len() == before.spec_channel_count(),
        spec_published(before.memory(), after.memory(), channels, midi, published_ns),
        spec_sequence(before.memory()) + 2 < 0x1_0000_0000_0000_0000,
        spec_frame_holds(after.memory(), frame),
    ensures
        spec_frame_available(after.memory(), after.spec_mapped_len() as int),
        frame.sequence == spec_sequence(before.memory()) + 2,
        frame.published_ns == published_ns,
        frame.midi == midi,
        frame.channels@ =~= channels,
{
    let m0 = before.memory();
    let m1 = after.memory();
    assert(m1[WORD_MAGIC as int] == m0[WORD_MAGIC as int]);
    assert(m1[WORD_LAYOUT_VERSION as int] == m0[WORD_LAYOUT_VERSION as int]);
    assert(m1[WORD_CHANNEL_COUNT as int] == m0[WORD_CHANNEL_COUNT as int]);
    assert(m1[WORD_BAND_COUNT as int] == m0[WORD_BAND_COUNT as int]);
    assert forall|i: int| 0 <= i < channels.len() implies #[trigger] frame.channels@[i] == channels[i] by {
        assert(spec_record_holds(m1, i, channels[i]));
        assert(spec_record_holds(m1, i, frame.channels@[i]));
        assert(frame.channels@[i].bins =~= channels[i].bins);
    }
}

/// Publication never changes the fields written once: the header a reader
/// finds before a publication is the header it finds after it.
pub proof fn law_publish_keeps_header(
    before: Seq<u32>,
    after: Seq<u32>,
    len: int,
    channels: Seq<ChannelLevel>,
    midi: FrameMidi,
    published_ns: u64,
)
    requires
        HEADER_WORDS <= before.len(),
        spec_published(before, after, channels, midi, published_ns),
    ensures
        spec_read_header(after, len) == spec_read_header(before, len),
{
    assert(after[WORD_MAGIC as int] == before[WORD_MAGIC as int]);
    assert(after[WORD_LAYOUT_VERSION as int] == before[WORD_LAYOUT_VERSION as int]);
    assert(after[WORD_CHANNEL_COUNT as int] == before[WORD_CHANNEL_COUNT as int]);
    assert(after[WORD_BAND_COUNT as int] == before[WORD_BAND_COUNT as int]);
    assert(after[WORD_SAMPLE_RATE as int] == before[WORD_SAMPLE_RATE as int]);
    assert(after[WORD_MIDI_FLAGS as int] == before[WORD_MIDI_FLAGS as int]);
}

/// While the sequence is odd a writer is mid-frame, and no reader returns a
/// frame, whatever the rest of the region holds.
pub proof fn law_no_frame_while_writing(memory: Seq<u32>, len: int)
    requires
        spec_sequence(memory) % 2 == 1,
    ensures
        !spec_frame_available(memory, len),
{
}

/// Whether `frame` is a result [`FrameRegion::read`] may give for a region
/// of `len` bytes whose words are `memory`.
pub open spec fn spec_read_gives(memory: Seq<u32>, len: int, frame: Option<Frame>) -> bool {
    match frame {
        None => !spec_frame_available(memory, len),
        Some(f) => spec_frame_available(memory, len) && spec_frame_holds(memory, f),
    }
}

/// A refused publication changes nothing a reader sees: when some peak or
/// bin is not finite, `publish` returns `false` and leaves the words as they
/// were, and a read after it gives the frame a read before it gave (the
/// same sequence, publication time, MIDI fields and channels), or no frame
/// if there was none.
pub proof fn law_refused_publish_changes_no_read(
    before: FrameRegion,
    after: FrameRegion,
    channels: Seq<ChannelLevel>,
    earlier: Option<Frame>,
    later: Option<Frame>,
)
    requires
        !spec_levels_are_finite(channels),
        after.memory() == before.memory(),
        after.spec_mapped_len() == before.spec_mapped_len(),
        spec_read_gives(before.memory(), before.spec_mapped_len() as int, earlier),
        spec_read_gives(after.memory(), after.spec_mapped_len() as int, later),
    ensures
        later is None <==> earlier is None,
        later matches Some(l) ==> earlier matches Some(e) && {
            &&& l.sequence == e.sequence
            &&& l.published_ns == e.published_ns
            &&& l.midi == e.midi
            &&& l.channels@ == e.channels@
        },
{
    if let Some(l) = later {
        let e = earlier.unwrap();
        let m = before.memory();
        assert forall|i: int| 0 <= i < l.channels@.len() implies #[trigger] l.channels@[i] == e.channels@[i] by {
            assert(spec_record_holds(m, i, l.channels@[i]));
            assert(spec_record_holds(m, i, e.channels@[i]));
            assert(l.channels@[i].bins =~= e.channels@[i].bins);
        }
        assert(l.channels@ =~= e.channels@);
    }
}

/// Whether `regions` is a run of publications: each region after the first
/// is what publishing `publications[j]` into region `j` leaves, in a region
/// of the same size and channel count.
pub open spec fn spec_publication_run(
    regions: Seq<FrameRegion>,
    publications: Seq<(Seq<ChannelLevel>, FrameMidi, u64)>,
) -> bool {
    &&& regions.len() == publications.len() + 1
    &&& forall|j: int|
        0 <= j < publications.len() ==> {
            &&& regions[j + 1].spec_mapped_len() == regions[j].spec_mapped_len()
            &&& regions[j + 1].spec_channel_count() == regions[j].spec_channel_count()
            &&& #[trigger] publications[j].0.len() == regions[j].spec_channel_count()
            &&& spec_published(
                regions[j].memory(),
                regions[j + 1].memory(),
                publications[j].0,
                publications[j].1,
                publications[j].2,
            )
        }
}

proof fn lemma_run_sequence(
    regions: Seq<FrameRegion>,
    publications: Seq<(Seq<ChannelLevel>, FrameMidi, u64)>,
    n: nat,
)
    requires
        spec_publication_run(regions, publications),
        regions[0].wf(),
        spec_sequence(regions[0].memory()) == 0,
        n <= publications.len(),
    ensures
        regions[n as int].wf(),
        spec_sequence(regions[n as int].memory()) == (2 * n) % 0x1_0000_0000_0000_0000,
    decreases n,
{
    if n > 0 {
        let j = n - 1;
        lemma_run_sequence(regions, publications, j as nat);
        let before = regions[j];
        let after = regions[n as int];
        assert(publications[j].0.len() == regions[j].spec_channel_count());
        let m0 = before.memory();
        let m1 = after.memory();
        assert(m1[WORD_MAGIC as int] == m0[WORD_MAGIC as int]);
        assert(m1[WORD_LAYOUT_VERSION as int] == m0[WORD_LAYOUT_VERSION as int]);
        assert(m1[WORD_CHANNEL_COUNT as int] == m0[WORD_CHANNEL_COUNT as int]);
        assert(m1[WORD_BAND_COUNT as int] == m0[WORD_BAND_COUNT as int]);
        let modulus: int = 0x1_0000_0000_0000_0000;
        let s = spec_sequence(m0);
        assert(s == (2 * j) % modulus);
        assert(spec_sequence(m1) == (s + 2) % modulus);
        let ni = n as int;
        assert(((2 * j) % modulus + 2int % modulus) % modulus == (2 * j + 2) % modulus) by {
            vstd::arithmetic::div_mod::lemma_add_mod_noop(2 * j, 2int, modulus);
        }
        assert((2 * j + 2) % modulus == (2 * ni) % modulus);
        assert(spec_sequence(m1) % 2 == 0) by {
            vstd::arithmetic::div_mod::lemma_mod_mod(2 * ni, 2int, modulus / 2);
        }
    }
}

/// Every publication advances the sequence by two: after `k` publications
/// into a region fresh from [`FrameRegion::new`], the sequence is `2k`
/// (wrapping at 2^64) and even; and once a frame has been published and the
/// sequence has not wrapped, a reader finds a frame, and the frame it copies
/// carries the sequence `2k`.
pub proof fn law_publications_advance_sequence(
    regions: Seq<FrameRegion>,
    publications: Seq<(Seq<ChannelLevel>, FrameMidi, u64)>,
    frame: Frame,
)
    requires
        regions[0].wf(),
        spec_sequence(regions[0].memory()) == 0,
        spec_publication_run(regions, publications),
    ensures
        regions.last().wf(),
        spec_sequence(regions.last().memory()) == (2 * publications.len()) % 0x1_0000_0000_0000_0000,
        spec_sequence(regions.last().memory()) % 2 == 0,
        publications.len() >= 1 && 2 * publications.len() < 0x1_0000_0000_0000_0000 ==> {
            &&& spec_frame_available(regions.last().memory(), regions.last().spec_mapped_len() as int)
            &&& (spec_frame_holds(regions.last().memory(), frame) ==> frame.sequence == 2 * publications.len())
        },
{
    let k = publications.len();
    lemma_run_sequence(regions, publications, k);
    if k >= 1 && 2 * k < 0x1_0000_0000_0000_0000 {
        let j = k - 1;
        lemma_run_sequence(regions, publications, j as nat);
        assert(publications[j].0.len() == regions[j].spec_channel_count());
        let before = regions[j];
        let after = regions[k as int];
        let m0 = before.memory();
        let m1 = after.memory();
        assert(m1[WORD_MAGIC as int] == m0[WORD_MAGIC as int]);
        assert(m1[WORD_LAYOUT_VERSION as int] == m0[WORD_LAYOUT_VERSION as int]);
        assert(m1[WORD_CHANNEL_COUNT as int] == m0[WORD_CHANNEL_COUNT as int]);
        assert(m1[WORD_BAND_COUNT as int] == m0[WORD_BAND_COUNT as int]);
        assert(spec_sequence(m1) == 2 * k);
    }
}

} // verus!

verus! {

/// Carries a frame region from the code that creates it, once the channel
/// count and sample rate are known, to the owner that shares it. The slot
/// is filled at most once.
#[derive(Debug)]
pub struct FrameRegionSlot {
    filled: Option<FrameRegion>,
}

impl FrameRegionSlot {
    /// The region the slot holds, if it has been filled.
    pub closed spec fn spec_region(&self) -> Option<FrameRegion> {
        self.filled
    }

    /// An empty slot.
    pub fn new() -> (slot: FrameRegionSlot)
        ensures
            slot.spec_region() is None,
    {
        FrameRegionSlot { filled: None }
    }

    /// The region the slot holds, or `None` before it is filled.
    pub fn region(&self) -> (region: Option<&FrameRegion>)
        ensures
            match region {
                Some(r) => self.spec_region() == Some(*r),
                None => self.spec_region() is None,
            },
    {
        self.filled.as_ref()
    }

    /// Stores `region`. Returns `false` and leaves the first region in
    /// place when the slot is already filled.
    pub fn fill(&mut self, region: FrameRegion) -> (stored: bool)
        ensures
            stored == old(self).spec_region() is None,
            stored ==> final(self).spec_region() == Some(region),
            !stored ==> final(self).spec_region() == old(self).spec_region(),
    {
        if self.filled.is_some() {
            return false;
        }
        self.filled = Some(region);
        true
    }
}

} // verus!
