use phase4::dsp::{ChannelLevel, BAND_COUNT};
use phase4::frames::{
    frame_bytes, read_frame, read_header, Frame, FrameHeader, FrameMidi, FrameRegion,
    FrameRegionError, FrameRegionSlot, FRAME_HEADER_BYTES, FRAME_LAYOUT_VERSION, FRAME_MAGIC,
    MIDI_FLAG_CONFIGURED, WORD_MAGIC, WORD_SEQUENCE_HIGH, WORD_SEQUENCE_LOW,
};

const TEST_SAMPLE_RATE: u32 = 48_000;
const STEREO: usize = 2;
const PAGE_SIZE: usize = 4096;

fn level(value: f32) -> ChannelLevel {
    ChannelLevel {
        peak: value.to_bits(),
        bins: [value.to_bits(); BAND_COUNT],
    }
}

fn region(channels: usize, midi_configured: bool) -> FrameRegion {
    FrameRegion::new(channels, TEST_SAMPLE_RATE, midi_configured, PAGE_SIZE).expect("the region maps")
}

#[test]
fn a_new_region_holds_its_header_and_no_frame() {
    let region = region(STEREO, true);

    assert_eq!(region.mapped_len() % PAGE_SIZE, 0);
    assert!(region.mapped_len() >= region.frame_bytes());
    assert_eq!(region.frame_bytes(), frame_bytes(STEREO));

    let header = read_header(region.words(), region.mapped_len());
    assert_eq!(
        header,
        Some(FrameHeader {
            layout_version: FRAME_LAYOUT_VERSION,
            channel_count: 2,
            band_count: 32,
            sample_rate: TEST_SAMPLE_RATE,
            midi_flags: MIDI_FLAG_CONFIGURED,
        })
    );
    assert_eq!(region.words()[WORD_MAGIC].to_le_bytes(), FRAME_MAGIC);
    assert_eq!(region.read(), None);
}

#[test]
fn a_region_without_midi_clears_the_midi_flag() {
    let region = region(1, false);
    let header = read_header(region.words(), region.mapped_len()).expect("the header is valid");
    assert_eq!(header.midi_flags, 0);
}

#[test]
fn publishing_advances_the_sequence_by_two() {
    let mut region = region(STEREO, false);
    let channels = [level(0.5), level(0.25)];

    assert!(region.publish(&channels, FrameMidi::default(), 1));
    assert_eq!(region.read().map(|frame| frame.sequence), Some(2));
    assert!(region.publish(&channels, FrameMidi::default(), 2));
    assert_eq!(region.read().map(|frame| frame.sequence), Some(4));
}

#[test]
fn k_publications_leave_the_sequence_at_twice_k() {
    let mut region = region(1, false);
    for k in 1..=50u64 {
        assert!(region.publish(&[level(k as f32)], FrameMidi::default(), k));
        assert_eq!(region.read().map(|frame| frame.sequence), Some(2 * k));
    }
}

#[test]
fn a_published_frame_reads_back() {
    let mut region = region(STEREO, true);
    let mut first = level(0.75);
    first.bins[BAND_COUNT - 1] = 3.5f32.to_bits();
    let channels = [first, level(0.125)];
    let frame_midi = FrameMidi {
        steps: 12,
        transport_count: 3,
        transport_last: 1,
    };

    assert!(region.publish(&channels, frame_midi, 42));

    assert_eq!(
        region.read(),
        Some(Frame {
            sequence: 2,
            published_ns: 42,
            midi: frame_midi,
            channels: channels.to_vec(),
        })
    );
}

#[test]
fn a_non_finite_peak_is_not_published() {
    let mut region = region(1, false);
    assert!(!region.publish(&[level(f32::NAN)], FrameMidi::default(), 1));
    assert_eq!(region.read(), None);
}

#[test]
fn a_non_finite_bin_is_not_published() {
    let mut region = region(1, false);
    assert!(region.publish(&[level(0.5)], FrameMidi::default(), 1));

    let mut channel = level(0.5);
    channel.bins[3] = f32::INFINITY.to_bits();
    assert!(!region.publish(&[channel], FrameMidi::default(), 2));
    assert_eq!(region.read().map(|frame| frame.sequence), Some(2));
}

#[test]
fn a_reader_gives_up_while_the_sequence_is_odd() {
    let mut region = region(1, false);
    assert!(region.publish(&[level(0.5)], FrameMidi::default(), 1));

    let mut words = region.words().to_vec();
    words[WORD_SEQUENCE_LOW] = 3;
    words[WORD_SEQUENCE_HIGH] = 0;

    assert_eq!(read_frame(&words, region.mapped_len()), None);
}

#[test]
fn read_header_rejects_a_wrong_magic_and_a_short_length() {
    let region = region(1, false);
    let mut words = region.words().to_vec();

    assert_eq!(read_header(&words, FRAME_HEADER_BYTES - 1), None);
    words[WORD_MAGIC] = 0;
    assert_eq!(read_header(&words, region.mapped_len()), None);
}

#[test]
fn a_slot_keeps_the_first_region() {
    let mut slot = FrameRegionSlot::new();
    assert!(slot.region().is_none());

    let first = region(1, false);
    let second = region(STEREO, false);

    assert!(slot.fill(first));
    assert!(!slot.fill(second));
    assert_eq!(
        slot.region().map(|region| region.frame_bytes()),
        Some(frame_bytes(1))
    );
}

#[test]
fn a_region_refuses_what_it_cannot_lay_out() {
    assert_eq!(
        FrameRegion::new(1, TEST_SAMPLE_RATE, false, 0).err(),
        Some(FrameRegionError::InvalidPageSize)
    );
    assert_eq!(
        FrameRegion::new(1, TEST_SAMPLE_RATE, false, 12).err(),
        Some(FrameRegionError::InvalidPageSize)
    );
    assert_eq!(
        FrameRegion::new(usize::MAX, TEST_SAMPLE_RATE, false, PAGE_SIZE).err(),
        Some(FrameRegionError::ChannelCountTooLarge)
    );
}
