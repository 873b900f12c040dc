use phase4::audio::Specs;
use phase4::frames::{
    frame_bytes, record_offset, CHANNEL_RECORD_BYTES, FRAME_HEADER_BYTES, OFFSET_BAND_COUNT,
    OFFSET_CHANNEL_COUNT, OFFSET_LAYOUT_VERSION, OFFSET_MAGIC, OFFSET_MIDI_FLAGS,
    OFFSET_MIDI_STEPS, OFFSET_MIDI_TRANSPORT_COUNT, OFFSET_MIDI_TRANSPORT_LAST,
    OFFSET_PUBLISHED_NS, OFFSET_SAMPLE_RATE, OFFSET_SEQUENCE,
};

const STEREO: usize = 2;

#[test]
fn layout_constants_match_the_contract() {
    assert_eq!(FRAME_HEADER_BYTES, 64);
    assert_eq!(CHANNEL_RECORD_BYTES, 132);
    assert_eq!(frame_bytes(STEREO), 328);
    assert_eq!(
        [
            OFFSET_MAGIC,
            OFFSET_LAYOUT_VERSION,
            OFFSET_SEQUENCE,
            OFFSET_PUBLISHED_NS,
            OFFSET_CHANNEL_COUNT,
            OFFSET_BAND_COUNT,
            OFFSET_SAMPLE_RATE,
            OFFSET_MIDI_FLAGS,
            OFFSET_MIDI_STEPS,
            OFFSET_MIDI_TRANSPORT_COUNT,
            OFFSET_MIDI_TRANSPORT_LAST,
        ],
        [0, 4, 8, 16, 24, 28, 32, 36, 40, 44, 48]
    );
}

#[test]
fn record_offsets_follow_the_header() {
    assert_eq!(record_offset(0), 64);
    assert_eq!(record_offset(1), 196);
    assert_eq!(frame_bytes(0), 64);
}

fn check_samples_for_ms(sample_rate: u32, channels: u16, ms: u32, expected: usize) {
    let specs = Specs {
        channels,
        sample_rate,
    };
    assert_eq!(
        specs.samples_for_ms(ms),
        expected,
        "arithmetic mismatch: sample_rate={sample_rate}, channels={channels}, ms={ms}",
    );
}

#[test]
fn samples_for_ms_zero_duration_returns_zero() {
    check_samples_for_ms(48000, 2, 0, 0);
    check_samples_for_ms(192_000, 8, 0, 0);
}

#[test]
fn samples_for_ms_one_second_is_exact() {
    check_samples_for_ms(44100, 2, 1000, 88200);
    check_samples_for_ms(48000, 2, 1000, 96000);
}

#[test]
fn samples_for_ms_mono() {
    check_samples_for_ms(48000, 1, 10, 480);
    check_samples_for_ms(44100, 1, 10, 441);
    check_samples_for_ms(96000, 1, 1, 96);
}

#[test]
fn samples_for_ms_stereo_standard_rates() {
    check_samples_for_ms(44100, 2, 10, 882);
    check_samples_for_ms(48000, 2, 10, 960);
    check_samples_for_ms(88200, 2, 10, 1764);
    check_samples_for_ms(96000, 2, 10, 1920);
    check_samples_for_ms(176_400, 2, 10, 3528);
    check_samples_for_ms(192_000, 2, 10, 3840);
}

#[test]
fn samples_for_ms_multichannel() {
    check_samples_for_ms(96000, 8, 1, 768);
    check_samples_for_ms(48000, 6, 10, 2880);
}

#[test]
fn samples_for_ms_truncates_fractional_samples() {
    check_samples_for_ms(44100, 2, 1, 88);
    check_samples_for_ms(22050, 1, 3, 66);
    check_samples_for_ms(88200, 2, 1, 176);
    check_samples_for_ms(176_400, 2, 1, 352);
}

#[test]
fn frame_aligned_samples_for_ms_rounds_up_to_whole_frames() {
    let aligned = |sample_rate, channels, ms| {
        Specs {
            channels,
            sample_rate,
        }
        .frame_aligned_samples_for_ms(ms)
    };

    assert_eq!(aligned(48_000, 2, 10), 960);
    assert_eq!(aligned(44_100, 2, 10), 882);
    assert_eq!(aligned(44_100, 6, 10), 2_646);
    assert_eq!(aligned(22_050, 2, 10), 442);
    assert_eq!(aligned(22_050, 6, 10), 1_326);
}

#[test]
fn samples_for_ms_large_duration_no_overflow() {
    check_samples_for_ms(192_000, 16, 3_600_000, 11_059_200_000);
}

#[test]
fn create_audio_buffer_pair_keeps_exact_power_of_two_capacity() {
    let specs = Specs {
        sample_rate: 32_000,
        channels: 1,
    };
    assert_eq!(phase4::audio::audio_buffer_capacity(specs, 1), 32);
}

#[test]
fn create_audio_buffer_pair_rounds_up_to_next_power_of_two() {
    let specs = Specs {
        sample_rate: 48_000,
        channels: 2,
    };
    assert_eq!(phase4::audio::audio_buffer_capacity(specs, 10), 1_024);
}

#[test]
fn create_audio_buffer_pair_counts_all_channels_when_sizing() {
    let specs = Specs {
        sample_rate: 48_000,
        channels: 6,
    };
    assert_eq!(phase4::audio::audio_buffer_capacity(specs, 10), 4_096);
}

#[test]
fn a_region_spans_the_fewest_whole_pages() {
    for (channels, page) in [(1usize, 4096usize), (2, 4096), (31, 4096), (100, 16384), (2, 64)] {
        let region = phase4::frames::FrameRegion::new(channels, 48_000, false, page).unwrap();
        assert_eq!(region.mapped_len() % page, 0);
        assert!(region.frame_bytes() <= region.mapped_len());
        assert!(region.mapped_len() < region.frame_bytes() + page);
    }
}
