use phase4::audio::{list_devices_text, DeviceInfo};
use phase4::cli::{run_mode, RunMode};
use phase4::dsp::{DisplayPayload, RawPayload};

#[test]
fn text_device_listing_preserves_supported_unsupported_and_unavailable_output() {
    let entries = [
        DeviceInfo {
            index: 0,
            name: "Duet 3".to_string(),
            sample_rate: Some(48_000),
            channels: Some(2),
            sample_format: Some("F32".to_string()),
            supported: true,
        },
        DeviceInfo {
            index: 1,
            name: "Old Card".to_string(),
            sample_rate: Some(44_100),
            channels: Some(1),
            sample_format: Some("I16".to_string()),
            supported: false,
        },
        DeviceInfo {
            index: 2,
            name: "Broken".to_string(),
            sample_rate: None,
            channels: None,
            sample_format: None,
            supported: false,
        },
    ];
    assert_eq!(
        list_devices_text(&entries),
        vec![
            ("[0] Duet 3 (48000Hz, 2ch, F32) ".to_string(), false),
            (
                "[1] Old Card (44100Hz, 1ch, I16) * No hardware support (32-bit required)"
                    .to_string(),
                false
            ),
            ("[2] Broken (Configuration unavailable)".to_string(), true),
        ]
    );
    assert_eq!(
        list_devices_text(&[]),
        vec![(
            "[*] No input devices detected. Check system permissions".to_string(),
            true
        )]
    );
}

#[test]
fn payloads_start_silent() {
    let raw = RawPayload::new(3);
    assert_eq!(raw.channels.len(), 3);
    assert!(raw.channels.iter().all(|c| c.peak == 0 && c.bins.iter().all(|b| *b == 0)));
    let display = DisplayPayload::new(2);
    assert_eq!(display.channels.len(), 2);
    assert_eq!(display.midi, None);
}

#[test]
fn run_mode_prefers_listing_then_headless_then_a_terminal() {
    assert_eq!(run_mode(true, true, true, false), RunMode::ListAudio);
    assert_eq!(run_mode(false, true, true, false), RunMode::ListMidi);
    assert_eq!(run_mode(false, false, true, false), RunMode::Headless);
    assert_eq!(run_mode(false, false, false, true), RunMode::Interactive);
    assert_eq!(run_mode(false, false, false, false), RunMode::NoTerminal);
}
