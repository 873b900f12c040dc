use phase4::cli::ListFormat;
use phase4::config::{
    AppConfigError, ConfigInput, ConfigMidiInput, FileConfig, OutputConfig, TestSignal,
};
use phase4::link::{to_app_config, MidiRequest, Source, StartRequest};
use phase4::midi::{clock_step, ClockStep, MidiDeviceInfo, MidiListener};
use phase4::net::{IpAddress, SocketAddress};
use phase4::pipeline::{
    mapper_step, ready_channels, record_publication, registration_order, MapperAction,
    MapperEvent,
};
use phase4::worker::WorkerKind;

fn narrow(bits: u64) -> u32 {
    (f64::from_bits(bits) as f32).to_bits()
}

#[test]
fn mapper_publishes_only_fresh_frames_while_active() {
    assert_eq!(
        mapper_step(false, MapperEvent::Snapshot { has_channels: true }),
        (true, MapperAction::Wait)
    );
    assert_eq!(
        mapper_step(true, MapperEvent::Tick { is_active: true }),
        (true, MapperAction::Publish)
    );
    assert_eq!(
        mapper_step(true, MapperEvent::Tick { is_active: false }),
        (false, MapperAction::Wait)
    );
    assert_eq!(
        mapper_step(false, MapperEvent::Tick { is_active: true }),
        (false, MapperAction::Wait)
    );
    assert_eq!(mapper_step(true, MapperEvent::SnapshotClosed).1, MapperAction::Exit);
}

#[test]
fn frame_writer_logs_the_first_refused_frame_only() {
    let mut logged = false;
    assert!(!record_publication(true, &mut logged));
    assert!(record_publication(false, &mut logged));
    assert!(!record_publication(false, &mut logged));
    assert!(!record_publication(true, &mut logged));
    assert!(logged);
}

#[test]
fn workers_register_producers_before_outputs() {
    let outputs = [
        OutputConfig::Osc {
            addr: SocketAddress {
                ip: IpAddress::V4(127, 0, 0, 1),
                port: 7000,
            },
        },
        OutputConfig::FrameRegion,
    ];
    assert_eq!(
        registration_order(true, true, &outputs),
        vec![
            WorkerKind::Generator,
            WorkerKind::Analyser,
            WorkerKind::Mapper,
            WorkerKind::MidiInput,
            WorkerKind::Osc,
            WorkerKind::FrameWriter,
        ]
    );
    assert_eq!(
        registration_order(false, false, &[]),
        vec![WorkerKind::Analyser, WorkerKind::Mapper]
    );
}

#[test]
fn ready_channels_list_the_selection_or_every_channel() {
    assert_eq!(ready_channels(None, 4), vec![0, 1, 2, 3]);
    assert_eq!(ready_channels(Some(&[1, 3]), 4), vec![1, 3]);
    assert!(ready_channels(None, 0).is_empty());
}

#[test]
fn a_tone_resolves_to_calibration_with_only_the_frame_region() {
    let start = StartRequest {
        source: Source::TestTone {
            hz: 440.0f64.to_bits(),
        },
        midi: None,
        config_yaml: None,
    };
    let config = to_app_config(&start, FileConfig::default(), &narrow, true).unwrap();
    assert_eq!(
        config.input,
        ConfigInput::Calibration(TestSignal::FixedTone(440.0f32.to_bits()))
    );
    assert_eq!(config.outputs.as_slice(), &[OutputConfig::FrameRegion]);
    assert_eq!(config.analyse_channels, None);
}

#[test]
fn a_device_resolves_with_sorted_channels() {
    let start = StartRequest {
        source: Source::Device {
            name: "Duet 3".to_string(),
            channels: Some(vec![3, 1, 3]),
        },
        midi: Some(MidiRequest::Device {
            name: "Loopback".to_string(),
        }),
        config_yaml: None,
    };
    let config = to_app_config(&start, FileConfig::default(), &narrow, true).unwrap();
    assert_eq!(config.input, ConfigInput::Device("Duet 3".to_string()));
    assert_eq!(config.analyse_channels, Some(vec![1, 3]));
    assert_eq!(
        config.midi_input,
        Some(ConfigMidiInput::Device("Loopback".to_string()))
    );
}

#[test]
fn the_config_network_section_starts_no_transport() {
    let mut file = FileConfig::default();
    file.network.ws_addr = Some(SocketAddress {
        ip: IpAddress::V4(0, 0, 0, 0),
        port: 8889,
    });
    file.network.max_clients = Some(0);
    file.vocoder.filter_q = Some(2.0f32.to_bits());
    let start = StartRequest {
        source: Source::TestSweep {
            rate_hz: 0.5f64.to_bits(),
        },
        midi: Some(MidiRequest::TestClock {
            bpm: 120.0f64.to_bits(),
        }),
        config_yaml: None,
    };
    let config = to_app_config(&start, file, &narrow, true).unwrap();
    assert_eq!(config.outputs.as_slice(), &[OutputConfig::FrameRegion]);
    assert_eq!(config.vocoder_config.filter_q, 2.0f32.to_bits());
    assert_eq!(
        config.midi_input,
        Some(ConfigMidiInput::TestClock(120.0f32.to_bits()))
    );
}

#[test]
fn config_text_is_validated_and_its_network_section_ignored() {
    let tone = || StartRequest {
        source: Source::TestTone {
            hz: 440.0f64.to_bits(),
        },
        midi: None,
        config_yaml: None,
    };

    let mut file = FileConfig::default();
    file.vocoder.attack_ms = Some(0);
    assert_eq!(
        to_app_config(&tone(), file, &narrow, true),
        Err(AppConfigError::InvalidAttackTime { value: 0 })
    );

    let mut file = FileConfig::default();
    file.network.ws_addr = Some(SocketAddress {
        ip: IpAddress::V4(127, 0, 0, 1),
        port: 8889,
    });
    let config = to_app_config(&tone(), file, &narrow, true).unwrap();
    assert_eq!(config.outputs.as_slice(), &[OutputConfig::FrameRegion]);
}

#[test]
fn a_test_clock_whose_tick_cannot_be_represented_is_refused() {
    let start = StartRequest {
        source: Source::TestTone {
            hz: 440.0f64.to_bits(),
        },
        midi: Some(MidiRequest::TestClock {
            bpm: 120.0f64.to_bits(),
        }),
        config_yaml: None,
    };
    assert_eq!(
        to_app_config(&start, FileConfig::default(), &narrow, false),
        Err(AppConfigError::InvalidMidiTempo {
            value: 120.0f32.to_bits()
        })
    );
}

#[test]
fn midi_text_listing_names_each_port() {
    let entries = vec![
        MidiDeviceInfo {
            index: 0,
            name: "IAC Bus".to_string(),
        },
        MidiDeviceInfo {
            index: 12,
            name: "Launch".to_string(),
        },
    ];
    assert_eq!(
        MidiListener::list_devices_text(&entries),
        vec!["[0] IAC Bus".to_string(), "[12] Launch".to_string()]
    );
    assert_eq!(
        MidiListener::list_devices_text(&[]),
        vec!["[*] No MIDI input devices detected.".to_string()]
    );
}

#[test]
fn the_synthetic_clock_ticks_on_time_and_sleeps_at_most_a_poll() {
    assert_eq!(
        clock_step(100, 100, 20_833_333, 10_000_000),
        ClockStep {
            tick: true,
            next_tick_ns: 20_833_433,
            sleep_ns: 10_000_000
        }
    );
    assert_eq!(
        clock_step(5, 8, 20, 10),
        ClockStep {
            tick: false,
            next_tick_ns: 8,
            sleep_ns: 3
        }
    );
}

#[test]
fn midi_listing_in_json_is_one_array_line() {
    let entries = vec![MidiDeviceInfo {
        index: 0,
        name: "IAC \"Bus\"".to_string(),
    }];
    assert_eq!(
        MidiListener::list_devices(ListFormat::Json, &entries),
        vec![r#"[{"index":0,"name":"IAC \"Bus\""}]"#.to_string()]
    );
    assert_eq!(
        MidiListener::list_devices(ListFormat::Json, &[]),
        vec!["[]".to_string()]
    );
    assert_eq!(
        MidiListener::list_devices(ListFormat::Text, &entries),
        vec!["[0] IAC \"Bus\"".to_string()]
    );
}
