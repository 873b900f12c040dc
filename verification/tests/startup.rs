use phase4::audio::Specs;
use phase4::cli::EventFormat;
use phase4::config::{validate_channel_selection, AppConfigError};
use phase4::net::{IpAddress, SocketAddress};
use phase4::events::{map_config_error, map_startup_error, Emitter, FatalReason, StartupCause};

#[test]
fn validate_channel_selection_accepts_none() {
    let hw_specs = Specs {
        sample_rate: 44100,
        channels: 2,
    };

    assert!(validate_channel_selection(None, hw_specs).is_ok());
}

#[test]
fn validate_channel_selection_rejects_out_of_range_index() {
    let hw_specs = Specs {
        sample_rate: 44100,
        channels: 2,
    };

    let result = validate_channel_selection(Some(&[0, 2]), hw_specs);
    assert!(
        result.is_err(),
        "index 2 must be rejected on 2-channel hardware"
    );
}

#[test]
fn validate_channel_selection_accepts_in_range_indices() {
    let hw_specs = Specs {
        sample_rate: 44100,
        channels: 6,
    };

    assert!(validate_channel_selection(Some(&[0, 3, 5]), hw_specs).is_ok());
}

#[test]
fn validate_channel_selection_reports_the_largest_out_of_range_index() {
    let hw_specs = Specs {
        sample_rate: 48000,
        channels: 2,
    };

    assert_eq!(
        validate_channel_selection(Some(&[3, 0, 7, 2]), hw_specs),
        Err(AppConfigError::ChannelIndexOutOfRange { idx: 7, channels: 2 })
    );
    assert_eq!(validate_channel_selection(Some(&[]), hw_specs), Ok(()));
}

#[test]
fn emitter_is_silent_when_disabled() {
    let emitter = Emitter::new(None);
    assert!(!emitter.is_enabled());
}

#[test]
fn emitter_is_enabled_for_json_format() {
    let emitter = Emitter::new(Some(EventFormat::Json));
    assert!(emitter.is_enabled());
}

#[test]
fn map_config_error_covers_every_variant() {
    let cases: Vec<(AppConfigError, FatalReason)> = vec![
        (AppConfigError::MissingDevice, FatalReason::DeviceNotFound),
        (AppConfigError::NoOutputConfigured, FatalReason::NoOutputConfigured),
        (
            AppConfigError::NonLoopbackBindAddress(SocketAddress {
                ip: IpAddress::V4(0, 0, 0, 0),
                port: 1,
            }),
            FatalReason::InvalidConfig,
        ),
        (AppConfigError::InvalidAttackTime { value: 0 }, FatalReason::InvalidConfig),
        (AppConfigError::InvalidReleaseTime { value: 0 }, FatalReason::InvalidConfig),
        (AppConfigError::InvalidFreqLow { value: 0 }, FatalReason::InvalidConfig),
        (AppConfigError::InvalidFreqHigh { value: 0 }, FatalReason::InvalidConfig),
        (
            AppConfigError::InvalidFreqRange {
                freq_low: 1.0f32.to_bits(),
                freq_high: 1.0f32.to_bits(),
            },
            FatalReason::InvalidConfig,
        ),
        (AppConfigError::InvalidFilterQ { value: 0 }, FatalReason::InvalidConfig),
        (AppConfigError::InvalidBroadcastRate { value: 0 }, FatalReason::InvalidConfig),
        (AppConfigError::InvalidMidiTempo { value: 0 }, FatalReason::InvalidConfig),
        (AppConfigError::InvalidMaxClients, FatalReason::InvalidConfig),
        (AppConfigError::EmptyChannelSelection, FatalReason::InvalidConfig),
        (
            AppConfigError::ChannelIndexOutOfRange { idx: 5, channels: 2 },
            FatalReason::InvalidConfig,
        ),
        (AppConfigError::ConfigFileParseError(String::new()), FatalReason::InvalidConfig),
        (AppConfigError::ConfigFileNotFound(String::new()), FatalReason::InvalidConfig),
        (
            AppConfigError::InvalidFreqAboveNyquist {
                sample_rate: 48_000,
                freq_high: 25_000.0f32.to_bits(),
                nyquist_hz: 24_000.0f32.to_bits(),
            },
            FatalReason::InvalidConfig,
        ),
        (
            AppConfigError::InvalidFreqAboveSafetyCeiling {
                sample_rate: 48_000,
                freq_high: 22_000.0f32.to_bits(),
                max_safe_hz: 21_600.0f32.to_bits(),
            },
            FatalReason::InvalidConfig,
        ),
    ];

    for (error, expected) in cases {
        assert_eq!(map_config_error(&error), expected, "unexpected mapping for {error:?}");
    }
}

#[test]
fn map_startup_error_detects_addr_in_use_through_anyhow_context() {
    let chain = vec![
        StartupCause::Other("Failed to bind WebSocket server to 127.0.0.1:8889".to_string()),
        StartupCause::Io {
            addr_in_use: true,
            message: "address in use".to_string(),
        },
    ];

    assert_eq!(map_startup_error(&chain), FatalReason::PortInUse);
}

#[test]
fn map_startup_error_ignores_non_addr_in_use_io_errors() {
    let chain = vec![
        StartupCause::Other("Failed to bind WebSocket server".to_string()),
        StartupCause::Io {
            addr_in_use: false,
            message: "permission denied".to_string(),
        },
    ];

    assert_eq!(map_startup_error(&chain), FatalReason::StartupFailed);
}

#[test]
fn map_startup_error_reuses_config_error_mapping_through_the_chain() {
    let chain = vec![StartupCause::Config(AppConfigError::ChannelIndexOutOfRange {
        idx: 5,
        channels: 2,
    })];

    assert_eq!(map_startup_error(&chain), FatalReason::InvalidConfig);
}

#[test]
fn map_startup_error_detects_device_resolution_failures() {
    let chain = vec![StartupCause::Other(
        "No input device matched \"Duet 3\". phase4 will not fall back to the \
         system default. Run with --audio-list to see available devices."
            .to_string(),
    )];

    assert_eq!(map_startup_error(&chain), FatalReason::DeviceNotFound);
}

#[test]
fn map_startup_error_falls_back_to_startup_failed() {
    let chain = vec![StartupCause::Other(
        "some unexpected failure with no known marker".to_string(),
    )];

    assert_eq!(map_startup_error(&chain), FatalReason::StartupFailed);
}

#[test]
fn map_startup_error_checks_each_kind_across_the_whole_chain() {
    let chain = vec![
        StartupCause::Config(AppConfigError::MissingDevice),
        StartupCause::Io {
            addr_in_use: true,
            message: "address in use".to_string(),
        },
    ];
    assert_eq!(map_startup_error(&chain), FatalReason::PortInUse);

    let chain = vec![
        StartupCause::Other("Run with --audio-list to see available devices".to_string()),
        StartupCause::Config(AppConfigError::EmptyChannelSelection),
    ];
    assert_eq!(map_startup_error(&chain), FatalReason::InvalidConfig);

    let chain = vec![
        StartupCause::Io {
            addr_in_use: false,
            message: "permission denied".to_string(),
        },
        StartupCause::Other("Run with --audio-list to see available devices".to_string()),
    ];
    assert_eq!(map_startup_error(&chain), FatalReason::DeviceNotFound);
    assert_eq!(map_startup_error(&[]), FatalReason::StartupFailed);
}
