use phase4::cli::{Args, ControllerMode};
use phase4::config::{
    normalise_channel_selection, resolve_config, validate_max_clients, AppConfigError,
    ConfigInput, ConfigMidiInput, FileConfig, OutputConfig, TestSignal, VocoderConfig,
    DEFAULT_BROADCAST_RATE_HZ,
};
use std::time::{Duration, Instant};
use phase4::net::{IpAddress, SocketAddress};

fn loopback(port: u16) -> SocketAddress {
    SocketAddress {
        ip: IpAddress::V4(127, 0, 0, 1),
        port,
    }
}

/// Whether the tick interval of a synthetic clock at `bpm` is a non-zero
/// duration that can be scheduled from now, as the runtime works it out.
fn tick_interval_ok(bpm: f32) -> bool {
    let seconds = 60.0 / (f64::from(bpm) * 24.0);
    match Duration::try_from_secs_f64(seconds) {
        Ok(interval) => !interval.is_zero() && Instant::now().checked_add(interval).is_some(),
        Err(_) => false,
    }
}

fn resolve_args(args: &Args) -> Result<phase4::config::AppConfig, AppConfigError> {
    let tick_ok = args
        .midi
        .midi_test_bpm
        .map_or(true, |bits| tick_interval_ok(f32::from_bits(bits)));
    resolve_config(args, FileConfig::default(), tick_ok)
}

fn args_with_device(device: Option<&str>) -> Args {
    let mut args = Args::default();
    args.input.device = device.map(str::to_string);
    args.network.ws_addr = Some(loopback(8889));
    args
}

#[test]
fn try_from_requires_device_in_normal_mode() {
    let result = resolve_config(&args_with_device(None), FileConfig::default(), true);
    assert_eq!(result, Err(AppConfigError::MissingDevice));
}

#[test]
fn try_from_rejects_empty_device_string() {
    let result = resolve_config(&args_with_device(Some("  ")), FileConfig::default(), true);
    assert_eq!(result, Err(AppConfigError::MissingDevice));
}

#[test]
fn try_from_passes_device_index_and_defaults() {
    let config = resolve_config(&args_with_device(Some("Duet")), FileConfig::default(), true).unwrap();
    assert_eq!(config.input, ConfigInput::Device("Duet".to_string()));
    assert_eq!(config.broadcast_rate, Some(DEFAULT_BROADCAST_RATE_HZ));
    assert_eq!(config.broadcast_rate, Some(60.0f32.to_bits()));
    assert_eq!(config.vocoder_config.attack_ms, 24.0f32.to_bits());
    assert_eq!(config.vocoder_config.freq_high, 6000.0f32.to_bits());
    assert_eq!(config.analyse_channels, None);
    assert_eq!(config.controller_mode, ControllerMode::Term);
    assert_eq!(
        config.outputs.as_slice(),
        &[OutputConfig::WebSocket {
            addr: loopback(8889),
            max_clients: 8,
            no_browser_origin: false
        }]
    );
}

#[test]
fn try_from_resolves_test_sweep_to_calibration_input() {
    let mut args = args_with_device(None);
    args.calibration.test_sweep = Some(0.1f32.to_bits());
    let config = resolve_config(&args, FileConfig::default(), true).unwrap();
    assert_eq!(
        config.input,
        ConfigInput::Calibration(TestSignal::Sweep(0.1f32.to_bits()))
    );
}

#[test]
fn try_from_rejects_vocoder_high_frequency_below_low_frequency() {
    let mut args = args_with_device(Some("Duet"));
    args.vocoder.freq_low = Some(5000.0f32.to_bits());
    args.vocoder.freq_high = Some(100.0f32.to_bits());
    assert_eq!(
        resolve_config(&args, FileConfig::default(), true),
        Err(AppConfigError::InvalidFreqRange {
            freq_low: 5000.0f32.to_bits(),
            freq_high: 100.0f32.to_bits()
        })
    );
}

#[test]
fn try_from_rejects_non_finite_or_non_positive_values() {
    let mut args = args_with_device(Some("Duet"));
    args.vocoder.release_ms = Some(f32::INFINITY.to_bits());
    assert_eq!(
        resolve_config(&args, FileConfig::default(), true),
        Err(AppConfigError::InvalidReleaseTime {
            value: f32::INFINITY.to_bits()
        })
    );
    let mut args = args_with_device(Some("Duet"));
    args.vocoder.attack_ms = Some((-1.0f32).to_bits());
    assert!(matches!(
        resolve_config(&args, FileConfig::default(), true),
        Err(AppConfigError::InvalidAttackTime { .. })
    ));
    let mut args = args_with_device(Some("Duet"));
    args.network.broadcast_rate = Some(0.0f32.to_bits());
    assert_eq!(
        resolve_config(&args, FileConfig::default(), true),
        Err(AppConfigError::InvalidBroadcastRate { value: 0 })
    );
}

#[test]
fn try_from_rejects_non_loopback_bind_address_and_zero_clients() {
    let mut args = args_with_device(Some("Duet"));
    let public = SocketAddress {
        ip: IpAddress::V4(0, 0, 0, 0),
        port: 8889,
    };
    args.network.ws_addr = Some(public);
    assert_eq!(
        resolve_config(&args, FileConfig::default(), true),
        Err(AppConfigError::NonLoopbackBindAddress(public))
    );
    let mut args = args_with_device(Some("Duet"));
    args.network.max_clients = Some(0);
    assert_eq!(
        resolve_config(&args, FileConfig::default(), true),
        Err(AppConfigError::InvalidMaxClients)
    );
}

#[test]
fn try_from_rejects_when_no_output_configured() {
    let mut args = args_with_device(Some("Duet"));
    args.network.ws_addr = None;
    assert_eq!(
        resolve_config(&args, FileConfig::default(), true),
        Err(AppConfigError::NoOutputConfigured)
    );
}

#[test]
fn try_from_builds_both_outputs_when_both_addrs_present() {
    let mut args = args_with_device(Some("Duet"));
    args.network.osc_addr = Some(loopback(7000));
    let config = resolve_config(&args, FileConfig::default(), true).unwrap();
    assert_eq!(config.outputs.as_slice().len(), 2);
    assert_eq!(config.outputs.as_slice()[1], OutputConfig::Osc { addr: loopback(7000) });
}

#[test]
fn file_config_fills_what_the_command_line_leaves_out() {
    let mut file = FileConfig::default();
    file.audio.device_name_match = Some("File Device".to_string());
    file.network.max_clients = Some(3);
    file.network.no_browser_origin = Some(true);
    file.midi.device_name_match = Some("Loopback".to_string());
    file.network.broadcast_rate = Some(30.0f32.to_bits());
    file.audio.analyse_channels = Some(vec![3, 1, 3]);
    let config = resolve_config(&args_with_device(None), file, true).unwrap();
    assert_eq!(config.input, ConfigInput::Device("File Device".to_string()));
    assert_eq!(config.broadcast_rate, Some(30.0f32.to_bits()));
    assert_eq!(config.analyse_channels, Some(vec![1, 3]));
    assert_eq!(
        config.midi_input,
        Some(ConfigMidiInput::Device("Loopback".to_string()))
    );
    assert_eq!(
        config.outputs.as_slice()[0],
        OutputConfig::WebSocket {
            addr: loopback(8889),
            max_clients: 3,
            no_browser_origin: false
        }
    );
}

#[test]
fn try_from_rejects_empty_channel_selection() {
    let mut args = args_with_device(Some("Duet"));
    args.input.analyse_channels = Some(vec![]);
    assert_eq!(
        resolve_config(&args, FileConfig::default(), true),
        Err(AppConfigError::EmptyChannelSelection)
    );
}

#[test]
fn normalise_channel_selection_sorts_and_dedups() {
    assert_eq!(normalise_channel_selection(None), Ok(None));
    assert_eq!(
        normalise_channel_selection(Some(&[5, 1, 5, 0])),
        Ok(Some(vec![0, 1, 5]))
    );
    assert_eq!(
        normalise_channel_selection(Some(&[])),
        Err(AppConfigError::EmptyChannelSelection)
    );
}

#[test]
fn max_clients_must_be_positive_and_countable() {
    assert!(validate_max_clients(1).is_ok());
    assert_eq!(validate_max_clients(0), Err(AppConfigError::InvalidMaxClients));
    assert_eq!(
        validate_max_clients(usize::MAX),
        Err(AppConfigError::InvalidMaxClients)
    );
    assert!(validate_max_clients(usize::MAX >> 3).is_ok());
}

#[test]
fn resolve_try_from_allows_no_device_in_calibration_mode() {
    let mut args = args_with_device(None);
    args.calibration.test_hz = Some(440.0f32.to_bits());
    let config = resolve_args(&args).unwrap();
    assert_eq!(
        config.input,
        ConfigInput::Calibration(TestSignal::FixedTone(440.0f32.to_bits()))
    );
}

#[test]
fn try_from_rejects_non_finite_calibration_values() {
    for non_finite_value in [f32::NAN, f32::INFINITY, f32::NEG_INFINITY] {
        let mut fixed_tone_args = args_with_device(None);
        fixed_tone_args.calibration.test_hz = Some(non_finite_value.to_bits());
        assert_eq!(
            resolve_args(&fixed_tone_args),
            Err(AppConfigError::InvalidTestFrequency {
                value: non_finite_value.to_bits()
            })
        );

        let mut sweep_args = args_with_device(None);
        sweep_args.calibration.test_sweep = Some(non_finite_value.to_bits());
        assert_eq!(
            resolve_args(&sweep_args),
            Err(AppConfigError::InvalidTestSweepRate {
                value: non_finite_value.to_bits()
            })
        );
    }
}

#[test]
fn try_from_rejects_calibration_values_outside_the_generator_range() {
    for invalid_frequency in [0.0f32, -1.0, f32::MAX, 19_846.0] {
        let mut fixed_tone_args = args_with_device(None);
        fixed_tone_args.calibration.test_hz = Some(invalid_frequency.to_bits());
        assert!(
            resolve_args(&fixed_tone_args).is_err(),
            "--test-hz should reject {invalid_frequency}"
        );

        let mut sweep_args = args_with_device(None);
        sweep_args.calibration.test_sweep = Some(invalid_frequency.to_bits());
        assert!(
            resolve_args(&sweep_args).is_err(),
            "--test-sweep should reject {invalid_frequency}"
        );
    }
    let mut highest = args_with_device(None);
    highest.calibration.test_hz = Some((44_100.0f32 * 0.45).to_bits());
    assert!(resolve_args(&highest).is_ok());
}

#[test]
fn try_from_resolves_midi_test_clock() {
    let mut args = args_with_device(Some("test"));
    args.midi.midi_test_bpm = Some(120.0f32.to_bits());
    let config = resolve_args(&args).unwrap();
    assert_eq!(
        config.midi_input,
        Some(ConfigMidiInput::TestClock(120.0f32.to_bits()))
    );
}

#[test]
fn try_from_resolves_midi_device() {
    let mut args = args_with_device(Some("test"));
    args.midi.midi_device = Some("Loopback".to_string());
    let config = resolve_args(&args).unwrap();
    assert_eq!(
        config.midi_input,
        Some(ConfigMidiInput::Device("Loopback".to_string()))
    );
}

#[test]
fn try_from_rejects_empty_midi_device_string() {
    let mut args = args_with_device(Some("test"));
    args.midi.midi_device = Some(String::new());
    let config = resolve_args(&args).unwrap();
    assert_eq!(config.midi_input, None);
}

#[test]
fn try_from_leaves_midi_input_none_when_absent() {
    let args = args_with_device(Some("test"));
    let config = resolve_args(&args).unwrap();
    assert_eq!(config.midi_input, None);
}

#[test]
fn try_from_rejects_non_positive_midi_tempo() {
    let mut args = args_with_device(Some("test"));
    args.midi.midi_test_bpm = Some(0.0f32.to_bits());
    assert_eq!(
        resolve_args(&args),
        Err(AppConfigError::InvalidMidiTempo { value: 0 })
    );
}

#[test]
fn try_from_rejects_midi_tempos_with_unrepresentable_tick_intervals() {
    for invalid_tempo in [f32::MIN_POSITIVE, f32::MAX] {
        let mut args = args_with_device(Some("test"));
        args.midi.midi_test_bpm = Some(invalid_tempo.to_bits());
        assert_eq!(
            resolve_args(&args),
            Err(AppConfigError::InvalidMidiTempo {
                value: invalid_tempo.to_bits()
            }),
            "the test clock should reject {invalid_tempo}"
        );
    }
}

#[test]
fn try_from_rejects_max_clients_above_the_runtime_limit() {
    let mut args = args_with_device(Some("test"));
    args.network.max_clients = Some((usize::MAX >> 3) + 1);
    assert_eq!(resolve_args(&args), Err(AppConfigError::InvalidMaxClients));
}

#[test]
fn try_from_rejects_filter_q_that_produces_non_finite_coefficients() {
    let mut args = args_with_device(Some("test"));
    args.vocoder.filter_q = Some(1);
    assert_eq!(
        resolve_args(&args),
        Err(AppConfigError::InvalidFilterQ { value: 1 })
    );
}

#[test]
fn filter_q_is_refused_exactly_where_the_biquad_term_overflows() {
    for bits in [1u32, 0x000f_ffff, 0x0010_0000, 0x0010_0001, 0x0080_0000, 0x4100_0000] {
        let q = f32::from_bits(bits);
        let coefficient_is_finite = (1.0f32 / (2.0 * q)).is_finite();
        let mut args = args_with_device(Some("test"));
        args.vocoder.filter_q = Some(bits);
        assert_eq!(
            resolve_args(&args).is_ok(),
            coefficient_is_finite,
            "filter Q with bits {bits:#x}"
        );
    }
}

#[test]
fn calibration_mode_drops_channel_selection() {
    let mut args = args_with_device(None);
    args.calibration.test_hz = Some(440.0f32.to_bits());
    args.input.analyse_channels = Some(vec![0, 3]);
    let config = resolve_args(&args).unwrap();
    assert_eq!(
        config.input,
        ConfigInput::Calibration(TestSignal::FixedTone(440.0f32.to_bits()))
    );
    assert_eq!(config.analyse_channels, None);
}

#[test]
fn calibration_mode_still_rejects_empty_channel_selection() {
    let mut args = args_with_device(None);
    args.calibration.test_hz = Some(440.0f32.to_bits());
    args.input.analyse_channels = Some(vec![]);
    assert_eq!(
        resolve_args(&args),
        Err(AppConfigError::EmptyChannelSelection)
    );
}

#[test]
fn cli_no_browser_origin_flag_is_forwarded() {
    let mut args = args_with_device(Some("test"));
    args.network.no_browser_origin = true;
    let config = resolve_args(&args).unwrap();
    assert_eq!(
        config.outputs.as_slice()[0],
        OutputConfig::WebSocket {
            addr: loopback(8889),
            max_clients: 8,
            no_browser_origin: true
        }
    );
}

#[test]
fn file_config_midi_device_used_when_cli_absent() {
    let args = args_with_device(Some("test"));
    let mut file = FileConfig::default();
    file.midi.device_name_match = Some("Loopback".to_string());
    let config = resolve_config(&args, file, true).unwrap();
    assert_eq!(
        config.midi_input,
        Some(ConfigMidiInput::Device("Loopback".to_string()))
    );
}

#[test]
fn cli_midi_device_overrides_file_config() {
    let mut args = args_with_device(Some("test"));
    args.midi.midi_device = Some("Hardware Port".to_string());
    let mut file = FileConfig::default();
    file.midi.device_name_match = Some("Loopback".to_string());
    let config = resolve_config(&args, file, true).unwrap();
    assert_eq!(
        config.midi_input,
        Some(ConfigMidiInput::Device("Hardware Port".to_string()))
    );
}

#[test]
fn test_midi_clock_overrides_file_config_midi_device() {
    let mut args = args_with_device(Some("test"));
    args.midi.midi_test_bpm = Some(120.0f32.to_bits());
    let mut file = FileConfig::default();
    file.midi.device_name_match = Some("Loopback".to_string());
    let config = resolve_config(&args, file, tick_interval_ok(120.0)).unwrap();
    assert_eq!(
        config.midi_input,
        Some(ConfigMidiInput::TestClock(120.0f32.to_bits()))
    );
}

#[test]
fn empty_file_config_midi_device_resolves_to_none() {
    let args = args_with_device(Some("test"));
    let mut file = FileConfig::default();
    file.midi.device_name_match = Some(String::new());
    let config = resolve_config(&args, file, true).unwrap();
    assert_eq!(config.midi_input, None);
}

#[test]
fn a_blank_device_name_is_any_unicode_white_space() {
    let result = resolve_config(
        &args_with_device(Some("\u{3000}\t\u{2028}")),
        FileConfig::default(),
        true,
    );
    assert_eq!(result, Err(AppConfigError::MissingDevice));
    let config = resolve_config(&args_with_device(Some("\u{200b}")), FileConfig::default(), true)
        .unwrap();
    assert_eq!(config.input, ConfigInput::Device("\u{200b}".to_string()));
}

#[test]
fn an_empty_selection_is_reported_before_a_missing_device() {
    let mut args = args_with_device(None);
    args.input.analyse_channels = Some(vec![]);
    assert_eq!(
        resolve_args(&args),
        Err(AppConfigError::EmptyChannelSelection)
    );
}

fn websocket_max_clients(config: &phase4::config::AppConfig) -> usize {
    match config.outputs.as_slice()[0] {
        OutputConfig::WebSocket { max_clients, .. } => max_clients,
        ref other => panic!("expected a WebSocket output, got {other:?}"),
    }
}

#[test]
fn resolve_try_from_forwards_max_clients() {
    let mut args = args_with_device(Some("test"));
    args.network.max_clients = Some(16);
    let config = resolve_args(&args).unwrap();
    assert_eq!(websocket_max_clients(&config), 16);
}

#[test]
fn resolve_try_from_rejects_zero_max_clients() {
    let mut args = args_with_device(Some("test"));
    args.network.max_clients = Some(0);
    assert_eq!(resolve_args(&args), Err(AppConfigError::InvalidMaxClients));
}

#[test]
fn resolve_try_from_forwards_vocoder_args() {
    let mut args = args_with_device(Some("test"));
    args.vocoder.attack_ms = Some(12.0f32.to_bits());
    args.vocoder.release_ms = Some(80.0f32.to_bits());
    args.vocoder.freq_low = Some(40.0f32.to_bits());
    args.vocoder.freq_high = Some(16_000.0f32.to_bits());
    args.vocoder.filter_q = Some(4.0f32.to_bits());
    let config = resolve_args(&args).unwrap();
    assert_eq!(config.vocoder_config.attack_ms, 12.0f32.to_bits());
    assert_eq!(config.vocoder_config.release_ms, 80.0f32.to_bits());
    assert_eq!(config.vocoder_config.freq_low, 40.0f32.to_bits());
    assert_eq!(config.vocoder_config.freq_high, 16_000.0f32.to_bits());
    assert_eq!(config.vocoder_config.filter_q, 4.0f32.to_bits());
}

#[test]
fn resolve_try_from_default_vocoder_args_match_default_config() {
    let args = args_with_device(Some("test"));
    let config = resolve_args(&args).unwrap();
    assert_eq!(config.vocoder_config, VocoderConfig::default_tuning());
}

#[test]
fn resolve_try_from_normalises_channel_selection() {
    let mut args = args_with_device(Some("test"));
    args.input.analyse_channels = Some(vec![3, 1, 1, 0]);
    let config = resolve_args(&args).unwrap();
    assert_eq!(config.analyse_channels, Some(vec![0, 1, 3]));
}

#[test]
fn resolve_try_from_defaults_channel_selection_to_none() {
    let args = args_with_device(Some("test"));
    let config = resolve_args(&args).unwrap();
    assert_eq!(config.analyse_channels, None);
}

#[test]
fn resolve_file_config_max_clients_overrides_default_when_cli_absent() {
    let mut args = args_with_device(Some("test"));
    args.network.max_clients = None;
    let mut file = FileConfig::default();
    file.network.max_clients = Some(4);
    let config = resolve_config(&args, file, true).unwrap();
    assert_eq!(websocket_max_clients(&config), 4);
}

#[test]
fn resolve_file_config_vocoder_attack_ms_overrides_default_when_cli_absent() {
    let mut args = args_with_device(Some("test"));
    args.vocoder.attack_ms = None;
    let mut file = FileConfig::default();
    file.vocoder.attack_ms = Some(15.0f32.to_bits());
    let config = resolve_config(&args, file, true).unwrap();
    assert_eq!(config.vocoder_config.attack_ms, 15.0f32.to_bits());
}

#[test]
fn resolve_file_config_device_overrides_none_when_cli_absent() {
    let args = args_with_device(None);
    let mut file = FileConfig::default();
    file.audio.device_name_match = Some("Focusrite 2i2".to_string());
    let config = resolve_config(&args, file, true).unwrap();
    assert_eq!(config.input, ConfigInput::Device("Focusrite 2i2".to_string()));
}

#[test]
fn resolve_file_config_invalid_max_clients_is_rejected() {
    let mut args = args_with_device(Some("test"));
    args.network.max_clients = None;
    let mut file = FileConfig::default();
    file.network.max_clients = Some(0);
    assert_eq!(
        resolve_config(&args, file, true),
        Err(AppConfigError::InvalidMaxClients)
    );
}

#[test]
fn resolve_file_config_rejects_empty_device_string() {
    let args = args_with_device(None);
    let mut file = FileConfig::default();
    file.audio.device_name_match = Some(String::new());
    assert_eq!(
        resolve_config(&args, file, true),
        Err(AppConfigError::MissingDevice)
    );
}

#[test]
fn resolve_try_from_builds_osc_only_output_when_ws_addr_absent() {
    let mut args = args_with_device(Some("test"));
    args.network.ws_addr = None;
    args.network.osc_addr = Some(loopback(7000));
    let config = resolve_args(&args).unwrap();
    assert_eq!(
        config.outputs.as_slice(),
        &[OutputConfig::Osc { addr: loopback(7000) }]
    );
}
