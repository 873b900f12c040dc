use phase4::audio::DeviceError;
use phase4::config::AppConfigError;
use phase4::controller::{key_command, toggle_status, KeyCommand, KeyInput};
use phase4::headless::{
    error_code, headless_stop, ErrorSource, EventCode, HeadlessStop, ShutdownReason,
    UNKNOWN_EVENT_CODE,
};
use phase4::midi::MidiDeviceError;
use phase4::recorder::{
    recording_filename, BitDepth, RecorderAction, RecorderState, RecordingPhase, Writer,
};
use phase4::worker::{
    join_step, JoinOutcome, JoinPoll, JoinStep, WorkerKind, SHUTDOWN_POLL_MS,
};

#[test]
fn headless_stop_prefers_a_signal_then_stdin_then_the_engine() {
    assert_eq!(
        headless_stop(true, true, false),
        Some(HeadlessStop::Requested(ShutdownReason::Signal))
    );
    assert_eq!(
        headless_stop(false, true, false),
        Some(HeadlessStop::Requested(ShutdownReason::StdinClosed))
    );
    assert_eq!(headless_stop(false, false, true), None);
    assert_eq!(headless_stop(false, false, false), Some(HeadlessStop::Engine));
}

#[test]
fn error_codes_are_the_variant_names() {
    assert_eq!(AppConfigError::MissingDevice.event_code(), "MissingDevice");
    assert_eq!(
        AppConfigError::ChannelIndexOutOfRange { idx: 3, channels: 2 }.event_code(),
        "ChannelIndexOutOfRange"
    );
    assert_eq!(
        DeviceError::NoMatch {
            query: "x".to_string()
        }
        .event_code(),
        "NoMatch"
    );
    assert_eq!(
        MidiDeviceError::MidiNoMatch {
            query: "x".to_string()
        }
        .event_code(),
        "MidiNoMatch"
    );
    assert_eq!(error_code(None), UNKNOWN_EVENT_CODE);
    assert_eq!(
        error_code(Some(&ErrorSource::Device(DeviceError::EmptyQuery))),
        "EmptyQuery"
    );
    assert_eq!(
        error_code(Some(&ErrorSource::Config(AppConfigError::InvalidMaxClients))),
        "InvalidMaxClients"
    );
}

#[test]
fn worker_specs_name_each_worker() {
    let spec = WorkerKind::WebSocket.spec();
    assert_eq!(spec.name, "websocket-server");
    assert_eq!(spec.success_message, "- WebSocket server shutdown complete");
    assert_eq!(spec.timeout(), 1_500);
    assert_eq!(WorkerKind::Generator.spec().timeout_ms, 250);
    assert_eq!(WorkerKind::MidiInput.spec().name, "midi-input");
}

#[test]
fn a_join_waits_in_bounded_steps_and_then_detaches() {
    assert_eq!(
        join_step(250, JoinPoll::Finished { panicked: false }),
        JoinStep::Done(JoinOutcome::Joined)
    );
    assert_eq!(
        join_step(250, JoinPoll::Finished { panicked: true }),
        JoinStep::Done(JoinOutcome::Panicked)
    );
    assert_eq!(
        join_step(250, JoinPoll::Running { elapsed_ms: 0 }),
        JoinStep::Wait {
            sleep_ms: SHUTDOWN_POLL_MS
        }
    );
    assert_eq!(
        join_step(250, JoinPoll::Running { elapsed_ms: 245 }),
        JoinStep::Wait { sleep_ms: 5 }
    );
    assert_eq!(
        join_step(250, JoinPoll::Running { elapsed_ms: 250 }),
        JoinStep::Done(JoinOutcome::TimedOut)
    );
}

#[test]
fn keys_toggle_the_engine_and_exit() {
    let press = |c: char, control: bool| KeyInput {
        character: Some(c),
        control,
        press: true,
    };
    assert_eq!(key_command(press('t', false)), KeyCommand::ToggleEngine);
    assert_eq!(key_command(press('T', false)), KeyCommand::ToggleEngine);
    assert_eq!(key_command(press('c', true)), KeyCommand::Exit);
    assert_eq!(key_command(press('c', false)), KeyCommand::Ignore);
    assert_eq!(
        key_command(KeyInput {
            character: Some('t'),
            control: false,
            press: false
        }),
        KeyCommand::Ignore
    );
    assert_eq!(toggle_status(true), "PAUSED");
    assert_eq!(toggle_status(false), "ACTIVE");
}

#[test]
fn toggle_off_on_while_draining_opens_new_file() {
    let mut state = RecorderState::new();
    assert_eq!(state.update(true, true), RecorderAction::Open);
    assert!(!state.opened(true));
    assert_eq!(state.phase(), RecordingPhase::Recording);
    assert_eq!(state.update(false, false), RecorderAction::Nothing);
    assert_eq!(state.phase(), RecordingPhase::Draining);
    assert_eq!(state.update(true, false), RecorderAction::Reopen);
    assert!(!state.opened(true));
    assert_eq!(state.update(false, false), RecorderAction::Nothing);
    assert_eq!(state.update(false, true), RecorderAction::Close);
    assert_eq!(state.phase(), RecordingPhase::Idle);
}

#[test]
fn fatal_write_error_does_not_reopen_on_next_update() {
    let mut state = RecorderState::new();
    assert_eq!(state.update(true, true), RecorderAction::Open);
    state.opened(true);
    state.write_failed();
    assert_eq!(state.phase(), RecordingPhase::Idle);
    assert_eq!(state.update(false, true), RecorderAction::Nothing);
    let mut failing = RecorderState::new();
    assert_eq!(failing.update(true, true), RecorderAction::Open);
    assert!(failing.opened(false));
    assert_eq!(failing.phase(), RecordingPhase::Idle);
}

#[test]
fn filename_pattern_substitution() {
    let pattern = "rec_{timestamp}_{sample_rate}hz_{bit_depth}bit.wav";
    assert_eq!(
        recording_filename(pattern, 1_700_000_000_000_000, 48_000, BitDepth::Int24.bits_per_sample()),
        "rec_1700000000000000_48000hz_24bit.wav"
    );
    assert_eq!(recording_filename("plain.wav", 1, 2, 3), "plain.wav");
    assert_eq!(
        recording_filename("{timestamp}-{timestamp}", 12, 1, 16),
        "12-12"
    );
    let writer = Writer::new(pattern.to_string());
    assert_eq!(writer.filename_pattern(), pattern);
    assert!(BitDepth::Float32.is_float());
    assert!(!BitDepth::Int16.is_float());
}
