use phase4::app::AppState;
use phase4::midi::{
    record_byte, MidiCounters, MIDI_CLOCK_TICKS_PER_STEP, MIDI_STATUS_CONTINUE, MIDI_STATUS_START,
    MIDI_STATUS_STOP, MIDI_STATUS_TIMING_CLOCK, MIDI_TRANSPORT_CONTINUE, MIDI_TRANSPORT_NONE,
    MIDI_TRANSPORT_START, MIDI_TRANSPORT_STOP,
};
use phase4::names::is_whitespace;
use std::sync::atomic::Ordering;

#[test]
fn record_byte_sets_start() {
    let state = AppState::new();
    record_byte(0xFA, &state, &mut 0u8);
    assert_eq!(
        state.midi_last_transport.load(Ordering::Acquire),
        MIDI_TRANSPORT_START
    );
}

#[test]
fn record_byte_publishes_start_with_reset_step_count() {
    const PREVIOUS_STEP_COUNT: u32 = 12;

    let state = AppState::new();
    state.midi_steps.store(PREVIOUS_STEP_COUNT, Ordering::Release);
    record_byte(MIDI_STATUS_START, &state, &mut 0u8);
    assert_eq!(state.midi_steps.load(Ordering::Acquire), 0);
    assert_eq!(
        state.midi_transport_latest.load(Ordering::Acquire),
        MIDI_TRANSPORT_START
    );
}

#[test]
fn record_byte_sets_stop() {
    let state = AppState::new();
    record_byte(0xFC, &state, &mut 0u8);
    assert_eq!(
        state.midi_last_transport.load(Ordering::Acquire),
        MIDI_TRANSPORT_STOP
    );
}

#[test]
fn record_byte_sets_continue() {
    let state = AppState::new();
    record_byte(0xFB, &state, &mut 0u8);
    assert_eq!(
        state.midi_last_transport.load(Ordering::Acquire),
        MIDI_TRANSPORT_CONTINUE
    );
}

#[test]
fn each_transport_event_is_counted_and_kept_as_the_latest() {
    let state = AppState::new();

    for (byte, code) in [
        (MIDI_STATUS_START, MIDI_TRANSPORT_START),
        (MIDI_STATUS_STOP, MIDI_TRANSPORT_STOP),
        (MIDI_STATUS_CONTINUE, MIDI_TRANSPORT_CONTINUE),
    ] {
        let before = state.midi_transport_count.load(Ordering::Acquire);
        record_byte(byte, &state, &mut 0u8);
        assert_eq!(
            state.midi_transport_count.load(Ordering::Acquire),
            before + 1
        );
        assert_eq!(state.midi_transport_latest.load(Ordering::Acquire), code);
    }
}

#[test]
fn timing_clock_bytes_leave_the_transport_count_and_latest_alone() {
    let state = AppState::new();
    let mut ticks_since_step = 0u8;

    for _ in 0..MIDI_CLOCK_TICKS_PER_STEP {
        record_byte(MIDI_STATUS_TIMING_CLOCK, &state, &mut ticks_since_step);
    }

    assert_eq!(state.midi_transport_count.load(Ordering::Acquire), 0);
    assert_eq!(
        state.midi_transport_latest.load(Ordering::Acquire),
        MIDI_TRANSPORT_NONE
    );
}

#[test]
fn record_byte_does_not_publish_before_a_full_step() {
    let state = AppState::new();
    let mut ticks_since_step = 0u8;
    for _ in 0..(MIDI_CLOCK_TICKS_PER_STEP - 1) {
        record_byte(0xF8, &state, &mut ticks_since_step);
    }
    assert_eq!(state.midi_steps.load(Ordering::Acquire), 0);
}

#[test]
fn record_byte_publishes_one_step_after_six_ticks() {
    let state = AppState::new();
    let mut ticks_since_step = 0u8;
    for _ in 0..MIDI_CLOCK_TICKS_PER_STEP {
        record_byte(0xF8, &state, &mut ticks_since_step);
    }
    assert_eq!(state.midi_steps.load(Ordering::Acquire), 1);
}

#[test]
fn record_byte_accumulator_persists_across_calls() {
    let state = AppState::new();
    let mut ticks_since_step = 0u8;
    for _ in 0..4 {
        record_byte(0xF8, &state, &mut ticks_since_step);
    }
    assert_eq!(state.midi_steps.load(Ordering::Acquire), 0);
    for _ in 0..2 {
        record_byte(0xF8, &state, &mut ticks_since_step);
    }
    assert_eq!(state.midi_steps.load(Ordering::Acquire), 1);
}

#[test]
fn record_byte_start_resets_the_step_accumulator() {
    let state = AppState::new();
    let mut ticks_since_step = 0u8;
    for _ in 0..3 {
        record_byte(0xF8, &state, &mut ticks_since_step);
    }
    record_byte(0xFA, &state, &mut ticks_since_step);
    for _ in 0..3 {
        record_byte(0xF8, &state, &mut ticks_since_step);
    }
    assert_eq!(state.midi_steps.load(Ordering::Acquire), 0);
}

#[test]
fn record_byte_start_resets_the_absolute_step_count() {
    let state = AppState::new();
    let mut ticks_since_step = 0u8;

    for _ in 0..(MIDI_CLOCK_TICKS_PER_STEP * 2) {
        record_byte(0xF8, &state, &mut ticks_since_step);
    }
    assert_eq!(state.midi_steps.load(Ordering::Acquire), 2);

    record_byte(0xFA, &state, &mut ticks_since_step);
    assert_eq!(state.midi_steps.load(Ordering::Acquire), 0);
}

#[test]
fn record_byte_ignores_unrecognised_bytes() {
    let state = AppState::new();
    for byte in [0x00u8, 0xFE, 0xFF, 0x90] {
        record_byte(byte, &state, &mut 0u8);
    }
    assert_eq!(
        state.midi_last_transport.load(Ordering::Acquire),
        MIDI_TRANSPORT_NONE
    );
    assert_eq!(state.midi_steps.load(Ordering::Acquire), 0);
}

#[test]
fn a_start_is_recorded_whatever_the_tick_count() {
    let state = AppState::new();
    state.midi_steps.store(7, Ordering::Release);
    let mut ticks_since_step = u8::MAX;
    record_byte(MIDI_STATUS_START, &state, &mut ticks_since_step);
    assert_eq!(ticks_since_step, 0);
    assert_eq!(state.midi_steps.load(Ordering::Acquire), 0);
    assert_eq!(state.midi_transport_count.load(Ordering::Acquire), 1);
}

#[test]
fn a_mixed_byte_run_counts_clocks_since_the_last_start() {
    let mut bytes = vec![0xF8u8; 20];
    bytes.push(MIDI_STATUS_STOP);
    bytes.push(MIDI_STATUS_START);
    bytes.extend([0xF8u8; 13]);
    bytes.push(0x90);
    bytes.push(MIDI_STATUS_CONTINUE);
    bytes.extend([0xF8u8; 2]);

    let mut counters = MidiCounters::new();
    let state = AppState::new();
    let mut ticks = 0u8;
    for &byte in &bytes {
        counters.record(byte);
        record_byte(byte, &state, &mut ticks);
    }
    // 15 clocks after the Start: two whole steps and three ticks over.
    assert_eq!(counters.steps, 2);
    assert_eq!(counters.ticks_since_step, 3);
    assert_eq!(counters.transport_count, 3);
    assert_eq!(counters.transport_latest, MIDI_TRANSPORT_CONTINUE);
    assert_eq!(state.midi_steps.load(Ordering::Acquire), 2);
    assert_eq!(ticks, 3);
    assert_eq!(state.midi_transport_count.load(Ordering::Acquire), 3);
}

#[test]
fn white_space_is_the_unicode_property() {
    for code in 0u32..=0x10FFFF {
        if let Some(c) = char::from_u32(code) {
            assert_eq!(is_whitespace(c), c.is_whitespace(), "code point {code:#x}");
        }
    }
}
