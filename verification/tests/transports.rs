use phase4::dsp::ChannelLevel;
use phase4::midi::MidiSnapshot;
use phase4::osc::{
    bin_address, bin_addresses, encode_midi_messages, midi_messages, record_send_attempt,
    send_buffer_size, SendAttempt, OSC_BANG, OSC_MIDI_START_ADDRESS, OSC_MIDI_STEPS_ADDRESS,
};
use phase4::server::{
    accept_action, client_action, client_continues, gate_display_payload, has_connected_clients,
    origin_rejection, serialiser_action, snapshot_changed, AcceptAction, AcceptOutcome,
    ClientAction, ClientEvent, SerialiserAction, SerialiserWake, RETAINED_SERIALISED_RECEIVERS,
};

#[test]
fn has_connected_clients_is_false_for_the_retained_receiver_alone() {
    assert!(!has_connected_clients(RETAINED_SERIALISED_RECEIVERS));
}

#[test]
fn has_connected_clients_is_true_above_the_retained_count() {
    assert!(has_connected_clients(RETAINED_SERIALISED_RECEIVERS + 1));
}

#[test]
fn serialiser_skips_frames_without_clients_but_serves_refreshes() {
    assert_eq!(serialiser_action(SerialiserWake::FrameChanged, 1), SerialiserAction::Skip);
    assert_eq!(
        serialiser_action(SerialiserWake::FrameChanged, 2),
        SerialiserAction::Encode { refresh: false }
    );
    assert_eq!(
        serialiser_action(SerialiserWake::RefreshRequested, 1),
        SerialiserAction::Encode { refresh: true }
    );
    assert_eq!(serialiser_action(SerialiserWake::FrameChannelClosed, 5), SerialiserAction::Stop);
    assert!(snapshot_changed(false, "a", "a"));
    assert!(!snapshot_changed(true, "a", "a"));
    assert!(snapshot_changed(true, "a", "b"));
}

#[test]
fn non_finite_payloads_are_refused_and_logged_once_per_streak() {
    let mut logged = false;
    let mut bad = ChannelLevel::zeroed();
    bad.peak = f32::NAN.to_bits();
    let good = ChannelLevel::zeroed();

    let first = gate_display_payload(&[bad], &mut logged);
    assert!(!first.encode && first.log_rejection && logged);
    let second = gate_display_payload(&[good, bad], &mut logged);
    assert!(!second.encode && !second.log_rejection);
    let third = gate_display_payload(&[good], &mut logged);
    assert!(third.encode && !logged);
    let fourth = gate_display_payload(&[bad], &mut logged);
    assert!(fourth.log_rejection);
}

#[test]
fn client_application_messages_are_closed_with_the_policy_reason() {
    assert_eq!(client_action(ClientEvent::ApplicationMessage), ClientAction::ClosePolicyAndEnd);
    assert_eq!(client_action(ClientEvent::Ping), ClientAction::FlushAndContinue);
    assert_eq!(client_action(ClientEvent::Shutdown), ClientAction::CloseAndEnd);
    assert!(client_continues(ClientAction::SendSnapshot, true));
    assert!(!client_continues(ClientAction::SendSnapshot, false));
    assert!(!client_continues(ClientAction::FlushAndEnd, true));
}

#[test]
fn accept_loop_checks_shutdown_first_and_respects_capacity() {
    assert_eq!(
        accept_action(false, AcceptOutcome::Accepted { slot_free: true }),
        AcceptAction::Shutdown
    );
    assert_eq!(
        accept_action(true, AcceptOutcome::Accepted { slot_free: false }),
        AcceptAction::RejectAtCapacity
    );
    assert_eq!(accept_action(true, AcceptOutcome::Accepted { slot_free: true }), AcceptAction::Serve);
    assert_eq!(accept_action(true, AcceptOutcome::TimedOut), AcceptAction::Continue);
}

#[test]
fn browser_origins_are_rejected_only_when_asked() {
    assert_eq!(origin_rejection(false, Some("https://example.com")), None);
    assert_eq!(origin_rejection(true, None), None);
    assert_eq!(
        origin_rejection(true, Some("https://example.com")).as_deref(),
        Some("Browser-origin WebSocket clients are not supported, got https://example.com")
    );
}

#[test]
fn osc_address_format_is_correct() {
    assert_eq!(bin_address(0, 0), "/phase4/ch/0/bin/0");
    assert_eq!(bin_address(1, 63), "/phase4/ch/1/bin/63");
}

#[test]
fn pre_built_address_table_has_correct_shape() {
    let addresses = bin_addresses(2);
    assert_eq!(addresses.len(), 64);
    assert_eq!(addresses[0], "/phase4/ch/0/bin/0");
    assert_eq!(addresses[32 + 5], "/phase4/ch/1/bin/5");
    assert_eq!(addresses[63], "/phase4/ch/1/bin/31");
}

#[test]
fn send_buffer_scales_with_the_frame_burst() {
    assert_eq!(send_buffer_size(2, false), 64 * 64 * 4);
    assert_eq!(send_buffer_size(2, true), 66 * 64 * 4);
    assert_eq!(send_buffer_size(0, false), 0);
}

#[test]
fn midi_messages_carry_steps_and_a_bang_for_the_fired_event() {
    assert!(midi_messages(None).is_empty());
    let quiet = midi_messages(Some(MidiSnapshot {
        transport: None,
        steps: 7,
    }));
    assert_eq!(quiet, vec![(OSC_MIDI_STEPS_ADDRESS, 7)]);
    let started = midi_messages(Some(MidiSnapshot {
        transport: Some("start"),
        steps: u32::MAX,
    }));
    assert_eq!(
        started,
        vec![(OSC_MIDI_STEPS_ADDRESS, -1), (OSC_MIDI_START_ADDRESS, OSC_BANG)]
    );
}

#[test]
fn midi_messages_encode_as_osc_int_messages() {
    let packets = encode_midi_messages(Some(MidiSnapshot {
        transport: None,
        steps: 7,
    }));
    assert_eq!(packets.len(), 1);
    let mut expected = b"/phase4/midi/steps\0\0,i\0\0".to_vec();
    expected.extend_from_slice(&7i32.to_be_bytes());
    assert_eq!(packets[0], expected);
}

#[test]
fn send_failures_are_logged_once_per_streak() {
    let mut send_logged = false;
    let mut encode_logged = false;
    assert!(record_send_attempt(SendAttempt::SendFailed, &mut send_logged, &mut encode_logged).log_failure);
    assert!(!record_send_attempt(SendAttempt::SendFailed, &mut send_logged, &mut encode_logged).log_failure);
    assert!(!record_send_attempt(SendAttempt::Sent, &mut send_logged, &mut encode_logged).log_failure);
    assert!(record_send_attempt(SendAttempt::SendFailed, &mut send_logged, &mut encode_logged).log_failure);
}

#[test]
fn serialise_display_payload_rejects_non_finite_values_once_per_streak() {
    let mut payload = ChannelLevel::zeroed();
    payload.peak = f32::NAN.to_bits();
    let mut already_logged = false;

    let first = gate_display_payload(&[payload], &mut already_logged);
    let second = gate_display_payload(&[payload], &mut already_logged);

    assert!(!first.encode, "a non-finite payload should be rejected");
    assert!(!second.encode, "a non-finite payload should be rejected");
    let logs = [first.log_rejection, second.log_rejection].iter().filter(|l| **l).count();
    assert_eq!(logs, 1, "a second consecutive rejection should not log again");
}

#[test]
fn serialise_display_payload_logs_again_after_a_success() {
    let mut failing = ChannelLevel::zeroed();
    failing.peak = f32::NAN.to_bits();
    let healthy = ChannelLevel::zeroed();
    let mut already_logged = false;

    let gates = [
        gate_display_payload(&[failing], &mut already_logged),
        gate_display_payload(&[healthy], &mut already_logged),
        gate_display_payload(&[failing], &mut already_logged),
    ];
    let logs = gates.iter().filter(|g| g.log_rejection).count();
    assert_eq!(logs, 2, "a fresh rejection after a valid frame should log again");
}

#[test]
fn midi_packet_table_has_correct_addresses_and_arg_types() {
    let cases = [
        (None, "/phase4/midi/steps"),
        (Some("start"), "/phase4/midi/start"),
        (Some("stop"), "/phase4/midi/stop"),
        (Some("continue"), "/phase4/midi/continue"),
    ];

    for (transport, expected_addr) in cases {
        let packets = encode_midi_messages(Some(MidiSnapshot { transport, steps: 5 }));
        let packet = packets.last().expect("at least the step count is sent");
        let (_, decoded) = rosc::decoder::decode_udp(packet).expect("the packet decodes");
        if let rosc::OscPacket::Message(msg) = decoded {
            assert_eq!(msg.addr, expected_addr);
            assert_eq!(msg.args.len(), 1);
            assert!(matches!(msg.args[0], rosc::OscType::Int(_)));
        } else {
            panic!("{expected_addr} must be an OscMessage");
        }
    }
}
