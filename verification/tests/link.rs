use phase4::headless::EventCode;
use phase4::link::{
    contract_int, parse_request, LinkError, LinkSession, MidiRequest, Request, Source,
    StartRequest, XpcValue,
};

fn entry(key: &str, value: XpcValue) -> (String, XpcValue) {
    (key.to_string(), value)
}

fn text(value: &str) -> XpcValue {
    XpcValue::String(value.to_string())
}

fn message(request_type: &str) -> Vec<(String, XpcValue)> {
    vec![entry("v", XpcValue::Int64(1)), entry("type", text(request_type))]
}

fn invalid_message(result: Result<Request, LinkError>) -> String {
    match result {
        Err(LinkError::InvalidRequest(m)) => m,
        other => panic!("expected an invalid request, got {other:?}"),
    }
}

#[test]
fn link_error_codes_are_the_variant_names() {
    assert_eq!(
        LinkError::ContractMismatch {
            requested: 2,
            supported: 1
        }
        .event_code(),
        "ContractMismatch"
    );
    assert_eq!(LinkError::InvalidRequest(String::new()).event_code(), "InvalidRequest");
    assert_eq!(LinkError::AlreadyRunning.event_code(), "AlreadyRunning");
}

#[test]
fn stop_while_idle_replies_ok_and_sends_no_event() {
    let mut session = LinkSession::new();
    let outcome = session.stop();
    assert!(outcome.ok);
    assert!(!outcome.stopped_event);
}

#[test]
fn a_run_is_ended_exactly_once() {
    let mut session = LinkSession::new();
    assert!(session.accept_peer());
    assert!(!session.accept_peer());
    assert_eq!(session.check_start(), Ok(()));
    session.started();
    assert_eq!(session.check_start(), Err(LinkError::AlreadyRunning));
    let first = session.stop();
    assert!(first.ok && first.stopped_event);
    assert!(!session.engine_failed());
    let second = session.stop();
    assert!(second.ok && !second.stopped_event);
    session.started();
    assert!(session.engine_failed());
    assert!(!session.running());
    session.started();
    assert!(session.peer_lost());
    assert!(session.accept_peer());
}

#[test]
fn requests_without_fields_parse() {
    assert_eq!(parse_request(&message("hello")), Ok(Request::Hello));
    assert_eq!(parse_request(&message("list_audio_devices")), Ok(Request::ListAudioDevices));
    assert_eq!(parse_request(&message("list_midi_devices")), Ok(Request::ListMidiDevices));
    assert_eq!(parse_request(&message("stop")), Ok(Request::Stop));
}

#[test]
fn a_device_start_parses_with_its_channels_midi_and_config() {
    let mut start = message("start");
    start.push(entry(
        "source",
        XpcValue::Dictionary(vec![
            entry("kind", text("device")),
            entry("device_name", text("Duet 3")),
            entry(
                "channels",
                XpcValue::Array(vec![XpcValue::Int64(1), XpcValue::Int64(0)]),
            ),
        ]),
    ));
    start.push(entry(
        "midi",
        XpcValue::Dictionary(vec![
            entry("kind", text("device")),
            entry("device_name", text("Loopback")),
        ]),
    ));
    start.push(entry("config_yaml", text("vocoder: {}")));

    assert_eq!(
        parse_request(&start),
        Ok(Request::Start(StartRequest {
            source: Source::Device {
                name: "Duet 3".to_string(),
                channels: Some(vec![1, 0]),
            },
            midi: Some(MidiRequest::Device {
                name: "Loopback".to_string()
            }),
            config_yaml: Some("vocoder: {}".to_string()),
        }))
    );
}

#[test]
fn calibration_sources_and_the_test_clock_parse() {
    let mut start = message("start");
    start.push(entry(
        "source",
        XpcValue::Dictionary(vec![
            entry("kind", text("test_tone")),
            entry("hz", XpcValue::Double(440.0f64.to_bits())),
        ]),
    ));
    start.push(entry(
        "midi",
        XpcValue::Dictionary(vec![
            entry("kind", text("test_clock")),
            entry("bpm", XpcValue::Double(120.0f64.to_bits())),
        ]),
    ));
    assert_eq!(
        parse_request(&start),
        Ok(Request::Start(StartRequest {
            source: Source::TestTone {
                hz: 440.0f64.to_bits()
            },
            midi: Some(MidiRequest::TestClock {
                bpm: 120.0f64.to_bits()
            }),
            config_yaml: None,
        }))
    );
}

#[test]
fn another_contract_version_is_a_mismatch_for_every_request() {
    let request = vec![entry("v", XpcValue::Int64(2)), entry("type", text("hello"))];
    assert_eq!(
        parse_request(&request),
        Err(LinkError::ContractMismatch {
            requested: 2,
            supported: 1
        })
    );
}

#[test]
fn a_missing_or_mistyped_version_or_type_is_invalid() {
    assert_eq!(
        invalid_message(parse_request(&vec![entry("type", text("hello"))])),
        "`v` is missing or has the wrong type"
    );
    assert_eq!(
        invalid_message(parse_request(&vec![
            entry("v", XpcValue::Int64(1)),
            entry("type", XpcValue::Int64(3)),
        ])),
        "`type` is missing or has the wrong type"
    );
    assert_eq!(
        invalid_message(parse_request(&message("dance"))),
        "`dance` is not a request type"
    );
}

#[test]
fn channels_must_be_an_array_of_valid_indices() {
    let start_with_channels = |channels: XpcValue| {
        let mut start = message("start");
        start.push(entry(
            "source",
            XpcValue::Dictionary(vec![
                entry("kind", text("device")),
                entry("device_name", text("Duet 3")),
                entry("channels", channels),
            ]),
        ));
        start
    };
    for bad in [
        XpcValue::Int64(1),
        XpcValue::Array(vec![XpcValue::Int64(-1)]),
        XpcValue::Array(vec![XpcValue::Int64(65_536)]),
        XpcValue::Array(vec![XpcValue::Int64(0), text("1")]),
    ] {
        assert_eq!(
            invalid_message(parse_request(&start_with_channels(bad))),
            "`channels` is missing or has the wrong type"
        );
    }
    let mut no_source = message("start");
    no_source.push(entry("source", text("device")));
    assert_eq!(
        invalid_message(parse_request(&no_source)),
        "`source` is missing or has the wrong type"
    );
}

#[test]
fn contract_int_saturates() {
    assert_eq!(contract_int(32), 32);
    assert_eq!(contract_int(usize::MAX), i64::MAX);
}

fn text_of(value: &XpcValue) -> &str {
    match value {
        XpcValue::String(s) => s,
        other => panic!("expected a string, got {other:?}"),
    }
}

#[test]
fn a_failed_reply_carries_the_code_and_message() {
    let mut reply = phase4::link::message_base();
    phase4::link::fail(&mut reply, "AlreadyRunning", "The engine is already running.");
    assert_eq!(reply.len(), 3);
    assert_eq!(reply[0].0, "v");
    assert!(matches!(reply[0].1, XpcValue::Int64(1)));
    assert_eq!(reply[1].0, "ok");
    assert!(matches!(reply[1].1, XpcValue::Bool(false)));
    match &reply[2].1 {
        XpcValue::Dictionary(error) => {
            assert_eq!(error[0].0, "code");
            assert_eq!(text_of(&error[0].1), "AlreadyRunning");
            assert_eq!(error[1].0, "message");
            assert_eq!(text_of(&error[1].1), "The engine is already running.");
        }
        other => panic!("expected the error dictionary, got {other:?}"),
    }
}

#[test]
fn hello_and_events_follow_the_contract() {
    let mut reply = Vec::new();
    phase4::link::hello_reply(&mut reply, "0.1.0", 32);
    assert_eq!(reply.len(), 4);
    assert_eq!(text_of(&reply[1].1), "0.1.0");
    assert!(matches!(reply[3].1, XpcValue::Int64(32)));

    let stopped = phase4::link::stopped_event("requested");
    assert_eq!(stopped[1].0, "type");
    assert_eq!(text_of(&stopped[1].1), "stopped");
    assert_eq!(stopped[2].0, "reason");
    assert_eq!(text_of(&stopped[2].1), "requested");

    let error = phase4::link::error_event("Unknown", "boom");
    assert_eq!(text_of(&error[1].1), "error");
    assert_eq!(text_of(&error[2].1), "Unknown");
    assert_eq!(text_of(&error[3].1), "boom");

    let mut devices = Vec::new();
    phase4::link::midi_devices_reply(&mut devices, &["IAC".to_string(), "Launch".to_string()]);
    match &devices[1].1 {
        XpcValue::Array(items) => {
            assert_eq!(items.len(), 2);
            match &items[1] {
                XpcValue::Dictionary(d) => assert_eq!(text_of(&d[0].1), "Launch"),
                other => panic!("expected a device dictionary, got {other:?}"),
            }
        }
        other => panic!("expected the device array, got {other:?}"),
    }
}
