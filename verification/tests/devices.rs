use phase4::midi::find_matching_midi_device;

#[test]
fn find_matching_midi_device_prefers_an_exact_match_over_an_earlier_substring() {
    const NAME_QUERY: &str = "Phase Control";
    const SUBSTRING_MATCH: &str = "Phase Control Extended";
    const EXACT_MATCH: &str = "Phase Control";

    let selected = find_matching_midi_device(
        vec![SUBSTRING_MATCH, EXACT_MATCH],
        NAME_QUERY,
        |device_name: &&str| Some((*device_name).to_owned()),
    );

    assert_eq!(
        selected,
        Some(EXACT_MATCH),
        "an exact MIDI device name must take precedence over an earlier substring match"
    );
}

#[test]
fn find_matching_midi_device_takes_only_an_exact_name_as_exact() {
    let selected = find_matching_midi_device(
        vec!["phase control x", "PHASE CONTROL"],
        "Phase Control",
        |device_name: &&str| Some((*device_name).to_owned()),
    );
    assert_eq!(selected, Some("phase control x"));
}

#[test]
fn find_matching_midi_device_falls_back_to_a_case_insensitive_substring() {
    let selected = find_matching_midi_device(
        vec!["IAC Bus", "Launch CONTROL XL", "Other"],
        "control",
        |device_name: &&str| Some((*device_name).to_owned()),
    );
    assert_eq!(selected, Some("Launch CONTROL XL"));

    let none = find_matching_midi_device(vec!["IAC Bus"], "missing", |device_name: &&str| {
        Some((*device_name).to_owned())
    });
    assert_eq!(none, None);
}
