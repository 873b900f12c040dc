//! The link contract between the engine service and its client: message
//! keys, request parsing, link errors, and the service's run state.
//!
//! A message is modelled as a [`XpcValue`] tree. A dictionary is a list of
//! entries in which a key is looked up by its first occurrence.

use crate::cli::{Args, CalibrationArgs, ControllerMode, InputArgs, ListFormat, MidiArgs, NetworkArgs, RuntimeArgs, VocoderArgs};
use crate::config::{resolve_with_outputs, spec_resolves_with_outputs, AppConfig, AppConfigError, FileConfig, FileNetworkConfig, OutputConfig};
use crate::headless::EventCode;
use crate::text::concat;
use vstd::prelude::*;

verus! {

/// The service's bundle identifier.
pub const SERVICE_NAME: &'static str = "com.rayboyd.Phase4.Engine";

/// The link contract version carried as `v` in every message.
pub const CONTRACT_VERSION: i64 = 1;

pub const KEY_VERSION: &'static str = "v";
pub const KEY_TYPE: &'static str = "type";
pub const KEY_OK: &'static str = "ok";
pub const KEY_ERROR: &'static str = "error";
pub const KEY_CODE: &'static str = "code";
pub const KEY_MESSAGE: &'static str = "message";
pub const KEY_ENGINE_VERSION: &'static str = "engine_version";
pub const KEY_CONTRACT_VERSION: &'static str = "contract_version";
pub const KEY_BAND_COUNT: &'static str = "band_count";
pub const KEY_DEVICES: &'static str = "devices";
pub const KEY_NAME: &'static str = "name";
pub const KEY_SAMPLE_RATE: &'static str = "sample_rate";
pub const KEY_CHANNELS: &'static str = "channels";
pub const KEY_SUPPORTED: &'static str = "supported";
pub const KEY_SOURCE: &'static str = "source";
pub const KEY_KIND: &'static str = "kind";
pub const KEY_DEVICE_NAME: &'static str = "device_name";
pub const KEY_HZ: &'static str = "hz";
pub const KEY_RATE_HZ: &'static str = "rate_hz";
pub const KEY_MIDI: &'static str = "midi";
pub const KEY_BPM: &'static str = "bpm";
pub const KEY_CONFIG_YAML: &'static str = "config_yaml";
pub const KEY_AUDIO_DEVICE: &'static str = "audio_device";
pub const KEY_MIDI_DEVICE: &'static str = "midi_device";
pub const KEY_FRAMES: &'static str = "frames";
pub const KEY_FRAME_BYTES: &'static str = "frame_bytes";
pub const KEY_REASON: &'static str = "reason";

pub const TYPE_HELLO: &'static str = "hello";
pub const TYPE_LIST_AUDIO_DEVICES: &'static str = "list_audio_devices";
pub const TYPE_LIST_MIDI_DEVICES: &'static str = "list_midi_devices";
pub const TYPE_START: &'static str = "start";
pub const TYPE_STOP: &'static str = "stop";
pub const EVENT_ERROR: &'static str = "error";
pub const EVENT_STOPPED: &'static str = "stopped";

pub const SOURCE_DEVICE: &'static str = "device";
pub const SOURCE_TEST_TONE: &'static str = "test_tone";
pub const SOURCE_TEST_SWEEP: &'static str = "test_sweep";
pub const MIDI_DEVICE: &'static str = "device";
pub const MIDI_TEST_CLOCK: &'static str = "test_clock";

pub const REASON_REQUESTED: &'static str = "requested";
pub const REASON_FAILED: &'static str = "failed";

/// A value of a link message. A double is held as the bit pattern of the
/// `f64`.
#[derive(Debug)]
pub enum XpcValue {
    Int64(i64),
    Double(u64),
    Bool(bool),
    String(String),
    Array(Vec<XpcValue>),
    Dictionary(Vec<(String, XpcValue)>),
}

/// A parsed request.
#[derive(Debug, Clone, PartialEq)]
pub enum Request {
    Hello,
    ListAudioDevices,
    ListMidiDevices,
    Start(StartRequest),
    Stop,
}

/// The fields of a `start` request.
#[derive(Debug, Clone, PartialEq)]
pub struct StartRequest {
    pub source: Source,
    pub midi: Option<MidiRequest>,
    pub config_yaml: Option<String>,
}

/// What to analyse. Frequencies are the bit patterns of the request's
/// `f64` values.
#[derive(Debug, Clone, PartialEq)]
pub enum Source {
    Device { name: String, channels: Option<Vec<u16>> },
    TestTone { hz: u64 },
    TestSweep { rate_hz: u64 },
}

/// The MIDI input to attach. The tempo is the bit pattern of the request's
/// `f64` value.
#[derive(Debug, Clone, PartialEq)]
pub enum MidiRequest {
    Device { name: String },
    TestClock { bpm: u64 },
}

/// Failures the link itself reports. Variant names are the contract's
/// codes.
#[derive(Debug, Clone, PartialEq, Eq)]
pub enum LinkError {
    ContractMismatch { requested: i64, supported: i64 },
    InvalidRequest(String),
    AlreadyRunning,
}

/// The code of a link error: its variant's name.
pub open spec fn spec_link_code(e: LinkError) -> Seq<char> {
    match e {
        LinkError::ContractMismatch { .. } => "ContractMismatch"@,
        LinkError::InvalidRequest(_) => "InvalidRequest"@,
        LinkError::AlreadyRunning => "AlreadyRunning"@,
    }
}

impl EventCode for LinkError {
    fn event_code(&self) -> (code: &'static str)
        ensures
            code@ == spec_link_code(*self),
    {
        match self {
            LinkError::ContractMismatch { .. } => "ContractMismatch",
            LinkError::InvalidRequest(_) => "InvalidRequest",
            LinkError::AlreadyRunning => "AlreadyRunning",
        }
    }
}

// ---------------------------------------------------------------------------
// Dictionary lookups.
// ---------------------------------------------------------------------------

/// The value of the first entry of `entries` under `key`.
pub open spec fn spec_lookup(entries: Seq<(String, XpcValue)>, key: Seq<char>) -> Option<XpcValue>
    decreases entries.len(),
{
    if entries.len() == 0 {
        None
    } else if entries[0].0@ == key {
        Some(entries[0].1)
    } else {
        spec_lookup(entries.drop_first(), key)
    }
}

pub open spec fn spec_get_i64(entries: Seq<(String, XpcValue)>, key: Seq<char>) -> Option<i64> {
    match spec_lookup(entries, key) {
        Some(XpcValue::Int64(n)) => Some(n),
        _ => None,
    }
}

pub open spec fn spec_get_f64(entries: Seq<(String, XpcValue)>, key: Seq<char>) -> Option<u64> {
    match spec_lookup(entries, key) {
        Some(XpcValue::Double(bits)) => Some(bits),
        _ => None,
    }
}

pub open spec fn spec_get_string(entries: Seq<(String, XpcValue)>, key: Seq<char>) -> Option<String> {
    match spec_lookup(entries, key) {
        Some(XpcValue::String(s)) => Some(s),
        _ => None,
    }
}

pub open spec fn spec_get_array(entries: Seq<(String, XpcValue)>, key: Seq<char>) -> Option<Vec<XpcValue>> {
    match spec_lookup(entries, key) {
        Some(XpcValue::Array(items)) => Some(items),
        _ => None,
    }
}

pub open spec fn spec_get_dictionary(entries: Seq<(String, XpcValue)>, key: Seq<char>) -> Option<Vec<(String, XpcValue)>> {
    match spec_lookup(entries, key) {
        Some(XpcValue::Dictionary(d)) => Some(d),
        _ => None,
    }
}

/// Whether `a` reads as the text `b`.
fn text_eq(a: &String, b: &str) -> (equal: bool)
    ensures
        equal == (a@ == b@),
{
    let b_owned = String::from_str(b);
    *a == b_owned
}

/// The index of the first entry of `entries` under `key`.
fn lookup(entries: &Vec<(String, XpcValue)>, key: &str) -> (found: Option<usize>)
    ensures
        match found {
            Some(i) => i < entries@.len() && spec_lookup(entries@, key@) == Some(entries@[i as int].1),
            None => spec_lookup(entries@, key@) is None,
        },
{
    let mut i: usize = 0;
    assert(entries@.subrange(0, entries@.len() as int) =~= entries@);
    while i < entries.len()
        invariant
            i <= entries@.len(),
            spec_lookup(entries@, key@) == spec_lookup(entries@.subrange(i as int, entries@.len() as int), key@),
        decreases entries@.len() - i,
    {
        let ghost rest = entries@.subrange(i as int, entries@.len() as int);
        assert(rest[0] == entries@[i as int]);
        assert(rest.drop_first() =~= entries@.subrange(i + 1, entries@.len() as int));
        if text_eq(&entries[i].0, key) {
            return Some(i);
        }
        i = i + 1;
    }
    None
}

fn get_i64(entries: &Vec<(String, XpcValue)>, key: &str) -> (value: Option<i64>)
    ensures
        value == spec_get_i64(entries@, key@),
{
    match lookup(entries, key) {
        Some(i) => match &entries[i].1 {
            XpcValue::Int64(n) => Some(*n),
            _ => None,
        },
        None => None,
    }
}

fn get_f64(entries: &Vec<(String, XpcValue)>, key: &str) -> (value: Option<u64>)
    ensures
        value == spec_get_f64(entries@, key@),
{
    match lookup(entries, key) {
        Some(i) => match &entries[i].1 {
            XpcValue::Double(bits) => Some(*bits),
            _ => None,
        },
        None => None,
    }
}

fn get_string(entries: &Vec<(String, XpcValue)>, key: &str) -> (value: Option<String>)
    ensures
        value == spec_get_string(entries@, key@),
{
    match lookup(entries, key) {
        Some(i) => match &entries[i].1 {
            XpcValue::String(s) => Some(s.clone()),
            _ => None,
        },
        None => None,
    }
}

fn contains_key(entries: &Vec<(String, XpcValue)>, key: &str) -> (present: bool)
    ensures
        present == spec_lookup(entries@, key@).is_some(),
{
    lookup(entries, key).is_some()
}

// ---------------------------------------------------------------------------
// Parsing.
// ---------------------------------------------------------------------------

/// The message of an `InvalidRequest` naming a key that was missing or had
/// another type.
pub open spec fn spec_missing_text(key: Seq<char>) -> Seq<char> {
    "`"@ + key + "` is missing or has the wrong type"@
}

/// The message of an `InvalidRequest` naming a value that is not one of
/// the expected words.
pub open spec fn spec_unknown_text(value: Seq<char>, what: Seq<char>) -> Seq<char> {
    "`"@ + value + "` is not "@ + what
}

/// Whether `actual` is `expected`, where an expected error is the message
/// of an `InvalidRequest`.
pub open spec fn spec_parsed<T>(actual: Result<T, LinkError>, expected: Result<T, Seq<char>>) -> bool {
    match actual {
        Ok(a) => expected == Ok::<T, Seq<char>>(a),
        Err(LinkError::InvalidRequest(m)) => expected == Err::<T, Seq<char>>(m@),
        Err(_) => false,
    }
}

fn invalid(key: &str) -> (e: LinkError)
    ensures
        e matches LinkError::InvalidRequest(m) && m@ == spec_missing_text(key@),
{
    let opened = concat("`", key);
    let m = concat(opened.as_str(), "` is missing or has the wrong type");
    LinkError::InvalidRequest(m)
}

fn unknown(value: &String, what: &str) -> (e: LinkError)
    ensures
        e matches LinkError::InvalidRequest(m) && m@ == spec_unknown_text(value@, what@),
{
    let opened = concat("`", value.as_str());
    let closed = concat(opened.as_str(), "` is not ");
    let m = concat(closed.as_str(), what);
    LinkError::InvalidRequest(m)
}

/// The channel list an array of integers names, if every item is an
/// integer that is a valid channel index.
pub open spec fn spec_channel_list(items: Seq<XpcValue>) -> Option<Seq<u16>>
    decreases items.len(),
{
    if items.len() == 0 {
        Some(Seq::empty())
    } else {
        match items.last() {
            XpcValue::Int64(n) => if 0 <= n <= u16::MAX {
                match spec_channel_list(items.drop_last()) {
                    Some(prefix) => Some(prefix.push(n as u16)),
                    None => None,
                }
            } else {
                None
            },
            _ => None,
        }
    }
}

/// The `channels` field of a device source: absent means every channel.
pub open spec fn spec_parse_channels(entries: Seq<(String, XpcValue)>, channels: Result<Option<Vec<u16>>, LinkError>) -> bool {
    match spec_lookup(entries, KEY_CHANNELS@) {
        None => channels == Ok::<Option<Vec<u16>>, LinkError>(None),
        Some(XpcValue::Array(items)) => match spec_channel_list(items@) {
            Some(list) => channels matches Ok(Some(v)) && v@ == list,
            None => channels matches Err(LinkError::InvalidRequest(m)) && m@ == spec_missing_text(KEY_CHANNELS@),
        },
        Some(_) => channels matches Err(LinkError::InvalidRequest(m)) && m@ == spec_missing_text(KEY_CHANNELS@),
    }
}

proof fn lemma_channel_list_prefix(items: Seq<XpcValue>, i: int)
    requires
        0 <= i < items.len(),
        spec_channel_list(items.subrange(0, i + 1)) is Some,
    ensures
        spec_channel_list(items.subrange(0, i)) is Some,
{
    assert(items.subrange(0, i + 1).drop_last() =~= items.subrange(0, i));
}

proof fn lemma_channel_list_none_extends(items: Seq<XpcValue>, i: int)
    requires
        0 <= i < items.len(),
        spec_channel_list(items.subrange(0, i + 1)) is None,
    ensures
        spec_channel_list(items) is None,
    decreases items.len() - i,
{
    if i + 1 == items.len() {
        assert(items.subrange(0, i + 1) =~= items);
    } else {
        let next = items.subrange(0, i + 2);
        assert(next.drop_last() =~= items.subrange(0, i + 1));
        lemma_channel_list_none_extends(items, i + 1);
    }
}

#[verifier::loop_isolation(false)]
fn parse_channels(entries: &Vec<(String, XpcValue)>) -> (channels: Result<Option<Vec<u16>>, LinkError>)
    ensures
        spec_parse_channels(entries@, channels),
{
    let index = match lookup(entries, KEY_CHANNELS) {
        None => return Ok(None),
        Some(i) => i,
    };
    let items = match &entries[index].1 {
        XpcValue::Array(items) => items,
        _ => return Err(invalid(KEY_CHANNELS)),
    };
    let mut list: Vec<u16> = Vec::new();
    let mut i: usize = 0;
    assert(items@.subrange(0, 0) =~= Seq::<XpcValue>::empty());
    while i < items.len()
        invariant
            i <= items@.len(),
            spec_channel_list(items@.subrange(0, i as int)) == Some(list@),
        decreases items@.len() - i,
    {
        let ghost next = items@.subrange(0, i + 1);
        assert(next.drop_last() =~= items@.subrange(0, i as int));
        assert(next.last() == items@[i as int]);
        match &items[i] {
            XpcValue::Int64(n) => {
                if *n < 0 || *n > 65535 {
                    proof {
                        assert(spec_channel_list(next) is None);
                        lemma_channel_list_none_extends(items@, i as int);
                    }
                    return Err(invalid(KEY_CHANNELS));
                }
                list.push(*n as u16);
            },
            _ => {
                proof {
                    assert(spec_channel_list(next) is None);
                    lemma_channel_list_none_extends(items@, i as int);
                }
                return Err(invalid(KEY_CHANNELS));
            },
        }
        i = i + 1;
    }
    assert(items@.subrange(0, items@.len() as int) =~= items@);
    Ok(Some(list))
}

/// What a source dictionary parses to.
pub open spec fn spec_parse_source(entries: Seq<(String, XpcValue)>, source: Result<Source, LinkError>) -> bool {
    match spec_get_string(entries, KEY_KIND@) {
        None => spec_parsed(source, Err(spec_missing_text(KEY_KIND@))),
        Some(kind) => if kind@ == SOURCE_DEVICE@ {
            match spec_get_string(entries, KEY_DEVICE_NAME@) {
                None => spec_parsed(source, Err(spec_missing_text(KEY_DEVICE_NAME@))),
                Some(name) => match spec_lookup(entries, KEY_CHANNELS@) {
                    None => source == Ok::<Source, LinkError>(Source::Device { name, channels: None }),
                    Some(XpcValue::Array(items)) => match spec_channel_list(items@) {
                        Some(list) => source matches Ok(Source::Device { name: n, channels: Some(v) }) && n == name && v@ == list,
                        None => spec_parsed(source, Err(spec_missing_text(KEY_CHANNELS@))),
                    },
                    Some(_) => spec_parsed(source, Err(spec_missing_text(KEY_CHANNELS@))),
                },
            }
        } else if kind@ == SOURCE_TEST_TONE@ {
            match spec_get_f64(entries, KEY_HZ@) {
                None => spec_parsed(source, Err(spec_missing_text(KEY_HZ@))),
                Some(hz) => source == Ok::<Source, LinkError>(Source::TestTone { hz }),
            }
        } else if kind@ == SOURCE_TEST_SWEEP@ {
            match spec_get_f64(entries, KEY_RATE_HZ@) {
                None => spec_parsed(source, Err(spec_missing_text(KEY_RATE_HZ@))),
                Some(rate_hz) => source == Ok::<Source, LinkError>(Source::TestSweep { rate_hz }),
            }
        } else {
            spec_parsed(source, Err(spec_unknown_text(kind@, "a source kind"@)))
        },
    }
}

fn parse_source(entries: &Vec<(String, XpcValue)>) -> (source: Result<Source, LinkError>)
    ensures
        spec_parse_source(entries@, source),
{
    let kind = match get_string(entries, KEY_KIND) {
        Some(kind) => kind,
        None => return Err(invalid(KEY_KIND)),
    };
    if text_eq(&kind, SOURCE_DEVICE) {
        let name = match get_string(entries, KEY_DEVICE_NAME) {
            Some(name) => name,
            None => return Err(invalid(KEY_DEVICE_NAME)),
        };
        match parse_channels(entries) {
            Ok(channels) => Ok(Source::Device { name, channels }),
            Err(e) => Err(e),
        }
    } else if text_eq(&kind, SOURCE_TEST_TONE) {
        match get_f64(entries, KEY_HZ) {
            Some(hz) => Ok(Source::TestTone { hz }),
            None => Err(invalid(KEY_HZ)),
        }
    } else if text_eq(&kind, SOURCE_TEST_SWEEP) {
        match get_f64(entries, KEY_RATE_HZ) {
            Some(rate_hz) => Ok(Source::TestSweep { rate_hz }),
            None => Err(invalid(KEY_RATE_HZ)),
        }
    } else {
        Err(unknown(&kind, "a source kind"))
    }
}

/// What a MIDI dictionary parses to.
pub open spec fn spec_parse_midi(entries: Seq<(String, XpcValue)>, midi: Result<MidiRequest, LinkError>) -> bool {
    match spec_get_string(entries, KEY_KIND@) {
        None => spec_parsed(midi, Err(spec_missing_text(KEY_KIND@))),
        Some(kind) => if kind@ == MIDI_DEVICE@ {
            match spec_get_string(entries, KEY_DEVICE_NAME@) {
                None => spec_parsed(midi, Err(spec_missing_text(KEY_DEVICE_NAME@))),
                Some(name) => midi == Ok::<MidiRequest, LinkError>(MidiRequest::Device { name }),
            }
        } else if kind@ == MIDI_TEST_CLOCK@ {
            match spec_get_f64(entries, KEY_BPM@) {
                None => spec_parsed(midi, Err(spec_missing_text(KEY_BPM@))),
                Some(bpm) => midi == Ok::<MidiRequest, LinkError>(MidiRequest::TestClock { bpm }),
            }
        } else {
            spec_parsed(midi, Err(spec_unknown_text(kind@, "a MIDI kind"@)))
        },
    }
}

fn parse_midi(entries: &Vec<(String, XpcValue)>) -> (midi: Result<MidiRequest, LinkError>)
    ensures
        spec_parse_midi(entries@, midi),
{
    let kind = match get_string(entries, KEY_KIND) {
        Some(kind) => kind,
        None => return Err(invalid(KEY_KIND)),
    };
    if text_eq(&kind, MIDI_DEVICE) {
        match get_string(entries, KEY_DEVICE_NAME) {
            Some(name) => Ok(MidiRequest::Device { name }),
            None => Err(invalid(KEY_DEVICE_NAME)),
        }
    } else if text_eq(&kind, MIDI_TEST_CLOCK) {
        match get_f64(entries, KEY_BPM) {
            Some(bpm) => Ok(MidiRequest::TestClock { bpm }),
            None => Err(invalid(KEY_BPM)),
        }
    } else {
        Err(unknown(&kind, "a MIDI kind"))
    }
}

/// What a `start` message parses to: its source, then its MIDI input and
/// config text when present, each of which must have the right type.
pub open spec fn spec_parse_start(entries: Seq<(String, XpcValue)>, start: Result<StartRequest, LinkError>) -> bool {
    match spec_lookup(entries, KEY_SOURCE@) {
        Some(XpcValue::Dictionary(source_entries)) => {
            ||| exists|e: LinkError| #[trigger] spec_parse_source(source_entries@, Err(e)) && start == Err::<StartRequest, LinkError>(e)
            ||| exists|source: Source| {
                &&& #[trigger] spec_parse_source(source_entries@, Ok(source))
                &&& match spec_lookup(entries, KEY_MIDI@) {
                    Some(XpcValue::Dictionary(midi_entries)) => {
                        ||| exists|e: LinkError| #[trigger] spec_parse_midi(midi_entries@, Err(e)) && start == Err::<StartRequest, LinkError>(e)
                        ||| exists|midi: MidiRequest| #[trigger] spec_parse_midi(midi_entries@, Ok(midi))
                            && spec_start_rest(entries, source, Some(midi), start)
                    },
                    Some(_) => spec_parsed(start, Err(spec_missing_text(KEY_MIDI@))),
                    None => spec_start_rest(entries, source, None, start),
                }
            }
        },
        _ => spec_parsed(start, Err(spec_missing_text(KEY_SOURCE@))),
    }
}

/// The rest of a `start` message once its source and MIDI input are read:
/// the optional config text.
pub open spec fn spec_start_rest(entries: Seq<(String, XpcValue)>, source: Source, midi: Option<MidiRequest>, start: Result<StartRequest, LinkError>) -> bool {
    match spec_lookup(entries, KEY_CONFIG_YAML@) {
        None => start == Ok::<StartRequest, LinkError>(StartRequest { source, midi, config_yaml: None }),
        Some(XpcValue::String(text)) => start == Ok::<StartRequest, LinkError>(StartRequest { source, midi, config_yaml: Some(text) }),
        Some(_) => spec_parsed(start, Err(spec_missing_text(KEY_CONFIG_YAML@))),
    }
}

fn parse_start(entries: &Vec<(String, XpcValue)>) -> (start: Result<StartRequest, LinkError>)
    ensures
        spec_parse_start(entries@, start),
{
    let source_index = match lookup(entries, KEY_SOURCE) {
        Some(i) => i,
        None => return Err(invalid(KEY_SOURCE)),
    };
    let source_entries = match &entries[source_index].1 {
        XpcValue::Dictionary(d) => d,
        _ => return Err(invalid(KEY_SOURCE)),
    };
    let source = match parse_source(source_entries) {
        Ok(source) => source,
        Err(e) => return Err(e),
    };
    let midi = match lookup(entries, KEY_MIDI) {
        None => None,
        Some(i) => match &entries[i].1 {
            XpcValue::Dictionary(midi_entries) => match parse_midi(midi_entries) {
                Ok(midi) => Some(midi),
                Err(e) => return Err(e),
            },
            _ => return Err(invalid(KEY_MIDI)),
        },
    };
    let config_yaml = match lookup(entries, KEY_CONFIG_YAML) {
        None => None,
        Some(i) => match &entries[i].1 {
            XpcValue::String(text) => Some(text.clone()),
            _ => return Err(invalid(KEY_CONFIG_YAML)),
        },
    };
    Ok(StartRequest { source, midi, config_yaml })
}

/// What a request message parses to: a mismatched contract version is
/// reported before anything else is read, then the type selects the
/// request.
pub open spec fn spec_parse_request(entries: Seq<(String, XpcValue)>, request: Result<Request, LinkError>) -> bool {
    match spec_get_i64(entries, KEY_VERSION@) {
        None => spec_parsed(request, Err(spec_missing_text(KEY_VERSION@))),
        Some(version) => if version != CONTRACT_VERSION {
            request == Err::<Request, LinkError>(LinkError::ContractMismatch { requested: version, supported: CONTRACT_VERSION })
        } else {
            match spec_get_string(entries, KEY_TYPE@) {
                None => spec_parsed(request, Err(spec_missing_text(KEY_TYPE@))),
                Some(t) => if t@ == TYPE_HELLO@ {
                    request == Ok::<Request, LinkError>(Request::Hello)
                } else if t@ == TYPE_LIST_AUDIO_DEVICES@ {
                    request == Ok::<Request, LinkError>(Request::ListAudioDevices)
                } else if t@ == TYPE_LIST_MIDI_DEVICES@ {
                    request == Ok::<Request, LinkError>(Request::ListMidiDevices)
                } else if t@ == TYPE_START@ {
                    ||| exists|start: StartRequest| #[trigger] spec_parse_start(entries, Ok(start)) && request == Ok::<Request, LinkError>(Request::Start(start))
                    ||| exists|e: LinkError| #[trigger] spec_parse_start(entries, Err(e)) && request == Err::<Request, LinkError>(e)
                } else if t@ == TYPE_STOP@ {
                    request == Ok::<Request, LinkError>(Request::Stop)
                } else {
                    spec_parsed(request, Err(spec_unknown_text(t@, "a request type"@)))
                },
            }
        },
    }
}

/// Parses a request message.
pub fn parse_request(message: &Vec<(String, XpcValue)>) -> (request: Result<Request, LinkError>)
    ensures
        spec_parse_request(message@, request),
{
    let version = match get_i64(message, KEY_VERSION) {
        Some(v) => v,
        None => return Err(invalid(KEY_VERSION)),
    };
    if version != CONTRACT_VERSION {
        return Err(LinkError::ContractMismatch { requested: version, supported: CONTRACT_VERSION });
    }
    let request_type = match get_string(message, KEY_TYPE) {
        Some(t) => t,
        None => return Err(invalid(KEY_TYPE)),
    };
    if text_eq(&request_type, TYPE_HELLO) {
        Ok(Request::Hello)
    } else if text_eq(&request_type, TYPE_LIST_AUDIO_DEVICES) {
        Ok(Request::ListAudioDevices)
    } else if text_eq(&request_type, TYPE_LIST_MIDI_DEVICES) {
        Ok(Request::ListMidiDevices)
    } else if text_eq(&request_type, TYPE_START) {
        match parse_start(message) {
            Ok(start) => Ok(Request::Start(start)),
            Err(e) => Err(e),
        }
    } else if text_eq(&request_type, TYPE_STOP) {
        Ok(Request::Stop)
    } else {
        Err(unknown(&request_type, "a request type"))
    }
}

/// A contract integer for a count or index the engine reports: the value
/// itself, or `i64::MAX` when it does not fit.
pub fn contract_int(value: usize) -> (n: i64)
    ensures
        n == (if value <= i64::MAX { value as int } else { i64::MAX as int }),
{
    if value as u128 <= i64::MAX as u128 {
        value as i64
    } else {
        i64::MAX
    }
}


// ---------------------------------------------------------------------------
// From a start request to a configuration.
// ---------------------------------------------------------------------------

/// The options a start request stands for: its source and MIDI input, as
/// the command line would give them, with each frequency narrowed from the
/// request's `f64` to an `f32` by `narrow`; nothing else is set.
pub open spec fn spec_start_args<F: Fn(u64) -> u32>(start: StartRequest, args: Args, narrow: F) -> bool {
    &&& match start.source {
        Source::Device { name, channels } => {
            &&& args.input.device == Some(name)
            &&& match (args.input.analyse_channels, channels) {
                (Some(a), Some(c)) => a@ == c@,
                (None, None) => true,
                _ => false,
            }
            &&& args.calibration.test_hz is None
            &&& args.calibration.test_sweep is None
        },
        Source::TestTone { hz } => {
            &&& args.input.device is None
            &&& args.input.analyse_channels is None
            &&& args.calibration.test_hz matches Some(h) && narrow.ensures((hz,), h)
            &&& args.calibration.test_sweep is None
        },
        Source::TestSweep { rate_hz } => {
            &&& args.input.device is None
            &&& args.input.analyse_channels is None
            &&& args.calibration.test_hz is None
            &&& args.calibration.test_sweep matches Some(r) && narrow.ensures((rate_hz,), r)
        },
    }
    &&& match start.midi {
        Some(MidiRequest::Device { name }) => args.midi.midi_device == Some(name) && args.midi.midi_test_bpm is None,
        Some(MidiRequest::TestClock { bpm }) => args.midi.midi_device is None
            && (args.midi.midi_test_bpm matches Some(b) && narrow.ensures((bpm,), b)),
        None => args.midi.midi_device is None && args.midi.midi_test_bpm is None,
    }
    &&& args.network == NetworkArgs { ws_addr: None, max_clients: None, broadcast_rate: None, no_browser_origin: false, osc_addr: None }
    &&& args.vocoder == VocoderArgs { attack_ms: None, release_ms: None, freq_low: None, freq_high: None, filter_q: None }
    &&& args.runtime.controller_mode == ControllerMode::Headless
}

/// The configuration file with its network section emptied.
pub open spec fn spec_without_network(file: FileConfig) -> FileConfig {
    FileConfig {
        network: FileNetworkConfig { ws_addr: None, max_clients: None, broadcast_rate: None, no_browser_origin: None, osc_addr: None },
        audio: file.audio,
        midi: file.midi,
        vocoder: file.vocoder,
    }
}

/// The options a start request stands for.
pub fn start_args<F: Fn(u64) -> u32>(start: &StartRequest, narrow: &F) -> (args: Args)
    requires
        forall|b: u64| #[trigger] narrow.requires((b,)),
    ensures
        spec_start_args(*start, args, *narrow),
{
    let mut calibration = CalibrationArgs { test_hz: None, test_sweep: None };
    let mut input = InputArgs { device: None, list: false, list_format: ListFormat::Text, analyse_channels: None };
    let mut midi = MidiArgs { midi_device: None, midi_test_bpm: None };
    match &start.source {
        Source::Device { name, channels } => {
            input.device = Some(name.clone());
            input.analyse_channels = channels.clone();
        },
        Source::TestTone { hz } => {
            calibration.test_hz = Some(narrow(*hz));
        },
        Source::TestSweep { rate_hz } => {
            calibration.test_sweep = Some(narrow(*rate_hz));
        },
    }
    match &start.midi {
        Some(MidiRequest::Device { name }) => {
            midi.midi_device = Some(name.clone());
        },
        Some(MidiRequest::TestClock { bpm }) => {
            midi.midi_test_bpm = Some(narrow(*bpm));
        },
        None => {},
    }
    Args {
        calibration,
        midi,
        input,
        network: NetworkArgs { ws_addr: None, max_clients: None, broadcast_rate: None, no_browser_origin: false, osc_addr: None },
        vocoder: VocoderArgs { attack_ms: None, release_ms: None, freq_low: None, freq_high: None, filter_q: None },
        runtime: RuntimeArgs { controller_mode: ControllerMode::Headless },
    }
}

/// Resolves a start request into a configuration whose only output is the
/// frame region. The request's source and MIDI input override the config
/// text's, as the command line overrides a file, and the config text's
/// network section is ignored. `narrow` turns a request's `f64` frequency
/// into an `f32`, and `tick_interval_ok` tells whether the machine can
/// represent the tick interval of the requested test clock.
pub fn to_app_config<F: Fn(u64) -> u32>(
    start: &StartRequest,
    file: FileConfig,
    narrow: &F,
    tick_interval_ok: bool,
) -> (config: Result<AppConfig, AppConfigError>)
    requires
        forall|b: u64| #[trigger] narrow.requires((b,)),
    ensures
        exists|args: Args|
            #[trigger] spec_start_args(*start, args, *narrow)
                && spec_resolves_with_outputs(args, spec_without_network(file), seq![OutputConfig::FrameRegion], tick_interval_ok, config),
{
    let mut file = file;
    file.network = FileNetworkConfig { ws_addr: None, max_clients: None, broadcast_rate: None, no_browser_origin: None, osc_addr: None };
    let args = start_args(start, narrow);
    let mut outputs: Vec<OutputConfig> = Vec::new();
    outputs.push(OutputConfig::FrameRegion);
    assert(outputs@ =~= seq![OutputConfig::FrameRegion]);
    let config = resolve_with_outputs(&args, file, outputs, tick_interval_ok);
    assert(spec_start_args(*start, args, *narrow));
    config
}

// ---------------------------------------------------------------------------
// Replies and events.
// ---------------------------------------------------------------------------

/// The number the contract reports for a count the engine holds.
pub open spec fn spec_contract_int(value: usize) -> i64 {
    if value <= i64::MAX { value as i64 } else { i64::MAX }
}

fn entry(key: &str, value: XpcValue) -> (e: (String, XpcValue))
    ensures
        e.0@ == key@,
        e.1 == value,
{
    (String::from_str(key), value)
}

fn text_value(s: &str) -> (v: XpcValue)
    ensures
        v matches XpcValue::String(t) && t@ == s@,
{
    XpcValue::String(String::from_str(s))
}

/// Whether `entry` is the key `key` with the string value `text`.
pub open spec fn spec_text_entry(entry: (String, XpcValue), key: Seq<char>, text: Seq<char>) -> bool {
    entry.0@ == key && (entry.1 matches XpcValue::String(t) && t@ == text)
}

/// Marks a reply failed: `ok` is false and `error` holds the code and the
/// message.
pub fn fail(reply: &mut Vec<(String, XpcValue)>, code: &str, message: &str)
    ensures
        final(reply)@.len() == old(reply)@.len() + 2,
        final(reply)@.subrange(0, old(reply)@.len() as int) == old(reply)@,
        final(reply)@[old(reply)@.len() as int].0@ == KEY_OK@,
        final(reply)@[old(reply)@.len() as int].1 == XpcValue::Bool(false),
        final(reply)@[old(reply)@.len() as int + 1].0@ == KEY_ERROR@,
        final(reply)@[old(reply)@.len() as int + 1].1 matches XpcValue::Dictionary(error)
            && error@.len() == 2
            && spec_text_entry(error@[0], KEY_CODE@, code@)
            && spec_text_entry(error@[1], KEY_MESSAGE@, message@),
{
    let mut error: Vec<(String, XpcValue)> = Vec::new();
    error.push(entry(KEY_CODE, text_value(code)));
    error.push(entry(KEY_MESSAGE, text_value(message)));
    reply.push(entry(KEY_OK, XpcValue::Bool(false)));
    reply.push(entry(KEY_ERROR, XpcValue::Dictionary(error)));
}

/// The start of every reply and event: the contract version under `v`.
pub fn message_base() -> (message: Vec<(String, XpcValue)>)
    ensures
        message@.len() == 1,
        message@[0].0@ == KEY_VERSION@,
        message@[0].1 == XpcValue::Int64(CONTRACT_VERSION),
{
    let mut message: Vec<(String, XpcValue)> = Vec::new();
    message.push(entry(KEY_VERSION, XpcValue::Int64(CONTRACT_VERSION)));
    message
}

/// Fills the reply to `hello`: success, the engine's version, the contract
/// version and the band count.
pub fn hello_reply(reply: &mut Vec<(String, XpcValue)>, engine_version: &str, band_count: usize)
    ensures
        final(reply)@.len() == old(reply)@.len() + 4,
        final(reply)@.subrange(0, old(reply)@.len() as int) == old(reply)@,
        final(reply)@[old(reply)@.len() as int].0@ == KEY_OK@,
        final(reply)@[old(reply)@.len() as int].1 == XpcValue::Bool(true),
        spec_text_entry(final(reply)@[old(reply)@.len() as int + 1], KEY_ENGINE_VERSION@, engine_version@),
        final(reply)@[old(reply)@.len() as int + 2].0@ == KEY_CONTRACT_VERSION@,
        final(reply)@[old(reply)@.len() as int + 2].1 == XpcValue::Int64(CONTRACT_VERSION),
        final(reply)@[old(reply)@.len() as int + 3].0@ == KEY_BAND_COUNT@,
        final(reply)@[old(reply)@.len() as int + 3].1 == XpcValue::Int64(spec_contract_int(band_count)),
{
    reply.push(entry(KEY_OK, XpcValue::Bool(true)));
    reply.push(entry(KEY_ENGINE_VERSION, text_value(engine_version)));
    reply.push(entry(KEY_CONTRACT_VERSION, XpcValue::Int64(CONTRACT_VERSION)));
    reply.push(entry(KEY_BAND_COUNT, XpcValue::Int64(contract_int(band_count))));
}

/// An event message: the contract version, the event type, and the given
/// fields after them.
pub fn event_message(event_type: &str, fields: Vec<(String, XpcValue)>) -> (event: Vec<(String, XpcValue)>)
    ensures
        event@.len() == fields@.len() + 2,
        event@[0].0@ == KEY_VERSION@,
        event@[0].1 == XpcValue::Int64(CONTRACT_VERSION),
        spec_text_entry(event@[1], KEY_TYPE@, event_type@),
        event@.subrange(2, event@.len() as int) == fields@,
{
    let mut event = message_base();
    event.push(entry(KEY_TYPE, text_value(event_type)));
    let ghost head = event@;
    let ghost given = fields@;
    let mut fields = fields;
    event.append(&mut fields);
    assert(event@.subrange(2, event@.len() as int) =~= given) by {
        assert(event@ =~= head + given);
    }
    event
}

/// The `stopped` event with its reason.
pub fn stopped_event(reason: &str) -> (event: Vec<(String, XpcValue)>)
    ensures
        event@.len() == 3,
        event@[0].1 == XpcValue::Int64(CONTRACT_VERSION),
        spec_text_entry(event@[1], KEY_TYPE@, EVENT_STOPPED@),
        spec_text_entry(event@[2], KEY_REASON@, reason@),
{
    let mut fields: Vec<(String, XpcValue)> = Vec::new();
    fields.push(entry(KEY_REASON, text_value(reason)));
    let event = event_message(EVENT_STOPPED, fields);
    assert(event@[2] == event@.subrange(2, event@.len() as int)[0]);
    event
}

/// The `error` event with the failure's code and message.
pub fn error_event(code: &str, message: &str) -> (event: Vec<(String, XpcValue)>)
    ensures
        event@.len() == 4,
        event@[0].1 == XpcValue::Int64(CONTRACT_VERSION),
        spec_text_entry(event@[1], KEY_TYPE@, EVENT_ERROR@),
        spec_text_entry(event@[2], KEY_CODE@, code@),
        spec_text_entry(event@[3], KEY_MESSAGE@, message@),
{
    let mut fields: Vec<(String, XpcValue)> = Vec::new();
    fields.push(entry(KEY_CODE, text_value(code)));
    fields.push(entry(KEY_MESSAGE, text_value(message)));
    let event = event_message(EVENT_ERROR, fields);
    assert(event@[2] == event@.subrange(2, event@.len() as int)[0]);
    assert(event@[3] == event@.subrange(2, event@.len() as int)[1]);
    event
}

/// One MIDI device as the device list reply carries it: its name.
pub open spec fn spec_midi_device_value(value: XpcValue, name: Seq<char>) -> bool {
    value matches XpcValue::Dictionary(d) && d@.len() == 1 && spec_text_entry(d@[0], KEY_NAME@, name)
}

/// Fills the reply to `list_midi_devices`: success and one dictionary per
/// device, holding its name.
pub fn midi_devices_reply(reply: &mut Vec<(String, XpcValue)>, names: &[String])
    ensures
        final(reply)@.len() == old(reply)@.len() + 2,
        final(reply)@.subrange(0, old(reply)@.len() as int) == old(reply)@,
        final(reply)@[old(reply)@.len() as int].0@ == KEY_OK@,
        final(reply)@[old(reply)@.len() as int].1 == XpcValue::Bool(true),
        final(reply)@[old(reply)@.len() as int + 1].0@ == KEY_DEVICES@,
        final(reply)@[old(reply)@.len() as int + 1].1 matches XpcValue::Array(devices)
            && devices@.len() == names@.len()
            && forall|i: int| 0 <= i < names@.len() ==> spec_midi_device_value(#[trigger] devices@[i], names@[i]@),
{
    let mut devices: Vec<XpcValue> = Vec::new();
    let mut i: usize = 0;
    while i < names.len()
        invariant
            i <= names@.len(),
            devices@.len() == i,
            forall|k: int| 0 <= k < i ==> spec_midi_device_value(#[trigger] devices@[k], names@[k]@),
        decreases names@.len() - i,
    {
        let mut device: Vec<(String, XpcValue)> = Vec::new();
        device.push(entry(KEY_NAME, XpcValue::String(names[i].clone())));
        devices.push(XpcValue::Dictionary(device));
        i = i + 1;
    }
    reply.push(entry(KEY_OK, XpcValue::Bool(true)));
    reply.push(entry(KEY_DEVICES, XpcValue::Array(devices)));
}

// ---------------------------------------------------------------------------
// The service's run state.
// ---------------------------------------------------------------------------

/// The reply to a `stop` and the event that follows it.
#[derive(Debug, Clone, Copy, PartialEq, Eq, Structural)]
pub struct StopOutcome {
    /// The value of the reply's `ok` field.
    pub ok: bool,
    /// Whether a `stopped` event with reason `requested` follows the reply.
    pub stopped_event: bool,
}

/// A `stop` on a session whose run state is `running`: the outcome and
/// whether a run is active afterwards.
pub open spec fn spec_stop(running: bool) -> (StopOutcome, bool) {
    (StopOutcome { ok: true, stopped_event: running }, false)
}

/// The monitor's report of an engine failure on a session whose run state
/// is `running`: whether events are sent, and whether a run is active
/// afterwards.
pub open spec fn spec_engine_failed(running: bool) -> (bool, bool) {
    (running, false)
}

/// Whether a client is connected and whether an engine run is active. The
/// request handler and the monitor share it; each run is ended exactly
/// once, by whichever of them takes it first.
pub struct LinkSession {
    peer: bool,
    running: bool,
}

impl LinkSession {
    pub closed spec fn has_peer(&self) -> bool {
        self.peer
    }

    pub closed spec fn is_running(&self) -> bool {
        self.running
    }

    /// A session with no client and no run.
    pub fn new() -> (session: LinkSession)
        ensures
            !session.has_peer(),
            !session.is_running(),
    {
        LinkSession { peer: false, running: false }
    }

    /// Whether a run is active.
    pub fn running(&self) -> (running: bool)
        ensures
            running == self.is_running(),
    {
        self.running
    }

    /// Accepts a client unless one is already connected; returns whether
    /// it was accepted.
    pub fn accept_peer(&mut self) -> (accepted: bool)
        ensures
            accepted == !old(self).has_peer(),
            final(self).has_peer(),
            final(self).is_running() == old(self).is_running(),
    {
        if self.peer {
            false
        } else {
            self.peer = true;
            true
        }
    }

    /// The client went away: its run, if any, ends without events. Returns
    /// whether a run was ended.
    pub fn peer_lost(&mut self) -> (ended: bool)
        ensures
            ended == old(self).is_running(),
            !final(self).has_peer(),
            !final(self).is_running(),
    {
        let ended = self.running;
        self.running = false;
        self.peer = false;
        ended
    }

    /// Whether a `start` may proceed: not while a run is active.
    pub fn check_start(&self) -> (allowed: Result<(), LinkError>)
        ensures
            allowed == (if self.is_running() {
                Err::<(), LinkError>(LinkError::AlreadyRunning)
            } else {
                Ok::<(), LinkError>(())
            }),
    {
        if self.running {
            Err(LinkError::AlreadyRunning)
        } else {
            Ok(())
        }
    }

    /// Records that a run started.
    pub fn started(&mut self)
        requires
            !old(self).is_running(),
        ensures
            final(self).is_running(),
            final(self).has_peer() == old(self).has_peer(),
    {
        self.running = true;
    }

    /// Answers `stop`: the reply is always `ok`, and a `stopped` event
    /// follows only when a run was active, which then ends.
    pub fn stop(&mut self) -> (outcome: StopOutcome)
        ensures
            (outcome, final(self).is_running()) == spec_stop(old(self).is_running()),
            final(self).has_peer() == old(self).has_peer(),
    {
        let was_running = self.running;
        self.running = false;
        StopOutcome { ok: true, stopped_event: was_running }
    }

    /// The monitor saw the engine stop itself: the run ends, with an
    /// `error` event and a `stopped` event with reason `failed`, unless it
    /// had already ended. Returns whether those events are sent.
    pub fn engine_failed(&mut self) -> (report: bool)
        ensures
            (report, final(self).is_running()) == spec_engine_failed(old(self).is_running()),
            final(self).has_peer() == old(self).has_peer(),
    {
        let was_running = self.running;
        self.running = false;
        was_running
    }
}

/// Each run ends once: a `stop` while idle replies `ok` with no `stopped`
/// event, and neither a second `stop` nor a `stop` after the monitor ended
/// the run sends another one.
pub proof fn law_one_stopped_event_per_run(running: bool)
    ensures
        spec_stop(false).0 == (StopOutcome { ok: true, stopped_event: false }),
        spec_stop(spec_stop(running).1).0 == (StopOutcome { ok: true, stopped_event: false }),
        spec_stop(spec_engine_failed(running).1).0 == (StopOutcome { ok: true, stopped_event: false }),
        spec_engine_failed(spec_stop(running).1).0 == false,
{
}

} // verus!
