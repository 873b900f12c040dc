//! OSC output: the address scheme, the per-frame message set, and the
//! send buffer sizing.
//!
//! Every frame carries one float message per bin per channel, addressed
//! `/phase4/ch/{channel}/bin/{bin}`. With MIDI input configured, the
//! current step count goes to `/phase4/midi/steps` every frame, and a bang
//! (the integer 1) to `/phase4/midi/start`, `/phase4/midi/stop` or
//! `/phase4/midi/continue` on the frame its transport event fired.

use crate::dsp::DISPLAY_BINS;
use crate::midi::MidiSnapshot;
use crate::text::{concat, decimal, same_text, spec_decimal};
use vstd::prelude::*;

verus! {

/// Upper bound on the encoded size of one OSC message.
pub const OSC_MESSAGE_SIZE_ESTIMATE_BYTES: usize = 64;

/// Frames' worth of burst the send buffer absorbs.
pub const OSC_SEND_BUFFER_FRAME_HEADROOM: usize = 4;

/// Address of the per-frame MIDI step count.
pub const OSC_MIDI_STEPS_ADDRESS: &'static str = "/phase4/midi/steps";
/// Address of the MIDI start bang.
pub const OSC_MIDI_START_ADDRESS: &'static str = "/phase4/midi/start";
/// Address of the MIDI stop bang.
pub const OSC_MIDI_STOP_ADDRESS: &'static str = "/phase4/midi/stop";
/// Address of the MIDI continue bang.
pub const OSC_MIDI_CONTINUE_ADDRESS: &'static str = "/phase4/midi/continue";

/// The integer a transport bang carries.
pub const OSC_BANG: i32 = 1;

/// The address of bin `bin` of channel `channel`.
pub open spec fn spec_bin_address(channel: nat, bin: nat) -> Seq<char> {
    "/phase4/ch/"@ + spec_decimal(channel) + "/bin/"@ + spec_decimal(bin)
}

/// The OSC address of one bin of one channel.
pub fn bin_address(channel: u64, bin: u64) -> (address: String)
    ensures
        address@ == spec_bin_address(channel as nat, bin as nat),
{
    let channel_text = decimal(channel);
    let bin_text = decimal(bin);
    let head = concat("/phase4/ch/", channel_text.as_str());
    let middle = concat(head.as_str(), "/bin/");
    concat(middle.as_str(), bin_text.as_str())
}

/// The address table for `channels` channels, channel-major: entry
/// `c * DISPLAY_BINS + b` addresses bin `b` of channel `c`.
pub fn bin_addresses(channels: usize) -> (addresses: Vec<String>)
    requires
        channels * DISPLAY_BINS <= usize::MAX,
    ensures
        addresses@.len() == channels * DISPLAY_BINS,
        forall|i: int| 0 <= i < addresses@.len() ==>
            (#[trigger] addresses@[i])@ == spec_bin_address((i / DISPLAY_BINS as int) as nat, (i % DISPLAY_BINS as int) as nat),
{
    let mut addresses: Vec<String> = Vec::new();
    let mut c: usize = 0;
    while c < channels
        invariant
            c <= channels,
            channels * DISPLAY_BINS <= usize::MAX,
            addresses@.len() == c * DISPLAY_BINS,
            forall|i: int| 0 <= i < addresses@.len() ==>
                (#[trigger] addresses@[i])@ == spec_bin_address((i / DISPLAY_BINS as int) as nat, (i % DISPLAY_BINS as int) as nat),
        decreases channels - c,
    {
        let mut b: usize = 0;
        assert(c * DISPLAY_BINS + DISPLAY_BINS <= channels * DISPLAY_BINS) by (nonlinear_arith)
            requires c < channels;
        while b < DISPLAY_BINS
            invariant
                c < channels,
                b <= DISPLAY_BINS,
                c * DISPLAY_BINS + DISPLAY_BINS <= channels * DISPLAY_BINS,
                addresses@.len() == c * DISPLAY_BINS + b,
                forall|i: int| 0 <= i < addresses@.len() ==>
                    (#[trigger] addresses@[i])@ == spec_bin_address((i / DISPLAY_BINS as int) as nat, (i % DISPLAY_BINS as int) as nat),
            decreases DISPLAY_BINS - b,
        {
            let ghost i = (c * DISPLAY_BINS + b) as int;
            assert(i / DISPLAY_BINS as int == c && i % DISPLAY_BINS as int == b) by (nonlinear_arith)
                requires i == c * 32 + b, b < 32, DISPLAY_BINS == 32;
            addresses.push(bin_address(c as u64, b as u64));
            b = b + 1;
        }
        assert((c + 1) * DISPLAY_BINS == c * DISPLAY_BINS + DISPLAY_BINS) by (nonlinear_arith);
        c = c + 1;
    }
    addresses
}

/// Messages in one frame's burst: one per bin per channel, plus the step
/// count and a transport bang when MIDI is configured.
pub open spec fn spec_messages_per_frame(channels: int, midi_enabled: bool) -> int {
    channels * DISPLAY_BINS + if midi_enabled { 2int } else { 0int }
}

/// The UDP send buffer size for the sender: the frame burst times the
/// message size estimate times the frame headroom.
pub fn send_buffer_size(channels: usize, midi_enabled: bool) -> (bytes: usize)
    requires
        spec_messages_per_frame(channels as int, midi_enabled) * OSC_MESSAGE_SIZE_ESTIMATE_BYTES * OSC_SEND_BUFFER_FRAME_HEADROOM <= usize::MAX,
    ensures
        bytes == spec_messages_per_frame(channels as int, midi_enabled) * OSC_MESSAGE_SIZE_ESTIMATE_BYTES * OSC_SEND_BUFFER_FRAME_HEADROOM,
{
    assert(channels * DISPLAY_BINS <= spec_messages_per_frame(channels as int, midi_enabled) * 256) by (nonlinear_arith)
        requires channels >= 0, DISPLAY_BINS == 32;
    let midi_messages: usize = if midi_enabled { 2 } else { 0 };
    let per_frame = channels * DISPLAY_BINS + midi_messages;
    per_frame * OSC_MESSAGE_SIZE_ESTIMATE_BYTES * OSC_SEND_BUFFER_FRAME_HEADROOM
}

/// The integer messages one frame sends for its MIDI snapshot, as
/// (address, argument) pairs: none without a snapshot; else the step count,
/// read as a two's complement `i32`, then a bang for a transport event.
pub open spec fn spec_midi_messages(midi: Option<MidiSnapshot>) -> Seq<(Seq<char>, i32)> {
    match midi {
        None => Seq::empty(),
        Some(snapshot) => {
            let steps = seq![(OSC_MIDI_STEPS_ADDRESS@, snapshot.steps as i32)];
            match snapshot.transport {
                Some(t) => if t@ == "start"@ {
                    steps.push((OSC_MIDI_START_ADDRESS@, OSC_BANG))
                } else if t@ == "stop"@ {
                    steps.push((OSC_MIDI_STOP_ADDRESS@, OSC_BANG))
                } else if t@ == "continue"@ {
                    steps.push((OSC_MIDI_CONTINUE_ADDRESS@, OSC_BANG))
                } else {
                    steps
                },
                None => steps,
            }
        },
    }
}

/// The integer messages one frame sends for its MIDI snapshot.
pub fn midi_messages(midi: Option<MidiSnapshot>) -> (messages: Vec<(&'static str, i32)>)
    ensures
        messages@.len() == spec_midi_messages(midi).len(),
        forall|i: int| 0 <= i < messages@.len() ==>
            (#[trigger] messages@[i]).0@ == spec_midi_messages(midi)[i].0 && messages@[i].1 == spec_midi_messages(midi)[i].1,
{
    let mut messages: Vec<(&'static str, i32)> = Vec::new();
    let snapshot = match midi {
        None => return messages,
        Some(snapshot) => snapshot,
    };
    messages.push((OSC_MIDI_STEPS_ADDRESS, snapshot.steps as i32));
    match snapshot.transport {
        Some(t) => {
            if same_text(t, "start") {
                messages.push((OSC_MIDI_START_ADDRESS, OSC_BANG));
            } else if same_text(t, "stop") {
                messages.push((OSC_MIDI_STOP_ADDRESS, OSC_BANG));
            } else if same_text(t, "continue") {
                messages.push((OSC_MIDI_CONTINUE_ADDRESS, OSC_BANG));
            }
        },
        None => {},
    }
    messages
}

/// Whether every character of `s` is ASCII.
pub open spec fn spec_is_ascii(s: Seq<char>) -> bool {
    forall|i: int| 0 <= i < s.len() ==> (#[trigger] s[i] as u32) < 0x80
}

/// An OSC string: the bytes of the ASCII text `s`, then one to four NUL
/// bytes, up to a multiple of four bytes.
pub open spec fn spec_osc_string(s: Seq<char>) -> Seq<u8> {
    s.map_values(|c: char| c as u8) + Seq::new((4 - s.len() % 4) as nat, |i: int| 0u8)
}

/// The four bytes of `value`, most significant first.
pub open spec fn spec_be_bytes(value: i32) -> Seq<u8> {
    let u = value as u32;
    seq![
        (u / 0x100_0000) as u8,
        ((u / 0x1_0000) % 0x100) as u8,
        ((u / 0x100) % 0x100) as u8,
        (u % 0x100) as u8,
    ]
}

/// The OSC message to the ASCII address `address` with one `i` argument:
/// the address as an OSC string, the type tag string `",i"` padded with two
/// NUL bytes, then the integer big-endian.
pub open spec fn spec_osc_int_message(address: Seq<char>, value: i32) -> Seq<u8> {
    spec_osc_string(address) + seq![0x2cu8, 0x69u8, 0u8, 0u8] + spec_be_bytes(value)
}

/// Encodes a message to `address` with one `i` argument, by
/// `rosc::encoder::encode`: the address padded with NUL bytes to a multiple
/// of four (at least one NUL), then `",i"` padded the same way, then the
/// value big-endian. Encoding into a `Vec` cannot fail in `rosc`.
#[verifier::external_body]
fn encode_int_message(address: &str, value: i32) -> (bytes: Vec<u8>)
    requires
        spec_is_ascii(address@),
    ensures
        bytes@ == spec_osc_int_message(address@, value),
{
    let packet = rosc::OscPacket::Message(rosc::OscMessage {
        addr: address.to_string(),
        args: vec![rosc::OscType::Int(value)],
    });
    rosc::encoder::encode(&packet).unwrap_or_default()
}

/// The MIDI addresses are ASCII.
proof fn lemma_midi_addresses_are_ascii()
    ensures
        spec_is_ascii(OSC_MIDI_STEPS_ADDRESS@),
        spec_is_ascii(OSC_MIDI_START_ADDRESS@),
        spec_is_ascii(OSC_MIDI_STOP_ADDRESS@),
        spec_is_ascii(OSC_MIDI_CONTINUE_ADDRESS@),
{
    reveal_strlit("/phase4/midi/steps");
    reveal_strlit("/phase4/midi/start");
    reveal_strlit("/phase4/midi/stop");
    reveal_strlit("/phase4/midi/continue");
}

/// The encoded integer messages one frame sends for its MIDI snapshot, in
/// sending order.
pub fn encode_midi_messages(midi: Option<MidiSnapshot>) -> (packets: Vec<Vec<u8>>)
    ensures
        packets@.len() == spec_midi_messages(midi).len(),
        forall|i: int| 0 <= i < packets@.len() ==>
            (#[trigger] packets@[i])@ == spec_osc_int_message(spec_midi_messages(midi)[i].0, spec_midi_messages(midi)[i].1),
{
    proof {
        lemma_midi_addresses_are_ascii();
    }
    let messages = midi_messages(midi);
    let mut packets: Vec<Vec<u8>> = Vec::new();
    let mut i: usize = 0;
    while i < messages.len()
        invariant
            i <= messages@.len(),
            spec_is_ascii(OSC_MIDI_STEPS_ADDRESS@),
            spec_is_ascii(OSC_MIDI_START_ADDRESS@),
            spec_is_ascii(OSC_MIDI_STOP_ADDRESS@),
            spec_is_ascii(OSC_MIDI_CONTINUE_ADDRESS@),
            messages@.len() == spec_midi_messages(midi).len(),
            forall|k: int| 0 <= k < messages@.len() ==>
                (#[trigger] messages@[k]).0@ == spec_midi_messages(midi)[k].0 && messages@[k].1 == spec_midi_messages(midi)[k].1,
            packets@.len() == i,
            forall|k: int| 0 <= k < i ==>
                (#[trigger] packets@[k])@ == spec_osc_int_message(spec_midi_messages(midi)[k].0, spec_midi_messages(midi)[k].1),
        decreases messages@.len() - i,
    {
        let (address, value) = messages[i];
        packets.push(encode_int_message(address, value));
        i = i + 1;
    }
    packets
}

/// The decision after one encode-and-send attempt, and the two failure
/// streak flags after it. Each kind of failure is logged only at the start
/// of its streak.
#[derive(Debug, Clone, Copy, PartialEq, Eq, Structural)]
pub struct SendReport {
    /// Whether to log this failure now.
    pub log_failure: bool,
}

/// The outcome of one attempt to encode and send a message.
#[derive(Debug, Clone, Copy, PartialEq, Eq, Structural)]
pub enum SendAttempt {
    Sent,
    SendFailed,
    EncodeFailed,
}

pub open spec fn spec_send_report(attempt: SendAttempt, send_logged: bool, encode_logged: bool) -> (SendReport, bool, bool) {
    match attempt {
        SendAttempt::Sent => (SendReport { log_failure: false }, false, false),
        SendAttempt::SendFailed => (SendReport { log_failure: !send_logged }, true, false),
        SendAttempt::EncodeFailed => (SendReport { log_failure: !encode_logged }, send_logged, true),
    }
}

/// Updates the failure streaks after an attempt: a successful encode ends
/// the encode streak, a successful send ends the send streak, and the
/// first failure of a streak is logged.
pub fn record_send_attempt(attempt: SendAttempt, send_logged: &mut bool, encode_logged: &mut bool) -> (report: SendReport)
    ensures
        (report, *final(send_logged), *final(encode_logged)) == spec_send_report(attempt, *old(send_logged), *old(encode_logged)),
{
    match attempt {
        SendAttempt::Sent => {
            *send_logged = false;
            *encode_logged = false;
            SendReport { log_failure: false }
        },
        SendAttempt::SendFailed => {
            let first = !*send_logged;
            *send_logged = true;
            *encode_logged = false;
            SendReport { log_failure: first }
        },
        SendAttempt::EncodeFailed => {
            let first = !*encode_logged;
            *encode_logged = true;
            SendReport { log_failure: first }
        },
    }
}

} // verus!
