//! MIDI transport and clock handling.
//!
//! Raw bytes are matched against the four MIDI Real-Time codes the engine
//! cares about: Start, Stop, Continue, and Timing Clock. Start resets the
//! step count. The count advances once per six clock ticks, including ticks
//! received while stopped, and wraps on u32 overflow. Transport keeps only
//! the most recent event.
//!
//! [`midi_byte_effect`] decides what one byte does; [`MidiCounters`] is the
//! state those decisions act on, and [`record_byte`] carries the same
//! decisions out on the shared atomics in [`AppState`].

use crate::app::AppState;
use crate::cli::ListFormat;
use crate::names::{find_device_index, lemma_device_match_in_range, spec_device_match};
use std::sync::atomic::Ordering;
use crate::text::{concat, decimal, spec_decimal};
use vstd::prelude::*;

verus! {

/// Raw MIDI clock ticks per 1/16 note step: 24 ticks per quarter note,
/// divided by four.
pub const MIDI_CLOCK_TICKS_PER_STEP: u8 = 6;

/// Raw MIDI Real-Time status bytes.
pub const MIDI_STATUS_TIMING_CLOCK: u8 = 0xF8;
pub const MIDI_STATUS_START: u8 = 0xFA;
pub const MIDI_STATUS_CONTINUE: u8 = 0xFB;
pub const MIDI_STATUS_STOP: u8 = 0xFC;

/// Encoding of the last MIDI transport event seen. `NONE` means no
/// transport event since the last read.
pub const MIDI_TRANSPORT_NONE: u8 = 0;
pub const MIDI_TRANSPORT_START: u8 = 1;
pub const MIDI_TRANSPORT_STOP: u8 = 2;
pub const MIDI_TRANSPORT_CONTINUE: u8 = 3;

/// What one raw MIDI byte does to the MIDI state.
#[derive(Debug, Clone, Copy, PartialEq, Eq)]
pub enum MidiByteEffect {
    /// Start: the step count and the tick accumulator reset, and Start is
    /// recorded as a transport event.
    Start,
    /// Stop or Continue: the event, carried as its transport code, is
    /// recorded.
    Transport(u8),
    /// A clock tick that completes a step: the step count advances.
    Step,
    /// A clock tick that does not complete a step.
    Tick,
    /// Any other byte, ignored.
    Ignored,
}

/// The effect of `byte` and the tick accumulator after it, given the
/// accumulator `ticks` before it.
pub open spec fn spec_byte_effect(byte: u8, ticks: u8) -> (MidiByteEffect, u8) {
    if byte == MIDI_STATUS_START {
        (MidiByteEffect::Start, 0)
    } else if byte == MIDI_STATUS_STOP {
        (MidiByteEffect::Transport(MIDI_TRANSPORT_STOP), ticks)
    } else if byte == MIDI_STATUS_CONTINUE {
        (MidiByteEffect::Transport(MIDI_TRANSPORT_CONTINUE), ticks)
    } else if byte == MIDI_STATUS_TIMING_CLOCK {
        if ticks + 1 >= MIDI_CLOCK_TICKS_PER_STEP {
            (MidiByteEffect::Step, 0)
        } else {
            (MidiByteEffect::Tick, (ticks + 1) as u8)
        }
    } else {
        (MidiByteEffect::Ignored, ticks)
    }
}

/// Decides what `byte` does, given the tick accumulator `ticks`, and
/// returns the effect with the accumulator after the byte.
pub fn midi_byte_effect(byte: u8, ticks: u8) -> (decision: (MidiByteEffect, u8))
    requires
        byte == MIDI_STATUS_TIMING_CLOCK ==> ticks < u8::MAX,
    ensures
        decision == spec_byte_effect(byte, ticks),
{
    if byte == MIDI_STATUS_START {
        (MidiByteEffect::Start, 0)
    } else if byte == MIDI_STATUS_STOP {
        (MidiByteEffect::Transport(MIDI_TRANSPORT_STOP), ticks)
    } else if byte == MIDI_STATUS_CONTINUE {
        (MidiByteEffect::Transport(MIDI_TRANSPORT_CONTINUE), ticks)
    } else if byte == MIDI_STATUS_TIMING_CLOCK {
        if ticks + 1 >= MIDI_CLOCK_TICKS_PER_STEP {
            (MidiByteEffect::Step, 0)
        } else {
            (MidiByteEffect::Tick, ticks + 1)
        }
    } else {
        (MidiByteEffect::Ignored, ticks)
    }
}

/// The MIDI state one byte at a time acts on: the values `AppState` shares
/// as atomics, and the private tick accumulator.
#[derive(Debug, Clone, Copy, PartialEq, Eq)]
pub struct MidiCounters {
    /// MIDI 1/16 note steps since the most recent Start, wrapping at 2^32.
    pub steps: u32,
    /// Start, Stop and Continue events received, wrapping at 2^32.
    pub transport_count: u32,
    /// Last transport event since the mapper last cleared it.
    pub last_transport: u8,
    /// Most recent transport event, never cleared.
    pub transport_latest: u8,
    /// Clock ticks received since the last completed step.
    pub ticks_since_step: u8,
}

/// `value + 1`, wrapping at 2^32.
pub open spec fn spec_wrapping_inc(value: u32) -> u32 {
    ((value as int + 1) % 0x1_0000_0000) as u32
}

/// The counters after `effect`, with the accumulator set to `ticks`.
pub open spec fn spec_apply_effect(counters: MidiCounters, effect: MidiByteEffect, ticks: u8) -> MidiCounters {
    match effect {
        MidiByteEffect::Start => MidiCounters {
            steps: 0,
            transport_count: spec_wrapping_inc(counters.transport_count),
            last_transport: MIDI_TRANSPORT_START,
            transport_latest: MIDI_TRANSPORT_START,
            ticks_since_step: ticks,
        },
        MidiByteEffect::Transport(code) => MidiCounters {
            transport_count: spec_wrapping_inc(counters.transport_count),
            last_transport: code,
            transport_latest: code,
            ticks_since_step: ticks,
            ..counters
        },
        MidiByteEffect::Step => MidiCounters {
            steps: spec_wrapping_inc(counters.steps),
            ticks_since_step: ticks,
            ..counters
        },
        MidiByteEffect::Tick | MidiByteEffect::Ignored => MidiCounters {
            ticks_since_step: ticks,
            ..counters
        },
    }
}

/// The counters after one byte.
pub open spec fn spec_record(counters: MidiCounters, byte: u8) -> MidiCounters {
    let (effect, ticks) = spec_byte_effect(byte, counters.ticks_since_step);
    spec_apply_effect(counters, effect, ticks)
}

/// The counters after every byte of `bytes`, in order.
pub open spec fn spec_record_all(counters: MidiCounters, bytes: Seq<u8>) -> MidiCounters
    decreases bytes.len(),
{
    if bytes.len() == 0 {
        counters
    } else {
        spec_record(spec_record_all(counters, bytes.drop_last()), bytes.last())
    }
}

/// The state before any byte: no steps, no transport event.
pub open spec fn spec_initial_counters() -> MidiCounters {
    MidiCounters {
        steps: 0,
        transport_count: 0,
        last_transport: MIDI_TRANSPORT_NONE,
        transport_latest: MIDI_TRANSPORT_NONE,
        ticks_since_step: 0,
    }
}

impl MidiCounters {
    /// The state before any byte: no steps, no transport event.
    pub fn new() -> (counters: MidiCounters)
        ensures
            counters == spec_initial_counters(),
    {
        MidiCounters {
            steps: 0,
            transport_count: 0,
            last_transport: MIDI_TRANSPORT_NONE,
            transport_latest: MIDI_TRANSPORT_NONE,
            ticks_since_step: 0,
        }
    }

    /// Applies one raw byte.
    pub fn record(&mut self, byte: u8)
        requires
            byte == MIDI_STATUS_TIMING_CLOCK ==> old(self).ticks_since_step < u8::MAX,
        ensures
            *final(self) == spec_record(*old(self), byte),
    {
        let (effect, ticks) = midi_byte_effect(byte, self.ticks_since_step);
        match effect {
            MidiByteEffect::Start => {
                self.steps = 0;
                self.transport_count = self.transport_count.wrapping_add(1);
                self.last_transport = MIDI_TRANSPORT_START;
                self.transport_latest = MIDI_TRANSPORT_START;
            },
            MidiByteEffect::Transport(code) => {
                self.transport_count = self.transport_count.wrapping_add(1);
                self.last_transport = code;
                self.transport_latest = code;
            },
            MidiByteEffect::Step => {
                self.steps = self.steps.wrapping_add(1);
            },
            MidiByteEffect::Tick | MidiByteEffect::Ignored => {},
        }
        self.ticks_since_step = ticks;
    }
}

/// `n` Timing Clock bytes in a row.
pub open spec fn spec_clock_ticks(n: nat) -> Seq<u8> {
    Seq::new(n, |i: int| MIDI_STATUS_TIMING_CLOCK)
}

/// The step count follows the clock: after `n` Timing Clock bytes, the
/// count has advanced once per six ticks, counting the ticks already
/// accumulated, and wraps at 2^32; the accumulator holds the ticks of the
/// incomplete step, and no transport field changes.
pub proof fn law_clock_ticks_advance_steps(counters: MidiCounters, n: nat)
    requires
        counters.ticks_since_step < MIDI_CLOCK_TICKS_PER_STEP,
    ensures
        spec_record_all(counters, spec_clock_ticks(n)).steps
            == (counters.steps + (counters.ticks_since_step + n) / 6) % 0x1_0000_0000,
        spec_record_all(counters, spec_clock_ticks(n)).ticks_since_step
            == (counters.ticks_since_step + n) % 6,
        spec_record_all(counters, spec_clock_ticks(n)).transport_count == counters.transport_count,
        spec_record_all(counters, spec_clock_ticks(n)).last_transport == counters.last_transport,
        spec_record_all(counters, spec_clock_ticks(n)).transport_latest == counters.transport_latest,
    decreases n,
{
    if n > 0 {
        let m = (n - 1) as nat;
        law_clock_ticks_advance_steps(counters, m);
        assert(spec_clock_ticks(n).drop_last() =~= spec_clock_ticks(m));
        assert(spec_clock_ticks(n).last() == MIDI_STATUS_TIMING_CLOCK);
        let t = counters.ticks_since_step as int;
        let before = spec_record_all(counters, spec_clock_ticks(m));
        assert(before.ticks_since_step == (t + m) % 6);
        if (t + m) % 6 == 5 {
            assert((t + n) / 6 == (t + m) / 6 + 1);
            assert((t + n) % 6 == 0);
        } else {
            assert((t + n) / 6 == (t + m) / 6);
            assert((t + n) % 6 == (t + m) % 6 + 1);
        }
    }
}

/// Start always leaves a zero step count and an empty tick accumulator,
/// and is recorded as both the last and the latest transport event.
pub proof fn law_start_resets_steps(counters: MidiCounters)
    ensures
        spec_record(counters, MIDI_STATUS_START).steps == 0,
        spec_record(counters, MIDI_STATUS_START).ticks_since_step == 0,
        spec_record(counters, MIDI_STATUS_START).last_transport == MIDI_TRANSPORT_START,
        spec_record(counters, MIDI_STATUS_START).transport_latest == MIDI_TRANSPORT_START,
        spec_record(counters, MIDI_STATUS_START).transport_count == spec_wrapping_inc(counters.transport_count),
{
}

/// A byte that is none of the four Real-Time codes changes nothing.
pub proof fn law_other_bytes_are_ignored(counters: MidiCounters, byte: u8)
    requires
        byte != MIDI_STATUS_START,
        byte != MIDI_STATUS_STOP,
        byte != MIDI_STATUS_CONTINUE,
        byte != MIDI_STATUS_TIMING_CLOCK,
    ensures
        spec_record(counters, byte) == counters,
{
}

/// Whether `byte` is a transport event: Start, Stop or Continue.
pub open spec fn spec_is_transport_byte(byte: u8) -> bool {
    byte == MIDI_STATUS_START || byte == MIDI_STATUS_STOP || byte == MIDI_STATUS_CONTINUE
}

/// The transport code a transport byte is recorded as.
pub open spec fn spec_transport_code(byte: u8) -> u8 {
    if byte == MIDI_STATUS_START {
        MIDI_TRANSPORT_START
    } else if byte == MIDI_STATUS_STOP {
        MIDI_TRANSPORT_STOP
    } else {
        MIDI_TRANSPORT_CONTINUE
    }
}

/// Timing Clock bytes in `bytes` after its last Start, or in all of it when
/// it holds no Start.
pub open spec fn spec_clocks_since_start(bytes: Seq<u8>) -> nat
    decreases bytes.len(),
{
    if bytes.len() == 0 {
        0
    } else if bytes.last() == MIDI_STATUS_START {
        0
    } else if bytes.last() == MIDI_STATUS_TIMING_CLOCK {
        spec_clocks_since_start(bytes.drop_last()) + 1
    } else {
        spec_clocks_since_start(bytes.drop_last())
    }
}

/// Transport bytes in `bytes`.
pub open spec fn spec_transport_events(bytes: Seq<u8>) -> nat
    decreases bytes.len(),
{
    if bytes.len() == 0 {
        0
    } else if spec_is_transport_byte(bytes.last()) {
        spec_transport_events(bytes.drop_last()) + 1
    } else {
        spec_transport_events(bytes.drop_last())
    }
}

/// The code of the last transport byte in `bytes`, or `NONE` when it holds
/// none.
pub open spec fn spec_latest_transport(bytes: Seq<u8>) -> u8
    decreases bytes.len(),
{
    if bytes.len() == 0 {
        MIDI_TRANSPORT_NONE
    } else if spec_is_transport_byte(bytes.last()) {
        spec_transport_code(bytes.last())
    } else {
        spec_latest_transport(bytes.drop_last())
    }
}

/// What any run of bytes leaves, counted from the state before any byte:
/// the step count is the Timing Clock bytes since the last Start (all of
/// them when there is no Start) divided by six, wrapping at 2^32; the tick
/// accumulator holds the remainder; the transport count is the number of
/// Start, Stop and Continue bytes, wrapping at 2^32; and the latest
/// transport event is the last of them. Clock bytes touch no transport
/// field, and other bytes change nothing.
pub proof fn law_byte_runs_count_steps_and_events(bytes: Seq<u8>)
    ensures
        spec_record_all(spec_initial_counters(), bytes).steps
            == (spec_clocks_since_start(bytes) / 6) % 0x1_0000_0000,
        spec_record_all(spec_initial_counters(), bytes).ticks_since_step
            == spec_clocks_since_start(bytes) % 6,
        spec_record_all(spec_initial_counters(), bytes).transport_count
            == spec_transport_events(bytes) % 0x1_0000_0000,
        spec_record_all(spec_initial_counters(), bytes).transport_latest == spec_latest_transport(bytes),
        spec_record_all(spec_initial_counters(), bytes).last_transport == spec_latest_transport(bytes),
    decreases bytes.len(),
{
    if bytes.len() > 0 {
        let before = bytes.drop_last();
        law_byte_runs_count_steps_and_events(before);
        let k = spec_clocks_since_start(before) as int;
        let e = spec_transport_events(before) as int;
        let modulus: int = 0x1_0000_0000;
        assert(((k / 6) % modulus + 1int % modulus) % modulus == (k / 6 + 1) % modulus) by {
            vstd::arithmetic::div_mod::lemma_add_mod_noop(k / 6, 1int, modulus);
        }
        assert((e % modulus + 1int % modulus) % modulus == (e + 1) % modulus) by {
            vstd::arithmetic::div_mod::lemma_add_mod_noop(e, 1int, modulus);
        }
        if k % 6 == 5 {
            assert((k + 1) / 6 == k / 6 + 1);
            assert((k + 1) % 6 == 0);
        } else {
            assert((k + 1) / 6 == k / 6);
            assert((k + 1) % 6 == k % 6 + 1);
        }
    }
}

/// Records one transport event on the shared state: the code is stored as
/// the last and the latest event, and the event count advances.
pub fn record_transport(state: &AppState, code: u8) {
    state.midi_last_transport.store(code, Ordering::Release);
    state.midi_transport_latest.store(code, Ordering::Release);
    state.midi_transport_count.fetch_add(1, Ordering::AcqRel);
}

/// Matches one raw MIDI status byte and carries its effect out on the shared
/// state: Start resets the step count before it is recorded as the latest
/// transport event, Stop and Continue are recorded, and a clock tick that
/// completes a step advances the step count. The accumulator
/// `ticks_since_step` is private to the caller and holds the ticks since the
/// last completed step.
pub fn record_byte(byte: u8, state: &AppState, ticks_since_step: &mut u8)
    requires
        byte == MIDI_STATUS_TIMING_CLOCK ==> *old(ticks_since_step) < u8::MAX,
    ensures
        *final(ticks_since_step) == spec_byte_effect(byte, *old(ticks_since_step)).1,
{
    let (effect, ticks) = midi_byte_effect(byte, *ticks_since_step);
    *ticks_since_step = ticks;
    match effect {
        MidiByteEffect::Start => {
            state.midi_steps.store(0, Ordering::Release);
            record_transport(state, MIDI_TRANSPORT_START);
        },
        MidiByteEffect::Transport(code) => record_transport(state, code),
        MidiByteEffect::Step => {
            state.midi_steps.fetch_add(1, Ordering::AcqRel);
        },
        MidiByteEffect::Tick | MidiByteEffect::Ignored => {},
    }
}

/// The name of a transport code as the display payload carries it.
pub open spec fn spec_transport_name(code: u8) -> Option<&'static str> {
    if code == MIDI_TRANSPORT_START {
        Some("start")
    } else if code == MIDI_TRANSPORT_STOP {
        Some("stop")
    } else if code == MIDI_TRANSPORT_CONTINUE {
        Some("continue")
    } else {
        None
    }
}

/// The name of a transport code, or `None` for no event.
pub fn transport_code_to_str(code: u8) -> (name: Option<&'static str>)
    ensures
        name == spec_transport_name(code),
{
    if code == MIDI_TRANSPORT_START {
        Some("start")
    } else if code == MIDI_TRANSPORT_STOP {
        Some("stop")
    } else if code == MIDI_TRANSPORT_CONTINUE {
        Some("continue")
    } else {
        None
    }
}

/// One frame's MIDI transport and step state, attached to the display
/// payload only when MIDI input is configured.
#[derive(Debug, Clone, Copy, PartialEq, Eq)]
pub struct MidiSnapshot {
    /// "start", "stop", or "continue" if a transport event happened since
    /// the previous broadcast frame.
    pub transport: Option<&'static str>,
    /// Absolute count of MIDI 1/16 note steps since the most recent Start.
    pub steps: u32,
}

/// The snapshot for a frame whose last transport code is `transport_code`
/// and whose step count is `steps`.
pub fn midi_snapshot(transport_code: u8, steps: u32) -> (snapshot: MidiSnapshot)
    ensures
        snapshot.transport == spec_transport_name(transport_code),
        snapshot.steps == steps,
{
    MidiSnapshot { transport: transport_code_to_str(transport_code), steps }
}

/// Reads and clears the MIDI transport, and snapshots the step count, once
/// per broadcast frame. Returns `None` when MIDI input is not configured,
/// and touches no atomic then.
pub fn read_midi_snapshot(state: &AppState, midi_enabled: bool) -> (snapshot: Option<MidiSnapshot>)
    ensures
        snapshot is None <==> !midi_enabled,
        snapshot matches Some(s) ==> exists|code: u8| s.transport == spec_transport_name(code),
{
    if !midi_enabled {
        return None;
    }
    let transport_code = state.midi_last_transport.swap(MIDI_TRANSPORT_NONE, Ordering::AcqRel);
    let steps = state.midi_steps.load(Ordering::Acquire);
    Some(midi_snapshot(transport_code, steps))
}

/// Typed MIDI device failures. Variant names are headless event codes.
#[derive(Debug, Clone, PartialEq, Eq)]
pub enum MidiDeviceError {
    /// The MIDI backend could not be initialised.
    MidiUnavailable { message: String },
    /// No MIDI input port matched the query, exactly or as a substring.
    MidiNoMatch { query: String },
    /// A port matched the query but could not be opened.
    MidiConnectFailed { device: String, message: String },
}

/// A single enumerated MIDI input device.
#[derive(Debug, Clone, PartialEq, Eq)]
pub struct MidiDeviceInfo {
    /// Zero-based position in the port enumeration.
    pub index: usize,
    /// Device name, or "Unknown Device" if the port name could not be read.
    pub name: String,
}

/// Listens for MIDI transport and clock events, real or synthetic.
pub struct MidiListener;

/// The name an unreadable port is listed under.
pub const UNKNOWN_DEVICE_NAME: &'static str = "Unknown Device";

/// Picks the device `name_query` names among `devices`: the first whose
/// name equals the query exactly, else the first whose
/// lower-cased name contains the lower-cased query. A device whose name
/// cannot be read is skipped. `device_name` reads a device's name.
pub fn find_matching_midi_device<T, F: Fn(&T) -> Option<String>>(
    devices: Vec<T>,
    name_query: &str,
    device_name: F,
) -> (found: Option<T>)
    requires
        forall|d: &T| #[trigger] device_name.requires((d,)),
    ensures
        exists|names: Seq<Option<String>>|
            {
                &&& names.len() == devices@.len()
                &&& forall|i: int|
                    0 <= i < names.len() ==> #[trigger] device_name.ensures((&devices@[i],), names[i])
                &&& match spec_device_match(names, name_query@) {
                    Some(i) => found == Some(devices@[i]),
                    None => found is None,
                }
            },
{
    let mut names: Vec<Option<String>> = Vec::new();
    let mut k: usize = 0;
    while k < devices.len()
        invariant
            k <= devices@.len(),
            names@.len() == k,
            forall|d: &T| #[trigger] device_name.requires((d,)),
            forall|i: int| 0 <= i < k ==> #[trigger] device_name.ensures((&devices@[i],), names@[i]),
        decreases devices@.len() - k,
    {
        let name = device_name(&devices[k]);
        names.push(name);
        k = k + 1;
    }
    let chosen = find_device_index(&names, name_query);
    proof {
        lemma_device_match_in_range(names@, name_query@);
    }
    match chosen {
        Some(i) => {
            let mut devices = devices;
            let device = devices.swap_remove(i);
            Some(device)
        },
        None => None,
    }
}

/// Polling interval of the synthetic clock, in ms.
pub const MIDI_POLL_INTERVAL_MS: u64 = 10;

/// MIDI thread priority on the crate's 0 to 99 scale.
pub const MIDI_THREAD_PRIORITY: u8 = 20;

/// The line the text listing shows when no device is present.
pub const NO_MIDI_DEVICES_LINE: &'static str = "[*] No MIDI input devices detected.";

/// The text listing's line for one device: its index in brackets, then its
/// name.
pub open spec fn spec_device_line(entry: MidiDeviceInfo) -> Seq<char> {
    "["@ + spec_decimal(entry.index as nat) + "] "@ + entry.name@
}

impl MidiListener {
    /// The lines of the text listing: one per device, or a single warning
    /// line when there is none.
    pub fn list_devices_text(entries: &[MidiDeviceInfo]) -> (lines: Vec<String>)
        ensures
            entries@.len() == 0 ==> lines@.len() == 1 && lines@[0]@ == NO_MIDI_DEVICES_LINE@,
            entries@.len() > 0 ==> lines@.len() == entries@.len()
                && forall|i: int| 0 <= i < entries@.len() ==> (#[trigger] lines@[i])@ == spec_device_line(entries@[i]),
    {
        let mut lines: Vec<String> = Vec::new();
        if entries.len() == 0 {
            lines.push(String::from_str(NO_MIDI_DEVICES_LINE));
            return lines;
        }
        let mut i: usize = 0;
        while i < entries.len()
            invariant
                i <= entries@.len(),
                lines@.len() == i,
                forall|k: int| 0 <= k < i ==> (#[trigger] lines@[k])@ == spec_device_line(entries@[k]),
            decreases entries@.len() - i,
        {
            let index_text = decimal(entries[i].index as u64);
            let opened = concat("[", index_text.as_str());
            let closed = concat(opened.as_str(), "] ");
            lines.push(concat(closed.as_str(), entries[i].name.as_str()));
            i = i + 1;
        }
        lines
    }
}

/// One poll of the synthetic MIDI clock.
#[derive(Debug, Clone, Copy, PartialEq, Eq, Structural)]
pub struct ClockStep {
    /// Whether a clock tick is due now.
    pub tick: bool,
    /// When the next tick is due, in ns.
    pub next_tick_ns: u64,
    /// How long to sleep before the next poll, in ns.
    pub sleep_ns: u64,
}

/// The synthetic clock's poll at `now_ns`: a tick is due when its time has
/// come, and the next one is then one interval later; the clock sleeps
/// until the next tick but never longer than the poll interval.
pub open spec fn spec_clock_step(now_ns: u64, next_tick_ns: u64, tick_interval_ns: u64, poll_ns: u64) -> ClockStep {
    let tick = now_ns >= next_tick_ns;
    let next = if tick { (next_tick_ns + tick_interval_ns) as u64 } else { next_tick_ns };
    let remaining = if next > now_ns { (next - now_ns) as u64 } else { 0u64 };
    ClockStep { tick, next_tick_ns: next, sleep_ns: if remaining < poll_ns { remaining } else { poll_ns } }
}

/// Decides one poll of the synthetic clock.
pub fn clock_step(now_ns: u64, next_tick_ns: u64, tick_interval_ns: u64, poll_ns: u64) -> (step: ClockStep)
    requires
        next_tick_ns + tick_interval_ns <= u64::MAX,
    ensures
        step == spec_clock_step(now_ns, next_tick_ns, tick_interval_ns, poll_ns),
{
    let tick = now_ns >= next_tick_ns;
    let next = if tick { next_tick_ns + tick_interval_ns } else { next_tick_ns };
    let remaining = if next > now_ns { next - now_ns } else { 0 };
    ClockStep { tick, next_tick_ns: next, sleep_ns: if remaining < poll_ns { remaining } else { poll_ns } }
}

/// The JSON array `serde_json` writes for devices given as (index, name)
/// pairs, each an object with an `index` and a `name` field.
pub uninterp spec fn spec_midi_devices_json(devices: Seq<(usize, Seq<char>)>) -> Seq<char>;

/// The (index, name) pairs of a device listing.
pub open spec fn spec_device_pairs(entries: Seq<MidiDeviceInfo>) -> Seq<(usize, Seq<char>)> {
    entries.map_values(|e: MidiDeviceInfo| (e.index, e.name@))
}

/// Writes the devices as a JSON array of `{"index": .., "name": ..}`
/// objects, by `serde_json`. What the text is is named, not stated.
#[verifier::external_body]
fn midi_devices_json(entries: &[MidiDeviceInfo]) -> (json: String)
    ensures
        json@ == spec_midi_devices_json(spec_device_pairs(entries@)),
{
    let mut values: Vec<serde_json::Value> = Vec::new();
    for entry in entries {
        let mut object = serde_json::Map::new();
        object.insert("index".to_string(), serde_json::Value::from(entry.index));
        object.insert("name".to_string(), serde_json::Value::from(entry.name.clone()));
        values.push(serde_json::Value::Object(object));
    }
    serde_json::Value::Array(values).to_string()
}

impl MidiListener {
    /// What listing the devices prints: the text listing's lines, or the
    /// devices as a single JSON array line.
    pub fn list_devices(format: ListFormat, entries: &[MidiDeviceInfo]) -> (lines: Vec<String>)
        ensures
            format == ListFormat::Json ==> lines@.len() == 1
                && lines@[0]@ == spec_midi_devices_json(spec_device_pairs(entries@)),
            format == ListFormat::Text && entries@.len() == 0 ==> lines@.len() == 1
                && lines@[0]@ == NO_MIDI_DEVICES_LINE@,
            format == ListFormat::Text && entries@.len() > 0 ==> lines@.len() == entries@.len()
                && forall|i: int| 0 <= i < entries@.len() ==> (#[trigger] lines@[i])@ == spec_device_line(entries@[i]),
    {
        match format {
            ListFormat::Text => MidiListener::list_devices_text(entries),
            ListFormat::Json => {
                let mut lines: Vec<String> = Vec::new();
                lines.push(midi_devices_json(entries));
                lines
            },
        }
    }
}

} // verus!
