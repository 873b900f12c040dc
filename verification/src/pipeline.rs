//! The pipeline's workers and their decisions: the mapper's broadcast
//! cadence, the frame writer's publication, and the order in which
//! bootstrap registers the workers for shutdown.

use crate::config::OutputConfig;
use crate::dsp::ChannelLevel;
use crate::worker::WorkerKind;
use vstd::prelude::*;

verus! {

/// Display frames the mapper publishes per second.
pub const BROADCAST_RATE_HZ: u64 = 60;

/// Nanoseconds in one second.
pub const NANOSECONDS_PER_SECOND: u64 = 1_000_000_000;

/// Interval between display frames, in nanoseconds.
pub const BROADCAST_INTERVAL_NS: u64 = 16_666_666;

/// Safety buffer for the analyse ring buffer, in ms.
pub const ANALYSE_BUFFER_MS: u32 = 500;

/// Sample rate of the calibration generator, in Hz.
pub const CALIBRATION_SAMPLE_RATE_HZ: u32 = 44_100;

/// Channels the calibration generator writes.
pub const CALIBRATION_CHANNELS: u16 = 2;

/// The mapper's broadcast interval is the second divided evenly by the
/// broadcast rate, rounded down.
pub proof fn lemma_broadcast_interval()
    ensures
        BROADCAST_INTERVAL_NS == NANOSECONDS_PER_SECOND / BROADCAST_RATE_HZ,
{
}

/// Copies analysis snapshots into display frames at a fixed rate.
pub struct Mapper;

/// Publishes analysis snapshots into the shared frame region.
pub struct FrameWriter;

/// Generates the calibration signal.
pub struct Generator;

/// What woke the mapper.
#[derive(Debug, Clone, Copy, PartialEq, Eq, Structural)]
pub enum MapperEvent {
    /// The analyser published a snapshot; `has_channels` tells whether it
    /// holds any channel.
    Snapshot { has_channels: bool },
    /// The analyser's channel closed.
    SnapshotClosed,
    /// The broadcast timer fired; `is_active` is the engine toggle.
    Tick { is_active: bool },
}

/// What the mapper does.
#[derive(Debug, Clone, Copy, PartialEq, Eq, Structural)]
pub enum MapperAction {
    /// Wait for the next event.
    Wait,
    /// Copy the latest snapshot, attach the MIDI snapshot, and publish.
    Publish,
    /// Stop.
    Exit,
}

/// The mapper's step: a snapshot only updates whether a frame is
/// available; a tick publishes when the engine is active and a frame is
/// available, and a paused engine makes the frame stale.
pub open spec fn spec_mapper_step(available: bool, event: MapperEvent) -> (bool, MapperAction) {
    match event {
        MapperEvent::Snapshot { has_channels } => (has_channels, MapperAction::Wait),
        MapperEvent::SnapshotClosed => (available, MapperAction::Exit),
        MapperEvent::Tick { is_active } => if !is_active {
            (false, MapperAction::Wait)
        } else if available {
            (available, MapperAction::Publish)
        } else {
            (available, MapperAction::Wait)
        },
    }
}

/// Decides the mapper's next step from whether a fresh frame is available
/// and what woke it; returns the new availability and the action.
pub fn mapper_step(available: bool, event: MapperEvent) -> (step: (bool, MapperAction))
    ensures
        step == spec_mapper_step(available, event),
{
    match event {
        MapperEvent::Snapshot { has_channels } => (has_channels, MapperAction::Wait),
        MapperEvent::SnapshotClosed => (available, MapperAction::Exit),
        MapperEvent::Tick { is_active } => if !is_active {
            (false, MapperAction::Wait)
        } else if available {
            (available, MapperAction::Publish)
        } else {
            (available, MapperAction::Wait)
        },
    }
}

/// After a pause the mapper publishes nothing until a new snapshot arrives,
/// even once the engine is active again.
pub proof fn law_pause_makes_frames_stale(available: bool)
    ensures
        spec_mapper_step(spec_mapper_step(available, MapperEvent::Tick { is_active: false }).0, MapperEvent::Tick { is_active: true }).1
            == MapperAction::Wait,
        spec_mapper_step(spec_mapper_step(available, MapperEvent::Snapshot { has_channels: true }).0, MapperEvent::Tick { is_active: true }).1
            == MapperAction::Publish,
{
}

/// Copies one channel's analysis snapshot into its display slot.
pub fn map_channel(raw: &ChannelLevel, out: &mut ChannelLevel)
    ensures
        *final(out) == *raw,
{
    *out = *raw;
}

/// Records the outcome of one publication to the frame region: a refused
/// frame is logged only the first time in the writer's life. Returns
/// whether to log now.
pub fn record_publication(published: bool, rejection_logged: &mut bool) -> (log_now: bool)
    ensures
        log_now == (!published && !*old(rejection_logged)),
        *final(rejection_logged) == (*old(rejection_logged) || !published),
{
    if !published && !*rejection_logged {
        *rejection_logged = true;
        return true;
    }
    false
}

/// The worker one output spawns.
pub open spec fn spec_output_worker(output: OutputConfig) -> WorkerKind {
    match output {
        OutputConfig::WebSocket { .. } => WorkerKind::WebSocket,
        OutputConfig::Osc { .. } => WorkerKind::Osc,
        OutputConfig::FrameRegion => WorkerKind::FrameWriter,
    }
}

/// The order in which bootstrap registers workers, which is the order in
/// which shutdown joins them: the generator (calibration only), the
/// analyser, the mapper, the MIDI input (when configured), then one worker
/// per output in configuration order.
pub open spec fn spec_registration_order(calibration: bool, midi_enabled: bool, outputs: Seq<OutputConfig>) -> Seq<WorkerKind> {
    let head: Seq<WorkerKind> = if calibration { seq![WorkerKind::Generator] } else { Seq::empty() };
    let pipeline = head + seq![WorkerKind::Analyser, WorkerKind::Mapper];
    let with_midi = if midi_enabled { pipeline.push(WorkerKind::MidiInput) } else { pipeline };
    with_midi + outputs.map_values(|o: OutputConfig| spec_output_worker(o))
}

/// The workers bootstrap registers, in shutdown order.
pub fn registration_order(calibration: bool, midi_enabled: bool, outputs: &[OutputConfig]) -> (order: Vec<WorkerKind>)
    ensures
        order@ == spec_registration_order(calibration, midi_enabled, outputs@),
{
    let mut order: Vec<WorkerKind> = Vec::new();
    if calibration {
        order.push(WorkerKind::Generator);
    }
    order.push(WorkerKind::Analyser);
    order.push(WorkerKind::Mapper);
    if midi_enabled {
        order.push(WorkerKind::MidiInput);
    }
    let ghost prefix = order@;
    let mut i: usize = 0;
    while i < outputs.len()
        invariant
            i <= outputs@.len(),
            order@ == prefix + outputs@.subrange(0, i as int).map_values(|o: OutputConfig| spec_output_worker(o)),
        decreases outputs@.len() - i,
    {
        let kind = match outputs[i] {
            OutputConfig::WebSocket { .. } => WorkerKind::WebSocket,
            OutputConfig::Osc { .. } => WorkerKind::Osc,
            OutputConfig::FrameRegion => WorkerKind::FrameWriter,
        };
        order.push(kind);
        proof {
            assert(outputs@.subrange(0, i + 1).map_values(|o: OutputConfig| spec_output_worker(o))
                =~= outputs@.subrange(0, i as int).map_values(|o: OutputConfig| spec_output_worker(o)).push(kind));
        }
        i = i + 1;
    }
    assert(outputs@.subrange(0, outputs@.len() as int) =~= outputs@);
    assert(order@ =~= spec_registration_order(calibration, midi_enabled, outputs@));
    order
}

/// Shutdown joins the producers before their consumers: the analyser comes
/// right before the mapper, and both come before every output worker,
/// which keep the configuration's order.
pub proof fn law_producers_join_first(calibration: bool, midi_enabled: bool, outputs: Seq<OutputConfig>, k: int)
    requires
        0 <= k < outputs.len(),
    ensures
        ({
            let order = spec_registration_order(calibration, midi_enabled, outputs);
            let analyser = if calibration { 1int } else { 0int };
            let base = analyser + 2 + (if midi_enabled { 1int } else { 0int });
            &&& order.len() == base + outputs.len()
            &&& order[analyser] == WorkerKind::Analyser
            &&& order[analyser + 1] == WorkerKind::Mapper
            &&& order[base + k] == spec_output_worker(outputs[k])
        }),
{
    let head: Seq<WorkerKind> = if calibration { seq![WorkerKind::Generator] } else { Seq::empty() };
    let pipeline = head + seq![WorkerKind::Analyser, WorkerKind::Mapper];
    let with_midi = if midi_enabled { pipeline.push(WorkerKind::MidiInput) } else { pipeline };
    let workers = outputs.map_values(|o: OutputConfig| spec_output_worker(o));
    let analyser = if calibration { 1int } else { 0int };
    assert(pipeline[analyser] == WorkerKind::Analyser);
    assert(pipeline[analyser + 1] == WorkerKind::Mapper);
    assert(with_midi[analyser] == WorkerKind::Analyser);
    assert(with_midi[analyser + 1] == WorkerKind::Mapper);
    assert(workers[k] == spec_output_worker(outputs[k]));
}

/// The channels the ready report lists: the analysed selection when there
/// is one, else every hardware channel in order.
pub open spec fn spec_ready_channels(selection: Option<Seq<u16>>, hw_channels: u16) -> Seq<u16> {
    match selection {
        Some(s) => s,
        None => Seq::new(hw_channels as nat, |i: int| i as u16),
    }
}

/// The channels the ready report lists.
pub fn ready_channels(selection: Option<&[u16]>, hw_channels: u16) -> (channels: Vec<u16>)
    ensures
        channels@ == spec_ready_channels(match selection { Some(s) => Some(s@), None => None }, hw_channels),
{
    match selection {
        Some(s) => {
            let mut channels: Vec<u16> = Vec::new();
            let mut i: usize = 0;
            while i < s.len()
                invariant
                    i <= s@.len(),
                    channels@ == s@.subrange(0, i as int),
                decreases s@.len() - i,
            {
                channels.push(s[i]);
                i = i + 1;
            }
            assert(s@.subrange(0, s@.len() as int) =~= s@);
            channels
        },
        None => {
            let mut channels: Vec<u16> = Vec::new();
            let mut c: u16 = 0;
            while c < hw_channels
                invariant
                    c <= hw_channels,
                    channels@ == Seq::new(c as nat, |i: int| i as u16),
                decreases hw_channels - c,
            {
                channels.push(c);
                c = c + 1;
                assert(channels@ =~= Seq::new(c as nat, |i: int| i as u16));
            }
            channels
        },
    }
}

} // verus!
