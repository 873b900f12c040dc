//! The recorder's session state machine and file naming.
//!
//! A recording session is opened when the user toggles recording on, keeps
//! writing until the toggle goes off and the sample buffer has drained, and
//! is closed then. A write failure ends the session and clears the toggle,
//! so the recorder does not reopen a file until the user asks again.

use crate::names::{chars_of, occurs_at, spec_occurs_at};
use crate::text::{decimal, push_char, spec_decimal};
use vstd::prelude::*;

verus! {

/// The maximum chunk of audio processed in one loop iteration, in ms.
pub const CHUNK_SIZE_MS: u32 = 10;

/// Sleep when the sample buffer is empty, in ms.
pub const IDLE_SLEEP_MS: u64 = 10;

/// Recorder thread priority on the crate's 0 to 99 scale.
pub const RECORDER_THREAD_PRIORITY: u8 = 45;

/// Directory, relative to the working directory, that holds recordings.
pub const RECORDINGS_DIR: &'static str = "recordings";

/// Sample format of a recording.
#[derive(Debug, Clone, Copy, PartialEq, Eq, Structural)]
pub enum BitDepth {
    Float32,
    Int24,
    Int16,
}

impl BitDepth {
    /// Bits per sample in the WAV file.
    pub fn bits_per_sample(self) -> (bits: u16)
        ensures
            bits == (match self {
                BitDepth::Float32 => 32u16,
                BitDepth::Int24 => 24u16,
                BitDepth::Int16 => 16u16,
            }),
    {
        match self {
            BitDepth::Float32 => 32,
            BitDepth::Int24 => 24,
            BitDepth::Int16 => 16,
        }
    }

    /// Whether samples are stored as IEEE floats rather than integers.
    pub fn is_float(self) -> (float: bool)
        ensures
            float == (self == BitDepth::Float32),
    {
        match self {
            BitDepth::Float32 => true,
            _ => false,
        }
    }
}

/// Where a recording session stands.
#[derive(Debug, Clone, Copy, PartialEq, Eq, Structural)]
pub enum RecordingPhase {
    /// No file is open.
    Idle,
    /// A file is open and samples go to it.
    Recording,
    /// The toggle went off; the buffer is drained into the open file.
    Draining,
}

/// What the recorder does to its file after looking at the toggle.
#[derive(Debug, Clone, Copy, PartialEq, Eq, Structural)]
pub enum RecorderAction {
    /// Nothing.
    Nothing,
    /// Open a new file.
    Open,
    /// Close the open file and open a new one at once.
    Reopen,
    /// Close the open file; the session is over.
    Close,
}

/// The phase and action after a look at the toggle. Opening is requested
/// here and settled by [`RecorderState::opened`].
pub open spec fn spec_update(phase: RecordingPhase, is_recording: bool, buffer_empty: bool) -> (RecordingPhase, RecorderAction) {
    match phase {
        RecordingPhase::Idle => if is_recording {
            (phase, RecorderAction::Open)
        } else {
            (phase, RecorderAction::Nothing)
        },
        RecordingPhase::Recording => if !is_recording {
            (RecordingPhase::Draining, RecorderAction::Nothing)
        } else {
            (phase, RecorderAction::Nothing)
        },
        RecordingPhase::Draining => if is_recording {
            (phase, RecorderAction::Reopen)
        } else if buffer_empty {
            (RecordingPhase::Idle, RecorderAction::Close)
        } else {
            (phase, RecorderAction::Nothing)
        },
    }
}

/// The recorder's session state.
pub struct RecorderState {
    phase: RecordingPhase,
}

impl RecorderState {
    pub closed spec fn spec_phase(&self) -> RecordingPhase {
        self.phase
    }

    /// A recorder with no open file.
    pub fn new() -> (state: RecorderState)
        ensures
            state.spec_phase() == RecordingPhase::Idle,
    {
        RecorderState { phase: RecordingPhase::Idle }
    }

    /// The current phase.
    pub fn phase(&self) -> (phase: RecordingPhase)
        ensures
            phase == self.spec_phase(),
    {
        self.phase
    }

    /// Looks at the toggle and the buffer: an idle recorder opens a file
    /// when the toggle is on; a recording one starts draining when it goes
    /// off; a draining one reopens at once when the toggle comes back, and
    /// closes its file once the buffer is empty.
    pub fn update(&mut self, is_recording: bool, buffer_empty: bool) -> (action: RecorderAction)
        ensures
            (final(self).spec_phase(), action) == spec_update(old(self).spec_phase(), is_recording, buffer_empty),
    {
        match self.phase {
            RecordingPhase::Idle => if is_recording {
                RecorderAction::Open
            } else {
                RecorderAction::Nothing
            },
            RecordingPhase::Recording => {
                if !is_recording {
                    self.phase = RecordingPhase::Draining;
                }
                RecorderAction::Nothing
            },
            RecordingPhase::Draining => if is_recording {
                RecorderAction::Reopen
            } else if buffer_empty {
                self.phase = RecordingPhase::Idle;
                RecorderAction::Close
            } else {
                RecorderAction::Nothing
            },
        }
    }

    /// Settles an open: a file that opened puts the recorder in
    /// `Recording`; one that failed leaves the phase as it was and clears
    /// the toggle. Returns whether the toggle is to be cleared.
    pub fn opened(&mut self, ok: bool) -> (clear_toggle: bool)
        ensures
            clear_toggle == !ok,
            final(self).spec_phase() == (if ok { RecordingPhase::Recording } else { old(self).spec_phase() }),
    {
        if ok {
            self.phase = RecordingPhase::Recording;
        }
        !ok
    }

    /// A write failed: the file is closed, the session ends and the toggle
    /// is cleared.
    pub fn write_failed(&mut self)
        ensures
            final(self).spec_phase() == RecordingPhase::Idle,
    {
        self.phase = RecordingPhase::Idle;
    }
}

/// After a write failure has cleared the toggle, the recorder does not
/// reopen a file on its next look; and a draining recorder whose buffer
/// empties while the toggle stays off closes its file and goes idle.
pub proof fn law_no_reopen_after_failure(buffer_empty: bool)
    ensures
        spec_update(RecordingPhase::Idle, false, buffer_empty) == (RecordingPhase::Idle, RecorderAction::Nothing),
        spec_update(RecordingPhase::Draining, false, true) == (RecordingPhase::Idle, RecorderAction::Close),
        spec_update(RecordingPhase::Draining, true, buffer_empty).1 == RecorderAction::Reopen,
{
}

/// `s` with every non-overlapping occurrence of `from`, scanning left to
/// right, replaced by `to`.
pub open spec fn spec_replace(s: Seq<char>, from: Seq<char>, to: Seq<char>) -> Seq<char>
    recommends
        from.len() > 0,
    decreases s.len(),
{
    if from.len() == 0 || s.len() < from.len() {
        s
    } else if s.subrange(0, from.len() as int) == from {
        to + spec_replace(s.subrange(from.len() as int, s.len() as int), from, to)
    } else {
        seq![s[0]] + spec_replace(s.drop_first(), from, to)
    }
}

/// One step of [`spec_replace`] at position `i`: an occurrence of `from`
/// there is replaced and skipped, any other character is kept.
proof fn lemma_replace_step(s: Seq<char>, from: Seq<char>, to: Seq<char>, i: int)
    requires
        from.len() > 0,
        0 <= i < s.len(),
    ensures
        spec_occurs_at(s, from, i) ==> spec_replace(s.subrange(i, s.len() as int), from, to)
            == to + spec_replace(s.subrange(i + from.len(), s.len() as int), from, to),
        !spec_occurs_at(s, from, i) ==> spec_replace(s.subrange(i, s.len() as int), from, to)
            == seq![s[i]] + spec_replace(s.subrange(i + 1, s.len() as int), from, to),
{
    let rest = s.subrange(i, s.len() as int);
    if rest.len() >= from.len() {
        assert(rest.subrange(0, from.len() as int) =~= s.subrange(i, i + from.len()));
        assert(rest.subrange(from.len() as int, rest.len() as int) =~= s.subrange(i + from.len(), s.len() as int));
    }
    assert(rest.drop_first() =~= s.subrange(i + 1, s.len() as int));
}

/// `s` with every non-overlapping occurrence of `from`, scanning left to
/// right, replaced by `to`, as `str::replace` does.
fn replace_text(s: &str, from: &str, to: &str) -> (replaced: String)
    requires
        from@.len() > 0,
    ensures
        replaced@ == spec_replace(s@, from@, to@),
{
    let chars = chars_of(s);
    let pattern = chars_of(from);
    let mut out = String::new();
    let mut i: usize = 0;
    assert(s@.subrange(0, s@.len() as int) =~= s@);
    while i < chars.len()
        invariant
            chars@ == s@,
            pattern@ == from@,
            from@.len() > 0,
            i <= chars@.len(),
            out@ + spec_replace(s@.subrange(i as int, s@.len() as int), from@, to@) == spec_replace(s@, from@, to@),
        decreases chars@.len() - i,
    {
        proof {
            lemma_replace_step(s@, from@, to@, i as int);
        }
        if pattern.len() <= chars.len() - i && occurs_at(chars.as_slice(), pattern.as_slice(), i) {
            let ghost before = out@;
            out.append(to);
            assert(out@ == before + to@);
            assert(before + (to@ + spec_replace(s@.subrange(i + from@.len(), s@.len() as int), from@, to@))
                =~= out@ + spec_replace(s@.subrange(i + from@.len(), s@.len() as int), from@, to@));
            i = i + pattern.len();
        } else {
            let ghost before = out@;
            push_char(&mut out, chars[i]);
            assert(before + (seq![s@[i as int]] + spec_replace(s@.subrange(i + 1, s@.len() as int), from@, to@))
                =~= out@ + spec_replace(s@.subrange(i + 1, s@.len() as int), from@, to@));
            i = i + 1;
        }
    }
    assert(s@.subrange(i as int, s@.len() as int) =~= Seq::<char>::empty());
    assert(out@ + Seq::<char>::empty() =~= out@);
    out
}

/// The file name of a recording: the pattern with `{timestamp}`,
/// `{sample_rate}` and `{bit_depth}` substituted, in that order.
pub open spec fn spec_recording_filename(pattern: Seq<char>, timestamp: nat, sample_rate: nat, bits_per_sample: nat) -> Seq<char> {
    spec_replace(
        spec_replace(spec_replace(pattern, "{timestamp}"@, spec_decimal(timestamp)), "{sample_rate}"@, spec_decimal(sample_rate)),
        "{bit_depth}"@,
        spec_decimal(bits_per_sample),
    )
}

/// The file name of a recording started at `timestamp` (microseconds since
/// the Unix epoch).
pub fn recording_filename(pattern: &str, timestamp: u64, sample_rate: u32, bits_per_sample: u16) -> (name: String)
    ensures
        name@ == spec_recording_filename(pattern@, timestamp as nat, sample_rate as nat, bits_per_sample as nat),
{
    proof {
        reveal_strlit("{timestamp}");
        reveal_strlit("{sample_rate}");
        reveal_strlit("{bit_depth}");
    }
    let ts = decimal(timestamp);
    let rate = decimal(sample_rate as u64);
    let bits = decimal(bits_per_sample as u64);
    let first = replace_text(pattern, "{timestamp}", ts.as_str());
    let second = replace_text(first.as_str(), "{sample_rate}", rate.as_str());
    replace_text(second.as_str(), "{bit_depth}", bits.as_str())
}

/// Owns the recorder's configuration: the file name pattern.
pub struct Writer {
    filename_pattern: String,
}

impl Writer {
    pub closed spec fn spec_filename_pattern(&self) -> Seq<char> {
        self.filename_pattern@
    }

    /// A recorder that names its files after `filename_pattern`.
    pub fn new(filename_pattern: String) -> (writer: Writer)
        ensures
            writer.spec_filename_pattern() == filename_pattern@,
    {
        Writer { filename_pattern }
    }

    /// The file name pattern.
    pub fn filename_pattern(&self) -> (pattern: &str)
        ensures
            pattern@ == self.spec_filename_pattern(),
    {
        self.filename_pattern.as_str()
    }
}

} // verus!
