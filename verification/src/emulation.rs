//! The decisions of the emulation thread.
//!
//! The thread creates an emulator core, loads the ROM (with its save), resets
//! the core and opens the audio output; then, while it is asked to keep
//! running, it hands the pressed keys to the core, runs one frame, drains the
//! core's audio into the output, sends the frame to the user interface and
//! waits out the rest of the frame time. Any failure of the core is reported
//! and ends the thread; a failure to open the audio output is reported and
//! emulation goes on muted.
//!
//! The work itself (the core, the audio device, the clock) is done by the
//! caller. `EmulationLoop` holds the stage the thread is in: the caller does
//! what the stage asks for and hands the outcome to `step`, which moves to
//! the next stage and says what, if anything, to report.
use vstd::prelude::*;

verus! {

/// Events sent from the emulation thread to the user interface.
#[derive(Debug)]
pub enum EmuEvent {
    /// One full frame of pixels in `0x00RRGGBB` layout (BGRA8 when read as
    /// bytes).
    Frame(Vec<u32>),
    /// A report of something that went wrong.
    Error(String),
}

/// The sample rate assumed for the muted output used when no audio device
/// can be opened.
pub const MUTED_SAMPLE_RATE: u32 = 48000;

/// The number of output channels (stereo).
pub const OUTPUT_CHANNELS: u16 = 2;

/// The capacity, in samples, of the buffer between the emulator and an audio
/// output running at `sample_rate`: a tenth of a second of stereo sound.
pub fn audio_buffer_capacity(sample_rate: u32) -> (capacity: usize)
    ensures
        capacity == sample_rate / 10 * 2,
{
    (sample_rate / 10 * 2) as usize
}

/// The work that the emulation thread has to do next.
#[derive(PartialEq, Eq, Structural, Clone, Copy, Debug)]
pub enum Stage {
    /// Create the emulator core.
    CreateCore,
    /// Load the ROM (and its save) into the core.
    LoadRom,
    /// Reset the core.
    ResetCore,
    /// Open the audio output (falling back to a muted one).
    OpenAudio,
    /// Find out whether emulation is still wanted.
    CheckRunning,
    /// Hand the pressed keys to the core.
    SetKeys,
    /// Run one frame.
    RunFrame,
    /// Read a chunk of the core's audio and feed it to the output.
    DrainAudio,
    /// Send the frame's pixels to the user interface and measure the time
    /// the frame took.
    SendFrame,
    /// Wait this many nanoseconds.
    Pause { nanos: u64 },
    /// Emulation is over.
    Finished,
}

/// What came of the work that the stage asked for.
pub enum Outcome {
    /// The work succeeded.
    Succeeded,
    /// The work failed; the text describes the error.
    Failed(String),
    /// Whether emulation is still wanted.
    Running(bool),
    /// The number of audio samples read from the core.
    AudioRead(usize),
    /// The frame was sent; it took this many nanoseconds so far.
    FrameShown { spent_nanos: u64 },
}

/// A report that emulation failed at `prefix` with the error `detail`.
pub open spec fn failure_report(prefix: Seq<char>, detail: Seq<char>) -> Seq<char> {
    prefix + detail
}

/// The stage after `stage` when its work came out as `outcome`, and the
/// error to report, if any. An outcome that does not belong to the stage
/// changes nothing.
pub open spec fn transition(stage: Stage, frame_time: u64, outcome: Outcome) -> (
    Stage,
    Option<Seq<char>>,
) {
    match (stage, outcome) {
        (Stage::CreateCore, Outcome::Succeeded) => (Stage::LoadRom, None),
        (Stage::CreateCore, Outcome::Failed(e)) => (
            Stage::Finished,
            Some(failure_report("failed to create core: "@, e@)),
        ),
        (Stage::LoadRom, Outcome::Succeeded) => (Stage::ResetCore, None),
        (Stage::LoadRom, Outcome::Failed(e)) => (
            Stage::Finished,
            Some(failure_report("failed to load ROM: "@, e@)),
        ),
        (Stage::ResetCore, Outcome::Succeeded) => (Stage::OpenAudio, None),
        (Stage::ResetCore, Outcome::Failed(e)) => (
            Stage::Finished,
            Some(failure_report("failed to reset core: "@, e@)),
        ),
        (Stage::OpenAudio, Outcome::Succeeded) => (Stage::CheckRunning, None),
        (Stage::OpenAudio, Outcome::Failed(e)) => (
            Stage::CheckRunning,
            Some(e@ + "; continuing without sound"@),
        ),
        (Stage::CheckRunning, Outcome::Running(true)) => (Stage::SetKeys, None),
        (Stage::CheckRunning, Outcome::Running(false)) => (Stage::Finished, None),
        (Stage::SetKeys, Outcome::Succeeded) => (Stage::RunFrame, None),
        (Stage::SetKeys, Outcome::Failed(e)) => (
            Stage::Finished,
            Some(failure_report("set_keys failed: "@, e@)),
        ),
        (Stage::RunFrame, Outcome::Succeeded) => (Stage::DrainAudio, None),
        (Stage::RunFrame, Outcome::Failed(e)) => (
            Stage::Finished,
            Some(failure_report("run_frame failed: "@, e@)),
        ),
        (Stage::DrainAudio, Outcome::AudioRead(count)) => if count == 0 {
            (Stage::SendFrame, None)
        } else {
            (Stage::DrainAudio, None)
        },
        (Stage::SendFrame, Outcome::FrameShown { spent_nanos }) => if spent_nanos < frame_time {
            (Stage::Pause { nanos: (frame_time - spent_nanos) as u64 }, None)
        } else {
            (Stage::CheckRunning, None)
        },
        (Stage::Pause { .. }, Outcome::Succeeded) => (Stage::CheckRunning, None),
        _ => (stage, None),
    }
}

/// The state of the emulation thread.
pub struct EmulationLoop {
    stage: Stage,
    frame_time: u64,
}

impl EmulationLoop {
    /// The stage the thread is in.
    pub closed spec fn stage_of(&self) -> Stage {
        self.stage
    }

    /// The time, in nanoseconds, that one frame is meant to last.
    pub closed spec fn frame_time_of(&self) -> u64 {
        self.frame_time
    }

    /// A thread that has yet to create its core, and whose frames last
    /// `frame_time` nanoseconds.
    pub fn new(frame_time: u64) -> (l: EmulationLoop)
        ensures
            l.stage_of() == Stage::CreateCore,
            l.frame_time_of() == frame_time,
    {
        EmulationLoop { stage: Stage::CreateCore, frame_time }
    }

    /// The work to do next.
    pub fn stage(&self) -> (s: Stage)
        ensures
            s == self.stage_of(),
    {
        self.stage
    }

    /// Whether emulation is over.
    pub fn is_finished(&self) -> (b: bool)
        ensures
            b == (self.stage_of() == Stage::Finished),
    {
        self.stage == Stage::Finished
    }

    /// Moves on after the current stage's work came out as `outcome`;
    /// returns the error to report to the user interface, if any.
    pub fn step(&mut self, outcome: Outcome) -> (report: Option<String>)
        ensures
            final(self).frame_time_of() == old(self).frame_time_of(),
            final(self).stage_of() == transition(
                old(self).stage_of(),
                old(self).frame_time_of(),
                outcome,
            ).0,
            match report {
                Some(r) => transition(old(self).stage_of(), old(self).frame_time_of(), outcome).1
                    == Some(r@),
                None => transition(
                    old(self).stage_of(),
                    old(self).frame_time_of(),
                    outcome,
                ).1 is None,
            },
    {
        let (next, report) = match (self.stage, outcome) {
            (Stage::CreateCore, Outcome::Succeeded) => (Stage::LoadRom, None),
            (Stage::CreateCore, Outcome::Failed(e)) => (
                Stage::Finished,
                Some(report_failure("failed to create core: ", &e)),
            ),
            (Stage::LoadRom, Outcome::Succeeded) => (Stage::ResetCore, None),
            (Stage::LoadRom, Outcome::Failed(e)) => (
                Stage::Finished,
                Some(report_failure("failed to load ROM: ", &e)),
            ),
            (Stage::ResetCore, Outcome::Succeeded) => (Stage::OpenAudio, None),
            (Stage::ResetCore, Outcome::Failed(e)) => (
                Stage::Finished,
                Some(report_failure("failed to reset core: ", &e)),
            ),
            (Stage::OpenAudio, Outcome::Succeeded) => (Stage::CheckRunning, None),
            (Stage::OpenAudio, Outcome::Failed(e)) => {
                let mut r = e;
                r.append("; continuing without sound");
                (Stage::CheckRunning, Some(r))
            },
            (Stage::CheckRunning, Outcome::Running(running)) => if running {
                (Stage::SetKeys, None)
            } else {
                (Stage::Finished, None)
            },
            (Stage::SetKeys, Outcome::Succeeded) => (Stage::RunFrame, None),
            (Stage::SetKeys, Outcome::Failed(e)) => (
                Stage::Finished,
                Some(report_failure("set_keys failed: ", &e)),
            ),
            (Stage::RunFrame, Outcome::Succeeded) => (Stage::DrainAudio, None),
            (Stage::RunFrame, Outcome::Failed(e)) => (
                Stage::Finished,
                Some(report_failure("run_frame failed: ", &e)),
            ),
            (Stage::DrainAudio, Outcome::AudioRead(count)) => if count == 0 {
                (Stage::SendFrame, None)
            } else {
                (Stage::DrainAudio, None)
            },
            (Stage::SendFrame, Outcome::FrameShown { spent_nanos }) => {
                let pause = frame_pause(spent_nanos, self.frame_time);
                if pause > 0 {
                    (Stage::Pause { nanos: pause }, None)
                } else {
                    (Stage::CheckRunning, None)
                }
            },
            (Stage::Pause { .. }, Outcome::Succeeded) => (Stage::CheckRunning, None),
            (stage, _) => (stage, None),
        };
        self.stage = next;
        report
    }
}

/// The report `prefix` followed by `detail`.
fn report_failure(prefix: &str, detail: &String) -> (r: String)
    ensures
        r@ == failure_report(prefix@, detail@),
{
    let mut r = String::from_str(prefix);
    r.append(detail.as_str());
    r
}

/// Nanoseconds left to wait so that a frame that took `spent` nanoseconds
/// lasts `frame_time` nanoseconds in all; 0 when it already took that long.
pub fn frame_pause(spent: u64, frame_time: u64) -> (pause: u64)
    ensures
        spent < frame_time ==> pause == frame_time - spent,
        spent >= frame_time ==> pause == 0,
{
    if spent < frame_time {
        frame_time - spent
    } else {
        0
    }
}


/// Once emulation is over it stays over, and nothing more is reported.
pub proof fn law_finished_stays_finished(frame_time: u64, outcome: Outcome)
    ensures
        transition(Stage::Finished, frame_time, outcome) == (Stage::Finished, None::<Seq<char>>),
{
}

/// Emulation ends only when it is no longer wanted, or when the core fails;
/// a failure is always reported.
pub proof fn law_ends_only_when_stopped_or_failed(stage: Stage, frame_time: u64, outcome: Outcome)
    requires
        stage != Stage::Finished,
        transition(stage, frame_time, outcome).0 == Stage::Finished,
    ensures
        (stage == Stage::CheckRunning && (outcome matches Outcome::Running(r) && !r)) || (
        outcome is Failed && transition(stage, frame_time, outcome).1 is Some),
{
}

/// A failure of the core while creating it, loading the ROM, resetting it,
/// handing it the keys or running a frame ends emulation, with a report that
/// ends with the error's text.
pub proof fn law_core_failure_ends_emulation(stage: Stage, frame_time: u64, detail: String)
    requires
        stage == Stage::CreateCore || stage == Stage::LoadRom || stage == Stage::ResetCore
            || stage == Stage::SetKeys || stage == Stage::RunFrame,
    ensures
        transition(stage, frame_time, Outcome::Failed(detail)).0 == Stage::Finished,
        transition(stage, frame_time, Outcome::Failed(detail)).1 matches Some(r) && r.len()
            >= detail@.len() && r.subrange(r.len() - detail@.len(), r.len() as int) == detail@,
{
    let r = transition(stage, frame_time, Outcome::Failed(detail)).1.unwrap();
    assert(r.subrange(r.len() - detail@.len(), r.len() as int) =~= detail@);
}

/// A failure to open the audio output is reported, and emulation goes on.
pub proof fn law_audio_failure_is_not_fatal(frame_time: u64, detail: String)
    ensures
        transition(Stage::OpenAudio, frame_time, Outcome::Failed(detail)) == (
            Stage::CheckRunning,
            Some(detail@ + "; continuing without sound"@),
        ),
{
}

/// Keys are handed to the core only while emulation is wanted.
pub proof fn law_keys_only_while_running(stage: Stage, frame_time: u64, outcome: Outcome)
    requires
        stage != Stage::SetKeys,
        transition(stage, frame_time, outcome).0 == Stage::SetKeys,
    ensures
        stage == Stage::CheckRunning,
        outcome matches Outcome::Running(r) && r,
{
}

/// A frame runs only after the keys were handed to the core.
pub proof fn law_frame_runs_after_keys(stage: Stage, frame_time: u64, outcome: Outcome)
    requires
        stage != Stage::RunFrame,
        transition(stage, frame_time, outcome).0 == Stage::RunFrame,
    ensures
        stage == Stage::SetKeys,
        outcome is Succeeded,
{
}

/// Audio is drained only after a frame ran, and until the core has no more.
pub proof fn law_audio_drained_after_frame(stage: Stage, frame_time: u64, outcome: Outcome)
    requires
        transition(stage, frame_time, outcome).0 == Stage::DrainAudio,
    ensures
        (stage == Stage::RunFrame && outcome is Succeeded) || (stage == Stage::DrainAudio && (
        outcome matches Outcome::AudioRead(n) ==> n > 0)),
{
}

/// A frame is sent only once the core's audio is drained.
pub proof fn law_frame_sent_after_drain(stage: Stage, frame_time: u64, outcome: Outcome)
    requires
        stage != Stage::SendFrame,
        transition(stage, frame_time, outcome).0 == Stage::SendFrame,
    ensures
        stage == Stage::DrainAudio,
        outcome matches Outcome::AudioRead(n) && n == 0,
{
}

/// After a frame is sent, the thread waits until the frame has lasted the
/// frame time; a frame that already took that long is not followed by a
/// wait.
pub proof fn law_pause_completes_frame(frame_time: u64, spent_nanos: u64)
    ensures
        spent_nanos < frame_time ==> (transition(
            Stage::SendFrame,
            frame_time,
            Outcome::FrameShown { spent_nanos },
        ).0 matches Stage::Pause { nanos } && spent_nanos + nanos == frame_time),
        spent_nanos >= frame_time ==> transition(
            Stage::SendFrame,
            frame_time,
            Outcome::FrameShown { spent_nanos },
        ).0 == Stage::CheckRunning,
{
}

/// Each stage's success leads to the next piece of work: the core is
/// created, loaded, reset, the audio opened, then each pass checks that
/// emulation is wanted, hands over the keys, runs a frame, drains the audio
/// (a read that got samples reads again, an empty one sends the frame), and a
/// pause leads to the next pass.
pub proof fn law_success_moves_to_next_stage(frame_time: u64, n: usize, nanos: u64)
    ensures
        transition(Stage::CreateCore, frame_time, Outcome::Succeeded) == (
            Stage::LoadRom,
            None::<Seq<char>>,
        ),
        transition(Stage::LoadRom, frame_time, Outcome::Succeeded) == (
            Stage::ResetCore,
            None::<Seq<char>>,
        ),
        transition(Stage::ResetCore, frame_time, Outcome::Succeeded) == (
            Stage::OpenAudio,
            None::<Seq<char>>,
        ),
        transition(Stage::OpenAudio, frame_time, Outcome::Succeeded) == (
            Stage::CheckRunning,
            None::<Seq<char>>,
        ),
        transition(Stage::CheckRunning, frame_time, Outcome::Running(true)) == (
            Stage::SetKeys,
            None::<Seq<char>>,
        ),
        transition(Stage::CheckRunning, frame_time, Outcome::Running(false)) == (
            Stage::Finished,
            None::<Seq<char>>,
        ),
        transition(Stage::SetKeys, frame_time, Outcome::Succeeded) == (
            Stage::RunFrame,
            None::<Seq<char>>,
        ),
        transition(Stage::RunFrame, frame_time, Outcome::Succeeded) == (
            Stage::DrainAudio,
            None::<Seq<char>>,
        ),
        n > 0 ==> transition(Stage::DrainAudio, frame_time, Outcome::AudioRead(n)) == (
            Stage::DrainAudio,
            None::<Seq<char>>,
        ),
        transition(Stage::DrainAudio, frame_time, Outcome::AudioRead(0)) == (
            Stage::SendFrame,
            None::<Seq<char>>,
        ),
        transition(Stage::Pause { nanos }, frame_time, Outcome::Succeeded) == (
            Stage::CheckRunning,
            None::<Seq<char>>,
        ),
{
}

} // verus!
