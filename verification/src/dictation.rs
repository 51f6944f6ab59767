//! The dictation control: which commands start, stop or cancel a recording, how
//! samples are gathered up to the ten-minute cap, and how finished recordings wait for
//! transcription.
use std::collections::VecDeque;
use vstd::prelude::*;
use crate::strings::str_eq;
use crate::time::TimeSpan;
use crate::time::NANOS_PER_SEC;
use crate::time::SPAN_MAX_NANOS;

verus! {

/// The longest recording, in seconds.
pub const MAX_DICTATION_SECS: u64 = 600;

/// Samples per second: never zero.
#[derive(Clone, Copy, Debug, PartialEq, Eq, Structural)]
pub struct SampleRate(u32);

impl SampleRate {
    #[verifier::type_invariant]
    spec fn hz_nonzero(self) -> bool {
        self.0 != 0
    }

    pub closed spec fn spec_hz(self) -> u32 {
        self.0
    }

    /// `None` for zero.
    pub fn new(hz: u32) -> (r: Option<SampleRate>)
        ensures
            r is Some <==> hz != 0,
            r matches Some(rate) ==> rate.spec_hz() == hz,
    {
        if hz == 0 {
            None
        } else {
            Some(SampleRate(hz))
        }
    }

    pub fn as_hz(self) -> (r: u32)
        ensures
            r == self.spec_hz(),
    {
        self.0
    }
}

/// The rate at which dictation records.
pub closed spec fn spec_dictation_sample_rate() -> SampleRate {
    SampleRate(16_000)
}

/// The rate at which dictation records: 16 kHz.
pub fn dictation_sample_rate() -> (r: SampleRate)
    ensures
        r == spec_dictation_sample_rate(),
        r.spec_hz() == 16_000,
{
    SampleRate(16_000)
}

/// The longest recording: ten minutes.
pub fn max_dictation_duration() -> (r: TimeSpan)
    ensures
        r.spec_nanos() == 600_000_000_000,
{
    TimeSpan::from_secs(MAX_DICTATION_SECS)
}

/// Where dictation stands, as the user sees it.
#[derive(Clone, Copy, Debug, PartialEq, Eq, Structural)]
pub enum DictationPhase {
    Initializing,
    Idle,
    Recording,
    Transcribing,
    Unavailable,
}

impl DictationPhase {
    pub open spec fn spec_label(self) -> Seq<char> {
        match self {
            DictationPhase::Initializing => "Transcription starting…"@,
            DictationPhase::Idle => "Ready"@,
            DictationPhase::Recording => "Recording…"@,
            DictationPhase::Transcribing => "Transcribing…"@,
            DictationPhase::Unavailable => "Transcription unavailable"@,
        }
    }

    /// What the phase tells the user.
    pub fn label(self) -> (r: &'static str)
        ensures
            r@ == self.spec_label(),
    {
        match self {
            DictationPhase::Initializing => "Transcription starting…",
            DictationPhase::Idle => "Ready",
            DictationPhase::Recording => "Recording…",
            DictationPhase::Transcribing => "Transcribing…",
            DictationPhase::Unavailable => "Transcription unavailable",
        }
    }
}

/// What the user asks of dictation.
#[derive(Clone, Copy, Debug, PartialEq, Eq, Structural)]
pub enum DictationCommand {
    Start,
    Stop,
    Toggle,
    Cancel,
}

/// A command word that is none of `start`, `stop`, `toggle`, `cancel`.
#[derive(Clone, Copy, Debug, PartialEq, Eq, Structural)]
pub struct ParseDictationCommandError;

impl ParseDictationCommandError {
    pub open spec fn spec_describe(self) -> Seq<char> {
        "expected start, stop, toggle, or cancel"@
    }

    /// The sentence that describes the error.
    pub fn describe(&self) -> (r: &'static str)
        ensures
            r@ == self.spec_describe(),
    {
        "expected start, stop, toggle, or cancel"
    }
}

/// The command that a word names, if any.
pub open spec fn spec_parse_command(value: Seq<char>) -> Option<DictationCommand> {
    if value == "start"@ {
        Some(DictationCommand::Start)
    } else if value == "stop"@ {
        Some(DictationCommand::Stop)
    } else if value == "toggle"@ {
        Some(DictationCommand::Toggle)
    } else if value == "cancel"@ {
        Some(DictationCommand::Cancel)
    } else {
        None
    }
}

impl DictationCommand {
    /// The command for exactly `start`, `stop`, `toggle` or `cancel`.
    pub fn parse(value: &str) -> (r: Result<DictationCommand, ParseDictationCommandError>)
        ensures
            match spec_parse_command(value@) {
                Some(c) => r == Ok::<DictationCommand, ParseDictationCommandError>(c),
                None => r is Err,
            },
    {
        if str_eq(value, "start") {
            Ok(DictationCommand::Start)
        } else if str_eq(value, "stop") {
            Ok(DictationCommand::Stop)
        } else if str_eq(value, "toggle") {
            Ok(DictationCommand::Toggle)
        } else if str_eq(value, "cancel") {
            Ok(DictationCommand::Cancel)
        } else {
            Err(ParseDictationCommandError)
        }
    }

    /// The word that names the command.
    pub fn as_str(self) -> (r: &'static str)
        ensures
            spec_parse_command(r@) == Some(self),
    {
        proof {
            reveal_strlit("start");
            reveal_strlit("stop");
            reveal_strlit("toggle");
            reveal_strlit("cancel");
            assert("start"@.len() == 5);
            assert("stop"@.len() == 4);
            assert("toggle"@.len() == 6);
            assert("cancel"@.len() == 6);
            assert("toggle"@[0] != "cancel"@[0]);
        }
        match self {
            DictationCommand::Start => "start",
            DictationCommand::Stop => "stop",
            DictationCommand::Toggle => "toggle",
            DictationCommand::Cancel => "cancel",
        }
    }
}

impl std::str::FromStr for DictationCommand {
    type Err = ParseDictationCommandError;

    fn from_str(value: &str) -> (r: Result<DictationCommand, ParseDictationCommandError>)
        ensures
            match spec_parse_command(value@) {
                Some(c) => r == Ok::<DictationCommand, ParseDictationCommandError>(c),
                None => r is Err,
            },
    {
        DictationCommand::parse(value)
    }
}

/// A finished recording: at least one sample, at a known rate.
#[derive(Clone, Debug, PartialEq)]
pub struct CapturedUtterance<S> {
    sample_rate: SampleRate,
    samples: Vec<S>,
}

impl<S> CapturedUtterance<S> {
    pub closed spec fn spec_sample_rate(self) -> SampleRate {
        self.sample_rate
    }

    pub closed spec fn spec_samples(self) -> Seq<S> {
        self.samples@
    }

    /// `None` when there are no samples.
    pub fn new(sample_rate: SampleRate, samples: Vec<S>) -> (r: Option<CapturedUtterance<S>>)
        ensures
            r is Some <==> samples@.len() > 0,
            r matches Some(u) ==> u.spec_sample_rate() == sample_rate && u.spec_samples()
                == samples@,
    {
        if samples.len() == 0 {
            None
        } else {
            Some(CapturedUtterance { sample_rate, samples })
        }
    }

    pub fn sample_rate(&self) -> (r: SampleRate)
        ensures
            r == self.spec_sample_rate(),
    {
        self.sample_rate
    }

    pub fn samples(&self) -> (r: &[S])
        ensures
            r@ == self.spec_samples(),
    {
        self.samples.as_slice()
    }

    /// How long the recording lasts: its samples divided by the rate, rounded down to
    /// whole nanoseconds.
    pub fn duration(&self) -> (r: TimeSpan)
        ensures
            self.spec_sample_rate().spec_hz() > 0,
            r.spec_nanos() == self.spec_samples().len() * (NANOS_PER_SEC as nat)
                / (self.spec_sample_rate().spec_hz() as nat),
    {
        proof {
            use_type_invariant(&self.sample_rate);
        }
        let count = self.samples.len() as u128;
        let hz = self.sample_rate.0 as u128;
        assert(count * NANOS_PER_SEC <= SPAN_MAX_NANOS) by (nonlinear_arith)
            requires
                count <= u64::MAX,
        ;
        let total = count * NANOS_PER_SEC;
        assert(total / hz <= total) by (nonlinear_arith)
            requires
                hz > 0,
                total >= 0,
        ;
        match TimeSpan::from_nanos(total / hz) {
            Some(span) => span,
            None => TimeSpan::zero(),
        }
    }
}

/// The samples a recording at `sample_rate` may hold: ten minutes' worth.
pub open spec fn spec_max_samples(sample_rate: SampleRate) -> nat {
    sample_rate.spec_hz() as nat * MAX_DICTATION_SECS as nat
}

/// The samples a recording at `sample_rate` may hold: ten minutes' worth.
pub fn max_dictation_samples(sample_rate: SampleRate) -> (r: usize)
    requires
        spec_max_samples(sample_rate) <= usize::MAX,
    ensures
        r == spec_max_samples(sample_rate),
{
    (sample_rate.as_hz() as usize) * (MAX_DICTATION_SECS as usize)
}

/// The state of dictation.
#[derive(Debug)]
pub enum DictationControlState<S> {
    Initializing,
    Idle,
    Recording { sample_rate: SampleRate, samples: Vec<S> },
    Transcribing { ready_utterances: VecDeque<CapturedUtterance<S>> },
    Unavailable,
}

/// The state of dictation, with the recordings as plain sequences.
pub enum DictationView<S> {
    Initializing,
    Idle,
    Recording { sample_rate: SampleRate, samples: Seq<S> },
    Transcribing { ready: Seq<(SampleRate, Seq<S>)> },
    Unavailable,
}

/// The rate and samples of each utterance.
pub open spec fn utterance_views<S>(u: Seq<CapturedUtterance<S>>) -> Seq<(SampleRate, Seq<S>)> {
    u.map_values(|x: CapturedUtterance<S>| (x.spec_sample_rate(), x.spec_samples()))
}

impl<S> DictationView<S> {
    pub open spec fn phase(self) -> DictationPhase {
        match self {
            DictationView::Initializing => DictationPhase::Initializing,
            DictationView::Idle => DictationPhase::Idle,
            DictationView::Recording { .. } => DictationPhase::Recording,
            DictationView::Transcribing { .. } => DictationPhase::Transcribing,
            DictationView::Unavailable => DictationPhase::Unavailable,
        }
    }

    /// A recording never holds more than ten minutes of samples, and every utterance
    /// waiting for transcription holds at least one.
    pub open spec fn wf(self) -> bool {
        match self {
            DictationView::Recording { sample_rate, samples } => spec_max_samples(sample_rate)
                <= usize::MAX && samples.len() <= spec_max_samples(sample_rate),
            DictationView::Transcribing { ready } => forall|i: int|
                0 <= i < ready.len() ==> (#[trigger] ready[i]).1.len() > 0,
            _ => true,
        }
    }

    /// The state after a recording with these samples stopped: its utterance waits for
    /// transcription, or, with no samples, dictation is idle again.
    pub open spec fn stopped(sample_rate: SampleRate, samples: Seq<S>) -> DictationView<S> {
        if samples.len() > 0 {
            DictationView::Transcribing { ready: seq![(sample_rate, samples)] }
        } else {
            DictationView::Idle
        }
    }
}

/// What a command did.
#[derive(Clone, Copy, Debug, PartialEq, Eq)]
pub enum DictationUpdate {
    Started,
    Stopped,
    Cancelled,
    Ignored(&'static str),
    Busy(DictationPhase),
}

/// The state and answer of a command.
pub open spec fn spec_command<S>(s: DictationView<S>, command: DictationCommand) -> (
    DictationView<S>,
    SpecUpdate,
) {
    match command {
        DictationCommand::Start => spec_start(s),
        DictationCommand::Stop => spec_stop(s),
        DictationCommand::Toggle => match s {
            DictationView::Idle => spec_start(s),
            DictationView::Recording { .. } => spec_stop(s),
            _ => (s, SpecUpdate::Busy(s.phase())),
        },
        DictationCommand::Cancel => spec_cancel(s),
    }
}

/// A command's answer, with the reason of an ignored command as characters.
pub enum SpecUpdate {
    Started,
    Stopped,
    Cancelled,
    Ignored(Seq<char>),
    Busy(DictationPhase),
}

impl DictationUpdate {
    pub open spec fn spec_view(self) -> SpecUpdate {
        match self {
            DictationUpdate::Started => SpecUpdate::Started,
            DictationUpdate::Stopped => SpecUpdate::Stopped,
            DictationUpdate::Cancelled => SpecUpdate::Cancelled,
            DictationUpdate::Ignored(reason) => SpecUpdate::Ignored(reason@),
            DictationUpdate::Busy(p) => SpecUpdate::Busy(p),
        }
    }
}

/// Starting: from idle, a new empty recording at 16 kHz; ignored while recording;
/// busy otherwise.
pub open spec fn spec_start<S>(s: DictationView<S>) -> (DictationView<S>, SpecUpdate) {
    match s {
        DictationView::Idle => (
            DictationView::Recording {
                sample_rate: spec_dictation_sample_rate(),
                samples: Seq::empty(),
            },
            SpecUpdate::Started,
        ),
        DictationView::Recording { .. } => (s, SpecUpdate::Ignored("already recording"@)),
        _ => (s, SpecUpdate::Busy(s.phase())),
    }
}

/// Stopping: a recording becomes an utterance (or idle, when empty); ignored when
/// idle; busy otherwise.
pub open spec fn spec_stop<S>(s: DictationView<S>) -> (DictationView<S>, SpecUpdate) {
    match s {
        DictationView::Recording { sample_rate, samples } => (
            DictationView::stopped(sample_rate, samples),
            SpecUpdate::Stopped,
        ),
        DictationView::Idle => (s, SpecUpdate::Ignored("not recording"@)),
        _ => (s, SpecUpdate::Busy(s.phase())),
    }
}

/// Cancelling: a recording is dropped; ignored when idle; busy otherwise.
pub open spec fn spec_cancel<S>(s: DictationView<S>) -> (DictationView<S>, SpecUpdate) {
    match s {
        DictationView::Recording { .. } => (DictationView::Idle, SpecUpdate::Cancelled),
        DictationView::Idle => (s, SpecUpdate::Ignored("not recording"@)),
        _ => (s, SpecUpdate::Busy(s.phase())),
    }
}

/// While dictation initializes, transcribes or is unavailable, every command answers
/// busy with the current phase and leaves the state as it was.
pub proof fn lemma_busy_phases_keep_state<S>(s: DictationView<S>, command: DictationCommand)
    requires
        s is Initializing || s is Transcribing || s is Unavailable,
    ensures
        spec_command(s, command).0 == s,
        spec_command(s, command).1 == SpecUpdate::Busy(s.phase()),
{
}

/// Stopping a recording keeps exactly its samples: a non-empty recording becomes the
/// one utterance waiting for transcription, at the recording's rate.
pub proof fn lemma_stop_keeps_recorded_samples<S>(sample_rate: SampleRate, samples: Seq<S>)
    requires
        samples.len() > 0,
    ensures
        spec_command(
            DictationView::Recording { sample_rate, samples },
            DictationCommand::Stop,
        ).0 == (DictationView::Transcribing { ready: seq![(sample_rate, samples)] }),
{
}

/// What recording a batch of samples did.
#[derive(Clone, Copy, Debug, PartialEq, Eq, Structural)]
pub enum RecordSamplesUpdate {
    Recording,
    AutoStopped { duration: TimeSpan },
    Ignored,
}

/// The state of dictation, owned by one caller at a time.
#[derive(Debug)]
pub struct DictationControl<S> {
    state: DictationControlState<S>,
}

impl<S> View for DictationControl<S> {
    type V = DictationView<S>;

    closed spec fn view(&self) -> DictationView<S> {
        match self.state {
            DictationControlState::Initializing => DictationView::Initializing,
            DictationControlState::Idle => DictationView::Idle,
            DictationControlState::Recording { sample_rate, samples } => DictationView::Recording {
                sample_rate,
                samples: samples@,
            },
            DictationControlState::Transcribing { ready_utterances } => DictationView::Transcribing {
                ready: utterance_views(ready_utterances@),
            },
            DictationControlState::Unavailable => DictationView::Unavailable,
        }
    }
}

fn stopped_recording_state<S>(sample_rate: SampleRate, samples: Vec<S>) -> (r: DictationControlState<S>)
    ensures
        (DictationControl { state: r })@ == DictationView::<S>::stopped(sample_rate, samples@),
{
    let ghost v = samples@;
    match CapturedUtterance::new(sample_rate, samples) {
        Some(utterance) => {
            let mut ready_utterances: VecDeque<CapturedUtterance<S>> = VecDeque::new();
            ready_utterances.push_back(utterance);
            let r = DictationControlState::Transcribing { ready_utterances };
            proof {
                assert(utterance_views(ready_utterances@) =~= seq![(sample_rate, v)]);
            }
            r
        },
        None => DictationControlState::Idle,
    }
}

impl<S: Copy> DictationControl<S> {
    /// Dictation that waits for the microphone.
    pub fn new() -> (r: DictationControl<S>)
        ensures
            r@ == DictationView::<S>::Initializing,
    {
        DictationControl { state: DictationControlState::Initializing }
    }

    /// Dictation already recording, with no samples yet, at `sample_rate`.
    pub fn new_recording(sample_rate: SampleRate) -> (r: DictationControl<S>)
        ensures
            r@ == (DictationView::<S>::Recording { sample_rate, samples: Seq::empty() }),
    {
        DictationControl {
            state: DictationControlState::Recording { sample_rate, samples: Vec::new() },
        }
    }

    pub fn phase(&self) -> (r: DictationPhase)
        ensures
            r == self@.phase(),
    {
        match &self.state {
            DictationControlState::Initializing => DictationPhase::Initializing,
            DictationControlState::Idle => DictationPhase::Idle,
            DictationControlState::Recording { .. } => DictationPhase::Recording,
            DictationControlState::Transcribing { .. } => DictationPhase::Transcribing,
            DictationControlState::Unavailable => DictationPhase::Unavailable,
        }
    }

    /// Applies a user command.
    pub fn apply(&mut self, command: DictationCommand) -> (r: DictationUpdate)
        requires
            old(self)@.wf(),
        ensures
            final(self)@.wf(),
            final(self)@ == spec_command(old(self)@, command).0,
            r.spec_view() == spec_command(old(self)@, command).1,
    {
        match command {
            DictationCommand::Start => self.start_recording(),
            DictationCommand::Stop => self.stop_recording(),
            DictationCommand::Toggle => match self.phase() {
                DictationPhase::Idle => self.start_recording(),
                DictationPhase::Recording => self.stop_recording(),
                phase => DictationUpdate::Busy(phase),
            },
            DictationCommand::Cancel => self.cancel_recording(),
        }
    }

    fn start_recording(&mut self) -> (r: DictationUpdate)
        requires
            old(self)@.wf(),
        ensures
            final(self)@.wf(),
            final(self)@ == spec_start(old(self)@).0,
            r.spec_view() == spec_start(old(self)@).1,
    {
        match &self.state {
            DictationControlState::Idle => {
                self.state = DictationControlState::Recording {
                    sample_rate: dictation_sample_rate(),
                    samples: Vec::new(),
                };
                DictationUpdate::Started
            },
            DictationControlState::Recording { .. } => DictationUpdate::Ignored(
                "already recording",
            ),
            _ => DictationUpdate::Busy(self.phase()),
        }
    }

    fn stop_recording(&mut self) -> (r: DictationUpdate)
        requires
            old(self)@.wf(),
        ensures
            final(self)@.wf(),
            final(self)@ == spec_stop(old(self)@).0,
            r.spec_view() == spec_stop(old(self)@).1,
    {
        let mut taken = DictationControlState::Idle;
        std::mem::swap(&mut taken, &mut self.state);
        match taken {
            DictationControlState::Recording { sample_rate, samples } => {
                self.state = stopped_recording_state(sample_rate, samples);
                DictationUpdate::Stopped
            },
            DictationControlState::Idle => DictationUpdate::Ignored("not recording"),
            other => {
                self.state = other;
                DictationUpdate::Busy(self.phase())
            },
        }
    }

    fn cancel_recording(&mut self) -> (r: DictationUpdate)
        requires
            old(self)@.wf(),
        ensures
            final(self)@.wf(),
            final(self)@ == spec_cancel(old(self)@).0,
            r.spec_view() == spec_cancel(old(self)@).1,
    {
        match &self.state {
            DictationControlState::Recording { .. } => {
                self.state = DictationControlState::Idle;
                DictationUpdate::Cancelled
            },
            DictationControlState::Idle => DictationUpdate::Ignored("not recording"),
            _ => DictationUpdate::Busy(self.phase()),
        }
    }

    /// The microphone is ready: dictation that was initializing becomes idle.
    pub fn mark_ready(&mut self)
        ensures
            final(self)@ == if old(self)@ is Initializing {
                DictationView::<S>::Idle
            } else {
                old(self)@
            },
    {
        if let DictationControlState::Initializing = &self.state {
            self.state = DictationControlState::Idle;
        }
    }

    /// Adds samples to the recording, up to ten minutes in all; reaching the cap stops
    /// the recording. Without a recording the samples are ignored.
    pub fn record_samples(&mut self, new_samples: &[S]) -> (r: RecordSamplesUpdate)
        requires
            old(self)@.wf(),
        ensures
            final(self)@.wf(),
            match old(self)@ {
                DictationView::Recording { sample_rate, samples } => {
                    let max = spec_max_samples(sample_rate);
                    let accepted = if max - samples.len() <= new_samples@.len() {
                        (max - samples.len()) as int
                    } else {
                        new_samples@.len() as int
                    };
                    let gathered = samples + new_samples@.subrange(0, accepted);
                    if gathered.len() >= max {
                        &&& final(self)@ == DictationView::<S>::stopped(sample_rate, gathered)
                        &&& r matches RecordSamplesUpdate::AutoStopped { duration }
                        &&& duration.spec_nanos() == 600_000_000_000
                    } else {
                        &&& final(self)@ == (DictationView::Recording {
                            sample_rate,
                            samples: gathered,
                        })
                        &&& r == RecordSamplesUpdate::Recording
                    }
                },
                _ => final(self)@ == old(self)@ && r == RecordSamplesUpdate::Ignored,
            },
    {
        let mut taken = DictationControlState::Idle;
        std::mem::swap(&mut taken, &mut self.state);
        match taken {
            DictationControlState::Recording { sample_rate, samples } => {
                let mut samples = samples;
                let max_samples = max_dictation_samples(sample_rate);
                let remaining = max_samples - samples.len();
                let accepted = if remaining <= new_samples.len() {
                    remaining
                } else {
                    new_samples.len()
                };
                let ghost start = samples@;
                let mut i: usize = 0;
                while i < accepted
                    invariant
                        i <= accepted,
                        accepted <= new_samples@.len(),
                        samples@ == start + new_samples@.subrange(0, i as int),
                    decreases accepted - i,
                {
                    samples.push(new_samples[i]);
                    i = i + 1;
                    proof {
                        assert(new_samples@.subrange(0, i as int) =~= new_samples@.subrange(
                            0,
                            i - 1,
                        ).push(new_samples@[i - 1]));
                    }
                }
                if samples.len() >= max_samples {
                    self.state = stopped_recording_state(sample_rate, samples);
                    RecordSamplesUpdate::AutoStopped { duration: max_dictation_duration() }
                } else {
                    self.state = DictationControlState::Recording { sample_rate, samples };
                    RecordSamplesUpdate::Recording
                }
            },
            other => {
                self.state = other;
                RecordSamplesUpdate::Ignored
            },
        }
    }

    /// The next utterance waiting for transcription, oldest first.
    pub fn take_utterance(&mut self) -> (r: Option<CapturedUtterance<S>>)
        requires
            old(self)@.wf(),
        ensures
            final(self)@.wf(),
            match old(self)@ {
                DictationView::Transcribing { ready } => if ready.len() > 0 {
                    &&& r matches Some(u) && (u.spec_sample_rate(), u.spec_samples()) == ready[0]
                    &&& final(self)@ == (DictationView::Transcribing { ready: ready.drop_first() })
                } else {
                    r is None && final(self)@ == old(self)@
                },
                _ => r is None && final(self)@ == old(self)@,
            },
    {
        let ghost old_view = self@;
        match &mut self.state {
            DictationControlState::Transcribing { ready_utterances } => {
                let ghost before = ready_utterances@;
                proof {
                    assert(old_view == (DictationView::Transcribing {
                        ready: utterance_views(before),
                    }));
                    assert(old_view.wf());
                    assert(forall|i: int|
                        0 <= i < utterance_views(before).len() ==> (#[trigger] utterance_views(
                            before,
                        )[i]).1.len() > 0);
                }
                let r = ready_utterances.pop_front();
                proof {
                    if r is Some {
                        assert(utterance_views(ready_utterances@) =~= utterance_views(
                            before,
                        ).drop_first());
                        let v = utterance_views(before);
                        assert forall|i: int| 0 <= i < v.drop_first().len() implies (
                        #[trigger] v.drop_first()[i]).1.len() > 0 by {
                            assert(v.drop_first()[i] == v[i + 1]);
                            assert(v[i + 1].1.len() > 0);
                        }
                    }
                }
                r
            },
            _ => None,
        }
    }

    /// Transcription finished: once no utterance waits, dictation is idle again.
    pub fn finish_transcription(&mut self)
        ensures
            final(self)@ == match old(self)@ {
                DictationView::Transcribing { ready } => if ready.len() == 0 {
                    DictationView::<S>::Idle
                } else {
                    old(self)@
                },
                _ => old(self)@,
            },
    {
        let empty = match &self.state {
            DictationControlState::Transcribing { ready_utterances } => ready_utterances.len()
                == 0,
            _ => false,
        };
        if empty {
            self.state = DictationControlState::Idle;
        }
    }

    /// The microphone or model failed: dictation is unavailable.
    pub fn mark_unavailable(&mut self)
        ensures
            final(self)@ == DictationView::<S>::Unavailable,
    {
        self.state = DictationControlState::Unavailable;
    }
}

} // verus!
