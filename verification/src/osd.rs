//! The on-screen display's state machine: which phase it shows, how long transcribing
//! stays visible, when "Ready" lingers, the recent audio levels, and when its window
//! is created, fades out and closes. Levels are carried as values of any copyable type
//! `L`; the drawing that turns them into pixels lives with the renderer.
use vstd::prelude::*;
use crate::overlay_state::RecordingState;
use crate::overlay_state::WindowAnimation;
use crate::time::now;
use crate::time::Moment;
use crate::time::TimeSpan;
use crate::time::CLOCK_MAX_NANOS;
use crate::time::NANOS_PER_MILLI;

verus! {

/// The phase the display shows.
#[derive(Clone, Copy, Debug, PartialEq, Eq, Structural)]
pub enum State {
    Idle,
    Recording,
    Transcribing,
    Error,
}

impl State {
    pub open spec fn spec_rgb8(self, idle_hot: bool) -> (u8, u8, u8) {
        match self {
            State::Idle => if idle_hot {
                (118, 211, 155)
            } else {
                (122, 122, 122)
            },
            State::Recording => (231, 76, 60),
            State::Transcribing => (52, 152, 219),
            State::Error => (243, 156, 18),
        }
    }

    /// The indicator colour as red, green and blue bytes: grey when idle (green when
    /// the idle indicator is hot), red while recording, blue while transcribing,
    /// orange on error.
    pub fn rgb8(self, idle_hot: bool) -> (r: (u8, u8, u8))
        ensures
            r == self.spec_rgb8(idle_hot),
    {
        match self {
            State::Idle => if idle_hot {
                (118, 211, 155)
            } else {
                (122, 122, 122)
            },
            State::Recording => (231, 76, 60),
            State::Transcribing => (52, 152, 219),
            State::Error => (243, 156, 18),
        }
    }
}

/// Slots of the level ring.
pub const LEVEL_SLOTS: usize = 30;

/// Levels that the bars show.
pub const SHOWN_LEVELS: usize = 10;

/// The last thirty audio levels, oldest overwritten first.
#[derive(Debug)]
pub struct LevelRingBuffer<L> {
    buffer: Vec<L>,
    index: usize,
}

impl<L: Copy> LevelRingBuffer<L> {
    /// Thirty slots and a write position among them.
    pub closed spec fn wf(self) -> bool {
        self.buffer@.len() == LEVEL_SLOTS && self.index < LEVEL_SLOTS
    }

    /// The slots, in storage order.
    pub closed spec fn slots(self) -> Seq<L> {
        self.buffer@
    }

    /// The slot written next.
    pub closed spec fn write_index(self) -> int {
        self.index as int
    }

    /// The ten levels shown, oldest first: the ten slots written last.
    pub open spec fn spec_last_10(self) -> Seq<L> {
        Seq::new(
            SHOWN_LEVELS as nat,
            |i: int| self.slots()[(self.write_index() + 20 + i) % (LEVEL_SLOTS as int)],
        )
    }

    /// The level written last.
    pub open spec fn spec_latest(self) -> L {
        self.slots()[(self.write_index() + 29) % (LEVEL_SLOTS as int)]
    }

    /// Every slot holds `zero`.
    pub fn new(zero: L) -> (r: LevelRingBuffer<L>)
        ensures
            r.wf(),
            r.write_index() == 0,
            forall|i: int| 0 <= i < LEVEL_SLOTS ==> r.slots()[i] == zero,
    {
        let mut buffer: Vec<L> = Vec::new();
        let mut i: usize = 0;
        while i < LEVEL_SLOTS
            invariant
                i <= LEVEL_SLOTS,
                buffer@.len() == i,
                forall|j: int| 0 <= j < i ==> buffer@[j] == zero,
            decreases LEVEL_SLOTS - i,
        {
            buffer.push(zero);
            i = i + 1;
        }
        LevelRingBuffer { buffer, index: 0 }
    }

    /// Writes `level` over the oldest slot.
    pub fn push(&mut self, level: L)
        requires
            old(self).wf(),
        ensures
            final(self).wf(),
            final(self).slots() == old(self).slots().update(old(self).write_index(), level),
            final(self).write_index() == (old(self).write_index() + 1) % (LEVEL_SLOTS as int),
            final(self).spec_latest() == level,
            final(self).spec_last_10() == old(self).spec_last_10().drop_first().push(level),
    {
        let ghost before = self.index as int;
        let ghost old_self = *self;
        self.buffer.set(self.index, level);
        self.index = (self.index + 1) % LEVEL_SLOTS;
        proof {
            assert((self.index as int + 29) % 30 == before);
            let a = old_self.spec_last_10();
            let b = self.spec_last_10();
            assert forall|j: int| 0 <= j < 9 implies b[j] == a[j + 1] by {
                assert((self.index as int + 20 + j) % 30 == (before + 21 + j) % 30);
                assert((before + 21 + j) % 30 != before);
            }
            assert(b[9] == level);
            assert(b =~= a.drop_first().push(level));
        }
    }

    /// The ten levels shown, oldest first.
    pub fn last_10(&self) -> (r: Vec<L>)
        requires
            self.wf(),
        ensures
            r@ == self.spec_last_10(),
    {
        let mut out: Vec<L> = Vec::new();
        let mut i: usize = 0;
        while i < SHOWN_LEVELS
            invariant
                self.wf(),
                i <= SHOWN_LEVELS,
                out@.len() == i,
                forall|j: int|
                    0 <= j < i ==> out@[j] == self.slots()[(self.write_index() + 20 + j) % 30],
            decreases SHOWN_LEVELS - i,
        {
            out.push(self.buffer[(self.index + 20 + i) % LEVEL_SLOTS]);
            i = i + 1;
        }
        proof {
            assert(out@ =~= self.spec_last_10());
        }
        out
    }

    /// The level written last.
    pub fn latest(&self) -> (r: L)
        requires
            self.wf(),
        ensures
            r == self.spec_latest(),
            r == self.spec_last_10()[9],
    {
        self.buffer[(self.index + 29) % LEVEL_SLOTS]
    }
}

/// Transcribing began at `entered_at` with the level then showing frozen.
#[derive(Clone, Copy, Debug)]
pub struct TranscribingState<L> {
    pub entered_at: Moment,
    pub frozen_level: L,
}

/// How long transcribing stays visible at least: 500 ms.
pub const MIN_TRANSCRIBING_MILLIS: u64 = 500;

/// How long "Ready" lingers after transcribing: 2 s.
pub const LINGER_MILLIS: u64 = 2_000;

/// Without a message for this long, the server counts as gone: 15 s.
pub const MESSAGE_TIMEOUT_MILLIS: u64 = 15_000;

/// The span from `earlier` to `later`, zero when `later` comes first.
pub open spec fn elapsed_nanos(earlier: Moment, later: Moment) -> nat {
    if earlier.spec_nanos() <= later.spec_nanos() {
        (later.spec_nanos() - earlier.spec_nanos()) as nat
    } else {
        0
    }
}

/// The nanoseconds from `earlier` to `later`, zero when `later` comes first.
fn elapsed(earlier: Moment, later: Moment) -> (r: u128)
    ensures
        r == elapsed_nanos(earlier, later),
{
    let a = earlier.as_nanos();
    let b = later.as_nanos();
    if a <= b {
        b - a
    } else {
        0
    }
}

/// The display's whole state.
#[derive(Debug)]
pub struct OsdState<L> {
    pub state: State,
    pub idle_hot: bool,
    pub recording_state: Option<RecordingState>,
    pub transcribing_state: Option<TranscribingState<L>>,
    pub level_buffer: LevelRingBuffer<L>,
    pub last_message: Moment,
    /// When to hide the window after showing a result.
    pub linger_until: Option<Moment>,
    pub window_animation: Option<WindowAnimation>,
    pub is_window_disappearing: bool,
}

/// A switch away from transcribing that comes before transcribing was shown for
/// 500 ms is held back.
pub open spec fn holds_transcribing<L>(s: &OsdState<L>, new_state: State, now: Moment) -> bool {
    &&& s.state == State::Transcribing
    &&& new_state != State::Transcribing
    &&& s.transcribing_state matches Some(t)
    &&& elapsed_nanos(t.entered_at, now) < MIN_TRANSCRIBING_MILLIS * NANOS_PER_MILLI
}

impl<L: Copy> OsdState<L> {
    pub open spec fn wf(&self) -> bool {
        self.level_buffer.wf()
    }

    /// Idle, nothing recorded, every level `zero`, the last message at `now`.
    pub fn new_at(zero: L, now: Moment) -> (r: OsdState<L>)
        ensures
            r.wf(),
            r.state == State::Idle,
            !r.idle_hot,
            r.recording_state is None,
            r.transcribing_state is None,
            r.level_buffer.spec_latest() == zero,
            r.last_message == now,
            r.linger_until is None,
            r.window_animation is None,
            !r.is_window_disappearing,
    {
        OsdState {
            state: State::Idle,
            idle_hot: false,
            recording_state: None,
            transcribing_state: None,
            level_buffer: LevelRingBuffer::new(zero),
            last_message: now,
            linger_until: None,
            window_animation: None,
            is_window_disappearing: false,
        }
    }

    /// Idle, as of now.
    pub fn new(zero: L) -> (r: OsdState<L>)
        ensures
            r.wf(),
            r.state == State::Idle,
            r.linger_until is None,
            r.window_animation is None,
    {
        Self::new_at(zero, now())
    }

    /// Moves to `new_state` on a message that arrived at `now`. Entering recording
    /// starts the pulse and drops any lingering result; entering transcribing freezes
    /// the latest level and drops any lingering result. Leaving transcribing before it
    /// was shown for 500 ms is held back; leaving it for idle lets "Ready" linger 2 s.
    pub fn update_state_at(&mut self, new_state: State, idle_hot: bool, now: Moment)
        requires
            old(self).wf(),
            now.spec_nanos() < CLOCK_MAX_NANOS,
        ensures
            final(self).wf(),
            final(self).last_message == now,
            final(self).level_buffer == old(self).level_buffer,
            final(self).window_animation == old(self).window_animation,
            final(self).is_window_disappearing == old(self).is_window_disappearing,
            final(self).recording_state == if new_state == State::Recording && old(self).state
                != State::Recording {
                Some(RecordingState { entered_at: now })
            } else if new_state != State::Recording {
                None
            } else {
                old(self).recording_state
            },
            holds_transcribing(old(self), new_state, now) ==> {
                &&& final(self).state == old(self).state
                &&& final(self).idle_hot == old(self).idle_hot
                &&& final(self).transcribing_state == old(self).transcribing_state
                &&& final(self).linger_until == if new_state == State::Recording {
                    None
                } else {
                    old(self).linger_until
                }
            },
            !holds_transcribing(old(self), new_state, now) ==> {
                &&& final(self).state == new_state
                &&& final(self).idle_hot == idle_hot
                &&& final(self).transcribing_state == if new_state == State::Transcribing {
                    if old(self).state != State::Transcribing {
                        Some(
                            TranscribingState {
                                entered_at: now,
                                frozen_level: old(self).level_buffer.spec_latest(),
                            },
                        )
                    } else {
                        old(self).transcribing_state
                    }
                } else {
                    None
                }
                &&& final(self).linger_until == if (new_state == State::Recording
                    && old(self).state != State::Recording) || (new_state == State::Transcribing
                    && old(self).state != State::Transcribing) {
                    None
                } else if old(self).state == State::Transcribing && new_state == State::Idle {
                    Some(now.spec_plus(LINGER_MILLIS as nat * NANOS_PER_MILLI as nat))
                } else {
                    old(self).linger_until
                }
            },
    {
        self.last_message = now;
        if new_state == State::Recording && self.state != State::Recording {
            self.recording_state = Some(RecordingState { entered_at: now });
            self.linger_until = None;
        } else if new_state != State::Recording {
            self.recording_state = None;
        }
        if new_state == State::Transcribing && self.state != State::Transcribing {
            let frozen_level = self.level_buffer.latest();
            self.transcribing_state = Some(TranscribingState { entered_at: now, frozen_level });
            self.linger_until = None;
        } else if new_state != State::Transcribing {
            if self.state == State::Transcribing {
                if let Some(t) = &self.transcribing_state {
                    let shown = elapsed(t.entered_at, now);
                    if shown < (MIN_TRANSCRIBING_MILLIS as u128) * NANOS_PER_MILLI {
                        return ;
                    }
                }
                if new_state == State::Idle {
                    self.linger_until = Some(now.add(TimeSpan::from_millis(LINGER_MILLIS)));
                }
            }
            self.transcribing_state = None;
        }
        self.state = new_state;
        self.idle_hot = idle_hot;
    }

    /// Moves to `new_state` on a message that arrives now.
    pub fn update_state(&mut self, new_state: State, idle_hot: bool)
        requires
            old(self).wf(),
        ensures
            final(self).wf(),
            !holds_transcribing(old(self), new_state, final(self).last_message)
                ==> final(self).state == new_state,
    {
        let now = now();
        self.update_state_at(new_state, idle_hot, now);
    }

    /// Records a level message that arrived at `now`.
    pub fn update_level_at(&mut self, level: L, now: Moment)
        requires
            old(self).wf(),
        ensures
            final(self).wf(),
            final(self).last_message == now,
            final(self).level_buffer.spec_latest() == level,
            final(self).state == old(self).state,
            final(self).linger_until == old(self).linger_until,
    {
        self.last_message = now;
        self.level_buffer.push(level);
    }

    /// Records a level message that arrives now.
    pub fn update_level(&mut self, level: L)
        requires
            old(self).wf(),
        ensures
            final(self).wf(),
            final(self).level_buffer.spec_latest() == level,
    {
        let now = now();
        self.update_level_at(level, now);
    }

    /// Shows the error phase, as a message arriving now.
    pub fn set_error(&mut self)
        requires
            old(self).wf(),
        ensures
            final(self).wf(),
            old(self).state != State::Transcribing ==> final(self).state == State::Error,
    {
        self.update_state(State::Error, false);
    }

    /// Whether something animates: transcribing fades its frozen level and pulses.
    pub fn is_animating(&self) -> (r: bool)
        ensures
            r == self.transcribing_state is Some,
    {
        self.transcribing_state.is_some()
    }

    /// No message arrived for more than 15 s before `now`.
    pub fn has_timeout_at(&self, now: Moment) -> (r: bool)
        ensures
            r == (elapsed_nanos(self.last_message, now) > MESSAGE_TIMEOUT_MILLIS
                * NANOS_PER_MILLI),
    {
        let waited = elapsed(self.last_message, now);
        waited > (MESSAGE_TIMEOUT_MILLIS as u128) * NANOS_PER_MILLI
    }

    /// No message arrived for more than 15 s.
    pub fn has_timeout(&self) -> (r: bool)
        ensures
            exists|t: Moment|
                r == (elapsed_nanos(self.last_message, t) > MESSAGE_TIMEOUT_MILLIS
                    * NANOS_PER_MILLI),
    {
        let t = now();
        self.has_timeout_at(t)
    }

    pub open spec fn spec_needs_window(&self, now: Moment) -> bool {
        ||| self.state == State::Recording
        ||| self.state == State::Transcribing
        ||| self.state == State::Error
        ||| (self.linger_until matches Some(until) && now.spec_nanos() < until.spec_nanos())
    }

    /// The window shows while recording, transcribing or in error, and while a result
    /// lingers.
    pub fn needs_window_at(&self, now: Moment) -> (r: bool)
        ensures
            r == self.spec_needs_window(now),
    {
        match self.state {
            State::Recording | State::Transcribing | State::Error => {
                return true;
            },
            State::Idle => {},
        }
        match self.linger_until {
            Some(until) => !until.is_at_or_before(&now),
            None => false,
        }
    }

    /// The window should show now.
    pub fn needs_window(&self) -> (r: bool)
        ensures
            exists|t: Moment| r == self.spec_needs_window(t),
    {
        let t = now();
        self.needs_window_at(t)
    }

    /// A window is needed and none exists.
    pub fn should_create_window_at(&self, had_window: bool, now: Moment) -> (r: bool)
        ensures
            r == (self.spec_needs_window(now) && !had_window),
    {
        self.needs_window_at(now) && !had_window
    }

    /// A window is needed now and none exists.
    pub fn should_create_window(&self, had_window: bool) -> (r: bool)
        ensures
            exists|t: Moment| r == (self.spec_needs_window(t) && !had_window),
    {
        self.needs_window() && !had_window
    }

    /// A window exists and is no longer needed.
    pub fn should_destroy_window_at(&self, had_window: bool, now: Moment) -> (r: bool)
        ensures
            r == (!self.spec_needs_window(now) && had_window),
    {
        !self.needs_window_at(now) && had_window
    }

    /// A window exists and is no longer needed now.
    pub fn should_destroy_window(&self, had_window: bool) -> (r: bool)
        ensures
            exists|t: Moment| r == (!self.spec_needs_window(t) && had_window),
    {
        !self.needs_window() && had_window
    }

    /// Starts fading the window in, now.
    pub fn start_appearing_animation(&mut self)
        ensures
            final(self).window_animation matches Some(a) && a.state
                == crate::overlay_state::WindowAnimationState::Appearing,
            !final(self).is_window_disappearing,
            final(self).state == old(self).state,
            final(self).level_buffer == old(self).level_buffer,
            final(self).linger_until == old(self).linger_until,
    {
        self.window_animation = Some(WindowAnimation::new_appearing());
        self.is_window_disappearing = false;
    }

    /// A window exists, is no longer needed, and is not fading out yet.
    pub fn should_start_disappearing_at(&self, had_window: bool, now: Moment) -> (r: bool)
        ensures
            r == (!self.spec_needs_window(now) && had_window && !self.is_window_disappearing),
    {
        !self.needs_window_at(now) && had_window && !self.is_window_disappearing
    }

    /// A window exists, is no longer needed now, and is not fading out yet.
    pub fn should_start_disappearing(&self, had_window: bool) -> (r: bool)
        ensures
            exists|t: Moment|
                r == (!self.spec_needs_window(t) && had_window && !self.is_window_disappearing),
    {
        !self.needs_window() && had_window && !self.is_window_disappearing
    }

    /// Starts fading the window out, now.
    pub fn start_disappearing_animation(&mut self)
        ensures
            final(self).window_animation matches Some(a) && a.state
                == crate::overlay_state::WindowAnimationState::Disappearing,
            final(self).is_window_disappearing,
            final(self).state == old(self).state,
            final(self).level_buffer == old(self).level_buffer,
            final(self).linger_until == old(self).linger_until,
    {
        self.window_animation = Some(WindowAnimation::new_disappearing());
        self.is_window_disappearing = true;
    }

    /// The fade-out has finished: close the window.
    pub fn should_close_window(&self) -> (r: bool)
        ensures
            r == (self.is_window_disappearing && self.window_animation is None),
    {
        self.is_window_disappearing && self.window_animation.is_none()
    }
}

/// Once transcribing has ended for idle at `finished_at`, "Ready" keeps the window up
/// for every moment of the next two seconds.
pub proof fn lemma_ready_lingers_two_seconds<L: Copy>(
    s: &OsdState<L>,
    finished_at: Moment,
    now: Moment,
)
    requires
        s.linger_until == Some(finished_at.spec_plus(LINGER_MILLIS as nat * NANOS_PER_MILLI as nat)),
        finished_at.spec_nanos() < CLOCK_MAX_NANOS,
        now.spec_nanos() < finished_at.spec_nanos() + LINGER_MILLIS * NANOS_PER_MILLI,
    ensures
        s.spec_needs_window(now),
{
    finished_at.lemma_plus(LINGER_MILLIS as nat * NANOS_PER_MILLI as nat);
}

} // verus!
