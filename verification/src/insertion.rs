//! Text insertion through the Wayland input-method protocol, in its first form: one
//! `done` event commits every chunk at once, and failures carry plain messages.
pub mod outcome;
pub mod wayland;

use std::collections::VecDeque;
use vstd::prelude::*;
use vstd::string::StringExecFns;
use crate::text_chunks::is_greedy_split;
use crate::text_chunks::split_at_byte_limit;
use crate::text_chunks::str_byte_len;
use crate::text_chunks::string_views;
use crate::text_chunks::utf8_len;
use crate::time::now;
use crate::time::Moment;
use crate::time::TimeSpan;
use crate::time::SPAN_MAX_NANOS;
use crate::time::CLOCK_MAX_NANOS;

verus! {

/// The largest string, in UTF-8 bytes, that one `commit_string` request may carry.
pub const MAX_COMMIT_STRING_BYTES: usize = 4000;

/// Idle windows that one request may take in all.
pub const PROTOCOL_ATTEMPT_IDLE_WINDOWS: u32 = 4;

/// The result of one insertion request.
#[derive(Debug, PartialEq, Eq)]
pub enum InsertOutcome {
    SentToInputMethod { sent_bytes: usize },
    NotInserted(InsertFailure),
    DeliveryUncertain { maybe_sent_bytes: usize, failure: InsertFailure },
}

/// Why an insertion request failed.
#[derive(Debug, PartialEq, Eq)]
pub enum InsertFailure {
    NoWaylandDisplay { message: String },
    InputMethodManagerUnavailable,
    SeatUnavailable,
    InputMethodRejected,
    ProtocolIdleTimedOut,
    ProtocolAttemptTimedOut,
    ProtocolFailed { message: String },
}

impl InsertFailure {
    pub open spec fn spec_describe(self) -> Seq<char> {
        match self {
            InsertFailure::NoWaylandDisplay { message } =>
                "Wayland text insertion is unavailable: "@ + message@,
            InsertFailure::InputMethodManagerUnavailable =>
                "Wayland input-method manager is unavailable"@,
            InsertFailure::SeatUnavailable => "Wayland seat is unavailable"@,
            InsertFailure::InputMethodRejected =>
                "Wayland input method rejected the insertion request"@,
            InsertFailure::ProtocolIdleTimedOut =>
                "Wayland text insertion made no protocol progress before the idle timeout"@,
            InsertFailure::ProtocolAttemptTimedOut =>
                "Wayland text insertion exceeded the protocol attempt timeout"@,
            InsertFailure::ProtocolFailed { message } => "Wayland text insertion failed: "@
                + message@,
        }
    }

    /// The sentence that describes the failure.
    pub fn describe(&self) -> (r: String)
        ensures
            r@ == self.spec_describe(),
    {
        match self {
            InsertFailure::NoWaylandDisplay { message } => {
                let mut out = String::from_str("Wayland text insertion is unavailable: ");
                out.append(message.as_str());
                out
            },
            InsertFailure::InputMethodManagerUnavailable => String::from_str(
                "Wayland input-method manager is unavailable",
            ),
            InsertFailure::SeatUnavailable => String::from_str("Wayland seat is unavailable"),
            InsertFailure::InputMethodRejected => String::from_str(
                "Wayland input method rejected the insertion request",
            ),
            InsertFailure::ProtocolIdleTimedOut => String::from_str(
                "Wayland text insertion made no protocol progress before the idle timeout",
            ),
            InsertFailure::ProtocolAttemptTimedOut => String::from_str(
                "Wayland text insertion exceeded the protocol attempt timeout",
            ),
            InsertFailure::ProtocolFailed { message } => {
                let mut out = String::from_str("Wayland text insertion failed: ");
                out.append(message.as_str());
                out
            },
        }
    }

    /// A protocol failure with the given message.
    pub fn protocol(message: String) -> (r: InsertFailure)
        ensures
            r == (InsertFailure::ProtocolFailed { message }),
    {
        InsertFailure::ProtocolFailed { message }
    }
}

/// The input-method backend with its idle timeout.
#[derive(Clone, Copy, Debug, PartialEq, Eq, Structural)]
pub struct WaylandInputMethodBackend {
    protocol_idle_timeout: TimeSpan,
}

impl WaylandInputMethodBackend {
    pub closed spec fn spec_protocol_idle_timeout(self) -> TimeSpan {
        self.protocol_idle_timeout
    }

    pub fn new(protocol_idle_timeout: TimeSpan) -> (r: WaylandInputMethodBackend)
        ensures
            r.spec_protocol_idle_timeout() == protocol_idle_timeout,
    {
        WaylandInputMethodBackend { protocol_idle_timeout }
    }

    /// How long the protocol may make no progress.
    pub fn protocol_idle_timeout(&self) -> (r: TimeSpan)
        ensures
            r == self.spec_protocol_idle_timeout(),
    {
        self.protocol_idle_timeout
    }

    /// How long a whole request may take: four idle windows, or the largest span.
    pub fn protocol_attempt_timeout(&self) -> (r: TimeSpan)
        ensures
            r.spec_nanos() == if self.spec_protocol_idle_timeout().spec_nanos() * 4
                <= SPAN_MAX_NANOS {
                self.spec_protocol_idle_timeout().spec_nanos() * 4
            } else {
                SPAN_MAX_NANOS as nat
            },
    {
        self.protocol_idle_timeout.saturating_mul(PROTOCOL_ATTEMPT_IDLE_WINDOWS)
    }
}

impl Default for WaylandInputMethodBackend {
    fn default() -> (r: WaylandInputMethodBackend)
        ensures
            r.spec_protocol_idle_timeout().spec_nanos() == 900_000_000,
    {
        WaylandInputMethodBackend::new(TimeSpan::from_millis(900))
    }
}

/// The idle and attempt deadlines of one request.
#[derive(Debug)]
pub struct ProgressDeadline {
    idle_timeout: TimeSpan,
    idle_deadline: Moment,
    attempt_deadline: Moment,
    observed_progress: u64,
}

impl ProgressDeadline {
    pub closed spec fn spec_idle_timeout(self) -> TimeSpan {
        self.idle_timeout
    }

    pub closed spec fn spec_idle_deadline(self) -> Moment {
        self.idle_deadline
    }

    pub closed spec fn spec_attempt_deadline(self) -> Moment {
        self.attempt_deadline
    }

    pub closed spec fn spec_observed_progress(self) -> u64 {
        self.observed_progress
    }

    /// Deadlines counted from the current clock reading.
    pub fn new(idle_timeout: TimeSpan, attempt_timeout: TimeSpan, observed_progress: u64) -> (r:
        ProgressDeadline)
        ensures
            r.spec_idle_timeout() == idle_timeout,
            r.spec_observed_progress() == observed_progress,
            r.spec_attempt_deadline().spec_nanos() - attempt_timeout.spec_nanos()
                == r.spec_idle_deadline().spec_nanos() - idle_timeout.spec_nanos(),
    {
        let now = now();
        ProgressDeadline {
            idle_timeout,
            idle_deadline: now.advanced_by(idle_timeout),
            attempt_deadline: now.advanced_by(attempt_timeout),
            observed_progress,
        }
    }

    /// Deadlines counted from `now`.
    pub fn new_at(
        idle_timeout: TimeSpan,
        attempt_timeout: TimeSpan,
        observed_progress: u64,
        now: Moment,
    ) -> (r: ProgressDeadline)
        requires
            now.can_add(idle_timeout),
            now.can_add(attempt_timeout),
        ensures
            r.spec_idle_timeout() == idle_timeout,
            r.spec_observed_progress() == observed_progress,
            r.spec_idle_deadline().spec_nanos() == now.spec_nanos() + idle_timeout.spec_nanos(),
            r.spec_attempt_deadline().spec_nanos() == now.spec_nanos()
                + attempt_timeout.spec_nanos(),
    {
        ProgressDeadline {
            idle_timeout,
            idle_deadline: now.add(idle_timeout),
            attempt_deadline: now.add(attempt_timeout),
            observed_progress,
        }
    }

    /// The earlier of the two deadlines.
    pub open spec fn spec_current(self) -> Moment {
        if self.spec_idle_deadline().spec_nanos() <= self.spec_attempt_deadline().spec_nanos() {
            self.spec_idle_deadline()
        } else {
            self.spec_attempt_deadline()
        }
    }

    /// The earlier of the two deadlines.
    pub fn current(&self) -> (r: Moment)
        ensures
            r == self.spec_current(),
            r.spec_nanos() <= self.spec_attempt_deadline().spec_nanos(),
    {
        if self.idle_deadline.is_at_or_before(&self.attempt_deadline) {
            self.idle_deadline
        } else {
            self.attempt_deadline
        }
    }

    /// Whether `after` is `before` once `progress` was seen at the clock reading `now`:
    /// new progress restarts the idle deadline from `now`; the same progress changes
    /// nothing; the attempt deadline never moves.
    pub open spec fn is_reset_after_progress(
        before: ProgressDeadline,
        after: ProgressDeadline,
        progress: u64,
        now: Moment,
    ) -> bool {
        &&& after.spec_attempt_deadline() == before.spec_attempt_deadline()
        &&& after.spec_idle_timeout() == before.spec_idle_timeout()
        &&& after.spec_observed_progress() == progress
        &&& progress == before.spec_observed_progress() ==> after.spec_idle_deadline()
            == before.spec_idle_deadline()
        &&& progress != before.spec_observed_progress() ==> after.spec_idle_deadline().spec_nanos()
            == now.spec_nanos() + before.spec_idle_timeout().spec_nanos()
    }

    /// After new progress seen at `now`, the idle deadline restarts from `now`; the
    /// attempt deadline stays where it was.
    pub fn reset_after_progress_at(&mut self, progress: u64, now: Moment)
        requires
            now.spec_nanos() < CLOCK_MAX_NANOS,
        ensures
            final(self).spec_attempt_deadline() == old(self).spec_attempt_deadline(),
            final(self).spec_idle_timeout() == old(self).spec_idle_timeout(),
            final(self).spec_observed_progress() == progress,
            progress == old(self).spec_observed_progress() ==> final(self).spec_idle_deadline()
                == old(self).spec_idle_deadline(),
            progress != old(self).spec_observed_progress() ==> final(self).spec_idle_deadline().spec_nanos()
                == now.spec_nanos() + old(self).spec_idle_timeout().spec_nanos(),
            Self::is_reset_after_progress(*old(self), *final(self), progress, now),
    {
        if progress != self.observed_progress {
            self.observed_progress = progress;
            self.idle_deadline = now.advanced_by(self.idle_timeout);
        }
    }

    /// After new progress, the idle deadline restarts from the current clock reading;
    /// the attempt deadline stays where it was. The result is the reset at one reading
    /// of the clock.
    pub fn reset_after_progress(&mut self, progress: u64)
        ensures
            final(self).spec_attempt_deadline() == old(self).spec_attempt_deadline(),
            final(self).spec_idle_timeout() == old(self).spec_idle_timeout(),
            final(self).spec_observed_progress() == progress,
            progress == old(self).spec_observed_progress() ==> final(self).spec_idle_deadline()
                == old(self).spec_idle_deadline(),
            progress != old(self).spec_observed_progress() ==> exists|t: Moment|
                t.spec_nanos() < CLOCK_MAX_NANOS && #[trigger] Self::is_reset_after_progress(
                    *old(self),
                    *final(self),
                    progress,
                    t,
                ),
    {
        if progress != self.observed_progress {
            let now = now();
            self.reset_after_progress_at(progress, now);
        }
    }

    /// What `classify_timeout_at` gives for `failure` at the clock reading `now`.
    pub open spec fn spec_classify_timeout(self, failure: InsertFailure, now: Moment) -> InsertFailure {
        if failure == InsertFailure::ProtocolIdleTimedOut && now.spec_nanos()
            >= self.spec_attempt_deadline().spec_nanos() {
            InsertFailure::ProtocolAttemptTimedOut
        } else {
            failure
        }
    }

    /// An idle timeout at or after the attempt deadline (by `now`) is reported as an
    /// attempt timeout; every other failure as it came.
    pub fn classify_timeout_at(&self, failure: InsertFailure, now: Moment) -> (r: InsertFailure)
        ensures
            r == self.spec_classify_timeout(failure, now),
    {
        match failure {
            InsertFailure::ProtocolIdleTimedOut => {
                if self.attempt_deadline.is_at_or_before(&now) {
                    InsertFailure::ProtocolAttemptTimedOut
                } else {
                    InsertFailure::ProtocolIdleTimedOut
                }
            },
            other => other,
        }
    }

    /// `classify_timeout_at` by the current clock reading: an idle timeout may become an
    /// attempt timeout, every other failure comes back as it came.
    pub fn classify_timeout(&self, failure: InsertFailure) -> (r: InsertFailure)
        ensures
            exists|now: Moment|
                now.spec_nanos() < CLOCK_MAX_NANOS && r == #[trigger] self.spec_classify_timeout(
                    failure,
                    now,
                ),
            failure != InsertFailure::ProtocolIdleTimedOut ==> r == failure,
            failure == InsertFailure::ProtocolIdleTimedOut ==> (r
                == InsertFailure::ProtocolIdleTimedOut || r
                == InsertFailure::ProtocolAttemptTimedOut),
    {
        let now = now();
        let r = self.classify_timeout_at(failure, now);
        assert(r == self.spec_classify_timeout(failure, now));
        r
    }
}

/// Where the session stands.
#[derive(Debug, PartialEq, Eq)]
pub enum InputMethodSession {
    WaitingInactive { serial: u32 },
    ReadyToCommit { serial: u32 },
    SentToInputMethod,
    Unavailable,
    Failed(String),
}

/// The session with the failure message as characters.
pub enum SessionView {
    WaitingInactive { serial: u32 },
    ReadyToCommit { serial: u32 },
    SentToInputMethod,
    Unavailable,
    Failed(Seq<char>),
}

impl View for InputMethodSession {
    type V = SessionView;

    open spec fn view(&self) -> SessionView {
        match self {
            InputMethodSession::WaitingInactive { serial } => SessionView::WaitingInactive {
                serial: *serial,
            },
            InputMethodSession::ReadyToCommit { serial } => SessionView::ReadyToCommit {
                serial: *serial,
            },
            InputMethodSession::SentToInputMethod => SessionView::SentToInputMethod,
            InputMethodSession::Unavailable => SessionView::Unavailable,
            InputMethodSession::Failed(m) => SessionView::Failed(m@),
        }
    }
}

/// What a `done` event asks for.
#[derive(Clone, Copy, Debug, PartialEq, Eq, Structural)]
pub enum DoneAction {
    CommitChunks { serial: u32 },
    Ignore,
}

impl SessionView {
    pub open spec fn is_finished(self) -> bool {
        !(self is WaitingInactive || self is ReadyToCommit)
    }

    /// A `done` event can be counted: the serial has room to grow.
    pub open spec fn can_count_done(self) -> bool {
        match self {
            SessionView::WaitingInactive { serial } => serial < u32::MAX,
            SessionView::ReadyToCommit { serial } => serial < u32::MAX,
            _ => true,
        }
    }

    pub open spec fn on_activate(self) -> SessionView {
        match self {
            SessionView::WaitingInactive { serial } => SessionView::ReadyToCommit { serial },
            _ => self,
        }
    }

    pub open spec fn on_deactivate(self) -> SessionView {
        match self {
            SessionView::ReadyToCommit { serial } => SessionView::WaitingInactive { serial },
            _ => self,
        }
    }

    /// The session after a `done` event, and what the event asks for.
    pub open spec fn on_done(self) -> (SessionView, DoneAction) {
        match self {
            SessionView::WaitingInactive { serial } => (
                SessionView::WaitingInactive { serial: (serial + 1) as u32 },
                DoneAction::Ignore,
            ),
            SessionView::ReadyToCommit { serial } => (
                SessionView::ReadyToCommit { serial: (serial + 1) as u32 },
                DoneAction::CommitChunks { serial: (serial + 1) as u32 },
            ),
            _ => (self, DoneAction::Ignore),
        }
    }

    pub open spec fn on_commit_sent(self) -> SessionView {
        match self {
            SessionView::ReadyToCommit { .. } => SessionView::SentToInputMethod,
            _ => self,
        }
    }

    pub open spec fn on_unavailable(self) -> SessionView {
        if self.is_finished() {
            self
        } else {
            SessionView::Unavailable
        }
    }

    pub open spec fn on_protocol_failed(self, message: Seq<char>) -> SessionView {
        if self.is_finished() {
            self
        } else {
            SessionView::Failed(message)
        }
    }
}

/// A fresh session: inactive, serial zero.
pub fn initial_session() -> (r: InputMethodSession)
    ensures
        r@ == (SessionView::WaitingInactive { serial: 0 }),
{
    InputMethodSession::WaitingInactive { serial: 0 }
}

impl Default for InputMethodSession {
    fn default() -> (r: InputMethodSession)
        ensures
            r@ == (SessionView::WaitingInactive { serial: 0 }),
    {
        initial_session()
    }
}

impl InputMethodSession {
    pub fn activate(&mut self)
        ensures
            final(self)@ == old(self)@.on_activate(),
    {
        if let InputMethodSession::WaitingInactive { serial } = self {
            let s = *serial;
            *self = InputMethodSession::ReadyToCommit { serial: s };
        }
    }

    pub fn deactivate(&mut self)
        ensures
            final(self)@ == old(self)@.on_deactivate(),
    {
        if let InputMethodSession::ReadyToCommit { serial } = self {
            let s = *serial;
            *self = InputMethodSession::WaitingInactive { serial: s };
        }
    }

    /// Counts a `done` event; an active session asks to commit under the new serial.
    pub fn done(&mut self) -> (r: DoneAction)
        requires
            old(self)@.can_count_done(),
        ensures
            (final(self)@, r) == old(self)@.on_done(),
    {
        match self {
            InputMethodSession::WaitingInactive { serial } => {
                *serial = *serial + 1;
                DoneAction::Ignore
            },
            InputMethodSession::ReadyToCommit { serial } => {
                *serial = *serial + 1;
                DoneAction::CommitChunks { serial: *serial }
            },
            _ => DoneAction::Ignore,
        }
    }

    /// The whole sequence of commits was flushed.
    pub fn commit_sent(&mut self)
        ensures
            final(self)@ == old(self)@.on_commit_sent(),
    {
        if let InputMethodSession::ReadyToCommit { .. } = self {
            *self = InputMethodSession::SentToInputMethod;
        }
    }

    pub fn unavailable(&mut self)
        ensures
            final(self)@ == old(self)@.on_unavailable(),
    {
        match self {
            InputMethodSession::WaitingInactive { .. } | InputMethodSession::ReadyToCommit { .. } => {
                *self = InputMethodSession::Unavailable;
            },
            _ => {},
        }
    }

    pub fn protocol_failed(&mut self, message: String)
        ensures
            final(self)@ == old(self)@.on_protocol_failed(message@),
    {
        match self {
            InputMethodSession::WaitingInactive { .. } | InputMethodSession::ReadyToCommit { .. } => {
                *self = InputMethodSession::Failed(message);
            },
            _ => {},
        }
    }

    pub fn is_finished(&self) -> (r: bool)
        ensures
            r == self@.is_finished(),
    {
        match self {
            InputMethodSession::WaitingInactive { .. } | InputMethodSession::ReadyToCommit { .. } =>
                false,
            _ => true,
        }
    }
}

/// The events that move the session.
#[derive(Debug, PartialEq, Eq)]
pub enum InputMethodEvent {
    Activate,
    Deactivate,
    Done,
    Unavailable,
    ProtocolFailed(String),
}

/// One `commit_string` + `commit` pair.
#[derive(Debug, PartialEq, Eq)]
pub struct CommitRequest {
    pub serial: u32,
    pub chunk: String,
}

impl CommitRequest {
    /// The UTF-8 bytes that the request sends.
    pub fn sent_bytes(&self) -> (r: usize)
        ensures
            r == utf8_len(self.chunk@),
    {
        str_byte_len(self.chunk.as_str())
    }
}

/// The chunks not yet handed out, with the bytes that may have been sent and those
/// whose flush completed.
#[derive(Debug)]
pub struct ChunkQueue {
    chunks: VecDeque<String>,
    maybe_sent_bytes: usize,
    sent_bytes: usize,
}

impl ChunkQueue {
    pub closed spec fn pending(self) -> Seq<Seq<char>> {
        string_views(self.chunks@)
    }

    pub closed spec fn maybe_sent(self) -> nat {
        self.maybe_sent_bytes as nat
    }

    pub closed spec fn sent(self) -> nat {
        self.sent_bytes as nat
    }

    pub fn new(chunks: Vec<String>) -> (r: ChunkQueue)
        ensures
            r.pending() == string_views(chunks@),
            r.maybe_sent() == 0,
            r.sent() == 0,
    {
        let mut queue: VecDeque<String> = VecDeque::new();
        let mut i: usize = 0;
        while i < chunks.len()
            invariant
                i <= chunks@.len(),
                queue@.len() == i,
                forall|j: int| 0 <= j < i ==> #[trigger] queue@[j] == chunks@[j],
            decreases chunks@.len() - i,
        {
            queue.push_back(chunks[i].clone());
            i = i + 1;
        }
        let r = ChunkQueue { chunks: queue, maybe_sent_bytes: 0, sent_bytes: 0 };
        proof {
            assert(r.pending() =~= string_views(chunks@));
        }
        r
    }

    /// Hands out the next chunk.
    pub fn take_next(&mut self) -> (r: Option<String>)
        ensures
            r is None <==> old(self).pending().len() == 0,
            r matches Some(c) ==> c@ == old(self).pending()[0],
            final(self).pending() == if old(self).pending().len() == 0 {
                old(self).pending()
            } else {
                old(self).pending().drop_first()
            },
            final(self).maybe_sent() == old(self).maybe_sent(),
            final(self).sent() == old(self).sent(),
    {
        let r = self.chunks.pop_front();
        proof {
            if r is Some {
                assert(string_views(self.chunks@) =~= string_views(old(self).chunks@).drop_first());
            }
        }
        r
    }

    pub fn mark_maybe_sent(&mut self, bytes: usize)
        requires
            old(self).maybe_sent() + bytes <= usize::MAX,
        ensures
            final(self).maybe_sent() == old(self).maybe_sent() + bytes,
            final(self).sent() == old(self).sent(),
            final(self).pending() == old(self).pending(),
    {
        self.maybe_sent_bytes = self.maybe_sent_bytes + bytes;
    }

    pub fn mark_sent(&mut self, bytes: usize)
        requires
            old(self).sent() + bytes <= usize::MAX,
        ensures
            final(self).sent() == old(self).sent() + bytes,
            final(self).maybe_sent() == old(self).maybe_sent(),
            final(self).pending() == old(self).pending(),
    {
        self.sent_bytes = self.sent_bytes + bytes;
    }

    pub fn maybe_sent_bytes(&self) -> (r: usize)
        ensures
            r == self.maybe_sent(),
    {
        self.maybe_sent_bytes
    }

    pub fn sent_bytes(&self) -> (r: usize)
        ensures
            r == self.sent(),
    {
        self.sent_bytes
    }
}

/// The whole state of one request.
#[verifier::ext_equal]
pub struct StateView {
    pub pending: Seq<Seq<char>>,
    pub maybe_sent: nat,
    pub sent: nat,
    pub session: SessionView,
    pub roundtrip_done: bool,
    pub progress: nat,
}

/// The state after `event` is counted and applied, and the commit requests it asks for
/// as (serial, chunk) pairs: on a `done` of an active session every pending chunk,
/// in order, under the new serial; with none pending the session fails instead.
pub open spec fn step(s: StateView, event: InputMethodEvent) -> (StateView, Seq<(u32, Seq<char>)>) {
    let counted = StateView { progress: s.progress + 1, ..s };
    match event {
        InputMethodEvent::Activate => (
            StateView { session: s.session.on_activate(), ..counted },
            Seq::empty(),
        ),
        InputMethodEvent::Deactivate => (
            StateView { session: s.session.on_deactivate(), ..counted },
            Seq::empty(),
        ),
        InputMethodEvent::Unavailable => (
            StateView { session: s.session.on_unavailable(), ..counted },
            Seq::empty(),
        ),
        InputMethodEvent::ProtocolFailed(message) => (
            StateView { session: s.session.on_protocol_failed(message@), ..counted },
            Seq::empty(),
        ),
        InputMethodEvent::Done => {
            let (session, action) = s.session.on_done();
            match action {
                DoneAction::Ignore => (StateView { session, ..counted }, Seq::empty()),
                DoneAction::CommitChunks { serial } => if s.pending.len() == 0 {
                    (
                        StateView {
                            session: session.on_protocol_failed(
                                "missing queued insertion chunk"@,
                            ),
                            ..counted
                        },
                        Seq::empty(),
                    )
                } else {
                    (
                        StateView { session, pending: Seq::empty(), ..counted },
                        s.pending.map_values(|c: Seq<char>| (serial, c)),
                    )
                },
            }
        },
    }
}

/// Progress refreshes the idle deadline but never extends the attempt deadline: when
/// the idle deadline was counted from the reading `start` and progress is then seen at
/// a reading no earlier than `start`, the deadline that applies does not move back, and
/// it stays at or before the attempt deadline, which is unchanged.
pub proof fn lemma_progress_never_extends_attempt(
    before: ProgressDeadline,
    after: ProgressDeadline,
    progress: u64,
    start: Moment,
    now: Moment,
)
    requires
        before.spec_idle_deadline().spec_nanos() == start.spec_nanos()
            + before.spec_idle_timeout().spec_nanos(),
        start.spec_nanos() <= now.spec_nanos(),
        ProgressDeadline::is_reset_after_progress(before, after, progress, now),
    ensures
        before.spec_current().spec_nanos() <= after.spec_current().spec_nanos(),
        after.spec_current().spec_nanos() <= after.spec_attempt_deadline().spec_nanos(),
        after.spec_attempt_deadline() == before.spec_attempt_deadline(),
{
}

/// Once a session has finished (sent, unavailable or failed), no event moves it, asks
/// for commits, or changes the chunks and byte counts; only the event count grows.
pub proof fn lemma_finished_session_ignores_events(s: StateView, event: InputMethodEvent)
    requires
        s.session.is_finished(),
    ensures
        step(s, event).0 == (StateView { progress: s.progress + 1, ..s }),
        step(s, event).1.len() == 0,
{
}

/// A `done` event on an active session asks to commit every pending chunk, in order,
/// each under the same new serial, and leaves nothing pending.
pub proof fn lemma_done_commits_all_chunks_under_one_serial(s: StateView, serial: u32)
    requires
        s.session == (SessionView::ReadyToCommit { serial }),
        serial < u32::MAX,
        s.pending.len() > 0,
    ensures
        step(s, InputMethodEvent::Done).1.len() == s.pending.len(),
        forall|i: int|
            0 <= i < s.pending.len() ==> #[trigger] step(s, InputMethodEvent::Done).1[i] == (
            (serial + 1) as u32,
            s.pending[i],
        ),
        step(s, InputMethodEvent::Done).0.pending.len() == 0,
{
}

/// The (serial, chunk) pairs of a list of requests.
pub open spec fn request_views(requests: Seq<CommitRequest>) -> Seq<(u32, Seq<char>)> {
    requests.map_values(|r: CommitRequest| (r.serial, r.chunk@))
}

/// The outcome of a failed request: not inserted while no byte may have been sent,
/// uncertain after.
pub open spec fn failure_outcome_for(maybe_sent: nat, failure: InsertFailure) -> InsertOutcome {
    if maybe_sent == 0 {
        InsertOutcome::NotInserted(failure)
    } else {
        InsertOutcome::DeliveryUncertain { maybe_sent_bytes: maybe_sent as usize, failure }
    }
}

/// `r` is the outcome of a protocol failure with `message`.
pub open spec fn reports_protocol_failure(r: InsertOutcome, maybe_sent: nat, message: Seq<char>) -> bool {
    match r {
        InsertOutcome::NotInserted(InsertFailure::ProtocolFailed { message: m }) => maybe_sent == 0
            && m@ == message,
        InsertOutcome::DeliveryUncertain {
            maybe_sent_bytes,
            failure: InsertFailure::ProtocolFailed { message: m },
        } => maybe_sent > 0 && maybe_sent_bytes == maybe_sent && m@ == message,
        _ => false,
    }
}

fn no_requests() -> (r: Vec<CommitRequest>)
    ensures
        request_views(r@) == Seq::<(u32, Seq<char>)>::empty(),
{
    let r: Vec<CommitRequest> = Vec::new();
    proof {
        assert(request_views(r@) =~= Seq::<(u32, Seq<char>)>::empty());
    }
    r
}

/// The state of one request.
pub struct State {
    chunks: ChunkQueue,
    session: InputMethodSession,
    roundtrip_done: bool,
    protocol_progress: u64,
}

impl View for State {
    type V = StateView;

    closed spec fn view(&self) -> StateView {
        StateView {
            pending: self.chunks.pending(),
            maybe_sent: self.chunks.maybe_sent(),
            sent: self.chunks.sent(),
            session: self.session@,
            roundtrip_done: self.roundtrip_done,
            progress: self.protocol_progress as nat,
        }
    }
}

impl State {
    pub fn new(text_chunks: Vec<String>) -> (r: State)
        ensures
            r@ == (StateView {
                pending: string_views(text_chunks@),
                maybe_sent: 0,
                sent: 0,
                session: SessionView::WaitingInactive { serial: 0 },
                roundtrip_done: false,
                progress: 0,
            }),
    {
        State {
            chunks: ChunkQueue::new(text_chunks),
            session: initial_session(),
            roundtrip_done: false,
            protocol_progress: 0,
        }
    }

    pub fn session(&self) -> (r: &InputMethodSession)
        ensures
            r@ == self@.session,
    {
        &self.session
    }

    pub fn protocol_progress(&self) -> (r: u64)
        ensures
            r == self@.progress,
    {
        self.protocol_progress
    }

    pub fn roundtrip_done(&self) -> (r: bool)
        ensures
            r == self@.roundtrip_done,
    {
        self.roundtrip_done
    }

    /// Marks the pending roundtrip as started (`false`) or answered (`true`).
    pub fn set_roundtrip_done(&mut self, done: bool)
        ensures
            final(self)@ == (StateView { roundtrip_done: done, ..old(self)@ }),
    {
        self.roundtrip_done = done;
    }

    pub fn take_next_chunk(&mut self) -> (r: Option<String>)
        ensures
            r is None <==> old(self)@.pending.len() == 0,
            r matches Some(c) ==> c@ == old(self)@.pending[0],
            final(self)@ == (StateView {
                pending: if old(self)@.pending.len() == 0 {
                    old(self)@.pending
                } else {
                    old(self)@.pending.drop_first()
                },
                ..old(self)@
            }),
    {
        self.chunks.take_next()
    }

    /// Counts `bytes` as possibly sent: from now on a failure is uncertain.
    pub fn mark_chunk_maybe_sent(&mut self, bytes: usize)
        requires
            old(self)@.maybe_sent + bytes <= usize::MAX,
        ensures
            final(self)@ == (StateView { maybe_sent: old(self)@.maybe_sent + bytes as nat, ..old(self)@ }),
    {
        self.chunks.mark_maybe_sent(bytes);
    }

    pub fn mark_chunk_sent(&mut self, bytes: usize)
        requires
            old(self)@.sent + bytes <= usize::MAX,
        ensures
            final(self)@ == (StateView { sent: old(self)@.sent + bytes as nat, ..old(self)@ }),
    {
        self.chunks.mark_sent(bytes);
    }

    pub fn record_protocol_progress(&mut self)
        requires
            old(self)@.progress < u64::MAX,
        ensures
            final(self)@ == (StateView { progress: old(self)@.progress + 1, ..old(self)@ }),
    {
        self.protocol_progress = self.protocol_progress + 1;
    }

    /// Applies one event and returns the commit requests it asks for.
    pub fn handle_input_method_event(&mut self, event: InputMethodEvent) -> (r: Vec<CommitRequest>)
        requires
            old(self)@.progress < u64::MAX,
            event == InputMethodEvent::Done ==> old(self)@.session.can_count_done(),
        ensures
            final(self)@ == step(old(self)@, event).0,
            request_views(r@) == step(old(self)@, event).1,
    {
        let ghost before = self@;
        self.record_protocol_progress();
        match event {
            InputMethodEvent::Activate => {
                self.session.activate();
                no_requests()
            },
            InputMethodEvent::Deactivate => {
                self.session.deactivate();
                no_requests()
            },
            InputMethodEvent::Unavailable => {
                self.session.unavailable();
                no_requests()
            },
            InputMethodEvent::ProtocolFailed(message) => {
                self.session.protocol_failed(message);
                no_requests()
            },
            InputMethodEvent::Done => {
                let action = self.session.done();
                let serial = match action {
                    DoneAction::CommitChunks { serial } => serial,
                    DoneAction::Ignore => {
                        return no_requests();
                    },
                };
                let ghost pending = self@.pending;
                let mut requests: Vec<CommitRequest> = Vec::new();
                loop
                    invariant
                        request_views(requests@) + self@.pending.map_values(
                            |c: Seq<char>| (serial, c),
                        ) == pending.map_values(|c: Seq<char>| (serial, c)),
                        self@.session == before.session.on_done().0,
                        self@.maybe_sent == before.maybe_sent,
                        self@.sent == before.sent,
                        self@.roundtrip_done == before.roundtrip_done,
                        self@.progress == before.progress + 1,
                    ensures
                        request_views(requests@) == pending.map_values(|c: Seq<char>| (serial, c)),
                        self@.pending.len() == 0,
                        self@.session == before.session.on_done().0,
                        self@.maybe_sent == before.maybe_sent,
                        self@.sent == before.sent,
                        self@.roundtrip_done == before.roundtrip_done,
                        self@.progress == before.progress + 1,
                    decreases self@.pending.len(),
                {
                    let ghost old_requests = request_views(requests@);
                    let ghost old_pending = self@.pending;
                    match self.take_next_chunk() {
                        Some(chunk) => {
                            requests.push(CommitRequest { serial, chunk });
                            proof {
                                assert(request_views(requests@) =~= old_requests.push(
                                    (serial, old_pending[0]),
                                ));
                                assert(old_pending.map_values(|c: Seq<char>| (serial, c))
                                    =~= seq![(serial, old_pending[0])]
                                    + old_pending.drop_first().map_values(
                                    |c: Seq<char>| (serial, c),
                                ));
                            }
                        },
                        None => {
                            proof {
                                assert(self@.pending.map_values(|c: Seq<char>| (serial, c))
                                    =~= Seq::<(u32, Seq<char>)>::empty());
                            }
                            break ;
                        },
                    }
                }
                if requests.len() == 0 {
                    self.session.protocol_failed(String::from_str("missing queued insertion chunk"));
                    proof {
                        assert(pending.map_values(|c: Seq<char>| (serial, c)).len() == 0);
                        assert(request_views(requests@) =~= Seq::<(u32, Seq<char>)>::empty());
                    }
                } else {
                    proof {
                        assert(pending.len() > 0);
                        assert(self@.pending =~= Seq::<Seq<char>>::empty());
                    }
                }
                requests
            },
        }
    }

    /// One commit of `sent_bytes` was flushed.
    pub fn commit_flushed(&mut self, sent_bytes: usize)
        requires
            old(self)@.sent + sent_bytes <= usize::MAX,
        ensures
            final(self)@ == (StateView { sent: old(self)@.sent + sent_bytes as nat, ..old(self)@ }),
    {
        self.mark_chunk_sent(sent_bytes);
    }

    /// Every commit of the request was flushed.
    pub fn commit_sequence_flushed(&mut self)
        ensures
            final(self)@ == (StateView { session: old(self)@.session.on_commit_sent(), ..old(self)@ }),
    {
        self.session.commit_sent();
    }

    /// The outcome to report for `failure`.
    pub fn failure_outcome(&self, failure: InsertFailure) -> (r: InsertOutcome)
        ensures
            r == failure_outcome_for(self@.maybe_sent, failure),
    {
        if self.chunks.maybe_sent_bytes() == 0 {
            InsertOutcome::NotInserted(failure)
        } else {
            InsertOutcome::DeliveryUncertain {
                maybe_sent_bytes: self.chunks.maybe_sent_bytes(),
                failure,
            }
        }
    }

    /// The outcome once the session stopped moving: sent reports the flushed bytes; a
    /// failure, an unavailable input method or a session still waiting report a failure.
    pub fn finished_outcome(&self) -> (r: InsertOutcome)
        ensures
            match self@.session {
                SessionView::Failed(message) => reports_protocol_failure(
                    r,
                    self@.maybe_sent,
                    message,
                ),
                SessionView::SentToInputMethod => r == (InsertOutcome::SentToInputMethod {
                    sent_bytes: self@.sent as usize,
                }),
                SessionView::Unavailable => r == failure_outcome_for(
                    self@.maybe_sent,
                    InsertFailure::InputMethodRejected,
                ),
                _ => r == failure_outcome_for(self@.maybe_sent, InsertFailure::ProtocolIdleTimedOut),
            },
    {
        match &self.session {
            InputMethodSession::Failed(message) => self.failure_outcome(
                InsertFailure::ProtocolFailed { message: message.clone() },
            ),
            InputMethodSession::SentToInputMethod => InsertOutcome::SentToInputMethod {
                sent_bytes: self.chunks.sent_bytes(),
            },
            InputMethodSession::Unavailable => self.failure_outcome(
                InsertFailure::InputMethodRejected,
            ),
            _ => self.failure_outcome(InsertFailure::ProtocolIdleTimedOut),
        }
    }
}

/// The chunks to commit for `text`: one empty chunk for empty text, otherwise the
/// greedy split into pieces of at most `MAX_COMMIT_STRING_BYTES` bytes.
pub fn commit_string_chunks(text: &str) -> (r: Vec<String>)
    ensures
        text@.len() == 0 ==> string_views(r@) == seq![Seq::<char>::empty()],
        text@.len() > 0 ==> is_greedy_split(text@, string_views(r@), MAX_COMMIT_STRING_BYTES as nat),
{
    if text.is_empty() {
        let mut r: Vec<String> = Vec::new();
        r.push(String::new());
        proof {
            assert(string_views(r@) =~= seq![Seq::<char>::empty()]);
        }
        return r;
    }
    split_at_byte_limit(text, MAX_COMMIT_STRING_BYTES)
}

} // verus!
