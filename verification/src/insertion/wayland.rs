//! Text insertion through the Wayland input-method protocol: the deadlines of one
//! request and the failures that connecting reports.
pub mod commits;
pub mod discovery;
pub mod io;
pub mod protocol_state;
pub mod text_chunks;

use vstd::prelude::*;
use crate::insertion::outcome::InsertionBackendKind;
use crate::insertion::outcome::InsertionFailure;
use crate::insertion::outcome::InsertionIoOperation;
use crate::insertion::outcome::InsertionProtocolFailureKind;
use crate::time::now;
use crate::time::Moment;
use crate::time::TimeSpan;
use crate::time::SPAN_MAX_NANOS;
use crate::time::CLOCK_MAX_NANOS;
use crate::insertion::outcome::InsertionAuthorityLoss;
use crate::insertion::outcome::InsertionOutcome;
use self::io::reports_backend_protocol_failure;
use self::protocol_state::failure_outcome_for;
use self::protocol_state::reports_failure;
use self::protocol_state::InputMethodSession;
use self::protocol_state::SessionView;
use self::protocol_state::State;
use self::io::wayland_protocol_failed;

verus! {

/// Declares `wayland_client::ConnectError` to the verifier; its contents stay opaque.
#[verifier::external_type_specification]
#[verifier::external_body]
pub struct ExConnectError(wayland_client::ConnectError);

/// Why connecting to the compositor failed.
#[derive(Clone, Copy, Debug, PartialEq, Eq, Structural)]
pub enum ConnectFailureKind {
    /// The Wayland library could not be loaded.
    NoWaylandLib,
    /// No compositor was found.
    NoCompositor,
    /// `WAYLAND_SOCKET` held no valid descriptor.
    InvalidFd,
}

/// Tells apart the variants of `wayland_client::ConnectError`, one arm each. Nothing is
/// claimed of the result: the error's contents are opaque here.
#[verifier::external_body]
fn connect_error_kind(error: &wayland_client::ConnectError) -> (r: ConnectFailureKind) {
    match error {
        wayland_client::ConnectError::NoWaylandLib => ConnectFailureKind::NoWaylandLib,
        wayland_client::ConnectError::NoCompositor => ConnectFailureKind::NoCompositor,
        wayland_client::ConnectError::InvalidFd => ConnectFailureKind::InvalidFd,
    }
}

/// The failure reported for each way connecting can fail.
pub open spec fn spec_connect_failure(kind: ConnectFailureKind, r: InsertionFailure) -> bool {
    match kind {
        ConnectFailureKind::NoCompositor => r == InsertionFailure::BackendUnavailable {
            backend: InsertionBackendKind::WaylandInputMethod,
        },
        ConnectFailureKind::NoWaylandLib => reports_backend_protocol_failure(
            r,
            InsertionIoOperation::Connect,
            InsertionProtocolFailureKind::WaylandProtocol,
            "Wayland library could not be loaded"@,
        ),
        ConnectFailureKind::InvalidFd => reports_backend_protocol_failure(
            r,
            InsertionIoOperation::Connect,
            InsertionProtocolFailureKind::SessionState,
            "WAYLAND_SOCKET is invalid"@,
        ),
    }
}

/// The failure reported when connecting failed for `kind`: no compositor means the
/// backend is unavailable; the other two are protocol failures while connecting.
pub fn connect_failure(kind: ConnectFailureKind) -> (r: InsertionFailure)
    ensures
        spec_connect_failure(kind, r),
{
    match kind {
        ConnectFailureKind::NoCompositor => InsertionFailure::BackendUnavailable {
            backend: InsertionBackendKind::WaylandInputMethod,
        },
        ConnectFailureKind::NoWaylandLib => wayland_protocol_failed(
            InsertionIoOperation::Connect,
            InsertionProtocolFailureKind::WaylandProtocol,
            "Wayland library could not be loaded",
        ),
        ConnectFailureKind::InvalidFd => wayland_protocol_failed(
            InsertionIoOperation::Connect,
            InsertionProtocolFailureKind::SessionState,
            "WAYLAND_SOCKET is invalid",
        ),
    }
}

/// The failure reported for a `ConnectError` of wayland-client.
pub fn wayland_connect_failure(error: &wayland_client::ConnectError) -> (r: InsertionFailure)
    ensures
        exists|kind: ConnectFailureKind| spec_connect_failure(kind, r),
{
    let kind = connect_error_kind(error);
    connect_failure(kind)
}

/// Idle windows that every request's attempt timeout allows.
pub const PROTOCOL_ATTEMPT_BASE_IDLE_WINDOWS: u32 = 4;

/// Idle windows that each chunk adds to the attempt timeout.
pub const PROTOCOL_ATTEMPT_IDLE_WINDOWS_PER_CHUNK: u32 = 1;

/// The input-method backend with its idle timeout.
#[derive(Clone, Copy, Debug, PartialEq, Eq, Structural)]
pub struct WaylandInputMethodBackend {
    protocol_idle_timeout: TimeSpan,
}

/// The idle timeout of the default backend: 900 ms.
pub fn default_protocol_idle_timeout() -> (r: TimeSpan)
    ensures
        r.spec_nanos() == 900_000_000,
{
    TimeSpan::from_millis(900)
}

impl WaylandInputMethodBackend {
    /// How long the protocol may make no progress.
    pub closed spec fn spec_protocol_idle_timeout(self) -> TimeSpan {
        self.protocol_idle_timeout
    }

    pub fn new(protocol_idle_timeout: TimeSpan) -> (r: WaylandInputMethodBackend)
        ensures
            r.spec_protocol_idle_timeout() == protocol_idle_timeout,
    {
        WaylandInputMethodBackend { protocol_idle_timeout }
    }

    /// How long the protocol may make no progress.
    pub fn protocol_idle_timeout(&self) -> (r: TimeSpan)
        ensures
            r == self.spec_protocol_idle_timeout(),
    {
        self.protocol_idle_timeout
    }
}

impl Default for WaylandInputMethodBackend {
    fn default() -> (r: WaylandInputMethodBackend)
        ensures
            r.spec_protocol_idle_timeout().spec_nanos() == 900_000_000,
    {
        WaylandInputMethodBackend::new(default_protocol_idle_timeout())
    }
}

/// `a + b` on 32 bits, or `u32::MAX` where that would exceed it.
pub open spec fn saturating_add_u32(a: nat, b: nat) -> nat {
    if a + b <= u32::MAX {
        a + b
    } else {
        u32::MAX as nat
    }
}

/// The idle windows that the attempt timeout allows for `chunk_count` chunks: four,
/// plus one per chunk, counted on 32 bits without wrapping.
pub open spec fn attempt_windows(chunk_count: nat) -> nat {
    let chunks = if chunk_count <= u32::MAX {
        chunk_count
    } else {
        u32::MAX as nat
    };
    saturating_add_u32(PROTOCOL_ATTEMPT_BASE_IDLE_WINDOWS as nat, chunks)
}

/// How long a whole request may take: the idle timeout times the attempt windows,
/// or the largest span where that would exceed it.
pub fn protocol_attempt_timeout(idle_timeout: TimeSpan, chunk_count: usize) -> (r: TimeSpan)
    ensures
        r.spec_nanos() == if idle_timeout.spec_nanos() * attempt_windows(chunk_count as nat)
            <= SPAN_MAX_NANOS {
            idle_timeout.spec_nanos() * attempt_windows(chunk_count as nat)
        } else {
            SPAN_MAX_NANOS as nat
        },
{
    let chunks: u32 = if chunk_count <= u32::MAX as usize {
        chunk_count as u32
    } else {
        u32::MAX
    };
    let product: u64 = (PROTOCOL_ATTEMPT_IDLE_WINDOWS_PER_CHUNK as u64) * (chunks as u64);
    let chunk_windows: u32 = if product <= u32::MAX as u64 {
        product as u32
    } else {
        u32::MAX
    };
    let windows = PROTOCOL_ATTEMPT_BASE_IDLE_WINDOWS.saturating_add(chunk_windows);
    idle_timeout.saturating_mul(windows)
}

/// Which deadline comes first.
#[derive(Clone, Copy, Debug, PartialEq, Eq, Structural)]
pub enum ProgressTimeoutKind {
    Idle,
    Attempt,
}

/// The deadline that applies now, and which of the two it is.
#[derive(Clone, Copy, Debug, PartialEq, Eq, Structural)]
pub struct ProgressTimeout {
    pub instant: Moment,
    pub kind: ProgressTimeoutKind,
}

/// An idle timeout that ran into the attempt deadline is reported as an attempt
/// timeout; every other failure as it came.
pub open spec fn spec_classify_timeout(
    kind: ProgressTimeoutKind,
    failure: InsertionFailure,
) -> InsertionFailure {
    match failure {
        InsertionFailure::IdleTimedOut { operation } => if kind == ProgressTimeoutKind::Attempt {
            InsertionFailure::AttemptTimedOut { operation }
        } else {
            failure
        },
        _ => failure,
    }
}

impl ProgressTimeout {
    pub fn classify_timeout(self, failure: InsertionFailure) -> (r: InsertionFailure)
        ensures
            r == spec_classify_timeout(self.kind, failure),
    {
        match failure {
            InsertionFailure::IdleTimedOut { operation } => {
                match self.kind {
                    ProgressTimeoutKind::Attempt => InsertionFailure::AttemptTimedOut {
                        operation,
                    },
                    ProgressTimeoutKind::Idle => InsertionFailure::IdleTimedOut { operation },
                }
            },
            other => other,
        }
    }
}

/// The two deadlines of a request: the idle deadline moves forward with progress, the
/// attempt deadline never moves.
#[derive(Debug)]
pub struct ProgressDeadline {
    idle_timeout: TimeSpan,
    idle_deadline: Moment,
    attempt_deadline: Moment,
    observed_progress: u64,
}

impl ProgressDeadline {
    pub closed spec fn spec_idle_timeout(self) -> TimeSpan {
        self.idle_timeout
    }

    pub closed spec fn spec_idle_deadline(self) -> Moment {
        self.idle_deadline
    }

    pub closed spec fn spec_attempt_deadline(self) -> Moment {
        self.attempt_deadline
    }

    pub closed spec fn spec_observed_progress(self) -> u64 {
        self.observed_progress
    }

    /// The deadline that applies: the earlier of the two, the attempt deadline on a tie.
    pub open spec fn spec_current(self) -> ProgressTimeout {
        if self.spec_attempt_deadline().spec_nanos() <= self.spec_idle_deadline().spec_nanos() {
            ProgressTimeout {
                instant: self.spec_attempt_deadline(),
                kind: ProgressTimeoutKind::Attempt,
            }
        } else {
            ProgressTimeout { instant: self.spec_idle_deadline(), kind: ProgressTimeoutKind::Idle }
        }
    }

    /// Deadlines counted from the current clock reading.
    pub fn new(idle_timeout: TimeSpan, attempt_timeout: TimeSpan, observed_progress: u64) -> (r:
        ProgressDeadline)
        ensures
            r.spec_idle_timeout() == idle_timeout,
            r.spec_observed_progress() == observed_progress,
            r.spec_attempt_deadline().spec_nanos() - attempt_timeout.spec_nanos() == r.spec_idle_deadline().spec_nanos() - idle_timeout.spec_nanos(),
    {
        let now = now();
        ProgressDeadline {
            idle_timeout,
            idle_deadline: now.advanced_by(idle_timeout),
            attempt_deadline: now.advanced_by(attempt_timeout),
            observed_progress,
        }
    }

    /// Deadlines counted from `now`.
    pub fn new_at(
        idle_timeout: TimeSpan,
        attempt_timeout: TimeSpan,
        observed_progress: u64,
        now: Moment,
    ) -> (r: ProgressDeadline)
        requires
            now.can_add(idle_timeout),
            now.can_add(attempt_timeout),
        ensures
            r.spec_idle_timeout() == idle_timeout,
            r.spec_observed_progress() == observed_progress,
            r.spec_idle_deadline().spec_nanos() == now.spec_nanos() + idle_timeout.spec_nanos(),
            r.spec_attempt_deadline().spec_nanos() == now.spec_nanos()
                + attempt_timeout.spec_nanos(),
    {
        ProgressDeadline {
            idle_timeout,
            idle_deadline: now.add(idle_timeout),
            attempt_deadline: now.add(attempt_timeout),
            observed_progress,
        }
    }

    /// The deadline that applies now.
    pub fn current(&self) -> (r: ProgressTimeout)
        ensures
            r == self.spec_current(),
            r.instant.spec_nanos() <= self.spec_attempt_deadline().spec_nanos(),
    {
        if self.attempt_deadline.is_at_or_before(&self.idle_deadline) {
            ProgressTimeout { instant: self.attempt_deadline, kind: ProgressTimeoutKind::Attempt }
        } else {
            ProgressTimeout { instant: self.idle_deadline, kind: ProgressTimeoutKind::Idle }
        }
    }

    /// Whether `after` is `before` once `progress` was seen at the clock reading `now`:
    /// new progress restarts the idle deadline from `now`; the same progress changes
    /// nothing; the attempt deadline never moves.
    pub open spec fn is_reset_after_progress(
        before: ProgressDeadline,
        after: ProgressDeadline,
        progress: u64,
        now: Moment,
    ) -> bool {
        &&& after.spec_attempt_deadline() == before.spec_attempt_deadline()
        &&& after.spec_idle_timeout() == before.spec_idle_timeout()
        &&& after.spec_observed_progress() == progress
        &&& progress == before.spec_observed_progress() ==> after.spec_idle_deadline()
            == before.spec_idle_deadline()
        &&& progress != before.spec_observed_progress() ==> after.spec_idle_deadline().spec_nanos()
            == now.spec_nanos() + before.spec_idle_timeout().spec_nanos()
    }

    /// Whether `after` is `before` once a write made progress at the clock reading `now`:
    /// the idle deadline restarts from `now`; nothing else changes.
    pub open spec fn is_reset_after_write_progress(
        before: ProgressDeadline,
        after: ProgressDeadline,
        now: Moment,
    ) -> bool {
        &&& after.spec_attempt_deadline() == before.spec_attempt_deadline()
        &&& after.spec_idle_timeout() == before.spec_idle_timeout()
        &&& after.spec_observed_progress() == before.spec_observed_progress()
        &&& after.spec_idle_deadline().spec_nanos() == now.spec_nanos()
            + before.spec_idle_timeout().spec_nanos()
    }

    /// After new progress seen at `now`, the idle deadline restarts from `now`; the
    /// attempt deadline stays where it was.
    pub fn reset_after_progress_at(&mut self, progress: u64, now: Moment)
        requires
            now.spec_nanos() < CLOCK_MAX_NANOS,
        ensures
            final(self).spec_attempt_deadline() == old(self).spec_attempt_deadline(),
            final(self).spec_idle_timeout() == old(self).spec_idle_timeout(),
            final(self).spec_observed_progress() == progress,
            progress == old(self).spec_observed_progress() ==> final(self).spec_idle_deadline()
                == old(self).spec_idle_deadline(),
            progress != old(self).spec_observed_progress() ==> final(self).spec_idle_deadline().spec_nanos()
                == now.spec_nanos() + old(self).spec_idle_timeout().spec_nanos(),
            Self::is_reset_after_progress(*old(self), *final(self), progress, now),
    {
        if progress != self.observed_progress {
            self.observed_progress = progress;
            self.idle_deadline = now.advanced_by(self.idle_timeout);
        }
    }

    /// After new progress, the idle deadline restarts from the current clock reading;
    /// the attempt deadline stays where it was. The result is the reset at one reading
    /// of the clock.
    pub fn reset_after_progress(&mut self, progress: u64)
        ensures
            final(self).spec_attempt_deadline() == old(self).spec_attempt_deadline(),
            final(self).spec_idle_timeout() == old(self).spec_idle_timeout(),
            final(self).spec_observed_progress() == progress,
            progress == old(self).spec_observed_progress() ==> final(self).spec_idle_deadline()
                == old(self).spec_idle_deadline(),
            progress != old(self).spec_observed_progress() ==> exists|t: Moment|
                t.spec_nanos() < CLOCK_MAX_NANOS && #[trigger] Self::is_reset_after_progress(
                    *old(self),
                    *final(self),
                    progress,
                    t,
                ),
    {
        if progress != self.observed_progress {
            let now = now();
            self.reset_after_progress_at(progress, now);
        }
    }

    /// After a write made progress at `now`, the idle deadline restarts from `now`; the
    /// attempt deadline stays where it was.
    pub fn reset_after_write_progress_at(&mut self, now: Moment)
        requires
            now.spec_nanos() < CLOCK_MAX_NANOS,
        ensures
            final(self).spec_attempt_deadline() == old(self).spec_attempt_deadline(),
            final(self).spec_idle_timeout() == old(self).spec_idle_timeout(),
            final(self).spec_observed_progress() == old(self).spec_observed_progress(),
            final(self).spec_idle_deadline().spec_nanos() == now.spec_nanos()
                + old(self).spec_idle_timeout().spec_nanos(),
            Self::is_reset_after_write_progress(*old(self), *final(self), now),
    {
        self.idle_deadline = now.advanced_by(self.idle_timeout);
    }

    /// After a write made progress, the idle deadline restarts from the current clock
    /// reading; the attempt deadline stays where it was. The result is the reset at one
    /// reading of the clock.
    pub fn reset_after_write_progress(&mut self)
        ensures
            final(self).spec_attempt_deadline() == old(self).spec_attempt_deadline(),
            final(self).spec_idle_timeout() == old(self).spec_idle_timeout(),
            final(self).spec_observed_progress() == old(self).spec_observed_progress(),
            exists|t: Moment|
                t.spec_nanos() < CLOCK_MAX_NANOS && #[trigger] Self::is_reset_after_write_progress(
                    *old(self),
                    *final(self),
                    t,
                ),
    {
        let now = now();
        self.reset_after_write_progress_at(now);
    }
}

/// Progress refreshes the idle deadline but never extends the attempt deadline: when
/// the idle deadline was counted from the reading `start` and progress is then seen at
/// a reading no earlier than `start`, the deadline that applies does not move back, and
/// it stays at or before the attempt deadline, which is unchanged.
pub proof fn lemma_progress_never_extends_attempt(
    before: ProgressDeadline,
    after: ProgressDeadline,
    progress: u64,
    start: Moment,
    now: Moment,
)
    requires
        before.spec_idle_deadline().spec_nanos() == start.spec_nanos()
            + before.spec_idle_timeout().spec_nanos(),
        start.spec_nanos() <= now.spec_nanos(),
        ProgressDeadline::is_reset_after_progress(before, after, progress, now),
    ensures
        before.spec_current().instant.spec_nanos() <= after.spec_current().instant.spec_nanos(),
        after.spec_current().instant.spec_nanos() <= after.spec_attempt_deadline().spec_nanos(),
        after.spec_attempt_deadline() == before.spec_attempt_deadline(),
{
}

/// A write's progress refreshes the idle deadline but never extends the attempt
/// deadline: seen at a reading no earlier than the one the idle deadline was counted
/// from, the deadline that applies does not move back and stays at or before the
/// unchanged attempt deadline.
pub proof fn lemma_write_progress_never_extends_attempt(
    before: ProgressDeadline,
    after: ProgressDeadline,
    start: Moment,
    now: Moment,
)
    requires
        before.spec_idle_deadline().spec_nanos() == start.spec_nanos()
            + before.spec_idle_timeout().spec_nanos(),
        start.spec_nanos() <= now.spec_nanos(),
        ProgressDeadline::is_reset_after_write_progress(before, after, now),
    ensures
        before.spec_current().instant.spec_nanos() <= after.spec_current().instant.spec_nanos(),
        after.spec_current().instant.spec_nanos() <= after.spec_attempt_deadline().spec_nanos(),
        after.spec_attempt_deadline() == before.spec_attempt_deadline(),
{
}

/// What an insertion attempt does next.
#[derive(Clone, Copy, Debug, PartialEq, Eq, Structural)]
pub enum InsertionStep {
    /// The session stopped moving: report its outcome.
    Finish,
    /// Dispatch the events already read, then write and flush the queued commit.
    FlushQueuedCommit,
    /// Wait for the next event of the input method.
    AwaitEvent,
}

/// The next step of an attempt: report once the session has finished; flush a queued
/// commit before waiting for more events; otherwise wait.
pub fn next_insertion_step(state: &State) -> (r: InsertionStep)
    ensures
        r == if state@.session.is_finished() {
            InsertionStep::Finish
        } else if state@.session is CommitQueued {
            InsertionStep::FlushQueuedCommit
        } else {
            InsertionStep::AwaitEvent
        },
{
    if state.is_finished() {
        InsertionStep::Finish
    } else if state.has_queued_commit() {
        InsertionStep::FlushQueuedCommit
    } else {
        InsertionStep::AwaitEvent
    }
}

/// The outcome once the session stopped moving: sent reports the flushed bytes; a
/// failed session reports its failure (an idle timeout that ran into the attempt
/// deadline as an attempt timeout); an unavailable input method reports lost
/// authority; a session still waiting reports an idle timeout while reading events.
pub fn finished_outcome(state: &State, timeout: ProgressTimeout) -> (r: InsertionOutcome)
    ensures
        match state@.session {
            SessionView::Failed(f) => exists|e: InsertionFailure|
                reports_failure(e, f) && r == failure_outcome_for(
                    state@.maybe_sent,
                    spec_classify_timeout(timeout.kind, e),
                ),
            SessionView::SentToInputMethod => r == (InsertionOutcome::Submitted {
                sent_bytes: state@.sent as usize,
            }),
            SessionView::Unavailable => r == failure_outcome_for(
                state@.maybe_sent,
                InsertionFailure::InsertionAuthorityLost {
                    reason: InsertionAuthorityLoss::InputMethodUnavailable,
                },
            ),
            _ => r == failure_outcome_for(
                state@.maybe_sent,
                InsertionFailure::IdleTimedOut { operation: InsertionIoOperation::ReadEvents },
            ),
        },
{
    match state.session() {
        InputMethodSession::Failed(failure) => {
            let e = failure.duplicate().into_insert_failure();
            state.failure_outcome(timeout.classify_timeout(e))
        },
        InputMethodSession::SentToInputMethod => InsertionOutcome::Submitted {
            sent_bytes: state.sent_bytes(),
        },
        InputMethodSession::Unavailable => state.failure_outcome(
            InsertionFailure::InsertionAuthorityLost {
                reason: InsertionAuthorityLoss::InputMethodUnavailable,
            },
        ),
        _ => state.failure_outcome(
            InsertionFailure::IdleTimedOut { operation: InsertionIoOperation::ReadEvents },
        ),
    }
}

} // verus!
