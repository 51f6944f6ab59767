//! The input-method session of one insertion request: which events of the
//! compositor move it where, and which commit requests it allows.
use std::collections::VecDeque;
use vstd::prelude::*;
use vstd::string::StringExecFns;
use crate::insertion::outcome::InsertionAuthorityLoss;
use crate::insertion::outcome::InsertionBackendFailure;
use crate::insertion::outcome::InsertionBackendKind;
use crate::insertion::outcome::InsertionFailure;
use crate::insertion::outcome::InsertionIoOperation;
use crate::insertion::outcome::InsertionOutcome;
use crate::insertion::outcome::InsertionProtocolFailureKind;
use crate::insertion::outcome::IoErrorKind;
use crate::text_chunks::utf8_len;
use crate::text_chunks::lemma_utf8_len_at_least_chars;
use super::commits::BufferedCommit;
use super::commits::CommitRequest;
use super::text_chunks::chunk_views;
use super::text_chunks::ChunkQueue;
use super::text_chunks::CommitChunk;
use super::text_chunks::CommitChunks;

verus! {

/// The serial that the input method's `done` events count; it wraps at `u32::MAX`.
#[derive(Clone, Copy, Debug, PartialEq, Eq, Structural)]
pub struct InputMethodSerial(pub u32);

/// The serial after one more `done` event.
pub open spec fn next_serial(serial: u32) -> u32 {
    if serial == u32::MAX {
        0
    } else {
        (serial + 1) as u32
    }
}

impl InputMethodSerial {
    /// The serial after one more `done` event, wrapping to zero after `u32::MAX`.
    pub fn advance(self) -> (r: InputMethodSerial)
        ensures
            r.0 == next_serial(self.0),
    {
        InputMethodSerial(self.0.wrapping_add(1))
    }

    /// The serial that a commit request carries.
    pub fn request_serial(self) -> (r: u32)
        ensures
            r == self.0,
    {
        self.0
    }
}

/// Why a session failed.
#[derive(Clone, Debug, PartialEq, Eq)]
pub enum InputMethodFailure {
    Deactivated,
    Unavailable,
    SerialAdvancedAfterBuffer,
    Protocol { operation: InsertionIoOperation, message: String },
    FlushFailed(InsertionBackendFailure),
}

/// A session failure with its message as characters.
pub enum FailureView {
    Deactivated,
    Unavailable,
    SerialAdvancedAfterBuffer,
    Protocol { operation: InsertionIoOperation, message: Seq<char> },
    FlushFailed(InsertionBackendFailure),
}

impl View for InputMethodFailure {
    type V = FailureView;

    open spec fn view(&self) -> FailureView {
        match self {
            InputMethodFailure::Deactivated => FailureView::Deactivated,
            InputMethodFailure::Unavailable => FailureView::Unavailable,
            InputMethodFailure::SerialAdvancedAfterBuffer => FailureView::SerialAdvancedAfterBuffer,
            InputMethodFailure::Protocol { operation, message } => FailureView::Protocol {
                operation: *operation,
                message: message@,
            },
            InputMethodFailure::FlushFailed(f) => FailureView::FlushFailed(*f),
        }
    }
}

/// `r` is the insertion failure that a session failure `f` reports.
pub open spec fn reports_failure(r: InsertionFailure, f: FailureView) -> bool {
    match f {
        FailureView::Deactivated => r == InsertionFailure::InsertionAuthorityLost {
            reason: InsertionAuthorityLoss::InputMethodDeactivated,
        },
        FailureView::Unavailable => r == InsertionFailure::InsertionAuthorityLost {
            reason: InsertionAuthorityLoss::InputMethodUnavailable,
        },
        FailureView::SerialAdvancedAfterBuffer => reports_protocol_failure(
            r,
            InsertionIoOperation::ReadEvents,
            "input-method serial advanced before buffered commit flushed"@,
        ),
        FailureView::Protocol { operation, message } => reports_protocol_failure(
            r,
            operation,
            message,
        ),
        FailureView::FlushFailed(failure) => r == InsertionFailure::BackendFailed {
            backend: InsertionBackendKind::WaylandInputMethod,
            failure,
        },
    }
}

/// `r` is a session-state protocol failure of the input-method backend.
pub open spec fn reports_protocol_failure(
    r: InsertionFailure,
    operation: InsertionIoOperation,
    message: Seq<char>,
) -> bool {
    match r {
        InsertionFailure::BackendFailed { backend, failure } => {
            &&& backend == InsertionBackendKind::WaylandInputMethod
            &&& match failure {
                InsertionBackendFailure::Protocol { operation: op, kind, message: m } => {
                    &&& op == operation
                    &&& kind == InsertionProtocolFailureKind::SessionState
                    &&& m@ == message
                },
                _ => false,
            }
        },
        _ => false,
    }
}

/// A copy of a string with the same characters.
fn copy_string(s: &String) -> (r: String)
    ensures
        r == *s,
{
    s.clone()
}

fn copy_io_kind(kind: &IoErrorKind) -> (r: IoErrorKind)
    ensures
        r == *kind,
{
    match kind {
        IoErrorKind::NotFound => IoErrorKind::NotFound,
        IoErrorKind::PermissionDenied => IoErrorKind::PermissionDenied,
        IoErrorKind::ConnectionRefused => IoErrorKind::ConnectionRefused,
        IoErrorKind::ConnectionReset => IoErrorKind::ConnectionReset,
        IoErrorKind::ConnectionAborted => IoErrorKind::ConnectionAborted,
        IoErrorKind::NotConnected => IoErrorKind::NotConnected,
        IoErrorKind::AddrInUse => IoErrorKind::AddrInUse,
        IoErrorKind::AddrNotAvailable => IoErrorKind::AddrNotAvailable,
        IoErrorKind::BrokenPipe => IoErrorKind::BrokenPipe,
        IoErrorKind::AlreadyExists => IoErrorKind::AlreadyExists,
        IoErrorKind::WouldBlock => IoErrorKind::WouldBlock,
        IoErrorKind::InvalidInput => IoErrorKind::InvalidInput,
        IoErrorKind::InvalidData => IoErrorKind::InvalidData,
        IoErrorKind::TimedOut => IoErrorKind::TimedOut,
        IoErrorKind::WriteZero => IoErrorKind::WriteZero,
        IoErrorKind::Interrupted => IoErrorKind::Interrupted,
        IoErrorKind::Unsupported => IoErrorKind::Unsupported,
        IoErrorKind::UnexpectedEof => IoErrorKind::UnexpectedEof,
        IoErrorKind::OutOfMemory => IoErrorKind::OutOfMemory,
        IoErrorKind::Other => IoErrorKind::Other,
        IoErrorKind::Unlisted(name) => IoErrorKind::Unlisted(copy_string(name)),
    }
}

/// An equal copy of a backend failure.
pub fn copy_backend_failure(f: &InsertionBackendFailure) -> (r: InsertionBackendFailure)
    ensures
        r == *f,
{
    match f {
        InsertionBackendFailure::Io { operation, kind, message } => InsertionBackendFailure::Io {
            operation: *operation,
            kind: copy_io_kind(kind),
            message: copy_string(message),
        },
        InsertionBackendFailure::Protocol { operation, kind, message } =>
            InsertionBackendFailure::Protocol {
            operation: *operation,
            kind: *kind,
            message: copy_string(message),
        },
    }
}

impl InputMethodFailure {
    /// An equal copy of the failure.
    pub fn duplicate(&self) -> (r: InputMethodFailure)
        ensures
            r == *self,
    {
        match self {
            InputMethodFailure::Deactivated => InputMethodFailure::Deactivated,
            InputMethodFailure::Unavailable => InputMethodFailure::Unavailable,
            InputMethodFailure::SerialAdvancedAfterBuffer => InputMethodFailure::SerialAdvancedAfterBuffer,
            InputMethodFailure::Protocol { operation, message } => InputMethodFailure::Protocol {
                operation: *operation,
                message: copy_string(message),
            },
            InputMethodFailure::FlushFailed(f) => InputMethodFailure::FlushFailed(
                copy_backend_failure(f),
            ),
        }
    }

    /// The insertion failure that this session failure reports.
    pub fn into_insert_failure(self) -> (r: InsertionFailure)
        ensures
            reports_failure(r, self@),
    {
        match self {
            InputMethodFailure::Deactivated => InsertionFailure::InsertionAuthorityLost {
                reason: InsertionAuthorityLoss::InputMethodDeactivated,
            },
            InputMethodFailure::Unavailable => InsertionFailure::InsertionAuthorityLost {
                reason: InsertionAuthorityLoss::InputMethodUnavailable,
            },
            InputMethodFailure::SerialAdvancedAfterBuffer => InsertionFailure::BackendFailed {
                backend: InsertionBackendKind::WaylandInputMethod,
                failure: InsertionBackendFailure::Protocol {
                    operation: InsertionIoOperation::ReadEvents,
                    kind: InsertionProtocolFailureKind::SessionState,
                    message: String::from_str(
                        "input-method serial advanced before buffered commit flushed",
                    ),
                },
            },
            InputMethodFailure::Protocol { operation, message } => InsertionFailure::BackendFailed {
                backend: InsertionBackendKind::WaylandInputMethod,
                failure: InsertionBackendFailure::Protocol {
                    operation,
                    kind: InsertionProtocolFailureKind::SessionState,
                    message,
                },
            },
            InputMethodFailure::FlushFailed(failure) => InsertionFailure::BackendFailed {
                backend: InsertionBackendKind::WaylandInputMethod,
                failure,
            },
        }
    }

    /// A session-state failure with the given message.
    pub fn protocol(operation: InsertionIoOperation, message: &str) -> (r: InputMethodFailure)
        ensures
            r@ == (FailureView::Protocol { operation, message: message@ }),
    {
        InputMethodFailure::Protocol { operation, message: String::from_str(message) }
    }
}

/// Where the session stands.
#[derive(Debug, PartialEq, Eq)]
pub enum InputMethodSession {
    WaitingInactive { serial: InputMethodSerial },
    ReadyToCommit { serial: InputMethodSerial },
    CommitQueued {
        serial: InputMethodSerial,
        current: CommitChunk,
        remaining: VecDeque<CommitChunk>,
    },
    CommitInFlight {
        next_serial: InputMethodSerial,
        remaining: VecDeque<CommitChunk>,
        buffered_sent_bytes: usize,
    },
    SentToInputMethod,
    Unavailable,
    Failed(InputMethodFailure),
}

/// The session with its chunks as characters.
pub enum SessionView {
    WaitingInactive { serial: u32 },
    ReadyToCommit { serial: u32 },
    CommitQueued { serial: u32, current: Seq<char>, remaining: Seq<Seq<char>> },
    CommitInFlight { next_serial: u32, remaining: Seq<Seq<char>>, buffered_sent_bytes: nat },
    SentToInputMethod,
    Unavailable,
    Failed(FailureView),
}

impl View for InputMethodSession {
    type V = SessionView;

    open spec fn view(&self) -> SessionView {
        match self {
            InputMethodSession::WaitingInactive { serial } => SessionView::WaitingInactive {
                serial: serial.0,
            },
            InputMethodSession::ReadyToCommit { serial } => SessionView::ReadyToCommit {
                serial: serial.0,
            },
            InputMethodSession::CommitQueued { serial, current, remaining } =>
                SessionView::CommitQueued {
                serial: serial.0,
                current: current.chunk@,
                remaining: chunk_views(remaining@),
            },
            InputMethodSession::CommitInFlight { next_serial, remaining, buffered_sent_bytes } =>
                SessionView::CommitInFlight {
                next_serial: next_serial.0,
                remaining: chunk_views(remaining@),
                buffered_sent_bytes: *buffered_sent_bytes as nat,
            },
            InputMethodSession::SentToInputMethod => SessionView::SentToInputMethod,
            InputMethodSession::Unavailable => SessionView::Unavailable,
            InputMethodSession::Failed(f) => SessionView::Failed(f@),
        }
    }
}

impl SessionView {
    /// The session ended: sent, unavailable or failed.
    pub open spec fn is_finished(self) -> bool {
        !(self is WaitingInactive || self is ReadyToCommit || self is CommitQueued
            || self is CommitInFlight)
    }

    /// The session after an `activate` event.
    pub open spec fn on_activate(self) -> SessionView {
        match self {
            SessionView::WaitingInactive { serial } => SessionView::ReadyToCommit { serial },
            _ => self,
        }
    }

    /// The session after a `deactivate` event.
    pub open spec fn on_deactivate(self) -> SessionView {
        match self {
            SessionView::ReadyToCommit { serial } => SessionView::WaitingInactive { serial },
            SessionView::CommitQueued { .. } | SessionView::CommitInFlight { .. } =>
                SessionView::Failed(FailureView::Deactivated),
            _ => self,
        }
    }

    /// The session after an `unavailable` event.
    pub open spec fn on_unavailable(self) -> SessionView {
        match self {
            SessionView::WaitingInactive { .. } | SessionView::ReadyToCommit { .. } =>
                SessionView::Unavailable,
            SessionView::CommitQueued { .. } | SessionView::CommitInFlight { .. } =>
                SessionView::Failed(FailureView::Unavailable),
            _ => self,
        }
    }
}

/// `req` is the request for the commit that `session` has queued.
pub open spec fn is_queued_request(session: SessionView, serial: u32, chunk: Seq<char>) -> bool {
    match session {
        SessionView::CommitQueued { serial: s, current, .. } => serial == s && chunk == current,
        _ => false,
    }
}

/// The failure when a commit request other than the queued commit is buffered: it did
/// not match the queued commit, or none was queued.
pub open spec fn buffer_refusal(session: SessionView) -> FailureView {
    FailureView::Protocol {
        operation: InsertionIoOperation::FlushRequests,
        message: if session is CommitQueued {
            "commit request did not match the queued input-method commit"@
        } else {
            "commit requested outside queued input-method session"@
        },
    }
}

/// The failure when a flush completes that does not fit the session: no commit was in
/// flight, or the flushed bytes differ from those buffered.
pub open spec fn flush_refusal(session: SessionView) -> FailureView {
    FailureView::Protocol {
        operation: InsertionIoOperation::FlushRequests,
        message: if session is CommitInFlight {
            "flushed commit bytes did not match buffered commit"@
        } else {
            "commit flush completed outside in-flight input-method session"@
        },
    }
}

/// The session once its queued commit, carrying `bytes`, entered the outgoing buffer.
pub open spec fn after_buffered(session: SessionView, bytes: nat) -> SessionView {
    match session {
        SessionView::CommitQueued { serial, remaining, .. } => SessionView::CommitInFlight {
            next_serial: serial,
            remaining,
            buffered_sent_bytes: bytes,
        },
        _ => session,
    }
}

/// The session once its in-flight commit was flushed: the next chunk is queued under
/// the same serial, or the session is sent when none is left.
pub open spec fn after_flushed(session: SessionView) -> SessionView {
    match session {
        SessionView::CommitInFlight { next_serial, remaining, .. } => if remaining.len() == 0 {
            SessionView::SentToInputMethod
        } else {
            SessionView::CommitQueued {
                serial: next_serial,
                current: remaining[0],
                remaining: remaining.drop_first(),
            }
        },
        _ => session,
    }
}

/// The bytes that the in-flight commit carries.
pub open spec fn in_flight_bytes(session: SessionView) -> nat {
    match session {
        SessionView::CommitInFlight { buffered_sent_bytes, .. } => buffered_sent_bytes,
        _ => 0,
    }
}

/// The events of the input method that move the session.
#[derive(Clone, Copy, Debug, PartialEq, Eq, Structural)]
pub enum InputMethodEvent {
    Activate,
    Deactivate,
    Done,
    Unavailable,
}

/// The whole state of one request: chunks not yet queued, byte counts, the session,
/// and how many events arrived.
pub struct StateView {
    pub pending: Seq<Seq<char>>,
    pub maybe_sent: nat,
    pub sent: nat,
    pub session: SessionView,
    pub progress: nat,
}

/// The state after a `done` event, before the event is counted.
pub open spec fn on_done(s: StateView) -> StateView {
    match s.session {
        SessionView::ReadyToCommit { serial } => if s.pending.len() == 0 {
            StateView {
                session: SessionView::Failed(
                    FailureView::Protocol {
                        operation: InsertionIoOperation::ReadEvents,
                        message: "missing queued insertion chunk"@,
                    },
                ),
                ..s
            }
        } else {
            StateView {
                pending: Seq::empty(),
                session: SessionView::CommitQueued {
                    serial: next_serial(serial),
                    current: s.pending[0],
                    remaining: s.pending.drop_first(),
                },
                ..s
            }
        },
        SessionView::WaitingInactive { serial } => StateView {
            session: SessionView::WaitingInactive { serial: next_serial(serial) },
            ..s
        },
        SessionView::CommitQueued { serial, current, remaining } => StateView {
            session: SessionView::CommitQueued { serial: next_serial(serial), current, remaining },
            ..s
        },
        SessionView::CommitInFlight { .. } => StateView {
            session: SessionView::Failed(FailureView::SerialAdvancedAfterBuffer),
            ..s
        },
        _ => s,
    }
}

/// The state after `event`: the event is counted and the session moves.
pub open spec fn step(s: StateView, event: InputMethodEvent) -> StateView {
    let counted = StateView { progress: s.progress + 1, ..s };
    match event {
        InputMethodEvent::Activate => StateView { session: s.session.on_activate(), ..counted },
        InputMethodEvent::Deactivate => StateView {
            session: s.session.on_deactivate(),
            ..counted
        },
        InputMethodEvent::Unavailable => StateView {
            session: s.session.on_unavailable(),
            ..counted
        },
        InputMethodEvent::Done => on_done(counted),
    }
}

/// Once a session has finished (sent, unavailable or failed), no event of the input
/// method moves it, nor the chunks or byte counts; only the event count grows.
pub proof fn lemma_finished_session_ignores_events(s: StateView, event: InputMethodEvent)
    requires
        s.session.is_finished(),
    ensures
        step(s, event) == (StateView { progress: s.progress + 1, ..s }),
{
}

/// Events of the input method never change the byte counts: only buffering and
/// flushing a commit do.
pub proof fn lemma_events_keep_byte_counts(s: StateView, event: InputMethodEvent)
    ensures
        step(s, event).maybe_sent == s.maybe_sent,
        step(s, event).sent == s.sent,
{
}

/// A `done` event on an active session queues every pending chunk, in order, under the
/// next serial: the first as the current commit, the rest behind it.
pub proof fn lemma_done_queues_all_chunks(s: StateView, serial: u32)
    requires
        s.session == (SessionView::ReadyToCommit { serial }),
        s.pending.len() > 0,
    ensures
        step(s, InputMethodEvent::Done).pending.len() == 0,
        step(s, InputMethodEvent::Done).session == (SessionView::CommitQueued {
            serial: next_serial(serial),
            current: s.pending[0],
            remaining: s.pending.drop_first(),
        }),
        seq![s.pending[0]] + s.pending.drop_first() == s.pending,
{
    assert(seq![s.pending[0]] + s.pending.drop_first() =~= s.pending);
}

/// One change of a request's state, as the operations on `State` make it.
pub enum StateChange {
    /// An event of the input method arrived (`handle_input_method_event`).
    Event(InputMethodEvent),
    /// The queued commit holding `chunk` entered the outgoing buffer
    /// (`mark_commit_buffered` answered `Ok`).
    Buffered(Seq<char>),
    /// The buffered commit was flushed (`commit_request_flushed` answered `Ok`).
    Flushed,
    /// The session failed (`mark_commit_buffered` or `commit_request_flushed` answered
    /// `Err`, or a flush failed for good).
    Failed(FailureView),
    /// Nothing moved (`next_commit_request`, an interrupted flush).
    Unchanged,
}

/// Whether `change` takes the state `before` to `after`.
pub open spec fn is_change(before: StateView, change: StateChange, after: StateView) -> bool {
    match change {
        StateChange::Event(e) => after == step(before, e),
        StateChange::Buffered(chunk) => after == (StateView {
            maybe_sent: before.maybe_sent + utf8_len(chunk),
            session: after_buffered(before.session, utf8_len(chunk)),
            ..before
        }),
        StateChange::Flushed => after == (StateView {
            sent: before.sent + in_flight_bytes(before.session),
            session: after_flushed(before.session),
            ..before
        }),
        StateChange::Failed(f) => after == (StateView { session: SessionView::Failed(f), ..before }),
        StateChange::Unchanged => after == before,
    }
}

/// Whether `change` puts a non-empty commit into the outgoing buffer.
pub open spec fn buffers_text(change: StateChange) -> bool {
    match change {
        StateChange::Buffered(chunk) => chunk.len() > 0,
        _ => false,
    }
}

/// The bytes of the commits that entered the outgoing buffer in `changes`.
pub open spec fn buffered_bytes(changes: Seq<StateChange>) -> nat
    decreases changes.len(),
{
    if changes.len() == 0 {
        0
    } else {
        (match changes[0] {
            StateChange::Buffered(chunk) => utf8_len(chunk),
            _ => 0,
        }) + buffered_bytes(changes.drop_first())
    }
}

/// Over any run of changes from a fresh request, the bytes that may have been sent are
/// exactly those of the commits that entered the outgoing buffer. So a failure is
/// reported as uncertain with that count once any commit was buffered, and as not
/// inserted before; once a non-empty commit was buffered, never as not inserted (a
/// fallback could then duplicate text).
pub proof fn lemma_maybe_sent_counts_buffered_commits(
    states: Seq<StateView>,
    changes: Seq<StateChange>,
    failure: InsertionFailure,
)
    requires
        states.len() == changes.len() + 1,
        states[0].maybe_sent == 0,
        forall|i: int|
            0 <= i < changes.len() ==> is_change(states[i], #[trigger] changes[i], states[i + 1]),
    ensures
        states.last().maybe_sent == buffered_bytes(changes),
        failure_outcome_for(states.last().maybe_sent, failure) == if buffered_bytes(changes) > 0 {
            InsertionOutcome::DeliveryUncertain {
                maybe_sent_bytes: buffered_bytes(changes) as usize,
                failure,
            }
        } else {
            InsertionOutcome::NotInserted(failure)
        },
        (exists|i: int| 0 <= i < changes.len() && buffers_text(#[trigger] changes[i]))
            ==> failure_outcome_for(states.last().maybe_sent, failure) is DeliveryUncertain,
{
    lemma_maybe_sent_grows_by_buffered(states, changes);
    if exists|i: int| 0 <= i < changes.len() && buffers_text(#[trigger] changes[i]) {
        let i = choose|i: int| 0 <= i < changes.len() && buffers_text(#[trigger] changes[i]);
        lemma_buffered_bytes_at_least(changes, i);
    }
}

proof fn lemma_maybe_sent_grows_by_buffered(states: Seq<StateView>, changes: Seq<StateChange>)
    requires
        states.len() == changes.len() + 1,
        forall|i: int|
            0 <= i < changes.len() ==> is_change(states[i], #[trigger] changes[i], states[i + 1]),
    ensures
        states.last().maybe_sent == states[0].maybe_sent + buffered_bytes(changes),
    decreases changes.len(),
{
    if changes.len() > 0 {
        let rest_states = states.drop_first();
        let rest = changes.drop_first();
        assert forall|i: int| 0 <= i < rest.len() implies is_change(
            rest_states[i],
            #[trigger] rest[i],
            rest_states[i + 1],
        ) by {
            assert(rest[i] == changes[i + 1]);
            assert(is_change(states[i + 1], changes[i + 1], states[i + 2]));
        }
        lemma_maybe_sent_grows_by_buffered(rest_states, rest);
        assert(is_change(states[0], changes[0], states[1]));
        match changes[0] {
            StateChange::Event(e) => {
                lemma_events_keep_byte_counts(states[0], e);
            },
            _ => {},
        }
    }
}

proof fn lemma_buffered_bytes_at_least(changes: Seq<StateChange>, i: int)
    requires
        0 <= i < changes.len(),
        buffers_text(changes[i]),
    ensures
        buffered_bytes(changes) > 0,
    decreases changes.len(),
{
    if i > 0 {
        assert(changes.drop_first()[i - 1] == changes[i]);
        lemma_buffered_bytes_at_least(changes.drop_first(), i - 1);
    } else {
        let c = changes[0]->Buffered_0;
        lemma_utf8_len_at_least_chars(c);
    }
}

/// The outcome of a failed request: uncertain once any byte may have been sent.
pub open spec fn failure_outcome_for(maybe_sent: nat, failure: InsertionFailure) -> InsertionOutcome {
    if maybe_sent > 0 {
        InsertionOutcome::DeliveryUncertain { maybe_sent_bytes: maybe_sent as usize, failure }
    } else {
        InsertionOutcome::NotInserted(failure)
    }
}

impl InputMethodSession {
    /// A commit is queued and waits to be sent.
    pub fn has_queued_commit(&self) -> (r: bool)
        ensures
            r == (self@ is CommitQueued),
    {
        match self {
            InputMethodSession::CommitQueued { .. } => true,
            _ => false,
        }
    }

    /// The request for the queued commit, if one is queued.
    pub fn next_commit_request(&self) -> (r: Option<CommitRequest>)
        ensures
            r is Some <==> self@ is CommitQueued,
            r matches Some(req) ==> is_queued_request(self@, req.serial, req.chunk@),
    {
        match self {
            InputMethodSession::CommitQueued { serial, current, .. } => Some(
                CommitRequest { serial: serial.request_serial(), chunk: current.chunk.clone() },
            ),
            _ => None,
        }
    }

    /// `Ok` exactly when `request` is the queued commit.
    pub fn validate_commit_request(&self, request: &CommitRequest) -> (r: Result<(), InputMethodFailure>)
        ensures
            r is Ok <==> is_queued_request(self@, request.serial, request.chunk@),
            r matches Err(f) ==> f@ == (FailureView::Protocol {
                operation: InsertionIoOperation::FlushRequests,
                message: if self@ is CommitQueued {
                    "commit request did not match the queued input-method commit"@
                } else {
                    "commit requested outside queued input-method session"@
                },
            }),
    {
        match self {
            InputMethodSession::CommitQueued { serial, current, .. } => {
                if request.serial != serial.request_serial() || request.chunk != current.chunk {
                    return Err(
                        InputMethodFailure::protocol(
                            InsertionIoOperation::FlushRequests,
                            "commit request did not match the queued input-method commit",
                        ),
                    );
                }
                Ok(())
            },
            _ => Err(
                InputMethodFailure::protocol(
                    InsertionIoOperation::FlushRequests,
                    "commit requested outside queued input-method session",
                ),
            ),
        }
    }

    /// Marks the queued commit as buffered; returns the bytes it carries.
    pub fn commit_request_buffered(&mut self, request: &CommitRequest) -> (r: Result<
        usize,
        InputMethodFailure,
    >)
        ensures
            r is Ok <==> is_queued_request(old(self)@, request.serial, request.chunk@),
            r matches Ok(bytes) ==> bytes == utf8_len(request.chunk@) && final(self)@
                == after_buffered(old(self)@, bytes as nat),
            r matches Err(f) ==> final(self)@ == old(self)@ && f@ == (FailureView::Protocol {
                operation: InsertionIoOperation::FlushRequests,
                message: if old(self)@ is CommitQueued {
                    "commit request did not match the queued input-method commit"@
                } else {
                    "commit requested outside queued input-method session"@
                },
            }),
    {
        match self.validate_commit_request(request) {
            Ok(()) => {},
            Err(f) => return Err(f),
        }
        let mut taken = InputMethodSession::SentToInputMethod;
        std::mem::swap(&mut taken, self);
        match taken {
            InputMethodSession::CommitQueued { serial, remaining, .. } => {
                let sent_bytes = request.sent_bytes();
                *self = InputMethodSession::CommitInFlight {
                    next_serial: serial,
                    remaining,
                    buffered_sent_bytes: sent_bytes,
                };
                Ok(sent_bytes)
            },
            other => {
                *self = other;
                Err(
                    InputMethodFailure::protocol(
                        InsertionIoOperation::FlushRequests,
                        "validated queued commit was no longer queued",
                    ),
                )
            },
        }
    }

    /// Marks the buffered commit as flushed: the next chunk is queued, or the session
    /// is sent when none is left. Returns the bytes the flushed commit carried.
    pub fn commit_request_flushed(&mut self) -> (r: Result<usize, InputMethodFailure>)
        ensures
            r is Ok <==> old(self)@ is CommitInFlight,
            r matches Ok(bytes) ==> bytes == in_flight_bytes(old(self)@) && final(self)@
                == after_flushed(old(self)@),
            r matches Err(f) ==> final(self)@ == old(self)@ && f@ == (FailureView::Protocol {
                operation: InsertionIoOperation::FlushRequests,
                message: "commit flush completed outside in-flight input-method session"@,
            }),
    {
        let mut taken = InputMethodSession::SentToInputMethod;
        std::mem::swap(&mut taken, self);
        match taken {
            InputMethodSession::CommitInFlight { next_serial, remaining, buffered_sent_bytes } => {
                let mut remaining = remaining;
                let ghost before = remaining@;
                match remaining.pop_front() {
                    Some(next) => {
                        proof {
                            assert(chunk_views(remaining@) =~= chunk_views(before).drop_first());
                        }
                        *self = InputMethodSession::CommitQueued {
                            serial: next_serial,
                            current: next,
                            remaining,
                        };
                    },
                    None => {
                        *self = InputMethodSession::SentToInputMethod;
                    },
                }
                Ok(buffered_sent_bytes)
            },
            other => {
                *self = other;
                Err(
                    InputMethodFailure::protocol(
                        InsertionIoOperation::FlushRequests,
                        "commit flush completed outside in-flight input-method session",
                    ),
                )
            },
        }
    }

    /// The session ended: sent, unavailable or failed.
    pub fn is_finished(&self) -> (r: bool)
        ensures
            r == self@.is_finished(),
    {
        match self {
            InputMethodSession::WaitingInactive { .. }
            | InputMethodSession::ReadyToCommit { .. }
            | InputMethodSession::CommitQueued { .. }
            | InputMethodSession::CommitInFlight { .. } => false,
            _ => true,
        }
    }
}

/// A fresh session: inactive, serial zero.
pub fn initial_session() -> (r: InputMethodSession)
    ensures
        r@ == (SessionView::WaitingInactive { serial: 0 }),
{
    InputMethodSession::WaitingInactive { serial: InputMethodSerial(0) }
}

/// The state of one insertion request.
pub struct State {
    chunks: ChunkQueue,
    session: InputMethodSession,
    protocol_progress: u64,
}

impl View for State {
    type V = StateView;

    closed spec fn view(&self) -> StateView {
        StateView {
            pending: self.chunks.pending(),
            maybe_sent: self.chunks.maybe_sent(),
            sent: self.chunks.sent(),
            session: self.session@,
            progress: self.protocol_progress as nat,
        }
    }
}

impl State {
    /// The byte counts are consistent.
    pub closed spec fn wf(self) -> bool {
        self.chunks.wf()
    }

    /// A request for the given chunks: nothing sent, session inactive.
    pub fn new(chunks: CommitChunks) -> (r: State)
        ensures
            r.wf(),
            r@ == (StateView {
                pending: chunks.view(),
                maybe_sent: 0,
                sent: 0,
                session: SessionView::WaitingInactive { serial: 0 },
                progress: 0,
            }),
    {
        State { chunks: ChunkQueue::new(chunks), session: initial_session(), protocol_progress: 0 }
    }

    pub fn session(&self) -> (r: &InputMethodSession)
        ensures
            r@ == self@.session,
    {
        &self.session
    }

    pub fn is_finished(&self) -> (r: bool)
        ensures
            r == self@.session.is_finished(),
    {
        self.session.is_finished()
    }

    pub fn has_queued_commit(&self) -> (r: bool)
        ensures
            r == (self@.session is CommitQueued),
    {
        self.session.has_queued_commit()
    }

    /// How many events arrived.
    pub fn protocol_progress(&self) -> (r: u64)
        ensures
            r == self@.progress,
    {
        self.protocol_progress
    }

    /// Bytes whose flush completed.
    pub fn sent_bytes(&self) -> (r: usize)
        ensures
            r == self@.sent,
    {
        self.chunks.sent_bytes()
    }

    /// Bytes that may have been sent.
    pub fn maybe_sent_bytes(&self) -> (r: usize)
        ensures
            r == self@.maybe_sent,
    {
        self.chunks.maybe_sent_bytes()
    }

    fn fail_with(&mut self, failure: InputMethodFailure) -> (r: InsertionFailure)
        requires
            old(self).wf(),
        ensures
            final(self).wf(),
            final(self)@ == (StateView { session: SessionView::Failed(failure@), ..old(self)@ }),
            reports_failure(r, failure@),
    {
        self.session = InputMethodSession::Failed(failure.duplicate());
        failure.into_insert_failure()
    }

    /// The queued commit request, if any; a queued commit always validates.
    pub fn next_commit_request(&mut self) -> (r: Result<Option<CommitRequest>, InsertionFailure>)
        requires
            old(self).wf(),
        ensures
            final(self).wf(),
            final(self)@ == old(self)@,
            is_change(old(self)@, StateChange::Unchanged, final(self)@),
            r matches Ok(None) <==> !(old(self)@.session is CommitQueued),
            r matches Ok(Some(req)) ==> is_queued_request(old(self)@.session, req.serial, req.chunk@),
            r is Ok,
    {
        let request = match self.session.next_commit_request() {
            Some(request) => request,
            None => return Ok(None),
        };
        match self.session.validate_commit_request(&request) {
            Ok(()) => Ok(Some(request)),
            Err(failure) => Err(self.fail_with(failure)),
        }
    }

    /// Records that `request` entered the outgoing buffer: its bytes may have been sent
    /// from now on. A request other than the queued commit fails the session.
    pub fn mark_commit_buffered(&mut self, request: &CommitRequest) -> (r: Result<
        BufferedCommit,
        InsertionFailure,
    >)
        requires
            old(self).wf(),
            old(self)@.maybe_sent + utf8_len(request.chunk@) <= usize::MAX,
        ensures
            final(self).wf(),
            r is Ok <==> is_queued_request(old(self)@.session, request.serial, request.chunk@),
            r matches Ok(b) ==> b.spec_sent_bytes() == utf8_len(request.chunk@) && final(self)@
                == (StateView {
                maybe_sent: old(self)@.maybe_sent + utf8_len(request.chunk@),
                session: after_buffered(old(self)@.session, utf8_len(request.chunk@)),
                ..old(self)@
            }),
            r matches Err(e) ==> final(self)@ == (StateView {
                session: SessionView::Failed(buffer_refusal(old(self)@.session)),
                ..old(self)@
            }) && reports_failure(e, buffer_refusal(old(self)@.session)),
            r is Ok ==> is_change(old(self)@, StateChange::Buffered(request.chunk@), final(self)@),
            r is Err ==> is_change(
                old(self)@,
                StateChange::Failed(buffer_refusal(old(self)@.session)),
                final(self)@,
            ),
    {
        match self.session.commit_request_buffered(request) {
            Ok(bytes) => {
                self.chunks.record_commit_buffered(bytes);
                Ok(BufferedCommit::new(bytes))
            },
            Err(failure) => {
                let ghost f = failure@;
                let e = self.fail_with(failure);
                proof {
                    assert(final(self)@ == (StateView {
                        session: SessionView::Failed(f),
                        ..old(self)@
                    }));
                    assert(is_change(old(self)@, StateChange::Failed(f), final(self)@));
                }
                Err(e)
            },
        }
    }

    /// Records that the buffered commit was flushed: its bytes count as sent and the
    /// session moves to the next chunk, or to sent.
    pub fn commit_request_flushed(&mut self, buffered: BufferedCommit) -> (r: Result<
        (),
        InsertionFailure,
    >)
        requires
            old(self).wf(),
            old(self)@.sent + in_flight_bytes(old(self)@.session) <= old(self)@.maybe_sent,
        ensures
            final(self).wf(),
            r is Ok <==> old(self)@.session is CommitInFlight && in_flight_bytes(
                old(self)@.session,
            ) == buffered.spec_sent_bytes(),
            r is Ok ==> final(self)@ == (StateView {
                sent: old(self)@.sent + in_flight_bytes(old(self)@.session),
                session: after_flushed(old(self)@.session),
                ..old(self)@
            }),
            r matches Err(e) ==> final(self)@ == (StateView {
                session: SessionView::Failed(flush_refusal(old(self)@.session)),
                ..old(self)@
            }) && reports_failure(e, flush_refusal(old(self)@.session)),
            r is Ok ==> is_change(old(self)@, StateChange::Flushed, final(self)@),
            r is Err ==> is_change(
                old(self)@,
                StateChange::Failed(flush_refusal(old(self)@.session)),
                final(self)@,
            ),
    {
        let buffered_sent_bytes = buffered.into_sent_bytes();
        let bytes = match self.session.commit_request_flushed() {
            Ok(bytes) => bytes,
            Err(failure) => {
                let ghost f = failure@;
                let e = self.fail_with(failure);
                proof {
                    assert(final(self)@ == (StateView {
                        session: SessionView::Failed(f),
                        ..old(self)@
                    }));
                    assert(is_change(old(self)@, StateChange::Failed(f), final(self)@));
                }
                return Err(e);
            },
        };
        if bytes != buffered_sent_bytes {
            let failure = InputMethodFailure::protocol(
                InsertionIoOperation::FlushRequests,
                "flushed commit bytes did not match buffered commit",
            );
            let ghost f = failure@;
            let e = self.fail_with(failure);
            proof {
                assert(final(self)@ == (StateView {
                    session: SessionView::Failed(f),
                    ..old(self)@
                }));
                assert(is_change(old(self)@, StateChange::Failed(f), final(self)@));
            }
            return Err(e);
        }
        self.chunks.record_commit_flushed(bytes);
        Ok(())
    }

    /// Applies the outcome of a failed flush: a failed write fails the session; an
    /// interruption is reported as it came.
    pub fn handle_commit_flush_failure(&mut self, failure: BufferedCommitFlushFailure) -> (r:
        InsertionFailure)
        requires
            old(self).wf(),
        ensures
            final(self).wf(),
            match failure {
                BufferedCommitFlushFailure::FlushFailed(f) => {
                    &&& final(self)@ == (StateView {
                        session: SessionView::Failed(FailureView::FlushFailed(f)),
                        ..old(self)@
                    })
                    &&& r == InsertionFailure::BackendFailed {
                        backend: InsertionBackendKind::WaylandInputMethod,
                        failure: f,
                    }
                },
                BufferedCommitFlushFailure::Interrupted(f) => final(self)@ == old(self)@ && r == f,
            },
            match failure {
                BufferedCommitFlushFailure::FlushFailed(f) => is_change(
                    old(self)@,
                    StateChange::Failed(FailureView::FlushFailed(f)),
                    final(self)@,
                ),
                BufferedCommitFlushFailure::Interrupted(_) => is_change(
                    old(self)@,
                    StateChange::Unchanged,
                    final(self)@,
                ),
            },
    {
        match failure {
            BufferedCommitFlushFailure::FlushFailed(failure) => {
                self.session = InputMethodSession::Failed(
                    InputMethodFailure::FlushFailed(copy_backend_failure(&failure)),
                );
                InsertionFailure::BackendFailed {
                    backend: InsertionBackendKind::WaylandInputMethod,
                    failure,
                }
            },
            BufferedCommitFlushFailure::Interrupted(failure) => failure,
        }
    }

    fn handle_done(&mut self)
        requires
            old(self).wf(),
        ensures
            final(self).wf(),
            final(self)@ == on_done(old(self)@),
    {
        match &self.session {
            InputMethodSession::ReadyToCommit { serial } => {
                let serial = serial.advance();
                match self.chunks.take_commit_batch() {
                    Some(batch) => {
                        self.session = InputMethodSession::CommitQueued {
                            serial,
                            current: batch.current,
                            remaining: batch.remaining,
                        };
                        proof {
                            assert(self.chunks.pending() =~= Seq::<Seq<char>>::empty());
                        }
                    },
                    None => {
                        self.session = InputMethodSession::Failed(
                            InputMethodFailure::protocol(
                                InsertionIoOperation::ReadEvents,
                                "missing queued insertion chunk",
                            ),
                        );
                    },
                }
                return ;
            },
            _ => {},
        }
        let mut taken = InputMethodSession::SentToInputMethod;
        std::mem::swap(&mut taken, &mut self.session);
        self.session = match taken {
            InputMethodSession::WaitingInactive { serial } => InputMethodSession::WaitingInactive {
                serial: serial.advance(),
            },
            InputMethodSession::CommitQueued { serial, current, remaining } =>
                InputMethodSession::CommitQueued { serial: serial.advance(), current, remaining },
            InputMethodSession::CommitInFlight { .. } => InputMethodSession::Failed(
                InputMethodFailure::SerialAdvancedAfterBuffer,
            ),
            other => other,
        };
    }

    /// Counts one event of the input method.
    fn record_protocol_progress(&mut self)
        requires
            old(self)@.progress < u64::MAX,
        ensures
            final(self).wf() == old(self).wf(),
            final(self)@ == (StateView { progress: old(self)@.progress + 1, ..old(self)@ }),
    {
        self.protocol_progress = self.protocol_progress + 1;
    }

    /// An `activate` event: a waiting session becomes ready to commit.
    fn handle_activate(&mut self)
        ensures
            final(self).wf() == old(self).wf(),
            final(self)@ == (StateView { session: old(self)@.session.on_activate(), ..old(self)@ }),
    {
        if let InputMethodSession::WaitingInactive { serial } = &self.session {
            self.session = InputMethodSession::ReadyToCommit { serial: *serial };
        }
    }

    /// A `deactivate` event: a ready session waits again; a queued or in-flight commit
    /// fails.
    fn handle_deactivate(&mut self)
        ensures
            final(self).wf() == old(self).wf(),
            final(self)@ == (StateView {
                session: old(self)@.session.on_deactivate(),
                ..old(self)@
            }),
    {
        match &self.session {
            InputMethodSession::ReadyToCommit { serial } => {
                self.session = InputMethodSession::WaitingInactive { serial: *serial };
            },
            InputMethodSession::CommitQueued { .. } | InputMethodSession::CommitInFlight { .. } => {
                self.session = InputMethodSession::Failed(InputMethodFailure::Deactivated);
            },
            _ => {},
        }
    }

    /// An `unavailable` event: a session without a commit ends unavailable; one with a
    /// queued or in-flight commit fails.
    fn handle_unavailable(&mut self)
        ensures
            final(self).wf() == old(self).wf(),
            final(self)@ == (StateView {
                session: old(self)@.session.on_unavailable(),
                ..old(self)@
            }),
    {
        match &self.session {
            InputMethodSession::WaitingInactive { .. }
            | InputMethodSession::ReadyToCommit { .. } => {
                self.session = InputMethodSession::Unavailable;
            },
            InputMethodSession::CommitQueued { .. } | InputMethodSession::CommitInFlight { .. } => {
                self.session = InputMethodSession::Failed(InputMethodFailure::Unavailable);
            },
            _ => {},
        }
    }

    /// Applies one event of the input method.
    pub fn handle_input_method_event(&mut self, event: InputMethodEvent)
        requires
            old(self).wf(),
            old(self)@.progress < u64::MAX,
        ensures
            final(self).wf(),
            final(self)@ == step(old(self)@, event),
            is_change(old(self)@, StateChange::Event(event), final(self)@),
    {
        self.record_protocol_progress();
        match event {
            InputMethodEvent::Activate => {
                self.handle_activate();
            },
            InputMethodEvent::Deactivate => {
                self.handle_deactivate();
            },
            InputMethodEvent::Done => {
                self.handle_done();
            },
            InputMethodEvent::Unavailable => {
                self.handle_unavailable();
            },
        }
    }

    /// The outcome to report for `failure`: uncertain once any byte may have been sent,
    /// not inserted before.
    pub fn failure_outcome(&self, failure: InsertionFailure) -> (r: InsertionOutcome)
        ensures
            r == failure_outcome_for(self@.maybe_sent, failure),
    {
        let maybe_sent = self.chunks.maybe_sent_bytes();
        if maybe_sent > 0 {
            InsertionOutcome::DeliveryUncertain { maybe_sent_bytes: maybe_sent, failure }
        } else {
            InsertionOutcome::NotInserted(failure)
        }
    }
}

/// Why flushing a buffered commit stopped.
#[derive(Debug)]
pub enum BufferedCommitFlushFailure {
    /// The write failed.
    FlushFailed(InsertionBackendFailure),
    /// Waiting for the socket ended with a failure of its own.
    Interrupted(InsertionFailure),
}

/// The failure to report when waiting for a flush ended while the commit was no longer
/// in flight; `None` while it still is.
pub fn interrupted_commit_failure(state: &State) -> (r: Option<InsertionFailure>)
    ensures
        r is None <==> state@.session is CommitInFlight,
        r matches Some(e) ==> match state@.session {
            SessionView::Failed(f) => reports_failure(e, f),
            _ => reports_protocol_failure(
                e,
                InsertionIoOperation::FlushRequests,
                "input-method commit was interrupted before flush completed"@,
            ),
        },
{
    match state.session() {
        InputMethodSession::CommitInFlight { .. } => None,
        InputMethodSession::Failed(failure) => Some(failure.duplicate().into_insert_failure()),
        _ => Some(
            InputMethodFailure::protocol(
                InsertionIoOperation::FlushRequests,
                "input-method commit was interrupted before flush completed",
            ).into_insert_failure(),
        ),
    }
}

} // verus!
