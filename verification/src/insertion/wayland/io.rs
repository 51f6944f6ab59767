//! The decisions of the I/O loops that drive the Wayland socket: what a read or a
//! flush result means, what to do when the socket is readable or writable, and which
//! failure to report. The loops themselves run where the socket is.
use vstd::prelude::*;
use vstd::string::StringExecFns;
use crate::insertion::outcome::InsertionBackendFailure;
use crate::insertion::outcome::InsertionBackendKind;
use crate::insertion::outcome::InsertionFailure;
use crate::insertion::outcome::InsertionIoOperation;
use crate::insertion::outcome::InsertionProtocolFailureKind;
use crate::insertion::outcome::IoErrorKind;
use crate::time::now;
use crate::time::Moment;
use crate::time::TimeSpan;
use crate::time::SPAN_MAX_NANOS;
use crate::time::CLOCK_MAX_NANOS;

verus! {

/// An error of the Wayland connection, as plain values: an I/O error with its kind and
/// message, or a protocol error with its message.
#[derive(Clone, Debug, PartialEq, Eq)]
pub enum WaylandFailure {
    Io { kind: IoErrorKind, message: String },
    Protocol { message: String },
}

/// An error of dispatching events: the connection failed, or a message did not match
/// its interface (described by `message`).
#[derive(Clone, Debug, PartialEq, Eq)]
pub enum DispatchFailure {
    Backend(WaylandFailure),
    BadMessage { message: String },
}

/// What the socket reported ready for.
#[derive(Clone, Copy, Debug, PartialEq, Eq, Structural)]
pub struct FdReady {
    pub readable: bool,
    pub writable: bool,
}

/// What to do while waiting for a buffered commit to flush.
#[derive(Clone, Copy, Debug, PartialEq, Eq, Structural)]
pub enum CommitFlushWaitAction {
    RetryFlush,
    ReadEvents,
    Continue,
}

/// Readable wins: events are read before the flush is retried.
pub fn commit_flush_wait_action(ready: FdReady) -> (r: CommitFlushWaitAction)
    ensures
        r == (if ready.readable {
            CommitFlushWaitAction::ReadEvents
        } else if ready.writable {
            CommitFlushWaitAction::RetryFlush
        } else {
            CommitFlushWaitAction::Continue
        }),
{
    if ready.readable {
        CommitFlushWaitAction::ReadEvents
    } else if ready.writable {
        CommitFlushWaitAction::RetryFlush
    } else {
        CommitFlushWaitAction::Continue
    }
}

/// What to do once events were dispatched while waiting for a flush.
#[derive(Clone, Copy, Debug, PartialEq, Eq, Structural)]
pub enum CommitFlushDispatchedAction {
    RetryFlush,
    ContinueWaiting,
}

/// After dispatching, the flush is retried when the socket was also writable.
pub fn commit_flush_dispatched_action(ready: FdReady) -> (r: CommitFlushDispatchedAction)
    ensures
        r == (if ready.writable {
            CommitFlushDispatchedAction::RetryFlush
        } else {
            CommitFlushDispatchedAction::ContinueWaiting
        }),
{
    if ready.writable {
        CommitFlushDispatchedAction::RetryFlush
    } else {
        CommitFlushDispatchedAction::ContinueWaiting
    }
}

/// How a read of the socket ended.
#[derive(Clone, Copy, Debug, PartialEq, Eq, Structural)]
pub enum WaylandReadAttempt {
    Completed,
    Interrupted,
    WouldBlock,
}

/// What a read observed about writability.
#[derive(Clone, Copy, Debug, PartialEq, Eq, Structural)]
pub struct FlushWaitContext {
    pub writable_observed: bool,
}

/// What to do after a read while waiting for a flush.
#[derive(Clone, Copy, Debug, PartialEq, Eq, Structural)]
pub enum FlushWaitReadAction {
    DispatchPending,
    RetryFlush,
    ContinueWaiting,
}

/// The backend failure that a Wayland error reports while `operation` ran.
pub open spec fn spec_backend_failure(
    operation: InsertionIoOperation,
    error: WaylandFailure,
    r: InsertionBackendFailure,
) -> bool {
    match error {
        WaylandFailure::Io { kind, message } => r == InsertionBackendFailure::Io {
            operation,
            kind,
            message,
        },
        WaylandFailure::Protocol { message } => r == InsertionBackendFailure::Protocol {
            operation,
            kind: InsertionProtocolFailureKind::WaylandProtocol,
            message,
        },
    }
}

/// The backend failure that a Wayland error reports while `operation` ran.
pub fn backend_failure_from_wayland_error(
    operation: InsertionIoOperation,
    error: WaylandFailure,
) -> (r: InsertionBackendFailure)
    ensures
        spec_backend_failure(operation, error, r),
{
    match error {
        WaylandFailure::Io { kind, message } => InsertionBackendFailure::Io {
            operation,
            kind,
            message,
        },
        WaylandFailure::Protocol { message } => InsertionBackendFailure::Protocol {
            operation,
            kind: InsertionProtocolFailureKind::WaylandProtocol,
            message,
        },
    }
}

/// The insertion failure that a Wayland error reports while `operation` ran.
pub fn wayland_error_failed(operation: InsertionIoOperation, error: WaylandFailure) -> (r:
    InsertionFailure)
    ensures
        r matches InsertionFailure::BackendFailed { backend, failure } && backend
            == InsertionBackendKind::WaylandInputMethod && spec_backend_failure(
            operation,
            error,
            failure,
        ),
{
    InsertionFailure::BackendFailed {
        backend: InsertionBackendKind::WaylandInputMethod,
        failure: backend_failure_from_wayland_error(operation, error),
    }
}

/// `r` is a protocol failure of the input-method backend with this operation, kind and
/// message.
pub open spec fn reports_backend_protocol_failure(
    r: InsertionFailure,
    operation: InsertionIoOperation,
    kind: InsertionProtocolFailureKind,
    message: Seq<char>,
) -> bool {
    match r {
        InsertionFailure::BackendFailed { backend, failure } => {
            &&& backend == InsertionBackendKind::WaylandInputMethod
            &&& match failure {
                InsertionBackendFailure::Protocol { operation: op, kind: k, message: m } => {
                    &&& op == operation
                    &&& k == kind
                    &&& m@ == message
                },
                _ => false,
            }
        },
        _ => false,
    }
}

/// A protocol failure of the input-method backend.
pub fn wayland_protocol_failed(
    operation: InsertionIoOperation,
    kind: InsertionProtocolFailureKind,
    message: &str,
) -> (r: InsertionFailure)
    ensures
        reports_backend_protocol_failure(r, operation, kind, message@),
{
    InsertionFailure::BackendFailed {
        backend: InsertionBackendKind::WaylandInputMethod,
        failure: InsertionBackendFailure::Protocol {
            operation,
            kind,
            message: String::from_str(message),
        },
    }
}

/// An I/O failure of the input-method backend of kind `Other`.
pub fn insertion_io_failed(operation: InsertionIoOperation, message: String) -> (r:
    InsertionFailure)
    ensures
        r == (InsertionFailure::BackendFailed {
            backend: InsertionBackendKind::WaylandInputMethod,
            failure: InsertionBackendFailure::Io { operation, kind: IoErrorKind::Other, message },
        }),
{
    InsertionFailure::BackendFailed {
        backend: InsertionBackendKind::WaylandInputMethod,
        failure: InsertionBackendFailure::Io { operation, kind: IoErrorKind::Other, message },
    }
}

/// The failure that a dispatch error reports: a connection error while reading
/// events, or a bad message.
pub fn dispatch_failed(error: DispatchFailure) -> (r: InsertionFailure)
    ensures
        match error {
            DispatchFailure::Backend(e) => r matches InsertionFailure::BackendFailed {
                backend,
                failure,
            } && backend == InsertionBackendKind::WaylandInputMethod && spec_backend_failure(
                InsertionIoOperation::ReadEvents,
                e,
                failure,
            ),
            DispatchFailure::BadMessage { message } => reports_backend_protocol_failure(
                r,
                InsertionIoOperation::ReadEvents,
                InsertionProtocolFailureKind::BadMessage,
                message@,
            ),
        },
{
    match error {
        DispatchFailure::Backend(e) => wayland_error_failed(InsertionIoOperation::ReadEvents, e),
        DispatchFailure::BadMessage { message } => InsertionFailure::BackendFailed {
            backend: InsertionBackendKind::WaylandInputMethod,
            failure: InsertionBackendFailure::Protocol {
                operation: InsertionIoOperation::ReadEvents,
                kind: InsertionProtocolFailureKind::BadMessage,
                message,
            },
        },
    }
}

/// Interrupted and would-block reads are retried; any other error fails while reading
/// events.
pub fn classify_wayland_read(result: Result<usize, WaylandFailure>) -> (r: Result<
    WaylandReadAttempt,
    InsertionFailure,
>)
    ensures
        match result {
            Ok(_) => r == Ok::<WaylandReadAttempt, InsertionFailure>(WaylandReadAttempt::Completed),
            Err(WaylandFailure::Io { kind: IoErrorKind::Interrupted, .. }) => r == Ok::<
                WaylandReadAttempt,
                InsertionFailure,
            >(WaylandReadAttempt::Interrupted),
            Err(WaylandFailure::Io { kind: IoErrorKind::WouldBlock, .. }) => r == Ok::<
                WaylandReadAttempt,
                InsertionFailure,
            >(WaylandReadAttempt::WouldBlock),
            Err(e) => r matches Err(InsertionFailure::BackendFailed { backend, failure })
                && backend == InsertionBackendKind::WaylandInputMethod && spec_backend_failure(
                InsertionIoOperation::ReadEvents,
                e,
                failure,
            ),
        },
{
    match result {
        Ok(_) => Ok(WaylandReadAttempt::Completed),
        Err(WaylandFailure::Io { kind: IoErrorKind::Interrupted, .. }) => Ok(
            WaylandReadAttempt::Interrupted,
        ),
        Err(WaylandFailure::Io { kind: IoErrorKind::WouldBlock, .. }) => Ok(
            WaylandReadAttempt::WouldBlock,
        ),
        Err(error) => Err(wayland_error_failed(InsertionIoOperation::ReadEvents, error)),
    }
}

/// `Ok(true)` after a completed read, `Ok(false)` when the read is to be retried.
pub fn read_events_or_retry(result: Result<usize, WaylandFailure>) -> (r: Result<
    bool,
    InsertionFailure,
>)
    ensures
        match result {
            Ok(_) => r == Ok::<bool, InsertionFailure>(true),
            Err(WaylandFailure::Io { kind: IoErrorKind::Interrupted, .. }) => r == Ok::<
                bool,
                InsertionFailure,
            >(false),
            Err(WaylandFailure::Io { kind: IoErrorKind::WouldBlock, .. }) => r == Ok::<
                bool,
                InsertionFailure,
            >(false),
            Err(e) => r is Err,
        },
{
    match classify_wayland_read(result) {
        Ok(WaylandReadAttempt::Completed) => Ok(true),
        Ok(_) => Ok(false),
        Err(failure) => Err(failure),
    }
}

/// After a read while waiting for a flush: dispatch what was read; when the read would
/// block and the socket was writable, retry the flush; otherwise keep waiting.
pub fn flush_wait_read_action(
    result: Result<usize, WaylandFailure>,
    context: FlushWaitContext,
) -> (r: Result<FlushWaitReadAction, InsertionFailure>)
    ensures
        match result {
            Ok(_) => r == Ok::<FlushWaitReadAction, InsertionFailure>(
                FlushWaitReadAction::DispatchPending,
            ),
            Err(WaylandFailure::Io { kind: IoErrorKind::WouldBlock, .. }) => r == Ok::<
                FlushWaitReadAction,
                InsertionFailure,
            >(
                if context.writable_observed {
                    FlushWaitReadAction::RetryFlush
                } else {
                    FlushWaitReadAction::ContinueWaiting
                },
            ),
            Err(WaylandFailure::Io { kind: IoErrorKind::Interrupted, .. }) => r == Ok::<
                FlushWaitReadAction,
                InsertionFailure,
            >(FlushWaitReadAction::ContinueWaiting),
            Err(e) => r is Err,
        },
{
    match classify_wayland_read(result) {
        Ok(WaylandReadAttempt::Completed) => Ok(FlushWaitReadAction::DispatchPending),
        Ok(WaylandReadAttempt::WouldBlock) => {
            if context.writable_observed {
                Ok(FlushWaitReadAction::RetryFlush)
            } else {
                Ok(FlushWaitReadAction::ContinueWaiting)
            }
        },
        Ok(WaylandReadAttempt::Interrupted) => Ok(FlushWaitReadAction::ContinueWaiting),
        Err(failure) => Err(failure),
    }
}

/// What to do after a failed flush.
#[derive(Clone, Copy, Debug, PartialEq, Eq, Structural)]
pub enum FlushRetry {
    RetryNow,
    WaitWritable,
    Fail,
}

/// Interrupted flushes are retried at once; would-block ones wait for the socket to be
/// writable; any other error fails.
pub fn flush_retry(error: &WaylandFailure) -> (r: FlushRetry)
    ensures
        r == (match error {
            WaylandFailure::Io { kind: IoErrorKind::Interrupted, .. } => FlushRetry::RetryNow,
            WaylandFailure::Io { kind: IoErrorKind::WouldBlock, .. } => FlushRetry::WaitWritable,
            _ => FlushRetry::Fail,
        }),
{
    match error {
        WaylandFailure::Io { kind: IoErrorKind::Interrupted, .. } => FlushRetry::RetryNow,
        WaylandFailure::Io { kind: IoErrorKind::WouldBlock, .. } => FlushRetry::WaitWritable,
        _ => FlushRetry::Fail,
    }
}

/// `Err(IdleTimedOut)` when `now` reached the deadline.
pub fn deadline_status_at(deadline: Moment, now: Moment, operation: InsertionIoOperation) -> (r:
    Result<(), InsertionFailure>)
    ensures
        r == spec_deadline_status(deadline, now, operation),
{
    if deadline.is_at_or_before(&now) {
        Err(InsertionFailure::IdleTimedOut { operation })
    } else {
        Ok(())
    }
}

/// What `deadline_status_at` gives at the clock reading `now`.
pub open spec fn spec_deadline_status(
    deadline: Moment,
    now: Moment,
    operation: InsertionIoOperation,
) -> Result<(), InsertionFailure> {
    if now.spec_nanos() >= deadline.spec_nanos() {
        Err(InsertionFailure::IdleTimedOut { operation })
    } else {
        Ok(())
    }
}

/// `Err(IdleTimedOut)` once the clock reached the deadline: the status at one reading
/// of the clock.
pub fn ensure_deadline_active(deadline: Moment, operation: InsertionIoOperation) -> (r: Result<
    (),
    InsertionFailure,
>)
    ensures
        exists|now: Moment|
            now.spec_nanos() < CLOCK_MAX_NANOS && r == #[trigger] spec_deadline_status(
                deadline,
                now,
                operation,
            ),
        r is Err ==> r == Err::<(), InsertionFailure>(InsertionFailure::IdleTimedOut { operation }),
{
    let now = now();
    let r = deadline_status_at(deadline, now, operation);
    assert(r == spec_deadline_status(deadline, now, operation));
    r
}

/// The deadline of one wait on the socket.
#[derive(Clone, Copy, Debug, PartialEq, Eq, Structural)]
pub enum PollDeadline {
    Now,
    Until(Moment),
}

/// The timeout for one poll: zero for `Now`; what is left of the deadline otherwise,
/// which must be more than nothing. What is left is capped at the largest span.
pub fn poll_timeout_at(deadline: PollDeadline, now: Moment, operation: InsertionIoOperation) -> (r:
    Result<TimeSpan, InsertionFailure>)
    ensures
        match deadline {
            PollDeadline::Now => r is Ok && r.unwrap().spec_nanos() == 0,
            PollDeadline::Until(d) => if now.spec_nanos() < d.spec_nanos() {
                r is Ok && r.unwrap().spec_nanos() == if d.spec_nanos() - now.spec_nanos()
                    <= SPAN_MAX_NANOS {
                    d.spec_nanos() - now.spec_nanos()
                } else {
                    SPAN_MAX_NANOS as int
                }
            } else {
                r == Err::<TimeSpan, InsertionFailure>(InsertionFailure::IdleTimedOut { operation })
            },
        },
{
    match deadline {
        PollDeadline::Now => Ok(TimeSpan::zero()),
        PollDeadline::Until(d) => {
            let until = d.as_nanos();
            let from = now.as_nanos();
            if until <= from {
                Err(InsertionFailure::IdleTimedOut { operation })
            } else {
                let left = until - from;
                match TimeSpan::from_nanos(left) {
                    Some(span) => Ok(span),
                    None => Ok(TimeSpan::from_nanos(SPAN_MAX_NANOS).unwrap()),
                }
            }
        },
    }
}

/// What one poll of the socket returned.
#[derive(Clone, Debug, PartialEq, Eq)]
pub enum PollReport {
    /// No descriptor became ready before the timeout.
    NothingReady,
    /// The descriptor became ready; `revents` is how the returned flags print.
    Ready { readable: bool, writable: bool, error_flags: bool, revents: String },
    /// The call was interrupted by a signal.
    Interrupted,
    /// The call failed; `message` is how the error prints.
    Failed { message: String },
}

/// What one poll means: `Ok(None)` to poll again, `Ok(Some(ready))` when the socket is
/// ready (or, for `Now`, when nothing was), an error otherwise.
pub fn poll_outcome(
    deadline: PollDeadline,
    report: PollReport,
    operation: InsertionIoOperation,
) -> (r: Result<Option<FdReady>, InsertionFailure>)
    ensures
        match report {
            PollReport::NothingReady => match deadline {
                PollDeadline::Now => r == Ok::<Option<FdReady>, InsertionFailure>(
                    Some(FdReady { readable: false, writable: false }),
                ),
                PollDeadline::Until(_) => r == Err::<Option<FdReady>, InsertionFailure>(
                    InsertionFailure::IdleTimedOut { operation },
                ),
            },
            PollReport::Ready { readable, writable, error_flags, revents } => if error_flags {
                r matches Err(InsertionFailure::BackendFailed {
                    backend: InsertionBackendKind::WaylandInputMethod,
                    failure: InsertionBackendFailure::Io { operation: op, kind, message },
                }) && op == operation && kind == IoErrorKind::Other && message@
                    == "Wayland fd reported "@ + revents@
            } else {
                r == Ok::<Option<FdReady>, InsertionFailure>(
                    Some(FdReady { readable, writable }),
                )
            },
            PollReport::Interrupted => r == Ok::<Option<FdReady>, InsertionFailure>(None),
            PollReport::Failed { message } => r == Err::<Option<FdReady>, InsertionFailure>(
                InsertionFailure::BackendFailed {
                    backend: InsertionBackendKind::WaylandInputMethod,
                    failure: InsertionBackendFailure::Io {
                        operation,
                        kind: IoErrorKind::Other,
                        message,
                    },
                },
            ),
        },
{
    match report {
        PollReport::NothingReady => match deadline {
            PollDeadline::Now => Ok(Some(FdReady { readable: false, writable: false })),
            PollDeadline::Until(_) => Err(InsertionFailure::IdleTimedOut { operation }),
        },
        PollReport::Ready { readable, writable, error_flags, revents } => {
            if error_flags {
                let mut message = String::from_str("Wayland fd reported ");
                message.append(revents.as_str());
                Err(insertion_io_failed(operation, message))
            } else {
                Ok(Some(FdReady { readable, writable }))
            }
        },
        PollReport::Interrupted => Ok(None),
        PollReport::Failed { message } => Err(insertion_io_failed(operation, message)),
    }
}

/// What one attempt to flush a buffered commit leads to.
#[derive(Clone, Debug, PartialEq, Eq)]
pub enum FlushAttempt {
    /// The commit left the buffer.
    Flushed,
    /// Check the deadline and flush again at once.
    RetryNow,
    /// Wait for the socket to be writable, then flush again.
    WaitWritable,
    /// The flush failed for good.
    Failed(InsertionBackendFailure),
}

/// What a flush result means for a buffered commit.
pub fn flush_attempt(result: Result<(), WaylandFailure>) -> (r: FlushAttempt)
    ensures
        match result {
            Ok(()) => r == FlushAttempt::Flushed,
            Err(e) => match flush_retry_spec(e) {
                FlushRetry::RetryNow => r == FlushAttempt::RetryNow,
                FlushRetry::WaitWritable => r == FlushAttempt::WaitWritable,
                FlushRetry::Fail => r matches FlushAttempt::Failed(f) && spec_backend_failure(
                    InsertionIoOperation::FlushRequests,
                    e,
                    f,
                ),
            },
        },
{
    match result {
        Ok(()) => FlushAttempt::Flushed,
        Err(error) => match flush_retry(&error) {
            FlushRetry::RetryNow => FlushAttempt::RetryNow,
            FlushRetry::WaitWritable => FlushAttempt::WaitWritable,
            FlushRetry::Fail => FlushAttempt::Failed(
                backend_failure_from_wayland_error(InsertionIoOperation::FlushRequests, error),
            ),
        },
    }
}

/// What `flush_retry` decides for an error.
pub open spec fn flush_retry_spec(error: WaylandFailure) -> FlushRetry {
    match error {
        WaylandFailure::Io { kind: IoErrorKind::Interrupted, .. } => FlushRetry::RetryNow,
        WaylandFailure::Io { kind: IoErrorKind::WouldBlock, .. } => FlushRetry::WaitWritable,
        _ => FlushRetry::Fail,
    }
}

/// One round of the loop that flushes a buffered commit: whether the deadline was still
/// ahead when the round began, what the flush returned, and what the wait for a
/// writable socket returned (looked at only after a would-block flush).
#[derive(Debug, PartialEq, Eq)]
pub struct FlushRound {
    pub deadline_ahead: bool,
    pub flush: Result<(), WaylandFailure>,
    pub wait: Result<(), InsertionFailure>,
}

/// How the loop that flushes a buffered commit ends: the commit was flushed (the
/// buffered commit comes back unchanged); a flush failed for good (reported as
/// `FlushFailed` with the backend failure for that error); the deadline passed (reported
/// as `Interrupted(IdleTimedOut)` of the flush); or the wait failed (reported as
/// `Interrupted` with its failure).
#[derive(Clone, Debug, PartialEq, Eq)]
pub enum FlushLoopEnd {
    Flushed,
    FlushFailed(WaylandFailure),
    TimedOut,
    WaitFailed(InsertionFailure),
}

/// Where the loop that flushes a buffered commit stands.
#[derive(Clone, Debug, PartialEq, Eq)]
pub enum FlushLoopStage {
    /// Check the deadline before the next flush.
    CheckDeadline,
    /// Flush the connection.
    Flush,
    /// Wait for the socket to be writable.
    Wait,
    /// The loop is over.
    Ended(FlushLoopEnd),
}

/// What the loop learned at its current stage.
#[derive(Debug, PartialEq, Eq)]
pub enum FlushLoopInput {
    /// Whether the deadline is still ahead.
    DeadlineChecked(bool),
    /// What the flush returned.
    Flushed(Result<(), WaylandFailure>),
    /// What the wait for a writable socket returned.
    Waited(Result<(), InsertionFailure>),
}

/// The stage after `input` at `stage`: a passed deadline ends the loop; a flush ends
/// it on success or a lasting error, goes back to the deadline check when interrupted,
/// and waits for the socket when it would block; a wait goes back to the deadline check
/// or, when it failed, ends the loop.
pub open spec fn spec_flush_loop_next(stage: FlushLoopStage, input: FlushLoopInput) -> FlushLoopStage {
    match (stage, input) {
        (FlushLoopStage::CheckDeadline, FlushLoopInput::DeadlineChecked(ahead)) => if ahead {
            FlushLoopStage::Flush
        } else {
            FlushLoopStage::Ended(FlushLoopEnd::TimedOut)
        },
        (FlushLoopStage::Flush, FlushLoopInput::Flushed(result)) => match result {
            Ok(()) => FlushLoopStage::Ended(FlushLoopEnd::Flushed),
            Err(e) => match flush_retry_spec(e) {
                FlushRetry::RetryNow => FlushLoopStage::CheckDeadline,
                FlushRetry::WaitWritable => FlushLoopStage::Wait,
                FlushRetry::Fail => FlushLoopStage::Ended(FlushLoopEnd::FlushFailed(e)),
            },
        },
        (FlushLoopStage::Wait, FlushLoopInput::Waited(result)) => match result {
            Ok(()) => FlushLoopStage::CheckDeadline,
            Err(f) => FlushLoopStage::Ended(FlushLoopEnd::WaitFailed(f)),
        },
        (other, _) => other,
    }
}

/// Whether `input` is what the loop learns at `stage`.
pub open spec fn is_input_for(stage: FlushLoopStage, input: FlushLoopInput) -> bool {
    match stage {
        FlushLoopStage::CheckDeadline => input is DeadlineChecked,
        FlushLoopStage::Flush => input is Flushed,
        FlushLoopStage::Wait => input is Waited,
        FlushLoopStage::Ended(_) => false,
    }
}

/// One step of the loop that flushes a buffered commit; the loop itself runs where the
/// socket is, checking the deadline, flushing and waiting as each stage asks.
pub fn flush_loop_next(stage: FlushLoopStage, input: FlushLoopInput) -> (r: FlushLoopStage)
    requires
        is_input_for(stage, input),
    ensures
        r == spec_flush_loop_next(stage, input),
{
    match stage {
        FlushLoopStage::CheckDeadline => match input {
            FlushLoopInput::DeadlineChecked(true) => FlushLoopStage::Flush,
            _ => FlushLoopStage::Ended(FlushLoopEnd::TimedOut),
        },
        FlushLoopStage::Flush => match input {
            FlushLoopInput::Flushed(Ok(())) => FlushLoopStage::Ended(FlushLoopEnd::Flushed),
            FlushLoopInput::Flushed(Err(e)) => match flush_retry(&e) {
                FlushRetry::RetryNow => FlushLoopStage::CheckDeadline,
                FlushRetry::WaitWritable => FlushLoopStage::Wait,
                FlushRetry::Fail => FlushLoopStage::Ended(FlushLoopEnd::FlushFailed(e)),
            },
            _ => FlushLoopStage::Flush,
        },
        FlushLoopStage::Wait => match input {
            FlushLoopInput::Waited(Ok(())) => FlushLoopStage::CheckDeadline,
            FlushLoopInput::Waited(Err(f)) => FlushLoopStage::Ended(FlushLoopEnd::WaitFailed(f)),
            _ => FlushLoopStage::Wait,
        },
        FlushLoopStage::Ended(end) => FlushLoopStage::Ended(end),
    }
}

/// How the flush loop ends over `rounds`, taking each stage by `spec_flush_loop_next`,
/// with the number of flushes and of waits it made; `None` while it is still running
/// after the last round. A round checks the deadline, flushes, and, when the flush
/// would block, waits.
pub open spec fn spec_flush_loop(rounds: Seq<FlushRound>) -> Option<(FlushLoopEnd, nat, nat)>
    decreases rounds.len(),
{
    if rounds.len() == 0 {
        None
    } else {
        let r = rounds[0];
        match spec_flush_loop_next(
            FlushLoopStage::CheckDeadline,
            FlushLoopInput::DeadlineChecked(r.deadline_ahead),
        ) {
            FlushLoopStage::Ended(end) => Some((end, 0, 0)),
            _ => match spec_flush_loop_next(FlushLoopStage::Flush, FlushLoopInput::Flushed(r.flush)) {
                FlushLoopStage::Ended(end) => Some((end, 1, 0)),
                FlushLoopStage::Wait => match spec_flush_loop_next(
                    FlushLoopStage::Wait,
                    FlushLoopInput::Waited(r.wait),
                ) {
                    FlushLoopStage::Ended(end) => Some((end, 1, 1)),
                    _ => match spec_flush_loop(rounds.drop_first()) {
                        Some((end, flushes, waits)) => Some((end, flushes + 1, waits + 1)),
                        None => None,
                    },
                },
                _ => match spec_flush_loop(rounds.drop_first()) {
                    Some((end, flushes, waits)) => Some((end, flushes + 1, waits)),
                    None => None,
                },
            },
        }
    }
}

/// Whether a flush error is one the loop retries: interrupted, or would block.
pub open spec fn is_retried_flush_error(e: WaylandFailure) -> bool {
    flush_retry_spec(e) == FlushRetry::RetryNow || flush_retry_spec(e) == FlushRetry::WaitWritable
}

/// The number of rounds whose flush would block.
pub open spec fn spec_would_block_rounds(rounds: Seq<FlushRound>) -> nat
    decreases rounds.len(),
{
    if rounds.len() == 0 {
        0
    } else {
        (if rounds[0].flush matches Err(e) && flush_retry_spec(e) == FlushRetry::WaitWritable {
            1nat
        } else {
            0nat
        }) + spec_would_block_rounds(rounds.drop_first())
    }
}

/// With the deadline ahead and every wait succeeding, flushes that are interrupted or
/// would block are retried until one succeeds: the loop ends flushed after one flush per
/// round, and it waits once for each flush that would block and never for an
/// interrupted one.
pub proof fn lemma_flush_loop_retries_until_flushed(rounds: Seq<FlushRound>)
    requires
        rounds.len() >= 1,
        forall|i: int| 0 <= i < rounds.len() ==> #[trigger] rounds[i].deadline_ahead,
        forall|i: int| 0 <= i < rounds.len() ==> #[trigger] rounds[i].wait is Ok,
        forall|i: int|
            0 <= i < rounds.len() - 1 ==> (#[trigger] rounds[i].flush matches Err(e)
                && is_retried_flush_error(e)),
        rounds.last().flush is Ok,
    ensures
        spec_flush_loop(rounds) == Some(
            (
                FlushLoopEnd::Flushed,
                rounds.len(),
                spec_would_block_rounds(rounds.drop_last()),
            ),
        ),
    decreases rounds.len(),
{
    if rounds.len() > 1 {
        let rest = rounds.drop_first();
        assert forall|i: int| 0 <= i < rest.len() implies #[trigger] rest[i] == rounds[i + 1] by {}
        assert(rest.last() == rounds.last());
        assert forall|i: int| 0 <= i < rest.len() - 1 implies (#[trigger] rest[i].flush matches Err(
            e,
        ) && is_retried_flush_error(e)) by {
            assert(rest[i] == rounds[i + 1]);
        }
        assert forall|i: int| 0 <= i < rest.len() implies #[trigger] rest[i].deadline_ahead by {
            assert(rest[i] == rounds[i + 1]);
        }
        assert forall|i: int| 0 <= i < rest.len() implies #[trigger] rest[i].wait is Ok by {
            assert(rest[i] == rounds[i + 1]);
        }
        lemma_flush_loop_retries_until_flushed(rest);
        assert(rounds.drop_last().drop_first() =~= rest.drop_last());
        assert(rounds.drop_last()[0] == rounds[0]);
        assert(rounds[0].deadline_ahead);
        assert(rounds[0].wait is Ok);
        assert(rounds[0].flush matches Err(e) && is_retried_flush_error(e));
    } else {
        assert(rounds[0] == rounds.last());
        assert(rounds[0].deadline_ahead);
        assert(rounds.drop_last().len() == 0);
    }
}

} // verus!
