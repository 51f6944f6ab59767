use dictate::insertion::outcome::InsertionAuthorityLoss;
use dictate::insertion::outcome::InsertionBackendFailure;
use dictate::insertion::outcome::InsertionBackendKind;
use dictate::insertion::outcome::InsertionFailure;
use dictate::insertion::outcome::InsertionIoOperation;
use dictate::insertion::outcome::InsertionOutcome;
use dictate::insertion::outcome::InsertionProtocolFailureKind;
use dictate::insertion::outcome::InsertionTargetKind;
use dictate::insertion::outcome::InsertionText;
use dictate::insertion::outcome::IoErrorKind;
use dictate::insertion::wayland::commits::CommitRequest;
use dictate::insertion::wayland::commits::BufferedCommit;
use dictate::insertion::wayland::connect_failure;
use dictate::insertion::wayland::discovery::choose_keyboard_seat;
use dictate::insertion::wayland::discovery::seat_count_for_report;
use dictate::insertion::wayland::io::commit_flush_dispatched_action;
use dictate::insertion::wayland::io::commit_flush_wait_action;
use dictate::insertion::wayland::io::flush_attempt;
use dictate::insertion::wayland::io::flush_retry;
use dictate::insertion::wayland::io::flush_wait_read_action;
use dictate::insertion::wayland::io::poll_outcome;
use dictate::insertion::wayland::io::CommitFlushDispatchedAction;
use dictate::insertion::wayland::io::CommitFlushWaitAction;
use dictate::insertion::wayland::io::FdReady;
use dictate::insertion::wayland::io::FlushAttempt;
use dictate::insertion::wayland::io::flush_loop_next;
use dictate::insertion::wayland::io::FlushLoopEnd;
use dictate::insertion::wayland::io::FlushLoopInput;
use dictate::insertion::wayland::io::FlushLoopStage;
use dictate::insertion::wayland::io::FlushRetry;
use dictate::insertion::wayland::io::FlushWaitContext;
use dictate::insertion::wayland::io::FlushWaitReadAction;
use dictate::insertion::wayland::io::PollDeadline;
use dictate::insertion::wayland::io::PollReport;
use dictate::insertion::wayland::io::WaylandFailure;
use dictate::insertion::wayland::protocol_attempt_timeout;
use dictate::insertion::wayland::protocol_state::interrupted_commit_failure;
use dictate::insertion::wayland::protocol_state::BufferedCommitFlushFailure;
use dictate::insertion::wayland::protocol_state::InputMethodEvent;
use dictate::insertion::wayland::protocol_state::InputMethodFailure;
use dictate::insertion::wayland::protocol_state::InputMethodSerial;
use dictate::insertion::wayland::protocol_state::InputMethodSession;
use dictate::insertion::wayland::protocol_state::State;
use dictate::insertion::wayland::text_chunks::CommitChunks;
use dictate::insertion::wayland::text_chunks::MAX_COMMIT_STRING_BYTES;
use dictate::insertion::wayland::ConnectFailureKind;
use dictate::insertion::wayland::ProgressDeadline;
use dictate::time::now;
use dictate::time::Moment;
use dictate::time::TimeSpan;

fn state_with_chunks(chunks: &[&str]) -> State {
    State::new(CommitChunks::from_test_chunks(
        chunks.iter().map(|chunk| (*chunk).to_owned()).collect(),
    ))
}

fn begin_and_buffer_commit(state: &mut State) -> (CommitRequest, BufferedCommit) {
    state.handle_input_method_event(InputMethodEvent::Activate);
    state.handle_input_method_event(InputMethodEvent::Done);
    let request = state
        .next_commit_request()
        .expect("commit request should be valid")
        .expect("done should queue a commit request");
    let buffered = state
        .mark_commit_buffered(&request)
        .expect("commit request should be buffered");
    (request, buffered)
}

#[test]
fn text_chunks_commit_chunks_stay_under_wayland_limit() {
    let text = "x".repeat(MAX_COMMIT_STRING_BYTES + 1);
    let insertion_text = InsertionText::new(&text).expect("fixture text is non-empty");
    let chunks = CommitChunks::from_text(insertion_text).to_strings();

    assert_eq!(chunks.len(), 2);
    assert_eq!(chunks.concat(), text);
    assert!(chunks.iter().all(|chunk| chunk.len() <= MAX_COMMIT_STRING_BYTES));
}

#[test]
fn text_chunks_commit_chunks_preserve_utf8_boundaries() {
    let text = format!("{}é", "x".repeat(MAX_COMMIT_STRING_BYTES - 1));
    let insertion_text = InsertionText::new(&text).expect("fixture text is non-empty");
    let chunks = CommitChunks::from_text(insertion_text).to_strings();

    assert_eq!(chunks.concat(), text);
    assert_eq!(chunks[0].len(), MAX_COMMIT_STRING_BYTES - 1);
    assert_eq!(chunks[1], "é");
}

#[test]
fn empty_text_is_not_insertion_text() {
    assert!(InsertionText::new("").is_none());
    assert_eq!(InsertionText::new("a").map(|t| t.as_str()), Some("a"));
}

#[test]
fn wayland_progress_deadline_resets_after_each_protocol_step_without_extending_attempt() {
    let timeout = TimeSpan::from_secs(10);
    let attempt_timeout = TimeSpan::from_secs(30);
    let now = now();
    let mut deadline = ProgressDeadline::new_at(timeout, attempt_timeout, 0, now);
    let initial = deadline.current();

    deadline.reset_after_progress(0);
    assert_eq!(deadline.current(), initial);

    deadline.reset_after_progress(1);
    assert!(deadline.current().instant >= initial.instant);
    assert!(deadline.current().instant <= now.add(attempt_timeout));
}

#[test]
fn wayland_progress_deadline_reports_overall_attempt_timeout() {
    let timeout = TimeSpan::from_millis(1);
    let now = now().checked_sub(TimeSpan::from_secs(1)).unwrap_or_else(now);
    let deadline = ProgressDeadline::new_at(timeout, timeout, 0, now);

    assert!(matches!(
        deadline.current().classify_timeout(InsertionFailure::IdleTimedOut {
            operation: InsertionIoOperation::WaitReadable,
        }),
        InsertionFailure::AttemptTimedOut { operation: InsertionIoOperation::WaitReadable }
    ));
}

#[test]
fn protocol_attempt_timeout_scales_with_chunk_count() {
    let idle_timeout = TimeSpan::from_secs(1);

    assert_eq!(protocol_attempt_timeout(idle_timeout, 1), idle_timeout.saturating_mul(5));
    assert_eq!(protocol_attempt_timeout(idle_timeout, 3), idle_timeout.saturating_mul(7));
}

#[test]
fn protocol_attempt_timeout_saturates() {
    let idle_timeout = TimeSpan::from_secs(u64::MAX);
    assert_eq!(protocol_attempt_timeout(idle_timeout, 2).as_nanos(), idle_timeout.saturating_mul(6).as_nanos());
    assert_eq!(protocol_attempt_timeout(TimeSpan::from_millis(1), usize::MAX).as_millis(), u32::MAX as u128);
}

#[test]
fn input_method_serial_wraps_explicitly() {
    assert_eq!(InputMethodSerial(u32::MAX).advance(), InputMethodSerial(0));
}

#[test]
fn protocol_state_final_chunk_request_is_sent_after_flush() {
    let mut state = state_with_chunks(&["hello"]);

    let (request, buffered) = begin_and_buffer_commit(&mut state);
    assert_eq!(request.chunk, "hello");
    state.commit_request_flushed(buffered).expect("commit request should flush");
    assert_eq!(state.session(), &InputMethodSession::SentToInputMethod);
    assert!(state.session().is_finished());
}

#[test]
fn protocol_state_one_done_serial_can_send_all_chunks() {
    let mut state = state_with_chunks(&["hello", " world"]);

    state.handle_input_method_event(InputMethodEvent::Activate);
    state.handle_input_method_event(InputMethodEvent::Done);

    let InputMethodSession::CommitQueued { serial, current, remaining } = state.session() else {
        panic!("done should queue all chunks for commit");
    };
    assert_eq!(serial.request_serial(), 1);
    assert_eq!(current.chunk, "hello");
    assert_eq!(remaining.len(), 1);
    assert_eq!(remaining[0].chunk, " world");
}

#[test]
fn queued_commit_flush_advances_to_remaining_then_sent() {
    let mut state = state_with_chunks(&["hello", " world"]);

    let (request, buffered) = begin_and_buffer_commit(&mut state);
    assert_eq!(request.chunk, "hello");
    state.commit_request_flushed(buffered).expect("commit request should flush");
    let InputMethodSession::CommitQueued { current, remaining, .. } = state.session() else {
        panic!("first flush should advance to the second queued commit");
    };
    assert_eq!(current.chunk, " world");
    assert!(remaining.is_empty());

    let request = state
        .next_commit_request()
        .expect("remaining commit request should be valid")
        .expect("remaining queued commit should become in-flight");
    let buffered = state.mark_commit_buffered(&request).expect("remaining commit request should be buffered");
    assert_eq!(request.chunk, " world");
    state.commit_request_flushed(buffered).expect("commit request should flush");
    assert_eq!(state.session(), &InputMethodSession::SentToInputMethod);
}

#[test]
fn done_while_queued_refreshes_remaining_commit_serials() {
    let mut state = state_with_chunks(&["hello", " world"]);

    state.handle_input_method_event(InputMethodEvent::Activate);
    state.handle_input_method_event(InputMethodEvent::Done);
    state.handle_input_method_event(InputMethodEvent::Done);

    let InputMethodSession::CommitQueued { serial, current, remaining } = state.session() else {
        panic!("second done should preserve the queued commit state");
    };
    assert_eq!(serial.request_serial(), 2);
    assert_eq!(current.chunk, "hello");
    assert_eq!(remaining[0].chunk, " world");
}

#[test]
fn done_while_in_flight_marks_buffered_commit_stale() {
    let mut state = state_with_chunks(&["hello", " world"]);
    state.handle_input_method_event(InputMethodEvent::Activate);
    state.handle_input_method_event(InputMethodEvent::Done);
    let in_flight = state
        .next_commit_request()
        .expect("commit request should be valid")
        .expect("queued commit should become in-flight");
    let _buffered = state.mark_commit_buffered(&in_flight).expect("commit request should be buffered");
    assert_eq!(in_flight.serial, 1);

    state.handle_input_method_event(InputMethodEvent::Done);

    assert_eq!(
        state.session(),
        &InputMethodSession::Failed(InputMethodFailure::SerialAdvancedAfterBuffer)
    );
}

#[test]
fn queued_commits_are_rejected_when_deactivated_before_flush() {
    let mut state = state_with_chunks(&["hello"]);

    state.handle_input_method_event(InputMethodEvent::Activate);
    state.handle_input_method_event(InputMethodEvent::Done);
    state.handle_input_method_event(InputMethodEvent::Deactivate);

    assert_eq!(state.session(), &InputMethodSession::Failed(InputMethodFailure::Deactivated));
    assert!(matches!(
        state.failure_outcome(InputMethodFailure::Deactivated.into_insert_failure()),
        InsertionOutcome::NotInserted(_)
    ));
}

#[test]
fn protocol_state_unavailable_finishes_without_commit() {
    let mut state = state_with_chunks(&["hello"]);

    state.handle_input_method_event(InputMethodEvent::Unavailable);

    assert_eq!(state.session(), &InputMethodSession::Unavailable);
    assert!(state.session().is_finished());
}

#[test]
fn protocol_state_event_driver_reports_unavailable_before_bytes_as_not_inserted() {
    let mut state = state_with_chunks(&["hello"]);

    state.handle_input_method_event(InputMethodEvent::Unavailable);

    assert!(matches!(
        state.failure_outcome(InsertionFailure::InsertionAuthorityLost {
            reason: InsertionAuthorityLoss::InputMethodUnavailable,
        }),
        InsertionOutcome::NotInserted(InsertionFailure::InsertionAuthorityLost {
            reason: InsertionAuthorityLoss::InputMethodUnavailable,
        })
    ));
}

#[test]
fn protocol_state_event_driver_reports_first_flush_failure_as_uncertain_after_request_is_queued() {
    let mut state = state_with_chunks(&["hello"]);

    let (request, _buffered) = begin_and_buffer_commit(&mut state);
    assert_eq!(request.chunk, "hello");

    let InsertionOutcome::DeliveryUncertain { maybe_sent_bytes, failure } =
        state.failure_outcome(InsertionFailure::BackendFailed {
            backend: InsertionBackendKind::WaylandInputMethod,
            failure: InsertionBackendFailure::Io {
                operation: InsertionIoOperation::FlushRequests,
                kind: IoErrorKind::Other,
                message: "flush failed".to_owned(),
            },
        })
    else {
        panic!("expected uncertain insertion after queueing commit request");
    };
    assert_eq!(maybe_sent_bytes, "hello".len());
    assert_eq!(
        failure.describe(),
        "text insertion backend failed: Wayland input-method: IO while flushing requests: flush failed (Other)"
    );
}

#[test]
fn protocol_state_event_driver_reports_failure_after_flushed_chunk_as_uncertain() {
    let mut state = state_with_chunks(&["hello", " world"]);

    let (request, buffered) = begin_and_buffer_commit(&mut state);
    assert_eq!(request.serial, 1);
    assert_eq!(request.chunk, "hello");
    state.commit_request_flushed(buffered).expect("commit request should flush");

    let InsertionOutcome::DeliveryUncertain { maybe_sent_bytes, failure } =
        state.failure_outcome(InsertionFailure::BackendFailed {
            backend: InsertionBackendKind::WaylandInputMethod,
            failure: InsertionBackendFailure::Protocol {
                operation: InsertionIoOperation::ReadEvents,
                kind: InsertionProtocolFailureKind::WaylandProtocol,
                message: "lost compositor".to_owned(),
            },
        })
    else {
        panic!("expected uncertain insertion outcome");
    };
    assert_eq!(maybe_sent_bytes, "hello".len());
    assert_eq!(
        failure.describe(),
        "text insertion backend failed: Wayland input-method: protocol while reading events: lost compositor (Wayland protocol)"
    );
}

#[test]
fn protocol_state_event_driver_reports_timeout_before_bytes_as_not_inserted() {
    let state = state_with_chunks(&["hello"]);

    assert!(matches!(
        state.failure_outcome(InsertionFailure::IdleTimedOut {
            operation: InsertionIoOperation::WaitReadable,
        }),
        InsertionOutcome::NotInserted(InsertionFailure::IdleTimedOut {
            operation: InsertionIoOperation::WaitReadable,
        })
    ));
}

#[test]
fn protocol_state_missing_registry_parts_are_fallback_safe_before_bytes() {
    let state = state_with_chunks(&["hello"]);

    assert!(matches!(
        state.failure_outcome(InsertionFailure::BackendUnavailable {
            backend: InsertionBackendKind::WaylandInputMethod,
        }),
        InsertionOutcome::NotInserted(InsertionFailure::BackendUnavailable {
            backend: InsertionBackendKind::WaylandInputMethod,
        })
    ));
    assert!(matches!(
        state.failure_outcome(InsertionFailure::TargetUnavailable { target: InsertionTargetKind::Seat }),
        InsertionOutcome::NotInserted(InsertionFailure::TargetUnavailable {
            target: InsertionTargetKind::Seat,
        })
    ));
}

#[test]
fn protocol_state_deactivate_before_done_does_not_commit() {
    let mut state = state_with_chunks(&["hello"]);

    state.handle_input_method_event(InputMethodEvent::Activate);
    state.handle_input_method_event(InputMethodEvent::Deactivate);
    state.handle_input_method_event(InputMethodEvent::Done);

    assert_eq!(
        state.session(),
        &InputMethodSession::WaitingInactive { serial: InputMethodSerial(1) }
    );
    assert!(!state.session().is_finished());
}

#[test]
fn protocol_state_unavailable_after_sent_does_not_reclassify_success() {
    let mut state = state_with_chunks(&["hello"]);

    let (request, buffered) = begin_and_buffer_commit(&mut state);
    assert_eq!(request.chunk, "hello");
    state.commit_request_flushed(buffered).expect("commit request should flush");
    state.handle_input_method_event(InputMethodEvent::Unavailable);

    assert_eq!(state.session(), &InputMethodSession::SentToInputMethod);
}

#[test]
fn mismatched_commit_request_fails_the_session() {
    let mut state = state_with_chunks(&["hello"]);
    state.handle_input_method_event(InputMethodEvent::Activate);
    state.handle_input_method_event(InputMethodEvent::Done);
    let wrong = CommitRequest { serial: 9, chunk: "hello".to_owned() };

    let failure = state.mark_commit_buffered(&wrong).expect_err("a stale serial must not buffer");

    assert_eq!(
        failure.describe(),
        "text insertion backend failed: Wayland input-method: protocol while flushing requests: commit request did not match the queued input-method commit (input-method session state)"
    );
    assert_eq!(state.maybe_sent_bytes(), 0);
}

#[test]
fn flush_failure_and_interruption_are_reported() {
    let mut state = state_with_chunks(&["hello"]);
    let (_request, _buffered) = begin_and_buffer_commit(&mut state);
    assert!(interrupted_commit_failure(&state).is_none());

    let failure = state.handle_commit_flush_failure(BufferedCommitFlushFailure::FlushFailed(
        InsertionBackendFailure::Io {
            operation: InsertionIoOperation::FlushRequests,
            kind: IoErrorKind::BrokenPipe,
            message: "closed".to_owned(),
        },
    ));
    assert!(matches!(failure, InsertionFailure::BackendFailed { .. }));
    assert!(matches!(state.session(), InputMethodSession::Failed(InputMethodFailure::FlushFailed(_))));
    assert!(matches!(
        state.failure_outcome(failure),
        InsertionOutcome::DeliveryUncertain { maybe_sent_bytes: 5, .. }
    ));
    assert!(interrupted_commit_failure(&state).is_some());
}

#[test]
fn flush_wait_policy_reads_events_before_retrying_when_also_writable() {
    assert_eq!(
        commit_flush_wait_action(FdReady { readable: true, writable: true }),
        CommitFlushWaitAction::ReadEvents
    );
    assert_eq!(
        commit_flush_wait_action(FdReady { readable: true, writable: false }),
        CommitFlushWaitAction::ReadEvents
    );
    assert_eq!(
        commit_flush_wait_action(FdReady { readable: false, writable: true }),
        CommitFlushWaitAction::RetryFlush
    );
}

#[test]
fn readable_and_writable_commit_flush_retries_after_dispatching_events() {
    assert_eq!(
        commit_flush_dispatched_action(FdReady { readable: true, writable: true }),
        CommitFlushDispatchedAction::RetryFlush
    );
    assert_eq!(
        commit_flush_dispatched_action(FdReady { readable: true, writable: false }),
        CommitFlushDispatchedAction::ContinueWaiting
    );
}

fn io_failure(kind: IoErrorKind, message: &str) -> WaylandFailure {
    WaylandFailure::Io { kind, message: message.to_owned() }
}

#[test]
fn read_wouldblock_preserves_writable_flush_progress() {
    let context = FlushWaitContext { writable_observed: true };
    assert_eq!(
        flush_wait_read_action(Err(io_failure(IoErrorKind::WouldBlock, "readiness race")), context)
            .expect("wouldblock should be retryable"),
        FlushWaitReadAction::RetryFlush
    );
    assert_eq!(
        flush_wait_read_action(Err(io_failure(IoErrorKind::Interrupted, "interrupted")), context)
            .expect("interrupted should retry the read path"),
        FlushWaitReadAction::ContinueWaiting
    );
}

#[test]
fn flush_errors_map_to_specific_retry_actions() {
    assert_eq!(
        flush_retry(&io_failure(IoErrorKind::WouldBlock, "socket backpressure")),
        FlushRetry::WaitWritable
    );
    assert_eq!(flush_retry(&io_failure(IoErrorKind::Interrupted, "interrupted")), FlushRetry::RetryNow);
    assert_eq!(flush_retry(&io_failure(IoErrorKind::BrokenPipe, "closed")), FlushRetry::Fail);
}

#[test]
fn failed_flush_attempt_reports_the_io_error() {
    assert_eq!(flush_attempt(Ok(())), FlushAttempt::Flushed);
    assert_eq!(
        flush_attempt(Err(io_failure(IoErrorKind::BrokenPipe, "closed"))),
        FlushAttempt::Failed(InsertionBackendFailure::Io {
            operation: InsertionIoOperation::FlushRequests,
            kind: IoErrorKind::BrokenPipe,
            message: "closed".to_owned(),
        })
    );
}

#[test]
fn poll_reports_map_to_readiness_or_failures() {
    assert_eq!(
        poll_outcome(PollDeadline::Now, PollReport::NothingReady, InsertionIoOperation::WaitReadable),
        Ok(Some(FdReady { readable: false, writable: false }))
    );
    assert_eq!(
        poll_outcome(PollDeadline::Until(now()), PollReport::NothingReady, InsertionIoOperation::WaitReadable),
        Err(InsertionFailure::IdleTimedOut { operation: InsertionIoOperation::WaitReadable })
    );
    let Err(InsertionFailure::BackendFailed { failure, .. }) = poll_outcome(
        PollDeadline::Now,
        PollReport::Ready { readable: true, writable: false, error_flags: true, revents: "HUP".to_owned() },
        InsertionIoOperation::WaitWritable,
    ) else {
        panic!("error flags must fail");
    };
    assert_eq!(failure.describe(), "IO while waiting for writability: Wayland fd reported HUP (Other)");
    assert_eq!(
        poll_outcome(PollDeadline::Now, PollReport::Interrupted, InsertionIoOperation::WaitReadable),
        Ok(None)
    );
}

#[test]
fn oversized_seat_count_reports_u32_max() {
    assert_eq!(seat_count_for_report(usize::MAX), u32::MAX);
}

#[test]
fn seat_choice_needs_one_keyboard_seat() {
    assert_eq!(
        choose_keyboard_seat(false, &vec![true]),
        Err(InsertionFailure::BackendUnavailable { backend: InsertionBackendKind::WaylandInputMethod })
    );
    assert_eq!(
        choose_keyboard_seat(true, &vec![false, false]),
        Err(InsertionFailure::TargetUnavailable { target: InsertionTargetKind::Seat })
    );
    assert_eq!(choose_keyboard_seat(true, &vec![false, true, false]), Ok(1));
    let ambiguous = choose_keyboard_seat(true, &vec![true, false, true]).unwrap_err();
    assert_eq!(
        ambiguous,
        InsertionFailure::AmbiguousTarget { target: InsertionTargetKind::Seat, count: 2 }
    );
    assert_eq!(
        ambiguous.describe(),
        "text insertion target is ambiguous: Wayland seat matched 2 candidates"
    );
}

#[test]
fn connect_failures_name_the_cause() {
    assert_eq!(
        connect_failure(ConnectFailureKind::NoCompositor),
        InsertionFailure::BackendUnavailable { backend: InsertionBackendKind::WaylandInputMethod }
    );
    assert_eq!(
        connect_failure(ConnectFailureKind::InvalidFd).describe(),
        "text insertion backend failed: Wayland input-method: protocol while connecting to backend: WAYLAND_SOCKET is invalid (input-method session state)"
    );
}

#[test]
fn wayland_connect_error_is_classified() {
    let failure = dictate::insertion::wayland::wayland_connect_failure(&wayland_client::ConnectError::NoWaylandLib);
    assert_eq!(
        failure.describe(),
        "text insertion backend failed: Wayland input-method: protocol while connecting to backend: Wayland library could not be loaded (Wayland protocol)"
    );
}

#[test]
fn wayland_progress_restarts_idle_deadline_from_the_reading_it_was_seen_at() {
    let start = Moment::from_nanos(1_000_000_000).unwrap();
    let later = Moment::from_nanos(4_000_000_000).unwrap();
    let mut deadline =
        ProgressDeadline::new_at(TimeSpan::from_secs(10), TimeSpan::from_secs(30), 0, start);
    assert_eq!(deadline.current().instant, Moment::from_nanos(11_000_000_000).unwrap());

    deadline.reset_after_progress_at(0, later);
    assert_eq!(deadline.current().instant, Moment::from_nanos(11_000_000_000).unwrap());

    deadline.reset_after_progress_at(1, later);
    assert_eq!(deadline.current().instant, Moment::from_nanos(14_000_000_000).unwrap());

    let much_later = Moment::from_nanos(25_000_000_000).unwrap();
    deadline.reset_after_write_progress_at(much_later);
    assert_eq!(deadline.current().instant, Moment::from_nanos(31_000_000_000).unwrap());
}

/// Runs the flush loop over scripted answers; returns how it ended and how many
/// flushes and waits it made.
fn run_flush_loop(
    deadline_ahead: bool,
    mut flushes: Vec<Result<(), WaylandFailure>>,
    wait: Result<(), InsertionFailure>,
) -> (FlushLoopEnd, usize, usize) {
    flushes.reverse();
    let mut stage = FlushLoopStage::CheckDeadline;
    let (mut flushed, mut waited) = (0, 0);
    loop {
        let input = match &stage {
            FlushLoopStage::CheckDeadline => FlushLoopInput::DeadlineChecked(deadline_ahead),
            FlushLoopStage::Flush => {
                flushed += 1;
                FlushLoopInput::Flushed(flushes.pop().expect("scripted flush"))
            }
            FlushLoopStage::Wait => {
                waited += 1;
                FlushLoopInput::Waited(wait.clone())
            }
            FlushLoopStage::Ended(end) => return (end.clone(), flushed, waited),
        };
        stage = flush_loop_next(stage, input);
    }
}

#[test]
fn flush_loop_waits_only_for_would_block_and_retries_interrupted_at_once() {
    let would_block = || Err(io_failure(IoErrorKind::WouldBlock, "would block"));
    let interrupted = || Err(io_failure(IoErrorKind::Interrupted, "interrupted"));
    assert_eq!(
        run_flush_loop(true, vec![would_block(), Ok(())], Ok(())),
        (FlushLoopEnd::Flushed, 2, 1)
    );
    assert_eq!(
        run_flush_loop(true, vec![interrupted(), Ok(())], Ok(())),
        (FlushLoopEnd::Flushed, 2, 0)
    );
    let broken = io_failure(IoErrorKind::BrokenPipe, "broken pipe");
    assert_eq!(
        run_flush_loop(true, vec![Err(broken.clone())], Ok(())),
        (FlushLoopEnd::FlushFailed(broken), 1, 0)
    );
    let stop = InsertionFailure::IdleTimedOut { operation: InsertionIoOperation::WaitWritable };
    assert_eq!(
        run_flush_loop(true, vec![would_block()], Err(stop.clone())),
        (FlushLoopEnd::WaitFailed(stop), 1, 1)
    );
    assert_eq!(run_flush_loop(false, vec![], Ok(())), (FlushLoopEnd::TimedOut, 0, 0));
}
