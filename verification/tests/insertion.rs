use dictate::insertion::commit_string_chunks;
use dictate::insertion::DoneAction;
use dictate::insertion::InputMethodEvent;
use dictate::insertion::InputMethodSession;
use dictate::insertion::InsertFailure;
use dictate::insertion::InsertOutcome;
use dictate::insertion::ProgressDeadline;
use dictate::insertion::State;
use dictate::insertion::MAX_COMMIT_STRING_BYTES;
use dictate::time::now;
use dictate::time::Moment;
use dictate::time::TimeSpan;

#[test]
fn insertion_commit_chunks_stay_under_wayland_limit() {
    let text = "x".repeat(MAX_COMMIT_STRING_BYTES + 1);
    let chunks = commit_string_chunks(&text);

    assert_eq!(chunks.len(), 2);
    assert_eq!(chunks.concat(), text);
    assert!(chunks.iter().all(|chunk| chunk.len() <= MAX_COMMIT_STRING_BYTES));
}

#[test]
fn insertion_commit_chunks_preserve_utf8_boundaries() {
    let text = format!("{}é", "x".repeat(MAX_COMMIT_STRING_BYTES - 1));
    let chunks = commit_string_chunks(&text);

    assert_eq!(chunks.concat(), text);
    assert_eq!(chunks[0].len(), MAX_COMMIT_STRING_BYTES - 1);
    assert_eq!(chunks[1], "é");
}

#[test]
fn empty_text_is_one_empty_commit_chunk() {
    assert_eq!(commit_string_chunks(""), vec![String::new()]);
}

#[test]
fn four_byte_characters_never_straddle_a_chunk() {
    let text = "😀".repeat(1001);
    let chunks = commit_string_chunks(&text);

    assert_eq!(chunks.len(), 2);
    assert_eq!(chunks[0].len(), 4000);
    assert_eq!(chunks[1], "😀");
    assert_eq!(chunks.concat(), text);
}

#[test]
fn insertion_final_chunk_request_is_sent_after_flush() {
    let mut session = InputMethodSession::default();

    session.activate();
    let first = session.done();
    session.commit_sent();

    assert_eq!(first, DoneAction::CommitChunks { serial: 1 });
    assert_eq!(session, InputMethodSession::SentToInputMethod);
    assert!(session.is_finished());
}

#[test]
fn insertion_one_done_serial_can_send_all_chunks() {
    let mut state = State::new(vec!["hello".to_owned(), " world".to_owned()]);

    state.handle_input_method_event(InputMethodEvent::Activate);
    let requests = state.handle_input_method_event(InputMethodEvent::Done);

    assert_eq!(requests.len(), 2);
    assert!(requests.iter().all(|request| request.serial == 1));
    assert_eq!(requests[0].chunk, "hello");
    assert_eq!(requests[1].chunk, " world");
}

#[test]
fn insertion_progress_deadline_resets_after_each_protocol_step_without_extending_attempt() {
    let timeout = TimeSpan::from_secs(10);
    let attempt_timeout = TimeSpan::from_secs(30);
    let now = now();
    let mut deadline = ProgressDeadline::new_at(timeout, attempt_timeout, 0, now);
    let initial = deadline.current();

    deadline.reset_after_progress(0);
    assert_eq!(deadline.current(), initial);

    deadline.reset_after_progress(1);
    assert!(deadline.current() >= initial);
    assert!(deadline.current() <= now.add(attempt_timeout));
}

#[test]
fn insertion_progress_deadline_reports_overall_attempt_timeout() {
    let timeout = TimeSpan::from_millis(1);
    let now = now().checked_sub(TimeSpan::from_secs(1)).unwrap_or_else(now);
    let deadline = ProgressDeadline::new_at(timeout, timeout, 0, now);

    assert!(matches!(
        deadline.classify_timeout(InsertFailure::ProtocolIdleTimedOut),
        InsertFailure::ProtocolAttemptTimedOut
    ));
}

#[test]
fn insertion_unavailable_finishes_without_commit() {
    let mut session = InputMethodSession::default();

    session.unavailable();

    assert_eq!(session, InputMethodSession::Unavailable);
    assert!(session.is_finished());
}

#[test]
fn insertion_event_driver_reports_unavailable_before_bytes_as_not_inserted() {
    let mut state = State::new(vec!["hello".to_owned()]);

    state.handle_input_method_event(InputMethodEvent::Unavailable);

    assert!(matches!(
        state.failure_outcome(InsertFailure::InputMethodRejected),
        InsertOutcome::NotInserted(InsertFailure::InputMethodRejected)
    ));
}

#[test]
fn insertion_event_driver_reports_first_flush_failure_as_uncertain_after_request_is_queued() {
    let mut state = State::new(vec!["hello".to_owned()]);

    state.handle_input_method_event(InputMethodEvent::Activate);
    let requests = state.handle_input_method_event(InputMethodEvent::Done);
    assert_eq!(requests.len(), 1);
    state.mark_chunk_maybe_sent(requests[0].sent_bytes());
    state.handle_input_method_event(InputMethodEvent::ProtocolFailed("flush failed".to_owned()));

    let InsertOutcome::DeliveryUncertain { maybe_sent_bytes, failure } =
        state.failure_outcome(InsertFailure::ProtocolFailed { message: "flush failed".to_owned() })
    else {
        panic!("expected uncertain insertion after queueing commit request");
    };
    assert_eq!(maybe_sent_bytes, "hello".len());
    assert_eq!(failure.describe(), "Wayland text insertion failed: flush failed");
}

#[test]
fn insertion_event_driver_reports_failure_after_flushed_chunk_as_uncertain() {
    let mut state = State::new(vec!["hello".to_owned(), " world".to_owned()]);

    state.handle_input_method_event(InputMethodEvent::Activate);
    let mut requests = state.handle_input_method_event(InputMethodEvent::Done);
    let request = requests.remove(0);
    assert_eq!(request.serial, 1);
    assert_eq!(request.chunk, "hello");
    state.mark_chunk_maybe_sent(request.sent_bytes());
    state.commit_flushed(request.sent_bytes());
    state.handle_input_method_event(InputMethodEvent::ProtocolFailed("lost compositor".to_owned()));

    let InsertOutcome::DeliveryUncertain { maybe_sent_bytes, failure } = state.failure_outcome(
        InsertFailure::ProtocolFailed { message: "lost compositor".to_owned() },
    ) else {
        panic!("expected uncertain insertion outcome");
    };
    assert_eq!(maybe_sent_bytes, "hello".len());
    assert_eq!(failure.describe(), "Wayland text insertion failed: lost compositor");
}

#[test]
fn insertion_event_driver_reports_timeout_before_bytes_as_not_inserted() {
    let state = State::new(vec!["hello".to_owned()]);

    assert!(matches!(
        state.failure_outcome(InsertFailure::ProtocolIdleTimedOut),
        InsertOutcome::NotInserted(InsertFailure::ProtocolIdleTimedOut)
    ));
}

#[test]
fn insertion_missing_registry_parts_are_fallback_safe_before_bytes() {
    let state = State::new(vec!["hello".to_owned()]);

    assert!(matches!(
        state.failure_outcome(InsertFailure::InputMethodManagerUnavailable),
        InsertOutcome::NotInserted(InsertFailure::InputMethodManagerUnavailable)
    ));
    assert!(matches!(
        state.failure_outcome(InsertFailure::SeatUnavailable),
        InsertOutcome::NotInserted(InsertFailure::SeatUnavailable)
    ));
}

#[test]
fn insertion_deactivate_before_done_does_not_commit() {
    let mut session = InputMethodSession::default();

    session.activate();
    session.deactivate();
    let action = session.done();

    assert_eq!(action, DoneAction::Ignore);
    assert_eq!(session, InputMethodSession::WaitingInactive { serial: 1 });
    assert!(!session.is_finished());
}

#[test]
fn protocol_failure_wins_before_commit_sequence_is_sent() {
    let mut session = InputMethodSession::default();

    session.activate();
    assert_eq!(session.done(), DoneAction::CommitChunks { serial: 1 });
    session.protocol_failed("flush failed".to_owned());

    assert_eq!(session, InputMethodSession::Failed("flush failed".to_owned()));
    assert!(session.is_finished());
}

#[test]
fn insertion_unavailable_after_sent_does_not_reclassify_success() {
    let mut session = InputMethodSession::default();

    session.activate();
    assert_eq!(session.done(), DoneAction::CommitChunks { serial: 1 });
    session.commit_sent();
    session.unavailable();

    assert_eq!(session, InputMethodSession::SentToInputMethod);
}

#[test]
fn unavailable_after_failed_does_not_hide_protocol_failure() {
    let mut session = InputMethodSession::default();

    session.protocol_failed("dispatch failed".to_owned());
    session.unavailable();

    assert_eq!(session, InputMethodSession::Failed("dispatch failed".to_owned()));
}

#[test]
fn done_without_pending_chunks_fails_the_session() {
    let mut state = State::new(vec!["hello".to_owned()]);
    state.handle_input_method_event(InputMethodEvent::Activate);
    let first = state.handle_input_method_event(InputMethodEvent::Done);
    assert_eq!(first.len(), 1);
    let mut empty = State::new(Vec::new());
    empty.handle_input_method_event(InputMethodEvent::Activate);
    let requests = empty.handle_input_method_event(InputMethodEvent::Done);

    assert!(requests.is_empty());
    assert_eq!(
        empty.session(),
        &InputMethodSession::Failed("missing queued insertion chunk".to_owned())
    );
}

#[test]
fn finished_outcome_reports_sent_bytes_and_failures() {
    let mut state = State::new(vec!["hello".to_owned()]);
    state.handle_input_method_event(InputMethodEvent::Activate);
    let requests = state.handle_input_method_event(InputMethodEvent::Done);
    state.mark_chunk_maybe_sent(requests[0].sent_bytes());
    state.commit_flushed(requests[0].sent_bytes());
    state.commit_sequence_flushed();
    assert_eq!(state.finished_outcome(), InsertOutcome::SentToInputMethod { sent_bytes: 5 });

    let waiting = State::new(vec!["hello".to_owned()]);
    assert_eq!(
        waiting.finished_outcome(),
        InsertOutcome::NotInserted(InsertFailure::ProtocolIdleTimedOut)
    );
}

#[test]
fn insert_failure_messages_match_their_kind() {
    assert_eq!(
        InsertFailure::NoWaylandDisplay { message: "no socket".to_owned() }.describe(),
        "Wayland text insertion is unavailable: no socket"
    );
    assert_eq!(
        InsertFailure::ProtocolAttemptTimedOut.describe(),
        "Wayland text insertion exceeded the protocol attempt timeout"
    );
}

#[test]
fn insertion_progress_restarts_idle_deadline_from_the_reading_it_was_seen_at() {
    let start = Moment::from_nanos(1_000_000_000).unwrap();
    let later = Moment::from_nanos(4_000_000_000).unwrap();
    let mut deadline =
        ProgressDeadline::new_at(TimeSpan::from_secs(10), TimeSpan::from_secs(30), 0, start);
    assert_eq!(deadline.current(), Moment::from_nanos(11_000_000_000).unwrap());

    deadline.reset_after_progress_at(0, later);
    assert_eq!(deadline.current(), Moment::from_nanos(11_000_000_000).unwrap());

    deadline.reset_after_progress_at(1, later);
    assert_eq!(deadline.current(), Moment::from_nanos(14_000_000_000).unwrap());

    let much_later = Moment::from_nanos(25_000_000_000).unwrap();
    deadline.reset_after_progress_at(2, much_later);
    assert_eq!(deadline.current(), Moment::from_nanos(31_000_000_000).unwrap());
}
