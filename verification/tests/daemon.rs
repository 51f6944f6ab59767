use std::sync::Arc;

use dictate::daemon::begin_outcome;
use dictate::daemon::classify_insert_focus;
use dictate::daemon::delivery_log_line;
use dictate::daemon::overlay_action;
use dictate::daemon::paste_plan;
use dictate::daemon::record_request;
use dictate::daemon::record_response;
use dictate::daemon::DaemonRequest;
use dictate::daemon::OverlayAction;
use dictate::daemon::PastePlan;
use dictate::daemon::RecordResponse;
use dictate::dictation::DictationCommand;
use dictate::dictation::DictationPhase;
use dictate::dictation::DictationUpdate;
use dictate::daemon::delivery_overlay_state;
use dictate::daemon::describe_delivery_failures;
use dictate::daemon::guard_insert_target;
use dictate::daemon::mic_session_action;
use dictate::daemon::Backoff;
use dictate::daemon::InsertFocusGuard;
use dictate::daemon::LastTranscript;
use dictate::daemon::MicSessionAction;
use dictate::daemon::OverlayState;
use dictate::daemon::RecordingId;
use dictate::delivery::ClipboardFailure;
use dictate::delivery::ConfirmedDeliveryTarget;
use dictate::delivery::DeliveryAttemptFailure;
use dictate::delivery::DeliveryReport;
use dictate::delivery::DeliveryTarget;
use dictate::delivery::TextOutputFailure;
use dictate::focus::FocusObservation;
use dictate::focus::FocusSnapshot;
use dictate::focus::FocusedWindow;
use dictate::insertion::outcome::IoErrorKind;
use dictate::insertion::InsertFailure;
use dictate::time::TimeSpan;

#[test]
fn last_transcript_replaces_the_recoverable_value_atomically() {
    let mut store = LastTranscript::default();
    let first = "first dictation".to_owned();
    let second = "second dictation".to_owned();

    let first = store.replace(first);
    assert!(Arc::ptr_eq(&store.get().expect("first transcript should be retained"), &first));

    let second = store.replace(second);
    let retained = store.get().expect("second transcript should be retained");
    assert!(Arc::ptr_eq(&retained, &second));
    assert!(!Arc::ptr_eq(&retained, &first));
}

#[test]
fn insert_guard_accepts_same_window_id_after_title_change() {
    let stopped = FocusSnapshot::Focused(FocusedWindow::test_niri(1, 7, "dev.editor", "old title"));
    let current = FocusObservation::Focused(FocusedWindow::test_niri(1, 7, "dev.editor", "new title"));

    let (target, guard) = classify_insert_focus(&stopped, current);

    assert_eq!(target, DeliveryTarget::Insert);
    assert!(matches!(guard, Some(InsertFocusGuard::Verified { .. })));
}

#[test]
fn insert_guard_uses_clipboard_when_window_id_changes() {
    let stopped = FocusSnapshot::Focused(FocusedWindow::test_niri(1, 7, "dev.editor", "README.md"));
    let current = FocusObservation::Focused(FocusedWindow::test_niri(1, 8, "dev.terminal", "Terminal"));

    let (target, guard) = classify_insert_focus(&stopped, current);

    assert_eq!(target, DeliveryTarget::Clipboard);
    assert!(matches!(guard, Some(InsertFocusGuard::Changed { .. })));
}

#[test]
fn insert_guard_uses_clipboard_when_compositor_instance_changes() {
    let stopped = FocusSnapshot::Focused(FocusedWindow::test_niri(1, 7, "dev.editor", "README.md"));
    let current = FocusObservation::Focused(FocusedWindow::test_niri(2, 7, "dev.editor", "README.md"));

    let (target, guard) = classify_insert_focus(&stopped, current);

    assert_eq!(target, DeliveryTarget::Clipboard);
    assert!(matches!(guard, Some(InsertFocusGuard::Changed { .. })));
}

#[test]
fn insert_guard_uses_clipboard_when_either_snapshot_is_unavailable() {
    let current = FocusObservation::Focused(FocusedWindow::test_niri(1, 7, "dev.editor", "README.md"));
    let (target, guard) = classify_insert_focus(&FocusSnapshot::Unavailable, current);
    assert_eq!(target, DeliveryTarget::Clipboard);
    assert!(matches!(guard, Some(InsertFocusGuard::Unverifiable { .. })));

    let stopped = FocusSnapshot::Focused(FocusedWindow::test_niri(1, 7, "dev.editor", "README.md"));
    let (target, guard) = classify_insert_focus(&stopped, FocusObservation::UnsupportedSession);
    assert_eq!(target, DeliveryTarget::Clipboard);
    assert!(matches!(guard, Some(InsertFocusGuard::Unverifiable { .. })));
}

#[test]
fn guard_only_observes_focus_for_insert() {
    let stopped = FocusSnapshot::Focused(FocusedWindow::test_niri(1, 7, "dev.editor", "README.md"));
    let mut observed = 0;
    let (target, guard) = guard_insert_target(DeliveryTarget::Clipboard, &stopped, || {
        observed += 1;
        FocusObservation::UnsupportedSession
    });
    assert_eq!(target, DeliveryTarget::Clipboard);
    assert!(guard.is_none());
    assert_eq!(observed, 0);

    let (target, guard) = guard_insert_target(DeliveryTarget::Insert, &stopped, || {
        FocusObservation::Focused(FocusedWindow::test_niri(1, 7, "dev.editor", "README.md"))
    });
    assert_eq!(target, DeliveryTarget::Insert);
    assert!(matches!(guard, Some(InsertFocusGuard::Verified { .. })));
}

#[test]
fn delivery_outcome_chooses_an_accurate_overlay_state() {
    let clipboard = DeliveryReport::Delivered {
        target: ConfirmedDeliveryTarget::Clipboard,
        preceding_failures: Vec::new(),
    };
    assert_eq!(
        delivery_overlay_state(DeliveryTarget::Insert, &clipboard),
        Some(OverlayState::PendingTranscript)
    );
    assert_eq!(delivery_overlay_state(DeliveryTarget::Clipboard, &clipboard), None);

    let stdout_fallback = DeliveryReport::Delivered {
        target: ConfirmedDeliveryTarget::Stdout,
        preceding_failures: Vec::new(),
    };
    assert_eq!(
        delivery_overlay_state(DeliveryTarget::Insert, &stdout_fallback),
        Some(OverlayState::DeliveryFailed)
    );

    let submitted = DeliveryReport::InsertRequestSent { sent_bytes: 12 };
    assert_eq!(
        delivery_overlay_state(DeliveryTarget::Insert, &submitted),
        Some(OverlayState::InsertSubmitted)
    );
}

#[test]
fn clipboard_fallback_to_stdout_shows_failure() {
    let report = DeliveryReport::Delivered {
        target: ConfirmedDeliveryTarget::Stdout,
        preceding_failures: vec![DeliveryAttemptFailure::Clipboard(ClipboardFailure {
            message: "copy denied".to_owned(),
        })],
    };
    assert_eq!(
        delivery_overlay_state(DeliveryTarget::Clipboard, &report),
        Some(OverlayState::DeliveryFailed)
    );
    assert_eq!(delivery_overlay_state(DeliveryTarget::Stdout, &report), None);
}

#[test]
fn delivery_failures_are_joined_in_order() {
    let insert = DeliveryAttemptFailure::Insert(InsertFailure::ProtocolFailed {
        message: "no text input".to_owned(),
    });
    let clipboard = DeliveryAttemptFailure::Clipboard(ClipboardFailure { message: "copy denied".to_owned() });
    let stdout = DeliveryAttemptFailure::Stdout(TextOutputFailure {
        kind: IoErrorKind::BrokenPipe,
        message: "broken pipe".to_owned(),
    });

    assert_eq!(
        describe_delivery_failures(&[&insert, &clipboard, &stdout]),
        "insert failed: Wayland text insertion failed: no text input; clipboard failed: failed to copy text to clipboard: copy denied; stdout failed: broken pipe (BrokenPipe)"
    );
    assert_eq!(describe_delivery_failures(&[]), "");
}

#[test]
fn mic_session_action_tracks_recording_identity() {
    let first = RecordingId::new(1);
    let second = RecordingId::new(2);

    assert_eq!(mic_session_action(Some(first), None), MicSessionAction::Open);
    assert_eq!(mic_session_action(Some(first), Some(first)), MicSessionAction::Keep);
    assert_eq!(mic_session_action(Some(second), Some(first)), MicSessionAction::Close);
    assert_eq!(mic_session_action(None, Some(first)), MicSessionAction::Close);
    assert_eq!(mic_session_action(None, None), MicSessionAction::Keep);
}

#[test]
fn backoff_doubles_to_cap() {
    let mut backoff = Backoff::new();

    assert_eq!(backoff.next(), TimeSpan::from_millis(50));
    assert_eq!(backoff.next(), TimeSpan::from_millis(100));
    assert_eq!(backoff.next(), TimeSpan::from_millis(200));
    assert_eq!(backoff.next(), TimeSpan::from_millis(400));
    assert_eq!(backoff.next(), TimeSpan::from_millis(800));
    assert_eq!(backoff.next(), TimeSpan::from_millis(1600));
    assert_eq!(backoff.next(), TimeSpan::from_millis(3200));
    assert_eq!(backoff.next(), TimeSpan::from_secs(5));
    assert_eq!(backoff.next(), TimeSpan::from_secs(5));
}

#[test]
fn backoff_reset_returns_to_base() {
    let mut backoff = Backoff::new();
    let _ = backoff.next();
    let _ = backoff.next();

    backoff.reset();

    assert_eq!(backoff.next(), TimeSpan::from_millis(50));
}

#[test]
fn overlay_labels_and_brevity() {
    assert_eq!(OverlayState::NothingToPaste.accessible_label(), "No retained transcript");
    assert!(OverlayState::InsertSubmitted.is_brief());
    assert!(!OverlayState::DeliveryFailed.is_brief());
}

#[test]
fn brief_states_flash_and_others_stay() {
    assert_eq!(
        overlay_action(Some(OverlayState::InsertSubmitted)),
        OverlayAction::ShowBriefly(OverlayState::InsertSubmitted)
    );
    assert_eq!(
        overlay_action(Some(OverlayState::DeliveryFailed)),
        OverlayAction::Show(OverlayState::DeliveryFailed)
    );
    assert_eq!(overlay_action(None), OverlayAction::Hide);
}

#[test]
fn delivery_log_lines_describe_each_outcome() {
    let plain = DeliveryReport::Delivered {
        target: ConfirmedDeliveryTarget::Stdout,
        preceding_failures: Vec::new(),
    };
    assert_eq!(delivery_log_line(&plain, "hello"), None);

    let clipboard = DeliveryReport::Delivered {
        target: ConfirmedDeliveryTarget::Clipboard,
        preceding_failures: Vec::new(),
    };
    assert_eq!(
        delivery_log_line(&clipboard, "héllo").as_deref(),
        Some("dictation copied to clipboard (5 chars)")
    );

    let after_insert = DeliveryReport::Delivered {
        target: ConfirmedDeliveryTarget::Clipboard,
        preceding_failures: vec![DeliveryAttemptFailure::Insert(InsertFailure::SeatUnavailable)],
    };
    assert_eq!(
        delivery_log_line(&after_insert, "hi").as_deref(),
        Some("dictation copied to clipboard after insert failed: Wayland seat is unavailable (2 chars)")
    );

    let sent = DeliveryReport::InsertRequestSent { sent_bytes: 12 };
    assert_eq!(
        delivery_log_line(&sent, "ignored").as_deref(),
        Some("dictation sent to Wayland input method (12 bytes); focused app insertion is not confirmed")
    );
}

#[test]
fn stop_commands_carry_the_focus_at_send_time() {
    let window = FocusedWindow::test_niri(7, 3, "app", "title");
    let request = record_request(DictationCommand::Toggle, || FocusSnapshot::Focused(window.clone()));
    assert_eq!(
        request,
        DaemonRequest::Record {
            command: DictationCommand::Toggle,
            stop_focus: FocusSnapshot::Focused(window)
        }
    );
    let request = record_request(DictationCommand::Start, || panic!("start takes no snapshot"));
    assert_eq!(
        request,
        DaemonRequest::Record {
            command: DictationCommand::Start,
            stop_focus: FocusSnapshot::Unavailable
        }
    );
}

#[test]
fn record_answers_map_to_overlay_and_log() {
    assert_eq!(record_response(DictationUpdate::Started), RecordResponse::BeginRecording);
    assert_eq!(record_response(DictationUpdate::Stopped), RecordResponse::BeginStopping);
    assert_eq!(
        record_response(DictationUpdate::Cancelled),
        RecordResponse::HideAndLog("dictation cancelled".to_owned())
    );
    assert_eq!(
        record_response(DictationUpdate::Busy(DictationPhase::Transcribing)),
        RecordResponse::Log("cannot change recording while Transcribing…".to_owned())
    );
    assert_eq!(
        record_response(DictationUpdate::Busy(DictationPhase::Unavailable)),
        RecordResponse::Log("transcription is unavailable; restart `dictate daemon`".to_owned())
    );
    assert_eq!(
        record_response(DictationUpdate::Ignored("not recording")),
        RecordResponse::Log("record command ignored: not recording".to_owned())
    );
    assert_eq!(begin_outcome(false, true), (false, "opening microphone for dictation"));
    assert_eq!(
        begin_outcome(true, false),
        (true, "recording stop was superseded before microphone drain")
    );
}

#[test]
fn paste_needs_an_idle_dictation_and_a_transcript() {
    assert_eq!(paste_plan(DictationPhase::Idle, true), PastePlan::Deliver);
    assert_eq!(paste_plan(DictationPhase::Idle, false), PastePlan::NothingToPaste);
    assert_eq!(
        paste_plan(DictationPhase::Recording, true),
        PastePlan::Refuse("cannot paste completed dictation while Recording…".to_owned())
    );
}
