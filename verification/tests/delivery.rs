use dictate::delivery::stdout_outcome;
use dictate::delivery::stdout_report;
use dictate::delivery::text_line;
use dictate::delivery::write_str;
use dictate::delivery::ClipboardFailure;
use dictate::delivery::ConfirmedDeliveryTarget;
use dictate::delivery::Delivery;
use dictate::delivery::DeliveryAttemptFailure;
use dictate::delivery::DeliveryReport;
use dictate::delivery::DeliveryStep;
use dictate::delivery::DeliveryTarget;
use dictate::delivery::TextOutputFailure;
use dictate::insertion::outcome::IoErrorKind;
use dictate::insertion::InsertFailure;
use dictate::insertion::InsertOutcome;

struct FailingWriter;

impl std::io::Write for FailingWriter {
    fn write(&mut self, _buf: &[u8]) -> std::io::Result<usize> {
        Err(std::io::Error::new(std::io::ErrorKind::BrokenPipe, "broken pipe"))
    }

    fn flush(&mut self) -> std::io::Result<()> {
        Ok(())
    }
}

enum FakeInsertionOutcome {
    Success,
    Failure(String),
    Uncertain { sent_bytes: usize, message: String },
}

struct FakeInsertion {
    outcome: FakeInsertionOutcome,
    attempts: Vec<String>,
}

impl FakeInsertion {
    fn success() -> Self {
        Self { outcome: FakeInsertionOutcome::Success, attempts: Vec::new() }
    }

    fn failure(message: &str) -> Self {
        Self { outcome: FakeInsertionOutcome::Failure(message.to_owned()), attempts: Vec::new() }
    }

    fn uncertain(sent_bytes: usize, message: &str) -> Self {
        Self {
            outcome: FakeInsertionOutcome::Uncertain { sent_bytes, message: message.to_owned() },
            attempts: Vec::new(),
        }
    }

    fn insert(&mut self, text: &str) -> InsertOutcome {
        self.attempts.push(text.to_owned());
        match &self.outcome {
            FakeInsertionOutcome::Success => InsertOutcome::SentToInputMethod { sent_bytes: text.len() },
            FakeInsertionOutcome::Failure(message) => {
                InsertOutcome::NotInserted(InsertFailure::ProtocolFailed { message: message.clone() })
            }
            FakeInsertionOutcome::Uncertain { sent_bytes, message } => InsertOutcome::DeliveryUncertain {
                maybe_sent_bytes: *sent_bytes,
                failure: InsertFailure::ProtocolFailed { message: message.clone() },
            },
        }
    }
}

struct FakeClipboard {
    failure: Option<String>,
    copies: Vec<String>,
}

impl FakeClipboard {
    fn success() -> Self {
        Self { failure: None, copies: Vec::new() }
    }

    fn failure(message: &str) -> Self {
        Self { failure: Some(message.to_owned()), copies: Vec::new() }
    }

    fn copy(&mut self, text: &str) -> Result<(), ClipboardFailure> {
        self.copies.push(text.to_owned());
        match &self.failure {
            None => Ok(()),
            Some(message) => Err(ClipboardFailure { message: message.clone() }),
        }
    }
}

/// Runs a delivery, handing each step's text to the fake channel it names.
fn deliver_with_effects(
    target: DeliveryTarget,
    text: &str,
    insertion: &mut FakeInsertion,
    clipboard: &mut FakeClipboard,
    stdout: &mut impl std::io::Write,
) -> DeliveryReport {
    let mut delivery = Delivery::start(target, text);
    loop {
        match delivery.next_step() {
            DeliveryStep::Insert(text) => {
                let outcome = insertion.insert(text);
                delivery.insert_finished(outcome);
            }
            DeliveryStep::CopyToClipboard(text) => {
                let result = clipboard.copy(text);
                delivery.clipboard_finished(result);
            }
            DeliveryStep::WriteStdout(text) => {
                let result = stdout_outcome(write_str(&mut *stdout, &text_line(text)));
                delivery.stdout_finished(result);
            }
            DeliveryStep::Finished => return delivery.into_report(),
        }
    }
}

fn deliver_stdout(stdout: &mut impl std::io::Write, text: &str) -> DeliveryReport {
    stdout_report(text, stdout_outcome(write_str(stdout, &text_line(text))))
}

fn assert_delivered(report: DeliveryReport, expected_target: ConfirmedDeliveryTarget, failures: usize) {
    let DeliveryReport::Delivered { target, preceding_failures } = report else {
        panic!("expected delivered report");
    };
    assert_eq!(target, expected_target);
    assert_eq!(preceding_failures.len(), failures);
}

#[test]
fn write_text_appends_newline() {
    let mut out = Vec::new();

    write_str(&mut out, &text_line("hello")).unwrap();

    assert_eq!(out, b"hello\n");
}

#[test]
fn write_text_surfaces_writer_errors() {
    let error = write_str(FailingWriter, &text_line("hello")).unwrap_err();

    assert_eq!(error.kind(), std::io::ErrorKind::BrokenPipe);
}

#[test]
fn delivery_target_defaults_to_stdout() {
    assert_eq!(DeliveryTarget::default(), DeliveryTarget::Stdout);
}

#[test]
fn delivery_target_clap_values_round_trip() {
    for target in [DeliveryTarget::Stdout, DeliveryTarget::Clipboard, DeliveryTarget::Insert] {
        let value = target.name();

        assert_eq!(DeliveryTarget::from_name(value), Some(target));
    }
    assert_eq!(DeliveryTarget::from_name("bogus"), None);
}

#[test]
fn stdout_delivery_reports_stdout() {
    let mut stdout = Vec::new();

    let report = deliver_stdout(&mut stdout, "hello");

    assert_delivered(report, ConfirmedDeliveryTarget::Stdout, 0);
    assert_eq!(stdout, b"hello\n");
}

#[test]
fn stdout_delivery_reports_writer_failure() {
    let mut stdout = FailingWriter;

    let report = deliver_stdout(&mut stdout, "hello");

    let DeliveryReport::NotDelivered { failures } = report else {
        panic!("expected stdout failure report");
    };
    let failures = failures.iter();
    let [DeliveryAttemptFailure::Stdout(failure)] = failures.as_slice() else {
        panic!("expected stdout failure");
    };
    assert_eq!(failure.kind, IoErrorKind::BrokenPipe);
    assert_eq!(failure.message, "broken pipe");
}

#[test]
fn target_stdout_uses_stdout_without_touching_insert_or_clipboard() {
    let mut insertion = FakeInsertion::success();
    let mut clipboard = FakeClipboard::success();
    let mut stdout = Vec::new();

    let report = deliver_with_effects(
        DeliveryTarget::Stdout,
        "hello",
        &mut insertion,
        &mut clipboard,
        &mut stdout,
    );

    assert_delivered(report, ConfirmedDeliveryTarget::Stdout, 0);
    assert_eq!(stdout, b"hello\n");
    assert!(insertion.attempts.is_empty());
    assert!(clipboard.copies.is_empty());
}

#[test]
fn target_clipboard_uses_clipboard_without_touching_insert() {
    let mut insertion = FakeInsertion::success();
    let mut clipboard = FakeClipboard::success();
    let mut stdout = Vec::new();

    let report = deliver_with_effects(
        DeliveryTarget::Clipboard,
        "hello",
        &mut insertion,
        &mut clipboard,
        &mut stdout,
    );

    assert_delivered(report, ConfirmedDeliveryTarget::Clipboard, 0);
    assert_eq!(clipboard.copies, vec!["hello"]);
    assert!(insertion.attempts.is_empty());
    assert!(stdout.is_empty());
}

#[test]
fn target_insert_uses_insert_then_clipboard_fallback() {
    let mut insertion = FakeInsertion::failure("no text input");
    let mut clipboard = FakeClipboard::success();
    let mut stdout = Vec::new();

    let report = deliver_with_effects(
        DeliveryTarget::Insert,
        "hello",
        &mut insertion,
        &mut clipboard,
        &mut stdout,
    );

    assert_delivered(report, ConfirmedDeliveryTarget::Clipboard, 1);
    assert_eq!(insertion.attempts, vec!["hello"]);
    assert_eq!(clipboard.copies, vec!["hello"]);
    assert!(stdout.is_empty());
}

#[test]
fn clipboard_delivery_success_reports_clipboard() {
    let mut insertion = FakeInsertion::success();
    let mut clipboard = FakeClipboard::success();
    let mut stdout = Vec::new();

    let report = deliver_with_effects(
        DeliveryTarget::Clipboard,
        "hello",
        &mut insertion,
        &mut clipboard,
        &mut stdout,
    );

    assert_delivered(report, ConfirmedDeliveryTarget::Clipboard, 0);
    assert_eq!(clipboard.copies, vec!["hello"]);
    assert!(stdout.is_empty());
}

#[test]
fn clipboard_delivery_failure_reports_stdout_fallback() {
    let mut insertion = FakeInsertion::success();
    let mut clipboard = FakeClipboard::failure("copy denied");
    let mut stdout = Vec::new();

    let report = deliver_with_effects(
        DeliveryTarget::Clipboard,
        "hello",
        &mut insertion,
        &mut clipboard,
        &mut stdout,
    );

    let DeliveryReport::Delivered { target, preceding_failures } = report else {
        panic!("expected fallback delivery report");
    };
    assert_eq!(target, ConfirmedDeliveryTarget::Stdout);
    let [DeliveryAttemptFailure::Clipboard(failure)] = preceding_failures.as_slice() else {
        panic!("expected clipboard failure");
    };
    assert_eq!(failure.message, "copy denied");
    assert_eq!(clipboard.copies, vec!["hello"]);
    assert_eq!(stdout, b"hello\n");
}

#[test]
fn clipboard_delivery_failure_reports_stdout_write_failure() {
    let mut insertion = FakeInsertion::success();
    let mut clipboard = FakeClipboard::failure("copy denied");

    let report = deliver_with_effects(
        DeliveryTarget::Clipboard,
        "hello",
        &mut insertion,
        &mut clipboard,
        &mut FailingWriter,
    );

    let DeliveryReport::NotDelivered { failures } = report else {
        panic!("expected clipboard and stdout failure report");
    };
    let failures = failures.iter();
    let [DeliveryAttemptFailure::Clipboard(clipboard_failure), DeliveryAttemptFailure::Stdout(stdout)] =
        failures.as_slice()
    else {
        panic!("expected clipboard and stdout failures");
    };
    assert_eq!(clipboard_failure.message, "copy denied");
    assert_eq!(stdout.kind, IoErrorKind::BrokenPipe);
    assert_eq!(stdout.message, "broken pipe");
    assert_eq!(clipboard.copies, vec!["hello"]);
}

#[test]
fn insert_delivery_success_reports_insert() {
    let mut insertion = FakeInsertion::success();
    let mut clipboard = FakeClipboard::success();
    let mut stdout = Vec::new();

    let report = deliver_with_effects(
        DeliveryTarget::Insert,
        "hello",
        &mut insertion,
        &mut clipboard,
        &mut stdout,
    );

    let DeliveryReport::InsertRequestSent { sent_bytes } = report else {
        panic!("expected input-method request report");
    };
    assert_eq!(sent_bytes, "hello".len());
    assert_eq!(insertion.attempts, vec!["hello"]);
    assert!(clipboard.copies.is_empty());
    assert!(stdout.is_empty());
}

#[test]
fn insert_delivery_failure_reports_clipboard_fallback() {
    let mut insertion = FakeInsertion::failure("no text input");
    let mut clipboard = FakeClipboard::success();
    let mut stdout = Vec::new();

    let report = deliver_with_effects(
        DeliveryTarget::Insert,
        "hello",
        &mut insertion,
        &mut clipboard,
        &mut stdout,
    );

    let DeliveryReport::Delivered { target, preceding_failures } = report else {
        panic!("expected insert fallback to clipboard");
    };
    assert_eq!(target, ConfirmedDeliveryTarget::Clipboard);
    let [DeliveryAttemptFailure::Insert(insert_failure)] = preceding_failures.as_slice() else {
        panic!("expected insert failure");
    };
    assert_eq!(insert_failure.describe(), "Wayland text insertion failed: no text input");
    assert_eq!(insertion.attempts, vec!["hello"]);
    assert_eq!(clipboard.copies, vec!["hello"]);
    assert!(stdout.is_empty());
}

#[test]
fn insert_and_clipboard_failure_reports_stdout_fallback() {
    let mut insertion = FakeInsertion::failure("no text input");
    let mut clipboard = FakeClipboard::failure("copy denied");
    let mut stdout = Vec::new();

    let report = deliver_with_effects(
        DeliveryTarget::Insert,
        "hello",
        &mut insertion,
        &mut clipboard,
        &mut stdout,
    );

    let DeliveryReport::Delivered { target, preceding_failures } = report else {
        panic!("expected insert and clipboard fallback to stdout");
    };
    assert_eq!(target, ConfirmedDeliveryTarget::Stdout);
    let [DeliveryAttemptFailure::Insert(insert_failure), DeliveryAttemptFailure::Clipboard(clipboard_failure)] =
        preceding_failures.as_slice()
    else {
        panic!("expected insert and clipboard failures");
    };
    assert_eq!(insert_failure.describe(), "Wayland text insertion failed: no text input");
    assert_eq!(clipboard_failure.describe(), "failed to copy text to clipboard: copy denied");
    assert_eq!(insertion.attempts, vec!["hello"]);
    assert_eq!(clipboard.copies, vec!["hello"]);
    assert_eq!(stdout, b"hello\n");
}

#[test]
fn insert_clipboard_and_stdout_failure_reports_not_delivered() {
    let mut insertion = FakeInsertion::failure("no text input");
    let mut clipboard = FakeClipboard::failure("copy denied");

    let report = deliver_with_effects(
        DeliveryTarget::Insert,
        "hello",
        &mut insertion,
        &mut clipboard,
        &mut FailingWriter,
    );

    let DeliveryReport::NotDelivered { failures } = report else {
        panic!("expected insert clipboard and stdout failure report");
    };
    let failures = failures.iter();
    let [
        DeliveryAttemptFailure::Insert(insert_failure),
        DeliveryAttemptFailure::Clipboard(clipboard_failure),
        DeliveryAttemptFailure::Stdout(stdout),
    ] = failures.as_slice()
    else {
        panic!("expected insert clipboard and stdout failures");
    };
    assert_eq!(insert_failure.describe(), "Wayland text insertion failed: no text input");
    assert_eq!(clipboard_failure.message, "copy denied");
    assert_eq!(stdout.kind, IoErrorKind::BrokenPipe);
    assert_eq!(stdout.message, "broken pipe");
    assert_eq!(stdout.describe(), "broken pipe (BrokenPipe)");
    assert_eq!(insertion.attempts, vec!["hello"]);
    assert_eq!(clipboard.copies, vec!["hello"]);
}

#[test]
fn uncertain_insert_failure_skips_fallback_to_avoid_duplicate_text() {
    let mut insertion = FakeInsertion::uncertain(5, "second chunk timed out");
    let mut clipboard = FakeClipboard::success();
    let mut stdout = Vec::new();

    let report = deliver_with_effects(
        DeliveryTarget::Insert,
        "hello world",
        &mut insertion,
        &mut clipboard,
        &mut stdout,
    );

    let DeliveryReport::InsertUncertain { maybe_sent_bytes, failure } = report else {
        panic!("expected uncertain insert report");
    };
    assert_eq!(maybe_sent_bytes, 5);
    assert_eq!(failure.describe(), "Wayland text insertion failed: second chunk timed out");
    assert_eq!(insertion.attempts, vec!["hello world"]);
    assert!(clipboard.copies.is_empty());
    assert!(stdout.is_empty());
}

#[test]
fn each_step_hands_on_the_delivery_text() {
    let mut delivery = Delivery::start(DeliveryTarget::Insert, "héllo");
    assert_eq!(delivery.next_step(), DeliveryStep::Insert("héllo"));
    delivery.insert_finished(InsertOutcome::NotInserted(InsertFailure::ProtocolFailed {
        message: "no text input".to_owned(),
    }));
    assert_eq!(delivery.next_step(), DeliveryStep::CopyToClipboard("héllo"));
    delivery.clipboard_finished(Err(ClipboardFailure { message: "copy denied".to_owned() }));
    assert_eq!(delivery.next_step(), DeliveryStep::WriteStdout("héllo"));
    delivery.stdout_finished(Ok(()));
    assert_eq!(delivery.next_step(), DeliveryStep::Finished);
}

#[test]
fn text_line_ends_with_one_newline() {
    assert_eq!(text_line("hello"), "hello\n");
    assert_eq!(text_line(""), "\n");
}

#[test]
fn text_output_failure_from_io_keeps_kind_and_message() {
    let failure = TextOutputFailure::from_io(std::io::Error::new(std::io::ErrorKind::BrokenPipe, "broken pipe"));
    assert_eq!(failure.kind, IoErrorKind::BrokenPipe);
    assert_eq!(failure.message, "broken pipe");
}
