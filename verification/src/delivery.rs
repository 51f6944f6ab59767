//! Where a finished dictation goes: insertion through the input method with the
//! clipboard and then stdout as fallbacks, the clipboard with stdout as fallback, or
//! stdout alone. The delivery is a sequence of steps: this module decides each next
//! step from the results of the earlier ones, and the caller performs it.
use vstd::prelude::*;
use vstd::string::StringExecFns;
use crate::insertion::InsertFailure;
use crate::insertion::InsertOutcome;
use crate::insertion::outcome::IoErrorKind;
use crate::strings::str_eq;

verus! {

/// Where dictation is delivered.
#[derive(Clone, Copy, Debug, PartialEq, Eq, Structural)]
pub enum DeliveryTarget {
    Stdout,
    Clipboard,
    Insert,
}

impl Default for DeliveryTarget {
    fn default() -> (r: DeliveryTarget)
        ensures
            r == DeliveryTarget::Stdout,
    {
        DeliveryTarget::Stdout
    }
}

/// The name that selects a target on the command line and in settings.
pub open spec fn spec_target_name(target: DeliveryTarget) -> Seq<char> {
    match target {
        DeliveryTarget::Stdout => "stdout"@,
        DeliveryTarget::Clipboard => "clipboard"@,
        DeliveryTarget::Insert => "insert"@,
    }
}

impl DeliveryTarget {
    /// The name that selects the target.
    pub fn name(self) -> (r: &'static str)
        ensures
            r@ == spec_target_name(self),
    {
        match self {
            DeliveryTarget::Stdout => "stdout",
            DeliveryTarget::Clipboard => "clipboard",
            DeliveryTarget::Insert => "insert",
        }
    }

    /// The target that `name` selects.
    pub fn from_name(name: &str) -> (r: Option<DeliveryTarget>)
        ensures
            r matches Some(t) ==> spec_target_name(t) == name@,
            r is None ==> forall|t: DeliveryTarget| spec_target_name(t) != name@,
    {
        if str_eq(name, "stdout") {
            Some(DeliveryTarget::Stdout)
        } else if str_eq(name, "clipboard") {
            Some(DeliveryTarget::Clipboard)
        } else if str_eq(name, "insert") {
            Some(DeliveryTarget::Insert)
        } else {
            None
        }
    }
}

/// A target whose delivery is confirmed.
#[derive(Clone, Copy, Debug, PartialEq, Eq, Structural)]
pub enum ConfirmedDeliveryTarget {
    Stdout,
    Clipboard,
}

/// Copying to the clipboard failed; `message` is how the cause prints.
#[derive(Clone, Debug, PartialEq, Eq)]
pub struct ClipboardFailure {
    pub message: String,
}

impl ClipboardFailure {
    pub open spec fn spec_describe(self) -> Seq<char> {
        "failed to copy text to clipboard: "@ + self.message@
    }

    pub fn describe(&self) -> (r: String)
        ensures
            r@ == self.spec_describe(),
    {
        let mut out = String::from_str("failed to copy text to clipboard: ");
        out.append(self.message.as_str());
        out
    }
}

/// Writing to stdout failed.
#[derive(Clone, Debug, PartialEq, Eq)]
pub struct TextOutputFailure {
    pub kind: IoErrorKind,
    pub message: String,
}

impl TextOutputFailure {
    pub open spec fn spec_describe(self) -> Seq<char> {
        self.message@ + " ("@ + self.kind.spec_name() + ")"@
    }

    pub fn describe(&self) -> (r: String)
        ensures
            r@ == self.spec_describe(),
    {
        let mut out = String::from_str(self.message.as_str());
        out.append(" (");
        out.append(self.kind.name().as_str());
        out.append(")");
        out
    }
}

/// One attempt that failed.
#[derive(Debug, PartialEq, Eq)]
pub enum DeliveryAttemptFailure {
    Insert(InsertFailure),
    Clipboard(ClipboardFailure),
    Stdout(TextOutputFailure),
}

impl DeliveryAttemptFailure {
    pub open spec fn spec_describe(self) -> Seq<char> {
        match self {
            DeliveryAttemptFailure::Insert(f) => "insert failed: "@ + f.spec_describe(),
            DeliveryAttemptFailure::Clipboard(f) => "clipboard failed: "@ + f.spec_describe(),
            DeliveryAttemptFailure::Stdout(f) => "stdout failed: "@ + f.spec_describe(),
        }
    }

    pub fn describe(&self) -> (r: String)
        ensures
            r@ == self.spec_describe(),
    {
        match self {
            DeliveryAttemptFailure::Insert(f) => {
                let mut out = String::from_str("insert failed: ");
                out.append(f.describe().as_str());
                out
            },
            DeliveryAttemptFailure::Clipboard(f) => {
                let mut out = String::from_str("clipboard failed: ");
                out.append(f.describe().as_str());
                out
            },
            DeliveryAttemptFailure::Stdout(f) => {
                let mut out = String::from_str("stdout failed: ");
                out.append(f.describe().as_str());
                out
            },
        }
    }
}

/// The failures of a delivery that reached no target: at least one.
#[derive(Debug)]
pub struct DeliveryFailures {
    first: DeliveryAttemptFailure,
    rest: Vec<DeliveryAttemptFailure>,
}

impl DeliveryFailures {
    /// All failures, in the order of the attempts.
    pub closed spec fn spec_all(self) -> Seq<DeliveryAttemptFailure> {
        seq![self.first] + self.rest@
    }

    pub fn one(first: DeliveryAttemptFailure) -> (r: DeliveryFailures)
        ensures
            r.spec_all() == seq![first],
    {
        let r = DeliveryFailures { first, rest: Vec::new() };
        proof {
            assert(r.spec_all() =~= seq![first]);
        }
        r
    }

    pub fn new(first: DeliveryAttemptFailure, rest: Vec<DeliveryAttemptFailure>) -> (r:
        DeliveryFailures)
        ensures
            r.spec_all() == seq![first] + rest@,
    {
        DeliveryFailures { first, rest }
    }

    /// All failures, in the order of the attempts.
    pub fn iter(&self) -> (r: Vec<&DeliveryAttemptFailure>)
        ensures
            r@.len() == self.spec_all().len(),
            forall|i: int| 0 <= i < r@.len() ==> *(#[trigger] r@[i]) == self.spec_all()[i],
    {
        let mut out: Vec<&DeliveryAttemptFailure> = Vec::new();
        out.push(&self.first);
        let mut i: usize = 0;
        while i < self.rest.len()
            invariant
                i <= self.rest@.len(),
                out@.len() == i + 1,
                *out@[0] == self.first,
                forall|j: int| 0 <= j < i ==> *(#[trigger] out@[j + 1]) == self.rest@[j],
            decreases self.rest@.len() - i,
        {
            out.push(&self.rest[i]);
            i = i + 1;
        }
        proof {
            assert forall|k: int| 0 <= k < out@.len() implies *(#[trigger] out@[k])
                == self.spec_all()[k] by {
                if k > 0 {
                    assert(*out@[(k - 1) + 1] == self.rest@[k - 1]);
                }
            }
        }
        out
    }
}

/// How one delivery ended.
#[derive(Debug)]
pub enum DeliveryReport {
    Delivered { target: ConfirmedDeliveryTarget, preceding_failures: Vec<DeliveryAttemptFailure> },
    InsertRequestSent { sent_bytes: usize },
    InsertUncertain { maybe_sent_bytes: usize, failure: InsertFailure },
    NotDelivered { failures: DeliveryFailures },
}

/// How one delivery ended, with its failures as a sequence.
pub enum ReportView {
    Delivered { target: ConfirmedDeliveryTarget, preceding_failures: Seq<DeliveryAttemptFailure> },
    InsertRequestSent { sent_bytes: usize },
    InsertUncertain { maybe_sent_bytes: usize, failure: InsertFailure },
    NotDelivered { failures: Seq<DeliveryAttemptFailure> },
}

impl View for DeliveryReport {
    type V = ReportView;

    open spec fn view(&self) -> ReportView {
        match self {
            DeliveryReport::Delivered { target, preceding_failures } => ReportView::Delivered {
                target: *target,
                preceding_failures: preceding_failures@,
            },
            DeliveryReport::InsertRequestSent { sent_bytes } => ReportView::InsertRequestSent {
                sent_bytes: *sent_bytes,
            },
            DeliveryReport::InsertUncertain { maybe_sent_bytes, failure } =>
                ReportView::InsertUncertain { maybe_sent_bytes: *maybe_sent_bytes, failure: *failure },
            DeliveryReport::NotDelivered { failures } => ReportView::NotDelivered {
                failures: failures.spec_all(),
            },
        }
    }
}

/// The next thing to do for a delivery, with the text it hands on.
#[derive(Clone, Copy, Debug, PartialEq, Eq)]
pub enum DeliveryStep<'a> {
    /// Ask the input method to insert the text.
    Insert(&'a str),
    /// Copy the text to the clipboard.
    CopyToClipboard(&'a str),
    /// Write the text and a newline to stdout.
    WriteStdout(&'a str),
    /// Nothing is left to do: take the report.
    Finished,
}

/// Where a delivery stands.
#[derive(Debug)]
enum Stage {
    AwaitInsert,
    AwaitClipboard,
    AwaitStdout,
    Done(DeliveryReport),
}

/// A delivery in progress: the text, the failures so far and the step that comes next.
#[derive(Debug)]
pub struct Delivery {
    text: String,
    failures: Vec<DeliveryAttemptFailure>,
    stage: Stage,
}

/// Where a delivery stands, as a plain value.
pub enum DeliveryView {
    AwaitInsert,
    AwaitClipboard { failures: Seq<DeliveryAttemptFailure> },
    AwaitStdout { failures: Seq<DeliveryAttemptFailure> },
    Done(ReportView),
}

impl View for Delivery {
    type V = DeliveryView;

    closed spec fn view(&self) -> DeliveryView {
        match self.stage {
            Stage::AwaitInsert => DeliveryView::AwaitInsert,
            Stage::AwaitClipboard => DeliveryView::AwaitClipboard { failures: self.failures@ },
            Stage::AwaitStdout => DeliveryView::AwaitStdout { failures: self.failures@ },
            Stage::Done(report) => DeliveryView::Done(report@),
        }
    }
}

/// Whether `step` is what a delivery of `text` in the state `v` asks for: each channel
/// is handed the delivery's text, unchanged.
pub open spec fn is_next_step(step: DeliveryStep, v: DeliveryView, text: Seq<char>) -> bool {
    match v {
        DeliveryView::AwaitInsert => step matches DeliveryStep::Insert(t) && t@ == text,
        DeliveryView::AwaitClipboard { .. } => step matches DeliveryStep::CopyToClipboard(t)
            && t@ == text,
        DeliveryView::AwaitStdout { .. } => step matches DeliveryStep::WriteStdout(t) && t@
            == text,
        DeliveryView::Done(_) => step is Finished,
    }
}

/// The state after the input method answered: a sent or uncertain insert ends the
/// delivery (an uncertain one must not be repeated elsewhere); a failed one falls back
/// to the clipboard.
pub open spec fn spec_after_insert(outcome: InsertOutcome) -> DeliveryView {
    match outcome {
        InsertOutcome::SentToInputMethod { sent_bytes } => DeliveryView::Done(
            ReportView::InsertRequestSent { sent_bytes },
        ),
        InsertOutcome::DeliveryUncertain { maybe_sent_bytes, failure } => DeliveryView::Done(
            ReportView::InsertUncertain { maybe_sent_bytes, failure },
        ),
        InsertOutcome::NotInserted(f) => DeliveryView::AwaitClipboard {
            failures: seq![DeliveryAttemptFailure::Insert(f)],
        },
    }
}

/// The state after the clipboard answered: success ends the delivery; failure falls
/// back to stdout.
pub open spec fn spec_after_clipboard(
    failures: Seq<DeliveryAttemptFailure>,
    result: Result<(), ClipboardFailure>,
) -> DeliveryView {
    match result {
        Ok(()) => DeliveryView::Done(
            ReportView::Delivered {
                target: ConfirmedDeliveryTarget::Clipboard,
                preceding_failures: failures,
            },
        ),
        Err(f) => DeliveryView::AwaitStdout {
            failures: failures.push(DeliveryAttemptFailure::Clipboard(f)),
        },
    }
}

/// The state after stdout answered: the delivery ends either way; with every attempt
/// failed, nothing was delivered.
pub open spec fn spec_after_stdout(
    failures: Seq<DeliveryAttemptFailure>,
    result: Result<(), TextOutputFailure>,
) -> DeliveryView {
    match result {
        Ok(()) => DeliveryView::Done(
            ReportView::Delivered {
                target: ConfirmedDeliveryTarget::Stdout,
                preceding_failures: failures,
            },
        ),
        Err(f) => DeliveryView::Done(
            ReportView::NotDelivered { failures: failures.push(DeliveryAttemptFailure::Stdout(f)) },
        ),
    }
}

/// The state in which a delivery to `target` begins.
pub open spec fn spec_start(target: DeliveryTarget) -> DeliveryView {
    match target {
        DeliveryTarget::Stdout => DeliveryView::AwaitStdout { failures: Seq::empty() },
        DeliveryTarget::Clipboard => DeliveryView::AwaitClipboard { failures: Seq::empty() },
        DeliveryTarget::Insert => DeliveryView::AwaitInsert,
    }
}

/// The state a delivery reaches when each step it asks for gets the given answer:
/// the input method answers `insert`, the clipboard `clipboard`, stdout `stdout`.
pub open spec fn spec_run(
    target: DeliveryTarget,
    insert: InsertOutcome,
    clipboard: Result<(), ClipboardFailure>,
    stdout: Result<(), TextOutputFailure>,
) -> DeliveryView {
    let v1 = match spec_start(target) {
        DeliveryView::AwaitInsert => spec_after_insert(insert),
        other => other,
    };
    let v2 = match v1 {
        DeliveryView::AwaitClipboard { failures } => spec_after_clipboard(failures, clipboard),
        other => other,
    };
    match v2 {
        DeliveryView::AwaitStdout { failures } => spec_after_stdout(failures, stdout),
        other => other,
    }
}

/// Every delivery ends after at most three steps, whatever each step answers, and the
/// report lists the failed attempts in the order they were made: an insert that was
/// sent or may have been sent ends the delivery with no fallback (retrying could
/// duplicate text); the clipboard is tried only after the insert was refused, and
/// stdout only after the clipboard failed.
pub proof fn lemma_delivery_falls_back_in_order(
    insert: InsertOutcome,
    clipboard: Result<(), ClipboardFailure>,
    stdout: Result<(), TextOutputFailure>,
)
    ensures
        spec_run(DeliveryTarget::Insert, insert, clipboard, stdout) is Done,
        match spec_run(DeliveryTarget::Insert, insert, clipboard, stdout) {
            DeliveryView::Done(report) => match report {
                ReportView::InsertRequestSent { sent_bytes } => insert
                    == (InsertOutcome::SentToInputMethod { sent_bytes }),
                ReportView::InsertUncertain { maybe_sent_bytes, failure } => insert
                    == (InsertOutcome::DeliveryUncertain { maybe_sent_bytes, failure }),
                ReportView::Delivered { target, preceding_failures } => {
                    &&& insert is NotInserted
                    &&& preceding_failures[0] == DeliveryAttemptFailure::Insert(insert->NotInserted_0)
                    &&& match target {
                        ConfirmedDeliveryTarget::Clipboard => clipboard is Ok
                            && preceding_failures.len() == 1,
                        ConfirmedDeliveryTarget::Stdout => {
                            &&& clipboard is Err
                            &&& stdout is Ok
                            &&& preceding_failures.len() == 2
                            &&& preceding_failures[1] == DeliveryAttemptFailure::Clipboard(
                                clipboard->Err_0,
                            )
                        },
                    }
                },
                ReportView::NotDelivered { failures } => {
                    &&& insert is NotInserted
                    &&& clipboard is Err
                    &&& stdout is Err
                    &&& failures == seq![
                        DeliveryAttemptFailure::Insert(insert->NotInserted_0),
                        DeliveryAttemptFailure::Clipboard(clipboard->Err_0),
                        DeliveryAttemptFailure::Stdout(stdout->Err_0),
                    ]
                },
            },
            _ => false,
        },
{
}

/// A clipboard delivery ends after at most two steps: copied, or written to stdout
/// after the copy failed, or not delivered with both failures in order; stdout is used
/// only after the clipboard failed.
pub proof fn lemma_clipboard_delivery_falls_back_to_stdout(
    insert: InsertOutcome,
    clipboard: Result<(), ClipboardFailure>,
    stdout: Result<(), TextOutputFailure>,
)
    ensures
        match spec_run(DeliveryTarget::Clipboard, insert, clipboard, stdout) {
            DeliveryView::Done(report) => match report {
                ReportView::Delivered { target, preceding_failures } => match target {
                    ConfirmedDeliveryTarget::Clipboard => clipboard is Ok
                        && preceding_failures.len() == 0,
                    ConfirmedDeliveryTarget::Stdout => clipboard is Err && stdout is Ok
                        && preceding_failures == seq![
                        DeliveryAttemptFailure::Clipboard(clipboard->Err_0),
                    ],
                },
                ReportView::NotDelivered { failures } => clipboard is Err && stdout is Err
                    && failures == seq![
                    DeliveryAttemptFailure::Clipboard(clipboard->Err_0),
                    DeliveryAttemptFailure::Stdout(stdout->Err_0),
                ],
                _ => false,
            },
            _ => false,
        },
{
    assert(Seq::<DeliveryAttemptFailure>::empty().push(
        DeliveryAttemptFailure::Clipboard(clipboard->Err_0),
    ) =~= seq![DeliveryAttemptFailure::Clipboard(clipboard->Err_0)]);
    assert(Seq::<DeliveryAttemptFailure>::empty().push(
        DeliveryAttemptFailure::Clipboard(clipboard->Err_0),
    ).push(DeliveryAttemptFailure::Stdout(stdout->Err_0)) =~= seq![
        DeliveryAttemptFailure::Clipboard(clipboard->Err_0),
        DeliveryAttemptFailure::Stdout(stdout->Err_0),
    ]);
}

impl Delivery {
    /// The text being delivered.
    pub closed spec fn spec_text(self) -> Seq<char> {
        self.text@
    }

    /// A delivery of `text` to `target`: insertion first for insert, the clipboard first
    /// for clipboard, stdout alone for stdout.
    pub fn start(target: DeliveryTarget, text: &str) -> (r: Delivery)
        ensures
            r@ == spec_start(target),
            r.spec_text() == text@,
    {
        let stage = match target {
            DeliveryTarget::Stdout => Stage::AwaitStdout,
            DeliveryTarget::Clipboard => Stage::AwaitClipboard,
            DeliveryTarget::Insert => Stage::AwaitInsert,
        };
        let r = Delivery { text: String::from_str(text), failures: Vec::new(), stage };
        proof {
            assert(r.failures@ =~= Seq::<DeliveryAttemptFailure>::empty());
        }
        r
    }

    /// The step to perform next, with the text to hand on.
    pub fn next_step(&self) -> (r: DeliveryStep<'_>)
        ensures
            is_next_step(r, self@, self.spec_text()),
    {
        match &self.stage {
            Stage::AwaitInsert => DeliveryStep::Insert(self.text.as_str()),
            Stage::AwaitClipboard => DeliveryStep::CopyToClipboard(self.text.as_str()),
            Stage::AwaitStdout => DeliveryStep::WriteStdout(self.text.as_str()),
            Stage::Done(_) => DeliveryStep::Finished,
        }
    }

    /// Records what the input method answered.
    pub fn insert_finished(&mut self, outcome: InsertOutcome)
        requires
            old(self)@ is AwaitInsert,
        ensures
            final(self)@ == spec_after_insert(outcome),
            final(self).spec_text() == old(self).spec_text(),
    {
        match outcome {
            InsertOutcome::SentToInputMethod { sent_bytes } => {
                self.stage = Stage::Done(DeliveryReport::InsertRequestSent { sent_bytes });
            },
            InsertOutcome::DeliveryUncertain { maybe_sent_bytes, failure } => {
                self.stage = Stage::Done(
                    DeliveryReport::InsertUncertain { maybe_sent_bytes, failure },
                );
            },
            InsertOutcome::NotInserted(f) => {
                let mut failures: Vec<DeliveryAttemptFailure> = Vec::new();
                failures.push(DeliveryAttemptFailure::Insert(f));
                self.failures = failures;
                self.stage = Stage::AwaitClipboard;
                proof {
                    assert(self.failures@ =~= seq![DeliveryAttemptFailure::Insert(f)]);
                }
            },
        }
    }

    /// Records what the clipboard answered.
    pub fn clipboard_finished(&mut self, result: Result<(), ClipboardFailure>)
        requires
            old(self)@ is AwaitClipboard,
        ensures
            final(self)@ == spec_after_clipboard(old(self)@->AwaitClipboard_failures, result),
            final(self).spec_text() == old(self).spec_text(),
    {
        match result {
            Ok(()) => {
                let mut failures: Vec<DeliveryAttemptFailure> = Vec::new();
                std::mem::swap(&mut failures, &mut self.failures);
                self.stage = Stage::Done(
                    DeliveryReport::Delivered {
                        target: ConfirmedDeliveryTarget::Clipboard,
                        preceding_failures: failures,
                    },
                );
            },
            Err(f) => {
                self.failures.push(DeliveryAttemptFailure::Clipboard(f));
                self.stage = Stage::AwaitStdout;
            },
        }
    }

    /// Records what writing to stdout answered.
    pub fn stdout_finished(&mut self, result: Result<(), TextOutputFailure>)
        requires
            old(self)@ is AwaitStdout,
        ensures
            final(self)@ == spec_after_stdout(old(self)@->AwaitStdout_failures, result),
            final(self).spec_text() == old(self).spec_text(),
    {
        let mut failures: Vec<DeliveryAttemptFailure> = Vec::new();
        std::mem::swap(&mut failures, &mut self.failures);
        match result {
            Ok(()) => {
                self.stage = Stage::Done(
                    DeliveryReport::Delivered {
                        target: ConfirmedDeliveryTarget::Stdout,
                        preceding_failures: failures,
                    },
                );
            },
            Err(f) => {
                failures.push(DeliveryAttemptFailure::Stdout(f));
                let ghost all = failures@;
                let first = failures.remove(0);
                let report = DeliveryReport::NotDelivered {
                    failures: DeliveryFailures::new(first, failures),
                };
                proof {
                    assert(seq![first] + failures@ =~= all);
                }
                self.stage = Stage::Done(report);
            },
        }
    }

    /// The report of a finished delivery.
    pub fn into_report(self) -> (r: DeliveryReport)
        requires
            self@ is Done,
        ensures
            r@ == self@->Done_0,
    {
        match self.stage {
            Stage::Done(report) => report,
            _ => DeliveryReport::InsertRequestSent { sent_bytes: 0 },
        }
    }
}

/// Declares `std::io::Error` to the verifier; its contents stay opaque.
#[verifier::external_type_specification]
#[verifier::external_body]
pub struct ExIoError(std::io::Error);

/// The name of a standard I/O error's kind, as `Debug` prints `std::io::Error::kind`;
/// nothing is claimed of which kind it is.
#[verifier::external_body]
fn io_error_kind_name(error: &std::io::Error) -> (r: String) {
    format!("{:?}", error.kind())
}

/// How a standard I/O error prints (`ToString` of `std::io::Error`); nothing is
/// claimed of the text.
#[verifier::external_body]
fn io_error_message(error: &std::io::Error) -> (r: String) {
    error.to_string()
}

/// Writes the bytes of `text` to `out` with `std::io::Write::write_all`; nothing is
/// claimed of the result, which depends on the writer.
#[verifier::external_body]
pub fn write_str<W: std::io::Write>(mut out: W, text: &str) -> (r: std::io::Result<()>) {
    out.write_all(text.as_bytes())
}

/// The line that carries `text`: the text and a newline.
pub fn text_line(text: &str) -> (r: String)
    ensures
        r@ == text@ + "\n"@,
{
    let mut line = String::from_str(text);
    line.append("\n");
    line
}

impl TextOutputFailure {
    /// The kind and message of a standard I/O error.
    pub fn from_io(error: std::io::Error) -> (r: TextOutputFailure) {
        let name = io_error_kind_name(&error);
        TextOutputFailure { kind: IoErrorKind::from_name(name.as_str()), message: io_error_message(&error) }
    }
}

/// What writing to stdout came to, from what the write returned: success, or the
/// failure of its standard I/O error.
pub fn stdout_outcome(written: std::io::Result<()>) -> (r: Result<(), TextOutputFailure>)
    ensures
        r is Ok <==> written is Ok,
{
    match written {
        Ok(()) => Ok(()),
        Err(error) => Err(TextOutputFailure::from_io(error)),
    }
}

/// The report of a delivery of `text` to stdout alone, from what writing it came to:
/// delivered there, or not delivered with that one failure.
pub fn stdout_report(text: &str, written: Result<(), TextOutputFailure>) -> (r: DeliveryReport)
    ensures
        DeliveryView::Done(r@) == spec_after_stdout(Seq::empty(), written),
{
    let mut delivery = Delivery::start(DeliveryTarget::Stdout, text);
    delivery.stdout_finished(written);
    delivery.into_report()
}

} // verus!
