//! The insert-delivery simulator of the debug harness: fixed scenarios run through the
//! delivery policy with simulated effects, and each report is summarized for display.
use vstd::prelude::*;
use vstd::string::StringExecFns;
use crate::delivery::ClipboardFailure;
use crate::delivery::ConfirmedDeliveryTarget;
use crate::delivery::Delivery;
use crate::delivery::DeliveryAttemptFailure;
use crate::delivery::DeliveryReport;
use crate::delivery::DeliveryStep;
use crate::delivery::DeliveryTarget;
use crate::delivery::DeliveryView;
use crate::delivery::ReportView;
use crate::delivery::TextOutputFailure;
use crate::insertion::InsertFailure;
use crate::insertion::InsertOutcome;
use crate::insertion::outcome::IoErrorKind;
use crate::daemon::describe_delivery_failures;
use crate::daemon::spec_describe_failures;
use crate::strings::debug_quoted;
use crate::strings::debug_quoted_spec;
use crate::strings::decimal;
use crate::strings::push_decimal;
use crate::strings::str_eq;
use crate::text_chunks::str_byte_len;
use crate::text_chunks::utf8_len;

verus! {

/// The text that every scenario delivers.
pub const SAMPLE_TEXT: &'static str = "Ship the insert delivery path.";

/// A simulated course of an insert delivery.
#[derive(Clone, Copy, Debug, PartialEq, Eq, Structural)]
pub enum InsertScenario {
    Inserted,
    FallbackNoTextInput,
    FallbackNoWayland,
    FallbackClipboardFailed,
    FallbackStdoutFailed,
    BackendFailed,
}

/// Every scenario, in the order the harness lists them.
pub open spec fn spec_all_scenarios() -> Seq<InsertScenario> {
    seq![
        InsertScenario::Inserted,
        InsertScenario::FallbackNoTextInput,
        InsertScenario::FallbackNoWayland,
        InsertScenario::FallbackClipboardFailed,
        InsertScenario::FallbackStdoutFailed,
        InsertScenario::BackendFailed,
    ]
}

impl InsertScenario {
    pub open spec fn spec_id(self) -> Seq<char> {
        match self {
            InsertScenario::Inserted => "inserted"@,
            InsertScenario::FallbackNoTextInput => "fallback-no-text-input"@,
            InsertScenario::FallbackNoWayland => "fallback-no-wayland"@,
            InsertScenario::FallbackClipboardFailed => "fallback-clipboard-failed"@,
            InsertScenario::FallbackStdoutFailed => "fallback-stdout-failed"@,
            InsertScenario::BackendFailed => "backend-failed"@,
        }
    }

    /// Every scenario, in the order the harness lists them.
    pub fn all() -> (r: Vec<InsertScenario>)
        ensures
            r@ == spec_all_scenarios(),
    {
        let r = vec![
            InsertScenario::Inserted,
            InsertScenario::FallbackNoTextInput,
            InsertScenario::FallbackNoWayland,
            InsertScenario::FallbackClipboardFailed,
            InsertScenario::FallbackStdoutFailed,
            InsertScenario::BackendFailed,
        ];
        proof {
            assert(r@ =~= spec_all_scenarios());
        }
        r
    }

    /// The id that selects the scenario.
    pub fn id(self) -> (r: &'static str)
        ensures
            r@ == self.spec_id(),
    {
        match self {
            InsertScenario::Inserted => "inserted",
            InsertScenario::FallbackNoTextInput => "fallback-no-text-input",
            InsertScenario::FallbackNoWayland => "fallback-no-wayland",
            InsertScenario::FallbackClipboardFailed => "fallback-clipboard-failed",
            InsertScenario::FallbackStdoutFailed => "fallback-stdout-failed",
            InsertScenario::BackendFailed => "backend-failed",
        }
    }

    /// The scenario with id `id`, if any.
    pub fn from_id(id: &str) -> (r: Option<InsertScenario>)
        ensures
            r matches Some(s) ==> s.spec_id() == id@,
            r is None ==> forall|s: InsertScenario| s.spec_id() != id@,
    {
        if str_eq(id, "inserted") {
            Some(InsertScenario::Inserted)
        } else if str_eq(id, "fallback-no-text-input") {
            Some(InsertScenario::FallbackNoTextInput)
        } else if str_eq(id, "fallback-no-wayland") {
            Some(InsertScenario::FallbackNoWayland)
        } else if str_eq(id, "fallback-clipboard-failed") {
            Some(InsertScenario::FallbackClipboardFailed)
        } else if str_eq(id, "fallback-stdout-failed") {
            Some(InsertScenario::FallbackStdoutFailed)
        } else if str_eq(id, "backend-failed") {
            Some(InsertScenario::BackendFailed)
        } else {
            None
        }
    }

    /// What the simulated input method answers to a text of `text_len` bytes.
    pub fn insertion_outcome(self, text_len: usize) -> (r: InsertOutcome)
        ensures
            match self {
                InsertScenario::Inserted => r == (InsertOutcome::SentToInputMethod {
                    sent_bytes: text_len,
                }),
                InsertScenario::FallbackNoWayland => r matches InsertOutcome::NotInserted(
                    InsertFailure::NoWaylandDisplay { message },
                ) && message@ == "WAYLAND_DISPLAY is not set"@,
                InsertScenario::BackendFailed => r matches InsertOutcome::DeliveryUncertain {
                    maybe_sent_bytes,
                    failure: InsertFailure::ProtocolFailed { message },
                } && maybe_sent_bytes == text_len && message@
                    == "input method protocol failed after a commit request was queued"@,
                _ => r == InsertOutcome::NotInserted(InsertFailure::InputMethodRejected),
            },
    {
        match self {
            InsertScenario::Inserted => InsertOutcome::SentToInputMethod { sent_bytes: text_len },
            InsertScenario::FallbackNoTextInput
            | InsertScenario::FallbackClipboardFailed
            | InsertScenario::FallbackStdoutFailed => InsertOutcome::NotInserted(
                InsertFailure::InputMethodRejected,
            ),
            InsertScenario::FallbackNoWayland => InsertOutcome::NotInserted(
                InsertFailure::NoWaylandDisplay {
                    message: String::from_str("WAYLAND_DISPLAY is not set"),
                },
            ),
            InsertScenario::BackendFailed => InsertOutcome::DeliveryUncertain {
                maybe_sent_bytes: text_len,
                failure: InsertFailure::ProtocolFailed {
                    message: String::from_str(
                        "input method protocol failed after a commit request was queued",
                    ),
                },
            },
        }
    }

    pub open spec fn spec_clipboard_fails(self) -> bool {
        self == InsertScenario::FallbackClipboardFailed || self
            == InsertScenario::FallbackStdoutFailed
    }

    /// The simulated clipboard fails in the two scenarios that reach stdout.
    pub fn clipboard_fails(self) -> (r: bool)
        ensures
            r == self.spec_clipboard_fails(),
    {
        match self {
            InsertScenario::FallbackClipboardFailed | InsertScenario::FallbackStdoutFailed => true,
            _ => false,
        }
    }

    /// The simulated stdout fails only where every path fails.
    pub fn stdout_fails(self) -> (r: bool)
        ensures
            r == (self == InsertScenario::FallbackStdoutFailed),
    {
        match self {
            InsertScenario::FallbackStdoutFailed => true,
            _ => false,
        }
    }
}

/// The ids of every scenario, in order.
pub fn scenario_ids() -> (r: Vec<&'static str>)
    ensures
        r@.len() == spec_all_scenarios().len(),
        forall|i: int| 0 <= i < r@.len() ==> (#[trigger] r@[i])@ == spec_all_scenarios()[i].spec_id(),
{
    let all = InsertScenario::all();
    let mut out: Vec<&'static str> = Vec::new();
    let mut i: usize = 0;
    while i < all.len()
        invariant
            all@ == spec_all_scenarios(),
            i <= all@.len(),
            out@.len() == i,
            forall|j: int| 0 <= j < i ==> (#[trigger] out@[j])@ == all@[j].spec_id(),
        decreases all@.len() - i,
    {
        out.push(all[i].id());
        i = i + 1;
    }
    out
}

/// The failure of the simulated clipboard.
pub open spec fn is_simulated_clipboard_failure(f: DeliveryAttemptFailure) -> bool {
    f matches DeliveryAttemptFailure::Clipboard(c) && c.message@ == "simulated clipboard failure"@
}

/// The failure of the simulated stdout: a broken pipe.
pub open spec fn is_simulated_stdout_failure(f: DeliveryAttemptFailure) -> bool {
    f matches DeliveryAttemptFailure::Stdout(o) && o.kind == IoErrorKind::BrokenPipe
        && o.message@ == "simulated stdout failure"@
}

/// The insert failure of a session without a Wayland display.
pub open spec fn is_no_wayland_insert(f: DeliveryAttemptFailure) -> bool {
    f matches DeliveryAttemptFailure::Insert(InsertFailure::NoWaylandDisplay { message })
        && message@ == "WAYLAND_DISPLAY is not set"@
}

/// The insert failure of a rejected request.
pub open spec fn is_rejected_insert(f: DeliveryAttemptFailure) -> bool {
    f == DeliveryAttemptFailure::Insert(InsertFailure::InputMethodRejected)
}

/// The report that the delivery policy gives for a scenario that delivers `text_len`
/// bytes: an insert that is sent or uncertain ends there; a rejected insert falls back
/// to the clipboard, and a failed clipboard to stdout.
pub open spec fn reports_scenario(s: InsertScenario, text_len: usize, r: ReportView) -> bool {
    match s {
        InsertScenario::Inserted => r == ReportView::InsertRequestSent { sent_bytes: text_len },
        InsertScenario::FallbackNoTextInput => r matches ReportView::Delivered {
            target: ConfirmedDeliveryTarget::Clipboard,
            preceding_failures,
        } && preceding_failures.len() == 1 && is_rejected_insert(preceding_failures[0]),
        InsertScenario::FallbackNoWayland => r matches ReportView::Delivered {
            target: ConfirmedDeliveryTarget::Clipboard,
            preceding_failures,
        } && preceding_failures.len() == 1 && is_no_wayland_insert(preceding_failures[0]),
        InsertScenario::FallbackClipboardFailed => r matches ReportView::Delivered {
            target: ConfirmedDeliveryTarget::Stdout,
            preceding_failures,
        } && preceding_failures.len() == 2 && is_rejected_insert(preceding_failures[0])
            && is_simulated_clipboard_failure(preceding_failures[1]),
        InsertScenario::FallbackStdoutFailed => r matches ReportView::NotDelivered { failures }
            && failures.len() == 3 && is_rejected_insert(failures[0])
            && is_simulated_clipboard_failure(failures[1]) && is_simulated_stdout_failure(
            failures[2],
        ),
        InsertScenario::BackendFailed => r matches ReportView::InsertUncertain {
            maybe_sent_bytes,
            failure: InsertFailure::ProtocolFailed { message },
        } && maybe_sent_bytes == text_len && message@
            == "input method protocol failed after a commit request was queued"@,
    }
}

/// Runs an insert delivery of the sample text through the delivery policy, with the
/// scenario's simulated input method, clipboard and stdout.
pub fn delivery_report_for_scenario(scenario: InsertScenario) -> (r: DeliveryReport)
    ensures
        reports_scenario(scenario, utf8_len(SAMPLE_TEXT@) as usize, r@),
        utf8_len(SAMPLE_TEXT@) <= usize::MAX,
{
    let text_len = str_byte_len(SAMPLE_TEXT);
    let mut delivery = Delivery::start(DeliveryTarget::Insert, SAMPLE_TEXT);
    delivery.insert_finished(scenario.insertion_outcome(text_len));
    if matches!(delivery.next_step(), DeliveryStep::CopyToClipboard(_)) {
        let result = if scenario.clipboard_fails() {
            Err(ClipboardFailure { message: String::from_str("simulated clipboard failure") })
        } else {
            Ok(())
        };
        delivery.clipboard_finished(result);
    }
    if matches!(delivery.next_step(), DeliveryStep::WriteStdout(_)) {
        let result = if scenario.stdout_fails() {
            Err(
                TextOutputFailure {
                    kind: IoErrorKind::BrokenPipe,
                    message: String::from_str("simulated stdout failure"),
                },
            )
        } else {
            Ok(())
        };
        delivery.stdout_finished(result);
    }
    proof {
        assert(delivery@ is Done);
    }
    delivery.into_report()
}

/// What the simulator shows of one delivery.
#[derive(Clone, Debug, PartialEq, Eq)]
pub struct PreviewReport {
    pub scenario: String,
    pub requested_target: String,
    pub final_outcome: String,
    pub outcome_color: u32,
    pub insert_detail: String,
    pub clipboard_detail: String,
    pub stdout_detail: String,
    pub message: String,
}

/// The colour of a delivered or sent report.
pub const SUCCESS_COLOR: u32 = 0x34d399;

/// The colour of an uncertain report.
pub const WARNING_COLOR: u32 = 0xfbbf24;

/// The colour of a failed report.
pub const FAILURE_COLOR: u32 = 0xf87171;

/// The fields of a report of an insert delivery, one by one.
pub open spec fn has_fields(
    p: PreviewReport,
    scenario: Seq<char>,
    final_outcome: Seq<char>,
    color: u32,
    insert: Seq<char>,
    clipboard: Seq<char>,
    stdout: Seq<char>,
    message: Seq<char>,
) -> bool {
    &&& p.scenario@ == scenario
    &&& p.requested_target@ == "insert"@
    &&& p.final_outcome@ == final_outcome
    &&& p.outcome_color == color
    &&& p.insert_detail@ == insert
    &&& p.clipboard_detail@ == clipboard
    &&& p.stdout_detail@ == stdout
    &&& p.message@ == message
}

fn report_with(
    scenario: &str,
    final_outcome: &str,
    color: u32,
    insert: String,
    clipboard: String,
    stdout: String,
    message: String,
) -> (r: PreviewReport)
    ensures
        has_fields(r, scenario@, final_outcome@, color, insert@, clipboard@, stdout@, message@),
{
    PreviewReport {
        scenario: String::from_str(scenario),
        requested_target: String::from_str("insert"),
        final_outcome: String::from_str(final_outcome),
        outcome_color: color,
        insert_detail: insert,
        clipboard_detail: clipboard,
        stdout_detail: stdout,
        message,
    }
}

impl PreviewReport {
    /// The report for an id that names no scenario: nothing ran.
    pub fn unknown_scenario(scenario: &str) -> (r: PreviewReport)
        ensures
            has_fields(
                r,
                scenario@,
                "unknown scenario"@,
                FAILURE_COLOR,
                "not run"@,
                "not run"@,
                "not run"@,
                "unknown insert debug scenario "@ + debug_quoted_spec(scenario@),
            ),
    {
        let mut message = String::from_str("unknown insert debug scenario ");
        message.append(debug_quoted(scenario).as_str());
        report_with(
            scenario,
            "unknown scenario",
            FAILURE_COLOR,
            String::from_str("not run"),
            String::from_str("not run"),
            String::from_str("not run"),
            message,
        )
    }
}

/// The delivery path a detail line is about.
#[derive(Clone, Copy, Debug, PartialEq, Eq, Structural)]
pub enum FailureKind {
    Insert,
    Clipboard,
    Stdout,
}

/// How `f` fails, when it is a failure of the path `kind`.
pub open spec fn detail_of(f: DeliveryAttemptFailure, kind: FailureKind) -> Option<Seq<char>> {
    match f {
        DeliveryAttemptFailure::Insert(x) => if kind == FailureKind::Insert {
            Some(x.spec_describe())
        } else {
            None
        },
        DeliveryAttemptFailure::Clipboard(x) => if kind == FailureKind::Clipboard {
            Some(x.spec_describe())
        } else {
            None
        },
        DeliveryAttemptFailure::Stdout(x) => if kind == FailureKind::Stdout {
            Some(x.spec_describe())
        } else {
            None
        },
    }
}

/// How the first failure of the path `kind` fails; `"not used"` when none did.
pub open spec fn spec_failure_detail(failures: Seq<DeliveryAttemptFailure>, kind: FailureKind) -> Seq<
    char,
>
    decreases failures.len(),
{
    if failures.len() == 0 {
        "not used"@
    } else {
        match detail_of(failures[0], kind) {
            Some(d) => d,
            None => spec_failure_detail(failures.drop_first(), kind),
        }
    }
}

/// The failures behind references.
pub open spec fn derefs(s: Seq<&DeliveryAttemptFailure>) -> Seq<DeliveryAttemptFailure> {
    s.map_values(|f: &DeliveryAttemptFailure| *f)
}

fn detail_of_failure(f: &DeliveryAttemptFailure, kind: FailureKind) -> (r: Option<String>)
    ensures
        r is Some <==> detail_of(*f, kind) is Some,
        r matches Some(d) ==> d@ == detail_of(*f, kind)->0,
{
    match f {
        DeliveryAttemptFailure::Insert(x) => if kind == FailureKind::Insert {
            Some(x.describe())
        } else {
            None
        },
        DeliveryAttemptFailure::Clipboard(x) => if kind == FailureKind::Clipboard {
            Some(x.describe())
        } else {
            None
        },
        DeliveryAttemptFailure::Stdout(x) => if kind == FailureKind::Stdout {
            Some(x.describe())
        } else {
            None
        },
    }
}

/// How the first failure of the path `kind` fails; `"not used"` when none did.
pub fn failure_detail(failures: &[&DeliveryAttemptFailure], kind: FailureKind) -> (r: String)
    ensures
        r@ == spec_failure_detail(derefs(failures@), kind),
{
    let ghost all = derefs(failures@);
    let mut i: usize = 0;
    proof {
        assert(all.subrange(0, all.len() as int) =~= all);
    }
    while i < failures.len()
        invariant
            i <= failures@.len(),
            all == derefs(failures@),
            spec_failure_detail(all.subrange(i as int, all.len() as int), kind)
                == spec_failure_detail(all, kind),
        decreases failures@.len() - i,
    {
        let ghost rest = all.subrange(i as int, all.len() as int);
        proof {
            assert(rest[0] == *failures@[i as int]);
            assert(rest.drop_first() =~= all.subrange(i + 1, all.len() as int));
        }
        match detail_of_failure(failures[i], kind) {
            Some(d) => {
                return d;
            },
            None => {},
        }
        i = i + 1;
    }
    String::from_str("not used")
}

fn refs(v: &[DeliveryAttemptFailure]) -> (r: Vec<&DeliveryAttemptFailure>)
    ensures
        derefs(r@) == v@,
{
    let mut out: Vec<&DeliveryAttemptFailure> = Vec::new();
    let mut i: usize = 0;
    while i < v.len()
        invariant
            i <= v@.len(),
            out@.len() == i,
            forall|j: int| 0 <= j < i ==> *(#[trigger] out@[j]) == v@[j],
        decreases v@.len() - i,
    {
        out.push(&v[i]);
        i = i + 1;
    }
    proof {
        assert(derefs(out@) =~= v@);
    }
    out
}

/// The outcome of a delivery that reached `target` after `failed` failed attempts.
pub open spec fn spec_delivered_outcome(target: ConfirmedDeliveryTarget, failed: nat) -> Seq<char> {
    match target {
        ConfirmedDeliveryTarget::Stdout => "stdout fallback"@,
        ConfirmedDeliveryTarget::Clipboard => if failed == 0 {
            "copied to clipboard"@
        } else {
            "clipboard fallback"@
        },
    }
}

/// What the simulator shows of each way a delivery ends.
pub open spec fn summarizes(p: PreviewReport, scenario: Seq<char>, report: ReportView) -> bool {
    match report {
        ReportView::InsertRequestSent { sent_bytes } => has_fields(
            p,
            scenario,
            "sent to input method"@,
            SUCCESS_COLOR,
            decimal(sent_bytes as nat) + " bytes sent to the Wayland input method"@,
            "not used"@,
            "not used"@,
            "Focused app insertion is requested, but Wayland does not confirm that text appeared."@,
        ),
        ReportView::InsertUncertain { maybe_sent_bytes, failure } => has_fields(
            p,
            scenario,
            "uncertain; fallback skipped"@,
            WARNING_COLOR,
            decimal(maybe_sent_bytes as nat) + " bytes may have been sent before failure: "@
                + failure.spec_describe(),
            "not used"@,
            "not used"@,
            "Fallback is skipped because retrying through clipboard/stdout could duplicate text."@,
        ),
        ReportView::Delivered { target, preceding_failures } => has_fields(
            p,
            scenario,
            spec_delivered_outcome(target, preceding_failures.len()),
            SUCCESS_COLOR,
            spec_failure_detail(preceding_failures, FailureKind::Insert),
            match target {
                ConfirmedDeliveryTarget::Clipboard => "copied text to clipboard"@,
                ConfirmedDeliveryTarget::Stdout => spec_failure_detail(
                    preceding_failures,
                    FailureKind::Clipboard,
                ),
            },
            match target {
                ConfirmedDeliveryTarget::Stdout => "wrote text to stdout"@,
                ConfirmedDeliveryTarget::Clipboard => "not used"@,
            },
            "Delivery completed via "@ + spec_delivered_outcome(target, preceding_failures.len())
                + "."@,
        ),
        ReportView::NotDelivered { failures } => has_fields(
            p,
            scenario,
            "not delivered"@,
            FAILURE_COLOR,
            spec_failure_detail(failures, FailureKind::Insert),
            spec_failure_detail(failures, FailureKind::Clipboard),
            spec_failure_detail(failures, FailureKind::Stdout),
            "All delivery paths failed: "@ + spec_describe_failures(failures),
        ),
    }
}

/// The summary of a delivery that reached `target`.
pub fn summarize_delivered_report(
    scenario_id: &str,
    target: ConfirmedDeliveryTarget,
    preceding_failures: &[DeliveryAttemptFailure],
) -> (r: PreviewReport)
    ensures
        summarizes(
            r,
            scenario_id@,
            ReportView::Delivered { target, preceding_failures: preceding_failures@ },
        ),
{
    let failures = refs(preceding_failures);
    let final_outcome = match target {
        ConfirmedDeliveryTarget::Stdout => "stdout fallback",
        ConfirmedDeliveryTarget::Clipboard => if preceding_failures.len() == 0 {
            "copied to clipboard"
        } else {
            "clipboard fallback"
        },
    };
    let stdout_detail = match target {
        ConfirmedDeliveryTarget::Stdout => String::from_str("wrote text to stdout"),
        ConfirmedDeliveryTarget::Clipboard => String::from_str("not used"),
    };
    let clipboard_detail = match target {
        ConfirmedDeliveryTarget::Clipboard => String::from_str("copied text to clipboard"),
        ConfirmedDeliveryTarget::Stdout => failure_detail(
            failures.as_slice(),
            FailureKind::Clipboard,
        ),
    };
    let mut message = String::from_str("Delivery completed via ");
    message.append(final_outcome);
    message.append(".");
    report_with(
        scenario_id,
        final_outcome,
        SUCCESS_COLOR,
        failure_detail(failures.as_slice(), FailureKind::Insert),
        clipboard_detail,
        stdout_detail,
        message,
    )
}

/// The summary of how a delivery ended.
pub fn summarize_report(scenario_id: &str, report: &DeliveryReport) -> (r: PreviewReport)
    ensures
        summarizes(r, scenario_id@, report@),
{
    match report {
        DeliveryReport::InsertRequestSent { sent_bytes } => {
            let mut insert = String::new();
            push_decimal(&mut insert, *sent_bytes as u64);
            insert.append(" bytes sent to the Wayland input method");
            report_with(
                scenario_id,
                "sent to input method",
                SUCCESS_COLOR,
                insert,
                String::from_str("not used"),
                String::from_str("not used"),
                String::from_str(
                    "Focused app insertion is requested, but Wayland does not confirm that text appeared.",
                ),
            )
        },
        DeliveryReport::InsertUncertain { maybe_sent_bytes, failure } => {
            let mut insert = String::new();
            push_decimal(&mut insert, *maybe_sent_bytes as u64);
            insert.append(" bytes may have been sent before failure: ");
            insert.append(failure.describe().as_str());
            report_with(
                scenario_id,
                "uncertain; fallback skipped",
                WARNING_COLOR,
                insert,
                String::from_str("not used"),
                String::from_str("not used"),
                String::from_str(
                    "Fallback is skipped because retrying through clipboard/stdout could duplicate text.",
                ),
            )
        },
        DeliveryReport::Delivered { target, preceding_failures } => summarize_delivered_report(
            scenario_id,
            *target,
            preceding_failures.as_slice(),
        ),
        DeliveryReport::NotDelivered { failures } => {
            let all = failures.iter();
            proof {
                assert(derefs(all@) =~= failures.spec_all());
            }
            let mut message = String::from_str("All delivery paths failed: ");
            message.append(describe_delivery_failures(all.as_slice()).as_str());
            report_with(
                scenario_id,
                "not delivered",
                FAILURE_COLOR,
                failure_detail(all.as_slice(), FailureKind::Insert),
                failure_detail(all.as_slice(), FailureKind::Clipboard),
                failure_detail(all.as_slice(), FailureKind::Stdout),
                message,
            )
        },
    }
}

/// `p` summarizes the report that the policy gives for the scenario with id `id`.
pub open spec fn previews_scenario(p: PreviewReport, id: Seq<char>) -> bool {
    exists|s: InsertScenario, report: ReportView|
        #![trigger s.spec_id(), summarizes(p, id, report)]
        s.spec_id() == id && reports_scenario(s, utf8_len(SAMPLE_TEXT@) as usize, report)
            && summarizes(p, id, report)
}

/// The summary of the scenario with id `scenario_id`, when there is one.
pub fn preview_report_for_scenario(scenario_id: &str) -> (r: Option<PreviewReport>)
    ensures
        r is Some <==> exists|s: InsertScenario| s.spec_id() == scenario_id@,
        r matches Some(p) ==> previews_scenario(p, scenario_id@),
{
    match InsertScenario::from_id(scenario_id) {
        Some(scenario) => {
            let report = delivery_report_for_scenario(scenario);
            let p = summarize_report(scenario_id, &report);
            proof {
                assert(reports_scenario(scenario, utf8_len(SAMPLE_TEXT@) as usize, report@));
                assert(summarizes(p, scenario_id@, report@));
            }
            Some(p)
        },
        None => None,
    }
}

/// The insert screen as the debug registry lists it.
pub fn insert_screen_listing() -> (r: crate::debug_harness::ScreenListing)
    ensures
        r.name@ == "insert"@,
        r.description@
            == "Simulate insert delivery outcomes without touching Wayland, clipboard, or focused apps."@,
        r.scenarios@.len() == spec_all_scenarios().len(),
        forall|i: int|
            0 <= i < r.scenarios@.len() ==> (#[trigger] r.scenarios@[i])@
                == spec_all_scenarios()[i].spec_id(),
{
    crate::debug_harness::ScreenListing {
        name: "insert",
        description: "Simulate insert delivery outcomes without touching Wayland, clipboard, or focused apps.",
        scenarios: scenario_ids(),
    }
}

} // verus!
