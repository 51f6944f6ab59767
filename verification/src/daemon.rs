//! The daemon's decisions: whether insertion still targets the window that had focus
//! when dictation stopped, what the overlay shows after a delivery, when the
//! microphone opens or closes, how long to wait after a failed accept, and which
//! transcript can be pasted again.
use std::sync::Arc;
use vstd::prelude::*;
use vstd::string::StringExecFns;
use crate::delivery::ConfirmedDeliveryTarget;
use crate::delivery::DeliveryAttemptFailure;
use crate::delivery::DeliveryReport;
use crate::delivery::DeliveryTarget;
use crate::delivery::ReportView;
use crate::dictation::DictationCommand;
use crate::dictation::DictationPhase;
use crate::dictation::DictationUpdate;
use crate::strings::push_decimal;
use crate::strings::decimal;
use vstd::string::StrSliceExecFns;
use crate::focus::FocusObservation;
use crate::focus::FocusSnapshot;
use crate::focus::FocusedWindow;
use crate::time::TimeSpan;

verus! {

/// How the insert target was checked against the focus recorded at stop.
#[derive(Debug, PartialEq, Eq)]
pub enum InsertFocusGuard {
    Verified { target: FocusedWindow },
    Changed { intended: FocusedWindow, current: FocusedWindow },
    Unverifiable { intended: FocusSnapshot, current: FocusObservation },
}

/// The target and guard for a stop snapshot and a current observation: insert only
/// into the same window; a different window, or one that cannot be checked, sends the
/// text to the clipboard instead.
pub open spec fn spec_classify_insert_focus(
    stop_focus: FocusSnapshot,
    current: FocusObservation,
) -> (DeliveryTarget, InsertFocusGuard) {
    match (stop_focus, current) {
        (FocusSnapshot::Focused(intended), FocusObservation::Focused(now)) => if intended.spec_same_target(now) {
            (DeliveryTarget::Insert, InsertFocusGuard::Verified { target: now })
        } else {
            (DeliveryTarget::Clipboard, InsertFocusGuard::Changed { intended, current: now })
        },
        (intended, now) => (
            DeliveryTarget::Clipboard,
            InsertFocusGuard::Unverifiable { intended, current: now },
        ),
    }
}

fn copy_window(w: &FocusedWindow) -> (r: FocusedWindow)
    ensures
        r == *w,
{
    FocusedWindow {
        source: w.source,
        instance: w.instance,
        id: w.id,
        app_id: match &w.app_id {
            Some(a) => Some(a.clone()),
            None => None,
        },
        title: match &w.title {
            Some(t) => Some(t.clone()),
            None => None,
        },
    }
}

fn copy_snapshot(s: &FocusSnapshot) -> (r: FocusSnapshot)
    ensures
        r == *s,
{
    match s {
        FocusSnapshot::Focused(w) => FocusSnapshot::Focused(copy_window(w)),
        FocusSnapshot::Unavailable => FocusSnapshot::Unavailable,
    }
}

/// Compares the focus at stop with the focus now.
pub fn classify_insert_focus(stop_focus: &FocusSnapshot, current: FocusObservation) -> (r: (
    DeliveryTarget,
    Option<InsertFocusGuard>,
))
    ensures
        r.0 == spec_classify_insert_focus(*stop_focus, current).0,
        r.1 == Some(spec_classify_insert_focus(*stop_focus, current).1),
{
    match stop_focus {
        FocusSnapshot::Focused(intended) => match current {
            FocusObservation::Focused(now) => {
                if intended.same_target(&now) {
                    (DeliveryTarget::Insert, Some(InsertFocusGuard::Verified { target: now }))
                } else {
                    (
                        DeliveryTarget::Clipboard,
                        Some(
                            InsertFocusGuard::Changed { intended: copy_window(intended), current: now },
                        ),
                    )
                }
            },
            other => (
                DeliveryTarget::Clipboard,
                Some(
                    InsertFocusGuard::Unverifiable {
                        intended: copy_snapshot(stop_focus),
                        current: other,
                    },
                ),
            ),
        },
        FocusSnapshot::Unavailable => (
            DeliveryTarget::Clipboard,
            Some(
                InsertFocusGuard::Unverifiable {
                    intended: FocusSnapshot::Unavailable,
                    current,
                },
            ),
        ),
    }
}

/// The target to deliver to: a target other than insert is kept as configured and
/// focus is not observed; for insert, focus is observed once and compared with the
/// focus at stop.
pub fn guard_insert_target<F: FnOnce() -> FocusObservation>(
    configured_target: DeliveryTarget,
    stop_focus: &FocusSnapshot,
    observe: F,
) -> (r: (DeliveryTarget, Option<InsertFocusGuard>))
    requires
        configured_target == DeliveryTarget::Insert ==> call_requires(observe, ()),
    ensures
        configured_target != DeliveryTarget::Insert ==> r.0 == configured_target && r.1 is None,
        configured_target == DeliveryTarget::Insert ==> exists|current: FocusObservation|
            call_ensures(observe, (), current) && r.0 == spec_classify_insert_focus(
                *stop_focus,
                current,
            ).0 && r.1 == Some(spec_classify_insert_focus(*stop_focus, current).1),
{
    if configured_target != DeliveryTarget::Insert {
        return (configured_target, None);
    }
    let current = observe();
    classify_insert_focus(stop_focus, current)
}

/// What the overlay shows.
#[derive(Clone, Copy, Debug, PartialEq, Eq, Structural)]
pub enum OverlayState {
    Recording,
    Transcribing,
    PendingTranscript,
    InsertSubmitted,
    InsertionUncertain,
    DeliveryFailed,
    NoTranscript,
    NothingToPaste,
}

impl OverlayState {
    pub open spec fn spec_accessible_label(self) -> Seq<char> {
        match self {
            OverlayState::Recording => "Dictation recording"@,
            OverlayState::Transcribing => "Dictation transcribing"@,
            OverlayState::PendingTranscript => "Transcript ready to paste"@,
            OverlayState::InsertSubmitted => "Insertion submitted"@,
            OverlayState::InsertionUncertain => "Check whether dictation was inserted"@,
            OverlayState::DeliveryFailed => "Dictation delivery failed"@,
            OverlayState::NoTranscript => "No transcript produced"@,
            OverlayState::NothingToPaste => "No retained transcript"@,
        }
    }

    /// What assistive technology reads for the state.
    pub fn accessible_label(self) -> (r: &'static str)
        ensures
            r@ == self.spec_accessible_label(),
    {
        match self {
            OverlayState::Recording => "Dictation recording",
            OverlayState::Transcribing => "Dictation transcribing",
            OverlayState::PendingTranscript => "Transcript ready to paste",
            OverlayState::InsertSubmitted => "Insertion submitted",
            OverlayState::InsertionUncertain => "Check whether dictation was inserted",
            OverlayState::DeliveryFailed => "Dictation delivery failed",
            OverlayState::NoTranscript => "No transcript produced",
            OverlayState::NothingToPaste => "No retained transcript",
        }
    }

    /// The state is shown for a moment and then hidden, rather than until replaced.
    pub fn is_brief(self) -> (r: bool)
        ensures
            r == (self == OverlayState::InsertSubmitted || self == OverlayState::NoTranscript
                || self == OverlayState::NothingToPaste),
    {
        match self {
            OverlayState::InsertSubmitted | OverlayState::NoTranscript
            | OverlayState::NothingToPaste => true,
            _ => false,
        }
    }
}

/// What the overlay shows after an insert delivery: the clipboard fallback leaves a
/// transcript to paste; stdout or nothing means failure; a sent request is submitted;
/// an uncertain one asks the user to check.
pub open spec fn spec_insertion_result_overlay_state(report: ReportView) -> OverlayState {
    match report {
        ReportView::Delivered { target, .. } => if target == ConfirmedDeliveryTarget::Clipboard {
            OverlayState::PendingTranscript
        } else {
            OverlayState::DeliveryFailed
        },
        ReportView::NotDelivered { .. } => OverlayState::DeliveryFailed,
        ReportView::InsertRequestSent { .. } => OverlayState::InsertSubmitted,
        ReportView::InsertUncertain { .. } => OverlayState::InsertionUncertain,
    }
}

pub fn insertion_result_overlay_state(report: &DeliveryReport) -> (r: Option<OverlayState>)
    ensures
        r == Some(spec_insertion_result_overlay_state(report@)),
{
    match report {
        DeliveryReport::Delivered { target: ConfirmedDeliveryTarget::Clipboard, .. } => Some(
            OverlayState::PendingTranscript,
        ),
        DeliveryReport::Delivered { target: ConfirmedDeliveryTarget::Stdout, .. } => Some(
            OverlayState::DeliveryFailed,
        ),
        DeliveryReport::NotDelivered { .. } => Some(OverlayState::DeliveryFailed),
        DeliveryReport::InsertRequestSent { .. } => Some(OverlayState::InsertSubmitted),
        DeliveryReport::InsertUncertain { .. } => Some(OverlayState::InsertionUncertain),
    }
}

/// What the overlay shows after a delivery to `configured_target`: for insert, the
/// insertion result; for the other targets a failure only when the clipboard fell back
/// to stdout or nothing was delivered, and nothing otherwise.
pub open spec fn spec_delivery_overlay_state(
    configured_target: DeliveryTarget,
    report: ReportView,
) -> Option<OverlayState> {
    if configured_target == DeliveryTarget::Insert {
        Some(spec_insertion_result_overlay_state(report))
    } else {
        match report {
            ReportView::Delivered { target, preceding_failures } => if configured_target
                == DeliveryTarget::Clipboard && target == ConfirmedDeliveryTarget::Stdout
                && preceding_failures.len() > 0 {
                Some(OverlayState::DeliveryFailed)
            } else {
                None
            },
            ReportView::NotDelivered { .. } => Some(OverlayState::DeliveryFailed),
            _ => None,
        }
    }
}

/// What the overlay tells the user after a delivery. Whenever every attempt failed, it
/// shows a failure, whatever target was configured. A configured insert always shows
/// its result: submitted, uncertain, a transcript waiting on the clipboard to be
/// pasted, or a failure when the text only reached stdout. A clipboard or stdout delivery that reached its configured target at
/// the first attempt hides the overlay; a clipboard delivery that had to fall back to
/// stdout shows a failure.
pub proof fn lemma_overlay_reports_delivery_outcome(
    configured_target: DeliveryTarget,
    report: ReportView,
)
    ensures
        report is NotDelivered ==> spec_delivery_overlay_state(configured_target, report)
            == Some(OverlayState::DeliveryFailed),
        configured_target == DeliveryTarget::Insert ==> spec_delivery_overlay_state(
            configured_target,
            report,
        ) == Some(
            match report {
                ReportView::InsertRequestSent { .. } => OverlayState::InsertSubmitted,
                ReportView::InsertUncertain { .. } => OverlayState::InsertionUncertain,
                ReportView::Delivered { target: ConfirmedDeliveryTarget::Clipboard, .. } =>
                    OverlayState::PendingTranscript,
                _ => OverlayState::DeliveryFailed,
            },
        ),
        configured_target == DeliveryTarget::Clipboard && report == (ReportView::Delivered {
            target: ConfirmedDeliveryTarget::Clipboard,
            preceding_failures: Seq::empty(),
        }) ==> spec_delivery_overlay_state(configured_target, report) is None,
        configured_target == DeliveryTarget::Stdout && report == (ReportView::Delivered {
            target: ConfirmedDeliveryTarget::Stdout,
            preceding_failures: Seq::empty(),
        }) ==> spec_delivery_overlay_state(configured_target, report) is None,
        configured_target == DeliveryTarget::Clipboard && (report matches ReportView::Delivered {
            target: ConfirmedDeliveryTarget::Stdout,
            preceding_failures,
        } && preceding_failures.len() > 0) ==> spec_delivery_overlay_state(configured_target, report)
            == Some(OverlayState::DeliveryFailed),
{
}

pub fn delivery_overlay_state(configured_target: DeliveryTarget, report: &DeliveryReport) -> (r:
    Option<OverlayState>)
    ensures
        r == spec_delivery_overlay_state(configured_target, report@),
{
    if configured_target == DeliveryTarget::Insert {
        return insertion_result_overlay_state(report);
    }
    match report {
        DeliveryReport::Delivered { target, preceding_failures } => {
            if configured_target == DeliveryTarget::Clipboard && *target
                == ConfirmedDeliveryTarget::Stdout && preceding_failures.len() > 0 {
                Some(OverlayState::DeliveryFailed)
            } else {
                None
            }
        },
        DeliveryReport::NotDelivered { .. } => Some(OverlayState::DeliveryFailed),
        _ => None,
    }
}

/// The descriptions of `failures` joined by `"; "`.
pub open spec fn spec_describe_failures(failures: Seq<DeliveryAttemptFailure>) -> Seq<char>
    decreases failures.len(),
{
    if failures.len() == 0 {
        Seq::empty()
    } else if failures.len() == 1 {
        failures[0].spec_describe()
    } else {
        spec_describe_failures(failures.drop_last()) + "; "@ + failures.last().spec_describe()
    }
}

/// The descriptions of `failures` joined by `"; "`.
pub fn describe_delivery_failures(failures: &[&DeliveryAttemptFailure]) -> (r: String)
    ensures
        r@ == spec_describe_failures(failures@.map_values(|f: &DeliveryAttemptFailure| *f)),
{
    let ghost all = failures@.map_values(|f: &DeliveryAttemptFailure| *f);
    let mut out = String::new();
    let mut i: usize = 0;
    while i < failures.len()
        invariant
            i <= failures@.len(),
            all == failures@.map_values(|f: &DeliveryAttemptFailure| *f),
            out@ == spec_describe_failures(all.subrange(0, i as int)),
        decreases failures@.len() - i,
    {
        let ghost before = all.subrange(0, i as int);
        if i > 0 {
            out.append("; ");
        }
        out.append(failures[i].describe().as_str());
        proof {
            let after = all.subrange(0, i + 1);
            assert(after.drop_last() =~= before);
            assert(after.last() == *failures@[i as int]);
            if i == 0 {
                assert(before.len() == 0);
                assert(out@ =~= after[0].spec_describe());
            }
        }
        i = i + 1;
    }
    proof {
        assert(all.subrange(0, i as int) =~= all);
    }
    out
}

/// Identifies one recording.
#[derive(Clone, Copy, Debug, PartialEq, Eq, Structural)]
pub struct RecordingId(pub u64);

impl RecordingId {
    pub fn new(value: u64) -> (r: RecordingId)
        ensures
            r.0 == value,
    {
        RecordingId(value)
    }
}

/// What to do with the microphone.
#[derive(Clone, Copy, Debug, PartialEq, Eq, Structural)]
pub enum MicSessionAction {
    Open,
    Close,
    Keep,
}

/// The microphone follows the current recording: open when a recording has none,
/// keep it when it belongs to the current recording (or when neither exists), close
/// it when it belongs to no recording or another one.
pub fn mic_session_action(
    current_recording_id: Option<RecordingId>,
    open_recording_id: Option<RecordingId>,
) -> (r: MicSessionAction)
    ensures
        r == (match (current_recording_id, open_recording_id) {
            (Some(current), Some(open)) => if current == open {
                MicSessionAction::Keep
            } else {
                MicSessionAction::Close
            },
            (Some(_), None) => MicSessionAction::Open,
            (None, None) => MicSessionAction::Keep,
            (None, Some(_)) => MicSessionAction::Close,
        }),
{
    match (current_recording_id, open_recording_id) {
        (Some(current), Some(open)) => {
            if current.0 == open.0 {
                MicSessionAction::Keep
            } else {
                MicSessionAction::Close
            }
        },
        (Some(_), None) => MicSessionAction::Open,
        (None, None) => MicSessionAction::Keep,
        (None, Some(_)) => MicSessionAction::Close,
    }
}

/// The first wait after a failed accept, in milliseconds.
pub const ACCEPT_BACKOFF_BASE_MILLIS: u64 = 50;

/// The longest wait after failed accepts, in milliseconds.
pub const ACCEPT_BACKOFF_MAX_MILLIS: u64 = 5_000;

/// The wait after `failures` consecutive failed accepts, in nanoseconds: 50 ms,
/// doubled each time, never more than 5 s.
pub open spec fn backoff_delay(failures: nat) -> nat
    decreases failures,
{
    if failures == 0 {
        50_000_000
    } else if 2 * backoff_delay((failures - 1) as nat) <= 5_000_000_000 {
        2 * backoff_delay((failures - 1) as nat)
    } else {
        5_000_000_000
    }
}

/// The wait after failed accepts: doubling from 50 ms up to 5 s.
#[derive(Debug)]
pub struct Backoff {
    current: TimeSpan,
}

impl Backoff {
    /// The wait that the next failure gets.
    pub closed spec fn spec_current(self) -> TimeSpan {
        self.current
    }

    pub fn new() -> (r: Backoff)
        ensures
            r.spec_current().spec_nanos() == backoff_delay(0),
    {
        Backoff { current: TimeSpan::from_millis(ACCEPT_BACKOFF_BASE_MILLIS) }
    }

    /// The wait for this failure; the next one waits twice as long, up to 5 s.
    pub fn next(&mut self) -> (r: TimeSpan)
        ensures
            r == old(self).spec_current(),
            final(self).spec_current().spec_nanos() == if 2 * r.spec_nanos() <= 5_000_000_000 {
                2 * r.spec_nanos()
            } else {
                5_000_000_000
            },
    {
        let current = self.current;
        self.current = current.saturating_mul(2).min(TimeSpan::from_millis(ACCEPT_BACKOFF_MAX_MILLIS));
        current
    }

    /// Back to the first wait.
    pub fn reset(&mut self)
        ensures
            final(self).spec_current().spec_nanos() == backoff_delay(0),
    {
        self.current = TimeSpan::from_millis(ACCEPT_BACKOFF_BASE_MILLIS);
    }
}

/// A backoff that starts at the first wait gives, for the k-th consecutive failure,
/// `backoff_delay(k)`: never more than 5 s, and exactly 5 s from the seventh failure on.
pub proof fn lemma_backoff_delay_bounded(failures: nat)
    ensures
        50_000_000 <= backoff_delay(failures) <= 5_000_000_000,
        failures >= 7 ==> backoff_delay(failures) == 5_000_000_000,
    decreases failures,
{
    if failures > 0 {
        lemma_backoff_delay_bounded((failures - 1) as nat);
    }
    if failures == 7 {
        reveal_with_fuel(backoff_delay, 8);
    }
}

/// The last completed transcript, kept so that it can be pasted again.
#[derive(Debug)]
pub struct LastTranscript<T> {
    text: Option<Arc<T>>,
}

impl<T> LastTranscript<T> {
    /// The transcript kept, if any.
    pub closed spec fn spec_text(self) -> Option<T> {
        match self.text {
            Some(t) => Some(*t),
            None => None,
        }
    }

    pub fn new() -> (r: LastTranscript<T>)
        ensures
            r.spec_text() is None,
    {
        LastTranscript { text: None }
    }

    /// Keeps `text` in place of what was kept, and returns the shared copy kept.
    pub fn replace(&mut self, text: T) -> (r: Arc<T>)
        ensures
            *r == text,
            final(self).spec_text() == Some(text),
    {
        let text = Arc::new(text);
        self.text = Some(Arc::clone(&text));
        text
    }

    /// The transcript kept, shared.
    pub fn get(&self) -> (r: Option<Arc<T>>)
        ensures
            r is Some <==> self.spec_text() is Some,
            r matches Some(t) ==> Some(*t) == self.spec_text(),
    {
        match &self.text {
            Some(t) => Some(Arc::clone(t)),
            None => None,
        }
    }
}

impl<T> Default for LastTranscript<T> {
    fn default() -> (r: LastTranscript<T>)
        ensures
            r.spec_text() is None,
    {
        LastTranscript::new()
    }
}

/// What to do with the overlay.
#[derive(Clone, Copy, Debug, PartialEq, Eq, Structural)]
pub enum OverlayAction {
    /// Show the state for a moment, then hide.
    ShowBriefly(OverlayState),
    /// Show the state until it is replaced.
    Show(OverlayState),
    Hide,
}

/// How a state after a delivery is shown: the brief states for a moment, the others
/// until replaced; no state hides the overlay.
pub open spec fn spec_overlay_action(state: Option<OverlayState>) -> OverlayAction {
    match state {
        Some(s) => if s == OverlayState::InsertSubmitted || s == OverlayState::NoTranscript || s
            == OverlayState::NothingToPaste {
            OverlayAction::ShowBriefly(s)
        } else {
            OverlayAction::Show(s)
        },
        None => OverlayAction::Hide,
    }
}

/// How a state after a delivery is shown.
pub fn overlay_action(state: Option<OverlayState>) -> (r: OverlayAction)
    ensures
        r == spec_overlay_action(state),
{
    match state {
        Some(s) => if s.is_brief() {
            OverlayAction::ShowBriefly(s)
        } else {
            OverlayAction::Show(s)
        },
        None => OverlayAction::Hide,
    }
}

/// The log line for a finished delivery of `text` (`chars` characters): nothing for a
/// plain stdout delivery, otherwise what happened and the failures on the way.
pub open spec fn spec_delivery_log_line(report: ReportView, chars: nat) -> Option<Seq<char>> {
    match report {
        ReportView::Delivered { target, preceding_failures } => match target {
            ConfirmedDeliveryTarget::Stdout => if preceding_failures.len() == 0 {
                None
            } else {
                Some(
                    "dictation delivered via stdout fallback after "@ + spec_describe_failures(
                        preceding_failures,
                    ) + ";"@,
                )
            },
            ConfirmedDeliveryTarget::Clipboard => if preceding_failures.len() == 0 {
                Some("dictation copied to clipboard ("@ + decimal(chars) + " chars)"@)
            } else {
                Some(
                    "dictation copied to clipboard after "@ + spec_describe_failures(
                        preceding_failures,
                    ) + " ("@ + decimal(chars) + " chars)"@,
                )
            },
        },
        ReportView::InsertRequestSent { sent_bytes } => Some(
            "dictation sent to Wayland input method ("@ + decimal(sent_bytes as nat)
                + " bytes); focused app insertion is not confirmed"@,
        ),
        ReportView::InsertUncertain { maybe_sent_bytes, failure } => Some(
            "insert delivery uncertain ("@ + decimal(maybe_sent_bytes as nat)
                + " bytes may have been sent before failure: "@ + failure.spec_describe()
                + "); fallback skipped to avoid duplicating text"@,
        ),
        ReportView::NotDelivered { failures } => Some(
            "dictation was transcribed but could not be delivered: "@ + spec_describe_failures(
                failures,
            ),
        ),
    }
}

fn refs_of(v: &Vec<DeliveryAttemptFailure>) -> (r: Vec<&DeliveryAttemptFailure>)
    ensures
        r@.map_values(|f: &DeliveryAttemptFailure| *f) == v@,
{
    let mut out: Vec<&DeliveryAttemptFailure> = Vec::new();
    let mut i: usize = 0;
    while i < v.len()
        invariant
            i <= v@.len(),
            out@.len() == i,
            forall|j: int| 0 <= j < i ==> *(#[trigger] out@[j]) == v@[j],
        decreases v@.len() - i,
    {
        out.push(&v[i]);
        i = i + 1;
    }
    proof {
        assert(out@.map_values(|f: &DeliveryAttemptFailure| *f) =~= v@);
    }
    out
}

/// The log line for a finished delivery of `text`.
pub fn delivery_log_line(report: &DeliveryReport, text: &str) -> (r: Option<String>)
    ensures
        match spec_delivery_log_line(report@, text@.len()) {
            Some(line) => r matches Some(l) && l@ == line,
            None => r is None,
        },
{
    match report {
        DeliveryReport::Delivered { target, preceding_failures } => {
            let failures = refs_of(preceding_failures);
            match target {
                ConfirmedDeliveryTarget::Stdout => {
                    if preceding_failures.len() == 0 {
                        None
                    } else {
                        let mut line = String::from_str(
                            "dictation delivered via stdout fallback after ",
                        );
                        line.append(describe_delivery_failures(failures.as_slice()).as_str());
                        line.append(";");
                        Some(line)
                    }
                },
                ConfirmedDeliveryTarget::Clipboard => {
                    let mut line = if preceding_failures.len() == 0 {
                        String::from_str("dictation copied to clipboard (")
                    } else {
                        let mut l = String::from_str("dictation copied to clipboard after ");
                        l.append(describe_delivery_failures(failures.as_slice()).as_str());
                        l.append(" (");
                        l
                    };
                    push_decimal(&mut line, text.unicode_len() as u64);
                    line.append(" chars)");
                    Some(line)
                },
            }
        },
        DeliveryReport::InsertRequestSent { sent_bytes } => {
            let mut line = String::from_str("dictation sent to Wayland input method (");
            push_decimal(&mut line, *sent_bytes as u64);
            line.append(" bytes); focused app insertion is not confirmed");
            Some(line)
        },
        DeliveryReport::InsertUncertain { maybe_sent_bytes, failure } => {
            let mut line = String::from_str("insert delivery uncertain (");
            push_decimal(&mut line, *maybe_sent_bytes as u64);
            line.append(" bytes may have been sent before failure: ");
            line.append(failure.describe().as_str());
            line.append("); fallback skipped to avoid duplicating text");
            Some(line)
        },
        DeliveryReport::NotDelivered { failures } => {
            let all = failures.iter();
            proof {
                assert(all@.map_values(|f: &DeliveryAttemptFailure| *f) =~= failures.spec_all());
            }
            let mut line = String::from_str(
                "dictation was transcribed but could not be delivered: ",
            );
            line.append(describe_delivery_failures(all.as_slice()).as_str());
            Some(line)
        },
    }
}

/// A request to the running daemon.
#[derive(Debug, PartialEq, Eq)]
pub enum DaemonRequest {
    Record { command: DictationCommand, stop_focus: FocusSnapshot },
    PasteLast,
    Dismiss,
}

/// Commands that may stop a recording carry the focus at the moment they are sent.
pub open spec fn spec_needs_stop_focus(command: DictationCommand) -> bool {
    command == DictationCommand::Stop || command == DictationCommand::Toggle
}

/// The request for a record command: stop and toggle record the focus by calling
/// `snapshot` once; start and cancel carry no focus and do not call it.
pub fn record_request<F: FnOnce() -> FocusSnapshot>(command: DictationCommand, snapshot: F) -> (r:
    DaemonRequest)
    requires
        spec_needs_stop_focus(command) ==> call_requires(snapshot, ()),
    ensures
        !spec_needs_stop_focus(command) ==> r == (DaemonRequest::Record {
            command,
            stop_focus: FocusSnapshot::Unavailable,
        }),
        spec_needs_stop_focus(command) ==> exists|focus: FocusSnapshot|
            call_ensures(snapshot, (), focus) && r == (DaemonRequest::Record {
                command,
                stop_focus: focus,
            }),
{
    let stop_focus = match command {
        DictationCommand::Stop | DictationCommand::Toggle => snapshot(),
        DictationCommand::Start | DictationCommand::Cancel => FocusSnapshot::Unavailable,
    };
    DaemonRequest::Record { command, stop_focus }
}

/// The message for requests made while transcription is unavailable.
pub const UNAVAILABLE_MESSAGE: &'static str =
    "transcription is unavailable; restart `dictate daemon`";

/// What the daemon does after the dictation answered a record command.
#[derive(Debug, PartialEq, Eq)]
pub enum RecordResponse {
    /// Show recording, then begin recording.
    BeginRecording,
    /// Show transcribing, then begin stopping.
    BeginStopping,
    /// Hide the overlay and log the message.
    HideAndLog(String),
    /// Log the message only.
    Log(String),
}

/// What the daemon does for each answer: a start shows recording and a stop shows
/// transcribing before the microphone is told; a cancel hides the overlay; any other
/// answer is only logged.
pub fn record_response(update: DictationUpdate) -> (r: RecordResponse)
    ensures
        match update {
            DictationUpdate::Started => r == RecordResponse::BeginRecording,
            DictationUpdate::Stopped => r == RecordResponse::BeginStopping,
            DictationUpdate::Cancelled => r matches RecordResponse::HideAndLog(m) && m@
                == "dictation cancelled"@,
            DictationUpdate::Ignored(reason) => r matches RecordResponse::Log(m) && m@
                == "record command ignored: "@ + reason@,
            DictationUpdate::Busy(phase) => r matches RecordResponse::Log(m) && m@ == if phase
                == DictationPhase::Unavailable {
                UNAVAILABLE_MESSAGE@
            } else {
                "cannot change recording while "@ + phase.spec_label()
            },
        },
{
    match update {
        DictationUpdate::Started => RecordResponse::BeginRecording,
        DictationUpdate::Stopped => RecordResponse::BeginStopping,
        DictationUpdate::Cancelled => RecordResponse::HideAndLog(
            String::from_str("dictation cancelled"),
        ),
        DictationUpdate::Ignored(reason) => {
            let mut m = String::from_str("record command ignored: ");
            m.append(reason);
            RecordResponse::Log(m)
        },
        DictationUpdate::Busy(phase) => {
            if phase == DictationPhase::Unavailable {
                RecordResponse::Log(String::from_str(UNAVAILABLE_MESSAGE))
            } else {
                let mut m = String::from_str("cannot change recording while ");
                m.append(phase.label());
                RecordResponse::Log(m)
            }
        },
    }
}

/// The log line after asking to begin recording or stopping, and whether the overlay
/// hides: it hides when the request was superseded.
pub fn begin_outcome(stopping: bool, began: bool) -> (r: (bool, &'static str))
    ensures
        r.0 == !began,
        r.1@ == if stopping {
            if began {
                "dictation stopped; draining captured audio before transcription"@
            } else {
                "recording stop was superseded before microphone drain"@
            }
        } else {
            if began {
                "opening microphone for dictation"@
            } else {
                "recording start was superseded before microphone open"@
            }
        },
{
    if stopping {
        if began {
            (false, "dictation stopped; draining captured audio before transcription")
        } else {
            (true, "recording stop was superseded before microphone drain")
        }
    } else {
        if began {
            (false, "opening microphone for dictation")
        } else {
            (true, "recording start was superseded before microphone open")
        }
    }
}

/// What pasting the last transcript does.
#[derive(Debug, PartialEq, Eq)]
pub enum PastePlan {
    /// Dictation is busy: log the message.
    Refuse(String),
    /// Nothing was transcribed yet: show that briefly.
    NothingToPaste,
    /// Insert the retained transcript.
    Deliver,
}

/// Pasting works only while dictation is idle and a transcript is retained.
pub fn paste_plan(phase: DictationPhase, has_transcript: bool) -> (r: PastePlan)
    ensures
        phase != DictationPhase::Idle ==> (r matches PastePlan::Refuse(m) && m@
            == "cannot paste completed dictation while "@ + phase.spec_label()),
        phase == DictationPhase::Idle && !has_transcript ==> r == PastePlan::NothingToPaste,
        phase == DictationPhase::Idle && has_transcript ==> r == PastePlan::Deliver,
{
    if phase != DictationPhase::Idle {
        let mut m = String::from_str("cannot paste completed dictation while ");
        m.append(phase.label());
        return PastePlan::Refuse(m);
    }
    if has_transcript {
        PastePlan::Deliver
    } else {
        PastePlan::NothingToPaste
    }
}

} // verus!
