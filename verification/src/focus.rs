//! Which window had keyboard focus: a snapshot taken when recording stopped, and an
//! observation taken before inserting, compared by compositor instance and window id.
use vstd::prelude::*;
use vstd::string::StringExecFns;
use crate::insertion::outcome::IoErrorKind;
use crate::time::TimeSpan;

verus! {

/// One run of the compositor: its process id and the process's start time in clock
/// ticks, so that a restarted compositor that reuses the id is a different instance.
#[derive(Clone, Copy, Debug, PartialEq, Eq, Structural)]
pub struct NiriInstanceId {
    pub pid: i32,
    pub start_time_ticks: u64,
}

impl NiriInstanceId {
    pub fn new(pid: i32, start_time_ticks: u64) -> (r: NiriInstanceId)
        ensures
            r.pid == pid,
            r.start_time_ticks == start_time_ticks,
    {
        NiriInstanceId { pid, start_time_ticks }
    }
}

/// Where focus information came from.
#[derive(Clone, Copy, Debug, PartialEq, Eq, Structural)]
pub enum FocusSource {
    Niri,
}

/// A focused window: the compositor instance, the window id within it, and the
/// application id and title when the compositor reported them.
#[derive(Clone, Debug, PartialEq, Eq)]
pub struct FocusedWindow {
    pub source: FocusSource,
    pub instance: NiriInstanceId,
    pub id: u64,
    pub app_id: Option<String>,
    pub title: Option<String>,
}

fn owned_option(value: Option<&str>) -> (r: Option<String>)
    ensures
        r is Some <==> value is Some,
        r matches Some(s) ==> s@ == value.unwrap()@,
{
    match value {
        Some(v) => Some(String::from_str(v)),
        None => None,
    }
}

impl FocusedWindow {
    /// A window that niri reported.
    pub fn niri(instance: NiriInstanceId, id: u64, app_id: Option<&str>, title: Option<&str>) -> (r:
        FocusedWindow)
        ensures
            r.source == FocusSource::Niri,
            r.instance == instance,
            r.id == id,
            r.app_id is Some <==> app_id is Some,
            r.app_id matches Some(a) ==> a@ == app_id.unwrap()@,
            r.title is Some <==> title is Some,
            r.title matches Some(t) ==> t@ == title.unwrap()@,
    {
        FocusedWindow {
            source: FocusSource::Niri,
            instance,
            id,
            app_id: owned_option(app_id),
            title: owned_option(title),
        }
    }

    /// A niri window of the instance with process id `instance` and start time zero,
    /// as test fixtures describe one.
    pub fn test_niri(instance: i32, id: u64, app_id: &str, title: &str) -> (r: FocusedWindow)
        ensures
            r.source == FocusSource::Niri,
            r.instance == (NiriInstanceId { pid: instance, start_time_ticks: 0 }),
            r.id == id,
            r.app_id matches Some(a) && a@ == app_id@,
            r.title matches Some(t) && t@ == title@,
    {
        Self::niri(NiriInstanceId::new(instance, 0), id, Some(app_id), Some(title))
    }

    /// Both describe the same window: same source, compositor instance and window id.
    /// Application id and title may change while the window stays the same.
    pub open spec fn spec_same_target(self, other: FocusedWindow) -> bool {
        self.source == other.source && self.instance == other.instance && self.id == other.id
    }

    pub fn same_target(&self, other: &FocusedWindow) -> (r: bool)
        ensures
            r == self.spec_same_target(*other),
    {
        self.source == other.source && self.instance == other.instance && self.id == other.id
    }
}

/// Focus as recorded when dictation stopped.
#[derive(Clone, Debug, PartialEq, Eq)]
pub enum FocusSnapshot {
    Focused(FocusedWindow),
    Unavailable,
}

/// What probing the compositor failed on.
#[derive(Clone, Copy, Debug, PartialEq, Eq, Structural)]
pub enum FocusProbeIoOperation {
    BuildSocketAddress,
    CreateSocket,
    Connect,
    CheckConnection,
    ReadPeerIdentity,
    WriteRequest,
    ReadResponse,
    Poll,
}

/// Why a JSON response could not be read.
#[derive(Clone, Copy, Debug, PartialEq, Eq, Structural)]
pub enum FocusResponseFailureKind {
    Io,
    Syntax,
    Data,
    Eof,
}

/// A message from the compositor, kept safe for a one-line log.
#[derive(Clone, Debug, PartialEq, Eq)]
pub struct FocusProbeMessage {
    pub text: String,
}

/// Why a probe failed.
#[derive(Clone, Debug, PartialEq, Eq)]
pub enum FocusProbeFailureKind {
    EnvironmentUnavailable { variable: &'static str },
    Io { operation: FocusProbeIoOperation, kind: IoErrorKind },
    InvalidPeerIdentity,
    TimedOut { operation: FocusProbeIoOperation, timeout: TimeSpan },
    ResponseTooLarge { limit: usize },
    InvalidResponse { kind: FocusResponseFailureKind, line: usize, column: usize },
    RequestRejected { message: FocusProbeMessage },
}

/// A failed probe and where it went to.
#[derive(Clone, Debug, PartialEq, Eq)]
pub struct FocusProbeFailure {
    pub source: FocusSource,
    pub kind: FocusProbeFailureKind,
}

impl FocusProbeFailure {
    pub fn new(source: FocusSource, kind: FocusProbeFailureKind) -> (r: FocusProbeFailure)
        ensures
            r == (FocusProbeFailure { source, kind }),
    {
        FocusProbeFailure { source, kind }
    }
}

/// Focus as observed just before inserting.
#[derive(Clone, Debug, PartialEq, Eq)]
pub enum FocusObservation {
    Focused(FocusedWindow),
    NoFocusedWindow { source: FocusSource },
    UnsupportedSession,
    ProbeFailed(FocusProbeFailure),
}

} // verus!
