//! What an insertion backend reports: the outcome of one insertion request and the
//! failures it can name, each with the sentence that describes it.
use vstd::prelude::*;
use vstd::string::StringExecFns;
use crate::strings::decimal;
use crate::strings::push_decimal;
use crate::strings::str_eq;

verus! {

/// Text handed to an insertion backend: never empty.
#[derive(Clone, Copy, Debug)]
pub struct InsertionText<'a> {
    text: &'a str,
}

impl<'a> InsertionText<'a> {
    #[verifier::type_invariant]
    spec fn text_is_not_empty(self) -> bool {
        self.text@.len() > 0
    }

    /// The characters of the text.
    pub closed spec fn view(self) -> Seq<char> {
        self.text@
    }

    /// `Some` exactly when `text` is not empty.
    pub fn new(text: &'a str) -> (r: Option<InsertionText<'a>>)
        ensures
            r is Some <==> text@.len() > 0,
            r matches Some(t) ==> t.view() == text@,
    {
        if text.is_empty() {
            None
        } else {
            Some(InsertionText { text })
        }
    }

    /// The text itself.
    pub fn as_str(self) -> (r: &'a str)
        ensures
            r@ == self.view(),
            r@.len() > 0,
    {
        proof {
            use_type_invariant(self);
        }
        self.text
    }
}

/// The kinds of standard I/O error that failures carry, named as the standard
/// library's `ErrorKind` prints them; kinds not listed keep their printed name.
#[derive(Clone, Debug, PartialEq, Eq)]
pub enum IoErrorKind {
    NotFound,
    PermissionDenied,
    ConnectionRefused,
    ConnectionReset,
    ConnectionAborted,
    NotConnected,
    AddrInUse,
    AddrNotAvailable,
    BrokenPipe,
    AlreadyExists,
    WouldBlock,
    InvalidInput,
    InvalidData,
    TimedOut,
    WriteZero,
    Interrupted,
    Unsupported,
    UnexpectedEof,
    OutOfMemory,
    Other,
    Unlisted(String),
}

impl IoErrorKind {
    pub open spec fn spec_name(self) -> Seq<char> {
        match self {
            IoErrorKind::NotFound => "NotFound"@,
            IoErrorKind::PermissionDenied => "PermissionDenied"@,
            IoErrorKind::ConnectionRefused => "ConnectionRefused"@,
            IoErrorKind::ConnectionReset => "ConnectionReset"@,
            IoErrorKind::ConnectionAborted => "ConnectionAborted"@,
            IoErrorKind::NotConnected => "NotConnected"@,
            IoErrorKind::AddrInUse => "AddrInUse"@,
            IoErrorKind::AddrNotAvailable => "AddrNotAvailable"@,
            IoErrorKind::BrokenPipe => "BrokenPipe"@,
            IoErrorKind::AlreadyExists => "AlreadyExists"@,
            IoErrorKind::WouldBlock => "WouldBlock"@,
            IoErrorKind::InvalidInput => "InvalidInput"@,
            IoErrorKind::InvalidData => "InvalidData"@,
            IoErrorKind::TimedOut => "TimedOut"@,
            IoErrorKind::WriteZero => "WriteZero"@,
            IoErrorKind::Interrupted => "Interrupted"@,
            IoErrorKind::Unsupported => "Unsupported"@,
            IoErrorKind::UnexpectedEof => "UnexpectedEof"@,
            IoErrorKind::OutOfMemory => "OutOfMemory"@,
            IoErrorKind::Other => "Other"@,
            IoErrorKind::Unlisted(name) => name@,
        }
    }

    /// A listed kind's name.
    pub open spec fn is_listed_name(name: Seq<char>) -> bool {
        name == "NotFound"@
            || name == "PermissionDenied"@
            || name == "ConnectionRefused"@
            || name == "ConnectionReset"@
            || name == "ConnectionAborted"@
            || name == "NotConnected"@
            || name == "AddrInUse"@
            || name == "AddrNotAvailable"@
            || name == "BrokenPipe"@
            || name == "AlreadyExists"@
            || name == "WouldBlock"@
            || name == "InvalidInput"@
            || name == "InvalidData"@
            || name == "TimedOut"@
            || name == "WriteZero"@
            || name == "Interrupted"@
            || name == "Unsupported"@
            || name == "UnexpectedEof"@
            || name == "OutOfMemory"@
            || name == "Other"@
    }

    /// The kind with the printed name `name`: a listed kind where the name is one,
    /// otherwise the name kept as it is.
    pub fn from_name(name: &str) -> (r: IoErrorKind)
        ensures
            r.spec_name() == name@,
            r is Unlisted <==> !Self::is_listed_name(name@),
    {
        if str_eq(name, "NotFound") {
            IoErrorKind::NotFound
        } else if str_eq(name, "PermissionDenied") {
            IoErrorKind::PermissionDenied
        } else if str_eq(name, "ConnectionRefused") {
            IoErrorKind::ConnectionRefused
        } else if str_eq(name, "ConnectionReset") {
            IoErrorKind::ConnectionReset
        } else if str_eq(name, "ConnectionAborted") {
            IoErrorKind::ConnectionAborted
        } else if str_eq(name, "NotConnected") {
            IoErrorKind::NotConnected
        } else if str_eq(name, "AddrInUse") {
            IoErrorKind::AddrInUse
        } else if str_eq(name, "AddrNotAvailable") {
            IoErrorKind::AddrNotAvailable
        } else if str_eq(name, "BrokenPipe") {
            IoErrorKind::BrokenPipe
        } else if str_eq(name, "AlreadyExists") {
            IoErrorKind::AlreadyExists
        } else if str_eq(name, "WouldBlock") {
            IoErrorKind::WouldBlock
        } else if str_eq(name, "InvalidInput") {
            IoErrorKind::InvalidInput
        } else if str_eq(name, "InvalidData") {
            IoErrorKind::InvalidData
        } else if str_eq(name, "TimedOut") {
            IoErrorKind::TimedOut
        } else if str_eq(name, "WriteZero") {
            IoErrorKind::WriteZero
        } else if str_eq(name, "Interrupted") {
            IoErrorKind::Interrupted
        } else if str_eq(name, "Unsupported") {
            IoErrorKind::Unsupported
        } else if str_eq(name, "UnexpectedEof") {
            IoErrorKind::UnexpectedEof
        } else if str_eq(name, "OutOfMemory") {
            IoErrorKind::OutOfMemory
        } else if str_eq(name, "Other") {
            IoErrorKind::Other
        } else {
            IoErrorKind::Unlisted(String::from_str(name))
        }
    }

    /// The kind's printed name.
    pub fn name(&self) -> (r: String)
        ensures
            r@ == self.spec_name(),
    {
        match self {
            IoErrorKind::NotFound => String::from_str("NotFound"),
            IoErrorKind::PermissionDenied => String::from_str("PermissionDenied"),
            IoErrorKind::ConnectionRefused => String::from_str("ConnectionRefused"),
            IoErrorKind::ConnectionReset => String::from_str("ConnectionReset"),
            IoErrorKind::ConnectionAborted => String::from_str("ConnectionAborted"),
            IoErrorKind::NotConnected => String::from_str("NotConnected"),
            IoErrorKind::AddrInUse => String::from_str("AddrInUse"),
            IoErrorKind::AddrNotAvailable => String::from_str("AddrNotAvailable"),
            IoErrorKind::BrokenPipe => String::from_str("BrokenPipe"),
            IoErrorKind::AlreadyExists => String::from_str("AlreadyExists"),
            IoErrorKind::WouldBlock => String::from_str("WouldBlock"),
            IoErrorKind::InvalidInput => String::from_str("InvalidInput"),
            IoErrorKind::InvalidData => String::from_str("InvalidData"),
            IoErrorKind::TimedOut => String::from_str("TimedOut"),
            IoErrorKind::WriteZero => String::from_str("WriteZero"),
            IoErrorKind::Interrupted => String::from_str("Interrupted"),
            IoErrorKind::Unsupported => String::from_str("Unsupported"),
            IoErrorKind::UnexpectedEof => String::from_str("UnexpectedEof"),
            IoErrorKind::OutOfMemory => String::from_str("OutOfMemory"),
            IoErrorKind::Other => String::from_str("Other"),
            IoErrorKind::Unlisted(name) => String::from_str(name.as_str()),
        }
    }
}

/// The result of one insertion request.
#[derive(Clone, Debug, PartialEq, Eq)]
pub enum InsertionOutcome {
    /// The backend submitted the text; that the application inserted it is not known.
    Submitted { sent_bytes: usize },
    NotInserted(InsertionFailure),
    /// Some bytes may have reached the target before the failure.
    DeliveryUncertain { maybe_sent_bytes: usize, failure: InsertionFailure },
}

#[derive(Clone, Debug, PartialEq, Eq)]
pub enum InsertionFailure {
    BackendUnavailable { backend: InsertionBackendKind },
    TargetUnavailable { target: InsertionTargetKind },
    AmbiguousTarget { target: InsertionTargetKind, count: u32 },
    InsertionAuthorityLost { reason: InsertionAuthorityLoss },
    IdleTimedOut { operation: InsertionIoOperation },
    AttemptTimedOut { operation: InsertionIoOperation },
    BackendFailed { backend: InsertionBackendKind, failure: InsertionBackendFailure },
}

#[derive(Clone, Copy, Debug, PartialEq, Eq)]
pub enum InsertionBackendKind {
    WaylandInputMethod,
}

#[derive(Clone, Copy, Debug, PartialEq, Eq)]
pub enum InsertionTargetKind {
    Seat,
}

#[derive(Clone, Copy, Debug, PartialEq, Eq)]
pub enum InsertionAuthorityLoss {
    InputMethodDeactivated,
    InputMethodUnavailable,
}

#[derive(Clone, Debug, PartialEq, Eq)]
pub enum InsertionBackendFailure {
    Io { operation: InsertionIoOperation, kind: IoErrorKind, message: String },
    Protocol {
        operation: InsertionIoOperation,
        kind: InsertionProtocolFailureKind,
        message: String,
    },
}

#[derive(Clone, Copy, Debug, PartialEq, Eq)]
pub enum InsertionProtocolFailureKind {
    BadMessage,
    WaylandProtocol,
    SessionState,
}

#[derive(Clone, Copy, Debug, PartialEq, Eq)]
pub enum InsertionIoOperation {
    Connect,
    WaitReadable,
    WaitWritable,
    ReadEvents,
    FlushRequests,
}

impl InsertionBackendKind {
    pub open spec fn spec_describe(self) -> Seq<char> {
        match self {
            InsertionBackendKind::WaylandInputMethod => "Wayland input-method"@,
        }
    }

    pub fn describe(&self) -> (r: String)
        ensures
            r@ == self.spec_describe(),
    {
        match self {
            InsertionBackendKind::WaylandInputMethod => String::from_str("Wayland input-method"),
        }
    }
}

impl InsertionTargetKind {
    pub open spec fn spec_describe(self) -> Seq<char> {
        match self {
            InsertionTargetKind::Seat => "Wayland seat"@,
        }
    }

    pub fn describe(&self) -> (r: String)
        ensures
            r@ == self.spec_describe(),
    {
        match self {
            InsertionTargetKind::Seat => String::from_str("Wayland seat"),
        }
    }
}

impl InsertionAuthorityLoss {
    pub open spec fn spec_describe(self) -> Seq<char> {
        match self {
            InsertionAuthorityLoss::InputMethodDeactivated =>
                "Wayland input method deactivated during the insertion request"@,
            InsertionAuthorityLoss::InputMethodUnavailable =>
                "Wayland input method became unavailable during the insertion request"@,
        }
    }

    pub fn describe(&self) -> (r: String)
        ensures
            r@ == self.spec_describe(),
    {
        match self {
            InsertionAuthorityLoss::InputMethodDeactivated => String::from_str(
                "Wayland input method deactivated during the insertion request",
            ),
            InsertionAuthorityLoss::InputMethodUnavailable => String::from_str(
                "Wayland input method became unavailable during the insertion request",
            ),
        }
    }
}

impl InsertionProtocolFailureKind {
    pub open spec fn spec_describe(self) -> Seq<char> {
        match self {
            InsertionProtocolFailureKind::BadMessage => "bad message"@,
            InsertionProtocolFailureKind::WaylandProtocol => "Wayland protocol"@,
            InsertionProtocolFailureKind::SessionState => "input-method session state"@,
        }
    }

    pub fn describe(&self) -> (r: String)
        ensures
            r@ == self.spec_describe(),
    {
        match self {
            InsertionProtocolFailureKind::BadMessage => String::from_str("bad message"),
            InsertionProtocolFailureKind::WaylandProtocol => String::from_str("Wayland protocol"),
            InsertionProtocolFailureKind::SessionState => String::from_str(
                "input-method session state",
            ),
        }
    }
}

impl InsertionIoOperation {
    pub open spec fn spec_describe(self) -> Seq<char> {
        match self {
            InsertionIoOperation::Connect => "connecting to backend"@,
            InsertionIoOperation::WaitReadable => "waiting for readability"@,
            InsertionIoOperation::WaitWritable => "waiting for writability"@,
            InsertionIoOperation::ReadEvents => "reading events"@,
            InsertionIoOperation::FlushRequests => "flushing requests"@,
        }
    }

    pub fn describe(&self) -> (r: String)
        ensures
            r@ == self.spec_describe(),
    {
        match self {
            InsertionIoOperation::Connect => String::from_str("connecting to backend"),
            InsertionIoOperation::WaitReadable => String::from_str("waiting for readability"),
            InsertionIoOperation::WaitWritable => String::from_str("waiting for writability"),
            InsertionIoOperation::ReadEvents => String::from_str("reading events"),
            InsertionIoOperation::FlushRequests => String::from_str("flushing requests"),
        }
    }
}

impl InsertionBackendFailure {
    pub open spec fn spec_describe(self) -> Seq<char> {
        match self {
            InsertionBackendFailure::Io { operation, kind, message } => "IO while "@
                + operation.spec_describe() + ": "@ + message@ + " ("@ + kind.spec_name()
                + ")"@,
            InsertionBackendFailure::Protocol { operation, kind, message } => "protocol while "@
                + operation.spec_describe() + ": "@ + message@ + " ("@ + kind.spec_describe()
                + ")"@,
        }
    }

    /// The sentence that describes the failure.
    pub fn describe(&self) -> (r: String)
        ensures
            r@ == self.spec_describe(),
    {
        match self {
            InsertionBackendFailure::Io { operation, kind, message } => {
                let mut out = String::from_str("IO while ");
                out.append(operation.describe().as_str());
                out.append(": ");
                out.append(message.as_str());
                out.append(" (");
                out.append(kind.name().as_str());
                out.append(")");
                out
            },
            InsertionBackendFailure::Protocol { operation, kind, message } => {
                let mut out = String::from_str("protocol while ");
                out.append(operation.describe().as_str());
                out.append(": ");
                out.append(message.as_str());
                out.append(" (");
                out.append(kind.describe().as_str());
                out.append(")");
                out
            },
        }
    }
}

impl InsertionFailure {
    pub open spec fn spec_describe(self) -> Seq<char> {
        match self {
            InsertionFailure::BackendUnavailable { backend } =>
                "text insertion backend is unavailable: "@ + backend.spec_describe(),
            InsertionFailure::TargetUnavailable { target } =>
                "text insertion target is unavailable: "@ + target.spec_describe(),
            InsertionFailure::AmbiguousTarget { target, count } =>
                "text insertion target is ambiguous: "@ + target.spec_describe() + " matched "@
                    + decimal(count as nat) + " candidates"@,
            InsertionFailure::InsertionAuthorityLost { reason } =>
                "text insertion authority was lost: "@ + reason.spec_describe(),
            InsertionFailure::IdleTimedOut { operation } =>
                "text insertion made no progress before the idle timeout while "@
                    + operation.spec_describe(),
            InsertionFailure::AttemptTimedOut { operation } =>
                "text insertion exceeded the attempt timeout while "@ + operation.spec_describe(),
            InsertionFailure::BackendFailed { backend, failure } =>
                "text insertion backend failed: "@ + backend.spec_describe() + ": "@
                    + failure.spec_describe(),
        }
    }

    /// The sentence that describes the failure.
    pub fn describe(&self) -> (r: String)
        ensures
            r@ == self.spec_describe(),
    {
        match self {
            InsertionFailure::BackendUnavailable { backend } => {
                let mut out = String::from_str("text insertion backend is unavailable: ");
                out.append(backend.describe().as_str());
                out
            },
            InsertionFailure::TargetUnavailable { target } => {
                let mut out = String::from_str("text insertion target is unavailable: ");
                out.append(target.describe().as_str());
                out
            },
            InsertionFailure::AmbiguousTarget { target, count } => {
                let mut out = String::from_str("text insertion target is ambiguous: ");
                out.append(target.describe().as_str());
                out.append(" matched ");
                push_decimal(&mut out, *count as u64);
                out.append(" candidates");
                out
            },
            InsertionFailure::InsertionAuthorityLost { reason } => {
                let mut out = String::from_str("text insertion authority was lost: ");
                out.append(reason.describe().as_str());
                out
            },
            InsertionFailure::IdleTimedOut { operation } => {
                let mut out = String::from_str(
                    "text insertion made no progress before the idle timeout while ",
                );
                out.append(operation.describe().as_str());
                out
            },
            InsertionFailure::AttemptTimedOut { operation } => {
                let mut out = String::from_str(
                    "text insertion exceeded the attempt timeout while ",
                );
                out.append(operation.describe().as_str());
                out
            },
            InsertionFailure::BackendFailed { backend, failure } => {
                let mut out = String::from_str("text insertion backend failed: ");
                out.append(backend.describe().as_str());
                out.append(": ");
                out.append(failure.describe().as_str());
                out
            },
        }
    }
}

} // verus!
