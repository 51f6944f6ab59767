//! The service's phases as its socket protocol names them, and when an idle service
//! unloads its model.
use vstd::prelude::*;
use crate::time::TimeSpan;
use crate::time::NANOS_PER_SEC;

verus! {

/// The service's phase.
#[derive(Clone, Copy, Debug, PartialEq, Eq, Structural)]
pub enum State {
    Idle,
    Recording,
    Transcribing,
    Error,
}

impl State {
    pub open spec fn spec_as_str(self) -> Seq<char> {
        match self {
            State::Idle => "Idle"@,
            State::Recording => "Recording"@,
            State::Transcribing => "Transcribing"@,
            State::Error => "Error"@,
        }
    }

    pub open spec fn spec_ui_label(self) -> Seq<char> {
        match self {
            State::Idle => "Ready"@,
            State::Recording => "Recording"@,
            State::Transcribing => "Transcribing"@,
            State::Error => "Error"@,
        }
    }

    /// The phase's name on the wire and in logs.
    pub fn as_str(&self) -> (r: &'static str)
        ensures
            r@ == self.spec_as_str(),
    {
        match self {
            State::Idle => "Idle",
            State::Recording => "Recording",
            State::Transcribing => "Transcribing",
            State::Error => "Error",
        }
    }

    /// The phase as the user reads it: idle reads "Ready".
    pub fn ui_label(&self) -> (r: &'static str)
        ensures
            r@ == self.spec_ui_label(),
    {
        match self {
            State::Idle => "Ready",
            State::Recording => "Recording",
            State::Transcribing => "Transcribing",
            State::Error => "Error",
        }
    }
}

/// Whether the idle check unloads the model: a timeout of less than a second turns the
/// check off; otherwise a loaded model is unloaded once the service was idle for longer
/// than the timeout.
pub fn should_unload_model(idle_timeout: TimeSpan, idle_time: TimeSpan, model_loaded: bool) -> (r:
    bool)
    ensures
        r == (idle_timeout.spec_nanos() >= NANOS_PER_SEC && idle_time.spec_nanos()
            > idle_timeout.spec_nanos() && model_loaded),
{
    if idle_timeout.as_nanos() < NANOS_PER_SEC {
        return false;
    }
    idle_time.as_nanos() > idle_timeout.as_nanos() && model_loaded
}

} // verus!
