//! Animation states of the on-screen display that carry no drawing.
use vstd::prelude::*;
use crate::time::now;
use crate::time::Moment;
use crate::time::TimeSpan;

verus! {

/// Whether the window is fading in or out.
#[derive(Clone, Copy, Debug, PartialEq, Eq, Structural)]
pub enum WindowAnimationState {
    Appearing,
    Disappearing,
}

/// A window fade: its direction, when it started and how long it lasts.
#[derive(Debug)]
pub struct WindowAnimation {
    pub state: WindowAnimationState,
    pub started_at: Moment,
    pub duration: TimeSpan,
}

impl WindowAnimation {
    /// Fading in, starting now, over 200 ms.
    pub fn new_appearing() -> (r: WindowAnimation)
        ensures
            r.state == WindowAnimationState::Appearing,
            r.started_at.spec_nanos() < crate::time::CLOCK_MAX_NANOS,
            r.duration.spec_nanos() == 200_000_000,
    {
        WindowAnimation {
            state: WindowAnimationState::Appearing,
            started_at: now(),
            duration: TimeSpan::from_millis(200),
        }
    }

    /// Fading out, starting now, over 150 ms.
    pub fn new_disappearing() -> (r: WindowAnimation)
        ensures
            r.state == WindowAnimationState::Disappearing,
            r.started_at.spec_nanos() < crate::time::CLOCK_MAX_NANOS,
            r.duration.spec_nanos() == 150_000_000,
    {
        WindowAnimation {
            state: WindowAnimationState::Disappearing,
            started_at: now(),
            duration: TimeSpan::from_millis(150),
        }
    }
}

/// When recording began, for the recording indicator's pulse.
#[derive(Debug)]
pub struct RecordingState {
    pub entered_at: Moment,
}

impl RecordingState {
    /// Recording that begins now.
    pub fn new() -> (r: RecordingState)
        ensures
            r.entered_at.spec_nanos() < crate::time::CLOCK_MAX_NANOS,
    {
        RecordingState { entered_at: now() }
    }
}

/// Whether the waveform shows the live signal.
#[derive(Clone, Copy, Debug, PartialEq, Eq, Structural)]
pub enum WaveformGateState {
    Open,
    Closed,
}

impl WaveformGateState {
    pub fn is_open(self) -> (r: bool)
        ensures
            r == (self == WaveformGateState::Open),
    {
        match self {
            WaveformGateState::Open => true,
            WaveformGateState::Closed => false,
        }
    }
}

} // verus!
