//! Capture event extraction.
//!
//! The hardware timer latches one timestamp per capture channel and raises
//! a flag for the channel whose edge fired. The driver reads those
//! registers and hands their plain values in as an [`IrCapture`] snapshot;
//! this module decides whether the snapshot carries a usable event and
//! which edge it was.

use vstd::prelude::*;

verus! {

/// One latched snapshot of the two capture channels: the per-channel
/// capture flags and the two timestamp counters, in ticks.
#[derive(Clone, Copy, Debug, PartialEq, Eq, Structural)]
pub struct IrCapture {
    /// Capture flag of the first channel (the falling-edge channel).
    pub captured1: bool,
    /// Capture flag of the second channel (the rising-edge channel).
    pub captured2: bool,
    /// Timestamp latched by the first channel.
    pub time1: u32,
    /// Timestamp latched by the second channel.
    pub time2: u32,
}

/// The polarity of the edge that fired a capture.
#[derive(Clone, Copy, Debug, PartialEq, Eq, Structural)]
pub enum LevelState {
    /// The input line went high.
    Rising,
    /// The input line went low.
    Falling,
}

/// A capture event: the edge polarity and the two latched timestamps.
#[derive(Clone, Copy, Debug, PartialEq, Eq, Structural)]
pub struct IrCaptureEvent {
    /// Which edge fired the capture.
    pub level: LevelState,
    /// Timestamp of the first channel.
    pub time1: u32,
    /// Timestamp of the second channel.
    pub time2: u32,
}

impl IrCapture {
    /// Turns the snapshot into an event: there is one exactly when either
    /// channel captured, it carries both timestamps unchanged, and its
    /// polarity is falling when the first channel fired and rising
    /// otherwise.
    pub fn get_event(&self) -> (event: Option<IrCaptureEvent>)
        ensures
            event is Some <==> (self.captured1 || self.captured2),
            event matches Some(e) ==> {
                &&& e.time1 == self.time1
                &&& e.time2 == self.time2
                &&& e.level == (if self.captured1 {
                    LevelState::Falling
                } else {
                    LevelState::Rising
                })
            },
    {
        if !self.captured1 && !self.captured2 {
            None
        } else {
            Some(
                IrCaptureEvent {
                    time1: self.time1,
                    time2: self.time2,
                    level: if self.captured1 {
                        LevelState::Falling
                    } else {
                        LevelState::Rising
                    },
                },
            )
        }
    }
}

} // verus!
