//! Looping: what the server does with its media when the stream ends, so
//! that it plays again from the start.

use vstd::prelude::*;

verus! {

/// What the media's bus tells, as far as looping depends on it.
#[derive(Debug, Clone, Copy, PartialEq, Eq, Structural)]
pub enum MediaEvent {
    /// The stream has ended.
    Eos,
    /// An element has failed.
    Error,
    /// Anything else.
    Other,
}

/// What looping does about an event.
#[derive(Debug, Clone, Copy, PartialEq, Eq, Structural)]
pub enum LoopStep {
    /// Seek the media back to its start, flushing, to a key frame.
    SeekToStart,
    /// Log the error; the media is left as it is.
    LogError,
    /// Nothing.
    Nothing,
}

/// What looping does about `event`: the end of the stream is answered by
/// a seek to the start, an error is logged, and anything else is let
/// pass. The watch stays on the bus after every event.
pub fn looping_step(event: MediaEvent) -> (step: LoopStep)
    ensures
        step == match event {
            MediaEvent::Eos => LoopStep::SeekToStart,
            MediaEvent::Error => LoopStep::LogError,
            MediaEvent::Other => LoopStep::Nothing,
        },
{
    match event {
        MediaEvent::Eos => LoopStep::SeekToStart,
        MediaEvent::Error => LoopStep::LogError,
        MediaEvent::Other => LoopStep::Nothing,
    }
}

} // verus!
