//! One run of the transport engine, seen from its message bus: when to
//! look at the bus, and what each message means for the run.

use crate::rtsp_to_srt::errors::DomainError;
use vstd::prelude::*;

verus! {

/// How long one look at the bus waits for a message, in milliseconds. The
/// shutdown signal is looked at between two looks at the bus, so this is
/// also how long a run may take to notice it.
pub const BUS_POLL_TIMEOUT_MS: u64 = 100;

/// A message on the engine's bus, as far as the run depends on it.
#[derive(Debug)]
pub enum BusMessage {
    /// The stream has ended.
    Eos,
    /// An element has failed; the text says which and how.
    Error(String),
    /// An element has changed its state.
    StateChanged,
    /// An element has a warning.
    Warning,
    /// Any other message.
    Other,
}

/// What the run does after a look at the bus.
#[derive(Debug)]
pub enum Poll {
    /// Look at the shutdown signal, then at the bus again.
    Continue,
    /// The run is over and has completed.
    Finished,
    /// The run is over and has failed.
    Failed(DomainError),
}

/// What `message` means for the run: `Ok(true)` ends it cleanly, `Ok(false)`
/// lets it go on, and an error ends it with `PipelineExecutionFailed`,
/// which carries the message's text. Only the end of the stream ends a run
/// cleanly, and only an error fails it.
pub fn process_bus_message(message: BusMessage) -> (result: Result<bool, DomainError>)
    ensures
        match message {
            BusMessage::Eos => result == Ok::<bool, DomainError>(true),
            BusMessage::Error(text) => result matches Err(
                DomainError::PipelineExecutionFailed(detail),
            ) && detail@ == text@,
            _ => result == Ok::<bool, DomainError>(false),
        },
{
    match message {
        BusMessage::Eos => Ok(true),
        BusMessage::Error(text) => Err(DomainError::PipelineExecutionFailed(text)),
        BusMessage::StateChanged => Ok(false),
        BusMessage::Warning => Ok(false),
        BusMessage::Other => Ok(false),
    }
}

/// The timeout of the next look at the bus, or `None` where the shutdown
/// signal says that there shall be none: a run that is told to stop
/// completes.
pub fn next_poll(running: bool) -> (timeout_ms: Option<u64>)
    ensures
        timeout_ms == if running {
            Some(BUS_POLL_TIMEOUT_MS)
        } else {
            None
        },
{
    if running {
        Some(BUS_POLL_TIMEOUT_MS)
    } else {
        None
    }
}

/// What the run does after a look at the bus that brought `message`, or
/// none within the timeout.
pub fn after_poll(message: Option<BusMessage>) -> (poll: Poll)
    ensures
        match message {
            None => poll is Continue,
            Some(BusMessage::Eos) => poll is Finished,
            Some(BusMessage::Error(text)) => poll matches Poll::Failed(
                DomainError::PipelineExecutionFailed(detail),
            ) && detail@ == text@,
            Some(_) => poll is Continue,
        },
{
    match message {
        None => Poll::Continue,
        Some(message) => match process_bus_message(message) {
            Ok(true) => Poll::Finished,
            Ok(false) => Poll::Continue,
            Err(error) => Poll::Failed(error),
        },
    }
}

} // verus!
