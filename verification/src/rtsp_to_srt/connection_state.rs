//! The states of the bridge's connection.

use crate::text::{decimal, decimal_digits};
use vstd::prelude::*;
use vstd::string::StringExecFns;

verus! {

/// The state of the connection to the source. Exactly one is current at
/// any time.
#[derive(Debug, Clone, Copy, PartialEq, Eq, Structural)]
pub enum ConnectionState {
    /// Not started yet.
    Idle,
    /// Attempting to connect to the source.
    Connecting,
    /// Successfully streaming data.
    Streaming,
    /// Connection lost, will retry; `attempt` counts the failures in a row.
    Reconnecting { attempt: u32 },
    /// Permanent failure or stopped. Why is kept with the change that led
    /// here, as the reason of that transition.
    Failed,
}

impl ConnectionState {
    /// The number under which the state is published as a metric.
    pub open spec fn metric_value(self) -> nat {
        match self {
            ConnectionState::Idle => 0,
            ConnectionState::Connecting => 1,
            ConnectionState::Streaming => 2,
            ConnectionState::Reconnecting { .. } => 3,
            ConnectionState::Failed => 4,
        }
    }

    /// The state in words.
    pub open spec fn label(self) -> Seq<char> {
        match self {
            ConnectionState::Idle => "IDLE"@,
            ConnectionState::Connecting => "CONNECTING"@,
            ConnectionState::Streaming => "STREAMING"@,
            ConnectionState::Reconnecting { attempt } => "RECONNECTING (attempt "@
                + decimal_digits(attempt as nat) + ")"@,
            ConnectionState::Failed => "FAILED"@,
        }
    }

    /// The number under which the state is published as a metric.
    pub fn as_metric(&self) -> (metric: u8)
        ensures
            metric == self.metric_value(),
    {
        match self {
            ConnectionState::Idle => 0,
            ConnectionState::Connecting => 1,
            ConnectionState::Streaming => 2,
            ConnectionState::Reconnecting { .. } => 3,
            ConnectionState::Failed => 4,
        }
    }

    /// Whether the state is the healthy one, streaming.
    pub fn is_streaming(&self) -> (streaming: bool)
        ensures
            streaming == (*self is Streaming),
    {
        match self {
            ConnectionState::Streaming => true,
            _ => false,
        }
    }

    /// Whether the state indicates a problem.
    pub fn is_problematic(&self) -> (problematic: bool)
        ensures
            problematic == (*self is Reconnecting || *self is Failed),
    {
        match self {
            ConnectionState::Reconnecting { .. } => true,
            ConnectionState::Failed => true,
            _ => false,
        }
    }

    /// The state in words, as a log line shows it.
    pub fn to_text(&self) -> (text: String)
        ensures
            text@ == self.label(),
    {
        match self {
            ConnectionState::Idle => String::from_str("IDLE"),
            ConnectionState::Connecting => String::from_str("CONNECTING"),
            ConnectionState::Streaming => String::from_str("STREAMING"),
            ConnectionState::Reconnecting { attempt } => {
                let number: String = decimal(*attempt as u64);
                String::from_str("RECONNECTING (attempt ").concat(number.as_str()).concat(")")
            },
            ConnectionState::Failed => String::from_str("FAILED"),
        }
    }
}

impl Default for ConnectionState {
    /// A connection starts idle.
    fn default() -> (state: ConnectionState)
        ensures
            state == ConnectionState::Idle,
    {
        ConnectionState::Idle
    }
}

} // verus!
