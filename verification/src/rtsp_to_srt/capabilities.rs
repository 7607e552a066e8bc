//! What the supervisor needs from its surroundings: a transport engine to
//! run and a sink for its metrics.

use crate::rtsp_to_srt::bridge_config::BridgeConfig;
use crate::rtsp_to_srt::connection_state::ConnectionState;
use crate::rtsp_to_srt::errors::DomainError;
use crate::time_span::TimeSpan;
use std::sync::atomic::AtomicBool;
use std::sync::Arc;
use vstd::prelude::*;

verus! {

/// A sink for the supervisor's observations. Every call is fire and
/// forget: it returns nothing, must not block, and must be safe to make
/// from several threads at once.
pub trait MetricsReporter: Send + Sync {
    /// The connection is now in `state`.
    fn report_state_change(&self, state: &ConnectionState);

    /// One more reconnection attempt was made.
    fn report_reconnect_attempt(&self);

    /// The delay before the next attempt.
    fn report_backoff(&self, delay: TimeSpan);

    /// Whether the SRT side is connected.
    fn report_srt_state(&self, connected: bool);

    /// The time for which the connection has been streaming.
    fn report_uptime(&self, uptime: TimeSpan);
}

/// A transport engine that carries the stream for one run at a time.
pub trait StreamBridge: Send {
    /// Runs the bridge once, until the stream ends or an error occurs.
    fn run_once(&mut self) -> Result<(), DomainError>;

    /// Runs the bridge once and watches `running`: an engine that honours
    /// the signal looks at it at short intervals and returns soon after it
    /// is cleared. Unless an engine says otherwise, the signal is ignored
    /// and this is `run_once`. What a run returns is the engine's to say:
    /// nothing is promised of it here.
    fn run_once_with_shutdown(&mut self, running: Arc<AtomicBool>) -> Result<(), DomainError> {
        let _ = running;
        self.run_once()
    }

    /// The configuration that the bridge was made with.
    fn config(&self) -> &BridgeConfig;
}

} // verus!
