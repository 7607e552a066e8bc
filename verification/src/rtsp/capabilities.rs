//! What the streaming service needs from its surroundings: a server to
//! start and stop, and a sink for its metrics.

use crate::rtsp::errors::DomainError;
use crate::rtsp::server_config::ServerConfig;
use crate::rtsp::stream_config::StreamConfig;
use crate::rtsp::stream_session::StreamSession;
use vstd::prelude::*;

verus! {

/// A sink for the service's observations. Every call is fire and forget.
pub trait MetricsReporter: Send + Sync {
    /// The session has started.
    fn report_session_started(&self, session: &StreamSession);

    /// The session has stopped.
    fn report_session_stopped(&self, session: &StreamSession);

    /// A client has connected.
    fn report_client_connected(&self);

    /// A client has gone.
    fn report_client_disconnected(&self);
}

/// A streaming server.
pub trait StreamingServer: Send + Sync {
    /// Starts the server and begins streaming.
    fn start(&mut self, stream_config: StreamConfig, server_config: ServerConfig) -> Result<
        StreamSession,
        DomainError,
    >;

    /// Stops the server gracefully.
    fn stop(&mut self) -> Result<(), DomainError>;

    /// Whether the server is running.
    fn is_running(&self) -> bool;

    /// The current session, if any.
    fn current_session(&self) -> Option<&StreamSession>;
}

} // verus!
