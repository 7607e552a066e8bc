//! One session of streaming, and who is watching it.

use crate::clock::Clock;
use crate::rtsp::server_config::{ServerConfig, ServerConfigModel};
use crate::rtsp::stream_config::{StreamConfig, StreamConfigModel};
use crate::time_span::TimeSpan;
use vstd::prelude::*;

verus! {

/// Where a session stands.
#[derive(Debug, Clone, Copy, PartialEq, Eq, Structural)]
pub enum SessionState {
    /// The session was made and is not serving yet.
    Starting,
    /// The session serves `clients` clients.
    Active { clients: u32 },
    /// The session is being stopped.
    Stopping,
    /// The session has stopped.
    Stopped,
}

impl SessionState {
    /// The state after `activate`.
    pub open spec fn activated() -> SessionState {
        SessionState::Active { clients: 0 }
    }

    /// The state after one more client has connected: an active session
    /// counts it, up to `u32::MAX`; any other state stays as it is.
    pub open spec fn with_client_added(self) -> SessionState {
        match self {
            SessionState::Active { clients } => SessionState::Active {
                clients: if clients < u32::MAX {
                    (clients + 1) as u32
                } else {
                    clients
                },
            },
            _ => self,
        }
    }

    /// The state after one client has gone: an active session with clients
    /// counts one fewer; any other state stays as it is.
    pub open spec fn with_client_removed(self) -> SessionState {
        match self {
            SessionState::Active { clients } => SessionState::Active {
                clients: if clients > 0 {
                    (clients - 1) as u32
                } else {
                    clients
                },
            },
            _ => self,
        }
    }

    /// The number of clients: those of an active session, none in any other
    /// state.
    pub open spec fn client_count(self) -> u32 {
        match self {
            SessionState::Active { clients } => clients,
            _ => 0,
        }
    }
}

/// An identifier in the hyphenated form: thirty-six characters, with a
/// hyphen after the eighth, the twelfth, the sixteenth and the twentieth of
/// the others.
pub open spec fn is_hyphenated_id(id: Seq<char>) -> bool {
    &&& id.len() == 36
    &&& id[8] == '-'
    &&& id[13] == '-'
    &&& id[18] == '-'
    &&& id[23] == '-'
}

/// `uuid::Uuid::new_v4`, written out by `to_string`: a random identifier.
/// Which one is left open. `uuid` writes every identifier in the
/// hyphenated form, and that much is claimed: thirty-six characters with
/// the four hyphens in their places.
#[verifier::external_body]
fn random_session_id() -> (id: String)
    ensures
        is_hyphenated_id(id@),
{
    uuid::Uuid::new_v4().to_string()
}

/// What a session holds, but for its clock.
pub struct SessionModel {
    pub id: Seq<char>,
    pub stream_config: StreamConfigModel,
    pub server_config: ServerConfigModel,
    pub state: SessionState,
}

/// A session of streaming: what is streamed, where, since when, and the
/// state it is in.
#[derive(Debug)]
pub struct StreamSession {
    id: String,
    stream_config: StreamConfig,
    server_config: ServerConfig,
    clock: Clock,
    state: SessionState,
}

impl View for StreamSession {
    type V = SessionModel;

    closed spec fn view(&self) -> SessionModel {
        SessionModel {
            id: self.id@,
            stream_config: self.stream_config@,
            server_config: self.server_config@,
            state: self.state,
        }
    }
}

impl StreamSession {
    /// A session under the given identifier, in `Starting`, whose uptime
    /// counts from now.
    pub fn with_id(id: String, stream_config: StreamConfig, server_config: ServerConfig) -> (session:
        StreamSession)
        ensures
            session@ == (SessionModel {
                id: id@,
                stream_config: stream_config@,
                server_config: server_config@,
                state: SessionState::Starting,
            }),
    {
        StreamSession {
            id,
            stream_config,
            server_config,
            clock: Clock::start(),
            state: SessionState::Starting,
        }
    }

    /// A session under a fresh random identifier, in `Starting`, whose
    /// uptime counts from now.
    pub fn new(stream_config: StreamConfig, server_config: ServerConfig) -> (session:
        StreamSession)
        ensures
            is_hyphenated_id(session@.id),
            session@ == (SessionModel {
                id: session@.id,
                stream_config: stream_config@,
                server_config: server_config@,
                state: SessionState::Starting,
            }),
    {
        StreamSession::with_id(random_session_id(), stream_config, server_config)
    }

    /// The session's identifier.
    pub fn id(&self) -> (id: &str)
        ensures
            id@ == self@.id,
    {
        self.id.as_str()
    }

    /// The configuration of the stream.
    pub fn stream_config(&self) -> (config: &StreamConfig)
        ensures
            config@ == self@.stream_config,
    {
        &self.stream_config
    }

    /// The configuration of the server.
    pub fn server_config(&self) -> (config: &ServerConfig)
        ensures
            config@ == self@.server_config,
    {
        &self.server_config
    }

    /// The time since the session was made, as the monotonic clock gives
    /// it: the reading of the session's clock, of which nothing is promised.
    pub fn uptime(&self) -> (uptime: TimeSpan) {
        self.clock.reading()
    }

    /// The state of the session.
    pub fn state(&self) -> (state: &SessionState)
        ensures
            *state == self@.state,
    {
        &self.state
    }

    /// The session becomes active, with no client yet.
    pub fn activate(&mut self)
        ensures
            final(self)@ == (SessionModel { state: SessionState::activated(), ..old(self)@ }),
    {
        self.state = SessionState::Active { clients: 0 };
    }

    /// Counts one more client, where the session is active.
    pub fn add_client(&mut self)
        ensures
            final(self)@ == (SessionModel {
                state: old(self)@.state.with_client_added(),
                ..old(self)@
            }),
    {
        match self.state {
            SessionState::Active { clients } => {
                if clients < u32::MAX {
                    self.state = SessionState::Active { clients: clients + 1 };
                }
            },
            _ => {},
        }
    }

    /// Counts one client fewer, where the session is active and has one.
    pub fn remove_client(&mut self)
        ensures
            final(self)@ == (SessionModel {
                state: old(self)@.state.with_client_removed(),
                ..old(self)@
            }),
    {
        match self.state {
            SessionState::Active { clients } => {
                if clients > 0 {
                    self.state = SessionState::Active { clients: clients - 1 };
                }
            },
            _ => {},
        }
    }

    /// The number of clients of an active session; zero in any other state.
    pub fn client_count(&self) -> (count: u32)
        ensures
            count == self@.state.client_count(),
    {
        match self.state {
            SessionState::Active { clients } => clients,
            _ => 0,
        }
    }

    /// The session is being stopped.
    pub fn stop(&mut self)
        ensures
            final(self)@ == (SessionModel { state: SessionState::Stopping, ..old(self)@ }),
    {
        self.state = SessionState::Stopping;
    }

    /// The session has stopped.
    pub fn mark_stopped(&mut self)
        ensures
            final(self)@ == (SessionModel { state: SessionState::Stopped, ..old(self)@ }),
    {
        self.state = SessionState::Stopped;
    }
}

impl Clone for StreamSession {
    /// A session of the same parts, on the same clock.
    fn clone(&self) -> (copy: StreamSession)
        ensures
            copy@ == self@,
    {
        StreamSession {
            id: self.id.clone(),
            stream_config: self.stream_config.clone(),
            server_config: self.server_config.clone(),
            clock: self.clock,
            state: self.state,
        }
    }
}

} // verus!
