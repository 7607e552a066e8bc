//! The RTSP to SRT bridge: what keeps the link alive across failures.

pub mod backoff_policy;
pub mod bridge_config;
pub mod bridge_service;
pub mod bus;
pub mod capabilities;
pub mod config;
pub mod connection_lifecycle;
pub mod connection_state;
pub mod errors;
pub mod pipeline_builder;

pub use backoff_policy::{BackoffModel, BackoffPolicy, Multiplier};
pub use bridge_config::{BridgeConfig, BridgeConfigModel};
pub use bridge_service::{BridgeService, RunOutcome, Step, SupervisorAction, SupervisorModel};
pub use config::{Config, ConfigError};
pub use bus::{BusMessage, Poll};
pub use capabilities::{MetricsReporter, StreamBridge};
pub use connection_lifecycle::{
    ConnectionLifecycle, LifecycleModel, StateTransition, TransitionRecord,
};
pub use connection_state::ConnectionState;
pub use errors::DomainError;
pub use pipeline_builder::PipelineBuilder;
