//! The RTSP server: what it streams, where it listens and who is watching.

pub mod capabilities;
pub mod config;
pub mod container_format;
pub mod errors;
pub mod looping;
pub mod pipeline_builder;
pub mod server_config;
pub mod stream_config;
pub mod stream_session;
pub mod streaming_service;
pub mod video_codec;

pub use capabilities::{MetricsReporter, StreamingServer};
pub use config::{Config, ConfigError, MountPointError};
pub use container_format::ContainerFormat;
pub use errors::DomainError;
pub use looping::{looping_step, LoopStep, MediaEvent};
pub use pipeline_builder::PipelineBuilder;
pub use server_config::{ServerConfig, ServerConfigModel};
pub use stream_config::{StreamConfig, StreamConfigModel};
pub use stream_session::{SessionModel, SessionState, StreamSession};
pub use streaming_service::{plan_stop, StopPlan};
pub use video_codec::VideoCodec;
