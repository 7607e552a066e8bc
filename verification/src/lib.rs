//! Supervision of a long-running media transport link, and the value types
//! and rules of the RTSP server that feeds it.
//!
//! * [`rtsp_to_srt`]: backoff policy, connection lifecycle and the reconnect
//!   supervisor of the RTSP to SRT bridge.
//! * [`rtsp`]: settings, sessions and launch lines of the RTSP server.
//! * [`time_span`]: spans of time in whole nanoseconds.
//! * [`clock`]: the monotonic clock, read as a span.
//! * [`user_port`]: the rule for a port that needs no privileges.
//! * [`text`]: small string routines with exact contracts.
//! * [`paths`]: what is on disk at a path, and how a path is shown.

pub mod clock;
pub mod paths;
pub mod rtsp;
pub mod rtsp_to_srt;
pub mod text;
pub mod time_span;
pub mod user_port;
