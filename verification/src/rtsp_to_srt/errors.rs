//! What can go wrong in the bridge's domain.

use vstd::prelude::*;
use vstd::string::StringExecFns;

verus! {

/// An error of the bridge's domain.
#[derive(Debug)]
pub enum DomainError {
    /// The source URL does not name an RTSP resource.
    InvalidRtspUrl(String),
    /// The destination URL does not name an SRT endpoint.
    InvalidSrtUrl(String),
    /// Port zero was given.
    InvalidPort,
    /// The backoff multiplier does not exceed one.
    InvalidBackoffMultiplier,
    /// The transport pipeline could not be built.
    PipelineCreationFailed(String),
    /// The transport pipeline failed while it ran.
    PipelineExecutionFailed(String),
    /// The bridge is not running.
    BridgeNotRunning,
}

impl DomainError {
    /// The text of the error, as a user reads it.
    pub open spec fn text(self) -> Seq<char> {
        match self {
            DomainError::InvalidRtspUrl(url) => "Invalid RTSP URL: "@ + url@,
            DomainError::InvalidSrtUrl(url) => "Invalid SRT URL: "@ + url@,
            DomainError::InvalidPort => "Invalid port: port cannot be zero"@,
            DomainError::InvalidBackoffMultiplier => "Invalid backoff multiplier: must be > 1.0"@,
            DomainError::PipelineCreationFailed(detail) => "Pipeline creation failed: "@ + detail@,
            DomainError::PipelineExecutionFailed(detail) => "Pipeline execution failed: "@
                + detail@,
            DomainError::BridgeNotRunning => "Bridge not running"@,
        }
    }

    /// The text of the error, as a user reads it.
    pub fn message(&self) -> (message: String)
        ensures
            message@ == self.text(),
    {
        match self {
            DomainError::InvalidRtspUrl(url) => String::from_str("Invalid RTSP URL: ").concat(
                url.as_str(),
            ),
            DomainError::InvalidSrtUrl(url) => String::from_str("Invalid SRT URL: ").concat(
                url.as_str(),
            ),
            DomainError::InvalidPort => String::from_str("Invalid port: port cannot be zero"),
            DomainError::InvalidBackoffMultiplier => String::from_str(
                "Invalid backoff multiplier: must be > 1.0",
            ),
            DomainError::PipelineCreationFailed(detail) => String::from_str(
                "Pipeline creation failed: ",
            ).concat(detail.as_str()),
            DomainError::PipelineExecutionFailed(detail) => String::from_str(
                "Pipeline execution failed: ",
            ).concat(detail.as_str()),
            DomainError::BridgeNotRunning => String::from_str("Bridge not running"),
        }
    }
}

} // verus!
