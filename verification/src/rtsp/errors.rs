//! What can go wrong in the server's domain.

use crate::text::{decimal, decimal_digits};
use vstd::prelude::*;
use vstd::string::StringExecFns;

verus! {

/// An error of the server's domain.
#[derive(Debug)]
pub enum DomainError {
    /// Nothing exists at the path.
    InvalidPath(String),
    /// What exists at the path is not a file.
    PathNotFile(String),
    /// Port zero was given.
    InvalidPort,
    /// The port can only be bound by root.
    PortRequiresRoot(u16),
    /// The mount point does not start with a slash.
    InvalidMountPoint(String),
    /// The mount point is longer than a hundred bytes.
    MountPointTooLong,
    /// The server could not be brought up.
    ServerInitFailed,
    /// The codec is not one that the server streams.
    UnsupportedCodec(String),
    /// The container is not one that the server reads.
    UnsupportedContainer(String),
}

impl DomainError {
    /// The text of the error, as a user reads it.
    pub open spec fn text(self) -> Seq<char> {
        match self {
            DomainError::InvalidPath(path) => "Invalid path: "@ + path@,
            DomainError::PathNotFile(path) => "Path is not a file: "@ + path@,
            DomainError::InvalidPort => "Invalid port: port cannot be zero"@,
            DomainError::PortRequiresRoot(port) => "Port "@ + decimal_digits(port as nat)
                + " requires root privileges"@,
            DomainError::InvalidMountPoint(mount_point) => "Invalid mount point: "@
                + mount_point@,
            DomainError::MountPointTooLong => "Mount point too long (max 100 characters)"@,
            DomainError::ServerInitFailed => "Server initialization failed"@,
            DomainError::UnsupportedCodec(codec) => "Unsupported codec: "@ + codec@,
            DomainError::UnsupportedContainer(container) => "Unsupported container format: "@
                + container@,
        }
    }

    /// The text of the error, as a user reads it.
    pub fn message(&self) -> (message: String)
        ensures
            message@ == self.text(),
    {
        match self {
            DomainError::InvalidPath(path) => String::from_str("Invalid path: ").concat(
                path.as_str(),
            ),
            DomainError::PathNotFile(path) => String::from_str("Path is not a file: ").concat(
                path.as_str(),
            ),
            DomainError::InvalidPort => String::from_str("Invalid port: port cannot be zero"),
            DomainError::PortRequiresRoot(port) => {
                let number: String = decimal(*port as u64);
                String::from_str("Port ").concat(number.as_str()).concat(
                    " requires root privileges",
                )
            },
            DomainError::InvalidMountPoint(mount_point) => String::from_str(
                "Invalid mount point: ",
            ).concat(mount_point.as_str()),
            DomainError::MountPointTooLong => String::from_str(
                "Mount point too long (max 100 characters)",
            ),
            DomainError::ServerInitFailed => String::from_str("Server initialization failed"),
            DomainError::UnsupportedCodec(codec) => String::from_str(
                "Unsupported codec: ",
            ).concat(codec.as_str()),
            DomainError::UnsupportedContainer(container) => String::from_str(
                "Unsupported container format: ",
            ).concat(container.as_str()),
        }
    }
}

} // verus!
