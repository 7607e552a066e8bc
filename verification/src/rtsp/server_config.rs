//! Where the server listens and what it serves there.

use crate::rtsp::errors::DomainError;
use crate::text::{byte_len, byte_length, starts_with_char};
use vstd::prelude::*;

verus! {

/// The longest mount point, in bytes.
pub const MAX_MOUNT_POINT_BYTES: usize = 100;

/// What a server configuration holds.
pub struct ServerConfigModel {
    pub port: u16,
    pub mount_point: Seq<char>,
    pub enable_looping: bool,
}

/// `mount_point` starts with a slash.
pub open spec fn is_rooted(mount_point: Seq<char>) -> bool {
    mount_point.len() > 0 && mount_point[0] == '/'
}

/// `mount_point` is a path under the server's root of at most a hundred
/// bytes.
pub open spec fn is_mount_point(mount_point: Seq<char>) -> bool {
    is_rooted(mount_point) && byte_length(mount_point) <= MAX_MOUNT_POINT_BYTES
}

/// The port and mount point of the server, and whether the stream starts
/// again when it ends.
#[derive(Debug, PartialEq)]
pub struct ServerConfig {
    port: u16,
    mount_point: String,
    enable_looping: bool,
}

impl View for ServerConfig {
    type V = ServerConfigModel;

    closed spec fn view(&self) -> ServerConfigModel {
        ServerConfigModel {
            port: self.port,
            mount_point: self.mount_point@,
            enable_looping: self.enable_looping,
        }
    }
}

impl ServerConfig {
    /// Every configuration has a port other than zero and a mount point.
    #[verifier::type_invariant]
    closed spec fn port_and_mount_point_are_valid(&self) -> bool {
        self.port != 0 && is_mount_point(self.mount_point@)
    }

    /// The configuration of a port and a mount point, with looping on. The
    /// port is looked at first: `InvalidPort` where it is zero; else
    /// `InvalidMountPoint`, which carries the mount point, where that does
    /// not start with a slash; else `MountPointTooLong` where it is longer
    /// than a hundred bytes.
    pub fn new(port: u16, mount_point: String) -> (result: Result<ServerConfig, DomainError>)
        ensures
            match result {
                Ok(config) => port != 0 && is_mount_point(mount_point@) && config@ == (
                ServerConfigModel { port, mount_point: mount_point@, enable_looping: true }),
                Err(DomainError::InvalidPort) => port == 0,
                Err(DomainError::InvalidMountPoint(refused)) => port != 0 && !is_rooted(
                    mount_point@,
                ) && refused@ == mount_point@,
                Err(DomainError::MountPointTooLong) => port != 0 && is_rooted(mount_point@)
                    && byte_length(mount_point@) > MAX_MOUNT_POINT_BYTES,
                Err(_) => false,
            },
    {
        match Self::validate_port(port) {
            Err(error) => {
                return Err(error);
            },
            Ok(()) => {},
        }
        match Self::validate_mount_point(mount_point.as_str()) {
            Err(error) => {
                return Err(error);
            },
            Ok(()) => {},
        }
        Ok(ServerConfig { port, mount_point, enable_looping: true })
    }

    /// The same configuration with looping switched on or off.
    pub fn with_looping(self, enabled: bool) -> (config: ServerConfig)
        ensures
            config@ == (ServerConfigModel { enable_looping: enabled, ..self@ }),
    {
        proof {
            use_type_invariant(&self);
        }
        ServerConfig { port: self.port, mount_point: self.mount_point, enable_looping: enabled }
    }

    /// The port, which is not zero.
    pub fn port(&self) -> (port: u16)
        ensures
            port == self@.port,
            port != 0,
    {
        proof {
            use_type_invariant(self);
        }
        self.port
    }

    /// The mount point, which starts with a slash and has at most a hundred
    /// bytes.
    pub fn mount_point(&self) -> (mount_point: &str)
        ensures
            mount_point@ == self@.mount_point,
            is_mount_point(mount_point@),
    {
        proof {
            use_type_invariant(self);
        }
        self.mount_point.as_str()
    }

    /// Whether the stream starts again when it ends.
    pub fn looping_enabled(&self) -> (enabled: bool)
        ensures
            enabled == self@.enable_looping,
    {
        self.enable_looping
    }

    /// Accepts every port but zero.
    pub fn validate_port(port: u16) -> (result: Result<(), DomainError>)
        ensures
            match result {
                Ok(_) => port != 0,
                Err(DomainError::InvalidPort) => port == 0,
                Err(_) => false,
            },
    {
        if port == 0 {
            return Err(DomainError::InvalidPort);
        }
        Ok(())
    }

    /// Accepts a mount point that starts with a slash and has at most a
    /// hundred bytes. One without the slash is refused with
    /// `InvalidMountPoint`, which carries it; a longer one with
    /// `MountPointTooLong`.
    pub fn validate_mount_point(mount_point: &str) -> (result: Result<(), DomainError>)
        ensures
            match result {
                Ok(_) => is_mount_point(mount_point@),
                Err(DomainError::InvalidMountPoint(refused)) => !is_rooted(mount_point@)
                    && refused@ == mount_point@,
                Err(DomainError::MountPointTooLong) => is_rooted(mount_point@) && byte_length(
                    mount_point@,
                ) > MAX_MOUNT_POINT_BYTES,
                Err(_) => false,
            },
    {
        if !starts_with_char(mount_point, '/') {
            return Err(DomainError::InvalidMountPoint(mount_point.to_owned()));
        }
        if byte_len(mount_point) > MAX_MOUNT_POINT_BYTES {
            return Err(DomainError::MountPointTooLong);
        }
        Ok(())
    }
}

impl Clone for ServerConfig {
    /// A configuration of the same port, mount point and looping.
    fn clone(&self) -> (copy: ServerConfig)
        ensures
            copy@ == self@,
    {
        proof {
            use_type_invariant(self);
        }
        ServerConfig {
            port: self.port,
            mount_point: self.mount_point.clone(),
            enable_looping: self.enable_looping,
        }
    }
}

} // verus!
