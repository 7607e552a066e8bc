//! The settings of the server as a user gives them, and the rules that
//! they must meet before anything is started.

use crate::paths::{path_debug_text, path_exists, path_is_file, quoted_path};
use crate::text::{chars_of, contains, ends_with_char, occurs_in, starts_with_char};
use crate::user_port::{port_fault, validate_user_port, PortError, PortFault};
use vstd::prelude::*;
use vstd::string::StringExecFns;

verus! {

/// The settings of the server.
#[derive(Debug, Clone)]
pub struct Config {
    /// Path to the input video file.
    pub video_path: String,
    /// RTSP server port.
    pub rtsp_port: u16,
    /// RTSP mount point.
    pub mount_point: String,
    /// Metrics server port.
    pub metrics_port: u16,
    /// Enable verbose logging.
    pub verbose: bool,
}

/// Why a mount point is refused. Each error carries the mount point.
#[derive(Debug)]
pub enum MountPointError {
    /// It does not start with a slash.
    NotRooted(String),
    /// It holds a character other than a letter or digit of ASCII, a slash,
    /// a hyphen or an underscore.
    InvalidCharacters(String),
    /// It holds two slashes in a row.
    DoubleSlash(String),
    /// It ends with a slash and is not the root.
    TrailingSlash(String),
}

/// The kinds of `MountPointError`.
pub enum MountPointFault {
    NotRooted,
    InvalidCharacters,
    DoubleSlash,
    TrailingSlash,
}

impl MountPointError {
    /// The kind of the error.
    pub open spec fn fault(self) -> MountPointFault {
        match self {
            MountPointError::NotRooted(_) => MountPointFault::NotRooted,
            MountPointError::InvalidCharacters(_) => MountPointFault::InvalidCharacters,
            MountPointError::DoubleSlash(_) => MountPointFault::DoubleSlash,
            MountPointError::TrailingSlash(_) => MountPointFault::TrailingSlash,
        }
    }

    /// The mount point that the error carries.
    pub open spec fn refused(self) -> Seq<char> {
        match self {
            MountPointError::NotRooted(mount_point) => mount_point@,
            MountPointError::InvalidCharacters(mount_point) => mount_point@,
            MountPointError::DoubleSlash(mount_point) => mount_point@,
            MountPointError::TrailingSlash(mount_point) => mount_point@,
        }
    }

    /// The text of the error, as a user reads it.
    pub open spec fn text(self) -> Seq<char> {
        match self {
            MountPointError::NotRooted(mount_point) => "Mount point must start with '/': "@
                + mount_point@,
            MountPointError::InvalidCharacters(mount_point) => {
                "Mount point contains invalid characters: "@ + mount_point@
                    + ". Only alphanumeric, '/', '-', and '_' are allowed"@
            },
            MountPointError::DoubleSlash(mount_point) => {
                "Mount point cannot contain double slashes: "@ + mount_point@
            },
            MountPointError::TrailingSlash(mount_point) => "Mount point cannot end with '/': "@
                + mount_point@,
        }
    }

    /// The text of the error, as a user reads it.
    pub fn message(&self) -> (message: String)
        ensures
            message@ == self.text(),
    {
        match self {
            MountPointError::NotRooted(mount_point) => String::from_str(
                "Mount point must start with '/': ",
            ).concat(mount_point.as_str()),
            MountPointError::InvalidCharacters(mount_point) => String::from_str(
                "Mount point contains invalid characters: ",
            ).concat(mount_point.as_str()).concat(
                ". Only alphanumeric, '/', '-', and '_' are allowed",
            ),
            MountPointError::DoubleSlash(mount_point) => String::from_str(
                "Mount point cannot contain double slashes: ",
            ).concat(mount_point.as_str()),
            MountPointError::TrailingSlash(mount_point) => String::from_str(
                "Mount point cannot end with '/': ",
            ).concat(mount_point.as_str()),
        }
    }
}

/// `c` may stand in a mount point: a letter or digit of ASCII, a slash, a
/// hyphen or an underscore.
pub open spec fn is_mount_point_char(c: char) -> bool {
    ||| 'a' <= c <= 'z'
    ||| 'A' <= c <= 'Z'
    ||| '0' <= c <= '9'
    ||| c == '/'
    ||| c == '-'
    ||| c == '_'
}

/// Every character of `mount_point` may stand in a mount point.
pub open spec fn has_only_mount_point_chars(mount_point: Seq<char>) -> bool {
    forall|i: int| 0 <= i < mount_point.len() ==> is_mount_point_char(#[trigger] mount_point[i])
}

/// The first rule that `mount_point` breaks, if any. The rules, in the
/// order in which they are looked at: it starts with a slash; it holds only
/// letters and digits of ASCII, slashes, hyphens and underscores; it holds
/// no two slashes in a row; and it does not end with a slash, unless it is
/// the root.
pub open spec fn mount_point_fault(mount_point: Seq<char>) -> Option<MountPointFault> {
    if !(mount_point.len() > 0 && mount_point[0] == '/') {
        Some(MountPointFault::NotRooted)
    } else if !has_only_mount_point_chars(mount_point) {
        Some(MountPointFault::InvalidCharacters)
    } else if occurs_in("//"@, mount_point) {
        Some(MountPointFault::DoubleSlash)
    } else if mount_point.len() > 1 && mount_point.last() == '/' {
        Some(MountPointFault::TrailingSlash)
    } else {
        None
    }
}

/// Why settings are refused.
#[derive(Debug)]
pub enum ConfigError {
    /// Nothing exists at the video path, which the error carries.
    VideoFileNotFound(String),
    /// What exists at the video path, which the error carries, is not a
    /// file.
    VideoPathNotFile(String),
    /// The RTSP port or the metrics port is refused.
    Port(PortError),
    /// The RTSP port and the metrics port are the same.
    SamePorts,
    /// The mount point is refused.
    MountPoint(MountPointError),
}

/// What the file system says of a path: whether anything is there, and
/// whether that is a file.
pub struct OnDisk {
    pub present: bool,
    pub is_file: bool,
}

impl ConfigError {
    /// The text of the error, as a user reads it. A path is shown as the
    /// standard library shows it for debugging, in quotes.
    pub open spec fn text(self) -> Seq<char> {
        match self {
            ConfigError::VideoFileNotFound(path) => "Video file not found: "@ + quoted_path(
                path@,
            ),
            ConfigError::VideoPathNotFile(path) => "Video path is not a file: "@ + quoted_path(
                path@,
            ),
            ConfigError::Port(error) => error@.text(),
            ConfigError::SamePorts => "RTSP port and metrics port cannot be the same"@,
            ConfigError::MountPoint(error) => error.text(),
        }
    }

    /// The text of the error, as a user reads it.
    pub fn message(&self) -> (message: String)
        ensures
            message@ == self.text(),
    {
        match self {
            ConfigError::VideoFileNotFound(path) => {
                let shown: String = path_debug_text(path.as_str());
                String::from_str("Video file not found: ").concat(shown.as_str())
            },
            ConfigError::VideoPathNotFile(path) => {
                let shown: String = path_debug_text(path.as_str());
                String::from_str("Video path is not a file: ").concat(shown.as_str())
            },
            ConfigError::Port(error) => error.message(),
            ConfigError::SamePorts => String::from_str(
                "RTSP port and metrics port cannot be the same",
            ),
            ConfigError::MountPoint(error) => error.message(),
        }
    }
}

impl Config {
    /// `result` is what the check of these settings gives where the file
    /// system says `disk` of the video path: the first rule that is broken,
    /// or `Ok`. The rules, in the order in which they are looked at:
    /// something exists at the video path; it is a file; the RTSP port is a
    /// user port; the metrics port is a user port; the two ports differ; the
    /// mount point breaks no rule of its own.
    pub open spec fn judged(&self, disk: OnDisk, result: Result<(), ConfigError>) -> bool {
        if !disk.present {
            result matches Err(ConfigError::VideoFileNotFound(path)) && path@ == self.video_path@
        } else if !disk.is_file {
            result matches Err(ConfigError::VideoPathNotFile(path)) && path@ == self.video_path@
        } else if port_fault(self.rtsp_port, "RTSP"@) is Some {
            result matches Err(ConfigError::Port(error)) && Some(error@) == port_fault(
                self.rtsp_port,
                "RTSP"@,
            )
        } else if port_fault(self.metrics_port, "metrics"@) is Some {
            result matches Err(ConfigError::Port(error)) && Some(error@) == port_fault(
                self.metrics_port,
                "metrics"@,
            )
        } else if self.rtsp_port == self.metrics_port {
            result matches Err(ConfigError::SamePorts)
        } else if mount_point_fault(self.mount_point@) is Some {
            result matches Err(ConfigError::MountPoint(error)) && Some(error.fault())
                == mount_point_fault(self.mount_point@) && error.refused() == self.mount_point@
        } else {
            result is Ok
        }
    }

    /// The check of the settings, given what the file system says of the
    /// video path.
    pub fn check(&self, present: bool, is_file: bool) -> (result: Result<(), ConfigError>)
        ensures
            self.judged(OnDisk { present, is_file }, result),
    {
        if !present {
            return Err(ConfigError::VideoFileNotFound(self.video_path.clone()));
        }
        if !is_file {
            return Err(ConfigError::VideoPathNotFile(self.video_path.clone()));
        }
        match Self::validate_port(self.rtsp_port, "RTSP") {
            Err(error) => {
                return Err(ConfigError::Port(error));
            },
            Ok(()) => {},
        }
        match Self::validate_port(self.metrics_port, "metrics") {
            Err(error) => {
                return Err(ConfigError::Port(error));
            },
            Ok(()) => {},
        }
        if self.rtsp_port == self.metrics_port {
            return Err(ConfigError::SamePorts);
        }
        match Self::validate_mount_point(self.mount_point.as_str()) {
            Err(error) => {
                return Err(ConfigError::MountPoint(error));
            },
            Ok(()) => {},
        }
        Ok(())
    }

    /// Asks the file system what is at the video path and checks the
    /// settings by the answer: the result is the one that `check` gives for
    /// what was found.
    pub fn validate(&self) -> (result: Result<(), ConfigError>)
        ensures
            exists|disk: OnDisk| #[trigger] self.judged(disk, result),
    {
        let present: bool = path_exists(self.video_path.as_str());
        let is_file: bool = present && path_is_file(self.video_path.as_str());
        let result = self.check(present, is_file);
        assert(self.judged(OnDisk { present, is_file }, result));
        result
    }

    /// Accepts a user port; `name` says which port it is.
    pub fn validate_port(port: u16, name: &str) -> (result: Result<(), PortError>)
        ensures
            match result {
                Ok(_) => port_fault(port, name@) is None,
                Err(error) => port_fault(port, name@) == Some(error@),
            },
    {
        validate_user_port(port, name)
    }

    /// Accepts a mount point that breaks no rule, and refuses any other
    /// with the first rule that it breaks; the error carries the mount
    /// point.
    pub fn validate_mount_point(mount_point: &str) -> (result: Result<(), MountPointError>)
        ensures
            match result {
                Ok(_) => mount_point_fault(mount_point@) is None,
                Err(error) => mount_point_fault(mount_point@) == Some(error.fault())
                    && error.refused() == mount_point@,
            },
    {
        if !starts_with_char(mount_point, '/') {
            return Err(MountPointError::NotRooted(mount_point.to_owned()));
        }
        if !has_valid_chars(mount_point) {
            return Err(MountPointError::InvalidCharacters(mount_point.to_owned()));
        }
        if contains(mount_point, "//") {
            return Err(MountPointError::DoubleSlash(mount_point.to_owned()));
        }
        if mount_point.unicode_len() > 1 && ends_with_char(mount_point, '/') {
            return Err(MountPointError::TrailingSlash(mount_point.to_owned()));
        }
        Ok(())
    }
}

/// Whether `c` may stand in a mount point.
fn is_valid_char(c: char) -> (valid: bool)
    ensures
        valid == is_mount_point_char(c),
{
    ('a' <= c && c <= 'z') || ('A' <= c && c <= 'Z') || ('0' <= c && c <= '9') || c == '/' || c
        == '-' || c == '_'
}

/// Whether every character of `mount_point` may stand in a mount point.
fn has_valid_chars(mount_point: &str) -> (valid: bool)
    ensures
        valid == has_only_mount_point_chars(mount_point@),
{
    let chars: Vec<char> = chars_of(mount_point);
    let mut i: usize = 0;
    while i < chars.len()
        invariant
            i <= chars@.len(),
            chars@ == mount_point@,
            forall|k: int| 0 <= k < i ==> is_mount_point_char(#[trigger] chars@[k]),
        decreases chars@.len() - i,
    {
        if !is_valid_char(chars[i]) {
            return false;
        }
        i += 1;
    }
    true
}

} // verus!
