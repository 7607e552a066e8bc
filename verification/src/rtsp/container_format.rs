//! The container formats that the server can read.

use vstd::prelude::*;

verus! {

/// A container format.
#[derive(Debug, Clone, Copy, PartialEq, Eq, Structural)]
pub enum ContainerFormat {
    MP4,
    MKV,
}

impl ContainerFormat {
    /// The format's name.
    pub open spec fn name(self) -> Seq<char> {
        match self {
            ContainerFormat::MP4 => "MP4"@,
            ContainerFormat::MKV => "MKV"@,
        }
    }

    /// The format's name.
    pub fn as_str(&self) -> (name: &'static str)
        ensures
            name@ == self.name(),
    {
        match self {
            ContainerFormat::MP4 => "MP4",
            ContainerFormat::MKV => "MKV",
        }
    }
}

impl Default for ContainerFormat {
    /// MP4 unless told otherwise.
    fn default() -> (format: ContainerFormat)
        ensures
            format == ContainerFormat::MP4,
    {
        ContainerFormat::MP4
    }
}

} // verus!
