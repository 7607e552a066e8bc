//! The video codecs that the server can stream.

use vstd::prelude::*;

verus! {

/// A video codec.
#[derive(Debug, Clone, Copy, PartialEq, Eq, Structural)]
pub enum VideoCodec {
    H264,
    H265,
}

impl VideoCodec {
    /// The codec's name.
    pub open spec fn name(self) -> Seq<char> {
        match self {
            VideoCodec::H264 => "H.264"@,
            VideoCodec::H265 => "H.265"@,
        }
    }

    /// The codec's name.
    pub fn as_str(&self) -> (name: &'static str)
        ensures
            name@ == self.name(),
    {
        match self {
            VideoCodec::H264 => "H.264",
            VideoCodec::H265 => "H.265",
        }
    }
}

impl Default for VideoCodec {
    /// H.264 unless told otherwise.
    fn default() -> (codec: VideoCodec)
        ensures
            codec == VideoCodec::H264,
    {
        VideoCodec::H264
    }
}

} // verus!
