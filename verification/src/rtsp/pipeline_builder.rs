//! The launch line of the server's media pipeline.

use crate::rtsp::container_format::ContainerFormat;
use crate::rtsp::stream_config::{StreamConfig, StreamConfigModel};
use crate::rtsp::video_codec::VideoCodec;
use crate::text::{decimal, decimal_digits};
use vstd::prelude::*;
use vstd::string::StringExecFns;

verus! {

/// The element that takes the container apart.
pub open spec fn demuxer_name(container: ContainerFormat) -> Seq<char> {
    match container {
        ContainerFormat::MP4 => "qtdemux"@,
        ContainerFormat::MKV => "matroskademux"@,
    }
}

/// The element that parses the codec's stream, with its settings.
pub open spec fn parser_name(codec: VideoCodec) -> Seq<char> {
    match codec {
        VideoCodec::H264 => "h264parse config-interval=-1"@,
        VideoCodec::H265 => "h265parse config-interval=-1"@,
    }
}

/// The element that packs the codec's stream into RTP.
pub open spec fn payloader_name(codec: VideoCodec) -> Seq<char> {
    match codec {
        VideoCodec::H264 => "rtph264pay"@,
        VideoCodec::H265 => "rtph265pay"@,
    }
}

/// The launch line for a stream: the file source, the demuxer, the parser
/// and the payloader, which is named `pay0` and given the payload type.
pub open spec fn launch_line(config: StreamConfigModel) -> Seq<char> {
    "( filesrc location="@ + config.source_path + " ! "@ + demuxer_name(config.container)
        + " ! "@ + parser_name(config.codec) + " ! "@ + payloader_name(config.codec)
        + " name=pay0 pt="@ + decimal_digits(config.rtp_payload_type as nat) + " )"@
}

/// Builds launch lines from stream configurations.
pub struct PipelineBuilder;

impl PipelineBuilder {
    /// The launch line for the stream that `config` describes.
    pub fn build_launch_string(config: &StreamConfig) -> (line: String)
        ensures
            line@ == launch_line(config@),
    {
        let demuxer: &'static str = Self::demuxer_for_container(config.container());
        let parser: &'static str = Self::parser_for_codec(config.codec());
        let payloader: &'static str = Self::payloader_for_codec(config.codec());
        let payload_type: String = decimal(config.rtp_payload_type() as u64);
        String::from_str("( filesrc location=").concat(config.source_path().as_str()).concat(
            " ! ",
        ).concat(demuxer).concat(" ! ").concat(parser).concat(" ! ").concat(payloader).concat(
            " name=pay0 pt=",
        ).concat(payload_type.as_str()).concat(" )")
    }

    /// The element that takes `container` apart.
    pub fn demuxer_for_container(container: &ContainerFormat) -> (name: &'static str)
        ensures
            name@ == demuxer_name(*container),
    {
        match container {
            ContainerFormat::MP4 => "qtdemux",
            ContainerFormat::MKV => "matroskademux",
        }
    }

    /// The element that parses the stream of `codec`, with its settings.
    pub fn parser_for_codec(codec: &VideoCodec) -> (name: &'static str)
        ensures
            name@ == parser_name(*codec),
    {
        match codec {
            VideoCodec::H264 => "h264parse config-interval=-1",
            VideoCodec::H265 => "h265parse config-interval=-1",
        }
    }

    /// The element that packs the stream of `codec` into RTP.
    pub fn payloader_for_codec(codec: &VideoCodec) -> (name: &'static str)
        ensures
            name@ == payloader_name(*codec),
    {
        match codec {
            VideoCodec::H264 => "rtph264pay",
            VideoCodec::H265 => "rtph265pay",
        }
    }
}

} // verus!
