//! The description of the bridge's media pipeline.

use crate::rtsp_to_srt::bridge_config::{BridgeConfig, BridgeConfigModel};
use vstd::prelude::*;
use vstd::string::StringExecFns;

verus! {

/// The pipeline that carries H.264 from an RTSP source to an SRT sink in an
/// MPEG transport stream. The parser repeats the parameter sets before
/// every key frame, so that a decoder can start at any of them; the stream
/// is aligned to access units for the muxer, and the muxer to seven
/// transport packets, which fill one SRT payload.
pub open spec fn pipeline_description(config: BridgeConfigModel) -> Seq<char> {
    "rtspsrc location="@ + config.rtsp_url
        + " latency=200 protocols=tcp ! rtph264depay ! h264parse config-interval=1 ! video/x-h264,stream-format=byte-stream,alignment=au ! mpegtsmux alignment=7 ! srtsink uri=\""@
        + config.srt_url + "\" wait-for-connection=false"@
}

/// Builds pipeline descriptions from bridge configurations.
pub struct PipelineBuilder;

impl PipelineBuilder {
    /// The description of the pipeline from the source of `config` to its
    /// destination.
    pub fn build_pipeline_string(config: &BridgeConfig) -> (description: String)
        ensures
            description@ == pipeline_description(config@),
    {
        String::from_str("rtspsrc location=").concat(config.rtsp_url()).concat(
            " latency=200 protocols=tcp ! rtph264depay ! h264parse config-interval=1 ! video/x-h264,stream-format=byte-stream,alignment=au ! mpegtsmux alignment=7 ! srtsink uri=\"",
        ).concat(config.srt_url()).concat("\" wait-for-connection=false")
    }
}

} // verus!
