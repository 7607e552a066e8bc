use video_pipeline::rtsp::{ContainerFormat, PipelineBuilder, StreamConfig, VideoCodec};

#[test]
fn test_build_h264_mp4_pipeline() {
    let config = StreamConfig::new("/test/video.mp4".to_string());
    let pipeline = PipelineBuilder::build_launch_string(&config);

    assert!(pipeline.contains("filesrc location=/test/video.mp4"));
    assert!(pipeline.contains("qtdemux"));
    assert!(pipeline.contains("h264parse config-interval=-1"));
    assert!(pipeline.contains("rtph264pay"));
    assert!(pipeline.contains("pt=96"));
}

#[test]
fn test_build_h265_pipeline() {
    let config = StreamConfig::new("/test/video.mp4".to_string()).with_codec(VideoCodec::H265);
    let pipeline = PipelineBuilder::build_launch_string(&config);

    assert!(pipeline.contains("h265parse config-interval=-1"));
    assert!(pipeline.contains("rtph265pay"));
}

#[test]
fn test_build_mkv_pipeline() {
    let config =
        StreamConfig::new("/test/video.mkv".to_string()).with_container(ContainerFormat::MKV);
    let pipeline = PipelineBuilder::build_launch_string(&config);

    assert!(pipeline.contains("matroskademux"));
}

#[test]
fn test_custom_payload_type() {
    let config = StreamConfig::new("/test/video.mp4".to_string()).with_rtp_payload_type(97);
    let pipeline = PipelineBuilder::build_launch_string(&config);

    assert!(pipeline.contains("pt=97"));
}

#[test]
fn launch_line_in_full() {
    let config = StreamConfig::new("/test/video.mp4".to_string());
    assert_eq!(
        PipelineBuilder::build_launch_string(&config),
        "( filesrc location=/test/video.mp4 ! qtdemux ! h264parse config-interval=-1 ! \
         rtph264pay name=pay0 pt=96 )"
    );
    let config = StreamConfig::new("/clips/a.mkv".to_string())
        .with_container(ContainerFormat::MKV)
        .with_codec(VideoCodec::H265)
        .with_rtp_payload_type(0);
    assert_eq!(
        PipelineBuilder::build_launch_string(&config),
        "( filesrc location=/clips/a.mkv ! matroskademux ! h265parse config-interval=-1 ! \
         rtph265pay name=pay0 pt=0 )"
    );
    assert_eq!(PipelineBuilder::demuxer_for_container(&ContainerFormat::MP4), "qtdemux");
    assert_eq!(PipelineBuilder::parser_for_codec(&VideoCodec::H265), "h265parse config-interval=-1");
    assert_eq!(PipelineBuilder::payloader_for_codec(&VideoCodec::H264), "rtph264pay");
}
