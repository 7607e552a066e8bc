use video_pipeline::rtsp_to_srt::{BridgeConfig, PipelineBuilder};

#[test]
fn test_build_pipeline_string() {
    let config = BridgeConfig::new(
        "rtsp://localhost:8554/cam1".to_string(),
        "srt://localhost:9000".to_string(),
    )
    .unwrap();

    let pipeline = PipelineBuilder::build_pipeline_string(&config);

    assert!(pipeline.contains("rtspsrc location=rtsp://localhost:8554/cam1"));
    assert!(pipeline.contains("rtph264depay"));
    assert!(pipeline.contains("h264parse config-interval=1"));
    assert!(pipeline.contains("mpegtsmux alignment=7"));
    assert!(pipeline.contains("srtsink uri=\"srt://localhost:9000\""));
}

#[test]
fn pipeline_description_in_full() {
    let config = BridgeConfig::new(
        "rtsp://cam:8554/a".to_string(),
        "srt://sink:9000?mode=caller".to_string(),
    )
    .unwrap();
    assert_eq!(
        PipelineBuilder::build_pipeline_string(&config),
        "rtspsrc location=rtsp://cam:8554/a latency=200 protocols=tcp ! rtph264depay ! \
         h264parse config-interval=1 ! video/x-h264,stream-format=byte-stream,alignment=au ! \
         mpegtsmux alignment=7 ! srtsink uri=\"srt://sink:9000?mode=caller\" \
         wait-for-connection=false"
    );
}
