use video_pipeline::rtsp::{looping_step, LoopStep, MediaEvent};

#[test]
fn looping_answers_the_end_of_the_stream_with_a_seek() {
    assert_eq!(looping_step(MediaEvent::Eos), LoopStep::SeekToStart);
    assert_eq!(looping_step(MediaEvent::Error), LoopStep::LogError);
    assert_eq!(looping_step(MediaEvent::Other), LoopStep::Nothing);
}
