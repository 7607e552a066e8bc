use video_pipeline::rtsp::{plan_stop, StopPlan};

#[test]
fn stop_plan_for_each_case() {
    assert_eq!(plan_stop(false, false), StopPlan::Nothing);
    assert_eq!(plan_stop(false, true), StopPlan::Nothing);
    assert_eq!(plan_stop(true, false), StopPlan::StopServer);
    assert_eq!(plan_stop(true, true), StopPlan::ReportThenStopServer);
}
