//! The streaming service's rule for stopping: what is owed, and in which
//! order, when a stop is asked for.

use vstd::prelude::*;

verus! {

/// What a stop of the service asks of its surroundings.
#[derive(Debug, Clone, Copy, PartialEq, Eq, Structural)]
pub enum StopPlan {
    /// Nothing: the server is not running, and that is no error.
    Nothing,
    /// Stop the server.
    StopServer,
    /// Tell the sink that the session has stopped, then stop the server.
    ReportThenStopServer,
}

/// The plan for a stop, given whether the server is running and whether it
/// has a session: a server that is not running is left alone, and the sink
/// hears of a session's end before the server is stopped.
pub fn plan_stop(running: bool, has_session: bool) -> (plan: StopPlan)
    ensures
        plan == if !running {
            StopPlan::Nothing
        } else if has_session {
            StopPlan::ReportThenStopServer
        } else {
            StopPlan::StopServer
        },
{
    if !running {
        StopPlan::Nothing
    } else if has_session {
        StopPlan::ReportThenStopServer
    } else {
        StopPlan::StopServer
    }
}

} // verus!
