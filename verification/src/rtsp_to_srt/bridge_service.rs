//! The reconnect supervisor: what to do before, between and after the runs
//! of the transport engine.
//!
//! The supervisor decides and keeps the books; it performs nothing itself.
//! Each of its steps returns the actions that its surroundings owe, in the
//! order in which they are due: signal writes, metric reports and the
//! backoff sleep. The loop that drives it is
//!
//! 1. perform the actions of `start`;
//! 2. while the shutdown signal says "running": run the transport engine
//!    once, hand its outcome and the signal as it then stands to
//!    `on_outcome`, and either perform the actions of the step or leave the
//!    loop;
//! 3. perform the actions of `finish`.
//!
//! Retries are unbounded: the supervisor sets no limit to the failures in a
//! row, and the lifecycle's `should_continue_retrying` is not consulted.
//! Only `stop` and `finish` lead to `Failed`. The sleep that a failure asks
//! for is one span, not cut short by the shutdown signal.
//!
//! A `stop` forces the lifecycle into `Failed`, whatever state it is in. It
//! records nothing only where a stop was asked for since the last `start`
//! and the lifecycle is in `Failed`: a stop after the lifecycle has moved
//! on is recorded again.

use crate::rtsp_to_srt::backoff_policy::{
    lemma_delays_never_decrease, BackoffModel, BackoffPolicy,
};
use crate::rtsp_to_srt::connection_lifecycle::{
    lemma_initial_is_well_formed, lemma_record_keeps_well_formed, ConnectionLifecycle,
    LifecycleModel,
};
use crate::rtsp_to_srt::connection_state::ConnectionState;
use crate::rtsp_to_srt::errors::DomainError;
use crate::time_span::{span_of, TimeSpan};
use vstd::prelude::*;
use vstd::string::StringExecFns;

verus! {

/// How one run of the transport engine ended.
#[derive(Debug)]
pub enum RunOutcome {
    /// The stream ended cleanly.
    Completed,
    /// The run failed; the text says how.
    Failed(String),
}

impl RunOutcome {
    /// The outcome of a run that returned `result`: an error fails the run
    /// with the error's text.
    pub fn from_result(result: Result<(), DomainError>) -> (outcome: RunOutcome)
        ensures
            match result {
                Ok(_) => outcome is Completed,
                Err(error) => outcome matches RunOutcome::Failed(detail) && detail@
                    == error.text(),
            },
    {
        match result {
            Ok(()) => RunOutcome::Completed,
            Err(error) => RunOutcome::Failed(error.message()),
        }
    }
}

/// One thing that the supervisor asks of its surroundings.
#[derive(Debug, Clone, Copy, PartialEq, Eq, Structural)]
pub enum SupervisorAction {
    /// Write the shared shutdown signal: `true` for "running".
    SetRunning(bool),
    /// Report the state to the metrics sink.
    ReportStateChange(ConnectionState),
    /// Report one reconnection attempt to the metrics sink.
    ReportReconnectAttempt,
    /// Report the backoff delay to the metrics sink.
    ReportBackoff(TimeSpan),
    /// Report to the metrics sink whether the SRT side is connected.
    ReportSrtState(bool),
    /// Suspend the worker for the span.
    Sleep(TimeSpan),
    /// Read the uptime, which is defined when this is asked for, and report
    /// it to the metrics sink.
    ReportUptime,
}

/// What follows a run of the transport engine.
#[derive(Debug)]
pub enum Step {
    /// Perform the actions, then look at the shutdown signal again.
    Proceed(Vec<SupervisorAction>),
    /// Leave the loop at once.
    Leave,
}

/// The reason recorded when the loop has ended.
pub open spec fn stopped_reason() -> Seq<char> {
    "Stopped"@
}

/// The reason recorded when a stop was asked for.
pub open spec fn stopped_by_user_reason() -> Seq<char> {
    "Stopped by user"@
}

/// What the supervisor holds: the lifecycle, the policy, the delay that
/// the next failure will wait for, the number of failures in a row, and
/// whether a stop was asked for since the last `start`.
pub struct SupervisorModel {
    pub lifecycle: LifecycleModel,
    pub policy: BackoffModel,
    pub current_backoff: nat,
    pub attempt: nat,
    pub stop_requested: bool,
}

impl SupervisorModel {
    /// A supervisor that has done nothing yet.
    pub open spec fn fresh(policy: BackoffModel) -> SupervisorModel {
        SupervisorModel {
            lifecycle: LifecycleModel::initial(),
            policy,
            current_backoff: policy.initial_delay,
            attempt: 0,
            stop_requested: false,
        }
    }

    /// The invariant of a supervisor: its lifecycle is well formed, and
    /// while reconnecting the lifecycle shows the count of failures.
    pub open spec fn well_formed(self) -> bool {
        &&& self.lifecycle.well_formed()
        &&& self.attempt <= u32::MAX
        &&& self.lifecycle.current_state matches ConnectionState::Reconnecting { attempt }
            ==> attempt == self.attempt
    }

    /// The delay in force is the one that the policy gives for the
    /// failures counted.
    pub open spec fn in_step(self) -> bool {
        self.current_backoff == self.policy.delay_after(self.attempt)
    }

    /// The report of the uptime, where streaming has ever begun.
    pub open spec fn uptime_report(self) -> Seq<SupervisorAction> {
        if self.lifecycle.started_at is Some {
            seq![SupervisorAction::ReportUptime]
        } else {
            Seq::empty()
        }
    }

    /// The supervisor after `start`, at clock reading `now`. A stop that
    /// was asked for before is forgotten.
    pub open spec fn started(self, now: nat) -> SupervisorModel {
        SupervisorModel {
            lifecycle: self.lifecycle.record(ConnectionState::Connecting, None, now),
            policy: self.policy,
            current_backoff: self.policy.initial_delay,
            attempt: 0,
            stop_requested: false,
        }
    }

    /// What `start` asks for.
    pub open spec fn start_actions() -> Seq<SupervisorAction> {
        seq![
            SupervisorAction::SetRunning(true),
            SupervisorAction::ReportStateChange(ConnectionState::Connecting),
        ]
    }

    /// The supervisor after a run that completed, at clock reading `now`.
    pub open spec fn completed(self, now: nat) -> SupervisorModel {
        SupervisorModel {
            lifecycle: self.lifecycle.record(ConnectionState::Connecting, None, now),
            policy: self.policy,
            current_backoff: self.policy.initial_delay,
            attempt: 0,
            stop_requested: self.stop_requested,
        }
    }

    /// What a run that completed asks for.
    pub open spec fn completed_actions(self) -> Seq<SupervisorAction> {
        seq![SupervisorAction::ReportStateChange(ConnectionState::Connecting)]
            + self.uptime_report()
    }

    /// The count of failures in a row after one more: the count plus one,
    /// held at `u32::MAX` once it is there.
    pub open spec fn next_attempt(self) -> nat {
        if self.attempt < u32::MAX {
            self.attempt + 1
        } else {
            self.attempt
        }
    }

    /// The state that a failure leads to.
    pub open spec fn reconnecting(self) -> ConnectionState {
        ConnectionState::Reconnecting { attempt: self.next_attempt() as u32 }
    }

    /// The supervisor after a run that failed with `detail` while the
    /// signal still said "running", at clock reading `now`.
    pub open spec fn failed(self, detail: Seq<char>, now: nat) -> SupervisorModel {
        SupervisorModel {
            lifecycle: self.lifecycle.record(self.reconnecting(), Some(detail), now),
            policy: self.policy,
            current_backoff: self.policy.next_delay(self.current_backoff),
            attempt: self.next_attempt(),
            stop_requested: self.stop_requested,
        }
    }

    /// The supervisor after one failed run for each of `details`, in
    /// order, each recorded at the clock reading of the same place in
    /// `readings`, with the signal saying "running" throughout.
    pub open spec fn failed_in_a_row(
        self,
        details: Seq<Seq<char>>,
        readings: Seq<nat>,
    ) -> SupervisorModel
        decreases details.len(),
    {
        if details.len() == 0 {
            self
        } else {
            self.failed_in_a_row(details.drop_last(), readings.drop_last()).failed(
                details.last(),
                readings.last(),
            )
        }
    }

    /// What a run that failed asks for while the signal still says
    /// "running": the reports, then the sleep for the delay in force, then
    /// the uptime where there is one.
    pub open spec fn failed_actions(self) -> Seq<SupervisorAction> {
        seq![
            SupervisorAction::ReportReconnectAttempt,
            SupervisorAction::ReportStateChange(self.reconnecting()),
            SupervisorAction::ReportBackoff(span_of(self.current_backoff)),
            SupervisorAction::ReportSrtState(false),
            SupervisorAction::Sleep(span_of(self.current_backoff)),
        ] + self.uptime_report()
    }

    /// The supervisor after `finish`, at clock reading `now`.
    pub open spec fn finished(self, now: nat) -> SupervisorModel {
        SupervisorModel {
            lifecycle: self.lifecycle.record(
                ConnectionState::Failed,
                Some(stopped_reason()),
                now,
            ),
            ..self
        }
    }

    /// What `finish` asks for.
    pub open spec fn finish_actions() -> Seq<SupervisorAction> {
        seq![SupervisorAction::ReportStateChange(ConnectionState::Failed)]
    }

    /// A stop has nothing to record: one was asked for since the last
    /// `start`, and the lifecycle is in `Failed`.
    pub open spec fn stop_is_settled(self) -> bool {
        self.stop_requested && self.lifecycle.current_state is Failed
    }

    /// The supervisor after `stop`, at clock reading `now`. A stop forces
    /// the lifecycle into `Failed`, for the reason "Stopped by user",
    /// whatever state it is in: also where the loop has ended and left it in
    /// `Failed` already, and also where an earlier stop was followed by
    /// other changes. Only a supervisor that was stopped before and is in
    /// `Failed` stays as it is.
    pub open spec fn stopped(self, now: nat) -> SupervisorModel {
        if self.stop_is_settled() {
            self
        } else {
            SupervisorModel {
                lifecycle: self.lifecycle.record(
                    ConnectionState::Failed,
                    Some(stopped_by_user_reason()),
                    now,
                ),
                stop_requested: true,
                ..self
            }
        }
    }

    /// What `stop` asks for: the signal is cleared in any case, and the
    /// state is reported by every stop that recorded it.
    pub open spec fn stop_actions(self) -> Seq<SupervisorAction> {
        if self.stop_is_settled() {
            seq![SupervisorAction::SetRunning(false)]
        } else {
            seq![
                SupervisorAction::SetRunning(false),
                SupervisorAction::ReportStateChange(ConnectionState::Failed),
            ]
        }
    }
}

/// The books of the reconnect supervisor.
#[derive(Debug)]
pub struct BridgeService {
    lifecycle: ConnectionLifecycle,
    backoff_policy: BackoffPolicy,
    current_backoff: TimeSpan,
    reconnect_attempt: u32,
    stop_requested: bool,
}

impl View for BridgeService {
    type V = SupervisorModel;

    closed spec fn view(&self) -> SupervisorModel {
        SupervisorModel {
            lifecycle: self.lifecycle@,
            policy: self.backoff_policy@,
            current_backoff: self.current_backoff@,
            attempt: self.reconnect_attempt as nat,
            stop_requested: self.stop_requested,
        }
    }
}

impl BridgeService {
    /// A supervisor with the given policy that has done nothing yet.
    pub fn new(backoff_policy: BackoffPolicy) -> (service: BridgeService)
        ensures
            service@ == SupervisorModel::fresh(backoff_policy@),
            service@.well_formed(),
            service@.in_step(),
    {
        proof {
            lemma_fresh_is_well_formed(backoff_policy@);
        }
        let current_backoff: TimeSpan = backoff_policy.initial_delay();
        BridgeService {
            lifecycle: ConnectionLifecycle::new(),
            backoff_policy,
            current_backoff,
            reconnect_attempt: 0,
            stop_requested: false,
        }
    }

    /// The current state of the connection.
    pub fn current_state(&self) -> (state: ConnectionState)
        ensures
            state == self@.lifecycle.current_state,
    {
        *self.lifecycle.current_state()
    }

    /// The lifecycle that the supervisor keeps.
    pub fn lifecycle(&self) -> (lifecycle: &ConnectionLifecycle)
        ensures
            lifecycle@ == self@.lifecycle,
    {
        &self.lifecycle
    }

    /// The delay that the next failure will wait for.
    pub fn current_backoff(&self) -> (delay: TimeSpan)
        ensures
            delay@ == self@.current_backoff,
    {
        self.current_backoff
    }

    /// The number of failures in a row.
    pub fn reconnect_attempt(&self) -> (attempt: u32)
        ensures
            attempt == self@.attempt,
    {
        self.reconnect_attempt
    }

    /// The actions that report the uptime, where streaming has ever begun.
    fn push_uptime_report(&self, actions: &mut Vec<SupervisorAction>)
        ensures
            final(actions)@ == old(actions)@ + self@.uptime_report(),
    {
        if self.lifecycle.uptime().is_some() {
            actions.push(SupervisorAction::ReportUptime);
            assert(actions@ =~= old(actions)@ + seq![SupervisorAction::ReportUptime]);
        } else {
            assert(actions@ =~= old(actions)@ + Seq::<SupervisorAction>::empty());
        }
    }

    /// Before the first run: the signal is set to "running", the lifecycle
    /// goes to `Connecting`, the delay is the initial one and no failure is
    /// counted.
    pub fn start(&mut self) -> (actions: Vec<SupervisorAction>)
        ensures
            exists|now: nat| final(self)@ == #[trigger] old(self)@.started(now),
            actions@ == SupervisorModel::start_actions(),
            old(self)@.well_formed() ==> final(self)@.well_formed(),
    {
        self.current_backoff = self.backoff_policy.initial_delay();
        self.reconnect_attempt = 0;
        self.stop_requested = false;
        self.lifecycle.transition_to_connecting();
        let mut actions: Vec<SupervisorAction> = Vec::new();
        actions.push(SupervisorAction::SetRunning(true));
        actions.push(SupervisorAction::ReportStateChange(*self.lifecycle.current_state()));
        proof {
            let now: nat = choose|now: nat|
                self@.lifecycle == #[trigger] old(self)@.lifecycle.record(
                    ConnectionState::Connecting,
                    None,
                    now,
                );
            assert(self@ == old(self)@.started(now));
            if old(self)@.well_formed() {
                lemma_steps_keep_well_formed(old(self)@, Seq::empty(), now);
            }
            assert(actions@ =~= SupervisorModel::start_actions());
        }
        actions
    }

    /// After a run of the transport engine that ended with `outcome`, with
    /// `running` the shutdown signal as it stood when the run returned.
    ///
    /// A run that completed is no failure: the lifecycle goes to
    /// `Connecting`, the delay is the initial one again, no failure is
    /// counted and no sleep is asked for. A run that failed after shutdown
    /// was asked for leaves the loop and changes nothing. Any other failed
    /// run counts one more failure, goes to `Reconnecting` with the
    /// failure's text as the reason, asks for the reports and for a sleep of
    /// the delay in force, and moves the delay on by the policy.
    pub fn on_outcome(&mut self, outcome: RunOutcome, running: bool) -> (step: Step)
        ensures
            match outcome {
                RunOutcome::Completed => {
                    &&& exists|now: nat| final(self)@ == #[trigger] old(self)@.completed(now)
                    &&& step matches Step::Proceed(actions) && actions@
                        == old(self)@.completed_actions()
                },
                RunOutcome::Failed(detail) => if running {
                    &&& exists|now: nat| final(self)@ == #[trigger] old(self)@.failed(detail@, now)
                    &&& step matches Step::Proceed(actions) && actions@
                        == old(self)@.failed_actions()
                } else {
                    &&& final(self)@ == old(self)@
                    &&& step is Leave
                },
            },
            old(self)@.well_formed() ==> final(self)@.well_formed(),
    {
        match outcome {
            RunOutcome::Completed => {
                self.lifecycle.transition_to_connecting();
                let mut actions: Vec<SupervisorAction> = Vec::new();
                actions.push(SupervisorAction::ReportStateChange(*self.lifecycle.current_state()));
                self.current_backoff = self.backoff_policy.initial_delay();
                self.reconnect_attempt = 0;
                self.push_uptime_report(&mut actions);
                proof {
                    let now: nat = choose|now: nat|
                        self@.lifecycle == #[trigger] old(self)@.lifecycle.record(
                            ConnectionState::Connecting,
                            None,
                            now,
                        );
                    assert(self@ == old(self)@.completed(now));
                    if old(self)@.well_formed() {
                        lemma_steps_keep_well_formed(old(self)@, Seq::empty(), now);
                    }
                    assert(actions@ =~= old(self)@.completed_actions());
                }
                Step::Proceed(actions)
            },
            RunOutcome::Failed(detail) => {
                if !running {
                    return Step::Leave;
                }
                let ghost text: Seq<char> = detail@;
                if self.reconnect_attempt < u32::MAX {
                    self.reconnect_attempt = self.reconnect_attempt + 1;
                }
                let mut actions: Vec<SupervisorAction> = Vec::new();
                actions.push(SupervisorAction::ReportReconnectAttempt);
                self.lifecycle.transition_to_reconnecting(self.reconnect_attempt, Some(detail));
                actions.push(SupervisorAction::ReportStateChange(*self.lifecycle.current_state()));
                actions.push(SupervisorAction::ReportBackoff(self.current_backoff));
                actions.push(SupervisorAction::ReportSrtState(false));
                actions.push(SupervisorAction::Sleep(self.current_backoff));
                self.current_backoff = self.backoff_policy.next_delay(self.current_backoff);
                self.push_uptime_report(&mut actions);
                proof {
                    let now: nat = choose|now: nat|
                        self@.lifecycle == #[trigger] old(self)@.lifecycle.record(
                            old(self)@.reconnecting(),
                            Some(text),
                            now,
                        );
                    assert(self@ == old(self)@.failed(text, now));
                    if old(self)@.well_formed() {
                        lemma_steps_keep_well_formed(old(self)@, text, now);
                    }
                    assert(actions@ =~= old(self)@.failed_actions());
                }
                Step::Proceed(actions)
            },
        }
    }

    /// After the loop: the lifecycle goes to `Failed`, for the reason
    /// "Stopped", and the state is reported.
    pub fn finish(&mut self) -> (actions: Vec<SupervisorAction>)
        ensures
            exists|now: nat| final(self)@ == #[trigger] old(self)@.finished(now),
            actions@ == SupervisorModel::finish_actions(),
            old(self)@.well_formed() ==> final(self)@.well_formed(),
    {
        self.lifecycle.transition_to_failed(Some(String::from_str("Stopped")));
        let mut actions: Vec<SupervisorAction> = Vec::new();
        actions.push(SupervisorAction::ReportStateChange(*self.lifecycle.current_state()));
        proof {
            let now: nat = choose|now: nat|
                self@.lifecycle == #[trigger] old(self)@.lifecycle.record(
                    ConnectionState::Failed,
                    Some(stopped_reason()),
                    now,
                );
            assert(self@ == old(self)@.finished(now));
            if old(self)@.well_formed() {
                lemma_steps_keep_well_formed(old(self)@, Seq::empty(), now);
            }
            assert(actions@ =~= SupervisorModel::finish_actions());
        }
        actions
    }

    /// Whether a stop was asked for since the last `start`.
    pub fn stop_requested(&self) -> (requested: bool)
        ensures
            requested == self@.stop_requested,
    {
        self.stop_requested
    }

    /// Stops the bridge: the shutdown signal is cleared and the lifecycle
    /// is forced into `Failed`, for the reason "Stopped by user", whatever
    /// state it is in. A stop that finds the lifecycle in `Failed` after an
    /// earlier stop records nothing more and asks only for the signal to be
    /// cleared again.
    pub fn stop(&mut self) -> (actions: Vec<SupervisorAction>)
        ensures
            exists|now: nat| final(self)@ == #[trigger] old(self)@.stopped(now),
            actions@ == old(self)@.stop_actions(),
            final(self)@.stop_requested,
            final(self)@.lifecycle.current_state is Failed,
            old(self)@.well_formed() ==> final(self)@.well_formed(),
    {
        let mut actions: Vec<SupervisorAction> = Vec::new();
        actions.push(SupervisorAction::SetRunning(false));
        let in_failed: bool = match self.lifecycle.current_state() {
            ConnectionState::Failed => true,
            _ => false,
        };
        if self.stop_requested && in_failed {
            proof {
                assert(self@ == old(self)@.stopped(0));
                assert(actions@ =~= old(self)@.stop_actions());
            }
        } else {
            self.stop_requested = true;
            self.lifecycle.transition_to_failed(Some(String::from_str("Stopped by user")));
            actions.push(SupervisorAction::ReportStateChange(*self.lifecycle.current_state()));
            proof {
                let now: nat = choose|now: nat|
                    self@.lifecycle == #[trigger] old(self)@.lifecycle.record(
                        ConnectionState::Failed,
                        Some(stopped_by_user_reason()),
                        now,
                    );
                assert(self@ == old(self)@.stopped(now));
                assert(actions@ =~= old(self)@.stop_actions());
                if old(self)@.well_formed() {
                    lemma_steps_keep_well_formed(old(self)@, Seq::empty(), now);
                }
            }
        }
        actions
    }
}

/// Every step of the supervisor keeps it well formed.
pub proof fn lemma_steps_keep_well_formed(model: SupervisorModel, detail: Seq<char>, now: nat)
    requires
        model.well_formed(),
    ensures
        model.started(now).well_formed(),
        model.completed(now).well_formed(),
        model.failed(detail, now).well_formed(),
        model.finished(now).well_formed(),
        model.stopped(now).well_formed(),
{
    lemma_record_keeps_well_formed(model.lifecycle, ConnectionState::Connecting, None, now);
    lemma_record_keeps_well_formed(model.lifecycle, model.reconnecting(), Some(detail), now);
    lemma_record_keeps_well_formed(
        model.lifecycle,
        ConnectionState::Failed,
        Some(stopped_reason()),
        now,
    );
    lemma_record_keeps_well_formed(
        model.lifecycle,
        ConnectionState::Failed,
        Some(stopped_by_user_reason()),
        now,
    );
}

/// A supervisor that has done nothing yet is well formed and in step with
/// its policy.
pub proof fn lemma_fresh_is_well_formed(policy: BackoffModel)
    ensures
        SupervisorModel::fresh(policy).well_formed(),
        SupervisorModel::fresh(policy).in_step(),
{
    lemma_initial_is_well_formed();
}

/// The count of failures goes up by exactly one with each failure in a row
/// and back to zero with a run that completes; the state shows the new
/// count, and the change carries the failure's text.
pub proof fn lemma_attempts_count_failures(model: SupervisorModel, detail: Seq<char>, now: nat)
    requires
        model.attempt < u32::MAX,
    ensures
        model.failed(detail, now).attempt == model.attempt + 1,
        model.failed(detail, now).lifecycle.current_state == (ConnectionState::Reconnecting {
            attempt: (model.attempt + 1) as u32,
        }),
        model.failed(detail, now).lifecycle.history.last().reason == Some(detail),
        model.completed(now).attempt == 0,
        model.completed(now).lifecycle.current_state == ConnectionState::Connecting,
        model.started(now).attempt == 0,
{
}

/// The delay follows the policy: after `start` or a run that completed it
/// is the initial delay, and each failure in a row moves it one place on in
/// the policy's sequence of delays.
pub proof fn lemma_delay_follows_policy(model: SupervisorModel, detail: Seq<char>, now: nat)
    ensures
        model.started(now).in_step(),
        model.completed(now).in_step(),
        model.started(now).current_backoff == model.policy.initial_delay,
        model.completed(now).current_backoff == model.policy.initial_delay,
        model.in_step() && model.attempt < u32::MAX ==> model.failed(detail, now).in_step(),
        model.failed(detail, now).failed_actions()[4] == SupervisorAction::Sleep(
            span_of(model.policy.next_delay(model.current_backoff)),
        ),
        model.failed_actions()[4] == SupervisorAction::Sleep(span_of(model.current_backoff)),
{
}

/// After `start` or a run that completed, any number of failures in a row
/// leaves the supervisor with that number as its count, in `Reconnecting`
/// with that count, with one change more in its history for each failure,
/// and with the delay that the policy gives for that many failures.
pub proof fn lemma_failures_in_a_row(
    model: SupervisorModel,
    details: Seq<Seq<char>>,
    readings: Seq<nat>,
)
    requires
        model.attempt == 0,
        model.in_step(),
        details.len() == readings.len(),
        details.len() <= u32::MAX,
    ensures
        ({
            let after = model.failed_in_a_row(details, readings);
            &&& after.attempt == details.len()
            &&& after.in_step()
            &&& after.current_backoff == model.policy.delay_after(details.len())
            &&& after.policy == model.policy
            &&& after.stop_requested == model.stop_requested
            &&& after.lifecycle.history.len() == model.lifecycle.history.len() + details.len()
            &&& details.len() > 0 ==> after.lifecycle.current_state
                == (ConnectionState::Reconnecting { attempt: details.len() as u32 })
        }),
    decreases details.len(),
{
    if details.len() > 0 {
        lemma_failures_in_a_row(model, details.drop_last(), readings.drop_last());
    }
}

/// The sleep that a failure asks for is never longer than the maximum
/// delay, where the policy's initial delay is within the maximum and the
/// supervisor is in step with its policy.
pub proof fn lemma_sleep_is_within_max(model: SupervisorModel)
    requires
        model.policy.valid(),
        model.policy.initial_delay <= model.policy.max_delay,
        model.in_step(),
    ensures
        model.current_backoff <= model.policy.max_delay,
        model.failed_actions()[4] == SupervisorAction::Sleep(span_of(model.current_backoff)),
{
    lemma_delays_never_decrease(model.policy, model.attempt);
}

/// Only `finish` and `stop` lead to `Failed`, and both always do: no
/// outcome of a run does.
pub proof fn lemma_only_finish_and_stop_fail(model: SupervisorModel, detail: Seq<char>, now: nat)
    ensures
        !(model.started(now).lifecycle.current_state is Failed),
        !(model.completed(now).lifecycle.current_state is Failed),
        !(model.failed(detail, now).lifecycle.current_state is Failed),
        model.finished(now).lifecycle.current_state is Failed,
        model.stopped(now).lifecycle.current_state is Failed,
{
}

/// From every state, `stop` leaves the lifecycle in `Failed` and the stop
/// remembered. Unless it finds the lifecycle in `Failed` after an earlier
/// stop, it records exactly one change, from the state that was current to
/// `Failed`, for the reason "Stopped by user", and asks for the report; the
/// books of the backoff stay as they are.
pub proof fn lemma_stop_forces_failed(model: SupervisorModel, now: nat)
    ensures
        model.stopped(now).lifecycle.current_state is Failed,
        model.stopped(now).stop_requested,
        model.stopped(now).policy == model.policy,
        model.stopped(now).current_backoff == model.current_backoff,
        model.stopped(now).attempt == model.attempt,
        !model.stop_is_settled() ==> {
            &&& model.stopped(now).lifecycle.history.len() == model.lifecycle.history.len() + 1
            &&& model.stopped(now).lifecycle.history.last().from
                == model.lifecycle.current_state
            &&& model.stopped(now).lifecycle.history.last().to is Failed
            &&& model.stopped(now).lifecycle.history.last().reason == Some(
                stopped_by_user_reason(),
            )
            &&& model.stop_actions() == seq![
                SupervisorAction::SetRunning(false),
                SupervisorAction::ReportStateChange(ConnectionState::Failed),
            ]
        },
{
}

/// A stop after the loop has ended is recorded all the same: `finish` has
/// left the lifecycle in `Failed` for the reason "Stopped", and a first
/// stop adds the change from `Failed` to `Failed` for the reason "Stopped
/// by user" and reports the state.
pub proof fn lemma_stop_after_finish_records(model: SupervisorModel, ended: nat, asked: nat)
    requires
        !model.stop_requested,
    ensures
        ({
            let finished = model.finished(ended);
            let stopped = finished.stopped(asked);
            &&& finished.lifecycle.current_state is Failed
            &&& finished.lifecycle.history.last().reason == Some(stopped_reason())
            &&& stopped.lifecycle.current_state is Failed
            &&& stopped.lifecycle.history.len() == model.lifecycle.history.len() + 2
            &&& stopped.lifecycle.history.last().from is Failed
            &&& stopped.lifecycle.history.last().reason == Some(stopped_by_user_reason())
            &&& finished.stop_actions() == seq![
                SupervisorAction::SetRunning(false),
                SupervisorAction::ReportStateChange(ConnectionState::Failed),
            ]
        }),
{
}

/// A stop after the lifecycle has moved on is recorded again: where the
/// run that was under way at a stop returns, completed or failed, the
/// lifecycle leaves `Failed`, and the next stop forces it back, for the
/// reason "Stopped by user", and reports the state.
pub proof fn lemma_stop_after_moving_on_records(
    model: SupervisorModel,
    detail: Seq<char>,
    first: nat,
    returned: nat,
    second: nat,
)
    ensures
        ({
            let completed = model.stopped(first).completed(returned);
            let failed = model.stopped(first).failed(detail, returned);
            &&& !completed.stop_is_settled()
            &&& !failed.stop_is_settled()
            &&& completed.stopped(second).lifecycle.current_state is Failed
            &&& completed.stopped(second).lifecycle.history.len()
                == completed.lifecycle.history.len() + 1
            &&& completed.stopped(second).lifecycle.history.last().reason == Some(
                stopped_by_user_reason(),
            )
            &&& completed.stop_actions() == seq![
                SupervisorAction::SetRunning(false),
                SupervisorAction::ReportStateChange(ConnectionState::Failed),
            ]
            &&& failed.stopped(second).lifecycle.current_state is Failed
            &&& failed.stopped(second).lifecycle.history.len() == failed.lifecycle.history.len()
                + 1
            &&& failed.stop_actions() == completed.stop_actions()
        }),
{
}

/// Stopping twice is stopping once: the first stop leaves the lifecycle in
/// `Failed` with at most one change more, and a second stop changes
/// nothing and asks only for the signal to be cleared again.
pub proof fn lemma_stop_is_idempotent(model: SupervisorModel, first: nat, second: nat)
    ensures
        model.stopped(first).lifecycle.current_state is Failed,
        model.stopped(first).stop_requested,
        model.stopped(first).stopped(second) == model.stopped(first),
        model.stopped(first).stop_actions() == seq![SupervisorAction::SetRunning(false)],
        model.stopped(first).lifecycle.history.len() <= model.lifecycle.history.len() + 1,
        !model.stop_is_settled() ==> model.stopped(first).lifecycle.history.len()
            == model.lifecycle.history.len() + 1,
{
}

/// `start` forgets a stop, so that the run which it begins can be stopped
/// in its turn, also after its loop has ended.
pub proof fn lemma_start_forgets_stop(model: SupervisorModel, began: nat, ended: nat, asked: nat)
    ensures
        !model.started(began).stop_requested,
        !model.started(began).finished(ended).stop_is_settled(),
        model.started(began).finished(ended).stopped(asked).lifecycle.history.last().reason
            == Some(stopped_by_user_reason()),
        model.started(began).stopped(asked).lifecycle.current_state is Failed,
        model.started(began).stopped(asked).lifecycle.history.len()
            == model.lifecycle.history.len() + 2,
{
}

} // verus!
