//! The connection's lifecycle: its current state and how it got there.

use crate::clock::Clock;
use crate::rtsp_to_srt::connection_state::ConnectionState;
use crate::time_span::TimeSpan;
use vstd::prelude::*;

verus! {

/// One change of state, as the history keeps it.
#[derive(Debug, Clone)]
pub struct StateTransition {
    pub from: ConnectionState,
    pub to: ConnectionState,
    /// When the change was recorded, counted from the making of the
    /// lifecycle.
    pub timestamp: TimeSpan,
    pub reason: Option<String>,
}

/// What a recorded change of state holds.
pub struct TransitionRecord {
    pub from: ConnectionState,
    pub to: ConnectionState,
    pub timestamp: nat,
    pub reason: Option<Seq<char>>,
}

/// The text of an optional reason.
pub open spec fn reason_text(reason: Option<String>) -> Option<Seq<char>> {
    match reason {
        Some(text) => Some(text@),
        None => None,
    }
}

/// The nanoseconds of an optional span.
pub open spec fn span_nanos(span: Option<TimeSpan>) -> Option<nat> {
    match span {
        Some(span) => Some(span@),
        None => None,
    }
}

impl View for StateTransition {
    type V = TransitionRecord;

    open spec fn view(&self) -> TransitionRecord {
        TransitionRecord {
            from: self.from,
            to: self.to,
            timestamp: self.timestamp@,
            reason: reason_text(self.reason),
        }
    }
}

/// When the history first entered `Streaming`, if it ever did.
pub open spec fn first_streaming(history: Seq<TransitionRecord>) -> Option<nat>
    decreases history.len(),
{
    if history.len() == 0 {
        None
    } else {
        match first_streaming(history.drop_last()) {
            Some(at) => Some(at),
            None => if history.last().to is Streaming {
                Some(history.last().timestamp)
            } else {
                None
            },
        }
    }
}

/// What a lifecycle is: the current state, the changes that led to it and
/// the time at which streaming first began.
pub struct LifecycleModel {
    pub current_state: ConnectionState,
    pub history: Seq<TransitionRecord>,
    pub started_at: Option<nat>,
}

impl LifecycleModel {
    /// The lifecycle before anything has happened.
    pub open spec fn initial() -> LifecycleModel {
        LifecycleModel {
            current_state: ConnectionState::Idle,
            history: Seq::empty(),
            started_at: None,
        }
    }

    /// The state that the history leads to.
    pub open spec fn state_reached(self) -> ConnectionState {
        if self.history.len() == 0 {
            ConnectionState::Idle
        } else {
            self.history.last().to
        }
    }

    /// The invariant of a lifecycle: the current state is where the last
    /// change led; each change starts where the one before it led, the first
    /// from `Idle`; the timestamps never go back; and the start of streaming
    /// is the time of the first change into `Streaming`.
    #[verifier::opaque]
    pub open spec fn well_formed(self) -> bool {
        &&& self.current_state == self.state_reached()
        &&& forall|i: int|
            0 <= i < self.history.len() ==> (#[trigger] self.history[i]).from == (if i == 0 {
                ConnectionState::Idle
            } else {
                self.history[i - 1].to
            })
        &&& forall|i: int, j: int|
            0 <= i <= j < self.history.len() ==> (#[trigger] self.history[i]).timestamp <= (
            #[trigger] self.history[j]).timestamp
        &&& self.started_at == first_streaming(self.history)
    }

    /// The timestamp that a change recorded at clock reading `now` gets:
    /// `now`, but never earlier than the change before it.
    pub open spec fn stamp(self, now: nat) -> nat {
        if self.history.len() > 0 && self.history.last().timestamp > now {
            self.history.last().timestamp
        } else {
            now
        }
    }

    /// The lifecycle after a change to `to`, for `reason`, recorded at clock
    /// reading `now`.
    pub open spec fn record(
        self,
        to: ConnectionState,
        reason: Option<Seq<char>>,
        now: nat,
    ) -> LifecycleModel {
        LifecycleModel {
            current_state: to,
            history: self.history.push(
                TransitionRecord {
                    from: self.current_state,
                    to,
                    timestamp: self.stamp(now),
                    reason,
                },
            ),
            started_at: if to is Streaming && self.started_at is None {
                Some(self.stamp(now))
            } else {
                self.started_at
            },
        }
    }

    /// `next` is this lifecycle after a change to `to`, for `reason`,
    /// recorded at some reading of the clock.
    pub open spec fn steps_to(
        self,
        next: LifecycleModel,
        to: ConnectionState,
        reason: Option<Seq<char>>,
    ) -> bool {
        exists|now: nat| next == #[trigger] self.record(to, reason, now)
    }

    /// The time for which the connection has been streaming, at clock
    /// reading `now`.
    pub open spec fn uptime(self, now: nat) -> Option<nat> {
        match self.started_at {
            Some(start) => Some(
                if now >= start {
                    (now - start) as nat
                } else {
                    0
                },
            ),
            None => None,
        }
    }

    /// Whether another retry is due: only while reconnecting, and then
    /// while the attempts are below `max_failures`, where there is one.
    pub open spec fn should_continue_retrying(self, max_failures: Option<u32>) -> bool {
        match self.current_state {
            ConnectionState::Reconnecting { attempt } => match max_failures {
                Some(max) => attempt < max,
                None => true,
            },
            _ => false,
        }
    }
}

/// Domain entity representing the connection lifecycle.
#[derive(Debug)]
pub struct ConnectionLifecycle {
    current_state: ConnectionState,
    state_history: Vec<StateTransition>,
    started_at: Option<TimeSpan>,
    clock: Clock,
}

impl View for ConnectionLifecycle {
    type V = LifecycleModel;

    closed spec fn view(&self) -> LifecycleModel {
        LifecycleModel {
            current_state: self.current_state,
            history: self.state_history@.map_values(|t: StateTransition| t@),
            started_at: span_nanos(self.started_at),
        }
    }
}

impl ConnectionLifecycle {
    /// A lifecycle in `Idle`, with no history.
    pub fn new() -> (lifecycle: ConnectionLifecycle)
        ensures
            lifecycle@ == LifecycleModel::initial(),
            lifecycle@.well_formed(),
    {
        let lifecycle = ConnectionLifecycle {
            current_state: ConnectionState::Idle,
            state_history: Vec::new(),
            started_at: None,
            clock: Clock::start(),
        };
        assert(lifecycle@.history =~= Seq::empty());
        proof {
            lemma_initial_is_well_formed();
        }
        lifecycle
    }

    /// The current state.
    pub fn current_state(&self) -> (state: &ConnectionState)
        ensures
            *state == self@.current_state,
    {
        &self.current_state
    }

    /// Records the change to `new_state`, for `reason`, at clock reading
    /// `now`. A reading that lies before the last change is held at that
    /// change, so that the history stays in the order of time. The first
    /// change into `Streaming` starts the uptime.
    pub fn record_transition(
        &mut self,
        new_state: ConnectionState,
        reason: Option<String>,
        now: TimeSpan,
    )
        ensures
            final(self)@ == old(self)@.record(new_state, reason_text(reason), now@),
            old(self)@.well_formed() ==> final(self)@.well_formed(),
    {
        let ghost text: Option<Seq<char>> = reason_text(reason);
        let count: usize = self.state_history.len();
        let timestamp: TimeSpan = if count > 0 {
            now.longer_of(self.state_history[count - 1].timestamp)
        } else {
            now
        };
        let transition = StateTransition {
            from: self.current_state,
            to: new_state,
            timestamp,
            reason,
        };
        self.state_history.push(transition);
        self.current_state = new_state;
        if new_state.is_streaming() && self.started_at.is_none() {
            self.started_at = Some(timestamp);
        }
        proof {
            assert(self@.history =~= old(self)@.history.push(transition@));
            if old(self)@.well_formed() {
                lemma_record_keeps_well_formed(old(self)@, new_state, text, now@);
            }
        }
    }

    /// The time for which the connection has been streaming, at clock
    /// reading `now`; `None` before streaming first began.
    pub fn uptime_at(&self, now: TimeSpan) -> (uptime: Option<TimeSpan>)
        ensures
            span_nanos(uptime) == self@.uptime(now@),
    {
        match self.started_at {
            Some(start) => Some(now.saturating_sub(start)),
            None => None,
        }
    }

    /// The time for which the connection has been streaming, by the
    /// lifecycle's own clock; `None` before streaming first began.
    pub fn uptime(&self) -> (uptime: Option<TimeSpan>)
        ensures
            uptime is Some <==> self@.started_at is Some,
            exists|now: nat| span_nanos(uptime) == #[trigger] self@.uptime(now),
    {
        let now: TimeSpan = self.clock.reading();
        let uptime: Option<TimeSpan> = self.uptime_at(now);
        assert(span_nanos(uptime) == self@.uptime(now@));
        uptime
    }

    /// The number of changes of state so far.
    pub fn transition_count(&self) -> (count: usize)
        ensures
            count == self@.history.len(),
    {
        self.state_history.len()
    }

    /// The latest change of state; `None` while there is none.
    pub fn last_transition(&self) -> (last: Option<&StateTransition>)
        ensures
            last is None <==> self@.history.len() == 0,
            last matches Some(transition) ==> transition@ == self@.history.last(),
    {
        let count: usize = self.state_history.len();
        if count == 0 {
            None
        } else {
            Some(&self.state_history[count - 1])
        }
    }

    /// Changes to `Connecting`, with no reason, at the present reading of
    /// the lifecycle's clock.
    pub fn transition_to_connecting(&mut self)
        ensures
            old(self)@.steps_to(final(self)@, ConnectionState::Connecting, None),
            old(self)@.well_formed() ==> final(self)@.well_formed(),
    {
        let now: TimeSpan = self.clock.reading();
        self.record_transition(ConnectionState::Connecting, None, now);
        assert(self@ == old(self)@.record(ConnectionState::Connecting, None, now@));
    }

    /// Changes to `Streaming`, with no reason, at the present reading of
    /// the lifecycle's clock. The first such change starts the uptime.
    pub fn transition_to_streaming(&mut self)
        ensures
            old(self)@.steps_to(final(self)@, ConnectionState::Streaming, None),
            old(self)@.well_formed() ==> final(self)@.well_formed(),
    {
        let now: TimeSpan = self.clock.reading();
        self.record_transition(ConnectionState::Streaming, None, now);
        assert(self@ == old(self)@.record(ConnectionState::Streaming, None, now@));
    }

    /// Changes to `Reconnecting` with the given count of attempts, for
    /// `reason`, at the present reading of the lifecycle's clock.
    pub fn transition_to_reconnecting(&mut self, attempt: u32, reason: Option<String>)
        ensures
            old(self)@.steps_to(
                final(self)@,
                ConnectionState::Reconnecting { attempt },
                reason_text(reason),
            ),
            old(self)@.well_formed() ==> final(self)@.well_formed(),
    {
        let now: TimeSpan = self.clock.reading();
        let ghost text = reason_text(reason);
        self.record_transition(ConnectionState::Reconnecting { attempt }, reason, now);
        assert(self@ == old(self)@.record(ConnectionState::Reconnecting { attempt }, text, now@));
    }

    /// Changes to `Failed`, for `reason`, at the present reading of the
    /// lifecycle's clock.
    pub fn transition_to_failed(&mut self, reason: Option<String>)
        ensures
            old(self)@.steps_to(final(self)@, ConnectionState::Failed, reason_text(reason)),
            old(self)@.well_formed() ==> final(self)@.well_formed(),
    {
        let now: TimeSpan = self.clock.reading();
        let ghost text = reason_text(reason);
        self.record_transition(ConnectionState::Failed, reason, now);
        assert(self@ == old(self)@.record(ConnectionState::Failed, text, now@));
    }

    /// Whether another retry is due: true while reconnecting with fewer
    /// attempts than `max_failures`, or with no maximum at all; false in
    /// every other state.
    pub fn should_continue_retrying(&self, max_failures: Option<u32>) -> (retry: bool)
        ensures
            retry == self@.should_continue_retrying(max_failures),
    {
        match self.current_state {
            ConnectionState::Reconnecting { attempt } => match max_failures {
                Some(max) => attempt < max,
                None => true,
            },
            _ => false,
        }
    }
}

impl Default for ConnectionLifecycle {
    /// A lifecycle in `Idle`, with no history.
    fn default() -> (lifecycle: ConnectionLifecycle)
        ensures
            lifecycle@ == LifecycleModel::initial(),
            lifecycle@.well_formed(),
    {
        ConnectionLifecycle::new()
    }
}

/// `first_streaming` is the timestamp of the earliest change that leads to
/// `Streaming`, and `None` exactly where no change does.
pub proof fn lemma_first_streaming_is_earliest(history: Seq<TransitionRecord>)
    ensures
        first_streaming(history) is None <==> forall|i: int|
            0 <= i < history.len() ==> !((#[trigger] history[i]).to is Streaming),
        first_streaming(history) matches Some(at) ==> exists|i: int|
            {
                &&& 0 <= i < history.len()
                &&& (#[trigger] history[i]).to is Streaming
                &&& history[i].timestamp == at
                &&& forall|j: int| 0 <= j < i ==> !((#[trigger] history[j]).to is Streaming)
            },
    decreases history.len(),
{
    if history.len() > 0 {
        let earlier = history.drop_last();
        lemma_first_streaming_is_earliest(earlier);
        assert forall|i: int| 0 <= i < earlier.len() implies earlier[i] == history[i] by {}
        match first_streaming(earlier) {
            Some(at) => {
                let i = choose|i: int|
                    {
                        &&& 0 <= i < earlier.len()
                        &&& (#[trigger] earlier[i]).to is Streaming
                        &&& earlier[i].timestamp == at
                        &&& forall|j: int|
                            0 <= j < i ==> !((#[trigger] earlier[j]).to is Streaming)
                    };
                assert(history[i].to is Streaming);
                assert(history[i].timestamp == at);
                assert forall|j: int| 0 <= j < i implies !((#[trigger] history[j]).to
                    is Streaming) by {
                    assert(earlier[j] == history[j]);
                }
            },
            None => {
                assert forall|j: int| 0 <= j < history.len() - 1 implies !((
                #[trigger] history[j]).to is Streaming) by {
                    assert(earlier[j] == history[j]);
                }
                if history.last().to is Streaming {
                    let i = history.len() - 1;
                    assert(history[i].to is Streaming);
                    assert(history[i].timestamp == history.last().timestamp);
                }
            },
        }
    }
}

/// What a well-formed lifecycle offers: the current state is where the
/// last change led, each change starts where the one before it led, no
/// timestamp lies before an earlier one, and the uptime counts from the
/// first change into `Streaming`.
pub proof fn lemma_well_formed_history(model: LifecycleModel)
    requires
        model.well_formed(),
    ensures
        model.current_state == model.state_reached(),
        model.history.len() > 0 ==> model.history[0].from == ConnectionState::Idle,
        forall|i: int|
            0 < i < model.history.len() ==> (#[trigger] model.history[i]).from
                == model.history[i - 1].to,
        forall|i: int, j: int|
            0 <= i <= j < model.history.len() ==> (#[trigger] model.history[i]).timestamp <= (
            #[trigger] model.history[j]).timestamp,
        model.started_at == first_streaming(model.history),
{
    reveal(LifecycleModel::well_formed);
}

/// A lifecycle to which nothing has happened is well formed.
pub proof fn lemma_initial_is_well_formed()
    ensures
        LifecycleModel::initial().well_formed(),
        LifecycleModel::initial().current_state == ConnectionState::Idle,
        LifecycleModel::initial().history.len() == 0,
        LifecycleModel::initial().uptime(0) is None,
{
    reveal(LifecycleModel::well_formed);
}

/// Recording a change keeps a lifecycle well formed: the history grows by
/// the one change and loses nothing, the new state is the current one, and
/// the start of streaming, once set, stays as it is.
pub proof fn lemma_record_keeps_well_formed(
    model: LifecycleModel,
    to: ConnectionState,
    reason: Option<Seq<char>>,
    now: nat,
)
    requires
        model.well_formed(),
    ensures
        model.record(to, reason, now).well_formed(),
        model.record(to, reason, now).current_state == to,
        model.record(to, reason, now).history.len() == model.history.len() + 1,
        model.record(to, reason, now).history.drop_last() == model.history,
        model.record(to, reason, now).history.last().from == model.current_state,
        model.record(to, reason, now).history.last().to == to,
        model.record(to, reason, now).history.last().reason == reason,
        model.started_at is Some ==> model.record(to, reason, now).started_at
            == model.started_at,
        model.record(to, reason, now).started_at is Some <==> (model.started_at is Some
            || to is Streaming),
{
    reveal(LifecycleModel::well_formed);
    let next = model.record(to, reason, now);
    assert(next.history.drop_last() =~= model.history);
    assert forall|i: int, j: int| 0 <= i <= j < next.history.len() implies (
    #[trigger] next.history[i]).timestamp <= (#[trigger] next.history[j]).timestamp by {
        if j < model.history.len() {
            assert(next.history[i] == model.history[i]);
            assert(next.history[j] == model.history[j]);
        } else if i < model.history.len() {
            assert(next.history[i] == model.history[i]);
            assert(model.history[i].timestamp <= model.history.last().timestamp);
        }
    }
    assert forall|i: int| 0 <= i < next.history.len() implies (#[trigger] next.history[i]).from
        == (if i == 0 {
        ConnectionState::Idle
    } else {
        next.history[i - 1].to
    }) by {
        if i < model.history.len() {
            assert(next.history[i] == model.history[i]);
            if i > 0 {
                assert(next.history[i - 1] == model.history[i - 1]);
            }
        }
    }
}

/// A fresh lifecycle that goes to `Connecting` and then to `Streaming` has
/// two changes behind it, and its uptime is defined from then on, whatever
/// the clock read at either change: it counts from the second change.
pub proof fn lemma_connect_then_stream(first: nat, second: nat, polled: nat)
    ensures
        ({
            let connecting = LifecycleModel::initial().record(
                ConnectionState::Connecting,
                None,
                first,
            );
            let streaming = connecting.record(ConnectionState::Streaming, None, second);
            &&& connecting.history.len() == 1
            &&& connecting.uptime(polled) is None
            &&& streaming.history.len() == 2
            &&& streaming.current_state == ConnectionState::Streaming
            &&& streaming.started_at == Some(connecting.stamp(second))
            &&& streaming.uptime(polled) is Some
            &&& polled >= connecting.stamp(second) ==> streaming.uptime(polled) == Some(
                (polled - connecting.stamp(second)) as nat,
            )
        }),
{
}

/// Polled again later, the uptime is defined if it was, and is no shorter.
pub proof fn lemma_uptime_never_decreases(model: LifecycleModel, earlier: nat, later: nat)
    requires
        earlier <= later,
    ensures
        model.uptime(earlier) is Some <==> model.started_at is Some,
        model.uptime(later) is Some <==> model.started_at is Some,
        model.started_at is Some ==> model.uptime(earlier)->Some_0 <= model.uptime(
            later,
        )->Some_0,
{
}

/// The retry rule, case by case.
pub proof fn lemma_retry_rule(model: LifecycleModel, attempt: u32, max: u32)
    ensures
        model.current_state == (ConnectionState::Reconnecting { attempt }) && attempt < max
            ==> model.should_continue_retrying(Some(max)),
        model.current_state == (ConnectionState::Reconnecting { attempt }) && attempt >= max
            ==> !model.should_continue_retrying(Some(max)),
        model.current_state is Reconnecting ==> model.should_continue_retrying(None),
        !(model.current_state is Reconnecting) ==> !model.should_continue_retrying(Some(max))
            && !model.should_continue_retrying(None),
{
}

} // verus!
