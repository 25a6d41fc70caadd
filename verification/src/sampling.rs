//! The sampling loop as a state machine. The loop itself sleeps and emits
//! outside this library; here is what it decides: given where it stands and
//! what just happened, where it stands next and what is to be done.

use vstd::prelude::*;

verus! {

/// The interval between two cycles where none is chosen, in seconds.
pub const DEFAULT_INTERVAL_SECS: u64 = 60;

/// Where the loop stands.
#[derive(Clone, Copy, Debug, PartialEq, Eq, Structural)]
pub enum LoopState {
    /// Between two cycles: the interval has not elapsed yet.
    Idle,
    /// Within a cycle: a snapshot is being built, rendered and emitted.
    Sampling,
}

/// What the driver of the loop reports back.
#[derive(Clone, Copy, Debug, PartialEq, Eq, Structural)]
pub enum LoopEvent {
    /// The interval has elapsed.
    IntervalElapsed,
    /// The report of the running cycle has been emitted.
    ReportEmitted,
}

/// What the driver of the loop is to do next.
#[derive(Clone, Copy, Debug, PartialEq, Eq, Structural)]
pub enum LoopAction {
    /// Run one cycle: build a snapshot, render it, emit the report.
    Sample,
    /// Sleep for this many seconds, the whole interval.
    Wait(u64),
    /// Nothing new: the event came out of turn and changes nothing.
    Nothing,
}

/// Where the loop stands after `event`, coming from `state`.
pub open spec fn next_state(state: LoopState, event: LoopEvent) -> LoopState {
    match (state, event) {
        (LoopState::Idle, LoopEvent::IntervalElapsed) => LoopState::Sampling,
        (LoopState::Sampling, LoopEvent::ReportEmitted) => LoopState::Idle,
        _ => state,
    }
}

/// What is to be done after `event`, coming from `state`.
pub open spec fn action_for(state: LoopState, event: LoopEvent, interval_secs: u64) -> LoopAction {
    match (state, event) {
        (LoopState::Idle, LoopEvent::IntervalElapsed) => LoopAction::Sample,
        (LoopState::Sampling, LoopEvent::ReportEmitted) => LoopAction::Wait(interval_secs),
        _ => LoopAction::Nothing,
    }
}

/// Where a loop stands that began idle and has seen `events`.
pub open spec fn state_after(events: Seq<LoopEvent>) -> LoopState
    decreases events.len(),
{
    if events.len() == 0 {
        LoopState::Idle
    } else {
        next_state(state_after(events.drop_last()), events.last())
    }
}

/// How many cycles a loop has begun that began idle and has seen `events`.
pub open spec fn cycles_begun(events: Seq<LoopEvent>) -> nat
    decreases events.len(),
{
    if events.len() == 0 {
        0
    } else {
        let before = state_after(events.drop_last());
        cycles_begun(events.drop_last()) + if before == LoopState::Idle && events.last()
            == LoopEvent::IntervalElapsed {
            1nat
        } else {
            0nat
        }
    }
}

/// How many reports a loop has emitted that began idle and has seen `events`.
pub open spec fn reports_emitted(events: Seq<LoopEvent>) -> nat
    decreases events.len(),
{
    if events.len() == 0 {
        0
    } else {
        let before = state_after(events.drop_last());
        reports_emitted(events.drop_last()) + if before == LoopState::Sampling && events.last()
            == LoopEvent::ReportEmitted {
            1nat
        } else {
            0nat
        }
    }
}

/// How often the interval elapsed among `events`.
pub open spec fn intervals_elapsed(events: Seq<LoopEvent>) -> nat
    decreases events.len(),
{
    if events.len() == 0 {
        0
    } else {
        intervals_elapsed(events.drop_last()) + if events.last() == LoopEvent::IntervalElapsed {
            1nat
        } else {
            0nat
        }
    }
}

/// The events of `n` undisturbed cycles: the interval elapses, the report is
/// emitted, `n` times over.
pub open spec fn undisturbed(n: nat) -> Seq<LoopEvent>
    decreases n,
{
    if n == 0 {
        Seq::<LoopEvent>::empty()
    } else {
        undisturbed((n - 1) as nat).push(LoopEvent::IntervalElapsed).push(LoopEvent::ReportEmitted)
    }
}

/// The sampling loop: its interval and where it stands.
pub struct SamplingLoop {
    interval_secs: u64,
    state: LoopState,
}

impl SamplingLoop {
    /// The interval between two cycles, in seconds.
    pub closed spec fn spec_interval_secs(&self) -> u64 {
        self.interval_secs
    }

    /// Where the loop stands.
    pub closed spec fn spec_state(&self) -> LoopState {
        self.state
    }

    /// An idle loop with the given interval.
    pub fn new(interval_secs: u64) -> (sampling: Self)
        ensures
            sampling.spec_interval_secs() == interval_secs,
            sampling.spec_state() == LoopState::Idle,
    {
        SamplingLoop { interval_secs, state: LoopState::Idle }
    }

    /// An idle loop with the default interval.
    pub fn with_default_interval() -> (sampling: Self)
        ensures
            sampling.spec_interval_secs() == DEFAULT_INTERVAL_SECS,
            sampling.spec_state() == LoopState::Idle,
    {
        Self::new(DEFAULT_INTERVAL_SECS)
    }

    /// The interval between two cycles, in seconds.
    #[verifier::when_used_as_spec(spec_interval_secs)]
    pub fn interval_secs(&self) -> (secs: u64)
        ensures
            secs == self.spec_interval_secs(),
    {
        self.interval_secs
    }

    /// Where the loop stands.
    #[verifier::when_used_as_spec(spec_state)]
    pub fn state(&self) -> (state: LoopState)
        ensures
            state == self.spec_state(),
    {
        self.state
    }

    /// Takes one event in: moves the loop on and says what is to be done. The
    /// interval never changes.
    pub fn step(&mut self, event: LoopEvent) -> (action: LoopAction)
        ensures
            final(self).spec_state() == next_state(old(self).spec_state(), event),
            final(self).spec_interval_secs() == old(self).spec_interval_secs(),
            action == action_for(old(self).spec_state(), event, old(self).spec_interval_secs()),
    {
        match (self.state, event) {
            (LoopState::Idle, LoopEvent::IntervalElapsed) => {
                self.state = LoopState::Sampling;
                LoopAction::Sample
            },
            (LoopState::Sampling, LoopEvent::ReportEmitted) => {
                self.state = LoopState::Idle;
                LoopAction::Wait(self.interval_secs)
            },
            _ => LoopAction::Nothing,
        }
    }
}

/// A cycle begins only from the idle state and ends only from the sampling
/// state, so cycles never overlap: whatever the events, the cycles begun are
/// the reports emitted, and one more while a cycle is running.
pub proof fn lemma_one_cycle_at_a_time(events: Seq<LoopEvent>)
    ensures
        cycles_begun(events) == reports_emitted(events) + if state_after(events)
            == LoopState::Sampling {
            1nat
        } else {
            0nat
        },
    decreases events.len(),
{
    if events.len() > 0 {
        lemma_one_cycle_at_a_time(events.drop_last());
    }
}

/// No cycle begins without the interval having elapsed: whatever the events,
/// the cycles begun are at most the intervals elapsed.
pub proof fn lemma_cycle_needs_interval(events: Seq<LoopEvent>)
    ensures
        cycles_begun(events) <= intervals_elapsed(events),
    decreases events.len(),
{
    if events.len() > 0 {
        lemma_cycle_needs_interval(events.drop_last());
    }
}

/// After `n` undisturbed cycles the interval has elapsed `n` times, exactly `n`
/// reports have been emitted, and the loop is idle again.
pub proof fn lemma_one_report_per_interval(n: nat)
    ensures
        intervals_elapsed(undisturbed(n)) == n,
        cycles_begun(undisturbed(n)) == n,
        reports_emitted(undisturbed(n)) == n,
        state_after(undisturbed(n)) == LoopState::Idle,
    decreases n,
{
    if n > 0 {
        let before = undisturbed((n - 1) as nat);
        let middle = before.push(LoopEvent::IntervalElapsed);
        let all = middle.push(LoopEvent::ReportEmitted);
        lemma_one_report_per_interval((n - 1) as nat);
        assert(middle.drop_last() =~= before);
        assert(all.drop_last() =~= middle);
        assert(state_after(middle) == LoopState::Sampling);
        assert(intervals_elapsed(middle) == n);
        assert(cycles_begun(middle) == n);
        assert(reports_emitted(middle) == n - 1);
        assert(all == undisturbed(n));
    }
}

} // verus!
