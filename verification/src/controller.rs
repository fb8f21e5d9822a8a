//! The controller loop, seen from one strategy, and the supervisor above it.
//!
//! For each strategy the loop keeps one small state. A trigger asks for a pass; a pass
//! starts when the work is taken from the queue; while a pass runs, further triggers
//! fold into a single pending rerun. The loop never runs two passes of one strategy at
//! once and never forgets a trigger.
//!
//! The state machine of this module is the rule of the loop, written down and proved.
//! It is not the loop: the operator process leaves queueing and scheduling to its
//! controller runtime and does not drive [`WorkState::step`] or [`requeue_after`]. What
//! is proved here holds of this rule, and nothing in this crate holds the runtime to
//! it. Of this module the process drives [`supervise`] alone.

use crate::reconciler::{
    error_policy, result_view, Directive, PassResult, ERROR_RETRY_SECS, RESYNC_SECS,
};
use vstd::prelude::*;

verus! {

/// Seconds that the supervisor waits before it starts the loop again.
pub const RESTART_COOLDOWN_SECS: u64 = 5;

/// Where one strategy stands in the loop.
#[derive(Debug, Clone, Copy, PartialEq, Eq, Structural)]
pub enum WorkState {
    /// Nothing to do.
    Idle,
    /// A pass is asked for and none runs.
    Queued,
    /// A pass runs and nothing has happened since it started.
    Reconciling,
    /// A pass runs, and one more is asked for.
    ReconcilingAgain,
}

/// What can happen to one strategy in the loop.
#[derive(Debug, Clone, Copy, PartialEq, Eq, Structural)]
pub enum WorkEvent {
    /// A reason to reconcile: the first listing, a change of the strategy, or the end
    /// of the delay that the last pass asked for.
    Trigger,
    /// A worker is free to take the strategy from the queue.
    Dequeue,
    /// The running pass is over.
    Complete,
}

/// A state and whether a pass starts on the way into it.
#[derive(Debug, Clone, Copy, PartialEq, Eq, Structural)]
pub struct Transition {
    pub next: WorkState,
    pub starts_pass: bool,
}

/// A pass of the strategy runs.
pub open spec fn in_flight(state: WorkState) -> bool {
    state is Reconciling || state is ReconcilingAgain
}

/// A pass of the strategy is asked for and has not started.
pub open spec fn pending(state: WorkState) -> bool {
    state is Queued || state is ReconcilingAgain
}

/// The rule of the loop for one strategy. An event that does not fit the state changes
/// nothing: a worker finds nothing to take, or a completion is reported of a pass that
/// does not run.
pub open spec fn transition(state: WorkState, event: WorkEvent) -> Transition {
    match (state, event) {
        (WorkState::Idle, WorkEvent::Trigger) => Transition {
            next: WorkState::Queued,
            starts_pass: false,
        },
        (WorkState::Reconciling, WorkEvent::Trigger) => Transition {
            next: WorkState::ReconcilingAgain,
            starts_pass: false,
        },
        (WorkState::Queued, WorkEvent::Dequeue) => Transition {
            next: WorkState::Reconciling,
            starts_pass: true,
        },
        (WorkState::Reconciling, WorkEvent::Complete) => Transition {
            next: WorkState::Idle,
            starts_pass: false,
        },
        (WorkState::ReconcilingAgain, WorkEvent::Complete) => Transition {
            next: WorkState::Queued,
            starts_pass: false,
        },
        _ => Transition { next: state, starts_pass: false },
    }
}

impl WorkState {
    /// Applies one event to the state of one strategy.
    pub fn step(self, event: WorkEvent) -> (res: Transition)
        ensures
            res == transition(self, event),
    {
        match event {
            WorkEvent::Trigger => match self {
                WorkState::Idle => Transition { next: WorkState::Queued, starts_pass: false },
                WorkState::Reconciling => Transition {
                    next: WorkState::ReconcilingAgain,
                    starts_pass: false,
                },
                _ => Transition { next: self, starts_pass: false },
            },
            WorkEvent::Dequeue => match self {
                WorkState::Queued => Transition {
                    next: WorkState::Reconciling,
                    starts_pass: true,
                },
                _ => Transition { next: self, starts_pass: false },
            },
            WorkEvent::Complete => match self {
                WorkState::Reconciling => Transition {
                    next: WorkState::Idle,
                    starts_pass: false,
                },
                WorkState::ReconcilingAgain => Transition {
                    next: WorkState::Queued,
                    starts_pass: false,
                },
                _ => Transition { next: self, starts_pass: false },
            },
        }
    }
}

/// The delay after which a finished pass is followed by a trigger: the delay that the
/// pass asked for, or the delay of the error policy where it failed.
pub open spec fn requeue_secs(result: Result<Directive, Seq<char>>) -> u64 {
    match result {
        Ok(directive) => directive.after_secs,
        Err(_) => ERROR_RETRY_SECS,
    }
}

/// When to trigger a strategy again after its pass ended with `result`.
pub fn requeue_after(result: &PassResult) -> (directive: Directive)
    ensures
        directive.after_secs == requeue_secs(result_view(*result)),
{
    match result {
        Ok(directive) => *directive,
        Err(error) => error_policy(error),
    }
}

/// The state after a sequence of events, and the number of passes that started on the
/// way.
pub open spec fn after_events(state: WorkState, events: Seq<WorkEvent>) -> (WorkState, nat)
    decreases events.len(),
{
    if events.len() == 0 {
        (state, 0)
    } else {
        let t = transition(state, events[0]);
        let rest = after_events(t.next, events.drop_first());
        (
            rest.0,
            if t.starts_pass {
                rest.1 + 1
            } else {
                rest.1
            },
        )
    }
}

/// A pass starts only where none runs, and only where one was asked for; once it runs,
/// nothing but its completion ends it. So two passes of one strategy never overlap.
pub proof fn lemma_single_flight(state: WorkState, event: WorkEvent)
    ensures
        transition(state, event).starts_pass ==> !in_flight(state) && pending(state) && in_flight(
            transition(state, event).next,
        ),
        in_flight(state) && event != WorkEvent::Complete ==> in_flight(
            transition(state, event).next,
        ),
        in_flight(state) ==> !transition(state, event).starts_pass,
{
}

/// A trigger is never lost: after it a pass is pending, and it stays pending until a
/// pass starts.
pub proof fn lemma_trigger_kept(state: WorkState, event: WorkEvent)
    ensures
        pending(transition(state, WorkEvent::Trigger).next),
        pending(state) && !transition(state, event).starts_pass ==> pending(
            transition(state, event).next,
        ),
{
}

/// Any number of triggers, one or more, that arrive while a pass runs leave exactly one
/// rerun pending and start nothing.
pub proof fn lemma_triggers_coalesce(state: WorkState, triggers: Seq<WorkEvent>)
    requires
        in_flight(state),
        triggers.len() >= 1,
        forall|i: int| 0 <= i < triggers.len() ==> triggers[i] == WorkEvent::Trigger,
    ensures
        after_events(state, triggers) == (WorkState::ReconcilingAgain, 0nat),
    decreases triggers.len(),
{
    let rest = triggers.drop_first();
    assert(triggers[0] == WorkEvent::Trigger);
    if rest.len() == 0 {
        assert(after_events(WorkState::ReconcilingAgain, rest) == (
            WorkState::ReconcilingAgain,
            0nat,
        ));
    } else {
        assert forall|i: int| 0 <= i < rest.len() implies rest[i] == WorkEvent::Trigger by {
            assert(rest[i] == triggers[i + 1]);
        }
        lemma_triggers_coalesce(WorkState::ReconcilingAgain, rest);
    }
}

/// Running two sequences of events one after the other adds up the passes.
pub proof fn lemma_after_events_concat(
    state: WorkState,
    first: Seq<WorkEvent>,
    second: Seq<WorkEvent>,
)
    ensures
        after_events(state, first + second) == (
            after_events(after_events(state, first).0, second).0,
            after_events(state, first).1 + after_events(after_events(state, first).0, second).1,
        ),
    decreases first.len(),
{
    if first.len() == 0 {
        assert(first + second =~= second);
    } else {
        let t = transition(state, first[0]);
        assert((first + second)[0] == first[0]);
        assert((first + second).drop_first() =~= first.drop_first() + second);
        lemma_after_events_concat(t.next, first.drop_first(), second);
    }
}

/// Triggers that arrive while a pass runs, however many, are followed by exactly one
/// more pass: once the running pass is over and the queue has been served, the second
/// pass has run and the strategy is idle, and serving the queue again starts nothing.
pub proof fn lemma_one_rerun(triggers: Seq<WorkEvent>)
    requires
        triggers.len() >= 1,
        forall|i: int| 0 <= i < triggers.len() ==> triggers[i] == WorkEvent::Trigger,
    ensures
        after_events(
            WorkState::Reconciling,
            triggers + seq![
                WorkEvent::Complete,
                WorkEvent::Dequeue,
                WorkEvent::Complete,
                WorkEvent::Dequeue,
            ],
        ) == (WorkState::Idle, 1nat),
{
    let tail = seq![
        WorkEvent::Complete,
        WorkEvent::Dequeue,
        WorkEvent::Complete,
        WorkEvent::Dequeue,
    ];
    lemma_triggers_coalesce(WorkState::Reconciling, triggers);
    lemma_after_events_concat(WorkState::Reconciling, triggers, tail);
    reveal_with_fuel(after_events, 5);
    let t1 = tail.drop_first();
    let t2 = t1.drop_first();
    let t3 = t2.drop_first();
    assert(t1[0] == WorkEvent::Dequeue);
    assert(t2[0] == WorkEvent::Complete);
    assert(t3[0] == WorkEvent::Dequeue);
    assert(t3.drop_first().len() == 0);
    assert(after_events(WorkState::ReconcilingAgain, tail) == (WorkState::Idle, 1nat));
}

/// A strategy that fails is retried later than one that is healthy, and is always
/// retried: every result of a pass is followed by a trigger after a finite delay.
pub proof fn lemma_retry_slower_than_resync(result: Result<Directive, Seq<char>>)
    ensures
        result is Err ==> requeue_secs(result) == ERROR_RETRY_SECS,
        result is Err ==> requeue_secs(result) >= 60,
        ERROR_RETRY_SECS > RESYNC_SECS,
        result == Ok::<Directive, Seq<char>>(Directive { after_secs: RESYNC_SECS })
            ==> requeue_secs(result) >= 30,
{
}

/// What can happen to the loop as a whole.
#[derive(Debug, Clone, Copy, PartialEq, Eq, Structural)]
pub enum SupervisorEvent {
    /// The stream of events under the loop has ended.
    LoopEnded,
    /// The wait after the end of the loop is over.
    CooldownElapsed,
}

/// What the supervisor has done next.
#[derive(Debug, Clone, Copy, PartialEq, Eq, Structural)]
pub enum SupervisorAction {
    /// Wait for this many seconds.
    Wait { secs: u64 },
    /// Start the loop afresh: a new subscription and an empty queue.
    StartLoop,
}

/// The rule of the supervisor.
pub open spec fn supervisor_rule(event: SupervisorEvent) -> SupervisorAction {
    match event {
        SupervisorEvent::LoopEnded => SupervisorAction::Wait { secs: RESTART_COOLDOWN_SECS },
        SupervisorEvent::CooldownElapsed => SupervisorAction::StartLoop,
    }
}

/// Decides what follows `event`. The end of the loop is never the end of the process:
/// the supervisor waits for the cooldown and starts the loop again.
pub fn supervise(event: SupervisorEvent) -> (action: SupervisorAction)
    ensures
        action == supervisor_rule(event),
{
    match event {
        SupervisorEvent::LoopEnded => SupervisorAction::Wait { secs: RESTART_COOLDOWN_SECS },
        SupervisorEvent::CooldownElapsed => SupervisorAction::StartLoop,
    }
}

} // verus!
