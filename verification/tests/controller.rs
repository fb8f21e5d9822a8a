use trading_operator::controller::{
    requeue_after, supervise, SupervisorAction, SupervisorEvent, Transition, WorkEvent,
    WorkState, RESTART_COOLDOWN_SECS,
};
use trading_operator::reconciler::{Directive, OperatorError};

fn run(start: WorkState, events: &[WorkEvent]) -> (WorkState, usize) {
    let mut state = start;
    let mut passes = 0;
    for event in events {
        let step = state.step(*event);
        if step.starts_pass {
            passes += 1;
        }
        state = step.next;
    }
    (state, passes)
}

#[test]
fn two_updates_during_a_pass_give_one_more_pass() {
    let events = [
        WorkEvent::Trigger,
        WorkEvent::Trigger,
        WorkEvent::Complete,
        WorkEvent::Dequeue,
        WorkEvent::Complete,
        WorkEvent::Dequeue,
    ];
    assert_eq!(run(WorkState::Reconciling, &events), (WorkState::Idle, 1));
}

#[test]
fn many_updates_during_a_pass_still_give_one_more_pass() {
    let mut events = vec![WorkEvent::Trigger; 25];
    assert_eq!(run(WorkState::Reconciling, &events), (WorkState::ReconcilingAgain, 0));
    events.push(WorkEvent::Complete);
    assert_eq!(run(WorkState::Reconciling, &events), (WorkState::Queued, 0));
    events.extend([WorkEvent::Dequeue, WorkEvent::Complete, WorkEvent::Dequeue, WorkEvent::Dequeue]);
    assert_eq!(run(WorkState::Reconciling, &events), (WorkState::Idle, 1));
}

#[test]
fn life_of_one_strategy_in_the_loop() {
    let queued = WorkState::Idle.step(WorkEvent::Trigger);
    assert_eq!(queued, Transition { next: WorkState::Queued, starts_pass: false });
    let running = queued.next.step(WorkEvent::Dequeue);
    assert_eq!(running, Transition { next: WorkState::Reconciling, starts_pass: true });
    let done = running.next.step(WorkEvent::Complete);
    assert_eq!(done, Transition { next: WorkState::Idle, starts_pass: false });
}

#[test]
fn triggers_in_the_queue_fold_into_one() {
    let events = [WorkEvent::Trigger, WorkEvent::Trigger, WorkEvent::Trigger, WorkEvent::Dequeue];
    assert_eq!(run(WorkState::Idle, &events), (WorkState::Reconciling, 1));
}

#[test]
fn no_pass_starts_while_one_runs() {
    for state in [WorkState::Reconciling, WorkState::ReconcilingAgain] {
        for event in [WorkEvent::Trigger, WorkEvent::Dequeue, WorkEvent::Complete] {
            assert!(!state.step(event).starts_pass);
        }
    }
    assert_eq!(
        WorkState::ReconcilingAgain.step(WorkEvent::Dequeue),
        Transition { next: WorkState::ReconcilingAgain, starts_pass: false }
    );
}

#[test]
fn events_that_do_not_fit_change_nothing() {
    assert_eq!(WorkState::Idle.step(WorkEvent::Dequeue).next, WorkState::Idle);
    assert_eq!(WorkState::Idle.step(WorkEvent::Complete).next, WorkState::Idle);
    assert_eq!(WorkState::Queued.step(WorkEvent::Complete).next, WorkState::Queued);
    assert_eq!(WorkState::Queued.step(WorkEvent::Trigger).next, WorkState::Queued);
    assert_eq!(WorkState::Reconciling.step(WorkEvent::Dequeue).next, WorkState::Reconciling);
}

#[test]
fn rerun_pending_at_completion_goes_back_to_the_queue() {
    assert_eq!(
        WorkState::ReconcilingAgain.step(WorkEvent::Complete),
        Transition { next: WorkState::Queued, starts_pass: false }
    );
}

#[test]
fn healthy_strategy_comes_back_sooner_than_failing_one() {
    let healthy = requeue_after(&Ok(Directive { after_secs: 30 }));
    let failing = requeue_after(&Err(OperatorError("timeout".to_string())));
    assert_eq!(healthy, Directive { after_secs: 30 });
    assert_eq!(failing, Directive { after_secs: 60 });
    assert!(failing.after_secs > healthy.after_secs);
    assert_eq!(requeue_after(&Ok(Directive { after_secs: 7 })), Directive { after_secs: 7 });
}

#[test]
fn supervisor_waits_five_seconds_and_starts_again() {
    assert_eq!(supervise(SupervisorEvent::LoopEnded), SupervisorAction::Wait { secs: 5 });
    assert_eq!(supervise(SupervisorEvent::CooldownElapsed), SupervisorAction::StartLoop);
    assert_eq!(RESTART_COOLDOWN_SECS, 5);
}
