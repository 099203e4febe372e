use runner::reaper::{
    escalation, needs_reaper, reap, Caught, EscalationStep, Reaped, Signal, WaitStatus, GRACE_SECS,
    REAPER_FAILURE, SIGNAL_EXIT_BASE,
};

const WORKER: i32 = 7;

#[test]
fn only_process_one_needs_a_reaper() {
    assert!(needs_reaper(1));
    assert!(!needs_reaper(0));
    assert!(!needs_reaper(2));
    assert!(!needs_reaper(u32::MAX));
}

#[test]
fn an_interrupt_is_passed_on_before_the_worker_is_stopped() {
    assert_eq!(
        escalation(Caught::Interrupt),
        vec![
            EscalationStep::Send(Signal::Interrupt),
            EscalationStep::Pause { secs: 2 },
            EscalationStep::Send(Signal::Terminate),
            EscalationStep::Pause { secs: 2 },
            EscalationStep::Send(Signal::Kill),
        ]
    );
}

#[test]
fn a_termination_request_ends_in_a_kill() {
    assert_eq!(
        escalation(Caught::Terminate),
        vec![
            EscalationStep::Send(Signal::Terminate),
            EscalationStep::Pause { secs: 2 },
            EscalationStep::Send(Signal::Kill),
        ]
    );
}

#[test]
fn a_child_changing_state_stops_nothing() {
    assert_eq!(escalation(Caught::Child), vec![]);
}

#[test]
fn the_grace_period_is_two_seconds() {
    assert_eq!(GRACE_SECS, 2);
}

#[test]
fn the_reaper_ends_with_the_status_of_the_worker() {
    assert_eq!(
        reap(Some(WaitStatus::Exited { pid: WORKER, status: 0 }), WORKER),
        Reaped::Exit { code: 0 }
    );
    assert_eq!(
        reap(Some(WaitStatus::Exited { pid: WORKER, status: 3 }), WORKER),
        Reaped::Exit { code: 3 }
    );
}

#[test]
fn a_signalled_worker_gives_the_signal_number_above_128() {
    assert_eq!(SIGNAL_EXIT_BASE, 128);
    assert_eq!(
        reap(Some(WaitStatus::Signaled { pid: WORKER, signal: 9 }), WORKER),
        Reaped::Exit { code: 137 }
    );
    assert_eq!(
        reap(Some(WaitStatus::Signaled { pid: WORKER, signal: 15 }), WORKER),
        Reaped::Exit { code: 143 }
    );
    assert_eq!(
        reap(Some(WaitStatus::Signaled { pid: WORKER, signal: i32::MAX - 128 }), WORKER),
        Reaped::Exit { code: i32::MAX }
    );
}

#[test]
fn other_children_are_reaped_and_the_reaper_goes_on() {
    assert_eq!(
        reap(Some(WaitStatus::Exited { pid: 99, status: 1 }), WORKER),
        Reaped::Zombie { pid: 99 }
    );
    assert_eq!(
        reap(Some(WaitStatus::Signaled { pid: 100, signal: 11 }), WORKER),
        Reaped::Zombie { pid: 100 }
    );
}

#[test]
fn a_child_that_has_not_ended_changes_nothing() {
    assert_eq!(reap(Some(WaitStatus::Other), WORKER), Reaped::Nothing);
}

#[test]
fn a_failed_wait_ends_the_reaper_with_failure() {
    assert_eq!(REAPER_FAILURE, 1);
    assert_eq!(reap(None, WORKER), Reaped::Exit { code: 1 });
}
