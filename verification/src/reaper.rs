//! Duties of the init process of a container: pass stop signals on to the
//! worker, reap every child that ends, and end with the worker.
//!
//! When the service is process 1 it forks; the child becomes the worker
//! that serves requests, and the parent only reaps. Without that, the
//! children that compilers leave behind would stay as zombies for ever, and
//! a stop signal sent to the container would never reach the worker.

use vstd::prelude::*;

verus! {

/// Seconds the worker is given to react to a signal before the next,
/// harsher one is sent.
pub const GRACE_SECS: u64 = 2;

/// Exit status of the reaper when it fails itself: it cannot wait for
/// children, or it can no longer receive signals.
pub const REAPER_FAILURE: i32 = 1;

/// What is added to the number of the signal that ended the worker to give
/// the reaper's exit status.
pub const SIGNAL_EXIT_BASE: i32 = 128;

/// A signal the reaper listens for.
#[derive(Clone, Copy, Debug, PartialEq, Eq, Structural)]
pub enum Caught {
    /// A child changed state.
    Child,
    Interrupt,
    Terminate,
}

/// A signal the reaper sends to the worker.
#[derive(Clone, Copy, Debug, PartialEq, Eq, Structural)]
pub enum Signal {
    Interrupt,
    Terminate,
    Kill,
}

/// One step of stopping the worker.
#[derive(Clone, Copy, Debug, PartialEq, Eq, Structural)]
pub enum EscalationStep {
    Send(Signal),
    /// Let `secs` seconds pass.
    Pause { secs: u64 },
}

/// What waiting for any child returned.
#[derive(Clone, Copy, Debug, PartialEq, Eq, Structural)]
pub enum WaitStatus {
    /// The child `pid` exited with `status`.
    Exited { pid: i32, status: i32 },
    /// The child `pid` was ended by the signal with number `signal`.
    Signaled { pid: i32, signal: i32 },
    /// A child stopped, continued or is still alive.
    Other,
}

/// What the reaper does about a child it waited for.
#[derive(Clone, Copy, Debug, PartialEq, Eq, Structural)]
pub enum Reaped {
    /// End the reaper with this exit status.
    Exit { code: i32 },
    /// A child other than the worker has ended and is gone. Go on.
    Zombie { pid: i32 },
    /// No child has ended. Go on.
    Nothing,
}

/// Whether a process with this id has to take on the duties of init.
pub open spec fn is_init(pid: u32) -> bool {
    pid == 1
}

/// How the worker is stopped after `caught`: an interrupt is passed on
/// first; then, as for a termination request, the worker is asked to
/// terminate and, a grace period later, killed. A child's change of state
/// stops nothing.
pub open spec fn escalation_plan(caught: Caught) -> Seq<EscalationStep> {
    let stop = seq![
        EscalationStep::Send(Signal::Terminate),
        EscalationStep::Pause { secs: GRACE_SECS },
        EscalationStep::Send(Signal::Kill),
    ];
    match caught {
        Caught::Interrupt => seq![
            EscalationStep::Send(Signal::Interrupt),
            EscalationStep::Pause { secs: GRACE_SECS },
        ] + stop,
        Caught::Terminate => stop,
        Caught::Child => seq![],
    }
}

/// The process that ended and the exit status that stands for how it
/// ended: its own status where it exited, the signal's number above
/// `SIGNAL_EXIT_BASE` where a signal ended it. `None` where nothing ended.
pub open spec fn ended(status: WaitStatus) -> Option<(i32, int)> {
    match status {
        WaitStatus::Exited { pid, status } => Some((pid, status as int)),
        WaitStatus::Signaled { pid, signal } => Some((pid, SIGNAL_EXIT_BASE + signal)),
        WaitStatus::Other => None,
    }
}

/// What the reaper does once waiting for a child has returned `waited`,
/// `None` standing for a wait that failed.
pub open spec fn reaped(waited: Option<WaitStatus>, worker: i32) -> Reaped {
    match waited {
        None => Reaped::Exit { code: REAPER_FAILURE },
        Some(status) => match ended(status) {
            Some((pid, code)) => if pid == worker {
                Reaped::Exit { code: code as i32 }
            } else {
                Reaped::Zombie { pid }
            },
            None => Reaped::Nothing,
        },
    }
}

/// Whether this process has to fork a worker and stay behind as reaper.
pub fn needs_reaper(pid: u32) -> (init: bool)
    ensures
        init == is_init(pid),
{
    pid == 1
}

/// The steps by which the worker is stopped after `caught`, in order.
pub fn escalation(caught: Caught) -> (steps: Vec<EscalationStep>)
    ensures
        steps@ == escalation_plan(caught),
{
    let mut steps: Vec<EscalationStep> = Vec::new();
    match caught {
        Caught::Child => {
            return steps;
        },
        Caught::Interrupt => {
            steps.push(EscalationStep::Send(Signal::Interrupt));
            steps.push(EscalationStep::Pause { secs: GRACE_SECS });
        },
        Caught::Terminate => {},
    }
    steps.push(EscalationStep::Send(Signal::Terminate));
    steps.push(EscalationStep::Pause { secs: GRACE_SECS });
    steps.push(EscalationStep::Send(Signal::Kill));
    assert(steps@ =~= escalation_plan(caught));
    steps
}

/// What to do once waiting for any child has returned. `worker` is the
/// process id of the worker.
pub fn reap(waited: Option<WaitStatus>, worker: i32) -> (r: Reaped)
    requires
        waited matches Some(WaitStatus::Signaled { signal, .. }) ==> SIGNAL_EXIT_BASE + signal
            <= i32::MAX,
    ensures
        r == reaped(waited, worker),
{
    let (pid, code) = match waited {
        None => {
            return Reaped::Exit { code: REAPER_FAILURE };
        },
        Some(WaitStatus::Exited { pid, status }) => (pid, status),
        Some(WaitStatus::Signaled { pid, signal }) => (pid, SIGNAL_EXIT_BASE + signal),
        Some(WaitStatus::Other) => {
            return Reaped::Nothing;
        },
    };
    if pid == worker {
        Reaped::Exit { code }
    } else {
        Reaped::Zombie { pid }
    }
}

/// Stopping the worker always ends by killing it, asks it to terminate
/// before that, and passes an interrupt on only where one was caught.
pub proof fn lemma_escalation_ends_in_kill(caught: Caught)
    requires
        !(caught is Child),
    ensures
        escalation_plan(caught).last() == EscalationStep::Send(Signal::Kill),
        escalation_plan(caught).contains(EscalationStep::Send(Signal::Terminate)),
        escalation_plan(caught).contains(EscalationStep::Send(Signal::Interrupt)) <==> caught
            is Interrupt,
        forall|i: int|
            0 <= i < escalation_plan(caught).len() ==> (#[trigger] escalation_plan(caught)[i]
                matches EscalationStep::Pause { secs } ==> secs == GRACE_SECS),
{
    let plan = escalation_plan(caught);
    match caught {
        Caught::Interrupt => {
            assert(plan[0] == EscalationStep::Send(Signal::Interrupt));
            assert(plan[2] == EscalationStep::Send(Signal::Terminate));
        },
        _ => {
            assert(plan[0] == EscalationStep::Send(Signal::Terminate));
        },
    }
}

/// The reaper ends only with the worker or on a failed wait. Any other
/// child that ends is reaped and the reaper goes on.
pub proof fn lemma_reaper_ends_with_worker(waited: Option<WaitStatus>, worker: i32)
    ensures
        reaped(waited, worker) is Exit <==> waited is None || (ended(waited->0) matches Some(
            (pid, _),
        ) && pid == worker),
        waited is None ==> reaped(waited, worker) == (Reaped::Exit { code: REAPER_FAILURE }),
{
}

/// The reaper's exit status tells how the worker ended: it is the worker's
/// own status where the worker exited, and the signal's number above
/// `SIGNAL_EXIT_BASE` where a signal ended it.
pub proof fn lemma_worker_status_passes_through(worker: i32, status: i32, signal: i32)
    requires
        SIGNAL_EXIT_BASE + signal <= i32::MAX,
    ensures
        reaped(Some(WaitStatus::Exited { pid: worker, status }), worker) == (Reaped::Exit {
            code: status,
        }),
        reaped(Some(WaitStatus::Signaled { pid: worker, signal }), worker) == (Reaped::Exit {
            code: (SIGNAL_EXIT_BASE + signal) as i32,
        }),
{
}

} // verus!
