//! One run from request to answer: what is settled before anything is
//! touched, the order in which things are done, and what is answered.
//!
//! The caller does the work, one action at a time, and reports how each
//! went; `next_action` says what follows. The functions here never block
//! and never touch the system.

use crate::paths::{
    inside, is_absolute, is_within, lemma_inside_is_within, lemma_sources_within_jail,
    lemma_within_transitive, sources_path,
};
use crate::payload::{
    check_request, source_files, source_files_of, Payload, PayloadView, Response, ResponseView,
    SourceFile, SourceFileView, files_view,
};
use crate::reply::RunError;
use crate::timeout::{
    choose_timeout, parsed_duration, read_timeout, span_nanos, Timeout, DEFAULT_TIMEOUT_SECS,
};
use crate::tmpdir::{
    is_jail_id, jail_base, jail_root, lemma_jails_disjoint, lemma_root_within_base,
};
use vstd::prelude::*;

verus! {

/// What a well-formed request asks for, settled before its jail exists.
#[derive(Debug)]
pub struct RunPlan {
    pub timeout: Timeout,
    /// Directory, relative to the build recipes, that receives the files.
    pub sources_dir: &'static str,
    /// The files to write, in writing order.
    pub files: Vec<SourceFile>,
}

/// A `RunPlan` as plain values, its time limit in nanoseconds.
pub struct RunPlanView {
    pub timeout: nat,
    pub sources_dir: Seq<char>,
    pub files: Seq<SourceFileView>,
}

impl View for RunPlan {
    type V = RunPlanView;

    open spec fn view(&self) -> RunPlanView {
        RunPlanView {
            timeout: self.timeout@,
            sources_dir: self.sources_dir@,
            files: files_view(self.files@),
        }
    }
}

/// The outcome of preparing a run, as plain values.
pub open spec fn prepared_view(r: Result<RunPlan, RunError>) -> Result<RunPlanView, RunError> {
    match r {
        Ok(plan) => Ok(plan@),
        Err(e) => Err(e),
    }
}

/// What was made of the time limit a request asked for, in nanoseconds:
/// `None` where it asked for none, `Some(None)` where what it asked for
/// was no duration.
pub open spec fn limits_view(requested: Option<Option<Timeout>>) -> Option<Option<nat>> {
    match requested {
        None => None,
        Some(None) => Some(None),
        Some(Some(t)) => Some(Some(t@)),
    }
}

/// What the duration parser makes of the time limit a request asks for.
pub open spec fn requested_limit(p: PayloadView) -> Option<Option<nat>> {
    match p.timeout {
        None => None,
        Some(text) => Some(
            match parsed_duration(text) {
                Some(d) => Some(span_nanos(d.0, d.1)),
                None => None,
            },
        ),
    }
}

/// The plan of a request, or why it is refused. A time limit that is no
/// duration is reported before a missing checker. A request that names no
/// limit gets the default.
pub open spec fn prepared(p: PayloadView, requested: Option<Option<nat>>) -> Result<
    RunPlanView,
    RunError,
> {
    match requested {
        Some(None) => Err(RunError::WrongTimeoutFormat),
        _ => if !p.well_formed() {
            Err(RunError::CheckerRequired)
        } else {
            Ok(
                RunPlanView {
                    timeout: match requested {
                        Some(Some(t)) => t,
                        _ => span_nanos(DEFAULT_TIMEOUT_SECS, 0),
                    },
                    sources_dir: p.lang_slug.sources_dir(),
                    files: source_files_of(p),
                },
            )
        },
    }
}

/// Settles a request whose time limit has been read already.
pub fn prepare_with(payload: &Payload, requested: Option<Option<Timeout>>) -> (r: Result<
    RunPlan,
    RunError,
>)
    ensures
        prepared_view(r) == prepared(payload@, limits_view(requested)),
{
    let timeout = match choose_timeout(requested) {
        Ok(t) => t,
        Err(e) => {
            return Err(e);
        },
    };
    match check_request(payload) {
        Ok(()) => {},
        Err(e) => {
            return Err(e);
        },
    }
    Ok(
        RunPlan {
            timeout,
            sources_dir: payload.lang_slug.sources_subdir(),
            files: source_files(payload),
        },
    )
}

/// Settles a request: reads its time limit and checks that it is
/// well-formed. Nothing is created or written on the way.
pub fn prepare(payload: &Payload) -> (r: Result<RunPlan, RunError>)
    ensures
        prepared_view(r) == prepared(payload@, requested_limit(payload@)),
{
    let requested = match &payload.timeout {
        None => None,
        Some(text) => Some(read_timeout(text.as_str())),
    };
    prepare_with(payload, requested)
}

/// How a run ends.
#[derive(Clone, Copy, Debug, PartialEq, Eq, Structural)]
pub enum Verdict {
    /// The child ran to its end; its output is the answer.
    Completed,
    /// The run was refused or broke off.
    Refused(RunError),
}

impl Verdict {
    /// The status code the answer carries: success for a run that
    /// completed, whatever the child's own exit status.
    pub open spec fn status_code(self) -> u16 {
        match self {
            Verdict::Completed => 200,
            Verdict::Refused(e) => e.status_code(),
        }
    }

    /// The status code the answer carries.
    pub fn status(self) -> (code: u16)
        ensures
            code == self.status_code(),
    {
        match self {
            Verdict::Completed => 200,
            Verdict::Refused(e) => e.status(),
        }
    }
}

/// One thing for the caller to do.
#[derive(Clone, Copy, Debug, PartialEq, Eq, Structural)]
pub enum Action {
    /// Name a jail and carry out its setup steps, undoing them if one
    /// fails.
    BuildJail,
    /// Find the directory the service works in.
    FindWorkDir,
    /// Write the file at `index` of the plan into the sources directory.
    WriteFile { index: usize },
    /// Start the child.
    Launch,
    /// Start reading both outputs of the child to their end, without
    /// waiting for either.
    Drain,
    /// Wait for the child to exit, for no longer than the time limit.
    Wait,
    /// Send the kill signal to the child's whole process group.
    KillGroup,
    /// Wait until both outputs have been read to their end.
    Collect,
    /// Take the jail apart, then answer with `verdict`.
    DropJail { verdict: Verdict },
    /// Answer. Nothing follows.
    Reply(Verdict),
    /// End the whole service with a failure status. Nothing follows.
    Abort,
}

/// How an action went.
#[derive(Clone, Copy, Debug, PartialEq, Eq, Structural)]
pub enum Outcome {
    Done,
    Failed,
    /// The time limit passed first.
    TimedOut,
}

/// Dropping the jail with the verdict that something inside broke.
pub open spec fn give_up() -> Action {
    Action::DropJail { verdict: Verdict::Refused(RunError::Internal) }
}

/// What follows an action, given how it went, in a run that has `files`
/// files to write.
pub open spec fn next(done: Action, outcome: Outcome, files: usize) -> Action {
    match done {
        Action::BuildJail => if outcome is Done {
            Action::FindWorkDir
        } else {
            Action::Reply(Verdict::Refused(RunError::Internal))
        },
        Action::FindWorkDir => if !(outcome is Done) {
            give_up()
        } else if 0 < files {
            Action::WriteFile { index: 0 }
        } else {
            Action::Launch
        },
        Action::WriteFile { index } => if !(outcome is Done) {
            give_up()
        } else if index + 1 < files {
            Action::WriteFile { index: (index + 1) as usize }
        } else {
            Action::Launch
        },
        Action::Launch => if outcome is Done {
            Action::Drain
        } else {
            give_up()
        },
        Action::Drain => if outcome is Done {
            Action::Wait
        } else {
            give_up()
        },
        Action::Wait => match outcome {
            Outcome::Done => Action::Collect,
            Outcome::TimedOut => Action::KillGroup,
            Outcome::Failed => give_up(),
        },
        Action::KillGroup => if outcome is Done {
            Action::DropJail { verdict: Verdict::Refused(RunError::TimeLimitExceeded) }
        } else {
            Action::Abort
        },
        Action::Collect => if outcome is Done {
            Action::DropJail { verdict: Verdict::Completed }
        } else {
            give_up()
        },
        Action::DropJail { verdict } => Action::Reply(verdict),
        Action::Reply(verdict) => Action::Reply(verdict),
        Action::Abort => Action::Abort,
    }
}

/// The first thing to do for a request: build its jail if it was settled,
/// answer at once if it was refused.
pub open spec fn first(prepared: Result<RunPlanView, RunError>) -> Action {
    match prepared {
        Ok(_) => Action::BuildJail,
        Err(e) => Action::Reply(Verdict::Refused(e)),
    }
}

/// The action a run has come to after `outcomes`, the first of which tells
/// how `start` went, the next how the action after it went, and so on.
pub open spec fn reached(start: Action, outcomes: Seq<Outcome>, files: usize) -> Action
    decreases outcomes.len(),
{
    if outcomes.len() == 0 {
        start
    } else {
        next(reached(start, outcomes.drop_last(), files), outcomes.last(), files)
    }
}

/// The action that a run with `files` files has come to after `k` actions
/// that all went well.
pub open spec fn smooth(k: nat, files: usize) -> Action {
    if k == 0 {
        Action::BuildJail
    } else if k == 1 {
        Action::FindWorkDir
    } else if k < 2 + files {
        Action::WriteFile { index: (k - 2) as usize }
    } else if k == 2 + files {
        Action::Launch
    } else if k == 3 + files {
        Action::Drain
    } else if k == 4 + files {
        Action::Wait
    } else if k == 5 + files {
        Action::Collect
    } else if k == 6 + files {
        Action::DropJail { verdict: Verdict::Completed }
    } else {
        Action::Reply(Verdict::Completed)
    }
}

/// The first thing to do for a request.
pub fn first_action(prepared: &Result<RunPlan, RunError>) -> (action: Action)
    ensures
        action == first(prepared_view(*prepared)),
{
    match prepared {
        Ok(_) => Action::BuildJail,
        Err(e) => Action::Reply(Verdict::Refused(*e)),
    }
}

/// What to do after `done`, given how it went.
pub fn next_action(done: Action, outcome: Outcome, files: usize) -> (action: Action)
    ensures
        action == next(done, outcome, files),
{
    let internal = Action::DropJail { verdict: Verdict::Refused(RunError::Internal) };
    match done {
        Action::BuildJail => match outcome {
            Outcome::Done => Action::FindWorkDir,
            _ => Action::Reply(Verdict::Refused(RunError::Internal)),
        },
        Action::FindWorkDir => match outcome {
            Outcome::Done => if 0 < files {
                Action::WriteFile { index: 0 }
            } else {
                Action::Launch
            },
            _ => internal,
        },
        Action::WriteFile { index } => match outcome {
            Outcome::Done => if index < files && index + 1 < files {
                Action::WriteFile { index: index + 1 }
            } else {
                Action::Launch
            },
            _ => internal,
        },
        Action::Launch => match outcome {
            Outcome::Done => Action::Drain,
            _ => internal,
        },
        Action::Drain => match outcome {
            Outcome::Done => Action::Wait,
            _ => internal,
        },
        Action::Wait => match outcome {
            Outcome::Done => Action::Collect,
            Outcome::TimedOut => Action::KillGroup,
            Outcome::Failed => internal,
        },
        Action::KillGroup => match outcome {
            Outcome::Done => Action::DropJail {
                verdict: Verdict::Refused(RunError::TimeLimitExceeded),
            },
            _ => Action::Abort,
        },
        Action::Collect => match outcome {
            Outcome::Done => Action::DropJail { verdict: Verdict::Completed },
            _ => internal,
        },
        Action::DropJail { verdict } => Action::Reply(verdict),
        Action::Reply(verdict) => Action::Reply(verdict),
        Action::Abort => Action::Abort,
    }
}

/// A request that lacks the checker its language needs is answered with a
/// client error as the first and only action: no jail is built for it and
/// nothing is written.
pub proof fn lemma_missing_checker_refused_first(p: PayloadView, requested: Option<Option<nat>>)
    requires
        !p.well_formed(),
        requested != Some(None::<nat>),
    ensures
        prepared(p, requested) == Err::<RunPlanView, RunError>(RunError::CheckerRequired),
        first(prepared(p, requested)) == Action::Reply(Verdict::Refused(RunError::CheckerRequired)),
        Verdict::Refused(RunError::CheckerRequired).status_code() == 400,
{
}

/// A request is refused exactly when its time limit is no duration or it
/// lacks a needed checker; a refused request is answered at once, as the
/// client's fault, and every other request starts by building its jail.
pub proof fn lemma_refusal_touches_nothing(p: PayloadView, requested: Option<Option<nat>>)
    ensures
        prepared(p, requested) is Err <==> requested == Some(None::<nat>) || !p.well_formed(),
        prepared(p, requested) is Err ==> first(prepared(p, requested)) is Reply,
        prepared(p, requested) is Ok ==> first(prepared(p, requested)) == Action::BuildJail,
        prepared(p, requested) matches Err(e) ==> e.is_malformed_request(),
{
}

/// An answer is given only right after the jail was taken apart, or after
/// it could not be built; and once the jail is dropped nothing but the
/// answer follows. No jail is built twice.
pub proof fn lemma_answer_follows_teardown(done: Action, outcome: Outcome, files: usize)
    ensures
        next(done, outcome, files) is Reply ==> done is DropJail || done is Reply || (done
            is BuildJail && !(outcome is Done)),
        done matches Action::DropJail { verdict } ==> next(done, outcome, files) == Action::Reply(
            verdict,
        ),
        !(next(done, outcome, files) is BuildJail),
{
}

/// Whatever happens in a run, if it has come to an answer then its jail
/// was never built or was dropped on the way, with the verdict that is
/// answered.
pub proof fn lemma_jail_dropped_before_answer(outcomes: Seq<Outcome>, files: usize)
    requires
        reached(Action::BuildJail, outcomes, files) is Reply,
    ensures
        outcomes.len() > 0,
        !(outcomes[0] is Done) || exists|k: int|
            0 <= k < outcomes.len() && #[trigger] reached(
                Action::BuildJail,
                outcomes.take(k),
                files,
            ) == (Action::DropJail {
                verdict: reached(Action::BuildJail, outcomes, files)->Reply_0,
            }),
    decreases outcomes.len(),
{
    let start = Action::BuildJail;
    let n = outcomes.len() as int;
    assert(n > 0);
    let before = outcomes.drop_last();
    let prev = reached(start, before, files);
    assert(before =~= outcomes.take(n - 1));
    if prev is Reply {
        lemma_jail_dropped_before_answer(before, files);
        assert(before[0] == outcomes[0]);
        if outcomes[0] is Done {
            let k = choose|k: int|
                0 <= k < before.len() && #[trigger] reached(start, before.take(k), files) == (
                Action::DropJail { verdict: prev->Reply_0 });
            assert(before.take(k) =~= outcomes.take(k));
        }
    } else if prev is DropJail {
        assert(reached(start, outcomes.take(n - 1), files) == prev);
    } else {
        assert(prev is BuildJail);
        lemma_build_is_first(before, files);
        assert(before.len() == 0);
        assert(outcomes[0] == outcomes.last());
    }
}

/// The jail is built at the start of a run and at no later point.
pub proof fn lemma_build_is_first(outcomes: Seq<Outcome>, files: usize)
    requires
        reached(Action::BuildJail, outcomes, files) is BuildJail,
    ensures
        outcomes.len() == 0,
{
}

/// A failure while the jail stands (finding the working directory,
/// writing a file, starting the child, reading or waiting for it,
/// collecting its output) leads to the jail being dropped and an internal error being
/// answered; a jail that cannot be built leads to the same answer at once.
pub proof fn lemma_failure_is_internal(done: Action, files: usize)
    requires
        done is FindWorkDir || done is WriteFile || done is Launch || done is Drain || done
            is Wait || done is Collect,
    ensures
        next(done, Outcome::Failed, files) == give_up(),
        next(give_up(), Outcome::Done, files) == Action::Reply(
            Verdict::Refused(RunError::Internal),
        ),
        next(Action::BuildJail, Outcome::Failed, files) == Action::Reply(
            Verdict::Refused(RunError::Internal),
        ),
        Verdict::Refused(RunError::Internal).status_code() == 500,
{
}

/// Each verdict has one cause. A run is answered as completed only after
/// both outputs were collected to their end; as over its limit only after
/// the wait timed out and the process group was killed; and the verdict of
/// a run that built its jail is never that the request was malformed.
pub proof fn lemma_verdict_has_one_cause(done: Action, outcome: Outcome, files: usize)
    requires
        !(done is DropJail),
        !(done is Reply),
    ensures
        next(done, outcome, files) == (Action::DropJail { verdict: Verdict::Completed }) ==> done
            is Collect && outcome is Done,
        next(done, outcome, files) == (Action::DropJail {
            verdict: Verdict::Refused(RunError::TimeLimitExceeded),
        }) ==> done is KillGroup && outcome is Done,
        next(done, outcome, files) is KillGroup ==> done is Wait && outcome is TimedOut,
        next(done, outcome, files) is Collect ==> done is Wait && outcome is Done,
        next(done, outcome, files) is Wait ==> done is Drain && outcome is Done,
        next(done, outcome, files) matches Action::DropJail { verdict: Verdict::Refused(e) }
            ==> !e.is_malformed_request(),
        next(done, outcome, files) matches Action::Reply(Verdict::Refused(e))
            ==> !e.is_malformed_request(),
{
}

/// When the time limit passes, the child's process group is killed, the
/// jail is dropped, and the answer is that the limit was exceeded. Where
/// the group cannot be killed the service ends.
pub proof fn lemma_timeout_path(files: usize, teardown: Outcome)
    ensures
        next(Action::Wait, Outcome::TimedOut, files) == Action::KillGroup,
        next(Action::KillGroup, Outcome::Done, files) == (Action::DropJail {
            verdict: Verdict::Refused(RunError::TimeLimitExceeded),
        }),
        next(next(Action::KillGroup, Outcome::Done, files), teardown, files) == Action::Reply(
            Verdict::Refused(RunError::TimeLimitExceeded),
        ),
        Verdict::Refused(RunError::TimeLimitExceeded).status_code() == 408,
        next(Action::KillGroup, Outcome::Failed, files) == Action::Abort,
{
}

/// Once a run has answered or ended the service, nothing else is done.
pub proof fn lemma_end_is_final(done: Action, outcome: Outcome, files: usize)
    requires
        done is Reply || done is Abort,
    ensures
        next(done, outcome, files) == done,
{
}

/// `k` outcomes, all of them `Done`.
pub open spec fn all_done(k: nat) -> Seq<Outcome> {
    Seq::new(k, |i: int| Outcome::Done)
}

/// A run in which nothing fails builds the jail, finds the working
/// directory, writes every file of the plan once and in order, starts the
/// child, starts reading its outputs before it waits for it, collects the
/// outputs, drops the jail and answers that the run completed.
pub proof fn lemma_smooth_run(k: nat, files: usize)
    ensures
        reached(Action::BuildJail, all_done(k), files) == smooth(k, files),
    decreases k,
{
    if k > 0 {
        let before = (k - 1) as nat;
        lemma_smooth_run(before, files);
        assert(all_done(k).drop_last() =~= all_done(before));
        assert(all_done(k).last() == Outcome::Done);
    }
}

/// Every file of a run is written within the root of its own jail, and
/// so within no other jail, whatever directory the service works in.
pub proof fn lemma_files_stay_in_jail(
    id: Seq<char>,
    other: Seq<char>,
    cwd: Seq<char>,
    subdir: Seq<char>,
    name: Seq<char>,
)
    requires
        is_jail_id(id),
        is_jail_id(other),
        id != other,
        is_absolute(cwd),
    ensures
        ({
            let path = inside(sources_path(jail_root(id), cwd, subdir)->0, name);
            &&& is_within(path, jail_root(id))
            &&& is_within(path, jail_base(id))
            &&& !is_within(path, jail_base(other))
        }),
{
    let sources = sources_path(jail_root(id), cwd, subdir)->0;
    let path = inside(sources, name);
    lemma_sources_within_jail(jail_root(id), cwd, subdir);
    lemma_inside_is_within(sources, name);
    lemma_within_transitive(path, sources, jail_root(id));
    lemma_root_within_base(id);
    lemma_within_transitive(path, jail_root(id), jail_base(id));
    lemma_jails_disjoint(id, other, path);
}

/// The answer of a run that completed: the child's exit status and all it
/// wrote to its two outputs, unchanged.
pub fn respond(exit_code: Option<i32>, stdout: String, stderr: String) -> (r: Response)
    ensures
        r@ == (ResponseView { exit_code, stdout: stdout@, stderr: stderr@ }),
{
    Response { exit_code, stdout, stderr }
}

} // verus!
