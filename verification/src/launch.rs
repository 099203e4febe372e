//! How the build-and-test child of a run is started inside its jail.

use vstd::prelude::*;

verus! {

/// Program that runs the build-and-test recipe.
pub const PROGRAM: &'static str = "make";

/// Where one of the child's standard streams is connected.
#[derive(Clone, Copy, Debug, PartialEq, Eq, Structural)]
pub enum Stream {
    /// The null device.
    Null,
    /// A pipe whose other end the service holds.
    Piped,
}

/// Which of its parent's resources the child stops sharing before it is
/// confined.
#[derive(Clone, Copy, Debug, PartialEq, Eq, Structural)]
pub struct Unshared {
    /// Root directory, working directory and umask.
    pub fs: bool,
    /// The table of open files.
    pub files: bool,
    /// The mount namespace.
    pub mount: bool,
    /// The network namespace.
    pub net: bool,
    /// The user namespace.
    pub user: bool,
    /// The process-id namespace.
    pub pid: bool,
}

/// One thing the child does between being forked and running the program.
/// A step that fails ends the child, and the start counts as failed.
#[derive(Debug, PartialEq, Eq)]
pub enum PreExecStep {
    Unshare(Unshared),
    /// Make `path` the root directory.
    Chroot { path: String },
    /// Make `path` the working directory.
    Chdir { path: String },
}

/// Everything that is fixed about the child before it starts.
#[derive(Debug, PartialEq, Eq)]
pub struct LaunchPlan {
    pub program: &'static str,
    pub args: Vec<&'static str>,
    pub stdin: Stream,
    pub stdout: Stream,
    pub stderr: Stream,
    /// Whether the child leads a process group of its own, so that it and
    /// all it forks can be signalled as one.
    pub own_process_group: bool,
    pub pre_exec: Vec<PreExecStep>,
}

/// The isolation of a child: its own mount and network namespaces and its
/// own file table and filesystem attributes. User and process-id
/// namespaces are left shared.
pub open spec fn isolation() -> Unshared {
    Unshared { fs: true, files: true, mount: true, net: true, user: false, pid: false }
}

impl LaunchPlan {
    /// Whether this is how a child is started in the jail rooted at
    /// `chroot`, for a service that works in `cwd`: `make --silent test`,
    /// reading nothing, with both outputs piped, in a process group of its
    /// own, unsharing, then confined to the jail, then moved to `cwd` as it
    /// is seen from inside.
    pub open spec fn is_launch_in(self, chroot: Seq<char>, cwd: Seq<char>) -> bool {
        &&& self.program@ == PROGRAM@
        &&& self.args@.len() == 2
        &&& self.args@[0]@ == "--silent"@
        &&& self.args@[1]@ == "test"@
        &&& self.stdin == Stream::Null
        &&& self.stdout == Stream::Piped
        &&& self.stderr == Stream::Piped
        &&& self.own_process_group
        &&& self.pre_exec@.len() == 3
        &&& self.pre_exec@[0] == PreExecStep::Unshare(isolation())
        &&& self.pre_exec@[1] matches PreExecStep::Chroot { path: root }
        &&& root@ == chroot
        &&& self.pre_exec@[2] matches PreExecStep::Chdir { path: dir }
        &&& dir@ == cwd
    }
}

/// How to start the child of a run in the jail rooted at `chroot`.
pub fn launch_plan(chroot: &str, cwd: &str) -> (plan: LaunchPlan)
    ensures
        plan.is_launch_in(chroot@, cwd@),
{
    let mut args: Vec<&'static str> = Vec::new();
    args.push("--silent");
    args.push("test");
    let unshared = Unshared {
        fs: true,
        files: true,
        mount: true,
        net: true,
        user: false,
        pid: false,
    };
    let mut pre_exec: Vec<PreExecStep> = Vec::new();
    pre_exec.push(PreExecStep::Unshare(unshared));
    pre_exec.push(PreExecStep::Chroot { path: String::from_str(chroot) });
    pre_exec.push(PreExecStep::Chdir { path: String::from_str(cwd) });
    LaunchPlan {
        program: PROGRAM,
        args,
        stdin: Stream::Null,
        stdout: Stream::Piped,
        stderr: Stream::Piped,
        own_process_group: true,
        pre_exec,
    }
}

} // verus!
