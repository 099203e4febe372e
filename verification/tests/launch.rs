use runner::launch::{launch_plan, PreExecStep, Stream, Unshared, PROGRAM};

#[test]
fn the_child_runs_the_test_target_quietly() {
    let plan = launch_plan("/tmp/j/merged", "/srv/runner");
    assert_eq!(PROGRAM, "make");
    assert_eq!(plan.program, "make");
    assert_eq!(plan.args, vec!["--silent", "test"]);
}

#[test]
fn the_child_reads_nothing_and_writes_to_pipes() {
    let plan = launch_plan("/tmp/j/merged", "/srv/runner");
    assert_eq!(plan.stdin, Stream::Null);
    assert_eq!(plan.stdout, Stream::Piped);
    assert_eq!(plan.stderr, Stream::Piped);
}

#[test]
fn the_child_leads_its_own_process_group() {
    assert!(launch_plan("/tmp/j/merged", "/srv/runner").own_process_group);
}

#[test]
fn the_child_unshares_then_enters_the_jail_then_the_working_directory() {
    let plan = launch_plan("/tmp/j/merged", "/srv/runner");
    assert_eq!(
        plan.pre_exec,
        vec![
            PreExecStep::Unshare(Unshared {
                fs: true,
                files: true,
                mount: true,
                net: true,
                user: false,
                pid: false,
            }),
            PreExecStep::Chroot { path: "/tmp/j/merged".to_string() },
            PreExecStep::Chdir { path: "/srv/runner".to_string() },
        ]
    );
}
