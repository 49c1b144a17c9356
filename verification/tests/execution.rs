//! Local execution scenarios: invocation plans and real subprocesses.

use xtask_base::ci::Tasks;
use xtask_base::ci::CI;
use xtask_base::github::actions::checkout;
use xtask_base::github::actions::cmd;
use xtask_base::github::actions::rust_toolchain;
use xtask_base::github::actions::script;
use xtask_base::github::actions::Platform;
use xtask_base::WorkflowError;

#[test]
fn foreign_platform_is_a_silent_success_with_no_invocations() {
    let current = Platform::UbuntuLatest;
    for other in [Platform::MacOSLatest, Platform::WindowsLatest] {
        let t = Tasks::new("tests", other, rust_toolchain("1.73")).cmd("does-not-exist", &[]);
        assert!(t.invocations(current).is_empty());
        let t = Tasks::new("tests", other, rust_toolchain("1.73")).cmd("does-not-exist", &[]);
        assert!(t.execute(current).is_ok());
    }
}

#[test]
fn one_invocation_per_command_in_append_order() {
    let t = Tasks::new("tests", Platform::UbuntuLatest, rust_toolchain("1.73"))
        .cmd("cargo", &["fmt"])
        .step(checkout())
        .run(script(&[&["echo", "one"], &["echo", "two"]]).dir("sub"))
        .cmd("cargo", &["test"]);
    let invs = t.invocations(Platform::UbuntuLatest);
    assert_eq!(invs.len(), 4);
    assert_eq!(invs[0].program, "cargo");
    assert_eq!(invs[0].args, vec!["fmt".to_owned()]);
    assert_eq!(invs[0].directory, None);
    assert_eq!(invs[1].program, "echo");
    assert_eq!(invs[1].args, vec!["one".to_owned()]);
    assert_eq!(invs[1].directory, Some("sub".to_owned()));
    assert_eq!(invs[2].program, "echo");
    assert_eq!(invs[2].args, vec!["two".to_owned()]);
    assert_eq!(invs[3].program, "cargo");
    assert_eq!(invs[3].args, vec!["test".to_owned()]);
}

#[test]
fn nightly_tasks_route_through_the_toolchain_selector() {
    let t = Tasks::new(
        "lints",
        Platform::UbuntuLatest,
        rust_toolchain("nightly-2023-10-14"),
    )
    .cmd("cargo", &["udeps", "--all-targets"]);
    let invs = t.invocations(Platform::UbuntuLatest);
    assert_eq!(invs.len(), 1);
    assert_eq!(invs[0].program, "rustup");
    assert_eq!(
        invs[0].args,
        vec![
            "run".to_owned(),
            "nightly".to_owned(),
            "cargo".to_owned(),
            "udeps".to_owned(),
            "--all-targets".to_owned()
        ]
    );
}

#[test]
fn stable_tasks_invoke_the_program_directly() {
    let t = Tasks::new("tests", Platform::UbuntuLatest, rust_toolchain("1.73"))
        .cmd("cargo", &["test"]);
    let invs = t.invocations(Platform::UbuntuLatest);
    assert_eq!(invs.len(), 1);
    assert_eq!(invs[0].program, "cargo");
    assert_eq!(invs[0].args, vec!["test".to_owned()]);
}

#[test]
fn nightly_marker_is_a_prefix_test() {
    assert!(rust_toolchain("nightly").is_nightly());
    assert!(rust_toolchain("nightly-2023-10-14").is_nightly());
    assert!(!rust_toolchain("1.73").is_nightly());
    assert!(!rust_toolchain("stable").is_nightly());
    assert!(!rust_toolchain("night").is_nightly());
}

#[test]
fn setup_only_task_executes_without_spawning() {
    let t = Tasks::new("tests", Platform::UbuntuLatest, rust_toolchain("1.73"));
    assert!(t.invocations(Platform::UbuntuLatest).is_empty());
    let t = Tasks::new("tests", Platform::UbuntuLatest, rust_toolchain("1.73"));
    assert!(t.execute(Platform::UbuntuLatest).is_ok());
}

#[test]
fn executing_a_run_spawns_the_real_process() {
    let t = Tasks::new("ok", Platform::UbuntuLatest, rust_toolchain("1.73")).cmd("true", &[]);
    assert!(t.execute(Platform::UbuntuLatest).is_ok());
}

#[test]
fn a_failing_command_surfaces_a_command_failure() {
    let t = Tasks::new("bad", Platform::UbuntuLatest, rust_toolchain("1.73")).cmd("false", &[]);
    match t.execute(Platform::UbuntuLatest) {
        Err(WorkflowError::CommandFailed { command }) => assert_eq!(command, "false"),
        other => panic!("expected a command failure, got {:?}", other.is_ok()),
    }
}

#[test]
fn a_missing_program_surfaces_a_command_failure() {
    let t = Tasks::new(
        "bad",
        Platform::UbuntuLatest,
        rust_toolchain("1.73"),
    )
    .cmd("surely-not-a-real-program-name", &["x"]);
    match t.execute(Platform::UbuntuLatest) {
        Err(WorkflowError::CommandFailed { command }) => {
            assert_eq!(command, "surely-not-a-real-program-name x")
        },
        other => panic!("expected a command failure, got {:?}", other.is_ok()),
    }
}

#[test]
fn ci_execute_runs_only_matching_tasks_and_stops_on_failure() {
    let ci = CI::named("x")
        .job(Tasks::new("skip", Platform::WindowsLatest, rust_toolchain("1.73")).cmd("false", &[]))
        .job(Tasks::new("ok", Platform::UbuntuLatest, rust_toolchain("1.73")).cmd("true", &[]));
    assert!(ci.execute(Platform::UbuntuLatest).is_ok());

    let ci = CI::named("x")
        .job(Tasks::new("bad", Platform::UbuntuLatest, rust_toolchain("1.73")).cmd("false", &[]))
        .job(Tasks::new("ok", Platform::UbuntuLatest, rust_toolchain("1.73")).cmd("true", &[]));
    assert!(ci.execute(Platform::UbuntuLatest).is_err());
}

#[test]
fn empty_run_succeeds_without_spawning() {
    let empty = xtask_base::github::actions::Run::lines(&[]);
    assert!(empty.invocations(false).is_empty());
    assert!(empty.run().is_ok());
    let empty = xtask_base::github::actions::script(&[]);
    assert!(empty.rustup_run(true).is_ok());
}

#[test]
fn setup_only_pipeline_executes_ok() {
    let ci = CI::named("x")
        .job(Tasks::new("a", Platform::UbuntuLatest, rust_toolchain("1.73")))
        .job(Tasks::new("b", Platform::UbuntuLatest, rust_toolchain("1.73")).step(checkout()));
    assert!(ci.execute(Platform::UbuntuLatest).is_ok());
}
