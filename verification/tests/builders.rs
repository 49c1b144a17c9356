//! Builder scenarios: the fluent surface of steps, commands and task
//! lists.

use xtask_base::ci::Tasks;
use xtask_base::ci::CI;
use xtask_base::github::actions::checkout;
use xtask_base::github::actions::install;
use xtask_base::github::actions::pull_request;
use xtask_base::github::actions::push;
use xtask_base::github::actions::rust_toolchain;
use xtask_base::github::actions::upload_artifact;
use xtask_base::github::actions::workflow;
use xtask_base::github::actions::Cmd;
use xtask_base::github::actions::Platform;

const HEADER: &str = "# This file is maintained by xtask-base.\n# Please do not edit!\n";

#[test]
fn upload_artifact_and_install_render_as_expected() {
    let w = workflow("w").job(
        "j",
        Platform::UbuntuLatest,
        vec![
            upload_artifact("logs", "target/logs"),
            install("cargo-udeps", "0.1.43"),
        ],
    );
    let mut expected = format!("{}name: w\non:\njobs:\n", HEADER);
    expected.push_str("  j-ubuntu-latest:\n    runs-on: ubuntu-latest\n    steps:\n");
    expected.push_str("    - uses: actions/upload-artifact@v3\n");
    expected.push_str("      with:\n");
    expected.push_str("        name: logs\n");
    expected.push_str("        path: target/logs\n");
    expected.push_str("    - run: cargo install cargo-udeps --locked --version 0.1.43\n");
    assert_eq!(w.render(), expected);
}

#[test]
fn commands_grow_argument_by_argument() {
    let c = Cmd::new("cargo").arg("build").args(&["--all-targets", "--release"]);
    let invs = Tasks::new("t", Platform::UbuntuLatest, rust_toolchain("1.73"))
        .run(c.into_run())
        .invocations(Platform::UbuntuLatest);
    assert_eq!(invs.len(), 1);
    assert_eq!(invs[0].program, "cargo");
    assert_eq!(
        invs[0].args,
        vec![
            "build".to_owned(),
            "--all-targets".to_owned(),
            "--release".to_owned()
        ]
    );
}

#[test]
fn extend_arg_grows_the_previous_word() {
    let c = Cmd::new("cargo").arg("--message-format").__extend_arg("=json");
    let invs = Tasks::new("t", Platform::UbuntuLatest, rust_toolchain("1.73"))
        .run(c.into_run())
        .invocations(Platform::UbuntuLatest);
    assert_eq!(invs[0].args, vec!["--message-format=json".to_owned()]);

    let c = Cmd::new("car").__extend_arg("go");
    let invs = Tasks::new("t", Platform::UbuntuLatest, rust_toolchain("1.73"))
        .run(c.into_run())
        .invocations(Platform::UbuntuLatest);
    assert_eq!(invs[0].program, "cargo");
    assert!(invs[0].args.is_empty());
}

#[test]
fn conditional_builders_append_only_when_asked() {
    let yes = Tasks::new("t", Platform::UbuntuLatest, rust_toolchain("1.73"))
        .step_when(true, checkout())
        .run_when(true, xtask_base::github::actions::cmd("true", &[]));
    assert_eq!(yes.invocations(Platform::UbuntuLatest).len(), 1);

    let no = Tasks::new("t", Platform::UbuntuLatest, rust_toolchain("1.73"))
        .step_when(false, checkout())
        .run_when(false, xtask_base::github::actions::cmd("true", &[]));
    assert!(no.invocations(Platform::UbuntuLatest).is_empty());
}

#[test]
fn in_place_and_builder_appends_agree() {
    let fluent = Tasks::new("t", Platform::UbuntuLatest, rust_toolchain("1.73"))
        .cmd("cargo", &["test"])
        .script(&[&["echo", "hi"]]);
    let mut in_place = Tasks::new("t", Platform::UbuntuLatest, rust_toolchain("1.73"));
    in_place.add_cmd("cargo", &["test"]);
    in_place.add_script(&[&["echo", "hi"]]);
    let a = CI::named("w").job(fluent).into_workflow().render();
    let b = CI::named("w").job(in_place).into_workflow().render();
    assert_eq!(a, b);
}

#[test]
fn apply_threads_the_receiver_through() {
    let t = Tasks::new("t", Platform::UbuntuLatest, rust_toolchain("1.73"))
        .apply(|t| t.cmd("cargo", &["test"]));
    assert_eq!(t.invocations(Platform::UbuntuLatest).len(), 1);
}

#[test]
fn ci_new_triggers_on_push_and_pull_request() {
    let text = CI::new().into_workflow().render();
    assert!(text.starts_with(&format!(
        "{}name: tests\non:\n  push:\n  pull_request:\njobs:\n",
        HEADER
    )));
}

#[test]
fn ci_on_appends_a_trigger() {
    let text = CI::named("w")
        .on(push().branch("main").into_event())
        .on(pull_request().into_event())
        .into_workflow()
        .render();
    assert_eq!(
        text,
        format!(
            "{}name: w\non:\n  push:\n    branches:\n    - main\n  pull_request:\njobs:\n",
            HEADER
        )
    );
}

#[test]
fn ci_write_check_mode_matches_workflow_write() {
    let build = || {
        CI::named("w").job(
            Tasks::new("t", Platform::UbuntuLatest, rust_toolchain("1.73")).cmd("cargo", &["test"]),
        )
    };
    let fresh = build().into_workflow().render();
    assert!(matches!(build().write(true, Some(fresh.as_str())), Ok(None)));
    assert!(matches!(build().write(false, None), Ok(Some(_))));
    assert!(build().write(true, Some("stale")).is_err());
}

#[test]
fn lints_preset_repeats_per_extra_directory() {
    let t = Tasks::new(
        "lints",
        Platform::UbuntuLatest,
        rust_toolchain("nightly-2023-10-14"),
    )
    .lints("0.1.43", &["extra-a", "extra-b"]);
    let invs = t.invocations(Platform::UbuntuLatest);
    // fmt, fmt in a, fmt in b, udeps, udeps in a, udeps in b — the
    // scanner installation is a setup step and spawns nothing here.
    assert_eq!(invs.len(), 6);
    assert_eq!(invs[0].directory, None);
    assert_eq!(invs[1].directory, Some("extra-a".to_owned()));
    assert_eq!(invs[2].directory, Some("extra-b".to_owned()));
    assert_eq!(invs[3].directory, None);
    assert_eq!(invs[4].directory, Some("extra-a".to_owned()));
    assert_eq!(invs[5].directory, Some("extra-b".to_owned()));
    assert_eq!(invs[3].program, "rustup");
    assert_eq!(
        invs[3].args,
        vec![
            "run".to_owned(),
            "nightly".to_owned(),
            "cargo".to_owned(),
            "udeps".to_owned(),
            "--all-targets".to_owned()
        ]
    );
}

#[test]
fn tests_preset_appends_the_four_checks() {
    let t = Tasks::new("tests", Platform::UbuntuLatest, rust_toolchain("1.73"))
        .codegen()
        .tests(None);
    let invs = t.invocations(Platform::UbuntuLatest);
    assert_eq!(invs.len(), 5);
    assert_eq!(invs[0].args, vec!["xtask".to_owned(), "codegen".to_owned(), "--check".to_owned()]);
    assert_eq!(invs[1].args[0], "clippy");
    assert_eq!(invs[2].args, vec!["test".to_owned()]);
    assert_eq!(invs[3].args, vec!["build".to_owned(), "--all-targets".to_owned()]);
    assert_eq!(invs[4].args, vec!["doc".to_owned()]);
}

#[test]
fn release_tests_preset_runs_in_the_given_directory() {
    let t = Tasks::new("release-tests", Platform::UbuntuLatest, rust_toolchain("1.73"))
        .release_tests(Some("pkg"));
    let invs = t.invocations(Platform::UbuntuLatest);
    assert_eq!(invs.len(), 1);
    assert_eq!(invs[0].directory, Some("pkg".to_owned()));
    assert_eq!(
        invs[0].args,
        vec![
            "test".to_owned(),
            "--benches".to_owned(),
            "--tests".to_owned(),
            "--release".to_owned()
        ]
    );
}
