//! Rendering scenarios: the model rendered to configuration text.

use xtask_base::ci::StandardVersions;
use xtask_base::ci::Tasks;
use xtask_base::ci::CI;
use xtask_base::github::actions::action;
use xtask_base::github::actions::cmd;
use xtask_base::github::actions::install_rust;
use xtask_base::github::actions::multi_step;
use xtask_base::github::actions::pull_request;
use xtask_base::github::actions::push;
use xtask_base::github::actions::run;
use xtask_base::github::actions::rust_toolchain;
use xtask_base::github::actions::script;
use xtask_base::github::actions::workflow;
use xtask_base::github::actions::Platform;
use xtask_base::github::actions::Run;
use xtask_base::github::workflows::basic_tests;

const HEADER: &str = "# This file is maintained by xtask-base.\n# Please do not edit!\n";

#[test]
fn platform_slugs() {
    assert_eq!(Platform::UbuntuLatest.as_str(), "ubuntu-latest");
    assert_eq!(Platform::MacOSLatest.as_str(), "macos-latest");
    assert_eq!(Platform::WindowsLatest.as_str(), "windows-latest");
    assert_eq!(
        Platform::latest(),
        vec![
            Platform::UbuntuLatest,
            Platform::MacOSLatest,
            Platform::WindowsLatest
        ]
    );
}

#[test]
fn bare_action_renders_only_the_uses_line() {
    let w = workflow("w").job(
        "j",
        Platform::UbuntuLatest,
        vec![action("actions/checkout@v3").into_step()],
    );
    let expected = format!(
        "{}name: w\non:\njobs:\n  j-ubuntu-latest:\n    runs-on: ubuntu-latest\n    steps:\n    - uses: actions/checkout@v3\n",
        HEADER
    );
    assert_eq!(w.render(), expected);
}

#[test]
fn action_params_keep_insertion_order_and_duplicates() {
    let a = action("x/y@v1")
        .with("key", "one")
        .with("key", "two")
        .env("VAR", "3");
    let w = workflow("w").job("j", Platform::MacOSLatest, vec![a.into_step()]);
    let expected = format!(
        "{}name: w\non:\njobs:\n  j-macos-latest:\n    runs-on: macos-latest\n    steps:\n    - uses: x/y@v1\n      with:\n        key: one\n        key: two\n      env:\n        VAR: 3\n",
        HEADER
    );
    assert_eq!(w.render(), expected);
}

#[test]
fn runs_render_in_single_and_block_form() {
    let single = cmd("cargo", &["test"]);
    let in_dir = cmd("cargo", &["doc"]).dir("packages/app");
    let multi = script(&[&["cargo", "fmt"], &["cargo", "test"]]);
    let lines = Run::lines(&["echo one", "echo two"]).in_directory("sub");
    let w = workflow("w").job(
        "j",
        Platform::UbuntuLatest,
        vec![
            single.into_step(),
            in_dir.into_step(),
            multi.into_step(),
            lines.into_step(),
        ],
    );
    let mut expected = format!("{}name: w\non:\njobs:\n", HEADER);
    expected.push_str("  j-ubuntu-latest:\n    runs-on: ubuntu-latest\n    steps:\n");
    expected.push_str("    - run: cargo test\n");
    expected.push_str("    - working-directory: packages/app\n      run: cargo doc\n");
    expected.push_str("    - run: |\n        cargo fmt\n        cargo test\n");
    expected.push_str("    - working-directory: sub\n      run: |\n        echo one\n        echo two\n");
    assert_eq!(w.render(), expected);
}

#[test]
fn empty_and_conditional_steps_render_nothing() {
    let w = workflow("w").job(
        "j",
        Platform::UbuntuLatest,
        vec![
            xtask_base::github::actions::when(false, run("skipped").into_step()),
            xtask_base::github::actions::when(true, run("kept").into_step()).if_failed(),
            multi_step(vec![]),
        ],
    );
    let expected = format!(
        "{}name: w\non:\njobs:\n  j-ubuntu-latest:\n    runs-on: ubuntu-latest\n    steps:\n    - run: kept\n",
        HEADER
    );
    assert_eq!(w.render(), expected);
}

#[test]
fn toolchain_action_renders_each_present_field() {
    let rust = rust_toolchain("nightly-2023-10-14")
        .minimal()
        .default()
        .clippy()
        .rustfmt()
        .wasm();
    let w = workflow("w").job("j", Platform::UbuntuLatest, vec![rust.into_step()]);
    let mut expected = format!("{}name: w\non:\njobs:\n", HEADER);
    expected.push_str("  j-ubuntu-latest:\n    runs-on: ubuntu-latest\n    steps:\n");
    expected.push_str("    - uses: ructions/toolchain@v2\n");
    expected.push_str("      with:\n");
    expected.push_str("        toolchain: nightly-2023-10-14\n");
    expected.push_str("        profile: minimal\n");
    expected.push_str("        default: true\n");
    expected.push_str("        components: clippy, rustfmt\n");
    expected.push_str("        target: wasm32-unknown-unknown\n");
    assert_eq!(w.render(), expected);
}

#[test]
fn install_rust_is_the_three_step_composite() {
    let w = workflow("w").job(
        "j",
        Platform::UbuntuLatest,
        vec![install_rust(rust_toolchain("1.73").minimal())],
    );
    let mut expected = format!("{}name: w\non:\njobs:\n", HEADER);
    expected.push_str("  j-ubuntu-latest:\n    runs-on: ubuntu-latest\n    steps:\n");
    expected.push_str("    - uses: actions/checkout@v3\n");
    expected.push_str("    - uses: ructions/toolchain@v2\n");
    expected.push_str("      with:\n");
    expected.push_str("        toolchain: 1.73\n");
    expected.push_str("        profile: minimal\n");
    expected.push_str("    - uses: Swatinem/rust-cache@v2\n");
    assert_eq!(w.render(), expected);
}

#[test]
fn triggers_render_with_branch_filters() {
    let w = workflow("w").on(vec![
        push().branch("main").branch("dev").into_event(),
        pull_request().into_event(),
    ]);
    let expected = format!(
        "{}name: w\non:\n  push:\n    branches:\n    - main\n    - dev\n  pull_request:\njobs:\n",
        HEADER
    );
    assert_eq!(w.render(), expected);
}

#[test]
fn rendering_is_deterministic_and_check_accepts_fresh_output() {
    let build = || {
        CI::named("ci-tests")
            .job(Tasks::new("tests", Platform::UbuntuLatest, rust_toolchain("1.73")).cmd("cargo", &["test"]))
            .into_workflow()
    };
    let first = build().render();
    let second = build().render();
    assert_eq!(first, second);
    let w = build();
    let r = w.write(true, Some(first.as_str()));
    assert!(matches!(r, Ok(None)));
}

#[test]
fn matrix_workflow_has_one_job_key_per_platform() {
    let mut ci = CI::named("ci-tests");
    for platform in Platform::latest() {
        ci.add_job(
            Tasks::new("tests", platform, rust_toolchain("1.73")).cmd("cargo", &["test"]),
        );
    }
    let mut setup = String::new();
    setup.push_str("    - uses: actions/checkout@v3\n");
    setup.push_str("    - uses: ructions/toolchain@v2\n");
    setup.push_str("      with:\n");
    setup.push_str("        toolchain: 1.73\n");
    setup.push_str("    - uses: Swatinem/rust-cache@v2\n");
    let mut expected = format!("{}name: ci-tests\non:\njobs:\n", HEADER);
    for slug in ["ubuntu-latest", "macos-latest", "windows-latest"] {
        expected.push_str(&format!(
            "  tests-{}:\n    runs-on: {}\n    steps:\n{}    - run: cargo test\n",
            slug, slug, setup
        ));
    }
    assert_eq!(ci.into_workflow().render(), expected);
}

#[test]
fn empty_step_list_renders_an_empty_steps_block() {
    let w = workflow("w")
        .job("a", Platform::UbuntuLatest, vec![])
        .job("b", Platform::WindowsLatest, vec![]);
    let expected = format!(
        "{}name: w\non:\njobs:\n  a-ubuntu-latest:\n    runs-on: ubuntu-latest\n    steps:\n  b-windows-latest:\n    runs-on: windows-latest\n    steps:\n",
        HEADER
    );
    assert_eq!(w.render(), expected);
}

#[test]
fn workflow_path_derives_from_the_name() {
    let w = workflow("ci-tests");
    assert_eq!(w.path(), ".github/workflows/ci-tests.yml");
}

#[test]
fn standard_workflow_builds_the_full_matrix() {
    let ci = CI::standard_workflow(StandardVersions::default(), &[("extra", "packages/extra")]);
    let text = ci.into_workflow().render();
    for key in [
        "  tests-ubuntu-latest:",
        "  tests-macos-latest:",
        "  tests-windows-latest:",
        "  tests-extra-ubuntu-latest:",
        "  release-tests-ubuntu-latest:",
        "  release-tests-extra-windows-latest:",
        "  lints-ubuntu-latest:",
    ] {
        assert!(text.contains(key), "missing job key {key}");
    }
    assert!(text.contains("name: tests\n"));
    assert!(text.contains("  push:\n  pull_request:\n"));
    assert!(text.contains("    - run: cargo xtask codegen --check\n"));
    assert!(text.contains("    - run: cargo install cargo-udeps --locked --version 0.1.43\n"));
    assert!(text.contains("    - working-directory: packages/extra\n      run: cargo udeps --all-targets\n"));
    assert!(text.contains("        toolchain: nightly-2023-10-14\n"));
}

#[test]
fn standard_versions_default_values() {
    let v = StandardVersions::default();
    assert_eq!(v.rustc_stable_version, "1.73");
    assert_eq!(v.rustc_nightly_version, "nightly-2023-10-14");
    assert_eq!(v.udeps_version, "0.1.43");
}

#[test]
fn basic_tests_builds_the_legacy_matrix() {
    let w = basic_tests("1.73", "nightly-2023-10-14", "0.1.43");
    let text = w.render();
    assert!(text.starts_with(HEADER));
    assert!(text.contains("name: basic-tests\n"));
    for key in [
        "  stable-ubuntu-latest:",
        "  stable-macos-latest:",
        "  stable-windows-latest:",
        "  nightly-ubuntu-latest:",
    ] {
        assert!(text.contains(key), "missing job key {key}");
    }
    assert!(text.contains("    - run: cargo clippy --all-targets -- -D warnings -D clippy::all\n"));
    assert!(text.contains("    - run: cargo xtask ci nightly\n"));
    assert!(text.contains("    - run: cargo install cargo-udeps --locked --version 0.1.43\n"));
}
