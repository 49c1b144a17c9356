//! File-update decisions, check mode, copyright ranges and error texts.

use xtask_base::cargo;
use xtask_base::cargo_nightly;
use xtask_base::copyright_range;
use xtask_base::github::actions::rust_toolchain;
use xtask_base::github::actions::workflow;
use xtask_base::github::actions::Platform;
use xtask_base::shell;
use xtask_base::text::normalize;
use xtask_base::update_file;
use xtask_base::WorkflowError;

#[test]
fn outside_check_mode_the_caller_is_told_to_write() {
    assert_eq!(update_file("a.txt", "hello\n", false, None), Ok(true));
    assert_eq!(update_file("a.txt", "hello\n", false, Some("other")), Ok(true));
}

#[test]
fn check_mode_accepts_matching_content() {
    assert_eq!(update_file("a.txt", "a\nb\n", true, Some("a\nb\n")), Ok(false));
}

#[test]
fn check_mode_ignores_line_ending_differences() {
    assert_eq!(update_file("a.txt", "a\nb\n", true, Some("a\r\nb\r\n")), Ok(false));
    assert_eq!(update_file("a.txt", "a\nb", true, Some("a\nb\n")), Ok(false));
    assert_eq!(update_file("a.txt", "a\r\nb", true, Some("a\nb")), Ok(false));
}

#[test]
fn check_mode_rejects_different_content_naming_the_path() {
    match update_file("dir/a.txt", "new", true, Some("old")) {
        Err(WorkflowError::CheckFailed { path }) => {
            assert_eq!(path, "dir/a.txt");
            let e = WorkflowError::CheckFailed { path };
            assert_eq!(e.message(), "Differences found in file \"dir/a.txt\"");
        },
        _ => panic!("expected a check failure"),
    }
}

#[test]
fn check_mode_reports_an_unreadable_file() {
    match update_file("gone.txt", "new", true, None) {
        Err(WorkflowError::MissingFile { path }) => {
            assert_eq!(path, "gone.txt");
            let e = WorkflowError::MissingFile { path };
            assert_eq!(e.message(), "Could not read file \"gone.txt\"");
        },
        _ => panic!("expected a missing-file error"),
    }
}

#[test]
fn normalization_collapses_crlf_and_one_trailing_newline() {
    assert_eq!(normalize("a\r\nb\r\n"), "a\nb");
    assert_eq!(normalize("a\nb\n\n"), "a\nb\n");
    assert_eq!(normalize("a\rb"), "a\rb");
    assert_eq!(normalize(""), "");
    assert_eq!(normalize("\n"), "");
}

#[test]
fn workflow_check_mode_never_touches_the_file() {
    let w = workflow("ci-tests").job("j", Platform::UbuntuLatest, vec![]);
    match w.write(true, Some("something stale")) {
        Err(WorkflowError::CheckFailed { path }) => {
            assert_eq!(path, ".github/workflows/ci-tests.yml");
        },
        _ => panic!("expected a check failure"),
    }
    match w.write(true, None) {
        Err(WorkflowError::MissingFile { path }) => {
            assert_eq!(path, ".github/workflows/ci-tests.yml");
        },
        _ => panic!("expected a missing-file error"),
    }
    let fresh = w.render();
    assert!(matches!(w.write(true, Some(fresh.as_str())), Ok(None)));
}

#[test]
fn workflow_write_mode_hands_back_the_rendered_text() {
    let w = workflow("ci-tests").job("j", Platform::UbuntuLatest, vec![]);
    let rendered = w.render();
    match w.write(false, None) {
        Ok(Some(contents)) => assert_eq!(contents, rendered),
        _ => panic!("expected the rendered text"),
    }
}

#[test]
fn copyright_range_collapses_equal_years() {
    assert_eq!(copyright_range(2021, 2021), "2021");
    assert_eq!(copyright_range(2021, 2024), "2021-2024");
    assert_eq!(copyright_range(998, 2024), "998-2024");
    assert_eq!(copyright_range(-44, 14), "-44-14");
    assert_eq!(copyright_range(0, 0), "0");
}

#[test]
fn command_failures_carry_the_command_line() {
    let e = WorkflowError::CommandFailed { command: "cargo test".to_owned() };
    assert_eq!(e.message(), "Command failed: cargo test");
}

#[test]
fn shell_reports_the_exit_status() {
    assert!(shell("exit 0").is_ok());
    match shell("exit 3") {
        Err(WorkflowError::CommandFailed { command }) => assert_eq!(command, "exit 3"),
        _ => panic!("expected a command failure"),
    }
}

#[test]
fn cargo_helpers_prefix_the_command_line() {
    match cargo("definitely-not-a-cargo-subcommand") {
        Err(WorkflowError::CommandFailed { command }) => {
            assert_eq!(command, "cargo definitely-not-a-cargo-subcommand")
        },
        _ => panic!("expected a command failure"),
    }
    match cargo_nightly("definitely-not-a-cargo-subcommand") {
        Err(WorkflowError::CommandFailed { command }) => {
            assert_eq!(command, "cargo +nightly definitely-not-a-cargo-subcommand")
        },
        _ => panic!("expected a command failure"),
    }
}

#[test]
fn nightly_versions_flow_from_the_toolchain_to_the_task() {
    assert!(rust_toolchain("nightly-2025-03-15").is_nightly());
}
