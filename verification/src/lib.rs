//! A developer-workflow automation library built around a small CI model.
//!
//! The heart of the crate is a builder for continuous-integration
//! workflows: a `Workflow` aggregates named, platform-tagged jobs made of
//! `Step`s, and the same in-memory model has two back ends — it can be
//! rendered to the CI platform's declarative configuration text, or executed
//! directly on the local machine, filtered to the platform the process runs
//! on.  Every rendering and every execution plan is specified exactly.

use vstd::prelude::*;

pub mod ci;
pub mod github;
pub mod text;

verus! {

use crate::text::normalized;
use crate::text::norm_eq;

/// The error values surfaced by this library.  The process boundary is
/// expected to print `message()` and terminate with a non-zero status.
#[derive(Debug, PartialEq, Eq)]
pub enum WorkflowError {
    /// A subprocess could not be spawned or exited with a non-zero status.
    CommandFailed { command: String },
    /// Check mode found the on-disk content out of date.
    CheckFailed { path: String },
    /// Check mode could not read the file it was asked to compare against.
    MissingFile { path: String },
}

/// The result type used throughout the library.
pub type WorkflowResult<T> = Result<T, WorkflowError>;

/// The mathematical model of a [`WorkflowError`].
pub enum WorkflowErrorV {
    CommandFailed { command: Seq<char> },
    CheckFailed { path: Seq<char> },
    MissingFile { path: Seq<char> },
}

impl View for WorkflowError {
    type V = WorkflowErrorV;

    open spec fn view(&self) -> WorkflowErrorV {
        match self {
            WorkflowError::CommandFailed { command } => WorkflowErrorV::CommandFailed {
                command: command@,
            },
            WorkflowError::CheckFailed { path } => WorkflowErrorV::CheckFailed { path: path@ },
            WorkflowError::MissingFile { path } => WorkflowErrorV::MissingFile { path: path@ },
        }
    }
}

impl DeepView for WorkflowError {
    type V = WorkflowErrorV;

    open spec fn deep_view(&self) -> WorkflowErrorV {
        self.view()
    }
}

/// What [`WorkflowError::message`] says for each error.
pub open spec fn error_message(e: WorkflowErrorV) -> Seq<char> {
    match e {
        WorkflowErrorV::CommandFailed { command } => "Command failed: "@ + command,
        WorkflowErrorV::CheckFailed { path } => "Differences found in file \""@ + path + "\""@,
        WorkflowErrorV::MissingFile { path } => "Could not read file \""@ + path + "\""@,
    }
}

impl WorkflowError {
    /// A human-readable description of the error.  A check-mode mismatch
    /// names the offending path, so the user can tell content drift from a
    /// missing-file problem.
    pub fn message(&self) -> (r: String)
        ensures
            r@ == error_message(self@),
    {
        let mut s = String::new();
        match self {
            WorkflowError::CommandFailed { command } => {
                s.append("Command failed: ");
                s.append(command.as_str());
            },
            WorkflowError::CheckFailed { path } => {
                s.append("Differences found in file \"");
                s.append(path.as_str());
                s.append("\"");
            },
            WorkflowError::MissingFile { path } => {
                s.append("Could not read file \"");
                s.append(path.as_str());
                s.append("\"");
            },
        }
        s
    }
}

/// The view of an exec `Result` whose error is a [`WorkflowError`].
pub open spec fn result_view<T: DeepView>(r: Result<T, WorkflowError>) -> Result<
    T::V,
    WorkflowErrorV,
> {
    match r {
        Result::Ok(t) => Result::Ok(t.deep_view()),
        Result::Err(e) => Result::Err(e@),
    }
}

/// The view of the optional on-disk content handed to check mode.
pub open spec fn opt_str_view(existing: Option<&str>) -> Option<Seq<char>> {
    match existing {
        Option::Some(s) => Option::Some(s@),
        Option::None => Option::None,
    }
}

/// What [`update_file`] decides, as a function of its inputs.  `Ok(true)`
/// means the caller should write `contents` to `path`; `Ok(false)` means
/// check mode found the file up to date and nothing must be written.
pub open spec fn update_decision(
    path: Seq<char>,
    contents: Seq<char>,
    check: bool,
    existing: Option<Seq<char>>,
) -> Result<bool, WorkflowErrorV> {
    if check {
        match existing {
            Option::None => Result::Err(WorkflowErrorV::MissingFile { path }),
            Option::Some(on_disk) => if normalized(on_disk) == normalized(contents) {
                Result::Ok(false)
            } else {
                Result::Err(WorkflowErrorV::CheckFailed { path })
            },
        }
    } else {
        Result::Ok(true)
    }
}

/// The decision half of the "render, then check-or-write" primitive.
///
/// In check mode the caller passes the current on-disk content of `path`
/// (`None` when the file could not be read); the comparison ignores
/// line-ending differences.  Check mode never asks for a write, so a
/// failing check leaves the filesystem untouched.  Outside check mode the
/// caller is always told to write `contents`.
pub fn update_file(path: &str, contents: &str, check: bool, existing: Option<&str>) -> (r: Result<
    bool,
    WorkflowError,
>)
    ensures
        result_view(r) == update_decision(path@, contents@, check, opt_str_view(existing)),
{
    if check {
        match existing {
            Option::None => Result::Err(WorkflowError::MissingFile { path: path.to_owned() }),
            Option::Some(on_disk) => {
                if norm_eq(on_disk, contents) {
                    Result::Ok(false)
                } else {
                    Result::Err(WorkflowError::CheckFailed { path: path.to_owned() })
                }
            },
        }
    } else {
        Result::Ok(true)
    }
}

// ---------------------------------------------------------------------------
// Shell-driven checks
// ---------------------------------------------------------------------------

/// Relies on execute::shell: builds a command that runs the given command
/// line through the system shell; waiting on it reports whether it exited
/// successfully.
#[verifier::external_body]
fn shell_status(command: &str) -> Result<bool, std::io::Error> {
    execute::shell(command).status().map(|s| s.success())
}

/// Runs a command line through the system shell.  Whether it succeeds
/// depends on the machine; whatever comes back, a failure is reported as
/// a command failure naming the exact command line.
pub fn shell(command: &str) -> (r: WorkflowResult<()>)
    ensures
        r matches Err(e) ==> e@ == (WorkflowErrorV::CommandFailed { command: command@ }),
{
    match shell_status(command) {
        Result::Ok(true) => Result::Ok(()),
        Result::Ok(false) => Result::Err(
            WorkflowError::CommandFailed { command: command.to_owned() },
        ),
        Result::Err(_) => Result::Err(
            WorkflowError::CommandFailed { command: command.to_owned() },
        ),
    }
}

/// Runs `cargo` with the given pre-formed argument text through the
/// shell.
pub fn cargo(cmd: &str) -> (r: WorkflowResult<()>)
    ensures
        r matches Err(e) ==> e@ == (WorkflowErrorV::CommandFailed { command: "cargo "@ + cmd@ }),
{
    let mut line = String::new();
    line.append("cargo ");
    line.append(cmd);
    shell(line.as_str())
}

/// Runs `cargo` under the nightly toolchain with the given pre-formed
/// argument text.
pub fn cargo_nightly(cmd: &str) -> (r: WorkflowResult<()>)
    ensures
        r matches Err(e) ==> e@ == (WorkflowErrorV::CommandFailed {
            command: "cargo +nightly "@ + cmd@,
        }),
{
    let mut line = String::new();
    line.append("cargo +nightly ");
    line.append(cmd);
    shell(line.as_str())
}

/// True when `e` reports the failure of one of the given command lines.
pub open spec fn failure_among(e: WorkflowErrorV, commands: Seq<Seq<char>>) -> bool {
    exists|i: int|
        0 <= i < commands.len() && e == (WorkflowErrorV::CommandFailed {
            command: #[trigger] commands[i],
        })
}

/// The exact command lines the fast stable checks run, in order.
pub open spec fn ci_fast_commands() -> Seq<Seq<char>> {
    seq![
        "cargo clippy --all-targets -- -D warnings -D clippy::all"@,
        "cargo test"@,
        "cargo build --all-targets"@,
        "cargo doc"@,
    ]
}

/// The exact command lines all stable checks run, in order.
pub open spec fn ci_stable_commands() -> Seq<Seq<char>> {
    ci_fast_commands().push("cargo test --benches --tests --release"@)
}

/// The exact command lines the nightly-only checks run, in order.
pub open spec fn ci_nightly_commands() -> Seq<Seq<char>> {
    seq!["cargo +nightly fmt --all --check"@, "cargo +nightly udeps --all-targets"@]
}

/// The exact command lines the whole check sequence runs, in order.
pub open spec fn ci_commands() -> Seq<Seq<char>> {
    ci_stable_commands() + ci_nightly_commands()
}

fn cargo_udeps() -> (r: WorkflowResult<()>)
    ensures
        r matches Err(e) ==> e@ == (WorkflowErrorV::CommandFailed {
            command: "cargo +nightly udeps --all-targets"@,
        }),
{
    let r = cargo_nightly("udeps --all-targets");
    proof {
        reveal_strlit("cargo +nightly ");
        reveal_strlit("udeps --all-targets");
        reveal_strlit("cargo +nightly udeps --all-targets");
        assert("cargo +nightly "@ + "udeps --all-targets"@
            =~= "cargo +nightly udeps --all-targets"@);
    }
    r
}

fn cargo_fmt() -> (r: WorkflowResult<()>)
    ensures
        r matches Err(e) ==> e@ == (WorkflowErrorV::CommandFailed {
            command: "cargo +nightly fmt --all"@,
        }),
{
    let r = cargo_nightly("fmt --all");
    proof {
        reveal_strlit("cargo +nightly ");
        reveal_strlit("fmt --all");
        reveal_strlit("cargo +nightly fmt --all");
        assert("cargo +nightly "@ + "fmt --all"@ =~= "cargo +nightly fmt --all"@);
    }
    r
}

/// The nightly-only checks: the formatting check, then the
/// unused-dependency scan.  The first failure aborts the rest and names
/// the exact command line that failed.
pub fn ci_nightly() -> (r: WorkflowResult<()>)
    ensures
        r matches Err(e) ==> failure_among(e@, ci_nightly_commands()),
{
    proof {
        reveal_strlit("cargo +nightly ");
        reveal_strlit("fmt --all --check");
        reveal_strlit("cargo +nightly fmt --all --check");
        assert("cargo +nightly "@ + "fmt --all --check"@
            =~= "cargo +nightly fmt --all --check"@);
        assert(ci_nightly_commands()[0] == "cargo +nightly fmt --all --check"@);
        assert(ci_nightly_commands()[1] == "cargo +nightly udeps --all-targets"@);
    }
    match cargo_nightly("fmt --all --check") {
        Result::Ok(()) => cargo_udeps(),
        Result::Err(e) => Result::Err(e),
    }
}

/// The fast stable checks: lint, unit tests, full build, documentation
/// build.  The first failure aborts the rest and names the exact command
/// line that failed.
pub fn ci_fast() -> (r: WorkflowResult<()>)
    ensures
        r matches Err(e) ==> failure_among(e@, ci_fast_commands()),
{
    proof {
        reveal_strlit("cargo ");
        reveal_strlit("clippy --all-targets -- -D warnings -D clippy::all");
        reveal_strlit("cargo clippy --all-targets -- -D warnings -D clippy::all");
        reveal_strlit("test");
        reveal_strlit("cargo test");
        reveal_strlit("build --all-targets");
        reveal_strlit("cargo build --all-targets");
        reveal_strlit("doc");
        reveal_strlit("cargo doc");
        assert("cargo "@ + "clippy --all-targets -- -D warnings -D clippy::all"@
            =~= "cargo clippy --all-targets -- -D warnings -D clippy::all"@);
        assert("cargo "@ + "test"@ =~= "cargo test"@);
        assert("cargo "@ + "build --all-targets"@ =~= "cargo build --all-targets"@);
        assert("cargo "@ + "doc"@ =~= "cargo doc"@);
        assert(ci_fast_commands()[0]
            == "cargo clippy --all-targets -- -D warnings -D clippy::all"@);
        assert(ci_fast_commands()[1] == "cargo test"@);
        assert(ci_fast_commands()[2] == "cargo build --all-targets"@);
        assert(ci_fast_commands()[3] == "cargo doc"@);
    }
    match cargo("clippy --all-targets -- -D warnings -D clippy::all") {
        Result::Ok(()) => {},
        Result::Err(e) => {
            return Result::Err(e);
        },
    }
    match cargo("test") {
        Result::Ok(()) => {},
        Result::Err(e) => {
            return Result::Err(e);
        },
    }
    match cargo("build --all-targets") {
        Result::Ok(()) => {},
        Result::Err(e) => {
            return Result::Err(e);
        },
    }
    cargo("doc")
}

/// All stable checks: the fast ones, then the release-mode tests.  The
/// first failure aborts the rest and names the exact command line that
/// failed.
pub fn ci_stable() -> (r: WorkflowResult<()>)
    ensures
        r matches Err(e) ==> failure_among(e@, ci_stable_commands()),
{
    match ci_fast() {
        Result::Ok(()) => {
            let r = cargo("test --benches --tests --release");
            proof {
                reveal_strlit("cargo ");
                reveal_strlit("test --benches --tests --release");
                reveal_strlit("cargo test --benches --tests --release");
                assert("cargo "@ + "test --benches --tests --release"@
                    =~= "cargo test --benches --tests --release"@);
                assert(ci_stable_commands()[4] == "cargo test --benches --tests --release"@);
            }
            r
        },
        Result::Err(e) => {
            proof {
                let k = choose|k: int|
                    0 <= k < ci_fast_commands().len() && e@ == (WorkflowErrorV::CommandFailed {
                        command: ci_fast_commands()[k],
                    });
                assert(ci_stable_commands()[k] == ci_fast_commands()[k]);
            }
            Result::Err(e)
        },
    }
}

/// Every check: stable, then nightly.  The first failure aborts the rest
/// and names the exact command line that failed.
pub fn ci() -> (r: WorkflowResult<()>)
    ensures
        r matches Err(e) ==> failure_among(e@, ci_commands()),
{
    proof {
        assert(ci_stable_commands().len() == 5);
    }
    match ci_stable() {
        Result::Ok(()) => {
            let r = ci_nightly();
            proof {
                if r is Err {
                    let e = r->Err_0;
                    let k = choose|k: int|
                        0 <= k < ci_nightly_commands().len() && e@ == (
                        WorkflowErrorV::CommandFailed { command: ci_nightly_commands()[k] });
                    assert(ci_commands()[5 + k] == ci_nightly_commands()[k]);
                }
            }
            r
        },
        Result::Err(e) => {
            proof {
                let k = choose|k: int|
                    0 <= k < ci_stable_commands().len() && e@ == (WorkflowErrorV::CommandFailed {
                        command: ci_stable_commands()[k],
                    });
                assert(ci_commands()[k] == ci_stable_commands()[k]);
            }
            Result::Err(e)
        },
    }
}

// ---------------------------------------------------------------------------
// The copyright year range
// ---------------------------------------------------------------------------

/// The decimal digit for a value below ten.
pub open spec fn dec_digit(n: int) -> char {
    if n == 0 {
        '0'
    } else if n == 1 {
        '1'
    } else if n == 2 {
        '2'
    } else if n == 3 {
        '3'
    } else if n == 4 {
        '4'
    } else if n == 5 {
        '5'
    } else if n == 6 {
        '6'
    } else if n == 7 {
        '7'
    } else if n == 8 {
        '8'
    } else {
        '9'
    }
}

/// The decimal digits of a non-negative number, most significant first.
pub open spec fn dec_str(n: nat) -> Seq<char>
    decreases n,
{
    if n < 10 {
        seq![dec_digit(n as int)]
    } else {
        dec_str(n / 10).push(dec_digit((n % 10) as int))
    }
}

/// The decimal form of a number, with a leading minus sign when it is
/// negative.
pub open spec fn int_str(n: int) -> Seq<char> {
    if n < 0 {
        seq!['-'] + dec_str((-n) as nat)
    } else {
        dec_str(n as nat)
    }
}

/// The copyright range rendered into generated license text: the start
/// year alone when both years agree, and "start-end" otherwise.
pub open spec fn copyright_range_str(start_year: int, end_year: int) -> Seq<char> {
    if start_year == end_year {
        int_str(start_year)
    } else {
        int_str(start_year) + "-"@ + int_str(end_year)
    }
}

fn digit_str(d: u64) -> (r: &'static str)
    requires
        d < 10,
    ensures
        r@ == seq![dec_digit(d as int)],
{
    proof {
        reveal_strlit("0");
        reveal_strlit("1");
        reveal_strlit("2");
        reveal_strlit("3");
        reveal_strlit("4");
        reveal_strlit("5");
        reveal_strlit("6");
        reveal_strlit("7");
        reveal_strlit("8");
        reveal_strlit("9");
    }
    let r: &'static str = if d == 0 {
        "0"
    } else if d == 1 {
        "1"
    } else if d == 2 {
        "2"
    } else if d == 3 {
        "3"
    } else if d == 4 {
        "4"
    } else if d == 5 {
        "5"
    } else if d == 6 {
        "6"
    } else if d == 7 {
        "7"
    } else if d == 8 {
        "8"
    } else {
        "9"
    };
    proof {
        assert(r@ =~= seq![dec_digit(d as int)]);
    }
    r
}

fn push_digits(n: u64, out: &mut String)
    ensures
        final(out)@ == old(out)@ + dec_str(n as nat),
    decreases n,
{
    if n < 10 {
        out.append(digit_str(n));
    } else {
        push_digits(n / 10, out);
        out.append(digit_str(n % 10));
        proof {
            assert(old(out)@ + dec_str((n / 10) as nat) + seq![dec_digit((n % 10) as int)]
                =~= old(out)@ + dec_str(n as nat));
        }
    }
}

fn push_int(n: i32, out: &mut String)
    ensures
        final(out)@ == old(out)@ + int_str(n as int),
{
    if n < 0 {
        out.append("-");
        let m: u64 = (-(n as i64)) as u64;
        proof {
            reveal_strlit("-");
            assert("-"@ =~= seq!['-']);
            assert(m as nat == (-(n as int)) as nat);
        }
        push_digits(m, out);
        proof {
            assert(old(out)@ + "-"@ + dec_str((-(n as int)) as nat) =~= old(out)@ + int_str(
                n as int,
            ));
        }
    } else {
        push_digits(n as u64, out);
    }
}

/// Renders the copyright year range: the start year alone when both
/// years agree, and "start-end" otherwise.
pub fn copyright_range(start_year: i32, end_year: i32) -> (r: String)
    ensures
        r@ == copyright_range_str(start_year as int, end_year as int),
{
    let mut out = String::new();
    push_int(start_year, &mut out);
    if start_year != end_year {
        out.append("-");
        push_int(end_year, &mut out);
        proof {
            reveal_strlit("-");
            assert("-"@ =~= seq!['-']);
            assert(out@ =~= copyright_range_str(start_year as int, end_year as int));
        }
    }
    out
}

// ---------------------------------------------------------------------------
// Check-mode laws
// ---------------------------------------------------------------------------

/// Check mode against stale on-disk content fails with the error that
/// names the exact file path, and its message spells that path out.
pub proof fn lemma_check_mismatch_names_path(
    path: Seq<char>,
    contents: Seq<char>,
    on_disk: Seq<char>,
)
    requires
        normalized(on_disk) != normalized(contents),
    ensures
        update_decision(path, contents, true, Option::Some(on_disk)) == Result::<
            bool,
            WorkflowErrorV,
        >::Err(WorkflowErrorV::CheckFailed { path }),
        error_message(WorkflowErrorV::CheckFailed { path }) == "Differences found in file \""@
            + path + "\""@,
{
}

/// Check mode on content that matches what was just rendered succeeds
/// without asking for a write.
pub proof fn lemma_check_accepts_fresh_output(path: Seq<char>, contents: Seq<char>)
    ensures
        update_decision(path, contents, true, Option::Some(contents)) == Result::<
            bool,
            WorkflowErrorV,
        >::Ok(false),
{
}

/// Check mode never asks for a write, whatever is on disk: a failing
/// check leaves the filesystem untouched.
pub proof fn lemma_check_never_writes(
    path: Seq<char>,
    contents: Seq<char>,
    existing: Option<Seq<char>>,
)
    ensures
        update_decision(path, contents, true, existing) != Result::<
            bool,
            WorkflowErrorV,
        >::Ok(true),
{
}

} // verus!
