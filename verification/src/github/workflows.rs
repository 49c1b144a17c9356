//! A ready-made workflow: the basic test matrix.

use vstd::prelude::*;

verus! {

use crate::ci::lints_rust;
use crate::ci::stable_rust;
use crate::github::actions::CmdV;
use crate::github::actions::EventV;
use crate::github::actions::JobV;
use crate::github::actions::Platform;
use crate::github::actions::RunScriptV;
use crate::github::actions::RunV;
use crate::github::actions::Step;
use crate::github::actions::StepV;
use crate::github::actions::Workflow;
use crate::github::actions::WorkflowV;
use crate::github::actions::install;
use crate::github::actions::install_step;
use crate::github::actions::install_rust;
use crate::github::actions::install_rust_step;
use crate::github::actions::lemma_steps_view;
use crate::github::actions::pull_request;
use crate::github::actions::push;
use crate::github::actions::run;
use crate::github::actions::rust_toolchain;
use crate::github::actions::steps_view;
use crate::github::actions::workflow;

/// The step running one pre-formed command line.
pub open spec fn run_line(line: Seq<char>) -> StepV {
    StepV::Run(
        RunV {
            script: RunScriptV::Single(CmdV { program: line, args: Seq::empty() }),
            directory: Option::None,
        },
    )
}

/// The steps of one stable-toolchain job of the basic test matrix.
pub open spec fn basic_stable_steps(stable_rustc_version: Seq<char>) -> Seq<StepV> {
    seq![
        install_rust_step(stable_rust(stable_rustc_version)),
        run_line("cargo clippy --all-targets -- -D warnings -D clippy::all"@),
        run_line("cargo test"@),
        run_line("cargo build --all-targets"@),
        run_line("cargo doc"@),
        run_line("cargo test --benches --tests --release"@),
    ]
}

/// The steps of the nightly-toolchain job of the basic test matrix.
pub open spec fn basic_nightly_steps(
    nightly_rustc_version: Seq<char>,
    udeps_version: Seq<char>,
) -> Seq<StepV> {
    seq![
        install_rust_step(lints_rust(nightly_rustc_version)),
        run_line("cargo fmt --all -- --check"@),
        install_step("cargo-udeps"@, udeps_version),
        run_line("cargo xtask ci nightly"@),
        run_line("cargo udeps --all-targets"@),
    ]
}

/// One stable job per platform, in matrix order.
pub open spec fn basic_stable_jobs(
    stable_rustc_version: Seq<char>,
    ps: Seq<Platform>,
) -> Seq<JobV>
    decreases ps.len(),
{
    if ps.len() == 0 {
        Seq::empty()
    } else {
        basic_stable_jobs(stable_rustc_version, ps.drop_last()).push(
            JobV {
                name: "stable"@,
                runs_on: ps.last(),
                steps: basic_stable_steps(stable_rustc_version),
            },
        )
    }
}

/// The whole basic test matrix: a stable job on every platform, then one
/// nightly lint job.
pub open spec fn basic_tests_workflow(
    stable_rustc_version: Seq<char>,
    nightly_rustc_version: Seq<char>,
    udeps_version: Seq<char>,
) -> WorkflowV {
    WorkflowV {
        name: "basic-tests"@,
        triggers: seq![EventV::Push(Seq::empty()), EventV::PullRequest],
        jobs: basic_stable_jobs(
            stable_rustc_version,
            seq![Platform::UbuntuLatest, Platform::MacOSLatest, Platform::WindowsLatest],
        ).push(
            JobV {
                name: "nightly"@,
                runs_on: Platform::UbuntuLatest,
                steps: basic_nightly_steps(nightly_rustc_version, udeps_version),
            },
        ),
    }
}

fn stable_steps_exec(stable_rustc_version: &str) -> (r: Vec<Step>)
    ensures
        steps_view(r@) == basic_stable_steps(stable_rustc_version@),
{
    let mut steps: Vec<Step> = Vec::new();
    steps.push(
        install_rust(rust_toolchain(stable_rustc_version).minimal().default().clippy()),
    );
    steps.push(run("cargo clippy --all-targets -- -D warnings -D clippy::all").into_step());
    steps.push(run("cargo test").into_step());
    steps.push(run("cargo build --all-targets").into_step());
    steps.push(run("cargo doc").into_step());
    steps.push(run("cargo test --benches --tests --release").into_step());
    proof {
        lemma_steps_view(steps@);
        assert(install_rust_step(
            crate::github::actions::RustV {
                toolchain: stable_rustc_version@,
                profile: Option::Some("minimal"@),
                default: true,
                components: Seq::<Seq<char>>::empty().push("clippy"@),
                targets: Option::None,
            },
        ) =~~= install_rust_step(stable_rust(stable_rustc_version@)));
        assert(steps_view(steps@) =~~= basic_stable_steps(stable_rustc_version@));
    }
    steps
}

fn nightly_steps_exec(nightly_rustc_version: &str, udeps_version: &str) -> (r: Vec<Step>)
    ensures
        steps_view(r@) == basic_nightly_steps(nightly_rustc_version@, udeps_version@),
{
    let mut steps: Vec<Step> = Vec::new();
    steps.push(
        install_rust(rust_toolchain(nightly_rustc_version).minimal().default().rustfmt()),
    );
    steps.push(run("cargo fmt --all -- --check").into_step());
    steps.push(install("cargo-udeps", udeps_version));
    steps.push(run("cargo xtask ci nightly").into_step());
    steps.push(run("cargo udeps --all-targets").into_step());
    proof {
        lemma_steps_view(steps@);
        assert(install_rust_step(
            crate::github::actions::RustV {
                toolchain: nightly_rustc_version@,
                profile: Option::Some("minimal"@),
                default: true,
                components: Seq::<Seq<char>>::empty().push("rustfmt"@),
                targets: Option::None,
            },
        ) =~~= install_rust_step(lints_rust(nightly_rustc_version@)));
        assert(steps_view(steps@) =~~= basic_nightly_steps(
            nightly_rustc_version@,
            udeps_version@,
        ));
    }
    steps
}

/// Builds the basic test matrix: for every platform one stable job
/// running lint, tests, build, docs and release tests, then a single
/// nightly job running the formatting check and the unused-dependency
/// scan, all triggered by any push or pull request.
pub fn basic_tests(
    stable_rustc_version: &str,
    nightly_rustc_version: &str,
    udeps_version: &str,
) -> (r: Workflow)
    ensures
        r@ == basic_tests_workflow(stable_rustc_version@, nightly_rustc_version@, udeps_version@),
{
    let mut events: Vec<crate::github::actions::Event> = Vec::new();
    events.push(push().into_event());
    events.push(pull_request().into_event());
    let mut w = workflow("basic-tests").on(events);
    proof {
        assert(w@.triggers =~~= seq![EventV::Push(Seq::<Seq<char>>::empty()), EventV::PullRequest]);
        assert(w@.jobs =~~= Seq::<JobV>::empty());
    }
    let platforms = Platform::latest();
    let ghost ps = platforms@;
    let mut i: usize = 0;
    proof {
        assert(w@.jobs =~~= basic_stable_jobs(stable_rustc_version@, ps.take(0)));
    }
    while i < platforms.len()
        invariant
            i <= platforms.len(),
            ps == platforms@,
            w@.name == "basic-tests"@,
            w@.triggers == seq![EventV::Push(Seq::<Seq<char>>::empty()), EventV::PullRequest],
            w@.jobs == basic_stable_jobs(stable_rustc_version@, ps.take(i as int)),
        decreases platforms.len() - i,
    {
        let p = platforms[i];
        w.add_job("stable", p, stable_steps_exec(stable_rustc_version));
        proof {
            assert(ps.take(i + 1).drop_last() =~~= ps.take(i as int));
            assert(ps.take(i + 1).last() == ps[i as int]);
            assert(w@.jobs =~~= basic_stable_jobs(stable_rustc_version@, ps.take(i + 1)));
        }
        i = i + 1;
    }
    proof {
        assert(ps.take(platforms@.len() as int) =~~= ps);
        assert(ps =~~= seq![
            Platform::UbuntuLatest,
            Platform::MacOSLatest,
            Platform::WindowsLatest,
        ]);
    }
    let r = w.job(
        "nightly",
        Platform::UbuntuLatest,
        nightly_steps_exec(nightly_rustc_version, udeps_version),
    );
    proof {
        assert(r@ =~~= basic_tests_workflow(
            stable_rustc_version@,
            nightly_rustc_version@,
            udeps_version@,
        ));
    }
    r
}

} // verus!
