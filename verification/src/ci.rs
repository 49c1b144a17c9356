//! The CI aggregate: named, platform-tagged task lists and the workflow
//! built from them.
//!
//! A [`Tasks`] value is one row of the CI matrix: a named, ordered list of
//! setup steps and runnable commands for one [`Platform`], together with
//! the nightly flag captured from its toolchain.  A [`CI`] aggregates task
//! lists and trigger events, offers the standard presets, and has the two
//! terminal operations: render-and-write and execute-locally.

use vstd::prelude::*;

verus! {

use crate::WorkflowError;
use crate::WorkflowResult;
use crate::github::actions::Event;
use crate::github::actions::EventV;
use crate::github::actions::Platform;
use crate::github::actions::Run;
use crate::github::actions::RunV;
use crate::github::actions::RunScriptV;
use crate::github::actions::Rust;
use crate::github::actions::RustV;
use crate::github::actions::Step;
use crate::github::actions::StepV;
use crate::github::actions::CmdV;
use crate::github::actions::Cmd;
use crate::github::actions::Invocation;
use crate::github::actions::InvocationV;
use crate::github::actions::Workflow;
use crate::github::actions::WorkflowV;
use crate::github::actions::JobV;
use crate::github::actions::cmd;
use crate::github::actions::script;
use crate::github::actions::script_cmds;
use crate::github::actions::install;
use crate::github::actions::install_step;
use crate::github::actions::install_rust;
use crate::github::actions::install_rust_step;
use crate::github::actions::is_nightly_channel;
use crate::github::actions::push;
use crate::github::actions::pull_request;
use crate::github::actions::rust_toolchain;
use crate::github::actions::invocation_failure;
use crate::github::actions::run_invocations;
use crate::github::actions::workflow;
use crate::github::actions::write_plan;

// ---------------------------------------------------------------------------
// Tasks
// ---------------------------------------------------------------------------

enum Task {
    Install(Step),
    Run(Run),
}

/// The mathematical model of one entry of a task list: a setup step, or a
/// runnable command.
#[verifier::ext_equal]
pub enum TaskV {
    Install(StepV),
    Run(RunV),
}

impl View for Task {
    type V = TaskV;

    closed spec fn view(&self) -> TaskV {
        match self {
            Task::Install(s) => TaskV::Install(s@),
            Task::Run(r) => TaskV::Run(r@),
        }
    }
}

impl DeepView for Task {
    type V = TaskV;

    open spec fn deep_view(&self) -> TaskV {
        self.view()
    }
}

/// A named, platform-tagged ordered list of setup steps and runnable
/// commands — one row of the CI matrix.
pub struct Tasks {
    name: String,
    platform: Platform,
    is_nightly: bool,
    tasks: Vec<Task>,
}

/// The mathematical model of a [`Tasks`] value.
#[verifier::ext_equal]
pub struct TasksV {
    pub name: Seq<char>,
    pub platform: Platform,
    pub is_nightly: bool,
    pub tasks: Seq<TaskV>,
}

impl View for Tasks {
    type V = TasksV;

    closed spec fn view(&self) -> TasksV {
        TasksV {
            name: self.name@,
            platform: self.platform,
            is_nightly: self.is_nightly,
            tasks: self.tasks.deep_view(),
        }
    }
}

impl DeepView for Tasks {
    type V = TasksV;

    open spec fn deep_view(&self) -> TasksV {
        self.view()
    }
}

/// A freshly created task list: the toolchain-installation composite is
/// pre-appended as the first entry, and the nightly flag is captured from
/// the toolchain.
pub open spec fn new_tasks(name: Seq<char>, platform: Platform, rust: RustV) -> TasksV {
    TasksV {
        name,
        platform,
        is_nightly: is_nightly_channel(rust.toolchain),
        tasks: seq![TaskV::Install(install_rust_step(rust))],
    }
}

/// The task list `t` with `more` entries appended.
pub open spec fn with_tasks(t: TasksV, more: Seq<TaskV>) -> TasksV {
    TasksV { tasks: t.tasks + more, ..t }
}

impl Tasks {
    /// Creates a task list for one platform, pre-appending the setup
    /// composite for the given toolchain.
    pub fn new(name: &str, platform: Platform, rust: Rust) -> (r: Tasks)
        ensures
            r@ == new_tasks(name@, platform, rust@),
    {
        let ghost rv = rust@;
        let is_nightly = rust.is_nightly();
        let setup = install_rust(rust);
        let mut t = Tasks { name: name.to_owned(), platform, is_nightly, tasks: Vec::new() };
        t.tasks.push(Task::Install(setup));
        proof {
            assert(t.tasks.deep_view() =~~= seq![TaskV::Install(install_rust_step(rv))]);
            assert(t@ =~~= new_tasks(name@, platform, rv));
        }
        t
    }

    /// Appends a setup step in place.
    pub fn add_step(&mut self, step: Step)
        ensures
            final(self)@ == with_tasks(old(self)@, seq![TaskV::Install(step@)]),
    {
        let ghost before = self.tasks.deep_view();
        let ghost sv = step@;
        self.tasks.push(Task::Install(step));
        proof {
            assert(self.tasks.deep_view() =~~= before + seq![TaskV::Install(sv)]);
        }
    }

    /// Appends a setup step, builder style.
    pub fn step(self, step: Step) -> (r: Tasks)
        ensures
            r@ == with_tasks(self@, seq![TaskV::Install(step@)]),
    {
        let mut t = self;
        t.add_step(step);
        t
    }

    /// Appends a setup step when `condition` holds.
    pub fn step_when(self, condition: bool, step: Step) -> (r: Tasks)
        ensures
            r@ == (if condition {
                with_tasks(self@, seq![TaskV::Install(step@)])
            } else {
                self@
            }),
    {
        if condition {
            self.step(step)
        } else {
            self
        }
    }

    /// Appends a runnable command in place.
    pub fn add_run(&mut self, run: Run)
        ensures
            final(self)@ == with_tasks(old(self)@, seq![TaskV::Run(run@)]),
    {
        let ghost before = self.tasks.deep_view();
        let ghost rv = run@;
        self.tasks.push(Task::Run(run));
        proof {
            assert(self.tasks.deep_view() =~~= before + seq![TaskV::Run(rv)]);
        }
    }

    /// Appends a runnable command, builder style.
    pub fn run(self, run: Run) -> (r: Tasks)
        ensures
            r@ == with_tasks(self@, seq![TaskV::Run(run@)]),
    {
        let mut t = self;
        t.add_run(run);
        t
    }

    /// Appends a runnable command when `condition` holds.
    pub fn run_when(self, condition: bool, run: Run) -> (r: Tasks)
        ensures
            r@ == (if condition {
                with_tasks(self@, seq![TaskV::Run(run@)])
            } else {
                self@
            }),
    {
        if condition {
            self.run(run)
        } else {
            self
        }
    }

    /// Appends a single command, builder style.
    pub fn cmd(self, program: &str, args: &[&str]) -> (r: Tasks)
        ensures
            r@ == with_tasks(
                self@,
                seq![
                    TaskV::Run(RunV {
                        script: RunScriptV::Single(
                            CmdV { program: program@, args: args.deep_view() },
                        ),
                        directory: Option::None,
                    }),
                ],
            ),
    {
        self.run(cmd(program, args))
    }

    /// Appends a single command in place.
    pub fn add_cmd(&mut self, program: &str, args: &[&str])
        ensures
            final(self)@ == with_tasks(
                old(self)@,
                seq![
                    TaskV::Run(RunV {
                        script: RunScriptV::Single(
                            CmdV { program: program@, args: args.deep_view() },
                        ),
                        directory: Option::None,
                    }),
                ],
            ),
    {
        self.add_run(cmd(program, args));
    }

    /// Appends a multi-command script, builder style.  Every line must
    /// name a program.
    pub fn script(self, lines: &[&[&str]]) -> (r: Tasks)
        requires
            forall|i: int| 0 <= i < lines@.len() ==> lines@[i]@.len() > 0,
        ensures
            r@ == with_tasks(
                self@,
                seq![
                    TaskV::Run(RunV {
                        script: RunScriptV::Multi(script_cmds(lines.deep_view())),
                        directory: Option::None,
                    }),
                ],
            ),
    {
        self.run(script(lines))
    }

    /// Appends a multi-command script in place.  Every line must name a
    /// program.
    pub fn add_script(&mut self, lines: &[&[&str]])
        requires
            forall|i: int| 0 <= i < lines@.len() ==> lines@[i]@.len() > 0,
        ensures
            final(self)@ == with_tasks(
                old(self)@,
                seq![
                    TaskV::Run(RunV {
                        script: RunScriptV::Multi(script_cmds(lines.deep_view())),
                        directory: Option::None,
                    }),
                ],
            ),
    {
        self.add_run(script(lines));
    }

    /// Hands the receiver to `f` and returns what `f` returns.
    pub fn apply<T, F: FnOnce(Tasks) -> T>(self, f: F) -> (r: T)
        requires
            call_requires(f, (self,)),
        ensures
            call_ensures(f, (self,), r),
    {
        f(self)
    }
}

// ---------------------------------------------------------------------------
// The preset commands
// ---------------------------------------------------------------------------

/// The codegen-check command.
pub open spec fn codegen_cmd() -> CmdV {
    CmdV { program: "cargo"@, args: seq!["xtask"@, "codegen"@, "--check"@] }
}

/// The deny-all-warnings lint command.
pub open spec fn clippy_cmd() -> CmdV {
    CmdV {
        program: "cargo"@,
        args: seq![
            "clippy"@,
            "--all-targets"@,
            "--"@,
            "-D"@,
            "warnings"@,
            "-D"@,
            "clippy::all"@,
        ],
    }
}

/// The unit-test command.
pub open spec fn test_cmd() -> CmdV {
    CmdV { program: "cargo"@, args: seq!["test"@] }
}

/// The full-build command.
pub open spec fn build_cmd() -> CmdV {
    CmdV { program: "cargo"@, args: seq!["build"@, "--all-targets"@] }
}

/// The documentation-build command.
pub open spec fn doc_cmd() -> CmdV {
    CmdV { program: "cargo"@, args: seq!["doc"@] }
}

/// The release-mode test command.
pub open spec fn release_test_cmd() -> CmdV {
    CmdV { program: "cargo"@, args: seq!["test"@, "--benches"@, "--tests"@, "--release"@] }
}

/// The formatting-check command.
pub open spec fn fmt_check_cmd() -> CmdV {
    CmdV { program: "cargo"@, args: seq!["fmt"@, "--all"@, "--"@, "--check"@] }
}

/// The unused-dependency scan command.
pub open spec fn udeps_cmd() -> CmdV {
    CmdV { program: "cargo"@, args: seq!["udeps"@, "--all-targets"@] }
}

/// A run entry for one command in an optional working directory.
pub open spec fn run_task(c: CmdV, dir: Option<Seq<char>>) -> TaskV {
    TaskV::Run(RunV { script: RunScriptV::Single(c), directory: dir })
}

/// The four test-preset commands — lint, test, build, docs — each in the
/// given directory.
pub open spec fn tests_steps(dir: Option<Seq<char>>) -> Seq<TaskV> {
    seq![
        run_task(clippy_cmd(), dir),
        run_task(test_cmd(), dir),
        run_task(build_cmd(), dir),
        run_task(doc_cmd(), dir),
    ]
}

/// One run entry per directory, for the same command.
pub open spec fn dir_run_tasks(c: CmdV, dirs: Seq<Seq<char>>) -> Seq<TaskV>
    decreases dirs.len(),
{
    if dirs.len() == 0 {
        Seq::empty()
    } else {
        dir_run_tasks(c, dirs.drop_last()).push(run_task(c, Option::Some(dirs.last())))
    }
}

/// What the lint preset appends: the formatting check (repeated per extra
/// directory), the scanner installation, then the unused-dependency scan
/// (repeated per extra directory).
pub open spec fn lints_tasks(udeps_version: Seq<char>, dirs: Seq<Seq<char>>) -> Seq<TaskV> {
    seq![run_task(fmt_check_cmd(), Option::None)] + dir_run_tasks(fmt_check_cmd(), dirs) + seq![
        TaskV::Install(install_step("cargo-udeps"@, udeps_version)),
        run_task(udeps_cmd(), Option::None),
    ] + dir_run_tasks(udeps_cmd(), dirs)
}

impl Tasks {
    /// Appends the codegen check.
    pub fn codegen(self) -> (r: Tasks)
        ensures
            r@ == with_tasks(self@, seq![run_task(codegen_cmd(), Option::None)]),
    {
        let c = Cmd::new("cargo").arg("xtask").arg("codegen").arg("--check");
        proof {
            assert(c@ =~~= codegen_cmd());
        }
        self.run(c.into_run())
    }

    /// Appends the test preset: lint, unit tests, full build and
    /// documentation build, each scoped to `workspace_dir` when one is
    /// given.
    pub fn tests(self, workspace_dir: Option<&str>) -> (r: Tasks)
        ensures
            r@ == with_tasks(self@, tests_steps(crate::opt_str_view(workspace_dir))),
    {
        let ghost orig = self@;
        let ghost dirv = crate::opt_str_view(workspace_dir);
        let c1 = Cmd::new("cargo").arg("clippy").arg("--all-targets").arg("--").arg("-D").arg(
            "warnings",
        ).arg("-D").arg("clippy::all").into_run();
        let c2 = Cmd::new("cargo").arg("test").into_run();
        let c3 = Cmd::new("cargo").arg("build").arg("--all-targets").into_run();
        let c4 = Cmd::new("cargo").arg("doc").into_run();
        proof {
            assert(c1@.script =~~= RunScriptV::Single(clippy_cmd()));
            assert(c2@.script =~~= RunScriptV::Single(test_cmd()));
            assert(c3@.script =~~= RunScriptV::Single(build_cmd()));
            assert(c4@.script =~~= RunScriptV::Single(doc_cmd()));
        }
        let mut t = self;
        match workspace_dir {
            Option::Some(d) => {
                t.add_run(c1.dir(d));
                t.add_run(c2.dir(d));
                t.add_run(c3.dir(d));
                t.add_run(c4.dir(d));
            },
            Option::None => {
                t.add_run(c1);
                t.add_run(c2);
                t.add_run(c3);
                t.add_run(c4);
            },
        }
        proof {
            assert(t@.tasks =~~= orig.tasks + tests_steps(dirv));
            assert(t@ =~~= with_tasks(orig, tests_steps(dirv)));
        }
        t
    }

    /// Appends the release-mode test command, scoped to `workspace_dir`
    /// when one is given.
    pub fn release_tests(self, workspace_dir: Option<&str>) -> (r: Tasks)
        ensures
            r@ == with_tasks(
                self@,
                seq![run_task(release_test_cmd(), crate::opt_str_view(workspace_dir))],
            ),
    {
        let c = Cmd::new("cargo").arg("test").arg("--benches").arg("--tests").arg(
            "--release",
        ).into_run();
        proof {
            assert(c@.script =~~= RunScriptV::Single(release_test_cmd()));
        }
        match workspace_dir {
            Option::Some(d) => self.run(c.dir(d)),
            Option::None => self.run(c),
        }
    }

    /// Appends the lint preset: formatting check and unused-dependency
    /// scan, each repeated per extra workspace directory, with the scanner
    /// installed at the given version before use.
    pub fn lints(self, udeps_version: &str, extra_workspace_dirs: &[&str]) -> (r: Tasks)
        ensures
            r@ == with_tasks(
                self@,
                lints_tasks(udeps_version@, extra_workspace_dirs.deep_view()),
            ),
    {
        let ghost orig = self@;
        let ghost dirs = extra_workspace_dirs.deep_view();
        let fmt = Cmd::new("cargo").arg("fmt").arg("--all").arg("--").arg("--check");
        let udeps = Cmd::new("cargo").arg("udeps").arg("--all-targets");
        proof {
            assert(fmt@ =~~= fmt_check_cmd());
            assert(udeps@ =~~= udeps_cmd());
        }
        let mut t = self;
        t.add_run(fmt.clone_cmd().into_run());
        let mut i: usize = 0;
        proof {
            assert(t@.tasks =~~= orig.tasks + seq![run_task(fmt_check_cmd(), Option::None)]
                + dir_run_tasks(fmt_check_cmd(), dirs.take(0)));
        }
        while i < extra_workspace_dirs.len()
            invariant
                i <= extra_workspace_dirs.len(),
                dirs == extra_workspace_dirs.deep_view(),
                fmt@ == fmt_check_cmd(),
                t@ == with_tasks(
                    orig,
                    seq![run_task(fmt_check_cmd(), Option::None)] + dir_run_tasks(
                        fmt_check_cmd(),
                        dirs.take(i as int),
                    ),
                ),
            decreases extra_workspace_dirs.len() - i,
        {
            t.add_run(fmt.clone_cmd().into_run().dir(extra_workspace_dirs[i]));
            proof {
                assert(dirs.take(i + 1).drop_last() =~~= dirs.take(i as int));
                assert(dirs.take(i + 1).last() == dirs[i as int]);
                assert(t@.tasks =~~= orig.tasks + (seq![run_task(fmt_check_cmd(), Option::None)]
                    + dir_run_tasks(fmt_check_cmd(), dirs.take(i + 1))));
                assert(t@ =~~= with_tasks(
                    orig,
                    seq![run_task(fmt_check_cmd(), Option::None)] + dir_run_tasks(
                        fmt_check_cmd(),
                        dirs.take(i + 1),
                    ),
                ));
            }
            i = i + 1;
        }
        proof {
            assert(dirs.take(extra_workspace_dirs@.len() as int) =~~= dirs);
        }
        t.add_step(install("cargo-udeps", udeps_version));
        t.add_run(udeps.clone_cmd().into_run());
        let ghost mid = orig.tasks + seq![run_task(fmt_check_cmd(), Option::None)] + dir_run_tasks(
            fmt_check_cmd(),
            dirs,
        ) + seq![
            TaskV::Install(install_step("cargo-udeps"@, udeps_version@)),
            run_task(udeps_cmd(), Option::None),
        ];
        let mut k: usize = 0;
        proof {
            assert(t@.tasks =~~= mid + dir_run_tasks(udeps_cmd(), dirs.take(0)));
        }
        while k < extra_workspace_dirs.len()
            invariant
                k <= extra_workspace_dirs.len(),
                dirs == extra_workspace_dirs.deep_view(),
                udeps@ == udeps_cmd(),
                t@.name == orig.name,
                t@.platform == orig.platform,
                t@.is_nightly == orig.is_nightly,
                t@.tasks == mid + dir_run_tasks(udeps_cmd(), dirs.take(k as int)),
            decreases extra_workspace_dirs.len() - k,
        {
            t.add_run(udeps.clone_cmd().into_run().dir(extra_workspace_dirs[k]));
            proof {
                assert(dirs.take(k + 1).drop_last() =~~= dirs.take(k as int));
                assert(dirs.take(k + 1).last() == dirs[k as int]);
                assert(t@.tasks =~~= mid + dir_run_tasks(udeps_cmd(), dirs.take(k + 1)));
            }
            k = k + 1;
        }
        proof {
            assert(dirs.take(extra_workspace_dirs@.len() as int) =~~= dirs);
            assert(t@.tasks =~~= orig.tasks + lints_tasks(udeps_version@, dirs));
            assert(t@ =~~= with_tasks(orig, lints_tasks(udeps_version@, dirs)));
        }
        t
    }
}

// ---------------------------------------------------------------------------
// Executing a task list
// ---------------------------------------------------------------------------

/// The invocations of the run entries of a task list, in order; setup
/// entries contribute nothing.
pub open spec fn tasks_run_invocations(ts: Seq<TaskV>, is_nightly: bool) -> Seq<InvocationV>
    decreases ts.len(),
{
    if ts.len() == 0 {
        Seq::empty()
    } else {
        tasks_run_invocations(ts.drop_last(), is_nightly) + (match ts.last() {
            TaskV::Install(_) => Seq::empty(),
            TaskV::Run(r) => run_invocations(r, is_nightly),
        })
    }
}

/// The exact subprocess invocations executing a task list spawns: none at
/// all on a foreign platform, and otherwise one per command of its run
/// entries, in append order.
pub open spec fn tasks_invocations(t: TasksV, current: Platform) -> Seq<InvocationV> {
    if t.platform == current {
        tasks_run_invocations(t.tasks, t.is_nightly)
    } else {
        Seq::empty()
    }
}

/// The number of commands a run entry holds.
pub open spec fn run_cmd_count(r: RunV) -> nat {
    match r.script {
        RunScriptV::Single(_) => 1,
        RunScriptV::Multi(cs) => cs.len(),
    }
}

/// The number of commands across the run entries of a task list.
pub open spec fn tasks_cmd_count(ts: Seq<TaskV>) -> nat
    decreases ts.len(),
{
    if ts.len() == 0 {
        0
    } else {
        tasks_cmd_count(ts.drop_last()) + (match ts.last() {
            TaskV::Install(_) => 0,
            TaskV::Run(r) => run_cmd_count(r),
        })
    }
}

proof fn lemma_tasks_run_invocations_count(ts: Seq<TaskV>, is_nightly: bool)
    ensures
        tasks_run_invocations(ts, is_nightly).len() == tasks_cmd_count(ts),
    decreases ts.len(),
{
    if ts.len() > 0 {
        lemma_tasks_run_invocations_count(ts.drop_last(), is_nightly);
        match ts.last() {
            TaskV::Install(_) => {},
            TaskV::Run(r) => {
                match r.script {
                    RunScriptV::Single(_) => {},
                    RunScriptV::Multi(cs) => {
                        crate::github::actions::lemma_cmds_invocations_len(
                            cs,
                            r.directory,
                            is_nightly,
                        );
                    },
                }
            },
        }
    }
}

/// A task list whose platform is not the current one plans no subprocess
/// at all.
pub proof fn lemma_foreign_platform_spawns_nothing(t: TasksV, current: Platform)
    ensures
        t.platform != current ==> tasks_invocations(t, current) == Seq::<InvocationV>::empty(),
{
}

/// On the current platform the execution plan holds exactly one
/// subprocess invocation per command of the run entries, setup entries
/// contributing none; the plan lists them in append order.
pub proof fn lemma_one_invocation_per_command(t: TasksV, current: Platform)
    requires
        t.platform == current,
    ensures
        tasks_invocations(t, current).len() == tasks_cmd_count(t.tasks),
{
    lemma_tasks_run_invocations_count(t.tasks, t.is_nightly);
}

/// A run entry's invocations stand contiguously in the whole plan; the
/// returned value is their offset.
proof fn lemma_run_entry_embedded(ts: Seq<TaskV>, is_nightly: bool, i: int) -> (off: int)
    requires
        0 <= i < ts.len(),
        ts[i] is Run,
    ensures
        0 <= off,
        off + run_invocations(ts[i]->Run_0, is_nightly).len() <= tasks_run_invocations(
            ts,
            is_nightly,
        ).len(),
        forall|k: int|
            0 <= k < run_invocations(ts[i]->Run_0, is_nightly).len()
                ==> #[trigger] tasks_run_invocations(ts, is_nightly)[off + k] == run_invocations(
                ts[i]->Run_0,
                is_nightly,
            )[k],
    decreases ts.len(),
{
    let rinv = run_invocations(ts[i]->Run_0, is_nightly);
    let whole = tasks_run_invocations(ts, is_nightly);
    let dl = ts.drop_last();
    if i == ts.len() - 1 {
        let off = tasks_run_invocations(dl, is_nightly).len() as int;
        assert(ts.last() == ts[i]);
        assert(whole == tasks_run_invocations(dl, is_nightly) + rinv);
        assert forall|k: int| 0 <= k < rinv.len() implies #[trigger] whole[off + k]
            == rinv[k] by {
            assert(whole[off + k] == rinv[k]);
        }
        off
    } else {
        let off = lemma_run_entry_embedded(dl, is_nightly, i);
        assert(dl[i] == ts[i]);
        assert forall|k: int| 0 <= k < rinv.len() implies #[trigger] whole[off + k]
            == rinv[k] by {
            assert(tasks_run_invocations(dl, is_nightly)[off + k] == rinv[k]);
            assert(whole[off + k] == tasks_run_invocations(dl, is_nightly)[off + k]);
        }
        off
    }
}

impl Tasks {
    /// The exact invocations that executing the receiver spawns, in order.
    pub fn invocations(&self, current: Platform) -> (r: Vec<Invocation>)
        ensures
            r.deep_view() == tasks_invocations(self@, current),
    {
        let mut r: Vec<Invocation> = Vec::new();
        if self.platform == current {
            let ghost all = self.tasks.deep_view();
            let mut i: usize = 0;
            proof {
                assert(r.deep_view() =~~= tasks_run_invocations(all.take(0), self@.is_nightly));
            }
            while i < self.tasks.len()
                invariant
                    i <= self.tasks.len(),
                    all == self.tasks.deep_view(),
                    self@.is_nightly == self.is_nightly,
                    r.deep_view() == tasks_run_invocations(all.take(i as int), self.is_nightly),
                decreases self.tasks.len() - i,
            {
                let ghost before = r.deep_view();
                match &self.tasks[i] {
                    Task::Install(_) => {},
                    Task::Run(run) => {
                        let mut invs = run.invocations(self.is_nightly);
                        let ghost added = invs.deep_view();
                        r.append(&mut invs);
                        proof {
                            assert(r.deep_view() =~~= before + added);
                        }
                    },
                }
                proof {
                    assert(all.take(i + 1).drop_last() =~~= all.take(i as int));
                    assert(all.take(i + 1).last() == all[i as int]);
                    assert(all[i as int] == self.tasks@[i as int]@);
                    assert(r.deep_view() =~~= tasks_run_invocations(
                        all.take(i + 1),
                        self.is_nightly,
                    ));
                }
                i = i + 1;
            }
            proof {
                assert(all.take(self.tasks@.len() as int) =~~= all);
            }
        } else {
            proof {
                assert(r.deep_view() =~~= Seq::<InvocationV>::empty());
            }
        }
        r
    }

    /// Executes the receiver: a silent success on a foreign platform and
    /// on an empty invocation plan; on the current one, every run entry's
    /// commands in append order, setup entries skipped, the first failure
    /// aborting the rest and naming a command of the plan.
    pub fn execute(self, current: Platform) -> (r: WorkflowResult<()>)
        ensures
            self@.platform != current ==> r is Ok,
            tasks_invocations(self@, current).len() == 0 ==> r is Ok,
            r matches Err(e) ==> e@ is CommandFailed,
            r matches Err(e) ==> exists|i: int|
                0 <= i < tasks_invocations(self@, current).len() && e@ == invocation_failure(
                    #[trigger] tasks_invocations(self@, current)[i],
                ),
    {
        if self.platform == current {
            let ghost all = self.tasks.deep_view();
            let mut i: usize = 0;
            while i < self.tasks.len()
                invariant
                    i <= self.tasks.len(),
                    all == self.tasks.deep_view(),
                    self@.is_nightly == self.is_nightly,
                    self@.tasks == all,
                    self@.platform == current,
                decreases self.tasks.len() - i,
            {
                match &self.tasks[i] {
                    Task::Install(_) => {},
                    Task::Run(run) => {
                        match run.rustup_run(self.is_nightly) {
                            Result::Ok(()) => {},
                            Result::Err(e) => {
                                proof {
                                    assert(all[i as int] == self.tasks@[i as int]@);
                                    assert(all[i as int] is Run);
                                    assert(all[i as int]->Run_0 == run@);
                                    let rinv = run_invocations(run@, self.is_nightly);
                                    let k = choose|k: int|
                                        0 <= k < rinv.len() && e@ == invocation_failure(rinv[k]);
                                    let off = lemma_run_entry_embedded(
                                        all,
                                        self.is_nightly,
                                        i as int,
                                    );
                                    assert(tasks_run_invocations(all, self.is_nightly)[off + k]
                                        == rinv[k]);
                                    assert(tasks_invocations(self@, current)[off + k]
                                        == rinv[k]);
                                    assert(e@ == invocation_failure(
                                        tasks_invocations(self@, current)[off + k],
                                    ));
                                }
                                return Result::Err(e);
                            },
                        }
                    },
                }
                i = i + 1;
            }
        }
        Result::Ok(())
    }
}

/// The invocations of each task list of a pipeline, in order.
pub open spec fn all_tasks_invocations(ts: Seq<TasksV>, current: Platform) -> Seq<InvocationV>
    decreases ts.len(),
{
    if ts.len() == 0 {
        Seq::empty()
    } else {
        all_tasks_invocations(ts.drop_last(), current) + tasks_invocations(ts.last(), current)
    }
}

/// The exact subprocess invocations executing a whole pipeline spawns:
/// each task list's plan, in declaration order.
pub open spec fn ci_invocations(c: CIV, current: Platform) -> Seq<InvocationV> {
    all_tasks_invocations(c.tasks, current)
}

/// A task list's plan stands contiguously in the pipeline's plan; the
/// returned value is its offset.
proof fn lemma_task_plan_embedded(ts: Seq<TasksV>, current: Platform, i: int) -> (off: int)
    requires
        0 <= i < ts.len(),
    ensures
        0 <= off,
        off + tasks_invocations(ts[i], current).len() <= all_tasks_invocations(
            ts,
            current,
        ).len(),
        forall|k: int|
            0 <= k < tasks_invocations(ts[i], current).len()
                ==> #[trigger] all_tasks_invocations(ts, current)[off + k] == tasks_invocations(
                ts[i],
                current,
            )[k],
    decreases ts.len(),
{
    let tinv = tasks_invocations(ts[i], current);
    let whole = all_tasks_invocations(ts, current);
    let dl = ts.drop_last();
    if i == ts.len() - 1 {
        let off = all_tasks_invocations(dl, current).len() as int;
        assert(ts.last() == ts[i]);
        assert(whole == all_tasks_invocations(dl, current) + tinv);
        assert forall|k: int| 0 <= k < tinv.len() implies #[trigger] whole[off + k]
            == tinv[k] by {
            assert(whole[off + k] == tinv[k]);
        }
        off
    } else {
        let off = lemma_task_plan_embedded(dl, current, i);
        assert(dl[i] == ts[i]);
        assert forall|k: int| 0 <= k < tinv.len() implies #[trigger] whole[off + k]
            == tinv[k] by {
            assert(all_tasks_invocations(dl, current)[off + k] == tinv[k]);
            assert(whole[off + k] == all_tasks_invocations(dl, current)[off + k]);
        }
        off
    }
}

// ---------------------------------------------------------------------------
// CI
// ---------------------------------------------------------------------------

/// A named CI aggregate: trigger events plus task lists, with the
/// standard presets and the two terminal operations.
pub struct CI {
    name: String,
    triggers: Vec<Event>,
    tasks: Vec<Tasks>,
}

/// The mathematical model of a [`CI`] aggregate.
#[verifier::ext_equal]
pub struct CIV {
    pub name: Seq<char>,
    pub triggers: Seq<EventV>,
    pub tasks: Seq<TasksV>,
}

impl View for CI {
    type V = CIV;

    closed spec fn view(&self) -> CIV {
        CIV {
            name: self.name@,
            triggers: self.triggers.deep_view(),
            tasks: self.tasks.deep_view(),
        }
    }
}

impl DeepView for CI {
    type V = CIV;

    open spec fn deep_view(&self) -> CIV {
        self.view()
    }
}

/// The model of a freshly created default aggregate: named "tests",
/// triggered by any push or pull request.
pub open spec fn new_ci() -> CIV {
    CIV {
        name: "tests"@,
        triggers: seq![EventV::Push(Seq::empty()), EventV::PullRequest],
        tasks: Seq::empty(),
    }
}

impl CI {
    /// Creates an aggregate called "tests" that triggers on any push or
    /// pull request.
    pub fn new() -> (r: CI)
        ensures
            r@ == new_ci(),
    {
        let mut triggers: Vec<Event> = Vec::new();
        triggers.push(push().into_event());
        triggers.push(pull_request().into_event());
        let r = CI { name: "tests".to_owned(), triggers, tasks: Vec::new() };
        proof {
            assert(r@ =~~= new_ci());
        }
        r
    }

    /// Creates an empty aggregate with the given name and no triggers.
    pub fn named(name: &str) -> (r: CI)
        ensures
            r@ == (CIV { name: name@, triggers: Seq::empty(), tasks: Seq::empty() }),
    {
        let r = CI { name: name.to_owned(), triggers: Vec::new(), tasks: Vec::new() };
        proof {
            assert(r@ =~~= CIV { name: name@, triggers: Seq::empty(), tasks: Seq::empty() });
        }
        r
    }

    /// Appends a trigger event.
    pub fn on(self, event: Event) -> (r: CI)
        ensures
            r@ == (CIV { triggers: self@.triggers.push(event@), ..self@ }),
    {
        let ghost orig = self@;
        let ghost ev = event@;
        let mut c = self;
        c.triggers.push(event);
        proof {
            assert(c@ =~~= CIV { triggers: orig.triggers.push(ev), ..orig });
        }
        c
    }

    /// Appends a task list in place.
    pub fn add_job(&mut self, tasks: Tasks)
        ensures
            final(self)@ == (CIV { tasks: old(self)@.tasks.push(tasks@), ..old(self)@ }),
    {
        let ghost before = self@;
        let ghost tv = tasks@;
        self.tasks.push(tasks);
        proof {
            assert(self@ =~~= CIV { tasks: before.tasks.push(tv), ..before });
        }
    }

    /// Appends a task list, builder style.
    pub fn job(self, tasks: Tasks) -> (r: CI)
        ensures
            r@ == (CIV { tasks: self@.tasks.push(tasks@), ..self@ }),
    {
        let mut c = self;
        c.add_job(tasks);
        c
    }

    /// Executes every task list in declaration order against the current
    /// platform, propagating the first failure and aborting the remaining
    /// ones.  When no task list matches the current platform — or when
    /// every plan is empty, so nothing would be spawned — execution is a
    /// silent success; a failure names a command of the pipeline's plan.
    pub fn execute(self, current: Platform) -> (r: WorkflowResult<()>)
        ensures
            (forall|i: int|
                0 <= i < self@.tasks.len() ==> (#[trigger] self@.tasks[i]).platform
                    != current) ==> r is Ok,
            (forall|i: int|
                0 <= i < self@.tasks.len() ==> #[trigger] tasks_invocations(
                    self@.tasks[i],
                    current,
                ).len() == 0) ==> r is Ok,
            r matches Err(e) ==> e@ is CommandFailed,
            r matches Err(e) ==> exists|i: int|
                0 <= i < ci_invocations(self@, current).len() && e@ == invocation_failure(
                    #[trigger] ci_invocations(self@, current)[i],
                ),
    {
        let ghost all = self@.tasks;
        let mut rem = self.tasks;
        let ghost mut i: int = 0;
        proof {
            assert(rem.deep_view() =~~= all.skip(0));
        }
        while rem.len() > 0
            invariant
                0 <= i <= all.len(),
                all == self@.tasks,
                rem.deep_view() == all.skip(i),
            decreases rem.len(),
        {
            proof {
                assert(rem.deep_view().len() == rem@.len());
                assert(all.skip(i).len() == all.len() - i);
                assert(i < all.len());
            }
            let ghost rprev = rem@;
            let ghost dprev = rem.deep_view();
            let t = rem.remove(0);
            proof {
                rprev.remove_ensures(0);
                assert(dprev[0] == rprev[0].deep_view());
                assert(t.deep_view() == all[i]);
                assert forall|k: int| 0 <= k < rem@.len() implies #[trigger] rem.deep_view()[k]
                    == all.skip(i + 1)[k] by {
                    assert(rem@[k] == rprev[k + 1]);
                    assert(rem.deep_view()[k] == rprev[k + 1].deep_view());
                    assert(dprev[k + 1] == rprev[k + 1].deep_view());
                    assert(all.skip(i)[k + 1] == all[i + 1 + k]);
                    assert(all.skip(i + 1)[k] == all[i + 1 + k]);
                }
                assert(rem.deep_view() =~~= all.skip(i + 1));
            }
            match t.execute(current) {
                Result::Ok(()) => {},
                Result::Err(e) => {
                    proof {
                        assert((self@.tasks[i]).platform == current);
                        let tplan = tasks_invocations(all[i], current);
                        let k = choose|k: int|
                            0 <= k < tplan.len() && e@ == invocation_failure(tplan[k]);
                        assert(tasks_invocations(self@.tasks[i], current).len() > 0);
                        let off = lemma_task_plan_embedded(all, current, i);
                        assert(all_tasks_invocations(all, current)[off + k] == tplan[k]);
                        assert(ci_invocations(self@, current)[off + k] == tplan[k]);
                        assert(e@ == invocation_failure(ci_invocations(self@, current)[off + k]));
                    }
                    return Result::Err(e);
                },
            }
            proof {
                i = i + 1;
            }
        }
        Result::Ok(())
    }
}

impl Default for CI {
    /// The default aggregate: "tests", triggered by any push or pull
    /// request.
    fn default() -> (r: CI)
        ensures
            r@ == new_ci(),
    {
        CI::new()
    }
}

// ---------------------------------------------------------------------------
// From tasks to a workflow
// ---------------------------------------------------------------------------

/// The step a task entry contributes to the rendered job.
pub open spec fn task_step(t: TaskV) -> StepV {
    match t {
        TaskV::Install(s) => s,
        TaskV::Run(r) => StepV::Run(r),
    }
}

/// The steps of a rendered job, one per task entry in order.
pub open spec fn task_steps(ts: Seq<TaskV>) -> Seq<StepV>
    decreases ts.len(),
{
    if ts.len() == 0 {
        Seq::empty()
    } else {
        task_steps(ts.drop_last()).push(task_step(ts.last()))
    }
}

/// The job a task list renders to: keyed by its name and platform, with
/// one step per entry.
pub open spec fn tasks_job(t: TasksV) -> JobV {
    JobV { name: t.name, runs_on: t.platform, steps: task_steps(t.tasks) }
}

/// The jobs of the rendered workflow, one per task list in order.
pub open spec fn ci_jobs(ts: Seq<TasksV>) -> Seq<JobV>
    decreases ts.len(),
{
    if ts.len() == 0 {
        Seq::empty()
    } else {
        ci_jobs(ts.drop_last()).push(tasks_job(ts.last()))
    }
}

/// The workflow a CI aggregate renders to: same name and triggers, one
/// job per task list.
pub open spec fn ci_workflow(c: CIV) -> WorkflowV {
    WorkflowV { name: c.name, triggers: c.triggers, jobs: ci_jobs(c.tasks) }
}

impl CI {
    /// The workflow this aggregate renders to.
    pub fn into_workflow(self) -> (w: Workflow)
        ensures
            w@ == ci_workflow(self@),
    {
        let ghost civ = self@;
        let CI { name, triggers, tasks } = self;
        let ghost trv = triggers.deep_view();
        let mut w = workflow(name.as_str()).on(triggers);
        proof {
            assert(w@.triggers =~~= civ.triggers);
            assert(w@.jobs =~~= ci_jobs(civ.tasks.take(0)));
        }
        let mut rem = tasks;
        let ghost mut i: int = 0;
        proof {
            assert(rem.deep_view() =~~= civ.tasks.skip(0));
        }
        while rem.len() > 0
            invariant
                0 <= i <= civ.tasks.len(),
                rem.deep_view() == civ.tasks.skip(i),
                w@.name == civ.name,
                w@.triggers == civ.triggers,
                w@.jobs == ci_jobs(civ.tasks.take(i)),
            decreases rem.len(),
        {
            proof {
                assert(rem.deep_view().len() == rem@.len());
                assert(civ.tasks.skip(i).len() == civ.tasks.len() - i);
                assert(i < civ.tasks.len());
            }
            let ghost rprev = rem@;
            let ghost dprev = rem.deep_view();
            let t = rem.remove(0);
            proof {
                rprev.remove_ensures(0);
                assert(dprev[0] == rprev[0].deep_view());
                assert(t.deep_view() == civ.tasks[i]);
                assert forall|k: int| 0 <= k < rem@.len() implies #[trigger] rem.deep_view()[k]
                    == civ.tasks.skip(i + 1)[k] by {
                    assert(rem@[k] == rprev[k + 1]);
                    assert(rem.deep_view()[k] == rprev[k + 1].deep_view());
                    assert(dprev[k + 1] == rprev[k + 1].deep_view());
                    assert(civ.tasks.skip(i)[k + 1] == civ.tasks[i + 1 + k]);
                    assert(civ.tasks.skip(i + 1)[k] == civ.tasks[i + 1 + k]);
                }
                assert(rem.deep_view() =~~= civ.tasks.skip(i + 1));
            }
            let ghost tv = t.deep_view();
            let Tasks { name: tname, platform, is_nightly: _, tasks: items } = t;
            let mut items = items;
            let mut steps: Vec<Step> = Vec::new();
            let ghost mut j: int = 0;
            proof {
                crate::github::actions::lemma_steps_view(steps@);
                assert(crate::github::actions::steps_view(steps@) =~~= task_steps(
                    tv.tasks.take(0),
                ));
                assert(items.deep_view() =~~= tv.tasks.skip(0));
            }
            while items.len() > 0
                invariant
                    0 <= j <= tv.tasks.len(),
                    items.deep_view() == tv.tasks.skip(j),
                    crate::github::actions::steps_view(steps@) == task_steps(tv.tasks.take(j)),
                decreases items.len(),
            {
                proof {
                    assert(items.deep_view().len() == items@.len());
                    assert(tv.tasks.skip(j).len() == tv.tasks.len() - j);
                    assert(j < tv.tasks.len());
                }
                let ghost iprev = items@;
                let ghost dprev = items.deep_view();
                let it = items.remove(0);
                proof {
                    iprev.remove_ensures(0);
                    assert(dprev[0] == iprev[0].deep_view());
                    assert(it.deep_view() == tv.tasks[j]);
                    assert forall|k: int| 0 <= k < items@.len() implies #[trigger] items.deep_view()[k]
                        == tv.tasks.skip(j + 1)[k] by {
                        assert(items@[k] == iprev[k + 1]);
                        assert(items.deep_view()[k] == iprev[k + 1].deep_view());
                        assert(dprev[k + 1] == iprev[k + 1].deep_view());
                        assert(tv.tasks.skip(j)[k + 1] == tv.tasks[j + 1 + k]);
                        assert(tv.tasks.skip(j + 1)[k] == tv.tasks[j + 1 + k]);
                    }
                    assert(items.deep_view() =~~= tv.tasks.skip(j + 1));
                }
                let ghost sprev = steps@;
                let s = match it {
                    Task::Install(s) => s,
                    Task::Run(r) => r.into_step(),
                };
                proof {
                    assert(s@ == task_step(tv.tasks[j]));
                }
                steps.push(s);
                proof {
                    assert(steps@.drop_last() =~= sprev);
                    assert(steps@.last() == s);
                    assert(tv.tasks.take(j + 1).drop_last() =~~= tv.tasks.take(j));
                    assert(tv.tasks.take(j + 1).last() == tv.tasks[j]);
                    assert(crate::github::actions::steps_view(steps@) == task_steps(
                        tv.tasks.take(j + 1),
                    ));
                    j = j + 1;
                }
            }
            proof {
                assert(tv.tasks.take(tv.tasks.len() as int) =~~= tv.tasks);
            }
            w.add_job(tname.as_str(), platform, steps);
            proof {
                assert(civ.tasks.take(i + 1).drop_last() =~~= civ.tasks.take(i));
                assert(civ.tasks.take(i + 1).last() == civ.tasks[i]);
                assert(w@.jobs =~~= ci_jobs(civ.tasks.take(i + 1)));
                i = i + 1;
            }
        }
        proof {
            assert(civ.tasks.take(civ.tasks.len() as int) =~~= civ.tasks);
            assert(w@ =~~= ci_workflow(civ));
        }
        w
    }
}

// ---------------------------------------------------------------------------
// Standard presets
// ---------------------------------------------------------------------------

/// The stable toolchain the test presets select: minimal profile, made
/// the default, with the lint component.
pub open spec fn stable_rust(v: Seq<char>) -> RustV {
    RustV {
        toolchain: v,
        profile: Option::Some("minimal"@),
        default: true,
        components: seq!["clippy"@],
        targets: Option::None,
    }
}

/// The toolchain the release-test preset selects: minimal profile, made
/// the default, no extra components.
pub open spec fn release_rust(v: Seq<char>) -> RustV {
    RustV {
        toolchain: v,
        profile: Option::Some("minimal"@),
        default: true,
        components: Seq::empty(),
        targets: Option::None,
    }
}

/// The toolchain the lint preset selects: minimal profile, made the
/// default, with the formatter component.
pub open spec fn lints_rust(v: Seq<char>) -> RustV {
    RustV {
        toolchain: v,
        profile: Option::Some("minimal"@),
        default: true,
        components: seq!["rustfmt"@],
        targets: Option::None,
    }
}

/// The base test-preset task list for one platform: codegen check, then
/// lint, unit tests, full build and documentation build.
pub open spec fn base_tests_task(v: Seq<char>, p: Platform) -> TasksV {
    with_tasks(
        new_tasks("tests"@, p, stable_rust(v)),
        seq![run_task(codegen_cmd(), Option::None)] + tests_steps(Option::None),
    )
}

/// The test-preset task list for one extra workspace on one platform.
pub open spec fn extra_tests_task(v: Seq<char>, p: Platform, name: Seq<char>, dir: Seq<char>) -> TasksV {
    with_tasks(
        new_tasks("tests-"@ + name, p, stable_rust(v)),
        tests_steps(Option::Some(dir)),
    )
}

/// The test-preset task lists for the extra workspaces on one platform.
pub open spec fn extra_tests_tasks(
    v: Seq<char>,
    p: Platform,
    extras: Seq<(Seq<char>, Seq<char>)>,
) -> Seq<TasksV>
    decreases extras.len(),
{
    if extras.len() == 0 {
        Seq::empty()
    } else {
        extra_tests_tasks(v, p, extras.drop_last()).push(
            extra_tests_task(v, p, extras.last().0, extras.last().1),
        )
    }
}

/// All test-preset task lists for one platform: the main workspace, then
/// each extra workspace.
pub open spec fn tests_tasks_for_platform(
    v: Seq<char>,
    p: Platform,
    extras: Seq<(Seq<char>, Seq<char>)>,
) -> Seq<TasksV> {
    seq![base_tests_task(v, p)] + extra_tests_tasks(v, p, extras)
}

/// The test-preset task lists for the given platforms, in order.
pub open spec fn tests_tasks_for_platforms(
    v: Seq<char>,
    ps: Seq<Platform>,
    extras: Seq<(Seq<char>, Seq<char>)>,
) -> Seq<TasksV>
    decreases ps.len(),
{
    if ps.len() == 0 {
        Seq::empty()
    } else {
        tests_tasks_for_platforms(v, ps.drop_last(), extras) + tests_tasks_for_platform(
            v,
            ps.last(),
            extras,
        )
    }
}

/// What the test preset appends: one task list per platform and
/// workspace, for every supported platform.
pub open spec fn standard_tests_tasks(v: Seq<char>, extras: Seq<(Seq<char>, Seq<char>)>) -> Seq<
    TasksV,
> {
    tests_tasks_for_platforms(
        v,
        seq![Platform::UbuntuLatest, Platform::MacOSLatest, Platform::WindowsLatest],
        extras,
    )
}

/// The base release-test task list for one platform.
pub open spec fn base_release_task(v: Seq<char>, p: Platform) -> TasksV {
    with_tasks(
        new_tasks("release-tests"@, p, release_rust(v)),
        seq![run_task(release_test_cmd(), Option::None)],
    )
}

/// The release-test task list for one extra workspace on one platform.
pub open spec fn extra_release_task(v: Seq<char>, p: Platform, name: Seq<char>, dir: Seq<char>) -> TasksV {
    with_tasks(
        new_tasks("release-tests-"@ + name, p, release_rust(v)),
        seq![run_task(release_test_cmd(), Option::Some(dir))],
    )
}

/// The release-test task lists for the extra workspaces on one platform.
pub open spec fn extra_release_tasks(
    v: Seq<char>,
    p: Platform,
    extras: Seq<(Seq<char>, Seq<char>)>,
) -> Seq<TasksV>
    decreases extras.len(),
{
    if extras.len() == 0 {
        Seq::empty()
    } else {
        extra_release_tasks(v, p, extras.drop_last()).push(
            extra_release_task(v, p, extras.last().0, extras.last().1),
        )
    }
}

/// All release-test task lists for one platform.
pub open spec fn release_tasks_for_platform(
    v: Seq<char>,
    p: Platform,
    extras: Seq<(Seq<char>, Seq<char>)>,
) -> Seq<TasksV> {
    seq![base_release_task(v, p)] + extra_release_tasks(v, p, extras)
}

/// The release-test task lists for the given platforms, in order.
pub open spec fn release_tasks_for_platforms(
    v: Seq<char>,
    ps: Seq<Platform>,
    extras: Seq<(Seq<char>, Seq<char>)>,
) -> Seq<TasksV>
    decreases ps.len(),
{
    if ps.len() == 0 {
        Seq::empty()
    } else {
        release_tasks_for_platforms(v, ps.drop_last(), extras) + release_tasks_for_platform(
            v,
            ps.last(),
            extras,
        )
    }
}

/// What the release-test preset appends: one task list per platform and
/// workspace.
pub open spec fn standard_release_tasks(v: Seq<char>, extras: Seq<(Seq<char>, Seq<char>)>) -> Seq<
    TasksV,
> {
    release_tasks_for_platforms(
        v,
        seq![Platform::UbuntuLatest, Platform::MacOSLatest, Platform::WindowsLatest],
        extras,
    )
}

/// The directories of the extra workspaces, in order.
pub open spec fn extras_dirs(extras: Seq<(Seq<char>, Seq<char>)>) -> Seq<Seq<char>>
    decreases extras.len(),
{
    if extras.len() == 0 {
        Seq::empty()
    } else {
        extras_dirs(extras.drop_last()).push(extras.last().1)
    }
}

/// What the lint preset appends: a single task list, pinned to the first
/// supported platform.
pub open spec fn standard_lints_task(
    nightly_v: Seq<char>,
    udeps_v: Seq<char>,
    extras: Seq<(Seq<char>, Seq<char>)>,
) -> TasksV {
    with_tasks(
        new_tasks("lints"@, Platform::UbuntuLatest, lints_rust(nightly_v)),
        lints_tasks(udeps_v, extras_dirs(extras)),
    )
}

/// The toolchain and tool versions the standard workflow pins.
pub struct StandardVersions {
    pub rustc_stable_version: String,
    pub rustc_nightly_version: String,
    pub udeps_version: String,
}

/// The mathematical model of a [`StandardVersions`] value.
#[verifier::ext_equal]
pub struct StandardVersionsV {
    pub rustc_stable_version: Seq<char>,
    pub rustc_nightly_version: Seq<char>,
    pub udeps_version: Seq<char>,
}

impl View for StandardVersions {
    type V = StandardVersionsV;

    open spec fn view(&self) -> StandardVersionsV {
        StandardVersionsV {
            rustc_stable_version: self.rustc_stable_version@,
            rustc_nightly_version: self.rustc_nightly_version@,
            udeps_version: self.udeps_version@,
        }
    }
}

impl Default for StandardVersions {
    /// The versions pinned by default.
    fn default() -> (r: StandardVersions)
        ensures
            r@ == (StandardVersionsV {
                rustc_stable_version: "1.73"@,
                rustc_nightly_version: "nightly-2023-10-14"@,
                udeps_version: "0.1.43"@,
            }),
    {
        StandardVersions {
            rustc_stable_version: "1.73".to_owned(),
            rustc_nightly_version: "nightly-2023-10-14".to_owned(),
            udeps_version: "0.1.43".to_owned(),
        }
    }
}

impl CI {
    /// Appends the test preset: for every supported platform, one task
    /// list running codegen check, lint, unit tests, full build and
    /// documentation build, plus one per extra workspace.  Each extra
    /// workspace is a (name, directory) pair.
    pub fn standard_tests(self, rustc_version: &str, extra_workspaces: &[(&str, &str)]) -> (r: CI)
        ensures
            r@ == (CIV {
                tasks: self@.tasks + standard_tests_tasks(
                    rustc_version@,
                    extra_workspaces.deep_view(),
                ),
                ..self@
            }),
    {
        let ghost orig = self@;
        let ghost ev = extra_workspaces.deep_view();
        let ghost v = rustc_version@;
        let mut c = self;
        let platforms = Platform::latest();
        let ghost ps = platforms@;
        let mut pi: usize = 0;
        proof {
            assert(c@.tasks =~~= orig.tasks + tests_tasks_for_platforms(v, ps.take(0), ev));
        }
        while pi < platforms.len()
            invariant
                pi <= platforms.len(),
                ps == platforms@,
                ev == extra_workspaces.deep_view(),
                v == rustc_version@,
                c@.name == orig.name,
                c@.triggers == orig.triggers,
                c@.tasks == orig.tasks + tests_tasks_for_platforms(v, ps.take(pi as int), ev),
            decreases platforms.len() - pi,
        {
            let p = platforms[pi];
            let ghost round = orig.tasks + tests_tasks_for_platforms(v, ps.take(pi as int), ev);
            let rust = rust_toolchain(rustc_version).minimal().default().clippy();
            proof {
                assert(rust@ =~~= stable_rust(v));
            }
            let base = Tasks::new("tests", p, rust).codegen().tests(Option::None);
            proof {
                assert(base@ =~~= base_tests_task(v, p));
            }
            c.add_job(base);
            let mut ei: usize = 0;
            proof {
                assert(c@.tasks =~~= round + seq![base_tests_task(v, p)] + extra_tests_tasks(
                    v,
                    p,
                    ev.take(0),
                ));
            }
            while ei < extra_workspaces.len()
                invariant
                    ei <= extra_workspaces.len(),
                    ev == extra_workspaces.deep_view(),
                    v == rustc_version@,
                    c@.name == orig.name,
                    c@.triggers == orig.triggers,
                    c@.tasks == round + seq![base_tests_task(v, p)] + extra_tests_tasks(
                        v,
                        p,
                        ev.take(ei as int),
                    ),
                decreases extra_workspaces.len() - ei,
            {
                let (ename, edir) = extra_workspaces[ei];
                let mut nm = String::new();
                nm.append("tests-");
                nm.append(ename);
                let rust = rust_toolchain(rustc_version).minimal().default().clippy();
                proof {
                    assert(rust@ =~~= stable_rust(v));
                }
                let t = Tasks::new(nm.as_str(), p, rust).tests(Option::Some(edir));
                proof {
                    assert(ev[ei as int] == (ename@, edir@));
                    assert(t@ =~~= extra_tests_task(v, p, ename@, edir@));
                }
                c.add_job(t);
                proof {
                    assert(ev.take(ei + 1).drop_last() =~~= ev.take(ei as int));
                    assert(ev.take(ei + 1).last() == ev[ei as int]);
                    assert(c@.tasks =~~= round + seq![base_tests_task(v, p)]
                        + extra_tests_tasks(v, p, ev.take(ei + 1)));
                }
                ei = ei + 1;
            }
            proof {
                assert(ev.take(extra_workspaces@.len() as int) =~~= ev);
                assert(ps.take(pi + 1).drop_last() =~~= ps.take(pi as int));
                assert(ps.take(pi + 1).last() == ps[pi as int]);
                assert(ps[pi as int] == p);
                assert(c@.tasks =~~= orig.tasks + tests_tasks_for_platforms(
                    v,
                    ps.take(pi + 1),
                    ev,
                ));
            }
            pi = pi + 1;
        }
        proof {
            assert(ps.take(platforms@.len() as int) =~~= ps);
            assert(ps =~~= seq![
                Platform::UbuntuLatest,
                Platform::MacOSLatest,
                Platform::WindowsLatest,
            ]);
            assert(c@ =~~= CIV { tasks: orig.tasks + standard_tests_tasks(v, ev), ..orig });
        }
        c
    }

    /// Appends the release-test preset: for every supported platform, one
    /// task list running the release-mode tests, plus one per extra
    /// workspace.  Each extra workspace is a (name, directory) pair.
    pub fn standard_release_tests(
        self,
        rustc_version: &str,
        extra_workspaces: &[(&str, &str)],
    ) -> (r: CI)
        ensures
            r@ == (CIV {
                tasks: self@.tasks + standard_release_tasks(
                    rustc_version@,
                    extra_workspaces.deep_view(),
                ),
                ..self@
            }),
    {
        let ghost orig = self@;
        let ghost ev = extra_workspaces.deep_view();
        let ghost v = rustc_version@;
        let mut c = self;
        let platforms = Platform::latest();
        let ghost ps = platforms@;
        let mut pi: usize = 0;
        proof {
            assert(c@.tasks =~~= orig.tasks + release_tasks_for_platforms(v, ps.take(0), ev));
        }
        while pi < platforms.len()
            invariant
                pi <= platforms.len(),
                ps == platforms@,
                ev == extra_workspaces.deep_view(),
                v == rustc_version@,
                c@.name == orig.name,
                c@.triggers == orig.triggers,
                c@.tasks == orig.tasks + release_tasks_for_platforms(v, ps.take(pi as int), ev),
            decreases platforms.len() - pi,
        {
            let p = platforms[pi];
            let ghost round = orig.tasks + release_tasks_for_platforms(v, ps.take(pi as int), ev);
            let rust = rust_toolchain(rustc_version).minimal().default();
            proof {
                assert(rust@ =~~= release_rust(v));
            }
            let base = Tasks::new("release-tests", p, rust).release_tests(Option::None);
            proof {
                assert(base@ =~~= base_release_task(v, p));
            }
            c.add_job(base);
            let mut ei: usize = 0;
            proof {
                assert(c@.tasks =~~= round + seq![base_release_task(v, p)]
                    + extra_release_tasks(v, p, ev.take(0)));
            }
            while ei < extra_workspaces.len()
                invariant
                    ei <= extra_workspaces.len(),
                    ev == extra_workspaces.deep_view(),
                    v == rustc_version@,
                    c@.name == orig.name,
                    c@.triggers == orig.triggers,
                    c@.tasks == round + seq![base_release_task(v, p)] + extra_release_tasks(
                        v,
                        p,
                        ev.take(ei as int),
                    ),
                decreases extra_workspaces.len() - ei,
            {
                let (ename, edir) = extra_workspaces[ei];
                let mut nm = String::new();
                nm.append("release-tests-");
                nm.append(ename);
                let rust = rust_toolchain(rustc_version).minimal().default();
                proof {
                    assert(rust@ =~~= release_rust(v));
                }
                let t = Tasks::new(nm.as_str(), p, rust).release_tests(Option::Some(edir));
                proof {
                    assert(ev[ei as int] == (ename@, edir@));
                    assert(t@ =~~= extra_release_task(v, p, ename@, edir@));
                }
                c.add_job(t);
                proof {
                    assert(ev.take(ei + 1).drop_last() =~~= ev.take(ei as int));
                    assert(ev.take(ei + 1).last() == ev[ei as int]);
                    assert(c@.tasks =~~= round + seq![base_release_task(v, p)]
                        + extra_release_tasks(v, p, ev.take(ei + 1)));
                }
                ei = ei + 1;
            }
            proof {
                assert(ev.take(extra_workspaces@.len() as int) =~~= ev);
                assert(ps.take(pi + 1).drop_last() =~~= ps.take(pi as int));
                assert(ps.take(pi + 1).last() == ps[pi as int]);
                assert(ps[pi as int] == p);
                assert(c@.tasks =~~= orig.tasks + release_tasks_for_platforms(
                    v,
                    ps.take(pi + 1),
                    ev,
                ));
            }
            pi = pi + 1;
        }
        proof {
            assert(ps.take(platforms@.len() as int) =~~= ps);
            assert(ps =~~= seq![
                Platform::UbuntuLatest,
                Platform::MacOSLatest,
                Platform::WindowsLatest,
            ]);
            assert(c@ =~~= CIV { tasks: orig.tasks + standard_release_tasks(v, ev), ..orig });
        }
        c
    }

    /// Appends the lint preset: one task list, pinned to the first
    /// supported platform, running the formatting check and the
    /// unused-dependency scan, each repeated per extra workspace.
    pub fn standard_lints(
        self,
        rustc_version: &str,
        udeps_version: &str,
        extra_workspaces: &[(&str, &str)],
    ) -> (r: CI)
        ensures
            r@ == (CIV {
                tasks: self@.tasks.push(
                    standard_lints_task(
                        rustc_version@,
                        udeps_version@,
                        extra_workspaces.deep_view(),
                    ),
                ),
                ..self@
            }),
    {
        let ghost ev = extra_workspaces.deep_view();
        let mut dirs: Vec<&str> = Vec::new();
        let mut i: usize = 0;
        proof {
            assert(dirs.deep_view() =~~= extras_dirs(ev.take(0)));
        }
        while i < extra_workspaces.len()
            invariant
                i <= extra_workspaces.len(),
                ev == extra_workspaces.deep_view(),
                dirs.deep_view() == extras_dirs(ev.take(i as int)),
            decreases extra_workspaces.len() - i,
        {
            let ghost before = dirs.deep_view();
            let (ename, edir) = extra_workspaces[i];
            dirs.push(edir);
            proof {
                assert(ev[i as int] == (ename@, edir@));
                assert(ev.take(i + 1).drop_last() =~~= ev.take(i as int));
                assert(ev.take(i + 1).last() == ev[i as int]);
                assert(dirs.deep_view() =~~= before.push(edir@));
                assert(before.push(edir@) =~~= extras_dirs(ev.take(i + 1)));
            }
            i = i + 1;
        }
        proof {
            assert(ev.take(extra_workspaces@.len() as int) =~~= ev);
        }
        let rust = rust_toolchain(rustc_version).minimal().default().rustfmt();
        proof {
            assert(rust@ =~~= lints_rust(rustc_version@));
        }
        let t = Tasks::new("lints", Platform::UbuntuLatest, rust).lints(
            udeps_version,
            dirs.as_slice(),
        );
        proof {
            assert(t@ =~~= standard_lints_task(rustc_version@, udeps_version@, ev));
        }
        self.job(t)
    }

    /// The standard workflow: the test preset, the release-test preset
    /// and the lint preset, under the default push and pull-request
    /// triggers.
    pub fn standard_workflow(versions: StandardVersions, extra_workspaces: &[(&str, &str)]) -> (r:
        CI)
        ensures
            r@ == (CIV {
                name: new_ci().name,
                triggers: new_ci().triggers,
                tasks: standard_tests_tasks(
                    versions@.rustc_stable_version,
                    extra_workspaces.deep_view(),
                ) + standard_release_tasks(
                    versions@.rustc_stable_version,
                    extra_workspaces.deep_view(),
                ) + seq![
                    standard_lints_task(
                        versions@.rustc_nightly_version,
                        versions@.udeps_version,
                        extra_workspaces.deep_view(),
                    ),
                ],
            }),
    {
        let r = CI::new().standard_tests(
            versions.rustc_stable_version.as_str(),
            extra_workspaces,
        ).standard_release_tests(versions.rustc_stable_version.as_str(), extra_workspaces)
            .standard_lints(
            versions.rustc_nightly_version.as_str(),
            versions.udeps_version.as_str(),
            extra_workspaces,
        );
        proof {
            assert(r@.tasks =~~= standard_tests_tasks(
                versions@.rustc_stable_version,
                extra_workspaces.deep_view(),
            ) + standard_release_tasks(
                versions@.rustc_stable_version,
                extra_workspaces.deep_view(),
            ) + seq![
                standard_lints_task(
                    versions@.rustc_nightly_version,
                    versions@.udeps_version,
                    extra_workspaces.deep_view(),
                ),
            ]);
        }
        r
    }

}

impl CI {
    /// Renders the aggregate's workflow and decides what must happen to
    /// its file, exactly as [`Workflow::write`] does.
    pub fn write(self, check: bool, existing: Option<&str>) -> (r: Result<
        Option<String>,
        WorkflowError,
    >)
        ensures
            crate::result_view(r) == write_plan(
                ci_workflow(self@),
                check,
                crate::opt_str_view(existing),
            ),
    {
        self.into_workflow().write(check, existing)
    }
}

} // verus!
