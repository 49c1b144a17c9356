//! The GitHub Actions workflow model.
//!
//! A [`Workflow`] is a named list of trigger [`Event`]s and jobs; each job
//! runs on a [`Platform`] and is an ordered list of [`Step`]s.  A step is
//! either an action invocation ([`Action`]), a shell command ([`Run`]), an
//! ordered group of steps, or empty.  The model has two back ends: it is
//! rendered to the declarative YAML job-definition format, and a [`Run`] can
//! also be executed directly on the local machine.  Both are specified
//! exactly: every render function returns precisely the text given by the
//! corresponding `render_*` spec function.

use vstd::prelude::*;

verus! {

use vstd::string::StringExecFns;
use crate::WorkflowError;
use crate::WorkflowErrorV;
use crate::WorkflowResult;

// ---------------------------------------------------------------------------
// Platform
// ---------------------------------------------------------------------------

/// The closed set of target operating environments a job can run on.
#[derive(Copy, Clone, PartialEq, Eq, Structural, Debug)]
pub enum Platform {
    UbuntuLatest,
    MacOSLatest,
    WindowsLatest,
}

/// The platform slug used in rendered output and job keys.
pub open spec fn platform_str(p: Platform) -> Seq<char> {
    match p {
        Platform::UbuntuLatest => "ubuntu-latest"@,
        Platform::MacOSLatest => "macos-latest"@,
        Platform::WindowsLatest => "windows-latest"@,
    }
}

impl Platform {
    /// All supported platforms, in the stable order used for matrix
    /// expansion.
    pub fn latest() -> (r: Vec<Platform>)
        ensures
            r@ == seq![Platform::UbuntuLatest, Platform::MacOSLatest, Platform::WindowsLatest],
    {
        let mut v: Vec<Platform> = Vec::new();
        v.push(Platform::UbuntuLatest);
        v.push(Platform::MacOSLatest);
        v.push(Platform::WindowsLatest);
        proof {
            assert(v@ =~= seq![
                Platform::UbuntuLatest,
                Platform::MacOSLatest,
                Platform::WindowsLatest,
            ]);
        }
        v
    }

    /// The platform's slug, e.g. `ubuntu-latest`.
    pub fn as_str(self) -> (r: &'static str)
        ensures
            r@ == platform_str(self),
    {
        match self {
            Platform::UbuntuLatest => "ubuntu-latest",
            Platform::MacOSLatest => "macos-latest",
            Platform::WindowsLatest => "windows-latest",
        }
    }
}

// ---------------------------------------------------------------------------
// Action
// ---------------------------------------------------------------------------

/// An external setup operation (a `uses:` step) with ordered `with:`
/// parameters and `env:` variables.  Keys are appended in insertion order
/// and never de-duplicated: a repeated key is rendered twice.
pub struct Action {
    uses: String,
    with: Vec<(String, String)>,
    env: Vec<(String, String)>,
}

/// The mathematical model of an [`Action`].
#[verifier::ext_equal]
pub struct ActionV {
    pub uses: Seq<char>,
    pub with: Seq<(Seq<char>, Seq<char>)>,
    pub env: Seq<(Seq<char>, Seq<char>)>,
}

impl View for Action {
    type V = ActionV;

    closed spec fn view(&self) -> ActionV {
        ActionV { uses: self.uses@, with: self.with.deep_view(), env: self.env.deep_view() }
    }
}

impl DeepView for Action {
    type V = ActionV;

    open spec fn deep_view(&self) -> ActionV {
        self.view()
    }
}

/// Creates an [`Action`] with no parameters.
pub fn action(uses: &str) -> (r: Action)
    ensures
        r@ == (ActionV { uses: uses@, with: Seq::empty(), env: Seq::empty() }),
{
    let r = Action { uses: uses.to_owned(), with: Vec::new(), env: Vec::new() };
    proof {
        assert(r@.with =~= Seq::<(Seq<char>, Seq<char>)>::empty());
        assert(r@.env =~= Seq::<(Seq<char>, Seq<char>)>::empty());
    }
    r
}

impl Action {
    /// Appends a `with:` parameter in place.
    pub fn add_with(&mut self, key: &str, value: &str)
        ensures
            final(self)@ == (ActionV {
                with: old(self)@.with.push((key@, value@)),
                ..old(self)@
            }),
    {
        self.with.push((key.to_owned(), value.to_owned()));
        proof {
            assert(self.with.deep_view() =~= old(self).with.deep_view().push((key@, value@)));
        }
    }

    /// Appends a `with:` parameter, builder style.
    pub fn with(self, key: &str, value: &str) -> (r: Action)
        ensures
            r@ == (ActionV { with: self@.with.push((key@, value@)), ..self@ }),
    {
        let mut a = self;
        a.add_with(key, value);
        a
    }

    /// Appends an `env:` variable in place.
    pub fn add_env(&mut self, key: &str, value: &str)
        ensures
            final(self)@ == (ActionV { env: old(self)@.env.push((key@, value@)), ..old(self)@ }),
    {
        self.env.push((key.to_owned(), value.to_owned()));
        proof {
            assert(self.env.deep_view() =~= old(self).env.deep_view().push((key@, value@)));
        }
    }

    /// Appends an `env:` variable, builder style.
    pub fn env(self, key: &str, value: &str) -> (r: Action)
        ensures
            r@ == (ActionV { env: self@.env.push((key@, value@)), ..self@ }),
    {
        let mut a = self;
        a.add_env(key, value);
        a
    }
}

// ---------------------------------------------------------------------------
// Rendering an Action
// ---------------------------------------------------------------------------

/// One `key: value` line of a `with:` or `env:` block, for each entry in
/// order.
pub open spec fn render_kv_lines(kvs: Seq<(Seq<char>, Seq<char>)>) -> Seq<char>
    decreases kvs.len(),
{
    if kvs.len() == 0 {
        Seq::empty()
    } else {
        render_kv_lines(kvs.drop_last()) + "        "@ + kvs.last().0 + ": "@ + kvs.last().1
            + "\n"@
    }
}

/// A named key-value block; omitted entirely when there are no entries.
pub open spec fn render_kv_block(name: Seq<char>, kvs: Seq<(Seq<char>, Seq<char>)>) -> Seq<char> {
    if kvs.len() == 0 {
        Seq::empty()
    } else {
        "      "@ + name + ":\n"@ + render_kv_lines(kvs)
    }
}

/// The rendered form of an action step: the `uses:` line, then the
/// optional `with:` and `env:` blocks.
pub open spec fn render_action(a: ActionV) -> Seq<char> {
    "    - uses: "@ + a.uses + "\n"@ + render_kv_block("with"@, a.with) + render_kv_block(
        "env"@,
        a.env,
    )
}

fn render_kv_into(name: &str, kvs: &Vec<(String, String)>, out: &mut String)
    ensures
        final(out)@ == old(out)@ + render_kv_block(name@, kvs.deep_view()),
{
    if kvs.len() == 0 {
        proof {
            assert(out@ + render_kv_block(name@, kvs.deep_view()) =~= out@);
        }
        return ;
    }
    out.append("      ");
    out.append(name);
    out.append(":\n");
    let ghost base = out@;
    let ghost all = kvs.deep_view();
    let mut i: usize = 0;
    proof {
        assert(all.take(0) =~= Seq::empty());
        assert(base + render_kv_lines(all.take(0)) =~= base);
    }
    while i < kvs.len()
        invariant
            i <= kvs.len(),
            all == kvs.deep_view(),
            out@ == base + render_kv_lines(all.take(i as int)),
        decreases kvs.len() - i,
    {
        let kv = &kvs[i];
        out.append("        ");
        out.append(kv.0.as_str());
        out.append(": ");
        out.append(kv.1.as_str());
        out.append("\n");
        proof {
            assert(all.take(i + 1).drop_last() =~= all.take(i as int));
            assert(all.take(i + 1).last() == all[i as int]);
            assert(all[i as int] == (kv.0@, kv.1@));
            assert(out@ =~= base + render_kv_lines(all.take(i + 1)));
        }
        i = i + 1;
    }
    proof {
        assert(all.take(kvs.len() as int) =~= all);
    }
}

impl Action {
    /// Appends the rendered form of this action to `out`.
    pub fn render_into(&self, out: &mut String)
        ensures
            final(out)@ == old(out)@ + render_action(self@),
    {
        out.append("    - uses: ");
        out.append(self.uses.as_str());
        out.append("\n");
        render_kv_into("with", &self.with, out);
        render_kv_into("env", &self.env, out);
    }
}

// ---------------------------------------------------------------------------
// Cmd
// ---------------------------------------------------------------------------

/// One command invocation: a program and its ordered arguments.
pub struct Cmd {
    program: String,
    args: Vec<String>,
}

/// The mathematical model of a [`Cmd`].
#[verifier::ext_equal]
pub struct CmdV {
    pub program: Seq<char>,
    pub args: Seq<Seq<char>>,
}

impl View for Cmd {
    type V = CmdV;

    closed spec fn view(&self) -> CmdV {
        CmdV { program: self.program@, args: self.args.deep_view() }
    }
}

impl DeepView for Cmd {
    type V = CmdV;

    open spec fn deep_view(&self) -> CmdV {
        self.view()
    }
}

impl Cmd {
    /// A command with no arguments yet.
    pub fn new(program: &str) -> (r: Cmd)
        ensures
            r@ == (CmdV { program: program@, args: Seq::empty() }),
    {
        let r = Cmd { program: program.to_owned(), args: Vec::new() };
        proof {
            assert(r@.args =~~= Seq::<Seq<char>>::empty());
        }
        r
    }

    /// Appends one argument.
    pub fn arg(self, a: &str) -> (r: Cmd)
        ensures
            r@ == (CmdV { args: self@.args.push(a@), ..self@ }),
    {
        let mut c = self;
        c.args.push(a.to_owned());
        proof {
            assert(c@.args =~~= self@.args.push(a@));
        }
        c
    }

    /// Appends each argument in order.
    pub fn args(self, more: &[&str]) -> (r: Cmd)
        ensures
            r@ == (CmdV { args: self@.args + more.deep_view(), ..self@ }),
    {
        let mut c = self;
        let ghost orig = c@;
        let mut i: usize = 0;
        proof {
            assert(c@.args =~~= orig.args + more.deep_view().take(0));
        }
        while i < more.len()
            invariant
                i <= more.len(),
                c@.program == orig.program,
                c@.args == orig.args + more.deep_view().take(i as int),
            decreases more.len() - i,
        {
            let ghost cprev = c@;
            let t = more[i].to_owned();
            proof {
                assert(t@ == more.deep_view()[i as int]);
            }
            c.args.push(t);
            proof {
                assert(c@.args =~~= cprev.args.push(t@));
                assert(cprev.args.push(t@) =~~= orig.args + more.deep_view().take(i + 1));
            }
            i = i + 1;
        }
        proof {
            assert(more.deep_view().take(more.len() as int) =~~= more.deep_view());
        }
        c
    }

    /// Appends `arg_tail` to the last argument, or to the program name when
    /// there is no argument yet.  This grows the previous word rather than
    /// starting a new one.
    pub fn __extend_arg(self, arg_tail: &str) -> (r: Cmd)
        ensures
            r@ == (if self@.args.len() > 0 {
                CmdV {
                    args: self@.args.update(
                        self@.args.len() - 1,
                        self@.args.last() + arg_tail@,
                    ),
                    ..self@
                }
            } else {
                CmdV { program: self@.program + arg_tail@, ..self@ }
            }),
    {
        let mut c = self;
        match c.args.pop() {
            Option::Some(last) => {
                let mut last = last;
                last.append(arg_tail);
                c.args.push(last);
                proof {
                    assert(c@.args =~= self@.args.update(
                        self@.args.len() - 1,
                        self@.args.last() + arg_tail@,
                    ));
                }
            },
            Option::None => {
                c.program.append(arg_tail);
                proof {
                    assert(c@.args =~= self@.args);
                }
            },
        }
        c
    }
}

impl Cmd {
    /// An identical copy of this command.
    pub fn clone_cmd(&self) -> (r: Cmd)
        ensures
            r@ == self@,
    {
        let r = Cmd { program: self.program.clone(), args: clone_string_vec(&self.args) };
        proof {
            assert(r@ =~~= self@);
        }
        r
    }
}

/// The arguments of a command, each preceded by one space.
pub open spec fn render_args(args: Seq<Seq<char>>) -> Seq<char>
    decreases args.len(),
{
    if args.len() == 0 {
        Seq::empty()
    } else {
        render_args(args.drop_last()) + " "@ + args.last()
    }
}

/// The rendered form of a command line: the program, then its arguments
/// separated by spaces.
pub open spec fn render_cmd(c: CmdV) -> Seq<char> {
    c.program + render_args(c.args)
}

impl Cmd {
    /// Appends the rendered command line to `out`.
    pub fn render_into(&self, out: &mut String)
        ensures
            final(out)@ == old(out)@ + render_cmd(self@),
    {
        out.append(self.program.as_str());
        let ghost base = out@;
        let ghost all = self.args.deep_view();
        let mut i: usize = 0;
        proof {
            assert(all.take(0) =~= Seq::empty());
            assert(base + render_args(all.take(0)) =~= base);
        }
        while i < self.args.len()
            invariant
                i <= self.args.len(),
                all == self.args.deep_view(),
                out@ == base + render_args(all.take(i as int)),
            decreases self.args.len() - i,
        {
            out.append(" ");
            out.append(self.args[i].as_str());
            proof {
                assert(all.take(i + 1).drop_last() =~= all.take(i as int));
                assert(all.take(i + 1).last() == all[i as int]);
                assert(out@ =~= base + render_args(all.take(i + 1)));
            }
            i = i + 1;
        }
        proof {
            assert(all.take(self.args.len() as int) =~= all);
        }
    }
}

// ---------------------------------------------------------------------------
// Run
// ---------------------------------------------------------------------------

/// A runnable step: one command or an ordered script of commands,
/// optionally scoped to a working directory.
pub struct Run {
    script: RunEnum,
    directory: Option<String>,
}

enum RunEnum {
    Single(Cmd),
    Multi(Vec<Cmd>),
}

/// The script half of a [`RunV`].
#[verifier::ext_equal]
pub enum RunScriptV {
    Single(CmdV),
    Multi(Seq<CmdV>),
}

/// The mathematical model of a [`Run`].
#[verifier::ext_equal]
pub struct RunV {
    pub script: RunScriptV,
    pub directory: Option<Seq<char>>,
}

impl View for Run {
    type V = RunV;

    closed spec fn view(&self) -> RunV {
        RunV {
            script: match self.script {
                RunEnum::Single(c) => RunScriptV::Single(c@),
                RunEnum::Multi(cs) => RunScriptV::Multi(cs.deep_view()),
            },
            directory: self.directory.deep_view(),
        }
    }
}

impl DeepView for Run {
    type V = RunV;

    open spec fn deep_view(&self) -> RunV {
        self.view()
    }
}

/// Creates a single-command [`Run`] from a program and its arguments.
pub fn cmd(program: &str, args: &[&str]) -> (r: Run)
    ensures
        r@ == (RunV {
            script: RunScriptV::Single(CmdV { program: program@, args: args.deep_view() }),
            directory: Option::None,
        }),
{
    let c = Cmd::new(program).args(args);
    proof {
        assert(c@.args =~~= args.deep_view());
    }
    Run { script: RunEnum::Single(c), directory: Option::None }
}

/// Creates a single-command [`Run`] from a pre-formed command line.  The
/// whole line stands as the program word; this form is meant for rendering
/// only.
pub fn run(command: &str) -> (r: Run)
    ensures
        r@ == (RunV {
            script: RunScriptV::Single(CmdV { program: command@, args: Seq::empty() }),
            directory: Option::None,
        }),
{
    Run { script: RunEnum::Single(Cmd::new(command)), directory: Option::None }
}

/// The command built from one script line: the first word is the program,
/// the rest are its arguments.
pub open spec fn line_cmd(line: Seq<Seq<char>>) -> CmdV {
    CmdV { program: line[0], args: line.skip(1) }
}

/// The commands of a multi-line script, in order.
pub open spec fn script_cmds(lines: Seq<Seq<Seq<char>>>) -> Seq<CmdV>
    decreases lines.len(),
{
    if lines.len() == 0 {
        Seq::empty()
    } else {
        script_cmds(lines.drop_last()).push(line_cmd(lines.last()))
    }
}

/// Creates a multi-command [`Run`] from an ordered sequence of command
/// lines, each given as program-and-arguments words.
pub fn script(lines: &[&[&str]]) -> (r: Run)
    requires
        forall|i: int| 0 <= i < lines@.len() ==> lines@[i]@.len() > 0,
    ensures
        r@ == (RunV {
            script: RunScriptV::Multi(script_cmds(lines.deep_view())),
            directory: Option::None,
        }),
{
    let mut cmds: Vec<Cmd> = Vec::new();
    let mut i: usize = 0;
    proof {
        assert(cmds.deep_view() =~~= script_cmds(lines.deep_view().take(0)));
    }
    while i < lines.len()
        invariant
            i <= lines.len(),
            forall|j: int| 0 <= j < lines@.len() ==> lines@[j]@.len() > 0,
            cmds.deep_view() == script_cmds(lines.deep_view().take(i as int)),
        decreases lines.len() - i,
    {
        let line: &[&str] = lines[i];
        let tail: &[&str] = &line[1..line.len()];
        let c = Cmd::new(line[0]).args(tail);
        proof {
            let lv = lines.deep_view()[i as int];
            assert(lv =~~= line.deep_view());
            assert(tail.deep_view() =~~= line.deep_view().skip(1));
            assert(c@.args =~~= lv.skip(1));
            assert(c@ == line_cmd(lv));
            assert(lines.deep_view().take(i + 1).drop_last() =~= lines.deep_view().take(i as int));
            assert(lines.deep_view().take(i + 1).last() == lines.deep_view()[i as int]);
        }
        cmds.push(c);
        proof {
            assert(cmds.deep_view() =~~= script_cmds(lines.deep_view().take(i + 1)));
        }
        i = i + 1;
    }
    proof {
        assert(lines.deep_view().take(lines.len() as int) =~~= lines.deep_view());
    }
    Run { script: RunEnum::Multi(cmds), directory: Option::None }
}

impl Run {
    /// Tags this run with a working directory.
    pub fn dir(self, directory: &str) -> (r: Run)
        ensures
            r@ == (RunV { directory: Option::Some(directory@), ..self@ }),
    {
        let mut r = self;
        r.directory = Option::Some(directory.to_owned());
        r
    }

    /// Tags this run with a working directory.
    pub fn in_directory(self, directory: &str) -> (r: Run)
        ensures
            r@ == (RunV { directory: Option::Some(directory@), ..self@ }),
    {
        self.dir(directory)
    }

    /// Creates a multi-command [`Run`] from pre-formed command lines, one
    /// per entry.
    pub fn lines(lines: &[&str]) -> (r: Run)
        ensures
            r@ == (RunV {
                script: RunScriptV::Multi(
                    Seq::new(lines.deep_view().len(), |i: int| CmdV {
                        program: lines.deep_view()[i],
                        args: Seq::empty(),
                    }),
                ),
                directory: Option::None,
            }),
    {
        let ghost target = Seq::new(lines.deep_view().len(), |i: int| CmdV {
            program: lines.deep_view()[i],
            args: Seq::empty(),
        });
        let mut cmds: Vec<Cmd> = Vec::new();
        let mut i: usize = 0;
        proof {
            assert(cmds.deep_view() =~~= target.take(0));
        }
        while i < lines.len()
            invariant
                i <= lines.len(),
                target == Seq::new(lines.deep_view().len(), |k: int| CmdV {
                    program: lines.deep_view()[k],
                    args: Seq::empty(),
                }),
                cmds.deep_view() == target.take(i as int),
            decreases lines.len() - i,
        {
            let ghost cprev = cmds.deep_view();
            let c = Cmd::new(lines[i]);
            proof {
                assert(c@ == target[i as int]);
            }
            cmds.push(c);
            proof {
                assert(cmds.deep_view() =~~= cprev.push(c@));
                assert(cprev.push(c@) =~~= target.take(i + 1));
            }
            i = i + 1;
        }
        proof {
            assert(target.take(lines.len() as int) =~~= target);
        }
        Run { script: RunEnum::Multi(cmds), directory: Option::None }
    }
}

/// The rendered lines of a multi-command script block, one indented line
/// per command.
pub open spec fn render_script_lines(cmds: Seq<CmdV>) -> Seq<char>
    decreases cmds.len(),
{
    if cmds.len() == 0 {
        Seq::empty()
    } else {
        render_script_lines(cmds.drop_last()) + "        "@ + render_cmd(cmds.last()) + "\n"@
    }
}

/// The rendered form of a runnable step: an optional working-directory
/// line, then either a single `run:` line or a `run: |` block.
pub open spec fn render_run(r: RunV) -> Seq<char> {
    "    - "@ + (match r.directory {
        Option::Some(d) => "working-directory: "@ + d + "\n      "@,
        Option::None => Seq::empty(),
    }) + (match r.script {
        RunScriptV::Single(c) => "run: "@ + render_cmd(c) + "\n"@,
        RunScriptV::Multi(cmds) => "run: |\n"@ + render_script_lines(cmds),
    })
}

impl Run {
    /// Appends the rendered form of this run to `out`.
    pub fn render_into(&self, out: &mut String)
        ensures
            final(out)@ == old(out)@ + render_run(self@),
    {
        out.append("    - ");
        match &self.directory {
            Option::Some(d) => {
                out.append("working-directory: ");
                out.append(d.as_str());
                out.append("\n      ");
            },
            Option::None => {},
        }
        match &self.script {
            RunEnum::Single(c) => {
                out.append("run: ");
                c.render_into(out);
                out.append("\n");
            },
            RunEnum::Multi(cmds) => {
                out.append("run: |\n");
                let ghost base = out@;
                let ghost all = cmds.deep_view();
                let mut i: usize = 0;
                proof {
                    assert(base + render_script_lines(all.take(0)) =~= base);
                }
                while i < cmds.len()
                    invariant
                        i <= cmds.len(),
                        all == cmds.deep_view(),
                        out@ == base + render_script_lines(all.take(i as int)),
                    decreases cmds.len() - i,
                {
                    out.append("        ");
                    cmds[i].render_into(out);
                    out.append("\n");
                    proof {
                        assert(all.take(i + 1).drop_last() =~= all.take(i as int));
                        assert(all.take(i + 1).last() == all[i as int]);
                        assert(out@ =~= base + render_script_lines(all.take(i + 1)));
                    }
                    i = i + 1;
                }
                proof {
                    assert(all.take(cmds.len() as int) =~= all);
                }
            },
        }
    }
}

// ---------------------------------------------------------------------------
// Step
// ---------------------------------------------------------------------------

/// One renderable unit of a job: empty, an ordered group, an action
/// invocation, or a runnable command.
pub struct Step(StepEnum);

enum StepEnum {
    Empty,
    Multi(Vec<Step>),
    Action(Action),
    Run(Run),
}

/// The mathematical model of a [`Step`].
#[verifier::ext_equal]
pub enum StepV {
    Empty,
    Multi(Seq<StepV>),
    Action(ActionV),
    Run(RunV),
}

/// The models of a sequence of steps, in order.
pub open spec fn steps_view(ss: Seq<Step>) -> Seq<StepV>
    decreases ss,
{
    if ss.len() == 0 {
        Seq::empty()
    } else {
        steps_view(ss.drop_last()).push(ss.last()@)
    }
}

impl View for Step {
    type V = StepV;

    closed spec fn view(&self) -> StepV
        decreases self,
    {
        match &self.0 {
            StepEnum::Empty => StepV::Empty,
            StepEnum::Multi(steps) => StepV::Multi(steps_view(steps@)),
            StepEnum::Action(a) => StepV::Action(a@),
            StepEnum::Run(r) => StepV::Run(r@),
        }
    }
}

impl DeepView for Step {
    type V = StepV;

    open spec fn deep_view(&self) -> StepV {
        self.view()
    }
}

/// `steps_view` distributes over the elements.
pub proof fn lemma_steps_view(ss: Seq<Step>)
    ensures
        steps_view(ss).len() == ss.len(),
        forall|i: int| 0 <= i < ss.len() ==> #[trigger] steps_view(ss)[i] == ss[i]@,
    decreases ss,
{
    if ss.len() > 0 {
        let dl = ss.drop_last();
        lemma_steps_view(dl);
        assert(steps_view(ss) == steps_view(dl).push(ss.last()@));
        assert forall|i: int| 0 <= i < ss.len() implies #[trigger] steps_view(ss)[i]
            == ss[i]@ by {
            if i < ss.len() - 1 {
                assert(steps_view(dl)[i] == dl[i]@);
                assert(dl[i] == ss[i]);
            } else {
                assert(steps_view(ss)[i] == ss.last()@);
                assert(ss[i] == ss.last());
            }
        }
    }
}

/// Creates the step grouping the given steps in order.
pub fn multi_step(steps: Vec<Step>) -> (r: Step)
    ensures
        r@ == StepV::Multi(steps_view(steps@)),
{
    Step(StepEnum::Multi(steps))
}

/// Picks `step` when `condition` holds, and the empty step otherwise.
pub fn when(condition: bool, step: Step) -> (r: Step)
    ensures
        r@ == (if condition {
            step@
        } else {
            StepV::Empty
        }),
{
    if condition {
        step
    } else {
        Step(StepEnum::Empty)
    }
}

impl Step {
    /// Returns the step unchanged; a placeholder for a failure-only
    /// condition on the step.
    pub fn if_failed(self) -> (r: Step)
        ensures
            r@ == self@,
    {
        self
    }
}

impl Action {
    /// The step invoking this action.
    pub fn into_step(self) -> (r: Step)
        ensures
            r@ == StepV::Action(self@),
    {
        Step(StepEnum::Action(self))
    }
}

impl Run {
    /// The step running this command or script.
    pub fn into_step(self) -> (r: Step)
        ensures
            r@ == StepV::Run(self@),
    {
        Step(StepEnum::Run(self))
    }
}

impl Cmd {
    /// A single-command run of this command.
    pub fn into_run(self) -> (r: Run)
        ensures
            r@ == (RunV { script: RunScriptV::Single(self@), directory: Option::None }),
    {
        Run { script: RunEnum::Single(self), directory: Option::None }
    }
}

/// The rendered form of a step.  An empty step contributes nothing; a
/// group renders each child in order.
pub open spec fn render_step(s: StepV) -> Seq<char>
    decreases s,
{
    match s {
        StepV::Empty => Seq::empty(),
        StepV::Multi(ss) => render_steps(ss),
        StepV::Action(a) => render_action(a),
        StepV::Run(r) => render_run(r),
    }
}

/// The rendered form of a sequence of steps, in order.
pub open spec fn render_steps(ss: Seq<StepV>) -> Seq<char>
    decreases ss,
{
    if ss.len() == 0 {
        Seq::empty()
    } else {
        render_steps(ss.drop_last()) + render_step(ss.last())
    }
}

impl Step {
    /// Appends the rendered form of this step to `out`.
    pub fn render_into(&self, out: &mut String)
        ensures
            final(out)@ == old(out)@ + render_step(self@),
        decreases self@,
    {
        match &self.0 {
            StepEnum::Empty => {
                proof {
                    assert(out@ + render_step(self@) =~= out@);
                }
            },
            StepEnum::Action(a) => {
                a.render_into(out);
            },
            StepEnum::Run(r) => {
                r.render_into(out);
            },
            StepEnum::Multi(steps) => {
                let ghost base = out@;
                let ghost all = steps_view(steps@);
                proof {
                    lemma_steps_view(steps@);
                    assert(base + render_steps(all.take(0)) =~= base);
                }
                let mut i: usize = 0;
                while i < steps.len()
                    invariant
                        i <= steps.len(),
                        self@ == StepV::Multi(all),
                        all == steps_view(steps@),
                        all.len() == steps@.len(),
                        forall|j: int| 0 <= j < steps@.len() ==> #[trigger] all[j] == steps@[j]@,
                        out@ == base + render_steps(all.take(i as int)),
                    decreases steps.len() - i,
                {
                    proof {
                        let ghost m = self@;
                        assert(all[i as int] == steps@[i as int]@);
                        assert(decreases_to!(m => m->Multi_0));
                        assert(m->Multi_0 == all);
                        assert(decreases_to!(all => all[i as int]));
                        assert(decreases_to!(m => all[i as int]));
                    }
                    steps[i].render_into(out);
                    proof {
                        assert(all.take(i + 1).drop_last() =~= all.take(i as int));
                        assert(all.take(i + 1).last() == all[i as int]);
                        assert(out@ =~= base + render_steps(all.take(i + 1)));
                    }
                    i = i + 1;
                }
                proof {
                    assert(all.take(steps.len() as int) =~= all);
                }
            },
        }
    }
}

// ---------------------------------------------------------------------------
// Common steps
// ---------------------------------------------------------------------------

/// The model of the repository-checkout step.
pub open spec fn checkout_step() -> StepV {
    StepV::Action(ActionV { uses: "actions/checkout@v3"@, with: Seq::empty(), env: Seq::empty() })
}

/// The step checking out the repository.
pub fn checkout() -> (r: Step)
    ensures
        r@ == checkout_step(),
{
    action("actions/checkout@v3").into_step()
}

/// The model of the build-cache restore step.
pub open spec fn rust_cache_step() -> StepV {
    StepV::Action(ActionV { uses: "Swatinem/rust-cache@v2"@, with: Seq::empty(), env: Seq::empty() })
}

/// The step restoring the build cache.
pub fn rust_cache() -> (r: Step)
    ensures
        r@ == rust_cache_step(),
{
    action("Swatinem/rust-cache@v2").into_step()
}

/// The model of the step installing a tool at a pinned version.
pub open spec fn install_step(crate_name: Seq<char>, version: Seq<char>) -> StepV {
    StepV::Run(RunV {
        script: RunScriptV::Single(CmdV {
            program: "cargo"@,
            args: seq!["install"@, crate_name, "--locked"@, "--version"@, version],
        }),
        directory: Option::None,
    })
}

/// The step installing the named tool at the given version.
pub fn install(crate_name: &str, version: &str) -> (r: Step)
    ensures
        r@ == install_step(crate_name@, version@),
{
    let c = Cmd::new("cargo").arg("install").arg(crate_name).arg("--locked").arg(
        "--version",
    ).arg(version);
    proof {
        assert(c@.args =~~= seq![
            "install"@,
            crate_name@,
            "--locked"@,
            "--version"@,
            version@,
        ]);
    }
    c.into_run().into_step()
}

/// The model of the artifact-upload step.
pub open spec fn upload_artifact_step(name: Seq<char>, path: Seq<char>) -> StepV {
    StepV::Action(ActionV {
        uses: "actions/upload-artifact@v3"@,
        with: seq![("name"@, name), ("path"@, path)],
        env: Seq::empty(),
    })
}

/// The step uploading a build artifact.
pub fn upload_artifact(name: &str, path: &str) -> (r: Step)
    ensures
        r@ == upload_artifact_step(name@, path@),
{
    let r = action("actions/upload-artifact@v3").with("name", name).with("path", path).into_step();
    proof {
        assert(Seq::<(Seq<char>, Seq<char>)>::empty().push(("name"@, name@)).push(("path"@, path@))
            =~= seq![("name"@, name@), ("path"@, path@)]);
    }
    r
}

// ---------------------------------------------------------------------------
// Rust toolchain descriptor
// ---------------------------------------------------------------------------

/// A compiler toolchain selection: channel, optional install profile,
/// default flag, extra components and extra compilation targets.
pub struct Rust {
    toolchain: String,
    profile: Option<&'static str>,
    default: bool,
    components: Vec<String>,
    targets: Option<Vec<String>>,
}

/// The mathematical model of a [`Rust`] toolchain descriptor.
#[verifier::ext_equal]
pub struct RustV {
    pub toolchain: Seq<char>,
    pub profile: Option<Seq<char>>,
    pub default: bool,
    pub components: Seq<Seq<char>>,
    pub targets: Option<Seq<Seq<char>>>,
}

impl View for Rust {
    type V = RustV;

    closed spec fn view(&self) -> RustV {
        RustV {
            toolchain: self.toolchain@,
            profile: self.profile.deep_view(),
            default: self.default,
            components: self.components.deep_view(),
            targets: self.targets.deep_view(),
        }
    }
}

impl DeepView for Rust {
    type V = RustV;

    open spec fn deep_view(&self) -> RustV {
        self.view()
    }
}

/// Creates a toolchain descriptor for the given channel with no profile,
/// components or targets.
pub fn rust_toolchain(version: &str) -> (r: Rust)
    ensures
        r@ == (RustV {
            toolchain: version@,
            profile: Option::None,
            default: false,
            components: Seq::empty(),
            targets: Option::None,
        }),
{
    let r = Rust {
        toolchain: version.to_owned(),
        profile: Option::None,
        default: false,
        components: Vec::new(),
        targets: Option::None,
    };
    proof {
        assert(r@ =~~= RustV {
            toolchain: version@,
            profile: Option::None,
            default: false,
            components: Seq::empty(),
            targets: Option::None,
        });
    }
    r
}

/// True exactly when the channel name starts with the nightly marker.
pub open spec fn is_nightly_channel(toolchain: Seq<char>) -> bool {
    toolchain.len() >= 7 && toolchain.take(7) == "nightly"@
}

impl Rust {
    /// Whether this toolchain is the nightly-equivalent variant, which
    /// requires the per-invocation selection of toolchain-aware execution.
    pub fn is_nightly(&self) -> (r: bool)
        ensures
            r == is_nightly_channel(self@.toolchain),
    {
        let s = self.toolchain.as_str();
        let pat = "nightly";
        proof {
            reveal_strlit("nightly");
        }
        let n: usize = s.unicode_len();
        if n < 7 {
            return false;
        }
        let mut i: usize = 0;
        while i < 7
            invariant
                i <= 7,
                7 <= n,
                n == s@.len(),
                s@ == self@.toolchain,
                pat@ == "nightly"@,
                pat@.len() == 7,
                forall|j: int| 0 <= j < i ==> s@[j] == pat@[j],
            decreases 7 - i,
        {
            if s.get_char(i) != pat.get_char(i) {
                proof {
                    assert(s@.take(7)[i as int] != "nightly"@[i as int]);
                }
                return false;
            }
            i = i + 1;
        }
        proof {
            assert(s@.take(7) =~= "nightly"@);
        }
        true
    }

    /// Adds the WebAssembly compilation target.
    pub fn wasm(self) -> (r: Rust)
        ensures
            r@ == (RustV {
                targets: Option::Some(
                    (match self@.targets {
                        Option::Some(ts) => ts,
                        Option::None => Seq::empty(),
                    }).push("wasm32-unknown-unknown"@),
                ),
                ..self@
            }),
    {
        let ghost orig = self@;
        let mut r = self;
        let mut ts: Vec<String> = match r.targets {
            Option::Some(v) => v,
            Option::None => Vec::new(),
        };
        proof {
            assert(ts.deep_view() =~~= (match orig.targets {
                Option::Some(tv) => tv,
                Option::None => Seq::empty(),
            }));
        }
        let ghost before = ts.deep_view();
        ts.push("wasm32-unknown-unknown".to_owned());
        proof {
            assert(ts.deep_view() =~~= before.push("wasm32-unknown-unknown"@));
        }
        r.targets = Option::Some(ts);
        r
    }

    /// Selects the minimal install profile.
    pub fn minimal(self) -> (r: Rust)
        ensures
            r@ == (RustV { profile: Option::Some("minimal"@), ..self@ }),
    {
        let mut r = self;
        r.profile = Option::Some("minimal");
        r
    }

    /// Makes this toolchain the default one.
    pub fn default(self) -> (r: Rust)
        ensures
            r@ == (RustV { default: true, ..self@ }),
    {
        let mut r = self;
        r.default = true;
        r
    }

    /// Adds the lint-checker component.
    pub fn clippy(self) -> (r: Rust)
        ensures
            r@ == (RustV { components: self@.components.push("clippy"@), ..self@ }),
    {
        let ghost orig = self@;
        let mut r = self;
        r.components.push("clippy".to_owned());
        proof {
            assert(r.components.deep_view() =~~= orig.components.push("clippy"@));
        }
        r
    }

    /// Adds the formatter component.
    pub fn rustfmt(self) -> (r: Rust)
        ensures
            r@ == (RustV { components: self@.components.push("rustfmt"@), ..self@ }),
    {
        let ghost orig = self@;
        let mut r = self;
        r.components.push("rustfmt".to_owned());
        proof {
            assert(r.components.deep_view() =~~= orig.components.push("rustfmt"@));
        }
        r
    }
}

/// The given pieces joined with a comma and a space between neighbours.
pub open spec fn join_comma(xs: Seq<Seq<char>>) -> Seq<char>
    decreases xs.len(),
{
    if xs.len() == 0 {
        Seq::empty()
    } else if xs.len() == 1 {
        xs[0]
    } else {
        join_comma(xs.drop_last()) + ", "@ + xs.last()
    }
}

fn join_comma_exec(xs: &Vec<String>) -> (r: String)
    ensures
        r@ == join_comma(xs.deep_view()),
{
    let mut out = String::new();
    let ghost all = xs.deep_view();
    let mut i: usize = 0;
    proof {
        assert(out@ =~= join_comma(all.take(0)));
    }
    while i < xs.len()
        invariant
            i <= xs.len(),
            all == xs.deep_view(),
            out@ == join_comma(all.take(i as int)),
        decreases xs.len() - i,
    {
        if i > 0 {
            out.append(", ");
        }
        out.append(xs[i].as_str());
        proof {
            assert(all.take(i + 1).drop_last() =~= all.take(i as int));
            assert(all.take(i + 1).last() == all[i as int]);
            if i == 0 {
                assert(all.take(1)[0] == all[0]);
                assert(out@ =~= join_comma(all.take(1)));
            } else {
                assert(out@ =~= join_comma(all.take(i + 1)));
            }
        }
        i = i + 1;
    }
    proof {
        assert(all.take(xs.len() as int) =~= all);
    }
    out
}

/// The action selecting this toolchain in the rendered configuration:
/// channel, then profile, default flag, components and targets, each
/// omitted when absent.
pub open spec fn rust_action(r: RustV) -> ActionV {
    ActionV {
        uses: "ructions/toolchain@v2"@,
        with: seq![("toolchain"@, r.toolchain)] + (match r.profile {
            Option::Some(p) => seq![("profile"@, p)],
            Option::None => Seq::empty(),
        }) + (if r.default {
            seq![("default"@, "true"@)]
        } else {
            Seq::empty()
        }) + (if r.components.len() > 0 {
            seq![("components"@, join_comma(r.components))]
        } else {
            Seq::empty()
        }) + (match r.targets {
            Option::Some(ts) => seq![("target"@, join_comma(ts))],
            Option::None => Seq::empty(),
        }),
        env: Seq::empty(),
    }
}

/// The step installing this toolchain.
pub open spec fn rust_step(r: RustV) -> StepV {
    StepV::Action(rust_action(r))
}

impl Rust {
    /// The setup step selecting this toolchain.
    pub fn into_step(self) -> (r: Step)
        ensures
            r@ == rust_step(self@),
    {
        let ghost rv = self@;
        let mut a = action("ructions/toolchain@v2").with("toolchain", self.toolchain.as_str());
        match self.profile {
            Option::Some(p) => a.add_with("profile", p),
            Option::None => {},
        }
        if self.default {
            a.add_with("default", "true");
        }
        if self.components.len() > 0 {
            let joined = join_comma_exec(&self.components);
            a.add_with("components", joined.as_str());
        }
        match &self.targets {
            Option::Some(ts) => {
                let joined = join_comma_exec(ts);
                a.add_with("target", joined.as_str());
            },
            Option::None => {},
        }
        proof {
            assert(a@.with =~~= rust_action(rv).with);
            assert(a@.env =~~= rust_action(rv).env);
            assert(a@ =~~= rust_action(rv));
        }
        a.into_step()
    }
}

/// The toolchain-installation composite pre-appended to every task:
/// checkout, toolchain selection, cache restore.
pub open spec fn install_rust_step(r: RustV) -> StepV {
    StepV::Multi(seq![checkout_step(), rust_step(r), rust_cache_step()])
}

/// The composite setup step: checkout, toolchain selection, cache restore.
pub fn install_rust(rust: Rust) -> (r: Step)
    ensures
        r@ == install_rust_step(rust@),
{
    let ghost rv = rust@;
    let mut steps: Vec<Step> = Vec::new();
    steps.push(checkout());
    steps.push(rust.into_step());
    steps.push(rust_cache());
    proof {
        lemma_steps_view(steps@);
        assert(steps_view(steps@) =~~= seq![checkout_step(), rust_step(rv), rust_cache_step()]);
    }
    multi_step(steps)
}

// ---------------------------------------------------------------------------
// Events
// ---------------------------------------------------------------------------

/// A push trigger with optional branch filters.
pub struct Push {
    branches: Vec<String>,
}

/// A pull-request trigger.
pub struct PullRequest;

/// A workflow trigger: a push (with optional branch filters) or a pull
/// request.
pub struct Event(EventEnum);

enum EventEnum {
    Push(Push),
    PullRequest(PullRequest),
}

/// The mathematical model of an [`Event`].
#[verifier::ext_equal]
pub enum EventV {
    Push(Seq<Seq<char>>),
    PullRequest,
}

impl View for Push {
    type V = Seq<Seq<char>>;

    closed spec fn view(&self) -> Seq<Seq<char>> {
        self.branches.deep_view()
    }
}

impl DeepView for Push {
    type V = Seq<Seq<char>>;

    open spec fn deep_view(&self) -> Seq<Seq<char>> {
        self.view()
    }
}

impl View for Event {
    type V = EventV;

    closed spec fn view(&self) -> EventV {
        match &self.0 {
            EventEnum::Push(p) => EventV::Push(p@),
            EventEnum::PullRequest(_) => EventV::PullRequest,
        }
    }
}

impl DeepView for Event {
    type V = EventV;

    open spec fn deep_view(&self) -> EventV {
        self.view()
    }
}

/// A push trigger with no branch filter yet.
pub fn push() -> (r: Push)
    ensures
        r@ == Seq::<Seq<char>>::empty(),
{
    let r = Push { branches: Vec::new() };
    proof {
        assert(r@ =~~= Seq::<Seq<char>>::empty());
    }
    r
}

/// A pull-request trigger.
pub fn pull_request() -> PullRequest {
    PullRequest
}

impl Push {
    /// Adds a branch filter.
    pub fn branch(self, branch: &str) -> (r: Push)
        ensures
            r@ == self@.push(branch@),
    {
        let ghost orig = self@;
        let mut p = self;
        p.branches.push(branch.to_owned());
        proof {
            assert(p@ =~~= orig.push(branch@));
        }
        p
    }

    /// The trigger event for this push.
    pub fn into_event(self) -> (e: Event)
        ensures
            e@ == EventV::Push(self@),
    {
        Event(EventEnum::Push(self))
    }
}

impl PullRequest {
    /// The trigger event for a pull request.
    pub fn into_event(self) -> (e: Event)
        ensures
            e@ == EventV::PullRequest,
    {
        Event(EventEnum::PullRequest(self))
    }
}

/// The branch filter lines of a push trigger, one per branch.
pub open spec fn render_branches(branches: Seq<Seq<char>>) -> Seq<char>
    decreases branches.len(),
{
    if branches.len() == 0 {
        Seq::empty()
    } else {
        render_branches(branches.drop_last()) + "    - "@ + branches.last() + "\n"@
    }
}

/// The rendered form of a trigger event.
pub open spec fn render_event(e: EventV) -> Seq<char> {
    match e {
        EventV::Push(branches) => "  push:\n"@ + (if branches.len() == 0 {
            Seq::empty()
        } else {
            "    branches:\n"@ + render_branches(branches)
        }),
        EventV::PullRequest => "  pull_request:\n"@,
    }
}

impl Event {
    /// Appends the rendered form of this trigger to `out`.
    pub fn render_into(&self, out: &mut String)
        ensures
            final(out)@ == old(out)@ + render_event(self@),
    {
        match &self.0 {
            EventEnum::PullRequest(_) => {
                out.append("  pull_request:\n");
            },
            EventEnum::Push(p) => {
                out.append("  push:\n");
                if p.branches.len() > 0 {
                    out.append("    branches:\n");
                    let ghost base = out@;
                    let ghost all = p@;
                    let mut i: usize = 0;
                    proof {
                        assert(base + render_branches(all.take(0)) =~= base);
                    }
                    while i < p.branches.len()
                        invariant
                            i <= p.branches.len(),
                            all == p.branches.deep_view(),
                            out@ == base + render_branches(all.take(i as int)),
                        decreases p.branches.len() - i,
                    {
                        out.append("    - ");
                        out.append(p.branches[i].as_str());
                        out.append("\n");
                        proof {
                            assert(all.take(i + 1).drop_last() =~= all.take(i as int));
                            assert(all.take(i + 1).last() == all[i as int]);
                            assert(out@ =~= base + render_branches(all.take(i + 1)));
                        }
                        i = i + 1;
                    }
                    proof {
                        assert(all.take(p.branches.len() as int) =~= all);
                    }
                }
            },
        }
    }
}

// ---------------------------------------------------------------------------
// Jobs and Workflows
// ---------------------------------------------------------------------------

struct Job {
    name: String,
    runs_on: Platform,
    steps: Vec<Step>,
}

/// The mathematical model of one job of a workflow.
#[verifier::ext_equal]
pub struct JobV {
    pub name: Seq<char>,
    pub runs_on: Platform,
    pub steps: Seq<StepV>,
}

impl View for Job {
    type V = JobV;

    closed spec fn view(&self) -> JobV {
        JobV { name: self.name@, runs_on: self.runs_on, steps: steps_view(self.steps@) }
    }
}

impl DeepView for Job {
    type V = JobV;

    open spec fn deep_view(&self) -> JobV {
        self.view()
    }
}

impl Job {
    fn new(name: &str, runs_on: Platform, steps: Vec<Step>) -> (r: Job)
        ensures
            r@ == (JobV { name: name@, runs_on, steps: steps_view(steps@) }),
    {
        Job { name: name.to_owned(), runs_on, steps }
    }
}

/// The rendered form of one job: its key (`{name}-{platform}`), the
/// platform it runs on, and its ordered steps.
pub open spec fn render_job(j: JobV) -> Seq<char> {
    "  "@ + j.name + "-"@ + platform_str(j.runs_on) + ":\n"@ + "    runs-on: "@ + platform_str(
        j.runs_on,
    ) + "\n"@ + "    steps:\n"@ + render_steps(j.steps)
}

impl Job {
    fn render_into(&self, out: &mut String)
        ensures
            final(out)@ == old(out)@ + render_job(self@),
    {
        out.append("  ");
        out.append(self.name.as_str());
        out.append("-");
        out.append(self.runs_on.as_str());
        out.append(":\n");
        out.append("    runs-on: ");
        out.append(self.runs_on.as_str());
        out.append("\n");
        out.append("    steps:\n");
        let ghost base = out@;
        let ghost all = steps_view(self.steps@);
        proof {
            lemma_steps_view(self.steps@);
            assert(base + render_steps(all.take(0)) =~= base);
        }
        let mut i: usize = 0;
        while i < self.steps.len()
            invariant
                i <= self.steps.len(),
                all == steps_view(self.steps@),
                all.len() == self.steps@.len(),
                forall|j: int|
                    0 <= j < self.steps@.len() ==> #[trigger] all[j] == self.steps@[j]@,
                out@ == base + render_steps(all.take(i as int)),
            decreases self.steps.len() - i,
        {
            self.steps[i].render_into(out);
            proof {
                assert(all.take(i + 1).drop_last() =~= all.take(i as int));
                assert(all.take(i + 1).last() == all[i as int]);
                assert(out@ =~= base + render_steps(all.take(i + 1)));
            }
            i = i + 1;
        }
        proof {
            assert(all.take(self.steps.len() as int) =~= all);
        }
    }
}

/// A named workflow: trigger events plus jobs, the unit of one rendered
/// configuration file.
#[must_use]
pub struct Workflow {
    name: String,
    triggers: Vec<Event>,
    jobs: Vec<Job>,
}

/// The mathematical model of a [`Workflow`].
#[verifier::ext_equal]
pub struct WorkflowV {
    pub name: Seq<char>,
    pub triggers: Seq<EventV>,
    pub jobs: Seq<JobV>,
}

impl View for Workflow {
    type V = WorkflowV;

    closed spec fn view(&self) -> WorkflowV {
        WorkflowV {
            name: self.name@,
            triggers: self.triggers.deep_view(),
            jobs: self.jobs.deep_view(),
        }
    }
}

impl DeepView for Workflow {
    type V = WorkflowV;

    open spec fn deep_view(&self) -> WorkflowV {
        self.view()
    }
}

/// Creates an empty workflow with the given name.
pub fn workflow(name: &str) -> (r: Workflow)
    ensures
        r@ == (WorkflowV { name: name@, triggers: Seq::empty(), jobs: Seq::empty() }),
{
    let r = Workflow { name: name.to_owned(), triggers: Vec::new(), jobs: Vec::new() };
    proof {
        assert(r@ =~~= WorkflowV { name: name@, triggers: Seq::empty(), jobs: Seq::empty() });
    }
    r
}

impl Workflow {
    /// Appends trigger events, builder style.
    pub fn on(self, events: Vec<Event>) -> (r: Workflow)
        ensures
            r@ == (WorkflowV { triggers: self@.triggers + events.deep_view(), ..self@ }),
    {
        let ghost orig = self@;
        let ghost added = events.deep_view();
        let mut w = self;
        let mut events = events;
        w.triggers.append(&mut events);
        proof {
            assert(w.triggers.deep_view() =~~= orig.triggers + added);
            assert(w@ =~~= WorkflowV { triggers: orig.triggers + added, ..orig });
        }
        w
    }

    /// Appends a job in place.  Its rendered key is `{name}-{platform}`;
    /// the builder does not de-duplicate, so two jobs with the same name
    /// and platform collide in the rendered output — avoiding that is the
    /// caller's responsibility.
    pub fn add_job(&mut self, name: &str, runs_on: Platform, steps: Vec<Step>)
        ensures
            final(self)@ == (WorkflowV {
                jobs: old(self)@.jobs.push(
                    JobV { name: name@, runs_on, steps: steps_view(steps@) },
                ),
                ..old(self)@
            }),
    {
        let ghost sv = steps_view(steps@);
        let j = Job::new(name, runs_on, steps);
        let ghost before = self.jobs.deep_view();
        self.jobs.push(j);
        proof {
            assert(self.jobs.deep_view() =~~= before.push(
                JobV { name: name@, runs_on, steps: sv },
            ));
        }
    }

    /// Appends a job, builder style.
    pub fn job(self, name: &str, runs_on: Platform, steps: Vec<Step>) -> (r: Workflow)
        ensures
            r@ == (WorkflowV {
                jobs: self@.jobs.push(JobV { name: name@, runs_on, steps: steps_view(steps@) }),
                ..self@
            }),
    {
        let mut w = self;
        w.add_job(name, runs_on, steps);
        w
    }
}

/// The header marking the rendered file as machine-maintained.
pub open spec fn workflow_header() -> Seq<char> {
    "# This file is maintained by xtask-base.\n# Please do not edit!\n"@
}

/// The rendered trigger block, one entry per event in order.
pub open spec fn render_events(es: Seq<EventV>) -> Seq<char>
    decreases es.len(),
{
    if es.len() == 0 {
        Seq::empty()
    } else {
        render_events(es.drop_last()) + render_event(es.last())
    }
}

/// The rendered job blocks, one per job in order.
pub open spec fn render_jobs(js: Seq<JobV>) -> Seq<char>
    decreases js.len(),
{
    if js.len() == 0 {
        Seq::empty()
    } else {
        render_jobs(js.drop_last()) + render_job(js.last())
    }
}

/// The rendered form of a whole workflow: header, name, trigger block,
/// then one block per job.
pub open spec fn render_workflow(w: WorkflowV) -> Seq<char> {
    workflow_header() + "name: "@ + w.name + "\n"@ + "on:\n"@ + render_events(w.triggers)
        + "jobs:\n"@ + render_jobs(w.jobs)
}

/// The path of the configuration file a workflow is written to, derived
/// from its name.
pub open spec fn workflow_path(name: Seq<char>) -> Seq<char> {
    ".github/workflows/"@ + name + ".yml"@
}

/// What [`Workflow::write`] returns: `Ok(Some(text))` asks the caller to
/// persist `text`; `Ok(None)` means check mode found the file up to date;
/// an error reports a missing file or stale content.  Check mode never
/// asks for a write.
pub open spec fn write_plan(w: WorkflowV, check: bool, existing: Option<Seq<char>>) -> Result<
    Option<Seq<char>>,
    crate::WorkflowErrorV,
> {
    match crate::update_decision(workflow_path(w.name), render_workflow(w), check, existing) {
        Result::Ok(true) => Result::Ok(Option::Some(render_workflow(w))),
        Result::Ok(false) => Result::Ok(Option::None),
        Result::Err(e) => Result::Err(e),
    }
}

impl Workflow {
    /// Renders the whole workflow to configuration text.
    pub fn render(&self) -> (r: String)
        ensures
            r@ == render_workflow(self@),
    {
        let mut out = String::new();
        out.append("# This file is maintained by xtask-base.\n# Please do not edit!\n");
        out.append("name: ");
        out.append(self.name.as_str());
        out.append("\n");
        out.append("on:\n");
        let ghost base = out@;
        let ghost all = self.triggers.deep_view();
        let mut i: usize = 0;
        proof {
            assert(base + render_events(all.take(0)) =~= base);
        }
        while i < self.triggers.len()
            invariant
                i <= self.triggers.len(),
                all == self.triggers.deep_view(),
                out@ == base + render_events(all.take(i as int)),
            decreases self.triggers.len() - i,
        {
            self.triggers[i].render_into(&mut out);
            proof {
                assert(all.take(i + 1).drop_last() =~= all.take(i as int));
                assert(all.take(i + 1).last() == all[i as int]);
                assert(out@ =~= base + render_events(all.take(i + 1)));
            }
            i = i + 1;
        }
        proof {
            assert(all.take(self.triggers.len() as int) =~= all);
        }
        out.append("jobs:\n");
        let ghost base2 = out@;
        let ghost jall = self.jobs.deep_view();
        let mut k: usize = 0;
        proof {
            assert(base2 + render_jobs(jall.take(0)) =~= base2);
        }
        while k < self.jobs.len()
            invariant
                k <= self.jobs.len(),
                jall == self.jobs.deep_view(),
                out@ == base2 + render_jobs(jall.take(k as int)),
            decreases self.jobs.len() - k,
        {
            self.jobs[k].render_into(&mut out);
            proof {
                assert(jall.take(k + 1).drop_last() =~= jall.take(k as int));
                assert(jall.take(k + 1).last() == jall[k as int]);
                assert(out@ =~= base2 + render_jobs(jall.take(k + 1)));
            }
            k = k + 1;
        }
        proof {
            assert(jall.take(self.jobs.len() as int) =~= jall);
        }
        out
    }

    /// The path of this workflow's configuration file.
    pub fn path(&self) -> (r: String)
        ensures
            r@ == workflow_path(self@.name),
    {
        let mut out = String::new();
        out.append(".github/workflows/");
        out.append(self.name.as_str());
        out.append(".yml");
        out
    }

    /// Renders the workflow and decides what must happen to its file.  In
    /// check mode the caller passes the current on-disk content (`None`
    /// when the file could not be read) and no write is ever requested; a
    /// stale file is reported with its path.  Outside check mode the
    /// rendered text is handed back to be written.
    pub fn write(&self, check: bool, existing: Option<&str>) -> (r: Result<
        Option<String>,
        WorkflowError,
    >)
        ensures
            crate::result_view(r) == write_plan(self@, check, crate::opt_str_view(existing)),
    {
        let contents = self.render();
        let path = self.path();
        match crate::update_file(path.as_str(), contents.as_str(), check, existing) {
            Result::Ok(true) => Result::Ok(Option::Some(contents)),
            Result::Ok(false) => Result::Ok(Option::None),
            Result::Err(e) => Result::Err(e),
        }
    }
}

// ---------------------------------------------------------------------------
// Local execution
// ---------------------------------------------------------------------------

/// Declares std::io::Error so the process-spawning wrappers can return
/// it; verified code only tells its presence apart and maps it to a
/// [`WorkflowError`] of its own.
#[verifier::external_type_specification]
#[verifier::external_body]
pub struct ExIoError(std::io::Error);

/// One planned subprocess invocation: the exact program and argument
/// vector that will be handed to the process runner, and the directory it
/// runs in.
pub struct Invocation {
    pub program: String,
    pub args: Vec<String>,
    pub directory: Option<String>,
}

/// The mathematical model of an [`Invocation`].
#[verifier::ext_equal]
pub struct InvocationV {
    pub program: Seq<char>,
    pub args: Seq<Seq<char>>,
    pub directory: Option<Seq<char>>,
}

impl View for Invocation {
    type V = InvocationV;

    open spec fn view(&self) -> InvocationV {
        InvocationV {
            program: self.program@,
            args: self.args.deep_view(),
            directory: self.directory.deep_view(),
        }
    }
}

impl DeepView for Invocation {
    type V = InvocationV;

    open spec fn deep_view(&self) -> InvocationV {
        self.view()
    }
}

/// The command actually invoked for `c`.  Under a nightly toolchain the
/// command is routed through the toolchain selector; otherwise it is
/// invoked directly.
pub open spec fn wrapped_cmd(c: CmdV, is_nightly: bool) -> CmdV {
    if is_nightly {
        CmdV { program: "rustup"@, args: seq!["run"@, "nightly"@, c.program] + c.args }
    } else {
        c
    }
}

/// The invocation for one command of a run.
pub open spec fn cmd_invocation(c: CmdV, dir: Option<Seq<char>>, is_nightly: bool) -> InvocationV {
    InvocationV {
        program: wrapped_cmd(c, is_nightly).program,
        args: wrapped_cmd(c, is_nightly).args,
        directory: dir,
    }
}

/// The invocations of each command of a script, in order.
pub open spec fn cmds_invocations(cs: Seq<CmdV>, dir: Option<Seq<char>>, is_nightly: bool) -> Seq<
    InvocationV,
>
    decreases cs.len(),
{
    if cs.len() == 0 {
        Seq::empty()
    } else {
        cmds_invocations(cs.drop_last(), dir, is_nightly).push(
            cmd_invocation(cs.last(), dir, is_nightly),
        )
    }
}

/// The subprocess invocations executing a run spawns, in order: one per
/// command it holds.
pub open spec fn run_invocations(r: RunV, is_nightly: bool) -> Seq<InvocationV> {
    match r.script {
        RunScriptV::Single(c) => seq![cmd_invocation(c, r.directory, is_nightly)],
        RunScriptV::Multi(cs) => cmds_invocations(cs, r.directory, is_nightly),
    }
}

/// A script's invocation plan has exactly one entry per command.
pub proof fn lemma_cmds_invocations_len(cs: Seq<CmdV>, dir: Option<Seq<char>>, is_nightly: bool)
    ensures
        cmds_invocations(cs, dir, is_nightly).len() == cs.len(),
    decreases cs.len(),
{
    if cs.len() > 0 {
        lemma_cmds_invocations_len(cs.drop_last(), dir, is_nightly);
    }
}

/// The i-th entry of a script's invocation plan is the i-th command's
/// invocation.
pub proof fn lemma_cmds_invocations_index(
    cs: Seq<CmdV>,
    dir: Option<Seq<char>>,
    is_nightly: bool,
    i: int,
)
    requires
        0 <= i < cs.len(),
    ensures
        cmds_invocations(cs, dir, is_nightly).len() == cs.len(),
        cmds_invocations(cs, dir, is_nightly)[i] == cmd_invocation(cs[i], dir, is_nightly),
    decreases cs.len(),
{
    lemma_cmds_invocations_len(cs, dir, is_nightly);
    if i < cs.len() - 1 {
        lemma_cmds_invocations_index(cs.drop_last(), dir, is_nightly, i);
        assert(cs.drop_last()[i] == cs[i]);
    }
}

/// The command failure reported when the given planned invocation does
/// not succeed.
pub open spec fn invocation_failure(inv: InvocationV) -> WorkflowErrorV {
    WorkflowErrorV::CommandFailed {
        command: render_cmd(CmdV { program: inv.program, args: inv.args }),
    }
}

fn clone_string_vec(v: &Vec<String>) -> (r: Vec<String>)
    ensures
        r.deep_view() == v.deep_view(),
{
    let mut r: Vec<String> = Vec::new();
    let mut i: usize = 0;
    proof {
        assert(r.deep_view() =~~= v.deep_view().take(0));
    }
    while i < v.len()
        invariant
            i <= v.len(),
            r.deep_view() == v.deep_view().take(i as int),
        decreases v.len() - i,
    {
        let ghost before = r.deep_view();
        let s = v[i].clone();
        r.push(s);
        proof {
            assert(r.deep_view() =~~= before.push(s@));
            assert(before.push(s@) =~~= v.deep_view().take(i + 1));
        }
        i = i + 1;
    }
    proof {
        assert(v.deep_view().take(v.len() as int) =~~= v.deep_view());
    }
    r
}

fn clone_opt_string(v: Option<&String>) -> (r: Option<String>)
    ensures
        r.deep_view() == (match v {
            Option::Some(s) => Option::Some(s@),
            Option::None => Option::None::<Seq<char>>,
        }),
{
    match v {
        Option::Some(s) => Option::Some(s.clone()),
        Option::None => Option::None,
    }
}

/// The view of an optionally borrowed directory string.
pub open spec fn opt_dir_view(d: Option<&String>) -> Option<Seq<char>> {
    match d {
        Option::Some(s) => Option::Some(s@),
        Option::None => Option::None,
    }
}

impl Cmd {
    /// The exact invocation executing this command makes under the given
    /// toolchain mode, in the given directory.
    pub fn invocation(&self, directory: Option<&String>, is_nightly: bool) -> (r: Invocation)
        ensures
            r@ == cmd_invocation(self@, opt_dir_view(directory), is_nightly),
    {
        let dir = clone_opt_string(directory);
        if is_nightly {
            let mut args: Vec<String> = Vec::new();
            args.push("run".to_owned());
            args.push("nightly".to_owned());
            args.push(self.program.clone());
            let ghost head = args.deep_view();
            proof {
                assert(head =~~= seq!["run"@, "nightly"@, self@.program]);
            }
            let mut rest = clone_string_vec(&self.args);
            args.append(&mut rest);
            proof {
                assert(args.deep_view() =~~= seq!["run"@, "nightly"@, self@.program]
                    + self@.args);
            }
            Invocation { program: "rustup".to_owned(), args, directory: dir }
        } else {
            Invocation {
                program: self.program.clone(),
                args: clone_string_vec(&self.args),
                directory: dir,
            }
        }
    }
}

fn render_cmdline_into(program: &String, args: &Vec<String>, out: &mut String)
    ensures
        final(out)@ == old(out)@ + render_cmd(
            CmdV { program: program@, args: args.deep_view() },
        ),
{
    out.append(program.as_str());
    let ghost base = out@;
    let ghost all = args.deep_view();
    let mut i: usize = 0;
    proof {
        assert(base + render_args(all.take(0)) =~= base);
    }
    while i < args.len()
        invariant
            i <= args.len(),
            all == args.deep_view(),
            out@ == base + render_args(all.take(i as int)),
        decreases args.len() - i,
    {
        out.append(" ");
        out.append(args[i].as_str());
        proof {
            assert(all.take(i + 1).drop_last() =~= all.take(i as int));
            assert(all.take(i + 1).last() == all[i as int]);
            assert(out@ =~= base + render_args(all.take(i + 1)));
        }
        i = i + 1;
    }
    proof {
        assert(all.take(args.len() as int) =~= all);
    }
}

/// Relies on duct::cmd and duct::Expression::run: spawns the program with
/// the given arguments, in `directory` when one is given, waits for it,
/// and returns Err on a spawn failure or a non-zero exit status.
#[verifier::external_body]
fn run_process(program: &String, args: &Vec<String>, directory: Option<&String>) -> Result<
    (),
    std::io::Error,
> {
    let expr = duct::cmd(program.as_str(), args.iter().map(|a| a.as_str()));
    let expr = if let Option::Some(d) = directory {
        expr.dir(d.as_str())
    } else {
        expr
    };
    expr.run().map(|_| ())
}

impl Invocation {
    /// The command line this invocation stands for, as rendered in error
    /// reports.
    pub fn command_line(&self) -> (r: String)
        ensures
            r@ == render_cmd(CmdV { program: self@.program, args: self@.args }),
    {
        let mut out = String::new();
        render_cmdline_into(&self.program, &self.args, &mut out);
        out
    }

    /// Spawns this invocation and waits for it.  Whether the subprocess
    /// succeeds depends on the machine; whatever comes back, a failure is
    /// reported as a command failure naming the exact command line.
    pub fn run(&self) -> (r: WorkflowResult<()>)
        ensures
            r matches Err(e) ==> e@ == (WorkflowErrorV::CommandFailed {
                command: render_cmd(CmdV { program: self@.program, args: self@.args }),
            }),
    {
        match run_process(&self.program, &self.args, self.directory.as_ref()) {
            Result::Ok(()) => Result::Ok(()),
            Result::Err(_) => Result::Err(
                WorkflowError::CommandFailed { command: self.command_line() },
            ),
        }
    }
}

impl Cmd {
    /// Executes this command in the given directory, through the nightly
    /// toolchain selector when `is_nightly` holds and directly otherwise.
    pub fn run_in_dir(&self, directory: Option<&String>, is_nightly: bool) -> (r: WorkflowResult<
        (),
    >)
        ensures
            r matches Err(e) ==> e@ == (WorkflowErrorV::CommandFailed {
                command: render_cmd(wrapped_cmd(self@, is_nightly)),
            }),
    {
        let inv = self.invocation(directory, is_nightly);
        inv.run()
    }
}

impl Run {
    /// The exact invocations executing this run spawns, in order.
    pub fn invocations(&self, is_nightly: bool) -> (r: Vec<Invocation>)
        ensures
            r.deep_view() == run_invocations(self@, is_nightly),
    {
        let mut r: Vec<Invocation> = Vec::new();
        match &self.script {
            RunEnum::Single(c) => {
                r.push(c.invocation(self.directory.as_ref(), is_nightly));
                proof {
                    assert(r.deep_view() =~~= run_invocations(self@, is_nightly));
                }
            },
            RunEnum::Multi(cmds) => {
                let ghost all = cmds.deep_view();
                let ghost dir = self@.directory;
                let mut i: usize = 0;
                proof {
                    assert(r.deep_view() =~~= cmds_invocations(all.take(0), dir, is_nightly));
                }
                while i < cmds.len()
                    invariant
                        i <= cmds.len(),
                        all == cmds.deep_view(),
                        dir == self@.directory,
                        self@.directory == self.directory.deep_view(),
                        r.deep_view() == cmds_invocations(all.take(i as int), dir, is_nightly),
                    decreases cmds.len() - i,
                {
                    let ghost before = r.deep_view();
                    let inv = cmds[i].invocation(self.directory.as_ref(), is_nightly);
                    r.push(inv);
                    proof {
                        assert(all.take(i + 1).drop_last() =~= all.take(i as int));
                        assert(all.take(i + 1).last() == all[i as int]);
                        assert(r.deep_view() =~~= before.push(inv@));
                        assert(before.push(inv@) =~~= cmds_invocations(
                            all.take(i + 1),
                            dir,
                            is_nightly,
                        ));
                    }
                    i = i + 1;
                }
                proof {
                    assert(all.take(cmds.len() as int) =~~= all);
                }
            },
        }
        r
    }

    /// Executes every command of this run in order, through the nightly
    /// toolchain selector when `is_nightly` holds; the first failure
    /// aborts the remaining commands.
    pub fn rustup_run(&self, is_nightly: bool) -> (r: WorkflowResult<()>)
        ensures
            r matches Err(e) ==> e@ is CommandFailed,
            run_invocations(self@, is_nightly).len() == 0 ==> r is Ok,
            r matches Err(e) ==> exists|i: int|
                0 <= i < run_invocations(self@, is_nightly).len() && e@ == invocation_failure(
                    #[trigger] run_invocations(self@, is_nightly)[i],
                ),
    {
        match &self.script {
            RunEnum::Single(c) => {
                let r = c.run_in_dir(self.directory.as_ref(), is_nightly);
                proof {
                    if r is Err {
                        let plan = run_invocations(self@, is_nightly);
                        assert(plan[0] == cmd_invocation(c@, self@.directory, is_nightly));
                        assert(CmdV { program: plan[0].program, args: plan[0].args }
                            =~~= wrapped_cmd(c@, is_nightly));
                        assert(r->Err_0@ == invocation_failure(plan[0]));
                    }
                }
                r
            },
            RunEnum::Multi(cmds) => {
                let ghost all = cmds.deep_view();
                proof {
                    lemma_cmds_invocations_len(all, self@.directory, is_nightly);
                }
                let mut i: usize = 0;
                while i < cmds.len()
                    invariant
                        i <= cmds.len(),
                        all == cmds.deep_view(),
                        self@.script == RunScriptV::Multi(all),
                        self@.directory == self.directory.deep_view(),
                        run_invocations(self@, is_nightly).len() == cmds@.len(),
                    decreases cmds.len() - i,
                {
                    match cmds[i].run_in_dir(self.directory.as_ref(), is_nightly) {
                        Result::Ok(()) => {},
                        Result::Err(e) => {
                            proof {
                                let plan = run_invocations(self@, is_nightly);
                                lemma_cmds_invocations_index(
                                    all,
                                    self@.directory,
                                    is_nightly,
                                    i as int,
                                );
                                assert(all[i as int] == cmds@[i as int]@);
                                assert(plan[i as int] == cmd_invocation(
                                    all[i as int],
                                    self@.directory,
                                    is_nightly,
                                ));
                                assert(CmdV {
                                    program: plan[i as int].program,
                                    args: plan[i as int].args,
                                } =~~= wrapped_cmd(all[i as int], is_nightly));
                                assert(e@ == invocation_failure(plan[i as int]));
                            }
                            return Result::Err(e);
                        },
                    }
                    i = i + 1;
                }
                Result::Ok(())
            },
        }
    }

    /// Executes this run directly, without the toolchain indirection: a
    /// run with no command at all succeeds without spawning, and a
    /// failure names a command of the run's own invocation plan.
    pub fn run(&self) -> (r: WorkflowResult<()>)
        ensures
            r matches Err(e) ==> e@ is CommandFailed,
            run_invocations(self@, false).len() == 0 ==> r is Ok,
            r matches Err(e) ==> exists|i: int|
                0 <= i < run_invocations(self@, false).len() && e@ == invocation_failure(
                    #[trigger] run_invocations(self@, false)[i],
                ),
    {
        self.rustup_run(false)
    }
}

// ---------------------------------------------------------------------------
// Laws
// ---------------------------------------------------------------------------

/// Rendering is deterministic: equal workflow models render to identical
/// text.
pub proof fn lemma_render_deterministic(w1: WorkflowV, w2: WorkflowV)
    requires
        w1 == w2,
    ensures
        render_workflow(w1) == render_workflow(w2),
{
}

/// Check mode run against the output that was just written succeeds with
/// no diff and asks for nothing to be written.
pub proof fn lemma_write_then_check(w: WorkflowV)
    ensures
        write_plan(w, true, Option::Some(render_workflow(w))) == Result::<
            Option<Seq<char>>,
            crate::WorkflowErrorV,
        >::Ok(Option::None),
{
}

/// Check mode never asks for a write, whatever is on disk.
pub proof fn lemma_check_mode_preserves_file(w: WorkflowV, existing: Option<Seq<char>>)
    ensures
        write_plan(w, true, existing) matches Ok(p) ==> p is None,
{
}

/// Rendering a sequence of steps distributes over concatenation.
pub proof fn lemma_render_steps_concat(a: Seq<StepV>, b: Seq<StepV>)
    ensures
        render_steps(a + b) == render_steps(a) + render_steps(b),
    decreases b.len(),
{
    if b.len() == 0 {
        assert(a + b =~= a);
        assert(render_steps(a) + render_steps(b) =~= render_steps(a));
    } else {
        lemma_render_steps_concat(a, b.drop_last());
        assert((a + b).drop_last() =~= a + b.drop_last());
        assert((a + b).last() == b.last());
        assert(render_steps(a) + (render_steps(b.drop_last()) + render_step(b.last())) =~= (
        render_steps(a) + render_steps(b.drop_last())) + render_step(b.last()));
    }
}

/// A group splices its children into the surrounding sequence: rendering
/// steps with a group among them is the same as rendering with the
/// children written out in its place, in order.
pub proof fn lemma_multi_step_flattens(
    before: Seq<StepV>,
    children: Seq<StepV>,
    after: Seq<StepV>,
)
    ensures
        render_steps(before + seq![StepV::Multi(children)] + after) == render_steps(
            before + children + after,
        ),
{
    lemma_render_steps_concat(before + seq![StepV::Multi(children)], after);
    lemma_render_steps_concat(before, seq![StepV::Multi(children)]);
    lemma_render_steps_concat(before + children, after);
    lemma_render_steps_concat(before, children);
    assert(seq![StepV::Multi(children)].drop_last() =~= Seq::<StepV>::empty());
    assert(seq![StepV::Multi(children)].last() == StepV::Multi(children));
    assert(render_steps(Seq::<StepV>::empty()) =~= Seq::<char>::empty());
    assert(render_steps(seq![StepV::Multi(children)]) =~= render_steps(Seq::<StepV>::empty())
        + render_step(StepV::Multi(children)));
    assert(render_steps(seq![StepV::Multi(children)]) =~= render_steps(children));
    assert(render_steps(before + seq![StepV::Multi(children)] + after) =~= render_steps(
        before + children + after,
    ));
}

/// The empty step contributes nothing to the rendered output: it can be
/// dropped from any sequence of steps without changing the text.
pub proof fn lemma_empty_step_contributes_nothing(before: Seq<StepV>, after: Seq<StepV>)
    ensures
        render_steps(before + seq![StepV::Empty] + after) == render_steps(before + after),
{
    lemma_render_steps_concat(before + seq![StepV::Empty], after);
    lemma_render_steps_concat(before, seq![StepV::Empty]);
    lemma_render_steps_concat(before, after);
    assert(seq![StepV::Empty].drop_last() =~= Seq::<StepV>::empty());
    assert(seq![StepV::Empty].last() == StepV::Empty);
    assert(render_steps(Seq::<StepV>::empty()) =~= Seq::<char>::empty());
    assert(render_steps(seq![StepV::Empty]) =~= render_steps(Seq::<StepV>::empty())
        + render_step(StepV::Empty));
    assert(render_steps(seq![StepV::Empty]) =~= Seq::<char>::empty());
    assert(render_steps(before + seq![StepV::Empty] + after) =~= render_steps(before + after));
}

/// An action with no parameters and no environment variables renders as
/// the `uses:` line alone: no empty `with:` or `env:` block appears.
pub proof fn lemma_bare_action_renders_one_line(a: ActionV)
    requires
        a.with.len() == 0,
        a.env.len() == 0,
    ensures
        render_action(a) == "    - uses: "@ + a.uses + "
"@,
{
    assert(render_action(a) =~= "    - uses: "@ + a.uses + "
"@);
}

/// Under a nightly toolchain every command is routed through the
/// toolchain selector, with the original program demoted to an argument;
/// otherwise the command is invoked directly, unchanged.
pub proof fn lemma_nightly_toolchain_indirection(c: CmdV)
    ensures
        wrapped_cmd(c, true).program == "rustup"@,
        wrapped_cmd(c, true).args == seq!["run"@, "nightly"@, c.program] + c.args,
        wrapped_cmd(c, false) == c,
{
}

} // verus!
