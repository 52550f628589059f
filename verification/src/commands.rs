//! The tools that are run on a generated project.
//!
//! Nothing here starts a process. Each function lists, in order, what is to be printed
//! and which program is to be run with which arguments; every program runs in the
//! directory of the project.

use crate::model::{BevyModel, BevyType, ModelView};
use vstd::prelude::*;

verus! {

/// A program with its arguments and the directory that it runs in.
#[derive(Debug)]
pub struct Invocation {
    pub program: String,
    pub args: Vec<String>,
    pub dir: String,
    /// What to complain of where the program cannot be started.
    pub complaint: String,
}

pub struct InvocationView {
    pub program: Seq<char>,
    pub args: Seq<Seq<char>>,
    pub dir: Seq<char>,
    pub complaint: Seq<char>,
}

impl View for Invocation {
    type V = InvocationView;

    open spec fn view(&self) -> InvocationView {
        InvocationView {
            program: self.program@,
            args: self.args.deep_view(),
            dir: self.dir@,
            complaint: self.complaint@,
        }
    }
}

/// One step of working with the tools.
#[derive(Debug)]
pub enum ToolStep {
    /// Print the line.
    Say(String),
    /// Run the program and wait until it has ended.
    Run(Invocation),
    /// Start the program and go on.
    Launch(Invocation),
}

pub enum ToolStepView {
    Say(Seq<char>),
    Run(InvocationView),
    Launch(InvocationView),
}

impl View for ToolStep {
    type V = ToolStepView;

    open spec fn view(&self) -> ToolStepView {
        match self {
            ToolStep::Say(line) => ToolStepView::Say(line@),
            ToolStep::Run(invocation) => ToolStepView::Run(invocation@),
            ToolStep::Launch(invocation) => ToolStepView::Launch(invocation@),
        }
    }
}

impl DeepView for ToolStep {
    type V = ToolStepView;

    open spec fn deep_view(&self) -> ToolStepView {
        self@
    }
}

/// How the program of a step ended.
#[derive(Clone, Copy, Debug, PartialEq, Eq, Structural)]
pub enum Ending {
    /// It ran and reported success.
    Success,
    /// It ran and reported a failure, or was ended from outside.
    Failure,
    /// It could not be started.
    NotStarted,
}

/// Whether the steps end here: a program that is waited for has to succeed. A line that
/// is printed, and a program that is left to run, never end the steps.
pub open spec fn ends_the_steps(step: ToolStepView, ending: Ending) -> bool {
    step is Run && ending != Ending::Success
}

impl ToolStep {
    /// Whether the steps end here, after this step ended so. The steps behind a failed
    /// one are not run.
    pub fn ends_the_steps(&self, ending: Ending) -> (ends: bool)
        ensures
            ends == ends_the_steps(self@, ending),
    {
        match self {
            ToolStep::Run(_) => ending != Ending::Success,
            _ => false,
        }
    }
}

/// `cargo` with these arguments, in the directory of the project.
pub open spec fn cargo(dir: Seq<char>, args: Seq<Seq<char>>, complaint: Seq<char>)
    -> InvocationView {
    InvocationView { program: "cargo"@, args, dir, complaint }
}

/// The steps that format the project.
pub open spec fn fmt_plan(model: ModelView) -> Seq<ToolStepView> {
    seq![
        ToolStepView::Say("fmt"@),
        ToolStepView::Run(
            cargo(model.meta.name, seq!["fmt"@, "--all"@], "failed to execute cargo fmt"@),
        ),
    ]
}

/// The steps that build the project: format, update the dependencies, build, let clippy
/// mend what it can, and let clippy check with warnings as errors.
pub open spec fn build_plan(model: ModelView) -> Seq<ToolStepView> {
    let dir = model.meta.name;
    fmt_plan(model) + seq![
        ToolStepView::Say("update"@),
        ToolStepView::Run(cargo(dir, seq!["update"@], "failed to execute cargo update"@)),
        ToolStepView::Say("build"@),
        ToolStepView::Run(cargo(dir, seq!["build"@], "failed to execute cargo build"@)),
        ToolStepView::Say("fix"@),
        ToolStepView::Run(
            cargo(
                dir,
                seq!["clippy"@, "--fix"@, "--allow-no-vcs"@],
                "failed to execute cargo fix"@,
            ),
        ),
        ToolStepView::Say("clippy"@),
        ToolStepView::Run(
            cargo(
                dir,
                seq!["clippy"@, "--"@, "-D"@, "warnings"@],
                "failed to execute cargo clippy"@,
            ),
        ),
    ]
}

/// The steps that run the project itself, which only an app does: waiting for it, or
/// leaving it to run.
pub open spec fn run_plan(model: ModelView, spawn: bool) -> Seq<ToolStepView> {
    let run = cargo(model.meta.name, seq!["run"@], "failed to execute cargo run"@);
    if model.meta.bevy_type is App {
        seq![
            ToolStepView::Say("run"@),
            if spawn {
                ToolStepView::Launch(run)
            } else {
                ToolStepView::Run(run)
            },
        ]
    } else {
        Seq::empty()
    }
}

/// The two steps that run one example.
pub open spec fn example_run(dir: Seq<char>, example: ModelView) -> Seq<ToolStepView> {
    seq![
        ToolStepView::Say("Running "@ + example.meta.name),
        ToolStepView::Run(
            cargo(
                dir,
                seq!["run"@, "--example"@, example.meta.name],
                "failed to execute cargo run"@,
            ),
        ),
    ]
}

/// The steps that run the examples, one after the other in the order of the list.
pub open spec fn examples_plan(model: ModelView) -> Seq<ToolStepView> {
    seq![ToolStepView::Say("example(s)"@)] + model.examples.flat_map(
        |e: ModelView| example_run(model.meta.name, e),
    )
}

/// The whole round: build, run the app if the project is one, run the examples.
pub open spec fn default_plan(model: ModelView, spawn: bool) -> Seq<ToolStepView> {
    build_plan(model) + run_plan(model, spawn) + examples_plan(model)
}

/// The steps that open the project in the editor `code`.
pub open spec fn code_plan(model: ModelView) -> Seq<ToolStepView> {
    seq![
        ToolStepView::Say("code"@),
        ToolStepView::Run(
            InvocationView {
                program: "code"@,
                args: seq!["."@],
                dir: model.meta.name,
                complaint: "failed to open vscode"@,
            },
        ),
    ]
}

/// The directory that a step runs its program in, if it runs one.
pub open spec fn step_dir(step: ToolStepView) -> Option<Seq<char>> {
    match step {
        ToolStepView::Say(_) => None,
        ToolStepView::Run(invocation) => Some(invocation.dir),
        ToolStepView::Launch(invocation) => Some(invocation.dir),
    }
}

/// Every program of the whole round runs in the directory of the project.
pub proof fn default_plan_stays_in_project(model: ModelView, spawn: bool, i: int)
    requires
        0 <= i < default_plan(model, spawn).len(),
    ensures
        step_dir(default_plan(model, spawn)[i]) is Some ==> step_dir(default_plan(model, spawn)[i])
            == Some(model.meta.name),
{
    let dir = model.meta.name;
    let by_example = |e: ModelView| example_run(dir, e);
    let runs = model.examples.flat_map(by_example);
    assert forall|k: int| 0 <= k < runs.len() && step_dir(#[trigger] runs[k]) is Some implies step_dir(
        runs[k],
    ) == Some(dir) by {
        example_runs_stay_in_project(dir, model.examples, k);
    }
    let head = build_plan(model) + run_plan(model, spawn);
    if i >= head.len() + 1 {
        assert(default_plan(model, spawn)[i] == runs[i - head.len() - 1]);
    }
}

/// Every program that runs an example runs in the directory that was given.
proof fn example_runs_stay_in_project(dir: Seq<char>, examples: Seq<ModelView>, k: int)
    requires
        0 <= k < examples.flat_map(|e: ModelView| example_run(dir, e)).len(),
    ensures
        step_dir(examples.flat_map(|e: ModelView| example_run(dir, e))[k]) is Some ==> step_dir(
            examples.flat_map(|e: ModelView| example_run(dir, e))[k],
        ) == Some(dir),
    decreases examples.len(),
{
    let by_example = |e: ModelView| example_run(dir, e);
    if examples.len() > 0 {
        let front = examples.drop_last();
        front.lemma_flat_map_push(by_example, examples.last());
        assert(front.push(examples.last()) =~= examples);
        let before = front.flat_map(by_example);
        if k < before.len() {
            example_runs_stay_in_project(dir, front, k);
        }
    } else {
        assert(examples.map_values(by_example) =~= Seq::empty());
    }
}

/// One more argument.
fn push_word(words: &mut Vec<String>, word: &str)
    ensures
        final(words).deep_view() == old(words).deep_view().push(word@),
{
    words.push(String::from_str(word));
    assert(words.deep_view() =~= old(words).deep_view().push(word@));
}

/// `cargo` with no argument yet.
fn cargo_in(dir: &str, complaint: &str) -> (invocation: Invocation)
    ensures
        invocation@ == cargo(dir@, Seq::empty(), complaint@),
{
    let invocation = Invocation {
        program: String::from_str("cargo"),
        args: Vec::new(),
        dir: String::from_str(dir),
        complaint: String::from_str(complaint),
    };
    assert(invocation.args.deep_view() =~= Seq::empty());
    invocation
}

/// The steps that format the project.
pub fn fmt_steps(model: &BevyModel) -> (steps: Vec<ToolStep>)
    ensures
        steps.deep_view() == fmt_plan(model@),
{
    let mut fmt = cargo_in(model.meta.name.as_str(), "failed to execute cargo fmt");
    push_word(&mut fmt.args, "fmt");
    push_word(&mut fmt.args, "--all");
    assert(fmt.args.deep_view() =~= seq!["fmt"@, "--all"@]);
    let steps = vec![ToolStep::Say(String::from_str("fmt")), ToolStep::Run(fmt)];
    assert(steps.deep_view() =~= fmt_plan(model@));
    steps
}

/// The steps that build the project.
pub fn build_steps(model: &BevyModel) -> (steps: Vec<ToolStep>)
    ensures
        steps.deep_view() == build_plan(model@),
{
    let dir = model.meta.name.as_str();
    let mut steps = fmt_steps(model);
    let ghost formatting = steps.deep_view();

    let mut update = cargo_in(dir, "failed to execute cargo update");
    push_word(&mut update.args, "update");
    assert(update.args.deep_view() =~= seq!["update"@]);

    let mut build = cargo_in(dir, "failed to execute cargo build");
    push_word(&mut build.args, "build");
    assert(build.args.deep_view() =~= seq!["build"@]);

    let mut fix = cargo_in(dir, "failed to execute cargo fix");
    push_word(&mut fix.args, "clippy");
    push_word(&mut fix.args, "--fix");
    push_word(&mut fix.args, "--allow-no-vcs");
    assert(fix.args.deep_view() =~= seq!["clippy"@, "--fix"@, "--allow-no-vcs"@]);

    let mut clippy = cargo_in(dir, "failed to execute cargo clippy");
    push_word(&mut clippy.args, "clippy");
    push_word(&mut clippy.args, "--");
    push_word(&mut clippy.args, "-D");
    push_word(&mut clippy.args, "warnings");
    assert(clippy.args.deep_view() =~= seq!["clippy"@, "--"@, "-D"@, "warnings"@]);

    steps.push(ToolStep::Say(String::from_str("update")));
    steps.push(ToolStep::Run(update));
    steps.push(ToolStep::Say(String::from_str("build")));
    steps.push(ToolStep::Run(build));
    steps.push(ToolStep::Say(String::from_str("fix")));
    steps.push(ToolStep::Run(fix));
    steps.push(ToolStep::Say(String::from_str("clippy")));
    steps.push(ToolStep::Run(clippy));
    assert(steps.deep_view() =~= build_plan(model@));
    steps
}

/// The steps of the whole round. With `spawn` an app is started and left to run, else it
/// is waited for.
pub fn default_steps(model: &BevyModel, spawn: bool) -> (steps: Vec<ToolStep>)
    ensures
        steps.deep_view() == default_plan(model@, spawn),
{
    let dir = model.meta.name.as_str();
    let mut steps = build_steps(model);
    if let BevyType::App = model.meta.bevy_type {
        let mut run = cargo_in(dir, "failed to execute cargo run");
        push_word(&mut run.args, "run");
        assert(run.args.deep_view() =~= seq!["run"@]);
        steps.push(ToolStep::Say(String::from_str("run")));
        if spawn {
            steps.push(ToolStep::Launch(run));
        } else {
            steps.push(ToolStep::Run(run));
        }
    }
    assert(steps.deep_view() =~= build_plan(model@) + run_plan(model@, spawn));
    steps.push(ToolStep::Say(String::from_str("example(s)")));
    let ghost head = steps.deep_view();
    let ghost by_example = |e: ModelView| example_run(model@.meta.name, e);
    let mut i: usize = 0;
    while i < model.examples.len()
        invariant
            i <= model.examples.len(),
            dir@ == model@.meta.name,
            by_example == |e: ModelView| example_run(model@.meta.name, e),
            steps.deep_view() == head + model@.examples.take(i as int).flat_map(by_example),
        decreases model.examples.len() - i,
    {
        let example = &model.examples[i];
        let ghost before = steps.deep_view();
        let mut line = String::from_str("Running ");
        line.append(example.meta.name.as_str());
        let mut run = cargo_in(dir, "failed to execute cargo run");
        push_word(&mut run.args, "run");
        push_word(&mut run.args, "--example");
        push_word(&mut run.args, example.meta.name.as_str());
        assert(run.args.deep_view() =~= seq!["run"@, "--example"@, example@.meta.name]);
        let say = ToolStep::Say(line);
        let go = ToolStep::Run(run);
        assert(model@.examples[i as int] == example@);
        assert(seq![say@, go@] =~= example_run(model@.meta.name, example@));
        steps.push(say);
        steps.push(go);
        proof {
            model@.examples.lemma_flat_map_take_append(by_example, i as int);
            assert(steps.deep_view() =~= before + seq![say@, go@]);
        }
        i += 1;
    }
    assert(model@.examples.take(i as int) =~= model@.examples);
    assert(steps.deep_view() =~= default_plan(model@, spawn));
    steps
}

/// The steps that open the project in the editor `code`.
pub fn code_steps(model: &BevyModel) -> (steps: Vec<ToolStep>)
    ensures
        steps.deep_view() == code_plan(model@),
{
    let mut code = Invocation {
        program: String::from_str("code"),
        args: Vec::new(),
        dir: model.meta.name.clone(),
        complaint: String::from_str("failed to open vscode"),
    };
    push_word(&mut code.args, ".");
    assert(code.args.deep_view() =~= seq!["."@]);
    let steps = vec![ToolStep::Say(String::from_str("code")), ToolStep::Run(code)];
    assert(steps.deep_view() =~= code_plan(model@));
    steps
}

/// Cleaning runs no tool yet: the one step says what was asked for.
pub fn clean_steps(model: &BevyModel) -> (steps: Vec<ToolStep>)
    ensures
        steps.deep_view() == seq![ToolStepView::Say("clean"@)],
{
    let steps = vec![ToolStep::Say(String::from_str("clean"))];
    assert(steps.deep_view() =~= seq![ToolStepView::Say("clean"@)]);
    steps
}

/// A release runs no tool yet: the one step says what was asked for.
pub fn release_steps(model: &BevyModel) -> (steps: Vec<ToolStep>)
    ensures
        steps.deep_view() == seq![ToolStepView::Say("release"@)],
{
    let steps = vec![ToolStep::Say(String::from_str("release"))];
    assert(steps.deep_view() =~= seq![ToolStepView::Say("release"@)]);
    steps
}

} // verus!
