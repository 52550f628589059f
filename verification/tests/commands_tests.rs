use bevy_codegen::commands::{
    build_steps, clean_steps, code_steps, default_steps, fmt_steps, release_steps, Ending,
    ToolStep,
};
use bevy_codegen::templates::{create_default_template, create_plugin_template};

fn shown(steps: &Vec<ToolStep>) -> Vec<String> {
    steps
        .iter()
        .map(|step| match step {
            ToolStep::Say(line) => format!("say {}", line),
            ToolStep::Run(i) => format!("run [{}] {} {}", i.dir, i.program, i.args.join(" ")),
            ToolStep::Launch(i) => format!("launch [{}] {} {}", i.dir, i.program, i.args.join(" ")),
        })
        .collect()
}

fn complaints(steps: &Vec<ToolStep>) -> Vec<String> {
    steps
        .iter()
        .filter_map(|step| match step {
            ToolStep::Say(_) => None,
            ToolStep::Run(i) => Some(i.complaint.clone()),
            ToolStep::Launch(i) => Some(i.complaint.clone()),
        })
        .collect()
}

const BUILD: [&str; 10] = [
    "say fmt",
    "run [bevy_test] cargo fmt --all",
    "say update",
    "run [bevy_test] cargo update",
    "say build",
    "run [bevy_test] cargo build",
    "say fix",
    "run [bevy_test] cargo clippy --fix --allow-no-vcs",
    "say clippy",
    "run [bevy_test] cargo clippy -- -D warnings",
];

#[test]
fn formatting_runs_cargo_fmt() {
    assert_eq!(shown(&fmt_steps(&create_default_template())), BUILD[..2].to_vec());
}

#[test]
fn building_formats_updates_builds_and_lints() {
    let steps = build_steps(&create_default_template());
    assert_eq!(shown(&steps), BUILD.to_vec());
    assert_eq!(
        complaints(&steps),
        vec![
            "failed to execute cargo fmt",
            "failed to execute cargo update",
            "failed to execute cargo build",
            "failed to execute cargo fix",
            "failed to execute cargo clippy",
        ]
    );
}

#[test]
fn app_is_run_and_waited_for() {
    let mut expected: Vec<String> = BUILD.iter().map(|s| s.to_string()).collect();
    expected.push("say run".to_string());
    expected.push("run [bevy_test] cargo run".to_string());
    expected.push("say example(s)".to_string());
    assert_eq!(shown(&default_steps(&create_default_template(), false)), expected);
}

#[test]
fn app_is_launched_on_demand() {
    let steps = shown(&default_steps(&create_default_template(), true));
    assert_eq!(steps[10], "say run");
    assert_eq!(steps[11], "launch [bevy_test] cargo run");
    assert_eq!(steps.len(), 13);
}

#[test]
fn plugin_is_not_run_but_its_examples_are() {
    let mut template = create_plugin_template();
    let mut second = template.examples[0].clone();
    second.meta.name = "second".to_string();
    template.examples.push(second);
    let mut expected: Vec<String> = BUILD.iter().map(|s| s.to_string()).collect();
    expected.push("say example(s)".to_string());
    expected.push("say Running example_test".to_string());
    expected.push("run [bevy_test] cargo run --example example_test".to_string());
    expected.push("say Running second".to_string());
    expected.push("run [bevy_test] cargo run --example second".to_string());
    assert_eq!(shown(&default_steps(&template, true)), expected);
    assert_eq!(shown(&default_steps(&template, false)), expected);
}

#[test]
fn every_program_runs_in_the_project_directory() {
    let mut template = create_plugin_template();
    template.meta.name = "elsewhere".to_string();
    for step in default_steps(&template, false) {
        match step {
            ToolStep::Say(_) => {}
            ToolStep::Run(i) => assert_eq!(i.dir, "elsewhere"),
            ToolStep::Launch(i) => assert_eq!(i.dir, "elsewhere"),
        }
    }
}

#[test]
fn code_opens_the_project() {
    let steps = code_steps(&create_default_template());
    assert_eq!(shown(&steps), vec!["say code", "run [bevy_test] code ."]);
    assert_eq!(complaints(&steps), vec!["failed to open vscode"]);
}

#[test]
fn clean_and_release_only_say_so() {
    assert_eq!(shown(&clean_steps(&create_default_template())), vec!["say clean"]);
    assert_eq!(shown(&release_steps(&create_default_template())), vec!["say release"]);
}

#[test]
fn only_a_program_that_is_waited_for_can_end_the_steps() {
    let steps = default_steps(&create_default_template(), true);
    let say = &steps[0];
    let run = &steps[1];
    let launch = &steps[11];
    assert!(matches!(say, ToolStep::Say(_)));
    assert!(matches!(run, ToolStep::Run(_)));
    assert!(matches!(launch, ToolStep::Launch(_)));
    for ending in [Ending::Success, Ending::Failure, Ending::NotStarted] {
        assert!(!say.ends_the_steps(ending));
        assert!(!launch.ends_the_steps(ending));
    }
    assert!(!run.ends_the_steps(Ending::Success));
    assert!(run.ends_the_steps(Ending::Failure));
    assert!(run.ends_the_steps(Ending::NotStarted));
}
