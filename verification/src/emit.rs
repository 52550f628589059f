//! The files of the generated project.
//!
//! Nothing here touches a disk. [`plan_write`] lists, in order, the steps that bring the
//! project tree of a model about: what to remove of an earlier tree, which directories
//! to make, which files to write with which text. Whoever runs the steps one after the
//! other, and stops at the first that fails, has written the project.

use crate::generate::model_scope;
use crate::ir::{rendered, scope_to_string};
use crate::manifest::{manifest, manifest_text};
use crate::model::{
    BevyModel, BevyType, BevyTypeView, ModelView, Plugin, PluginDependency, PluginDependencyView,
    PluginView,
};
use vstd::prelude::*;

verus! {

/// One step on the file system.
#[derive(Debug)]
pub enum FsStep {
    /// Remove the directory with all that is in it, if it is there.
    RemoveDirAll(String),
    /// Remove the file, if it is there.
    RemoveFile(String),
    /// Make the directory.
    CreateDir(String),
    /// Write the file with this text, in place of what it held.
    WriteFile(String, String),
}

pub enum FsStepView {
    RemoveDirAll(Seq<char>),
    RemoveFile(Seq<char>),
    CreateDir(Seq<char>),
    WriteFile(Seq<char>, Seq<char>),
}

impl View for FsStep {
    type V = FsStepView;

    open spec fn view(&self) -> FsStepView {
        match self {
            FsStep::RemoveDirAll(path) => FsStepView::RemoveDirAll(path@),
            FsStep::RemoveFile(path) => FsStepView::RemoveFile(path@),
            FsStep::CreateDir(path) => FsStepView::CreateDir(path@),
            FsStep::WriteFile(path, text) => FsStepView::WriteFile(path@, text@),
        }
    }
}

impl DeepView for FsStep {
    type V = FsStepView;

    open spec fn deep_view(&self) -> FsStepView {
        self@
    }
}

/// The path of an entry of a directory.
pub open spec fn child(dir: Seq<char>, name: Seq<char>) -> Seq<char> {
    dir + "/"@ + name
}

/// The path of an entry of a directory.
pub fn child_path(dir: &str, name: &str) -> (path: String)
    ensures
        path@ == child(dir@, name@),
{
    let mut path = String::from_str(dir);
    path.append("/");
    path.append(name);
    path
}

/// What the linker configuration holds, for every project the same.
pub const LINKER_CONFIG: &'static str =
    "[target.x86_64-pc-windows-msvc]\nlinker = \"rust-lld.exe\"\nrustflags = [\"-Zshare-generics=off\"]";

/// The first two lines of the main source file.
pub const SOURCE_HEAD: &'static str =
    "#![cfg_attr(not(debug_assertions), windows_subsystem = \"windows\")]\nuse bevy::prelude::*;\n";

/// The line that marks the entry of an app.
pub const ENTRY_MARK: &'static str = "#[bevy_main]\n";

/// The name of the main source file: an app is a binary, all else a library.
pub open spec fn entry_file(kind: BevyTypeView) -> Seq<char> {
    if kind is App {
        "main.rs"@
    } else {
        "lib.rs"@
    }
}

/// The line that imports one path of a crate.
pub open spec fn use_line(crate_name: Seq<char>, path: Seq<char>) -> Seq<char> {
    "use "@ + crate_name + "::"@ + path + ";\n"@
}

/// The import lines of one crate, in the order of its paths.
pub open spec fn dependency_imports(dependency: PluginDependencyView) -> Seq<char> {
    dependency.crate_paths.flat_map(|path: Seq<char>| use_line(dependency.crate_name, path))
}

/// The import lines of one plugin, crate by crate.
pub open spec fn plugin_imports(plugin: PluginView) -> Seq<char> {
    plugin.dependencies.flat_map(|d: PluginDependencyView| dependency_imports(d))
}

/// The import lines of all plugins, plugin by plugin.
pub open spec fn import_block(plugins: Seq<PluginView>) -> Seq<char> {
    plugins.flat_map(|p: PluginView| plugin_imports(p))
}

/// The text of the main source file: the two head lines, the imports of the plugins'
/// crates, an empty line, for an app the entry mark, and the declarations of the model.
pub open spec fn source_text(model: ModelView) -> Seq<char> {
    SOURCE_HEAD@ + import_block(model.plugins) + "\n"@ + (if model.meta.bevy_type is App {
        ENTRY_MARK@
    } else {
        Seq::empty()
    }) + rendered(model_scope(model))
}

/// The text of the source file of an example: its declarations and nothing else.
pub open spec fn example_text(example: ModelView) -> Seq<char> {
    rendered(model_scope(example))
}

/// Adds the import lines of one crate to the text.
fn push_dependency_imports(text: &mut String, dependency: &PluginDependency)
    ensures
        final(text)@ == old(text)@ + dependency_imports(dependency@),
{
    let ghost line = |path: Seq<char>| use_line(dependency@.crate_name, path);
    let mut i: usize = 0;
    while i < dependency.crate_paths.len()
        invariant
            i <= dependency.crate_paths.len(),
            line == |path: Seq<char>| use_line(dependency@.crate_name, path),
            text@ == old(text)@ + dependency@.crate_paths.take(i as int).flat_map(line),
        decreases dependency.crate_paths.len() - i,
    {
        text.append("use ");
        text.append(dependency.crate_name.as_str());
        text.append("::");
        text.append(dependency.crate_paths[i].as_str());
        text.append(";\n");
        proof {
            dependency@.crate_paths.lemma_flat_map_take_append(line, i as int);
            assert(text@ =~= old(text)@ + (dependency@.crate_paths.take(i as int).flat_map(line)
                + use_line(dependency@.crate_name, dependency@.crate_paths[i as int])));
        }
        i += 1;
    }
    assert(dependency@.crate_paths.take(i as int) =~= dependency@.crate_paths);
}

/// The import lines for the crates that the plugins come from.
pub fn import_lines(plugins: &Vec<Plugin>) -> (text: String)
    ensures
        text@ == import_block(plugins.deep_view()),
{
    let mut text = String::new();
    let ghost by_plugin = |p: PluginView| plugin_imports(p);
    let ghost by_dependency = |d: PluginDependencyView| dependency_imports(d);
    let mut i: usize = 0;
    while i < plugins.len()
        invariant
            i <= plugins.len(),
            by_plugin == |p: PluginView| plugin_imports(p),
            by_dependency == |d: PluginDependencyView| dependency_imports(d),
            text@ == plugins.deep_view().take(i as int).flat_map(by_plugin),
        decreases plugins.len() - i,
    {
        let plugin = &plugins[i];
        let ghost before = text@;
        let mut j: usize = 0;
        while j < plugin.dependencies.len()
            invariant
                j <= plugin.dependencies.len(),
                by_dependency == |d: PluginDependencyView| dependency_imports(d),
                text@ == before + plugin@.dependencies.take(j as int).flat_map(by_dependency),
            decreases plugin.dependencies.len() - j,
        {
            push_dependency_imports(&mut text, &plugin.dependencies[j]);
            proof {
                plugin@.dependencies.lemma_flat_map_take_append(by_dependency, j as int);
                assert(text@ =~= before + (plugin@.dependencies.take(j as int).flat_map(
                    by_dependency,
                ) + dependency_imports(plugin@.dependencies[j as int])));
            }
            j += 1;
        }
        proof {
            assert(plugin@.dependencies.take(j as int) =~= plugin@.dependencies);
            plugins.deep_view().lemma_flat_map_take_append(by_plugin, i as int);
        }
        i += 1;
    }
    assert(plugins.deep_view().take(i as int) =~= plugins.deep_view());
    text
}

/// The text of the main source file.
pub fn primary_source(model: &BevyModel) -> (text: String)
    ensures
        text@ == source_text(model@),
{
    let mut text = String::from_str(SOURCE_HEAD);
    text.append(import_lines(&model.plugins).as_str());
    text.append("\n");
    if let BevyType::App = model.meta.bevy_type {
        text.append(ENTRY_MARK);
    }
    let scope = model.generate();
    text.append(scope_to_string(&scope).as_str());
    assert(text@ =~= source_text(model@));
    text
}

/// The text of the source file of an example.
pub fn example_source(example: &BevyModel) -> (text: String)
    ensures
        text@ == example_text(example@),
{
    let scope = example.generate();
    scope_to_string(&scope)
}

/// The name of the main source file.
pub fn entry_file_name(kind: &BevyType) -> (name: &'static str)
    ensures
        name@ == entry_file(kind@),
{
    match kind {
        BevyType::App => "main.rs",
        _ => "lib.rs",
    }
}

/// The path of the manifest of a project.
pub open spec fn manifest_path(root: Seq<char>) -> Seq<char> {
    child(root, "Cargo.toml"@)
}

/// The directory of the linker configuration.
pub open spec fn config_dir(root: Seq<char>) -> Seq<char> {
    child(root, ".cargo"@)
}

/// The directory of the source files.
pub open spec fn source_dir(root: Seq<char>) -> Seq<char> {
    child(root, "src"@)
}

/// The directory of the examples.
pub open spec fn examples_dir(root: Seq<char>) -> Seq<char> {
    child(root, "examples"@)
}

/// The step that writes the source file of an example: the file is named after the
/// example.
pub open spec fn example_step(root: Seq<char>, example: ModelView) -> FsStepView {
    FsStepView::WriteFile(
        child(examples_dir(root), example.meta.name + ".rs"@),
        example_text(example),
    )
}

/// The steps that clear away what an earlier run has written.
pub open spec fn removal_steps(root: Seq<char>) -> Seq<FsStepView> {
    seq![
        FsStepView::RemoveDirAll(source_dir(root)),
        FsStepView::RemoveDirAll(config_dir(root)),
        FsStepView::RemoveFile(manifest_path(root)),
        FsStepView::RemoveDirAll(examples_dir(root)),
    ]
}

/// The steps that write the manifest, the linker configuration and the main source file.
pub open spec fn primary_steps(model: ModelView) -> Seq<FsStepView> {
    let root = model.meta.name;
    seq![
        FsStepView::WriteFile(manifest_path(root), manifest_text(model)),
        FsStepView::CreateDir(config_dir(root)),
        FsStepView::WriteFile(child(config_dir(root), "config.toml"@), LINKER_CONFIG@),
        FsStepView::CreateDir(source_dir(root)),
        FsStepView::WriteFile(
            child(source_dir(root), entry_file(model.meta.bevy_type)),
            source_text(model),
        ),
    ]
}

/// The steps that write the examples, one file each in the order of the list. A model
/// without examples gets no directory for them.
pub open spec fn example_steps(model: ModelView) -> Seq<FsStepView> {
    let root = model.meta.name;
    if model.examples.len() == 0 {
        Seq::empty()
    } else {
        seq![FsStepView::CreateDir(examples_dir(root))] + model.examples.map_values(
            |e: ModelView| example_step(root, e),
        )
    }
}

/// All steps that write the project of a model. Where the project directory exists,
/// what an earlier run has written is removed first; where it does not, it is made.
pub open spec fn write_plan(model: ModelView, exists: bool) -> Seq<FsStepView> {
    (if exists {
        removal_steps(model.meta.name)
    } else {
        seq![FsStepView::CreateDir(model.meta.name)]
    }) + primary_steps(model) + example_steps(model)
}

/// The steps that write the project of the model into the directory of its name, given
/// whether that directory exists.
pub fn plan_write(model: &BevyModel, exists: bool) -> (steps: Vec<FsStep>)
    ensures
        steps.deep_view() == write_plan(model@, exists),
{
    let root = model.meta.name.as_str();
    let mut steps: Vec<FsStep> = Vec::new();
    if exists {
        steps.push(FsStep::RemoveDirAll(child_path(root, "src")));
        steps.push(FsStep::RemoveDirAll(child_path(root, ".cargo")));
        steps.push(FsStep::RemoveFile(child_path(root, "Cargo.toml")));
        steps.push(FsStep::RemoveDirAll(child_path(root, "examples")));
    } else {
        steps.push(FsStep::CreateDir(model.meta.name.clone()));
    }
    let config = child_path(root, ".cargo");
    let source = child_path(root, "src");
    steps.push(FsStep::WriteFile(child_path(root, "Cargo.toml"), manifest(model)));
    steps.push(FsStep::CreateDir(config.clone()));
    steps.push(
        FsStep::WriteFile(
            child_path(config.as_str(), "config.toml"),
            String::from_str(LINKER_CONFIG),
        ),
    );
    steps.push(FsStep::CreateDir(source.clone()));
    steps.push(
        FsStep::WriteFile(
            child_path(source.as_str(), entry_file_name(&model.meta.bevy_type)),
            primary_source(model),
        ),
    );
    assert(steps.deep_view() =~= (if exists {
        removal_steps(model@.meta.name)
    } else {
        seq![FsStepView::CreateDir(model@.meta.name)]
    }) + primary_steps(model@));
    let ghost head = steps.deep_view();
    if model.examples.len() > 0 {
        let examples = child_path(root, "examples");
        steps.push(FsStep::CreateDir(examples.clone()));
        let ghost step_of = |e: ModelView| example_step(model@.meta.name, e);
        let ghost front = steps.deep_view();
        assert(front =~= head + seq![FsStepView::CreateDir(examples@)]);
        let mut i: usize = 0;
        while i < model.examples.len()
            invariant
                i <= model.examples.len(),
                examples@ == examples_dir(model@.meta.name),
                step_of == |e: ModelView| example_step(model@.meta.name, e),
                steps.deep_view() == front + model@.examples.take(i as int).map_values(step_of),
            decreases model.examples.len() - i,
        {
            let example = &model.examples[i];
            let mut name = example.meta.name.clone();
            name.append(".rs");
            let ghost before = steps.deep_view();
            let step = FsStep::WriteFile(
                child_path(examples.as_str(), name.as_str()),
                example_source(example),
            );
            assert(model@.examples[i as int] == example@);
            assert(step@ == example_step(model@.meta.name, example@));
            steps.push(step);
            assert(steps.deep_view() =~= before.push(step@));
            assert(model@.examples.take(i + 1).map_values(step_of) =~= model@.examples.take(
                i as int,
            ).map_values(step_of).push(step@));
            i += 1;
        }
        assert(model@.examples.take(i as int) =~= model@.examples);
    }
    assert(steps.deep_view() =~= write_plan(model@, exists));
    steps
}

} // verus!
