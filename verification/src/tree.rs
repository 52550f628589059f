//! What the steps of a write plan do to the files on disk, and why a project can be
//! written again and again.
//!
//! The files are pictured as a map from paths to texts. Directories are not part of the
//! picture: a file is in a directory if its path starts with the directory's path and a
//! slash.

use crate::emit::{
    child, config_dir, example_step, example_steps, examples_dir, manifest_path, primary_steps,
    removal_steps, source_dir, write_plan, FsStepView,
};
use crate::model::ModelView;
use vstd::prelude::*;

verus! {

/// Whether the path lies in the directory, at any depth.
pub open spec fn is_under(path: Seq<char>, dir: Seq<char>) -> bool {
    (dir + "/"@).is_prefix_of(path)
}

/// The paths in the directory.
pub open spec fn paths_under(dir: Seq<char>) -> Set<Seq<char>> {
    Set::new(|path: Seq<char>| is_under(path, dir))
}

/// The files after one step.
pub open spec fn run_step(files: Map<Seq<char>, Seq<char>>, step: FsStepView) -> Map<
    Seq<char>,
    Seq<char>,
> {
    match step {
        FsStepView::RemoveDirAll(dir) => files.remove_keys(paths_under(dir)),
        FsStepView::RemoveFile(path) => files.remove(path),
        FsStepView::CreateDir(_) => files,
        FsStepView::WriteFile(path, text) => files.insert(path, text),
    }
}

/// The files after the steps, one after the other.
pub open spec fn run_steps(files: Map<Seq<char>, Seq<char>>, steps: Seq<FsStepView>) -> Map<
    Seq<char>,
    Seq<char>,
>
    decreases steps.len(),
{
    if steps.len() == 0 {
        files
    } else {
        run_step(run_steps(files, steps.drop_last()), steps.last())
    }
}

/// Whether the path belongs to what is generated in the project directory: the manifest
/// and all that is in the directories of the sources, the configuration and the examples.
pub open spec fn is_generated(root: Seq<char>, path: Seq<char>) -> bool {
    is_under(path, source_dir(root)) || is_under(path, config_dir(root)) || path == manifest_path(
        root,
    ) || is_under(path, examples_dir(root))
}

/// The files without those that are generated in the project directory.
pub open spec fn cleared(root: Seq<char>, files: Map<Seq<char>, Seq<char>>) -> Map<
    Seq<char>,
    Seq<char>,
> {
    files.remove_keys(Set::new(|path: Seq<char>| is_generated(root, path)))
}

/// The files that writing a model leaves where there was nothing.
pub open spec fn written(model: ModelView) -> Map<Seq<char>, Seq<char>> {
    run_steps(Map::empty(), primary_steps(model) + example_steps(model))
}

/// Whether no step removes anything.
pub open spec fn only_writes(steps: Seq<FsStepView>) -> bool {
    forall|i: int|
        0 <= i < steps.len() ==> (#[trigger] steps[i]) is WriteFile || steps[i] is CreateDir
}

/// Whether every file that a step writes is generated in the project directory.
pub open spec fn writes_generated(root: Seq<char>, steps: Seq<FsStepView>) -> bool {
    forall|i: int|
        0 <= i < steps.len() && (#[trigger] steps[i]) is WriteFile ==> is_generated(
            root,
            steps[i]->WriteFile_0,
        )
}

/// An entry of a directory lies in the directory.
proof fn child_is_under(dir: Seq<char>, name: Seq<char>)
    ensures
        is_under(child(dir, name), dir),
{
    assert(child(dir, name).subrange(0, (dir + "/"@).len() as int) =~= dir + "/"@);
}

/// To run a list of one step is to run the step.
proof fn run_one_step(files: Map<Seq<char>, Seq<char>>, steps: Seq<FsStepView>)
    requires
        steps.len() == 1,
    ensures
        run_steps(files, steps) == run_step(files, steps[0]),
{
    assert(steps.drop_last().len() == 0);
    assert(run_steps(files, steps.drop_last()) == files);
}

/// To run two lists of steps one after the other is to run the one list of both.
proof fn run_steps_in_two(
    files: Map<Seq<char>, Seq<char>>,
    first: Seq<FsStepView>,
    second: Seq<FsStepView>,
)
    ensures
        run_steps(files, first + second) == run_steps(run_steps(files, first), second),
    decreases second.len(),
{
    if second.len() == 0 {
        assert(first + second =~= first);
    } else {
        assert((first + second).drop_last() =~= first + second.drop_last());
        run_steps_in_two(files, first, second.drop_last());
    }
}

/// The removal steps take away the generated files and no others.
proof fn removal_clears(root: Seq<char>, files: Map<Seq<char>, Seq<char>>)
    ensures
        run_steps(files, removal_steps(root)) == cleared(root, files),
{
    let steps = removal_steps(root);
    let three = steps.drop_last();
    let two = three.drop_last();
    let one = two.drop_last();
    run_one_step(files, one);
    assert(run_steps(files, one) == run_step(files, steps[0]));
    assert(run_steps(files, two) == run_step(run_steps(files, one), steps[1]));
    assert(run_steps(files, three) == run_step(run_steps(files, two), steps[2]));
    assert(run_steps(files, steps) == run_step(run_steps(files, three), steps[3]));
    assert(run_steps(files, steps) =~= cleared(root, files));
}

/// Steps that remove nothing lay their files over those that are there, and all these
/// files are generated ones if the steps write no others.
proof fn writes_lay_over(root: Seq<char>, files: Map<Seq<char>, Seq<char>>, steps: Seq<FsStepView>)
    requires
        only_writes(steps),
        writes_generated(root, steps),
    ensures
        run_steps(files, steps) == files.union_prefer_right(run_steps(Map::empty(), steps)),
        forall|path: Seq<char>| #[trigger]
            run_steps(Map::empty(), steps).dom().contains(path) ==> is_generated(root, path),
    decreases steps.len(),
{
    if steps.len() == 0 {
        assert(run_steps(files, steps) =~= files.union_prefer_right(
            run_steps(Map::empty(), steps),
        ));
    } else {
        let front = steps.drop_last();
        assert forall|i: int| 0 <= i < front.len() implies (#[trigger] front[i]) is WriteFile
            || front[i] is CreateDir by {
            assert(front[i] == steps[i]);
        }
        assert forall|i: int| 0 <= i < front.len() && (#[trigger] front[i]) is WriteFile implies is_generated(
            root, front[i]->WriteFile_0) by {
            assert(front[i] == steps[i]);
        }
        writes_lay_over(root, files, front);
        let last = steps[steps.len() - 1];
        assert(last is WriteFile || last is CreateDir);
        assert(run_steps(files, steps) =~= files.union_prefer_right(
            run_steps(Map::empty(), steps),
        ));
    }
}

/// The steps that write a model remove nothing and write generated files only.
proof fn model_steps_write_generated(model: ModelView)
    ensures
        only_writes(primary_steps(model) + example_steps(model)),
        writes_generated(model.meta.name, primary_steps(model) + example_steps(model)),
{
    let root = model.meta.name;
    let steps = primary_steps(model) + example_steps(model);
    child_is_under(config_dir(root), "config.toml"@);
    child_is_under(source_dir(root), crate::emit::entry_file(model.meta.bevy_type));
    assert forall|i: int| 0 <= i < steps.len() implies ((#[trigger] steps[i]) is WriteFile
        || steps[i] is CreateDir) && (steps[i] is WriteFile ==> is_generated(
        root,
        steps[i]->WriteFile_0,
    )) by {
        if i >= 6 {
            let example = model.examples[i - 6];
            assert(steps[i] == example_step(root, example));
            child_is_under(examples_dir(root), example.meta.name + ".rs"@);
        }
    }
}

/// Writing a model is a full replace: the files that were generated before are gone,
/// the files of the model are there, and all other files are as they were. (Where the
/// project directory does not exist, nothing was generated in it before.)
pub proof fn write_replaces_generated_files(
    model: ModelView,
    exists: bool,
    files: Map<Seq<char>, Seq<char>>,
)
    requires
        !exists ==> forall|path: Seq<char>| #[trigger]
            files.dom().contains(path) ==> !is_generated(model.meta.name, path),
    ensures
        run_steps(files, write_plan(model, exists)) == cleared(
            model.meta.name,
            files,
        ).union_prefer_right(written(model)),
        forall|path: Seq<char>| #[trigger]
            written(model).dom().contains(path) ==> is_generated(model.meta.name, path),
{
    let root = model.meta.name;
    let writes = primary_steps(model) + example_steps(model);
    let first = if exists {
        removal_steps(root)
    } else {
        seq![FsStepView::CreateDir(root)]
    };
    assert(write_plan(model, exists) =~= first + writes);
    run_steps_in_two(files, first, writes);
    model_steps_write_generated(model);
    if exists {
        removal_clears(root, files);
    } else {
        run_one_step(files, first);
        assert(run_steps(files, first) == files);
        assert(cleared(root, files) =~= files);
    }
    writes_lay_over(root, run_steps(files, first), writes);
}

/// Writing the same model a second time leaves every file as the first time left it.
pub proof fn write_again_changes_nothing(
    model: ModelView,
    exists: bool,
    files: Map<Seq<char>, Seq<char>>,
)
    requires
        !exists ==> forall|path: Seq<char>| #[trigger]
            files.dom().contains(path) ==> !is_generated(model.meta.name, path),
    ensures
        run_steps(run_steps(files, write_plan(model, exists)), write_plan(model, true))
            == run_steps(files, write_plan(model, exists)),
{
    let root = model.meta.name;
    let once = run_steps(files, write_plan(model, exists));
    write_replaces_generated_files(model, exists, files);
    write_replaces_generated_files(model, true, once);
    assert(cleared(root, once) =~= cleared(root, files));
}

/// The files that writing a model leaves depend on nothing but the model: two models
/// that hold the same give the same steps.
pub proof fn write_plan_depends_on_model_only(
    first: crate::model::BevyModel,
    second: crate::model::BevyModel,
    exists: bool,
)
    requires
        first@ == second@,
    ensures
        write_plan(first@, exists) == write_plan(second@, exists),
{
}

} // verus!
