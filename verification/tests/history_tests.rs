use bevy_codegen::history::{Add, BevyModelAction, ProjectModel};
use bevy_codegen::model::{BevyModel, BevyType, Component, Meta};

fn add(name: &str) -> Add {
    Add(BevyModelAction::Component(
        name.to_string(),
        vec![("x".to_string(), "f32".to_string())],
    ))
}

fn names(project: &ProjectModel) -> Vec<String> {
    project.model().components.iter().map(|c| c.name.clone()).collect()
}

fn start() -> ProjectModel {
    let mut model = BevyModel {
        meta: Meta { name: "bevy_test".to_string(), bevy_type: BevyType::App },
        ..BevyModel::default()
    };
    model.components.push(Component { name: "Before".to_string(), content: vec![] });
    ProjectModel::new(model)
}

#[test]
fn new_project_has_nothing_to_undo_or_redo() {
    let mut project = start();
    assert!(!project.can_undo());
    assert!(!project.can_redo());
    assert_eq!(project.undo(), None);
    assert_eq!(project.redo(), None);
    assert_eq!(names(&project), vec!["Before"]);
}

#[test]
fn apply_adds_the_component_with_its_fields() {
    let mut project = start();
    assert_eq!(project.apply(add("Test1")), Ok(()));
    assert_eq!(names(&project), vec!["Before", "Test1"]);
    let added = &project.model().components[1];
    assert_eq!(added.content, vec![("x".to_string(), "f32".to_string())]);
    assert!(project.can_undo());
    assert!(!project.can_redo());
}

#[test]
fn undos_bring_the_components_back_and_redos_restore_them() {
    let mut project = start();
    let added = ["A", "B", "C", "D", "E"];
    for name in added {
        assert_eq!(project.apply(add(name)), Ok(()));
    }
    assert_eq!(names(&project), vec!["Before", "A", "B", "C", "D", "E"]);
    for _ in added {
        assert_eq!(project.undo(), Some(Ok(())));
    }
    assert_eq!(names(&project), vec!["Before"]);
    assert!(!project.can_undo());
    assert_eq!(project.undo(), None);
    assert_eq!(names(&project), vec!["Before"]);
    for _ in added {
        assert_eq!(project.redo(), Some(Ok(())));
    }
    assert_eq!(names(&project), vec!["Before", "A", "B", "C", "D", "E"]);
    assert!(!project.can_redo());
    assert_eq!(project.redo(), None);
    assert_eq!(names(&project), vec!["Before", "A", "B", "C", "D", "E"]);
}

#[test]
fn new_action_discards_the_undone_one() {
    let mut project = start();
    assert_eq!(project.apply(add("A")), Ok(()));
    assert_eq!(project.apply(add("B")), Ok(()));
    assert_eq!(project.undo(), Some(Ok(())));
    assert!(project.can_redo());
    assert_eq!(project.apply(add("C")), Ok(()));
    assert!(!project.can_redo());
    assert_eq!(project.redo(), None);
    assert_eq!(names(&project), vec!["Before", "A", "C"]);
    assert_eq!(project.undo(), Some(Ok(())));
    assert_eq!(project.undo(), Some(Ok(())));
    assert_eq!(names(&project), vec!["Before"]);
    assert_eq!(project.redo(), Some(Ok(())));
    assert_eq!(project.redo(), Some(Ok(())));
    assert_eq!(names(&project), vec!["Before", "A", "C"]);
}

#[test]
fn undo_and_redo_go_one_step_each() {
    let mut project = start();
    assert_eq!(project.apply(add("A")), Ok(()));
    assert_eq!(project.apply(add("B")), Ok(()));
    assert_eq!(project.undo(), Some(Ok(())));
    assert_eq!(names(&project), vec!["Before", "A"]);
    assert!(project.can_undo());
    assert!(project.can_redo());
    assert_eq!(project.redo(), Some(Ok(())));
    assert_eq!(names(&project), vec!["Before", "A", "B"]);
}

#[test]
fn history_leaves_the_rest_of_the_model_alone() {
    let mut project = start();
    assert_eq!(project.apply(add("A")), Ok(()));
    assert_eq!(project.model().meta.name, "bevy_test");
    assert!(project.model().plugins.is_empty());
    assert!(project.model().startup_systems.is_empty());
    assert_eq!(project.undo(), Some(Ok(())));
    assert_eq!(project.model().meta.name, "bevy_test");
    assert_eq!(project.model().meta.bevy_type, BevyType::App);
}

#[test]
fn default_project_is_the_editor_template() {
    let project = ProjectModel::default();
    assert!(!project.can_undo());
    assert!(!project.can_redo());
    assert_eq!(names(&project), vec!["Test1"]);
    assert_eq!(project.model().meta.name, "bevy_test");
    assert_eq!(project.model().startup_systems[0].name, "setup");
}

#[test]
fn action_copies_are_equal() {
    let action = add("A");
    let copy = action.clone();
    assert_eq!(format!("{:?}", copy), format!("{:?}", action));
    assert_eq!(
        format!("{:?}", action),
        "Add(Component(\"A\", [(\"x\", \"f32\")]))"
    );
}
