use bevy_codegen::model::{BevyModel, BevyType, Component, Meta, System};
use bevy_codegen::names::all_distinct;
use bevy_codegen::templates::{create_default_template, create_plugin_template};

fn system(name: &str) -> System {
    System {
        name: name.to_string(),
        param: vec![],
        content: String::new(),
        visibility: "pub".to_string(),
        attributes: vec![],
    }
}

fn texts(list: &[&str]) -> Vec<String> {
    list.iter().map(|text| text.to_string()).collect()
}

#[test]
fn distinct_texts() {
    assert!(all_distinct(&texts(&[])));
    assert!(all_distinct(&texts(&["a"])));
    assert!(all_distinct(&texts(&["a", "b", "c", "A", ""])));
    assert!(!all_distinct(&texts(&["a", "a"])));
    assert!(!all_distinct(&texts(&["a", "b", "c", "a"])));
    assert!(!all_distinct(&texts(&["x", "b", "c", "c"])));
    assert!(!all_distinct(&texts(&["", "b", ""])));
}

#[test]
fn names_of_the_templates() {
    let game = create_default_template();
    assert_eq!(game.declared_names(), texts(&["main", "Player", "setup", "hello_world"]));
    assert!(game.declares_each_name_once());
    let plugin = create_plugin_template();
    assert_eq!(plugin.declared_names(), texts(&["BevyTest", "Test1", "hello_world"]));
    assert!(plugin.declares_each_name_once());
    assert_eq!(plugin.examples[0].declared_names(), texts(&["main"]));
}

#[test]
fn names_come_entry_first_then_list_by_list() {
    let mut model = BevyModel {
        meta: Meta { name: "m".to_string(), bevy_type: BevyType::PluginGroup("G".to_string()) },
        ..BevyModel::default()
    };
    model.systems.push(system("r1"));
    model.startup_systems.push(system("s1"));
    model.startup_systems.push(system("s2"));
    model.components.push(Component { name: "C".to_string(), content: vec![] });
    assert_eq!(model.declared_names(), texts(&["G", "C", "s1", "s2", "r1"]));
    assert!(model.declares_each_name_once());
}

#[test]
fn shared_names_are_found_but_not_refused() {
    let mut model = create_default_template();
    model.systems.push(system("setup"));
    assert!(!model.declares_each_name_once());
    let text = model.generate().to_string();
    assert_eq!(text.matches("pub fn setup(").count(), 2);

    let mut app = create_default_template();
    app.systems.push(system("main"));
    assert!(!app.declares_each_name_once());

    let mut plugin = create_plugin_template();
    plugin.components.push(Component { name: "BevyTest".to_string(), content: vec![] });
    assert!(!plugin.declares_each_name_once());
}

#[test]
fn names_of_examples_do_not_count() {
    let mut plugin = create_plugin_template();
    plugin.examples[0].systems.push(system("hello_world"));
    assert!(plugin.declares_each_name_once());
}
