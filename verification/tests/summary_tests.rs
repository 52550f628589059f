use bevy_codegen::model::{BevyModel, BevyType, Meta, Plugin, PluginDependency, System};
use bevy_codegen::templates::{create_default_template, create_plugin_template};

#[test]
fn summary_of_the_default_template() {
    assert_eq!(
        create_default_template().summary(),
        "BevyModel:\n   Meta:\n       Meta { name: \"bevy_test\", bevy_type: App }\n   Components:\n       Player\n\n   Startup Systems:\n       setup\n       hello_world\n\n   Runtime Systems:\n\n   Plugins:\n       Plugin { name: \"DefaultPlugins\", is_group: true, dependencies: [] },\n"
    );
}

#[test]
fn summary_shows_name_kind_and_plugins_as_debug_does() {
    let mut model = BevyModel {
        meta: Meta {
            name: "with \"quotes\" and \\ and \n".to_string(),
            bevy_type: BevyType::PluginGroup("Gr\tp".to_string()),
        },
        ..BevyModel::default()
    };
    model.plugins.push(Plugin {
        name: "Cam".to_string(),
        is_group: false,
        dependencies: vec![
            PluginDependency {
                crate_name: "bevy_config_cam".to_string(),
                crate_version: "{ version = \"0.3\" }".to_string(),
                crate_paths: vec!["*".to_string(), "a::b".to_string()],
            },
            PluginDependency {
                crate_name: "other".to_string(),
                crate_version: "1".to_string(),
                crate_paths: vec![],
            },
        ],
    });
    model.plugins.push(Plugin { name: "Two".to_string(), is_group: true, dependencies: vec![] });
    model.systems.push(System {
        name: "tick".to_string(),
        param: vec![],
        content: "".to_string(),
        visibility: "".to_string(),
        attributes: vec![],
    });
    let expected = format!(
        "BevyModel:\n   Meta:\n       {:?}\n   Components:\n\n   Startup Systems:\n\n   Runtime Systems:\n       tick,\n\n   Plugins:\n       {:?},\n       {:?},\n",
        model.meta, model.plugins[0], model.plugins[1]
    );
    assert_eq!(model.summary(), expected);
}

#[test]
fn summary_leaves_the_examples_out() {
    let template = create_plugin_template();
    let text = template.summary();
    assert!(text.contains("Meta { name: \"bevy_test\", bevy_type: Plugin(\"BevyTest\") }"));
    assert!(!text.contains("example_test"));
    assert!(text.ends_with("   Plugins:\n"));
}
