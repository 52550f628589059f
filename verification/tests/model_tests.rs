use bevy_codegen::model::{
    clone_pairs, clone_strings, BevyModel, BevyType, Feature, Meta, Settings,
};
use bevy_codegen::templates::{
    create_default_template, create_default_template_v2, create_plugin_template, SCENE_SETUP,
    SPRITE_SETUP,
};

#[test]
fn default_meta() {
    let meta = Meta::default();
    assert_eq!(meta.name, "bevy_default_meta");
    assert_eq!(meta.bevy_type, BevyType::App);
}

#[test]
fn default_model_is_empty() {
    let model = BevyModel::default();
    assert!(model.plugins.is_empty());
    assert!(model.components.is_empty());
    assert!(model.startup_systems.is_empty());
    assert!(model.systems.is_empty());
    assert!(model.examples.is_empty());
    assert!(model.bevy_settings.features.is_empty());
    assert!(model.bevy_settings.dev_features.is_empty());
    assert_eq!(model.meta.name, "bevy_default_meta");
    let settings = Settings::default();
    assert!(settings.features.is_empty());
    assert!(settings.dev_features.is_empty());
}

#[test]
fn kinds_compare_by_variant_and_name() {
    assert_eq!(BevyType::App, BevyType::App);
    assert_eq!(BevyType::Example, BevyType::Example);
    assert_eq!(BevyType::Plugin("A".to_string()), BevyType::Plugin("A".to_string()));
    assert_ne!(BevyType::Plugin("A".to_string()), BevyType::Plugin("B".to_string()));
    assert_ne!(BevyType::Plugin("A".to_string()), BevyType::PluginGroup("A".to_string()));
    assert_ne!(BevyType::App, BevyType::Example);
}

#[test]
fn copies_hold_the_same() {
    for template in [
        create_default_template(),
        create_plugin_template(),
        create_default_template_v2(),
    ] {
        assert_eq!(format!("{:?}", template.clone()), format!("{:?}", template));
    }
    let pairs = vec![("a".to_string(), "b".to_string()), ("c".to_string(), "d".to_string())];
    assert_eq!(clone_pairs(&pairs), pairs);
    let strings = vec!["a".to_string(), "".to_string()];
    assert_eq!(clone_strings(&strings), strings);
}

#[test]
fn default_template_contents() {
    let model = create_default_template();
    assert_eq!(model.meta.name, "bevy_test");
    assert_eq!(model.meta.bevy_type, BevyType::App);
    assert_eq!(model.plugins.len(), 1);
    assert_eq!(model.plugins[0].name, "DefaultPlugins");
    assert!(model.plugins[0].is_group);
    assert!(model.plugins[0].dependencies.is_empty());
    assert_eq!(model.components.len(), 1);
    assert_eq!(model.components[0].name, "Player");
    assert_eq!(
        model.components[0].content,
        vec![
            ("velocity".to_string(), "Vec3".to_string()),
            ("rotation_speed".to_string(), "f32".to_string()),
            ("shooting_timer".to_string(), "Option<f32>".to_string()),
        ]
    );
    assert_eq!(model.startup_systems.len(), 2);
    assert_eq!(model.startup_systems[0].name, "setup");
    assert_eq!(
        model.startup_systems[0].param,
        vec![
            ("mut commands".to_string(), "Commands".to_string()),
            ("asset_server".to_string(), "Res<AssetServer>".to_string()),
        ]
    );
    assert_eq!(model.startup_systems[0].content, SPRITE_SETUP);
    assert!(SPRITE_SETUP.starts_with("\n\ncommands.spawn_bundle(Camera2dBundle::default());\n"));
    assert!(SPRITE_SETUP.ends_with("    shooting_timer: None,\n});\n\n"));
    assert_eq!(model.startup_systems[0].visibility, "pub");
    assert!(model.startup_systems[0].attributes.is_empty());
    assert_eq!(model.startup_systems[1].name, "hello_world");
    assert_eq!(model.startup_systems[1].content, "println!(\"Hello World!\");");
    assert_eq!(model.startup_systems[1].attributes, vec!["no_mangle"]);
    assert!(model.systems.is_empty());
    assert_eq!(model.bevy_settings.features, vec![Feature::Dynamic]);
    assert!(model.bevy_settings.dev_features.is_empty());
    assert!(model.examples.is_empty());
}

#[test]
fn plugin_template_contents() {
    let model = create_plugin_template();
    assert_eq!(model.meta.name, "bevy_test");
    assert_eq!(model.meta.bevy_type, BevyType::Plugin("BevyTest".to_string()));
    assert!(model.plugins.is_empty());
    assert_eq!(model.components.len(), 1);
    assert_eq!(model.components[0].name, "Test1");
    assert!(model.components[0].content.is_empty());
    assert_eq!(model.startup_systems.len(), 1);
    assert_eq!(model.startup_systems[0].name, "hello_world");
    assert_eq!(
        model.startup_systems[0].content,
        "println!(\"Hello World From Plugin!\");"
    );
    assert_eq!(model.startup_systems[0].visibility, "pub");
    assert!(model.bevy_settings.features.is_empty());
    assert_eq!(model.examples.len(), 1);
    let example = &model.examples[0];
    assert_eq!(example.meta.name, "example_test");
    assert_eq!(example.meta.bevy_type, BevyType::Example);
    assert_eq!(example.plugins.len(), 1);
    assert_eq!(example.plugins[0].name, "BevyTest");
    assert!(!example.plugins[0].is_group);
    assert!(example.components.is_empty());
    assert!(example.examples.is_empty());
}

#[test]
fn editor_template_contents() {
    let model = create_default_template_v2();
    assert_eq!(model.meta.name, "bevy_test");
    assert_eq!(model.meta.bevy_type, BevyType::App);
    assert_eq!(model.components.len(), 1);
    assert_eq!(model.components[0].name, "Test1");
    assert_eq!(model.plugins.len(), 1);
    assert_eq!(model.plugins[0].name, "DefaultPlugins");
    assert!(model.plugins[0].is_group);
    assert_eq!(model.startup_systems.len(), 1);
    assert_eq!(model.startup_systems[0].name, "setup");
    assert_eq!(model.startup_systems[0].param.len(), 3);
    assert_eq!(
        model.startup_systems[0].param[2],
        ("mut materials".to_string(), "ResMut<Assets<StandardMaterial>>".to_string())
    );
    assert_eq!(model.startup_systems[0].content, SCENE_SETUP);
    assert!(SCENE_SETUP.starts_with("\n        // plane\n        commands.spawn(PbrBundle {\n"));
    assert!(SCENE_SETUP.ends_with("looking_at(Vec3::ZERO, Vec3::Y),\n            ..default()\n        });"));
    assert_eq!(model.bevy_settings.features, vec![Feature::Dynamic]);
}
