//! The models that a new project starts from.

use crate::model::{
    BevyModel, BevyType, BevyTypeView, Component, ComponentView, Feature, Meta, MetaView,
    ModelView, Plugin, PluginView, SettingsView, System, SystemView,
};
use vstd::prelude::*;

verus! {

/// The body of the system that sets up the scene of the game template.
pub const SPRITE_SETUP: &'static str =
    "\n\ncommands.spawn_bundle(Camera2dBundle::default());\n\n// player\nlet ship_handle = asset_server.load(\"ship_C.png\");\ncommands\n.spawn_bundle(SpriteBundle {\n    texture: ship_handle,\n    ..default()\n})\n.insert(Player {\n    velocity: Vec3::ZERO,\n    rotation_speed: f32::to_radians(180.0),\n    shooting_timer: None,\n});\n\n";

/// The body of the system that sets up the scene of the editor's template.
pub const SCENE_SETUP: &'static str =
    "\n        // plane\n        commands.spawn(PbrBundle {\n            mesh: meshes.add(Mesh::from(shape::Plane { size: 5.0 })),\n            material: materials.add(Color::rgb(0.3, 0.5, 0.3).into()),\n            ..default()\n        });\n        // cube\n        commands.spawn(PbrBundle {\n            mesh: meshes.add(Mesh::from(shape::Cube { size: 1.0 })),\n            material: materials.add(Color::rgb(0.8, 0.7, 0.6).into()),\n            transform: Transform::from_xyz(0.0, 0.5, 0.0),\n            ..default()\n        });\n        // light\n        commands.spawn(PointLightBundle {\n            point_light: PointLight {\n                intensity: 1500.0,\n                shadows_enabled: true,\n                ..default()\n            },\n            transform: Transform::from_xyz(4.0, 8.0, 4.0),\n            ..default()\n        });\n        // camera\n        commands.spawn(Camera3dBundle {\n            transform: Transform::from_xyz(-2.0, 2.5, 5.0).looking_at(Vec3::ZERO, Vec3::Y),\n            ..default()\n        });";

/// The plugin group that every app template adds.
pub open spec fn default_plugins() -> PluginView {
    PluginView { name: "DefaultPlugins"@, is_group: true, dependencies: Seq::empty() }
}

/// A public system without parameters and attributes that prints one line.
pub open spec fn hello_world(content: Seq<char>, attributes: Seq<Seq<char>>) -> SystemView {
    SystemView {
        name: "hello_world"@,
        param: Seq::empty(),
        content,
        visibility: "pub"@,
        attributes,
    }
}

/// The game template: an app named `bevy_test` with the default plugins, a `Player`
/// component, a system that sets up a sprite and one that prints a greeting, built with
/// the `dynamic` feature.
pub open spec fn default_template() -> ModelView {
    ModelView {
        plugins: seq![default_plugins()],
        components: seq![
            ComponentView {
                name: "Player"@,
                content: seq![
                    ("velocity"@, "Vec3"@),
                    ("rotation_speed"@, "f32"@),
                    ("shooting_timer"@, "Option<f32>"@),
                ],
            },
        ],
        startup_systems: seq![
            SystemView {
                name: "setup"@,
                param: seq![
                    ("mut commands"@, "Commands"@),
                    ("asset_server"@, "Res<AssetServer>"@),
                ],
                content: SPRITE_SETUP@,
                visibility: "pub"@,
                attributes: Seq::empty(),
            },
            hello_world("println!(\"Hello World!\");"@, seq!["no_mangle"@]),
        ],
        systems: Seq::empty(),
        bevy_settings: SettingsView { features: seq![Feature::Dynamic], dev_features: Seq::empty() },
        meta: MetaView { name: "bevy_test"@, bevy_type: BevyTypeView::App },
        examples: Seq::empty(),
    }
}

/// The example of the plugin template: it adds the plugin and nothing else.
pub open spec fn plugin_example() -> ModelView {
    ModelView {
        plugins: seq![
            PluginView { name: "BevyTest"@, is_group: false, dependencies: Seq::empty() },
        ],
        meta: MetaView { name: "example_test"@, bevy_type: BevyTypeView::Example },
        ..ModelView::empty()
    }
}

/// The plugin template: a plugin `BevyTest` in a crate named `bevy_test`, with a
/// component, a system that prints a greeting, and one example.
pub open spec fn plugin_template() -> ModelView {
    ModelView {
        components: seq![ComponentView { name: "Test1"@, content: Seq::empty() }],
        startup_systems: seq![
            hello_world("println!(\"Hello World From Plugin!\");"@, Seq::empty()),
        ],
        meta: MetaView { name: "bevy_test"@, bevy_type: BevyTypeView::Plugin("BevyTest"@) },
        examples: seq![plugin_example()],
        ..ModelView::empty()
    }
}

/// The template of the editor: an app named `bevy_test` with the default plugins, a
/// component and a system that sets up a scene with a plane, a cube, a light and a
/// camera, built with the `dynamic` feature.
pub open spec fn editor_template() -> ModelView {
    ModelView {
        plugins: seq![default_plugins()],
        components: seq![ComponentView { name: "Test1"@, content: Seq::empty() }],
        startup_systems: seq![
            SystemView {
                name: "setup"@,
                param: seq![
                    ("mut commands"@, "Commands"@),
                    ("mut meshes"@, "ResMut<Assets<Mesh>>"@),
                    ("mut materials"@, "ResMut<Assets<StandardMaterial>>"@),
                ],
                content: SCENE_SETUP@,
                visibility: "pub"@,
                attributes: Seq::empty(),
            },
        ],
        systems: Seq::empty(),
        bevy_settings: SettingsView { features: seq![Feature::Dynamic], dev_features: Seq::empty() },
        meta: MetaView { name: "bevy_test"@, bevy_type: BevyTypeView::App },
        examples: Seq::empty(),
    }
}

/// A pair of two texts.
fn pair(first: &str, second: &str) -> (both: (String, String))
    ensures
        both.deep_view() == (first@, second@),
{
    (String::from_str(first), String::from_str(second))
}

/// The plugin group `DefaultPlugins`.
fn default_plugins_group() -> (plugin: Plugin)
    ensures
        plugin@ == default_plugins(),
{
    let plugin = Plugin {
        name: String::from_str("DefaultPlugins"),
        is_group: true,
        dependencies: Vec::new(),
    };
    assert(plugin.dependencies.deep_view() =~= Seq::empty());
    plugin
}

/// The system `hello_world` with that body and those attributes.
fn hello_world_system(content: &str, attributes: Vec<String>) -> (system: System)
    ensures
        system@ == hello_world(content@, attributes.deep_view()),
{
    let system = System {
        name: String::from_str("hello_world"),
        param: Vec::new(),
        content: String::from_str(content),
        visibility: String::from_str("pub"),
        attributes,
    };
    assert(system.param.deep_view() =~= Seq::empty());
    system
}

/// The game template.
pub fn create_default_template() -> (model: BevyModel)
    ensures
        model@ == default_template(),
{
    let mut bevy_model = BevyModel {
        meta: Meta { name: String::from_str("bevy_test"), bevy_type: BevyType::App },
        ..BevyModel::default()
    };
    let fields = vec![
        pair("velocity", "Vec3"),
        pair("rotation_speed", "f32"),
        pair("shooting_timer", "Option<f32>"),
    ];
    assert(fields.deep_view() =~= default_template().components[0].content);
    bevy_model.components.push(Component { name: String::from_str("Player"), content: fields });
    //For asset_server
    bevy_model.plugins.push(default_plugins_group());
    let param = vec![pair("mut commands", "Commands"), pair("asset_server", "Res<AssetServer>")];
    assert(param.deep_view() =~= default_template().startup_systems[0].param);
    let setup_entities = System {
        name: String::from_str("setup"),
        param,
        content: String::from_str(SPRITE_SETUP),
        visibility: String::from_str("pub"),
        attributes: Vec::new(),
    };
    assert(setup_entities.attributes.deep_view() =~= Seq::empty());
    bevy_model.startup_systems.push(setup_entities);
    let attributes = vec![String::from_str("no_mangle")];
    assert(attributes.deep_view() =~= seq!["no_mangle"@]);
    bevy_model.startup_systems.push(hello_world_system("println!(\"Hello World!\");", attributes));
    //Dynamic Lib for fast reload
    bevy_model.bevy_settings.features.push(Feature::Dynamic);
    proof {
        let expected = default_template();
        assert(bevy_model@.plugins =~= expected.plugins);
        assert(bevy_model@.components =~= expected.components);
        assert(bevy_model@.startup_systems =~= expected.startup_systems);
        assert(bevy_model@.systems =~= expected.systems);
        assert(bevy_model@.examples =~= expected.examples);
        assert(bevy_model@.bevy_settings.features =~= expected.bevy_settings.features);
        assert(bevy_model@.bevy_settings.dev_features =~= expected.bevy_settings.dev_features);
    }
    bevy_model
}

/// The plugin template.
pub fn create_plugin_template() -> (model: BevyModel)
    ensures
        model@ == plugin_template(),
{
    let plugin = Plugin {
        name: String::from_str("BevyTest"),
        is_group: false,
        dependencies: Vec::new(),
    };
    assert(plugin.dependencies.deep_view() =~= Seq::empty());
    let example = BevyModel {
        meta: Meta { name: String::from_str("example_test"), bevy_type: BevyType::Example },
        plugins: vec![plugin],
        ..BevyModel::default()
    };
    proof {
        let expected = plugin_example();
        assert(example@.plugins =~= expected.plugins);
        assert(example@.components =~= expected.components);
        assert(example@.startup_systems =~= expected.startup_systems);
        assert(example@.systems =~= expected.systems);
        assert(example@.examples =~= expected.examples);
    }
    let mut bevy_model = BevyModel {
        meta: Meta {
            name: String::from_str("bevy_test"),
            bevy_type: BevyType::Plugin(String::from_str("BevyTest")),
        },
        examples: vec![example],
        ..BevyModel::default()
    };
    let test1 = Component { name: String::from_str("Test1"), content: Vec::new() };
    assert(test1.content.deep_view() =~= Seq::empty());
    bevy_model.components.push(test1);
    let attributes: Vec<String> = Vec::new();
    assert(attributes.deep_view() =~= Seq::empty());
    bevy_model.startup_systems.push(
        hello_world_system("println!(\"Hello World From Plugin!\");", attributes),
    );
    proof {
        let expected = plugin_template();
        assert(bevy_model@.plugins =~= expected.plugins);
        assert(bevy_model@.components =~= expected.components);
        assert(bevy_model@.startup_systems =~= expected.startup_systems);
        assert(bevy_model@.systems =~= expected.systems);
        assert(bevy_model@.examples =~= expected.examples);
    }
    bevy_model
}

/// The template of the editor.
pub fn create_default_template_v2() -> (model: BevyModel)
    ensures
        model@ == editor_template(),
{
    let mut bevy_model = BevyModel {
        meta: Meta { name: String::from_str("bevy_test"), bevy_type: BevyType::App },
        ..BevyModel::default()
    };
    let test1 = Component { name: String::from_str("Test1"), content: Vec::new() };
    assert(test1.content.deep_view() =~= Seq::empty());
    bevy_model.components.push(test1);
    bevy_model.plugins.push(default_plugins_group());
    let param = vec![
        pair("mut commands", "Commands"),
        pair("mut meshes", "ResMut<Assets<Mesh>>"),
        pair("mut materials", "ResMut<Assets<StandardMaterial>>"),
    ];
    assert(param.deep_view() =~= editor_template().startup_systems[0].param);
    let hw_system = System {
        name: String::from_str("setup"),
        param,
        visibility: String::from_str("pub"),
        attributes: Vec::new(),
        content: String::from_str(SCENE_SETUP),
    };
    assert(hw_system.attributes.deep_view() =~= Seq::empty());
    bevy_model.startup_systems.push(hw_system);
    bevy_model.bevy_settings.features.push(Feature::Dynamic);
    proof {
        let expected = editor_template();
        assert(bevy_model@.plugins =~= expected.plugins);
        assert(bevy_model@.components =~= expected.components);
        assert(bevy_model@.startup_systems =~= expected.startup_systems);
        assert(bevy_model@.systems =~= expected.systems);
        assert(bevy_model@.examples =~= expected.examples);
        assert(bevy_model@.bevy_settings.features =~= expected.bevy_settings.features);
        assert(bevy_model@.bevy_settings.dev_features =~= expected.bevy_settings.dev_features);
    }
    bevy_model
}

} // verus!
