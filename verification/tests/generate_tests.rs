use bevy_codegen::generate::suffix_chain;
use bevy_codegen::model::{BevyModel, BevyType, Component, Meta, Plugin, System};
use bevy_codegen::templates::{
    create_default_template, create_default_template_v2, create_plugin_template,
};

fn model(name: &str, kind: BevyType) -> BevyModel {
    BevyModel { meta: Meta { name: name.to_string(), bevy_type: kind }, ..BevyModel::default() }
}

fn plugin(name: &str, is_group: bool) -> Plugin {
    Plugin { name: name.to_string(), is_group, dependencies: vec![] }
}

fn system(name: &str, content: &str) -> System {
    System {
        name: name.to_string(),
        param: vec![],
        content: content.to_string(),
        visibility: "pub".to_string(),
        attributes: vec![],
    }
}

#[test]
fn plugin_with_one_startup_system() {
    let mut foo = model("foo", BevyType::Plugin("Foo".to_string()));
    foo.startup_systems.push(system("setup", "call();"));
    let text = foo.generate().to_string();
    assert_eq!(
        text,
        "pub struct Foo;\n\nimpl Plugin for Foo {\n    fn build(&self, app: &mut App) {\n        app\n        .add_startup_system(setup)\n        ;\n    }\n}\n\npub fn setup() {\n    call();\n}"
    );
}

#[test]
fn plugin_scenario_has_its_three_items_in_order() {
    let mut foo = model("foo", BevyType::Plugin("Foo".to_string()));
    foo.startup_systems.push(system("setup", "call();"));
    let text = foo.generate().to_string();
    let at_struct = text.find("pub struct Foo;").unwrap();
    let at_impl = text.find("impl Plugin for Foo {").unwrap();
    let at_build = text.find("fn build(&self, app: &mut App) {").unwrap();
    let at_setup = text.find("pub fn setup() {").unwrap();
    assert!(at_struct < at_impl);
    assert!(at_impl < at_build);
    assert!(at_build < at_setup);
    assert_eq!(text.matches(".add_startup_system(setup)").count(), 1);
    assert_eq!(text.matches("fn ").count(), 2);
}

#[test]
fn app_without_plugins_and_systems_has_a_bare_chain() {
    let app = model("bare", BevyType::App);
    assert_eq!(suffix_chain(&app), "");
    assert_eq!(app.generate().to_string(), "fn main() {\n    App::new().run();\n}");
}

#[test]
fn plugin_without_plugins_and_systems_has_an_empty_chain_line() {
    let bare = model("bare", BevyType::Plugin("Bare".to_string()));
    assert_eq!(
        bare.generate().to_string(),
        "pub struct Bare;\n\nimpl Plugin for Bare {\n    fn build(&self, app: &mut App) {\n        app\n\n        ;\n    }\n}"
    );
}

#[test]
fn chain_has_plugins_then_startup_systems_then_systems() {
    let mut app = model("ordered", BevyType::App);
    app.plugins.push(plugin("First", false));
    app.plugins.push(plugin("Second", true));
    app.startup_systems.push(system("s1", ""));
    app.startup_systems.push(system("s2", ""));
    app.startup_systems.push(system("s3", ""));
    app.systems.push(system("r1", ""));
    let chain = suffix_chain(&app);
    assert_eq!(
        chain,
        ".add_plugin(First).add_plugins(Second).add_startup_system(s1).add_startup_system(s2).add_startup_system(s3).add_system(r1)"
    );
    assert_eq!(chain.matches(".add_").count(), 2 + 3 + 1);
}

#[test]
fn chain_keeps_duplicates_and_the_order_of_each_list() {
    let mut app = model("twice", BevyType::App);
    app.plugins.push(plugin("B", false));
    app.plugins.push(plugin("A", false));
    app.plugins.push(plugin("B", false));
    app.systems.push(system("z", ""));
    app.systems.push(system("a", ""));
    assert_eq!(
        suffix_chain(&app),
        ".add_plugin(B).add_plugin(A).add_plugin(B).add_system(z).add_system(a)"
    );
}

#[test]
fn example_imports_the_plugin_before_all_else() {
    let mut example = model("example_test", BevyType::Example);
    example.plugins.push(plugin("BevyTest", false));
    assert_eq!(
        example.generate().to_string(),
        "use bevy_test::BevyTest;\n\nfn main() {\n    App::new().add_plugin(BevyTest).run();\n}"
    );
}

#[test]
fn plugin_group_with_attributes_and_parameters() {
    let mut many = model("many", BevyType::PluginGroup("Many".to_string()));
    many.plugins.push(plugin("A", false));
    many.plugins.push(plugin("B", true));
    many.systems.push(System {
        name: "tick".to_string(),
        param: vec![("time".to_string(), "Res<Time>".to_string())],
        content: "step();\nstep();".to_string(),
        visibility: "pub(crate)".to_string(),
        attributes: vec!["inline".to_string(), "no_mangle".to_string()],
    });
    assert_eq!(
        many.generate().to_string(),
        "pub struct Many;\n\nimpl Plugins for Many {\n    fn build(&self, app: &mut App) {\n        app\n        .add_plugin(A).add_plugins(B).add_system(tick)\n        ;\n    }\n}\n\n#[inline]\n#[no_mangle]\npub(crate) fn tick(time: Res<Time>) {\n    step();\n    step();\n}"
    );
}

#[test]
fn component_has_its_derive_and_its_fields() {
    let mut app = model("fields", BevyType::App);
    app.components.push(Component {
        name: "Player".to_string(),
        content: vec![
            ("velocity".to_string(), "Vec3".to_string()),
            ("timer".to_string(), "Option<f32>".to_string()),
        ],
    });
    app.components.push(Component { name: "Marker".to_string(), content: vec![] });
    assert_eq!(
        app.generate().to_string(),
        "fn main() {\n    App::new().run();\n}\n\n#[derive(Component)]\nstruct Player {\n    velocity: Vec3,\n    timer: Option<f32>,\n}\n\n#[derive(Component)]\nstruct Marker;"
    );
}

#[test]
fn system_body_is_not_inspected() {
    let mut app = model("odd", BevyType::App);
    app.systems.push(system("odd", "this is }{ not rust ((("));
    let text = app.generate().to_string();
    assert!(text.ends_with("pub fn odd() {\n    this is }{ not rust (((\n}"));
}

#[test]
fn default_template_text() {
    assert_eq!(
        create_default_template().generate().to_string(),
        "fn main() {\n    App::new().add_plugins(DefaultPlugins).add_startup_system(setup).add_startup_system(hello_world).run();\n}\n\n#[derive(Component)]\nstruct Player {\n    velocity: Vec3,\n    rotation_speed: f32,\n    shooting_timer: Option<f32>,\n}\n\npub fn setup(mut commands: Commands, asset_server: Res<AssetServer>) {\n\n\n    commands.spawn_bundle(Camera2dBundle::default());\n\n    // player\n    let ship_handle = asset_server.load(\"ship_C.png\");\n    commands\n    .spawn_bundle(SpriteBundle {\n        texture: ship_handle,\n        ..default()\n    })\n    .insert(Player {\n        velocity: Vec3::ZERO,\n        rotation_speed: f32::to_radians(180.0),\n        shooting_timer: None,\n    });\n\n\n}\n\n#[no_mangle]\npub fn hello_world() {\n    println!(\"Hello World!\");\n}"
    );
}

#[test]
fn plugin_template_text() {
    let template = create_plugin_template();
    assert_eq!(
        template.generate().to_string(),
        "pub struct BevyTest;\n\nimpl Plugin for BevyTest {\n    fn build(&self, app: &mut App) {\n        app\n        .add_startup_system(hello_world)\n        ;\n    }\n}\n\n#[derive(Component)]\nstruct Test1;\n\npub fn hello_world() {\n    println!(\"Hello World From Plugin!\");\n}"
    );
    assert_eq!(
        template.examples[0].generate().to_string(),
        "use bevy_test::BevyTest;\n\nfn main() {\n    App::new().add_plugin(BevyTest).run();\n}"
    );
}

#[test]
fn generated_text_is_the_text_of_the_same_calls_on_a_scope() {
    let template = create_default_template_v2();
    let mut scope = codegen::Scope::new();
    scope.new_fn("main").line("App::new().add_plugins(DefaultPlugins).add_startup_system(setup).run();");
    scope.new_struct("Test1").derive("Component");
    let setup = scope.new_fn("setup");
    setup.arg("mut commands", "Commands");
    setup.arg("mut meshes", "ResMut<Assets<Mesh>>");
    setup.arg("mut materials", "ResMut<Assets<StandardMaterial>>");
    setup.vis("pub");
    setup.line(template.startup_systems[0].content.clone());
    assert_eq!(template.generate().to_string(), scope.to_string());
}

#[test]
fn generating_twice_gives_the_same_text() {
    let template = create_default_template();
    assert_eq!(template.generate().to_string(), template.generate().to_string());
    assert_eq!(template.clone().generate().to_string(), template.generate().to_string());
}

#[test]
fn examples_do_not_show_in_the_text_of_their_model() {
    let template = create_plugin_template();
    let mut alone = create_plugin_template();
    alone.examples.clear();
    assert_eq!(template.generate().to_string(), alone.generate().to_string());
}
