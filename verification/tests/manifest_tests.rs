use bevy_codegen::manifest::{dependency_lines, feature_write, manifest};
use bevy_codegen::model::{BevyModel, BevyType, Feature, Meta, Plugin, PluginDependency};

fn dependency(name: &str, version: &str, paths: &[&str]) -> PluginDependency {
    PluginDependency {
        crate_name: name.to_string(),
        crate_version: version.to_string(),
        crate_paths: paths.iter().map(|p| p.to_string()).collect(),
    }
}

#[test]
fn no_features_switch_the_default_ones_off() {
    assert_eq!(feature_write(&vec![]), "default-features = false");
}

#[test]
fn three_features_give_three_quoted_tags() {
    let clause = feature_write(&vec![Feature::Render, Feature::Png, Feature::BevyAudio]);
    assert_eq!(clause, "features = [\"render\",\"png\",\"bevy_audio\"]");
    assert_eq!(clause.matches('"').count(), 6);
    assert_eq!(clause.matches(',').count(), 2);
    assert!(!clause.contains(",]"));
}

#[test]
fn one_feature_has_no_comma() {
    assert_eq!(feature_write(&vec![Feature::Dynamic]), "features = [\"dynamic\"]");
}

#[test]
fn features_keep_their_order_and_their_duplicates() {
    assert_eq!(
        feature_write(&vec![Feature::X11, Feature::Default, Feature::X11]),
        "features = [\"x11\",\"default\",\"x11\"]"
    );
}

#[test]
fn every_feature_has_its_tag() {
    let all = [
        (Feature::Default, "default"),
        (Feature::BevyAudio, "bevy_audio"),
        (Feature::BevyGilrs, "bevy_gilrs"),
        (Feature::BevyWinit, "bevy_winit"),
        (Feature::Render, "render"),
        (Feature::Png, "png"),
        (Feature::Hdr, "hdr"),
        (Feature::Vorbis, "vorbis"),
        (Feature::X11, "x11"),
        (Feature::FilesystemWatcher, "filesystem_watcher"),
        (Feature::TraceChrome, "trace_chrome"),
        (Feature::TraceTracy, "trace_tracy"),
        (Feature::Wayland, "wayland"),
        (Feature::WgpuTrace, "wgpu_trace"),
        (Feature::BevyCiTesting, "bevy_ci_testing"),
        (Feature::BevySprite, "bevy_sprite"),
        (Feature::Dynamic, "dynamic"),
        (Feature::BevyUi, "bevy_ui"),
        (Feature::Tga, "tga"),
        (Feature::Serialize, "serialize"),
        (Feature::Mp3, "mp3"),
        (Feature::BevyCorePipeline, "bevy_core_pipeline"),
        (Feature::Wav, "wav"),
        (Feature::Trace, "trace"),
        (Feature::SubpixelGlyphAtlas, "subpixel_glyph_atlas"),
        (Feature::Bmp, "bmp"),
        (Feature::BevyGltf, "bevy_gltf"),
        (Feature::Dds, "dds"),
        (Feature::BevyDynamicPlugin, "bevy_dynamic_plugin"),
        (Feature::BevyRender, "bevy_render"),
        (Feature::BevyText, "bevy_text"),
        (Feature::Flac, "flac"),
        (Feature::BevyPbr, "bevy_pbr"),
        (Feature::Jpeg, "jpeg"),
        (Feature::BevyDylib, "bevy_dylib"),
    ];
    assert_eq!(all.len(), 35);
    for (feature, tag) in all {
        assert_eq!(feature.to_feature(), tag);
    }
}

#[test]
fn plain_version_is_quoted_and_table_is_not() {
    let plugins = vec![
        Plugin {
            name: "Cam".to_string(),
            is_group: false,
            dependencies: vec![
                dependency("bevy_config_cam", "0.3.0", &["*"]),
                dependency("local", "{ path = \"../local\" }", &[]),
            ],
        },
        Plugin { name: "None".to_string(), is_group: true, dependencies: vec![] },
        Plugin {
            name: "Last".to_string(),
            is_group: false,
            dependencies: vec![dependency("empty_version", "", &[])],
        },
    ];
    assert_eq!(
        dependency_lines(&plugins),
        "bevy_config_cam = \"0.3.0\"\nlocal = { path = \"../local\" }\nempty_version = \"\"\n"
    );
}

#[test]
fn no_plugins_give_no_dependency_lines() {
    assert_eq!(dependency_lines(&vec![]), "");
}

#[test]
fn manifest_of_a_small_model() {
    let mut model = BevyModel {
        meta: Meta { name: "small".to_string(), bevy_type: BevyType::App },
        ..BevyModel::default()
    };
    model.plugins.push(Plugin {
        name: "Cam".to_string(),
        is_group: false,
        dependencies: vec![dependency("bevy_config_cam", "0.3.0", &["*"])],
    });
    model.bevy_settings.features.push(Feature::Dynamic);
    model.bevy_settings.features.push(Feature::Png);
    let expected = "[package]\nname = \"small\"\nversion = \"0.1.0\"\nedition = \"2021\"\n\n[workspace]\n\n# Enable only a small amount of optimization in debug mode\n[profile.dev]\nopt-level = 1\n\n# Enable high optimizations for dependencies (incl. Bevy), but not for our code:\n[profile.dev.package.\"*\"]\nopt-level = 3\n\n# Maximize release performance with Link-Time-Optimization\n[profile.release]\nlto = \"thin\"\ncodegen-units = 1\n\n[target.'cfg(target_os = \"linux\")'.dependencies]\nwinit = { version = \"0.27\", features=[\"x11\"]}\n\n[dependencies]\nbevy_config_cam = \"0.3.0\"\n\n[dependencies.bevy]\nversion = \"0.8\"\nfeatures = [\"dynamic\",\"png\"]\n\n[dev-dependencies.bevy]\nversion = \"0.8\"\ndefault-features = false\n\n";
    assert_eq!(manifest(&model), expected);
}

#[test]
fn manifest_mirrors_the_dev_features() {
    let mut model = BevyModel::default();
    model.bevy_settings.dev_features.push(Feature::Trace);
    let text = manifest(&model);
    assert!(text.starts_with("[package]\nname = \"bevy_default_meta\"\n"));
    assert!(text.contains("[dependencies]\n\n[dependencies.bevy]\nversion = \"0.8\"\ndefault-features = false\n\n"));
    assert!(text.ends_with("[dev-dependencies.bevy]\nversion = \"0.8\"\nfeatures = [\"trace\"]\n\n"));
}
