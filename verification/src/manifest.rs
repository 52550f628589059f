//! The manifest of the generated project.

use crate::model::{
    BevyModel, Feature, ModelView, Plugin, PluginDependency, PluginDependencyView, PluginView,
};
use crate::text::join;
use vstd::prelude::*;

verus! {

/// The text between double quotes.
pub open spec fn quoted(text: Seq<char>) -> Seq<char> {
    "\""@ + text + "\""@
}

/// The tags of the features, quoted, in the order of the list.
pub open spec fn quoted_tags(features: Seq<Feature>) -> Seq<Seq<char>> {
    features.map_values(|f: Feature| quoted(f.tag()))
}

/// The line of the manifest that selects features of `bevy`: without features it
/// switches the default ones off, else it lists them.
pub open spec fn feature_clause(features: Seq<Feature>) -> Seq<char> {
    if features.len() == 0 {
        "default-features = false"@
    } else {
        "features = ["@ + join(quoted_tags(features), ","@) + "]"@
    }
}

/// Three features give a list of exactly their three quoted tags, in their order, with a
/// comma between each two and none after the last.
pub proof fn feature_clause_of_three(a: Feature, b: Feature, c: Feature)
    ensures
        feature_clause(seq![a, b, c]) == "features = ["@ + quoted(a.tag()) + ","@ + quoted(b.tag())
            + ","@ + quoted(c.tag()) + "]"@,
{
    let tags = quoted_tags(seq![a, b, c]);
    assert(tags.drop_last() =~= seq![quoted(a.tag()), quoted(b.tag())]);
    assert(tags.drop_last().drop_last() =~= seq![quoted(a.tag())]);
    reveal_with_fuel(join, 3);
    assert(join(tags, ","@) =~= quoted(a.tag()) + ","@ + quoted(b.tag()) + ","@ + quoted(c.tag()));
}

/// A list of features has as many entries as features, in the order of the list.
pub proof fn feature_list_keeps_order(features: Seq<Feature>)
    ensures
        quoted_tags(features).len() == features.len(),
        forall|i: int|
            0 <= i < features.len() ==> quoted_tags(features)[i] == quoted(
                (#[trigger] features[i]).tag(),
            ),
{
}

/// The line of the manifest that selects features of `bevy`.
pub fn feature_write(features: &Vec<Feature>) -> (clause: String)
    ensures
        clause@ == feature_clause(features@),
{
    if features.len() == 0 {
        return String::from_str("default-features = false");
    }
    let mut clause = String::from_str("features = [");
    let mut i: usize = 0;
    while i < features.len()
        invariant
            i <= features.len(),
            clause@ == "features = ["@ + join(quoted_tags(features@).take(i as int), ","@),
        decreases features.len() - i,
    {
        let ghost before = quoted_tags(features@).take(i as int);
        let ghost now = quoted_tags(features@).take(i + 1);
        if i != 0 {
            clause.append(",");
        }
        clause.append("\"");
        clause.append(features[i].to_feature());
        clause.append("\"");
        proof {
            assert(now.drop_last() =~= before);
            assert(now.last() == quoted(features@[i as int].tag()));
            if i == 0 {
                assert(join(before, ","@) =~= Seq::<char>::empty());
            }
            assert(clause@ =~= "features = ["@ + join(now, ","@));
        }
        i += 1;
    }
    assert(quoted_tags(features@).take(i as int) =~= quoted_tags(features@));
    clause.append("]");
    clause
}

/// Whether the version is a whole inline table rather than a plain version.
pub open spec fn is_table(version: Seq<char>) -> bool {
    version.len() > 0 && version[0] == '{'
}

/// The line of the manifest for one crate: a plain version goes between quotes, a table
/// is written as it is.
pub open spec fn dependency_line(dependency: PluginDependencyView) -> Seq<char> {
    if is_table(dependency.crate_version) {
        dependency.crate_name + " = "@ + dependency.crate_version + "\n"@
    } else {
        dependency.crate_name + " = \""@ + dependency.crate_version + "\"\n"@
    }
}

/// The lines for the crates of one plugin.
pub open spec fn plugin_dependency_lines(plugin: PluginView) -> Seq<char> {
    plugin.dependencies.flat_map(|d: PluginDependencyView| dependency_line(d))
}

/// The lines for the crates of all plugins: plugin by plugin, and within a plugin crate
/// by crate.
pub open spec fn dependency_block(plugins: Seq<PluginView>) -> Seq<char> {
    plugins.flat_map(|p: PluginView| plugin_dependency_lines(p))
}

/// Adds the line of one crate to the text.
fn push_dependency_line(text: &mut String, dependency: &PluginDependency)
    ensures
        final(text)@ == old(text)@ + dependency_line(dependency@),
{
    let version = dependency.crate_version.as_str();
    let table = version.unicode_len() > 0 && version.get_char(0) == '{';
    text.append(dependency.crate_name.as_str());
    if table {
        text.append(" = ");
        text.append(version);
        text.append("\n");
    } else {
        text.append(" = \"");
        text.append(version);
        text.append("\"\n");
    }
    assert(text@ =~= old(text)@ + dependency_line(dependency@));
}

/// The lines of the manifest for the crates that the plugins come from.
pub fn dependency_lines(plugins: &Vec<Plugin>) -> (text: String)
    ensures
        text@ == dependency_block(plugins.deep_view()),
{
    let mut text = String::new();
    let ghost by_plugin = |p: PluginView| plugin_dependency_lines(p);
    let ghost by_dependency = |d: PluginDependencyView| dependency_line(d);
    let mut i: usize = 0;
    while i < plugins.len()
        invariant
            i <= plugins.len(),
            by_plugin == |p: PluginView| plugin_dependency_lines(p),
            by_dependency == |d: PluginDependencyView| dependency_line(d),
            text@ == plugins.deep_view().take(i as int).flat_map(by_plugin),
        decreases plugins.len() - i,
    {
        let plugin = &plugins[i];
        let ghost before = text@;
        let mut j: usize = 0;
        while j < plugin.dependencies.len()
            invariant
                j <= plugin.dependencies.len(),
                by_dependency == |d: PluginDependencyView| dependency_line(d),
                text@ == before + plugin@.dependencies.take(j as int).flat_map(by_dependency),
            decreases plugin.dependencies.len() - j,
        {
            push_dependency_line(&mut text, &plugin.dependencies[j]);
            proof {
                plugin@.dependencies.lemma_flat_map_take_append(by_dependency, j as int);
                assert(text@ =~= before + (plugin@.dependencies.take(j as int).flat_map(
                    by_dependency,
                ) + dependency_line(plugin@.dependencies[j as int])));
            }
            j += 1;
        }
        proof {
            assert(plugin@.dependencies.take(j as int) =~= plugin@.dependencies);
            plugins.deep_view().lemma_flat_map_take_append(by_plugin, i as int);
        }
        i += 1;
    }
    assert(plugins.deep_view().take(i as int) =~= plugins.deep_view());
    text
}

/// The manifest up to the name of the package.
pub const MANIFEST_HEAD: &'static str = "[package]\nname = \"";

/// The manifest from the name of the package to the crates of the plugins.
pub const MANIFEST_PROFILES: &'static str = "\"\nversion = \"0.1.0\"\nedition = \"2021\"\n\n[workspace]\n\n# Enable only a small amount of optimization in debug mode\n[profile.dev]\nopt-level = 1\n\n# Enable high optimizations for dependencies (incl. Bevy), but not for our code:\n[profile.dev.package.\"*\"]\nopt-level = 3\n\n# Maximize release performance with Link-Time-Optimization\n[profile.release]\nlto = \"thin\"\ncodegen-units = 1\n\n[target.'cfg(target_os = \"linux\")'.dependencies]\nwinit = { version = \"0.27\", features=[\"x11\"]}\n\n[dependencies]\n";

/// The head of the table that pins `bevy` for the crate.
pub const MANIFEST_BEVY: &'static str = "\n[dependencies.bevy]\nversion = \"0.8\"\n";

/// The head of the table that pins `bevy` for the tests and examples of the crate.
pub const MANIFEST_DEV_BEVY: &'static str = "\n\n[dev-dependencies.bevy]\nversion = \"0.8\"\n";

/// The end of the manifest.
pub const MANIFEST_END: &'static str = "\n\n";

/// The manifest of a model: the package under the model's name, the fixed profiles and
/// the dependency of Linux builds, the crates of the plugins, and `bevy` with the
/// features of the settings, once for the crate and once for its tests and examples.
pub open spec fn manifest_text(model: ModelView) -> Seq<char> {
    MANIFEST_HEAD@ + model.meta.name + MANIFEST_PROFILES@ + dependency_block(model.plugins)
        + MANIFEST_BEVY@ + feature_clause(model.bevy_settings.features) + MANIFEST_DEV_BEVY@
        + feature_clause(model.bevy_settings.dev_features) + MANIFEST_END@
}

/// The text of the manifest file.
pub fn manifest(model: &BevyModel) -> (text: String)
    ensures
        text@ == manifest_text(model@),
{
    let mut text = String::from_str(MANIFEST_HEAD);
    text.append(model.meta.name.as_str());
    text.append(MANIFEST_PROFILES);
    text.append(dependency_lines(&model.plugins).as_str());
    text.append(MANIFEST_BEVY);
    text.append(feature_write(&model.bevy_settings.features).as_str());
    text.append(MANIFEST_DEV_BEVY);
    text.append(feature_write(&model.bevy_settings.dev_features).as_str());
    text.append(MANIFEST_END);
    text
}

} // verus!
