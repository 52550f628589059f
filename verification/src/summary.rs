//! A model at a glance: its name and kind, and the names of what it holds.
//!
//! Name, kind and plugins are written as their `Debug` text.

use crate::model::{
    BevyModel, BevyType, BevyTypeView, ComponentView, Meta, MetaView, ModelView, Plugin,
    PluginDependency, PluginDependencyView, PluginView, System, SystemView,
};
use crate::text::{join, join_with};
use vstd::prelude::*;

verus! {

/// The text that `{:?}` gives for a string: the string between double quotes, with what
/// cannot stand there as it is written as an escape.
pub uninterp spec fn debug_text(text: Seq<char>) -> Seq<char>;

/// The `Debug` text of a string, as `format!` of std gives it for `{:?}`.
#[verifier::external_body]
fn debug_string(text: &str) -> (shown: String)
    ensures
        shown@ == debug_text(text@),
{
    format!("{:?}", text)
}

/// The `Debug` text of a list whose items have these texts.
pub open spec fn list_debug(items: Seq<Seq<char>>) -> Seq<char> {
    "["@ + join(items, ", "@) + "]"@
}

/// The `Debug` text of a kind.
pub open spec fn kind_debug(kind: BevyTypeView) -> Seq<char> {
    match kind {
        BevyTypeView::App => "App"@,
        BevyTypeView::Plugin(name) => "Plugin("@ + debug_text(name) + ")"@,
        BevyTypeView::PluginGroup(name) => "PluginGroup("@ + debug_text(name) + ")"@,
        BevyTypeView::Example => "Example"@,
    }
}

/// The `Debug` text of name and kind.
pub open spec fn meta_debug(meta: MetaView) -> Seq<char> {
    "Meta { name: "@ + debug_text(meta.name) + ", bevy_type: "@ + kind_debug(meta.bevy_type)
        + " }"@
}

/// The `Debug` text of a crate that a plugin comes from.
pub open spec fn dependency_debug(dependency: PluginDependencyView) -> Seq<char> {
    "PluginDependency { crate_name: "@ + debug_text(dependency.crate_name) + ", crate_version: "@
        + debug_text(dependency.crate_version) + ", crate_paths: "@ + list_debug(
        dependency.crate_paths.map_values(|path: Seq<char>| debug_text(path)),
    ) + " }"@
}

/// The `Debug` text of a truth value.
pub open spec fn bool_debug(value: bool) -> Seq<char> {
    if value {
        "true"@
    } else {
        "false"@
    }
}

/// The `Debug` text of a plugin.
pub open spec fn plugin_debug(plugin: PluginView) -> Seq<char> {
    "Plugin { name: "@ + debug_text(plugin.name) + ", is_group: "@ + bool_debug(plugin.is_group)
        + ", dependencies: "@ + list_debug(
        plugin.dependencies.map_values(|d: PluginDependencyView| dependency_debug(d)),
    ) + " }"@
}

/// The line of a component.
pub open spec fn component_line(component: ComponentView) -> Seq<char> {
    "       "@ + component.name + "\n"@
}

/// The line of a startup system.
pub open spec fn startup_line(system: SystemView) -> Seq<char> {
    "       "@ + system.name + "\n"@
}

/// The line of a system.
pub open spec fn system_line(system: SystemView) -> Seq<char> {
    "       "@ + system.name + ",\n"@
}

/// The line of a plugin.
pub open spec fn plugin_line(plugin: PluginView) -> Seq<char> {
    "       "@ + plugin_debug(plugin) + ",\n"@
}

/// The summary of a model: name and kind, then the components, the startup systems, the
/// systems and the plugins, each list under its heading and in its order. The examples
/// are not part of it.
pub open spec fn summary_text(model: ModelView) -> Seq<char> {
    "BevyModel:\n   Meta:\n       "@ + meta_debug(model.meta) + "\n   Components:\n"@
        + model.components.flat_map(|c: ComponentView| component_line(c))
        + "\n   Startup Systems:\n"@ + model.startup_systems.flat_map(
        |s: SystemView| startup_line(s),
    ) + "\n   Runtime Systems:\n"@ + model.systems.flat_map(|s: SystemView| system_line(s))
        + "\n   Plugins:\n"@ + model.plugins.flat_map(|p: PluginView| plugin_line(p))
}

/// The `Debug` text of a kind.
fn kind_debug_string(kind: &BevyType) -> (shown: String)
    ensures
        shown@ == kind_debug(kind@),
{
    match kind {
        BevyType::App => String::from_str("App"),
        BevyType::Plugin(name) => {
            let mut shown = String::from_str("Plugin(");
            shown.append(debug_string(name.as_str()).as_str());
            shown.append(")");
            shown
        },
        BevyType::PluginGroup(name) => {
            let mut shown = String::from_str("PluginGroup(");
            shown.append(debug_string(name.as_str()).as_str());
            shown.append(")");
            shown
        },
        BevyType::Example => String::from_str("Example"),
    }
}

/// The `Debug` text of name and kind.
fn meta_debug_string(meta: &Meta) -> (shown: String)
    ensures
        shown@ == meta_debug(meta@),
{
    let mut shown = String::from_str("Meta { name: ");
    shown.append(debug_string(meta.name.as_str()).as_str());
    shown.append(", bevy_type: ");
    shown.append(kind_debug_string(&meta.bevy_type).as_str());
    shown.append(" }");
    shown
}

/// The `Debug` text of a list whose items have these texts.
fn list_debug_string(items: &Vec<String>) -> (shown: String)
    ensures
        shown@ == list_debug(items.deep_view()),
{
    let mut shown = String::from_str("[");
    shown.append(join_with(items, ", ").as_str());
    shown.append("]");
    shown
}

/// The `Debug` text of a crate that a plugin comes from.
fn dependency_debug_string(dependency: &PluginDependency) -> (shown: String)
    ensures
        shown@ == dependency_debug(dependency@),
{
    let mut paths: Vec<String> = Vec::new();
    let mut i: usize = 0;
    while i < dependency.crate_paths.len()
        invariant
            i <= dependency.crate_paths.len(),
            paths@.len() == i,
            forall|k: int| 0 <= k < i ==> paths@[k]@ == debug_text(dependency@.crate_paths[k]),
        decreases dependency.crate_paths.len() - i,
    {
        paths.push(debug_string(dependency.crate_paths[i].as_str()));
        i += 1;
    }
    assert(paths.deep_view() =~= dependency@.crate_paths.map_values(
        |path: Seq<char>| debug_text(path),
    ));
    let mut shown = String::from_str("PluginDependency { crate_name: ");
    shown.append(debug_string(dependency.crate_name.as_str()).as_str());
    shown.append(", crate_version: ");
    shown.append(debug_string(dependency.crate_version.as_str()).as_str());
    shown.append(", crate_paths: ");
    shown.append(list_debug_string(&paths).as_str());
    shown.append(" }");
    shown
}

/// The `Debug` text of a plugin.
fn plugin_debug_string(plugin: &Plugin) -> (shown: String)
    ensures
        shown@ == plugin_debug(plugin@),
{
    let mut dependencies: Vec<String> = Vec::new();
    let mut i: usize = 0;
    while i < plugin.dependencies.len()
        invariant
            i <= plugin.dependencies.len(),
            dependencies@.len() == i,
            forall|k: int|
                0 <= k < i ==> dependencies@[k]@ == dependency_debug(plugin@.dependencies[k]),
        decreases plugin.dependencies.len() - i,
    {
        dependencies.push(dependency_debug_string(&plugin.dependencies[i]));
        i += 1;
    }
    assert(dependencies.deep_view() =~= plugin@.dependencies.map_values(
        |d: PluginDependencyView| dependency_debug(d),
    ));
    let mut shown = String::from_str("Plugin { name: ");
    shown.append(debug_string(plugin.name.as_str()).as_str());
    shown.append(", is_group: ");
    if plugin.is_group {
        shown.append("true");
    } else {
        shown.append("false");
    }
    shown.append(", dependencies: ");
    shown.append(list_debug_string(&dependencies).as_str());
    shown.append(" }");
    shown
}

/// Adds the lines of the systems to the text, each name followed by `end`.
fn push_system_lines(text: &mut String, systems: &Vec<System>, end: &str)
    ensures
        final(text)@ == old(text)@ + systems.deep_view().flat_map(
            |s: SystemView| "       "@ + s.name + end@,
        ),
{
    let ghost line = |s: SystemView| "       "@ + s.name + end@;
    let mut i: usize = 0;
    while i < systems.len()
        invariant
            i <= systems.len(),
            line == |s: SystemView| "       "@ + s.name + end@,
            text@ == old(text)@ + systems.deep_view().take(i as int).flat_map(line),
        decreases systems.len() - i,
    {
        text.append("       ");
        text.append(systems[i].name.as_str());
        text.append(end);
        proof {
            systems.deep_view().lemma_flat_map_take_append(line, i as int);
            assert(text@ =~= old(text)@ + (systems.deep_view().take(i as int).flat_map(line) + line(
                systems.deep_view()[i as int],
            )));
        }
        i += 1;
    }
    assert(systems.deep_view().take(i as int) =~= systems.deep_view());
}

impl BevyModel {
    /// The summary of the model.
    pub fn summary(&self) -> (text: String)
        ensures
            text@ == summary_text(self@),
    {
        let mut text = String::from_str("BevyModel:\n   Meta:\n       ");
        text.append(meta_debug_string(&self.meta).as_str());
        text.append("\n   Components:\n");
        let ghost head = text@;
        let ghost by_component = |c: ComponentView| component_line(c);
        let mut i: usize = 0;
        while i < self.components.len()
            invariant
                i <= self.components.len(),
                by_component == |c: ComponentView| component_line(c),
                text@ == head + self@.components.take(i as int).flat_map(by_component),
            decreases self.components.len() - i,
        {
            text.append("       ");
            text.append(self.components[i].name.as_str());
            text.append("\n");
            proof {
                self@.components.lemma_flat_map_take_append(by_component, i as int);
                assert(text@ =~= head + (self@.components.take(i as int).flat_map(by_component)
                    + component_line(self@.components[i as int])));
            }
            i += 1;
        }
        assert(self@.components.take(i as int) =~= self@.components);
        text.append("\n   Startup Systems:\n");
        push_system_lines(&mut text, &self.startup_systems, "\n");
        assert(self@.startup_systems.map_values(|s: SystemView| "       "@ + s.name + "\n"@)
            =~= self@.startup_systems.map_values(|s: SystemView| startup_line(s)));
        text.append("\n   Runtime Systems:\n");
        push_system_lines(&mut text, &self.systems, ",\n");
        assert(self@.systems.map_values(|s: SystemView| "       "@ + s.name + ",\n"@)
            =~= self@.systems.map_values(|s: SystemView| system_line(s)));
        text.append("\n   Plugins:\n");
        let ghost upper = text@;
        let ghost by_plugin = |p: PluginView| plugin_line(p);
        i = 0;
        while i < self.plugins.len()
            invariant
                i <= self.plugins.len(),
                by_plugin == |p: PluginView| plugin_line(p),
                text@ == upper + self@.plugins.take(i as int).flat_map(by_plugin),
            decreases self.plugins.len() - i,
        {
            text.append("       ");
            text.append(plugin_debug_string(&self.plugins[i]).as_str());
            text.append(",\n");
            proof {
                self@.plugins.lemma_flat_map_take_append(by_plugin, i as int);
                assert(text@ =~= upper + (self@.plugins.take(i as int).flat_map(by_plugin)
                    + plugin_line(self@.plugins[i as int])));
            }
            i += 1;
        }
        assert(self@.plugins.take(i as int) =~= self@.plugins);
        assert(text@ =~= summary_text(self@));
        text
    }
}

} // verus!
