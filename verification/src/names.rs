//! The names that a generated source file declares.
//!
//! The generator does not look at names: two components, or a component and a plugin,
//! or two systems of one name give two declarations of that name, and the generated
//! crate will not compile. To give every item a name of its own is up to whoever builds
//! the model; [`BevyModel::declares_each_name_once`] tells whether a model does.

use crate::model::{BevyModel, BevyType, BevyTypeView, ComponentView, ModelView, SystemView};
use vstd::prelude::*;

verus! {

/// The name of the entry: `main`, or the name of the plugin type.
pub open spec fn entry_name(kind: BevyTypeView) -> Seq<char> {
    match kind {
        BevyTypeView::Plugin(name) => name,
        BevyTypeView::PluginGroup(name) => name,
        _ => "main"@,
    }
}

/// The names that the source file of the model declares: that of the entry, then those
/// of the components, the startup systems and the systems.
pub open spec fn declared_names(model: ModelView) -> Seq<Seq<char>> {
    seq![entry_name(model.meta.bevy_type)] + model.components.map_values(
        |c: ComponentView| c.name,
    ) + model.startup_systems.map_values(|s: SystemView| s.name) + model.systems.map_values(
        |s: SystemView| s.name,
    )
}

/// Whether no two of the texts are the same.
pub fn all_distinct(texts: &Vec<String>) -> (distinct: bool)
    ensures
        distinct == texts.deep_view().no_duplicates(),
{
    let mut i: usize = 0;
    while i < texts.len()
        invariant
            i <= texts.len(),
            forall|a: int, b: int| 0 <= a < b < i ==> texts@[a]@ != texts@[b]@,
        decreases texts.len() - i,
    {
        let mut j: usize = 0;
        while j < i
            invariant
                j <= i,
                i < texts.len(),
                forall|a: int| 0 <= a < j ==> texts@[a]@ != texts@[i as int]@,
            decreases i - j,
        {
            if texts[j] == texts[i] {
                assert(texts.deep_view()[j as int] == texts.deep_view()[i as int]);
                return false;
            }
            j += 1;
        }
        i += 1;
    }
    assert forall|a: int, b: int|
        0 <= a < texts.deep_view().len() && 0 <= b < texts.deep_view().len() && a != b implies texts.deep_view()[a]
        != texts.deep_view()[b] by {
        if a < b {
            assert(texts@[a]@ != texts@[b]@);
        } else {
            assert(texts@[b]@ != texts@[a]@);
        }
    }
    true
}

impl BevyModel {
    /// The names that the source file of the model declares.
    pub fn declared_names(&self) -> (names: Vec<String>)
        ensures
            names.deep_view() == declared_names(self@),
    {
        let mut names: Vec<String> = Vec::new();
        match &self.meta.bevy_type {
            BevyType::Plugin(name) => names.push(name.clone()),
            BevyType::PluginGroup(name) => names.push(name.clone()),
            _ => names.push(String::from_str("main")),
        }
        let ghost entry = seq![entry_name(self@.meta.bevy_type)];
        assert(names.deep_view() =~= entry);
        let ghost of_component = |c: ComponentView| c.name;
        let ghost of_system = |s: SystemView| s.name;
        let mut i: usize = 0;
        while i < self.components.len()
            invariant
                i <= self.components.len(),
                of_component == |c: ComponentView| c.name,
                names.deep_view() == entry + self@.components.take(i as int).map_values(
                    of_component,
                ),
            decreases self.components.len() - i,
        {
            let ghost before = names.deep_view();
            names.push(self.components[i].name.clone());
            assert(names.deep_view() =~= before.push(self@.components[i as int].name));
            assert(self@.components.take(i + 1).map_values(of_component) =~= self@.components.take(
                i as int,
            ).map_values(of_component).push(self@.components[i as int].name));
            i += 1;
        }
        assert(self@.components.take(i as int) =~= self@.components);
        let ghost with_components = names.deep_view();
        i = 0;
        while i < self.startup_systems.len()
            invariant
                i <= self.startup_systems.len(),
                of_system == |s: SystemView| s.name,
                names.deep_view() == with_components + self@.startup_systems.take(
                    i as int,
                ).map_values(of_system),
            decreases self.startup_systems.len() - i,
        {
            let ghost before = names.deep_view();
            names.push(self.startup_systems[i].name.clone());
            assert(names.deep_view() =~= before.push(self@.startup_systems[i as int].name));
            assert(self@.startup_systems.take(i + 1).map_values(of_system)
                =~= self@.startup_systems.take(i as int).map_values(of_system).push(
                self@.startup_systems[i as int].name,
            ));
            i += 1;
        }
        assert(self@.startup_systems.take(i as int) =~= self@.startup_systems);
        let ghost with_startup = names.deep_view();
        i = 0;
        while i < self.systems.len()
            invariant
                i <= self.systems.len(),
                of_system == |s: SystemView| s.name,
                names.deep_view() == with_startup + self@.systems.take(i as int).map_values(
                    of_system,
                ),
            decreases self.systems.len() - i,
        {
            let ghost before = names.deep_view();
            names.push(self.systems[i].name.clone());
            assert(names.deep_view() =~= before.push(self@.systems[i as int].name));
            assert(self@.systems.take(i + 1).map_values(of_system) =~= self@.systems.take(
                i as int,
            ).map_values(of_system).push(self@.systems[i as int].name));
            i += 1;
        }
        assert(self@.systems.take(i as int) =~= self@.systems);
        names
    }

    /// Whether every item that the source file of the model declares has a name of its
    /// own. (The examples are not looked at: each has a source file of its own.)
    pub fn declares_each_name_once(&self) -> (once: bool)
        ensures
            once == declared_names(self@).no_duplicates(),
    {
        all_distinct(&self.declared_names())
    }
}

} // verus!
