//! From a model to the declarations of its source file.
//!
//! The entry of the generated crate is either a `main` function or a plugin type with
//! its `build` function. Either one runs the same chain of calls on the app: one call
//! for each plugin, then one for each startup system, then one for each system, each
//! list in its own order. After the entry come the components and the systems.

use crate::ir::{
    function_arg, function_arg_ref_self, function_attr, function_line, function_new,
    function_vis, impl_new, impl_push_fn, impl_trait, scope_import, scope_model, scope_new,
    scope_push_fn, scope_push_impl, scope_push_struct, struct_derive, struct_field, struct_new,
    struct_vis, fn_decl, has_path_separator, struct_decl, Decl, FnDecl, ImplDecl, ScopeModel,
    StructDecl,
};
use crate::model::{
    BevyModel, BevyType, BevyTypeView, Component, ComponentView, ModelView, PluginView, System,
    SystemView,
};
use codegen::Scope;
use vstd::prelude::*;

verus! {

/// The call that adds one plugin, or one group of plugins, to the app.
pub open spec fn plugin_chunk(plugin: PluginView) -> Seq<char> {
    if plugin.is_group {
        ".add_plugins("@ + plugin.name + ")"@
    } else {
        ".add_plugin("@ + plugin.name + ")"@
    }
}

/// The call that adds one startup system to the app.
pub open spec fn startup_chunk(system: SystemView) -> Seq<char> {
    ".add_startup_system("@ + system.name + ")"@
}

/// The call that adds one system to the app.
pub open spec fn system_chunk(system: SystemView) -> Seq<char> {
    ".add_system("@ + system.name + ")"@
}

/// The calls of the chain, one by one.
pub open spec fn suffix_chunks(model: ModelView) -> Seq<Seq<char>> {
    model.plugins.map_values(|p: PluginView| plugin_chunk(p)) + model.startup_systems.map_values(
        |s: SystemView| startup_chunk(s),
    ) + model.systems.map_values(|s: SystemView| system_chunk(s))
}

/// The chain as one text.
pub open spec fn suffix_text(model: ModelView) -> Seq<char> {
    suffix_chunks(model).flatten()
}

/// The chain has one call for each plugin, startup system and system of the model: first
/// the plugins, then the startup systems, then the systems, each in the order of its
/// list.
pub proof fn suffix_chain_follows_the_lists(model: ModelView)
    ensures
        suffix_chunks(model).len() == model.plugins.len() + model.startup_systems.len()
            + model.systems.len(),
        forall|i: int|
            0 <= i < model.plugins.len() ==> suffix_chunks(model)[i] == plugin_chunk(
                #[trigger] model.plugins[i],
            ),
        forall|i: int|
            0 <= i < model.startup_systems.len() ==> suffix_chunks(model)[model.plugins.len() + i]
                == startup_chunk(#[trigger] model.startup_systems[i]),
        forall|i: int|
            0 <= i < model.systems.len() ==> suffix_chunks(model)[model.plugins.len()
                + model.startup_systems.len() + i] == system_chunk(#[trigger] model.systems[i]),
{
}

/// The chain is the text of the plugins' calls, then that of the startup systems', then
/// that of the systems'.
pub proof fn suffix_text_by_list(model: ModelView)
    ensures
        suffix_text(model) == model.plugins.flat_map(|p: PluginView| plugin_chunk(p))
            + model.startup_systems.flat_map(|s: SystemView| startup_chunk(s))
            + model.systems.flat_map(|s: SystemView| system_chunk(s)),
{
    let plugins = model.plugins.map_values(|p: PluginView| plugin_chunk(p));
    let startup = model.startup_systems.map_values(|s: SystemView| startup_chunk(s));
    let systems = model.systems.map_values(|s: SystemView| system_chunk(s));
    vstd::seq_lib::lemma_flatten_concat(plugins, startup);
    vstd::seq_lib::lemma_flatten_concat(plugins + startup, systems);
}

/// The chain of calls that the entry of the generated crate runs on its app.
pub fn suffix_chain(model: &BevyModel) -> (chain: String)
    ensures
        chain@ == suffix_text(model@),
{
    let mut chain = String::new();
    let ghost plugin_text = |p: PluginView| plugin_chunk(p);
    let ghost startup_text = |s: SystemView| startup_chunk(s);
    let ghost system_text = |s: SystemView| system_chunk(s);
    let mut i: usize = 0;
    while i < model.plugins.len()
        invariant
            i <= model.plugins.len(),
            plugin_text == |p: PluginView| plugin_chunk(p),
            chain@ == model@.plugins.take(i as int).flat_map(plugin_text),
        decreases model.plugins.len() - i,
    {
        let plugin = &model.plugins[i];
        if plugin.is_group {
            chain.append(".add_plugins(");
        } else {
            chain.append(".add_plugin(");
        }
        chain.append(plugin.name.as_str());
        chain.append(")");
        proof {
            model@.plugins.lemma_flat_map_take_append(plugin_text, i as int);
            assert(chain@ =~= model@.plugins.take(i as int).flat_map(plugin_text) + plugin_chunk(
                model@.plugins[i as int],
            ));
        }
        i += 1;
    }
    assert(model@.plugins.take(i as int) =~= model@.plugins);
    let ghost after_plugins = chain@;
    i = 0;
    while i < model.startup_systems.len()
        invariant
            i <= model.startup_systems.len(),
            startup_text == |s: SystemView| startup_chunk(s),
            chain@ == after_plugins + model@.startup_systems.take(i as int).flat_map(
                startup_text,
            ),
        decreases model.startup_systems.len() - i,
    {
        chain.append(".add_startup_system(");
        chain.append(model.startup_systems[i].name.as_str());
        chain.append(")");
        proof {
            model@.startup_systems.lemma_flat_map_take_append(startup_text, i as int);
            assert(chain@ =~= after_plugins + (model@.startup_systems.take(i as int).flat_map(
                startup_text,
            ) + startup_chunk(model@.startup_systems[i as int])));
        }
        i += 1;
    }
    assert(model@.startup_systems.take(i as int) =~= model@.startup_systems);
    let ghost after_startup = chain@;
    i = 0;
    while i < model.systems.len()
        invariant
            i <= model.systems.len(),
            system_text == |s: SystemView| system_chunk(s),
            chain@ == after_startup + model@.systems.take(i as int).flat_map(system_text),
        decreases model.systems.len() - i,
    {
        chain.append(".add_system(");
        chain.append(model.systems[i].name.as_str());
        chain.append(")");
        proof {
            model@.systems.lemma_flat_map_take_append(system_text, i as int);
            assert(chain@ =~= after_startup + (model@.systems.take(i as int).flat_map(system_text)
                + system_chunk(model@.systems[i as int])));
        }
        i += 1;
    }
    assert(model@.systems.take(i as int) =~= model@.systems);
    proof {
        suffix_text_by_list(model@);
    }
    chain
}

/// The `main` function of an app: it makes the app, runs the chain on it and starts it.
pub open spec fn main_decl(chain: Seq<char>) -> FnDecl {
    FnDecl::named("main"@).with_line("App::new()"@ + chain + ".run();"@)
}

/// The `build` function of a plugin: it runs the chain on the app that it is given.
pub open spec fn build_decl(chain: Seq<char>) -> FnDecl {
    FnDecl::named("build"@).with_ref_self().with_arg("app"@, "&mut App"@).with_line(
        "app"@,
    ).with_line(chain).with_line(";"@)
}

/// The trait that a plugin type implements.
pub open spec fn plugin_trait(is_group: bool) -> Seq<char> {
    if is_group {
        "Plugins"@
    } else {
        "Plugin"@
    }
}

/// The two items of a plugin: its public unit struct, and the block that implements the
/// plugin trait for it with the one function `build`.
pub open spec fn plugin_decls(name: Seq<char>, is_group: bool, chain: Seq<char>) -> Seq<Decl> {
    seq![
        Decl::Struct(StructDecl::named(name).with_vis("pub"@)),
        Decl::Impl(ImplDecl::of(name).with_trait(plugin_trait(is_group)).with_fn(build_decl(chain))),
    ]
}

/// The entry of the generated crate, by the kind of the project.
pub open spec fn entry_decls(model: ModelView) -> Seq<Decl> {
    match model.meta.bevy_type {
        BevyTypeView::Plugin(name) => plugin_decls(name, false, suffix_text(model)),
        BevyTypeView::PluginGroup(name) => plugin_decls(name, true, suffix_text(model)),
        _ => seq![Decl::Function(main_decl(suffix_text(model)))],
    }
}

/// The entry runs the chain of the model and no other: the one body line of `main` goes
/// from the new app through the chain to `run`, and the body of `build` is the app, the
/// chain and the closing semicolon.
pub proof fn entry_runs_the_chain(model: ModelView)
    ensures
        model.meta.bevy_type is App || model.meta.bevy_type is Example ==> entry_decls(model)
            == seq![
            Decl::Function(
                FnDecl {
                    body: seq!["App::new()"@ + suffix_chunks(model).flatten() + ".run();"@],
                    ..FnDecl::named("main"@)
                },
            ),
        ],
        model.meta.bevy_type is Plugin || model.meta.bevy_type is PluginGroup ==> {
            &&& entry_decls(model).len() == 2
            &&& entry_decls(model)[1] is Impl
            &&& entry_decls(model)[1]->Impl_0.fns.len() == 1
            &&& entry_decls(model)[1]->Impl_0.fns[0].body == seq![
                "app"@,
                suffix_chunks(model).flatten(),
                ";"@,
            ]
        },
{
    assert(main_decl(suffix_text(model)).body =~= seq![
        "App::new()"@ + suffix_text(model) + ".run();"@,
    ]);
    assert(build_decl(suffix_text(model)).body =~= seq!["app"@, suffix_text(model), ";"@]);
}

/// The struct of a component: it derives `Component` and has the component's fields.
pub open spec fn component_decl(component: ComponentView) -> StructDecl {
    StructDecl {
        name: component.name,
        vis: None,
        derives: seq!["Component"@],
        fields: component.content,
    }
}

/// The function of a system. Its body is the system's text, as one piece.
pub open spec fn system_decl(system: SystemView) -> FnDecl {
    FnDecl {
        name: system.name,
        vis: Some(system.visibility),
        attrs: system.attributes,
        receiver: None,
        args: system.param,
        body: seq![system.content],
    }
}

/// What the source file imports by itself: an example imports the plugin that it shows.
pub open spec fn model_imports(model: ModelView) -> Seq<(Seq<char>, Seq<char>)> {
    if model.meta.bevy_type is Example {
        seq![("bevy_test"@, "BevyTest"@)]
    } else {
        Seq::empty()
    }
}

/// The items of the source file: the entry, the components, the startup systems, the
/// systems.
pub open spec fn model_decls(model: ModelView) -> Seq<Decl> {
    entry_decls(model) + model.components.map_values(
        |c: ComponentView| Decl::Struct(component_decl(c)),
    ) + model.startup_systems.map_values(|s: SystemView| Decl::Function(system_decl(s)))
        + model.systems.map_values(|s: SystemView| Decl::Function(system_decl(s)))
}

/// All that the scope of a model holds.
pub open spec fn model_scope(model: ModelView) -> ScopeModel {
    ScopeModel { imports: model_imports(model), items: model_decls(model) }
}

/// The examples of a model leave no trace in its own source file.
pub proof fn examples_do_not_show(model: ModelView, examples: Seq<ModelView>)
    ensures
        model_scope(ModelView { examples, ..model }) == model_scope(model),
{
    let other = ModelView { examples, ..model };
    assert(suffix_chunks(other) == suffix_chunks(model));
}

/// Adds the `main` function of an app to the scope.
fn create_app(scope: &mut Scope, content: &str)
    requires
        scope_model(*old(scope)) is Some,
    ensures
        scope_model(*final(scope)) == Some(
            scope_model(*old(scope))->0.with_item(Decl::Function(main_decl(content@))),
        ),
{
    let mut line = String::from_str("App::new()");
    line.append(content);
    line.append(".run();");
    let mut main = function_new("main");
    function_line(&mut main, line.as_str());
    scope_push_fn(scope, main);
}

/// Adds the two items of a plugin to the scope.
fn create_plugin(scope: &mut Scope, name: &str, is_group: bool, content: &str)
    requires
        scope_model(*old(scope)) is Some,
    ensures
        scope_model(*final(scope)) == Some(
            ScopeModel {
                items: scope_model(*old(scope))->0.items + plugin_decls(name@, is_group, content@),
                ..scope_model(*old(scope))->0
            },
        ),
{
    let mut plugin = struct_new(name);
    struct_vis(&mut plugin, "pub");
    scope_push_struct(scope, plugin);
    let mut block = impl_new(name);
    if is_group {
        impl_trait(&mut block, "Plugins");
    } else {
        impl_trait(&mut block, "Plugin");
    }
    let mut build = function_new("build");
    function_arg_ref_self(&mut build);
    function_arg(&mut build, "app", "&mut App");
    function_line(&mut build, "app");
    function_line(&mut build, content);
    function_line(&mut build, ";");
    impl_push_fn(&mut block, build);
    scope_push_impl(scope, block);
    assert(scope_model(*scope)->0.items =~= scope_model(*old(scope))->0.items + plugin_decls(
        name@,
        is_group,
        content@,
    ));
}

/// Adds the function of a system to the scope.
fn create_query(scope: &mut Scope, system: &System)
    requires
        scope_model(*old(scope)) is Some,
    ensures
        scope_model(*final(scope)) == Some(
            scope_model(*old(scope))->0.with_item(Decl::Function(system_decl(system@))),
        ),
{
    let mut function = function_new(system.name.as_str());
    assert(system@.param.take(0) =~= Seq::empty());
    let mut i: usize = 0;
    while i < system.param.len()
        invariant
            i <= system.param.len(),
            fn_decl(function) == Some(
                FnDecl { args: system@.param.take(i as int), ..FnDecl::named(system@.name) },
            ),
        decreases system.param.len() - i,
    {
        let param = &system.param[i];
        function_arg(&mut function, param.0.as_str(), param.1.as_str());
        assert(system@.param.take(i + 1) =~= system@.param.take(i as int).push(system@.param[i as int]));
        i += 1;
    }
    assert(system@.param.take(i as int) =~= system@.param);
    function_vis(&mut function, system.visibility.as_str());
    assert(system@.attributes.take(0) =~= Seq::empty());
    i = 0;
    while i < system.attributes.len()
        invariant
            i <= system.attributes.len(),
            fn_decl(function) == Some(
                FnDecl {
                    args: system@.param,
                    vis: Some(system@.visibility),
                    attrs: system@.attributes.take(i as int),
                    ..FnDecl::named(system@.name)
                },
            ),
        decreases system.attributes.len() - i,
    {
        function_attr(&mut function, system.attributes[i].as_str());
        assert(system@.attributes.take(i + 1) =~= system@.attributes.take(i as int).push(
            system@.attributes[i as int],
        ));
        i += 1;
    }
    assert(system@.attributes.take(i as int) =~= system@.attributes);
    function_line(&mut function, system.content.as_str());
    assert(fn_decl(function)->0.body =~= seq![system@.content]);
    scope_push_fn(scope, function);
}

/// Adds the struct of a component to the scope.
fn create_component(scope: &mut Scope, component: &Component)
    requires
        scope_model(*old(scope)) is Some,
    ensures
        scope_model(*final(scope)) == Some(
            scope_model(*old(scope))->0.with_item(Decl::Struct(component_decl(component@))),
        ),
{
    let mut item = struct_new(component.name.as_str());
    struct_derive(&mut item, "Component");
    assert(struct_decl(item)->0.derives =~= seq!["Component"@]);
    assert(component@.content.take(0) =~= Seq::empty());
    let mut i: usize = 0;
    while i < component.content.len()
        invariant
            i <= component.content.len(),
            struct_decl(item) == Some(
                StructDecl {
                    fields: component@.content.take(i as int),
                    ..component_decl(component@)
                },
            ),
        decreases component.content.len() - i,
    {
        let field = &component.content[i];
        struct_field(&mut item, field.0.as_str(), field.1.as_str());
        assert(component@.content.take(i + 1) =~= component@.content.take(i as int).push(
            component@.content[i as int],
        ));
        i += 1;
    }
    assert(component@.content.take(i as int) =~= component@.content);
    scope_push_struct(scope, item);
}

impl BevyModel {
    /// The declarations of the model's source file: the entry, then one struct for each
    /// component, then one function for each startup system and each system. An example
    /// imports the plugin that it shows. The examples of the model are not part of it:
    /// each is generated by itself.
    pub fn generate(&self) -> (scope: Scope)
        ensures
            scope_model(scope) == Some(model_scope(self@)),
    {
        let mut scope = scope_new();
        if let BevyType::Example = self.meta.bevy_type {
            proof {
                reveal_strlit("BevyTest");
                assert(!has_path_separator("BevyTest"@));
            }
            scope_import(&mut scope, "bevy_test", "BevyTest");
        }
        assert(scope_model(scope)->0.imports =~= model_imports(self@));
        let chain = suffix_chain(self);
        match &self.meta.bevy_type {
            BevyType::Plugin(name) => create_plugin(
                &mut scope,
                name.as_str(),
                false,
                chain.as_str(),
            ),
            BevyType::PluginGroup(name) => create_plugin(
                &mut scope,
                name.as_str(),
                true,
                chain.as_str(),
            ),
            _ => create_app(&mut scope, chain.as_str()),
        }
        assert(scope_model(scope)->0.items =~= entry_decls(self@));
        let ghost component_item = |c: ComponentView| Decl::Struct(component_decl(c));
        let ghost system_item = |s: SystemView| Decl::Function(system_decl(s));
        let mut i: usize = 0;
        while i < self.components.len()
            invariant
                i <= self.components.len(),
                component_item == |c: ComponentView| Decl::Struct(component_decl(c)),
                scope_model(scope) == Some(
                    ScopeModel {
                        imports: model_imports(self@),
                        items: entry_decls(self@) + self@.components.take(i as int).map_values(
                            component_item,
                        ),
                    },
                ),
            decreases self.components.len() - i,
        {
            create_component(&mut scope, &self.components[i]);
            assert(scope_model(scope)->0.items =~= entry_decls(self@) + self@.components.take(
                i + 1,
            ).map_values(component_item));
            i += 1;
        }
        assert(self@.components.take(i as int) =~= self@.components);
        let ghost after_components = scope_model(scope)->0.items;
        i = 0;
        while i < self.startup_systems.len()
            invariant
                i <= self.startup_systems.len(),
                system_item == |s: SystemView| Decl::Function(system_decl(s)),
                scope_model(scope) == Some(
                    ScopeModel {
                        imports: model_imports(self@),
                        items: after_components + self@.startup_systems.take(i as int).map_values(
                            system_item,
                        ),
                    },
                ),
            decreases self.startup_systems.len() - i,
        {
            create_query(&mut scope, &self.startup_systems[i]);
            assert(scope_model(scope)->0.items =~= after_components
                + self@.startup_systems.take(i + 1).map_values(system_item));
            i += 1;
        }
        assert(self@.startup_systems.take(i as int) =~= self@.startup_systems);
        let ghost after_startup = scope_model(scope)->0.items;
        i = 0;
        while i < self.systems.len()
            invariant
                i <= self.systems.len(),
                system_item == |s: SystemView| Decl::Function(system_decl(s)),
                scope_model(scope) == Some(
                    ScopeModel {
                        imports: model_imports(self@),
                        items: after_startup + self@.systems.take(i as int).map_values(
                            system_item,
                        ),
                    },
                ),
            decreases self.systems.len() - i,
        {
            create_query(&mut scope, &self.systems[i]);
            assert(scope_model(scope)->0.items =~= after_startup + self@.systems.take(
                i + 1,
            ).map_values(system_item));
            i += 1;
        }
        assert(self@.systems.take(i as int) =~= self@.systems);
        assert(scope_model(scope)->0.items =~= model_decls(self@));
        scope
    }
}

} // verus!
