//! The project model: plain data that describes one Bevy project.

use vstd::prelude::*;

verus! {

/// A cargo feature of the `bevy` crate.
#[derive(Clone, Copy, Debug, PartialEq, Eq, Structural)]
pub enum Feature {
    Default,
    BevyAudio,
    BevyGilrs,
    BevyWinit,
    Render,
    Png,
    Hdr,
    Vorbis,
    X11,
    FilesystemWatcher,
    TraceChrome,
    TraceTracy,
    Wayland,
    WgpuTrace,
    BevyCiTesting,
    BevySprite,
    Dynamic,
    BevyUi,
    Tga,
    Serialize,
    Mp3,
    BevyCorePipeline,
    Wav,
    Trace,
    SubpixelGlyphAtlas,
    Bmp,
    BevyGltf,
    Dds,
    BevyDynamicPlugin,
    BevyRender,
    BevyText,
    Flac,
    BevyPbr,
    Jpeg,
    BevyDylib,
}

impl Feature {
    /// The name under which cargo knows the feature.
    pub open spec fn tag(self) -> Seq<char> {
        match self {
            Feature::Default => "default"@,
            Feature::BevyAudio => "bevy_audio"@,
            Feature::BevyGilrs => "bevy_gilrs"@,
            Feature::BevyWinit => "bevy_winit"@,
            Feature::Render => "render"@,
            Feature::Png => "png"@,
            Feature::Hdr => "hdr"@,
            Feature::Vorbis => "vorbis"@,
            Feature::X11 => "x11"@,
            Feature::FilesystemWatcher => "filesystem_watcher"@,
            Feature::TraceChrome => "trace_chrome"@,
            Feature::TraceTracy => "trace_tracy"@,
            Feature::Wayland => "wayland"@,
            Feature::WgpuTrace => "wgpu_trace"@,
            Feature::BevyCiTesting => "bevy_ci_testing"@,
            Feature::BevySprite => "bevy_sprite"@,
            Feature::Dynamic => "dynamic"@,
            Feature::BevyUi => "bevy_ui"@,
            Feature::Tga => "tga"@,
            Feature::Serialize => "serialize"@,
            Feature::Mp3 => "mp3"@,
            Feature::BevyCorePipeline => "bevy_core_pipeline"@,
            Feature::Wav => "wav"@,
            Feature::Trace => "trace"@,
            Feature::SubpixelGlyphAtlas => "subpixel_glyph_atlas"@,
            Feature::Bmp => "bmp"@,
            Feature::BevyGltf => "bevy_gltf"@,
            Feature::Dds => "dds"@,
            Feature::BevyDynamicPlugin => "bevy_dynamic_plugin"@,
            Feature::BevyRender => "bevy_render"@,
            Feature::BevyText => "bevy_text"@,
            Feature::Flac => "flac"@,
            Feature::BevyPbr => "bevy_pbr"@,
            Feature::Jpeg => "jpeg"@,
            Feature::BevyDylib => "bevy_dylib"@,
        }
    }

    pub fn to_feature(&self) -> (tag: &'static str)
        ensures
            tag@ == self.tag(),
    {
        match self {
            Feature::Default => "default",
            Feature::BevyAudio => "bevy_audio",
            Feature::BevyGilrs => "bevy_gilrs",
            Feature::BevyWinit => "bevy_winit",
            Feature::Render => "render",
            Feature::Png => "png",
            Feature::Hdr => "hdr",
            Feature::Vorbis => "vorbis",
            Feature::X11 => "x11",
            Feature::FilesystemWatcher => "filesystem_watcher",
            Feature::TraceChrome => "trace_chrome",
            Feature::TraceTracy => "trace_tracy",
            Feature::Wayland => "wayland",
            Feature::WgpuTrace => "wgpu_trace",
            Feature::BevyCiTesting => "bevy_ci_testing",
            Feature::BevySprite => "bevy_sprite",
            Feature::Dynamic => "dynamic",
            Feature::BevyUi => "bevy_ui",
            Feature::Tga => "tga",
            Feature::Serialize => "serialize",
            Feature::Mp3 => "mp3",
            Feature::BevyCorePipeline => "bevy_core_pipeline",
            Feature::Wav => "wav",
            Feature::Trace => "trace",
            Feature::SubpixelGlyphAtlas => "subpixel_glyph_atlas",
            Feature::Bmp => "bmp",
            Feature::BevyGltf => "bevy_gltf",
            Feature::Dds => "dds",
            Feature::BevyDynamicPlugin => "bevy_dynamic_plugin",
            Feature::BevyRender => "bevy_render",
            Feature::BevyText => "bevy_text",
            Feature::Flac => "flac",
            Feature::BevyPbr => "bevy_pbr",
            Feature::Jpeg => "jpeg",
            Feature::BevyDylib => "bevy_dylib",
        }
    }
}

/// A copy of a list of strings.
pub fn clone_strings(list: &Vec<String>) -> (copy: Vec<String>)
    ensures
        copy.deep_view() == list.deep_view(),
{
    let mut copy: Vec<String> = Vec::new();
    let mut i: usize = 0;
    while i < list.len()
        invariant
            i <= list.len(),
            copy@.len() == i,
            forall|k: int| 0 <= k < i ==> copy@[k]@ == list@[k]@,
        decreases list.len() - i,
    {
        copy.push(list[i].clone());
        i += 1;
    }
    assert(copy.deep_view() =~= list.deep_view());
    copy
}

/// A copy of a list of pairs of strings.
pub fn clone_pairs(list: &Vec<(String, String)>) -> (copy: Vec<(String, String)>)
    ensures
        copy.deep_view() == list.deep_view(),
{
    let mut copy: Vec<(String, String)> = Vec::new();
    let mut i: usize = 0;
    while i < list.len()
        invariant
            i <= list.len(),
            copy@.len() == i,
            forall|k: int| 0 <= k < i ==> copy@[k].deep_view() == list@[k].deep_view(),
        decreases list.len() - i,
    {
        let pair = &list[i];
        copy.push((pair.0.clone(), pair.1.clone()));
        i += 1;
    }
    assert(copy.deep_view() =~= list.deep_view());
    copy
}

/// The features of `bevy` that the generated manifest selects.
#[derive(Debug)]
pub struct Settings {
    pub features: Vec<Feature>,
    pub dev_features: Vec<Feature>,
}

pub struct SettingsView {
    pub features: Seq<Feature>,
    pub dev_features: Seq<Feature>,
}

impl View for Settings {
    type V = SettingsView;

    open spec fn view(&self) -> SettingsView {
        SettingsView { features: self.features@, dev_features: self.dev_features@ }
    }
}

impl Clone for Settings {
    fn clone(&self) -> (copy: Settings)
        ensures
            copy@ == self@,
    {
        let copy =
            Settings { features: self.features.clone(), dev_features: self.dev_features.clone() };
        assert(copy.features@ =~= self.features@);
        assert(copy.dev_features@ =~= self.dev_features@);
        copy
    }
}

impl Default for Settings {
    fn default() -> (settings: Settings)
        ensures
            settings@ == SettingsView::empty(),
            settings.features@.len() == 0,
            settings.dev_features@.len() == 0,
    {
        Settings { features: Vec::new(), dev_features: Vec::new() }
    }
}

impl SettingsView {
    pub open spec fn empty() -> SettingsView {
        SettingsView { features: Seq::empty(), dev_features: Seq::empty() }
    }
}

/// What kind of crate the project is. A plugin and a plugin group carry the name of the
/// type that the generated library declares.
#[derive(Debug)]
pub enum BevyType {
    App,
    Plugin(String),
    PluginGroup(String),
    Example,
}

pub enum BevyTypeView {
    App,
    Plugin(Seq<char>),
    PluginGroup(Seq<char>),
    Example,
}

impl View for BevyType {
    type V = BevyTypeView;

    open spec fn view(&self) -> BevyTypeView {
        match self {
            BevyType::App => BevyTypeView::App,
            BevyType::Plugin(name) => BevyTypeView::Plugin(name@),
            BevyType::PluginGroup(name) => BevyTypeView::PluginGroup(name@),
            BevyType::Example => BevyTypeView::Example,
        }
    }
}

impl Clone for BevyType {
    fn clone(&self) -> (copy: BevyType)
        ensures
            copy@ == self@,
    {
        match self {
            BevyType::App => BevyType::App,
            BevyType::Plugin(name) => BevyType::Plugin(name.clone()),
            BevyType::PluginGroup(name) => BevyType::PluginGroup(name.clone()),
            BevyType::Example => BevyType::Example,
        }
    }
}

impl PartialEq for BevyType {
    fn eq(&self, other: &BevyType) -> (equal: bool) {
        match (self, other) {
            (BevyType::App, BevyType::App) => true,
            (BevyType::Plugin(a), BevyType::Plugin(b)) => *a == *b,
            (BevyType::PluginGroup(a), BevyType::PluginGroup(b)) => *a == *b,
            (BevyType::Example, BevyType::Example) => true,
            _ => false,
        }
    }
}

impl Eq for BevyType {

}

impl vstd::std_specs::cmp::PartialEqSpecImpl for BevyType {
    open spec fn obeys_eq_spec() -> bool {
        true
    }

    open spec fn eq_spec(&self, other: &BevyType) -> bool {
        self@ == other@
    }
}

/// Name and kind of a project. The name is also the directory that the project is
/// written to.
#[derive(Debug)]
pub struct Meta {
    pub name: String,
    pub bevy_type: BevyType,
}

pub struct MetaView {
    pub name: Seq<char>,
    pub bevy_type: BevyTypeView,
}

impl View for Meta {
    type V = MetaView;

    open spec fn view(&self) -> MetaView {
        MetaView { name: self.name@, bevy_type: self.bevy_type@ }
    }
}

impl Clone for Meta {
    fn clone(&self) -> (copy: Meta)
        ensures
            copy@ == self@,
    {
        Meta { name: self.name.clone(), bevy_type: self.bevy_type.clone() }
    }
}

impl MetaView {
    pub open spec fn initial() -> MetaView {
        MetaView { name: "bevy_default_meta"@, bevy_type: BevyTypeView::App }
    }
}

/// Whether the name can be the name of one directory or file: it is not empty, it is
/// neither `.` nor `..`, and it holds no slash, no backslash and no NUL.
pub open spec fn is_safe_name(name: Seq<char>) -> bool {
    &&& name.len() > 0
    &&& !(name.len() == 1 && name[0] == '.')
    &&& !(name.len() == 2 && name[0] == '.' && name[1] == '.')
    &&& forall|i: int|
        0 <= i < name.len() ==> (#[trigger] name[i]) != '/' && name[i] != '\\' && name[i] != '\0'
}

impl Meta {
    /// Whether the name of the project can be the name of its directory.
    pub fn has_safe_name(&self) -> (safe: bool)
        ensures
            safe == is_safe_name(self.name@),
    {
        let name = self.name.as_str();
        let len = name.unicode_len();
        if len == 0 {
            return false;
        }
        if len == 1 && name.get_char(0) == '.' {
            return false;
        }
        if len == 2 && name.get_char(0) == '.' && name.get_char(1) == '.' {
            return false;
        }
        let mut i: usize = 0;
        while i < len
            invariant
                i <= len,
                len == name@.len(),
                name@ == self.name@,
                forall|k: int|
                    0 <= k < i ==> (#[trigger] name@[k]) != '/' && name@[k] != '\\' && name@[k]
                        != '\0',
            decreases len - i,
        {
            let c = name.get_char(i);
            if c == '/' || c == '\\' || c == '\0' {
                assert(name@[i as int] == c);
                return false;
            }
            i += 1;
        }
        true
    }
}

impl Default for Meta {
    fn default() -> (meta: Meta)
        ensures
            meta@ == MetaView::initial(),
    {
        Meta { name: String::from_str("bevy_default_meta"), bevy_type: BevyType::App }
    }
}

/// A system: a function of the generated crate. Its body is text that is copied as it
/// is, never read.
#[derive(Debug)]
pub struct System {
    pub name: String,
    pub param: Vec<(String, String)>,
    pub content: String,
    pub visibility: String,
    pub attributes: Vec<String>,
}

pub struct SystemView {
    pub name: Seq<char>,
    pub param: Seq<(Seq<char>, Seq<char>)>,
    pub content: Seq<char>,
    pub visibility: Seq<char>,
    pub attributes: Seq<Seq<char>>,
}

impl View for System {
    type V = SystemView;

    open spec fn view(&self) -> SystemView {
        SystemView {
            name: self.name@,
            param: self.param.deep_view(),
            content: self.content@,
            visibility: self.visibility@,
            attributes: self.attributes.deep_view(),
        }
    }
}

impl DeepView for System {
    type V = SystemView;

    open spec fn deep_view(&self) -> SystemView {
        self@
    }
}

impl Clone for System {
    fn clone(&self) -> (copy: System)
        ensures
            copy@ == self@,
    {
        System {
            name: self.name.clone(),
            param: clone_pairs(&self.param),
            content: self.content.clone(),
            visibility: self.visibility.clone(),
            attributes: clone_strings(&self.attributes),
        }
    }
}

/// A component: a struct of the generated crate, with its fields as pairs of name and
/// type.
#[derive(Debug)]
pub struct Component {
    pub name: String,
    pub content: Vec<(String, String)>,
}

pub struct ComponentView {
    pub name: Seq<char>,
    pub content: Seq<(Seq<char>, Seq<char>)>,
}

impl View for Component {
    type V = ComponentView;

    open spec fn view(&self) -> ComponentView {
        ComponentView { name: self.name@, content: self.content.deep_view() }
    }
}

impl DeepView for Component {
    type V = ComponentView;

    open spec fn deep_view(&self) -> ComponentView {
        self@
    }
}

impl Clone for Component {
    fn clone(&self) -> (copy: Component)
        ensures
            copy@ == self@,
    {
        Component { name: self.name.clone(), content: clone_pairs(&self.content) }
    }
}

/// A crate that a plugin comes from. The version is either a plain version or, where it
/// starts with a brace, a whole inline table of the manifest.
#[derive(Debug)]
pub struct PluginDependency {
    pub crate_name: String,
    pub crate_version: String,
    pub crate_paths: Vec<String>,
}

pub struct PluginDependencyView {
    pub crate_name: Seq<char>,
    pub crate_version: Seq<char>,
    pub crate_paths: Seq<Seq<char>>,
}

impl View for PluginDependency {
    type V = PluginDependencyView;

    open spec fn view(&self) -> PluginDependencyView {
        PluginDependencyView {
            crate_name: self.crate_name@,
            crate_version: self.crate_version@,
            crate_paths: self.crate_paths.deep_view(),
        }
    }
}

impl DeepView for PluginDependency {
    type V = PluginDependencyView;

    open spec fn deep_view(&self) -> PluginDependencyView {
        self@
    }
}

impl Clone for PluginDependency {
    fn clone(&self) -> (copy: PluginDependency)
        ensures
            copy@ == self@,
    {
        PluginDependency {
            crate_name: self.crate_name.clone(),
            crate_version: self.crate_version.clone(),
            crate_paths: clone_strings(&self.crate_paths),
        }
    }
}

/// A plugin, or a group of plugins, that the project adds to its app.
#[derive(Debug)]
pub struct Plugin {
    pub name: String,
    pub is_group: bool,
    pub dependencies: Vec<PluginDependency>,
}

pub struct PluginView {
    pub name: Seq<char>,
    pub is_group: bool,
    pub dependencies: Seq<PluginDependencyView>,
}

impl View for Plugin {
    type V = PluginView;

    open spec fn view(&self) -> PluginView {
        PluginView {
            name: self.name@,
            is_group: self.is_group,
            dependencies: self.dependencies.deep_view(),
        }
    }
}

impl DeepView for Plugin {
    type V = PluginView;

    open spec fn deep_view(&self) -> PluginView {
        self@
    }
}

impl Clone for Plugin {
    fn clone(&self) -> (copy: Plugin)
        ensures
            copy@ == self@,
    {
        let mut dependencies: Vec<PluginDependency> = Vec::new();
        let mut i: usize = 0;
        while i < self.dependencies.len()
            invariant
                i <= self.dependencies.len(),
                dependencies@.len() == i,
                forall|k: int| 0 <= k < i ==> dependencies@[k]@ == self.dependencies@[k]@,
            decreases self.dependencies.len() - i,
        {
            dependencies.push(self.dependencies[i].clone());
            i += 1;
        }
        assert(dependencies.deep_view() =~= self.dependencies.deep_view());
        Plugin { name: self.name.clone(), is_group: self.is_group, dependencies }
    }
}

/// A whole project. The examples are projects of their own, each generated by itself.
#[derive(Debug)]
pub struct BevyModel {
    pub plugins: Vec<Plugin>,
    pub components: Vec<Component>,
    pub startup_systems: Vec<System>,
    pub systems: Vec<System>,
    pub bevy_settings: Settings,
    pub meta: Meta,
    pub examples: Vec<BevyModel>,
}

pub struct ModelView {
    pub plugins: Seq<PluginView>,
    pub components: Seq<ComponentView>,
    pub startup_systems: Seq<SystemView>,
    pub systems: Seq<SystemView>,
    pub bevy_settings: SettingsView,
    pub meta: MetaView,
    pub examples: Seq<ModelView>,
}

/// The model as mathematical data, its examples included.
pub open spec fn model_view(model: BevyModel) -> ModelView
    decreases model,
{
    ModelView {
        plugins: model.plugins.deep_view(),
        components: model.components.deep_view(),
        startup_systems: model.startup_systems.deep_view(),
        systems: model.systems.deep_view(),
        bevy_settings: model.bevy_settings@,
        meta: model.meta@,
        examples: Seq::new(
            model.examples@.len(),
            |i: int|
                if 0 <= i < model.examples@.len() {
                    model_view(model.examples@[i])
                } else {
                    arbitrary()
                },
        ),
    }
}

impl View for BevyModel {
    type V = ModelView;

    open spec fn view(&self) -> ModelView {
        model_view(*self)
    }
}

impl DeepView for BevyModel {
    type V = ModelView;

    open spec fn deep_view(&self) -> ModelView {
        self@
    }
}

impl ModelView {
    /// The model with nothing in it, under the initial name.
    pub open spec fn empty() -> ModelView {
        ModelView {
            plugins: Seq::empty(),
            components: Seq::empty(),
            startup_systems: Seq::empty(),
            systems: Seq::empty(),
            bevy_settings: SettingsView::empty(),
            meta: MetaView::initial(),
            examples: Seq::empty(),
        }
    }
}

/// A copy of a list of systems.
fn clone_systems(list: &Vec<System>) -> (copy: Vec<System>)
    ensures
        copy.deep_view() == list.deep_view(),
{
    let mut copy: Vec<System> = Vec::new();
    let mut i: usize = 0;
    while i < list.len()
        invariant
            i <= list.len(),
            copy@.len() == i,
            forall|k: int| 0 <= k < i ==> copy@[k]@ == list@[k]@,
        decreases list.len() - i,
    {
        copy.push(list[i].clone());
        i += 1;
    }
    assert(copy.deep_view() =~= list.deep_view());
    copy
}

/// A copy of a list of components.
fn clone_components(list: &Vec<Component>) -> (copy: Vec<Component>)
    ensures
        copy.deep_view() == list.deep_view(),
{
    let mut copy: Vec<Component> = Vec::new();
    let mut i: usize = 0;
    while i < list.len()
        invariant
            i <= list.len(),
            copy@.len() == i,
            forall|k: int| 0 <= k < i ==> copy@[k]@ == list@[k]@,
        decreases list.len() - i,
    {
        copy.push(list[i].clone());
        i += 1;
    }
    assert(copy.deep_view() =~= list.deep_view());
    copy
}

/// A copy of a list of plugins.
fn clone_plugins(list: &Vec<Plugin>) -> (copy: Vec<Plugin>)
    ensures
        copy.deep_view() == list.deep_view(),
{
    let mut copy: Vec<Plugin> = Vec::new();
    let mut i: usize = 0;
    while i < list.len()
        invariant
            i <= list.len(),
            copy@.len() == i,
            forall|k: int| 0 <= k < i ==> copy@[k]@ == list@[k]@,
        decreases list.len() - i,
    {
        copy.push(list[i].clone());
        i += 1;
    }
    assert(copy.deep_view() =~= list.deep_view());
    copy
}

impl Clone for BevyModel {
    fn clone(&self) -> (copy: BevyModel)
        ensures
            copy@ == self@,
        decreases self,
    {
        let mut examples: Vec<BevyModel> = Vec::new();
        let mut i: usize = 0;
        while i < self.examples.len()
            invariant
                i <= self.examples.len(),
                examples@.len() == i,
                forall|k: int| 0 <= k < i ==> examples@[k]@ == self.examples@[k]@,
            decreases self.examples.len() - i,
        {
            examples.push(self.examples[i].clone());
            i += 1;
        }
        let copy = BevyModel {
            plugins: clone_plugins(&self.plugins),
            components: clone_components(&self.components),
            startup_systems: clone_systems(&self.startup_systems),
            systems: clone_systems(&self.systems),
            bevy_settings: self.bevy_settings.clone(),
            meta: self.meta.clone(),
            examples,
        };
        assert(copy@.examples =~= self@.examples);
        copy
    }
}

impl ModelView {
    /// Whether the model and its examples have names that can be the names of their
    /// directory and files.
    pub open spec fn has_safe_names(self) -> bool {
        &&& is_safe_name(self.meta.name)
        &&& forall|i: int|
            0 <= i < self.examples.len() ==> is_safe_name((#[trigger] self.examples[i]).meta.name)
    }
}

impl BevyModel {
    /// Whether the model and its examples have names that can be the names of their
    /// directory and files.
    pub fn has_safe_names(&self) -> (safe: bool)
        ensures
            safe == self@.has_safe_names(),
    {
        if !self.meta.has_safe_name() {
            return false;
        }
        let mut i: usize = 0;
        while i < self.examples.len()
            invariant
                i <= self.examples.len(),
                is_safe_name(self@.meta.name),
                forall|k: int|
                    0 <= k < i ==> is_safe_name((#[trigger] self@.examples[k]).meta.name),
            decreases self.examples.len() - i,
        {
            assert(self@.examples[i as int] == self.examples@[i as int]@);
            if !self.examples[i].meta.has_safe_name() {
                return false;
            }
            i += 1;
        }
        true
    }
}

impl Default for BevyModel {
    fn default() -> (model: BevyModel)
        ensures
            model@ == ModelView::empty(),
            model.plugins@.len() == 0,
            model.components@.len() == 0,
            model.startup_systems@.len() == 0,
            model.systems@.len() == 0,
            model.examples@.len() == 0,
            model.bevy_settings.features@.len() == 0,
            model.bevy_settings.dev_features@.len() == 0,
    {
        let model = BevyModel {
            plugins: Vec::new(),
            components: Vec::new(),
            startup_systems: Vec::new(),
            systems: Vec::new(),
            bevy_settings: Settings::default(),
            meta: Meta::default(),
            examples: Vec::new(),
        };
        assert(model@.plugins =~= Seq::empty());
        assert(model@.components =~= Seq::empty());
        assert(model@.startup_systems =~= Seq::empty());
        assert(model@.systems =~= Seq::empty());
        assert(model@.examples =~= Seq::empty());
        model
    }
}

} // verus!
