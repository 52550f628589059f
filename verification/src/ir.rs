//! Declarations of generated source, as the `codegen` crate holds them.
//!
//! The generator builds a `codegen::Scope` out of `codegen::Struct`, `codegen::Function`
//! and `codegen::Impl` values. Verus cannot look into these, so each of them gets a
//! mathematical picture here ([`StructDecl`], [`FnDecl`], [`ImplDecl`], [`ScopeModel`]),
//! and each call into the crate gets a small function whose contract says, over these
//! pictures, what the crate's source does. These contracts are believed, not proved.

use codegen::{Function, Impl, Scope, Struct};
use vstd::prelude::*;

verus! {

/// `codegen::Function`: a function declaration in the making.
#[verifier::external_type_specification]
#[verifier::external_body]
pub struct ExFunction(codegen::Function);

/// `codegen::Struct`: a struct declaration in the making.
#[verifier::external_type_specification]
#[verifier::external_body]
pub struct ExStruct(codegen::Struct);

/// `codegen::Impl`: an `impl` block in the making.
#[verifier::external_type_specification]
#[verifier::external_body]
pub struct ExImpl(codegen::Impl);

/// `codegen::Scope`: the imports and items of one source file.
#[verifier::external_type_specification]
#[verifier::external_body]
pub struct ExScope(codegen::Scope);

/// A function declaration: what is written between its attributes and its closing brace.
pub struct FnDecl {
    pub name: Seq<char>,
    /// The visibility, where one was set.
    pub vis: Option<Seq<char>>,
    /// The attributes, each without `#[` and `]`.
    pub attrs: Seq<Seq<char>>,
    /// The receiver, where the function has one.
    pub receiver: Option<Seq<char>>,
    /// The other parameters, each as name and type.
    pub args: Seq<(Seq<char>, Seq<char>)>,
    pub body: Seq<Seq<char>>,
}

impl FnDecl {
    pub open spec fn named(name: Seq<char>) -> FnDecl {
        FnDecl {
            name,
            vis: None,
            attrs: Seq::empty(),
            receiver: None,
            args: Seq::empty(),
            body: Seq::empty(),
        }
    }

    pub open spec fn with_vis(self, vis: Seq<char>) -> FnDecl {
        FnDecl { vis: Some(vis), ..self }
    }

    pub open spec fn with_attr(self, attr: Seq<char>) -> FnDecl {
        FnDecl { attrs: self.attrs.push(attr), ..self }
    }

    pub open spec fn with_ref_self(self) -> FnDecl {
        FnDecl { receiver: Some("&self"@), ..self }
    }

    pub open spec fn with_arg(self, name: Seq<char>, ty: Seq<char>) -> FnDecl {
        FnDecl { args: self.args.push((name, ty)), ..self }
    }

    pub open spec fn with_line(self, line: Seq<char>) -> FnDecl {
        FnDecl { body: self.body.push(line), ..self }
    }
}

/// A struct declaration. Without fields it is a unit struct.
pub struct StructDecl {
    pub name: Seq<char>,
    pub vis: Option<Seq<char>>,
    pub derives: Seq<Seq<char>>,
    /// The named fields, each as name and type.
    pub fields: Seq<(Seq<char>, Seq<char>)>,
}

impl StructDecl {
    pub open spec fn named(name: Seq<char>) -> StructDecl {
        StructDecl { name, vis: None, derives: Seq::empty(), fields: Seq::empty() }
    }

    pub open spec fn with_vis(self, vis: Seq<char>) -> StructDecl {
        StructDecl { vis: Some(vis), ..self }
    }

    pub open spec fn with_derive(self, name: Seq<char>) -> StructDecl {
        StructDecl { derives: self.derives.push(name), ..self }
    }

    pub open spec fn with_field(self, name: Seq<char>, ty: Seq<char>) -> StructDecl {
        StructDecl { fields: self.fields.push((name, ty)), ..self }
    }
}

/// An `impl` block.
pub struct ImplDecl {
    pub target: Seq<char>,
    /// The trait that the block implements, where it implements one.
    pub trait_name: Option<Seq<char>>,
    pub fns: Seq<FnDecl>,
}

impl ImplDecl {
    pub open spec fn of(target: Seq<char>) -> ImplDecl {
        ImplDecl { target, trait_name: None, fns: Seq::empty() }
    }

    pub open spec fn with_trait(self, name: Seq<char>) -> ImplDecl {
        ImplDecl { trait_name: Some(name), ..self }
    }

    pub open spec fn with_fn(self, decl: FnDecl) -> ImplDecl {
        ImplDecl { fns: self.fns.push(decl), ..self }
    }
}

/// One item of a scope.
pub enum Decl {
    Struct(StructDecl),
    Function(FnDecl),
    Impl(ImplDecl),
}

/// What a scope holds: its imports, each as path and imported name, and its items, both
/// in the order in which they were added.
pub struct ScopeModel {
    pub imports: Seq<(Seq<char>, Seq<char>)>,
    pub items: Seq<Decl>,
}

impl ScopeModel {
    pub open spec fn empty() -> ScopeModel {
        ScopeModel { imports: Seq::empty(), items: Seq::empty() }
    }

    pub open spec fn with_import(self, path: Seq<char>, name: Seq<char>) -> ScopeModel {
        ScopeModel { imports: self.imports.push((path, name)), ..self }
    }

    pub open spec fn with_item(self, item: Decl) -> ScopeModel {
        ScopeModel { items: self.items.push(item), ..self }
    }
}

/// Whether `::` occurs in the text.
pub open spec fn has_path_separator(text: Seq<char>) -> bool {
    exists|i: int| 0 <= i && i + 1 < text.len() && text[i] == ':' && #[trigger] text[i + 1] == ':'
}

/// What a `codegen::Function` holds, where it is a function that `Function::new` made and
/// that only `vis`, `attr`, `arg_ref_self`, `arg` and `line` changed since; `None` of any
/// other.
pub uninterp spec fn fn_decl(f: Function) -> Option<FnDecl>;

/// What a `codegen::Struct` holds, where it is a struct that `Struct::new` made and that
/// only `vis`, `derive` and `field` changed since; `None` of any other.
pub uninterp spec fn struct_decl(s: Struct) -> Option<StructDecl>;

/// What a `codegen::Impl` holds, where it is a block that `Impl::new` made, that only
/// `impl_trait` and `push_fn` changed since, and whose functions all have an [`fn_decl`];
/// `None` of any other.
pub uninterp spec fn impl_decl(i: Impl) -> Option<ImplDecl>;

/// What a `codegen::Scope` holds, where it is a scope that `Scope::new` made, that only
/// `import`, `push_struct`, `push_fn` and `push_impl` changed since, and whose items all
/// have a declaration as above; `None` of any other.
pub uninterp spec fn scope_model(s: Scope) -> Option<ScopeModel>;

/// The text that `codegen::Scope::to_string` gives for a scope that holds this.
pub uninterp spec fn rendered(scope: ScopeModel) -> Seq<char>;

/// `codegen::Function::new`: a function of that name with an empty body, no parameters,
/// no visibility and no attributes.
#[verifier::external_body]
pub(crate) fn function_new(name: &str) -> (f: Function)
    ensures
        fn_decl(f) == Some(FnDecl::named(name@)),
{
    Function::new(name)
}

/// `codegen::Function::vis` sets the visibility and nothing else.
#[verifier::external_body]
pub(crate) fn function_vis(f: &mut Function, vis: &str)
    requires
        fn_decl(*old(f)) is Some,
    ensures
        fn_decl(*final(f)) == Some(fn_decl(*old(f))->0.with_vis(vis@)),
{
    f.vis(vis);
}

/// `codegen::Function::attr` adds one attribute after those that are there.
#[verifier::external_body]
pub(crate) fn function_attr(f: &mut Function, attribute: &str)
    requires
        fn_decl(*old(f)) is Some,
    ensures
        fn_decl(*final(f)) == Some(fn_decl(*old(f))->0.with_attr(attribute@)),
{
    f.attr(attribute);
}

/// `codegen::Function::arg_ref_self` makes `&self` the receiver.
#[verifier::external_body]
pub(crate) fn function_arg_ref_self(f: &mut Function)
    requires
        fn_decl(*old(f)) is Some,
    ensures
        fn_decl(*final(f)) == Some(fn_decl(*old(f))->0.with_ref_self()),
{
    f.arg_ref_self();
}

/// `codegen::Function::arg` adds one parameter after those that are there.
#[verifier::external_body]
pub(crate) fn function_arg(f: &mut Function, name: &str, ty: &str)
    requires
        fn_decl(*old(f)) is Some,
    ensures
        fn_decl(*final(f)) == Some(fn_decl(*old(f))->0.with_arg(name@, ty@)),
{
    f.arg(name, ty);
}

/// `codegen::Function::line` adds one piece of text to the end of the body.
#[verifier::external_body]
pub(crate) fn function_line(f: &mut Function, line: &str)
    requires
        fn_decl(*old(f)) is Some,
    ensures
        fn_decl(*final(f)) == Some(fn_decl(*old(f))->0.with_line(line@)),
{
    f.line(line);
}

/// `codegen::Struct::new`: a struct of that name with no fields, no visibility and no
/// derives.
#[verifier::external_body]
pub(crate) fn struct_new(name: &str) -> (s: Struct)
    ensures
        struct_decl(s) == Some(StructDecl::named(name@)),
{
    Struct::new(name)
}

/// `codegen::Struct::vis` sets the visibility and nothing else.
#[verifier::external_body]
pub(crate) fn struct_vis(s: &mut Struct, vis: &str)
    requires
        struct_decl(*old(s)) is Some,
    ensures
        struct_decl(*final(s)) == Some(struct_decl(*old(s))->0.with_vis(vis@)),
{
    s.vis(vis);
}

/// `codegen::Struct::derive` adds one derive after those that are there.
#[verifier::external_body]
pub(crate) fn struct_derive(s: &mut Struct, name: &str)
    requires
        struct_decl(*old(s)) is Some,
    ensures
        struct_decl(*final(s)) == Some(struct_decl(*old(s))->0.with_derive(name@)),
{
    s.derive(name);
}

/// `codegen::Struct::field` adds one named field after those that are there. It panics
/// on a struct with tuple fields, which has no [`struct_decl`].
#[verifier::external_body]
pub(crate) fn struct_field(s: &mut Struct, name: &str, ty: &str)
    requires
        struct_decl(*old(s)) is Some,
    ensures
        struct_decl(*final(s)) == Some(struct_decl(*old(s))->0.with_field(name@, ty@)),
{
    s.field(name, ty);
}

/// `codegen::Impl::new`: an empty block for that type, of no trait.
#[verifier::external_body]
pub(crate) fn impl_new(target: &str) -> (i: Impl)
    ensures
        impl_decl(i) == Some(ImplDecl::of(target@)),
{
    Impl::new(target)
}

/// `codegen::Impl::impl_trait` sets the trait that the block implements.
#[verifier::external_body]
pub(crate) fn impl_trait(i: &mut Impl, name: &str)
    requires
        impl_decl(*old(i)) is Some,
    ensures
        impl_decl(*final(i)) == Some(impl_decl(*old(i))->0.with_trait(name@)),
{
    i.impl_trait(name);
}

/// `codegen::Impl::push_fn` adds the function after those that the block holds.
#[verifier::external_body]
pub(crate) fn impl_push_fn(i: &mut Impl, f: Function)
    requires
        impl_decl(*old(i)) is Some,
        fn_decl(f) is Some,
    ensures
        impl_decl(*final(i)) == Some(impl_decl(*old(i))->0.with_fn(fn_decl(f)->0)),
{
    i.push_fn(f);
}

/// `codegen::Scope::new`: a scope without imports and items.
#[verifier::external_body]
pub(crate) fn scope_new() -> (s: Scope)
    ensures
        scope_model(s) == Some(ScopeModel::empty()),
{
    Scope::new()
}

/// `codegen::Scope::import` on a scope that has no import yet: the scope then imports
/// that name from that path. (The crate files a name under its first path segment, and a
/// second import under the path or name of an earlier one: the contract leaves both out.)
#[verifier::external_body]
pub(crate) fn scope_import(s: &mut Scope, path: &str, name: &str)
    requires
        scope_model(*old(s)) is Some,
        scope_model(*old(s))->0.imports.len() == 0,
        !has_path_separator(name@),
    ensures
        scope_model(*final(s)) == Some(scope_model(*old(s))->0.with_import(path@, name@)),
{
    s.import(path, name);
}

/// `codegen::Scope::push_struct` adds the struct after the items that the scope holds.
#[verifier::external_body]
pub(crate) fn scope_push_struct(s: &mut Scope, item: Struct)
    requires
        scope_model(*old(s)) is Some,
        struct_decl(item) is Some,
    ensures
        scope_model(*final(s)) == Some(
            scope_model(*old(s))->0.with_item(Decl::Struct(struct_decl(item)->0)),
        ),
{
    s.push_struct(item);
}

/// `codegen::Scope::push_fn` adds the function after the items that the scope holds.
#[verifier::external_body]
pub(crate) fn scope_push_fn(s: &mut Scope, item: Function)
    requires
        scope_model(*old(s)) is Some,
        fn_decl(item) is Some,
    ensures
        scope_model(*final(s)) == Some(
            scope_model(*old(s))->0.with_item(Decl::Function(fn_decl(item)->0)),
        ),
{
    s.push_fn(item);
}

/// `codegen::Scope::push_impl` adds the block after the items that the scope holds.
#[verifier::external_body]
pub(crate) fn scope_push_impl(s: &mut Scope, item: Impl)
    requires
        scope_model(*old(s)) is Some,
        impl_decl(item) is Some,
    ensures
        scope_model(*final(s)) == Some(
            scope_model(*old(s))->0.with_item(Decl::Impl(impl_decl(item)->0)),
        ),
{
    s.push_impl(item);
}

/// `codegen::Scope::to_string`: the text of the scope, which depends on nothing but what
/// the scope holds. (On a scope without a [`scope_model`] the crate may panic.)
#[verifier::external_body]
pub(crate) fn scope_to_string(s: &Scope) -> (text: String)
    requires
        scope_model(*s) is Some,
    ensures
        text@ == rendered(scope_model(*s)->0),
{
    s.to_string()
}

} // verus!
