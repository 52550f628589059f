//! Scaffolds a Bevy project from a declarative model.
//!
//! A [`model::BevyModel`] lists the plugins, components and systems of a project.
//!
//! - [`generate`] turns a model into the declarations of its source file, held by a
//!   `codegen::Scope` whose contents [`ir`] describes;
//! - [`manifest`] writes the text of the cargo manifest;
//! - [`emit`] lists the steps that write the project tree, and [`tree`] proves that the
//!   steps replace an earlier tree as a whole;
//! - [`commands`] lists the cargo invocations that follow;
//! - [`history`] keeps the undoable edits that an editor makes to a model;
//! - [`names`] tells whether the items of a model have names of their own, which the
//!   generator does not ask for;
//! - [`templates`] holds the models that a new project starts from, [`summary`] shows a
//!   model at a glance, and [`text`] joins texts.
//!
//! The library touches neither disk nor processes: it hands out steps, and the program
//! around it performs them.

pub mod commands;
pub mod emit;
pub mod generate;
pub mod history;
pub mod ir;
pub mod manifest;
pub mod model;
pub mod names;
pub mod summary;
pub mod templates;
pub mod text;
pub mod tree;

pub use crate::model::{
    BevyModel, BevyType, Component, Feature, Meta, Plugin, PluginDependency, Settings, System,
};
