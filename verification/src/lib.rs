//! Finds the functions of a parsed program that are UI components or hooks.
//!
//! The pass walks a syntax tree, decides on every function-valued binding from
//! its name and from what it returns, records each component and hook it
//! confirms, and rewrites the arrow functions among the components so that
//! their bodies are blocks.

pub mod ast;
pub mod component;
pub mod config;
pub mod confirmed;
pub mod copies;
pub mod error;
pub mod find_components;
pub mod generic;
pub mod generic_fn;
pub mod names;
pub mod returns_like_component;
pub mod stability;
pub mod traversal;

pub use crate::component::{Component, ComponentSegment, ComponentView, State};
pub use crate::config::{default_skip_components, false_by_default, Config};
pub use crate::find_components::{component_finder, ComponentFinder};

use vstd::prelude::*;

verus! {

/// Where a source file comes from.
#[derive(Debug, Clone, PartialEq, Eq)]
pub enum FileName {
    /// A file on disk, by its path.
    Real(String),
    /// A source without a name.
    Anon,
}

/// The pass for one file: a finder with `config` that has found nothing yet.
/// The name of the file serves diagnostics only and decides nothing.
pub fn react_unforget(_file_name: FileName, config: Config) -> (r: ComponentFinder)
    ensures
        r.config_view() == config,
        r.found() == Seq::<ComponentView>::empty(),
{
    let state: State = State::default();
    component_finder(config, state)
}

} // verus!
