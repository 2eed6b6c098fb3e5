use vstd::prelude::*;

pub mod build;
pub mod build_plugin;
pub mod compose;
pub mod composition;
pub mod config;
pub mod harmonizer;
pub mod hybrid;
pub mod hybrid_steps;
pub mod javascript;
pub mod keyed;
pub mod manifest;
pub mod router_bridge;
pub mod text;
pub mod xtask;

verus! {

/// Untyped JSON carried along with a value: the JSON text of an object that
/// holds the fields that are not otherwise known, or the empty text when
/// there are none.
pub type UncaughtJson = String;

} // verus!
