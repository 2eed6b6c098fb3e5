//! Types shared between build plugins and the tools that run them.
pub mod build_message;
pub mod plugin_result;

pub use build_message::{BuildMessage, BuildMessageLevel, BuildMessageLocation, BuildMessagePoint};
pub use plugin_result::{PluginFailureReason, PluginResult};
