//! The bridge to the JavaScript query planner: planning results and errors,
//! and the scripts that are handed to the JavaScript runtime.
pub mod api_schema;
pub mod error;
pub mod js;
pub mod planner;
pub mod pool;
pub mod validate;
