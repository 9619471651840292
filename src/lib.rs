//! A safety-checked recorder of GPU commands.
//!
//! The recorder tracks render-pass and subpass progress, caches the state it
//! has bound so that redundant rebinds are skipped, validates each operation
//! against the resources it names, and appends the resulting raw commands to
//! an in-memory command log.
pub mod command;
pub mod error;
pub mod model;
pub mod recorder;
pub mod resources;
pub mod state_cache;
pub mod theorems;
pub mod validity;

pub use recorder::{AutoCommandBuffer, AutoCommandBufferBuilder};
