//! A bridge that runs a script-defined visitor over a syntax tree: the tree
//! is written out as JSON, handed to an embedded script engine together with
//! a program assembled from a visitor framework and the user's transform, and
//! the JSON that the program yields is read back as the new tree.
//!
//! Whatever goes wrong on the way, the host gets a tree: the one it handed
//! in, together with the failure to report.

pub mod assembler;
pub mod codec;
pub mod config;
pub mod error;
pub mod executor;
pub mod runtime;
pub mod text;

pub use crate::config::{TransformContext, TransformPluginConfig};
pub use crate::error::TransformError;
pub use crate::executor::{process, TransformOutcome};
