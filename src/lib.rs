//! Loading native plugins: an adapter over one shared library that exports a
//! fixed set of C entry points, and an ordered registry of active adapters.

pub mod adapter;
pub mod error;
pub mod registry;

pub use adapter::{NativeAdapter, NativeCall, NativeLibrary, Plugin};
pub use error::{Export, PluginError};
pub use registry::PluginManager;
