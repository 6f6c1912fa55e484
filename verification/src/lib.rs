//! Discovery of loadable plugin modules and a registry of what was found.
//!
//! A host hands the registry what each module file showed when it was opened
//! and asked for its entry points; the registry decides which files become
//! plugin records and answers lookups by name.

pub mod kinds;
pub mod laws;
pub mod manager;
pub mod platform;
pub mod plugin;
pub mod probe;
pub mod registry;
pub mod window_backend;
pub mod wrappers;

pub use kinds::{PluginState, PluginType};
pub use manager::PluginManager;
pub use platform::Platform;
pub use plugin::{Plugin, PluginView};
pub use probe::{EntryPoint, LoadError, Probe, ProbeView};
pub use registry::{found, RegistryView};
pub use window_backend::WindowBackend;
