use vstd::prelude::*;

verus! {

/// One of the four entry points that every plugin library must export.
#[derive(Clone, Copy, Debug, PartialEq, Eq, Structural)]
pub enum Export {
    /// `name`: returns the plugin's display name as a nul-terminated string.
    Name,
    /// `initialize`: returns the opaque state pointer for this load.
    Initialize,
    /// `on_load`: activates the plugin; zero means success.
    OnLoad,
    /// `on_unload`: deactivates the plugin; zero means success.
    OnUnload,
}

/// Everything that can go wrong while loading, activating or unloading a plugin.
#[derive(Clone, Debug, PartialEq, Eq)]
pub enum PluginError {
    /// The shared library could not be mapped; holds the loader's message.
    LoadFailure(String),
    /// The library does not export the named entry point.
    SymbolResolutionFailure(Export),
    /// The adapter was asked to activate while already active.
    AlreadyActive,
    /// The adapter was asked to deactivate while inactive.
    NotActive,
    /// No registered plugin reports the given name.
    UnknownPlugin(String),
    /// The index does not name a position of the registry.
    IndexOutOfRange,
    /// A native entry point returned this non-zero status code.
    NativeFailure(i32),
}

/// What a native status code means: zero is success, anything else a failure
/// that carries the code.
pub open spec fn status_outcome(code: i32) -> Result<(), PluginError> {
    if code == 0 {
        Ok(())
    } else {
        Err(PluginError::NativeFailure(code))
    }
}

/// Turns the status code of a native entry point into a result.
pub fn status_result(code: i32) -> (r: Result<(), PluginError>)
    ensures
        r == status_outcome(code),
{
    if code == 0 {
        Ok(())
    } else {
        Err(PluginError::NativeFailure(code))
    }
}

} // verus!
