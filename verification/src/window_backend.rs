//! The interface that a host expects of a plugin of the window category.

use vstd::prelude::*;

verus! {

/// Used for backend agnostic window creation.
///
/// Window backend plugins implement this trait. The registry only finds such
/// plugins; a host binds a found plugin to this interface, with the
/// configuration and state types of its own window system.
pub trait WindowBackend {
    /// The host's window configuration.
    type Config;

    /// The host's description of a window's state.
    type State;

    /// Initializes the window.
    fn init(&mut self, config: &Self::Config);

    /// Gets the title of the window.
    fn get_title(&mut self) -> String;

    /// Sets the title of the window.
    fn set_title(&mut self, title: &str);

    /// Gets the current window state.
    fn get_window_state(&self) -> Self::State;

    /// On pre render event.
    fn on_pre_render(&mut self);

    /// On render event.
    fn on_render(&mut self);

    /// On post render event.
    fn on_post_render(&mut self);
}

} // verus!
