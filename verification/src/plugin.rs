//! The record that the registry keeps of one plugin.

use vstd::prelude::*;

use crate::kinds::{PluginState, PluginType};

verus! {

/// The details of a plugin.
#[derive(Debug)]
pub struct Plugin {
    /// The name of the plugin.
    pub name: String,
    /// The author of the plugin.
    pub author: String,
    /// A brief description of the plugin.
    pub description: String,
    /// The path to the plugin's module file.
    pub path: String,
    /// The type of plugin.
    pub plugin_type: PluginType,
    /// The current state of the plugin.
    pub plugin_state: PluginState,
}

/// What a plugin record says, with each text as a sequence of characters.
pub struct PluginView {
    pub name: Seq<char>,
    pub author: Seq<char>,
    pub description: Seq<char>,
    pub path: Seq<char>,
    pub plugin_type: PluginType,
    pub plugin_state: PluginState,
}

impl PluginView {
    /// Whether two records describe the same plugin: they agree in all but,
    /// perhaps, the state.
    pub open spec fn same_plugin(self, other: PluginView) -> bool {
        &&& self.name == other.name
        &&& self.author == other.author
        &&& self.description == other.description
        &&& self.path == other.path
        &&& self.plugin_type == other.plugin_type
    }

    /// Whether the record is as a scan leaves it where module files end with
    /// `suffix`: in the state `Unloaded`, with a path that ends with the
    /// suffix.
    pub open spec fn is_fresh(self, suffix: Seq<char>) -> bool {
        self.plugin_state == PluginState::Unloaded && suffix.is_suffix_of(self.path)
    }
}

impl View for Plugin {
    type V = PluginView;

    open spec fn view(&self) -> PluginView {
        PluginView {
            name: self.name@,
            author: self.author@,
            description: self.description@,
            path: self.path@,
            plugin_type: self.plugin_type,
            plugin_state: self.plugin_state,
        }
    }
}

impl DeepView for Plugin {
    type V = PluginView;

    open spec fn deep_view(&self) -> PluginView {
        self@
    }
}

impl Clone for Plugin {
    /// A copy of the record, equal to it in every field.
    fn clone(&self) -> (copy: Plugin)
        ensures
            copy == *self,
    {
        Plugin {
            name: self.name.clone(),
            author: self.author.clone(),
            description: self.description.clone(),
            path: self.path.clone(),
            plugin_type: self.plugin_type,
            plugin_state: self.plugin_state,
        }
    }
}

impl Plugin {
    /// Moves the plugin to the state `next` if the lifecycle allows that
    /// step from the state it is in, and says whether it did. Whatever
    /// happens, the record goes on describing the same plugin; where the step
    /// is not allowed, the state stays as it was.
    pub fn transition_to(&mut self, next: PluginState) -> (moved: bool)
        ensures
            moved == old(self).plugin_state.may_become(next),
            final(self).name == old(self).name,
            final(self).author == old(self).author,
            final(self).description == old(self).description,
            final(self).path == old(self).path,
            final(self).plugin_type == old(self).plugin_type,
            final(self).plugin_state == (if moved {
                next
            } else {
                old(self).plugin_state
            }),
    {
        if self.plugin_state.can_transition_to(next) {
            self.plugin_state = next;
            true
        } else {
            false
        }
    }
}

} // verus!
