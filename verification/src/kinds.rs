//! The two closed enumerations of a plugin record: what a plugin provides and
//! where it stands in its lifecycle.

use vstd::prelude::*;

verus! {

/// The kind of backend that a plugin provides.
#[derive(Copy, Clone, PartialEq, Eq, Debug, Structural)]
pub enum PluginType {
    /// Used by audio backends.
    AudioBackend,
    /// Used by rendering backends.
    RenderBackend,
    /// Used by the window backends.
    WindowBackend,
}

impl PluginType {
    /// The category that a module declares by the number `tag`, if it
    /// declares one of the fixed set: the categories are numbered from zero
    /// in the order of their declaration.
    pub open spec fn of_tag(tag: u8) -> Option<PluginType> {
        if tag == 0 {
            Some(PluginType::AudioBackend)
        } else if tag == 1 {
            Some(PluginType::RenderBackend)
        } else if tag == 2 {
            Some(PluginType::WindowBackend)
        } else {
            None
        }
    }

    /// The number by which a module declares this category.
    pub open spec fn tag_of(self) -> u8 {
        match self {
            PluginType::AudioBackend => 0,
            PluginType::RenderBackend => 1,
            PluginType::WindowBackend => 2,
        }
    }

    /// Reads a category from the number that a module's entry point returned.
    /// A number outside the fixed set names no category.
    pub fn from_tag(tag: u8) -> (kind: Option<PluginType>)
        ensures
            kind == Self::of_tag(tag),
    {
        if tag == 0 {
            Some(PluginType::AudioBackend)
        } else if tag == 1 {
            Some(PluginType::RenderBackend)
        } else if tag == 2 {
            Some(PluginType::WindowBackend)
        } else {
            None
        }
    }

    /// The number by which a module declares this category.
    pub fn tag(self) -> (tag: u8)
        ensures
            tag == self.tag_of(),
    {
        match self {
            PluginType::AudioBackend => 0,
            PluginType::RenderBackend => 1,
            PluginType::WindowBackend => 2,
        }
    }

    /// Every category is read back from its own number, and a number names
    /// at most the category that it belongs to.
    pub proof fn lemma_tag_names_one_category(kind: PluginType, tag: u8)
        ensures
            Self::of_tag(kind.tag_of()) == Some(kind),
            Self::of_tag(tag) == Some(kind) <==> tag == kind.tag_of(),
    {
    }
}

/// The current state of a plugin.
#[derive(Copy, Clone, PartialEq, Eq, Debug, Structural)]
pub enum PluginState {
    /// The plugin is unloaded: the state of every plugin when it is found.
    Unloaded,
    /// The plugin has been marked for loading.
    MarkedForLoad,
    /// The plugin is loaded.
    Loaded,
    /// The plugin is disabled and cannot be used, as after an error.
    Disabled,
}

impl PluginState {
    /// The legal transitions: `Unloaded` to `MarkedForLoad`, `MarkedForLoad`
    /// to `Loaded`, and any state to `Disabled`, which is reached on an
    /// error that cannot be mended. To disable a disabled plugin once more
    /// changes nothing and is allowed.
    pub open spec fn may_become(self, next: PluginState) -> bool {
        ||| self == PluginState::Unloaded && next == PluginState::MarkedForLoad
        ||| self == PluginState::MarkedForLoad && next == PluginState::Loaded
        ||| next == PluginState::Disabled
    }

    /// How far a state is along the lifecycle.
    pub open spec fn rank(self) -> nat {
        match self {
            PluginState::Unloaded => 0,
            PluginState::MarkedForLoad => 1,
            PluginState::Loaded => 2,
            PluginState::Disabled => 3,
        }
    }

    /// Whether a plugin in this state may go over to `next`.
    pub fn can_transition_to(self, next: PluginState) -> (legal: bool)
        ensures
            legal == self.may_become(next),
    {
        match (self, next) {
            (PluginState::Unloaded, PluginState::MarkedForLoad) => true,
            (PluginState::MarkedForLoad, PluginState::Loaded) => true,
            (_, PluginState::Disabled) => true,
            _ => false,
        }
    }

    /// `Disabled` is terminal: nothing but `Disabled` follows it. No
    /// transition leads back: a legal transition to another state moves
    /// strictly forward in the lifecycle, so no state is ever entered twice
    /// and `Unloaded` is never entered again.
    pub proof fn lemma_transitions_move_forward(from: PluginState, to: PluginState)
        requires
            from.may_become(to),
        ensures
            from == PluginState::Disabled ==> to == PluginState::Disabled,
            to != PluginState::Unloaded,
            from != to ==> from.rank() < to.rank(),
    {
    }
}

} // verus!
