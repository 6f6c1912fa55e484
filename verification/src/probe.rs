//! What a host learns of one module file by opening it and asking for its
//! entry points, and the rule that turns such a finding into a plugin record
//! or a refusal.

use vstd::prelude::*;

use crate::kinds::{PluginState, PluginType};
use crate::plugin::PluginView;

verus! {

/// One of the four entry points that every module must export.
#[derive(Copy, Clone, PartialEq, Eq, Debug, Structural)]
pub enum EntryPoint {
    /// Returns the plugin's name.
    Name,
    /// Returns the plugin's author.
    Author,
    /// Returns a brief description of the plugin.
    Description,
    /// Returns the number of the plugin's category.
    Type,
}

impl EntryPoint {
    /// The symbol by which a module exports this entry point.
    pub open spec fn symbol_text(self) -> Seq<char> {
        match self {
            EntryPoint::Name => "get_name"@,
            EntryPoint::Author => "get_author"@,
            EntryPoint::Description => "get_description"@,
            EntryPoint::Type => "get_type"@,
        }
    }

    /// The symbol by which a module exports this entry point.
    pub fn symbol(self) -> (symbol: &'static str)
        ensures
            symbol@ == self.symbol_text(),
    {
        match self {
            EntryPoint::Name => "get_name",
            EntryPoint::Author => "get_author",
            EntryPoint::Description => "get_description",
            EntryPoint::Type => "get_type",
        }
    }
}

/// Why a file did not become a plugin record.
#[derive(Copy, Clone, PartialEq, Eq, Debug, Structural)]
pub enum LoadError {
    /// The file's name does not end with the platform's module suffix.
    NotAModule,
    /// The file could not be opened as a module.
    OpenFailed,
    /// The module lacks this entry point.
    MissingEntryPoint(EntryPoint),
    /// The module declared a category by a number outside the fixed set.
    UnknownCategory(u8),
}

/// What one file showed: whether it opened as a module, and for each entry
/// point what it returned, or nothing where the module lacks it.
#[derive(Debug)]
pub struct Probe {
    /// The path to the file.
    pub path: String,
    /// Whether the file opened as a module.
    pub opened: bool,
    /// What the entry point for the name returned.
    pub name: Option<String>,
    /// What the entry point for the author returned.
    pub author: Option<String>,
    /// What the entry point for the description returned.
    pub description: Option<String>,
    /// The number that the entry point for the category returned.
    pub type_tag: Option<u8>,
}

/// A probe, with each text as a sequence of characters.
pub struct ProbeView {
    pub path: Seq<char>,
    pub opened: bool,
    pub name: Option<Seq<char>>,
    pub author: Option<Seq<char>>,
    pub description: Option<Seq<char>>,
    pub type_tag: Option<u8>,
}

impl Clone for Probe {
    /// A copy of the probe, equal to it in every field.
    fn clone(&self) -> (copy: Probe)
        ensures
            copy == *self,
    {
        Probe {
            path: self.path.clone(),
            opened: self.opened,
            name: self.name.clone(),
            author: self.author.clone(),
            description: self.description.clone(),
            type_tag: self.type_tag,
        }
    }
}

impl View for Probe {
    type V = ProbeView;

    open spec fn view(&self) -> ProbeView {
        ProbeView {
            path: self.path@,
            opened: self.opened,
            name: self.name.deep_view(),
            author: self.author.deep_view(),
            description: self.description.deep_view(),
            type_tag: self.type_tag,
        }
    }
}

impl DeepView for Probe {
    type V = ProbeView;

    open spec fn deep_view(&self) -> ProbeView {
        self@
    }
}

impl ProbeView {
    /// The first reason, if any, to refuse the file where module files end
    /// with `suffix`. The file's name is looked at first, then whether it
    /// opened, then the entry points in the order name, author, description,
    /// category, and last the number of the category.
    pub open spec fn refusal(self, suffix: Seq<char>) -> Option<LoadError> {
        if !suffix.is_suffix_of(self.path) {
            Some(LoadError::NotAModule)
        } else if !self.opened {
            Some(LoadError::OpenFailed)
        } else if self.name is None {
            Some(LoadError::MissingEntryPoint(EntryPoint::Name))
        } else if self.author is None {
            Some(LoadError::MissingEntryPoint(EntryPoint::Author))
        } else if self.description is None {
            Some(LoadError::MissingEntryPoint(EntryPoint::Description))
        } else if self.type_tag is None {
            Some(LoadError::MissingEntryPoint(EntryPoint::Type))
        } else if PluginType::of_tag(self.type_tag->0) is None {
            Some(LoadError::UnknownCategory(self.type_tag->0))
        } else {
            None
        }
    }

    /// The record of a file that nothing speaks against: the texts as the
    /// module returned them, the category that it declared, the file's path,
    /// and the state `Unloaded`.
    pub open spec fn record(self) -> PluginView
        recommends
            self.name is Some,
            self.author is Some,
            self.description is Some,
            self.type_tag is Some,
            PluginType::of_tag(self.type_tag->0) is Some,
    {
        PluginView {
            name: self.name->0,
            author: self.author->0,
            description: self.description->0,
            path: self.path,
            plugin_type: PluginType::of_tag(self.type_tag->0)->0,
            plugin_state: PluginState::Unloaded,
        }
    }

    /// Whether `record` says what this probe showed: the file's path, the
    /// texts that the module returned, and the category that the module
    /// declared by its number.
    pub open spec fn shows(self, record: PluginView) -> bool {
        &&& self.opened
        &&& self.path == record.path
        &&& self.name == Some(record.name)
        &&& self.author == Some(record.author)
        &&& self.description == Some(record.description)
        &&& self.type_tag == Some(record.plugin_type.tag_of())
    }

    /// What becomes of the file: a plugin record, or the first reason to
    /// refuse it.
    pub open spec fn verdict(self, suffix: Seq<char>) -> Result<PluginView, LoadError> {
        match self.refusal(suffix) {
            Some(reason) => Err(reason),
            None => Ok(self.record()),
        }
    }
}

} // verus!
