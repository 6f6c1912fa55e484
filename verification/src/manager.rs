//! The plugin manager: it takes in what a scan of a directory met and
//! answers lookups by name.

use vstd::prelude::*;
use vstd::string::*;

use crate::kinds::{PluginState, PluginType};
use crate::platform::Platform;
use crate::plugin::{Plugin, PluginView};
use crate::laws::{lemma_record_has_origin, lemma_scan_length};
use crate::probe::{EntryPoint, LoadError, Probe};
use crate::registry::{found, RegistryView};
use crate::wrappers::glob_matches;

verus! {

/// Manages the finding of plugins.
#[derive(Debug)]
pub struct PluginManager {
    /// The list of plugins, in the order of their discovery.
    pub plugin_list: Vec<Plugin>,
    /// The platform whose module files the manager takes in, set once when
    /// the manager is made.
    pub platform: Platform,
}

impl Clone for PluginManager {
    /// A copy of the manager with the same plugins in the same order.
    fn clone(&self) -> (copy: PluginManager)
        ensures
            copy.plugin_list@ == self.plugin_list@,
            copy.platform == self.platform,
            copy@ == self@,
    {
        let copy = PluginManager { plugin_list: self.plugin_list.clone(), platform: self.platform };
        assert(copy.plugin_list@ =~= self.plugin_list@);
        assert(copy.plugin_list.deep_view() =~= self.plugin_list.deep_view());
        copy
    }
}

impl View for PluginManager {
    type V = RegistryView;

    open spec fn view(&self) -> RegistryView {
        RegistryView { records: self.plugin_list.deep_view(), platform: self.platform }
    }
}

impl PluginManager {
    /// Returns a new plugin manager for the given platform, with no plugins.
    pub fn new(platform: Platform) -> (manager: PluginManager)
        ensures
            manager.plugin_list@ == Seq::<Plugin>::empty(),
            manager@ == (RegistryView { records: Seq::empty(), platform }),
    {
        let manager = PluginManager { plugin_list: Vec::new(), platform };
        assert(manager.plugin_list.deep_view() =~= Seq::empty());
        manager
    }

    /// The suffix of the module files that the manager takes in.
    pub fn plugin_ext(&self) -> (suffix: &'static str)
        ensures
            suffix@ == self@.suffix(),
    {
        self.platform.suffix()
    }

    /// The pattern that finds the module files in `plugin_dir`: the
    /// directory, a separator, and the platform's pattern for a module
    /// file's name.
    pub fn search_pattern(&self, plugin_dir: &str) -> (pattern: String)
        ensures
            pattern@ == plugin_dir@ + seq!['/'] + self@.platform.file_pattern_text(),
    {
        proof {
            reveal_strlit("/");
        }
        let mut pattern = plugin_dir.to_owned();
        pattern.append("/");
        let file_pattern = self.platform.file_pattern();
        pattern.append(file_pattern.as_str());
        assert(pattern@ =~= plugin_dir@ + seq!['/'] + self@.platform.file_pattern_text());
        pattern
    }

    /// Whether `path` is the path of a module file: whether it ends with the
    /// platform's suffix.
    pub fn is_module_file(&self, path: &str) -> (is_module: bool)
        ensures
            is_module == self@.suffix().is_suffix_of(path@),
    {
        let file_pattern = self.platform.file_pattern();
        proof {
            self.platform.lemma_file_pattern_is_plain();
            assert(file_pattern@.skip(1) =~= self@.suffix());
        }
        glob_matches(file_pattern.as_str(), path)
    }

    /// Decides what becomes of one probed file: a plugin record in the state
    /// `Unloaded`, or the first reason to refuse the file.
    pub fn examine(&self, probe: Probe) -> (outcome: Result<Plugin, LoadError>)
        ensures
            (match outcome {
                Ok(plugin) => probe@.verdict(self@.suffix()) == Ok::<PluginView, LoadError>(
                    plugin@,
                ),
                Err(reason) => probe@.verdict(self@.suffix()) == Err::<PluginView, LoadError>(
                    reason,
                ),
            }),
    {
        let Probe { path, opened, name, author, description, type_tag } = probe;
        if !self.is_module_file(path.as_str()) {
            return Err(LoadError::NotAModule);
        }
        if !opened {
            return Err(LoadError::OpenFailed);
        }
        let name = match name {
            Some(name) => name,
            None => {
                return Err(LoadError::MissingEntryPoint(EntryPoint::Name));
            },
        };
        let author = match author {
            Some(author) => author,
            None => {
                return Err(LoadError::MissingEntryPoint(EntryPoint::Author));
            },
        };
        let description = match description {
            Some(description) => description,
            None => {
                return Err(LoadError::MissingEntryPoint(EntryPoint::Description));
            },
        };
        let type_tag: u8 = match type_tag {
            Some(type_tag) => type_tag,
            None => {
                return Err(LoadError::MissingEntryPoint(EntryPoint::Type));
            },
        };
        let plugin_type = match PluginType::from_tag(type_tag) {
            Some(plugin_type) => plugin_type,
            None => {
                return Err(LoadError::UnknownCategory(type_tag));
            },
        };
        Ok(
            Plugin {
                name,
                author,
                description,
                path,
                plugin_type,
                plugin_state: PluginState::Unloaded,
            },
        )
    }

    /// Takes in what a scan of the plugin directory met, and stores the list
    /// of plugins. The old list is dropped. Each probe that nothing speaks
    /// against adds one plugin, in the order of the probes; the others are
    /// passed over. Every plugin of the new list is `Unloaded`, and its path
    /// ends with the platform's suffix.
    ///
    /// Returns an immutable reference to the list of plugins.
    pub fn query_plugins(&mut self, probes: Vec<Probe>) -> (list: &Vec<Plugin>)
        ensures
            final(self)@ == old(self)@.after_scan(probes.deep_view()),
            *list == final(self).plugin_list,
            list@.len() <= probes@.len(),
            forall|k: int|
                0 <= k < list@.len() ==> (#[trigger] list@[k])@.is_fresh(old(self)@.suffix()),
    {
        self.plugin_list.clear();
        assert(self.plugin_list.deep_view() =~= Seq::empty());
        assert(probes.deep_view().take(0) =~= Seq::empty());
        for probe in it: probes
            invariant
                it.seq() == probes@,
                self.platform == old(self).platform,
                self.plugin_list.deep_view() == found(
                    old(self)@.suffix(),
                    probes.deep_view().take(it.index() as int),
                ),
        {
            let ghost i: int = it.index() as int;
            let ghost before: Seq<PluginView> = self.plugin_list.deep_view();
            proof {
                let upto = probes.deep_view().take(i + 1);
                assert(upto.drop_last() =~= probes.deep_view().take(i));
                assert(upto.last() == probe@);
            }
            match self.examine(probe) {
                Ok(plugin) => {
                    self.plugin_list.push(plugin);
                    assert(self.plugin_list.deep_view() =~= before.push(plugin@));
                },
                Err(_) => {},
            }
        }
        proof {
            let suffix = old(self)@.suffix();
            let met = probes.deep_view();
            assert(met.take(probes@.len() as int) =~= met);
            lemma_scan_length(suffix, met);
            assert forall|k: int| 0 <= k < self.plugin_list@.len() implies (
            #[trigger] self.plugin_list@[k])@.is_fresh(suffix) by {
                lemma_record_has_origin(suffix, met, k);
                assert(self.plugin_list.deep_view()[k] == self.plugin_list@[k]@);
            }
        }
        &self.plugin_list
    }

    /// Returns the first plugin of the given name.
    ///
    /// The names are compared character by character. Where no plugin bears
    /// the name, the result is `Err`.
    pub fn get_plugin(&self, name: &str) -> (plugin: Result<&Plugin, ()>)
        ensures
            plugin is Ok <==> self@.has_named(name@),
            (match plugin {
                Ok(plugin) => {
                    &&& self@.position_of(name@) is Some
                    &&& *plugin == self.plugin_list@[self@.position_of(name@)->0]
                    &&& self@.lookup(name@) == Some(plugin@)
                    &&& plugin.name@ == name@
                },
                Err(_) => self@.lookup(name@) is None,
            }),
    {
        let mut index: usize = 0;
        while index < self.plugin_list.len()
            invariant
                index <= self.plugin_list@.len(),
                forall|j: int| 0 <= j < index ==> (#[trigger] self@.records[j]).name != name@,
            decreases self.plugin_list@.len() - index,
        {
            if self.plugin_list[index].name.as_str().eq(name) {
                assert(self@.is_first_named(index as int, name@));
                return Ok(&self.plugin_list[index]);
            }
            index += 1;
        }
        Err(())
    }
}

} // verus!
