//! The mathematical model of the registry: the records it holds, what a scan
//! makes of a run of probes, and which record a name finds.

use vstd::prelude::*;

use crate::platform::Platform;
use crate::plugin::PluginView;
use crate::probe::ProbeView;

verus! {

/// The records that a scan keeps of `probes`, where module files end with
/// `suffix`: one for each probe that nothing speaks against, in the order of
/// the probes.
pub open spec fn found(suffix: Seq<char>, probes: Seq<ProbeView>) -> Seq<PluginView>
    decreases probes.len(),
{
    if probes.len() == 0 {
        Seq::empty()
    } else {
        let earlier = found(suffix, probes.drop_last());
        match probes.last().verdict(suffix) {
            Ok(record) => earlier.push(record),
            Err(_) => earlier,
        }
    }
}

/// What a registry holds: its records in the order of their discovery, and
/// the platform that it was made for.
pub struct RegistryView {
    pub records: Seq<PluginView>,
    pub platform: Platform,
}

impl RegistryView {
    /// The suffix of the module files that this registry takes in.
    pub open spec fn suffix(self) -> Seq<char> {
        self.platform.suffix_text()
    }

    /// The registry after a scan that met `probes`: the earlier records are
    /// gone, whatever they were.
    pub open spec fn after_scan(self, probes: Seq<ProbeView>) -> RegistryView {
        RegistryView { records: found(self.suffix(), probes), platform: self.platform }
    }

    /// Whether some record bears `name`.
    pub open spec fn has_named(self, name: Seq<char>) -> bool {
        exists|i: int| 0 <= i < self.records.len() && (#[trigger] self.records[i]).name == name
    }

    /// Whether the record at `i` is the first that bears `name`.
    pub open spec fn is_first_named(self, i: int, name: Seq<char>) -> bool {
        &&& 0 <= i < self.records.len()
        &&& self.records[i].name == name
        &&& forall|j: int| 0 <= j < i ==> (#[trigger] self.records[j]).name != name
    }

    /// The place of the first record that bears `name`, if there is one.
    pub open spec fn position_of(self, name: Seq<char>) -> Option<int> {
        if exists|i: int| self.is_first_named(i, name) {
            Some(choose|i: int| self.is_first_named(i, name))
        } else {
            None
        }
    }

    /// The record that a lookup of `name` finds.
    pub open spec fn lookup(self, name: Seq<char>) -> Option<PluginView> {
        match self.position_of(name) {
            Some(i) => Some(self.records[i]),
            None => None,
        }
    }
}

} // verus!
