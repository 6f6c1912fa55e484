//! What holds of every scan and of every lookup.

use vstd::prelude::*;
use vstd::seq_lib::*;

use crate::kinds::{PluginState, PluginType};
use crate::plugin::PluginView;
use crate::probe::{LoadError, ProbeView};
use crate::registry::{found, RegistryView};

verus! {

/// A scan rebuilds the registry from what it met and from nothing else.
/// Two registries of one platform hold the same records after they scanned
/// the same probes, whatever they held before; and a registry that scans the
/// same probes a second time is left as the first scan left it, with no
/// record added.
pub proof fn lemma_scan_rebuilds(first: RegistryView, second: RegistryView, probes: Seq<ProbeView>)
    requires
        first.platform == second.platform,
    ensures
        first.after_scan(probes) == second.after_scan(probes),
        first.after_scan(probes).after_scan(probes) == first.after_scan(probes),
{
}

/// A scan works file by file, in order: the records of a run of probes are
/// the records of its first part, followed by the records of the rest. In
/// particular a file that is refused leaves the records of the files before
/// and after it as they are.
pub proof fn lemma_scan_is_piecewise(
    suffix: Seq<char>,
    first: Seq<ProbeView>,
    rest: Seq<ProbeView>,
)
    ensures
        found(suffix, first + rest) == found(suffix, first) + found(suffix, rest),
    decreases rest.len(),
{
    if rest.len() == 0 {
        assert(first + rest =~= first);
        assert(found(suffix, first) + found(suffix, rest) =~= found(suffix, first));
    } else {
        let whole = first + rest;
        assert(whole.drop_last() =~= first + rest.drop_last());
        assert(whole.last() == rest.last());
        lemma_scan_is_piecewise(suffix, first, rest.drop_last());
        assert(found(suffix, whole) =~= found(suffix, first) + found(suffix, rest));
    }
}

/// The order in which a scan meets the files decides the order of the
/// records and nothing else: two runs of the same probes, in whatever order,
/// leave the same records, each as many times.
pub proof fn lemma_scan_ignores_order(suffix: Seq<char>, one: Seq<ProbeView>, other: Seq<ProbeView>)
    requires
        one.to_multiset() == other.to_multiset(),
    ensures
        found(suffix, one).to_multiset() == found(suffix, other).to_multiset(),
    decreases one.len(),
{
    to_multiset_len(one);
    to_multiset_len(other);
    if one.len() == 0 {
        assert(found(suffix, one) =~= found(suffix, other));
    } else {
        let probe = one.last();
        let at: int = one.len() - 1;
        assert(one.contains(probe)) by {
            assert(one[at] == probe);
        }
        to_multiset_contains(one, probe);
        to_multiset_contains(other, probe);
        let j: int = choose|j: int| 0 <= j < other.len() && other[j] == probe;
        let before = other.take(j);
        let after = other.skip(j + 1);

        to_multiset_remove(one, at);
        to_multiset_remove(other, j);
        assert(one.remove(at) =~= one.drop_last());
        assert(other.remove(j) =~= before + after);
        lemma_scan_ignores_order(suffix, one.drop_last(), before + after);

        assert(one =~= one.drop_last() + seq![probe]);
        lemma_scan_is_piecewise(suffix, one.drop_last(), seq![probe]);
        assert(other =~= before + (seq![probe] + after));
        lemma_scan_is_piecewise(suffix, before, seq![probe] + after);
        lemma_scan_is_piecewise(suffix, seq![probe], after);
        lemma_scan_is_piecewise(suffix, before, after);

        let kept = found(suffix, seq![probe]);
        lemma_multiset_commutative(found(suffix, one.drop_last()), kept);
        lemma_multiset_commutative(found(suffix, before), kept + found(suffix, after));
        lemma_multiset_commutative(kept, found(suffix, after));
        lemma_multiset_commutative(found(suffix, before), found(suffix, after));
        assert(found(suffix, one).to_multiset() =~= found(suffix, other).to_multiset());
    }
}

/// A scan of one file keeps its record, or nothing if the file is refused.
pub proof fn lemma_scan_of_one(suffix: Seq<char>, probe: ProbeView)
    ensures
        found(suffix, seq![probe]) == (match probe.verdict(suffix) {
            Ok(record) => seq![record],
            Err(_) => Seq::empty(),
        }),
{
    let one = seq![probe];
    assert(one.drop_last() =~= Seq::empty());
    assert(one.last() == probe);
    assert(found(suffix, one.drop_last()) =~= Seq::empty());
    assert(found(suffix, one) =~= (match probe.verdict(suffix) {
        Ok(record) => seq![record],
        Err(_) => Seq::empty(),
    }));
}

/// Every record of a scan stems from one of the probes, and says what that
/// probe showed: the file's path, the texts that the module returned, and
/// the category that the module declared by its number, never another. The
/// path ends with the module suffix, and the state is `Unloaded`.
pub proof fn lemma_record_has_origin(suffix: Seq<char>, probes: Seq<ProbeView>, k: int)
    requires
        0 <= k < found(suffix, probes).len(),
    ensures
        exists|i: int|
            0 <= i < probes.len() && (#[trigger] probes[i]).verdict(suffix) == Ok::<
                PluginView,
                LoadError,
            >(found(suffix, probes)[k]) && probes[i].shows(found(suffix, probes)[k]),
        suffix.is_suffix_of(found(suffix, probes)[k].path),
        found(suffix, probes)[k].plugin_state == PluginState::Unloaded,
    decreases probes.len(),
{
    let earlier = found(suffix, probes.drop_last());
    let last = probes.last();
    if k < earlier.len() {
        lemma_record_has_origin(suffix, probes.drop_last(), k);
        let i: int = choose|i: int|
            0 <= i < probes.drop_last().len() && (#[trigger] probes.drop_last()[i]).verdict(suffix)
                == Ok::<PluginView, LoadError>(earlier[k]) && probes.drop_last()[i].shows(
                earlier[k],
            );
        assert(probes[i] == probes.drop_last()[i]);
    } else {
        let record = found(suffix, probes)[k];
        assert(last.verdict(suffix) == Ok::<PluginView, LoadError>(record));
        PluginType::lemma_tag_names_one_category(record.plugin_type, last.type_tag->0);
        assert(probes[probes.len() - 1] == last);
    }
}

/// Every probe that nothing speaks against has its record in the scan's
/// result.
pub proof fn lemma_accepted_is_recorded(suffix: Seq<char>, probes: Seq<ProbeView>, i: int)
    requires
        0 <= i < probes.len(),
        probes[i].verdict(suffix) is Ok,
    ensures
        found(suffix, probes).contains(probes[i].record()),
    decreases probes.len(),
{
    let earlier = found(suffix, probes.drop_last());
    if i == probes.len() - 1 {
        let records = found(suffix, probes);
        assert(records[records.len() - 1] == probes[i].record());
    } else {
        lemma_accepted_is_recorded(suffix, probes.drop_last(), i);
        let k: int = choose|k: int| 0 <= k < earlier.len() && earlier[k] == probes[i].record();
        assert(found(suffix, probes)[k] == probes[i].record());
    }
}

/// A scan never keeps more records than it met probes.
pub proof fn lemma_scan_length(suffix: Seq<char>, probes: Seq<ProbeView>)
    ensures
        found(suffix, probes).len() <= probes.len(),
    decreases probes.len(),
{
    if probes.len() > 0 {
        lemma_scan_length(suffix, probes.drop_last());
    }
}

/// A scan leaves the registry empty exactly when every file that it met is
/// refused; so it does when it met no file at all, and when no file bears
/// the module suffix.
pub proof fn lemma_scan_of_nothing(suffix: Seq<char>, probes: Seq<ProbeView>)
    ensures
        found(suffix, probes).len() == 0 <==> (forall|i: int|
            0 <= i < probes.len() ==> (#[trigger] probes[i]).verdict(suffix) is Err),
        probes.len() == 0 ==> found(suffix, probes) == Seq::<PluginView>::empty(),
        (forall|i: int| 0 <= i < probes.len() ==> !suffix.is_suffix_of((#[trigger] probes[i]).path))
            ==> found(suffix, probes) == Seq::<PluginView>::empty(),
    decreases probes.len(),
{
    if probes.len() > 0 {
        lemma_scan_of_nothing(suffix, probes.drop_last());
        assert(forall|i: int|
            0 <= i < probes.len() - 1 ==> probes[i] == #[trigger] probes.drop_last()[i]);
        if found(suffix, probes).len() == 0 {
            assert forall|i: int| 0 <= i < probes.len() implies (#[trigger] probes[i]).verdict(
                suffix,
            ) is Err by {
                if i < probes.len() - 1 {
                    assert(probes[i] == probes.drop_last()[i]);
                }
            }
        }
        if forall|i: int| 0 <= i < probes.len() ==> (#[trigger] probes[i]).verdict(suffix) is Err {
            assert(probes.last().verdict(suffix) is Err);
            assert forall|i: int| 0 <= i < probes.drop_last().len() implies (
            #[trigger] probes.drop_last()[i]).verdict(suffix) is Err by {
                assert(probes[i] == probes.drop_last()[i]);
            }
        }
        if forall|i: int| 0 <= i < probes.len() ==> !suffix.is_suffix_of((#[trigger] probes[i]).path) {
            assert forall|i: int| 0 <= i < probes.len() implies (#[trigger] probes[i]).verdict(
                suffix,
            ) is Err by {}
        }
    }
    assert(found(suffix, probes).len() == 0 ==> found(suffix, probes) =~= Seq::empty());
}

/// A lookup by the name of a record finds a record of that name: the first
/// one, which stands at the record's own place or before it, and at its own
/// place where no earlier record bears the same name.
pub proof fn lemma_lookup_finds_first(registry: RegistryView, i: int)
    requires
        0 <= i < registry.records.len(),
    ensures
        registry.position_of(registry.records[i].name) is Some,
        registry.is_first_named(
            registry.position_of(registry.records[i].name)->0,
            registry.records[i].name,
        ),
        registry.position_of(registry.records[i].name)->0 <= i,
        (forall|j: int| 0 <= j < i ==> (#[trigger] registry.records[j]).name
            != registry.records[i].name) ==> registry.lookup(registry.records[i].name) == Some(
            registry.records[i],
        ),
    decreases i,
{
    let name = registry.records[i].name;
    if exists|j: int| 0 <= j < i && (#[trigger] registry.records[j]).name == name {
        let j: int = choose|j: int| 0 <= j < i && (#[trigger] registry.records[j]).name == name;
        lemma_lookup_finds_first(registry, j);
    } else {
        assert(registry.is_first_named(i, name));
    }
    let at: int = registry.position_of(name)->0;
    assert(registry.is_first_named(at, name));
    if at > i {
        assert(registry.records[i].name != name);
    }
}

/// A lookup by the name of a record returns a record that describes the same
/// plugin: the same name, author, description, path and category. This holds
/// of the records of any registry, so of those that a scan has just stored.
///
/// Names are not unique, and of several records with one name a lookup
/// returns the first. So this holds of a record whenever the first record of
/// its name describes the same plugin, as it does where the name occurs
/// once.
pub proof fn lemma_lookup_returns_record(registry: RegistryView, i: int)
    requires
        0 <= i < registry.records.len(),
        forall|k: int|
            registry.is_first_named(k, registry.records[i].name) ==> (
            #[trigger] registry.records[k]).same_plugin(registry.records[i]),
    ensures
        registry.lookup(registry.records[i].name) is Some,
        registry.lookup(registry.records[i].name)->0.same_plugin(registry.records[i]),
{
    lemma_lookup_finds_first(registry, i);
}

/// A lookup misses exactly when no record bears the name.
pub proof fn lemma_lookup_misses(registry: RegistryView, name: Seq<char>)
    ensures
        registry.lookup(name) is None <==> (forall|i: int|
            0 <= i < registry.records.len() ==> (#[trigger] registry.records[i]).name != name),
{
    if exists|i: int| 0 <= i < registry.records.len() && (#[trigger] registry.records[i]).name
        == name {
        let i: int = choose|i: int|
            0 <= i < registry.records.len() && (#[trigger] registry.records[i]).name == name;
        lemma_lookup_finds_first(registry, i);
    }
    if registry.position_of(name) is Some {
        let at: int = registry.position_of(name)->0;
        assert(registry.is_first_named(at, name));
    }
}

} // verus!
