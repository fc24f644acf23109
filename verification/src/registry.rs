//! The biome registry: a read-only collection of compiled profiles keyed
//! by name, built once from the document texts the caller loaded, with
//! per-document failures recorded instead of aborting the whole load.
use vstd::prelude::*;

use crate::compile::{CompileError, VoxelTypeTable};
use crate::profile::{compiled_from_some_document, BiomeProfile};
use crate::text::str_eq;

verus! {

/// The registry: profiles that compiled, and the names and errors of the
/// documents that did not.
pub struct BiomeRegistry {
    pub entries: Vec<(String, BiomeProfile)>,
    pub failures: Vec<(String, CompileError)>,
}

/// The profile registered under `name`, taking the latest entry when a
/// name repeats.
pub open spec fn spec_registry_lookup(
    entries: Seq<(String, BiomeProfile)>,
    name: Seq<char>,
) -> Option<BiomeProfile>
    decreases entries.len(),
{
    if entries.len() == 0 {
        None
    } else if entries.last().0@ == name {
        Some(entries.last().1)
    } else {
        spec_registry_lookup(entries.drop_last(), name)
    }
}

/// The names of the registry's entries, in order.
pub open spec fn entry_names(entries: Seq<(String, BiomeProfile)>) -> Seq<String> {
    entries.map_values(|e: (String, BiomeProfile)| e.0)
}

/// The names of the recorded failures, in order.
pub open spec fn failure_names(failures: Seq<(String, CompileError)>) -> Seq<String> {
    failures.map_values(|e: (String, CompileError)| e.0)
}

/// How one load pass pairs inputs with outcomes: scanning the files in
/// order, each file's name goes to the entry names when its flag is set
/// and to the failure names otherwise — so the two lists hold exactly the
/// input names, in input order, one outcome per input under its own name.
pub open spec fn names_split(
    files: Seq<(String, String)>,
    ok: Seq<bool>,
    entry_names: Seq<String>,
    failure_names: Seq<String>,
) -> bool
    decreases files.len(),
{
    if files.len() == 0 {
        entry_names.len() == 0 && failure_names.len() == 0
    } else if ok.len() != files.len() {
        false
    } else if ok.last() {
        &&& entry_names.len() > 0
        &&& entry_names.last() == files.last().0
        &&& names_split(files.drop_last(), ok.drop_last(), entry_names.drop_last(), failure_names)
    } else {
        &&& failure_names.len() > 0
        &&& failure_names.last() == files.last().0
        &&& names_split(files.drop_last(), ok.drop_last(), entry_names, failure_names.drop_last())
    }
}

/// Builds the registry from named document texts.  Each input yields
/// exactly one outcome — a profile entry or a recorded failure — under its
/// own name, in input order; and every profile handed out is the compiled
/// form of some well-formed document against this voxel table.  Which
/// inputs succeed rests on the JSON parse, which is opaque here, so the
/// split itself is existential.
pub fn load_biomes(files: Vec<(String, String)>, voxels: &VoxelTypeTable) -> (r: BiomeRegistry)
    ensures
        r.entries@.len() + r.failures@.len() == files@.len(),
        exists|ok: Seq<bool>|
            names_split(files@, ok, entry_names(r.entries@), failure_names(r.failures@)),
        forall|k: int|
            0 <= k < r.entries@.len() ==> compiled_from_some_document(
                #[trigger] r.entries@[k].1,
                voxels.entries@,
            ),
{
    let mut entries: Vec<(String, BiomeProfile)> = Vec::new();
    let mut failures: Vec<(String, CompileError)> = Vec::new();
    let mut i: usize = 0;
    let ghost mut ok_flags: Seq<bool> = Seq::empty();
    proof {
        assert(files@.take(0) =~= Seq::<(String, String)>::empty());
        assert(entry_names(entries@) =~= Seq::<String>::empty());
        assert(failure_names(failures@) =~= Seq::<String>::empty());
    }
    while i < files.len()
        invariant
            i <= files@.len(),
            entries@.len() + failures@.len() == i,
            ok_flags.len() == i,
            names_split(files@.take(i as int), ok_flags, entry_names(entries@), failure_names(
                failures@,
            )),
            forall|k: int|
                0 <= k < entries@.len() ==> compiled_from_some_document(
                    #[trigger] entries@[k].1,
                    voxels.entries@,
                ),
        decreases files@.len() - i,
    {
        let ghost old_entries = entries@;
        let ghost old_failures = failures@;
        let ghost old_flags = ok_flags;
        proof {
            assert(files@.take(i + 1).drop_last() =~= files@.take(i as int));
            assert(files@.take(i + 1).last() == files@[i as int]);
        }
        let name = files[i].0.clone();
        let data = files[i].1.clone();
        match BiomeProfile::from_json(data, voxels) {
            Ok(profile) => {
                entries.push((name, profile));
                proof {
                    ok_flags = ok_flags.push(true);
                    assert(ok_flags.drop_last() =~= old_flags);
                    assert(entry_names(entries@) =~= entry_names(old_entries).push(name));
                    assert(entry_names(entries@).drop_last() =~= entry_names(old_entries));
                    assert(entry_names(entries@).last() == files@[i as int].0);
                }
            },
            Err(e) => {
                failures.push((name, e));
                proof {
                    ok_flags = ok_flags.push(false);
                    assert(ok_flags.drop_last() =~= old_flags);
                    assert(failure_names(failures@) =~= failure_names(old_failures).push(name));
                    assert(failure_names(failures@).drop_last() =~= failure_names(old_failures));
                    assert(failure_names(failures@).last() == files@[i as int].0);
                }
            },
        }
        i = i + 1;
    }
    proof {
        assert(files@.take(files@.len() as int) =~= files@);
    }
    BiomeRegistry { entries, failures }
}

/// Fetches a profile by name; absence is an empty result, not an error.
pub fn get_biome_by_name<'a>(registry: &'a BiomeRegistry, name: &str) -> (r: Option<
    &'a BiomeProfile,
>)
    ensures
        match r {
            Some(p) => spec_registry_lookup(registry.entries@, name@) == Some(*p),
            None => spec_registry_lookup(registry.entries@, name@) is None,
        },
{
    let mut i: usize = registry.entries.len();
    proof {
        assert(registry.entries@.take(registry.entries@.len() as int) =~= registry.entries@);
    }
    while i > 0
        invariant
            i <= registry.entries@.len(),
            spec_registry_lookup(registry.entries@, name@) == spec_registry_lookup(
                registry.entries@.take(i as int),
                name@,
            ),
        decreases i,
    {
        i = i - 1;
        proof {
            assert(registry.entries@.take(i + 1).last() == registry.entries@[i as int]);
            assert(registry.entries@.take(i + 1).drop_last() =~= registry.entries@.take(i as int));
        }
        if str_eq(registry.entries[i].0.as_str(), name) {
            return Some(&registry.entries[i].1);
        }
    }
    proof {
        assert(registry.entries@.take(0) =~= Seq::<(String, BiomeProfile)>::empty());
    }
    None
}

} // verus!
