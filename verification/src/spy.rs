//! The resolution of one target: its engine version and its layout
//! catalogue, probed and then completed by the derivation rules.

use vstd::prelude::*;
use remoteprocess::{Pid, Process};
use spytools::ProcessInfo;
use crate::backfill::{backfill, backfill_spec, lemma_backfill_keeps_known};
use crate::catalogue::{
    absent, catalogue_probed, catalogue_read, cons_string_probed,
    deoptimization_literal_array_probed, fixed_array_base_probed, fixed_array_probed,
    frame_type_probed, get_v8_data, heap_object_probed, map_probed, scope_info_index_probed,
    scope_info_probed, seq_one_byte_string_probed, seq_two_byte_string_probed,
    shared_function_info_probed, string_probed, thin_string_probed, typ_probed,
};
use crate::layout::VMData;
use crate::probe::{lemma_outside_frame_types, read_memory, symbol_table, Probe, Width};
use crate::version::Version;

verus! {

/// What is known of a version once read: a component whose symbol the
/// target does not have is zero.
pub open spec fn version_read(symbols: Map<Seq<char>, u64>, version: Version) -> bool {
    &&& (absent(symbols, "_ZN2v88internal7Version6major_E") ==> version.major == 0)
    &&& (absent(symbols, "_ZN2v88internal7Version6minor_E") ==> version.minor == 0)
    &&& (absent(symbols, "_ZN2v88internal7Version6build_E") ==> version.build == 0)
    &&& (absent(symbols, "_ZN2v88internal7Version6patch_E") ==> version.patch == 0)
}

/// What holds of the outcomes of reading the four components: a component
/// was not found exactly when the target lacks its symbol.
pub open spec fn version_outcomes(
    symbols: Map<Seq<char>, u64>,
    major: Probe,
    minor: Probe,
    build: Probe,
    patch: Probe,
) -> bool {
    &&& (major == Probe::NotFound) == absent(symbols, "_ZN2v88internal7Version6major_E")
    &&& (minor == Probe::NotFound) == absent(symbols, "_ZN2v88internal7Version6minor_E")
    &&& (build == Probe::NotFound) == absent(symbols, "_ZN2v88internal7Version6build_E")
    &&& (patch == Probe::NotFound) == absent(symbols, "_ZN2v88internal7Version6patch_E")
}

/// The version that the outcomes of reading its components come to: each
/// component is the value that was read, or zero where none was.
pub open spec fn version_of_spec(
    major: Probe,
    minor: Probe,
    build: Probe,
    patch: Probe,
) -> Version {
    Version {
        major: major.spec_value(),
        minor: minor.spec_value(),
        build: build.spec_value(),
        patch: patch.spec_value(),
    }
}

/// Whether `version` is the version that some outcomes of reading a target
/// with these symbols come to.
pub open spec fn version_made(symbols: Map<Seq<char>, u64>, version: Version) -> bool {
    exists|major: Probe, minor: Probe, build: Probe, patch: Probe| #[trigger]
        version_outcomes(symbols, major, minor, build, patch) && version == version_of_spec(
            major,
            minor,
            build,
            patch,
        )
}

/// Makes the version of the outcomes of reading its four components.
pub fn version_of(major: Probe, minor: Probe, build: Probe, patch: Probe) -> (version: Version)
    ensures
        version == version_of_spec(major, minor, build, patch),
{
    Version {
        major: major.value(),
        minor: minor.value(),
        build: build.value(),
        patch: patch.value(),
    }
}

/// Reads the engine version from the target, each component from the
/// symbol that holds it, and makes the version of the four outcomes. A
/// component that cannot be read is zero.
pub fn get_v8_version(process_info: &ProcessInfo, process: &Process) -> (version: Version)
    ensures
        version_read(symbol_table(*process_info), version),
        version_made(symbol_table(*process_info), version),
{
    proof {
        reveal_strlit("_ZN2v88internal7Version6major_E");
        lemma_outside_frame_types("_ZN2v88internal7Version6major_E"@);
        reveal_strlit("_ZN2v88internal7Version6minor_E");
        lemma_outside_frame_types("_ZN2v88internal7Version6minor_E"@);
        reveal_strlit("_ZN2v88internal7Version6build_E");
        lemma_outside_frame_types("_ZN2v88internal7Version6build_E"@);
        reveal_strlit("_ZN2v88internal7Version6patch_E");
        lemma_outside_frame_types("_ZN2v88internal7Version6patch_E"@);
    }
    let major = read_memory(
        process_info,
        process,
        "_ZN2v88internal7Version6major_E",
        Width::Four,
    );
    let minor = read_memory(
        process_info,
        process,
        "_ZN2v88internal7Version6minor_E",
        Width::Four,
    );
    let build = read_memory(
        process_info,
        process,
        "_ZN2v88internal7Version6build_E",
        Width::Four,
    );
    let patch = read_memory(
        process_info,
        process,
        "_ZN2v88internal7Version6patch_E",
        Width::Four,
    );
    assert(version_outcomes(symbol_table(*process_info), major, minor, build, patch));
    version_of(major, minor, build, patch)
}

/// A target whose engine layout is resolved.
pub struct V8Spy {
    pub pid: Pid,
    pub process: Process,
    pub version: Version,
    pub layout: VMData,
}

/// Whether `layout` is a catalogue made of the outcomes of probing a target
/// with these symbols and completed by the derivation rules for `version`.
pub open spec fn resolved_from(
    symbols: Map<Seq<char>, u64>,
    version: Version,
    layout: VMData,
) -> bool {
    exists|probed: VMData| #[trigger]
        catalogue_probed(symbols, probed) && catalogue_read(symbols, probed) && layout
            == backfill_spec(probed, version.spec_ordinal() as u32)
}

impl V8Spy {
    /// Resolves the engine layout of a process that is attached and whose
    /// symbols are loaded: reads the version, probes the catalogue, and
    /// derives what the engine does not publish. Nothing that is missing
    /// from the target stops the resolution; what cannot be resolved is
    /// left unknown.
    pub fn new(pid: Pid, process: Process, process_info: &ProcessInfo) -> (spy: V8Spy)
        ensures
            spy.pid == pid,
            spy.process == process,
            version_read(symbol_table(*process_info), spy.version),
            version_made(symbol_table(*process_info), spy.version),
            resolved_from(symbol_table(*process_info), spy.version, spy.layout),
    {
        let version = get_v8_version(process_info, &process);
        let vms = get_v8_data(process_info, &process);
        let ver = version.ordinal();
        let layout = backfill(vms, ver);
        V8Spy { pid, process, version, layout }
    }
}

/// The groups of facts that no rule derives are in a resolved layout as
/// they were probed: what holds of them after probing holds of them in the
/// end, so that a frame type which the target does not publish still
/// matches no frame and a marker still tells what the target has.
pub proof fn lemma_resolved_keeps_underived_groups(
    symbols: Map<Seq<char>, u64>,
    version: Version,
    layout: VMData,
)
    requires
        resolved_from(symbols, version, layout),
    ensures
        frame_type_probed(symbols, layout.frame_type),
        typ_probed(symbols, layout.typ),
        scope_info_index_probed(symbols, layout.scope_info_index),
        heap_object_probed(symbols, layout.heap_object),
        map_probed(symbols, layout.map),
        fixed_array_base_probed(symbols, layout.fixed_array_base),
        fixed_array_probed(symbols, layout.fixed_array),
        string_probed(symbols, layout.string),
        seq_one_byte_string_probed(symbols, layout.seq_one_byte_string),
        seq_two_byte_string_probed(symbols, layout.seq_two_byte_string),
        cons_string_probed(symbols, layout.cons_string),
        thin_string_probed(symbols, layout.thin_string),
        shared_function_info_probed(symbols, layout.shared_function_info),
        scope_info_probed(symbols, layout.scope_info),
        deoptimization_literal_array_probed(symbols, layout.deoptimization_literal_array),
{
    let probed = choose|probed: VMData| #[trigger]
        catalogue_probed(symbols, probed) && catalogue_read(symbols, probed) && layout
            == backfill_spec(probed, version.spec_ordinal() as u32);
    lemma_backfill_keeps_known(probed, version.spec_ordinal() as u32);
}

} // verus!
