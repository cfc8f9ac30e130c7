//! Populating the layout catalogue: every fact is probed under the symbol
//! names that engines have published it by, in their order, and the
//! catalogue is made of the outcomes.
//!
//! Of a fact whose symbols the target has, the value is whatever the target
//! holds there. Of one whose symbols it has not, the value is fixed: the
//! largest of its width for a frame type, which then matches no frame, and
//! zero, that is unknown, for every other fact.

use vstd::prelude::*;
use remoteprocess::Process;
use spytools::ProcessInfo;
use crate::layout::{
    BaselineData, BytecodeArray, Code, CodeKind, ConsString, DeoptimizationDataIndex,
    DeoptimizationLiteralArray, Fixed, FixedArray, FixedArrayBase, FramePointer, FrameType,
    HeapObject, JSFunction, MapClass, ScopeInfo, ScopeInfoIndex, Script, SeqOneByteString,
    SeqTwoByteString, SharedFunctionInfo, StringClass, ThinString, Type, VMData,
};
use crate::outcomes::{
    baseline_data_of, BaselineDataProbes, bytecode_array_of, BytecodeArrayProbes, catalogue_of,
    CatalogueProbes, code_kind_of, code_of, CodeKindProbes, CodeProbes, cons_string_of,
    ConsStringProbes, deoptimization_data_index_of, DeoptimizationDataIndexProbes,
    fixed_array_base_of, fixed_array_of, fixed_of, FixedArrayBaseProbes, FixedArrayProbes,
    FixedProbes, frame_pointer_of, frame_type_of, FramePointerProbes, FrameTypeProbes,
    heap_object_of, HeapObjectProbes, jsfunction_of, JSFunctionProbes, map_of, MapClassProbes,
    scope_info_index_of, ScopeInfoIndexProbes, script_of, ScriptProbes, seq_one_byte_string_of,
    seq_two_byte_string_of, SeqOneByteStringProbes, SeqTwoByteStringProbes,
    shared_function_info_of, SharedFunctionInfoProbes, string_of, StringClassProbes,
    thin_string_of, ThinStringProbes, typ_of, TypeProbes,
};
use crate::probe::{
    lemma_outside_frame_types, lookup_symbol, read_memory, read_unless_found, symbol_table,
    pick_first, Probe, Width,
};

verus! {

/// Whether the target lacks the named symbol.
pub open spec fn absent(symbols: Map<Seq<char>, u64>, symbol: &str) -> bool {
    !symbols.contains_key(symbol@)
}

/// Whether the target has the named symbol, whatever lies at its address.
fn has_symbol(process_info: &ProcessInfo, symbol: &str) -> (r: bool)
    ensures
        r == !absent(symbol_table(*process_info), symbol),
{
    lookup_symbol(process_info, symbol).is_some()
}

/// What holds of the outcomes of probing the tag, mask and shift constants:
/// each fits the width of its fact, and was not found exactly when the
/// target lacks its symbol.
pub open spec fn fixed_outcomes(symbols: Map<Seq<char>, u64>, probes: FixedProbes) -> bool {
    &&& probes.heap_object_tag_mask.fits(Width::Four)
    &&& (probes.heap_object_tag_mask == Probe::NotFound)
        == absent(symbols, "v8dbg_HeapObjectTagMask")
    &&& probes.smi_tag_mask.fits(Width::Four)
    &&& (probes.smi_tag_mask == Probe::NotFound) == absent(symbols, "v8dbg_SmiTagMask")
    &&& probes.heap_object_tag.fits(Width::Two)
    &&& (probes.heap_object_tag == Probe::NotFound) == absent(symbols, "v8dbg_HeapObjectTag")
    &&& probes.smi_tag.fits(Width::Two)
    &&& (probes.smi_tag == Probe::NotFound) == absent(symbols, "v8dbg_SmiTag")
    &&& probes.smi_shift_size.fits(Width::Two)
    &&& (probes.smi_shift_size == Probe::NotFound) == absent(symbols, "v8dbg_SmiShiftSize")
    &&& probes.first_nonstring_type.fits(Width::Two)
    &&& (probes.first_nonstring_type == Probe::NotFound)
        == absent(symbols, "v8dbg_FirstNonstringType")
    &&& probes.string_encoding_mask.fits(Width::Two)
    &&& (probes.string_encoding_mask == Probe::NotFound)
        == absent(symbols, "v8dbg_StringEncodingMask")
    &&& probes.string_representation_mask.fits(Width::Two)
    &&& (probes.string_representation_mask == Probe::NotFound)
        == absent(symbols, "v8dbg_StringRepresentationMask")
    &&& probes.seq_string_tag.fits(Width::Two)
    &&& (probes.seq_string_tag == Probe::NotFound) == absent(symbols, "v8dbg_SeqStringTag")
    &&& probes.cons_string_tag.fits(Width::Two)
    &&& (probes.cons_string_tag == Probe::NotFound) == absent(symbols, "v8dbg_ConsStringTag")
    &&& probes.one_byte_string_tag.fits(Width::Two)
    &&& (probes.one_byte_string_tag == Probe::NotFound) == absent(symbols, "v8dbg_OneByteStringTag")
    &&& probes.two_byte_string_tag.fits(Width::Two)
    &&& (probes.two_byte_string_tag == Probe::NotFound) == absent(symbols, "v8dbg_TwoByteStringTag")
    &&& probes.sliced_string_tag.fits(Width::Two)
    &&& (probes.sliced_string_tag == Probe::NotFound) == absent(symbols, "v8dbg_SlicedStringTag")
    &&& probes.thin_string_tag.fits(Width::Two)
    &&& (probes.thin_string_tag == Probe::NotFound) == absent(symbols, "v8dbg_ThinStringTag")
    &&& probes.first_jsfunction_type.fits(Width::Two)
    &&& (probes.first_jsfunction_type == Probe::NotFound)
        == absent(symbols, "v8dbg_FirstJSFunctionType")
    &&& probes.last_jsfunction_type.fits(Width::Two)
    &&& (probes.last_jsfunction_type == Probe::NotFound)
        == absent(symbols, "v8dbg_LastJSFunctionType")
}

/// Probes the tag, mask and shift constants and keeps the outcome of every
/// name.
pub fn read_fixed(process_info: &ProcessInfo, process: &Process) -> (probes: FixedProbes)
    ensures
        fixed_outcomes(symbol_table(*process_info), probes),
{
    proof {
        reveal_strlit("v8dbg_HeapObjectTagMask");
        lemma_outside_frame_types("v8dbg_HeapObjectTagMask"@);
        reveal_strlit("v8dbg_SmiTagMask");
        lemma_outside_frame_types("v8dbg_SmiTagMask"@);
        reveal_strlit("v8dbg_HeapObjectTag");
        lemma_outside_frame_types("v8dbg_HeapObjectTag"@);
        reveal_strlit("v8dbg_SmiTag");
        lemma_outside_frame_types("v8dbg_SmiTag"@);
        reveal_strlit("v8dbg_SmiShiftSize");
        lemma_outside_frame_types("v8dbg_SmiShiftSize"@);
        reveal_strlit("v8dbg_FirstNonstringType");
        lemma_outside_frame_types("v8dbg_FirstNonstringType"@);
        reveal_strlit("v8dbg_StringEncodingMask");
        lemma_outside_frame_types("v8dbg_StringEncodingMask"@);
        reveal_strlit("v8dbg_StringRepresentationMask");
        lemma_outside_frame_types("v8dbg_StringRepresentationMask"@);
        reveal_strlit("v8dbg_SeqStringTag");
        lemma_outside_frame_types("v8dbg_SeqStringTag"@);
        reveal_strlit("v8dbg_ConsStringTag");
        lemma_outside_frame_types("v8dbg_ConsStringTag"@);
        reveal_strlit("v8dbg_OneByteStringTag");
        lemma_outside_frame_types("v8dbg_OneByteStringTag"@);
        reveal_strlit("v8dbg_TwoByteStringTag");
        lemma_outside_frame_types("v8dbg_TwoByteStringTag"@);
        reveal_strlit("v8dbg_SlicedStringTag");
        lemma_outside_frame_types("v8dbg_SlicedStringTag"@);
        reveal_strlit("v8dbg_ThinStringTag");
        lemma_outside_frame_types("v8dbg_ThinStringTag"@);
        reveal_strlit("v8dbg_FirstJSFunctionType");
        lemma_outside_frame_types("v8dbg_FirstJSFunctionType"@);
        reveal_strlit("v8dbg_LastJSFunctionType");
        lemma_outside_frame_types("v8dbg_LastJSFunctionType"@);
    }
    let heap_object_tag_mask = read_memory(
        process_info,
        process,
        "v8dbg_HeapObjectTagMask",
        Width::Four,
    );
    let smi_tag_mask = read_memory(process_info, process, "v8dbg_SmiTagMask", Width::Four);
    let heap_object_tag = read_memory(process_info, process, "v8dbg_HeapObjectTag", Width::Two);
    let smi_tag = read_memory(process_info, process, "v8dbg_SmiTag", Width::Two);
    let smi_shift_size = read_memory(process_info, process, "v8dbg_SmiShiftSize", Width::Two);
    let first_nonstring_type = read_memory(
        process_info,
        process,
        "v8dbg_FirstNonstringType",
        Width::Two,
    );
    let string_encoding_mask = read_memory(
        process_info,
        process,
        "v8dbg_StringEncodingMask",
        Width::Two,
    );
    let string_representation_mask = read_memory(
        process_info,
        process,
        "v8dbg_StringRepresentationMask",
        Width::Two,
    );
    let seq_string_tag = read_memory(process_info, process, "v8dbg_SeqStringTag", Width::Two);
    let cons_string_tag = read_memory(process_info, process, "v8dbg_ConsStringTag", Width::Two);
    let one_byte_string_tag = read_memory(
        process_info,
        process,
        "v8dbg_OneByteStringTag",
        Width::Two,
    );
    let two_byte_string_tag = read_memory(
        process_info,
        process,
        "v8dbg_TwoByteStringTag",
        Width::Two,
    );
    let sliced_string_tag = read_memory(process_info, process, "v8dbg_SlicedStringTag", Width::Two);
    let thin_string_tag = read_memory(process_info, process, "v8dbg_ThinStringTag", Width::Two);
    let first_jsfunction_type = read_memory(
        process_info,
        process,
        "v8dbg_FirstJSFunctionType",
        Width::Two,
    );
    let last_jsfunction_type = read_memory(
        process_info,
        process,
        "v8dbg_LastJSFunctionType",
        Width::Two,
    );
    FixedProbes {
        heap_object_tag_mask,
        smi_tag_mask,
        heap_object_tag,
        smi_tag,
        smi_shift_size,
        first_nonstring_type,
        string_encoding_mask,
        string_representation_mask,
        seq_string_tag,
        cons_string_tag,
        one_byte_string_tag,
        two_byte_string_tag,
        sliced_string_tag,
        thin_string_tag,
        first_jsfunction_type,
        last_jsfunction_type,
    }
}

/// What is known of the tag, mask and shift constants once probed: a fact
/// that the target publishes under none of its names is unknown.
pub open spec fn fixed_probed(symbols: Map<Seq<char>, u64>, v: Fixed) -> bool {
    &&& (absent(symbols, "v8dbg_HeapObjectTagMask") ==> v.heap_object_tag_mask == 0)
    &&& (absent(symbols, "v8dbg_SmiTagMask") ==> v.smi_tag_mask == 0)
    &&& (absent(symbols, "v8dbg_HeapObjectTag") ==> v.heap_object_tag == 0)
    &&& (absent(symbols, "v8dbg_SmiTag") ==> v.smi_tag == 0)
    &&& (absent(symbols, "v8dbg_SmiShiftSize") ==> v.smi_shift_size == 0)
    &&& (absent(symbols, "v8dbg_FirstNonstringType") ==> v.first_nonstring_type == 0)
    &&& (absent(symbols, "v8dbg_StringEncodingMask") ==> v.string_encoding_mask == 0)
    &&& (absent(symbols, "v8dbg_StringRepresentationMask") ==> v.string_representation_mask == 0)
    &&& (absent(symbols, "v8dbg_SeqStringTag") ==> v.seq_string_tag == 0)
    &&& (absent(symbols, "v8dbg_ConsStringTag") ==> v.cons_string_tag == 0)
    &&& (absent(symbols, "v8dbg_OneByteStringTag") ==> v.one_byte_string_tag == 0)
    &&& (absent(symbols, "v8dbg_TwoByteStringTag") ==> v.two_byte_string_tag == 0)
    &&& (absent(symbols, "v8dbg_SlicedStringTag") ==> v.sliced_string_tag == 0)
    &&& (absent(symbols, "v8dbg_ThinStringTag") ==> v.thin_string_tag == 0)
    &&& (absent(symbols, "v8dbg_FirstJSFunctionType") ==> v.first_jsfunction_type == 0)
    &&& (absent(symbols, "v8dbg_LastJSFunctionType") ==> v.last_jsfunction_type == 0)
}

/// Probes the tag, mask and shift constants: the facts that the outcomes of
/// probing them come to.
pub fn probe_fixed(process_info: &ProcessInfo, process: &Process) -> (v: Fixed)
    ensures
        fixed_probed(symbol_table(*process_info), v),
        exists|probes: FixedProbes| #[trigger]
            fixed_outcomes(symbol_table(*process_info), probes) && v == probes.facts(),
{
    fixed_of(read_fixed(process_info, process))
}

/// What holds of the outcomes of probing the frame-pointer offsets: each
/// fits the width of its fact, and was not found exactly when the target
/// lacks its symbol.
pub open spec fn frame_pointer_outcomes(
    symbols: Map<Seq<char>, u64>,
    probes: FramePointerProbes,
) -> bool {
    &&& probes.function.fits(Width::One)
    &&& (probes.function == Probe::NotFound) == absent(symbols, "v8dbg_off_fp_function")
    &&& probes.context.fits(Width::One)
    &&& (probes.context == Probe::NotFound) == absent(symbols, "v8dbg_off_fp_context")
    &&& probes.bytecode_array.fits(Width::One)
    &&& (probes.bytecode_array == Probe::NotFound) == absent(symbols, "v8dbg_off_fp_bytecode_array")
    &&& probes.bytecode_offset.fits(Width::One)
    &&& (probes.bytecode_offset == Probe::NotFound)
        == absent(symbols, "v8dbg_off_fp_bytecode_offset")
}

/// Probes the frame-pointer offsets and keeps the outcome of every name.
pub fn read_frame_pointer(
    process_info: &ProcessInfo,
    process: &Process,
) -> (probes: FramePointerProbes)
    ensures
        frame_pointer_outcomes(symbol_table(*process_info), probes),
{
    proof {
        reveal_strlit("v8dbg_off_fp_function");
        lemma_outside_frame_types("v8dbg_off_fp_function"@);
        reveal_strlit("v8dbg_off_fp_context");
        lemma_outside_frame_types("v8dbg_off_fp_context"@);
        reveal_strlit("v8dbg_off_fp_bytecode_array");
        lemma_outside_frame_types("v8dbg_off_fp_bytecode_array"@);
        reveal_strlit("v8dbg_off_fp_bytecode_offset");
        lemma_outside_frame_types("v8dbg_off_fp_bytecode_offset"@);
    }
    let function = read_memory(process_info, process, "v8dbg_off_fp_function", Width::One);
    let context = read_memory(process_info, process, "v8dbg_off_fp_context", Width::One);
    let bytecode_array = read_memory(
        process_info,
        process,
        "v8dbg_off_fp_bytecode_array",
        Width::One,
    );
    let bytecode_offset = read_memory(
        process_info,
        process,
        "v8dbg_off_fp_bytecode_offset",
        Width::One,
    );
    FramePointerProbes { function, context, bytecode_array, bytecode_offset }
}

/// What is known of the frame-pointer offsets once probed: a fact that the
/// target publishes under none of its names is unknown.
pub open spec fn frame_pointer_probed(symbols: Map<Seq<char>, u64>, v: FramePointer) -> bool {
    &&& (absent(symbols, "v8dbg_off_fp_function") ==> v.function == 0)
    &&& (absent(symbols, "v8dbg_off_fp_context") ==> v.context == 0)
    &&& (absent(symbols, "v8dbg_off_fp_bytecode_array") ==> v.bytecode_array == 0)
    &&& (absent(symbols, "v8dbg_off_fp_bytecode_offset") ==> v.bytecode_offset == 0)
}

/// Probes the frame-pointer offsets: the facts that the outcomes of probing
/// them come to.
pub fn probe_frame_pointer(process_info: &ProcessInfo, process: &Process) -> (v: FramePointer)
    ensures
        frame_pointer_probed(symbol_table(*process_info), v),
        exists|probes: FramePointerProbes| #[trigger]
            frame_pointer_outcomes(symbol_table(*process_info), probes) && v == probes.facts(),
{
    frame_pointer_of(read_frame_pointer(process_info, process))
}

/// What holds of the outcomes of probing the scope-info slot indices: each
/// fits the width of its fact, and was not found exactly when the target
/// lacks its symbol.
pub open spec fn scope_info_index_outcomes(
    symbols: Map<Seq<char>, u64>,
    probes: ScopeInfoIndexProbes,
) -> bool {
    &&& probes.first_vars.fits(Width::One)
    &&& (probes.first_vars == Probe::NotFound) == absent(symbols, "v8dbg_scopeinfo_idx_first_vars")
    &&& probes.ncontext_locals.fits(Width::One)
    &&& (probes.ncontext_locals == Probe::NotFound)
        == absent(symbols, "v8dbg_scopeinfo_idx_ncontextlocals")
}

/// Probes the scope-info slot indices and keeps the outcome of every name.
pub fn read_scope_info_index(
    process_info: &ProcessInfo,
    process: &Process,
) -> (probes: ScopeInfoIndexProbes)
    ensures
        scope_info_index_outcomes(symbol_table(*process_info), probes),
{
    proof {
        reveal_strlit("v8dbg_scopeinfo_idx_first_vars");
        lemma_outside_frame_types("v8dbg_scopeinfo_idx_first_vars"@);
        reveal_strlit("v8dbg_scopeinfo_idx_ncontextlocals");
        lemma_outside_frame_types("v8dbg_scopeinfo_idx_ncontextlocals"@);
    }
    let first_vars = read_memory(
        process_info,
        process,
        "v8dbg_scopeinfo_idx_first_vars",
        Width::One,
    );
    let ncontext_locals = read_memory(
        process_info,
        process,
        "v8dbg_scopeinfo_idx_ncontextlocals",
        Width::One,
    );
    ScopeInfoIndexProbes { first_vars, ncontext_locals }
}

/// What is known of the scope-info slot indices once probed: a fact that
/// the target publishes under none of its names is unknown.
pub open spec fn scope_info_index_probed(symbols: Map<Seq<char>, u64>, v: ScopeInfoIndex) -> bool {
    &&& (absent(symbols, "v8dbg_scopeinfo_idx_first_vars") ==> v.first_vars == 0)
    &&& (absent(symbols, "v8dbg_scopeinfo_idx_ncontextlocals") ==> v.ncontext_locals == 0)
}

/// Probes the scope-info slot indices: the facts that the outcomes of
/// probing them come to.
pub fn probe_scope_info_index(process_info: &ProcessInfo, process: &Process) -> (v: ScopeInfoIndex)
    ensures
        scope_info_index_probed(symbol_table(*process_info), v),
        exists|probes: ScopeInfoIndexProbes| #[trigger]
            scope_info_index_outcomes(symbol_table(*process_info), probes) && v == probes.facts(),
{
    scope_info_index_of(read_scope_info_index(process_info, process))
}

/// What holds of the outcomes of probing the deoptimization-data slot
/// indices: each fits the width of its fact, and was not found exactly when
/// the target lacks its symbol.
pub open spec fn deoptimization_data_index_outcomes(
    symbols: Map<Seq<char>, u64>,
    probes: DeoptimizationDataIndexProbes,
) -> bool {
    &&& probes.inlined_function_count.fits(Width::One)
    &&& (probes.inlined_function_count == Probe::NotFound)
        == absent(symbols, "v8dbg_DeoptimizationDataInlinedFunctionCountIndex")
    &&& probes.literal_array.fits(Width::One)
    &&& (probes.literal_array == Probe::NotFound)
        == absent(symbols, "v8dbg_DeoptimizationDataLiteralArrayIndex")
    &&& probes.shared_function_info.fits(Width::One)
    &&& (probes.shared_function_info == Probe::NotFound)
        == absent(symbols, "v8dbg_DeoptimizationDataSharedFunctionInfoIndex")
    &&& probes.inlining_positions.fits(Width::One)
    &&& (probes.inlining_positions == Probe::NotFound)
        == absent(symbols, "v8dbg_DeoptimizationDataInliningPositionsIndex")
}

/// Probes the deoptimization-data slot indices and keeps the outcome of
/// every name.
pub fn read_deoptimization_data_index(
    process_info: &ProcessInfo,
    process: &Process,
) -> (probes: DeoptimizationDataIndexProbes)
    ensures
        deoptimization_data_index_outcomes(symbol_table(*process_info), probes),
{
    proof {
        reveal_strlit("v8dbg_DeoptimizationDataInlinedFunctionCountIndex");
        lemma_outside_frame_types("v8dbg_DeoptimizationDataInlinedFunctionCountIndex"@);
        reveal_strlit("v8dbg_DeoptimizationDataLiteralArrayIndex");
        lemma_outside_frame_types("v8dbg_DeoptimizationDataLiteralArrayIndex"@);
        reveal_strlit("v8dbg_DeoptimizationDataSharedFunctionInfoIndex");
        lemma_outside_frame_types("v8dbg_DeoptimizationDataSharedFunctionInfoIndex"@);
        reveal_strlit("v8dbg_DeoptimizationDataInliningPositionsIndex");
        lemma_outside_frame_types("v8dbg_DeoptimizationDataInliningPositionsIndex"@);
    }
    let inlined_function_count = read_memory(
        process_info,
        process,
        "v8dbg_DeoptimizationDataInlinedFunctionCountIndex",
        Width::One,
    );
    let literal_array = read_memory(
        process_info,
        process,
        "v8dbg_DeoptimizationDataLiteralArrayIndex",
        Width::One,
    );
    let shared_function_info = read_memory(
        process_info,
        process,
        "v8dbg_DeoptimizationDataSharedFunctionInfoIndex",
        Width::One,
    );
    let inlining_positions = read_memory(
        process_info,
        process,
        "v8dbg_DeoptimizationDataInliningPositionsIndex",
        Width::One,
    );
    DeoptimizationDataIndexProbes {
        inlined_function_count,
        literal_array,
        shared_function_info,
        inlining_positions,
    }
}

/// What is known of the deoptimization-data slot indices once probed: a
/// fact that the target publishes under none of its names is unknown.
pub open spec fn deoptimization_data_index_probed(
    symbols: Map<Seq<char>, u64>,
    v: DeoptimizationDataIndex,
) -> bool {
    &&& (absent(symbols, "v8dbg_DeoptimizationDataInlinedFunctionCountIndex")
        ==> v.inlined_function_count == 0)
    &&& (absent(symbols, "v8dbg_DeoptimizationDataLiteralArrayIndex") ==> v.literal_array == 0)
    &&& (absent(symbols, "v8dbg_DeoptimizationDataSharedFunctionInfoIndex")
        ==> v.shared_function_info == 0)
    &&& (absent(symbols, "v8dbg_DeoptimizationDataInliningPositionsIndex")
        ==> v.inlining_positions == 0)
}

/// Probes the deoptimization-data slot indices: the facts that the outcomes
/// of probing them come to.
pub fn probe_deoptimization_data_index(
    process_info: &ProcessInfo,
    process: &Process,
) -> (v: DeoptimizationDataIndex)
    ensures
        deoptimization_data_index_probed(symbol_table(*process_info), v),
        exists|probes: DeoptimizationDataIndexProbes| #[trigger]
            deoptimization_data_index_outcomes(symbol_table(*process_info), probes)
                && v == probes.facts(),
{
    deoptimization_data_index_of(read_deoptimization_data_index(process_info, process))
}

/// What holds of the outcomes of probing the code-kind bit field: each fits
/// the width of its fact, and was not found exactly when the target lacks
/// its symbol.
pub open spec fn code_kind_outcomes(symbols: Map<Seq<char>, u64>, probes: CodeKindProbes) -> bool {
    &&& probes.field_mask.fits(Width::Four)
    &&& (probes.field_mask == Probe::NotFound) == absent(symbols, "v8dbg_CodeKindFieldMask")
    &&& probes.field_shift.fits(Width::One)
    &&& (probes.field_shift == Probe::NotFound) == absent(symbols, "v8dbg_CodeKindFieldShift")
    &&& probes.baseline.fits(Width::One)
    &&& (probes.baseline == Probe::NotFound) == absent(symbols, "v8dbg_CodeKindBaseline")
}

/// Probes the code-kind bit field and keeps the outcome of every name.
pub fn read_code_kind(process_info: &ProcessInfo, process: &Process) -> (probes: CodeKindProbes)
    ensures
        code_kind_outcomes(symbol_table(*process_info), probes),
{
    proof {
        reveal_strlit("v8dbg_CodeKindFieldMask");
        lemma_outside_frame_types("v8dbg_CodeKindFieldMask"@);
        reveal_strlit("v8dbg_CodeKindFieldShift");
        lemma_outside_frame_types("v8dbg_CodeKindFieldShift"@);
        reveal_strlit("v8dbg_CodeKindBaseline");
        lemma_outside_frame_types("v8dbg_CodeKindBaseline"@);
    }
    let field_mask = read_memory(process_info, process, "v8dbg_CodeKindFieldMask", Width::Four);
    let field_shift = read_memory(process_info, process, "v8dbg_CodeKindFieldShift", Width::One);
    let baseline = read_memory(process_info, process, "v8dbg_CodeKindBaseline", Width::One);
    CodeKindProbes { field_mask, field_shift, baseline }
}

/// What is known of the code-kind bit field once probed: a fact that the
/// target publishes under none of its names is unknown.
pub open spec fn code_kind_probed(symbols: Map<Seq<char>, u64>, v: CodeKind) -> bool {
    &&& (absent(symbols, "v8dbg_CodeKindFieldMask") ==> v.field_mask == 0)
    &&& (absent(symbols, "v8dbg_CodeKindFieldShift") ==> v.field_shift == 0)
    &&& (absent(symbols, "v8dbg_CodeKindBaseline") ==> v.baseline == 0)
}

/// Probes the code-kind bit field: the facts that the outcomes of probing
/// them come to.
pub fn probe_code_kind(process_info: &ProcessInfo, process: &Process) -> (v: CodeKind)
    ensures
        code_kind_probed(symbol_table(*process_info), v),
        exists|probes: CodeKindProbes| #[trigger]
            code_kind_outcomes(symbol_table(*process_info), probes) && v == probes.facts(),
{
    code_kind_of(read_code_kind(process_info, process))
}

/// What holds of the outcomes of probing the frame-type enumeration: each
/// was sought under its own name and fits one byte, and a frame type that
/// the target does not publish is resolved to the value that matches no
/// frame.
pub open spec fn frame_type_outcomes(
    symbols: Map<Seq<char>, u64>,
    probes: FrameTypeProbes,
) -> bool {
    &&& probes.arguments_adaptor_frame.fits(Width::One)
    &&& probes.arguments_adaptor_frame != Probe::NotFound
    &&& (absent(symbols, "v8dbg_frametype_ArgumentsAdaptorFrame")
        ==> probes.arguments_adaptor_frame == Probe::Found(0xff))
    &&& probes.baseline_frame.fits(Width::One)
    &&& probes.baseline_frame != Probe::NotFound
    &&& (absent(symbols, "v8dbg_frametype_BaselineFrame")
        ==> probes.baseline_frame == Probe::Found(0xff))
    &&& probes.builtin_continuation_frame.fits(Width::One)
    &&& probes.builtin_continuation_frame != Probe::NotFound
    &&& (absent(symbols, "v8dbg_frametype_BuiltinContinuationFrame")
        ==> probes.builtin_continuation_frame == Probe::Found(0xff))
    &&& probes.builtin_exit_frame.fits(Width::One)
    &&& probes.builtin_exit_frame != Probe::NotFound
    &&& (absent(symbols, "v8dbg_frametype_BuiltinExitFrame")
        ==> probes.builtin_exit_frame == Probe::Found(0xff))
    &&& probes.builtin_frame.fits(Width::One)
    &&& probes.builtin_frame != Probe::NotFound
    &&& (absent(symbols, "v8dbg_frametype_BuiltinFrame")
        ==> probes.builtin_frame == Probe::Found(0xff))
    &&& probes.cwasm_entry_frame.fits(Width::One)
    &&& probes.cwasm_entry_frame != Probe::NotFound
    &&& (absent(symbols, "v8dbg_frametype_CwasmEntryFrame")
        ==> probes.cwasm_entry_frame == Probe::Found(0xff))
    &&& probes.construct_entry_frame.fits(Width::One)
    &&& probes.construct_entry_frame != Probe::NotFound
    &&& (absent(symbols, "v8dbg_frametype_ConstructEntryFrame")
        ==> probes.construct_entry_frame == Probe::Found(0xff))
    &&& probes.construct_frame.fits(Width::One)
    &&& probes.construct_frame != Probe::NotFound
    &&& (absent(symbols, "v8dbg_frametype_ConstructFrame")
        ==> probes.construct_frame == Probe::Found(0xff))
    &&& probes.entry_frame.fits(Width::One)
    &&& probes.entry_frame != Probe::NotFound
    &&& (absent(symbols, "v8dbg_frametype_EntryFrame") ==> probes.entry_frame == Probe::Found(0xff))
    &&& probes.exit_frame.fits(Width::One)
    &&& probes.exit_frame != Probe::NotFound
    &&& (absent(symbols, "v8dbg_frametype_ExitFrame") ==> probes.exit_frame == Probe::Found(0xff))
    &&& probes.internal_frame.fits(Width::One)
    &&& probes.internal_frame != Probe::NotFound
    &&& (absent(symbols, "v8dbg_frametype_InternalFrame")
        ==> probes.internal_frame == Probe::Found(0xff))
    &&& probes.interpreted_frame.fits(Width::One)
    &&& probes.interpreted_frame != Probe::NotFound
    &&& (absent(symbols, "v8dbg_frametype_InterpretedFrame")
        ==> probes.interpreted_frame == Probe::Found(0xff))
    &&& probes.java_script_builtin_continuation_frame.fits(Width::One)
    &&& probes.java_script_builtin_continuation_frame != Probe::NotFound
    &&& (absent(symbols, "v8dbg_frametype_JavaScriptBuiltinContinuationFrame")
        ==> probes.java_script_builtin_continuation_frame == Probe::Found(0xff))
    &&& probes.java_script_builtin_continuation_with_catch_frame.fits(Width::One)
    &&& probes.java_script_builtin_continuation_with_catch_frame != Probe::NotFound
    &&& (absent(symbols, "v8dbg_frametype_JavaScriptBuiltinContinuationWithCatchFrame")
        ==> probes.java_script_builtin_continuation_with_catch_frame == Probe::Found(0xff))
    &&& probes.java_script_frame.fits(Width::One)
    &&& probes.java_script_frame != Probe::NotFound
    &&& (absent(symbols, "v8dbg_frametype_JavaScriptFrame")
        ==> probes.java_script_frame == Probe::Found(0xff))
    &&& probes.js_to_wasm_frame.fits(Width::One)
    &&& probes.js_to_wasm_frame != Probe::NotFound
    &&& (absent(symbols, "v8dbg_frametype_JsToWasmFrame")
        ==> probes.js_to_wasm_frame == Probe::Found(0xff))
    &&& probes.native_frame.fits(Width::One)
    &&& probes.native_frame != Probe::NotFound
    &&& (absent(symbols, "v8dbg_frametype_NativeFrame")
        ==> probes.native_frame == Probe::Found(0xff))
    &&& probes.optimized_frame.fits(Width::One)
    &&& probes.optimized_frame != Probe::NotFound
    &&& (absent(symbols, "v8dbg_frametype_OptimizedFrame")
        ==> probes.optimized_frame == Probe::Found(0xff))
    &&& probes.stub_frame.fits(Width::One)
    &&& probes.stub_frame != Probe::NotFound
    &&& (absent(symbols, "v8dbg_frametype_StubFrame") ==> probes.stub_frame == Probe::Found(0xff))
    &&& probes.wasm_compile_lazy_frame.fits(Width::One)
    &&& probes.wasm_compile_lazy_frame != Probe::NotFound
    &&& (absent(symbols, "v8dbg_frametype_WasmCompileLazyFrame")
        ==> probes.wasm_compile_lazy_frame == Probe::Found(0xff))
    &&& probes.wasm_compiled_frame.fits(Width::One)
    &&& probes.wasm_compiled_frame != Probe::NotFound
    &&& (absent(symbols, "v8dbg_frametype_WasmCompiledFrame")
        ==> probes.wasm_compiled_frame == Probe::Found(0xff))
    &&& probes.wasm_exit_frame.fits(Width::One)
    &&& probes.wasm_exit_frame != Probe::NotFound
    &&& (absent(symbols, "v8dbg_frametype_WasmExitFrame")
        ==> probes.wasm_exit_frame == Probe::Found(0xff))
    &&& probes.wasm_interpreter_entry_frame.fits(Width::One)
    &&& probes.wasm_interpreter_entry_frame != Probe::NotFound
    &&& (absent(symbols, "v8dbg_frametype_WasmInterpreterEntryFrame")
        ==> probes.wasm_interpreter_entry_frame == Probe::Found(0xff))
    &&& probes.wasm_to_js_frame.fits(Width::One)
    &&& probes.wasm_to_js_frame != Probe::NotFound
    &&& (absent(symbols, "v8dbg_frametype_WasmToJsFrame")
        ==> probes.wasm_to_js_frame == Probe::Found(0xff))
}

/// Probes the frame-type enumeration and keeps the outcome of every name.
pub fn read_frame_type(process_info: &ProcessInfo, process: &Process) -> (probes: FrameTypeProbes)
    ensures
        frame_type_outcomes(symbol_table(*process_info), probes),
{
    proof {
        reveal_strlit("v8dbg_frametype_");
        reveal_strlit("v8dbg_frametype_ArgumentsAdaptorFrame");
        assert("v8dbg_frametype_ArgumentsAdaptorFrame"@.subrange(0, 16) =~= "v8dbg_frametype_"@);
        reveal_strlit("v8dbg_frametype_BaselineFrame");
        assert("v8dbg_frametype_BaselineFrame"@.subrange(0, 16) =~= "v8dbg_frametype_"@);
        reveal_strlit("v8dbg_frametype_BuiltinContinuationFrame");
        assert("v8dbg_frametype_BuiltinContinuationFrame"@.subrange(0, 16) =~= "v8dbg_frametype_"@);
        reveal_strlit("v8dbg_frametype_BuiltinExitFrame");
        assert("v8dbg_frametype_BuiltinExitFrame"@.subrange(0, 16) =~= "v8dbg_frametype_"@);
        reveal_strlit("v8dbg_frametype_BuiltinFrame");
        assert("v8dbg_frametype_BuiltinFrame"@.subrange(0, 16) =~= "v8dbg_frametype_"@);
        reveal_strlit("v8dbg_frametype_CwasmEntryFrame");
        assert("v8dbg_frametype_CwasmEntryFrame"@.subrange(0, 16) =~= "v8dbg_frametype_"@);
        reveal_strlit("v8dbg_frametype_ConstructEntryFrame");
        assert("v8dbg_frametype_ConstructEntryFrame"@.subrange(0, 16) =~= "v8dbg_frametype_"@);
        reveal_strlit("v8dbg_frametype_ConstructFrame");
        assert("v8dbg_frametype_ConstructFrame"@.subrange(0, 16) =~= "v8dbg_frametype_"@);
        reveal_strlit("v8dbg_frametype_EntryFrame");
        assert("v8dbg_frametype_EntryFrame"@.subrange(0, 16) =~= "v8dbg_frametype_"@);
        reveal_strlit("v8dbg_frametype_ExitFrame");
        assert("v8dbg_frametype_ExitFrame"@.subrange(0, 16) =~= "v8dbg_frametype_"@);
        reveal_strlit("v8dbg_frametype_InternalFrame");
        assert("v8dbg_frametype_InternalFrame"@.subrange(0, 16) =~= "v8dbg_frametype_"@);
        reveal_strlit("v8dbg_frametype_InterpretedFrame");
        assert("v8dbg_frametype_InterpretedFrame"@.subrange(0, 16) =~= "v8dbg_frametype_"@);
        reveal_strlit("v8dbg_frametype_JavaScriptBuiltinContinuationFrame");
        assert("v8dbg_frametype_JavaScriptBuiltinContinuationFrame"@.subrange(0, 16)
            =~= "v8dbg_frametype_"@);
        reveal_strlit("v8dbg_frametype_JavaScriptBuiltinContinuationWithCatchFrame");
        assert("v8dbg_frametype_JavaScriptBuiltinContinuationWithCatchFrame"@.subrange(0, 16)
            =~= "v8dbg_frametype_"@);
        reveal_strlit("v8dbg_frametype_JavaScriptFrame");
        assert("v8dbg_frametype_JavaScriptFrame"@.subrange(0, 16) =~= "v8dbg_frametype_"@);
        reveal_strlit("v8dbg_frametype_JsToWasmFrame");
        assert("v8dbg_frametype_JsToWasmFrame"@.subrange(0, 16) =~= "v8dbg_frametype_"@);
        reveal_strlit("v8dbg_frametype_NativeFrame");
        assert("v8dbg_frametype_NativeFrame"@.subrange(0, 16) =~= "v8dbg_frametype_"@);
        reveal_strlit("v8dbg_frametype_OptimizedFrame");
        assert("v8dbg_frametype_OptimizedFrame"@.subrange(0, 16) =~= "v8dbg_frametype_"@);
        reveal_strlit("v8dbg_frametype_StubFrame");
        assert("v8dbg_frametype_StubFrame"@.subrange(0, 16) =~= "v8dbg_frametype_"@);
        reveal_strlit("v8dbg_frametype_WasmCompileLazyFrame");
        assert("v8dbg_frametype_WasmCompileLazyFrame"@.subrange(0, 16) =~= "v8dbg_frametype_"@);
        reveal_strlit("v8dbg_frametype_WasmCompiledFrame");
        assert("v8dbg_frametype_WasmCompiledFrame"@.subrange(0, 16) =~= "v8dbg_frametype_"@);
        reveal_strlit("v8dbg_frametype_WasmExitFrame");
        assert("v8dbg_frametype_WasmExitFrame"@.subrange(0, 16) =~= "v8dbg_frametype_"@);
        reveal_strlit("v8dbg_frametype_WasmInterpreterEntryFrame");
        assert("v8dbg_frametype_WasmInterpreterEntryFrame"@.subrange(0, 16)
            =~= "v8dbg_frametype_"@);
        reveal_strlit("v8dbg_frametype_WasmToJsFrame");
        assert("v8dbg_frametype_WasmToJsFrame"@.subrange(0, 16) =~= "v8dbg_frametype_"@);
    }
    let arguments_adaptor_frame = read_memory(
        process_info,
        process,
        "v8dbg_frametype_ArgumentsAdaptorFrame",
        Width::One,
    );
    let baseline_frame = read_memory(
        process_info,
        process,
        "v8dbg_frametype_BaselineFrame",
        Width::One,
    );
    let builtin_continuation_frame = read_memory(
        process_info,
        process,
        "v8dbg_frametype_BuiltinContinuationFrame",
        Width::One,
    );
    let builtin_exit_frame = read_memory(
        process_info,
        process,
        "v8dbg_frametype_BuiltinExitFrame",
        Width::One,
    );
    let builtin_frame = read_memory(
        process_info,
        process,
        "v8dbg_frametype_BuiltinFrame",
        Width::One,
    );
    let cwasm_entry_frame = read_memory(
        process_info,
        process,
        "v8dbg_frametype_CwasmEntryFrame",
        Width::One,
    );
    let construct_entry_frame = read_memory(
        process_info,
        process,
        "v8dbg_frametype_ConstructEntryFrame",
        Width::One,
    );
    let construct_frame = read_memory(
        process_info,
        process,
        "v8dbg_frametype_ConstructFrame",
        Width::One,
    );
    let entry_frame = read_memory(process_info, process, "v8dbg_frametype_EntryFrame", Width::One);
    let exit_frame = read_memory(process_info, process, "v8dbg_frametype_ExitFrame", Width::One);
    let internal_frame = read_memory(
        process_info,
        process,
        "v8dbg_frametype_InternalFrame",
        Width::One,
    );
    let interpreted_frame = read_memory(
        process_info,
        process,
        "v8dbg_frametype_InterpretedFrame",
        Width::One,
    );
    let java_script_builtin_continuation_frame = read_memory(
        process_info,
        process,
        "v8dbg_frametype_JavaScriptBuiltinContinuationFrame",
        Width::One,
    );
    let java_script_builtin_continuation_with_catch_frame = read_memory(
        process_info,
        process,
        "v8dbg_frametype_JavaScriptBuiltinContinuationWithCatchFrame",
        Width::One,
    );
    let java_script_frame = read_memory(
        process_info,
        process,
        "v8dbg_frametype_JavaScriptFrame",
        Width::One,
    );
    let js_to_wasm_frame = read_memory(
        process_info,
        process,
        "v8dbg_frametype_JsToWasmFrame",
        Width::One,
    );
    let native_frame = read_memory(
        process_info,
        process,
        "v8dbg_frametype_NativeFrame",
        Width::One,
    );
    let optimized_frame = read_memory(
        process_info,
        process,
        "v8dbg_frametype_OptimizedFrame",
        Width::One,
    );
    let stub_frame = read_memory(process_info, process, "v8dbg_frametype_StubFrame", Width::One);
    let wasm_compile_lazy_frame = read_memory(
        process_info,
        process,
        "v8dbg_frametype_WasmCompileLazyFrame",
        Width::One,
    );
    let wasm_compiled_frame = read_memory(
        process_info,
        process,
        "v8dbg_frametype_WasmCompiledFrame",
        Width::One,
    );
    let wasm_exit_frame = read_memory(
        process_info,
        process,
        "v8dbg_frametype_WasmExitFrame",
        Width::One,
    );
    let wasm_interpreter_entry_frame = read_memory(
        process_info,
        process,
        "v8dbg_frametype_WasmInterpreterEntryFrame",
        Width::One,
    );
    let wasm_to_js_frame = read_memory(
        process_info,
        process,
        "v8dbg_frametype_WasmToJsFrame",
        Width::One,
    );
    FrameTypeProbes {
        arguments_adaptor_frame,
        baseline_frame,
        builtin_continuation_frame,
        builtin_exit_frame,
        builtin_frame,
        cwasm_entry_frame,
        construct_entry_frame,
        construct_frame,
        entry_frame,
        exit_frame,
        internal_frame,
        interpreted_frame,
        java_script_builtin_continuation_frame,
        java_script_builtin_continuation_with_catch_frame,
        java_script_frame,
        js_to_wasm_frame,
        native_frame,
        optimized_frame,
        stub_frame,
        wasm_compile_lazy_frame,
        wasm_compiled_frame,
        wasm_exit_frame,
        wasm_interpreter_entry_frame,
        wasm_to_js_frame,
    }
}

/// What is known of the frame-type enumeration once probed: a frame type
/// that the target does not publish has the value that matches no frame.
pub open spec fn frame_type_probed(symbols: Map<Seq<char>, u64>, v: FrameType) -> bool {
    &&& (absent(symbols, "v8dbg_frametype_ArgumentsAdaptorFrame")
        ==> v.arguments_adaptor_frame == 0xff)
    &&& (absent(symbols, "v8dbg_frametype_BaselineFrame") ==> v.baseline_frame == 0xff)
    &&& (absent(symbols, "v8dbg_frametype_BuiltinContinuationFrame")
        ==> v.builtin_continuation_frame == 0xff)
    &&& (absent(symbols, "v8dbg_frametype_BuiltinExitFrame") ==> v.builtin_exit_frame == 0xff)
    &&& (absent(symbols, "v8dbg_frametype_BuiltinFrame") ==> v.builtin_frame == 0xff)
    &&& (absent(symbols, "v8dbg_frametype_CwasmEntryFrame") ==> v.cwasm_entry_frame == 0xff)
    &&& (absent(symbols, "v8dbg_frametype_ConstructEntryFrame") ==> v.construct_entry_frame == 0xff)
    &&& (absent(symbols, "v8dbg_frametype_ConstructFrame") ==> v.construct_frame == 0xff)
    &&& (absent(symbols, "v8dbg_frametype_EntryFrame") ==> v.entry_frame == 0xff)
    &&& (absent(symbols, "v8dbg_frametype_ExitFrame") ==> v.exit_frame == 0xff)
    &&& (absent(symbols, "v8dbg_frametype_InternalFrame") ==> v.internal_frame == 0xff)
    &&& (absent(symbols, "v8dbg_frametype_InterpretedFrame") ==> v.interpreted_frame == 0xff)
    &&& (absent(symbols, "v8dbg_frametype_JavaScriptBuiltinContinuationFrame")
        ==> v.java_script_builtin_continuation_frame == 0xff)
    &&& (absent(symbols, "v8dbg_frametype_JavaScriptBuiltinContinuationWithCatchFrame")
        ==> v.java_script_builtin_continuation_with_catch_frame == 0xff)
    &&& (absent(symbols, "v8dbg_frametype_JavaScriptFrame") ==> v.java_script_frame == 0xff)
    &&& (absent(symbols, "v8dbg_frametype_JsToWasmFrame") ==> v.js_to_wasm_frame == 0xff)
    &&& (absent(symbols, "v8dbg_frametype_NativeFrame") ==> v.native_frame == 0xff)
    &&& (absent(symbols, "v8dbg_frametype_OptimizedFrame") ==> v.optimized_frame == 0xff)
    &&& (absent(symbols, "v8dbg_frametype_StubFrame") ==> v.stub_frame == 0xff)
    &&& (absent(symbols, "v8dbg_frametype_WasmCompileLazyFrame")
        ==> v.wasm_compile_lazy_frame == 0xff)
    &&& (absent(symbols, "v8dbg_frametype_WasmCompiledFrame") ==> v.wasm_compiled_frame == 0xff)
    &&& (absent(symbols, "v8dbg_frametype_WasmExitFrame") ==> v.wasm_exit_frame == 0xff)
    &&& (absent(symbols, "v8dbg_frametype_WasmInterpreterEntryFrame")
        ==> v.wasm_interpreter_entry_frame == 0xff)
    &&& (absent(symbols, "v8dbg_frametype_WasmToJsFrame") ==> v.wasm_to_js_frame == 0xff)
}

/// Probes the frame-type enumeration: the facts that the outcomes of
/// probing them come to.
pub fn probe_frame_type(process_info: &ProcessInfo, process: &Process) -> (v: FrameType)
    ensures
        frame_type_probed(symbol_table(*process_info), v),
        exists|probes: FrameTypeProbes| #[trigger]
            frame_type_outcomes(symbol_table(*process_info), probes) && v == probes.facts(),
{
    frame_type_of(read_frame_type(process_info, process))
}

/// What holds of the outcomes of probing the instance-type codes: each fits
/// the width of its fact, and was not found exactly when the target lacks
/// its symbol.
pub open spec fn typ_outcomes(symbols: Map<Seq<char>, u64>, probes: TypeProbes) -> bool {
    &&& probes.baseline_data.fits(Width::Two)
    &&& (probes.baseline_data == Probe::NotFound)
        == absent(symbols, "v8dbg_type_BaselineData__BASELINE_DATA_TYPE")
    &&& probes.byte_array.fits(Width::Two)
    &&& (probes.byte_array == Probe::NotFound)
        == absent(symbols, "v8dbg_type_ByteArray__BYTE_ARRAY_TYPE")
    &&& probes.bytecode_array.fits(Width::Two)
    &&& (probes.bytecode_array == Probe::NotFound)
        == absent(symbols, "v8dbg_type_BytecodeArray__BYTECODE_ARRAY_TYPE")
    &&& probes.code.fits(Width::Two)
    &&& (probes.code == Probe::NotFound) == absent(symbols, "v8dbg_type_Code__CODE_TYPE")
    &&& probes.fixed_array.fits(Width::Two)
    &&& (probes.fixed_array == Probe::NotFound)
        == absent(symbols, "v8dbg_type_FixedArray__FIXED_ARRAY_TYPE")
    &&& probes.weak_fixed_array.fits(Width::Two)
    &&& (probes.weak_fixed_array == Probe::NotFound)
        == absent(symbols, "v8dbg_type_WeakFixedArray__WEAK_FIXED_ARRAY_TYPE")
    &&& probes.js_function.fits(Width::Two)
    &&& (probes.js_function == Probe::NotFound)
        == absent(symbols, "v8dbg_type_JSFunction__JS_FUNCTION_TYPE")
    &&& probes.map.fits(Width::Two)
    &&& (probes.map == Probe::NotFound) == absent(symbols, "v8dbg_type_Map__MAP_TYPE")
    &&& probes.script.fits(Width::Two)
    &&& (probes.script == Probe::NotFound) == absent(symbols, "v8dbg_type_Script__SCRIPT_TYPE")
    &&& probes.scope_info.fits(Width::Two)
    &&& (probes.scope_info == Probe::NotFound)
        == absent(symbols, "v8dbg_type_ScopeInfo__SCOPE_INFO_TYPE")
    &&& probes.shared_function_info.fits(Width::Two)
    &&& (probes.shared_function_info == Probe::NotFound)
        == absent(symbols, "v8dbg_type_SharedFunctionInfo__SHARED_FUNCTION_INFO_TYPE")
}

/// Probes the instance-type codes and keeps the outcome of every name.
pub fn read_typ(process_info: &ProcessInfo, process: &Process) -> (probes: TypeProbes)
    ensures
        typ_outcomes(symbol_table(*process_info), probes),
{
    proof {
        reveal_strlit("v8dbg_type_BaselineData__BASELINE_DATA_TYPE");
        lemma_outside_frame_types("v8dbg_type_BaselineData__BASELINE_DATA_TYPE"@);
        reveal_strlit("v8dbg_type_ByteArray__BYTE_ARRAY_TYPE");
        lemma_outside_frame_types("v8dbg_type_ByteArray__BYTE_ARRAY_TYPE"@);
        reveal_strlit("v8dbg_type_BytecodeArray__BYTECODE_ARRAY_TYPE");
        lemma_outside_frame_types("v8dbg_type_BytecodeArray__BYTECODE_ARRAY_TYPE"@);
        reveal_strlit("v8dbg_type_Code__CODE_TYPE");
        lemma_outside_frame_types("v8dbg_type_Code__CODE_TYPE"@);
        reveal_strlit("v8dbg_type_FixedArray__FIXED_ARRAY_TYPE");
        lemma_outside_frame_types("v8dbg_type_FixedArray__FIXED_ARRAY_TYPE"@);
        reveal_strlit("v8dbg_type_WeakFixedArray__WEAK_FIXED_ARRAY_TYPE");
        lemma_outside_frame_types("v8dbg_type_WeakFixedArray__WEAK_FIXED_ARRAY_TYPE"@);
        reveal_strlit("v8dbg_type_JSFunction__JS_FUNCTION_TYPE");
        lemma_outside_frame_types("v8dbg_type_JSFunction__JS_FUNCTION_TYPE"@);
        reveal_strlit("v8dbg_type_Map__MAP_TYPE");
        lemma_outside_frame_types("v8dbg_type_Map__MAP_TYPE"@);
        reveal_strlit("v8dbg_type_Script__SCRIPT_TYPE");
        lemma_outside_frame_types("v8dbg_type_Script__SCRIPT_TYPE"@);
        reveal_strlit("v8dbg_type_ScopeInfo__SCOPE_INFO_TYPE");
        lemma_outside_frame_types("v8dbg_type_ScopeInfo__SCOPE_INFO_TYPE"@);
        reveal_strlit("v8dbg_type_SharedFunctionInfo__SHARED_FUNCTION_INFO_TYPE");
        lemma_outside_frame_types("v8dbg_type_SharedFunctionInfo__SHARED_FUNCTION_INFO_TYPE"@);
    }
    let baseline_data = read_memory(
        process_info,
        process,
        "v8dbg_type_BaselineData__BASELINE_DATA_TYPE",
        Width::Two,
    );
    let byte_array = read_memory(
        process_info,
        process,
        "v8dbg_type_ByteArray__BYTE_ARRAY_TYPE",
        Width::Two,
    );
    let bytecode_array = read_memory(
        process_info,
        process,
        "v8dbg_type_BytecodeArray__BYTECODE_ARRAY_TYPE",
        Width::Two,
    );
    let code = read_memory(process_info, process, "v8dbg_type_Code__CODE_TYPE", Width::Two);
    let fixed_array = read_memory(
        process_info,
        process,
        "v8dbg_type_FixedArray__FIXED_ARRAY_TYPE",
        Width::Two,
    );
    let weak_fixed_array = read_memory(
        process_info,
        process,
        "v8dbg_type_WeakFixedArray__WEAK_FIXED_ARRAY_TYPE",
        Width::Two,
    );
    let js_function = read_memory(
        process_info,
        process,
        "v8dbg_type_JSFunction__JS_FUNCTION_TYPE",
        Width::Two,
    );
    let map = read_memory(process_info, process, "v8dbg_type_Map__MAP_TYPE", Width::Two);
    let script = read_memory(process_info, process, "v8dbg_type_Script__SCRIPT_TYPE", Width::Two);
    let scope_info = read_memory(
        process_info,
        process,
        "v8dbg_type_ScopeInfo__SCOPE_INFO_TYPE",
        Width::Two,
    );
    let shared_function_info = read_memory(
        process_info,
        process,
        "v8dbg_type_SharedFunctionInfo__SHARED_FUNCTION_INFO_TYPE",
        Width::Two,
    );
    TypeProbes {
        baseline_data,
        byte_array,
        bytecode_array,
        code,
        fixed_array,
        weak_fixed_array,
        js_function,
        map,
        script,
        scope_info,
        shared_function_info,
    }
}

/// What is known of the instance-type codes once probed: a fact that the
/// target publishes under none of its names is unknown.
pub open spec fn typ_probed(symbols: Map<Seq<char>, u64>, v: Type) -> bool {
    &&& (absent(symbols, "v8dbg_type_BaselineData__BASELINE_DATA_TYPE") ==> v.baseline_data == 0)
    &&& (absent(symbols, "v8dbg_type_ByteArray__BYTE_ARRAY_TYPE") ==> v.byte_array == 0)
    &&& (absent(symbols, "v8dbg_type_BytecodeArray__BYTECODE_ARRAY_TYPE") ==> v.bytecode_array == 0)
    &&& (absent(symbols, "v8dbg_type_Code__CODE_TYPE") ==> v.code == 0)
    &&& (absent(symbols, "v8dbg_type_FixedArray__FIXED_ARRAY_TYPE") ==> v.fixed_array == 0)
    &&& (absent(symbols, "v8dbg_type_WeakFixedArray__WEAK_FIXED_ARRAY_TYPE")
        ==> v.weak_fixed_array == 0)
    &&& (absent(symbols, "v8dbg_type_JSFunction__JS_FUNCTION_TYPE") ==> v.js_function == 0)
    &&& (absent(symbols, "v8dbg_type_Map__MAP_TYPE") ==> v.map == 0)
    &&& (absent(symbols, "v8dbg_type_Script__SCRIPT_TYPE") ==> v.script == 0)
    &&& (absent(symbols, "v8dbg_type_ScopeInfo__SCOPE_INFO_TYPE") ==> v.scope_info == 0)
    &&& (absent(symbols, "v8dbg_type_SharedFunctionInfo__SHARED_FUNCTION_INFO_TYPE")
        ==> v.shared_function_info == 0)
}

/// Probes the instance-type codes: the facts that the outcomes of probing
/// them come to.
pub fn probe_typ(process_info: &ProcessInfo, process: &Process) -> (v: Type)
    ensures
        typ_probed(symbol_table(*process_info), v),
        exists|probes: TypeProbes| #[trigger]
            typ_outcomes(symbol_table(*process_info), probes) && v == probes.facts(),
{
    typ_of(read_typ(process_info, process))
}

/// What holds of the outcomes of probing the offsets of the heap-object
/// header: each fits the width of its fact, and was not found exactly when
/// the target lacks its symbol.
pub open spec fn heap_object_outcomes(
    symbols: Map<Seq<char>, u64>,
    probes: HeapObjectProbes,
) -> bool {
    &&& probes.map.fits(Width::Two)
    &&& (probes.map == Probe::NotFound) == absent(symbols, "v8dbg_class_HeapObject__map__Map")
}

/// Probes the offsets of the heap-object header and keeps the outcome of
/// every name.
pub fn read_heap_object(process_info: &ProcessInfo, process: &Process) -> (probes: HeapObjectProbes)
    ensures
        heap_object_outcomes(symbol_table(*process_info), probes),
{
    proof {
        reveal_strlit("v8dbg_class_HeapObject__map__Map");
        lemma_outside_frame_types("v8dbg_class_HeapObject__map__Map"@);
    }
    let map = read_memory(process_info, process, "v8dbg_class_HeapObject__map__Map", Width::Two);
    HeapObjectProbes { map }
}

/// What is known of the offsets of the heap-object header once probed: a
/// fact that the target publishes under none of its names is unknown.
pub open spec fn heap_object_probed(symbols: Map<Seq<char>, u64>, v: HeapObject) -> bool {
    &&& (absent(symbols, "v8dbg_class_HeapObject__map__Map") ==> v.map == 0)
}

/// Probes the offsets of the heap-object header: the facts that the
/// outcomes of probing them come to.
pub fn probe_heap_object(process_info: &ProcessInfo, process: &Process) -> (v: HeapObject)
    ensures
        heap_object_probed(symbol_table(*process_info), v),
        exists|probes: HeapObjectProbes| #[trigger]
            heap_object_outcomes(symbol_table(*process_info), probes) && v == probes.facts(),
{
    heap_object_of(read_heap_object(process_info, process))
}

/// What holds of the outcomes of probing the offsets of a map: each fits
/// the width of its fact, and was not found exactly when the target lacks
/// its symbol.
pub open spec fn map_outcomes(symbols: Map<Seq<char>, u64>, probes: MapClassProbes) -> bool {
    &&& probes.instance_type.fits(Width::Two)
    &&& (probes.instance_type == Probe::NotFound)
        == absent(symbols, "v8dbg_class_Map__instance_type__uint16_t")
}

/// Probes the offsets of a map and keeps the outcome of every name.
pub fn read_map(process_info: &ProcessInfo, process: &Process) -> (probes: MapClassProbes)
    ensures
        map_outcomes(symbol_table(*process_info), probes),
{
    proof {
        reveal_strlit("v8dbg_class_Map__instance_type__uint16_t");
        lemma_outside_frame_types("v8dbg_class_Map__instance_type__uint16_t"@);
    }
    let instance_type = read_memory(
        process_info,
        process,
        "v8dbg_class_Map__instance_type__uint16_t",
        Width::Two,
    );
    MapClassProbes { instance_type }
}

/// What is known of the offsets of a map once probed: a fact that the
/// target publishes under none of its names is unknown.
pub open spec fn map_probed(symbols: Map<Seq<char>, u64>, v: MapClass) -> bool {
    &&& (absent(symbols, "v8dbg_class_Map__instance_type__uint16_t") ==> v.instance_type == 0)
}

/// Probes the offsets of a map: the facts that the outcomes of probing them
/// come to.
pub fn probe_map(process_info: &ProcessInfo, process: &Process) -> (v: MapClass)
    ensures
        map_probed(symbol_table(*process_info), v),
        exists|probes: MapClassProbes| #[trigger]
            map_outcomes(symbol_table(*process_info), probes) && v == probes.facts(),
{
    map_of(read_map(process_info, process))
}

/// What holds of the outcomes of probing the offsets common to fixed
/// arrays: each fits the width of its fact, and was not found exactly when
/// the target lacks its symbol.
pub open spec fn fixed_array_base_outcomes(
    symbols: Map<Seq<char>, u64>,
    probes: FixedArrayBaseProbes,
) -> bool {
    &&& probes.length.fits(Width::Two)
    &&& (probes.length == Probe::NotFound)
        == absent(symbols, "v8dbg_class_FixedArrayBase__length__SMI")
}

/// Probes the offsets common to fixed arrays and keeps the outcome of every
/// name.
pub fn read_fixed_array_base(
    process_info: &ProcessInfo,
    process: &Process,
) -> (probes: FixedArrayBaseProbes)
    ensures
        fixed_array_base_outcomes(symbol_table(*process_info), probes),
{
    proof {
        reveal_strlit("v8dbg_class_FixedArrayBase__length__SMI");
        lemma_outside_frame_types("v8dbg_class_FixedArrayBase__length__SMI"@);
    }
    let length = read_memory(
        process_info,
        process,
        "v8dbg_class_FixedArrayBase__length__SMI",
        Width::Two,
    );
    FixedArrayBaseProbes { length }
}

/// What is known of the offsets common to fixed arrays once probed: a fact
/// that the target publishes under none of its names is unknown.
pub open spec fn fixed_array_base_probed(symbols: Map<Seq<char>, u64>, v: FixedArrayBase) -> bool {
    &&& (absent(symbols, "v8dbg_class_FixedArrayBase__length__SMI") ==> v.length == 0)
}

/// Probes the offsets common to fixed arrays: the facts that the outcomes
/// of probing them come to.
pub fn probe_fixed_array_base(process_info: &ProcessInfo, process: &Process) -> (v: FixedArrayBase)
    ensures
        fixed_array_base_probed(symbol_table(*process_info), v),
        exists|probes: FixedArrayBaseProbes| #[trigger]
            fixed_array_base_outcomes(symbol_table(*process_info), probes) && v == probes.facts(),
{
    fixed_array_base_of(read_fixed_array_base(process_info, process))
}

/// What holds of the outcomes of probing the offsets of a fixed array: each
/// fits the width of its fact, and was not found exactly when the target
/// lacks its symbol.
pub open spec fn fixed_array_outcomes(
    symbols: Map<Seq<char>, u64>,
    probes: FixedArrayProbes,
) -> bool {
    &&& probes.data.fits(Width::Two)
    &&& (probes.data == Probe::NotFound)
        == absent(symbols, "v8dbg_class_FixedArray__data__uintptr_t")
}

/// Probes the offsets of a fixed array and keeps the outcome of every name.
pub fn read_fixed_array(process_info: &ProcessInfo, process: &Process) -> (probes: FixedArrayProbes)
    ensures
        fixed_array_outcomes(symbol_table(*process_info), probes),
{
    proof {
        reveal_strlit("v8dbg_class_FixedArray__data__uintptr_t");
        lemma_outside_frame_types("v8dbg_class_FixedArray__data__uintptr_t"@);
    }
    let data = read_memory(
        process_info,
        process,
        "v8dbg_class_FixedArray__data__uintptr_t",
        Width::Two,
    );
    FixedArrayProbes { data }
}

/// What is known of the offsets of a fixed array once probed: a fact that
/// the target publishes under none of its names is unknown.
pub open spec fn fixed_array_probed(symbols: Map<Seq<char>, u64>, v: FixedArray) -> bool {
    &&& (absent(symbols, "v8dbg_class_FixedArray__data__uintptr_t") ==> v.data == 0)
}

/// Probes the offsets of a fixed array: the facts that the outcomes of
/// probing them come to.
pub fn probe_fixed_array(process_info: &ProcessInfo, process: &Process) -> (v: FixedArray)
    ensures
        fixed_array_probed(symbol_table(*process_info), v),
        exists|probes: FixedArrayProbes| #[trigger]
            fixed_array_outcomes(symbol_table(*process_info), probes) && v == probes.facts(),
{
    fixed_array_of(read_fixed_array(process_info, process))
}

/// What holds of the outcomes of probing the offsets common to strings:
/// each fits the width of its fact, and was not found exactly when the
/// target lacks its symbol.
pub open spec fn string_outcomes(symbols: Map<Seq<char>, u64>, probes: StringClassProbes) -> bool {
    &&& probes.length.fits(Width::Two)
    &&& (probes.length == Probe::NotFound) == absent(symbols, "v8dbg_class_String__length__int32_t")
}

/// Probes the offsets common to strings and keeps the outcome of every
/// name.
pub fn read_string(process_info: &ProcessInfo, process: &Process) -> (probes: StringClassProbes)
    ensures
        string_outcomes(symbol_table(*process_info), probes),
{
    proof {
        reveal_strlit("v8dbg_class_String__length__int32_t");
        lemma_outside_frame_types("v8dbg_class_String__length__int32_t"@);
    }
    let length = read_memory(
        process_info,
        process,
        "v8dbg_class_String__length__int32_t",
        Width::Two,
    );
    StringClassProbes { length }
}

/// What is known of the offsets common to strings once probed: a fact that
/// the target publishes under none of its names is unknown.
pub open spec fn string_probed(symbols: Map<Seq<char>, u64>, v: StringClass) -> bool {
    &&& (absent(symbols, "v8dbg_class_String__length__int32_t") ==> v.length == 0)
}

/// Probes the offsets common to strings: the facts that the outcomes of
/// probing them come to.
pub fn probe_string(process_info: &ProcessInfo, process: &Process) -> (v: StringClass)
    ensures
        string_probed(symbol_table(*process_info), v),
        exists|probes: StringClassProbes| #[trigger]
            string_outcomes(symbol_table(*process_info), probes) && v == probes.facts(),
{
    string_of(read_string(process_info, process))
}

/// What holds of the outcomes of probing the offsets of a sequential
/// one-byte string: each fits the width of its fact, and was not found
/// exactly when the target lacks its symbol.
pub open spec fn seq_one_byte_string_outcomes(
    symbols: Map<Seq<char>, u64>,
    probes: SeqOneByteStringProbes,
) -> bool {
    &&& probes.chars.fits(Width::Two)
    &&& (probes.chars == Probe::NotFound)
        == absent(symbols, "v8dbg_class_SeqOneByteString__chars__char")
}

/// Probes the offsets of a sequential one-byte string and keeps the outcome
/// of every name.
pub fn read_seq_one_byte_string(
    process_info: &ProcessInfo,
    process: &Process,
) -> (probes: SeqOneByteStringProbes)
    ensures
        seq_one_byte_string_outcomes(symbol_table(*process_info), probes),
{
    proof {
        reveal_strlit("v8dbg_class_SeqOneByteString__chars__char");
        lemma_outside_frame_types("v8dbg_class_SeqOneByteString__chars__char"@);
    }
    let chars = read_memory(
        process_info,
        process,
        "v8dbg_class_SeqOneByteString__chars__char",
        Width::Two,
    );
    SeqOneByteStringProbes { chars }
}

/// What is known of the offsets of a sequential one-byte string once
/// probed: a fact that the target publishes under none of its names is
/// unknown.
pub open spec fn seq_one_byte_string_probed(
    symbols: Map<Seq<char>, u64>,
    v: SeqOneByteString,
) -> bool {
    &&& (absent(symbols, "v8dbg_class_SeqOneByteString__chars__char") ==> v.chars == 0)
}

/// Probes the offsets of a sequential one-byte string: the facts that the
/// outcomes of probing them come to.
pub fn probe_seq_one_byte_string(
    process_info: &ProcessInfo,
    process: &Process,
) -> (v: SeqOneByteString)
    ensures
        seq_one_byte_string_probed(symbol_table(*process_info), v),
        exists|probes: SeqOneByteStringProbes| #[trigger]
            seq_one_byte_string_outcomes(symbol_table(*process_info), probes)
                && v == probes.facts(),
{
    seq_one_byte_string_of(read_seq_one_byte_string(process_info, process))
}

/// What holds of the outcomes of probing the offsets of a sequential
/// two-byte string: each fits the width of its fact, and was not found
/// exactly when the target lacks its symbol.
pub open spec fn seq_two_byte_string_outcomes(
    symbols: Map<Seq<char>, u64>,
    probes: SeqTwoByteStringProbes,
) -> bool {
    &&& probes.chars.fits(Width::Two)
    &&& (probes.chars == Probe::NotFound)
        == absent(symbols, "v8dbg_class_SeqTwoByteString__chars__char")
}

/// Probes the offsets of a sequential two-byte string and keeps the outcome
/// of every name.
pub fn read_seq_two_byte_string(
    process_info: &ProcessInfo,
    process: &Process,
) -> (probes: SeqTwoByteStringProbes)
    ensures
        seq_two_byte_string_outcomes(symbol_table(*process_info), probes),
{
    proof {
        reveal_strlit("v8dbg_class_SeqTwoByteString__chars__char");
        lemma_outside_frame_types("v8dbg_class_SeqTwoByteString__chars__char"@);
    }
    let chars = read_memory(
        process_info,
        process,
        "v8dbg_class_SeqTwoByteString__chars__char",
        Width::Two,
    );
    SeqTwoByteStringProbes { chars }
}

/// What is known of the offsets of a sequential two-byte string once
/// probed: a fact that the target publishes under none of its names is
/// unknown.
pub open spec fn seq_two_byte_string_probed(
    symbols: Map<Seq<char>, u64>,
    v: SeqTwoByteString,
) -> bool {
    &&& (absent(symbols, "v8dbg_class_SeqTwoByteString__chars__char") ==> v.chars == 0)
}

/// Probes the offsets of a sequential two-byte string: the facts that the
/// outcomes of probing them come to.
pub fn probe_seq_two_byte_string(
    process_info: &ProcessInfo,
    process: &Process,
) -> (v: SeqTwoByteString)
    ensures
        seq_two_byte_string_probed(symbol_table(*process_info), v),
        exists|probes: SeqTwoByteStringProbes| #[trigger]
            seq_two_byte_string_outcomes(symbol_table(*process_info), probes)
                && v == probes.facts(),
{
    seq_two_byte_string_of(read_seq_two_byte_string(process_info, process))
}

/// What holds of the outcomes of probing the offsets of a cons string: each
/// fits the width of its fact, and was not found exactly when the target
/// lacks its symbol.
pub open spec fn cons_string_outcomes(
    symbols: Map<Seq<char>, u64>,
    probes: ConsStringProbes,
) -> bool {
    &&& probes.first.fits(Width::Two)
    &&& (probes.first == Probe::NotFound)
        == absent(symbols, "v8dbg_class_ConsString__first__String")
    &&& probes.second.fits(Width::Two)
    &&& (probes.second == Probe::NotFound)
        == absent(symbols, "v8dbg_class_ConsString__second__String")
}

/// Probes the offsets of a cons string and keeps the outcome of every name.
pub fn read_cons_string(process_info: &ProcessInfo, process: &Process) -> (probes: ConsStringProbes)
    ensures
        cons_string_outcomes(symbol_table(*process_info), probes),
{
    proof {
        reveal_strlit("v8dbg_class_ConsString__first__String");
        lemma_outside_frame_types("v8dbg_class_ConsString__first__String"@);
        reveal_strlit("v8dbg_class_ConsString__second__String");
        lemma_outside_frame_types("v8dbg_class_ConsString__second__String"@);
    }
    let first = read_memory(
        process_info,
        process,
        "v8dbg_class_ConsString__first__String",
        Width::Two,
    );
    let second = read_memory(
        process_info,
        process,
        "v8dbg_class_ConsString__second__String",
        Width::Two,
    );
    ConsStringProbes { first, second }
}

/// What is known of the offsets of a cons string once probed: a fact that
/// the target publishes under none of its names is unknown.
pub open spec fn cons_string_probed(symbols: Map<Seq<char>, u64>, v: ConsString) -> bool {
    &&& (absent(symbols, "v8dbg_class_ConsString__first__String") ==> v.first == 0)
    &&& (absent(symbols, "v8dbg_class_ConsString__second__String") ==> v.second == 0)
}

/// Probes the offsets of a cons string: the facts that the outcomes of
/// probing them come to.
pub fn probe_cons_string(process_info: &ProcessInfo, process: &Process) -> (v: ConsString)
    ensures
        cons_string_probed(symbol_table(*process_info), v),
        exists|probes: ConsStringProbes| #[trigger]
            cons_string_outcomes(symbol_table(*process_info), probes) && v == probes.facts(),
{
    cons_string_of(read_cons_string(process_info, process))
}

/// What holds of the outcomes of probing the offsets of a thin string: each
/// fits the width of its fact, and was not found exactly when the target
/// lacks its symbol.
pub open spec fn thin_string_outcomes(
    symbols: Map<Seq<char>, u64>,
    probes: ThinStringProbes,
) -> bool {
    &&& probes.actual.fits(Width::Two)
    &&& (probes.actual == Probe::NotFound)
        == absent(symbols, "v8dbg_class_ThinString__actual__String")
}

/// Probes the offsets of a thin string and keeps the outcome of every name.
pub fn read_thin_string(process_info: &ProcessInfo, process: &Process) -> (probes: ThinStringProbes)
    ensures
        thin_string_outcomes(symbol_table(*process_info), probes),
{
    proof {
        reveal_strlit("v8dbg_class_ThinString__actual__String");
        lemma_outside_frame_types("v8dbg_class_ThinString__actual__String"@);
    }
    let actual = read_memory(
        process_info,
        process,
        "v8dbg_class_ThinString__actual__String",
        Width::Two,
    );
    ThinStringProbes { actual }
}

/// What is known of the offsets of a thin string once probed: a fact that
/// the target publishes under none of its names is unknown.
pub open spec fn thin_string_probed(symbols: Map<Seq<char>, u64>, v: ThinString) -> bool {
    &&& (absent(symbols, "v8dbg_class_ThinString__actual__String") ==> v.actual == 0)
}

/// Probes the offsets of a thin string: the facts that the outcomes of
/// probing them come to.
pub fn probe_thin_string(process_info: &ProcessInfo, process: &Process) -> (v: ThinString)
    ensures
        thin_string_probed(symbol_table(*process_info), v),
        exists|probes: ThinStringProbes| #[trigger]
            thin_string_outcomes(symbol_table(*process_info), probes) && v == probes.facts(),
{
    thin_string_of(read_thin_string(process_info, process))
}

/// What holds of the outcomes of probing the offsets of a function object:
/// each fits the width of its fact; the first name of a fact was not found
/// exactly when the target lacks it; a later name was not found exactly
/// when the target lacks it or an earlier name had resolved the fact.
pub open spec fn jsfunction_outcomes(
    symbols: Map<Seq<char>, u64>,
    probes: JSFunctionProbes,
) -> bool {
    &&& probes.code.fits(Width::Two)
    &&& (probes.code == Probe::NotFound) == absent(symbols, "v8dbg_class_JSFunction__code__Code")
    &&& probes.code_tagged.fits(Width::Two)
    &&& (probes.code_tagged == Probe::NotFound) == (probes.code is Found
        || absent(symbols, "v8dbg_class_JSFunction__code__Tagged_Code_"))
    &&& probes.shared_function_info.fits(Width::Two)
    &&& (probes.shared_function_info == Probe::NotFound)
        == absent(symbols, "v8dbg_class_JSFunction__shared__SharedFunctionInfo")
}

/// Probes the offsets of a function object and keeps the outcome of every
/// name. A later name of a fact is tried only where no earlier one has
/// resolved the fact.
pub fn read_jsfunction(process_info: &ProcessInfo, process: &Process) -> (probes: JSFunctionProbes)
    ensures
        jsfunction_outcomes(symbol_table(*process_info), probes),
{
    proof {
        reveal_strlit("v8dbg_class_JSFunction__code__Code");
        lemma_outside_frame_types("v8dbg_class_JSFunction__code__Code"@);
        reveal_strlit("v8dbg_class_JSFunction__code__Tagged_Code_");
        lemma_outside_frame_types("v8dbg_class_JSFunction__code__Tagged_Code_"@);
        reveal_strlit("v8dbg_class_JSFunction__shared__SharedFunctionInfo");
        lemma_outside_frame_types("v8dbg_class_JSFunction__shared__SharedFunctionInfo"@);
    }
    let code = read_memory(process_info, process, "v8dbg_class_JSFunction__code__Code", Width::Two);
    let code_tagged = read_unless_found(
        process_info,
        process,
        code,
        "v8dbg_class_JSFunction__code__Tagged_Code_",
        Width::Two,
    );
    let shared_function_info = read_memory(
        process_info,
        process,
        "v8dbg_class_JSFunction__shared__SharedFunctionInfo",
        Width::Two,
    );
    JSFunctionProbes { code, code_tagged, shared_function_info }
}

/// What is known of the offsets of a function object once probed: a fact
/// that the target publishes under none of its names is unknown.
pub open spec fn jsfunction_probed(symbols: Map<Seq<char>, u64>, v: JSFunction) -> bool {
    &&& (absent(symbols, "v8dbg_class_JSFunction__code__Code")
        && absent(symbols, "v8dbg_class_JSFunction__code__Tagged_Code_")
        ==> v.code == 0)
    &&& (absent(symbols, "v8dbg_class_JSFunction__shared__SharedFunctionInfo")
        ==> v.shared_function_info == 0)
}

/// Probes the offsets of a function object: the facts that the outcomes of
/// probing them come to.
pub fn probe_jsfunction(process_info: &ProcessInfo, process: &Process) -> (v: JSFunction)
    ensures
        jsfunction_probed(symbol_table(*process_info), v),
        exists|probes: JSFunctionProbes| #[trigger]
            jsfunction_outcomes(symbol_table(*process_info), probes) && v == probes.facts(),
{
    jsfunction_of(read_jsfunction(process_info, process))
}

/// What holds of the outcomes of probing the offsets of a compiled-code
/// object: each fits the width of its fact; the first name of a fact was
/// not found exactly when the target lacks it; a later name was not found
/// exactly when the target lacks it or an earlier name had resolved the
/// fact.
pub open spec fn code_outcomes(symbols: Map<Seq<char>, u64>, probes: CodeProbes) -> bool {
    &&& probes.deoptimization_data.fits(Width::Two)
    &&& (probes.deoptimization_data == Probe::NotFound)
        == absent(symbols, "v8dbg_class_Code__deoptimization_data__FixedArray")
    &&& probes.deoptimization_data_tagged.fits(Width::Two)
    &&& (probes.deoptimization_data_tagged == Probe::NotFound)
        == (probes.deoptimization_data is Found
        || absent(symbols, "v8dbg_class_Code__deoptimization_data__Tagged_FixedArray_"))
    &&& probes.source_position_table.fits(Width::Two)
    &&& (probes.source_position_table == Probe::NotFound)
        == absent(symbols, "v8dbg_class_Code__source_position_table__ByteArray")
    &&& probes.source_position_table_tagged.fits(Width::Two)
    &&& (probes.source_position_table_tagged == Probe::NotFound)
        == (probes.source_position_table is Found
        || absent(symbols, "v8dbg_class_Code__source_position_table__Tagged_ByteArray_"))
    &&& probes.instruction_start.fits(Width::Two)
    &&& (probes.instruction_start == Probe::NotFound)
        == absent(symbols, "v8dbg_class_Code__instruction_start__uintptr_t")
    &&& probes.instruction_start_address.fits(Width::Two)
    &&& (probes.instruction_start_address == Probe::NotFound) == (probes.instruction_start is Found
        || absent(symbols, "v8dbg_class_Code__instruction_start__Address"))
    &&& probes.instruction_size.fits(Width::Two)
    &&& (probes.instruction_size == Probe::NotFound)
        == absent(symbols, "v8dbg_class_Code__instruction_size__int")
    &&& probes.flags.fits(Width::Two)
    &&& (probes.flags == Probe::NotFound) == absent(symbols, "v8dbg_class_Code__flags__uint32_t")
}

/// Probes the offsets of a compiled-code object and keeps the outcome of
/// every name. A later name of a fact is tried only where no earlier one
/// has resolved the fact.
pub fn read_code(process_info: &ProcessInfo, process: &Process) -> (probes: CodeProbes)
    ensures
        code_outcomes(symbol_table(*process_info), probes),
{
    proof {
        reveal_strlit("v8dbg_class_Code__deoptimization_data__FixedArray");
        lemma_outside_frame_types("v8dbg_class_Code__deoptimization_data__FixedArray"@);
        reveal_strlit("v8dbg_class_Code__deoptimization_data__Tagged_FixedArray_");
        lemma_outside_frame_types("v8dbg_class_Code__deoptimization_data__Tagged_FixedArray_"@);
        reveal_strlit("v8dbg_class_Code__source_position_table__ByteArray");
        lemma_outside_frame_types("v8dbg_class_Code__source_position_table__ByteArray"@);
        reveal_strlit("v8dbg_class_Code__source_position_table__Tagged_ByteArray_");
        lemma_outside_frame_types("v8dbg_class_Code__source_position_table__Tagged_ByteArray_"@);
        reveal_strlit("v8dbg_class_Code__instruction_start__uintptr_t");
        lemma_outside_frame_types("v8dbg_class_Code__instruction_start__uintptr_t"@);
        reveal_strlit("v8dbg_class_Code__instruction_start__Address");
        lemma_outside_frame_types("v8dbg_class_Code__instruction_start__Address"@);
        reveal_strlit("v8dbg_class_Code__instruction_size__int");
        lemma_outside_frame_types("v8dbg_class_Code__instruction_size__int"@);
        reveal_strlit("v8dbg_class_Code__flags__uint32_t");
        lemma_outside_frame_types("v8dbg_class_Code__flags__uint32_t"@);
    }
    let deoptimization_data = read_memory(
        process_info,
        process,
        "v8dbg_class_Code__deoptimization_data__FixedArray",
        Width::Two,
    );
    let deoptimization_data_tagged = read_unless_found(
        process_info,
        process,
        deoptimization_data,
        "v8dbg_class_Code__deoptimization_data__Tagged_FixedArray_",
        Width::Two,
    );
    let source_position_table = read_memory(
        process_info,
        process,
        "v8dbg_class_Code__source_position_table__ByteArray",
        Width::Two,
    );
    let source_position_table_tagged = read_unless_found(
        process_info,
        process,
        source_position_table,
        "v8dbg_class_Code__source_position_table__Tagged_ByteArray_",
        Width::Two,
    );
    let instruction_start = read_memory(
        process_info,
        process,
        "v8dbg_class_Code__instruction_start__uintptr_t",
        Width::Two,
    );
    let instruction_start_address = read_unless_found(
        process_info,
        process,
        instruction_start,
        "v8dbg_class_Code__instruction_start__Address",
        Width::Two,
    );
    let instruction_size = read_memory(
        process_info,
        process,
        "v8dbg_class_Code__instruction_size__int",
        Width::Two,
    );
    let flags = read_memory(process_info, process, "v8dbg_class_Code__flags__uint32_t", Width::Two);
    CodeProbes {
        deoptimization_data,
        deoptimization_data_tagged,
        source_position_table,
        source_position_table_tagged,
        instruction_start,
        instruction_start_address,
        instruction_size,
        flags,
    }
}

/// What is known of the offsets of a compiled-code object once probed: a
/// fact that the target publishes under none of its names is unknown.
pub open spec fn code_probed(symbols: Map<Seq<char>, u64>, v: Code) -> bool {
    &&& (absent(symbols, "v8dbg_class_Code__deoptimization_data__FixedArray")
        && absent(symbols, "v8dbg_class_Code__deoptimization_data__Tagged_FixedArray_")
        ==> v.deoptimization_data == 0)
    &&& (absent(symbols, "v8dbg_class_Code__source_position_table__ByteArray")
        && absent(symbols, "v8dbg_class_Code__source_position_table__Tagged_ByteArray_")
        ==> v.source_position_table == 0)
    &&& (absent(symbols, "v8dbg_class_Code__instruction_start__uintptr_t")
        && absent(symbols, "v8dbg_class_Code__instruction_start__Address")
        ==> v.instruction_start == 0)
    &&& (absent(symbols, "v8dbg_class_Code__instruction_size__int") ==> v.instruction_size == 0)
    &&& (absent(symbols, "v8dbg_class_Code__flags__uint32_t") ==> v.flags == 0)
}

/// Probes the offsets of a compiled-code object: the facts that the
/// outcomes of probing them come to.
pub fn probe_code(process_info: &ProcessInfo, process: &Process) -> (v: Code)
    ensures
        code_probed(symbol_table(*process_info), v),
        exists|probes: CodeProbes| #[trigger]
            code_outcomes(symbol_table(*process_info), probes) && v == probes.facts(),
{
    code_of(read_code(process_info, process))
}

/// What holds of the outcomes of probing the offsets of a
/// shared-function-info object: each fits the width of its fact; the first
/// name of a fact was not found exactly when the target lacks it; a later
/// name was not found exactly when the target lacks it or an earlier name
/// had resolved the fact.
pub open spec fn shared_function_info_outcomes(
    symbols: Map<Seq<char>, u64>,
    probes: SharedFunctionInfoProbes,
) -> bool {
    &&& probes.name_or_scope_info.fits(Width::Two)
    &&& (probes.name_or_scope_info == Probe::NotFound)
        == absent(symbols, "v8dbg_class_SharedFunctionInfo__name_or_scope_info__Object")
    &&& probes.name_or_scope_info_tagged.fits(Width::Two)
    &&& (probes.name_or_scope_info_tagged == Probe::NotFound) == (probes.name_or_scope_info is Found
        || absent(
            symbols,
            "v8dbg_class_SharedFunctionInfo__name_or_scope_info__Tagged_Object_",
        ))
    &&& probes.function_data.fits(Width::Two)
    &&& (probes.function_data == Probe::NotFound)
        == absent(symbols, "v8dbg_class_SharedFunctionInfo__function_data__Object")
    &&& probes.function_data_tagged.fits(Width::Two)
    &&& (probes.function_data_tagged == Probe::NotFound) == (probes.function_data is Found
        || absent(symbols, "v8dbg_class_SharedFunctionInfo__function_data__Tagged_Object_"))
    &&& probes.script_or_debug_info.fits(Width::Two)
    &&& (probes.script_or_debug_info == Probe::NotFound)
        == absent(symbols, "v8dbg_class_SharedFunctionInfo__script_or_debug_info__Object")
    &&& probes.script_or_debug_info_heap_object.fits(Width::Two)
    &&& (probes.script_or_debug_info_heap_object == Probe::NotFound)
        == (probes.script_or_debug_info is Found
        || absent(
            symbols,
            "v8dbg_class_SharedFunctionInfo__script_or_debug_info__HeapObject",
        ))
    &&& probes.script_or_debug_info_tagged.fits(Width::Two)
    &&& (probes.script_or_debug_info_tagged == Probe::NotFound)
        == (probes.script_or_debug_info is Found
        || probes.script_or_debug_info_heap_object is Found
        || absent(
            symbols,
            "v8dbg_class_SharedFunctionInfo__script_or_debug_info__Tagged_HeapObject_",
        ))
}

/// Probes the offsets of a shared-function-info object and keeps the
/// outcome of every name. A later name of a fact is tried only where no
/// earlier one has resolved the fact.
pub fn read_shared_function_info(
    process_info: &ProcessInfo,
    process: &Process,
) -> (probes: SharedFunctionInfoProbes)
    ensures
        shared_function_info_outcomes(symbol_table(*process_info), probes),
{
    proof {
        reveal_strlit("v8dbg_class_SharedFunctionInfo__name_or_scope_info__Object");
        lemma_outside_frame_types("v8dbg_class_SharedFunctionInfo__name_or_scope_info__Object"@);
        reveal_strlit("v8dbg_class_SharedFunctionInfo__name_or_scope_info__Tagged_Object_");
        lemma_outside_frame_types(
            "v8dbg_class_SharedFunctionInfo__name_or_scope_info__Tagged_Object_"@,
        );
        reveal_strlit("v8dbg_class_SharedFunctionInfo__function_data__Object");
        lemma_outside_frame_types("v8dbg_class_SharedFunctionInfo__function_data__Object"@);
        reveal_strlit("v8dbg_class_SharedFunctionInfo__function_data__Tagged_Object_");
        lemma_outside_frame_types("v8dbg_class_SharedFunctionInfo__function_data__Tagged_Object_"@);
        reveal_strlit("v8dbg_class_SharedFunctionInfo__script_or_debug_info__Object");
        lemma_outside_frame_types("v8dbg_class_SharedFunctionInfo__script_or_debug_info__Object"@);
        reveal_strlit("v8dbg_class_SharedFunctionInfo__script_or_debug_info__HeapObject");
        lemma_outside_frame_types(
            "v8dbg_class_SharedFunctionInfo__script_or_debug_info__HeapObject"@,
        );
        reveal_strlit("v8dbg_class_SharedFunctionInfo__script_or_debug_info__Tagged_HeapObject_");
        lemma_outside_frame_types(
            "v8dbg_class_SharedFunctionInfo__script_or_debug_info__Tagged_HeapObject_"@,
        );
    }
    let name_or_scope_info = read_memory(
        process_info,
        process,
        "v8dbg_class_SharedFunctionInfo__name_or_scope_info__Object",
        Width::Two,
    );
    let name_or_scope_info_tagged = read_unless_found(
        process_info,
        process,
        name_or_scope_info,
        "v8dbg_class_SharedFunctionInfo__name_or_scope_info__Tagged_Object_",
        Width::Two,
    );
    let function_data = read_memory(
        process_info,
        process,
        "v8dbg_class_SharedFunctionInfo__function_data__Object",
        Width::Two,
    );
    let function_data_tagged = read_unless_found(
        process_info,
        process,
        function_data,
        "v8dbg_class_SharedFunctionInfo__function_data__Tagged_Object_",
        Width::Two,
    );
    let script_or_debug_info = read_memory(
        process_info,
        process,
        "v8dbg_class_SharedFunctionInfo__script_or_debug_info__Object",
        Width::Two,
    );
    let script_or_debug_info_heap_object = read_unless_found(
        process_info,
        process,
        script_or_debug_info,
        "v8dbg_class_SharedFunctionInfo__script_or_debug_info__HeapObject",
        Width::Two,
    );
    let script_or_debug_info_tagged = read_unless_found(
        process_info,
        process,
        pick_first(script_or_debug_info, script_or_debug_info_heap_object),
        "v8dbg_class_SharedFunctionInfo__script_or_debug_info__Tagged_HeapObject_",
        Width::Two,
    );
    SharedFunctionInfoProbes {
        name_or_scope_info,
        name_or_scope_info_tagged,
        function_data,
        function_data_tagged,
        script_or_debug_info,
        script_or_debug_info_heap_object,
        script_or_debug_info_tagged,
    }
}

/// What is known of the offsets of a shared-function-info object once
/// probed: a fact that the target publishes under none of its names is
/// unknown.
pub open spec fn shared_function_info_probed(
    symbols: Map<Seq<char>, u64>,
    v: SharedFunctionInfo,
) -> bool {
    &&& (absent(symbols, "v8dbg_class_SharedFunctionInfo__name_or_scope_info__Object")
        && absent(
            symbols,
            "v8dbg_class_SharedFunctionInfo__name_or_scope_info__Tagged_Object_",
        )
        ==> v.name_or_scope_info == 0)
    &&& (absent(symbols, "v8dbg_class_SharedFunctionInfo__function_data__Object")
        && absent(symbols, "v8dbg_class_SharedFunctionInfo__function_data__Tagged_Object_")
        ==> v.function_data == 0)
    &&& (absent(symbols, "v8dbg_class_SharedFunctionInfo__script_or_debug_info__Object")
        && absent(
            symbols,
            "v8dbg_class_SharedFunctionInfo__script_or_debug_info__HeapObject",
        )
        && absent(
            symbols,
            "v8dbg_class_SharedFunctionInfo__script_or_debug_info__Tagged_HeapObject_",
        )
        ==> v.script_or_debug_info == 0)
}

/// Probes the offsets of a shared-function-info object: the facts that the
/// outcomes of probing them come to.
pub fn probe_shared_function_info(
    process_info: &ProcessInfo,
    process: &Process,
) -> (v: SharedFunctionInfo)
    ensures
        shared_function_info_probed(symbol_table(*process_info), v),
        exists|probes: SharedFunctionInfoProbes| #[trigger]
            shared_function_info_outcomes(symbol_table(*process_info), probes)
                && v == probes.facts(),
{
    shared_function_info_of(read_shared_function_info(process_info, process))
}

/// What holds of the outcomes of probing the offsets of a baseline-data
/// object: each fits the width of its fact, and was not found exactly when
/// the target lacks its symbol.
pub open spec fn baseline_data_outcomes(
    symbols: Map<Seq<char>, u64>,
    probes: BaselineDataProbes,
) -> bool {
    &&& probes.data.fits(Width::Two)
    &&& (probes.data == Probe::NotFound)
        == absent(symbols, "v8dbg_class_BaselineData__data__Object")
}

/// Probes the offsets of a baseline-data object and keeps the outcome of
/// every name.
pub fn read_baseline_data(
    process_info: &ProcessInfo,
    process: &Process,
) -> (probes: BaselineDataProbes)
    ensures
        baseline_data_outcomes(symbol_table(*process_info), probes),
{
    proof {
        reveal_strlit("v8dbg_class_BaselineData__data__Object");
        lemma_outside_frame_types("v8dbg_class_BaselineData__data__Object"@);
    }
    let data = read_memory(
        process_info,
        process,
        "v8dbg_class_BaselineData__data__Object",
        Width::Two,
    );
    BaselineDataProbes { data }
}

/// What is known of the offsets of a baseline-data object once probed: a
/// fact that the target publishes under none of its names is unknown.
pub open spec fn baseline_data_probed(symbols: Map<Seq<char>, u64>, v: BaselineData) -> bool {
    &&& (absent(symbols, "v8dbg_class_BaselineData__data__Object") ==> v.data == 0)
}

/// Probes the offsets of a baseline-data object: the facts that the
/// outcomes of probing them come to.
pub fn probe_baseline_data(process_info: &ProcessInfo, process: &Process) -> (v: BaselineData)
    ensures
        baseline_data_probed(symbol_table(*process_info), v),
        exists|probes: BaselineDataProbes| #[trigger]
            baseline_data_outcomes(symbol_table(*process_info), probes) && v == probes.facts(),
{
    baseline_data_of(read_baseline_data(process_info, process))
}

/// What holds of the outcomes of probing the offsets of a bytecode array:
/// each fits the width of its fact; the first name of a fact was not found
/// exactly when the target lacks it; a later name was not found exactly
/// when the target lacks it or an earlier name had resolved the fact.
pub open spec fn bytecode_array_outcomes(
    symbols: Map<Seq<char>, u64>,
    probes: BytecodeArrayProbes,
) -> bool {
    &&& probes.source_position_table.fits(Width::Two)
    &&& (probes.source_position_table == Probe::NotFound)
        == absent(symbols, "v8dbg_class_BytecodeArray__source_position_table__Object")
    &&& probes.source_position_table_tagged.fits(Width::Two)
    &&& (probes.source_position_table_tagged == Probe::NotFound)
        == (probes.source_position_table is Found
        || absent(
            symbols,
            "v8dbg_class_BytecodeArray__source_position_table__Tagged_HeapObject_",
        ))
    &&& probes.data.fits(Width::Two)
    &&& (probes.data == Probe::NotFound)
        == absent(symbols, "v8dbg_class_BytecodeArray__data__uintptr_t")
}

/// Probes the offsets of a bytecode array and keeps the outcome of every
/// name. A later name of a fact is tried only where no earlier one has
/// resolved the fact.
pub fn read_bytecode_array(
    process_info: &ProcessInfo,
    process: &Process,
) -> (probes: BytecodeArrayProbes)
    ensures
        bytecode_array_outcomes(symbol_table(*process_info), probes),
{
    proof {
        reveal_strlit("v8dbg_class_BytecodeArray__source_position_table__Object");
        lemma_outside_frame_types("v8dbg_class_BytecodeArray__source_position_table__Object"@);
        reveal_strlit("v8dbg_class_BytecodeArray__source_position_table__Tagged_HeapObject_");
        lemma_outside_frame_types(
            "v8dbg_class_BytecodeArray__source_position_table__Tagged_HeapObject_"@,
        );
        reveal_strlit("v8dbg_class_BytecodeArray__data__uintptr_t");
        lemma_outside_frame_types("v8dbg_class_BytecodeArray__data__uintptr_t"@);
    }
    let source_position_table = read_memory(
        process_info,
        process,
        "v8dbg_class_BytecodeArray__source_position_table__Object",
        Width::Two,
    );
    let source_position_table_tagged = read_unless_found(
        process_info,
        process,
        source_position_table,
        "v8dbg_class_BytecodeArray__source_position_table__Tagged_HeapObject_",
        Width::Two,
    );
    let data = read_memory(
        process_info,
        process,
        "v8dbg_class_BytecodeArray__data__uintptr_t",
        Width::Two,
    );
    BytecodeArrayProbes { source_position_table, source_position_table_tagged, data }
}

/// What is known of the offsets of a bytecode array once probed: a fact
/// that the target publishes under none of its names is unknown.
pub open spec fn bytecode_array_probed(symbols: Map<Seq<char>, u64>, v: BytecodeArray) -> bool {
    &&& (absent(symbols, "v8dbg_class_BytecodeArray__source_position_table__Object")
        && absent(
            symbols,
            "v8dbg_class_BytecodeArray__source_position_table__Tagged_HeapObject_",
        )
        ==> v.source_position_table == 0)
    &&& (absent(symbols, "v8dbg_class_BytecodeArray__data__uintptr_t") ==> v.data == 0)
}

/// Probes the offsets of a bytecode array: the facts that the outcomes of
/// probing them come to.
pub fn probe_bytecode_array(process_info: &ProcessInfo, process: &Process) -> (v: BytecodeArray)
    ensures
        bytecode_array_probed(symbol_table(*process_info), v),
        exists|probes: BytecodeArrayProbes| #[trigger]
            bytecode_array_outcomes(symbol_table(*process_info), probes) && v == probes.facts(),
{
    bytecode_array_of(read_bytecode_array(process_info, process))
}

/// What is known of the marker that tells whether a scope-info object is a
/// plain heap object: it is set exactly when the target has the marker
/// symbol.
pub open spec fn scope_info_probed(symbols: Map<Seq<char>, u64>, v: ScopeInfo) -> bool {
    &&& v.heap_object == !absent(symbols, "v8dbg_parent_ScopeInfo__HeapObject")
}

/// Looks for the marker that tells whether a scope-info object is a plain
/// heap object.
pub fn probe_scope_info(process_info: &ProcessInfo) -> (v: ScopeInfo)
    ensures
        scope_info_probed(symbol_table(*process_info), v),
{
    let heap_object: bool = has_symbol(process_info, "v8dbg_parent_ScopeInfo__HeapObject");
    ScopeInfo { heap_object }
}

/// What is known of the marker that tells whether a deoptimization-literal
/// array is a weak fixed array: it is set exactly when the target has the
/// marker symbol.
pub open spec fn deoptimization_literal_array_probed(
    symbols: Map<Seq<char>, u64>,
    v: DeoptimizationLiteralArray,
) -> bool {
    &&& v.weak_fixed_array == !absent(
        symbols,
        "v8dbg_parent_DeoptimizationLiteralArray__WeakFixedArray",
    )
}

/// Looks for the marker that tells whether a deoptimization-literal array
/// is a weak fixed array.
pub fn probe_deoptimization_literal_array(process_info: &ProcessInfo) -> (v:
    DeoptimizationLiteralArray)
    ensures
        deoptimization_literal_array_probed(symbol_table(*process_info), v),
{
    let weak_fixed_array: bool = has_symbol(
        process_info,
        "v8dbg_parent_DeoptimizationLiteralArray__WeakFixedArray",
    );
    DeoptimizationLiteralArray { weak_fixed_array }
}

/// What holds of the outcomes of probing the offsets of a script object:
/// each fits the width of its fact, and was not found exactly when the
/// target lacks its symbol.
pub open spec fn script_outcomes(symbols: Map<Seq<char>, u64>, probes: ScriptProbes) -> bool {
    &&& probes.name.fits(Width::Two)
    &&& (probes.name == Probe::NotFound) == absent(symbols, "v8dbg_class_Script__name__Object")
    &&& probes.line_ends.fits(Width::Two)
    &&& (probes.line_ends == Probe::NotFound)
        == absent(symbols, "v8dbg_class_Script__line_ends__Object")
    &&& probes.source.fits(Width::Two)
    &&& (probes.source == Probe::NotFound) == absent(symbols, "v8dbg_class_Script__source__Object")
}

/// Probes the offsets of a script object and keeps the outcome of every
/// name.
pub fn read_script(process_info: &ProcessInfo, process: &Process) -> (probes: ScriptProbes)
    ensures
        script_outcomes(symbol_table(*process_info), probes),
{
    proof {
        reveal_strlit("v8dbg_class_Script__name__Object");
        lemma_outside_frame_types("v8dbg_class_Script__name__Object"@);
        reveal_strlit("v8dbg_class_Script__line_ends__Object");
        lemma_outside_frame_types("v8dbg_class_Script__line_ends__Object"@);
        reveal_strlit("v8dbg_class_Script__source__Object");
        lemma_outside_frame_types("v8dbg_class_Script__source__Object"@);
    }
    let name = read_memory(process_info, process, "v8dbg_class_Script__name__Object", Width::Two);
    let line_ends = read_memory(
        process_info,
        process,
        "v8dbg_class_Script__line_ends__Object",
        Width::Two,
    );
    let source = read_memory(
        process_info,
        process,
        "v8dbg_class_Script__source__Object",
        Width::Two,
    );
    ScriptProbes { name, line_ends, source }
}

/// What is known of the offsets of a script object once probed: a fact that
/// the target publishes under none of its names is unknown.
pub open spec fn script_probed(symbols: Map<Seq<char>, u64>, v: Script) -> bool {
    &&& (absent(symbols, "v8dbg_class_Script__name__Object") ==> v.name == 0)
    &&& (absent(symbols, "v8dbg_class_Script__line_ends__Object") ==> v.line_ends == 0)
    &&& (absent(symbols, "v8dbg_class_Script__source__Object") ==> v.source == 0)
}

/// Probes the offsets of a script object: the facts that the outcomes of
/// probing them come to.
pub fn probe_script(process_info: &ProcessInfo, process: &Process) -> (v: Script)
    ensures
        script_probed(symbol_table(*process_info), v),
        exists|probes: ScriptProbes| #[trigger]
            script_outcomes(symbol_table(*process_info), probes) && v == probes.facts(),
{
    script_of(read_script(process_info, process))
}

/// What holds of the outcomes of probing the whole catalogue: what holds of
/// those of each group, and each marker is set exactly when the target has
/// its symbol.
pub open spec fn catalogue_outcomes(
    symbols: Map<Seq<char>, u64>,
    probes: CatalogueProbes,
) -> bool {
    &&& fixed_outcomes(symbols, probes.fixed)
    &&& frame_pointer_outcomes(symbols, probes.frame_pointer)
    &&& scope_info_index_outcomes(symbols, probes.scope_info_index)
    &&& deoptimization_data_index_outcomes(symbols, probes.deoptimization_data_index)
    &&& code_kind_outcomes(symbols, probes.code_kind)
    &&& frame_type_outcomes(symbols, probes.frame_type)
    &&& typ_outcomes(symbols, probes.typ)
    &&& heap_object_outcomes(symbols, probes.heap_object)
    &&& map_outcomes(symbols, probes.map)
    &&& fixed_array_base_outcomes(symbols, probes.fixed_array_base)
    &&& fixed_array_outcomes(symbols, probes.fixed_array)
    &&& string_outcomes(symbols, probes.string)
    &&& seq_one_byte_string_outcomes(symbols, probes.seq_one_byte_string)
    &&& seq_two_byte_string_outcomes(symbols, probes.seq_two_byte_string)
    &&& cons_string_outcomes(symbols, probes.cons_string)
    &&& thin_string_outcomes(symbols, probes.thin_string)
    &&& jsfunction_outcomes(symbols, probes.jsfunction)
    &&& code_outcomes(symbols, probes.code)
    &&& shared_function_info_outcomes(symbols, probes.shared_function_info)
    &&& baseline_data_outcomes(symbols, probes.baseline_data)
    &&& bytecode_array_outcomes(symbols, probes.bytecode_array)
    &&& scope_info_probed(symbols, probes.scope_info)
    &&& deoptimization_literal_array_probed(symbols, probes.deoptimization_literal_array)
    &&& script_outcomes(symbols, probes.script)
}

/// Probes the whole catalogue, name by name, and keeps every outcome. An
/// outcome that is no value does not stop the probing.
pub fn read_catalogue(process_info: &ProcessInfo, process: &Process) -> (probes: CatalogueProbes)
    ensures
        catalogue_outcomes(symbol_table(*process_info), probes),
{
    CatalogueProbes {
        fixed: read_fixed(process_info, process),
        frame_pointer: read_frame_pointer(process_info, process),
        scope_info_index: read_scope_info_index(process_info, process),
        deoptimization_data_index: read_deoptimization_data_index(process_info, process),
        code_kind: read_code_kind(process_info, process),
        frame_type: read_frame_type(process_info, process),
        typ: read_typ(process_info, process),
        heap_object: read_heap_object(process_info, process),
        map: read_map(process_info, process),
        fixed_array_base: read_fixed_array_base(process_info, process),
        fixed_array: read_fixed_array(process_info, process),
        string: read_string(process_info, process),
        seq_one_byte_string: read_seq_one_byte_string(process_info, process),
        seq_two_byte_string: read_seq_two_byte_string(process_info, process),
        cons_string: read_cons_string(process_info, process),
        thin_string: read_thin_string(process_info, process),
        jsfunction: read_jsfunction(process_info, process),
        code: read_code(process_info, process),
        shared_function_info: read_shared_function_info(process_info, process),
        baseline_data: read_baseline_data(process_info, process),
        bytecode_array: read_bytecode_array(process_info, process),
        scope_info: probe_scope_info(process_info),
        deoptimization_literal_array: probe_deoptimization_literal_array(process_info),
        script: read_script(process_info, process),
    }
}

/// What is known of a catalogue once probed: the value of each fact that
/// the target publishes under none of its names, and the two markers.
pub open spec fn catalogue_probed(symbols: Map<Seq<char>, u64>, data: VMData) -> bool {
    &&& fixed_probed(symbols, data.fixed)
    &&& frame_pointer_probed(symbols, data.frame_pointer)
    &&& scope_info_index_probed(symbols, data.scope_info_index)
    &&& deoptimization_data_index_probed(symbols, data.deoptimization_data_index)
    &&& code_kind_probed(symbols, data.code_kind)
    &&& frame_type_probed(symbols, data.frame_type)
    &&& typ_probed(symbols, data.typ)
    &&& heap_object_probed(symbols, data.heap_object)
    &&& map_probed(symbols, data.map)
    &&& fixed_array_base_probed(symbols, data.fixed_array_base)
    &&& fixed_array_probed(symbols, data.fixed_array)
    &&& string_probed(symbols, data.string)
    &&& seq_one_byte_string_probed(symbols, data.seq_one_byte_string)
    &&& seq_two_byte_string_probed(symbols, data.seq_two_byte_string)
    &&& cons_string_probed(symbols, data.cons_string)
    &&& thin_string_probed(symbols, data.thin_string)
    &&& jsfunction_probed(symbols, data.jsfunction)
    &&& code_probed(symbols, data.code)
    &&& shared_function_info_probed(symbols, data.shared_function_info)
    &&& baseline_data_probed(symbols, data.baseline_data)
    &&& bytecode_array_probed(symbols, data.bytecode_array)
    &&& scope_info_probed(symbols, data.scope_info)
    &&& deoptimization_literal_array_probed(symbols, data.deoptimization_literal_array)
    &&& script_probed(symbols, data.script)
}

/// Whether `data` is the catalogue that some outcomes of probing a target
/// with these symbols come to.
pub open spec fn catalogue_read(symbols: Map<Seq<char>, u64>, data: VMData) -> bool {
    exists|probes: CatalogueProbes| #[trigger]
        catalogue_outcomes(symbols, probes) && data == probes.facts()
}

/// Outcomes of probing a target fix the catalogue they come to wherever the
/// target lacks every name of a fact.
pub proof fn lemma_outcomes_fix_absent_facts(symbols: Map<Seq<char>, u64>, probes: CatalogueProbes)
    requires
        catalogue_outcomes(symbols, probes),
    ensures
        catalogue_probed(symbols, probes.facts()),
{
}

/// Probes the whole catalogue, fact by fact, and makes the catalogue of the
/// outcomes. A fact that cannot be resolved is left unknown, and the
/// probing goes on with the next.
pub fn get_v8_data(process_info: &ProcessInfo, process: &Process) -> (data: VMData)
    ensures
        catalogue_read(symbol_table(*process_info), data),
        catalogue_probed(symbol_table(*process_info), data),
{
    let probes = read_catalogue(process_info, process);
    proof {
        lemma_outcomes_fix_absent_facts(symbol_table(*process_info), probes);
    }
    catalogue_of(probes)
}

} // verus!
