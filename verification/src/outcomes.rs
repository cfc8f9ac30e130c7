//! What probing the target gave, fact by fact, and the catalogue that
//! these outcomes come to.
//!
//! An outcome is kept for every symbol name. A fact that engines have
//! published under several names takes the value of the first name that
//! resolved it, and a fact that no name resolved is zero, that is unknown.
//! A name that was not tried because an earlier one had resolved the fact
//! counts as not found.

use vstd::prelude::*;
use crate::layout::{
    BaselineData, BytecodeArray, Code, CodeKind, ConsString, DeoptimizationDataIndex,
    DeoptimizationLiteralArray, Fixed, FixedArray, FixedArrayBase, FramePointer, FrameType,
    HeapObject, JSFunction, MapClass, ScopeInfo, ScopeInfoIndex, Script, SeqOneByteString,
    SeqTwoByteString, SharedFunctionInfo, StringClass, ThinString, Type, VMData,
};
use crate::probe::{first_found, pick_first, Probe};

verus! {

/// The outcomes of probing the tag, mask and shift constants, one for each
/// symbol name.
#[derive(Clone, Copy, Debug, PartialEq, Eq)]
pub struct FixedProbes {
    pub heap_object_tag_mask: Probe,
    pub smi_tag_mask: Probe,
    pub heap_object_tag: Probe,
    pub smi_tag: Probe,
    pub smi_shift_size: Probe,
    pub first_nonstring_type: Probe,
    pub string_encoding_mask: Probe,
    pub string_representation_mask: Probe,
    pub seq_string_tag: Probe,
    pub cons_string_tag: Probe,
    pub one_byte_string_tag: Probe,
    pub two_byte_string_tag: Probe,
    pub sliced_string_tag: Probe,
    pub thin_string_tag: Probe,
    pub first_jsfunction_type: Probe,
    pub last_jsfunction_type: Probe,
}

impl FixedProbes {
    /// The facts that these outcomes come to: each the value that was found
    /// under the first of its names that resolved it, in the width of the
    /// fact, or zero.
    pub open spec fn facts(self) -> Fixed {
        Fixed {
            heap_object_tag_mask: self.heap_object_tag_mask.spec_value(),
            smi_tag_mask: self.smi_tag_mask.spec_value(),
            heap_object_tag: self.heap_object_tag.spec_value() as u16,
            smi_tag: self.smi_tag.spec_value() as u16,
            smi_shift_size: self.smi_shift_size.spec_value() as u16,
            first_nonstring_type: self.first_nonstring_type.spec_value() as u16,
            string_encoding_mask: self.string_encoding_mask.spec_value() as u16,
            string_representation_mask: self.string_representation_mask.spec_value() as u16,
            seq_string_tag: self.seq_string_tag.spec_value() as u16,
            cons_string_tag: self.cons_string_tag.spec_value() as u16,
            one_byte_string_tag: self.one_byte_string_tag.spec_value() as u16,
            two_byte_string_tag: self.two_byte_string_tag.spec_value() as u16,
            sliced_string_tag: self.sliced_string_tag.spec_value() as u16,
            thin_string_tag: self.thin_string_tag.spec_value() as u16,
            first_jsfunction_type: self.first_jsfunction_type.spec_value() as u16,
            last_jsfunction_type: self.last_jsfunction_type.spec_value() as u16,
        }
    }
}

/// Makes the tag, mask and shift constants of the outcomes of probing them.
pub fn fixed_of(probes: FixedProbes) -> (v: Fixed)
    ensures
        v == probes.facts(),
{
    let heap_object_tag_mask: u32 = probes.heap_object_tag_mask.value();
    let smi_tag_mask: u32 = probes.smi_tag_mask.value();
    let heap_object_tag: u16 = probes.heap_object_tag.value() as u16;
    let smi_tag: u16 = probes.smi_tag.value() as u16;
    let smi_shift_size: u16 = probes.smi_shift_size.value() as u16;
    let first_nonstring_type: u16 = probes.first_nonstring_type.value() as u16;
    let string_encoding_mask: u16 = probes.string_encoding_mask.value() as u16;
    let string_representation_mask: u16 = probes.string_representation_mask.value() as u16;
    let seq_string_tag: u16 = probes.seq_string_tag.value() as u16;
    let cons_string_tag: u16 = probes.cons_string_tag.value() as u16;
    let one_byte_string_tag: u16 = probes.one_byte_string_tag.value() as u16;
    let two_byte_string_tag: u16 = probes.two_byte_string_tag.value() as u16;
    let sliced_string_tag: u16 = probes.sliced_string_tag.value() as u16;
    let thin_string_tag: u16 = probes.thin_string_tag.value() as u16;
    let first_jsfunction_type: u16 = probes.first_jsfunction_type.value() as u16;
    let last_jsfunction_type: u16 = probes.last_jsfunction_type.value() as u16;
    Fixed {
        heap_object_tag_mask,
        smi_tag_mask,
        heap_object_tag,
        smi_tag,
        smi_shift_size,
        first_nonstring_type,
        string_encoding_mask,
        string_representation_mask,
        seq_string_tag,
        cons_string_tag,
        one_byte_string_tag,
        two_byte_string_tag,
        sliced_string_tag,
        thin_string_tag,
        first_jsfunction_type,
        last_jsfunction_type,
    }
}

/// The outcomes of probing the frame-pointer offsets, one for each symbol
/// name.
#[derive(Clone, Copy, Debug, PartialEq, Eq)]
pub struct FramePointerProbes {
    pub function: Probe,
    pub context: Probe,
    pub bytecode_array: Probe,
    pub bytecode_offset: Probe,
}

impl FramePointerProbes {
    /// The facts that these outcomes come to: each the value that was found
    /// under the first of its names that resolved it, in the width of the
    /// fact, or zero.
    pub open spec fn facts(self) -> FramePointer {
        FramePointer {
            function: self.function.spec_value() as u8,
            context: self.context.spec_value() as u8,
            bytecode_array: self.bytecode_array.spec_value() as u8,
            bytecode_offset: self.bytecode_offset.spec_value() as u8,
        }
    }
}

/// Makes the frame-pointer offsets of the outcomes of probing them.
pub fn frame_pointer_of(probes: FramePointerProbes) -> (v: FramePointer)
    ensures
        v == probes.facts(),
{
    let function: u8 = probes.function.value() as u8;
    let context: u8 = probes.context.value() as u8;
    let bytecode_array: u8 = probes.bytecode_array.value() as u8;
    let bytecode_offset: u8 = probes.bytecode_offset.value() as u8;
    FramePointer { function, context, bytecode_array, bytecode_offset }
}

/// The outcomes of probing the scope-info slot indices, one for each symbol
/// name.
#[derive(Clone, Copy, Debug, PartialEq, Eq)]
pub struct ScopeInfoIndexProbes {
    pub first_vars: Probe,
    pub ncontext_locals: Probe,
}

impl ScopeInfoIndexProbes {
    /// The facts that these outcomes come to: each the value that was found
    /// under the first of its names that resolved it, in the width of the
    /// fact, or zero.
    pub open spec fn facts(self) -> ScopeInfoIndex {
        ScopeInfoIndex {
            first_vars: self.first_vars.spec_value() as u8,
            ncontext_locals: self.ncontext_locals.spec_value() as u8,
        }
    }
}

/// Makes the scope-info slot indices of the outcomes of probing them.
pub fn scope_info_index_of(probes: ScopeInfoIndexProbes) -> (v: ScopeInfoIndex)
    ensures
        v == probes.facts(),
{
    let first_vars: u8 = probes.first_vars.value() as u8;
    let ncontext_locals: u8 = probes.ncontext_locals.value() as u8;
    ScopeInfoIndex { first_vars, ncontext_locals }
}

/// The outcomes of probing the deoptimization-data slot indices, one for
/// each symbol name.
#[derive(Clone, Copy, Debug, PartialEq, Eq)]
pub struct DeoptimizationDataIndexProbes {
    pub inlined_function_count: Probe,
    pub literal_array: Probe,
    pub shared_function_info: Probe,
    pub inlining_positions: Probe,
}

impl DeoptimizationDataIndexProbes {
    /// The facts that these outcomes come to: each the value that was found
    /// under the first of its names that resolved it, in the width of the
    /// fact, or zero.
    pub open spec fn facts(self) -> DeoptimizationDataIndex {
        DeoptimizationDataIndex {
            inlined_function_count: self.inlined_function_count.spec_value() as u8,
            literal_array: self.literal_array.spec_value() as u8,
            shared_function_info: self.shared_function_info.spec_value() as u8,
            inlining_positions: self.inlining_positions.spec_value() as u8,
        }
    }
}

/// Makes the deoptimization-data slot indices of the outcomes of probing
/// them.
pub fn deoptimization_data_index_of(probes: DeoptimizationDataIndexProbes) -> (v:
    DeoptimizationDataIndex)
    ensures
        v == probes.facts(),
{
    let inlined_function_count: u8 = probes.inlined_function_count.value() as u8;
    let literal_array: u8 = probes.literal_array.value() as u8;
    let shared_function_info: u8 = probes.shared_function_info.value() as u8;
    let inlining_positions: u8 = probes.inlining_positions.value() as u8;
    DeoptimizationDataIndex {
        inlined_function_count,
        literal_array,
        shared_function_info,
        inlining_positions,
    }
}

/// The outcomes of probing the code-kind bit field, one for each symbol
/// name.
#[derive(Clone, Copy, Debug, PartialEq, Eq)]
pub struct CodeKindProbes {
    pub field_mask: Probe,
    pub field_shift: Probe,
    pub baseline: Probe,
}

impl CodeKindProbes {
    /// The facts that these outcomes come to: each the value that was found
    /// under the first of its names that resolved it, in the width of the
    /// fact, or zero.
    pub open spec fn facts(self) -> CodeKind {
        CodeKind {
            field_mask: self.field_mask.spec_value(),
            field_shift: self.field_shift.spec_value() as u8,
            baseline: self.baseline.spec_value() as u8,
        }
    }
}

/// Makes the code-kind bit field of the outcomes of probing them.
pub fn code_kind_of(probes: CodeKindProbes) -> (v: CodeKind)
    ensures
        v == probes.facts(),
{
    let field_mask: u32 = probes.field_mask.value();
    let field_shift: u8 = probes.field_shift.value() as u8;
    let baseline: u8 = probes.baseline.value() as u8;
    CodeKind { field_mask, field_shift, baseline }
}

/// The outcomes of probing the frame-type enumeration, one for each symbol
/// name.
#[derive(Clone, Copy, Debug, PartialEq, Eq)]
pub struct FrameTypeProbes {
    pub arguments_adaptor_frame: Probe,
    pub baseline_frame: Probe,
    pub builtin_continuation_frame: Probe,
    pub builtin_exit_frame: Probe,
    pub builtin_frame: Probe,
    pub cwasm_entry_frame: Probe,
    pub construct_entry_frame: Probe,
    pub construct_frame: Probe,
    pub entry_frame: Probe,
    pub exit_frame: Probe,
    pub internal_frame: Probe,
    pub interpreted_frame: Probe,
    pub java_script_builtin_continuation_frame: Probe,
    pub java_script_builtin_continuation_with_catch_frame: Probe,
    pub java_script_frame: Probe,
    pub js_to_wasm_frame: Probe,
    pub native_frame: Probe,
    pub optimized_frame: Probe,
    pub stub_frame: Probe,
    pub wasm_compile_lazy_frame: Probe,
    pub wasm_compiled_frame: Probe,
    pub wasm_exit_frame: Probe,
    pub wasm_interpreter_entry_frame: Probe,
    pub wasm_to_js_frame: Probe,
}

impl FrameTypeProbes {
    /// The facts that these outcomes come to: each the value that was found
    /// under the first of its names that resolved it, in the width of the
    /// fact, or zero.
    pub open spec fn facts(self) -> FrameType {
        FrameType {
            arguments_adaptor_frame: self.arguments_adaptor_frame.spec_value() as u8,
            baseline_frame: self.baseline_frame.spec_value() as u8,
            builtin_continuation_frame: self.builtin_continuation_frame.spec_value() as u8,
            builtin_exit_frame: self.builtin_exit_frame.spec_value() as u8,
            builtin_frame: self.builtin_frame.spec_value() as u8,
            cwasm_entry_frame: self.cwasm_entry_frame.spec_value() as u8,
            construct_entry_frame: self.construct_entry_frame.spec_value() as u8,
            construct_frame: self.construct_frame.spec_value() as u8,
            entry_frame: self.entry_frame.spec_value() as u8,
            exit_frame: self.exit_frame.spec_value() as u8,
            internal_frame: self.internal_frame.spec_value() as u8,
            interpreted_frame: self.interpreted_frame.spec_value() as u8,
            java_script_builtin_continuation_frame:
                self.java_script_builtin_continuation_frame.spec_value() as u8,
            java_script_builtin_continuation_with_catch_frame:
                self.java_script_builtin_continuation_with_catch_frame.spec_value() as u8,
            java_script_frame: self.java_script_frame.spec_value() as u8,
            js_to_wasm_frame: self.js_to_wasm_frame.spec_value() as u8,
            native_frame: self.native_frame.spec_value() as u8,
            optimized_frame: self.optimized_frame.spec_value() as u8,
            stub_frame: self.stub_frame.spec_value() as u8,
            wasm_compile_lazy_frame: self.wasm_compile_lazy_frame.spec_value() as u8,
            wasm_compiled_frame: self.wasm_compiled_frame.spec_value() as u8,
            wasm_exit_frame: self.wasm_exit_frame.spec_value() as u8,
            wasm_interpreter_entry_frame: self.wasm_interpreter_entry_frame.spec_value() as u8,
            wasm_to_js_frame: self.wasm_to_js_frame.spec_value() as u8,
        }
    }
}

/// Makes the frame-type enumeration of the outcomes of probing them.
pub fn frame_type_of(probes: FrameTypeProbes) -> (v: FrameType)
    ensures
        v == probes.facts(),
{
    let arguments_adaptor_frame: u8 = probes.arguments_adaptor_frame.value() as u8;
    let baseline_frame: u8 = probes.baseline_frame.value() as u8;
    let builtin_continuation_frame: u8 = probes.builtin_continuation_frame.value() as u8;
    let builtin_exit_frame: u8 = probes.builtin_exit_frame.value() as u8;
    let builtin_frame: u8 = probes.builtin_frame.value() as u8;
    let cwasm_entry_frame: u8 = probes.cwasm_entry_frame.value() as u8;
    let construct_entry_frame: u8 = probes.construct_entry_frame.value() as u8;
    let construct_frame: u8 = probes.construct_frame.value() as u8;
    let entry_frame: u8 = probes.entry_frame.value() as u8;
    let exit_frame: u8 = probes.exit_frame.value() as u8;
    let internal_frame: u8 = probes.internal_frame.value() as u8;
    let interpreted_frame: u8 = probes.interpreted_frame.value() as u8;
    let java_script_builtin_continuation_frame: u8 =
        probes.java_script_builtin_continuation_frame.value() as u8;
    let java_script_builtin_continuation_with_catch_frame: u8 =
        probes.java_script_builtin_continuation_with_catch_frame.value() as u8;
    let java_script_frame: u8 = probes.java_script_frame.value() as u8;
    let js_to_wasm_frame: u8 = probes.js_to_wasm_frame.value() as u8;
    let native_frame: u8 = probes.native_frame.value() as u8;
    let optimized_frame: u8 = probes.optimized_frame.value() as u8;
    let stub_frame: u8 = probes.stub_frame.value() as u8;
    let wasm_compile_lazy_frame: u8 = probes.wasm_compile_lazy_frame.value() as u8;
    let wasm_compiled_frame: u8 = probes.wasm_compiled_frame.value() as u8;
    let wasm_exit_frame: u8 = probes.wasm_exit_frame.value() as u8;
    let wasm_interpreter_entry_frame: u8 = probes.wasm_interpreter_entry_frame.value() as u8;
    let wasm_to_js_frame: u8 = probes.wasm_to_js_frame.value() as u8;
    FrameType {
        arguments_adaptor_frame,
        baseline_frame,
        builtin_continuation_frame,
        builtin_exit_frame,
        builtin_frame,
        cwasm_entry_frame,
        construct_entry_frame,
        construct_frame,
        entry_frame,
        exit_frame,
        internal_frame,
        interpreted_frame,
        java_script_builtin_continuation_frame,
        java_script_builtin_continuation_with_catch_frame,
        java_script_frame,
        js_to_wasm_frame,
        native_frame,
        optimized_frame,
        stub_frame,
        wasm_compile_lazy_frame,
        wasm_compiled_frame,
        wasm_exit_frame,
        wasm_interpreter_entry_frame,
        wasm_to_js_frame,
    }
}

/// The outcomes of probing the instance-type codes, one for each symbol
/// name.
#[derive(Clone, Copy, Debug, PartialEq, Eq)]
pub struct TypeProbes {
    pub baseline_data: Probe,
    pub byte_array: Probe,
    pub bytecode_array: Probe,
    pub code: Probe,
    pub fixed_array: Probe,
    pub weak_fixed_array: Probe,
    pub js_function: Probe,
    pub map: Probe,
    pub script: Probe,
    pub scope_info: Probe,
    pub shared_function_info: Probe,
}

impl TypeProbes {
    /// The facts that these outcomes come to: each the value that was found
    /// under the first of its names that resolved it, in the width of the
    /// fact, or zero.
    pub open spec fn facts(self) -> Type {
        Type {
            baseline_data: self.baseline_data.spec_value() as u16,
            byte_array: self.byte_array.spec_value() as u16,
            bytecode_array: self.bytecode_array.spec_value() as u16,
            code: self.code.spec_value() as u16,
            fixed_array: self.fixed_array.spec_value() as u16,
            weak_fixed_array: self.weak_fixed_array.spec_value() as u16,
            js_function: self.js_function.spec_value() as u16,
            map: self.map.spec_value() as u16,
            script: self.script.spec_value() as u16,
            scope_info: self.scope_info.spec_value() as u16,
            shared_function_info: self.shared_function_info.spec_value() as u16,
        }
    }
}

/// Makes the instance-type codes of the outcomes of probing them.
pub fn typ_of(probes: TypeProbes) -> (v: Type)
    ensures
        v == probes.facts(),
{
    let baseline_data: u16 = probes.baseline_data.value() as u16;
    let byte_array: u16 = probes.byte_array.value() as u16;
    let bytecode_array: u16 = probes.bytecode_array.value() as u16;
    let code: u16 = probes.code.value() as u16;
    let fixed_array: u16 = probes.fixed_array.value() as u16;
    let weak_fixed_array: u16 = probes.weak_fixed_array.value() as u16;
    let js_function: u16 = probes.js_function.value() as u16;
    let map: u16 = probes.map.value() as u16;
    let script: u16 = probes.script.value() as u16;
    let scope_info: u16 = probes.scope_info.value() as u16;
    let shared_function_info: u16 = probes.shared_function_info.value() as u16;
    Type {
        baseline_data,
        byte_array,
        bytecode_array,
        code,
        fixed_array,
        weak_fixed_array,
        js_function,
        map,
        script,
        scope_info,
        shared_function_info,
    }
}

/// The outcomes of probing the offsets of the heap-object header, one for
/// each symbol name.
#[derive(Clone, Copy, Debug, PartialEq, Eq)]
pub struct HeapObjectProbes {
    pub map: Probe,
}

impl HeapObjectProbes {
    /// The facts that these outcomes come to: each the value that was found
    /// under the first of its names that resolved it, in the width of the
    /// fact, or zero.
    pub open spec fn facts(self) -> HeapObject {
        HeapObject {
            map: self.map.spec_value() as u16,
        }
    }
}

/// Makes the offsets of the heap-object header of the outcomes of probing
/// them.
pub fn heap_object_of(probes: HeapObjectProbes) -> (v: HeapObject)
    ensures
        v == probes.facts(),
{
    let map: u16 = probes.map.value() as u16;
    HeapObject { map }
}

/// The outcomes of probing the offsets of a map, one for each symbol name.
#[derive(Clone, Copy, Debug, PartialEq, Eq)]
pub struct MapClassProbes {
    pub instance_type: Probe,
}

impl MapClassProbes {
    /// The facts that these outcomes come to: each the value that was found
    /// under the first of its names that resolved it, in the width of the
    /// fact, or zero.
    pub open spec fn facts(self) -> MapClass {
        MapClass {
            instance_type: self.instance_type.spec_value() as u16,
        }
    }
}

/// Makes the offsets of a map of the outcomes of probing them.
pub fn map_of(probes: MapClassProbes) -> (v: MapClass)
    ensures
        v == probes.facts(),
{
    let instance_type: u16 = probes.instance_type.value() as u16;
    MapClass { instance_type }
}

/// The outcomes of probing the offsets common to fixed arrays, one for each
/// symbol name.
#[derive(Clone, Copy, Debug, PartialEq, Eq)]
pub struct FixedArrayBaseProbes {
    pub length: Probe,
}

impl FixedArrayBaseProbes {
    /// The facts that these outcomes come to: each the value that was found
    /// under the first of its names that resolved it, in the width of the
    /// fact, or zero.
    pub open spec fn facts(self) -> FixedArrayBase {
        FixedArrayBase {
            length: self.length.spec_value() as u16,
        }
    }
}

/// Makes the offsets common to fixed arrays of the outcomes of probing
/// them.
pub fn fixed_array_base_of(probes: FixedArrayBaseProbes) -> (v: FixedArrayBase)
    ensures
        v == probes.facts(),
{
    let length: u16 = probes.length.value() as u16;
    FixedArrayBase { length }
}

/// The outcomes of probing the offsets of a fixed array, one for each
/// symbol name.
#[derive(Clone, Copy, Debug, PartialEq, Eq)]
pub struct FixedArrayProbes {
    pub data: Probe,
}

impl FixedArrayProbes {
    /// The facts that these outcomes come to: each the value that was found
    /// under the first of its names that resolved it, in the width of the
    /// fact, or zero.
    pub open spec fn facts(self) -> FixedArray {
        FixedArray {
            data: self.data.spec_value() as u16,
        }
    }
}

/// Makes the offsets of a fixed array of the outcomes of probing them.
pub fn fixed_array_of(probes: FixedArrayProbes) -> (v: FixedArray)
    ensures
        v == probes.facts(),
{
    let data: u16 = probes.data.value() as u16;
    FixedArray { data }
}

/// The outcomes of probing the offsets common to strings, one for each
/// symbol name.
#[derive(Clone, Copy, Debug, PartialEq, Eq)]
pub struct StringClassProbes {
    pub length: Probe,
}

impl StringClassProbes {
    /// The facts that these outcomes come to: each the value that was found
    /// under the first of its names that resolved it, in the width of the
    /// fact, or zero.
    pub open spec fn facts(self) -> StringClass {
        StringClass {
            length: self.length.spec_value() as u16,
        }
    }
}

/// Makes the offsets common to strings of the outcomes of probing them.
pub fn string_of(probes: StringClassProbes) -> (v: StringClass)
    ensures
        v == probes.facts(),
{
    let length: u16 = probes.length.value() as u16;
    StringClass { length }
}

/// The outcomes of probing the offsets of a sequential one-byte string, one
/// for each symbol name.
#[derive(Clone, Copy, Debug, PartialEq, Eq)]
pub struct SeqOneByteStringProbes {
    pub chars: Probe,
}

impl SeqOneByteStringProbes {
    /// The facts that these outcomes come to: each the value that was found
    /// under the first of its names that resolved it, in the width of the
    /// fact, or zero.
    pub open spec fn facts(self) -> SeqOneByteString {
        SeqOneByteString {
            chars: self.chars.spec_value() as u16,
        }
    }
}

/// Makes the offsets of a sequential one-byte string of the outcomes of
/// probing them.
pub fn seq_one_byte_string_of(probes: SeqOneByteStringProbes) -> (v: SeqOneByteString)
    ensures
        v == probes.facts(),
{
    let chars: u16 = probes.chars.value() as u16;
    SeqOneByteString { chars }
}

/// The outcomes of probing the offsets of a sequential two-byte string, one
/// for each symbol name.
#[derive(Clone, Copy, Debug, PartialEq, Eq)]
pub struct SeqTwoByteStringProbes {
    pub chars: Probe,
}

impl SeqTwoByteStringProbes {
    /// The facts that these outcomes come to: each the value that was found
    /// under the first of its names that resolved it, in the width of the
    /// fact, or zero.
    pub open spec fn facts(self) -> SeqTwoByteString {
        SeqTwoByteString {
            chars: self.chars.spec_value() as u16,
        }
    }
}

/// Makes the offsets of a sequential two-byte string of the outcomes of
/// probing them.
pub fn seq_two_byte_string_of(probes: SeqTwoByteStringProbes) -> (v: SeqTwoByteString)
    ensures
        v == probes.facts(),
{
    let chars: u16 = probes.chars.value() as u16;
    SeqTwoByteString { chars }
}

/// The outcomes of probing the offsets of a cons string, one for each
/// symbol name.
#[derive(Clone, Copy, Debug, PartialEq, Eq)]
pub struct ConsStringProbes {
    pub first: Probe,
    pub second: Probe,
}

impl ConsStringProbes {
    /// The facts that these outcomes come to: each the value that was found
    /// under the first of its names that resolved it, in the width of the
    /// fact, or zero.
    pub open spec fn facts(self) -> ConsString {
        ConsString {
            first: self.first.spec_value() as u16,
            second: self.second.spec_value() as u16,
        }
    }
}

/// Makes the offsets of a cons string of the outcomes of probing them.
pub fn cons_string_of(probes: ConsStringProbes) -> (v: ConsString)
    ensures
        v == probes.facts(),
{
    let first: u16 = probes.first.value() as u16;
    let second: u16 = probes.second.value() as u16;
    ConsString { first, second }
}

/// The outcomes of probing the offsets of a thin string, one for each
/// symbol name.
#[derive(Clone, Copy, Debug, PartialEq, Eq)]
pub struct ThinStringProbes {
    pub actual: Probe,
}

impl ThinStringProbes {
    /// The facts that these outcomes come to: each the value that was found
    /// under the first of its names that resolved it, in the width of the
    /// fact, or zero.
    pub open spec fn facts(self) -> ThinString {
        ThinString {
            actual: self.actual.spec_value() as u16,
        }
    }
}

/// Makes the offsets of a thin string of the outcomes of probing them.
pub fn thin_string_of(probes: ThinStringProbes) -> (v: ThinString)
    ensures
        v == probes.facts(),
{
    let actual: u16 = probes.actual.value() as u16;
    ThinString { actual }
}

/// The outcomes of probing the offsets of a function object, one for each
/// symbol name.
#[derive(Clone, Copy, Debug, PartialEq, Eq)]
pub struct JSFunctionProbes {
    pub code: Probe,
    pub code_tagged: Probe,
    pub shared_function_info: Probe,
}

impl JSFunctionProbes {
    /// The facts that these outcomes come to: each the value that was found
    /// under the first of its names that resolved it, in the width of the
    /// fact, or zero.
    pub open spec fn facts(self) -> JSFunction {
        JSFunction {
            code: first_found(self.code, self.code_tagged).spec_value() as u16,
            shared_function_info: self.shared_function_info.spec_value() as u16,
        }
    }
}

/// Makes the offsets of a function object of the outcomes of probing them.
pub fn jsfunction_of(probes: JSFunctionProbes) -> (v: JSFunction)
    ensures
        v == probes.facts(),
{
    let code: u16 = pick_first(probes.code, probes.code_tagged).value() as u16;
    let shared_function_info: u16 = probes.shared_function_info.value() as u16;
    JSFunction { code, shared_function_info }
}

/// The outcomes of probing the offsets of a compiled-code object, one for
/// each symbol name.
#[derive(Clone, Copy, Debug, PartialEq, Eq)]
pub struct CodeProbes {
    pub deoptimization_data: Probe,
    pub deoptimization_data_tagged: Probe,
    pub source_position_table: Probe,
    pub source_position_table_tagged: Probe,
    pub instruction_start: Probe,
    pub instruction_start_address: Probe,
    pub instruction_size: Probe,
    pub flags: Probe,
}

impl CodeProbes {
    /// The facts that these outcomes come to: each the value that was found
    /// under the first of its names that resolved it, in the width of the
    /// fact, or zero.
    pub open spec fn facts(self) -> Code {
        Code {
            deoptimization_data: first_found(
                self.deoptimization_data,
                self.deoptimization_data_tagged,
            ).spec_value() as u16,
            source_position_table: first_found(
                self.source_position_table,
                self.source_position_table_tagged,
            ).spec_value() as u16,
            instruction_start: first_found(
                self.instruction_start,
                self.instruction_start_address,
            ).spec_value() as u16,
            instruction_size: self.instruction_size.spec_value() as u16,
            flags: self.flags.spec_value() as u16,
        }
    }
}

/// Makes the offsets of a compiled-code object of the outcomes of probing
/// them.
pub fn code_of(probes: CodeProbes) -> (v: Code)
    ensures
        v == probes.facts(),
{
    let deoptimization_data: u16 = pick_first(
        probes.deoptimization_data,
        probes.deoptimization_data_tagged,
    ).value() as u16;
    let source_position_table: u16 = pick_first(
        probes.source_position_table,
        probes.source_position_table_tagged,
    ).value() as u16;
    let instruction_start: u16 = pick_first(
        probes.instruction_start,
        probes.instruction_start_address,
    ).value() as u16;
    let instruction_size: u16 = probes.instruction_size.value() as u16;
    let flags: u16 = probes.flags.value() as u16;
    Code { deoptimization_data, source_position_table, instruction_start, instruction_size, flags }
}

/// The outcomes of probing the offsets of a shared-function-info object,
/// one for each symbol name.
#[derive(Clone, Copy, Debug, PartialEq, Eq)]
pub struct SharedFunctionInfoProbes {
    pub name_or_scope_info: Probe,
    pub name_or_scope_info_tagged: Probe,
    pub function_data: Probe,
    pub function_data_tagged: Probe,
    pub script_or_debug_info: Probe,
    pub script_or_debug_info_heap_object: Probe,
    pub script_or_debug_info_tagged: Probe,
}

impl SharedFunctionInfoProbes {
    /// The facts that these outcomes come to: each the value that was found
    /// under the first of its names that resolved it, in the width of the
    /// fact, or zero.
    pub open spec fn facts(self) -> SharedFunctionInfo {
        SharedFunctionInfo {
            name_or_scope_info: first_found(
                self.name_or_scope_info,
                self.name_or_scope_info_tagged,
            ).spec_value() as u16,
            function_data: first_found(
                self.function_data,
                self.function_data_tagged,
            ).spec_value() as u16,
            script_or_debug_info: first_found(
                self.script_or_debug_info,
                first_found(
                    self.script_or_debug_info_heap_object,
                    self.script_or_debug_info_tagged,
                ),
            ).spec_value() as u16,
        }
    }
}

/// Makes the offsets of a shared-function-info object of the outcomes of
/// probing them.
pub fn shared_function_info_of(probes: SharedFunctionInfoProbes) -> (v: SharedFunctionInfo)
    ensures
        v == probes.facts(),
{
    let name_or_scope_info: u16 = pick_first(
        probes.name_or_scope_info,
        probes.name_or_scope_info_tagged,
    ).value() as u16;
    let function_data: u16 = pick_first(
        probes.function_data,
        probes.function_data_tagged,
    ).value() as u16;
    let script_or_debug_info: u16 = pick_first(
        probes.script_or_debug_info,
        pick_first(
            probes.script_or_debug_info_heap_object,
            probes.script_or_debug_info_tagged,
        ),
    ).value() as u16;
    SharedFunctionInfo { name_or_scope_info, function_data, script_or_debug_info }
}

/// The outcomes of probing the offsets of a baseline-data object, one for
/// each symbol name.
#[derive(Clone, Copy, Debug, PartialEq, Eq)]
pub struct BaselineDataProbes {
    pub data: Probe,
}

impl BaselineDataProbes {
    /// The facts that these outcomes come to: each the value that was found
    /// under the first of its names that resolved it, in the width of the
    /// fact, or zero.
    pub open spec fn facts(self) -> BaselineData {
        BaselineData {
            data: self.data.spec_value() as u16,
        }
    }
}

/// Makes the offsets of a baseline-data object of the outcomes of probing
/// them.
pub fn baseline_data_of(probes: BaselineDataProbes) -> (v: BaselineData)
    ensures
        v == probes.facts(),
{
    let data: u16 = probes.data.value() as u16;
    BaselineData { data }
}

/// The outcomes of probing the offsets of a bytecode array, one for each
/// symbol name.
#[derive(Clone, Copy, Debug, PartialEq, Eq)]
pub struct BytecodeArrayProbes {
    pub source_position_table: Probe,
    pub source_position_table_tagged: Probe,
    pub data: Probe,
}

impl BytecodeArrayProbes {
    /// The facts that these outcomes come to: each the value that was found
    /// under the first of its names that resolved it, in the width of the
    /// fact, or zero.
    pub open spec fn facts(self) -> BytecodeArray {
        BytecodeArray {
            source_position_table: first_found(
                self.source_position_table,
                self.source_position_table_tagged,
            ).spec_value() as u16,
            data: self.data.spec_value() as u16,
        }
    }
}

/// Makes the offsets of a bytecode array of the outcomes of probing them.
pub fn bytecode_array_of(probes: BytecodeArrayProbes) -> (v: BytecodeArray)
    ensures
        v == probes.facts(),
{
    let source_position_table: u16 = pick_first(
        probes.source_position_table,
        probes.source_position_table_tagged,
    ).value() as u16;
    let data: u16 = probes.data.value() as u16;
    BytecodeArray { source_position_table, data }
}

/// The outcomes of probing the offsets of a script object, one for each
/// symbol name.
#[derive(Clone, Copy, Debug, PartialEq, Eq)]
pub struct ScriptProbes {
    pub name: Probe,
    pub line_ends: Probe,
    pub source: Probe,
}

impl ScriptProbes {
    /// The facts that these outcomes come to: each the value that was found
    /// under the first of its names that resolved it, in the width of the
    /// fact, or zero.
    pub open spec fn facts(self) -> Script {
        Script {
            name: self.name.spec_value() as u16,
            line_ends: self.line_ends.spec_value() as u16,
            source: self.source.spec_value() as u16,
        }
    }
}

/// Makes the offsets of a script object of the outcomes of probing them.
pub fn script_of(probes: ScriptProbes) -> (v: Script)
    ensures
        v == probes.facts(),
{
    let name: u16 = probes.name.value() as u16;
    let line_ends: u16 = probes.line_ends.value() as u16;
    let source: u16 = probes.source.value() as u16;
    Script { name, line_ends, source }
}

/// The outcomes of probing the whole catalogue, group by group. Of the two
/// markers the outcome is the marker itself: whether its symbol was found.
#[derive(Clone, Copy, Debug, PartialEq, Eq)]
pub struct CatalogueProbes {
    pub fixed: FixedProbes,
    pub frame_pointer: FramePointerProbes,
    pub scope_info_index: ScopeInfoIndexProbes,
    pub deoptimization_data_index: DeoptimizationDataIndexProbes,
    pub code_kind: CodeKindProbes,
    pub frame_type: FrameTypeProbes,
    pub typ: TypeProbes,
    pub heap_object: HeapObjectProbes,
    pub map: MapClassProbes,
    pub fixed_array_base: FixedArrayBaseProbes,
    pub fixed_array: FixedArrayProbes,
    pub string: StringClassProbes,
    pub seq_one_byte_string: SeqOneByteStringProbes,
    pub seq_two_byte_string: SeqTwoByteStringProbes,
    pub cons_string: ConsStringProbes,
    pub thin_string: ThinStringProbes,
    pub jsfunction: JSFunctionProbes,
    pub code: CodeProbes,
    pub shared_function_info: SharedFunctionInfoProbes,
    pub baseline_data: BaselineDataProbes,
    pub bytecode_array: BytecodeArrayProbes,
    pub scope_info: ScopeInfo,
    pub deoptimization_literal_array: DeoptimizationLiteralArray,
    pub script: ScriptProbes,
}

impl CatalogueProbes {
    /// The catalogue that these outcomes come to.
    pub open spec fn facts(self) -> VMData {
        VMData {
            fixed: self.fixed.facts(),
            frame_pointer: self.frame_pointer.facts(),
            scope_info_index: self.scope_info_index.facts(),
            deoptimization_data_index: self.deoptimization_data_index.facts(),
            code_kind: self.code_kind.facts(),
            frame_type: self.frame_type.facts(),
            typ: self.typ.facts(),
            heap_object: self.heap_object.facts(),
            map: self.map.facts(),
            fixed_array_base: self.fixed_array_base.facts(),
            fixed_array: self.fixed_array.facts(),
            string: self.string.facts(),
            seq_one_byte_string: self.seq_one_byte_string.facts(),
            seq_two_byte_string: self.seq_two_byte_string.facts(),
            cons_string: self.cons_string.facts(),
            thin_string: self.thin_string.facts(),
            jsfunction: self.jsfunction.facts(),
            code: self.code.facts(),
            shared_function_info: self.shared_function_info.facts(),
            baseline_data: self.baseline_data.facts(),
            bytecode_array: self.bytecode_array.facts(),
            scope_info: self.scope_info,
            deoptimization_literal_array: self.deoptimization_literal_array,
            script: self.script.facts(),
        }
    }
}

/// Makes the catalogue of the outcomes of probing it.
pub fn catalogue_of(probes: CatalogueProbes) -> (data: VMData)
    ensures
        data == probes.facts(),
{
    VMData {
        fixed: fixed_of(probes.fixed),
        frame_pointer: frame_pointer_of(probes.frame_pointer),
        scope_info_index: scope_info_index_of(probes.scope_info_index),
        deoptimization_data_index: deoptimization_data_index_of(probes.deoptimization_data_index),
        code_kind: code_kind_of(probes.code_kind),
        frame_type: frame_type_of(probes.frame_type),
        typ: typ_of(probes.typ),
        heap_object: heap_object_of(probes.heap_object),
        map: map_of(probes.map),
        fixed_array_base: fixed_array_base_of(probes.fixed_array_base),
        fixed_array: fixed_array_of(probes.fixed_array),
        string: string_of(probes.string),
        seq_one_byte_string: seq_one_byte_string_of(probes.seq_one_byte_string),
        seq_two_byte_string: seq_two_byte_string_of(probes.seq_two_byte_string),
        cons_string: cons_string_of(probes.cons_string),
        thin_string: thin_string_of(probes.thin_string),
        jsfunction: jsfunction_of(probes.jsfunction),
        code: code_of(probes.code),
        shared_function_info: shared_function_info_of(probes.shared_function_info),
        baseline_data: baseline_data_of(probes.baseline_data),
        bytecode_array: bytecode_array_of(probes.bytecode_array),
        scope_info: probes.scope_info,
        deoptimization_literal_array: probes.deoptimization_literal_array,
        script: script_of(probes.script),
    }
}

} // verus!
