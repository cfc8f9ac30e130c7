//! The layout catalogue: every fact about the engine's object model that the
//! resolution recovers, grouped by subject.

use vstd::prelude::*;

verus! {

/// Tag, mask and shift constants by which tagged values are decoded.
#[derive(Clone, Copy, Debug, PartialEq, Eq)]
pub struct Fixed {
    pub heap_object_tag_mask: u32,
    pub smi_tag_mask: u32,
    pub heap_object_tag: u16,
    pub smi_tag: u16,
    pub smi_shift_size: u16,
    pub first_nonstring_type: u16,
    pub string_encoding_mask: u16,
    pub string_representation_mask: u16,
    pub seq_string_tag: u16,
    pub cons_string_tag: u16,
    pub one_byte_string_tag: u16,
    pub two_byte_string_tag: u16,
    pub sliced_string_tag: u16,
    pub thin_string_tag: u16,
    pub first_jsfunction_type: u16,
    pub last_jsfunction_type: u16,
}

/// Byte offsets of the slots of a stack frame, relative to the frame pointer.
#[derive(Clone, Copy, Debug, PartialEq, Eq)]
pub struct FramePointer {
    pub function: u8,
    pub context: u8,
    pub bytecode_array: u8,
    pub bytecode_offset: u8,
}

/// Slot indices inside a scope-info object.
#[derive(Clone, Copy, Debug, PartialEq, Eq)]
pub struct ScopeInfoIndex {
    pub first_vars: u8,
    pub ncontext_locals: u8,
}

/// Slot indices inside a deoptimization-data array.
#[derive(Clone, Copy, Debug, PartialEq, Eq)]
pub struct DeoptimizationDataIndex {
    pub inlined_function_count: u8,
    pub literal_array: u8,
    pub shared_function_info: u8,
    pub inlining_positions: u8,
}

/// The bit field of a code object's flags that holds its kind.
#[derive(Clone, Copy, Debug, PartialEq, Eq)]
pub struct CodeKind {
    pub field_mask: u32,
    pub field_shift: u8,
    pub baseline: u8,
}

/// The values of the stack frame-type enumeration.
#[derive(Clone, Copy, Debug, PartialEq, Eq)]
pub struct FrameType {
    pub arguments_adaptor_frame: u8,
    pub baseline_frame: u8,
    pub builtin_continuation_frame: u8,
    pub builtin_exit_frame: u8,
    pub builtin_frame: u8,
    pub cwasm_entry_frame: u8,
    pub construct_entry_frame: u8,
    pub construct_frame: u8,
    pub entry_frame: u8,
    pub exit_frame: u8,
    pub internal_frame: u8,
    pub interpreted_frame: u8,
    pub java_script_builtin_continuation_frame: u8,
    pub java_script_builtin_continuation_with_catch_frame: u8,
    pub java_script_frame: u8,
    pub js_to_wasm_frame: u8,
    pub native_frame: u8,
    pub optimized_frame: u8,
    pub stub_frame: u8,
    pub wasm_compile_lazy_frame: u8,
    pub wasm_compiled_frame: u8,
    pub wasm_exit_frame: u8,
    pub wasm_interpreter_entry_frame: u8,
    pub wasm_to_js_frame: u8,
}

/// Instance-type codes, one per class.
#[derive(Clone, Copy, Debug, PartialEq, Eq)]
pub struct Type {
    pub baseline_data: u16,
    pub byte_array: u16,
    pub bytecode_array: u16,
    pub code: u16,
    pub fixed_array: u16,
    pub weak_fixed_array: u16,
    pub js_function: u16,
    pub map: u16,
    pub script: u16,
    pub scope_info: u16,
    pub shared_function_info: u16,
}

/// Field offsets of the heap-object header.
#[derive(Clone, Copy, Debug, PartialEq, Eq)]
pub struct HeapObject {
    pub map: u16,
}

/// Field offsets of a map.
#[derive(Clone, Copy, Debug, PartialEq, Eq)]
pub struct MapClass {
    pub instance_type: u16,
}

/// Field offsets common to fixed arrays.
#[derive(Clone, Copy, Debug, PartialEq, Eq)]
pub struct FixedArrayBase {
    pub length: u16,
}

/// Field offsets of a fixed array.
#[derive(Clone, Copy, Debug, PartialEq, Eq)]
pub struct FixedArray {
    pub data: u16,
}

/// Field offsets common to strings.
#[derive(Clone, Copy, Debug, PartialEq, Eq)]
pub struct StringClass {
    pub length: u16,
}

/// Field offsets of a sequential one-byte string.
#[derive(Clone, Copy, Debug, PartialEq, Eq)]
pub struct SeqOneByteString {
    pub chars: u16,
}

/// Field offsets of a sequential two-byte string.
#[derive(Clone, Copy, Debug, PartialEq, Eq)]
pub struct SeqTwoByteString {
    pub chars: u16,
}

/// Field offsets of a cons string.
#[derive(Clone, Copy, Debug, PartialEq, Eq)]
pub struct ConsString {
    pub first: u16,
    pub second: u16,
}

/// Field offsets of a thin string.
#[derive(Clone, Copy, Debug, PartialEq, Eq)]
pub struct ThinString {
    pub actual: u16,
}

/// Field offsets of a function object.
#[derive(Clone, Copy, Debug, PartialEq, Eq)]
pub struct JSFunction {
    pub code: u16,
    pub shared_function_info: u16,
}

/// Field offsets of a compiled-code object.
#[derive(Clone, Copy, Debug, PartialEq, Eq)]
pub struct Code {
    pub deoptimization_data: u16,
    pub source_position_table: u16,
    pub instruction_start: u16,
    pub instruction_size: u16,
    pub flags: u16,
}

/// Field offsets of a shared-function-info object.
#[derive(Clone, Copy, Debug, PartialEq, Eq)]
pub struct SharedFunctionInfo {
    pub name_or_scope_info: u16,
    pub function_data: u16,
    pub script_or_debug_info: u16,
}

/// Field offsets of a baseline-data object.
#[derive(Clone, Copy, Debug, PartialEq, Eq)]
pub struct BaselineData {
    pub data: u16,
}

/// Field offsets of a bytecode array.
#[derive(Clone, Copy, Debug, PartialEq, Eq)]
pub struct BytecodeArray {
    pub source_position_table: u16,
    pub data: u16,
}

/// Whether a scope-info object is a plain heap object in this build.
#[derive(Clone, Copy, Debug, PartialEq, Eq)]
pub struct ScopeInfo {
    pub heap_object: bool,
}

/// Whether a deoptimization-literal array is a weak fixed array in this build.
#[derive(Clone, Copy, Debug, PartialEq, Eq)]
pub struct DeoptimizationLiteralArray {
    pub weak_fixed_array: bool,
}

/// Field offsets of a script object.
#[derive(Clone, Copy, Debug, PartialEq, Eq)]
pub struct Script {
    pub name: u16,
    pub line_ends: u16,
    pub source: u16,
}

/// The catalogue of layout facts of one engine. A numeric fact that is zero is unknown.
#[derive(Clone, Copy, Debug, PartialEq, Eq)]
pub struct VMData {
    pub fixed: Fixed,
    pub frame_pointer: FramePointer,
    pub scope_info_index: ScopeInfoIndex,
    pub deoptimization_data_index: DeoptimizationDataIndex,
    pub code_kind: CodeKind,
    pub frame_type: FrameType,
    pub typ: Type,
    pub heap_object: HeapObject,
    pub map: MapClass,
    pub fixed_array_base: FixedArrayBase,
    pub fixed_array: FixedArray,
    pub string: StringClass,
    pub seq_one_byte_string: SeqOneByteString,
    pub seq_two_byte_string: SeqTwoByteString,
    pub cons_string: ConsString,
    pub thin_string: ThinString,
    pub jsfunction: JSFunction,
    pub code: Code,
    pub shared_function_info: SharedFunctionInfo,
    pub baseline_data: BaselineData,
    pub bytecode_array: BytecodeArray,
    pub scope_info: ScopeInfo,
    pub deoptimization_literal_array: DeoptimizationLiteralArray,
    pub script: Script,
}

impl Fixed {
    /// The value in which nothing is known yet.
    pub open spec fn unknown() -> Fixed {
        Fixed {
            heap_object_tag_mask: 0,
            smi_tag_mask: 0,
            heap_object_tag: 0,
            smi_tag: 0,
            smi_shift_size: 0,
            first_nonstring_type: 0,
            string_encoding_mask: 0,
            string_representation_mask: 0,
            seq_string_tag: 0,
            cons_string_tag: 0,
            one_byte_string_tag: 0,
            two_byte_string_tag: 0,
            sliced_string_tag: 0,
            thin_string_tag: 0,
            first_jsfunction_type: 0,
            last_jsfunction_type: 0,
        }
    }

    /// Makes the value in which nothing is known yet.
    pub fn new() -> (r: Fixed)
        ensures
            r == Fixed::unknown(),
    {
        Fixed {
            heap_object_tag_mask: 0,
            smi_tag_mask: 0,
            heap_object_tag: 0,
            smi_tag: 0,
            smi_shift_size: 0,
            first_nonstring_type: 0,
            string_encoding_mask: 0,
            string_representation_mask: 0,
            seq_string_tag: 0,
            cons_string_tag: 0,
            one_byte_string_tag: 0,
            two_byte_string_tag: 0,
            sliced_string_tag: 0,
            thin_string_tag: 0,
            first_jsfunction_type: 0,
            last_jsfunction_type: 0,
        }
    }
}

impl FramePointer {
    /// The value in which nothing is known yet.
    pub open spec fn unknown() -> FramePointer {
        FramePointer {
            function: 0,
            context: 0,
            bytecode_array: 0,
            bytecode_offset: 0,
        }
    }

    /// Makes the value in which nothing is known yet.
    pub fn new() -> (r: FramePointer)
        ensures
            r == FramePointer::unknown(),
    {
        FramePointer {
            function: 0,
            context: 0,
            bytecode_array: 0,
            bytecode_offset: 0,
        }
    }
}

impl ScopeInfoIndex {
    /// The value in which nothing is known yet.
    pub open spec fn unknown() -> ScopeInfoIndex {
        ScopeInfoIndex {
            first_vars: 0,
            ncontext_locals: 0,
        }
    }

    /// Makes the value in which nothing is known yet.
    pub fn new() -> (r: ScopeInfoIndex)
        ensures
            r == ScopeInfoIndex::unknown(),
    {
        ScopeInfoIndex {
            first_vars: 0,
            ncontext_locals: 0,
        }
    }
}

impl DeoptimizationDataIndex {
    /// The value in which nothing is known yet.
    pub open spec fn unknown() -> DeoptimizationDataIndex {
        DeoptimizationDataIndex {
            inlined_function_count: 0,
            literal_array: 0,
            shared_function_info: 0,
            inlining_positions: 0,
        }
    }

    /// Makes the value in which nothing is known yet.
    pub fn new() -> (r: DeoptimizationDataIndex)
        ensures
            r == DeoptimizationDataIndex::unknown(),
    {
        DeoptimizationDataIndex {
            inlined_function_count: 0,
            literal_array: 0,
            shared_function_info: 0,
            inlining_positions: 0,
        }
    }
}

impl CodeKind {
    /// The value in which nothing is known yet.
    pub open spec fn unknown() -> CodeKind {
        CodeKind {
            field_mask: 0,
            field_shift: 0,
            baseline: 0,
        }
    }

    /// Makes the value in which nothing is known yet.
    pub fn new() -> (r: CodeKind)
        ensures
            r == CodeKind::unknown(),
    {
        CodeKind {
            field_mask: 0,
            field_shift: 0,
            baseline: 0,
        }
    }
}

impl FrameType {
    /// The value in which nothing is known yet.
    pub open spec fn unknown() -> FrameType {
        FrameType {
            arguments_adaptor_frame: 0,
            baseline_frame: 0,
            builtin_continuation_frame: 0,
            builtin_exit_frame: 0,
            builtin_frame: 0,
            cwasm_entry_frame: 0,
            construct_entry_frame: 0,
            construct_frame: 0,
            entry_frame: 0,
            exit_frame: 0,
            internal_frame: 0,
            interpreted_frame: 0,
            java_script_builtin_continuation_frame: 0,
            java_script_builtin_continuation_with_catch_frame: 0,
            java_script_frame: 0,
            js_to_wasm_frame: 0,
            native_frame: 0,
            optimized_frame: 0,
            stub_frame: 0,
            wasm_compile_lazy_frame: 0,
            wasm_compiled_frame: 0,
            wasm_exit_frame: 0,
            wasm_interpreter_entry_frame: 0,
            wasm_to_js_frame: 0,
        }
    }

    /// Makes the value in which nothing is known yet.
    pub fn new() -> (r: FrameType)
        ensures
            r == FrameType::unknown(),
    {
        FrameType {
            arguments_adaptor_frame: 0,
            baseline_frame: 0,
            builtin_continuation_frame: 0,
            builtin_exit_frame: 0,
            builtin_frame: 0,
            cwasm_entry_frame: 0,
            construct_entry_frame: 0,
            construct_frame: 0,
            entry_frame: 0,
            exit_frame: 0,
            internal_frame: 0,
            interpreted_frame: 0,
            java_script_builtin_continuation_frame: 0,
            java_script_builtin_continuation_with_catch_frame: 0,
            java_script_frame: 0,
            js_to_wasm_frame: 0,
            native_frame: 0,
            optimized_frame: 0,
            stub_frame: 0,
            wasm_compile_lazy_frame: 0,
            wasm_compiled_frame: 0,
            wasm_exit_frame: 0,
            wasm_interpreter_entry_frame: 0,
            wasm_to_js_frame: 0,
        }
    }
}

impl Type {
    /// The value in which nothing is known yet.
    pub open spec fn unknown() -> Type {
        Type {
            baseline_data: 0,
            byte_array: 0,
            bytecode_array: 0,
            code: 0,
            fixed_array: 0,
            weak_fixed_array: 0,
            js_function: 0,
            map: 0,
            script: 0,
            scope_info: 0,
            shared_function_info: 0,
        }
    }

    /// Makes the value in which nothing is known yet.
    pub fn new() -> (r: Type)
        ensures
            r == Type::unknown(),
    {
        Type {
            baseline_data: 0,
            byte_array: 0,
            bytecode_array: 0,
            code: 0,
            fixed_array: 0,
            weak_fixed_array: 0,
            js_function: 0,
            map: 0,
            script: 0,
            scope_info: 0,
            shared_function_info: 0,
        }
    }
}

impl HeapObject {
    /// The value in which nothing is known yet.
    pub open spec fn unknown() -> HeapObject {
        HeapObject {
            map: 0,
        }
    }

    /// Makes the value in which nothing is known yet.
    pub fn new() -> (r: HeapObject)
        ensures
            r == HeapObject::unknown(),
    {
        HeapObject {
            map: 0,
        }
    }
}

impl MapClass {
    /// The value in which nothing is known yet.
    pub open spec fn unknown() -> MapClass {
        MapClass {
            instance_type: 0,
        }
    }

    /// Makes the value in which nothing is known yet.
    pub fn new() -> (r: MapClass)
        ensures
            r == MapClass::unknown(),
    {
        MapClass {
            instance_type: 0,
        }
    }
}

impl FixedArrayBase {
    /// The value in which nothing is known yet.
    pub open spec fn unknown() -> FixedArrayBase {
        FixedArrayBase {
            length: 0,
        }
    }

    /// Makes the value in which nothing is known yet.
    pub fn new() -> (r: FixedArrayBase)
        ensures
            r == FixedArrayBase::unknown(),
    {
        FixedArrayBase {
            length: 0,
        }
    }
}

impl FixedArray {
    /// The value in which nothing is known yet.
    pub open spec fn unknown() -> FixedArray {
        FixedArray {
            data: 0,
        }
    }

    /// Makes the value in which nothing is known yet.
    pub fn new() -> (r: FixedArray)
        ensures
            r == FixedArray::unknown(),
    {
        FixedArray {
            data: 0,
        }
    }
}

impl StringClass {
    /// The value in which nothing is known yet.
    pub open spec fn unknown() -> StringClass {
        StringClass {
            length: 0,
        }
    }

    /// Makes the value in which nothing is known yet.
    pub fn new() -> (r: StringClass)
        ensures
            r == StringClass::unknown(),
    {
        StringClass {
            length: 0,
        }
    }
}

impl SeqOneByteString {
    /// The value in which nothing is known yet.
    pub open spec fn unknown() -> SeqOneByteString {
        SeqOneByteString {
            chars: 0,
        }
    }

    /// Makes the value in which nothing is known yet.
    pub fn new() -> (r: SeqOneByteString)
        ensures
            r == SeqOneByteString::unknown(),
    {
        SeqOneByteString {
            chars: 0,
        }
    }
}

impl SeqTwoByteString {
    /// The value in which nothing is known yet.
    pub open spec fn unknown() -> SeqTwoByteString {
        SeqTwoByteString {
            chars: 0,
        }
    }

    /// Makes the value in which nothing is known yet.
    pub fn new() -> (r: SeqTwoByteString)
        ensures
            r == SeqTwoByteString::unknown(),
    {
        SeqTwoByteString {
            chars: 0,
        }
    }
}

impl ConsString {
    /// The value in which nothing is known yet.
    pub open spec fn unknown() -> ConsString {
        ConsString {
            first: 0,
            second: 0,
        }
    }

    /// Makes the value in which nothing is known yet.
    pub fn new() -> (r: ConsString)
        ensures
            r == ConsString::unknown(),
    {
        ConsString {
            first: 0,
            second: 0,
        }
    }
}

impl ThinString {
    /// The value in which nothing is known yet.
    pub open spec fn unknown() -> ThinString {
        ThinString {
            actual: 0,
        }
    }

    /// Makes the value in which nothing is known yet.
    pub fn new() -> (r: ThinString)
        ensures
            r == ThinString::unknown(),
    {
        ThinString {
            actual: 0,
        }
    }
}

impl JSFunction {
    /// The value in which nothing is known yet.
    pub open spec fn unknown() -> JSFunction {
        JSFunction {
            code: 0,
            shared_function_info: 0,
        }
    }

    /// Makes the value in which nothing is known yet.
    pub fn new() -> (r: JSFunction)
        ensures
            r == JSFunction::unknown(),
    {
        JSFunction {
            code: 0,
            shared_function_info: 0,
        }
    }
}

impl Code {
    /// The value in which nothing is known yet.
    pub open spec fn unknown() -> Code {
        Code {
            deoptimization_data: 0,
            source_position_table: 0,
            instruction_start: 0,
            instruction_size: 0,
            flags: 0,
        }
    }

    /// Makes the value in which nothing is known yet.
    pub fn new() -> (r: Code)
        ensures
            r == Code::unknown(),
    {
        Code {
            deoptimization_data: 0,
            source_position_table: 0,
            instruction_start: 0,
            instruction_size: 0,
            flags: 0,
        }
    }
}

impl SharedFunctionInfo {
    /// The value in which nothing is known yet.
    pub open spec fn unknown() -> SharedFunctionInfo {
        SharedFunctionInfo {
            name_or_scope_info: 0,
            function_data: 0,
            script_or_debug_info: 0,
        }
    }

    /// Makes the value in which nothing is known yet.
    pub fn new() -> (r: SharedFunctionInfo)
        ensures
            r == SharedFunctionInfo::unknown(),
    {
        SharedFunctionInfo {
            name_or_scope_info: 0,
            function_data: 0,
            script_or_debug_info: 0,
        }
    }
}

impl BaselineData {
    /// The value in which nothing is known yet.
    pub open spec fn unknown() -> BaselineData {
        BaselineData {
            data: 0,
        }
    }

    /// Makes the value in which nothing is known yet.
    pub fn new() -> (r: BaselineData)
        ensures
            r == BaselineData::unknown(),
    {
        BaselineData {
            data: 0,
        }
    }
}

impl BytecodeArray {
    /// The value in which nothing is known yet.
    pub open spec fn unknown() -> BytecodeArray {
        BytecodeArray {
            source_position_table: 0,
            data: 0,
        }
    }

    /// Makes the value in which nothing is known yet.
    pub fn new() -> (r: BytecodeArray)
        ensures
            r == BytecodeArray::unknown(),
    {
        BytecodeArray {
            source_position_table: 0,
            data: 0,
        }
    }
}

impl ScopeInfo {
    /// The value in which nothing is known yet.
    pub open spec fn unknown() -> ScopeInfo {
        ScopeInfo {
            heap_object: false,
        }
    }

    /// Makes the value in which nothing is known yet.
    pub fn new() -> (r: ScopeInfo)
        ensures
            r == ScopeInfo::unknown(),
    {
        ScopeInfo {
            heap_object: false,
        }
    }
}

impl DeoptimizationLiteralArray {
    /// The value in which nothing is known yet.
    pub open spec fn unknown() -> DeoptimizationLiteralArray {
        DeoptimizationLiteralArray {
            weak_fixed_array: false,
        }
    }

    /// Makes the value in which nothing is known yet.
    pub fn new() -> (r: DeoptimizationLiteralArray)
        ensures
            r == DeoptimizationLiteralArray::unknown(),
    {
        DeoptimizationLiteralArray {
            weak_fixed_array: false,
        }
    }
}

impl Script {
    /// The value in which nothing is known yet.
    pub open spec fn unknown() -> Script {
        Script {
            name: 0,
            line_ends: 0,
            source: 0,
        }
    }

    /// Makes the value in which nothing is known yet.
    pub fn new() -> (r: Script)
        ensures
            r == Script::unknown(),
    {
        Script {
            name: 0,
            line_ends: 0,
            source: 0,
        }
    }
}

impl VMData {
    /// The value in which nothing is known yet.
    pub open spec fn unknown() -> VMData {
        VMData {
            fixed: Fixed::unknown(),
            frame_pointer: FramePointer::unknown(),
            scope_info_index: ScopeInfoIndex::unknown(),
            deoptimization_data_index: DeoptimizationDataIndex::unknown(),
            code_kind: CodeKind::unknown(),
            frame_type: FrameType::unknown(),
            typ: Type::unknown(),
            heap_object: HeapObject::unknown(),
            map: MapClass::unknown(),
            fixed_array_base: FixedArrayBase::unknown(),
            fixed_array: FixedArray::unknown(),
            string: StringClass::unknown(),
            seq_one_byte_string: SeqOneByteString::unknown(),
            seq_two_byte_string: SeqTwoByteString::unknown(),
            cons_string: ConsString::unknown(),
            thin_string: ThinString::unknown(),
            jsfunction: JSFunction::unknown(),
            code: Code::unknown(),
            shared_function_info: SharedFunctionInfo::unknown(),
            baseline_data: BaselineData::unknown(),
            bytecode_array: BytecodeArray::unknown(),
            scope_info: ScopeInfo::unknown(),
            deoptimization_literal_array: DeoptimizationLiteralArray::unknown(),
            script: Script::unknown(),
        }
    }

    /// Makes the value in which nothing is known yet.
    pub fn new() -> (r: VMData)
        ensures
            r == VMData::unknown(),
    {
        VMData {
            fixed: Fixed::new(),
            frame_pointer: FramePointer::new(),
            scope_info_index: ScopeInfoIndex::new(),
            deoptimization_data_index: DeoptimizationDataIndex::new(),
            code_kind: CodeKind::new(),
            frame_type: FrameType::new(),
            typ: Type::new(),
            heap_object: HeapObject::new(),
            map: MapClass::new(),
            fixed_array_base: FixedArrayBase::new(),
            fixed_array: FixedArray::new(),
            string: StringClass::new(),
            seq_one_byte_string: SeqOneByteString::new(),
            seq_two_byte_string: SeqTwoByteString::new(),
            cons_string: ConsString::new(),
            thin_string: ThinString::new(),
            jsfunction: JSFunction::new(),
            code: Code::new(),
            shared_function_info: SharedFunctionInfo::new(),
            baseline_data: BaselineData::new(),
            bytecode_array: BytecodeArray::new(),
            scope_info: ScopeInfo::new(),
            deoptimization_literal_array: DeoptimizationLiteralArray::new(),
            script: Script::new(),
        }
    }
}

impl Default for VMData {
    fn default() -> (r: VMData)
        ensures
            r == VMData::unknown(),
    {
        VMData::new()
    }
}

} // verus!
