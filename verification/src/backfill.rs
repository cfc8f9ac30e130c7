//! The rules that derive the layout facts an engine does not publish from
//! the facts it does publish and from its version.
//!
//! A fact that is zero is unknown. Every rule fills one unknown fact and
//! leaves a known one as it is. Offsets are computed in the width of the
//! fact, wrapping around at its limits.

use vstd::prelude::*;
use crate::layout::{
    BaselineData, BytecodeArray, Code, CodeKind, DeoptimizationDataIndex, Fixed, FramePointer,
    JSFunction, Script, VMData,
};
use crate::version::{ordinal, v8_ver};

verus! {

/// The width of a tagged pointer in the target, in bytes.
pub const POINTER_SIZE: u8 = 8;

/// The same width, for offsets of two bytes.
pub const WIDE_POINTER_SIZE: u16 = 8;

/// The code-kind value that no code object carries.
pub const UNREACHABLE_CODE_KIND: u8 = 0xff;

/// A one-byte offset moved by `delta` bytes, a distance of less than the
/// offset's range, and wrapped around at the limits of a byte.
pub open spec fn shift8(base: u8, delta: int) -> u8 {
    if base + delta < 0 {
        (base + delta + 0x100) as u8
    } else if base + delta > u8::MAX {
        (base + delta - 0x100) as u8
    } else {
        (base + delta) as u8
    }
}

/// A two-byte offset moved by `delta` bytes, a distance of less than the
/// offset's range, and wrapped around at the limits of two bytes.
pub open spec fn shift16(base: u16, delta: int) -> u16 {
    if base + delta < 0 {
        (base + delta + 0x1_0000) as u16
    } else if base + delta > u16::MAX {
        (base + delta - 0x1_0000) as u16
    } else {
        (base + delta) as u16
    }
}

/// Moving an offset is addition modulo its range.
pub proof fn lemma_shift_is_modular(base8: u8, base16: u16, delta: int)
    requires
        -0x100 < delta < 0x100,
    ensures
        shift8(base8, delta) == (base8 + delta) % 0x100,
        shift16(base16, delta) == (base16 + delta) % 0x1_0000,
{
}

/// The probed value where there is one, the derived value where not.
pub open spec fn or8(probed: u8, derived: u8) -> u8 {
    if probed != 0 { probed } else { derived }
}

/// The probed value where there is one, the derived value where not.
pub open spec fn or16(probed: u16, derived: u16) -> u16 {
    if probed != 0 { probed } else { derived }
}

/// How far below the function slot the bytecode array lies in a frame.
pub open spec fn bytecode_array_gap(ver: u32) -> int {
    if ver >= ordinal(8, 7, 198) { 16 } else { 8 }
}

/// How many instance-type tags the function classes take up.
pub open spec fn function_type_count(ver: u32) -> int {
    if ver >= ordinal(9, 6, 138) {
        15
    } else if ver >= ordinal(9, 0, 14) {
        14
    } else {
        1
    }
}

/// Where a function's code lies relative to its shared function info.
pub open spec fn function_code_gap(ver: u32) -> int {
    if ver >= ordinal(11, 7, 368) { -8 } else { 24 }
}

/// How far behind the flags of a code object its instruction size lies.
pub open spec fn instruction_size_gap(ver: u32) -> int {
    if ver >= ordinal(11, 4, 59) { 8 } else { 4 }
}

/// Whether engines of this version have a baseline compiler.
pub open spec fn has_baseline(ver: u32) -> bool {
    ver >= ordinal(9, 0, 240)
}

/// The frame-pointer offsets: the bytecode array lies one or two pointers
/// below the function slot, the bytecode offset one pointer below the
/// bytecode array, whether that one was probed or derived just before.
pub open spec fn fill_frame_pointer(f: FramePointer, ver: u32) -> FramePointer {
    let bytecode_array = or8(f.bytecode_array, shift8(f.function, -bytecode_array_gap(ver)));
    FramePointer {
        function: f.function,
        context: f.context,
        bytecode_array,
        bytecode_offset: or8(f.bytecode_offset, shift8(bytecode_array, -8)),
    }
}

/// The range of function tags. Where its first tag is unknown, it
/// starts at the tag `base` of the function class, and its last tag, where
/// that is unknown too, closes a range of as many tags as the version has
/// function classes. With a known first tag nothing is derived.
pub open spec fn fill_fixed(f: Fixed, base: u16, ver: u32) -> Fixed {
    if f.first_jsfunction_type != 0 {
        f
    } else {
        Fixed {
            first_jsfunction_type: base,
            last_jsfunction_type: or16(
                f.last_jsfunction_type,
                shift16(base, function_type_count(ver) - 1),
            ),
            ..f
        }
    }
}

pub open spec fn fill_jsfunction(f: JSFunction, ver: u32) -> JSFunction {
    JSFunction {
        code: or16(f.code, shift16(f.shared_function_info, function_code_gap(ver))),
        shared_function_info: f.shared_function_info,
    }
}

/// A code object of which the source position table is known and the
/// instruction size is not: the other offsets are then counted from the
/// table.
pub open spec fn code_lacks_instruction_size(k: Code) -> bool {
    k.instruction_size == 0 && k.source_position_table != 0
}

pub open spec fn code_source_position_table(k: Code) -> u16 {
    if k.instruction_size != 0 {
        or16(k.source_position_table, shift16(k.instruction_size, -16))
    } else {
        k.source_position_table
    }
}

pub open spec fn code_instruction_start(k: Code) -> u16 {
    if code_lacks_instruction_size(k) {
        or16(k.instruction_start, shift16(k.source_position_table, 16))
    } else {
        k.instruction_start
    }
}

pub open spec fn code_flags(k: Code) -> u16 {
    if k.instruction_size != 0 {
        or16(k.flags, shift16(k.instruction_size, 8))
    } else if k.source_position_table != 0 {
        or16(k.flags, shift16(code_instruction_start(k), 8))
    } else {
        k.flags
    }
}

pub open spec fn code_instruction_size(k: Code, ver: u32) -> u16 {
    if code_lacks_instruction_size(k) {
        shift16(code_flags(k), instruction_size_gap(ver))
    } else {
        k.instruction_size
    }
}

pub open spec fn code_deoptimization_data(k: Code) -> u16 {
    if code_source_position_table(k) != 0 {
        or16(k.deoptimization_data, shift16(code_source_position_table(k), -8))
    } else {
        k.deoptimization_data
    }
}

/// The offsets of a code object. They are counted from the instruction
/// size where that is known, else from the source position table, and
/// where neither is known nothing is derived.
pub open spec fn fill_code(k: Code, ver: u32) -> Code {
    Code {
        deoptimization_data: code_deoptimization_data(k),
        source_position_table: code_source_position_table(k),
        instruction_start: code_instruction_start(k),
        instruction_size: code_instruction_size(k, ver),
        flags: code_flags(k),
    }
}

pub open spec fn fill_script(s: Script) -> Script {
    Script { name: s.name, line_ends: s.line_ends, source: or16(s.source, shift16(s.name, -8)) }
}

/// The offsets of a bytecode array, counted from the offset `length` of a
/// fixed array's length.
pub open spec fn fill_bytecode_array(b: BytecodeArray, length: u16) -> BytecodeArray {
    let table = or16(b.source_position_table, shift16(length, 24));
    BytecodeArray { source_position_table: table, data: or16(b.data, shift16(table, 22)) }
}

pub open spec fn fill_deoptimization_data_index(
    d: DeoptimizationDataIndex,
) -> DeoptimizationDataIndex {
    let inlined_function_count = or8(d.inlined_function_count, 1);
    let shared_function_info = or8(d.shared_function_info, 6);
    DeoptimizationDataIndex {
        inlined_function_count,
        literal_array: or8(d.literal_array, shift8(inlined_function_count, 1)),
        shared_function_info,
        inlining_positions: or8(d.inlining_positions, shift8(shared_function_info, 1)),
    }
}

/// The code-kind description. Where the baseline kind is unknown, an
/// engine with a baseline compiler gets that compiler's kind and, where
/// the mask is unknown too, its mask; an older engine gets the kind that no
/// code object carries, so that nothing is ever taken for baseline code.
pub open spec fn fill_code_kind(k: CodeKind, ver: u32) -> CodeKind {
    if k.baseline != 0 {
        k
    } else if has_baseline(ver) {
        CodeKind {
            field_mask: if k.field_mask != 0 { k.field_mask } else { 0xf },
            field_shift: k.field_shift,
            baseline: 11,
        }
    } else {
        CodeKind {
            field_mask: k.field_mask,
            field_shift: k.field_shift,
            baseline: UNREACHABLE_CODE_KIND,
        }
    }
}

/// The offset of the data of a baseline-data object, two pointers behind
/// the offset `map` of a heap object's map. It is derived only where the
/// code-kind mask `mask` is known.
pub open spec fn fill_baseline_data(b: BaselineData, mask: u32, map: u16) -> BaselineData {
    if mask != 0 {
        BaselineData { data: or16(b.data, shift16(map, 16)) }
    } else {
        b
    }
}

/// The catalogue with every unknown fact filled that a rule derives for
/// engines of this version.
pub open spec fn backfill_spec(c: VMData, ver: u32) -> VMData {
    let code_kind = fill_code_kind(c.code_kind, ver);
    VMData {
        fixed: fill_fixed(c.fixed, c.typ.js_function, ver),
        frame_pointer: fill_frame_pointer(c.frame_pointer, ver),
        deoptimization_data_index: fill_deoptimization_data_index(c.deoptimization_data_index),
        code_kind,
        jsfunction: fill_jsfunction(c.jsfunction, ver),
        code: fill_code(c.code, ver),
        baseline_data: fill_baseline_data(c.baseline_data, code_kind.field_mask, c.heap_object.map),
        bytecode_array: fill_bytecode_array(c.bytecode_array, c.fixed_array_base.length),
        script: fill_script(c.script),
        ..c
    }
}

/// A fact that was known is the same afterwards.
pub open spec fn kept(before: int, after: int) -> bool {
    before != 0 ==> after == before
}

/// Every fact that was known in `before` is the same in `after`, and the
/// facts that no rule derives are the same whether known or not.
pub open spec fn keeps_known(before: VMData, after: VMData) -> bool {
    &&& after.scope_info_index == before.scope_info_index
    &&& after.frame_type == before.frame_type
    &&& after.typ == before.typ
    &&& after.heap_object == before.heap_object
    &&& after.map == before.map
    &&& after.fixed_array_base == before.fixed_array_base
    &&& after.fixed_array == before.fixed_array
    &&& after.string == before.string
    &&& after.seq_one_byte_string == before.seq_one_byte_string
    &&& after.seq_two_byte_string == before.seq_two_byte_string
    &&& after.cons_string == before.cons_string
    &&& after.thin_string == before.thin_string
    &&& after.shared_function_info == before.shared_function_info
    &&& after.scope_info == before.scope_info
    &&& after.deoptimization_literal_array == before.deoptimization_literal_array
    &&& after.fixed == (Fixed {
        first_jsfunction_type: after.fixed.first_jsfunction_type,
        last_jsfunction_type: after.fixed.last_jsfunction_type,
        ..before.fixed
    })
    &&& kept(before.fixed.first_jsfunction_type as int, after.fixed.first_jsfunction_type as int)
    &&& kept(before.fixed.last_jsfunction_type as int, after.fixed.last_jsfunction_type as int)
    &&& after.frame_pointer.function == before.frame_pointer.function
    &&& after.frame_pointer.context == before.frame_pointer.context
    &&& kept(before.frame_pointer.bytecode_array as int, after.frame_pointer.bytecode_array as int)
    &&& kept(
        before.frame_pointer.bytecode_offset as int,
        after.frame_pointer.bytecode_offset as int,
    )
    &&& kept(
        before.deoptimization_data_index.inlined_function_count as int,
        after.deoptimization_data_index.inlined_function_count as int,
    )
    &&& kept(
        before.deoptimization_data_index.literal_array as int,
        after.deoptimization_data_index.literal_array as int,
    )
    &&& kept(
        before.deoptimization_data_index.shared_function_info as int,
        after.deoptimization_data_index.shared_function_info as int,
    )
    &&& kept(
        before.deoptimization_data_index.inlining_positions as int,
        after.deoptimization_data_index.inlining_positions as int,
    )
    &&& kept(before.code_kind.field_mask as int, after.code_kind.field_mask as int)
    &&& after.code_kind.field_shift == before.code_kind.field_shift
    &&& kept(before.code_kind.baseline as int, after.code_kind.baseline as int)
    &&& kept(before.jsfunction.code as int, after.jsfunction.code as int)
    &&& after.jsfunction.shared_function_info == before.jsfunction.shared_function_info
    &&& kept(before.code.deoptimization_data as int, after.code.deoptimization_data as int)
    &&& kept(before.code.source_position_table as int, after.code.source_position_table as int)
    &&& kept(before.code.instruction_start as int, after.code.instruction_start as int)
    &&& kept(before.code.instruction_size as int, after.code.instruction_size as int)
    &&& kept(before.code.flags as int, after.code.flags as int)
    &&& kept(before.baseline_data.data as int, after.baseline_data.data as int)
    &&& kept(
        before.bytecode_array.source_position_table as int,
        after.bytecode_array.source_position_table as int,
    )
    &&& kept(before.bytecode_array.data as int, after.bytecode_array.data as int)
    &&& after.script.name == before.script.name
    &&& after.script.line_ends == before.script.line_ends
    &&& kept(before.script.source as int, after.script.source as int)
}

pub fn derive_frame_pointer(f: FramePointer, ver: u32) -> (r: FramePointer)
    ensures
        r == fill_frame_pointer(f, ver),
{
    let mut f = f;
    if f.bytecode_array == 0 {
        if ver >= v8_ver(8, 7, 198) {
            f.bytecode_array = f.function.wrapping_sub(2 * POINTER_SIZE);
        } else {
            f.bytecode_array = f.function.wrapping_sub(POINTER_SIZE);
        }
    }
    if f.bytecode_offset == 0 {
        f.bytecode_offset = f.bytecode_array.wrapping_sub(POINTER_SIZE);
    }
    f
}

pub fn derive_function_types(f: Fixed, base: u16, ver: u32) -> (r: Fixed)
    ensures
        r == fill_fixed(f, base, ver),
{
    let mut f = f;
    if f.first_jsfunction_type == 0 {
        // The function class is final in old engines; later ones have
        // classes that inherit from it, and their tags follow its own.
        let mut num_jsfunc_types: u16 = 1;
        if ver >= v8_ver(9, 6, 138) {
            num_jsfunc_types = 15;
        } else if ver >= v8_ver(9, 0, 14) {
            num_jsfunc_types = 14;
        }
        f.first_jsfunction_type = base;
        if f.last_jsfunction_type == 0 {
            f.last_jsfunction_type = base.wrapping_add(num_jsfunc_types - 1);
        }
    }
    f
}

pub fn derive_jsfunction(f: JSFunction, ver: u32) -> (r: JSFunction)
    ensures
        r == fill_jsfunction(f, ver),
{
    let mut f = f;
    if f.code == 0 {
        if ver >= v8_ver(11, 7, 368) {
            f.code = f.shared_function_info.wrapping_sub(WIDE_POINTER_SIZE);
        } else {
            f.code = f.shared_function_info.wrapping_add(3 * WIDE_POINTER_SIZE);
        }
    }
    f
}

pub fn derive_code(k: Code, ver: u32) -> (r: Code)
    ensures
        r == fill_code(k, ver),
{
    let mut k = k;
    if k.instruction_size != 0 {
        if k.source_position_table == 0 {
            k.source_position_table = k.instruction_size.wrapping_sub(2 * WIDE_POINTER_SIZE);
        }
        if k.flags == 0 {
            // Two 32-bit integers lie between the two.
            k.flags = k.instruction_size.wrapping_add(2 * 4);
        }
    } else if k.source_position_table != 0 {
        // Engines that publish nothing else of a code object.
        if k.deoptimization_data == 0 {
            k.deoptimization_data = k.source_position_table.wrapping_sub(WIDE_POINTER_SIZE);
        }
        if k.instruction_start == 0 {
            k.instruction_start = k.source_position_table.wrapping_add(2 * WIDE_POINTER_SIZE);
        }
        if k.flags == 0 {
            k.flags = k.instruction_start.wrapping_add(WIDE_POINTER_SIZE);
        }
        let mut instruction_size: u16 = k.flags.wrapping_add(4);
        if ver >= v8_ver(11, 4, 59) {
            // The builtin id and the kind-specific flags, two bytes each.
            instruction_size = instruction_size.wrapping_add(2 + 2);
        }
        k.instruction_size = instruction_size;
    }
    if k.deoptimization_data == 0 && k.source_position_table != 0 {
        k.deoptimization_data = k.source_position_table.wrapping_sub(WIDE_POINTER_SIZE);
    }
    k
}

pub fn derive_script(s: Script) -> (r: Script)
    ensures
        r == fill_script(s),
{
    let mut s = s;
    if s.source == 0 {
        s.source = s.name.wrapping_sub(WIDE_POINTER_SIZE);
    }
    s
}

pub fn derive_bytecode_array(b: BytecodeArray, length: u16) -> (r: BytecodeArray)
    ensures
        r == fill_bytecode_array(b, length),
{
    let mut b = b;
    if b.source_position_table == 0 {
        b.source_position_table = length.wrapping_add(3 * WIDE_POINTER_SIZE);
    }
    if b.data == 0 {
        // A pointer, three 32-bit integers and one 16-bit integer.
        b.data = b.source_position_table.wrapping_add(WIDE_POINTER_SIZE + 14);
    }
    b
}

pub fn derive_deoptimization_data_index(d: DeoptimizationDataIndex) -> (r: DeoptimizationDataIndex)
    ensures
        r == fill_deoptimization_data_index(d),
{
    let mut d = d;
    if d.inlined_function_count == 0 {
        d.inlined_function_count = 1;
    }
    if d.literal_array == 0 {
        d.literal_array = d.inlined_function_count.wrapping_add(1);
    }
    if d.shared_function_info == 0 {
        d.shared_function_info = 6;
    }
    if d.inlining_positions == 0 {
        d.inlining_positions = d.shared_function_info.wrapping_add(1);
    }
    d
}

pub fn derive_code_kind(k: CodeKind, ver: u32) -> (r: CodeKind)
    ensures
        r == fill_code_kind(k, ver),
{
    let mut k = k;
    if k.baseline == 0 {
        if ver >= v8_ver(9, 0, 240) {
            if k.field_mask == 0 {
                k.field_mask = 0xf;
            }
            k.baseline = 11;
        } else {
            k.baseline = UNREACHABLE_CODE_KIND;
        }
    }
    k
}

pub fn derive_baseline_data(b: BaselineData, mask: u32, map: u16) -> (r: BaselineData)
    ensures
        r == fill_baseline_data(b, mask, map),
{
    let mut b = b;
    if b.data == 0 && mask != 0 {
        b.data = map.wrapping_add(2 * WIDE_POINTER_SIZE);
    }
    b
}

/// Fills every unknown fact of the catalogue that a rule derives for
/// engines of the version with ordinal `ver`. Known facts stay as they are.
pub fn backfill(vms: VMData, ver: u32) -> (filled: VMData)
    ensures
        filled == backfill_spec(vms, ver),
        keeps_known(vms, filled),
{
    let mut filled = vms;
    filled.frame_pointer = derive_frame_pointer(vms.frame_pointer, ver);
    filled.fixed = derive_function_types(vms.fixed, vms.typ.js_function, ver);
    filled.jsfunction = derive_jsfunction(vms.jsfunction, ver);
    filled.code = derive_code(vms.code, ver);
    filled.script = derive_script(vms.script);
    filled.bytecode_array = derive_bytecode_array(vms.bytecode_array, vms.fixed_array_base.length);
    filled.deoptimization_data_index = derive_deoptimization_data_index(
        vms.deoptimization_data_index,
    );
    filled.code_kind = derive_code_kind(vms.code_kind, ver);
    filled.baseline_data = derive_baseline_data(
        vms.baseline_data,
        filled.code_kind.field_mask,
        vms.heap_object.map,
    );
    proof {
        lemma_backfill_keeps_known(vms, ver);
    }
    filled
}

/// The one shape of catalogue on which a second run of the rules changes
/// what the first run left: the code object's flags offset was derived from
/// its instruction start and wrapped around to zero, so that it still reads
/// as unknown while the instruction size derived from it does not.
pub open spec fn derived_flags_read_unknown(c: VMData) -> bool {
    code_lacks_instruction_size(c.code) && code_flags(c.code) == 0
}

/// Running the rules a second time changes nothing.
pub proof fn lemma_backfill_idempotent(c: VMData, ver: u32)
    requires
        !derived_flags_read_unknown(c),
    ensures
        backfill_spec(backfill_spec(c, ver), ver) == backfill_spec(c, ver),
{
}

/// On a catalogue of the one excluded shape a second run does change the
/// flags offset.
pub proof fn lemma_backfill_second_run_differs(c: VMData, ver: u32)
    requires
        derived_flags_read_unknown(c),
    ensures
        backfill_spec(backfill_spec(c, ver), ver).code.flags != backfill_spec(c, ver).code.flags,
{
}

/// The rules never alter a fact that was known, whatever the version.
pub proof fn lemma_backfill_keeps_known(c: VMData, ver: u32)
    ensures
        keeps_known(c, backfill_spec(c, ver)),
{
}

/// Whatever was probed, the rules leave these facts known: the two slot
/// indices that have a fixed default, the baseline kind, and, for an engine
/// with a baseline compiler, the code-kind mask.
pub proof fn lemma_backfill_resolves_defaults(c: VMData, ver: u32)
    ensures
        backfill_spec(c, ver).deoptimization_data_index.inlined_function_count != 0,
        backfill_spec(c, ver).deoptimization_data_index.shared_function_info != 0,
        backfill_spec(c, ver).code_kind.baseline != 0,
        has_baseline(ver) && c.code_kind.baseline == 0 ==> backfill_spec(
            c,
            ver,
        ).code_kind.field_mask != 0,
{
}

/// A version of which nothing could be read has the ordinal zero, and the
/// rules then take the branch of the earliest engines throughout.
pub proof fn lemma_unread_version_is_earliest()
    ensures
        ordinal(0, 0, 0) == 0,
        bytecode_array_gap(0) == 8,
        function_type_count(0) == 1,
        function_code_gap(0) == 24,
        instruction_size_gap(0) == 4,
        !has_baseline(0),
{
}

} // verus!
