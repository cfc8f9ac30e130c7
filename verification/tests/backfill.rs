use v8_spy::backfill::{
    backfill, derive_bytecode_array, derive_code, derive_code_kind,
    derive_deoptimization_data_index, derive_frame_pointer, derive_function_types,
    derive_jsfunction, derive_script, derive_baseline_data,
};
use v8_spy::layout::{
    BaselineData, BytecodeArray, Code, CodeKind, DeoptimizationDataIndex, Fixed, FramePointer,
    JSFunction, Script, VMData,
};
use v8_spy::version::v8_ver;

#[test]
fn old_frames_keep_the_bytecode_array_one_pointer_below_the_function() {
    let mut vms = VMData::new();
    vms.frame_pointer.function = 24;
    let filled = backfill(vms, v8_ver(8, 4, 0));
    assert_eq!(filled.frame_pointer.function, 24);
    assert_eq!(filled.frame_pointer.bytecode_array, 16);
    assert_eq!(filled.frame_pointer.bytecode_offset, 8);
}

#[test]
fn newer_frames_keep_the_bytecode_array_two_pointers_below_the_function() {
    let mut f = FramePointer::new();
    f.function = 40;
    let at = derive_frame_pointer(f, v8_ver(8, 7, 198));
    assert_eq!(at.bytecode_array, 24);
    assert_eq!(at.bytecode_offset, 16);
    let before = derive_frame_pointer(f, v8_ver(8, 7, 197));
    assert_eq!(before.bytecode_array, 32);
    assert_eq!(before.bytecode_offset, 24);
}

#[test]
fn bytecode_offset_follows_a_probed_bytecode_array() {
    let f = FramePointer { function: 40, context: 3, bytecode_array: 100, bytecode_offset: 0 };
    let filled = derive_frame_pointer(f, v8_ver(10, 0, 0));
    assert_eq!(
        filled,
        FramePointer { function: 40, context: 3, bytecode_array: 100, bytecode_offset: 92 }
    );
}

#[test]
fn frame_offsets_wrap_below_zero() {
    let filled = derive_frame_pointer(FramePointer::new(), 0);
    assert_eq!(filled.bytecode_array, 248);
    assert_eq!(filled.bytecode_offset, 240);
}

#[test]
fn function_range_has_fifteen_tags_since_9_6_138() {
    let mut vms = VMData::new();
    vms.typ.js_function = 1057;
    let filled = backfill(vms, v8_ver(9, 6, 200));
    assert_eq!(filled.fixed.first_jsfunction_type, 1057);
    assert_eq!(filled.fixed.last_jsfunction_type, 1071);
    let at = backfill(vms, v8_ver(9, 6, 138));
    assert_eq!(at.fixed.last_jsfunction_type, 1071);
}

#[test]
fn function_range_has_fourteen_tags_since_9_0_14() {
    let f = derive_function_types(Fixed::new(), 1057, v8_ver(9, 6, 137));
    assert_eq!((f.first_jsfunction_type, f.last_jsfunction_type), (1057, 1070));
    let f = derive_function_types(Fixed::new(), 1057, v8_ver(9, 0, 14));
    assert_eq!((f.first_jsfunction_type, f.last_jsfunction_type), (1057, 1070));
}

#[test]
fn function_range_is_one_tag_before_9_0_14() {
    let f = derive_function_types(Fixed::new(), 1057, v8_ver(9, 0, 13));
    assert_eq!((f.first_jsfunction_type, f.last_jsfunction_type), (1057, 1057));
    let f = derive_function_types(Fixed::new(), u16::MAX, 0);
    assert_eq!((f.first_jsfunction_type, f.last_jsfunction_type), (u16::MAX, u16::MAX));
    let f = derive_function_types(Fixed::new(), u16::MAX, v8_ver(9, 6, 138));
    assert_eq!((f.first_jsfunction_type, f.last_jsfunction_type), (u16::MAX, 13));
}

#[test]
fn probed_function_range_is_kept() {
    let mut probed = Fixed::new();
    probed.first_jsfunction_type = 2000;
    probed.last_jsfunction_type = 2010;
    assert_eq!(derive_function_types(probed, 1057, v8_ver(9, 6, 200)), probed);
    // With a first tag alone nothing is derived.
    let mut first_only = Fixed::new();
    first_only.first_jsfunction_type = 2000;
    assert_eq!(derive_function_types(first_only, 1057, v8_ver(9, 6, 200)), first_only);
    // A probed last tag outlives the derivation of the first.
    let mut last_only = Fixed::new();
    last_only.last_jsfunction_type = 2010;
    let f = derive_function_types(last_only, 1057, v8_ver(9, 6, 200));
    assert_eq!((f.first_jsfunction_type, f.last_jsfunction_type), (1057, 2010));
}

#[test]
fn function_code_lies_before_the_shared_info_since_11_7_368() {
    let f = JSFunction { code: 0, shared_function_info: 24 };
    assert_eq!(derive_jsfunction(f, v8_ver(11, 7, 368)).code, 16);
    assert_eq!(derive_jsfunction(f, v8_ver(11, 7, 367)).code, 48);
    assert_eq!(derive_jsfunction(f, v8_ver(8, 4, 0)).shared_function_info, 24);
    let probed = JSFunction { code: 99, shared_function_info: 24 };
    assert_eq!(derive_jsfunction(probed, v8_ver(11, 7, 368)), probed);
}

#[test]
fn code_offsets_are_counted_from_the_instruction_size() {
    let k = Code {
        deoptimization_data: 0,
        source_position_table: 0,
        instruction_start: 0,
        instruction_size: 40,
        flags: 0,
    };
    let filled = derive_code(k, v8_ver(9, 0, 0));
    assert_eq!(
        filled,
        Code {
            deoptimization_data: 16,
            source_position_table: 24,
            instruction_start: 0,
            instruction_size: 40,
            flags: 48,
        }
    );
}

#[test]
fn code_offsets_are_counted_from_the_source_position_table() {
    let k = Code {
        deoptimization_data: 0,
        source_position_table: 32,
        instruction_start: 0,
        instruction_size: 0,
        flags: 0,
    };
    assert_eq!(
        derive_code(k, v8_ver(11, 4, 59)),
        Code {
            deoptimization_data: 24,
            source_position_table: 32,
            instruction_start: 48,
            instruction_size: 64,
            flags: 56,
        }
    );
    assert_eq!(derive_code(k, v8_ver(11, 4, 58)).instruction_size, 60);
    let with_start = Code { instruction_start: 100, ..k };
    let filled = derive_code(with_start, v8_ver(11, 0, 0));
    assert_eq!(filled.instruction_start, 100);
    assert_eq!(filled.flags, 108);
    assert_eq!(filled.instruction_size, 112);
}

#[test]
fn code_without_table_and_size_stays_unknown() {
    let k = Code {
        deoptimization_data: 0,
        source_position_table: 0,
        instruction_start: 7,
        instruction_size: 0,
        flags: 0,
    };
    assert_eq!(derive_code(k, v8_ver(11, 7, 368)), k);
    assert_eq!(derive_code(Code::new(), v8_ver(8, 4, 0)), Code::new());
}

#[test]
fn probed_code_offsets_are_kept() {
    let k = Code {
        deoptimization_data: 1,
        source_position_table: 2,
        instruction_start: 3,
        instruction_size: 4,
        flags: 5,
    };
    assert_eq!(derive_code(k, v8_ver(11, 7, 368)), k);
    assert_eq!(derive_code(k, 0), k);
}

#[test]
fn script_source_lies_one_pointer_before_the_name() {
    let s = Script { name: 16, line_ends: 0, source: 0 };
    assert_eq!(derive_script(s), Script { name: 16, line_ends: 0, source: 8 });
    let probed = Script { name: 16, line_ends: 5, source: 40 };
    assert_eq!(derive_script(probed), probed);
}

#[test]
fn bytecode_array_is_counted_from_the_array_length() {
    assert_eq!(
        derive_bytecode_array(BytecodeArray::new(), 8),
        BytecodeArray { source_position_table: 32, data: 54 }
    );
    let with_table = BytecodeArray { source_position_table: 100, data: 0 };
    assert_eq!(
        derive_bytecode_array(with_table, 8),
        BytecodeArray { source_position_table: 100, data: 122 }
    );
    let probed = BytecodeArray { source_position_table: 100, data: 7 };
    assert_eq!(derive_bytecode_array(probed, 8), probed);
}

#[test]
fn deoptimization_indices_default_to_their_slots() {
    assert_eq!(
        derive_deoptimization_data_index(DeoptimizationDataIndex::new()),
        DeoptimizationDataIndex {
            inlined_function_count: 1,
            literal_array: 2,
            shared_function_info: 6,
            inlining_positions: 7,
        }
    );
    let d = DeoptimizationDataIndex {
        inlined_function_count: 3,
        literal_array: 0,
        shared_function_info: 9,
        inlining_positions: 0,
    };
    assert_eq!(
        derive_deoptimization_data_index(d),
        DeoptimizationDataIndex {
            inlined_function_count: 3,
            literal_array: 4,
            shared_function_info: 9,
            inlining_positions: 10,
        }
    );
}

#[test]
fn engines_without_baseline_get_the_unreachable_kind() {
    let mut vms = VMData::new();
    vms.heap_object.map = 0;
    let filled = backfill(vms, v8_ver(7, 0, 0));
    assert_eq!(filled.code_kind.baseline, 0xff);
    assert_eq!(filled.code_kind.field_mask, 0);
    assert_eq!(filled.code_kind.field_shift, 0);
    assert_eq!(filled.baseline_data.data, 0);
    let just_before = derive_code_kind(CodeKind::new(), v8_ver(9, 0, 239));
    assert_eq!(just_before, CodeKind { field_mask: 0, field_shift: 0, baseline: 0xff });
}

#[test]
fn engines_with_baseline_get_its_kind_and_mask() {
    let k = derive_code_kind(CodeKind::new(), v8_ver(9, 0, 240));
    assert_eq!(k, CodeKind { field_mask: 0xf, field_shift: 0, baseline: 11 });
    let probed_mask = CodeKind { field_mask: 0x1f, field_shift: 2, baseline: 0 };
    assert_eq!(
        derive_code_kind(probed_mask, v8_ver(10, 0, 0)),
        CodeKind { field_mask: 0x1f, field_shift: 2, baseline: 11 }
    );
    let probed = CodeKind { field_mask: 0xf, field_shift: 0, baseline: 12 };
    assert_eq!(derive_code_kind(probed, v8_ver(10, 0, 0)), probed);
    assert_eq!(derive_code_kind(probed, v8_ver(7, 0, 0)), probed);
}

#[test]
fn baseline_data_needs_a_code_kind_mask() {
    assert_eq!(derive_baseline_data(BaselineData::new(), 0xf, 0).data, 16);
    assert_eq!(derive_baseline_data(BaselineData::new(), 0xf, 8).data, 24);
    assert_eq!(derive_baseline_data(BaselineData::new(), 0, 8).data, 0);
    assert_eq!(derive_baseline_data(BaselineData { data: 5 }, 0xf, 8).data, 5);
    let mut vms = VMData::new();
    vms.heap_object.map = 8;
    assert_eq!(backfill(vms, v8_ver(9, 0, 240)).baseline_data.data, 24);
    assert_eq!(backfill(vms, v8_ver(9, 0, 239)).baseline_data.data, 0);
}

fn partly_probed() -> VMData {
    let mut vms = VMData::new();
    vms.fixed.heap_object_tag_mask = 3;
    vms.fixed.smi_tag_mask = 1;
    vms.fixed.heap_object_tag = 1;
    vms.frame_pointer.function = 240;
    vms.frame_pointer.context = 248;
    vms.typ.js_function = 1057;
    vms.typ.code = 69;
    vms.heap_object.map = 0;
    vms.fixed_array_base.length = 8;
    vms.jsfunction.shared_function_info = 24;
    vms.code.source_position_table = 32;
    vms.script.name = 16;
    vms.frame_type.entry_frame = 1;
    vms.frame_type.wasm_interpreter_entry_frame = 0xff;
    vms.scope_info.heap_object = true;
    vms
}

#[test]
fn backfill_fills_a_partly_probed_catalogue() {
    let vms = partly_probed();
    let filled = backfill(vms, v8_ver(11, 7, 368));
    assert_eq!(filled.frame_pointer.bytecode_array, 224);
    assert_eq!(filled.frame_pointer.bytecode_offset, 216);
    assert_eq!(filled.fixed.first_jsfunction_type, 1057);
    assert_eq!(filled.fixed.last_jsfunction_type, 1071);
    assert_eq!(filled.jsfunction.code, 16);
    assert_eq!(filled.code.deoptimization_data, 24);
    assert_eq!(filled.code.instruction_start, 48);
    assert_eq!(filled.code.flags, 56);
    assert_eq!(filled.code.instruction_size, 64);
    assert_eq!(filled.script.source, 8);
    assert_eq!(filled.bytecode_array.source_position_table, 32);
    assert_eq!(filled.bytecode_array.data, 54);
    assert_eq!(filled.deoptimization_data_index.literal_array, 2);
    assert_eq!(filled.deoptimization_data_index.inlining_positions, 7);
    assert_eq!(filled.code_kind.baseline, 11);
    assert_eq!(filled.code_kind.field_mask, 0xf);
    assert_eq!(filled.baseline_data.data, 16);
    // What no rule derives is as it was.
    assert_eq!(filled.frame_type, vms.frame_type);
    assert_eq!(filled.typ, vms.typ);
    assert_eq!(filled.scope_info, vms.scope_info);
    assert_eq!(filled.shared_function_info, vms.shared_function_info);
    assert_eq!(filled.fixed.heap_object_tag_mask, 3);
    assert_eq!(filled.script.line_ends, 0);
}

#[test]
fn backfill_twice_is_backfill_once() {
    let versions = [
        0,
        v8_ver(7, 0, 0),
        v8_ver(8, 4, 0),
        v8_ver(8, 7, 198),
        v8_ver(9, 0, 14),
        v8_ver(9, 0, 240),
        v8_ver(9, 6, 138),
        v8_ver(11, 4, 59),
        v8_ver(11, 7, 368),
        u32::MAX,
    ];
    for ver in versions {
        let once = backfill(partly_probed(), ver);
        assert_eq!(backfill(once, ver), once);
        let bare = backfill(VMData::new(), ver);
        assert_eq!(backfill(bare, ver), bare);
    }
}

#[test]
fn a_flags_offset_that_wraps_to_zero_is_derived_anew() {
    let mut vms = VMData::new();
    vms.code.source_position_table = 65512;
    let ver = v8_ver(11, 0, 0);
    let once = backfill(vms, ver);
    assert_eq!(once.code.instruction_start, 65528);
    assert_eq!(once.code.flags, 0);
    assert_eq!(once.code.instruction_size, 4);
    let twice = backfill(once, ver);
    assert_eq!(twice.code.flags, 12);
}

#[test]
fn backfill_keeps_every_probed_fact() {
    let mut vms = VMData::new();
    vms.fixed.first_jsfunction_type = 1;
    vms.fixed.last_jsfunction_type = 2;
    vms.frame_pointer.function = 3;
    vms.frame_pointer.bytecode_array = 4;
    vms.frame_pointer.bytecode_offset = 5;
    vms.deoptimization_data_index.inlined_function_count = 6;
    vms.deoptimization_data_index.literal_array = 7;
    vms.deoptimization_data_index.shared_function_info = 8;
    vms.deoptimization_data_index.inlining_positions = 9;
    vms.code_kind.field_mask = 10;
    vms.code_kind.field_shift = 11;
    vms.code_kind.baseline = 12;
    vms.jsfunction.code = 13;
    vms.jsfunction.shared_function_info = 14;
    vms.code.deoptimization_data = 15;
    vms.code.source_position_table = 16;
    vms.code.instruction_start = 17;
    vms.code.instruction_size = 18;
    vms.code.flags = 19;
    vms.baseline_data.data = 20;
    vms.bytecode_array.source_position_table = 21;
    vms.bytecode_array.data = 22;
    vms.script.name = 23;
    vms.script.line_ends = 24;
    vms.script.source = 25;
    vms.typ.js_function = 26;
    vms.heap_object.map = 27;
    vms.fixed_array_base.length = 28;
    for ver in [0, v8_ver(8, 4, 0), v8_ver(9, 6, 200), v8_ver(11, 7, 368), u32::MAX] {
        assert_eq!(backfill(vms, ver), vms);
    }
}

#[test]
fn default_catalogue_knows_nothing() {
    assert_eq!(VMData::default(), VMData::new());
    let vms = VMData::default();
    assert_eq!(vms.fixed.heap_object_tag_mask, 0);
    assert_eq!(vms.frame_type.entry_frame, 0);
    assert_eq!(vms.code, Code::new());
    assert!(!vms.scope_info.heap_object);
    assert!(!vms.deoptimization_literal_array.weak_fixed_array);
}
