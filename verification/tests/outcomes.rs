use v8_spy::layout::{Code, ConsString, FramePointer, JSFunction, SharedFunctionInfo};
use v8_spy::outcomes::{
    code_kind_of, code_of, cons_string_of, frame_pointer_of, jsfunction_of,
    shared_function_info_of, CodeKindProbes, CodeProbes, ConsStringProbes, FramePointerProbes,
    JSFunctionProbes, SharedFunctionInfoProbes,
};
use v8_spy::probe::{decode_probe, pick_first, Probe, Width};
use v8_spy::spy::version_of;
use v8_spy::version::Version;

#[test]
fn first_outcome_that_resolved_is_picked() {
    assert_eq!(pick_first(Probe::Found(1), Probe::Found(2)), Probe::Found(1));
    assert_eq!(pick_first(Probe::Found(1), Probe::NotFound), Probe::Found(1));
    assert_eq!(pick_first(Probe::Found(1), Probe::ReadFailed), Probe::Found(1));
    assert_eq!(pick_first(Probe::NotFound, Probe::Found(2)), Probe::Found(2));
    assert_eq!(pick_first(Probe::ReadFailed, Probe::Found(2)), Probe::Found(2));
    assert_eq!(pick_first(Probe::NotFound, Probe::ReadFailed), Probe::ReadFailed);
    assert_eq!(pick_first(Probe::ReadFailed, Probe::NotFound), Probe::NotFound);
    assert_eq!(pick_first(Probe::NotFound, Probe::NotFound), Probe::NotFound);
    assert_eq!(pick_first(Probe::Found(0), Probe::Found(2)), Probe::Found(0));
}

#[test]
fn version_is_made_of_the_four_outcomes() {
    let version = version_of(
        decode_probe(Some(vec![0x0b, 0, 0, 0]), Width::Four),
        decode_probe(Some(vec![0x07, 0, 0, 0]), Width::Four),
        decode_probe(Some(vec![0x70, 0x01, 0, 0]), Width::Four),
        decode_probe(Some(vec![0x78, 0x56, 0x34, 0x12]), Width::Four),
    );
    assert_eq!(version, Version { major: 11, minor: 7, build: 368, patch: 305419896 });
    // No component takes the value of another.
    let version =
        version_of(Probe::Found(1), Probe::Found(2), Probe::Found(3), Probe::Found(4));
    assert_eq!(version, Version { major: 1, minor: 2, build: 3, patch: 4 });
}

#[test]
fn version_component_without_a_value_is_zero() {
    let version = version_of(
        Probe::Found(11),
        Probe::Found(7),
        decode_probe(None, Width::Four),
        Probe::Found(305419896),
    );
    assert_eq!(version, Version { major: 11, minor: 7, build: 0, patch: 305419896 });
    let version = version_of(Probe::NotFound, Probe::Found(7), Probe::Found(1), Probe::NotFound);
    assert_eq!(version, Version { major: 0, minor: 7, build: 1, patch: 0 });
    let version = version_of(
        Probe::ReadFailed,
        Probe::ReadFailed,
        Probe::ReadFailed,
        Probe::ReadFailed,
    );
    assert_eq!(version, Version { major: 0, minor: 0, build: 0, patch: 0 });
}

#[test]
fn first_name_that_resolved_gives_the_fact() {
    let both = JSFunctionProbes {
        code: Probe::Found(48),
        code_tagged: Probe::Found(56),
        shared_function_info: Probe::Found(24),
    };
    assert_eq!(jsfunction_of(both), JSFunction { code: 48, shared_function_info: 24 });
    let later = JSFunctionProbes {
        code: Probe::NotFound,
        code_tagged: Probe::Found(56),
        shared_function_info: Probe::ReadFailed,
    };
    assert_eq!(jsfunction_of(later), JSFunction { code: 56, shared_function_info: 0 });
    let none = JSFunctionProbes {
        code: Probe::ReadFailed,
        code_tagged: Probe::NotFound,
        shared_function_info: Probe::NotFound,
    };
    assert_eq!(jsfunction_of(none), JSFunction::new());
}

fn no_code() -> CodeProbes {
    CodeProbes {
        deoptimization_data: Probe::NotFound,
        deoptimization_data_tagged: Probe::NotFound,
        source_position_table: Probe::NotFound,
        source_position_table_tagged: Probe::NotFound,
        instruction_start: Probe::NotFound,
        instruction_start_address: Probe::NotFound,
        instruction_size: Probe::NotFound,
        flags: Probe::NotFound,
    }
}

#[test]
fn next_name_gives_the_fact_after_a_failed_read() {
    let mut probes = no_code();
    probes.instruction_start = decode_probe(None, Width::Two);
    probes.instruction_start_address = decode_probe(Some(vec![0x80, 0x00]), Width::Two);
    let code = code_of(probes);
    assert_eq!(code.instruction_start, 128);
    assert_eq!(code, Code { instruction_start: 128, ..Code::new() });
    assert_eq!(code_of(no_code()), Code::new());
}

#[test]
fn code_facts_come_from_their_own_outcomes() {
    let probes = CodeProbes {
        deoptimization_data: Probe::NotFound,
        deoptimization_data_tagged: Probe::Found(1),
        source_position_table: Probe::Found(2),
        source_position_table_tagged: Probe::NotFound,
        instruction_start: Probe::Found(3),
        instruction_start_address: Probe::Found(30),
        instruction_size: Probe::Found(4),
        flags: Probe::Found(5),
    };
    assert_eq!(
        code_of(probes),
        Code {
            deoptimization_data: 1,
            source_position_table: 2,
            instruction_start: 3,
            instruction_size: 4,
            flags: 5,
        }
    );
}

fn no_shared_function_info() -> SharedFunctionInfoProbes {
    SharedFunctionInfoProbes {
        name_or_scope_info: Probe::NotFound,
        name_or_scope_info_tagged: Probe::NotFound,
        function_data: Probe::NotFound,
        function_data_tagged: Probe::NotFound,
        script_or_debug_info: Probe::NotFound,
        script_or_debug_info_heap_object: Probe::NotFound,
        script_or_debug_info_tagged: Probe::NotFound,
    }
}

#[test]
fn third_name_gives_the_fact_where_the_first_two_do_not() {
    let mut probes = no_shared_function_info();
    probes.script_or_debug_info_tagged = decode_probe(Some(vec![0x28, 0x00]), Width::Two);
    assert_eq!(
        shared_function_info_of(probes),
        SharedFunctionInfo { name_or_scope_info: 0, function_data: 0, script_or_debug_info: 40 }
    );
    probes.script_or_debug_info_heap_object = Probe::Found(32);
    assert_eq!(shared_function_info_of(probes).script_or_debug_info, 32);
    probes.script_or_debug_info = Probe::Found(24);
    assert_eq!(shared_function_info_of(probes).script_or_debug_info, 24);
    probes.script_or_debug_info = Probe::ReadFailed;
    probes.script_or_debug_info_heap_object = Probe::ReadFailed;
    assert_eq!(shared_function_info_of(probes).script_or_debug_info, 40);
}

#[test]
fn cons_string_offsets_come_from_their_own_outcomes() {
    let probes = ConsStringProbes {
        first: decode_probe(Some(vec![0x10, 0x00]), Width::Two),
        second: decode_probe(Some(vec![0x18, 0x00]), Width::Two),
    };
    assert_eq!(cons_string_of(probes), ConsString { first: 16, second: 24 });
}

#[test]
fn facts_keep_the_width_they_are_stored_in() {
    let frame = FramePointerProbes {
        function: Probe::Found(0xf0),
        context: Probe::Found(0xff),
        bytecode_array: Probe::NotFound,
        bytecode_offset: Probe::ReadFailed,
    };
    assert_eq!(
        frame_pointer_of(frame),
        FramePointer { function: 0xf0, context: 0xff, bytecode_array: 0, bytecode_offset: 0 }
    );
    let kind = CodeKindProbes {
        field_mask: Probe::Found(0xffff_ffff),
        field_shift: Probe::Found(3),
        baseline: Probe::Found(11),
    };
    let kind = code_kind_of(kind);
    assert_eq!((kind.field_mask, kind.field_shift, kind.baseline), (0xffff_ffff, 3, 11));
    // A value wider than the fact keeps its low bytes.
    let wide = ConsStringProbes { first: Probe::Found(0x1_0005), second: Probe::Found(0xffff) };
    assert_eq!(cons_string_of(wide), ConsString { first: 5, second: 0xffff });
}
