use std::collections::HashMap;
use std::path::PathBuf;

use remoteprocess::Process;
use spytools::binary_parser::BinaryInfo;
use spytools::ProcessInfo;
use v8_spy::catalogue::{
    get_v8_data, probe_code, probe_cons_string, probe_frame_type, probe_jsfunction,
    probe_shared_function_info, read_catalogue, read_jsfunction,
};
use v8_spy::layout::{FrameType, VMData};
use v8_spy::outcomes::{catalogue_of, JSFunctionProbes};
use v8_spy::probe::{read_any, read_either, read_memory, read_unless_found, Probe, Width};
use v8_spy::spy::{get_v8_version, V8Spy};
use v8_spy::version::Version;

/// Memory of this very process, with names for places in it.
struct Target {
    memory: Vec<u8>,
    symbols: HashMap<String, u64>,
}

impl Target {
    fn new() -> Target {
        Target { memory: vec![0u8; 4096], symbols: HashMap::new() }
    }

    /// Stores `bytes` at `offset` and names the place.
    fn put(&mut self, symbol: &str, offset: usize, bytes: &[u8]) {
        self.memory[offset..offset + bytes.len()].copy_from_slice(bytes);
        let addr = self.memory.as_ptr() as usize + offset;
        self.symbols.insert(symbol.to_string(), addr as u64);
    }

    /// Names a place that no process has mapped.
    fn put_unmapped(&mut self, symbol: &str) {
        self.symbols.insert(symbol.to_string(), 8);
    }

    fn binary(&self, symbols: HashMap<String, u64>) -> BinaryInfo {
        BinaryInfo {
            filename: PathBuf::new(),
            symbols,
            bss_addr: 0,
            bss_size: 0,
            offset: 0,
            addr: 0,
            size: 0,
        }
    }

    fn info(&self) -> ProcessInfo {
        ProcessInfo {
            binary: Some(self.binary(self.symbols.clone())),
            library: None,
            maps: Vec::new(),
            path: PathBuf::new(),
            dockerized: false,
        }
    }

    fn info_from_library(&self) -> ProcessInfo {
        ProcessInfo {
            binary: Some(self.binary(HashMap::new())),
            library: Some(self.binary(self.symbols.clone())),
            maps: Vec::new(),
            path: PathBuf::new(),
            dockerized: false,
        }
    }
}

fn own_pid() -> i32 {
    nix::unistd::getpid().as_raw()
}

fn this_process() -> Process {
    Process::new(own_pid()).unwrap()
}

#[test]
fn read_memory_reads_the_value_at_the_symbol() {
    let mut target = Target::new();
    target.put("v8dbg_SmiTagMask", 0, &[0x78, 0x56, 0x34, 0x12]);
    target.put("v8dbg_FirstNonstringType", 8, &[0x80, 0x00, 0xaa, 0xaa]);
    target.put("v8dbg_off_fp_function", 16, &[0xf0, 0xaa]);
    let info = target.info();
    let process = this_process();
    assert_eq!(
        read_memory(&info, &process, "v8dbg_SmiTagMask", Width::Four),
        Probe::Found(0x1234_5678)
    );
    assert_eq!(
        read_memory(&info, &process, "v8dbg_FirstNonstringType", Width::Two),
        Probe::Found(0x80)
    );
    assert_eq!(read_memory(&info, &process, "v8dbg_off_fp_function", Width::One), Probe::Found(0xf0));
    assert_eq!(target.memory[0], 0x78);
}

#[test]
fn read_memory_finds_symbols_of_the_library() {
    let mut target = Target::new();
    target.put("v8dbg_SmiTag", 32, &[0x07, 0x01]);
    let info = target.info_from_library();
    let process = this_process();
    assert_eq!(read_memory(&info, &process, "v8dbg_SmiTag", Width::Two), Probe::Found(0x0107));
    assert_eq!(read_memory(&info, &process, "v8dbg_SmiTagMask", Width::Four), Probe::NotFound);
    assert_eq!(target.memory[32], 0x07);
}

#[test]
fn read_memory_tells_missing_from_unreadable() {
    let mut target = Target::new();
    target.put_unmapped("v8dbg_SmiTag");
    target.put_unmapped("v8dbg_frametype_EntryFrame");
    let info = target.info();
    let process = this_process();
    assert_eq!(read_memory(&info, &process, "v8dbg_SmiTag", Width::Two), Probe::ReadFailed);
    assert_eq!(read_memory(&info, &process, "v8dbg_HeapObjectTag", Width::Two), Probe::NotFound);
    assert_eq!(
        read_memory(&info, &process, "v8dbg_frametype_EntryFrame", Width::One),
        Probe::ReadFailed
    );
    assert_eq!(
        read_memory(&info, &process, "v8dbg_frametype_ExitFrame", Width::One),
        Probe::Found(0xff)
    );
}

#[test]
fn first_name_that_resolves_wins() {
    let mut target = Target::new();
    target.put("first", 0, &[1, 0]);
    target.put("second", 2, &[2, 0]);
    target.put("third", 4, &[3, 0]);
    target.put_unmapped("unreadable");
    let info = target.info();
    let process = this_process();
    assert_eq!(read_either(&info, &process, "first", "second", Width::Two), Probe::Found(1));
    assert_eq!(read_either(&info, &process, "missing", "second", Width::Two), Probe::Found(2));
    assert_eq!(read_either(&info, &process, "unreadable", "second", Width::Two), Probe::Found(2));
    assert_eq!(read_either(&info, &process, "missing", "absent", Width::Two), Probe::NotFound);
    assert_eq!(read_either(&info, &process, "missing", "unreadable", Width::Two), Probe::ReadFailed);
    assert_eq!(read_any(&info, &process, "first", "second", "third", Width::Two), Probe::Found(1));
    assert_eq!(read_any(&info, &process, "missing", "second", "third", Width::Two), Probe::Found(2));
    assert_eq!(read_any(&info, &process, "missing", "absent", "third", Width::Two), Probe::Found(3));
    assert_eq!(read_any(&info, &process, "missing", "absent", "gone", Width::Two), Probe::NotFound);
    assert_eq!(target.memory[4], 3);
}

#[test]
fn renamed_class_fields_are_found_under_either_name() {
    let mut old = Target::new();
    old.put("v8dbg_class_JSFunction__code__Code", 0, &[48, 0]);
    old.put("v8dbg_class_JSFunction__shared__SharedFunctionInfo", 2, &[24, 0]);
    let f = probe_jsfunction(&old.info(), &this_process());
    assert_eq!((f.code, f.shared_function_info), (48, 24));

    let mut new = Target::new();
    new.put("v8dbg_class_JSFunction__code__Tagged_Code_", 0, &[16, 0]);
    let f = probe_jsfunction(&new.info(), &this_process());
    assert_eq!((f.code, f.shared_function_info), (16, 0));

    let mut newest = Target::new();
    newest.put("v8dbg_class_SharedFunctionInfo__script_or_debug_info__Tagged_HeapObject_", 0, &[40, 0]);
    newest.put("v8dbg_class_SharedFunctionInfo__function_data__Tagged_Object_", 2, &[8, 0]);
    let s = probe_shared_function_info(&newest.info(), &this_process());
    assert_eq!((s.name_or_scope_info, s.function_data, s.script_or_debug_info), (0, 8, 40));

    let mut middle = Target::new();
    middle.put("v8dbg_class_SharedFunctionInfo__script_or_debug_info__HeapObject", 0, &[32, 0]);
    middle.put("v8dbg_class_SharedFunctionInfo__script_or_debug_info__Tagged_HeapObject_", 2, &[40, 0]);
    let s = probe_shared_function_info(&middle.info(), &this_process());
    assert_eq!(s.script_or_debug_info, 32);
    assert_eq!(old.memory[0] + new.memory[0] + newest.memory[0] + middle.memory[0], 48 + 16 + 40 + 32);
}

#[test]
fn version_is_read_component_by_component() {
    let mut target = Target::new();
    target.put("_ZN2v88internal7Version6major_E", 0, &[9, 0, 0, 0]);
    target.put("_ZN2v88internal7Version6minor_E", 4, &[6, 0, 0, 0]);
    target.put("_ZN2v88internal7Version6build_E", 8, &[200, 0, 0, 0]);
    target.put("_ZN2v88internal7Version6patch_E", 12, &[0x2c, 0x01, 0, 0]);
    let version = get_v8_version(&target.info(), &this_process());
    assert_eq!(version, Version { major: 9, minor: 6, build: 200, patch: 300 });
    assert_eq!(target.memory[0], 9);
}

#[test]
fn version_component_that_cannot_be_read_is_zero() {
    let mut target = Target::new();
    target.put("_ZN2v88internal7Version6major_E", 0, &[11, 0, 0, 0]);
    target.put_unmapped("_ZN2v88internal7Version6minor_E");
    target.put("_ZN2v88internal7Version6patch_E", 12, &[5, 0, 0, 0]);
    let version = get_v8_version(&target.info(), &this_process());
    assert_eq!(version, Version { major: 11, minor: 0, build: 0, patch: 5 });
    assert_eq!(target.memory[0], 11);
}

fn no_frame_matches() -> FrameType {
    FrameType {
        arguments_adaptor_frame: 0xff,
        baseline_frame: 0xff,
        builtin_continuation_frame: 0xff,
        builtin_exit_frame: 0xff,
        builtin_frame: 0xff,
        cwasm_entry_frame: 0xff,
        construct_entry_frame: 0xff,
        construct_frame: 0xff,
        entry_frame: 0xff,
        exit_frame: 0xff,
        internal_frame: 0xff,
        interpreted_frame: 0xff,
        java_script_builtin_continuation_frame: 0xff,
        java_script_builtin_continuation_with_catch_frame: 0xff,
        java_script_frame: 0xff,
        js_to_wasm_frame: 0xff,
        native_frame: 0xff,
        optimized_frame: 0xff,
        stub_frame: 0xff,
        wasm_compile_lazy_frame: 0xff,
        wasm_compiled_frame: 0xff,
        wasm_exit_frame: 0xff,
        wasm_interpreter_entry_frame: 0xff,
        wasm_to_js_frame: 0xff,
    }
}

#[test]
fn target_without_symbols_leaves_everything_unknown() {
    let target = Target::new();
    let data = get_v8_data(&target.info(), &this_process());
    let mut expected = VMData::new();
    expected.frame_type = no_frame_matches();
    assert_eq!(data, expected);
}

#[test]
fn absent_frame_type_matches_no_frame() {
    let mut target = Target::new();
    target.put("v8dbg_frametype_EntryFrame", 0, &[1]);
    target.put("v8dbg_frametype_ExitFrame", 1, &[3]);
    target.put("v8dbg_frametype_JavaScriptFrame", 2, &[14]);
    let frames = probe_frame_type(&target.info(), &this_process());
    let mut expected = no_frame_matches();
    expected.entry_frame = 1;
    expected.exit_frame = 3;
    expected.java_script_frame = 14;
    assert_eq!(frames, expected);
    assert_eq!(frames.wasm_interpreter_entry_frame, 0xff);
    assert_eq!(target.memory[2], 14);
}

#[test]
fn markers_are_set_by_the_presence_of_their_symbols() {
    let mut target = Target::new();
    target.put_unmapped("v8dbg_parent_ScopeInfo__HeapObject");
    let data = get_v8_data(&target.info(), &this_process());
    assert!(data.scope_info.heap_object);
    assert!(!data.deoptimization_literal_array.weak_fixed_array);

    let mut other = Target::new();
    other.put("v8dbg_parent_DeoptimizationLiteralArray__WeakFixedArray", 0, &[0]);
    let data = get_v8_data(&other.info(), &this_process());
    assert!(!data.scope_info.heap_object);
    assert!(data.deoptimization_literal_array.weak_fixed_array);
}

fn old_engine() -> Target {
    let mut target = Target::new();
    target.put("_ZN2v88internal7Version6major_E", 0, &[8, 0, 0, 0]);
    target.put("_ZN2v88internal7Version6minor_E", 4, &[4, 0, 0, 0]);
    target.put("_ZN2v88internal7Version6build_E", 8, &[0, 0, 0, 0]);
    target.put("_ZN2v88internal7Version6patch_E", 12, &[0, 0, 0, 0]);
    target.put("v8dbg_HeapObjectTagMask", 16, &[3, 0, 0, 0]);
    target.put("v8dbg_off_fp_function", 20, &[24]);
    target.put("v8dbg_off_fp_context", 21, &[0xf8]);
    target.put("v8dbg_type_JSFunction__JS_FUNCTION_TYPE", 22, &[0x21, 0x04]);
    target.put("v8dbg_class_Script__name__Object", 24, &[16, 0]);
    target.put("v8dbg_frametype_EntryFrame", 26, &[1]);
    target.put("v8dbg_frametype_InterpretedFrame", 27, &[12]);
    target
}

#[test]
fn resolution_probes_and_then_derives() {
    let target = old_engine();
    let info = target.info();
    let spy = V8Spy::new(own_pid(), this_process(), &info);
    assert_eq!(spy.pid, own_pid());
    assert_eq!(spy.process.pid, own_pid());
    assert_eq!(spy.version, Version { major: 8, minor: 4, build: 0, patch: 0 });
    assert_eq!(spy.layout.fixed.heap_object_tag_mask, 3);
    assert_eq!(spy.layout.frame_pointer.function, 24);
    assert_eq!(spy.layout.frame_pointer.context, 0xf8);
    assert_eq!(spy.layout.frame_pointer.bytecode_array, 16);
    assert_eq!(spy.layout.frame_pointer.bytecode_offset, 8);
    assert_eq!(spy.layout.typ.js_function, 1057);
    assert_eq!(spy.layout.fixed.first_jsfunction_type, 1057);
    assert_eq!(spy.layout.fixed.last_jsfunction_type, 1057);
    assert_eq!(spy.layout.script.name, 16);
    assert_eq!(spy.layout.script.source, 8);
    assert_eq!(spy.layout.code_kind.baseline, 0xff);
    assert_eq!(spy.layout.frame_type.entry_frame, 1);
    assert_eq!(spy.layout.frame_type.interpreted_frame, 12);
    assert_eq!(spy.layout.frame_type.wasm_interpreter_entry_frame, 0xff);
    assert_eq!(target.memory[20], 24);
}

#[test]
fn one_failed_read_leaves_one_fact_unresolved() {
    let target = old_engine();
    let whole = V8Spy::new(own_pid(), this_process(), &target.info());

    let mut flawed = old_engine();
    flawed.put_unmapped("v8dbg_frametype_InterpretedFrame");
    let spy = V8Spy::new(own_pid(), this_process(), &flawed.info());

    assert_eq!(spy.version, whole.version);
    assert_eq!(spy.layout.frame_type.interpreted_frame, 0);
    let mut expected = whole.layout;
    expected.frame_type.interpreted_frame = 0;
    assert_eq!(spy.layout, expected);
    assert_eq!(target.memory[27] + flawed.memory[27], 24);
}

#[test]
fn later_name_is_not_tried_once_the_fact_is_resolved() {
    let mut target = Target::new();
    target.put("second", 0, &[2, 0]);
    let info = target.info();
    let process = this_process();
    assert_eq!(
        read_unless_found(&info, &process, Probe::Found(1), "second", Width::Two),
        Probe::NotFound
    );
    assert_eq!(
        read_unless_found(&info, &process, Probe::NotFound, "second", Width::Two),
        Probe::Found(2)
    );
    assert_eq!(
        read_unless_found(&info, &process, Probe::ReadFailed, "second", Width::Two),
        Probe::Found(2)
    );
    assert_eq!(
        read_unless_found(&info, &process, Probe::ReadFailed, "missing", Width::Two),
        Probe::NotFound
    );
    assert_eq!(target.memory[0], 2);
}

#[test]
fn outcomes_are_kept_name_by_name() {
    let mut target = Target::new();
    target.put("v8dbg_class_JSFunction__code__Code", 0, &[0x30, 0]);
    target.put("v8dbg_class_JSFunction__code__Tagged_Code_", 2, &[0x38, 0]);
    target.put_unmapped("v8dbg_class_JSFunction__shared__SharedFunctionInfo");
    let probes = read_jsfunction(&target.info(), &this_process());
    assert_eq!(
        probes,
        JSFunctionProbes {
            code: Probe::Found(48),
            code_tagged: Probe::NotFound,
            shared_function_info: Probe::ReadFailed,
        }
    );
    assert_eq!(target.memory[0], 0x30);
}

#[test]
fn first_candidate_wins_where_both_resolve() {
    let mut target = Target::new();
    target.put("v8dbg_class_JSFunction__code__Code", 0, &[0x30, 0]);
    target.put("v8dbg_class_JSFunction__code__Tagged_Code_", 2, &[0x38, 0]);
    let f = probe_jsfunction(&target.info(), &this_process());
    assert_eq!(f.code, 48);
    let data = get_v8_data(&target.info(), &this_process());
    assert_eq!(data.jsfunction.code, 48);
    assert_eq!(target.memory[2], 0x38);
}

#[test]
fn next_candidate_is_tried_after_a_failed_read() {
    let mut target = Target::new();
    target.put_unmapped("v8dbg_class_Code__instruction_start__uintptr_t");
    target.put("v8dbg_class_Code__instruction_start__Address", 0, &[0x80, 0]);
    let code = probe_code(&target.info(), &this_process());
    assert_eq!(code.instruction_start, 128);
    let data = get_v8_data(&target.info(), &this_process());
    assert_eq!(data.code.instruction_start, 128);
    assert_eq!(target.memory[0], 0x80);
}

#[test]
fn third_candidate_is_tried_where_the_first_two_are_missing() {
    let mut target = Target::new();
    target.put(
        "v8dbg_class_SharedFunctionInfo__script_or_debug_info__Tagged_HeapObject_",
        0,
        &[0x28, 0],
    );
    let data = get_v8_data(&target.info(), &this_process());
    assert_eq!(data.shared_function_info.script_or_debug_info, 40);
    let mut expected = VMData::new();
    expected.frame_type = no_frame_matches();
    expected.shared_function_info.script_or_debug_info = 40;
    assert_eq!(data, expected);
    assert_eq!(target.memory[0], 0x28);
}

#[test]
fn cons_string_offsets_are_read_from_their_own_symbols() {
    let mut target = Target::new();
    target.put("v8dbg_class_ConsString__first__String", 0, &[0x10, 0]);
    target.put("v8dbg_class_ConsString__second__String", 2, &[0x18, 0]);
    let s = probe_cons_string(&target.info(), &this_process());
    assert_eq!((s.first, s.second), (16, 24));
    assert_eq!(target.memory[2], 0x18);
}

#[test]
fn catalogue_is_made_of_the_outcomes() {
    let target = old_engine();
    let mut probes = read_catalogue(&target.info(), &this_process());
    assert_eq!(probes.frame_pointer.function, Probe::Found(24));
    assert_eq!(probes.frame_type.interpreted_frame, Probe::Found(12));
    assert_eq!(probes.frame_type.stub_frame, Probe::Found(0xff));
    assert_eq!(probes.typ.js_function, Probe::Found(1057));
    assert_eq!(probes.script.source, Probe::NotFound);
    assert_eq!(catalogue_of(probes), get_v8_data(&target.info(), &this_process()));

    let whole = catalogue_of(probes);
    probes.frame_type.stub_frame = Probe::ReadFailed;
    probes.cons_string.first = Probe::Found(16);
    let mut expected = whole;
    expected.frame_type.stub_frame = 0;
    expected.cons_string.first = 16;
    assert_eq!(catalogue_of(probes), expected);
    assert_eq!(target.memory[20], 24);
}

#[test]
fn version_is_the_little_endian_value_at_each_symbol() {
    let mut target = Target::new();
    target.put("_ZN2v88internal7Version6major_E", 0, &[0x0b, 0, 0, 0]);
    target.put("_ZN2v88internal7Version6minor_E", 4, &[0x07, 0, 0, 0]);
    target.put("_ZN2v88internal7Version6build_E", 8, &[0x70, 0x01, 0, 0]);
    target.put("_ZN2v88internal7Version6patch_E", 12, &[0x78, 0x56, 0x34, 0x12]);
    let version = get_v8_version(&target.info(), &this_process());
    assert_eq!(version, Version { major: 11, minor: 7, build: 368, patch: 305419896 });
    assert_eq!(target.memory[12], 0x78);
}

#[test]
fn failed_read_of_the_build_leaves_it_zero() {
    let mut target = Target::new();
    target.put("_ZN2v88internal7Version6major_E", 0, &[0x0b, 0, 0, 0]);
    target.put("_ZN2v88internal7Version6minor_E", 4, &[0x07, 0, 0, 0]);
    target.put_unmapped("_ZN2v88internal7Version6build_E");
    target.put("_ZN2v88internal7Version6patch_E", 12, &[0x78, 0x56, 0x34, 0x12]);
    let version = get_v8_version(&target.info(), &this_process());
    assert_eq!(version, Version { major: 11, minor: 7, build: 0, patch: 305419896 });
    assert_eq!(target.memory[0], 0x0b);
}

#[test]
fn version_is_zero_where_every_read_fails() {
    let mut target = Target::new();
    target.put_unmapped("_ZN2v88internal7Version6major_E");
    target.put_unmapped("_ZN2v88internal7Version6minor_E");
    target.put_unmapped("_ZN2v88internal7Version6build_E");
    target.put_unmapped("_ZN2v88internal7Version6patch_E");
    let version = get_v8_version(&target.info(), &this_process());
    assert_eq!(version, Version { major: 0, minor: 0, build: 0, patch: 0 });
}
