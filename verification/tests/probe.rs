use v8_spy::probe::{absent_symbol, decode_probe, is_frame_type_symbol, Probe, Width};

#[test]
fn widths_have_their_bytes_and_limits() {
    assert_eq!(Width::One.bytes(), 1);
    assert_eq!(Width::Two.bytes(), 2);
    assert_eq!(Width::Four.bytes(), 4);
    assert_eq!(Width::One.max(), 0xff);
    assert_eq!(Width::Two.max(), 0xffff);
    assert_eq!(Width::Four.max(), u32::MAX);
}

#[test]
fn frame_type_namespace_is_a_prefix() {
    assert!(is_frame_type_symbol("v8dbg_frametype_EntryFrame"));
    assert!(is_frame_type_symbol("v8dbg_frametype_WasmInterpreterEntryFrame"));
    assert!(is_frame_type_symbol("v8dbg_frametype_"));
    assert!(!is_frame_type_symbol("v8dbg_frametype"));
    assert!(!is_frame_type_symbol("v8dbg_Frametype_EntryFrame"));
    assert!(!is_frame_type_symbol("xv8dbg_frametype_EntryFrame"));
    assert!(!is_frame_type_symbol("v8dbg_SmiTag"));
    assert!(!is_frame_type_symbol("v8dbg_off_fp_function"));
    assert!(!is_frame_type_symbol("_ZN2v88internal7Version6major_E"));
    assert!(!is_frame_type_symbol(""));
}

#[test]
fn absent_frame_type_resolves_to_the_largest_value() {
    assert_eq!(
        absent_symbol("v8dbg_frametype_WasmInterpreterEntryFrame", Width::One),
        Probe::Found(0xff)
    );
    assert_eq!(absent_symbol("v8dbg_frametype_EntryFrame", Width::Two), Probe::Found(0xffff));
    assert_eq!(absent_symbol("v8dbg_frametype_EntryFrame", Width::Four), Probe::Found(u32::MAX));
}

#[test]
fn absent_symbol_of_another_kind_is_not_found() {
    assert_eq!(absent_symbol("v8dbg_SmiTag", Width::Two), Probe::NotFound);
    assert_eq!(absent_symbol("v8dbg_CodeKindFieldMask", Width::Four), Probe::NotFound);
    assert_eq!(absent_symbol("v8dbg_off_fp_function", Width::One), Probe::NotFound);
}

#[test]
fn bytes_are_decoded_least_significant_first() {
    assert_eq!(decode_probe(Some(vec![0x2a]), Width::One), Probe::Found(0x2a));
    assert_eq!(decode_probe(Some(vec![0x39, 0x05]), Width::Two), Probe::Found(0x0539));
    assert_eq!(
        decode_probe(Some(vec![0x78, 0x56, 0x34, 0x12]), Width::Four),
        Probe::Found(0x1234_5678)
    );
    assert_eq!(
        decode_probe(Some(vec![0xff, 0xff, 0xff, 0xff]), Width::Four),
        Probe::Found(u32::MAX)
    );
    assert_eq!(decode_probe(Some(vec![0, 0]), Width::Two), Probe::Found(0));
}

#[test]
fn failed_or_short_read_is_a_failed_read() {
    assert_eq!(decode_probe(None, Width::One), Probe::ReadFailed);
    assert_eq!(decode_probe(None, Width::Four), Probe::ReadFailed);
    assert_eq!(decode_probe(Some(vec![]), Width::One), Probe::ReadFailed);
    assert_eq!(decode_probe(Some(vec![1]), Width::Two), Probe::ReadFailed);
    assert_eq!(decode_probe(Some(vec![1, 2, 3]), Width::Two), Probe::ReadFailed);
    assert_eq!(decode_probe(Some(vec![1, 2]), Width::Four), Probe::ReadFailed);
}

#[test]
fn probe_value_is_zero_unless_found() {
    assert_eq!(Probe::Found(7).value(), 7);
    assert_eq!(Probe::NotFound.value(), 0);
    assert_eq!(Probe::ReadFailed.value(), 0);
    assert!(Probe::Found(0).is_found());
    assert!(!Probe::NotFound.is_found());
    assert!(!Probe::ReadFailed.is_found());
}
