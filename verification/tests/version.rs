use v8_spy::version::{v8_ver, Version};

#[test]
fn ordinal_packs_major_minor_build() {
    assert_eq!(v8_ver(9, 6, 138), 0x0906_008a);
    assert_eq!(v8_ver(9, 6, 138), (9 << 24) + (6 << 16) + 138);
    assert_eq!(v8_ver(0, 0, 0), 0);
    assert_eq!(v8_ver(1, 0, 0), 0x0100_0000);
    assert_eq!(v8_ver(0, 1, 0), 0x0001_0000);
    assert_eq!(v8_ver(0, 0, 1), 1);
    assert_eq!(v8_ver(255, 255, 65535), u32::MAX);
}

#[test]
fn ordinal_follows_version_order() {
    assert!(v8_ver(9, 0, 14) < v8_ver(9, 6, 138));
    assert!(v8_ver(9, 6, 138) < v8_ver(11, 7, 368));
    assert!(v8_ver(8, 4, 0) < v8_ver(8, 7, 198));
    assert!(v8_ver(8, 7, 198) < v8_ver(9, 0, 14));
    assert!(v8_ver(9, 0, 14) < v8_ver(9, 0, 240));
    assert!(v8_ver(11, 4, 59) < v8_ver(11, 7, 368));
    assert!(v8_ver(9, 255, 65535) < v8_ver(10, 0, 0));
}

#[test]
fn ordinal_wraps_in_32_bits() {
    assert_eq!(v8_ver(256, 0, 0), 0);
    assert_eq!(v8_ver(257, 0, 0), 0x0100_0000);
    assert_eq!(v8_ver(0, 65536, 0), 0);
    assert_eq!(v8_ver(255, 65535, u32::MAX), 0xfefe_ffff);
    // A build number too large for its bits spills into the minor version.
    assert_eq!(v8_ver(9, 0, 65536), v8_ver(9, 1, 0));
}

#[test]
fn ordinal_of_a_version_ignores_the_patch() {
    let a = Version { major: 9, minor: 6, build: 200, patch: 0 };
    let b = Version { major: 9, minor: 6, build: 200, patch: 77 };
    assert_eq!(a.ordinal(), v8_ver(9, 6, 200));
    assert_eq!(a.ordinal(), b.ordinal());
}
