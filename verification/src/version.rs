//! The engine version and the single ordinal by which versions are compared.

use vstd::prelude::*;

verus! {

/// The four components of an engine version, as read from the target.
#[derive(Clone, Copy, Debug, PartialEq, Eq)]
pub struct Version {
    pub major: u32,
    pub minor: u32,
    pub build: u32,
    pub patch: u32,
}

/// The ordinal of a version: `(major << 24) + (minor << 16) + build` in
/// 32-bit arithmetic. The patch component takes no part in it.
pub open spec fn ordinal(major: u32, minor: u32, build: u32) -> int {
    ((major % 0x100) * 0x100_0000 + (minor % 0x1_0000) * 0x1_0000 + build) % 0x1_0000_0000
}

/// A version whose components each fit the bits that the ordinal gives them,
/// so that no component spills into the next.
pub open spec fn fits_ordinal(major: u32, minor: u32, build: u32) -> bool {
    major <= 0xff && minor <= 0xff && build <= 0xffff
}

/// Lexicographic order on (major, minor, build).
pub open spec fn lex_lt(a: (u32, u32, u32), b: (u32, u32, u32)) -> bool {
    a.0 < b.0 || (a.0 == b.0 && (a.1 < b.1 || (a.1 == b.1 && a.2 < b.2)))
}

/// Packs a version into its ordinal.
pub fn v8_ver(major: u32, minor: u32, build: u32) -> (ver: u32)
    ensures
        ver == ordinal(major, minor, build),
        fits_ordinal(major, minor, build) ==> ver == major * 0x100_0000 + minor * 0x1_0000 + build,
{
    let high: u32 = major << 24;
    let mid: u32 = minor << 16;
    assert(high == (major % 0x100) * 0x100_0000) by (bit_vector)
        requires
            high == major << 24,
    ;
    assert(mid == (minor % 0x1_0000) * 0x1_0000) by (bit_vector)
        requires
            mid == minor << 16,
    ;
    high.wrapping_add(mid).wrapping_add(build)
}

impl Version {
    /// The ordinal of this version.
    pub open spec fn spec_ordinal(self) -> int {
        ordinal(self.major, self.minor, self.build)
    }

    /// The ordinal by which the derivation rules compare this version.
    pub fn ordinal(&self) -> (ver: u32)
        ensures
            ver == self.spec_ordinal(),
    {
        v8_ver(self.major, self.minor, self.build)
    }
}

/// The ordinal orders versions as the lexicographic order of (major,
/// minor, build) does, for versions whose components fit their bits: the
/// earlier of two versions has the smaller ordinal, and only it.
pub proof fn lemma_ordinal_monotonic(a: (u32, u32, u32), b: (u32, u32, u32))
    requires
        fits_ordinal(a.0, a.1, a.2),
        fits_ordinal(b.0, b.1, b.2),
    ensures
        lex_lt(a, b) <==> ordinal(a.0, a.1, a.2) < ordinal(b.0, b.1, b.2),
{
}

/// Versions that differ in the patch component alone have the same ordinal.
pub proof fn lemma_ordinal_ignores_patch(a: Version, b: Version)
    requires
        a.major == b.major,
        a.minor == b.minor,
        a.build == b.build,
    ensures
        a.spec_ordinal() == b.spec_ordinal(),
{
}

} // verus!
