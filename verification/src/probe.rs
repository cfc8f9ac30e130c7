//! Probing one named debug symbol of the target: looking its address up,
//! reading the value that lies there, and deciding what an absent symbol
//! means.

use vstd::prelude::*;
use remoteprocess::{Process, ProcessMemory};
use spytools::ProcessInfo;

verus! {

/// The target process, whose memory is read.
#[verifier::external_type_specification]
#[verifier::external_body]
pub struct ExProcess(remoteprocess::Process);

/// The symbols of the target's binary images.
#[verifier::external_type_specification]
#[verifier::external_body]
pub struct ExProcessInfo(spytools::ProcessInfo);

/// The symbols that a `ProcessInfo` resolves, each with its address: those
/// of the binary, then those of the library that the binary does not have.
pub uninterp spec fn symbol_table(info: ProcessInfo) -> Map<Seq<char>, u64>;

/// `ProcessInfo::get_symbol`: the address of the named symbol, looked up in
/// the symbol table of the binary and then in that of the library. It is
/// `None` exactly when neither table has the name.
#[verifier::external_body]
pub(crate) fn lookup_symbol(info: &ProcessInfo, symbol: &str) -> (addr: Option<u64>)
    ensures
        addr == (if symbol_table(*info).contains_key(symbol@) {
            Some(symbol_table(*info)[symbol@])
        } else {
            None
        }),
{
    info.get_symbol(symbol).copied()
}

/// `ProcessMemory::read` on a fresh buffer of `len` bytes: the bytes at
/// `addr` in the target, or `None` where the target cannot be read there.
/// What the bytes are depends on the target; only their number is known.
#[verifier::external_body]
pub(crate) fn read_bytes(process: &Process, addr: u64, len: usize) -> (bytes: Option<Vec<u8>>)
    ensures
        bytes matches Some(b) ==> b@.len() == len,
{
    let mut buf = vec![0u8; len];
    match process.read(addr as usize, &mut buf) {
        Ok(()) => Some(buf),
        Err(_) => None,
    }
}

/// The storage width of a layout fact.
#[derive(Clone, Copy, Debug, PartialEq, Eq)]
pub enum Width {
    One,
    Two,
    Four,
}

impl Width {
    /// The number of bytes of a fact of this width.
    pub open spec fn spec_bytes(self) -> nat {
        match self {
            Width::One => 1,
            Width::Two => 2,
            Width::Four => 4,
        }
    }

    /// The largest value of a fact of this width.
    pub open spec fn spec_max(self) -> u32 {
        match self {
            Width::One => 0xff,
            Width::Two => 0xffff,
            Width::Four => 0xffff_ffff,
        }
    }

    /// The number of bytes of a fact of this width.
    pub fn bytes(self) -> (n: usize)
        ensures
            n == self.spec_bytes(),
    {
        match self {
            Width::One => 1,
            Width::Two => 2,
            Width::Four => 4,
        }
    }

    /// The largest value of a fact of this width.
    pub fn max(self) -> (m: u32)
        ensures
            m == self.spec_max(),
    {
        match self {
            Width::One => 0xff,
            Width::Two => 0xffff,
            Width::Four => 0xffff_ffff,
        }
    }
}

/// How the probe of one symbol ended.
#[derive(Clone, Copy, Debug, PartialEq, Eq)]
pub enum Probe {
    /// The fact is resolved to this value.
    Found(u32),
    /// The target has no such symbol.
    NotFound,
    /// The symbol exists, but the target could not be read at its address.
    ReadFailed,
}

impl Probe {
    /// The value of the fact after the probe: zero where it is unresolved.
    pub open spec fn spec_value(self) -> u32 {
        match self {
            Probe::Found(v) => v,
            _ => 0,
        }
    }

    /// Whether a resolved value fits the given width.
    pub open spec fn fits(self, width: Width) -> bool {
        self matches Probe::Found(v) ==> v <= width.spec_max()
    }

    /// Whether the probe resolved the fact.
    pub fn is_found(&self) -> (r: bool)
        ensures
            r == (*self is Found),
    {
        match self {
            Probe::Found(_) => true,
            _ => false,
        }
    }

    /// The value of the fact after the probe: zero where it is unresolved.
    pub fn value(self) -> (v: u32)
        ensures
            v == self.spec_value(),
    {
        match self {
            Probe::Found(v) => v,
            _ => 0,
        }
    }
}

/// The namespace of the symbols that give the frame-type enumeration.
pub open spec fn frame_type_prefix() -> Seq<char> {
    "v8dbg_frametype_"@
}

/// Whether a symbol lies in the frame-type namespace.
pub open spec fn is_frame_type_name(symbol: Seq<char>) -> bool {
    &&& symbol.len() >= frame_type_prefix().len()
    &&& symbol.subrange(0, frame_type_prefix().len() as int) == frame_type_prefix()
}

/// Whether a symbol lies in the frame-type namespace.
pub fn is_frame_type_symbol(symbol: &str) -> (r: bool)
    ensures
        r == is_frame_type_name(symbol@),
{
    let prefix = "v8dbg_frametype_";
    let n = prefix.unicode_len();
    if symbol.unicode_len() < n {
        return false;
    }
    let mut i: usize = 0;
    while i < n
        invariant
            n == prefix@.len(),
            prefix@ == frame_type_prefix(),
            symbol@.len() >= n,
            i <= n,
            forall|j: int| 0 <= j < i ==> symbol@[j] == prefix@[j],
        decreases n - i,
    {
        if symbol.get_char(i) != prefix.get_char(i) {
            assert(symbol@.subrange(0, n as int)[i as int] != prefix@[i as int]);
            return false;
        }
        i += 1;
    }
    assert(symbol@.subrange(0, n as int) =~= prefix@);
    true
}

/// What the probe of a symbol that the target does not have comes to. A
/// frame type that an engine build leaves out can never occur in it, so its
/// fact is resolved to the largest value of its width, which no frame
/// carries. Any other symbol is reported as not found.
pub open spec fn absent_probe(symbol: Seq<char>, width: Width) -> Probe {
    if is_frame_type_name(symbol) {
        Probe::Found(width.spec_max())
    } else {
        Probe::NotFound
    }
}

/// The outcome of probing one name and, where that did not resolve the
/// fact, another.
pub open spec fn first_found(first: Probe, second: Probe) -> Probe {
    if first is Found {
        first
    } else {
        second
    }
}

/// The outcome of probing one name and, where that did not resolve the
/// fact, another: the first that resolved it, else the outcome of the
/// second.
pub fn pick_first(first: Probe, second: Probe) -> (p: Probe)
    ensures
        p == first_found(first, second),
{
    if first.is_found() {
        first
    } else {
        second
    }
}

/// What the probe of a symbol that the target does not have comes to.
pub fn absent_symbol(symbol: &str, width: Width) -> (p: Probe)
    ensures
        p == absent_probe(symbol@, width),
{
    if is_frame_type_symbol(symbol) {
        Probe::Found(width.max())
    } else {
        Probe::NotFound
    }
}

/// The number that a sequence of bytes stands for, least significant byte
/// first.
pub open spec fn little_endian(bytes: Seq<u8>) -> nat
    decreases bytes.len(),
{
    if bytes.len() == 0 {
        0
    } else {
        bytes[0] as nat + 0x100 * little_endian(bytes.skip(1))
    }
}

/// What the probe of a symbol that the target has comes to, given what
/// reading its bytes gave: their little-endian value, or a failed read
/// where there are none or not as many as the width asks for.
pub open spec fn present_probe(bytes: Option<Seq<u8>>, width: Width) -> Probe {
    match bytes {
        Some(b) if b.len() == width.spec_bytes() => Probe::Found(little_endian(b) as u32),
        _ => Probe::ReadFailed,
    }
}

/// The little-endian value of one, two and four bytes, written out.
pub proof fn lemma_little_endian_unfold(bytes: Seq<u8>)
    ensures
        bytes.len() == 1 ==> little_endian(bytes) == bytes[0],
        bytes.len() == 2 ==> little_endian(bytes) == bytes[0] + 0x100 * bytes[1],
        bytes.len() == 4 ==> little_endian(bytes) == bytes[0] + 0x100 * bytes[1] + 0x1_0000
            * bytes[2] + 0x100_0000 * bytes[3],
{
    reveal_with_fuel(little_endian, 5);
    if bytes.len() == 2 || bytes.len() == 4 {
        let b1 = bytes.skip(1);
        assert(b1[0] == bytes[1]);
        if bytes.len() == 4 {
            let b2 = b1.skip(1);
            let b3 = b2.skip(1);
            assert(b2[0] == bytes[2]);
            assert(b3[0] == bytes[3]);
        }
    }
}

/// What the probe of a symbol that the target has comes to, given what
/// reading its bytes gave.
pub fn decode_probe(bytes: Option<Vec<u8>>, width: Width) -> (p: Probe)
    ensures
        p == present_probe(
            match bytes {
                Some(b) => Some(b@),
                None => None,
            },
            width,
        ),
        p.fits(width),
        p != Probe::NotFound,
{
    match bytes {
        Some(b) => {
            if b.len() != width.bytes() {
                return Probe::ReadFailed;
            }
            proof {
                lemma_little_endian_unfold(b@);
            }
            match width {
                Width::One => Probe::Found(b[0] as u32),
                Width::Two => Probe::Found(b[0] as u32 + 0x100 * (b[1] as u32)),
                Width::Four => Probe::Found(
                    b[0] as u32 + 0x100 * (b[1] as u32) + 0x1_0000 * (b[2] as u32) + 0x100_0000 * (
                    b[3] as u32),
                ),
            }
        },
        None => Probe::ReadFailed,
    }
}

/// Probes one symbol: looks its address up and reads as many bytes as the
/// width asks for from the target at that address.
///
/// The outcome for a symbol that the target does not have is fixed by the
/// symbol's name. For one that it has, the outcome is the value that was
/// read, which is for the target to decide, or a failed read.
pub fn read_memory(process_info: &ProcessInfo, process: &Process, symbol: &str, width: Width) -> (p:
    Probe)
    ensures
        !symbol_table(*process_info).contains_key(symbol@) ==> p == absent_probe(symbol@, width),
        symbol_table(*process_info).contains_key(symbol@) ==> p != Probe::NotFound,
        p.fits(width),
{
    match lookup_symbol(process_info, symbol) {
        None => absent_symbol(symbol, width),
        Some(addr) => decode_probe(read_bytes(process, addr, width.bytes()), width),
    }
}

/// Probes a later name of a fact, unless an earlier name has resolved the
/// fact already: the target is then not asked, and the outcome of the later
/// name is that it was not found.
pub fn read_unless_found(
    process_info: &ProcessInfo,
    process: &Process,
    earlier: Probe,
    symbol: &str,
    width: Width,
) -> (p: Probe)
    ensures
        p.fits(width),
        earlier is Found ==> p == Probe::NotFound,
        !(earlier is Found) && !symbol_table(*process_info).contains_key(symbol@) ==> p
            == absent_probe(symbol@, width),
        !(earlier is Found) && symbol_table(*process_info).contains_key(symbol@) ==> p
            != Probe::NotFound,
{
    if earlier.is_found() {
        Probe::NotFound
    } else {
        read_memory(process_info, process, symbol, width)
    }
}

/// Probes two names of one fact in turn: the first that resolves wins, and
/// where none does the outcome is that of the last.
pub fn read_either(
    process_info: &ProcessInfo,
    process: &Process,
    first: &str,
    second: &str,
    width: Width,
) -> (p: Probe)
    ensures
        p.fits(width),
        !symbol_table(*process_info).contains_key(first@) && !symbol_table(
            *process_info,
        ).contains_key(second@) ==> p == first_found(
            absent_probe(first@, width),
            absent_probe(second@, width),
        ),
        !symbol_table(*process_info).contains_key(second@) ==> p is Found || p == absent_probe(
            second@,
            width,
        ),
        symbol_table(*process_info).contains_key(second@) ==> p != Probe::NotFound,
{
    let one = read_memory(process_info, process, first, width);
    let two = read_unless_found(process_info, process, one, second, width);
    pick_first(one, two)
}

/// Probes three names of one fact in turn: the first that resolves wins,
/// and where none does the outcome is that of the last.
pub fn read_any(
    process_info: &ProcessInfo,
    process: &Process,
    first: &str,
    second: &str,
    third: &str,
    width: Width,
) -> (p: Probe)
    ensures
        p.fits(width),
        !symbol_table(*process_info).contains_key(first@) && !symbol_table(
            *process_info,
        ).contains_key(second@) && !symbol_table(*process_info).contains_key(third@) ==> p
            == first_found(
            absent_probe(first@, width),
            first_found(absent_probe(second@, width), absent_probe(third@, width)),
        ),
        !symbol_table(*process_info).contains_key(third@) ==> p is Found || p == absent_probe(
            third@,
            width,
        ),
        symbol_table(*process_info).contains_key(third@) ==> p != Probe::NotFound,
{
    let one = read_memory(process_info, process, first, width);
    let two = read_unless_found(process_info, process, one, second, width);
    let three = read_unless_found(process_info, process, pick_first(one, two), third, width);
    pick_first(one, pick_first(two, three))
}

/// A symbol whose seventh character is not that of the frame-type
/// namespace lies outside it.
pub proof fn lemma_outside_frame_types(symbol: Seq<char>)
    requires
        symbol.len() > 6,
        symbol[6] != 'f',
    ensures
        !is_frame_type_name(symbol),
{
    reveal_strlit("v8dbg_frametype_");
    if symbol.len() >= 16 {
        assert(symbol.subrange(0, 16)[6] == symbol[6]);
    }
}

} // verus!
