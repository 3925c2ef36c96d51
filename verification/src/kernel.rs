//! Kernels as the library sees them: a name, the source text, and the edge of
//! the tile that one workgroup processes.

use vstd::prelude::*;
use vstd::string::StringExecFns;
use vstd::string::StringSliceAdditionalSpecFns;

verus! {

/// The entry point that every kernel of this library is launched at.
pub const ENTRY_POINT: &'static str = "main";

/// Offset basis of the 64-bit FNV-1a hash.
pub const FNV_OFFSET: u64 = 0xcbf2_9ce4_8422_2325;

/// Prime of the 64-bit FNV-1a hash.
pub const FNV_PRIME: u64 = 0x0000_0100_0000_01b3;

/// The 64-bit FNV-1a hash of a byte string: starting from the offset basis,
/// each byte is xor-ed in and the sum multiplied by the prime, modulo 2^64.
pub open spec fn fnv1a(bytes: Seq<u8>) -> u64
    decreases bytes.len(),
{
    if bytes.len() == 0 {
        FNV_OFFSET
    } else {
        (fnv1a(bytes.drop_last()) ^ (bytes.last() as u64)).wrapping_mul(FNV_PRIME)
    }
}

/// The hash under which a kernel's source text is cached: FNV-1a over its
/// UTF-8 bytes.
pub open spec fn text_hash(text: Seq<char>) -> u64 {
    fnv1a(vstd::utf8::encode_utf8(text))
}

/// [`text_hash`] of a string slice.
pub open spec fn source_hash_spec(source: &str) -> u64 {
    text_hash(source@)
}

/// The key under which a kernel with this name and source text is cached.
pub open spec fn cache_key(name: Seq<char>, source: Seq<char>) -> (Seq<char>, u64) {
    (name, text_hash(source))
}

/// Computes [`source_hash_spec`].
pub fn source_hash(source: &str) -> (hash: u64)
    ensures
        hash == source_hash_spec(source),
{
    let bytes = source.as_bytes();
    let mut hash: u64 = FNV_OFFSET;
    let mut i: usize = 0;
    while i < bytes.len()
        invariant
            i <= bytes@.len(),
            hash == fnv1a(bytes@.take(i as int)),
        decreases bytes@.len() - i,
    {
        assert(bytes@.take(i + 1).drop_last() =~= bytes@.take(i as int));
        hash = (hash ^ (bytes[i] as u64)).wrapping_mul(FNV_PRIME);
        i += 1;
    }
    assert(bytes@.take(i as int) =~= bytes@);
    hash
}

/// Whether the nine bytes of the attribute `@binding(` stand at position `i`
/// of a text.
pub open spec fn marker_at(text: Seq<u8>, i: int) -> bool {
    &&& 0 <= i
    &&& i + 9 <= text.len()
    &&& text[i] == 0x40
    &&& text[i + 1] == 0x62
    &&& text[i + 2] == 0x69
    &&& text[i + 3] == 0x6e
    &&& text[i + 4] == 0x64
    &&& text[i + 5] == 0x69
    &&& text[i + 6] == 0x6e
    &&& text[i + 7] == 0x67
    &&& text[i + 8] == 0x28
}

/// How many positions below `upto` of a text hold the attribute `@binding(`.
pub open spec fn markers(text: Seq<u8>, upto: nat) -> nat
    decreases upto,
{
    if upto == 0 {
        0
    } else {
        markers(text, (upto - 1) as nat) + if marker_at(text, upto - 1) {
            1nat
        } else {
            0nat
        }
    }
}

/// The number of resources that a kernel declares: how often the attribute
/// `@binding(` is written in its source text, wherever it is written.
pub open spec fn declared_slots_spec(source: Seq<char>) -> nat {
    markers(vstd::utf8::encode_utf8(source), vstd::utf8::encode_utf8(source).len())
}

/// Counts the resources that a kernel declares; see [`declared_slots_spec`].
pub fn declared_slots(source: &str) -> (count: usize)
    ensures
        count == declared_slots_spec(source@),
{
    let bytes = source.as_bytes();
    let mut count: usize = 0;
    let mut i: usize = 0;
    while i < bytes.len()
        invariant
            i <= bytes@.len(),
            count <= i,
            count == markers(bytes@, i as nat),
        decreases bytes@.len() - i,
    {
        if bytes.len() - i >= 9 && bytes[i] == 0x40 && bytes[i + 1] == 0x62 && bytes[i + 2] == 0x69
            && bytes[i + 3] == 0x6e && bytes[i + 4] == 0x64 && bytes[i + 5] == 0x69 && bytes[i + 6]
            == 0x6e && bytes[i + 7] == 0x67 && bytes[i + 8] == 0x28 {
            count += 1;
        }
        i += 1;
    }
    count
}

/// One device program.
pub struct Kernel {
    /// The name under which the compiled program is cached.
    pub name: String,
    /// WGSL source text.
    pub source: String,
    /// Edge length of the square tile that one workgroup processes.
    pub tile: u32,
}

impl Kernel {
    /// A kernel with the given name, source text and tile edge.
    pub fn new(name: &str, source: &str, tile: u32) -> (kernel: Kernel)
        ensures
            kernel.name@ == name@,
            kernel.source@ == source@,
            kernel.tile == tile,
    {
        Kernel { name: String::from_str(name), source: String::from_str(source), tile }
    }
}

/// The three kernels that the tensor operations launch.
pub struct KernelSet {
    /// Product of two matrices. Slots: left, right, output, dimensions.
    pub matmul: Kernel,
    /// Elementwise sum. Slots: left, right, output.
    pub add: Kernel,
    /// Elementwise difference. Slots: left, right, output.
    pub sub: Kernel,
}

} // verus!
