//! The depth transform: every four source bytes `(r, g, b, a)` hold the bit
//! pattern of one packed depth value, which becomes one grayscale byte.
use vstd::prelude::*;

verus! {

/// The bit pattern held by one source pixel: the alpha channel is the most
/// significant byte, then red, green and blue.
pub open spec fn depth_bits(r: u8, g: u8, b: u8, a: u8) -> int {
    a as int * 0x100_0000 + r as int * 0x1_0000 + g as int * 0x100 + b as int
}

/// Number of whole four-byte pixels in a source buffer.
pub open spec fn pixel_count(source: Seq<u8>) -> int {
    source.len() as int / 4
}

/// The bit pattern of pixel `i` of a source buffer.
pub open spec fn pixel_bits(source: Seq<u8>, i: int) -> u32 {
    depth_bits(source[4 * i], source[4 * i + 1], source[4 * i + 2], source[4 * i + 3]) as u32
}

/// `dest` is the transform of `source` under the per-pixel mapping `depth_to_byte`:
/// one byte for each whole source pixel, each one a result of the mapping on
/// that pixel's bit pattern.
pub open spec fn unpacked_by<F: Fn(u32) -> u8>(source: Seq<u8>, depth_to_byte: F, dest: Seq<u8>) -> bool {
    &&& dest.len() == pixel_count(source)
    &&& forall|i: int|
        0 <= i < dest.len() ==> depth_to_byte.ensures((pixel_bits(source, i),), #[trigger] dest[i])
}

/// Reassembles the bit pattern of one pixel from its four channel bytes.
pub fn pack_depth_bits(r: u8, g: u8, b: u8, a: u8) -> (bits: u32)
    ensures
        bits as int == depth_bits(r, g, b, a),
{
    let bits: u32 = (a as u32) << 24u32 | (r as u32) << 16u32 | (g as u32) << 8u32 | (b as u32);
    assert(bits == (a as u32) * 0x100_0000u32 + (r as u32) * 0x1_0000u32 + (g as u32) * 0x100u32
        + (b as u32)) by (bit_vector)
        requires
            bits == (a as u32) << 24u32 | (r as u32) << 16u32 | (g as u32) << 8u32 | (b as u32),
    ;
    bits
}

/// Transforms a packed source buffer into the reused destination buffer: the
/// buffer is cleared, then receives one byte for each whole four-byte pixel, in
/// order; trailing bytes that do not form a whole pixel are ignored.
pub fn unpack<F: Fn(u32) -> u8>(source_buffer: &Vec<u8>, depth_to_byte: F, dest_buffer: &mut Vec<u8>)
    requires
        forall|bits: u32| depth_to_byte.requires((bits,)),
    ensures
        unpacked_by(source_buffer@, depth_to_byte, final(dest_buffer)@),
{
    dest_buffer.clear();
    let len: usize = source_buffer.len();
    let num_pixels: usize = len / 4;
    let mut i: usize = 0;
    while i < num_pixels
        invariant
            len == source_buffer@.len(),
            num_pixels == len / 4,
            i <= num_pixels,
            dest_buffer@.len() == i,
            forall|bits: u32| depth_to_byte.requires((bits,)),
            forall|j: int|
                0 <= j < i ==> depth_to_byte.ensures((pixel_bits(source_buffer@, j),), #[trigger] dest_buffer@[j]),
        decreases num_pixels - i,
    {
        assert(4 * i + 3 < len) by (nonlinear_arith)
            requires
                i < num_pixels,
                num_pixels == len / 4,
        ;
        let base: usize = 4 * i;
        let bits = pack_depth_bits(
            source_buffer[base],
            source_buffer[base + 1],
            source_buffer[base + 2],
            source_buffer[base + 3],
        );
        let dest_pixel = depth_to_byte(bits);
        dest_buffer.push(dest_pixel);
        i = i + 1;
    }
}

/// A transform delivers exactly one byte for every whole four-byte pixel.
pub proof fn lemma_unpacked_length<F: Fn(u32) -> u8>(source: Seq<u8>, depth_to_byte: F, dest: Seq<u8>)
    requires
        unpacked_by(source, depth_to_byte, dest),
    ensures
        dest.len() == source.len() / 4,
{
}

/// Where the per-pixel mapping gives one byte for each bit pattern, the
/// transform of a buffer is a function of the buffer: two transforms of the
/// same source agree byte for byte.
pub proof fn lemma_unpack_deterministic<F: Fn(u32) -> u8>(
    source: Seq<u8>,
    depth_to_byte: F,
    dest1: Seq<u8>,
    dest2: Seq<u8>,
)
    requires
        forall|bits: u32, x: u8, y: u8|
            depth_to_byte.ensures((bits,), x) && depth_to_byte.ensures((bits,), y) ==> x == y,
        unpacked_by(source, depth_to_byte, dest1),
        unpacked_by(source, depth_to_byte, dest2),
    ensures
        dest1 == dest2,
{
    assert forall|i: int| 0 <= i < dest1.len() implies dest1[i] == dest2[i] by {
        assert(depth_to_byte.ensures((pixel_bits(source, i),), dest1[i]));
        assert(depth_to_byte.ensures((pixel_bits(source, i),), dest2[i]));
    }
    assert(dest1 =~= dest2);
}

} // verus!
