//! Byte images of texels, indices and scalars, as a graphics device reads
//! them from memory.

use vstd::prelude::*;

verus! {

/// The four bytes of `word`, least significant first.
pub open spec fn le_word(word: u32) -> Seq<u8> {
    seq![
        (word % 0x100) as u8,
        (word / 0x100 % 0x100) as u8,
        (word / 0x1_0000 % 0x100) as u8,
        (word / 0x100_0000) as u8,
    ]
}

/// The four bytes of `word`, most significant first.
pub open spec fn be_word(word: u32) -> Seq<u8> {
    seq![
        (word / 0x100_0000) as u8,
        (word / 0x1_0000 % 0x100) as u8,
        (word / 0x100 % 0x100) as u8,
        (word % 0x100) as u8,
    ]
}

/// The bytes that stand for the `i`-th word in `bytes`.
pub open spec fn word_at(bytes: Seq<u8>, i: int) -> Seq<u8> {
    bytes.subrange(4 * i, 4 * i + 4)
}

/// Whether `bytes` holds `words` one after the other, four bytes each, all in
/// the byte order that `little` selects.
pub open spec fn encodes_words(words: Seq<u32>, bytes: Seq<u8>, little: bool) -> bool {
    &&& bytes.len() == 4 * words.len()
    &&& forall|i: int|
        0 <= i < words.len() ==> #[trigger] word_at(bytes, i) == if little {
            le_word(words[i])
        } else {
            be_word(words[i])
        }
}

/// Whether `bytes` is the memory image of `words` on a machine of either
/// byte order.
pub open spec fn is_word_image(words: Seq<u32>, bytes: Seq<u8>) -> bool {
    encodes_words(words, bytes, true) || encodes_words(words, bytes, false)
}

/// The bytes of a row of four-byte texels: texel after texel, each with its
/// bytes in order.
pub open spec fn flat_texels(texels: Seq<[u8; 4]>) -> Seq<u8> {
    Seq::new(4 * texels.len(), |i: int| texels[i / 4][i % 4])
}

/// The bytes of four-channel texels, without copying.
///
/// Trusted: calls `bytemuck::cast_slice` from `[u8; 4]` to `u8`. The claim is
/// that the result is the same memory read byte by byte, so it holds every
/// texel's four bytes in order. Both types have alignment 1 and the byte
/// count is always a whole number of `u8`, so the cast does not fail.
#[verifier::external_body]
pub(crate) fn texel_bytes<'a>(texels: &'a [[u8; 4]]) -> (bytes: &'a [u8])
    ensures
        bytes@ == flat_texels(texels@),
{
    bytemuck::cast_slice(texels)
}

/// The bytes of 32-bit indices, without copying.
///
/// Trusted: calls `bytemuck::cast_slice` from `u32` to `u8`. The claim is
/// that the result is the same memory read byte by byte: four bytes for each
/// index, in the machine's byte order, which is either least or most
/// significant byte first. The target alignment is 1 and the byte count is
/// always a whole number of `u8`, so the cast does not fail.
#[verifier::external_body]
pub(crate) fn index_bytes<'a>(indices: &'a [u32]) -> (bytes: &'a [u8])
    ensures
        is_word_image(indices@, bytes@),
{
    bytemuck::cast_slice(indices)
}

/// The bytes of one 32-bit scalar, copied out.
///
/// Trusted: calls `bytemuck::bytes_of` on a `u32`. The claim is that the
/// result is the scalar's four bytes in the machine's byte order, which is
/// either least or most significant byte first.
#[verifier::external_body]
pub(crate) fn scalar_bytes(value: u32) -> (bytes: Vec<u8>)
    ensures
        is_word_image(seq![value], bytes@),
{
    bytemuck::bytes_of(&value).to_vec()
}

} // verus!
