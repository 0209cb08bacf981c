//! Buffer contents as bytes, the form in which they are handed to the GPU.

use vstd::prelude::*;

verus! {

/// Byte `k` of a 32-bit word, `0` being the least significant.
pub open spec fn word_byte(word: u32, k: int) -> u8 {
    if k == 0 {
        (word % 0x100) as u8
    } else if k == 1 {
        (word / 0x100 % 0x100) as u8
    } else if k == 2 {
        (word / 0x1_0000 % 0x100) as u8
    } else {
        (word / 0x100_0000) as u8
    }
}

/// Byte `k` of a 16-bit word, `0` being the least significant.
pub open spec fn short_byte(word: u16, k: int) -> u8 {
    if k == 0 {
        (word % 0x100) as u8
    } else {
        (word / 0x100) as u8
    }
}

/// `bytes` holds `words` one after the other, each with its least
/// significant byte first (`little`) or last.
pub open spec fn holds_words(bytes: Seq<u8>, words: Seq<u32>, little: bool) -> bool {
    &&& bytes.len() == 4 * words.len()
    &&& forall|j: int|
        0 <= j < bytes.len() ==> #[trigger] bytes[j] == word_byte(
            words[j / 4],
            if little {
                j % 4
            } else {
                3 - j % 4
            },
        )
}

/// `bytes` holds `shorts` one after the other, each with its least
/// significant byte first (`little`) or last.
pub open spec fn holds_shorts(bytes: Seq<u8>, shorts: Seq<u16>, little: bool) -> bool {
    &&& bytes.len() == 2 * shorts.len()
    &&& forall|j: int|
        0 <= j < bytes.len() ==> #[trigger] bytes[j] == short_byte(
            shorts[j / 2],
            if little {
                j % 2
            } else {
                1 - j % 2
            },
        )
}

/// `bytes` is what `words` look like in memory, in the byte order of the
/// machine, whichever that is.
pub open spec fn is_word_image(bytes: Seq<u8>, words: Seq<u32>) -> bool {
    holds_words(bytes, words, true) || holds_words(bytes, words, false)
}

/// `bytes` is what `shorts` look like in memory, in the byte order of the
/// machine, whichever that is.
pub open spec fn is_short_image(bytes: Seq<u8>, shorts: Seq<u16>) -> bool {
    holds_shorts(bytes, shorts, true) || holds_shorts(bytes, shorts, false)
}

/// Calls `bytemuck::cast_slice` to view 32-bit words as bytes, and copies
/// the view. The cast keeps the address and the size in bytes, so the
/// result is the memory image of the words; it cannot fail towards a byte
/// slice, whose elements have size one and no alignment.
#[verifier::external_body]
pub(crate) fn words_to_bytes(words: &[u32]) -> (bytes: Vec<u8>)
    ensures
        is_word_image(bytes@, words@),
{
    bytemuck::cast_slice::<u32, u8>(words).to_vec()
}

/// Calls `bytemuck::cast_slice` to view 16-bit words as bytes, and copies
/// the view. The cast keeps the address and the size in bytes, so the
/// result is the memory image of the words; it cannot fail towards a byte
/// slice, whose elements have size one and no alignment.
#[verifier::external_body]
pub(crate) fn shorts_to_bytes(shorts: &[u16]) -> (bytes: Vec<u8>)
    ensures
        is_short_image(bytes@, shorts@),
{
    bytemuck::cast_slice::<u16, u8>(shorts).to_vec()
}

} // verus!
