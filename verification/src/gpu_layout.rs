//! How words are laid out as the bytes that a GPU buffer is filled with.
use vstd::prelude::*;

verus! {

/// The weight of byte `k` of a word: 256^k for `k` in 0..4.
pub open spec fn byte_weight(k: int) -> int {
    if k == 0 {
        1
    } else if k == 1 {
        256
    } else if k == 2 {
        65536
    } else {
        16777216
    }
}

/// Byte `k` of a word, counted from the least significant one.
pub open spec fn word_byte(w: u32, k: int) -> int {
    (w as int / byte_weight(k)) % 256
}

/// `bytes` holds `words` one after the other, each least significant byte
/// first.
pub open spec fn holds_words_le(words: Seq<u32>, bytes: Seq<u8>) -> bool {
    &&& bytes.len() == 4 * words.len()
    &&& forall|i: int, k: int|
        0 <= i < words.len() && 0 <= k < 4 ==> bytes[4 * i + k] == #[trigger] word_byte(words[i], k)
}

/// `bytes` holds `words` one after the other, each most significant byte
/// first.
pub open spec fn holds_words_be(words: Seq<u32>, bytes: Seq<u8>) -> bool {
    &&& bytes.len() == 4 * words.len()
    &&& forall|i: int, k: int|
        0 <= i < words.len() && 0 <= k < 4 ==> bytes[4 * i + k] == #[trigger] word_byte(
            words[i],
            3 - k,
        )
}

/// `bytes` is the in-memory image of `words`: the words one after the other,
/// each in the byte order of the machine, which is little- or big-endian.
pub open spec fn holds_words(words: Seq<u32>, bytes: Seq<u8>) -> bool {
    holds_words_le(words, bytes) || holds_words_be(words, bytes)
}

/// The bytes of a run of words as they lie in memory, through
/// `bytemuck::cast_slice::<u32, u8>`.
///
/// Trusted: the contract claims that the result is the words' memory image,
/// four bytes per word in order, and that each word's bytes follow one byte
/// order for the whole run. Which of the two orders it is rests on the machine
/// and is left open.
#[verifier::external_body]
pub(crate) fn words_as_bytes(words: &[u32]) -> (r: Vec<u8>)
    ensures
        holds_words(words@, r@),
{
    bytemuck::cast_slice::<u32, u8>(words).to_vec()
}

} // verus!
