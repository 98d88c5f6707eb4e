//! The bytes of index data as they are uploaded to a buffer.

use vstd::prelude::*;
use byte_slice_cast::AsByteSlice;

verus! {

/// Byte `k` of `word`, counted from the least significant.
pub open spec fn word_byte(word: u32, k: int) -> int {
    if k == 0 {
        word as int % 0x100
    } else if k == 1 {
        (word as int / 0x100) % 0x100
    } else if k == 2 {
        (word as int / 0x1_0000) % 0x100
    } else {
        (word as int / 0x100_0000) % 0x100
    }
}

/// `bytes` holds the words of `words` in order, four bytes each, the least
/// significant byte first.
pub open spec fn encodes_little_endian(words: Seq<u32>, bytes: Seq<u8>) -> bool {
    &&& bytes.len() == 4 * words.len()
    &&& forall|i: int, k: int|
        0 <= i < words.len() && 0 <= k < 4 ==> #[trigger] bytes[4 * i + k] == word_byte(
            words[i],
            k,
        )
}

/// `bytes` holds the words of `words` in order, four bytes each, the most
/// significant byte first.
pub open spec fn encodes_big_endian(words: Seq<u32>, bytes: Seq<u8>) -> bool {
    &&& bytes.len() == 4 * words.len()
    &&& forall|i: int, k: int|
        0 <= i < words.len() && 0 <= k < 4 ==> #[trigger] bytes[4 * i + k] == word_byte(
            words[i],
            3 - k,
        )
}

/// `bytes` holds the words of `words` as some machine lays them out in
/// memory.
pub open spec fn encodes_words(words: Seq<u32>, bytes: Seq<u8>) -> bool {
    encodes_little_endian(words, bytes) || encodes_big_endian(words, bytes)
}

/// The memory of `words` as bytes, through `AsByteSlice::as_byte_slice` of
/// byte-slice-cast. That function reinterprets the words in place, so what
/// comes back is four bytes a word in the byte order of the machine. Which
/// order that is the contract leaves open.
#[verifier::external_body]
pub(crate) fn words_as_bytes(words: &Vec<u32>) -> (bytes: Vec<u8>)
    ensures
        encodes_words(words@, bytes@),
{
    words.as_byte_slice().to_vec()
}

} // verus!
