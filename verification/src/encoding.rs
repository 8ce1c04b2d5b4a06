use vstd::prelude::*;

verus! {

/// Byte `j` (0 = least significant) of `w`
pub open spec fn byte_of(w: u32, j: int) -> u8 {
    if j == 0 {
        (w % 256) as u8
    } else if j == 1 {
        ((w / 256) % 256) as u8
    } else if j == 2 {
        ((w / 65536) % 256) as u8
    } else {
        (w / 16777216) as u8
    }
}

/// The words laid out as bytes, least significant byte of each word first
pub open spec fn words_le(words: Seq<u32>) -> Seq<u8> {
    Seq::new((4 * words.len()) as nat, |k: int| byte_of(words[k / 4], k % 4))
}

/// The words laid out as bytes, most significant byte of each word first
pub open spec fn words_be(words: Seq<u32>) -> Seq<u8> {
    Seq::new((4 * words.len()) as nat, |k: int| byte_of(words[k / 4], 3 - k % 4))
}

/// The words laid out as bytes in one of the two byte orders
pub open spec fn words_in_some_order(words: Seq<u32>, bytes: Seq<u8>) -> bool {
    bytes == words_le(words) || bytes == words_be(words)
}

/// Reinterpret a run of `u32` words as the bytes that hold them in memory.
///
/// Calls `bytemuck::cast_slice` from `u32` to `u8` and copies the result. The contract states
/// that the bytes are the words laid out in little-endian or in big-endian order; which of the
/// two is the machine's byte order and is left unsaid.
#[verifier::external_body]
pub(crate) fn words_as_bytes(words: &[u32]) -> (bytes: Vec<u8>)
    ensures
        words_in_some_order(words@, bytes@),
{
    bytemuck::cast_slice::<u32, u8>(words).to_vec()
}

} // verus!
