//! Byte-to-word marshalling: splitting a caller's byte region into
//! consecutive groups of [`WORD_SIZE`] bytes and assembling each group into
//! one machine word, least significant byte first.

use vstd::prelude::*;
use crate::codes::{MAX_WRITE_LENGTH, WORD_SIZE};

verus! {

/// The machine word assembled from four bytes, least significant first.
pub open spec fn word_from_bytes(b0: u8, b1: u8, b2: u8, b3: u8) -> u32 {
    (b0 + b1 * 0x100 + b2 * 0x1_0000 + b3 * 0x100_0000) as u32
}

/// The words obtained by splitting `bytes` into consecutive groups of
/// [`WORD_SIZE`] bytes and assembling each group; a trailing group shorter
/// than a word is dropped.
pub open spec fn words_of(bytes: Seq<u8>) -> Seq<u32> {
    Seq::new(
        bytes.len() / (WORD_SIZE as nat),
        |i: int|
            word_from_bytes(
                bytes[(WORD_SIZE as int) * i],
                bytes[(WORD_SIZE as int) * i + 1],
                bytes[(WORD_SIZE as int) * i + 2],
                bytes[(WORD_SIZE as int) * i + 3],
            ),
    )
}

/// One word assembled from four bytes, least significant first.
pub fn word_from_byte_quad(b0: u8, b1: u8, b2: u8, b3: u8) -> (w: u32)
    ensures
        w == word_from_bytes(b0, b1, b2, b3),
{
    (b0 as u32) + (b1 as u32) * 0x100 + (b2 as u32) * 0x1_0000 + (b3 as u32) * 0x100_0000
}

/// Converts `bytes` to words and stores them into `scratch` starting at
/// index 0, returning the word count.  Words past the count keep their old
/// values.
pub fn marshal_into(scratch: &mut Vec<u32>, bytes: &Vec<u8>) -> (count: usize)
    requires
        old(scratch).len() == MAX_WRITE_LENGTH,
        bytes@.len() % (WORD_SIZE as nat) == 0,
        bytes@.len() / (WORD_SIZE as nat) <= MAX_WRITE_LENGTH,
    ensures
        count == bytes@.len() / (WORD_SIZE as nat),
        final(scratch).len() == MAX_WRITE_LENGTH,
        final(scratch)@.subrange(0, count as int) == words_of(bytes@),
        final(scratch)@.skip(count as int) == old(scratch)@.skip(count as int),
{
    let count = bytes.len() / WORD_SIZE;
    let mut i: usize = 0;
    while i < count
        invariant
            i <= count,
            count == bytes@.len() / (WORD_SIZE as nat),
            bytes@.len() % (WORD_SIZE as nat) == 0,
            count <= MAX_WRITE_LENGTH,
            scratch.len() == MAX_WRITE_LENGTH,
            forall|j: int| 0 <= j < i ==> scratch@[j] == words_of(bytes@)[j],
            forall|j: int| i <= j < MAX_WRITE_LENGTH ==> scratch@[j] == old(scratch)@[j],
        decreases count - i,
    {
        assert(WORD_SIZE * i + 3 < bytes@.len()) by {
            assert(bytes@.len() == (WORD_SIZE as nat) * count) by {
                vstd::arithmetic::div_mod::lemma_fundamental_div_mod(
                    bytes@.len() as int,
                    WORD_SIZE as int,
                );
            }
        }
        let w = word_from_byte_quad(
            bytes[WORD_SIZE * i],
            bytes[WORD_SIZE * i + 1],
            bytes[WORD_SIZE * i + 2],
            bytes[WORD_SIZE * i + 3],
        );
        scratch[i] = w;
        i = i + 1;
    }
    proof {
        assert(scratch@.subrange(0, count as int) =~= words_of(bytes@));
        assert(scratch@.skip(count as int) =~= old(scratch)@.skip(count as int));
    }
    count
}

} // verus!
