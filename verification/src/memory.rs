//! The raw memory image of a sequence of 32-bit words.

use vstd::endian::{endianness, Endian};
use vstd::prelude::*;

verus! {

/// Byte `k` (0 is least significant) of the word `w`.
pub open spec fn word_byte(w: u32, k: int) -> u8 {
    if k == 0 {
        (w % 256) as u8
    } else if k == 1 {
        ((w / 256) % 256) as u8
    } else if k == 2 {
        ((w / 65536) % 256) as u8
    } else {
        (w / 16777216) as u8
    }
}

/// The byte stored at offset `k` of a word laid out in the given byte order.
pub open spec fn stored_byte(order: Endian, w: u32, k: int) -> u8 {
    match order {
        Endian::Little => word_byte(w, k),
        Endian::Big => word_byte(w, 3 - k),
    }
}

/// The bytes that `words` occupy in memory under the given byte order: four
/// bytes per word, words in sequence, nothing between them.
pub open spec fn memory_image(order: Endian, words: Seq<u32>) -> Seq<u8> {
    Seq::new(4 * words.len(), |i: int| stored_byte(order, words[i / 4], i % 4))
}

/// The bytes that `words` occupy in memory on the executing machine.
pub open spec fn native_image(words: Seq<u32>) -> Seq<u8> {
    memory_image(endianness(), words)
}

/// The word whose four bytes, least significant first, are `b0..b3`.
pub open spec fn word_of_bytes(b0: u8, b1: u8, b2: u8, b3: u8) -> u32 {
    (b0 as int + 256 * (b1 as int) + 65536 * (b2 as int) + 16777216 * (b3 as int)) as u32
}

/// The words that a memory image decodes to under the given byte order.
pub open spec fn decoded_words(order: Endian, bytes: Seq<u8>) -> Seq<u32> {
    Seq::new(
        bytes.len() / 4,
        |j: int|
            match order {
                Endian::Little => word_of_bytes(
                    bytes[4 * j],
                    bytes[4 * j + 1],
                    bytes[4 * j + 2],
                    bytes[4 * j + 3],
                ),
                Endian::Big => word_of_bytes(
                    bytes[4 * j + 3],
                    bytes[4 * j + 2],
                    bytes[4 * j + 1],
                    bytes[4 * j],
                ),
            },
    )
}

/// A word is the sum of its four bytes, each at its place.
pub proof fn lemma_word_from_its_bytes(w: u32)
    ensures
        word_of_bytes(word_byte(w, 0), word_byte(w, 1), word_byte(w, 2), word_byte(w, 3)) == w,
{
    let x = w as int;
    assert(x == 256 * (x / 256) + x % 256);
    assert(x / 256 == 256 * ((x / 256) / 256) + (x / 256) % 256);
    assert((x / 256) / 256 == x / 65536);
    assert(x / 65536 == 256 * ((x / 65536) / 256) + (x / 65536) % 256);
    assert((x / 65536) / 256 == x / 16777216);
    assert(x / 16777216 < 256);
}

/// Decoding a memory image gives back the words it was made from: the image
/// loses nothing and adds nothing.
pub proof fn lemma_image_decodes(order: Endian, words: Seq<u32>)
    ensures
        memory_image(order, words).len() == 4 * words.len(),
        decoded_words(order, memory_image(order, words)) =~= words,
{
    let bytes = memory_image(order, words);
    assert forall|j: int| 0 <= j < words.len() implies decoded_words(order, bytes)[j]
        == words[j] by {
        lemma_word_from_its_bytes(words[j]);
        assert((4 * j) / 4 == j && (4 * j + 1) / 4 == j && (4 * j + 2) / 4 == j && (4 * j + 3) / 4
            == j);
        assert((4 * j) % 4 == 0 && (4 * j + 1) % 4 == 1 && (4 * j + 2) % 4 == 2 && (4 * j + 3) % 4
            == 3);
    }
}

/// Copies the memory of `words` out as bytes with `bytemuck::cast_slice`, from
/// `u32` to `u8`. Trusted: the cast reinterprets the slice in place, so the
/// result is the words' memory image in the byte order of the executing
/// machine, four bytes for each word. A cast to `u8` has no alignment or size
/// condition to fail on.
#[verifier::external_body]
pub(crate) fn cast_words(words: &Vec<u32>) -> (bytes: Vec<u8>)
    ensures
        bytes@ == native_image(words@),
{
    bytemuck::cast_slice::<u32, u8>(words.as_slice()).to_vec()
}

} // verus!
