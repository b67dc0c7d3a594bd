//! Words and counted values as they lie in a frame.
//!
//! Every field of two bytes travels high byte first. Values of variable
//! length travel behind a byte that counts them.

use vstd::prelude::*;

verus! {

/// The two bytes of a 16 bit word, high byte first.
pub open spec fn word(value: u16) -> Seq<u8> {
    seq![(value / 256) as u8, (value % 256) as u8]
}

/// The 16 bit word whose high byte is `high` and whose low byte is `low`.
pub open spec fn word_of(high: u8, low: u8) -> u16 {
    (high as u16 * 256 + low as u16) as u16
}

/// The 16 bit word that stands at `at` in `bytes`, high byte first.
pub open spec fn word_at(bytes: Seq<u8>, at: int) -> u16 {
    word_of(bytes[at], bytes[at + 1])
}

/// Reads the word that stands at `at` in `bytes`, high byte first.
pub(crate) fn read_word(bytes: &[u8], at: usize) -> (value: u16)
    requires
        at + 2 <= bytes@.len(),
    ensures
        value == word_at(bytes@, at as int),
{
    (bytes[at] as u16) * 256 + (bytes[at + 1] as u16)
}

/// A word is read back from its two bytes.
pub proof fn lemma_word_round_trip(value: u16)
    ensures
        word(value).len() == 2,
        word_at(word(value), 0) == value,
{
}

/// Two bytes are the bytes of the word that they make.
pub proof fn lemma_word_of_bytes(high: u8, low: u8)
    ensures
        word(word_of(high, low)) =~= seq![high, low],
{
}

/// Two words are read back from their four bytes.
pub proof fn lemma_two_words(first: u16, second: u16)
    ensures
        (word(first) + word(second)).len() == 4,
        word_at(word(first) + word(second), 0) == first,
        word_at(word(first) + word(second), 2) == second,
{
    lemma_word_round_trip(first);
    lemma_word_round_trip(second);
}

/// Four bytes are the bytes of the two words that they make.
pub proof fn lemma_two_words_of_bytes(bytes: Seq<u8>)
    requires
        bytes.len() == 4,
    ensures
        word(word_at(bytes, 0)) + word(word_at(bytes, 2)) == bytes,
{
    lemma_word_of_bytes(bytes[0], bytes[1]);
    lemma_word_of_bytes(bytes[2], bytes[3]);
    assert(word(word_at(bytes, 0)) + word(word_at(bytes, 2)) =~= bytes);
}

/// A count and the values behind it are read back from their bytes.
pub proof fn lemma_counted(count: u8, values: Seq<u8>)
    ensures
        (seq![count] + values).len() == 1 + values.len(),
        (seq![count] + values)[0] == count,
        (seq![count] + values).skip(1) == values,
{
    assert((seq![count] + values).skip(1) =~= values);
}

/// Bytes are a first byte and the bytes behind it.
pub proof fn lemma_counted_of_bytes(bytes: Seq<u8>)
    requires
        bytes.len() >= 1,
    ensures
        seq![bytes[0]] + bytes.skip(1) == bytes,
{
    assert(seq![bytes[0]] + bytes.skip(1) =~= bytes);
}

/// Two words, a count and the values behind it are read back from their
/// bytes.
pub proof fn lemma_two_words_counted(first: u16, second: u16, count: u8, values: Seq<u8>)
    ensures
        (word(first) + word(second) + seq![count] + values).len() == 5 + values.len(),
        word_at(word(first) + word(second) + seq![count] + values, 0) == first,
        word_at(word(first) + word(second) + seq![count] + values, 2) == second,
        (word(first) + word(second) + seq![count] + values)[4] == count,
        (word(first) + word(second) + seq![count] + values).skip(5) == values,
{
    lemma_word_round_trip(first);
    lemma_word_round_trip(second);
    assert((word(first) + word(second) + seq![count] + values).skip(5) =~= values);
}

/// Bytes are two words, a fifth byte and the bytes behind it.
pub proof fn lemma_two_words_counted_of_bytes(bytes: Seq<u8>)
    requires
        bytes.len() >= 5,
    ensures
        word(word_at(bytes, 0)) + word(word_at(bytes, 2)) + seq![bytes[4]] + bytes.skip(5)
            == bytes,
{
    lemma_word_of_bytes(bytes[0], bytes[1]);
    lemma_word_of_bytes(bytes[2], bytes[3]);
    assert(word(word_at(bytes, 0)) + word(word_at(bytes, 2)) + seq![bytes[4]] + bytes.skip(5)
        =~= bytes);
}

} // verus!
