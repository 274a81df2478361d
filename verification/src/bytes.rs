//! Integers in byte buffers: little-endian fields of files and RPC messages,
//! and element buffers in the byte order of the machine.

use vstd::endian::*;
use vstd::prelude::*;

use crate::text::viewed;

verus! {

/// The little-endian word at `offset`.
pub open spec fn le_u32(bytes: Seq<u8>, offset: int) -> u32 {
    (bytes[offset] + bytes[offset + 1] * 0x100 + bytes[offset + 2] * 0x1_0000 + bytes[offset + 3]
        * 0x100_0000) as u32
}

/// The little-endian double word at `offset`.
pub open spec fn le_u64(bytes: Seq<u8>, offset: int) -> u64 {
    (le_u32(bytes, offset) + le_u32(bytes, offset + 4) * 0x1_0000_0000) as u64
}

/// The four bytes of a word, the low byte first.
pub open spec fn u32_le(value: u32) -> Seq<u8> {
    seq![
        (value % 0x100) as u8,
        (value / 0x100 % 0x100) as u8,
        (value / 0x1_0000 % 0x100) as u8,
        (value / 0x100_0000) as u8,
    ]
}

/// `bytes` with the word `value` stored little-endian at `offset`.
pub open spec fn with_u32(bytes: Seq<u8>, offset: int, value: u32) -> Seq<u8> {
    Seq::new(
        bytes.len(),
        |i: int|
            if offset <= i < offset + 4 {
                u32_le(value)[i - offset]
            } else {
                bytes[i]
            },
    )
}

/// A word read back from where it was stored is the word that was stored.
pub proof fn law_read_gives_what_was_written(bytes: Seq<u8>, offset: int, value: u32)
    requires
        0 <= offset,
        offset + 4 <= bytes.len(),
    ensures
        le_u32(with_u32(bytes, offset, value), offset) == value,
{
}

/// Storing a word leaves every word that does not overlap it as it was.
pub proof fn law_write_keeps_other_words(bytes: Seq<u8>, offset: int, value: u32, other: int)
    requires
        0 <= offset,
        offset + 4 <= bytes.len(),
        0 <= other,
        other + 4 <= bytes.len(),
        other + 4 <= offset || offset + 4 <= other,
    ensures
        le_u32(with_u32(bytes, offset, value), other) == le_u32(bytes, other),
{
}

/// What reading a header word gives: the word, or why it cannot be read.
pub open spec fn header_u32(bytes: Seq<u8>, offset: usize) -> Result<u32, Seq<char>> {
    if offset + 4 > usize::MAX {
        Err("integer offset overflowed"@)
    } else if offset + 4 > bytes.len() {
        Err("binary header is truncated"@)
    } else {
        Ok(le_u32(bytes, offset as int))
    }
}

/// What reading a header double word gives: the value, or why it cannot be
/// read.
pub open spec fn header_u64(bytes: Seq<u8>, offset: usize) -> Result<u64, Seq<char>> {
    if offset + 8 > usize::MAX {
        Err("integer offset overflowed"@)
    } else if offset + 8 > bytes.len() {
        Err("binary header is truncated"@)
    } else {
        Ok(le_u64(bytes, offset as int))
    }
}

/// The little-endian word at `offset`, which must lie in the buffer.
fn word_at(bytes: &[u8], offset: usize) -> (r: u32)
    requires
        offset + 4 <= bytes@.len(),
    ensures
        r == le_u32(bytes@, offset as int),
{
    bytes[offset] as u32 + bytes[offset + 1] as u32 * 0x100 + bytes[offset + 2] as u32 * 0x1_0000
        + bytes[offset + 3] as u32 * 0x100_0000
}

/// Reads the little-endian word at `offset`.
pub fn read_header_u32(bytes: &[u8], offset: usize) -> (res: Result<u32, String>)
    ensures
        viewed(res) == header_u32(bytes@, offset),
{
    let end = match offset.checked_add(4) {
        Some(end) => end,
        None => return Err("integer offset overflowed".to_owned()),
    };
    if end > bytes.len() {
        return Err("binary header is truncated".to_owned());
    }
    Ok(word_at(bytes, offset))
}

/// Reads the little-endian double word at `offset`.
pub fn read_header_u64(bytes: &[u8], offset: usize) -> (res: Result<u64, String>)
    ensures
        viewed(res) == header_u64(bytes@, offset),
{
    let end = match offset.checked_add(8) {
        Some(end) => end,
        None => return Err("integer offset overflowed".to_owned()),
    };
    if end > bytes.len() {
        return Err("binary header is truncated".to_owned());
    }
    let low = word_at(bytes, offset) as u64;
    let high = word_at(bytes, offset + 4) as u64;
    Ok(low + high * 0x1_0000_0000)
}

/// The smallest multiple of 128 that is not below `value`.
pub open spec fn aligned128(value: nat) -> nat {
    (value + 127) / 128 * 128
}

/// Rounds `value` up to a multiple of 128.
pub fn align128(value: usize) -> (r: usize)
    requires
        value + 127 <= usize::MAX,
    ensures
        r == aligned128(value as nat),
{
    let padded: usize = value + 127;
    assert(padded & !127usize == padded / 128 * 128) by (bit_vector);
    padded & !127
}

/// Stores a word little-endian at `offset`.
pub fn write_u32(buffer: &mut Vec<u8>, offset: usize, value: u32)
    requires
        offset + 4 <= old(buffer).len(),
    ensures
        final(buffer)@ == with_u32(old(buffer)@, offset as int, value),
{
    buffer.set(offset, (value % 0x100) as u8);
    buffer.set(offset + 1, (value / 0x100 % 0x100) as u8);
    buffer.set(offset + 2, (value / 0x1_0000 % 0x100) as u8);
    buffer.set(offset + 3, (value / 0x100_0000) as u8);
    assert(buffer@ =~= with_u32(old(buffer)@, offset as int, value));
}

/// The little-endian word at `offset` of a result buffer.
pub fn read_u32(buffer: &[u8], offset: usize) -> (r: u32)
    requires
        offset + 4 <= buffer@.len(),
    ensures
        r == le_u32(buffer@, offset as int),
{
    word_at(buffer, offset)
}

/// `bytes` with these words stored little-endian, one after the other, from the
/// start.
pub open spec fn with_words(bytes: Seq<u8>, words: Seq<u32>) -> Seq<u8> {
    Seq::new(
        bytes.len(),
        |i: int|
            if 0 <= i < 4 * words.len() {
                u32_le(words[i / 4])[i % 4]
            } else {
                bytes[i]
            },
    )
}

/// Where the four bytes of a word stand, the word is read.
pub(crate) proof fn lemma_bytes_of_word(bytes: Seq<u8>, offset: int, value: u32)
    requires
        bytes[offset] == u32_le(value)[0],
        bytes[offset + 1] == u32_le(value)[1],
        bytes[offset + 2] == u32_le(value)[2],
        bytes[offset + 3] == u32_le(value)[3],
    ensures
        le_u32(bytes, offset) == value,
{
}

/// Every word that was stored is read back from its place, and the bytes behind
/// them are as they were.
#[verifier::spinoff_prover]
pub proof fn law_words_are_read_back(bytes: Seq<u8>, words: Seq<u32>, k: int)
    requires
        4 * words.len() <= bytes.len(),
    ensures
        0 <= k < words.len() ==> le_u32(with_words(bytes, words), 4 * k) == words[k],
        4 * words.len() <= k < bytes.len() ==> with_words(bytes, words)[k] == bytes[k],
{
    if 0 <= k < words.len() {
        let stored = with_words(bytes, words);
        let value = words[k];
        assert(4 * k / 4 == k && 4 * k % 4 == 0);
        assert((4 * k + 1) / 4 == k && (4 * k + 1) % 4 == 1);
        assert((4 * k + 2) / 4 == k && (4 * k + 2) % 4 == 2);
        assert((4 * k + 3) / 4 == k && (4 * k + 3) % 4 == 3);
        lemma_bytes_of_word(stored, 4 * k, value);
    }
}

/// Stores words little-endian, one after the other, from the start.
pub fn write_words(buffer: &mut Vec<u8>, words: &Vec<u32>)
    requires
        4 * words.len() <= old(buffer).len(),
    ensures
        final(buffer)@ == with_words(old(buffer)@, words@),
{
    let count = words.len();
    for k in 0..count
        invariant
            count == words@.len(),
            4 * count <= buffer@.len(),
            buffer@.len() == old(buffer)@.len(),
            buffer@ == with_words(old(buffer)@, words@.take(k as int)),
            4 * words.len() <= old(buffer).len(),
            buffer.len() == old(buffer).len(),
    {
        let ghost before = buffer@;
        write_u32(buffer, 4 * k, words[k]);
        proof {
            let taken = words@.take(k + 1);
            assert forall|i: int| 0 <= i < before.len() implies buffer@[i] == with_words(
                old(buffer)@,
                taken,
            )[i] by {
                if 4 * k <= i < 4 * k + 4 {
                    assert(i / 4 == k && i % 4 == i - 4 * k);
                } else if i < 4 * k {
                    assert(0 <= i / 4 < k);
                    assert(taken[i / 4] == words@.take(k as int)[i / 4]);
                }
            }
            assert(buffer@ =~= with_words(old(buffer)@, taken));
        }
    }
    proof {
        assert(words@.take(words@.len() as int) == words@);
    }
}

/// A word as the two's complement integer that it encodes.
pub open spec fn as_signed(word: u32) -> i32 {
    if word < 0x8000_0000 {
        word as i32
    } else {
        (word - 0x1_0000_0000) as i32
    }
}

/// The word that encodes an integer in two's complement.
pub open spec fn as_word(value: i32) -> u32 {
    if value >= 0 {
        value as u32
    } else {
        (value + 0x1_0000_0000) as u32
    }
}

/// The two's complement integer at `offset` of a result buffer.
pub fn read_i32(buffer: &[u8], offset: usize) -> (r: i32)
    requires
        offset + 4 <= buffer@.len(),
    ensures
        r == as_signed(le_u32(buffer@, offset as int)),
{
    signed(word_at(buffer, offset))
}

/// A word as a two's complement integer.
pub fn signed(word: u32) -> (r: i32)
    ensures
        r == as_signed(word),
{
    if word < 0x8000_0000 {
        word as i32
    } else {
        (word as i64 - 0x1_0000_0000) as i32
    }
}

/// An integer as the word that encodes it in two's complement.
pub fn word(value: i32) -> (r: u32)
    ensures
        r == as_word(value),
{
    if value >= 0 {
        value as u32
    } else {
        (value as i64 + 0x1_0000_0000) as u32
    }
}


/// The four bytes of a word in the byte order of the machine.
pub open spec fn u32_native(value: u32) -> Seq<u8> {
    match endianness() {
        Endian::Little => u32_le(value),
        Endian::Big => u32_le(value).reverse(),
    }
}

/// The two bytes of a half word in the byte order of the machine.
pub open spec fn u16_native(value: u16) -> Seq<u8> {
    match endianness() {
        Endian::Little => seq![(value % 0x100) as u8, (value / 0x100) as u8],
        Endian::Big => seq![(value / 0x100) as u8, (value % 0x100) as u8],
    }
}

/// A buffer of words in the byte order of the machine.
pub open spec fn native_words(values: Seq<u32>) -> Seq<u8> {
    Seq::new(4 * values.len(), |i: int| u32_native(values[i / 4])[i % 4])
}

/// A buffer of half words in the byte order of the machine.
pub open spec fn native_half_words(values: Seq<u16>) -> Seq<u8> {
    Seq::new(2 * values.len(), |i: int| u16_native(values[i / 2])[i % 2])
}

/// `bytemuck::cast_slice` from words to bytes: the bytes of the words, one
/// word after the other, each in the byte order of the machine.
#[verifier::external_body]
pub(crate) fn cast_words(values: &[u32]) -> (r: Vec<u8>)
    ensures
        r@ == native_words(values@),
{
    bytemuck::cast_slice::<u32, u8>(values).to_vec()
}

/// `bytemuck::cast_slice` from half words to bytes: the bytes of the half
/// words, one after the other, each in the byte order of the machine.
#[verifier::external_body]
pub(crate) fn cast_half_words(values: &[u16]) -> (r: Vec<u8>)
    ensures
        r@ == native_half_words(values@),
{
    bytemuck::cast_slice::<u16, u8>(values).to_vec()
}

/// `bytemuck::pod_read_unaligned` of a word: the word whose bytes, in the
/// byte order of the machine, are the four given ones. It panics on a slice
/// of another length.
#[verifier::external_body]
pub(crate) fn read_word(bytes: &[u8]) -> (r: u32)
    requires
        bytes@.len() == 4,
    ensures
        u32_native(r) == bytes@,
{
    bytemuck::pod_read_unaligned::<u32>(bytes)
}

/// `bytemuck::pod_read_unaligned` of a half word: the half word whose bytes,
/// in the byte order of the machine, are the two given ones. It panics on a
/// slice of another length.
#[verifier::external_body]
pub(crate) fn read_half_word(bytes: &[u8]) -> (r: u16)
    requires
        bytes@.len() == 2,
    ensures
        u16_native(r) == bytes@,
{
    bytemuck::pod_read_unaligned::<u16>(bytes)
}

/// Two words with the same bytes are the same word.
proof fn lemma_u32_native_injective(a: u32, b: u32)
    requires
        u32_native(a) == u32_native(b),
    ensures
        a == b,
{
    let x = u32_native(a);
    let y = u32_native(b);
    assert(x[0] == y[0] && x[1] == y[1] && x[2] == y[2] && x[3] == y[3]);
    assert(u32_le(a) =~= u32_le(b)) by {
        assert(u32_le(a) =~= x || u32_le(a) =~= x.reverse());
        assert(u32_le(b) =~= y || u32_le(b) =~= y.reverse());
    }
    lemma_word_is_sum_of_bytes(a);
    lemma_word_is_sum_of_bytes(b);
}

/// A word is made of its four bytes.
proof fn lemma_word_is_sum_of_bytes(a: u32)
    ensures
        a == u32_le(a)[0] + u32_le(a)[1] * 0x100 + u32_le(a)[2] * 0x1_0000 + u32_le(a)[3]
            * 0x100_0000,
{
    assert(a == (a % 0x100) + (a / 0x100 % 0x100) * 0x100 + (a / 0x1_0000 % 0x100) * 0x1_0000 + (a
        / 0x100_0000) * 0x100_0000) by (bit_vector);
}

/// Two half words with the same bytes are the same half word.
proof fn lemma_u16_native_injective(a: u16, b: u16)
    requires
        u16_native(a) == u16_native(b),
    ensures
        a == b,
{
    let x = u16_native(a);
    let y = u16_native(b);
    assert(x[0] == y[0] && x[1] == y[1]);
}

/// Buffers of words with the same bytes hold the same words: decoding an
/// encoded buffer gives back what was encoded.
pub proof fn law_words_survive_encoding(a: Seq<u32>, b: Seq<u32>)
    requires
        native_words(a) == native_words(b),
    ensures
        a == b,
{
    assert(native_words(a).len() == 4 * a.len());
    assert(native_words(b).len() == 4 * b.len());
    assert(a.len() == b.len());
    assert forall|k: int| 0 <= k < a.len() implies a[k] == b[k] by {
        assert forall|j: int| 0 <= j < 4 implies u32_native(a[k])[j] == u32_native(b[k])[j] by {
            let i = 4 * k + j;
            assert(i / 4 == k && i % 4 == j);
            assert(native_words(a)[i] == u32_native(a[k])[j]);
            assert(native_words(b)[i] == u32_native(b[k])[j]);
        }
        assert(u32_native(a[k]) =~= u32_native(b[k]));
        lemma_u32_native_injective(a[k], b[k]);
    }
    assert(a =~= b);
}

/// Buffers of half words with the same bytes hold the same half words.
pub proof fn law_half_words_survive_encoding(a: Seq<u16>, b: Seq<u16>)
    requires
        native_half_words(a) == native_half_words(b),
    ensures
        a == b,
{
    assert(native_half_words(a).len() == 2 * a.len());
    assert(native_half_words(b).len() == 2 * b.len());
    assert(a.len() == b.len());
    assert forall|k: int| 0 <= k < a.len() implies a[k] == b[k] by {
        assert forall|j: int| 0 <= j < 2 implies u16_native(a[k])[j] == u16_native(b[k])[j] by {
            let i = 2 * k + j;
            assert(i / 2 == k && i % 2 == j);
            assert(native_half_words(a)[i] == u16_native(a[k])[j]);
            assert(native_half_words(b)[i] == u16_native(b[k])[j]);
        }
        assert(u16_native(a[k]) =~= u16_native(b[k]));
        lemma_u16_native_injective(a[k], b[k]);
    }
    assert(a =~= b);
}

/// The words of a buffer, read in the byte order of the machine.
pub fn decode_words(bytes: &[u8]) -> (r: Vec<u32>)
    requires
        bytes@.len() % 4 == 0,
    ensures
        r@.len() == bytes@.len() / 4,
        native_words(r@) == bytes@,
{
    let mut out: Vec<u32> = Vec::new();
    let mut at: usize = 0;
    while at < bytes.len()
        invariant
            bytes@.len() % 4 == 0,
            at <= bytes@.len(),
            at == 4 * out@.len(),
            native_words(out@) == bytes@.subrange(0, at as int),
        decreases bytes@.len() - at,
    {
        let ghost before = out@;
        let chunk = &bytes[at..at + 4];
        let value = read_word(chunk);
        out.push(value);
        assert(native_words(out@) =~= bytes@.subrange(0, at + 4)) by {
            assert forall|i: int| 0 <= i < at + 4 implies native_words(out@)[i] == bytes@[i] by {
                if i < at {
                    assert(native_words(before)[i] == bytes@.subrange(0, at as int)[i]);
                } else {
                    assert(i / 4 == before.len() && i % 4 == i - at);
                    assert(u32_native(value)[i - at] == chunk@[i - at]);
                }
            }
        }
        at += 4;
    }
    assert(bytes@.subrange(0, at as int) =~= bytes@);
    out
}

/// The half words of a buffer, read in the byte order of the machine.
pub fn decode_half_words(bytes: &[u8]) -> (r: Vec<u16>)
    requires
        bytes@.len() % 2 == 0,
    ensures
        r@.len() == bytes@.len() / 2,
        native_half_words(r@) == bytes@,
{
    let mut out: Vec<u16> = Vec::new();
    let mut at: usize = 0;
    while at < bytes.len()
        invariant
            bytes@.len() % 2 == 0,
            at <= bytes@.len(),
            at == 2 * out@.len(),
            native_half_words(out@) == bytes@.subrange(0, at as int),
        decreases bytes@.len() - at,
    {
        let ghost before = out@;
        let chunk = &bytes[at..at + 2];
        let value = read_half_word(chunk);
        out.push(value);
        assert(native_half_words(out@) =~= bytes@.subrange(0, at + 2)) by {
            assert forall|i: int| 0 <= i < at + 2 implies native_half_words(out@)[i]
                == bytes@[i] by {
                if i < at {
                    assert(native_half_words(before)[i] == bytes@.subrange(0, at as int)[i]);
                } else {
                    assert(i / 2 == before.len() && i % 2 == i - at);
                    assert(u16_native(value)[i - at] == chunk@[i - at]);
                }
            }
        }
        at += 2;
    }
    assert(bytes@.subrange(0, at as int) =~= bytes@);
    out
}

/// Words are stored little-endian: the first byte is what the word leaves over
/// 256, and the others are the bytes of how often 256 goes into it. A word is read
/// as its first byte and 256 times the word that the others make.
pub proof fn law_low_byte_comes_first(value: u32, bytes: Seq<u8>, offset: int, j: int)
    ensures
        u32_le(value).len() == 4,
        u32_le(value)[0] == value % 256,
        0 <= j < 3 ==> u32_le(value)[j + 1] == u32_le(value / 256)[j],
        bytes[offset + 3] == 0 ==> le_u32(bytes, offset - 1) == bytes[offset - 1] + 256 * le_u32(
            bytes,
            offset,
        ),
        le_u64(bytes, offset) == le_u32(bytes, offset) + 0x1_0000_0000 * le_u32(bytes, offset + 4),
{
    assert(value / 256 / 0x100_0000 == 0);
    if bytes[offset + 3] == 0 {
        assert(offset - 1 + 1 == offset && offset - 1 + 2 == offset + 1 && offset - 1 + 3 == offset
            + 2);
    }
}

/// Signed integers are encoded in two's complement: the word of an integer differs
/// from it by a multiple of 2^32, and each is found from the other.
pub proof fn law_words_are_twos_complement(value: i32, word: u32)
    ensures
        (as_word(value) - value) % 0x1_0000_0000 == 0,
        as_signed(as_word(value)) == value,
        as_word(as_signed(word)) == word,
{
}

} // verus!
