//! The fixed part of every frame: three little-endian 32-bit words that give the command, the
//! length of the user name and the length of the text.

use byteorder::{ByteOrder, LittleEndian};
use vstd::prelude::*;

verus! {

/// Number of bytes in a frame header.
pub const HEADER_LEN: usize = 12;

/// The unsigned value of the four bytes of `b`, least significant byte first.
pub open spec fn word_value(b: Seq<u8>) -> nat
    recommends
        b.len() == 4,
{
    (b[0] + 0x100 * b[1] + 0x1_0000 * b[2] + 0x100_0000 * b[3]) as nat
}

/// The four bytes of `n` modulo 2^32, least significant byte first.
pub open spec fn word_bytes(n: nat) -> Seq<u8> {
    seq![
        (n % 0x100) as u8,
        (n / 0x100 % 0x100) as u8,
        (n / 0x1_0000 % 0x100) as u8,
        (n / 0x100_0000 % 0x100) as u8,
    ]
}

/// The two's complement reading of a 32-bit word.
pub open spec fn signed_value(n: nat) -> int {
    if n < 0x8000_0000 {
        n as int
    } else {
        n - 0x1_0000_0000
    }
}

/// The 32-bit word that holds `n` in two's complement.
pub open spec fn twos_complement(n: i32) -> nat {
    if n >= 0 {
        n as nat
    } else {
        (n + 0x1_0000_0000) as nat
    }
}

/// Calls `LittleEndian::read_u32` of byteorder, which reads the first four bytes of its argument as
/// an unsigned number, least significant byte first. It panics on fewer than four bytes.
#[verifier::external_body]
pub(crate) fn read_u32(buf: &[u8]) -> (n: u32)
    requires
        buf@.len() >= 4,
    ensures
        n as nat == word_value(buf@.subrange(0, 4)),
{
    LittleEndian::read_u32(buf)
}

/// Calls `LittleEndian::read_i32` of byteorder, which reads the first four bytes of its argument as
/// a two's complement number, least significant byte first. It panics on fewer than four bytes.
#[verifier::external_body]
pub(crate) fn read_i32(buf: &[u8]) -> (n: i32)
    requires
        buf@.len() >= 4,
    ensures
        n as int == signed_value(word_value(buf@.subrange(0, 4))),
{
    LittleEndian::read_i32(buf)
}

/// Calls `LittleEndian::write_i32` of byteorder, which stores a number in two's complement in the
/// first four bytes of its argument, least significant byte first, and leaves the bytes behind them
/// alone. It panics on fewer than four bytes.
#[verifier::external_body]
pub(crate) fn write_i32(buf: &mut [u8], n: i32)
    requires
        old(buf)@.len() >= 4,
    ensures
        final(buf)@ == word_bytes(twos_complement(n)) + old(buf)@.subrange(
            4,
            old(buf)@.len() as int,
        ),
{
    LittleEndian::write_i32(buf, n)
}

/// A header buffer after `bytes` were received into it: what is missing at its end is zero.
pub open spec fn padded_header(bytes: Seq<u8>) -> Seq<u8> {
    Seq::new(HEADER_LEN as nat, |i: int| if i < bytes.len() { bytes[i] } else { 0u8 })
}

/// The word at position `i` of the header that `bytes` begins.
pub open spec fn header_word(bytes: Seq<u8>, i: int) -> nat
    recommends
        0 <= i < 3,
{
    word_value(padded_header(bytes).subrange(4 * i, 4 * i + 4))
}

/// The header that announces `command` with a name of `name_len` bytes and a text of `text_len`
/// bytes; each word holds its number modulo 2^32.
pub open spec fn header_bytes(command: nat, name_len: nat, text_len: nat) -> Seq<u8> {
    word_bytes(command) + word_bytes(name_len) + word_bytes(text_len)
}

/// Lays out what was received of a header in a full header buffer.
pub(crate) fn pad_header(bytes: &Vec<u8>) -> (buf: Vec<u8>)
    requires
        bytes@.len() <= HEADER_LEN,
    ensures
        buf@ == padded_header(bytes@),
{
    let mut buf: Vec<u8> = Vec::with_capacity(HEADER_LEN);
    for i in 0..HEADER_LEN
        invariant
            bytes@.len() <= HEADER_LEN,
            buf@ == padded_header(bytes@).subrange(0, i as int),
    {
        if i < bytes.len() {
            buf.push(bytes[i]);
        } else {
            buf.push(0);
        }
        assert(buf@ =~= padded_header(bytes@).subrange(0, i + 1));
    }
    assert(buf@ =~= padded_header(bytes@));
    buf
}

/// Lays out a header. Lengths that do not fit in 32 bits are cut off to their low 32 bits.
pub(crate) fn encode_header(command: i32, name_len: usize, text_len: usize) -> (header: Vec<u8>)
    requires
        0 <= command,
    ensures
        header@ == header_bytes(command as nat, name_len as nat, text_len as nat),
{
    let mut header: Vec<u8> = vec![0u8; HEADER_LEN];
    let (first, rest) = header.as_mut_slice().split_at_mut(4);
    let (second, third) = rest.split_at_mut(4);
    write_i32(first, command);
    write_i32(second, #[verifier::truncate] (name_len as i32));
    write_i32(third, #[verifier::truncate] (text_len as i32));
    proof {
        lemma_truncated_word(name_len);
        lemma_truncated_word(text_len);
    }
    assert(header@ =~= header_bytes(command as nat, name_len as nat, text_len as nat));
    header
}

/// Cutting a length off to an `i32` keeps the low 32 bits of it.
proof fn lemma_truncated_word(n: usize)
    ensures
        word_bytes(twos_complement(#[verifier::truncate] (n as i32))) == word_bytes(n as nat),
{
    let t = #[verifier::truncate] (n as i32);
    let u = #[verifier::truncate] (n as u32);
    assert(t >= 0 ==> u == t) by (bit_vector)
        requires
            t == n as i32,
            u == n as u32,
    ;
    assert(t < 0 ==> u == t + 0x1_0000_0000) by (bit_vector)
        requires
            t == n as i32,
            u == n as u32,
    ;
    assert(u % 0x100 == n % 0x100 && u / 0x100 % 0x100 == n / 0x100 % 0x100 && u / 0x1_0000 % 0x100
        == n / 0x1_0000 % 0x100 && u / 0x100_0000 % 0x100 == n / 0x100_0000 % 0x100) by (bit_vector)
        requires
            u == n as u32,
    ;
    assert(word_bytes(u as nat) =~= word_bytes(n as nat));
}

/// The first byte of a word counts ones, and each byte behind it counts 256 times as much as the one
/// before it.
pub proof fn law_low_byte_comes_first(b: Seq<u8>)
    requires
        b.len() == 4,
    ensures
        word_value(b) == b[0] + 256 * (b[1] + 256 * (b[2] + 256 * b[3])),
{
}

/// A word read as a signed number is the word modulo 2^32, in the range of 32-bit signed numbers.
pub proof fn law_signed_value_is_congruent(n: nat)
    requires
        n < 0x1_0000_0000,
    ensures
        i32::MIN <= signed_value(n) <= i32::MAX,
        (signed_value(n) - n) % 0x1_0000_0000 == 0,
{
}

/// The word that stands for a signed number is the number modulo 2^32, in the range of words.
pub proof fn law_twos_complement_is_congruent(n: i32)
    ensures
        twos_complement(n) < 0x1_0000_0000,
        (twos_complement(n) - n) % 0x1_0000_0000 == 0,
{
}

/// A header buffer has twelve bytes: those that were received, in their order, and zeros.
pub proof fn law_header_is_padded_with_zeros(bytes: Seq<u8>)
    requires
        bytes.len() <= 12,
    ensures
        padded_header(bytes).len() == 12,
        padded_header(bytes).subrange(0, bytes.len() as int) == bytes,
        forall|i: int| bytes.len() <= i < 12 ==> padded_header(bytes)[i] == 0,
{
    assert(padded_header(bytes).subrange(0, bytes.len() as int) =~= bytes);
}

/// The three words of a header lie one behind the other, four bytes each, the low byte first; a byte
/// that was not received counts as zero.
pub proof fn law_words_lie_in_a_row(bytes: Seq<u8>, i: int)
    requires
        bytes.len() <= 12,
        0 <= i < 3,
    ensures
        ({
            let byte = |k: int| if k < bytes.len() { bytes[k] as int } else { 0int };
            &&& header_word(bytes, i) == byte(4 * i) + 256 * (byte(4 * i + 1) + 256 * (byte(
                4 * i + 2,
            ) + 256 * byte(4 * i + 3)))
            &&& header_word(bytes, i) < 0x1_0000_0000
        }),
{
    let word = padded_header(bytes).subrange(4 * i, 4 * i + 4);
    assert forall|k: int| 0 <= k < 4 implies word[k] == (if 4 * i + k < bytes.len() {
        bytes[4 * i + k]
    } else {
        0u8
    }) by {}
    law_word_stores_back(word);
}

/// Reading a word back gives the number that was stored, modulo 2^32.
pub proof fn law_word_reads_back(n: nat)
    ensures
        word_bytes(n).len() == 4,
        word_value(word_bytes(n)) == n % 0x1_0000_0000,
{
    let b0 = n % 0x100;
    let b1 = n / 0x100 % 0x100;
    let b2 = n / 0x1_0000 % 0x100;
    let b3 = n / 0x100_0000 % 0x100;
    assert(n / 0x1_0000 == n / 0x100 / 0x100);
    assert(n / 0x100_0000 == n / 0x1_0000 / 0x100);
    assert(n / 0x1_0000_0000 == n / 0x100_0000 / 0x100);
}

/// Reading a word as a signed number gives back the signed number that was stored.
pub proof fn law_signed_word_reads_back(n: i32)
    ensures
        signed_value(word_value(word_bytes(twos_complement(n)))) == n,
{
    law_word_reads_back(twos_complement(n));
}

/// Storing the number that a word holds gives the word back.
pub proof fn law_word_stores_back(b: Seq<u8>)
    requires
        b.len() == 4,
    ensures
        word_value(b) < 0x1_0000_0000,
        word_bytes(word_value(b)) == b,
{
    let n = word_value(b);
    assert(n / 0x100 == b[1] + 0x100 * b[2] + 0x1_0000 * b[3]);
    assert(n / 0x1_0000 == b[2] + 0x100 * b[3]);
    assert(n / 0x100_0000 == b[3]);
    assert(word_bytes(n) =~= b);
}

/// The words of a header that was received whole are the numbers it was made from, modulo 2^32.
pub proof fn law_header_reads_back(command: nat, name_len: nat, text_len: nat)
    ensures
        header_bytes(command, name_len, text_len).len() == HEADER_LEN,
        header_word(header_bytes(command, name_len, text_len), 0) == command % 0x1_0000_0000,
        header_word(header_bytes(command, name_len, text_len), 1) == name_len % 0x1_0000_0000,
        header_word(header_bytes(command, name_len, text_len), 2) == text_len % 0x1_0000_0000,
{
    let h = header_bytes(command, name_len, text_len);
    law_word_reads_back(command);
    law_word_reads_back(name_len);
    law_word_reads_back(text_len);
    assert(padded_header(h) =~= h);
    assert(h.subrange(0, 4) =~= word_bytes(command));
    assert(h.subrange(4, 8) =~= word_bytes(name_len));
    assert(h.subrange(8, 12) =~= word_bytes(text_len));
}

} // verus!
