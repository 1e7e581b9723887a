//! Little-endian integers in byte sequences.
use vstd::prelude::*;

verus! {

/// The 16-bit little-endian number at `i`.
pub open spec fn le16(s: Seq<u8>, i: int) -> int {
    s[i] + 0x100 * s[i + 1]
}

/// The 32-bit little-endian number at `i`.
pub open spec fn le32(s: Seq<u8>, i: int) -> int {
    s[i] + 0x100 * s[i + 1] + 0x1_0000 * s[i + 2] + 0x100_0000 * s[i + 3]
}

/// The 64-bit little-endian number at `i`.
pub open spec fn le64(s: Seq<u8>, i: int) -> int {
    le32(s, i) + 0x1_0000_0000 * le32(s, i + 4)
}

/// The two bytes of `v`, lowest first.
pub open spec fn u16_bytes(v: u16) -> Seq<u8> {
    seq![(v % 0x100) as u8, (v / 0x100) as u8]
}

/// The four bytes of `v`, lowest first.
pub open spec fn u32_bytes(v: u32) -> Seq<u8> {
    seq![
        (v % 0x100) as u8,
        (v / 0x100 % 0x100) as u8,
        (v / 0x1_0000 % 0x100) as u8,
        (v / 0x100_0000) as u8,
    ]
}

/// The bytes of each word of `words`, in order.
pub open spec fn words_bytes(words: Seq<u32>) -> Seq<u8>
    decreases words.len(),
{
    if words.len() == 0 {
        Seq::empty()
    } else {
        words_bytes(words.drop_last()) + u32_bytes(words.last())
    }
}

/// Reads the 16-bit number at `offset`.
pub fn le16_at(bytes: &[u8], offset: usize) -> (value: u16)
    requires
        offset + 2 <= bytes@.len(),
    ensures
        value == le16(bytes@, offset as int),
{
    bytes[offset] as u16 + 0x100 * bytes[offset + 1] as u16
}

/// Reads the 32-bit number at `offset`.
pub fn le32_at(bytes: &[u8], offset: usize) -> (value: u32)
    requires
        offset + 4 <= bytes@.len(),
    ensures
        value == le32(bytes@, offset as int),
{
    bytes[offset] as u32 + 0x100 * bytes[offset + 1] as u32 + 0x1_0000 * bytes[offset + 2] as u32
        + 0x100_0000 * bytes[offset + 3] as u32
}

/// Reads the 64-bit number at `offset`.
pub fn le64_at(bytes: &[u8], offset: usize) -> (value: u64)
    requires
        offset + 8 <= bytes@.len(),
    ensures
        value == le64(bytes@, offset as int),
{
    assert(offset + 8 <= bytes.len());
    le32_at(bytes, offset) as u64 + 0x1_0000_0000 * le32_at(bytes, offset + 4) as u64
}

/// Appends the two bytes of `value`.
pub fn push_u16(out: &mut Vec<u8>, value: u16)
    ensures
        final(out)@ == old(out)@ + u16_bytes(value),
{
    out.push((value % 0x100) as u8);
    out.push((value / 0x100) as u8);
    assert(out@ =~= old(out)@ + u16_bytes(value));
}

/// Appends the four bytes of `value`.
pub fn push_u32(out: &mut Vec<u8>, value: u32)
    ensures
        final(out)@ == old(out)@ + u32_bytes(value),
{
    out.push((value % 0x100) as u8);
    out.push((value / 0x100 % 0x100) as u8);
    out.push((value / 0x1_0000 % 0x100) as u8);
    out.push((value / 0x100_0000) as u8);
    assert(out@ =~= old(out)@ + u32_bytes(value));
}

/// Appends a copy of `bytes`.
pub fn push_all(out: &mut Vec<u8>, bytes: &[u8])
    ensures
        final(out)@ == old(out)@ + bytes@,
{
    let mut i: usize = 0;
    while i < bytes.len()
        invariant
            i <= bytes@.len(),
            out@ == old(out)@ + bytes@.take(i as int),
        decreases bytes@.len() - i,
    {
        out.push(bytes[i]);
        i += 1;
        assert(bytes@.take(i as int) =~= bytes@.take(i - 1).push(bytes@[i - 1]));
    }
    assert(bytes@.take(i as int) =~= bytes@);
}

/// Reading back what was written gives the number that was written.
pub proof fn law_u16_round_trip(v: u16)
    ensures
        u16_bytes(v).len() == 2,
        le16(u16_bytes(v), 0) == v,
{
}

/// Reading back what was written gives the number that was written.
pub proof fn law_u32_round_trip(v: u32)
    ensures
        u32_bytes(v).len() == 4,
        le32(u32_bytes(v), 0) == v,
{
    assert(v == v % 0x100 + 0x100 * (v / 0x100 % 0x100) + 0x1_0000 * (v / 0x1_0000 % 0x100)
        + 0x100_0000 * (v / 0x100_0000)) by (nonlinear_arith)
        requires
            0 <= v,
    ;
}

/// The lowest byte stands first: a number is its first byte and then, times 256, the next; a longer
/// number is its first half and then, times as much, its second.
pub proof fn law_the_lowest_byte_stands_first(s: Seq<u8>, i: int)
    ensures
        le16(s, i) % 256 == s[i] && le16(s, i) / 256 == s[i + 1],
        le32(s, i) % 0x1_0000 == le16(s, i) && le32(s, i) / 0x1_0000 == le16(s, i + 2),
        le64(s, i) % 0x1_0000_0000 == le32(s, i) && le64(s, i) / 0x1_0000_0000 == le32(s, i + 4),
{
}

/// A number in the middle of other bytes.
pub proof fn lemma_u32_at(before: Seq<u8>, v: u32, rest: Seq<u8>)
    ensures
        le32(before + u32_bytes(v) + rest, before.len() as int) == v,
{
    law_u32_round_trip(v);
    let s = before + u32_bytes(v) + rest;
    assert(le32(s, before.len() as int) == le32(u32_bytes(v), 0));
}

/// The word at `k` stands in the four bytes at `4 * k`.
pub proof fn lemma_words_at(words: Seq<u32>, k: int)
    requires
        0 <= k < words.len(),
    ensures
        words_bytes(words).len() == 4 * words.len(),
        le32(words_bytes(words), 4 * k) == words[k],
    decreases words.len(),
{
    let init = words.drop_last();
    lemma_words_len(words);
    lemma_words_len(init);
    if k < init.len() {
        lemma_words_at(init, k);
        assert(le32(words_bytes(words), 4 * k) == le32(words_bytes(init), 4 * k));
    } else {
        lemma_u32_at(words_bytes(init), words.last(), Seq::empty());
        assert(words_bytes(init) + u32_bytes(words.last()) + Seq::<u8>::empty() =~= words_bytes(
            words,
        ));
    }
}

proof fn lemma_words_len(words: Seq<u32>)
    ensures
        words_bytes(words).len() == 4 * words.len(),
    decreases words.len(),
{
    if words.len() > 0 {
        lemma_words_len(words.drop_last());
    }
}

} // verus!
