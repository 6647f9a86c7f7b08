//! Fixed-width integers as byte sequences, least significant byte first.
//!
//! Every record of the protocol is a run of such integers, so these few
//! functions are all the arithmetic the layouts rest on.

use vstd::prelude::*;

verus! {

/// The four bytes of `x`, least significant first.
#[verifier::opaque]
pub open spec fn u32_bytes(x: u32) -> Seq<u8> {
    seq![
        (x % 256) as u8,
        (x / 256 % 256) as u8,
        (x / 65536 % 256) as u8,
        (x / 16777216 % 256) as u8,
    ]
}

/// The number held by the four bytes of `s` from index `at` on.
#[verifier::opaque]
pub open spec fn u32_at(s: Seq<u8>, at: int) -> u32
    recommends
        0 <= at,
        at + 4 <= s.len(),
{
    (s[at] + s[at + 1] * 256 + s[at + 2] * 65536 + s[at + 3] * 16777216) as u32
}

/// The eight bytes of `x`, least significant first.
#[verifier::opaque]
pub open spec fn u64_bytes(x: u64) -> Seq<u8> {
    u32_bytes((x % 0x1_0000_0000) as u32) + u32_bytes((x / 0x1_0000_0000) as u32)
}

/// The number held by the eight bytes of `s` from index `at` on.
#[verifier::opaque]
pub open spec fn u64_at(s: Seq<u8>, at: int) -> u64
    recommends
        0 <= at,
        at + 8 <= s.len(),
{
    (u32_at(s, at) + u32_at(s, at + 4) * 0x1_0000_0000) as u64
}

/// The two's complement pattern of `x`.
pub open spec fn i32_bits(x: i32) -> u32 {
    if x >= 0 {
        x as u32
    } else {
        (x + 0x1_0000_0000) as u32
    }
}

/// The signed number whose two's complement pattern is `bits`.
pub open spec fn i32_of_bits(bits: u32) -> i32 {
    if bits < 0x8000_0000 {
        bits as i32
    } else {
        (bits - 0x1_0000_0000) as i32
    }
}

/// The two's complement pattern of `x`.
pub open spec fn i64_bits(x: i64) -> u64 {
    if x >= 0 {
        x as u64
    } else {
        (x + 0x1_0000_0000_0000_0000) as u64
    }
}

/// The signed number whose two's complement pattern is `bits`.
pub open spec fn i64_of_bits(bits: u64) -> i64 {
    if bits < 0x8000_0000_0000_0000 {
        bits as i64
    } else {
        (bits - 0x1_0000_0000_0000_0000) as i64
    }
}

/// `n` bytes, all zero.
pub open spec fn zeros(n: nat) -> Seq<u8> {
    Seq::new(n, |i: int| 0u8)
}

/// Appends the four bytes of `x` to `out`.
pub fn put_u32(out: &mut Vec<u8>, x: u32)
    ensures
        final(out)@ == old(out)@ + u32_bytes(x),
{
    reveal(u32_bytes);
    out.push((x % 256) as u8);
    out.push((x / 256 % 256) as u8);
    out.push((x / 65536 % 256) as u8);
    out.push((x / 16777216 % 256) as u8);
    assert(out@ =~= old(out)@ + u32_bytes(x));
}

/// Appends the eight bytes of `x` to `out`.
pub fn put_u64(out: &mut Vec<u8>, x: u64)
    ensures
        final(out)@ == old(out)@ + u64_bytes(x),
{
    reveal(u64_bytes);
    put_u32(out, (x % 0x1_0000_0000) as u32);
    put_u32(out, (x / 0x1_0000_0000) as u32);
    assert(out@ =~= old(out)@ + u64_bytes(x));
}

/// Appends the four bytes of the two's complement pattern of `x` to `out`.
pub fn put_i32(out: &mut Vec<u8>, x: i32)
    ensures
        final(out)@ == old(out)@ + u32_bytes(i32_bits(x)),
{
    let bits: u32 = if x >= 0 {
        x as u32
    } else {
        (x as i64 + 0x1_0000_0000) as u32
    };
    put_u32(out, bits);
}

/// Appends the eight bytes of the two's complement pattern of `x` to `out`.
pub fn put_i64(out: &mut Vec<u8>, x: i64)
    ensures
        final(out)@ == old(out)@ + u64_bytes(i64_bits(x)),
{
    let bits: u64 = if x >= 0 {
        x as u64
    } else {
        (x as i128 + 0x1_0000_0000_0000_0000) as u64
    };
    put_u64(out, bits);
}

/// Appends `n` zero bytes to `out`.
pub fn put_zeros(out: &mut Vec<u8>, n: usize)
    ensures
        final(out)@ == old(out)@ + zeros(n as nat),
{
    let mut i: usize = 0;
    while i < n
        invariant
            i <= n,
            out@ == old(out)@ + zeros(i as nat),
        decreases n - i,
    {
        out.push(0u8);
        i = i + 1;
        assert(out@ =~= old(out)@ + zeros(i as nat));
    }
}

/// Reads the number held by the four bytes of `bytes` from index `at` on.
pub fn get_u32(bytes: &[u8], at: usize) -> (x: u32)
    requires
        at + 4 <= bytes.len(),
    ensures
        x == u32_at(bytes@, at as int),
{
    reveal(u32_at);
    let b0: u32 = bytes[at] as u32;
    let b1: u32 = bytes[at + 1] as u32;
    let b2: u32 = bytes[at + 2] as u32;
    let b3: u32 = bytes[at + 3] as u32;
    b0 + b1 * 256 + b2 * 65536 + b3 * 16777216
}

/// Reads the number held by the eight bytes of `bytes` from index `at` on.
pub fn get_u64(bytes: &[u8], at: usize) -> (x: u64)
    requires
        at + 8 <= bytes.len(),
    ensures
        x == u64_at(bytes@, at as int),
{
    reveal(u64_at);
    let low: u64 = get_u32(bytes, at) as u64;
    let high: u64 = get_u32(bytes, at + 4) as u64;
    low + high * 0x1_0000_0000
}

/// Reads the signed number held by the four bytes of `bytes` from index `at` on.
pub fn get_i32(bytes: &[u8], at: usize) -> (x: i32)
    requires
        at + 4 <= bytes.len(),
    ensures
        x == i32_of_bits(u32_at(bytes@, at as int)),
{
    let bits: u32 = get_u32(bytes, at);
    if bits < 0x8000_0000 {
        bits as i32
    } else {
        (bits as i64 - 0x1_0000_0000) as i32
    }
}

/// Reads the signed number held by the eight bytes of `bytes` from index `at` on.
pub fn get_i64(bytes: &[u8], at: usize) -> (x: i64)
    requires
        at + 8 <= bytes.len(),
    ensures
        x == i64_of_bits(u64_at(bytes@, at as int)),
{
    let bits: u64 = get_u64(bytes, at);
    if bits < 0x8000_0000_0000_0000 {
        bits as i64
    } else {
        (bits as i128 - 0x1_0000_0000_0000_0000) as i64
    }
}

/// A 32-bit field takes four bytes.
pub broadcast proof fn lemma_u32_bytes_len(x: u32)
    ensures
        #[trigger] u32_bytes(x).len() == 4,
{
    reveal(u32_bytes);
}

/// A 64-bit field takes eight bytes.
pub broadcast proof fn lemma_u64_bytes_len(x: u64)
    ensures
        #[trigger] u64_bytes(x).len() == 8,
{
    reveal(u32_bytes);
    reveal(u64_bytes);
}

/// What is appended after a field does not change what the field reads.
pub broadcast proof fn lemma_u32_at_prefix(s: Seq<u8>, t: Seq<u8>, at: int)
    requires
        0 <= at,
        at + 4 <= s.len(),
    ensures
        #[trigger] u32_at(s + t, at) == u32_at(s, at),
{
    reveal(u32_at);
}

/// What is appended after a field does not change what the field reads.
pub broadcast proof fn lemma_u64_at_prefix(s: Seq<u8>, t: Seq<u8>, at: int)
    requires
        0 <= at,
        at + 8 <= s.len(),
    ensures
        #[trigger] u64_at(s + t, at) == u64_at(s, at),
{
    reveal(u64_at);
    lemma_u32_at_prefix(s, t, at);
    lemma_u32_at_prefix(s, t, at + 4);
}

/// Four bytes written at the end of a sequence read back as the number written.
pub broadcast proof fn lemma_u32_at_end(s: Seq<u8>, x: u32, at: int)
    requires
        at == s.len(),
    ensures
        #[trigger] u32_at(s + u32_bytes(x), at) == x,
{
    reveal(u32_at);
    reveal(u32_bytes);
}

/// Eight bytes written at the end of a sequence read back as the number written.
pub broadcast proof fn lemma_u64_at_end(s: Seq<u8>, x: u64, at: int)
    requires
        at == s.len(),
    ensures
        #[trigger] u64_at(s + u64_bytes(x), at) == x,
{
    reveal(u64_at);
    reveal(u64_bytes);
    let low = (x % 0x1_0000_0000) as u32;
    let high = (x / 0x1_0000_0000) as u32;
    lemma_u32_bytes_len(low);
    lemma_u32_bytes_len(high);
    assert(s + u64_bytes(x) =~= (s + u32_bytes(low)) + u32_bytes(high));
    lemma_u32_at_end(s, low, at);
    lemma_u32_at_prefix(s + u32_bytes(low), u32_bytes(high), at);
    lemma_u32_at_end(s + u32_bytes(low), high, at + 4);
}

/// Four bytes on their own read back as the number written.
pub broadcast proof fn lemma_u32_at_start(x: u32, at: int)
    requires
        at == 0,
    ensures
        #[trigger] u32_at(u32_bytes(x), at) == x,
{
    reveal(u32_at);
    reveal(u32_bytes);
}

/// Eight bytes on their own read back as the number written.
pub broadcast proof fn lemma_u64_at_start(x: u64, at: int)
    requires
        at == 0,
    ensures
        #[trigger] u64_at(u64_bytes(x), at) == x,
{
    assert(u64_bytes(x) =~= Seq::<u8>::empty() + u64_bytes(x));
    lemma_u64_at_end(Seq::<u8>::empty(), x, at);
}

/// A field of what is left after skipping `n` bytes is the field `n` bytes on.
pub broadcast proof fn lemma_u32_at_skip(s: Seq<u8>, n: int, at: int)
    requires
        0 <= n,
        0 <= at,
        n + at + 4 <= s.len(),
    ensures
        #[trigger] u32_at(s.skip(n), at) == u32_at(s, n + at),
{
    reveal(u32_at);
}

/// A field of what is left after skipping `n` bytes is the field `n` bytes on.
pub broadcast proof fn lemma_u64_at_skip(s: Seq<u8>, n: int, at: int)
    requires
        0 <= n,
        0 <= at,
        n + at + 8 <= s.len(),
    ensures
        #[trigger] u64_at(s.skip(n), at) == u64_at(s, n + at),
{
    reveal(u64_at);
    lemma_u32_at_skip(s, n, at);
    lemma_u32_at_skip(s, n, at + 4);
}

/// Appending in two steps or in one gives the same bytes.
pub broadcast proof fn lemma_append_twice(a: Seq<u8>, b: Seq<u8>, c: Seq<u8>)
    ensures
        #[trigger] ((a + b) + c) == a + (b + c),
{
    assert((a + b) + c =~= a + (b + c));
}

/// The facts by which a record's layout is read off its fields.
pub broadcast group group_fields {
    lemma_u32_at_prefix,
    lemma_u64_at_prefix,
    lemma_u32_at_end,
    lemma_u64_at_end,
    lemma_u32_at_start,
    lemma_u64_at_start,
    lemma_u32_bytes_len,
    lemma_u64_bytes_len,
    lemma_u32_at_skip,
    lemma_u64_at_skip,
}

} // verus!
