//! Byte-level helpers shared by the encoder and decoder: big-endian integer
//! layouts, two's-complement representations for the signed fields, and small
//! verified routines for building and reading byte vectors.

use vstd::prelude::*;

verus! {

// ---------------------------------------------------------------------------
// Big-endian byte layouts of the unsigned integer widths the wire uses.
// ---------------------------------------------------------------------------

/// The 2 bytes of `x`, most significant first.
pub open spec fn be16_of(x: u16) -> Seq<u8> {
    seq![((x >> 8) & 0xff) as u8, (x & 0xff) as u8]
}

/// The 4 bytes of `x`, most significant first.
pub open spec fn be32_of(x: u32) -> Seq<u8> {
    seq![
        ((x >> 24) & 0xff) as u8,
        ((x >> 16) & 0xff) as u8,
        ((x >> 8) & 0xff) as u8,
        (x & 0xff) as u8,
    ]
}

/// The 8 bytes of `x`, most significant first.
pub open spec fn be64_of(x: u64) -> Seq<u8> {
    seq![
        ((x >> 56) & 0xff) as u8,
        ((x >> 48) & 0xff) as u8,
        ((x >> 40) & 0xff) as u8,
        ((x >> 32) & 0xff) as u8,
        ((x >> 24) & 0xff) as u8,
        ((x >> 16) & 0xff) as u8,
        ((x >> 8) & 0xff) as u8,
        (x & 0xff) as u8,
    ]
}

/// The 16 bytes of `x`, most significant first.
pub open spec fn be128_of(x: u128) -> Seq<u8> {
    seq![
        ((x >> 120) & 0xff) as u8,
        ((x >> 112) & 0xff) as u8,
        ((x >> 104) & 0xff) as u8,
        ((x >> 96) & 0xff) as u8,
        ((x >> 88) & 0xff) as u8,
        ((x >> 80) & 0xff) as u8,
        ((x >> 72) & 0xff) as u8,
        ((x >> 64) & 0xff) as u8,
        ((x >> 56) & 0xff) as u8,
        ((x >> 48) & 0xff) as u8,
        ((x >> 40) & 0xff) as u8,
        ((x >> 32) & 0xff) as u8,
        ((x >> 24) & 0xff) as u8,
        ((x >> 16) & 0xff) as u8,
        ((x >> 8) & 0xff) as u8,
        (x & 0xff) as u8,
    ]
}

/// The value of 2 big-endian bytes.
pub open spec fn be16_val(s: Seq<u8>) -> u16
    recommends
        s.len() == 2,
{
    ((s[0] as u16) << 8) | (s[1] as u16)
}

/// The value of 4 big-endian bytes.
pub open spec fn be32_val(s: Seq<u8>) -> u32
    recommends
        s.len() == 4,
{
    ((s[0] as u32) << 24) | ((s[1] as u32) << 16) | ((s[2] as u32) << 8) | (s[3] as u32)
}

/// The value of 8 big-endian bytes.
pub open spec fn be64_val(s: Seq<u8>) -> u64
    recommends
        s.len() == 8,
{
    ((s[0] as u64) << 56) | ((s[1] as u64) << 48) | ((s[2] as u64) << 40) | ((s[3] as u64) << 32)
        | ((s[4] as u64) << 24) | ((s[5] as u64) << 16) | ((s[6] as u64) << 8) | (s[7] as u64)
}

/// The value of 16 big-endian bytes.
pub open spec fn be128_val(s: Seq<u8>) -> u128
    recommends
        s.len() == 16,
{
    ((s[0] as u128) << 120) | ((s[1] as u128) << 112) | ((s[2] as u128) << 104) | ((
    s[3] as u128) << 96) | ((s[4] as u128) << 88) | ((s[5] as u128) << 80) | ((s[6] as u128) << 72)
        | ((s[7] as u128) << 64) | ((s[8] as u128) << 56) | ((s[9] as u128) << 48) | ((
    s[10] as u128) << 40) | ((s[11] as u128) << 32) | ((s[12] as u128) << 24) | ((
    s[13] as u128) << 16) | ((s[14] as u128) << 8) | (s[15] as u128)
}

// ---------------------------------------------------------------------------
// Two's-complement representations of the signed fields.
// ---------------------------------------------------------------------------

/// The unsigned 32-bit two's-complement representation of `x`.
pub open spec fn i32_repr(x: i32) -> u32 {
    (if x >= 0 {
        x as int
    } else {
        x + 0x1_0000_0000
    }) as u32
}

/// The signed value a 32-bit two's-complement representation stands for.
pub open spec fn i32_unrepr(u: u32) -> i32 {
    (if u < 0x8000_0000 {
        u as int
    } else {
        u - 0x1_0000_0000
    }) as i32
}

/// The unsigned 64-bit two's-complement representation of `x`.
pub open spec fn i64_repr(x: i64) -> u64 {
    (if x >= 0 {
        x as int
    } else {
        x + 0x1_0000_0000_0000_0000
    }) as u64
}

/// The signed value a 64-bit two's-complement representation stands for.
pub open spec fn i64_unrepr(u: u64) -> i64 {
    (if u < 0x8000_0000_0000_0000 {
        u as int
    } else {
        u - 0x1_0000_0000_0000_0000
    }) as i64
}

// ---------------------------------------------------------------------------
// Round-trip facts: reading back what was laid out gives the value again.
// ---------------------------------------------------------------------------

pub proof fn lemma_be16_roundtrip(x: u16)
    ensures
        be16_val(be16_of(x)) == x,
{
    assert((((((x >> 8) & 0xff) as u8) as u16) << 8) | (((x & 0xff) as u8) as u16) == x)
        by (bit_vector);
}

pub proof fn lemma_be32_roundtrip(x: u32)
    ensures
        be32_val(be32_of(x)) == x,
{
    assert((((((x >> 24) & 0xff) as u8) as u32) << 24) | (((((x >> 16) & 0xff) as u8) as u32)
        << 16) | (((((x >> 8) & 0xff) as u8) as u32) << 8) | (((x & 0xff) as u8) as u32) == x)
        by (bit_vector);
}

pub proof fn lemma_be64_roundtrip(x: u64)
    ensures
        be64_val(be64_of(x)) == x,
{
    assert((((((x >> 56) & 0xff) as u8) as u64) << 56) | (((((x >> 48) & 0xff) as u8) as u64)
        << 48) | (((((x >> 40) & 0xff) as u8) as u64) << 40) | (((((x >> 32) & 0xff) as u8) as u64)
        << 32) | (((((x >> 24) & 0xff) as u8) as u64) << 24) | (((((x >> 16) & 0xff) as u8) as u64)
        << 16) | (((((x >> 8) & 0xff) as u8) as u64) << 8) | (((x & 0xff) as u8) as u64) == x)
        by (bit_vector);
}

pub proof fn lemma_be128_roundtrip(x: u128)
    ensures
        be128_val(be128_of(x)) == x,
{
    assert((((((x >> 120) & 0xff) as u8) as u128) << 120) | (((((x >> 112) & 0xff) as u8) as u128)
        << 112) | (((((x >> 104) & 0xff) as u8) as u128) << 104) | (((((x >> 96)
        & 0xff) as u8) as u128) << 96) | (((((x >> 88) & 0xff) as u8) as u128) << 88) | (((((x
        >> 80) & 0xff) as u8) as u128) << 80) | (((((x >> 72) & 0xff) as u8) as u128) << 72) | ((
    (((x >> 64) & 0xff) as u8) as u128) << 64) | (((((x >> 56) & 0xff) as u8) as u128) << 56) | ((
    (((x >> 48) & 0xff) as u8) as u128) << 48) | (((((x >> 40) & 0xff) as u8) as u128) << 40) | ((
    (((x >> 32) & 0xff) as u8) as u128) << 32) | (((((x >> 24) & 0xff) as u8) as u128) << 24) | ((
    (((x >> 16) & 0xff) as u8) as u128) << 16) | (((((x >> 8) & 0xff) as u8) as u128) << 8) | (((x
        & 0xff) as u8) as u128) == x) by (bit_vector);
}

pub proof fn lemma_i32_roundtrip(x: i32)
    ensures
        i32_unrepr(i32_repr(x)) == x,
{
}

pub proof fn lemma_i64_roundtrip(x: i64)
    ensures
        i64_unrepr(i64_repr(x)) == x,
{
}

// ---------------------------------------------------------------------------
// Executable helpers for building byte vectors.
// ---------------------------------------------------------------------------

pub fn push_u16_be(v: &mut Vec<u8>, x: u16)
    ensures
        final(v)@ == old(v)@ + be16_of(x),
{
    proof {
        assert((x >> 8) & 0xff < 256 && x & 0xff < 256) by (bit_vector);
    }
    v.push(((x >> 8) & 0xff) as u8);
    v.push((x & 0xff) as u8);
    assert(final(v)@ =~= old(v)@ + be16_of(x));
}

pub fn push_u32_be(v: &mut Vec<u8>, x: u32)
    ensures
        final(v)@ == old(v)@ + be32_of(x),
{
    proof {
        assert((x >> 24) & 0xff < 256 && (x >> 16) & 0xff < 256 && (x >> 8) & 0xff < 256 && x
            & 0xff < 256) by (bit_vector);
    }
    v.push(((x >> 24) & 0xff) as u8);
    v.push(((x >> 16) & 0xff) as u8);
    v.push(((x >> 8) & 0xff) as u8);
    v.push((x & 0xff) as u8);
    assert(final(v)@ =~= old(v)@ + be32_of(x));
}

pub fn push_u64_be(v: &mut Vec<u8>, x: u64)
    ensures
        final(v)@ == old(v)@ + be64_of(x),
{
    proof {
        assert((x >> 56) & 0xff < 256 && (x >> 48) & 0xff < 256 && (x >> 40) & 0xff < 256 && (x
            >> 32) & 0xff < 256 && (x >> 24) & 0xff < 256 && (x >> 16) & 0xff < 256 && (x >> 8)
            & 0xff < 256 && x & 0xff < 256) by (bit_vector);
    }
    v.push(((x >> 56) & 0xff) as u8);
    v.push(((x >> 48) & 0xff) as u8);
    v.push(((x >> 40) & 0xff) as u8);
    v.push(((x >> 32) & 0xff) as u8);
    v.push(((x >> 24) & 0xff) as u8);
    v.push(((x >> 16) & 0xff) as u8);
    v.push(((x >> 8) & 0xff) as u8);
    v.push((x & 0xff) as u8);
    assert(final(v)@ =~= old(v)@ + be64_of(x));
}

pub fn push_u128_be(v: &mut Vec<u8>, x: u128)
    ensures
        final(v)@ == old(v)@ + be128_of(x),
{
    proof {
        assert((x >> 120) & 0xff < 256 && (x >> 112) & 0xff < 256 && (x >> 104) & 0xff < 256 && (x
            >> 96) & 0xff < 256 && (x >> 88) & 0xff < 256 && (x >> 80) & 0xff < 256 && (x >> 72)
            & 0xff < 256 && (x >> 64) & 0xff < 256 && (x >> 56) & 0xff < 256 && (x >> 48) & 0xff
            < 256 && (x >> 40) & 0xff < 256 && (x >> 32) & 0xff < 256 && (x >> 24) & 0xff < 256
            && (x >> 16) & 0xff < 256 && (x >> 8) & 0xff < 256 && x & 0xff < 256) by (bit_vector);
    }
    v.push(((x >> 120) & 0xff) as u8);
    v.push(((x >> 112) & 0xff) as u8);
    v.push(((x >> 104) & 0xff) as u8);
    v.push(((x >> 96) & 0xff) as u8);
    v.push(((x >> 88) & 0xff) as u8);
    v.push(((x >> 80) & 0xff) as u8);
    v.push(((x >> 72) & 0xff) as u8);
    v.push(((x >> 64) & 0xff) as u8);
    v.push(((x >> 56) & 0xff) as u8);
    v.push(((x >> 48) & 0xff) as u8);
    v.push(((x >> 40) & 0xff) as u8);
    v.push(((x >> 32) & 0xff) as u8);
    v.push(((x >> 24) & 0xff) as u8);
    v.push(((x >> 16) & 0xff) as u8);
    v.push(((x >> 8) & 0xff) as u8);
    v.push((x & 0xff) as u8);
    assert(final(v)@ =~= old(v)@ + be128_of(x));
}

/// The unsigned 32-bit two's-complement representation, executably.
pub fn i32_to_repr(x: i32) -> (r: u32)
    ensures
        r == i32_repr(x),
{
    if x >= 0 {
        x as u32
    } else {
        ((x as i64) + 0x1_0000_0000i64) as u32
    }
}

/// The signed value of an unsigned 32-bit two's-complement representation.
pub fn i32_of_repr(u: u32) -> (r: i32)
    ensures
        r == i32_unrepr(u),
{
    if u < 0x8000_0000 {
        u as i32
    } else {
        ((u as i64) - 0x1_0000_0000i64) as i32
    }
}

/// The unsigned 64-bit two's-complement representation, executably.
pub fn i64_to_repr(x: i64) -> (r: u64)
    ensures
        r == i64_repr(x),
{
    if x >= 0 {
        x as u64
    } else {
        ((x as i128) + 0x1_0000_0000_0000_0000i128) as u64
    }
}

/// The signed value of an unsigned 64-bit two's-complement representation.
pub fn i64_of_repr(u: u64) -> (r: i64)
    ensures
        r == i64_unrepr(u),
{
    if u < 0x8000_0000_0000_0000 {
        u as i64
    } else {
        ((u as i128) - 0x1_0000_0000_0000_0000i128) as i64
    }
}

pub fn push_i32_be(v: &mut Vec<u8>, x: i32)
    ensures
        final(v)@ == old(v)@ + be32_of(i32_repr(x)),
{
    let u = i32_to_repr(x);
    push_u32_be(v, u);
}

pub fn push_i64_be(v: &mut Vec<u8>, x: i64)
    ensures
        final(v)@ == old(v)@ + be64_of(i64_repr(x)),
{
    let u = i64_to_repr(x);
    push_u64_be(v, u);
}

/// Appends every byte of the array `a` to `dst`.
pub fn push_array<const N: usize>(dst: &mut Vec<u8>, a: &[u8; N])
    ensures
        final(dst)@ == old(dst)@ + a@,
{
    let mut k: usize = 0;
    while k < N
        invariant
            k <= N,
            a@.len() == N,
            dst@ == old(dst)@ + a@.take(k as int),
        decreases N - k,
    {
        dst.push(a[k]);
        proof {
            assert(old(dst)@ + a@.take(k as int) + seq![a@[k as int]] =~= old(dst)@ + a@.take(
                k as int + 1,
            ));
        }
        k = k + 1;
    }
    assert(a@.take(N as int) =~= a@);
}

/// Appends every byte of `src` to `dst`.
pub fn push_bytes(dst: &mut Vec<u8>, src: &Vec<u8>)
    ensures
        final(dst)@ == old(dst)@ + src@,
{
    let mut k: usize = 0;
    while k < src.len()
        invariant
            k <= src@.len(),
            dst@ == old(dst)@ + src@.take(k as int),
        decreases src@.len() - k,
    {
        dst.push(src[k]);
        proof {
            assert(old(dst)@ + src@.take(k as int) + seq![src@[k as int]] =~= old(dst)@
                + src@.take(k as int + 1));
        }
        k = k + 1;
    }
    assert(src@.take(src@.len() as int) =~= src@);
}

/// A copy of bytes `i..j` of `v`.
pub fn sub_vec(v: &Vec<u8>, i: usize, j: usize) -> (r: Vec<u8>)
    requires
        i <= j <= v@.len(),
    ensures
        r@ == v@.subrange(i as int, j as int),
{
    let mut r: Vec<u8> = Vec::new();
    let mut k: usize = i;
    while k < j
        invariant
            i <= k <= j <= v@.len(),
            r@ == v@.subrange(i as int, k as int),
        decreases j - k,
    {
        r.push(v[k]);
        proof {
            assert(v@.subrange(i as int, k as int) + seq![v@[k as int]] =~= v@.subrange(
                i as int,
                k as int + 1,
            ));
        }
        k = k + 1;
    }
    r
}

// ---------------------------------------------------------------------------
// Executable helpers for reading big-endian fields out of a byte vector.
// ---------------------------------------------------------------------------

pub fn read_u16_be(s: &Vec<u8>, i: usize) -> (r: u16)
    requires
        i + 2 <= s@.len(),
    ensures
        r == be16_val(s@.subrange(i as int, i as int + 2)),
{
    let n = s.len();
    assert(i as int + 2 <= n as int);
    let r = ((s[i] as u16) << 8) | (s[i + 1] as u16);
    proof {
        let t = s@.subrange(i as int, i as int + 2);
        assert(t[0] == s@[i as int] && t[1] == s@[i as int + 1]);
    }
    r
}

pub fn read_u32_be(s: &Vec<u8>, i: usize) -> (r: u32)
    requires
        i + 4 <= s@.len(),
    ensures
        r == be32_val(s@.subrange(i as int, i as int + 4)),
{
    let n = s.len();
    assert(i as int + 4 <= n as int);
    let r = ((s[i] as u32) << 24) | ((s[i + 1] as u32) << 16) | ((s[i + 2] as u32) << 8) | (s[i
        + 3] as u32);
    proof {
        let t = s@.subrange(i as int, i as int + 4);
        assert(t[0] == s@[i as int] && t[1] == s@[i as int + 1] && t[2] == s@[i as int + 2] && t[3]
            == s@[i as int + 3]);
    }
    r
}

pub fn read_u64_be(s: &Vec<u8>, i: usize) -> (r: u64)
    requires
        i + 8 <= s@.len(),
    ensures
        r == be64_val(s@.subrange(i as int, i as int + 8)),
{
    let n = s.len();
    assert(i as int + 8 <= n as int);
    let r = ((s[i] as u64) << 56) | ((s[i + 1] as u64) << 48) | ((s[i + 2] as u64) << 40) | ((s[i
        + 3] as u64) << 32) | ((s[i + 4] as u64) << 24) | ((s[i + 5] as u64) << 16) | ((s[i
        + 6] as u64) << 8) | (s[i + 7] as u64);
    proof {
        let t = s@.subrange(i as int, i as int + 8);
        assert(t[0] == s@[i as int] && t[1] == s@[i as int + 1] && t[2] == s@[i as int + 2] && t[3]
            == s@[i as int + 3] && t[4] == s@[i as int + 4] && t[5] == s@[i as int + 5] && t[6]
            == s@[i as int + 6] && t[7] == s@[i as int + 7]);
    }
    r
}

pub fn read_u128_be(s: &Vec<u8>, i: usize) -> (r: u128)
    requires
        i + 16 <= s@.len(),
    ensures
        r == be128_val(s@.subrange(i as int, i as int + 16)),
{
    let n = s.len();
    assert(i as int + 16 <= n as int);
    let r = ((s[i] as u128) << 120) | ((s[i + 1] as u128) << 112) | ((s[i + 2] as u128) << 104) | (
    (s[i + 3] as u128) << 96) | ((s[i + 4] as u128) << 88) | ((s[i + 5] as u128) << 80) | ((s[i
        + 6] as u128) << 72) | ((s[i + 7] as u128) << 64) | ((s[i + 8] as u128) << 56) | ((s[i
        + 9] as u128) << 48) | ((s[i + 10] as u128) << 40) | ((s[i + 11] as u128) << 32) | ((s[i
        + 12] as u128) << 24) | ((s[i + 13] as u128) << 16) | ((s[i + 14] as u128) << 8) | (s[i
        + 15] as u128);
    proof {
        let t = s@.subrange(i as int, i as int + 16);
        assert(t[0] == s@[i as int] && t[1] == s@[i as int + 1] && t[2] == s@[i as int + 2] && t[3]
            == s@[i as int + 3] && t[4] == s@[i as int + 4] && t[5] == s@[i as int + 5] && t[6]
            == s@[i as int + 6] && t[7] == s@[i as int + 7] && t[8] == s@[i as int + 8] && t[9]
            == s@[i as int + 9] && t[10] == s@[i as int + 10] && t[11] == s@[i as int + 11] && t[12]
            == s@[i as int + 12] && t[13] == s@[i as int + 13] && t[14] == s@[i as int + 14]
            && t[15] == s@[i as int + 15]);
    }
    r
}

pub fn read_i32_be(s: &Vec<u8>, i: usize) -> (r: i32)
    requires
        i + 4 <= s@.len(),
    ensures
        r == i32_unrepr(be32_val(s@.subrange(i as int, i as int + 4))),
{
    let u = read_u32_be(s, i);
    i32_of_repr(u)
}

pub fn read_i64_be(s: &Vec<u8>, i: usize) -> (r: i64)
    requires
        i + 8 <= s@.len(),
    ensures
        r == i64_unrepr(be64_val(s@.subrange(i as int, i as int + 8))),
{
    let u = read_u64_be(s, i);
    i64_of_repr(u)
}

} // verus!
