//! A mathematical model of bit streams.
//!
//! Register transactions are framed by packing bit fields most-significant
//! bit first into a byte-aligned stream. This module gives that stream a
//! `Seq<bool>` model: `low_bits(v, n)` is the field of the low `n` bits of
//! `v`, most significant first, and `bits_to_bytes` reassembles a
//! byte-aligned stream into the bytes that go on the wire. The lemmas here
//! let a concatenation of fields be rewritten as the big-endian bytes of the
//! 32-bit register word it forms.

use vstd::prelude::*;

verus! {

/// True when bit `i` (counting from the least significant end) of `v` is set.
pub open spec fn bit_at(v: u64, i: u64) -> bool {
    (v >> i) & 1 == 1
}

/// The low `n` bits of `v`, most significant bit first.
pub open spec fn low_bits(v: u64, n: nat) -> Seq<bool> {
    Seq::new(n, |i: int| bit_at(v, (n - 1 - i) as u64))
}

pub open spec fn u8_bits(v: u8) -> Seq<bool> {
    low_bits(v as u64, 8)
}

pub open spec fn u16_bits(v: u16) -> Seq<bool> {
    low_bits(v as u64, 16)
}

pub open spec fn u32_bits(v: u32) -> Seq<bool> {
    low_bits(v as u64, 32)
}

pub open spec fn bit_weight(b: bool) -> u8 {
    if b {
        1
    } else {
        0
    }
}

/// The byte assembled from eight bits, most significant first.
pub open spec fn byte_val(s: Seq<bool>) -> u8
    recommends
        s.len() == 8,
{
    (128 * bit_weight(s[0]) + 64 * bit_weight(s[1]) + 32 * bit_weight(s[2]) + 16 * bit_weight(
        s[3],
    ) + 8 * bit_weight(s[4]) + 4 * bit_weight(s[5]) + 2 * bit_weight(s[6]) + bit_weight(
        s[7],
    )) as u8
}

/// The bytes of a byte-aligned bit stream, in order. Trailing bits that do
/// not fill a byte are dropped; all streams built here are byte-aligned.
pub open spec fn bits_to_bytes(s: Seq<bool>) -> Seq<u8>
    decreases s.len(),
{
    if s.len() < 8 {
        Seq::empty()
    } else {
        seq![byte_val(s.take(8))] + bits_to_bytes(s.skip(8))
    }
}

/// The big-endian bytes of a 16-bit register address.
pub open spec fn be16_bytes(v: u16) -> Seq<u8> {
    seq![((v >> 8) & 0xff) as u8, (v & 0xff) as u8]
}

/// The big-endian bytes of a 32-bit register word.
pub open spec fn be32_bytes(v: u32) -> Seq<u8> {
    seq![
        ((v >> 24) & 0xff) as u8,
        ((v >> 16) & 0xff) as u8,
        ((v >> 8) & 0xff) as u8,
        (v & 0xff) as u8,
    ]
}

/// Bit `j` of `v >> k` is bit `j + k` of `v`.
pub proof fn lemma_shift_bit(v: u64, j: u64, k: u64)
    requires
        j + k < 64,
    ensures
        bit_at(v >> k, j) == bit_at(v, (j + k) as u64),
{
    assert((((v >> k) >> j) & 1 == 1) == ((v >> vstd::prelude::add(j, k)) & 1 == 1)) by (bit_vector)
        requires
            j + k < 64,
    ;
}

/// A bit field splits at any interior position: the high part is a field of
/// the shifted value, the low part a field of the value itself.
pub proof fn lemma_low_bits_split(v: u64, n: nat, k: nat)
    requires
        k <= n <= 64,
    ensures
        low_bits(v, n) == low_bits(v >> (k as u64), (n - k) as nat) + low_bits(v, k),
{
    let lhs = low_bits(v, n);
    let rhs = low_bits(v >> (k as u64), (n - k) as nat) + low_bits(v, k);
    assert forall|i: int| 0 <= i < n implies lhs[i] == rhs[i] by {
        if i < n - k {
            lemma_shift_bit(v, (n - k - 1 - i) as u64, k as u64);
        }
    }
    assert(lhs =~= rhs);
}

/// Two values with the same low `n` bits have the same bit field.
pub proof fn lemma_low_bits_agree(x: u64, y: u64, n: nat)
    requires
        n < 64,
        x & vstd::prelude::sub(1u64 << (n as u64), 1) == y & vstd::prelude::sub(1u64 << (n as u64), 1),
    ensures
        low_bits(x, n) == low_bits(y, n),
{
    let nn = n as u64;
    assert forall|i: int| 0 <= i < n implies low_bits(x, n)[i] == low_bits(y, n)[i] by {
        let j = (n - 1 - i) as u64;
        assert((x & vstd::prelude::sub(1u64 << nn, 1) == y & vstd::prelude::sub(1u64 << nn, 1) && j < nn && nn < 64) ==> (((x
            >> j) & 1 == 1) == ((y >> j) & 1 == 1))) by (bit_vector);
    }
    assert(low_bits(x, n) =~= low_bits(y, n));
}

/// Reassembling the eight bits of a byte gives the byte back.
pub proof fn lemma_byte_val_u8_bits(x: u8)
    ensures
        byte_val(u8_bits(x)) == x,
{
    let v = x as u64;
    assert((v >> 7) & 1 <= 1 && (v >> 6) & 1 <= 1 && (v >> 5) & 1 <= 1 && (v >> 4) & 1 <= 1 && (v
        >> 3) & 1 <= 1 && (v >> 2) & 1 <= 1 && (v >> 1) & 1 <= 1 && (v >> 0) & 1 <= 1 && 128 * ((v
        >> 7) & 1) + 64 * ((v >> 6) & 1) + 32 * ((v >> 5) & 1) + 16 * ((v >> 4) & 1) + 8 * ((v
        >> 3) & 1) + 4 * ((v >> 2) & 1) + 2 * ((v >> 1) & 1) + ((v >> 0) & 1) == v) by (bit_vector)
        requires
            v < 256,
    ;
    let s = u8_bits(x);
    assert(bit_weight(s[0]) == (v >> 7) & 1);
    assert(bit_weight(s[1]) == (v >> 6) & 1);
    assert(bit_weight(s[2]) == (v >> 5) & 1);
    assert(bit_weight(s[3]) == (v >> 4) & 1);
    assert(bit_weight(s[4]) == (v >> 3) & 1);
    assert(bit_weight(s[5]) == (v >> 2) & 1);
    assert(bit_weight(s[6]) == (v >> 1) & 1);
    assert(bit_weight(s[7]) == (v >> 0) & 1);
}

/// `bits_to_bytes` distributes over concatenation at a byte boundary.
pub proof fn lemma_bits_to_bytes_concat(s: Seq<bool>, t: Seq<bool>)
    requires
        s.len() % 8 == 0,
    ensures
        bits_to_bytes(s + t) == bits_to_bytes(s) + bits_to_bytes(t),
    decreases s.len(),
{
    if s.len() == 0 {
        assert(s + t =~= t);
        assert(bits_to_bytes(s) + bits_to_bytes(t) =~= bits_to_bytes(t));
    } else {
        assert((s + t).take(8) =~= s.take(8));
        assert((s + t).skip(8) =~= s.skip(8) + t);
        lemma_bits_to_bytes_concat(s.skip(8), t);
        assert(bits_to_bytes(s) + bits_to_bytes(t) =~= seq![byte_val(s.take(8))] + (bits_to_bytes(
            s.skip(8),
        ) + bits_to_bytes(t)));
    }
}

/// The bytes of a single 8-bit field are that byte alone.
pub proof fn lemma_bits_to_bytes_u8(x: u8)
    ensures
        bits_to_bytes(u8_bits(x)) == seq![x],
{
    let s = u8_bits(x);
    assert(s.take(8) =~= s);
    assert(s.skip(8) =~= Seq::<bool>::empty());
    lemma_byte_val_u8_bits(x);
    assert(byte_val(s.take(8)) == x);
    assert(bits_to_bytes(s.skip(8)) =~= Seq::<u8>::empty());
    assert(bits_to_bytes(s) =~= seq![x]);
}

/// The low eight bits of any value are the bit field of its low byte.
pub proof fn lemma_low_bits_as_byte(w: u64)
    ensures
        low_bits(w, 8) == u8_bits(((w & 0xff) as u8)),
{
    let y = (w & 0xff) as u8;
    assert(w & 0xff < 256 && w & vstd::prelude::sub(1u64 << 8, 1) == (w & 0xff) & vstd::prelude::sub(1u64 << 8, 1))
        by (bit_vector);
    lemma_low_bits_agree(w, y as u64, 8);
}

/// A 16-bit field reassembles into its two big-endian bytes.
pub proof fn lemma_u16_bits_bytes(v: u16)
    ensures
        bits_to_bytes(u16_bits(v)) == be16_bytes(v),
{
    let w = v as u64;
    lemma_low_bits_split(w, 16, 8);
    lemma_low_bits_as_byte(w >> 8);
    lemma_low_bits_as_byte(w);
    assert((w >> 8) & 0xff == ((v >> 8) & 0xff) as u64 && w & 0xff == (v & 0xff) as u64)
        by (bit_vector)
        requires
            w == v as u64,
    ;
    lemma_bits_to_bytes_concat(low_bits(w >> 8, 8), low_bits(w, 8));
    lemma_bits_to_bytes_u8(((v >> 8) & 0xff) as u8);
    lemma_bits_to_bytes_u8((v & 0xff) as u8);
    assert(bits_to_bytes(u16_bits(v)) =~= be16_bytes(v));
}

/// A 32-bit field reassembles into its four big-endian bytes.
pub proof fn lemma_u32_bits_bytes(v: u32)
    ensures
        bits_to_bytes(u32_bits(v)) == be32_bytes(v),
{
    let w = v as u64;
    lemma_low_bits_split(w, 32, 8);
    lemma_low_bits_split(w >> 8, 24, 8);
    lemma_low_bits_split(w >> 16, 16, 8);
    assert((w >> 8) >> 8 == w >> 16 && (w >> 16) >> 8 == w >> 24) by (bit_vector);
    lemma_low_bits_as_byte(w >> 24);
    lemma_low_bits_as_byte(w >> 16);
    lemma_low_bits_as_byte(w >> 8);
    lemma_low_bits_as_byte(w);
    assert((w >> 24) & 0xff == ((v >> 24) & 0xff) as u64 && (w >> 16) & 0xff == ((v >> 16)
        & 0xff) as u64 && (w >> 8) & 0xff == ((v >> 8) & 0xff) as u64 && w & 0xff == (v
        & 0xff) as u64) by (bit_vector)
        requires
            w == v as u64,
    ;
    lemma_bits_to_bytes_concat(low_bits(w >> 8, 8), low_bits(w, 8));
    lemma_bits_to_bytes_concat(low_bits(w >> 16, 8), low_bits(w >> 8, 8) + low_bits(w, 8));
    lemma_bits_to_bytes_concat(
        low_bits(w >> 24, 8),
        low_bits(w >> 16, 8) + (low_bits(w >> 8, 8) + low_bits(w, 8)),
    );
    assert(low_bits(w, 32) =~= low_bits(w >> 24, 8) + (low_bits(w >> 16, 8) + (low_bits(w >> 8, 8)
        + low_bits(w, 8))));
    lemma_bits_to_bytes_u8(((v >> 24) & 0xff) as u8);
    lemma_bits_to_bytes_u8(((v >> 16) & 0xff) as u8);
    lemma_bits_to_bytes_u8(((v >> 8) & 0xff) as u8);
    lemma_bits_to_bytes_u8((v & 0xff) as u8);
    assert(bits_to_bytes(u32_bits(v)) =~= be32_bytes(v));
}

} // verus!
