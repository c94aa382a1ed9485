//! The eight-byte little-endian length field of a frame.

use vstd::prelude::*;

verus! {

/// The little-endian bytes of `x`: byte `i` is digit `i` of `x` in base 256.
pub open spec fn le_bytes(x: u64) -> Seq<u8> {
    seq![
        (x % 0x100) as u8,
        (x / 0x100 % 0x100) as u8,
        (x / 0x1_0000 % 0x100) as u8,
        (x / 0x100_0000 % 0x100) as u8,
        (x / 0x1_0000_0000 % 0x100) as u8,
        (x / 0x100_0000_0000 % 0x100) as u8,
        (x / 0x1_0000_0000_0000 % 0x100) as u8,
        (x / 0x100_0000_0000_0000 % 0x100) as u8,
    ]
}

/// The number whose base-256 digits, least significant first, are the first
/// eight bytes of `s`.
pub open spec fn le_value(s: Seq<u8>) -> nat
    recommends
        s.len() >= 8,
{
    (s[0] as nat) + (s[1] as nat) * 0x100 + (s[2] as nat) * 0x1_0000 + (s[3] as nat) * 0x100_0000
        + (s[4] as nat) * 0x1_0000_0000 + (s[5] as nat) * 0x100_0000_0000 + (s[6] as nat)
        * 0x1_0000_0000_0000 + (s[7] as nat) * 0x100_0000_0000_0000
}

/// Dividing by `m` and then by 256 divides by `256 * m`.
proof fn lemma_div_step(x: nat, m: nat)
    requires
        m > 0,
    ensures
        x / (0x100 * m) == x / m / 0x100,
{
    vstd::arithmetic::div_mod::lemma_div_denominator(x as int, m as int, 0x100);
    vstd::arithmetic::mul::lemma_mul_is_commutative(m as int, 0x100);
}

/// Reading what was written gives the number back.
pub proof fn lemma_le_value_of_le_bytes(x: u64)
    ensures
        le_bytes(x).len() == 8,
        le_value(le_bytes(x)) == x,
{
    let n = x as nat;
    let q1 = n / 0x100;
    let q2 = q1 / 0x100;
    let q3 = q2 / 0x100;
    let q4 = q3 / 0x100;
    let q5 = q4 / 0x100;
    let q6 = q5 / 0x100;
    let q7 = q6 / 0x100;
    lemma_div_step(n, 0x100);
    lemma_div_step(n, 0x1_0000);
    lemma_div_step(n, 0x100_0000);
    lemma_div_step(n, 0x1_0000_0000);
    lemma_div_step(n, 0x100_0000_0000);
    lemma_div_step(n, 0x1_0000_0000_0000);
    assert(n == n % 0x100 + q1 * 0x100);
    assert(q1 == q1 % 0x100 + q2 * 0x100);
    assert(q2 == q2 % 0x100 + q3 * 0x100);
    assert(q3 == q3 % 0x100 + q4 * 0x100);
    assert(q4 == q4 % 0x100 + q5 * 0x100);
    assert(q5 == q5 % 0x100 + q6 * 0x100);
    assert(q6 == q6 % 0x100 + q7 * 0x100);
    assert(q7 < 0x100);
}

/// Appends the little-endian bytes of `x` to `out`.
pub fn push_le_u64(out: &mut Vec<u8>, x: u64)
    ensures
        final(out)@ == old(out)@ + le_bytes(x),
{
    out.push((x % 0x100) as u8);
    out.push((x / 0x100 % 0x100) as u8);
    out.push((x / 0x1_0000 % 0x100) as u8);
    out.push((x / 0x100_0000 % 0x100) as u8);
    out.push((x / 0x1_0000_0000 % 0x100) as u8);
    out.push((x / 0x100_0000_0000 % 0x100) as u8);
    out.push((x / 0x1_0000_0000_0000 % 0x100) as u8);
    out.push((x / 0x100_0000_0000_0000 % 0x100) as u8);
    assert(out@ =~= old(out)@ + le_bytes(x));
}

/// Reads the little-endian number held in the eight bytes from `at` on.
pub fn read_le_u64(bytes: &[u8], at: usize) -> (x: u64)
    requires
        at + 8 <= bytes@.len(),
    ensures
        x == le_value(bytes@.subrange(at as int, at + 8)),
{
    let b0: u64 = bytes[at] as u64;
    let b1: u64 = bytes[at + 1] as u64;
    let b2: u64 = bytes[at + 2] as u64;
    let b3: u64 = bytes[at + 3] as u64;
    let b4: u64 = bytes[at + 4] as u64;
    let b5: u64 = bytes[at + 5] as u64;
    let b6: u64 = bytes[at + 6] as u64;
    let b7: u64 = bytes[at + 7] as u64;
    b0 + b1 * 0x100 + b2 * 0x1_0000 + b3 * 0x100_0000 + b4 * 0x1_0000_0000 + b5
        * 0x100_0000_0000 + b6 * 0x1_0000_0000_0000 + b7 * 0x100_0000_0000_0000
}

} // verus!
