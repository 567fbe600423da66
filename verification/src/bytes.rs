//! Little-endian field reads from byte buffers with checked bounds.

use vstd::prelude::*;

verus! {

/// Little-endian value of `n` bytes of `b` starting at `off`.
pub open spec fn le_value(b: Seq<u8>, off: int, n: nat) -> nat
    decreases n,
{
    if n == 0 {
        0
    } else {
        b[off + n - 1] as nat * pow256((n - 1) as nat) + le_value(b, off, (n - 1) as nat)
    }
}

/// 256 to the power `n`.
pub open spec fn pow256(n: nat) -> nat
    decreases n,
{
    if n == 0 {
        1
    } else {
        256 * pow256((n - 1) as nat)
    }
}

proof fn lemma_le_bound(b: Seq<u8>, off: int, n: nat)
    ensures
        le_value(b, off, n) < pow256(n),
    decreases n,
{
    if n > 0 {
        lemma_le_bound(b, off, (n - 1) as nat);
        let p = pow256((n - 1) as nat);
        assert(b[off + n - 1] as nat * p + le_value(b, off, (n - 1) as nat) < 256 * p) by (nonlinear_arith)
            requires b[off + n - 1] < 256, le_value(b, off, (n - 1) as nat) < p;
    }
}

/// Accumulates `n` little-endian bytes of `buf` at `off` (bounds already checked).
fn read_le(buf: &[u8], off: usize, n: usize) -> (v: u128)
    requires
        off + n <= buf@.len(),
        n <= 16,
    ensures
        v as nat == le_value(buf@, off as int, n as nat),
{
    let blen = buf.len();
    let mut v: u128 = 0;
    let mut k: usize = n;
    proof {
        assert(pow256(0) == 1);
    }
    // Horner evaluation from the most significant byte down.
    while k > 0
        invariant
            k <= n <= 16,
            off + n <= buf@.len(),
            blen == buf@.len(),
            v as nat * pow256(k as nat) + le_value(buf@, off as int, k as nat) == le_value(buf@, off as int, n as nat),
            (v as nat) < pow256((n - k) as nat),
        decreases k,
    {
        let b = buf[off + k - 1];
        proof {
            lemma_le_bound(buf@, off as int, (k - 1) as nat);
            lemma_pow256_16((n - k + 1) as nat);
            let p = pow256((k - 1) as nat);
            assert(pow256(k as nat) == 256 * p);
            assert(v as nat * (256 * p) + (b as nat * p + le_value(buf@, off as int, (k - 1) as nat))
                == (v as nat * 256 + b as nat) * p + le_value(buf@, off as int, (k - 1) as nat)) by (nonlinear_arith);
            assert(pow256((n - k + 1) as nat) == 256 * pow256((n - k) as nat));
            assert((v as nat) * 256 + (b as nat) < 256 * pow256((n - k) as nat)) by (nonlinear_arith)
                requires (v as nat) < pow256((n - k) as nat), b < 256;
        }
        v = v * 256 + b as u128;
        k -= 1;
    }
    assert(pow256(0) == 1);
    assert(v as nat * pow256(0) == v as nat);
    v
}

proof fn lemma_pow256_16(n: nat)
    requires
        n <= 16,
    ensures
        pow256(n) <= 0x1_0000_0000_0000_0000_0000_0000_0000_0000,
{
    lemma_pow256_mono(n, 16);
    assert(pow256(16) == 0x1_0000_0000_0000_0000_0000_0000_0000_0000) by { reveal_with_fuel(pow256, 17); }
}

proof fn lemma_pow256_mono(a: nat, b: nat)
    requires
        a <= b,
    ensures
        pow256(a) <= pow256(b),
    decreases b,
{
    if a < b {
        lemma_pow256_mono(a, (b - 1) as nat);
    }
}

/// Little-endian `u16` at `off`, when the buffer holds it.
pub open spec fn le_u16(b: Seq<u8>, off: int) -> Option<u16> {
    if 0 <= off && off + 2 <= b.len() { Some(le_value(b, off, 2) as u16) } else { None }
}

/// Little-endian `u32` at `off`, when the buffer holds it.
pub open spec fn le_u32(b: Seq<u8>, off: int) -> Option<u32> {
    if 0 <= off && off + 4 <= b.len() { Some(le_value(b, off, 4) as u32) } else { None }
}

/// Little-endian `i64` (two's complement) at `off`, when the buffer holds it.
pub open spec fn le_i64(b: Seq<u8>, off: int) -> Option<i64> {
    if 0 <= off && off + 8 <= b.len() { Some((le_value(b, off, 8) as u64) as i64) } else { None }
}

/// Little-endian `u128` at `off`, when the buffer holds it.
pub open spec fn le_u128(b: Seq<u8>, off: int) -> Option<u128> {
    if 0 <= off && off + 16 <= b.len() { Some(le_value(b, off, 16) as u128) } else { None }
}

/// Reads a little-endian `u16` at `offset`, `None` past the end.
pub fn read_u16_le(buf: &[u8], offset: usize) -> (r: Option<u16>)
    ensures
        r == le_u16(buf@, offset as int),
{
    let n = buf.len();
    if offset > n || n - offset < 2 {
        return None;
    }
    proof { lemma_le_bound(buf@, offset as int, 2); assert(pow256(2) == 65536) by { reveal_with_fuel(pow256, 17); } }
    Some(read_le(buf, offset, 2) as u16)
}

/// Reads a little-endian `u32` at `offset`, `None` past the end.
pub fn read_u32_le(buf: &[u8], offset: usize) -> (r: Option<u32>)
    ensures
        r == le_u32(buf@, offset as int),
{
    let n = buf.len();
    if offset > n || n - offset < 4 {
        return None;
    }
    proof { lemma_le_bound(buf@, offset as int, 4); assert(pow256(4) == 0x1_0000_0000) by { reveal_with_fuel(pow256, 17); } }
    Some(read_le(buf, offset, 4) as u32)
}

/// Reads a little-endian `i64` at `offset`, `None` past the end.
pub fn read_i64_le(buf: &[u8], offset: usize) -> (r: Option<i64>)
    ensures
        r == le_i64(buf@, offset as int),
{
    let n = buf.len();
    if offset > n || n - offset < 8 {
        return None;
    }
    proof { lemma_le_bound(buf@, offset as int, 8); assert(pow256(8) == 0x1_0000_0000_0000_0000) by { reveal_with_fuel(pow256, 17); } }
    let u = read_le(buf, offset, 8) as u64;
    Some(u as i64)
}

/// Reads a little-endian `u128` at `offset`, `None` past the end.
pub fn read_u128_le(buf: &[u8], offset: usize) -> (r: Option<u128>)
    ensures
        r == le_u128(buf@, offset as int),
{
    let n = buf.len();
    if offset > n || n - offset < 16 {
        return None;
    }
    proof { lemma_le_bound(buf@, offset as int, 16); lemma_pow256_16(16); }
    Some(read_le(buf, offset, 16))
}

} // verus!
