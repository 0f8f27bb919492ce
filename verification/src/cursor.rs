//! Byte cursor: reads fixed-width little-endian integers and byte runs out of
//! an immutable buffer at an explicit position, failing with
//! [`DecodeError::Truncated`] when fewer bytes remain than requested.

use crate::DecodeError;
use vstd::prelude::*;

verus! {

/// The value of a byte string read as a little-endian unsigned integer:
/// byte 0 is the least significant.
pub open spec fn le_val(s: Seq<u8>) -> nat
    decreases s.len(),
{
    if s.len() == 0 {
        0
    } else {
        s[0] as nat + 0x100 * le_val(s.skip(1))
    }
}

/// 256 to the `n`th power: the number of values of an `n`-byte field.
pub open spec fn pow256(n: nat) -> nat
    decreases n,
{
    if n == 0 {
        1
    } else {
        0x100 * pow256((n - 1) as nat)
    }
}

/// Appending a byte adds its value at the next power of 256.
pub proof fn lemma_le_val_push(s: Seq<u8>, x: u8)
    ensures
        le_val(s.push(x)) == le_val(s) + x as nat * pow256(s.len()),
    decreases s.len(),
{
    if s.len() == 0 {
        assert(s.push(x) =~= seq![x]);
        assert(seq![x].skip(1) =~= Seq::<u8>::empty());
        assert(le_val(Seq::<u8>::empty()) == 0);
        assert(le_val(seq![x]) == x as nat + 0x100 * le_val(seq![x].skip(1)));
        assert(pow256(0) == 1);
    } else {
        assert(s.push(x).skip(1) =~= s.skip(1).push(x));
        lemma_le_val_push(s.skip(1), x);
        let rest = le_val(s.skip(1));
        let p = pow256(s.skip(1).len());
        assert(le_val(s) == s[0] as nat + 0x100 * le_val(s.skip(1)));
        assert(le_val(s.push(x)) == s.push(x)[0] as nat + 0x100 * le_val(s.push(x).skip(1)));
        assert(s.push(x)[0] == s[0]);
        assert(le_val(s.push(x)) == s[0] as nat + 0x100 * (rest + x as nat * p));
        assert(0x100 * (rest + x as nat * p) == 0x100 * rest + x as nat * (0x100 * p))
            by (nonlinear_arith);
        assert(pow256(s.len()) == 0x100 * p);
    }
}

/// A little-endian value fits in as many bytes as were read.
pub proof fn lemma_le_val_bound(s: Seq<u8>)
    ensures
        le_val(s) < pow256(s.len()),
    decreases s.len(),
{
    if s.len() == 0 {
    } else {
        lemma_le_val_bound(s.skip(1));
        let rest = le_val(s.skip(1));
        let p = pow256(s.skip(1).len());
        assert(rest + 1 <= p);
        assert(0x100 * rest + 0x100 <= 0x100 * p) by (nonlinear_arith)
            requires rest + 1 <= p;
        assert(pow256(s.len()) == 0x100 * p);
    }
}

/// `pow256` grows with its argument.
pub proof fn lemma_pow256_increases(m: nat, n: nat)
    requires
        m <= n,
    ensures
        pow256(m) <= pow256(n),
    decreases n,
{
    if m < n {
        lemma_pow256_increases(m, (n - 1) as nat);
        assert(pow256((n - 1) as nat) <= 0x100 * pow256((n - 1) as nat)) by (nonlinear_arith)
            requires pow256((n - 1) as nat) >= 0;
    }
}

/// The powers of 256 at the field widths the log layout uses.
pub proof fn lemma_pow256_values()
    ensures
        pow256(1) == 0x100,
        pow256(2) == 0x1_0000,
        pow256(4) == 0x1_0000_0000,
        pow256(6) == 0x1_0000_0000_0000,
        pow256(8) == 0x1_0000_0000_0000_0000,
        pow256(16) == 0x1_0000_0000_0000_0000_0000_0000_0000_0000,
{
    reveal_with_fuel(pow256, 17);
}

/// Reads the `n`-byte little-endian unsigned integer at `pos`.
pub fn read_le(buf: &[u8], pos: usize, n: usize) -> (r: u128)
    requires
        n <= 16,
        pos + n <= buf@.len(),
    ensures
        r as nat == le_val(buf@.subrange(pos as int, pos as int + n as int)),
        (r as nat) < pow256(n as nat),
{
    let len: usize = buf.len();
    let mut acc: u128 = 0;
    let mut mult: u128 = 1;
    let mut i: usize = 0;
    proof {
        assert(buf@.subrange(pos as int, pos as int) =~= Seq::<u8>::empty());
        lemma_pow256_values();
    }
    while i < n
        invariant
            n <= 16,
            buf@.len() == len,
            pos + n <= buf@.len(),
            i <= n,
            acc as nat == le_val(buf@.subrange(pos as int, pos as int + i as int)),
            (acc as nat) < pow256(i as nat),
            i < n ==> mult as nat == pow256(i as nat),
            pow256(16) == 0x1_0000_0000_0000_0000_0000_0000_0000_0000,
        decreases n - i,
    {
        let b = buf[pos + i];
        proof {
            lemma_pow256_increases((i + 1) as nat, 16);
            assert(acc as nat + b as nat * (mult as nat) < pow256((i + 1) as nat)) by (nonlinear_arith)
                requires
                    (acc as nat) < pow256(i as nat),
                    (b as nat) < 0x100,
                    mult as nat == pow256(i as nat),
                    pow256((i + 1) as nat) == 0x100 * pow256(i as nat);
            lemma_le_val_push(buf@.subrange(pos as int, pos as int + i as int), buf@[pos + i]);
            assert(buf@.subrange(pos as int, pos as int + i as int + 1) =~= buf@.subrange(
                pos as int,
                pos as int + i as int,
            ).push(buf@[pos + i]));
        }
        acc = acc + (b as u128) * mult;
        if i + 1 < n {
            proof {
                lemma_pow256_increases((i + 2) as nat, 16);
                assert(0x100 * pow256(i as nat + 1) == pow256(i as nat + 2));
            }
            mult = mult * 0x100;
        }
        i = i + 1;
    }
    acc
}

/// Copies the `n` bytes at `pos` out of the buffer.
pub fn read_bytes(buf: &[u8], pos: usize, n: usize) -> (r: Vec<u8>)
    requires
        pos + n <= buf@.len(),
    ensures
        r@ == buf@.subrange(pos as int, pos as int + n as int),
{
    let len: usize = buf.len();
    let mut out: Vec<u8> = Vec::new();
    let mut i: usize = 0;
    while i < n
        invariant
            buf@.len() == len,
            pos + n <= buf@.len(),
            i <= n,
            out@ == buf@.subrange(pos as int, pos as int + i as int),
        decreases n - i,
    {
        out.push(buf[pos + i]);
        proof {
            assert(buf@.subrange(pos as int, pos as int + i as int + 1) =~= buf@.subrange(
                pos as int,
                pos as int + i as int,
            ).push(buf@[pos + i]));
        }
        i = i + 1;
    }
    proof {
        assert(out@ =~= buf@.subrange(pos as int, pos as int + n as int));
    }
    out
}

/// Whether `n` bytes are available at `pos`; computed without overflow.
pub(crate) fn has_bytes(buf: &[u8], pos: usize, n: usize) -> (r: bool)
    ensures
        r == (pos + n <= buf@.len()),
        buf@.len() <= usize::MAX,
{
    let len = buf.len();
    n <= len && pos <= len - n
}

/// Takes the next `n` bytes, advancing the position, or fails with
/// `Truncated` when fewer than `n` bytes remain.
pub fn take_bytes(buf: &[u8], pos: usize, n: usize) -> (r: Result<(Vec<u8>, usize), DecodeError>)
    ensures
        match r {
            Ok((bytes, end)) => pos + n <= buf@.len() && bytes@ == buf@.subrange(
                pos as int,
                pos as int + n as int,
            ) && end == pos + n,
            Err(e) => pos + n > buf@.len() && e == (DecodeError::Truncated {
                offset: pos,
                needed: n,
            }),
        },
{
    if has_bytes(buf, pos, n) {
        Ok((read_bytes(buf, pos, n), pos + n))
    } else {
        Err(DecodeError::Truncated { offset: pos, needed: n })
    }
}

/// Takes the byte at `pos`, or fails with `Truncated`.
pub fn take_u8(buf: &[u8], pos: usize) -> (r: Result<(u8, usize), DecodeError>)
    ensures
        match r {
            Ok((v, end)) => pos + 1 <= buf@.len() && v == buf@[pos as int] && end == pos + 1,
            Err(e) => pos + 1 > buf@.len() && e == (DecodeError::Truncated {
                offset: pos,
                needed: 1,
            }),
        },
{
    if has_bytes(buf, pos, 1) {
        Ok((buf[pos], pos + 1))
    } else {
        Err(DecodeError::Truncated { offset: pos, needed: 1 })
    }
}

/// Takes the 2-byte little-endian integer at `pos`, or fails with `Truncated`.
pub fn take_u16(buf: &[u8], pos: usize) -> (r: Result<(u16, usize), DecodeError>)
    ensures
        match r {
            Ok((v, end)) => pos + 2 <= buf@.len() && v as nat == le_val(
                buf@.subrange(pos as int, pos as int + 2),
            ) && end == pos + 2,
            Err(e) => pos + 2 > buf@.len() && e == (DecodeError::Truncated {
                offset: pos,
                needed: 2,
            }),
        },
{
    if has_bytes(buf, pos, 2) {
        let v = read_le(buf, pos, 2);
        proof {
            lemma_pow256_values();
        }
        Ok(((v as u16), pos + 2))
    } else {
        Err(DecodeError::Truncated { offset: pos, needed: 2 })
    }
}

/// Takes the 4-byte little-endian integer at `pos`, or fails with `Truncated`.
pub fn take_u32(buf: &[u8], pos: usize) -> (r: Result<(u32, usize), DecodeError>)
    ensures
        match r {
            Ok((v, end)) => pos + 4 <= buf@.len() && v as nat == le_val(
                buf@.subrange(pos as int, pos as int + 4),
            ) && end == pos + 4,
            Err(e) => pos + 4 > buf@.len() && e == (DecodeError::Truncated {
                offset: pos,
                needed: 4,
            }),
        },
{
    if has_bytes(buf, pos, 4) {
        let v = read_le(buf, pos, 4);
        proof {
            lemma_pow256_values();
        }
        Ok(((v as u32), pos + 4))
    } else {
        Err(DecodeError::Truncated { offset: pos, needed: 4 })
    }
}

/// Takes the 8-byte little-endian integer at `pos`, or fails with `Truncated`.
pub fn take_u64(buf: &[u8], pos: usize) -> (r: Result<(u64, usize), DecodeError>)
    ensures
        match r {
            Ok((v, end)) => pos + 8 <= buf@.len() && v as nat == le_val(
                buf@.subrange(pos as int, pos as int + 8),
            ) && end == pos + 8,
            Err(e) => pos + 8 > buf@.len() && e == (DecodeError::Truncated {
                offset: pos,
                needed: 8,
            }),
        },
{
    if has_bytes(buf, pos, 8) {
        let v = read_le(buf, pos, 8);
        proof {
            lemma_pow256_values();
        }
        Ok(((v as u64), pos + 8))
    } else {
        Err(DecodeError::Truncated { offset: pos, needed: 8 })
    }
}

/// Takes the 16-byte little-endian integer at `pos`, or fails with
/// `Truncated`.
pub fn take_u128(buf: &[u8], pos: usize) -> (r: Result<(u128, usize), DecodeError>)
    ensures
        match r {
            Ok((v, end)) => pos + 16 <= buf@.len() && v as nat == le_val(
                buf@.subrange(pos as int, pos as int + 16),
            ) && end == pos + 16,
            Err(e) => pos + 16 > buf@.len() && e == (DecodeError::Truncated {
                offset: pos,
                needed: 16,
            }),
        },
{
    if has_bytes(buf, pos, 16) {
        Ok((read_le(buf, pos, 16), pos + 16))
    } else {
        Err(DecodeError::Truncated { offset: pos, needed: 16 })
    }
}

} // verus!
