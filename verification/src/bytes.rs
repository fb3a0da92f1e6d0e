//! Little-endian readers and writers for the packed multi-byte fields of the
//! wire protocol. Every multi-byte field on the wire is little-endian.

use vstd::prelude::*;

verus! {

/// The 16-bit little-endian value stored at offset `i` of `s`.
pub open spec fn le16(s: Seq<u8>, i: int) -> u16 {
    (s[i] + s[i + 1] * 0x100) as u16
}

/// The 32-bit little-endian value stored at offset `i` of `s`.
pub open spec fn le32(s: Seq<u8>, i: int) -> u32 {
    (s[i] + s[i + 1] * 0x100 + s[i + 2] * 0x1_0000 + s[i + 3] * 0x100_0000) as u32
}

/// The 64-bit little-endian value stored at offset `i` of `s`.
pub open spec fn le64(s: Seq<u8>, i: int) -> u64 {
    (le32(s, i) + le32(s, i + 4) * 0x1_0000_0000) as u64
}

pub fn read_u16_le(s: &[u8], off: usize) -> (r: u16)
    requires
        off + 2 <= s@.len(),
    ensures
        r == le16(s@, off as int),
{
    let b0 = s[off] as u16;
    let b1 = s[off + 1] as u16;
    b0 + b1 * 0x100
}

pub fn read_u32_le(s: &[u8], off: usize) -> (r: u32)
    requires
        off + 4 <= s@.len(),
    ensures
        r == le32(s@, off as int),
{
    let b0 = s[off] as u32;
    let b1 = s[off + 1] as u32;
    let b2 = s[off + 2] as u32;
    let b3 = s[off + 3] as u32;
    b0 + b1 * 0x100 + b2 * 0x1_0000 + b3 * 0x100_0000
}

pub fn read_u64_le(s: &[u8], off: usize) -> (r: u64)
    requires
        off + 8 <= s@.len(),
    ensures
        r == le64(s@, off as int),
{
    let n = s.len();
    assert(off + 8 <= n);
    let lo = read_u32_le(s, off) as u64;
    let hi = read_u32_le(s, off + 4) as u64;
    lo + hi * 0x1_0000_0000
}

pub fn write_u16_le(out: &mut Vec<u8>, v: u16)
    ensures
        final(out)@.len() == old(out)@.len() + 2,
        final(out)@.subrange(0, old(out)@.len() as int) == old(out)@,
        le16(final(out)@, old(out)@.len() as int) == v,
{
    out.push((v % 0x100) as u8);
    out.push((v / 0x100) as u8);
    proof {
        assert(le16(out@, old(out)@.len() as int) == v) by {
            assert(out@[old(out)@.len() as int] == v % 0x100);
            assert(out@[old(out)@.len() as int + 1] == v / 0x100);
        }
        assert(out@.subrange(0, old(out)@.len() as int) =~= old(out)@);
    }
}

pub fn write_u32_le(out: &mut Vec<u8>, v: u32)
    ensures
        final(out)@.len() == old(out)@.len() + 4,
        final(out)@.subrange(0, old(out)@.len() as int) == old(out)@,
        le32(final(out)@, old(out)@.len() as int) == v,
{
    out.push((v % 0x100) as u8);
    out.push((v / 0x100 % 0x100) as u8);
    out.push((v / 0x1_0000 % 0x100) as u8);
    out.push((v / 0x100_0000) as u8);
    proof {
        let i = old(out)@.len() as int;
        assert(le32(out@, i) == v) by {
            assert(out@[i] == v % 0x100);
            assert(out@[i + 1] == v / 0x100 % 0x100);
            assert(out@[i + 2] == v / 0x1_0000 % 0x100);
            assert(out@[i + 3] == v / 0x100_0000);
        }
        assert(out@.subrange(0, i) =~= old(out)@);
    }
}

pub fn write_u64_le(out: &mut Vec<u8>, v: u64)
    ensures
        final(out)@.len() == old(out)@.len() + 8,
        final(out)@.subrange(0, old(out)@.len() as int) == old(out)@,
        le64(final(out)@, old(out)@.len() as int) == v,
{
    let ghost n = out@.len() as int;
    write_u32_le(out, (v % 0x1_0000_0000) as u32);
    let ghost mid = out@;
    write_u32_le(out, (v / 0x1_0000_0000) as u32);
    proof {
        assert(out@.subrange(0, n) =~= old(out)@);
        assert(le32(out@, n) == v % 0x1_0000_0000) by {
            assert(out@[n] == mid[n]);
            assert(out@[n + 1] == mid[n + 1]);
            assert(out@[n + 2] == mid[n + 2]);
            assert(out@[n + 3] == mid[n + 3]);
        }
        assert(le64(out@, n) == v);
    }
}

} // verus!
