//! Little-endian views of byte sequences.
//!
//! Kernel records read out of a tracee are decoded field by field from their
//! raw bytes.  All three supported architectures are little-endian, so one set
//! of decoders serves them all.  Each executable decoder is specified against
//! the spec-level value of the same bytes.

use vstd::prelude::*;

verus! {

/// The unsigned 16-bit value stored little-endian at `s[0..2]`.
pub open spec fn u16_le(s: Seq<u8>) -> u16
    recommends
        s.len() >= 2,
{
    (s[0] as u16) | ((s[1] as u16) << 8)
}

/// The unsigned 32-bit value stored little-endian at `s[0..4]`.
pub open spec fn u32_le(s: Seq<u8>) -> u32
    recommends
        s.len() >= 4,
{
    (s[0] as u32) | ((s[1] as u32) << 8) | ((s[2] as u32) << 16) | ((s[3] as u32) << 24)
}

/// The unsigned 64-bit value stored little-endian at `s[0..8]`.
pub open spec fn u64_le(s: Seq<u8>) -> u64
    recommends
        s.len() >= 8,
{
    (s[0] as u64) | ((s[1] as u64) << 8) | ((s[2] as u64) << 16) | ((s[3] as u64) << 24) | (
    (s[4] as u64) << 32) | ((s[5] as u64) << 40) | ((s[6] as u64) << 48) | ((s[7] as u64) << 56)
}

/// The signed 16-bit value stored little-endian at `s[0..2]`.
pub open spec fn i16_le(s: Seq<u8>) -> i16
    recommends
        s.len() >= 2,
{
    u16_le(s) as i16
}

/// The signed 32-bit value stored little-endian at `s[0..4]`: the unsigned
/// value reinterpreted in two's complement.
pub open spec fn i32_le(s: Seq<u8>) -> i32
    recommends
        s.len() >= 4,
{
    u32_le(s) as i32
}

/// The signed 64-bit value stored little-endian at `s[0..8]`.
pub open spec fn i64_le(s: Seq<u8>) -> i64
    recommends
        s.len() >= 8,
{
    u64_le(s) as i64
}

/// Read the little-endian `u16` at offset `off` of `v`.
pub fn u16_at(v: &Vec<u8>, off: usize) -> (r: u16)
    requires
        off + 2 <= v@.len(),
    ensures
        r == u16_le(v@.subrange(off as int, off + 2)),
{
    let _n: usize = v.len();
    let r = (v[off] as u16) | ((v[off + 1] as u16) << 8);
    proof {
        let s = v@.subrange(off as int, off + 2);
        assert(s[0] == v@[off as int] && s[1] == v@[off as int + 1]);
    }
    r
}

/// Read the little-endian `u32` at offset `off` of `v`.
pub fn u32_at(v: &Vec<u8>, off: usize) -> (r: u32)
    requires
        off + 4 <= v@.len(),
    ensures
        r == u32_le(v@.subrange(off as int, off + 4)),
{
    let _n: usize = v.len();
    let r = (v[off] as u32) | ((v[off + 1] as u32) << 8) | ((v[off + 2] as u32) << 16) | ((v[off
        + 3] as u32) << 24);
    proof {
        let s = v@.subrange(off as int, off + 4);
        assert(s[0] == v@[off as int] && s[1] == v@[off as int + 1] && s[2] == v@[off as int + 2]
            && s[3] == v@[off as int + 3]);
    }
    r
}

/// Read the little-endian `u64` at offset `off` of `v`.
pub fn u64_at(v: &Vec<u8>, off: usize) -> (r: u64)
    requires
        off + 8 <= v@.len(),
    ensures
        r == u64_le(v@.subrange(off as int, off + 8)),
{
    let _n: usize = v.len();
    let r = (v[off] as u64) | ((v[off + 1] as u64) << 8) | ((v[off + 2] as u64) << 16) | ((v[off
        + 3] as u64) << 24) | ((v[off + 4] as u64) << 32) | ((v[off + 5] as u64) << 40) | ((v[off
        + 6] as u64) << 48) | ((v[off + 7] as u64) << 56);
    proof {
        let s = v@.subrange(off as int, off + 8);
        assert(s[0] == v@[off as int] && s[1] == v@[off as int + 1] && s[2] == v@[off as int + 2]
            && s[3] == v@[off as int + 3] && s[4] == v@[off as int + 4] && s[5] == v@[off as int
            + 5] && s[6] == v@[off as int + 6] && s[7] == v@[off as int + 7]);
    }
    r
}

/// Read the little-endian `i16` at offset `off` of `v`.
pub fn i16_at(v: &Vec<u8>, off: usize) -> (r: i16)
    requires
        off + 2 <= v@.len(),
    ensures
        r == i16_le(v@.subrange(off as int, off + 2)),
{
    let u = u16_at(v, off);
    #[verifier::truncate] (u as i16)
}

/// Read the little-endian `i32` at offset `off` of `v`.
pub fn i32_at(v: &Vec<u8>, off: usize) -> (r: i32)
    requires
        off + 4 <= v@.len(),
    ensures
        r == i32_le(v@.subrange(off as int, off + 4)),
{
    let u = u32_at(v, off);
    #[verifier::truncate] (u as i32)
}

/// Read the little-endian `i64` at offset `off` of `v`.
pub fn i64_at(v: &Vec<u8>, off: usize) -> (r: i64)
    requires
        off + 8 <= v@.len(),
    ensures
        r == i64_le(v@.subrange(off as int, off + 8)),
{
    let u = u64_at(v, off);
    #[verifier::truncate] (u as i64)
}

/// Copy the bytes `v[start..end]` into a fresh vector.
pub fn bytes_range(v: &Vec<u8>, start: usize, end: usize) -> (r: Vec<u8>)
    requires
        start <= end,
        end <= v@.len(),
    ensures
        r@ == v@.subrange(start as int, end as int),
{
    let mut r: Vec<u8> = Vec::new();
    let mut i: usize = start;
    while i < end
        invariant
            start <= i <= end,
            end <= v@.len(),
            r@.len() == i - start,
            forall|j: int| 0 <= j < r@.len() ==> #[trigger] r@[j] == v@[j + start],
        decreases end - i,
    {
        let b = v[i];
        r.push(b);
        i += 1;
    }
    proof {
        assert(r@ =~= v@.subrange(start as int, end as int));
    }
    r
}

} // verus!
