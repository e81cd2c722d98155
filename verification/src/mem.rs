//! An abstract model of a tracee's address space, and the two kernel reading
//! facilities over it.
//!
//! A [`TraceeMem`] is a source of bytes at 64-bit addresses.  Its
//! specification view is a per-address readability predicate together with the
//! byte stored at each readable address; the two executable operations are the
//! word-at-a-time peek and the bulk read, each specified against that view.
//! [`VecMem`] is a verified in-memory source used by the test suite; the live
//! source backed by the kernel facilities lives in [`crate::remote`].

use vstd::prelude::*;

verus! {

/// `errno` for a fault on an address that cannot be read.
pub const EFAULT: i32 = 14;

/// `errno` used when a bulk read stops short of the requested range.
pub const EIO: i32 = 5;

/// `errno` used by the in-memory test source to refuse bulk reads.
pub const EOPNOTSUPP: i32 = 95;

/// Little-endian byte `i` of the machine word `w`.
pub open spec fn word_byte(w: u64, i: int) -> u8
    recommends
        0 <= i < 8,
{
    ((w >> ((8 * i) as u64)) & 0xff) as u8
}

/// A word-peek at `a` covers the eight bytes `a..a + 8`; it can succeed only
/// when that whole range exists in the address space and is readable.  This is
/// exactly the success condition of [`TraceeMem::peek_word`].
pub open spec fn chunk_readable<M: TraceeMem>(m: M, a: u64) -> bool {
    &&& a + 8 <= u64::MAX + 1
    &&& forall|b: u64| a <= b < a + 8 ==> #[trigger] m.readable(b)
}

/// The `len` bytes stored at `addr..addr + len`.
pub open spec fn mem_bytes<M: TraceeMem>(m: M, addr: u64, len: int) -> Seq<u8> {
    Seq::new(len as nat, |i: int| m.byte_at((addr + i) as u64))
}

/// Every address in `start..end` exists in the address space and is readable.
pub open spec fn bytes_readable<M: TraceeMem>(m: M, start: int, end: int) -> bool {
    &&& end <= u64::MAX + 1
    &&& forall|b: u64| start <= b < end ==> #[trigger] m.readable(b)
}

/// A source of bytes in another address space.
///
/// The specification treats the source as immutable storage: both operations
/// take `&self`, and two reads of one address see one byte.  The supervisor
/// guarantees this for a live tracee by keeping it stopped while decoding.
pub trait TraceeMem: Sized {
    /// Whether the byte at `addr` can be read.
    spec fn readable(&self, addr: u64) -> bool;

    /// The byte stored at `addr` (meaningful only where `readable`).
    spec fn byte_at(&self, addr: u64) -> u8;

    /// Read the machine word whose bytes are `addr..addr + 8`.  The peek is
    /// all-or-nothing: it succeeds exactly when that whole chunk exists in
    /// the address space and is readable, and then returns the eight bytes
    /// packed little-endian.
    fn peek_word(&self, addr: u64) -> (r: Result<u64, i32>)
        ensures
            (r is Ok) <==> (addr + 8 <= u64::MAX + 1 && forall|b: u64|
                addr <= b < addr + 8 ==> #[trigger] self.readable(b)),
            r matches Ok(w) ==> forall|i: int|
                0 <= i < 8 ==> word_byte(w, i) == self.byte_at((addr + i) as u64),
    ;

    /// Read up to `len` contiguous bytes starting at `addr` in one request.
    /// A successful read returns a readable prefix of the range; where it
    /// stops short is not pinned down, as the bulk facility may reach less of
    /// the address space than the word peek does.  Failure promises nothing,
    /// as the facility may be administratively unavailable.
    fn bulk_read(&self, addr: u64, len: usize) -> (r: Result<Vec<u8>, i32>)
        ensures
            r matches Ok(v) ==> {
                &&& v@.len() <= len
                &&& addr + v@.len() <= u64::MAX + 1
                &&& forall|i: int|
                    0 <= i < v@.len() ==> #[trigger] v@[i] == self.byte_at((addr + i) as u64)
                &&& forall|b: u64| addr <= b < addr + v@.len() ==> #[trigger] self.readable(b)
                &&& len > 0 ==> v@.len() > 0
            },
    ;
}

/// An in-memory address space: `bytes` mapped at `base`, nothing readable
/// outside it.  The test suite uses it to stage tracee memory images.
pub struct VecMem {
    pub base: u64,
    pub bytes: Vec<u8>,
}

impl TraceeMem for VecMem {
    open spec fn readable(&self, addr: u64) -> bool {
        self.base <= addr && addr < self.base + self.bytes@.len()
    }

    open spec fn byte_at(&self, addr: u64) -> u8 {
        self.bytes@[addr - self.base]
    }

    fn peek_word(&self, addr: u64) -> (r: Result<u64, i32>) {
        if addr > u64::MAX - 7 {
            return Err(EFAULT);
        }
        if addr < self.base {
            proof {
                assert(!self.readable(addr));
            }
            return Err(EFAULT);
        }
        let off = addr - self.base;
        if self.bytes.len() < 8 || off > (self.bytes.len() - 8) as u64 {
            proof {
                if off >= self.bytes@.len() {
                    assert(!self.readable(addr));
                } else {
                    let k = self.bytes@.len() - off;
                    assert(0 <= k < 8);
                    assert(!self.readable((addr + k) as u64));
                }
            }
            return Err(EFAULT);
        }
        let i = off as usize;
        let x0 = self.bytes[i] as u64;
        let x1 = self.bytes[i + 1] as u64;
        let x2 = self.bytes[i + 2] as u64;
        let x3 = self.bytes[i + 3] as u64;
        let x4 = self.bytes[i + 4] as u64;
        let x5 = self.bytes[i + 5] as u64;
        let x6 = self.bytes[i + 6] as u64;
        let x7 = self.bytes[i + 7] as u64;
        let w = x0 | (x1 << 8) | (x2 << 16) | (x3 << 24) | (x4 << 32) | (x5 << 40) | (x6 << 48)
            | (x7 << 56);
        proof {
            assert((w >> 0) & 0xff == x0 && (w >> 8) & 0xff == x1 && (w >> 16) & 0xff == x2
                && (w >> 24) & 0xff == x3 && (w >> 32) & 0xff == x4 && (w >> 40) & 0xff == x5
                && (w >> 48) & 0xff == x6 && (w >> 56) & 0xff == x7) by (bit_vector)
                requires
                    x0 < 0x100 && x1 < 0x100 && x2 < 0x100 && x3 < 0x100 && x4 < 0x100 && x5
                        < 0x100 && x6 < 0x100 && x7 < 0x100,
                    w == x0 | (x1 << 8) | (x2 << 16) | (x3 << 24) | (x4 << 32) | (x5 << 40) | (x6
                        << 48) | (x7 << 56),
            ;
            assert forall|j: int| 0 <= j < 8 implies word_byte(w, j) == self.byte_at(
                (addr + j) as u64,
            ) by {
                assert(word_byte(w, 0) == x0 as u8);
                assert(word_byte(w, 1) == x1 as u8);
                assert(word_byte(w, 2) == x2 as u8);
                assert(word_byte(w, 3) == x3 as u8);
                assert(word_byte(w, 4) == x4 as u8);
                assert(word_byte(w, 5) == x5 as u8);
                assert(word_byte(w, 6) == x6 as u8);
                assert(word_byte(w, 7) == x7 as u8);
            }
        }
        Ok(w)
    }

    fn bulk_read(&self, addr: u64, len: usize) -> (r: Result<Vec<u8>, i32>) {
        let mut out: Vec<u8> = Vec::new();
        if len == 0 {
            return Ok(out);
        }
        if addr < self.base {
            return Err(EFAULT);
        }
        let off = addr - self.base;
        if off >= self.bytes.len() as u64 {
            return Err(EFAULT);
        }
        let have = self.bytes.len() as u64 - off;
        let mut avail: usize = if len as u64 <= have {
            len
        } else {
            have as usize
        };
        // never read past the top of the address space
        let room = u64::MAX - addr;
        if avail as u64 > room {
            avail = (room + 1) as usize;
        }
        let start = off as usize;
        let mut k: usize = 0;
        while k < avail
            invariant
                k <= avail,
                avail <= self.bytes.len(),
                start == addr - self.base,
                start + avail <= self.bytes.len(),
                self.base <= addr,
                out@.len() == k,
                forall|i: int| 0 <= i < k ==> #[trigger] out@[i] == self.bytes@[start + i],
            decreases avail - k,
        {
            out.push(self.bytes[start + k]);
            k += 1;
        }
        proof {
            assert forall|i: int| 0 <= i < out@.len() implies #[trigger] out@[i] == self.byte_at(
                (addr + i) as u64,
            ) by {
                assert(out@[i] == self.bytes@[start + i]);
            }
            assert forall|b: u64| addr <= b < addr + out@.len() implies #[trigger] self.readable(
                b,
            ) by {
                assert(self.base <= b < self.base + self.bytes@.len());
            }
        }
        Ok(out)
    }
}

/// A [`VecMem`] whose bulk facility is switched off: every bulk request is
/// refused, so readers must fall back to word peeks.  The test suite uses it
/// to exercise the downgrade path.
pub struct BulkFailMem {
    pub inner: VecMem,
}

impl TraceeMem for BulkFailMem {
    open spec fn readable(&self, addr: u64) -> bool {
        self.inner.readable(addr)
    }

    open spec fn byte_at(&self, addr: u64) -> u8 {
        self.inner.byte_at(addr)
    }

    fn peek_word(&self, addr: u64) -> (r: Result<u64, i32>) {
        let r = self.inner.peek_word(addr);
        proof {
            if addr + 8 <= u64::MAX + 1 {
                if forall|b: u64| addr <= b < addr + 8 ==> #[trigger] self.inner.readable(b) {
                    assert forall|b: u64| addr <= b < addr + 8 implies #[trigger] self.readable(
                        b,
                    ) by {
                        assert(self.inner.readable(b));
                    }
                } else {
                    let b = choose|b: u64|
                        addr <= b < addr + 8 && !(#[trigger] self.inner.readable(b));
                    assert(!self.readable(b));
                }
            }
        }
        r
    }

    fn bulk_read(&self, addr: u64, len: usize) -> (r: Result<Vec<u8>, i32>) {
        Err(EOPNOTSUPP)
    }
}

} // verus!
