//! The remote-memory reading engine.
//!
//! All reads bottom out in the two operations of a [`TraceeMem`]: the
//! word-at-a-time peek and the bulk read.  A [`MemReader`] combines them: it
//! prefers the bulk facility for larger requests, and holds a sticky latch
//! that downgrades every later request to the word path once a bulk read has
//! failed, since the bulk facility may be administratively unavailable.
//!
//! Each reading function is specified against the abstract byte view of the
//! source, so that what a successful read returns, which prefix a failed
//! container read preserves, and when a read can fail at all, are all pinned
//! down exactly.

use vstd::prelude::*;

use crate::bytes::u64_le;
use crate::mem::{chunk_readable, mem_bytes, bytes_readable, word_byte, TraceeMem, EFAULT, EIO};
use crate::outcome::{InspectError, InspectResult};

verus! {

/// Start of the word-aligned range that the peek path covers for a request at
/// `addr`: `addr` rounded down to a word boundary.
pub open spec fn cover_start(addr: u64) -> int {
    addr - (addr as int % 8)
}

/// End of the word-aligned range that the peek path covers for `len` bytes at
/// `addr`: `addr + len` rounded up to a word boundary.
pub open spec fn cover_end(addr: u64, len: int) -> int {
    cover_start(addr) + 8 * (((addr as int % 8) + len + 7) / 8)
}

/// What a whole-range read promises: success returns exactly the bytes of the
/// requested range, which is then known readable; failure means some byte of
/// the word-aligned range covering the request is unreadable or out of the
/// address space.
pub open spec fn read_post<M: TraceeMem>(
    m: M,
    addr: u64,
    len: int,
    r: Result<Vec<u8>, i32>,
) -> bool {
    &&& (r matches Ok(v) ==> v@ == mem_bytes(m, addr, len) && bytes_readable(
        m,
        addr as int,
        addr + len,
    ))
    &&& (r is Err ==> !bytes_readable(m, cover_start(addr), cover_end(addr, len)))
}

/// Bounds of the covering word-aligned range.
pub proof fn lemma_cover_bounds(addr: u64, len: int)
    requires
        len >= 0,
    ensures
        0 <= cover_start(addr) <= addr,
        addr + len <= cover_end(addr, len) < addr + len + 8,
        cover_end(addr, len) - cover_start(addr) == 8 * (((addr as int % 8) + len + 7) / 8),
{
    let a = addr as int % 8;
    let t = a + len;
    assert(t + 7 == 8 * ((t + 7) / 8) + ((t + 7) % 8)) by {
        vstd::arithmetic::div_mod::lemma_fundamental_div_mod(t + 7, 8);
    }
    assert(0 <= (t + 7) % 8 < 8) by {
        vstd::arithmetic::div_mod::lemma_mod_bound(t + 7, 8);
    }
}

/// Extract little-endian byte `p` of the word `w`.
fn word_byte_at(w: u64, p: usize) -> (b: u8)
    requires
        p < 8,
    ensures
        b == word_byte(w, p as int),
{
    let shift: u64 = 8 * (p as u64);
    let masked: u64 = (w >> shift) & 0xff;
    proof {
        assert((w >> shift) & 0xff < 0x100) by (bit_vector);
        assert(shift == (8 * (p as int)) as u64);
    }
    masked as u8
}

/// A word packed from eight little-endian bytes equals the little-endian
/// value of those bytes.
pub proof fn lemma_u64_le_of_word_bytes(w: u64, s: Seq<u8>)
    requires
        s.len() == 8,
        forall|i: int| 0 <= i < 8 ==> s[i] == word_byte(w, i),
    ensures
        u64_le(s) == w,
{
    assert(((w >> 0) & 0xff) < 0x100 && ((w >> 8) & 0xff) < 0x100 && ((w >> 16) & 0xff) < 0x100
        && ((w >> 24) & 0xff) < 0x100 && ((w >> 32) & 0xff) < 0x100 && ((w >> 40) & 0xff) < 0x100
        && ((w >> 48) & 0xff) < 0x100 && ((w >> 56) & 0xff) < 0x100) by (bit_vector);
    assert(w == ((w >> 0) & 0xff) | (((w >> 8) & 0xff) << 8) | (((w >> 16) & 0xff) << 16) | (((w
        >> 24) & 0xff) << 24) | (((w >> 32) & 0xff) << 32) | (((w >> 40) & 0xff) << 40) | (((w
        >> 48) & 0xff) << 48) | (((w >> 56) & 0xff) << 56)) by (bit_vector);
    assert(s[0] == word_byte(w, 0) && s[1] == word_byte(w, 1) && s[2] == word_byte(w, 2) && s[3]
        == word_byte(w, 3) && s[4] == word_byte(w, 4) && s[5] == word_byte(w, 5) && s[6]
        == word_byte(w, 6) && s[7] == word_byte(w, 7));
    assert((s[0] as u64) == (w >> 0) & 0xff && (s[1] as u64) == (w >> 8) & 0xff && (s[2] as u64)
        == (w >> 16) & 0xff && (s[3] as u64) == (w >> 24) & 0xff && (s[4] as u64) == (w >> 32)
        & 0xff && (s[5] as u64) == (w >> 40) & 0xff && (s[6] as u64) == (w >> 48) & 0xff && (
    s[7] as u64) == (w >> 56) & 0xff);
}

/// Read `len` bytes at `addr` with word peeks alone: the aligned word covering
/// the start, then whole words, then the word covering the tail.
pub fn read_bytes_by_peek<M: TraceeMem>(m: &M, addr: u64, len: usize) -> (r: Result<Vec<u8>, i32>)
    ensures
        read_post(*m, addr, len as int, r),
        addr + len > u64::MAX + 1 ==> r == Err::<Vec<u8>, i32>(EFAULT),
{
    proof {
        lemma_cover_bounds(addr, len as int);
    }
    if len == 0 {
        let out: Vec<u8> = Vec::new();
        proof {
            assert(out@ =~= mem_bytes(*m, addr, 0));
        }
        return Ok(out);
    }
    if (len - 1) as u64 > u64::MAX - addr {
        // the request runs past the top of the address space
        proof {
            assert(!(0 <= (u64::MAX as int + 1) <= u64::MAX));
            assert(!bytes_readable(*m, cover_start(addr), cover_end(addr, len as int)));
        }
        return Err(EFAULT);
    }
    let align: u64 = addr % 8;
    let aligned: u64 = addr - align;
    let nwords: u64 = (align + (len as u64 - 1)) / 8 + 1;
    proof {
        let t = align as int + len;
        assert((t - 1) / 8 + 1 == (t + 7) / 8) by {
            vstd::arithmetic::div_mod::lemma_fundamental_div_mod(t - 1, 8);
            vstd::arithmetic::div_mod::lemma_mod_bound(t - 1, 8);
            vstd::arithmetic::div_mod::lemma_fundamental_div_mod(t + 7, 8);
            vstd::arithmetic::div_mod::lemma_mod_bound(t + 7, 8);
        }
        assert(aligned + 8 * nwords == cover_end(addr, len as int));
    }
    let mut raw: Vec<u8> = Vec::new();
    let mut widx: u64 = 0;
    while widx < nwords
        invariant
            len >= 1,
            widx <= nwords,
            align == addr as int % 8,
            aligned == cover_start(addr),
            aligned + 8 * nwords == cover_end(addr, len as int),
            cover_end(addr, len as int) <= u64::MAX + 1,
            addr + len <= cover_end(addr, len as int),
            raw@.len() == 8 * widx,
            raw@ == mem_bytes(*m, aligned, 8 * (widx as int)),
            bytes_readable(*m, aligned as int, aligned + 8 * (widx as int)),
        decreases nwords - widx,
    {
        let waddr: u64 = aligned + 8 * widx;
        match m.peek_word(waddr) {
            Err(e) => {
                proof {
                    let b = choose|b: u64| waddr <= b < waddr + 8 && !(#[trigger] m.readable(b));
                    assert(cover_start(addr) <= b < cover_end(addr, len as int));
                    assert(!bytes_readable(*m, cover_start(addr), cover_end(addr, len as int)));
                }
                return Err(e);
            },
            Ok(w) => {
                let ghost base_len = raw@.len() as int;
                let mut p: usize = 0;
                while p < 8
                    invariant
                        p <= 8,
                        base_len == 8 * (widx as int),
                        waddr == aligned + 8 * widx,
                        waddr + 8 <= u64::MAX + 1,
                        raw@.len() == base_len + p,
                        raw@ == mem_bytes(*m, aligned, base_len + p),
                        forall|i: int|
                            0 <= i < 8 ==> word_byte(w, i) == m.byte_at((waddr + i) as u64),
                    decreases 8 - p,
                {
                    let b = word_byte_at(w, p);
                    raw.push(b);
                    proof {
                        assert(raw@ =~= mem_bytes(*m, aligned, base_len + p + 1));
                    }
                    p += 1;
                }
                proof {
                    assert(bytes_readable(*m, aligned as int, aligned + 8 * (widx as int) + 8));
                }
            },
        }
        widx += 1;
    }
    let align_off: usize = align as usize;
    let rl: usize = raw.len();
    let mut out: Vec<u8> = Vec::new();
    let mut k: usize = 0;
    while k < len
        invariant
            k <= len,
            align_off == addr as int % 8,
            aligned == cover_start(addr),
            addr == aligned + align_off,
            rl == raw@.len(),
            align_off + len <= rl,
            raw@ == mem_bytes(*m, aligned, raw@.len() as int),
            out@.len() == k,
            out@ == mem_bytes(*m, addr, k as int),
        decreases len - k,
    {
        let b = raw[align_off + k];
        out.push(b);
        proof {
            assert(out@ =~= mem_bytes(*m, addr, k + 1));
        }
        k += 1;
    }
    proof {
        assert forall|b: int| addr <= b < addr + len implies 0 <= b <= u64::MAX
            && #[trigger] m.readable(b as u64) by {
            assert(bytes_readable(*m, aligned as int, cover_end(addr, len as int)));
        }
    }
    Ok(out)
}

/// Read `len` bytes at `addr` with the bulk facility, one page-bounded chunk
/// per request so that no single request crosses a page boundary.
pub fn read_bytes_by_bulk<M: TraceeMem>(
    m: &M,
    page: usize,
    addr: u64,
    len: usize,
) -> (r: Result<Vec<u8>, i32>)
    requires
        page >= 1,
        addr + len <= u64::MAX + 1,
    ensures
        r matches Ok(v) ==> v@ == mem_bytes(*m, addr, len as int) && bytes_readable(
            *m,
            addr as int,
            addr + len,
        ),
{
    let mut out: Vec<u8> = Vec::new();
    proof {
        assert(out@ =~= mem_bytes(*m, addr, 0));
    }
    while out.len() < len
        invariant
            page >= 1,
            addr + len <= u64::MAX + 1,
            out@.len() <= len,
            out@ == mem_bytes(*m, addr, out@.len() as int),
            bytes_readable(*m, addr as int, addr + out@.len()),
        decreases len - out@.len(),
    {
        let got = out.len();
        let cur: u64 = addr + got as u64;
        let mis: usize = (cur % (page as u64)) as usize;
        let mut chunk: usize = page - mis;
        let rem = len - got;
        if chunk > rem {
            chunk = rem;
        }
        match m.bulk_read(cur, chunk) {
            Err(e) => {
                return Err(e);
            },
            Ok(mut v) => {
                if v.len() < chunk {
                    return Err(EIO);
                }
                let ghost old_out = out@;
                let ghost vlen = v@.len() as int;
                proof {
                    assert forall|i: int| 0 <= i < vlen implies #[trigger] v@[i] == m.byte_at(
                        ((addr + old_out.len()) + i) as u64,
                    ) by {}
                }
                out.append(&mut v);
                proof {
                    assert(out@ =~= mem_bytes(*m, addr, out@.len() as int));
                    assert(bytes_readable(*m, addr as int, addr + out@.len()));
                }
            },
        }
    }
    Ok(out)
}

/// A reader over one memory source, holding the per-source state of the
/// dual-path strategy: the page size used to split bulk requests and the
/// sticky latch that disables the bulk facility after its first failure.
pub struct MemReader<M: TraceeMem> {
    pub mem: M,
    pub bulk_disabled: bool,
    pub page_size: usize,
}

impl<M: TraceeMem> MemReader<M> {
    /// A reader is usable once its page size is positive.
    pub open spec fn wf(self) -> bool {
        self.page_size >= 1
    }

    /// How the reader's state may change across one operation: the source
    /// and page size are untouched, and the bulk latch moves one way only —
    /// once disabled it is never re-enabled.
    pub open spec fn evolves_from(self, pre: Self) -> bool {
        &&& self.mem == pre.mem
        &&& self.page_size == pre.page_size
        &&& pre.bulk_disabled ==> self.bulk_disabled
    }

    pub fn new(mem: M, page_size: usize) -> (r: Self)
        requires
            page_size >= 1,
        ensures
            r.mem == mem,
            r.bulk_disabled == false,
            r.page_size == page_size,
            r.wf(),
    {
        MemReader { mem, bulk_disabled: false, page_size }
    }

    /// Read exactly `len` bytes at `addr`.  Short requests go straight to the
    /// word path; larger ones try the bulk facility first and fall back to
    /// the word path, disabling the bulk facility for good on its first
    /// failure.  Success and the returned bytes do not depend on which path
    /// served the request.
    pub fn read_memory(&mut self, addr: u64, len: usize) -> (r: Result<Vec<u8>, i32>)
        requires
            old(self).wf(),
        ensures
            final(self).wf(),
            final(self).evolves_from(*old(self)),
            read_post(old(self).mem, addr, len as int, r),
            len < 16 ==> *final(self) == *old(self),
            addr + len > u64::MAX + 1 ==> r == Err::<Vec<u8>, i32>(EFAULT),
    {
        if len < 16 {
            return read_bytes_by_peek(&self.mem, addr, len);
        }
        if (len - 1) as u64 > u64::MAX - addr {
            proof {
                lemma_cover_bounds(addr, len as int);
                assert(!(0 <= (u64::MAX as int + 1) <= u64::MAX));
                assert(!bytes_readable(old(self).mem, cover_start(addr), cover_end(addr, len as int)));
            }
            return Err(EFAULT);
        }
        if !self.bulk_disabled {
            match read_bytes_by_bulk(&self.mem, self.page_size, addr, len) {
                Ok(v) => {
                    return Ok(v);
                },
                Err(_) => {
                    self.bulk_disabled = true;
                },
            }
        }
        read_bytes_by_peek(&self.mem, addr, len)
    }

    /// Read a fixed-size record's `len` bytes at `addr`, as an inspection
    /// outcome.  Fixed records carry no partial value.
    pub fn read_exact(&mut self, addr: u64, len: usize) -> (r: InspectResult<Vec<u8>>)
        requires
            old(self).wf(),
        ensures
            final(self).wf(),
            final(self).evolves_from(*old(self)),
            fixed_post(old(self).mem, addr, len as int, r),
    {
        match self.read_memory(addr, len) {
            Ok(v) => Ok(v),
            Err(e) => Err(InspectError::ReadFailure { errno: e, incomplete: None }),
        }
    }
}

/// What reading a fixed-size record promises: on success exactly the bytes of
/// the range; on failure a read error without partial value, and some byte of
/// the covering range unreadable.
pub open spec fn fixed_post<M: TraceeMem>(
    m: M,
    addr: u64,
    len: int,
    r: InspectResult<Vec<u8>>,
) -> bool {
    &&& (r matches Ok(v) ==> v@ == mem_bytes(m, addr, len) && bytes_readable(
        m,
        addr as int,
        addr + len,
    ))
    &&& (r matches Err(e) ==> e matches InspectError::ReadFailure {
        errno: _,
        incomplete: None,
    } && !bytes_readable(m, cover_start(addr), cover_end(addr, len)))
}

/// The word-peek chunk `k` of a scan that starts at `addr`: the eight bytes at
/// `addr + 8 * k`.
pub open spec fn chunk_at<M: TraceeMem>(m: M, addr: u64, k: int) -> bool {
    chunk_readable(m, (addr + 8 * k) as u64)
}

/// The value of pointer slot `k` of a pointer array at `base`: the
/// little-endian word stored at `base + 8 * k`.
pub open spec fn slot_val<M: TraceeMem>(m: M, base: u64, k: int) -> u64 {
    u64_le(mem_bytes(m, (base + 8 * k) as u64, 8))
}

/// `s` is the value of the C string at `addr`: its bytes up to but not
/// including the terminating zero, with every scanned chunk readable.
pub open spec fn cstr_ok_val<M: TraceeMem>(m: M, addr: u64, s: Seq<u8>) -> bool {
    &&& addr + s.len() <= u64::MAX
    &&& s == mem_bytes(m, addr, s.len() as int)
    &&& forall|i: int| 0 <= i < s.len() ==> s[i] != 0
    &&& m.byte_at((addr + s.len()) as u64) == 0
    &&& forall|k: int| 0 <= k && 8 * k <= s.len() ==> #[trigger] chunk_at(m, addr, k)
}

/// Some string value terminates at `addr`: the scan from `addr` reaches a
/// zero byte through readable chunks.
pub open spec fn cstr_ok_exists<M: TraceeMem>(m: M, addr: u64) -> bool {
    exists|s: Seq<u8>| cstr_ok_val(m, addr, s)
}

/// `p` is the prefix preserved by a failed C-string read at `addr`: whole
/// chunks of non-zero bytes, with the next chunk unreadable or out of the
/// address space.
pub open spec fn cstr_fail_partial<M: TraceeMem>(m: M, addr: u64, p: Seq<u8>) -> bool {
    &&& p.len() % 8 == 0
    &&& addr + p.len() <= u64::MAX + 1
    &&& p == mem_bytes(m, addr, p.len() as int)
    &&& forall|i: int| 0 <= i < p.len() ==> p[i] != 0
    &&& forall|k: int| 0 <= k && 8 * k < p.len() ==> #[trigger] chunk_at(m, addr, k)
    &&& (addr + p.len() > u64::MAX || !chunk_at(m, addr, p.len() as int / 8))
}

/// What reading a C string promises.
pub open spec fn cstring_post<M: TraceeMem>(m: M, addr: u64, r: InspectResult<Vec<u8>>) -> bool {
    &&& (r matches Ok(v) ==> cstr_ok_val(m, addr, v@))
    &&& (r matches Err(e) ==> e matches InspectError::ReadFailure {
        errno: _,
        incomplete: Some(p),
    } && cstr_fail_partial(m, addr, p@))
}

/// A failed C-string read at `addr` excludes any successful value there: the
/// scan is deterministic.
pub proof fn lemma_cstr_fail_excludes_ok<M: TraceeMem>(m: M, addr: u64, p: Seq<u8>)
    requires
        cstr_fail_partial(m, addr, p),
    ensures
        !cstr_ok_exists(m, addr),
{
    if cstr_ok_exists(m, addr) {
        let s = choose|s: Seq<u8>| cstr_ok_val(m, addr, s);
        if s.len() < p.len() {
            assert(p[s.len() as int] == mem_bytes(m, addr, p.len() as int)[s.len() as int]);
            assert(p[s.len() as int] == m.byte_at((addr + s.len()) as u64));
            assert(false);
        } else {
            let k = p.len() as int / 8;
            assert(8 * k == p.len()) by {
                vstd::arithmetic::div_mod::lemma_fundamental_div_mod(p.len() as int, 8);
            }
            assert(chunk_at(m, addr, k));
            assert(false);
        }
    }
}

/// What reading a counted byte buffer promises: on success the `count` bytes
/// of the range; on failure the readable prefix, with the next byte's
/// covering chunk unreadable or out of the address space.
pub open spec fn counted_post<M: TraceeMem>(
    m: M,
    addr: u64,
    count: int,
    r: InspectResult<Vec<u8>>,
) -> bool {
    &&& (r matches Ok(v) ==> v@ == mem_bytes(m, addr, count) && bytes_readable(
        m,
        addr as int,
        addr + count,
    ))
    &&& (r matches Err(e) ==> e matches InspectError::ReadFailure {
        errno: _,
        incomplete: Some(p),
    } && {
        &&& p@.len() < count
        &&& p@ == mem_bytes(m, addr, p@.len() as int)
        &&& bytes_readable(m, addr as int, addr + p@.len())
        &&& (addr + p@.len() > u64::MAX || !bytes_readable(
            m,
            cover_start((addr + p@.len()) as u64),
            cover_end((addr + p@.len()) as u64, 1),
        ))
    })
}

/// What reading a null-terminated array of string pointers promises.
pub open spec fn ptr_array_prefix_ok<M: TraceeMem>(m: M, addr: u64, items: Seq<Vec<u8>>) -> bool {
    &&& addr + 8 * items.len() <= u64::MAX + 1
    &&& forall|k: int| 0 <= k < items.len() ==> #[trigger] chunk_at(m, addr, k)
    &&& forall|k: int| 0 <= k < items.len() ==> #[trigger] slot_val(m, addr, k) != 0
    &&& forall|k: int|
        0 <= k < items.len() ==> cstr_ok_val(m, #[trigger] slot_val(m, addr, k), items[k]@)
}

/// What reading a null-terminated pointer array of C strings promises: on
/// success all elements up to a readable null slot; on failure the elements
/// already read, with the next slot or its string unreadable.
pub open spec fn ptr_array_post<M: TraceeMem>(
    m: M,
    addr: u64,
    r: InspectResult<Vec<Vec<u8>>>,
) -> bool {
    &&& (r matches Ok(v) ==> {
        &&& ptr_array_prefix_ok(m, addr, v@)
        &&& chunk_at(m, addr, v@.len() as int)
        &&& slot_val(m, addr, v@.len() as int) == 0
    })
    &&& (r matches Err(e) ==> e matches InspectError::ReadFailure {
        errno: _,
        incomplete: Some(p),
    } && {
        &&& ptr_array_prefix_ok(m, addr, p@)
        &&& {
            ||| addr + 8 * p@.len() > u64::MAX
            ||| !chunk_at(m, addr, p@.len() as int)
            ||| (slot_val(m, addr, p@.len() as int) != 0 && !cstr_ok_exists(
                m,
                slot_val(m, addr, p@.len() as int),
            ))
        }
    })
}

impl<M: TraceeMem> MemReader<M> {
    /// Read the C string at `addr`: bytes until a zero byte, scanned one
    /// word-peek at a time.  A failed scan preserves the whole chunks read so
    /// far as the partial value.
    pub fn read_c_string(&mut self, addr: u64) -> (r: InspectResult<Vec<u8>>)
        requires
            old(self).wf(),
        ensures
            *final(self) == *old(self),
            cstring_post(old(self).mem, addr, r),
    {
        let ghost m = self.mem;
        let mut buf: Vec<u8> = Vec::new();
        let mut cur: u64 = addr;
        proof {
            assert(buf@ =~= mem_bytes(m, addr, 0));
        }
        loop
            invariant
                m == self.mem,
                cur == addr + buf@.len(),
                buf@.len() % 8 == 0,
                buf@ == mem_bytes(m, addr, buf@.len() as int),
                forall|i: int| 0 <= i < buf@.len() ==> buf@[i] != 0,
                forall|k: int| 0 <= k && 8 * k < buf@.len() ==> #[trigger] chunk_at(m, addr, k),
            decreases u64::MAX - cur,
        {
            let ghost base_len = buf@.len() as int;
            proof {
                assert(8 * (base_len / 8) == base_len) by {
                    vstd::arithmetic::div_mod::lemma_fundamental_div_mod(base_len, 8);
                }
            }
            match self.mem.peek_word(cur) {
                Err(e) => {
                    proof {
                        assert(!chunk_readable(m, cur));
                        assert(!chunk_at(m, addr, base_len / 8));
                    }
                    return Err(InspectError::ReadFailure { errno: e, incomplete: Some(buf) });
                },
                Ok(w) => {
                    proof {
                        assert(chunk_readable(m, cur));
                        assert(chunk_at(m, addr, base_len / 8));
                    }
                    let mut p: usize = 0;
                    while p < 8
                        invariant
                            p <= 8,
                            m == self.mem,
                            base_len % 8 == 0,
                            cur == addr + base_len,
                            cur + 8 <= u64::MAX + 1,
                            buf@.len() == base_len + p,
                            buf@ == mem_bytes(m, addr, base_len + p),
                            forall|i: int| 0 <= i < buf@.len() ==> buf@[i] != 0,
                            forall|k: int|
                                0 <= k && 8 * k <= base_len ==> #[trigger] chunk_at(m, addr, k),
                            forall|i: int|
                                0 <= i < 8 ==> word_byte(w, i) == m.byte_at((cur + i) as u64),
                        decreases 8 - p,
                    {
                        let b = word_byte_at(w, p);
                        if b == 0 {
                            proof {
                                assert(m.byte_at((addr + buf@.len()) as u64) == word_byte(
                                    w,
                                    p as int,
                                ));
                                assert forall|k: int| 0 <= k && 8 * k <= buf@.len()
                                    implies #[trigger] chunk_at(m, addr, k) by {
                                    assert(8 * k <= base_len + p < base_len + 8);
                                }
                            }
                            return Ok(buf);
                        }
                        buf.push(b);
                        proof {
                            assert(buf@ =~= mem_bytes(m, addr, base_len + p + 1));
                        }
                        p += 1;
                    }
                    if cur > u64::MAX - 8 {
                        proof {
                            assert(addr + buf@.len() == u64::MAX + 1);
                        }
                        return Err(
                            InspectError::ReadFailure { errno: EFAULT, incomplete: Some(buf) },
                        );
                    }
                    cur = cur + 8;
                },
            }
        }
    }

    /// Read `count` bytes at `addr` one element at a time, preserving the
    /// prefix already read when an element fails.
    pub fn read_counted_bytes(&mut self, addr: u64, count: usize) -> (r: InspectResult<Vec<u8>>)
        requires
            old(self).wf(),
        ensures
            final(self).wf(),
            final(self).evolves_from(*old(self)),
            counted_post(old(self).mem, addr, count as int, r),
    {
        let ghost m = self.mem;
        let mut out: Vec<u8> = Vec::new();
        let mut i: usize = 0;
        proof {
            assert(out@ =~= mem_bytes(m, addr, 0));
        }
        while i < count
            invariant
                self.wf(),
                self.evolves_from(*old(self)),
                m == self.mem,
                i == out@.len(),
                i <= count,
                addr + i <= u64::MAX + 1,
                out@ == mem_bytes(m, addr, i as int),
                bytes_readable(m, addr as int, addr + i),
            decreases count - i,
        {
            if i as u64 > u64::MAX - addr {
                proof {
                    assert(addr + out@.len() > u64::MAX);
                }
                return Err(InspectError::ReadFailure { errno: EFAULT, incomplete: Some(out) });
            }
            let cur: u64 = addr + i as u64;
            match self.read_memory(cur, 1) {
                Ok(v1) => {
                    let b = v1[0];
                    out.push(b);
                    proof {
                        assert(v1@[0] == m.byte_at(((cur as int + 0)) as u64));
                        assert(out@ =~= mem_bytes(m, addr, i + 1 as int));
                        assert(bytes_readable(m, addr as int, addr + i + 1));
                    }
                    i += 1;
                },
                Err(e) => {
                    return Err(InspectError::ReadFailure { errno: e, incomplete: Some(out) });
                },
            }
        }
        Ok(out)
    }

    /// Read a null-terminated array of pointers to C strings (argv, envp):
    /// pointer slots until a null slot, each referenced string read in turn.
    /// On failure the elements already read are preserved; a failed element's
    /// own partial bytes are not.
    pub fn read_ptr_array(&mut self, addr: u64) -> (r: InspectResult<Vec<Vec<u8>>>)
        requires
            old(self).wf(),
        ensures
            final(self).wf(),
            final(self).evolves_from(*old(self)),
            ptr_array_post(old(self).mem, addr, r),
    {
        let ghost m = self.mem;
        let mut items: Vec<Vec<u8>> = Vec::new();
        let mut cur: u64 = addr;
        loop
            invariant
                self.wf(),
                self.evolves_from(*old(self)),
                m == self.mem,
                cur == addr + 8 * items@.len(),
                ptr_array_prefix_ok(m, addr, items@),
            decreases u64::MAX - cur,
        {
            let ghost klen = items@.len() as int;
            match self.mem.peek_word(cur) {
                Err(e) => {
                    proof {
                        assert(!chunk_readable(m, cur));
                        assert(!chunk_at(m, addr, klen));
                    }
                    return Err(InspectError::ReadFailure { errno: e, incomplete: Some(items) });
                },
                Ok(w) => {
                    proof {
                        assert(chunk_readable(m, cur));
                        assert(chunk_at(m, addr, klen));
                        assert forall|i: int| 0 <= i < 8 implies mem_bytes(m, cur, 8)[i]
                            == word_byte(w, i) by {}
                        lemma_u64_le_of_word_bytes(w, mem_bytes(m, cur, 8));
                        assert(slot_val(m, addr, klen) == w);
                    }
                    if w == 0 {
                        return Ok(items);
                    }
                    match self.read_c_string(w) {
                        Ok(sv) => {
                            items.push(sv);
                            proof {
                                assert forall|k: int| 0 <= k < items@.len()
                                    implies cstr_ok_val(
                                    m,
                                    #[trigger] slot_val(m, addr, k),
                                    items@[k]@,
                                ) by {}
                            }
                        },
                        Err(e) => {
                            let errno: i32 = if let InspectError::ReadFailure {
                                errno,
                                incomplete: _,
                            } = &e {
                                *errno
                            } else {
                                0
                            };
                            proof {
                                let pv = choose|pv: Seq<u8>| cstr_fail_partial(m, w, pv);
                                lemma_cstr_fail_excludes_ok(m, w, pv);
                            }
                            return Err(
                                InspectError::ReadFailure { errno, incomplete: Some(items) },
                            );
                        },
                    }
                    if cur > u64::MAX - 8 {
                        proof {
                            assert(addr + 8 * items@.len() > u64::MAX);
                        }
                        return Err(
                            InspectError::ReadFailure { errno: EFAULT, incomplete: Some(items) },
                        );
                    }
                    cur = cur + 8;
                },
            }
        }
    }
}

/// Partial-read monotonicity for C strings: with the `k` bytes at `addr`
/// readable and free of zero bytes, and the chunk after them unreadable, a
/// C-string read must fail and must preserve exactly those `k` bytes.  The
/// word-granular scan makes this exact when `k` is a whole number of words;
/// inside a chunk a fault takes the whole chunk with it.
pub proof fn lemma_cstring_partial_exact<M: TraceeMem>(
    m: M,
    addr: u64,
    k: int,
    r: InspectResult<Vec<u8>>,
)
    requires
        cstring_post(m, addr, r),
        0 <= k,
        k % 8 == 0,
        addr + k <= u64::MAX,
        bytes_readable(m, addr as int, addr + k),
        forall|i: int| 0 <= i < k ==> mem_bytes(m, addr, k)[i] != 0,
        !chunk_at(m, addr, k / 8),
    ensures
        r matches Err(InspectError::ReadFailure { errno: _, incomplete: Some(p) }) && p@
            == mem_bytes(m, addr, k),
{
    assert(8 * (k / 8) == k) by {
        vstd::arithmetic::div_mod::lemma_fundamental_div_mod(k, 8);
    }
    assert forall|j: int| 0 <= j && 8 * j < k implies #[trigger] chunk_at(m, addr, j) by {
        assert(8 * j + 8 <= k);
        assert forall|b: u64| (addr + 8 * j) <= b < (addr + 8 * j) + 8 implies #[trigger] m.readable(
            b,
        ) by {
            assert(addr <= b < addr + k);
        }
    }
    match r {
        Ok(v) => {
            let s = v@;
            if s.len() < k {
                assert(mem_bytes(m, addr, k)[s.len() as int] == m.byte_at(
                    (addr + s.len()) as u64,
                ));
                assert(false);
            } else {
                assert(chunk_at(m, addr, k / 8));
                assert(false);
            }
        },
        Err(e) => {
            let p = e->ReadFailure_incomplete->0;
            if p@.len() < k {
                assert(8 * (p@.len() as int / 8) == p@.len()) by {
                    vstd::arithmetic::div_mod::lemma_fundamental_div_mod(p@.len() as int, 8);
                }
                assert(chunk_at(m, addr, p@.len() as int / 8));
                assert(false);
            } else if p@.len() > k {
                assert(chunk_at(m, addr, k / 8));
                assert(false);
            } else {
                assert(p@ =~= mem_bytes(m, addr, k));
            }
        },
    }
}

/// Dual-path equivalence of values: two successful whole-range reads of one
/// range return the same bytes, whichever facility served them.
pub proof fn lemma_dual_path_values_agree<M: TraceeMem>(
    m: M,
    addr: u64,
    len: int,
    r1: Result<Vec<u8>, i32>,
    r2: Result<Vec<u8>, i32>,
)
    requires
        read_post(m, addr, len, r1),
        read_post(m, addr, len, r2),
    ensures
        r1 is Ok && r2 is Ok ==> r1->Ok_0@ == r2->Ok_0@,
{
}

/// Totality on readable ranges: with every byte of the covering word-aligned
/// range readable, a whole-range read cannot fail — with the bulk facility
/// available, disabled, or anywhere in between.
pub proof fn lemma_read_total_on_readable<M: TraceeMem>(
    m: M,
    addr: u64,
    len: int,
    r: Result<Vec<u8>, i32>,
)
    requires
        read_post(m, addr, len, r),
        bytes_readable(m, cover_start(addr), cover_end(addr, len)),
    ensures
        r matches Ok(v) && v@ == mem_bytes(m, addr, len),
{
}

} // verus!
