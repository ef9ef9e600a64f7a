//! User memory as the kernel sees it: a window of bytes starting at `base`.
//! Copies between kernel buffers and user memory check that the user range
//! lies inside the window; values are laid out little-endian.
use vstd::prelude::*;
use crate::status::{Status, RX_ERR_INVALID_ARGS};

verus! {

/// The `n` little-endian bytes of `v` (`n` at most 8).
pub open spec fn le_bytes(v: u64, n: nat) -> Seq<u8> {
    Seq::new(n, |i: int| ((v >> ((8 * i) as u64)) & 0xff) as u8)
}

/// The value of the first `k` bytes of `s` read little-endian.
pub open spec fn le_value(s: Seq<u8>, k: nat) -> u64
    decreases k,
{
    if k == 0 {
        0
    } else {
        le_value(s, (k - 1) as nat) | ((s[k - 1] as u64) << ((8 * (k - 1)) as u64))
    }
}

/// Window contents `mem`, starting at address `base`, after `data` is
/// written at `addr`.
pub open spec fn write_seq(mem: Seq<u8>, base: usize, addr: usize, data: Seq<u8>) -> Seq<u8> {
    if data.len() == 0 {
        mem
    } else {
        mem.subrange(0, addr - base) + data + mem.subrange(addr - base + data.len(), mem.len() as int)
    }
}

/// Window contents `mem` (starting at `base`) after the `n` low
/// little-endian bytes of `v` are stored at `out`, when `out` is non-zero.
pub open spec fn stored_le(mem: Seq<u8>, base: usize, out: usize, v: u64, n: nat) -> Seq<u8> {
    if out == 0 {
        mem
    } else {
        write_seq(mem, base, out, le_bytes(v, n))
    }
}

/// A user address space window: byte `i` of `bytes` lives at address
/// `base + i`.
pub struct UserMemory {
    pub base: usize,
    pub bytes: Vec<u8>,
}

impl UserMemory {
    /// Whether `len` bytes at `addr` may be accessed: an empty range always,
    /// otherwise a non-null range inside the window.
    pub open spec fn range_ok(&self, addr: usize, len: usize) -> bool {
        len == 0 || (addr != 0 && self.base <= addr && addr - self.base + len <= self.bytes@.len())
    }

    /// Offset of `addr` in the window.
    pub open spec fn offset(&self, addr: usize) -> int {
        addr - self.base
    }

    /// The `len` bytes stored at `addr`.
    pub open spec fn bytes_at(&self, addr: usize, len: usize) -> Seq<u8> {
        self.bytes@.subrange(self.offset(addr), self.offset(addr) + len)
    }

    /// The memory after `data` is written at `addr`.
    pub open spec fn written(&self, addr: usize, data: Seq<u8>) -> Seq<u8> {
        write_seq(self.bytes@, self.base, addr, data)
    }

    /// A zero-filled window of `size` bytes at `base`.
    pub fn new(base: usize, size: usize) -> (m: UserMemory)
        ensures
            m.base == base,
            m.bytes@.len() == size,
            forall|i: int| 0 <= i < size ==> m.bytes@[i] == 0,
    {
        let mut bytes: Vec<u8> = Vec::new();
        let mut i: usize = 0;
        while i < size
            invariant
                i <= size,
                bytes@.len() == i,
                forall|k: int| 0 <= k < i ==> bytes@[k] == 0,
            decreases size - i,
        {
            bytes.push(0);
            i = i + 1;
        }
        UserMemory { base, bytes }
    }

    /// Whether `addr` is a non-null address inside the window.
    pub open spec fn valid_addr(&self, addr: usize) -> bool {
        addr != 0 && self.base <= addr && addr - self.base < self.bytes@.len()
    }

    /// Whether `addr` is a valid, non-null user address.
    pub fn is_valid(&self, addr: usize) -> (b: bool)
        ensures
            b == self.valid_addr(addr),
    {
        addr != 0 && self.base <= addr && addr - self.base < self.bytes.len()
    }

    /// Whether `len` bytes at `addr` may be accessed.
    pub fn check_range(&self, addr: usize, len: usize) -> (b: bool)
        ensures
            b == self.range_ok(addr, len),
    {
        len == 0 || (addr != 0 && self.base <= addr && len <= self.bytes.len() && addr - self.base
            <= self.bytes.len() - len)
    }

    /// Copy `len` bytes from user memory at `addr` into a kernel buffer.
    pub fn copy_from_user(&self, addr: usize, len: usize) -> (r: Result<Vec<u8>, Status>)
        ensures
            self.range_ok(addr, len) ==> (r matches Ok(v) && v@ == (if len == 0 {
                Seq::<u8>::empty()
            } else {
                self.bytes_at(addr, len)
            })),
            !self.range_ok(addr, len) ==> r == Err::<Vec<u8>, Status>(RX_ERR_INVALID_ARGS),
    {
        if !self.check_range(addr, len) {
            return Err(RX_ERR_INVALID_ARGS);
        }
        let mut out: Vec<u8> = Vec::new();
        if len == 0 {
            return Ok(out);
        }
        let off = addr - self.base;
        let blen = self.bytes.len();
        let mut i: usize = 0;
        while i < len
            invariant
                blen == self.bytes@.len(),
                self.range_ok(addr, len),
                len > 0,
                off == self.offset(addr),
                off + len <= self.bytes@.len(),
                i <= len,
                out@ == self.bytes@.subrange(off as int, off + i),
            decreases len - i,
        {
            out.push(self.bytes[off + i]);
            i = i + 1;
            proof {
                assert(out@ =~= self.bytes@.subrange(off as int, off + i));
            }
        }
        Ok(out)
    }

    /// Copy a kernel buffer into user memory at `addr`.
    pub fn copy_to_user(&mut self, addr: usize, data: &[u8]) -> (r: Result<(), Status>)
        ensures
            old(self).range_ok(addr, data@.len() as usize) ==> r is Ok && final(self).base == old(self).base
                && final(self).bytes@ == old(self).written(addr, data@)
                && final(self).bytes@.len() == old(self).bytes@.len(),
            !old(self).range_ok(addr, data@.len() as usize) ==> r == Err::<(), Status>(RX_ERR_INVALID_ARGS)
                && *final(self) == *old(self),
    {
        let len = data.len();
        if !self.check_range(addr, len) {
            return Err(RX_ERR_INVALID_ARGS);
        }
        if len == 0 {
            return Ok(());
        }
        let off = addr - self.base;
        let blen = self.bytes.len();
        let mut i: usize = 0;
        while i < len
            invariant
                blen == self.bytes@.len(),
                len == data@.len(),
                len > 0,
                off == old(self).offset(addr),
                off + len <= old(self).bytes@.len(),
                self.base == old(self).base,
                i <= len,
                self.bytes@.len() == old(self).bytes@.len(),
                forall|k: int| 0 <= k < off ==> self.bytes@[k] == old(self).bytes@[k],
                forall|k: int| 0 <= k < i ==> self.bytes@[off + k] == data@[k],
                forall|k: int| off + i <= k < self.bytes@.len() ==> self.bytes@[k] == old(self).bytes@[k],
            decreases len - i,
        {
            self.bytes.set(off + i, data[i]);
            i = i + 1;
        }
        proof {
            assert(self.bytes@ =~= old(self).written(addr, data@));
        }
        Ok(())
    }

    /// Write the `n` low little-endian bytes of `v` at `addr` (`n` at most 8).
    pub fn write_le(&mut self, addr: usize, v: u64, n: usize) -> (r: Result<(), Status>)
        requires
            n <= 8,
        ensures
            old(self).range_ok(addr, n) ==> r is Ok && final(self).base == old(self).base
                && final(self).bytes@ == old(self).written(addr, le_bytes(v, n as nat))
                && final(self).bytes@.len() == old(self).bytes@.len(),
            !old(self).range_ok(addr, n) ==> r == Err::<(), Status>(RX_ERR_INVALID_ARGS)
                && *final(self) == *old(self),
    {
        let bytes = encode_le(v, n);
        self.copy_to_user(addr, bytes.as_slice())
    }

    /// Store the `n` low little-endian bytes of `v` at `out`, unless `out`
    /// is zero (an optional out-parameter).
    pub fn store_opt(&mut self, out: usize, v: u64, n: usize) -> (r: Result<(), Status>)
        requires
            n <= 8,
        ensures
            final(self).base == old(self).base,
            final(self).bytes@.len() == old(self).bytes@.len(),
            out == 0 ==> r is Ok && *final(self) == *old(self),
            out != 0 && old(self).range_ok(out, n) ==> r is Ok && final(self).bytes@ == stored_le(old(self).bytes@, old(self).base, out, v, n as nat),
            out != 0 && !old(self).range_ok(out, n) ==> r == Err::<(), Status>(RX_ERR_INVALID_ARGS) && *final(self) == *old(self),
    {
        if out == 0 {
            return Ok(());
        }
        self.write_le(out, v, n)
    }

    /// Read `n` bytes at `addr` as a little-endian value (`n` at most 8).
    pub fn read_le(&self, addr: usize, n: usize) -> (r: Result<u64, Status>)
        requires
            n <= 8,
        ensures
            self.range_ok(addr, n) ==> r == Ok::<u64, Status>(le_value(
                if n == 0 { Seq::<u8>::empty() } else { self.bytes_at(addr, n) },
                n as nat,
            )),
            !self.range_ok(addr, n) ==> r == Err::<u64, Status>(RX_ERR_INVALID_ARGS),
    {
        match self.copy_from_user(addr, n) {
            Ok(bytes) => Ok(decode_le(&bytes, n)),
            Err(e) => Err(e),
        }
    }
}

/// The `n` little-endian bytes of `v`.
pub fn encode_le(v: u64, n: usize) -> (out: Vec<u8>)
    requires
        n <= 8,
    ensures
        out@ == le_bytes(v, n as nat),
{
    let mut out: Vec<u8> = Vec::new();
    let mut i: usize = 0;
    while i < n
        invariant
            i <= n,
            n <= 8,
            out@ == le_bytes(v, i as nat),
        decreases n - i,
    {
        out.push(((v >> (8 * i) as u64) & 0xff) as u8);
        i = i + 1;
        proof {
            assert(out@ =~= le_bytes(v, i as nat));
        }
    }
    out
}

/// The little-endian value of the first `n` bytes of `s`.
pub fn decode_le(s: &Vec<u8>, n: usize) -> (v: u64)
    requires
        n <= 8,
        n <= s@.len(),
    ensures
        v == le_value(s@, n as nat),
{
    let mut v: u64 = 0;
    let mut i: usize = 0;
    while i < n
        invariant
            i <= n,
            n <= 8,
            n <= s@.len(),
            v == le_value(s@, i as nat),
        decreases n - i,
    {
        v = v | ((s[i] as u64) << (8 * i) as u64);
        i = i + 1;
    }
    v
}

/// The little-endian value of the `n` bytes of `b` at offset `off`.
pub open spec fn le_field(b: Seq<u8>, off: int, n: nat) -> u64 {
    le_value(b.subrange(off, off + n), n)
}

/// The little-endian value of the `n` bytes of `b` at offset `off`.
pub fn field_at(b: &Vec<u8>, off: usize, n: usize) -> (v: u64)
    requires
        n <= 8,
        off + n <= b@.len(),
    ensures
        v == le_field(b@, off as int, n as nat),
{
    let mut sub: Vec<u8> = Vec::new();
    let mut i: usize = 0;
    while i < n
        invariant
            i <= n,
            off + n <= b.len(),
            sub@ == b@.subrange(off as int, off + i),
        decreases n - i,
    {
        sub.push(b[off + i]);
        i = i + 1;
        proof {
            assert(sub@ =~= b@.subrange(off as int, off + i));
        }
    }
    decode_le(&sub, n)
}

/// The little-endian bytes of each word of `w`, in order.
pub open spec fn le_words(w: Seq<u64>) -> Seq<u8>
    decreases w.len(),
{
    if w.len() == 0 {
        Seq::empty()
    } else {
        le_words(w.drop_last()) + le_bytes(w.last(), 8)
    }
}

/// Append the `n` low little-endian bytes of `v` to `out` (`n` at most 8).
pub fn push_le(out: &mut Vec<u8>, v: u64, n: usize)
    requires
        n <= 8,
    ensures
        final(out)@ == old(out)@ + le_bytes(v, n as nat),
{
    let b = encode_le(v, n);
    let mut i: usize = 0;
    while i < n
        invariant
            i <= n,
            n <= 8,
            b@ == le_bytes(v, n as nat),
            out@ == old(out)@ + b@.subrange(0, i as int),
        decreases n - i,
    {
        out.push(b[i]);
        i = i + 1;
        proof {
            assert(out@ =~= old(out)@ + b@.subrange(0, i as int));
        }
    }
    proof {
        assert(b@.subrange(0, n as int) =~= b@);
    }
}

/// Append the little-endian bytes of each word of `w` to `out`.
pub fn push_words(out: &mut Vec<u8>, w: &[u64])
    ensures
        final(out)@ == old(out)@ + le_words(w@),
{
    let mut i: usize = 0;
    while i < w.len()
        invariant
            i <= w@.len(),
            out@ == old(out)@ + le_words(w@.subrange(0, i as int)),
        decreases w@.len() - i,
    {
        let ghost before = out@;
        push_le(out, w[i], 8);
        proof {
            assert(w@.subrange(0, i as int + 1).drop_last() =~= w@.subrange(0, i as int));
            assert(out@ =~= old(out)@ + le_words(w@.subrange(0, i as int + 1)));
        }
        i = i + 1;
    }
    proof {
        assert(w@.subrange(0, w@.len() as int) =~= w@);
    }
}

/// Reading back what was written: after `data` is written at `addr` inside
/// the window, the bytes at `addr` are `data`, every other byte is as
/// before, and the window keeps its length.
pub proof fn lemma_write_then_read_user(mem: Seq<u8>, base: usize, addr: usize, data: Seq<u8>)
    requires
        base <= addr,
        addr - base + data.len() <= mem.len(),
    ensures
        write_seq(mem, base, addr, data).len() == mem.len(),
        write_seq(mem, base, addr, data).subrange(addr - base, addr - base + data.len()) == data,
        forall|i: int| 0 <= i < mem.len() && !(addr - base <= i < addr - base + data.len())
            ==> #[trigger] write_seq(mem, base, addr, data)[i] == mem[i],
{
    let w = write_seq(mem, base, addr, data);
    assert(w.subrange(addr - base, addr - base + data.len()) =~= data);
}

/// Little-endian encoding is undone by decoding: the 8 bytes of `v` read
/// back as `v`.
pub proof fn lemma_le_round_trip(v: u64)
    ensures
        le_value(le_bytes(v, 8), 8) == v,
{
    let b = le_bytes(v, 8);
    reveal_with_fuel(le_value, 9);
    let b0 = b[0];
    let b1 = b[1];
    let b2 = b[2];
    let b3 = b[3];
    let b4 = b[4];
    let b5 = b[5];
    let b6 = b[6];
    let b7 = b[7];
    assert(b0 == ((v >> 0u64) & 0xff) as u8);
    assert(b1 == ((v >> 8u64) & 0xff) as u8);
    assert(b2 == ((v >> 16u64) & 0xff) as u8);
    assert(b3 == ((v >> 24u64) & 0xff) as u8);
    assert(b4 == ((v >> 32u64) & 0xff) as u8);
    assert(b5 == ((v >> 40u64) & 0xff) as u8);
    assert(b6 == ((v >> 48u64) & 0xff) as u8);
    assert(b7 == ((v >> 56u64) & 0xff) as u8);
    assert(((((((((0u64 | ((b0 as u64) << 0u64)) | ((b1 as u64) << 8u64)) | ((b2 as u64) << 16u64)) | ((b3 as u64) << 24u64))
        | ((b4 as u64) << 32u64)) | ((b5 as u64) << 40u64)) | ((b6 as u64) << 48u64)) | ((b7 as u64) << 56u64)) == v) by (bit_vector)
        requires
            b0 == ((v >> 0u64) & 0xff) as u8,
            b1 == ((v >> 8u64) & 0xff) as u8,
            b2 == ((v >> 16u64) & 0xff) as u8,
            b3 == ((v >> 24u64) & 0xff) as u8,
            b4 == ((v >> 32u64) & 0xff) as u8,
            b5 == ((v >> 40u64) & 0xff) as u8,
            b6 == ((v >> 48u64) & 0xff) as u8,
            b7 == ((v >> 56u64) & 0xff) as u8,
    ;
}

/// The 4 little-endian bytes of a 32-bit value read back as that value.
pub proof fn lemma_le_round_trip_4(v: u64)
    requires
        v <= u32::MAX,
    ensures
        le_value(le_bytes(v, 4), 4) == v,
{
    let b = le_bytes(v, 4);
    reveal_with_fuel(le_value, 5);
    let b0 = b[0];
    let b1 = b[1];
    let b2 = b[2];
    let b3 = b[3];
    assert(b0 == ((v >> 0u64) & 0xff) as u8);
    assert(b1 == ((v >> 8u64) & 0xff) as u8);
    assert(b2 == ((v >> 16u64) & 0xff) as u8);
    assert(b3 == ((v >> 24u64) & 0xff) as u8);
    assert(((((0u64 | ((b0 as u64) << 0u64)) | ((b1 as u64) << 8u64)) | ((b2 as u64) << 16u64)) | ((b3 as u64) << 24u64)) == v) by (bit_vector)
        requires
            v <= 0xffff_ffffu64,
            b0 == ((v >> 0u64) & 0xff) as u8,
            b1 == ((v >> 8u64) & 0xff) as u8,
            b2 == ((v >> 16u64) & 0xff) as u8,
            b3 == ((v >> 24u64) & 0xff) as u8,
    ;
}

} // verus!
