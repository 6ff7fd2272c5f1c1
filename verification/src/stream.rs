//! The typed value stream: a seekable cursor over a byte buffer with the
//! closed primitive set of the storage format.
//!
//! Integers inside a stream are big-endian; the declared lengths of the
//! envelope and of encrypted blocks are little-endian. That asymmetry is
//! historical but load-bearing, and it is centralised here.

use vstd::prelude::*;

use crate::digests::{utf16be_decode, utf16be_decoded};
use crate::error::ReadError;

verus! {

/// The big-endian 16-bit value stored at offset `p`.
pub open spec fn be_u16_at(d: Seq<u8>, p: int) -> u16 {
    (d[p] * 0x100 + d[p + 1]) as u16
}

/// The big-endian 32-bit value stored at offset `p`.
pub open spec fn be_u32_at(d: Seq<u8>, p: int) -> u32 {
    (d[p] * 0x1000000 + d[p + 1] * 0x10000 + d[p + 2] * 0x100 + d[p + 3]) as u32
}

/// The big-endian 64-bit value stored at offset `p`.
pub open spec fn be_u64_at(d: Seq<u8>, p: int) -> u64 {
    (be_u32_at(d, p) * 0x100000000 + be_u32_at(d, p + 4)) as u64
}

/// The signed value carried by the 32-bit two's-complement pattern `u`.
pub open spec fn i32_of_bits(u: u32) -> i32 {
    if u < 0x80000000 {
        u as i32
    } else {
        (u - 0x100000000) as i32
    }
}

/// The 32-bit two's-complement pattern of the signed value `v`.
pub open spec fn bits_of_i32(v: i32) -> u32 {
    if v >= 0 {
        v as u32
    } else {
        (v + 0x100000000) as u32
    }
}

/// The signed value carried by the 64-bit two's-complement pattern `u`.
pub open spec fn i64_of_bits(u: u64) -> i64 {
    if u < 0x8000000000000000 {
        u as i64
    } else {
        (u - 0x10000000000000000) as i64
    }
}

/// The big-endian 32-bit signed value stored at offset `p`.
pub open spec fn be_i32_at(d: Seq<u8>, p: int) -> i32 {
    i32_of_bits(be_u32_at(d, p))
}

/// The big-endian 64-bit signed value stored at offset `p`.
pub open spec fn be_i64_at(d: Seq<u8>, p: int) -> i64 {
    i64_of_bits(be_u64_at(d, p))
}

/// The little-endian 32-bit value stored at offset `p`.
pub open spec fn le_u32_at(d: Seq<u8>, p: int) -> u32 {
    (d[p] + d[p + 1] * 0x100 + d[p + 2] * 0x10000 + d[p + 3] * 0x1000000) as u32
}

/// The little-endian 64-bit value stored at offset `p`.
pub open spec fn le_u64_at(d: Seq<u8>, p: int) -> u64 {
    (le_u32_at(d, p) + le_u32_at(d, p + 4) * 0x100000000) as u64
}

/// The four little-endian bytes of a 32-bit value.
pub open spec fn u32_le_bytes(v: u32) -> Seq<u8> {
    seq![
        (v % 0x100) as u8,
        ((v / 0x100) % 0x100) as u8,
        ((v / 0x10000) % 0x100) as u8,
        ((v / 0x1000000) % 0x100) as u8,
    ]
}

/// The four little-endian bytes of a 32-bit signed value, two's complement.
pub open spec fn i32_le_bytes(v: i32) -> Seq<u8> {
    u32_le_bytes(bits_of_i32(v))
}

/// What reading a big-endian `u16` at offset `p` yields.
pub open spec fn spec_read_u16_opt(d: Seq<u8>, p: int) -> Option<(u16, int)> {
    if p + 2 <= d.len() {
        Some((be_u16_at(d, p), p + 2))
    } else {
        None
    }
}

/// What reading a big-endian `u32` at offset `p` yields.
pub open spec fn spec_read_u32_opt(d: Seq<u8>, p: int) -> Option<(u32, int)> {
    if p + 4 <= d.len() {
        Some((be_u32_at(d, p), p + 4))
    } else {
        None
    }
}

/// What reading a big-endian `u64` at offset `p` yields.
pub open spec fn spec_read_u64_opt(d: Seq<u8>, p: int) -> Option<(u64, int)> {
    if p + 8 <= d.len() {
        Some((be_u64_at(d, p), p + 8))
    } else {
        None
    }
}

/// What reading a big-endian `i32` at offset `p` yields.
pub open spec fn spec_read_i32_opt(d: Seq<u8>, p: int) -> Option<(i32, int)> {
    if p + 4 <= d.len() {
        Some((be_i32_at(d, p), p + 4))
    } else {
        None
    }
}

/// What reading a big-endian `i64` at offset `p` yields.
pub open spec fn spec_read_i64_opt(d: Seq<u8>, p: int) -> Option<(i64, int)> {
    if p + 8 <= d.len() {
        Some((be_i64_at(d, p), p + 8))
    } else {
        None
    }
}

/// What reading a length-prefixed byte field at offset `p` yields: the
/// payload and the position after it, or nothing when the buffer is too
/// short. A length of `0` and a length of `0xFFFFFFFF` both yield an empty
/// payload (a historical quirk of the format).
pub open spec fn spec_read_bytes(d: Seq<u8>, p: int) -> Option<(Seq<u8>, int)> {
    if p + 4 > d.len() {
        None
    } else {
        let n = be_u32_at(d, p);
        if n == 0 || n == 0xFFFFFFFFu32 {
            Some((Seq::empty(), p + 4))
        } else if p + 4 + n > d.len() {
            None
        } else {
            Some((d.subrange(p + 4, p + 4 + n), p + 4 + n))
        }
    }
}

/// What reading a UTF-16BE string at offset `p` yields: missing bytes are an
/// I/O failure, a malformed sequence is an `InvalidData` failure.
pub open spec fn spec_read_string_res(d: Seq<u8>, p: int) -> Result<(Seq<char>, int), ReadError> {
    match spec_read_bytes(d, p) {
        None => Err(ReadError::Io),
        Some((payload, q)) => match utf16be_decoded(payload) {
            None => Err(ReadError::InvalidData),
            Some(t) => Ok((t, q)),
        },
    }
}

/// A seekable typed view over a byte buffer.
pub struct ValueStream {
    data: Vec<u8>,
    pos: usize,
}

impl ValueStream {
    /// The underlying bytes.
    pub closed spec fn bytes(&self) -> Seq<u8> {
        self.data@
    }

    /// The current read position.
    pub closed spec fn pos(&self) -> int {
        self.pos as int
    }

    /// The position never passes the end of the buffer.
    pub closed spec fn wf(&self) -> bool {
        self.pos <= self.data@.len()
    }

    pub fn new(data: Vec<u8>) -> (s: Self)
        ensures
            s.wf(),
            s.bytes() == data@,
            s.pos() == 0,
    {
        ValueStream { data, pos: 0 }
    }

    pub fn new_at(data: Vec<u8>, pos: usize) -> (s: Self)
        requires
            pos <= data@.len(),
        ensures
            s.wf(),
            s.bytes() == data@,
            s.pos() == pos,
    {
        ValueStream { data, pos }
    }

    /// The current read position, as a count of consumed bytes.
    pub fn position(&self) -> (r: usize)
        ensures
            r == self.pos(),
    {
        self.pos
    }

    /// Whether the whole buffer has been consumed.
    pub fn is_done(&self) -> (r: bool)
        requires
            self.wf(),
        ensures
            r == (self.pos() == self.bytes().len()),
    {
        self.pos == self.data.len()
    }

    /// Fails with `ExtraneousData` when bytes remain past the position.
    pub fn should_be_done(&self) -> (r: Result<(), ReadError>)
        requires
            self.wf(),
        ensures
            r == if self.pos() == self.bytes().len() {
                Ok::<(), ReadError>(())
            } else {
                Err::<(), ReadError>(ReadError::ExtraneousData)
            },
    {
        if self.pos == self.data.len() {
            Ok(())
        } else {
            Err(ReadError::ExtraneousData)
        }
    }

    /// Reads exactly `n` raw bytes, advancing by `n`.
    pub fn read_raw(&mut self, n: usize) -> (r: Result<Vec<u8>, ReadError>)
        requires
            old(self).wf(),
        ensures
            final(self).wf(),
            final(self).bytes() == old(self).bytes(),
            ({
                let d = old(self).bytes();
                let p = old(self).pos();
                if p + n <= d.len() {
                    &&& r matches Ok(v) && v@ == d.subrange(p, p + n)
                    &&& final(self).pos() == p + n
                } else {
                    &&& r == Err::<Vec<u8>, ReadError>(ReadError::Io)
                    &&& final(self).pos() == p
                }
            }),
    {
        if self.data.len() - self.pos < n {
            return Err(ReadError::Io);
        }
        let out = vstd::slice::slice_to_vec(
            vstd::slice::slice_subrange(self.data.as_slice(), self.pos, self.pos + n),
        );
        self.pos = self.pos + n;
        Ok(out)
    }

    /// Reads a big-endian `u32`, advancing by 4.
    pub fn read_u32(&mut self) -> (r: Result<u32, ReadError>)
        requires
            old(self).wf(),
        ensures
            final(self).wf(),
            final(self).bytes() == old(self).bytes(),
            ({
                let d = old(self).bytes();
                let p = old(self).pos();
                if p + 4 <= d.len() {
                    r == Ok::<u32, ReadError>(be_u32_at(d, p)) && final(self).pos() == p + 4
                } else {
                    r == Err::<u32, ReadError>(ReadError::Io) && final(self).pos() == p
                }
            }),
    {
        if self.data.len() - self.pos < 4 {
            return Err(ReadError::Io);
        }
        let b0 = self.data[self.pos] as u32;
        let b1 = self.data[self.pos + 1] as u32;
        let b2 = self.data[self.pos + 2] as u32;
        let b3 = self.data[self.pos + 3] as u32;
        self.pos = self.pos + 4;
        Ok(b0 * 0x1000000 + b1 * 0x10000 + b2 * 0x100 + b3)
    }

    /// Reads a big-endian `u16`, advancing by 2.
    pub fn read_u16(&mut self) -> (r: Result<u16, ReadError>)
        requires
            old(self).wf(),
        ensures
            final(self).wf(),
            final(self).bytes() == old(self).bytes(),
            ({
                let d = old(self).bytes();
                let p = old(self).pos();
                if p + 2 <= d.len() {
                    r == Ok::<u16, ReadError>(be_u16_at(d, p)) && final(self).pos() == p + 2
                } else {
                    r == Err::<u16, ReadError>(ReadError::Io) && final(self).pos() == p
                }
            }),
    {
        if self.data.len() - self.pos < 2 {
            return Err(ReadError::Io);
        }
        let b0 = self.data[self.pos] as u16;
        let b1 = self.data[self.pos + 1] as u16;
        self.pos = self.pos + 2;
        Ok(b0 * 0x100 + b1)
    }

    /// Reads a big-endian `u64`, advancing by 8.
    pub fn read_u64(&mut self) -> (r: Result<u64, ReadError>)
        requires
            old(self).wf(),
        ensures
            final(self).wf(),
            final(self).bytes() == old(self).bytes(),
            ({
                let d = old(self).bytes();
                let p = old(self).pos();
                if p + 8 <= d.len() {
                    r == Ok::<u64, ReadError>(be_u64_at(d, p)) && final(self).pos() == p + 8
                } else {
                    r == Err::<u64, ReadError>(ReadError::Io) && final(self).pos() == p
                }
            }),
    {
        if self.data.len() - self.pos < 8 {
            return Err(ReadError::Io);
        }
        let hi = match self.read_u32() {
            Ok(v) => v,
            Err(e) => { return Err(e); },
        };
        let lo = match self.read_u32() {
            Ok(v) => v,
            Err(e) => { return Err(e); },
        };
        Ok((hi as u64) * 0x100000000 + lo as u64)
    }

    /// Reads a big-endian `i32`, advancing by 4.
    pub fn read_i32(&mut self) -> (r: Result<i32, ReadError>)
        requires
            old(self).wf(),
        ensures
            final(self).wf(),
            final(self).bytes() == old(self).bytes(),
            ({
                let d = old(self).bytes();
                let p = old(self).pos();
                if p + 4 <= d.len() {
                    r == Ok::<i32, ReadError>(be_i32_at(d, p)) && final(self).pos() == p + 4
                } else {
                    r == Err::<i32, ReadError>(ReadError::Io) && final(self).pos() == p
                }
            }),
    {
        match self.read_u32() {
            Ok(u) => Ok(u32_to_i32(u)),
            Err(e) => Err(e),
        }
    }

    /// Reads a big-endian `i64`, advancing by 8.
    pub fn read_i64(&mut self) -> (r: Result<i64, ReadError>)
        requires
            old(self).wf(),
        ensures
            final(self).wf(),
            final(self).bytes() == old(self).bytes(),
            ({
                let d = old(self).bytes();
                let p = old(self).pos();
                if p + 8 <= d.len() {
                    r == Ok::<i64, ReadError>(be_i64_at(d, p)) && final(self).pos() == p + 8
                } else {
                    r == Err::<i64, ReadError>(ReadError::Io) && final(self).pos() == p
                }
            }),
    {
        match self.read_u64() {
            Ok(u) => Ok(u64_to_i64(u)),
            Err(e) => Err(e),
        }
    }

    /// Reads a length-prefixed byte field, observing the empty quirk for
    /// length `0` and length `0xFFFFFFFF`.
    pub fn read_bytes(&mut self) -> (r: Result<Vec<u8>, ReadError>)
        requires
            old(self).wf(),
        ensures
            final(self).wf(),
            final(self).bytes() == old(self).bytes(),
            ({
                let d = old(self).bytes();
                let p = old(self).pos();
                match spec_read_bytes(d, p) {
                    Some((payload, q)) => {
                        &&& r matches Ok(v) && v@ == payload
                        &&& final(self).pos() == q
                    },
                    None => {
                        &&& r == Err::<Vec<u8>, ReadError>(ReadError::Io)
                        &&& final(self).pos() == p
                    },
                }
            }),
    {
        let start = self.pos;
        let n = match self.read_u32() {
            Ok(v) => v,
            Err(e) => { return Err(e); },
        };
        if n == 0 || n == 0xFFFFFFFFu32 {
            return Ok(Vec::new());
        }
        let n = n as usize;
        if self.data.len() - self.pos < n {
            self.pos = start;
            return Err(ReadError::Io);
        }
        let out = vstd::slice::slice_to_vec(
            vstd::slice::slice_subrange(self.data.as_slice(), self.pos, self.pos + n),
        );
        self.pos = self.pos + n;
        Ok(out)
    }

    /// Reads a byte field for its side effect on the position alone.
    pub fn skip_bytes(&mut self) -> (r: Result<(), ReadError>)
        requires
            old(self).wf(),
        ensures
            final(self).wf(),
            final(self).bytes() == old(self).bytes(),
            ({
                let d = old(self).bytes();
                let p = old(self).pos();
                match spec_read_bytes(d, p) {
                    Some((payload, q)) => r == Ok::<(), ReadError>(())
                        && final(self).pos() == q,
                    None => r == Err::<(), ReadError>(ReadError::Io)
                        && final(self).pos() == p,
                }
            }),
    {
        match self.read_bytes() {
            Ok(_) => Ok(()),
            Err(e) => Err(e),
        }
    }

    /// Reads a byte field and decodes it as UTF-16BE text; any malformed
    /// sequence is a hard `InvalidData` error.
    pub fn read_string(&mut self) -> (r: Result<String, ReadError>)
        requires
            old(self).wf(),
        ensures
            final(self).wf(),
            final(self).bytes() == old(self).bytes(),
            ({
                let d = old(self).bytes();
                let p = old(self).pos();
                match spec_read_bytes(d, p) {
                    Some((payload, q)) => {
                        &&& final(self).pos() == q
                        &&& match utf16be_decoded(payload) {
                            Some(t) => r matches Ok(s) && s@ == t,
                            None => r == Err::<String, ReadError>(ReadError::InvalidData),
                        }
                    },
                    None => {
                        &&& r == Err::<String, ReadError>(ReadError::Io)
                        &&& final(self).pos() == p
                    },
                }
            }),
    {
        let payload = match self.read_bytes() {
            Ok(v) => v,
            Err(e) => { return Err(e); },
        };
        match utf16be_decode(payload.as_slice()) {
            Some(s) => Ok(s),
            None => Err(ReadError::InvalidData),
        }
    }
}

/// The position of a stream is never negative, and a well-formed stream
/// never stands past its end.
pub broadcast proof fn lemma_stream_pos_bounds(s: ValueStream)
    ensures
        #[trigger] s.pos() >= 0,
        s.wf() ==> s.pos() <= s.bytes().len(),
{
}

/// A stream that knows its end: the envelope-backed and the encrypted-backed
/// descriptors both offer this capability set.
pub trait StreamWithEnd {
    /// The descriptor's internal invariant.
    spec fn stream_wf(&self) -> bool;

    /// Whether the position stands at the end of the data.
    spec fn stream_done(&self) -> bool;

    /// Whether the whole stream has been consumed.
    fn is_done(&self) -> (r: bool)
        requires
            self.stream_wf(),
        ensures
            r == self.stream_done(),
    ;

    /// Fails with `ExtraneousData` when bytes remain.
    fn should_be_done(&self) -> (r: Result<(), ReadError>)
        requires
            self.stream_wf(),
        ensures
            r == if self.stream_done() {
                Ok::<(), ReadError>(())
            } else {
                Err::<(), ReadError>(ReadError::ExtraneousData)
            },
    ;
}

/// Byte-for-byte equality of two slices.
pub fn bytes_eq(a: &[u8], b: &[u8]) -> (r: bool)
    ensures
        r == (a@ == b@),
{
    if a.len() != b.len() {
        proof {
            assert(a@.len() != b@.len());
        }
        return false;
    }
    let n = a.len();
    let mut i: usize = 0;
    while i < n
        invariant
            n == a@.len(),
            n == b@.len(),
            i <= n,
            forall|j: int| 0 <= j < i ==> a@[j] == b@[j],
        decreases n - i,
    {
        if a[i] != b[i] {
            proof {
                assert(a@[i as int] != b@[i as int]);
            }
            return false;
        }
        i = i + 1;
    }
    proof {
        assert(a@ =~= b@);
    }
    true
}

/// Renders a 32-bit value as its four little-endian bytes.
pub fn u32_to_le_vec(v: u32) -> (r: Vec<u8>)
    ensures
        r@ == u32_le_bytes(v),
{
    let mut out: Vec<u8> = Vec::new();
    out.push((v % 0x100) as u8);
    out.push(((v / 0x100) % 0x100) as u8);
    out.push(((v / 0x10000) % 0x100) as u8);
    out.push(((v / 0x1000000) % 0x100) as u8);
    proof {
        assert(out@ =~= u32_le_bytes(v));
    }
    out
}

/// The little-endian rendering of a 32-bit value reads back as that value.
pub proof fn lemma_le_u32_roundtrip(d: Seq<u8>, p: int, v: u32)
    requires
        0 <= p,
        p + 4 <= d.len(),
        d.subrange(p, p + 4) == u32_le_bytes(v),
    ensures
        le_u32_at(d, p) == v,
{
    assert(d[p] == u32_le_bytes(v)[0]);
    assert(d[p + 1] == u32_le_bytes(v)[1]);
    assert(d[p + 2] == u32_le_bytes(v)[2]);
    assert(d[p + 3] == u32_le_bytes(v)[3]);
    assert((v % 0x100) + ((v / 0x100) % 0x100) * 0x100 + ((v / 0x10000) % 0x100) * 0x10000 + ((v
        / 0x1000000) % 0x100) * 0x1000000 == v) by (bit_vector);
}

/// Two's-complement reinterpretation inverts itself on 32-bit patterns.
pub proof fn lemma_i32_bits_roundtrip(u: u32)
    ensures
        bits_of_i32(i32_of_bits(u)) == u,
{
}

/// A length-prefixed byte field, as a value of its own.
pub struct Bytes(pub Vec<u8>);

impl Bytes {
    /// Reads one byte field, observing the empty quirk.
    pub fn read_from(stream: &mut ValueStream) -> (r: Result<Bytes, ReadError>)
        requires
            old(stream).wf(),
        ensures
            final(stream).wf(),
            final(stream).bytes() == old(stream).bytes(),
            ({
                let d = old(stream).bytes();
                let p = old(stream).pos();
                match spec_read_bytes(d, p) {
                    Some((payload, q)) => {
                        &&& r matches Ok(b) && b.0@ == payload
                        &&& final(stream).pos() == q
                    },
                    None => {
                        &&& r matches Err(e) && e == ReadError::Io
                        &&& final(stream).pos() == p
                    },
                }
            }),
    {
        match stream.read_bytes() {
            Ok(v) => Ok(Bytes(v)),
            Err(e) => Err(e),
        }
    }
}

/// Reinterprets a 32-bit pattern as its two's-complement signed value.
pub fn u32_to_i32(u: u32) -> (r: i32)
    ensures
        r == i32_of_bits(u),
{
    if u < 0x80000000 {
        u as i32
    } else {
        -((0xFFFFFFFFu32 - u) as i32) - 1
    }
}

/// Reinterprets a 64-bit pattern as its two's-complement signed value.
pub fn u64_to_i64(u: u64) -> (r: i64)
    ensures
        r == i64_of_bits(u),
{
    if u < 0x8000000000000000 {
        u as i64
    } else {
        -((0xFFFFFFFFFFFFFFFFu64 - u) as i64) - 1
    }
}

} // verus!
