//! The outer file envelope: `TDF$` magic, a little-endian version, the body,
//! and a 16-byte MD5 trailer over `body || len(body):i32le || version:i32le ||
//! magic`.

use vstd::prelude::*;

use crate::digests::{md5_of, md5_parts};
use crate::error::ReadError;
use crate::stream::{
    bytes_eq, i32_le_bytes, i32_of_bits, le_u32_at, lemma_i32_bits_roundtrip,
    lemma_le_u32_roundtrip, spec_read_bytes, u32_le_bytes, u32_to_i32, u32_to_le_vec, bits_of_i32,
    StreamWithEnd, ValueStream,
};

verus! {

/// The four magic bytes `T`, `D`, `F`, `$`.
pub open spec fn magic_seq() -> Seq<u8> {
    seq![0x54u8, 0x44u8, 0x46u8, 0x24u8]
}

/// The preimage of the envelope's MD5 trailer.
pub open spec fn envelope_md5_preimage(version: i32, body: Seq<u8>) -> Seq<u8> {
    body + u32_le_bytes(body.len() as u32) + i32_le_bytes(version) + magic_seq()
}

/// The full byte rendering of an envelope with the given version and body.
pub open spec fn envelope_enc(version: i32, body: Seq<u8>) -> Seq<u8> {
    magic_seq() + i32_le_bytes(version) + body + md5_of(envelope_md5_preimage(version, body))
}

/// What parsing an envelope from raw bytes yields: the version and the body,
/// or the error that rejects the bytes.
#[verifier::opaque]
pub open spec fn spec_parse_envelope(bytes: Seq<u8>) -> Result<(i32, Seq<u8>), ReadError> {
    if bytes.len() < 4 {
        Err(ReadError::Io)
    } else if bytes.subrange(0, 4) != magic_seq() {
        Err(ReadError::BadMagic)
    } else if bytes.len() < 24 {
        Err(ReadError::Io)
    } else {
        let version = i32_of_bits(le_u32_at(bytes, 4));
        let body = bytes.subrange(8, bytes.len() - 16);
        let trailer = bytes.subrange(bytes.len() - 16, bytes.len() as int);
        if trailer == md5_of(envelope_md5_preimage(version, body)) {
            Ok((version, body))
        } else {
            Err(ReadError::BadSignature)
        }
    }
}

/// An opened envelope: its version and its body as a value stream.
pub struct FileReadDescriptor {
    version: i32,
    data: ValueStream,
}

impl FileReadDescriptor {
    /// The version stored in the envelope header.
    pub closed spec fn spec_version(&self) -> i32 {
        self.version
    }

    /// The body bytes the envelope carries.
    pub closed spec fn bytes(&self) -> Seq<u8> {
        self.data.bytes()
    }

    /// The current read position within the body.
    pub closed spec fn pos(&self) -> int {
        self.data.pos()
    }

    pub closed spec fn wf(&self) -> bool {
        self.data.wf()
    }

    pub fn version(&self) -> (v: i32)
        ensures
            v == self.spec_version(),
    {
        self.version
    }

    /// Opens an envelope from the raw bytes of a storage file: checks the
    /// magic, splits off the version and the MD5 trailer, and verifies the
    /// trailer over the body before exposing it.
    pub fn from_bytes(bytes: Vec<u8>) -> (r: Result<Self, ReadError>)
        requires
            bytes@.len() < 0x80000000,
        ensures
            match spec_parse_envelope(bytes@) {
                Ok((v, body)) => {
                    &&& r matches Ok(fd)
                    &&& fd.wf()
                    &&& fd.spec_version() == v
                    &&& fd.bytes() == body
                    &&& fd.pos() == 0
                },
                Err(e) => r matches Err(e2) && e2 == e,
            },
    {
        proof {
            reveal(spec_parse_envelope);
        }
        let n = bytes.len();
        if n < 4 {
            return Err(ReadError::Io);
        }
        if !(bytes[0] == 0x54 && bytes[1] == 0x44 && bytes[2] == 0x46 && bytes[3] == 0x24) {
            proof {
                assert(bytes@.subrange(0, 4)[0] == bytes@[0]);
                assert(bytes@.subrange(0, 4)[1] == bytes@[1]);
                assert(bytes@.subrange(0, 4)[2] == bytes@[2]);
                assert(bytes@.subrange(0, 4)[3] == bytes@[3]);
            }
            return Err(ReadError::BadMagic);
        }
        proof {
            assert(bytes@.subrange(0, 4) =~= magic_seq());
        }
        if n < 24 {
            return Err(ReadError::Io);
        }
        let b4 = bytes[4] as u32;
        let b5 = bytes[5] as u32;
        let b6 = bytes[6] as u32;
        let b7 = bytes[7] as u32;
        let version_bits: u32 = b4 + b5 * 0x100 + b6 * 0x10000 + b7 * 0x1000000;
        let version = u32_to_i32(version_bits);
        proof {
            assert(version_bits == le_u32_at(bytes@, 4));
            lemma_i32_bits_roundtrip(version_bits);
        }
        let body_slice = vstd::slice::slice_subrange(bytes.as_slice(), 8, n - 16);
        let body_len: u32 = (n - 24) as u32;
        let len_le = u32_to_le_vec(body_len);
        let ver_le = u32_to_le_vec(version_bits);
        let mut magic: Vec<u8> = Vec::new();
        magic.push(0x54);
        magic.push(0x44);
        magic.push(0x46);
        magic.push(0x24);
        proof {
            assert(magic@ =~= magic_seq());
        }
        let digest = md5_parts(body_slice, len_le.as_slice(), ver_le.as_slice(), magic.as_slice());
        let ghost body_seq = bytes@.subrange(8, bytes@.len() - 16);
        proof {
            assert(body_slice@ =~= body_seq);
            assert(body_seq.len() == n - 24);
            assert(body_seq + u32_le_bytes(body_len) + u32_le_bytes(version_bits) + magic_seq()
                =~= envelope_md5_preimage(version, body_seq));
            assert(digest@ == md5_of(envelope_md5_preimage(version, body_seq)));
        }
        let trailer = vstd::slice::slice_subrange(bytes.as_slice(), n - 16, n);
        if !bytes_eq(digest.as_slice(), trailer) {
            proof {
                assert(trailer@ =~= bytes@.subrange(bytes@.len() - 16, bytes@.len() as int));
            }
            return Err(ReadError::BadSignature);
        }
        proof {
            assert(trailer@ =~= bytes@.subrange(bytes@.len() - 16, bytes@.len() as int));
        }
        let body = vstd::slice::slice_to_vec(body_slice);
        Ok(FileReadDescriptor { version, data: ValueStream::new(body) })
    }

    /// Rebuilds the byte rendering of an envelope around a body. Opening the
    /// result recovers exactly the version and the body: together with
    /// `from_bytes` this is the round-trip law of the envelope layer.
    pub fn repack(version: i32, body: &[u8]) -> (r: Vec<u8>)
        requires
            body@.len() < 0x7FFFFF00,
        ensures
            r@ == envelope_enc(version, body@),
            spec_parse_envelope(r@) == Ok::<(i32, Seq<u8>), ReadError>((version, body@)),
    {
        let mut out: Vec<u8> = Vec::new();
        out.push(0x54);
        out.push(0x44);
        out.push(0x46);
        out.push(0x24);
        let ghost magic_done = out@;
        proof {
            assert(magic_done =~= magic_seq());
        }
        let version_bits = i32_to_bits_exec(version);
        let mut ver_le = u32_to_le_vec(version_bits);
        out.append(&mut ver_le);
        let mut body_copy = vstd::slice::slice_to_vec(body);
        out.append(&mut body_copy);
        let len_le = u32_to_le_vec(body.len() as u32);
        let ver_le2 = u32_to_le_vec(version_bits);
        let mut magic: Vec<u8> = Vec::new();
        magic.push(0x54);
        magic.push(0x44);
        magic.push(0x46);
        magic.push(0x24);
        proof {
            assert(magic@ =~= magic_seq());
        }
        let mut digest = md5_parts(body, len_le.as_slice(), ver_le2.as_slice(), magic.as_slice());
        proof {
            assert(body@ + u32_le_bytes(body@.len() as u32) + i32_le_bytes(version) + magic_seq()
                =~= envelope_md5_preimage(version, body@));
        }
        let ghost digest_seq = digest@;
        out.append(&mut digest);
        proof {
            assert(out@ =~= envelope_enc(version, body@));
            lemma_parse_of_enc(version, body@, digest_seq);
        }
        out
    }
}

impl FileReadDescriptor {
    /// Hands out the body as a value stream, giving up the descriptor.
    pub fn into_stream(self) -> (r: ValueStream)
        ensures
            r.wf() == self.wf(),
            r.bytes() == self.bytes(),
            r.pos() == self.pos(),
    {
        self.data
    }
}

impl StreamWithEnd for FileReadDescriptor {
    open spec fn stream_wf(&self) -> bool {
        self.wf()
    }

    open spec fn stream_done(&self) -> bool {
        self.pos() == self.bytes().len()
    }

    fn is_done(&self) -> (r: bool) {
        self.data.is_done()
    }

    fn should_be_done(&self) -> (r: Result<(), ReadError>) {
        self.data.should_be_done()
    }
}

impl FileReadDescriptor {
    /// Reads a length-prefixed byte field from the body.
    pub fn read_bytes(&mut self) -> (r: Result<Vec<u8>, ReadError>)
        requires
            old(self).wf(),
        ensures
            final(self).wf(),
            final(self).bytes() == old(self).bytes(),
            final(self).spec_version() == old(self).spec_version(),
            ({
                let d = old(self).bytes();
                let p = old(self).pos();
                match spec_read_bytes(d, p) {
                    Some((payload, q)) => {
                        &&& r matches Ok(v) && v@ == payload
                        &&& final(self).pos() == q
                    },
                    None => {
                        &&& r == Err::<Vec<u8>, ReadError>(ReadError::Io)
                        &&& final(self).pos() == p
                    },
                }
            }),
    {
        self.data.read_bytes()
    }
}

/// The exec two's-complement bit pattern of an `i32`.
pub fn i32_to_bits_exec(v: i32) -> (r: u32)
    ensures
        r == bits_of_i32(v),
{
    if v >= 0 {
        v as u32
    } else {
        0xFFFFFFFFu32 - ((-(v + 1)) as u32)
    }
}

/// Tampering with the MD5 trailer of a valid envelope, while leaving the
/// rest of the bytes alone, is always caught as `BadSignature`. (A flip in
/// the body or the version changes the digest preimage instead; that case is
/// checked by tests, since nothing can be proved about distinct digests.)
pub proof fn lemma_trailer_tamper_fails(bytes: Seq<u8>, tampered: Seq<u8>)
    requires
        spec_parse_envelope(bytes) is Ok,
        tampered.len() == bytes.len(),
        tampered.subrange(0, bytes.len() - 16) == bytes.subrange(0, bytes.len() - 16),
        tampered.subrange(bytes.len() - 16, bytes.len() as int) != bytes.subrange(
            bytes.len() - 16,
            bytes.len() as int,
        ),
    ensures
        spec_parse_envelope(tampered) == Err::<(i32, Seq<u8>), ReadError>(ReadError::BadSignature),
{
    reveal(spec_parse_envelope);
    let n = bytes.len();
    assert(n >= 24);
    assert forall|i: int| 0 <= i < n - 16 implies tampered[i] == bytes[i] by {
        assert(tampered.subrange(0, n - 16)[i] == tampered[i]);
        assert(bytes.subrange(0, n - 16)[i] == bytes[i]);
    }
    assert(tampered.subrange(0, 4) =~= bytes.subrange(0, 4));
    assert(tampered.subrange(8, n - 16) =~= bytes.subrange(8, n - 16));
    assert(le_u32_at(tampered, 4) == le_u32_at(bytes, 4));
    let version = i32_of_bits(le_u32_at(bytes, 4));
    let body = bytes.subrange(8, n - 16);
    assert(bytes.subrange(n - 16, n as int) == md5_of(envelope_md5_preimage(version, body)));
}

/// Opening the rendering of an envelope recovers the version and the body.
proof fn lemma_parse_of_enc(version: i32, body: Seq<u8>, digest: Seq<u8>)
    requires
        body.len() < 0x7FFFFF00,
        digest == md5_of(envelope_md5_preimage(version, body)),
        digest.len() == 16,
    ensures
        spec_parse_envelope(envelope_enc(version, body)) == Ok::<(i32, Seq<u8>), ReadError>(
            (version, body),
        ),
{
    reveal(spec_parse_envelope);
    let enc = envelope_enc(version, body);
    assert(enc.len() == 4 + 4 + body.len() + 16);
    assert(enc.subrange(0, 4) =~= magic_seq());
    assert(enc.subrange(4, 8) =~= u32_le_bytes(bits_of_i32(version)));
    lemma_le_u32_roundtrip(enc, 4, bits_of_i32(version));
    assert(i32_of_bits(bits_of_i32(version)) == version);
    assert(enc.subrange(8, enc.len() - 16) =~= body);
    assert(enc.subrange(enc.len() - 16, enc.len() as int) =~= digest);
}

} // verus!
