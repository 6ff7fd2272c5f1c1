//! The inner encrypted block: a 16-byte outer key followed by AES-IGE
//! ciphertext, authenticated by comparing the outer key against the first 16
//! bytes of the SHA-1 of the plaintext, and carrying its own little-endian
//! declared length.

use vstd::prelude::*;

use crate::crypto::{aes_decrypt_local, aes_decrypted_local, aes_key_of, aes_iv_of, MtpAuthKey};
use crate::digests::{aes_ige_encrypt, ige_decrypt_of, ige_encrypt_of, sha1_of, sha1_parts};
use crate::error::ReadError;
use crate::stream::{bytes_eq, le_u32_at, spec_read_bytes, u32_le_bytes, u32_to_le_vec,
    StreamWithEnd, ValueStream};

verus! {

broadcast use crate::stream::lemma_stream_pos_bounds;

/// Whether a raw buffer has a shape an encrypted block can have: strictly
/// more than 16 bytes, in whole 16-byte blocks.
pub open spec fn valid_encrypted_size(len: int) -> bool {
    len > 16 && len % 16 == 0
}

/// The plaintext that decrypting an encrypted buffer under `auth` yields
/// (before any check): the part after the 16-byte outer key, decrypted with
/// the receive-direction schedule keyed by that outer key.
pub open spec fn spec_plain_of(encrypted: Seq<u8>, auth: Seq<u8>) -> Seq<u8> {
    aes_decrypted_local(
        encrypted.subrange(16, encrypted.len() as int),
        auth,
        encrypted.subrange(0, 16),
    )
}

/// Whether a declared length is allowed for a plaintext of length `plain_len`:
/// at least the 4-byte prefix, at most the whole plaintext, and close enough
/// to the end that no more than 31 bytes of padding follow.
pub open spec fn valid_declared_len(declared: int, plain_len: int) -> bool {
    declared >= 4 && declared <= plain_len && declared > plain_len - 32
}

/// What opening an encrypted block yields: the plaintext truncated to its
/// declared length (the reader then starts at offset 4), or the exact error
/// that rejects the buffer.
#[verifier::opaque]
pub open spec fn spec_decrypt_local(encrypted: Seq<u8>, auth: Seq<u8>) -> Result<
    Seq<u8>,
    ReadError,
> {
    if !valid_encrypted_size(encrypted.len() as int) {
        Err(ReadError::BadEncryptedSize)
    } else {
        let outer = encrypted.subrange(0, 16);
        let plain = spec_plain_of(encrypted, auth);
        if sha1_of(plain).subrange(0, 16) != outer {
            Err(ReadError::BadDecryptKey)
        } else {
            let declared = le_u32_at(plain, 0);
            if !valid_declared_len(declared as int, plain.len() as int) {
                Err(ReadError::BadDeclaredLen)
            } else {
                Ok(plain.subrange(0, declared as int))
            }
        }
    }
}

/// An opened encrypted block: the authenticated plaintext as a value stream,
/// positioned after the 4-byte length prefix.
pub struct EncryptedDescriptor {
    data: ValueStream,
}

impl EncryptedDescriptor {
    /// The inner stream.
    pub closed spec fn inner(&self) -> ValueStream {
        self.data
    }

    pub open spec fn bytes(&self) -> Seq<u8> {
        self.inner().bytes()
    }

    pub open spec fn pos(&self) -> int {
        self.inner().pos()
    }

    pub open spec fn wf(&self) -> bool {
        self.inner().wf()
    }

    /// Opens an encrypted block: checks the size, strips the outer key,
    /// decrypts, authenticates the SHA-1 prefix, and enforces the declared
    /// length before exposing the plaintext as a stream at offset 4.
    pub fn decrypt_local(encrypted: &[u8], key: &MtpAuthKey) -> (r: Result<Self, ReadError>)
        requires
            key.wf(),
            encrypted@.len() < 0x1000000000000000,
        ensures
            match spec_decrypt_local(encrypted@, key@) {
                Ok(trunc) => {
                    &&& r matches Ok(ed)
                    &&& ed.wf()
                    &&& ed.bytes() == trunc
                    &&& ed.pos() == 4
                },
                Err(e) => r matches Err(e2) && e2 == e,
            },
    {
        proof {
            reveal(spec_decrypt_local);
        }
        let n = encrypted.len();
        if n <= 16 || n % 16 != 0 {
            return Err(ReadError::BadEncryptedSize);
        }
        let outer = vstd::slice::slice_subrange(encrypted, 0, 16);
        let cipher = vstd::slice::slice_subrange(encrypted, 16, n);
        let plain = aes_decrypt_local(cipher, key, outer);
        proof {
            assert(plain@ == spec_plain_of(encrypted@, key@));
        }
        let empty: Vec<u8> = Vec::new();
        let sha = sha1_parts(plain.as_slice(), empty.as_slice(), empty.as_slice());
        proof {
            assert(plain@ + Seq::<u8>::empty() + Seq::<u8>::empty() =~= plain@);
        }
        if !bytes_eq(vstd::slice::slice_subrange(sha.as_slice(), 0, 16), outer) {
            return Err(ReadError::BadDecryptKey);
        }
        let b0 = plain[0] as u32;
        let b1 = plain[1] as u32;
        let b2 = plain[2] as u32;
        let b3 = plain[3] as u32;
        let declared_bits: u32 = b0 + b1 * 0x100 + b2 * 0x10000 + b3 * 0x1000000;
        proof {
            assert(declared_bits == le_u32_at(plain@, 0));
        }
        let declared = declared_bits as usize;
        if declared < 4 || declared > plain.len() || plain.len() - declared >= 32 {
            return Err(ReadError::BadDeclaredLen);
        }
        let mut trunc = plain;
        trunc.truncate(declared);
        Ok(EncryptedDescriptor { data: ValueStream::new_at(trunc, 4) })
    }

    /// Hands out the authenticated plaintext stream.
    pub fn into_stream(self) -> (r: ValueStream)
        ensures
            r == self.inner(),
    {
        self.data
    }

    /// Reads a length-prefixed byte field from the plaintext.
    pub fn read_bytes(&mut self) -> (r: Result<Vec<u8>, ReadError>)
        requires
            old(self).wf(),
        ensures
            final(self).wf(),
            final(self).bytes() == old(self).bytes(),
            ({
                let d = old(self).bytes();
                let p = old(self).pos();
                match spec_read_bytes(d, p) {
                    Some((payload, q)) => {
                        &&& r matches Ok(v) && v@ == payload
                        &&& final(self).pos() == q
                    },
                    None => {
                        &&& r == Err::<Vec<u8>, ReadError>(ReadError::Io)
                        &&& final(self).pos() == p
                    },
                }
            }),
    {
        self.data.read_bytes()
    }
}

impl StreamWithEnd for EncryptedDescriptor {
    open spec fn stream_wf(&self) -> bool {
        self.wf()
    }

    open spec fn stream_done(&self) -> bool {
        self.pos() == self.bytes().len()
    }

    fn is_done(&self) -> (r: bool) {
        self.data.is_done()
    }

    fn should_be_done(&self) -> (r: Result<(), ReadError>) {
        self.data.should_be_done()
    }
}

/// Builds an encrypted block around a payload: a 4-byte little-endian
/// declared length, the payload, zero padding to a whole number of 16-byte
/// blocks (at least one), the SHA-1 prefix as outer key, and the AES-IGE
/// ciphertext. Decrypting the result recovers exactly the declared prefix:
/// together with `decrypt_local` this is the round-trip law of the
/// encryption layer.
pub fn encrypt_local(data: &[u8], key: &MtpAuthKey) -> (r: Vec<u8>)
    requires
        key.wf(),
        data@.len() < 0xFFFFFF00,
    ensures
        ({
            let declared = 4 + data@.len();
            match spec_decrypt_local(r@, key@) {
                Ok(trunc) => trunc == u32_le_bytes(declared as u32) + data@,
                Err(_) => false,
            }
        }),
{
    let declared: usize = 4 + data.len();
    let rem: usize = declared % 16;
    let pad: usize = if rem == 0 {
        0
    } else {
        16 - rem
    };
    let total: usize = declared + pad;
    proof {
        vstd::arithmetic::div_mod::lemma_fundamental_div_mod(declared as int, 16);
        assert(total % 16 == 0) by (nonlinear_arith)
            requires
                total == declared + pad,
                declared == 16 * (declared as int / 16) + rem,
                rem == declared % 16,
                0 <= rem < 16,
                pad == if rem == 0 { 0int } else { 16 - rem },
        ;
        assert(total >= 16);
    }
    let mut plain = u32_to_le_vec(declared as u32);
    let mut payload = vstd::slice::slice_to_vec(data);
    plain.append(&mut payload);
    while plain.len() < total
        invariant
            declared <= plain@.len() <= total,
            plain@.subrange(0, declared as int) == u32_le_bytes(declared as u32) + data@,
            declared == 4 + data@.len(),
            declared <= 0xFFFFFF04,
            total < declared + 16,
        decreases total - plain@.len(),
    {
        let ghost before = plain@;
        plain.push(0);
        proof {
            assert(plain@.subrange(0, declared as int) =~= before.subrange(0, declared as int));
        }
    }
    let empty: Vec<u8> = Vec::new();
    let sha = sha1_parts(plain.as_slice(), empty.as_slice(), empty.as_slice());
    proof {
        assert(plain@ + Seq::<u8>::empty() + Seq::<u8>::empty() =~= plain@);
    }
    let outer = vstd::slice::slice_subrange(sha.as_slice(), 0, 16);
    let (aes_key, aes_iv) = key.prepare_aes_oldmtp(outer, false);
    let cipher = aes_ige_encrypt(plain.as_slice(), aes_key.as_slice(), aes_iv.as_slice());
    let mut out = vstd::slice::slice_to_vec(outer);
    let mut cipher_v = cipher;
    out.append(&mut cipher_v);
    proof {
        let enc = out@;
        assert(enc.subrange(0, 16) =~= sha1_of(plain@).subrange(0, 16));
        assert(enc.subrange(16, enc.len() as int) =~= ige_encrypt_of(
            plain@,
            aes_key_of(key@, sha1_of(plain@).subrange(0, 16), false),
            aes_iv_of(key@, sha1_of(plain@).subrange(0, 16), false),
        ));
        assert(le_u32_at(plain@, 0) == declared as u32) by {
            let prefix = plain@.subrange(0, declared as int);
            assert(prefix[0] == plain@[0]);
            assert(prefix[1] == plain@[1]);
            assert(prefix[2] == plain@[2]);
            assert(prefix[3] == plain@[3]);
            assert(prefix[0] == u32_le_bytes(declared as u32)[0]);
            assert(prefix[1] == u32_le_bytes(declared as u32)[1]);
            assert(prefix[2] == u32_le_bytes(declared as u32)[2]);
            assert(prefix[3] == u32_le_bytes(declared as u32)[3]);
            assert(plain@.subrange(0, 4) =~= u32_le_bytes(declared as u32));
            crate::stream::lemma_le_u32_roundtrip(plain@, 0, declared as u32);
        }
        lemma_encrypt_local_ok(enc, plain@, key@, declared as int, data@);
    }
    out
}

/// A buffer assembled from a well-formed plaintext and its honest SHA-1
/// outer key decrypts back to the declared prefix.
proof fn lemma_encrypt_local_ok(enc: Seq<u8>, plain: Seq<u8>, key: Seq<u8>, declared: int, data: Seq<u8>)
    requires
        enc.len() == 16 + plain.len(),
        plain.len() % 16 == 0,
        plain.len() >= 16,
        enc.subrange(0, 16) == sha1_of(plain).subrange(0, 16),
        enc.subrange(16, enc.len() as int) == ige_encrypt_of(
            plain,
            aes_key_of(key, sha1_of(plain).subrange(0, 16), false),
            aes_iv_of(key, sha1_of(plain).subrange(0, 16), false),
        ),
        ige_decrypt_of(
            enc.subrange(16, enc.len() as int),
            aes_key_of(key, enc.subrange(0, 16), false),
            aes_iv_of(key, enc.subrange(0, 16), false),
        ) == plain,
        0 <= declared < 0x100000000,
        le_u32_at(plain, 0) == declared as u32,
        valid_declared_len(declared, plain.len() as int),
        plain.subrange(0, declared) == u32_le_bytes(declared as u32) + data,
    ensures
        spec_decrypt_local(enc, key) == Ok::<Seq<u8>, ReadError>(
            u32_le_bytes(declared as u32) + data,
        ),
{
    reveal(spec_decrypt_local);
    assert(enc.len() % 16 == 0) by (nonlinear_arith)
        requires
            plain.len() % 16 == 0,
            enc.len() == 16 + plain.len(),
    ;
    assert(valid_encrypted_size(enc.len() as int));
    assert(spec_plain_of(enc, key) == plain);
    assert(sha1_of(spec_plain_of(enc, key)).subrange(0, 16) == enc.subrange(0, 16));
    assert(le_u32_at(spec_plain_of(enc, key), 0) == declared as u32);
    assert(valid_declared_len(le_u32_at(spec_plain_of(enc, key), 0) as int, spec_plain_of(
        enc,
        key,
    ).len() as int));
    assert(spec_plain_of(enc, key).subrange(0, declared) == u32_le_bytes(declared as u32) + data);
    assert(declared as u32 == declared);
}

} // verus!
