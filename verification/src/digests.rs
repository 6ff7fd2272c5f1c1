//! Names for the results of the outside cryptographic primitives, and the
//! thin trusted wrappers that compute them.
//!
//! Each digest or cipher output is a pure function of its inputs; its value
//! is named by an uninterpreted spec function, and the wrapper that makes the
//! outside call promises exactly that its result carries the name.

use vstd::prelude::*;

verus! {

/// The MD5 digest (16 bytes) of a byte sequence.
pub uninterp spec fn md5_of(data: Seq<u8>) -> Seq<u8>;

/// The SHA-1 digest (20 bytes) of a byte sequence.
pub uninterp spec fn sha1_of(data: Seq<u8>) -> Seq<u8>;

/// The SHA-512 digest (64 bytes) of a byte sequence.
pub uninterp spec fn sha512_of(data: Seq<u8>) -> Seq<u8>;

/// The 256-byte PBKDF2-HMAC-SHA1 output for the given iteration count,
/// salt and secret.
pub uninterp spec fn pbkdf2_sha1_key_of(iterations: u32, salt: Seq<u8>, secret: Seq<u8>) -> Seq<u8>;

/// The 256-byte PBKDF2-HMAC-SHA512 output for the given iteration count,
/// salt and secret.
pub uninterp spec fn pbkdf2_sha512_key_of(iterations: u32, salt: Seq<u8>, secret: Seq<u8>) -> Seq<u8>;

/// The AES-256-IGE encryption of a whole buffer (a multiple of 16 bytes)
/// under a 32-byte key and a 32-byte initialisation vector.
pub uninterp spec fn ige_encrypt_of(plain: Seq<u8>, key: Seq<u8>, iv: Seq<u8>) -> Seq<u8>;

/// The AES-256-IGE decryption of a whole buffer (a multiple of 16 bytes)
/// under a 32-byte key and a 32-byte initialisation vector.
pub uninterp spec fn ige_decrypt_of(cipher: Seq<u8>, key: Seq<u8>, iv: Seq<u8>) -> Seq<u8>;

/// What UTF-16BE decoding makes of a byte sequence: the decoded text, or
/// nothing when the bytes hold a malformed sequence.
pub uninterp spec fn utf16be_decoded(data: Seq<u8>) -> Option<Seq<char>>;

/// Relies on md5::Context (consume, finalize): the MD5 digest of all bytes
/// consumed, in order; the digest is 16 bytes.
#[verifier::external_body]
pub(crate) fn md5_parts(a: &[u8], b: &[u8], c: &[u8], d: &[u8]) -> (r: Vec<u8>)
    ensures
        r@ == md5_of(a@ + b@ + c@ + d@),
        r@.len() == 16,
{
    let mut ctx = md5::Context::new();
    ctx.consume(a);
    ctx.consume(b);
    ctx.consume(c);
    ctx.consume(d);
    ctx.finalize().0.to_vec()
}

/// Relies on ring::digest::Context with SHA1_FOR_LEGACY_USE_ONLY (update,
/// finish): the SHA-1 digest of all bytes fed to it, in order; the digest is
/// 20 bytes. ring fails only on inputs longer than the algorithm's limit,
/// which the length bound keeps far away.
#[verifier::external_body]
pub(crate) fn sha1_parts(a: &[u8], b: &[u8], c: &[u8]) -> (r: Vec<u8>)
    requires
        a@.len() + b@.len() + c@.len() < 0x1000000000000000,
    ensures
        r@ == sha1_of(a@ + b@ + c@),
        r@.len() == 20,
{
    let mut ctx = ring::digest::Context::new(&ring::digest::SHA1_FOR_LEGACY_USE_ONLY);
    ctx.update(a);
    ctx.update(b);
    ctx.update(c);
    ctx.finish().as_ref().to_vec()
}

/// Relies on ring::digest::Context with SHA512 (update, finish): the SHA-512
/// digest of all bytes fed to it, in order; the digest is 64 bytes.
#[verifier::external_body]
pub(crate) fn sha512_parts(a: &[u8], b: &[u8], c: &[u8]) -> (r: Vec<u8>)
    requires
        a@.len() + b@.len() + c@.len() < 0x1000000000000000,
    ensures
        r@ == sha512_of(a@ + b@ + c@),
        r@.len() == 64,
{
    let mut ctx = ring::digest::Context::new(&ring::digest::SHA512);
    ctx.update(a);
    ctx.update(b);
    ctx.update(c);
    ctx.finish().as_ref().to_vec()
}

/// Relies on ring::pbkdf2::derive with PBKDF2_HMAC_SHA1: fills the output
/// (here 256 bytes) with the PBKDF2 stream for the given parameters.
#[verifier::external_body]
pub(crate) fn pbkdf2_sha1_256(iterations: u32, salt: &[u8], secret: &[u8]) -> (r: Vec<u8>)
    requires
        iterations >= 1,
        salt@.len() < 0x1000000000000000,
        secret@.len() < 0x1000000000000000,
    ensures
        r@ == pbkdf2_sha1_key_of(iterations, salt@, secret@),
        r@.len() == 256,
{
    let mut out = vec![0u8; 256];
    let iters = core::num::NonZeroU32::new(iterations).unwrap();
    ring::pbkdf2::derive(ring::pbkdf2::PBKDF2_HMAC_SHA1, iters, salt, secret, &mut out);
    out
}

/// Relies on ring::pbkdf2::derive with PBKDF2_HMAC_SHA512: fills the output
/// (here 256 bytes) with the PBKDF2 stream for the given parameters.
#[verifier::external_body]
pub(crate) fn pbkdf2_sha512_256(iterations: u32, salt: &[u8], secret: &[u8]) -> (r: Vec<u8>)
    requires
        iterations >= 1,
        salt@.len() < 0x1000000000000000,
        secret@.len() < 0x1000000000000000,
    ensures
        r@ == pbkdf2_sha512_key_of(iterations, salt@, secret@),
        r@.len() == 256,
{
    let mut out = vec![0u8; 256];
    let iters = core::num::NonZeroU32::new(iterations).unwrap();
    ring::pbkdf2::derive(ring::pbkdf2::PBKDF2_HMAC_SHA512, iters, salt, secret, &mut out);
    out
}

/// Relies on grammers_crypto::aes::ige_decrypt: AES-256-IGE decryption of the
/// whole buffer; the output is as long as the input. Panics unless the length
/// is a multiple of 16, which the contract requires away.
#[verifier::external_body]
pub(crate) fn aes_ige_decrypt(cipher: &[u8], key: &[u8], iv: &[u8]) -> (r: Vec<u8>)
    requires
        cipher@.len() % 16 == 0,
        key@.len() == 32,
        iv@.len() == 32,
    ensures
        r@ == ige_decrypt_of(cipher@, key@, iv@),
        r@.len() == cipher@.len(),
{
    let key: &[u8; 32] = key.try_into().unwrap();
    let iv: &[u8; 32] = iv.try_into().unwrap();
    grammers_crypto::aes::ige_decrypt(cipher, key, iv)
}

/// Relies on grammers_crypto::aes::ige_encrypt, whose source is the exact
/// block-by-block inverse of ige_decrypt under the same key and iv: both run
/// AES-256 over 16-byte blocks with the two chained xors in mirrored order.
#[verifier::external_body]
pub(crate) fn aes_ige_encrypt(plain: &[u8], key: &[u8], iv: &[u8]) -> (r: Vec<u8>)
    requires
        plain@.len() % 16 == 0,
        key@.len() == 32,
        iv@.len() == 32,
    ensures
        r@ == ige_encrypt_of(plain@, key@, iv@),
        r@.len() == plain@.len(),
        ige_decrypt_of(r@, key@, iv@) == plain@,
{
    let mut buffer = plain.to_vec();
    let key: &[u8; 32] = key.try_into().unwrap();
    let iv: &[u8; 32] = iv.try_into().unwrap();
    grammers_crypto::aes::ige_encrypt(&mut buffer, key, iv);
    buffer
}

/// Relies on encoding_rs::UTF_16BE.decode: the decoded text is a function of
/// the input bytes alone, and the returned flag says whether any malformed
/// sequence had to be replaced.
#[verifier::external_body]
pub(crate) fn utf16be_decode(data: &[u8]) -> (r: Option<String>)
    ensures
        match r {
            Some(s) => utf16be_decoded(data@) == Some(s@),
            None => utf16be_decoded(data@) is None,
        },
{
    let (text, _, had_errors) = encoding_rs::UTF_16BE.decode(data);
    if had_errors {
        None
    } else {
        Some(text.into_owned())
    }
}

/// Relies on String::push from std: appends the given character.
#[verifier::external_body]
pub(crate) fn push_char(s: &mut String, c: char)
    ensures
        final(s)@ == old(s)@.push(c),
{
    s.push(c);
}

} // verus!
