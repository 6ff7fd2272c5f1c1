//! The 256-byte authentication key, its two password-derivation regimes, and
//! the legacy SHA-1 key/IV schedule feeding AES-IGE decryption.

use vstd::prelude::*;

use crate::digests::{
    aes_ige_decrypt, ige_decrypt_of, pbkdf2_sha1_256, pbkdf2_sha1_key_of, pbkdf2_sha512_256,
    pbkdf2_sha512_key_of, sha1_of, sha1_parts, sha512_of, sha512_parts,
};
use crate::error::ReadError;
use crate::stream::ValueStream;

verus! {

broadcast use crate::stream::lemma_stream_pos_bounds;

/// The PBKDF2 iteration count of the modern regime: a single round for an
/// empty passcode, the strong count otherwise. The shortcut is intentional
/// and must be preserved.
pub open spec fn modern_iterations(passcode: Seq<u8>) -> u32 {
    if passcode.len() == 0 {
        1
    } else {
        100000
    }
}

/// The PBKDF2 iteration count of the legacy regime.
pub open spec fn legacy_iterations(passcode: Seq<u8>) -> u32 {
    if passcode.len() == 0 {
        4
    } else {
        4000
    }
}

/// The 128-byte slice of the auth key that the schedule draws from:
/// offset 0 for the send direction, offset 8 for receive.
pub open spec fn schedule_data(auth: Seq<u8>, send: bool) -> Seq<u8> {
    if send {
        auth.subrange(0, 128)
    } else {
        auth.subrange(8, 136)
    }
}

/// The 32-byte AES key of the legacy schedule, stitched from three SHA-1
/// digests over the message key and slices of the auth key.
pub open spec fn aes_key_of(auth: Seq<u8>, msg_key: Seq<u8>, send: bool) -> Seq<u8> {
    let d = schedule_data(auth, send);
    let a = sha1_of(msg_key + d.subrange(0, 32));
    let b = sha1_of(d.subrange(32, 48) + msg_key + d.subrange(48, 64));
    let c = sha1_of(d.subrange(64, 96) + msg_key);
    a.subrange(0, 8) + b.subrange(8, 20) + c.subrange(4, 16)
}

/// The 32-byte AES initialisation vector of the legacy schedule.
pub open spec fn aes_iv_of(auth: Seq<u8>, msg_key: Seq<u8>, send: bool) -> Seq<u8> {
    let d = schedule_data(auth, send);
    let a = sha1_of(msg_key + d.subrange(0, 32));
    let b = sha1_of(d.subrange(32, 48) + msg_key + d.subrange(48, 64));
    let c = sha1_of(d.subrange(64, 96) + msg_key);
    let d2 = sha1_of(msg_key + d.subrange(96, 128));
    a.subrange(8, 20) + b.subrange(0, 8) + c.subrange(16, 20) + d2.subrange(0, 8)
}

/// What AES-IGE decryption of `src` under the receive-direction schedule for
/// `msg_key` and `auth` yields.
pub open spec fn aes_decrypted_local(src: Seq<u8>, auth: Seq<u8>, msg_key: Seq<u8>) -> Seq<u8> {
    ige_decrypt_of(src, aes_key_of(auth, msg_key, false), aes_iv_of(auth, msg_key, false))
}

/// A 256-byte symmetric authentication key. Never mutated after derivation;
/// shared by every reader of a session.
#[derive(Clone)]
pub struct MtpAuthKey {
    data: Vec<u8>,
}

impl View for MtpAuthKey {
    type V = Seq<u8>;

    closed spec fn view(&self) -> Seq<u8> {
        self.data@
    }
}

impl MtpAuthKey {
    /// An auth key always holds exactly 256 bytes.
    pub open spec fn wf(&self) -> bool {
        self@.len() == 256
    }

    /// The neutral all-zero key.
    pub fn blank() -> (r: Self)
        ensures
            r.wf(),
            r@ == Seq::new(256, |i: int| 0u8),
    {
        let mut data: Vec<u8> = Vec::new();
        let mut i: usize = 0;
        while i < 256
            invariant
                i <= 256,
                data@ =~= Seq::new(i as nat, |j: int| 0u8),
            decreases 256 - i,
        {
            data.push(0);
            i = i + 1;
        }
        proof {
            assert(data@ =~= Seq::new(256, |i: int| 0u8));
        }
        MtpAuthKey { data }
    }

    /// Derives the modern key: PBKDF2-HMAC-SHA512 over the SHA-512 of
    /// `salt || passcode || salt`, with the strong iteration count unless
    /// the passcode is empty.
    pub fn create_local(passcode: &[u8], salt: &[u8]) -> (r: Self)
        requires
            salt@.len() == 32,
            passcode@.len() < 0x100000000,
        ensures
            r.wf(),
            r@ == pbkdf2_sha512_key_of(
                modern_iterations(passcode@),
                salt@,
                sha512_of(salt@ + passcode@ + salt@),
            ),
    {
        let hash = sha512_parts(salt, passcode, salt);
        let iterations: u32 = if passcode.len() == 0 {
            1
        } else {
            100000
        };
        let key = pbkdf2_sha512_256(iterations, salt, hash.as_slice());
        MtpAuthKey { data: key }
    }

    /// Derives the legacy key: PBKDF2-HMAC-SHA1 directly over the passcode,
    /// with 4 iterations when the passcode is empty and 4000 otherwise.
    pub fn create_legacy_local(passcode: &[u8], salt: &[u8]) -> (r: Self)
        requires
            salt@.len() == 32,
            passcode@.len() < 0x100000000,
        ensures
            r.wf(),
            r@ == pbkdf2_sha1_key_of(legacy_iterations(passcode@), salt@, passcode@),
    {
        let iterations: u32 = if passcode.len() == 0 {
            4
        } else {
            4000
        };
        let key = pbkdf2_sha1_256(iterations, salt, passcode);
        MtpAuthKey { data: key }
    }

    /// Reads a key as 256 raw bytes from a stream.
    pub fn from_stream(stream: &mut ValueStream) -> (r: Result<Self, ReadError>)
        requires
            old(stream).wf(),
        ensures
            final(stream).wf(),
            final(stream).bytes() == old(stream).bytes(),
            ({
                let d = old(stream).bytes();
                let p = old(stream).pos();
                if p + 256 <= d.len() {
                    &&& r matches Ok(k) && k.wf() && k@ == d.subrange(p, p + 256)
                    &&& final(stream).pos() == p + 256
                } else {
                    &&& r == Err::<MtpAuthKey, ReadError>(ReadError::Io)
                    &&& final(stream).pos() == p
                }
            }),
    {
        let ghost d = old(stream).bytes();
        let ghost p = old(stream).pos();
        match stream.read_raw(256) {
            Ok(data) => {
                proof {
                    assert(p + 256 <= d.len());
                    assert(data@ == d.subrange(p, p + 256));
                    assert(data@.len() == 256);
                }
                Ok(MtpAuthKey { data })
            },
            Err(e) => Err(e),
        }
    }

    /// The key material itself, as plain bytes.
    pub fn as_bytes(&self) -> (r: &Vec<u8>)
        ensures
            r@ == self@,
    {
        &self.data
    }

    /// Computes the AES key and IV pair of the legacy schedule for a 16-byte
    /// message key.
    pub fn prepare_aes_oldmtp(&self, msg_key: &[u8], send: bool) -> (r: (Vec<u8>, Vec<u8>))
        requires
            self.wf(),
            msg_key@.len() == 16,
        ensures
            r.0@ == aes_key_of(self@, msg_key@, send),
            r.1@ == aes_iv_of(self@, msg_key@, send),
            r.0@.len() == 32,
            r.1@.len() == 32,
    {
        let offset: usize = if send {
            0
        } else {
            8
        };
        let d = vstd::slice::slice_subrange(self.data.as_slice(), offset, offset + 128);
        proof {
            assert(d@ =~= schedule_data(self@, send));
        }
        let empty: Vec<u8> = Vec::new();
        let a = sha1_parts(
            msg_key,
            vstd::slice::slice_subrange(d, 0, 32),
            empty.as_slice(),
        );
        let b = sha1_parts(
            vstd::slice::slice_subrange(d, 32, 48),
            msg_key,
            vstd::slice::slice_subrange(d, 48, 64),
        );
        let c = sha1_parts(
            vstd::slice::slice_subrange(d, 64, 96),
            msg_key,
            empty.as_slice(),
        );
        let d2 = sha1_parts(
            msg_key,
            vstd::slice::slice_subrange(d, 96, 128),
            empty.as_slice(),
        );
        proof {
            let dd = schedule_data(self@, send);
            assert(msg_key@ + dd.subrange(0, 32) + Seq::<u8>::empty() =~= msg_key@ + dd.subrange(
                0,
                32,
            ));
            assert(dd.subrange(64, 96) + msg_key@ + Seq::<u8>::empty() =~= dd.subrange(64, 96)
                + msg_key@);
            assert(msg_key@ + dd.subrange(96, 128) + Seq::<u8>::empty() =~= msg_key@ + dd.subrange(
                96,
                128,
            ));
        }
        let mut aes_key = vstd::slice::slice_to_vec(vstd::slice::slice_subrange(a.as_slice(), 0, 8));
        let mut t1 = vstd::slice::slice_to_vec(vstd::slice::slice_subrange(b.as_slice(), 8, 20));
        aes_key.append(&mut t1);
        let mut t2 = vstd::slice::slice_to_vec(vstd::slice::slice_subrange(c.as_slice(), 4, 16));
        aes_key.append(&mut t2);
        let mut aes_iv = vstd::slice::slice_to_vec(vstd::slice::slice_subrange(a.as_slice(), 8, 20));
        let mut t3 = vstd::slice::slice_to_vec(vstd::slice::slice_subrange(b.as_slice(), 0, 8));
        aes_iv.append(&mut t3);
        let mut t4 = vstd::slice::slice_to_vec(vstd::slice::slice_subrange(c.as_slice(), 16, 20));
        aes_iv.append(&mut t4);
        let mut t5 = vstd::slice::slice_to_vec(vstd::slice::slice_subrange(d2.as_slice(), 0, 8));
        aes_iv.append(&mut t5);
        proof {
            assert(aes_key@ =~= aes_key_of(self@, msg_key@, send));
            assert(aes_iv@ =~= aes_iv_of(self@, msg_key@, send));
        }
        (aes_key, aes_iv)
    }
}

/// Decrypts a buffer with the receive-direction schedule for the given
/// 16-byte outer key, as every encrypted block of the storage does.
pub fn aes_decrypt_local(src: &[u8], key: &MtpAuthKey, key128: &[u8]) -> (r: Vec<u8>)
    requires
        key.wf(),
        key128@.len() == 16,
        src@.len() % 16 == 0,
    ensures
        r@ == aes_decrypted_local(src@, key@, key128@),
        r@.len() == src@.len(),
{
    let (aes_key, aes_iv) = key.prepare_aes_oldmtp(key128, false);
    aes_ige_decrypt(src, aes_key.as_slice(), aes_iv.as_slice())
}

} // verus!
