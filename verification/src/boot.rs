//! The boot sequence over byte buffers: the application-wide settings file
//! (legacy key, empty passcode), and the modern key file that yields the
//! session's local key and the account indexes.

use vstd::prelude::*;

use crate::crypto::{modern_iterations, MtpAuthKey};
use crate::digests::{pbkdf2_sha1_key_of, pbkdf2_sha512_key_of, sha512_of};
use crate::encrypted::{spec_decrypt_local, EncryptedDescriptor};
use crate::envelope::{spec_parse_envelope, FileReadDescriptor};
use crate::error::ReadError;
use crate::filekey::FileKey;
use crate::schema::{read_settings_stream, settings_view, spec_read_settings, Setting, SettingV};
use crate::stream::{spec_read_bytes, spec_read_i32_opt, StreamWithEnd};

verus! {

broadcast use crate::stream::lemma_stream_pos_bounds;

/// The legacy key guarding the application-wide settings file: derived from
/// the empty passcode over the file's own salt.
pub open spec fn spec_local_settings_key(salt: Seq<u8>) -> Seq<u8> {
    pbkdf2_sha1_key_of(4, salt, Seq::empty())
}

/// The salt field of the application-wide settings file, when the envelope
/// and the field are readable at all.
pub open spec fn spec_local_storage_salt(file: Seq<u8>) -> Option<Seq<u8>> {
    match spec_parse_envelope(file) {
        Err(_) => None,
        Ok((_v, body)) => match spec_read_bytes(body, 0) {
            None => None,
            Some((salt, _p1)) => Some(salt),
        },
    }
}

/// What reading the application-wide settings file yields: its two byte
/// fields (salt and encrypted settings) with nothing left over, a 32-byte
/// salt, and the settings stream decrypted under the legacy empty-passcode
/// key.
pub open spec fn spec_start_local_storage(file: Seq<u8>) -> Result<Seq<SettingV>, ReadError> {
    match spec_parse_envelope(file) {
        Err(e) => Err(e),
        Ok((_v, body)) => match spec_read_bytes(body, 0) {
            None => Err(ReadError::Io),
            Some((salt, p1)) => match spec_read_bytes(body, p1) {
                None => Err(ReadError::Io),
                Some((settings_encrypted, p2)) => {
                    if p2 != body.len() {
                        Err(ReadError::ExtraneousData)
                    } else if salt.len() != 32 {
                        Err(ReadError::InvalidData)
                    } else {
                        match spec_decrypt_local(
                            settings_encrypted,
                            spec_local_settings_key(salt),
                        ) {
                            Err(e) => Err(e),
                            Ok(trunc) => spec_read_settings(trunc, 4),
                        }
                    }
                },
            },
        },
    }
}

/// Reads the application-wide settings file from its raw bytes and returns
/// the derived legacy key together with the parsed settings stream.
#[verifier::rlimit(100)]
pub fn start_local_storage_data(file_bytes: Vec<u8>) -> (r: Result<
    (MtpAuthKey, Vec<Setting>),
    ReadError,
>)
    requires
        file_bytes@.len() < 0x80000000,
    ensures
        match spec_start_local_storage(file_bytes@) {
            Ok(svs) => r matches Ok((key, settings)) && settings_view(settings@) == svs
                && key.wf() && key@ == spec_local_settings_key(
                spec_local_storage_salt(file_bytes@)->Some_0,
            ),
            Err(e) => r matches Err(e2) && e2 == e,
        },
{
    let mut fd = match FileReadDescriptor::from_bytes(file_bytes) {
        Ok(fd) => fd,
        Err(e) => { return Err(e); },
    };
    let salt = match fd.read_bytes() {
        Ok(v) => v,
        Err(e) => { return Err(e); },
    };
    let settings_encrypted = match fd.read_bytes() {
        Ok(v) => v,
        Err(e) => { return Err(e); },
    };
    match fd.should_be_done() {
        Ok(_) => (),
        Err(e) => { return Err(e); },
    }
    if salt.len() != 32 {
        return Err(ReadError::InvalidData);
    }
    let empty: Vec<u8> = Vec::new();
    let settings_key = MtpAuthKey::create_legacy_local(empty.as_slice(), salt.as_slice());
    let desc = match EncryptedDescriptor::decrypt_local(
        settings_encrypted.as_slice(),
        &settings_key,
    ) {
        Ok(m) => m,
        Err(e) => { return Err(e); },
    };
    let mut stream = desc.into_stream();
    let settings = match read_settings_stream(&mut stream) {
        Ok(v) => v,
        Err(e) => { return Err(e); },
    };
    Ok((settings_key, settings))
}

/// Picks the theme the session shows: the night theme exactly when night
/// mode is set, else the day theme.
pub fn select_theme_key(day: FileKey, night: FileKey, night_mode: bool) -> (r: FileKey)
    ensures
        r == if night_mode {
            night
        } else {
            day
        },
{
    if night_mode {
        night
    } else {
        day
    }
}

/// What reading the account indexes out of the info block yields: each index
/// in order, kept when it lies in range and was not seen before.
pub open spec fn spec_read_indexes(d: Seq<u8>, p: int, n: nat, acc: Seq<i32>) -> Result<
    Seq<i32>,
    ReadError,
>
    decreases n,
{
    if n == 0 {
        Ok(acc)
    } else {
        match spec_read_i32_opt(d, p) {
            None => Err(ReadError::Io),
            Some((idx, q)) => spec_read_indexes(
                d,
                q,
                (n - 1) as nat,
                if 0 <= idx < 3 && !acc.contains(idx) {
                    acc.push(idx)
                } else {
                    acc
                },
            ),
        }
    }
}

/// Whether a sequence of indexes is a duplicate-free subset of `{0, 1, 2}`.
pub open spec fn indexes_wf(s: Seq<i32>) -> bool {
    (forall|i: int| 0 <= i < s.len() ==> 0 <= #[trigger] s[i] < 3) && (forall|i: int, j: int|
        0 <= i < j < s.len() ==> s[i] != s[j])
}

/// Index reading keeps the accumulated list a duplicate-free subset of
/// `{0, 1, 2}`: the guarantee of the boot sequence.
pub proof fn lemma_indexes_wf(d: Seq<u8>, p: int, n: nat, acc: Seq<i32>)
    requires
        indexes_wf(acc),
    ensures
        spec_read_indexes(d, p, n, acc) matches Ok(res) ==> indexes_wf(res),
    decreases n,
{
    if n > 0 {
        match spec_read_i32_opt(d, p) {
            None => {},
            Some((idx, q)) => {
                if 0 <= idx < 3 && !acc.contains(idx) {
                    let pushed = acc.push(idx);
                    assert forall|i: int, j: int| 0 <= i < j < pushed.len() implies pushed[i]
                        != pushed[j] by {
                        if j == pushed.len() - 1 {
                            assert(pushed[j] == idx);
                            assert(!acc.contains(idx));
                            assert(acc[i] != idx);
                        }
                    }
                    lemma_indexes_wf(d, q, (n - 1) as nat, pushed);
                } else {
                    lemma_indexes_wf(d, q, (n - 1) as nat, acc);
                }
            },
        }
    }
}

/// What the whole modern key file yields: the 256-byte local key read from
/// the passcode-encrypted block, and the account indexes read from the
/// info block encrypted under that local key.
pub open spec fn spec_start_modern(file: Seq<u8>, passcode: Seq<u8>) -> Result<
    (Seq<u8>, Seq<i32>),
    ReadError,
> {
    match spec_parse_envelope(file) {
        Err(e) => Err(e),
        Ok((_v, body)) => match spec_read_bytes(body, 0) {
            None => Err(ReadError::Io),
            Some((salt, p1)) => match spec_read_bytes(body, p1) {
                None => Err(ReadError::Io),
                Some((key_encrypted, p2)) => match spec_read_bytes(body, p2) {
                    None => Err(ReadError::Io),
                    Some((info_encrypted, p3)) => {
                        if p3 != body.len() {
                            Err(ReadError::ExtraneousData)
                        } else if salt.len() != 32 {
                            Err(ReadError::InvalidData)
                        } else {
                            let passcode_key = pbkdf2_sha512_key_of(
                                modern_iterations(passcode),
                                salt,
                                sha512_of(salt + passcode + salt),
                            );
                            match spec_decrypt_local(key_encrypted, passcode_key) {
                                Err(e) => Err(e),
                                Ok(key_inner) => {
                                    if key_inner.len() < 260 {
                                        Err(ReadError::Io)
                                    } else if key_inner.len() != 260 {
                                        Err(ReadError::ExtraneousData)
                                    } else {
                                        let local_key = key_inner.subrange(4, 260);
                                        match spec_decrypt_local(info_encrypted, local_key) {
                                            Err(e) => Err(e),
                                            Ok(info) => match spec_read_i32_opt(info, 4) {
                                                None => Err(ReadError::Io),
                                                Some((count, p4)) => {
                                                    if count <= 0 || count > 3 {
                                                        Err(ReadError::InvalidData)
                                                    } else {
                                                        match spec_read_indexes(
                                                            info,
                                                            p4,
                                                            count as nat,
                                                            Seq::empty(),
                                                        ) {
                                                            Err(e) => Err(e),
                                                            Ok(idxs) => Ok(
                                                                (local_key, idxs),
                                                            ),
                                                        }
                                                    }
                                                },
                                            },
                                        }
                                    }
                                },
                            }
                        }
                    },
                },
            },
        },
    }
}

/// Reads the modern key file from its raw bytes: derives the passcode key
/// over the salt, decrypts and extracts the 256-byte local key, then reads
/// the account count and indexes from the info block. The indexes returned
/// are always a duplicate-free subset of `{0, 1, 2}`.
#[verifier::rlimit(100)]
#[verifier::loop_isolation(false)]
pub fn start_modern_data(file_bytes: Vec<u8>, passcode: &[u8]) -> (r: Result<
    (MtpAuthKey, Vec<i32>),
    ReadError,
>)
    requires
        file_bytes@.len() < 0x80000000,
        passcode@.len() < 0x100000000,
    ensures
        match spec_start_modern(file_bytes@, passcode@) {
            Ok((key_bytes, idxs)) => r matches Ok((key, indexes)) && key.wf() && key@ == key_bytes
                && indexes@ == idxs && indexes_wf(indexes@),
            Err(e) => r matches Err(e2) && e2 == e,
        },
{
    let mut fd = match FileReadDescriptor::from_bytes(file_bytes) {
        Ok(fd) => fd,
        Err(e) => { return Err(e); },
    };
    let salt = match fd.read_bytes() {
        Ok(v) => v,
        Err(e) => { return Err(e); },
    };
    let key_encrypted = match fd.read_bytes() {
        Ok(v) => v,
        Err(e) => { return Err(e); },
    };
    let info_encrypted = match fd.read_bytes() {
        Ok(v) => v,
        Err(e) => { return Err(e); },
    };
    match fd.should_be_done() {
        Ok(_) => (),
        Err(e) => { return Err(e); },
    }
    if salt.len() != 32 {
        return Err(ReadError::InvalidData);
    }
    let passcode_key = MtpAuthKey::create_local(passcode, salt.as_slice());
    let key_inner = match EncryptedDescriptor::decrypt_local(
        key_encrypted.as_slice(),
        &passcode_key,
    ) {
        Ok(m) => m,
        Err(e) => { return Err(e); },
    };
    let mut key_stream = key_inner.into_stream();
    let local_key = match MtpAuthKey::from_stream(&mut key_stream) {
        Ok(k) => k,
        Err(e) => { return Err(e); },
    };
    match key_stream.should_be_done() {
        Ok(_) => (),
        Err(e) => { return Err(e); },
    }
    let info = match EncryptedDescriptor::decrypt_local(info_encrypted.as_slice(), &local_key) {
        Ok(m) => m,
        Err(e) => { return Err(e); },
    };
    let mut info_stream = info.into_stream();
    let count = match info_stream.read_i32() {
        Ok(v) => v,
        Err(e) => { return Err(e); },
    };
    if count <= 0 || count > 3 {
        return Err(ReadError::InvalidData);
    }
    let ghost d = info_stream.bytes();
    let ghost p0 = info_stream.pos();
    let mut indexes: Vec<i32> = Vec::new();
    let mut i: i32 = 0;
    while i < count
        invariant
            d == info_stream.bytes(),
            info_stream.wf(),
            0 < count <= 3,
            0 <= i <= count,
            indexes_wf(indexes@),
            spec_read_indexes(d, p0, count as nat, Seq::empty()) == spec_read_indexes(
                d,
                info_stream.pos(),
                (count - i) as nat,
                indexes@,
            ),
        decreases count - i,
    {
        let ghost p_cur = info_stream.pos();
        let ghost acc_before = indexes@;
        let idx = match info_stream.read_i32() {
            Ok(v) => v,
            Err(e) => { return Err(e); },
        };
        if idx >= 0 && idx < 3 && !contains_i32(&indexes, idx) {
            indexes.push(idx);
        }
        i = i + 1;
        proof {
            assert(spec_read_indexes(d, p_cur, (count - i + 1) as nat, acc_before)
                == spec_read_indexes(d, info_stream.pos(), (count - i) as nat, indexes@));
        }
    }
    proof {
        assert(spec_read_indexes(d, info_stream.pos(), 0, indexes@) == Ok::<Seq<i32>, ReadError>(
            indexes@,
        ));
    }
    Ok((local_key, indexes))
}

/// Whether a list of indexes holds the given one.
fn contains_i32(v: &Vec<i32>, x: i32) -> (r: bool)
    ensures
        r == v@.contains(x),
{
    let n = v.len();
    let mut i: usize = 0;
    while i < n
        invariant
            n == v@.len(),
            i <= n,
            forall|j: int| 0 <= j < i ==> v@[j] != x,
        decreases n - i,
    {
        if v[i] == x {
            proof {
                assert(v@.contains(x));
            }
            return true;
        }
        i = i + 1;
    }
    proof {
        assert(!v@.contains(x));
    }
    false
}

} // verus!
