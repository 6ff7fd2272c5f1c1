//! Profile and account naming, and the per-account storage reader with its
//! one-shot state machine: an account starts with the session key, then has
//! its map read, then its settings; re-entering any step is a fatal error.

use vstd::prelude::*;
use vstd::string::StringExecFns;
use vstd::string::StrSliceExecFns;

use crate::crypto::MtpAuthKey;
use crate::digests::push_char;
use crate::encrypted::{spec_decrypt_local, EncryptedDescriptor};
use crate::envelope::{spec_parse_envelope, FileReadDescriptor};
use crate::error::ReadError;
use crate::filekey::FileKey;
use crate::map::{read_map_stream, spec_read_map, StorageKeys};
use crate::schema::{read_settings_stream, spec_read_settings, Setting, SettingV};
use crate::stream::spec_read_bytes;

verus! {

broadcast use crate::stream::lemma_stream_pos_bounds;

/// The default logical profile name.
pub fn c_data_file() -> (r: &'static str)
    ensures
        r@ == "data"@,
{
    "data"
}

/// The name of the key file for a profile: `key_` followed by the profile
/// name.
pub fn compute_key_name(data_name: &str) -> (r: String)
    ensures
        r@ == "key_"@ + data_name@,
{
    let mut result = String::from_str("key_");
    result.append(data_name);
    result
}

/// `s` with every `#` removed.
pub open spec fn strip_hash(s: Seq<char>) -> Seq<char>
    decreases s.len(),
{
    if s.len() == 0 {
        Seq::empty()
    } else {
        strip_hash(s.drop_last()) + (if s.last() == '#' {
            Seq::empty()
        } else {
            seq![s.last()]
        })
    }
}

/// The decimal digits of `n`, most significant first.
pub open spec fn dec_digits(n: nat) -> Seq<char>
    decreases n,
{
    if n < 10 {
        seq![(((n + 48) as u8) as char)]
    } else {
        dec_digits(n / 10) + seq![((((n % 10) + 48) as u8) as char)]
    }
}

/// The data string of account `index` in a profile: the profile name with
/// `#` stripped, and `#` plus the one-based index appended for any account
/// after the first.
pub open spec fn spec_compose_data_string(name: Seq<char>, index: i32) -> Seq<char> {
    if index > 0 {
        strip_hash(name) + seq!['#'] + dec_digits((index + 1) as nat)
    } else {
        strip_hash(name)
    }
}

/// Appends the decimal rendering of `v`.
fn push_decimal(out: &mut String, v: u32)
    ensures
        final(out)@ == old(out)@ + dec_digits(v as nat),
    decreases v,
{
    if v < 10 {
        push_char(out, (48 + v as u8) as char);
        proof {
            assert(old(out)@ + dec_digits(v as nat) =~= old(out)@.push(
                (((v + 48) as u8) as char),
            ));
        }
    } else {
        push_decimal(out, v / 10);
        push_char(out, (48 + (v % 10) as u8) as char);
        proof {
            assert(out@ =~= old(out)@ + dec_digits(v as nat));
        }
    }
}

/// Composes the account data string.
pub fn compose_data_string(data_name: &str, index: i32) -> (r: String)
    requires
        index < 0x7FFFFFFF,
    ensures
        r@ == spec_compose_data_string(data_name@, index),
{
    let n = data_name.unicode_len();
    let mut result = String::new();
    let mut i: usize = 0;
    while i < n
        invariant
            n == data_name@.len(),
            i <= n,
            result@ == strip_hash(data_name@.take(i as int)),
        decreases n - i,
    {
        let c = data_name.get_char(i);
        if c != '#' {
            push_char(&mut result, c);
        }
        i = i + 1;
        proof {
            let prefix = data_name@.take(i as int);
            assert(prefix.drop_last() =~= data_name@.take(i - 1));
            assert(prefix.last() == c);
            if c != '#' {
                assert(result@ =~= strip_hash(prefix));
            } else {
                assert(result@ =~= strip_hash(prefix));
            }
        }
    }
    proof {
        assert(data_name@.take(n as int) =~= data_name@);
    }
    if index > 0 {
        push_char(&mut result, '#');
        push_decimal(&mut result, (index + 1) as u32);
        proof {
            assert(result@ =~= spec_compose_data_string(data_name@, index));
        }
    }
    result
}

/// Whether a byte survives key-file-name sanitisation: ASCII letters,
/// digits, backslash, dash and underscore.
pub open spec fn keep_key_byte(b: u8) -> bool {
    (65 <= b <= 90) || (97 <= b <= 122) || (48 <= b <= 57) || b == 92 || b == 45 || b == 95
}

/// The byte lowercased where it is an ASCII capital.
pub open spec fn lower_key_byte(b: u8) -> u8 {
    if 65 <= b <= 90 {
        (b + 32) as u8
    } else {
        b
    }
}

/// The sanitised key-file name of a raw byte string.
pub open spec fn spec_sanitize_key_file(s: Seq<u8>) -> Seq<char>
    decreases s.len(),
{
    if s.len() == 0 {
        Seq::empty()
    } else {
        spec_sanitize_key_file(s.drop_last()) + (if keep_key_byte(s.last()) {
            seq![(lower_key_byte(s.last()) as char)]
        } else {
            Seq::empty()
        })
    }
}

/// Sanitises a user-supplied key-file name: only ASCII letters, digits,
/// backslash, dash and underscore survive, lowercased.
pub fn sanitize_key_file(input: &[u8]) -> (r: String)
    ensures
        r@ == spec_sanitize_key_file(input@),
{
    let mut result = String::new();
    let n = input.len();
    let mut i: usize = 0;
    while i < n
        invariant
            n == input@.len(),
            i <= n,
            result@ == spec_sanitize_key_file(input@.take(i as int)),
        decreases n - i,
    {
        let b = input[i];
        let keep = (b >= 65 && b <= 90) || (b >= 97 && b <= 122) || (b >= 48 && b <= 57) || b == 92
            || b == 45 || b == 95;
        if keep {
            let lowered = if b >= 65 && b <= 90 {
                b + 32
            } else {
                b
            };
            push_char(&mut result, lowered as char);
        }
        i = i + 1;
        proof {
            let prefix = input@.take(i as int);
            assert(prefix.drop_last() =~= input@.take(i - 1));
            assert(prefix.last() == b);
            assert(result@ =~= spec_sanitize_key_file(prefix));
        }
    }
    proof {
        assert(input@.take(n as int) =~= input@);
    }
    result
}

/// Where an account stands in its one-shot boot sequence.
#[derive(Debug, Copy, Clone, PartialEq, Eq, Structural)]
pub enum AccountState {
    New,
    Started,
    MapRead,
    SettingsRead,
}

/// What reading a whole account map file (envelope, three byte fields, a
/// decrypted record stream) yields: the retained settings key.
pub open spec fn spec_read_account_map(file: Seq<u8>, key: Seq<u8>) -> Result<u64, ReadError> {
    match spec_parse_envelope(file) {
        Err(e) => Err(e),
        Ok((_v, body)) => match spec_read_bytes(body, 0) {
            None => Err(ReadError::Io),
            Some((_legacy_salt, p1)) => match spec_read_bytes(body, p1) {
                None => Err(ReadError::Io),
                Some((_legacy_key, p2)) => match spec_read_bytes(body, p2) {
                    None => Err(ReadError::Io),
                    Some((map_encrypted, p3)) => {
                        if p3 != body.len() {
                            Err(ReadError::ExtraneousData)
                        } else {
                            match spec_decrypt_local(map_encrypted, key) {
                                Err(e) => Err(e),
                                Ok(trunc) => spec_read_map(trunc, 4, 0),
                            }
                        }
                    },
                },
            },
        },
    }
}

/// What reading an account's settings file yields: the envelope's single
/// encrypted byte field, decrypted and parsed as a settings stream.
pub open spec fn spec_read_session_settings(file: Seq<u8>, key: Seq<u8>) -> Result<
    Seq<SettingV>,
    ReadError,
> {
    match spec_parse_envelope(file) {
        Err(e) => Err(e),
        Ok((_v, body)) => match spec_read_bytes(body, 0) {
            None => Err(ReadError::Io),
            Some((settings_encrypted, _p1)) => match spec_decrypt_local(settings_encrypted, key) {
                Err(e) => Err(e),
                Ok(trunc) => spec_read_settings(trunc, 4),
            },
        },
    }
}

/// The storage reader of one account.
pub struct StorageAccount {
    pub local_key: MtpAuthKey,
    pub data_name_key: FileKey,
    pub data_name: String,
    pub keys: StorageKeys,
    pub state: AccountState,
}

impl StorageAccount {
    /// Sets an account up around its data string; nothing is read yet. The
    /// directory key is the file key of the data string itself.
    pub fn new(data_name: String) -> (r: Self)
        ensures
            r.data_name@ == data_name@,
            r.data_name_key == FileKey(
                crate::stream::le_u64_at(
                    crate::digests::md5_of(vstd::utf8::encode_utf8(data_name@)),
                    0,
                ),
            ),
            r.state == AccountState::New,
            r.keys == (StorageKeys { settings: FileKey(0) }),
            r.local_key.wf(),
    {
        let data_name_key = FileKey::compute(data_name.as_str());
        StorageAccount {
            local_key: MtpAuthKey::blank(),
            data_name_key,
            data_name,
            keys: StorageKeys { settings: FileKey(0) },
            state: AccountState::New,
        }
    }

    /// Hands the account the session's local key. One-shot: starting twice
    /// is a fatal error.
    pub fn start(&mut self, local_key: MtpAuthKey) -> (r: Result<(), ReadError>)
        requires
            local_key.wf(),
        ensures
            old(self).state == AccountState::New ==> r == Ok::<(), ReadError>(())
                && final(self).state == AccountState::Started && final(self).local_key == local_key
                && final(self).keys == old(self).keys && final(self).data_name
                == old(self).data_name && final(self).data_name_key == old(self).data_name_key,
            old(self).state != AccountState::New ==> r == Err::<(), ReadError>(
                ReadError::InvalidData,
            ) && *final(self) == *old(self),
    {
        match self.state {
            AccountState::New => {
                self.local_key = local_key;
                self.state = AccountState::Started;
                Ok(())
            },
            _ => Err(ReadError::InvalidData),
        }
    }

    /// Reads the account map from the raw bytes of its `map` file: the
    /// envelope's three byte fields, the last decrypted with the session key
    /// and consumed as a record stream. One-shot after `start`.
    #[verifier::rlimit(100)]
    pub fn read_map_data(&mut self, file_bytes: Vec<u8>) -> (r: Result<(), ReadError>)
        requires
            old(self).local_key.wf(),
            file_bytes@.len() < 0x80000000,
        ensures
            final(self).local_key == old(self).local_key,
            final(self).data_name == old(self).data_name,
            final(self).data_name_key == old(self).data_name_key,
            old(self).state != AccountState::Started ==> r == Err::<(), ReadError>(
                ReadError::InvalidData,
            ) && *final(self) == *old(self),
            old(self).state == AccountState::Started ==> match spec_read_account_map(
                file_bytes@,
                old(self).local_key@,
            ) {
                Ok(k) => {
                    &&& r == Ok::<(), ReadError>(())
                    &&& final(self).state == AccountState::MapRead
                    &&& final(self).keys.settings == FileKey(k)
                },
                Err(e) => r == Err::<(), ReadError>(e) && final(self).state == old(self).state
                    && final(self).keys == old(self).keys,
            },
    {
        match self.state {
            AccountState::Started => (),
            _ => {
                return Err(ReadError::InvalidData);
            },
        }
        let mut map_data = match FileReadDescriptor::from_bytes(file_bytes) {
            Ok(fd) => fd,
            Err(e) => {
                return Err(e);
            },
        };
        let _legacy_salt = match map_data.read_bytes() {
            Ok(v) => v,
            Err(e) => {
                return Err(e);
            },
        };
        let _legacy_key_encrypted = match map_data.read_bytes() {
            Ok(v) => v,
            Err(e) => {
                return Err(e);
            },
        };
        let map_encrypted = match map_data.read_bytes() {
            Ok(v) => v,
            Err(e) => {
                return Err(e);
            },
        };
        match crate::stream::StreamWithEnd::should_be_done(&map_data) {
            Ok(_) => (),
            Err(e) => {
                return Err(e);
            },
        }
        let map = match EncryptedDescriptor::decrypt_local(map_encrypted.as_slice(), &self.local_key)
        {
            Ok(m) => m,
            Err(e) => {
                return Err(e);
            },
        };
        let mut stream = map.into_stream();
        let keys = match read_map_stream(&mut stream) {
            Ok(k) => k,
            Err(e) => {
                return Err(e);
            },
        };
        self.keys = keys;
        self.state = AccountState::MapRead;
        Ok(())
    }

    /// Reads the account's settings file (located under the key retained by
    /// the map): its single encrypted byte field, decrypted and parsed as a
    /// settings stream. One-shot after the map.
    #[verifier::rlimit(100)]
    pub fn read_session_settings_data(&mut self, file_bytes: Vec<u8>) -> (r: Result<
        Vec<Setting>,
        ReadError,
    >)
        requires
            old(self).local_key.wf(),
            file_bytes@.len() < 0x80000000,
        ensures
            final(self).local_key == old(self).local_key,
            final(self).keys == old(self).keys,
            final(self).data_name == old(self).data_name,
            final(self).data_name_key == old(self).data_name_key,
            old(self).state != AccountState::MapRead ==> r == Err::<Vec<Setting>, ReadError>(
                ReadError::InvalidData,
            ) && *final(self) == *old(self),
            old(self).state == AccountState::MapRead ==> match spec_read_session_settings(
                file_bytes@,
                old(self).local_key@,
            ) {
                Ok(svs) => {
                    &&& r matches Ok(v) && crate::schema::settings_view(v@) == svs
                    &&& final(self).state == AccountState::SettingsRead
                },
                Err(e) => r matches Err(e2) && e2 == e && final(self).state == old(self).state,
            },
    {
        match self.state {
            AccountState::MapRead => (),
            _ => {
                return Err(ReadError::InvalidData);
            },
        }
        let mut fd = match FileReadDescriptor::from_bytes(file_bytes) {
            Ok(fd) => fd,
            Err(e) => {
                return Err(e);
            },
        };
        let settings_encrypted = match fd.read_bytes() {
            Ok(v) => v,
            Err(e) => {
                return Err(e);
            },
        };
        let desc = match EncryptedDescriptor::decrypt_local(
            settings_encrypted.as_slice(),
            &self.local_key,
        ) {
            Ok(m) => m,
            Err(e) => {
                return Err(e);
            },
        };
        let mut stream = desc.into_stream();
        let settings = match read_settings_stream(&mut stream) {
            Ok(v) => v,
            Err(e) => {
                return Err(e);
            },
        };
        self.state = AccountState::SettingsRead;
        Ok(settings)
    }
}

/// One logical account of the profile: its composed data string and its
/// storage reader.
pub struct MainAccount {
    pub data_name: String,
    pub index: i32,
    pub local: StorageAccount,
}

impl MainAccount {
    /// Builds the account for `index` of the named profile. The storage's
    /// directory key is the file key of the composed data string.
    pub fn new(data_name: &str, index: i32) -> (r: Self)
        requires
            0 <= index < 0x7FFFFFFF,
        ensures
            r.data_name@ == data_name@,
            r.index == index,
            r.local.state == AccountState::New,
            r.local.data_name@ == spec_compose_data_string(data_name@, index),
            r.local.data_name_key == FileKey(
                crate::stream::le_u64_at(
                    crate::digests::md5_of(
                        vstd::utf8::encode_utf8(spec_compose_data_string(data_name@, index)),
                    ),
                    0,
                ),
            ),
            r.local.local_key.wf(),
    {
        let composed = compose_data_string(data_name, index);
        MainAccount {
            data_name: String::from_str(data_name),
            index,
            local: StorageAccount::new(composed),
        }
    }

    /// Hands the session key to the account's storage. One-shot, like the
    /// transition it forwards to: the key is stored, everything else stays.
    pub fn prepare_to_start(&mut self, local_key: MtpAuthKey) -> (r: Result<(), ReadError>)
        requires
            local_key.wf(),
        ensures
            old(self).local.state == AccountState::New ==> r == Ok::<(), ReadError>(()),
            old(self).local.state == AccountState::New ==> final(self).local.state
                == AccountState::Started,
            old(self).local.state == AccountState::New ==> final(self).local.local_key
                == local_key,
            old(self).local.state == AccountState::New ==> final(self).local.keys
                == old(self).local.keys,
            old(self).local.state == AccountState::New ==> final(self).local.data_name
                == old(self).local.data_name,
            old(self).local.state == AccountState::New ==> final(self).local.data_name_key
                == old(self).local.data_name_key,
            old(self).local.state == AccountState::New ==> final(self).data_name
                == old(self).data_name,
            old(self).local.state == AccountState::New ==> final(self).index == old(self).index,
            old(self).local.state != AccountState::New ==> r == Err::<(), ReadError>(
                ReadError::InvalidData,
            ) && *final(self) == *old(self),
    {
        self.local.start(local_key)
    }
}

} // verus!
