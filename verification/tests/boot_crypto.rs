//! Tests of the key derivation, the encrypted block layer, the theme reader
//! and the boot sequence, against the real cryptographic crates.

use tdata_reader::account::{AccountState, MainAccount, StorageAccount};
use tdata_reader::boot::{start_local_storage_data, start_modern_data};
use tdata_reader::crypto::MtpAuthKey;
use tdata_reader::encrypted::{encrypt_local, EncryptedDescriptor};
use tdata_reader::envelope::FileReadDescriptor;
use tdata_reader::error::ReadError;
use tdata_reader::filekey::FileKey;
use tdata_reader::stream::{StreamWithEnd, ValueStream};
use tdata_reader::theme::{check_theme_file_size, read_theme_finish, read_theme_head, theme_file_size_ok, ThemeHead};

fn be_bytes_field(payload: &[u8]) -> Vec<u8> {
    let mut out = Vec::new();
    out.extend_from_slice(&(payload.len() as u32).to_be_bytes());
    out.extend_from_slice(payload);
    out
}

fn utf16be_string_field(text: &str) -> Vec<u8> {
    let mut payload = Vec::new();
    for unit in text.encode_utf16() {
        payload.extend_from_slice(&unit.to_be_bytes());
    }
    be_bytes_field(&payload)
}

#[test]
fn legacy_kdf_empty_passcode_reference() {
    // passcode "", salt of 32 zero bytes: 4 iterations of PBKDF2-HMAC-SHA1.
    let salt = [0u8; 32];
    let key = MtpAuthKey::create_legacy_local(b"", &salt);
    let mut expected = vec![0u8; 256];
    ring::pbkdf2::derive(
        ring::pbkdf2::PBKDF2_HMAC_SHA1,
        core::num::NonZeroU32::new(4).unwrap(),
        &salt,
        b"",
        &mut expected,
    );
    assert_eq!(key.as_bytes(), &expected);
}

#[test]
fn legacy_kdf_nonempty_passcode_reference() {
    let salt = [7u8; 32];
    let key = MtpAuthKey::create_legacy_local(b"pw", &salt);
    let mut expected = vec![0u8; 256];
    ring::pbkdf2::derive(
        ring::pbkdf2::PBKDF2_HMAC_SHA1,
        core::num::NonZeroU32::new(4000).unwrap(),
        &salt,
        b"pw",
        &mut expected,
    );
    assert_eq!(key.as_bytes(), &expected);
}

#[test]
fn modern_kdf_reference() {
    let salt = [3u8; 32];
    for (passcode, iterations) in [(&b""[..], 1u32), (&b"secret"[..], 100_000)] {
        let key = MtpAuthKey::create_local(passcode, &salt);
        let mut preimage = Vec::new();
        preimage.extend_from_slice(&salt);
        preimage.extend_from_slice(passcode);
        preimage.extend_from_slice(&salt);
        let hash = ring::digest::digest(&ring::digest::SHA512, &preimage);
        let mut expected = vec![0u8; 256];
        ring::pbkdf2::derive(
            ring::pbkdf2::PBKDF2_HMAC_SHA512,
            core::num::NonZeroU32::new(iterations).unwrap(),
            &salt,
            hash.as_ref(),
            &mut expected,
        );
        assert_eq!(key.as_bytes(), &expected);
    }
}

#[test]
fn encrypt_decrypt_roundtrip() {
    let salt = [9u8; 32];
    let key = MtpAuthKey::create_legacy_local(b"", &salt);
    let data = [0xA5u8, 1, 2, 3, 4, 5, 6, 7, 8, 9, 10];
    let encrypted = encrypt_local(&data, &key);
    let desc = EncryptedDescriptor::decrypt_local(&encrypted, &key).expect("decrypts");
    let mut stream = desc.into_stream();
    assert_eq!(stream.read_raw(data.len()).unwrap(), data.to_vec());
    assert!(stream.is_done());
}

#[test]
fn decrypt_wrong_key_fails() {
    let salt = [9u8; 32];
    let key = MtpAuthKey::create_legacy_local(b"", &salt);
    let other = MtpAuthKey::create_legacy_local(b"x", &salt);
    let encrypted = encrypt_local(&[1, 2, 3], &key);
    assert!(matches!(
        EncryptedDescriptor::decrypt_local(&encrypted, &other),
        Err(ReadError::BadDecryptKey)
    ));
}

#[test]
fn encrypted_size_boundaries() {
    let key = MtpAuthKey::blank();
    // Exactly 16 bytes, and any length not a multiple of 16, are rejected
    // before any cryptography happens.
    assert!(matches!(
        EncryptedDescriptor::decrypt_local(&[0u8; 16], &key),
        Err(ReadError::BadEncryptedSize)
    ));
    assert!(matches!(
        EncryptedDescriptor::decrypt_local(&[0u8; 17], &key),
        Err(ReadError::BadEncryptedSize)
    ));
    assert!(matches!(
        EncryptedDescriptor::decrypt_local(&[0u8; 40], &key),
        Err(ReadError::BadEncryptedSize)
    ));
    // A well-sized buffer of garbage fails the SHA-1 authentication instead.
    assert!(matches!(
        EncryptedDescriptor::decrypt_local(&[0u8; 32], &key),
        Err(ReadError::BadDecryptKey)
    ));
}

/// Builds an encrypted block whose plaintext declares the given length.
fn build_block_with_declared(declared: u32, plain_len: usize, key: &MtpAuthKey) -> Vec<u8> {
    let mut plain = vec![0u8; plain_len];
    plain[..4].copy_from_slice(&declared.to_le_bytes());
    for (i, b) in plain.iter_mut().enumerate().skip(4) {
        *b = i as u8;
    }
    let sha = ring::digest::digest(&ring::digest::SHA1_FOR_LEGACY_USE_ONLY, &plain);
    let outer: [u8; 16] = sha.as_ref()[..16].try_into().unwrap();
    let (aes_key, aes_iv) = key.prepare_aes_oldmtp(&outer, false);
    let mut cipher = plain.clone();
    grammers_crypto::aes::ige_encrypt(
        &mut cipher,
        aes_key.as_slice().try_into().unwrap(),
        aes_iv.as_slice().try_into().unwrap(),
    );
    let mut out = outer.to_vec();
    out.extend_from_slice(&cipher);
    out
}

#[test]
fn declared_len_boundaries() {
    let salt = [1u8; 32];
    let key = MtpAuthKey::create_legacy_local(b"", &salt);
    // declared == 4 (with a minimal plaintext), == plainLen, and
    // == plainLen - 31 all pass.
    for (declared, plain_len) in [(4u32, 16usize), (48, 48), (17, 48)] {
        let block = build_block_with_declared(declared, plain_len, &key);
        assert!(
            EncryptedDescriptor::decrypt_local(&block, &key).is_ok(),
            "declared {} should pass",
            declared
        );
    }
    // declared < 4, > plainLen, and <= plainLen - 32 all fail.
    for (declared, plain_len) in [(3u32, 16usize), (49, 48), (16, 48), (0, 16)] {
        let block = build_block_with_declared(declared, plain_len, &key);
        assert!(
            matches!(
                EncryptedDescriptor::decrypt_local(&block, &key),
                Err(ReadError::BadDeclaredLen)
            ),
            "declared {} should fail",
            declared
        );
    }
}

#[test]
fn theme_size_cap() {
    // Exactly 5 MiB fails; one byte smaller passes.
    assert!(!theme_file_size_ok(5 * 1024 * 1024));
    assert!(theme_file_size_ok(5 * 1024 * 1024 - 1));
    assert!(!theme_file_size_ok(5 * 1024 * 1024 + 1));
    assert!(matches!(
        check_theme_file_size(5 * 1024 * 1024),
        Err(ReadError::FileTooLarge)
    ));
    assert!(check_theme_file_size(5 * 1024 * 1024 - 1).is_ok());
}

fn local_theme_head(content: &[u8]) -> ThemeHead {
    let mut data = Vec::new();
    data.extend_from_slice(&be_bytes_field(content));
    data.extend_from_slice(&utf16be_string_field("rel/path"));
    data.extend_from_slice(&utf16be_string_field("/abs/path"));
    let mut s = ValueStream::new(data);
    read_theme_head(&mut s).expect("local head parses")
}

#[test]
fn theme_local_head_parses() {
    let head = local_theme_head(&[1, 2, 3]);
    assert!(!head.is_new_tag);
    assert_eq!(head.object.path_relative, "rel/path");
    assert_eq!(head.object.path_absolute, "/abs/path");
    assert_eq!(head.object.content, vec![1, 2, 3]);
    assert_eq!(head.object.cloud.id, 0);
}

#[test]
fn theme_cloud_head_parses() {
    let mut data = Vec::new();
    data.extend_from_slice(&be_bytes_field(&[5, 6]));
    data.extend_from_slice(&utf16be_string_field("special://new_tag"));
    data.extend_from_slice(&utf16be_string_field("/abs"));
    data.extend_from_slice(&utf16be_string_field("rel"));
    data.extend_from_slice(&77u64.to_be_bytes());
    data.extend_from_slice(&88u64.to_be_bytes());
    data.extend_from_slice(&utf16be_string_field("slug"));
    data.extend_from_slice(&utf16be_string_field("title"));
    data.extend_from_slice(&99u64.to_be_bytes());
    data.extend_from_slice(&5i32.to_be_bytes());
    let mut s = ValueStream::new(data);
    let head = read_theme_head(&mut s).expect("cloud head parses");
    assert!(head.is_new_tag);
    assert_eq!(head.object.path_relative, "rel");
    assert_eq!(head.object.cloud.id, 77);
    assert_eq!(head.object.cloud.access_hash, 88);
    assert_eq!(head.object.cloud.slug, "slug");
    assert_eq!(head.object.cloud.title, "title");
    assert_eq!(head.object.cloud.document_id, 99);
    assert_eq!(head.field1, 5);

    // The trailing scalars stitch the creator id together.
    let mut tail = Vec::new();
    tail.extend_from_slice(&11i32.to_be_bytes());
    tail.extend_from_slice(&22i32.to_be_bytes());
    tail.extend_from_slice(&be_bytes_field(&[1]));
    tail.extend_from_slice(&be_bytes_field(&[2]));
    tail.extend_from_slice(&0x00000201u32.to_be_bytes());
    let mut s = ValueStream::new(tail);
    let theme = read_theme_finish(head, None, &mut s).expect("finish parses");
    assert_eq!(theme.object.cloud.created_by, 0x0000000200000005);
    assert!(theme.cache.tiled);
    assert_eq!(theme.cache.palette_checksum, 11);
    assert_eq!(theme.cache.content_checksum, 22);
}

fn theme_tail(field2: u32) -> Vec<u8> {
    let mut tail = Vec::new();
    tail.extend_from_slice(&7i32.to_be_bytes());
    tail.extend_from_slice(&8i32.to_be_bytes());
    tail.extend_from_slice(&be_bytes_field(&[0xC0]));
    tail.extend_from_slice(&be_bytes_field(&[0xB0]));
    tail.extend_from_slice(&field2.to_be_bytes());
    tail
}

#[test]
fn theme_disk_content_matching_keeps_cache() {
    let head = local_theme_head(&[1, 2, 3]);
    let mut s = ValueStream::new(theme_tail(1));
    let theme = read_theme_finish(head, Some(vec![1, 2, 3]), &mut s).unwrap();
    assert_eq!(theme.object.content, vec![1, 2, 3]);
    assert_eq!(theme.cache.colors, vec![0xC0]);
    assert_eq!(theme.cache.background, vec![0xB0]);
    assert!(theme.cache.tiled);
    assert_eq!(theme.cache.palette_checksum, 7);
}

#[test]
fn theme_disk_content_differing_replaces_and_clears_cache() {
    let head = local_theme_head(&[1, 2, 3]);
    let mut s = ValueStream::new(theme_tail(1));
    let theme = read_theme_finish(head, Some(vec![9, 9]), &mut s).unwrap();
    assert_eq!(theme.object.content, vec![9, 9]);
    assert_eq!(theme.cache.colors, Vec::<u8>::new());
    assert_eq!(theme.cache.background, Vec::<u8>::new());
    assert!(!theme.cache.tiled);
    assert_eq!(theme.cache.palette_checksum, 0);
}

#[test]
fn theme_tiled_needs_low_byte_one() {
    let head = local_theme_head(&[4]);
    let mut s = ValueStream::new(theme_tail(0x0100));
    let theme = read_theme_finish(head, None, &mut s).unwrap();
    assert!(!theme.cache.tiled);
}

#[test]
fn start_local_storage_reads_settings() {
    let salt = [2u8; 32];
    let key = MtpAuthKey::create_legacy_local(b"", &salt);
    let mut settings_stream = Vec::new();
    settings_stream.extend_from_slice(&0x06u32.to_be_bytes());
    settings_stream.extend_from_slice(&1i32.to_be_bytes());
    settings_stream.extend_from_slice(&0x54u32.to_be_bytes());
    settings_stream.extend_from_slice(&0xAAu64.to_be_bytes());
    settings_stream.extend_from_slice(&0xBBu64.to_be_bytes());
    settings_stream.extend_from_slice(&1u32.to_be_bytes());
    let encrypted = encrypt_local(&settings_stream, &key);
    let mut body = Vec::new();
    body.extend_from_slice(&be_bytes_field(&salt));
    body.extend_from_slice(&be_bytes_field(&encrypted));
    let file = FileReadDescriptor::repack(1, &body);
    let (derived, settings) = start_local_storage_data(file).expect("local storage reads");
    assert_eq!(derived.as_bytes(), key.as_bytes());
    assert_eq!(settings.len(), 2);
    assert!(matches!(
        settings[1],
        tdata_reader::schema::Setting::ThemeKey {
            day: FileKey(0xAA),
            night: FileKey(0xBB),
            night_mode: true
        }
    ));
}

#[test]
fn start_local_storage_rejects_bad_salt() {
    let mut body = Vec::new();
    body.extend_from_slice(&be_bytes_field(&[0u8; 16]));
    body.extend_from_slice(&be_bytes_field(&[0u8; 32]));
    let file = FileReadDescriptor::repack(1, &body);
    assert!(matches!(
        start_local_storage_data(file),
        Err(ReadError::InvalidData)
    ));
}

fn build_key_file(passcode: &[u8], local_key_bytes: &[u8; 256], indexes: &[i32]) -> Vec<u8> {
    let salt = [5u8; 32];
    let passcode_key = MtpAuthKey::create_local(passcode, &salt);
    let key_encrypted = encrypt_local(local_key_bytes, &passcode_key);
    let local_key = {
        let mut s = ValueStream::new(local_key_bytes.to_vec());
        MtpAuthKey::from_stream(&mut s).unwrap()
    };
    let mut info = Vec::new();
    info.extend_from_slice(&(indexes.len() as i32).to_be_bytes());
    for idx in indexes {
        info.extend_from_slice(&idx.to_be_bytes());
    }
    let info_encrypted = encrypt_local(&info, &local_key);
    let mut body = Vec::new();
    body.extend_from_slice(&be_bytes_field(&salt));
    body.extend_from_slice(&be_bytes_field(&key_encrypted));
    body.extend_from_slice(&be_bytes_field(&info_encrypted));
    FileReadDescriptor::repack(2, &body)
}

#[test]
fn start_modern_extracts_key_and_indexes() {
    let mut local_key_bytes = [0u8; 256];
    for (i, b) in local_key_bytes.iter_mut().enumerate() {
        *b = i as u8;
    }
    let file = build_key_file(b"", &local_key_bytes, &[1, 1, 2]);
    let (key, indexes) = start_modern_data(file, b"").expect("modern boot reads");
    assert_eq!(key.as_bytes().as_slice(), &local_key_bytes[..]);
    // A duplicate index is kept once; the order of first appearance stays.
    assert_eq!(indexes, vec![1, 2]);
}

#[test]
fn start_modern_skips_out_of_range_indexes() {
    let local_key_bytes = [0x11u8; 256];
    let file = build_key_file(b"", &local_key_bytes, &[7, 0, -1]);
    let (_key, indexes) = start_modern_data(file, b"").expect("modern boot reads");
    assert_eq!(indexes, vec![0]);
}

#[test]
fn start_modern_rejects_bad_count() {
    let local_key_bytes = [0x22u8; 256];
    let file = build_key_file(b"", &local_key_bytes, &[]);
    assert!(matches!(
        start_modern_data(file, b""),
        Err(ReadError::InvalidData)
    ));
    let file = build_key_file(b"", &local_key_bytes, &[0, 1, 2, 0]);
    assert!(matches!(
        start_modern_data(file, b""),
        Err(ReadError::InvalidData)
    ));
}

#[test]
fn start_modern_wrong_passcode_fails_decrypt() {
    let local_key_bytes = [0x33u8; 256];
    let file = build_key_file(b"right", &local_key_bytes, &[0]);
    assert!(matches!(
        start_modern_data(file, b"wrong"),
        Err(ReadError::BadDecryptKey)
    ));
}

#[test]
fn main_account_keys_and_key_handoff() {
    // The storage's directory key is the file key of the composed name.
    let account = MainAccount::new("data", 1);
    assert_eq!(account.local.data_name_key, FileKey::compute("data#2"));
    assert_eq!(account.local.data_name, "data#2");
    // Preparing to start stores exactly the session key it was handed.
    let salt = [4u8; 32];
    let key = MtpAuthKey::create_legacy_local(b"s", &salt);
    let expected = key.as_bytes().clone();
    let mut account = MainAccount::new("data", 0);
    account.prepare_to_start(key).unwrap();
    assert_eq!(account.local.local_key.as_bytes(), &expected);
    assert!(matches!(
        account.prepare_to_start(MtpAuthKey::blank()),
        Err(ReadError::InvalidData)
    ));
}

#[test]
fn account_state_machine_is_one_shot() {
    let mut account = StorageAccount::new("data".to_string());
    assert_eq!(account.state, AccountState::New);
    let key = MtpAuthKey::blank();
    assert!(account.start(key).is_ok());
    assert_eq!(account.state, AccountState::Started);
    assert!(matches!(
        account.start(MtpAuthKey::blank()),
        Err(ReadError::InvalidData)
    ));
    // Settings cannot be read before the map.
    assert!(matches!(
        account.read_session_settings_data(Vec::new()),
        Err(ReadError::InvalidData)
    ));
}

#[test]
fn account_reads_map_and_settings() {
    let salt = [8u8; 32];
    let local_key = MtpAuthKey::create_legacy_local(b"k", &salt);

    let mut map_stream = Vec::new();
    map_stream.extend_from_slice(&9u32.to_be_bytes());
    map_stream.extend_from_slice(&0x4242u64.to_be_bytes());
    let map_encrypted = encrypt_local(&map_stream, &local_key);
    let mut map_body = Vec::new();
    map_body.extend_from_slice(&be_bytes_field(&[]));
    map_body.extend_from_slice(&be_bytes_field(&[]));
    map_body.extend_from_slice(&be_bytes_field(&map_encrypted));
    let map_file = FileReadDescriptor::repack(3, &map_body);

    let mut account = StorageAccount::new("data".to_string());
    let started = MtpAuthKey::create_legacy_local(b"k", &salt);
    account.start(started).unwrap();
    account.read_map_data(map_file.clone()).expect("map reads");
    assert_eq!(account.state, AccountState::MapRead);
    assert_eq!(account.keys.settings, FileKey(0x4242));
    // Reading the map twice is fatal.
    assert!(matches!(
        account.read_map_data(map_file),
        Err(ReadError::InvalidData)
    ));

    let mut settings_stream = Vec::new();
    settings_stream.extend_from_slice(&0x58u32.to_be_bytes());
    settings_stream.extend_from_slice(&125i32.to_be_bytes());
    let settings_encrypted = encrypt_local(&settings_stream, &local_key);
    let settings_body = be_bytes_field(&settings_encrypted);
    let settings_file = FileReadDescriptor::repack(3, &settings_body);
    let settings = account
        .read_session_settings_data(settings_file)
        .expect("settings read");
    assert_eq!(account.state, AccountState::SettingsRead);
    assert_eq!(settings.len(), 1);
    assert!(matches!(
        settings[0],
        tdata_reader::schema::Setting::ScalePercent(125)
    ));
}

#[test]
fn map_file_with_extra_field_is_extraneous() {
    let salt = [8u8; 32];
    let local_key = MtpAuthKey::create_legacy_local(b"k", &salt);
    let map_encrypted = encrypt_local(&[], &local_key);
    let mut map_body = Vec::new();
    map_body.extend_from_slice(&be_bytes_field(&[]));
    map_body.extend_from_slice(&be_bytes_field(&[]));
    map_body.extend_from_slice(&be_bytes_field(&map_encrypted));
    map_body.extend_from_slice(&be_bytes_field(&[1]));
    let map_file = FileReadDescriptor::repack(3, &map_body);
    let mut account = StorageAccount::new("data".to_string());
    account.start(local_key).unwrap();
    assert!(matches!(
        account.read_map_data(map_file),
        Err(ReadError::ExtraneousData)
    ));
}

#[test]
fn envelope_stream_with_end() {
    let file = FileReadDescriptor::repack(1, &[0, 0, 0, 0]);
    let fd = FileReadDescriptor::from_bytes(file).unwrap();
    assert!(!fd.is_done());
    assert!(matches!(
        fd.should_be_done(),
        Err(ReadError::ExtraneousData)
    ));
}
