//! Tests of the envelope, the value stream, file keys, the settings schema
//! and the account map, over hand-built byte buffers.

use tdata_reader::envelope::FileReadDescriptor;
use tdata_reader::error::ReadError;
use tdata_reader::filekey::FileKey;
use tdata_reader::map::read_map_stream;
use tdata_reader::schema::{read_settings_stream, Setting};
use tdata_reader::stream::{Bytes, ValueStream};
use tdata_reader::boot::select_theme_key;
use tdata_reader::account::{compose_data_string, compute_key_name, sanitize_key_file};
use tdata_reader::color::Color;

fn build_envelope(version: i32, body: &[u8]) -> Vec<u8> {
    let mut out = Vec::new();
    out.extend_from_slice(b"TDF$");
    out.extend_from_slice(&version.to_le_bytes());
    out.extend_from_slice(body);
    let mut md5 = md5::Context::new();
    md5.consume(body);
    md5.consume((body.len() as i32).to_le_bytes());
    md5.consume(version.to_le_bytes());
    md5.consume(b"TDF$");
    out.extend_from_slice(&md5.finalize().0);
    out
}

fn bytes_field(payload: &[u8]) -> Vec<u8> {
    let mut out = Vec::new();
    out.extend_from_slice(&(payload.len() as u32).to_be_bytes());
    out.extend_from_slice(payload);
    out
}

#[test]
fn envelope_roundtrip_concrete() {
    let body = [0xAAu8, 0xBB, 0xCC];
    let file = build_envelope(7, &body);
    // The digest preimage is exactly the documented fifteen bytes.
    let preimage = [
        0xAAu8, 0xBB, 0xCC, 0x03, 0x00, 0x00, 0x00, 0x07, 0x00, 0x00, 0x00, 0x54, 0x44, 0x46,
        0x24,
    ];
    assert_eq!(&file[8 + 3..], &md5::compute(preimage).0);
    let fd = FileReadDescriptor::from_bytes(file.clone()).expect("envelope opens");
    assert_eq!(fd.version(), 7);
    let mut stream = fd.into_stream();
    assert_eq!(stream.read_raw(3).unwrap(), body.to_vec());
    assert!(stream.is_done());
    // Repacking writes the identical file.
    assert_eq!(FileReadDescriptor::repack(7, &body), file);
}

#[test]
fn envelope_bit_flip_fails() {
    let body = [1u8, 2, 3, 4, 5];
    let file = build_envelope(3, &body);
    // A flipped bit in the body, the version, or the trailer must all be
    // caught by the signature check.
    for &pos in &[4usize, 9, file.len() - 1] {
        let mut bad = file.clone();
        bad[pos] ^= 0x40;
        match FileReadDescriptor::from_bytes(bad) {
            Err(ReadError::BadSignature) => (),
            other => panic!("expected BadSignature, got {:?}", other.map(|_| ())),
        }
    }
}

#[test]
fn envelope_bad_magic_and_truncation() {
    let body = [9u8; 4];
    let file = build_envelope(1, &body);
    let mut bad = file.clone();
    bad[0] = b'X';
    assert!(matches!(
        FileReadDescriptor::from_bytes(bad),
        Err(ReadError::BadMagic)
    ));
    assert!(matches!(
        FileReadDescriptor::from_bytes(file[..3].to_vec()),
        Err(ReadError::Io)
    ));
    assert!(matches!(
        FileReadDescriptor::from_bytes(file[..20].to_vec()),
        Err(ReadError::Io)
    ));
}

#[test]
fn stream_positions_advance_exactly() {
    let mut data = Vec::new();
    data.extend_from_slice(&0x0102u16.to_be_bytes());
    data.extend_from_slice(&0xDEADBEEFu32.to_be_bytes());
    data.extend_from_slice(&0x1122334455667788u64.to_be_bytes());
    data.extend_from_slice(&(-5i32).to_be_bytes());
    data.extend_from_slice(&(-6i64).to_be_bytes());
    let mut s = ValueStream::new(data);
    assert_eq!(s.position(), 0);
    assert_eq!(s.read_u16().unwrap(), 0x0102);
    assert_eq!(s.position(), 2);
    assert_eq!(s.read_u32().unwrap(), 0xDEADBEEF);
    assert_eq!(s.position(), 6);
    assert_eq!(s.read_u64().unwrap(), 0x1122334455667788);
    assert_eq!(s.position(), 14);
    assert_eq!(s.read_i32().unwrap(), -5);
    assert_eq!(s.position(), 18);
    assert_eq!(s.read_i64().unwrap(), -6);
    assert_eq!(s.position(), 26);
    assert!(s.is_done());
    assert!(s.should_be_done().is_ok());
    assert!(matches!(s.read_u16(), Err(ReadError::Io)));
}

#[test]
fn bytes_empty_quirk() {
    // A zero length and the all-ones length both decode to empty.
    let mut s = ValueStream::new(0u32.to_be_bytes().to_vec());
    assert_eq!(s.read_bytes().unwrap(), Vec::<u8>::new());
    assert!(s.is_done());
    let mut s = ValueStream::new(0xFFFFFFFFu32.to_be_bytes().to_vec());
    assert_eq!(s.read_bytes().unwrap(), Vec::<u8>::new());
    assert!(s.is_done());
    // Any other length yields exactly that many bytes.
    let mut s = ValueStream::new(bytes_field(&[7, 8, 9]));
    assert_eq!(s.read_bytes().unwrap(), vec![7, 8, 9]);
    assert_eq!(s.position(), 7);
    // A length past the end is an I/O failure.
    let mut s = ValueStream::new(5u32.to_be_bytes().to_vec());
    assert!(matches!(s.read_bytes(), Err(ReadError::Io)));
}

fn utf16be(text: &str) -> Vec<u8> {
    let mut out = Vec::new();
    for unit in text.encode_utf16() {
        out.extend_from_slice(&unit.to_be_bytes());
    }
    out
}

#[test]
fn bytes_value_reads_field() {
    let mut s = ValueStream::new(bytes_field(&[4, 5]));
    let b = Bytes::read_from(&mut s).unwrap();
    assert_eq!(b.0, vec![4, 5]);
    assert!(s.is_done());
}

#[test]
fn string_utf16be_decodes() {
    let mut s = ValueStream::new(bytes_field(&utf16be("AB")));
    assert_eq!(s.read_string().unwrap(), "AB");
    // An unpaired surrogate is a hard error.
    let mut s = ValueStream::new(bytes_field(&[0xD8, 0x00, 0x00, 0x41]));
    assert!(matches!(s.read_string(), Err(ReadError::InvalidData)));
}

#[test]
fn filekey_renders_like_md5_prefix() {
    // name "data#2": the first 8 digest bytes little-endian, rendered
    // least-significant nibble first in upper hex.
    let digest = md5::compute("data#2").0;
    let value = u64::from_le_bytes(digest[..8].try_into().unwrap());
    let mut expected = String::new();
    let mut v = value;
    for _ in 0..16 {
        let nib = (v & 0xF) as u8;
        expected.push(if nib < 10 {
            (b'0' + nib) as char
        } else {
            (b'A' + nib - 10) as char
        });
        v >>= 4;
    }
    let key = FileKey::compute("data#2");
    assert_eq!(key.0, value);
    let part = key.to_file_part();
    assert_eq!(part.len(), 16);
    assert_eq!(part, expected);
}

#[test]
fn filekey_render_distinct_values() {
    assert_eq!(FileKey(0).to_file_part(), "0000000000000000");
    assert_eq!(FileKey(0x1).to_file_part(), "1000000000000000");
    assert_eq!(FileKey(0xAB).to_file_part(), "BA00000000000000");
    assert_ne!(
        FileKey(0xDEADBEEF).to_file_part(),
        FileKey(0xBEEFDEAD).to_file_part()
    );
}

#[test]
fn compose_data_string_cases() {
    assert_eq!(compose_data_string("data", 0), "data");
    assert_eq!(compose_data_string("data", 1), "data#2");
    assert_eq!(compose_data_string("da#ta", 2), "data#3");
    assert_eq!(compose_data_string("data", 11), "data#12");
    assert_eq!(compute_key_name("data"), "key_data");
}

#[test]
fn sanitize_key_file_filters_and_lowercases() {
    assert_eq!(sanitize_key_file(b"My Key.File-1_x\\y"), "mykeyfile-1_x\\y");
    assert_eq!(sanitize_key_file(b"!!!"), "");
}

#[test]
fn map_tag_dispatch_retains_settings_key() {
    // Draft (0x01) with one (key, peer) pair, then UserSettings (0x09).
    let mut data = Vec::new();
    data.extend_from_slice(&1u32.to_be_bytes());
    data.extend_from_slice(&1u32.to_be_bytes());
    data.extend_from_slice(&0x0102030405060708u64.to_be_bytes());
    data.extend_from_slice(&0xFFFFFFFFFFFFFFFFu64.to_be_bytes());
    data.extend_from_slice(&9u32.to_be_bytes());
    data.extend_from_slice(&0xDEADBEEFCAFEBABEu64.to_be_bytes());
    let mut s = ValueStream::new(data);
    let keys = read_map_stream(&mut s).expect("map reads");
    assert_eq!(keys.settings, FileKey(0xDEADBEEFCAFEBABE));
    assert!(s.is_done());
}

#[test]
fn map_skip_shapes() {
    // StickersKeys (0x10) skips four u64; Locations (0x04) skips one.
    let mut data = Vec::new();
    data.extend_from_slice(&0x10u32.to_be_bytes());
    data.extend_from_slice(&[0u8; 32]);
    data.extend_from_slice(&4u32.to_be_bytes());
    data.extend_from_slice(&[0u8; 8]);
    data.extend_from_slice(&0x16u32.to_be_bytes());
    data.extend_from_slice(&[0u8; 24]);
    data.extend_from_slice(&0x14u32.to_be_bytes());
    data.extend_from_slice(&[0u8; 16]);
    data.extend_from_slice(&0x15u32.to_be_bytes());
    data.extend_from_slice(&bytes_field(&[1, 2, 3]));
    let mut s = ValueStream::new(data);
    let keys = read_map_stream(&mut s).expect("map reads");
    assert_eq!(keys.settings, FileKey(0));
}

#[test]
fn map_user_map_is_unsupported() {
    let mut s = ValueStream::new(0u32.to_be_bytes().to_vec());
    assert!(matches!(read_map_stream(&mut s), Err(ReadError::Unsupported)));
}

#[test]
fn map_unknown_tag_is_fatal() {
    let mut s = ValueStream::new(0x99u32.to_be_bytes().to_vec());
    assert!(matches!(read_map_stream(&mut s), Err(ReadError::InvalidData)));
}

#[test]
fn setting_theme_key_selects_night() {
    // ThemeKey (0x54): day, night, nightMode.
    let mut data = Vec::new();
    data.extend_from_slice(&0x54u32.to_be_bytes());
    data.extend_from_slice(&0x1111u64.to_be_bytes());
    data.extend_from_slice(&0x2222u64.to_be_bytes());
    data.extend_from_slice(&1u32.to_be_bytes());
    let mut s = ValueStream::new(data);
    match Setting::read_from(&mut s).expect("theme key parses") {
        Setting::ThemeKey { day, night, night_mode } => {
            assert_eq!(day, FileKey(0x1111));
            assert_eq!(night, FileKey(0x2222));
            assert!(night_mode);
            assert_eq!(select_theme_key(day, night, night_mode), FileKey(0x2222));
            assert_eq!(select_theme_key(day, night, false), FileKey(0x1111));
        }
        other => panic!("wrong setting: {:?}", other),
    }
}

#[test]
fn setting_bool_is_one_exactly() {
    for (value, expected) in [(1i32, true), (0, false), (2, false), (-1, false)] {
        let mut data = Vec::new();
        data.extend_from_slice(&0x06u32.to_be_bytes());
        data.extend_from_slice(&value.to_be_bytes());
        let mut s = ValueStream::new(data);
        match Setting::read_from(&mut s).unwrap() {
            Setting::AutoStart(b) => assert_eq!(b, expected),
            other => panic!("wrong setting: {:?}", other),
        }
    }
}

#[test]
fn setting_recent_stickers_pairs() {
    let mut data = Vec::new();
    data.extend_from_slice(&0x26u32.to_be_bytes());
    data.extend_from_slice(&2u32.to_be_bytes());
    data.extend_from_slice(&10u64.to_be_bytes());
    data.extend_from_slice(&1u16.to_be_bytes());
    data.extend_from_slice(&20u64.to_be_bytes());
    data.extend_from_slice(&2u16.to_be_bytes());
    let mut s = ValueStream::new(data);
    match Setting::read_from(&mut s).unwrap() {
        Setting::RecentStickers(v) => assert_eq!(v, vec![(10, 1), (20, 2)]),
        other => panic!("wrong setting: {:?}", other),
    }
}

#[test]
fn setting_unrecognised_code_is_fatal() {
    let mut s = ValueStream::new(0x1Bu32.to_be_bytes().to_vec());
    assert!(matches!(
        Setting::read_from(&mut s),
        Err(ReadError::InvalidData)
    ));
}

#[test]
fn setting_unparsed_code_is_unsupported() {
    // DcOptionOldOld (0x02) is recognised but its payload is not handled.
    let mut s = ValueStream::new(0x02u32.to_be_bytes().to_vec());
    assert!(matches!(
        Setting::read_from(&mut s),
        Err(ReadError::Unsupported)
    ));
}

#[test]
fn settings_stream_reads_to_end() {
    let mut data = Vec::new();
    data.extend_from_slice(&0x06u32.to_be_bytes());
    data.extend_from_slice(&1i32.to_be_bytes());
    data.extend_from_slice(&0x58u32.to_be_bytes());
    data.extend_from_slice(&110i32.to_be_bytes());
    data.extend_from_slice(&0x01u32.to_be_bytes());
    data.extend_from_slice(&42i32.to_be_bytes());
    data.extend_from_slice(&4u32.to_be_bytes());
    let mut s = ValueStream::new(data);
    let settings = read_settings_stream(&mut s).expect("stream parses");
    assert_eq!(settings.len(), 3);
    assert!(matches!(settings[0], Setting::AutoStart(true)));
    assert!(matches!(settings[1], Setting::ScalePercent(110)));
    assert!(matches!(
        settings[2],
        Setting::User { user_id: 42, dc_id: 4 }
    ));
}

#[test]
fn color_hex_rendering() {
    let c = Color::from_array([0x01, 0x02, 0x03, 0xFF]);
    assert_eq!(c.hex_string(), "#010203");
    let c = Color::from_array([0xAB, 0xCD, 0xEF, 0x7F]);
    assert_eq!(c.hex_string(), "#abcdef7f");
}
