//! The account map: a tagged-record stream enumerating per-category file
//! keys for one account. Only the user-settings key is retained; every other
//! recognised category is consumed for its side effect on the position, and
//! an unknown category is a hard error.

use vstd::prelude::*;

use crate::error::ReadError;
use crate::filekey::FileKey;
use crate::stream::{spec_read_bytes, spec_read_u32_opt, spec_read_u64_opt, ValueStream};

verus! {

broadcast use crate::stream::lemma_stream_pos_bounds;

/// Every category tag the account map can carry.
#[derive(Debug, Copy, Clone, PartialEq, Eq, Structural)]
pub enum LocalStorageKey {
    UserMap,
    Draft,
    DraftPosition,
    LegacyImages,
    Locations,
    LegacyStickerImages,
    LegacyAudios,
    RecentStickersOld,
    BackgroundOldOld,
    UserSettings,
    RecentHashtagsAndBots,
    StickersOld,
    SavedPeersOld,
    ReportSpamStatusesOld,
    SavedGifsOld,
    SavedGifs,
    StickersKeys,
    TrustedBots,
    FavedStickers,
    ExportSettings,
    BackgroundOld,
    SelfSerialized,
    MasksKeys,
}

/// The category a `u32` tag stands for, if any.
pub open spec fn map_key_of_code(code: u32) -> Option<LocalStorageKey> {
    if code == 0x00 {
        Some(LocalStorageKey::UserMap)
    } else if code == 0x01 {
        Some(LocalStorageKey::Draft)
    } else if code == 0x02 {
        Some(LocalStorageKey::DraftPosition)
    } else if code == 0x03 {
        Some(LocalStorageKey::LegacyImages)
    } else if code == 0x04 {
        Some(LocalStorageKey::Locations)
    } else if code == 0x05 {
        Some(LocalStorageKey::LegacyStickerImages)
    } else if code == 0x06 {
        Some(LocalStorageKey::LegacyAudios)
    } else if code == 0x07 {
        Some(LocalStorageKey::RecentStickersOld)
    } else if code == 0x08 {
        Some(LocalStorageKey::BackgroundOldOld)
    } else if code == 0x09 {
        Some(LocalStorageKey::UserSettings)
    } else if code == 0x0a {
        Some(LocalStorageKey::RecentHashtagsAndBots)
    } else if code == 0x0b {
        Some(LocalStorageKey::StickersOld)
    } else if code == 0x0c {
        Some(LocalStorageKey::SavedPeersOld)
    } else if code == 0x0d {
        Some(LocalStorageKey::ReportSpamStatusesOld)
    } else if code == 0x0e {
        Some(LocalStorageKey::SavedGifsOld)
    } else if code == 0x0f {
        Some(LocalStorageKey::SavedGifs)
    } else if code == 0x10 {
        Some(LocalStorageKey::StickersKeys)
    } else if code == 0x11 {
        Some(LocalStorageKey::TrustedBots)
    } else if code == 0x12 {
        Some(LocalStorageKey::FavedStickers)
    } else if code == 0x13 {
        Some(LocalStorageKey::ExportSettings)
    } else if code == 0x14 {
        Some(LocalStorageKey::BackgroundOld)
    } else if code == 0x15 {
        Some(LocalStorageKey::SelfSerialized)
    } else if code == 0x16 {
        Some(LocalStorageKey::MasksKeys)
    } else {
        None
    }
}

impl LocalStorageKey {
    /// Looks a tag up in the closed category set.
    pub fn from_code(code: u32) -> (r: Option<LocalStorageKey>)
        ensures
            r == map_key_of_code(code),
    {
        match code {
            0x00 => Some(LocalStorageKey::UserMap),
            0x01 => Some(LocalStorageKey::Draft),
            0x02 => Some(LocalStorageKey::DraftPosition),
            0x03 => Some(LocalStorageKey::LegacyImages),
            0x04 => Some(LocalStorageKey::Locations),
            0x05 => Some(LocalStorageKey::LegacyStickerImages),
            0x06 => Some(LocalStorageKey::LegacyAudios),
            0x07 => Some(LocalStorageKey::RecentStickersOld),
            0x08 => Some(LocalStorageKey::BackgroundOldOld),
            0x09 => Some(LocalStorageKey::UserSettings),
            0x0a => Some(LocalStorageKey::RecentHashtagsAndBots),
            0x0b => Some(LocalStorageKey::StickersOld),
            0x0c => Some(LocalStorageKey::SavedPeersOld),
            0x0d => Some(LocalStorageKey::ReportSpamStatusesOld),
            0x0e => Some(LocalStorageKey::SavedGifsOld),
            0x0f => Some(LocalStorageKey::SavedGifs),
            0x10 => Some(LocalStorageKey::StickersKeys),
            0x11 => Some(LocalStorageKey::TrustedBots),
            0x12 => Some(LocalStorageKey::FavedStickers),
            0x13 => Some(LocalStorageKey::ExportSettings),
            0x14 => Some(LocalStorageKey::BackgroundOld),
            0x15 => Some(LocalStorageKey::SelfSerialized),
            0x16 => Some(LocalStorageKey::MasksKeys),
            _ => None,
        }
    }
}

/// The retained keys of one account map: only the user-settings file key.
#[derive(Debug, Default, Copy, Clone, PartialEq, Eq, Structural)]
pub struct StorageKeys {
    pub settings: FileKey,
}

/// How far `p` moves after skipping a whole number of fixed-size items, or
/// nothing when the buffer is too short (a read fails mid-way).
pub open spec fn spec_skip_items(d: Seq<u8>, p: int, n: u32, item: int) -> Option<int> {
    if p + n * item <= d.len() {
        Some(p + n * item)
    } else {
        None
    }
}

/// What one map record at offset `p` does: possibly retains a settings key,
/// and moves the position, or rejects the stream.
pub open spec fn spec_read_map_record(d: Seq<u8>, p: int) -> Result<(Option<u64>, int), ReadError> {
    match spec_read_u32_opt(d, p) {
        None => Err(ReadError::Io),
        Some((code, q)) => match map_key_of_code(code) {
            None => Err(ReadError::InvalidData),
            Some(kind) => match kind {
                LocalStorageKey::UserMap => Err(ReadError::Unsupported),
                LocalStorageKey::Draft | LocalStorageKey::DraftPosition => {
                    match spec_read_u32_opt(d, q) {
                        None => Err(ReadError::Io),
                        Some((count, q1)) => match spec_skip_items(d, q1, count, 16) {
                            None => Err(ReadError::Io),
                            Some(q2) => Ok((None, q2)),
                        },
                    }
                },
                LocalStorageKey::LegacyImages
                | LocalStorageKey::LegacyStickerImages
                | LocalStorageKey::LegacyAudios => {
                    match spec_read_u32_opt(d, q) {
                        None => Err(ReadError::Io),
                        Some((count, q1)) => match spec_skip_items(d, q1, count, 28) {
                            None => Err(ReadError::Io),
                            Some(q2) => Ok((None, q2)),
                        },
                    }
                },
                LocalStorageKey::SelfSerialized => match spec_read_bytes(d, q) {
                    None => Err(ReadError::Io),
                    Some((_b, q1)) => Ok((None, q1)),
                },
                LocalStorageKey::UserSettings => match spec_read_u64_opt(d, q) {
                    None => Err(ReadError::Io),
                    Some((k, q1)) => Ok((Some(k), q1)),
                },
                LocalStorageKey::BackgroundOld => {
                    if q + 16 <= d.len() {
                        Ok((None, q + 16))
                    } else {
                        Err(ReadError::Io)
                    }
                },
                LocalStorageKey::StickersKeys => {
                    if q + 32 <= d.len() {
                        Ok((None, q + 32))
                    } else {
                        Err(ReadError::Io)
                    }
                },
                LocalStorageKey::MasksKeys => {
                    if q + 24 <= d.len() {
                        Ok((None, q + 24))
                    } else {
                        Err(ReadError::Io)
                    }
                },
                _ => {
                    if q + 8 <= d.len() {
                        Ok((None, q + 8))
                    } else {
                        Err(ReadError::Io)
                    }
                },
            },
        },
    }
}

/// What a whole account map parses to: the last user-settings key seen (or
/// `cur` when none appears). The backwards-position guard can never be taken;
/// it only bounds the recursion.
pub open spec fn spec_read_map(d: Seq<u8>, p: int, cur: u64) -> Result<u64, ReadError>
    decreases d.len() - p when 0 <= p <= d.len()
{
    if p == d.len() {
        Ok(cur)
    } else {
        match spec_read_map_record(d, p) {
            Err(e) => Err(e),
            Ok((set, q)) => if !(p < q <= d.len()) {
                Err(ReadError::Io)
            } else {
                spec_read_map(
                    d,
                    q,
                    match set {
                        Some(k) => k,
                        None => cur,
                    },
                )
            },
        }
    }
}

/// Skips `count` items of `item_len` bytes each by reading them, as the
/// original record readers do.
fn skip_items(stream: &mut ValueStream, count: u32, item_len: u32) -> (r: Result<(), ReadError>)
    requires
        old(stream).wf(),
        item_len >= 1,
    ensures
        final(stream).wf(),
        final(stream).bytes() == old(stream).bytes(),
        match spec_skip_items(old(stream).bytes(), old(stream).pos(), count, item_len as int) {
            Some(q) => r == Ok::<(), ReadError>(()) && final(stream).pos() == q,
            None => r == Err::<(), ReadError>(ReadError::Io),
        },
{
    let ghost d = old(stream).bytes();
    let ghost p0 = old(stream).pos();
    let mut i: u32 = 0;
    while i < count
        invariant
            d == old(stream).bytes(),
            p0 == old(stream).pos(),
            stream.wf(),
            stream.bytes() == d,
            i <= count,
            stream.pos() == p0 + i * item_len,
            item_len >= 1,
        decreases count - i,
    {
        match stream.read_raw(item_len as usize) {
            Ok(_) => (),
            Err(_) => {
                proof {
                    assert(stream.pos() + item_len > d.len());
                    assert(p0 + (i + 1) * item_len > d.len()) by (nonlinear_arith)
                        requires
                            stream.pos() == p0 + i * item_len,
                            stream.pos() + item_len > d.len(),
                    ;
                    assert(p0 + count * item_len >= p0 + (i + 1) * item_len) by (nonlinear_arith)
                        requires
                            i < count,
                            item_len >= 1,
                    ;
                }
                return Err(ReadError::Io);
            },
        };
        i = i + 1;
        proof {
            assert(stream.pos() == p0 + i * item_len) by (nonlinear_arith)
                requires
                    stream.pos() == p0 + (i - 1) * item_len + item_len,
            ;
        }
    }
    proof {
        assert(stream.pos() == p0 + count * item_len);
    }
    Ok(())
}

/// Reads one tagged map record. On success the position always advances.
#[verifier::rlimit(100)]
fn read_map_record(stream: &mut ValueStream) -> (r: Result<Option<u64>, ReadError>)
    requires
        old(stream).wf(),
    ensures
        final(stream).wf(),
        final(stream).bytes() == old(stream).bytes(),
        match spec_read_map_record(old(stream).bytes(), old(stream).pos()) {
            Ok((set, q)) => {
                &&& r matches Ok(s) && s == set
                &&& final(stream).pos() == q
                &&& old(stream).pos() < q <= old(stream).bytes().len()
            },
            Err(e) => r matches Err(e2) && e2 == e,
        },
{
    let code = match stream.read_u32() {
        Ok(v) => v,
        Err(e) => { return Err(e); },
    };
    let kind = match LocalStorageKey::from_code(code) {
        Some(k) => k,
        None => { return Err(ReadError::InvalidData); },
    };
    match kind {
        LocalStorageKey::UserMap => Err(ReadError::Unsupported),
        LocalStorageKey::Draft | LocalStorageKey::DraftPosition => {
            let count = match stream.read_u32() {
                Ok(v) => v,
                Err(e) => { return Err(e); },
            };
            match skip_items(stream, count, 16) {
                Ok(_) => Ok(None),
                Err(e) => Err(e),
            }
        },
        LocalStorageKey::LegacyImages
        | LocalStorageKey::LegacyStickerImages
        | LocalStorageKey::LegacyAudios => {
            let count = match stream.read_u32() {
                Ok(v) => v,
                Err(e) => { return Err(e); },
            };
            match skip_items(stream, count, 28) {
                Ok(_) => Ok(None),
                Err(e) => Err(e),
            }
        },
        LocalStorageKey::SelfSerialized => {
            match stream.skip_bytes() {
                Ok(_) => Ok(None),
                Err(e) => Err(e),
            }
        },
        LocalStorageKey::UserSettings => {
            let k = match stream.read_u64() {
                Ok(v) => v,
                Err(e) => { return Err(e); },
            };
            Ok(Some(k))
        },
        LocalStorageKey::BackgroundOld => {
            match stream.read_raw(16) {
                Ok(_) => Ok(None),
                Err(e) => Err(e),
            }
        },
        LocalStorageKey::StickersKeys => {
            match stream.read_raw(32) {
                Ok(_) => Ok(None),
                Err(e) => Err(e),
            }
        },
        LocalStorageKey::MasksKeys => {
            match stream.read_raw(24) {
                Ok(_) => Ok(None),
                Err(e) => Err(e),
            }
        },
        _ => {
            match stream.read_raw(8) {
                Ok(_) => Ok(None),
                Err(e) => Err(e),
            }
        },
    }
}

/// Reads a whole decrypted account map stream and retains the user-settings
/// file key (the last one to appear, should there be several).
pub fn read_map_stream(stream: &mut ValueStream) -> (r: Result<StorageKeys, ReadError>)
    requires
        old(stream).wf(),
    ensures
        final(stream).wf(),
        final(stream).bytes() == old(stream).bytes(),
        match spec_read_map(old(stream).bytes(), old(stream).pos(), 0) {
            Ok(k) => r matches Ok(keys) && keys.settings == FileKey(k),
            Err(e) => r matches Err(e2) && e2 == e,
        },
{
    let ghost d = old(stream).bytes();
    let ghost p0 = old(stream).pos();
    let mut settings: u64 = 0;
    while !stream.is_done()
        invariant
            d == old(stream).bytes(),
            p0 == old(stream).pos(),
            stream.wf(),
            stream.bytes() == d,
            0 <= stream.pos() <= d.len(),
            spec_read_map(d, p0, 0) == spec_read_map(d, stream.pos(), settings),
        decreases d.len() - stream.pos(),
    {
        let ghost p_cur = stream.pos();
        let ghost cur_before = settings;
        match read_map_record(stream) {
            Ok(Some(k)) => {
                settings = k;
            },
            Ok(None) => (),
            Err(e) => { return Err(e); },
        };
        proof {
            assert(spec_read_map(d, p_cur, cur_before) == spec_read_map(
                d,
                stream.pos(),
                settings,
            ));
        }
    }
    Ok(StorageKeys { settings: FileKey(settings) })
}

} // verus!
