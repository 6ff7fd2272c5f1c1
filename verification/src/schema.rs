//! The keyed settings stream: a closed set of tagged records, each with a
//! fixed payload shape. Only a subset of the recognised codes is parsed; any
//! other recognised code is refused as unsupported (their payload shapes are
//! not handled by this reader, and mis-skipping would desynchronise the
//! stream), and an unrecognised code is a hard error.

use vstd::prelude::*;

use crate::error::ReadError;
use crate::filekey::FileKey;
use crate::stream::{
    be_u32_at, spec_read_bytes, spec_read_i32_opt, spec_read_i64_opt, spec_read_u16_opt,
    spec_read_u32_opt, spec_read_u64_opt, ValueStream,
};

verus! {

broadcast use crate::stream::lemma_stream_pos_bounds;

/// Every setting code the storage format has ever used.
#[derive(Debug, Copy, Clone, PartialEq, Eq, Structural)]
pub enum SettingKind {
    Key,
    User,
    DcOptionOldOld,
    ChatSizeMaxOld,
    MutePeerOld,
    SendKeyOld,
    AutoStart,
    StartMinimized,
    SoundFlashBounceNotifyOld,
    WorkModeOld,
    SeenTrayTooltip,
    DesktopNotifyOld,
    AutoUpdate,
    LastUpdateCheck,
    WindowPositionOld,
    ConnectionTypeOldOld,
    DefaultAttach,
    CatsAndDogsOld,
    ReplaceEmojiOld,
    AskDownloadPathOld,
    DownloadPathOldOld,
    ScaleOld,
    EmojiTabOld,
    RecentEmojiOldOldOld,
    LoggedPhoneNumberOld,
    MutedPeersOld,
    NotifyViewOld,
    SendToMenu,
    CompressPastedImageOld,
    LangOld,
    LangFileOld,
    TileBackgroundOld,
    AutoLockOld,
    DialogLastPath,
    RecentEmojiOldOld,
    EmojiVariantsOldOld,
    RecentStickers,
    DcOptionOld,
    TryIPv6Old,
    SongVolumeOld,
    WindowsNotificationsOld,
    IncludeMutedOld,
    MegagroupSizeMaxOld,
    DownloadPathOld,
    AutoDownloadOld,
    SavedGifsLimitOld,
    ShowingSavedGifsOld,
    AutoPlayOld,
    AdaptiveForWideOld,
    HiddenPinnedMessagesOld,
    RecentEmojiOld,
    EmojiVariantsOld,
    DialogsModeOld,
    ModerateModeOld,
    VideoVolumeOld,
    StickersRecentLimitOld,
    NativeNotificationsOld,
    NotificationsCountOld,
    NotificationsCornerOld,
    ThemeKeyOld,
    DialogsWidthRatioOld,
    UseExternalVideoPlayer,
    DcOptionsOld,
    MtpAuthorization,
    LastSeenWarningSeenOld,
    SessionSettings,
    LangPackKey,
    ConnectionTypeOld,
    StickersFavedLimitOld,
    SuggestStickersByEmojiOld,
    SuggestEmojiOld,
    TxtDomainStringOldOld,
    ThemeKey,
    TileBackground,
    CacheSettingsOld,
    AnimationsDisabled,
    ScalePercent,
    PlaybackSpeedOld,
    LanguagesKey,
    CallSettingsOld,
    CacheSettings,
    TxtDomainStringOld,
    ApplicationSettings,
    DialogsFiltersOld,
    FallbackProductionConfig,
    BackgroundKey,
    EncryptedWithSalt,
    Encrypted,
    Version,
}

/// The setting kind a `u32` code stands for, if any.
#[verifier::opaque]
pub open spec fn kind_of_code(code: u32) -> Option<SettingKind> {
    if code == 0x00 {
        Some(SettingKind::Key)
    } else
    if code == 0x01 {
        Some(SettingKind::User)
    } else
    if code == 0x02 {
        Some(SettingKind::DcOptionOldOld)
    } else
    if code == 0x03 {
        Some(SettingKind::ChatSizeMaxOld)
    } else
    if code == 0x04 {
        Some(SettingKind::MutePeerOld)
    } else
    if code == 0x05 {
        Some(SettingKind::SendKeyOld)
    } else
    if code == 0x06 {
        Some(SettingKind::AutoStart)
    } else
    if code == 0x07 {
        Some(SettingKind::StartMinimized)
    } else
    if code == 0x08 {
        Some(SettingKind::SoundFlashBounceNotifyOld)
    } else
    if code == 0x09 {
        Some(SettingKind::WorkModeOld)
    } else
    if code == 0x0a {
        Some(SettingKind::SeenTrayTooltip)
    } else
    if code == 0x0b {
        Some(SettingKind::DesktopNotifyOld)
    } else
    if code == 0x0c {
        Some(SettingKind::AutoUpdate)
    } else
    if code == 0x0d {
        Some(SettingKind::LastUpdateCheck)
    } else
    if code == 0x0e {
        Some(SettingKind::WindowPositionOld)
    } else
    if code == 0x0f {
        Some(SettingKind::ConnectionTypeOldOld)
    } else
    if code == 0x11 {
        Some(SettingKind::DefaultAttach)
    } else
    if code == 0x12 {
        Some(SettingKind::CatsAndDogsOld)
    } else
    if code == 0x13 {
        Some(SettingKind::ReplaceEmojiOld)
    } else
    if code == 0x14 {
        Some(SettingKind::AskDownloadPathOld)
    } else
    if code == 0x15 {
        Some(SettingKind::DownloadPathOldOld)
    } else
    if code == 0x16 {
        Some(SettingKind::ScaleOld)
    } else
    if code == 0x17 {
        Some(SettingKind::EmojiTabOld)
    } else
    if code == 0x18 {
        Some(SettingKind::RecentEmojiOldOldOld)
    } else
    if code == 0x19 {
        Some(SettingKind::LoggedPhoneNumberOld)
    } else
    if code == 0x1a {
        Some(SettingKind::MutedPeersOld)
    } else
    if code == 0x1c {
        Some(SettingKind::NotifyViewOld)
    } else
    if code == 0x1d {
        Some(SettingKind::SendToMenu)
    } else
    if code == 0x1e {
        Some(SettingKind::CompressPastedImageOld)
    } else
    if code == 0x1f {
        Some(SettingKind::LangOld)
    } else
    if code == 0x20 {
        Some(SettingKind::LangFileOld)
    } else
    if code == 0x21 {
        Some(SettingKind::TileBackgroundOld)
    } else
    if code == 0x22 {
        Some(SettingKind::AutoLockOld)
    } else
    if code == 0x23 {
        Some(SettingKind::DialogLastPath)
    } else
    if code == 0x24 {
        Some(SettingKind::RecentEmojiOldOld)
    } else
    if code == 0x25 {
        Some(SettingKind::EmojiVariantsOldOld)
    } else
    if code == 0x26 {
        Some(SettingKind::RecentStickers)
    } else
    if code == 0x27 {
        Some(SettingKind::DcOptionOld)
    } else
    if code == 0x28 {
        Some(SettingKind::TryIPv6Old)
    } else
    if code == 0x29 {
        Some(SettingKind::SongVolumeOld)
    } else
    if code == 0x30 {
        Some(SettingKind::WindowsNotificationsOld)
    } else
    if code == 0x31 {
        Some(SettingKind::IncludeMutedOld)
    } else
    if code == 0x32 {
        Some(SettingKind::MegagroupSizeMaxOld)
    } else
    if code == 0x33 {
        Some(SettingKind::DownloadPathOld)
    } else
    if code == 0x34 {
        Some(SettingKind::AutoDownloadOld)
    } else
    if code == 0x35 {
        Some(SettingKind::SavedGifsLimitOld)
    } else
    if code == 0x36 {
        Some(SettingKind::ShowingSavedGifsOld)
    } else
    if code == 0x37 {
        Some(SettingKind::AutoPlayOld)
    } else
    if code == 0x38 {
        Some(SettingKind::AdaptiveForWideOld)
    } else
    if code == 0x39 {
        Some(SettingKind::HiddenPinnedMessagesOld)
    } else
    if code == 0x3a {
        Some(SettingKind::RecentEmojiOld)
    } else
    if code == 0x3b {
        Some(SettingKind::EmojiVariantsOld)
    } else
    if code == 0x40 {
        Some(SettingKind::DialogsModeOld)
    } else
    if code == 0x41 {
        Some(SettingKind::ModerateModeOld)
    } else
    if code == 0x42 {
        Some(SettingKind::VideoVolumeOld)
    } else
    if code == 0x43 {
        Some(SettingKind::StickersRecentLimitOld)
    } else
    if code == 0x44 {
        Some(SettingKind::NativeNotificationsOld)
    } else
    if code == 0x45 {
        Some(SettingKind::NotificationsCountOld)
    } else
    if code == 0x46 {
        Some(SettingKind::NotificationsCornerOld)
    } else
    if code == 0x47 {
        Some(SettingKind::ThemeKeyOld)
    } else
    if code == 0x48 {
        Some(SettingKind::DialogsWidthRatioOld)
    } else
    if code == 0x49 {
        Some(SettingKind::UseExternalVideoPlayer)
    } else
    if code == 0x4a {
        Some(SettingKind::DcOptionsOld)
    } else
    if code == 0x4b {
        Some(SettingKind::MtpAuthorization)
    } else
    if code == 0x4c {
        Some(SettingKind::LastSeenWarningSeenOld)
    } else
    if code == 0x4d {
        Some(SettingKind::SessionSettings)
    } else
    if code == 0x4e {
        Some(SettingKind::LangPackKey)
    } else
    if code == 0x4f {
        Some(SettingKind::ConnectionTypeOld)
    } else
    if code == 0x50 {
        Some(SettingKind::StickersFavedLimitOld)
    } else
    if code == 0x51 {
        Some(SettingKind::SuggestStickersByEmojiOld)
    } else
    if code == 0x52 {
        Some(SettingKind::SuggestEmojiOld)
    } else
    if code == 0x53 {
        Some(SettingKind::TxtDomainStringOldOld)
    } else
    if code == 0x54 {
        Some(SettingKind::ThemeKey)
    } else
    if code == 0x55 {
        Some(SettingKind::TileBackground)
    } else
    if code == 0x56 {
        Some(SettingKind::CacheSettingsOld)
    } else
    if code == 0x57 {
        Some(SettingKind::AnimationsDisabled)
    } else
    if code == 0x58 {
        Some(SettingKind::ScalePercent)
    } else
    if code == 0x59 {
        Some(SettingKind::PlaybackSpeedOld)
    } else
    if code == 0x5a {
        Some(SettingKind::LanguagesKey)
    } else
    if code == 0x5b {
        Some(SettingKind::CallSettingsOld)
    } else
    if code == 0x5c {
        Some(SettingKind::CacheSettings)
    } else
    if code == 0x5d {
        Some(SettingKind::TxtDomainStringOld)
    } else
    if code == 0x5e {
        Some(SettingKind::ApplicationSettings)
    } else
    if code == 0x5f {
        Some(SettingKind::DialogsFiltersOld)
    } else
    if code == 0x60 {
        Some(SettingKind::FallbackProductionConfig)
    } else
    if code == 0x61 {
        Some(SettingKind::BackgroundKey)
    } else
    if code == 333 {
        Some(SettingKind::EncryptedWithSalt)
    } else
    if code == 444 {
        Some(SettingKind::Encrypted)
    } else
    if code == 666 {
        Some(SettingKind::Version)
    } else {
        None
    }
}

impl SettingKind {
    /// Looks a code up in the closed set of known setting kinds.
    #[verifier::rlimit(50)]
    pub fn from_code(code: u32) -> (r: Option<SettingKind>)
        ensures
            r == kind_of_code(code),
    {
        proof {
            reveal(kind_of_code);
        }
        match code {
        0x00 => Some(SettingKind::Key),
        0x01 => Some(SettingKind::User),
        0x02 => Some(SettingKind::DcOptionOldOld),
        0x03 => Some(SettingKind::ChatSizeMaxOld),
        0x04 => Some(SettingKind::MutePeerOld),
        0x05 => Some(SettingKind::SendKeyOld),
        0x06 => Some(SettingKind::AutoStart),
        0x07 => Some(SettingKind::StartMinimized),
        0x08 => Some(SettingKind::SoundFlashBounceNotifyOld),
        0x09 => Some(SettingKind::WorkModeOld),
        0x0a => Some(SettingKind::SeenTrayTooltip),
        0x0b => Some(SettingKind::DesktopNotifyOld),
        0x0c => Some(SettingKind::AutoUpdate),
        0x0d => Some(SettingKind::LastUpdateCheck),
        0x0e => Some(SettingKind::WindowPositionOld),
        0x0f => Some(SettingKind::ConnectionTypeOldOld),
        0x11 => Some(SettingKind::DefaultAttach),
        0x12 => Some(SettingKind::CatsAndDogsOld),
        0x13 => Some(SettingKind::ReplaceEmojiOld),
        0x14 => Some(SettingKind::AskDownloadPathOld),
        0x15 => Some(SettingKind::DownloadPathOldOld),
        0x16 => Some(SettingKind::ScaleOld),
        0x17 => Some(SettingKind::EmojiTabOld),
        0x18 => Some(SettingKind::RecentEmojiOldOldOld),
        0x19 => Some(SettingKind::LoggedPhoneNumberOld),
        0x1a => Some(SettingKind::MutedPeersOld),
        0x1c => Some(SettingKind::NotifyViewOld),
        0x1d => Some(SettingKind::SendToMenu),
        0x1e => Some(SettingKind::CompressPastedImageOld),
        0x1f => Some(SettingKind::LangOld),
        0x20 => Some(SettingKind::LangFileOld),
        0x21 => Some(SettingKind::TileBackgroundOld),
        0x22 => Some(SettingKind::AutoLockOld),
        0x23 => Some(SettingKind::DialogLastPath),
        0x24 => Some(SettingKind::RecentEmojiOldOld),
        0x25 => Some(SettingKind::EmojiVariantsOldOld),
        0x26 => Some(SettingKind::RecentStickers),
        0x27 => Some(SettingKind::DcOptionOld),
        0x28 => Some(SettingKind::TryIPv6Old),
        0x29 => Some(SettingKind::SongVolumeOld),
        0x30 => Some(SettingKind::WindowsNotificationsOld),
        0x31 => Some(SettingKind::IncludeMutedOld),
        0x32 => Some(SettingKind::MegagroupSizeMaxOld),
        0x33 => Some(SettingKind::DownloadPathOld),
        0x34 => Some(SettingKind::AutoDownloadOld),
        0x35 => Some(SettingKind::SavedGifsLimitOld),
        0x36 => Some(SettingKind::ShowingSavedGifsOld),
        0x37 => Some(SettingKind::AutoPlayOld),
        0x38 => Some(SettingKind::AdaptiveForWideOld),
        0x39 => Some(SettingKind::HiddenPinnedMessagesOld),
        0x3a => Some(SettingKind::RecentEmojiOld),
        0x3b => Some(SettingKind::EmojiVariantsOld),
        0x40 => Some(SettingKind::DialogsModeOld),
        0x41 => Some(SettingKind::ModerateModeOld),
        0x42 => Some(SettingKind::VideoVolumeOld),
        0x43 => Some(SettingKind::StickersRecentLimitOld),
        0x44 => Some(SettingKind::NativeNotificationsOld),
        0x45 => Some(SettingKind::NotificationsCountOld),
        0x46 => Some(SettingKind::NotificationsCornerOld),
        0x47 => Some(SettingKind::ThemeKeyOld),
        0x48 => Some(SettingKind::DialogsWidthRatioOld),
        0x49 => Some(SettingKind::UseExternalVideoPlayer),
        0x4a => Some(SettingKind::DcOptionsOld),
        0x4b => Some(SettingKind::MtpAuthorization),
        0x4c => Some(SettingKind::LastSeenWarningSeenOld),
        0x4d => Some(SettingKind::SessionSettings),
        0x4e => Some(SettingKind::LangPackKey),
        0x4f => Some(SettingKind::ConnectionTypeOld),
        0x50 => Some(SettingKind::StickersFavedLimitOld),
        0x51 => Some(SettingKind::SuggestStickersByEmojiOld),
        0x52 => Some(SettingKind::SuggestEmojiOld),
        0x53 => Some(SettingKind::TxtDomainStringOldOld),
        0x54 => Some(SettingKind::ThemeKey),
        0x55 => Some(SettingKind::TileBackground),
        0x56 => Some(SettingKind::CacheSettingsOld),
        0x57 => Some(SettingKind::AnimationsDisabled),
        0x58 => Some(SettingKind::ScalePercent),
        0x59 => Some(SettingKind::PlaybackSpeedOld),
        0x5a => Some(SettingKind::LanguagesKey),
        0x5b => Some(SettingKind::CallSettingsOld),
        0x5c => Some(SettingKind::CacheSettings),
        0x5d => Some(SettingKind::TxtDomainStringOld),
        0x5e => Some(SettingKind::ApplicationSettings),
        0x5f => Some(SettingKind::DialogsFiltersOld),
        0x60 => Some(SettingKind::FallbackProductionConfig),
        0x61 => Some(SettingKind::BackgroundKey),
        333 => Some(SettingKind::EncryptedWithSalt),
        444 => Some(SettingKind::Encrypted),
        666 => Some(SettingKind::Version),
            _ => None,
        }
    }
}

/// A parsed setting record.
#[derive(Debug)]
#[non_exhaustive]
pub enum Setting {
    Key,
    User { user_id: i32, dc_id: u32 },
    AutoStart(bool),
    StartMinimized(bool),
    SeenTrayTooltip(bool),
    AutoUpdate(bool),
    LastUpdateCheck(i32),
    DefaultAttach(i32),
    SendToMenu(bool),
    DialogLastPath(Vec<u8>),
    RecentStickers(Vec<(u64, u16)>),
    UseExternalVideoPlayer(bool),
    MtpAuthorization { serialized: Vec<u8> },
    SessionSettings { serialized: Vec<u8> },
    LangPackKey(FileKey),
    ThemeKey { day: FileKey, night: FileKey, night_mode: bool },
    TileBackground { day: i32, night: i32 },
    AnimationsDisabled(bool),
    ScalePercent(i32),
    LanguagesKey(FileKey),
    CacheSettings { size: i64, time: i32, size_big: i64, time_big: i32 },
    ApplicationSettings { serialized: Vec<u8> },
    FallbackProductionConfig(Vec<u8>),
    BackgroundKey { day: FileKey, night: FileKey },
}

/// The mathematical shape of a parsed setting record.
pub enum SettingV {
    Key,
    User { user_id: i32, dc_id: u32 },
    AutoStart(bool),
    StartMinimized(bool),
    SeenTrayTooltip(bool),
    AutoUpdate(bool),
    LastUpdateCheck(i32),
    DefaultAttach(i32),
    SendToMenu(bool),
    DialogLastPath(Seq<u8>),
    RecentStickers(Seq<(u64, u16)>),
    UseExternalVideoPlayer(bool),
    MtpAuthorization { serialized: Seq<u8> },
    SessionSettings { serialized: Seq<u8> },
    LangPackKey(FileKey),
    ThemeKey { day: FileKey, night: FileKey, night_mode: bool },
    TileBackground { day: i32, night: i32 },
    AnimationsDisabled(bool),
    ScalePercent(i32),
    LanguagesKey(FileKey),
    CacheSettings { size: i64, time: i32, size_big: i64, time_big: i32 },
    ApplicationSettings { serialized: Seq<u8> },
    FallbackProductionConfig(Seq<u8>),
    BackgroundKey { day: FileKey, night: FileKey },
}

impl View for Setting {
    type V = SettingV;

    open spec fn view(&self) -> SettingV {
        match self {
            Setting::Key => SettingV::Key,
            Setting::User { user_id, dc_id } => SettingV::User {
                user_id: *user_id,
                dc_id: *dc_id,
            },
            Setting::AutoStart(b) => SettingV::AutoStart(*b),
            Setting::StartMinimized(b) => SettingV::StartMinimized(*b),
            Setting::SeenTrayTooltip(b) => SettingV::SeenTrayTooltip(*b),
            Setting::AutoUpdate(b) => SettingV::AutoUpdate(*b),
            Setting::LastUpdateCheck(v) => SettingV::LastUpdateCheck(*v),
            Setting::DefaultAttach(v) => SettingV::DefaultAttach(*v),
            Setting::SendToMenu(b) => SettingV::SendToMenu(*b),
            Setting::DialogLastPath(v) => SettingV::DialogLastPath(v@),
            Setting::RecentStickers(v) => SettingV::RecentStickers(v@),
            Setting::UseExternalVideoPlayer(b) => SettingV::UseExternalVideoPlayer(*b),
            Setting::MtpAuthorization { serialized } => SettingV::MtpAuthorization {
                serialized: serialized@,
            },
            Setting::SessionSettings { serialized } => SettingV::SessionSettings {
                serialized: serialized@,
            },
            Setting::LangPackKey(k) => SettingV::LangPackKey(*k),
            Setting::ThemeKey { day, night, night_mode } => SettingV::ThemeKey {
                day: *day,
                night: *night,
                night_mode: *night_mode,
            },
            Setting::TileBackground { day, night } => SettingV::TileBackground {
                day: *day,
                night: *night,
            },
            Setting::AnimationsDisabled(b) => SettingV::AnimationsDisabled(*b),
            Setting::ScalePercent(v) => SettingV::ScalePercent(*v),
            Setting::LanguagesKey(k) => SettingV::LanguagesKey(*k),
            Setting::CacheSettings { size, time, size_big, time_big } => SettingV::CacheSettings {
                size: *size,
                time: *time,
                size_big: *size_big,
                time_big: *time_big,
            },
            Setting::ApplicationSettings { serialized } => SettingV::ApplicationSettings {
                serialized: serialized@,
            },
            Setting::FallbackProductionConfig(v) => SettingV::FallbackProductionConfig(v@),
            Setting::BackgroundKey { day, night } => SettingV::BackgroundKey {
                day: *day,
                night: *night,
            },
        }
    }
}

/// What reading `n` recent-sticker pairs (`u64` id, `u16` value) at offset
/// `p` yields.
pub open spec fn spec_read_sticker_pairs(d: Seq<u8>, p: int, n: nat) -> Option<
    (Seq<(u64, u16)>, int),
>
    decreases n,
{
    if n == 0 {
        Some((Seq::empty(), p))
    } else {
        match spec_read_u64_opt(d, p) {
            None => None,
            Some((id, p1)) => match spec_read_u16_opt(d, p1) {
                None => None,
                Some((value, p2)) => match spec_read_sticker_pairs(d, p2, (n - 1) as nat) {
                    None => None,
                    Some((rest, q)) => Some((seq![(id, value)] + rest, q)),
                },
            },
        }
    }
}

/// What the payload of a recognised setting kind at offset `p` parses to.
/// A kind outside the parsed subset is refused as unsupported.
#[verifier::opaque]
pub open spec fn spec_read_setting_payload(kind: SettingKind, d: Seq<u8>, p: int) -> Result<
    (SettingV, int),
    ReadError,
> {
    match kind {
        SettingKind::User => match spec_read_i32_opt(d, p) {
            None => Err(ReadError::Io),
            Some((user_id, p1)) => match spec_read_u32_opt(d, p1) {
                None => Err(ReadError::Io),
                Some((dc_id, p2)) => Ok((SettingV::User { user_id, dc_id }, p2)),
            },
        },
        SettingKind::AutoStart => match spec_read_i32_opt(d, p) {
            None => Err(ReadError::Io),
            Some((v, q)) => Ok((SettingV::AutoStart(v == 1), q)),
        },
        SettingKind::StartMinimized => match spec_read_i32_opt(d, p) {
            None => Err(ReadError::Io),
            Some((v, q)) => Ok((SettingV::StartMinimized(v == 1), q)),
        },
        SettingKind::SeenTrayTooltip => match spec_read_i32_opt(d, p) {
            None => Err(ReadError::Io),
            Some((v, q)) => Ok((SettingV::SeenTrayTooltip(v == 1), q)),
        },
        SettingKind::AutoUpdate => match spec_read_i32_opt(d, p) {
            None => Err(ReadError::Io),
            Some((v, q)) => Ok((SettingV::AutoUpdate(v == 1), q)),
        },
        SettingKind::SendToMenu => match spec_read_i32_opt(d, p) {
            None => Err(ReadError::Io),
            Some((v, q)) => Ok((SettingV::SendToMenu(v == 1), q)),
        },
        SettingKind::UseExternalVideoPlayer => match spec_read_i32_opt(d, p) {
            None => Err(ReadError::Io),
            Some((v, q)) => Ok((SettingV::UseExternalVideoPlayer(v == 1), q)),
        },
        SettingKind::AnimationsDisabled => match spec_read_i32_opt(d, p) {
            None => Err(ReadError::Io),
            Some((v, q)) => Ok((SettingV::AnimationsDisabled(v == 1), q)),
        },
        SettingKind::LastUpdateCheck => match spec_read_i32_opt(d, p) {
            None => Err(ReadError::Io),
            Some((v, q)) => Ok((SettingV::LastUpdateCheck(v), q)),
        },
        SettingKind::DefaultAttach => match spec_read_i32_opt(d, p) {
            None => Err(ReadError::Io),
            Some((v, q)) => Ok((SettingV::DefaultAttach(v), q)),
        },
        SettingKind::ScalePercent => match spec_read_i32_opt(d, p) {
            None => Err(ReadError::Io),
            Some((v, q)) => Ok((SettingV::ScalePercent(v), q)),
        },
        SettingKind::DialogLastPath => match spec_read_bytes(d, p) {
            None => Err(ReadError::Io),
            Some((b, q)) => Ok((SettingV::DialogLastPath(b), q)),
        },
        SettingKind::MtpAuthorization => match spec_read_bytes(d, p) {
            None => Err(ReadError::Io),
            Some((b, q)) => Ok((SettingV::MtpAuthorization { serialized: b }, q)),
        },
        SettingKind::SessionSettings => match spec_read_bytes(d, p) {
            None => Err(ReadError::Io),
            Some((b, q)) => Ok((SettingV::SessionSettings { serialized: b }, q)),
        },
        SettingKind::ApplicationSettings => match spec_read_bytes(d, p) {
            None => Err(ReadError::Io),
            Some((b, q)) => Ok((SettingV::ApplicationSettings { serialized: b }, q)),
        },
        SettingKind::FallbackProductionConfig => match spec_read_bytes(d, p) {
            None => Err(ReadError::Io),
            Some((b, q)) => Ok((SettingV::FallbackProductionConfig(b), q)),
        },
        SettingKind::RecentStickers => match spec_read_u32_opt(d, p) {
            None => Err(ReadError::Io),
            Some((n, p1)) => match spec_read_sticker_pairs(d, p1, n as nat) {
                None => Err(ReadError::Io),
                Some((items, q)) => Ok((SettingV::RecentStickers(items), q)),
            },
        },
        SettingKind::CacheSettings => match spec_read_i64_opt(d, p) {
            None => Err(ReadError::Io),
            Some((size, p1)) => match spec_read_i32_opt(d, p1) {
                None => Err(ReadError::Io),
                Some((time, p2)) => match spec_read_i64_opt(d, p2) {
                    None => Err(ReadError::Io),
                    Some((size_big, p3)) => match spec_read_i32_opt(d, p3) {
                        None => Err(ReadError::Io),
                        Some((time_big, q)) => Ok(
                            (SettingV::CacheSettings { size, time, size_big, time_big }, q),
                        ),
                    },
                },
            },
        },
        SettingKind::ThemeKey => match spec_read_u64_opt(d, p) {
            None => Err(ReadError::Io),
            Some((day, p1)) => match spec_read_u64_opt(d, p1) {
                None => Err(ReadError::Io),
                Some((night, p2)) => match spec_read_u32_opt(d, p2) {
                    None => Err(ReadError::Io),
                    Some((mode, q)) => Ok(
                        (
                            SettingV::ThemeKey {
                                day: FileKey(day),
                                night: FileKey(night),
                                night_mode: mode == 1,
                            },
                            q,
                        ),
                    ),
                },
            },
        },
        SettingKind::BackgroundKey => match spec_read_u64_opt(d, p) {
            None => Err(ReadError::Io),
            Some((day, p1)) => match spec_read_u64_opt(d, p1) {
                None => Err(ReadError::Io),
                Some((night, q)) => Ok(
                    (SettingV::BackgroundKey { day: FileKey(day), night: FileKey(night) }, q),
                ),
            },
        },
        SettingKind::TileBackground => match spec_read_i32_opt(d, p) {
            None => Err(ReadError::Io),
            Some((day, p1)) => match spec_read_i32_opt(d, p1) {
                None => Err(ReadError::Io),
                Some((night, q)) => Ok((SettingV::TileBackground { day, night }, q)),
            },
        },
        SettingKind::LangPackKey => match spec_read_u64_opt(d, p) {
            None => Err(ReadError::Io),
            Some((k, q)) => Ok((SettingV::LangPackKey(FileKey(k)), q)),
        },
        SettingKind::LanguagesKey => match spec_read_u64_opt(d, p) {
            None => Err(ReadError::Io),
            Some((k, q)) => Ok((SettingV::LanguagesKey(FileKey(k)), q)),
        },
        _ => Err(ReadError::Unsupported),
    }
}

/// What one setting record at offset `p` parses to: its `u32` code looked up
/// in the closed kind set, then the payload of that kind.
pub open spec fn spec_read_setting(d: Seq<u8>, p: int) -> Result<(SettingV, int), ReadError> {
    match spec_read_u32_opt(d, p) {
        None => Err(ReadError::Io),
        Some((code, q)) => match kind_of_code(code) {
            None => Err(ReadError::InvalidData),
            Some(kind) => spec_read_setting_payload(kind, d, q),
        },
    }
}

/// Reads `n` recent-sticker pairs.
#[verifier::rlimit(100)]
fn read_sticker_pairs(stream: &mut ValueStream, n: u32) -> (r: Result<
    Vec<(u64, u16)>,
    ReadError,
>)
    requires
        old(stream).wf(),
    ensures
        final(stream).wf(),
        final(stream).bytes() == old(stream).bytes(),
        match spec_read_sticker_pairs(old(stream).bytes(), old(stream).pos(), n as nat) {
            Some((items, q)) => {
                &&& r matches Ok(v) && v@ == items
                &&& final(stream).pos() == q
                &&& q >= old(stream).pos()
            },
            None => r == Err::<Vec<(u64, u16)>, ReadError>(ReadError::Io),
        },
{
    let ghost d = old(stream).bytes();
    let ghost p0 = old(stream).pos();
    let mut acc: Vec<(u64, u16)> = Vec::new();
    let mut i: u32 = 0;
    proof {
        if spec_read_sticker_pairs(d, p0, n as nat) is Some {
            let (items, q) = spec_read_sticker_pairs(d, p0, n as nat)->Some_0;
            assert(Seq::<(u64, u16)>::empty() + items =~= items);
        }
    }
    while i < n
        invariant
            d == old(stream).bytes(),
            p0 == old(stream).pos(),
            stream.wf(),
            stream.bytes() == d,
            i <= n,
            acc@.len() == i,
            stream.pos() >= p0,
            ({
                match spec_read_sticker_pairs(d, p0, n as nat) {
                    Some((items, q)) => spec_read_sticker_pairs(
                        d,
                        stream.pos(),
                        (n - i) as nat,
                    ) matches Some((rest, q2)) && acc@ + rest == items && q2 == q,
                    None => !(spec_read_sticker_pairs(d, stream.pos(), (n - i) as nat) is Some),
                }
            }),
        decreases n - i,
    {
        let ghost p_cur = stream.pos();
        let id = match stream.read_u64() {
            Ok(v) => v,
            Err(_) => {
                proof {
                    assert(spec_read_sticker_pairs(d, p_cur, (n - i) as nat) is None);
                }
                return Err(ReadError::Io);
            },
        };
        let value = match stream.read_u16() {
            Ok(v) => v,
            Err(_) => {
                proof {
                    assert(spec_read_sticker_pairs(d, p_cur, (n - i) as nat) is None);
                }
                return Err(ReadError::Io);
            },
        };
        let ghost before = acc@;
        acc.push((id, value));
        i = i + 1;
        proof {
            let rec = spec_read_sticker_pairs(d, stream.pos(), (n - i) as nat);
            if rec is Some {
                let (rest, q2) = rec->Some_0;
                assert(spec_read_sticker_pairs(d, p_cur, (n - i + 1) as nat) == Some(
                    (seq![(id, value)] + rest, q2),
                ));
                assert(before + (seq![(id, value)] + rest) =~= acc@ + rest);
            }
        }
    }
    proof {
        assert(spec_read_sticker_pairs(d, stream.pos(), 0) == Some(
            (Seq::<(u64, u16)>::empty(), stream.pos()),
        ));
        if spec_read_sticker_pairs(d, p0, n as nat) is Some {
            assert(acc@ + Seq::<(u64, u16)>::empty() =~= acc@);
        }
    }
    Ok(acc)
}

/// Whether a setting kind is one of the parsed subset.
pub open spec fn is_parsed_kind(kind: SettingKind) -> bool {
    match kind {
        SettingKind::User => true,
        SettingKind::AutoStart => true,
        SettingKind::StartMinimized => true,
        SettingKind::SeenTrayTooltip => true,
        SettingKind::AutoUpdate => true,
        SettingKind::SendToMenu => true,
        SettingKind::UseExternalVideoPlayer => true,
        SettingKind::AnimationsDisabled => true,
        SettingKind::LastUpdateCheck => true,
        SettingKind::DefaultAttach => true,
        SettingKind::ScalePercent => true,
        SettingKind::DialogLastPath => true,
        SettingKind::MtpAuthorization => true,
        SettingKind::SessionSettings => true,
        SettingKind::ApplicationSettings => true,
        SettingKind::FallbackProductionConfig => true,
        SettingKind::RecentStickers => true,
        SettingKind::CacheSettings => true,
        SettingKind::ThemeKey => true,
        SettingKind::BackgroundKey => true,
        SettingKind::TileBackground => true,
        SettingKind::LangPackKey => true,
        SettingKind::LanguagesKey => true,
        _ => false,
    }
}

/// The payload of any recognised kind outside the parsed subset is refused
/// as unsupported.
proof fn lemma_payload_unsupported(kind: SettingKind, d: Seq<u8>, p: int)
    requires
        !is_parsed_kind(kind),
    ensures
        spec_read_setting_payload(kind, d, p) == Err::<(SettingV, int), ReadError>(
            ReadError::Unsupported,
        ),
{
    reveal(spec_read_setting_payload);
}

fn read_p_autostart(stream: &mut ValueStream) -> (r: Result<Setting, ReadError>)
    requires
        old(stream).wf(),
    ensures
        final(stream).wf(),
        final(stream).bytes() == old(stream).bytes(),
        match spec_read_setting_payload(SettingKind::AutoStart, old(stream).bytes(), old(
            stream,
        ).pos()) {
            Ok((sv, q)) => {
                &&& r matches Ok(s) && s@ == sv
                &&& final(stream).pos() == q
                &&& old(stream).pos() < q <= old(stream).bytes().len()
            },
            Err(e) => r matches Err(e2) && e2 == e,
        },
{
    proof {
        reveal(spec_read_setting_payload);
    }
    let v = match stream.read_i32() {
        Ok(v) => v,
        Err(e) => { return Err(e); },
    };
    Ok(Setting::AutoStart(v == 1))
}

fn read_p_startminimized(stream: &mut ValueStream) -> (r: Result<Setting, ReadError>)
    requires
        old(stream).wf(),
    ensures
        final(stream).wf(),
        final(stream).bytes() == old(stream).bytes(),
        match spec_read_setting_payload(SettingKind::StartMinimized, old(stream).bytes(), old(
            stream,
        ).pos()) {
            Ok((sv, q)) => {
                &&& r matches Ok(s) && s@ == sv
                &&& final(stream).pos() == q
                &&& old(stream).pos() < q <= old(stream).bytes().len()
            },
            Err(e) => r matches Err(e2) && e2 == e,
        },
{
    proof {
        reveal(spec_read_setting_payload);
    }
    let v = match stream.read_i32() {
        Ok(v) => v,
        Err(e) => { return Err(e); },
    };
    Ok(Setting::StartMinimized(v == 1))
}

fn read_p_seentraytooltip(stream: &mut ValueStream) -> (r: Result<Setting, ReadError>)
    requires
        old(stream).wf(),
    ensures
        final(stream).wf(),
        final(stream).bytes() == old(stream).bytes(),
        match spec_read_setting_payload(SettingKind::SeenTrayTooltip, old(stream).bytes(), old(
            stream,
        ).pos()) {
            Ok((sv, q)) => {
                &&& r matches Ok(s) && s@ == sv
                &&& final(stream).pos() == q
                &&& old(stream).pos() < q <= old(stream).bytes().len()
            },
            Err(e) => r matches Err(e2) && e2 == e,
        },
{
    proof {
        reveal(spec_read_setting_payload);
    }
    let v = match stream.read_i32() {
        Ok(v) => v,
        Err(e) => { return Err(e); },
    };
    Ok(Setting::SeenTrayTooltip(v == 1))
}

fn read_p_autoupdate(stream: &mut ValueStream) -> (r: Result<Setting, ReadError>)
    requires
        old(stream).wf(),
    ensures
        final(stream).wf(),
        final(stream).bytes() == old(stream).bytes(),
        match spec_read_setting_payload(SettingKind::AutoUpdate, old(stream).bytes(), old(
            stream,
        ).pos()) {
            Ok((sv, q)) => {
                &&& r matches Ok(s) && s@ == sv
                &&& final(stream).pos() == q
                &&& old(stream).pos() < q <= old(stream).bytes().len()
            },
            Err(e) => r matches Err(e2) && e2 == e,
        },
{
    proof {
        reveal(spec_read_setting_payload);
    }
    let v = match stream.read_i32() {
        Ok(v) => v,
        Err(e) => { return Err(e); },
    };
    Ok(Setting::AutoUpdate(v == 1))
}

fn read_p_sendtomenu(stream: &mut ValueStream) -> (r: Result<Setting, ReadError>)
    requires
        old(stream).wf(),
    ensures
        final(stream).wf(),
        final(stream).bytes() == old(stream).bytes(),
        match spec_read_setting_payload(SettingKind::SendToMenu, old(stream).bytes(), old(
            stream,
        ).pos()) {
            Ok((sv, q)) => {
                &&& r matches Ok(s) && s@ == sv
                &&& final(stream).pos() == q
                &&& old(stream).pos() < q <= old(stream).bytes().len()
            },
            Err(e) => r matches Err(e2) && e2 == e,
        },
{
    proof {
        reveal(spec_read_setting_payload);
    }
    let v = match stream.read_i32() {
        Ok(v) => v,
        Err(e) => { return Err(e); },
    };
    Ok(Setting::SendToMenu(v == 1))
}

fn read_p_useexternalvideoplayer(stream: &mut ValueStream) -> (r: Result<Setting, ReadError>)
    requires
        old(stream).wf(),
    ensures
        final(stream).wf(),
        final(stream).bytes() == old(stream).bytes(),
        match spec_read_setting_payload(SettingKind::UseExternalVideoPlayer, old(stream).bytes(), old(
            stream,
        ).pos()) {
            Ok((sv, q)) => {
                &&& r matches Ok(s) && s@ == sv
                &&& final(stream).pos() == q
                &&& old(stream).pos() < q <= old(stream).bytes().len()
            },
            Err(e) => r matches Err(e2) && e2 == e,
        },
{
    proof {
        reveal(spec_read_setting_payload);
    }
    let v = match stream.read_i32() {
        Ok(v) => v,
        Err(e) => { return Err(e); },
    };
    Ok(Setting::UseExternalVideoPlayer(v == 1))
}

fn read_p_animationsdisabled(stream: &mut ValueStream) -> (r: Result<Setting, ReadError>)
    requires
        old(stream).wf(),
    ensures
        final(stream).wf(),
        final(stream).bytes() == old(stream).bytes(),
        match spec_read_setting_payload(SettingKind::AnimationsDisabled, old(stream).bytes(), old(
            stream,
        ).pos()) {
            Ok((sv, q)) => {
                &&& r matches Ok(s) && s@ == sv
                &&& final(stream).pos() == q
                &&& old(stream).pos() < q <= old(stream).bytes().len()
            },
            Err(e) => r matches Err(e2) && e2 == e,
        },
{
    proof {
        reveal(spec_read_setting_payload);
    }
    let v = match stream.read_i32() {
        Ok(v) => v,
        Err(e) => { return Err(e); },
    };
    Ok(Setting::AnimationsDisabled(v == 1))
}

fn read_p_lastupdatecheck(stream: &mut ValueStream) -> (r: Result<Setting, ReadError>)
    requires
        old(stream).wf(),
    ensures
        final(stream).wf(),
        final(stream).bytes() == old(stream).bytes(),
        match spec_read_setting_payload(SettingKind::LastUpdateCheck, old(stream).bytes(), old(
            stream,
        ).pos()) {
            Ok((sv, q)) => {
                &&& r matches Ok(s) && s@ == sv
                &&& final(stream).pos() == q
                &&& old(stream).pos() < q <= old(stream).bytes().len()
            },
            Err(e) => r matches Err(e2) && e2 == e,
        },
{
    proof {
        reveal(spec_read_setting_payload);
    }
    let v = match stream.read_i32() {
        Ok(v) => v,
        Err(e) => { return Err(e); },
    };
    Ok(Setting::LastUpdateCheck(v))
}

fn read_p_defaultattach(stream: &mut ValueStream) -> (r: Result<Setting, ReadError>)
    requires
        old(stream).wf(),
    ensures
        final(stream).wf(),
        final(stream).bytes() == old(stream).bytes(),
        match spec_read_setting_payload(SettingKind::DefaultAttach, old(stream).bytes(), old(
            stream,
        ).pos()) {
            Ok((sv, q)) => {
                &&& r matches Ok(s) && s@ == sv
                &&& final(stream).pos() == q
                &&& old(stream).pos() < q <= old(stream).bytes().len()
            },
            Err(e) => r matches Err(e2) && e2 == e,
        },
{
    proof {
        reveal(spec_read_setting_payload);
    }
    let v = match stream.read_i32() {
        Ok(v) => v,
        Err(e) => { return Err(e); },
    };
    Ok(Setting::DefaultAttach(v))
}

fn read_p_scalepercent(stream: &mut ValueStream) -> (r: Result<Setting, ReadError>)
    requires
        old(stream).wf(),
    ensures
        final(stream).wf(),
        final(stream).bytes() == old(stream).bytes(),
        match spec_read_setting_payload(SettingKind::ScalePercent, old(stream).bytes(), old(
            stream,
        ).pos()) {
            Ok((sv, q)) => {
                &&& r matches Ok(s) && s@ == sv
                &&& final(stream).pos() == q
                &&& old(stream).pos() < q <= old(stream).bytes().len()
            },
            Err(e) => r matches Err(e2) && e2 == e,
        },
{
    proof {
        reveal(spec_read_setting_payload);
    }
    let v = match stream.read_i32() {
        Ok(v) => v,
        Err(e) => { return Err(e); },
    };
    Ok(Setting::ScalePercent(v))
}

fn read_p_dialoglastpath(stream: &mut ValueStream) -> (r: Result<Setting, ReadError>)
    requires
        old(stream).wf(),
    ensures
        final(stream).wf(),
        final(stream).bytes() == old(stream).bytes(),
        match spec_read_setting_payload(SettingKind::DialogLastPath, old(stream).bytes(), old(
            stream,
        ).pos()) {
            Ok((sv, q)) => {
                &&& r matches Ok(s) && s@ == sv
                &&& final(stream).pos() == q
                &&& old(stream).pos() < q <= old(stream).bytes().len()
            },
            Err(e) => r matches Err(e2) && e2 == e,
        },
{
    proof {
        reveal(spec_read_setting_payload);
    }
    let b = match stream.read_bytes() {
        Ok(v) => v,
        Err(e) => { return Err(e); },
    };
    Ok(Setting::DialogLastPath(b))
}

fn read_p_fallbackproductionconfig(stream: &mut ValueStream) -> (r: Result<Setting, ReadError>)
    requires
        old(stream).wf(),
    ensures
        final(stream).wf(),
        final(stream).bytes() == old(stream).bytes(),
        match spec_read_setting_payload(SettingKind::FallbackProductionConfig, old(stream).bytes(), old(
            stream,
        ).pos()) {
            Ok((sv, q)) => {
                &&& r matches Ok(s) && s@ == sv
                &&& final(stream).pos() == q
                &&& old(stream).pos() < q <= old(stream).bytes().len()
            },
            Err(e) => r matches Err(e2) && e2 == e,
        },
{
    proof {
        reveal(spec_read_setting_payload);
    }
    let b = match stream.read_bytes() {
        Ok(v) => v,
        Err(e) => { return Err(e); },
    };
    Ok(Setting::FallbackProductionConfig(b))
}

fn read_p_mtpauthorization(stream: &mut ValueStream) -> (r: Result<Setting, ReadError>)
    requires
        old(stream).wf(),
    ensures
        final(stream).wf(),
        final(stream).bytes() == old(stream).bytes(),
        match spec_read_setting_payload(SettingKind::MtpAuthorization, old(stream).bytes(), old(
            stream,
        ).pos()) {
            Ok((sv, q)) => {
                &&& r matches Ok(s) && s@ == sv
                &&& final(stream).pos() == q
                &&& old(stream).pos() < q <= old(stream).bytes().len()
            },
            Err(e) => r matches Err(e2) && e2 == e,
        },
{
    proof {
        reveal(spec_read_setting_payload);
    }
    let b = match stream.read_bytes() {
        Ok(v) => v,
        Err(e) => { return Err(e); },
    };
    Ok(Setting::MtpAuthorization { serialized: b })
}

fn read_p_sessionsettings(stream: &mut ValueStream) -> (r: Result<Setting, ReadError>)
    requires
        old(stream).wf(),
    ensures
        final(stream).wf(),
        final(stream).bytes() == old(stream).bytes(),
        match spec_read_setting_payload(SettingKind::SessionSettings, old(stream).bytes(), old(
            stream,
        ).pos()) {
            Ok((sv, q)) => {
                &&& r matches Ok(s) && s@ == sv
                &&& final(stream).pos() == q
                &&& old(stream).pos() < q <= old(stream).bytes().len()
            },
            Err(e) => r matches Err(e2) && e2 == e,
        },
{
    proof {
        reveal(spec_read_setting_payload);
    }
    let b = match stream.read_bytes() {
        Ok(v) => v,
        Err(e) => { return Err(e); },
    };
    Ok(Setting::SessionSettings { serialized: b })
}

fn read_p_applicationsettings(stream: &mut ValueStream) -> (r: Result<Setting, ReadError>)
    requires
        old(stream).wf(),
    ensures
        final(stream).wf(),
        final(stream).bytes() == old(stream).bytes(),
        match spec_read_setting_payload(SettingKind::ApplicationSettings, old(stream).bytes(), old(
            stream,
        ).pos()) {
            Ok((sv, q)) => {
                &&& r matches Ok(s) && s@ == sv
                &&& final(stream).pos() == q
                &&& old(stream).pos() < q <= old(stream).bytes().len()
            },
            Err(e) => r matches Err(e2) && e2 == e,
        },
{
    proof {
        reveal(spec_read_setting_payload);
    }
    let b = match stream.read_bytes() {
        Ok(v) => v,
        Err(e) => { return Err(e); },
    };
    Ok(Setting::ApplicationSettings { serialized: b })
}

fn read_p_user(stream: &mut ValueStream) -> (r: Result<Setting, ReadError>)
    requires
        old(stream).wf(),
    ensures
        final(stream).wf(),
        final(stream).bytes() == old(stream).bytes(),
        match spec_read_setting_payload(SettingKind::User, old(stream).bytes(), old(
            stream,
        ).pos()) {
            Ok((sv, q)) => {
                &&& r matches Ok(s) && s@ == sv
                &&& final(stream).pos() == q
                &&& old(stream).pos() < q <= old(stream).bytes().len()
            },
            Err(e) => r matches Err(e2) && e2 == e,
        },
{
    proof {
        reveal(spec_read_setting_payload);
    }
    let user_id = match stream.read_i32() {
        Ok(v) => v,
        Err(e) => { return Err(e); },
    };
    let dc_id = match stream.read_u32() {
        Ok(v) => v,
        Err(e) => { return Err(e); },
    };
    Ok(Setting::User { user_id, dc_id })
}

fn read_p_recentstickers(stream: &mut ValueStream) -> (r: Result<Setting, ReadError>)
    requires
        old(stream).wf(),
    ensures
        final(stream).wf(),
        final(stream).bytes() == old(stream).bytes(),
        match spec_read_setting_payload(SettingKind::RecentStickers, old(stream).bytes(), old(
            stream,
        ).pos()) {
            Ok((sv, q)) => {
                &&& r matches Ok(s) && s@ == sv
                &&& final(stream).pos() == q
                &&& old(stream).pos() < q <= old(stream).bytes().len()
            },
            Err(e) => r matches Err(e2) && e2 == e,
        },
{
    proof {
        reveal(spec_read_setting_payload);
    }
    let n = match stream.read_u32() {
        Ok(v) => v,
        Err(e) => { return Err(e); },
    };
    let items = match read_sticker_pairs(stream, n) {
        Ok(v) => v,
        Err(e) => { return Err(e); },
    };
    Ok(Setting::RecentStickers(items))
}

fn read_p_cachesettings(stream: &mut ValueStream) -> (r: Result<Setting, ReadError>)
    requires
        old(stream).wf(),
    ensures
        final(stream).wf(),
        final(stream).bytes() == old(stream).bytes(),
        match spec_read_setting_payload(SettingKind::CacheSettings, old(stream).bytes(), old(
            stream,
        ).pos()) {
            Ok((sv, q)) => {
                &&& r matches Ok(s) && s@ == sv
                &&& final(stream).pos() == q
                &&& old(stream).pos() < q <= old(stream).bytes().len()
            },
            Err(e) => r matches Err(e2) && e2 == e,
        },
{
    proof {
        reveal(spec_read_setting_payload);
    }
    let size = match stream.read_i64() {
        Ok(v) => v,
        Err(e) => { return Err(e); },
    };
    let time = match stream.read_i32() {
        Ok(v) => v,
        Err(e) => { return Err(e); },
    };
    let size_big = match stream.read_i64() {
        Ok(v) => v,
        Err(e) => { return Err(e); },
    };
    let time_big = match stream.read_i32() {
        Ok(v) => v,
        Err(e) => { return Err(e); },
    };
    Ok(Setting::CacheSettings { size, time, size_big, time_big })
}

fn read_p_themekey(stream: &mut ValueStream) -> (r: Result<Setting, ReadError>)
    requires
        old(stream).wf(),
    ensures
        final(stream).wf(),
        final(stream).bytes() == old(stream).bytes(),
        match spec_read_setting_payload(SettingKind::ThemeKey, old(stream).bytes(), old(
            stream,
        ).pos()) {
            Ok((sv, q)) => {
                &&& r matches Ok(s) && s@ == sv
                &&& final(stream).pos() == q
                &&& old(stream).pos() < q <= old(stream).bytes().len()
            },
            Err(e) => r matches Err(e2) && e2 == e,
        },
{
    proof {
        reveal(spec_read_setting_payload);
    }
    let day = match stream.read_u64() {
        Ok(v) => v,
        Err(e) => { return Err(e); },
    };
    let night = match stream.read_u64() {
        Ok(v) => v,
        Err(e) => { return Err(e); },
    };
    let mode = match stream.read_u32() {
        Ok(v) => v,
        Err(e) => { return Err(e); },
    };
    Ok(Setting::ThemeKey { day: FileKey(day), night: FileKey(night), night_mode: mode == 1 })
}

fn read_p_backgroundkey(stream: &mut ValueStream) -> (r: Result<Setting, ReadError>)
    requires
        old(stream).wf(),
    ensures
        final(stream).wf(),
        final(stream).bytes() == old(stream).bytes(),
        match spec_read_setting_payload(SettingKind::BackgroundKey, old(stream).bytes(), old(
            stream,
        ).pos()) {
            Ok((sv, q)) => {
                &&& r matches Ok(s) && s@ == sv
                &&& final(stream).pos() == q
                &&& old(stream).pos() < q <= old(stream).bytes().len()
            },
            Err(e) => r matches Err(e2) && e2 == e,
        },
{
    proof {
        reveal(spec_read_setting_payload);
    }
    let day = match stream.read_u64() {
        Ok(v) => v,
        Err(e) => { return Err(e); },
    };
    let night = match stream.read_u64() {
        Ok(v) => v,
        Err(e) => { return Err(e); },
    };
    Ok(Setting::BackgroundKey { day: FileKey(day), night: FileKey(night) })
}

fn read_p_tilebackground(stream: &mut ValueStream) -> (r: Result<Setting, ReadError>)
    requires
        old(stream).wf(),
    ensures
        final(stream).wf(),
        final(stream).bytes() == old(stream).bytes(),
        match spec_read_setting_payload(SettingKind::TileBackground, old(stream).bytes(), old(
            stream,
        ).pos()) {
            Ok((sv, q)) => {
                &&& r matches Ok(s) && s@ == sv
                &&& final(stream).pos() == q
                &&& old(stream).pos() < q <= old(stream).bytes().len()
            },
            Err(e) => r matches Err(e2) && e2 == e,
        },
{
    proof {
        reveal(spec_read_setting_payload);
    }
    let day = match stream.read_i32() {
        Ok(v) => v,
        Err(e) => { return Err(e); },
    };
    let night = match stream.read_i32() {
        Ok(v) => v,
        Err(e) => { return Err(e); },
    };
    Ok(Setting::TileBackground { day, night })
}

fn read_p_langpackkey(stream: &mut ValueStream) -> (r: Result<Setting, ReadError>)
    requires
        old(stream).wf(),
    ensures
        final(stream).wf(),
        final(stream).bytes() == old(stream).bytes(),
        match spec_read_setting_payload(SettingKind::LangPackKey, old(stream).bytes(), old(
            stream,
        ).pos()) {
            Ok((sv, q)) => {
                &&& r matches Ok(s) && s@ == sv
                &&& final(stream).pos() == q
                &&& old(stream).pos() < q <= old(stream).bytes().len()
            },
            Err(e) => r matches Err(e2) && e2 == e,
        },
{
    proof {
        reveal(spec_read_setting_payload);
    }
    let k = match stream.read_u64() {
        Ok(v) => v,
        Err(e) => { return Err(e); },
    };
    Ok(Setting::LangPackKey(FileKey(k)))
}

fn read_p_languageskey(stream: &mut ValueStream) -> (r: Result<Setting, ReadError>)
    requires
        old(stream).wf(),
    ensures
        final(stream).wf(),
        final(stream).bytes() == old(stream).bytes(),
        match spec_read_setting_payload(SettingKind::LanguagesKey, old(stream).bytes(), old(
            stream,
        ).pos()) {
            Ok((sv, q)) => {
                &&& r matches Ok(s) && s@ == sv
                &&& final(stream).pos() == q
                &&& old(stream).pos() < q <= old(stream).bytes().len()
            },
            Err(e) => r matches Err(e2) && e2 == e,
        },
{
    proof {
        reveal(spec_read_setting_payload);
    }
    let k = match stream.read_u64() {
        Ok(v) => v,
        Err(e) => { return Err(e); },
    };
    Ok(Setting::LanguagesKey(FileKey(k)))
}

impl Setting {
    /// Reads one tagged setting record from the stream. On success the
    /// position always advances (a record is at least its 4-byte code).
    pub fn read_from(stream: &mut ValueStream) -> (r: Result<Setting, ReadError>)
        requires
            old(stream).wf(),
        ensures
            final(stream).wf(),
            final(stream).bytes() == old(stream).bytes(),
            match spec_read_setting(old(stream).bytes(), old(stream).pos()) {
                Ok((sv, q)) => {
                    &&& r matches Ok(s) && s@ == sv
                    &&& final(stream).pos() == q
                    &&& old(stream).pos() < q <= old(stream).bytes().len()
                },
                Err(e) => r matches Err(e2) && e2 == e,
            },
    {
        let ghost d = old(stream).bytes();
        let code = match stream.read_u32() {
            Ok(v) => v,
            Err(e) => { return Err(e); },
        };
        let kind = match SettingKind::from_code(code) {
            Some(k) => k,
            None => { return Err(ReadError::InvalidData); },
        };
        match kind {
            SettingKind::User => read_p_user(stream),
            SettingKind::AutoStart => read_p_autostart(stream),
            SettingKind::StartMinimized => read_p_startminimized(stream),
            SettingKind::SeenTrayTooltip => read_p_seentraytooltip(stream),
            SettingKind::AutoUpdate => read_p_autoupdate(stream),
            SettingKind::SendToMenu => read_p_sendtomenu(stream),
            SettingKind::UseExternalVideoPlayer => read_p_useexternalvideoplayer(stream),
            SettingKind::AnimationsDisabled => read_p_animationsdisabled(stream),
            SettingKind::LastUpdateCheck => read_p_lastupdatecheck(stream),
            SettingKind::DefaultAttach => read_p_defaultattach(stream),
            SettingKind::ScalePercent => read_p_scalepercent(stream),
            SettingKind::DialogLastPath => read_p_dialoglastpath(stream),
            SettingKind::MtpAuthorization => read_p_mtpauthorization(stream),
            SettingKind::SessionSettings => read_p_sessionsettings(stream),
            SettingKind::ApplicationSettings => read_p_applicationsettings(stream),
            SettingKind::FallbackProductionConfig => read_p_fallbackproductionconfig(stream),
            SettingKind::RecentStickers => read_p_recentstickers(stream),
            SettingKind::CacheSettings => read_p_cachesettings(stream),
            SettingKind::ThemeKey => read_p_themekey(stream),
            SettingKind::BackgroundKey => read_p_backgroundkey(stream),
            SettingKind::TileBackground => read_p_tilebackground(stream),
            SettingKind::LangPackKey => read_p_langpackkey(stream),
            SettingKind::LanguagesKey => read_p_languageskey(stream),
            _ => {
                proof {
                    lemma_payload_unsupported(kind, d, stream.pos());
                }
                Err(ReadError::Unsupported)
            },
        }
    }
}

/// What a whole settings stream parses to, record after record until the end
/// of the data. The backwards-position guard can never be taken (a record
/// always advances); it only bounds the recursion.
pub open spec fn spec_read_settings(d: Seq<u8>, p: int) -> Result<Seq<SettingV>, ReadError>
    decreases d.len() - p when 0 <= p <= d.len()
{
    if p == d.len() {
        Ok(Seq::empty())
    } else {
        match spec_read_setting(d, p) {
            Err(e) => Err(e),
            Ok((sv, q)) => if !(p < q <= d.len()) {
                Err(ReadError::Io)
            } else {
                match spec_read_settings(d, q) {
                    Err(e) => Err(e),
                    Ok(rest) => Ok(seq![sv] + rest),
                }
            },
        }
    }
}

/// The views of a sequence of parsed settings.
pub open spec fn settings_view(s: Seq<Setting>) -> Seq<SettingV> {
    s.map_values(|x: Setting| x@)
}

/// Reads setting records until the stream is exhausted, as both the
/// application-wide and the per-account settings blocks are read.
#[verifier::rlimit(100)]
pub fn read_settings_stream(stream: &mut ValueStream) -> (r: Result<Vec<Setting>, ReadError>)
    requires
        old(stream).wf(),
    ensures
        final(stream).wf(),
        final(stream).bytes() == old(stream).bytes(),
        match spec_read_settings(old(stream).bytes(), old(stream).pos()) {
            Ok(svs) => r matches Ok(v) && settings_view(v@) == svs,
            Err(e) => r matches Err(e2) && e2 == e,
        },
{
    let ghost d = old(stream).bytes();
    let ghost p0 = old(stream).pos();
    let mut acc: Vec<Setting> = Vec::new();
    while !stream.is_done()
        invariant
            d == old(stream).bytes(),
            p0 == old(stream).pos(),
            stream.wf(),
            stream.bytes() == d,
            0 <= stream.pos() <= d.len(),
            ({
                match spec_read_settings(d, p0) {
                    Ok(svs) => spec_read_settings(d, stream.pos()) matches Ok(rest)
                        && settings_view(acc@) + rest == svs,
                    Err(e) => spec_read_settings(d, stream.pos()) == Err::<Seq<SettingV>,
                    ReadError>(e),
                }
            }),
        decreases d.len() - stream.pos(),
    {
        let ghost p_cur = stream.pos();
        let s = match Setting::read_from(stream) {
            Ok(s) => s,
            Err(e) => { return Err(e); },
        };
        let ghost before = acc@;
        acc.push(s);
        proof {
            let (sv, q) = spec_read_setting(d, p_cur)->Ok_0;
            if spec_read_settings(d, stream.pos()) is Ok {
                let rest = spec_read_settings(d, stream.pos())->Ok_0;
                assert(spec_read_settings(d, p_cur) == Ok::<Seq<SettingV>, ReadError>(
                    seq![sv] + rest,
                ));
                assert(settings_view(acc@) =~= settings_view(before).push(sv));
                assert(settings_view(before) + (seq![sv] + rest) =~= settings_view(acc@) + rest);
            } else {
                let e = spec_read_settings(d, stream.pos())->Err_0;
                assert(spec_read_settings(d, p_cur) == Err::<Seq<SettingV>, ReadError>(e));
            }
        }
    }
    proof {
        assert(spec_read_settings(d, stream.pos()) == Ok::<Seq<SettingV>, ReadError>(Seq::empty()));
        if spec_read_settings(d, p0) is Ok {
            assert(settings_view(acc@) + Seq::<SettingV>::empty() =~= settings_view(acc@));
        }
    }
    Ok(acc)
}

} // verus!
