//! The saved-theme record: a cloud or local theme bundle layered on top of
//! an encrypted block, together with its cached palette data. A sentinel
//! string in the relative-path slot distinguishes a cloud record from a
//! local one, and a referenced on-disk theme file is subject to a strict
//! 5 MiB size ceiling.

use vstd::prelude::*;

use crate::error::ReadError;
use crate::stream::{
    bytes_eq, spec_read_bytes, spec_read_i32_opt, spec_read_string_res, spec_read_u32_opt,
    spec_read_u64_opt, ValueStream,
};

verus! {

broadcast use crate::stream::lemma_stream_pos_bounds;

/// The sentinel in the relative-path slot that marks a cloud theme.
pub open spec fn new_tag_chars() -> Seq<char> {
    "special://new_tag"@
}

/// The strict size ceiling on a referenced on-disk theme file.
pub open spec fn theme_size_limit() -> u64 {
    5242880
}

/// Whether an on-disk theme file of `len` bytes may be read at all.
pub fn theme_file_size_ok(len: u64) -> (r: bool)
    ensures
        r == (len < theme_size_limit()),
{
    len < 5242880
}

/// Enforces the size ceiling: a file of `len` bytes passes exactly when it
/// is strictly under the limit, and is refused as `FileTooLarge` otherwise.
pub fn check_theme_file_size(len: u64) -> (r: Result<(), ReadError>)
    ensures
        r == if len < theme_size_limit() {
            Ok::<(), ReadError>(())
        } else {
            Err::<(), ReadError>(ReadError::FileTooLarge)
        },
{
    if len < 5242880 {
        Ok(())
    } else {
        Err(ReadError::FileTooLarge)
    }
}

/// The server-side identity of a cloud theme.
#[derive(Debug)]
pub struct CloudTheme {
    pub id: u64,
    pub access_hash: u64,
    pub slug: String,
    pub title: String,
    pub document_id: u64,
    pub created_by: u64,
    pub users_count: i32,
}

/// The mathematical shape of a cloud theme.
pub struct CloudThemeV {
    pub id: u64,
    pub access_hash: u64,
    pub slug: Seq<char>,
    pub title: Seq<char>,
    pub document_id: u64,
    pub created_by: u64,
    pub users_count: i32,
}

impl View for CloudTheme {
    type V = CloudThemeV;

    open spec fn view(&self) -> CloudThemeV {
        CloudThemeV {
            id: self.id,
            access_hash: self.access_hash,
            slug: self.slug@,
            title: self.title@,
            document_id: self.document_id,
            created_by: self.created_by,
            users_count: self.users_count,
        }
    }
}

/// An all-zero cloud identity, as a local theme carries.
pub open spec fn cloud_zero() -> CloudThemeV {
    CloudThemeV {
        id: 0,
        access_hash: 0,
        slug: Seq::empty(),
        title: Seq::empty(),
        document_id: 0,
        created_by: 0,
        users_count: 0,
    }
}

/// The theme bundle itself: its content bytes, its two paths, and its cloud
/// identity.
#[derive(Debug)]
pub struct ThemeObject {
    pub path_relative: String,
    pub path_absolute: String,
    pub content: Vec<u8>,
    pub cloud: CloudTheme,
}

/// The mathematical shape of a theme bundle.
pub struct ThemeObjectV {
    pub path_relative: Seq<char>,
    pub path_absolute: Seq<char>,
    pub content: Seq<u8>,
    pub cloud: CloudThemeV,
}

impl View for ThemeObject {
    type V = ThemeObjectV;

    open spec fn view(&self) -> ThemeObjectV {
        ThemeObjectV {
            path_relative: self.path_relative@,
            path_absolute: self.path_absolute@,
            content: self.content@,
            cloud: self.cloud@,
        }
    }
}

/// The cached palette data of a theme.
#[derive(Debug)]
pub struct CachedTheme {
    pub colors: Vec<u8>,
    pub background: Vec<u8>,
    pub tiled: bool,
    pub palette_checksum: i32,
    pub content_checksum: i32,
}

/// The mathematical shape of the cached palette data.
pub struct CachedThemeV {
    pub colors: Seq<u8>,
    pub background: Seq<u8>,
    pub tiled: bool,
    pub palette_checksum: i32,
    pub content_checksum: i32,
}

impl View for CachedTheme {
    type V = CachedThemeV;

    open spec fn view(&self) -> CachedThemeV {
        CachedThemeV {
            colors: self.colors@,
            background: self.background@,
            tiled: self.tiled,
            palette_checksum: self.palette_checksum,
            content_checksum: self.content_checksum,
        }
    }
}

/// An empty cache, kept when the on-disk content displaced the embedded one.
pub open spec fn cache_zero() -> CachedThemeV {
    CachedThemeV {
        colors: Seq::empty(),
        background: Seq::empty(),
        tiled: false,
        palette_checksum: 0,
        content_checksum: 0,
    }
}

/// A fully decoded theme record.
#[derive(Debug)]
pub struct SavedTheme {
    pub object: ThemeObject,
    pub cache: CachedTheme,
}

/// The mathematical shape of a decoded theme record.
pub struct SavedThemeV {
    pub object: ThemeObjectV,
    pub cache: CachedThemeV,
}

impl View for SavedTheme {
    type V = SavedThemeV;

    open spec fn view(&self) -> SavedThemeV {
        SavedThemeV { object: self.object@, cache: self.cache@ }
    }
}

/// The leading part of a theme record, read before any look at the disk.
#[derive(Debug)]
pub struct ThemeHead {
    pub object: ThemeObject,
    pub field1: i32,
    pub is_new_tag: bool,
}

/// The mathematical shape of the leading part.
pub struct ThemeHeadV {
    pub object: ThemeObjectV,
    pub field1: i32,
    pub is_new_tag: bool,
}

impl View for ThemeHead {
    type V = ThemeHeadV;

    open spec fn view(&self) -> ThemeHeadV {
        ThemeHeadV { object: self.object@, field1: self.field1, is_new_tag: self.is_new_tag }
    }
}

/// The byte view of an optional buffer.
pub open spec fn option_bytes_view(o: Option<Vec<u8>>) -> Option<Seq<u8>> {
    match o {
        Some(v) => Some(v@),
        None => None,
    }
}

/// The 64-bit sign extension of a 32-bit signed value.
pub open spec fn u64_sext_i32(v: i32) -> u64 {
    if v >= 0 {
        v as u64
    } else {
        (v + 0x10000000000000000) as u64
    }
}

/// The creator field stitched from the two trailing scalars of a cloud
/// record: the high 24 bits of `field2` shifted up, or-ed with the sign
/// extension of `field1`.
pub open spec fn created_by_of(field1: i32, field2: u32) -> u64 {
    (((field2 as u64) >> 8) << 32) | u64_sext_i32(field1)
}

/// What the leading part of a theme record at offset `p` parses to: the
/// content bytes, the tag string (the sentinel for a cloud theme, else the
/// relative path), the absolute path, and for a cloud theme its identity and
/// the first trailing scalar.
pub open spec fn spec_read_theme_head(d: Seq<u8>, p: int) -> Result<(ThemeHeadV, int), ReadError> {
    match spec_read_bytes(d, p) {
        None => Err(ReadError::Io),
        Some((content, p1)) => match spec_read_string_res(d, p1) {
            Err(e) => Err(e),
            Ok((tag, p2)) => match spec_read_string_res(d, p2) {
                Err(e) => Err(e),
                Ok((path_absolute, p3)) => {
                    if tag == new_tag_chars() {
                        match spec_read_string_res(d, p3) {
                            Err(e) => Err(e),
                            Ok((path_relative, p4)) => match spec_read_u64_opt(d, p4) {
                                None => Err(ReadError::Io),
                                Some((id, p5)) => match spec_read_u64_opt(d, p5) {
                                    None => Err(ReadError::Io),
                                    Some((access_hash, p6)) => match spec_read_string_res(d, p6) {
                                        Err(e) => Err(e),
                                        Ok((slug, p7)) => match spec_read_string_res(d, p7) {
                                            Err(e) => Err(e),
                                            Ok((title, p8)) => match spec_read_u64_opt(d, p8) {
                                                None => Err(ReadError::Io),
                                                Some((document_id, p9)) => match spec_read_i32_opt(
                                                    d,
                                                    p9,
                                                ) {
                                                    None => Err(ReadError::Io),
                                                    Some((field1, p10)) => Ok(
                                                        (
                                                            ThemeHeadV {
                                                                object: ThemeObjectV {
                                                                    path_relative,
                                                                    path_absolute,
                                                                    content,
                                                                    cloud: CloudThemeV {
                                                                        id,
                                                                        access_hash,
                                                                        slug,
                                                                        title,
                                                                        document_id,
                                                                        created_by: 0,
                                                                        users_count: 0,
                                                                    },
                                                                },
                                                                field1,
                                                                is_new_tag: true,
                                                            },
                                                            p10,
                                                        ),
                                                    ),
                                                },
                                            },
                                        },
                                    },
                                },
                            },
                        }
                    } else {
                        Ok(
                            (
                                ThemeHeadV {
                                    object: ThemeObjectV {
                                        path_relative: tag,
                                        path_absolute,
                                        content,
                                        cloud: cloud_zero(),
                                    },
                                    field1: 0,
                                    is_new_tag: false,
                                },
                                p3,
                            ),
                        )
                    }
                },
            },
        },
    }
}

/// What the trailing part of a theme record parses to, given the leading
/// part and the referenced on-disk content (present exactly when the theme
/// is local): the five cache fields are always consumed; on-disk content
/// that differs from the embedded copy displaces it and empties the cache;
/// a cloud record gets its creator stitched from the two trailing scalars.
pub open spec fn spec_read_theme_finish(
    head: ThemeHeadV,
    disk: Option<Seq<u8>>,
    d: Seq<u8>,
    p: int,
) -> Result<(SavedThemeV, int), ReadError> {
    let ignore_cache = match disk {
        Some(b) => b != head.object.content,
        None => false,
    };
    let content = match disk {
        Some(b) => b,
        None => head.object.content,
    };
    match spec_read_i32_opt(d, p) {
        None => Err(ReadError::Io),
        Some((palette_checksum, p1)) => match spec_read_i32_opt(d, p1) {
            None => Err(ReadError::Io),
            Some((content_checksum, p2)) => match spec_read_bytes(d, p2) {
                None => Err(ReadError::Io),
                Some((colors, p3)) => match spec_read_bytes(d, p3) {
                    None => Err(ReadError::Io),
                    Some((background, p4)) => match spec_read_u32_opt(d, p4) {
                        None => Err(ReadError::Io),
                        Some((field2, q)) => Ok(
                            (
                                SavedThemeV {
                                    object: ThemeObjectV {
                                        path_relative: head.object.path_relative,
                                        path_absolute: head.object.path_absolute,
                                        content,
                                        cloud: CloudThemeV {
                                            id: head.object.cloud.id,
                                            access_hash: head.object.cloud.access_hash,
                                            slug: head.object.cloud.slug,
                                            title: head.object.cloud.title,
                                            document_id: head.object.cloud.document_id,
                                            created_by: if head.is_new_tag {
                                                created_by_of(head.field1, field2)
                                            } else {
                                                head.object.cloud.created_by
                                            },
                                            users_count: head.object.cloud.users_count,
                                        },
                                    },
                                    cache: if ignore_cache {
                                        cache_zero()
                                    } else {
                                        CachedThemeV {
                                            colors,
                                            background,
                                            tiled: (field2 & 0xFF) == 1,
                                            palette_checksum,
                                            content_checksum,
                                        }
                                    },
                                },
                                q,
                            ),
                        ),
                    },
                },
            },
        },
    }
}

/// The 64-bit sign extension, computed.
fn u64_sext(v: i32) -> (r: u64)
    ensures
        r == u64_sext_i32(v),
{
    if v >= 0 {
        v as u64
    } else {
        0xFFFFFFFF00000000u64 + (crate::envelope::i32_to_bits_exec(v) as u64)
    }
}

/// Reads the leading part of a theme record, up to the point where the disk
/// may have to be consulted (a local theme's file is read by the caller).
#[verifier::rlimit(100)]
pub fn read_theme_head(stream: &mut ValueStream) -> (r: Result<ThemeHead, ReadError>)
    requires
        old(stream).wf(),
    ensures
        final(stream).wf(),
        final(stream).bytes() == old(stream).bytes(),
        match spec_read_theme_head(old(stream).bytes(), old(stream).pos()) {
            Ok((hv, q)) => {
                &&& r matches Ok(h) && h@ == hv
                &&& final(stream).pos() == q
            },
            Err(e) => r matches Err(e2) && e2 == e,
        },
{
    let content = match stream.read_bytes() {
        Ok(v) => v,
        Err(e) => { return Err(e); },
    };
    let tag = match stream.read_string() {
        Ok(v) => v,
        Err(e) => { return Err(e); },
    };
    let path_absolute = match stream.read_string() {
        Ok(v) => v,
        Err(e) => { return Err(e); },
    };
    let sentinel = String::from_str("special://new_tag");
    if tag == sentinel {
        let path_relative = match stream.read_string() {
            Ok(v) => v,
            Err(e) => { return Err(e); },
        };
        let id = match stream.read_u64() {
            Ok(v) => v,
            Err(e) => { return Err(e); },
        };
        let access_hash = match stream.read_u64() {
            Ok(v) => v,
            Err(e) => { return Err(e); },
        };
        let slug = match stream.read_string() {
            Ok(v) => v,
            Err(e) => { return Err(e); },
        };
        let title = match stream.read_string() {
            Ok(v) => v,
            Err(e) => { return Err(e); },
        };
        let document_id = match stream.read_u64() {
            Ok(v) => v,
            Err(e) => { return Err(e); },
        };
        let field1 = match stream.read_i32() {
            Ok(v) => v,
            Err(e) => { return Err(e); },
        };
        Ok(ThemeHead {
            object: ThemeObject {
                path_relative,
                path_absolute,
                content,
                cloud: CloudTheme {
                    id,
                    access_hash,
                    slug,
                    title,
                    document_id,
                    created_by: 0,
                    users_count: 0,
                },
            },
            field1,
            is_new_tag: true,
        })
    } else {
        Ok(ThemeHead {
            object: ThemeObject {
                path_relative: tag,
                path_absolute,
                content,
                cloud: CloudTheme {
                    id: 0,
                    access_hash: 0,
                    slug: String::new(),
                    title: String::new(),
                    document_id: 0,
                    created_by: 0,
                    users_count: 0,
                },
            },
            field1: 0,
            is_new_tag: false,
        })
    }
}

/// Reads the trailing part of a theme record. `disk` carries the referenced
/// on-disk content for a local theme (the caller has already enforced the
/// size ceiling), and nothing for a cloud theme.
pub fn read_theme_finish(head: ThemeHead, disk: Option<Vec<u8>>, stream: &mut ValueStream) -> (r:
    Result<SavedTheme, ReadError>)
    requires
        old(stream).wf(),
    ensures
        final(stream).wf(),
        final(stream).bytes() == old(stream).bytes(),
        match spec_read_theme_finish(
            head@,
            option_bytes_view(disk),
            old(stream).bytes(),
            old(stream).pos(),
        ) {
            Ok((tv, q)) => {
                &&& r matches Ok(t) && t@ == tv
                &&& final(stream).pos() == q
            },
            Err(e) => r matches Err(e2) && e2 == e,
        },
{
    let ghost disk_v = option_bytes_view(disk);
    let ghost orig_content = head.object.content@;
    let mut object = head.object;
    let mut ignore_cache = false;
    match disk {
        Some(bytes) => {
            if !bytes_eq(object.content.as_slice(), bytes.as_slice()) {
                object.content = bytes;
                ignore_cache = true;
            } else {
                proof {
                    assert(object.content@ == bytes@);
                }
            }
        },
        None => (),
    }
    proof {
        match disk_v {
            Some(b) => {
                assert(object.content@ == if b != orig_content {
                    b
                } else {
                    orig_content
                });
                assert(ignore_cache == (b != orig_content));
            },
            None => {
                assert(object.content@ == orig_content);
                assert(!ignore_cache);
            },
        }
    }
    let palette_checksum = match stream.read_i32() {
        Ok(v) => v,
        Err(e) => { return Err(e); },
    };
    let content_checksum = match stream.read_i32() {
        Ok(v) => v,
        Err(e) => { return Err(e); },
    };
    let colors = match stream.read_bytes() {
        Ok(v) => v,
        Err(e) => { return Err(e); },
    };
    let background = match stream.read_bytes() {
        Ok(v) => v,
        Err(e) => { return Err(e); },
    };
    let field2 = match stream.read_u32() {
        Ok(v) => v,
        Err(e) => { return Err(e); },
    };
    if head.is_new_tag {
        object.cloud.created_by = ((field2 as u64 >> 8) << 32) | u64_sext(head.field1);
    }
    let cache = if ignore_cache {
        CachedTheme {
            colors: Vec::new(),
            background: Vec::new(),
            tiled: false,
            palette_checksum: 0,
            content_checksum: 0,
        }
    } else {
        CachedTheme {
            colors,
            background,
            tiled: (field2 & 0xFF) == 1,
            palette_checksum,
            content_checksum,
        }
    };
    Ok(SavedTheme { object, cache })
}

} // verus!
