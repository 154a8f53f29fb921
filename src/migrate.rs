//! Bringing a record's assets into the canonical layout (`card.png` and
//! `thumbnail.png` in the record's directory, named by relative paths),
//! whatever historical layout it was stored in.
//!
//! The decisions are made here from the record and from what its directory
//! holds; the caller performs the file writes that the plan asks for, using
//! the images rendered here.

use vstd::prelude::*;
use vstd::string::StrSliceExecFns;
use vstd::utf8::*;
use crate::bindings::{
    base64_bytes, base64_decode, current_timestamp, image_as_png, image_decodes, image_thumbnail_png,
};
use crate::error::StoreError;
use crate::model::{
    card_file_name, card_file_name_string, thumbnail_file_name, thumbnail_file_name_string,
    CharacterData,
};

verus! {

/// The longer side of a thumbnail is at most this many pixels.
pub const THUMBNAIL_MAX_SIZE: u32 = 320;

/// What the record's directory holds before migration.
#[derive(Debug, Clone, Copy)]
pub struct AssetDisk {
    /// `card.png` exists.
    pub card_exists: bool,
    /// `thumbnail.png` exists.
    pub thumbnail_exists: bool,
    /// The record's background path names an existing file other than its
    /// `card.png`.
    pub legacy_background_exists: bool,
}

/// Where a new `card.png` (and with it `thumbnail.png`) comes from.
#[derive(Debug)]
pub enum PortraitSource {
    /// The portrait stays as it is.
    Keep,
    /// Image bytes that the record held inline as a data URL.
    Inline(Vec<u8>),
    /// The file at this legacy path.
    LegacyFile(String),
}

/// What migrating one record asks the caller to do.
#[derive(Debug)]
pub struct AssetMigration {
    /// Write `card.png` and `thumbnail.png` from this source.
    pub portrait: PortraitSource,
    /// Render `thumbnail.png` again from `card.png`.
    pub regenerate_thumbnail: bool,
    /// Write the record back.
    pub dirty: bool,
}

/// The portrait source as a plain value.
pub enum PortraitPlan {
    Keep,
    Inline(Seq<u8>),
    LegacyFile(Seq<char>),
}

/// The outcome of a migration as plain values.
pub struct MigrationPlan {
    pub portrait: PortraitPlan,
    pub background: Seq<char>,
    pub thumbnail: Seq<char>,
    pub regenerate_thumbnail: bool,
    pub dirty: bool,
}

impl PortraitSource {
    pub open spec fn plan(&self) -> PortraitPlan {
        match self {
            PortraitSource::Keep => PortraitPlan::Keep,
            PortraitSource::Inline(v) => PortraitPlan::Inline(v@),
            PortraitSource::LegacyFile(p) => PortraitPlan::LegacyFile(p@),
        }
    }
}

/// `s` begins with the `data:` scheme.
pub open spec fn is_data_url(s: Seq<char>) -> bool {
    s.len() >= 5 && s.subrange(0, 5) == seq!['d', 'a', 't', 'a', ':']
}

pub open spec fn comma_free(b: Seq<u8>) -> bool {
    forall|i: int| 0 <= i < b.len() ==> b[i] != 44u8
}

/// `k` is the one comma of `b`.
pub open spec fn sole_comma_at(b: Seq<u8>, k: int) -> bool {
    &&& 0 <= k < b.len()
    &&& b[k] == 44u8
    &&& comma_free(b.subrange(0, k))
    &&& comma_free(b.subrange(k + 1, b.len() as int))
}

/// What follows the one comma of `b`, if it has exactly one.
pub open spec fn after_sole_comma(b: Seq<u8>) -> Option<Seq<u8>> {
    if exists|k: int| sole_comma_at(b, k) {
        let k = choose|k: int| sole_comma_at(b, k);
        Some(b.subrange(k + 1, b.len() as int))
    } else {
        None
    }
}

/// The image bytes of a data URL: a `data:` URL with one comma, followed by
/// base64 text.
pub open spec fn data_url_image(url: Seq<char>) -> Option<Seq<u8>> {
    if !is_data_url(url) {
        None
    } else {
        match after_sole_comma(encode_utf8(url)) {
            None => None,
            Some(payload) => base64_bytes(payload),
        }
    }
}

/// Where the portrait comes from, and the background path after the
/// portrait steps: an inline data URL or an existing legacy file is written
/// to `card.png`; an empty path next to an existing `card.png` is repaired.
pub open spec fn portrait_plan(bg: Seq<char>, disk: AssetDisk) -> Option<(PortraitPlan, Seq<char>)> {
    if is_data_url(bg) {
        match data_url_image(bg) {
            Some(v) => Some((PortraitPlan::Inline(v), card_file_name())),
            None => None,
        }
    } else if bg.len() > 0 {
        if bg != card_file_name() && disk.legacy_background_exists {
            Some((PortraitPlan::LegacyFile(bg), card_file_name()))
        } else {
            Some((PortraitPlan::Keep, bg))
        }
    } else if disk.card_exists {
        Some((PortraitPlan::Keep, card_file_name()))
    } else {
        Some((PortraitPlan::Keep, bg))
    }
}

/// The whole migration of a record with background path `bg` and thumbnail
/// path `th`; `None` when its inline image data is malformed.
pub open spec fn migration_plan(bg: Seq<char>, th: Seq<char>, disk: AssetDisk) -> Option<MigrationPlan> {
    match portrait_plan(bg, disk) {
        None => None,
        Some((portrait, bg1)) => {
            let written = !(portrait is Keep);
            let th1 = if written { thumbnail_file_name() } else { th };
            let thumb_before = disk.thumbnail_exists || written;
            let regenerate = (disk.card_exists || written) && !thumb_before;
            let th2 = if th1.len() == 0 && (thumb_before || regenerate) {
                thumbnail_file_name()
            } else {
                th1
            };
            Some(
                MigrationPlan {
                    portrait,
                    background: bg1,
                    thumbnail: th2,
                    regenerate_thumbnail: regenerate,
                    dirty: written || bg1 != bg || regenerate || th2 != th,
                },
            )
        },
    }
}

/// Whether `s` begins with `data:`.
fn has_data_scheme(s: &str) -> (r: bool)
    ensures
        r == is_data_url(s@),
{
    if s.unicode_len() < 5 {
        return false;
    }
    let r = s.get_char(0) == 'd' && s.get_char(1) == 'a' && s.get_char(2) == 't' && s.get_char(3)
        == 'a' && s.get_char(4) == ':';
    assert(r ==> s@.subrange(0, 5) =~= seq!['d', 'a', 't', 'a', ':']);
    assert(s@.subrange(0, 5) == seq!['d', 'a', 't', 'a', ':'] ==> r) by {
        if s@.subrange(0, 5) == seq!['d', 'a', 't', 'a', ':'] {
            assert(s@[0] == s@.subrange(0, 5)[0]);
            assert(s@[1] == s@.subrange(0, 5)[1]);
            assert(s@[2] == s@.subrange(0, 5)[2]);
            assert(s@[3] == s@.subrange(0, 5)[3]);
            assert(s@[4] == s@.subrange(0, 5)[4]);
        }
    }
    r
}

/// The position of the first comma of `b` at or after `from`, if any.
fn find_comma(b: &[u8], from: usize) -> (r: Option<usize>)
    requires
        from <= b@.len(),
    ensures
        match r {
            Some(k) => from <= k < b@.len() && b@[k as int] == 44u8 && comma_free(
                b@.subrange(from as int, k as int),
            ),
            None => comma_free(b@.subrange(from as int, b@.len() as int)),
        },
{
    let mut i: usize = from;
    while i < b.len()
        invariant
            from <= i <= b@.len(),
            comma_free(b@.subrange(from as int, i as int)),
        decreases b@.len() - i,
    {
        if b[i] == 44u8 {
            return Some(i);
        }
        assert(comma_free(b@.subrange(from as int, i + 1))) by {
            assert forall|j: int| 0 <= j < i + 1 - from implies #[trigger] b@.subrange(
                from as int,
                i + 1,
            )[j] != 44u8 by {
                if j < i - from {
                    assert(b@.subrange(from as int, i + 1)[j] == b@.subrange(from as int, i as int)[j]);
                }
            }
        }
        i = i + 1;
    }
    None
}

/// The image bytes that a data URL carries (`data:<type>;base64,<text>`).
pub fn decode_data_url(data_url: &str) -> (r: Result<Vec<u8>, StoreError>)
    ensures
        match data_url_image(data_url@) {
            Some(v) => r matches Ok(b) && b@ == v,
            None => r matches Err(e) && e is InvalidFormat,
        },
{
    if !has_data_scheme(data_url) {
        return Err(StoreError::InvalidFormat);
    }
    let b = data_url.as_bytes();
    let n = b.len();
    let k = match find_comma(b, 0) {
        Some(k) => k,
        None => {
            assert(forall|k: int| !#[trigger] sole_comma_at(b@, k)) by {
                assert forall|k: int| !sole_comma_at(b@, k) by {
                    if 0 <= k < b@.len() {
                        assert(b@.subrange(0, b@.len() as int)[k] == b@[k]);
                    }
                }
            }
            return Err(StoreError::InvalidFormat);
        },
    };
    match find_comma(b, k + 1) {
        Some(k2) => {
            assert(forall|j: int| !#[trigger] sole_comma_at(b@, j)) by {
                assert forall|j: int| !sole_comma_at(b@, j) by {
                    if sole_comma_at(b@, j) {
                        if j < k {
                            assert(b@.subrange(0, k as int)[j] == b@[j]);
                        } else if j == k {
                            assert(b@.subrange(k + 1, b@.len() as int)[k2 - k - 1] == b@[k2 as int]);
                        } else {
                            assert(b@.subrange(0, j)[k as int] == b@[k as int]);
                        }
                    }
                }
            }
            Err(StoreError::InvalidFormat)
        },
        None => {
            assert(sole_comma_at(b@, k as int));
            assert(forall|j: int| #[trigger] sole_comma_at(b@, j) ==> j == k) by {
                assert forall|j: int| sole_comma_at(b@, j) implies j == k by {
                    if j < k {
                        assert(b@.subrange(0, k as int)[j] == b@[j]);
                    } else if j > k {
                        assert(b@.subrange(0, j)[k as int] == b@[k as int]);
                    }
                }
            }
            let payload = &b[k + 1..b.len()];
            match base64_decode(payload) {
                Ok(v) => Ok(v),
                Err(_) => Err(StoreError::InvalidFormat),
            }
        },
    }
}

/// A portrait rendered as `card.png` and `thumbnail.png`, with the
/// thumbnail's size.
#[derive(Debug)]
pub struct CardImages {
    pub card_png: Vec<u8>,
    pub thumbnail_png: Vec<u8>,
    pub thumbnail_width: u32,
    pub thumbnail_height: u32,
}

/// The thumbnail fits a `THUMBNAIL_MAX_SIZE` square.
pub open spec fn thumbnail_fits(width: u32, height: u32) -> bool {
    1 <= width <= THUMBNAIL_MAX_SIZE && 1 <= height <= THUMBNAIL_MAX_SIZE
}

/// Decodes an image and renders it as the PNG portrait and its thumbnail,
/// scaled to fit a `THUMBNAIL_MAX_SIZE` square with its aspect ratio kept.
/// It fails exactly when the bytes are not an image that decodes.
pub fn render_card_and_thumbnail(image_bytes: &[u8]) -> (r: Result<CardImages, StoreError>)
    ensures
        r is Ok <==> image_decodes(image_bytes@),
        r matches Ok(images) ==> thumbnail_fits(images.thumbnail_width, images.thumbnail_height),
        r matches Err(e) ==> e is ImageDecodeError,
{
    let card_png = match image_as_png(image_bytes) {
        Ok(png) => png,
        Err(_) => return Err(StoreError::ImageDecodeError),
    };
    match image_thumbnail_png(image_bytes, THUMBNAIL_MAX_SIZE, THUMBNAIL_MAX_SIZE) {
        Ok((thumbnail_png, thumbnail_width, thumbnail_height)) => Ok(
            CardImages { card_png, thumbnail_png, thumbnail_width, thumbnail_height },
        ),
        Err(_) => Err(StoreError::ImageDecodeError),
    }
}

/// Renders the thumbnail of an existing portrait; it fails exactly when the
/// portrait does not decode.
pub fn render_thumbnail(card_png: &[u8]) -> (r: Result<Vec<u8>, StoreError>)
    ensures
        r is Ok <==> image_decodes(card_png@),
        r matches Err(e) ==> e is ImageDecodeError,
{
    match image_thumbnail_png(card_png, THUMBNAIL_MAX_SIZE, THUMBNAIL_MAX_SIZE) {
        Ok((png, _, _)) => Ok(png),
        Err(_) => Err(StoreError::ImageDecodeError),
    }
}

/// What a migration leaves on disk for the next one: the portrait and
/// thumbnail that it wrote, and a background path that still names the same
/// file, or the canonical one.
pub open spec fn disk_after(disk: AssetDisk, bg: Seq<char>, m: MigrationPlan) -> AssetDisk {
    let written = !(m.portrait is Keep);
    AssetDisk {
        card_exists: disk.card_exists || written,
        thumbnail_exists: disk.thumbnail_exists || written || m.regenerate_thumbnail,
        legacy_background_exists: disk.legacy_background_exists && m.background == bg,
    }
}

/// A plan that changes nothing and writes nothing.
pub open spec fn no_op_plan(bg: Seq<char>, th: Seq<char>) -> MigrationPlan {
    MigrationPlan {
        portrait: PortraitPlan::Keep,
        background: bg,
        thumbnail: th,
        regenerate_thumbnail: false,
        dirty: false,
    }
}

/// Migration is idempotent: run again on what a successful run left behind,
/// it writes no file, leaves both paths as they are and does not mark the
/// record dirty.
pub proof fn lemma_migration_idempotent(bg: Seq<char>, th: Seq<char>, disk: AssetDisk)
    requires
        migration_plan(bg, th, disk) is Some,
    ensures
        ({
            let m = migration_plan(bg, th, disk)->0;
            migration_plan(m.background, m.thumbnail, disk_after(disk, bg, m)) == Some(
                no_op_plan(m.background, m.thumbnail),
            )
        }),
{
    let m = migration_plan(bg, th, disk)->0;
    assert(card_file_name()[0] == 'c');
    assert(!is_data_url(card_file_name())) by {
        assert(card_file_name().subrange(0, 5)[0] == 'c');
    }
    if !is_data_url(m.background) && m.background.len() > 0 && m.background != card_file_name() {
        assert(m.background == bg);
    }
}

/// The changes of a migration to a record: only the two asset paths and,
/// when it is dirty, the update time.
pub open spec fn migrated_record(before: CharacterData, after: CharacterData, m: MigrationPlan) -> bool {
    &&& after.background_path@ == m.background
    &&& after.thumbnail_path@ == m.thumbnail
    &&& after.uuid == before.uuid
    &&& after.card == before.card
    &&& after.meta.uuid == before.meta.uuid
    &&& after.meta.version == before.meta.version
    &&& after.meta.created_at == before.meta.created_at
    &&& !m.dirty ==> after == before
}

impl AssetMigration {
    pub open spec fn follows(&self, m: MigrationPlan) -> bool {
        &&& self.portrait.plan() == m.portrait
        &&& self.regenerate_thumbnail == m.regenerate_thumbnail
        &&& self.dirty == m.dirty
    }
}

/// Brings `character_data` into the canonical layout, given what its
/// directory holds, and says which files the caller must write. On a
/// malformed inline image the record is left as it was.
pub fn migrate_character_assets(character_data: &mut CharacterData, disk: &AssetDisk) -> (r: Result<
    AssetMigration,
    StoreError,
>)
    ensures
        match migration_plan(old(character_data).background_path@, old(character_data).thumbnail_path@, *disk) {
            None => r matches Err(e) && e is InvalidFormat && *final(character_data) == *old(character_data),
            Some(m) => r matches Ok(a) && a.follows(m) && migrated_record(
                *old(character_data),
                *final(character_data),
                m,
            ),
        },
{
    let ghost bg0 = character_data.background_path@;
    let ghost th0 = character_data.thumbnail_path@;
    let card = card_file_name_string();
    let mut portrait = PortraitSource::Keep;
    let mut new_background: Option<String> = None;
    let bg = character_data.background_path.as_str();
    if has_data_scheme(bg) {
        match decode_data_url(bg) {
            Ok(bytes) => {
                portrait = PortraitSource::Inline(bytes);
                new_background = Some(card);
            },
            Err(e) => return Err(e),
        }
    } else if !bg.is_empty() {
        if character_data.background_path != card && disk.legacy_background_exists {
            portrait = PortraitSource::LegacyFile(bg.to_owned());
            new_background = Some(card);
        }
    } else if disk.card_exists {
        new_background = Some(card);
    }
    let written = match portrait {
        PortraitSource::Keep => false,
        _ => true,
    };
    let thumb_before = disk.thumbnail_exists || written;
    let regenerate = (disk.card_exists || written) && !thumb_before;
    let th_empty = character_data.thumbnail_path.as_str().is_empty();
    let new_thumbnail = if written || (th_empty && (thumb_before || regenerate)) {
        Some(thumbnail_file_name_string())
    } else {
        None
    };
    let ghost m = migration_plan(bg0, th0, *disk)->0;
    assert(portrait.plan() == m.portrait);
    let dirty = written || new_background.is_some() || regenerate || new_thumbnail.is_some();
    proof {
        if new_background is None {
            assert(m.background == bg0);
        }
        if new_thumbnail is None {
            assert(m.thumbnail == th0);
        }
        if new_background is Some {
            assert(new_background->0@ == m.background);
            assert(bg0 != card_file_name() || written);
        }
        if new_thumbnail is Some {
            assert(new_thumbnail->0@ == m.thumbnail);
            assert(th0.len() == 0 || written);
        }
    }
    assert(dirty == m.dirty);
    if dirty {
        match new_background {
            Some(b) => character_data.background_path = b,
            None => {},
        }
        match new_thumbnail {
            Some(t) => character_data.thumbnail_path = t,
            None => {},
        }
        character_data.meta.updated_at = current_timestamp();
    }
    Ok(AssetMigration { portrait, regenerate_thumbnail: regenerate, dirty })
}

} // verus!
