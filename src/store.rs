//! The decisions of the record store: building new and imported records,
//! replacing a profile, recording uploaded assets, choosing the export
//! format, and finding a record's file. File access stays with the caller.

use vstd::prelude::*;
use vstd::slice::slice_to_vec;
use vstd::string::{StrSliceExecFns, StringExecFns, StringSliceAdditionalSpecFns};
use vstd::utf8::*;
use crate::bindings::{current_timestamp, is_absolute_path, join_path, string_from_utf8};
use crate::codec::{
    carries_profile, embedded_profile, reports, EmbeddedProfile, PngMetadataUtils,
    MAX_PROFILE_JSON_LEN,
};
use crate::error::StoreError;
use crate::bindings::image_decodes;
use crate::codec::reencodable;
use crate::migrate::{
    is_data_url, migration_plan, no_op_plan, render_card_and_thumbnail, thumbnail_fits, AssetDisk,
    CardImages,
};
use crate::model::{
    card_file_name, card_file_name_string, card_spec, card_spec_version, default_extensions,
    record_version, thumbnail_file_name, thumbnail_file_name_string, CharacterData,
    CharacterMeta, TavernCardV2, TavernCardV2Data, CARD_SPEC, CARD_SPEC_VERSION, RECORD_VERSION,
};

verus! {

/// A record built for `uuid` around `card`: fresh metadata with equal
/// creation and update times, and no assets yet.
pub open spec fn is_new_record(r: CharacterData, uuid: Seq<char>, card: TavernCardV2) -> bool {
    &&& r.uuid@ == uuid
    &&& r.meta.uuid@ == uuid
    &&& r.meta.version@ == record_version()
    &&& r.meta.created_at@ == r.meta.updated_at@
    &&& r.card == card
    &&& r.background_path@.len() == 0
    &&& r.thumbnail_path@.len() == 0
}

/// The empty profile that `create_character` gives a new record.
pub open spec fn is_empty_card(card: TavernCardV2, name: Seq<char>) -> bool {
    &&& card.spec@ == card_spec()
    &&& card.spec_version@ == card_spec_version()
    &&& card.data.name@ == name
    &&& card.data.description@.len() == 0
    &&& card.data.personality@.len() == 0
    &&& card.data.scenario@.len() == 0
    &&& card.data.first_mes@.len() == 0
    &&& card.data.mes_example@.len() == 0
    &&& card.data.creator_notes@.len() == 0
    &&& card.data.system_prompt@.len() == 0
    &&& card.data.post_history_instructions@.len() == 0
    &&& card.data.alternate_greetings@.len() == 0
    &&& card.data.tags@.len() == 0
    &&& card.data.creator@.len() == 0
    &&& card.data.character_version@ == record_version()
    &&& card.data.character_book is None
}

/// The record's identity and creation, which no operation but creation
/// sets.
pub open spec fn same_identity(a: CharacterData, b: CharacterData) -> bool {
    &&& a.uuid == b.uuid
    &&& a.meta.uuid == b.meta.uuid
    &&& a.meta.version == b.meta.version
    &&& a.meta.created_at == b.meta.created_at
}

/// A new record for `uuid` around `card`, stamped with the current time.
fn new_record(uuid: &str, card: TavernCardV2) -> (r: CharacterData)
    ensures
        is_new_record(r, uuid@, card),
{
    let now = current_timestamp();
    let version = RECORD_VERSION.to_owned();
    proof {
        reveal_strlit("1.0");
    }
    assert(version@ =~= record_version());
    CharacterData {
        uuid: uuid.to_owned(),
        meta: CharacterMeta {
            uuid: uuid.to_owned(),
            version,
            created_at: now.clone(),
            updated_at: now,
        },
        card,
        background_path: String::new(),
        thumbnail_path: String::new(),
    }
}

/// Where a record's JSON lives.
#[derive(Debug, PartialEq, Eq, Clone, Copy)]
pub enum RecordFile {
    /// `character.json`.
    Canonical,
    /// The legacy `card.json`, to be renamed to `character.json`.
    Legacy,
    /// Neither: the record does not exist.
    Missing,
}

pub open spec fn record_file(canonical_exists: bool, legacy_exists: bool) -> RecordFile {
    if canonical_exists {
        RecordFile::Canonical
    } else if legacy_exists {
        RecordFile::Legacy
    } else {
        RecordFile::Missing
    }
}

/// What a read of a record whose directory holds no JSON file reports.
pub open spec fn lookup_result(f: RecordFile) -> Option<StoreError> {
    match f {
        RecordFile::Missing => Some(StoreError::NotFound),
        _ => None,
    }
}

/// A deleted record, whose directory is gone with both of its possible
/// JSON files, reads as not found.
pub proof fn lemma_deleted_record_not_found()
    ensures
        record_file(false, false) == RecordFile::Missing,
        lookup_result(record_file(false, false)) == Some(StoreError::NotFound),
{
}

/// A record just created reads back as it was written: its directory holds
/// no assets yet, so migration keeps its empty asset paths and writes
/// nothing, and the record keeps its name and empty profile.
pub proof fn lemma_created_record_reads_back(r: CharacterData, uuid: Seq<char>, name: Seq<char>)
    requires
        is_new_record(r, uuid, r.card),
        is_empty_card(r.card, name),
    ensures
        migration_plan(
            r.background_path@,
            r.thumbnail_path@,
            AssetDisk { card_exists: false, thumbnail_exists: false, legacy_background_exists: false },
        ) == Some(no_op_plan(Seq::empty(), Seq::empty())),
{
    assert(r.background_path@ =~= Seq::<char>::empty());
    assert(r.thumbnail_path@ =~= Seq::<char>::empty());
}

/// After an upload has written both images, a read finds the record in the
/// canonical layout: its paths stay `card.png` and `thumbnail.png`, and
/// nothing is written.
pub proof fn lemma_uploaded_record_reads_back(legacy_background_exists: bool)
    ensures
        migration_plan(
            card_file_name(),
            thumbnail_file_name(),
            AssetDisk { card_exists: true, thumbnail_exists: true, legacy_background_exists },
        ) == Some(no_op_plan(card_file_name(), thumbnail_file_name())),
{
    assert(!is_data_url(card_file_name())) by {
        assert(card_file_name().subrange(0, 5)[0] == 'c');
    }
}

/// The format that an export produces.
#[derive(Debug, PartialEq, Eq, Clone, Copy)]
pub enum CardFormat {
    Png,
    Json,
}

/// A card exports as PNG exactly when its record has a portrait.
pub open spec fn export_format(has_portrait: bool) -> CardFormat {
    if has_portrait {
        CardFormat::Png
    } else {
        CardFormat::Json
    }
}

/// An imported file is read as a PNG portrait when its name ends in `.png`,
/// and as JSON otherwise.
pub open spec fn card_file_kind(file_name: Seq<char>) -> CardFormat {
    if file_name.len() >= 4 && file_name.subrange(file_name.len() - 4, file_name.len() as int)
        == seq!['.', 'p', 'n', 'g'] {
        CardFormat::Png
    } else {
        CardFormat::Json
    }
}

/// An import stores a portrait exactly when it reads a PNG file.
pub open spec fn import_stores_portrait(file_name: Seq<char>) -> bool {
    card_file_kind(file_name) == CardFormat::Png
}

/// A card imported from a JSON file has no portrait, so exporting it
/// produces a JSON file.
pub proof fn lemma_json_import_exports_json(file_name: Seq<char>)
    requires
        card_file_kind(file_name) == CardFormat::Json,
    ensures
        export_format(import_stores_portrait(file_name)) == CardFormat::Json,
{
}

/// An exported card: the portrait with the profile embedded, or the
/// profile's JSON alone.
#[derive(Debug)]
pub enum ExportedCard {
    Png(Vec<u8>),
    Json(String),
}

impl ExportedCard {
    pub open spec fn format(&self) -> CardFormat {
        match self {
            ExportedCard::Png(_) => CardFormat::Png,
            ExportedCard::Json(_) => CardFormat::Json,
        }
    }

    /// `png` or `json`.
    pub fn format_name(&self) -> (r: &'static str)
        ensures
            self.format() == CardFormat::Png ==> r@ == seq!['p', 'n', 'g'],
            self.format() == CardFormat::Json ==> r@ == seq!['j', 's', 'o', 'n'],
    {
        proof {
            reveal_strlit("png");
            reveal_strlit("json");
        }
        match self {
            ExportedCard::Png(_) => "png",
            ExportedCard::Json(_) => "json",
        }
    }
}

/// A record made from an imported file, with the portrait to store when the
/// file was a PNG.
#[derive(Debug)]
pub struct ImportedCard {
    pub record: CharacterData,
    pub images: Option<CardImages>,
}

/// A legacy background file that a deleted record may leave beside the
/// records: `<uuid>_background...` or `<uuid>_card.png`.
pub open spec fn is_orphaned_sidecar(file_name: Seq<char>, uuid: Seq<char>) -> bool {
    let background = uuid + seq!['_', 'b', 'a', 'c', 'k', 'g', 'r', 'o', 'u', 'n', 'd'];
    ||| file_name.len() >= background.len() && file_name.subrange(0, background.len() as int)
        == background
    ||| file_name == uuid + seq!['_', 'c', 'a', 'r', 'd', '.', 'p', 'n', 'g']
}

/// Whether `s` ends with `suffix`.
fn ends_with_chars(s: &str, suffix: &str) -> (r: bool)
    ensures
        r <==> (s@.len() >= suffix@.len() && s@.subrange(s@.len() - suffix@.len(), s@.len() as int)
            == suffix@),
{
    let n = s.unicode_len();
    let m = suffix.unicode_len();
    if m > n {
        return false;
    }
    let mut i: usize = 0;
    while i < m
        invariant
            n == s@.len(),
            m == suffix@.len(),
            m <= n,
            i <= m,
            forall|j: int| 0 <= j < i ==> s@[n - m + j] == suffix@[j],
        decreases m - i,
    {
        if s.get_char(n - m + i) != suffix.get_char(i) {
            assert(s@.subrange(n - m, n as int)[i as int] != suffix@[i as int]);
            return false;
        }
        i = i + 1;
    }
    assert(s@.subrange(n - m, n as int) =~= suffix@);
    true
}

/// Whether `s` starts with `prefix`.
fn starts_with_chars(s: &str, prefix: &str) -> (r: bool)
    ensures
        r <==> (s@.len() >= prefix@.len() && s@.subrange(0, prefix@.len() as int) == prefix@),
{
    let n = s.unicode_len();
    let m = prefix.unicode_len();
    if m > n {
        return false;
    }
    let mut i: usize = 0;
    while i < m
        invariant
            n == s@.len(),
            m == prefix@.len(),
            m <= n,
            i <= m,
            forall|j: int| 0 <= j < i ==> s@[j] == prefix@[j],
        decreases m - i,
    {
        if s.get_char(i) != prefix.get_char(i) {
            assert(s@.subrange(0, m as int)[i as int] != prefix@[i as int]);
            return false;
        }
        i = i + 1;
    }
    assert(s@.subrange(0, m as int) =~= prefix@);
    true
}

/// The record store's operations that decide and compute; the caller reads
/// and writes the files.
pub struct CharacterStorage;

impl CharacterStorage {
    /// A new record named `name` under the identifier `uuid`, with an empty
    /// profile and no assets.
    pub fn create_character(uuid: &str, name: &str) -> (r: CharacterData)
        ensures
            is_new_record(r, uuid@, r.card),
            is_empty_card(r.card, name@),
    {
        let spec = CARD_SPEC.to_owned();
        let spec_version = CARD_SPEC_VERSION.to_owned();
        let character_version = RECORD_VERSION.to_owned();
        proof {
            reveal_strlit("chara_card_v2");
            reveal_strlit("2.0");
            reveal_strlit("1.0");
        }
        assert(spec@ =~= card_spec());
        assert(spec_version@ =~= card_spec_version());
        assert(character_version@ =~= record_version());
        let card = TavernCardV2 {
            spec,
            spec_version,
            data: TavernCardV2Data {
                name: name.to_owned(),
                description: String::new(),
                personality: String::new(),
                scenario: String::new(),
                first_mes: String::new(),
                mes_example: String::new(),
                creator_notes: String::new(),
                system_prompt: String::new(),
                post_history_instructions: String::new(),
                alternate_greetings: Vec::new(),
                tags: Vec::new(),
                creator: String::new(),
                character_version,
                extensions: default_extensions(),
                character_book: None,
            },
        };
        new_record(uuid, card)
    }

    /// The stored record with its profile replaced by `card` and its update
    /// time advanced; not found when there is no stored record.
    pub fn update_character(existing: Option<CharacterData>, card: TavernCardV2) -> (r: Result<
        CharacterData,
        StoreError,
    >)
        ensures
            match existing {
                None => r matches Err(e) && e is NotFound,
                Some(old_record) => r matches Ok(n) && n.card == card && same_identity(n, old_record)
                    && n.background_path == old_record.background_path && n.thumbnail_path
                    == old_record.thumbnail_path,
            },
    {
        match existing {
            None => Err(StoreError::NotFound),
            Some(mut record) => {
                record.card = card;
                record.meta.updated_at = current_timestamp();
                Ok(record)
            },
        }
    }

    /// Renders an uploaded image as the record's portrait and thumbnail and
    /// points the record at them. It fails exactly when the image does not
    /// decode, and then the record is unchanged.
    pub fn upload_background_image(character_data: &mut CharacterData, image_data: &[u8]) -> (r:
        Result<CardImages, StoreError>)
        ensures
            r is Ok <==> image_decodes(image_data@),
            match r {
                Ok(images) => {
                    &&& thumbnail_fits(images.thumbnail_width, images.thumbnail_height)
                    &&& final(character_data).background_path@ == card_file_name()
                    &&& final(character_data).thumbnail_path@ == thumbnail_file_name()
                    &&& final(character_data).card == old(character_data).card
                    &&& same_identity(*final(character_data), *old(character_data))
                },
                Err(e) => e is ImageDecodeError && *final(character_data) == *old(character_data),
            },
    {
        let images = match render_card_and_thumbnail(image_data) {
            Ok(images) => images,
            Err(e) => return Err(e),
        };
        character_data.background_path = card_file_name_string();
        character_data.thumbnail_path = thumbnail_file_name_string();
        character_data.meta.updated_at = current_timestamp();
        Ok(images)
    }

    /// Points the record's asset paths at the canonical files that exist,
    /// and clears those that do not.
    pub fn update_character_background_path(
        character_data: &mut CharacterData,
        card_exists: bool,
        thumbnail_exists: bool,
    )
        ensures
            final(character_data).background_path@ == (if card_exists {
                card_file_name()
            } else {
                Seq::empty()
            }),
            final(character_data).thumbnail_path@ == (if thumbnail_exists {
                thumbnail_file_name()
            } else {
                Seq::empty()
            }),
            final(character_data).card == old(character_data).card,
            same_identity(*final(character_data), *old(character_data)),
    {
        character_data.background_path = if card_exists {
            card_file_name_string()
        } else {
            String::new()
        };
        character_data.thumbnail_path = if thumbnail_exists {
            thumbnail_file_name_string()
        } else {
            String::new()
        };
        character_data.meta.updated_at = current_timestamp();
    }

    /// Where the record's JSON is to be read from.
    pub fn locate_record_file(canonical_exists: bool, legacy_exists: bool) -> (r: RecordFile)
        ensures
            r == record_file(canonical_exists, legacy_exists),
    {
        if canonical_exists {
            RecordFile::Canonical
        } else if legacy_exists {
            RecordFile::Legacy
        } else {
            RecordFile::Missing
        }
    }

    /// Exports a card's profile JSON: embedded in its portrait when the
    /// record has one, and as the JSON text otherwise. Only the embedding can
    /// fail, when the portrait cannot be re-encoded.
    pub fn export_character_card(card_json: &str, portrait: Option<&[u8]>) -> (r: Result<
        ExportedCard,
        StoreError,
    >)
        requires
            portrait is Some ==> card_json.spec_bytes().len() <= MAX_PROFILE_JSON_LEN,
        ensures
            r is Ok <==> match portrait {
                None => true,
                Some(image) => reencodable(image@),
            },
            match r {
                Ok(out) => {
                    &&& out.format() == export_format(portrait is Some)
                    &&& out matches ExportedCard::Json(s) ==> s@ == card_json@
                    &&& out matches ExportedCard::Png(b) ==> carries_profile(b@, card_json@)
                        && embedded_profile(b@) == EmbeddedProfile::Text(card_json@)
                },
                Err(e) => portrait is Some && e is CardData,
            },
    {
        match portrait {
            None => Ok(ExportedCard::Json(card_json.to_owned())),
            Some(image) => match PngMetadataUtils::write_character_data_to_bytes(image, card_json) {
                Ok(png) => Ok(ExportedCard::Png(png)),
                Err(e) => Err(StoreError::CardData(e)),
            },
        }
    }

    /// How an imported file is read, from its name.
    pub fn card_file_kind_of(file_name: &str) -> (r: CardFormat)
        ensures
            r == card_file_kind(file_name@),
    {
        proof {
            reveal_strlit(".png");
        }
        if ends_with_chars(file_name, ".png") {
            assert(".png"@ =~= seq!['.', 'p', 'n', 'g']);
            CardFormat::Png
        } else {
            assert(".png"@ =~= seq!['.', 'p', 'n', 'g']);
            CardFormat::Json
        }
    }

    /// The profile JSON of an imported file: the profile that a PNG
    /// portrait embeds, or the text of a JSON file.
    pub fn read_card_json(file_data: &[u8], file_name: &str) -> (r: Result<String, StoreError>)
        ensures
            card_file_kind(file_name@) == CardFormat::Png ==> match r {
                Ok(s) => embedded_profile(file_data@) == EmbeddedProfile::Text(s@),
                Err(e) => e matches StoreError::CardData(m) && reports(m, embedded_profile(file_data@)),
            },
            card_file_kind(file_name@) == CardFormat::Json ==> match r {
                Ok(s) => valid_utf8(file_data@) && s@ == decode_utf8(file_data@),
                Err(e) => e is InvalidFormat && !valid_utf8(file_data@),
            },
    {
        match Self::card_file_kind_of(file_name) {
            CardFormat::Png => match PngMetadataUtils::read_character_data_from_bytes(file_data) {
                Ok(s) => Ok(s),
                Err(e) => Err(StoreError::CardData(e)),
            },
            CardFormat::Json => match string_from_utf8(slice_to_vec(file_data)) {
                Some(s) => Ok(s),
                None => Err(StoreError::InvalidFormat),
            },
        }
    }

    /// A new record for `uuid` around the profile read from an imported
    /// file; a PNG file also becomes the record's portrait. An import never
    /// reuses an existing identity. It fails exactly when a PNG file does not
    /// decode as an image.
    pub fn import_character_card_from_bytes(
        uuid: &str,
        card: TavernCardV2,
        file_data: &[u8],
        file_name: &str,
    ) -> (r: Result<ImportedCard, StoreError>)
        ensures
            r is Ok <==> (import_stores_portrait(file_name@) ==> image_decodes(file_data@)),
            match r {
                Ok(imported) => {
                    &&& imported.record.uuid@ == uuid@
                    &&& imported.record.meta.uuid@ == uuid@
                    &&& imported.record.meta.version@ == record_version()
                    &&& imported.record.meta.created_at@ == imported.record.meta.updated_at@
                    &&& imported.record.card == card
                    &&& (imported.images is Some) == import_stores_portrait(file_name@)
                    &&& import_stores_portrait(file_name@) ==> imported.record.background_path@
                        == card_file_name() && imported.record.thumbnail_path@
                        == thumbnail_file_name()
                    &&& !import_stores_portrait(file_name@) ==> imported.record.background_path@.len()
                        == 0 && imported.record.thumbnail_path@.len() == 0
                },
                Err(e) => import_stores_portrait(file_name@) && e is ImageDecodeError,
            },
    {
        let mut record = new_record(uuid, card);
        match Self::card_file_kind_of(file_name) {
            CardFormat::Json => Ok(ImportedCard { record, images: None }),
            CardFormat::Png => {
                let images = match render_card_and_thumbnail(file_data) {
                    Ok(images) => images,
                    Err(e) => return Err(e),
                };
                record.background_path = card_file_name_string();
                record.thumbnail_path = thumbnail_file_name_string();
                Ok(ImportedCard { record, images: Some(images) })
            },
        }
    }

    /// The form of a stored asset path handed to a caller: an empty or
    /// absolute path as it is, a relative one as `joined`, the path inside
    /// the record's directory.
    pub fn resolve_asset_path(stored: &str, is_absolute: bool, joined: String) -> (r: String)
        ensures
            r@ == (if stored@.len() == 0 || is_absolute {
                stored@
            } else {
                joined@
            }),
    {
        if stored.is_empty() || is_absolute {
            stored.to_owned()
        } else {
            joined
        }
    }

    /// Resolves the record's relative asset paths against its directory
    /// `dir`, for handing the record to a caller; empty and absolute paths
    /// stay as they are. What is absolute, and how a path is joined, follow
    /// the platform's path rules.
    pub fn apply_absolute_paths(character_data: &mut CharacterData, dir: &str)
        ensures
            old(character_data).background_path@.len() == 0 ==> final(character_data).background_path@
                == old(character_data).background_path@,
            old(character_data).thumbnail_path@.len() == 0 ==> final(character_data).thumbnail_path@
                == old(character_data).thumbnail_path@,
            final(character_data).card == old(character_data).card,
            final(character_data).meta == old(character_data).meta,
            final(character_data).uuid == old(character_data).uuid,
    {
        let bg = character_data.background_path.as_str();
        let background = Self::resolve_asset_path(bg, is_absolute_path(bg), join_path(dir, bg));
        let th = character_data.thumbnail_path.as_str();
        let thumbnail = Self::resolve_asset_path(th, is_absolute_path(th), join_path(dir, th));
        character_data.background_path = background;
        character_data.thumbnail_path = thumbnail;
    }

    /// Whether a file beside the records is a legacy background of the
    /// record `uuid`, to be removed with it.
    pub fn is_orphaned_sidecar(file_name: &str, uuid: &str) -> (r: bool)
        ensures
            r == is_orphaned_sidecar(file_name@, uuid@),
    {
        let mut background = uuid.to_owned();
        let mut card = uuid.to_owned();
        proof {
            reveal_strlit("_background");
            reveal_strlit("_card.png");
        }
        background.append("_background");
        card.append("_card.png");
        assert("_background"@ =~= seq!['_', 'b', 'a', 'c', 'k', 'g', 'r', 'o', 'u', 'n', 'd']);
        assert("_card.png"@ =~= seq!['_', 'c', 'a', 'r', 'd', '.', 'p', 'n', 'g']);
        let name = file_name.to_owned();
        starts_with_chars(file_name, background.as_str()) || name == card
    }
}

} // verus!
