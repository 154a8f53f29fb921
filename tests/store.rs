use character_card_copilot::codec::PngMetadataUtils;
use character_card_copilot::error::StoreError;
use character_card_copilot::migrate::{migrate_character_assets, AssetDisk};
use character_card_copilot::store::{CardFormat, CharacterStorage, ExportedCard, RecordFile};
use image::GenericImageView;

fn sample_png(width: u32, height: u32) -> Vec<u8> {
    let mut out = Vec::new();
    {
        let mut encoder = png::Encoder::new(&mut out, width, height);
        encoder.set_color(png::ColorType::Grayscale);
        encoder.set_depth(png::BitDepth::Eight);
        let mut writer = encoder.write_header().unwrap();
        let pixels: Vec<u8> = (0..width * height).map(|i| (i % 256) as u8).collect();
        writer.write_image_data(&pixels).unwrap();
    }
    out
}

#[test]
fn created_record_reads_back_with_name_and_empty_fields() {
    let mut r = CharacterStorage::create_character("u-1", "Alice");
    let m = migrate_character_assets(
        &mut r,
        &AssetDisk { card_exists: false, thumbnail_exists: false, legacy_background_exists: false },
    )
    .unwrap();
    assert!(!m.dirty);
    CharacterStorage::apply_absolute_paths(&mut r, "/store/u-1");
    assert_eq!(r.uuid, "u-1");
    assert_eq!(r.meta.uuid, "u-1");
    assert_eq!(r.meta.version, "1.0");
    assert_eq!(r.meta.created_at, r.meta.updated_at);
    assert!(!r.meta.created_at.is_empty());
    assert_eq!(r.card.data.name, "Alice");
    assert_eq!(r.card.data.description, "");
    assert_eq!(r.card.spec, "chara_card_v2");
    assert_eq!(r.card.spec_version, "2.0");
    assert_eq!(r.card.data.character_version, "1.0");
    assert!(r.card.data.tags.is_empty());
    assert!(r.card.data.character_book.is_none());
    assert_eq!(r.card.data.extensions, serde_json::Value::Object(serde_json::Map::new()));
    assert_eq!(r.background_path, "");
    assert_eq!(r.thumbnail_path, "");
}

#[test]
fn update_replaces_profile_only() {
    let r = CharacterStorage::create_character("u-2", "Alice");
    let mut card = CharacterStorage::create_character("other", "Bob").card;
    card.data.description = "a knight".to_string();
    let n = CharacterStorage::update_character(Some(r.clone()), card).unwrap();
    assert_eq!(n.card.data.name, "Bob");
    assert_eq!(n.card.data.description, "a knight");
    assert_eq!(n.uuid, "u-2");
    assert_eq!(n.meta.created_at, r.meta.created_at);
    assert_eq!(n.background_path, r.background_path);
}

#[test]
fn update_of_missing_record_is_not_found() {
    let card = CharacterStorage::create_character("x", "Bob").card;
    assert!(matches!(CharacterStorage::update_character(None, card), Err(StoreError::NotFound)));
}

#[test]
fn upload_points_record_at_canonical_files() {
    let mut r = CharacterStorage::create_character("u-3", "Alice");
    let images = CharacterStorage::upload_background_image(&mut r, &sample_png(1000, 500)).unwrap();
    assert_eq!(r.background_path, "card.png");
    assert_eq!(r.thumbnail_path, "thumbnail.png");
    let thumb = image::load_from_memory(&images.thumbnail_png).unwrap();
    let (w, h) = thumb.dimensions();
    assert!(w.max(h) <= 320);
    assert_eq!((w, h), (320, 160));
    assert_eq!((images.thumbnail_width, images.thumbnail_height), (320, 160));
    let m = migrate_character_assets(
        &mut r,
        &AssetDisk { card_exists: true, thumbnail_exists: true, legacy_background_exists: false },
    )
    .unwrap();
    assert!(!m.dirty);
    assert_eq!(r.background_path, "card.png");
    assert_eq!(r.thumbnail_path, "thumbnail.png");
}

#[test]
fn failed_upload_leaves_record_alone() {
    let mut r = CharacterStorage::create_character("u-4", "Alice");
    let r2 = CharacterStorage::upload_background_image(&mut r, b"not an image");
    assert!(matches!(r2, Err(StoreError::ImageDecodeError)));
    assert_eq!(r.background_path, "");
}

#[test]
fn background_path_follows_files_on_disk() {
    let mut r = CharacterStorage::create_character("u-5", "Alice");
    CharacterStorage::update_character_background_path(&mut r, true, false);
    assert_eq!(r.background_path, "card.png");
    assert_eq!(r.thumbnail_path, "");
    CharacterStorage::update_character_background_path(&mut r, false, true);
    assert_eq!(r.background_path, "");
    assert_eq!(r.thumbnail_path, "thumbnail.png");
}

#[test]
fn deleted_record_is_not_found() {
    assert_eq!(CharacterStorage::locate_record_file(false, false), RecordFile::Missing);
    assert_eq!(CharacterStorage::locate_record_file(false, true), RecordFile::Legacy);
    assert_eq!(CharacterStorage::locate_record_file(true, true), RecordFile::Canonical);
}

#[test]
fn orphaned_sidecars_match_the_record_only() {
    assert!(CharacterStorage::is_orphaned_sidecar("u-6_background.jpg", "u-6"));
    assert!(CharacterStorage::is_orphaned_sidecar("u-6_background", "u-6"));
    assert!(CharacterStorage::is_orphaned_sidecar("u-6_card.png", "u-6"));
    assert!(!CharacterStorage::is_orphaned_sidecar("u-6_card.png.bak", "u-6"));
    assert!(!CharacterStorage::is_orphaned_sidecar("u-7_background.jpg", "u-6"));
    assert!(!CharacterStorage::is_orphaned_sidecar("u-6", "u-6"));
}

#[test]
fn file_kind_follows_extension() {
    assert_eq!(CharacterStorage::card_file_kind_of("alice.png"), CardFormat::Png);
    assert_eq!(CharacterStorage::card_file_kind_of(".png"), CardFormat::Png);
    assert_eq!(CharacterStorage::card_file_kind_of("alice.json"), CardFormat::Json);
    assert_eq!(CharacterStorage::card_file_kind_of("alice.PNG"), CardFormat::Json);
    assert_eq!(CharacterStorage::card_file_kind_of("png"), CardFormat::Json);
}

#[test]
fn json_import_then_export_gives_json() {
    let json = "{\"spec\":\"chara_card_v2\"}";
    assert_eq!(CharacterStorage::read_card_json(json.as_bytes(), "bob.json").unwrap(), json);
    let card = CharacterStorage::create_character("x", "Bob").card;
    let imported =
        CharacterStorage::import_character_card_from_bytes("u-8", card, json.as_bytes(), "bob.json").unwrap();
    assert!(imported.images.is_none());
    assert_eq!(imported.record.uuid, "u-8");
    assert_eq!(imported.record.background_path, "");
    let has_portrait = !imported.record.background_path.is_empty();
    let exported = CharacterStorage::export_character_card(json, if has_portrait { Some(&[][..]) } else { None })
        .unwrap();
    assert!(matches!(exported, ExportedCard::Json(ref s) if s == json));
    assert_eq!(exported.format_name(), "json");
}

#[test]
fn png_import_reads_profile_and_stores_portrait() {
    let json = "{\"name\":\"Carol\"}";
    let png = PngMetadataUtils::write_character_data_to_bytes(&sample_png(8, 8), json).unwrap();
    assert_eq!(CharacterStorage::read_card_json(&png, "carol.png").unwrap(), json);
    let card = CharacterStorage::create_character("x", "Carol").card;
    let imported = CharacterStorage::import_character_card_from_bytes("u-9", card, &png, "carol.png").unwrap();
    assert!(imported.images.is_some());
    assert_eq!(imported.record.background_path, "card.png");
    assert_eq!(imported.record.thumbnail_path, "thumbnail.png");
}

#[test]
fn import_errors_are_reported() {
    assert!(matches!(
        CharacterStorage::read_card_json(&[0xff, 0xfe], "x.json"),
        Err(StoreError::InvalidFormat)
    ));
    assert!(matches!(CharacterStorage::read_card_json(b"abc", "x.png"), Err(StoreError::CardData(_))));
    let card = CharacterStorage::create_character("x", "Bob").card;
    assert!(matches!(
        CharacterStorage::import_character_card_from_bytes("u-10", card, b"abc", "x.png"),
        Err(StoreError::ImageDecodeError)
    ));
}

#[test]
fn export_with_portrait_embeds_profile() {
    let json = "{\"name\":\"Dana\"}";
    let portrait = sample_png(4, 4);
    let exported = CharacterStorage::export_character_card(json, Some(&portrait)).unwrap();
    assert_eq!(exported.format_name(), "png");
    match exported {
        ExportedCard::Png(bytes) => {
            assert_eq!(PngMetadataUtils::read_character_data_from_bytes(&bytes).unwrap(), json)
        }
        ExportedCard::Json(_) => panic!("expected a PNG export"),
    }
    assert!(matches!(
        CharacterStorage::export_character_card(json, Some(b"nope")),
        Err(StoreError::CardData(_))
    ));
}

#[test]
fn relative_paths_resolve_against_record_directory() {
    let mut r = CharacterStorage::create_character("u-11", "Alice");
    r.background_path = "card.png".to_string();
    r.thumbnail_path = "/abs/thumbnail.png".to_string();
    CharacterStorage::apply_absolute_paths(&mut r, "/store/u-11");
    assert_eq!(r.background_path, "/store/u-11/card.png");
    assert_eq!(r.thumbnail_path, "/abs/thumbnail.png");
}

#[test]
fn resolve_asset_path_keeps_empty_and_absolute() {
    assert_eq!(CharacterStorage::resolve_asset_path("", false, "/d/".to_string()), "");
    assert_eq!(CharacterStorage::resolve_asset_path("/a.png", true, "/d/a.png".to_string()), "/a.png");
    assert_eq!(CharacterStorage::resolve_asset_path("a.png", false, "/d/a.png".to_string()), "/d/a.png");
}

#[test]
fn large_json_exports_without_portrait() {
    let json = format!("{{\"description\":\"{}\"}}", "x".repeat(10_000));
    let exported = CharacterStorage::export_character_card(&json, None).unwrap();
    assert!(matches!(exported, ExportedCard::Json(ref s) if *s == json));
}
