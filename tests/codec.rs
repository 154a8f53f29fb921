use base64::engine::general_purpose::STANDARD;
use base64::Engine;
use character_card_copilot::codec::{PngMetadataError, PngMetadataUtils};

fn sample_png(width: u32, height: u32) -> Vec<u8> {
    let mut out = Vec::new();
    {
        let mut encoder = png::Encoder::new(&mut out, width, height);
        encoder.set_color(png::ColorType::Rgba);
        encoder.set_depth(png::BitDepth::Eight);
        let mut writer = encoder.write_header().unwrap();
        let pixels: Vec<u8> = (0..width * height * 4).map(|i| (i % 251) as u8).collect();
        writer.write_image_data(&pixels).unwrap();
    }
    out
}

fn chunk(kind: &[u8], data: &[u8]) -> Vec<u8> {
    let mut out = (data.len() as u32).to_be_bytes().to_vec();
    out.extend_from_slice(kind);
    out.extend_from_slice(data);
    out.extend_from_slice(&[0, 0, 0, 0]);
    out
}

const SIGNATURE: [u8; 8] = [137, 80, 78, 71, 13, 10, 26, 10];

fn crc32(bytes: &[u8]) -> u32 {
    let mut crc = 0xffff_ffffu32;
    for &b in bytes {
        crc ^= b as u32;
        for _ in 0..8 {
            crc = if crc & 1 != 0 { (crc >> 1) ^ 0xedb8_8320 } else { crc >> 1 };
        }
    }
    !crc
}

fn checked_chunk(kind: &[u8], data: &[u8]) -> Vec<u8> {
    let mut out = (data.len() as u32).to_be_bytes().to_vec();
    out.extend_from_slice(kind);
    out.extend_from_slice(data);
    let mut covered = kind.to_vec();
    covered.extend_from_slice(data);
    out.extend_from_slice(&crc32(&covered).to_be_bytes());
    out
}

fn indexed_png(palette: Option<&[u8]>) -> Vec<u8> {
    let mut png = SIGNATURE.to_vec();
    png.extend(checked_chunk(b"IHDR", &[0, 0, 0, 1, 0, 0, 0, 1, 8, 3, 0, 0, 0]));
    if let Some(p) = palette {
        png.extend(checked_chunk(b"PLTE", p));
    }
    // one row: filter byte 0, palette index 0, as a stored zlib block
    png.extend(checked_chunk(b"IDAT", &[0x78, 0x01, 0x01, 0x02, 0x00, 0xfd, 0xff, 0, 0, 0x00, 0x02, 0x00, 0x01]));
    png.extend(checked_chunk(b"IEND", b""));
    png
}

#[test]
fn test_base64_encode_decode() {
    let test_json = r#"{"name":"测试角色","description":"这是一个测试"}"#;
    let base64_data = STANDARD.encode(test_json.as_bytes());
    let decoded = STANDARD.decode(&base64_data).unwrap();
    let decoded_str = String::from_utf8(decoded).unwrap();
    assert_eq!(test_json, decoded_str);
}

#[test]
fn round_trip_keeps_non_ascii_profile() {
    let json = r#"{"name":"测试角色","description":"这是一个测试"}"#;
    let png = PngMetadataUtils::write_character_data_to_bytes(&sample_png(4, 3), json).unwrap();
    let read = PngMetadataUtils::read_character_data_from_bytes(&png).unwrap();
    assert_eq!(read, json);
}

#[test]
fn round_trip_keeps_empty_and_ascii_profiles() {
    for json in ["", "{}", "{\"name\":\"Alice\",\"tags\":[\"a\",\"b\"]}"] {
        let png = PngMetadataUtils::write_character_data_to_bytes(&sample_png(2, 2), json).unwrap();
        assert_eq!(PngMetadataUtils::read_character_data_from_bytes(&png).unwrap(), json);
    }
}

#[test]
fn encoded_png_places_both_text_chunks_after_header() {
    let json = "{\"name\":\"Bob\"}";
    let text = STANDARD.encode(json.as_bytes());
    let png = PngMetadataUtils::write_character_data_to_bytes(&sample_png(3, 2), json).unwrap();
    assert_eq!(&png[0..8], &SIGNATURE);
    assert_eq!(&png[12..16], b"IHDR");
    let mut data = b"chara\0".to_vec();
    data.extend_from_slice(text.as_bytes());
    assert_eq!(&png[33..37], &(data.len() as u32).to_be_bytes());
    assert_eq!(&png[37..41], b"tEXt");
    assert_eq!(&png[41..41 + data.len()], &data[..]);
    let second = 41 + data.len() + 4;
    let mut data2 = b"ccv3\0".to_vec();
    data2.extend_from_slice(text.as_bytes());
    assert_eq!(&png[second + 4..second + 8], b"tEXt");
    assert_eq!(&png[second + 8..second + 8 + data2.len()], &data2[..]);
}

#[test]
fn encoded_png_is_still_a_decodable_image() {
    let png = PngMetadataUtils::write_character_data_to_bytes(&sample_png(5, 7), "{}").unwrap();
    let decoder = png::Decoder::new(&png[..]);
    let mut reader = decoder.read_info().unwrap();
    let mut buf = vec![0; reader.output_buffer_size()];
    let info = reader.next_frame(&mut buf).unwrap();
    assert_eq!((info.width, info.height), (5, 7));
}

#[test]
fn encode_refuses_a_source_that_is_not_png() {
    let r = PngMetadataUtils::write_character_data_to_bytes(b"not a png at all", "{}");
    assert!(matches!(r, Err(PngMetadataError::PngDecodingError(_))));
}

#[test]
fn png_without_profile_chunk_is_not_found() {
    let r = PngMetadataUtils::read_character_data_from_bytes(&sample_png(2, 2));
    assert!(matches!(r, Err(PngMetadataError::CharaDataNotFound)));
}

#[test]
fn other_text_chunks_are_passed_over() {
    let mut png = SIGNATURE.to_vec();
    png.extend(chunk(b"tEXt", b"Comment\0hello"));
    png.extend(chunk(b"tEXt", b"charax\0aGk="));
    png.extend(chunk(b"IEND", b""));
    let r = PngMetadataUtils::read_character_data_from_bytes(&png);
    assert!(matches!(r, Err(PngMetadataError::CharaDataNotFound)));
}

#[test]
fn ccv3_chunk_is_read_and_first_match_wins() {
    let mut png = SIGNATURE.to_vec();
    png.extend(chunk(b"tEXt", b"ccv3\0aGk="));
    png.extend(chunk(b"tEXt", b"chara\0Ynll"));
    assert_eq!(PngMetadataUtils::read_character_data_from_bytes(&png).unwrap(), "hi");
}

#[test]
fn input_shorter_than_signature_is_invalid() {
    for len in 0..8 {
        let r = PngMetadataUtils::read_character_data_from_bytes(&SIGNATURE[..len]);
        assert!(matches!(r, Err(PngMetadataError::InvalidImageFormat)));
    }
}

#[test]
fn wrong_signature_is_invalid() {
    let mut png = sample_png(2, 2);
    png[1] = b'Q';
    let r = PngMetadataUtils::read_character_data_from_bytes(&png);
    assert!(matches!(r, Err(PngMetadataError::InvalidImageFormat)));
}

#[test]
fn chunk_length_past_the_end_is_invalid() {
    let mut png = SIGNATURE.to_vec();
    png.extend_from_slice(&100u32.to_be_bytes());
    png.extend_from_slice(b"tEXt");
    png.extend_from_slice(b"chara\0aGk=");
    let r = PngMetadataUtils::read_character_data_from_bytes(&png);
    assert!(matches!(r, Err(PngMetadataError::InvalidImageFormat)));
    let mut huge = SIGNATURE.to_vec();
    huge.extend_from_slice(&u32::MAX.to_be_bytes());
    huge.extend_from_slice(b"IDAT");
    let r = PngMetadataUtils::read_character_data_from_bytes(&huge);
    assert!(matches!(r, Err(PngMetadataError::InvalidImageFormat)));
}

#[test]
fn malformed_base64_is_reported() {
    let mut png = SIGNATURE.to_vec();
    png.extend(chunk(b"tEXt", b"chara\0!!not base64!!"));
    let r = PngMetadataUtils::read_character_data_from_bytes(&png);
    assert!(matches!(r, Err(PngMetadataError::Base64Error(_))));
}

#[test]
fn payload_that_is_not_utf8_is_invalid() {
    let mut data = b"chara\0".to_vec();
    data.extend_from_slice(STANDARD.encode([0xffu8, 0xfe, 0x80]).as_bytes());
    let mut png = SIGNATURE.to_vec();
    png.extend(chunk(b"tEXt", &data));
    let r = PngMetadataUtils::read_character_data_from_bytes(&png);
    assert!(matches!(r, Err(PngMetadataError::InvalidImageFormat)));
}

#[test]
fn truncated_real_png_never_panics() {
    let png = PngMetadataUtils::write_character_data_to_bytes(&sample_png(3, 3), "{\"a\":1}").unwrap();
    for len in 0..png.len() {
        let _ = PngMetadataUtils::read_character_data_from_bytes(&png[..len]);
    }
}

#[test]
fn reencode_keeps_header_fields() {
    let src = sample_png(6, 9);
    let png = PngMetadataUtils::write_character_data_to_bytes(&src, "{}").unwrap();
    assert_eq!(&png[16..26], &src[16..26]);
}

#[test]
fn indexed_png_keeps_its_palette() {
    let src = indexed_png(Some(&[10, 20, 30]));
    let png = PngMetadataUtils::write_character_data_to_bytes(&src, "{\"n\":1}").unwrap();
    assert_eq!(&png[16..26], &src[16..26]);
    assert_eq!(PngMetadataUtils::read_character_data_from_bytes(&png).unwrap(), "{\"n\":1}");
    let mut reader = png::Decoder::new(&png[..]).read_info().unwrap();
    assert_eq!(reader.info().palette.as_deref(), Some(&[10u8, 20, 30][..]));
    let mut buf = vec![0; reader.output_buffer_size()];
    reader.next_frame(&mut buf).unwrap();
    assert_eq!(buf, vec![0u8]);
}

#[test]
fn indexed_png_without_palette_cannot_be_reencoded() {
    let r = PngMetadataUtils::write_character_data_to_bytes(&indexed_png(None), "{}");
    assert!(matches!(r, Err(PngMetadataError::PngEncodingError(_))));
}
