//! Calls into outside crates and into std functions that vstd leaves
//! unspecified. Each item states what the library relies on.

use vstd::prelude::*;
use base64::Engine;
use vstd::utf8::*;
use png::text_metadata::EncodableTextChunk;
use crate::codec::{
    be32_value, header_chunk_type, png_header, png_signature, raster_complete, text_chunk_type,
    PngRaster, RasterView,
};

verus! {

/// What `base64`'s standard engine (padded alphabet) produces for some bytes.
pub uninterp spec fn base64_text(b: Seq<u8>) -> Seq<char>;

/// What `base64`'s standard engine decodes from some bytes, if they are a
/// canonical padded encoding.
pub uninterp spec fn base64_bytes(t: Seq<u8>) -> Option<Seq<u8>>;

/// The byte of each character, for text whose characters all lie below 256.
pub open spec fn latin1_bytes(s: Seq<char>) -> Seq<u8> {
    Seq::new(s.len(), |i: int| s[i] as u8)
}

/// Every character lies below 256, so that it has a one-byte Latin-1 form.
pub open spec fn is_latin1(s: Seq<char>) -> bool {
    forall|i: int| 0 <= i < s.len() ==> (#[trigger] s[i] as u32) < 256
}

#[verifier::external_type_specification]
#[verifier::external_body]
pub struct ExDecodeError(base64::DecodeError);

#[verifier::external_type_specification]
#[verifier::external_body]
pub struct ExIoError(std::io::Error);

#[verifier::external_type_specification]
#[verifier::external_body]
pub struct ExPngDecodingError(png::DecodingError);

#[verifier::external_type_specification]
#[verifier::external_body]
pub struct ExPngEncodingError(png::EncodingError);

#[verifier::external_type_specification]
#[verifier::external_body]
pub struct ExJsonValue(serde_json::Value);

/// Relies on `Clone for serde_json::Value`, which copies the value.
pub assume_specification[ <serde_json::Value as Clone>::clone ](v: &serde_json::Value) -> serde_json::Value;

/// Relies on `base64::engine::general_purpose::STANDARD.encode`: four
/// alphabet characters (ASCII) for each started group of three bytes, with
/// padding, and decoding that text gives the bytes back.
#[verifier::external_body]
pub(crate) fn base64_encode(b: &[u8]) -> (r: String)
    requires
        b@.len() <= usize::MAX / 2,
    ensures
        r@ == base64_text(b@),
        r@.len() == 4 * ((b@.len() + 2) / 3),
        forall|i: int| 0 <= i < r@.len() ==> (#[trigger] r@[i] as u32) < 128,
        base64_bytes(latin1_bytes(r@)) == Some(b@),
{
    base64::engine::general_purpose::STANDARD.encode(b)
}

/// Relies on `base64::engine::general_purpose::STANDARD.decode`: the bytes
/// that the text encodes, or an error when it is not such an encoding.
#[verifier::external_body]
pub(crate) fn base64_decode(t: &[u8]) -> (r: Result<Vec<u8>, base64::DecodeError>)
    ensures
        match r {
            Ok(v) => base64_bytes(t@) == Some(v@),
            Err(_) => base64_bytes(t@) is None,
        },
{
    base64::engine::general_purpose::STANDARD.decode(t)
}

/// Relies on `String::from_utf8`: the text that the bytes encode when they
/// are valid UTF-8, and nothing otherwise.
#[verifier::external_body]
pub(crate) fn string_from_utf8(v: Vec<u8>) -> (r: Option<String>)
    ensures
        r is Some <==> valid_utf8(v@),
        r matches Some(s) ==> s@ == decode_utf8(v@),
{
    String::from_utf8(v).ok()
}

/// What `png`'s decoder (`Decoder::new(..).read_info()`, then `next_frame`,
/// with no transformations) yields for some bytes: the header fields, the
/// palette and transparency chunks, and the first frame's pixels.
pub uninterp spec fn png_raster_of(src: Seq<u8>) -> Option<RasterView>;

/// Relies on `png::Decoder::read_info`, `Reader::info` and
/// `Reader::next_frame`. The decoder reads the signature and then the `IHDR`
/// chunk, refusing a zero size, an invalid colour type and bit depth, and a
/// buffer size that overflows; with no transformations the frame buffer
/// holds the header's rows exactly.
#[verifier::external_body]
pub(crate) fn decode_png_raster(src: &[u8]) -> (r: Result<PngRaster, png::DecodingError>)
    ensures
        match r {
            Ok(raster) => png_raster_of(src@) == Some(raster@),
            Err(_) => png_raster_of(src@) is None,
        },
        r matches Ok(raster) ==> {
            &&& raster_complete(raster@)
            &&& src@.len() >= 26
            &&& png_header(src@) == (raster.width as nat, raster.height as nat, raster.bit_depth, raster.color_type)
        },
{
    let mut reader = png::Decoder::new(src).read_info()?;
    let info = reader.info().clone();
    let mut pixels = vec![0; reader.output_buffer_size()];
    reader.next_frame(&mut pixels)?;
    Ok(PngRaster {
        width: info.width,
        height: info.height,
        color_type: info.color_type as u8,
        bit_depth: info.bit_depth as u8,
        palette: info.palette.map(|p| p.into_owned()),
        transparency: info.trns.map(|t| t.into_owned()),
        pixels,
    })
}

/// Relies on `png::Encoder::with_info`, `write_header`,
/// `Writer::write_image_data` and `Writer::finish`, writing to a `Vec`: the
/// output opens with the signature and the 13-byte `IHDR` chunk of the given
/// size, depth and colour type. Writing fails only for an indexed raster
/// without a palette, the other failures (zero size, invalid colour and
/// depth, wrong buffer length) being excluded by the caller.
#[verifier::external_body]
pub(crate) fn encode_png_raster(r: &PngRaster) -> (out: Result<Vec<u8>, png::EncodingError>)
    requires
        raster_complete(r@),
    ensures
        out is Ok <==> (r.color_type == 3 ==> r.palette is Some),
        out matches Ok(b) ==> {
            &&& b@.len() >= 33
            &&& b@.subrange(0, 8) == png_signature()
            &&& be32_value(b@.subrange(8, 12)) == 13
            &&& b@.subrange(12, 16) == header_chunk_type()
            &&& png_header(b@) == (r.width as nat, r.height as nat, r.bit_depth, r.color_type)
        },
{
    let mut out = Vec::new();
    let mut info = png::Info::with_size(r.width, r.height);
    info.color_type = png::ColorType::from_u8(r.color_type).expect("checked colour type");
    info.bit_depth = png::BitDepth::from_u8(r.bit_depth).expect("checked bit depth");
    info.palette = r.palette.clone().map(std::borrow::Cow::Owned);
    info.trns = r.transparency.clone().map(std::borrow::Cow::Owned);
    let mut writer = png::Encoder::with_info(&mut out, info)?.write_header()?;
    writer.write_image_data(&r.pixels)?;
    writer.finish()?;
    Ok(out)
}

/// Relies on `png::text_metadata::TEXtChunk::encode`: a whole `tEXt` chunk
/// (data length, type, keyword, a NUL byte, text, CRC), each character
/// written as its Latin-1 byte. Its only errors are a keyword size outside
/// 1..=79 and a character above 255, and writing to a `Vec` does not fail.
#[verifier::external_body]
pub(crate) fn png_text_chunk(keyword: &str, text: &str) -> (r: Result<Vec<u8>, png::EncodingError>)
    requires
        1 <= keyword@.len() <= 79,
        is_latin1(keyword@),
        is_latin1(text@),
        keyword@.len() + text@.len() + 1 <= u32::MAX,
    ensures
        r is Ok,
        r matches Ok(c) ==> {
            let data = latin1_bytes(keyword@) + seq![0u8] + latin1_bytes(text@);
            &&& c@.len() == data.len() + 12
            &&& be32_value(c@.subrange(0, 4)) == data.len()
            &&& c@.subrange(4, 8) == text_chunk_type()
            &&& c@.subrange(8, 8 + data.len() as int) == data
        },
{
    let mut out = Vec::new();
    png::text_metadata::TEXtChunk::new(keyword, text).encode(&mut out)?;
    Ok(out)
}

#[verifier::external_type_specification]
#[verifier::external_body]
pub struct ExImageError(image::ImageError);

/// Whether `image::load_from_memory` decodes the bytes. With only the `png`
/// feature of `image` enabled, that is whether they are a PNG image.
pub uninterp spec fn image_decodes(b: Seq<u8>) -> bool;

/// Relies on `image::load_from_memory` and `DynamicImage::write_to` with
/// `ImageFormat::Png` into a `Vec`: the image re-encoded as PNG. Every image
/// that the PNG decoder yields (8- or 16-bit grey, grey with alpha, RGB or
/// RGBA, of non-zero size) is one that the PNG encoder takes, so the result
/// is an error only when decoding fails.
#[verifier::external_body]
pub(crate) fn image_as_png(bytes: &[u8]) -> (r: Result<Vec<u8>, image::ImageError>)
    ensures
        r is Ok <==> image_decodes(bytes@),
{
    let image = image::load_from_memory(bytes)?;
    let mut out = std::io::Cursor::new(Vec::new());
    image.write_to(&mut out, image::ImageFormat::Png)?;
    Ok(out.into_inner())
}

/// Relies on `image::load_from_memory`, `DynamicImage::resize` with the
/// triangle filter, and `write_to` with `ImageFormat::Png`: the largest image
/// of the same aspect ratio that fits in `width` by `height` (at least one
/// pixel each way), as PNG, with its width and height. The result is an
/// error only when decoding fails, as for `image_as_png`.
#[verifier::external_body]
pub(crate) fn image_thumbnail_png(bytes: &[u8], width: u32, height: u32) -> (r: Result<
    (Vec<u8>, u32, u32),
    image::ImageError,
>)
    requires
        width >= 1,
        height >= 1,
    ensures
        r is Ok <==> image_decodes(bytes@),
        r matches Ok((_, w, h)) ==> 1 <= w <= width && 1 <= h <= height,
{
    let image = image::load_from_memory(bytes)?;
    let thumbnail = image.resize(width, height, image::imageops::FilterType::Triangle);
    let mut out = std::io::Cursor::new(Vec::new());
    thumbnail.write_to(&mut out, image::ImageFormat::Png)?;
    Ok((out.into_inner(), thumbnail.width(), thumbnail.height()))
}

/// Relies on `chrono::Utc::now` and `DateTime::to_rfc3339`: the current time
/// in UTC, as ISO-8601 text.
#[verifier::external_body]
pub(crate) fn current_timestamp() -> (r: String) {
    chrono::Utc::now().to_rfc3339()
}

/// Relies on `std::path::Path::is_absolute`, whose answer depends on the
/// platform's path rules.
#[verifier::external_body]
pub(crate) fn is_absolute_path(p: &str) -> (r: bool) {
    std::path::Path::new(p).is_absolute()
}

/// Relies on `std::path::Path::join`: `name` inside the directory `dir`,
/// written with the platform's separator.
#[verifier::external_body]
pub(crate) fn join_path(dir: &str, name: &str) -> (r: String) {
    std::path::Path::new(dir).join(name).to_string_lossy().into_owned()
}

} // verus!
