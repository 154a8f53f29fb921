//! The profile payload that a PNG portrait carries in its `tEXt` chunks
//! (keyword `chara` or `ccv3`, text `base64(json)`): reading it back out of
//! the chunk stream, and writing it into a re-encoded image.

use vstd::prelude::*;
use vstd::utf8::*;
use vstd::string::StringSliceAdditionalSpecFns;
use crate::bindings::{
    base64_bytes, base64_decode, base64_encode, base64_text, decode_png_raster, encode_png_raster,
    latin1_bytes, png_raster_of, png_text_chunk, string_from_utf8,
};

verus! {

/// The eight bytes that open every PNG file.
pub open spec fn png_signature() -> Seq<u8> {
    seq![137u8, 80u8, 78u8, 71u8, 13u8, 10u8, 26u8, 10u8]
}

/// The chunk type `tEXt`.
pub open spec fn text_chunk_type() -> Seq<u8> {
    seq![116u8, 69u8, 88u8, 116u8]
}

/// The chunk type `IHDR`.
pub open spec fn header_chunk_type() -> Seq<u8> {
    seq![73u8, 72u8, 68u8, 82u8]
}

/// `chara` followed by the NUL byte that ends a `tEXt` keyword.
pub open spec fn chara_keyword() -> Seq<u8> {
    seq![99u8, 104u8, 97u8, 114u8, 97u8, 0u8]
}

/// `ccv3` followed by the NUL byte that ends a `tEXt` keyword.
pub open spec fn ccv3_keyword() -> Seq<u8> {
    seq![99u8, 99u8, 118u8, 51u8, 0u8]
}

/// The big-endian number held in the first four bytes of `b`.
pub open spec fn be32_value(b: Seq<u8>) -> nat {
    b[0] as nat * 16777216 + b[1] as nat * 65536 + b[2] as nat * 256 + b[3] as nat
}

/// A chunk of a PNG stream, as its parts.
pub struct PngChunk {
    pub length: Seq<u8>,
    pub kind: Seq<u8>,
    pub data: Seq<u8>,
    pub crc: Seq<u8>,
}

impl PngChunk {
    pub open spec fn well_formed(self) -> bool {
        &&& self.length.len() == 4
        &&& be32_value(self.length) == self.data.len()
        &&& self.kind.len() == 4
        &&& self.crc.len() == 4
    }

    /// Length, type, data and CRC, as they stand in the file.
    pub open spec fn bytes(self) -> Seq<u8> {
        self.length + self.kind + self.data + self.crc
    }
}

/// The chunks one after another.
pub open spec fn chunks_bytes(cs: Seq<PngChunk>) -> Seq<u8>
    decreases cs.len(),
{
    if cs.len() == 0 {
        Seq::empty()
    } else {
        cs[0].bytes() + chunks_bytes(cs.drop_first())
    }
}

/// The text of a chunk that carries a profile: a `tEXt` chunk whose keyword
/// is `chara` or `ccv3`.
pub open spec fn profile_text(kind: Seq<u8>, data: Seq<u8>) -> Option<Seq<u8>> {
    if kind != text_chunk_type() {
        None
    } else if data.len() >= 6 && data.subrange(0, 6) == chara_keyword() {
        Some(data.subrange(6, data.len() as int))
    } else if data.len() >= 5 && data.subrange(0, 5) == ccv3_keyword() {
        Some(data.subrange(5, data.len() as int))
    } else {
        None
    }
}

/// What a walk over the chunks from `pos` on finds.
pub enum ChunkScan {
    /// The text of the first chunk that carries a profile.
    Found(Seq<u8>),
    /// The stream ends without such a chunk.
    Absent,
    /// A chunk declares more data than the buffer holds.
    Overrun,
}

/// Walks the chunks of `b` from `pos`: each is a four-byte big-endian data
/// length, a four-byte type, the data and a four-byte CRC (not checked).
/// The walk stops when fewer than eight bytes are left.
pub open spec fn scan_chunks(b: Seq<u8>, pos: int) -> ChunkScan
    decreases b.len() - pos,
{
    if pos < 0 || pos + 8 > b.len() {
        ChunkScan::Absent
    } else {
        let len = be32_value(b.subrange(pos, pos + 4));
        if pos + 8 + len > b.len() {
            ChunkScan::Overrun
        } else {
            match profile_text(b.subrange(pos + 4, pos + 8), b.subrange(pos + 8, pos + 8 + len)) {
                Some(t) => ChunkScan::Found(t),
                None => if pos + 12 + len > b.len() {
                    ChunkScan::Absent
                } else {
                    scan_chunks(b, pos + 12 + len)
                },
            }
        }
    }
}

/// What a PNG file holds as an embedded profile.
pub enum EmbeddedProfile {
    /// The profile's JSON text.
    Text(Seq<char>),
    /// A well-formed stream without a profile chunk.
    Absent,
    /// No PNG signature, a chunk that overruns the buffer, or a payload that
    /// is not UTF-8.
    Malformed,
    /// The profile chunk's text is not base64.
    BadBase64,
}

pub open spec fn embedded_profile(b: Seq<u8>) -> EmbeddedProfile {
    if b.len() < 8 || b.subrange(0, 8) != png_signature() {
        EmbeddedProfile::Malformed
    } else {
        match scan_chunks(b, 8) {
            ChunkScan::Absent => EmbeddedProfile::Absent,
            ChunkScan::Overrun => EmbeddedProfile::Malformed,
            ChunkScan::Found(t) => match base64_bytes(t) {
                None => EmbeddedProfile::BadBase64,
                Some(v) => if valid_utf8(v) {
                    EmbeddedProfile::Text(decode_utf8(v))
                } else {
                    EmbeddedProfile::Malformed
                },
            },
        }
    }
}

/// Errors of the metadata codec.
#[derive(Debug)]
pub enum PngMetadataError {
    IoError(std::io::Error),
    PngDecodingError(png::DecodingError),
    PngEncodingError(png::EncodingError),
    Base64Error(base64::DecodeError),
    CharaDataNotFound,
    InvalidImageFormat,
}

/// The reading that an error of `read_character_data_from_bytes` reports.
pub open spec fn reports(e: PngMetadataError, p: EmbeddedProfile) -> bool {
    match e {
        PngMetadataError::CharaDataNotFound => p is Absent,
        PngMetadataError::InvalidImageFormat => p is Malformed,
        PngMetadataError::Base64Error(_) => p is BadBase64,
        _ => false,
    }
}

/// The big-endian number at `pos`.
fn read_be32(b: &[u8], pos: usize) -> (r: u64)
    requires
        pos + 4 <= b@.len(),
    ensures
        r as int == be32_value(b@.subrange(pos as int, pos + 4)),
        r <= u32::MAX,
{
    (b[pos] as u64) * 16777216 + (b[pos + 1] as u64) * 65536 + (b[pos + 2] as u64) * 256
        + (b[pos + 3] as u64)
}

/// Whether `b` holds `pat` at `pos`.
fn bytes_at(b: &[u8], pos: usize, pat: &[u8]) -> (r: bool)
    requires
        pos <= b@.len(),
    ensures
        r <==> (pos + pat@.len() <= b@.len() && b@.subrange(pos as int, pos + pat@.len())
            == pat@),
{
    if pat.len() > b.len() - pos {
        return false;
    }
    let mut i: usize = 0;
    while i < pat.len()
        invariant
            i <= pat@.len(),
            pos + pat@.len() <= b@.len(),
            b@.len() <= usize::MAX,
            b@.subrange(pos as int, pos + i) == pat@.subrange(0, i as int),
        decreases pat@.len() - i,
    {
        if b[pos + i] != pat[i] {
            assert(b@.subrange(pos as int, pos + pat@.len())[i as int] != pat@[i as int]);
            return false;
        }
        assert(b@.subrange(pos as int, pos + i + 1) =~= pat@.subrange(0, i + 1));
        i = i + 1;
    }
    assert(pat@.subrange(0, pat@.len() as int) =~= pat@);
    true
}

/// Where the text of a profile chunk starts, when the chunk of type
/// `kind` at `start..end` carries one.
fn profile_text_start(b: &[u8], kind: usize, start: usize, end: usize) -> (r: Option<usize>)
    requires
        kind + 4 == start,
        start <= end <= b@.len(),
    ensures
        match profile_text(
            b@.subrange(kind as int, start as int),
            b@.subrange(start as int, end as int),
        ) {
            Some(t) => r matches Some(s) && start <= s <= end && t == b@.subrange(
                s as int,
                end as int,
            ),
            None => r is None,
        },
{
    let text_type: [u8; 4] = [116u8, 69u8, 88u8, 116u8];
    let chara: [u8; 6] = [99u8, 104u8, 97u8, 114u8, 97u8, 0u8];
    let ccv3: [u8; 5] = [99u8, 99u8, 118u8, 51u8, 0u8];
    let ghost kind_bytes = b@.subrange(kind as int, start as int);
    let ghost data = b@.subrange(start as int, end as int);
    assert(text_type@ =~= text_chunk_type());
    assert(chara@ =~= chara_keyword());
    assert(ccv3@ =~= ccv3_keyword());
    if !bytes_at(b, kind, text_type.as_slice()) {
        assert(kind_bytes != text_chunk_type());
        return None;
    }
    assert(kind_bytes =~= text_chunk_type());
    if end - start >= 6 && bytes_at(b, start, chara.as_slice()) {
        assert(data.subrange(0, 6) =~= b@.subrange(start as int, start + 6));
        assert(data.subrange(6, data.len() as int) =~= b@.subrange(start + 6, end as int));
        return Some(start + 6);
    }
    assert(end - start >= 6 ==> data.subrange(0, 6) =~= b@.subrange(start as int, start + 6));
    if end - start >= 5 && bytes_at(b, start, ccv3.as_slice()) {
        assert(data.subrange(0, 5) =~= b@.subrange(start as int, start + 5));
        assert(data.subrange(5, data.len() as int) =~= b@.subrange(start + 5, end as int));
        return Some(start + 5);
    }
    assert(end - start >= 5 ==> data.subrange(0, 5) =~= b@.subrange(start as int, start + 5));
    None
}

/// The largest profile, in UTF-8 bytes, that fits in one `tEXt` chunk once
/// base64-encoded (a PNG chunk holds less than 2^31 bytes).
pub const MAX_PROFILE_JSON_LEN: usize = 1_500_000_000;

/// A decoded image: its header parameters (colour type and bit depth as
/// their `IHDR` codes), its palette and transparency chunks, and the pixels
/// of its first frame, row after row without filter bytes.
pub struct PngRaster {
    pub width: u32,
    pub height: u32,
    pub color_type: u8,
    pub bit_depth: u8,
    pub palette: Option<Vec<u8>>,
    pub transparency: Option<Vec<u8>>,
    pub pixels: Vec<u8>,
}

/// A decoded image as plain values.
pub struct RasterView {
    pub width: u32,
    pub height: u32,
    pub color_type: u8,
    pub bit_depth: u8,
    pub palette: Option<Seq<u8>>,
    pub transparency: Option<Seq<u8>>,
    pub pixels: Seq<u8>,
}

pub open spec fn bytes_view(v: Option<Vec<u8>>) -> Option<Seq<u8>> {
    match v {
        Some(b) => Some(b@),
        None => None,
    }
}

impl View for PngRaster {
    type V = RasterView;

    open spec fn view(&self) -> RasterView {
        RasterView {
            width: self.width,
            height: self.height,
            color_type: self.color_type,
            bit_depth: self.bit_depth,
            palette: bytes_view(self.palette),
            transparency: bytes_view(self.transparency),
            pixels: self.pixels@,
        }
    }
}

/// The colour type and bit depth pairs that PNG allows.
pub open spec fn valid_color_depth(color_type: u8, bit_depth: u8) -> bool {
    ||| color_type == 0 && (bit_depth == 1 || bit_depth == 2 || bit_depth == 4 || bit_depth == 8
        || bit_depth == 16)
    ||| color_type == 3 && (bit_depth == 1 || bit_depth == 2 || bit_depth == 4 || bit_depth == 8)
    ||| (color_type == 2 || color_type == 4 || color_type == 6) && (bit_depth == 8 || bit_depth
        == 16)
}

/// Samples per pixel of a colour type: grey, RGB, palette index, grey and
/// alpha, RGBA.
pub open spec fn channels(color_type: u8) -> nat {
    if color_type == 2 {
        3
    } else if color_type == 4 {
        2
    } else if color_type == 6 {
        4
    } else {
        1
    }
}

/// Bytes in one row of pixels.
pub open spec fn row_bytes(width: nat, color_type: u8, bit_depth: u8) -> nat {
    (width * channels(color_type) * bit_depth as nat + 7) / 8
}

/// A raster whose header is valid and whose pixels fill it exactly.
pub open spec fn raster_complete(v: RasterView) -> bool {
    &&& v.width > 0
    &&& v.height > 0
    &&& valid_color_depth(v.color_type, v.bit_depth)
    &&& v.pixels.len() == row_bytes(v.width as nat, v.color_type, v.bit_depth) * v.height as nat
}

/// Width, height, bit depth and colour type, as the `IHDR` chunk that
/// follows the signature holds them.
pub open spec fn png_header(b: Seq<u8>) -> (nat, nat, u8, u8) {
    (be32_value(b.subrange(16, 20)), be32_value(b.subrange(20, 24)), b[24], b[25])
}

/// A source that can be re-encoded: it decodes, and when it is indexed it
/// has a palette.
pub open spec fn reencodable(src: Seq<u8>) -> bool {
    png_raster_of(src) matches Some(v) && (v.color_type == 3 ==> v.palette is Some)
}

/// The `tEXt` chunk that carries `text` under a profile keyword.
pub open spec fn profile_chunk(keyword: Seq<u8>, length: Seq<u8>, text: Seq<u8>, crc: Seq<u8>) -> PngChunk {
    PngChunk { length, kind: text_chunk_type(), data: keyword + text, crc }
}

/// `out` is a PNG stream that opens with its header chunk and then the
/// `chara` and `ccv3` chunks, both holding `text`: the standard base64 form
/// of the UTF-8 bytes of `json`, which decodes back to them.
pub open spec fn profile_png_parts(
    out: Seq<u8>,
    json: Seq<char>,
    header: PngChunk,
    text: Seq<u8>,
    chara: PngChunk,
    ccv3: PngChunk,
    rest: Seq<u8>,
) -> bool {
    &&& header.well_formed()
    &&& header.kind == header_chunk_type()
    &&& chara.well_formed()
    &&& chara == profile_chunk(chara_keyword(), chara.length, text, chara.crc)
    &&& ccv3.well_formed()
    &&& ccv3 == profile_chunk(ccv3_keyword(), ccv3.length, text, ccv3.crc)
    &&& text == latin1_bytes(base64_text(encode_utf8(json)))
    &&& base64_bytes(text) == Some(encode_utf8(json))
    &&& out == png_signature() + chunks_bytes(seq![header, chara, ccv3]) + rest
}

pub open spec fn carries_profile(out: Seq<u8>, json: Seq<char>) -> bool {
    exists|header: PngChunk, text: Seq<u8>, chara: PngChunk, ccv3: PngChunk, rest: Seq<u8>|
        #[trigger] profile_png_parts(out, json, header, text, chara, ccv3, rest)
}

/// Appends `src[from..to]` to `out`.
fn append_range(out: &mut Vec<u8>, src: &[u8], from: usize, to: usize)
    requires
        from <= to <= src@.len(),
    ensures
        final(out)@ == old(out)@ + src@.subrange(from as int, to as int),
{
    let mut i: usize = from;
    while i < to
        invariant
            from <= i <= to <= src@.len(),
            out@ == old(out)@ + src@.subrange(from as int, i as int),
        decreases to - i,
    {
        out.push(src[i]);
        assert(src@.subrange(from as int, i + 1) =~= src@.subrange(from as int, i as int).push(src@[i as int]));
        i = i + 1;
    }
}

/// A chunk that stands at `pos` is either the one the walk stops at or
/// passed over.
proof fn lemma_scan_chunk_at(b: Seq<u8>, pos: int, c: PngChunk)
    requires
        c.well_formed(),
        0 <= pos,
        pos + c.bytes().len() <= b.len(),
        b.subrange(pos, pos + c.bytes().len()) == c.bytes(),
    ensures
        scan_chunks(b, pos) == match profile_text(c.kind, c.data) {
            Some(t) => ChunkScan::Found(t),
            None => scan_chunks(b, pos + c.bytes().len()),
        },
{
    let n = c.data.len() as int;
    let cb = c.bytes();
    assert(cb.subrange(0, 4) =~= c.length);
    assert(cb.subrange(4, 8) =~= c.kind);
    assert(cb.subrange(8, 8 + n) =~= c.data);
    assert(b.subrange(pos, pos + 4) =~= cb.subrange(0, 4));
    assert(b.subrange(pos + 4, pos + 8) =~= cb.subrange(4, 8));
    assert(b.subrange(pos + 8, pos + 8 + n) =~= cb.subrange(8, 8 + n));
}

proof fn lemma_three_chunks(a: PngChunk, b: PngChunk, c: PngChunk)
    ensures
        chunks_bytes(seq![a, b, c]) == a.bytes() + b.bytes() + c.bytes(),
{
    let cs = seq![a, b, c];
    assert(cs.drop_first() =~= seq![b, c]);
    assert(seq![b, c].drop_first() =~= seq![c]);
    assert(seq![c].drop_first() =~= Seq::<PngChunk>::empty());
    assert(chunks_bytes(Seq::<PngChunk>::empty()) =~= Seq::<u8>::empty());
    assert(chunks_bytes(seq![c]) =~= c.bytes());
    assert(chunks_bytes(seq![b, c]) =~= b.bytes() + c.bytes());
    assert(chunks_bytes(cs) =~= a.bytes() + b.bytes() + c.bytes());
}

/// Chunks that carry no profile are passed over one after another.
proof fn lemma_scan_passes_chunks(b: Seq<u8>, pos: int, cs: Seq<PngChunk>)
    requires
        0 <= pos,
        pos + chunks_bytes(cs).len() <= b.len(),
        b.subrange(pos, pos + chunks_bytes(cs).len()) == chunks_bytes(cs),
        forall|i: int| 0 <= i < cs.len() ==> (#[trigger] cs[i]).well_formed(),
        forall|i: int| 0 <= i < cs.len() ==> profile_text((#[trigger] cs[i]).kind, cs[i].data) is None,
    ensures
        scan_chunks(b, pos) == scan_chunks(b, pos + chunks_bytes(cs).len()),
    decreases cs.len(),
{
    if cs.len() > 0 {
        let c = cs[0];
        let tail = cs.drop_first();
        let cl = c.bytes().len() as int;
        let all = chunks_bytes(cs);
        assert(all == c.bytes() + chunks_bytes(tail));
        assert(b.subrange(pos, pos + cl) =~= all.subrange(0, cl));
        assert(all.subrange(0, cl) =~= c.bytes());
        lemma_scan_chunk_at(b, pos, c);
        assert(b.subrange(pos + cl, pos + all.len()) =~= all.subrange(cl, all.len() as int));
        assert(all.subrange(cl, all.len() as int) =~= chunks_bytes(tail));
        assert forall|i: int| 0 <= i < tail.len() implies (#[trigger] tail[i]).well_formed()
            && profile_text(tail[i].kind, tail[i].data) is None by {
            assert(tail[i] == cs[i + 1]);
        }
        lemma_scan_passes_chunks(b, pos + cl, tail);
    }
}

/// Encoding a profile into a PNG stream and reading it back gives the same
/// text: a stream that opens with its header chunk and then a `chara` chunk
/// whose text is the base64 form of the profile's UTF-8 bytes yields that
/// profile.
pub proof fn lemma_profile_round_trip(
    out: Seq<u8>,
    json: Seq<char>,
    header: PngChunk,
    text: Seq<u8>,
    chara: PngChunk,
    ccv3: PngChunk,
    rest: Seq<u8>,
)
    requires
        profile_png_parts(out, json, header, text, chara, ccv3, rest),
    ensures
        embedded_profile(out) == EmbeddedProfile::Text(json),
{
    broadcast use encode_utf8_valid_utf8, encode_utf8_decode_utf8;

    let cs = seq![header, chara, ccv3];
    let hl = header.bytes().len() as int;
    let cl = chara.bytes().len() as int;
    lemma_three_chunks(header, chara, ccv3);
    assert(out =~= png_signature() + header.bytes() + chara.bytes() + ccv3.bytes() + rest);
    assert(out.subrange(0, 8) =~= png_signature());
    assert(out.subrange(8, 8 + hl) =~= header.bytes());
    lemma_scan_chunk_at(out, 8, header);
    assert(out.subrange(8 + hl, 8 + hl + cl) =~= chara.bytes());
    lemma_scan_chunk_at(out, 8 + hl, chara);
    assert(chara.data.subrange(0, 6) =~= chara_keyword());
    assert(chara.data.subrange(6, chara.data.len() as int) =~= text);
}

/// A PNG stream none of whose chunks is a `chara` or `ccv3` text chunk
/// reads as carrying no profile.
pub proof fn lemma_no_profile_chunk(cs: Seq<PngChunk>)
    requires
        forall|i: int| 0 <= i < cs.len() ==> (#[trigger] cs[i]).well_formed(),
        forall|i: int| 0 <= i < cs.len() ==> profile_text((#[trigger] cs[i]).kind, cs[i].data) is None,
    ensures
        embedded_profile(png_signature() + chunks_bytes(cs)) == EmbeddedProfile::Absent,
{
    let b = png_signature() + chunks_bytes(cs);
    assert(b.subrange(0, 8) =~= png_signature());
    assert(b.subrange(8, b.len() as int) =~= chunks_bytes(cs));
    lemma_scan_passes_chunks(b, 8, cs);
}

/// Input shorter than the PNG signature is malformed.
pub proof fn lemma_short_input_malformed(b: Seq<u8>)
    requires
        b.len() < 8,
    ensures
        embedded_profile(b) == EmbeddedProfile::Malformed,
{
}

/// A chunk whose declared data length exceeds what follows its length and
/// type makes the stream malformed, unless an earlier chunk carries the
/// profile.
pub proof fn lemma_overrunning_chunk_malformed(cs: Seq<PngChunk>, head: Seq<u8>, tail: Seq<u8>)
    requires
        forall|i: int| 0 <= i < cs.len() ==> (#[trigger] cs[i]).well_formed(),
        forall|i: int| 0 <= i < cs.len() ==> profile_text((#[trigger] cs[i]).kind, cs[i].data) is None,
        head.len() == 8,
        be32_value(head) > tail.len(),
    ensures
        embedded_profile(png_signature() + chunks_bytes(cs) + head + tail) == EmbeddedProfile::Malformed,
{
    let b = png_signature() + chunks_bytes(cs) + head + tail;
    let p: int = 8 + chunks_bytes(cs).len() as int;
    assert(b.subrange(0, 8) =~= png_signature());
    assert(b.subrange(8, p) =~= chunks_bytes(cs));
    lemma_scan_passes_chunks(b, 8, cs);
    assert(b.subrange(p, p + 4) =~= head.subrange(0, 4));
    assert(be32_value(head.subrange(0, 4)) == be32_value(head));
}

/// Reading and writing the profile that a PNG portrait carries.
pub struct PngMetadataUtils;

impl PngMetadataUtils {
    /// The profile JSON that `png_bytes` carries in its first `chara` or
    /// `ccv3` text chunk.
    pub fn read_character_data_from_bytes(png_bytes: &[u8]) -> (r: Result<String, PngMetadataError>)
        ensures
            match r {
                Ok(s) => embedded_profile(png_bytes@) == EmbeddedProfile::Text(s@),
                Err(e) => reports(e, embedded_profile(png_bytes@)),
            },
    {
        let signature: [u8; 8] = [137u8, 80u8, 78u8, 71u8, 13u8, 10u8, 26u8, 10u8];
        assert(signature@ =~= png_signature());
        if png_bytes.len() < 8 || !bytes_at(png_bytes, 0, signature.as_slice()) {
            return Err(PngMetadataError::InvalidImageFormat);
        }
        let len = png_bytes.len();
        let mut pos: usize = 8;
        while len - pos >= 8
            invariant
                len == png_bytes@.len(),
                8 <= pos <= len,
                png_bytes@.subrange(0, 8) == png_signature(),
                scan_chunks(png_bytes@, pos as int) == scan_chunks(png_bytes@, 8),
            decreases len - pos,
        {
            let length = read_be32(png_bytes, pos);
            if length > (len - pos - 8) as u64 {
                assert(scan_chunks(png_bytes@, pos as int) == ChunkScan::Overrun);
                return Err(PngMetadataError::InvalidImageFormat);
            }
            let start = pos + 8;
            let end = start + length as usize;
            match profile_text_start(png_bytes, pos + 4, start, end) {
                Some(text_start) => {
                    let text = &png_bytes[text_start..end];
                    assert(scan_chunks(png_bytes@, pos as int) == ChunkScan::Found(text@));
                    return match base64_decode(text) {
                        Err(e) => Err(PngMetadataError::Base64Error(e)),
                        Ok(json_bytes) => match string_from_utf8(json_bytes) {
                            Some(s) => Ok(s),
                            None => Err(PngMetadataError::InvalidImageFormat),
                        },
                    };
                }
                None => {},
            }
            if len - end < 4 {
                assert(scan_chunks(png_bytes@, pos as int) == ChunkScan::Absent);
                return Err(PngMetadataError::CharaDataNotFound);
            }
            pos = end + 4;
        }
        Err(PngMetadataError::CharaDataNotFound)
    }

    /// Re-encodes `source_png_bytes` with the same raster parameters,
    /// palette, transparency and pixels, inserting right after the header
    /// chunk a `chara` and a `ccv3` text chunk that both hold
    /// `base64(character_json)`. It fails when the source does not decode,
    /// or is an indexed image without a palette.
    pub fn write_character_data_to_bytes(source_png_bytes: &[u8], character_json: &str) -> (r: Result<
        Vec<u8>,
        PngMetadataError,
    >)
        requires
            character_json.spec_bytes().len() <= MAX_PROFILE_JSON_LEN,
        ensures
            r is Ok <==> reencodable(source_png_bytes@),
            match r {
                Ok(out) => {
                    &&& carries_profile(out@, character_json@)
                    &&& embedded_profile(out@) == EmbeddedProfile::Text(character_json@)
                    &&& source_png_bytes@.len() >= 26
                    &&& png_header(out@) == png_header(source_png_bytes@)
                },
                Err(e) => match png_raster_of(source_png_bytes@) {
                    None => e is PngDecodingError,
                    Some(_) => e is PngEncodingError,
                },
            },
    {
        let raster = match decode_png_raster(source_png_bytes) {
            Ok(raster) => raster,
            Err(e) => return Err(PngMetadataError::PngDecodingError(e)),
        };
        let base = match encode_png_raster(&raster) {
            Ok(base) => base,
            Err(e) => return Err(PngMetadataError::PngEncodingError(e)),
        };
        let json_bytes = character_json.as_bytes();
        let text = base64_encode(json_bytes);
        proof {
            reveal_strlit("chara");
            reveal_strlit("ccv3");
        }
        let chara = match png_text_chunk("chara", text.as_str()) {
            Ok(c) => c,
            Err(e) => return Err(PngMetadataError::PngEncodingError(e)),
        };
        let ccv3 = match png_text_chunk("ccv3", text.as_str()) {
            Ok(c) => c,
            Err(e) => return Err(PngMetadataError::PngEncodingError(e)),
        };
        let mut out: Vec<u8> = Vec::new();
        append_range(&mut out, base.as_slice(), 0, 33);
        append_range(&mut out, chara.as_slice(), 0, chara.len());
        append_range(&mut out, ccv3.as_slice(), 0, ccv3.len());
        append_range(&mut out, base.as_slice(), 33, base.len());
        proof {
            let t = latin1_bytes(text@);
            let header = PngChunk {
                length: base@.subrange(8, 12),
                kind: base@.subrange(12, 16),
                data: base@.subrange(16, 29),
                crc: base@.subrange(29, 33),
            };
            let n1 = chara@.len() as int;
            let n2 = ccv3@.len() as int;
            let chara_chunk = PngChunk {
                length: chara@.subrange(0, 4),
                kind: chara@.subrange(4, 8),
                data: chara@.subrange(8, n1 - 4),
                crc: chara@.subrange(n1 - 4, n1),
            };
            let ccv3_chunk = PngChunk {
                length: ccv3@.subrange(0, 4),
                kind: ccv3@.subrange(4, 8),
                data: ccv3@.subrange(8, n2 - 4),
                crc: ccv3@.subrange(n2 - 4, n2),
            };
            let rest = base@.subrange(33, base@.len() as int);
            assert(latin1_bytes("chara"@) + seq![0u8] =~= chara_keyword());
            assert(latin1_bytes("ccv3"@) + seq![0u8] =~= ccv3_keyword());
            assert(chara_chunk.data =~= chara_keyword() + t);
            assert(ccv3_chunk.data =~= ccv3_keyword() + t);
            assert(header.bytes() =~= base@.subrange(8, 33));
            assert(chara_chunk.bytes() =~= chara@);
            assert(ccv3_chunk.bytes() =~= ccv3@);
            let cs = seq![header, chara_chunk, ccv3_chunk];
            lemma_three_chunks(header, chara_chunk, ccv3_chunk);
            assert(out@ =~= png_signature() + chunks_bytes(cs) + rest);
            assert(out@.subrange(16, 20) =~= base@.subrange(16, 20));
            assert(out@.subrange(20, 24) =~= base@.subrange(20, 24));
            assert(out@[24] == base@[24]);
            assert(out@[25] == base@[25]);
            assert(profile_png_parts(out@, character_json@, header, t, chara_chunk, ccv3_chunk, rest));
            lemma_profile_round_trip(out@, character_json@, header, t, chara_chunk, ccv3_chunk, rest);
        }
        Ok(out)
    }
}

} // verus!
