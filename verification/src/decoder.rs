pub mod color_map;
pub mod extension_block;
pub mod image_descriptor;
pub mod screen_descriptor;
pub mod signature;

use crate::bits::{color_table_len, lemma_low3_bits};
use crate::cursor::{peek_byte, read_exact};
use crate::decoder::color_map::spec_palette;
use crate::decoder::extension_block::{
    lemma_extension_block_err, lemma_gce_wf, lemma_skip_sub_blocks_bounds, spec_extension_block,
    spec_skip_sub_blocks, GRAPHIC_CONTROL_LABEL,
};
use crate::decoder::image_descriptor::spec_image_descriptor;
use crate::decoder::screen_descriptor::spec_screen_descriptor;
use crate::decoder::signature::spec_signature;
use crate::error::Error;
use crate::types::{
    frame_wf, frames_rgba_mode, gce_wf, gif_wf, palette_view, ColorMap, ExtensionBlock, Frame,
    FrameModel, Gif, GifModel, GraphicControlExtension, ImageDescriptor, Rgb, ScreenDescriptor,
};
use vstd::prelude::*;

verus! {

/// The sentinel byte ending the frame sequence.
pub const TRAILER_TAG: u8 = 0x3b;

/// The tag byte introducing an image block.
pub const IMAGE_SEPARATOR_TAG: u8 = 0x2c;

/// The tag byte introducing a metadata block.
pub const EXTENSION_INTRODUCER_TAG: u8 = 0x21;

/// Color output mode requested for a decode.
#[derive(Clone, Copy, Debug, PartialEq, Eq, Structural)]
pub enum ColorOutput {
    /// Every byte of the index buffer is expanded to 4 bytes (R G B A) in
    /// each frame's resolved buffer.
    RGBA,
    /// Plain palette index color mapping; no resolved buffer is produced.
    ColorMap,
}

/// What scanning for the next block yields: the trailer, an image block
/// with the most recently seen graphic-control metadata still pending, or
/// the end of the buffer before either was found.
pub enum ScanOutcome {
    Eos,
    Trailer { cursor: int },
    Image { cursor: int, pending: Option<GraphicControlExtension> },
}

/// Scans forward from `c` for the next structural block.  A trailer tag
/// stops the scan; a metadata block is decoded, its graphic-control
/// metadata (if any) replacing the pending slot; an image separator ends
/// the scan at the image block; any other byte is skipped.
pub open spec fn spec_scan(
    bytes: Seq<u8>,
    c: int,
    pending: Option<GraphicControlExtension>,
) -> ScanOutcome
    decreases bytes.len() - c,
        via spec_scan_decreases
{
    if c < 0 || c >= bytes.len() {
        ScanOutcome::Eos
    } else if bytes[c] == TRAILER_TAG {
        ScanOutcome::Trailer { cursor: c }
    } else if bytes[c] == IMAGE_SEPARATOR_TAG {
        ScanOutcome::Image { cursor: c, pending }
    } else if bytes[c] == EXTENSION_INTRODUCER_TAG {
        match spec_extension_block(bytes, c) {
            Ok((found, c2)) => spec_scan(
                bytes,
                c2,
                if found is Some {
                    found
                } else {
                    pending
                },
            ),
            Err(_) => ScanOutcome::Eos,
        }
    } else {
        spec_scan(bytes, c + 1, pending)
    }
}

#[via_fn]
proof fn spec_scan_decreases(bytes: Seq<u8>, c: int, pending: Option<GraphicControlExtension>) {
    if 0 <= c < bytes.len() && bytes[c] == EXTENSION_INTRODUCER_TAG {
        if c + 2 <= bytes.len() && bytes[c + 1] != GRAPHIC_CONTROL_LABEL {
            if spec_skip_sub_blocks(bytes, c + 2) is Ok {
                lemma_skip_sub_blocks_bounds(bytes, c + 2);
            }
        }
    }
}

/// The packed pixel bitstream stored at `c` as a sub-block stream: the
/// concatenated payloads of each length-prefixed sub-block, up to the
/// zero-length terminator, and the cursor just past the terminator.
pub open spec fn spec_collect_sub_blocks(bytes: Seq<u8>, c: int) -> Result<(Seq<u8>, int), Error>
    decreases bytes.len() - c,
{
    if c < 0 || c >= bytes.len() {
        Err(Error::UnexpectedEndOfStream)
    } else if bytes[c] == 0 {
        Ok((Seq::empty(), c + 1))
    } else if c + 1 + bytes[c] > bytes.len() {
        Err(Error::UnexpectedEndOfStream)
    } else {
        match spec_collect_sub_blocks(bytes, c + 1 + bytes[c]) {
            Ok((rest, e)) => Ok((bytes.subrange(c + 1, c + 1 + bytes[c]) + rest, e)),
            Err(er) => Err(er),
        }
    }
}

/// Everything of one frame that stands in the buffer itself: the image
/// descriptor, the optional local palette, the packed pixel bitstream, and
/// the cursor past the frame's pixel block.
#[verifier::ext_equal]
pub struct FramePrefix {
    pub descriptor: ImageDescriptor,
    pub local_color_map: Option<Seq<Rgb>>,
    pub data: Seq<u8>,
    pub cursor: int,
}

/// Decodes the frame structure at the image separator `c`: the 10-byte
/// image descriptor, then the local palette iff the descriptor's presence
/// flag is set, then the packed pixel bitstream in sub-block framing.
pub open spec fn spec_frame_prefix(bytes: Seq<u8>, c: int) -> Result<FramePrefix, Error> {
    if c + 10 > bytes.len() {
        Err(Error::UnexpectedEndOfStream)
    } else {
        let descriptor = spec_image_descriptor(bytes, c);
        let table_len = color_table_len(descriptor.pixel) as int;
        if descriptor.m && c + 10 + 3 * table_len > bytes.len() {
            Err(Error::UnexpectedEndOfStream)
        } else {
            let local = if descriptor.m {
                Some(spec_palette(bytes, c + 10, table_len))
            } else {
                None
            };
            let data_start = if descriptor.m {
                c + 10 + 3 * table_len
            } else {
                c + 10
            };
            match spec_collect_sub_blocks(bytes, data_start) {
                Ok((data, e)) => Ok(
                    FramePrefix { descriptor, local_color_map: local, data, cursor: e },
                ),
                Err(er) => Err(er),
            }
        }
    }
}

/// The transparent color index that applies to a frame carrying the
/// metadata `gce`, if any.
pub open spec fn spec_tci(gce: Option<GraphicControlExtension>) -> Option<u8> {
    match gce {
        Some(g) => g.transparent_color_index,
        None => None,
    }
}

/// The alpha byte of a resolved pixel: 0 when the transparent color index
/// is present and equals the pixel's palette index, 255 otherwise.
pub open spec fn spec_alpha(index: u8, tci: Option<u8>) -> u8 {
    match tci {
        Some(t) => if index == t {
            0
        } else {
            255
        },
        None => 255,
    }
}

/// The four RGBA bytes of one resolved pixel.
pub open spec fn spec_rgba_pixel(index: u8, table: Seq<Rgb>, tci: Option<u8>) -> Seq<u8> {
    seq![
        table[index as int].r,
        table[index as int].g,
        table[index as int].b,
        spec_alpha(index, tci),
    ]
}

/// The resolved RGBA buffer of an index buffer: four bytes per source
/// index, in the same row-major pixel order.
pub open spec fn spec_rgba(raster: Seq<u8>, table: Seq<Rgb>, tci: Option<u8>) -> Seq<u8>
    decreases raster.len(),
{
    if raster.len() == 0 {
        Seq::empty()
    } else {
        spec_rgba(raster.drop_last(), table, tci) + spec_rgba_pixel(raster.last(), table, tci)
    }
}

/// Every index byte has a palette entry.
pub open spec fn indices_in_range(raster: Seq<u8>, table: Seq<Rgb>) -> bool {
    forall|i: int| 0 <= i < raster.len() ==> (raster[i] as int) < table.len()
}

/// The resolved buffer holds four bytes per pixel; pixel `p`'s bytes are
/// the palette triple of its index and the transparency alpha.  In
/// particular, a pixel whose index equals the transparent color index
/// resolves with alpha 0, and every other pixel with alpha 255.
pub proof fn lemma_rgba_pointwise(raster: Seq<u8>, table: Seq<Rgb>, tci: Option<u8>)
    ensures
        spec_rgba(raster, table, tci).len() == 4 * raster.len(),
        forall|p: int|
            0 <= p < raster.len() ==> {
                &&& spec_rgba(raster, table, tci)[4 * p] == table[raster[p] as int].r
                &&& spec_rgba(raster, table, tci)[4 * p + 1] == table[raster[p] as int].g
                &&& spec_rgba(raster, table, tci)[4 * p + 2] == table[raster[p] as int].b
                &&& spec_rgba(raster, table, tci)[4 * p + 3] == spec_alpha(raster[p], tci)
            },
    decreases raster.len(),
{
    if raster.len() > 0 {
        lemma_rgba_pointwise(raster.drop_last(), table, tci);
        assert forall|p: int| 0 <= p < raster.len() implies {
            &&& spec_rgba(raster, table, tci)[4 * p] == table[raster[p] as int].r
            &&& spec_rgba(raster, table, tci)[4 * p + 1] == table[raster[p] as int].g
            &&& spec_rgba(raster, table, tci)[4 * p + 2] == table[raster[p] as int].b
            &&& spec_rgba(raster, table, tci)[4 * p + 3] == spec_alpha(raster[p], tci)
        } by {
            let prefix = spec_rgba(raster.drop_last(), table, tci);
            if p < raster.len() - 1 {
                assert(raster.drop_last()[p] == raster[p]);
            } else {
                assert(spec_rgba(raster, table, tci)[4 * p] == spec_rgba_pixel(
                    raster.last(),
                    table,
                    tci,
                )[0]);
                assert(spec_rgba(raster, table, tci)[4 * p + 1] == spec_rgba_pixel(
                    raster.last(),
                    table,
                    tci,
                )[1]);
                assert(spec_rgba(raster, table, tci)[4 * p + 2] == spec_rgba_pixel(
                    raster.last(),
                    table,
                    tci,
                )[2]);
                assert(spec_rgba(raster, table, tci)[4 * p + 3] == spec_rgba_pixel(
                    raster.last(),
                    table,
                    tci,
                )[3]);
            }
        }
    }
}

/// For a frame resolved with transparency enabled and transparent color
/// index `t`: every RGBA pixel whose source index equals `t` has alpha 0,
/// and every other pixel has alpha 255.
pub proof fn lemma_transparency_alpha(
    raster: Seq<u8>,
    table: Seq<Rgb>,
    gce: GraphicControlExtension,
    t: u8,
)
    requires
        gce.transparent_color,
        gce.transparent_color_index == Some(t),
    ensures
        forall|p: int|
            0 <= p < raster.len() ==> spec_rgba(raster, table, spec_tci(Some(gce)))[4 * p + 3] == (
            if raster[p] == t {
                0u8
            } else {
                255u8
            }),
{
    lemma_rgba_pointwise(raster, table, spec_tci(Some(gce)));
}

/// Looks one palette index up in a palette table and emits the four RGBA
/// bytes of that pixel, failing with `PaletteIndexOutOfRange` if the index
/// has no entry.  The alpha byte is 0 iff the given transparent color
/// index is present and equals the index.
pub fn table_index_to_rgba(
    index: u8,
    color_map: &ColorMap,
    maybe_transparent_color_index: Option<u8>,
) -> (r: Result<Vec<u8>, Error>)
    ensures
        r is Ok <==> (index as int) < color_map@.len(),
        r matches Ok(v) ==> v@ == spec_rgba_pixel(index, color_map@, maybe_transparent_color_index),
        r matches Err(e) ==> e == Error::PaletteIndexOutOfRange,
{
    if (index as usize) >= color_map.len() {
        return Err(Error::PaletteIndexOutOfRange);
    }
    let entry = color_map[index as usize];
    let alpha: u8 = match maybe_transparent_color_index {
        Some(t) => if index == t {
            0x00
        } else {
            0xff
        },
        None => 0xff,
    };
    let mut out: Vec<u8> = Vec::new();
    out.push(entry.r);
    out.push(entry.g);
    out.push(entry.b);
    out.push(alpha);
    proof {
        assert(out@ =~= spec_rgba_pixel(index, color_map@, maybe_transparent_color_index));
    }
    Ok(out)
}

/// Resolves a whole index buffer into its RGBA buffer through a palette
/// table and the transparency metadata of the frame, failing with
/// `PaletteIndexOutOfRange` iff some index byte has no palette entry.
/// The index buffer itself is never changed.
pub fn rgba_raster_data(
    raster_data: &Vec<u8>,
    graphic_control_extension: &Option<GraphicControlExtension>,
    color_map: &ColorMap,
) -> (r: Result<Vec<u8>, Error>)
    ensures
        r is Ok <==> indices_in_range(raster_data@, color_map@),
        r matches Ok(v) ==> v@ == spec_rgba(
            raster_data@,
            color_map@,
            spec_tci(*graphic_control_extension),
        ) && v@.len() == 4 * raster_data@.len(),
        r matches Err(e) ==> e == Error::PaletteIndexOutOfRange,
{
    let maybe_tci: Option<u8> = match graphic_control_extension {
        Some(g) => g.transparent_color_index,
        None => None,
    };
    let ghost tci = spec_tci(*graphic_control_extension);
    let mut out: Vec<u8> = Vec::new();
    let mut p: usize = 0;
    let pixel_total = raster_data.len();
    while p < pixel_total
        invariant
            pixel_total == raster_data@.len(),
            maybe_tci == spec_tci(*graphic_control_extension),
            tci == spec_tci(*graphic_control_extension),
            p <= pixel_total,
            indices_in_range(raster_data@.take(p as int), color_map@),
            out@ == spec_rgba(raster_data@.take(p as int), color_map@, tci),
        decreases pixel_total - p,
    {
        let index = raster_data[p];
        let mut pixel = match table_index_to_rgba(index, color_map, maybe_tci) {
            Ok(v) => v,
            Err(e) => {
                assert(!indices_in_range(raster_data@, color_map@));
                return Err(e);
            },
        };
        out.append(&mut pixel);
        p = p + 1;
        proof {
            let taken = raster_data@.take(p as int);
            assert(taken.drop_last() =~= raster_data@.take(p as int - 1));
            assert(taken.last() == raster_data@[p as int - 1]);
            assert(indices_in_range(taken, color_map@));
            assert(taken.len() != 0);
            assert(spec_rgba(taken, color_map@, tci) == spec_rgba(taken.drop_last(), color_map@, tci)
                + spec_rgba_pixel(taken.last(), color_map@, tci));
            assert(out@ == spec_rgba(taken, color_map@, tci));
        }
    }
    proof {
        assert(raster_data@.take(pixel_total as int) =~= raster_data@);
        lemma_rgba_pointwise(raster_data@, color_map@, tci);
    }
    Ok(out)
}

/// Reads a sub-block stream and concatenates its payloads: repeatedly a
/// length byte, then that many payload bytes, until the zero-length
/// terminator.  Returns the packed bitstream and the cursor just past the
/// terminator.
fn collect_sub_blocks(bytes: &Vec<u8>, cursor: usize) -> (r: Result<(Vec<u8>, usize), Error>)
    ensures
        (match r {
            Ok(p) => spec_collect_sub_blocks(bytes@, cursor as int) == Ok::<(Seq<u8>, int), Error>(
                (p.0@, p.1 as int),
            ),
            Err(e) => spec_collect_sub_blocks(bytes@, cursor as int) == Err::<(Seq<u8>, int), Error>(
                e,
            ),
        }),
{
    let buffer_len = bytes.len();
    let mut c = cursor;
    let mut acc: Vec<u8> = Vec::new();
    loop
        invariant
            bytes@.len() == buffer_len,
            (match spec_collect_sub_blocks(bytes@, c as int) {
                Ok((rest, e)) => spec_collect_sub_blocks(bytes@, cursor as int) == Ok::<
                    (Seq<u8>, int),
                    Error,
                >((acc@ + rest, e)),
                Err(er) => spec_collect_sub_blocks(bytes@, cursor as int) == Err::<
                    (Seq<u8>, int),
                    Error,
                >(er),
            }),
        decreases bytes@.len() - c,
    {
        let length = match peek_byte(bytes, c) {
            Ok(b) => b,
            Err(e) => {
                return Err(e);
            },
        };
        if length == 0 {
            proof {
                assert(acc@ + Seq::<u8>::empty() =~= acc@);
            }
            return Ok((acc, c + 1));
        }
        let (mut payload, next) = match read_exact(bytes, c + 1, length as usize) {
            Ok(p) => p,
            Err(e) => {
                return Err(e);
            },
        };
        let ghost acc_old = acc@;
        let ghost payload_view = payload@;
        acc.append(&mut payload);
        proof {
            match spec_collect_sub_blocks(bytes@, next as int) {
                Ok((rest, _e)) => {
                    assert((acc_old + payload_view) + rest =~= acc_old + (payload_view + rest));
                },
                Err(_er) => {},
            }
        }
        c = next;
    }
}

/// A frame's pixel count, width times height of 16-bit dimensions, fits
/// the machine's word size.
proof fn lemma_pixel_product_bound(w: u16, h: u16)
    ensures
        0 <= w as int * h as int <= 0xfffe0001,
{
    assert(w as int * h as int <= 0xfffe0001) by (nonlinear_arith)
        requires
            w <= 0xffff && h <= 0xffff,
    ;
    assert(w as int * h as int >= 0) by (nonlinear_arith);
}

/// The next structural block an executable scan stopped at.
enum ScanHit {
    Trailer { cursor: usize },
    Image { cursor: usize, pending: Option<GraphicControlExtension> },
}

/// Scans forward for the next trailer or image block, decoding metadata
/// blocks on the way and keeping only the most recently seen
/// graphic-control metadata pending.
fn scan_blocks(bytes: &Vec<u8>, cursor: usize, pending: Option<GraphicControlExtension>) -> (r:
    Result<ScanHit, Error>)
    requires
        (match pending {
            Some(g) => gce_wf(g),
            None => true,
        }),
    ensures
        (match r {
            Ok(hit) => match hit {
                ScanHit::Trailer { cursor: t } => spec_scan(bytes@, cursor as int, pending)
                    == (ScanOutcome::Trailer { cursor: t as int }),
                ScanHit::Image { cursor: ic, pending: p2 } => spec_scan(
                    bytes@,
                    cursor as int,
                    pending,
                ) == (ScanOutcome::Image { cursor: ic as int, pending: p2 }) && ic < bytes@.len()
                    && (match p2 {
                    Some(g) => gce_wf(g),
                    None => true,
                }),
            },
            Err(e) => spec_scan(bytes@, cursor as int, pending) == ScanOutcome::Eos && e
                == Error::UnexpectedEndOfStream,
        }),
{
    let buffer_len = bytes.len();
    let mut c = cursor;
    let mut p = pending;
    loop
        invariant
            bytes@.len() == buffer_len,
            spec_scan(bytes@, cursor as int, pending) == spec_scan(bytes@, c as int, p),
            (match p {
                Some(g) => gce_wf(g),
                None => true,
            }),
        decreases bytes@.len() - c,
    {
        let tag = match peek_byte(bytes, c) {
            Ok(b) => b,
            Err(e) => {
                return Err(e);
            },
        };
        if tag == TRAILER_TAG {
            return Ok(ScanHit::Trailer { cursor: c });
        }
        if tag == IMAGE_SEPARATOR_TAG {
            return Ok(ScanHit::Image { cursor: c, pending: p });
        }
        if tag == EXTENSION_INTRODUCER_TAG {
            match extension_block::decode(bytes, c) {
                Ok((block, next)) => {
                    match block {
                        Some(ExtensionBlock::GraphicControlExtension(extension)) => {
                            proof {
                                lemma_gce_wf(bytes@, c + 2);
                            }
                            p = Some(extension);
                        },
                        None => {},
                    }
                    c = next;
                },
                Err(e) => {
                    proof {
                        lemma_extension_block_err(bytes@, c as int);
                    }
                    return Err(e);
                },
            }
        } else {
            c = c + 1;
        }
    }
}

/// Decodes the frame structure standing at an image separator: the image
/// descriptor, the optional local palette, and the packed pixel bitstream
/// with its sub-block framing removed.
fn read_frame_prefix(bytes: &Vec<u8>, cursor: usize) -> (r: Result<
    (ImageDescriptor, Option<ColorMap>, Vec<u8>, usize),
    Error,
>)
    ensures
        (match r {
            Ok(p) => spec_frame_prefix(bytes@, cursor as int) matches Ok(fp) && fp.descriptor
                == p.0 && fp.local_color_map == palette_view(p.1) && fp.data == p.2@ && fp.cursor
                == p.3 as int,
            Err(e) => spec_frame_prefix(bytes@, cursor as int) == Err::<FramePrefix, Error>(e),
        }),
{
    let (descriptor, after_descriptor) = match image_descriptor::decode(bytes, cursor) {
        Ok(p) => p,
        Err(e) => {
            return Err(e);
        },
    };
    proof {
        lemma_low3_bits(bytes@[cursor + 9]);
    }
    let (local, after_palette) = match color_map::decode(
        bytes,
        descriptor.pixel,
        descriptor.m,
        after_descriptor,
    ) {
        Ok(p) => p,
        Err(e) => {
            return Err(e);
        },
    };
    let (data, end) = match collect_sub_blocks(bytes, after_palette) {
        Ok(p) => p,
        Err(e) => {
            return Err(e);
        },
    };
    Ok((descriptor, local, data, end))
}

/// A decode paused at one frame's compressed pixel data, waiting for the
/// external pixel-index codec.  Everything structural decoded so far is
/// held inside; `compressed_data` and `pixel_count` describe the codec's
/// task, and `resume` accepts its output.
#[derive(Debug)]
pub struct Decoder {
    bytes: Vec<u8>,
    color_output: ColorOutput,
    signature: String,
    screen_descriptor: ScreenDescriptor,
    global_color_map: Option<ColorMap>,
    frames: Vec<Frame>,
    pending: Option<GraphicControlExtension>,
    descriptor: ImageDescriptor,
    local_color_map: Option<ColorMap>,
    data: Vec<u8>,
    cursor: usize,
}

/// The mathematical value of a paused decode.
#[verifier::ext_equal]
pub struct DecoderModel {
    pub bytes: Seq<u8>,
    pub rgba_output: bool,
    pub signature: Seq<char>,
    pub screen_descriptor: ScreenDescriptor,
    pub global_color_map: Option<Seq<Rgb>>,
    pub frames: Seq<FrameModel>,
    pub pending: Option<GraphicControlExtension>,
    pub descriptor: ImageDescriptor,
    pub local_color_map: Option<Seq<Rgb>>,
    pub data: Seq<u8>,
    pub cursor: int,
}

impl View for Decoder {
    type V = DecoderModel;

    closed spec fn view(&self) -> DecoderModel {
        DecoderModel {
            bytes: self.bytes@,
            rgba_output: self.color_output is RGBA,
            signature: self.signature@,
            screen_descriptor: self.screen_descriptor,
            global_color_map: palette_view(self.global_color_map),
            frames: self.frames@.map_values(|f: Frame| f@),
            pending: self.pending,
            descriptor: self.descriptor,
            local_color_map: palette_view(self.local_color_map),
            data: self.data@,
            cursor: self.cursor as int,
        }
    }
}

/// The outcome of starting or resuming a decode: either the finished
/// document, or a pause at the next frame's compressed pixel data.
#[derive(Debug)]
pub enum Decoding {
    Done(Gif),
    NeedPixelData(Decoder),
}

/// The mathematical value of a decode outcome.
pub enum DecodingModel {
    Done(GifModel),
    NeedPixelData(DecoderModel),
}

impl View for Decoding {
    type V = DecodingModel;

    open spec fn view(&self) -> DecodingModel {
        match self {
            Decoding::Done(g) => DecodingModel::Done(g@),
            Decoding::NeedPixelData(d) => DecodingModel::NeedPixelData(d@),
        }
    }
}

/// The invariants of the document parts of a paused decode: an accepted
/// signature, a global palette present iff flagged and of the exact
/// size, well-formed frames whose resolved buffers match the requested
/// color output, and well-formed pending metadata.
pub open spec fn document_wf(m: DecoderModel) -> bool {
    &&& m.signature == "GIF89a"@ || m.signature == "GIF87a"@
    &&& (m.global_color_map is Some <==> m.screen_descriptor.m)
    &&& match m.global_color_map {
        Some(t) => t.len() == color_table_len(m.screen_descriptor.pixel),
        None => true,
    }
    &&& forall|i: int| 0 <= i < m.frames.len() ==> frame_wf(#[trigger] m.frames[i])
    &&& frames_rgba_mode(m.frames, m.rgba_output)
    &&& match m.pending {
        Some(g) => gce_wf(g),
        None => true,
    }
}

/// The placeholder descriptor a decode starts from, before the first
/// image block is reached.
pub open spec fn spec_empty_descriptor() -> ImageDescriptor {
    ImageDescriptor {
        image_left: 0,
        image_top: 0,
        image_width: 0,
        image_height: 0,
        m: false,
        i: false,
        pixel: 0,
    }
}

/// Scans from the paused cursor to the next structural block and settles
/// the outcome: the trailer completes the document from the accumulated
/// parts; an image block yields the next pause, its frame structure
/// decoded and the scan's pending metadata attached; running out of bytes
/// first is the end-of-stream error.
pub open spec fn spec_next(m: DecoderModel) -> Result<DecodingModel, Error> {
    match spec_scan(m.bytes, m.cursor, m.pending) {
        ScanOutcome::Eos => Err(Error::UnexpectedEndOfStream),
        ScanOutcome::Trailer { cursor: _ } => Ok(
            DecodingModel::Done(
                GifModel {
                    signature: m.signature,
                    screen_descriptor: m.screen_descriptor,
                    global_color_map: m.global_color_map,
                    frames: m.frames,
                },
            ),
        ),
        ScanOutcome::Image { cursor, pending } => match spec_frame_prefix(m.bytes, cursor) {
            Ok(fp) => Ok(
                DecodingModel::NeedPixelData(
                    DecoderModel {
                        pending,
                        descriptor: fp.descriptor,
                        local_color_map: fp.local_color_map,
                        data: fp.data,
                        cursor: fp.cursor,
                        ..m
                    },
                ),
            ),
            Err(e) => Err(e),
        },
    }
}

/// What decoding a whole buffer yields before any pixel data is needed:
/// the signature, the screen descriptor, the optional global palette, and
/// then the first scan outcome.  Every step is a function of the buffer
/// and the requested color output alone.
pub open spec fn spec_decode(bytes: Seq<u8>, color_output: ColorOutput) -> Result<
    DecodingModel,
    Error,
> {
    match spec_signature(bytes, 0) {
        Err(e) => Err(e),
        Ok((sig, after_signature)) => {
            if after_signature + 7 > bytes.len() {
                Err(Error::UnexpectedEndOfStream)
            } else {
                let sd = spec_screen_descriptor(bytes, after_signature);
                let after_screen = after_signature + 7;
                if sd.m && after_screen + 3 * color_table_len(sd.pixel) > bytes.len() {
                    Err(Error::UnexpectedEndOfStream)
                } else {
                    let gmap = if sd.m {
                        Some(spec_palette(bytes, after_screen, color_table_len(sd.pixel) as int))
                    } else {
                        None
                    };
                    let after_palette = if sd.m {
                        after_screen + 3 * color_table_len(sd.pixel)
                    } else {
                        after_screen
                    };
                    spec_next(
                        DecoderModel {
                            bytes,
                            rgba_output: color_output is RGBA,
                            signature: sig,
                            screen_descriptor: sd,
                            global_color_map: gmap,
                            frames: Seq::empty(),
                            pending: None,
                            descriptor: spec_empty_descriptor(),
                            local_color_map: None,
                            data: Seq::empty(),
                            cursor: after_palette,
                        },
                    )
                }
            }
        },
    }
}

/// What resuming a paused decode with the codec's output yields: the
/// index buffer must cover exactly width times height pixels; when color
/// resolution was requested it is resolved through the effective palette
/// (local if flagged, else global) and the pending transparency metadata;
/// the finished frame joins the document and scanning continues with the
/// pending slot cleared.
/// The optional resolved buffer of the frame a resume completes: none
/// unless color resolution was requested; otherwise the index buffer
/// resolved through the effective palette, the local one if the frame's
/// descriptor flags it, else the global one.
pub open spec fn spec_resume_rgba(m: DecoderModel, raster: Seq<u8>) -> Result<
    Option<Seq<u8>>,
    Error,
> {
    if !m.rgba_output {
        Ok(None)
    } else {
        let table_opt = if m.descriptor.m {
            m.local_color_map
        } else {
            m.global_color_map
        };
        match table_opt {
            None => Err(Error::MissingPaletteTable),
            Some(table) => if indices_in_range(raster, table) {
                Ok(Some(spec_rgba(raster, table, spec_tci(m.pending))))
            } else {
                Err(Error::PaletteIndexOutOfRange)
            },
        }
    }
}

pub open spec fn spec_resume(m: DecoderModel, raster: Seq<u8>) -> Result<DecodingModel, Error> {
    if raster.len() != m.descriptor.image_width as int * m.descriptor.image_height as int {
        Err(Error::CorruptFrameData)
    } else {
        match spec_resume_rgba(m, raster) {
            Err(e) => Err(e),
            Ok(rgba) => spec_next(
                DecoderModel {
                    frames: m.frames.push(
                        FrameModel {
                            image_descriptor: m.descriptor,
                            local_color_map: m.local_color_map,
                            raster_data: raster,
                            rgba_raster_data: rgba,
                            graphic_control_extension: m.pending,
                        },
                    ),
                    pending: None,
                    local_color_map: None,
                    ..m
                },
            ),
        }
    }
}

/// Decoding is deterministic: what a decode yields is a function of the
/// input buffer and the requested color output alone, so decoding equal
/// buffers with the same color output yields structurally equal outcomes.
/// Together with the contract of `decode`, whose result always equals
/// `spec_decode` of its input, two decodes of one buffer agree.
pub proof fn lemma_decode_deterministic(
    bytes_first: Seq<u8>,
    bytes_second: Seq<u8>,
    color_output: ColorOutput,
)
    requires
        bytes_first == bytes_second,
    ensures
        spec_decode(bytes_first, color_output) == spec_decode(bytes_second, color_output),
{
}

/// Resuming is deterministic: what a resume yields is a function of the
/// paused state and the supplied pixel indices alone.  Together with the
/// contract of `resume`, whose result always equals `spec_resume` of its
/// inputs, two resumes of equal states with equal indices agree.
pub proof fn lemma_resume_deterministic(
    state_first: DecoderModel,
    state_second: DecoderModel,
    raster_first: Seq<u8>,
    raster_second: Seq<u8>,
)
    requires
        state_first == state_second,
        raster_first == raster_second,
    ensures
        spec_resume(state_first, raster_first) == spec_resume(state_second, raster_second),
{
}

/// Scans to the next structural block and builds the executable outcome,
/// exactly as `spec_next` settles it.
fn continue_scan(dec: Decoder) -> (r: Result<Decoding, Error>)
    requires
        document_wf(dec@),
    ensures
        (match r {
            Ok(d) => spec_next(dec@) == Ok::<DecodingModel, Error>(d@) && (d matches Decoding::Done(
                g,
            ) ==> gif_wf(g@) && frames_rgba_mode(g@.frames, dec@.rgba_output)) && (d matches Decoding::NeedPixelData(d2)
                ==> d2.wf() && d2@.rgba_output == dec@.rgba_output),
            Err(e) => spec_next(dec@) == Err::<DecodingModel, Error>(e),
        }),
{
    match scan_blocks(&dec.bytes, dec.cursor, dec.pending) {
        Err(e) => Err(e),
        Ok(ScanHit::Trailer { cursor: _ }) => {
            let Decoder { signature, screen_descriptor, global_color_map, frames, .. } = dec;
            let gif = Gif { signature, screen_descriptor, global_color_map, frames };
            Ok(Decoding::Done(gif))
        },
        Ok(ScanHit::Image { cursor, pending }) => {
            match read_frame_prefix(&dec.bytes, cursor) {
                Err(e) => Err(e),
                Ok((descriptor, local_color_map, data, end)) => {
                    let next = Decoder { pending, descriptor, local_color_map, data, cursor: end, ..dec };
                    Ok(Decoding::NeedPixelData(next))
                },
            }
        },
    }
}

impl Decoder {
    /// A paused decode is well formed: its document parts satisfy their
    /// invariants and the awaited frame's local palette matches its
    /// descriptor.
    pub open spec fn wf(&self) -> bool {
        &&& document_wf(self@)
        &&& (self@.local_color_map is Some <==> self@.descriptor.m)
        &&& match self@.local_color_map {
            Some(t) => t.len() == color_table_len(self@.descriptor.pixel),
            None => true,
        }
    }

    /// The packed pixel bitstream of the awaited frame, with its
    /// sub-block framing removed: the external codec's input.
    pub fn compressed_data(&self) -> (r: &Vec<u8>)
        ensures
            r@ == self@.data,
    {
        &self.data
    }

    /// How many palette indices the codec must produce for the awaited
    /// frame: its descriptor's width times height.
    pub fn pixel_count(&self) -> (r: usize)
        ensures
            r == self@.descriptor.image_width as int * self@.descriptor.image_height as int,
    {
        proof {
            lemma_pixel_product_bound(self.descriptor.image_width, self.descriptor.image_height);
        }
        (self.descriptor.image_width as usize) * (self.descriptor.image_height as usize)
    }

    /// The descriptor of the awaited frame.
    pub fn current_descriptor(&self) -> (r: &ImageDescriptor)
        ensures
            *r == self@.descriptor,
    {
        &self.descriptor
    }

    /// Accepts the codec's decoded palette indices for the awaited frame
    /// and continues the decode: the frame is completed (resolved to RGBA
    /// when requested), appended to the document, and scanning proceeds to
    /// the next image block, the trailer, or an error, exactly as
    /// `spec_resume` settles it.
    pub fn resume(self, raster_data: Vec<u8>) -> (r: Result<Decoding, Error>)
        requires
            self.wf(),
        ensures
            (match r {
                Ok(d) => spec_resume(self@, raster_data@) == Ok::<DecodingModel, Error>(d@) && (d matches Decoding::Done(
                    g,
                ) ==> gif_wf(g@) && frames_rgba_mode(g@.frames, self@.rgba_output)) && (d matches Decoding::NeedPixelData(
                    d2,
                ) ==> d2.wf() && d2@.rgba_output == self@.rgba_output),
                Err(e) => spec_resume(self@, raster_data@) == Err::<DecodingModel, Error>(e),
            }),
    {
        let ghost m = self@;
        let Decoder {
            bytes,
            color_output,
            signature,
            screen_descriptor,
            global_color_map,
            mut frames,
            pending,
            descriptor,
            local_color_map,
            data,
            cursor,
        } = self;
        proof {
            lemma_pixel_product_bound(descriptor.image_width, descriptor.image_height);
        }
        let expected = (descriptor.image_width as usize) * (descriptor.image_height as usize);
        if raster_data.len() != expected {
            return Err(Error::CorruptFrameData);
        }
        let rgba = match color_output {
            ColorOutput::ColorMap => None,
            ColorOutput::RGBA => {
                let table_opt: Option<&ColorMap> = if descriptor.m {
                    local_color_map.as_ref()
                } else {
                    global_color_map.as_ref()
                };
                match table_opt {
                    None => {
                        return Err(Error::MissingPaletteTable);
                    },
                    Some(table) => {
                        match rgba_raster_data(&raster_data, &pending, table) {
                            Ok(v) => Some(v),
                            Err(e) => {
                                return Err(e);
                            },
                        }
                    },
                }
            },
        };
        let frame = Frame {
            image_descriptor: descriptor,
            local_color_map,
            raster_data,
            rgba_raster_data: rgba,
            graphic_control_extension: pending,
        };
        let ghost frame_model = frame@;
        let ghost frames_before = frames@.map_values(|f: Frame| f@);
        frames.push(frame);
        proof {
            assert(frames@.map_values(|f: Frame| f@) =~= frames_before.push(frame_model));
        }
        let next = Decoder {
            bytes,
            color_output,
            signature,
            screen_descriptor,
            global_color_map,
            frames,
            pending: None,
            descriptor,
            local_color_map: None,
            data,
            cursor,
        };
        proof {
            let pushed = m.frames.push(
                FrameModel {
                    image_descriptor: m.descriptor,
                    local_color_map: m.local_color_map,
                    raster_data: raster_data@,
                    rgba_raster_data: (match spec_resume_rgba(m, raster_data@) {
                        Ok(o) => o,
                        Err(_) => None,
                    }),
                    graphic_control_extension: m.pending,
                },
            );
            assert(frame_model.rgba_raster_data == (match spec_resume_rgba(m, raster_data@) {
                Ok(o) => o,
                Err(_) => None,
            }));
            assert(frame_model =~= pushed.last());
            assert(next@.frames =~= pushed);
            assert(next@ =~= (DecoderModel {
                frames: pushed,
                pending: None,
                local_color_map: None,
                ..m
            }));
        }
        continue_scan(next)
    }
}

/// Decodes a byte buffer up to the point where pixel data is first
/// needed: the signature, the screen descriptor, the optional global
/// palette, and the scan for the first structural block.  An input with
/// no image blocks decodes to a finished document with an empty frame
/// list; otherwise the decode pauses at the first frame's compressed
/// pixel data, exactly as `spec_decode` settles it.
pub fn decode(bytes: Vec<u8>, color_output: ColorOutput) -> (r: Result<Decoding, Error>)
    ensures
        (match r {
            Ok(d) => spec_decode(bytes@, color_output) == Ok::<DecodingModel, Error>(d@) && (d matches Decoding::Done(
                g,
            ) ==> gif_wf(g@) && frames_rgba_mode(g@.frames, color_output is RGBA)) && (d matches Decoding::NeedPixelData(
                d2,
            ) ==> d2.wf() && d2@.rgba_output == (color_output is RGBA)),
            Err(e) => spec_decode(bytes@, color_output) == Err::<DecodingModel, Error>(e),
        }),
{
    let ghost buffer_view = bytes@;
    let (signature, after_signature) = match signature::decode(&bytes, 0) {
        Ok(p) => p,
        Err(e) => {
            return Err(e);
        },
    };
    let ghost signature_view = signature@;
    let (screen, after_screen) = match screen_descriptor::decode(&bytes, after_signature) {
        Ok(p) => p,
        Err(e) => {
            return Err(e);
        },
    };
    proof {
        lemma_low3_bits(bytes@[after_signature + 4]);
    }
    let (global, after_palette) = match color_map::decode(&bytes, screen.pixel, screen.m, after_screen) {
        Ok(p) => p,
        Err(e) => {
            return Err(e);
        },
    };
    let ghost global_view = palette_view(global);
    let dec = Decoder {
        bytes,
        color_output,
        signature,
        screen_descriptor: screen,
        global_color_map: global,
        frames: Vec::new(),
        pending: None,
        descriptor: ImageDescriptor {
            image_left: 0,
            image_top: 0,
            image_width: 0,
            image_height: 0,
            m: false,
            i: false,
            pixel: 0,
        },
        local_color_map: None,
        data: Vec::new(),
        cursor: after_palette,
    };
    proof {
        let expected = DecoderModel {
            bytes: buffer_view,
            rgba_output: color_output is RGBA,
            signature: signature_view,
            screen_descriptor: screen,
            global_color_map: global_view,
            frames: Seq::empty(),
            pending: None,
            descriptor: spec_empty_descriptor(),
            local_color_map: None,
            data: Seq::empty(),
            cursor: after_palette as int,
        };
        assert(dec@.frames =~= Seq::<FrameModel>::empty());
        assert(dec@.data =~= Seq::<u8>::empty());
        assert(dec@ =~= expected);
        assert(spec_decode(buffer_view, color_output) == spec_next(expected));
    }
    continue_scan(dec)
}

} // verus!
