use crate::bits::color_table_len;
use vstd::prelude::*;

verus! {

/// A palette table: an ordered mapping from index to an RGB triple.  The
/// entry count is fixed at construction time from the size exponent.
pub type ColorMap = Vec<Rgb>;

/// One RGB palette entry.
#[derive(Clone, Copy, Debug, PartialEq, Eq, Structural)]
pub struct Rgb {
    pub r: u8,
    pub g: u8,
    pub b: u8,
}

impl Rgb {
    pub fn r(&self) -> (r: u8)
        ensures
            r == self.r,
    {
        self.r
    }

    pub fn g(&self) -> (r: u8)
        ensures
            r == self.g,
    {
        self.g
    }

    pub fn b(&self) -> (r: u8)
        ensures
            r == self.b,
    {
        self.b
    }

    pub fn new(r: u8, g: u8, b: u8) -> (c: Self)
        ensures
            c == (Rgb { r, g, b }),
    {
        Rgb { r, g, b }
    }
}

/// The screen descriptor: canvas size and the bit-packed global palette
/// flags, decoded into plain fields.
#[derive(Clone, Copy, Debug, PartialEq, Eq, Structural)]
pub struct ScreenDescriptor {
    pub width: u16,
    pub height: u16,
    /// Global palette table present.
    pub m: bool,
    /// Color resolution (3 bits).
    pub cr: u8,
    /// Palette table sorted by importance.
    pub sort: bool,
    /// Global palette size exponent (3 bits): entry count is `2^(pixel+1)`.
    pub pixel: u8,
    /// Background color index.
    pub background: u8,
    /// Pixel aspect ratio byte.
    pub aspect_ratio: u8,
}

impl ScreenDescriptor {
    pub fn width(&self) -> (r: u16)
        ensures
            r == self.width,
    {
        self.width
    }

    pub fn height(&self) -> (r: u16)
        ensures
            r == self.height,
    {
        self.height
    }

    pub fn m(&self) -> (r: bool)
        ensures
            r == self.m,
    {
        self.m
    }

    pub fn cr(&self) -> (r: u8)
        ensures
            r == self.cr,
    {
        self.cr
    }

    pub fn sort(&self) -> (r: bool)
        ensures
            r == self.sort,
    {
        self.sort
    }

    pub fn pixel(&self) -> (r: u8)
        ensures
            r == self.pixel,
    {
        self.pixel
    }

    pub fn background(&self) -> (r: u8)
        ensures
            r == self.background,
    {
        self.background
    }

    pub fn aspect_ratio(&self) -> (r: u8)
        ensures
            r == self.aspect_ratio,
    {
        self.aspect_ratio
    }

    pub fn new(
        width: u16,
        height: u16,
        m: bool,
        cr: u8,
        sort: bool,
        pixel: u8,
        background: u8,
        aspect_ratio: u8,
    ) -> (r: Self)
        ensures
            r == (ScreenDescriptor { width, height, m, cr, sort, pixel, background, aspect_ratio }),
    {
        ScreenDescriptor { width, height, m, cr, sort, pixel, background, aspect_ratio }
    }

    pub fn set_m(&mut self, m: bool)
        ensures
            *final(self) == (ScreenDescriptor { m, ..*old(self) }),
    {
        self.m = m;
    }
}

/// The image descriptor of one frame: placement, size, and the bit-packed
/// local palette flags, decoded into plain fields.
#[derive(Clone, Copy, Debug, PartialEq, Eq, Structural)]
pub struct ImageDescriptor {
    pub image_left: u16,
    pub image_top: u16,
    pub image_width: u16,
    pub image_height: u16,
    /// Local palette table present.
    pub m: bool,
    /// Interlaced row order (passed through as data, never reordered).
    pub i: bool,
    /// Local palette size exponent (3 bits): entry count is `2^(pixel+1)`.
    pub pixel: u8,
}

impl ImageDescriptor {
    pub fn image_left(&self) -> (r: u16)
        ensures
            r == self.image_left,
    {
        self.image_left
    }

    pub fn image_top(&self) -> (r: u16)
        ensures
            r == self.image_top,
    {
        self.image_top
    }

    pub fn image_width(&self) -> (r: u16)
        ensures
            r == self.image_width,
    {
        self.image_width
    }

    pub fn image_height(&self) -> (r: u16)
        ensures
            r == self.image_height,
    {
        self.image_height
    }

    pub fn m(&self) -> (r: bool)
        ensures
            r == self.m,
    {
        self.m
    }

    pub fn i(&self) -> (r: bool)
        ensures
            r == self.i,
    {
        self.i
    }

    pub fn pixel(&self) -> (r: u8)
        ensures
            r == self.pixel,
    {
        self.pixel
    }

    pub fn new(
        image_left: u16,
        image_top: u16,
        image_width: u16,
        image_height: u16,
        m: bool,
        i: bool,
        pixel: u8,
    ) -> (r: Self)
        ensures
            r == (ImageDescriptor {
                image_left,
                image_top,
                image_width,
                image_height,
                m,
                i,
                pixel,
            }),
    {
        ImageDescriptor { image_left, image_top, image_width, image_height, m, i, pixel }
    }
}

/// Per-frame directives decoded from a graphic-control metadata block.
/// The transparent color index is present iff the transparency flag is set.
#[derive(Clone, Copy, Debug, PartialEq, Eq)]
pub struct GraphicControlExtension {
    /// Disposal method (3 bits), passed through as data.
    pub disposal_method: u8,
    pub user_input: bool,
    pub transparent_color: bool,
    /// Delay time, little-endian 16-bit in the stream.
    pub delay_time: u16,
    pub transparent_color_index: Option<u8>,
}

impl GraphicControlExtension {
    pub fn disposal_method(&self) -> (r: u8)
        ensures
            r == self.disposal_method,
    {
        self.disposal_method
    }

    pub fn user_input(&self) -> (r: bool)
        ensures
            r == self.user_input,
    {
        self.user_input
    }

    pub fn transparent_color(&self) -> (r: bool)
        ensures
            r == self.transparent_color,
    {
        self.transparent_color
    }

    pub fn delay_time(&self) -> (r: u16)
        ensures
            r == self.delay_time,
    {
        self.delay_time
    }

    pub fn transparent_color_index(&self) -> (r: Option<u8>)
        ensures
            r == self.transparent_color_index,
    {
        self.transparent_color_index
    }

    pub fn new(
        disposal_method: u8,
        user_input: bool,
        transparent_color: bool,
        delay_time: u16,
        transparent_color_index: Option<u8>,
    ) -> (r: Self)
        ensures
            r == (GraphicControlExtension {
                disposal_method,
                user_input,
                transparent_color,
                delay_time,
                transparent_color_index,
            }),
    {
        GraphicControlExtension {
            disposal_method,
            user_input,
            transparent_color,
            delay_time,
            transparent_color_index,
        }
    }
}

/// A metadata block decoded by the extension-block scanner, keyed by its
/// label byte.  Only the graphic-control label is currently recognized;
/// blocks with other labels are skipped structurally and produce no value.
#[derive(Clone, Copy, Debug, PartialEq, Eq)]
pub enum ExtensionBlock {
    GraphicControlExtension(GraphicControlExtension),
}

/// One decoded frame: its descriptor, optional local palette, the palette
/// index buffer (one byte per pixel, row-major), the optional resolved
/// RGBA buffer, and the optional graphic-control metadata that preceded it.
#[derive(Clone, Debug, PartialEq, Eq)]
pub struct Frame {
    pub image_descriptor: ImageDescriptor,
    pub local_color_map: Option<ColorMap>,
    pub raster_data: Vec<u8>,
    pub rgba_raster_data: Option<Vec<u8>>,
    pub graphic_control_extension: Option<GraphicControlExtension>,
}

/// The mathematical value of a `Frame`: buffers as sequences.
#[verifier::ext_equal]
pub struct FrameModel {
    pub image_descriptor: ImageDescriptor,
    pub local_color_map: Option<Seq<Rgb>>,
    pub raster_data: Seq<u8>,
    pub rgba_raster_data: Option<Seq<u8>>,
    pub graphic_control_extension: Option<GraphicControlExtension>,
}

/// The view of an optional palette table.
pub open spec fn palette_view(m: Option<ColorMap>) -> Option<Seq<Rgb>> {
    match m {
        Some(t) => Some(t@),
        None => None,
    }
}

/// The view of an optional byte buffer.
pub open spec fn buffer_view(m: Option<Vec<u8>>) -> Option<Seq<u8>> {
    match m {
        Some(v) => Some(v@),
        None => None,
    }
}

impl View for Frame {
    type V = FrameModel;

    open spec fn view(&self) -> FrameModel {
        FrameModel {
            image_descriptor: self.image_descriptor,
            local_color_map: palette_view(self.local_color_map),
            raster_data: self.raster_data@,
            rgba_raster_data: buffer_view(self.rgba_raster_data),
            graphic_control_extension: self.graphic_control_extension,
        }
    }
}

impl Frame {
    pub fn image_descriptor(&self) -> (r: &ImageDescriptor)
        ensures
            *r == self.image_descriptor,
    {
        &self.image_descriptor
    }

    pub fn local_color_map(&self) -> (r: &Option<ColorMap>)
        ensures
            *r == self.local_color_map,
    {
        &self.local_color_map
    }

    /// The palette index buffer: one palette index per pixel, row-major.
    pub fn raster_data(&self) -> (r: &Vec<u8>)
        ensures
            *r == self.raster_data,
    {
        &self.raster_data
    }

    /// Present only when color resolution was requested during decoding:
    /// every index byte expanded to four bytes (R G B A) through the
    /// effective palette and the transparency metadata.
    pub fn rgba_raster_data(&self) -> (r: &Option<Vec<u8>>)
        ensures
            *r == self.rgba_raster_data,
    {
        &self.rgba_raster_data
    }

    pub fn graphic_control_extension(&self) -> (r: &Option<GraphicControlExtension>)
        ensures
            *r == self.graphic_control_extension,
    {
        &self.graphic_control_extension
    }

    pub fn new(
        image_descriptor: ImageDescriptor,
        local_color_map: Option<ColorMap>,
        raster_data: Vec<u8>,
        rgba_raster_data: Option<Vec<u8>>,
        graphic_control_extension: Option<GraphicControlExtension>,
    ) -> (r: Self)
        ensures
            r == (Frame {
                image_descriptor,
                local_color_map,
                raster_data,
                rgba_raster_data,
                graphic_control_extension,
            }),
    {
        Frame {
            image_descriptor,
            local_color_map,
            raster_data,
            rgba_raster_data,
            graphic_control_extension,
        }
    }
}

/// The decoded document: signature, screen descriptor, optional global
/// palette, and the ordered frames.
#[derive(Debug, PartialEq, Eq)]
pub struct Gif {
    pub signature: String,
    pub screen_descriptor: ScreenDescriptor,
    pub global_color_map: Option<ColorMap>,
    pub frames: Vec<Frame>,
}

/// The mathematical value of a `Gif`.
#[verifier::ext_equal]
pub struct GifModel {
    pub signature: Seq<char>,
    pub screen_descriptor: ScreenDescriptor,
    pub global_color_map: Option<Seq<Rgb>>,
    pub frames: Seq<FrameModel>,
}

impl View for Gif {
    type V = GifModel;

    open spec fn view(&self) -> GifModel {
        GifModel {
            signature: self.signature@,
            screen_descriptor: self.screen_descriptor,
            global_color_map: palette_view(self.global_color_map),
            frames: self.frames@.map_values(|f: Frame| f@),
        }
    }
}

impl Gif {
    pub fn signature(&self) -> (r: &str)
        ensures
            r@ == self.signature@,
    {
        self.signature.as_str()
    }

    pub fn screen_descriptor(&self) -> (r: &ScreenDescriptor)
        ensures
            *r == self.screen_descriptor,
    {
        &self.screen_descriptor
    }

    pub fn global_color_map(&self) -> (r: &Option<ColorMap>)
        ensures
            *r == self.global_color_map,
    {
        &self.global_color_map
    }

    pub fn frames(&self) -> (r: &Vec<Frame>)
        ensures
            *r == self.frames,
    {
        &self.frames
    }

    pub fn new(
        signature: String,
        screen_descriptor: ScreenDescriptor,
        global_color_map: Option<ColorMap>,
        frames: Vec<Frame>,
    ) -> (r: Self)
        ensures
            r == (Gif { signature, screen_descriptor, global_color_map, frames }),
    {
        Gif { signature, screen_descriptor, global_color_map, frames }
    }
}

/// The signature text is one of the two accepted version literals.
pub open spec fn is_accepted_signature(s: Seq<char>) -> bool {
    s == "GIF89a"@ || s == "GIF87a"@
}

/// Graphic-control metadata is well formed when the transparent color
/// index is present iff the transparency flag is set.
pub open spec fn gce_wf(g: GraphicControlExtension) -> bool {
    g.transparent_color_index is Some <==> g.transparent_color
}

/// The structural invariants of every successfully decoded frame:
/// the index buffer covers exactly width times height pixels; the local
/// palette is present iff the descriptor's presence flag is set and then
/// holds exactly `2^(exponent+1)` entries; a resolved RGBA buffer holds
/// exactly four bytes per pixel; attached metadata is well formed.
pub open spec fn frame_wf(f: FrameModel) -> bool {
    &&& f.raster_data.len() == f.image_descriptor.image_width as int
        * f.image_descriptor.image_height as int
    &&& (f.local_color_map is Some <==> f.image_descriptor.m)
    &&& match f.local_color_map {
        Some(t) => t.len() == color_table_len(f.image_descriptor.pixel),
        None => true,
    }
    &&& match f.rgba_raster_data {
        Some(s) => s.len() == 4 * f.raster_data.len(),
        None => true,
    }
    &&& match f.graphic_control_extension {
        Some(g) => gce_wf(g),
        None => true,
    }
}

/// The structural invariants of every successfully decoded document:
/// the signature is one of the two accepted version literals; the global
/// palette is present iff the screen descriptor's presence flag is set and
/// then holds exactly `2^(exponent+1)` entries; every frame is well formed.
pub open spec fn gif_wf(g: GifModel) -> bool {
    &&& is_accepted_signature(g.signature)
    &&& (g.global_color_map is Some <==> g.screen_descriptor.m)
    &&& match g.global_color_map {
        Some(t) => t.len() == color_table_len(g.screen_descriptor.pixel),
        None => true,
    }
    &&& forall|i: int| 0 <= i < g.frames.len() ==> frame_wf(#[trigger] g.frames[i])
}

/// Every frame carries a resolved RGBA buffer iff color resolution was
/// requested for the decode that produced it.
pub open spec fn frames_rgba_mode(frames: Seq<FrameModel>, rgba: bool) -> bool {
    forall|i: int| 0 <= i < frames.len() ==> ((#[trigger] frames[i]).rgba_raster_data is Some
        <==> rgba)
}

} // verus!
