//! From scene text to pixels.

use crate::error::{RenderError, RenderErrorView};
use crate::font::font_fits;
use vstd::prelude::*;

verus! {

#[verifier::external_type_specification]
#[verifier::external_body]
pub struct ExOptions<'a>(resvg::usvg::Options<'a>);

#[verifier::external_type_specification]
#[verifier::external_body]
pub struct ExTree(resvg::usvg::Tree);

#[verifier::external_type_specification]
#[verifier::external_body]
pub struct ExUsvgError(resvg::usvg::Error);

#[verifier::external_type_specification]
#[verifier::external_body]
pub struct ExPixmap(resvg::tiny_skia::Pixmap);

/// The font data that the faces in a configuration's font database were
/// read from.
pub uninterp spec fn font_sources(options: resvg::usvg::Options<'static>) -> Set<Seq<u8>>;

/// The number of faces that the font loader reads from font data: those
/// of the declared faces that it can parse and that bear a family name and
/// a PostScript name.
pub uninterp spec fn font_faces(font: Seq<u8>) -> nat;

/// The width, in pixels, that a pixmap was made with.
pub uninterp spec fn pixmap_width(pixmap: resvg::tiny_skia::Pixmap) -> nat;

/// The height, in pixels, that a pixmap was made with.
pub uninterp spec fn pixmap_height(pixmap: resvg::tiny_skia::Pixmap) -> nat;

/// The widest pixmap that can be made: a row of it must not exceed
/// `i32::MAX` bytes.
pub const MAX_PIXMAP_WIDTH: u32 = 0x1fff_ffff;

/// The sizes for which a pixmap is made: not empty, and no wider than
/// `MAX_PIXMAP_WIDTH`.
pub open spec fn pixmap_size_allowed(width: u32, height: u32) -> bool {
    1 <= width && width <= MAX_PIXMAP_WIDTH && 1 <= height
}

/// `usvg::Options::default`: the stock configuration. Its font database
/// is a new one, which holds no face; of the other settings nothing is
/// claimed.
#[verifier::external_body]
fn default_options() -> (options: resvg::usvg::Options<'static>)
    ensures
        font_sources(options) == Set::<Seq<u8>>::empty(),
{
    resvg::usvg::Options::default()
}

/// `fontdb::Database::load_font_data`, on the font database of `options`:
/// adds each face that it reads from `font`, with `font` as its source, and
/// removes none. How many faces it reads depends on the bytes alone. The
/// loader sets room aside for as many faces as the head of `font` declares
/// before it reads any, and panics or asks for more memory than the data
/// warrants where that number is out of all proportion: such data is left
/// out.
#[verifier::external_body]
fn load_font_data(options: &mut resvg::usvg::Options<'static>, font: Vec<u8>)
    requires
        font_fits(font@),
    ensures
        font_sources(*final(options)) == if font_faces(font@) > 0 {
            font_sources(*old(options)).insert(font@)
        } else {
            font_sources(*old(options))
        },
{
    options.fontdb_mut().load_font_data(font);
}

/// `usvg::Tree::from_str`: parses scene text. Nothing is claimed of the
/// outcome.
#[verifier::external_body]
fn parse_tree(text: &str, options: &resvg::usvg::Options<'static>) -> Result<
    resvg::usvg::Tree,
    resvg::usvg::Error,
> {
    resvg::usvg::Tree::from_str(text, options)
}

/// The `Display` text of a `usvg::Error`. Nothing is claimed of it.
#[verifier::external_body]
fn parse_error_text(error: &resvg::usvg::Error) -> String {
    error.to_string()
}

/// `usvg::Tree::size`, rounded by `Size::to_int_size`: the size of the image
/// that fits the scene. The rounding yields at least one pixel each way.
#[verifier::external_body]
fn canvas_size(tree: &resvg::usvg::Tree) -> (size: (u32, u32))
    ensures
        size.0 >= 1,
        size.1 >= 1,
{
    let size = tree.size().to_int_size();
    (size.width(), size.height())
}

/// `tiny_skia::Pixmap::new`: a pixmap of transparent black. It is refused
/// for an empty size and for a width above `MAX_PIXMAP_WIDTH`; the byte
/// count `4 * width * height` is kept within `isize::MAX`, beyond which the
/// allocation would panic.
#[verifier::external_body]
fn pixmap_new(width: u32, height: u32) -> (made: Option<resvg::tiny_skia::Pixmap>)
    requires
        4 * (width * height) <= isize::MAX,
    ensures
        match made {
            Some(pixmap) => pixmap_size_allowed(width, height) && pixmap_width(pixmap) == width
                && pixmap_height(pixmap) == height,
            None => !pixmap_size_allowed(width, height),
        },
{
    resvg::tiny_skia::Pixmap::new(width, height)
}

/// `resvg::render` with the identity transform: draws the tree onto the
/// pixmap, whose size stays as it was.
#[verifier::external_body]
fn render_tree(tree: &resvg::usvg::Tree, pixmap: &mut resvg::tiny_skia::Pixmap)
    ensures
        pixmap_width(*final(pixmap)) == pixmap_width(*old(pixmap)),
        pixmap_height(*final(pixmap)) == pixmap_height(*old(pixmap)),
{
    resvg::render(tree, resvg::tiny_skia::Transform::default(), &mut pixmap.as_mut());
}

/// `tiny_skia::Pixmap::take`: the pixmap's bytes, four for each pixel.
#[verifier::external_body]
fn pixmap_take(pixmap: resvg::tiny_skia::Pixmap) -> (data: Vec<u8>)
    ensures
        data@.len() == 4 * (pixmap_width(pixmap) * pixmap_height(pixmap)),
{
    pixmap.take()
}

/// The font sources of a configuration that was made for one font: that
/// font where the loader reads a face from it, and none where it reads no
/// face.
pub open spec fn sources_of(font: Seq<u8>) -> Set<Seq<u8>> {
    if font_faces(font) > 0 {
        Set::<Seq<u8>>::empty().insert(font)
    } else {
        Set::<Seq<u8>>::empty()
    }
}

/// The process-wide rasterizer configuration: the stock options with the
/// faces of one font loaded into the font database. No other font is in
/// it, none of the host's either, so that text renders alike on every host.
/// The font must be data that the loader can take, which `fits_font`
/// tests.
pub fn get_usvg_options(font: Vec<u8>) -> (options: resvg::usvg::Options<'static>)
    requires
        font_fits(font@),
    ensures
        font_sources(options) == sources_of(font@),
{
    let mut options = default_options();
    load_font_data(&mut options, font);
    options
}

/// A parsed scene and the size of its canvas, as the parser gave both.
pub struct Scene {
    tree: resvg::usvg::Tree,
    width: u32,
    height: u32,
}

impl Scene {
    #[verifier::type_invariant]
    spec fn well_formed(self) -> bool {
        self.width >= 1 && self.height >= 1
    }

    /// The canvas width in pixels.
    pub closed spec fn spec_width(&self) -> u32 {
        self.width
    }

    /// The canvas height in pixels.
    pub closed spec fn spec_height(&self) -> u32 {
        self.height
    }

    /// The canvas width in pixels; a canvas is never empty.
    #[verifier::when_used_as_spec(spec_width)]
    pub fn width(&self) -> (w: u32)
        ensures
            w == self.spec_width(),
            w >= 1,
    {
        proof {
            use_type_invariant(self);
        }
        self.width
    }

    /// The canvas height in pixels; a canvas is never empty.
    #[verifier::when_used_as_spec(spec_height)]
    pub fn height(&self) -> (h: u32)
        ensures
            h == self.spec_height(),
            h >= 1,
    {
        proof {
            use_type_invariant(self);
        }
        self.height
    }
}

/// The mathematical content of a pixel buffer.
pub struct PixelGrid {
    pub width: nat,
    pub height: nat,
    pub pixels: Seq<u8>,
}

/// An RGBA raster: `width * height` pixels of four bytes, row by row.
#[derive(Debug)]
pub struct PixelBuffer {
    width: u32,
    height: u32,
    data: Vec<u8>,
}

impl View for PixelBuffer {
    type V = PixelGrid;

    closed spec fn view(&self) -> PixelGrid {
        PixelGrid { width: self.width as nat, height: self.height as nat, pixels: self.data@ }
    }
}

/// Whether `len` bytes hold a raster of that size with no pixel missing or
/// left over, and at least one pixel.
pub open spec fn is_raster(width: nat, height: nat, len: nat) -> bool {
    width >= 1 && height >= 1 && len == 4 * (width * height)
}

impl PixelBuffer {
    #[verifier::type_invariant]
    spec fn well_formed(self) -> bool {
        is_raster(self.width as nat, self.height as nat, self.data@.len())
    }

    /// A buffer of the given size over `data`, if `data` is a raster of
    /// that size.
    pub fn new(width: u32, height: u32, data: Vec<u8>) -> (made: Option<PixelBuffer>)
        ensures
            made is Some <==> is_raster(width as nat, height as nat, data@.len()),
            made matches Some(buffer) ==> buffer@ == (PixelGrid {
                width: width as nat,
                height: height as nat,
                pixels: data@,
            }),
    {
        let given = data.len();
        if width == 0 || height == 0 {
            return None;
        }
        proof {
            lemma_cells_fit(width, height);
        }
        let cells: u64 = (width as u64) * (height as u64);
        if cells > (usize::MAX as u64) / 4 {
            return None;
        }
        let len: usize = 4 * (cells as usize);
        if given != len {
            return None;
        }
        Some(PixelBuffer { width, height, data })
    }

    /// The width in pixels, which is not zero.
    pub fn width(&self) -> (w: u32)
        ensures
            w == self@.width,
            w >= 1,
    {
        proof {
            use_type_invariant(self);
        }
        self.width
    }

    /// The height in pixels, which is not zero.
    pub fn height(&self) -> (h: u32)
        ensures
            h == self@.height,
            h >= 1,
    {
        proof {
            use_type_invariant(self);
        }
        self.height
    }

    /// The bytes of the raster: four for each pixel, none missing.
    pub fn data(&self) -> (bytes: &Vec<u8>)
        ensures
            bytes@ == self@.pixels,
            is_raster(self@.width, self@.height, bytes@.len()),
    {
        proof {
            use_type_invariant(self);
        }
        &self.data
    }
}

/// The pixel count of any raster fits in 64 bits.
proof fn lemma_cells_fit(width: u32, height: u32)
    ensures
        0 <= width * height <= u64::MAX,
{
    assert(0 <= width * height <= 0xffff_ffff * 0xffff_ffff) by (nonlinear_arith)
        requires
            0 <= width <= 0xffff_ffff,
            0 <= height <= 0xffff_ffff,
    ;
}

/// Whether a pixel buffer can be made for a canvas of that size.
pub open spec fn canvas_fits(width: nat, height: nat) -> bool {
    width <= MAX_PIXMAP_WIDTH && 4 * (width * height) <= isize::MAX
}

/// Parses scene text into a scene with its canvas size. Whether the text
/// is a scene is for the parser to say; what it refuses comes back as
/// `RenderError::Parse` with the parser's words.
pub fn parse_scene(text: &str, options: &resvg::usvg::Options<'static>) -> (r: Result<
    Scene,
    RenderError,
>)
    ensures
        match r {
            Ok(scene) => scene.width() >= 1 && scene.height() >= 1,
            Err(e) => e@ is Parse,
        },
{
    match parse_tree(text, options) {
        Ok(tree) => {
            let (width, height) = canvas_size(&tree);
            Ok(Scene { tree, width, height })
        },
        Err(e) => Err(RenderError::Parse(parse_error_text(&e))),
    }
}

/// Draws the scene onto a fresh buffer of its canvas's size, with no
/// scaling or rotation. It fails exactly when no buffer of that size can be
/// made.
pub fn rasterize(scene: &Scene) -> (r: Result<PixelBuffer, RenderError>)
    ensures
        match r {
            Ok(buffer) => canvas_fits(scene.width() as nat, scene.height() as nat)
                && buffer@.width == scene.width() && buffer@.height == scene.height()
                && is_raster(buffer@.width, buffer@.height, buffer@.pixels.len()),
            Err(e) => !canvas_fits(scene.width() as nat, scene.height() as nat) && e@
                == RenderErrorView::Canvas,
        },
{
    proof {
        use_type_invariant(scene);
    }
    let width = scene.width;
    let height = scene.height;
    proof {
        lemma_cells_fit(width, height);
    }
    let cells: u64 = (width as u64) * (height as u64);
    if cells > (isize::MAX as u64) / 4 {
        return Err(RenderError::Canvas);
    }
    match pixmap_new(width, height) {
        None => Err(RenderError::Canvas),
        Some(mut pixmap) => {
            render_tree(&scene.tree, &mut pixmap);
            let data = pixmap_take(pixmap);
            Ok(PixelBuffer { width, height, data })
        },
    }
}

} // verus!
