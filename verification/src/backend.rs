//! Trusted boundary to the outside libraries that do the vector parsing, the
//! rasterization and the PNG encoding. Everything here is believed, not
//! proved: each wrapper's contract states what the called library's source
//! and documentation show, and nothing more.

use vstd::prelude::*;

use crate::png_meta::{png_declares, png_rgba8};

verus! {

#[verifier::external_type_specification]
#[verifier::external_body]
pub struct ExTree(resvg::usvg::Tree);

#[verifier::external_type_specification]
#[verifier::external_body]
pub struct ExUsvgError(resvg::usvg::Error);

#[verifier::external_type_specification]
#[verifier::external_body]
pub struct ExPixmap(tiny_skia::Pixmap);

#[verifier::external_type_specification]
#[verifier::external_body]
pub struct ExEncodingError(png::EncodingError);

/// Whether the SVG parser accepts these bytes. Parsing with the default
/// options is a function of the bytes alone; what the parsed document holds
/// stays unnamed, since only the rasterizer reads it.
pub uninterp spec fn svg_ok(data: Seq<u8>) -> bool;

/// The RGBA bytes a pixel buffer holds, row by row, four bytes per pixel.
pub uninterp spec fn pix_bytes(p: tiny_skia::Pixmap) -> Seq<u8>;

/// The width and height a pixel buffer was allocated with.
pub uninterp spec fn pix_size(p: tiny_skia::Pixmap) -> (u32, u32);

/// The PNG stream the encoder produces for these pixel bytes at these
/// dimensions (8-bit RGBA, no interlacing, default compression). The encoder
/// is deterministic, so the stream is a function of its arguments alone.
pub uninterp spec fn png_of(pixels: Seq<u8>, width: u32, height: u32) -> Seq<u8>;

/// The dimensions a pixel buffer can be allocated with: both positive, and
/// the width at most i32::MAX / 4, tiny_skia's documented width limit.
pub open spec fn pixmap_ok(width: u32, height: u32) -> bool {
    1 <= width <= 536870911 && 1 <= height
}

/// Relies on usvg::Tree::from_data with default options: whether the bytes
/// parse is a function of the bytes alone. The default options carry an
/// empty font database and no resource directory; the parser may still read
/// image files the document references, but a failed load is skipped with a
/// warning, so acceptance does not depend on what is on disk.
#[verifier::external_body]
pub(crate) fn parse_svg(data: &[u8]) -> (r: Result<resvg::usvg::Tree, resvg::usvg::Error>)
    ensures
        r is Ok <==> svg_ok(data@),
{
    resvg::usvg::Tree::from_data(data, &resvg::usvg::Options::default())
}

/// Relies on tiny_skia::Pixmap::new: allocates a buffer of exactly the given
/// size, filled with transparent black, and returns None exactly when a
/// dimension is zero or the width is over i32::MAX / 4 (on a 64-bit target
/// nothing else makes its size arithmetic fail).
#[verifier::external_body]
pub(crate) fn new_pixmap(width: u32, height: u32) -> (r: Option<tiny_skia::Pixmap>)
    ensures
        r is Some <==> pixmap_ok(width, height),
        r matches Some(p) ==> pix_size(p) == (width, height),
        r matches Some(p) ==> pix_bytes(p) == Seq::new((4 * width * height) as nat, |i: int| 0u8),
{
    tiny_skia::Pixmap::new(width, height)
}

/// Relies on resvg::render: rasterizes the document onto the pixel buffer in
/// place, scaled independently per axis by target size over intrinsic size so
/// that the document exactly fills the buffer. A parsed document's intrinsic
/// size is strictly positive (usvg::Size holds non-zero finite values), so
/// both scale factors are finite and positive. The buffer keeps its size;
/// nothing is claimed of the written pixels.
#[verifier::external_body]
pub(crate) fn render_scaled(tree: &resvg::usvg::Tree, pixmap: &mut tiny_skia::Pixmap)
    ensures
        pix_size(*final(pixmap)) == pix_size(*old(pixmap)),
        pix_bytes(*final(pixmap)).len() == pix_bytes(*old(pixmap)).len(),
{
    let mut transform = tiny_skia::Transform::default();
    transform.sx = pixmap.width() as _;
    transform.sy = pixmap.height() as _;
    transform.sx /= tree.size().width();
    transform.sy /= tree.size().height();
    resvg::render(tree, transform, &mut pixmap.as_mut());
}

/// Relies on tiny_skia::Pixmap::take: hands out the buffer's own RGBA bytes.
#[verifier::external_body]
pub(crate) fn pixmap_take(pixmap: tiny_skia::Pixmap) -> (r: Vec<u8>)
    ensures
        r@ == pix_bytes(pixmap),
{
    pixmap.take()
}

/// Relies on png::Encoder and png::Writer (write_header, write_image_data,
/// finish), writing 8-bit RGBA without interlacing into an in-memory vector.
/// On these inputs the encoder cannot fail: its only error paths are a zero
/// dimension, an invalid colour/depth combination, a pixel buffer whose
/// length is not the expected 4 * width * height, and faults of the byte
/// sink, and writing into a vector reports none. The stream is the encoder's
/// function of the pixel bytes and the dimensions, and it opens with the PNG
/// signature and an IHDR chunk that declares exactly the given dimensions,
/// 8-bit depth, colour type RGBA and no interlacing.
#[verifier::external_body]
pub(crate) fn encode_png(pixels: &Vec<u8>, width: u32, height: u32) -> (r: Result<
    Vec<u8>,
    png::EncodingError,
>)
    requires
        1 <= width,
        1 <= height,
        pixels@.len() == 4 * width * height,
    ensures
        r is Ok,
        r matches Ok(out) ==> out@ == png_of(pixels@, width, height),
        r matches Ok(out) ==> png_declares(out@, width, height),
        r matches Ok(out) ==> png_rgba8(out@),
{
    let mut out: Vec<u8> = Vec::new();
    let mut encoder = png::Encoder::new(&mut out, width, height);
    encoder.set_color(png::ColorType::Rgba);
    encoder.set_depth(png::BitDepth::Eight);
    let mut writer = encoder.write_header()?;
    writer.write_image_data(pixels)?;
    writer.finish()?;
    Ok(out)
}

} // verus!
