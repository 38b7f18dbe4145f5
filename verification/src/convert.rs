use vstd::prelude::*;

use crate::backend::{
    encode_png, new_pixmap, parse_svg, pixmap_ok, pixmap_take, png_of, render_scaled, svg_ok,
};
use crate::errors::ConversionError;
use crate::png_meta::{png_declares, png_rgba8};

verus! {

/// Converts one SVG document into a PNG stream of exactly the target size.
///
/// The pipeline is linear: parse the input bytes, allocate a pixel buffer of
/// `width` by `height`, rasterize the document stretched independently per
/// axis to fill the buffer exactly, and encode the buffer as an 8-bit RGBA
/// PNG without interlacing. Each axis is scaled on its own; no aspect ratio
/// is preserved.
///
/// The conversion succeeds exactly when the parser accepts the bytes and the
/// target dimensions are allocatable. Failures, in the order the pipeline
/// can hit them: bytes the parser refuses give `ParseError`; target
/// dimensions no buffer can be allocated with (zero, or a width over the
/// rasterizer's limit) give `BufferAllocationError`. Neither `RenderError`
/// nor `EncodeError` is ever produced: the rasterizer reports no faults, and
/// encoding into memory cannot fail on a buffer of the right size. A success
/// always carries a stream that declares exactly the requested dimensions —
/// so no PNG with a zero area is ever produced — along with 8-bit depth,
/// colour type RGBA and no interlacing.
pub fn convert(input: &[u8], width: u32, height: u32) -> (r: Result<Vec<u8>, ConversionError>)
    ensures
        r is Ok <==> svg_ok(input@) && pixmap_ok(width, height),
        r == Err::<Vec<u8>, ConversionError>(ConversionError::ParseError) <==> !svg_ok(input@),
        svg_ok(input@) ==> (r == Err::<Vec<u8>, ConversionError>(
            ConversionError::BufferAllocationError,
        ) <==> !pixmap_ok(width, height)),
        r != Err::<Vec<u8>, ConversionError>(ConversionError::RenderError),
        r != Err::<Vec<u8>, ConversionError>(ConversionError::EncodeError),
        r matches Ok(out) ==> png_declares(out@, width, height),
        r matches Ok(out) ==> png_rgba8(out@),
        r matches Ok(out) ==> exists|px: Seq<u8>|
            px.len() == 4 * width * height && out@ == png_of(px, width, height),
{
    let tree = match parse_svg(input) {
        Ok(tree) => tree,
        Err(_) => {
            return Err(ConversionError::ParseError);
        },
    };
    let mut pixmap = match new_pixmap(width, height) {
        Some(pixmap) => pixmap,
        None => {
            return Err(ConversionError::BufferAllocationError);
        },
    };
    render_scaled(&tree, &mut pixmap);
    let pixels = pixmap_take(pixmap);
    match encode_png(&pixels, width, height) {
        Ok(out) => Ok(out),
        Err(_) => Err(ConversionError::EncodeError),
    }
}

} // verus!
