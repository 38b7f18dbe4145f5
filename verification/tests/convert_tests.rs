use svg_to_png::convert::convert;
use svg_to_png::errors::ConversionError;
use svg_to_png::png_meta::png_declared_dimensions;

fn red_square_svg() -> String {
    // Intrinsic size 100 x 100, a solid red square filling the whole canvas.
    "<svg xmlns='http://www.w3.org/2000/svg' width='100' height='100'>\
     <rect x='0' y='0' width='100' height='100' fill='red'/></svg>"
        .to_string()
}

fn shapes_svg_300x150() -> String {
    // Intrinsic size 300 x 150 with shapes that do not fill the canvas.
    "<svg xmlns='http://www.w3.org/2000/svg' width='300' height='150'>\
     <rect x='10' y='10' width='120' height='60' fill='#123456'/>\
     <circle cx='220' cy='80' r='50' fill='green'/></svg>"
        .to_string()
}

fn decode_png(bytes: &[u8]) -> (u32, u32, Vec<u8>) {
    let decoder = png::Decoder::new(std::io::Cursor::new(bytes));
    let mut reader = decoder.read_info().expect("PNG header must decode");
    let mut buf = vec![0u8; reader.output_buffer_size().expect("sane buffer size")];
    let info = reader.next_frame(&mut buf).expect("PNG frame must decode");
    buf.truncate(info.buffer_size());
    (info.width, info.height, buf)
}

#[test]
fn declared_dimensions_follow_the_target() {
    let svg = red_square_svg();
    let out = convert(svg.as_bytes(), 50, 200).expect("well-formed SVG must convert");
    assert_eq!(png_declared_dimensions(&out), Some((50, 200)));
    let (w, h, _) = decode_png(&out);
    assert_eq!((w, h), (50, 200));

    let out = convert(svg.as_bytes(), 7, 3).expect("well-formed SVG must convert");
    assert_eq!(png_declared_dimensions(&out), Some((7, 3)));
}

#[test]
fn declared_pixel_format_is_rgba_8bit_uninterlaced() {
    let svg = red_square_svg();
    let out = convert(svg.as_bytes(), 9, 4).expect("well-formed SVG must convert");
    assert_eq!(out[24], 8); // bit depth
    assert_eq!(out[25], 6); // colour type RGBA
    assert_eq!(out[28], 0); // no interlacing
}

#[test]
fn malformed_input_is_a_parse_error() {
    assert_eq!(convert(b"", 10, 10), Err(ConversionError::ParseError));
    assert_eq!(convert(b"this is not xml", 10, 10), Err(ConversionError::ParseError));
    assert_eq!(convert(b"<svg", 10, 10), Err(ConversionError::ParseError));
    // Valid XML, but no usable size: the parser refuses it.
    assert_eq!(convert(b"<svg xmlns='http://www.w3.org/2000/svg' width='0' height='0'/>", 10, 10), Err(ConversionError::ParseError));
    // Not UTF-8.
    assert_eq!(convert(&[0xff, 0xfe, 0x00], 10, 10), Err(ConversionError::ParseError));
}

#[test]
fn zero_dimensions_are_a_buffer_allocation_error() {
    let svg = red_square_svg();
    assert_eq!(convert(svg.as_bytes(), 0, 10), Err(ConversionError::BufferAllocationError));
    assert_eq!(convert(svg.as_bytes(), 10, 0), Err(ConversionError::BufferAllocationError));
    assert_eq!(convert(svg.as_bytes(), 0, 0), Err(ConversionError::BufferAllocationError));
    // Width over the pixel buffer's limit is refused the same way.
    assert_eq!(convert(svg.as_bytes(), 536870912, 1), Err(ConversionError::BufferAllocationError));
    // Malformed input is rejected before the dimensions are looked at.
    assert_eq!(convert(b"<svg", 0, 0), Err(ConversionError::ParseError));
}

#[test]
fn identical_inputs_give_byte_identical_output() {
    let svg = red_square_svg();
    let a = convert(svg.as_bytes(), 33, 44).expect("well-formed SVG must convert");
    let b = convert(svg.as_bytes(), 33, 44).expect("well-formed SVG must convert");
    assert_eq!(a, b);
}

#[test]
fn red_square_stretches_to_fill_the_target() {
    let svg = red_square_svg();
    let out = convert(svg.as_bytes(), 50, 200).expect("well-formed SVG must convert");
    let (w, h, pixels) = decode_png(&out);
    assert_eq!((w, h), (50, 200));
    assert_eq!(pixels.len(), 4 * 50 * 200);
    for px in pixels.chunks(4) {
        assert_eq!(px, &[255, 0, 0, 255]);
    }
}

#[test]
fn unscaled_output_matches_a_direct_rasterization() {
    let svg = shapes_svg_300x150();
    let out = convert(svg.as_bytes(), 300, 150).expect("well-formed SVG must convert");
    let (w, h, pixels) = decode_png(&out);
    assert_eq!((w, h), (300, 150));

    let tree = resvg::usvg::Tree::from_data(svg.as_bytes(), &resvg::usvg::Options::default())
        .expect("well-formed SVG must parse");
    let mut pixmap = tiny_skia::Pixmap::new(300, 150).expect("small pixmap must allocate");
    let transform = tiny_skia::Transform::from_scale(1.0, 1.0);
    resvg::render(&tree, transform, &mut pixmap.as_mut());
    assert_eq!(pixels, pixmap.take());
}

#[test]
fn empty_document_gives_transparent_black_pixels() {
    let svg = "<svg xmlns='http://www.w3.org/2000/svg' width='10' height='10'/>";
    let out = convert(svg.as_bytes(), 6, 5).expect("well-formed SVG must convert");
    let (w, h, pixels) = decode_png(&out);
    assert_eq!((w, h), (6, 5));
    assert_eq!(pixels, vec![0u8; 4 * 6 * 5]);
}

#[test]
fn png_dimensions_read_back_from_raw_bytes() {
    let mut bytes: Vec<u8> = vec![137, 80, 78, 71, 13, 10, 26, 10];
    bytes.extend([0, 0, 0, 13]);
    bytes.extend(*b"IHDR");
    bytes.extend([0, 0, 1, 44]); // width 300
    bytes.extend([0, 0, 0, 5]); // height 5
    assert_eq!(png_declared_dimensions(&bytes), Some((300, 5)));

    assert_eq!(png_declared_dimensions(&bytes[..20]), None);
    let mut bad = bytes.clone();
    bad[0] = 136;
    assert_eq!(png_declared_dimensions(&bad), None);
    assert_eq!(png_declared_dimensions(&[]), None);
}

#[test]
fn error_messages_name_the_failure() {
    assert_eq!(
        ConversionError::ParseError.message(),
        "the input is not a well-formed SVG document"
    );
    assert_eq!(
        ConversionError::BufferAllocationError.message(),
        "the target dimensions are zero or unallocatable"
    );
    assert_eq!(ConversionError::RenderError.message(), "the rasterizer failed");
    assert_eq!(ConversionError::EncodeError.message(), "the PNG encoder failed");
}
