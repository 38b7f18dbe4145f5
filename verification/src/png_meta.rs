use vstd::prelude::*;

verus! {

/// The big-endian 32-bit value stored at offset `i` of a byte stream.
pub open spec fn be_u32_at(s: Seq<u8>, i: int) -> int
    recommends
        0 <= i,
        i + 4 <= s.len(),
{
    s[i] * 0x1000000 + s[i + 1] * 0x10000 + s[i + 2] * 0x100 + s[i + 3]
}

/// The stream starts with the fixed eight-byte PNG signature.
pub open spec fn has_png_signature(s: Seq<u8>) -> bool {
    &&& s.len() >= 8
    &&& s[0] == 137u8
    &&& s[1] == 80u8
    &&& s[2] == 78u8
    &&& s[3] == 71u8
    &&& s[4] == 13u8
    &&& s[5] == 10u8
    &&& s[6] == 26u8
    &&& s[7] == 10u8
}

/// The stream carries the PNG signature and an IHDR chunk that declares
/// width `w` and height `h`. In a PNG stream the IHDR chunk directly follows
/// the signature, so its width field sits at offset 16 and its height field
/// at offset 20, both big-endian.
pub open spec fn png_declares(s: Seq<u8>, w: u32, h: u32) -> bool {
    &&& has_png_signature(s)
    &&& s.len() >= 24
    &&& be_u32_at(s, 16) == w
    &&& be_u32_at(s, 20) == h
}

/// The stream's IHDR chunk declares the pixel format this library always
/// encodes with: 8-bit depth (stream byte 24), colour type RGBA (code 6,
/// byte 25), and no interlacing (byte 28).
pub open spec fn png_rgba8(s: Seq<u8>) -> bool {
    &&& s.len() > 28
    &&& s[24] == 8u8
    &&& s[25] == 6u8
    &&& s[28] == 0u8
}

/// Reads the dimensions a PNG byte stream declares in its IHDR chunk:
/// `Some((w, h))` exactly when the stream opens with the PNG signature and is
/// long enough to hold the IHDR dimension fields.
pub fn png_declared_dimensions(data: &[u8]) -> (r: Option<(u32, u32)>)
    ensures
        r is Some <==> data@.len() >= 24 && has_png_signature(data@),
        r matches Some(wh) ==> png_declares(data@, wh.0, wh.1),
{
    if data.len() < 24 {
        return None;
    }
    if !(data[0] == 137 && data[1] == 80 && data[2] == 78 && data[3] == 71 && data[4] == 13
        && data[5] == 10 && data[6] == 26 && data[7] == 10) {
        return None;
    }
    let w = read_be_u32(data, 16);
    let h = read_be_u32(data, 20);
    Some((w, h))
}

/// Reads the big-endian 32-bit value at offset `i`.
fn read_be_u32(data: &[u8], i: usize) -> (r: u32)
    requires
        i + 4 <= data@.len(),
    ensures
        r == be_u32_at(data@, i as int),
{
    (data[i] as u32) * 0x1000000 + (data[i + 1] as u32) * 0x10000 + (data[i + 2] as u32) * 0x100
        + (data[i + 3] as u32)
}

} // verus!
