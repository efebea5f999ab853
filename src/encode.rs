//! Image and transport encodings, done by the `image` and `base64` crates.

use vstd::prelude::*;

verus! {

/// The PNG file that encodes a `width` by `height` RGBA image with 8 bits a
/// channel, row by row.
pub uninterp spec fn png_rgba(width: u32, height: u32, pixels: Seq<u8>) -> Seq<u8>;

/// The standard-alphabet, padded base64 text of `bytes`.
pub uninterp spec fn base64_standard(bytes: Seq<u8>) -> Seq<char>;

/// Relies on `image::write_buffer_with_format` with the PNG format and the
/// `Rgba8` color type: on success the buffer holds the PNG encoding of the
/// pixels. It panics unless the buffer holds four bytes for each pixel; the
/// PNG writer refuses only a zero width or height, and writing into a `Vec`
/// cannot fail.
#[verifier::external_body]
pub(crate) fn encode_png(width: u32, height: u32, pixels: &Vec<u8>) -> (r: Result<Vec<u8>, String>)
    requires
        pixels@.len() == 4 * (width as int) * (height as int),
    ensures
        r is Ok ==> r->Ok_0@ == png_rgba(width, height, pixels@),
        width > 0 && height > 0 ==> r is Ok,
{
    let mut buffer: Vec<u8> = Vec::new();
    image::write_buffer_with_format(
        &mut std::io::Cursor::new(&mut buffer),
        pixels,
        width,
        height,
        image::ExtendedColorType::Rgba8,
        image::ImageFormat::Png,
    ).map(|_| buffer).map_err(|e| e.to_string())
}

/// Relies on `base64::Engine::encode` of the `STANDARD` engine: the padded
/// standard-alphabet text of the bytes, which depends on them alone; no
/// bytes give no text, and every three bytes or part of three give four
/// characters.
#[verifier::external_body]
pub(crate) fn encode_base64(bytes: &Vec<u8>) -> (r: String)
    ensures
        r@ == base64_standard(bytes@),
        r@.len() == 4 * ((bytes@.len() + 2) / 3),
{
    base64::Engine::encode(&base64::engine::general_purpose::STANDARD, bytes)
}

} // verus!
