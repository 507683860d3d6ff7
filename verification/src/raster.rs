//! Raw RGBA pixels, as the clipboard hands them out, made into an image
//! buffer of the `image` crate.

use vstd::prelude::*;

verus! {

/// An RGBA image buffer of 8-bit channels (`image::RgbaImage`), held as
/// an opaque value: the buffer's pixel type is bound by the `image` crate's
/// `Pixel` trait.
#[verifier::external_body]
pub struct RgbaBuffer {
    pub image: image::RgbaImage,
}

/// An RGBA image made from clipboard pixel data, with the width, height and
/// raw bytes it was made from.
pub struct ClipboardImage {
    pub buffer: RgbaBuffer,
    width: Ghost<u32>,
    height: Ghost<u32>,
    bytes: Ghost<Seq<u8>>,
}

impl ClipboardImage {
    /// The width in pixels.
    pub closed spec fn width(&self) -> u32 {
        self.width@
    }

    /// The height in pixels.
    pub closed spec fn height(&self) -> u32 {
        self.height@
    }

    /// The raw RGBA bytes, row after row.
    pub closed spec fn bytes(&self) -> Seq<u8> {
        self.bytes@
    }
}

/// An RGBA image buffer of 8-bit channels fits `len` bytes: it takes four
/// bytes for each of its `width * height` pixels, a count that must itself
/// fit in `usize`.
pub open spec fn rgba_fits(width: u32, height: u32, len: nat) -> bool {
    &&& 4 * width <= usize::MAX
    &&& 4 * width * height <= usize::MAX
    &&& 4 * width * height <= len
}

/// Makes an RGBA image of `width` by `height` pixels from raw bytes
/// (`image::ImageBuffer::from_raw`), which keeps the bytes and dimensions
/// as they are; `None` when the bytes are too few.
#[verifier::external_body]
fn rgba_from_raw(width: u32, height: u32, bytes: Vec<u8>) -> (r: Option<ClipboardImage>)
    ensures
        r is Some <==> rgba_fits(width, height, bytes@.len()),
        r matches Some(img) ==> img.width() == width && img.height() == height && img.bytes()
            == bytes@,
{
    let raw = Ghost(bytes@);
    match image::ImageBuffer::from_raw(width, height, bytes) {
        Some(image) => Some(
            ClipboardImage {
                buffer: RgbaBuffer { image },
                width: Ghost(width),
                height: Ghost(height),
                bytes: raw,
            },
        ),
        None => None,
    }
}

/// The image that clipboard pixel data of `width` by `height` pixels
/// makes, the dimensions taken as 32-bit numbers (the high bits of larger
/// ones dropped), holding the bytes as they are; `None` when the bytes are
/// too few for it.
pub fn clipboard_image(width: usize, height: usize, bytes: Vec<u8>) -> (r: Option<ClipboardImage>)
    ensures
        r is Some <==> rgba_fits(width as u32, height as u32, bytes@.len()),
        r matches Some(img) ==> img.width() == width as u32 && img.height() == height as u32
            && img.bytes() == bytes@,
{
    let w = #[verifier::truncate] (width as u32);
    let h = #[verifier::truncate] (height as u32);
    rgba_from_raw(w, h, bytes)
}

} // verus!
