use vstd::prelude::*;

verus! {

/// The four-character code of packed 24-bit RGB: one byte each of red,
/// green and blue per pixel.
pub const RGB3: [u8; 4] = [82u8, 71u8, 66u8, 51u8];

/// The part of a device's capture format that this library decides on or
/// reads back: the frame size in pixels and the pixel encoding.
#[derive(Clone, Copy, Debug, PartialEq, Eq)]
pub struct Format {
    pub width: u32,
    pub height: u32,
    pub fourcc: [u8; 4],
}

/// The pixel encoding that every capture session requests.
pub open spec fn rgb3() -> Seq<u8> {
    seq![82u8, 71u8, 66u8, 51u8]
}

/// The format to apply to a device whose current format is `current`: RGB
/// pixels, at the requested `(width, height)` when one is given, else at
/// the device's current size.
pub fn target_format(current: Format, requested: Option<(u32, u32)>) -> (r: Format)
    ensures
        r.fourcc@ == rgb3(),
        r.width == (match requested {
            Some(res) => res.0,
            None => current.width,
        }),
        r.height == (match requested {
            Some(res) => res.1,
            None => current.height,
        }),
{
    let (width, height) = match requested {
        Some(res) => res,
        None => (current.width, current.height),
    };
    Format { width, height, fourcc: RGB3 }
}

} // verus!
