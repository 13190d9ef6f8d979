use vstd::prelude::*;

verus! {

#[verifier::external_type_specification]
#[verifier::external_body]
pub struct ExShapeError(ndarray::ShapeError);

/// One captured frame: an owned `ndarray` array of bytes, shaped
/// `(height, width, 3)`, row-major with the colour channel fastest. It owns
/// its elements: no two frames share storage, and none aliases a device
/// buffer.
#[verifier::external_body]
#[derive(Debug)]
pub struct Frame {
    pub array: ndarray::Array3<u8>,
}

/// The elements of a frame's array in logical row-major order (last axis
/// fastest), as its iterators yield them.
pub uninterp spec fn frame_elements(f: Frame) -> Seq<u8>;

/// The lengths of the three axes of a frame's array.
pub uninterp spec fn frame_shape(f: Frame) -> Seq<usize>;

/// Relies on `ndarray::Array3::from_shape_vec` with a plain `(d0, d1, d2)`
/// shape (row-major strides): it takes `v` as the array's elements in order
/// when the product of the axis lengths equals `v.len()` and the product of
/// the (here all non-zero) axis lengths fits in `isize`, and fails otherwise.
#[verifier::external_body]
fn frame_from_vec(d0: usize, d1: usize, d2: usize, v: Vec<u8>) -> (r: Result<Frame, ndarray::ShapeError>)
    requires
        d0 > 0,
        d1 > 0,
        d2 > 0,
    ensures
        r is Ok <==> (d0 * d1 * d2 == v@.len() && d0 * d1 * d2 <= isize::MAX),
        r matches Ok(f) ==> frame_elements(f) == v@ && frame_shape(f) == seq![d0, d1, d2],
{
    match ndarray::Array3::from_shape_vec((d0, d1, d2), v) {
        Ok(array) => Ok(Frame { array }),
        Err(e) => Err(e),
    }
}

/// Takes `bytes` as a `(height, width, channels)` array, in row-major order,
/// when it holds exactly `height * width * channels` bytes; `None` otherwise.
pub fn shape_frame(height: usize, width: usize, channels: usize, bytes: Vec<u8>) -> (r: Option<Frame>)
    requires
        height > 0,
        width > 0,
        channels > 0,
        height * width * channels <= isize::MAX,
    ensures
        r is Some <==> bytes@.len() == height * width * channels,
        r matches Some(f) ==> frame_elements(f) == bytes@ && frame_shape(f) == seq![height, width, channels],
{
    match frame_from_vec(height, width, channels, bytes) {
        Ok(f) => Some(f),
        Err(_) => None,
    }
}

} // verus!
