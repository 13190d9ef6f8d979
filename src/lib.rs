//! Capture of RGB frames from a Video4Linux2 device: the decisions that
//! negotiate a capture format, the state of a capture session, and the
//! checked conversion of a dequeued buffer into a `height x width x 3` array.
//! Opening the device and moving buffers is done by the caller, who hands
//! the outcome of each device call to the functions here.

mod camera;
mod format;
mod frame;

pub use camera::{
    stopped_message, usable_size, Camera, CameraError, CameraModel, StreamState, BUFFER_COUNT,
    CHANNELS,
};
pub use format::{rgb3, target_format, Format, RGB3};
pub use frame::{frame_elements, frame_shape, shape_frame, Frame};
