use vstd::prelude::*;

use crate::format::Format;
use crate::frame::{frame_elements, frame_shape, shape_frame, Frame};

verus! {

/// Bytes per pixel of the RGB encoding that every session captures in.
pub const CHANNELS: usize = 3;

/// The number of memory-mapped buffers a capture stream is started with.
pub const BUFFER_COUNT: u32 = 4;

/// A failure of a camera operation.
#[derive(Debug)]
pub enum CameraError {
    /// The device or its driver failed, or the session no longer streams;
    /// the message says what went wrong.
    Device(String),
    /// A dequeued buffer did not hold exactly one frame of the negotiated
    /// size: `expected` bytes were due, `received` came.
    Format { expected: usize, received: usize },
}

/// Where a capture session stands.
#[derive(Clone, Copy, Debug, PartialEq, Eq, Structural)]
pub enum StreamState {
    Streaming,
    Stopped,
}

/// What a camera is, as its contracts speak of it.
pub struct CameraModel {
    pub width: nat,
    pub height: nat,
    pub streaming: bool,
}

impl CameraModel {
    /// The byte length of one frame.
    pub open spec fn frame_len(self) -> nat {
        self.width * self.height * 3
    }
}

/// Whether a negotiated frame size can carry a session: both sides
/// non-zero, and one frame small enough to be held in memory.
pub open spec fn usable_size(width: nat, height: nat) -> bool {
    width > 0 && height > 0 && width * height * 3 <= isize::MAX
}

/// The message of the error that an operation on a stopped session gives.
pub open spec fn stopped_message() -> Seq<char> {
    "capture stream is stopped"@
}

/// A capture session on one device, as far as the decisions go: the frame
/// size the device negotiated, fixed for the session's life, and whether the
/// stream still runs. The device and its buffers stay with the caller.
pub struct Camera {
    width: usize,
    height: usize,
    state: StreamState,
}

impl View for Camera {
    type V = CameraModel;

    closed spec fn view(&self) -> CameraModel {
        CameraModel {
            width: self.width as nat,
            height: self.height as nat,
            streaming: self.state == StreamState::Streaming,
        }
    }
}

impl Camera {
    #[verifier::type_invariant]
    spec fn inv(self) -> bool {
        usable_size(self.width as nat, self.height as nat)
    }

    /// Starts a session on the format that the device reports after the
    /// requested one was applied: the size is taken from the device, never
    /// from the request. A size that cannot carry frames (a zero side, or a
    /// frame too large to hold) is a device error.
    pub fn new(negotiated: Format) -> (r: Result<Camera, CameraError>)
        ensures
            r is Ok <==> usable_size(negotiated.width as nat, negotiated.height as nat),
            r matches Ok(c) ==> c@ == (CameraModel {
                width: negotiated.width as nat,
                height: negotiated.height as nat,
                streaming: true,
            }),
            r matches Ok(c) ==> c@.width > 0 && c@.height > 0,
            r matches Err(e) ==> e is Device,
    {
        let width = negotiated.width as usize;
        let height = negotiated.height as usize;
        if width == 0 || height == 0 {
            return Err(CameraError::Device("the device negotiated an empty frame size".to_string()));
        }
        let wh = width.checked_mul(height);
        let len = match wh {
            Some(wh) => wh.checked_mul(CHANNELS),
            None => None,
        };
        match len {
            Some(len) if len <= isize::MAX as usize => {
                Ok(Camera { width, height, state: StreamState::Streaming })
            },
            _ => {
                assert(width * height * 3 > isize::MAX) by (nonlinear_arith)
                    requires
                        width > 0,
                        height > 0,
                        wh is None ==> width * height > usize::MAX,
                        wh matches Some(x) ==> x == width * height && (len is None ==> x * 3 > usize::MAX),
                        len matches Some(l) ==> l == width * height * 3 && l > isize::MAX,
                ;
                Err(CameraError::Device("the negotiated frame size does not fit in memory".to_string()))
            },
        }
    }

    /// The negotiated frame size, as `(width, height)` in pixels.
    pub fn resolution(&self) -> (r: (usize, usize))
        ensures
            r.0 as nat == self@.width,
            r.1 as nat == self@.height,
            r.0 > 0 && r.1 > 0,
    {
        proof {
            use_type_invariant(self);
        }
        (self.width, self.height)
    }

    /// Whether the stream still runs.
    pub fn is_streaming(&self) -> (r: bool)
        ensures
            r == self@.streaming,
    {
        self.state == StreamState::Streaming
    }

    /// The error that every operation on a stopped session gives.
    pub fn stopped_error() -> (r: CameraError)
        ensures
            r matches CameraError::Device(m) && m@ == stopped_message(),
    {
        proof {
            reveal_strlit("capture stream is stopped");
        }
        CameraError::Device("capture stream is stopped".to_string())
    }

    /// Succeeds while the stream runs; after `release` gives the stopped
    /// error. To be asked before each dequeue and before stopping the stream,
    /// which the device must not see on a stopped session.
    pub fn ensure_streaming(&self) -> (r: Result<(), CameraError>)
        ensures
            r is Ok <==> self@.streaming,
            r matches Err(e) ==> e matches CameraError::Device(m) && m@ == stopped_message(),
    {
        if self.is_streaming() {
            Ok(())
        } else {
            Err(Self::stopped_error())
        }
    }

    /// Turns the outcome of one dequeue into a frame. A device failure is
    /// passed on with its message; on a stopped session the stopped error
    /// comes whatever was handed in; a buffer of any length but one frame's
    /// is a format error, and no frame is made. Otherwise the buffer's bytes,
    /// moved and not shared, become a `(height, width, 3)` array in
    /// row-major order.
    pub fn read(&self, dequeued: Result<Vec<u8>, String>) -> (r: Result<Frame, CameraError>)
        ensures
            !self@.streaming ==> (r matches Err(CameraError::Device(m)) && m@ == stopped_message()),
            self@.streaming ==> match dequeued {
                Err(m) => r matches Err(CameraError::Device(e)) && e == m,
                Ok(bytes) => if bytes@.len() == self@.frame_len() {
                    r matches Ok(f) && frame_elements(f) == bytes@
                        && frame_elements(f).len() == self@.frame_len()
                        && frame_shape(f) == seq![self@.height as usize, self@.width as usize, 3usize]
                } else {
                    r matches Err(CameraError::Format { expected, received })
                        && expected == self@.frame_len() && received == bytes@.len()
                },
            },
    {
        proof {
            use_type_invariant(self);
        }
        if !self.is_streaming() {
            return Err(Self::stopped_error());
        }
        match dequeued {
            Err(m) => Err(CameraError::Device(m)),
            Ok(bytes) => {
                let expected = self.height * self.width * CHANNELS;
                let received = bytes.len();
                match shape_frame(self.height, self.width, CHANNELS, bytes) {
                    Some(f) => Ok(f),
                    None => Err(CameraError::Format { expected, received }),
                }
            },
        }
    }

    /// Takes in the outcome of stopping the stream. On success the session
    /// is stopped for good; a device failure is passed on with its message
    /// and leaves the session as it was. A session already stopped stays so
    /// and gives the stopped error, whatever was handed in.
    pub fn release(&mut self, stopped: Result<(), String>) -> (r: Result<(), CameraError>)
        ensures
            final(self)@.width == old(self)@.width,
            final(self)@.height == old(self)@.height,
            !old(self)@.streaming ==> !final(self)@.streaming
                && (r matches Err(CameraError::Device(m)) && m@ == stopped_message()),
            old(self)@.streaming ==> match stopped {
                Ok(_) => r is Ok && !final(self)@.streaming,
                Err(m) => (r matches Err(CameraError::Device(e)) && e == m) && final(self)@.streaming,
            },
    {
        proof {
            use_type_invariant(&*self);
        }
        if !self.is_streaming() {
            return Err(Self::stopped_error());
        }
        match stopped {
            Ok(()) => {
                self.state = StreamState::Stopped;
                Ok(())
            },
            Err(m) => Err(CameraError::Device(m)),
        }
    }
}

} // verus!
