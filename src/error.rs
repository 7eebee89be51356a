use vstd::prelude::*;

verus! {

/// The two device resources that a capture allocates.
#[derive(Clone, Copy, Debug, PartialEq, Eq, Structural)]
pub enum Resource {
    Texture,
    Buffer,
}

/// Why a capture attempt was abandoned. None of these is retried.
#[derive(Clone, Copy, Debug, PartialEq, Eq, Structural)]
pub enum CaptureError {
    /// A width or height of zero, or one too large to lay out in a readback buffer.
    InvalidDimensions,
    /// The device refused to create the named resource.
    AllocationFailed(Resource),
    /// The device refused the copy layout of the submitted commands.
    InvalidLayout,
    /// The read-mapping of the readback buffer was rejected, or the device was lost.
    MapFailed,
    /// The image could not be encoded or written.
    EncodeFailed,
}

} // verus!
