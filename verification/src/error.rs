//! The conditions that end the program, and the wording each is reported with.

use vstd::prelude::*;

verus! {

/// A condition from which the overlay does not recover. None is retried: the
/// program reports the message and stops.
#[derive(Clone, Copy, Debug, PartialEq, Eq, Structural)]
pub enum FatalError {
    /// The platform reports no primary display to place the window on.
    NoPrimaryMonitor,
    /// The primary display is narrower than the window, so no centred position exists.
    PlacementOutOfRange,
    /// No GPU adapter is compatible with the surface.
    AdapterNotFound,
    /// The adapter did not hand out a logical device and queue.
    DeviceRequestFailed,
    /// The surface has no colour format it can present with this adapter.
    SurfaceFormatUnavailable,
    /// The surface gave no texture to draw the next frame into.
    FrameAcquisitionFailed,
}

impl FatalError {
    /// The text of the diagnostic for each condition.
    pub open spec fn text(self) -> Seq<char> {
        match self {
            FatalError::NoPrimaryMonitor => "primary monitor is not found"@,
            FatalError::PlacementOutOfRange => "out of range integral type conversion attempted"@,
            FatalError::AdapterNotFound => "Failed to find an appropriate adapter"@,
            FatalError::DeviceRequestFailed => "Failed to create device"@,
            FatalError::SurfaceFormatUnavailable => "surface is incompatible with the adapter"@,
            FatalError::FrameAcquisitionFailed => "Failed to acquire next swap chain texture"@,
        }
    }

    /// The human-readable diagnostic that the program ends with.
    pub fn message(&self) -> (msg: &'static str)
        ensures
            msg@ == self.text(),
    {
        match self {
            FatalError::NoPrimaryMonitor => "primary monitor is not found",
            FatalError::PlacementOutOfRange => "out of range integral type conversion attempted",
            FatalError::AdapterNotFound => "Failed to find an appropriate adapter",
            FatalError::DeviceRequestFailed => "Failed to create device",
            FatalError::SurfaceFormatUnavailable => "surface is incompatible with the adapter",
            FatalError::FrameAcquisitionFailed => "Failed to acquire next swap chain texture",
        }
    }
}

} // verus!
