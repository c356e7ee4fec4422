use vstd::prelude::*;

verus! {

/// Every way in which bringing up the rendering context can fail. Each one is
/// terminal for the whole bootstrap sequence.
#[derive(Clone, Copy, Debug, PartialEq, Eq, Structural)]
pub enum SetupError {
    UnsupportedPlatform,
    DriverRejected,
    SurfaceCreationFailed,
    NoSuitableDevice,
    DeviceCreationFailed,
    NoPresentModeAvailable,
    NoFormatsAvailable,
    SwapchainCreationFailed,
    ImageViewCreationFailed,
}

} // verus!
