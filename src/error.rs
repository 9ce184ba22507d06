use vstd::prelude::*;

verus! {

/// The ways the overlay can fail.
#[derive(Debug, Clone, Copy, PartialEq, Eq, Structural)]
pub enum GhoastError {
    /// The window class could not be registered: no toast can ever be shown.
    ClassRegistrationFailed,
    /// The window of one toast could not be created: that toast is skipped.
    WindowCreationFailed,
    /// A bitmap or device context could not be had while painting; the platform's
    /// last error code is kept.
    PlatformResourceFailure(u32),
    /// Setting or reading the window's opacity failed.
    PlatformCallFailed,
    /// A fade was asked of a window whose opacity cannot be read, or is already zero.
    PreconditionFailed,
    /// A bitmap with a zero dimension, or one the platform cannot address.
    InvalidDimensions,
}

} // verus!
