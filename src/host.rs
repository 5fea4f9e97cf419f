//! What passes between the watch face and the graphics host.
use vstd::prelude::*;

verus! {

/// A non-owning handle to an image object that the graphics host owns.
pub type ImageHandle = u64;

/// One request that the watch face asks the graphics host to carry out.
#[derive(Clone, Copy, Debug, PartialEq, Eq, Structural)]
pub enum HostRequest {
    /// Create a new image object on the active screen.
    CreateImage,
    /// Move an image object to the screen position `(x, y)`.
    SetPosition { handle: ImageHandle, x: i32, y: i32 },
    /// Make an image object show the catalog glyph `glyph`.
    SetSource { handle: ImageHandle, glyph: u8 },
}

/// The host's answer to a request.
#[derive(Clone, Copy, Debug, PartialEq, Eq, Structural)]
pub enum HostReply {
    /// A new image object was created.
    Created(ImageHandle),
    /// A position or source change was applied.
    Accepted,
    /// The host refused the request.
    Rejected,
}

/// Why an operation on the watch face stopped.
#[derive(Clone, Copy, Debug, PartialEq, Eq, Structural)]
pub enum WatchFaceError {
    /// The host could not create an image object.
    WidgetCreationError,
    /// The host could not move an image object.
    PositioningError,
    /// The host refused to re-point an image object at a glyph.
    RebindError,
}

} // verus!
