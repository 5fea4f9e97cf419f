//! Hand-drawn watch face: four pre-rendered digit glyphs at fixed places on
//! the screen, re-pointed at the right glyph whenever the time changes.
//!
//! The graphics host (which owns the screen and its image objects) is driven
//! from outside: the library decides which request to make next and what the
//! host's reply means, and the caller performs the request.
pub mod catalog;
pub mod host;
pub mod layout;
pub mod face;

pub use catalog::{build_catalog, ImageDescriptor};
pub use face::{digits, HandDrawnWatchFace, Time, UpdateRun};
pub use host::{HostReply, HostRequest, ImageHandle, WatchFaceError};
pub use layout::{InitStep, Initializer, Slot};
