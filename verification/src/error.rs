//! Errors of the panel library.

use vstd::prelude::*;

verus! {

/// Errors that the panel logic reports.
///
/// Transport failures (USB HID, serial port, file I/O) belong to the
/// program that drives the devices; the library reports only what its own
/// rules reject.
#[derive(Debug, PartialEq, Eq)]
pub enum Error {
    /// LCD device not found or could not be opened.
    LcdNotFound,
    /// LED device not found at the given port path.
    LedNotFound(String),
    /// Invalid orientation name (the text as given).
    InvalidOrientation(String),
    /// Invalid LED theme value.
    InvalidTheme(u8),
    /// Invalid LED intensity or speed value (must be 1-5).
    InvalidLedValue(u8),
    /// Framebuffer size mismatch.
    FramebufferSize { expected: usize, actual: usize },
    /// Image processing error.
    Image(String),
}

} // verus!
