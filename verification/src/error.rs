use vstd::prelude::*;

use crate::backend::Backend;

verus! {

/// Errors returned when connecting and by window operations.
#[derive(Debug, Clone)]
pub enum Error {
    /// Neither `WAYLAND_DISPLAY` nor `DISPLAY` is set, so there is no
    /// compositor to connect to.
    NoDisplay,
    /// The detected backend is not available in this build.
    BackendDisabled(Backend),
    /// Could not open a connection to the compositor at all.
    ConnectionFailed(String),
    /// The operation is not exposed by this compositor's protocol at all.
    ///
    /// This is the normal, expected outcome for things like moving or
    /// resizing another app's window under plain Wayland: the protocol
    /// deliberately does not let one client reposition another's surface.
    Unsupported { backend: Backend, operation: &'static str, reason: &'static str },
    /// The window id no longer refers to a live window (or belongs to
    /// another backend).
    WindowGone,
    /// A lower-level protocol error talking to the compositor.
    Protocol(String),
}

} // verus!
