//! EasyCompositing: one API for controlling windows across compositors.
//!
//! An app that needs to list, focus, move, or close *another* app's window
//! has to talk to the compositor, and every compositor speaks a different
//! protocol for that: X11's EWMH hints, Wayland's (compositor-specific,
//! often absent) foreign-toplevel extensions, or Hyprland's and niri's own
//! IPC. This crate holds the decisions every backend makes: which backend
//! to connect to, how a window id maps to a backend handle, which requests
//! a backend can serve, how replies are read and how windows are described.
//! The code that talks to a display server drives these functions with
//! plain values and implements [`Compositor`] on top of them.
//!
//! Calls that aren't possible on the active backend return
//! [`Error::Unsupported`] rather than silently doing nothing, so calling
//! code can detect and handle the gap instead of assuming success.

pub mod backend;
pub mod error;
pub mod hyprland;
pub mod niri;
pub mod text;
pub mod wayland;
pub mod window;
pub mod x11;

pub use backend::Backend;
pub use error::Error;
pub use window::{Backing, Geometry, WindowId, WindowInfo};

use vstd::prelude::*;

verus! {

/// One API for window control, backed by whichever compositor is actually
/// running.
pub trait Compositor {
    /// Which backend this implementation is talking to.
    fn backend(&self) -> Backend;

    /// Enumerate the windows the compositor is willing to disclose.
    fn list_windows(&mut self) -> Result<Vec<WindowInfo>, Error>;

    /// Bring a window to the foreground and give it input focus.
    fn focus_window(&mut self, id: &WindowId) -> Result<(), Error>;

    /// Ask a window to close, the same way clicking its titlebar close
    /// button would.
    fn close_window(&mut self, id: &WindowId) -> Result<(), Error>;

    /// Move a window to `(x, y)` in the compositor's coordinate space.
    fn move_window(&mut self, id: &WindowId, x: i32, y: i32) -> Result<(), Error>;

    /// Resize a window to `width` x `height`.
    fn resize_window(&mut self, id: &WindowId, width: u32, height: u32) -> Result<(), Error>;
}

/// Which backends this build offers. The default build leaves niri out:
/// its IPC crate is GPL-licensed, so niri support is opt-in.
#[derive(Debug, Clone, Copy, PartialEq, Eq, Structural)]
pub struct Features {
    pub hyprland: bool,
    pub niri: bool,
    pub wayland: bool,
    pub x11: bool,
}

impl Features {
    /// The default build: Hyprland, generic Wayland and X11, without niri.
    pub fn default_build() -> (f: Features)
        ensures
            f == (Features { hyprland: true, niri: false, wayland: true, x11: true }),
    {
        Features { hyprland: true, niri: false, wayland: true, x11: true }
    }
}

/// Whether the build offers `backend`.
pub open spec fn enabled(features: Features, backend: Backend) -> bool {
    match backend {
        Backend::Hyprland => features.hyprland,
        Backend::Niri => features.niri,
        Backend::Wayland => features.wayland,
        Backend::X11 => features.x11,
    }
}

/// What connecting does next.
pub enum ConnectStep {
    /// Try to open a connection to this backend.
    Attempt(Backend),
    /// Give up with this error.
    Fail(Error),
}

/// The step that reaches for the generic Wayland backend.
pub open spec fn wayland_step(features: Features) -> ConnectStep {
    if features.wayland {
        ConnectStep::Attempt(Backend::Wayland)
    } else {
        ConnectStep::Fail(Error::BackendDisabled(Backend::Wayland))
    }
}

/// The first step of connecting, given the detected backend: attempt it
/// when the build offers it; Hyprland and niri, which are Wayland
/// compositors, fall back to the generic Wayland backend when left out; a
/// left-out generic Wayland or X11 backend is an error.
pub open spec fn first_step(detected: Option<Backend>, features: Features) -> ConnectStep {
    match detected {
        None => ConnectStep::Fail(Error::NoDisplay),
        Some(b) => if enabled(features, b) {
            ConnectStep::Attempt(b)
        } else {
            match b {
                Backend::Hyprland | Backend::Niri => wayland_step(features),
                _ => ConnectStep::Fail(Error::BackendDisabled(b)),
            }
        },
    }
}

/// The step after a failed attempt to connect to `attempted`: Hyprland and
/// niri fall back to the generic Wayland backend, which both also run; a
/// failure of the generic Wayland or the X11 backend is final.
pub open spec fn next_step(attempted: Backend, error: Error, features: Features) -> ConnectStep {
    match attempted {
        Backend::Hyprland | Backend::Niri => wayland_step(features),
        Backend::Wayland | Backend::X11 => ConnectStep::Fail(error),
    }
}

fn wayland_fallback(features: Features) -> (step: ConnectStep)
    ensures
        step == wayland_step(features),
{
    if features.wayland {
        ConnectStep::Attempt(Backend::Wayland)
    } else {
        ConnectStep::Fail(Error::BackendDisabled(Backend::Wayland))
    }
}

/// Start connecting to the running compositor, given what
/// [`Backend::detect_from`] found and which backends the build offers.
pub fn connect(detected: Option<Backend>, features: Features) -> (step: ConnectStep)
    ensures
        step == first_step(detected, features),
{
    match detected {
        None => ConnectStep::Fail(Error::NoDisplay),
        Some(b) => {
            let offered = match b {
                Backend::Hyprland => features.hyprland,
                Backend::Niri => features.niri,
                Backend::Wayland => features.wayland,
                Backend::X11 => features.x11,
            };
            if offered {
                ConnectStep::Attempt(b)
            } else {
                match b {
                    Backend::Hyprland | Backend::Niri => wayland_fallback(features),
                    _ => ConnectStep::Fail(Error::BackendDisabled(b)),
                }
            }
        },
    }
}

/// Decide what to do after connecting to `attempted` failed with `error`.
pub fn connect_fallback(attempted: Backend, error: Error, features: Features) -> (step: ConnectStep)
    ensures
        step == next_step(attempted, error, features),
        (attempted == Backend::Wayland || attempted == Backend::X11) ==> step == ConnectStep::Fail(
            error,
        ),
        (attempted == Backend::Hyprland || attempted == Backend::Niri) && features.wayland
            ==> step == ConnectStep::Attempt(Backend::Wayland),
        (attempted == Backend::Hyprland || attempted == Backend::Niri) && !features.wayland
            ==> step == ConnectStep::Fail(Error::BackendDisabled(Backend::Wayland)),
{
    match attempted {
        Backend::Hyprland | Backend::Niri => wayland_fallback(features),
        Backend::Wayland | Backend::X11 => ConnectStep::Fail(error),
    }
}

/// Connecting tries at most two backends, each one the build offers: the
/// detected one (or generic Wayland in place of a left-out Hyprland or
/// niri), then, only after Hyprland or niri failed, generic Wayland. The
/// error reported is that of the last attempt, [`Error::NoDisplay`] when
/// nothing was detected, or [`Error::BackendDisabled`] for a left-out
/// backend with nothing to fall back to.
pub proof fn lemma_connect_tries_at_most_two(
    detected: Option<Backend>,
    features: Features,
    first_error: Error,
    second_error: Error,
)
    ensures
        match first_step(detected, features) {
            ConnectStep::Attempt(first) => enabled(features, first) && (detected == Some(first)
                || (first == Backend::Wayland && (detected == Some(Backend::Hyprland) || detected
                == Some(Backend::Niri)))) && match next_step(first, first_error, features) {
                ConnectStep::Attempt(second) => (first == Backend::Hyprland || first
                    == Backend::Niri) && second == Backend::Wayland && enabled(features, second)
                    && next_step(second, second_error, features) == ConnectStep::Fail(second_error),
                ConnectStep::Fail(e) => (e == first_error && (first == Backend::Wayland || first
                    == Backend::X11)) || (e == Error::BackendDisabled(Backend::Wayland)
                    && !features.wayland),
            },
            ConnectStep::Fail(e) => (detected is None && e == Error::NoDisplay) || (
            detected matches Some(b) && !enabled(features, b) && (e == Error::BackendDisabled(b)
                || e == Error::BackendDisabled(Backend::Wayland))),
        },
{
}

/// A failed attempt at generic Wayland or X11 is final and reports that
/// attempt's own error, whatever the build offers; a failed attempt at
/// Hyprland or niri never ends with that error, but moves on to generic
/// Wayland (or reports it left out). A detected backend the build offers is
/// the one attempted first.
pub proof fn lemma_fallback_keeps_the_error(attempted: Backend, error: Error, features: Features)
    ensures
        (attempted == Backend::Wayland || attempted == Backend::X11) ==> next_step(
            attempted,
            error,
            features,
        ) == ConnectStep::Fail(error),
        (attempted == Backend::Hyprland || attempted == Backend::Niri) ==> (next_step(
            attempted,
            error,
            features,
        ) == (if features.wayland {
            ConnectStep::Attempt(Backend::Wayland)
        } else {
            ConnectStep::Fail(Error::BackendDisabled(Backend::Wayland))
        })),
        enabled(features, attempted) ==> first_step(Some(attempted), features) == ConnectStep::Attempt(
            attempted,
        ),
{
}

/// A window id belongs to exactly one backend: every other backend refuses
/// it with [`Error::WindowGone`].
pub proof fn lemma_window_id_has_one_backend(id: WindowId)
    ensures
        (hyprland::hyprland_address(id) is Some) as int + (x11::window_xid(id) is Some) as int
            + (wayland::wayland_object(id) is Some) as int + (niri::niri_window_id(id) is Some) as int
            == 1,
{
}

} // verus!
