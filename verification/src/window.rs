use vstd::prelude::*;

verus! {

/// Backend-specific handle to a window. Obtained from a window listing and
/// passed back into the other window operations.
#[derive(Debug, Clone, PartialEq, Eq, Hash)]
pub struct WindowId(pub Backing);

/// What a [`WindowId`] refers to on each backend.
#[derive(Debug, Clone, PartialEq, Eq, Hash)]
pub enum Backing {
    /// An X11 window (XID).
    X11(u32),
    /// The protocol object id of a Wayland foreign-toplevel handle.
    Wayland(u32),
    /// A Hyprland client "address" (e.g. `0x5578...`), as reported by
    /// `hyprctl clients -j` and reused verbatim in dispatch commands.
    Hyprland(String),
    /// A niri window id, as reported by the windows request and reused
    /// verbatim in action requests.
    Niri(u64),
}

/// A window's on-screen position and size, in the compositor's own
/// coordinate space: on X11 the window's origin in root-window coordinates,
/// on Hyprland the client's position in the compositor's layout.
#[derive(Debug, Clone, Copy, PartialEq, Eq, Structural)]
pub struct Geometry {
    pub x: i32,
    pub y: i32,
    pub width: u32,
    pub height: u32,
}

/// Everything known about one window, gathered through whichever backend
/// is active.
#[derive(Debug, Clone)]
pub struct WindowInfo {
    pub id: WindowId,
    pub title: String,
    /// `WM_CLASS` on X11, `app_id` on Wayland: the application identifier,
    /// not a per-window title.
    pub app_id: String,
    /// `None` on backends that don't expose it (plain Wayland does not tell
    /// foreign clients window geometry).
    pub geometry: Option<Geometry>,
}

} // verus!
