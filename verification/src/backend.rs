use vstd::prelude::*;

verus! {

/// Which compositor protocol is actually running underneath.
///
/// Application code should rarely need to branch on this directly; it
/// exists so that connecting can pick the right implementation, and so
/// callers can report *why* a given operation was unsupported.
#[derive(Debug, Clone, Copy, PartialEq, Eq, Structural)]
pub enum Backend {
    /// Hyprland, detected via `HYPRLAND_INSTANCE_SIGNATURE`; reached through
    /// its own `hyprctl` socket IPC, which allows exact positioning/sizing.
    Hyprland,
    /// niri, detected via `NIRI_SOCKET`; reached through its own JSON IPC.
    Niri,
    /// Any other Wayland compositor, reached through standard extension
    /// protocols.
    Wayland,
    X11,
}

/// The backend chosen when the given environment signals are present:
/// compositor-specific IPC signals first, then `WAYLAND_DISPLAY`, then
/// `DISPLAY`.
pub open spec fn detected_backend(hyprland: bool, niri: bool, wayland: bool, x11: bool) -> Option<
    Backend,
> {
    if hyprland {
        Some(Backend::Hyprland)
    } else if niri {
        Some(Backend::Niri)
    } else if wayland {
        Some(Backend::Wayland)
    } else if x11 {
        Some(Backend::X11)
    } else {
        None
    }
}

impl Backend {
    /// Detect the backend from which of the standard environment variables
    /// are set (`HYPRLAND_INSTANCE_SIGNATURE`, `NIRI_SOCKET`,
    /// `WAYLAND_DISPLAY`, `DISPLAY`).
    ///
    /// Compositor-specific IPC signals take precedence over plain
    /// `WAYLAND_DISPLAY`, since those compositors set both;
    /// `WAYLAND_DISPLAY` in turn takes precedence over `DISPLAY`, matching
    /// how most toolkits choose a backend in an XWayland session.
    pub fn detect_from(hyprland: bool, niri: bool, wayland: bool, x11: bool) -> (detected: Option<
        Self,
    >)
        ensures
            detected == detected_backend(hyprland, niri, wayland, x11),
            detected is None <==> !hyprland && !niri && !wayland && !x11,
            hyprland ==> detected == Some(Backend::Hyprland),
            !hyprland && niri ==> detected == Some(Backend::Niri),
            !hyprland && !niri && wayland ==> detected == Some(Backend::Wayland),
            detected == Some(Backend::X11) <==> !hyprland && !niri && !wayland && x11,
    {
        if hyprland {
            Some(Backend::Hyprland)
        } else if niri {
            Some(Backend::Niri)
        } else if wayland {
            Some(Backend::Wayland)
        } else if x11 {
            Some(Backend::X11)
        } else {
            None
        }
    }
}

} // verus!
