# easycompositing

One API for window control (list, focus, close, move, resize) that works
the same across X11 and the major Wayland compositors, with the decisions
verified in Verus.

- `src/` is the verified library: backend detection and the connection
  fallback order, window ids and descriptions, and per backend the logic
  that decides what is sent and how replies are read:
  `hyprland` (hyprctl command texts and reply checks), `niri` (IPC
  replies), `x11` (EWMH client messages, `_NET_CLIENT_LIST` and `WM_CLASS`
  decoding, on-screen geometry),
  `wayland` (the choice among the Plasma, wlr and ext toplevel protocols,
  richest first, and the record of the toplevels they announce), and
  `text` (decimal rendering and whitespace trimming).
- `app/` does the environment reads and the wire protocols (x11rb,
  wayland-client and the three toplevel protocols' bindings, Hyprland's socket, niri-ipc), implements the
  `Compositor` trait for each backend on top of the library, and offers
  `connect()` returning a `Box<dyn Compositor>`.
- `tests/` exercises the library on concrete values.
