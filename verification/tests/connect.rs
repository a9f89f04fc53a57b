use easycompositing::{connect, connect_fallback, Backend, ConnectStep, Error, Features};

fn all() -> Features {
    Features { hyprland: true, niri: true, wayland: true, x11: true }
}

#[test]
fn no_display_fails_at_once() {
    assert!(matches!(connect(None, all()), ConnectStep::Fail(Error::NoDisplay)));
    assert!(matches!(
        connect(None, Features::default_build()),
        ConnectStep::Fail(Error::NoDisplay)
    ));
}

#[test]
fn detected_backend_is_attempted_first() {
    for b in [Backend::Hyprland, Backend::Niri, Backend::Wayland, Backend::X11] {
        match connect(Some(b), all()) {
            ConnectStep::Attempt(a) => assert_eq!(a, b),
            ConnectStep::Fail(_) => panic!(),
        }
    }
}

#[test]
fn default_build_leaves_niri_out() {
    assert_eq!(
        Features::default_build(),
        Features { hyprland: true, niri: false, wayland: true, x11: true }
    );
    match connect(Some(Backend::Niri), Features::default_build()) {
        ConnectStep::Attempt(a) => assert_eq!(a, Backend::Wayland),
        ConnectStep::Fail(_) => panic!(),
    }
    match connect(Some(Backend::Hyprland), Features::default_build()) {
        ConnectStep::Attempt(a) => assert_eq!(a, Backend::Hyprland),
        ConnectStep::Fail(_) => panic!(),
    }
}

#[test]
fn left_out_backends_are_disabled() {
    let only_x11 = Features { hyprland: false, niri: false, wayland: false, x11: true };
    assert!(matches!(
        connect(Some(Backend::Wayland), only_x11),
        ConnectStep::Fail(Error::BackendDisabled(Backend::Wayland))
    ));
    assert!(matches!(
        connect(Some(Backend::Niri), only_x11),
        ConnectStep::Fail(Error::BackendDisabled(Backend::Wayland))
    ));
    let only_wayland = Features { hyprland: false, niri: false, wayland: true, x11: false };
    assert!(matches!(
        connect(Some(Backend::X11), only_wayland),
        ConnectStep::Fail(Error::BackendDisabled(Backend::X11))
    ));
    assert!(matches!(
        connect_fallback(Backend::Hyprland, Error::WindowGone, only_x11),
        ConnectStep::Fail(Error::BackendDisabled(Backend::Wayland))
    ));
}

#[test]
fn ipc_backends_fall_back_to_wayland() {
    for b in [Backend::Hyprland, Backend::Niri] {
        match connect_fallback(b, Error::ConnectionFailed("gone".to_string()), all()) {
            ConnectStep::Attempt(a) => assert_eq!(a, Backend::Wayland),
            ConnectStep::Fail(_) => panic!(),
        }
    }
}

#[test]
fn generic_backend_failures_are_final() {
    match connect_fallback(
        Backend::Wayland,
        Error::ConnectionFailed("no socket".to_string()),
        all(),
    ) {
        ConnectStep::Fail(Error::ConnectionFailed(m)) => assert_eq!(m, "no socket"),
        _ => panic!(),
    }
    assert!(matches!(
        connect_fallback(Backend::X11, Error::Protocol("x".to_string()), all()),
        ConnectStep::Fail(Error::Protocol(_))
    ));
}
