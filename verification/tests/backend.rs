use easycompositing::Backend;

#[test]
fn nothing_set_detects_nothing() {
    assert_eq!(Backend::detect_from(false, false, false, false), None);
}

#[test]
fn hyprland_wins_over_everything() {
    assert_eq!(
        Backend::detect_from(true, true, true, true),
        Some(Backend::Hyprland)
    );
}

#[test]
fn niri_wins_over_plain_wayland_and_x11() {
    assert_eq!(
        Backend::detect_from(false, true, true, true),
        Some(Backend::Niri)
    );
}

#[test]
fn wayland_wins_over_x11() {
    assert_eq!(
        Backend::detect_from(false, false, true, true),
        Some(Backend::Wayland)
    );
}

#[test]
fn x11_only_when_nothing_else_present() {
    assert_eq!(
        Backend::detect_from(false, false, false, true),
        Some(Backend::X11)
    );
}

#[test]
fn hyprland_alone_is_detected() {
    assert_eq!(
        Backend::detect_from(true, false, false, false),
        Some(Backend::Hyprland)
    );
}

#[test]
fn niri_beats_x11_without_wayland_display() {
    assert_eq!(
        Backend::detect_from(false, true, false, true),
        Some(Backend::Niri)
    );
}
