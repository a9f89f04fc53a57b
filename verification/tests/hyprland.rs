use easycompositing::hyprland::{HyprClient, HyprlandCompositor};
use easycompositing::{Backing, Error, Geometry, WindowId};

fn hypr(address: &str) -> WindowId {
    WindowId(Backing::Hyprland(address.to_string()))
}

#[test]
fn dispatch_ok_reply_succeeds() {
    assert!(HyprlandCompositor::dispatch("focuswindow address:0x1", "ok").is_ok());
    assert!(HyprlandCompositor::dispatch("focuswindow address:0x1", " ok\n").is_ok());
    assert!(HyprlandCompositor::dispatch("x", "\u{3000}ok\t").is_ok());
}

#[test]
fn dispatch_other_reply_is_protocol_error() {
    match HyprlandCompositor::dispatch("focuswindow address:0x1", "No such window") {
        Err(Error::Protocol(m)) => assert_eq!(
            m,
            "hyprctl dispatch \"focuswindow address:0x1\" failed: No such window"
        ),
        _ => panic!("expected a protocol error"),
    }
    assert!(HyprlandCompositor::dispatch("x", "okay").is_err());
    assert!(HyprlandCompositor::dispatch("x", "").is_err());
    assert!(HyprlandCompositor::dispatch("x", "o k").is_err());
}

#[test]
fn dispatch_error_quotes_the_command() {
    match HyprlandCompositor::dispatch("a\"b", "err") {
        Err(Error::Protocol(m)) => assert_eq!(m, "hyprctl dispatch \"a\\\"b\" failed: err"),
        _ => panic!("expected a protocol error"),
    }
    match HyprlandCompositor::dispatch("a\nb", "") {
        Err(Error::Protocol(m)) => assert_eq!(m, "hyprctl dispatch \"a\\nb\" failed: "),
        _ => panic!("expected a protocol error"),
    }
}

#[test]
fn dispatch_request_prefixes_dispatch() {
    assert_eq!(
        HyprlandCompositor::dispatch_request("closewindow address:0xab"),
        "dispatch closewindow address:0xab"
    );
}

#[test]
fn commands_name_the_window_address() {
    let id = hypr("0x5578aa");
    assert_eq!(HyprlandCompositor::address(&id).unwrap(), "0x5578aa");
    assert_eq!(
        HyprlandCompositor::focus_window_command(&id).unwrap(),
        "focuswindow address:0x5578aa"
    );
    assert_eq!(
        HyprlandCompositor::close_window_command(&id).unwrap(),
        "closewindow address:0x5578aa"
    );
    assert_eq!(
        HyprlandCompositor::move_window_command(&id, 50, -60).unwrap(),
        "movewindowpixel exact 50 -60,address:0x5578aa"
    );
    assert_eq!(
        HyprlandCompositor::resize_window_command(&id, 640, 480).unwrap(),
        "resizewindowpixel exact 640 480,address:0x5578aa"
    );
}

#[test]
fn move_command_extreme_coordinates() {
    let id = hypr("0x1");
    assert_eq!(
        HyprlandCompositor::move_window_command(&id, i32::MIN, i32::MAX).unwrap(),
        "movewindowpixel exact -2147483648 2147483647,address:0x1"
    );
    assert_eq!(
        HyprlandCompositor::move_window_command(&id, 0, 0).unwrap(),
        "movewindowpixel exact 0 0,address:0x1"
    );
    assert_eq!(
        HyprlandCompositor::resize_window_command(&id, u32::MAX, 10).unwrap(),
        "resizewindowpixel exact 4294967295 10,address:0x1"
    );
}

#[test]
fn foreign_ids_are_window_gone() {
    let id = WindowId(Backing::X11(4));
    assert!(matches!(HyprlandCompositor::address(&id), Err(Error::WindowGone)));
    assert!(matches!(
        HyprlandCompositor::focus_window_command(&id),
        Err(Error::WindowGone)
    ));
    assert!(matches!(
        HyprlandCompositor::move_window_command(&WindowId(Backing::Niri(1)), 1, 2),
        Err(Error::WindowGone)
    ));
}

#[test]
fn clients_become_windows_in_order() {
    let clients = vec![
        HyprClient {
            address: "0x1".to_string(),
            at: (10, -20),
            size: (300, 200),
            title: "term".to_string(),
            class: "foot".to_string(),
        },
        HyprClient {
            address: "0x2".to_string(),
            at: (0, 0),
            size: (1, 1),
            title: "".to_string(),
            class: "firefox".to_string(),
        },
    ];
    let windows = HyprlandCompositor::windows_from_clients(clients);
    assert_eq!(windows.len(), 2);
    assert_eq!(windows[0].id, hypr("0x1"));
    assert_eq!(windows[0].title, "term");
    assert_eq!(windows[0].app_id, "foot");
    assert_eq!(
        windows[0].geometry,
        Some(Geometry { x: 10, y: -20, width: 300, height: 200 })
    );
    assert_eq!(windows[1].id, hypr("0x2"));
    assert_eq!(windows[1].app_id, "firefox");
    assert!(HyprlandCompositor::windows_from_clients(Vec::new()).is_empty());
}

#[test]
fn connect_reports_what_is_missing() {
    match HyprlandCompositor::connect(false, true, String::new(), false) {
        Err(Error::ConnectionFailed(m)) => assert_eq!(m, "HYPRLAND_INSTANCE_SIGNATURE is not set"),
        _ => panic!(),
    }
    match HyprlandCompositor::connect(true, false, String::new(), false) {
        Err(Error::ConnectionFailed(m)) => assert_eq!(m, "XDG_RUNTIME_DIR is not set"),
        _ => panic!(),
    }
    match HyprlandCompositor::connect(true, true, "/run/hypr/sig/.socket.sock".to_string(), false) {
        Err(Error::ConnectionFailed(m)) => {
            assert_eq!(m, "hyprctl socket not found at /run/hypr/sig/.socket.sock")
        }
        _ => panic!(),
    }
    let c = HyprlandCompositor::connect(true, true, "/run/hypr/sig/.socket.sock".to_string(), true)
        .unwrap();
    assert_eq!(c.socket_path(), "/run/hypr/sig/.socket.sock");
}
