use easycompositing::x11::{
    client_list_windows, close_window_message, focus_window_message, geometry_on_screen, moveresize_data,
    move_window_message, parse_wm_class, resize_window_message, title_from_net_wm_name,
    title_from_wm_name, window_info, windows_from_reads, wm_class_field, xid, Atoms,
    MoveResizePresent, WindowReads,
};
use easycompositing::{Backing, Error, Geometry, WindowId};

fn atoms() -> Atoms {
    Atoms {
        net_client_list: 301,
        net_wm_name: 302,
        net_active_window: 303,
        net_close_window: 304,
        net_moveresize_window: 305,
        utf8_string: 306,
    }
}

#[test]
fn parses_wm_class_second_field() {
    assert_eq!(parse_wm_class(b"xterm\0XTerm\0"), "XTerm");
}

#[test]
fn wm_class_missing_class_field_is_empty() {
    assert_eq!(parse_wm_class(b"just-instance\0"), "");
}

#[test]
fn wm_class_empty_input_is_empty() {
    assert_eq!(parse_wm_class(b""), "");
}

#[test]
fn moveresize_xy_sets_only_x_and_y_flags() {
    let data = moveresize_data(MoveResizePresent::XY, 50, 60);
    let flags = data[0];
    assert_eq!(flags & 0b1111_00000000, 0b0011_00000000, "x and y bits set");
    assert_eq!(data[1], 50);
    assert_eq!(data[2], 60);
    assert_eq!(data[3], 0);
    assert_eq!(data[4], 0);
}

#[test]
fn moveresize_width_height_sets_only_size_flags() {
    let data = moveresize_data(MoveResizePresent::WidthHeight, 640, 480);
    let flags = data[0];
    assert_eq!(
        flags & 0b1111_00000000,
        0b1100_00000000,
        "width and height bits set"
    );
    assert_eq!(data[1], 0);
    assert_eq!(data[2], 0);
    assert_eq!(data[3], 640);
    assert_eq!(data[4], 480);
}

#[test]
fn moveresize_always_marks_source_application() {
    const SOURCE_APPLICATION: u32 = 1 << 12;
    assert_ne!(
        moveresize_data(MoveResizePresent::XY, 0, 0)[0] & SOURCE_APPLICATION,
        0
    );
    assert_ne!(
        moveresize_data(MoveResizePresent::WidthHeight, 0, 0)[0] & SOURCE_APPLICATION,
        0
    );
}

#[test]
fn moveresize_flags_exact_values() {
    assert_eq!(moveresize_data(MoveResizePresent::XY, 1, 2), [0x1300, 1, 2, 0, 0]);
    assert_eq!(
        moveresize_data(MoveResizePresent::WidthHeight, 3, 4),
        [0x1c00, 0, 0, 3, 4]
    );
}

#[test]
fn wm_class_without_trailing_nul() {
    assert_eq!(parse_wm_class(b"a\0b"), "b");
    assert_eq!(wm_class_field(b"a\0b"), b"b".to_vec());
}

#[test]
fn wm_class_ignores_fields_after_the_class() {
    assert_eq!(parse_wm_class(b"inst\0Class\0extra\0"), "Class");
    assert_eq!(parse_wm_class(b"\0\0"), "");
    assert_eq!(parse_wm_class(b"\0only-class"), "only-class");
}

#[test]
fn wm_class_invalid_utf8_is_replaced() {
    assert_eq!(parse_wm_class(b"i\0A\xffB\0"), "A\u{fffd}B");
}

#[test]
fn xid_of_foreign_id_is_window_gone() {
    assert_eq!(xid(&WindowId(Backing::X11(7))).unwrap(), 7);
    assert!(matches!(
        xid(&WindowId(Backing::Niri(7))),
        Err(Error::WindowGone)
    ));
}

#[test]
fn focus_and_close_messages() {
    let a = atoms();
    let id = WindowId(Backing::X11(0x400001));
    let focus = focus_window_message(&a, &id).unwrap();
    assert_eq!(focus.window, 0x400001);
    assert_eq!(focus.message_type, 303);
    assert_eq!(focus.data, [1, 0, 0, 0, 0]);
    let close = close_window_message(&a, &id).unwrap();
    assert_eq!(close.message_type, 304);
    assert_eq!(close.data, [0, 1, 0, 0, 0]);
    let _event = close.event();
    assert!(matches!(
        focus_window_message(&a, &WindowId(Backing::Wayland(3))),
        Err(Error::WindowGone)
    ));
}

#[test]
fn move_and_resize_messages() {
    let a = atoms();
    let id = WindowId(Backing::X11(9));
    let m = move_window_message(&a, &id, -5, 60).unwrap();
    assert_eq!(m.message_type, 305);
    assert_eq!(m.data, [0x1300, (-5i32) as u32, 60, 0, 0]);
    let r = resize_window_message(&a, &id, 640, 480).unwrap();
    assert_eq!(r.data, [0x1c00, 0, 0, 640, 480]);
    assert!(matches!(
        resize_window_message(&a, &WindowId(Backing::Hyprland("0x1".into())), 1, 1),
        Err(Error::WindowGone)
    ));
}

#[test]
fn titles_prefer_net_wm_name() {
    assert_eq!(title_from_net_wm_name(b"caf\xc3\xa9"), Some("café".to_string()));
    assert_eq!(title_from_net_wm_name(b""), None);
    assert_eq!(title_from_wm_name(b"xterm"), "xterm");
}

#[test]
fn window_info_defaults_unreadable_fields() {
    let g = geometry_on_screen(-3, 4, 100, 200);
    assert_eq!(g, Geometry { x: -3, y: 4, width: 100, height: 200 });
    let info = window_info(
        5,
        Ok("title".to_string()),
        Err(Error::Protocol("bad".to_string())),
        Ok(g),
    );
    assert_eq!(info.id, WindowId(Backing::X11(5)));
    assert_eq!(info.title, "title");
    assert_eq!(info.app_id, "");
    assert_eq!(info.geometry, Some(g));
    let info = window_info(6, Err(Error::WindowGone), Ok("XTerm".to_string()), Err(Error::WindowGone));
    assert_eq!(info.title, "");
    assert_eq!(info.app_id, "XTerm");
    assert_eq!(info.geometry, None);
}

#[test]
fn client_list_keeps_count_and_order() {
    let reads = vec![
        WindowReads {
            window: 3,
            title: Ok("b".to_string()),
            class: Ok("B".to_string()),
            geometry: Err(Error::WindowGone),
        },
        WindowReads {
            window: 1,
            title: Err(Error::WindowGone),
            class: Ok("A".to_string()),
            geometry: Ok(Geometry { x: 0, y: 0, width: 5, height: 6 }),
        },
    ];
    let windows = windows_from_reads(reads);
    assert_eq!(windows.len(), 2);
    assert_eq!(windows[0].id, WindowId(Backing::X11(3)));
    assert_eq!(windows[0].title, "b");
    assert_eq!(windows[0].geometry, None);
    assert_eq!(windows[1].id, WindowId(Backing::X11(1)));
    assert_eq!(windows[1].title, "");
    assert_eq!(windows[1].app_id, "A");
    assert!(windows_from_reads(Vec::new()).is_empty());
}

#[test]
fn client_list_reads_whole_card32_groups() {
    let ids = [0x0040_0001u32, 0x0120_0abc];
    let mut value = Vec::new();
    for id in ids {
        value.extend_from_slice(&id.to_ne_bytes());
    }
    assert_eq!(client_list_windows(32, &value), ids.to_vec());
    value.push(0xff);
    assert_eq!(client_list_windows(32, &value), ids.to_vec());
    assert!(client_list_windows(8, &value).is_empty());
    assert!(client_list_windows(32, &[]).is_empty());
}
