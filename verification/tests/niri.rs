use easycompositing::niri::{
    dispatch_outcome, fixed_size, height_after_width, window_id, windows_outcome, ActionReply,
    NiriWindow, WindowsReply,
};
use easycompositing::{Backing, Error, WindowId};

#[test]
fn handled_actions_succeed() {
    assert!(dispatch_outcome(ActionReply::Handled).is_ok());
    match dispatch_outcome(ActionReply::Unexpected("Version(\"25.02\")".to_string())) {
        Err(Error::Protocol(m)) => assert_eq!(
            m,
            "unexpected reply from niri action request: Version(\"25.02\")"
        ),
        _ => panic!(),
    }
}

#[test]
fn windows_reply_is_listed() {
    let reply = WindowsReply::Windows(vec![
        NiriWindow { id: 3, title: Some("term".to_string()), app_id: None },
        NiriWindow { id: 8, title: None, app_id: Some("firefox".to_string()) },
    ]);
    let windows = windows_outcome(reply).unwrap();
    assert_eq!(windows.len(), 2);
    assert_eq!(windows[0].id, WindowId(Backing::Niri(3)));
    assert_eq!(windows[0].title, "term");
    assert_eq!(windows[0].app_id, "");
    assert_eq!(windows[0].geometry, None);
    assert_eq!(windows[1].title, "");
    assert_eq!(windows[1].app_id, "firefox");
    match windows_outcome(WindowsReply::Unexpected("Handled".to_string())) {
        Err(Error::Protocol(m)) => assert_eq!(m, "unexpected reply from niri windows request: Handled"),
        _ => panic!(),
    }
}

#[test]
fn niri_ids() {
    assert_eq!(window_id(&WindowId(Backing::Niri(42))).unwrap(), 42);
    assert!(matches!(window_id(&WindowId(Backing::X11(42))), Err(Error::WindowGone)));
}

#[test]
fn resize_sends_height_only_after_width() {
    assert_eq!(fixed_size(640), 640);
    assert_eq!(fixed_size(u32::MAX), -1);
    assert_eq!(height_after_width(Ok(()), 480).unwrap(), 480);
    match height_after_width(Err(Error::Protocol("refused".to_string())), 480) {
        Err(Error::Protocol(m)) => assert_eq!(m, "refused"),
        _ => panic!(),
    }
}
