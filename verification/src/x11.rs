//! X11 backend logic, against the EWMH hints most window managers publish
//! on the root window: `_NET_CLIENT_LIST`, `_NET_ACTIVE_WINDOW`,
//! `_NET_CLOSE_WINDOW` and `_NET_MOVERESIZE_WINDOW`.
//!
//! The functions here decide what is sent to the root window and how
//! property values are read; the caller does the X11 round trips.
use vstd::prelude::*;
use x11rb::protocol::xproto::ClientMessageEvent;
use x11rb::x11_utils::TryParse;

use crate::error::Error;
use crate::text::{from_utf8_lossy, utf8_lossy};
use crate::window::{Backing, Geometry, WindowId, WindowInfo};

verus! {

#[verifier::external_type_specification]
#[verifier::external_body]
pub struct ExClientMessageEvent(ClientMessageEvent);

/// The client message event x11rb builds from a format, a window, a
/// message type and a 32-bit payload.
pub uninterp spec fn x11_client_message_event(format: u8, window: u32, message_type: u32, data: Seq<u32>) -> ClientMessageEvent;

/// Calls `x11rb::protocol::xproto::ClientMessageEvent::new`. Claimed of it:
/// the event is a function of its arguments alone (the crate sets
/// `format`, `window`, `type_` and `data` from them, the response type to
/// `CLIENT_MESSAGE_EVENT` and `sequence` to 0); the event's fields are
/// opaque here and not stated.
#[verifier::external_body]
fn new_client_message_event(format: u8, window: u32, message_type: u32, data: [u32; 5]) -> (event: ClientMessageEvent)
    ensures
        event == x11_client_message_event(format, window, message_type, data@),
{
    ClientMessageEvent::new(format, window, message_type, data)
}

/// The atoms this backend uses, as interned on the connection.
#[derive(Debug, Clone, Copy)]
pub struct Atoms {
    pub net_client_list: u32,
    pub net_wm_name: u32,
    pub net_active_window: u32,
    pub net_close_window: u32,
    pub net_moveresize_window: u32,
    pub utf8_string: u32,
}

/// A client message for the root window, about `window`.
pub struct ClientMessage {
    pub window: u32,
    pub message_type: u32,
    pub data: [u32; 5],
}

impl ClientMessage {
    /// The 32-bit-format X11 event that carries this message.
    pub fn event(&self) -> (event: ClientMessageEvent)
        ensures
            event == x11_client_message_event(32, self.window, self.message_type, self.data@),
    {
        new_client_message_event(32, self.window, self.message_type, self.data)
    }
}

/// The XID a window id carries, if it is an X11 id.
pub open spec fn window_xid(id: WindowId) -> Option<u32> {
    match id.0 {
        Backing::X11(xid) => Some(xid),
        _ => None,
    }
}

/// The XID of the window; ids of other backends are not X11 windows.
pub fn xid(id: &WindowId) -> (res: Result<u32, Error>)
    ensures
        match window_xid(*id) {
            Some(x) => res == Ok::<u32, Error>(x),
            None => res matches Err(Error::WindowGone),
        },
{
    match &id.0 {
        Backing::X11(xid) => Ok(*xid),
        _ => Err(Error::WindowGone),
    }
}

/// `_NET_ACTIVE_WINDOW` payload: source indication 1 (application),
/// timestamp 0, no currently active window of the requestor.
pub open spec fn active_window_data() -> Seq<u32> {
    seq![1u32, 0u32, 0u32, 0u32, 0u32]
}

/// `_NET_CLOSE_WINDOW` payload: timestamp 0, source indication 1
/// (application).
pub open spec fn close_window_data() -> Seq<u32> {
    seq![0u32, 1u32, 0u32, 0u32, 0u32]
}

/// Which pair of `_NET_MOVERESIZE_WINDOW` fields a request is setting.
pub enum MoveResizePresent {
    XY,
    WidthHeight,
}

/// The `_NET_MOVERESIZE_WINDOW` "present" bits for a request: 1 = x,
/// 2 = y, 4 = width, 8 = height.
pub open spec fn present_bits(present: MoveResizePresent) -> u32 {
    match present {
        MoveResizePresent::XY => 3,
        MoveResizePresent::WidthHeight => 12,
    }
}

/// Source indication "application" in `data.l[0]` (bits 12-15).
pub const SOURCE_APPLICATION: u32 = 0x1000;

/// `data.l[0]` of a `_NET_MOVERESIZE_WINDOW` message: gravity 0 (the
/// window's own), the present bits at bits 8-11, source application.
pub open spec fn moveresize_flags(present: MoveResizePresent) -> u32 {
    (present_bits(present) << 8u32) | SOURCE_APPLICATION
}

/// Build the `data.l` payload for a `_NET_MOVERESIZE_WINDOW` client message.
///
/// Per the EWMH spec, `data.l[0]` is
/// `gravity | (present-flags << 8) | (source << 12)`, where the present
/// flags are 1=x, 2=y, 4=width, 8=height, and the remaining fields carry
/// whichever two values `present` selects.
pub fn moveresize_data(present: MoveResizePresent, first: u32, second: u32) -> (data: [u32; 5])
    ensures
        data@[0] == moveresize_flags(present),
        data@[0] & 0xff == 0,
        data@[0] & 0xf00 == present_bits(present) << 8u32,
        data@[0] & SOURCE_APPLICATION != 0,
        present is XY ==> data@ == seq![moveresize_flags(present), first, second, 0u32, 0u32],
        present is WidthHeight ==> data@ == seq![moveresize_flags(present), 0u32, 0u32, first, second],
{
    match present {
        MoveResizePresent::XY => {
            let flags: u32 = (3u32 << 8u32) | SOURCE_APPLICATION;
            assert(flags & 0xff == 0 && flags & 0xf00 == 3u32 << 8u32 && flags & 0x1000 != 0) by (bit_vector)
                requires
                    flags == (3u32 << 8u32) | 0x1000u32,
            ;
            let data = [flags, first, second, 0, 0];
            assert(data@ =~= seq![flags, first, second, 0u32, 0u32]);
            data
        },
        MoveResizePresent::WidthHeight => {
            let flags: u32 = (12u32 << 8u32) | SOURCE_APPLICATION;
            assert(flags & 0xff == 0 && flags & 0xf00 == 12u32 << 8u32 && flags & 0x1000 != 0) by (bit_vector)
                requires
                    flags == (12u32 << 8u32) | 0x1000u32,
            ;
            let data = [flags, 0, 0, first, second];
            assert(data@ =~= seq![flags, 0u32, 0u32, first, second]);
            data
        },
    }
}

/// The message that asks the window manager to activate (focus) the window.
pub fn focus_window_message(atoms: &Atoms, id: &WindowId) -> (res: Result<ClientMessage, Error>)
    ensures
        match window_xid(*id) {
            Some(x) => res matches Ok(m) && m.window == x && m.message_type
                == atoms.net_active_window && m.data@ == active_window_data(),
            None => res matches Err(Error::WindowGone),
        },
{
    let window = xid(id)?;
    let data = [1, 0, 0, 0, 0];
    assert(data@ =~= active_window_data());
    Ok(ClientMessage { window, message_type: atoms.net_active_window, data })
}

/// The message that asks the window manager to close the window, as its
/// titlebar close button would.
pub fn close_window_message(atoms: &Atoms, id: &WindowId) -> (res: Result<ClientMessage, Error>)
    ensures
        match window_xid(*id) {
            Some(x) => res matches Ok(m) && m.window == x && m.message_type
                == atoms.net_close_window && m.data@ == close_window_data(),
            None => res matches Err(Error::WindowGone),
        },
{
    let window = xid(id)?;
    let data = [0, 1, 0, 0, 0];
    assert(data@ =~= close_window_data());
    Ok(ClientMessage { window, message_type: atoms.net_close_window, data })
}

/// The message that moves the window to `(x, y)` (coordinates are sent as
/// their 32-bit two's complement).
pub fn move_window_message(atoms: &Atoms, id: &WindowId, x: i32, y: i32) -> (res: Result<
    ClientMessage,
    Error,
>)
    ensures
        match window_xid(*id) {
            Some(w) => res matches Ok(m) && m.window == w && m.message_type
                == atoms.net_moveresize_window && m.data@ == seq![
                moveresize_flags(MoveResizePresent::XY),
                x as u32,
                y as u32,
                0u32,
                0u32,
            ],
            None => res matches Err(Error::WindowGone),
        },
{
    let window = xid(id)?;
    let data = moveresize_data(MoveResizePresent::XY, x as u32, y as u32);
    Ok(ClientMessage { window, message_type: atoms.net_moveresize_window, data })
}

/// The message that resizes the window to `width` x `height`.
pub fn resize_window_message(atoms: &Atoms, id: &WindowId, width: u32, height: u32) -> (res:
    Result<ClientMessage, Error>)
    ensures
        match window_xid(*id) {
            Some(w) => res matches Ok(m) && m.window == w && m.message_type
                == atoms.net_moveresize_window && m.data@ == seq![
                moveresize_flags(MoveResizePresent::WidthHeight),
                0u32,
                0u32,
                width,
                height,
            ],
            None => res matches Err(Error::WindowGone),
        },
{
    let window = xid(id)?;
    let data = moveresize_data(MoveResizePresent::WidthHeight, width, height);
    Ok(ClientMessage { window, message_type: atoms.net_moveresize_window, data })
}

/// The bytes of `s` before its first NUL byte (all of `s` if it has none).
pub open spec fn before_nul(s: Seq<u8>) -> Seq<u8>
    decreases s.len(),
{
    if s.len() == 0 {
        s
    } else if s[0] == 0 {
        seq![]
    } else {
        seq![s[0]] + before_nul(s.drop_first())
    }
}

/// The bytes after the first NUL byte of `s`, if it has one.
pub open spec fn after_nul(s: Seq<u8>) -> Option<Seq<u8>>
    decreases s.len(),
{
    if s.len() == 0 {
        None
    } else if s[0] == 0 {
        Some(s.drop_first())
    } else {
        after_nul(s.drop_first())
    }
}

/// The class field of a raw `WM_CLASS` value: the second of its
/// NUL-separated fields (instance, then class), empty when there is none.
pub open spec fn wm_class(raw: Seq<u8>) -> Seq<u8> {
    match after_nul(raw) {
        Some(rest) => before_nul(rest),
        None => seq![],
    }
}

/// Extract the bytes of the class (second field) from a raw `WM_CLASS`
/// property value, which is two NUL-terminated strings back to back:
/// instance, then class.
pub fn wm_class_field(raw: &[u8]) -> (class: Vec<u8>)
    ensures
        class@ == wm_class(raw@),
{
    let n = raw.len();
    let mut i: usize = 0;
    assert(raw@.subrange(0, n as int) == raw@);
    while i < n && raw[i] != 0
        invariant
            n == raw@.len(),
            i <= n,
            after_nul(raw@) == after_nul(raw@.subrange(i as int, n as int)),
        decreases n - i,
    {
        assert(raw@.subrange(i as int, n as int).drop_first() == raw@.subrange(i + 1, n as int));
        i = i + 1;
    }
    let mut class: Vec<u8> = Vec::new();
    if i == n {
        return class;
    }
    assert(raw@.subrange(i as int, n as int).drop_first() == raw@.subrange(i + 1, n as int));
    let mut p: usize = i + 1;
    while p < n && raw[p] != 0
        invariant
            n == raw@.len(),
            i < p <= n,
            wm_class(raw@) == class@ + before_nul(raw@.subrange(p as int, n as int)),
        decreases n - p,
    {
        let ghost rest = raw@.subrange(p as int, n as int);
        assert(rest.drop_first() == raw@.subrange(p + 1, n as int));
        assert(before_nul(rest) == seq![raw@[p as int]] + before_nul(rest.drop_first()));
        assert(class@ + (seq![raw@[p as int]] + before_nul(rest.drop_first())) == class@.push(
            raw@[p as int],
        ) + before_nul(rest.drop_first()));
        class.push(raw[p]);
        p = p + 1;
    }
    assert(before_nul(raw@.subrange(p as int, n as int)) == Seq::<u8>::empty());
    assert(class@ + Seq::<u8>::empty() == class@);
    class
}

/// Extract the class (second field) from a raw `WM_CLASS` property value,
/// decoded as lossy UTF-8.
///
/// A NUL byte never belongs to an invalid UTF-8 sequence, so this is the
/// second NUL-separated field of the whole value decoded lossily.
pub fn parse_wm_class(raw: &[u8]) -> (class: String)
    ensures
        class@ == utf8_lossy(wm_class(raw@)),
{
    let field = wm_class_field(raw);
    from_utf8_lossy(field.as_slice())
}

/// The title from a `_NET_WM_NAME` value, or `None` when it is empty and the
/// legacy `WM_NAME` has to be read instead.
pub fn title_from_net_wm_name(value: &[u8]) -> (title: Option<String>)
    ensures
        value@.len() == 0 ==> title is None,
        value@.len() != 0 ==> (title matches Some(t) && t@ == utf8_lossy(value@)),
{
    if value.len() == 0 {
        None
    } else {
        Some(from_utf8_lossy(value))
    }
}

/// The title from a legacy `WM_NAME` value.
pub fn title_from_wm_name(value: &[u8]) -> (title: String)
    ensures
        title@ == utf8_lossy(value@),
{
    from_utf8_lossy(value)
}

/// The geometry of a window on screen: `root_x`/`root_y` are the window's
/// origin translated to the root window (`TranslateCoordinates` of `(0, 0)`
/// to the root), `width`/`height` its size from `GetGeometry`.
pub fn geometry_on_screen(root_x: i16, root_y: i16, width: u16, height: u16) -> (g: Geometry)
    ensures
        g == (Geometry { x: root_x as i32, y: root_y as i32, width: width as u32, height: height as u32 }),
{
    Geometry { x: root_x as i32, y: root_y as i32, width: width as u32, height: height as u32 }
}

/// The value of four bytes read least significant byte first.
pub open spec fn le_u32(b: Seq<u8>) -> int {
    b[0] + b[1] * 256 + b[2] * 65536 + b[3] * 16777216
}

/// The value of four bytes read most significant byte first.
pub open spec fn be_u32(b: Seq<u8>) -> int {
    b[3] + b[2] * 256 + b[1] * 65536 + b[0] * 16777216
}

/// Calls x11rb's `TryParse` for `u32` (`u32::from_ne_bytes`, the byte order
/// the connection announced to the server). Claimed of it: the value is the
/// four bytes read in one of the two byte orders; which one is the
/// machine's and is not stated.
#[verifier::external_body]
fn parse_card32(bytes: [u8; 4]) -> (value: u32)
    ensures
        value == le_u32(bytes@) || value == be_u32(bytes@),
{
    match u32::try_parse(&bytes) {
        Ok((value, _)) => value,
        Err(_) => 0,
    }
}

/// The value of a group of four bytes in one byte order: least significant
/// byte first when `little`, most significant first otherwise.
pub open spec fn card32(b: Seq<u8>, little: bool) -> int {
    if little {
        le_u32(b)
    } else {
        be_u32(b)
    }
}

/// The four-byte groups of `value`, in order, each read in the byte order
/// `little` says (a trailing partial group is ignored).
pub open spec fn card32_list(value: Seq<u8>, little: bool) -> Seq<u32> {
    Seq::new(value.len() / 4, |i: int| card32(value.subrange(4 * i, 4 * i + 4), little) as u32)
}

/// The window ids of a `_NET_CLIENT_LIST` value, as x11rb's `value32`
/// reads it: nothing unless the property has format 32, else one id per
/// whole group of four bytes, in order (a trailing partial group is
/// ignored), every group read in one and the same byte order (the one x11rb
/// parses in, which is the machine's).
pub fn client_list_windows(format: u8, value: &[u8]) -> (windows: Vec<u32>)
    ensures
        format != 32 ==> windows@.len() == 0,
        format == 32 ==> windows@.len() == value@.len() / 4 && forall|i: int|
            0 <= i < windows@.len() ==> (#[trigger] windows@[i] == le_u32(
                value@.subrange(4 * i, 4 * i + 4),
            ) || windows@[i] == be_u32(value@.subrange(4 * i, 4 * i + 4))),
        format == 32 ==> exists|little: bool| windows@ == card32_list(value@, little),
{
    let mut windows: Vec<u32> = Vec::new();
    if format != 32 {
        return windows;
    }
    // Ask x11rb which byte order it reads in, once for the whole list.
    let probe_bytes: [u8; 4] = [1, 0, 0, 0];
    assert(probe_bytes@ =~= seq![1u8, 0u8, 0u8, 0u8]);
    let probe = parse_card32(probe_bytes);
    let little = probe == 1;
    assert(little <==> probe == le_u32(probe_bytes@));
    let n = value.len();
    let count = n / 4;
    let mut k: usize = 0;
    while k < count
        invariant
            n == value@.len(),
            count == n / 4,
            k <= count,
            windows@.len() == k,
            forall|i: int|
                0 <= i < k ==> #[trigger] windows@[i] == (if little {
                    le_u32(value@.subrange(4 * i, 4 * i + 4))
                } else {
                    be_u32(value@.subrange(4 * i, 4 * i + 4))
                }),
        decreases count - k,
    {
        assert(4 * k + 4 <= n) by (nonlinear_arith)
            requires
                k < count,
                count == n / 4,
        ;
        let at = 4 * k;
        let b0 = value[at] as u32;
        let b1 = value[at + 1] as u32;
        let b2 = value[at + 2] as u32;
        let b3 = value[at + 3] as u32;
        let id = if little {
            b0 + b1 * 256 + b2 * 65536 + b3 * 16777216
        } else {
            b3 + b2 * 256 + b1 * 65536 + b0 * 16777216
        };
        proof {
            let group = value@.subrange(4 * k as int, 4 * k as int + 4);
            assert(group[0] == b0 && group[1] == b1 && group[2] == b2 && group[3] == b3);
        }
        windows.push(id);
        k = k + 1;
    }
    assert forall|i: int| 0 <= i < windows@.len() implies (#[trigger] windows@[i] == le_u32(
        value@.subrange(4 * i, 4 * i + 4),
    ) || windows@[i] == be_u32(value@.subrange(4 * i, 4 * i + 4))) by {}
    assert(windows@ =~= card32_list(value@, little));
    windows
}

/// Every id of a client list is its group read in the same byte order: once
/// one id is known to be its group read least significant byte first (and
/// that group reads differently the other way), so is every other id.
pub proof fn lemma_client_list_has_one_byte_order(value: Seq<u8>, windows: Seq<u32>, k: int)
    requires
        exists|little: bool| windows == card32_list(value, little),
        0 <= k < windows.len(),
        windows[k] == le_u32(value.subrange(4 * k, 4 * k + 4)),
        le_u32(value.subrange(4 * k, 4 * k + 4)) != be_u32(value.subrange(4 * k, 4 * k + 4)),
    ensures
        windows.len() == value.len() / 4,
        forall|i: int|
            0 <= i < windows.len() ==> #[trigger] windows[i] == le_u32(value.subrange(4 * i, 4 * i + 4)),
{
    let little = choose|little: bool| windows == card32_list(value, little);
    assert(windows[k] == card32(value.subrange(4 * k, 4 * k + 4), little) as u32);
    assert(little) by {
        if !little {
            assert(0 <= be_u32(value.subrange(4 * k, 4 * k + 4)) < 0x1_0000_0000);
        }
    }
    assert forall|i: int| 0 <= i < windows.len() implies #[trigger] windows[i] == le_u32(
        value.subrange(4 * i, 4 * i + 4),
    ) by {
        assert(windows[i] == card32(value.subrange(4 * i, 4 * i + 4), little) as u32);
        assert(0 <= le_u32(value.subrange(4 * i, 4 * i + 4)) < 0x1_0000_0000);
    }
}

/// A window described by [`window_info`] carries its XID, which the window
/// operations accept.
pub proof fn lemma_listed_window_is_addressable(window: u32)
    ensures
        window_xid(WindowId(Backing::X11(window))) == Some(window),
{
}

/// What was read of one window of `_NET_CLIENT_LIST`.
pub struct WindowReads {
    pub window: u32,
    pub title: Result<String, Error>,
    pub class: Result<String, Error>,
    pub geometry: Result<Geometry, Error>,
}

/// `info` describes a window from what could be read of it: an unreadable
/// title or class becomes empty, an unreadable geometry `None`.
pub open spec fn describes(
    info: WindowInfo,
    window: u32,
    title: Result<String, Error>,
    class: Result<String, Error>,
    geometry: Result<Geometry, Error>,
) -> bool {
    &&& info.id == WindowId(Backing::X11(window))
    &&& match title {
        Ok(t) => info.title == t,
        Err(_) => info.title@ == Seq::<char>::empty(),
    }
    &&& match class {
        Ok(c) => info.app_id == c,
        Err(_) => info.app_id@ == Seq::<char>::empty(),
    }
    &&& match geometry {
        Ok(g) => info.geometry == Some(g),
        Err(_) => info.geometry is None,
    }
}

/// Describe a window from what could be read of it: an unreadable title or
/// class becomes empty, an unreadable geometry `None`.
pub fn window_info(
    window: u32,
    title: Result<String, Error>,
    class: Result<String, Error>,
    geometry: Result<Geometry, Error>,
) -> (info: WindowInfo)
    ensures
        describes(info, window, title, class, geometry),
{
    let title = match title {
        Ok(t) => t,
        Err(_) => String::new(),
    };
    let app_id = match class {
        Ok(c) => c,
        Err(_) => String::new(),
    };
    let geometry = match geometry {
        Ok(g) => Some(g),
        Err(_) => None,
    };
    WindowInfo { id: WindowId(Backing::X11(window)), title, app_id, geometry }
}

/// The windows of `_NET_CLIENT_LIST`, one per entry and in its order,
/// each described from what was read of it.
pub fn windows_from_reads(reads: Vec<WindowReads>) -> (windows: Vec<WindowInfo>)
    ensures
        windows@.len() == reads@.len(),
        forall|i: int|
            0 <= i < reads@.len() ==> describes(
                #[trigger] windows@[i],
                reads@[i].window,
                reads@[i].title,
                reads@[i].class,
                reads@[i].geometry,
            ),
{
    let ghost all = reads@;
    let mut rest = reads;
    let mut windows: Vec<WindowInfo> = Vec::new();
    while rest.len() > 0
        invariant
            windows.len() + rest.len() == all.len(),
            rest@ == all.subrange(windows.len() as int, all.len() as int),
            forall|i: int|
                0 <= i < windows.len() ==> describes(
                    #[trigger] windows@[i],
                    all[i].window,
                    all[i].title,
                    all[i].class,
                    all[i].geometry,
                ),
        decreases rest.len(),
    {
        let r = rest.remove(0);
        windows.push(window_info(r.window, r.title, r.class, r.geometry));
    }
    windows
}

} // verus!
