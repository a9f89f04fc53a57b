//! Hyprland backend logic. Hyprland's `hyprctl` socket IPC takes one plain
//! text command per connection and answers with plain text or JSON; unlike
//! any standard Wayland protocol it supports **exact** window positioning
//! and sizing (`movewindowpixel exact` / `resizewindowpixel exact`).
//!
//! The functions here build the command texts, read the replies, and turn
//! the client list into window descriptions; the socket exchange itself is
//! done by the caller.
use vstd::prelude::*;
use vstd::string::*;

use crate::error::Error;
use crate::text::{debug_quoted, push_i32, push_u32, quote_debug, signed_decimal, decimal, trim, trimmed_bounds};
use crate::window::{Backing, Geometry, WindowId, WindowInfo};

verus! {

/// One entry of `hyprctl clients -j`, holding the fields this crate reads.
pub struct HyprClient {
    pub address: String,
    pub at: (i32, i32),
    pub size: (u32, u32),
    pub title: String,
    pub class: String,
}

/// The description of the window a client entry stands for.
pub open spec fn window_from_client(c: HyprClient) -> WindowInfo {
    WindowInfo {
        id: WindowId(Backing::Hyprland(c.address)),
        title: c.title,
        app_id: c.class,
        geometry: Some(Geometry { x: c.at.0, y: c.at.1, width: c.size.0, height: c.size.1 }),
    }
}

/// The Hyprland client address a window id carries, if it is a Hyprland id.
pub open spec fn hyprland_address(id: WindowId) -> Option<String> {
    match id.0 {
        Backing::Hyprland(address) => Some(address),
        _ => None,
    }
}

/// Whether a `dispatch` reply reports success: the reply, trimmed, is `ok`.
pub open spec fn reply_is_ok(reply: Seq<char>) -> bool {
    trim(reply) == "ok"@
}

/// The message of the error for a failed `dispatch cmd` with this reply.
pub open spec fn dispatch_failure(cmd: Seq<char>, reply: Seq<char>) -> Seq<char> {
    "hyprctl dispatch "@ + debug_quoted(cmd) + " failed: "@ + reply
}

/// A window listed from a client is addressed by that client's address:
/// every window operation accepts its id and names the same client.
pub proof fn lemma_listed_window_is_addressable(c: HyprClient)
    ensures
        hyprland_address(window_from_client(c).id) == Some(c.address),
{
}

/// A connection target for Hyprland's `hyprctl` socket.
pub struct HyprlandCompositor {
    socket_path: String,
}

impl View for HyprlandCompositor {
    type V = Seq<char>;

    /// The path of the socket this compositor is reached through.
    closed spec fn view(&self) -> Seq<char> {
        self.socket_path@
    }
}

impl HyprlandCompositor {
    /// Decide whether Hyprland's IPC can be reached. `signature_set` and
    /// `runtime_dir_set` say whether `HYPRLAND_INSTANCE_SIGNATURE` and
    /// `XDG_RUNTIME_DIR` are set; `socket_path` is
    /// `$XDG_RUNTIME_DIR/hypr/$HYPRLAND_INSTANCE_SIGNATURE/.socket.sock` and
    /// `socket_exists` whether a file is there.
    pub fn connect(
        signature_set: bool,
        runtime_dir_set: bool,
        socket_path: String,
        socket_exists: bool,
    ) -> (res: Result<HyprlandCompositor, Error>)
        ensures
            res is Ok <==> signature_set && runtime_dir_set && socket_exists,
            res matches Ok(c) ==> c@ == socket_path@,
            !signature_set ==> (res matches Err(Error::ConnectionFailed(m))
                && m@ == "HYPRLAND_INSTANCE_SIGNATURE is not set"@),
            signature_set && !runtime_dir_set ==> (res matches Err(Error::ConnectionFailed(m))
                && m@ == "XDG_RUNTIME_DIR is not set"@),
            signature_set && runtime_dir_set && !socket_exists ==> (res matches Err(
                Error::ConnectionFailed(m),
            ) && m@ == "hyprctl socket not found at "@ + socket_path@),
    {
        if !signature_set {
            return Err(Error::ConnectionFailed(String::from_str("HYPRLAND_INSTANCE_SIGNATURE is not set")));
        }
        if !runtime_dir_set {
            return Err(Error::ConnectionFailed(String::from_str("XDG_RUNTIME_DIR is not set")));
        }
        if !socket_exists {
            let mut message = String::from_str("hyprctl socket not found at ");
            message.append(socket_path.as_str());
            return Err(Error::ConnectionFailed(message));
        }
        Ok(HyprlandCompositor { socket_path })
    }

    /// The path of the `hyprctl` socket.
    pub fn socket_path(&self) -> (path: &str)
        ensures
            path@ == self@,
    {
        self.socket_path.as_str()
    }

    /// The text sent over the socket to run `cmd` as a dispatcher.
    pub fn dispatch_request(cmd: &str) -> (request: String)
        ensures
            request@ == "dispatch "@ + cmd@,
    {
        let mut request = String::from_str("dispatch ");
        request.append(cmd);
        request
    }

    /// Read the reply to `dispatch cmd`: anything other than `ok` (up to
    /// surrounding white space) is a failure.
    pub fn dispatch(cmd: &str, reply: &str) -> (res: Result<(), Error>)
        ensures
            res is Ok <==> reply_is_ok(reply@),
            !reply_is_ok(reply@) ==> (res matches Err(Error::Protocol(m)) && m@ == dispatch_failure(
                cmd@,
                reply@,
            )),
    {
        let (start, end) = trimmed_bounds(reply);
        proof {
            reveal_strlit("ok");
        }
        if end - start == 2 && reply.get_char(start) == 'o' && reply.get_char(start + 1) == 'k' {
            assert(trim(reply@) =~= "ok"@);
            Ok(())
        } else {
            assert(trim(reply@) != "ok"@) by {
                if trim(reply@) == "ok"@ {
                    let t = reply@.subrange(start as int, end as int);
                    assert(t.len() == 2);
                    assert(t[0] == 'o' && t[1] == 'k');
                    assert(t[0] == reply@[start as int]);
                    assert(t[1] == reply@[start + 1]);
                }
            }
            let mut message = String::from_str("hyprctl dispatch ");
            let quoted = quote_debug(cmd);
            message.append(quoted.as_str());
            message.append(" failed: ");
            message.append(reply);
            Err(Error::Protocol(message))
        }
    }

    /// The client address a window id carries; ids of other backends are
    /// not windows of this compositor.
    pub fn address(id: &WindowId) -> (res: Result<&str, Error>)
        ensures
            match hyprland_address(*id) {
                Some(a) => res matches Ok(r) && r@ == a@,
                None => res matches Err(Error::WindowGone),
            },
    {
        match &id.0 {
            Backing::Hyprland(address) => Ok(address.as_str()),
            _ => Err(Error::WindowGone),
        }
    }

    /// The dispatcher that focuses the window.
    pub fn focus_window_command(id: &WindowId) -> (res: Result<String, Error>)
        ensures
            match hyprland_address(*id) {
                Some(a) => res matches Ok(cmd) && cmd@ == "focuswindow address:"@ + a@,
                None => res matches Err(Error::WindowGone),
            },
    {
        let address = Self::address(id)?;
        let mut cmd = String::from_str("focuswindow address:");
        cmd.append(address);
        Ok(cmd)
    }

    /// The dispatcher that closes the window.
    pub fn close_window_command(id: &WindowId) -> (res: Result<String, Error>)
        ensures
            match hyprland_address(*id) {
                Some(a) => res matches Ok(cmd) && cmd@ == "closewindow address:"@ + a@,
                None => res matches Err(Error::WindowGone),
            },
    {
        let address = Self::address(id)?;
        let mut cmd = String::from_str("closewindow address:");
        cmd.append(address);
        Ok(cmd)
    }

    /// The dispatcher that moves the window to exactly `(x, y)`.
    pub fn move_window_command(id: &WindowId, x: i32, y: i32) -> (res: Result<String, Error>)
        ensures
            match hyprland_address(*id) {
                Some(a) => res matches Ok(cmd) && cmd@ == "movewindowpixel exact "@ + signed_decimal(
                    x as int,
                ) + " "@ + signed_decimal(y as int) + ",address:"@ + a@,
                None => res matches Err(Error::WindowGone),
            },
    {
        let address = Self::address(id)?;
        let mut cmd = String::from_str("movewindowpixel exact ");
        push_i32(&mut cmd, x);
        cmd.append(" ");
        push_i32(&mut cmd, y);
        cmd.append(",address:");
        cmd.append(address);
        Ok(cmd)
    }

    /// The dispatcher that resizes the window to exactly `width` x `height`.
    pub fn resize_window_command(id: &WindowId, width: u32, height: u32) -> (res: Result<
        String,
        Error,
    >)
        ensures
            match hyprland_address(*id) {
                Some(a) => res matches Ok(cmd) && cmd@ == "resizewindowpixel exact "@ + decimal(
                    width as nat,
                ) + " "@ + decimal(height as nat) + ",address:"@ + a@,
                None => res matches Err(Error::WindowGone),
            },
    {
        let address = Self::address(id)?;
        let mut cmd = String::from_str("resizewindowpixel exact ");
        push_u32(&mut cmd, width);
        cmd.append(" ");
        push_u32(&mut cmd, height);
        cmd.append(",address:");
        cmd.append(address);
        Ok(cmd)
    }

    /// The windows that the clients of `hyprctl clients -j` stand for, in
    /// the same order.
    pub fn windows_from_clients(clients: Vec<HyprClient>) -> (windows: Vec<WindowInfo>)
        ensures
            windows@ == clients@.map_values(|c: HyprClient| window_from_client(c)),
    {
        let ghost all = clients@;
        let mut rest = clients;
        let mut windows: Vec<WindowInfo> = Vec::new();
        while rest.len() > 0
            invariant
                windows.len() + rest.len() == all.len(),
                rest@ == all.subrange(windows.len() as int, all.len() as int),
                forall|i: int|
                    0 <= i < windows.len() ==> #[trigger] windows@[i] == window_from_client(all[i]),
            decreases rest.len(),
        {
            let c = rest.remove(0);
            windows.push(
                WindowInfo {
                    id: WindowId(Backing::Hyprland(c.address)),
                    title: c.title,
                    app_id: c.class,
                    geometry: Some(
                        Geometry { x: c.at.0, y: c.at.1, width: c.size.0, height: c.size.1 },
                    ),
                },
            );
        }
        assert(windows@ =~= all.map_values(|c: HyprClient| window_from_client(c)));
        windows
    }
}

} // verus!
