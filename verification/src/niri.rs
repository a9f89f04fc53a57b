//! niri backend logic. niri's own JSON IPC can list windows, focus and close
//! them, and set a floating window's exact position and size. The IPC
//! exchange is done by the caller, which hands over the replies as the
//! plain values below.
use vstd::prelude::*;
use vstd::string::*;

use crate::error::Error;
use crate::window::{Backing, WindowId, WindowInfo};

verus! {

/// What this crate reads of one window in niri's windows reply.
pub struct NiriWindow {
    pub id: u64,
    pub title: Option<String>,
    pub app_id: Option<String>,
}

/// The reply to an action request.
pub enum ActionReply {
    /// The action was handled.
    Handled,
    /// Any other response, as its `{:?}` text.
    Unexpected(String),
}

/// The reply to the windows request.
pub enum WindowsReply {
    Windows(Vec<NiriWindow>),
    /// Any other response, as its `{:?}` text.
    Unexpected(String),
}

/// The niri window id a window id carries, if it is a niri id.
pub open spec fn niri_window_id(id: WindowId) -> Option<u64> {
    match id.0 {
        Backing::Niri(n) => Some(n),
        _ => None,
    }
}

/// The text of an optional string, empty when absent.
pub open spec fn text_or_empty(s: Option<String>) -> Seq<char> {
    match s {
        Some(t) => t@,
        None => Seq::empty(),
    }
}

/// The window a niri window entry is listed as: niri reports sizes but not
/// absolute screen positions, so no geometry.
pub open spec fn listed_niri_window(w: WindowInfo, n: NiriWindow) -> bool {
    &&& w.id == WindowId(Backing::Niri(n.id))
    &&& w.title@ == text_or_empty(n.title)
    &&& w.app_id@ == text_or_empty(n.app_id)
    &&& w.geometry is None
}

/// A window listed from niri's reply carries that window's niri id, which
/// the window operations accept.
pub proof fn lemma_listed_window_is_addressable(w: WindowInfo, n: NiriWindow)
    requires
        listed_niri_window(w, n),
    ensures
        niri_window_id(w.id) == Some(n.id),
{
}

/// The niri id of the window; ids of other backends are not niri windows.
pub fn window_id(id: &WindowId) -> (res: Result<u64, Error>)
    ensures
        match niri_window_id(*id) {
            Some(n) => res == Ok::<u64, Error>(n),
            None => res matches Err(Error::WindowGone),
        },
{
    match &id.0 {
        Backing::Niri(n) => Ok(*n),
        _ => Err(Error::WindowGone),
    }
}

fn text_or_default(s: Option<String>) -> (t: String)
    ensures
        t@ == text_or_empty(s),
{
    match s {
        Some(t) => t,
        None => String::new(),
    }
}

/// A size as niri's fixed-size change takes it: the 32-bit value
/// reinterpreted as signed (values above `i32::MAX` wrap).
pub fn fixed_size(size: u32) -> (fixed: i32)
    ensures
        fixed == size as i32,
{
    size as i32
}

/// Resizing sends the width first, then the height only if the width was
/// handled: the height to send next, or the width's error.
pub fn height_after_width(width_outcome: Result<(), Error>, height: u32) -> (next: Result<i32, Error>)
    ensures
        match width_outcome {
            Ok(()) => next == Ok::<i32, Error>(height as i32),
            Err(e) => next == Err::<i32, Error>(e),
        },
{
    match width_outcome {
        Ok(()) => Ok(fixed_size(height)),
        Err(e) => Err(e),
    }
}

/// Read the reply to an action request: only `Handled` is success.
pub fn dispatch_outcome(reply: ActionReply) -> (res: Result<(), Error>)
    ensures
        reply is Handled ==> res is Ok,
        reply matches ActionReply::Unexpected(d) ==> (res matches Err(Error::Protocol(m)) && m@
            == "unexpected reply from niri action request: "@ + d@),
{
    match reply {
        ActionReply::Handled => Ok(()),
        ActionReply::Unexpected(debug) => {
            let mut message = String::from_str("unexpected reply from niri action request: ");
            message.append(debug.as_str());
            Err(Error::Protocol(message))
        },
    }
}

/// Read the reply to the windows request into window descriptions, in the
/// order niri gave them.
pub fn windows_outcome(reply: WindowsReply) -> (res: Result<Vec<WindowInfo>, Error>)
    ensures
        match reply {
            WindowsReply::Windows(ws) => res matches Ok(infos) && infos@.len() == ws@.len() && (
            forall|i: int| 0 <= i < ws@.len() ==> listed_niri_window(#[trigger] infos@[i], ws@[i])),
            WindowsReply::Unexpected(d) => res matches Err(Error::Protocol(m)) && m@
                == "unexpected reply from niri windows request: "@ + d@,
        },
{
    match reply {
        WindowsReply::Windows(windows) => {
            let ghost all = windows@;
            let mut rest = windows;
            let mut infos: Vec<WindowInfo> = Vec::new();
            while rest.len() > 0
                invariant
                    infos.len() + rest.len() == all.len(),
                    rest@ == all.subrange(infos.len() as int, all.len() as int),
                    forall|i: int|
                        0 <= i < infos.len() ==> listed_niri_window(#[trigger] infos@[i], all[i]),
                decreases rest.len(),
            {
                let w = rest.remove(0);
                infos.push(
                    WindowInfo {
                        id: WindowId(Backing::Niri(w.id)),
                        title: text_or_default(w.title),
                        app_id: text_or_default(w.app_id),
                        geometry: None,
                    },
                );
            }
            Ok(infos)
        },
        WindowsReply::Unexpected(debug) => {
            let mut message = String::from_str("unexpected reply from niri windows request: ");
            message.append(debug.as_str());
            Err(Error::Protocol(message))
        },
    }
}

} // verus!
