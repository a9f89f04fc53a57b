//! Wayland backend logic. No single protocol lets one client see and act
//! on another's windows on every compositor, so this backend speaks
//! whichever of three extensions the compositor advertises, preferring the
//! richest one:
//!
//! 1. `org_kde_plasma_window_management` (KDE Plasma): list, focus, close.
//!    Only one client can bind it at a time, and there is no way to detect
//!    in advance that another already has.
//! 2. `zwlr_foreign_toplevel_manager_v1` (wlroots-based compositors such as
//!    Sway): list, focus (which needs a seat), close.
//! 3. `ext_foreign_toplevel_list_v1` (recent Mutter and KWin): list only;
//!    focusing and closing report [`Error::Unsupported`].
//!
//! A compositor that advertises none of the three still accepts the display
//! connection, but window operations there report [`Error::Unsupported`].
//! Moving and resizing another client's surface has no protocol at all on
//! any Wayland compositor; those two operations always report
//! [`Error::Unsupported`].
//!
//! [`WaylandState`] is the client-side record of what the compositor has
//! announced (globals and toplevels); the caller feeds it the protocol
//! events and performs the requests it decides on.
use vstd::prelude::*;

use crate::backend::Backend;
use crate::error::Error;
use crate::text::str_eq;
use crate::window::{Backing, WindowId, WindowInfo};

verus! {

/// A protocol through which toplevels are announced.
#[derive(Debug, Clone, Copy, PartialEq, Eq, Structural)]
pub enum ToplevelProtocol {
    /// `org_kde_plasma_window_management`
    PlasmaWindowManagement,
    /// `zwlr_foreign_toplevel_manager_v1`
    WlrForeignToplevel,
    /// `ext_foreign_toplevel_list_v1`
    ExtForeignToplevelList,
}

/// The `state` bit of `org_kde_plasma_window.set_state` that makes a window
/// active (focused).
pub const PLASMA_STATE_ACTIVE: u32 = 0x1;

/// An event about one toplevel handle.
pub enum ToplevelEvent {
    Title(String),
    AppId(String),
    Closed,
    /// Any other event (state, output, parent, done); nothing is recorded.
    Other,
}

/// What is known of one toplevel.
pub struct ToplevelView {
    /// Protocol object id of its handle.
    pub id: u32,
    pub title: Seq<char>,
    pub app_id: Seq<char>,
    pub closed: bool,
}

/// The globals advertised and bound so far. Each toplevel protocol that
/// was advertised is held as its registry name and advertised version.
#[derive(Debug, Clone, Copy)]
pub struct Globals {
    pub plasma: Option<(u32, u32)>,
    pub wlr: Option<(u32, u32)>,
    pub ext: Option<(u32, u32)>,
    /// The toplevel protocol chosen and bound, if any.
    pub bound: Option<ToplevelProtocol>,
    /// Whether a seat was advertised (and bound).
    pub has_seat: bool,
}

/// What the compositor has announced so far.
pub struct WaylandStateView {
    pub globals: Globals,
    pub toplevels: Seq<ToplevelView>,
}

struct ToplevelEntry {
    id: u32,
    title: String,
    app_id: String,
    closed: bool,
}

impl View for ToplevelEntry {
    type V = ToplevelView;

    closed spec fn view(&self) -> ToplevelView {
        ToplevelView { id: self.id, title: self.title@, app_id: self.app_id@, closed: self.closed }
    }
}

/// The client-side record of the globals advertised and bound and of the
/// toplevels announced by the chosen protocol.
pub struct WaylandState {
    globals: Globals,
    toplevels: Vec<ToplevelEntry>,
}

/// The entries' views, in order.
spec fn entry_views(entries: Seq<ToplevelEntry>) -> Seq<ToplevelView> {
    entries.map_values(|e: ToplevelEntry| e@)
}

impl View for WaylandState {
    type V = WaylandStateView;

    closed spec fn view(&self) -> WaylandStateView {
        WaylandStateView { globals: self.globals, toplevels: entry_views(self.toplevels@) }
    }
}

/// The highest version of each toplevel protocol this crate speaks (for
/// Plasma, the last version that announces windows by the `window` event
/// alone).
pub open spec fn version_cap(protocol: ToplevelProtocol) -> u32 {
    match protocol {
        ToplevelProtocol::PlasmaWindowManagement => 12,
        ToplevelProtocol::WlrForeignToplevel => 3,
        ToplevelProtocol::ExtForeignToplevelList => 1,
    }
}

/// The smaller of an advertised version and a cap.
pub open spec fn capped(advertised: u32, cap: u32) -> u32 {
    if advertised < cap {
        advertised
    } else {
        cap
    }
}

/// The toplevel protocol an interface name stands for, if any.
pub open spec fn protocol_for(interface: Seq<char>) -> Option<ToplevelProtocol> {
    if interface == "org_kde_plasma_window_management"@ {
        Some(ToplevelProtocol::PlasmaWindowManagement)
    } else if interface == "zwlr_foreign_toplevel_manager_v1"@ {
        Some(ToplevelProtocol::WlrForeignToplevel)
    } else if interface == "ext_foreign_toplevel_list_v1"@ {
        Some(ToplevelProtocol::ExtForeignToplevelList)
    } else {
        None
    }
}

/// The globals after the registry advertised `interface` under `name` at
/// `version`: a toplevel protocol is remembered (the latest advertisement
/// wins), a seat is recorded as bound, anything else is ignored.
pub open spec fn advertise(g: Globals, interface: Seq<char>, name: u32, version: u32) -> Globals {
    match protocol_for(interface) {
        Some(ToplevelProtocol::PlasmaWindowManagement) => Globals { plasma: Some((name, version)), ..g },
        Some(ToplevelProtocol::WlrForeignToplevel) => Globals { wlr: Some((name, version)), ..g },
        Some(ToplevelProtocol::ExtForeignToplevelList) => Globals { ext: Some((name, version)), ..g },
        None => if interface == "wl_seat"@ {
            Globals { has_seat: true, ..g }
        } else {
            g
        },
    }
}

/// The richest advertised toplevel protocol, with its registry name and the
/// version to bind it at: Plasma, else wlr, else ext.
pub open spec fn richest(g: Globals) -> Option<(ToplevelProtocol, u32, u32)> {
    match g.plasma {
        Some((n, v)) => Some((ToplevelProtocol::PlasmaWindowManagement, n, capped(v, version_cap(ToplevelProtocol::PlasmaWindowManagement)))),
        None => match g.wlr {
            Some((n, v)) => Some((ToplevelProtocol::WlrForeignToplevel, n, capped(v, version_cap(ToplevelProtocol::WlrForeignToplevel)))),
            None => match g.ext {
                Some((n, v)) => Some((ToplevelProtocol::ExtForeignToplevelList, n, capped(v, version_cap(ToplevelProtocol::ExtForeignToplevelList)))),
                None => None,
            },
        },
    }
}

/// `i` is the first index of `s` whose entry has id `id`.
pub open spec fn is_first_with_id(s: Seq<ToplevelView>, id: u32, i: int) -> bool {
    &&& 0 <= i < s.len()
    &&& s[i].id == id
    &&& forall|j: int| 0 <= j < i ==> s[j].id != id
}

/// No entry of `s` has id `id`.
pub open spec fn lacks_id(s: Seq<ToplevelView>, id: u32) -> bool {
    forall|j: int| 0 <= j < s.len() ==> s[j].id != id
}

/// An entry of `s` that is still open has id `id`.
pub open spec fn has_open(s: Seq<ToplevelView>, id: u32) -> bool {
    exists|i: int| 0 <= i < s.len() && s[i].id == id && !s[i].closed
}

/// At most one entry of `s` has id `id`.
pub open spec fn id_unique(s: Seq<ToplevelView>, id: u32) -> bool {
    forall|i: int, j: int| 0 <= i < s.len() && 0 <= j < s.len() && s[i].id == id && s[j].id == id ==> i == j
}

/// The toplevel after an event about it.
pub open spec fn apply_event(t: ToplevelView, event: ToplevelEvent) -> ToplevelView {
    match event {
        ToplevelEvent::Title(title) => ToplevelView { title: title@, ..t },
        ToplevelEvent::AppId(app_id) => ToplevelView { app_id: app_id@, ..t },
        ToplevelEvent::Closed => ToplevelView { closed: true, ..t },
        ToplevelEvent::Other => t,
    }
}

/// Whether a toplevel is still open.
pub open spec fn is_open(t: ToplevelView) -> bool {
    !t.closed
}

/// The Wayland handle id a window id carries, if it is a Wayland id.
pub open spec fn wayland_object(id: WindowId) -> Option<u32> {
    match id.0 {
        Backing::Wayland(object) => Some(object),
        _ => None,
    }
}

/// The window a toplevel is listed as: Wayland does not disclose foreign
/// window geometry to clients.
pub open spec fn listed_window(w: WindowInfo, t: ToplevelView) -> bool {
    &&& w.id == WindowId(Backing::Wayland(t.id))
    &&& w.title@ == t.title
    &&& w.app_id@ == t.app_id
    &&& w.geometry is None
}

/// The error for window operations on a compositor where no toplevel
/// protocol is bound.
pub open spec fn no_manager_error(e: Error) -> bool {
    e matches Error::Unsupported { backend, operation, reason } && backend == Backend::Wayland
        && operation@ == "window listing/control"@ && reason@
        == "compositor implements none of org_kde_plasma_window_management, wlr-foreign-toplevel-management and ext-foreign-toplevel-list-v1"@
}

/// The error for focusing or closing (`operation`) a window when only the
/// list-only ext protocol is bound.
pub open spec fn list_only_error(e: Error, operation: Seq<char>) -> bool {
    e matches Error::Unsupported { backend, operation: op, reason } && backend == Backend::Wayland
        && op@ == operation && reason@
        == "ext-foreign-toplevel-list-v1 only lists windows; it cannot act on them"@
}

/// What a window operation that acts on a window gives, once the protocol
/// allows it: the bound protocol and the handle, or `WindowGone`.
pub open spec fn target_result(
    res: Result<(ToplevelProtocol, u32), Error>,
    protocol: ToplevelProtocol,
    toplevels: Seq<ToplevelView>,
    id: WindowId,
) -> bool {
    match wayland_object(id) {
        Some(o) => if has_open(toplevels, o) {
            res == Ok::<(ToplevelProtocol, u32), Error>((protocol, o))
        } else {
            res matches Err(Error::WindowGone)
        },
        None => res matches Err(Error::WindowGone),
    }
}

/// Richest first: an advertised Plasma window management is always chosen,
/// whatever else is advertised; wlr is chosen exactly when it is advertised
/// and Plasma is not; the list-only ext protocol only when it is the one
/// advertised; nothing only when none is. The chosen protocol is bound
/// under its own registry name, at its advertised version capped at what
/// this crate speaks.
pub proof fn lemma_richest_protocol_first(g: Globals)
    ensures
        g.plasma matches Some((n, v)) ==> richest(g) == Some(
            (ToplevelProtocol::PlasmaWindowManagement, n, if v < 12 { v } else { 12u32 }),
        ),
        g.plasma is None ==> (g.wlr matches Some((n, v)) ==> richest(g) == Some(
            (ToplevelProtocol::WlrForeignToplevel, n, if v < 3 { v } else { 3u32 }),
        )),
        g.plasma is None && g.wlr is None ==> (g.ext matches Some((n, v)) ==> richest(g) == Some(
            (ToplevelProtocol::ExtForeignToplevelList, n, if v < 1 { v } else { 1u32 }),
        )),
        richest(g) is None <==> (g.plasma is None && g.wlr is None && g.ext is None),
        richest(g) matches Some((p, _, _)) && p == ToplevelProtocol::ExtForeignToplevelList ==> (
        g.plasma is None && g.wlr is None),
        richest(g) matches Some((p, _, _)) && p == ToplevelProtocol::WlrForeignToplevel ==> (
        g.plasma is None && g.wlr is Some),
        richest(g) matches Some((p, _, v)) ==> 1 <= version_cap(p) && v <= version_cap(p),
{
}

/// What an event does to a toplevel: a title event changes the title only,
/// an app id event the app id only, a closed event marks it closed and
/// nothing else; any other event changes nothing. No event but `Closed`
/// closes a toplevel, and no event changes its id.
pub proof fn lemma_event_changes_only_its_field(t: ToplevelView, event: ToplevelEvent)
    ensures
        apply_event(t, event).id == t.id,
        apply_event(t, event).closed == (t.closed || event is Closed),
        apply_event(t, event).title == (match event {
            ToplevelEvent::Title(s) => s@,
            _ => t.title,
        }),
        apply_event(t, event).app_id == (match event {
            ToplevelEvent::AppId(s) => s@,
            _ => t.app_id,
        }),
        event is Other ==> apply_event(t, event) == t,
{
}

/// Once the compositor reports a toplevel closed, its window id is gone:
/// operations on it fail with [`Error::WindowGone`] (the protocol id of a
/// live handle is held by one toplevel only).
pub proof fn lemma_closed_toplevel_is_gone(toplevels: Seq<ToplevelView>, id: u32, i: int)
    requires
        is_first_with_id(toplevels, id, i),
        id_unique(toplevels, id),
    ensures
        !has_open(toplevels.update(i, apply_event(toplevels[i], ToplevelEvent::Closed)), id),
{
    let after = toplevels.update(i, apply_event(toplevels[i], ToplevelEvent::Closed));
    assert forall|k: int| 0 <= k < after.len() && after[k].id == id implies after[k].closed by {
        if k != i {
            assert(toplevels[k].id == id);
        }
    }
}

/// After pruning, every recorded toplevel is open, so every listed window
/// id is accepted by the window operations.
pub proof fn lemma_pruned_windows_resolve(toplevels: Seq<ToplevelView>, i: int)
    requires
        0 <= i < toplevels.filter(|t: ToplevelView| is_open(t)).len(),
    ensures
        !toplevels.filter(|t: ToplevelView| is_open(t))[i].closed,
        has_open(
            toplevels.filter(|t: ToplevelView| is_open(t)),
            toplevels.filter(|t: ToplevelView| is_open(t))[i].id,
        ),
{
    toplevels.lemma_filter_pred(|t: ToplevelView| is_open(t), i);
}

impl WaylandState {
    /// Nothing announced yet.
    pub fn new() -> (state: WaylandState)
        ensures
            state@.globals == (Globals { plasma: None, wlr: None, ext: None, bound: None, has_seat: false }),
            state@.toplevels == Seq::<ToplevelView>::empty(),
    {
        let state = WaylandState {
            globals: Globals { plasma: None, wlr: None, ext: None, bound: None, has_seat: false },
            toplevels: Vec::new(),
        };
        assert(entry_views(state.toplevels@) =~= Seq::<ToplevelView>::empty());
        state
    }

    /// The registry advertised a global. A seat is bound at once: the
    /// version to bind it at (at most 1) is returned. A toplevel protocol is
    /// remembered for [`WaylandState::select_protocol`].
    pub fn global_advertised(&mut self, interface: &str, name: u32, version: u32) -> (seat_version: Option<u32>)
        ensures
            final(self)@.globals == advertise(old(self)@.globals, interface@, name, version),
            final(self)@.toplevels == old(self)@.toplevels,
            seat_version == (if protocol_for(interface@) is None && interface@ == "wl_seat"@ {
                Some(capped(version, 1))
            } else {
                None::<u32>
            }),
    {
        if str_eq(interface, "org_kde_plasma_window_management") {
            self.globals.plasma = Some((name, version));
            None
        } else if str_eq(interface, "zwlr_foreign_toplevel_manager_v1") {
            self.globals.wlr = Some((name, version));
            None
        } else if str_eq(interface, "ext_foreign_toplevel_list_v1") {
            self.globals.ext = Some((name, version));
            None
        } else if str_eq(interface, "wl_seat") {
            self.globals.has_seat = true;
            Some(if version < 1 { version } else { 1 })
        } else {
            None
        }
    }

    /// Choose the richest toplevel protocol advertised (Plasma, else wlr,
    /// else ext) and record it as bound. Returns it with the registry name
    /// and version to bind it at; `None` when none was advertised.
    pub fn select_protocol(&mut self) -> (chosen: Option<(ToplevelProtocol, u32, u32)>)
        ensures
            chosen == richest(old(self)@.globals),
            final(self)@.globals == (match chosen {
                Some((p, _, _)) => Globals { bound: Some(p), ..old(self)@.globals },
                None => old(self)@.globals,
            }),
            final(self)@.toplevels == old(self)@.toplevels,
    {
        let chosen = match self.globals.plasma {
            Some((n, v)) => Some((ToplevelProtocol::PlasmaWindowManagement, n, if v < 12 { v } else { 12 })),
            None => match self.globals.wlr {
                Some((n, v)) => Some((ToplevelProtocol::WlrForeignToplevel, n, if v < 3 { v } else { 3 })),
                None => match self.globals.ext {
                    Some((n, v)) => Some((ToplevelProtocol::ExtForeignToplevelList, n, if v < 1 { v } else { 1 })),
                    None => None,
                },
            },
        };
        if let Some((p, _, _)) = chosen {
            self.globals.bound = Some(p);
        }
        chosen
    }

    /// The manager announced a new toplevel, whose handle has protocol id
    /// `id`: it is recorded with no title or app id yet.
    pub fn toplevel_created(&mut self, id: u32)
        ensures
            final(self)@.globals == old(self)@.globals,
            final(self)@.toplevels == old(self)@.toplevels.push(
                ToplevelView { id, title: Seq::empty(), app_id: Seq::empty(), closed: false },
            ),
    {
        let entry = ToplevelEntry { id, title: String::new(), app_id: String::new(), closed: false };
        self.toplevels.push(entry);
        assert(entry_views(self.toplevels@) =~= entry_views(old(self).toplevels@).push(
            ToplevelView { id, title: Seq::empty(), app_id: Seq::empty(), closed: false },
        ));
    }

    /// An event arrived for the toplevel whose handle has protocol id `id`;
    /// it updates the first entry with that id (if there is none, nothing
    /// changes).
    pub fn toplevel_event(&mut self, id: u32, event: ToplevelEvent)
        ensures
            final(self)@.globals == old(self)@.globals,
            lacks_id(old(self)@.toplevels, id) ==> final(self)@.toplevels == old(self)@.toplevels,
            forall|i: int|
                is_first_with_id(old(self)@.toplevels, id, i) ==> final(self)@.toplevels
                    == old(self)@.toplevels.update(i, apply_event(old(self)@.toplevels[i], event)),
            final(self)@.toplevels.len() == old(self)@.toplevels.len(),
            forall|i: int|
                #![trigger final(self)@.toplevels[i]]
                is_first_with_id(old(self)@.toplevels, id, i) ==> {
                    &&& final(self)@.toplevels[i].id == id
                    &&& final(self)@.toplevels[i].closed == (old(self)@.toplevels[i].closed
                        || event is Closed)
                    &&& final(self)@.toplevels[i].title == (match event {
                        ToplevelEvent::Title(s) => s@,
                        _ => old(self)@.toplevels[i].title,
                    })
                    &&& final(self)@.toplevels[i].app_id == (match event {
                        ToplevelEvent::AppId(s) => s@,
                        _ => old(self)@.toplevels[i].app_id,
                    })
                },
            forall|j: int|
                0 <= j < old(self)@.toplevels.len() && !is_first_with_id(old(self)@.toplevels, id, j)
                    ==> #[trigger] final(self)@.toplevels[j] == old(self)@.toplevels[j],
    {
        let ghost before = entry_views(self.toplevels@);
        let n = self.toplevels.len();
        let mut i: usize = 0;
        while i < n && self.toplevels[i].id != id
            invariant
                n == self.toplevels.len(),
                before == entry_views(self.toplevels@),
                i <= n,
                forall|j: int| 0 <= j < i ==> before[j].id != id,
            decreases n - i,
        {
            i = i + 1;
        }
        if i == n {
            return;
        }
        assert(is_first_with_id(before, id, i as int));
        let old_title = self.toplevels[i].title.clone();
        let old_app_id = self.toplevels[i].app_id.clone();
        let closed = self.toplevels[i].closed;
        let updated = match event {
            ToplevelEvent::Title(title) => ToplevelEntry { id, title, app_id: old_app_id, closed },
            ToplevelEvent::AppId(app_id) => ToplevelEntry { id, title: old_title, app_id, closed },
            ToplevelEvent::Closed => ToplevelEntry { id, title: old_title, app_id: old_app_id, closed: true },
            ToplevelEvent::Other => ToplevelEntry { id, title: old_title, app_id: old_app_id, closed },
        };
        assert(updated@ == apply_event(before[i as int], event));
        self.toplevels.set(i, updated);
        assert(entry_views(self.toplevels@) =~= before.update(i as int, apply_event(before[i as int], event)));
        assert forall|k: int| is_first_with_id(before, id, k) implies k == i by {}
    }

    /// Window operations need a bound toplevel protocol; without one they
    /// are unsupported on this compositor.
    pub fn require_manager(&self) -> (res: Result<(), Error>)
        ensures
            res is Ok <==> self@.globals.bound is Some,
            res matches Err(e) ==> no_manager_error(e),
    {
        if self.globals.bound.is_none() {
            return Err(
                Error::Unsupported {
                    backend: Backend::Wayland,
                    operation: "window listing/control",
                    reason: "compositor implements none of org_kde_plasma_window_management, wlr-foreign-toplevel-management and ext-foreign-toplevel-list-v1",
                },
            );
        }
        Ok(())
    }

    /// Forget the toplevels that have been closed (after a round trip has
    /// delivered the latest events).
    pub fn prune_closed(&mut self)
        ensures
            final(self)@.globals == old(self)@.globals,
            final(self)@.toplevels == old(self)@.toplevels.filter(|t: ToplevelView| is_open(t)),
    {
        let ghost all = entry_views(self.toplevels@);
        let mut rest: Vec<ToplevelEntry> = Vec::new();
        std::mem::swap(&mut rest, &mut self.toplevels);
        let ghost total = rest.len();
        let ghost mut taken: int = 0;
        assert(all.subrange(0, total as int) =~= all);
        assert(entry_views(self.toplevels@) =~= all.take(0).filter(|t: ToplevelView| is_open(t))) by {
            reveal(Seq::filter);
        }
        while rest.len() > 0
            invariant
                all == entry_views(old(self).toplevels@),
                total == all.len(),
                0 <= taken <= total,
                taken + rest.len() == total,
                entry_views(rest@) == all.subrange(taken, total as int),
                entry_views(self.toplevels@) == all.take(taken).filter(|t: ToplevelView| is_open(t)),
                self.globals == old(self).globals,
            decreases rest.len(),
        {
            let ghost rest_before = rest@;
            let entry = rest.remove(0);
            let ghost v = entry@;
            assert(entry_views(rest_before)[0] == v);
            assert(v == all[taken]);
            proof {
                reveal(Seq::filter);
                assert(all.take(taken + 1).drop_last() =~= all.take(taken));
                assert(all.take(taken + 1).last() == v);
            }
            let ghost prev = entry_views(self.toplevels@);
            if !entry.closed {
                self.toplevels.push(entry);
                assert(entry_views(self.toplevels@) =~= prev.push(v));
            }
            proof {
                assert(rest@ =~= rest_before.drop_first());
                assert(entry_views(rest@) =~= entry_views(rest_before).drop_first());
                taken = taken + 1;
                assert(entry_views(rest@) =~= all.subrange(taken, total as int));
            }
        }
        assert(all.take(total as int) =~= all);
    }

    /// The windows for the recorded toplevels, in order.
    pub fn windows(&self) -> (windows: Vec<WindowInfo>)
        ensures
            windows@.len() == self@.toplevels.len(),
            forall|i: int| 0 <= i < windows@.len() ==> listed_window(#[trigger] windows@[i], self@.toplevels[i]),
    {
        let mut windows: Vec<WindowInfo> = Vec::new();
        let n = self.toplevels.len();
        let mut i: usize = 0;
        while i < n
            invariant
                n == self.toplevels.len(),
                i <= n,
                windows@.len() == i,
                forall|k: int| 0 <= k < i ==> listed_window(#[trigger] windows@[k], entry_views(self.toplevels@)[k]),
            decreases n - i,
        {
            let entry = &self.toplevels[i];
            windows.push(
                WindowInfo {
                    id: WindowId(Backing::Wayland(entry.id)),
                    title: entry.title.clone(),
                    app_id: entry.app_id.clone(),
                    geometry: None,
                },
            );
            i = i + 1;
        }
        windows
    }

    /// The handle of the open toplevel a window id refers to.
    pub fn find_handle(&self, id: &WindowId) -> (res: Result<u32, Error>)
        ensures
            match wayland_object(*id) {
                Some(o) => if has_open(self@.toplevels, o) {
                    res == Ok::<u32, Error>(o)
                } else {
                    res matches Err(Error::WindowGone)
                },
                None => res matches Err(Error::WindowGone),
            },
    {
        let object = match &id.0 {
            Backing::Wayland(object) => *object,
            _ => return Err(Error::WindowGone),
        };
        let ghost s = entry_views(self.toplevels@);
        let n = self.toplevels.len();
        let mut i: usize = 0;
        while i < n
            invariant
                n == self.toplevels.len(),
                s == entry_views(self.toplevels@),
                wayland_object(*id) == Some(object),
                i <= n,
                forall|j: int| 0 <= j < i ==> !(s[j].id == object && !s[j].closed),
            decreases n - i,
        {
            if !self.toplevels[i].closed && self.toplevels[i].id == object {
                assert(s[i as int].id == object && !s[i as int].closed);
                assert(has_open(self@.toplevels, object));
                return Ok(object);
            }
            i = i + 1;
        }
        Err(Error::WindowGone)
    }

    /// The protocol and handle to activate for focusing the window. Plasma
    /// activates by setting the window's active state; wlr activates on a
    /// seat, so it needs one; the ext list cannot focus.
    pub fn focus_window(&self, id: &WindowId) -> (res: Result<(ToplevelProtocol, u32), Error>)
        ensures
            match self@.globals.bound {
                None => res matches Err(e) && no_manager_error(e),
                Some(ToplevelProtocol::ExtForeignToplevelList) => res matches Err(e)
                    && list_only_error(e, "focus_window"@),
                Some(ToplevelProtocol::WlrForeignToplevel) => if self@.globals.has_seat {
                    target_result(res, ToplevelProtocol::WlrForeignToplevel, self@.toplevels, *id)
                } else {
                    res matches Err(Error::Unsupported { backend, operation, reason }) && backend
                        == Backend::Wayland && operation@ == "focus_window"@ && reason@
                        == "no wl_seat was advertised by the compositor"@
                },
                Some(ToplevelProtocol::PlasmaWindowManagement) => target_result(
                    res,
                    ToplevelProtocol::PlasmaWindowManagement,
                    self@.toplevels,
                    *id,
                ),
            },
    {
        self.require_manager()?;
        let protocol = match self.globals.bound {
            Some(p) => p,
            None => return Err(Error::WindowGone),
        };
        match protocol {
            ToplevelProtocol::ExtForeignToplevelList => {
                return Err(
                    Error::Unsupported {
                        backend: Backend::Wayland,
                        operation: "focus_window",
                        reason: "ext-foreign-toplevel-list-v1 only lists windows; it cannot act on them",
                    },
                );
            },
            ToplevelProtocol::WlrForeignToplevel => {
                if !self.globals.has_seat {
                    return Err(
                        Error::Unsupported {
                            backend: Backend::Wayland,
                            operation: "focus_window",
                            reason: "no wl_seat was advertised by the compositor",
                        },
                    );
                }
            },
            ToplevelProtocol::PlasmaWindowManagement => {},
        }
        let object = self.find_handle(id)?;
        Ok((protocol, object))
    }

    /// The protocol and handle to ask to close for closing the window; the
    /// ext list cannot close.
    pub fn close_window(&self, id: &WindowId) -> (res: Result<(ToplevelProtocol, u32), Error>)
        ensures
            match self@.globals.bound {
                None => res matches Err(e) && no_manager_error(e),
                Some(ToplevelProtocol::ExtForeignToplevelList) => res matches Err(e)
                    && list_only_error(e, "close_window"@),
                Some(p) => target_result(res, p, self@.toplevels, *id),
            },
    {
        self.require_manager()?;
        let protocol = match self.globals.bound {
            Some(p) => p,
            None => return Err(Error::WindowGone),
        };
        if protocol == ToplevelProtocol::ExtForeignToplevelList {
            return Err(
                Error::Unsupported {
                    backend: Backend::Wayland,
                    operation: "close_window",
                    reason: "ext-foreign-toplevel-list-v1 only lists windows; it cannot act on them",
                },
            );
        }
        let object = self.find_handle(id)?;
        Ok((protocol, object))
    }

    /// Moving another client's window: Wayland has no protocol for it.
    pub fn move_window(&self, id: &WindowId, x: i32, y: i32) -> (res: Result<(), Error>)
        ensures
            res matches Err(Error::Unsupported { backend, operation, reason }) && backend
                == Backend::Wayland && operation@ == "move_window"@ && reason@
                == "Wayland has no protocol for one client to reposition another's surface"@,
    {
        Err(
            Error::Unsupported {
                backend: Backend::Wayland,
                operation: "move_window",
                reason: "Wayland has no protocol for one client to reposition another's surface",
            },
        )
    }

    /// Resizing another client's window: Wayland has no protocol for it.
    pub fn resize_window(&self, id: &WindowId, width: u32, height: u32) -> (res: Result<(), Error>)
        ensures
            res matches Err(Error::Unsupported { backend, operation, reason }) && backend
                == Backend::Wayland && operation@ == "resize_window"@ && reason@
                == "Wayland has no protocol for one client to resize another's surface"@,
    {
        Err(
            Error::Unsupported {
                backend: Backend::Wayland,
                operation: "resize_window",
                reason: "Wayland has no protocol for one client to resize another's surface",
            },
        )
    }
}

} // verus!
