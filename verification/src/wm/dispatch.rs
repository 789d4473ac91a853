//! Event routing decisions of the window manager: map requests, unmaps
//! and property changes, decided over plain values before any request is
//! sent to the server.

use vstd::prelude::*;
use crate::client::{ManagedClient, WindowKind};
use crate::frame::model::FrameControl;
use crate::geometry::Rect;
use std::collections::HashMap;
use crate::frame::resources::{FrameEventTarget, FrameRegistry, FrameResources, child_seq};
use crate::wm::release::pointer_grab_target;

verus! {

broadcast use vstd::std_specs::hash::group_hash_axioms;

/// How a MapRequest is answered.
#[derive(Debug, Clone, Copy, PartialEq, Eq, Structural, Hash)]
pub enum MapRequestRoute {
    /// Already managed: map the client and its frame again.
    Remap,
    /// A popup is mapped unframed, above.
    MapAbove,
    /// A desktop window is mapped unframed, below.
    MapBelow,
    /// A dock is mapped unframed and its strut reserved.
    MapDock,
    /// A normal or utility window is framed.
    Manage,
}

pub open spec fn map_request_route_spec(kind: WindowKind, managed: bool) -> MapRequestRoute {
    if managed {
        MapRequestRoute::Remap
    } else {
        match kind {
            WindowKind::Popup => MapRequestRoute::MapAbove,
            WindowKind::Desktop => MapRequestRoute::MapBelow,
            WindowKind::Dock => MapRequestRoute::MapDock,
            WindowKind::Normal | WindowKind::Utility => MapRequestRoute::Manage,
        }
    }
}

pub fn map_request_route(kind: WindowKind, managed: bool) -> (r: MapRequestRoute)
    ensures
        r == map_request_route_spec(kind, managed),
{
    if managed {
        return MapRequestRoute::Remap;
    }
    match kind {
        WindowKind::Popup => MapRequestRoute::MapAbove,
        WindowKind::Desktop => MapRequestRoute::MapBelow,
        WindowKind::Dock => MapRequestRoute::MapDock,
        WindowKind::Normal | WindowKind::Utility => MapRequestRoute::Manage,
    }
}

/// A window seen mapped without a MapRequest is adopted only when it is
/// not the capture window, the root, or already known, is not
/// override-redirect (unknown attributes count as override-redirect), and
/// is a normal or utility window.
pub open spec fn adopt_mapped_spec(
    is_capture: bool,
    is_root: bool,
    known: bool,
    override_redirect: Option<bool>,
    kind: WindowKind,
) -> bool {
    !is_capture && !is_root && !known && override_redirect == Some(false) && (kind
        == WindowKind::Normal || kind == WindowKind::Utility)
}

pub fn adopt_mapped(
    is_capture: bool,
    is_root: bool,
    known: bool,
    override_redirect: Option<bool>,
    kind: WindowKind,
) -> (r: bool)
    ensures
        r == adopt_mapped_spec(is_capture, is_root, known, override_redirect, kind),
{
    if is_capture || is_root || known {
        return false;
    }
    match override_redirect {
        Some(false) => {},
        _ => return false,
    }
    match kind {
        WindowKind::Normal | WindowKind::Utility => true,
        _ => false,
    }
}

/// What an UnmapNotify does to a managed client: a pending self-inflicted
/// unmap is consumed; otherwise the client window's own unmap unmanages
/// it.
#[derive(Debug, Clone, Copy, PartialEq, Eq, Structural, Hash)]
pub enum UnmapOutcome {
    /// One expected unmap consumed; the counter left.
    Consumed(u8),
    /// The client withdrew: unmanage it.
    Unmanage,
    /// An unmap of some other window of the client: nothing to do.
    Ignore,
}

pub open spec fn unmap_outcome_spec(ignore_unmap: u8, is_client_window: bool) -> UnmapOutcome {
    if ignore_unmap > 0 {
        UnmapOutcome::Consumed((ignore_unmap - 1) as u8)
    } else if is_client_window {
        UnmapOutcome::Unmanage
    } else {
        UnmapOutcome::Ignore
    }
}

pub fn unmap_outcome(ignore_unmap: u8, is_client_window: bool) -> (r: UnmapOutcome)
    ensures
        r == unmap_outcome_spec(ignore_unmap, is_client_window),
{
    if ignore_unmap > 0 {
        UnmapOutcome::Consumed(ignore_unmap - 1)
    } else if is_client_window {
        UnmapOutcome::Unmanage
    } else {
        UnmapOutcome::Ignore
    }
}

/// The property atoms the window manager follows.
#[derive(Debug, Clone, Copy, PartialEq, Eq, Structural, Hash)]
pub struct PropertyAtoms {
    pub net_wm_strut: u32,
    pub net_wm_strut_partial: u32,
    pub net_wm_name: u32,
    pub wm_name: u32,
    pub net_wm_icon: u32,
    pub wm_transient_for: u32,
    pub wm_normal_hints: u32,
}

/// What a PropertyNotify refreshes.
#[derive(Debug, Clone, Copy, PartialEq, Eq, Structural, Hash)]
pub enum PropertyRoute {
    /// A dock changed its strut: recompute the work area.
    DockStrut,
    /// Re-read and repaint the title.
    Title,
    /// Re-read the identity and icon and repaint.
    Icon,
    /// Re-read the transient owner.
    TransientFor,
    /// Re-read the size hints and lay the input children out again.
    NormalHints,
    Ignore,
}

pub open spec fn property_route_spec(
    atoms: PropertyAtoms,
    atom: u32,
    is_dock: bool,
    managed: bool,
) -> PropertyRoute {
    if is_dock && (atom == atoms.net_wm_strut || atom == atoms.net_wm_strut_partial) {
        PropertyRoute::DockStrut
    } else if !managed {
        PropertyRoute::Ignore
    } else if atom == atoms.net_wm_name || atom == atoms.wm_name {
        PropertyRoute::Title
    } else if atom == atoms.net_wm_icon {
        PropertyRoute::Icon
    } else if atom == atoms.wm_transient_for {
        PropertyRoute::TransientFor
    } else if atom == atoms.wm_normal_hints {
        PropertyRoute::NormalHints
    } else {
        PropertyRoute::Ignore
    }
}

pub fn property_route(atoms: PropertyAtoms, atom: u32, is_dock: bool, managed: bool) -> (r:
    PropertyRoute)
    ensures
        r == property_route_spec(atoms, atom, is_dock, managed),
{
    if is_dock && (atom == atoms.net_wm_strut || atom == atoms.net_wm_strut_partial) {
        return PropertyRoute::DockStrut;
    }
    if !managed {
        return PropertyRoute::Ignore;
    }
    if atom == atoms.net_wm_name || atom == atoms.wm_name {
        PropertyRoute::Title
    } else if atom == atoms.net_wm_icon {
        PropertyRoute::Icon
    } else if atom == atoms.wm_transient_for {
        PropertyRoute::TransientFor
    } else if atom == atoms.wm_normal_hints {
        PropertyRoute::NormalHints
    } else {
        PropertyRoute::Ignore
    }
}

/// Whether a `WM_PROTOCOLS` value lists `protocol`.
pub fn protocols_contain(values: &[u32], protocol: u32) -> (r: bool)
    ensures
        r == values@.contains(protocol),
{
    let mut i: usize = 0;
    while i < values.len()
        invariant
            i <= values@.len(),
            forall|j: int| 0 <= j < i ==> values@[j] != protocol,
        decreases values@.len() - i,
    {
        if values[i] == protocol {
            proof {
                assert(values@[i as int] == protocol);
            }
            return true;
        }
        i += 1;
    }
    false
}

/// Focusing raises the frame unless the window is a utility window
/// without a transient owner.
pub fn raises_on_focus(kind: WindowKind, transient_for: Option<u32>) -> (r: bool)
    ensures
        r == (kind != WindowKind::Utility || transient_for is Some),
{
    let utility = match kind {
        WindowKind::Utility => true,
        _ => false,
    };
    !utility || transient_for.is_some()
}

/// Minimize (`minimized == true`) or restore a client record: a change
/// flips the flag and expects one more self-inflicted unmap/map; asking
/// for the current state changes nothing. Returns whether it changed.
pub fn set_minimized(state: &mut ManagedClient, minimized: bool) -> (changed: bool)
    ensures
        changed == (old(state).minimized != minimized),
        *final(state) == (if changed {
            ManagedClient {
                minimized,
                ignore_unmap: if old(state).ignore_unmap < 0xff {
                    (old(state).ignore_unmap + 1) as u8
                } else {
                    0xffu8
                },
                ..*old(state)
            }
        } else {
            *old(state)
        }),
{
    if state.minimized == minimized {
        return false;
    }
    state.minimized = minimized;
    state.ignore_unmap = if state.ignore_unmap < 0xff { state.ignore_unmap + 1 } else { 0xff };
    true
}

/// The size a frame is configured with: at least 1 wide and taller than
/// the titlebar.
pub fn frame_configure_size(outer: Rect, titlebar_h: u16) -> (r: (u32, u32))
    ensures
        r == (
            if outer.width >= 1 { outer.width } else { 1u32 },
            if outer.height >= titlebar_h + 1 { outer.height } else { (titlebar_h + 1) as u32 },
        ),
{
    let min_h: u32 = titlebar_h as u32 + 1;
    (if outer.width >= 1 { outer.width } else { 1 }, if outer.height >= min_h { outer.height } else { min_h })
}

/// The managed client a window belongs to: the client itself, the owner
/// of a frame, or the owner of a registered input child.
pub open spec fn client_for_spec(
    clients: Map<u32, ManagedClient>,
    frame_to_client: Map<u32, u32>,
    targets: Map<u32, FrameEventTarget>,
    window: u32,
) -> Option<u32> {
    if clients.contains_key(window) {
        Some(window)
    } else if frame_to_client.contains_key(window) {
        Some(frame_to_client[window])
    } else if targets.contains_key(window) {
        Some(targets[window].client)
    } else {
        None
    }
}

pub fn client_for(
    clients: &HashMap<u32, ManagedClient>,
    frame_to_client: &HashMap<u32, u32>,
    registry: &FrameRegistry,
    window: u32,
) -> (r: Option<u32>)
    ensures
        r == client_for_spec(clients@, frame_to_client@, registry.targets(), window),
{
    if clients.contains_key(&window) {
        return Some(window);
    }
    match frame_to_client.get(&window) {
        Some(c) => Some(*c),
        None => match registry.lookup_by_xid(window) {
            Some(t) => Some(t.client),
            None => None,
        },
    }
}

/// A grab target is live when it belongs (through the frame map) to a
/// managed client whose registered frame matches its record, and it is
/// that frame or one of its input children.
pub open spec fn live_grab_spec(
    clients: Map<u32, ManagedClient>,
    frame_to_client: Map<u32, u32>,
    registered: Map<u32, FrameResources>,
    requested: u32,
) -> Option<u32> {
    if frame_to_client.contains_key(requested) {
        let c = frame_to_client[requested];
        if clients.contains_key(c) && registered.contains_key(c) {
            let res = registered[c];
            if clients[c].frame == res.frame && (requested == res.frame || child_seq(res).contains(
                requested,
            )) {
                Some(requested)
            } else {
                None
            }
        } else {
            None
        }
    } else {
        None
    }
}

pub fn live_pointer_grab_target(
    clients: &HashMap<u32, ManagedClient>,
    frame_to_client: &HashMap<u32, u32>,
    registry: &FrameRegistry,
    requested: u32,
) -> (r: Option<u32>)
    ensures
        r == live_grab_spec(clients@, frame_to_client@, registry.clients(), requested),
{
    let c = match frame_to_client.get(&requested) {
        Some(c) => *c,
        None => return None,
    };
    let frame = match clients.get(&c) {
        Some(state) => state.frame,
        None => return None,
    };
    let resources = match registry.lookup_by_client(c) {
        Some(res) => res,
        None => return None,
    };
    if frame == resources.frame && pointer_grab_target(requested, resources) {
        Some(requested)
    } else {
        None
    }
}

/// Record the hovered control; returns whether it changed (the frame is
/// repainted only then).
pub fn set_hover(state: &mut ManagedClient, hover: Option<FrameControl>) -> (changed: bool)
    ensures
        changed == (old(state).hover_control != hover),
        *final(state) == (ManagedClient { hover_control: hover, ..*old(state) }),
{
    let changed = match (state.hover_control, hover) {
        (Some(a), Some(b)) => a != b,
        (None, None) => false,
        _ => true,
    };
    state.hover_control = hover;
    changed
}

} // verus!
