//! Frame resource registry: the owner of per-client frame XIDs.
//!
//! Declares which XIDs a managed client's frame owns, which masks and
//! cursors each child needs, and keeps the client-to-resources and
//! child-to-target mappings, with removal that leaves no orphan mapping.
//! The window manager applies the described effects against the server.

use vstd::prelude::*;
use std::collections::HashMap;
use crate::cursor::CursorKind;
use crate::frame::model::{
    FrameControl, FrameRegion, ResizeEdges, edges, edges_is_corner,
};

verus! {

broadcast use {vstd::std_specs::hash::group_hash_axioms, vstd::seq_lib::lemma_seq_contains_after_push};

/// X11 event-mask bits (the window manager selects them verbatim).
pub const MASK_BUTTON_PRESS: u32 = 0x4;
pub const MASK_BUTTON_RELEASE: u32 = 0x8;
pub const MASK_ENTER_WINDOW: u32 = 0x10;
pub const MASK_LEAVE_WINDOW: u32 = 0x20;
pub const MASK_POINTER_MOTION: u32 = 0x40;
pub const MASK_EXPOSURE: u32 = 0x8000;

/// Mask for every frame input child: press, release, motion, enter, leave
/// (so hover state clears on exit) and exposure.
pub const INPUT_CHILD_EVENT_MASK: u32 = 0x807c;

/// Cursor for a resize edge set: top/bottom vertical, left/right
/// horizontal, top-left and bottom-right NW-SE, top-right and bottom-left
/// NE-SW.
pub open spec fn cursor_edges_spec(e: ResizeEdges) -> CursorKind {
    if edges_is_corner(e) {
        if (e.left && e.top) || (e.right && e.bottom) {
            CursorKind::ResizeNorthWestSouthEast
        } else {
            CursorKind::ResizeNorthEastSouthWest
        }
    } else if e.top || e.bottom {
        CursorKind::ResizeVertical
    } else if e.left || e.right {
        CursorKind::ResizeHorizontal
    } else {
        CursorKind::Default
    }
}

/// Cursor for a frame region: resize zones by edge, title drag moves,
/// controls and the client keep the default.
pub open spec fn cursor_region_spec(region: FrameRegion) -> CursorKind {
    match region {
        FrameRegion::Resize(e) => cursor_edges_spec(e),
        FrameRegion::TitleDrag => CursorKind::Move,
        _ => CursorKind::Default,
    }
}

pub fn cursor_for_region(region: FrameRegion) -> (r: CursorKind)
    ensures
        r == cursor_region_spec(region),
{
    match region {
        FrameRegion::Resize(e) => cursor_for_edges(e),
        FrameRegion::TitleDrag => CursorKind::Move,
        FrameRegion::Control(_) | FrameRegion::Client => CursorKind::Default,
    }
}

pub fn cursor_for_edges(e: ResizeEdges) -> (r: CursorKind)
    ensures
        r == cursor_edges_spec(e),
{
    if e.is_corner() {
        if (e.left && e.top) || (e.right && e.bottom) {
            CursorKind::ResizeNorthWestSouthEast
        } else {
            CursorKind::ResizeNorthEastSouthWest
        }
    } else if e.top || e.bottom {
        CursorKind::ResizeVertical
    } else if e.left || e.right {
        CursorKind::ResizeHorizontal
    } else {
        CursorKind::Default
    }
}

/// Where a native event on a frame input child routes.
#[derive(Debug, Clone, Copy, PartialEq, Eq, Structural, Hash)]
pub struct FrameEventTarget {
    pub client: u32,
    pub region: FrameRegion,
}

/// XIDs owned for one client: frame parent + 12 input children. `resize`
/// is in corner-first order (top-left, top-right, bottom-left,
/// bottom-right, top, bottom, left, right); `controls` is minimize,
/// maximize/restore, close.
#[derive(Debug, Clone, Copy, PartialEq, Eq, Hash)]
pub struct FrameResources {
    pub client: u32,
    pub frame: u32,
    pub title_drag: u32,
    pub controls: [u32; 3],
    pub resize: [u32; 8],
}

/// The 12 input children: resize zones, title drag, controls.
pub open spec fn child_seq(r: FrameResources) -> Seq<u32> {
    seq![
        r.resize[0], r.resize[1], r.resize[2], r.resize[3],
        r.resize[4], r.resize[5], r.resize[6], r.resize[7],
        r.title_drag, r.controls[0], r.controls[1], r.controls[2],
    ]
}

/// The region of a child XID; the title drag wins, then controls left to
/// right, then resize zones in corner-first order.
pub open spec fn region_in(r: FrameResources, xid: u32) -> Option<FrameRegion> {
    if xid == r.title_drag {
        Some(FrameRegion::TitleDrag)
    } else if r.controls[0] == xid {
        Some(FrameRegion::Control(FrameControl::Minimize))
    } else if r.controls[1] == xid {
        Some(FrameRegion::Control(FrameControl::MaximizeRestore))
    } else if r.controls[2] == xid {
        Some(FrameRegion::Control(FrameControl::Close))
    } else if r.resize[0] == xid {
        Some(FrameRegion::Resize(edges(true, false, true, false)))
    } else if r.resize[1] == xid {
        Some(FrameRegion::Resize(edges(false, true, true, false)))
    } else if r.resize[2] == xid {
        Some(FrameRegion::Resize(edges(true, false, false, true)))
    } else if r.resize[3] == xid {
        Some(FrameRegion::Resize(edges(false, true, false, true)))
    } else if r.resize[4] == xid {
        Some(FrameRegion::Resize(edges(false, false, true, false)))
    } else if r.resize[5] == xid {
        Some(FrameRegion::Resize(edges(false, false, false, true)))
    } else if r.resize[6] == xid {
        Some(FrameRegion::Resize(edges(true, false, false, false)))
    } else if r.resize[7] == xid {
        Some(FrameRegion::Resize(edges(false, true, false, false)))
    } else {
        None
    }
}

/// Law: exactly the twelve children have a region.
pub proof fn lemma_region_iff_child(r: FrameResources, xid: u32)
    ensures
        region_in(r, xid) is Some <==> child_seq(r).contains(xid),
{
    if region_in(r, xid) is Some {
        let s = child_seq(r);
        if xid == r.title_drag {
            assert(s[8] == xid);
        } else if r.controls[0] == xid {
            assert(s[9] == xid);
        } else if r.controls[1] == xid {
            assert(s[10] == xid);
        } else if r.controls[2] == xid {
            assert(s[11] == xid);
        } else if r.resize[0] == xid {
            assert(s[0] == xid);
        } else if r.resize[1] == xid {
            assert(s[1] == xid);
        } else if r.resize[2] == xid {
            assert(s[2] == xid);
        } else if r.resize[3] == xid {
            assert(s[3] == xid);
        } else if r.resize[4] == xid {
            assert(s[4] == xid);
        } else if r.resize[5] == xid {
            assert(s[5] == xid);
        } else if r.resize[6] == xid {
            assert(s[6] == xid);
        } else {
            assert(s[7] == xid);
        }
    }
}

impl FrameResources {
    pub fn new(
        client: u32,
        frame: u32,
        title_drag: u32,
        controls: [u32; 3],
        resize: [u32; 8],
    ) -> (r: Self)
        ensures
            r == (FrameResources { client, frame, title_drag, controls, resize }),
    {
        FrameResources { client, frame, title_drag, controls, resize }
    }

    /// All 12 input-child XIDs (the frame parent excluded).
    pub fn children(self) -> (r: [u32; 12])
        ensures
            r@ == child_seq(self),
    {
        let r = [
            self.resize[0], self.resize[1], self.resize[2], self.resize[3],
            self.resize[4], self.resize[5], self.resize[6], self.resize[7],
            self.title_drag, self.controls[0], self.controls[1], self.controls[2],
        ];
        assert(r@ =~= child_seq(self));
        r
    }

    /// Region for an input-child XID within this resource set.
    pub fn region_of(self, xid: u32) -> (r: Option<FrameRegion>)
        ensures
            r == region_in(self, xid),
    {
        if xid == self.title_drag {
            return Some(FrameRegion::TitleDrag);
        }
        if self.controls[0] == xid {
            return Some(FrameRegion::Control(FrameControl::Minimize));
        }
        if self.controls[1] == xid {
            return Some(FrameRegion::Control(FrameControl::MaximizeRestore));
        }
        if self.controls[2] == xid {
            return Some(FrameRegion::Control(FrameControl::Close));
        }
        if self.resize[0] == xid {
            return Some(FrameRegion::Resize(ResizeEdges::top_left()));
        }
        if self.resize[1] == xid {
            return Some(FrameRegion::Resize(ResizeEdges::top_right()));
        }
        if self.resize[2] == xid {
            return Some(FrameRegion::Resize(ResizeEdges::bottom_left()));
        }
        if self.resize[3] == xid {
            return Some(FrameRegion::Resize(ResizeEdges::bottom_right()));
        }
        if self.resize[4] == xid {
            return Some(FrameRegion::Resize(ResizeEdges::top()));
        }
        if self.resize[5] == xid {
            return Some(FrameRegion::Resize(ResizeEdges::bottom()));
        }
        if self.resize[6] == xid {
            return Some(FrameRegion::Resize(ResizeEdges::left()));
        }
        if self.resize[7] == xid {
            return Some(FrameRegion::Resize(ResizeEdges::right()));
        }
        None
    }
}

/// Client XID to resources, child XID to event target, and the single
/// interaction-capture window (owned for the window manager's lifetime,
/// not per client).
#[derive(Debug)]
pub struct FrameRegistry {
    by_client: HashMap<u32, FrameResources>,
    by_xid: HashMap<u32, FrameEventTarget>,
    capture: Option<u32>,
}

/// The target a registered child XID routes to.
pub open spec fn target_of(r: FrameResources, xid: u32) -> FrameEventTarget {
    FrameEventTarget { client: r.client, region: region_in(r, xid).unwrap() }
}

/// Removing the keys of `gone` from a finite map shrinks it by the keys
/// that were there; by exactly the number of keys when they were all there
/// and distinct.
proof fn lemma_removal_count<V>(before: Map<u32, V>, after: Map<u32, V>, gone: Seq<u32>)
    requires
        before.dom().finite(),
        forall|x: u32| #[trigger] after.contains_key(x) <==> (before.contains_key(x) && !gone.contains(x)),
    ensures
        after.dom().finite(),
        after.len() == before.len() - before.dom().intersect(gone.to_set()).len(),
        gone.no_duplicates() && (forall|x: u32| #[trigger] gone.contains(x) ==> before.contains_key(x))
            ==> after.len() == before.len() - gone.len(),
{
    broadcast use vstd::seq_lib::seq_to_set_is_finite;
    let g = gone.to_set();
    assert(after.dom() =~= before.dom().difference(g));
    vstd::set_lib::lemma_set_difference_len(before.dom(), g);
    vstd::set_lib::lemma_len_difference(before.dom(), g);
    if gone.no_duplicates() && (forall|x: u32| #[trigger] gone.contains(x) ==> before.contains_key(x)) {
        assert(before.dom().intersect(g) =~= g);
        gone.unique_seq_to_set();
    }
}

/// A finite map that loses the keys of `gone` and gains those of `added`
/// has the domain that says; with nothing lost and distinct new keys, it
/// grows by exactly their number.
proof fn lemma_register_count<V>(before: Map<u32, V>, after: Map<u32, V>, gone: Seq<u32>, added: Seq<u32>)
    requires
        before.dom().finite(),
        forall|x: u32|
            added.contains(x) ==> #[trigger] after.contains_key(x),
        forall|x: u32|
            !added.contains(x) ==> (#[trigger] after.contains_key(x) <==> (before.contains_key(x) && !gone.contains(x))),
    ensures
        after.dom() == before.dom().difference(gone.to_set()) + added.to_set(),
        gone.len() == 0 && added.no_duplicates() && (forall|x: u32| #[trigger] added.contains(x) ==> !before.contains_key(x))
            ==> after.len() == before.len() + added.len(),
{
    broadcast use vstd::seq_lib::seq_to_set_is_finite;
    assert(after.dom() =~= before.dom().difference(gone.to_set()) + added.to_set());
    if gone.len() == 0 && added.no_duplicates() && (forall|x: u32| #[trigger] added.contains(x) ==> !before.contains_key(x)) {
        let a = added.to_set();
        assert(before.dom().difference(gone.to_set()) =~= before.dom());
        assert(before.dom().intersect(a) =~= Set::<u32>::empty());
        vstd::set_lib::lemma_set_intersect_union_lens(before.dom(), a);
        added.unique_seq_to_set();
    }
}

impl FrameRegistry {
    /// Registered clients and their resources.
    pub closed spec fn clients(&self) -> Map<u32, FrameResources> {
        self.by_client@
    }

    /// Child XIDs and where they route.
    pub closed spec fn targets(&self) -> Map<u32, FrameEventTarget> {
        self.by_xid@
    }

    /// The interaction-capture window.
    pub closed spec fn capture_xid(&self) -> Option<u32> {
        self.capture
    }

    /// The registry's invariant: both maps are finite, each client is filed
    /// under its own XID, and every child mapping points to a registered client that owns that
    /// child, with the region the client's resources give it (no orphan
    /// mapping).
    pub open spec fn wf(&self) -> bool {
        &&& self.clients().dom().finite()
        &&& self.targets().dom().finite()
        &&& forall|c: u32| #[trigger] self.clients().contains_key(c) ==> self.clients()[c].client == c
        &&& forall|x: u32|
            #[trigger] self.targets().contains_key(x) ==> {
                let t = self.targets()[x];
                &&& self.clients().contains_key(t.client)
                &&& child_seq(self.clients()[t.client]).contains(x)
                &&& t == target_of(self.clients()[t.client], x)
            }
    }

    pub fn new() -> (r: Self)
        ensures
            r.wf(),
            r.clients() == Map::<u32, FrameResources>::empty(),
            r.targets() == Map::<u32, FrameEventTarget>::empty(),
            r.capture_xid() == None::<u32>,
    {
        FrameRegistry { by_client: HashMap::new(), by_xid: HashMap::new(), capture: None }
    }

    /// Register a client's resources (re-registering first purges the old
    /// child mappings). Returns the displaced child XIDs, which the window
    /// manager destroys.
    pub fn register(&mut self, resources: FrameResources) -> (displaced: Vec<u32>)
        requires
            old(self).wf(),
        ensures
            final(self).wf(),
            final(self).clients() == old(self).clients().insert(resources.client, resources),
            displaced@ == (if old(self).clients().contains_key(resources.client) {
                child_seq(old(self).clients()[resources.client])
            } else {
                Seq::<u32>::empty()
            }),
            forall|x: u32|
                child_seq(resources).contains(x) ==> #[trigger] final(self).targets().contains_key(x)
                    && final(self).targets()[x] == target_of(resources, x),
            forall|x: u32|
                !child_seq(resources).contains(x) ==> (#[trigger] final(self).targets().contains_key(x)
                    <==> (old(self).targets().contains_key(x) && !displaced@.contains(x))),
            forall|x: u32|
                !child_seq(resources).contains(x) && #[trigger] final(self).targets().contains_key(x)
                    ==> final(self).targets()[x] == old(self).targets()[x],
            final(self).capture_xid() == old(self).capture_xid(),
            register_step(*old(self), *final(self), resources),
            final(self).targets().dom() == old(self).targets().dom().difference(displaced@.to_set())
                + child_seq(resources).to_set(),
            !old(self).clients().contains_key(resources.client) && child_seq(resources).no_duplicates()
                && (forall|x: u32| #[trigger] child_seq(resources).contains(x) ==> !old(self).targets().contains_key(x))
                ==> final(self).targets().len() == old(self).targets().len() + 12,
    {
        let ghost old_targets = self.by_xid@;
        let ghost old_clients = self.by_client@;
        let ghost old_capture = self.capture;
        let c = resources.client;
        let mut displaced: Vec<u32> = Vec::new();
        let previous = self.by_client.insert(c, resources);
        if let Some(prev) = previous {
            let olds = prev.children();
            let mut i: usize = 0;
            while i < 12
                invariant
                    0 <= i <= 12,
                    olds@ == child_seq(prev),
                    old_clients.contains_key(c) && old_clients[c] == prev,
                    self.by_client@ == old_clients.insert(c, resources),
                    self.capture == old_capture,
                    displaced@ == olds@.subrange(0, i as int),
                    forall|x: u32|
                        #[trigger] self.by_xid@.contains_key(x) <==> (old_targets.contains_key(x)
                            && !olds@.subrange(0, i as int).contains(x)),
                    forall|x: u32|
                        #[trigger] self.by_xid@.contains_key(x) ==> self.by_xid@[x] == old_targets[x],
                decreases 12 - i,
            {
                let xid = olds[i];
                self.by_xid.remove(&xid);
                displaced.push(xid);
                proof {
                    assert(olds@.subrange(0, i as int + 1) =~= olds@.subrange(0, i as int).push(xid));
                }
                i += 1;
            }
            assert(olds@.subrange(0, 12) =~= olds@);
        }
        let ghost mid = self.by_xid@;
        let news = resources.children();
        let mut j: usize = 0;
        while j < 12
            invariant
                0 <= j <= 12,
                news@ == child_seq(resources),
                resources.client == c,
                self.by_client@ == old_clients.insert(c, resources),
                self.capture == old_capture,
                forall|x: u32|
                    #[trigger] self.by_xid@.contains_key(x) <==> (mid.contains_key(x) || news@.subrange(
                        0,
                        j as int,
                    ).contains(x)),
                forall|x: u32|
                    news@.subrange(0, j as int).contains(x) ==> #[trigger] self.by_xid@.contains_key(x)
                        && self.by_xid@[x] == target_of(resources, x),
                forall|x: u32|
                    !news@.subrange(0, j as int).contains(x) && #[trigger] self.by_xid@.contains_key(x)
                        ==> self.by_xid@[x] == mid[x],
            decreases 12 - j,
        {
            let xid = news[j];
            proof {
                lemma_region_iff_child(resources, xid);
                assert(news@[j as int] == xid);
                assert(child_seq(resources).contains(xid));
            }
            let ghost before = self.by_xid@;
            if let Some(region) = resources.region_of(xid) {
                self.by_xid.insert(xid, FrameEventTarget { client: c, region });
            }
            proof {
                assert(news@.subrange(0, j as int + 1) =~= news@.subrange(0, j as int).push(xid));
                assert(self.by_xid@ == before.insert(xid, target_of(resources, xid)));
                assert forall|x: u32|
                    news@.subrange(0, j as int + 1).contains(x) implies #[trigger] self.by_xid@.contains_key(x)
                        && self.by_xid@[x] == target_of(resources, x) by {
                    if x != xid {
                        assert(news@.subrange(0, j as int).contains(x));
                    }
                }
            }
            j += 1;
        }
        assert(news@.subrange(0, 12) =~= news@);
        proof {
            let nc = self.by_client@;
            assert forall|x: u32| #[trigger] self.by_xid@.contains_key(x) implies {
                let t = self.by_xid@[x];
                &&& nc.contains_key(t.client)
                &&& child_seq(nc[t.client]).contains(x)
                &&& t == target_of(nc[t.client], x)
            } by {
                if !news@.contains(x) {
                    assert(mid.contains_key(x));
                    assert(old_targets.contains_key(x));
                    let t = old_targets[x];
                    if t.client == c {
                        assert(old_clients.contains_key(c));
                        assert(child_seq(old_clients[c]).contains(x));
                        assert(false);
                    }
                }
            }
        }
        proof {
            lemma_register_count(old_targets, self.by_xid@, displaced@, child_seq(resources));
        }
        displaced
    }

    pub fn lookup_by_client(&self, client: u32) -> (r: Option<FrameResources>)
        ensures
            r == (if self.clients().contains_key(client) {
                Some(self.clients()[client])
            } else {
                None
            }),
    {
        match self.by_client.get(&client) {
            Some(res) => Some(*res),
            None => None,
        }
    }

    pub fn lookup_by_xid(&self, xid: u32) -> (r: Option<FrameEventTarget>)
        ensures
            r == (if self.targets().contains_key(xid) {
                Some(self.targets()[xid])
            } else {
                None
            }),
    {
        match self.by_xid.get(&xid) {
            Some(t) => Some(*t),
            None => None,
        }
    }

    /// Remove a client: returns its child XIDs (the window manager destroys
    /// them and the frame parent) and drops their mappings.
    pub fn remove_client(&mut self, client: u32) -> (removed: Vec<u32>)
        requires
            old(self).wf(),
        ensures
            final(self).wf(),
            final(self).clients() == old(self).clients().remove(client),
            removed@ == (if old(self).clients().contains_key(client) {
                child_seq(old(self).clients()[client])
            } else {
                Seq::<u32>::empty()
            }),
            forall|x: u32|
                #[trigger] final(self).targets().contains_key(x) <==> (old(self).targets().contains_key(
                    x,
                ) && !removed@.contains(x)),
            forall|x: u32|
                #[trigger] final(self).targets().contains_key(x) ==> final(self).targets()[x]
                    == old(self).targets()[x] && final(self).targets()[x].client != client,
            final(self).capture_xid() == old(self).capture_xid(),
            remove_step(*old(self), *final(self), client),
            final(self).targets().len() == old(self).targets().len() - old(self).targets().dom().intersect(
                removed@.to_set(),
            ).len(),
            !old(self).clients().contains_key(client) ==> final(self).targets() == old(self).targets(),
            old(self).clients().contains_key(client) && child_seq(old(self).clients()[client]).no_duplicates()
                && (forall|x: u32| #[trigger] child_seq(old(self).clients()[client]).contains(x)
                ==> old(self).targets().contains_key(x)) ==> final(self).targets().len()
                == old(self).targets().len() - 12,
    {
        let ghost old_targets = self.by_xid@;
        let ghost old_clients = self.by_client@;
        let ghost old_capture = self.capture;
        let resources = match self.by_client.remove(&client) {
            Some(r) => r,
            None => {
                assert forall|x: u32| #[trigger] self.by_xid@.contains_key(x) implies self.by_xid@[x].client != client by {
                }
                proof {
                    let none = Seq::<u32>::empty();
                    assert(none.to_set() =~= Set::<u32>::empty());
                    assert(old_targets.dom().intersect(none.to_set()) =~= Set::<u32>::empty());
                }
                return Vec::new();
            },
        };
        let olds = resources.children();
        let mut removed: Vec<u32> = Vec::new();
        let mut i: usize = 0;
        while i < 12
            invariant
                0 <= i <= 12,
                olds@ == child_seq(resources),
                old_clients.contains_key(client) && old_clients[client] == resources,
                self.by_client@ == old_clients.remove(client),
                self.capture == old_capture,
                removed@ == olds@.subrange(0, i as int),
                forall|x: u32|
                    #[trigger] self.by_xid@.contains_key(x) <==> (old_targets.contains_key(x)
                        && !olds@.subrange(0, i as int).contains(x)),
                forall|x: u32|
                    #[trigger] self.by_xid@.contains_key(x) ==> self.by_xid@[x] == old_targets[x],
            decreases 12 - i,
        {
            let xid = olds[i];
            self.by_xid.remove(&xid);
            removed.push(xid);
            proof {
                assert(olds@.subrange(0, i as int + 1) =~= olds@.subrange(0, i as int).push(xid));
            }
            i += 1;
        }
        assert(olds@.subrange(0, 12) =~= olds@);
        proof {
            assert forall|x: u32| #[trigger] self.by_xid@.contains_key(x) implies self.by_xid@[x].client != client by {
                let t = old_targets[x];
                if t.client == client {
                    assert(child_seq(old_clients[client]).contains(x));
                }
            }
            lemma_removal_count(old_targets, self.by_xid@, removed@);
        }
        removed
    }

    /// Set the interaction-capture window.
    pub fn set_capture(&mut self, xid: u32)
        ensures
            final(self).capture_xid() == Some(xid),
            final(self).clients() == old(self).clients(),
            final(self).targets() == old(self).targets(),
    {
        self.capture = Some(xid);
    }

    /// Clear the interaction-capture window.
    pub fn clear_capture(&mut self)
        ensures
            final(self).capture_xid() == None::<u32>,
            final(self).clients() == old(self).clients(),
            final(self).targets() == old(self).targets(),
    {
        self.capture = None;
    }

    pub fn capture(&self) -> (r: Option<u32>)
        ensures
            r == self.capture_xid(),
    {
        self.capture
    }

    /// True when no client is registered.
    pub fn is_empty(&self) -> (r: bool)
        ensures
            r == (self.clients().len() == 0),
    {
        proof {
            if self.by_client@.len() == 0 {
                assert(self.by_client@.dom() =~= Set::empty());
            }
        }
        self.by_client.is_empty()
    }

    /// Number of child XIDs currently mapped.
    pub fn xid_count(&self) -> (r: usize)
        ensures
            r == self.targets().len(),
    {
        self.by_xid.len()
    }
}

/// `after` is `before` with `resources` registered: the client table gains
/// the entry and the capture window is kept.
pub open spec fn register_step(before: FrameRegistry, after: FrameRegistry, resources: FrameResources) -> bool {
    &&& after.clients() == before.clients().insert(resources.client, resources)
    &&& after.capture_xid() == before.capture_xid()
}

/// `after` is `before` with `client` removed: the client table loses the
/// entry and the capture window is kept.
pub open spec fn remove_step(before: FrameRegistry, after: FrameRegistry, client: u32) -> bool {
    &&& after.clients() == before.clients().remove(client)
    &&& after.capture_xid() == before.capture_xid()
}

/// One registration or removal leads from `before` to `after`.
pub open spec fn registry_step(before: FrameRegistry, after: FrameRegistry) -> bool {
    ||| exists|res: FrameResources| #[trigger] register_step(before, after, res)
    ||| exists|client: u32| #[trigger] remove_step(before, after, client)
}

/// Law: the interaction-capture window lives as long as the window
/// manager, not per client: through any sequence of registrations and
/// removals (as [`FrameRegistry::register`] and
/// [`FrameRegistry::remove_client`] perform them) it stays what it was.
pub proof fn lemma_capture_survives_registration(regs: Seq<FrameRegistry>)
    requires
        forall|i: int| 0 <= i < regs.len() - 1 ==> registry_step(#[trigger] regs[i], regs[i + 1]),
    ensures
        regs.len() > 0 ==> regs.last().capture_xid() == regs[0].capture_xid(),
    decreases regs.len(),
{
    if regs.len() > 1 {
        let prefix = regs.drop_last();
        assert forall|i: int| 0 <= i < prefix.len() - 1 implies registry_step(#[trigger] prefix[i], prefix[i + 1]) by {
            assert(prefix[i] == regs[i]);
            assert(prefix[i + 1] == regs[i + 1]);
        }
        lemma_capture_survives_registration(prefix);
        let k = regs.len() - 2;
        assert(registry_step(regs[k], regs[k + 1]));
        assert(prefix.last() == regs[k]);
    }
}

impl Default for FrameRegistry {
    fn default() -> (r: Self)
        ensures
            r.wf(),
            r.clients() == Map::<u32, FrameResources>::empty(),
            r.targets() == Map::<u32, FrameEventTarget>::empty(),
            r.capture_xid() == None::<u32>,
    {
        FrameRegistry::new()
    }
}

} // verus!
