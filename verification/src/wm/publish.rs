//! Property values the window manager publishes: `_NET_WM_STATE`,
//! `_NET_FRAME_EXTENTS`, the per-workspace desktop metadata and the client
//! lists.

use vstd::prelude::*;
use std::collections::HashMap;
use crate::client::ManagedClient;
use crate::geometry::Rect;

verus! {

broadcast use vstd::std_specs::hash::group_hash_axioms;

/// The `_NET_WM_STATE` atoms published for a client.
#[derive(Debug, Clone, Copy, PartialEq, Eq, Structural, Hash)]
pub struct WindowStateAtoms {
    pub hidden: u32,
    pub maximized_vert: u32,
    pub maximized_horz: u32,
    pub fullscreen: u32,
}

/// Hidden first, then both maximized atoms (vertical, horizontal), then
/// fullscreen, each only when it holds.
pub open spec fn window_state_spec(atoms: WindowStateAtoms, minimized: bool, maximized: bool, fullscreen: bool) -> Seq<
    u32,
> {
    (if minimized { seq![atoms.hidden] } else { Seq::empty() }) + (if maximized {
        seq![atoms.maximized_vert, atoms.maximized_horz]
    } else {
        Seq::empty()
    }) + (if fullscreen { seq![atoms.fullscreen] } else { Seq::empty() })
}

pub fn window_state_values(atoms: WindowStateAtoms, minimized: bool, maximized: bool, fullscreen: bool) -> (r:
    Vec<u32>)
    ensures
        r@ == window_state_spec(atoms, minimized, maximized, fullscreen),
{
    let mut values: Vec<u32> = Vec::new();
    if minimized {
        values.push(atoms.hidden);
    }
    if maximized {
        values.push(atoms.maximized_vert);
        values.push(atoms.maximized_horz);
    }
    if fullscreen {
        values.push(atoms.fullscreen);
    }
    assert(values@ =~= window_state_spec(atoms, minimized, maximized, fullscreen));
    values
}

/// `_NET_FRAME_EXTENTS`: left, right, top (titlebar plus border), bottom.
pub fn frame_extents_values(border: u16, titlebar_h: u16) -> (r: [u32; 4])
    ensures
        r@ == seq![border as u32, border as u32, (titlebar_h + border) as u32, border as u32],
{
    let b = border as u32;
    let r = [b, b, titlebar_h as u32 + b, b];
    assert(r@ =~= seq![border as u32, border as u32, (titlebar_h + border) as u32, border as u32]);
    r
}

/// ASCII decimal digits of `n`.
pub open spec fn decimal(n: nat) -> Seq<u8>
    decreases n,
{
    if n < 10 {
        seq![(48 + n) as u8]
    } else {
        decimal(n / 10).push((48 + n % 10) as u8)
    }
}

/// `Desktop 1\0Desktop 2\0...` up to `count`.
pub open spec fn desktop_names(count: nat) -> Seq<u8>
    decreases count,
{
    if count == 0 {
        Seq::empty()
    } else {
        desktop_names((count - 1) as nat) + seq![68u8, 101, 115, 107, 116, 111, 112, 32] + decimal(count)
            + seq![0u8]
    }
}

fn push_decimal(out: &mut Vec<u8>, n: usize)
    ensures
        final(out)@ == old(out)@ + decimal(n as nat),
    decreases n,
{
    if n >= 10 {
        push_decimal(out, n / 10);
    }
    let digit: u8 = (n % 10) as u8;
    out.push(48 + digit);
    proof {
        if n >= 10 {
            assert(decimal(n as nat) == decimal((n / 10) as nat).push((48 + n % 10) as u8));
        }
    }
}

/// The work area repeated `count` times as `x, y, width, height` words.
pub open spec fn workarea_words(count: nat, work: Rect) -> Seq<u32>
    decreases count,
{
    if count == 0 {
        Seq::empty()
    } else {
        workarea_words((count - 1) as nat, work) + seq![work.x as u32, work.y as u32, work.width, work.height]
    }
}

/// Per-workspace root metadata: a zero viewport pair, the work area
/// (`x`, `y` as unsigned words, width, height) and a NUL-terminated
/// `Desktop N` name for each workspace.
#[derive(Debug, Clone, PartialEq, Eq)]
pub struct WorkspaceMetadata {
    pub viewport: Vec<u32>,
    pub workareas: Vec<u32>,
    pub names: Vec<u8>,
}

pub fn workspace_metadata(count: usize, work: Rect) -> (r: WorkspaceMetadata)
    ensures
        r.viewport@ == Seq::new((2 * count) as nat, |i: int| 0u32),
        r.workareas@ == workarea_words(count as nat, work),
        r.names@ == desktop_names(count as nat),
{
    let mut viewport: Vec<u32> = Vec::new();
    let mut workareas: Vec<u32> = Vec::new();
    let mut names: Vec<u8> = Vec::new();
    let mut index: usize = 0;
    while index < count
        invariant
            index <= count,
            viewport@ == Seq::new((2 * index) as nat, |i: int| 0u32),
            workareas@ == workarea_words(index as nat, work),
            names@ == desktop_names(index as nat),
        decreases count - index,
    {
        viewport.push(0);
        viewport.push(0);
        workareas.push(work.x as u32);
        workareas.push(work.y as u32);
        workareas.push(work.width);
        workareas.push(work.height);
        names.push(68);
        names.push(101);
        names.push(115);
        names.push(107);
        names.push(116);
        names.push(111);
        names.push(112);
        names.push(32);
        push_decimal(&mut names, index + 1);
        names.push(0);
        proof {
            assert(viewport@ =~= Seq::new((2 * (index + 1)) as nat, |i: int| 0u32));
            assert(workareas@ =~= workarea_words((index + 1) as nat, work));
            assert(names@ =~= desktop_names((index + 1) as nat));
        }
        index += 1;
    }
    WorkspaceMetadata { viewport, workareas, names }
}

/// The windows of `order` that are still managed, in order.
pub open spec fn still_managed(order: Seq<u32>, managed: Map<u32, ManagedClient>) -> Seq<u32>
    decreases order.len(),
{
    if order.len() == 0 {
        Seq::empty()
    } else {
        let rest = still_managed(order.drop_last(), managed);
        if managed.contains_key(order.last()) {
            rest.push(order.last())
        } else {
            rest
        }
    }
}

/// `_NET_CLIENT_LIST`: clients in manage order, forgotten ones skipped.
pub fn client_list(order: &[u32], clients: &HashMap<u32, ManagedClient>) -> (r: Vec<u32>)
    ensures
        r@ == still_managed(order@, clients@),
{
    let mut out: Vec<u32> = Vec::new();
    let mut i: usize = 0;
    while i < order.len()
        invariant
            i <= order@.len(),
            out@ == still_managed(order@.take(i as int), clients@),
        decreases order@.len() - i,
    {
        let w = order[i];
        proof {
            assert(order@.take(i as int + 1).drop_last() =~= order@.take(i as int));
        }
        if clients.contains_key(&w) {
            out.push(w);
        }
        i += 1;
    }
    assert(order@.take(order@.len() as int) =~= order@);
    out
}

/// The clients whose frames appear in a bottom-to-top window list, in
/// that order.
pub open spec fn clients_by_frame(children: Seq<u32>, owners: Map<u32, u32>) -> Seq<u32>
    decreases children.len(),
{
    if children.len() == 0 {
        Seq::empty()
    } else {
        let rest = clients_by_frame(children.drop_last(), owners);
        if owners.contains_key(children.last()) {
            rest.push(owners[children.last()])
        } else {
            rest
        }
    }
}

/// `_NET_CLIENT_LIST_STACKING`: the root's children (bottom to top) that
/// are frames, as their clients.
pub fn stacking_list(children: &[u32], frame_to_client: &HashMap<u32, u32>) -> (r: Vec<u32>)
    ensures
        r@ == clients_by_frame(children@, frame_to_client@),
{
    let mut out: Vec<u32> = Vec::new();
    let mut i: usize = 0;
    while i < children.len()
        invariant
            i <= children@.len(),
            out@ == clients_by_frame(children@.take(i as int), frame_to_client@),
        decreases children@.len() - i,
    {
        let w = children[i];
        proof {
            assert(children@.take(i as int + 1).drop_last() =~= children@.take(i as int));
        }
        match frame_to_client.get(&w) {
            Some(c) => out.push(*c),
            None => {},
        }
        i += 1;
    }
    assert(children@.take(children@.len() as int) =~= children@);
    out
}

/// `order` without any occurrence of `window`.
pub open spec fn without(order: Seq<u32>, window: u32) -> Seq<u32>
    decreases order.len(),
{
    if order.len() == 0 {
        Seq::empty()
    } else {
        let rest = without(order.drop_last(), window);
        if order.last() != window {
            rest.push(order.last())
        } else {
            rest
        }
    }
}

/// Drop an unmanaged window from the manage order, keeping the others in
/// order.
pub fn forget_window(order: &mut Vec<u32>, window: u32)
    ensures
        final(order)@ == without(old(order)@, window),
{
    let mut kept: Vec<u32> = Vec::new();
    let mut i: usize = 0;
    while i < order.len()
        invariant
            i <= order@.len(),
            order@ == old(order)@,
            kept@ == without(order@.take(i as int), window),
        decreases order@.len() - i,
    {
        let w = order[i];
        proof {
            assert(order@.take(i as int + 1).drop_last() =~= order@.take(i as int));
        }
        if w != window {
            kept.push(w);
        }
        i += 1;
    }
    assert(order@.take(order@.len() as int) =~= order@);
    *order = kept;
}

} // verus!
