//! Client requests by message: ICCCM `WM_CHANGE_STATE` and the EWMH
//! desktop, activation, close and `_NET_WM_STATE` requests, decided over
//! plain atom values; plus the workspace-count policy.

use vstd::prelude::*;

verus! {

/// ICCCM `WM_STATE` values.
pub const WM_STATE_WITHDRAWN: u32 = 0;
pub const WM_STATE_NORMAL: u32 = 1;
pub const WM_STATE_ICONIC: u32 = 3;

/// The most workspaces a client may ask for.
pub const MAX_WORKSPACES: usize = 18;

/// The atoms a client message is matched against.
#[derive(Debug, Clone, Copy, PartialEq, Eq, Structural, Hash)]
pub struct MessageAtoms {
    pub wm_change_state: u32,
    pub net_current_desktop: u32,
    pub net_number_of_desktops: u32,
    pub net_wm_desktop: u32,
    pub net_active_window: u32,
    pub net_close_window: u32,
    pub net_wm_state: u32,
}

/// What a client message asks the window manager to do.
#[derive(Debug, Clone, Copy, PartialEq, Eq, Structural, Hash)]
pub enum MessageAction {
    Minimize,
    RestoreMinimized,
    SwitchWorkspace(usize),
    SetWorkspaceCount(usize),
    MoveToWorkspace(usize),
    Focus,
    Close,
    /// `_NET_WM_STATE`: action, first and second property atoms.
    NetWmState(u32, u32, u32),
    Ignore,
}

/// The action for a message of type `type_` with the first three data
/// words `d0..d2`, for a window that is (`managed`) or is not a managed
/// client. Checks run in order; window-specific requests need a managed
/// client.
pub open spec fn message_action_spec(
    atoms: MessageAtoms,
    type_: u32,
    managed: bool,
    d0: u32,
    d1: u32,
    d2: u32,
) -> MessageAction {
    if type_ == atoms.wm_change_state && managed {
        if d0 == WM_STATE_ICONIC {
            MessageAction::Minimize
        } else {
            MessageAction::RestoreMinimized
        }
    } else if type_ == atoms.net_current_desktop {
        MessageAction::SwitchWorkspace(d0 as usize)
    } else if type_ == atoms.net_number_of_desktops {
        MessageAction::SetWorkspaceCount(d0 as usize)
    } else if type_ == atoms.net_wm_desktop {
        if managed { MessageAction::MoveToWorkspace(d0 as usize) } else { MessageAction::Ignore }
    } else if type_ == atoms.net_active_window {
        if managed { MessageAction::Focus } else { MessageAction::Ignore }
    } else if type_ == atoms.net_close_window {
        if managed { MessageAction::Close } else { MessageAction::Ignore }
    } else if type_ == atoms.net_wm_state && managed {
        MessageAction::NetWmState(d0, d1, d2)
    } else {
        MessageAction::Ignore
    }
}

pub fn message_action(
    atoms: MessageAtoms,
    type_: u32,
    managed: bool,
    d0: u32,
    d1: u32,
    d2: u32,
) -> (r: MessageAction)
    ensures
        r == message_action_spec(atoms, type_, managed, d0, d1, d2),
{
    if type_ == atoms.wm_change_state && managed {
        if d0 == WM_STATE_ICONIC {
            return MessageAction::Minimize;
        }
        return MessageAction::RestoreMinimized;
    }
    if type_ == atoms.net_current_desktop {
        MessageAction::SwitchWorkspace(d0 as usize)
    } else if type_ == atoms.net_number_of_desktops {
        MessageAction::SetWorkspaceCount(d0 as usize)
    } else if type_ == atoms.net_wm_desktop {
        if managed { MessageAction::MoveToWorkspace(d0 as usize) } else { MessageAction::Ignore }
    } else if type_ == atoms.net_active_window {
        if managed { MessageAction::Focus } else { MessageAction::Ignore }
    } else if type_ == atoms.net_close_window {
        if managed { MessageAction::Close } else { MessageAction::Ignore }
    } else if type_ == atoms.net_wm_state && managed {
        MessageAction::NetWmState(d0, d1, d2)
    } else {
        MessageAction::Ignore
    }
}

/// The `_NET_WM_STATE` property atoms the window manager honours.
#[derive(Debug, Clone, Copy, PartialEq, Eq, Structural, Hash)]
pub struct StateAtoms {
    pub maximized_horz: u32,
    pub maximized_vert: u32,
    pub fullscreen: u32,
    pub hidden: u32,
}

/// What a `_NET_WM_STATE` request changes.
#[derive(Debug, Clone, Copy, PartialEq, Eq, Structural, Hash)]
pub enum StateChange {
    Minimize,
    SetFullscreen(bool),
    ToggleMaximize,
    Keep,
}

/// EWMH state action on a flag: 0 removes, 1 adds, 2 toggles, anything
/// else keeps it.
pub open spec fn flag_after(action: u32, current: bool) -> bool {
    if action == 0 {
        false
    } else if action == 1 {
        true
    } else if action == 2 {
        !current
    } else {
        current
    }
}

pub fn state_flag(action: u32, current: bool) -> (r: bool)
    ensures
        r == flag_after(action, current),
{
    match action {
        0 => false,
        1 => true,
        2 => !current,
        _ => current,
    }
}

/// The change for a `_NET_WM_STATE` request naming `first` and `second`:
/// hiding (any action but remove) minimizes; otherwise fullscreen wins
/// over maximize; maximize toggles only when the requested flag differs
/// from the current one.
pub open spec fn state_change_spec(
    atoms: StateAtoms,
    action: u32,
    first: u32,
    second: u32,
    fullscreen_now: bool,
    maximized_now: bool,
) -> StateChange {
    let wants_max = first == atoms.maximized_horz || first == atoms.maximized_vert
        || second == atoms.maximized_horz || second == atoms.maximized_vert;
    let wants_full = first == atoms.fullscreen || second == atoms.fullscreen;
    let wants_hidden = first == atoms.hidden || second == atoms.hidden;
    if wants_hidden && action != 0 {
        StateChange::Minimize
    } else if wants_full {
        StateChange::SetFullscreen(flag_after(action, fullscreen_now))
    } else if wants_max && flag_after(action, maximized_now) != maximized_now {
        StateChange::ToggleMaximize
    } else {
        StateChange::Keep
    }
}

pub fn net_wm_state_change(
    atoms: StateAtoms,
    action: u32,
    first: u32,
    second: u32,
    fullscreen_now: bool,
    maximized_now: bool,
) -> (r: StateChange)
    ensures
        r == state_change_spec(atoms, action, first, second, fullscreen_now, maximized_now),
{
    let wants_max = first == atoms.maximized_horz || first == atoms.maximized_vert
        || second == atoms.maximized_horz || second == atoms.maximized_vert;
    let wants_full = first == atoms.fullscreen || second == atoms.fullscreen;
    let wants_hidden = first == atoms.hidden || second == atoms.hidden;
    if wants_hidden && action != 0 {
        return StateChange::Minimize;
    }
    if wants_full {
        return StateChange::SetFullscreen(state_flag(action, fullscreen_now));
    }
    if wants_max {
        let enable = state_flag(action, maximized_now);
        if enable != maximized_now {
            return StateChange::ToggleMaximize;
        }
    }
    StateChange::Keep
}

/// Law: a maximize request that asks for the current state changes
/// nothing, and toggling twice returns to the start.
pub proof fn lemma_maximize_request_idempotent(atoms: StateAtoms, action: u32, now: bool)
    requires
        action == 0 || action == 1,
        atoms.maximized_horz != atoms.fullscreen,
        atoms.maximized_horz != atoms.hidden,
    ensures
        flag_after(action, now) == now ==> state_change_spec(
            atoms,
            action,
            atoms.maximized_horz,
            atoms.maximized_horz,
            false,
            now,
        ) == StateChange::Keep,
        flag_after(2, flag_after(2, now)) == now,
{
}

/// A workspace count request clamped into `1..=18`.
pub fn clamp_workspace_count(requested: usize) -> (r: usize)
    ensures
        r == (if requested < 1 { 1 } else if requested > MAX_WORKSPACES { MAX_WORKSPACES as int } else {
            requested as int
        }),
{
    if requested < 1 {
        1
    } else if requested > MAX_WORKSPACES {
        MAX_WORKSPACES
    } else {
        requested
    }
}

/// A change of the workspace count: the new count and current workspace,
/// and the clients moved (with their new workspace), in the given order.
#[derive(Debug, Clone, PartialEq, Eq)]
pub struct WorkspaceCountPlan {
    pub count: usize,
    pub current: usize,
    pub moved: Vec<(u32, usize)>,
}

/// The clients on a workspace the new count drops, moved to its last one.
pub open spec fn moved_clients(clients: Seq<(u32, usize)>, count: int) -> Seq<(u32, usize)>
    decreases clients.len(),
{
    if clients.len() == 0 {
        Seq::empty()
    } else {
        let rest = moved_clients(clients.drop_last(), count);
        let c = clients.last();
        if c.1 >= count {
            rest.push((c.0, (count - 1) as usize))
        } else {
            rest
        }
    }
}

/// The plan for a count request: `None` when the clamped count is the
/// current one; shrinking moves every client past the new end to the last
/// workspace and pulls the current workspace in.
pub open spec fn count_plan_spec(requested: usize, count: usize, current: usize, clients: Seq<
    (u32, usize),
>) -> Option<(usize, usize, Seq<(u32, usize)>)> {
    let n = if requested < 1 { 1 } else if requested > MAX_WORKSPACES { MAX_WORKSPACES as int } else {
        requested as int
    };
    if n == count {
        None
    } else if n < count {
        Some((n as usize, if current < n { current } else { (n - 1) as usize }, moved_clients(clients, n)))
    } else {
        Some((n as usize, current, Seq::empty()))
    }
}

pub fn plan_workspace_count(
    requested: usize,
    count: usize,
    current: usize,
    clients: &[(u32, usize)],
) -> (r: Option<WorkspaceCountPlan>)
    ensures
        match r {
            None => count_plan_spec(requested, count, current, clients@) is None,
            Some(p) => count_plan_spec(requested, count, current, clients@) == Some(
                (p.count, p.current, p.moved@),
            ),
        },
{
    let n = clamp_workspace_count(requested);
    if n == count {
        return None;
    }
    if n >= count {
        return Some(WorkspaceCountPlan { count: n, current, moved: Vec::new() });
    }
    let mut moved: Vec<(u32, usize)> = Vec::new();
    let mut i: usize = 0;
    while i < clients.len()
        invariant
            1 <= n,
            i <= clients@.len(),
            moved@ == moved_clients(clients@.subrange(0, i as int), n as int),
        decreases clients@.len() - i,
    {
        let c = clients[i];
        proof {
            assert(clients@.subrange(0, i as int + 1).drop_last() =~= clients@.subrange(0, i as int));
        }
        if c.1 >= n {
            moved.push((c.0, n - 1));
        }
        i += 1;
    }
    assert(clients@.subrange(0, clients@.len() as int) =~= clients@);
    let cur = if current < n { current } else { n - 1 };
    Some(WorkspaceCountPlan { count: n, current: cur, moved })
}

/// Law: after a shrinking count change every moved client lands on the
/// new last workspace, and the current workspace is a valid one.
pub proof fn lemma_count_plan_valid(
    requested: usize,
    count: usize,
    current: usize,
    clients: Seq<(u32, usize)>,
)
    requires
        current < count,
    ensures
        count_plan_spec(requested, count, current, clients) matches Some((n, cur, moved)) ==> {
            &&& 1 <= n <= MAX_WORKSPACES
            &&& cur < n
            &&& forall|i: int| 0 <= i < moved.len() ==> #[trigger] moved[i].1 == n - 1
        },
{
    let n = if requested < 1 { 1 } else if requested > MAX_WORKSPACES { MAX_WORKSPACES as int } else {
        requested as int
    };
    if n < count {
        lemma_moved_land_last(clients, n);
    }
}

proof fn lemma_moved_land_last(clients: Seq<(u32, usize)>, n: int)
    requires
        1 <= n <= MAX_WORKSPACES,
    ensures
        forall|i: int| 0 <= i < moved_clients(clients, n).len() ==> #[trigger] moved_clients(
            clients,
            n,
        )[i].1 == n - 1,
    decreases clients.len(),
{
    if clients.len() > 0 {
        lemma_moved_land_last(clients.drop_last(), n);
        let rest = moved_clients(clients.drop_last(), n);
        let m = moved_clients(clients, n);
        assert forall|i: int| 0 <= i < m.len() implies #[trigger] m[i].1 == n - 1 by {
            if i < rest.len() {
                assert(m[i] == rest[i]);
            }
        }
    }
}

/// Whether a switch to `target` does anything: it must name another valid
/// workspace.
pub fn switch_allowed(target: usize, count: usize, current: usize) -> (r: bool)
    ensures
        r == (target < count && target != current),
{
    target < count && target != current
}

} // verus!
