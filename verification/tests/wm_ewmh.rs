use flamewm_wm_x11::wm::ewmh::{
    clamp_workspace_count, message_action, net_wm_state_change, plan_workspace_count,
    state_flag, switch_allowed, MessageAction, MessageAtoms, StateAtoms, StateChange,
    WorkspaceCountPlan, WM_STATE_ICONIC,
};

const MSG: MessageAtoms = MessageAtoms {
    wm_change_state: 10,
    net_current_desktop: 11,
    net_number_of_desktops: 12,
    net_wm_desktop: 13,
    net_active_window: 14,
    net_close_window: 15,
    net_wm_state: 16,
};

const STATE: StateAtoms = StateAtoms {
    maximized_horz: 20,
    maximized_vert: 21,
    fullscreen: 22,
    hidden: 23,
};

#[test]
fn change_state_iconic_minimizes_managed_windows() {
    assert_eq!(message_action(MSG, 10, true, WM_STATE_ICONIC, 0, 0), MessageAction::Minimize);
    assert_eq!(message_action(MSG, 10, true, 1, 0, 0), MessageAction::RestoreMinimized);
    assert_eq!(message_action(MSG, 10, false, WM_STATE_ICONIC, 0, 0), MessageAction::Ignore);
}

#[test]
fn desktop_requests_route_with_their_argument() {
    assert_eq!(message_action(MSG, 11, false, 2, 0, 0), MessageAction::SwitchWorkspace(2));
    assert_eq!(message_action(MSG, 12, false, 6, 0, 0), MessageAction::SetWorkspaceCount(6));
    assert_eq!(message_action(MSG, 13, true, 3, 0, 0), MessageAction::MoveToWorkspace(3));
    assert_eq!(message_action(MSG, 13, false, 3, 0, 0), MessageAction::Ignore);
    assert_eq!(message_action(MSG, 14, true, 0, 0, 0), MessageAction::Focus);
    assert_eq!(message_action(MSG, 15, true, 0, 0, 0), MessageAction::Close);
    assert_eq!(message_action(MSG, 15, false, 0, 0, 0), MessageAction::Ignore);
    assert_eq!(message_action(MSG, 16, true, 1, 22, 0), MessageAction::NetWmState(1, 22, 0));
    assert_eq!(message_action(MSG, 16, false, 1, 22, 0), MessageAction::Ignore);
    assert_eq!(message_action(MSG, 99, true, 1, 2, 3), MessageAction::Ignore);
}

#[test]
fn state_flag_follows_ewmh_actions() {
    assert!(!state_flag(0, true));
    assert!(state_flag(1, false));
    assert!(state_flag(2, false));
    assert!(!state_flag(2, true));
    assert!(state_flag(7, true));
    assert!(!state_flag(7, false));
}

#[test]
fn net_wm_state_requests() {
    // Hidden (add or toggle) minimizes; remove does nothing for hidden.
    assert_eq!(net_wm_state_change(STATE, 1, 23, 0, false, false), StateChange::Minimize);
    assert_eq!(net_wm_state_change(STATE, 0, 23, 0, false, false), StateChange::Keep);
    // Fullscreen wins over maximize.
    assert_eq!(
        net_wm_state_change(STATE, 2, 20, 22, false, false),
        StateChange::SetFullscreen(true)
    );
    assert_eq!(
        net_wm_state_change(STATE, 0, 22, 0, true, false),
        StateChange::SetFullscreen(false)
    );
    // Maximize toggles only on a change.
    assert_eq!(net_wm_state_change(STATE, 1, 20, 21, false, false), StateChange::ToggleMaximize);
    assert_eq!(net_wm_state_change(STATE, 1, 21, 0, false, true), StateChange::Keep);
    assert_eq!(net_wm_state_change(STATE, 2, 0, 21, false, true), StateChange::ToggleMaximize);
    assert_eq!(net_wm_state_change(STATE, 1, 5, 6, false, false), StateChange::Keep);
}

#[test]
fn workspace_count_is_clamped() {
    assert_eq!(clamp_workspace_count(0), 1);
    assert_eq!(clamp_workspace_count(7), 7);
    assert_eq!(clamp_workspace_count(100), 18);
}

#[test]
fn shrinking_moves_clients_to_last_workspace() {
    let clients = [(1u32, 0usize), (2, 5), (3, 2), (4, 3)];
    let plan = plan_workspace_count(3, 6, 4, &clients).expect("changes");
    assert_eq!(
        plan,
        WorkspaceCountPlan {
            count: 3,
            current: 2,
            moved: vec![(2, 2), (4, 2)],
        }
    );
    // Same count after clamping: nothing to do.
    assert_eq!(plan_workspace_count(40, 18, 0, &clients), None);
    // Growing keeps everything in place.
    let grow = plan_workspace_count(8, 4, 1, &clients).expect("grows");
    assert_eq!((grow.count, grow.current, grow.moved.len()), (8, 1, 0));
}

#[test]
fn switching_needs_another_valid_workspace() {
    assert!(switch_allowed(1, 4, 0));
    assert!(!switch_allowed(0, 4, 0));
    assert!(!switch_allowed(4, 4, 0));
}
