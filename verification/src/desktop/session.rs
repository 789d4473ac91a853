//! The session service: which session actions the system offers and the
//! command that performs each.

use vstd::prelude::*;

verus! {

#[derive(Debug, Clone, Copy, PartialEq, Eq, Structural, Hash)]
pub enum SessionAction {
    Lock,
    Logout,
    Suspend,
    Reboot,
    Shutdown,
}

/// Which session actions are available.
#[derive(Debug, Clone, Copy, PartialEq, Eq, Structural, Hash)]
pub struct SessionCapabilities {
    pub lock: bool,
    pub logout: bool,
    pub suspend: bool,
    pub reboot: bool,
    pub shutdown: bool,
}

/// Locking and logging out need `loginctl`; suspend, reboot and shutdown
/// need `systemctl`.
pub fn session_capabilities(has_loginctl: bool, has_systemctl: bool) -> (r: SessionCapabilities)
    ensures
        r == (SessionCapabilities {
            lock: has_loginctl,
            logout: has_loginctl,
            suspend: has_systemctl,
            reboot: has_systemctl,
            shutdown: has_systemctl,
        }),
{
    SessionCapabilities {
        lock: has_loginctl,
        logout: has_loginctl,
        suspend: has_systemctl,
        reboot: has_systemctl,
        shutdown: has_systemctl,
    }
}

pub open spec fn arg_views(v: Seq<&'static str>) -> Seq<Seq<char>> {
    Seq::new(v.len(), |i: int| v[i]@)
}

/// The program and arguments that perform a session action.
pub open spec fn command_spec(action: SessionAction) -> (Seq<char>, Seq<Seq<char>>) {
    match action {
        SessionAction::Lock => ("loginctl"@, seq!["lock-session"@]),
        SessionAction::Logout => ("loginctl"@, seq!["terminate-session"@, "self"@]),
        SessionAction::Suspend => ("systemctl"@, seq!["suspend"@]),
        SessionAction::Reboot => ("systemctl"@, seq!["reboot"@]),
        SessionAction::Shutdown => ("systemctl"@, seq!["poweroff"@]),
    }
}

pub fn session_command(action: SessionAction) -> (r: (&'static str, Vec<&'static str>))
    ensures
        (r.0@, arg_views(r.1@)) == command_spec(action),
{
    let (program, args): (&'static str, Vec<&'static str>) = match action {
        SessionAction::Lock => ("loginctl", vec!["lock-session"]),
        SessionAction::Logout => ("loginctl", vec!["terminate-session", "self"]),
        SessionAction::Suspend => ("systemctl", vec!["suspend"]),
        SessionAction::Reboot => ("systemctl", vec!["reboot"]),
        SessionAction::Shutdown => ("systemctl", vec!["poweroff"]),
    };
    assert(arg_views(args@) =~= command_spec(action).1);
    (program, args)
}

} // verus!
