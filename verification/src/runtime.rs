//! Reactor-turn signal policy: which shell signals one drained change set
//! emits, given what the refreshed snapshots showed.
//!
//! The caller refreshes the window snapshot only when windows changed and
//! compares the panel snapshot around that refresh; this module decides
//! the signals and their order.

use vstd::prelude::*;
use crate::wm::changes::WmChangeSet;

verus! {

/// A shell signal kind, in emission order within a turn.
#[derive(Debug, Clone, Copy, PartialEq, Eq, Structural, Hash)]
pub enum WmSignal {
    WindowsSnapshotChanged,
    WindowsChanged,
    WorkspacesSnapshotChanged,
    WorkspacesChanged,
    PanelsSnapshotChanged,
}

/// Signals for one turn. Windows: both window signals when the refresh
/// found a change, then the panels snapshot if it differs. Workspaces: the
/// two workspace signals and the panels snapshot. A panels-only turn emits
/// the panels snapshot. A work-area-only turn emits nothing.
pub open spec fn signal_plan_spec(changes: WmChangeSet, windows_refreshed: bool, panels_changed: bool) -> Seq<
    WmSignal,
> {
    (if changes.windows {
        (if windows_refreshed {
            seq![WmSignal::WindowsSnapshotChanged, WmSignal::WindowsChanged]
        } else {
            Seq::empty()
        }) + (if panels_changed { seq![WmSignal::PanelsSnapshotChanged] } else { Seq::empty() })
    } else {
        Seq::empty()
    }) + (if changes.workspaces {
        seq![
            WmSignal::WorkspacesSnapshotChanged,
            WmSignal::WorkspacesChanged,
            WmSignal::PanelsSnapshotChanged,
        ]
    } else {
        Seq::empty()
    }) + (if changes.panels && !changes.windows && !changes.workspaces {
        seq![WmSignal::PanelsSnapshotChanged]
    } else {
        Seq::empty()
    })
}

pub fn wm_signal_plan(changes: WmChangeSet, windows_refreshed: bool, panels_changed: bool) -> (r: Vec<
    WmSignal,
>)
    ensures
        r@ == signal_plan_spec(changes, windows_refreshed, panels_changed),
{
    let mut signals: Vec<WmSignal> = Vec::new();
    if changes.windows {
        if windows_refreshed {
            signals.push(WmSignal::WindowsSnapshotChanged);
            signals.push(WmSignal::WindowsChanged);
        }
        if panels_changed {
            signals.push(WmSignal::PanelsSnapshotChanged);
        }
    }
    if changes.workspaces {
        signals.push(WmSignal::WorkspacesSnapshotChanged);
        signals.push(WmSignal::WorkspacesChanged);
        signals.push(WmSignal::PanelsSnapshotChanged);
    }
    if changes.panels && !changes.windows && !changes.workspaces {
        signals.push(WmSignal::PanelsSnapshotChanged);
    }
    assert(signals@ =~= signal_plan_spec(changes, windows_refreshed, panels_changed));
    signals
}

/// Law: a turn with only the work area marked, or nothing marked, emits
/// no signal; and each window signal appears at most once per turn.
pub proof fn lemma_quiet_turns(changes: WmChangeSet, refreshed: bool, panels_changed: bool)
    ensures
        !changes.windows && !changes.workspaces && !changes.panels ==> signal_plan_spec(
            changes,
            refreshed,
            panels_changed,
        ).len() == 0,
        signal_plan_spec(changes, refreshed, panels_changed).len() <= 6,
{
}

/// The largest state generation of a window snapshot (0 when empty): the
/// revision the window signals carry.
pub open spec fn max_generation(gens: Seq<u64>) -> u64
    decreases gens.len(),
{
    if gens.len() == 0 {
        0
    } else {
        let m = max_generation(gens.drop_last());
        if gens.last() > m {
            gens.last()
        } else {
            m
        }
    }
}

pub fn snapshot_revision(gens: &[u64]) -> (r: u64)
    ensures
        r == max_generation(gens@),
{
    let mut m: u64 = 0;
    let mut i: usize = 0;
    while i < gens.len()
        invariant
            i <= gens@.len(),
            m == max_generation(gens@.take(i as int)),
        decreases gens@.len() - i,
    {
        proof {
            assert(gens@.take(i as int + 1).drop_last() =~= gens@.take(i as int));
        }
        if gens[i] > m {
            m = gens[i];
        }
        i += 1;
    }
    assert(gens@.take(gens@.len() as int) =~= gens@);
    m
}

/// What a watched descriptor is polled for.
#[derive(Debug, Clone, Copy, PartialEq, Eq, Structural, Hash)]
pub enum PollInterest {
    Read,
    Write,
    Both,
}

/// The poll interest for a provider's watch: both when it wants to read
/// and write, write when it only writes, else read.
pub fn interest_for(readable: bool, writable: bool) -> (r: PollInterest)
    ensures
        r == (if readable && writable {
            PollInterest::Both
        } else if writable {
            PollInterest::Write
        } else {
            PollInterest::Read
        }),
{
    match (readable, writable) {
        (true, true) => PollInterest::Both,
        (false, true) => PollInterest::Write,
        _ => PollInterest::Read,
    }
}

/// A provider's registration is renewed only when its descriptor or the
/// events it waits for changed.
pub fn provider_needs_renewal(fd: i32, events: u32, watch_fd: i32, watch_events: u32) -> (r: bool)
    ensures
        r == !(fd == watch_fd && events == watch_events),
{
    !(fd == watch_fd && events == watch_events)
}

} // verus!
