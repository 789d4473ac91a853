//! A display mode change that waits to be kept or reverted: at most one
//! at a time, named by a transaction number that grows with each change.

use vstd::prelude::*;
use crate::desktop::error::DesktopError;

verus! {

/// What is needed to undo a mode change: the CRTC and output it touched
/// and the CRTC's mode, position and rotation before it.
#[derive(Debug, Clone, Copy, PartialEq, Eq, Structural, Hash)]
pub struct PendingMode {
    pub transaction: u64,
    pub crtc: u32,
    pub output: u32,
    pub old_mode: u32,
    pub old_x: i16,
    pub old_y: i16,
    pub old_rotation: u16,
}

/// What to do with one output while looking for the one to change.
#[derive(Debug, Clone, Copy, PartialEq, Eq, Structural, Hash)]
pub enum ModeCandidate {
    /// Not the output asked for (or not connected): look further.
    Skip,
    /// The output asked for, but it has no CRTC or does not offer the
    /// mode.
    Reject,
    /// Change the mode on this CRTC.
    Use(u32),
}

pub open spec fn candidate_spec(name_matches: bool, connected: bool, crtc: u32, modes: Seq<u32>, mode: u64) -> ModeCandidate {
    if !connected || !name_matches {
        ModeCandidate::Skip
    } else if crtc == 0 || !modes.contains(mode as u32) {
        ModeCandidate::Reject
    } else {
        ModeCandidate::Use(crtc)
    }
}

/// Judge one output: connected and named as asked, with a CRTC and the
/// mode (its id taken as 32 bits) among its modes.
pub fn mode_candidate(name_matches: bool, connected: bool, crtc: u32, modes: &[u32], mode: u64) -> (r: ModeCandidate)
    ensures
        r == candidate_spec(name_matches, connected, crtc, modes@, mode),
{
    if !connected || !name_matches {
        return ModeCandidate::Skip;
    }
    if crtc == 0 {
        return ModeCandidate::Reject;
    }
    let wanted: u32 = #[verifier::truncate] (mode as u32);
    let mut i: usize = 0;
    while i < modes.len()
        invariant
            0 <= i <= modes@.len(),
            connected && name_matches && crtc != 0,
            wanted == mode as u32,
            forall|j: int| 0 <= j < i ==> modes@[j] != wanted,
        decreases modes@.len() - i,
    {
        if modes[i] == wanted {
            assert(modes@[i as int] == wanted);
            return ModeCandidate::Use(crtc);
        }
        i += 1;
    }
    ModeCandidate::Reject
}

/// The transaction counter after a change: one more, saturating, never 0.
pub open spec fn next_transaction_spec(n: u64) -> u64 {
    if n == u64::MAX {
        u64::MAX
    } else {
        (n + 1) as u64
    }
}

/// The undo record a commit leaves.
pub open spec fn committed(s: ModeTransactions, crtc: u32, output: u32, old_mode: u32, old_x: i16, old_y: i16, old_rotation: u16) -> ModeTransactions {
    let t = next_transaction_spec(s.next_transaction);
    ModeTransactions {
        next_transaction: t,
        pending: Some(PendingMode { transaction: t, crtc, output, old_mode, old_x, old_y, old_rotation }),
    }
}

/// The change to undo for transaction `t`, if it is the pending one.
pub open spec fn revert_target_spec(s: ModeTransactions, t: u64) -> Result<PendingMode, DesktopError> {
    match s.pending {
        Some(p) => if p.transaction == t {
            Ok(p)
        } else {
            Err(DesktopError::ModeTransactionNotFound)
        },
        None => Err(DesktopError::ModeTransactionNotFound),
    }
}

/// The counter and the pending change.
#[derive(Debug, Clone, Copy, PartialEq, Eq, Structural, Hash)]
pub struct ModeTransactions {
    pub next_transaction: u64,
    pub pending: Option<PendingMode>,
}

impl ModeTransactions {
    /// No change made yet.
    pub fn new() -> (r: Self)
        ensures
            r == (ModeTransactions { next_transaction: 0, pending: None }),
    {
        ModeTransactions { next_transaction: 0, pending: None }
    }

    /// A new change may start only when none is pending.
    pub fn begin(&self) -> (r: Result<(), DesktopError>)
        ensures
            r == (if self.pending is Some {
                Err(DesktopError::ModeTransactionPending)
            } else {
                Ok(())
            }),
    {
        if self.pending.is_some() {
            Err(DesktopError::ModeTransactionPending)
        } else {
            Ok(())
        }
    }

    /// Record an applied change and return its transaction number.
    pub fn commit(&mut self, crtc: u32, output: u32, old_mode: u32, old_x: i16, old_y: i16, old_rotation: u16) -> (t: u64)
        ensures
            t == next_transaction_spec(old(self).next_transaction),
            t != 0,
            *final(self) == committed(*old(self), crtc, output, old_mode, old_x, old_y, old_rotation),
    {
        let t = if self.next_transaction == u64::MAX {
            u64::MAX
        } else {
            self.next_transaction + 1
        };
        self.next_transaction = t;
        self.pending = Some(PendingMode { transaction: t, crtc, output, old_mode, old_x, old_y, old_rotation });
        t
    }

    /// Keep the pending change named `transaction`.
    pub fn keep(&mut self, transaction: u64) -> (r: Result<(), DesktopError>)
        ensures
            match old(self).pending {
                Some(p) => p.transaction == transaction,
                None => false,
            } ==> r == Ok::<(), DesktopError>(()) && *final(self) == (ModeTransactions { pending: None, ..*old(self) }),
            !match old(self).pending {
                Some(p) => p.transaction == transaction,
                None => false,
            } ==> r == Err::<(), DesktopError>(DesktopError::ModeTransactionNotFound) && *final(self) == *old(self),
    {
        let matches = match self.pending {
            Some(p) => p.transaction == transaction,
            None => false,
        };
        if !matches {
            return Err(DesktopError::ModeTransactionNotFound);
        }
        self.pending = None;
        Ok(())
    }

    /// The change to undo for `transaction`.
    pub fn revert_target(&self, transaction: u64) -> (r: Result<PendingMode, DesktopError>)
        ensures
            r == revert_target_spec(*self, transaction),
    {
        match self.pending {
            Some(p) => if p.transaction == transaction {
                Ok(p)
            } else {
                Err(DesktopError::ModeTransactionNotFound)
            },
            None => Err(DesktopError::ModeTransactionNotFound),
        }
    }

    /// The change was undone: nothing is pending any more.
    pub fn reverted(&mut self)
        ensures
            *final(self) == (ModeTransactions { pending: None, ..*old(self) }),
    {
        self.pending = None;
    }
}

/// Law: transaction numbers grow: a later change gets a larger number,
/// unless the counter has reached its ceiling.
pub proof fn lemma_transactions_increase(n: u64)
    ensures
        next_transaction_spec(n) != 0,
        n < u64::MAX ==> next_transaction_spec(next_transaction_spec(n)) > next_transaction_spec(n) || next_transaction_spec(n) == u64::MAX,
        next_transaction_spec(n) >= n,
{
}

/// Law: a committed change can be undone by its transaction number, and
/// the undo restores exactly what the commit recorded; once kept (or
/// reverted), the number names nothing, and a new change may start.
pub proof fn lemma_commit_then_revert(s: ModeTransactions, crtc: u32, output: u32, old_mode: u32, old_x: i16, old_y: i16, old_rotation: u16)
    ensures
        ({
            let c = committed(s, crtc, output, old_mode, old_x, old_y, old_rotation);
            let t = c.next_transaction;
            &&& revert_target_spec(c, t) == Ok::<PendingMode, DesktopError>(
                PendingMode { transaction: t, crtc, output, old_mode, old_x, old_y, old_rotation },
            )
            &&& revert_target_spec(ModeTransactions { pending: None, ..c }, t)
                == Err::<PendingMode, DesktopError>(DesktopError::ModeTransactionNotFound)
            &&& c.pending is Some
            &&& (ModeTransactions { pending: None, ..c }).pending is None
        }),
{
}

} // verus!
